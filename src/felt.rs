//! Field elements of the Stark field and their arithmetic.
use starknet_crypto::FieldElement;
use vstd::prelude::*;

verus! {

/// The prime of the Stark field: 2^251 + 17 * 2^192 + 1.
pub open spec fn field_prime() -> int {
    0x0800_0000_0000_0011 * pow2_64() * pow2_64() * pow2_64() + 1
}

/// 2^64.
pub open spec fn pow2_64() -> int {
    0x1_0000_0000_0000_0000
}

/// The unsigned integer that a big-endian byte string encodes.
pub open spec fn be_value(b: Seq<u8>) -> nat
    decreases b.len(),
{
    if b.len() == 0 {
        0
    } else {
        be_value(b.drop_last()) * 256 + b.last() as nat
    }
}

/// A short ASCII string (at most 31 characters): it fits in one field element.
pub open spec fn is_short_string(s: Seq<char>) -> bool {
    &&& s.len() <= 31
    &&& forall|i: int| 0 <= i < s.len() ==> (s[i] as u32) < 128
}

/// The integer whose big-endian bytes are the characters of an ASCII string
/// (a Cairo short string).
pub open spec fn short_string_value(s: Seq<char>) -> nat
    decreases s.len(),
{
    if s.len() == 0 {
        0
    } else {
        short_string_value(s.drop_last()) * 256 + s.last() as nat
    }
}

/// An element of the Stark field, held as its canonical 32-byte big-endian
/// encoding.
#[derive(Clone, Copy, Debug, PartialEq, Eq)]
pub struct Felt {
    pub(crate) bytes: [u8; 32],
}

impl View for Felt {
    type V = int;

    closed spec fn view(&self) -> int {
        be_value(self.bytes@) as int
    }
}

/// The values of a sequence of field elements.
pub open spec fn felt_values(s: Seq<Felt>) -> Seq<int> {
    s.map_values(|f: Felt| f@)
}

impl Felt {
    /// The encoding is canonical: its value lies below the field prime.
    #[verifier::type_invariant]
    closed spec fn canonical(&self) -> bool {
        be_value(self.bytes@) < field_prime()
    }

    /// Reads a canonical big-endian encoding; `None` where the value is not
    /// below the field prime.
    pub fn from_bytes_be(bytes: [u8; 32]) -> (r: Option<Felt>)
        ensures
            r is Some <==> be_value(bytes@) < field_prime(),
            r matches Some(f) ==> f@ == be_value(bytes@),
    {
        let r = felt_from_bytes_be(&bytes);
        match r {
            Ok(f) => Some(f),
            Err(_) => None,
        }
    }

    /// The canonical big-endian encoding.
    pub fn to_bytes_be(&self) -> (r: [u8; 32])
        ensures
            be_value(r@) == self@,
    {
        self.bytes
    }

    /// The field element of a native integer.
    pub fn from_u128(n: u128) -> (r: Felt)
        ensures
            r@ == n as int,
    {
        felt_from_u128(n)
    }

    /// The field element of a native integer.
    pub fn from_u64(n: u64) -> (r: Felt)
        ensures
            r@ == n as int,
    {
        felt_from_u128(n as u128)
    }

    /// The field element whose big-endian bytes are the characters of a short
    /// ASCII string.
    pub fn from_short_string(s: &str) -> (r: Felt)
        requires
            is_short_string(s@),
        ensures
            r@ == short_string_value(s@),
    {
        felt_from_short_string(s)
    }

    /// Field addition.
    pub fn add(&self, other: &Felt) -> (r: Felt)
        ensures
            r@ == (self@ + other@) % field_prime(),
    {
        felt_add(self, other)
    }

    /// The remainder of the integer value of `self` divided by that of `modulus`.
    pub fn rem(&self, modulus: &Felt) -> (r: Felt)
        requires
            modulus@ > 0,
        ensures
            r@ == self@ % modulus@,
    {
        felt_rem(self, modulus)
    }
}

/// Relies on `FieldElement::from_bytes_be`: accepts exactly the encodings whose
/// value lies below the field prime, and keeps the value.
#[verifier::external_body]
fn felt_from_bytes_be(bytes: &[u8; 32]) -> (r: Result<Felt, ()>)
    ensures
        r is Ok <==> be_value(bytes@) < field_prime(),
        r matches Ok(f) ==> f@ == be_value(bytes@),
{
    match FieldElement::from_bytes_be(bytes) {
        Ok(f) => Ok(Felt { bytes: f.to_bytes_be() }),
        Err(_) => Err(()),
    }
}

/// Relies on `FieldElement::from(u128)`: the element whose value is the integer.
#[verifier::external_body]
fn felt_from_u128(n: u128) -> (r: Felt)
    ensures
        r@ == n as int,
{
    Felt { bytes: FieldElement::from(n).to_bytes_be() }
}

/// Relies on `FieldElement::from_byte_slice_be`: up to 32 bytes read as a
/// big-endian integer; under 32 bytes it never fails.
#[verifier::external_body]
fn felt_from_short_string(s: &str) -> (r: Felt)
    requires
        is_short_string(s@),
    ensures
        r@ == short_string_value(s@),
{
    Felt { bytes: FieldElement::from_byte_slice_be(s.as_bytes()).unwrap().to_bytes_be() }
}

/// Relies on `FieldElement`'s `Add`: addition modulo the field prime. Both
/// arguments are canonical, so their conversions cannot fail.
#[verifier::external_body]
fn felt_add(a: &Felt, b: &Felt) -> (r: Felt)
    ensures
        r@ == (a@ + b@) % field_prime(),
{
    let fa = FieldElement::from_bytes_be(&a.bytes).unwrap();
    let fb = FieldElement::from_bytes_be(&b.bytes).unwrap();
    Felt { bytes: (fa + fb).to_bytes_be() }
}

/// Relies on `FieldElement`'s `Rem`: the remainder of the integer values; it
/// panics only on a zero divisor. Both arguments are canonical, so their
/// conversions cannot fail.
#[verifier::external_body]
fn felt_rem(a: &Felt, b: &Felt) -> (r: Felt)
    requires
        b@ > 0,
    ensures
        r@ == a@ % b@,
{
    let fa = FieldElement::from_bytes_be(&a.bytes).unwrap();
    let fb = FieldElement::from_bytes_be(&b.bytes).unwrap();
    Felt { bytes: (fa % fb).to_bytes_be() }
}

} // verus!
