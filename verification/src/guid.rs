//! Globally unique identifiers as the directory stores them.

use crate::text::hex_byte_lower;
use vstd::prelude::*;

verus! {

/// A 128-bit identifier. `bytes` holds it in the order in which its text
/// form shows it.
#[derive(Clone, Copy, Debug, PartialEq, Eq, Hash, PartialOrd, Ord)]
pub struct Guid {
    pub bytes: [u8; 16],
}

/// The bytes of an identifier in text order, given its little-endian wire
/// layout: the first three fields are reversed, the last eight bytes stay.
pub open spec fn text_order(le: Seq<u8>) -> Seq<u8> {
    seq![
        le[3], le[2], le[1], le[0],
        le[5], le[4],
        le[7], le[6],
        le[8], le[9], le[10], le[11], le[12], le[13], le[14], le[15],
    ]
}

/// Lower-case hexadecimal digits of `bytes[from..to]`.
pub open spec fn hex_run(bytes: Seq<u8>, from: int, to: int) -> Seq<char>
    decreases to - from,
{
    if from >= to {
        Seq::empty()
    } else {
        hex_byte_lower(bytes[from]) + hex_run(bytes, from + 1, to)
    }
}

/// The hyphenated text form, `xxxxxxxx-xxxx-xxxx-xxxx-xxxxxxxxxxxx`.
pub open spec fn hyphenated(bytes: Seq<u8>) -> Seq<char> {
    hex_run(bytes, 0, 4) + seq!['-'] + hex_run(bytes, 4, 6) + seq!['-'] + hex_run(bytes, 6, 8)
        + seq!['-'] + hex_run(bytes, 8, 10) + seq!['-'] + hex_run(bytes, 10, 16)
}

/// `uuid::Uuid::from_slice_le`: fails unless the slice holds 16 bytes, and
/// otherwise reverses the byte order of the first three fields. The value is
/// handed back as the bytes that `Uuid::into_bytes` gives.
#[verifier::external_body]
fn uuid_from_slice_le(bytes: &[u8]) -> (r: Option<[u8; 16]>)
    ensures
        r is Some <==> bytes@.len() == 16,
        r matches Some(a) ==> a@ == text_order(bytes@),
{
    match uuid::Uuid::from_slice_le(bytes) {
        Ok(u) => Some(u.into_bytes()),
        Err(_) => None,
    }
}

/// `Display` of `uuid::Uuid`: the hyphenated form in lower case.
#[verifier::external_body]
fn uuid_to_string(bytes: &[u8; 16]) -> (r: String)
    ensures
        r@ == hyphenated(bytes@),
{
    uuid::Uuid::from_bytes(*bytes).to_string()
}

impl Guid {
    /// Reads an identifier from its 16-byte little-endian wire layout.
    pub fn from_slice_le(bytes: &[u8]) -> (r: Option<Guid>)
        ensures
            r is Some <==> bytes@.len() == 16,
            r matches Some(g) ==> g.bytes@ == text_order(bytes@),
    {
        match uuid_from_slice_le(bytes) {
            Some(a) => Some(Guid { bytes: a }),
            None => None,
        }
    }

    /// The hyphenated lower-case text form.
    pub fn to_string(&self) -> (r: String)
        ensures
            r@ == hyphenated(self.bytes@),
    {
        uuid_to_string(&self.bytes)
    }
}

} // verus!
