//! Claim security attributes, the payload of resource attribute entries.

use super::masks::ClaimFlags;
use super::{sid_text_error, Sid};
use crate::values::{nul_terminated_text, nul_terminated_utf16le_string};
use crate::wire::{
    copy_range, le_i64, le_u16, le_u32, le_u64, read_i64_le, read_u16_le, read_u32_le, read_u64_le,
    tail,
};
use vstd::prelude::*;
use vstd::utf8::encode_utf8;

verus! {

/// The values of a claim; all of them have one type.
#[derive(Clone, Debug, PartialEq, Eq, Hash, PartialOrd, Ord)]
pub enum ClaimValues {
    Int64s(Vec<i64>),
    Uint64s(Vec<u64>),
    Strings(Vec<String>),
    Sids(Vec<Sid>),
    Booleans(Vec<bool>),
    OctetStrings(Vec<Vec<u8>>),
}

/// A claim security attribute in its relative form.
#[derive(Clone, Debug, PartialEq, Eq, Hash, PartialOrd, Ord)]
pub struct ClaimSecurityAttribute1 {
    pub name: String,
    pub reserved: u16,
    pub flags: ClaimFlags,
    pub values: ClaimValues,
}

/// The offset of value `i` of the claim `b`.
pub open spec fn value_offset(b: Seq<u8>, i: int) -> int {
    le_u32(b, 16 + 4 * i)
}

/// Whether `kind` is a value type that the decoder knows.
pub open spec fn kind_known(kind: int) -> bool {
    kind == 1 || kind == 2 || kind == 3 || kind == 5 || kind == 6 || kind == 0x10
}

/// Whether a value of type `kind` can be read at `at`.
pub open spec fn value_ok(b: Seq<u8>, kind: int, at: int) -> bool {
    if kind == 1 || kind == 2 {
        at + 8 <= b.len()
    } else if kind == 3 {
        nul_terminated_text(tail(b, at)) is Some
    } else if kind == 5 {
        &&& nul_terminated_text(tail(b, at)) is Some
        &&& sid_text_error(encode_utf8(nul_terminated_text(tail(b, at)).unwrap())) is None
    } else if kind == 6 {
        at + 8 <= b.len() && le_u64(b, at) <= 1
    } else if kind == 0x10 {
        at + 4 <= b.len() && at + 4 + le_u32(b, at) <= b.len()
    } else {
        false
    }
}

impl ClaimValues {
    /// `self` holds the `count` values of type `kind` that `b` addresses.
    pub open spec fn decoded_from(&self, b: Seq<u8>, kind: int, count: int) -> bool {
        match self {
            ClaimValues::Int64s(v) => {
                &&& kind == 1
                &&& v@.len() == count
                &&& forall|i: int|
                    0 <= i < count ==> #[trigger] v@[i] == le_i64(b, value_offset(b, i))
            },
            ClaimValues::Uint64s(v) => {
                &&& kind == 2
                &&& v@.len() == count
                &&& forall|i: int|
                    0 <= i < count ==> #[trigger] v@[i] == le_u64(b, value_offset(b, i))
            },
            ClaimValues::Strings(v) => {
                &&& kind == 3
                &&& v@.len() == count
                &&& forall|i: int|
                    0 <= i < count ==> Some((#[trigger] v@[i])@) == nul_terminated_text(
                        tail(b, value_offset(b, i)),
                    )
            },
            ClaimValues::Sids(v) => {
                &&& kind == 5
                &&& v@.len() == count
                &&& forall|i: int|
                    0 <= i < count ==> (#[trigger] v@[i]).parsed_from(
                        encode_utf8(nul_terminated_text(tail(b, value_offset(b, i))).unwrap()),
                    )
            },
            ClaimValues::Booleans(v) => {
                &&& kind == 6
                &&& v@.len() == count
                &&& forall|i: int|
                    0 <= i < count ==> #[trigger] v@[i] == (le_u64(b, value_offset(b, i)) == 1)
            },
            ClaimValues::OctetStrings(v) => {
                &&& kind == 0x10
                &&& v@.len() == count
                &&& forall|i: int|
                    0 <= i < count ==> (#[trigger] v@[i])@ == b.subrange(
                        value_offset(b, i) + 4,
                        value_offset(b, i) + 4 + le_u32(b, value_offset(b, i)),
                    )
            },
        }
    }
}

impl ClaimSecurityAttribute1 {
    /// `b` holds a claim: a header of 16 bytes, the offsets of the values,
    /// and a name and values that lie within `b`.
    pub open spec fn wire_ok(b: Seq<u8>) -> bool {
        &&& b.len() >= 16
        &&& le_u32(b, 0) < b.len()
        &&& nul_terminated_text(tail(b, le_u32(b, 0))) is Some
        &&& 16 + 4 * le_u32(b, 12) <= b.len()
        &&& kind_known(le_u16(b, 4))
        &&& forall|i: int|
            0 <= i < le_u32(b, 12) ==> #[trigger] value_offset(b, i) < b.len() && value_ok(
                b,
                le_u16(b, 4),
                value_offset(b, i),
            )
    }

    /// `self` is the claim that `b` holds.
    pub open spec fn decoded_from(&self, b: Seq<u8>) -> bool {
        &&& Some(self.name@) == nul_terminated_text(tail(b, le_u32(b, 0)))
        &&& self.reserved == le_u16(b, 6)
        &&& self.flags.bits == le_u32(b, 8)
        &&& self.values.decoded_from(b, le_u16(b, 4), le_u32(b, 12))
    }

    /// Decodes a claim security attribute.
    pub fn try_from_bytes(bytes: &[u8]) -> (r: Option<ClaimSecurityAttribute1>)
        ensures
            r is Some <==> ClaimSecurityAttribute1::wire_ok(bytes@),
            r matches Some(c) ==> c.decoded_from(bytes@),
    {
        let ghost b = bytes@;
        if bytes.len() < 16 {
            return None;
        }
        let name_offset: usize = read_u32_le(bytes, 0) as usize;
        let value_type: u16 = read_u16_le(bytes, 4);
        let reserved: u16 = read_u16_le(bytes, 6);
        let flags: ClaimFlags = ClaimFlags::from(read_u32_le(bytes, 8));
        let value_count: usize = read_u32_le(bytes, 12) as usize;

        if name_offset >= bytes.len() {
            return None;
        }
        let name: String = match nul_terminated_utf16le_string(&bytes[name_offset..bytes.len()]) {
            Some(n) => n,
            None => {
                return None;
            },
        };
        if value_count > (bytes.len() - 16) / 4 {
            return None;
        }
        let mut offsets: Vec<usize> = Vec::new();
        let mut i: usize = 0;
        while i < value_count
            invariant
                b == bytes@,
                b.len() == bytes.len(),
                b.len() >= 16,
                value_count == le_u32(b, 12),
                16 + 4 * value_count <= b.len(),
                i <= value_count,
                offsets@.len() == i,
                forall|j: int|
                    0 <= j < i ==> offsets@[j] == #[trigger] value_offset(b, j) && offsets@[j]
                        < b.len(),
            decreases value_count - i,
        {
            let offset: usize = read_u32_le(bytes, 16 + 4 * i) as usize;
            if offset >= bytes.len() {
                assert(!(value_offset(b, i as int) < b.len()));
                return None;
            }
            offsets.push(offset);
            i += 1;
        }
        let ghost kind = value_type as int;
        let values: ClaimValues = if value_type == 0x0001 {
            let mut values: Vec<i64> = Vec::new();
            let mut i: usize = 0;
            while i < value_count
                invariant
                    b == bytes@,
                    b.len() == bytes.len(),
                    kind == 1,
                    kind == le_u16(b, 4),
                    value_count == le_u32(b, 12),
                    i <= value_count,
                    offsets@.len() == value_count,
                    forall|j: int|
                        0 <= j < value_count ==> offsets@[j] == #[trigger] value_offset(b, j)
                            && offsets@[j] < b.len(),
                    values@.len() == i,
                    forall|j: int| 0 <= j < i ==> value_ok(b, kind, #[trigger] value_offset(b, j)),
                    forall|j: int|
                        0 <= j < i ==> #[trigger] values@[j] == le_i64(b, value_offset(b, j)),
                decreases value_count - i,
            {
                let offset: usize = offsets[i];
                assert(offset == value_offset(b, i as int));
                if bytes.len() - offset < 8 {
                    assert(!value_ok(b, kind, value_offset(b, i as int)));
                    return None;
                }
                values.push(read_i64_le(bytes, offset));
                i += 1;
            }
            ClaimValues::Int64s(values)
        } else if value_type == 0x0002 {
            let mut values: Vec<u64> = Vec::new();
            let mut i: usize = 0;
            while i < value_count
                invariant
                    b == bytes@,
                    b.len() == bytes.len(),
                    kind == 2,
                    kind == le_u16(b, 4),
                    value_count == le_u32(b, 12),
                    i <= value_count,
                    offsets@.len() == value_count,
                    forall|j: int|
                        0 <= j < value_count ==> offsets@[j] == #[trigger] value_offset(b, j)
                            && offsets@[j] < b.len(),
                    values@.len() == i,
                    forall|j: int| 0 <= j < i ==> value_ok(b, kind, #[trigger] value_offset(b, j)),
                    forall|j: int|
                        0 <= j < i ==> #[trigger] values@[j] == le_u64(b, value_offset(b, j)),
                decreases value_count - i,
            {
                let offset: usize = offsets[i];
                assert(offset == value_offset(b, i as int));
                if bytes.len() - offset < 8 {
                    assert(!value_ok(b, kind, value_offset(b, i as int)));
                    return None;
                }
                values.push(read_u64_le(bytes, offset));
                i += 1;
            }
            ClaimValues::Uint64s(values)
        } else if value_type == 0x0003 {
            let mut values: Vec<String> = Vec::new();
            let mut i: usize = 0;
            while i < value_count
                invariant
                    b == bytes@,
                    b.len() == bytes.len(),
                    kind == 3,
                    kind == le_u16(b, 4),
                    value_count == le_u32(b, 12),
                    i <= value_count,
                    offsets@.len() == value_count,
                    forall|j: int|
                        0 <= j < value_count ==> offsets@[j] == #[trigger] value_offset(b, j)
                            && offsets@[j] < b.len(),
                    values@.len() == i,
                    forall|j: int| 0 <= j < i ==> value_ok(b, kind, #[trigger] value_offset(b, j)),
                    forall|j: int|
                        0 <= j < i ==> Some((#[trigger] values@[j])@) == nul_terminated_text(
                            tail(b, value_offset(b, j)),
                        ),
                decreases value_count - i,
            {
                let offset: usize = offsets[i];
                assert(offset == value_offset(b, i as int));
                let value: String = match nul_terminated_utf16le_string(
                    &bytes[offset..bytes.len()],
                ) {
                    Some(v) => v,
                    None => {
                        assert(!value_ok(b, kind, value_offset(b, i as int)));
                        return None;
                    },
                };
                values.push(value);
                i += 1;
            }
            ClaimValues::Strings(values)
        } else if value_type == 0x0005 {
            let mut values: Vec<Sid> = Vec::new();
            let mut i: usize = 0;
            while i < value_count
                invariant
                    b == bytes@,
                    b.len() == bytes.len(),
                    kind == 5,
                    kind == le_u16(b, 4),
                    value_count == le_u32(b, 12),
                    i <= value_count,
                    offsets@.len() == value_count,
                    forall|j: int|
                        0 <= j < value_count ==> offsets@[j] == #[trigger] value_offset(b, j)
                            && offsets@[j] < b.len(),
                    values@.len() == i,
                    forall|j: int| 0 <= j < i ==> value_ok(b, kind, #[trigger] value_offset(b, j)),
                    forall|j: int|
                        0 <= j < i ==> (#[trigger] values@[j]).parsed_from(
                            encode_utf8(
                                nul_terminated_text(tail(b, value_offset(b, j))).unwrap(),
                            ),
                        ),
                decreases value_count - i,
            {
                let offset: usize = offsets[i];
                assert(offset == value_offset(b, i as int));
                let sid_string: String = match nul_terminated_utf16le_string(
                    &bytes[offset..bytes.len()],
                ) {
                    Some(v) => v,
                    None => {
                        assert(!value_ok(b, kind, value_offset(b, i as int)));
                        return None;
                    },
                };
                let value: Sid = match Sid::from_str(sid_string.as_str()) {
                    Ok(v) => v,
                    Err(_) => {
                        assert(!value_ok(b, kind, value_offset(b, i as int)));
                        return None;
                    },
                };
                values.push(value);
                i += 1;
            }
            ClaimValues::Sids(values)
        } else if value_type == 0x0006 {
            let mut values: Vec<bool> = Vec::new();
            let mut i: usize = 0;
            while i < value_count
                invariant
                    b == bytes@,
                    b.len() == bytes.len(),
                    kind == 6,
                    kind == le_u16(b, 4),
                    value_count == le_u32(b, 12),
                    i <= value_count,
                    offsets@.len() == value_count,
                    forall|j: int|
                        0 <= j < value_count ==> offsets@[j] == #[trigger] value_offset(b, j)
                            && offsets@[j] < b.len(),
                    values@.len() == i,
                    forall|j: int| 0 <= j < i ==> value_ok(b, kind, #[trigger] value_offset(b, j)),
                    forall|j: int|
                        0 <= j < i ==> #[trigger] values@[j] == (le_u64(b, value_offset(b, j))
                            == 1),
                decreases value_count - i,
            {
                let offset: usize = offsets[i];
                assert(offset == value_offset(b, i as int));
                if bytes.len() - offset < 8 {
                    assert(!value_ok(b, kind, value_offset(b, i as int)));
                    return None;
                }
                let numeric_value: u64 = read_u64_le(bytes, offset);
                if numeric_value > 1 {
                    assert(!value_ok(b, kind, value_offset(b, i as int)));
                    return None;
                }
                values.push(numeric_value == 1);
                i += 1;
            }
            ClaimValues::Booleans(values)
        } else if value_type == 0x0010 {
            let mut values: Vec<Vec<u8>> = Vec::new();
            let mut i: usize = 0;
            while i < value_count
                invariant
                    b == bytes@,
                    b.len() == bytes.len(),
                    kind == 0x10,
                    kind == le_u16(b, 4),
                    value_count == le_u32(b, 12),
                    i <= value_count,
                    offsets@.len() == value_count,
                    forall|j: int|
                        0 <= j < value_count ==> offsets@[j] == #[trigger] value_offset(b, j)
                            && offsets@[j] < b.len(),
                    values@.len() == i,
                    forall|j: int| 0 <= j < i ==> value_ok(b, kind, #[trigger] value_offset(b, j)),
                    forall|j: int|
                        0 <= j < i ==> (#[trigger] values@[j])@ == b.subrange(
                            value_offset(b, j) + 4,
                            value_offset(b, j) + 4 + le_u32(b, value_offset(b, j)),
                        ),
                decreases value_count - i,
            {
                let offset: usize = offsets[i];
                assert(offset == value_offset(b, i as int));
                if bytes.len() - offset < 4 {
                    assert(!value_ok(b, kind, value_offset(b, i as int)));
                    return None;
                }
                let data_length: usize = read_u32_le(bytes, offset) as usize;
                if bytes.len() - offset - 4 < data_length {
                    assert(!value_ok(b, kind, value_offset(b, i as int)));
                    return None;
                }
                values.push(copy_range(bytes, offset + 4, offset + 4 + data_length));
                i += 1;
            }
            ClaimValues::OctetStrings(values)
        } else {
            return None;
        };
        Some(ClaimSecurityAttribute1 { name, reserved, flags, values })
    }
}

} // verus!
