//! The prefix table and the version record of the schema.

use crate::guid::{text_order, Guid};
use crate::oid_prefix::OidPrefix;
use crate::wire::{be_u32, le_u16, le_u32, read_u16_le, read_u32_be, read_u32_le};
use vstd::prelude::*;

verus! {

/// A number under which the database stores the attributes whose object
/// identifiers start with a prefix.
#[derive(Clone, Debug, PartialEq, Eq, Hash, PartialOrd, Ord)]
pub struct PrefixEntry {
    pub db_prefix: u16,
    pub oid_prefix: OidPrefix,
}

/// The prefix table of the schema.
#[derive(Clone, Debug, PartialEq, Eq, Hash, PartialOrd, Ord)]
pub struct PrefixMap {
    pub prefixes: Vec<PrefixEntry>,
}

/// Where entry `j` of the prefix table `b` starts: the first one after the
/// header of eight bytes, each other one where the length field of the one
/// before says that it ends.
pub open spec fn entry_offset(b: Seq<u8>, j: nat) -> int
    decreases j,
{
    if j == 0 {
        8
    } else {
        entry_offset(b, (j - 1) as nat) + 4 + le_u16(b, entry_offset(b, (j - 1) as nat) + 2)
    }
}

/// Entry `j` of the prefix table `b` lies within `b`.
pub open spec fn entry_fits(b: Seq<u8>, j: nat) -> bool {
    entry_offset(b, j) + 4 <= b.len() && entry_offset(b, j + 1) <= b.len()
}

impl PrefixMap {
    /// `b` is a prefix table: a header of eight bytes, which gives the
    /// count of the entries and the length of `b`, and as many entries,
    /// which fill `b` to the end.
    pub open spec fn wire_ok(b: Seq<u8>) -> bool {
        &&& b.len() >= 8
        &&& le_u32(b, 4) == b.len()
        &&& forall|j: nat| j < le_u32(b, 0) ==> #[trigger] entry_fits(b, j)
        &&& entry_offset(b, le_u32(b, 0) as nat) == b.len()
    }

    /// `self` is the prefix table that `b` holds.
    pub open spec fn decoded_from(&self, b: Seq<u8>) -> bool {
        &&& self.prefixes@.len() == le_u32(b, 0)
        &&& forall|j: nat|
            j < le_u32(b, 0) ==> {
                &&& (#[trigger] self.prefixes@[j as int]).db_prefix == le_u16(
                    b,
                    entry_offset(b, j),
                )
                &&& self.prefixes@[j as int].oid_prefix.decoded_from(
                    b.subrange(entry_offset(b, j) + 4, entry_offset(b, j + 1)),
                )
            }
    }

    /// Decodes the prefix table of the schema.
    pub fn try_from_bytes(bytes: &[u8]) -> (r: Option<PrefixMap>)
        ensures
            r is Some <==> PrefixMap::wire_ok(bytes@),
            r matches Some(m) ==> m.decoded_from(bytes@),
    {
        let ghost b = bytes@;
        if bytes.len() < 8 {
            return None;
        }
        let num_entries: u32 = read_u32_le(bytes, 0);
        let num_bytes: usize = read_u32_le(bytes, 4) as usize;
        if num_bytes != bytes.len() {
            return None;
        }
        let mut prefixes: Vec<PrefixEntry> = Vec::new();
        let mut i: usize = 8;
        let mut n: u32 = 0;
        while n < num_entries
            invariant
                b == bytes@,
                b.len() == bytes.len(),
                num_entries == le_u32(b, 0),
                n <= num_entries,
                8 <= i <= b.len(),
                i == entry_offset(b, n as nat),
                prefixes@.len() == n,
                forall|j: nat| j < n ==> #[trigger] entry_fits(b, j),
                forall|j: nat|
                    j < n ==> {
                        &&& (#[trigger] prefixes@[j as int]).db_prefix == le_u16(
                            b,
                            entry_offset(b, j),
                        )
                        &&& prefixes@[j as int].oid_prefix.decoded_from(
                            b.subrange(entry_offset(b, j) + 4, entry_offset(b, j + 1)),
                        )
                    },
            decreases num_entries - n,
        {
            if bytes.len() - i < 4 {
                assert(!entry_fits(b, n as nat));
                return None;
            }
            let db_prefix: u16 = read_u16_le(bytes, i);
            let ber_len: usize = read_u16_le(bytes, i + 2) as usize;
            assert(entry_offset(b, (n + 1) as nat) == i + 4 + ber_len);
            i += 4;
            if bytes.len() - i < ber_len {
                assert(!entry_fits(b, n as nat));
                return None;
            }
            let oid_prefix: OidPrefix = OidPrefix::from_ber_bytes(&bytes[i..i + ber_len]);
            i += ber_len;
            prefixes.push(PrefixEntry { db_prefix, oid_prefix });
            n += 1;
        }
        if i != bytes.len() {
            return None;
        }
        Some(PrefixMap { prefixes })
    }
}

/// The version of the schema and who updated it last.
#[derive(Clone, Copy, Debug, PartialEq, Eq, Hash, PartialOrd, Ord)]
pub struct SchemaInfo {
    pub identifier: u8,
    pub schema_version: u32,
    pub last_updater_invocation_id: Guid,
}

impl SchemaInfo {
    /// `b` is a version record: 21 bytes, the first of them 0xFF.
    pub open spec fn wire_ok(b: Seq<u8>) -> bool {
        b.len() == 21 && b[0] == 0xFF
    }

    /// `self` is the version record that `b` holds.
    pub open spec fn decoded_from(&self, b: Seq<u8>) -> bool {
        &&& self.identifier == 0xFF
        &&& self.schema_version == be_u32(b, 1)
        &&& self.last_updater_invocation_id.bytes@ == text_order(b.subrange(5, 21))
    }

    /// Decodes the version record of the schema.
    pub fn try_from_bytes(bytes: &[u8]) -> (r: Option<SchemaInfo>)
        ensures
            r is Some <==> SchemaInfo::wire_ok(bytes@),
            r matches Some(s) ==> s.decoded_from(bytes@),
    {
        if bytes.len() != 21 {
            return None;
        }
        let identifier: u8 = bytes[0];
        if identifier != 0xFF {
            return None;
        }
        let schema_version: u32 = read_u32_be(bytes, 1);
        match Guid::from_slice_le(&bytes[5..21]) {
            Some(last_updater_invocation_id) => Some(
                SchemaInfo { identifier, schema_version, last_updater_invocation_id },
            ),
            None => None,
        }
    }
}

} // verus!
