//! Access control lists.

use super::ace::Ace;
use crate::wire::{le_u16, read_u16_le};
use vstd::prelude::*;

verus! {

/// The revision of an access control list.
#[derive(Clone, Copy, Debug, PartialEq, Eq, Structural, Hash)]
pub enum AclRevision {
    /// Revision 2: entries without object types.
    Revision,
    /// Revision 4: may hold entries with object types.
    Ds,
    /// Any other number.
    Other(u8),
}

impl AclRevision {
    /// The number of the revision.
    pub open spec fn number(self) -> u8 {
        match self {
            AclRevision::Revision => 0x02,
            AclRevision::Ds => 0x04,
            AclRevision::Other(v) => v,
        }
    }

    /// `Other` holds no number that has a name.
    pub open spec fn canonical(self) -> bool {
        self matches AclRevision::Other(v) ==> v != 0x02 && v != 0x04
    }

    /// The revision with the given number.
    pub fn from_base_type(value: u8) -> (r: AclRevision)
        ensures
            r.number() == value,
            r.canonical(),
    {
        if value == 0x02 {
            AclRevision::Revision
        } else if value == 0x04 {
            AclRevision::Ds
        } else {
            AclRevision::Other(value)
        }
    }

    /// The number of the revision.
    pub fn to_base_type(&self) -> (r: u8)
        ensures
            r == self.number(),
    {
        match self {
            AclRevision::Revision => 0x02,
            AclRevision::Ds => 0x04,
            AclRevision::Other(v) => *v,
        }
    }
}

/// An access control list.
#[derive(Clone, Debug, PartialEq, Eq, Hash)]
pub struct Acl {
    pub revision: AclRevision,
    pub sbz1: u8,
    pub sbz2: u16,
    pub entries: Vec<Ace>,
}

/// Where entry `j` of the list `b` starts: the first one after the header
/// of eight bytes, each other one where the size field of the one before
/// says that it ends.
pub open spec fn ace_offset(b: Seq<u8>, j: nat) -> int
    decreases j,
{
    if j == 0 {
        8
    } else {
        ace_offset(b, (j - 1) as nat) + le_u16(b, ace_offset(b, (j - 1) as nat) + 2)
    }
}

/// Entry `j` of the list `b` lies within `b` and is well formed.
pub open spec fn ace_fits(b: Seq<u8>, j: nat) -> bool {
    &&& ace_offset(b, j) + 4 <= b.len()
    &&& ace_offset(b, j + 1) <= b.len()
    &&& Ace::wire_ok(b.subrange(ace_offset(b, j), ace_offset(b, j + 1)))
}

impl Acl {
    /// `b` starts with the header of a list of a known revision.
    pub open spec fn starts(b: Seq<u8>) -> bool {
        b.len() >= 8 && (b[0] == 0x02 || b[0] == 0x04)
    }

    /// `b` is one list: its size field gives the length of `b`, and the
    /// entries that its count announces fill `b` to the end.
    pub open spec fn wire_ok(b: Seq<u8>) -> bool {
        &&& Acl::starts(b)
        &&& le_u16(b, 2) == b.len()
        &&& forall|j: nat| j < le_u16(b, 4) ==> #[trigger] ace_fits(b, j)
        &&& ace_offset(b, le_u16(b, 4) as nat) == b.len()
    }

    /// `self` is the list that `b` holds.
    pub open spec fn decoded_from(&self, b: Seq<u8>) -> bool {
        &&& self.revision.number() == b[0]
        &&& self.revision.canonical()
        &&& self.sbz1 == b[1]
        &&& self.sbz2 == le_u16(b, 6)
        &&& self.entries@.len() == le_u16(b, 4)
        &&& forall|j: nat|
            j < le_u16(b, 4) ==> (#[trigger] self.entries@[j as int]).decoded_from(
                b.subrange(ace_offset(b, j), ace_offset(b, j + 1)),
            )
    }

    /// The size that the list at the start of `bytes` declares.
    pub fn get_length(bytes: &[u8]) -> (r: Option<usize>)
        ensures
            r is Some <==> Acl::starts(bytes@),
            r matches Some(n) ==> n == le_u16(bytes@, 2),
    {
        if bytes.len() < 8 {
            return None;
        }
        let revision: AclRevision = AclRevision::from_base_type(bytes[0]);
        if let AclRevision::Other(_) = revision {
            return None;
        }
        Some(read_u16_le(bytes, 2) as usize)
    }

    /// Decodes a list that fills `bytes` exactly.
    pub fn try_from_bytes(bytes: &[u8]) -> (r: Option<Acl>)
        ensures
            r is Some <==> Acl::wire_ok(bytes@),
            r matches Some(a) ==> a.decoded_from(bytes@),
    {
        let ghost b = bytes@;
        if bytes.len() < 8 {
            return None;
        }
        let revision: AclRevision = AclRevision::from_base_type(bytes[0]);
        if let AclRevision::Other(_) = revision {
            return None;
        }
        let sbz1: u8 = bytes[1];
        let acl_size: usize = read_u16_le(bytes, 2) as usize;
        if bytes.len() != acl_size {
            return None;
        }
        let ace_count: u16 = read_u16_le(bytes, 4);
        let sbz2: u16 = read_u16_le(bytes, 6);

        let mut current_offset: usize = 8;
        let mut entries: Vec<Ace> = Vec::new();
        let mut i: u16 = 0;
        while i < ace_count
            invariant
                b == bytes@,
                b.len() == bytes.len(),
                ace_count == le_u16(b, 4),
                i <= ace_count,
                8 <= current_offset <= b.len(),
                current_offset == ace_offset(b, i as nat),
                entries@.len() == i,
                forall|j: nat| j < i ==> #[trigger] ace_fits(b, j),
                forall|j: nat|
                    j < i ==> (#[trigger] entries@[j as int]).decoded_from(
                        b.subrange(ace_offset(b, j), ace_offset(b, j + 1)),
                    ),
            decreases ace_count - i,
        {
            if bytes.len() - current_offset < 4 {
                assert(!ace_fits(b, i as nat));
                return None;
            }
            let ace_size: usize = read_u16_le(bytes, current_offset + 2) as usize;
            assert(ace_offset(b, (i + 1) as nat) == current_offset + ace_size);
            if ace_size > bytes.len() - current_offset {
                assert(!ace_fits(b, i as nat));
                return None;
            }
            let ace: Ace = match Ace::try_from_bytes(
                &bytes[current_offset..current_offset + ace_size],
            ) {
                Some(a) => a,
                None => {
                    assert(!ace_fits(b, i as nat));
                    return None;
                },
            };
            current_offset += ace_size;
            entries.push(ace);
            i += 1;
        }
        if current_offset != bytes.len() {
            return None;
        }
        Some(Acl { revision, sbz1, sbz2, entries })
    }
}

} // verus!
