//! Security descriptors in their self-relative form.

use super::acl::Acl;
use super::masks::SecurityDescriptorControl;
use super::Sid;
use crate::wire::{le_u16, le_u32, read_u16_le, read_u32_le, tail};
use vstd::prelude::*;

verus! {

/// A security descriptor.
#[derive(Clone, Debug, PartialEq, Eq, Hash)]
pub struct SecurityDescriptor {
    pub revision: u8,
    pub sbz1: u8,
    pub control: SecurityDescriptorControl,
    pub owner: Option<Sid>,
    pub group: Option<Sid>,
    pub sacl: Option<Acl>,
    pub dacl: Option<Acl>,
}

/// The offset field at `field` is zero, or a SID starts where it points
/// to and lies within `b`.
pub open spec fn sid_field_ok(b: Seq<u8>, field: int) -> bool {
    le_u32(b, field) != 0 ==> le_u32(b, field) < b.len() && Sid::starts(tail(b, le_u32(b, field)))
}

/// The end of the list that starts at `at`, by its size field.
pub open spec fn acl_end(b: Seq<u8>, at: int) -> int {
    at + le_u16(b, at + 2)
}

/// The offset field at `field` is zero, or a well-formed list starts where
/// it points to and lies within `b`.
pub open spec fn acl_field_ok(b: Seq<u8>, field: int) -> bool {
    let at = le_u32(b, field);
    at != 0 ==> {
        &&& at < b.len()
        &&& Acl::starts(tail(b, at))
        &&& acl_end(b, at) <= b.len()
        &&& Acl::wire_ok(b.subrange(at, acl_end(b, at)))
    }
}

/// `sid` is what the offset field at `field` points to.
pub open spec fn sid_field_decoded(sid: Option<Sid>, b: Seq<u8>, field: int) -> bool {
    let at = le_u32(b, field);
    if at == 0 {
        sid is None
    } else {
        sid matches Some(s) && s.decoded_from(b.subrange(at, at + Sid::wire_len(tail(b, at))))
    }
}

/// `acl` is what the offset field at `field` points to.
pub open spec fn acl_field_decoded(acl: Option<Acl>, b: Seq<u8>, field: int) -> bool {
    let at = le_u32(b, field);
    if at == 0 {
        acl is None
    } else {
        acl matches Some(a) && a.decoded_from(b.subrange(at, acl_end(b, at)))
    }
}

fn sid_field(bytes: &[u8], field: usize) -> (r: Result<Option<Sid>, ()>)
    requires
        field + 4 <= bytes.len(),
    ensures
        r is Ok <==> sid_field_ok(bytes@, field as int),
        r matches Ok(s) ==> sid_field_decoded(s, bytes@, field as int),
{
    let ghost b = bytes@;
    let offset: usize = read_u32_le(bytes, field) as usize;
    if offset == 0 {
        return Ok(None);
    }
    if offset >= bytes.len() {
        return Err(());
    }
    let size: usize = match Sid::get_length(&bytes[offset..bytes.len()]) {
        Some(n) => n,
        None => {
            return Err(());
        },
    };
    proof {
        let t = tail(b, offset as int);
        assert(t.subrange(0, size as int) =~= b.subrange(offset as int, offset + size));
        assert(Sid::wire_ok(t.subrange(0, size as int)));
    }
    match Sid::try_from_bytes(&bytes[offset..offset + size]) {
        Some(s) => Ok(Some(s)),
        None => Err(()),
    }
}

fn acl_field(bytes: &[u8], field: usize) -> (r: Result<Option<Acl>, ()>)
    requires
        field + 4 <= bytes.len(),
    ensures
        r is Ok <==> acl_field_ok(bytes@, field as int),
        r matches Ok(a) ==> acl_field_decoded(a, bytes@, field as int),
{
    let ghost b = bytes@;
    let offset: usize = read_u32_le(bytes, field) as usize;
    if offset == 0 {
        return Ok(None);
    }
    if offset >= bytes.len() {
        return Err(());
    }
    let size: usize = match Acl::get_length(&bytes[offset..bytes.len()]) {
        Some(n) => n,
        None => {
            return Err(());
        },
    };
    assert(offset + size == acl_end(b, offset as int));
    if size > bytes.len() - offset {
        return Err(());
    }
    match Acl::try_from_bytes(&bytes[offset..offset + size]) {
        Some(a) => Ok(Some(a)),
        None => Err(()),
    }
}

impl SecurityDescriptor {
    /// `b` is a self-relative descriptor of revision 1 whose owner, group
    /// and lists, where their offsets are not zero, lie within `b`.
    pub open spec fn wire_ok(b: Seq<u8>) -> bool {
        &&& b.len() >= 20
        &&& b[0] == 1
        &&& (SecurityDescriptorControl { bits: le_u16(b, 2) as u16 }).has(
            SecurityDescriptorControl::SELF_RELATIVE,
        )
        &&& sid_field_ok(b, 4)
        &&& sid_field_ok(b, 8)
        &&& acl_field_ok(b, 12)
        &&& acl_field_ok(b, 16)
    }

    /// `self` is the descriptor that `b` holds.
    pub open spec fn decoded_from(&self, b: Seq<u8>) -> bool {
        &&& self.revision == 1
        &&& self.sbz1 == b[1]
        &&& self.control.bits == le_u16(b, 2)
        &&& sid_field_decoded(self.owner, b, 4)
        &&& sid_field_decoded(self.group, b, 8)
        &&& acl_field_decoded(self.sacl, b, 12)
        &&& acl_field_decoded(self.dacl, b, 16)
    }

    /// Decodes a security descriptor.
    pub fn try_from_bytes(bytes: &[u8]) -> (r: Option<SecurityDescriptor>)
        ensures
            r is Some <==> SecurityDescriptor::wire_ok(bytes@),
            r matches Some(d) ==> d.decoded_from(bytes@),
    {
        if bytes.len() < 20 {
            return None;
        }
        let revision: u8 = bytes[0];
        if revision != 1 {
            return None;
        }
        let sbz1: u8 = bytes[1];
        let control: SecurityDescriptorControl = SecurityDescriptorControl::from(
            read_u16_le(bytes, 2),
        );
        if !control.contains(SecurityDescriptorControl::SELF_RELATIVE) {
            return None;
        }
        let owner: Option<Sid> = match sid_field(bytes, 4) {
            Ok(s) => s,
            Err(_) => {
                return None;
            },
        };
        let group: Option<Sid> = match sid_field(bytes, 8) {
            Ok(s) => s,
            Err(_) => {
                return None;
            },
        };
        let sacl: Option<Acl> = match acl_field(bytes, 12) {
            Ok(a) => a,
            Err(_) => {
                return None;
            },
        };
        let dacl: Option<Acl> = match acl_field(bytes, 16) {
            Ok(a) => a,
            Err(_) => {
                return None;
            },
        };
        Some(SecurityDescriptor { revision, sbz1, control, owner, group, sacl, dacl })
    }
}

} // verus!
