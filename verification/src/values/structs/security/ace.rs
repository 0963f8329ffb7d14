//! Access control entries.

use super::claim::ClaimSecurityAttribute1;
use super::masks::{AccessMask, AceFlags, MandatoryMask};
use super::Sid;
use crate::guid::{text_order, Guid};
use crate::wire::{copy_range, le_u16, le_u32, read_u16_le, read_u32_le, tail};
use vstd::prelude::*;

verus! {

/// What an access control entry says, by its type.
#[derive(Clone, Debug, PartialEq, Eq, Hash, PartialOrd, Ord)]
pub enum AceData {
    /// Type 0x00.
    AccessAllowed { mask: AccessMask, sid: Sid },
    /// Type 0x01.
    AccessDenied { mask: AccessMask, sid: Sid },
    /// Type 0x02.
    SystemAudit { mask: AccessMask, sid: Sid },
    /// Type 0x05.
    AccessAllowedObject {
        mask: AccessMask,
        flags: u32,
        object_type: Option<Guid>,
        inherited_object_type: Option<Guid>,
        sid: Sid,
    },
    /// Type 0x06.
    AccessDeniedObject {
        mask: AccessMask,
        flags: u32,
        object_type: Option<Guid>,
        inherited_object_type: Option<Guid>,
        sid: Sid,
    },
    /// Type 0x07.
    SystemAuditObject {
        mask: AccessMask,
        flags: u32,
        object_type: Option<Guid>,
        inherited_object_type: Option<Guid>,
        sid: Sid,
    },
    /// Type 0x09.
    AccessAllowedCallback { mask: AccessMask, sid: Sid },
    /// Type 0x0A.
    AccessDeniedCallback { mask: AccessMask, sid: Sid },
    /// Type 0x0B.
    AccessAllowedCallbackObject {
        mask: AccessMask,
        flags: u32,
        object_type: Option<Guid>,
        inherited_object_type: Option<Guid>,
        sid: Sid,
    },
    /// Type 0x0C.
    AccessDeniedCallbackObject {
        mask: AccessMask,
        flags: u32,
        object_type: Option<Guid>,
        inherited_object_type: Option<Guid>,
        sid: Sid,
    },
    /// Type 0x0D.
    SystemAuditCallback { mask: AccessMask, sid: Sid },
    /// Type 0x0F.
    SystemAuditCallbackObject {
        mask: AccessMask,
        flags: u32,
        object_type: Option<Guid>,
        inherited_object_type: Option<Guid>,
        sid: Sid,
    },
    /// Type 0x11.
    SystemMandatoryLabel { mask: MandatoryMask, sid: Sid },
    /// Type 0x12.
    SystemResourceAttribute { mask: AccessMask, sid: Sid, attribute_data: ClaimSecurityAttribute1 },
    /// Type 0x13.
    SystemScopedPolicyId { mask: AccessMask, sid: Sid },
    /// Any other type; the payload is kept as the entry's application data.
    Other { kind: u8 },
}

/// The layouts that the payload of an entry can have.
#[derive(Clone, Copy, Debug, PartialEq, Eq, Structural)]
pub enum AceShape {
    /// An access mask and a SID.
    MaskAndSid,
    /// An access mask, object flags, up to two GUIDs and a SID.
    Object,
    /// A mandatory label mask and a SID.
    MandatoryLabel,
    /// An access mask, a SID and a claim security attribute.
    ResourceAttribute,
    /// Nothing that the decoder knows.
    Other,
}

/// The layout of an entry of type `kind`.
pub open spec fn shape_of(kind: u8) -> AceShape {
    if kind == 0x00 || kind == 0x01 || kind == 0x02 || kind == 0x09 || kind == 0x0A || kind == 0x0D
        || kind == 0x13 {
        AceShape::MaskAndSid
    } else if kind == 0x05 || kind == 0x06 || kind == 0x07 || kind == 0x0B || kind == 0x0C || kind
        == 0x0F {
        AceShape::Object
    } else if kind == 0x11 {
        AceShape::MandatoryLabel
    } else if kind == 0x12 {
        AceShape::ResourceAttribute
    } else {
        AceShape::Other
    }
}

fn ace_shape(kind: u8) -> (r: AceShape)
    ensures
        r == shape_of(kind),
{
    if kind == 0x00 || kind == 0x01 || kind == 0x02 || kind == 0x09 || kind == 0x0A || kind == 0x0D
        || kind == 0x13 {
        AceShape::MaskAndSid
    } else if kind == 0x05 || kind == 0x06 || kind == 0x07 || kind == 0x0B || kind == 0x0C || kind
        == 0x0F {
        AceShape::Object
    } else if kind == 0x11 {
        AceShape::MandatoryLabel
    } else if kind == 0x12 {
        AceShape::ResourceAttribute
    } else {
        AceShape::Other
    }
}

impl AceData {
    /// The type byte of the entry.
    pub open spec fn type_code(&self) -> u8 {
        match self {
            AceData::AccessAllowed { .. } => 0x00,
            AceData::AccessDenied { .. } => 0x01,
            AceData::SystemAudit { .. } => 0x02,
            AceData::AccessAllowedObject { .. } => 0x05,
            AceData::AccessDeniedObject { .. } => 0x06,
            AceData::SystemAuditObject { .. } => 0x07,
            AceData::AccessAllowedCallback { .. } => 0x09,
            AceData::AccessDeniedCallback { .. } => 0x0A,
            AceData::AccessAllowedCallbackObject { .. } => 0x0B,
            AceData::AccessDeniedCallbackObject { .. } => 0x0C,
            AceData::SystemAuditCallback { .. } => 0x0D,
            AceData::SystemAuditCallbackObject { .. } => 0x0F,
            AceData::SystemMandatoryLabel { .. } => 0x11,
            AceData::SystemResourceAttribute { .. } => 0x12,
            AceData::SystemScopedPolicyId { .. } => 0x13,
            AceData::Other { kind } => *kind,
        }
    }

    /// The access mask, where the entry has one.
    pub open spec fn mask_of(&self) -> Option<AccessMask> {
        match self {
            AceData::AccessAllowed { mask, .. } => Some(*mask),
            AceData::AccessDenied { mask, .. } => Some(*mask),
            AceData::SystemAudit { mask, .. } => Some(*mask),
            AceData::AccessAllowedObject { mask, .. } => Some(*mask),
            AceData::AccessDeniedObject { mask, .. } => Some(*mask),
            AceData::SystemAuditObject { mask, .. } => Some(*mask),
            AceData::AccessAllowedCallback { mask, .. } => Some(*mask),
            AceData::AccessDeniedCallback { mask, .. } => Some(*mask),
            AceData::AccessAllowedCallbackObject { mask, .. } => Some(*mask),
            AceData::AccessDeniedCallbackObject { mask, .. } => Some(*mask),
            AceData::SystemAuditCallback { mask, .. } => Some(*mask),
            AceData::SystemAuditCallbackObject { mask, .. } => Some(*mask),
            AceData::SystemMandatoryLabel { .. } => None,
            AceData::SystemResourceAttribute { mask, .. } => Some(*mask),
            AceData::SystemScopedPolicyId { mask, .. } => Some(*mask),
            AceData::Other { .. } => None,
        }
    }

    /// The mandatory label mask, where the entry is a mandatory label.
    pub open spec fn label_mask_of(&self) -> Option<MandatoryMask> {
        match self {
            AceData::SystemMandatoryLabel { mask, .. } => Some(*mask),
            _ => None,
        }
    }

    /// The object flags, where the entry is of an object type.
    pub open spec fn object_flags_of(&self) -> Option<u32> {
        match self {
            AceData::AccessAllowedObject { flags, .. } => Some(*flags),
            AceData::AccessDeniedObject { flags, .. } => Some(*flags),
            AceData::SystemAuditObject { flags, .. } => Some(*flags),
            AceData::AccessAllowedCallbackObject { flags, .. } => Some(*flags),
            AceData::AccessDeniedCallbackObject { flags, .. } => Some(*flags),
            AceData::SystemAuditCallbackObject { flags, .. } => Some(*flags),
            _ => None,
        }
    }

    /// The GUID of the object type, where the entry names one.
    pub open spec fn object_type_of(&self) -> Option<Guid> {
        match self {
            AceData::AccessAllowedObject { object_type, .. } => *object_type,
            AceData::AccessDeniedObject { object_type, .. } => *object_type,
            AceData::SystemAuditObject { object_type, .. } => *object_type,
            AceData::AccessAllowedCallbackObject { object_type, .. } => *object_type,
            AceData::AccessDeniedCallbackObject { object_type, .. } => *object_type,
            AceData::SystemAuditCallbackObject { object_type, .. } => *object_type,
            _ => None,
        }
    }

    /// The GUID of the inherited object type, where the entry names one.
    pub open spec fn inherited_object_type_of(&self) -> Option<Guid> {
        match self {
            AceData::AccessAllowedObject { inherited_object_type, .. } => *inherited_object_type,
            AceData::AccessDeniedObject { inherited_object_type, .. } => *inherited_object_type,
            AceData::SystemAuditObject { inherited_object_type, .. } => *inherited_object_type,
            AceData::AccessAllowedCallbackObject { inherited_object_type, .. } => {
                *inherited_object_type
            },
            AceData::AccessDeniedCallbackObject { inherited_object_type, .. } => {
                *inherited_object_type
            },
            AceData::SystemAuditCallbackObject { inherited_object_type, .. } => {
                *inherited_object_type
            },
            _ => None,
        }
    }

    /// The SID of the trustee, where the entry has one.
    pub open spec fn sid_of(&self) -> Option<Sid> {
        match self {
            AceData::AccessAllowed { sid, .. } => Some(*sid),
            AceData::AccessDenied { sid, .. } => Some(*sid),
            AceData::SystemAudit { sid, .. } => Some(*sid),
            AceData::AccessAllowedObject { sid, .. } => Some(*sid),
            AceData::AccessDeniedObject { sid, .. } => Some(*sid),
            AceData::SystemAuditObject { sid, .. } => Some(*sid),
            AceData::AccessAllowedCallback { sid, .. } => Some(*sid),
            AceData::AccessDeniedCallback { sid, .. } => Some(*sid),
            AceData::AccessAllowedCallbackObject { sid, .. } => Some(*sid),
            AceData::AccessDeniedCallbackObject { sid, .. } => Some(*sid),
            AceData::SystemAuditCallback { sid, .. } => Some(*sid),
            AceData::SystemAuditCallbackObject { sid, .. } => Some(*sid),
            AceData::SystemMandatoryLabel { sid, .. } => Some(*sid),
            AceData::SystemResourceAttribute { sid, .. } => Some(*sid),
            AceData::SystemScopedPolicyId { sid, .. } => Some(*sid),
            AceData::Other { .. } => None,
        }
    }

    /// The claim, where the entry is a resource attribute.
    pub open spec fn attribute_of(&self) -> Option<ClaimSecurityAttribute1> {
        match self {
            AceData::SystemResourceAttribute { attribute_data, .. } => Some(*attribute_data),
            _ => None,
        }
    }

    /// The access mask, where the entry has one.
    pub fn access_mask(&self) -> (r: Option<AccessMask>)
        ensures
            r == self.mask_of(),
    {
        match self {
            AceData::AccessAllowed { mask, .. } => Some(*mask),
            AceData::AccessDenied { mask, .. } => Some(*mask),
            AceData::SystemAudit { mask, .. } => Some(*mask),
            AceData::AccessAllowedObject { mask, .. } => Some(*mask),
            AceData::AccessDeniedObject { mask, .. } => Some(*mask),
            AceData::SystemAuditObject { mask, .. } => Some(*mask),
            AceData::AccessAllowedCallback { mask, .. } => Some(*mask),
            AceData::AccessDeniedCallback { mask, .. } => Some(*mask),
            AceData::AccessAllowedCallbackObject { mask, .. } => Some(*mask),
            AceData::AccessDeniedCallbackObject { mask, .. } => Some(*mask),
            AceData::SystemAuditCallback { mask, .. } => Some(*mask),
            AceData::SystemAuditCallbackObject { mask, .. } => Some(*mask),
            AceData::SystemMandatoryLabel { .. } => None,
            AceData::SystemResourceAttribute { mask, .. } => Some(*mask),
            AceData::SystemScopedPolicyId { mask, .. } => Some(*mask),
            AceData::Other { .. } => None,
        }
    }

    /// The GUID of the object type, where the entry names one.
    pub fn object_guid(&self) -> (r: Option<Guid>)
        ensures
            r == self.object_type_of(),
    {
        match self {
            AceData::AccessAllowedObject { object_type, .. } => *object_type,
            AceData::AccessDeniedObject { object_type, .. } => *object_type,
            AceData::SystemAuditObject { object_type, .. } => *object_type,
            AceData::AccessAllowedCallbackObject { object_type, .. } => *object_type,
            AceData::AccessDeniedCallbackObject { object_type, .. } => *object_type,
            AceData::SystemAuditCallbackObject { object_type, .. } => *object_type,
            _ => None,
        }
    }

    /// The GUID of the inherited object type, where the entry names one.
    pub fn inherit_object_guid(&self) -> (r: Option<Guid>)
        ensures
            r == self.inherited_object_type_of(),
    {
        match self {
            AceData::AccessAllowedObject { inherited_object_type, .. } => *inherited_object_type,
            AceData::AccessDeniedObject { inherited_object_type, .. } => *inherited_object_type,
            AceData::SystemAuditObject { inherited_object_type, .. } => *inherited_object_type,
            AceData::AccessAllowedCallbackObject { inherited_object_type, .. } => {
                *inherited_object_type
            },
            AceData::AccessDeniedCallbackObject { inherited_object_type, .. } => {
                *inherited_object_type
            },
            AceData::SystemAuditCallbackObject { inherited_object_type, .. } => {
                *inherited_object_type
            },
            _ => None,
        }
    }

    /// The SID of the trustee, where the entry has one.
    pub fn sid(&self) -> (r: Option<&Sid>)
        ensures
            r matches Some(s) ==> self.sid_of() == Some(*s),
            r is None ==> self.sid_of() is None,
    {
        match self {
            AceData::AccessAllowed { sid, .. } => Some(sid),
            AceData::AccessDenied { sid, .. } => Some(sid),
            AceData::SystemAudit { sid, .. } => Some(sid),
            AceData::AccessAllowedObject { sid, .. } => Some(sid),
            AceData::AccessDeniedObject { sid, .. } => Some(sid),
            AceData::SystemAuditObject { sid, .. } => Some(sid),
            AceData::AccessAllowedCallback { sid, .. } => Some(sid),
            AceData::AccessDeniedCallback { sid, .. } => Some(sid),
            AceData::AccessAllowedCallbackObject { sid, .. } => Some(sid),
            AceData::AccessDeniedCallbackObject { sid, .. } => Some(sid),
            AceData::SystemAuditCallback { sid, .. } => Some(sid),
            AceData::SystemAuditCallbackObject { sid, .. } => Some(sid),
            AceData::SystemMandatoryLabel { sid, .. } => Some(sid),
            AceData::SystemResourceAttribute { sid, .. } => Some(sid),
            AceData::SystemScopedPolicyId { sid, .. } => Some(sid),
            AceData::Other { .. } => None,
        }
    }
}

/// An access control entry.
#[derive(Clone, Debug, PartialEq, Eq, Hash, PartialOrd, Ord)]
pub struct Ace {
    pub flags: AceFlags,
    pub data: AceData,
    /// What follows the fields that the type defines.
    pub application_data: Vec<u8>,
}

/// Whether the object entry `b` names an object type.
pub open spec fn names_object_type(b: Seq<u8>) -> bool {
    le_u32(b, 8) % 2 == 1
}

/// Whether the object entry `b` names an inherited object type.
pub open spec fn names_inherited_type(b: Seq<u8>) -> bool {
    (le_u32(b, 8) / 2) % 2 == 1
}

/// Where the inherited object type of the object entry `b` stands.
pub open spec fn inherited_type_at(b: Seq<u8>) -> int {
    if names_object_type(b) {
        28
    } else {
        12
    }
}

/// Where the SID of the entry `b` starts.
pub open spec fn sid_at(b: Seq<u8>) -> int {
    if shape_of(b[0]) == AceShape::Object {
        inherited_type_at(b) + if names_inherited_type(b) {
            16int
        } else {
            0int
        }
    } else {
        8
    }
}

/// Where the SID of the entry `b` ends.
pub open spec fn sid_end(b: Seq<u8>) -> int {
    sid_at(b) + Sid::wire_len(tail(b, sid_at(b)))
}

/// `g` is the identifier that the 16 bytes of `b` at `at` hold.
pub open spec fn guid_at(g: Option<Guid>, b: Seq<u8>, at: int) -> bool {
    g matches Some(v) && v.bytes@ == text_order(b.subrange(at, at + 16))
}

impl Ace {
    /// `b` is one entry: its size field gives the length of `b`, and what
    /// its type asks for lies within `b`.
    pub open spec fn wire_ok(b: Seq<u8>) -> bool {
        &&& b.len() >= 4
        &&& le_u16(b, 2) == b.len()
        &&& shape_of(b[0]) != AceShape::Other ==> {
            &&& b.len() >= 8
            &&& shape_of(b[0]) == AceShape::Object ==> b.len() >= 12
            &&& sid_at(b) <= b.len()
            &&& Sid::starts(tail(b, sid_at(b)))
            &&& shape_of(b[0]) == AceShape::ResourceAttribute
                ==> ClaimSecurityAttribute1::wire_ok(tail(b, sid_end(b)))
        }
    }

    /// `self` is the entry that `b` holds.
    pub open spec fn decoded_from(&self, b: Seq<u8>) -> bool {
        let shape = shape_of(b[0]);
        &&& self.flags.bits == b[1]
        &&& self.data.type_code() == b[0]
        &&& self.data is Other <==> shape == AceShape::Other
        &&& shape == AceShape::Other ==> self.application_data@ == tail(b, 4)
        &&& shape != AceShape::Other ==> {
            &&& self.data.sid_of() matches Some(sid) && sid.decoded_from(
                b.subrange(sid_at(b), sid_end(b)),
            )
            &&& if shape == AceShape::MandatoryLabel {
                self.data.label_mask_of() matches Some(m) && m.bits == le_u32(b, 4)
            } else {
                self.data.mask_of() matches Some(m) && m.bits == le_u32(b, 4)
            }
            &&& if shape == AceShape::ResourceAttribute {
                &&& self.data.attribute_of() matches Some(a) && a.decoded_from(tail(b, sid_end(b)))
                &&& self.application_data@.len() == 0
            } else {
                self.application_data@ == tail(b, sid_end(b))
            }
        }
        &&& shape == AceShape::Object ==> {
            &&& self.data.object_flags_of() == Some(le_u32(b, 8) as u32)
            &&& if names_object_type(b) {
                guid_at(self.data.object_type_of(), b, 12)
            } else {
                self.data.object_type_of() is None
            }
            &&& if names_inherited_type(b) {
                guid_at(self.data.inherited_object_type_of(), b, inherited_type_at(b))
            } else {
                self.data.inherited_object_type_of() is None
            }
        }
    }

    /// The size that the entry at the start of `bytes` declares.
    pub fn get_length(bytes: &[u8]) -> (r: Option<usize>)
        ensures
            r is Some <==> bytes@.len() >= 4,
            r matches Some(n) ==> n == le_u16(bytes@, 2),
    {
        if bytes.len() < 4 {
            return None;
        }
        Some(read_u16_le(bytes, 2) as usize)
    }

    /// Decodes an entry that fills `bytes` exactly.
    pub fn try_from_bytes(bytes: &[u8]) -> (r: Option<Ace>)
        ensures
            r is Some <==> Ace::wire_ok(bytes@),
            r matches Some(a) ==> a.decoded_from(bytes@),
    {
        let ghost b = bytes@;
        if bytes.len() < 4 {
            return None;
        }
        let ace_type: u8 = bytes[0];
        let flags: AceFlags = AceFlags::from(bytes[1]);
        let ace_size: usize = read_u16_le(bytes, 2) as usize;
        if ace_size != bytes.len() {
            return None;
        }
        let shape: AceShape = ace_shape(ace_type);
        if shape == AceShape::Other {
            let application_data: Vec<u8> = copy_range(bytes, 4, bytes.len());
            return Some(Ace { flags, data: AceData::Other { kind: ace_type }, application_data });
        }
        if bytes.len() < 8 {
            return None;
        }
        let mask_bits: u32 = read_u32_le(bytes, 4);
        let mut object_flags: u32 = 0;
        let mut object_type: Option<Guid> = None;
        let mut inherited_object_type: Option<Guid> = None;
        let mut offset: usize = 8;
        if shape == AceShape::Object {
            if bytes.len() < 12 {
                return None;
            }
            object_flags = read_u32_le(bytes, 8);
            offset = 12;
            if object_flags % 2 == 1 {
                if bytes.len() - offset < 16 {
                    return None;
                }
                object_type = Guid::from_slice_le(&bytes[offset..offset + 16]);
                offset += 16;
            }
            if (object_flags / 2) % 2 == 1 {
                if bytes.len() - offset < 16 {
                    return None;
                }
                inherited_object_type = Guid::from_slice_le(&bytes[offset..offset + 16]);
                offset += 16;
            }
        }
        assert(offset == sid_at(b));
        let sid_size: usize = match Sid::get_length(&bytes[offset..bytes.len()]) {
            Some(n) => n,
            None => {
                return None;
            },
        };
        proof {
            let t = tail(b, offset as int);
            assert(t.subrange(0, sid_size as int) =~= b.subrange(
                offset as int,
                offset + sid_size,
            ));
            assert(Sid::wire_ok(t.subrange(0, sid_size as int)));
        }
        let sid: Sid = match Sid::try_from_bytes(&bytes[offset..offset + sid_size]) {
            Some(s) => s,
            None => {
                return None;
            },
        };
        offset += sid_size;
        assert(offset == sid_end(b));
        let mask: AccessMask = AccessMask::from(mask_bits);
        if shape == AceShape::ResourceAttribute {
            let attribute_data: ClaimSecurityAttribute1 =
                match ClaimSecurityAttribute1::try_from_bytes(&bytes[offset..bytes.len()]) {
                Some(a) => a,
                None => {
                    return None;
                },
            };
            let data: AceData = AceData::SystemResourceAttribute { mask, sid, attribute_data };
            return Some(Ace { flags, data, application_data: Vec::new() });
        }
        let application_data: Vec<u8> = copy_range(bytes, offset, bytes.len());
        let data: AceData = if shape == AceShape::MandatoryLabel {
            AceData::SystemMandatoryLabel { mask: MandatoryMask::from(mask_bits), sid }
        } else if ace_type == 0x00 {
            AceData::AccessAllowed { mask, sid }
        } else if ace_type == 0x01 {
            AceData::AccessDenied { mask, sid }
        } else if ace_type == 0x02 {
            AceData::SystemAudit { mask, sid }
        } else if ace_type == 0x09 {
            AceData::AccessAllowedCallback { mask, sid }
        } else if ace_type == 0x0A {
            AceData::AccessDeniedCallback { mask, sid }
        } else if ace_type == 0x0D {
            AceData::SystemAuditCallback { mask, sid }
        } else if ace_type == 0x13 {
            AceData::SystemScopedPolicyId { mask, sid }
        } else if ace_type == 0x05 {
            AceData::AccessAllowedObject {
                mask,
                flags: object_flags,
                object_type,
                inherited_object_type,
                sid,
            }
        } else if ace_type == 0x06 {
            AceData::AccessDeniedObject {
                mask,
                flags: object_flags,
                object_type,
                inherited_object_type,
                sid,
            }
        } else if ace_type == 0x07 {
            AceData::SystemAuditObject {
                mask,
                flags: object_flags,
                object_type,
                inherited_object_type,
                sid,
            }
        } else if ace_type == 0x0B {
            AceData::AccessAllowedCallbackObject {
                mask,
                flags: object_flags,
                object_type,
                inherited_object_type,
                sid,
            }
        } else if ace_type == 0x0C {
            AceData::AccessDeniedCallbackObject {
                mask,
                flags: object_flags,
                object_type,
                inherited_object_type,
                sid,
            }
        } else {
            AceData::SystemAuditCallbackObject {
                mask,
                flags: object_flags,
                object_type,
                inherited_object_type,
                sid,
            }
        };
        Some(Ace { flags, data, application_data })
    }
}

} // verus!
