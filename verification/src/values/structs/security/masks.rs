//! Bit masks of access control entries and security descriptors.

use vstd::prelude::*;

verus! {

/// The rights that an access control entry grants, denies or audits.
#[derive(Clone, Copy, Debug, PartialEq, Eq, Structural, Hash, PartialOrd, Ord)]
pub struct AccessMask {
    pub bits: u32,
}

impl AccessMask {
    pub const WRITE_OWNER: u32 = 0x0008_0000;

    pub const WRITE_DACL: u32 = 0x0004_0000;

    pub const READ_CONTROL: u32 = 0x0002_0000;

    pub const DELETE: u32 = 0x0001_0000;

    pub const DS_CREATE_CHILD: u32 = 0x0000_0001;

    pub const DS_DELETE_CHILD: u32 = 0x0000_0002;

    pub const DS_LIST_CHILDREN: u32 = 0x0000_0004;

    pub const DS_SELF_WRITE: u32 = 0x0000_0008;

    pub const DS_READ_PROP: u32 = 0x0000_0010;

    pub const DS_WRITE_PROP: u32 = 0x0000_0020;

    pub const DS_DELETE_TREE: u32 = 0x0000_0040;

    pub const DS_LIST_OBJECT: u32 = 0x0000_0080;

    pub const DS_CONTROL_ACCESS: u32 = 0x0000_0100;

    /// Every bit that has a name.
    pub const ALL: u32 = 0x000F_01FF;

    /// Whether every bit of `flag` is set.
    pub open spec fn has(self, flag: u32) -> bool {
        self.bits & flag == flag
    }

    /// Whether any bit of `flags` is set.
    pub open spec fn has_any(self, flags: u32) -> bool {
        self.bits & flags != 0
    }

    /// Whether no bit without a name is set.
    pub open spec fn only_named(self) -> bool {
        self.bits & AccessMask::ALL == self.bits
    }

    /// The mask with the given bits.
    pub fn from(bits: u32) -> (r: AccessMask)
        ensures
            r.bits == bits,
    {
        AccessMask { bits }
    }

    /// The bits of the mask.
    pub fn bits(&self) -> (r: u32)
        ensures
            r == self.bits,
    {
        self.bits
    }

    /// Whether every bit of `flag` is set.
    pub fn contains(&self, flag: u32) -> (r: bool)
        ensures
            r == self.has(flag),
    {
        self.bits & flag == flag
    }

    /// Whether any bit of `flags` is set.
    pub fn intersects(&self, flags: u32) -> (r: bool)
        ensures
            r == self.has_any(flags),
    {
        self.bits & flags != 0
    }

    /// The mask without the bits that have no name.
    pub fn truncate(&self) -> (r: AccessMask)
        ensures
            r.bits == self.bits & AccessMask::ALL,
    {
        AccessMask { bits: self.bits & AccessMask::ALL }
    }

    /// Whether no bit without a name is set.
    pub fn is_truncated(&self) -> (r: bool)
        ensures
            r == self.only_named(),
    {
        self.bits & AccessMask::ALL == self.bits
    }
}

/// The policy of a mandatory label.
#[derive(Clone, Copy, Debug, PartialEq, Eq, Structural, Hash, PartialOrd, Ord)]
pub struct MandatoryMask {
    pub bits: u32,
}

impl MandatoryMask {
    pub const NO_WRITE_UP: u32 = 0x0000_0001;

    pub const NO_READ_UP: u32 = 0x0000_0002;

    pub const NO_EXECUTE_UP: u32 = 0x0000_0004;

    /// Every bit that has a name.
    pub const ALL: u32 = 0x0000_0007;

    /// Whether every bit of `flag` is set.
    pub open spec fn has(self, flag: u32) -> bool {
        self.bits & flag == flag
    }

    /// Whether any bit of `flags` is set.
    pub open spec fn has_any(self, flags: u32) -> bool {
        self.bits & flags != 0
    }

    /// Whether no bit without a name is set.
    pub open spec fn only_named(self) -> bool {
        self.bits & MandatoryMask::ALL == self.bits
    }

    /// The mask with the given bits.
    pub fn from(bits: u32) -> (r: MandatoryMask)
        ensures
            r.bits == bits,
    {
        MandatoryMask { bits }
    }

    /// The bits of the mask.
    pub fn bits(&self) -> (r: u32)
        ensures
            r == self.bits,
    {
        self.bits
    }

    /// Whether every bit of `flag` is set.
    pub fn contains(&self, flag: u32) -> (r: bool)
        ensures
            r == self.has(flag),
    {
        self.bits & flag == flag
    }

    /// Whether any bit of `flags` is set.
    pub fn intersects(&self, flags: u32) -> (r: bool)
        ensures
            r == self.has_any(flags),
    {
        self.bits & flags != 0
    }

    /// The mask without the bits that have no name.
    pub fn truncate(&self) -> (r: MandatoryMask)
        ensures
            r.bits == self.bits & MandatoryMask::ALL,
    {
        MandatoryMask { bits: self.bits & MandatoryMask::ALL }
    }

    /// Whether no bit without a name is set.
    pub fn is_truncated(&self) -> (r: bool)
        ensures
            r == self.only_named(),
    {
        self.bits & MandatoryMask::ALL == self.bits
    }
}

/// Flags of a claim security attribute.
#[derive(Clone, Copy, Debug, PartialEq, Eq, Structural, Hash, PartialOrd, Ord)]
pub struct ClaimFlags {
    pub bits: u32,
}

impl ClaimFlags {
    pub const FCI_MANUAL: u32 = 0x0001_0000;

    pub const FCI_POLICY_DERIVED: u32 = 0x0002_0000;

    pub const NON_INHERITABLE: u32 = 0x0000_0001;

    pub const VALUE_CASE_SENSITIVE: u32 = 0x0000_0002;

    pub const USE_FOR_DENY_ONLY: u32 = 0x0000_0004;

    pub const DISABLED_BY_DEFAULT: u32 = 0x0000_0008;

    pub const DISABLED: u32 = 0x0000_0010;

    pub const MANDATORY: u32 = 0x0000_0020;

    /// Every bit that has a name.
    pub const ALL: u32 = 0x0003_003F;

    /// Whether every bit of `flag` is set.
    pub open spec fn has(self, flag: u32) -> bool {
        self.bits & flag == flag
    }

    /// Whether any bit of `flags` is set.
    pub open spec fn has_any(self, flags: u32) -> bool {
        self.bits & flags != 0
    }

    /// Whether no bit without a name is set.
    pub open spec fn only_named(self) -> bool {
        self.bits & ClaimFlags::ALL == self.bits
    }

    /// The mask with the given bits.
    pub fn from(bits: u32) -> (r: ClaimFlags)
        ensures
            r.bits == bits,
    {
        ClaimFlags { bits }
    }

    /// The bits of the mask.
    pub fn bits(&self) -> (r: u32)
        ensures
            r == self.bits,
    {
        self.bits
    }

    /// Whether every bit of `flag` is set.
    pub fn contains(&self, flag: u32) -> (r: bool)
        ensures
            r == self.has(flag),
    {
        self.bits & flag == flag
    }

    /// Whether any bit of `flags` is set.
    pub fn intersects(&self, flags: u32) -> (r: bool)
        ensures
            r == self.has_any(flags),
    {
        self.bits & flags != 0
    }

    /// The mask without the bits that have no name.
    pub fn truncate(&self) -> (r: ClaimFlags)
        ensures
            r.bits == self.bits & ClaimFlags::ALL,
    {
        ClaimFlags { bits: self.bits & ClaimFlags::ALL }
    }

    /// Whether no bit without a name is set.
    pub fn is_truncated(&self) -> (r: bool)
        ensures
            r == self.only_named(),
    {
        self.bits & ClaimFlags::ALL == self.bits
    }
}

/// Inheritance and audit flags of an access control entry.
#[derive(Clone, Copy, Debug, PartialEq, Eq, Structural, Hash, PartialOrd, Ord)]
pub struct AceFlags {
    pub bits: u8,
}

impl AceFlags {
    pub const OBJECT_INHERIT: u8 = 0x01;

    pub const CONTAINER_INHERIT: u8 = 0x02;

    pub const NO_PROPAGATE_INHERIT: u8 = 0x04;

    pub const INHERIT_ONLY: u8 = 0x08;

    pub const INHERITED: u8 = 0x10;

    pub const SUCCESSFUL_ACCESS_FLAG: u8 = 0x40;

    pub const FAILED_ACCESS_FLAG: u8 = 0x80;

    /// Every bit that has a name.
    pub const ALL: u8 = 0xDF;

    /// Whether every bit of `flag` is set.
    pub open spec fn has(self, flag: u8) -> bool {
        self.bits & flag == flag
    }

    /// Whether any bit of `flags` is set.
    pub open spec fn has_any(self, flags: u8) -> bool {
        self.bits & flags != 0
    }

    /// Whether no bit without a name is set.
    pub open spec fn only_named(self) -> bool {
        self.bits & AceFlags::ALL == self.bits
    }

    /// The mask with the given bits.
    pub fn from(bits: u8) -> (r: AceFlags)
        ensures
            r.bits == bits,
    {
        AceFlags { bits }
    }

    /// The bits of the mask.
    pub fn bits(&self) -> (r: u8)
        ensures
            r == self.bits,
    {
        self.bits
    }

    /// Whether every bit of `flag` is set.
    pub fn contains(&self, flag: u8) -> (r: bool)
        ensures
            r == self.has(flag),
    {
        self.bits & flag == flag
    }

    /// Whether any bit of `flags` is set.
    pub fn intersects(&self, flags: u8) -> (r: bool)
        ensures
            r == self.has_any(flags),
    {
        self.bits & flags != 0
    }

    /// The mask without the bits that have no name.
    pub fn truncate(&self) -> (r: AceFlags)
        ensures
            r.bits == self.bits & AceFlags::ALL,
    {
        AceFlags { bits: self.bits & AceFlags::ALL }
    }

    /// Whether no bit without a name is set.
    pub fn is_truncated(&self) -> (r: bool)
        ensures
            r == self.only_named(),
    {
        self.bits & AceFlags::ALL == self.bits
    }
}

/// Control flags of a security descriptor.
#[derive(Clone, Copy, Debug, PartialEq, Eq, Structural, Hash, PartialOrd, Ord)]
pub struct SecurityDescriptorControl {
    pub bits: u16,
}

impl SecurityDescriptorControl {
    /// The owner SID is a default value.
    pub const OWNER_DEFAULTED: u16 = 0x0001;

    /// The group SID is a default value.
    pub const GROUP_DEFAULTED: u16 = 0x0002;

    /// A DACL is present in this security descriptor.
    pub const DACL_PRESENT: u16 = 0x0004;

    /// The security descriptor has a DACL with default values.
    pub const DACL_DEFAULTED: u16 = 0x0008;

    /// A SACL is present in this security descriptor.
    pub const SACL_PRESENT: u16 = 0x0010;

    /// The security descriptor has a SACL with default values.
    pub const SACL_DEFAULTED: u16 = 0x0020;

    /// Inherit the DACL in this security descriptor to child objects.
    pub const DACL_AUTO_INHERIT_REQ: u16 = 0x0100;

    /// Inherit the SACL in this security descriptor to child objects.
    pub const SACL_AUTO_INHERIT_REQ: u16 = 0x0200;

    /// The DACL has been inherited from an ancestor object.
    pub const DACL_AUTO_INHERITED: u16 = 0x0400;

    /// The SACL has been inherited from an ancestor object.
    pub const SACL_AUTO_INHERITED: u16 = 0x0800;

    /// The DACL is protected against entries inherited from ancestor objects.
    pub const DACL_PROTECTED: u16 = 0x1000;

    /// The SACL is protected against entries inherited from ancestor objects.
    pub const SACL_PROTECTED: u16 = 0x2000;

    /// The resource manager control is valid.
    pub const RM_CONTROL_VALID: u16 = 0x4000;

    /// The four fields of the descriptor are offsets from its start, as they must be in a serialized descriptor.
    pub const SELF_RELATIVE: u16 = 0x8000;

    /// Every bit that has a name.
    pub const ALL: u16 = 0xFF3F;

    /// Whether every bit of `flag` is set.
    pub open spec fn has(self, flag: u16) -> bool {
        self.bits & flag == flag
    }

    /// Whether any bit of `flags` is set.
    pub open spec fn has_any(self, flags: u16) -> bool {
        self.bits & flags != 0
    }

    /// Whether no bit without a name is set.
    pub open spec fn only_named(self) -> bool {
        self.bits & SecurityDescriptorControl::ALL == self.bits
    }

    /// The mask with the given bits.
    pub fn from(bits: u16) -> (r: SecurityDescriptorControl)
        ensures
            r.bits == bits,
    {
        SecurityDescriptorControl { bits }
    }

    /// The bits of the mask.
    pub fn bits(&self) -> (r: u16)
        ensures
            r == self.bits,
    {
        self.bits
    }

    /// Whether every bit of `flag` is set.
    pub fn contains(&self, flag: u16) -> (r: bool)
        ensures
            r == self.has(flag),
    {
        self.bits & flag == flag
    }

    /// Whether any bit of `flags` is set.
    pub fn intersects(&self, flags: u16) -> (r: bool)
        ensures
            r == self.has_any(flags),
    {
        self.bits & flags != 0
    }

    /// The mask without the bits that have no name.
    pub fn truncate(&self) -> (r: SecurityDescriptorControl)
        ensures
            r.bits == self.bits & SecurityDescriptorControl::ALL,
    {
        SecurityDescriptorControl { bits: self.bits & SecurityDescriptorControl::ALL }
    }

    /// Whether no bit without a name is set.
    pub fn is_truncated(&self) -> (r: bool)
        ensures
            r == self.only_named(),
    {
        self.bits & SecurityDescriptorControl::ALL == self.bits
    }
}

} // verus!
