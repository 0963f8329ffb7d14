//! Sets of named flags of a mail server.

use super::{describe_flags, flags_text, FlagName};
use vstd::prelude::*;
use vstd::string::StringExecFns;

verus! {

/// Flags of an address book.
#[derive(Clone, Copy, Debug, PartialEq, Eq, Structural, Hash, PartialOrd, Ord)]
pub struct AddressBookFlags {
    pub bits: u32,
}

impl AddressBookFlags {
    pub const SHOW_GAL_AS_DEFAULT_VIEW: u32 = 0x0000_0001;

    /// Every bit that has a name.
    pub const ALL: u32 = 0x0000_0001;

    /// The flags with their names, in the order in which the text form
    /// lists them.
    pub open spec fn table() -> Seq<FlagName> {
        seq![
            FlagName { bits: 0x0000_0000_0000_0001, name: "SHOW_GAL_AS_DEFAULT_VIEW" },
        ]
    }

    /// The text form: the name of the type and, in brackets, the names of
    /// the flags that are set and the bits without a name.
    pub open spec fn text(self) -> Seq<char> {
        "AddressBookFlags("@ + flags_text(AddressBookFlags::table(), self.bits as u64) + ")"@
    }

    /// Whether every bit of `flag` is set.
    pub open spec fn has(self, flag: u32) -> bool {
        self.bits & flag == flag
    }

    /// The flags with their names.
    pub fn names() -> (r: Vec<FlagName>)
        ensures
            r@ == AddressBookFlags::table(),
    {
        let r: Vec<FlagName> = vec![
            FlagName { bits: 0x0000_0000_0000_0001, name: "SHOW_GAL_AS_DEFAULT_VIEW" },
        ];
        assert(r@ =~= AddressBookFlags::table());
        r
    }

    /// The set with the given bits.
    pub fn from_bits_retain(bits: u32) -> (r: AddressBookFlags)
        ensures
            r.bits == bits,
    {
        AddressBookFlags { bits }
    }

    /// The bits of the set.
    pub fn bits(&self) -> (r: u32)
        ensures
            r == self.bits,
    {
        self.bits
    }

    /// Whether every bit of `flag` is set.
    pub fn contains(&self, flag: u32) -> (r: bool)
        ensures
            r == self.has(flag),
    {
        self.bits & flag == flag
    }

    /// Renders the text form.
    pub fn to_debug_string(&self) -> (r: String)
        ensures
            r@ == self.text(),
    {
        let mut out: String = "AddressBookFlags(".to_owned();
        out.append(describe_flags(AddressBookFlags::names().as_slice(), self.bits as u64).as_str());
        out.append(")");
        out
    }
}

/// Flags of the provisioning of a mailbox database.
#[derive(Clone, Copy, Debug, PartialEq, Eq, Structural, Hash, PartialOrd, Ord)]
pub struct ProvisioningFlags {
    pub bits: u32,
}

impl ProvisioningFlags {
    pub const RESERVED_FLAG: u32 = 0x0000_0001;

    pub const EXCLUDED_FROM_PROVISIONING: u32 = 0x0000_0002;

    pub const SUSPENDED_FROM_PROVISIONING: u32 = 0x0000_0004;

    pub const OUT_OF_SERVICE: u32 = 0x0000_0008;

    pub const EXCLUDED_FROM_INITIAL_PROVISIONING: u32 = 0x0000_0010;

    pub const EXCLUDED_FROM_PROVISIONING_BY_SPACE_MONITORING: u32 = 0x0000_0020;

    pub const EXCLUDED_FROM_PROVISIONING_BY_SCHEMA_VERSION_MONITORING: u32 = 0x0000_0040;

    pub const EXCLUDED_FROM_PROVISIONING_FOR_DRAINING: u32 = 0x0000_0080;

    pub const EXCLUDED_FROM_PROVISIONING_BY_OPERATOR: u32 = 0x0000_0100;

    pub const EXCLUDED_FROM_PROVISIONING_DUE_TO_LOGICAL_CORRUPTION: u32 = 0x0000_0200;

    /// Every bit that has a name.
    pub const ALL: u32 = 0x0000_03FF;

    /// The flags with their names, in the order in which the text form
    /// lists them.
    pub open spec fn table() -> Seq<FlagName> {
        seq![
            FlagName { bits: 0x0000_0000_0000_0001, name: "RESERVED_FLAG" },
            FlagName { bits: 0x0000_0000_0000_0002, name: "EXCLUDED_FROM_PROVISIONING" },
            FlagName { bits: 0x0000_0000_0000_0004, name: "SUSPENDED_FROM_PROVISIONING" },
            FlagName { bits: 0x0000_0000_0000_0008, name: "OUT_OF_SERVICE" },
            FlagName { bits: 0x0000_0000_0000_0010, name: "EXCLUDED_FROM_INITIAL_PROVISIONING" },
            FlagName { bits: 0x0000_0000_0000_0020, name: "EXCLUDED_FROM_PROVISIONING_BY_SPACE_MONITORING" },
            FlagName { bits: 0x0000_0000_0000_0040, name: "EXCLUDED_FROM_PROVISIONING_BY_SCHEMA_VERSION_MONITORING" },
            FlagName { bits: 0x0000_0000_0000_0080, name: "EXCLUDED_FROM_PROVISIONING_FOR_DRAINING" },
            FlagName { bits: 0x0000_0000_0000_0100, name: "EXCLUDED_FROM_PROVISIONING_BY_OPERATOR" },
            FlagName { bits: 0x0000_0000_0000_0200, name: "EXCLUDED_FROM_PROVISIONING_DUE_TO_LOGICAL_CORRUPTION" },
        ]
    }

    /// The text form: the name of the type and, in brackets, the names of
    /// the flags that are set and the bits without a name.
    pub open spec fn text(self) -> Seq<char> {
        "ProvisioningFlags("@ + flags_text(ProvisioningFlags::table(), self.bits as u64) + ")"@
    }

    /// Whether every bit of `flag` is set.
    pub open spec fn has(self, flag: u32) -> bool {
        self.bits & flag == flag
    }

    /// The flags with their names.
    pub fn names() -> (r: Vec<FlagName>)
        ensures
            r@ == ProvisioningFlags::table(),
    {
        let r: Vec<FlagName> = vec![
            FlagName { bits: 0x0000_0000_0000_0001, name: "RESERVED_FLAG" },
            FlagName { bits: 0x0000_0000_0000_0002, name: "EXCLUDED_FROM_PROVISIONING" },
            FlagName { bits: 0x0000_0000_0000_0004, name: "SUSPENDED_FROM_PROVISIONING" },
            FlagName { bits: 0x0000_0000_0000_0008, name: "OUT_OF_SERVICE" },
            FlagName { bits: 0x0000_0000_0000_0010, name: "EXCLUDED_FROM_INITIAL_PROVISIONING" },
            FlagName { bits: 0x0000_0000_0000_0020, name: "EXCLUDED_FROM_PROVISIONING_BY_SPACE_MONITORING" },
            FlagName { bits: 0x0000_0000_0000_0040, name: "EXCLUDED_FROM_PROVISIONING_BY_SCHEMA_VERSION_MONITORING" },
            FlagName { bits: 0x0000_0000_0000_0080, name: "EXCLUDED_FROM_PROVISIONING_FOR_DRAINING" },
            FlagName { bits: 0x0000_0000_0000_0100, name: "EXCLUDED_FROM_PROVISIONING_BY_OPERATOR" },
            FlagName { bits: 0x0000_0000_0000_0200, name: "EXCLUDED_FROM_PROVISIONING_DUE_TO_LOGICAL_CORRUPTION" },
        ];
        assert(r@ =~= ProvisioningFlags::table());
        r
    }

    /// The set with the given bits.
    pub fn from_bits_retain(bits: u32) -> (r: ProvisioningFlags)
        ensures
            r.bits == bits,
    {
        ProvisioningFlags { bits }
    }

    /// The bits of the set.
    pub fn bits(&self) -> (r: u32)
        ensures
            r == self.bits,
    {
        self.bits
    }

    /// Whether every bit of `flag` is set.
    pub fn contains(&self, flag: u32) -> (r: bool)
        ensures
            r == self.has(flag),
    {
        self.bits & flag == flag
    }

    /// Renders the text form.
    pub fn to_debug_string(&self) -> (r: String)
        ensures
            r@ == self.text(),
    {
        let mut out: String = "ProvisioningFlags(".to_owned();
        out.append(describe_flags(ProvisioningFlags::names().as_slice(), self.bits as u64).as_str());
        out.append(")");
        out
    }
}

/// Flags of the retention of a mailbox.
#[derive(Clone, Copy, Debug, PartialEq, Eq, Structural, Hash, PartialOrd, Ord)]
pub struct ElcMailboxFlags {
    pub bits: u32,
}

impl ElcMailboxFlags {
    pub const EXPIRATION_SUSPENDED: u32 = 0x0000_0001;

    pub const ELC_V2: u32 = 0x0000_0002;

    pub const DISABLE_CALENDAR_LOGGING: u32 = 0x0000_0004;

    pub const LITIGATION_HOLD: u32 = 0x0000_0008;

    pub const SINGLE_ITEM_RECOVERY: u32 = 0x0000_0010;

    pub const VALID_ARCHIVE_DATABASE: u32 = 0x0000_0020;

    pub const SHOULD_USE_DEFAULT_RETENTION_POLICY: u32 = 0x0000_0080;

    pub const ENABLE_SITE_MAILBOX_MESSAGE_DEDUP: u32 = 0x0000_0100;

    pub const ELC_PROCESSING_DISABLED: u32 = 0x0000_0200;

    pub const COMPLIANCE_TAG_HOLD: u32 = 0x0000_0400;

    /// Every bit that has a name.
    pub const ALL: u32 = 0x0000_07BF;

    /// The flags with their names, in the order in which the text form
    /// lists them.
    pub open spec fn table() -> Seq<FlagName> {
        seq![
            FlagName { bits: 0x0000_0000_0000_0001, name: "EXPIRATION_SUSPENDED" },
            FlagName { bits: 0x0000_0000_0000_0002, name: "ELC_V2" },
            FlagName { bits: 0x0000_0000_0000_0004, name: "DISABLE_CALENDAR_LOGGING" },
            FlagName { bits: 0x0000_0000_0000_0008, name: "LITIGATION_HOLD" },
            FlagName { bits: 0x0000_0000_0000_0010, name: "SINGLE_ITEM_RECOVERY" },
            FlagName { bits: 0x0000_0000_0000_0020, name: "VALID_ARCHIVE_DATABASE" },
            FlagName { bits: 0x0000_0000_0000_0080, name: "SHOULD_USE_DEFAULT_RETENTION_POLICY" },
            FlagName { bits: 0x0000_0000_0000_0100, name: "ENABLE_SITE_MAILBOX_MESSAGE_DEDUP" },
            FlagName { bits: 0x0000_0000_0000_0200, name: "ELC_PROCESSING_DISABLED" },
            FlagName { bits: 0x0000_0000_0000_0400, name: "COMPLIANCE_TAG_HOLD" },
        ]
    }

    /// The text form: the name of the type and, in brackets, the names of
    /// the flags that are set and the bits without a name.
    pub open spec fn text(self) -> Seq<char> {
        "ElcMailboxFlags("@ + flags_text(ElcMailboxFlags::table(), self.bits as u64) + ")"@
    }

    /// Whether every bit of `flag` is set.
    pub open spec fn has(self, flag: u32) -> bool {
        self.bits & flag == flag
    }

    /// The flags with their names.
    pub fn names() -> (r: Vec<FlagName>)
        ensures
            r@ == ElcMailboxFlags::table(),
    {
        let r: Vec<FlagName> = vec![
            FlagName { bits: 0x0000_0000_0000_0001, name: "EXPIRATION_SUSPENDED" },
            FlagName { bits: 0x0000_0000_0000_0002, name: "ELC_V2" },
            FlagName { bits: 0x0000_0000_0000_0004, name: "DISABLE_CALENDAR_LOGGING" },
            FlagName { bits: 0x0000_0000_0000_0008, name: "LITIGATION_HOLD" },
            FlagName { bits: 0x0000_0000_0000_0010, name: "SINGLE_ITEM_RECOVERY" },
            FlagName { bits: 0x0000_0000_0000_0020, name: "VALID_ARCHIVE_DATABASE" },
            FlagName { bits: 0x0000_0000_0000_0080, name: "SHOULD_USE_DEFAULT_RETENTION_POLICY" },
            FlagName { bits: 0x0000_0000_0000_0100, name: "ENABLE_SITE_MAILBOX_MESSAGE_DEDUP" },
            FlagName { bits: 0x0000_0000_0000_0200, name: "ELC_PROCESSING_DISABLED" },
            FlagName { bits: 0x0000_0000_0000_0400, name: "COMPLIANCE_TAG_HOLD" },
        ];
        assert(r@ =~= ElcMailboxFlags::table());
        r
    }

    /// The set with the given bits.
    pub fn from_bits_retain(bits: u32) -> (r: ElcMailboxFlags)
        ensures
            r.bits == bits,
    {
        ElcMailboxFlags { bits }
    }

    /// The bits of the set.
    pub fn bits(&self) -> (r: u32)
        ensures
            r == self.bits,
    {
        self.bits
    }

    /// Whether every bit of `flag` is set.
    pub fn contains(&self, flag: u32) -> (r: bool)
        ensures
            r == self.has(flag),
    {
        self.bits & flag == flag
    }

    /// Renders the text form.
    pub fn to_debug_string(&self) -> (r: String)
        ensures
            r@ == self.text(),
    {
        let mut out: String = "ElcMailboxFlags(".to_owned();
        out.append(describe_flags(ElcMailboxFlags::names().as_slice(), self.bits as u64).as_str());
        out.append(")");
        out
    }
}

/// The state of a recipient that was deleted softly.
#[derive(Clone, Copy, Debug, PartialEq, Eq, Structural, Hash, PartialOrd, Ord)]
pub struct SoftDeletedStatus {
    pub bits: u32,
}

impl SoftDeletedStatus {
    pub const REMOVED: u32 = 0x0000_0001;

    pub const DISABLED: u32 = 0x0000_0002;

    pub const INCLUDE_IN_GARBAGE_COLLECTION: u32 = 0x0000_0004;

    pub const INACTIVE: u32 = 0x0000_0008;

    /// Every bit that has a name.
    pub const ALL: u32 = 0x0000_000F;

    /// The flags with their names, in the order in which the text form
    /// lists them.
    pub open spec fn table() -> Seq<FlagName> {
        seq![
            FlagName { bits: 0x0000_0000_0000_0001, name: "REMOVED" },
            FlagName { bits: 0x0000_0000_0000_0002, name: "DISABLED" },
            FlagName { bits: 0x0000_0000_0000_0004, name: "INCLUDE_IN_GARBAGE_COLLECTION" },
            FlagName { bits: 0x0000_0000_0000_0008, name: "INACTIVE" },
        ]
    }

    /// The text form: the name of the type and, in brackets, the names of
    /// the flags that are set and the bits without a name.
    pub open spec fn text(self) -> Seq<char> {
        "SoftDeletedStatus("@ + flags_text(SoftDeletedStatus::table(), self.bits as u64) + ")"@
    }

    /// Whether every bit of `flag` is set.
    pub open spec fn has(self, flag: u32) -> bool {
        self.bits & flag == flag
    }

    /// The flags with their names.
    pub fn names() -> (r: Vec<FlagName>)
        ensures
            r@ == SoftDeletedStatus::table(),
    {
        let r: Vec<FlagName> = vec![
            FlagName { bits: 0x0000_0000_0000_0001, name: "REMOVED" },
            FlagName { bits: 0x0000_0000_0000_0002, name: "DISABLED" },
            FlagName { bits: 0x0000_0000_0000_0004, name: "INCLUDE_IN_GARBAGE_COLLECTION" },
            FlagName { bits: 0x0000_0000_0000_0008, name: "INACTIVE" },
        ];
        assert(r@ =~= SoftDeletedStatus::table());
        r
    }

    /// The set with the given bits.
    pub fn from_bits_retain(bits: u32) -> (r: SoftDeletedStatus)
        ensures
            r.bits == bits,
    {
        SoftDeletedStatus { bits }
    }

    /// The bits of the set.
    pub fn bits(&self) -> (r: u32)
        ensures
            r == self.bits,
    {
        self.bits
    }

    /// Whether every bit of `flag` is set.
    pub fn contains(&self, flag: u32) -> (r: bool)
        ensures
            r == self.has(flag),
    {
        self.bits & flag == flag
    }

    /// Renders the text form.
    pub fn to_debug_string(&self) -> (r: String)
        ensures
            r@ == self.text(),
    {
        let mut out: String = "SoftDeletedStatus(".to_owned();
        out.append(describe_flags(SoftDeletedStatus::names().as_slice(), self.bits as u64).as_str());
        out.append(")");
        out
    }
}

/// The kind of a recipient.
#[derive(Clone, Copy, Debug, PartialEq, Eq, Structural, Hash, PartialOrd, Ord)]
pub struct RecipientTypeDetails {
    pub bits: u64,
}

impl RecipientTypeDetails {
    pub const USER_MAILBOX: u64 = 0x0000_0000_0000_0001;

    pub const LINKED_MAILBOX: u64 = 0x0000_0000_0000_0002;

    pub const SHARED_MAILBOX: u64 = 0x0000_0000_0000_0004;

    pub const LEGACY_MAILBOX: u64 = 0x0000_0000_0000_0008;

    pub const ROOM_MAILBOX: u64 = 0x0000_0000_0000_0010;

    pub const EQUIPMENT_MAILBOX: u64 = 0x0000_0000_0000_0020;

    pub const MAIL_CONTACT: u64 = 0x0000_0000_0000_0040;

    pub const MAIL_USER: u64 = 0x0000_0000_0000_0080;

    pub const MAIL_UNIVERSAL_DISTRIBUTION_GROUP: u64 = 0x0000_0000_0000_0100;

    pub const MAIL_NON_UNIVERSAL_GROUP: u64 = 0x0000_0000_0000_0200;

    pub const MAIL_UNIVERSAL_SECURITY_GROUP: u64 = 0x0000_0000_0000_0400;

    pub const DYNAMIC_DISTRIBUTION_GROUP: u64 = 0x0000_0000_0000_0800;

    pub const PUBLIC_FOLDER: u64 = 0x0000_0000_0000_1000;

    pub const SYSTEM_ATTENDANT_MAILBOX: u64 = 0x0000_0000_0000_2000;

    pub const SYSTEM_MAILBOX: u64 = 0x0000_0000_0000_4000;

    pub const MAIL_FOREST_CONTACT: u64 = 0x0000_0000_0000_8000;

    pub const USER: u64 = 0x0000_0000_0001_0000;

    pub const CONTACT: u64 = 0x0000_0000_0002_0000;

    pub const UNIVERSAL_DISTRIBUTION_GROUP: u64 = 0x0000_0000_0004_0000;

    pub const UNIVERSAL_SECURITY_GROUP: u64 = 0x0000_0000_0008_0000;

    pub const NON_UNIVERSAL_GROUP: u64 = 0x0000_0000_0010_0000;

    pub const DISABLED_USER: u64 = 0x0000_0000_0020_0000;

    pub const MICROSOFT_EXCHANGE: u64 = 0x0000_0000_0040_0000;

    pub const ARBITRATION_MAILBOX: u64 = 0x0000_0000_0080_0000;

    pub const MAILBOX_PLAN: u64 = 0x0000_0000_0100_0000;

    pub const LINKED_USER: u64 = 0x0000_0000_0200_0000;

    pub const ROOM_LIST: u64 = 0x0000_0000_1000_0000;

    pub const DISCOVERY_MAILBOX: u64 = 0x0000_0000_2000_0000;

    pub const ROLE_GROUP: u64 = 0x0000_0000_4000_0000;

    pub const REMOTE_USER_MAILBOX: u64 = 0x0000_0000_8000_0000;

    pub const COMPUTER: u64 = 0x0000_0001_0000_0000;

    pub const REMOTE_ROOM_MAILBOX: u64 = 0x0000_0002_0000_0000;

    pub const REMOTE_EQUIPMENT_MAILBOX: u64 = 0x0000_0004_0000_0000;

    pub const REMOTE_SHARED_MAILBOX: u64 = 0x0000_0008_0000_0000;

    pub const PUBLIC_FOLDER_MAILBOX: u64 = 0x0000_0010_0000_0000;

    pub const TEAM_MAILBOX: u64 = 0x0000_0020_0000_0000;

    pub const REMOTE_TEAM_MAILBOX: u64 = 0x0000_0040_0000_0000;

    pub const MONITORING_MAILBOX: u64 = 0x0000_0080_0000_0000;

    pub const GROUP_MAILBOX: u64 = 0x0000_0100_0000_0000;

    pub const LINKED_ROOM_MAILBOX: u64 = 0x0000_0200_0000_0000;

    pub const AUDIT_LOG_MAILBOX: u64 = 0x0000_0400_0000_0000;

    pub const REMOTE_GROUP_MAILBOX: u64 = 0x0000_0800_0000_0000;

    pub const SCHEDULING_MAILBOX: u64 = 0x0000_1000_0000_0000;

    pub const GUEST_MAIL_USER: u64 = 0x0000_2000_0000_0000;

    pub const AUX_AUDIT_LOG_MAILBOX: u64 = 0x0000_4000_0000_0000;

    pub const SUPERVISORY_REVIEW_POLICY_MAILBOX: u64 = 0x0000_8000_0000_0000;

    pub const EXCHANGE_SECURITY_GROUP: u64 = 0x0001_0000_0000_0000;

    /// Every bit that has a name.
    pub const ALL: u64 = 0x0001_FFFF_F3FF_FFFF;

    /// The flags with their names, in the order in which the text form
    /// lists them.
    pub open spec fn table() -> Seq<FlagName> {
        seq![
            FlagName { bits: 0x0000_0000_0000_0001, name: "USER_MAILBOX" },
            FlagName { bits: 0x0000_0000_0000_0002, name: "LINKED_MAILBOX" },
            FlagName { bits: 0x0000_0000_0000_0004, name: "SHARED_MAILBOX" },
            FlagName { bits: 0x0000_0000_0000_0008, name: "LEGACY_MAILBOX" },
            FlagName { bits: 0x0000_0000_0000_0010, name: "ROOM_MAILBOX" },
            FlagName { bits: 0x0000_0000_0000_0020, name: "EQUIPMENT_MAILBOX" },
            FlagName { bits: 0x0000_0000_0000_0040, name: "MAIL_CONTACT" },
            FlagName { bits: 0x0000_0000_0000_0080, name: "MAIL_USER" },
            FlagName { bits: 0x0000_0000_0000_0100, name: "MAIL_UNIVERSAL_DISTRIBUTION_GROUP" },
            FlagName { bits: 0x0000_0000_0000_0200, name: "MAIL_NON_UNIVERSAL_GROUP" },
            FlagName { bits: 0x0000_0000_0000_0400, name: "MAIL_UNIVERSAL_SECURITY_GROUP" },
            FlagName { bits: 0x0000_0000_0000_0800, name: "DYNAMIC_DISTRIBUTION_GROUP" },
            FlagName { bits: 0x0000_0000_0000_1000, name: "PUBLIC_FOLDER" },
            FlagName { bits: 0x0000_0000_0000_2000, name: "SYSTEM_ATTENDANT_MAILBOX" },
            FlagName { bits: 0x0000_0000_0000_4000, name: "SYSTEM_MAILBOX" },
            FlagName { bits: 0x0000_0000_0000_8000, name: "MAIL_FOREST_CONTACT" },
            FlagName { bits: 0x0000_0000_0001_0000, name: "USER" },
            FlagName { bits: 0x0000_0000_0002_0000, name: "CONTACT" },
            FlagName { bits: 0x0000_0000_0004_0000, name: "UNIVERSAL_DISTRIBUTION_GROUP" },
            FlagName { bits: 0x0000_0000_0008_0000, name: "UNIVERSAL_SECURITY_GROUP" },
            FlagName { bits: 0x0000_0000_0010_0000, name: "NON_UNIVERSAL_GROUP" },
            FlagName { bits: 0x0000_0000_0020_0000, name: "DISABLED_USER" },
            FlagName { bits: 0x0000_0000_0040_0000, name: "MICROSOFT_EXCHANGE" },
            FlagName { bits: 0x0000_0000_0080_0000, name: "ARBITRATION_MAILBOX" },
            FlagName { bits: 0x0000_0000_0100_0000, name: "MAILBOX_PLAN" },
            FlagName { bits: 0x0000_0000_0200_0000, name: "LINKED_USER" },
            FlagName { bits: 0x0000_0000_1000_0000, name: "ROOM_LIST" },
            FlagName { bits: 0x0000_0000_2000_0000, name: "DISCOVERY_MAILBOX" },
            FlagName { bits: 0x0000_0000_4000_0000, name: "ROLE_GROUP" },
            FlagName { bits: 0x0000_0000_8000_0000, name: "REMOTE_USER_MAILBOX" },
            FlagName { bits: 0x0000_0001_0000_0000, name: "COMPUTER" },
            FlagName { bits: 0x0000_0002_0000_0000, name: "REMOTE_ROOM_MAILBOX" },
            FlagName { bits: 0x0000_0004_0000_0000, name: "REMOTE_EQUIPMENT_MAILBOX" },
            FlagName { bits: 0x0000_0008_0000_0000, name: "REMOTE_SHARED_MAILBOX" },
            FlagName { bits: 0x0000_0010_0000_0000, name: "PUBLIC_FOLDER_MAILBOX" },
            FlagName { bits: 0x0000_0020_0000_0000, name: "TEAM_MAILBOX" },
            FlagName { bits: 0x0000_0040_0000_0000, name: "REMOTE_TEAM_MAILBOX" },
            FlagName { bits: 0x0000_0080_0000_0000, name: "MONITORING_MAILBOX" },
            FlagName { bits: 0x0000_0100_0000_0000, name: "GROUP_MAILBOX" },
            FlagName { bits: 0x0000_0200_0000_0000, name: "LINKED_ROOM_MAILBOX" },
            FlagName { bits: 0x0000_0400_0000_0000, name: "AUDIT_LOG_MAILBOX" },
            FlagName { bits: 0x0000_0800_0000_0000, name: "REMOTE_GROUP_MAILBOX" },
            FlagName { bits: 0x0000_1000_0000_0000, name: "SCHEDULING_MAILBOX" },
            FlagName { bits: 0x0000_2000_0000_0000, name: "GUEST_MAIL_USER" },
            FlagName { bits: 0x0000_4000_0000_0000, name: "AUX_AUDIT_LOG_MAILBOX" },
            FlagName { bits: 0x0000_8000_0000_0000, name: "SUPERVISORY_REVIEW_POLICY_MAILBOX" },
            FlagName { bits: 0x0001_0000_0000_0000, name: "EXCHANGE_SECURITY_GROUP" },
        ]
    }

    /// The text form: the name of the type and, in brackets, the names of
    /// the flags that are set and the bits without a name.
    pub open spec fn text(self) -> Seq<char> {
        "RecipientTypeDetails("@ + flags_text(RecipientTypeDetails::table(), self.bits as u64) + ")"@
    }

    /// Whether every bit of `flag` is set.
    pub open spec fn has(self, flag: u64) -> bool {
        self.bits & flag == flag
    }

    /// The flags with their names.
    pub fn names() -> (r: Vec<FlagName>)
        ensures
            r@ == RecipientTypeDetails::table(),
    {
        let r: Vec<FlagName> = vec![
            FlagName { bits: 0x0000_0000_0000_0001, name: "USER_MAILBOX" },
            FlagName { bits: 0x0000_0000_0000_0002, name: "LINKED_MAILBOX" },
            FlagName { bits: 0x0000_0000_0000_0004, name: "SHARED_MAILBOX" },
            FlagName { bits: 0x0000_0000_0000_0008, name: "LEGACY_MAILBOX" },
            FlagName { bits: 0x0000_0000_0000_0010, name: "ROOM_MAILBOX" },
            FlagName { bits: 0x0000_0000_0000_0020, name: "EQUIPMENT_MAILBOX" },
            FlagName { bits: 0x0000_0000_0000_0040, name: "MAIL_CONTACT" },
            FlagName { bits: 0x0000_0000_0000_0080, name: "MAIL_USER" },
            FlagName { bits: 0x0000_0000_0000_0100, name: "MAIL_UNIVERSAL_DISTRIBUTION_GROUP" },
            FlagName { bits: 0x0000_0000_0000_0200, name: "MAIL_NON_UNIVERSAL_GROUP" },
            FlagName { bits: 0x0000_0000_0000_0400, name: "MAIL_UNIVERSAL_SECURITY_GROUP" },
            FlagName { bits: 0x0000_0000_0000_0800, name: "DYNAMIC_DISTRIBUTION_GROUP" },
            FlagName { bits: 0x0000_0000_0000_1000, name: "PUBLIC_FOLDER" },
            FlagName { bits: 0x0000_0000_0000_2000, name: "SYSTEM_ATTENDANT_MAILBOX" },
            FlagName { bits: 0x0000_0000_0000_4000, name: "SYSTEM_MAILBOX" },
            FlagName { bits: 0x0000_0000_0000_8000, name: "MAIL_FOREST_CONTACT" },
            FlagName { bits: 0x0000_0000_0001_0000, name: "USER" },
            FlagName { bits: 0x0000_0000_0002_0000, name: "CONTACT" },
            FlagName { bits: 0x0000_0000_0004_0000, name: "UNIVERSAL_DISTRIBUTION_GROUP" },
            FlagName { bits: 0x0000_0000_0008_0000, name: "UNIVERSAL_SECURITY_GROUP" },
            FlagName { bits: 0x0000_0000_0010_0000, name: "NON_UNIVERSAL_GROUP" },
            FlagName { bits: 0x0000_0000_0020_0000, name: "DISABLED_USER" },
            FlagName { bits: 0x0000_0000_0040_0000, name: "MICROSOFT_EXCHANGE" },
            FlagName { bits: 0x0000_0000_0080_0000, name: "ARBITRATION_MAILBOX" },
            FlagName { bits: 0x0000_0000_0100_0000, name: "MAILBOX_PLAN" },
            FlagName { bits: 0x0000_0000_0200_0000, name: "LINKED_USER" },
            FlagName { bits: 0x0000_0000_1000_0000, name: "ROOM_LIST" },
            FlagName { bits: 0x0000_0000_2000_0000, name: "DISCOVERY_MAILBOX" },
            FlagName { bits: 0x0000_0000_4000_0000, name: "ROLE_GROUP" },
            FlagName { bits: 0x0000_0000_8000_0000, name: "REMOTE_USER_MAILBOX" },
            FlagName { bits: 0x0000_0001_0000_0000, name: "COMPUTER" },
            FlagName { bits: 0x0000_0002_0000_0000, name: "REMOTE_ROOM_MAILBOX" },
            FlagName { bits: 0x0000_0004_0000_0000, name: "REMOTE_EQUIPMENT_MAILBOX" },
            FlagName { bits: 0x0000_0008_0000_0000, name: "REMOTE_SHARED_MAILBOX" },
            FlagName { bits: 0x0000_0010_0000_0000, name: "PUBLIC_FOLDER_MAILBOX" },
            FlagName { bits: 0x0000_0020_0000_0000, name: "TEAM_MAILBOX" },
            FlagName { bits: 0x0000_0040_0000_0000, name: "REMOTE_TEAM_MAILBOX" },
            FlagName { bits: 0x0000_0080_0000_0000, name: "MONITORING_MAILBOX" },
            FlagName { bits: 0x0000_0100_0000_0000, name: "GROUP_MAILBOX" },
            FlagName { bits: 0x0000_0200_0000_0000, name: "LINKED_ROOM_MAILBOX" },
            FlagName { bits: 0x0000_0400_0000_0000, name: "AUDIT_LOG_MAILBOX" },
            FlagName { bits: 0x0000_0800_0000_0000, name: "REMOTE_GROUP_MAILBOX" },
            FlagName { bits: 0x0000_1000_0000_0000, name: "SCHEDULING_MAILBOX" },
            FlagName { bits: 0x0000_2000_0000_0000, name: "GUEST_MAIL_USER" },
            FlagName { bits: 0x0000_4000_0000_0000, name: "AUX_AUDIT_LOG_MAILBOX" },
            FlagName { bits: 0x0000_8000_0000_0000, name: "SUPERVISORY_REVIEW_POLICY_MAILBOX" },
            FlagName { bits: 0x0001_0000_0000_0000, name: "EXCHANGE_SECURITY_GROUP" },
        ];
        assert(r@ =~= RecipientTypeDetails::table());
        r
    }

    /// The set with the given bits.
    pub fn from_bits_retain(bits: u64) -> (r: RecipientTypeDetails)
        ensures
            r.bits == bits,
    {
        RecipientTypeDetails { bits }
    }

    /// The bits of the set.
    pub fn bits(&self) -> (r: u64)
        ensures
            r == self.bits,
    {
        self.bits
    }

    /// Whether every bit of `flag` is set.
    pub fn contains(&self, flag: u64) -> (r: bool)
        ensures
            r == self.has(flag),
    {
        self.bits & flag == flag
    }

    /// Renders the text form.
    pub fn to_debug_string(&self) -> (r: String)
        ensures
            r@ == self.text(),
    {
        let mut out: String = "RecipientTypeDetails(".to_owned();
        out.append(describe_flags(RecipientTypeDetails::names().as_slice(), self.bits as u64).as_str());
        out.append(")");
        out
    }
}

/// Whom to tell of a rejected message.
#[derive(Clone, Copy, Debug, PartialEq, Eq, Structural, Hash, PartialOrd, Ord)]
pub struct ModerationFlags {
    pub bits: u32,
}

impl ModerationFlags {
    pub const NOTIFY_INTERNAL: u32 = 0x0000_0002;

    pub const NOTIFY_EXTERNAL: u32 = 0x0000_0004;

    /// Every bit that has a name.
    pub const ALL: u32 = 0x0000_0006;

    /// The flags with their names, in the order in which the text form
    /// lists them.
    pub open spec fn table() -> Seq<FlagName> {
        seq![
            FlagName { bits: 0x0000_0000_0000_0002, name: "NOTIFY_INTERNAL" },
            FlagName { bits: 0x0000_0000_0000_0004, name: "NOTIFY_EXTERNAL" },
        ]
    }

    /// The text form: the name of the type and, in brackets, the names of
    /// the flags that are set and the bits without a name.
    pub open spec fn text(self) -> Seq<char> {
        "ModerationFlags("@ + flags_text(ModerationFlags::table(), self.bits as u64) + ")"@
    }

    /// Whether every bit of `flag` is set.
    pub open spec fn has(self, flag: u32) -> bool {
        self.bits & flag == flag
    }

    /// The flags with their names.
    pub fn names() -> (r: Vec<FlagName>)
        ensures
            r@ == ModerationFlags::table(),
    {
        let r: Vec<FlagName> = vec![
            FlagName { bits: 0x0000_0000_0000_0002, name: "NOTIFY_INTERNAL" },
            FlagName { bits: 0x0000_0000_0000_0004, name: "NOTIFY_EXTERNAL" },
        ];
        assert(r@ =~= ModerationFlags::table());
        r
    }

    /// The set with the given bits.
    pub fn from_bits_retain(bits: u32) -> (r: ModerationFlags)
        ensures
            r.bits == bits,
    {
        ModerationFlags { bits }
    }

    /// The bits of the set.
    pub fn bits(&self) -> (r: u32)
        ensures
            r == self.bits,
    {
        self.bits
    }

    /// Whether every bit of `flag` is set.
    pub fn contains(&self, flag: u32) -> (r: bool)
        ensures
            r == self.has(flag),
    {
        self.bits & flag == flag
    }

    /// Renders the text form.
    pub fn to_debug_string(&self) -> (r: String)
        ensures
            r@ == self.text(),
    {
        let mut out: String = "ModerationFlags(".to_owned();
        out.append(describe_flags(ModerationFlags::names().as_slice(), self.bits as u64).as_str());
        out.append(")");
        out
    }
}

/// Flags of the transport settings of a recipient.
#[derive(Clone, Copy, Debug, PartialEq, Eq, Structural, Hash, PartialOrd, Ord)]
pub struct TransportSettingFlags {
    pub bits: u32,
}

impl TransportSettingFlags {
    pub const MESSAGE_TRACKING_READ_STATUS_DISABLED: u32 = 0x0000_0004;

    pub const INTERNAL_ONLY: u32 = 0x0000_0008;

    pub const OPEN_DOMAIN_ROUTING_DISABLED: u32 = 0x0000_0010;

    pub const QUERY_BASE_DN_RESTRICTION_ENABLED: u32 = 0x0000_0020;

    pub const ALLOW_ARCHIVE_ADDRESS_SYNC: u32 = 0x0000_0040;

    pub const MESSAGE_COPY_FOR_SENT_AS_ENABLED: u32 = 0x0000_0080;

    pub const MESSAGE_COPY_FOR_SEND_ON_BEHALF_ENABLED: u32 = 0x0000_0100;

    /// Every bit that has a name.
    pub const ALL: u32 = 0x0000_01FC;

    /// The flags with their names, in the order in which the text form
    /// lists them.
    pub open spec fn table() -> Seq<FlagName> {
        seq![
            FlagName { bits: 0x0000_0000_0000_0004, name: "MESSAGE_TRACKING_READ_STATUS_DISABLED" },
            FlagName { bits: 0x0000_0000_0000_0008, name: "INTERNAL_ONLY" },
            FlagName { bits: 0x0000_0000_0000_0010, name: "OPEN_DOMAIN_ROUTING_DISABLED" },
            FlagName { bits: 0x0000_0000_0000_0020, name: "QUERY_BASE_DN_RESTRICTION_ENABLED" },
            FlagName { bits: 0x0000_0000_0000_0040, name: "ALLOW_ARCHIVE_ADDRESS_SYNC" },
            FlagName { bits: 0x0000_0000_0000_0080, name: "MESSAGE_COPY_FOR_SENT_AS_ENABLED" },
            FlagName { bits: 0x0000_0000_0000_0100, name: "MESSAGE_COPY_FOR_SEND_ON_BEHALF_ENABLED" },
        ]
    }

    /// The text form: the name of the type and, in brackets, the names of
    /// the flags that are set and the bits without a name.
    pub open spec fn text(self) -> Seq<char> {
        "TransportSettingFlags("@ + flags_text(TransportSettingFlags::table(), self.bits as u64) + ")"@
    }

    /// Whether every bit of `flag` is set.
    pub open spec fn has(self, flag: u32) -> bool {
        self.bits & flag == flag
    }

    /// The flags with their names.
    pub fn names() -> (r: Vec<FlagName>)
        ensures
            r@ == TransportSettingFlags::table(),
    {
        let r: Vec<FlagName> = vec![
            FlagName { bits: 0x0000_0000_0000_0004, name: "MESSAGE_TRACKING_READ_STATUS_DISABLED" },
            FlagName { bits: 0x0000_0000_0000_0008, name: "INTERNAL_ONLY" },
            FlagName { bits: 0x0000_0000_0000_0010, name: "OPEN_DOMAIN_ROUTING_DISABLED" },
            FlagName { bits: 0x0000_0000_0000_0020, name: "QUERY_BASE_DN_RESTRICTION_ENABLED" },
            FlagName { bits: 0x0000_0000_0000_0040, name: "ALLOW_ARCHIVE_ADDRESS_SYNC" },
            FlagName { bits: 0x0000_0000_0000_0080, name: "MESSAGE_COPY_FOR_SENT_AS_ENABLED" },
            FlagName { bits: 0x0000_0000_0000_0100, name: "MESSAGE_COPY_FOR_SEND_ON_BEHALF_ENABLED" },
        ];
        assert(r@ =~= TransportSettingFlags::table());
        r
    }

    /// The set with the given bits.
    pub fn from_bits_retain(bits: u32) -> (r: TransportSettingFlags)
        ensures
            r.bits == bits,
    {
        TransportSettingFlags { bits }
    }

    /// The bits of the set.
    pub fn bits(&self) -> (r: u32)
        ensures
            r == self.bits,
    {
        self.bits
    }

    /// Whether every bit of `flag` is set.
    pub fn contains(&self, flag: u32) -> (r: bool)
        ensures
            r == self.has(flag),
    {
        self.bits & flag == flag
    }

    /// Renders the text form.
    pub fn to_debug_string(&self) -> (r: String)
        ensures
            r@ == self.text(),
    {
        let mut out: String = "TransportSettingFlags(".to_owned();
        out.append(describe_flags(TransportSettingFlags::names().as_slice(), self.bits as u64).as_str());
        out.append(")");
        out
    }
}

/// Flags of a mailbox on mobile devices.
#[derive(Clone, Copy, Debug, PartialEq, Eq, Structural, Hash, PartialOrd, Ord)]
pub struct MobileMailboxFlags {
    pub bits: u32,
}

impl MobileMailboxFlags {
    pub const HAS_DEVICE_PARTNERSHIP: u32 = 0x0000_0001;

    pub const ACTIVE_SYNC_SUPPRESS_READ_RECEIPT: u32 = 0x0000_0002;

    /// Every bit that has a name.
    pub const ALL: u32 = 0x0000_0003;

    /// The flags with their names, in the order in which the text form
    /// lists them.
    pub open spec fn table() -> Seq<FlagName> {
        seq![
            FlagName { bits: 0x0000_0000_0000_0001, name: "HAS_DEVICE_PARTNERSHIP" },
            FlagName { bits: 0x0000_0000_0000_0002, name: "ACTIVE_SYNC_SUPPRESS_READ_RECEIPT" },
        ]
    }

    /// The text form: the name of the type and, in brackets, the names of
    /// the flags that are set and the bits without a name.
    pub open spec fn text(self) -> Seq<char> {
        "MobileMailboxFlags("@ + flags_text(MobileMailboxFlags::table(), self.bits as u64) + ")"@
    }

    /// Whether every bit of `flag` is set.
    pub open spec fn has(self, flag: u32) -> bool {
        self.bits & flag == flag
    }

    /// The flags with their names.
    pub fn names() -> (r: Vec<FlagName>)
        ensures
            r@ == MobileMailboxFlags::table(),
    {
        let r: Vec<FlagName> = vec![
            FlagName { bits: 0x0000_0000_0000_0001, name: "HAS_DEVICE_PARTNERSHIP" },
            FlagName { bits: 0x0000_0000_0000_0002, name: "ACTIVE_SYNC_SUPPRESS_READ_RECEIPT" },
        ];
        assert(r@ =~= MobileMailboxFlags::table());
        r
    }

    /// The set with the given bits.
    pub fn from_bits_retain(bits: u32) -> (r: MobileMailboxFlags)
        ensures
            r.bits == bits,
    {
        MobileMailboxFlags { bits }
    }

    /// The bits of the set.
    pub fn bits(&self) -> (r: u32)
        ensures
            r == self.bits,
    {
        self.bits
    }

    /// Whether every bit of `flag` is set.
    pub fn contains(&self, flag: u32) -> (r: bool)
        ensures
            r == self.has(flag),
    {
        self.bits & flag == flag
    }

    /// Renders the text form.
    pub fn to_debug_string(&self) -> (r: String)
        ensures
            r@ == self.text(),
    {
        let mut out: String = "MobileMailboxFlags(".to_owned();
        out.append(describe_flags(MobileMailboxFlags::names().as_slice(), self.bits as u64).as_str());
        out.append(")");
        out
    }
}

/// Flags of the localization.
#[derive(Clone, Copy, Debug, PartialEq, Eq, Structural, Hash, PartialOrd, Ord)]
pub struct LocalizationFlags {
    pub bits: u32,
}

impl LocalizationFlags {
    pub const LOCALIZATION_DISABLED: u32 = 0x0000_0001;

    /// Every bit that has a name.
    pub const ALL: u32 = 0x0000_0001;

    /// The flags with their names, in the order in which the text form
    /// lists them.
    pub open spec fn table() -> Seq<FlagName> {
        seq![
            FlagName { bits: 0x0000_0000_0000_0001, name: "LOCALIZATION_DISABLED" },
        ]
    }

    /// The text form: the name of the type and, in brackets, the names of
    /// the flags that are set and the bits without a name.
    pub open spec fn text(self) -> Seq<char> {
        "LocalizationFlags("@ + flags_text(LocalizationFlags::table(), self.bits as u64) + ")"@
    }

    /// Whether every bit of `flag` is set.
    pub open spec fn has(self, flag: u32) -> bool {
        self.bits & flag == flag
    }

    /// The flags with their names.
    pub fn names() -> (r: Vec<FlagName>)
        ensures
            r@ == LocalizationFlags::table(),
    {
        let r: Vec<FlagName> = vec![
            FlagName { bits: 0x0000_0000_0000_0001, name: "LOCALIZATION_DISABLED" },
        ];
        assert(r@ =~= LocalizationFlags::table());
        r
    }

    /// The set with the given bits.
    pub fn from_bits_retain(bits: u32) -> (r: LocalizationFlags)
        ensures
            r.bits == bits,
    {
        LocalizationFlags { bits }
    }

    /// The bits of the set.
    pub fn bits(&self) -> (r: u32)
        ensures
            r == self.bits,
    {
        self.bits
    }

    /// Whether every bit of `flag` is set.
    pub fn contains(&self, flag: u32) -> (r: bool)
        ensures
            r == self.has(flag),
    {
        self.bits & flag == flag
    }

    /// Renders the text form.
    pub fn to_debug_string(&self) -> (r: String)
        ensures
            r@ == self.text(),
    {
        let mut out: String = "LocalizationFlags(".to_owned();
        out.append(describe_flags(LocalizationFlags::names().as_slice(), self.bits as u64).as_str());
        out.append(")");
        out
    }
}

/// The first set of the features of a mailbox in the web client.
#[derive(Clone, Copy, Debug, PartialEq, Eq, Structural, Hash, PartialOrd, Ord)]
pub struct MailboxFolderSet {
    pub bits: u32,
}

impl MailboxFolderSet {
    pub const GLOBAL_ADDRESS_LIST_ENABLED: u32 = 0x0000_0001;

    pub const CALENDAR_ENABLED: u32 = 0x0000_0002;

    pub const CONTACTS_ENABLED: u32 = 0x0000_0004;

    pub const TASKS_ENABLED: u32 = 0x0000_0008;

    pub const JOURNAL_ENABLED: u32 = 0x0000_0010;

    pub const NOTES_ENABLED: u32 = 0x0000_0020;

    pub const PUBLIC_FOLDERS_ENABLED: u32 = 0x0000_0040;

    pub const ORGANIZATION_ENABLED: u32 = 0x0000_0080;

    pub const REMINDERS_AND_NOTIFICATIONS_ENABLED: u32 = 0x0000_0100;

    pub const PREMIUM_CLIENT_ENABLED: u32 = 0x0000_0200;

    pub const SPELL_CHECKER_ENABLED: u32 = 0x0000_0400;

    pub const S_MIME_ENABLED: u32 = 0x0000_0800;

    pub const SEARCH_FOLDERS_ENABLED: u32 = 0x0000_1000;

    pub const SIGNATURES_ENABLED: u32 = 0x0000_2000;

    pub const RULES_ENABLED: u32 = 0x0000_4000;

    pub const THEME_SELECTION_ENABLED: u32 = 0x0000_8000;

    pub const JUNK_EMAIL_ENABLED: u32 = 0x0001_0000;

    pub const UM_INTEGRATION_ENABLED: u32 = 0x0002_0000;

    pub const WSS_ACCESS_ON_PUBLIC_COMPUTERS_ENABLED: u32 = 0x0004_0000;

    pub const WSS_ACCESS_ON_PRIVATE_COMPUTERS_ENABLED: u32 = 0x0008_0000;

    pub const UNC_ACCESS_ON_PUBLIC_COMPUTERS_ENABLED: u32 = 0x0010_0000;

    pub const UNC_ACCESS_ON_PRIVATE_COMPUTERS_ENABLED: u32 = 0x0020_0000;

    pub const ACTIVE_SYNC_INTEGRATION_ENABLED: u32 = 0x0040_0000;

    pub const EXPLICIT_LOGON_ENABLED: u32 = 0x0080_0000;

    pub const ALL_ADDRESS_LISTS_ENABLED: u32 = 0x0100_0000;

    pub const RECOVER_DELETED_ITEMS_ENABLED: u32 = 0x0200_0000;

    pub const CHANGE_PASSWORD_ENABLED: u32 = 0x0400_0000;

    pub const INSTANT_MESSAGING_ENABLED: u32 = 0x0800_0000;

    pub const TEXT_MESSAGING_ENABLED: u32 = 0x1000_0000;

    pub const OWA_LIGHT_ENABLED: u32 = 0x2000_0000;

    pub const DELEGATE_ACCESS_ENABLED: u32 = 0x4000_0000;

    pub const IRM_ENABLED: u32 = 0x8000_0000;

    /// Every bit that has a name.
    pub const ALL: u32 = 0xFFFF_FFFF;

    /// The flags with their names, in the order in which the text form
    /// lists them.
    pub open spec fn table() -> Seq<FlagName> {
        seq![
            FlagName { bits: 0x0000_0000_0000_0001, name: "GLOBAL_ADDRESS_LIST_ENABLED" },
            FlagName { bits: 0x0000_0000_0000_0002, name: "CALENDAR_ENABLED" },
            FlagName { bits: 0x0000_0000_0000_0004, name: "CONTACTS_ENABLED" },
            FlagName { bits: 0x0000_0000_0000_0008, name: "TASKS_ENABLED" },
            FlagName { bits: 0x0000_0000_0000_0010, name: "JOURNAL_ENABLED" },
            FlagName { bits: 0x0000_0000_0000_0020, name: "NOTES_ENABLED" },
            FlagName { bits: 0x0000_0000_0000_0040, name: "PUBLIC_FOLDERS_ENABLED" },
            FlagName { bits: 0x0000_0000_0000_0080, name: "ORGANIZATION_ENABLED" },
            FlagName { bits: 0x0000_0000_0000_0100, name: "REMINDERS_AND_NOTIFICATIONS_ENABLED" },
            FlagName { bits: 0x0000_0000_0000_0200, name: "PREMIUM_CLIENT_ENABLED" },
            FlagName { bits: 0x0000_0000_0000_0400, name: "SPELL_CHECKER_ENABLED" },
            FlagName { bits: 0x0000_0000_0000_0800, name: "S_MIME_ENABLED" },
            FlagName { bits: 0x0000_0000_0000_1000, name: "SEARCH_FOLDERS_ENABLED" },
            FlagName { bits: 0x0000_0000_0000_2000, name: "SIGNATURES_ENABLED" },
            FlagName { bits: 0x0000_0000_0000_4000, name: "RULES_ENABLED" },
            FlagName { bits: 0x0000_0000_0000_8000, name: "THEME_SELECTION_ENABLED" },
            FlagName { bits: 0x0000_0000_0001_0000, name: "JUNK_EMAIL_ENABLED" },
            FlagName { bits: 0x0000_0000_0002_0000, name: "UM_INTEGRATION_ENABLED" },
            FlagName { bits: 0x0000_0000_0004_0000, name: "WSS_ACCESS_ON_PUBLIC_COMPUTERS_ENABLED" },
            FlagName { bits: 0x0000_0000_0008_0000, name: "WSS_ACCESS_ON_PRIVATE_COMPUTERS_ENABLED" },
            FlagName { bits: 0x0000_0000_0010_0000, name: "UNC_ACCESS_ON_PUBLIC_COMPUTERS_ENABLED" },
            FlagName { bits: 0x0000_0000_0020_0000, name: "UNC_ACCESS_ON_PRIVATE_COMPUTERS_ENABLED" },
            FlagName { bits: 0x0000_0000_0040_0000, name: "ACTIVE_SYNC_INTEGRATION_ENABLED" },
            FlagName { bits: 0x0000_0000_0080_0000, name: "EXPLICIT_LOGON_ENABLED" },
            FlagName { bits: 0x0000_0000_0100_0000, name: "ALL_ADDRESS_LISTS_ENABLED" },
            FlagName { bits: 0x0000_0000_0200_0000, name: "RECOVER_DELETED_ITEMS_ENABLED" },
            FlagName { bits: 0x0000_0000_0400_0000, name: "CHANGE_PASSWORD_ENABLED" },
            FlagName { bits: 0x0000_0000_0800_0000, name: "INSTANT_MESSAGING_ENABLED" },
            FlagName { bits: 0x0000_0000_1000_0000, name: "TEXT_MESSAGING_ENABLED" },
            FlagName { bits: 0x0000_0000_2000_0000, name: "OWA_LIGHT_ENABLED" },
            FlagName { bits: 0x0000_0000_4000_0000, name: "DELEGATE_ACCESS_ENABLED" },
            FlagName { bits: 0x0000_0000_8000_0000, name: "IRM_ENABLED" },
        ]
    }

    /// The text form: the name of the type and, in brackets, the names of
    /// the flags that are set and the bits without a name.
    pub open spec fn text(self) -> Seq<char> {
        "MailboxFolderSet("@ + flags_text(MailboxFolderSet::table(), self.bits as u64) + ")"@
    }

    /// Whether every bit of `flag` is set.
    pub open spec fn has(self, flag: u32) -> bool {
        self.bits & flag == flag
    }

    /// The flags with their names.
    pub fn names() -> (r: Vec<FlagName>)
        ensures
            r@ == MailboxFolderSet::table(),
    {
        let r: Vec<FlagName> = vec![
            FlagName { bits: 0x0000_0000_0000_0001, name: "GLOBAL_ADDRESS_LIST_ENABLED" },
            FlagName { bits: 0x0000_0000_0000_0002, name: "CALENDAR_ENABLED" },
            FlagName { bits: 0x0000_0000_0000_0004, name: "CONTACTS_ENABLED" },
            FlagName { bits: 0x0000_0000_0000_0008, name: "TASKS_ENABLED" },
            FlagName { bits: 0x0000_0000_0000_0010, name: "JOURNAL_ENABLED" },
            FlagName { bits: 0x0000_0000_0000_0020, name: "NOTES_ENABLED" },
            FlagName { bits: 0x0000_0000_0000_0040, name: "PUBLIC_FOLDERS_ENABLED" },
            FlagName { bits: 0x0000_0000_0000_0080, name: "ORGANIZATION_ENABLED" },
            FlagName { bits: 0x0000_0000_0000_0100, name: "REMINDERS_AND_NOTIFICATIONS_ENABLED" },
            FlagName { bits: 0x0000_0000_0000_0200, name: "PREMIUM_CLIENT_ENABLED" },
            FlagName { bits: 0x0000_0000_0000_0400, name: "SPELL_CHECKER_ENABLED" },
            FlagName { bits: 0x0000_0000_0000_0800, name: "S_MIME_ENABLED" },
            FlagName { bits: 0x0000_0000_0000_1000, name: "SEARCH_FOLDERS_ENABLED" },
            FlagName { bits: 0x0000_0000_0000_2000, name: "SIGNATURES_ENABLED" },
            FlagName { bits: 0x0000_0000_0000_4000, name: "RULES_ENABLED" },
            FlagName { bits: 0x0000_0000_0000_8000, name: "THEME_SELECTION_ENABLED" },
            FlagName { bits: 0x0000_0000_0001_0000, name: "JUNK_EMAIL_ENABLED" },
            FlagName { bits: 0x0000_0000_0002_0000, name: "UM_INTEGRATION_ENABLED" },
            FlagName { bits: 0x0000_0000_0004_0000, name: "WSS_ACCESS_ON_PUBLIC_COMPUTERS_ENABLED" },
            FlagName { bits: 0x0000_0000_0008_0000, name: "WSS_ACCESS_ON_PRIVATE_COMPUTERS_ENABLED" },
            FlagName { bits: 0x0000_0000_0010_0000, name: "UNC_ACCESS_ON_PUBLIC_COMPUTERS_ENABLED" },
            FlagName { bits: 0x0000_0000_0020_0000, name: "UNC_ACCESS_ON_PRIVATE_COMPUTERS_ENABLED" },
            FlagName { bits: 0x0000_0000_0040_0000, name: "ACTIVE_SYNC_INTEGRATION_ENABLED" },
            FlagName { bits: 0x0000_0000_0080_0000, name: "EXPLICIT_LOGON_ENABLED" },
            FlagName { bits: 0x0000_0000_0100_0000, name: "ALL_ADDRESS_LISTS_ENABLED" },
            FlagName { bits: 0x0000_0000_0200_0000, name: "RECOVER_DELETED_ITEMS_ENABLED" },
            FlagName { bits: 0x0000_0000_0400_0000, name: "CHANGE_PASSWORD_ENABLED" },
            FlagName { bits: 0x0000_0000_0800_0000, name: "INSTANT_MESSAGING_ENABLED" },
            FlagName { bits: 0x0000_0000_1000_0000, name: "TEXT_MESSAGING_ENABLED" },
            FlagName { bits: 0x0000_0000_2000_0000, name: "OWA_LIGHT_ENABLED" },
            FlagName { bits: 0x0000_0000_4000_0000, name: "DELEGATE_ACCESS_ENABLED" },
            FlagName { bits: 0x0000_0000_8000_0000, name: "IRM_ENABLED" },
        ];
        assert(r@ =~= MailboxFolderSet::table());
        r
    }

    /// The set with the given bits.
    pub fn from_bits_retain(bits: u32) -> (r: MailboxFolderSet)
        ensures
            r.bits == bits,
    {
        MailboxFolderSet { bits }
    }

    /// The bits of the set.
    pub fn bits(&self) -> (r: u32)
        ensures
            r == self.bits,
    {
        self.bits
    }

    /// Whether every bit of `flag` is set.
    pub fn contains(&self, flag: u32) -> (r: bool)
        ensures
            r == self.has(flag),
    {
        self.bits & flag == flag
    }

    /// Renders the text form.
    pub fn to_debug_string(&self) -> (r: String)
        ensures
            r@ == self.text(),
    {
        let mut out: String = "MailboxFolderSet(".to_owned();
        out.append(describe_flags(MailboxFolderSet::names().as_slice(), self.bits as u64).as_str());
        out.append(")");
        out
    }
}

/// The operations on a mailbox that are audited.
#[derive(Clone, Copy, Debug, PartialEq, Eq, Structural, Hash, PartialOrd, Ord)]
pub struct MailboxAuditOperations {
    pub bits: u32,
}

impl MailboxAuditOperations {
    pub const UPDATE: u32 = 0x0000_0001;

    pub const COPY: u32 = 0x0000_0002;

    pub const MOVE: u32 = 0x0000_0004;

    pub const MOVE_TO_DELETED_ITEMS: u32 = 0x0000_0008;

    pub const SOFT_DELETE: u32 = 0x0000_0010;

    pub const HARD_DELETE: u32 = 0x0000_0020;

    pub const FOLDER_BIND: u32 = 0x0000_0040;

    pub const SEND_AS: u32 = 0x0000_0080;

    pub const SEND_ON_BEHALF: u32 = 0x0000_0100;

    pub const MESSAGE_BIND: u32 = 0x0000_0200;

    pub const CREATE: u32 = 0x0000_0400;

    pub const MAILBOX_LOGIN: u32 = 0x0000_0800;

    pub const UPDATE_FOLDER_PERMISSIONS: u32 = 0x0000_1000;

    pub const ADD_FOLDER_PERMISSIONS: u32 = 0x0000_2000;

    pub const MODIFY_FOLDER_PERMISSIONS: u32 = 0x0000_4000;

    pub const REMOVE_FOLDER_PERMISSIONS: u32 = 0x0000_8000;

    pub const UPDATE_INBOX_RULES: u32 = 0x0001_0000;

    pub const UPDATE_CALENDAR_DELEGATION: u32 = 0x0002_0000;

    /// Every bit that has a name.
    pub const ALL: u32 = 0x0003_FFFF;

    /// The flags with their names, in the order in which the text form
    /// lists them.
    pub open spec fn table() -> Seq<FlagName> {
        seq![
            FlagName { bits: 0x0000_0000_0000_0001, name: "UPDATE" },
            FlagName { bits: 0x0000_0000_0000_0002, name: "COPY" },
            FlagName { bits: 0x0000_0000_0000_0004, name: "MOVE" },
            FlagName { bits: 0x0000_0000_0000_0008, name: "MOVE_TO_DELETED_ITEMS" },
            FlagName { bits: 0x0000_0000_0000_0010, name: "SOFT_DELETE" },
            FlagName { bits: 0x0000_0000_0000_0020, name: "HARD_DELETE" },
            FlagName { bits: 0x0000_0000_0000_0040, name: "FOLDER_BIND" },
            FlagName { bits: 0x0000_0000_0000_0080, name: "SEND_AS" },
            FlagName { bits: 0x0000_0000_0000_0100, name: "SEND_ON_BEHALF" },
            FlagName { bits: 0x0000_0000_0000_0200, name: "MESSAGE_BIND" },
            FlagName { bits: 0x0000_0000_0000_0400, name: "CREATE" },
            FlagName { bits: 0x0000_0000_0000_0800, name: "MAILBOX_LOGIN" },
            FlagName { bits: 0x0000_0000_0000_1000, name: "UPDATE_FOLDER_PERMISSIONS" },
            FlagName { bits: 0x0000_0000_0000_2000, name: "ADD_FOLDER_PERMISSIONS" },
            FlagName { bits: 0x0000_0000_0000_4000, name: "MODIFY_FOLDER_PERMISSIONS" },
            FlagName { bits: 0x0000_0000_0000_8000, name: "REMOVE_FOLDER_PERMISSIONS" },
            FlagName { bits: 0x0000_0000_0001_0000, name: "UPDATE_INBOX_RULES" },
            FlagName { bits: 0x0000_0000_0002_0000, name: "UPDATE_CALENDAR_DELEGATION" },
        ]
    }

    /// The text form: the name of the type and, in brackets, the names of
    /// the flags that are set and the bits without a name.
    pub open spec fn text(self) -> Seq<char> {
        "MailboxAuditOperations("@ + flags_text(MailboxAuditOperations::table(), self.bits as u64) + ")"@
    }

    /// Whether every bit of `flag` is set.
    pub open spec fn has(self, flag: u32) -> bool {
        self.bits & flag == flag
    }

    /// The flags with their names.
    pub fn names() -> (r: Vec<FlagName>)
        ensures
            r@ == MailboxAuditOperations::table(),
    {
        let r: Vec<FlagName> = vec![
            FlagName { bits: 0x0000_0000_0000_0001, name: "UPDATE" },
            FlagName { bits: 0x0000_0000_0000_0002, name: "COPY" },
            FlagName { bits: 0x0000_0000_0000_0004, name: "MOVE" },
            FlagName { bits: 0x0000_0000_0000_0008, name: "MOVE_TO_DELETED_ITEMS" },
            FlagName { bits: 0x0000_0000_0000_0010, name: "SOFT_DELETE" },
            FlagName { bits: 0x0000_0000_0000_0020, name: "HARD_DELETE" },
            FlagName { bits: 0x0000_0000_0000_0040, name: "FOLDER_BIND" },
            FlagName { bits: 0x0000_0000_0000_0080, name: "SEND_AS" },
            FlagName { bits: 0x0000_0000_0000_0100, name: "SEND_ON_BEHALF" },
            FlagName { bits: 0x0000_0000_0000_0200, name: "MESSAGE_BIND" },
            FlagName { bits: 0x0000_0000_0000_0400, name: "CREATE" },
            FlagName { bits: 0x0000_0000_0000_0800, name: "MAILBOX_LOGIN" },
            FlagName { bits: 0x0000_0000_0000_1000, name: "UPDATE_FOLDER_PERMISSIONS" },
            FlagName { bits: 0x0000_0000_0000_2000, name: "ADD_FOLDER_PERMISSIONS" },
            FlagName { bits: 0x0000_0000_0000_4000, name: "MODIFY_FOLDER_PERMISSIONS" },
            FlagName { bits: 0x0000_0000_0000_8000, name: "REMOVE_FOLDER_PERMISSIONS" },
            FlagName { bits: 0x0000_0000_0001_0000, name: "UPDATE_INBOX_RULES" },
            FlagName { bits: 0x0000_0000_0002_0000, name: "UPDATE_CALENDAR_DELEGATION" },
        ];
        assert(r@ =~= MailboxAuditOperations::table());
        r
    }

    /// The set with the given bits.
    pub fn from_bits_retain(bits: u32) -> (r: MailboxAuditOperations)
        ensures
            r.bits == bits,
    {
        MailboxAuditOperations { bits }
    }

    /// The bits of the set.
    pub fn bits(&self) -> (r: u32)
        ensures
            r == self.bits,
    {
        self.bits
    }

    /// Whether every bit of `flag` is set.
    pub fn contains(&self, flag: u32) -> (r: bool)
        ensures
            r == self.has(flag),
    {
        self.bits & flag == flag
    }

    /// Renders the text form.
    pub fn to_debug_string(&self) -> (r: String)
        ensures
            r@ == self.text(),
    {
        let mut out: String = "MailboxAuditOperations(".to_owned();
        out.append(describe_flags(MailboxAuditOperations::names().as_slice(), self.bits as u64).as_str());
        out.append(")");
        out
    }
}

/// The kinds of client of a device.
#[derive(Clone, Copy, Debug, PartialEq, Eq, Structural, Hash, PartialOrd, Ord)]
pub struct DeviceClientType {
    pub bits: u32,
}

impl DeviceClientType {
    pub const EAS: u32 = 0x0000_0001;

    pub const MOWA: u32 = 0x0000_0002;

    pub const OUTLOOK: u32 = 0x0000_0004;

    pub const REST: u32 = 0x0000_0008;

    /// Every bit that has a name.
    pub const ALL: u32 = 0x0000_000F;

    /// The flags with their names, in the order in which the text form
    /// lists them.
    pub open spec fn table() -> Seq<FlagName> {
        seq![
            FlagName { bits: 0x0000_0000_0000_0001, name: "EAS" },
            FlagName { bits: 0x0000_0000_0000_0002, name: "MOWA" },
            FlagName { bits: 0x0000_0000_0000_0004, name: "OUTLOOK" },
            FlagName { bits: 0x0000_0000_0000_0008, name: "REST" },
        ]
    }

    /// The text form: the name of the type and, in brackets, the names of
    /// the flags that are set and the bits without a name.
    pub open spec fn text(self) -> Seq<char> {
        "DeviceClientType("@ + flags_text(DeviceClientType::table(), self.bits as u64) + ")"@
    }

    /// Whether every bit of `flag` is set.
    pub open spec fn has(self, flag: u32) -> bool {
        self.bits & flag == flag
    }

    /// The flags with their names.
    pub fn names() -> (r: Vec<FlagName>)
        ensures
            r@ == DeviceClientType::table(),
    {
        let r: Vec<FlagName> = vec![
            FlagName { bits: 0x0000_0000_0000_0001, name: "EAS" },
            FlagName { bits: 0x0000_0000_0000_0002, name: "MOWA" },
            FlagName { bits: 0x0000_0000_0000_0004, name: "OUTLOOK" },
            FlagName { bits: 0x0000_0000_0000_0008, name: "REST" },
        ];
        assert(r@ =~= DeviceClientType::table());
        r
    }

    /// The set with the given bits.
    pub fn from_bits_retain(bits: u32) -> (r: DeviceClientType)
        ensures
            r.bits == bits,
    {
        DeviceClientType { bits }
    }

    /// The bits of the set.
    pub fn bits(&self) -> (r: u32)
        ensures
            r == self.bits,
    {
        self.bits
    }

    /// Whether every bit of `flag` is set.
    pub fn contains(&self, flag: u32) -> (r: bool)
        ensures
            r == self.has(flag),
    {
        self.bits & flag == flag
    }

    /// Renders the text form.
    pub fn to_debug_string(&self) -> (r: String)
        ensures
            r@ == self.text(),
    {
        let mut out: String = "DeviceClientType(".to_owned();
        out.append(describe_flags(DeviceClientType::names().as_slice(), self.bits as u64).as_str());
        out.append(")");
        out
    }
}

} // verus!
