//! Which form the values of an attribute have, by the name of the
//! attribute and, for a few names, by the classes of the object.

use crate::text::{decimal, str_eq};
use crate::values::bitmasks::exchange::{
    AddressBookFlags, ElcMailboxFlags, MobileMailboxFlags, ModerationFlags, ProvisioningFlags,
    RecipientTypeDetails, SoftDeletedStatus, TransportSettingFlags,
};
use crate::values::bitmasks::{
    AttributeSchemaSystemFlags, ClassSchemaSystemFlags, CrossRefSystemFlags, DsConnectionOptions,
    DsaSettingsOptions, GenericSystemFlags, GroupType, InstanceType, InterSiteTransportOptions,
    OptionalFeatureFlags, PasswordProperties, SearchFlags, SiteConnectionOptions,
    SiteSettingsOptions, SupportedEncryptionTypes, TrustAttributes, TrustDirection,
    UserAccountControl,
};
use crate::values::enums::{
    FunctionalityLevel, ObjectClassCategory, OmSyntax, ReplAuthenticationMode, Rid, SamAccountType,
    ServerState, TrustType,
};
use crate::values::{any_is_string, holds_text, LdapValue};
use vstd::prelude::*;

verus! {

/// The integers in which the directory writes a set of flags.
#[derive(Clone, Copy, Debug, PartialEq, Eq, Structural)]
pub enum IntKind {
    /// An unsigned number of 32 bits.
    U32,
    /// A signed number of 32 bits.
    I32,
    /// A signed number of 64 bits.
    I64,
}

/// The sets of flags that attributes hold.
#[derive(Clone, Copy, Debug, PartialEq, Eq, Structural)]
pub enum FlagFamily {
    UserAccountControl,
    GroupType,
    CrossRefSystemFlags,
    ClassSchemaSystemFlags,
    AttributeSchemaSystemFlags,
    GenericSystemFlags,
    InstanceType,
    OptionalFeatureFlags,
    InterSiteTransportOptions,
    DsConnectionOptions,
    DsaSettingsOptions,
    SiteSettingsOptions,
    SiteConnectionOptions,
    PasswordProperties,
    SearchFlags,
    SupportedEncryptionTypes,
    TrustAttributes,
    TrustDirection,
    AddressBookFlags,
    ElcMailboxFlags,
    MobileMailboxFlags,
    ModerationFlags,
    ProvisioningFlags,
    SoftDeletedStatus,
    RecipientTypeDetails,
    TransportSettingFlags,
}

impl FlagFamily {
    /// The integers in which the directory writes the flags.
    pub open spec fn int_kind(self) -> IntKind {
        match self {
            FlagFamily::UserAccountControl => IntKind::U32,
            FlagFamily::GroupType => IntKind::I32,
            FlagFamily::CrossRefSystemFlags => IntKind::I32,
            FlagFamily::ClassSchemaSystemFlags => IntKind::I32,
            FlagFamily::AttributeSchemaSystemFlags => IntKind::I32,
            FlagFamily::GenericSystemFlags => IntKind::I32,
            FlagFamily::InstanceType => IntKind::U32,
            FlagFamily::OptionalFeatureFlags => IntKind::U32,
            FlagFamily::InterSiteTransportOptions => IntKind::U32,
            FlagFamily::DsConnectionOptions => IntKind::U32,
            FlagFamily::DsaSettingsOptions => IntKind::U32,
            FlagFamily::SiteSettingsOptions => IntKind::U32,
            FlagFamily::SiteConnectionOptions => IntKind::U32,
            FlagFamily::PasswordProperties => IntKind::U32,
            FlagFamily::SearchFlags => IntKind::U32,
            FlagFamily::SupportedEncryptionTypes => IntKind::U32,
            FlagFamily::TrustAttributes => IntKind::U32,
            FlagFamily::TrustDirection => IntKind::U32,
            FlagFamily::AddressBookFlags => IntKind::I32,
            FlagFamily::ElcMailboxFlags => IntKind::U32,
            FlagFamily::MobileMailboxFlags => IntKind::I32,
            FlagFamily::ModerationFlags => IntKind::I32,
            FlagFamily::ProvisioningFlags => IntKind::U32,
            FlagFamily::SoftDeletedStatus => IntKind::U32,
            FlagFamily::RecipientTypeDetails => IntKind::I64,
            FlagFamily::TransportSettingFlags => IntKind::I32,
        }
    }

    /// The text form of the set of flags with the bits `bits`.
    pub open spec fn text(self, bits: u64) -> Seq<char> {
        match self {
            FlagFamily::UserAccountControl => (UserAccountControl { bits: bits as u32 }).text(),
            FlagFamily::GroupType => (GroupType { bits: bits as u32 }).text(),
            FlagFamily::CrossRefSystemFlags => (CrossRefSystemFlags { bits: bits as u32 }).text(),
            FlagFamily::ClassSchemaSystemFlags => (ClassSchemaSystemFlags { bits: bits as u32 }).text(),
            FlagFamily::AttributeSchemaSystemFlags => (AttributeSchemaSystemFlags { bits: bits as u32 }).text(),
            FlagFamily::GenericSystemFlags => (GenericSystemFlags { bits: bits as u32 }).text(),
            FlagFamily::InstanceType => (InstanceType { bits: bits as u32 }).text(),
            FlagFamily::OptionalFeatureFlags => (OptionalFeatureFlags { bits: bits as u32 }).text(),
            FlagFamily::InterSiteTransportOptions => (InterSiteTransportOptions { bits: bits as u32 }).text(),
            FlagFamily::DsConnectionOptions => (DsConnectionOptions { bits: bits as u32 }).text(),
            FlagFamily::DsaSettingsOptions => (DsaSettingsOptions { bits: bits as u32 }).text(),
            FlagFamily::SiteSettingsOptions => (SiteSettingsOptions { bits: bits as u32 }).text(),
            FlagFamily::SiteConnectionOptions => (SiteConnectionOptions { bits: bits as u32 }).text(),
            FlagFamily::PasswordProperties => (PasswordProperties { bits: bits as u32 }).text(),
            FlagFamily::SearchFlags => (SearchFlags { bits: bits as u32 }).text(),
            FlagFamily::SupportedEncryptionTypes => (SupportedEncryptionTypes { bits: bits as u32 }).text(),
            FlagFamily::TrustAttributes => (TrustAttributes { bits: bits as u32 }).text(),
            FlagFamily::TrustDirection => (TrustDirection { bits: bits as u32 }).text(),
            FlagFamily::AddressBookFlags => (AddressBookFlags { bits: bits as u32 }).text(),
            FlagFamily::ElcMailboxFlags => (ElcMailboxFlags { bits: bits as u32 }).text(),
            FlagFamily::MobileMailboxFlags => (MobileMailboxFlags { bits: bits as u32 }).text(),
            FlagFamily::ModerationFlags => (ModerationFlags { bits: bits as u32 }).text(),
            FlagFamily::ProvisioningFlags => (ProvisioningFlags { bits: bits as u32 }).text(),
            FlagFamily::SoftDeletedStatus => (SoftDeletedStatus { bits: bits as u32 }).text(),
            FlagFamily::RecipientTypeDetails => (RecipientTypeDetails { bits: bits as u64 }).text(),
            FlagFamily::TransportSettingFlags => (TransportSettingFlags { bits: bits as u32 }).text(),
        }
    }

    /// The integers in which the directory writes the flags.
    pub fn kind(&self) -> (r: IntKind)
        ensures
            r == self.int_kind(),
    {
        match self {
            FlagFamily::UserAccountControl => IntKind::U32,
            FlagFamily::GroupType => IntKind::I32,
            FlagFamily::CrossRefSystemFlags => IntKind::I32,
            FlagFamily::ClassSchemaSystemFlags => IntKind::I32,
            FlagFamily::AttributeSchemaSystemFlags => IntKind::I32,
            FlagFamily::GenericSystemFlags => IntKind::I32,
            FlagFamily::InstanceType => IntKind::U32,
            FlagFamily::OptionalFeatureFlags => IntKind::U32,
            FlagFamily::InterSiteTransportOptions => IntKind::U32,
            FlagFamily::DsConnectionOptions => IntKind::U32,
            FlagFamily::DsaSettingsOptions => IntKind::U32,
            FlagFamily::SiteSettingsOptions => IntKind::U32,
            FlagFamily::SiteConnectionOptions => IntKind::U32,
            FlagFamily::PasswordProperties => IntKind::U32,
            FlagFamily::SearchFlags => IntKind::U32,
            FlagFamily::SupportedEncryptionTypes => IntKind::U32,
            FlagFamily::TrustAttributes => IntKind::U32,
            FlagFamily::TrustDirection => IntKind::U32,
            FlagFamily::AddressBookFlags => IntKind::I32,
            FlagFamily::ElcMailboxFlags => IntKind::U32,
            FlagFamily::MobileMailboxFlags => IntKind::I32,
            FlagFamily::ModerationFlags => IntKind::I32,
            FlagFamily::ProvisioningFlags => IntKind::U32,
            FlagFamily::SoftDeletedStatus => IntKind::U32,
            FlagFamily::RecipientTypeDetails => IntKind::I64,
            FlagFamily::TransportSettingFlags => IntKind::I32,
        }
    }

    /// Renders the text form of the set of flags with the bits `bits`. A
    /// family of 32 bits takes the lower 32 bits.
    pub fn to_debug_string(&self, bits: u64) -> (r: String)
        ensures
            r@ == self.text(bits),
    {
        match self {
            FlagFamily::UserAccountControl => UserAccountControl::from_bits_retain(#[verifier::truncate] (bits as u32)).to_debug_string(),
            FlagFamily::GroupType => GroupType::from_bits_retain(#[verifier::truncate] (bits as u32)).to_debug_string(),
            FlagFamily::CrossRefSystemFlags => CrossRefSystemFlags::from_bits_retain(#[verifier::truncate] (bits as u32)).to_debug_string(),
            FlagFamily::ClassSchemaSystemFlags => ClassSchemaSystemFlags::from_bits_retain(#[verifier::truncate] (bits as u32)).to_debug_string(),
            FlagFamily::AttributeSchemaSystemFlags => AttributeSchemaSystemFlags::from_bits_retain(#[verifier::truncate] (bits as u32)).to_debug_string(),
            FlagFamily::GenericSystemFlags => GenericSystemFlags::from_bits_retain(#[verifier::truncate] (bits as u32)).to_debug_string(),
            FlagFamily::InstanceType => InstanceType::from_bits_retain(#[verifier::truncate] (bits as u32)).to_debug_string(),
            FlagFamily::OptionalFeatureFlags => OptionalFeatureFlags::from_bits_retain(#[verifier::truncate] (bits as u32)).to_debug_string(),
            FlagFamily::InterSiteTransportOptions => InterSiteTransportOptions::from_bits_retain(#[verifier::truncate] (bits as u32)).to_debug_string(),
            FlagFamily::DsConnectionOptions => DsConnectionOptions::from_bits_retain(#[verifier::truncate] (bits as u32)).to_debug_string(),
            FlagFamily::DsaSettingsOptions => DsaSettingsOptions::from_bits_retain(#[verifier::truncate] (bits as u32)).to_debug_string(),
            FlagFamily::SiteSettingsOptions => SiteSettingsOptions::from_bits_retain(#[verifier::truncate] (bits as u32)).to_debug_string(),
            FlagFamily::SiteConnectionOptions => SiteConnectionOptions::from_bits_retain(#[verifier::truncate] (bits as u32)).to_debug_string(),
            FlagFamily::PasswordProperties => PasswordProperties::from_bits_retain(#[verifier::truncate] (bits as u32)).to_debug_string(),
            FlagFamily::SearchFlags => SearchFlags::from_bits_retain(#[verifier::truncate] (bits as u32)).to_debug_string(),
            FlagFamily::SupportedEncryptionTypes => SupportedEncryptionTypes::from_bits_retain(#[verifier::truncate] (bits as u32)).to_debug_string(),
            FlagFamily::TrustAttributes => TrustAttributes::from_bits_retain(#[verifier::truncate] (bits as u32)).to_debug_string(),
            FlagFamily::TrustDirection => TrustDirection::from_bits_retain(#[verifier::truncate] (bits as u32)).to_debug_string(),
            FlagFamily::AddressBookFlags => AddressBookFlags::from_bits_retain(#[verifier::truncate] (bits as u32)).to_debug_string(),
            FlagFamily::ElcMailboxFlags => ElcMailboxFlags::from_bits_retain(#[verifier::truncate] (bits as u32)).to_debug_string(),
            FlagFamily::MobileMailboxFlags => MobileMailboxFlags::from_bits_retain(#[verifier::truncate] (bits as u32)).to_debug_string(),
            FlagFamily::ModerationFlags => ModerationFlags::from_bits_retain(#[verifier::truncate] (bits as u32)).to_debug_string(),
            FlagFamily::ProvisioningFlags => ProvisioningFlags::from_bits_retain(#[verifier::truncate] (bits as u32)).to_debug_string(),
            FlagFamily::SoftDeletedStatus => SoftDeletedStatus::from_bits_retain(#[verifier::truncate] (bits as u32)).to_debug_string(),
            FlagFamily::RecipientTypeDetails => RecipientTypeDetails::from_bits_retain(bits).to_debug_string(),
            FlagFamily::TransportSettingFlags => TransportSettingFlags::from_bits_retain(#[verifier::truncate] (bits as u32)).to_debug_string(),
        }
    }
}

/// The kinds of number with a name each that attributes hold.
#[derive(Clone, Copy, Debug, PartialEq, Eq, Structural)]
pub enum NamedNumber {
    SamAccountType,
    FunctionalityLevel,
    ReplAuthenticationMode,
    ObjectClassCategory,
    OmSyntax,
    Rid,
    ServerState,
    TrustType,
}

impl NamedNumber {
    /// The name of the number `value`; none where the kind has no name
    /// for it and none for "any other".
    pub open spec fn text(self, value: u32) -> Option<Seq<char>> {
        match self {
            NamedNumber::SamAccountType => match SamAccountType::named(value) {
                Some(v) => Some(v.debug_text()),
                None => None,
            },
            NamedNumber::FunctionalityLevel => match FunctionalityLevel::named(value) {
                Some(v) => Some(v.debug_text()),
                None => None,
            },
            NamedNumber::ReplAuthenticationMode => Some(
                match ReplAuthenticationMode::named(value) {
                    Some(v) => v.debug_text(),
                    None => ReplAuthenticationMode::Other(value).debug_text(),
                },
            ),
            NamedNumber::ObjectClassCategory => Some(
                match ObjectClassCategory::named(value) {
                    Some(v) => v.debug_text(),
                    None => ObjectClassCategory::Other(value).debug_text(),
                },
            ),
            NamedNumber::OmSyntax => Some(
                match OmSyntax::named(value) {
                    Some(v) => v.debug_text(),
                    None => OmSyntax::Other(value).debug_text(),
                },
            ),
            NamedNumber::Rid => Some(
                match Rid::named(value) {
                    Some(v) => v.debug_text(),
                    None => Rid::Other(value).debug_text(),
                },
            ),
            NamedNumber::ServerState => Some(
                match ServerState::named(value) {
                    Some(v) => v.debug_text(),
                    None => ServerState::Other(value).debug_text(),
                },
            ),
            NamedNumber::TrustType => Some(
                match TrustType::named(value) {
                    Some(v) => v.debug_text(),
                    None => TrustType::Other(value).debug_text(),
                },
            ),
        }
    }

    /// Renders the name of the number `value`.
    pub fn to_debug_string(&self, value: u32) -> (r: Option<String>)
        ensures
            r is Some <==> self.text(value) is Some,
            r matches Some(t) ==> Some(t@) == self.text(value),
    {
        match self {
            NamedNumber::SamAccountType => match SamAccountType::try_from_repr(value) {
                Some(v) => Some(v.to_debug_string()),
                None => None,
            },
            NamedNumber::FunctionalityLevel => match FunctionalityLevel::try_from_repr(value) {
                Some(v) => Some(v.to_debug_string()),
                None => None,
            },
            NamedNumber::ReplAuthenticationMode => Some(ReplAuthenticationMode::from_base_type(value).to_debug_string()),
            NamedNumber::ObjectClassCategory => Some(ObjectClassCategory::from_base_type(value).to_debug_string()),
            NamedNumber::OmSyntax => Some(OmSyntax::from_base_type(value).to_debug_string()),
            NamedNumber::Rid => Some(Rid::from_base_type(value).to_debug_string()),
            NamedNumber::ServerState => Some(ServerState::from_base_type(value).to_debug_string()),
            NamedNumber::TrustType => Some(TrustType::from_base_type(value).to_debug_string()),
        }
    }
}

/// The forms that a text value can have.
#[derive(Clone, Copy, Debug, PartialEq, Eq, Structural)]
pub enum StringForm {
    /// A set of flags as a decimal number.
    Flags(FlagFamily),
    /// The system flags, whose names depend on the classes of the object.
    SystemFlags,
    /// The options, whose names depend on the classes of the object.
    Options,
    /// A number with a name, as a decimal number.
    Number(NamedNumber),
    /// The object identifier of the syntax of an attribute.
    Syntax,
    /// A key credential link in its envelope.
    KeyCredentialLink,
    /// The state of text messaging as a decimal number.
    TextMessagingState,
    /// The version of the mail server as a decimal number.
    ExchangeVersion,
    /// The encoding for the Internet as a decimal number.
    InternetEncoding,
    /// A point in time as a decimal number of ticks since 1601.
    Time,
    /// An object identifier.
    Oid,
    /// An interval as a decimal number of ticks below zero.
    Interval,
}

/// The forms that a binary value can have.
#[derive(Clone, Copy, Debug, PartialEq, Eq, Structural)]
pub enum BinaryForm {
    Guid,
    Sid,
    ReplUpToDateVector,
    RepsFromTo,
    DnsProperty,
    DnsRecord,
    DsaSignature,
    TrustForestTrustInfo,
    PrefixMap,
    SchemaInfo,
    SecurityDescriptor,
    /// A text in UTF-16 after a byte order mark.
    Utf16Text,
    DfsrSchedule,
    OmObjectClass,
    UserParameters,
}

/// The form of the text values of an attribute.
#[derive(Clone, Copy, Debug, PartialEq, Eq)]
pub struct StringEntry {
    pub name: &'static str,
    pub form: StringForm,
}

/// The form of the binary values of an attribute.
#[derive(Clone, Copy, Debug, PartialEq, Eq)]
pub struct BinaryEntry {
    pub name: &'static str,
    pub form: BinaryForm,
}

/// The attributes whose text values have a form, with their forms.
pub open spec fn string_table() -> Seq<StringEntry> {
    seq![
        StringEntry { name: "userAccountControl", form: StringForm::Flags(FlagFamily::UserAccountControl) },
        StringEntry { name: "msDs-User-Account-Control-Computed", form: StringForm::Flags(FlagFamily::UserAccountControl) },
        StringEntry { name: "msExchUserAccountControl", form: StringForm::Flags(FlagFamily::UserAccountControl) },
        StringEntry { name: "groupType", form: StringForm::Flags(FlagFamily::GroupType) },
        StringEntry { name: "sAMAccountType", form: StringForm::Number(NamedNumber::SamAccountType) },
        StringEntry { name: "domainControllerFunctionality", form: StringForm::Number(NamedNumber::FunctionalityLevel) },
        StringEntry { name: "domainFunctionality", form: StringForm::Number(NamedNumber::FunctionalityLevel) },
        StringEntry { name: "forestFunctionality", form: StringForm::Number(NamedNumber::FunctionalityLevel) },
        StringEntry { name: "msDS-Behavior-Version", form: StringForm::Number(NamedNumber::FunctionalityLevel) },
        StringEntry { name: "msDS-RequiredDomainBehaviorVersion", form: StringForm::Number(NamedNumber::FunctionalityLevel) },
        StringEntry { name: "msDS-RequiredForestBehaviorVersion", form: StringForm::Number(NamedNumber::FunctionalityLevel) },
        StringEntry { name: "systemFlags", form: StringForm::SystemFlags },
        StringEntry { name: "instanceType", form: StringForm::Flags(FlagFamily::InstanceType) },
        StringEntry { name: "msDS-ReplAuthenticationMode", form: StringForm::Number(NamedNumber::ReplAuthenticationMode) },
        StringEntry { name: "msDS-OptionalFeatureFlags", form: StringForm::Flags(FlagFamily::OptionalFeatureFlags) },
        StringEntry { name: "objectClassCategory", form: StringForm::Number(NamedNumber::ObjectClassCategory) },
        StringEntry { name: "oMSyntax", form: StringForm::Number(NamedNumber::OmSyntax) },
        StringEntry { name: "attributeSyntax", form: StringForm::Syntax },
        StringEntry { name: "options", form: StringForm::Options },
        StringEntry { name: "primaryGroupID", form: StringForm::Number(NamedNumber::Rid) },
        StringEntry { name: "pwdProperties", form: StringForm::Flags(FlagFamily::PasswordProperties) },
        StringEntry { name: "searchFlags", form: StringForm::Flags(FlagFamily::SearchFlags) },
        StringEntry { name: "serverState", form: StringForm::Number(NamedNumber::ServerState) },
        StringEntry { name: "msDS-SupportedEncryptionTypes", form: StringForm::Flags(FlagFamily::SupportedEncryptionTypes) },
        StringEntry { name: "trustAttributes", form: StringForm::Flags(FlagFamily::TrustAttributes) },
        StringEntry { name: "trustDirection", form: StringForm::Flags(FlagFamily::TrustDirection) },
        StringEntry { name: "trustType", form: StringForm::Number(NamedNumber::TrustType) },
        StringEntry { name: "msDS-KeyCredentialLink", form: StringForm::KeyCredentialLink },
        StringEntry { name: "msExchAddressBookFlags", form: StringForm::Flags(FlagFamily::AddressBookFlags) },
        StringEntry { name: "msExchELCMailboxFlags", form: StringForm::Flags(FlagFamily::ElcMailboxFlags) },
        StringEntry { name: "msExchMobileMailboxFlags", form: StringForm::Flags(FlagFamily::MobileMailboxFlags) },
        StringEntry { name: "msExchModerationFlags", form: StringForm::Flags(FlagFamily::ModerationFlags) },
        StringEntry { name: "msExchProvisioningFlags", form: StringForm::Flags(FlagFamily::ProvisioningFlags) },
        StringEntry { name: "msExchRecipientSoftDeletedStatus", form: StringForm::Flags(FlagFamily::SoftDeletedStatus) },
        StringEntry { name: "msExchRecipientTypeDetails", form: StringForm::Flags(FlagFamily::RecipientTypeDetails) },
        StringEntry { name: "msExchPreviousRecipientTypeDetails", form: StringForm::Flags(FlagFamily::RecipientTypeDetails) },
        StringEntry { name: "msExchTextMessagingState", form: StringForm::TextMessagingState },
        StringEntry { name: "msExchTransportRecipientSettingsFlags", form: StringForm::Flags(FlagFamily::TransportSettingFlags) },
        StringEntry { name: "msExchVersion", form: StringForm::ExchangeVersion },
        StringEntry { name: "internetEncoding", form: StringForm::InternetEncoding },
        StringEntry { name: "accountExpires", form: StringForm::Time },
        StringEntry { name: "badPasswordTime", form: StringForm::Time },
        StringEntry { name: "creationTime", form: StringForm::Time },
        StringEntry { name: "lastLogoff", form: StringForm::Time },
        StringEntry { name: "lastLogon", form: StringForm::Time },
        StringEntry { name: "lastLogonTimestamp", form: StringForm::Time },
        StringEntry { name: "msDS-ApproximateLastLogonTimeStamp", form: StringForm::Time },
        StringEntry { name: "msDS-Cached-Membership-Time-Stamp", form: StringForm::Time },
        StringEntry { name: "msDS-KeyApproximateLastLogonTimeStamp", form: StringForm::Time },
        StringEntry { name: "msDS-LastSuccessfulInteractiveLogonTime", form: StringForm::Time },
        StringEntry { name: "msDS-LastFailedInteractiveLogonTime", form: StringForm::Time },
        StringEntry { name: "msDS-UserPasswordExpiryTimeComputed", form: StringForm::Time },
        StringEntry { name: "pwdLastSet", form: StringForm::Time },
        StringEntry { name: "supportedCapabilities", form: StringForm::Oid },
        StringEntry { name: "supportedControl", form: StringForm::Oid },
        StringEntry { name: "supportedExtension", form: StringForm::Oid },
        StringEntry { name: "lockoutDuration", form: StringForm::Interval },
        StringEntry { name: "lockOutObservationWindow", form: StringForm::Interval },
        StringEntry { name: "maxPwdAge", form: StringForm::Interval },
        StringEntry { name: "minPwdAge", form: StringForm::Interval },
        StringEntry { name: "msDS-LockoutDuration", form: StringForm::Interval },
        StringEntry { name: "msDS-LockoutObservationWindow", form: StringForm::Interval },
        StringEntry { name: "msDS-MaximumPasswordAge", form: StringForm::Interval },
        StringEntry { name: "msDS-MinimumPasswordAge", form: StringForm::Interval },
        StringEntry { name: "forceLogoff", form: StringForm::Interval },
    ]
}

/// The attributes whose binary values have a form, with their forms.
pub open spec fn binary_table() -> Seq<BinaryEntry> {
    seq![
        BinaryEntry { name: "attributeSecurityGUID", form: BinaryForm::Guid },
        BinaryEntry { name: "invocationId", form: BinaryForm::Guid },
        BinaryEntry { name: "mS-DS-ConsistencyGuid", form: BinaryForm::Guid },
        BinaryEntry { name: "msDFS-GenerationGUIDv2", form: BinaryForm::Guid },
        BinaryEntry { name: "msDFS-LinkIdentityGUIDv2", form: BinaryForm::Guid },
        BinaryEntry { name: "msDFS-NamespaceIdentityGUIDv2", form: BinaryForm::Guid },
        BinaryEntry { name: "msDFSR-ContentSetGuid", form: BinaryForm::Guid },
        BinaryEntry { name: "msDFSR-ReplicationGroupGuid", form: BinaryForm::Guid },
        BinaryEntry { name: "msDS-DeviceID", form: BinaryForm::Guid },
        BinaryEntry { name: "msDS-OptionalFeatureGuid", form: BinaryForm::Guid },
        BinaryEntry { name: "msExchMailboxGuid", form: BinaryForm::Guid },
        BinaryEntry { name: "netbootGuid", form: BinaryForm::Guid },
        BinaryEntry { name: "objectGUID", form: BinaryForm::Guid },
        BinaryEntry { name: "parentGUID", form: BinaryForm::Guid },
        BinaryEntry { name: "schemaIDGUID", form: BinaryForm::Guid },
        BinaryEntry { name: "serverClassID", form: BinaryForm::Guid },
        BinaryEntry { name: "mS-DS-CreatorSID", form: BinaryForm::Sid },
        BinaryEntry { name: "msDS-LdapQosPolicyTarget", form: BinaryForm::Sid },
        BinaryEntry { name: "msDS-ServiceAccountSID", form: BinaryForm::Sid },
        BinaryEntry { name: "msDS-ShadowPrincipalSid", form: BinaryForm::Sid },
        BinaryEntry { name: "msExchMasterAccountSid", form: BinaryForm::Sid },
        BinaryEntry { name: "objectSid", form: BinaryForm::Sid },
        BinaryEntry { name: "securityIdentifier", form: BinaryForm::Sid },
        BinaryEntry { name: "sidHistory", form: BinaryForm::Sid },
        BinaryEntry { name: "tokenGroups", form: BinaryForm::Sid },
        BinaryEntry { name: "tokenGroupsGlobalAndUniversal", form: BinaryForm::Sid },
        BinaryEntry { name: "tokenGroupsNoGCAcceptable", form: BinaryForm::Sid },
        BinaryEntry { name: "replUpToDateVector", form: BinaryForm::ReplUpToDateVector },
        BinaryEntry { name: "repsFrom", form: BinaryForm::RepsFromTo },
        BinaryEntry { name: "repsTo", form: BinaryForm::RepsFromTo },
        BinaryEntry { name: "dNSProperty", form: BinaryForm::DnsProperty },
        BinaryEntry { name: "dnsRecord", form: BinaryForm::DnsRecord },
        BinaryEntry { name: "dSASignature", form: BinaryForm::DsaSignature },
        BinaryEntry { name: "msDS-TrustForestTrustInfo", form: BinaryForm::TrustForestTrustInfo },
        BinaryEntry { name: "prefixMap", form: BinaryForm::PrefixMap },
        BinaryEntry { name: "schemaInfo", form: BinaryForm::SchemaInfo },
        BinaryEntry { name: "fRSRootSecurity", form: BinaryForm::SecurityDescriptor },
        BinaryEntry { name: "msExchLogonACL", form: BinaryForm::SecurityDescriptor },
        BinaryEntry { name: "msExchMailboxSecurityDescriptor", form: BinaryForm::SecurityDescriptor },
        BinaryEntry { name: "msExchPFDefaultAdminACL", form: BinaryForm::SecurityDescriptor },
        BinaryEntry { name: "msExchSubmitRelaySD", form: BinaryForm::SecurityDescriptor },
        BinaryEntry { name: "nTSecurityDescriptor", form: BinaryForm::SecurityDescriptor },
        BinaryEntry { name: "pKIEnrollmentAccess", form: BinaryForm::SecurityDescriptor },
        BinaryEntry { name: "msDFS-TargetListv2", form: BinaryForm::Utf16Text },
        BinaryEntry { name: "msDFSR-Schedule", form: BinaryForm::DfsrSchedule },
        BinaryEntry { name: "oMObjectClass", form: BinaryForm::OmObjectClass },
        BinaryEntry { name: "userParameters", form: BinaryForm::UserParameters },
    ]
}

/// The attributes whose text values have a form, with their forms.
pub fn string_forms() -> (r: Vec<StringEntry>)
    ensures
        r@ == string_table(),
{
    let r: Vec<StringEntry> = vec![
        StringEntry { name: "userAccountControl", form: StringForm::Flags(FlagFamily::UserAccountControl) },
        StringEntry { name: "msDs-User-Account-Control-Computed", form: StringForm::Flags(FlagFamily::UserAccountControl) },
        StringEntry { name: "msExchUserAccountControl", form: StringForm::Flags(FlagFamily::UserAccountControl) },
        StringEntry { name: "groupType", form: StringForm::Flags(FlagFamily::GroupType) },
        StringEntry { name: "sAMAccountType", form: StringForm::Number(NamedNumber::SamAccountType) },
        StringEntry { name: "domainControllerFunctionality", form: StringForm::Number(NamedNumber::FunctionalityLevel) },
        StringEntry { name: "domainFunctionality", form: StringForm::Number(NamedNumber::FunctionalityLevel) },
        StringEntry { name: "forestFunctionality", form: StringForm::Number(NamedNumber::FunctionalityLevel) },
        StringEntry { name: "msDS-Behavior-Version", form: StringForm::Number(NamedNumber::FunctionalityLevel) },
        StringEntry { name: "msDS-RequiredDomainBehaviorVersion", form: StringForm::Number(NamedNumber::FunctionalityLevel) },
        StringEntry { name: "msDS-RequiredForestBehaviorVersion", form: StringForm::Number(NamedNumber::FunctionalityLevel) },
        StringEntry { name: "systemFlags", form: StringForm::SystemFlags },
        StringEntry { name: "instanceType", form: StringForm::Flags(FlagFamily::InstanceType) },
        StringEntry { name: "msDS-ReplAuthenticationMode", form: StringForm::Number(NamedNumber::ReplAuthenticationMode) },
        StringEntry { name: "msDS-OptionalFeatureFlags", form: StringForm::Flags(FlagFamily::OptionalFeatureFlags) },
        StringEntry { name: "objectClassCategory", form: StringForm::Number(NamedNumber::ObjectClassCategory) },
        StringEntry { name: "oMSyntax", form: StringForm::Number(NamedNumber::OmSyntax) },
        StringEntry { name: "attributeSyntax", form: StringForm::Syntax },
        StringEntry { name: "options", form: StringForm::Options },
        StringEntry { name: "primaryGroupID", form: StringForm::Number(NamedNumber::Rid) },
        StringEntry { name: "pwdProperties", form: StringForm::Flags(FlagFamily::PasswordProperties) },
        StringEntry { name: "searchFlags", form: StringForm::Flags(FlagFamily::SearchFlags) },
        StringEntry { name: "serverState", form: StringForm::Number(NamedNumber::ServerState) },
        StringEntry { name: "msDS-SupportedEncryptionTypes", form: StringForm::Flags(FlagFamily::SupportedEncryptionTypes) },
        StringEntry { name: "trustAttributes", form: StringForm::Flags(FlagFamily::TrustAttributes) },
        StringEntry { name: "trustDirection", form: StringForm::Flags(FlagFamily::TrustDirection) },
        StringEntry { name: "trustType", form: StringForm::Number(NamedNumber::TrustType) },
        StringEntry { name: "msDS-KeyCredentialLink", form: StringForm::KeyCredentialLink },
        StringEntry { name: "msExchAddressBookFlags", form: StringForm::Flags(FlagFamily::AddressBookFlags) },
        StringEntry { name: "msExchELCMailboxFlags", form: StringForm::Flags(FlagFamily::ElcMailboxFlags) },
        StringEntry { name: "msExchMobileMailboxFlags", form: StringForm::Flags(FlagFamily::MobileMailboxFlags) },
        StringEntry { name: "msExchModerationFlags", form: StringForm::Flags(FlagFamily::ModerationFlags) },
        StringEntry { name: "msExchProvisioningFlags", form: StringForm::Flags(FlagFamily::ProvisioningFlags) },
        StringEntry { name: "msExchRecipientSoftDeletedStatus", form: StringForm::Flags(FlagFamily::SoftDeletedStatus) },
        StringEntry { name: "msExchRecipientTypeDetails", form: StringForm::Flags(FlagFamily::RecipientTypeDetails) },
        StringEntry { name: "msExchPreviousRecipientTypeDetails", form: StringForm::Flags(FlagFamily::RecipientTypeDetails) },
        StringEntry { name: "msExchTextMessagingState", form: StringForm::TextMessagingState },
        StringEntry { name: "msExchTransportRecipientSettingsFlags", form: StringForm::Flags(FlagFamily::TransportSettingFlags) },
        StringEntry { name: "msExchVersion", form: StringForm::ExchangeVersion },
        StringEntry { name: "internetEncoding", form: StringForm::InternetEncoding },
        StringEntry { name: "accountExpires", form: StringForm::Time },
        StringEntry { name: "badPasswordTime", form: StringForm::Time },
        StringEntry { name: "creationTime", form: StringForm::Time },
        StringEntry { name: "lastLogoff", form: StringForm::Time },
        StringEntry { name: "lastLogon", form: StringForm::Time },
        StringEntry { name: "lastLogonTimestamp", form: StringForm::Time },
        StringEntry { name: "msDS-ApproximateLastLogonTimeStamp", form: StringForm::Time },
        StringEntry { name: "msDS-Cached-Membership-Time-Stamp", form: StringForm::Time },
        StringEntry { name: "msDS-KeyApproximateLastLogonTimeStamp", form: StringForm::Time },
        StringEntry { name: "msDS-LastSuccessfulInteractiveLogonTime", form: StringForm::Time },
        StringEntry { name: "msDS-LastFailedInteractiveLogonTime", form: StringForm::Time },
        StringEntry { name: "msDS-UserPasswordExpiryTimeComputed", form: StringForm::Time },
        StringEntry { name: "pwdLastSet", form: StringForm::Time },
        StringEntry { name: "supportedCapabilities", form: StringForm::Oid },
        StringEntry { name: "supportedControl", form: StringForm::Oid },
        StringEntry { name: "supportedExtension", form: StringForm::Oid },
        StringEntry { name: "lockoutDuration", form: StringForm::Interval },
        StringEntry { name: "lockOutObservationWindow", form: StringForm::Interval },
        StringEntry { name: "maxPwdAge", form: StringForm::Interval },
        StringEntry { name: "minPwdAge", form: StringForm::Interval },
        StringEntry { name: "msDS-LockoutDuration", form: StringForm::Interval },
        StringEntry { name: "msDS-LockoutObservationWindow", form: StringForm::Interval },
        StringEntry { name: "msDS-MaximumPasswordAge", form: StringForm::Interval },
        StringEntry { name: "msDS-MinimumPasswordAge", form: StringForm::Interval },
        StringEntry { name: "forceLogoff", form: StringForm::Interval },
    ];
    assert(r@ =~= string_table());
    r
}

/// The attributes whose binary values have a form, with their forms.
pub fn binary_forms() -> (r: Vec<BinaryEntry>)
    ensures
        r@ == binary_table(),
{
    let r: Vec<BinaryEntry> = vec![
        BinaryEntry { name: "attributeSecurityGUID", form: BinaryForm::Guid },
        BinaryEntry { name: "invocationId", form: BinaryForm::Guid },
        BinaryEntry { name: "mS-DS-ConsistencyGuid", form: BinaryForm::Guid },
        BinaryEntry { name: "msDFS-GenerationGUIDv2", form: BinaryForm::Guid },
        BinaryEntry { name: "msDFS-LinkIdentityGUIDv2", form: BinaryForm::Guid },
        BinaryEntry { name: "msDFS-NamespaceIdentityGUIDv2", form: BinaryForm::Guid },
        BinaryEntry { name: "msDFSR-ContentSetGuid", form: BinaryForm::Guid },
        BinaryEntry { name: "msDFSR-ReplicationGroupGuid", form: BinaryForm::Guid },
        BinaryEntry { name: "msDS-DeviceID", form: BinaryForm::Guid },
        BinaryEntry { name: "msDS-OptionalFeatureGuid", form: BinaryForm::Guid },
        BinaryEntry { name: "msExchMailboxGuid", form: BinaryForm::Guid },
        BinaryEntry { name: "netbootGuid", form: BinaryForm::Guid },
        BinaryEntry { name: "objectGUID", form: BinaryForm::Guid },
        BinaryEntry { name: "parentGUID", form: BinaryForm::Guid },
        BinaryEntry { name: "schemaIDGUID", form: BinaryForm::Guid },
        BinaryEntry { name: "serverClassID", form: BinaryForm::Guid },
        BinaryEntry { name: "mS-DS-CreatorSID", form: BinaryForm::Sid },
        BinaryEntry { name: "msDS-LdapQosPolicyTarget", form: BinaryForm::Sid },
        BinaryEntry { name: "msDS-ServiceAccountSID", form: BinaryForm::Sid },
        BinaryEntry { name: "msDS-ShadowPrincipalSid", form: BinaryForm::Sid },
        BinaryEntry { name: "msExchMasterAccountSid", form: BinaryForm::Sid },
        BinaryEntry { name: "objectSid", form: BinaryForm::Sid },
        BinaryEntry { name: "securityIdentifier", form: BinaryForm::Sid },
        BinaryEntry { name: "sidHistory", form: BinaryForm::Sid },
        BinaryEntry { name: "tokenGroups", form: BinaryForm::Sid },
        BinaryEntry { name: "tokenGroupsGlobalAndUniversal", form: BinaryForm::Sid },
        BinaryEntry { name: "tokenGroupsNoGCAcceptable", form: BinaryForm::Sid },
        BinaryEntry { name: "replUpToDateVector", form: BinaryForm::ReplUpToDateVector },
        BinaryEntry { name: "repsFrom", form: BinaryForm::RepsFromTo },
        BinaryEntry { name: "repsTo", form: BinaryForm::RepsFromTo },
        BinaryEntry { name: "dNSProperty", form: BinaryForm::DnsProperty },
        BinaryEntry { name: "dnsRecord", form: BinaryForm::DnsRecord },
        BinaryEntry { name: "dSASignature", form: BinaryForm::DsaSignature },
        BinaryEntry { name: "msDS-TrustForestTrustInfo", form: BinaryForm::TrustForestTrustInfo },
        BinaryEntry { name: "prefixMap", form: BinaryForm::PrefixMap },
        BinaryEntry { name: "schemaInfo", form: BinaryForm::SchemaInfo },
        BinaryEntry { name: "fRSRootSecurity", form: BinaryForm::SecurityDescriptor },
        BinaryEntry { name: "msExchLogonACL", form: BinaryForm::SecurityDescriptor },
        BinaryEntry { name: "msExchMailboxSecurityDescriptor", form: BinaryForm::SecurityDescriptor },
        BinaryEntry { name: "msExchPFDefaultAdminACL", form: BinaryForm::SecurityDescriptor },
        BinaryEntry { name: "msExchSubmitRelaySD", form: BinaryForm::SecurityDescriptor },
        BinaryEntry { name: "nTSecurityDescriptor", form: BinaryForm::SecurityDescriptor },
        BinaryEntry { name: "pKIEnrollmentAccess", form: BinaryForm::SecurityDescriptor },
        BinaryEntry { name: "msDFS-TargetListv2", form: BinaryForm::Utf16Text },
        BinaryEntry { name: "msDFSR-Schedule", form: BinaryForm::DfsrSchedule },
        BinaryEntry { name: "oMObjectClass", form: BinaryForm::OmObjectClass },
        BinaryEntry { name: "userParameters", form: BinaryForm::UserParameters },
    ];
    assert(r@ =~= binary_table());
    r
}

/// The form of the first entry from entry `from` on whose name is `key`.
pub open spec fn string_entry_from(table: Seq<StringEntry>, key: Seq<char>, from: int) -> Option<
    StringForm,
>
    decreases table.len() - from,
{
    if from < 0 || from >= table.len() {
        None
    } else if table[from].name@ == key {
        Some(table[from].form)
    } else {
        string_entry_from(table, key, from + 1)
    }
}

/// The form of the first entry from entry `from` on whose name is `key`.
pub open spec fn binary_entry_from(table: Seq<BinaryEntry>, key: Seq<char>, from: int) -> Option<
    BinaryForm,
>
    decreases table.len() - from,
{
    if from < 0 || from >= table.len() {
        None
    } else if table[from].name@ == key {
        Some(table[from].form)
    } else {
        binary_entry_from(table, key, from + 1)
    }
}

/// The form that the system flags have on an object of the classes
/// `classes`.
pub open spec fn system_flags_of(classes: Seq<LdapValue>) -> FlagFamily {
    if holds_text(classes, "crossRef"@) {
        FlagFamily::CrossRefSystemFlags
    } else if holds_text(classes, "classSchema"@) {
        FlagFamily::ClassSchemaSystemFlags
    } else if holds_text(classes, "attributeSchema"@) {
        FlagFamily::AttributeSchemaSystemFlags
    } else {
        FlagFamily::GenericSystemFlags
    }
}

/// The form that the options have on an object of the classes `classes`,
/// if they have one.
pub open spec fn options_of(classes: Seq<LdapValue>) -> Option<FlagFamily> {
    if holds_text(classes, "interSiteTransport"@) {
        Some(FlagFamily::InterSiteTransportOptions)
    } else if holds_text(classes, "nTDSConnection"@) {
        Some(FlagFamily::DsConnectionOptions)
    } else if holds_text(classes, "nTDSDSA"@) {
        Some(FlagFamily::DsaSettingsOptions)
    } else if holds_text(classes, "ntDSSiteSettings"@) {
        Some(FlagFamily::SiteSettingsOptions)
    } else if holds_text(classes, "siteConnection"@) || holds_text(classes, "siteLink"@) {
        Some(FlagFamily::SiteConnectionOptions)
    } else {
        None
    }
}

/// The form of the text values of the attribute `key` on an object of the
/// classes `classes`; none where they are plain texts. The result is
/// neither `SystemFlags` nor `Options`: the classes decide in their place.
pub open spec fn string_form(key: Seq<char>, classes: Seq<LdapValue>) -> Option<StringForm> {
    match string_entry_from(string_table(), key, 0) {
        Some(StringForm::SystemFlags) => Some(StringForm::Flags(system_flags_of(classes))),
        Some(StringForm::Options) => match options_of(classes) {
            Some(family) => Some(StringForm::Flags(family)),
            None => None,
        },
        Some(form) => Some(form),
        None => None,
    }
}

/// The form of the binary values of the attribute `key`; none where they
/// are plain bytes.
pub open spec fn binary_form(key: Seq<char>) -> Option<BinaryForm> {
    binary_entry_from(binary_table(), key, 0)
}

/// Looks up the form of the text values of an attribute.
pub fn string_form_of(key: &str, object_classes: &[LdapValue]) -> (r: Option<StringForm>)
    ensures
        r == string_form(key@, object_classes@),
{
    let table: Vec<StringEntry> = string_forms();
    let mut found: Option<StringForm> = None;
    let mut i: usize = 0;
    while i < table.len()
        invariant_except_break
            found is None,
            string_entry_from(table@, key@, 0) == string_entry_from(table@, key@, i as int),
        invariant
            i <= table.len(),
            table@ == string_table(),
        ensures
            found == string_entry_from(table@, key@, 0),
        decreases table.len() - i,
    {
        if str_eq(table[i].name, key) {
            found = Some(table[i].form);
            break ;
        }
        i += 1;
    }
    match found {
        Some(StringForm::SystemFlags) => {
            let family: FlagFamily = if any_is_string(object_classes, "crossRef") {
                FlagFamily::CrossRefSystemFlags
            } else if any_is_string(object_classes, "classSchema") {
                FlagFamily::ClassSchemaSystemFlags
            } else if any_is_string(object_classes, "attributeSchema") {
                FlagFamily::AttributeSchemaSystemFlags
            } else {
                FlagFamily::GenericSystemFlags
            };
            Some(StringForm::Flags(family))
        },
        Some(StringForm::Options) => {
            if any_is_string(object_classes, "interSiteTransport") {
                Some(StringForm::Flags(FlagFamily::InterSiteTransportOptions))
            } else if any_is_string(object_classes, "nTDSConnection") {
                Some(StringForm::Flags(FlagFamily::DsConnectionOptions))
            } else if any_is_string(object_classes, "nTDSDSA") {
                Some(StringForm::Flags(FlagFamily::DsaSettingsOptions))
            } else if any_is_string(object_classes, "ntDSSiteSettings") {
                Some(StringForm::Flags(FlagFamily::SiteSettingsOptions))
            } else if any_is_string(object_classes, "siteConnection") || any_is_string(
                object_classes,
                "siteLink",
            ) {
                Some(StringForm::Flags(FlagFamily::SiteConnectionOptions))
            } else {
                None
            }
        },
        Some(form) => Some(form),
        None => None,
    }
}

/// Looks up the form of the binary values of an attribute.
pub fn binary_form_of(key: &str) -> (r: Option<BinaryForm>)
    ensures
        r == binary_form(key@),
{
    let table: Vec<BinaryEntry> = binary_forms();
    let mut found: Option<BinaryForm> = None;
    let mut i: usize = 0;
    while i < table.len()
        invariant_except_break
            found is None,
            binary_entry_from(table@, key@, 0) == binary_entry_from(table@, key@, i as int),
        invariant
            i <= table.len(),
            table@ == binary_table(),
        ensures
            found == binary_entry_from(table@, key@, 0),
        decreases table.len() - i,
    {
        if str_eq(table[i].name, key) {
            found = Some(table[i].form);
            break ;
        }
        i += 1;
    }
    found
}

} // verus!
