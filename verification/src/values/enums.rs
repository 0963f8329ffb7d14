//! Numbers with a name each: identifiers, types, levels and states.

use crate::text::{
    bytes_eq, debug_quoted, decimal, opt, opt_str, push_decimal, str_eq, string_debug,
};
use crate::wire::copy_range;
use vstd::prelude::*;
use vstd::string::StringExecFns;

verus! {

/// A well-known relative identifier of a group.
#[derive(Clone, Copy, Debug, PartialEq, Eq, Structural, Hash)]
pub enum Rid {
    GroupRidAdmins,
    GroupRidUsers,
    GroupRidGuests,
    GroupRidComputers,
    GroupRidControllers,
    GroupRidCertAdmins,
    GroupRidSchemaAdmins,
    GroupRidEnterpriseAdmins,
    GroupRidPolicyAdmins,
    GroupRidReadOnlyControllers,
    AliasRidAdmins,
    AliasRidUsers,
    AliasRidGuests,
    AliasRidPowerUsers,
    AliasRidAccountOps,
    AliasRidSystemOps,
    AliasRidPrintOps,
    AliasRidBackupOps,
    AliasRidReplicator,
    AliasRidRasServers,
    AliasRidPreW2kCompatAccess,
    AliasRidRemoteDesktopUsers,
    AliasRidNetworkConfigurationOps,
    AliasRidIncomingForestTrustBuilders,
    AliasRidMonitoringUsers,
    AliasRidLoggingUsers,
    AliasRidAuthorizationAccess,
    AliasRidTsLicenseServers,
    AliasRidDcomUsers,
    AliasRidIUsers,
    AliasRidCryptoOps,
    AliasRidCacheablePrincipalsGroup,
    AliasRidNonCacheablePrincipalsGroup,
    /// Any other number.
    Other(u32),
}

impl Rid {
    /// The number that stands for the value.
    pub open spec fn number(self) -> u32 {
        match self {
            Rid::GroupRidAdmins => 0x0000_0200,
            Rid::GroupRidUsers => 0x0000_0201,
            Rid::GroupRidGuests => 0x0000_0202,
            Rid::GroupRidComputers => 0x0000_0203,
            Rid::GroupRidControllers => 0x0000_0204,
            Rid::GroupRidCertAdmins => 0x0000_0205,
            Rid::GroupRidSchemaAdmins => 0x0000_0206,
            Rid::GroupRidEnterpriseAdmins => 0x0000_0207,
            Rid::GroupRidPolicyAdmins => 0x0000_0208,
            Rid::GroupRidReadOnlyControllers => 0x0000_0209,
            Rid::AliasRidAdmins => 0x0000_0220,
            Rid::AliasRidUsers => 0x0000_0221,
            Rid::AliasRidGuests => 0x0000_0222,
            Rid::AliasRidPowerUsers => 0x0000_0223,
            Rid::AliasRidAccountOps => 0x0000_0224,
            Rid::AliasRidSystemOps => 0x0000_0225,
            Rid::AliasRidPrintOps => 0x0000_0226,
            Rid::AliasRidBackupOps => 0x0000_0227,
            Rid::AliasRidReplicator => 0x0000_0228,
            Rid::AliasRidRasServers => 0x0000_0229,
            Rid::AliasRidPreW2kCompatAccess => 0x0000_022A,
            Rid::AliasRidRemoteDesktopUsers => 0x0000_022B,
            Rid::AliasRidNetworkConfigurationOps => 0x0000_022C,
            Rid::AliasRidIncomingForestTrustBuilders => 0x0000_022D,
            Rid::AliasRidMonitoringUsers => 0x0000_022E,
            Rid::AliasRidLoggingUsers => 0x0000_022F,
            Rid::AliasRidAuthorizationAccess => 0x0000_0230,
            Rid::AliasRidTsLicenseServers => 0x0000_0231,
            Rid::AliasRidDcomUsers => 0x0000_0232,
            Rid::AliasRidIUsers => 0x0000_0238,
            Rid::AliasRidCryptoOps => 0x0000_0239,
            Rid::AliasRidCacheablePrincipalsGroup => 0x0000_023B,
            Rid::AliasRidNonCacheablePrincipalsGroup => 0x0000_023C,
            Rid::Other(v) => v,
        }
    }

    /// `Other` holds no number that has a name.
    pub open spec fn canonical(self) -> bool {
        self matches Rid::Other(v) ==> Rid::named(v) is None
    }

    /// The named value with the number `value`, if there is one.
    pub open spec fn named(value: u32) -> Option<Rid> {
        if value == 0x0000_0200 {
            Some(Rid::GroupRidAdmins)
        } else if value == 0x0000_0201 {
            Some(Rid::GroupRidUsers)
        } else if value == 0x0000_0202 {
            Some(Rid::GroupRidGuests)
        } else if value == 0x0000_0203 {
            Some(Rid::GroupRidComputers)
        } else if value == 0x0000_0204 {
            Some(Rid::GroupRidControllers)
        } else if value == 0x0000_0205 {
            Some(Rid::GroupRidCertAdmins)
        } else if value == 0x0000_0206 {
            Some(Rid::GroupRidSchemaAdmins)
        } else if value == 0x0000_0207 {
            Some(Rid::GroupRidEnterpriseAdmins)
        } else if value == 0x0000_0208 {
            Some(Rid::GroupRidPolicyAdmins)
        } else if value == 0x0000_0209 {
            Some(Rid::GroupRidReadOnlyControllers)
        } else if value == 0x0000_0220 {
            Some(Rid::AliasRidAdmins)
        } else if value == 0x0000_0221 {
            Some(Rid::AliasRidUsers)
        } else if value == 0x0000_0222 {
            Some(Rid::AliasRidGuests)
        } else if value == 0x0000_0223 {
            Some(Rid::AliasRidPowerUsers)
        } else if value == 0x0000_0224 {
            Some(Rid::AliasRidAccountOps)
        } else if value == 0x0000_0225 {
            Some(Rid::AliasRidSystemOps)
        } else if value == 0x0000_0226 {
            Some(Rid::AliasRidPrintOps)
        } else if value == 0x0000_0227 {
            Some(Rid::AliasRidBackupOps)
        } else if value == 0x0000_0228 {
            Some(Rid::AliasRidReplicator)
        } else if value == 0x0000_0229 {
            Some(Rid::AliasRidRasServers)
        } else if value == 0x0000_022A {
            Some(Rid::AliasRidPreW2kCompatAccess)
        } else if value == 0x0000_022B {
            Some(Rid::AliasRidRemoteDesktopUsers)
        } else if value == 0x0000_022C {
            Some(Rid::AliasRidNetworkConfigurationOps)
        } else if value == 0x0000_022D {
            Some(Rid::AliasRidIncomingForestTrustBuilders)
        } else if value == 0x0000_022E {
            Some(Rid::AliasRidMonitoringUsers)
        } else if value == 0x0000_022F {
            Some(Rid::AliasRidLoggingUsers)
        } else if value == 0x0000_0230 {
            Some(Rid::AliasRidAuthorizationAccess)
        } else if value == 0x0000_0231 {
            Some(Rid::AliasRidTsLicenseServers)
        } else if value == 0x0000_0232 {
            Some(Rid::AliasRidDcomUsers)
        } else if value == 0x0000_0238 {
            Some(Rid::AliasRidIUsers)
        } else if value == 0x0000_0239 {
            Some(Rid::AliasRidCryptoOps)
        } else if value == 0x0000_023B {
            Some(Rid::AliasRidCacheablePrincipalsGroup)
        } else if value == 0x0000_023C {
            Some(Rid::AliasRidNonCacheablePrincipalsGroup)
        } else {
            None
        }
    }

    /// The value with the number `value`.
    pub fn from_base_type(value: u32) -> (r: Rid)
        ensures
            r.number() == value,
            r.canonical(),
            r == match Rid::named(value) {
                Some(v) => v,
                None => Rid::Other(value),
            },
    {
        if value == 0x0000_0200 {
            Rid::GroupRidAdmins
        } else if value == 0x0000_0201 {
            Rid::GroupRidUsers
        } else if value == 0x0000_0202 {
            Rid::GroupRidGuests
        } else if value == 0x0000_0203 {
            Rid::GroupRidComputers
        } else if value == 0x0000_0204 {
            Rid::GroupRidControllers
        } else if value == 0x0000_0205 {
            Rid::GroupRidCertAdmins
        } else if value == 0x0000_0206 {
            Rid::GroupRidSchemaAdmins
        } else if value == 0x0000_0207 {
            Rid::GroupRidEnterpriseAdmins
        } else if value == 0x0000_0208 {
            Rid::GroupRidPolicyAdmins
        } else if value == 0x0000_0209 {
            Rid::GroupRidReadOnlyControllers
        } else if value == 0x0000_0220 {
            Rid::AliasRidAdmins
        } else if value == 0x0000_0221 {
            Rid::AliasRidUsers
        } else if value == 0x0000_0222 {
            Rid::AliasRidGuests
        } else if value == 0x0000_0223 {
            Rid::AliasRidPowerUsers
        } else if value == 0x0000_0224 {
            Rid::AliasRidAccountOps
        } else if value == 0x0000_0225 {
            Rid::AliasRidSystemOps
        } else if value == 0x0000_0226 {
            Rid::AliasRidPrintOps
        } else if value == 0x0000_0227 {
            Rid::AliasRidBackupOps
        } else if value == 0x0000_0228 {
            Rid::AliasRidReplicator
        } else if value == 0x0000_0229 {
            Rid::AliasRidRasServers
        } else if value == 0x0000_022A {
            Rid::AliasRidPreW2kCompatAccess
        } else if value == 0x0000_022B {
            Rid::AliasRidRemoteDesktopUsers
        } else if value == 0x0000_022C {
            Rid::AliasRidNetworkConfigurationOps
        } else if value == 0x0000_022D {
            Rid::AliasRidIncomingForestTrustBuilders
        } else if value == 0x0000_022E {
            Rid::AliasRidMonitoringUsers
        } else if value == 0x0000_022F {
            Rid::AliasRidLoggingUsers
        } else if value == 0x0000_0230 {
            Rid::AliasRidAuthorizationAccess
        } else if value == 0x0000_0231 {
            Rid::AliasRidTsLicenseServers
        } else if value == 0x0000_0232 {
            Rid::AliasRidDcomUsers
        } else if value == 0x0000_0238 {
            Rid::AliasRidIUsers
        } else if value == 0x0000_0239 {
            Rid::AliasRidCryptoOps
        } else if value == 0x0000_023B {
            Rid::AliasRidCacheablePrincipalsGroup
        } else if value == 0x0000_023C {
            Rid::AliasRidNonCacheablePrincipalsGroup
        } else {
            Rid::Other(value)
        }
    }

    /// The number that stands for the value.
    pub fn to_base_type(&self) -> (r: u32)
        ensures
            r == self.number(),
    {
        match self {
            Rid::GroupRidAdmins => 0x0000_0200,
            Rid::GroupRidUsers => 0x0000_0201,
            Rid::GroupRidGuests => 0x0000_0202,
            Rid::GroupRidComputers => 0x0000_0203,
            Rid::GroupRidControllers => 0x0000_0204,
            Rid::GroupRidCertAdmins => 0x0000_0205,
            Rid::GroupRidSchemaAdmins => 0x0000_0206,
            Rid::GroupRidEnterpriseAdmins => 0x0000_0207,
            Rid::GroupRidPolicyAdmins => 0x0000_0208,
            Rid::GroupRidReadOnlyControllers => 0x0000_0209,
            Rid::AliasRidAdmins => 0x0000_0220,
            Rid::AliasRidUsers => 0x0000_0221,
            Rid::AliasRidGuests => 0x0000_0222,
            Rid::AliasRidPowerUsers => 0x0000_0223,
            Rid::AliasRidAccountOps => 0x0000_0224,
            Rid::AliasRidSystemOps => 0x0000_0225,
            Rid::AliasRidPrintOps => 0x0000_0226,
            Rid::AliasRidBackupOps => 0x0000_0227,
            Rid::AliasRidReplicator => 0x0000_0228,
            Rid::AliasRidRasServers => 0x0000_0229,
            Rid::AliasRidPreW2kCompatAccess => 0x0000_022A,
            Rid::AliasRidRemoteDesktopUsers => 0x0000_022B,
            Rid::AliasRidNetworkConfigurationOps => 0x0000_022C,
            Rid::AliasRidIncomingForestTrustBuilders => 0x0000_022D,
            Rid::AliasRidMonitoringUsers => 0x0000_022E,
            Rid::AliasRidLoggingUsers => 0x0000_022F,
            Rid::AliasRidAuthorizationAccess => 0x0000_0230,
            Rid::AliasRidTsLicenseServers => 0x0000_0231,
            Rid::AliasRidDcomUsers => 0x0000_0232,
            Rid::AliasRidIUsers => 0x0000_0238,
            Rid::AliasRidCryptoOps => 0x0000_0239,
            Rid::AliasRidCacheablePrincipalsGroup => 0x0000_023B,
            Rid::AliasRidNonCacheablePrincipalsGroup => 0x0000_023C,
            Rid::Other(v) => *v,
        }
    }
}

impl Rid {
    /// The name of the value; `Other` with its number in brackets for a
    /// number without a name.
    pub open spec fn debug_text(self) -> Seq<char> {
        match self {
            Rid::GroupRidAdmins => "GroupRidAdmins"@,
            Rid::GroupRidUsers => "GroupRidUsers"@,
            Rid::GroupRidGuests => "GroupRidGuests"@,
            Rid::GroupRidComputers => "GroupRidComputers"@,
            Rid::GroupRidControllers => "GroupRidControllers"@,
            Rid::GroupRidCertAdmins => "GroupRidCertAdmins"@,
            Rid::GroupRidSchemaAdmins => "GroupRidSchemaAdmins"@,
            Rid::GroupRidEnterpriseAdmins => "GroupRidEnterpriseAdmins"@,
            Rid::GroupRidPolicyAdmins => "GroupRidPolicyAdmins"@,
            Rid::GroupRidReadOnlyControllers => "GroupRidReadOnlyControllers"@,
            Rid::AliasRidAdmins => "AliasRidAdmins"@,
            Rid::AliasRidUsers => "AliasRidUsers"@,
            Rid::AliasRidGuests => "AliasRidGuests"@,
            Rid::AliasRidPowerUsers => "AliasRidPowerUsers"@,
            Rid::AliasRidAccountOps => "AliasRidAccountOps"@,
            Rid::AliasRidSystemOps => "AliasRidSystemOps"@,
            Rid::AliasRidPrintOps => "AliasRidPrintOps"@,
            Rid::AliasRidBackupOps => "AliasRidBackupOps"@,
            Rid::AliasRidReplicator => "AliasRidReplicator"@,
            Rid::AliasRidRasServers => "AliasRidRasServers"@,
            Rid::AliasRidPreW2kCompatAccess => "AliasRidPreW2kCompatAccess"@,
            Rid::AliasRidRemoteDesktopUsers => "AliasRidRemoteDesktopUsers"@,
            Rid::AliasRidNetworkConfigurationOps => "AliasRidNetworkConfigurationOps"@,
            Rid::AliasRidIncomingForestTrustBuilders => "AliasRidIncomingForestTrustBuilders"@,
            Rid::AliasRidMonitoringUsers => "AliasRidMonitoringUsers"@,
            Rid::AliasRidLoggingUsers => "AliasRidLoggingUsers"@,
            Rid::AliasRidAuthorizationAccess => "AliasRidAuthorizationAccess"@,
            Rid::AliasRidTsLicenseServers => "AliasRidTsLicenseServers"@,
            Rid::AliasRidDcomUsers => "AliasRidDcomUsers"@,
            Rid::AliasRidIUsers => "AliasRidIUsers"@,
            Rid::AliasRidCryptoOps => "AliasRidCryptoOps"@,
            Rid::AliasRidCacheablePrincipalsGroup => "AliasRidCacheablePrincipalsGroup"@,
            Rid::AliasRidNonCacheablePrincipalsGroup => "AliasRidNonCacheablePrincipalsGroup"@,
            Rid::Other(v) => "Other("@ + decimal(v as nat) + ")"@,
        }
    }

    /// Renders the name of the value.
    pub fn to_debug_string(&self) -> (r: String)
        ensures
            r@ == self.debug_text(),
    {
        match self {
            Rid::GroupRidAdmins => "GroupRidAdmins".to_owned(),
            Rid::GroupRidUsers => "GroupRidUsers".to_owned(),
            Rid::GroupRidGuests => "GroupRidGuests".to_owned(),
            Rid::GroupRidComputers => "GroupRidComputers".to_owned(),
            Rid::GroupRidControllers => "GroupRidControllers".to_owned(),
            Rid::GroupRidCertAdmins => "GroupRidCertAdmins".to_owned(),
            Rid::GroupRidSchemaAdmins => "GroupRidSchemaAdmins".to_owned(),
            Rid::GroupRidEnterpriseAdmins => "GroupRidEnterpriseAdmins".to_owned(),
            Rid::GroupRidPolicyAdmins => "GroupRidPolicyAdmins".to_owned(),
            Rid::GroupRidReadOnlyControllers => "GroupRidReadOnlyControllers".to_owned(),
            Rid::AliasRidAdmins => "AliasRidAdmins".to_owned(),
            Rid::AliasRidUsers => "AliasRidUsers".to_owned(),
            Rid::AliasRidGuests => "AliasRidGuests".to_owned(),
            Rid::AliasRidPowerUsers => "AliasRidPowerUsers".to_owned(),
            Rid::AliasRidAccountOps => "AliasRidAccountOps".to_owned(),
            Rid::AliasRidSystemOps => "AliasRidSystemOps".to_owned(),
            Rid::AliasRidPrintOps => "AliasRidPrintOps".to_owned(),
            Rid::AliasRidBackupOps => "AliasRidBackupOps".to_owned(),
            Rid::AliasRidReplicator => "AliasRidReplicator".to_owned(),
            Rid::AliasRidRasServers => "AliasRidRasServers".to_owned(),
            Rid::AliasRidPreW2kCompatAccess => "AliasRidPreW2kCompatAccess".to_owned(),
            Rid::AliasRidRemoteDesktopUsers => "AliasRidRemoteDesktopUsers".to_owned(),
            Rid::AliasRidNetworkConfigurationOps => "AliasRidNetworkConfigurationOps".to_owned(),
            Rid::AliasRidIncomingForestTrustBuilders => "AliasRidIncomingForestTrustBuilders".to_owned(),
            Rid::AliasRidMonitoringUsers => "AliasRidMonitoringUsers".to_owned(),
            Rid::AliasRidLoggingUsers => "AliasRidLoggingUsers".to_owned(),
            Rid::AliasRidAuthorizationAccess => "AliasRidAuthorizationAccess".to_owned(),
            Rid::AliasRidTsLicenseServers => "AliasRidTsLicenseServers".to_owned(),
            Rid::AliasRidDcomUsers => "AliasRidDcomUsers".to_owned(),
            Rid::AliasRidIUsers => "AliasRidIUsers".to_owned(),
            Rid::AliasRidCryptoOps => "AliasRidCryptoOps".to_owned(),
            Rid::AliasRidCacheablePrincipalsGroup => "AliasRidCacheablePrincipalsGroup".to_owned(),
            Rid::AliasRidNonCacheablePrincipalsGroup => "AliasRidNonCacheablePrincipalsGroup".to_owned(),
            Rid::Other(v) => {
                let mut out: String = "Other(".to_owned();
                push_decimal(&mut out, *v as u64);
                out.append(")");
                out
            },
        }
    }
}

/// The type of an account.
#[derive(Clone, Copy, Debug, PartialEq, Eq, Structural, Hash, PartialOrd, Ord)]
pub enum SamAccountType {
    DomainObject,
    GroupObject,
    NonSecurityGroupObject,
    AliasObject,
    NonSecurityAliasObject,
    UserObject,
    MachineAccount,
    TrustAccount,
    AppBasicGroup,
    AppQueryGroup,
    AccountTypeMax,
}

impl SamAccountType {
    /// The number that stands for the value.
    pub open spec fn number(self) -> u32 {
        match self {
            SamAccountType::DomainObject => 0x0000_0000,
            SamAccountType::GroupObject => 0x1000_0000,
            SamAccountType::NonSecurityGroupObject => 0x1000_0001,
            SamAccountType::AliasObject => 0x2000_0000,
            SamAccountType::NonSecurityAliasObject => 0x2000_0001,
            SamAccountType::UserObject => 0x3000_0000,
            SamAccountType::MachineAccount => 0x3000_0001,
            SamAccountType::TrustAccount => 0x3000_0002,
            SamAccountType::AppBasicGroup => 0x4000_0000,
            SamAccountType::AppQueryGroup => 0x4000_0001,
            SamAccountType::AccountTypeMax => 0x7FFF_FFFF,
        }
    }

    /// The value with the number `value`, if there is one.
    pub open spec fn named(value: u32) -> Option<SamAccountType> {
        if value == 0x0000_0000 {
            Some(SamAccountType::DomainObject)
        } else if value == 0x1000_0000 {
            Some(SamAccountType::GroupObject)
        } else if value == 0x1000_0001 {
            Some(SamAccountType::NonSecurityGroupObject)
        } else if value == 0x2000_0000 {
            Some(SamAccountType::AliasObject)
        } else if value == 0x2000_0001 {
            Some(SamAccountType::NonSecurityAliasObject)
        } else if value == 0x3000_0000 {
            Some(SamAccountType::UserObject)
        } else if value == 0x3000_0001 {
            Some(SamAccountType::MachineAccount)
        } else if value == 0x3000_0002 {
            Some(SamAccountType::TrustAccount)
        } else if value == 0x4000_0000 {
            Some(SamAccountType::AppBasicGroup)
        } else if value == 0x4000_0001 {
            Some(SamAccountType::AppQueryGroup)
        } else if value == 0x7FFF_FFFF {
            Some(SamAccountType::AccountTypeMax)
        } else {
            None
        }
    }

    /// The value with the number `value`, if there is one.
    pub fn try_from_repr(value: u32) -> (r: Option<SamAccountType>)
        ensures
            r == SamAccountType::named(value),
            r matches Some(v) ==> v.number() == value,
    {
        if value == 0x0000_0000 {
            Some(SamAccountType::DomainObject)
        } else if value == 0x1000_0000 {
            Some(SamAccountType::GroupObject)
        } else if value == 0x1000_0001 {
            Some(SamAccountType::NonSecurityGroupObject)
        } else if value == 0x2000_0000 {
            Some(SamAccountType::AliasObject)
        } else if value == 0x2000_0001 {
            Some(SamAccountType::NonSecurityAliasObject)
        } else if value == 0x3000_0000 {
            Some(SamAccountType::UserObject)
        } else if value == 0x3000_0001 {
            Some(SamAccountType::MachineAccount)
        } else if value == 0x3000_0002 {
            Some(SamAccountType::TrustAccount)
        } else if value == 0x4000_0000 {
            Some(SamAccountType::AppBasicGroup)
        } else if value == 0x4000_0001 {
            Some(SamAccountType::AppQueryGroup)
        } else if value == 0x7FFF_FFFF {
            Some(SamAccountType::AccountTypeMax)
        } else {
            None
        }
    }

    /// The number that stands for the value.
    pub fn into_repr(self) -> (r: u32)
        ensures
            r == self.number(),
    {
        match self {
            SamAccountType::DomainObject => 0x0000_0000,
            SamAccountType::GroupObject => 0x1000_0000,
            SamAccountType::NonSecurityGroupObject => 0x1000_0001,
            SamAccountType::AliasObject => 0x2000_0000,
            SamAccountType::NonSecurityAliasObject => 0x2000_0001,
            SamAccountType::UserObject => 0x3000_0000,
            SamAccountType::MachineAccount => 0x3000_0001,
            SamAccountType::TrustAccount => 0x3000_0002,
            SamAccountType::AppBasicGroup => 0x4000_0000,
            SamAccountType::AppQueryGroup => 0x4000_0001,
            SamAccountType::AccountTypeMax => 0x7FFF_FFFF,
        }
    }
}

impl SamAccountType {
    /// The name of the value.
    pub open spec fn debug_text(self) -> Seq<char> {
        match self {
            SamAccountType::DomainObject => "DomainObject"@,
            SamAccountType::GroupObject => "GroupObject"@,
            SamAccountType::NonSecurityGroupObject => "NonSecurityGroupObject"@,
            SamAccountType::AliasObject => "AliasObject"@,
            SamAccountType::NonSecurityAliasObject => "NonSecurityAliasObject"@,
            SamAccountType::UserObject => "UserObject"@,
            SamAccountType::MachineAccount => "MachineAccount"@,
            SamAccountType::TrustAccount => "TrustAccount"@,
            SamAccountType::AppBasicGroup => "AppBasicGroup"@,
            SamAccountType::AppQueryGroup => "AppQueryGroup"@,
            SamAccountType::AccountTypeMax => "AccountTypeMax"@,
        }
    }

    /// Renders the name of the value.
    pub fn to_debug_string(&self) -> (r: String)
        ensures
            r@ == self.debug_text(),
    {
        match self {
            SamAccountType::DomainObject => "DomainObject".to_owned(),
            SamAccountType::GroupObject => "GroupObject".to_owned(),
            SamAccountType::NonSecurityGroupObject => "NonSecurityGroupObject".to_owned(),
            SamAccountType::AliasObject => "AliasObject".to_owned(),
            SamAccountType::NonSecurityAliasObject => "NonSecurityAliasObject".to_owned(),
            SamAccountType::UserObject => "UserObject".to_owned(),
            SamAccountType::MachineAccount => "MachineAccount".to_owned(),
            SamAccountType::TrustAccount => "TrustAccount".to_owned(),
            SamAccountType::AppBasicGroup => "AppBasicGroup".to_owned(),
            SamAccountType::AppQueryGroup => "AppQueryGroup".to_owned(),
            SamAccountType::AccountTypeMax => "AccountTypeMax".to_owned(),
        }
    }
}

/// The functional level of a domain, a forest or a domain controller.
#[derive(Clone, Copy, Debug, PartialEq, Eq, Structural, Hash, PartialOrd, Ord)]
pub enum FunctionalityLevel {
    Win2000,
    Win2003Mixed,
    Win2003,
    Win2008,
    Win2008R2,
    Win2012,
    Win2012R2,
    Win2016,
}

impl FunctionalityLevel {
    /// The number that stands for the value.
    pub open spec fn number(self) -> u32 {
        match self {
            FunctionalityLevel::Win2000 => 0x0000_0000,
            FunctionalityLevel::Win2003Mixed => 0x0000_0001,
            FunctionalityLevel::Win2003 => 0x0000_0002,
            FunctionalityLevel::Win2008 => 0x0000_0003,
            FunctionalityLevel::Win2008R2 => 0x0000_0004,
            FunctionalityLevel::Win2012 => 0x0000_0005,
            FunctionalityLevel::Win2012R2 => 0x0000_0006,
            FunctionalityLevel::Win2016 => 0x0000_0007,
        }
    }

    /// The value with the number `value`, if there is one.
    pub open spec fn named(value: u32) -> Option<FunctionalityLevel> {
        if value == 0x0000_0000 {
            Some(FunctionalityLevel::Win2000)
        } else if value == 0x0000_0001 {
            Some(FunctionalityLevel::Win2003Mixed)
        } else if value == 0x0000_0002 {
            Some(FunctionalityLevel::Win2003)
        } else if value == 0x0000_0003 {
            Some(FunctionalityLevel::Win2008)
        } else if value == 0x0000_0004 {
            Some(FunctionalityLevel::Win2008R2)
        } else if value == 0x0000_0005 {
            Some(FunctionalityLevel::Win2012)
        } else if value == 0x0000_0006 {
            Some(FunctionalityLevel::Win2012R2)
        } else if value == 0x0000_0007 {
            Some(FunctionalityLevel::Win2016)
        } else {
            None
        }
    }

    /// The value with the number `value`, if there is one.
    pub fn try_from_repr(value: u32) -> (r: Option<FunctionalityLevel>)
        ensures
            r == FunctionalityLevel::named(value),
            r matches Some(v) ==> v.number() == value,
    {
        if value == 0x0000_0000 {
            Some(FunctionalityLevel::Win2000)
        } else if value == 0x0000_0001 {
            Some(FunctionalityLevel::Win2003Mixed)
        } else if value == 0x0000_0002 {
            Some(FunctionalityLevel::Win2003)
        } else if value == 0x0000_0003 {
            Some(FunctionalityLevel::Win2008)
        } else if value == 0x0000_0004 {
            Some(FunctionalityLevel::Win2008R2)
        } else if value == 0x0000_0005 {
            Some(FunctionalityLevel::Win2012)
        } else if value == 0x0000_0006 {
            Some(FunctionalityLevel::Win2012R2)
        } else if value == 0x0000_0007 {
            Some(FunctionalityLevel::Win2016)
        } else {
            None
        }
    }

    /// The number that stands for the value.
    pub fn into_repr(self) -> (r: u32)
        ensures
            r == self.number(),
    {
        match self {
            FunctionalityLevel::Win2000 => 0x0000_0000,
            FunctionalityLevel::Win2003Mixed => 0x0000_0001,
            FunctionalityLevel::Win2003 => 0x0000_0002,
            FunctionalityLevel::Win2008 => 0x0000_0003,
            FunctionalityLevel::Win2008R2 => 0x0000_0004,
            FunctionalityLevel::Win2012 => 0x0000_0005,
            FunctionalityLevel::Win2012R2 => 0x0000_0006,
            FunctionalityLevel::Win2016 => 0x0000_0007,
        }
    }
}

impl FunctionalityLevel {
    /// The name of the value.
    pub open spec fn debug_text(self) -> Seq<char> {
        match self {
            FunctionalityLevel::Win2000 => "Win2000"@,
            FunctionalityLevel::Win2003Mixed => "Win2003Mixed"@,
            FunctionalityLevel::Win2003 => "Win2003"@,
            FunctionalityLevel::Win2008 => "Win2008"@,
            FunctionalityLevel::Win2008R2 => "Win2008R2"@,
            FunctionalityLevel::Win2012 => "Win2012"@,
            FunctionalityLevel::Win2012R2 => "Win2012R2"@,
            FunctionalityLevel::Win2016 => "Win2016"@,
        }
    }

    /// Renders the name of the value.
    pub fn to_debug_string(&self) -> (r: String)
        ensures
            r@ == self.debug_text(),
    {
        match self {
            FunctionalityLevel::Win2000 => "Win2000".to_owned(),
            FunctionalityLevel::Win2003Mixed => "Win2003Mixed".to_owned(),
            FunctionalityLevel::Win2003 => "Win2003".to_owned(),
            FunctionalityLevel::Win2008 => "Win2008".to_owned(),
            FunctionalityLevel::Win2008R2 => "Win2008R2".to_owned(),
            FunctionalityLevel::Win2012 => "Win2012".to_owned(),
            FunctionalityLevel::Win2012R2 => "Win2012R2".to_owned(),
            FunctionalityLevel::Win2016 => "Win2016".to_owned(),
        }
    }
}

/// The type of a trust.
#[derive(Clone, Copy, Debug, PartialEq, Eq, Structural, Hash)]
pub enum TrustType {
    Downlevel,
    Uplevel,
    Mit,
    Dce,
    AzureActiveDirectory,
    /// Any other number.
    Other(u32),
}

impl TrustType {
    /// The number that stands for the value.
    pub open spec fn number(self) -> u32 {
        match self {
            TrustType::Downlevel => 0x0000_0001,
            TrustType::Uplevel => 0x0000_0002,
            TrustType::Mit => 0x0000_0003,
            TrustType::Dce => 0x0000_0004,
            TrustType::AzureActiveDirectory => 0x0000_0005,
            TrustType::Other(v) => v,
        }
    }

    /// `Other` holds no number that has a name.
    pub open spec fn canonical(self) -> bool {
        self matches TrustType::Other(v) ==> TrustType::named(v) is None
    }

    /// The named value with the number `value`, if there is one.
    pub open spec fn named(value: u32) -> Option<TrustType> {
        if value == 0x0000_0001 {
            Some(TrustType::Downlevel)
        } else if value == 0x0000_0002 {
            Some(TrustType::Uplevel)
        } else if value == 0x0000_0003 {
            Some(TrustType::Mit)
        } else if value == 0x0000_0004 {
            Some(TrustType::Dce)
        } else if value == 0x0000_0005 {
            Some(TrustType::AzureActiveDirectory)
        } else {
            None
        }
    }

    /// The value with the number `value`.
    pub fn from_base_type(value: u32) -> (r: TrustType)
        ensures
            r.number() == value,
            r.canonical(),
            r == match TrustType::named(value) {
                Some(v) => v,
                None => TrustType::Other(value),
            },
    {
        if value == 0x0000_0001 {
            TrustType::Downlevel
        } else if value == 0x0000_0002 {
            TrustType::Uplevel
        } else if value == 0x0000_0003 {
            TrustType::Mit
        } else if value == 0x0000_0004 {
            TrustType::Dce
        } else if value == 0x0000_0005 {
            TrustType::AzureActiveDirectory
        } else {
            TrustType::Other(value)
        }
    }

    /// The number that stands for the value.
    pub fn to_base_type(&self) -> (r: u32)
        ensures
            r == self.number(),
    {
        match self {
            TrustType::Downlevel => 0x0000_0001,
            TrustType::Uplevel => 0x0000_0002,
            TrustType::Mit => 0x0000_0003,
            TrustType::Dce => 0x0000_0004,
            TrustType::AzureActiveDirectory => 0x0000_0005,
            TrustType::Other(v) => *v,
        }
    }
}

impl TrustType {
    /// The name of the value; `Other` with its number in brackets for a
    /// number without a name.
    pub open spec fn debug_text(self) -> Seq<char> {
        match self {
            TrustType::Downlevel => "Downlevel"@,
            TrustType::Uplevel => "Uplevel"@,
            TrustType::Mit => "Mit"@,
            TrustType::Dce => "Dce"@,
            TrustType::AzureActiveDirectory => "AzureActiveDirectory"@,
            TrustType::Other(v) => "Other("@ + decimal(v as nat) + ")"@,
        }
    }

    /// Renders the name of the value.
    pub fn to_debug_string(&self) -> (r: String)
        ensures
            r@ == self.debug_text(),
    {
        match self {
            TrustType::Downlevel => "Downlevel".to_owned(),
            TrustType::Uplevel => "Uplevel".to_owned(),
            TrustType::Mit => "Mit".to_owned(),
            TrustType::Dce => "Dce".to_owned(),
            TrustType::AzureActiveDirectory => "AzureActiveDirectory".to_owned(),
            TrustType::Other(v) => {
                let mut out: String = "Other(".to_owned();
                push_decimal(&mut out, *v as u64);
                out.append(")");
                out
            },
        }
    }
}

/// The category of a class of the schema.
#[derive(Clone, Copy, Debug, PartialEq, Eq, Structural, Hash)]
pub enum ObjectClassCategory {
    /// A class of which objects can be made; its name reads `Structural`.
    StructuralClass,
    Abstract,
    Auxiliary,
    /// Any other number.
    Other(u32),
}

impl ObjectClassCategory {
    /// The number that stands for the value.
    pub open spec fn number(self) -> u32 {
        match self {
            ObjectClassCategory::StructuralClass => 0x0000_0001,
            ObjectClassCategory::Abstract => 0x0000_0002,
            ObjectClassCategory::Auxiliary => 0x0000_0003,
            ObjectClassCategory::Other(v) => v,
        }
    }

    /// `Other` holds no number that has a name.
    pub open spec fn canonical(self) -> bool {
        self matches ObjectClassCategory::Other(v) ==> ObjectClassCategory::named(v) is None
    }

    /// The named value with the number `value`, if there is one.
    pub open spec fn named(value: u32) -> Option<ObjectClassCategory> {
        if value == 0x0000_0001 {
            Some(ObjectClassCategory::StructuralClass)
        } else if value == 0x0000_0002 {
            Some(ObjectClassCategory::Abstract)
        } else if value == 0x0000_0003 {
            Some(ObjectClassCategory::Auxiliary)
        } else {
            None
        }
    }

    /// The value with the number `value`.
    pub fn from_base_type(value: u32) -> (r: ObjectClassCategory)
        ensures
            r.number() == value,
            r.canonical(),
            r == match ObjectClassCategory::named(value) {
                Some(v) => v,
                None => ObjectClassCategory::Other(value),
            },
    {
        if value == 0x0000_0001 {
            ObjectClassCategory::StructuralClass
        } else if value == 0x0000_0002 {
            ObjectClassCategory::Abstract
        } else if value == 0x0000_0003 {
            ObjectClassCategory::Auxiliary
        } else {
            ObjectClassCategory::Other(value)
        }
    }

    /// The number that stands for the value.
    pub fn to_base_type(&self) -> (r: u32)
        ensures
            r == self.number(),
    {
        match self {
            ObjectClassCategory::StructuralClass => 0x0000_0001,
            ObjectClassCategory::Abstract => 0x0000_0002,
            ObjectClassCategory::Auxiliary => 0x0000_0003,
            ObjectClassCategory::Other(v) => *v,
        }
    }
}

impl ObjectClassCategory {
    /// The name of the value; `Other` with its number in brackets for a
    /// number without a name.
    pub open spec fn debug_text(self) -> Seq<char> {
        match self {
            ObjectClassCategory::StructuralClass => "Structural"@,
            ObjectClassCategory::Abstract => "Abstract"@,
            ObjectClassCategory::Auxiliary => "Auxiliary"@,
            ObjectClassCategory::Other(v) => "Other("@ + decimal(v as nat) + ")"@,
        }
    }

    /// Renders the name of the value.
    pub fn to_debug_string(&self) -> (r: String)
        ensures
            r@ == self.debug_text(),
    {
        match self {
            ObjectClassCategory::StructuralClass => "Structural".to_owned(),
            ObjectClassCategory::Abstract => "Abstract".to_owned(),
            ObjectClassCategory::Auxiliary => "Auxiliary".to_owned(),
            ObjectClassCategory::Other(v) => {
                let mut out: String = "Other(".to_owned();
                push_decimal(&mut out, *v as u64);
                out.append(")");
                out
            },
        }
    }
}

/// The syntax of an attribute in terms of XDS.
#[derive(Clone, Copy, Debug, PartialEq, Eq, Structural, Hash)]
pub enum OmSyntax {
    Boolean,
    Integer,
    BitString,
    OctetString,
    Null,
    ObjectIdentifier,
    ObjectDescriptor,
    EncodingString,
    Enumeration,
    NumericString,
    PrintableString,
    TeletexString,
    VideotexString,
    Ia5String,
    UtcTimeString,
    GeneralizedTimeString,
    GraphicString,
    VisibleString,
    GeneralString,
    UnicodeString,
    I8,
    ObjectSecurityDescriptor,
    Object,
    /// Any other number.
    Other(u32),
}

impl OmSyntax {
    /// The number that stands for the value.
    pub open spec fn number(self) -> u32 {
        match self {
            OmSyntax::Boolean => 0x0000_0001,
            OmSyntax::Integer => 0x0000_0002,
            OmSyntax::BitString => 0x0000_0003,
            OmSyntax::OctetString => 0x0000_0004,
            OmSyntax::Null => 0x0000_0005,
            OmSyntax::ObjectIdentifier => 0x0000_0006,
            OmSyntax::ObjectDescriptor => 0x0000_0007,
            OmSyntax::EncodingString => 0x0000_0008,
            OmSyntax::Enumeration => 0x0000_000A,
            OmSyntax::NumericString => 0x0000_0012,
            OmSyntax::PrintableString => 0x0000_0013,
            OmSyntax::TeletexString => 0x0000_0014,
            OmSyntax::VideotexString => 0x0000_0015,
            OmSyntax::Ia5String => 0x0000_0016,
            OmSyntax::UtcTimeString => 0x0000_0017,
            OmSyntax::GeneralizedTimeString => 0x0000_0018,
            OmSyntax::GraphicString => 0x0000_0019,
            OmSyntax::VisibleString => 0x0000_001A,
            OmSyntax::GeneralString => 0x0000_001B,
            OmSyntax::UnicodeString => 0x0000_0040,
            OmSyntax::I8 => 0x0000_0041,
            OmSyntax::ObjectSecurityDescriptor => 0x0000_0042,
            OmSyntax::Object => 0x0000_007F,
            OmSyntax::Other(v) => v,
        }
    }

    /// `Other` holds no number that has a name.
    pub open spec fn canonical(self) -> bool {
        self matches OmSyntax::Other(v) ==> OmSyntax::named(v) is None
    }

    /// The named value with the number `value`, if there is one.
    pub open spec fn named(value: u32) -> Option<OmSyntax> {
        if value == 0x0000_0001 {
            Some(OmSyntax::Boolean)
        } else if value == 0x0000_0002 {
            Some(OmSyntax::Integer)
        } else if value == 0x0000_0003 {
            Some(OmSyntax::BitString)
        } else if value == 0x0000_0004 {
            Some(OmSyntax::OctetString)
        } else if value == 0x0000_0005 {
            Some(OmSyntax::Null)
        } else if value == 0x0000_0006 {
            Some(OmSyntax::ObjectIdentifier)
        } else if value == 0x0000_0007 {
            Some(OmSyntax::ObjectDescriptor)
        } else if value == 0x0000_0008 {
            Some(OmSyntax::EncodingString)
        } else if value == 0x0000_000A {
            Some(OmSyntax::Enumeration)
        } else if value == 0x0000_0012 {
            Some(OmSyntax::NumericString)
        } else if value == 0x0000_0013 {
            Some(OmSyntax::PrintableString)
        } else if value == 0x0000_0014 {
            Some(OmSyntax::TeletexString)
        } else if value == 0x0000_0015 {
            Some(OmSyntax::VideotexString)
        } else if value == 0x0000_0016 {
            Some(OmSyntax::Ia5String)
        } else if value == 0x0000_0017 {
            Some(OmSyntax::UtcTimeString)
        } else if value == 0x0000_0018 {
            Some(OmSyntax::GeneralizedTimeString)
        } else if value == 0x0000_0019 {
            Some(OmSyntax::GraphicString)
        } else if value == 0x0000_001A {
            Some(OmSyntax::VisibleString)
        } else if value == 0x0000_001B {
            Some(OmSyntax::GeneralString)
        } else if value == 0x0000_0040 {
            Some(OmSyntax::UnicodeString)
        } else if value == 0x0000_0041 {
            Some(OmSyntax::I8)
        } else if value == 0x0000_0042 {
            Some(OmSyntax::ObjectSecurityDescriptor)
        } else if value == 0x0000_007F {
            Some(OmSyntax::Object)
        } else {
            None
        }
    }

    /// The value with the number `value`.
    pub fn from_base_type(value: u32) -> (r: OmSyntax)
        ensures
            r.number() == value,
            r.canonical(),
            r == match OmSyntax::named(value) {
                Some(v) => v,
                None => OmSyntax::Other(value),
            },
    {
        if value == 0x0000_0001 {
            OmSyntax::Boolean
        } else if value == 0x0000_0002 {
            OmSyntax::Integer
        } else if value == 0x0000_0003 {
            OmSyntax::BitString
        } else if value == 0x0000_0004 {
            OmSyntax::OctetString
        } else if value == 0x0000_0005 {
            OmSyntax::Null
        } else if value == 0x0000_0006 {
            OmSyntax::ObjectIdentifier
        } else if value == 0x0000_0007 {
            OmSyntax::ObjectDescriptor
        } else if value == 0x0000_0008 {
            OmSyntax::EncodingString
        } else if value == 0x0000_000A {
            OmSyntax::Enumeration
        } else if value == 0x0000_0012 {
            OmSyntax::NumericString
        } else if value == 0x0000_0013 {
            OmSyntax::PrintableString
        } else if value == 0x0000_0014 {
            OmSyntax::TeletexString
        } else if value == 0x0000_0015 {
            OmSyntax::VideotexString
        } else if value == 0x0000_0016 {
            OmSyntax::Ia5String
        } else if value == 0x0000_0017 {
            OmSyntax::UtcTimeString
        } else if value == 0x0000_0018 {
            OmSyntax::GeneralizedTimeString
        } else if value == 0x0000_0019 {
            OmSyntax::GraphicString
        } else if value == 0x0000_001A {
            OmSyntax::VisibleString
        } else if value == 0x0000_001B {
            OmSyntax::GeneralString
        } else if value == 0x0000_0040 {
            OmSyntax::UnicodeString
        } else if value == 0x0000_0041 {
            OmSyntax::I8
        } else if value == 0x0000_0042 {
            OmSyntax::ObjectSecurityDescriptor
        } else if value == 0x0000_007F {
            OmSyntax::Object
        } else {
            OmSyntax::Other(value)
        }
    }

    /// The number that stands for the value.
    pub fn to_base_type(&self) -> (r: u32)
        ensures
            r == self.number(),
    {
        match self {
            OmSyntax::Boolean => 0x0000_0001,
            OmSyntax::Integer => 0x0000_0002,
            OmSyntax::BitString => 0x0000_0003,
            OmSyntax::OctetString => 0x0000_0004,
            OmSyntax::Null => 0x0000_0005,
            OmSyntax::ObjectIdentifier => 0x0000_0006,
            OmSyntax::ObjectDescriptor => 0x0000_0007,
            OmSyntax::EncodingString => 0x0000_0008,
            OmSyntax::Enumeration => 0x0000_000A,
            OmSyntax::NumericString => 0x0000_0012,
            OmSyntax::PrintableString => 0x0000_0013,
            OmSyntax::TeletexString => 0x0000_0014,
            OmSyntax::VideotexString => 0x0000_0015,
            OmSyntax::Ia5String => 0x0000_0016,
            OmSyntax::UtcTimeString => 0x0000_0017,
            OmSyntax::GeneralizedTimeString => 0x0000_0018,
            OmSyntax::GraphicString => 0x0000_0019,
            OmSyntax::VisibleString => 0x0000_001A,
            OmSyntax::GeneralString => 0x0000_001B,
            OmSyntax::UnicodeString => 0x0000_0040,
            OmSyntax::I8 => 0x0000_0041,
            OmSyntax::ObjectSecurityDescriptor => 0x0000_0042,
            OmSyntax::Object => 0x0000_007F,
            OmSyntax::Other(v) => *v,
        }
    }
}

impl OmSyntax {
    /// The name of the value; `Other` with its number in brackets for a
    /// number without a name.
    pub open spec fn debug_text(self) -> Seq<char> {
        match self {
            OmSyntax::Boolean => "Boolean"@,
            OmSyntax::Integer => "Integer"@,
            OmSyntax::BitString => "BitString"@,
            OmSyntax::OctetString => "OctetString"@,
            OmSyntax::Null => "Null"@,
            OmSyntax::ObjectIdentifier => "ObjectIdentifier"@,
            OmSyntax::ObjectDescriptor => "ObjectDescriptor"@,
            OmSyntax::EncodingString => "EncodingString"@,
            OmSyntax::Enumeration => "Enumeration"@,
            OmSyntax::NumericString => "NumericString"@,
            OmSyntax::PrintableString => "PrintableString"@,
            OmSyntax::TeletexString => "TeletexString"@,
            OmSyntax::VideotexString => "VideotexString"@,
            OmSyntax::Ia5String => "Ia5String"@,
            OmSyntax::UtcTimeString => "UtcTimeString"@,
            OmSyntax::GeneralizedTimeString => "GeneralizedTimeString"@,
            OmSyntax::GraphicString => "GraphicString"@,
            OmSyntax::VisibleString => "VisibleString"@,
            OmSyntax::GeneralString => "GeneralString"@,
            OmSyntax::UnicodeString => "UnicodeString"@,
            OmSyntax::I8 => "I8"@,
            OmSyntax::ObjectSecurityDescriptor => "ObjectSecurityDescriptor"@,
            OmSyntax::Object => "Object"@,
            OmSyntax::Other(v) => "Other("@ + decimal(v as nat) + ")"@,
        }
    }

    /// Renders the name of the value.
    pub fn to_debug_string(&self) -> (r: String)
        ensures
            r@ == self.debug_text(),
    {
        match self {
            OmSyntax::Boolean => "Boolean".to_owned(),
            OmSyntax::Integer => "Integer".to_owned(),
            OmSyntax::BitString => "BitString".to_owned(),
            OmSyntax::OctetString => "OctetString".to_owned(),
            OmSyntax::Null => "Null".to_owned(),
            OmSyntax::ObjectIdentifier => "ObjectIdentifier".to_owned(),
            OmSyntax::ObjectDescriptor => "ObjectDescriptor".to_owned(),
            OmSyntax::EncodingString => "EncodingString".to_owned(),
            OmSyntax::Enumeration => "Enumeration".to_owned(),
            OmSyntax::NumericString => "NumericString".to_owned(),
            OmSyntax::PrintableString => "PrintableString".to_owned(),
            OmSyntax::TeletexString => "TeletexString".to_owned(),
            OmSyntax::VideotexString => "VideotexString".to_owned(),
            OmSyntax::Ia5String => "Ia5String".to_owned(),
            OmSyntax::UtcTimeString => "UtcTimeString".to_owned(),
            OmSyntax::GeneralizedTimeString => "GeneralizedTimeString".to_owned(),
            OmSyntax::GraphicString => "GraphicString".to_owned(),
            OmSyntax::VisibleString => "VisibleString".to_owned(),
            OmSyntax::GeneralString => "GeneralString".to_owned(),
            OmSyntax::UnicodeString => "UnicodeString".to_owned(),
            OmSyntax::I8 => "I8".to_owned(),
            OmSyntax::ObjectSecurityDescriptor => "ObjectSecurityDescriptor".to_owned(),
            OmSyntax::Object => "Object".to_owned(),
            OmSyntax::Other(v) => {
                let mut out: String = "Other(".to_owned();
                push_decimal(&mut out, *v as u64);
                out.append(")");
                out
            },
        }
    }
}

/// How replication partners authenticate.
#[derive(Clone, Copy, Debug, PartialEq, Eq, Structural, Hash)]
pub enum ReplAuthenticationMode {
    NegotiatePassThrough,
    Negotiate,
    MutualAuthRequired,
    /// Any other number.
    Other(u32),
}

impl ReplAuthenticationMode {
    /// The number that stands for the value.
    pub open spec fn number(self) -> u32 {
        match self {
            ReplAuthenticationMode::NegotiatePassThrough => 0x0000_0001,
            ReplAuthenticationMode::Negotiate => 0x0000_0002,
            ReplAuthenticationMode::MutualAuthRequired => 0x0000_0003,
            ReplAuthenticationMode::Other(v) => v,
        }
    }

    /// `Other` holds no number that has a name.
    pub open spec fn canonical(self) -> bool {
        self matches ReplAuthenticationMode::Other(v) ==> ReplAuthenticationMode::named(v) is None
    }

    /// The named value with the number `value`, if there is one.
    pub open spec fn named(value: u32) -> Option<ReplAuthenticationMode> {
        if value == 0x0000_0001 {
            Some(ReplAuthenticationMode::NegotiatePassThrough)
        } else if value == 0x0000_0002 {
            Some(ReplAuthenticationMode::Negotiate)
        } else if value == 0x0000_0003 {
            Some(ReplAuthenticationMode::MutualAuthRequired)
        } else {
            None
        }
    }

    /// The value with the number `value`.
    pub fn from_base_type(value: u32) -> (r: ReplAuthenticationMode)
        ensures
            r.number() == value,
            r.canonical(),
            r == match ReplAuthenticationMode::named(value) {
                Some(v) => v,
                None => ReplAuthenticationMode::Other(value),
            },
    {
        if value == 0x0000_0001 {
            ReplAuthenticationMode::NegotiatePassThrough
        } else if value == 0x0000_0002 {
            ReplAuthenticationMode::Negotiate
        } else if value == 0x0000_0003 {
            ReplAuthenticationMode::MutualAuthRequired
        } else {
            ReplAuthenticationMode::Other(value)
        }
    }

    /// The number that stands for the value.
    pub fn to_base_type(&self) -> (r: u32)
        ensures
            r == self.number(),
    {
        match self {
            ReplAuthenticationMode::NegotiatePassThrough => 0x0000_0001,
            ReplAuthenticationMode::Negotiate => 0x0000_0002,
            ReplAuthenticationMode::MutualAuthRequired => 0x0000_0003,
            ReplAuthenticationMode::Other(v) => *v,
        }
    }
}

impl ReplAuthenticationMode {
    /// The name of the value; `Other` with its number in brackets for a
    /// number without a name.
    pub open spec fn debug_text(self) -> Seq<char> {
        match self {
            ReplAuthenticationMode::NegotiatePassThrough => "NegotiatePassThrough"@,
            ReplAuthenticationMode::Negotiate => "Negotiate"@,
            ReplAuthenticationMode::MutualAuthRequired => "MutualAuthRequired"@,
            ReplAuthenticationMode::Other(v) => "Other("@ + decimal(v as nat) + ")"@,
        }
    }

    /// Renders the name of the value.
    pub fn to_debug_string(&self) -> (r: String)
        ensures
            r@ == self.debug_text(),
    {
        match self {
            ReplAuthenticationMode::NegotiatePassThrough => "NegotiatePassThrough".to_owned(),
            ReplAuthenticationMode::Negotiate => "Negotiate".to_owned(),
            ReplAuthenticationMode::MutualAuthRequired => "MutualAuthRequired".to_owned(),
            ReplAuthenticationMode::Other(v) => {
                let mut out: String = "Other(".to_owned();
                push_decimal(&mut out, *v as u64);
                out.append(")");
                out
            },
        }
    }
}

/// The state of a server.
#[derive(Clone, Copy, Debug, PartialEq, Eq, Structural, Hash)]
pub enum ServerState {
    Enabled,
    Disabled,
    /// Any other number.
    Other(u32),
}

impl ServerState {
    /// The number that stands for the value.
    pub open spec fn number(self) -> u32 {
        match self {
            ServerState::Enabled => 0x0000_0001,
            ServerState::Disabled => 0x0000_0002,
            ServerState::Other(v) => v,
        }
    }

    /// `Other` holds no number that has a name.
    pub open spec fn canonical(self) -> bool {
        self matches ServerState::Other(v) ==> ServerState::named(v) is None
    }

    /// The named value with the number `value`, if there is one.
    pub open spec fn named(value: u32) -> Option<ServerState> {
        if value == 0x0000_0001 {
            Some(ServerState::Enabled)
        } else if value == 0x0000_0002 {
            Some(ServerState::Disabled)
        } else {
            None
        }
    }

    /// The value with the number `value`.
    pub fn from_base_type(value: u32) -> (r: ServerState)
        ensures
            r.number() == value,
            r.canonical(),
            r == match ServerState::named(value) {
                Some(v) => v,
                None => ServerState::Other(value),
            },
    {
        if value == 0x0000_0001 {
            ServerState::Enabled
        } else if value == 0x0000_0002 {
            ServerState::Disabled
        } else {
            ServerState::Other(value)
        }
    }

    /// The number that stands for the value.
    pub fn to_base_type(&self) -> (r: u32)
        ensures
            r == self.number(),
    {
        match self {
            ServerState::Enabled => 0x0000_0001,
            ServerState::Disabled => 0x0000_0002,
            ServerState::Other(v) => *v,
        }
    }
}

impl ServerState {
    /// The name of the value; `Other` with its number in brackets for a
    /// number without a name.
    pub open spec fn debug_text(self) -> Seq<char> {
        match self {
            ServerState::Enabled => "Enabled"@,
            ServerState::Disabled => "Disabled"@,
            ServerState::Other(v) => "Other("@ + decimal(v as nat) + ")"@,
        }
    }

    /// Renders the name of the value.
    pub fn to_debug_string(&self) -> (r: String)
        ensures
            r@ == self.debug_text(),
    {
        match self {
            ServerState::Enabled => "Enabled".to_owned(),
            ServerState::Disabled => "Disabled".to_owned(),
            ServerState::Other(v) => {
                let mut out: String = "Other(".to_owned();
                push_decimal(&mut out, *v as u64);
                out.append(")");
                out
            },
        }
    }
}

/// The syntax of an attribute, by its object identifier.
#[derive(Clone, Debug, PartialEq, Eq, Hash, PartialOrd, Ord)]
pub enum AttributeSyntax {
    DistinguishedName,
    ObjectIdentifier,
    StringCase,
    StringTeletex,
    StringIa5,
    StringNumeric,
    DistinguishedNameBinary,
    Boolean,
    Integer,
    OctetString,
    Time,
    StringUnicode,
    Address,
    DistinguishedNameString,
    NtSecurityDescriptor,
    LargeInteger,
    Sid,
    /// Any other object identifier.
    Other(String),
}

impl AttributeSyntax {
    /// The object identifier of the syntax.
    pub open spec fn oid(&self) -> Seq<char> {
        match self {
            AttributeSyntax::DistinguishedName => "2.5.5.1"@,
            AttributeSyntax::ObjectIdentifier => "2.5.5.2"@,
            AttributeSyntax::StringCase => "2.5.5.3"@,
            AttributeSyntax::StringTeletex => "2.5.5.4"@,
            AttributeSyntax::StringIa5 => "2.5.5.5"@,
            AttributeSyntax::StringNumeric => "2.5.5.6"@,
            AttributeSyntax::DistinguishedNameBinary => "2.5.5.7"@,
            AttributeSyntax::Boolean => "2.5.5.8"@,
            AttributeSyntax::Integer => "2.5.5.9"@,
            AttributeSyntax::OctetString => "2.5.5.10"@,
            AttributeSyntax::Time => "2.5.5.11"@,
            AttributeSyntax::StringUnicode => "2.5.5.12"@,
            AttributeSyntax::Address => "2.5.5.13"@,
            AttributeSyntax::DistinguishedNameString => "2.5.5.14"@,
            AttributeSyntax::NtSecurityDescriptor => "2.5.5.15"@,
            AttributeSyntax::LargeInteger => "2.5.5.16"@,
            AttributeSyntax::Sid => "2.5.5.17"@,
            AttributeSyntax::Other(o) => o@,
        }
    }

    /// Whether `value` is the object identifier of a syntax with a name.
    pub open spec fn is_named(value: Seq<char>) -> bool {
        value == "2.5.5.1"@ || value == "2.5.5.2"@ || value == "2.5.5.3"@ || value == "2.5.5.4"@
            || value == "2.5.5.5"@ || value == "2.5.5.6"@ || value == "2.5.5.7"@ || value
            == "2.5.5.8"@ || value == "2.5.5.9"@ || value == "2.5.5.10"@ || value == "2.5.5.11"@
            || value == "2.5.5.12"@ || value == "2.5.5.13"@ || value == "2.5.5.14"@ || value
            == "2.5.5.15"@ || value == "2.5.5.16"@ || value == "2.5.5.17"@
    }

    /// `Other` holds no object identifier of a syntax with a name.
    pub open spec fn canonical(&self) -> bool {
        self is Other <==> !AttributeSyntax::is_named(self.oid())
    }

    /// The name of the syntax; `Other` with the object identifier in
    /// brackets and quotes for a syntax without a name.
    pub open spec fn debug_text(&self) -> Seq<char> {
        match self {
            AttributeSyntax::DistinguishedName => "DistinguishedName"@,
            AttributeSyntax::ObjectIdentifier => "ObjectIdentifier"@,
            AttributeSyntax::StringCase => "StringCase"@,
            AttributeSyntax::StringTeletex => "StringTeletex"@,
            AttributeSyntax::StringIa5 => "StringIa5"@,
            AttributeSyntax::StringNumeric => "StringNumeric"@,
            AttributeSyntax::DistinguishedNameBinary => "DistinguishedNameBinary"@,
            AttributeSyntax::Boolean => "Boolean"@,
            AttributeSyntax::Integer => "Integer"@,
            AttributeSyntax::OctetString => "OctetString"@,
            AttributeSyntax::Time => "Time"@,
            AttributeSyntax::StringUnicode => "StringUnicode"@,
            AttributeSyntax::Address => "Address"@,
            AttributeSyntax::DistinguishedNameString => "DistinguishedNameString"@,
            AttributeSyntax::NtSecurityDescriptor => "NtSecurityDescriptor"@,
            AttributeSyntax::LargeInteger => "LargeInteger"@,
            AttributeSyntax::Sid => "Sid"@,
            AttributeSyntax::Other(o) => "Other("@ + debug_quoted(o@) + ")"@,
        }
    }

    /// Renders the name of the syntax.
    pub fn to_debug_string(&self) -> (r: String)
        ensures
            r@ == self.debug_text(),
    {
        match self {
            AttributeSyntax::DistinguishedName => "DistinguishedName".to_owned(),
            AttributeSyntax::ObjectIdentifier => "ObjectIdentifier".to_owned(),
            AttributeSyntax::StringCase => "StringCase".to_owned(),
            AttributeSyntax::StringTeletex => "StringTeletex".to_owned(),
            AttributeSyntax::StringIa5 => "StringIa5".to_owned(),
            AttributeSyntax::StringNumeric => "StringNumeric".to_owned(),
            AttributeSyntax::DistinguishedNameBinary => "DistinguishedNameBinary".to_owned(),
            AttributeSyntax::Boolean => "Boolean".to_owned(),
            AttributeSyntax::Integer => "Integer".to_owned(),
            AttributeSyntax::OctetString => "OctetString".to_owned(),
            AttributeSyntax::Time => "Time".to_owned(),
            AttributeSyntax::StringUnicode => "StringUnicode".to_owned(),
            AttributeSyntax::Address => "Address".to_owned(),
            AttributeSyntax::DistinguishedNameString => "DistinguishedNameString".to_owned(),
            AttributeSyntax::NtSecurityDescriptor => "NtSecurityDescriptor".to_owned(),
            AttributeSyntax::LargeInteger => "LargeInteger".to_owned(),
            AttributeSyntax::Sid => "Sid".to_owned(),
            AttributeSyntax::Other(o) => {
                let mut out: String = "Other(".to_owned();
                out.append(string_debug(o.as_str()).as_str());
                out.append(")");
                out
            },
        }
    }

    /// The syntax with the object identifier `value`. Every text gives a
    /// syntax.
    pub fn try_from_str(value: &str) -> (r: Option<AttributeSyntax>)
        ensures
            r matches Some(s) && s.oid() == value@ && s.canonical(),
    {
        let variant: AttributeSyntax = if str_eq(value, "2.5.5.1") {
            AttributeSyntax::DistinguishedName
        } else if str_eq(value, "2.5.5.2") {
            AttributeSyntax::ObjectIdentifier
        } else if str_eq(value, "2.5.5.3") {
            AttributeSyntax::StringCase
        } else if str_eq(value, "2.5.5.4") {
            AttributeSyntax::StringTeletex
        } else if str_eq(value, "2.5.5.5") {
            AttributeSyntax::StringIa5
        } else if str_eq(value, "2.5.5.6") {
            AttributeSyntax::StringNumeric
        } else if str_eq(value, "2.5.5.7") {
            AttributeSyntax::DistinguishedNameBinary
        } else if str_eq(value, "2.5.5.8") {
            AttributeSyntax::Boolean
        } else if str_eq(value, "2.5.5.9") {
            AttributeSyntax::Integer
        } else if str_eq(value, "2.5.5.10") {
            AttributeSyntax::OctetString
        } else if str_eq(value, "2.5.5.11") {
            AttributeSyntax::Time
        } else if str_eq(value, "2.5.5.12") {
            AttributeSyntax::StringUnicode
        } else if str_eq(value, "2.5.5.13") {
            AttributeSyntax::Address
        } else if str_eq(value, "2.5.5.14") {
            AttributeSyntax::DistinguishedNameString
        } else if str_eq(value, "2.5.5.15") {
            AttributeSyntax::NtSecurityDescriptor
        } else if str_eq(value, "2.5.5.16") {
            AttributeSyntax::LargeInteger
        } else if str_eq(value, "2.5.5.17") {
            AttributeSyntax::Sid
        } else {
            AttributeSyntax::Other(value.to_owned())
        };
        Some(variant)
    }

    /// The object identifier of the syntax.
    pub fn as_str(&self) -> (r: &str)
        ensures
            r@ == self.oid(),
    {
        match self {
            AttributeSyntax::DistinguishedName => "2.5.5.1",
            AttributeSyntax::ObjectIdentifier => "2.5.5.2",
            AttributeSyntax::StringCase => "2.5.5.3",
            AttributeSyntax::StringTeletex => "2.5.5.4",
            AttributeSyntax::StringIa5 => "2.5.5.5",
            AttributeSyntax::StringNumeric => "2.5.5.6",
            AttributeSyntax::DistinguishedNameBinary => "2.5.5.7",
            AttributeSyntax::Boolean => "2.5.5.8",
            AttributeSyntax::Integer => "2.5.5.9",
            AttributeSyntax::OctetString => "2.5.5.10",
            AttributeSyntax::Time => "2.5.5.11",
            AttributeSyntax::StringUnicode => "2.5.5.12",
            AttributeSyntax::Address => "2.5.5.13",
            AttributeSyntax::DistinguishedNameString => "2.5.5.14",
            AttributeSyntax::NtSecurityDescriptor => "2.5.5.15",
            AttributeSyntax::LargeInteger => "2.5.5.16",
            AttributeSyntax::Sid => "2.5.5.17",
            AttributeSyntax::Other(o) => o.as_str(),
        }
    }
}

/// The class of an object in terms of XDS, by its encoded object
/// identifier.
#[derive(Clone, Debug, PartialEq, Eq, Hash, PartialOrd, Ord)]
pub enum OmObjectClass {
    OrName,
    AccessPoint,
    /// Any other object identifier.
    Other(Vec<u8>),
}

/// The encoded object identifier of `OrName`.
pub open spec fn or_name_bytes() -> Seq<u8> {
    seq![0x56u8, 0x06u8, 0x01u8, 0x02u8, 0x05u8, 0x0Bu8, 0x1Du8]
}

/// The encoded object identifier of `AccessPoint`.
pub open spec fn access_point_bytes() -> Seq<u8> {
    seq![0x2Bu8, 0x0Cu8, 0x02u8, 0x87u8, 0x73u8, 0x1Cu8, 0x00u8, 0x85u8, 0x3Eu8]
}

/// The first `k` bytes of `b` as decimal numbers with `, ` between them.
pub open spec fn byte_list(b: Seq<u8>, k: int) -> Seq<char>
    decreases k,
{
    if k <= 0 {
        Seq::empty()
    } else {
        byte_list(b, k - 1) + opt(k - 1 > 0, ", "@) + decimal(b[k - 1] as nat)
    }
}

impl OmObjectClass {
    /// The encoded object identifier of the class.
    pub open spec fn bytes(&self) -> Seq<u8> {
        match self {
            OmObjectClass::OrName => or_name_bytes(),
            OmObjectClass::AccessPoint => access_point_bytes(),
            OmObjectClass::Other(o) => o@,
        }
    }

    /// `Other` holds no object identifier of a class with a name.
    pub open spec fn canonical(&self) -> bool {
        self is Other <==> self.bytes() != or_name_bytes() && self.bytes() != access_point_bytes()
    }

    /// The name of the class; `Other` with the bytes of the object
    /// identifier as a list of decimal numbers for a class without a name.
    pub open spec fn debug_text(&self) -> Seq<char> {
        match self {
            OmObjectClass::OrName => "OrName"@,
            OmObjectClass::AccessPoint => "AccessPoint"@,
            OmObjectClass::Other(o) => "Other(["@ + byte_list(o@, o@.len() as int) + "])"@,
        }
    }

    /// Renders the name of the class.
    pub fn to_debug_string(&self) -> (r: String)
        ensures
            r@ == self.debug_text(),
    {
        match self {
            OmObjectClass::OrName => "OrName".to_owned(),
            OmObjectClass::AccessPoint => "AccessPoint".to_owned(),
            OmObjectClass::Other(o) => {
                let mut list: String = String::new();
                let mut i: usize = 0;
                while i < o.len()
                    invariant
                        i <= o@.len(),
                        list@ == byte_list(o@, i as int),
                    decreases o@.len() - i,
                {
                    list.append(opt_str(i > 0, ", "));
                    push_decimal(&mut list, o[i] as u64);
                    i += 1;
                }
                let mut out: String = "Other([".to_owned();
                out.append(list.as_str());
                out.append("])");
                out
            },
        }
    }

    /// The class with the encoded object identifier `value`. Every byte
    /// string gives a class.
    pub fn try_from_bytes(value: &[u8]) -> (r: Option<OmObjectClass>)
        ensures
            r matches Some(c) && c.bytes() == value@ && c.canonical(),
    {
        let or_name: [u8; 7] = [0x56, 0x06, 0x01, 0x02, 0x05, 0x0B, 0x1D];
        let access_point: [u8; 9] = [0x2B, 0x0C, 0x02, 0x87, 0x73, 0x1C, 0x00, 0x85, 0x3E];
        assert(or_name@ =~= or_name_bytes());
        assert(access_point@ =~= access_point_bytes());
        let variant: OmObjectClass = if bytes_eq(value, or_name.as_slice()) {
            OmObjectClass::OrName
        } else if bytes_eq(value, access_point.as_slice()) {
            OmObjectClass::AccessPoint
        } else {
            let copy: Vec<u8> = copy_range(value, 0, value.len());
            assert(value@.subrange(0, value@.len() as int) =~= value@);
            OmObjectClass::Other(copy)
        };
        Some(variant)
    }

    /// The encoded object identifier of the class.
    pub fn as_bytes(&self) -> (r: Vec<u8>)
        ensures
            r@ == self.bytes(),
    {
        match self {
            OmObjectClass::OrName => {
                let r: Vec<u8> = vec![0x56, 0x06, 0x01, 0x02, 0x05, 0x0B, 0x1D];
                assert(r@ =~= or_name_bytes());
                r
            },
            OmObjectClass::AccessPoint => {
                let r: Vec<u8> = vec![0x2B, 0x0C, 0x02, 0x87, 0x73, 0x1C, 0x00, 0x85, 0x3E];
                assert(r@ =~= access_point_bytes());
                r
            },
            OmObjectClass::Other(o) => {
                let r: Vec<u8> = copy_range(o.as_slice(), 0, o.len());
                assert(o@.subrange(0, o@.len() as int) =~= o@);
                r
            },
        }
    }
}

} // verus!
