//! Sets of named flags and their text form.
//!
//! The text form names the flags that are set, in the order of their
//! table and with ` | ` between them, and gives the bits that have no
//! name as a hexadecimal number after them. The empty set reads `0x0`.

pub mod exchange;

use crate::text::{hex_numeral, opt, opt_str, push_hex};
use vstd::prelude::*;
use vstd::string::StringExecFns;

verus! {

/// A flag and its name.
#[derive(Clone, Copy, Debug, PartialEq, Eq)]
pub struct FlagName {
    pub bits: u64,
    pub name: &'static str,
}

/// Whether the text form lists `flag` for the set `bits` when `remaining`
/// are the bits that no flag listed before it covers: the flag has a name,
/// the set holds all of its bits, and one of them is not covered yet.
pub open spec fn lists(flag: FlagName, bits: u64, remaining: u64) -> bool {
    &&& flag.name@.len() > 0
    &&& bits & flag.bits == flag.bits
    &&& remaining & flag.bits != 0
}

/// The bits of `bits` that none of the first `k` flags of `table` covers.
pub open spec fn remaining_after(table: Seq<FlagName>, bits: u64, k: int) -> u64
    decreases k,
{
    if k <= 0 {
        bits
    } else if lists(table[k - 1], bits, remaining_after(table, bits, k - 1)) {
        remaining_after(table, bits, k - 1) & !table[k - 1].bits
    } else {
        remaining_after(table, bits, k - 1)
    }
}

/// The names of those of the first `k` flags of `table` that the text form
/// lists for `bits`, with ` | ` between them.
pub open spec fn names_after(table: Seq<FlagName>, bits: u64, k: int) -> Seq<char>
    decreases k,
{
    if k <= 0 {
        Seq::empty()
    } else if lists(table[k - 1], bits, remaining_after(table, bits, k - 1)) {
        names_after(table, bits, k - 1) + opt(names_after(table, bits, k - 1).len() > 0, " | "@)
            + table[k - 1].name@
    } else {
        names_after(table, bits, k - 1)
    }
}

/// The text form of the set `bits` of the flags of `table`.
pub open spec fn flags_text(table: Seq<FlagName>, bits: u64) -> Seq<char> {
    let names = names_after(table, bits, table.len() as int);
    let rest = remaining_after(table, bits, table.len() as int);
    if bits == 0 {
        "0x0"@
    } else if rest == 0 {
        names
    } else {
        names + opt(names.len() > 0, " | "@) + "0x"@ + hex_numeral(rest as nat)
    }
}

/// Renders the text form of the set `bits` of the flags of `table`.
pub fn describe_flags(table: &[FlagName], bits: u64) -> (r: String)
    ensures
        r@ == flags_text(table@, bits),
{
    if bits == 0 {
        return "0x0".to_owned();
    }
    let mut out: String = String::new();
    let mut remaining: u64 = bits;
    let mut k: usize = 0;
    while k < table.len()
        invariant
            k <= table.len(),
            remaining == remaining_after(table@, bits, k as int),
            out@ == names_after(table@, bits, k as int),
        decreases table.len() - k,
    {
        let flag: FlagName = table[k];
        if !flag.name.is_empty() && bits & flag.bits == flag.bits && remaining & flag.bits != 0 {
            out.append(opt_str(!out.as_str().is_empty(), " | "));
            out.append(flag.name);
            remaining = remaining & !flag.bits;
        }
        k += 1;
    }
    if remaining != 0 {
        out.append(opt_str(!out.as_str().is_empty(), " | "));
        out.append("0x");
        push_hex(&mut out, remaining);
    }
    out
}

/// The flags that control an account.
#[derive(Clone, Copy, Debug, PartialEq, Eq, Structural, Hash, PartialOrd, Ord)]
pub struct UserAccountControl {
    pub bits: u32,
}

impl UserAccountControl {
    pub const SCRIPT: u32 = 0x0000_0001;

    pub const ACCOUNTDISABLE: u32 = 0x0000_0002;

    pub const HOMEDIR_REQUIRED: u32 = 0x0000_0008;

    pub const LOCKOUT: u32 = 0x0000_0010;

    pub const PASSWD_NOTREQD: u32 = 0x0000_0020;

    pub const PASSWD_CANT_CHANGE: u32 = 0x0000_0040;

    pub const ENCRYPTED_TEXT_PWD_ALLOWED: u32 = 0x0000_0080;

    pub const TEMP_DUPLICATE_ACCOUNT: u32 = 0x0000_0100;

    pub const NORMAL_ACCOUNT: u32 = 0x0000_0200;

    pub const INTERDOMAIN_TRUST_ACCOUNT: u32 = 0x0000_0800;

    pub const WORKSTATION_TRUST_ACCOUNT: u32 = 0x0000_1000;

    pub const SERVER_TRUST_ACCOUNT: u32 = 0x0000_2000;

    pub const DONT_EXPIRE_PASSWORD: u32 = 0x0001_0000;

    pub const MNS_LOGON_ACCOUNT: u32 = 0x0002_0000;

    pub const SMARTCARD_REQUIRED: u32 = 0x0004_0000;

    pub const TRUSTED_FOR_DELEGATION: u32 = 0x0008_0000;

    pub const NOT_DELEGATED: u32 = 0x0010_0000;

    pub const USE_DES_KEY_ONLY: u32 = 0x0020_0000;

    pub const DONT_REQ_PREAUTH: u32 = 0x0040_0000;

    pub const PASSWORD_EXPIRED: u32 = 0x0080_0000;

    pub const TRUSTED_TO_AUTH_FOR_DELEGATION: u32 = 0x0100_0000;

    pub const NO_AUTH_DATA_REQUIRED: u32 = 0x0200_0000;

    pub const PARTIAL_SECRETS_ACCOUNT: u32 = 0x0400_0000;

    pub const USE_AES_KEYS: u32 = 0x0800_0000;

    /// Every bit that has a name.
    pub const ALL: u32 = 0x0FFF_3BFB;

    /// The flags with their names, in the order in which the text form
    /// lists them.
    pub open spec fn table() -> Seq<FlagName> {
        seq![
            FlagName { bits: 0x0000_0000_0000_0001, name: "SCRIPT" },
            FlagName { bits: 0x0000_0000_0000_0002, name: "ACCOUNTDISABLE" },
            FlagName { bits: 0x0000_0000_0000_0008, name: "HOMEDIR_REQUIRED" },
            FlagName { bits: 0x0000_0000_0000_0010, name: "LOCKOUT" },
            FlagName { bits: 0x0000_0000_0000_0020, name: "PASSWD_NOTREQD" },
            FlagName { bits: 0x0000_0000_0000_0040, name: "PASSWD_CANT_CHANGE" },
            FlagName { bits: 0x0000_0000_0000_0080, name: "ENCRYPTED_TEXT_PWD_ALLOWED" },
            FlagName { bits: 0x0000_0000_0000_0100, name: "TEMP_DUPLICATE_ACCOUNT" },
            FlagName { bits: 0x0000_0000_0000_0200, name: "NORMAL_ACCOUNT" },
            FlagName { bits: 0x0000_0000_0000_0800, name: "INTERDOMAIN_TRUST_ACCOUNT" },
            FlagName { bits: 0x0000_0000_0000_1000, name: "WORKSTATION_TRUST_ACCOUNT" },
            FlagName { bits: 0x0000_0000_0000_2000, name: "SERVER_TRUST_ACCOUNT" },
            FlagName { bits: 0x0000_0000_0001_0000, name: "DONT_EXPIRE_PASSWORD" },
            FlagName { bits: 0x0000_0000_0002_0000, name: "MNS_LOGON_ACCOUNT" },
            FlagName { bits: 0x0000_0000_0004_0000, name: "SMARTCARD_REQUIRED" },
            FlagName { bits: 0x0000_0000_0008_0000, name: "TRUSTED_FOR_DELEGATION" },
            FlagName { bits: 0x0000_0000_0010_0000, name: "NOT_DELEGATED" },
            FlagName { bits: 0x0000_0000_0020_0000, name: "USE_DES_KEY_ONLY" },
            FlagName { bits: 0x0000_0000_0040_0000, name: "DONT_REQ_PREAUTH" },
            FlagName { bits: 0x0000_0000_0080_0000, name: "PASSWORD_EXPIRED" },
            FlagName { bits: 0x0000_0000_0100_0000, name: "TRUSTED_TO_AUTH_FOR_DELEGATION" },
            FlagName { bits: 0x0000_0000_0200_0000, name: "NO_AUTH_DATA_REQUIRED" },
            FlagName { bits: 0x0000_0000_0400_0000, name: "PARTIAL_SECRETS_ACCOUNT" },
            FlagName { bits: 0x0000_0000_0800_0000, name: "USE_AES_KEYS" },
        ]
    }

    /// The text form: the name of the type and, in brackets, the names of
    /// the flags that are set and the bits without a name.
    pub open spec fn text(self) -> Seq<char> {
        "UserAccountControl("@ + flags_text(UserAccountControl::table(), self.bits as u64) + ")"@
    }

    /// Whether every bit of `flag` is set.
    pub open spec fn has(self, flag: u32) -> bool {
        self.bits & flag == flag
    }

    /// The flags with their names.
    pub fn names() -> (r: Vec<FlagName>)
        ensures
            r@ == UserAccountControl::table(),
    {
        let r: Vec<FlagName> = vec![
            FlagName { bits: 0x0000_0000_0000_0001, name: "SCRIPT" },
            FlagName { bits: 0x0000_0000_0000_0002, name: "ACCOUNTDISABLE" },
            FlagName { bits: 0x0000_0000_0000_0008, name: "HOMEDIR_REQUIRED" },
            FlagName { bits: 0x0000_0000_0000_0010, name: "LOCKOUT" },
            FlagName { bits: 0x0000_0000_0000_0020, name: "PASSWD_NOTREQD" },
            FlagName { bits: 0x0000_0000_0000_0040, name: "PASSWD_CANT_CHANGE" },
            FlagName { bits: 0x0000_0000_0000_0080, name: "ENCRYPTED_TEXT_PWD_ALLOWED" },
            FlagName { bits: 0x0000_0000_0000_0100, name: "TEMP_DUPLICATE_ACCOUNT" },
            FlagName { bits: 0x0000_0000_0000_0200, name: "NORMAL_ACCOUNT" },
            FlagName { bits: 0x0000_0000_0000_0800, name: "INTERDOMAIN_TRUST_ACCOUNT" },
            FlagName { bits: 0x0000_0000_0000_1000, name: "WORKSTATION_TRUST_ACCOUNT" },
            FlagName { bits: 0x0000_0000_0000_2000, name: "SERVER_TRUST_ACCOUNT" },
            FlagName { bits: 0x0000_0000_0001_0000, name: "DONT_EXPIRE_PASSWORD" },
            FlagName { bits: 0x0000_0000_0002_0000, name: "MNS_LOGON_ACCOUNT" },
            FlagName { bits: 0x0000_0000_0004_0000, name: "SMARTCARD_REQUIRED" },
            FlagName { bits: 0x0000_0000_0008_0000, name: "TRUSTED_FOR_DELEGATION" },
            FlagName { bits: 0x0000_0000_0010_0000, name: "NOT_DELEGATED" },
            FlagName { bits: 0x0000_0000_0020_0000, name: "USE_DES_KEY_ONLY" },
            FlagName { bits: 0x0000_0000_0040_0000, name: "DONT_REQ_PREAUTH" },
            FlagName { bits: 0x0000_0000_0080_0000, name: "PASSWORD_EXPIRED" },
            FlagName { bits: 0x0000_0000_0100_0000, name: "TRUSTED_TO_AUTH_FOR_DELEGATION" },
            FlagName { bits: 0x0000_0000_0200_0000, name: "NO_AUTH_DATA_REQUIRED" },
            FlagName { bits: 0x0000_0000_0400_0000, name: "PARTIAL_SECRETS_ACCOUNT" },
            FlagName { bits: 0x0000_0000_0800_0000, name: "USE_AES_KEYS" },
        ];
        assert(r@ =~= UserAccountControl::table());
        r
    }

    /// The set with the given bits.
    pub fn from_bits_retain(bits: u32) -> (r: UserAccountControl)
        ensures
            r.bits == bits,
    {
        UserAccountControl { bits }
    }

    /// The bits of the set.
    pub fn bits(&self) -> (r: u32)
        ensures
            r == self.bits,
    {
        self.bits
    }

    /// Whether every bit of `flag` is set.
    pub fn contains(&self, flag: u32) -> (r: bool)
        ensures
            r == self.has(flag),
    {
        self.bits & flag == flag
    }

    /// Renders the text form.
    pub fn to_debug_string(&self) -> (r: String)
        ensures
            r@ == self.text(),
    {
        let mut out: String = "UserAccountControl(".to_owned();
        out.append(describe_flags(UserAccountControl::names().as_slice(), self.bits as u64).as_str());
        out.append(")");
        out
    }
}

/// The type and the scope of a group.
#[derive(Clone, Copy, Debug, PartialEq, Eq, Structural, Hash, PartialOrd, Ord)]
pub struct GroupType {
    pub bits: u32,
}

impl GroupType {
    pub const BUILTIN_LOCAL_GROUP: u32 = 0x0000_0001;

    pub const ACCOUNT_GROUP: u32 = 0x0000_0002;

    pub const RESOURCE_GROUP: u32 = 0x0000_0004;

    pub const UNIVERSAL_GROUP: u32 = 0x0000_0008;

    pub const APP_BASIC_GROUP: u32 = 0x0000_0010;

    pub const APP_QUERY_GROUP: u32 = 0x0000_0020;

    pub const SECURITY_ENABLED: u32 = 0x8000_0000;

    /// Every bit that has a name.
    pub const ALL: u32 = 0x8000_003F;

    /// The flags with their names, in the order in which the text form
    /// lists them.
    pub open spec fn table() -> Seq<FlagName> {
        seq![
            FlagName { bits: 0x0000_0000_0000_0001, name: "BUILTIN_LOCAL_GROUP" },
            FlagName { bits: 0x0000_0000_0000_0002, name: "ACCOUNT_GROUP" },
            FlagName { bits: 0x0000_0000_0000_0004, name: "RESOURCE_GROUP" },
            FlagName { bits: 0x0000_0000_0000_0008, name: "UNIVERSAL_GROUP" },
            FlagName { bits: 0x0000_0000_0000_0010, name: "APP_BASIC_GROUP" },
            FlagName { bits: 0x0000_0000_0000_0020, name: "APP_QUERY_GROUP" },
            FlagName { bits: 0x0000_0000_8000_0000, name: "SECURITY_ENABLED" },
        ]
    }

    /// The text form: the name of the type and, in brackets, the names of
    /// the flags that are set and the bits without a name.
    pub open spec fn text(self) -> Seq<char> {
        "GroupType("@ + flags_text(GroupType::table(), self.bits as u64) + ")"@
    }

    /// Whether every bit of `flag` is set.
    pub open spec fn has(self, flag: u32) -> bool {
        self.bits & flag == flag
    }

    /// The flags with their names.
    pub fn names() -> (r: Vec<FlagName>)
        ensures
            r@ == GroupType::table(),
    {
        let r: Vec<FlagName> = vec![
            FlagName { bits: 0x0000_0000_0000_0001, name: "BUILTIN_LOCAL_GROUP" },
            FlagName { bits: 0x0000_0000_0000_0002, name: "ACCOUNT_GROUP" },
            FlagName { bits: 0x0000_0000_0000_0004, name: "RESOURCE_GROUP" },
            FlagName { bits: 0x0000_0000_0000_0008, name: "UNIVERSAL_GROUP" },
            FlagName { bits: 0x0000_0000_0000_0010, name: "APP_BASIC_GROUP" },
            FlagName { bits: 0x0000_0000_0000_0020, name: "APP_QUERY_GROUP" },
            FlagName { bits: 0x0000_0000_8000_0000, name: "SECURITY_ENABLED" },
        ];
        assert(r@ =~= GroupType::table());
        r
    }

    /// The set with the given bits.
    pub fn from_bits_retain(bits: u32) -> (r: GroupType)
        ensures
            r.bits == bits,
    {
        GroupType { bits }
    }

    /// The bits of the set.
    pub fn bits(&self) -> (r: u32)
        ensures
            r == self.bits,
    {
        self.bits
    }

    /// Whether every bit of `flag` is set.
    pub fn contains(&self, flag: u32) -> (r: bool)
        ensures
            r == self.has(flag),
    {
        self.bits & flag == flag
    }

    /// Renders the text form.
    pub fn to_debug_string(&self) -> (r: String)
        ensures
            r@ == self.text(),
    {
        let mut out: String = "GroupType(".to_owned();
        out.append(describe_flags(GroupType::names().as_slice(), self.bits as u64).as_str());
        out.append(")");
        out
    }
}

/// The system flags of an object of any class.
#[derive(Clone, Copy, Debug, PartialEq, Eq, Structural, Hash, PartialOrd, Ord)]
pub struct GenericSystemFlags {
    pub bits: u32,
}

impl GenericSystemFlags {
    pub const DISALLOW_MOVE_ON_DELETE: u32 = 0x0200_0000;

    pub const DOMAIN_DISALLOW_MOVE: u32 = 0x0400_0000;

    pub const DOMAIN_DISALLOW_RENAME: u32 = 0x0800_0000;

    pub const CONFIG_ALLOW_LIMITED_MOVE: u32 = 0x1000_0000;

    pub const CONFIG_ALLOW_MOVE: u32 = 0x2000_0000;

    pub const CONFIG_ALLOW_RENAME: u32 = 0x4000_0000;

    pub const DISALLOW_DELETE: u32 = 0x8000_0000;

    /// Every bit that has a name.
    pub const ALL: u32 = 0xFE00_0000;

    /// The flags with their names, in the order in which the text form
    /// lists them.
    pub open spec fn table() -> Seq<FlagName> {
        seq![
            FlagName { bits: 0x0000_0000_0200_0000, name: "DisallowMoveOnDelete" },
            FlagName { bits: 0x0000_0000_0400_0000, name: "DomainDisallowMove" },
            FlagName { bits: 0x0000_0000_0800_0000, name: "DomainDisallowRename" },
            FlagName { bits: 0x0000_0000_1000_0000, name: "ConfigAllowLimitedMove" },
            FlagName { bits: 0x0000_0000_2000_0000, name: "ConfigAllowMove" },
            FlagName { bits: 0x0000_0000_4000_0000, name: "ConfigAllowRename" },
            FlagName { bits: 0x0000_0000_8000_0000, name: "DisallowDelete" },
        ]
    }

    /// The text form: the name of the type and, in brackets, the names of
    /// the flags that are set and the bits without a name.
    pub open spec fn text(self) -> Seq<char> {
        "GenericSystemFlags("@ + flags_text(GenericSystemFlags::table(), self.bits as u64) + ")"@
    }

    /// Whether every bit of `flag` is set.
    pub open spec fn has(self, flag: u32) -> bool {
        self.bits & flag == flag
    }

    /// The flags with their names.
    pub fn names() -> (r: Vec<FlagName>)
        ensures
            r@ == GenericSystemFlags::table(),
    {
        let r: Vec<FlagName> = vec![
            FlagName { bits: 0x0000_0000_0200_0000, name: "DisallowMoveOnDelete" },
            FlagName { bits: 0x0000_0000_0400_0000, name: "DomainDisallowMove" },
            FlagName { bits: 0x0000_0000_0800_0000, name: "DomainDisallowRename" },
            FlagName { bits: 0x0000_0000_1000_0000, name: "ConfigAllowLimitedMove" },
            FlagName { bits: 0x0000_0000_2000_0000, name: "ConfigAllowMove" },
            FlagName { bits: 0x0000_0000_4000_0000, name: "ConfigAllowRename" },
            FlagName { bits: 0x0000_0000_8000_0000, name: "DisallowDelete" },
        ];
        assert(r@ =~= GenericSystemFlags::table());
        r
    }

    /// The set with the given bits.
    pub fn from_bits_retain(bits: u32) -> (r: GenericSystemFlags)
        ensures
            r.bits == bits,
    {
        GenericSystemFlags { bits }
    }

    /// The bits of the set.
    pub fn bits(&self) -> (r: u32)
        ensures
            r == self.bits,
    {
        self.bits
    }

    /// Whether every bit of `flag` is set.
    pub fn contains(&self, flag: u32) -> (r: bool)
        ensures
            r == self.has(flag),
    {
        self.bits & flag == flag
    }

    /// Renders the text form.
    pub fn to_debug_string(&self) -> (r: String)
        ensures
            r@ == self.text(),
    {
        let mut out: String = "GenericSystemFlags(".to_owned();
        out.append(describe_flags(GenericSystemFlags::names().as_slice(), self.bits as u64).as_str());
        out.append(")");
        out
    }
}

/// The system flags of a cross reference.
#[derive(Clone, Copy, Debug, PartialEq, Eq, Structural, Hash, PartialOrd, Ord)]
pub struct CrossRefSystemFlags {
    pub bits: u32,
}

impl CrossRefSystemFlags {
    pub const NC: u32 = 0x0000_0001;

    pub const DOMAIN: u32 = 0x0000_0002;

    pub const NOT_GC_REPLICATED: u32 = 0x0000_0004;

    pub const DISALLOW_MOVE_ON_DELETE: u32 = 0x0200_0000;

    pub const DOMAIN_DISALLOW_MOVE: u32 = 0x0400_0000;

    pub const DOMAIN_DISALLOW_RENAME: u32 = 0x0800_0000;

    pub const CONFIG_ALLOW_LIMITED_MOVE: u32 = 0x1000_0000;

    pub const CONFIG_ALLOW_MOVE: u32 = 0x2000_0000;

    pub const CONFIG_ALLOW_RENAME: u32 = 0x4000_0000;

    pub const DISALLOW_DELETE: u32 = 0x8000_0000;

    /// Every bit that has a name.
    pub const ALL: u32 = 0xFE00_0007;

    /// The flags with their names, in the order in which the text form
    /// lists them.
    pub open spec fn table() -> Seq<FlagName> {
        seq![
            FlagName { bits: 0x0000_0000_0000_0001, name: "Nc" },
            FlagName { bits: 0x0000_0000_0000_0002, name: "Domain" },
            FlagName { bits: 0x0000_0000_0000_0004, name: "NotGcReplicated" },
            FlagName { bits: 0x0000_0000_0200_0000, name: "DisallowMoveOnDelete" },
            FlagName { bits: 0x0000_0000_0400_0000, name: "DomainDisallowMove" },
            FlagName { bits: 0x0000_0000_0800_0000, name: "DomainDisallowRename" },
            FlagName { bits: 0x0000_0000_1000_0000, name: "ConfigAllowLimitedMove" },
            FlagName { bits: 0x0000_0000_2000_0000, name: "ConfigAllowMove" },
            FlagName { bits: 0x0000_0000_4000_0000, name: "ConfigAllowRename" },
            FlagName { bits: 0x0000_0000_8000_0000, name: "DisallowDelete" },
        ]
    }

    /// The text form: the name of the type and, in brackets, the names of
    /// the flags that are set and the bits without a name.
    pub open spec fn text(self) -> Seq<char> {
        "CrossRefSystemFlags("@ + flags_text(CrossRefSystemFlags::table(), self.bits as u64) + ")"@
    }

    /// Whether every bit of `flag` is set.
    pub open spec fn has(self, flag: u32) -> bool {
        self.bits & flag == flag
    }

    /// The flags with their names.
    pub fn names() -> (r: Vec<FlagName>)
        ensures
            r@ == CrossRefSystemFlags::table(),
    {
        let r: Vec<FlagName> = vec![
            FlagName { bits: 0x0000_0000_0000_0001, name: "Nc" },
            FlagName { bits: 0x0000_0000_0000_0002, name: "Domain" },
            FlagName { bits: 0x0000_0000_0000_0004, name: "NotGcReplicated" },
            FlagName { bits: 0x0000_0000_0200_0000, name: "DisallowMoveOnDelete" },
            FlagName { bits: 0x0000_0000_0400_0000, name: "DomainDisallowMove" },
            FlagName { bits: 0x0000_0000_0800_0000, name: "DomainDisallowRename" },
            FlagName { bits: 0x0000_0000_1000_0000, name: "ConfigAllowLimitedMove" },
            FlagName { bits: 0x0000_0000_2000_0000, name: "ConfigAllowMove" },
            FlagName { bits: 0x0000_0000_4000_0000, name: "ConfigAllowRename" },
            FlagName { bits: 0x0000_0000_8000_0000, name: "DisallowDelete" },
        ];
        assert(r@ =~= CrossRefSystemFlags::table());
        r
    }

    /// The set with the given bits.
    pub fn from_bits_retain(bits: u32) -> (r: CrossRefSystemFlags)
        ensures
            r.bits == bits,
    {
        CrossRefSystemFlags { bits }
    }

    /// The bits of the set.
    pub fn bits(&self) -> (r: u32)
        ensures
            r == self.bits,
    {
        self.bits
    }

    /// Whether every bit of `flag` is set.
    pub fn contains(&self, flag: u32) -> (r: bool)
        ensures
            r == self.has(flag),
    {
        self.bits & flag == flag
    }

    /// Renders the text form.
    pub fn to_debug_string(&self) -> (r: String)
        ensures
            r@ == self.text(),
    {
        let mut out: String = "CrossRefSystemFlags(".to_owned();
        out.append(describe_flags(CrossRefSystemFlags::names().as_slice(), self.bits as u64).as_str());
        out.append(")");
        out
    }
}

/// The system flags of a class of the schema.
#[derive(Clone, Copy, Debug, PartialEq, Eq, Structural, Hash, PartialOrd, Ord)]
pub struct ClassSchemaSystemFlags {
    pub bits: u32,
}

impl ClassSchemaSystemFlags {
    pub const SCHEMA_BASE_OBJECT: u32 = 0x0000_0010;

    pub const DISALLOW_MOVE_ON_DELETE: u32 = 0x0200_0000;

    pub const DOMAIN_DISALLOW_MOVE: u32 = 0x0400_0000;

    pub const DOMAIN_DISALLOW_RENAME: u32 = 0x0800_0000;

    pub const CONFIG_ALLOW_LIMITED_MOVE: u32 = 0x1000_0000;

    pub const CONFIG_ALLOW_MOVE: u32 = 0x2000_0000;

    pub const CONFIG_ALLOW_RENAME: u32 = 0x4000_0000;

    pub const DISALLOW_DELETE: u32 = 0x8000_0000;

    /// Every bit that has a name.
    pub const ALL: u32 = 0xFE00_0010;

    /// The flags with their names, in the order in which the text form
    /// lists them.
    pub open spec fn table() -> Seq<FlagName> {
        seq![
            FlagName { bits: 0x0000_0000_0000_0010, name: "SchemaBaseObject" },
            FlagName { bits: 0x0000_0000_0200_0000, name: "DisallowMoveOnDelete" },
            FlagName { bits: 0x0000_0000_0400_0000, name: "DomainDisallowMove" },
            FlagName { bits: 0x0000_0000_0800_0000, name: "DomainDisallowRename" },
            FlagName { bits: 0x0000_0000_1000_0000, name: "ConfigAllowLimitedMove" },
            FlagName { bits: 0x0000_0000_2000_0000, name: "ConfigAllowMove" },
            FlagName { bits: 0x0000_0000_4000_0000, name: "ConfigAllowRename" },
            FlagName { bits: 0x0000_0000_8000_0000, name: "DisallowDelete" },
        ]
    }

    /// The text form: the name of the type and, in brackets, the names of
    /// the flags that are set and the bits without a name.
    pub open spec fn text(self) -> Seq<char> {
        "ClassSchemaSystemFlags("@ + flags_text(ClassSchemaSystemFlags::table(), self.bits as u64) + ")"@
    }

    /// Whether every bit of `flag` is set.
    pub open spec fn has(self, flag: u32) -> bool {
        self.bits & flag == flag
    }

    /// The flags with their names.
    pub fn names() -> (r: Vec<FlagName>)
        ensures
            r@ == ClassSchemaSystemFlags::table(),
    {
        let r: Vec<FlagName> = vec![
            FlagName { bits: 0x0000_0000_0000_0010, name: "SchemaBaseObject" },
            FlagName { bits: 0x0000_0000_0200_0000, name: "DisallowMoveOnDelete" },
            FlagName { bits: 0x0000_0000_0400_0000, name: "DomainDisallowMove" },
            FlagName { bits: 0x0000_0000_0800_0000, name: "DomainDisallowRename" },
            FlagName { bits: 0x0000_0000_1000_0000, name: "ConfigAllowLimitedMove" },
            FlagName { bits: 0x0000_0000_2000_0000, name: "ConfigAllowMove" },
            FlagName { bits: 0x0000_0000_4000_0000, name: "ConfigAllowRename" },
            FlagName { bits: 0x0000_0000_8000_0000, name: "DisallowDelete" },
        ];
        assert(r@ =~= ClassSchemaSystemFlags::table());
        r
    }

    /// The set with the given bits.
    pub fn from_bits_retain(bits: u32) -> (r: ClassSchemaSystemFlags)
        ensures
            r.bits == bits,
    {
        ClassSchemaSystemFlags { bits }
    }

    /// The bits of the set.
    pub fn bits(&self) -> (r: u32)
        ensures
            r == self.bits,
    {
        self.bits
    }

    /// Whether every bit of `flag` is set.
    pub fn contains(&self, flag: u32) -> (r: bool)
        ensures
            r == self.has(flag),
    {
        self.bits & flag == flag
    }

    /// Renders the text form.
    pub fn to_debug_string(&self) -> (r: String)
        ensures
            r@ == self.text(),
    {
        let mut out: String = "ClassSchemaSystemFlags(".to_owned();
        out.append(describe_flags(ClassSchemaSystemFlags::names().as_slice(), self.bits as u64).as_str());
        out.append(")");
        out
    }
}

/// The system flags of an attribute of the schema.
#[derive(Clone, Copy, Debug, PartialEq, Eq, Structural, Hash, PartialOrd, Ord)]
pub struct AttributeSchemaSystemFlags {
    pub bits: u32,
}

impl AttributeSchemaSystemFlags {
    pub const ATTR_NOT_REPLICATED: u32 = 0x0000_0001;

    pub const ATTR_REQ_PARTIAL_SET_MEMBER: u32 = 0x0000_0002;

    pub const ATTR_IS_CONSTRUCTED: u32 = 0x0000_0004;

    pub const ATTR_IS_OPERATIONAL: u32 = 0x0000_0008;

    pub const SCHEMA_BASE_OBJECT: u32 = 0x0000_0010;

    pub const ATTR_IS_RDN: u32 = 0x0000_0020;

    pub const DISALLOW_MOVE_ON_DELETE: u32 = 0x0200_0000;

    pub const DOMAIN_DISALLOW_MOVE: u32 = 0x0400_0000;

    pub const DOMAIN_DISALLOW_RENAME: u32 = 0x0800_0000;

    pub const CONFIG_ALLOW_LIMITED_MOVE: u32 = 0x1000_0000;

    pub const CONFIG_ALLOW_MOVE: u32 = 0x2000_0000;

    pub const CONFIG_ALLOW_RENAME: u32 = 0x4000_0000;

    pub const DISALLOW_DELETE: u32 = 0x8000_0000;

    /// Every bit that has a name.
    pub const ALL: u32 = 0xFE00_003F;

    /// The flags with their names, in the order in which the text form
    /// lists them.
    pub open spec fn table() -> Seq<FlagName> {
        seq![
            FlagName { bits: 0x0000_0000_0000_0001, name: "AttrNotReplicated" },
            FlagName { bits: 0x0000_0000_0000_0002, name: "AttrReqPartialSetMember" },
            FlagName { bits: 0x0000_0000_0000_0004, name: "AttrIsConstructed" },
            FlagName { bits: 0x0000_0000_0000_0008, name: "AttrIsOperational" },
            FlagName { bits: 0x0000_0000_0000_0010, name: "SchemaBaseObject" },
            FlagName { bits: 0x0000_0000_0000_0020, name: "AttrIsRdn" },
            FlagName { bits: 0x0000_0000_0200_0000, name: "DisallowMoveOnDelete" },
            FlagName { bits: 0x0000_0000_0400_0000, name: "DomainDisallowMove" },
            FlagName { bits: 0x0000_0000_0800_0000, name: "DomainDisallowRename" },
            FlagName { bits: 0x0000_0000_1000_0000, name: "ConfigAllowLimitedMove" },
            FlagName { bits: 0x0000_0000_2000_0000, name: "ConfigAllowMove" },
            FlagName { bits: 0x0000_0000_4000_0000, name: "ConfigAllowRename" },
            FlagName { bits: 0x0000_0000_8000_0000, name: "DisallowDelete" },
        ]
    }

    /// The text form: the name of the type and, in brackets, the names of
    /// the flags that are set and the bits without a name.
    pub open spec fn text(self) -> Seq<char> {
        "AttributeSchemaSystemFlags("@ + flags_text(AttributeSchemaSystemFlags::table(), self.bits as u64) + ")"@
    }

    /// Whether every bit of `flag` is set.
    pub open spec fn has(self, flag: u32) -> bool {
        self.bits & flag == flag
    }

    /// The flags with their names.
    pub fn names() -> (r: Vec<FlagName>)
        ensures
            r@ == AttributeSchemaSystemFlags::table(),
    {
        let r: Vec<FlagName> = vec![
            FlagName { bits: 0x0000_0000_0000_0001, name: "AttrNotReplicated" },
            FlagName { bits: 0x0000_0000_0000_0002, name: "AttrReqPartialSetMember" },
            FlagName { bits: 0x0000_0000_0000_0004, name: "AttrIsConstructed" },
            FlagName { bits: 0x0000_0000_0000_0008, name: "AttrIsOperational" },
            FlagName { bits: 0x0000_0000_0000_0010, name: "SchemaBaseObject" },
            FlagName { bits: 0x0000_0000_0000_0020, name: "AttrIsRdn" },
            FlagName { bits: 0x0000_0000_0200_0000, name: "DisallowMoveOnDelete" },
            FlagName { bits: 0x0000_0000_0400_0000, name: "DomainDisallowMove" },
            FlagName { bits: 0x0000_0000_0800_0000, name: "DomainDisallowRename" },
            FlagName { bits: 0x0000_0000_1000_0000, name: "ConfigAllowLimitedMove" },
            FlagName { bits: 0x0000_0000_2000_0000, name: "ConfigAllowMove" },
            FlagName { bits: 0x0000_0000_4000_0000, name: "ConfigAllowRename" },
            FlagName { bits: 0x0000_0000_8000_0000, name: "DisallowDelete" },
        ];
        assert(r@ =~= AttributeSchemaSystemFlags::table());
        r
    }

    /// The set with the given bits.
    pub fn from_bits_retain(bits: u32) -> (r: AttributeSchemaSystemFlags)
        ensures
            r.bits == bits,
    {
        AttributeSchemaSystemFlags { bits }
    }

    /// The bits of the set.
    pub fn bits(&self) -> (r: u32)
        ensures
            r == self.bits,
    {
        self.bits
    }

    /// Whether every bit of `flag` is set.
    pub fn contains(&self, flag: u32) -> (r: bool)
        ensures
            r == self.has(flag),
    {
        self.bits & flag == flag
    }

    /// Renders the text form.
    pub fn to_debug_string(&self) -> (r: String)
        ensures
            r@ == self.text(),
    {
        let mut out: String = "AttributeSchemaSystemFlags(".to_owned();
        out.append(describe_flags(AttributeSchemaSystemFlags::names().as_slice(), self.bits as u64).as_str());
        out.append(")");
        out
    }
}

/// How an object is instantiated on a server.
#[derive(Clone, Copy, Debug, PartialEq, Eq, Structural, Hash, PartialOrd, Ord)]
pub struct InstanceType {
    pub bits: u32,
}

impl InstanceType {
    pub const NC_HEAD: u32 = 0x0000_0001;

    pub const REPLICA_NOT_INSTANTIATED: u32 = 0x0000_0002;

    pub const WRITABLE: u32 = 0x0000_0004;

    pub const NC_ABOVE_HELD: u32 = 0x0000_0008;

    pub const NC_UNDER_CONSTRUCTION: u32 = 0x0000_0010;

    pub const NC_BEING_REMOVED: u32 = 0x0000_0020;

    /// Every bit that has a name.
    pub const ALL: u32 = 0x0000_003F;

    /// The flags with their names, in the order in which the text form
    /// lists them.
    pub open spec fn table() -> Seq<FlagName> {
        seq![
            FlagName { bits: 0x0000_0000_0000_0001, name: "NcHead" },
            FlagName { bits: 0x0000_0000_0000_0002, name: "ReplicaNotInstantiated" },
            FlagName { bits: 0x0000_0000_0000_0004, name: "Writable" },
            FlagName { bits: 0x0000_0000_0000_0008, name: "NcAboveHeld" },
            FlagName { bits: 0x0000_0000_0000_0010, name: "NcUnderConstruction" },
            FlagName { bits: 0x0000_0000_0000_0020, name: "NcBeingRemoved" },
        ]
    }

    /// The text form: the name of the type and, in brackets, the names of
    /// the flags that are set and the bits without a name.
    pub open spec fn text(self) -> Seq<char> {
        "InstanceType("@ + flags_text(InstanceType::table(), self.bits as u64) + ")"@
    }

    /// Whether every bit of `flag` is set.
    pub open spec fn has(self, flag: u32) -> bool {
        self.bits & flag == flag
    }

    /// The flags with their names.
    pub fn names() -> (r: Vec<FlagName>)
        ensures
            r@ == InstanceType::table(),
    {
        let r: Vec<FlagName> = vec![
            FlagName { bits: 0x0000_0000_0000_0001, name: "NcHead" },
            FlagName { bits: 0x0000_0000_0000_0002, name: "ReplicaNotInstantiated" },
            FlagName { bits: 0x0000_0000_0000_0004, name: "Writable" },
            FlagName { bits: 0x0000_0000_0000_0008, name: "NcAboveHeld" },
            FlagName { bits: 0x0000_0000_0000_0010, name: "NcUnderConstruction" },
            FlagName { bits: 0x0000_0000_0000_0020, name: "NcBeingRemoved" },
        ];
        assert(r@ =~= InstanceType::table());
        r
    }

    /// The set with the given bits.
    pub fn from_bits_retain(bits: u32) -> (r: InstanceType)
        ensures
            r.bits == bits,
    {
        InstanceType { bits }
    }

    /// The bits of the set.
    pub fn bits(&self) -> (r: u32)
        ensures
            r == self.bits,
    {
        self.bits
    }

    /// Whether every bit of `flag` is set.
    pub fn contains(&self, flag: u32) -> (r: bool)
        ensures
            r == self.has(flag),
    {
        self.bits & flag == flag
    }

    /// Renders the text form.
    pub fn to_debug_string(&self) -> (r: String)
        ensures
            r@ == self.text(),
    {
        let mut out: String = "InstanceType(".to_owned();
        out.append(describe_flags(InstanceType::names().as_slice(), self.bits as u64).as_str());
        out.append(")");
        out
    }
}

/// The scope of an optional feature.
#[derive(Clone, Copy, Debug, PartialEq, Eq, Structural, Hash, PartialOrd, Ord)]
pub struct OptionalFeatureFlags {
    pub bits: u32,
}

impl OptionalFeatureFlags {
    pub const FOREST: u32 = 0x0000_0001;

    pub const DOMAIN: u32 = 0x0000_0002;

    pub const DISABLABLE: u32 = 0x0000_0004;

    pub const SERVER: u32 = 0x0000_0008;

    /// Every bit that has a name.
    pub const ALL: u32 = 0x0000_000F;

    /// The flags with their names, in the order in which the text form
    /// lists them.
    pub open spec fn table() -> Seq<FlagName> {
        seq![
            FlagName { bits: 0x0000_0000_0000_0001, name: "Forest" },
            FlagName { bits: 0x0000_0000_0000_0002, name: "Domain" },
            FlagName { bits: 0x0000_0000_0000_0004, name: "Disablable" },
            FlagName { bits: 0x0000_0000_0000_0008, name: "Server" },
        ]
    }

    /// The text form: the name of the type and, in brackets, the names of
    /// the flags that are set and the bits without a name.
    pub open spec fn text(self) -> Seq<char> {
        "OptionalFeatureFlags("@ + flags_text(OptionalFeatureFlags::table(), self.bits as u64) + ")"@
    }

    /// Whether every bit of `flag` is set.
    pub open spec fn has(self, flag: u32) -> bool {
        self.bits & flag == flag
    }

    /// The flags with their names.
    pub fn names() -> (r: Vec<FlagName>)
        ensures
            r@ == OptionalFeatureFlags::table(),
    {
        let r: Vec<FlagName> = vec![
            FlagName { bits: 0x0000_0000_0000_0001, name: "Forest" },
            FlagName { bits: 0x0000_0000_0000_0002, name: "Domain" },
            FlagName { bits: 0x0000_0000_0000_0004, name: "Disablable" },
            FlagName { bits: 0x0000_0000_0000_0008, name: "Server" },
        ];
        assert(r@ =~= OptionalFeatureFlags::table());
        r
    }

    /// The set with the given bits.
    pub fn from_bits_retain(bits: u32) -> (r: OptionalFeatureFlags)
        ensures
            r.bits == bits,
    {
        OptionalFeatureFlags { bits }
    }

    /// The bits of the set.
    pub fn bits(&self) -> (r: u32)
        ensures
            r == self.bits,
    {
        self.bits
    }

    /// Whether every bit of `flag` is set.
    pub fn contains(&self, flag: u32) -> (r: bool)
        ensures
            r == self.has(flag),
    {
        self.bits & flag == flag
    }

    /// Renders the text form.
    pub fn to_debug_string(&self) -> (r: String)
        ensures
            r@ == self.text(),
    {
        let mut out: String = "OptionalFeatureFlags(".to_owned();
        out.append(describe_flags(OptionalFeatureFlags::names().as_slice(), self.bits as u64).as_str());
        out.append(")");
        out
    }
}

/// The password policy of a domain.
#[derive(Clone, Copy, Debug, PartialEq, Eq, Structural, Hash, PartialOrd, Ord)]
pub struct PasswordProperties {
    pub bits: u32,
}

impl PasswordProperties {
    pub const COMPLEX: u32 = 0x0000_0001;

    pub const NO_ANON_CHANGE: u32 = 0x0000_0002;

    pub const NO_CLEAR_CHANGE: u32 = 0x0000_0004;

    pub const LOCKOUT_ADMINS: u32 = 0x0000_0008;

    pub const STORE_CLEARTEXT: u32 = 0x0000_0010;

    pub const REFUSE_CHANGE: u32 = 0x0000_0020;

    pub const NO_LWM_OWF_CHANGE: u32 = 0x0000_0040;

    /// Every bit that has a name.
    pub const ALL: u32 = 0x0000_007F;

    /// The flags with their names, in the order in which the text form
    /// lists them.
    pub open spec fn table() -> Seq<FlagName> {
        seq![
            FlagName { bits: 0x0000_0000_0000_0001, name: "Complex" },
            FlagName { bits: 0x0000_0000_0000_0002, name: "NoAnonChange" },
            FlagName { bits: 0x0000_0000_0000_0004, name: "NoClearChange" },
            FlagName { bits: 0x0000_0000_0000_0008, name: "LockoutAdmins" },
            FlagName { bits: 0x0000_0000_0000_0010, name: "StoreCleartext" },
            FlagName { bits: 0x0000_0000_0000_0020, name: "RefuseChange" },
            FlagName { bits: 0x0000_0000_0000_0040, name: "NoLwmOwfChange" },
        ]
    }

    /// The text form: the name of the type and, in brackets, the names of
    /// the flags that are set and the bits without a name.
    pub open spec fn text(self) -> Seq<char> {
        "PasswordProperties("@ + flags_text(PasswordProperties::table(), self.bits as u64) + ")"@
    }

    /// Whether every bit of `flag` is set.
    pub open spec fn has(self, flag: u32) -> bool {
        self.bits & flag == flag
    }

    /// The flags with their names.
    pub fn names() -> (r: Vec<FlagName>)
        ensures
            r@ == PasswordProperties::table(),
    {
        let r: Vec<FlagName> = vec![
            FlagName { bits: 0x0000_0000_0000_0001, name: "Complex" },
            FlagName { bits: 0x0000_0000_0000_0002, name: "NoAnonChange" },
            FlagName { bits: 0x0000_0000_0000_0004, name: "NoClearChange" },
            FlagName { bits: 0x0000_0000_0000_0008, name: "LockoutAdmins" },
            FlagName { bits: 0x0000_0000_0000_0010, name: "StoreCleartext" },
            FlagName { bits: 0x0000_0000_0000_0020, name: "RefuseChange" },
            FlagName { bits: 0x0000_0000_0000_0040, name: "NoLwmOwfChange" },
        ];
        assert(r@ =~= PasswordProperties::table());
        r
    }

    /// The set with the given bits.
    pub fn from_bits_retain(bits: u32) -> (r: PasswordProperties)
        ensures
            r.bits == bits,
    {
        PasswordProperties { bits }
    }

    /// The bits of the set.
    pub fn bits(&self) -> (r: u32)
        ensures
            r == self.bits,
    {
        self.bits
    }

    /// Whether every bit of `flag` is set.
    pub fn contains(&self, flag: u32) -> (r: bool)
        ensures
            r == self.has(flag),
    {
        self.bits & flag == flag
    }

    /// Renders the text form.
    pub fn to_debug_string(&self) -> (r: String)
        ensures
            r@ == self.text(),
    {
        let mut out: String = "PasswordProperties(".to_owned();
        out.append(describe_flags(PasswordProperties::names().as_slice(), self.bits as u64).as_str());
        out.append(")");
        out
    }
}

/// How an attribute is indexed and searched.
#[derive(Clone, Copy, Debug, PartialEq, Eq, Structural, Hash, PartialOrd, Ord)]
pub struct SearchFlags {
    pub bits: u32,
}

impl SearchFlags {
    pub const INDEX: u32 = 0x0000_0001;

    pub const CONTAINER_INDEX: u32 = 0x0000_0002;

    pub const AMBIGUOUS_NAME_RESOLUTION: u32 = 0x0000_0004;

    pub const PRESERVE_ON_DELETE: u32 = 0x0000_0008;

    pub const COPY: u32 = 0x0000_0010;

    pub const TUPLE_INDEX: u32 = 0x0000_0020;

    pub const SUBTREE_INDEX: u32 = 0x0000_0040;

    pub const CONFIDENTIAL: u32 = 0x0000_0080;

    pub const NEVER_AUDIT_VALUE: u32 = 0x0000_0100;

    pub const RODC_FILTERED: u32 = 0x0000_0200;

    pub const EXTENDED_LINK_TRACKING: u32 = 0x0000_0400;

    pub const BASE_ONLY: u32 = 0x0000_0800;

    pub const PARTITION_SECRET: u32 = 0x0000_1000;

    /// Every bit that has a name.
    pub const ALL: u32 = 0x0000_1FFF;

    /// The flags with their names, in the order in which the text form
    /// lists them.
    pub open spec fn table() -> Seq<FlagName> {
        seq![
            FlagName { bits: 0x0000_0000_0000_0001, name: "Index" },
            FlagName { bits: 0x0000_0000_0000_0002, name: "ContainerIndex" },
            FlagName { bits: 0x0000_0000_0000_0004, name: "AmbiguousNameResolution" },
            FlagName { bits: 0x0000_0000_0000_0008, name: "PreserveOnDelete" },
            FlagName { bits: 0x0000_0000_0000_0010, name: "Copy" },
            FlagName { bits: 0x0000_0000_0000_0020, name: "TupleIndex" },
            FlagName { bits: 0x0000_0000_0000_0040, name: "SubtreeIndex" },
            FlagName { bits: 0x0000_0000_0000_0080, name: "Confidential" },
            FlagName { bits: 0x0000_0000_0000_0100, name: "NeverAuditValue" },
            FlagName { bits: 0x0000_0000_0000_0200, name: "RodcFiltered" },
            FlagName { bits: 0x0000_0000_0000_0400, name: "ExtendedLinkTracking" },
            FlagName { bits: 0x0000_0000_0000_0800, name: "BaseOnly" },
            FlagName { bits: 0x0000_0000_0000_1000, name: "PartitionSecret" },
        ]
    }

    /// The text form: the name of the type and, in brackets, the names of
    /// the flags that are set and the bits without a name.
    pub open spec fn text(self) -> Seq<char> {
        "SearchFlags("@ + flags_text(SearchFlags::table(), self.bits as u64) + ")"@
    }

    /// Whether every bit of `flag` is set.
    pub open spec fn has(self, flag: u32) -> bool {
        self.bits & flag == flag
    }

    /// The flags with their names.
    pub fn names() -> (r: Vec<FlagName>)
        ensures
            r@ == SearchFlags::table(),
    {
        let r: Vec<FlagName> = vec![
            FlagName { bits: 0x0000_0000_0000_0001, name: "Index" },
            FlagName { bits: 0x0000_0000_0000_0002, name: "ContainerIndex" },
            FlagName { bits: 0x0000_0000_0000_0004, name: "AmbiguousNameResolution" },
            FlagName { bits: 0x0000_0000_0000_0008, name: "PreserveOnDelete" },
            FlagName { bits: 0x0000_0000_0000_0010, name: "Copy" },
            FlagName { bits: 0x0000_0000_0000_0020, name: "TupleIndex" },
            FlagName { bits: 0x0000_0000_0000_0040, name: "SubtreeIndex" },
            FlagName { bits: 0x0000_0000_0000_0080, name: "Confidential" },
            FlagName { bits: 0x0000_0000_0000_0100, name: "NeverAuditValue" },
            FlagName { bits: 0x0000_0000_0000_0200, name: "RodcFiltered" },
            FlagName { bits: 0x0000_0000_0000_0400, name: "ExtendedLinkTracking" },
            FlagName { bits: 0x0000_0000_0000_0800, name: "BaseOnly" },
            FlagName { bits: 0x0000_0000_0000_1000, name: "PartitionSecret" },
        ];
        assert(r@ =~= SearchFlags::table());
        r
    }

    /// The set with the given bits.
    pub fn from_bits_retain(bits: u32) -> (r: SearchFlags)
        ensures
            r.bits == bits,
    {
        SearchFlags { bits }
    }

    /// The bits of the set.
    pub fn bits(&self) -> (r: u32)
        ensures
            r == self.bits,
    {
        self.bits
    }

    /// Whether every bit of `flag` is set.
    pub fn contains(&self, flag: u32) -> (r: bool)
        ensures
            r == self.has(flag),
    {
        self.bits & flag == flag
    }

    /// Renders the text form.
    pub fn to_debug_string(&self) -> (r: String)
        ensures
            r@ == self.text(),
    {
        let mut out: String = "SearchFlags(".to_owned();
        out.append(describe_flags(SearchFlags::names().as_slice(), self.bits as u64).as_str());
        out.append(")");
        out
    }
}

/// The options of a transport between sites.
#[derive(Clone, Copy, Debug, PartialEq, Eq, Structural, Hash, PartialOrd, Ord)]
pub struct InterSiteTransportOptions {
    pub bits: u32,
}

impl InterSiteTransportOptions {
    pub const IGNORE_SCHEDULES: u32 = 0x0000_0001;

    pub const BRIDGES_REQUIRED: u32 = 0x0000_0002;

    /// Every bit that has a name.
    pub const ALL: u32 = 0x0000_0003;

    /// The flags with their names, in the order in which the text form
    /// lists them.
    pub open spec fn table() -> Seq<FlagName> {
        seq![
            FlagName { bits: 0x0000_0000_0000_0001, name: "IgnoreSchedules" },
            FlagName { bits: 0x0000_0000_0000_0002, name: "BridgesRequired" },
        ]
    }

    /// The text form: the name of the type and, in brackets, the names of
    /// the flags that are set and the bits without a name.
    pub open spec fn text(self) -> Seq<char> {
        "InterSiteTransportOptions("@ + flags_text(InterSiteTransportOptions::table(), self.bits as u64) + ")"@
    }

    /// Whether every bit of `flag` is set.
    pub open spec fn has(self, flag: u32) -> bool {
        self.bits & flag == flag
    }

    /// The flags with their names.
    pub fn names() -> (r: Vec<FlagName>)
        ensures
            r@ == InterSiteTransportOptions::table(),
    {
        let r: Vec<FlagName> = vec![
            FlagName { bits: 0x0000_0000_0000_0001, name: "IgnoreSchedules" },
            FlagName { bits: 0x0000_0000_0000_0002, name: "BridgesRequired" },
        ];
        assert(r@ =~= InterSiteTransportOptions::table());
        r
    }

    /// The set with the given bits.
    pub fn from_bits_retain(bits: u32) -> (r: InterSiteTransportOptions)
        ensures
            r.bits == bits,
    {
        InterSiteTransportOptions { bits }
    }

    /// The bits of the set.
    pub fn bits(&self) -> (r: u32)
        ensures
            r == self.bits,
    {
        self.bits
    }

    /// Whether every bit of `flag` is set.
    pub fn contains(&self, flag: u32) -> (r: bool)
        ensures
            r == self.has(flag),
    {
        self.bits & flag == flag
    }

    /// Renders the text form.
    pub fn to_debug_string(&self) -> (r: String)
        ensures
            r@ == self.text(),
    {
        let mut out: String = "InterSiteTransportOptions(".to_owned();
        out.append(describe_flags(InterSiteTransportOptions::names().as_slice(), self.bits as u64).as_str());
        out.append(")");
        out
    }
}

/// The options of a replication connection.
#[derive(Clone, Copy, Debug, PartialEq, Eq, Structural, Hash, PartialOrd, Ord)]
pub struct DsConnectionOptions {
    pub bits: u32,
}

impl DsConnectionOptions {
    pub const GENERATED: u32 = 0x0000_0001;

    pub const TWO_WAY_SYNC: u32 = 0x0000_0002;

    pub const OVERRIDE_NOTIFY_DEFAULT: u32 = 0x0000_0004;

    pub const USE_NOTIFY: u32 = 0x0000_0008;

    pub const DISABLE_INTERSITE_COMPRESSION: u32 = 0x0000_0010;

    pub const USER_OWNED_SCHEDULE: u32 = 0x0000_0020;

    pub const RODC_TOPOLOGY: u32 = 0x0000_0040;

    /// Every bit that has a name.
    pub const ALL: u32 = 0x0000_007F;

    /// The flags with their names, in the order in which the text form
    /// lists them.
    pub open spec fn table() -> Seq<FlagName> {
        seq![
            FlagName { bits: 0x0000_0000_0000_0001, name: "Generated" },
            FlagName { bits: 0x0000_0000_0000_0002, name: "TwoWaySync" },
            FlagName { bits: 0x0000_0000_0000_0004, name: "OverrideNotifyDefault" },
            FlagName { bits: 0x0000_0000_0000_0008, name: "UseNotify" },
            FlagName { bits: 0x0000_0000_0000_0010, name: "DisableIntersiteCompression" },
            FlagName { bits: 0x0000_0000_0000_0020, name: "UserOwnedSchedule" },
            FlagName { bits: 0x0000_0000_0000_0040, name: "RodcTopology" },
        ]
    }

    /// The text form: the name of the type and, in brackets, the names of
    /// the flags that are set and the bits without a name.
    pub open spec fn text(self) -> Seq<char> {
        "DsConnectionOptions("@ + flags_text(DsConnectionOptions::table(), self.bits as u64) + ")"@
    }

    /// Whether every bit of `flag` is set.
    pub open spec fn has(self, flag: u32) -> bool {
        self.bits & flag == flag
    }

    /// The flags with their names.
    pub fn names() -> (r: Vec<FlagName>)
        ensures
            r@ == DsConnectionOptions::table(),
    {
        let r: Vec<FlagName> = vec![
            FlagName { bits: 0x0000_0000_0000_0001, name: "Generated" },
            FlagName { bits: 0x0000_0000_0000_0002, name: "TwoWaySync" },
            FlagName { bits: 0x0000_0000_0000_0004, name: "OverrideNotifyDefault" },
            FlagName { bits: 0x0000_0000_0000_0008, name: "UseNotify" },
            FlagName { bits: 0x0000_0000_0000_0010, name: "DisableIntersiteCompression" },
            FlagName { bits: 0x0000_0000_0000_0020, name: "UserOwnedSchedule" },
            FlagName { bits: 0x0000_0000_0000_0040, name: "RodcTopology" },
        ];
        assert(r@ =~= DsConnectionOptions::table());
        r
    }

    /// The set with the given bits.
    pub fn from_bits_retain(bits: u32) -> (r: DsConnectionOptions)
        ensures
            r.bits == bits,
    {
        DsConnectionOptions { bits }
    }

    /// The bits of the set.
    pub fn bits(&self) -> (r: u32)
        ensures
            r == self.bits,
    {
        self.bits
    }

    /// Whether every bit of `flag` is set.
    pub fn contains(&self, flag: u32) -> (r: bool)
        ensures
            r == self.has(flag),
    {
        self.bits & flag == flag
    }

    /// Renders the text form.
    pub fn to_debug_string(&self) -> (r: String)
        ensures
            r@ == self.text(),
    {
        let mut out: String = "DsConnectionOptions(".to_owned();
        out.append(describe_flags(DsConnectionOptions::names().as_slice(), self.bits as u64).as_str());
        out.append(")");
        out
    }
}

/// The options of a directory service agent.
#[derive(Clone, Copy, Debug, PartialEq, Eq, Structural, Hash, PartialOrd, Ord)]
pub struct DsaSettingsOptions {
    pub bits: u32,
}

impl DsaSettingsOptions {
    pub const IS_GC: u32 = 0x0000_0001;

    pub const DISABLE_INBOUND_REPLICATION: u32 = 0x0000_0002;

    pub const DISABLE_OUTBOUND_REPLICATION: u32 = 0x0000_0004;

    pub const DISABLE_NTDSCONN_TRANSLATION: u32 = 0x0000_0008;

    pub const DISABLE_SPN_REGISTRATION: u32 = 0x0000_0010;

    pub const GENERATE_OWN_TOPOLOGY: u32 = 0x0000_0020;

    /// Every bit that has a name.
    pub const ALL: u32 = 0x0000_003F;

    /// The flags with their names, in the order in which the text form
    /// lists them.
    pub open spec fn table() -> Seq<FlagName> {
        seq![
            FlagName { bits: 0x0000_0000_0000_0001, name: "IsGc" },
            FlagName { bits: 0x0000_0000_0000_0002, name: "DisableInboundReplication" },
            FlagName { bits: 0x0000_0000_0000_0004, name: "DisableOutboundReplication" },
            FlagName { bits: 0x0000_0000_0000_0008, name: "DisableNtdsconnTranslation" },
            FlagName { bits: 0x0000_0000_0000_0010, name: "DisableSpnRegistration" },
            FlagName { bits: 0x0000_0000_0000_0020, name: "GenerateOwnTopology" },
        ]
    }

    /// The text form: the name of the type and, in brackets, the names of
    /// the flags that are set and the bits without a name.
    pub open spec fn text(self) -> Seq<char> {
        "DsaSettingsOptions("@ + flags_text(DsaSettingsOptions::table(), self.bits as u64) + ")"@
    }

    /// Whether every bit of `flag` is set.
    pub open spec fn has(self, flag: u32) -> bool {
        self.bits & flag == flag
    }

    /// The flags with their names.
    pub fn names() -> (r: Vec<FlagName>)
        ensures
            r@ == DsaSettingsOptions::table(),
    {
        let r: Vec<FlagName> = vec![
            FlagName { bits: 0x0000_0000_0000_0001, name: "IsGc" },
            FlagName { bits: 0x0000_0000_0000_0002, name: "DisableInboundReplication" },
            FlagName { bits: 0x0000_0000_0000_0004, name: "DisableOutboundReplication" },
            FlagName { bits: 0x0000_0000_0000_0008, name: "DisableNtdsconnTranslation" },
            FlagName { bits: 0x0000_0000_0000_0010, name: "DisableSpnRegistration" },
            FlagName { bits: 0x0000_0000_0000_0020, name: "GenerateOwnTopology" },
        ];
        assert(r@ =~= DsaSettingsOptions::table());
        r
    }

    /// The set with the given bits.
    pub fn from_bits_retain(bits: u32) -> (r: DsaSettingsOptions)
        ensures
            r.bits == bits,
    {
        DsaSettingsOptions { bits }
    }

    /// The bits of the set.
    pub fn bits(&self) -> (r: u32)
        ensures
            r == self.bits,
    {
        self.bits
    }

    /// Whether every bit of `flag` is set.
    pub fn contains(&self, flag: u32) -> (r: bool)
        ensures
            r == self.has(flag),
    {
        self.bits & flag == flag
    }

    /// Renders the text form.
    pub fn to_debug_string(&self) -> (r: String)
        ensures
            r@ == self.text(),
    {
        let mut out: String = "DsaSettingsOptions(".to_owned();
        out.append(describe_flags(DsaSettingsOptions::names().as_slice(), self.bits as u64).as_str());
        out.append(")");
        out
    }
}

/// The options of the settings of a site.
#[derive(Clone, Copy, Debug, PartialEq, Eq, Structural, Hash, PartialOrd, Ord)]
pub struct SiteSettingsOptions {
    pub bits: u32,
}

impl SiteSettingsOptions {
    pub const AUTO_TOPOLOGY_DISABLED: u32 = 0x0000_0001;

    pub const TOPOLOGY_CLEANUP_DISABLED: u32 = 0x0000_0002;

    pub const MIN_HOPS_TOPOLOGY_DISABLED: u32 = 0x0000_0004;

    pub const DETECT_STALE_DISABLED: u32 = 0x0000_0008;

    pub const INTER_SITE_AUTO_TOPOLOGY_DISABLED: u32 = 0x0000_0010;

    pub const GROUP_CACHING_ENABLED: u32 = 0x0000_0020;

    pub const FORCE_KCC_WHISTLER_BEHAVIOR: u32 = 0x0000_0040;

    pub const FORCE_KCC_W2K_ELECTION: u32 = 0x0000_0080;

    pub const RANDOM_BRIDGEHEAD_SELECTION_DISABLED: u32 = 0x0000_0100;

    pub const SCHEDULE_HASHING_ENABLED: u32 = 0x0000_0200;

    pub const REDUNDANT_SERVER_TOPOLOGY_ENABLED: u32 = 0x0000_0400;

    /// Every bit that has a name.
    pub const ALL: u32 = 0x0000_07FF;

    /// The flags with their names, in the order in which the text form
    /// lists them.
    pub open spec fn table() -> Seq<FlagName> {
        seq![
            FlagName { bits: 0x0000_0000_0000_0001, name: "AutoTopologyDisabled" },
            FlagName { bits: 0x0000_0000_0000_0002, name: "TopologyCleanupDisabled" },
            FlagName { bits: 0x0000_0000_0000_0004, name: "MinHopsTopologyDisabled" },
            FlagName { bits: 0x0000_0000_0000_0008, name: "DetectStaleDisabled" },
            FlagName { bits: 0x0000_0000_0000_0010, name: "InterSiteAutoTopologyDisabled" },
            FlagName { bits: 0x0000_0000_0000_0020, name: "GroupCachingEnabled" },
            FlagName { bits: 0x0000_0000_0000_0040, name: "ForceKccWhistlerBehavior" },
            FlagName { bits: 0x0000_0000_0000_0080, name: "ForceKccW2kElection" },
            FlagName { bits: 0x0000_0000_0000_0100, name: "RandomBridgeheadSelectionDisabled" },
            FlagName { bits: 0x0000_0000_0000_0200, name: "ScheduleHashingEnabled" },
            FlagName { bits: 0x0000_0000_0000_0400, name: "RedundantServerTopologyEnabled" },
        ]
    }

    /// The text form: the name of the type and, in brackets, the names of
    /// the flags that are set and the bits without a name.
    pub open spec fn text(self) -> Seq<char> {
        "SiteSettingsOptions("@ + flags_text(SiteSettingsOptions::table(), self.bits as u64) + ")"@
    }

    /// Whether every bit of `flag` is set.
    pub open spec fn has(self, flag: u32) -> bool {
        self.bits & flag == flag
    }

    /// The flags with their names.
    pub fn names() -> (r: Vec<FlagName>)
        ensures
            r@ == SiteSettingsOptions::table(),
    {
        let r: Vec<FlagName> = vec![
            FlagName { bits: 0x0000_0000_0000_0001, name: "AutoTopologyDisabled" },
            FlagName { bits: 0x0000_0000_0000_0002, name: "TopologyCleanupDisabled" },
            FlagName { bits: 0x0000_0000_0000_0004, name: "MinHopsTopologyDisabled" },
            FlagName { bits: 0x0000_0000_0000_0008, name: "DetectStaleDisabled" },
            FlagName { bits: 0x0000_0000_0000_0010, name: "InterSiteAutoTopologyDisabled" },
            FlagName { bits: 0x0000_0000_0000_0020, name: "GroupCachingEnabled" },
            FlagName { bits: 0x0000_0000_0000_0040, name: "ForceKccWhistlerBehavior" },
            FlagName { bits: 0x0000_0000_0000_0080, name: "ForceKccW2kElection" },
            FlagName { bits: 0x0000_0000_0000_0100, name: "RandomBridgeheadSelectionDisabled" },
            FlagName { bits: 0x0000_0000_0000_0200, name: "ScheduleHashingEnabled" },
            FlagName { bits: 0x0000_0000_0000_0400, name: "RedundantServerTopologyEnabled" },
        ];
        assert(r@ =~= SiteSettingsOptions::table());
        r
    }

    /// The set with the given bits.
    pub fn from_bits_retain(bits: u32) -> (r: SiteSettingsOptions)
        ensures
            r.bits == bits,
    {
        SiteSettingsOptions { bits }
    }

    /// The bits of the set.
    pub fn bits(&self) -> (r: u32)
        ensures
            r == self.bits,
    {
        self.bits
    }

    /// Whether every bit of `flag` is set.
    pub fn contains(&self, flag: u32) -> (r: bool)
        ensures
            r == self.has(flag),
    {
        self.bits & flag == flag
    }

    /// Renders the text form.
    pub fn to_debug_string(&self) -> (r: String)
        ensures
            r@ == self.text(),
    {
        let mut out: String = "SiteSettingsOptions(".to_owned();
        out.append(describe_flags(SiteSettingsOptions::names().as_slice(), self.bits as u64).as_str());
        out.append(")");
        out
    }
}

/// The options of a connection or a link between sites.
#[derive(Clone, Copy, Debug, PartialEq, Eq, Structural, Hash, PartialOrd, Ord)]
pub struct SiteConnectionOptions {
    pub bits: u32,
}

impl SiteConnectionOptions {
    pub const USE_NOTIFY: u32 = 0x0000_0001;

    pub const TWO_WAY_SYNC: u32 = 0x0000_0002;

    pub const DISABLE_COMPRESSION: u32 = 0x0000_0004;

    /// Every bit that has a name.
    pub const ALL: u32 = 0x0000_0007;

    /// The flags with their names, in the order in which the text form
    /// lists them.
    pub open spec fn table() -> Seq<FlagName> {
        seq![
            FlagName { bits: 0x0000_0000_0000_0001, name: "UseNotify" },
            FlagName { bits: 0x0000_0000_0000_0002, name: "TwoWaySync" },
            FlagName { bits: 0x0000_0000_0000_0004, name: "DisableCompression" },
        ]
    }

    /// The text form: the name of the type and, in brackets, the names of
    /// the flags that are set and the bits without a name.
    pub open spec fn text(self) -> Seq<char> {
        "SiteConnectionOptions("@ + flags_text(SiteConnectionOptions::table(), self.bits as u64) + ")"@
    }

    /// Whether every bit of `flag` is set.
    pub open spec fn has(self, flag: u32) -> bool {
        self.bits & flag == flag
    }

    /// The flags with their names.
    pub fn names() -> (r: Vec<FlagName>)
        ensures
            r@ == SiteConnectionOptions::table(),
    {
        let r: Vec<FlagName> = vec![
            FlagName { bits: 0x0000_0000_0000_0001, name: "UseNotify" },
            FlagName { bits: 0x0000_0000_0000_0002, name: "TwoWaySync" },
            FlagName { bits: 0x0000_0000_0000_0004, name: "DisableCompression" },
        ];
        assert(r@ =~= SiteConnectionOptions::table());
        r
    }

    /// The set with the given bits.
    pub fn from_bits_retain(bits: u32) -> (r: SiteConnectionOptions)
        ensures
            r.bits == bits,
    {
        SiteConnectionOptions { bits }
    }

    /// The bits of the set.
    pub fn bits(&self) -> (r: u32)
        ensures
            r == self.bits,
    {
        self.bits
    }

    /// Whether every bit of `flag` is set.
    pub fn contains(&self, flag: u32) -> (r: bool)
        ensures
            r == self.has(flag),
    {
        self.bits & flag == flag
    }

    /// Renders the text form.
    pub fn to_debug_string(&self) -> (r: String)
        ensures
            r@ == self.text(),
    {
        let mut out: String = "SiteConnectionOptions(".to_owned();
        out.append(describe_flags(SiteConnectionOptions::names().as_slice(), self.bits as u64).as_str());
        out.append(")");
        out
    }
}

/// The direction of a trust.
#[derive(Clone, Copy, Debug, PartialEq, Eq, Structural, Hash, PartialOrd, Ord)]
pub struct TrustDirection {
    pub bits: u32,
}

impl TrustDirection {
    pub const INBOUND: u32 = 0x0000_0001;

    pub const OUTBOUND: u32 = 0x0000_0002;

    /// Every bit that has a name.
    pub const ALL: u32 = 0x0000_0003;

    /// The flags with their names, in the order in which the text form
    /// lists them.
    pub open spec fn table() -> Seq<FlagName> {
        seq![
            FlagName { bits: 0x0000_0000_0000_0001, name: "Inbound" },
            FlagName { bits: 0x0000_0000_0000_0002, name: "Outbound" },
        ]
    }

    /// The text form: the name of the type and, in brackets, the names of
    /// the flags that are set and the bits without a name.
    pub open spec fn text(self) -> Seq<char> {
        "TrustDirection("@ + flags_text(TrustDirection::table(), self.bits as u64) + ")"@
    }

    /// Whether every bit of `flag` is set.
    pub open spec fn has(self, flag: u32) -> bool {
        self.bits & flag == flag
    }

    /// The flags with their names.
    pub fn names() -> (r: Vec<FlagName>)
        ensures
            r@ == TrustDirection::table(),
    {
        let r: Vec<FlagName> = vec![
            FlagName { bits: 0x0000_0000_0000_0001, name: "Inbound" },
            FlagName { bits: 0x0000_0000_0000_0002, name: "Outbound" },
        ];
        assert(r@ =~= TrustDirection::table());
        r
    }

    /// The set with the given bits.
    pub fn from_bits_retain(bits: u32) -> (r: TrustDirection)
        ensures
            r.bits == bits,
    {
        TrustDirection { bits }
    }

    /// The bits of the set.
    pub fn bits(&self) -> (r: u32)
        ensures
            r == self.bits,
    {
        self.bits
    }

    /// Whether every bit of `flag` is set.
    pub fn contains(&self, flag: u32) -> (r: bool)
        ensures
            r == self.has(flag),
    {
        self.bits & flag == flag
    }

    /// Renders the text form.
    pub fn to_debug_string(&self) -> (r: String)
        ensures
            r@ == self.text(),
    {
        let mut out: String = "TrustDirection(".to_owned();
        out.append(describe_flags(TrustDirection::names().as_slice(), self.bits as u64).as_str());
        out.append(")");
        out
    }
}

/// The attributes of a trust.
#[derive(Clone, Copy, Debug, PartialEq, Eq, Structural, Hash, PartialOrd, Ord)]
pub struct TrustAttributes {
    pub bits: u32,
}

impl TrustAttributes {
    pub const NON_TRANSITIVE: u32 = 0x0000_0001;

    pub const UPLEVEL_ONLY: u32 = 0x0000_0002;

    pub const QUARANTINED_DOMAIN: u32 = 0x0000_0004;

    pub const FOREST_TRANSITIVE: u32 = 0x0000_0008;

    pub const CROSS_ORGANIZATION: u32 = 0x0000_0010;

    pub const WITHIN_FOREST: u32 = 0x0000_0020;

    pub const TREAT_AS_EXTERNAL: u32 = 0x0000_0040;

    pub const USES_RC4_ENCRYPTION: u32 = 0x0000_0080;

    pub const CROSS_ORGANIZATION_NO_TGT_DELEGATION: u32 = 0x0000_0200;

    pub const PRIVILEGED_IDENTITY_MANAGEMENT_TRUST: u32 = 0x0000_0400;

    pub const CROSS_ORGANIZATION_ENABLE_TGT_DELEGATION: u32 = 0x0000_0800;

    pub const DISABLE_AUTH_TARGET_VALIDATION: u32 = 0x0000_1000;

    /// Every bit that has a name.
    pub const ALL: u32 = 0x0000_1EFF;

    /// The flags with their names, in the order in which the text form
    /// lists them.
    pub open spec fn table() -> Seq<FlagName> {
        seq![
            FlagName { bits: 0x0000_0000_0000_0001, name: "NonTransitive" },
            FlagName { bits: 0x0000_0000_0000_0002, name: "UplevelOnly" },
            FlagName { bits: 0x0000_0000_0000_0004, name: "QuarantinedDomain" },
            FlagName { bits: 0x0000_0000_0000_0008, name: "ForestTransitive" },
            FlagName { bits: 0x0000_0000_0000_0010, name: "CrossOrganization" },
            FlagName { bits: 0x0000_0000_0000_0020, name: "WithinForest" },
            FlagName { bits: 0x0000_0000_0000_0040, name: "TreatAsExternal" },
            FlagName { bits: 0x0000_0000_0000_0080, name: "UsesRc4Encryption" },
            FlagName { bits: 0x0000_0000_0000_0200, name: "CrossOrganizationNoTgtDelegation" },
            FlagName { bits: 0x0000_0000_0000_0400, name: "PrivilegedIdentityManagementTrust" },
            FlagName { bits: 0x0000_0000_0000_0800, name: "CrossOrganizationEnableTgtDelegation" },
            FlagName { bits: 0x0000_0000_0000_1000, name: "DisableAuthTargetValidation" },
        ]
    }

    /// The text form: the name of the type and, in brackets, the names of
    /// the flags that are set and the bits without a name.
    pub open spec fn text(self) -> Seq<char> {
        "TrustAttributes("@ + flags_text(TrustAttributes::table(), self.bits as u64) + ")"@
    }

    /// Whether every bit of `flag` is set.
    pub open spec fn has(self, flag: u32) -> bool {
        self.bits & flag == flag
    }

    /// The flags with their names.
    pub fn names() -> (r: Vec<FlagName>)
        ensures
            r@ == TrustAttributes::table(),
    {
        let r: Vec<FlagName> = vec![
            FlagName { bits: 0x0000_0000_0000_0001, name: "NonTransitive" },
            FlagName { bits: 0x0000_0000_0000_0002, name: "UplevelOnly" },
            FlagName { bits: 0x0000_0000_0000_0004, name: "QuarantinedDomain" },
            FlagName { bits: 0x0000_0000_0000_0008, name: "ForestTransitive" },
            FlagName { bits: 0x0000_0000_0000_0010, name: "CrossOrganization" },
            FlagName { bits: 0x0000_0000_0000_0020, name: "WithinForest" },
            FlagName { bits: 0x0000_0000_0000_0040, name: "TreatAsExternal" },
            FlagName { bits: 0x0000_0000_0000_0080, name: "UsesRc4Encryption" },
            FlagName { bits: 0x0000_0000_0000_0200, name: "CrossOrganizationNoTgtDelegation" },
            FlagName { bits: 0x0000_0000_0000_0400, name: "PrivilegedIdentityManagementTrust" },
            FlagName { bits: 0x0000_0000_0000_0800, name: "CrossOrganizationEnableTgtDelegation" },
            FlagName { bits: 0x0000_0000_0000_1000, name: "DisableAuthTargetValidation" },
        ];
        assert(r@ =~= TrustAttributes::table());
        r
    }

    /// The set with the given bits.
    pub fn from_bits_retain(bits: u32) -> (r: TrustAttributes)
        ensures
            r.bits == bits,
    {
        TrustAttributes { bits }
    }

    /// The bits of the set.
    pub fn bits(&self) -> (r: u32)
        ensures
            r == self.bits,
    {
        self.bits
    }

    /// Whether every bit of `flag` is set.
    pub fn contains(&self, flag: u32) -> (r: bool)
        ensures
            r == self.has(flag),
    {
        self.bits & flag == flag
    }

    /// Renders the text form.
    pub fn to_debug_string(&self) -> (r: String)
        ensures
            r@ == self.text(),
    {
        let mut out: String = "TrustAttributes(".to_owned();
        out.append(describe_flags(TrustAttributes::names().as_slice(), self.bits as u64).as_str());
        out.append(")");
        out
    }
}

/// The encryption types that an account supports.
#[derive(Clone, Copy, Debug, PartialEq, Eq, Structural, Hash, PartialOrd, Ord)]
pub struct SupportedEncryptionTypes {
    pub bits: u32,
}

impl SupportedEncryptionTypes {
    pub const DES_CBC_CRC: u32 = 0x0000_0001;

    pub const DES_CBC_MD5: u32 = 0x0000_0002;

    pub const RC4_HMAC: u32 = 0x0000_0004;

    pub const AES128_CTS_HMAC_SHA1_96: u32 = 0x0000_0008;

    pub const AES256_CTS_HMAC_SHA1_96: u32 = 0x0000_0010;

    pub const AES256_CTS_HMAC_SHA1_96_SK: u32 = 0x0000_0020;

    pub const FAST_SUPPORTED: u32 = 0x0001_0000;

    pub const COMPOUND_IDENTITY_SUPPORTED: u32 = 0x0002_0000;

    pub const CLAIMS_SUPPORTED: u32 = 0x0004_0000;

    pub const RESOURCE_SID_COMPRESSION_DISABLED: u32 = 0x0008_0000;

    /// Every bit that has a name.
    pub const ALL: u32 = 0x000F_003F;

    /// The flags with their names, in the order in which the text form
    /// lists them.
    pub open spec fn table() -> Seq<FlagName> {
        seq![
            FlagName { bits: 0x0000_0000_0000_0001, name: "DesCbcCrc" },
            FlagName { bits: 0x0000_0000_0000_0002, name: "DesCbcMd5" },
            FlagName { bits: 0x0000_0000_0000_0004, name: "Rc4Hmac" },
            FlagName { bits: 0x0000_0000_0000_0008, name: "Aes128CtsHmacSha1_96" },
            FlagName { bits: 0x0000_0000_0000_0010, name: "Aes256CtsHmacSha1_96" },
            FlagName { bits: 0x0000_0000_0000_0020, name: "Aes256CtsHmacSha1_96Sk" },
            FlagName { bits: 0x0000_0000_0001_0000, name: "FastSupported" },
            FlagName { bits: 0x0000_0000_0002_0000, name: "CompoundIdentitySupported" },
            FlagName { bits: 0x0000_0000_0004_0000, name: "ClaimsSupported" },
            FlagName { bits: 0x0000_0000_0008_0000, name: "ResourceSidCompressionDisabled" },
        ]
    }

    /// The text form: the name of the type and, in brackets, the names of
    /// the flags that are set and the bits without a name.
    pub open spec fn text(self) -> Seq<char> {
        "SupportedEncryptionTypes("@ + flags_text(SupportedEncryptionTypes::table(), self.bits as u64) + ")"@
    }

    /// Whether every bit of `flag` is set.
    pub open spec fn has(self, flag: u32) -> bool {
        self.bits & flag == flag
    }

    /// The flags with their names.
    pub fn names() -> (r: Vec<FlagName>)
        ensures
            r@ == SupportedEncryptionTypes::table(),
    {
        let r: Vec<FlagName> = vec![
            FlagName { bits: 0x0000_0000_0000_0001, name: "DesCbcCrc" },
            FlagName { bits: 0x0000_0000_0000_0002, name: "DesCbcMd5" },
            FlagName { bits: 0x0000_0000_0000_0004, name: "Rc4Hmac" },
            FlagName { bits: 0x0000_0000_0000_0008, name: "Aes128CtsHmacSha1_96" },
            FlagName { bits: 0x0000_0000_0000_0010, name: "Aes256CtsHmacSha1_96" },
            FlagName { bits: 0x0000_0000_0000_0020, name: "Aes256CtsHmacSha1_96Sk" },
            FlagName { bits: 0x0000_0000_0001_0000, name: "FastSupported" },
            FlagName { bits: 0x0000_0000_0002_0000, name: "CompoundIdentitySupported" },
            FlagName { bits: 0x0000_0000_0004_0000, name: "ClaimsSupported" },
            FlagName { bits: 0x0000_0000_0008_0000, name: "ResourceSidCompressionDisabled" },
        ];
        assert(r@ =~= SupportedEncryptionTypes::table());
        r
    }

    /// The set with the given bits.
    pub fn from_bits_retain(bits: u32) -> (r: SupportedEncryptionTypes)
        ensures
            r.bits == bits,
    {
        SupportedEncryptionTypes { bits }
    }

    /// The bits of the set.
    pub fn bits(&self) -> (r: u32)
        ensures
            r == self.bits,
    {
        self.bits
    }

    /// Whether every bit of `flag` is set.
    pub fn contains(&self, flag: u32) -> (r: bool)
        ensures
            r == self.has(flag),
    {
        self.bits & flag == flag
    }

    /// Renders the text form.
    pub fn to_debug_string(&self) -> (r: String)
        ensures
            r@ == self.text(),
    {
        let mut out: String = "SupportedEncryptionTypes(".to_owned();
        out.append(describe_flags(SupportedEncryptionTypes::names().as_slice(), self.bits as u64).as_str());
        out.append(")");
        out
    }
}

} // verus!
