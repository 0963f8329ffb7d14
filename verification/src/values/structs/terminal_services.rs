//! The parameters of the terminal services that an account carries.
//!
//! The directory keeps them in a text attribute: UTF-16 code units, of
//! which a server hands out the UTF-8 form. After 48 units of older data
//! and a signature come the parameters. Each has a name in UTF-16 and a
//! value whose bytes are written as two hexadecimal digits each, two
//! digits to a unit.

use crate::bits::{bit_range, extract_bits_u8};
use crate::text::{str_eq, string_from_utf16, string_from_utf8, string_to_utf16, utf16_decoded, utf16_encoded};
use crate::wire::{le_u32, read_u32_le};
use vstd::prelude::*;
use vstd::utf8::{decode_utf8, valid_utf8};

verus! {

/// The first flags of the configuration of the terminal services.
#[derive(Clone, Copy, Debug, PartialEq, Eq, Structural, Hash)]
pub struct CtxCfgFlags1 {
    pub bits: u32,
}

impl CtxCfgFlags1 {
    pub const DISABLE_AUDIO_REDIR: u32 = 0x0000_0004;

    pub const WALLPAPER_DISABLED: u32 = 0x0000_0008;

    pub const DISABLE_EXE: u32 = 0x0000_0010;

    pub const DISABLE_CLIPBOARD_REDIR: u32 = 0x0000_0020;

    pub const DISABLE_LPT_PORT_REDIR: u32 = 0x0000_0040;

    pub const DISABLE_COM_PORT_REDIR: u32 = 0x0000_0080;

    pub const DISABLE_DRIVE_REDIR: u32 = 0x0000_0100;

    pub const DISABLE_PRINTER_REDIR: u32 = 0x0000_0200;

    pub const USE_DEFAULT_GINA: u32 = 0x0000_0400;

    pub const HOME_DIRECTORY_MAP_ROOT: u32 = 0x0000_0800;

    pub const DISABLE_ENCRYPTION: u32 = 0x0000_1000;

    pub const FORCE_REDIRECTED_PRINTER_AS_DEFAULT: u32 = 0x0000_2000;

    pub const AUTO_REDIRECT_PRINTERS: u32 = 0x0000_4000;

    pub const AUTO_REDIRECT_DRIVES: u32 = 0x0000_8000;

    pub const LOGON_DISABLED: u32 = 0x0001_0000;

    pub const RECONNECT_SAME_SESSION_FROM_ANY_CLIENT: u32 = 0x0002_0000;

    pub const LOGOFF_NOT_DISCONNECT_IDLE_SESSION: u32 = 0x0004_0000;

    pub const IGNORE_CLIENT_CREDENTIALS_AND_PROMPT: u32 = 0x0008_0000;

    pub const INHERIT_SECURITY: u32 = 0x0010_0000;

    pub const INHERIT_AUTO_REDIRECT: u32 = 0x0020_0000;

    pub const INHERIT_MAX_IDLE_TIME: u32 = 0x0040_0000;

    pub const INHERIT_MAX_DISCONNECTION_TIME: u32 = 0x0080_0000;

    pub const INHERIT_MAX_SESSION_TIME: u32 = 0x0100_0000;

    pub const INHERIT_SHADOW: u32 = 0x0200_0000;

    pub const INHERIT_CALLBACK_NUMBER: u32 = 0x0400_0000;

    pub const INHERIT_CALLBACK: u32 = 0x0800_0000;

    pub const INHERIT_INITIAL_PROGRAM: u32 = 0x1000_0000;

    pub const INHERIT_RECONNECT_SAME_SESSION: u32 = 0x2000_0000;

    pub const INHERIT_LOGOFF_NOT_DISCONNECT_IDLE: u32 = 0x4000_0000;

    pub const INHERIT_AUTO_LOGON: u32 = 0x8000_0000;

    /// Every bit that has a name.
    pub const ALL: u32 = 0xFFFF_FFFC;

    /// Whether every bit of `flag` is set.
    pub open spec fn has(self, flag: u32) -> bool {
        self.bits & flag == flag
    }

    /// Whether any bit of `flags` is set.
    pub open spec fn has_any(self, flags: u32) -> bool {
        self.bits & flags != 0
    }

    /// Whether no bit without a name is set.
    pub open spec fn only_named(self) -> bool {
        self.bits & CtxCfgFlags1::ALL == self.bits
    }

    /// The mask with the given bits.
    pub fn from(bits: u32) -> (r: CtxCfgFlags1)
        ensures
            r.bits == bits,
    {
        CtxCfgFlags1 { bits }
    }

    /// The bits of the mask.
    pub fn bits(&self) -> (r: u32)
        ensures
            r == self.bits,
    {
        self.bits
    }

    /// Whether every bit of `flag` is set.
    pub fn contains(&self, flag: u32) -> (r: bool)
        ensures
            r == self.has(flag),
    {
        self.bits & flag == flag
    }

    /// Whether any bit of `flags` is set.
    pub fn intersects(&self, flags: u32) -> (r: bool)
        ensures
            r == self.has_any(flags),
    {
        self.bits & flags != 0
    }

    /// The mask without the bits that have no name.
    pub fn truncate(&self) -> (r: CtxCfgFlags1)
        ensures
            r.bits == self.bits & CtxCfgFlags1::ALL,
    {
        CtxCfgFlags1 { bits: self.bits & CtxCfgFlags1::ALL }
    }

    /// Whether no bit without a name is set.
    pub fn is_truncated(&self) -> (r: bool)
        ensures
            r == self.only_named(),
    {
        self.bits & CtxCfgFlags1::ALL == self.bits
    }
}

/// Whether and how a session may be shadowed.
#[derive(Clone, Copy, Debug, PartialEq, Eq, Structural, Hash)]
pub enum ShadowType {
    Disable,
    EnableInputNotify,
    EnableInputNoNotify,
    EnableNoInputNotify,
    EnableNoInputNoNotify,
    /// Any other number.
    Other(u32),
}

impl ShadowType {
    /// The number that stands for the value.
    pub open spec fn number(self) -> u32 {
        match self {
            ShadowType::Disable => 0x0000_0000,
            ShadowType::EnableInputNotify => 0x0000_0001,
            ShadowType::EnableInputNoNotify => 0x0000_0002,
            ShadowType::EnableNoInputNotify => 0x0000_0003,
            ShadowType::EnableNoInputNoNotify => 0x0000_0004,
            ShadowType::Other(v) => v,
        }
    }

    /// `Other` holds no number that has a name.
    pub open spec fn canonical(self) -> bool {
        self matches ShadowType::Other(v) ==> ShadowType::named(v) is None
    }

    /// The named value with the number `value`, if there is one.
    pub open spec fn named(value: u32) -> Option<ShadowType> {
        if value == 0x0000_0000 {
            Some(ShadowType::Disable)
        } else if value == 0x0000_0001 {
            Some(ShadowType::EnableInputNotify)
        } else if value == 0x0000_0002 {
            Some(ShadowType::EnableInputNoNotify)
        } else if value == 0x0000_0003 {
            Some(ShadowType::EnableNoInputNotify)
        } else if value == 0x0000_0004 {
            Some(ShadowType::EnableNoInputNoNotify)
        } else {
            None
        }
    }

    /// The value with the number `value`.
    pub fn from_base_type(value: u32) -> (r: ShadowType)
        ensures
            r.number() == value,
            r.canonical(),
            r == match ShadowType::named(value) {
                Some(v) => v,
                None => ShadowType::Other(value),
            },
    {
        if value == 0x0000_0000 {
            ShadowType::Disable
        } else if value == 0x0000_0001 {
            ShadowType::EnableInputNotify
        } else if value == 0x0000_0002 {
            ShadowType::EnableInputNoNotify
        } else if value == 0x0000_0003 {
            ShadowType::EnableNoInputNotify
        } else if value == 0x0000_0004 {
            ShadowType::EnableNoInputNoNotify
        } else {
            ShadowType::Other(value)
        }
    }

    /// The number that stands for the value.
    pub fn to_base_type(&self) -> (r: u32)
        ensures
            r == self.number(),
    {
        match self {
            ShadowType::Disable => 0x0000_0000,
            ShadowType::EnableInputNotify => 0x0000_0001,
            ShadowType::EnableInputNoNotify => 0x0000_0002,
            ShadowType::EnableNoInputNotify => 0x0000_0003,
            ShadowType::EnableNoInputNoNotify => 0x0000_0004,
            ShadowType::Other(v) => *v,
        }
    }
}

impl ShadowType {
    /// Whether shadowing is enabled; unknown for a number without a name.
    pub fn is_enabled(&self) -> (r: Option<bool>)
        ensures
            r == match *self {
                ShadowType::Disable => Some(false),
                ShadowType::Other(_) => None,
                _ => Some(true),
            },
    {
        match self {
            ShadowType::Disable => Some(false),
            ShadowType::Other(_) => None,
            _ => Some(true),
        }
    }

    /// Whether the one who shadows may give input; unknown where shadowing
    /// is disabled or the number has no name.
    pub fn allows_input(&self) -> (r: Option<bool>)
        ensures
            r == match *self {
                ShadowType::Disable => None,
                ShadowType::Other(_) => None,
                ShadowType::EnableInputNoNotify => Some(true),
                ShadowType::EnableInputNotify => Some(true),
                ShadowType::EnableNoInputNotify => Some(false),
                ShadowType::EnableNoInputNoNotify => Some(false),
            },
    {
        match self {
            ShadowType::Disable => None,
            ShadowType::Other(_) => None,
            ShadowType::EnableInputNoNotify => Some(true),
            ShadowType::EnableInputNotify => Some(true),
            ShadowType::EnableNoInputNotify => Some(false),
            ShadowType::EnableNoInputNoNotify => Some(false),
        }
    }

    /// Whether the user is told of the shadowing; unknown where shadowing
    /// is disabled or the number has no name.
    pub fn notifies_user(&self) -> (r: Option<bool>)
        ensures
            r == match *self {
                ShadowType::Disable => None,
                ShadowType::Other(_) => None,
                ShadowType::EnableNoInputNotify => Some(true),
                ShadowType::EnableInputNotify => Some(true),
                ShadowType::EnableInputNoNotify => Some(false),
                ShadowType::EnableNoInputNoNotify => Some(false),
            },
    {
        match self {
            ShadowType::Disable => None,
            ShadowType::Other(_) => None,
            ShadowType::EnableNoInputNotify => Some(true),
            ShadowType::EnableInputNotify => Some(true),
            ShadowType::EnableInputNoNotify => Some(false),
            ShadowType::EnableNoInputNoNotify => Some(false),
        }
    }
}

/// One parameter of the terminal services.
#[derive(Clone, Debug, PartialEq, Eq, Hash)]
pub enum UserParameter {
    CfgPresent { magic: u32 },
    CfgFlags1(CtxCfgFlags1),
    CallBack { class_id: u32 },
    KeyboardLayout { layout_id: u32 },
    MinEncryptionLevel(u8),
    NetwareLogonServer { server_name: u32 },
    WfHomeDir(String),
    WfHomeDirDrive(String),
    InitialProgram(String),
    MaxConnectionTime { minutes: u32 },
    MaxDisconnectionTime { minutes: u32 },
    MaxIdleTime { minutes: u32 },
    WfProfilePath(String),
    Shadow(ShadowType),
    WorkDirectory(String),
    CallbackNumber(String),
    /// A parameter whose name the decoder does not know, or whose value
    /// does not have the form that its name asks for.
    Other { name: String, value: Vec<u8> },
    /// A parameter of a type other than 1.
    OtherType { parameter_type: u16, name: String, value: Vec<u8> },
}

/// The forms that the value of a parameter can have, by its name.
#[derive(Clone, Copy, Debug, PartialEq, Eq, Structural)]
pub enum ValueForm {
    /// A number of 32 bits.
    Number,
    /// A number of 8 bits.
    Byte,
    /// A text.
    Text,
    /// Nothing that the decoder knows.
    Unknown,
}

/// The form of the value of the parameter `name`.
pub open spec fn value_form(name: Seq<char>) -> ValueForm {
    if name == "CtxCfgPresent"@ || name == "CtxCfgFlags1"@ || name == "CtxCallBack"@ || name
        == "CtxKeyboardLayout"@ || name == "CtxNWLogonServer"@ || name == "CtxMaxConnectionTime"@
        || name == "CtxMaxDisconnectionTime"@ || name == "CtxMaxIdleTime"@ || name == "CtxShadow"@ {
        ValueForm::Number
    } else if name == "CtxMinEncryptionLevel"@ {
        ValueForm::Byte
    } else if name == "CtxWFHomeDir"@ || name == "CtxWFHomeDirDrive"@ || name
        == "CtxInitialProgram"@ || name == "CtxWFProfilePath"@ || name == "CtxWorkDirectory"@
        || name == "CtxCallbackNumber"@ {
        ValueForm::Text
    } else {
        ValueForm::Unknown
    }
}

/// Whether the value `value` has the form that the name `name` asks for.
pub open spec fn value_fits(name: Seq<char>, value: Seq<u8>) -> bool {
    match value_form(name) {
        ValueForm::Number => value.len() == 4,
        ValueForm::Byte => value.len() == 1,
        ValueForm::Text => valid_utf8(value),
        ValueForm::Unknown => false,
    }
}

impl UserParameter {
    /// The name under which the directory keeps the parameter, where the
    /// variant stands for one name.
    pub open spec fn fixed_name(&self) -> Option<Seq<char>> {
        match self {
            UserParameter::CfgPresent { .. } => Some("CtxCfgPresent"@),
            UserParameter::CfgFlags1(_) => Some("CtxCfgFlags1"@),
            UserParameter::CallBack { .. } => Some("CtxCallBack"@),
            UserParameter::KeyboardLayout { .. } => Some("CtxKeyboardLayout"@),
            UserParameter::MinEncryptionLevel(_) => Some("CtxMinEncryptionLevel"@),
            UserParameter::NetwareLogonServer { .. } => Some("CtxNWLogonServer"@),
            UserParameter::WfHomeDir(_) => Some("CtxWFHomeDir"@),
            UserParameter::WfHomeDirDrive(_) => Some("CtxWFHomeDirDrive"@),
            UserParameter::InitialProgram(_) => Some("CtxInitialProgram"@),
            UserParameter::MaxConnectionTime { .. } => Some("CtxMaxConnectionTime"@),
            UserParameter::MaxDisconnectionTime { .. } => Some("CtxMaxDisconnectionTime"@),
            UserParameter::MaxIdleTime { .. } => Some("CtxMaxIdleTime"@),
            UserParameter::WfProfilePath(_) => Some("CtxWFProfilePath"@),
            UserParameter::Shadow(_) => Some("CtxShadow"@),
            UserParameter::WorkDirectory(_) => Some("CtxWorkDirectory"@),
            UserParameter::CallbackNumber(_) => Some("CtxCallbackNumber"@),
            UserParameter::Other { .. } => None,
            UserParameter::OtherType { .. } => None,
        }
    }

    /// `self` is the parameter of type `parameter_type` with the name
    /// `name` and the value `value`.
    pub open spec fn decoded_from(&self, parameter_type: u16, name: Seq<char>, value: Seq<u8>) -> bool {
        match self {
            UserParameter::OtherType { parameter_type: t, name: n, value: v } => {
                &&& parameter_type != 1
                &&& *t == parameter_type
                &&& n@ == name
                &&& v@ == value
            },
            UserParameter::Other { name: n, value: v } => {
                &&& parameter_type == 1
                &&& !value_fits(name, value)
                &&& n@ == name
                &&& v@ == value
            },
            _ => {
                &&& parameter_type == 1
                &&& value_fits(name, value)
                &&& self.fixed_name() == Some(name)
                &&& match self {
                    UserParameter::CfgPresent { magic } => *magic == le_u32(value, 0),
                    UserParameter::CfgFlags1(f) => f.bits == le_u32(value, 0),
                    UserParameter::CallBack { class_id } => *class_id == le_u32(value, 0),
                    UserParameter::KeyboardLayout { layout_id } => *layout_id == le_u32(value, 0),
                    UserParameter::NetwareLogonServer { server_name } => *server_name == le_u32(
                        value,
                        0,
                    ),
                    UserParameter::MaxConnectionTime { minutes } => *minutes == le_u32(value, 0),
                    UserParameter::MaxDisconnectionTime { minutes } => *minutes == le_u32(value, 0),
                    UserParameter::MaxIdleTime { minutes } => *minutes == le_u32(value, 0),
                    UserParameter::Shadow(s) => s.number() == le_u32(value, 0) && s.canonical(),
                    UserParameter::MinEncryptionLevel(l) => *l == value[0],
                    UserParameter::WfHomeDir(t) => t@ == decode_utf8(value),
                    UserParameter::WfHomeDirDrive(t) => t@ == decode_utf8(value),
                    UserParameter::InitialProgram(t) => t@ == decode_utf8(value),
                    UserParameter::WfProfilePath(t) => t@ == decode_utf8(value),
                    UserParameter::WorkDirectory(t) => t@ == decode_utf8(value),
                    UserParameter::CallbackNumber(t) => t@ == decode_utf8(value),
                    _ => false,
                }
            },
        }
    }

    /// Reads the value of a parameter as its name asks for.
    pub fn decode_from_name_and_value(parameter_type: u16, name: String, value: Vec<u8>) -> (r:
        UserParameter)
        ensures
            r.decoded_from(parameter_type, name@, value@),
    {
        if parameter_type != 0x0001 {
            return UserParameter::OtherType { parameter_type, name, value };
        }
        let n: &str = name.as_str();
        if str_eq(n, "CtxCfgPresent") || str_eq(n, "CtxCfgFlags1") || str_eq(n, "CtxCallBack")
            || str_eq(n, "CtxKeyboardLayout") || str_eq(n, "CtxNWLogonServer") || str_eq(
            n,
            "CtxMaxConnectionTime",
        ) || str_eq(n, "CtxMaxDisconnectionTime") || str_eq(n, "CtxMaxIdleTime") || str_eq(
            n,
            "CtxShadow",
        ) {
            if value.len() != 4 {
                return UserParameter::Other { name, value };
            }
            let numeric_value: u32 = read_u32_le(value.as_slice(), 0);
            if str_eq(n, "CtxCfgPresent") {
                UserParameter::CfgPresent { magic: numeric_value }
            } else if str_eq(n, "CtxCfgFlags1") {
                UserParameter::CfgFlags1(CtxCfgFlags1::from(numeric_value))
            } else if str_eq(n, "CtxCallBack") {
                UserParameter::CallBack { class_id: numeric_value }
            } else if str_eq(n, "CtxKeyboardLayout") {
                UserParameter::KeyboardLayout { layout_id: numeric_value }
            } else if str_eq(n, "CtxNWLogonServer") {
                UserParameter::NetwareLogonServer { server_name: numeric_value }
            } else if str_eq(n, "CtxMaxConnectionTime") {
                UserParameter::MaxConnectionTime { minutes: numeric_value }
            } else if str_eq(n, "CtxMaxDisconnectionTime") {
                UserParameter::MaxDisconnectionTime { minutes: numeric_value }
            } else if str_eq(n, "CtxMaxIdleTime") {
                UserParameter::MaxIdleTime { minutes: numeric_value }
            } else {
                UserParameter::Shadow(ShadowType::from_base_type(numeric_value))
            }
        } else if str_eq(n, "CtxMinEncryptionLevel") {
            if value.len() != 1 {
                return UserParameter::Other { name, value };
            }
            UserParameter::MinEncryptionLevel(value[0])
        } else if str_eq(n, "CtxWFHomeDir") || str_eq(n, "CtxWFHomeDirDrive") || str_eq(
            n,
            "CtxInitialProgram",
        ) || str_eq(n, "CtxWFProfilePath") || str_eq(n, "CtxWorkDirectory") || str_eq(
            n,
            "CtxCallbackNumber",
        ) {
            let string: String = match string_from_utf8(value.as_slice()) {
                Some(s) => s,
                None => {
                    return UserParameter::Other { name, value };
                },
            };
            if str_eq(n, "CtxWFHomeDir") {
                UserParameter::WfHomeDir(string)
            } else if str_eq(n, "CtxWFHomeDirDrive") {
                UserParameter::WfHomeDirDrive(string)
            } else if str_eq(n, "CtxInitialProgram") {
                UserParameter::InitialProgram(string)
            } else if str_eq(n, "CtxWFProfilePath") {
                UserParameter::WfProfilePath(string)
            } else if str_eq(n, "CtxWorkDirectory") {
                UserParameter::WorkDirectory(string)
            } else {
                UserParameter::CallbackNumber(string)
            }
        } else {
            UserParameter::Other { name, value }
        }
    }
}

/// The number that a hexadecimal digit, in either case, stands for.
pub open spec fn nibble(c: int) -> Option<int> {
    if 0x30 <= c <= 0x39 {
        Some(c - 0x30)
    } else if 0x61 <= c <= 0x66 {
        Some(c - 0x61 + 10)
    } else if 0x41 <= c <= 0x46 {
        Some(c - 0x41 + 10)
    } else {
        None
    }
}

/// The low byte of a code unit.
pub open spec fn low_byte(word: u16) -> int {
    bit_range(word as int, 0, 8)
}

/// The high byte of a code unit.
pub open spec fn high_byte(word: u16) -> int {
    bit_range(word as int, 8, 8)
}

/// Every unit holds two hexadecimal digits.
pub open spec fn squished_ok(units: Seq<u16>) -> bool {
    forall|i: int|
        0 <= i < units.len() ==> nibble(low_byte(#[trigger] units[i])) is Some && nibble(
            high_byte(units[i]),
        ) is Some
}

/// The bytes that the units write: the low byte of a unit is the upper
/// digit, the high byte the lower one.
pub open spec fn unsquished(units: Seq<u16>) -> Seq<u8> {
    Seq::new(
        units.len(),
        |i: int|
            (16 * nibble(low_byte(units[i])).unwrap() + nibble(high_byte(units[i])).unwrap()) as u8,
    )
}

/// Where parameter `j` starts among the units `u`: the first one after
/// the 50 units of the header, each other one after the name and the
/// value of the one before, whose lengths are given in bytes.
pub open spec fn parameter_offset(u: Seq<u16>, j: nat) -> int
    decreases j,
{
    if j == 0 {
        50
    } else {
        parameter_end(u, parameter_offset(u, (j - 1) as nat))
    }
}

/// Where the value of the parameter that starts at `at` starts.
pub open spec fn parameter_value_at(u: Seq<u16>, at: int) -> int {
    at + 3 + u[at] / 2
}

/// Where the parameter that starts at `at` ends.
pub open spec fn parameter_end(u: Seq<u16>, at: int) -> int {
    at + 3 + u[at] / 2 + u[at + 1] / 2
}

/// The parameter that starts at `at` lies within `u`, the lengths of its
/// name and of its value are even, its name is UTF-16 and its value is
/// written in hexadecimal digits.
pub open spec fn parameter_fits(u: Seq<u16>, at: int) -> bool {
    &&& 0 <= at
    &&& at + 3 <= u.len()
    &&& u[at] % 2 == 0
    &&& u[at + 1] % 2 == 0
    &&& parameter_end(u, at) <= u.len()
    &&& utf16_decoded(u.subrange(at + 3, parameter_value_at(u, at))) is Some
    &&& squished_ok(u.subrange(parameter_value_at(u, at), parameter_end(u, at)))
}

/// The parameters of the terminal services of an account.
#[derive(Clone, Debug, PartialEq, Eq, Hash)]
pub struct UserParameters {
    /// What older systems kept in the attribute, where it is more than
    /// spaces.
    pub legacy_data: Option<String>,
    pub parameters: Vec<UserParameter>,
}

/// The text of an optional string.
pub open spec fn text_of(s: Option<String>) -> Option<Seq<char>> {
    match s {
        Some(t) => Some(t@),
        None => None,
    }
}

impl UserParameters {
    /// The units `u` hold parameters: 48 units of older data, the
    /// signature `P`, the count of the parameters, and as many parameters,
    /// which fill `u` to the end.
    pub open spec fn units_ok(u: Seq<u16>) -> bool {
        &&& u.len() >= 50
        &&& u[48] == 0x0050
        &&& forall|j: nat| j < u[49] ==> parameter_fits(u, #[trigger] parameter_offset(u, j))
        &&& parameter_offset(u, u[49] as nat) == u.len()
    }

    /// `self` is what the units `u` hold.
    pub open spec fn decoded_from(&self, u: Seq<u16>) -> bool {
        &&& text_of(self.legacy_data) == if (forall|i: int| 0 <= i < 48 ==> u[i] == 0x0020) {
            None
        } else {
            utf16_decoded(u.subrange(0, 48))
        }
        &&& self.parameters@.len() == u[49]
        &&& forall|j: nat|
            j < u[49] ==> (#[trigger] self.parameters@[j as int]).decoded_from(
                u[parameter_offset(u, j) + 2],
                utf16_decoded(
                    u.subrange(
                        parameter_offset(u, j) + 3,
                        parameter_value_at(u, parameter_offset(u, j)),
                    ),
                ).unwrap(),
                unsquished(
                    u.subrange(
                        parameter_value_at(u, parameter_offset(u, j)),
                        parameter_offset(u, j + 1),
                    ),
                ),
            )
    }

    /// Decodes the parameters from the UTF-8 form of the attribute.
    pub fn try_from_bytes(value: &[u8]) -> (r: Option<UserParameters>)
        ensures
            r is Some <==> valid_utf8(value@) && UserParameters::units_ok(
                utf16_encoded(decode_utf8(value@)),
            ),
            r matches Some(p) ==> p.decoded_from(utf16_encoded(decode_utf8(value@))),
    {
        let value_utf8: String = match string_from_utf8(value) {
            Some(s) => s,
            None => {
                return None;
            },
        };
        let value_utf16: Vec<u16> = string_to_utf16(value_utf8.as_str());
        UserParameters::try_from_units(value_utf16.as_slice())
    }

    /// Decodes the parameters from the UTF-16 code units of the attribute.
    pub fn try_from_units(value_utf16: &[u16]) -> (r: Option<UserParameters>)
        ensures
            r is Some <==> UserParameters::units_ok(value_utf16@),
            r matches Some(p) ==> p.decoded_from(value_utf16@),
    {
        let ghost u = value_utf16@;
        if value_utf16.len() < 50 {
            return None;
        }
        let mut all_spaces: bool = true;
        let mut k: usize = 0;
        while k < 48
            invariant
                u == value_utf16@,
                u.len() >= 50,
                k <= 48,
                all_spaces == (forall|i: int| 0 <= i < k ==> u[i] == 0x0020),
            decreases 48 - k,
        {
            if value_utf16[k] != 0x0020 {
                all_spaces = false;
            }
            k += 1;
        }
        let legacy_data: Option<String> = if all_spaces {
            None
        } else {
            string_from_utf16(&value_utf16[0..48])
        };
        if value_utf16[48] != 0x0050 {
            return None;
        }
        let parameter_count: u16 = value_utf16[49];
        let mut parameters: Vec<UserParameter> = Vec::new();
        let mut i: usize = 50;
        let mut n: u16 = 0;
        while n < parameter_count
            invariant
                u == value_utf16@,
                u.len() == value_utf16.len(),
                u.len() >= 50,
                u[48] == 0x0050,
                parameter_count == u[49],
                n <= parameter_count,
                50 <= i <= u.len(),
                i == parameter_offset(u, n as nat),
                parameters@.len() == n,
                forall|j: nat| j < n ==> parameter_fits(u, #[trigger] parameter_offset(u, j)),
                forall|j: nat|
                    j < n ==> (#[trigger] parameters@[j as int]).decoded_from(
                        u[parameter_offset(u, j) + 2],
                        utf16_decoded(
                            u.subrange(
                                parameter_offset(u, j) + 3,
                                parameter_value_at(u, parameter_offset(u, j)),
                            ),
                        ).unwrap(),
                        unsquished(
                            u.subrange(
                                parameter_value_at(u, parameter_offset(u, j)),
                                parameter_offset(u, j + 1),
                            ),
                        ),
                    ),
            decreases parameter_count - n,
        {
            if value_utf16.len() - i < 3 {
                return None;
            }
            let name_length_bytes: usize = value_utf16[i] as usize;
            let value_length_bytes: usize = value_utf16[i + 1] as usize;
            let parameter_type: u16 = value_utf16[i + 2];
            if name_length_bytes % 2 != 0 {
                return None;
            }
            if value_length_bytes % 2 != 0 {
                return None;
            }
            let name_length_u16s: usize = name_length_bytes / 2;
            let value_length_u16s: usize = value_length_bytes / 2;
            assert(parameter_offset(u, (n + 1) as nat) == i + 3 + name_length_u16s
                + value_length_u16s);
            if value_utf16.len() - i - 3 < name_length_u16s + value_length_u16s {
                return None;
            }
            let name_start: usize = i + 3;
            let value_start: usize = name_start + name_length_u16s;
            let value_end: usize = value_start + value_length_u16s;
            let name: String = match string_from_utf16(&value_utf16[name_start..value_start]) {
                Some(s) => s,
                None => {
                    return None;
                },
            };
            let value: Vec<u8> = match UserParameters::decode_squished_utf16_value(
                &value_utf16[value_start..value_end],
            ) {
                Some(v) => v,
                None => {
                    return None;
                },
            };
            let parameter: UserParameter = UserParameter::decode_from_name_and_value(
                parameter_type,
                name,
                value,
            );
            parameters.push(parameter);
            i = value_end;
            n += 1;
        }
        if i != value_utf16.len() {
            return None;
        }
        Some(UserParameters { legacy_data, parameters })
    }

    /// Reads the bytes that code units write in hexadecimal digits.
    pub fn decode_squished_utf16_value(value_slice: &[u16]) -> (r: Option<Vec<u8>>)
        ensures
            r is Some <==> squished_ok(value_slice@),
            r matches Some(v) ==> v@ == unsquished(value_slice@),
    {
        let mut ret: Vec<u8> = Vec::new();
        let mut i: usize = 0;
        while i < value_slice.len()
            invariant
                i <= value_slice.len(),
                ret@.len() == i,
                forall|j: int|
                    0 <= j < i ==> nibble(low_byte(#[trigger] value_slice@[j])) is Some && nibble(
                        high_byte(value_slice@[j]),
                    ) is Some,
                forall|j: int| 0 <= j < i ==> #[trigger] ret@[j] == unsquished(value_slice@)[j],
            decreases value_slice.len() - i,
        {
            let word: u16 = value_slice[i];
            let top_byte: u8 = extract_bits_u8(word as u64, 0, 8);
            let bottom_byte: u8 = extract_bits_u8(word as u64, 8, 8);
            let top_nibble: u8 = match UserParameters::decode_squished_byte_nibble(top_byte) {
                Some(v) => v,
                None => {
                    return None;
                },
            };
            let bottom_nibble: u8 = match UserParameters::decode_squished_byte_nibble(
                bottom_byte,
            ) {
                Some(v) => v,
                None => {
                    return None;
                },
            };
            ret.push(16 * top_nibble + bottom_nibble);
            i += 1;
        }
        assert(ret@ =~= unsquished(value_slice@));
        Some(ret)
    }

    /// The number that a hexadecimal digit stands for.
    pub fn decode_squished_byte_nibble(byte: u8) -> (r: Option<u8>)
        ensures
            r is Some <==> nibble(byte as int) is Some,
            r matches Some(v) ==> v == nibble(byte as int).unwrap() && v < 16,
    {
        if byte >= 0x30 && byte <= 0x39 {
            Some(byte - 0x30)
        } else if byte >= 0x61 && byte <= 0x66 {
            Some(byte - 0x61 + 10)
        } else if byte >= 0x41 && byte <= 0x46 {
            Some(byte - 0x41 + 10)
        } else {
            None
        }
    }
}

} // verus!
