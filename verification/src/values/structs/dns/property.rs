//! Properties of a DNS zone as the DNS server stores them in the
//! directory.

use crate::bits::{bit_is_set, bit_range, extract_bits_u16, is_bit_set};
use crate::time::{utc_seconds_relative_to_1601, Timestamp};
use crate::values::{nul_terminated_text, nul_terminated_utf16le_string};
use crate::wire::{
    array16, array4, be_u16, copy_range, le_i64, le_u16, le_u32, read_i64_le, read_u16_be,
    read_u16_le, read_u32_le,
};
use vstd::prelude::*;

verus! {

/// The type of a zone.
#[derive(Clone, Copy, Debug, PartialEq, Eq, Structural, Hash)]
pub enum ZoneType {
    Cache,
    Primary,
    Secondary,
    Stub,
    Forwarder,
    SecondaryCache,
    /// Any other number.
    Other(u32),
}

impl ZoneType {
    /// The number that stands for the value.
    pub open spec fn number(self) -> u32 {
        match self {
            ZoneType::Cache => 0x0000_0000,
            ZoneType::Primary => 0x0000_0001,
            ZoneType::Secondary => 0x0000_0002,
            ZoneType::Stub => 0x0000_0003,
            ZoneType::Forwarder => 0x0000_0004,
            ZoneType::SecondaryCache => 0x0000_0005,
            ZoneType::Other(v) => v,
        }
    }

    /// `Other` holds no number that has a name.
    pub open spec fn canonical(self) -> bool {
        self matches ZoneType::Other(v) ==> ZoneType::named(v) is None
    }

    /// The named value with the number `value`, if there is one.
    pub open spec fn named(value: u32) -> Option<ZoneType> {
        if value == 0x0000_0000 {
            Some(ZoneType::Cache)
        } else if value == 0x0000_0001 {
            Some(ZoneType::Primary)
        } else if value == 0x0000_0002 {
            Some(ZoneType::Secondary)
        } else if value == 0x0000_0003 {
            Some(ZoneType::Stub)
        } else if value == 0x0000_0004 {
            Some(ZoneType::Forwarder)
        } else if value == 0x0000_0005 {
            Some(ZoneType::SecondaryCache)
        } else {
            None
        }
    }

    /// The value with the number `value`.
    pub fn from_base_type(value: u32) -> (r: ZoneType)
        ensures
            r.number() == value,
            r.canonical(),
            r == match ZoneType::named(value) {
                Some(v) => v,
                None => ZoneType::Other(value),
            },
    {
        if value == 0x0000_0000 {
            ZoneType::Cache
        } else if value == 0x0000_0001 {
            ZoneType::Primary
        } else if value == 0x0000_0002 {
            ZoneType::Secondary
        } else if value == 0x0000_0003 {
            ZoneType::Stub
        } else if value == 0x0000_0004 {
            ZoneType::Forwarder
        } else if value == 0x0000_0005 {
            ZoneType::SecondaryCache
        } else {
            ZoneType::Other(value)
        }
    }

    /// The number that stands for the value.
    pub fn to_base_type(&self) -> (r: u32)
        ensures
            r == self.number(),
    {
        match self {
            ZoneType::Cache => 0x0000_0000,
            ZoneType::Primary => 0x0000_0001,
            ZoneType::Secondary => 0x0000_0002,
            ZoneType::Stub => 0x0000_0003,
            ZoneType::Forwarder => 0x0000_0004,
            ZoneType::SecondaryCache => 0x0000_0005,
            ZoneType::Other(v) => *v,
        }
    }
}

/// Whether a zone accepts dynamic updates.
#[derive(Clone, Copy, Debug, PartialEq, Eq, Structural, Hash)]
pub enum AllowUpdate {
    Off,
    Unsecure,
    Secure,
    /// Any other number.
    Other(u32),
}

impl AllowUpdate {
    /// The number that stands for the value.
    pub open spec fn number(self) -> u32 {
        match self {
            AllowUpdate::Off => 0x0000_0000,
            AllowUpdate::Unsecure => 0x0000_0001,
            AllowUpdate::Secure => 0x0000_0002,
            AllowUpdate::Other(v) => v,
        }
    }

    /// `Other` holds no number that has a name.
    pub open spec fn canonical(self) -> bool {
        self matches AllowUpdate::Other(v) ==> AllowUpdate::named(v) is None
    }

    /// The named value with the number `value`, if there is one.
    pub open spec fn named(value: u32) -> Option<AllowUpdate> {
        if value == 0x0000_0000 {
            Some(AllowUpdate::Off)
        } else if value == 0x0000_0001 {
            Some(AllowUpdate::Unsecure)
        } else if value == 0x0000_0002 {
            Some(AllowUpdate::Secure)
        } else {
            None
        }
    }

    /// The value with the number `value`.
    pub fn from_base_type(value: u32) -> (r: AllowUpdate)
        ensures
            r.number() == value,
            r.canonical(),
            r == match AllowUpdate::named(value) {
                Some(v) => v,
                None => AllowUpdate::Other(value),
            },
    {
        if value == 0x0000_0000 {
            AllowUpdate::Off
        } else if value == 0x0000_0001 {
            AllowUpdate::Unsecure
        } else if value == 0x0000_0002 {
            AllowUpdate::Secure
        } else {
            AllowUpdate::Other(value)
        }
    }

    /// The number that stands for the value.
    pub fn to_base_type(&self) -> (r: u32)
        ensures
            r == self.number(),
    {
        match self {
            AllowUpdate::Off => 0x0000_0000,
            AllowUpdate::Unsecure => 0x0000_0001,
            AllowUpdate::Secure => 0x0000_0002,
            AllowUpdate::Other(v) => *v,
        }
    }
}

/// A truth value in 32 bits.
#[derive(Clone, Copy, Debug, PartialEq, Eq, Structural, Hash)]
pub enum Boolean {
    False,
    True,
    /// Any other number.
    Other(u32),
}

impl Boolean {
    /// The number that stands for the value.
    pub open spec fn number(self) -> u32 {
        match self {
            Boolean::False => 0x0000_0000,
            Boolean::True => 0x0000_0001,
            Boolean::Other(v) => v,
        }
    }

    /// `Other` holds no number that has a name.
    pub open spec fn canonical(self) -> bool {
        self matches Boolean::Other(v) ==> Boolean::named(v) is None
    }

    /// The named value with the number `value`, if there is one.
    pub open spec fn named(value: u32) -> Option<Boolean> {
        if value == 0x0000_0000 {
            Some(Boolean::False)
        } else if value == 0x0000_0001 {
            Some(Boolean::True)
        } else {
            None
        }
    }

    /// The value with the number `value`.
    pub fn from_base_type(value: u32) -> (r: Boolean)
        ensures
            r.number() == value,
            r.canonical(),
            r == match Boolean::named(value) {
                Some(v) => v,
                None => Boolean::Other(value),
            },
    {
        if value == 0x0000_0000 {
            Boolean::False
        } else if value == 0x0000_0001 {
            Boolean::True
        } else {
            Boolean::Other(value)
        }
    }

    /// The number that stands for the value.
    pub fn to_base_type(&self) -> (r: u32)
        ensures
            r == self.number(),
    {
        match self {
            Boolean::False => 0x0000_0000,
            Boolean::True => 0x0000_0001,
            Boolean::Other(v) => *v,
        }
    }
}

/// Where a zone is to be moved when its server is promoted.
#[derive(Clone, Copy, Debug, PartialEq, Eq, Structural, Hash)]
pub enum DcPromoFlag {
    ConvertNone,
    ConvertDomain,
    ConvertForest,
    /// Any other number.
    Other(u32),
}

impl DcPromoFlag {
    /// The number that stands for the value.
    pub open spec fn number(self) -> u32 {
        match self {
            DcPromoFlag::ConvertNone => 0x0000_0000,
            DcPromoFlag::ConvertDomain => 0x0000_0001,
            DcPromoFlag::ConvertForest => 0x0000_0002,
            DcPromoFlag::Other(v) => v,
        }
    }

    /// `Other` holds no number that has a name.
    pub open spec fn canonical(self) -> bool {
        self matches DcPromoFlag::Other(v) ==> DcPromoFlag::named(v) is None
    }

    /// The named value with the number `value`, if there is one.
    pub open spec fn named(value: u32) -> Option<DcPromoFlag> {
        if value == 0x0000_0000 {
            Some(DcPromoFlag::ConvertNone)
        } else if value == 0x0000_0001 {
            Some(DcPromoFlag::ConvertDomain)
        } else if value == 0x0000_0002 {
            Some(DcPromoFlag::ConvertForest)
        } else {
            None
        }
    }

    /// The value with the number `value`.
    pub fn from_base_type(value: u32) -> (r: DcPromoFlag)
        ensures
            r.number() == value,
            r.canonical(),
            r == match DcPromoFlag::named(value) {
                Some(v) => v,
                None => DcPromoFlag::Other(value),
            },
    {
        if value == 0x0000_0000 {
            DcPromoFlag::ConvertNone
        } else if value == 0x0000_0001 {
            DcPromoFlag::ConvertDomain
        } else if value == 0x0000_0002 {
            DcPromoFlag::ConvertForest
        } else {
            DcPromoFlag::Other(value)
        }
    }

    /// The number that stands for the value.
    pub fn to_base_type(&self) -> (r: u32)
        ensures
            r == self.number(),
    {
        match self {
            DcPromoFlag::ConvertNone => 0x0000_0000,
            DcPromoFlag::ConvertDomain => 0x0000_0001,
            DcPromoFlag::ConvertForest => 0x0000_0002,
            DcPromoFlag::Other(v) => *v,
        }
    }
}

/// The outcome of validating a server address.
#[derive(Clone, Copy, Debug, PartialEq, Eq, Structural, Hash)]
pub enum DnsValidationStatus {
    Success,
    InvalidAddr,
    Unreachable,
    NoResponse,
    NotAuthForZone,
    UnknownError,
    /// Any other number.
    Other(u16),
}

impl DnsValidationStatus {
    /// The number that stands for the value.
    pub open spec fn number(self) -> u16 {
        match self {
            DnsValidationStatus::Success => 0x0000,
            DnsValidationStatus::InvalidAddr => 0x0001,
            DnsValidationStatus::Unreachable => 0x0002,
            DnsValidationStatus::NoResponse => 0x0003,
            DnsValidationStatus::NotAuthForZone => 0x0004,
            DnsValidationStatus::UnknownError => 0x00FF,
            DnsValidationStatus::Other(v) => v,
        }
    }

    /// `Other` holds no number that has a name.
    pub open spec fn canonical(self) -> bool {
        self matches DnsValidationStatus::Other(v) ==> DnsValidationStatus::named(v) is None
    }

    /// The named value with the number `value`, if there is one.
    pub open spec fn named(value: u16) -> Option<DnsValidationStatus> {
        if value == 0x0000 {
            Some(DnsValidationStatus::Success)
        } else if value == 0x0001 {
            Some(DnsValidationStatus::InvalidAddr)
        } else if value == 0x0002 {
            Some(DnsValidationStatus::Unreachable)
        } else if value == 0x0003 {
            Some(DnsValidationStatus::NoResponse)
        } else if value == 0x0004 {
            Some(DnsValidationStatus::NotAuthForZone)
        } else if value == 0x00FF {
            Some(DnsValidationStatus::UnknownError)
        } else {
            None
        }
    }

    /// The value with the number `value`.
    pub fn from_base_type(value: u16) -> (r: DnsValidationStatus)
        ensures
            r.number() == value,
            r.canonical(),
            r == match DnsValidationStatus::named(value) {
                Some(v) => v,
                None => DnsValidationStatus::Other(value),
            },
    {
        if value == 0x0000 {
            DnsValidationStatus::Success
        } else if value == 0x0001 {
            DnsValidationStatus::InvalidAddr
        } else if value == 0x0002 {
            DnsValidationStatus::Unreachable
        } else if value == 0x0003 {
            DnsValidationStatus::NoResponse
        } else if value == 0x0004 {
            DnsValidationStatus::NotAuthForZone
        } else if value == 0x00FF {
            DnsValidationStatus::UnknownError
        } else {
            DnsValidationStatus::Other(value)
        }
    }

    /// The number that stands for the value.
    pub fn to_base_type(&self) -> (r: u16)
        ensures
            r == self.number(),
    {
        match self {
            DnsValidationStatus::Success => 0x0000,
            DnsValidationStatus::InvalidAddr => 0x0001,
            DnsValidationStatus::Unreachable => 0x0002,
            DnsValidationStatus::NoResponse => 0x0003,
            DnsValidationStatus::NotAuthForZone => 0x0004,
            DnsValidationStatus::UnknownError => 0x00FF,
            DnsValidationStatus::Other(v) => *v,
        }
    }
}

/// Flags of a node of the DNS database.
#[derive(Clone, Copy, Debug, PartialEq, Eq, Structural, Hash)]
pub struct DnsRpcNodeFlags {
    pub bits: u32,
}

impl DnsRpcNodeFlags {
    pub const CACHE_DATA: u32 = 0x8000_0000;

    pub const ZONE_ROOT: u32 = 0x4000_0000;

    pub const AUTH_ZONE_ROOT: u32 = 0x2000_0000;

    pub const ZONE_DELEGATION: u32 = 0x1000_0000;

    pub const RECORD_DEFAULT_TTL: u32 = 0x0800_0000;

    pub const RECORD_TTL_CHANGE: u32 = 0x0400_0000;

    pub const RECORD_CREATE_PTR: u32 = 0x0200_0000;

    pub const NODE_STICKY: u32 = 0x0100_0000;

    pub const NODE_COMPLETE: u32 = 0x0080_0000;

    pub const SUPPRESS_NOTIFY: u32 = 0x0001_0000;

    pub const AGING_ON: u32 = 0x0002_0000;

    pub const OPEN_ACL: u32 = 0x0004_0000;

    pub const RECORD_WIRE_FORMAT: u32 = 0x0010_0000;

    pub const SUPPRESS_RECORD_UPDATE_PTR: u32 = 0x0020_0000;

    /// Every bit that has a name.
    pub const ALL: u32 = 0xFFB7_0000;

    /// Whether every bit of `flag` is set.
    pub open spec fn has(self, flag: u32) -> bool {
        self.bits & flag == flag
    }

    /// Whether any bit of `flags` is set.
    pub open spec fn has_any(self, flags: u32) -> bool {
        self.bits & flags != 0
    }

    /// Whether no bit without a name is set.
    pub open spec fn only_named(self) -> bool {
        self.bits & DnsRpcNodeFlags::ALL == self.bits
    }

    /// The mask with the given bits.
    pub fn from(bits: u32) -> (r: DnsRpcNodeFlags)
        ensures
            r.bits == bits,
    {
        DnsRpcNodeFlags { bits }
    }

    /// The bits of the mask.
    pub fn bits(&self) -> (r: u32)
        ensures
            r == self.bits,
    {
        self.bits
    }

    /// Whether every bit of `flag` is set.
    pub fn contains(&self, flag: u32) -> (r: bool)
        ensures
            r == self.has(flag),
    {
        self.bits & flag == flag
    }

    /// Whether any bit of `flags` is set.
    pub fn intersects(&self, flags: u32) -> (r: bool)
        ensures
            r == self.has_any(flags),
    {
        self.bits & flags != 0
    }

    /// The mask without the bits that have no name.
    pub fn truncate(&self) -> (r: DnsRpcNodeFlags)
        ensures
            r.bits == self.bits & DnsRpcNodeFlags::ALL,
    {
        DnsRpcNodeFlags { bits: self.bits & DnsRpcNodeFlags::ALL }
    }

    /// Whether no bit without a name is set.
    pub fn is_truncated(&self) -> (r: bool)
        ensures
            r == self.only_named(),
    {
        self.bits & DnsRpcNodeFlags::ALL == self.bits
    }
}

impl Boolean {
    /// Whether the value is anything but zero.
    pub fn is_true(&self) -> (r: bool)
        ensures
            r == (self.number() != 0),
    {
        self.to_base_type() != 0
    }
}

impl Default for Boolean {
    fn default() -> (r: Boolean)
        ensures
            r == Boolean::False,
    {
        Boolean::False
    }
}

/// The address of a DNS server.
#[derive(Clone, Debug, PartialEq, Eq, Hash)]
pub enum DnsIpAddr {
    V4([u8; 4]),
    V6([u8; 16]),
    /// An address of a family that the decoder does not know.
    Other { family: u16, address: Vec<u8> },
}

/// The address of a DNS server with what is known of the server.
#[derive(Clone, Debug, PartialEq, Eq, Hash)]
pub struct DnsAddr {
    pub ip: DnsIpAddr,
    pub port: u16,
    pub subnet_length: u32,
    pub dns_over_tcp_available: bool,
    /// The round trip time in units of 10 milliseconds.
    pub rtt_10ms: u16,
    pub validation_status: DnsValidationStatus,
}

impl DnsAddr {
    /// `b` starts with a server address: 44 bytes and more, with a socket
    /// address whose length is plausible and holds the address of its
    /// family.
    pub open spec fn wire_ok(b: Seq<u8>) -> bool {
        &&& b.len() >= 44
        &&& 4 <= le_u32(b, 32) <= 32
        &&& le_u16(b, 0) == 0x0002 ==> le_u32(b, 32) >= 8
        &&& le_u16(b, 0) == 0x0017 ==> le_u32(b, 32) >= 24
    }

    /// `self` is the server address that `b` starts with.
    pub open spec fn decoded_from(&self, b: Seq<u8>) -> bool {
        &&& match self.ip {
            DnsIpAddr::V4(a) => le_u16(b, 0) == 0x0002 && a@ == b.subrange(4, 8),
            DnsIpAddr::V6(a) => le_u16(b, 0) == 0x0017 && a@ == b.subrange(8, 24),
            DnsIpAddr::Other { family, address } => {
                &&& family == le_u16(b, 0)
                &&& family != 0x0002
                &&& family != 0x0017
                &&& address@ == b.subrange(4, le_u32(b, 32))
            },
        }
        &&& self.port == be_u16(b, 2)
        &&& self.subnet_length == le_u32(b, 36)
        &&& self.dns_over_tcp_available == !is_bit_set(le_u32(b, 40), 31)
        &&& self.rtt_10ms == bit_range(le_u32(b, 40), 12, 12)
        &&& self.validation_status.number() == bit_range(le_u32(b, 40), 0, 12)
        &&& self.validation_status.canonical()
    }

    /// Decodes the server address that `bytes` starts with.
    pub fn try_from_bytes(bytes: &[u8]) -> (r: Option<DnsAddr>)
        ensures
            r is Some <==> DnsAddr::wire_ok(bytes@),
            r matches Some(a) ==> a.decoded_from(bytes@),
    {
        if bytes.len() < 44 {
            return None;
        }
        let address_family: u16 = read_u16_le(bytes, 0);
        let port: u16 = read_u16_be(bytes, 2);
        let sockaddr_length: u32 = read_u32_le(bytes, 32);
        let subnet_length: u32 = read_u32_le(bytes, 36);
        let flags: u32 = read_u32_le(bytes, 40);
        if sockaddr_length < 4 || sockaddr_length > 32 {
            return None;
        }
        let ip: DnsIpAddr = if address_family == 0x0002 {
            if sockaddr_length < 8 {
                return None;
            }
            DnsIpAddr::V4(array4(bytes, 4))
        } else if address_family == 0x0017 {
            if sockaddr_length < 24 {
                return None;
            }
            DnsIpAddr::V6(array16(bytes, 8))
        } else {
            let address: Vec<u8> = copy_range(bytes, 4, sockaddr_length as usize);
            DnsIpAddr::Other { family: address_family, address }
        };
        let dns_over_tcp_available: bool = !bit_is_set(flags as u64, 31);
        let rtt_10ms: u16 = extract_bits_u16(flags as u64, 12, 12);
        let validation_status: DnsValidationStatus = DnsValidationStatus::from_base_type(
            extract_bits_u16(flags as u64, 0, 12),
        );
        Some(
            DnsAddr {
                ip,
                port,
                subnet_length,
                dns_over_tcp_available,
                rtt_10ms,
                validation_status,
            },
        )
    }
}

/// What a property of a zone holds, by the identifier of the property.
#[derive(Clone, Debug, PartialEq, Eq, Hash)]
pub enum DnsPropertyData {
    /// Property 0x01.
    ZoneType(ZoneType),
    /// Property 0x02.
    AllowUpdate(AllowUpdate),
    /// Property 0x08.
    SecureTime(Timestamp),
    /// Property 0x10.
    NoRefreshInterval { hours: u32 },
    /// Property 0x20.
    RefreshInterval { hours: u32 },
    /// Property 0x40.
    AgingState(Boolean),
    /// Property 0x11.
    ScavengingServers(Vec<[u8; 4]>),
    /// Property 0x12.
    AgingEnabledTime { hours: u32 },
    /// Property 0x80.
    DeletedFromHostname(String),
    /// Property 0x81.
    MasterServers(Vec<[u8; 4]>),
    /// Property 0x82.
    AutoNsServers(Vec<[u8; 4]>),
    /// Property 0x83.
    DcPromoConvert(DcPromoFlag),
    /// Property 0x90.
    ScavengingServersDa(Vec<DnsAddr>),
    /// Property 0x91.
    MasterServersDa(Vec<DnsAddr>),
    /// Property 0x92.
    AutoNsServersDa(Vec<DnsAddr>),
    /// Property 0x100.
    DbFlags(DnsRpcNodeFlags),
    /// Any other property.
    Other { id: u32, data: Vec<u8> },
}

/// `d` is an array of IPv4 addresses: a count in four bytes and at least
/// as many addresses of four bytes each.
pub open spec fn ip4_array_ok(d: Seq<u8>) -> bool {
    d.len() >= 4 && d.len() % 4 == 0 && le_u32(d, 0) <= d.len() / 4 - 1
}

/// `v` holds every address of the array `d`.
pub open spec fn ip4_array_decoded(v: Seq<[u8; 4]>, d: Seq<u8>) -> bool {
    &&& v.len() == d.len() / 4 - 1
    &&& forall|j: int| 0 <= j < v.len() ==> (#[trigger] v[j])@ == d.subrange(4 + 4 * j, 8 + 4 * j)
}

/// `d` is an array of server addresses: a header of 32 bytes, which gives
/// their count twice, and at least as many addresses of 64 bytes each.
pub open spec fn addr_array_ok(d: Seq<u8>) -> bool {
    &&& d.len() >= 32
    &&& le_u32(d, 0) == le_u32(d, 4)
    &&& (d.len() - 32) % 64 == 0
    &&& le_u32(d, 4) <= (d.len() - 32) / 64
    &&& forall|j: int|
        0 <= j < (d.len() - 32) / 64 ==> DnsAddr::wire_ok(
            #[trigger] d.subrange(32 + 64 * j, 96 + 64 * j),
        )
}

/// `v` holds every address of the array `d`.
pub open spec fn addr_array_decoded(v: Seq<DnsAddr>, d: Seq<u8>) -> bool {
    &&& v.len() == (d.len() - 32) / 64
    &&& forall|j: int|
        0 <= j < v.len() ==> (#[trigger] v[j]).decoded_from(d.subrange(32 + 64 * j, 96 + 64 * j))
}

fn parse_ip4_array(bytes: &[u8]) -> (r: Option<Vec<[u8; 4]>>)
    ensures
        r is Some <==> ip4_array_ok(bytes@),
        r matches Some(v) ==> ip4_array_decoded(v@, bytes@),
{
    let ghost d = bytes@;
    if bytes.len() < 4 || bytes.len() % 4 != 0 {
        return None;
    }
    let addr_count: usize = read_u32_le(bytes, 0) as usize;
    let present: usize = bytes.len() / 4 - 1;
    if present < addr_count {
        return None;
    }
    let mut ret: Vec<[u8; 4]> = Vec::new();
    let mut i: usize = 0;
    while i < present
        invariant
            d == bytes@,
            d.len() == bytes.len(),
            d.len() % 4 == 0,
            present == d.len() / 4 - 1,
            i <= present,
            ret@.len() == i,
            forall|j: int|
                0 <= j < i ==> (#[trigger] ret@[j])@ == d.subrange(4 + 4 * j, 8 + 4 * j),
        decreases present - i,
    {
        ret.push(array4(bytes, 4 + 4 * i));
        i += 1;
    }
    Some(ret)
}

fn parse_dns_addr_array(bytes: &[u8]) -> (r: Option<Vec<DnsAddr>>)
    ensures
        r is Some <==> addr_array_ok(bytes@),
        r matches Some(v) ==> addr_array_decoded(v@, bytes@),
{
    let ghost d = bytes@;
    if bytes.len() < 32 {
        return None;
    }
    let max_count: u32 = read_u32_le(bytes, 0);
    let addr_count: u32 = read_u32_le(bytes, 4);
    if max_count != addr_count {
        return None;
    }
    if (bytes.len() - 32) % 64 != 0 {
        return None;
    }
    let present: usize = (bytes.len() - 32) / 64;
    if present < addr_count as usize {
        return None;
    }
    let mut ret: Vec<DnsAddr> = Vec::new();
    let mut i: usize = 0;
    while i < present
        invariant
            d == bytes@,
            d.len() == bytes.len(),
            d.len() >= 32,
            (d.len() - 32) % 64 == 0,
            present == (d.len() - 32) / 64,
            i <= present,
            ret@.len() == i,
            forall|j: int|
                0 <= j < i ==> DnsAddr::wire_ok(#[trigger] d.subrange(32 + 64 * j, 96 + 64 * j)),
            forall|j: int|
                0 <= j < i ==> (#[trigger] ret@[j]).decoded_from(
                    d.subrange(32 + 64 * j, 96 + 64 * j),
                ),
        decreases present - i,
    {
        let addr: DnsAddr = match DnsAddr::try_from_bytes(&bytes[32 + 64 * i..96 + 64 * i]) {
            Some(a) => a,
            None => {
                return None;
            },
        };
        ret.push(addr);
        i += 1;
    }
    Some(ret)
}

/// The layouts that the data of a property can have.
#[derive(Clone, Copy, Debug, PartialEq, Eq, Structural)]
pub enum PropertyShape {
    /// A number of 32 bits, or nothing where the property has a default.
    Number,
    /// A number of 32 bits, or of 8 bits.
    NumberOrByte,
    /// A number of 32 bits, which may not be left out.
    RequiredNumber,
    /// A count of seconds in 64 bits, or nothing.
    Seconds,
    /// An array of IPv4 addresses, or nothing.
    Ip4Array,
    /// An array of server addresses, or nothing.
    AddrArray,
    /// A text in UTF-16 that a zero word may end.
    Text,
    /// Nothing that the decoder knows.
    Other,
}

/// The layout of the data of the property `id`.
pub open spec fn property_shape(id: u32) -> PropertyShape {
    if id == 0x01 || id == 0x10 || id == 0x20 || id == 0x40 || id == 0x12 {
        PropertyShape::Number
    } else if id == 0x02 {
        PropertyShape::NumberOrByte
    } else if id == 0x83 || id == 0x100 {
        PropertyShape::RequiredNumber
    } else if id == 0x08 {
        PropertyShape::Seconds
    } else if id == 0x11 || id == 0x81 || id == 0x82 {
        PropertyShape::Ip4Array
    } else if id == 0x90 || id == 0x91 || id == 0x92 {
        PropertyShape::AddrArray
    } else if id == 0x80 {
        PropertyShape::Text
    } else {
        PropertyShape::Other
    }
}

fn shape_of_property(id: u32) -> (r: PropertyShape)
    ensures
        r == property_shape(id),
{
    if id == 0x01 || id == 0x10 || id == 0x20 || id == 0x40 || id == 0x12 {
        PropertyShape::Number
    } else if id == 0x02 {
        PropertyShape::NumberOrByte
    } else if id == 0x83 || id == 0x100 {
        PropertyShape::RequiredNumber
    } else if id == 0x08 {
        PropertyShape::Seconds
    } else if id == 0x11 || id == 0x81 || id == 0x82 {
        PropertyShape::Ip4Array
    } else if id == 0x90 || id == 0x91 || id == 0x92 {
        PropertyShape::AddrArray
    } else if id == 0x80 {
        PropertyShape::Text
    } else {
        PropertyShape::Other
    }
}

/// The number that a property of the layout `Number` holds where its data
/// is left out.
pub open spec fn default_number(id: u32) -> u32 {
    if id == 0x01 {
        1
    } else if id == 0x10 || id == 0x20 {
        168
    } else {
        0
    }
}

/// The number that the data `d` of a property of a numeric layout holds.
pub open spec fn property_number(id: u32, d: Seq<u8>) -> int {
    if d.len() == 0 {
        default_number(id) as int
    } else if d.len() == 1 {
        d[0] as int
    } else {
        le_u32(d, 0)
    }
}

impl DnsPropertyData {
    /// The identifier of the property that the variant stands for.
    pub open spec fn id(&self) -> u32 {
        match self {
            DnsPropertyData::ZoneType(_) => 0x01,
            DnsPropertyData::AllowUpdate(_) => 0x02,
            DnsPropertyData::SecureTime(_) => 0x08,
            DnsPropertyData::NoRefreshInterval { .. } => 0x10,
            DnsPropertyData::RefreshInterval { .. } => 0x20,
            DnsPropertyData::AgingState(_) => 0x40,
            DnsPropertyData::ScavengingServers(_) => 0x11,
            DnsPropertyData::AgingEnabledTime { .. } => 0x12,
            DnsPropertyData::DeletedFromHostname(_) => 0x80,
            DnsPropertyData::MasterServers(_) => 0x81,
            DnsPropertyData::AutoNsServers(_) => 0x82,
            DnsPropertyData::DcPromoConvert(_) => 0x83,
            DnsPropertyData::ScavengingServersDa(_) => 0x90,
            DnsPropertyData::MasterServersDa(_) => 0x91,
            DnsPropertyData::AutoNsServersDa(_) => 0x92,
            DnsPropertyData::DbFlags(_) => 0x100,
            DnsPropertyData::Other { id, .. } => *id,
        }
    }

    /// `d` is well-formed data of the property `id`.
    pub open spec fn wire_ok(id: u32, d: Seq<u8>) -> bool {
        match property_shape(id) {
            PropertyShape::Number => d.len() == 0 || d.len() == 4,
            PropertyShape::NumberOrByte => d.len() == 1 || d.len() == 4,
            PropertyShape::RequiredNumber => d.len() == 4,
            PropertyShape::Seconds => d.len() == 0 || d.len() == 8,
            PropertyShape::Ip4Array => d.len() == 0 || ip4_array_ok(d),
            PropertyShape::AddrArray => d.len() == 0 || addr_array_ok(d),
            PropertyShape::Text => d.len() % 2 == 0 && nul_terminated_text(d) is Some,
            PropertyShape::Other => true,
        }
    }

    /// `self` is what the data `d` of a property holds. The variant is
    /// the one of the property's identifier.
    pub open spec fn decoded_from(&self, d: Seq<u8>) -> bool {
        match self {
            DnsPropertyData::ZoneType(v) => v.number() == property_number(0x01, d) && v.canonical(),
            DnsPropertyData::AllowUpdate(v) => v.number() == property_number(0x02, d)
                && v.canonical(),
            DnsPropertyData::SecureTime(t) => *t == Timestamp::of_seconds(
                if d.len() == 0 {
                    0
                } else {
                    le_i64(d, 0)
                },
            ),
            DnsPropertyData::NoRefreshInterval { hours } => *hours == property_number(0x10, d),
            DnsPropertyData::RefreshInterval { hours } => *hours == property_number(0x20, d),
            DnsPropertyData::AgingState(v) => v.number() == property_number(0x40, d)
                && v.canonical(),
            DnsPropertyData::AgingEnabledTime { hours } => *hours == property_number(0x12, d),
            DnsPropertyData::DcPromoConvert(v) => v.number() == property_number(0x83, d)
                && v.canonical(),
            DnsPropertyData::DbFlags(v) => v.bits == property_number(0x100, d),
            DnsPropertyData::ScavengingServers(v) => if d.len() == 0 {
                v@.len() == 0
            } else {
                ip4_array_decoded(v@, d)
            },
            DnsPropertyData::MasterServers(v) => if d.len() == 0 {
                v@.len() == 0
            } else {
                ip4_array_decoded(v@, d)
            },
            DnsPropertyData::AutoNsServers(v) => if d.len() == 0 {
                v@.len() == 0
            } else {
                ip4_array_decoded(v@, d)
            },
            DnsPropertyData::ScavengingServersDa(v) => if d.len() == 0 {
                v@.len() == 0
            } else {
                addr_array_decoded(v@, d)
            },
            DnsPropertyData::MasterServersDa(v) => if d.len() == 0 {
                v@.len() == 0
            } else {
                addr_array_decoded(v@, d)
            },
            DnsPropertyData::AutoNsServersDa(v) => if d.len() == 0 {
                v@.len() == 0
            } else {
                addr_array_decoded(v@, d)
            },
            DnsPropertyData::DeletedFromHostname(t) => Some(t@) == nul_terminated_text(d),
            DnsPropertyData::Other { data, .. } => data@ == d,
        }
    }

    /// Decodes the data of the property `id`.
    pub fn try_from_bytes(id: u32, data_bytes: &[u8]) -> (r: Option<DnsPropertyData>)
        ensures
            r is Some <==> DnsPropertyData::wire_ok(id, data_bytes@),
            r matches Some(d) ==> d.id() == id && d.decoded_from(data_bytes@) && (d is Other
                <==> property_shape(id) == PropertyShape::Other),
    {
        let is_default: bool = data_bytes.len() == 0;
        match shape_of_property(id) {
            PropertyShape::Number => {
                let number: u32 = if is_default {
                    if id == 0x01 {
                        1
                    } else if id == 0x10 || id == 0x20 {
                        168
                    } else {
                        0
                    }
                } else if data_bytes.len() != 4 {
                    return None;
                } else {
                    read_u32_le(data_bytes, 0)
                };
                Some(
                    if id == 0x01 {
                        DnsPropertyData::ZoneType(ZoneType::from_base_type(number))
                    } else if id == 0x10 {
                        DnsPropertyData::NoRefreshInterval { hours: number }
                    } else if id == 0x20 {
                        DnsPropertyData::RefreshInterval { hours: number }
                    } else if id == 0x40 {
                        DnsPropertyData::AgingState(Boolean::from_base_type(number))
                    } else {
                        DnsPropertyData::AgingEnabledTime { hours: number }
                    },
                )
            },
            PropertyShape::NumberOrByte => {
                if data_bytes.len() == 1 {
                    Some(
                        DnsPropertyData::AllowUpdate(
                            AllowUpdate::from_base_type(data_bytes[0] as u32),
                        ),
                    )
                } else if data_bytes.len() != 4 {
                    None
                } else {
                    Some(
                        DnsPropertyData::AllowUpdate(
                            AllowUpdate::from_base_type(read_u32_le(data_bytes, 0)),
                        ),
                    )
                }
            },
            PropertyShape::RequiredNumber => {
                if data_bytes.len() != 4 {
                    return None;
                }
                let number: u32 = read_u32_le(data_bytes, 0);
                Some(
                    if id == 0x83 {
                        DnsPropertyData::DcPromoConvert(DcPromoFlag::from_base_type(number))
                    } else {
                        DnsPropertyData::DbFlags(DnsRpcNodeFlags::from(number))
                    },
                )
            },
            PropertyShape::Seconds => {
                if is_default {
                    Some(DnsPropertyData::SecureTime(utc_seconds_relative_to_1601(0)))
                } else if data_bytes.len() != 8 {
                    None
                } else {
                    let seconds: i64 = read_i64_le(data_bytes, 0);
                    Some(DnsPropertyData::SecureTime(utc_seconds_relative_to_1601(seconds)))
                }
            },
            PropertyShape::Ip4Array => {
                let servers: Vec<[u8; 4]> = if is_default {
                    Vec::new()
                } else {
                    match parse_ip4_array(data_bytes) {
                        Some(s) => s,
                        None => {
                            return None;
                        },
                    }
                };
                Some(
                    if id == 0x11 {
                        DnsPropertyData::ScavengingServers(servers)
                    } else if id == 0x81 {
                        DnsPropertyData::MasterServers(servers)
                    } else {
                        DnsPropertyData::AutoNsServers(servers)
                    },
                )
            },
            PropertyShape::AddrArray => {
                let servers: Vec<DnsAddr> = if is_default {
                    Vec::new()
                } else {
                    match parse_dns_addr_array(data_bytes) {
                        Some(s) => s,
                        None => {
                            return None;
                        },
                    }
                };
                Some(
                    if id == 0x90 {
                        DnsPropertyData::ScavengingServersDa(servers)
                    } else if id == 0x91 {
                        DnsPropertyData::MasterServersDa(servers)
                    } else {
                        DnsPropertyData::AutoNsServersDa(servers)
                    },
                )
            },
            PropertyShape::Text => {
                if data_bytes.len() % 2 != 0 {
                    return None;
                }
                match nul_terminated_utf16le_string(data_bytes) {
                    Some(hostname) => Some(DnsPropertyData::DeletedFromHostname(hostname)),
                    None => None,
                }
            },
            PropertyShape::Other => {
                let data: Vec<u8> = copy_range(data_bytes, 0, data_bytes.len());
                assert(data_bytes@.subrange(0, data_bytes@.len() as int) =~= data_bytes@);
                Some(DnsPropertyData::Other { id, data })
            },
        }
    }
}

/// A property of a DNS zone.
#[derive(Clone, Debug, PartialEq, Eq, Hash)]
pub struct DnsProperty {
    pub name_length: u32,
    pub flag: u32,
    pub version: u32,
    /// Whether the data is left out, so that the default holds.
    pub is_default: bool,
    pub data: DnsPropertyData,
}

impl DnsProperty {
    /// Where the data of the property `b` ends and its name starts.
    pub open spec fn name_at(b: Seq<u8>) -> int {
        20 + le_u32(b, 0)
    }

    /// `b` is one property of version 1: a header of 20 bytes, which
    /// gives the length of the data, well-formed data of that length, and
    /// a name of one byte or more.
    pub open spec fn wire_ok(b: Seq<u8>) -> bool {
        &&& b.len() >= 21
        &&& le_u32(b, 12) == 1
        &&& DnsProperty::name_at(b) + 1 <= b.len()
        &&& DnsPropertyData::wire_ok(le_u32(b, 16) as u32, b.subrange(20, DnsProperty::name_at(b)))
    }

    /// `self` is the property that `b` holds.
    pub open spec fn decoded_from(&self, b: Seq<u8>) -> bool {
        &&& self.name_length == le_u32(b, 4)
        &&& self.flag == le_u32(b, 8)
        &&& self.version == 1
        &&& self.is_default == (le_u32(b, 0) == 0)
        &&& self.data.id() == le_u32(b, 16)
        &&& self.data is Other <==> property_shape(le_u32(b, 16) as u32) == PropertyShape::Other
        &&& self.data.decoded_from(b.subrange(20, DnsProperty::name_at(b)))
    }

    /// Decodes a property of a zone.
    pub fn try_from_bytes(bytes: &[u8]) -> (r: Option<DnsProperty>)
        ensures
            r is Some <==> DnsProperty::wire_ok(bytes@),
            r matches Some(p) ==> p.decoded_from(bytes@),
    {
        if bytes.len() < 21 {
            return None;
        }
        let data_length: usize = read_u32_le(bytes, 0) as usize;
        let name_length: u32 = read_u32_le(bytes, 4);
        let flag: u32 = read_u32_le(bytes, 8);
        let version: u32 = read_u32_le(bytes, 12);
        let id: u32 = read_u32_le(bytes, 16);
        if version != 1 {
            return None;
        }
        if bytes.len() - 21 < data_length {
            return None;
        }
        let is_default: bool = data_length == 0;
        let data: DnsPropertyData = match DnsPropertyData::try_from_bytes(
            id,
            &bytes[20..20 + data_length],
        ) {
            Some(d) => d,
            None => {
                return None;
            },
        };
        Some(DnsProperty { name_length, flag, version, is_default, data })
    }
}

} // verus!
