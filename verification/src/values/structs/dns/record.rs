//! Resource records as the DNS server stores them in the directory.

use crate::text::string_from_utf8;
use crate::time::{utc_ticks_relative_to_1601, Timestamp};
use crate::wire::{
    array16, array4, be_u16, be_u32, copy_range, le_i64, le_u16, le_u32, read_i64_le, read_u16_be,
    read_u16_le, read_u32_be, read_u32_le, tail,
};
use vstd::prelude::*;
use vstd::string::StringExecFns;
use vstd::utf8::{decode_utf8, valid_utf8};

verus! {

/// How far the data of a record can be trusted.
#[derive(Clone, Copy, Debug, PartialEq, Eq, Structural, Hash)]
pub enum Rank {
    CacheBit,
    RootHint,
    OutsideGlue,
    CacheNaAdditional,
    CacheNaAuthority,
    CacheAAdditional,
    CacheNaAnswer,
    CacheAAuthority,
    Glue,
    NsGlue,
    CacheAAnswer,
    Zone,
    /// Any other number.
    Other(u16),
}

impl Rank {
    /// The number that stands for the value.
    pub open spec fn number(self) -> u16 {
        match self {
            Rank::CacheBit => 0x0001,
            Rank::RootHint => 0x0008,
            Rank::OutsideGlue => 0x0020,
            Rank::CacheNaAdditional => 0x0031,
            Rank::CacheNaAuthority => 0x0041,
            Rank::CacheAAdditional => 0x0051,
            Rank::CacheNaAnswer => 0x0061,
            Rank::CacheAAuthority => 0x0071,
            Rank::Glue => 0x0080,
            Rank::NsGlue => 0x0082,
            Rank::CacheAAnswer => 0x00C1,
            Rank::Zone => 0x00F0,
            Rank::Other(v) => v,
        }
    }

    /// `Other` holds no number that has a name.
    pub open spec fn canonical(self) -> bool {
        self matches Rank::Other(v) ==> Rank::named(v) is None
    }

    /// The named value with the number `value`, if there is one.
    pub open spec fn named(value: u16) -> Option<Rank> {
        if value == 0x0001 {
            Some(Rank::CacheBit)
        } else if value == 0x0008 {
            Some(Rank::RootHint)
        } else if value == 0x0020 {
            Some(Rank::OutsideGlue)
        } else if value == 0x0031 {
            Some(Rank::CacheNaAdditional)
        } else if value == 0x0041 {
            Some(Rank::CacheNaAuthority)
        } else if value == 0x0051 {
            Some(Rank::CacheAAdditional)
        } else if value == 0x0061 {
            Some(Rank::CacheNaAnswer)
        } else if value == 0x0071 {
            Some(Rank::CacheAAuthority)
        } else if value == 0x0080 {
            Some(Rank::Glue)
        } else if value == 0x0082 {
            Some(Rank::NsGlue)
        } else if value == 0x00C1 {
            Some(Rank::CacheAAnswer)
        } else if value == 0x00F0 {
            Some(Rank::Zone)
        } else {
            None
        }
    }

    /// The value with the number `value`.
    pub fn from_base_type(value: u16) -> (r: Rank)
        ensures
            r.number() == value,
            r.canonical(),
            r == match Rank::named(value) {
                Some(v) => v,
                None => Rank::Other(value),
            },
    {
        if value == 0x0001 {
            Rank::CacheBit
        } else if value == 0x0008 {
            Rank::RootHint
        } else if value == 0x0020 {
            Rank::OutsideGlue
        } else if value == 0x0031 {
            Rank::CacheNaAdditional
        } else if value == 0x0041 {
            Rank::CacheNaAuthority
        } else if value == 0x0051 {
            Rank::CacheAAdditional
        } else if value == 0x0061 {
            Rank::CacheNaAnswer
        } else if value == 0x0071 {
            Rank::CacheAAuthority
        } else if value == 0x0080 {
            Rank::Glue
        } else if value == 0x0082 {
            Rank::NsGlue
        } else if value == 0x00C1 {
            Rank::CacheAAnswer
        } else if value == 0x00F0 {
            Rank::Zone
        } else {
            Rank::Other(value)
        }
    }

    /// The number that stands for the value.
    pub fn to_base_type(&self) -> (r: u16)
        ensures
            r == self.number(),
    {
        match self {
            Rank::CacheBit => 0x0001,
            Rank::RootHint => 0x0008,
            Rank::OutsideGlue => 0x0020,
            Rank::CacheNaAdditional => 0x0031,
            Rank::CacheNaAuthority => 0x0041,
            Rank::CacheAAdditional => 0x0051,
            Rank::CacheNaAnswer => 0x0061,
            Rank::CacheAAuthority => 0x0071,
            Rank::Glue => 0x0080,
            Rank::NsGlue => 0x0082,
            Rank::CacheAAnswer => 0x00C1,
            Rank::Zone => 0x00F0,
            Rank::Other(v) => *v,
        }
    }
}

/// Flags of a record.
#[derive(Clone, Copy, Debug, PartialEq, Eq, Structural, Hash, PartialOrd, Ord)]
pub struct Flags {
    pub bits: u16,
}

impl Flags {
    pub const ZONE_ROOT: u16 = 0x4000;

    pub const AUTH_ZONE_ROOT: u16 = 0x2000;

    pub const CACHE_DATA: u16 = 0x8000;

    pub const RECORD_WIRE_FORMAT: u16 = 0x0010;

    /// Every bit that has a name.
    pub const ALL: u16 = 0xE010;

    /// Whether every bit of `flag` is set.
    pub open spec fn has(self, flag: u16) -> bool {
        self.bits & flag == flag
    }

    /// Whether any bit of `flags` is set.
    pub open spec fn has_any(self, flags: u16) -> bool {
        self.bits & flags != 0
    }

    /// Whether no bit without a name is set.
    pub open spec fn only_named(self) -> bool {
        self.bits & Flags::ALL == self.bits
    }

    /// The mask with the given bits.
    pub fn from(bits: u16) -> (r: Flags)
        ensures
            r.bits == bits,
    {
        Flags { bits }
    }

    /// The bits of the mask.
    pub fn bits(&self) -> (r: u16)
        ensures
            r == self.bits,
    {
        self.bits
    }

    /// Whether every bit of `flag` is set.
    pub fn contains(&self, flag: u16) -> (r: bool)
        ensures
            r == self.has(flag),
    {
        self.bits & flag == flag
    }

    /// Whether any bit of `flags` is set.
    pub fn intersects(&self, flags: u16) -> (r: bool)
        ensures
            r == self.has_any(flags),
    {
        self.bits & flags != 0
    }

    /// The mask without the bits that have no name.
    pub fn truncate(&self) -> (r: Flags)
        ensures
            r.bits == self.bits & Flags::ALL,
    {
        Flags { bits: self.bits & Flags::ALL }
    }

    /// Whether no bit without a name is set.
    pub fn is_truncated(&self) -> (r: bool)
        ensures
            r == self.only_named(),
    {
        self.bits & Flags::ALL == self.bits
    }
}

/// Flags of a WINS lookup record.
#[derive(Clone, Copy, Debug, PartialEq, Eq, Structural, Hash, PartialOrd, Ord)]
pub struct WinsMappingFlag {
    pub bits: u32,
}

impl WinsMappingFlag {
    pub const SCOPE: u32 = 0x8000_0000;

    pub const LOCAL: u32 = 0x0001_0000;

    /// Every bit that has a name.
    pub const ALL: u32 = 0x8001_0000;

    /// Whether every bit of `flag` is set.
    pub open spec fn has(self, flag: u32) -> bool {
        self.bits & flag == flag
    }

    /// Whether any bit of `flags` is set.
    pub open spec fn has_any(self, flags: u32) -> bool {
        self.bits & flags != 0
    }

    /// Whether no bit without a name is set.
    pub open spec fn only_named(self) -> bool {
        self.bits & WinsMappingFlag::ALL == self.bits
    }

    /// The mask with the given bits.
    pub fn from(bits: u32) -> (r: WinsMappingFlag)
        ensures
            r.bits == bits,
    {
        WinsMappingFlag { bits }
    }

    /// The bits of the mask.
    pub fn bits(&self) -> (r: u32)
        ensures
            r == self.bits,
    {
        self.bits
    }

    /// Whether every bit of `flag` is set.
    pub fn contains(&self, flag: u32) -> (r: bool)
        ensures
            r == self.has(flag),
    {
        self.bits & flag == flag
    }

    /// Whether any bit of `flags` is set.
    pub fn intersects(&self, flags: u32) -> (r: bool)
        ensures
            r == self.has_any(flags),
    {
        self.bits & flags != 0
    }

    /// The mask without the bits that have no name.
    pub fn truncate(&self) -> (r: WinsMappingFlag)
        ensures
            r.bits == self.bits & WinsMappingFlag::ALL,
    {
        WinsMappingFlag { bits: self.bits & WinsMappingFlag::ALL }
    }

    /// Whether no bit without a name is set.
    pub fn is_truncated(&self) -> (r: bool)
        ensures
            r == self.only_named(),
    {
        self.bits & WinsMappingFlag::ALL == self.bits
    }
}

/// `b` starts with a character string: a length byte and as many bytes of
/// UTF-8.
pub open spec fn string_ok(b: Seq<u8>) -> bool {
    b.len() >= 1 && 1 + b[0] <= b.len() && valid_utf8(b.subrange(1, 1 + b[0]))
}

/// The bytes that the character string at the start of `b` takes.
pub open spec fn string_len(b: Seq<u8>) -> int {
    1 + b[0]
}

/// The text of the character string at the start of `b`.
pub open spec fn string_text(b: Seq<u8>) -> Seq<char> {
    decode_utf8(b.subrange(1, 1 + b[0]))
}

/// Where label `j` starts in the labels `s` of a counted name: each label
/// is a length byte and as many bytes of text.
pub open spec fn label_offset(s: Seq<u8>, j: nat) -> int
    decreases j,
{
    if j == 0 {
        0
    } else {
        label_offset(s, (j - 1) as nat) + 1 + s[label_offset(s, (j - 1) as nat)]
    }
}

/// Label `j` lies within `s` and is UTF-8.
pub open spec fn label_fits(s: Seq<u8>, j: nat) -> bool {
    &&& 0 <= label_offset(s, j) < s.len()
    &&& label_offset(s, j + 1) <= s.len()
    &&& valid_utf8(s.subrange(label_offset(s, j) + 1, label_offset(s, j + 1)))
}

/// The first `k` labels of `s`, each followed by a dot.
pub open spec fn name_upto(s: Seq<u8>, k: nat) -> Seq<char>
    decreases k,
{
    if k == 0 {
        Seq::empty()
    } else {
        name_upto(s, (k - 1) as nat) + decode_utf8(
            s.subrange(label_offset(s, (k - 1) as nat) + 1, label_offset(s, k)),
        ) + "."@
    }
}

/// The labels of the counted name at the start of `b`.
pub open spec fn name_labels(b: Seq<u8>) -> Seq<u8> {
    b.subrange(2, 2 + b[0])
}

/// `b` starts with a counted name: the length of the labels, the count of
/// the labels, and the labels, which end in a zero byte that ends the
/// name.
pub open spec fn count_name_ok(b: Seq<u8>) -> bool {
    &&& b.len() >= 2
    &&& 2 + b[0] <= b.len()
    &&& forall|j: nat| j < b[1] ==> #[trigger] label_fits(name_labels(b), j)
    &&& label_offset(name_labels(b), b[1] as nat) + 1 == b[0]
    &&& name_labels(b)[label_offset(name_labels(b), b[1] as nat)] == 0
}

/// The bytes that the counted name at the start of `b` takes.
pub open spec fn count_name_len(b: Seq<u8>) -> int {
    2 + b[0]
}

/// The text of the counted name at the start of `b`: its labels, each
/// followed by a dot.
pub open spec fn count_name_text(b: Seq<u8>) -> Seq<char> {
    name_upto(name_labels(b), b[1] as nat)
}

/// A counted name starts at `at` and ends where `b` ends.
pub open spec fn name_fills(b: Seq<u8>, at: int) -> bool {
    count_name_ok(tail(b, at)) && name_end(b, at) == b.len()
}

/// Where the counted name that starts at `at` ends.
pub open spec fn name_end(b: Seq<u8>, at: int) -> int {
    at + 2 + b[at]
}

/// Where the character string that starts at `at` ends.
pub open spec fn string_end(b: Seq<u8>, at: int) -> int {
    at + 1 + b[at]
}

fn name_at(bytes: &[u8], at: usize) -> (r: Option<(String, usize)>)
    requires
        at <= bytes.len(),
    ensures
        r is Some <==> count_name_ok(tail(bytes@, at as int)),
        r matches Some((t, end)) ==> t@ == count_name_text(tail(bytes@, at as int)) && end
            == name_end(bytes@, at as int) && end <= bytes.len(),
{
    match Data::decode_count_name(&bytes[at..bytes.len()]) {
        Some((t, n)) => Some((t, at + n)),
        None => None,
    }
}

fn string_at(bytes: &[u8], at: usize) -> (r: Option<(String, usize)>)
    requires
        at <= bytes.len(),
    ensures
        r is Some <==> string_ok(tail(bytes@, at as int)),
        r matches Some((t, end)) ==> t@ == string_text(tail(bytes@, at as int)) && end
            == string_end(bytes@, at as int) && end <= bytes.len(),
{
    match Data::decode_string(&bytes[at..bytes.len()]) {
        Some((t, n)) => Some((t, at + n)),
        None => None,
    }
}

/// The time at which a deleted record was entombed.
#[derive(Clone, Debug, PartialEq, Eq, Hash, PartialOrd, Ord)]
pub struct TombstoneData {
    pub entombed_time: Timestamp,
}

impl TombstoneData {
    /// `b` is well-formed data of this layout, all of whose bytes belong
    /// to a field.
    pub open spec fn wire_ok(b: Seq<u8>) -> bool {
        b.len() == 8
    }

    /// `self` is what the data `b` holds.
    pub open spec fn decoded_from(&self, b: Seq<u8>) -> bool {
        self.entombed_time == Timestamp::of_ticks(le_i64(b, 0))
    }

    /// Decodes data of this layout.
    pub fn decode(bytes: &[u8]) -> (r: Option<TombstoneData>)
        ensures
            r is Some <==> TombstoneData::wire_ok(bytes@),
            r matches Some(d) ==> d.decoded_from(bytes@),
    {
        if bytes.len() != 8 {
            return None;
        }
        let entombed_time: Timestamp = utc_ticks_relative_to_1601(read_i64_le(bytes, 0));
        Some(TombstoneData { entombed_time })
    }
}

/// An IPv4 address.
#[derive(Clone, Debug, PartialEq, Eq, Hash, PartialOrd, Ord)]
pub struct Ipv4AddrData {
    pub address: [u8; 4],
}

impl Ipv4AddrData {
    /// `b` is well-formed data of this layout, all of whose bytes belong
    /// to a field.
    pub open spec fn wire_ok(b: Seq<u8>) -> bool {
        b.len() == 4
    }

    /// `self` is what the data `b` holds.
    pub open spec fn decoded_from(&self, b: Seq<u8>) -> bool {
        self.address@ == b
    }

    /// Decodes data of this layout.
    pub fn decode(bytes: &[u8]) -> (r: Option<Ipv4AddrData>)
        ensures
            r is Some <==> Ipv4AddrData::wire_ok(bytes@),
            r matches Some(d) ==> d.decoded_from(bytes@),
    {
        if bytes.len() != 4 {
            return None;
        }
        let address: [u8; 4] = array4(bytes, 0);
        assert(bytes@.subrange(0, 4) =~= bytes@);
        Some(Ipv4AddrData { address })
    }
}

/// The name of a node.
#[derive(Clone, Debug, PartialEq, Eq, Hash, PartialOrd, Ord)]
pub struct NodeNameData {
    pub name: String,
}

impl NodeNameData {
    /// `b` is well-formed data of this layout, all of whose bytes belong
    /// to a field.
    pub open spec fn wire_ok(b: Seq<u8>) -> bool {
        name_fills(b, 0)
    }

    /// `self` is what the data `b` holds.
    pub open spec fn decoded_from(&self, b: Seq<u8>) -> bool {
        self.name@ == count_name_text(tail(b, 0))
    }

    /// Decodes data of this layout.
    pub fn decode(bytes: &[u8]) -> (r: Option<NodeNameData>)
        ensures
            r is Some <==> NodeNameData::wire_ok(bytes@),
            r matches Some(d) ==> d.decoded_from(bytes@),
    {
        let (name, end) = match name_at(bytes, 0) {
            Some(v) => v,
            None => {
                return None;
            },
        };
        if end != bytes.len() {
            return None;
        }
        Some(NodeNameData { name })
    }
}

/// A preference and a name.
#[derive(Clone, Debug, PartialEq, Eq, Hash, PartialOrd, Ord)]
pub struct PreferenceNameData {
    pub preference: u16,
    pub name: String,
}

impl PreferenceNameData {
    /// `b` is well-formed data of this layout, all of whose bytes belong
    /// to a field.
    pub open spec fn wire_ok(b: Seq<u8>) -> bool {
        b.len() >= 3 && name_fills(b, 2)
    }

    /// `self` is what the data `b` holds.
    pub open spec fn decoded_from(&self, b: Seq<u8>) -> bool {
        self.preference == be_u16(b, 0) && self.name@ == count_name_text(tail(b, 2))
    }

    /// Decodes data of this layout.
    pub fn decode(bytes: &[u8]) -> (r: Option<PreferenceNameData>)
        ensures
            r is Some <==> PreferenceNameData::wire_ok(bytes@),
            r matches Some(d) ==> d.decoded_from(bytes@),
    {
        if bytes.len() < 3 {
            return None;
        }
        let preference: u16 = read_u16_be(bytes, 0);
        let (name, end) = match name_at(bytes, 2) {
            Some(v) => v,
            None => {
                return None;
            },
        };
        if end != bytes.len() {
            return None;
        }
        Some(PreferenceNameData { preference, name })
    }
}

/// The start of a zone of authority.
#[derive(Clone, Debug, PartialEq, Eq, Hash, PartialOrd, Ord)]
pub struct StartOfAuthorityData {
    pub serial_number: u32,
    pub refresh: u32,
    pub retry: u32,
    pub expire: u32,
    pub minimum_ttl: u32,
    pub primary_server_name: String,
    pub zone_admin_email: String,
}

impl StartOfAuthorityData {
    /// `b` is well-formed data of this layout, all of whose bytes belong
    /// to a field.
    pub open spec fn wire_ok(b: Seq<u8>) -> bool {
        &&& b.len() >= 22
        &&& count_name_ok(tail(b, 20))
        &&& name_fills(b, name_end(b, 20))
    }

    /// `self` is what the data `b` holds.
    pub open spec fn decoded_from(&self, b: Seq<u8>) -> bool {
        &&& self.serial_number == le_u32(b, 0)
        &&& self.refresh == le_u32(b, 4)
        &&& self.retry == le_u32(b, 8)
        &&& self.expire == le_u32(b, 12)
        &&& self.minimum_ttl == le_u32(b, 16)
        &&& self.primary_server_name@ == count_name_text(tail(b, 20))
        &&& self.zone_admin_email@ == count_name_text(tail(b, name_end(b, 20)))
    }

    /// Decodes data of this layout.
    pub fn decode(bytes: &[u8]) -> (r: Option<StartOfAuthorityData>)
        ensures
            r is Some <==> StartOfAuthorityData::wire_ok(bytes@),
            r matches Some(d) ==> d.decoded_from(bytes@),
    {
        if bytes.len() < 22 {
            return None;
        }
        let serial_number: u32 = read_u32_le(bytes, 0);
        let refresh: u32 = read_u32_le(bytes, 4);
        let retry: u32 = read_u32_le(bytes, 8);
        let expire: u32 = read_u32_le(bytes, 12);
        let minimum_ttl: u32 = read_u32_le(bytes, 16);
        let (primary_server_name, position) = match name_at(bytes, 20) {
            Some(v) => v,
            None => {
                return None;
            },
        };
        let (zone_admin_email, position) = match name_at(bytes, position) {
            Some(v) => v,
            None => {
                return None;
            },
        };
        if position != bytes.len() {
            return None;
        }
        Some(
            StartOfAuthorityData {
                serial_number,
                refresh,
                retry,
                expire,
                minimum_ttl,
                primary_server_name,
                zone_admin_email,
            },
        )
    }
}

/// Bytes without a structure.
#[derive(Clone, Debug, PartialEq, Eq, Hash, PartialOrd, Ord)]
pub struct BytesData {
    pub value: Vec<u8>,
}

impl BytesData {
    /// `self` is what the data `b` holds.
    pub open spec fn decoded_from(&self, b: Seq<u8>) -> bool {
        self.value@ == b
    }

    /// Decodes data of this layout.
    pub fn decode(bytes: &[u8]) -> (r: BytesData)
        ensures
            r.decoded_from(bytes@),
    {
        let value: Vec<u8> = copy_range(bytes, 0, bytes.len());
        assert(bytes@.subrange(0, bytes@.len() as int) =~= bytes@);
        BytesData { value }
    }
}

/// The well-known services of a host.
#[derive(Clone, Debug, PartialEq, Eq, Hash, PartialOrd, Ord)]
pub struct WellKnownServiceData {
    pub address: [u8; 4],
    pub ip_protocol: u8,
    pub service_bitmask: Vec<u8>,
}

impl WellKnownServiceData {
    /// `b` is well-formed data of this layout, all of whose bytes belong
    /// to a field.
    pub open spec fn wire_ok(b: Seq<u8>) -> bool {
        b.len() >= 5
    }

    /// `self` is what the data `b` holds.
    pub open spec fn decoded_from(&self, b: Seq<u8>) -> bool {
        &&& self.address@ == b.subrange(0, 4)
        &&& self.ip_protocol == b[4]
        &&& self.service_bitmask@ == tail(b, 5)
    }

    /// Decodes data of this layout.
    pub fn decode(bytes: &[u8]) -> (r: Option<WellKnownServiceData>)
        ensures
            r is Some <==> WellKnownServiceData::wire_ok(bytes@),
            r matches Some(d) ==> d.decoded_from(bytes@),
    {
        if bytes.len() < 5 {
            return None;
        }
        let address: [u8; 4] = array4(bytes, 0);
        let ip_protocol: u8 = bytes[4];
        let service_bitmask: Vec<u8> = copy_range(bytes, 5, bytes.len());
        Some(WellKnownServiceData { address, ip_protocol, service_bitmask })
    }
}

/// Where character string `j` of a run of character strings starts.
pub open spec fn string_offset(b: Seq<u8>, j: nat) -> int
    decreases j,
{
    if j == 0 {
        0
    } else {
        string_end(b, string_offset(b, (j - 1) as nat))
    }
}

/// From `at` on, `b` is a run of character strings that ends where `b`
/// ends.
pub open spec fn strings_fill(b: Seq<u8>, at: int) -> bool
    decreases b.len() - at,
{
    if at >= b.len() {
        at == b.len()
    } else if at < 0 || !string_ok(tail(b, at)) {
        false
    } else {
        strings_fill(b, at + 1 + b[at])
    }
}

/// The number of character strings from `at` on.
pub open spec fn strings_count(b: Seq<u8>, at: int) -> nat
    decreases b.len() - at,
{
    if at < 0 || at >= b.len() || !string_ok(tail(b, at)) {
        0
    } else {
        1 + strings_count(b, at + 1 + b[at])
    }
}

/// Character strings.
#[derive(Clone, Debug, PartialEq, Eq, Hash, PartialOrd, Ord)]
pub struct StringData {
    pub values: Vec<String>,
}

impl StringData {
    /// `b` is well-formed data of this layout, all of whose bytes belong
    /// to a field.
    pub open spec fn wire_ok(b: Seq<u8>) -> bool {
        strings_fill(b, 0)
    }

    /// `self` is what the data `b` holds.
    pub open spec fn decoded_from(&self, b: Seq<u8>) -> bool {
        &&& self.values@.len() == strings_count(b, 0)
        &&& forall|j: nat|
            j < self.values@.len() ==> (#[trigger] self.values@[j as int])@ == string_text(
                tail(b, string_offset(b, j)),
            )
    }

    /// Decodes data of this layout.
    pub fn decode(bytes: &[u8]) -> (r: Option<StringData>)
        ensures
            r is Some <==> StringData::wire_ok(bytes@),
            r matches Some(d) ==> d.decoded_from(bytes@),
    {
        let ghost b = bytes@;
        let mut position: usize = 0;
        let mut values: Vec<String> = Vec::new();
        while position < bytes.len()
            invariant
                b == bytes@,
                position <= bytes.len(),
                position == string_offset(b, values@.len()),
                strings_fill(b, 0) == strings_fill(b, position as int),
                strings_count(b, 0) == values@.len() + strings_count(b, position as int),
                forall|j: nat|
                    j < values@.len() ==> (#[trigger] values@[j as int])@ == string_text(
                        tail(b, string_offset(b, j)),
                    ),
            decreases bytes.len() - position,
        {
            let (string, end) = match string_at(bytes, position) {
                Some(v) => v,
                None => {
                    return None;
                },
            };
            position = end;
            values.push(string);
        }
        Some(StringData { values })
    }
}

/// Two mailboxes.
#[derive(Clone, Debug, PartialEq, Eq, Hash, PartialOrd, Ord)]
pub struct MailboxData {
    pub mailbox: String,
    pub error_mailbox: String,
}

impl MailboxData {
    /// `b` is well-formed data of this layout, all of whose bytes belong
    /// to a field.
    pub open spec fn wire_ok(b: Seq<u8>) -> bool {
        count_name_ok(tail(b, 0)) && name_fills(b, name_end(b, 0))
    }

    /// `self` is what the data `b` holds.
    pub open spec fn decoded_from(&self, b: Seq<u8>) -> bool {
        &&& self.mailbox@ == count_name_text(tail(b, 0))
        &&& self.error_mailbox@ == count_name_text(tail(b, name_end(b, 0)))
    }

    /// Decodes data of this layout.
    pub fn decode(bytes: &[u8]) -> (r: Option<MailboxData>)
        ensures
            r is Some <==> MailboxData::wire_ok(bytes@),
            r matches Some(d) ==> d.decoded_from(bytes@),
    {
        let (mailbox, position) = match name_at(bytes, 0) {
            Some(v) => v,
            None => {
                return None;
            },
        };
        let (error_mailbox, position) = match name_at(bytes, position) {
            Some(v) => v,
            None => {
                return None;
            },
        };
        if position != bytes.len() {
            return None;
        }
        Some(MailboxData { mailbox, error_mailbox })
    }
}

/// A signature over the records of one type.
#[derive(Clone, Debug, PartialEq, Eq, Hash, PartialOrd, Ord)]
pub struct SignatureData {
    pub type_covered: u16,
    pub algorithm: u8,
    pub label_count: u8,
    pub original_ttl: u32,
    pub signature_expiration: u32,
    pub signature_inception: u32,
    pub key_tag: u16,
    pub signer: String,
    pub signature: Vec<u8>,
}

impl SignatureData {
    /// `b` is well-formed data of this layout, all of whose bytes belong
    /// to a field.
    pub open spec fn wire_ok(b: Seq<u8>) -> bool {
        b.len() >= 19 && count_name_ok(tail(b, 18))
    }

    /// `self` is what the data `b` holds.
    pub open spec fn decoded_from(&self, b: Seq<u8>) -> bool {
        &&& self.type_covered == be_u16(b, 0)
        &&& self.algorithm == b[2]
        &&& self.label_count == b[3]
        &&& self.original_ttl == be_u32(b, 4)
        &&& self.signature_expiration == be_u32(b, 8)
        &&& self.signature_inception == be_u32(b, 12)
        &&& self.key_tag == be_u16(b, 16)
        &&& self.signer@ == count_name_text(tail(b, 18))
        &&& self.signature@ == tail(b, name_end(b, 18))
    }

    /// Decodes data of this layout.
    pub fn decode(bytes: &[u8]) -> (r: Option<SignatureData>)
        ensures
            r is Some <==> SignatureData::wire_ok(bytes@),
            r matches Some(d) ==> d.decoded_from(bytes@),
    {
        if bytes.len() < 19 {
            return None;
        }
        let type_covered: u16 = read_u16_be(bytes, 0);
        let algorithm: u8 = bytes[2];
        let label_count: u8 = bytes[3];
        let original_ttl: u32 = read_u32_be(bytes, 4);
        let signature_expiration: u32 = read_u32_be(bytes, 8);
        let signature_inception: u32 = read_u32_be(bytes, 12);
        let key_tag: u16 = read_u16_be(bytes, 16);
        let (signer, position) = match name_at(bytes, 18) {
            Some(v) => v,
            None => {
                return None;
            },
        };
        let signature: Vec<u8> = copy_range(bytes, position, bytes.len());
        Some(
            SignatureData {
                type_covered,
                algorithm,
                label_count,
                original_ttl,
                signature_expiration,
                signature_inception,
                key_tag,
                signer,
                signature,
            },
        )
    }
}

/// A public key.
#[derive(Clone, Debug, PartialEq, Eq, Hash, PartialOrd, Ord)]
pub struct KeyData {
    pub flags: u16,
    pub protocol: u8,
    pub algorithm: u8,
    pub key: Vec<u8>,
}

impl KeyData {
    /// `b` is well-formed data of this layout, all of whose bytes belong
    /// to a field.
    pub open spec fn wire_ok(b: Seq<u8>) -> bool {
        b.len() >= 4
    }

    /// `self` is what the data `b` holds.
    pub open spec fn decoded_from(&self, b: Seq<u8>) -> bool {
        &&& self.flags == be_u16(b, 0)
        &&& self.protocol == b[2]
        &&& self.algorithm == b[3]
        &&& self.key@ == tail(b, 4)
    }

    /// Decodes data of this layout.
    pub fn decode(bytes: &[u8]) -> (r: Option<KeyData>)
        ensures
            r is Some <==> KeyData::wire_ok(bytes@),
            r matches Some(d) ==> d.decoded_from(bytes@),
    {
        if bytes.len() < 4 {
            return None;
        }
        let flags: u16 = read_u16_be(bytes, 0);
        let protocol: u8 = bytes[2];
        let algorithm: u8 = bytes[3];
        let key: Vec<u8> = copy_range(bytes, 4, bytes.len());
        Some(KeyData { flags, protocol, algorithm, key })
    }
}

/// An IPv6 address.
#[derive(Clone, Debug, PartialEq, Eq, Hash, PartialOrd, Ord)]
pub struct Ipv6AddrData {
    pub address: [u8; 16],
}

impl Ipv6AddrData {
    /// `b` is well-formed data of this layout, all of whose bytes belong
    /// to a field.
    pub open spec fn wire_ok(b: Seq<u8>) -> bool {
        b.len() == 16
    }

    /// `self` is what the data `b` holds.
    pub open spec fn decoded_from(&self, b: Seq<u8>) -> bool {
        self.address@ == b
    }

    /// Decodes data of this layout.
    pub fn decode(bytes: &[u8]) -> (r: Option<Ipv6AddrData>)
        ensures
            r is Some <==> Ipv6AddrData::wire_ok(bytes@),
            r matches Some(d) ==> d.decoded_from(bytes@),
    {
        if bytes.len() != 16 {
            return None;
        }
        let address: [u8; 16] = array16(bytes, 0);
        assert(bytes@.subrange(0, 16) =~= bytes@);
        Some(Ipv6AddrData { address })
    }
}

/// The next name of a zone and the types of its records.
#[derive(Clone, Debug, PartialEq, Eq, Hash, PartialOrd, Ord)]
pub struct NextDomainData {
    pub record_type_mask_bytes: [u8; 16],
    pub next_name: String,
}

impl NextDomainData {
    /// `b` is well-formed data of this layout, all of whose bytes belong
    /// to a field.
    pub open spec fn wire_ok(b: Seq<u8>) -> bool {
        b.len() >= 16 && name_fills(b, 16)
    }

    /// `self` is what the data `b` holds.
    pub open spec fn decoded_from(&self, b: Seq<u8>) -> bool {
        &&& self.record_type_mask_bytes@ == b.subrange(0, 16)
        &&& self.next_name@ == count_name_text(tail(b, 16))
    }

    /// Decodes data of this layout.
    pub fn decode(bytes: &[u8]) -> (r: Option<NextDomainData>)
        ensures
            r is Some <==> NextDomainData::wire_ok(bytes@),
            r matches Some(d) ==> d.decoded_from(bytes@),
    {
        if bytes.len() < 16 {
            return None;
        }
        let record_type_mask_bytes: [u8; 16] = array16(bytes, 0);
        let (next_name, position) = match name_at(bytes, 16) {
            Some(v) => v,
            None => {
                return None;
            },
        };
        if position != bytes.len() {
            return None;
        }
        Some(NextDomainData { record_type_mask_bytes, next_name })
    }
}

/// The location of a service.
#[derive(Clone, Debug, PartialEq, Eq, Hash, PartialOrd, Ord)]
pub struct ServiceData {
    pub priority: u16,
    pub weight: u16,
    pub port: u16,
    pub target: String,
}

impl ServiceData {
    /// `b` is well-formed data of this layout, all of whose bytes belong
    /// to a field.
    pub open spec fn wire_ok(b: Seq<u8>) -> bool {
        b.len() >= 7 && name_fills(b, 6)
    }

    /// `self` is what the data `b` holds.
    pub open spec fn decoded_from(&self, b: Seq<u8>) -> bool {
        &&& self.priority == be_u16(b, 0)
        &&& self.weight == be_u16(b, 2)
        &&& self.port == be_u16(b, 4)
        &&& self.target@ == count_name_text(tail(b, 6))
    }

    /// Decodes data of this layout.
    pub fn decode(bytes: &[u8]) -> (r: Option<ServiceData>)
        ensures
            r is Some <==> ServiceData::wire_ok(bytes@),
            r matches Some(d) ==> d.decoded_from(bytes@),
    {
        if bytes.len() < 7 {
            return None;
        }
        let priority: u16 = read_u16_be(bytes, 0);
        let weight: u16 = read_u16_be(bytes, 2);
        let port: u16 = read_u16_be(bytes, 4);
        let (target, position) = match name_at(bytes, 6) {
            Some(v) => v,
            None => {
                return None;
            },
        };
        if position != bytes.len() {
            return None;
        }
        Some(ServiceData { priority, weight, port, target })
    }
}

/// An ATM address.
#[derive(Clone, Debug, PartialEq, Eq, Hash, PartialOrd, Ord)]
pub struct AtmaData {
    pub format: u8,
    pub address: Vec<u8>,
}

impl AtmaData {
    /// `b` is well-formed data of this layout, all of whose bytes belong
    /// to a field.
    pub open spec fn wire_ok(b: Seq<u8>) -> bool {
        b.len() >= 1
    }

    /// `self` is what the data `b` holds.
    pub open spec fn decoded_from(&self, b: Seq<u8>) -> bool {
        self.format == b[0] && self.address@ == tail(b, 1)
    }

    /// Decodes data of this layout.
    pub fn decode(bytes: &[u8]) -> (r: Option<AtmaData>)
        ensures
            r is Some <==> AtmaData::wire_ok(bytes@),
            r matches Some(d) ==> d.decoded_from(bytes@),
    {
        if bytes.len() < 1 {
            return None;
        }
        let format: u8 = bytes[0];
        let address: Vec<u8> = copy_range(bytes, 1, bytes.len());
        Some(AtmaData { format, address })
    }
}

/// A naming authority pointer.
#[derive(Clone, Debug, PartialEq, Eq, Hash, PartialOrd, Ord)]
pub struct NamingAuthorityPointerData {
    pub order: u16,
    pub preference: u16,
    pub flags: String,
    pub service: String,
    pub substitution: String,
    pub replacement: String,
}

impl NamingAuthorityPointerData {
    /// Where the service string starts.
    pub open spec fn service_at(b: Seq<u8>) -> int {
        string_end(b, 4)
    }

    /// Where the substitution string starts.
    pub open spec fn substitution_at(b: Seq<u8>) -> int {
        string_end(b, Self::service_at(b))
    }

    /// Where the replacement name starts.
    pub open spec fn replacement_at(b: Seq<u8>) -> int {
        string_end(b, Self::substitution_at(b))
    }

    /// `b` is well-formed data of this layout, all of whose bytes belong
    /// to a field.
    pub open spec fn wire_ok(b: Seq<u8>) -> bool {
        &&& b.len() >= 8
        &&& string_ok(tail(b, 4))
        &&& string_ok(tail(b, Self::service_at(b)))
        &&& string_ok(tail(b, Self::substitution_at(b)))
        &&& name_fills(b, Self::replacement_at(b))
    }

    /// `self` is what the data `b` holds.
    pub open spec fn decoded_from(&self, b: Seq<u8>) -> bool {
        &&& self.order == le_u16(b, 0)
        &&& self.preference == le_u16(b, 2)
        &&& self.flags@ == string_text(tail(b, 4))
        &&& self.service@ == string_text(tail(b, Self::service_at(b)))
        &&& self.substitution@ == string_text(tail(b, Self::substitution_at(b)))
        &&& self.replacement@ == count_name_text(tail(b, Self::replacement_at(b)))
    }

    /// Decodes data of this layout.
    pub fn decode(bytes: &[u8]) -> (r: Option<NamingAuthorityPointerData>)
        ensures
            r is Some <==> NamingAuthorityPointerData::wire_ok(bytes@),
            r matches Some(d) ==> d.decoded_from(bytes@),
    {
        if bytes.len() < 8 {
            return None;
        }
        let order: u16 = read_u16_le(bytes, 0);
        let preference: u16 = read_u16_le(bytes, 2);
        let (flags, position) = match string_at(bytes, 4) {
            Some(v) => v,
            None => {
                return None;
            },
        };
        let (service, position) = match string_at(bytes, position) {
            Some(v) => v,
            None => {
                return None;
            },
        };
        let (substitution, position) = match string_at(bytes, position) {
            Some(v) => v,
            None => {
                return None;
            },
        };
        let (replacement, position) = match name_at(bytes, position) {
            Some(v) => v,
            None => {
                return None;
            },
        };
        if position != bytes.len() {
            return None;
        }
        Some(
            NamingAuthorityPointerData {
                order,
                preference,
                flags,
                service,
                substitution,
                replacement,
            },
        )
    }
}

/// The digest of the key that signs a delegated zone.
#[derive(Clone, Debug, PartialEq, Eq, Hash, PartialOrd, Ord)]
pub struct DelegationSignerData {
    pub key_tag: u16,
    pub algorithm: u8,
    pub digest_type: u8,
    pub digest: Vec<u8>,
}

impl DelegationSignerData {
    /// `b` is well-formed data of this layout, all of whose bytes belong
    /// to a field.
    pub open spec fn wire_ok(b: Seq<u8>) -> bool {
        b.len() >= 4
    }

    /// `self` is what the data `b` holds.
    pub open spec fn decoded_from(&self, b: Seq<u8>) -> bool {
        &&& self.key_tag == be_u16(b, 0)
        &&& self.algorithm == b[2]
        &&& self.digest_type == b[3]
        &&& self.digest@ == tail(b, 4)
    }

    /// Decodes data of this layout.
    pub fn decode(bytes: &[u8]) -> (r: Option<DelegationSignerData>)
        ensures
            r is Some <==> DelegationSignerData::wire_ok(bytes@),
            r matches Some(d) ==> d.decoded_from(bytes@),
    {
        if bytes.len() < 4 {
            return None;
        }
        let key_tag: u16 = read_u16_be(bytes, 0);
        let algorithm: u8 = bytes[2];
        let digest_type: u8 = bytes[3];
        let digest: Vec<u8> = copy_range(bytes, 4, bytes.len());
        Some(DelegationSignerData { key_tag, algorithm, digest_type, digest })
    }
}

/// The next secure name of a zone and the types of its records.
#[derive(Clone, Debug, PartialEq, Eq, Hash, PartialOrd, Ord)]
pub struct NextSecureRecordData {
    pub signer: String,
    pub nsec_bitmap: Vec<u8>,
}

impl NextSecureRecordData {
    /// `b` is well-formed data of this layout, all of whose bytes belong
    /// to a field.
    pub open spec fn wire_ok(b: Seq<u8>) -> bool {
        count_name_ok(tail(b, 0))
    }

    /// `self` is what the data `b` holds.
    pub open spec fn decoded_from(&self, b: Seq<u8>) -> bool {
        &&& self.signer@ == count_name_text(tail(b, 0))
        &&& self.nsec_bitmap@ == tail(b, name_end(b, 0))
    }

    /// Decodes data of this layout.
    pub fn decode(bytes: &[u8]) -> (r: Option<NextSecureRecordData>)
        ensures
            r is Some <==> NextSecureRecordData::wire_ok(bytes@),
            r matches Some(d) ==> d.decoded_from(bytes@),
    {
        let (signer, position) = match name_at(bytes, 0) {
            Some(v) => v,
            None => {
                return None;
            },
        };
        let nsec_bitmap: Vec<u8> = copy_range(bytes, position, bytes.len());
        Some(NextSecureRecordData { signer, nsec_bitmap })
    }
}

/// The next hashed name of a zone and the types of its records.
#[derive(Clone, Debug, PartialEq, Eq, Hash, PartialOrd, Ord)]
pub struct NextSecureRecord3Data {
    pub algorithm: u8,
    pub flags: u8,
    pub iterations: u16,
    pub salt: Vec<u8>,
    pub next_hashed_owner_name: Vec<u8>,
    pub bitmaps: Vec<u8>,
}

impl NextSecureRecord3Data {
    /// `b` is well-formed data of this layout, all of whose bytes belong
    /// to a field.
    pub open spec fn wire_ok(b: Seq<u8>) -> bool {
        b.len() >= 6 && 6 + b[4] + b[5] <= b.len()
    }

    /// `self` is what the data `b` holds.
    pub open spec fn decoded_from(&self, b: Seq<u8>) -> bool {
        &&& self.algorithm == b[0]
        &&& self.flags == b[1]
        &&& self.iterations == be_u16(b, 2)
        &&& self.salt@ == b.subrange(6, 6 + b[4])
        &&& self.next_hashed_owner_name@ == b.subrange(6 + b[4], 6 + b[4] + b[5])
        &&& self.bitmaps@ == tail(b, 6 + b[4] + b[5])
    }

    /// Decodes data of this layout.
    pub fn decode(bytes: &[u8]) -> (r: Option<NextSecureRecord3Data>)
        ensures
            r is Some <==> NextSecureRecord3Data::wire_ok(bytes@),
            r matches Some(d) ==> d.decoded_from(bytes@),
    {
        if bytes.len() < 6 {
            return None;
        }
        let algorithm: u8 = bytes[0];
        let flags: u8 = bytes[1];
        let iterations: u16 = read_u16_be(bytes, 2);
        let salt_length: usize = bytes[4] as usize;
        let hash_length: usize = bytes[5] as usize;
        let mut position: usize = 6;
        if salt_length > bytes.len() - position {
            return None;
        }
        let salt: Vec<u8> = copy_range(bytes, position, position + salt_length);
        position += salt_length;
        if hash_length > bytes.len() - position {
            return None;
        }
        let next_hashed_owner_name: Vec<u8> = copy_range(bytes, position, position + hash_length);
        position += hash_length;
        let bitmaps: Vec<u8> = copy_range(bytes, position, bytes.len());
        Some(
            NextSecureRecord3Data {
                algorithm,
                flags,
                iterations,
                salt,
                next_hashed_owner_name,
                bitmaps,
            },
        )
    }
}

/// The parameters with which the names of a zone are hashed.
#[derive(Clone, Debug, PartialEq, Eq, Hash, PartialOrd, Ord)]
pub struct NextSecureRecord3ParameterData {
    pub algorithm: u8,
    pub flags: u8,
    pub iterations: u16,
    pub salt: Vec<u8>,
}

impl NextSecureRecord3ParameterData {
    /// `b` is well-formed data of this layout, all of whose bytes belong
    /// to a field.
    pub open spec fn wire_ok(b: Seq<u8>) -> bool {
        b.len() >= 5 && 5 + b[4] == b.len()
    }

    /// `self` is what the data `b` holds.
    pub open spec fn decoded_from(&self, b: Seq<u8>) -> bool {
        &&& self.algorithm == b[0]
        &&& self.flags == b[1]
        &&& self.iterations == be_u16(b, 2)
        &&& self.salt@ == tail(b, 5)
    }

    /// Decodes data of this layout.
    pub fn decode(bytes: &[u8]) -> (r: Option<NextSecureRecord3ParameterData>)
        ensures
            r is Some <==> NextSecureRecord3ParameterData::wire_ok(bytes@),
            r matches Some(d) ==> d.decoded_from(bytes@),
    {
        if bytes.len() < 5 {
            return None;
        }
        let algorithm: u8 = bytes[0];
        let flags: u8 = bytes[1];
        let iterations: u16 = read_u16_be(bytes, 2);
        let salt_length: usize = bytes[4] as usize;
        if salt_length != bytes.len() - 5 {
            return None;
        }
        let salt: Vec<u8> = copy_range(bytes, 5, bytes.len());
        Some(NextSecureRecord3ParameterData { algorithm, flags, iterations, salt })
    }
}

/// The association of a certificate with a name.
#[derive(Clone, Debug, PartialEq, Eq, Hash, PartialOrd, Ord)]
pub struct TlsAssociationData {
    pub cert_usage: u8,
    pub selector: u8,
    pub matching_type: u8,
    pub certificate_association_data: Vec<u8>,
}

impl TlsAssociationData {
    /// `b` is well-formed data of this layout, all of whose bytes belong
    /// to a field.
    pub open spec fn wire_ok(b: Seq<u8>) -> bool {
        b.len() >= 3
    }

    /// `self` is what the data `b` holds.
    pub open spec fn decoded_from(&self, b: Seq<u8>) -> bool {
        &&& self.cert_usage == b[0]
        &&& self.selector == b[1]
        &&& self.matching_type == b[2]
        &&& self.certificate_association_data@ == tail(b, 3)
    }

    /// Decodes data of this layout.
    pub fn decode(bytes: &[u8]) -> (r: Option<TlsAssociationData>)
        ensures
            r is Some <==> TlsAssociationData::wire_ok(bytes@),
            r matches Some(d) ==> d.decoded_from(bytes@),
    {
        if bytes.len() < 3 {
            return None;
        }
        let cert_usage: u8 = bytes[0];
        let selector: u8 = bytes[1];
        let matching_type: u8 = bytes[2];
        let certificate_association_data: Vec<u8> = copy_range(bytes, 3, bytes.len());
        Some(TlsAssociationData { cert_usage, selector, matching_type, certificate_association_data })
    }
}

/// A forward lookup through WINS.
#[derive(Clone, Debug, PartialEq, Eq, Hash, PartialOrd, Ord)]
pub struct WinsData {
    pub mapping_flag: WinsMappingFlag,
    pub lookup_timeout: u32,
    pub cache_timeout: u32,
    pub wins_servers: Vec<[u8; 4]>,
}

impl WinsData {
    /// `b` is well-formed data of this layout, all of whose bytes belong
    /// to a field.
    pub open spec fn wire_ok(b: Seq<u8>) -> bool {
        b.len() >= 16 && 16 + 4 * le_u32(b, 12) == b.len()
    }

    /// `self` is what the data `b` holds.
    pub open spec fn decoded_from(&self, b: Seq<u8>) -> bool {
        &&& self.mapping_flag.bits == le_u32(b, 0)
        &&& self.lookup_timeout == le_u32(b, 4)
        &&& self.cache_timeout == le_u32(b, 8)
        &&& self.wins_servers@.len() == le_u32(b, 12)
        &&& forall|j: int|
            0 <= j < le_u32(b, 12) ==> (#[trigger] self.wins_servers@[j])@ == b.subrange(
                16 + 4 * j,
                20 + 4 * j,
            )
    }

    /// Decodes data of this layout.
    pub fn decode(bytes: &[u8]) -> (r: Option<WinsData>)
        ensures
            r is Some <==> WinsData::wire_ok(bytes@),
            r matches Some(d) ==> d.decoded_from(bytes@),
    {
        let ghost b = bytes@;
        if bytes.len() < 16 {
            return None;
        }
        let mapping_flag: WinsMappingFlag = WinsMappingFlag::from(read_u32_le(bytes, 0));
        let lookup_timeout: u32 = read_u32_le(bytes, 4);
        let cache_timeout: u32 = read_u32_le(bytes, 8);
        let wins_server_count: usize = read_u32_le(bytes, 12) as usize;
        if (bytes.len() - 16) % 4 != 0 || (bytes.len() - 16) / 4 != wins_server_count {
            return None;
        }
        let mut wins_servers: Vec<[u8; 4]> = Vec::new();
        let mut i: usize = 0;
        while i < wins_server_count
            invariant
                b == bytes@,
                b.len() == bytes.len(),
                16 + 4 * wins_server_count == b.len(),
                i <= wins_server_count,
                wins_servers@.len() == i,
                forall|j: int|
                    0 <= j < i ==> (#[trigger] wins_servers@[j])@ == b.subrange(
                        16 + 4 * j,
                        20 + 4 * j,
                    ),
            decreases wins_server_count - i,
        {
            wins_servers.push(array4(bytes, 16 + 4 * i));
            i += 1;
        }
        Some(WinsData { mapping_flag, lookup_timeout, cache_timeout, wins_servers })
    }
}

/// A reverse lookup through WINS.
#[derive(Clone, Debug, PartialEq, Eq, Hash, PartialOrd, Ord)]
pub struct WinsReverseData {
    pub mapping_flag: WinsMappingFlag,
    pub lookup_timeout: u32,
    pub cache_timeout: u32,
    pub name_result_domain: String,
}

impl WinsReverseData {
    /// `b` is well-formed data of this layout, all of whose bytes belong
    /// to a field.
    pub open spec fn wire_ok(b: Seq<u8>) -> bool {
        b.len() >= 13 && string_ok(tail(b, 12)) && string_end(b, 12) == b.len()
    }

    /// `self` is what the data `b` holds.
    pub open spec fn decoded_from(&self, b: Seq<u8>) -> bool {
        &&& self.mapping_flag.bits == le_u32(b, 0)
        &&& self.lookup_timeout == le_u32(b, 4)
        &&& self.cache_timeout == le_u32(b, 8)
        &&& self.name_result_domain@ == string_text(tail(b, 12))
    }

    /// Decodes data of this layout.
    pub fn decode(bytes: &[u8]) -> (r: Option<WinsReverseData>)
        ensures
            r is Some <==> WinsReverseData::wire_ok(bytes@),
            r matches Some(d) ==> d.decoded_from(bytes@),
    {
        if bytes.len() < 13 {
            return None;
        }
        let mapping_flag: WinsMappingFlag = WinsMappingFlag::from(read_u32_le(bytes, 0));
        let lookup_timeout: u32 = read_u32_le(bytes, 4);
        let cache_timeout: u32 = read_u32_le(bytes, 8);
        let (name_result_domain, position) = match string_at(bytes, 12) {
            Some(v) => v,
            None => {
                return None;
            },
        };
        if position != bytes.len() {
            return None;
        }
        Some(WinsReverseData { mapping_flag, lookup_timeout, cache_timeout, name_result_domain })
    }
}

/// The data of a record whose type the decoder does not know.
#[derive(Clone, Debug, PartialEq, Eq, Hash, PartialOrd, Ord)]
pub struct OtherRecordData {
    pub record_type: u16,
    pub data: Vec<u8>,
}

/// The data of a record, by the type of the record.
#[derive(Clone, Debug, PartialEq, Eq, Hash, PartialOrd, Ord)]
pub enum Data {
    /// Type 0x00.
    Tombstone(TombstoneData),
    /// Type 0x01.
    Address(Ipv4AddrData),
    /// Type 0x02.
    NameServer(NodeNameData),
    /// Type 0x03.
    LegacyMailDestination(NodeNameData),
    /// Type 0x04.
    LegacyMailForwarder(NodeNameData),
    /// Type 0x05.
    CanonicalName(NodeNameData),
    /// Type 0x06.
    StartOfAuthority(StartOfAuthorityData),
    /// Type 0x07.
    LegacyMailbox(NodeNameData),
    /// Type 0x08.
    LegacyMailGroupMember(NodeNameData),
    /// Type 0x09.
    LegacyMailRename(NodeNameData),
    /// Type 0x0A.
    Null(BytesData),
    /// Type 0x0B.
    LegacyWellKnownServices(WellKnownServiceData),
    /// Type 0x0C.
    Pointer(NodeNameData),
    /// Type 0x0D.
    HostInfo(StringData),
    /// Type 0x0E.
    LegacyMailInfo(MailboxData),
    /// Type 0x0F.
    MailExchanger(PreferenceNameData),
    /// Type 0x10.
    Text(StringData),
    /// Type 0x11.
    LegacyResponsiblePerson(MailboxData),
    /// Type 0x12.
    Afsdb(PreferenceNameData),
    /// Type 0x13.
    X25(StringData),
    /// Type 0x14.
    Isdn(StringData),
    /// Type 0x15.
    LegacyRouteThrough(PreferenceNameData),
    /// Type 0x18.
    LegacySignature(SignatureData),
    /// Type 0x19.
    LegacyKey(KeyData),
    /// Type 0x1C.
    Ipv6Address(Ipv6AddrData),
    /// Type 0x1E.
    LegacyNextDomain(NextDomainData),
    /// Type 0x21.
    Service(ServiceData),
    /// Type 0x22.
    LegacyAtma(AtmaData),
    /// Type 0x23.
    NamingAuthorityPointer(NamingAuthorityPointerData),
    /// Type 0x27.
    DelegationName(NodeNameData),
    /// Type 0x2B.
    DelegationSigner(DelegationSignerData),
    /// Type 0x2E.
    ResourceRecordSignature(SignatureData),
    /// Type 0x2F.
    NextSecureRecord(NextSecureRecordData),
    /// Type 0x30.
    DnsKey(KeyData),
    /// Type 0x31.
    DhcpIdentifier(BytesData),
    /// Type 0x32.
    NextSecureRecord3(NextSecureRecord3Data),
    /// Type 0x33.
    NextSecureRecord3Parameters(NextSecureRecord3ParameterData),
    /// Type 0x34.
    TlsAssociation(TlsAssociationData),
    /// Type 0xFF01.
    WinsRecord(WinsData),
    /// Type 0xFF02.
    WinsReverseRecord(WinsReverseData),
    /// Any other type.
    Other(OtherRecordData),
}

/// The layouts that the data of a record can have.
#[derive(Clone, Copy, Debug, PartialEq, Eq, Structural)]
pub enum DataShape {
    /// The time at which the record was entombed.
    Tombstone,
    /// An IPv4 address.
    Ipv4,
    /// A counted name.
    NodeName,
    /// Five numbers and two counted names.
    StartOfAuthority,
    /// Bytes without a structure.
    Bytes,
    /// An IPv4 address, a protocol and a bitmap.
    WellKnownService,
    /// A run of character strings.
    Strings,
    /// Two counted names.
    Mailbox,
    /// A preference and a counted name.
    PreferenceName,
    /// The fields of a signature, the name of the signer and the signature.
    Signature,
    /// The fields of a key and the key.
    Key,
    /// An IPv6 address.
    Ipv6,
    /// A bitmap of 16 bytes and a counted name.
    NextDomain,
    /// Priority, weight, port and a counted name.
    Service,
    /// A format and an address.
    Atma,
    /// Order, preference, three character strings and a counted name.
    NamingAuthorityPointer,
    /// The fields of a digest and the digest.
    DelegationSigner,
    /// A counted name and a bitmap.
    NextSecureRecord,
    /// Parameters of hashing, a salt, a hashed name and bitmaps.
    NextSecureRecord3,
    /// Parameters of hashing and a salt.
    NextSecureRecord3Parameters,
    /// Three numbers and the data of a certificate.
    TlsAssociation,
    /// Flags, two timeouts and IPv4 addresses.
    Wins,
    /// Flags, two timeouts and a character string.
    WinsReverse,
    /// Nothing that the decoder knows.
    Other,
}

/// The layout of the data of a record of type `kind`.
pub open spec fn data_shape(kind: u16) -> DataShape {
    if kind == 0x00 {
        DataShape::Tombstone
    } else if kind == 0x01 {
        DataShape::Ipv4
    } else if kind == 0x02 || kind == 0x03 || kind == 0x04 || kind == 0x05 || kind == 0x07 || kind
        == 0x08 || kind == 0x09 || kind == 0x0C || kind == 0x27 {
        DataShape::NodeName
    } else if kind == 0x06 {
        DataShape::StartOfAuthority
    } else if kind == 0x0A || kind == 0x31 {
        DataShape::Bytes
    } else if kind == 0x0B {
        DataShape::WellKnownService
    } else if kind == 0x0D || kind == 0x10 || kind == 0x13 || kind == 0x14 {
        DataShape::Strings
    } else if kind == 0x0E || kind == 0x11 {
        DataShape::Mailbox
    } else if kind == 0x0F || kind == 0x12 || kind == 0x15 {
        DataShape::PreferenceName
    } else if kind == 0x18 || kind == 0x2E {
        DataShape::Signature
    } else if kind == 0x19 || kind == 0x30 {
        DataShape::Key
    } else if kind == 0x1C {
        DataShape::Ipv6
    } else if kind == 0x1E {
        DataShape::NextDomain
    } else if kind == 0x21 {
        DataShape::Service
    } else if kind == 0x22 {
        DataShape::Atma
    } else if kind == 0x23 {
        DataShape::NamingAuthorityPointer
    } else if kind == 0x2B {
        DataShape::DelegationSigner
    } else if kind == 0x2F {
        DataShape::NextSecureRecord
    } else if kind == 0x32 {
        DataShape::NextSecureRecord3
    } else if kind == 0x33 {
        DataShape::NextSecureRecord3Parameters
    } else if kind == 0x34 {
        DataShape::TlsAssociation
    } else if kind == 0xFF01 {
        DataShape::Wins
    } else if kind == 0xFF02 {
        DataShape::WinsReverse
    } else {
        DataShape::Other
    }
}

fn shape_of_kind(kind: u16) -> (r: DataShape)
    ensures
        r == data_shape(kind),
{
    if kind == 0x00 {
        DataShape::Tombstone
    } else if kind == 0x01 {
        DataShape::Ipv4
    } else if kind == 0x02 || kind == 0x03 || kind == 0x04 || kind == 0x05 || kind == 0x07 || kind
        == 0x08 || kind == 0x09 || kind == 0x0C || kind == 0x27 {
        DataShape::NodeName
    } else if kind == 0x06 {
        DataShape::StartOfAuthority
    } else if kind == 0x0A || kind == 0x31 {
        DataShape::Bytes
    } else if kind == 0x0B {
        DataShape::WellKnownService
    } else if kind == 0x0D || kind == 0x10 || kind == 0x13 || kind == 0x14 {
        DataShape::Strings
    } else if kind == 0x0E || kind == 0x11 {
        DataShape::Mailbox
    } else if kind == 0x0F || kind == 0x12 || kind == 0x15 {
        DataShape::PreferenceName
    } else if kind == 0x18 || kind == 0x2E {
        DataShape::Signature
    } else if kind == 0x19 || kind == 0x30 {
        DataShape::Key
    } else if kind == 0x1C {
        DataShape::Ipv6
    } else if kind == 0x1E {
        DataShape::NextDomain
    } else if kind == 0x21 {
        DataShape::Service
    } else if kind == 0x22 {
        DataShape::Atma
    } else if kind == 0x23 {
        DataShape::NamingAuthorityPointer
    } else if kind == 0x2B {
        DataShape::DelegationSigner
    } else if kind == 0x2F {
        DataShape::NextSecureRecord
    } else if kind == 0x32 {
        DataShape::NextSecureRecord3
    } else if kind == 0x33 {
        DataShape::NextSecureRecord3Parameters
    } else if kind == 0x34 {
        DataShape::TlsAssociation
    } else if kind == 0xFF01 {
        DataShape::Wins
    } else if kind == 0xFF02 {
        DataShape::WinsReverse
    } else {
        DataShape::Other
    }
}

impl Data {
    /// The type of record that the variant stands for.
    pub open spec fn kind(&self) -> u16 {
        match self {
            Data::Tombstone(_) => 0x00,
            Data::Address(_) => 0x01,
            Data::NameServer(_) => 0x02,
            Data::LegacyMailDestination(_) => 0x03,
            Data::LegacyMailForwarder(_) => 0x04,
            Data::CanonicalName(_) => 0x05,
            Data::StartOfAuthority(_) => 0x06,
            Data::LegacyMailbox(_) => 0x07,
            Data::LegacyMailGroupMember(_) => 0x08,
            Data::LegacyMailRename(_) => 0x09,
            Data::Null(_) => 0x0A,
            Data::LegacyWellKnownServices(_) => 0x0B,
            Data::Pointer(_) => 0x0C,
            Data::HostInfo(_) => 0x0D,
            Data::LegacyMailInfo(_) => 0x0E,
            Data::MailExchanger(_) => 0x0F,
            Data::Text(_) => 0x10,
            Data::LegacyResponsiblePerson(_) => 0x11,
            Data::Afsdb(_) => 0x12,
            Data::X25(_) => 0x13,
            Data::Isdn(_) => 0x14,
            Data::LegacyRouteThrough(_) => 0x15,
            Data::LegacySignature(_) => 0x18,
            Data::LegacyKey(_) => 0x19,
            Data::Ipv6Address(_) => 0x1C,
            Data::LegacyNextDomain(_) => 0x1E,
            Data::Service(_) => 0x21,
            Data::LegacyAtma(_) => 0x22,
            Data::NamingAuthorityPointer(_) => 0x23,
            Data::DelegationName(_) => 0x27,
            Data::DelegationSigner(_) => 0x2B,
            Data::ResourceRecordSignature(_) => 0x2E,
            Data::NextSecureRecord(_) => 0x2F,
            Data::DnsKey(_) => 0x30,
            Data::DhcpIdentifier(_) => 0x31,
            Data::NextSecureRecord3(_) => 0x32,
            Data::NextSecureRecord3Parameters(_) => 0x33,
            Data::TlsAssociation(_) => 0x34,
            Data::WinsRecord(_) => 0xFF01,
            Data::WinsReverseRecord(_) => 0xFF02,
            Data::Other(d) => d.record_type,
        }
    }

    /// `b` is well-formed data of a record of type `kind`, all of whose
    /// bytes belong to some field.
    pub open spec fn wire_ok(kind: u16, b: Seq<u8>) -> bool {
        match data_shape(kind) {
            DataShape::Tombstone => TombstoneData::wire_ok(b),
            DataShape::Ipv4 => Ipv4AddrData::wire_ok(b),
            DataShape::NodeName => NodeNameData::wire_ok(b),
            DataShape::StartOfAuthority => StartOfAuthorityData::wire_ok(b),
            DataShape::Bytes => true,
            DataShape::WellKnownService => WellKnownServiceData::wire_ok(b),
            DataShape::Strings => StringData::wire_ok(b),
            DataShape::Mailbox => MailboxData::wire_ok(b),
            DataShape::PreferenceName => PreferenceNameData::wire_ok(b),
            DataShape::Signature => SignatureData::wire_ok(b),
            DataShape::Key => KeyData::wire_ok(b),
            DataShape::Ipv6 => Ipv6AddrData::wire_ok(b),
            DataShape::NextDomain => NextDomainData::wire_ok(b),
            DataShape::Service => ServiceData::wire_ok(b),
            DataShape::Atma => AtmaData::wire_ok(b),
            DataShape::NamingAuthorityPointer => NamingAuthorityPointerData::wire_ok(b),
            DataShape::DelegationSigner => DelegationSignerData::wire_ok(b),
            DataShape::NextSecureRecord => NextSecureRecordData::wire_ok(b),
            DataShape::NextSecureRecord3 => NextSecureRecord3Data::wire_ok(b),
            DataShape::NextSecureRecord3Parameters => NextSecureRecord3ParameterData::wire_ok(b),
            DataShape::TlsAssociation => TlsAssociationData::wire_ok(b),
            DataShape::Wins => WinsData::wire_ok(b),
            DataShape::WinsReverse => WinsReverseData::wire_ok(b),
            DataShape::Other => true,
        }
    }

    /// `self` is what the data `b` of a record holds. The variant is the
    /// one of the record's type.
    pub open spec fn decoded_from(&self, b: Seq<u8>) -> bool {
        match self {
            Data::Tombstone(d) => d.decoded_from(b),
            Data::Address(d) => d.decoded_from(b),
            Data::NameServer(d) => d.decoded_from(b),
            Data::LegacyMailDestination(d) => d.decoded_from(b),
            Data::LegacyMailForwarder(d) => d.decoded_from(b),
            Data::CanonicalName(d) => d.decoded_from(b),
            Data::StartOfAuthority(d) => d.decoded_from(b),
            Data::LegacyMailbox(d) => d.decoded_from(b),
            Data::LegacyMailGroupMember(d) => d.decoded_from(b),
            Data::LegacyMailRename(d) => d.decoded_from(b),
            Data::Null(d) => d.decoded_from(b),
            Data::LegacyWellKnownServices(d) => d.decoded_from(b),
            Data::Pointer(d) => d.decoded_from(b),
            Data::HostInfo(d) => d.decoded_from(b),
            Data::LegacyMailInfo(d) => d.decoded_from(b),
            Data::MailExchanger(d) => d.decoded_from(b),
            Data::Text(d) => d.decoded_from(b),
            Data::LegacyResponsiblePerson(d) => d.decoded_from(b),
            Data::Afsdb(d) => d.decoded_from(b),
            Data::X25(d) => d.decoded_from(b),
            Data::Isdn(d) => d.decoded_from(b),
            Data::LegacyRouteThrough(d) => d.decoded_from(b),
            Data::LegacySignature(d) => d.decoded_from(b),
            Data::LegacyKey(d) => d.decoded_from(b),
            Data::Ipv6Address(d) => d.decoded_from(b),
            Data::LegacyNextDomain(d) => d.decoded_from(b),
            Data::Service(d) => d.decoded_from(b),
            Data::LegacyAtma(d) => d.decoded_from(b),
            Data::NamingAuthorityPointer(d) => d.decoded_from(b),
            Data::DelegationName(d) => d.decoded_from(b),
            Data::DelegationSigner(d) => d.decoded_from(b),
            Data::ResourceRecordSignature(d) => d.decoded_from(b),
            Data::NextSecureRecord(d) => d.decoded_from(b),
            Data::DnsKey(d) => d.decoded_from(b),
            Data::DhcpIdentifier(d) => d.decoded_from(b),
            Data::NextSecureRecord3(d) => d.decoded_from(b),
            Data::NextSecureRecord3Parameters(d) => d.decoded_from(b),
            Data::TlsAssociation(d) => d.decoded_from(b),
            Data::WinsRecord(d) => d.decoded_from(b),
            Data::WinsReverseRecord(d) => d.decoded_from(b),
            Data::Other(d) => d.data@ == b,
        }
    }

    /// Decodes a character string: a length byte and as many bytes of
    /// UTF-8. Gives the text and the number of bytes taken.
    pub fn decode_string(bytes: &[u8]) -> (r: Option<(String, usize)>)
        ensures
            r is Some <==> string_ok(bytes@),
            r matches Some((t, n)) ==> t@ == string_text(bytes@) && n == string_len(bytes@),
    {
        if bytes.len() < 1 {
            return None;
        }
        let string_length: usize = bytes[0] as usize;
        if 1 + string_length > bytes.len() {
            return None;
        }
        match string_from_utf8(&bytes[1..1 + string_length]) {
            Some(string) => Some((string, 1 + string_length)),
            None => None,
        }
    }

    /// Decodes a counted name. Gives the labels, each followed by a dot,
    /// and the number of bytes taken.
    pub fn decode_count_name(bytes: &[u8]) -> (r: Option<(String, usize)>)
        ensures
            r is Some <==> count_name_ok(bytes@),
            r matches Some((t, n)) ==> t@ == count_name_text(bytes@) && n == count_name_len(bytes@),
    {
        if bytes.len() < 2 {
            return None;
        }
        let string_length_including_nul: usize = bytes[0] as usize;
        let label_count: usize = bytes[1] as usize;
        if 2 + string_length_including_nul > bytes.len() {
            return None;
        }
        let label_slice: &[u8] = &bytes[2..2 + string_length_including_nul];
        let ghost s = label_slice@;
        let mut position: usize = 0;
        let mut ret: String = String::new();
        let mut k: usize = 0;
        while k < label_count
            invariant
                bytes@.len() >= 2,
                2 + bytes@[0] <= bytes@.len(),
                s == name_labels(bytes@),
                s == label_slice@,
                s.len() == label_slice.len(),
                label_count == bytes@[1],
                k <= label_count,
                position <= s.len(),
                position == label_offset(s, k as nat),
                forall|j: nat| j < k ==> #[trigger] label_fits(s, j),
                ret@ == name_upto(s, k as nat),
            decreases label_count - k,
        {
            if position >= label_slice.len() {
                assert(!label_fits(s, k as nat));
                return None;
            }
            let label_length: usize = label_slice[position] as usize;
            assert(label_offset(s, (k + 1) as nat) == position + 1 + label_length);
            if label_length > label_slice.len() - position - 1 {
                assert(!label_fits(s, k as nat));
                return None;
            }
            let label: String = match string_from_utf8(
                &label_slice[position + 1..position + 1 + label_length],
            ) {
                Some(l) => l,
                None => {
                    assert(!label_fits(s, k as nat));
                    return None;
                },
            };
            ret.append(label.as_str());
            ret.append(".");
            position += 1 + label_length;
            k += 1;
        }
        if position >= label_slice.len() {
            return None;
        }
        if label_slice[position] != 0x00 {
            return None;
        }
        if position + 1 != label_slice.len() {
            return None;
        }
        Some((ret, 2 + string_length_including_nul))
    }

    /// Decodes the data of a record of type `kind`.
    pub fn try_from_bytes(kind: u16, bytes: &[u8]) -> (r: Option<Data>)
        ensures
            r is Some <==> Data::wire_ok(kind, bytes@),
            r matches Some(d) ==> d.kind() == kind && d.decoded_from(bytes@) && (d is Other
                <==> data_shape(kind) == DataShape::Other),
    {
        match shape_of_kind(kind) {
            DataShape::Tombstone => match TombstoneData::decode(bytes) {
                Some(d) => Some(Data::Tombstone(d)),
                None => None,
            },
            DataShape::Ipv4 => match Ipv4AddrData::decode(bytes) {
                Some(d) => Some(Data::Address(d)),
                None => None,
            },
            DataShape::NodeName => match NodeNameData::decode(bytes) {
                Some(data) => Some(
                    if kind == 0x02 {
                        Data::NameServer(data)
                    } else if kind == 0x03 {
                        Data::LegacyMailDestination(data)
                    } else if kind == 0x04 {
                        Data::LegacyMailForwarder(data)
                    } else if kind == 0x05 {
                        Data::CanonicalName(data)
                    } else if kind == 0x07 {
                        Data::LegacyMailbox(data)
                    } else if kind == 0x08 {
                        Data::LegacyMailGroupMember(data)
                    } else if kind == 0x09 {
                        Data::LegacyMailRename(data)
                    } else if kind == 0x0C {
                        Data::Pointer(data)
                    } else {
                        Data::DelegationName(data)
                    },
                ),
                None => None,
            },
            DataShape::StartOfAuthority => match StartOfAuthorityData::decode(bytes) {
                Some(d) => Some(Data::StartOfAuthority(d)),
                None => None,
            },
            DataShape::Bytes => {
                let data: BytesData = BytesData::decode(bytes);
                Some(
                    if kind == 0x0A {
                        Data::Null(data)
                    } else {
                        Data::DhcpIdentifier(data)
                    },
                )
            },
            DataShape::WellKnownService => match WellKnownServiceData::decode(bytes) {
                Some(d) => Some(Data::LegacyWellKnownServices(d)),
                None => None,
            },
            DataShape::Strings => match StringData::decode(bytes) {
                Some(data) => Some(
                    if kind == 0x0D {
                        Data::HostInfo(data)
                    } else if kind == 0x10 {
                        Data::Text(data)
                    } else if kind == 0x13 {
                        Data::X25(data)
                    } else {
                        Data::Isdn(data)
                    },
                ),
                None => None,
            },
            DataShape::Mailbox => match MailboxData::decode(bytes) {
                Some(data) => Some(
                    if kind == 0x0E {
                        Data::LegacyMailInfo(data)
                    } else {
                        Data::LegacyResponsiblePerson(data)
                    },
                ),
                None => None,
            },
            DataShape::PreferenceName => match PreferenceNameData::decode(bytes) {
                Some(data) => Some(
                    if kind == 0x0F {
                        Data::MailExchanger(data)
                    } else if kind == 0x12 {
                        Data::Afsdb(data)
                    } else {
                        Data::LegacyRouteThrough(data)
                    },
                ),
                None => None,
            },
            DataShape::Signature => match SignatureData::decode(bytes) {
                Some(data) => Some(
                    if kind == 0x18 {
                        Data::LegacySignature(data)
                    } else {
                        Data::ResourceRecordSignature(data)
                    },
                ),
                None => None,
            },
            DataShape::Key => match KeyData::decode(bytes) {
                Some(data) => Some(
                    if kind == 0x19 {
                        Data::LegacyKey(data)
                    } else {
                        Data::DnsKey(data)
                    },
                ),
                None => None,
            },
            DataShape::Ipv6 => match Ipv6AddrData::decode(bytes) {
                Some(d) => Some(Data::Ipv6Address(d)),
                None => None,
            },
            DataShape::NextDomain => match NextDomainData::decode(bytes) {
                Some(d) => Some(Data::LegacyNextDomain(d)),
                None => None,
            },
            DataShape::Service => match ServiceData::decode(bytes) {
                Some(d) => Some(Data::Service(d)),
                None => None,
            },
            DataShape::Atma => match AtmaData::decode(bytes) {
                Some(d) => Some(Data::LegacyAtma(d)),
                None => None,
            },
            DataShape::NamingAuthorityPointer => match NamingAuthorityPointerData::decode(bytes) {
                Some(d) => Some(Data::NamingAuthorityPointer(d)),
                None => None,
            },
            DataShape::DelegationSigner => match DelegationSignerData::decode(bytes) {
                Some(d) => Some(Data::DelegationSigner(d)),
                None => None,
            },
            DataShape::NextSecureRecord => match NextSecureRecordData::decode(bytes) {
                Some(d) => Some(Data::NextSecureRecord(d)),
                None => None,
            },
            DataShape::NextSecureRecord3 => match NextSecureRecord3Data::decode(bytes) {
                Some(d) => Some(Data::NextSecureRecord3(d)),
                None => None,
            },
            DataShape::NextSecureRecord3Parameters => match NextSecureRecord3ParameterData::decode(
                bytes,
            ) {
                Some(d) => Some(Data::NextSecureRecord3Parameters(d)),
                None => None,
            },
            DataShape::TlsAssociation => match TlsAssociationData::decode(bytes) {
                Some(d) => Some(Data::TlsAssociation(d)),
                None => None,
            },
            DataShape::Wins => match WinsData::decode(bytes) {
                Some(d) => Some(Data::WinsRecord(d)),
                None => None,
            },
            DataShape::WinsReverse => match WinsReverseData::decode(bytes) {
                Some(d) => Some(Data::WinsReverseRecord(d)),
                None => None,
            },
            DataShape::Other => {
                let data: BytesData = BytesData::decode(bytes);
                Some(Data::Other(OtherRecordData { record_type: kind, data: data.value }))
            },
        }
    }
}

/// A resource record.
#[derive(Clone, Debug, PartialEq, Eq, Hash)]
pub struct DnsRecord {
    pub rank: Rank,
    pub flags: Flags,
    pub serial: u32,
    pub ttl_seconds: u32,
    pub timestamp: u32,
    pub reserved: u32,
    pub data: Data,
}

impl DnsRecord {
    /// `b` is one record: a header of 24 bytes, which gives the length of
    /// the data and the type, and well-formed data of that length.
    pub open spec fn wire_ok(b: Seq<u8>) -> bool {
        &&& b.len() >= 24
        &&& b.len() == 24 + le_u16(b, 0)
        &&& Data::wire_ok(le_u16(b, 2) as u16, tail(b, 24))
    }

    /// `self` is the record that `b` holds.
    pub open spec fn decoded_from(&self, b: Seq<u8>) -> bool {
        &&& self.rank.number() == le_u16(b, 4)
        &&& self.rank.canonical()
        &&& self.flags.bits == le_u16(b, 6)
        &&& self.serial == le_u32(b, 8)
        &&& self.ttl_seconds == le_u32(b, 12)
        &&& self.timestamp == le_u32(b, 16)
        &&& self.reserved == le_u32(b, 20)
        &&& self.data.kind() == le_u16(b, 2)
        &&& self.data is Other <==> data_shape(le_u16(b, 2) as u16) == DataShape::Other
        &&& self.data.decoded_from(tail(b, 24))
    }

    /// Decodes a resource record.
    pub fn try_from_bytes(bytes: &[u8]) -> (r: Option<DnsRecord>)
        ensures
            r is Some <==> DnsRecord::wire_ok(bytes@),
            r matches Some(d) ==> d.decoded_from(bytes@),
    {
        if bytes.len() < 24 {
            return None;
        }
        let data_length: usize = read_u16_le(bytes, 0) as usize;
        if bytes.len() != 24 + data_length {
            return None;
        }
        let kind: u16 = read_u16_le(bytes, 2);
        let rank: Rank = Rank::from_base_type(read_u16_le(bytes, 4));
        let flags: Flags = Flags::from(read_u16_le(bytes, 6));
        let serial: u32 = read_u32_le(bytes, 8);
        let ttl_seconds: u32 = read_u32_le(bytes, 12);
        let timestamp: u32 = read_u32_le(bytes, 16);
        let reserved: u32 = read_u32_le(bytes, 20);
        let data: Data = match Data::try_from_bytes(kind, &bytes[24..bytes.len()]) {
            Some(d) => d,
            None => {
                return None;
            },
        };
        Some(DnsRecord { rank, flags, serial, ttl_seconds, timestamp, reserved, data })
    }
}

} // verus!
