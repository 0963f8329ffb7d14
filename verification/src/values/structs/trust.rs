//! Information on the trust towards another forest.

use crate::time::{utc_ticks_relative_to_1601, Timestamp};
use crate::text::string_from_utf8;
use crate::values::structs::security::Sid;
use crate::wire::{as_signed_64, copy_range, le_u32, read_u32_le, signed_64};
use vstd::prelude::*;
use vstd::utf8::{decode_utf8, valid_utf8};

verus! {

/// Flags of a top level name.
#[derive(Clone, Copy, Debug, PartialEq, Eq, Structural, Hash, PartialOrd, Ord)]
pub struct NameFlags {
    pub bits: u32,
}

impl NameFlags {
    pub const DISABLED_NEW: u32 = 0x0000_0001;

    pub const DISABLED_ADMIN: u32 = 0x0000_0002;

    pub const DISABLED_CONFLICT: u32 = 0x0000_0004;

    /// Every bit that has a name.
    pub const ALL: u32 = 0x0000_0007;

    /// Whether every bit of `flag` is set.
    pub open spec fn has(self, flag: u32) -> bool {
        self.bits & flag == flag
    }

    /// Whether any bit of `flags` is set.
    pub open spec fn has_any(self, flags: u32) -> bool {
        self.bits & flags != 0
    }

    /// Whether no bit without a name is set.
    pub open spec fn only_named(self) -> bool {
        self.bits & NameFlags::ALL == self.bits
    }

    /// The mask with the given bits.
    pub fn from(bits: u32) -> (r: NameFlags)
        ensures
            r.bits == bits,
    {
        NameFlags { bits }
    }

    /// The bits of the mask.
    pub fn bits(&self) -> (r: u32)
        ensures
            r == self.bits,
    {
        self.bits
    }

    /// Whether every bit of `flag` is set.
    pub fn contains(&self, flag: u32) -> (r: bool)
        ensures
            r == self.has(flag),
    {
        self.bits & flag == flag
    }

    /// Whether any bit of `flags` is set.
    pub fn intersects(&self, flags: u32) -> (r: bool)
        ensures
            r == self.has_any(flags),
    {
        self.bits & flags != 0
    }

    /// The mask without the bits that have no name.
    pub fn truncate(&self) -> (r: NameFlags)
        ensures
            r.bits == self.bits & NameFlags::ALL,
    {
        NameFlags { bits: self.bits & NameFlags::ALL }
    }

    /// Whether no bit without a name is set.
    pub fn is_truncated(&self) -> (r: bool)
        ensures
            r == self.only_named(),
    {
        self.bits & NameFlags::ALL == self.bits
    }
}

/// Flags of the information on a domain.
#[derive(Clone, Copy, Debug, PartialEq, Eq, Structural, Hash, PartialOrd, Ord)]
pub struct DomainFlags {
    pub bits: u32,
}

impl DomainFlags {
    pub const SID_DISABLED_ADMIN: u32 = 0x0000_0001;

    pub const SID_DISABLED_CONFLICT: u32 = 0x0000_0002;

    pub const NETBIOS_DISABLED_ADMIN: u32 = 0x0000_0004;

    pub const NETBIOS_DISABLED_CONFLICT: u32 = 0x0000_0008;

    /// Every bit that has a name.
    pub const ALL: u32 = 0x0000_000F;

    /// Whether every bit of `flag` is set.
    pub open spec fn has(self, flag: u32) -> bool {
        self.bits & flag == flag
    }

    /// Whether any bit of `flags` is set.
    pub open spec fn has_any(self, flags: u32) -> bool {
        self.bits & flags != 0
    }

    /// Whether no bit without a name is set.
    pub open spec fn only_named(self) -> bool {
        self.bits & DomainFlags::ALL == self.bits
    }

    /// The mask with the given bits.
    pub fn from(bits: u32) -> (r: DomainFlags)
        ensures
            r.bits == bits,
    {
        DomainFlags { bits }
    }

    /// The bits of the mask.
    pub fn bits(&self) -> (r: u32)
        ensures
            r == self.bits,
    {
        self.bits
    }

    /// Whether every bit of `flag` is set.
    pub fn contains(&self, flag: u32) -> (r: bool)
        ensures
            r == self.has(flag),
    {
        self.bits & flag == flag
    }

    /// Whether any bit of `flags` is set.
    pub fn intersects(&self, flags: u32) -> (r: bool)
        ensures
            r == self.has_any(flags),
    {
        self.bits & flags != 0
    }

    /// The mask without the bits that have no name.
    pub fn truncate(&self) -> (r: DomainFlags)
        ensures
            r.bits == self.bits & DomainFlags::ALL,
    {
        DomainFlags { bits: self.bits & DomainFlags::ALL }
    }

    /// Whether no bit without a name is set.
    pub fn is_truncated(&self) -> (r: bool)
        ensures
            r == self.only_named(),
    {
        self.bits & DomainFlags::ALL == self.bits
    }
}

/// A top level name of the other forest.
#[derive(Clone, Debug, PartialEq, Eq, Hash, PartialOrd, Ord)]
pub struct TopLevelNameTrustRecord {
    pub flags: NameFlags,
    pub timestamp: Timestamp,
    pub name: String,
}

/// A domain of the other forest.
#[derive(Clone, Debug, PartialEq, Eq, Hash, PartialOrd, Ord)]
pub struct DomainInfoTrustRecord {
    pub flags: DomainFlags,
    pub timestamp: Timestamp,
    pub sid: Sid,
    pub dns_name: String,
    pub netbios_name: String,
}

/// Information in a form that the decoder does not know.
#[derive(Clone, Debug, PartialEq, Eq, Hash, PartialOrd, Ord)]
pub struct BinaryInfoTrustRecord {
    pub flags: u32,
    pub timestamp: Timestamp,
    pub sub_record_type: u32,
    pub binary_data: Vec<u8>,
}

/// A record of a type that the decoder does not know.
#[derive(Clone, Debug, PartialEq, Eq, Hash, PartialOrd, Ord)]
pub struct OtherTrustRecord {
    pub record_type: u8,
    pub binary_info: BinaryInfoTrustRecord,
}

/// What a scanner found out about a domain of the other forest.
#[derive(Clone, Debug, PartialEq, Eq, Hash, PartialOrd, Ord)]
pub struct ScannerInfoTrustRecord {
    pub flags: u32,
    pub timestamp: Timestamp,
    pub sub_record_type: u32,
    pub sid: Option<Sid>,
    pub dns_name: String,
    pub netbios_name: String,
}

/// A record of the trust information.
#[derive(Clone, Debug, PartialEq, Eq, Hash, PartialOrd, Ord)]
pub enum TrustInfoRecord {
    /// Type 0.
    TopLevelName(TopLevelNameTrustRecord),
    /// Type 1.
    TopLevelNameEx(TopLevelNameTrustRecord),
    /// Type 2.
    DomainInfo(DomainInfoTrustRecord),
    /// Type 3.
    BinaryInfo(BinaryInfoTrustRecord),
    /// Type 4.
    ScannerInfo(ScannerInfoTrustRecord),
    /// Any other type.
    Other(OtherTrustRecord),
}

/// A text with its length in four bytes before it lies at `at`, within
/// `b`, and is UTF-8.
pub open spec fn text_fits(b: Seq<u8>, at: int) -> bool {
    &&& 0 <= at
    &&& at + 4 <= b.len()
    &&& text_end(b, at) <= b.len()
    &&& valid_utf8(b.subrange(at + 4, text_end(b, at)))
}

/// Where the text at `at` ends.
pub open spec fn text_end(b: Seq<u8>, at: int) -> int {
    at + 4 + le_u32(b, at)
}

/// The text at `at`.
pub open spec fn text_at(b: Seq<u8>, at: int) -> Seq<char> {
    decode_utf8(b.subrange(at + 4, text_end(b, at)))
}

fn read_text(bytes: &[u8], at: usize) -> (r: Option<(String, usize)>)
    requires
        at <= bytes.len(),
    ensures
        r is Some <==> text_fits(bytes@, at as int),
        r matches Some((t, end)) ==> t@ == text_at(bytes@, at as int) && end == text_end(
            bytes@,
            at as int,
        ) && end <= bytes.len(),
{
    if bytes.len() - at < 4 {
        return None;
    }
    let length: usize = read_u32_le(bytes, at) as usize;
    if bytes.len() - at - 4 < length {
        return None;
    }
    match string_from_utf8(&bytes[at + 4..at + 4 + length]) {
        Some(t) => Some((t, at + 4 + length)),
        None => None,
    }
}

/// The ticks that the header of the record `b` gives as its time: the
/// upper half of the 64 bits comes first.
pub open spec fn header_ticks(b: Seq<u8>) -> int {
    as_signed_64(0x1_0000_0000 * le_u32(b, 8) + le_u32(b, 12))
}

/// The layouts that the body of a record can have.
#[derive(Clone, Copy, Debug, PartialEq, Eq, Structural)]
pub enum RecordShape {
    /// A name.
    Name,
    /// A SID, a DNS name and a NetBIOS name.
    Domain,
    /// A subtype, an optional SID, a DNS name and a NetBIOS name.
    Scanner,
    /// A subtype and bytes.
    Binary,
}

/// The layout of the body of a record of type `kind`.
pub open spec fn record_shape(kind: u8) -> RecordShape {
    if kind == 0 || kind == 1 {
        RecordShape::Name
    } else if kind == 2 {
        RecordShape::Domain
    } else if kind == 4 {
        RecordShape::Scanner
    } else {
        RecordShape::Binary
    }
}

/// Where the DNS name of the scanner record `b` starts: after the length
/// byte of the SID and the SID.
pub open spec fn scanner_dns_at(b: Seq<u8>) -> int {
    26 + b[25]
}

impl TrustInfoRecord {
    /// The type of record that the variant stands for.
    pub open spec fn kind(&self) -> u8 {
        match self {
            TrustInfoRecord::TopLevelName(_) => 0,
            TrustInfoRecord::TopLevelNameEx(_) => 1,
            TrustInfoRecord::DomainInfo(_) => 2,
            TrustInfoRecord::BinaryInfo(_) => 3,
            TrustInfoRecord::ScannerInfo(_) => 4,
            TrustInfoRecord::Other(o) => o.record_type,
        }
    }

    /// The flags of the record as a number.
    pub open spec fn flag_bits(&self) -> u32 {
        match self {
            TrustInfoRecord::TopLevelName(r) => r.flags.bits,
            TrustInfoRecord::TopLevelNameEx(r) => r.flags.bits,
            TrustInfoRecord::DomainInfo(r) => r.flags.bits,
            TrustInfoRecord::BinaryInfo(r) => r.flags,
            TrustInfoRecord::ScannerInfo(r) => r.flags,
            TrustInfoRecord::Other(o) => o.binary_info.flags,
        }
    }

    /// The time of the record.
    pub open spec fn time(&self) -> Timestamp {
        match self {
            TrustInfoRecord::TopLevelName(r) => r.timestamp,
            TrustInfoRecord::TopLevelNameEx(r) => r.timestamp,
            TrustInfoRecord::DomainInfo(r) => r.timestamp,
            TrustInfoRecord::BinaryInfo(r) => r.timestamp,
            TrustInfoRecord::ScannerInfo(r) => r.timestamp,
            TrustInfoRecord::Other(o) => o.binary_info.timestamp,
        }
    }

    /// `b` is one record: a header of 17 bytes, whose length field counts
    /// what follows it to the end of `b`, and a body of the layout of the
    /// record's type that fills the rest.
    pub open spec fn wire_ok(b: Seq<u8>) -> bool {
        &&& b.len() >= 17
        &&& le_u32(b, 0) == b.len() - 4
        &&& match record_shape(b[16]) {
            RecordShape::Name => text_fits(b, 17) && text_end(b, 17) == b.len(),
            RecordShape::Domain => {
                &&& b.len() >= 21
                &&& text_end(b, 17) <= b.len()
                &&& Sid::wire_ok(b.subrange(21, text_end(b, 17)))
                &&& text_fits(b, text_end(b, 17))
                &&& text_fits(b, text_end(b, text_end(b, 17)))
                &&& text_end(b, text_end(b, text_end(b, 17))) == b.len()
            },
            RecordShape::Scanner => {
                &&& b.len() >= 26
                &&& text_end(b, 17) <= b.len()
                &&& scanner_dns_at(b) <= b.len()
                &&& b[25] > 0 ==> Sid::wire_ok(b.subrange(26, scanner_dns_at(b)))
                &&& text_fits(b, scanner_dns_at(b))
                &&& text_fits(b, text_end(b, scanner_dns_at(b)))
                &&& text_end(b, text_end(b, scanner_dns_at(b))) == b.len()
            },
            RecordShape::Binary => {
                &&& b.len() >= 25
                &&& le_u32(b, 17) >= 4
                &&& text_end(b, 17) == b.len()
            },
        }
    }

    /// `self` is the record that `b` holds.
    pub open spec fn decoded_from(&self, b: Seq<u8>) -> bool {
        &&& self.kind() == b[16]
        &&& self.flag_bits() == le_u32(b, 4)
        &&& self.time() == Timestamp::of_ticks(header_ticks(b))
        &&& match self {
            TrustInfoRecord::TopLevelName(r) => r.name@ == text_at(b, 17),
            TrustInfoRecord::TopLevelNameEx(r) => r.name@ == text_at(b, 17),
            TrustInfoRecord::DomainInfo(r) => {
                &&& r.sid.decoded_from(b.subrange(21, text_end(b, 17)))
                &&& r.dns_name@ == text_at(b, text_end(b, 17))
                &&& r.netbios_name@ == text_at(b, text_end(b, text_end(b, 17)))
            },
            TrustInfoRecord::ScannerInfo(r) => {
                &&& r.sub_record_type == le_u32(b, 21)
                &&& if b[25] > 0 {
                    r.sid matches Some(s) && s.decoded_from(b.subrange(26, scanner_dns_at(b)))
                } else {
                    r.sid is None
                }
                &&& r.dns_name@ == text_at(b, scanner_dns_at(b))
                &&& r.netbios_name@ == text_at(b, text_end(b, scanner_dns_at(b)))
            },
            TrustInfoRecord::BinaryInfo(r) => {
                &&& r.sub_record_type == le_u32(b, 21)
                &&& r.binary_data@ == b.subrange(25, b.len() as int)
            },
            TrustInfoRecord::Other(o) => {
                &&& o.record_type != 0 && o.record_type != 1 && o.record_type != 2
                    && o.record_type != 3 && o.record_type != 4
                &&& o.binary_info.sub_record_type == le_u32(b, 21)
                &&& o.binary_info.binary_data@ == b.subrange(25, b.len() as int)
            },
        }
    }

    /// The length of the record that `bytes` starts with, its length field
    /// included; `None` where `bytes` is too short to hold the field or
    /// the length does not fit the machine's word.
    pub fn get_length(bytes: &[u8]) -> (r: Option<usize>)
        ensures
            r is Some <==> bytes@.len() >= 4 && le_u32(bytes@, 0) + 4 <= usize::MAX,
            r matches Some(n) ==> n == le_u32(bytes@, 0) + 4,
    {
        if bytes.len() < 4 {
            return None;
        }
        let length: usize = read_u32_le(bytes, 0) as usize;
        if length > usize::MAX - 4 {
            return None;
        }
        Some(length + 4)
    }

    fn try_header_from_bytes(bytes: &[u8]) -> (r: Option<(usize, u32, i64, u8)>)
        ensures
            r is Some <==> bytes@.len() >= 17,
            r matches Some((length, flags, ticks, kind)) ==> {
                &&& length == le_u32(bytes@, 0)
                &&& flags == le_u32(bytes@, 4)
                &&& ticks == header_ticks(bytes@)
                &&& kind == bytes@[16]
            },
    {
        if bytes.len() < 17 {
            return None;
        }
        let length: usize = read_u32_le(bytes, 0) as usize;
        let flags: u32 = read_u32_le(bytes, 4);
        let timestamp_upper: u64 = read_u32_le(bytes, 8) as u64;
        let timestamp_lower: u64 = read_u32_le(bytes, 12) as u64;
        let timestamp: i64 = signed_64(0x1_0000_0000 * timestamp_upper + timestamp_lower);
        let record_type: u8 = bytes[16];
        Some((length, flags, timestamp, record_type))
    }

    /// Decodes a record that fills `bytes` exactly.
    pub fn try_from_bytes(bytes: &[u8]) -> (r: Option<TrustInfoRecord>)
        ensures
            r is Some <==> TrustInfoRecord::wire_ok(bytes@),
            r matches Some(t) ==> t.decoded_from(bytes@),
    {
        let ghost b = bytes@;
        let (length, flags, timestamp_ticks, record_type) =
            match TrustInfoRecord::try_header_from_bytes(bytes) {
            Some(h) => h,
            None => {
                return None;
            },
        };
        if length != bytes.len() - 4 {
            return None;
        }
        let timestamp: Timestamp = utc_ticks_relative_to_1601(timestamp_ticks);
        if record_type == 0x00 || record_type == 0x01 {
            let (name, end) = match read_text(bytes, 17) {
                Some(v) => v,
                None => {
                    return None;
                },
            };
            if end != bytes.len() {
                return None;
            }
            let data: TopLevelNameTrustRecord = TopLevelNameTrustRecord {
                flags: NameFlags::from(flags),
                timestamp,
                name,
            };
            if record_type == 0x00 {
                Some(TrustInfoRecord::TopLevelName(data))
            } else {
                Some(TrustInfoRecord::TopLevelNameEx(data))
            }
        } else if record_type == 0x02 {
            if bytes.len() < 21 {
                return None;
            }
            let sid_length: usize = read_u32_le(bytes, 17) as usize;
            if bytes.len() - 21 < sid_length {
                return None;
            }
            let sid: Sid = match Sid::try_from_bytes(&bytes[21..21 + sid_length]) {
                Some(s) => s,
                None => {
                    return None;
                },
            };
            let (dns_name, position) = match read_text(bytes, 21 + sid_length) {
                Some(v) => v,
                None => {
                    return None;
                },
            };
            let (netbios_name, position) = match read_text(bytes, position) {
                Some(v) => v,
                None => {
                    return None;
                },
            };
            if position != bytes.len() {
                return None;
            }
            Some(
                TrustInfoRecord::DomainInfo(
                    DomainInfoTrustRecord {
                        flags: DomainFlags::from(flags),
                        timestamp,
                        sid,
                        dns_name,
                        netbios_name,
                    },
                ),
            )
        } else if record_type == 0x04 {
            if bytes.len() < 21 {
                return None;
            }
            let binary_data_length: usize = read_u32_le(bytes, 17) as usize;
            if bytes.len() - 21 < binary_data_length {
                return None;
            }
            if bytes.len() < 26 {
                return None;
            }
            let sub_record_type: u32 = read_u32_le(bytes, 21);
            let sid_length: usize = bytes[25] as usize;
            let mut position: usize = 26;
            let sid: Option<Sid> = if sid_length > 0 {
                if bytes.len() - position < sid_length {
                    return None;
                }
                match Sid::try_from_bytes(&bytes[position..position + sid_length]) {
                    Some(s) => {
                        position += sid_length;
                        Some(s)
                    },
                    None => {
                        return None;
                    },
                }
            } else {
                None
            };
            let (dns_name, position) = match read_text(bytes, position) {
                Some(v) => v,
                None => {
                    return None;
                },
            };
            let (netbios_name, position) = match read_text(bytes, position) {
                Some(v) => v,
                None => {
                    return None;
                },
            };
            if position != bytes.len() {
                return None;
            }
            Some(
                TrustInfoRecord::ScannerInfo(
                    ScannerInfoTrustRecord {
                        flags,
                        timestamp,
                        sub_record_type,
                        sid,
                        dns_name,
                        netbios_name,
                    },
                ),
            )
        } else {
            if bytes.len() < 21 {
                return None;
            }
            let full_data_length: usize = read_u32_le(bytes, 17) as usize;
            if full_data_length < 4 {
                return None;
            }
            if bytes.len() - 21 != full_data_length {
                return None;
            }
            let sub_record_type: u32 = read_u32_le(bytes, 21);
            let binary_data: Vec<u8> = copy_range(bytes, 25, bytes.len());
            let binary_info: BinaryInfoTrustRecord = BinaryInfoTrustRecord {
                flags,
                timestamp,
                sub_record_type,
                binary_data,
            };
            if record_type == 0x03 {
                Some(TrustInfoRecord::BinaryInfo(binary_info))
            } else {
                Some(TrustInfoRecord::Other(OtherTrustRecord { record_type, binary_info }))
            }
        }
    }
}

/// The trust information of a forest.
#[derive(Clone, Debug, PartialEq, Eq, Hash, PartialOrd, Ord)]
pub struct TrustForestTrustInfo {
    pub version: u32,
    pub records: Vec<TrustInfoRecord>,
}

/// Where record `j` of the trust information `b` starts: the first one
/// after the header of eight bytes, each other one where the length field
/// of the one before says that it ends.
pub open spec fn record_offset(b: Seq<u8>, j: nat) -> int
    decreases j,
{
    if j == 0 {
        8
    } else {
        record_offset(b, (j - 1) as nat) + 4 + le_u32(b, record_offset(b, (j - 1) as nat))
    }
}

/// Record `j` of the trust information `b` lies within `b` and is well
/// formed.
pub open spec fn record_fits(b: Seq<u8>, j: nat) -> bool {
    &&& record_offset(b, j) + 4 <= b.len()
    &&& record_offset(b, j + 1) <= b.len()
    &&& TrustInfoRecord::wire_ok(b.subrange(record_offset(b, j), record_offset(b, j + 1)))
}

impl TrustForestTrustInfo {
    /// `b` is trust information: a header of eight bytes, which gives the
    /// count of the records, and as many well-formed records, which fill
    /// `b` to the end.
    pub open spec fn wire_ok(b: Seq<u8>) -> bool {
        &&& b.len() >= 8
        &&& forall|j: nat| j < le_u32(b, 4) ==> #[trigger] record_fits(b, j)
        &&& record_offset(b, le_u32(b, 4) as nat) == b.len()
    }

    /// `self` is the trust information that `b` holds.
    pub open spec fn decoded_from(&self, b: Seq<u8>) -> bool {
        &&& self.version == le_u32(b, 0)
        &&& self.records@.len() == le_u32(b, 4)
        &&& forall|j: nat|
            j < le_u32(b, 4) ==> (#[trigger] self.records@[j as int]).decoded_from(
                b.subrange(record_offset(b, j), record_offset(b, j + 1)),
            )
    }

    /// Decodes the trust information of a forest.
    pub fn try_from_bytes(bytes: &[u8]) -> (r: Option<TrustForestTrustInfo>)
        ensures
            r is Some <==> TrustForestTrustInfo::wire_ok(bytes@),
            r matches Some(t) ==> t.decoded_from(bytes@),
    {
        let ghost b = bytes@;
        if bytes.len() < 8 {
            return None;
        }
        let version: u32 = read_u32_le(bytes, 0);
        let record_count: usize = read_u32_le(bytes, 4) as usize;
        let mut position: usize = 8;
        let mut records: Vec<TrustInfoRecord> = Vec::new();
        let mut i: usize = 0;
        while i < record_count
            invariant
                b == bytes@,
                b.len() == bytes.len(),
                record_count == le_u32(b, 4),
                i <= record_count,
                8 <= position <= b.len(),
                position == record_offset(b, i as nat),
                records@.len() == i,
                forall|j: nat| j < i ==> #[trigger] record_fits(b, j),
                forall|j: nat|
                    j < i ==> (#[trigger] records@[j as int]).decoded_from(
                        b.subrange(record_offset(b, j), record_offset(b, j + 1)),
                    ),
            decreases record_count - i,
        {
            if bytes.len() - position < 4 {
                assert(!record_fits(b, i as nat));
                return None;
            }
            let length: usize = read_u32_le(bytes, position) as usize;
            assert(record_offset(b, (i + 1) as nat) == position + 4 + length);
            if bytes.len() - position - 4 < length {
                assert(!record_fits(b, i as nat));
                return None;
            }
            let record_length: usize = length + 4;
            let record: TrustInfoRecord = match TrustInfoRecord::try_from_bytes(
                &bytes[position..position + record_length],
            ) {
                Some(r) => r,
                None => {
                    assert(!record_fits(b, i as nat));
                    return None;
                },
            };
            position += record_length;
            records.push(record);
            i += 1;
        }
        if position != bytes.len() {
            return None;
        }
        Some(TrustForestTrustInfo { version, records })
    }
}

} // verus!
