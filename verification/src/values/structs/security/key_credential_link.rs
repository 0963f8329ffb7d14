//! Key credential links: the public keys that are bound to an account.

use crate::text::{digits_number, parse_digits, string_from_utf8};
use crate::time::{utc_ticks_relative_to_1601, Timestamp};
use crate::wire::{copy_range, le_i64, le_u16, le_u32, read_i64_le, read_u16_le, read_u32_le, tail};
use vstd::prelude::*;
use vstd::string::StringSliceAdditionalSpecFns;
use vstd::utf8::{decode_utf8, valid_utf8};

verus! {

/// What a key is used for.
#[derive(Clone, Copy, Debug, PartialEq, Eq, Structural, Hash)]
pub enum KeyUsageType {
    Ngc,
    Fido,
    Fek,
    /// Any other number.
    Other(u8),
}

impl KeyUsageType {
    /// The number that stands for the value.
    pub open spec fn number(self) -> u8 {
        match self {
            KeyUsageType::Ngc => 0x01,
            KeyUsageType::Fido => 0x07,
            KeyUsageType::Fek => 0x08,
            KeyUsageType::Other(v) => v,
        }
    }

    /// `Other` holds no number that has a name.
    pub open spec fn canonical(self) -> bool {
        self matches KeyUsageType::Other(v) ==> KeyUsageType::named(v) is None
    }

    /// The named value with the number `value`, if there is one.
    pub open spec fn named(value: u8) -> Option<KeyUsageType> {
        if value == 0x01 {
            Some(KeyUsageType::Ngc)
        } else if value == 0x07 {
            Some(KeyUsageType::Fido)
        } else if value == 0x08 {
            Some(KeyUsageType::Fek)
        } else {
            None
        }
    }

    /// The value with the number `value`.
    pub fn from_base_type(value: u8) -> (r: KeyUsageType)
        ensures
            r.number() == value,
            r.canonical(),
            r == match KeyUsageType::named(value) {
                Some(v) => v,
                None => KeyUsageType::Other(value),
            },
    {
        if value == 0x01 {
            KeyUsageType::Ngc
        } else if value == 0x07 {
            KeyUsageType::Fido
        } else if value == 0x08 {
            KeyUsageType::Fek
        } else {
            KeyUsageType::Other(value)
        }
    }

    /// The number that stands for the value.
    pub fn to_base_type(&self) -> (r: u8)
        ensures
            r == self.number(),
    {
        match self {
            KeyUsageType::Ngc => 0x01,
            KeyUsageType::Fido => 0x07,
            KeyUsageType::Fek => 0x08,
            KeyUsageType::Other(v) => *v,
        }
    }
}

/// Where a key comes from.
#[derive(Clone, Copy, Debug, PartialEq, Eq, Structural, Hash)]
pub enum KeySourceType {
    Ad,
    /// Any other number.
    Other(u8),
}

impl KeySourceType {
    /// The number that stands for the value.
    pub open spec fn number(self) -> u8 {
        match self {
            KeySourceType::Ad => 0x00,
            KeySourceType::Other(v) => v,
        }
    }

    /// `Other` holds no number that has a name.
    pub open spec fn canonical(self) -> bool {
        self matches KeySourceType::Other(v) ==> KeySourceType::named(v) is None
    }

    /// The named value with the number `value`, if there is one.
    pub open spec fn named(value: u8) -> Option<KeySourceType> {
        if value == 0x00 {
            Some(KeySourceType::Ad)
        } else {
            None
        }
    }

    /// The value with the number `value`.
    pub fn from_base_type(value: u8) -> (r: KeySourceType)
        ensures
            r.number() == value,
            r.canonical(),
            r == match KeySourceType::named(value) {
                Some(v) => v,
                None => KeySourceType::Other(value),
            },
    {
        if value == 0x00 {
            KeySourceType::Ad
        } else {
            KeySourceType::Other(value)
        }
    }

    /// The number that stands for the value.
    pub fn to_base_type(&self) -> (r: u8)
        ensures
            r == self.number(),
    {
        match self {
            KeySourceType::Ad => 0x00,
            KeySourceType::Other(v) => *v,
        }
    }
}

/// The kind of volume that a key protects.
#[derive(Clone, Copy, Debug, PartialEq, Eq, Structural, Hash)]
pub enum VolumeType {
    Nothing,
    OperatingSystem,
    FixedData,
    RemovableData,
    /// Any other number.
    Other(u8),
}

impl VolumeType {
    /// The number that stands for the value.
    pub open spec fn number(self) -> u8 {
        match self {
            VolumeType::Nothing => 0x00,
            VolumeType::OperatingSystem => 0x01,
            VolumeType::FixedData => 0x02,
            VolumeType::RemovableData => 0x03,
            VolumeType::Other(v) => v,
        }
    }

    /// `Other` holds no number that has a name.
    pub open spec fn canonical(self) -> bool {
        self matches VolumeType::Other(v) ==> VolumeType::named(v) is None
    }

    /// The named value with the number `value`, if there is one.
    pub open spec fn named(value: u8) -> Option<VolumeType> {
        if value == 0x00 {
            Some(VolumeType::Nothing)
        } else if value == 0x01 {
            Some(VolumeType::OperatingSystem)
        } else if value == 0x02 {
            Some(VolumeType::FixedData)
        } else if value == 0x03 {
            Some(VolumeType::RemovableData)
        } else {
            None
        }
    }

    /// The value with the number `value`.
    pub fn from_base_type(value: u8) -> (r: VolumeType)
        ensures
            r.number() == value,
            r.canonical(),
            r == match VolumeType::named(value) {
                Some(v) => v,
                None => VolumeType::Other(value),
            },
    {
        if value == 0x00 {
            VolumeType::Nothing
        } else if value == 0x01 {
            VolumeType::OperatingSystem
        } else if value == 0x02 {
            VolumeType::FixedData
        } else if value == 0x03 {
            VolumeType::RemovableData
        } else {
            VolumeType::Other(value)
        }
    }

    /// The number that stands for the value.
    pub fn to_base_type(&self) -> (r: u8)
        ensures
            r == self.number(),
    {
        match self {
            VolumeType::Nothing => 0x00,
            VolumeType::OperatingSystem => 0x01,
            VolumeType::FixedData => 0x02,
            VolumeType::RemovableData => 0x03,
            VolumeType::Other(v) => *v,
        }
    }
}

/// A truth value in 8 bits.
#[derive(Clone, Copy, Debug, PartialEq, Eq, Structural, Hash)]
pub enum Boolean8 {
    False,
    True,
    /// Any other number.
    Other(u8),
}

impl Boolean8 {
    /// The number that stands for the value.
    pub open spec fn number(self) -> u8 {
        match self {
            Boolean8::False => 0x00,
            Boolean8::True => 0x01,
            Boolean8::Other(v) => v,
        }
    }

    /// `Other` holds no number that has a name.
    pub open spec fn canonical(self) -> bool {
        self matches Boolean8::Other(v) ==> Boolean8::named(v) is None
    }

    /// The named value with the number `value`, if there is one.
    pub open spec fn named(value: u8) -> Option<Boolean8> {
        if value == 0x00 {
            Some(Boolean8::False)
        } else if value == 0x01 {
            Some(Boolean8::True)
        } else {
            None
        }
    }

    /// The value with the number `value`.
    pub fn from_base_type(value: u8) -> (r: Boolean8)
        ensures
            r.number() == value,
            r.canonical(),
            r == match Boolean8::named(value) {
                Some(v) => v,
                None => Boolean8::Other(value),
            },
    {
        if value == 0x00 {
            Boolean8::False
        } else if value == 0x01 {
            Boolean8::True
        } else {
            Boolean8::Other(value)
        }
    }

    /// The number that stands for the value.
    pub fn to_base_type(&self) -> (r: u8)
        ensures
            r == self.number(),
    {
        match self {
            Boolean8::False => 0x00,
            Boolean8::True => 0x01,
            Boolean8::Other(v) => *v,
        }
    }
}

/// The strength of a key.
#[derive(Clone, Copy, Debug, PartialEq, Eq, Structural, Hash)]
pub enum KeyStrength {
    Unknown,
    Weak,
    Normal,
    /// Any other number.
    Other(u8),
}

impl KeyStrength {
    /// The number that stands for the value.
    pub open spec fn number(self) -> u8 {
        match self {
            KeyStrength::Unknown => 0x00,
            KeyStrength::Weak => 0x01,
            KeyStrength::Normal => 0x02,
            KeyStrength::Other(v) => v,
        }
    }

    /// `Other` holds no number that has a name.
    pub open spec fn canonical(self) -> bool {
        self matches KeyStrength::Other(v) ==> KeyStrength::named(v) is None
    }

    /// The named value with the number `value`, if there is one.
    pub open spec fn named(value: u8) -> Option<KeyStrength> {
        if value == 0x00 {
            Some(KeyStrength::Unknown)
        } else if value == 0x01 {
            Some(KeyStrength::Weak)
        } else if value == 0x02 {
            Some(KeyStrength::Normal)
        } else {
            None
        }
    }

    /// The value with the number `value`.
    pub fn from_base_type(value: u8) -> (r: KeyStrength)
        ensures
            r.number() == value,
            r.canonical(),
            r == match KeyStrength::named(value) {
                Some(v) => v,
                None => KeyStrength::Other(value),
            },
    {
        if value == 0x00 {
            KeyStrength::Unknown
        } else if value == 0x01 {
            KeyStrength::Weak
        } else if value == 0x02 {
            KeyStrength::Normal
        } else {
            KeyStrength::Other(value)
        }
    }

    /// The number that stands for the value.
    pub fn to_base_type(&self) -> (r: u8)
        ensures
            r == self.number(),
    {
        match self {
            KeyStrength::Unknown => 0x00,
            KeyStrength::Weak => 0x01,
            KeyStrength::Normal => 0x02,
            KeyStrength::Other(v) => *v,
        }
    }
}

/// Flags of the custom key information.
#[derive(Clone, Copy, Debug, PartialEq, Eq, Structural, Hash)]
pub struct CkiFlags {
    pub bits: u8,
}

impl CkiFlags {
    pub const ATTESTATION: u8 = 0x01;

    pub const MFA_NOT_USED: u8 = 0x02;

    /// Every bit that has a name.
    pub const ALL: u8 = 0x03;

    /// Whether every bit of `flag` is set.
    pub open spec fn has(self, flag: u8) -> bool {
        self.bits & flag == flag
    }

    /// Whether any bit of `flags` is set.
    pub open spec fn has_any(self, flags: u8) -> bool {
        self.bits & flags != 0
    }

    /// Whether no bit without a name is set.
    pub open spec fn only_named(self) -> bool {
        self.bits & CkiFlags::ALL == self.bits
    }

    /// The mask with the given bits.
    pub fn from(bits: u8) -> (r: CkiFlags)
        ensures
            r.bits == bits,
    {
        CkiFlags { bits }
    }

    /// The bits of the mask.
    pub fn bits(&self) -> (r: u8)
        ensures
            r == self.bits,
    {
        self.bits
    }

    /// Whether every bit of `flag` is set.
    pub fn contains(&self, flag: u8) -> (r: bool)
        ensures
            r == self.has(flag),
    {
        self.bits & flag == flag
    }

    /// Whether any bit of `flags` is set.
    pub fn intersects(&self, flags: u8) -> (r: bool)
        ensures
            r == self.has_any(flags),
    {
        self.bits & flags != 0
    }

    /// The mask without the bits that have no name.
    pub fn truncate(&self) -> (r: CkiFlags)
        ensures
            r.bits == self.bits & CkiFlags::ALL,
    {
        CkiFlags { bits: self.bits & CkiFlags::ALL }
    }

    /// Whether no bit without a name is set.
    pub fn is_truncated(&self) -> (r: bool)
        ensures
            r == self.only_named(),
    {
        self.bits & CkiFlags::ALL == self.bits
    }
}

/// Custom key information in its short form.
#[derive(Clone, Debug, PartialEq, Eq, Hash)]
pub struct CustomKeyInformationShort {
    pub version: u8,
    pub flags: CkiFlags,
}

/// More custom key information in a form of its own.
#[derive(Clone, Debug, PartialEq, Eq, Hash)]
pub struct EncodedExtendedCki {
    pub version: u8,
    pub cbor_data: Vec<u8>,
}

/// Custom key information in its long form. The fields after the volume
/// type are present as far as the data reaches.
#[derive(Clone, Debug, PartialEq, Eq, Hash)]
pub struct CustomKeyInformationLong {
    pub version: u8,
    pub flags: CkiFlags,
    pub volume_type: VolumeType,
    pub supports_notification: Option<Boolean8>,
    pub fek_key_version: Option<u8>,
    pub key_strength: Option<KeyStrength>,
    /// The bytes from the seventh on, ten of them at most.
    pub reserved: Vec<u8>,
    pub encoded_extended_cki: Option<EncodedExtendedCki>,
}

/// One entry of a key credential link.
#[derive(Clone, Debug, PartialEq, Eq, Hash)]
pub enum KeyCredentialLinkEntry {
    /// Identifier 0x01.
    KeyId(Vec<u8>),
    /// Identifier 0x02.
    KeyHash(Vec<u8>),
    /// Identifier 0x03.
    KeyMaterial(Vec<u8>),
    /// Identifier 0x04.
    KeyUsage(KeyUsageType),
    /// Identifier 0x05.
    KeySource(KeySourceType),
    /// Identifier 0x06.
    DeviceId(Vec<u8>),
    /// Identifier 0x07, with two bytes of data.
    CustomKeyInformationShort(CustomKeyInformationShort),
    /// Identifier 0x07, with more than two bytes of data.
    CustomKeyInformationLong(CustomKeyInformationLong),
    /// Identifier 0x08.
    KeyApproximateLastLogonTimeStamp(Timestamp),
    /// Identifier 0x09.
    KeyCreationTime(Timestamp),
    /// Any other identifier.
    Other { identifier: u8, data: Vec<u8> },
}

/// Where the reserved bytes of long custom key information end.
pub open spec fn reserved_end(d: Seq<u8>) -> int {
    if d.len() <= 6 {
        6
    } else if d.len() >= 16 {
        16
    } else {
        d.len() as int
    }
}

impl CustomKeyInformationLong {
    /// `self` is the custom key information that the data `d` of more
    /// than two bytes holds.
    pub open spec fn decoded_from(&self, d: Seq<u8>) -> bool {
        &&& self.version == d[0]
        &&& self.flags.bits == d[1]
        &&& self.volume_type.number() == d[2]
        &&& self.volume_type.canonical()
        &&& if d.len() > 3 {
            self.supports_notification matches Some(v) && v.number() == d[3] && v.canonical()
        } else {
            self.supports_notification is None
        }
        &&& if d.len() > 4 {
            self.fek_key_version == Some(d[4])
        } else {
            self.fek_key_version is None
        }
        &&& if d.len() > 5 {
            self.key_strength matches Some(v) && v.number() == d[5] && v.canonical()
        } else {
            self.key_strength is None
        }
        &&& self.reserved@ == if d.len() <= 6 {
            Seq::<u8>::empty()
        } else {
            d.subrange(6, reserved_end(d))
        }
        &&& if d.len() > 17 && d.len() == 18 + d[17] {
            self.encoded_extended_cki matches Some(e) && e.version == d[16] && e.cbor_data@
                == tail(d, 18)
        } else {
            self.encoded_extended_cki is None
        }
    }

    fn decode(data_slice: &[u8]) -> (r: CustomKeyInformationLong)
        requires
            data_slice.len() > 2,
        ensures
            r.decoded_from(data_slice@),
    {
        let version: u8 = data_slice[0];
        let flags: CkiFlags = CkiFlags::from(data_slice[1]);
        let volume_type: VolumeType = VolumeType::from_base_type(data_slice[2]);
        let supports_notification: Option<Boolean8> = if data_slice.len() > 3 {
            Some(Boolean8::from_base_type(data_slice[3]))
        } else {
            None
        };
        let fek_key_version: Option<u8> = if data_slice.len() > 4 {
            Some(data_slice[4])
        } else {
            None
        };
        let key_strength: Option<KeyStrength> = if data_slice.len() > 5 {
            Some(KeyStrength::from_base_type(data_slice[5]))
        } else {
            None
        };
        let reserved: Vec<u8> = if data_slice.len() <= 6 {
            Vec::new()
        } else if data_slice.len() >= 16 {
            copy_range(data_slice, 6, 16)
        } else {
            copy_range(data_slice, 6, data_slice.len())
        };
        let encoded_extended_cki: Option<EncodedExtendedCki> = if data_slice.len() > 17 {
            let extended_version: u8 = data_slice[16];
            let extended_size: usize = data_slice[17] as usize;
            if data_slice.len() != 18 + extended_size {
                None
            } else {
                let extended_data: Vec<u8> = copy_range(data_slice, 18, data_slice.len());
                Some(EncodedExtendedCki { version: extended_version, cbor_data: extended_data })
            }
        } else {
            None
        };
        CustomKeyInformationLong {
            version,
            flags,
            volume_type,
            supports_notification,
            fek_key_version,
            key_strength,
            reserved,
            encoded_extended_cki,
        }
    }
}

impl KeyCredentialLinkEntry {
    /// The identifier of the entry.
    pub open spec fn identifier(&self) -> u8 {
        match self {
            KeyCredentialLinkEntry::KeyId(_) => 0x01,
            KeyCredentialLinkEntry::KeyHash(_) => 0x02,
            KeyCredentialLinkEntry::KeyMaterial(_) => 0x03,
            KeyCredentialLinkEntry::KeyUsage(_) => 0x04,
            KeyCredentialLinkEntry::KeySource(_) => 0x05,
            KeyCredentialLinkEntry::DeviceId(_) => 0x06,
            KeyCredentialLinkEntry::CustomKeyInformationShort(_) => 0x07,
            KeyCredentialLinkEntry::CustomKeyInformationLong(_) => 0x07,
            KeyCredentialLinkEntry::KeyApproximateLastLogonTimeStamp(_) => 0x08,
            KeyCredentialLinkEntry::KeyCreationTime(_) => 0x09,
            KeyCredentialLinkEntry::Other { identifier, .. } => *identifier,
        }
    }

    /// `b` starts with an entry: a header of three bytes, which gives the
    /// length of the data, and as many bytes.
    pub open spec fn starts(b: Seq<u8>) -> bool {
        b.len() >= 3 && 3 + le_u16(b, 0) <= b.len()
    }

    /// `b` is one entry whose data has the length that its identifier asks
    /// for.
    pub open spec fn wire_ok(b: Seq<u8>) -> bool {
        &&& b.len() >= 3
        &&& b.len() == 3 + le_u16(b, 0)
        &&& (b[2] == 0x04 || b[2] == 0x05) ==> b.len() == 4
        &&& b[2] == 0x07 ==> b.len() >= 5
        &&& (b[2] == 0x08 || b[2] == 0x09) ==> b.len() == 11
    }

    /// `self` is the entry that `b` holds.
    pub open spec fn decoded_from(&self, b: Seq<u8>) -> bool {
        &&& self.identifier() == b[2]
        &&& match self {
            KeyCredentialLinkEntry::KeyId(v) => v@ == tail(b, 3),
            KeyCredentialLinkEntry::KeyHash(v) => v@ == tail(b, 3),
            KeyCredentialLinkEntry::KeyMaterial(v) => v@ == tail(b, 3),
            KeyCredentialLinkEntry::DeviceId(v) => v@ == tail(b, 3),
            KeyCredentialLinkEntry::KeyUsage(u) => u.number() == b[3] && u.canonical(),
            KeyCredentialLinkEntry::KeySource(s) => s.number() == b[3] && s.canonical(),
            KeyCredentialLinkEntry::CustomKeyInformationShort(c) => {
                &&& b.len() == 5
                &&& c.version == b[3]
                &&& c.flags.bits == b[4]
            },
            KeyCredentialLinkEntry::CustomKeyInformationLong(c) => {
                &&& b.len() > 5
                &&& c.decoded_from(tail(b, 3))
            },
            KeyCredentialLinkEntry::KeyApproximateLastLogonTimeStamp(t) => *t
                == Timestamp::of_ticks(le_i64(b, 3)),
            KeyCredentialLinkEntry::KeyCreationTime(t) => *t == Timestamp::of_ticks(le_i64(b, 3)),
            KeyCredentialLinkEntry::Other { identifier, data } => {
                &&& *identifier == 0 || *identifier > 9
                &&& data@ == tail(b, 3)
            },
        }
    }

    /// The length of the entry that `bytes` starts with.
    pub fn get_length(bytes: &[u8]) -> (r: Option<usize>)
        ensures
            r is Some <==> KeyCredentialLinkEntry::starts(bytes@),
            r matches Some(n) ==> n == 3 + le_u16(bytes@, 0),
    {
        if bytes.len() < 3 {
            return None;
        }
        let value_length: usize = read_u16_le(bytes, 0) as usize;
        let total_length: usize = 3 + value_length;
        if bytes.len() >= total_length {
            Some(total_length)
        } else {
            None
        }
    }

    /// Decodes an entry that fills `bytes` exactly.
    pub fn try_from_bytes(bytes: &[u8]) -> (r: Option<KeyCredentialLinkEntry>)
        ensures
            r is Some <==> KeyCredentialLinkEntry::wire_ok(bytes@),
            r matches Some(e) ==> e.decoded_from(bytes@),
    {
        if bytes.len() < 3 {
            return None;
        }
        let value_length: usize = read_u16_le(bytes, 0) as usize;
        if bytes.len() != 3 + value_length {
            return None;
        }
        let identifier: u8 = bytes[2];
        let data_slice: &[u8] = &bytes[3..bytes.len()];
        if identifier == 0x01 {
            Some(KeyCredentialLinkEntry::KeyId(copy_range(bytes, 3, bytes.len())))
        } else if identifier == 0x02 {
            Some(KeyCredentialLinkEntry::KeyHash(copy_range(bytes, 3, bytes.len())))
        } else if identifier == 0x03 {
            Some(KeyCredentialLinkEntry::KeyMaterial(copy_range(bytes, 3, bytes.len())))
        } else if identifier == 0x04 {
            if data_slice.len() != 1 {
                None
            } else {
                Some(KeyCredentialLinkEntry::KeyUsage(KeyUsageType::from_base_type(data_slice[0])))
            }
        } else if identifier == 0x05 {
            if data_slice.len() != 1 {
                None
            } else {
                Some(
                    KeyCredentialLinkEntry::KeySource(KeySourceType::from_base_type(data_slice[0])),
                )
            }
        } else if identifier == 0x06 {
            Some(KeyCredentialLinkEntry::DeviceId(copy_range(bytes, 3, bytes.len())))
        } else if identifier == 0x07 {
            if data_slice.len() < 2 {
                return None;
            }
            if data_slice.len() == 2 {
                let version: u8 = data_slice[0];
                let flags: CkiFlags = CkiFlags::from(data_slice[1]);
                Some(
                    KeyCredentialLinkEntry::CustomKeyInformationShort(
                        CustomKeyInformationShort { version, flags },
                    ),
                )
            } else {
                Some(
                    KeyCredentialLinkEntry::CustomKeyInformationLong(
                        CustomKeyInformationLong::decode(data_slice),
                    ),
                )
            }
        } else if identifier == 0x08 || identifier == 0x09 {
            if data_slice.len() != 8 {
                None
            } else {
                let timestamp: Timestamp = utc_ticks_relative_to_1601(read_i64_le(bytes, 3));
                if identifier == 0x08 {
                    Some(KeyCredentialLinkEntry::KeyApproximateLastLogonTimeStamp(timestamp))
                } else {
                    Some(KeyCredentialLinkEntry::KeyCreationTime(timestamp))
                }
            }
        } else {
            Some(
                KeyCredentialLinkEntry::Other {
                    identifier,
                    data: copy_range(bytes, 3, bytes.len()),
                },
            )
        }
    }
}

/// A key credential link: the entries of a key and the name of the object
/// that the key belongs to.
#[derive(Clone, Debug, PartialEq, Eq, Hash)]
pub struct KeyCredentialLinkBlob {
    pub version: u32,
    pub entries: Vec<KeyCredentialLinkEntry>,
    pub dn: String,
}

/// The index of the first colon at or after `from`; the length of `t`
/// where there is none.
pub open spec fn colon_from(t: Seq<u8>, from: int) -> int
    decreases t.len() - from,
{
    if from < 0 || from >= t.len() {
        t.len() as int
    } else if t[from] == 0x3A {
        from
    } else {
        colon_from(t, from + 1)
    }
}

/// The number that an upper-case hexadecimal digit stands for.
pub open spec fn hex_value(c: u8) -> Option<int> {
    if 0x30 <= c <= 0x39 {
        Some(c - 0x30)
    } else if 0x41 <= c <= 0x46 {
        Some(c - 0x41 + 10)
    } else {
        None
    }
}

/// Every byte is an upper-case hexadecimal digit.
pub open spec fn all_hex(h: Seq<u8>) -> bool {
    forall|i: int| 0 <= i < h.len() ==> hex_value(#[trigger] h[i]) is Some
}

/// The bytes that pairs of hexadecimal digits write.
pub open spec fn unhex(h: Seq<u8>) -> Seq<u8> {
    Seq::new(
        h.len() / 2,
        |i: int| (16 * hex_value(h[2 * i]).unwrap() + hex_value(h[2 * i + 1]).unwrap()) as u8,
    )
}

/// Where the count of the hexadecimal digits ends.
pub open spec fn count_end(t: Seq<u8>) -> int {
    colon_from(t, 2)
}

/// Where the hexadecimal digits end.
pub open spec fn hex_end(t: Seq<u8>) -> int {
    colon_from(t, count_end(t) + 1)
}

/// The hexadecimal digits of the envelope `t`.
pub open spec fn hex_part(t: Seq<u8>) -> Seq<u8> {
    t.subrange(count_end(t) + 1, hex_end(t))
}

/// The name at the end of the envelope `t`.
pub open spec fn dn_part(t: Seq<u8>) -> Seq<u8> {
    tail(t, hex_end(t) + 1)
}

/// `t` is an envelope `B:<count>:<hexadecimal digits>:<name>`: the count
/// is a decimal number and gives the number of the digits, which come in
/// pairs, at least one of them, and the name holds no line feed.
pub open spec fn envelope_ok(t: Seq<u8>) -> bool {
    &&& t.len() >= 2
    &&& t[0] == 0x42
    &&& t[1] == 0x3A
    &&& count_end(t) < t.len()
    &&& digits_number(t.subrange(2, count_end(t))) == Some(hex_part(t).len() as int)
    &&& hex_end(t) < t.len()
    &&& hex_part(t).len() >= 2
    &&& hex_part(t).len() % 2 == 0
    &&& all_hex(hex_part(t))
    &&& forall|i: int| 0 <= i < dn_part(t).len() ==> #[trigger] dn_part(t)[i] != 0x0A
    &&& valid_utf8(dn_part(t))
}

/// Where entry `j` of the link `d` starts: the first one after the version
/// of four bytes, each other one where the length field of the one before
/// says that it ends.
pub open spec fn link_entry_offset(d: Seq<u8>, j: nat) -> int
    decreases j,
{
    if j == 0 {
        4
    } else {
        link_entry_offset(d, (j - 1) as nat) + 3 + le_u16(d, link_entry_offset(d, (j - 1) as nat))
    }
}

/// Where the entry that starts at `at` ends.
pub open spec fn link_entry_end(d: Seq<u8>, at: int) -> int {
    at + 3 + le_u16(d, at)
}

/// From `at` on, `d` is a run of well-formed entries that ends where `d`
/// ends.
pub open spec fn entries_fill(d: Seq<u8>, at: int) -> bool
    decreases d.len() - at,
{
    if at >= d.len() {
        at == d.len()
    } else if at < 0 || at + 3 > d.len() || link_entry_end(d, at) > d.len() {
        false
    } else if !KeyCredentialLinkEntry::wire_ok(d.subrange(at, link_entry_end(d, at))) {
        false
    } else {
        entries_fill(d, link_entry_end(d, at))
    }
}

/// The number of entries from `at` on.
pub open spec fn entries_count(d: Seq<u8>, at: int) -> nat
    decreases d.len() - at,
{
    if at < 0 || at + 3 > d.len() || link_entry_end(d, at) > d.len() {
        0
    } else {
        1 + entries_count(d, link_entry_end(d, at))
    }
}

impl KeyCredentialLinkBlob {
    /// `d` is a link of the known version: the version in four bytes and
    /// entries to the end.
    pub open spec fn wire_ok(d: Seq<u8>) -> bool {
        d.len() >= 4 && le_u32(d, 0) == 0x0000_0200 && entries_fill(d, 4)
    }

    /// The text `t` is an envelope whose hexadecimal digits write a link.
    pub open spec fn text_ok(t: Seq<u8>) -> bool {
        envelope_ok(t) && KeyCredentialLinkBlob::wire_ok(unhex(hex_part(t)))
    }

    /// `self` is what the link `d` holds, with the name that `name`
    /// writes.
    pub open spec fn decoded_from(&self, d: Seq<u8>, name: Seq<u8>) -> bool {
        &&& self.version == 0x0000_0200
        &&& self.dn@ == decode_utf8(name)
        &&& self.entries@.len() == entries_count(d, 4)
        &&& forall|j: nat|
            j < self.entries@.len() ==> (#[trigger] self.entries@[j as int]).decoded_from(
                d.subrange(link_entry_offset(d, j), link_entry_offset(d, j + 1)),
            )
    }

    /// Decodes a key credential link from its text form.
    pub fn try_from_str(string: &str) -> (r: Option<KeyCredentialLinkBlob>)
        ensures
            r is Some <==> KeyCredentialLinkBlob::text_ok(string.spec_bytes()),
            r matches Some(k) ==> k.decoded_from(
                unhex(hex_part(string.spec_bytes())),
                dn_part(string.spec_bytes()),
            ),
    {
        let text: &[u8] = string.as_bytes();
        let ghost t = text@;
        if text.len() < 2 || text[0] != 0x42 || text[1] != 0x3A {
            return None;
        }
        let digits_end: usize = find_colon(text, 2);
        proof {
            if digits_end < t.len() {
                lemma_colon_from_bounds(t, digits_end + 1);
            }
        }
        if digits_end >= text.len() {
            return None;
        }
        let hex_length: usize = match parse_digits(&text[0..digits_end], 2) {
            Some(n) => {
                if n > usize::MAX as u64 {
                    assert(digits_number(t.subrange(2, digits_end as int)).unwrap() > usize::MAX)
                        by {
                        assert(t.subrange(0, digits_end as int).skip(2) =~= t.subrange(
                            2,
                            digits_end as int,
                        ));
                    }
                    return None;
                }
                n as usize
            },
            None => {
                assert(t.subrange(0, digits_end as int).skip(2) =~= t.subrange(
                    2,
                    digits_end as int,
                ));
                return None;
            },
        };
        assert(t.subrange(0, digits_end as int).skip(2) =~= t.subrange(2, digits_end as int));
        let hex_start: usize = digits_end + 1;
        let hex_stop: usize = find_colon(text, hex_start);
        if hex_stop >= text.len() {
            return None;
        }
        if hex_stop - hex_start != hex_length {
            return None;
        }
        if hex_length < 2 || hex_length % 2 != 0 {
            return None;
        }
        let bytes: Vec<u8> = match unhex_bytes(&text[hex_start..hex_stop]) {
            Some(b) => b,
            None => {
                return None;
            },
        };
        let ghost d = bytes@;
        // the name may hold anything but a line feed
        let mut k: usize = hex_stop + 1;
        while k < text.len()
            invariant
                t == text@,
                t == string.spec_bytes(),
                hex_stop == hex_end(t),
                hex_stop < k <= t.len(),
                forall|i: int| 0 <= i < k - hex_stop - 1 ==> #[trigger] dn_part(t)[i] != 0x0A,
            decreases text.len() - k,
        {
            if text[k] == 0x0A {
                assert(dn_part(t)[k - hex_stop - 1] == 0x0A);
                return None;
            }
            k += 1;
        }
        let dn: String = match string_from_utf8(&text[hex_stop + 1..text.len()]) {
            Some(s) => s,
            None => {
                return None;
            },
        };
        assert(envelope_ok(t));

        if bytes.len() < 4 {
            return None;
        }
        let version: u32 = read_u32_le(bytes.as_slice(), 0);
        if version != 0x0000_0200 {
            return None;
        }
        let mut i: usize = 4;
        let mut entries: Vec<KeyCredentialLinkEntry> = Vec::new();
        while i < bytes.len()
            invariant
                d == bytes@,
                t == string.spec_bytes(),
                envelope_ok(t),
                d == unhex(hex_part(t)),
                le_u32(d, 0) == 0x0000_0200,
                version == 0x0000_0200,
                dn@ == decode_utf8(dn_part(t)),
                d.len() >= 4,
                4 <= i <= d.len(),
                i == link_entry_offset(d, entries@.len()),
                entries_fill(d, 4) == entries_fill(d, i as int),
                entries_count(d, 4) == entries@.len() + entries_count(d, i as int),
                forall|j: nat|
                    j < entries@.len() ==> (#[trigger] entries@[j as int]).decoded_from(
                        d.subrange(link_entry_offset(d, j), link_entry_offset(d, j + 1)),
                    ),
            decreases bytes.len() - i,
        {
            let entry_length: usize = match KeyCredentialLinkEntry::get_length(
                slice_from(bytes.as_slice(), i),
            ) {
                Some(n) => n,
                None => {
                    return None;
                },
            };
            assert(i + entry_length == link_entry_end(d, i as int));
            let entry: KeyCredentialLinkEntry = match KeyCredentialLinkEntry::try_from_bytes(
                slice_between(bytes.as_slice(), i, i + entry_length),
            ) {
                Some(e) => e,
                None => {
                    return None;
                },
            };
            i += entry_length;
            entries.push(entry);
        }
        Some(KeyCredentialLinkBlob { version, entries, dn })
    }
}

/// The first colon at or after `from` lies at or after `from`, within the
/// text or at its end.
pub proof fn lemma_colon_from_bounds(t: Seq<u8>, from: int)
    requires
        0 <= from <= t.len(),
    ensures
        from <= colon_from(t, from) <= t.len(),
    decreases t.len() - from,
{
    if from < t.len() && t[from] != 0x3A {
        lemma_colon_from_bounds(t, from + 1);
    }
}

fn slice_from(bytes: &[u8], at: usize) -> (r: &[u8])
    requires
        at <= bytes.len(),
    ensures
        r@ == tail(bytes@, at as int),
{
    &bytes[at..bytes.len()]
}

fn slice_between(bytes: &[u8], from: usize, to: usize) -> (r: &[u8])
    requires
        from <= to <= bytes.len(),
    ensures
        r@ == bytes@.subrange(from as int, to as int),
{
    &bytes[from..to]
}

fn find_colon(text: &[u8], from: usize) -> (r: usize)
    requires
        from <= text.len(),
    ensures
        r == colon_from(text@, from as int),
        from <= r <= text.len(),
{
    let mut i: usize = from;
    while i < text.len() && text[i] != 0x3A
        invariant
            from <= i <= text.len(),
            colon_from(text@, from as int) == colon_from(text@, i as int),
        decreases text.len() - i,
    {
        i += 1;
    }
    i
}

fn hex_digit_value(c: u8) -> (r: Option<u8>)
    ensures
        r is Some <==> hex_value(c) is Some,
        r matches Some(v) ==> v == hex_value(c).unwrap() && v < 16,
{
    if c >= 0x30 && c <= 0x39 {
        Some(c - 0x30)
    } else if c >= 0x41 && c <= 0x46 {
        Some(c - 0x41 + 10)
    } else {
        None
    }
}

fn unhex_bytes(hex: &[u8]) -> (r: Option<Vec<u8>>)
    requires
        hex.len() % 2 == 0,
    ensures
        r is Some <==> all_hex(hex@),
        r matches Some(v) ==> v@ == unhex(hex@),
{
    let mut bytes: Vec<u8> = Vec::new();
    let mut i: usize = 0;
    while i < hex.len()
        invariant
            hex.len() % 2 == 0,
            i <= hex.len(),
            i % 2 == 0,
            bytes@.len() == i / 2,
            forall|j: int| 0 <= j < i ==> hex_value(#[trigger] hex@[j]) is Some,
            forall|j: int| 0 <= j < i / 2 ==> #[trigger] bytes@[j] == unhex(hex@)[j],
        decreases hex.len() - i,
    {
        let high: u8 = match hex_digit_value(hex[i]) {
            Some(v) => v,
            None => {
                return None;
            },
        };
        let low: u8 = match hex_digit_value(hex[i + 1]) {
            Some(v) => v,
            None => {
                return None;
            },
        };
        bytes.push(16 * high + low);
        i += 2;
    }
    assert(bytes@ =~= unhex(hex@));
    Some(bytes)
}

} // verus!
