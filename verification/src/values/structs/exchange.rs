//! Values of the attributes of a mail server, which packs them into
//! integers.

use crate::bits::{bit_is_set, bit_range, extract_bits_u16, extract_bits_u8, is_bit_set};
use crate::text::{bits_of_i32, bits_of_i64, decimal_i32, decimal_i64, parse_i32, parse_i64, unsigned_32, unsigned_64};
use vstd::arithmetic::power2::lemma2_to64;
use vstd::prelude::*;
use vstd::string::StringSliceAdditionalSpecFns;

verus! {

/// The format of the body of a message.
#[derive(Clone, Copy, Debug, PartialEq, Eq, Structural, Hash, PartialOrd, Ord)]
pub enum BodyFormat {
    Text,
    Html,
    TextAndHtml,
}

impl BodyFormat {
    /// The number that stands for the value.
    pub open spec fn number(self) -> u8 {
        match self {
            BodyFormat::Text => 0x00,
            BodyFormat::Html => 0x01,
            BodyFormat::TextAndHtml => 0x02,
        }
    }

    /// The value with the number `value`, if there is one.
    pub open spec fn named(value: u8) -> Option<BodyFormat> {
        if value == 0x00 {
            Some(BodyFormat::Text)
        } else if value == 0x01 {
            Some(BodyFormat::Html)
        } else if value == 0x02 {
            Some(BodyFormat::TextAndHtml)
        } else {
            None
        }
    }

    /// The value with the number `value`, if there is one.
    pub fn try_from_repr(value: u8) -> (r: Option<BodyFormat>)
        ensures
            r == BodyFormat::named(value),
            r matches Some(v) ==> v.number() == value,
    {
        if value == 0x00 {
            Some(BodyFormat::Text)
        } else if value == 0x01 {
            Some(BodyFormat::Html)
        } else if value == 0x02 {
            Some(BodyFormat::TextAndHtml)
        } else {
            None
        }
    }

    /// The number that stands for the value.
    pub fn into_repr(self) -> (r: u8)
        ensures
            r == self.number(),
    {
        match self {
            BodyFormat::Text => 0x00,
            BodyFormat::Html => 0x01,
            BodyFormat::TextAndHtml => 0x02,
        }
    }
}

/// The format of attachments for the Macintosh.
#[derive(Clone, Copy, Debug, PartialEq, Eq, Structural, Hash, PartialOrd, Ord)]
pub enum MacAttachmentFormat {
    BinHex,
    UuEncode,
    AppleSingle,
    AppleDouble,
}

impl MacAttachmentFormat {
    /// The number that stands for the value.
    pub open spec fn number(self) -> u8 {
        match self {
            MacAttachmentFormat::BinHex => 0x00,
            MacAttachmentFormat::UuEncode => 0x01,
            MacAttachmentFormat::AppleSingle => 0x02,
            MacAttachmentFormat::AppleDouble => 0x03,
        }
    }

    /// The value with the number `value`, if there is one.
    pub open spec fn named(value: u8) -> Option<MacAttachmentFormat> {
        if value == 0x00 {
            Some(MacAttachmentFormat::BinHex)
        } else if value == 0x01 {
            Some(MacAttachmentFormat::UuEncode)
        } else if value == 0x02 {
            Some(MacAttachmentFormat::AppleSingle)
        } else if value == 0x03 {
            Some(MacAttachmentFormat::AppleDouble)
        } else {
            None
        }
    }

    /// The value with the number `value`, if there is one.
    pub fn try_from_repr(value: u8) -> (r: Option<MacAttachmentFormat>)
        ensures
            r == MacAttachmentFormat::named(value),
            r matches Some(v) ==> v.number() == value,
    {
        if value == 0x00 {
            Some(MacAttachmentFormat::BinHex)
        } else if value == 0x01 {
            Some(MacAttachmentFormat::UuEncode)
        } else if value == 0x02 {
            Some(MacAttachmentFormat::AppleSingle)
        } else if value == 0x03 {
            Some(MacAttachmentFormat::AppleDouble)
        } else {
            None
        }
    }

    /// The number that stands for the value.
    pub fn into_repr(self) -> (r: u8)
        ensures
            r == self.number(),
    {
        match self {
            MacAttachmentFormat::BinHex => 0x00,
            MacAttachmentFormat::UuEncode => 0x01,
            MacAttachmentFormat::AppleSingle => 0x02,
            MacAttachmentFormat::AppleDouble => 0x03,
        }
    }
}

/// Who may see a group.
#[derive(Clone, Copy, Debug, PartialEq, Eq, Structural, Hash, PartialOrd, Ord)]
pub enum GroupAccessType {
    Nothing,
    Private,
    Secret,
    Public,
}

impl GroupAccessType {
    /// The number that stands for the value.
    pub open spec fn number(self) -> u8 {
        match self {
            GroupAccessType::Nothing => 0x00,
            GroupAccessType::Private => 0x01,
            GroupAccessType::Secret => 0x02,
            GroupAccessType::Public => 0x03,
        }
    }

    /// The value with the number `value`, if there is one.
    pub open spec fn named(value: u8) -> Option<GroupAccessType> {
        if value == 0x00 {
            Some(GroupAccessType::Nothing)
        } else if value == 0x01 {
            Some(GroupAccessType::Private)
        } else if value == 0x02 {
            Some(GroupAccessType::Secret)
        } else if value == 0x03 {
            Some(GroupAccessType::Public)
        } else {
            None
        }
    }

    /// The value with the number `value`, if there is one.
    pub fn try_from_repr(value: u8) -> (r: Option<GroupAccessType>)
        ensures
            r == GroupAccessType::named(value),
            r matches Some(v) ==> v.number() == value,
    {
        if value == 0x00 {
            Some(GroupAccessType::Nothing)
        } else if value == 0x01 {
            Some(GroupAccessType::Private)
        } else if value == 0x02 {
            Some(GroupAccessType::Secret)
        } else if value == 0x03 {
            Some(GroupAccessType::Public)
        } else {
            None
        }
    }

    /// The number that stands for the value.
    pub fn into_repr(self) -> (r: u8)
        ensures
            r == self.number(),
    {
        match self {
            GroupAccessType::Nothing => 0x00,
            GroupAccessType::Private => 0x01,
            GroupAccessType::Secret => 0x02,
            GroupAccessType::Public => 0x03,
        }
    }
}

/// The computers on which the mailbox may be used offline.
#[derive(Clone, Copy, Debug, PartialEq, Eq, Structural, Hash, PartialOrd, Ord)]
pub enum AllowOfflineOn {
    Unknown,
    PrivateComputersOnly,
    NoComputers,
    AllComputers,
}

impl AllowOfflineOn {
    /// The number that stands for the value.
    pub open spec fn number(self) -> u8 {
        match self {
            AllowOfflineOn::Unknown => 0x00,
            AllowOfflineOn::PrivateComputersOnly => 0x01,
            AllowOfflineOn::NoComputers => 0x02,
            AllowOfflineOn::AllComputers => 0x03,
        }
    }

    /// The value with the number `value`, if there is one.
    pub open spec fn named(value: u8) -> Option<AllowOfflineOn> {
        if value == 0x00 {
            Some(AllowOfflineOn::Unknown)
        } else if value == 0x01 {
            Some(AllowOfflineOn::PrivateComputersOnly)
        } else if value == 0x02 {
            Some(AllowOfflineOn::NoComputers)
        } else if value == 0x03 {
            Some(AllowOfflineOn::AllComputers)
        } else {
            None
        }
    }

    /// The value with the number `value`, if there is one.
    pub fn try_from_repr(value: u8) -> (r: Option<AllowOfflineOn>)
        ensures
            r == AllowOfflineOn::named(value),
            r matches Some(v) ==> v.number() == value,
    {
        if value == 0x00 {
            Some(AllowOfflineOn::Unknown)
        } else if value == 0x01 {
            Some(AllowOfflineOn::PrivateComputersOnly)
        } else if value == 0x02 {
            Some(AllowOfflineOn::NoComputers)
        } else if value == 0x03 {
            Some(AllowOfflineOn::AllComputers)
        } else {
            None
        }
    }

    /// The number that stands for the value.
    pub fn into_repr(self) -> (r: u8)
        ensures
            r == self.number(),
    {
        match self {
            AllowOfflineOn::Unknown => 0x00,
            AllowOfflineOn::PrivateComputersOnly => 0x01,
            AllowOfflineOn::NoComputers => 0x02,
            AllowOfflineOn::AllComputers => 0x03,
        }
    }
}

/// Which pages may show the web parts in a frame.
#[derive(Clone, Copy, Debug, PartialEq, Eq, Structural, Hash, PartialOrd, Ord)]
pub enum WebPartsFrameOptions {
    Deny,
    AllowFrom,
    Nothing,
    SameOrigin,
}

impl WebPartsFrameOptions {
    /// The number that stands for the value.
    pub open spec fn number(self) -> u8 {
        match self {
            WebPartsFrameOptions::Deny => 0x00,
            WebPartsFrameOptions::AllowFrom => 0x01,
            WebPartsFrameOptions::Nothing => 0x02,
            WebPartsFrameOptions::SameOrigin => 0x03,
        }
    }

    /// The value with the number `value`, if there is one.
    pub open spec fn named(value: u8) -> Option<WebPartsFrameOptions> {
        if value == 0x00 {
            Some(WebPartsFrameOptions::Deny)
        } else if value == 0x01 {
            Some(WebPartsFrameOptions::AllowFrom)
        } else if value == 0x02 {
            Some(WebPartsFrameOptions::Nothing)
        } else if value == 0x03 {
            Some(WebPartsFrameOptions::SameOrigin)
        } else {
            None
        }
    }

    /// The value with the number `value`, if there is one.
    pub fn try_from_repr(value: u8) -> (r: Option<WebPartsFrameOptions>)
        ensures
            r == WebPartsFrameOptions::named(value),
            r matches Some(v) ==> v.number() == value,
    {
        if value == 0x00 {
            Some(WebPartsFrameOptions::Deny)
        } else if value == 0x01 {
            Some(WebPartsFrameOptions::AllowFrom)
        } else if value == 0x02 {
            Some(WebPartsFrameOptions::Nothing)
        } else if value == 0x03 {
            Some(WebPartsFrameOptions::SameOrigin)
        } else {
            None
        }
    }

    /// The number that stands for the value.
    pub fn into_repr(self) -> (r: u8)
        ensures
            r == self.number(),
    {
        match self {
            WebPartsFrameOptions::Deny => 0x00,
            WebPartsFrameOptions::AllowFrom => 0x01,
            WebPartsFrameOptions::Nothing => 0x02,
            WebPartsFrameOptions::SameOrigin => 0x03,
        }
    }
}

/// The format of a message.
#[derive(Clone, Copy, Debug, PartialEq, Eq, Structural, Hash, PartialOrd, Ord)]
pub enum MessageFormat {
    Text,
    Mime,
}

impl MessageFormat {
    /// MIME where `is_mime` holds, text otherwise.
    pub fn from_is_mime(is_mime: bool) -> (r: MessageFormat)
        ensures
            r == if is_mime {
                MessageFormat::Mime
            } else {
                MessageFormat::Text
            },
    {
        if is_mime {
            MessageFormat::Mime
        } else {
            MessageFormat::Text
        }
    }
}

/// The state of text messaging of a mailbox.
#[derive(Clone, Copy, Debug, PartialEq, Eq, Structural, Hash, PartialOrd, Ord)]
pub struct TextMessagingState {
    pub m2p_priority: u8,
    pub p2p_priority: u8,
    pub identity: u8,
    /// A number of four bits.
    pub delivery_point_type: u8,
    pub m2p_enabled: bool,
    pub p2p_enabled: bool,
    pub shared: bool,
}

impl TextMessagingState {
    /// The state that the 32 bits `bits` pack.
    pub open spec fn of_bits(bits: int) -> TextMessagingState {
        TextMessagingState {
            m2p_priority: bit_range(bits, 0, 8) as u8,
            p2p_priority: bit_range(bits, 8, 8) as u8,
            identity: bit_range(bits, 16, 8) as u8,
            delivery_point_type: bit_range(bits, 24, 4) as u8,
            m2p_enabled: is_bit_set(bits, 28),
            p2p_enabled: is_bit_set(bits, 29),
            shared: is_bit_set(bits, 30),
        }
    }

    /// Reads the state from a signed decimal number of 32 bits. A number
    /// whose top bit is set has no known structure.
    pub fn try_from_str(value: &str) -> (r: Option<TextMessagingState>)
        ensures
            r is Some <==> decimal_i32(value.spec_bytes()) is Some && !is_bit_set(
                unsigned_32(decimal_i32(value.spec_bytes()).unwrap()),
                31,
            ),
            r matches Some(s) ==> s == TextMessagingState::of_bits(
                unsigned_32(decimal_i32(value.spec_bytes()).unwrap()),
            ),
    {
        let signed: i32 = match parse_i32(value.as_bytes()) {
            Some(v) => v,
            None => {
                return None;
            },
        };
        let unsigned: u32 = bits_of_i32(signed);
        if bit_is_set(unsigned as u64, 31) {
            return None;
        }
        let m2p_priority: u8 = extract_bits_u8(unsigned as u64, 0, 8);
        let p2p_priority: u8 = extract_bits_u8(unsigned as u64, 8, 8);
        let identity: u8 = extract_bits_u8(unsigned as u64, 16, 8);
        let delivery_point_type: u8 = extract_bits_u8(unsigned as u64, 24, 4);
        let m2p_enabled: bool = bit_is_set(unsigned as u64, 28);
        let p2p_enabled: bool = bit_is_set(unsigned as u64, 29);
        let shared: bool = bit_is_set(unsigned as u64, 30);
        Some(
            TextMessagingState {
                m2p_priority,
                p2p_priority,
                identity,
                delivery_point_type,
                m2p_enabled,
                p2p_enabled,
                shared,
            },
        )
    }
}

/// The version of the mail server that an object was made for.
#[derive(Clone, Copy, Debug, PartialEq, Eq, Structural, Hash, PartialOrd, Ord)]
pub struct ExchangeVersion {
    pub major: u8,
    pub minor: u8,
    pub build_major: u8,
    pub build_minor: u8,
    pub build: u16,
    /// A number of ten bits.
    pub build_revision: u16,
}

impl ExchangeVersion {
    /// The version that the 64 bits `bits` pack.
    pub open spec fn of_bits(bits: int) -> ExchangeVersion {
        ExchangeVersion {
            major: bit_range(bits, 50, 8) as u8,
            minor: bit_range(bits, 42, 8) as u8,
            build_major: bit_range(bits, 34, 8) as u8,
            build_minor: bit_range(bits, 26, 8) as u8,
            build: bit_range(bits, 10, 16) as u16,
            build_revision: bit_range(bits, 0, 10) as u16,
        }
    }

    /// Reads the version from a signed decimal number of 64 bits.
    pub fn try_from_str(value: &str) -> (r: Option<ExchangeVersion>)
        ensures
            r is Some <==> decimal_i64(value.spec_bytes()) is Some,
            r matches Some(v) ==> v == ExchangeVersion::of_bits(
                unsigned_64(decimal_i64(value.spec_bytes()).unwrap()),
            ),
    {
        let signed: i64 = match parse_i64(value.as_bytes()) {
            Some(v) => v,
            None => {
                return None;
            },
        };
        let unsigned: u64 = bits_of_i64(signed);
        let build_revision: u16 = extract_bits_u16(unsigned, 0, 10);
        let build: u16 = extract_bits_u16(unsigned, 10, 16);
        let build_minor: u8 = extract_bits_u8(unsigned, 26, 8);
        let build_major: u8 = extract_bits_u8(unsigned, 34, 8);
        let minor: u8 = extract_bits_u8(unsigned, 42, 8);
        let major: u8 = extract_bits_u8(unsigned, 50, 8);
        Some(ExchangeVersion { major, minor, build_major, build_minor, build, build_revision })
    }

    /// The name of the release, where the version is the first of a
    /// release.
    pub open spec fn friendly(self) -> Option<Seq<char>> {
        if self.major != 0 || self.build_revision != 0 {
            None
        } else if self.minor == 0 && self.build_major == 6 && self.build_minor == 5 && self.build
            == 6500 {
            Some("Exchange2003"@)
        } else if self.minor == 1 && self.build_major == 8 && self.build_minor == 0 && self.build
            == 535 {
            Some("Exchange2007"@)
        } else if self.minor == 10 && self.build_major == 14 && self.build_minor == 0 && self.build
            == 100 {
            Some("Exchange2010"@)
        } else if self.minor == 20 && self.build_major == 15 && self.build_minor == 0 && self.build
            == 0 {
            Some("Exchange2012"@)
        } else if self.minor == 30 && self.build_major == 15 && self.build_minor == 1 && self.build
            == 0 {
            Some("Exchange2016"@)
        } else if self.minor == 40 && self.build_major == 15 && self.build_minor == 2 && self.build
            == 0 {
            Some("Exchange2019"@)
        } else if self.minor == 50 && self.build_major == 15 && self.build_minor == 20
            && self.build == 0 {
            Some("Exchange2020"@)
        } else {
            None
        }
    }

    /// The name of the release, where the version is the first of a
    /// release.
    pub fn as_friendly_version(&self) -> (r: Option<&'static str>)
        ensures
            r matches Some(t) ==> self.friendly() == Some(t@),
            r is None ==> self.friendly() is None,
    {
        if self.major != 0 || self.build_revision != 0 {
            None
        } else if self.minor == 0 && self.build_major == 6 && self.build_minor == 5 && self.build
            == 6500 {
            Some("Exchange2003")
        } else if self.minor == 1 && self.build_major == 8 && self.build_minor == 0 && self.build
            == 535 {
            Some("Exchange2007")
        } else if self.minor == 10 && self.build_major == 14 && self.build_minor == 0 && self.build
            == 100 {
            Some("Exchange2010")
        } else if self.minor == 20 && self.build_major == 15 && self.build_minor == 0 && self.build
            == 0 {
            Some("Exchange2012")
        } else if self.minor == 30 && self.build_major == 15 && self.build_minor == 1 && self.build
            == 0 {
            Some("Exchange2016")
        } else if self.minor == 40 && self.build_major == 15 && self.build_minor == 2 && self.build
            == 0 {
            Some("Exchange2019")
        } else if self.minor == 50 && self.build_major == 15 && self.build_minor == 20
            && self.build == 0 {
            Some("Exchange2020")
        } else {
            None
        }
    }
}

/// How messages to a recipient on the Internet are encoded.
#[derive(Clone, Copy, Debug, PartialEq, Eq, Structural, Hash, PartialOrd, Ord)]
pub struct InternetEncoding {
    pub use_preferred_message_format: bool,
    pub message_format: MessageFormat,
    pub body_format: BodyFormat,
    pub mac_attachment_format: MacAttachmentFormat,
}

impl InternetEncoding {
    /// The encoding that the 32 bits `bits` pack. Where both bits of the
    /// body format are set, the body has both formats.
    pub open spec fn of_bits(bits: int) -> InternetEncoding {
        InternetEncoding {
            use_preferred_message_format: is_bit_set(bits, 17),
            message_format: if is_bit_set(bits, 18) {
                MessageFormat::Mime
            } else {
                MessageFormat::Text
            },
            body_format: match BodyFormat::named(bit_range(bits, 19, 2) as u8) {
                Some(f) => f,
                None => BodyFormat::TextAndHtml,
            },
            mac_attachment_format: MacAttachmentFormat::named(bit_range(bits, 21, 2) as u8).unwrap(),
        }
    }

    /// Reads the encoding from a signed decimal number of 32 bits.
    pub fn try_from_str(value: &str) -> (r: Option<InternetEncoding>)
        ensures
            r is Some <==> decimal_i32(value.spec_bytes()) is Some,
            r matches Some(e) ==> e == InternetEncoding::of_bits(
                unsigned_32(decimal_i32(value.spec_bytes()).unwrap()),
            ),
    {
        let signed: i32 = match parse_i32(value.as_bytes()) {
            Some(v) => v,
            None => {
                return None;
            },
        };
        let unsigned: u32 = bits_of_i32(signed);
        let use_preferred_message_format: bool = bit_is_set(unsigned as u64, 17);
        let message_format_bool: bool = bit_is_set(unsigned as u64, 18);
        let message_format: MessageFormat = MessageFormat::from_is_mime(message_format_bool);
        let body_format_u8: u8 = extract_bits_u8(unsigned as u64, 19, 2);
        let body_format: BodyFormat = match BodyFormat::try_from_repr(body_format_u8) {
            Some(f) => f,
            None => BodyFormat::TextAndHtml,
        };
        let mac_attachment_format_u8: u8 = extract_bits_u8(unsigned as u64, 21, 2);
        proof {
            lemma2_to64();
        }
        let mac_attachment_format: MacAttachmentFormat = match MacAttachmentFormat::try_from_repr(
            mac_attachment_format_u8,
        ) {
            Some(f) => f,
            None => {
                return None;
            },
        };
        Some(
            InternetEncoding {
                use_preferred_message_format,
                message_format,
                body_format,
                mac_attachment_format,
            },
        )
    }
}

/// The security flags of a group.
#[derive(Clone, Debug, PartialEq, Eq, Structural, Hash, PartialOrd, Ord)]
pub struct GroupSecurityFlags {
    pub access_type: GroupAccessType,
    pub activity_status: bool,
}

impl GroupSecurityFlags {
    /// The flags that the 32 bits `bits` pack.
    pub open spec fn of_bits(bits: int) -> GroupSecurityFlags {
        GroupSecurityFlags {
            access_type: GroupAccessType::named(bit_range(bits, 1, 2) as u8).unwrap(),
            activity_status: is_bit_set(bits, 3),
        }
    }

    /// Reads the flags from a signed decimal number of 32 bits.
    pub fn try_from_str(value: &str) -> (r: Option<GroupSecurityFlags>)
        ensures
            r is Some <==> decimal_i32(value.spec_bytes()) is Some,
            r matches Some(f) ==> f == GroupSecurityFlags::of_bits(
                unsigned_32(decimal_i32(value.spec_bytes()).unwrap()),
            ),
    {
        let signed: i32 = match parse_i32(value.as_bytes()) {
            Some(v) => v,
            None => {
                return None;
            },
        };
        let unsigned: u32 = bits_of_i32(signed);
        let access_type_u8: u8 = extract_bits_u8(unsigned as u64, 1, 2);
        proof {
            lemma2_to64();
        }
        let access_type: GroupAccessType = match GroupAccessType::try_from_repr(access_type_u8) {
            Some(t) => t,
            None => {
                return None;
            },
        };
        let activity_status: bool = bit_is_set(unsigned as u64, 3);
        Some(GroupSecurityFlags { access_type, activity_status })
    }
}

/// The second set of the features of a mailbox in the web client.
#[derive(Clone, Copy, Debug, PartialEq, Eq, Structural, Hash, PartialOrd, Ord)]
pub struct MailboxFolderSet2 {
    pub force_save_attachment_filtering_enabled: bool,
    pub silverlight_enabled: bool,
    pub anonymous_features_enabled: bool,
    pub unknown3: bool,
    pub unknown4: bool,
    pub owa_mini_enabled: bool,
    pub places_enabled: bool,
    pub allow_offline_on: AllowOfflineOn,
    pub display_photos_enabled: bool,
    pub set_photo_enabled: bool,
    pub logon_page_light_selection_enabled: bool,
    pub logon_page_public_private_selection_enabled: bool,
    pub predicted_actions_enabled: bool,
    pub integrated_features_enabled: bool,
    pub user_diagnostic_enabled: bool,
    pub facebook_enabled: bool,
    pub linked_in_enabled: bool,
    pub wac_external_services_enabled: bool,
    pub wac_omex_enabled: bool,
    pub web_parts_frame_options: WebPartsFrameOptions,
    pub allow_copy_contacts_to_device_address_book: bool,
    pub report_junk_mail_enabled: bool,
    pub group_creation_enabled: bool,
    pub skip_create_unified_group_custom_sharepoint_classification: bool,
    pub weather_enabled: bool,
    pub user_voice_enabled: bool,
    pub satisfaction_enabled: bool,
    pub fre_cards_enabled: bool,
    pub unknown30: bool,
    pub on_send_addins_disabled: bool,
}

impl MailboxFolderSet2 {
    /// The features that the 32 bits `bits` pack, one bit each but for
    /// two fields of two bits.
    pub open spec fn of_bits(bits: int) -> MailboxFolderSet2 {
        MailboxFolderSet2 {
            force_save_attachment_filtering_enabled: is_bit_set(bits, 0),
            silverlight_enabled: is_bit_set(bits, 1),
            anonymous_features_enabled: is_bit_set(bits, 2),
            unknown3: is_bit_set(bits, 3),
            unknown4: is_bit_set(bits, 4),
            owa_mini_enabled: is_bit_set(bits, 5),
            places_enabled: is_bit_set(bits, 6),
            allow_offline_on: AllowOfflineOn::named(bit_range(bits, 7, 2) as u8).unwrap(),
            display_photos_enabled: is_bit_set(bits, 9),
            set_photo_enabled: is_bit_set(bits, 10),
            logon_page_light_selection_enabled: is_bit_set(bits, 11),
            logon_page_public_private_selection_enabled: is_bit_set(bits, 12),
            predicted_actions_enabled: is_bit_set(bits, 13),
            integrated_features_enabled: is_bit_set(bits, 14),
            user_diagnostic_enabled: is_bit_set(bits, 15),
            facebook_enabled: is_bit_set(bits, 16),
            linked_in_enabled: is_bit_set(bits, 17),
            wac_external_services_enabled: is_bit_set(bits, 18),
            wac_omex_enabled: is_bit_set(bits, 19),
            web_parts_frame_options: WebPartsFrameOptions::named(bit_range(bits, 20, 2) as u8).unwrap(),
            allow_copy_contacts_to_device_address_book: is_bit_set(bits, 22),
            report_junk_mail_enabled: is_bit_set(bits, 23),
            group_creation_enabled: is_bit_set(bits, 24),
            skip_create_unified_group_custom_sharepoint_classification: is_bit_set(bits, 25),
            weather_enabled: is_bit_set(bits, 26),
            user_voice_enabled: is_bit_set(bits, 27),
            satisfaction_enabled: is_bit_set(bits, 28),
            fre_cards_enabled: is_bit_set(bits, 29),
            unknown30: is_bit_set(bits, 30),
            on_send_addins_disabled: is_bit_set(bits, 31),
        }
    }

    /// Reads the features from a signed decimal number of 32 bits.
    pub fn try_from_str(value: &str) -> (r: Option<MailboxFolderSet2>)
        ensures
            r is Some <==> decimal_i32(value.spec_bytes()) is Some,
            r matches Some(f) ==> f == MailboxFolderSet2::of_bits(
                unsigned_32(decimal_i32(value.spec_bytes()).unwrap()),
            ),
    {
        let signed: i32 = match parse_i32(value.as_bytes()) {
            Some(v) => v,
            None => {
                return None;
            },
        };
        let unsigned: u32 = bits_of_i32(signed);
        proof {
            lemma2_to64();
        }
        let force_save_attachment_filtering_enabled: bool = bit_is_set(unsigned as u64, 0);
        let silverlight_enabled: bool = bit_is_set(unsigned as u64, 1);
        let anonymous_features_enabled: bool = bit_is_set(unsigned as u64, 2);
        let unknown3: bool = bit_is_set(unsigned as u64, 3);
        let unknown4: bool = bit_is_set(unsigned as u64, 4);
        let owa_mini_enabled: bool = bit_is_set(unsigned as u64, 5);
        let places_enabled: bool = bit_is_set(unsigned as u64, 6);
        let allow_offline_on: AllowOfflineOn = match AllowOfflineOn::try_from_repr(
            extract_bits_u8(unsigned as u64, 7, 2),
        ) {
            Some(v) => v,
            None => {
                return None;
            },
        };
        let display_photos_enabled: bool = bit_is_set(unsigned as u64, 9);
        let set_photo_enabled: bool = bit_is_set(unsigned as u64, 10);
        let logon_page_light_selection_enabled: bool = bit_is_set(unsigned as u64, 11);
        let logon_page_public_private_selection_enabled: bool = bit_is_set(unsigned as u64, 12);
        let predicted_actions_enabled: bool = bit_is_set(unsigned as u64, 13);
        let integrated_features_enabled: bool = bit_is_set(unsigned as u64, 14);
        let user_diagnostic_enabled: bool = bit_is_set(unsigned as u64, 15);
        let facebook_enabled: bool = bit_is_set(unsigned as u64, 16);
        let linked_in_enabled: bool = bit_is_set(unsigned as u64, 17);
        let wac_external_services_enabled: bool = bit_is_set(unsigned as u64, 18);
        let wac_omex_enabled: bool = bit_is_set(unsigned as u64, 19);
        let web_parts_frame_options: WebPartsFrameOptions = match WebPartsFrameOptions::try_from_repr(
            extract_bits_u8(unsigned as u64, 20, 2),
        ) {
            Some(v) => v,
            None => {
                return None;
            },
        };
        let allow_copy_contacts_to_device_address_book: bool = bit_is_set(unsigned as u64, 22);
        let report_junk_mail_enabled: bool = bit_is_set(unsigned as u64, 23);
        let group_creation_enabled: bool = bit_is_set(unsigned as u64, 24);
        let skip_create_unified_group_custom_sharepoint_classification: bool = bit_is_set(unsigned as u64, 25);
        let weather_enabled: bool = bit_is_set(unsigned as u64, 26);
        let user_voice_enabled: bool = bit_is_set(unsigned as u64, 27);
        let satisfaction_enabled: bool = bit_is_set(unsigned as u64, 28);
        let fre_cards_enabled: bool = bit_is_set(unsigned as u64, 29);
        let unknown30: bool = bit_is_set(unsigned as u64, 30);
        let on_send_addins_disabled: bool = bit_is_set(unsigned as u64, 31);
        Some(
            MailboxFolderSet2 {
                force_save_attachment_filtering_enabled,
                silverlight_enabled,
                anonymous_features_enabled,
                unknown3,
                unknown4,
                owa_mini_enabled,
                places_enabled,
                allow_offline_on,
                display_photos_enabled,
                set_photo_enabled,
                logon_page_light_selection_enabled,
                logon_page_public_private_selection_enabled,
                predicted_actions_enabled,
                integrated_features_enabled,
                user_diagnostic_enabled,
                facebook_enabled,
                linked_in_enabled,
                wac_external_services_enabled,
                wac_omex_enabled,
                web_parts_frame_options,
                allow_copy_contacts_to_device_address_book,
                report_junk_mail_enabled,
                group_creation_enabled,
                skip_create_unified_group_custom_sharepoint_classification,
                weather_enabled,
                user_voice_enabled,
                satisfaction_enabled,
                fre_cards_enabled,
                unknown30,
                on_send_addins_disabled,
            },
        )
    }
}

} // verus!
