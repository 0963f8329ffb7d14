use ad_values::oid_prefix::OidPrefix;
use ad_values::time::Timestamp;
use ad_values::values::structs::dfsr::{dfsr_schedule_lines, dfsr_schedule_to_string};
use ad_values::values::structs::exchange::{
    AllowOfflineOn, BodyFormat, ExchangeVersion, GroupAccessType, GroupSecurityFlags,
    InternetEncoding, MacAttachmentFormat, MailboxFolderSet2, MessageFormat, TextMessagingState,
    WebPartsFrameOptions,
};
use ad_values::values::structs::schema::{PrefixMap, SchemaInfo};
use ad_values::values::structs::security::key_credential_link::{
    Boolean8, CkiFlags, CustomKeyInformationShort, KeyCredentialLinkBlob, KeyCredentialLinkEntry,
    KeySourceType, KeyStrength, KeyUsageType, VolumeType,
};
use ad_values::values::structs::terminal_services::{
    CtxCfgFlags1, ShadowType, UserParameter, UserParameters,
};
use num_bigint::BigUint;

fn hex(bytes: &[u8]) -> String {
    bytes.iter().map(|b| format!("{:02X}", b)).collect()
}

fn entry(identifier: u8, data: &[u8]) -> Vec<u8> {
    let mut out = (data.len() as u16).to_le_bytes().to_vec();
    out.push(identifier);
    out.extend_from_slice(data);
    out
}

fn link(entries: &[Vec<u8>], dn: &str) -> String {
    let mut bytes = 0x0000_0200u32.to_le_bytes().to_vec();
    for e in entries {
        bytes.extend_from_slice(e);
    }
    let digits = hex(&bytes);
    format!("B:{}:{}:{}", digits.len(), digits, dn)
}

#[test]
fn key_credential_link_decodes() {
    let text = link(
        &[
            entry(1, &[0xAA, 0xBB]),
            entry(4, &[1]),
            entry(5, &[0]),
            entry(9, &125_911_583_990_000_000i64.to_le_bytes()),
            entry(7, &[1, 2]),
            entry(0x20, &[]),
        ],
        "CN=user,DC=example,DC=com",
    );
    let blob = KeyCredentialLinkBlob::try_from_str(&text).unwrap();
    assert_eq!(blob.version, 0x200);
    assert_eq!(blob.dn, "CN=user,DC=example,DC=com");
    assert_eq!(
        blob.entries,
        vec![
            KeyCredentialLinkEntry::KeyId(vec![0xAA, 0xBB]),
            KeyCredentialLinkEntry::KeyUsage(KeyUsageType::Ngc),
            KeyCredentialLinkEntry::KeySource(KeySourceType::Ad),
            KeyCredentialLinkEntry::KeyCreationTime(Timestamp { seconds: 12_591_158_399, nanoseconds: 0 }),
            KeyCredentialLinkEntry::CustomKeyInformationShort(CustomKeyInformationShort {
                version: 1,
                flags: CkiFlags::from(2),
            }),
            KeyCredentialLinkEntry::Other { identifier: 0x20, data: vec![] },
        ]
    );
    // no entry at all, and a name with colons
    let blob = KeyCredentialLinkBlob::try_from_str("B:8:00020000:a:b:").unwrap();
    assert_eq!(blob.entries.len(), 0);
    assert_eq!(blob.dn, "a:b:");
    let blob = KeyCredentialLinkBlob::try_from_str("B:8:00020000:").unwrap();
    assert_eq!(blob.dn, "");
}

#[test]
fn key_credential_link_envelope_is_checked() {
    for text in [
        "",
        "B",
        "B:",
        "b:8:00020000:dn",
        "B:8:00020000",
        "B::00020000:dn",
        "B:+8:00020000:dn",
        "B:x:00020000:dn",
        "B:7:00020000:dn",
        "B:9:00020000:dn",
        "B:8:0002000:dn",
        "B:8:0002000g:dn",
        "B:8:0002000a:dn",
        "B:0::dn",
        "B:2:00:dn",
        "B:6:000200:dn",
        "B:8:00030000:dn",
        "B:8:00020000:d\nn",
        "B:99999999999999999999999999:00020000:dn",
        // an entry that is cut short
        "B:12:000200000100:dn",
        "B:16:0002000002000100:dn",
    ] {
        assert_eq!(KeyCredentialLinkBlob::try_from_str(text), None, "{:?}", text);
    }
    // leading zeros of the count are taken
    assert!(KeyCredentialLinkBlob::try_from_str("B:008:00020000:dn").is_some());
    assert!(KeyCredentialLinkBlob::try_from_str("B:14:00020000000001:dn").is_some());
}

#[test]
fn key_credential_link_entries() {
    assert_eq!(KeyCredentialLinkEntry::get_length(&[2, 0, 1, 9, 9, 7]), Some(5));
    assert_eq!(KeyCredentialLinkEntry::get_length(&[2, 0, 1, 9]), None);
    assert_eq!(KeyCredentialLinkEntry::get_length(&[2, 0]), None);
    let decode = |identifier: u8, data: &[u8]| KeyCredentialLinkEntry::try_from_bytes(&entry(identifier, data));
    assert_eq!(decode(2, &[1]), Some(KeyCredentialLinkEntry::KeyHash(vec![1])));
    assert_eq!(decode(3, &[]), Some(KeyCredentialLinkEntry::KeyMaterial(vec![])));
    assert_eq!(decode(6, &[5, 6]), Some(KeyCredentialLinkEntry::DeviceId(vec![5, 6])));
    assert_eq!(decode(4, &[7]), Some(KeyCredentialLinkEntry::KeyUsage(KeyUsageType::Fido)));
    assert_eq!(decode(4, &[2]), Some(KeyCredentialLinkEntry::KeyUsage(KeyUsageType::Other(2))));
    assert_eq!(decode(5, &[3]), Some(KeyCredentialLinkEntry::KeySource(KeySourceType::Other(3))));
    assert_eq!(
        decode(8, &(-1i64).to_le_bytes()),
        Some(KeyCredentialLinkEntry::KeyApproximateLastLogonTimeStamp(Timestamp {
            seconds: -1,
            nanoseconds: 999_999_900,
        }))
    );
    assert_eq!(decode(0, &[1]), Some(KeyCredentialLinkEntry::Other { identifier: 0, data: vec![1] }));
    assert_eq!(decode(4, &[]), None);
    assert_eq!(decode(4, &[1, 2]), None);
    assert_eq!(decode(5, &[]), None);
    assert_eq!(decode(7, &[1]), None);
    assert_eq!(decode(8, &[0; 7]), None);
    assert_eq!(decode(9, &[0; 9]), None);
    let mut long = entry(1, &[1]);
    long.push(0);
    assert_eq!(KeyCredentialLinkEntry::try_from_bytes(&long), None);
    assert_eq!(KeyCredentialLinkEntry::try_from_bytes(&[0, 0]), None);
}

#[test]
fn custom_key_information_of_every_length() {
    let decode = |data: &[u8]| match KeyCredentialLinkEntry::try_from_bytes(&entry(7, data)) {
        Some(KeyCredentialLinkEntry::CustomKeyInformationLong(c)) => c,
        other => panic!("no long custom key information: {:?}", other),
    };
    let c = decode(&[1, 3, 2]);
    assert_eq!((c.version, c.flags, c.volume_type), (1, CkiFlags::from(3), VolumeType::FixedData));
    assert_eq!(c.supports_notification, None);
    assert_eq!(c.fek_key_version, None);
    assert_eq!(c.key_strength, None);
    assert_eq!(c.reserved, Vec::<u8>::new());
    assert_eq!(c.encoded_extended_cki, None);
    let c = decode(&[1, 0, 0, 1, 9]);
    assert_eq!(c.volume_type, VolumeType::Nothing);
    assert_eq!(c.supports_notification, Some(Boolean8::True));
    assert_eq!(c.fek_key_version, Some(9));
    assert_eq!(c.key_strength, None);
    assert_eq!(c.reserved, Vec::<u8>::new());
    let c = decode(&[1, 0, 9, 0, 9, 2]);
    assert_eq!(c.volume_type, VolumeType::Other(9));
    assert_eq!(c.supports_notification, Some(Boolean8::False));
    assert_eq!(c.key_strength, Some(KeyStrength::Normal));
    assert_eq!(c.reserved, Vec::<u8>::new());
    let c = decode(&[1, 0, 1, 0, 9, 1, 0xA, 0xB]);
    assert_eq!(c.key_strength, Some(KeyStrength::Weak));
    assert_eq!(c.reserved, vec![0xA, 0xB]);
    let mut data = vec![1, 0, 3, 2, 9, 0, 1, 2, 3, 4, 5, 6, 7, 8, 9, 10];
    let c = decode(&data);
    assert_eq!(c.volume_type, VolumeType::RemovableData);
    assert_eq!(c.supports_notification, Some(Boolean8::Other(2)));
    assert_eq!(c.key_strength, Some(KeyStrength::Unknown));
    assert_eq!(c.reserved, vec![1, 2, 3, 4, 5, 6, 7, 8, 9, 10]);
    assert_eq!(c.encoded_extended_cki, None);
    data.push(0x11);
    assert_eq!(decode(&data).encoded_extended_cki, None);
    data.push(2);
    // the size of the extension does not match what is left
    assert_eq!(decode(&data).encoded_extended_cki, None);
    data.extend_from_slice(&[0xC0, 0xC1]);
    let c = decode(&data);
    assert_eq!(c.reserved, vec![1, 2, 3, 4, 5, 6, 7, 8, 9, 10]);
    let extended = c.encoded_extended_cki.unwrap();
    assert_eq!(extended.version, 0x11);
    assert_eq!(extended.cbor_data, vec![0xC0, 0xC1]);
}

fn squish(bytes: &[u8]) -> Vec<u16> {
    // the upper digit is the low byte of the unit
    bytes
        .iter()
        .map(|b| {
            let digits = format!("{:02x}", b).into_bytes();
            u16::from(digits[0]) | (u16::from(digits[1]) << 8)
        })
        .collect()
}

fn parameter(kind: u16, name: &str, value: &[u8]) -> Vec<u16> {
    let name: Vec<u16> = name.encode_utf16().collect();
    let value = squish(value);
    let mut out = vec![(2 * name.len()) as u16, (2 * value.len()) as u16, kind];
    out.extend_from_slice(&name);
    out.extend_from_slice(&value);
    out
}

fn parameters(legacy: &str, signature: u16, list: &[Vec<u16>]) -> Vec<u16> {
    let mut out: Vec<u16> = legacy.encode_utf16().collect();
    assert_eq!(out.len(), 48);
    out.push(signature);
    out.push(list.len() as u16);
    for p in list {
        out.extend_from_slice(p);
    }
    out
}

const SPACES: &str = "                                                ";

#[test]
fn user_parameters_decode() {
    let units = parameters(
        SPACES,
        0x50,
        &[
            parameter(1, "CtxCfgPresent", &0xB00B_1E55u32.to_le_bytes()),
            parameter(1, "CtxCfgFlags1", &0x0010_0E00u32.to_le_bytes()),
            parameter(1, "CtxMaxIdleTime", &90u32.to_le_bytes()),
            parameter(1, "CtxShadow", &3u32.to_le_bytes()),
            parameter(1, "CtxMinEncryptionLevel", &[2]),
            parameter(1, "CtxWFHomeDir", b"\\\\server\\home\0"),
            parameter(1, "CtxShadow", &[1, 2, 3]),
            parameter(1, "CtxWFProfilePath", &[0xFF]),
            parameter(1, "Unknown", &[7]),
            parameter(2, "CtxShadow", &3u32.to_le_bytes()),
        ],
    );
    let decoded = UserParameters::try_from_units(&units).unwrap();
    assert_eq!(decoded.legacy_data, None);
    assert_eq!(
        decoded.parameters,
        vec![
            UserParameter::CfgPresent { magic: 0xB00B_1E55 },
            UserParameter::CfgFlags1(CtxCfgFlags1::from(0x0010_0E00)),
            UserParameter::MaxIdleTime { minutes: 90 },
            UserParameter::Shadow(ShadowType::EnableNoInputNotify),
            UserParameter::MinEncryptionLevel(2),
            UserParameter::WfHomeDir("\\\\server\\home\0".to_owned()),
            UserParameter::Other { name: "CtxShadow".to_owned(), value: vec![1, 2, 3] },
            UserParameter::Other { name: "CtxWFProfilePath".to_owned(), value: vec![0xFF] },
            UserParameter::Other { name: "Unknown".to_owned(), value: vec![7] },
            UserParameter::OtherType {
                parameter_type: 2,
                name: "CtxShadow".to_owned(),
                value: vec![3, 0, 0, 0],
            },
        ]
    );
    // the same from the UTF-8 form
    let text = String::from_utf16(&units).unwrap();
    assert_eq!(UserParameters::try_from_bytes(text.as_bytes()), Some(decoded));
    // older data that is more than spaces
    let legacy = "m:\\home                                         ";
    let decoded = UserParameters::try_from_units(&parameters(legacy, 0x50, &[])).unwrap();
    assert_eq!(decoded.legacy_data.as_deref(), Some(legacy));
    assert_eq!(decoded.parameters.len(), 0);
}

#[test]
fn user_parameters_are_rejected_on_any_mismatch() {
    let good = parameters(SPACES, 0x50, &[parameter(1, "CtxShadow", &1u32.to_le_bytes())]);
    assert!(UserParameters::try_from_units(&good).is_some());
    assert_eq!(UserParameters::try_from_units(&[]), None);
    assert_eq!(UserParameters::try_from_units(&good[..49]), None);
    assert_eq!(UserParameters::try_from_bytes(&[0xFF; 60]), None);
    // another signature
    let mut other = good.clone();
    other[48] = 0x51;
    assert_eq!(UserParameters::try_from_units(&other), None);
    // more parameters announced than present, and units after the last one
    let mut more = good.clone();
    more[49] = 2;
    assert_eq!(UserParameters::try_from_units(&more), None);
    let mut long = good.clone();
    long.push(0x20);
    assert_eq!(UserParameters::try_from_units(&long), None);
    assert_eq!(UserParameters::try_from_units(&good[..good.len() - 1]), None);
    // odd lengths
    let mut odd = good.clone();
    odd[50] += 1;
    assert_eq!(UserParameters::try_from_units(&odd), None);
    let mut odd = good.clone();
    odd[51] += 1;
    assert_eq!(UserParameters::try_from_units(&odd), None);
    // a value that is not written in hexadecimal digits
    let mut bad = good.clone();
    let last = bad.len() - 1;
    bad[last] = u16::from(b'g') | (u16::from(b'0') << 8);
    assert_eq!(UserParameters::try_from_units(&bad), None);
    // a name with a lone surrogate
    let mut bad = good.clone();
    bad[53] = 0xD800;
    assert_eq!(UserParameters::try_from_units(&bad), None);
}

#[test]
fn squished_values() {
    assert_eq!(UserParameters::decode_squished_byte_nibble(b'0'), Some(0));
    assert_eq!(UserParameters::decode_squished_byte_nibble(b'9'), Some(9));
    assert_eq!(UserParameters::decode_squished_byte_nibble(b'a'), Some(10));
    assert_eq!(UserParameters::decode_squished_byte_nibble(b'F'), Some(15));
    assert_eq!(UserParameters::decode_squished_byte_nibble(b'g'), None);
    assert_eq!(UserParameters::decode_squished_byte_nibble(b'/'), None);
    assert_eq!(UserParameters::decode_squished_byte_nibble(b':'), None);
    // "1f" as one unit: '1' in the low byte
    assert_eq!(UserParameters::decode_squished_utf16_value(&[0x6631]), Some(vec![0x1F]));
    assert_eq!(UserParameters::decode_squished_utf16_value(&[0x4141, 0x3030]), Some(vec![0xAA, 0x00]));
    assert_eq!(UserParameters::decode_squished_utf16_value(&[]), Some(vec![]));
    assert_eq!(UserParameters::decode_squished_utf16_value(&[0x0031]), None);
}

#[test]
fn parameters_by_name() {
    let decode = |name: &str, value: &[u8]| {
        UserParameter::decode_from_name_and_value(1, name.to_owned(), value.to_vec())
    };
    assert_eq!(decode("CtxCallBack", &[1, 0, 0, 0]), UserParameter::CallBack { class_id: 1 });
    assert_eq!(decode("CtxKeyboardLayout", &[9, 4, 0, 0]), UserParameter::KeyboardLayout { layout_id: 0x409 });
    assert_eq!(decode("CtxNWLogonServer", &[0, 0, 0, 1]), UserParameter::NetwareLogonServer { server_name: 0x0100_0000 });
    assert_eq!(decode("CtxMaxConnectionTime", &[60, 0, 0, 0]), UserParameter::MaxConnectionTime { minutes: 60 });
    assert_eq!(decode("CtxMaxDisconnectionTime", &[0xFF; 4]), UserParameter::MaxDisconnectionTime { minutes: u32::MAX });
    assert_eq!(decode("CtxShadow", &[9, 0, 0, 0]), UserParameter::Shadow(ShadowType::Other(9)));
    assert_eq!(decode("CtxWFHomeDirDrive", b"H:"), UserParameter::WfHomeDirDrive("H:".to_owned()));
    assert_eq!(decode("CtxInitialProgram", b""), UserParameter::InitialProgram(String::new()));
    assert_eq!(decode("CtxWFProfilePath", b"p"), UserParameter::WfProfilePath("p".to_owned()));
    assert_eq!(decode("CtxWorkDirectory", b"w"), UserParameter::WorkDirectory("w".to_owned()));
    assert_eq!(decode("CtxCallbackNumber", b"1"), UserParameter::CallbackNumber("1".to_owned()));
    assert_eq!(
        decode("CtxMinEncryptionLevel", &[1, 2]),
        UserParameter::Other { name: "CtxMinEncryptionLevel".to_owned(), value: vec![1, 2] }
    );
    assert_eq!(decode("ctxshadow", &[1, 0, 0, 0]), UserParameter::Other { name: "ctxshadow".to_owned(), value: vec![1, 0, 0, 0] });
    assert_eq!(ShadowType::Disable.is_enabled(), Some(false));
    assert_eq!(ShadowType::EnableInputNotify.is_enabled(), Some(true));
    assert_eq!(ShadowType::Other(7).is_enabled(), None);
    assert_eq!(ShadowType::Disable.allows_input(), None);
    assert_eq!(ShadowType::EnableInputNoNotify.allows_input(), Some(true));
    assert_eq!(ShadowType::EnableNoInputNotify.allows_input(), Some(false));
    assert_eq!(ShadowType::EnableNoInputNotify.notifies_user(), Some(true));
    assert_eq!(ShadowType::EnableNoInputNoNotify.notifies_user(), Some(false));
    assert_eq!(ShadowType::Other(5).notifies_user(), None);
}

#[test]
fn mail_server_values() {
    // 0x7A_03_02_01: shared, P2P and M2P enabled, delivery point type 10
    assert_eq!(
        TextMessagingState::try_from_str("2047017473"),
        Some(TextMessagingState {
            m2p_priority: 1,
            p2p_priority: 2,
            identity: 3,
            delivery_point_type: 10,
            m2p_enabled: true,
            p2p_enabled: true,
            shared: true,
        })
    );
    assert_eq!(TextMessagingState::try_from_str("0").map(|s| s.shared), Some(false));
    assert_eq!(TextMessagingState::try_from_str("-1"), None);
    assert_eq!(TextMessagingState::try_from_str("2147483648"), None);
    assert_eq!(TextMessagingState::try_from_str("x"), None);
    assert_eq!(TextMessagingState::try_from_str(""), None);

    // the version of the first release of the product of 2010
    let version = ExchangeVersion::try_from_str("44220983382016").unwrap();
    assert_eq!(
        version,
        ExchangeVersion { major: 0, minor: 10, build_major: 14, build_minor: 0, build: 100, build_revision: 0 }
    );
    assert_eq!(version.as_friendly_version(), Some("Exchange2010"));
    let version = ExchangeVersion::try_from_str("4535486012416").unwrap();
    assert_eq!(version.as_friendly_version(), Some("Exchange2007"));
    let all = ExchangeVersion::try_from_str("-1").unwrap();
    assert_eq!(
        all,
        ExchangeVersion { major: 255, minor: 255, build_major: 255, build_minor: 255, build: 65535, build_revision: 1023 }
    );
    assert_eq!(all.as_friendly_version(), None);
    assert_eq!(ExchangeVersion::try_from_str("9223372036854775808"), None);
    assert_eq!(ExchangeVersion::try_from_str("1.5"), None);

    assert_eq!(
        InternetEncoding::try_from_str("1310720"),
        Some(InternetEncoding {
            use_preferred_message_format: false,
            message_format: MessageFormat::Mime,
            body_format: BodyFormat::TextAndHtml,
            mac_attachment_format: MacAttachmentFormat::BinHex,
        })
    );
    // both bits of the body format, and all of the attachment format
    assert_eq!(
        InternetEncoding::try_from_str("7995392"),
        Some(InternetEncoding {
            use_preferred_message_format: true,
            message_format: MessageFormat::Text,
            body_format: BodyFormat::TextAndHtml,
            mac_attachment_format: MacAttachmentFormat::AppleDouble,
        })
    );
    assert_eq!(InternetEncoding::try_from_str("524288").map(|e| e.body_format), Some(BodyFormat::Html));
    assert_eq!(InternetEncoding::try_from_str("0").map(|e| e.body_format), Some(BodyFormat::Text));
    assert_eq!(InternetEncoding::try_from_str("2097152").map(|e| e.mac_attachment_format), Some(MacAttachmentFormat::UuEncode));
    assert_eq!(InternetEncoding::try_from_str("4194304").map(|e| e.mac_attachment_format), Some(MacAttachmentFormat::AppleSingle));
    assert_eq!(InternetEncoding::try_from_str("z"), None);
    assert_eq!(MessageFormat::from_is_mime(true), MessageFormat::Mime);
    assert_eq!(MessageFormat::from_is_mime(false), MessageFormat::Text);

    assert_eq!(
        GroupSecurityFlags::try_from_str("12"),
        Some(GroupSecurityFlags { access_type: GroupAccessType::Secret, activity_status: true })
    );
    assert_eq!(
        GroupSecurityFlags::try_from_str("1"),
        Some(GroupSecurityFlags { access_type: GroupAccessType::Nothing, activity_status: false })
    );
    assert_eq!(GroupSecurityFlags::try_from_str("6").map(|f| f.access_type), Some(GroupAccessType::Public));
    assert_eq!(GroupSecurityFlags::try_from_str("2").map(|f| f.access_type), Some(GroupAccessType::Private));
    assert_eq!(GroupSecurityFlags::try_from_str("4294967296"), None);

    let set = MailboxFolderSet2::try_from_str("-2143288958").unwrap();
    // 0x80400182: bits 1, 7, 8, 22 and 31
    assert!(set.silverlight_enabled);
    assert!(!set.force_save_attachment_filtering_enabled);
    assert_eq!(set.allow_offline_on, AllowOfflineOn::AllComputers);
    assert_eq!(set.web_parts_frame_options, WebPartsFrameOptions::Deny);
    assert!(set.allow_copy_contacts_to_device_address_book);
    assert!(set.on_send_addins_disabled);
    assert!(!set.unknown30);
    let set = MailboxFolderSet2::try_from_str("2097408").unwrap();
    assert_eq!(set.allow_offline_on, AllowOfflineOn::NoComputers);
    assert_eq!(set.web_parts_frame_options, WebPartsFrameOptions::Nothing);
    assert_eq!(MailboxFolderSet2::try_from_str("128").map(|s| s.allow_offline_on), Some(AllowOfflineOn::PrivateComputersOnly));
    assert_eq!(MailboxFolderSet2::try_from_str("3145728").map(|s| s.web_parts_frame_options), Some(WebPartsFrameOptions::SameOrigin));
    assert_eq!(MailboxFolderSet2::try_from_str("1048576").map(|s| s.web_parts_frame_options), Some(WebPartsFrameOptions::AllowFrom));
    assert_eq!(MailboxFolderSet2::try_from_str("0").map(|s| s.allow_offline_on), Some(AllowOfflineOn::Unknown));
    assert_eq!(MailboxFolderSet2::try_from_str("--1"), None);
    assert_eq!(BodyFormat::try_from_repr(3), None);
    assert_eq!(BodyFormat::Html.into_repr(), 1);
}

#[test]
fn schema_records() {
    let mut info = vec![0xFF, 0, 0, 0, 69];
    info.extend_from_slice(&[
        0x70, 0x32, 0xef, 0x5f, 0x34, 0x39, 0xf3, 0x46, 0x8b, 0x63, 0xb5, 0xfc, 0x9c, 0x55, 0xf9,
        0x81,
    ]);
    let decoded = SchemaInfo::try_from_bytes(&info).unwrap();
    assert_eq!(decoded.identifier, 0xFF);
    assert_eq!(decoded.schema_version, 69);
    assert_eq!(decoded.last_updater_invocation_id.to_string(), "5fef3270-3934-46f3-8b63-b5fc9c55f981");
    assert_eq!(SchemaInfo::try_from_bytes(&info[..20]), None);
    let mut long = info.clone();
    long.push(0);
    assert_eq!(SchemaInfo::try_from_bytes(&long), None);
    info[0] = 0xFE;
    assert_eq!(SchemaInfo::try_from_bytes(&info), None);

    let map_bytes = [
        2, 0, 0, 0, 23, 0, 0, 0, // two entries, 23 bytes
        0, 0, 2, 0, 0x55, 0x04, // prefix 0: 2.5.4
        0x13, 0x00, 5, 0, 0x2A, 0x86, 0x48, 0x86, 0xF7, // prefix 19: 1.2.840 and part of an arc
    ];
    let map = PrefixMap::try_from_bytes(&map_bytes).unwrap();
    assert_eq!(map.prefixes.len(), 2);
    assert_eq!(map.prefixes[0].db_prefix, 0);
    assert_eq!(map.prefixes[0].oid_prefix, OidPrefix::from_ber_bytes(&[0x55, 0x04]));
    assert_eq!(map.prefixes[0].oid_prefix.to_string(), "2.5.4.(0..16384)");
    assert_eq!(map.prefixes[1].db_prefix, 19);
    assert_eq!(map.prefixes[1].oid_prefix.fixed_arcs.len(), 3);
    // (6 * 128 + 0x77) * 16384
    assert_eq!(map.prefixes[1].oid_prefix.final_range_start, BigUint::from(887u32 * 16384));
    // the length field, the count and the end must all fit
    let mut wrong = map_bytes;
    wrong[4] = 22;
    assert_eq!(PrefixMap::try_from_bytes(&wrong), None);
    let mut more = map_bytes;
    more[0] = 3;
    assert_eq!(PrefixMap::try_from_bytes(&more), None);
    let mut fewer = map_bytes;
    fewer[0] = 1;
    assert_eq!(PrefixMap::try_from_bytes(&fewer), None);
    let mut far = map_bytes;
    far[16] = 6;
    assert_eq!(PrefixMap::try_from_bytes(&far), None);
    assert_eq!(PrefixMap::try_from_bytes(&map_bytes[..7]), None);
    assert_eq!(PrefixMap::try_from_bytes(&[0, 0, 0, 0, 8, 0, 0, 0]).unwrap().prefixes.len(), 0);
}

#[test]
fn dfsr_schedule_scenario() {
    let mut schedule = [0u8; 336];
    schedule[0] = 0xFF;
    schedule[47] = 0x0A;
    schedule[48] = 0x1B;
    schedule[335] = 0xC3;
    let lines = dfsr_schedule_lines(&schedule).unwrap();
    assert_eq!(lines.len(), 9);
    let mut head = String::from("  |");
    for hour in 0..24 {
        head.push_str(&format!("\u{250C}{:2}\u{2510}", hour));
    }
    assert_eq!(lines[0], head);
    assert!(lines[0].starts_with("  |\u{250C} 0\u{2510}\u{250C} 1\u{2510}"));
    assert!(lines[0].ends_with("\u{250C}23\u{2510}"));
    assert_eq!(lines[1], format!("  |{}", "\u{2582}\u{2584}\u{2586}\u{2588}".repeat(24)));
    assert_eq!(lines[2], format!("Su|FF{}0A", "00".repeat(46)));
    assert_eq!(lines[3], format!("Mo|1B{}", "00".repeat(47)));
    assert_eq!(lines[4], format!("Tu|{}", "00".repeat(48)));
    assert!(lines[5].starts_with("We|"));
    assert!(lines[6].starts_with("Th|"));
    assert!(lines[7].starts_with("Fr|"));
    assert_eq!(lines[8], format!("Sa|{}C3", "00".repeat(47)));
    assert_eq!(dfsr_schedule_to_string(&schedule).unwrap(), lines.join("\n"));
    // any other length is rejected
    assert_eq!(dfsr_schedule_to_string(&schedule[..335]), None);
    assert_eq!(dfsr_schedule_to_string(&[0; 337]), None);
    assert_eq!(dfsr_schedule_to_string(&[]), None);
    assert_eq!(dfsr_schedule_lines(&[0; 84]), None);
}
