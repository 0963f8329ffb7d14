use ad_values::bits::{bit_is_set, extract_bits, extract_bits_u16, extract_bits_u8};
use ad_values::text::{
    bytes_eq, parse_i32, parse_i64, parse_u32, parse_u64, signed_string, str_eq, unsigned_string,
};
use ad_values::time::{
    ad_time_to_ticks_relative_to_1601, negative_interval_to_duration, ticks_since_1601,
    utc_seconds_relative_to_1601, utc_ticks_relative_to_1601, Interval, Timestamp,
};
use ad_values::values::bitmasks::exchange::RecipientTypeDetails;
use ad_values::values::bitmasks::{describe_flags, FlagName, GroupType, UserAccountControl};
use ad_values::values::enums::{
    AttributeSyntax, FunctionalityLevel, ObjectClassCategory, OmObjectClass, OmSyntax, Rid,
    SamAccountType, TrustType,
};
use ad_values::values::forms::{
    binary_form_of, string_form_of, BinaryForm, FlagFamily, NamedNumber, StringForm,
};
use ad_values::values::structs::exchange::ExchangeVersion;
use ad_values::values::{
    is_safe_ldap_string, nul_terminated_utf16le_string, nul_terminated_utf16le_string_at_offset,
    output_binary_value_as_hexdump, output_negative_interval_value, output_special_binary_value,
    output_special_string_value, output_string_value_as_string, output_timestamp_value,
    output_utf16_string_with_bom, output_values, LdapValue, Output, Structure,
};

fn line(text: &str) -> Output {
    Output::Line(text.to_owned())
}

fn lines(texts: &[&str]) -> Output {
    Output::Lines(texts.iter().map(|t| (*t).to_owned()).collect())
}

fn text_value(text: &str) -> LdapValue {
    LdapValue::String(text.to_owned())
}

#[test]
fn bits_of_numbers() {
    assert!(bit_is_set(0x8000_0000_0000_0000, 63));
    assert!(!bit_is_set(0x7FFF_FFFF_FFFF_FFFF, 63));
    assert!(bit_is_set(1, 0));
    assert!(!bit_is_set(0x202, 0));
    assert!(bit_is_set(0x202, 9));
    assert_eq!(extract_bits(0xABCD_1234, 8, 16), 0xCD12);
    assert_eq!(extract_bits(0xABCD_1234, 0, 0), 0);
    assert_eq!(extract_bits(u64::MAX, 1, 63), u64::MAX >> 1);
    assert_eq!(extract_bits(u64::MAX, 63, 5), 1);
    assert_eq!(extract_bits_u8(0xABCD, 4, 8), 0xBC);
    assert_eq!(extract_bits_u8(0xFF, 0, 7), 0x7F);
    assert_eq!(extract_bits_u16(0xABCD_1234, 12, 12), 0xCD1);
    assert_eq!(extract_bits_u16(0xABCD_1234, 12, 16), 0xBCD1);
}

#[test]
fn numbers_are_read_as_the_language_reads_them() {
    for text in ["0", "7", "+7", "007", "18446744073709551615", "00018446744073709551615"] {
        assert_eq!(parse_u64(text.as_bytes()), text.parse::<u64>().ok(), "{:?}", text);
    }
    for text in ["", "+", "-", "-0", "-1", " 1", "1 ", "1_0", "0x10", "18446744073709551616", "99999999999999999999999", "++1", "1+"] {
        assert_eq!(parse_u64(text.as_bytes()), None, "{:?}", text);
        assert_eq!(text.parse::<u64>().ok(), None, "{:?}", text);
    }
    for text in ["0", "-0", "+0", "-1", "+1", "9223372036854775807", "-9223372036854775808", "-0009"] {
        assert_eq!(parse_i64(text.as_bytes()), text.parse::<i64>().ok(), "{:?}", text);
    }
    for text in ["", "+", "-", "--1", "+-1", "9223372036854775808", "-9223372036854775809", "1e3", "٣"] {
        assert_eq!(parse_i64(text.as_bytes()), None, "{:?}", text);
        assert_eq!(text.parse::<i64>().ok(), None, "{:?}", text);
    }
    assert_eq!(parse_i32(b"-2147483648"), Some(i32::MIN));
    assert_eq!(parse_i32(b"2147483647"), Some(i32::MAX));
    assert_eq!(parse_i32(b"2147483648"), None);
    assert_eq!(parse_i32(b"-2147483649"), None);
    assert_eq!(parse_u32(b"4294967295"), Some(u32::MAX));
    assert_eq!(parse_u32(b"4294967296"), None);
    assert_eq!(parse_u32(b"-1"), None);
    assert_eq!(signed_string(i64::MIN), "-9223372036854775808");
    assert_eq!(signed_string(-7), "-7");
    assert_eq!(signed_string(0), "0");
    assert_eq!(unsigned_string(u64::MAX), "18446744073709551615");
    assert_eq!(unsigned_string(10), "10");
    assert!(str_eq("", ""));
    assert!(str_eq("añ", "añ"));
    assert!(!str_eq("a", "A"));
    assert!(!str_eq("a", "ab"));
    assert!(bytes_eq(&[1, 2], &[1, 2]));
    assert!(!bytes_eq(&[1, 2], &[1, 3]));
}

#[test]
fn time_since_1601() {
    assert_eq!(utc_ticks_relative_to_1601(0), Timestamp { seconds: 0, nanoseconds: 0 });
    assert_eq!(utc_ticks_relative_to_1601(0).timestamp(), Some(-11_644_473_600));
    assert_eq!(
        utc_ticks_relative_to_1601(116_444_736_000_000_000),
        Timestamp { seconds: 11_644_473_600, nanoseconds: 0 }
    );
    assert_eq!(utc_ticks_relative_to_1601(116_444_736_000_000_000).timestamp(), Some(0));
    assert_eq!(utc_ticks_relative_to_1601(10_000_001), Timestamp { seconds: 1, nanoseconds: 100 });
    // before the start of 1601 the seconds are rounded down
    assert_eq!(utc_ticks_relative_to_1601(-1), Timestamp { seconds: -1, nanoseconds: 999_999_900 });
    assert_eq!(utc_ticks_relative_to_1601(-10_000_000), Timestamp { seconds: -1, nanoseconds: 0 });
    assert_eq!(utc_ticks_relative_to_1601(-10_000_001), Timestamp { seconds: -2, nanoseconds: 999_999_900 });
    assert_eq!(
        utc_ticks_relative_to_1601(i64::MAX),
        Timestamp { seconds: 922_337_203_685, nanoseconds: 477_580_700 }
    );
    assert_eq!(
        utc_ticks_relative_to_1601(i64::MIN),
        Timestamp { seconds: -922_337_203_686, nanoseconds: 522_419_200 }
    );
    assert_eq!(utc_seconds_relative_to_1601(-5), Timestamp { seconds: -5, nanoseconds: 0 });
    assert_eq!(utc_seconds_relative_to_1601(i64::MIN).timestamp(), None);
    assert_eq!(utc_seconds_relative_to_1601(i64::MIN + 11_644_473_600).timestamp(), Some(i64::MIN));
    assert_eq!(utc_seconds_relative_to_1601(i64::MAX).timestamp(), Some(i64::MAX - 11_644_473_600));
}

#[test]
fn negative_intervals() {
    assert_eq!(negative_interval_to_duration(i64::MIN), None);
    assert_eq!(negative_interval_to_duration(0), Some(Interval { days: 0, hours: 0, minutes: 0, seconds: 0 }));
    // 42 days
    assert_eq!(
        negative_interval_to_duration(-36_288_000_000_000),
        Some(Interval { days: 42, hours: 0, minutes: 0, seconds: 0 })
    );
    // 1 day, 2 hours, 3 minutes and 4.9999999 seconds
    assert_eq!(
        negative_interval_to_duration(-(93_784 * 10_000_000 + 9_999_999)),
        Some(Interval { days: 1, hours: 2, minutes: 3, seconds: 4 })
    );
    assert_eq!(
        negative_interval_to_duration(-i64::MAX),
        Some(Interval { days: 10_675_199, hours: 2, minutes: 48, seconds: 5 })
    );
    // a count above zero is an interval below zero
    assert_eq!(
        negative_interval_to_duration(93_784 * 10_000_000 + 9_999_999),
        Some(Interval { days: -1, hours: -2, minutes: -3, seconds: -4 })
    );
    assert_eq!(
        negative_interval_to_duration(9_999_999),
        Some(Interval { days: 0, hours: 0, minutes: 0, seconds: 0 })
    );
}

#[test]
fn negative_interval_scenario() {
    assert_eq!(output_negative_interval_value("-9223372036854775808"), line("-9223372036854775808 (never)"));
    assert_eq!(output_negative_interval_value("-36288000000000"), line("-36288000000000 (42d 0h 0min 0s)"));
    assert_eq!(output_negative_interval_value("-937849999999"), line("-937849999999 (1d 2h 3min 4s)"));
    assert_eq!(output_negative_interval_value("-18000000000"), line("-18000000000 (0d 0h 30min 0s)"));
    assert_eq!(output_negative_interval_value("0"), line("0 (0d 0h 0min 0s)"));
    assert_eq!(output_negative_interval_value("600000000"), line("600000000 (0d 0h -1min 0s)"));
    // what is no number is shown as a text
    assert_eq!(output_negative_interval_value("never"), line("never"));
    assert_eq!(output_negative_interval_value(" 1"), Output::Encoded("IDE=".to_owned()));
}

#[test]
fn timestamps_are_shown_with_their_time() {
    assert_eq!(
        output_timestamp_value("125911583990000000"),
        Output::Time {
            text: "125911583990000000".to_owned(),
            time: Timestamp { seconds: 12_591_158_399, nanoseconds: 0 },
        }
    );
    assert_eq!(
        output_timestamp_value("+9223372036854775807"),
        Output::Time {
            text: "+9223372036854775807".to_owned(),
            time: Timestamp { seconds: 922_337_203_685, nanoseconds: 477_580_700 },
        }
    );
    assert_eq!(output_timestamp_value("9223372036854775808"), line("9223372036854775808"));
    assert_eq!(output_timestamp_value(""), line(""));
}

#[test]
fn safe_strings() {
    for text in ["", "a", "a b", "a:b", "a<b", "ä", "a\tb", "\u{7f}", "x ", "é:"] {
        assert!(is_safe_ldap_string(text), "{:?}", text);
        assert_eq!(output_string_value_as_string(text), line(text));
    }
    for text in ["\0", "\n", "\r", " ", ":", "<", " a", ":a", "<a", "\0a", "a\0", "a\nb", "a\r", "ab\0c", "\n\n"] {
        assert!(!is_safe_ldap_string(text), "{:?}", text);
    }
    assert_eq!(output_string_value_as_string(" x"), Output::Encoded("IHg=".to_owned()));
    assert_eq!(output_string_value_as_string("a\nbc"), Output::Encoded("YQpiYw==".to_owned()));
    assert_eq!(output_string_value_as_string(":\u{fc}"), Output::Encoded("OsO8".to_owned()));
}

#[test]
fn hexdump_rows() {
    assert_eq!(output_binary_value_as_hexdump(&[]), lines(&[]));
    assert_eq!(output_binary_value_as_hexdump(&[0xAB]), lines(&["00000000 AB"]));
    let bytes: Vec<u8> = (0u8..=0x21).collect();
    assert_eq!(
        output_binary_value_as_hexdump(&bytes),
        lines(&[
            "00000000 00 01 02 03 04 05 06 07  08 09 0A 0B 0C 0D 0E 0F",
            "00000010 10 11 12 13 14 15 16 17  18 19 1A 1B 1C 1D 1E 1F",
            "00000020 20 21",
        ])
    );
    assert_eq!(
        output_binary_value_as_hexdump(&bytes[..9]),
        lines(&["00000000 00 01 02 03 04 05 06 07  08"])
    );
    assert_eq!(
        output_binary_value_as_hexdump(&bytes[..16]),
        lines(&["00000000 00 01 02 03 04 05 06 07  08 09 0A 0B 0C 0D 0E 0F"])
    );
    match output_binary_value_as_hexdump(&vec![0xFF; 0x1234]) {
        Output::Lines(rows) => {
            assert_eq!(rows.len(), 0x124);
            assert_eq!(rows[0x123], "00001230 FF FF FF FF");
            assert_eq!(rows[0xAB], "00000AB0 FF FF FF FF FF FF FF FF  FF FF FF FF FF FF FF FF");
        },
        _ => panic!("no rows"),
    }
}

#[test]
fn texts_that_end_in_a_zero_word() {
    assert_eq!(nul_terminated_utf16le_string(&[]), Some(String::new()));
    assert_eq!(nul_terminated_utf16le_string(&[0, 0]), Some(String::new()));
    assert_eq!(nul_terminated_utf16le_string(&[b'h', 0, b'i', 0]), Some("hi".to_owned()));
    assert_eq!(nul_terminated_utf16le_string(&[b'h', 0, 0, 0, b'i', 0]), Some("h".to_owned()));
    assert_eq!(nul_terminated_utf16le_string(&[0x3D, 0xD8, 0x00, 0xDE, 0, 0]), Some("\u{1F600}".to_owned()));
    // a byte is left over after the zero word: it is never looked at
    assert_eq!(nul_terminated_utf16le_string(&[b'h', 0, 0, 0, 9]), Some("h".to_owned()));
    // half a code unit before any zero word
    assert_eq!(nul_terminated_utf16le_string(&[b'h', 0, b'i']), None);
    assert_eq!(nul_terminated_utf16le_string(&[9]), None);
    // a lone surrogate
    assert_eq!(nul_terminated_utf16le_string(&[0x3D, 0xD8, b'a', 0]), None);
    // a zero byte in the middle of two words ends nothing
    assert_eq!(nul_terminated_utf16le_string(&[0x00, 0x01, 0x01, 0x00]), Some("\u{100}\u{1}".to_owned()));
    let bytes = [1, 2, 3, 4, b'o', 0, b'k', 0];
    assert_eq!(nul_terminated_utf16le_string_at_offset(&bytes, 4, true), Some("ok".to_owned()));
    assert_eq!(nul_terminated_utf16le_string_at_offset(&bytes, 0, true), None);
    assert_eq!(nul_terminated_utf16le_string_at_offset(&bytes, 0, false), Some("\u{201}\u{403}ok".to_owned()));
    assert_eq!(nul_terminated_utf16le_string_at_offset(&bytes, 8, true), Some(String::new()));
    assert_eq!(nul_terminated_utf16le_string_at_offset(&bytes, 9, true), None);
    assert_eq!(nul_terminated_utf16le_string_at_offset(&bytes, 7, false), None);
}

#[test]
fn utf16_text_with_a_byte_order_mark() {
    let units = |text: &str, big: bool| {
        let mut out = if big { vec![0xFE, 0xFF] } else { vec![0xFF, 0xFE] };
        for unit in text.encode_utf16() {
            out.extend_from_slice(&if big { unit.to_be_bytes() } else { unit.to_le_bytes() });
        }
        out
    };
    assert_eq!(output_utf16_string_with_bom(&units("one\r\ntwo\rthree\nfour", false)), lines(&["one", "two", "three", "four"]));
    assert_eq!(output_utf16_string_with_bom(&units("one\r\ntwo\rthree\nfour", true)), lines(&["one", "two", "three", "four"]));
    assert_eq!(output_utf16_string_with_bom(&units("", false)), lines(&[""]));
    assert_eq!(output_utf16_string_with_bom(&units("a\n", false)), lines(&["a", ""]));
    assert_eq!(output_utf16_string_with_bom(&units("\n\r\r\n\u{1F600}", true)), lines(&["", "", "", "\u{1F600}"]));
    assert_eq!(output_utf16_string_with_bom(&units("\r", false)), lines(&["", ""]));
    // no mark, half a unit, a lone surrogate: a dump
    assert_eq!(output_utf16_string_with_bom(&[b'a', 0]), lines(&["00000000 61 00"]));
    assert_eq!(output_utf16_string_with_bom(&[]), lines(&[]));
    assert_eq!(output_utf16_string_with_bom(&[0xFF]), lines(&["00000000 FF"]));
    assert_eq!(output_utf16_string_with_bom(&[0xFF, 0xFE, b'a']), lines(&["00000000 FF FE 61"]));
    assert_eq!(output_utf16_string_with_bom(&[0xFF, 0xFE, 0x00, 0xD8]), lines(&["00000000 FF FE 00 D8"]));
}

#[test]
fn flag_sets_have_a_text() {
    assert_eq!(UserAccountControl::from_bits_retain(0).to_debug_string(), "UserAccountControl(0x0)");
    assert_eq!(
        UserAccountControl::from_bits_retain(514).to_debug_string(),
        "UserAccountControl(ACCOUNTDISABLE | NORMAL_ACCOUNT)"
    );
    assert_eq!(
        UserAccountControl::from_bits_retain(0x8000_0204).to_debug_string(),
        "UserAccountControl(NORMAL_ACCOUNT | 0x80000004)"
    );
    assert_eq!(UserAccountControl::from_bits_retain(0x400).to_debug_string(), "UserAccountControl(0x400)");
    assert!(UserAccountControl::from_bits_retain(514).contains(UserAccountControl::NORMAL_ACCOUNT));
    assert!(UserAccountControl::from_bits_retain(514).contains(UserAccountControl::ACCOUNTDISABLE));
    assert!(!UserAccountControl::from_bits_retain(514).contains(UserAccountControl::SCRIPT));
    assert_eq!(
        GroupType::from_bits_retain(0x8000_0002).to_debug_string(),
        "GroupType(ACCOUNT_GROUP | SECURITY_ENABLED)"
    );
    assert_eq!(
        RecipientTypeDetails::from_bits_retain(0x0001_0000_0000_0001).to_debug_string(),
        "RecipientTypeDetails(USER_MAILBOX | EXCHANGE_SECURITY_GROUP)"
    );
    assert_eq!(RecipientTypeDetails::from_bits_retain(0x8000_0000_0000_0000).to_debug_string(), "RecipientTypeDetails(0x8000000000000000)");
    // flags of more than one bit, flags that others cover, flags without a name or without a bit
    let table = [
        FlagName { bits: 0b0001, name: "A" },
        FlagName { bits: 0b0101, name: "AC" },
        FlagName { bits: 0b0100, name: "C" },
        FlagName { bits: 0b1000, name: "" },
        FlagName { bits: 0, name: "ZERO" },
        FlagName { bits: 0b11_0000, name: "EF" },
    ];
    assert_eq!(describe_flags(&table, 0), "0x0");
    assert_eq!(describe_flags(&table, 0b0001), "A");
    assert_eq!(describe_flags(&table, 0b0101), "A | AC");
    assert_eq!(describe_flags(&table, 0b0100), "C");
    assert_eq!(describe_flags(&table, 0b1000), "0x8");
    assert_eq!(describe_flags(&table, 0b1_0000), "0x10");
    assert_eq!(describe_flags(&table, 0b11_1101), "A | AC | EF | 0x8");
    assert_eq!(describe_flags(&[], 0xABC), "0xabc");
}

#[test]
fn named_numbers_have_a_text() {
    assert_eq!(Rid::from_base_type(0x200).to_debug_string(), "GroupRidAdmins");
    assert_eq!(Rid::from_base_type(513), Rid::GroupRidUsers);
    assert_eq!(Rid::from_base_type(7).to_debug_string(), "Other(7)");
    assert_eq!(Rid::AliasRidAdmins.to_base_type(), 544);
    assert_eq!(SamAccountType::try_from_repr(0x3000_0000), Some(SamAccountType::UserObject));
    assert_eq!(SamAccountType::try_from_repr(5), None);
    assert_eq!(SamAccountType::MachineAccount.to_debug_string(), "MachineAccount");
    assert_eq!(FunctionalityLevel::try_from_repr(7).map(|l| l.to_debug_string()), Some("Win2016".to_owned()));
    assert_eq!(FunctionalityLevel::try_from_repr(8), None);
    assert_eq!(TrustType::from_base_type(2), TrustType::Uplevel);
    assert_eq!(OmSyntax::from_base_type(127).to_debug_string(), "Object");
    assert_eq!(OmSyntax::from_base_type(9).to_debug_string(), "Other(9)");
    assert_eq!(ObjectClassCategory::from_base_type(1).to_debug_string(), "Structural");
    assert_eq!(ObjectClassCategory::from_base_type(0).to_debug_string(), "Other(0)");
    assert_eq!(NamedNumber::TrustType.to_debug_string(5), Some("AzureActiveDirectory".to_owned()));
    assert_eq!(NamedNumber::FunctionalityLevel.to_debug_string(9), None);
    assert_eq!(FlagFamily::TrustDirection.to_debug_string(3), "TrustDirection(Inbound | Outbound)");
}

#[test]
fn syntaxes_and_classes() {
    assert_eq!(AttributeSyntax::try_from_str("2.5.5.12"), Some(AttributeSyntax::StringUnicode));
    assert_eq!(AttributeSyntax::try_from_str("2.5.5.1"), Some(AttributeSyntax::DistinguishedName));
    assert_eq!(AttributeSyntax::try_from_str("2.5.5.17"), Some(AttributeSyntax::Sid));
    assert_eq!(AttributeSyntax::try_from_str("2.5.5.18"), Some(AttributeSyntax::Other("2.5.5.18".to_owned())));
    assert_eq!(AttributeSyntax::try_from_str(""), Some(AttributeSyntax::Other(String::new())));
    assert_eq!(AttributeSyntax::LargeInteger.as_str(), "2.5.5.16");
    assert_eq!(AttributeSyntax::Other("x".to_owned()).as_str(), "x");
    assert_eq!(AttributeSyntax::OctetString.to_debug_string(), "OctetString");
    assert_eq!(AttributeSyntax::Other("1.\"2\"\n".to_owned()).to_debug_string(), "Other(\"1.\\\"2\\\"\\n\")");
    let or_name = [0x56, 0x06, 0x01, 0x02, 0x05, 0x0B, 0x1D];
    let access_point = [0x2B, 0x0C, 0x02, 0x87, 0x73, 0x1C, 0x00, 0x85, 0x3E];
    assert_eq!(OmObjectClass::try_from_bytes(&or_name), Some(OmObjectClass::OrName));
    assert_eq!(OmObjectClass::try_from_bytes(&access_point), Some(OmObjectClass::AccessPoint));
    assert_eq!(OmObjectClass::try_from_bytes(&or_name[..6]), Some(OmObjectClass::Other(or_name[..6].to_vec())));
    assert_eq!(OmObjectClass::OrName.as_bytes(), or_name);
    assert_eq!(OmObjectClass::AccessPoint.as_bytes(), access_point);
    assert_eq!(OmObjectClass::Other(vec![1]).as_bytes(), vec![1]);
    assert_eq!(OmObjectClass::Other(vec![86, 6, 255]).to_debug_string(), "Other([86, 6, 255])");
    assert_eq!(OmObjectClass::Other(vec![]).to_debug_string(), "Other([])");
    assert_eq!(OmObjectClass::AccessPoint.to_debug_string(), "AccessPoint");
}

#[test]
fn forms_are_found_by_name_and_class() {
    assert_eq!(string_form_of("userAccountControl", &[]), Some(StringForm::Flags(FlagFamily::UserAccountControl)));
    assert_eq!(string_form_of("useraccountcontrol", &[]), None);
    assert_eq!(string_form_of("pwdLastSet", &[]), Some(StringForm::Time));
    assert_eq!(string_form_of("forceLogoff", &[]), Some(StringForm::Interval));
    assert_eq!(string_form_of("supportedControl", &[]), Some(StringForm::Oid));
    assert_eq!(string_form_of("cn", &[]), None);
    assert_eq!(string_form_of("objectSid", &[]), None);
    assert_eq!(string_form_of("systemFlags", &[]), Some(StringForm::Flags(FlagFamily::GenericSystemFlags)));
    let classes = [text_value("top"), text_value("attributeSchema"), LdapValue::Binary(b"crossRef".to_vec())];
    assert_eq!(string_form_of("systemFlags", &classes), Some(StringForm::Flags(FlagFamily::AttributeSchemaSystemFlags)));
    let classes = [text_value("attributeSchema"), text_value("classSchema"), text_value("crossRef")];
    assert_eq!(string_form_of("systemFlags", &classes), Some(StringForm::Flags(FlagFamily::CrossRefSystemFlags)));
    assert_eq!(string_form_of("options", &[]), None);
    assert_eq!(string_form_of("options", &[text_value("siteLink")]), Some(StringForm::Flags(FlagFamily::SiteConnectionOptions)));
    assert_eq!(string_form_of("options", &[text_value("siteLink"), text_value("nTDSDSA")]), Some(StringForm::Flags(FlagFamily::DsaSettingsOptions)));
    assert_eq!(string_form_of("options", &[text_value("ntDSSiteSettings")]), Some(StringForm::Flags(FlagFamily::SiteSettingsOptions)));
    assert_eq!(binary_form_of("objectGUID"), Some(BinaryForm::Guid));
    assert_eq!(binary_form_of("tokenGroups"), Some(BinaryForm::Sid));
    assert_eq!(binary_form_of("nTSecurityDescriptor"), Some(BinaryForm::SecurityDescriptor));
    assert_eq!(binary_form_of("userParameters"), Some(BinaryForm::UserParameters));
    assert_eq!(binary_form_of("userAccountControl"), None);
    assert!(text_value("a").is_string("a"));
    assert!(!text_value("a").is_string("b"));
    assert!(!LdapValue::Binary(b"a".to_vec()).is_string("a"));
}

#[test]
fn user_account_control_scenario() {
    assert_eq!(
        output_special_string_value("userAccountControl", "514", &[]),
        Some(line("514 (UserAccountControl(ACCOUNTDISABLE | NORMAL_ACCOUNT))"))
    );
    assert_eq!(
        output_special_string_value("msExchUserAccountControl", "+0512", &[]),
        Some(line("512 (UserAccountControl(NORMAL_ACCOUNT))"))
    );
    assert_eq!(output_special_string_value("userAccountControl", "0", &[]), Some(line("0")));
    assert_eq!(output_special_string_value("userAccountControl", "-1", &[]), Some(line("-1")));
    assert_eq!(output_special_string_value("userAccountControl", "4294967296", &[]), Some(line("4294967296")));
    assert_eq!(
        output_special_string_value("userAccountControl", " 514", &[]),
        Some(Output::Encoded("IDUxNA==".to_owned()))
    );
}

#[test]
fn special_text_values() {
    assert_eq!(
        output_special_string_value("groupType", "-2147483646", &[]),
        Some(line("-2147483646 (GroupType(ACCOUNT_GROUP | SECURITY_ENABLED))"))
    );
    assert_eq!(output_special_string_value("groupType", "2147483648", &[]), Some(line("2147483648")));
    assert_eq!(
        output_special_string_value("msExchRecipientTypeDetails", "-9223372036854775807", &[]),
        Some(line("-9223372036854775807 (RecipientTypeDetails(USER_MAILBOX | 0x8000000000000000))"))
    );
    assert_eq!(
        output_special_string_value("systemFlags", "-1946157056", &[text_value("classSchema")]),
        Some(line("-1946157056 (ClassSchemaSystemFlags(DomainDisallowMove | DomainDisallowRename | DisallowDelete))"))
    );
    assert_eq!(
        output_special_string_value("systemFlags", "-2130706416", &[text_value("classSchema")]),
        Some(line("-2130706416 (ClassSchemaSystemFlags(SchemaBaseObject | DisallowDelete | 0x1000000))"))
    );
    assert_eq!(
        output_special_string_value("options", "1", &[text_value("nTDSDSA")]),
        Some(line("1 (DsaSettingsOptions(IsGc))"))
    );
    assert_eq!(output_special_string_value("options", "1", &[text_value("user")]), None);
    assert_eq!(
        output_special_string_value("sAMAccountType", "805306368", &[]),
        Some(line("805306368 (UserObject)"))
    );
    assert_eq!(output_special_string_value("sAMAccountType", "5", &[]), Some(line("5")));
    assert_eq!(output_special_string_value("sAMAccountType", "0", &[]), Some(line("0")));
    assert_eq!(output_special_string_value("primaryGroupID", "513", &[]), Some(line("513 (GroupRidUsers)")));
    assert_eq!(output_special_string_value("primaryGroupID", "1105", &[]), Some(line("1105 (Other(1105))")));
    assert_eq!(output_special_string_value("domainFunctionality", "7", &[]), Some(line("7 (Win2016)")));
    assert_eq!(output_special_string_value("domainFunctionality", "10", &[]), Some(line("10")));
    assert_eq!(
        output_special_string_value("attributeSyntax", "2.5.5.9", &[]),
        Some(line("2.5.5.9 (Integer)"))
    );
    assert_eq!(
        output_special_string_value("attributeSyntax", "9", &[]),
        Some(line("9 (Other(\"9\"))"))
    );
    assert_eq!(
        output_special_string_value("msExchVersion", "44220983382016", &[]),
        Some(Output::Structure(Structure::ExchangeVersion(ExchangeVersion {
            major: 0,
            minor: 10,
            build_major: 14,
            build_minor: 0,
            build: 100,
            build_revision: 0,
        })))
    );
    assert_eq!(output_special_string_value("msExchVersion", "new", &[]), Some(line("new")));
    assert_eq!(output_special_string_value("msExchTextMessagingState", "-5", &[]), Some(line("-5")));
    assert!(matches!(
        output_special_string_value("msDS-KeyCredentialLink", "B:8:00020000:cn=x", &[]),
        Some(Output::Structure(Structure::KeyCredentialLinkBlob(_)))
    ));
    assert_eq!(
        output_special_string_value("msDS-KeyCredentialLink", "B:8:00020000", &[]),
        Some(line("B:8:00020000"))
    );
    assert_eq!(output_special_string_value("supportedControl", "1.2.840.113556.1.4.319", &[]), Some(line("1.2.840.113556.1.4.319")));
    assert_eq!(
        output_special_string_value("maxPwdAge", "-36288000000000", &[]),
        Some(line("-36288000000000 (42d 0h 0min 0s)"))
    );
    assert!(matches!(output_special_string_value("lastLogon", "0", &[]), Some(Output::Time { .. })));
    assert_eq!(output_special_string_value("description", "514", &[]), None);
}

#[test]
fn special_binary_values() {
    let guid = [
        0x70, 0x32, 0xef, 0x5f, 0x34, 0x39, 0xf3, 0x46, 0x8b, 0x63, 0xb5, 0xfc, 0x9c, 0x55, 0xf9,
        0x81,
    ];
    assert_eq!(
        output_special_binary_value("objectGUID", &guid),
        Some(line("5fef3270-3934-46f3-8b63-b5fc9c55f981"))
    );
    assert_eq!(output_special_binary_value("objectGUID", &[1, 2]), Some(lines(&["00000000 01 02"])));
    let sid = [1, 2, 0, 0, 0, 0, 0, 5, 32, 0, 0, 0, 32, 2, 0, 0];
    assert_eq!(output_special_binary_value("objectSid", &sid), Some(line("S-1-5-32-544")));
    assert_eq!(
        output_special_binary_value("sidHistory", &sid[..15]),
        Some(lines(&["00000000 01 02 00 00 00 00 00 05  20 00 00 00 20 02 00"]))
    );
    assert!(matches!(
        output_special_binary_value("schemaInfo", &[0xFF; 21]),
        Some(Output::Structure(Structure::SchemaInfo(_)))
    ));
    assert_eq!(output_special_binary_value("schemaInfo", &[0xFF]), Some(lines(&["00000000 FF"])));
    assert_eq!(output_special_binary_value("oMObjectClass", &[1, 2]), Some(line("Other([1, 2])")));
    assert_eq!(
        output_special_binary_value("oMObjectClass", &[0x56, 0x06, 0x01, 0x02, 0x05, 0x0B, 0x1D]),
        Some(line("OrName"))
    );
    match output_special_binary_value("msDFSR-Schedule", &[0x11; 336]) {
        Some(Output::Lines(rows)) => {
            assert_eq!(rows.len(), 9);
            assert_eq!(rows[8], format!("Sa|{}", "11".repeat(48)));
        },
        _ => panic!("no schedule"),
    }
    match output_special_binary_value("msDFSR-Schedule", &[0x11; 335]) {
        Some(Output::Lines(rows)) => {
            assert_eq!(rows.len(), 21);
            assert_eq!(rows[20], "00000140 11 11 11 11 11 11 11 11  11 11 11 11 11 11 11");
        },
        _ => panic!("no dump"),
    }
    assert_eq!(
        output_special_binary_value("msDFS-TargetListv2", &[0xFF, 0xFE, b'x', 0, b'\n', 0, b'y', 0]),
        Some(lines(&["x", "y"]))
    );
    // a descriptor: owner SY, no lists
    let mut sd = vec![1, 0, 0, 0x80, 20, 0, 0, 0];
    sd.extend_from_slice(&[0; 12]);
    sd.extend_from_slice(&[1, 1, 0, 0, 0, 0, 0, 5, 18, 0, 0, 0]);
    assert_eq!(output_special_binary_value("nTSecurityDescriptor", &sd), Some(line("O:SY")));
    // the same with a flag that the language cannot express: a dump
    sd[2] = 1;
    assert_eq!(
        output_special_binary_value("nTSecurityDescriptor", &sd),
        Some(lines(&[
            "00000000 01 00 01 80 14 00 00 00  00 00 00 00 00 00 00 00",
            "00000010 00 00 00 00 01 01 00 00  00 00 00 05 12 00 00 00",
        ]))
    );
    assert_eq!(output_special_binary_value("nTSecurityDescriptor", &[]), Some(lines(&[])));
    assert_eq!(output_special_binary_value("jpegPhoto", &[1]), None);
}

#[test]
fn values_fall_back_in_order() {
    let sid = vec![1, 1, 0, 0, 0, 0, 0, 5, 18, 0, 0, 0];
    let values = [
        LdapValue::Binary(sid.clone()),
        LdapValue::Binary(vec![1]),
        text_value("S-1-5-18"),
        text_value(""),
    ];
    assert_eq!(
        output_values("objectSid", &values, &[]),
        vec![
            line("S-1-5-18"),
            lines(&["00000000 01"]),
            // a text under a binary attribute is tried as bytes, and dumped
            lines(&["00000000 53 2D 31 2D 35 2D 31 38"]),
            lines(&[]),
        ]
    );
    // bytes that were taken for a text are decoded all the same
    let as_text = String::from_utf8(sid.clone()).unwrap();
    assert_eq!(output_values("objectSid", &[LdapValue::String(as_text)], &[]), vec![line("S-1-5-18")]);
    assert_eq!(
        output_values("cn", &[text_value("Administrator"), text_value(" x"), LdapValue::Binary(vec![0xC3])], &[]),
        vec![line("Administrator"), Output::Encoded("IHg=".to_owned()), lines(&["00000000 C3"])]
    );
    // a binary value under a text attribute is dumped
    assert_eq!(
        output_values("userAccountControl", &[text_value("2"), LdapValue::Binary(b"2".to_vec())], &[]),
        vec![line("2 (UserAccountControl(ACCOUNTDISABLE))"), lines(&["00000000 32"])]
    );
    assert_eq!(output_values("cn", &[], &[]), vec![]);
}

#[test]
fn directory_time_texts() {
    assert_eq!(ad_time_to_ticks_relative_to_1601("16010101000000.0Z"), Some(0));
    assert_eq!(ad_time_to_ticks_relative_to_1601("16010101000000.0000001Z"), Some(1));
    assert_eq!(ad_time_to_ticks_relative_to_1601("16010101000000.00000019Z"), Some(1));
    assert_eq!(ad_time_to_ticks_relative_to_1601("16010101000001.5Z"), Some(15_000_000));
    assert_eq!(ad_time_to_ticks_relative_to_1601("20241111215643.0Z"), Some(133_758_358_030_000_000));
    assert_eq!(ad_time_to_ticks_relative_to_1601("19700101000000.000Z"), Some(116_444_736_000_000_000));
    // the fraction is cut after nine digits
    assert_eq!(ad_time_to_ticks_relative_to_1601("16010101000000.1234567891234Z"), Some(1_234_567));
    // before the start of 1601 a part of a tick is left out towards zero
    assert_eq!(ad_time_to_ticks_relative_to_1601("16001231235959.5Z"), Some(-5_000_000));
    assert_eq!(ad_time_to_ticks_relative_to_1601("16001231235959.99999995Z"), Some(0));
    assert_eq!(ad_time_to_ticks_relative_to_1601("16001231235959.50000005Z"), Some(-4_999_999));
    assert_eq!(ad_time_to_ticks_relative_to_1601("00000101000000.0Z"), Some(-505_227_456_000_000_000));
    // a leap day, and days that no calendar has
    assert_eq!(ad_time_to_ticks_relative_to_1601("20240229120000.0Z"), Some(133_536_816_000_000_000));
    for text in [
        "20230229120000.0Z",
        "20240230120000.0Z",
        "20241301120000.0Z",
        "20240001120000.0Z",
        "20240100120000.0Z",
        "20240101240000.0Z",
        "20240101126000.0Z",
        "20240101120060.0Z",
        "",
        "20241111215643Z",
        "20241111215643.Z",
        "20241111215643.0",
        "20241111215643.0z",
        "20241111215643,0Z",
        "2024111121564.00Z",
        "20241111215643.0Z ",
        " 20241111215643.0Z",
        "2024111121564x.0Z",
        "+0241111215643.0Z",
        "20241111215643.0xZ",
        "20241111215643.0Z\n",
    ] {
        assert_eq!(ad_time_to_ticks_relative_to_1601(text), None, "{:?}", text);
    }
    assert_eq!(ticks_since_1601(0, 0, 0, 0, 0), Some(0));
    assert_eq!(ticks_since_1601(1, 2, 3, 4, 567), Some(937_840_000_005));
    assert_eq!(ticks_since_1601(-1, 23, 59, 59, 999_999_999), Some(0));
    assert_eq!(ticks_since_1601(-1, 0, 0, 0, 0), Some(-864_000_000_000));
    assert_eq!(ticks_since_1601(0, 24, 0, 0, 0), None);
    assert_eq!(ticks_since_1601(0, 0, 0, 0, 1_000_000_000), None);
    assert_eq!(ticks_since_1601(i64::MAX, 0, 0, 0, 0), None);
    assert_eq!(ticks_since_1601(10_675_199, 2, 48, 5, 477_580_700), Some(i64::MAX));
    assert_eq!(ticks_since_1601(10_675_199, 2, 48, 5, 477_580_800), None);
}
