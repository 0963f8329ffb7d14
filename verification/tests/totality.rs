use ad_values::guid::Guid;
use ad_values::oid_prefix::OidPrefix;
use ad_values::time::ad_time_to_ticks_relative_to_1601;
use ad_values::values::forms::{binary_forms, string_forms};
use ad_values::values::structs::dfsr::dfsr_schedule_to_string;
use ad_values::values::structs::dns::property::{DnsAddr, DnsProperty, DnsPropertyData};
use ad_values::values::structs::dns::record::{Data, DnsRecord};
use ad_values::values::structs::exchange::{
    ExchangeVersion, GroupSecurityFlags, InternetEncoding, MailboxFolderSet2, TextMessagingState,
};
use ad_values::values::structs::replication::{
    DsaRpcInst, DsaSignatureState1, MtxAddr, Repl2Cursor, ReplTimes, ReplUpToDateVector2,
    RepsFromTo, UsnVector,
};
use ad_values::values::structs::schema::{PrefixMap, SchemaInfo};
use ad_values::values::structs::security::key_credential_link::{
    KeyCredentialLinkBlob, KeyCredentialLinkEntry,
};
use ad_values::values::structs::security::{
    Ace, Acl, ClaimSecurityAttribute1, SecurityDescriptor, Sid,
};
use ad_values::values::structs::terminal_services::UserParameters;
use ad_values::values::structs::trust::{TrustForestTrustInfo, TrustInfoRecord};
use ad_values::values::{
    nul_terminated_utf16le_string, nul_terminated_utf16le_string_at_offset, output_values,
    LdapValue,
};

/// A small generator of numbers that look random and are the same on every run.
struct Numbers(u64);

impl Numbers {
    fn next(&mut self) -> u64 {
        self.0 ^= self.0 << 13;
        self.0 ^= self.0 >> 7;
        self.0 ^= self.0 << 17;
        self.0
    }

    fn below(&mut self, bound: usize) -> usize {
        (self.next() % bound as u64) as usize
    }

    fn bytes(&mut self, length: usize) -> Vec<u8> {
        (0..length)
            .map(|_| {
                let n = self.next();
                // small numbers are lengths and counts that often fit
                if n % 3 == 0 { (n >> 8) as u8 % 4 } else { (n >> 8) as u8 }
            })
            .collect()
    }
}

fn decode_everything(bytes: &[u8]) -> usize {
    let mut decoded = 0;
    decoded += Sid::try_from_bytes(bytes).is_some() as usize;
    decoded += Sid::get_length(bytes).is_some() as usize;
    if let Some(ace) = Ace::try_from_bytes(bytes) {
        decoded += 1;
        let _ = ace.try_to_string();
    }
    let _ = Ace::get_length(bytes);
    if let Some(acl) = Acl::try_from_bytes(bytes) {
        decoded += 1;
        let _ = acl.try_to_string();
    }
    let _ = Acl::get_length(bytes);
    if let Some(sd) = SecurityDescriptor::try_from_bytes(bytes) {
        decoded += 1;
        let _ = sd.try_to_string();
    }
    decoded += ClaimSecurityAttribute1::try_from_bytes(bytes).is_some() as usize;
    let prefix = OidPrefix::from_ber_bytes(bytes);
    assert!(prefix.final_range_start < prefix.final_range_end);
    let _ = prefix.to_string();
    decoded += DnsProperty::try_from_bytes(bytes).is_some() as usize;
    decoded += DnsAddr::try_from_bytes(bytes).is_some() as usize;
    decoded += DnsRecord::try_from_bytes(bytes).is_some() as usize;
    for kind in (0u16..0x40).chain([0xFF01, 0xFF02, 0xFFFF]) {
        decoded += Data::try_from_bytes(kind, bytes).is_some() as usize;
    }
    for id in [0x01u32, 0x02, 0x08, 0x10, 0x11, 0x12, 0x20, 0x40, 0x80, 0x81, 0x82, 0x83, 0x90, 0x91, 0x92, 0x100, 0x101] {
        decoded += DnsPropertyData::try_from_bytes(id, bytes).is_some() as usize;
    }
    let _ = Data::decode_count_name(bytes);
    let _ = Data::decode_string(bytes);
    decoded += ReplUpToDateVector2::try_from_bytes(bytes).is_some() as usize;
    decoded += Repl2Cursor::try_from_bytes(bytes).is_some() as usize;
    decoded += RepsFromTo::try_from_bytes(bytes).is_some() as usize;
    decoded += ReplTimes::try_from_bytes(bytes).is_some() as usize;
    decoded += UsnVector::try_from_bytes(bytes).is_some() as usize;
    decoded += MtxAddr::try_from_bytes(bytes).is_some() as usize;
    decoded += DsaRpcInst::try_from_bytes(bytes).is_some() as usize;
    decoded += DsaSignatureState1::try_from_bytes(bytes).is_some() as usize;
    decoded += TrustForestTrustInfo::try_from_bytes(bytes).is_some() as usize;
    decoded += TrustInfoRecord::try_from_bytes(bytes).is_some() as usize;
    let _ = TrustInfoRecord::get_length(bytes);
    decoded += KeyCredentialLinkEntry::try_from_bytes(bytes).is_some() as usize;
    let _ = KeyCredentialLinkEntry::get_length(bytes);
    decoded += PrefixMap::try_from_bytes(bytes).is_some() as usize;
    decoded += SchemaInfo::try_from_bytes(bytes).is_some() as usize;
    decoded += UserParameters::try_from_bytes(bytes).is_some() as usize;
    let _ = nul_terminated_utf16le_string(bytes);
    for offset in 0..bytes.len() + 2 {
        let _ = nul_terminated_utf16le_string_at_offset(bytes, offset, offset % 2 == 0);
    }
    let _ = dfsr_schedule_to_string(bytes);
    let _ = Guid::from_slice_le(bytes);
    let text = String::from_utf8_lossy(bytes).into_owned();
    let _ = Sid::from_str(&text);
    let _ = KeyCredentialLinkBlob::try_from_str(&text);
    let _ = TextMessagingState::try_from_str(&text);
    let _ = ExchangeVersion::try_from_str(&text);
    let _ = InternetEncoding::try_from_str(&text);
    let _ = GroupSecurityFlags::try_from_str(&text);
    let _ = MailboxFolderSet2::try_from_str(&text);
    let _ = ad_time_to_ticks_relative_to_1601(&text);
    decoded
}

#[test]
fn decoders_take_any_bytes() {
    let mut numbers = Numbers(0x2545_F491_4F6C_DD1D);
    let mut decoded = 0;
    decode_everything(&[]);
    for length in 0..80 {
        for _ in 0..12 {
            decoded += decode_everything(&numbers.bytes(length));
        }
    }
    for length in [84, 212, 216, 255, 256, 336, 524, 1000] {
        decoded += decode_everything(&numbers.bytes(length));
        decoded += decode_everything(&vec![0; length]);
        decoded += decode_everything(&vec![0xFF; length]);
        decoded += decode_everything(&vec![1; length]);
    }
    // some of what is random is taken by the decoders that take anything
    assert!(decoded > 1000);
}

/// A descriptor with an owner, a group and a list of two entries.
fn sample_descriptor() -> Vec<u8> {
    let mut out = vec![1, 0, 4, 0x80, 20, 0, 0, 0, 32, 0, 0, 0, 0, 0, 0, 0, 48, 0, 0, 0];
    out.extend_from_slice(&[1, 1, 0, 0, 0, 0, 0, 5, 18, 0, 0, 0]);
    out.extend_from_slice(&[1, 2, 0, 0, 0, 0, 0, 5, 32, 0, 0, 0, 32, 2, 0, 0]);
    out.extend_from_slice(&[4, 0, 72, 0, 2, 0, 0, 0]);
    out.extend_from_slice(&[0, 2, 20, 0, 0x14, 0, 2, 0, 1, 1, 0, 0, 0, 0, 0, 5, 11, 0, 0, 0]);
    out.extend_from_slice(&[5, 0, 44, 0, 0, 1, 0, 0, 1, 0, 0, 0]);
    out.extend_from_slice(&[0xAB; 16]);
    out.extend_from_slice(&[1, 2, 0, 0, 0, 0, 0, 5, 32, 0, 0, 0, 33, 2, 0, 0]);
    out
}

#[test]
fn decoders_take_damaged_records() {
    let mut numbers = Numbers(0x9E37_79B9_7F4A_7C15);
    let samples: Vec<Vec<u8>> = vec![
        sample_descriptor(),
        vec![2, 0, 0, 0, 0, 0, 0, 0, 0, 0, 0, 0, 0, 0, 0, 0],
        vec![
            4, 0, 1, 0, 0xF0, 0, 0, 0, 1, 0, 0, 0, 0, 0, 0x0E, 0x10, 0, 0, 0, 0, 0, 0, 0, 0, 10, 0,
            0, 1,
        ],
        vec![
            19, 0, 5, 0, 0xF0, 0, 0, 0, 1, 0, 0, 0, 0, 0, 0x0E, 0x10, 0, 0, 0, 0, 0, 0, 0, 0, 17, 3,
            3, b'w', b'w', b'w', 7, b'e', b'x', b'a', b'm', b'p', b'l', b'e', 3, b'c', b'o', b'm',
            0,
        ],
        vec![1, 0, 0, 0, 1, 0, 0, 0, 14, 0, 0, 0, 0, 0, 0, 0, 1, 2, 3, 4, 5, 6, 7, 8, 0, 1, 0, 0, 0, b'x'],
        vec![2, 0, 0, 0, 18, 0, 0, 0, 0, 0, 2, 0, 0x55, 4, 1, 0, 2, 0, 0x2A, 0x86],
    ];
    for sample in &samples {
        assert!(decode_everything(sample) > 0);
        for _ in 0..300 {
            let mut damaged = sample.clone();
            for _ in 0..1 + numbers.below(3) {
                let at = numbers.below(damaged.len());
                damaged[at] = numbers.next() as u8;
            }
            if numbers.below(4) == 0 {
                damaged.truncate(numbers.below(damaged.len() + 1));
            }
            if numbers.below(4) == 0 {
                damaged.extend_from_slice(&numbers.bytes(3));
            }
            decode_everything(&damaged);
        }
    }
    let sd = SecurityDescriptor::try_from_bytes(&sample_descriptor()).unwrap();
    assert_eq!(
        sd.try_to_string().unwrap(),
        "O:SYG:BAD:(A;CI;LCRPRC;;;AU)(OA;;CR;abababab-abab-abab-abab-abababababab;;BU)"
    );
}

#[test]
fn every_attribute_takes_any_value() {
    let mut numbers = Numbers(0xD1B5_4A32_D192_ED03);
    let mut names: Vec<&'static str> = binary_forms().iter().map(|e| e.name).collect();
    names.extend(string_forms().iter().map(|e| e.name));
    names.push("cn");
    let texts = [
        "", "0", "514", "-1", "+7", "x", " ", "9223372036854775807", "-9223372036854775808",
        "99999999999999999999", "2.5.5.12", "B:8:00020000:cn=x", "S-1-5-18", "\u{feff}a\r\nb",
    ];
    let classes: Vec<LdapValue> = ["top", "crossRef", "classSchema", "attributeSchema", "nTDSDSA", "siteLink"]
        .iter()
        .map(|c| LdapValue::String((*c).to_owned()))
        .collect();
    for name in &names {
        let mut values: Vec<LdapValue> = texts.iter().map(|t| LdapValue::String((*t).to_owned())).collect();
        for length in [0, 1, 8, 12, 16, 20, 21, 24, 28, 32, 44, 84, 212, 336] {
            values.push(LdapValue::Binary(numbers.bytes(length)));
        }
        values.push(LdapValue::Binary(sample_descriptor()));
        for subset in [&classes[..0], &classes[..1], &classes[1..3], &classes[3..]] {
            assert_eq!(output_values(name, &values, subset).len(), values.len());
        }
    }
}
