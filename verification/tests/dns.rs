use ad_values::time::Timestamp;
use ad_values::values::structs::dns::property::{
    AllowUpdate, Boolean, DcPromoFlag, DnsAddr, DnsIpAddr, DnsProperty, DnsPropertyData,
    DnsRpcNodeFlags, DnsValidationStatus, ZoneType,
};
use ad_values::values::structs::dns::record::{
    Data, DnsRecord, Flags, Ipv4AddrData, KeyData, MailboxData, NodeNameData, OtherRecordData,
    PreferenceNameData, Rank, ServiceData, StringData, TombstoneData, WinsMappingFlag,
};

const MASTER_SERVERS: [u8; 440] = [
            0xA0, 0x01, 0x00, 0x00, 0x17, 0x00, 0x00, 0x35, 0x00, 0x00, 0x00, 0x00, 0x01, 0x00, 0x00, 0x00,
            0x91, 0x00, 0x00, 0x00, 0x06, 0x00, 0x00, 0x00, 0x06, 0x00, 0x00, 0x00, 0x00, 0x00, 0x00, 0x00,
            0x00, 0x00, 0x00, 0x00, 0x00, 0x00, 0x00, 0x00, 0x00, 0x00, 0x00, 0x00, 0x00, 0x00, 0x00, 0x00,
            0x00, 0x00, 0x00, 0x00, 0x02, 0x00, 0x00, 0x35, 0xC0, 0xA8, 0x0C, 0x22, 0x00, 0x00, 0x00, 0x00,
            0x00, 0x00, 0x00, 0x00, 0x00, 0x00, 0x00, 0x00, 0x00, 0x00, 0x00, 0x00, 0x00, 0x00, 0x00, 0x00,
            0x00, 0x00, 0x00, 0x00, 0x10, 0x00, 0x00, 0x00, 0x00, 0x00, 0x00, 0x00, 0x00, 0x00, 0x00, 0x00,
            0x00, 0x00, 0x00, 0x00, 0x00, 0x00, 0x00, 0x00, 0x00, 0x00, 0x00, 0x00, 0x00, 0x00, 0x00, 0x00,
            0x00, 0x00, 0x00, 0x00, 0x17, 0x00, 0x00, 0x35, 0x00, 0x00, 0x00, 0x00, 0x20, 0x01, 0x0d, 0xb8,
            0x00, 0x00, 0x00, 0x00, 0x00, 0x00, 0x00, 0x00, 0x00, 0x00, 0x00, 0x34, 0x00, 0x00, 0x00, 0x00,
            0x00, 0x00, 0x00, 0x00, 0x1C, 0x00, 0x00, 0x00, 0x00, 0x00, 0x00, 0x00, 0x00, 0x00, 0x00, 0x00,
            0x00, 0x00, 0x00, 0x00, 0x00, 0x00, 0x00, 0x00, 0x00, 0x00, 0x00, 0x00, 0x00, 0x00, 0x00, 0x00,
            0x00, 0x00, 0x00, 0x00, 0x02, 0x00, 0x00, 0x35, 0xC0, 0xA8, 0x0C, 0x59, 0x00, 0x00, 0x00, 0x00,
            0x00, 0x00, 0x00, 0x00, 0x00, 0x00, 0x00, 0x00, 0x00, 0x00, 0x00, 0x00, 0x00, 0x00, 0x00, 0x00,
            0x00, 0x00, 0x00, 0x00, 0x10, 0x00, 0x00, 0x00, 0x00, 0x00, 0x00, 0x00, 0x00, 0x00, 0x00, 0x00,
            0x00, 0x00, 0x00, 0x00, 0x00, 0x00, 0x00, 0x00, 0x00, 0x00, 0x00, 0x00, 0x00, 0x00, 0x00, 0x00,
            0x00, 0x00, 0x00, 0x00, 0x17, 0x00, 0x00, 0x35, 0x00, 0x00, 0x00, 0x00, 0x20, 0x01, 0x0d, 0xb8,
            0x00, 0x00, 0x00, 0x00, 0x00, 0x00, 0x00, 0x00, 0x00, 0x00, 0x00, 0x89, 0x00, 0x00, 0x00, 0x00,
            0x00, 0x00, 0x00, 0x00, 0x1C, 0x00, 0x00, 0x00, 0x00, 0x00, 0x00, 0x00, 0x00, 0x00, 0x00, 0x00,
            0x00, 0x00, 0x00, 0x00, 0x00, 0x00, 0x00, 0x00, 0x00, 0x00, 0x00, 0x00, 0x00, 0x00, 0x00, 0x00,
            0x00, 0x00, 0x00, 0x00, 0x02, 0x00, 0x00, 0x35, 0xC0, 0xA8, 0x0C, 0x2A, 0x00, 0x00, 0x00, 0x00,
            0x00, 0x00, 0x00, 0x00, 0x00, 0x00, 0x00, 0x00, 0x00, 0x00, 0x00, 0x00, 0x00, 0x00, 0x00, 0x00,
            0x00, 0x00, 0x00, 0x00, 0x10, 0x00, 0x00, 0x00, 0x00, 0x00, 0x00, 0x00, 0x00, 0x00, 0x00, 0x00,
            0x00, 0x00, 0x00, 0x00, 0x00, 0x00, 0x00, 0x00, 0x00, 0x00, 0x00, 0x00, 0x00, 0x00, 0x00, 0x00,
            0x00, 0x00, 0x00, 0x00, 0x17, 0x00, 0x00, 0x35, 0x00, 0x00, 0x00, 0x00, 0x20, 0x01, 0x0d, 0xb8,
            0x00, 0x00, 0x00, 0x00, 0x00, 0x00, 0x00, 0x00, 0x00, 0x00, 0x00, 0x42, 0x00, 0x00, 0x00, 0x00,
            0x00, 0x00, 0x00, 0x00, 0x1C, 0x00, 0x00, 0x00, 0x00, 0x00, 0x00, 0x00, 0x00, 0x00, 0x00, 0x00,
            0x00, 0x00, 0x00, 0x00, 0x00, 0x00, 0x00, 0x00, 0x00, 0x00, 0x00, 0x00, 0x00, 0x00, 0x00, 0x00,
            0x00, 0x00, 0x00, 0x00, 0x80, 0x0F, 0x80, 0x0F,
        ];

#[test]
fn master_servers_property_decodes() {
    let dns_property = DnsProperty::try_from_bytes(&MASTER_SERVERS).unwrap();
    assert_eq!(dns_property.version, 1);
    assert_eq!(dns_property.name_length, 889192471);
    assert_eq!(dns_property.flag, 0);
    assert_eq!(dns_property.is_default, false);
    let master_servers_da = match &dns_property.data {
        DnsPropertyData::MasterServersDa(msda) => msda,
        _ => panic!("incorrect DNS property"),
    };
    assert_eq!(master_servers_da.len(), 6);
    let v4 = |last: u8| DnsIpAddr::V4([192, 168, 12, last]);
    let v6 = |last: u8| DnsIpAddr::V6([0x20, 0x01, 0x0d, 0xb8, 0, 0, 0, 0, 0, 0, 0, 0, 0, 0, 0, last]);
    let expected = [v4(34), v6(0x34), v4(89), v6(0x89), v4(42), v6(0x42)];
    for (server, ip) in master_servers_da.iter().zip(expected) {
        assert_eq!(server.ip, ip);
        assert_eq!(server.port, 53);
        // the bit that says that TCP is not available is clear
        assert_eq!(server.dns_over_tcp_available, true);
        assert_eq!(server.rtt_10ms, 0);
        assert_eq!(server.subnet_length, 0);
        assert_eq!(server.validation_status, DnsValidationStatus::Success);
    }
}

fn property(id: u32, data: &[u8]) -> Vec<u8> {
    let mut out = Vec::new();
    out.extend_from_slice(&(data.len() as u32).to_le_bytes());
    out.extend_from_slice(&3u32.to_le_bytes());
    out.extend_from_slice(&4u32.to_le_bytes());
    out.extend_from_slice(&1u32.to_le_bytes());
    out.extend_from_slice(&id.to_le_bytes());
    out.extend_from_slice(data);
    out.push(0);
    out
}

fn data_of(id: u32, data: &[u8]) -> Option<DnsPropertyData> {
    DnsProperty::try_from_bytes(&property(id, data)).map(|p| p.data)
}

#[test]
fn properties_have_defaults() {
    let p = DnsProperty::try_from_bytes(&property(0x01, &[])).unwrap();
    assert_eq!(p.is_default, true);
    assert_eq!(p.name_length, 3);
    assert_eq!(p.flag, 4);
    assert_eq!(p.data, DnsPropertyData::ZoneType(ZoneType::Primary));
    assert_eq!(data_of(0x08, &[]), Some(DnsPropertyData::SecureTime(Timestamp { seconds: 0, nanoseconds: 0 })));
    assert_eq!(data_of(0x10, &[]), Some(DnsPropertyData::NoRefreshInterval { hours: 168 }));
    assert_eq!(data_of(0x20, &[]), Some(DnsPropertyData::RefreshInterval { hours: 168 }));
    assert_eq!(data_of(0x40, &[]), Some(DnsPropertyData::AgingState(Boolean::False)));
    assert_eq!(data_of(0x11, &[]), Some(DnsPropertyData::ScavengingServers(vec![])));
    assert_eq!(data_of(0x12, &[]), Some(DnsPropertyData::AgingEnabledTime { hours: 0 }));
    assert_eq!(data_of(0x80, &[]), Some(DnsPropertyData::DeletedFromHostname(String::new())));
    assert_eq!(data_of(0x81, &[]), Some(DnsPropertyData::MasterServers(vec![])));
    assert_eq!(data_of(0x82, &[]), Some(DnsPropertyData::AutoNsServers(vec![])));
    assert_eq!(data_of(0x90, &[]), Some(DnsPropertyData::ScavengingServersDa(vec![])));
    assert_eq!(data_of(0x91, &[]), Some(DnsPropertyData::MasterServersDa(vec![])));
    assert_eq!(data_of(0x92, &[]), Some(DnsPropertyData::AutoNsServersDa(vec![])));
    // three properties have none
    assert_eq!(data_of(0x02, &[]), None);
    assert_eq!(data_of(0x83, &[]), None);
    assert_eq!(data_of(0x100, &[]), None);
    assert_eq!(Boolean::default(), Boolean::False);
}

#[test]
fn properties_hold_values() {
    assert_eq!(data_of(0x01, &[4, 0, 0, 0]), Some(DnsPropertyData::ZoneType(ZoneType::Forwarder)));
    assert_eq!(data_of(0x01, &[9, 0, 0, 0]), Some(DnsPropertyData::ZoneType(ZoneType::Other(9))));
    assert_eq!(data_of(0x02, &[2]), Some(DnsPropertyData::AllowUpdate(AllowUpdate::Secure)));
    assert_eq!(data_of(0x02, &[1, 0, 0, 0]), Some(DnsPropertyData::AllowUpdate(AllowUpdate::Unsecure)));
    assert_eq!(data_of(0x02, &[1, 1, 0, 0]), Some(DnsPropertyData::AllowUpdate(AllowUpdate::Other(257))));
    assert_eq!(
        data_of(0x08, &12_591_158_399i64.to_le_bytes()),
        Some(DnsPropertyData::SecureTime(Timestamp { seconds: 12_591_158_399, nanoseconds: 0 }))
    );
    assert_eq!(
        data_of(0x08, &i64::MAX.to_le_bytes()),
        Some(DnsPropertyData::SecureTime(Timestamp { seconds: i64::MAX, nanoseconds: 0 }))
    );
    assert_eq!(data_of(0x10, &[1, 2, 0, 0]), Some(DnsPropertyData::NoRefreshInterval { hours: 513 }));
    assert_eq!(data_of(0x40, &[1, 0, 0, 0]), Some(DnsPropertyData::AgingState(Boolean::True)));
    assert_eq!(data_of(0x83, &[2, 0, 0, 0]), Some(DnsPropertyData::DcPromoConvert(DcPromoFlag::ConvertForest)));
    assert_eq!(
        data_of(0x100, &[0, 0, 2, 0x80]),
        Some(DnsPropertyData::DbFlags(DnsRpcNodeFlags::from(0x8002_0000)))
    );
    assert_eq!(
        data_of(0x80, &[b'a', 0, b'b', 0, 0, 0, b'c', 0]),
        Some(DnsPropertyData::DeletedFromHostname("ab".to_owned()))
    );
    assert_eq!(
        data_of(0x77, &[1, 2, 3]),
        Some(DnsPropertyData::Other { id: 0x77, data: vec![1, 2, 3] })
    );
    assert!(Boolean::True.is_true());
    assert!(Boolean::Other(7).is_true());
    assert!(!Boolean::False.is_true());
    // wrong lengths
    assert_eq!(data_of(0x01, &[1, 0, 0]), None);
    assert_eq!(data_of(0x02, &[1, 0]), None);
    assert_eq!(data_of(0x08, &[0; 4]), None);
    assert_eq!(data_of(0x80, &[b'a', 0, b'b']), None);
    assert_eq!(data_of(0x80, &[0, 0xD8]), None);
    assert_eq!(data_of(0x83, &[1]), None);
}

#[test]
fn property_address_arrays() {
    // every address of the array is taken, also beyond the count
    assert_eq!(
        data_of(0x81, &[1, 0, 0, 0, 10, 0, 0, 1, 10, 0, 0, 2]),
        Some(DnsPropertyData::MasterServers(vec![[10, 0, 0, 1], [10, 0, 0, 2]]))
    );
    assert_eq!(data_of(0x11, &[0, 0, 0, 0]), Some(DnsPropertyData::ScavengingServers(vec![])));
    // fewer addresses than the count says
    assert_eq!(data_of(0x81, &[2, 0, 0, 0, 10, 0, 0, 1]), None);
    assert_eq!(data_of(0x81, &[1, 0, 0, 0, 10, 0, 0]), None);
    assert_eq!(data_of(0x82, &[1, 0]), None);
    // server addresses: a header of 32 bytes and 64 bytes each
    let mut array = vec![0u8; 32];
    array[0] = 1;
    array[4] = 1;
    let mut addr = vec![0u8; 64];
    addr[0] = 0x99; // a family without a name
    addr[2] = 0x12;
    addr[3] = 0x34;
    addr[4..8].copy_from_slice(&[1, 2, 3, 4]);
    addr[32] = 7; // the socket address has seven bytes
    addr[36] = 24;
    addr[40..44].copy_from_slice(&0x8012_3004u32.to_le_bytes());
    array.extend_from_slice(&addr);
    let expected = DnsAddr {
        ip: DnsIpAddr::Other { family: 0x99, address: vec![1, 2, 3] },
        port: 0x1234,
        subnet_length: 24,
        dns_over_tcp_available: false,
        rtt_10ms: 0x123,
        validation_status: DnsValidationStatus::NotAuthForZone,
    };
    assert_eq!(DnsAddr::try_from_bytes(&addr), Some(expected.clone()));
    assert_eq!(data_of(0x90, &array), Some(DnsPropertyData::ScavengingServersDa(vec![expected])));
    // the counts differ
    let mut wrong = array.clone();
    wrong[0] = 2;
    assert_eq!(data_of(0x90, &wrong), None);
    // the addresses do not fill the rest
    assert_eq!(data_of(0x90, &array[..array.len() - 1]), None);
    // fewer addresses than the count says
    let mut more = array.clone();
    more[0] = 2;
    more[4] = 2;
    assert_eq!(data_of(0x90, &more), None);
    // an address that is broken breaks the array
    let mut broken = array.clone();
    broken[32 + 32] = 3;
    assert_eq!(data_of(0x90, &broken), None);
}

#[test]
fn server_addresses_are_checked() {
    let mut addr = vec![0u8; 44];
    addr[0] = 2;
    addr[32] = 8;
    addr[4..8].copy_from_slice(&[9, 8, 7, 6]);
    addr[40..44].copy_from_slice(&0x000F_F0FFu32.to_le_bytes());
    let decoded = DnsAddr::try_from_bytes(&addr).unwrap();
    assert_eq!(decoded.ip, DnsIpAddr::V4([9, 8, 7, 6]));
    assert_eq!(decoded.dns_over_tcp_available, true);
    assert_eq!(decoded.rtt_10ms, 0xFF);
    assert_eq!(decoded.validation_status, DnsValidationStatus::UnknownError);
    addr[40..44].copy_from_slice(&0x0000_0005u32.to_le_bytes());
    assert_eq!(DnsAddr::try_from_bytes(&addr).unwrap().validation_status, DnsValidationStatus::Other(5));
    // too short, and implausible lengths of the socket address
    assert_eq!(DnsAddr::try_from_bytes(&addr[..43]), None);
    for length in [0u8, 3, 7, 33] {
        addr[32] = length;
        assert_eq!(DnsAddr::try_from_bytes(&addr), None);
    }
    addr[0] = 0x17;
    addr[32] = 23;
    assert_eq!(DnsAddr::try_from_bytes(&addr), None);
    addr[32] = 24;
    addr[8..24].copy_from_slice(&[1; 16]);
    assert_eq!(DnsAddr::try_from_bytes(&addr).unwrap().ip, DnsIpAddr::V6([1; 16]));
}

#[test]
fn property_is_rejected_on_any_mismatch() {
    assert_eq!(DnsProperty::try_from_bytes(&[]), None);
    assert_eq!(DnsProperty::try_from_bytes(&[0; 20]), None);
    let good = property(0x10, &[1, 0, 0, 0]);
    assert!(DnsProperty::try_from_bytes(&good).is_some());
    // another version
    let mut other = good.clone();
    other[12] = 2;
    assert_eq!(DnsProperty::try_from_bytes(&other), None);
    // no room for the name after the data
    assert_eq!(DnsProperty::try_from_bytes(&good[..good.len() - 1]), None);
    // a length that no buffer holds
    let mut huge = good.clone();
    huge[0..4].copy_from_slice(&[0xFF; 4]);
    assert_eq!(DnsProperty::try_from_bytes(&huge), None);
}

fn record(kind: u16, data: &[u8]) -> Vec<u8> {
    let mut out = Vec::new();
    out.extend_from_slice(&(data.len() as u16).to_le_bytes());
    out.extend_from_slice(&kind.to_le_bytes());
    out.extend_from_slice(&0x00F0u16.to_le_bytes());
    out.extend_from_slice(&0x4010u16.to_le_bytes());
    out.extend_from_slice(&77u32.to_le_bytes());
    out.extend_from_slice(&3600u32.to_le_bytes());
    out.extend_from_slice(&5u32.to_le_bytes());
    out.extend_from_slice(&6u32.to_le_bytes());
    out.extend_from_slice(data);
    out
}

/// The counted name `www.example.com.`.
const NAME: [u8; 19] = [
    17, 3, 3, b'w', b'w', b'w', 7, b'e', b'x', b'a', b'm', b'p', b'l', b'e', 3, b'c', b'o', b'm', 0,
];

#[test]
fn record_header_and_address() {
    let rec = DnsRecord::try_from_bytes(&record(1, &[192, 0, 2, 1])).unwrap();
    assert_eq!(rec.rank, Rank::Zone);
    assert_eq!(rec.flags, Flags::from(0x4010));
    assert!(rec.flags.contains(Flags::ZONE_ROOT | Flags::RECORD_WIRE_FORMAT));
    assert_eq!(rec.serial, 77);
    assert_eq!(rec.ttl_seconds, 3600);
    assert_eq!(rec.timestamp, 5);
    assert_eq!(rec.reserved, 6);
    assert_eq!(rec.data, Data::Address(Ipv4AddrData { address: [192, 0, 2, 1] }));
    assert_eq!(Rank::from_base_type(0x31), Rank::CacheNaAdditional);
    assert_eq!(Rank::from_base_type(0x32), Rank::Other(0x32));
    assert_eq!(Rank::Glue.to_base_type(), 0x80);
    // the length of the data must be right
    assert_eq!(DnsRecord::try_from_bytes(&record(1, &[192, 0, 2])), None);
    assert_eq!(DnsRecord::try_from_bytes(&record(1, &[192, 0, 2, 1, 0])), None);
    let mut long = record(1, &[192, 0, 2, 1]);
    long.push(0);
    assert_eq!(DnsRecord::try_from_bytes(&long), None);
    assert_eq!(DnsRecord::try_from_bytes(&long[..23]), None);
    assert_eq!(DnsRecord::try_from_bytes(&[]), None);
}

#[test]
fn counted_names() {
    assert_eq!(Data::decode_count_name(&NAME), Some(("www.example.com.".to_owned(), 19)));
    // the root: no label, only the end
    assert_eq!(Data::decode_count_name(&[1, 0, 0]), Some((String::new(), 3)));
    // bytes after the name are not taken
    let mut long = NAME.to_vec();
    long.push(9);
    assert_eq!(Data::decode_count_name(&long), Some(("www.example.com.".to_owned(), 19)));
    // too short, a label too long, no end, bytes after the end, a label that is no UTF-8
    assert_eq!(Data::decode_count_name(&[]), None);
    assert_eq!(Data::decode_count_name(&[0]), None);
    assert_eq!(Data::decode_count_name(&NAME[..18]), None);
    assert_eq!(Data::decode_count_name(&[0, 0]), None);
    assert_eq!(Data::decode_count_name(&[2, 1, 1, b'a']), None);
    assert_eq!(Data::decode_count_name(&[3, 1, 2, b'a', 0]), None);
    assert_eq!(Data::decode_count_name(&[3, 1, 1, b'a', 1]), None);
    assert_eq!(Data::decode_count_name(&[4, 1, 1, b'a', 0, 0]), None);
    assert_eq!(Data::decode_count_name(&[3, 1, 1, 0xFF, 0]), None);
    assert_eq!(Data::decode_count_name(&[3, 2, 1, b'a', 0]), None);
    assert_eq!(Data::decode_string(&[2, b'h', b'i', 9]), Some(("hi".to_owned(), 3)));
    assert_eq!(Data::decode_string(&[0]), Some((String::new(), 1)));
    assert_eq!(Data::decode_string(&[]), None);
    assert_eq!(Data::decode_string(&[2, b'h']), None);
    assert_eq!(Data::decode_string(&[1, 0x80]), None);
}

#[test]
fn records_with_names() {
    let name = || NodeNameData { name: "www.example.com.".to_owned() };
    assert_eq!(Data::try_from_bytes(0x02, &NAME), Some(Data::NameServer(name())));
    assert_eq!(Data::try_from_bytes(0x03, &NAME), Some(Data::LegacyMailDestination(name())));
    assert_eq!(Data::try_from_bytes(0x04, &NAME), Some(Data::LegacyMailForwarder(name())));
    assert_eq!(Data::try_from_bytes(0x05, &NAME), Some(Data::CanonicalName(name())));
    assert_eq!(Data::try_from_bytes(0x07, &NAME), Some(Data::LegacyMailbox(name())));
    assert_eq!(Data::try_from_bytes(0x08, &NAME), Some(Data::LegacyMailGroupMember(name())));
    assert_eq!(Data::try_from_bytes(0x09, &NAME), Some(Data::LegacyMailRename(name())));
    assert_eq!(Data::try_from_bytes(0x0C, &NAME), Some(Data::Pointer(name())));
    assert_eq!(Data::try_from_bytes(0x27, &NAME), Some(Data::DelegationName(name())));
    let mut long = NAME.to_vec();
    long.push(0);
    assert_eq!(Data::try_from_bytes(0x05, &long), None);
    assert_eq!(Data::try_from_bytes(0x05, &[]), None);

    let mut mx = vec![0x00, 0x0A];
    mx.extend_from_slice(&NAME);
    let data = PreferenceNameData { preference: 10, name: "www.example.com.".to_owned() };
    assert_eq!(Data::try_from_bytes(0x0F, &mx), Some(Data::MailExchanger(data.clone())));
    assert_eq!(Data::try_from_bytes(0x12, &mx), Some(Data::Afsdb(data.clone())));
    assert_eq!(Data::try_from_bytes(0x15, &mx), Some(Data::LegacyRouteThrough(data)));
    assert_eq!(Data::try_from_bytes(0x0F, &mx[..2]), None);

    let mut srv = vec![0, 1, 0, 2, 0x01, 0x85];
    srv.extend_from_slice(&NAME);
    assert_eq!(
        Data::try_from_bytes(0x21, &srv),
        Some(Data::Service(ServiceData { priority: 1, weight: 2, port: 389, target: "www.example.com.".to_owned() }))
    );
    srv.push(1);
    assert_eq!(Data::try_from_bytes(0x21, &srv), None);

    let mut two = NAME.to_vec();
    two.extend_from_slice(&[1, 0, 0]);
    let data = MailboxData { mailbox: "www.example.com.".to_owned(), error_mailbox: String::new() };
    assert_eq!(Data::try_from_bytes(0x0E, &two), Some(Data::LegacyMailInfo(data.clone())));
    assert_eq!(Data::try_from_bytes(0x11, &two), Some(Data::LegacyResponsiblePerson(data)));
    assert_eq!(Data::try_from_bytes(0x0E, &NAME), None);

    let mut soa = Vec::new();
    for n in [2024u32, 900, 600, 86400, 3600] {
        soa.extend_from_slice(&n.to_le_bytes());
    }
    soa.extend_from_slice(&NAME);
    soa.extend_from_slice(&[3, 1, 1, b'h', 0]);
    match Data::try_from_bytes(0x06, &soa).unwrap() {
        Data::StartOfAuthority(s) => {
            assert_eq!(s.serial_number, 2024);
            assert_eq!(s.refresh, 900);
            assert_eq!(s.retry, 600);
            assert_eq!(s.expire, 86400);
            assert_eq!(s.minimum_ttl, 3600);
            assert_eq!(s.primary_server_name, "www.example.com.");
            assert_eq!(s.zone_admin_email, "h.");
        },
        _ => panic!("not a start of authority"),
    }
    assert_eq!(Data::try_from_bytes(0x06, &soa[..soa.len() - 1]), None);
    assert_eq!(Data::try_from_bytes(0x06, &soa[..21]), None);
}

#[test]
fn records_with_bytes_and_strings() {
    assert_eq!(
        Data::try_from_bytes(0, &125_911_583_990_000_001i64.to_le_bytes()),
        Some(Data::Tombstone(TombstoneData {
            entombed_time: Timestamp { seconds: 12_591_158_399, nanoseconds: 100 },
        }))
    );
    assert_eq!(Data::try_from_bytes(0, &[0; 7]), None);
    assert_eq!(Data::try_from_bytes(0x0A, &[]).map(|d| matches!(d, Data::Null(_))), Some(true));
    assert_eq!(Data::try_from_bytes(0x31, &[1]).map(|d| matches!(d, Data::DhcpIdentifier(_))), Some(true));
    let strings = StringData { values: vec!["ab".to_owned(), String::new(), "c".to_owned()] };
    let bytes = [2, b'a', b'b', 0, 1, b'c'];
    assert_eq!(Data::try_from_bytes(0x0D, &bytes), Some(Data::HostInfo(strings.clone())));
    assert_eq!(Data::try_from_bytes(0x10, &bytes), Some(Data::Text(strings.clone())));
    assert_eq!(Data::try_from_bytes(0x13, &bytes), Some(Data::X25(strings.clone())));
    assert_eq!(Data::try_from_bytes(0x14, &bytes), Some(Data::Isdn(strings)));
    assert_eq!(Data::try_from_bytes(0x10, &[]), Some(Data::Text(StringData { values: vec![] })));
    assert_eq!(Data::try_from_bytes(0x10, &[2, b'a']), None);
    assert_eq!(
        Data::try_from_bytes(0x30, &[0x01, 0x01, 3, 8, 0xAA, 0xBB]),
        Some(Data::DnsKey(KeyData { flags: 257, protocol: 3, algorithm: 8, key: vec![0xAA, 0xBB] }))
    );
    assert_eq!(Data::try_from_bytes(0x19, &[1, 1, 3]), None);
    assert_eq!(Data::try_from_bytes(0x1C, &[7; 16]).map(|d| matches!(d, Data::Ipv6Address(_))), Some(true));
    assert_eq!(Data::try_from_bytes(0x1C, &[7; 15]), None);
    assert_eq!(
        Data::try_from_bytes(0x1234, &[1, 2]),
        Some(Data::Other(OtherRecordData { record_type: 0x1234, data: vec![1, 2] }))
    );
    match Data::try_from_bytes(0x0B, &[10, 0, 0, 1, 6, 0x80]).unwrap() {
        Data::LegacyWellKnownServices(w) => {
            assert_eq!(w.address, [10, 0, 0, 1]);
            assert_eq!(w.ip_protocol, 6);
            assert_eq!(w.service_bitmask, vec![0x80]);
        },
        _ => panic!("not well known services"),
    }
    assert_eq!(Data::try_from_bytes(0x0B, &[10, 0, 0, 1]), None);
}

#[test]
fn records_of_the_security_extensions() {
    let mut sig = vec![0, 1, 8, 2, 0, 0, 0x0E, 0x10, 0, 0, 0, 9, 0, 0, 0, 8, 0x12, 0x34];
    sig.extend_from_slice(&NAME);
    sig.extend_from_slice(&[0xDE, 0xAD]);
    match Data::try_from_bytes(0x2E, &sig).unwrap() {
        Data::ResourceRecordSignature(s) => {
            assert_eq!(s.type_covered, 1);
            assert_eq!(s.algorithm, 8);
            assert_eq!(s.label_count, 2);
            assert_eq!(s.original_ttl, 3600);
            assert_eq!(s.signature_expiration, 9);
            assert_eq!(s.signature_inception, 8);
            assert_eq!(s.key_tag, 0x1234);
            assert_eq!(s.signer, "www.example.com.");
            assert_eq!(s.signature, vec![0xDE, 0xAD]);
        },
        _ => panic!("not a signature"),
    }
    assert!(matches!(Data::try_from_bytes(0x18, &sig), Some(Data::LegacySignature(_))));
    assert_eq!(Data::try_from_bytes(0x2E, &sig[..18]), None);
    match Data::try_from_bytes(0x2B, &[0x12, 0x34, 8, 2, 1, 2, 3]).unwrap() {
        Data::DelegationSigner(d) => {
            assert_eq!((d.key_tag, d.algorithm, d.digest_type), (0x1234, 8, 2));
            assert_eq!(d.digest, vec![1, 2, 3]);
        },
        _ => panic!("not a delegation signer"),
    }
    let mut nsec = NAME.to_vec();
    nsec.extend_from_slice(&[0, 1, 0x40]);
    match Data::try_from_bytes(0x2F, &nsec).unwrap() {
        Data::NextSecureRecord(n) => {
            assert_eq!(n.signer, "www.example.com.");
            assert_eq!(n.nsec_bitmap, vec![0, 1, 0x40]);
        },
        _ => panic!("not a next secure record"),
    }
    match Data::try_from_bytes(0x32, &[1, 0, 0, 10, 2, 3, 0xAA, 0xBB, 1, 2, 3, 9, 9]).unwrap() {
        Data::NextSecureRecord3(n) => {
            assert_eq!((n.algorithm, n.flags, n.iterations), (1, 0, 10));
            assert_eq!(n.salt, vec![0xAA, 0xBB]);
            assert_eq!(n.next_hashed_owner_name, vec![1, 2, 3]);
            assert_eq!(n.bitmaps, vec![9, 9]);
        },
        _ => panic!("not a next secure record"),
    }
    assert_eq!(Data::try_from_bytes(0x32, &[1, 0, 0, 10, 2, 3, 0xAA, 0xBB, 1, 2]), None);
    match Data::try_from_bytes(0x33, &[1, 0, 0, 10, 2, 0xAA, 0xBB]).unwrap() {
        Data::NextSecureRecord3Parameters(n) => assert_eq!(n.salt, vec![0xAA, 0xBB]),
        _ => panic!("not the parameters"),
    }
    assert_eq!(Data::try_from_bytes(0x33, &[1, 0, 0, 10, 2, 0xAA, 0xBB, 0]), None);
    assert_eq!(Data::try_from_bytes(0x33, &[1, 0, 0, 10, 2, 0xAA]), None);
    match Data::try_from_bytes(0x34, &[3, 1, 1, 0xAB]).unwrap() {
        Data::TlsAssociation(t) => {
            assert_eq!((t.cert_usage, t.selector, t.matching_type), (3, 1, 1));
            assert_eq!(t.certificate_association_data, vec![0xAB]);
        },
        _ => panic!("not an association"),
    }
    let mut next = vec![0x11; 16];
    next.extend_from_slice(&NAME);
    match Data::try_from_bytes(0x1E, &next).unwrap() {
        Data::LegacyNextDomain(n) => {
            assert_eq!(n.record_type_mask_bytes, [0x11; 16]);
            assert_eq!(n.next_name, "www.example.com.");
        },
        _ => panic!("not a next domain"),
    }
    match Data::try_from_bytes(0x22, &[1, 0x45]).unwrap() {
        Data::LegacyAtma(a) => assert_eq!((a.format, a.address), (1, vec![0x45])),
        _ => panic!("not an ATM address"),
    }
    assert_eq!(Data::try_from_bytes(0x22, &[]), None);
    let mut naptr = vec![100, 0, 10, 0, 1, b'u', 3, b's', b'i', b'p', 0];
    naptr.extend_from_slice(&NAME);
    match Data::try_from_bytes(0x23, &naptr).unwrap() {
        Data::NamingAuthorityPointer(n) => {
            assert_eq!((n.order, n.preference), (100, 10));
            assert_eq!(n.flags, "u");
            assert_eq!(n.service, "sip");
            assert_eq!(n.substitution, "");
            assert_eq!(n.replacement, "www.example.com.");
        },
        _ => panic!("not a naming authority pointer"),
    }
    assert_eq!(Data::try_from_bytes(0x23, &naptr[..naptr.len() - 1]), None);
}

#[test]
fn records_of_wins() {
    let mut wins = Vec::new();
    wins.extend_from_slice(&0x8001_0000u32.to_le_bytes());
    wins.extend_from_slice(&2u32.to_le_bytes());
    wins.extend_from_slice(&900u32.to_le_bytes());
    wins.extend_from_slice(&2u32.to_le_bytes());
    wins.extend_from_slice(&[10, 0, 0, 1, 10, 0, 0, 2]);
    match Data::try_from_bytes(0xFF01, &wins).unwrap() {
        Data::WinsRecord(w) => {
            assert!(w.mapping_flag.contains(WinsMappingFlag::SCOPE | WinsMappingFlag::LOCAL));
            assert_eq!(w.lookup_timeout, 2);
            assert_eq!(w.cache_timeout, 900);
            assert_eq!(w.wins_servers, vec![[10, 0, 0, 1], [10, 0, 0, 2]]);
        },
        _ => panic!("not a WINS record"),
    }
    assert_eq!(Data::try_from_bytes(0xFF01, &wins[..wins.len() - 1]), None);
    let mut more = wins.clone();
    more[12] = 3;
    assert_eq!(Data::try_from_bytes(0xFF01, &more), None);
    let mut huge = wins.clone();
    huge[12..16].copy_from_slice(&[0xFF; 4]);
    assert_eq!(Data::try_from_bytes(0xFF01, &huge), None);
    let mut reverse = wins[..12].to_vec();
    reverse.extend_from_slice(&[3, b'l', b'a', b'n']);
    match Data::try_from_bytes(0xFF02, &reverse).unwrap() {
        Data::WinsReverseRecord(w) => assert_eq!(w.name_result_domain, "lan"),
        _ => panic!("not a reverse WINS record"),
    }
    reverse.push(0);
    assert_eq!(Data::try_from_bytes(0xFF02, &reverse), None);
}
