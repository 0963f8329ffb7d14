use ad_values::values::structs::trust::{TrustForestTrustInfo, TrustInfoRecord};

#[test]
fn test_forest_trust_info() {
    const DATA: [u8; 185] = [
            0x01, 0x00, 0x00, 0x00, 0x03, 0x00, 0x00, 0x00, 0x24, 0x00, 0x00, 0x00, 0x00, 0x00, 0x00, 0x00,
            0xEB, 0x53, 0xBF, 0x01, 0x80, 0xA9, 0xD4, 0x24, 0x00, 0x13, 0x00, 0x00, 0x00, 0x61, 0x64, 0x74,
            0x65, 0x73, 0x74, 0x73, 0x2E, 0x65, 0x78, 0x61, 0x6D, 0x70, 0x6C, 0x65, 0x2E, 0x63, 0x6F, 0x6D,
            0x4A, 0x00, 0x00, 0x00, 0x00, 0x00, 0x00, 0x00, 0xEB, 0x53, 0xBF, 0x01, 0x80, 0xA9, 0xD4, 0x24,
            0x02, 0x18, 0x00, 0x00, 0x00, 0x01, 0x04, 0x00, 0x00, 0x00, 0x00, 0x00, 0x05, 0x15, 0x00, 0x00,
            0x00, 0x4D, 0xE6, 0x40, 0xBB, 0xD6, 0x87, 0x27, 0x23, 0xB7, 0x60, 0x93, 0x1B, 0x13, 0x00, 0x00,
            0x00, 0x61, 0x64, 0x74, 0x65, 0x73, 0x74, 0x73, 0x2E, 0x65, 0x78, 0x61, 0x6D, 0x70, 0x6C, 0x65,
            0x2E, 0x63, 0x6F, 0x6D, 0x06, 0x00, 0x00, 0x00, 0x41, 0x44, 0x54, 0x45, 0x53, 0x54, 0x37, 0x00,
            0x00, 0x00, 0x00, 0x00, 0x00, 0x00, 0xEB, 0x53, 0xBF, 0x01, 0x80, 0xA9, 0xD4, 0x24, 0x04, 0x26,
            0x00, 0x00, 0x00, 0x04, 0x00, 0x00, 0x00, 0x00, 0x13, 0x00, 0x00, 0x00, 0x61, 0x64, 0x74, 0x65,
            0x73, 0x74, 0x73, 0x2E, 0x65, 0x78, 0x61, 0x6D, 0x70, 0x6C, 0x65, 0x2E, 0x63, 0x6F, 0x6D, 0x06,
            0x00, 0x00, 0x00, 0x41, 0x44, 0x54, 0x45, 0x53, 0x54,
        ];
    let trust_info = TrustForestTrustInfo::try_from_bytes(&DATA).unwrap();
    assert_eq!(trust_info.version, 1);
    assert_eq!(trust_info.records.len(), 3);
    if let TrustInfoRecord::TopLevelName(tln) = &trust_info.records[0] {
        assert_eq!(tln.flags.bits(), 0);
        assert_eq!(tln.timestamp.timestamp(), Some(946684799));
        assert_eq!(tln.name, "adtests.example.com");
    } else {
        panic!("records[0] is not a TopLevelName record");
    }
    if let TrustInfoRecord::DomainInfo(di) = &trust_info.records[1] {
        assert_eq!(di.flags.bits(), 0);
        assert_eq!(di.timestamp.timestamp(), Some(946684799));
        assert_eq!(di.sid.version, 1);
        assert_eq!(di.sid.authority, 5);
        assert_eq!(di.sid.subauthorities.len(), 4);
        assert_eq!(di.sid.subauthorities[0], 21);
        assert_eq!(di.sid.subauthorities[1], 3141592653);
        assert_eq!(di.sid.subauthorities[2], 589793238);
        assert_eq!(di.sid.subauthorities[3], 462643383);
        assert_eq!(di.dns_name, "adtests.example.com");
        assert_eq!(di.netbios_name, "ADTEST");
    } else {
        panic!("records[1] is not a DomainInfo record");
    }
    if let TrustInfoRecord::ScannerInfo(si) = &trust_info.records[2] {
        assert_eq!(si.flags, 0);
        assert_eq!(si.timestamp.timestamp(), Some(946684799));
        assert_eq!(si.sid, None);
        assert_eq!(si.dns_name, "adtests.example.com");
        assert_eq!(si.netbios_name, "ADTEST");
    } else {
        panic!("records[2] is not a ScannerInfo record");
    }
}

fn record(kind: u8, body: &[u8]) -> Vec<u8> {
    let mut out = Vec::new();
    out.extend_from_slice(&((13 + body.len()) as u32).to_le_bytes());
    out.extend_from_slice(&5u32.to_le_bytes());
    // the upper half of the time comes first
    out.extend_from_slice(&0x01BF_53EBu32.to_le_bytes());
    out.extend_from_slice(&0x24D4_A980u32.to_le_bytes());
    out.push(kind);
    out.extend_from_slice(body);
    out
}

#[test]
fn trust_record_of_an_unknown_type_keeps_its_bytes() {
    let bytes = record(9, &[6, 0, 0, 0, 0xAA, 0xBB, 0xCC, 0xDD, 1, 2]);
    assert_eq!(TrustInfoRecord::get_length(&bytes), Some(bytes.len()));
    match TrustInfoRecord::try_from_bytes(&bytes).unwrap() {
        TrustInfoRecord::Other(other) => {
            assert_eq!(other.record_type, 9);
            assert_eq!(other.binary_info.flags, 5);
            assert_eq!(other.binary_info.sub_record_type, 0xDDCC_BBAA);
            assert_eq!(other.binary_info.binary_data, vec![1, 2]);
            assert_eq!(other.binary_info.timestamp.seconds, 12_591_158_399);
            assert_eq!(other.binary_info.timestamp.nanoseconds, 0);
        },
        _ => panic!("not a record of another type"),
    }
    match TrustInfoRecord::try_from_bytes(&record(3, &[4, 0, 0, 0, 1, 0, 0, 0])).unwrap() {
        TrustInfoRecord::BinaryInfo(info) => {
            assert_eq!(info.sub_record_type, 1);
            assert_eq!(info.binary_data, Vec::<u8>::new());
        },
        _ => panic!("not a binary record"),
    }
    // the data must hold the subtype
    assert_eq!(TrustInfoRecord::try_from_bytes(&record(3, &[3, 0, 0, 0, 1, 0, 0])), None);
}

#[test]
fn trust_records_are_rejected_on_any_mismatch() {
    let good = record(0, &[3, 0, 0, 0, b'a', b'.', b'b']);
    match TrustInfoRecord::try_from_bytes(&good).unwrap() {
        TrustInfoRecord::TopLevelName(name) => {
            assert_eq!(name.name, "a.b");
            assert_eq!(name.flags.bits(), 5);
        },
        _ => panic!("not a top level name"),
    }
    match TrustInfoRecord::try_from_bytes(&record(1, &[0, 0, 0, 0])).unwrap() {
        TrustInfoRecord::TopLevelNameEx(name) => assert_eq!(name.name, ""),
        _ => panic!("not a top level name"),
    }
    // a byte after the name
    assert_eq!(TrustInfoRecord::try_from_bytes(&record(0, &[3, 0, 0, 0, b'a', b'.', b'b', 0])), None);
    // the name is cut short
    assert_eq!(TrustInfoRecord::try_from_bytes(&record(0, &[3, 0, 0, 0, b'a', b'.'])), None);
    // the name is no UTF-8
    assert_eq!(TrustInfoRecord::try_from_bytes(&record(0, &[1, 0, 0, 0, 0xFF])), None);
    // the length field does not match
    let mut wrong = good.clone();
    wrong[0] += 1;
    assert_eq!(TrustInfoRecord::try_from_bytes(&wrong), None);
    // too short for a header
    assert_eq!(TrustInfoRecord::try_from_bytes(&good[..16]), None);
    assert_eq!(TrustInfoRecord::get_length(&good[..3]), None);
}

#[test]
fn trust_info_must_be_filled_by_its_records() {
    let one = record(0, &[1, 0, 0, 0, b'x']);
    let mut data = vec![1, 0, 0, 0, 1, 0, 0, 0];
    data.extend_from_slice(&one);
    assert_eq!(TrustForestTrustInfo::try_from_bytes(&data).unwrap().records.len(), 1);
    // a byte after the last record
    let mut long = data.clone();
    long.push(0);
    assert_eq!(TrustForestTrustInfo::try_from_bytes(&long), None);
    // more records announced than present
    let mut more = data.clone();
    more[4] = 2;
    assert_eq!(TrustForestTrustInfo::try_from_bytes(&more), None);
    // a record that reaches beyond the buffer
    assert_eq!(TrustForestTrustInfo::try_from_bytes(&data[..data.len() - 1]), None);
    // no record at all
    let empty = TrustForestTrustInfo::try_from_bytes(&[7, 0, 0, 0, 0, 0, 0, 0]).unwrap();
    assert_eq!(empty.version, 7);
    assert_eq!(empty.records.len(), 0);
    assert_eq!(TrustForestTrustInfo::try_from_bytes(&[7, 0, 0, 0, 0, 0, 0]), None);
    // a count that no buffer can hold
    assert_eq!(TrustForestTrustInfo::try_from_bytes(&[1, 0, 0, 0, 0xFF, 0xFF, 0xFF, 0xFF]), None);
}
