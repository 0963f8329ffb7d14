use ad_values::guid::Guid;
use ad_values::values::structs::replication::{
    DsaRpcInst, DsaSignatureState1, MtxAddr, OtherDra, Repl2Cursor, ReplTimes, ReplUpToDateVector2,
    RepsFromTo, UsnVector,
};
use uuid::Uuid;

fn guid_of(text: &[u8]) -> Guid {
    Guid { bytes: Uuid::try_parse_ascii(text).unwrap().into_bytes() }
}

#[test]
fn test_reps_from_to() {
    const DATA1: [u8; 524] = [
            0x02, 0x00, 0x00, 0x00, 0x00, 0x00, 0x00, 0x00, 0x0c, 0x02, 0x00, 0x00, 0x00, 0x00, 0x00, 0x00,
            0x9b, 0x0e, 0x43, 0x1d, 0x03, 0x00, 0x00, 0x00, 0x9b, 0x0e, 0x43, 0x1d, 0x03, 0x00, 0x00, 0x00,
            0x00, 0x00, 0x00, 0x00, 0xd8, 0x00, 0x00, 0x00, 0x34, 0x01, 0x00, 0x00, 0x70, 0x00, 0x00, 0x00,
            0x11, 0x11, 0x11, 0x11, 0x11, 0x11, 0x11, 0x11, 0x11, 0x11, 0x11, 0x11, 0x11, 0x11, 0x11, 0x11,
            0x11, 0x11, 0x11, 0x11, 0x11, 0x11, 0x11, 0x11, 0x11, 0x11, 0x11, 0x11, 0x11, 0x11, 0x11, 0x11,
            0x11, 0x11, 0x11, 0x11, 0x11, 0x11, 0x11, 0x11, 0x11, 0x11, 0x11, 0x11, 0x11, 0x11, 0x11, 0x11,
            0x11, 0x11, 0x11, 0x11, 0x11, 0x11, 0x11, 0x11, 0x11, 0x11, 0x11, 0x11, 0x11, 0x11, 0x11, 0x11,
            0x11, 0x11, 0x11, 0x11, 0x11, 0x11, 0x11, 0x11, 0x11, 0x11, 0x11, 0x11, 0x11, 0x11, 0x11, 0x11,
            0x11, 0x11, 0x11, 0x11, 0x00, 0x00, 0x00, 0x00, 0x91, 0x6b, 0xc4, 0x3b, 0x00, 0x00, 0x00, 0x00,
            0x00, 0x00, 0x00, 0x00, 0x00, 0x00, 0x00, 0x00, 0x91, 0x6b, 0xc4, 0x3b, 0x00, 0x00, 0x00, 0x00,
            0x70, 0x32, 0xef, 0x5f, 0x34, 0x39, 0xf3, 0x46, 0x8b, 0x63, 0xb5, 0xfc, 0x9c, 0x55, 0xf9, 0x81,
            0x0a, 0xa1, 0x3a, 0x74, 0xb6, 0x1f, 0x11, 0x45, 0xa8, 0xfe, 0x94, 0xe4, 0xc3, 0x78, 0x77, 0x8e,
            0x00, 0x00, 0x00, 0x00, 0x00, 0x00, 0x00, 0x00, 0x00, 0x00, 0x00, 0x00, 0x00, 0x00, 0x00, 0x00,
            0x00, 0x00, 0x00, 0x00, 0x00, 0x00, 0x00, 0x00, 0x34, 0x01, 0x00, 0x00, 0x18, 0x00, 0x00, 0x00,
            0x00, 0x00, 0x00, 0x00, 0x98, 0x00, 0x00, 0x00, 0x00, 0x00, 0x00, 0x00, 0x00, 0x00, 0x00, 0x00,
            0x35, 0x00, 0x66, 0x00, 0x65, 0x00, 0x66, 0x00, 0x33, 0x00, 0x32, 0x00, 0x37, 0x00, 0x30, 0x00,
            0x2d, 0x00, 0x33, 0x00, 0x39, 0x00, 0x33, 0x00, 0x34, 0x00, 0x2d, 0x00, 0x34, 0x00, 0x36, 0x00,
            0x66, 0x00, 0x33, 0x00, 0x2d, 0x00, 0x38, 0x00, 0x62, 0x00, 0x36, 0x00, 0x33, 0x00, 0x2d, 0x00,
            0x62, 0x00, 0x35, 0x00, 0x66, 0x00, 0x63, 0x00, 0x39, 0x00, 0x63, 0x00, 0x35, 0x00, 0x35, 0x00,
            0x66, 0x00, 0x39, 0x00, 0x38, 0x00, 0x31, 0x00, 0x2e, 0x00, 0x5f, 0x00, 0x6d, 0x00, 0x73, 0x00,
            0x64, 0x00, 0x63, 0x00, 0x73, 0x00, 0x2e, 0x00, 0x61, 0x00, 0x64, 0x00, 0x74, 0x00, 0x65, 0x00,
            0x73, 0x00, 0x74, 0x00, 0x73, 0x00, 0x2e, 0x00, 0x65, 0x00, 0x78, 0x00, 0x61, 0x00, 0x6d, 0x00,
            0x70, 0x00, 0x6c, 0x00, 0x65, 0x00, 0x2e, 0x00, 0x63, 0x00, 0x6f, 0x00, 0x6d, 0x00, 0x00, 0x00,
            0x35, 0x00, 0x66, 0x00, 0x65, 0x00, 0x66, 0x00, 0x33, 0x00, 0x32, 0x00, 0x37, 0x00, 0x30, 0x00,
            0x2d, 0x00, 0x33, 0x00, 0x39, 0x00, 0x33, 0x00, 0x34, 0x00, 0x2d, 0x00, 0x34, 0x00, 0x36, 0x00,
            0x66, 0x00, 0x33, 0x00, 0x2d, 0x00, 0x38, 0x00, 0x62, 0x00, 0x36, 0x00, 0x33, 0x00, 0x2d, 0x00,
            0x62, 0x00, 0x35, 0x00, 0x66, 0x00, 0x63, 0x00, 0x39, 0x00, 0x63, 0x00, 0x35, 0x00, 0x35, 0x00,
            0x66, 0x00, 0x39, 0x00, 0x38, 0x00, 0x31, 0x00, 0x2e, 0x00, 0x5f, 0x00, 0x6d, 0x00, 0x73, 0x00,
            0x64, 0x00, 0x63, 0x00, 0x73, 0x00, 0x2e, 0x00, 0x61, 0x00, 0x64, 0x00, 0x74, 0x00, 0x65, 0x00,
            0x73, 0x00, 0x74, 0x00, 0x73, 0x00, 0x2e, 0x00, 0x65, 0x00, 0x78, 0x00, 0x61, 0x00, 0x6d, 0x00,
            0x70, 0x00, 0x6c, 0x00, 0x65, 0x00, 0x2e, 0x00, 0x63, 0x00, 0x6f, 0x00, 0x6d, 0x00, 0x00, 0x00,
            0x00, 0x00, 0x00, 0x00, 0x00, 0x00, 0x00, 0x00, 0x00, 0x00, 0x00, 0x00, 0x00, 0x00, 0x00, 0x00,
            0x00, 0x00, 0x00, 0x00, 0x00, 0x00, 0x00, 0x00, 0x00, 0x00, 0x00, 0x00,
        ];

    let reps1 = RepsFromTo::try_from_bytes(&DATA1).unwrap();
    assert_eq!(reps1.version, 2);
    assert_eq!(reps1.consecutive_failures, 0);
    assert_eq!(reps1.time_last_success.timestamp(), Some(1731362203));
    assert_eq!(reps1.time_last_attempt.timestamp(), Some(1731362203));
    assert_eq!(reps1.result_last_attempt, 0);
    assert_eq!(reps1.replica_flags, 112);
    assert_eq!(reps1.usn_vec.usn_high_obj_update, 1002728337);
    assert_eq!(reps1.usn_vec.usn_high_prop_update, 1002728337);
    assert_eq!(reps1.dsa_object, guid_of(b"5fef3270-3934-46f3-8b63-b5fc9c55f981"));
    assert_eq!(reps1.invocation_id, guid_of(b"743aa10a-1fb6-4511-a8fe-94e4c378778e"));
    assert_eq!(reps1.transport_object, Guid { bytes: Uuid::from_u128(0).into_bytes() });

    let reps1_other_dra = match reps1.other_dra {
        OtherDra::V1(_) => panic!("V1 DRA?!"),
        OtherDra::V2(v2) => v2,
    };
    assert_eq!(reps1_other_dra.server.as_deref(), Some("5fef3270-3934-46f3-8b63-b5fc9c55f981._msdcs.adtests.example.com"));
    assert_eq!(reps1_other_dra.annotation, None);
    assert_eq!(reps1_other_dra.instance.as_deref(), Some("5fef3270-3934-46f3-8b63-b5fc9c55f981._msdcs.adtests.example.com"));
    assert_eq!(reps1_other_dra.instance_guid, None);

    const DATA2: [u8; 524] = [
            0x02, 0x00, 0x00, 0x00, 0x00, 0x00, 0x00, 0x00, 0x0c, 0x02, 0x00, 0x00, 0x00, 0x00, 0x00, 0x00,
            0x96, 0x0e, 0x43, 0x1d, 0x03, 0x00, 0x00, 0x00, 0x96, 0x0e, 0x43, 0x1d, 0x03, 0x00, 0x00, 0x00,
            0x00, 0x00, 0x00, 0x00, 0xd8, 0x00, 0x00, 0x00, 0x34, 0x01, 0x00, 0x00, 0x70, 0x00, 0x00, 0x00,
            0x11, 0x11, 0x11, 0x11, 0x11, 0x11, 0x11, 0x11, 0x11, 0x11, 0x11, 0x11, 0x11, 0x11, 0x11, 0x11,
            0x11, 0x11, 0x11, 0x11, 0x11, 0x11, 0x11, 0x11, 0x11, 0x11, 0x11, 0x11, 0x11, 0x11, 0x11, 0x11,
            0x11, 0x11, 0x11, 0x11, 0x11, 0x11, 0x11, 0x11, 0x11, 0x11, 0x11, 0x11, 0x11, 0x11, 0x11, 0x11,
            0x11, 0x11, 0x11, 0x11, 0x11, 0x11, 0x11, 0x11, 0x11, 0x11, 0x11, 0x11, 0x11, 0x11, 0x11, 0x11,
            0x11, 0x11, 0x11, 0x11, 0x11, 0x11, 0x11, 0x11, 0x11, 0x11, 0x11, 0x11, 0x11, 0x11, 0x11, 0x11,
            0x11, 0x11, 0x11, 0x11, 0x00, 0x00, 0x00, 0x00, 0x20, 0x79, 0x35, 0x0e, 0x00, 0x00, 0x00, 0x00,
            0x00, 0x00, 0x00, 0x00, 0x00, 0x00, 0x00, 0x00, 0x20, 0x79, 0x35, 0x0e, 0x00, 0x00, 0x00, 0x00,
            0xe2, 0x8a, 0x65, 0x40, 0x4f, 0x33, 0x1a, 0x46, 0x99, 0xbd, 0x63, 0xa4, 0x2a, 0x21, 0xed, 0xc4,
            0x41, 0x4a, 0xe0, 0x93, 0x77, 0x48, 0x3b, 0x48, 0xa8, 0x00, 0x06, 0x22, 0x38, 0x72, 0xc6, 0xef,
            0x00, 0x00, 0x00, 0x00, 0x00, 0x00, 0x00, 0x00, 0x00, 0x00, 0x00, 0x00, 0x00, 0x00, 0x00, 0x00,
            0x00, 0x00, 0x00, 0x00, 0x00, 0x00, 0x00, 0x00, 0x34, 0x01, 0x00, 0x00, 0x18, 0x00, 0x00, 0x00,
            0x00, 0x00, 0x00, 0x00, 0x98, 0x00, 0x00, 0x00, 0x00, 0x00, 0x00, 0x00, 0x00, 0x00, 0x00, 0x00,
            0x34, 0x00, 0x30, 0x00, 0x36, 0x00, 0x35, 0x00, 0x38, 0x00, 0x61, 0x00, 0x65, 0x00, 0x32, 0x00,
            0x2d, 0x00, 0x33, 0x00, 0x33, 0x00, 0x34, 0x00, 0x66, 0x00, 0x2d, 0x00, 0x34, 0x00, 0x36, 0x00,
            0x31, 0x00, 0x61, 0x00, 0x2d, 0x00, 0x39, 0x00, 0x39, 0x00, 0x62, 0x00, 0x64, 0x00, 0x2d, 0x00,
            0x36, 0x00, 0x33, 0x00, 0x61, 0x00, 0x34, 0x00, 0x32, 0x00, 0x61, 0x00, 0x32, 0x00, 0x31, 0x00,
            0x65, 0x00, 0x64, 0x00, 0x63, 0x00, 0x34, 0x00, 0x2e, 0x00, 0x5f, 0x00, 0x6d, 0x00, 0x73, 0x00,
            0x64, 0x00, 0x63, 0x00, 0x73, 0x00, 0x2e, 0x00, 0x61, 0x00, 0x64, 0x00, 0x74, 0x00, 0x65, 0x00,
            0x73, 0x00, 0x74, 0x00, 0x73, 0x00, 0x2e, 0x00, 0x65, 0x00, 0x78, 0x00, 0x61, 0x00, 0x6d, 0x00,
            0x70, 0x00, 0x6c, 0x00, 0x65, 0x00, 0x2e, 0x00, 0x63, 0x00, 0x6f, 0x00, 0x6d, 0x00, 0x00, 0x00,
            0x34, 0x00, 0x30, 0x00, 0x36, 0x00, 0x35, 0x00, 0x38, 0x00, 0x61, 0x00, 0x65, 0x00, 0x32, 0x00,
            0x2d, 0x00, 0x33, 0x00, 0x33, 0x00, 0x34, 0x00, 0x66, 0x00, 0x2d, 0x00, 0x34, 0x00, 0x36, 0x00,
            0x31, 0x00, 0x61, 0x00, 0x2d, 0x00, 0x39, 0x00, 0x39, 0x00, 0x62, 0x00, 0x64, 0x00, 0x2d, 0x00,
            0x36, 0x00, 0x33, 0x00, 0x61, 0x00, 0x34, 0x00, 0x32, 0x00, 0x61, 0x00, 0x32, 0x00, 0x31, 0x00,
            0x65, 0x00, 0x64, 0x00, 0x63, 0x00, 0x34, 0x00, 0x2e, 0x00, 0x5f, 0x00, 0x6d, 0x00, 0x73, 0x00,
            0x64, 0x00, 0x63, 0x00, 0x73, 0x00, 0x2e, 0x00, 0x61, 0x00, 0x64, 0x00, 0x74, 0x00, 0x65, 0x00,
            0x73, 0x00, 0x74, 0x00, 0x73, 0x00, 0x2e, 0x00, 0x65, 0x00, 0x78, 0x00, 0x61, 0x00, 0x6d, 0x00,
            0x70, 0x00, 0x6c, 0x00, 0x65, 0x00, 0x2e, 0x00, 0x63, 0x00, 0x6f, 0x00, 0x6d, 0x00, 0x00, 0x00,
            0x00, 0x00, 0x00, 0x00, 0x00, 0x00, 0x00, 0x00, 0x00, 0x00, 0x00, 0x00, 0x00, 0x00, 0x00, 0x00,
            0x00, 0x00, 0x00, 0x00, 0x00, 0x00, 0x00, 0x00, 0x00, 0x00, 0x00, 0x00,
        ];

    let reps2 = RepsFromTo::try_from_bytes(&DATA2).unwrap();
    assert_eq!(reps2.version, 2);
    assert_eq!(reps2.consecutive_failures, 0);
    assert_eq!(reps2.time_last_success.timestamp(), Some(1731362198));
    assert_eq!(reps2.time_last_attempt.timestamp(), Some(1731362198));
    assert_eq!(reps2.result_last_attempt, 0);
    assert_eq!(reps2.replica_flags, 112);
    assert_eq!(reps2.usn_vec.usn_high_obj_update, 238385440);
    assert_eq!(reps2.usn_vec.usn_high_prop_update, 238385440);
    assert_eq!(reps2.dsa_object, guid_of(b"40658ae2-334f-461a-99bd-63a42a21edc4"));
    assert_eq!(reps2.invocation_id, guid_of(b"93e04a41-4877-483b-a800-06223872c6ef"));
    assert_eq!(reps2.transport_object, Guid { bytes: Uuid::from_u128(0).into_bytes() });

    let reps2_other_dra = match reps2.other_dra {
        OtherDra::V1(_) => panic!("V1 DRA?!"),
        OtherDra::V2(v2) => v2,
    };
    assert_eq!(reps2_other_dra.server.as_deref(), Some("40658ae2-334f-461a-99bd-63a42a21edc4._msdcs.adtests.example.com"));
    assert_eq!(reps2_other_dra.annotation, None);
    assert_eq!(reps2_other_dra.instance.as_deref(), Some("40658ae2-334f-461a-99bd-63a42a21edc4._msdcs.adtests.example.com"));
    assert_eq!(reps2_other_dra.instance_guid, None);
}

#[test]
fn reps_from_to_rejects_short_and_unknown_versions() {
    assert_eq!(RepsFromTo::try_from_bytes(&[]), None);
    assert_eq!(RepsFromTo::try_from_bytes(&[0u8; 211]), None);
    // version 0 and version 3
    let mut data = vec![0u8; 216];
    assert_eq!(RepsFromTo::try_from_bytes(&data), None);
    data[0] = 3;
    assert_eq!(RepsFromTo::try_from_bytes(&data), None);
}

#[test]
fn reps_from_to_version_1_holds_a_name() {
    let mut data = vec![0u8; 216];
    data[0] = 1;
    data[8] = 216; // size
    data[36] = 212; // offset of the address
    data[40] = 4; // length of the address
    data[212] = 3;
    data[213] = b'a';
    data[214] = b'b';
    data[215] = b'c';
    let reps = RepsFromTo::try_from_bytes(&data).unwrap();
    assert_eq!(reps.other_dra, OtherDra::V1(MtxAddr { name: b"abc".to_vec() }));
    // the name does not fit its slice
    data[212] = 4;
    assert_eq!(RepsFromTo::try_from_bytes(&data), None);
    // the address does not lie within the buffer
    data[212] = 3;
    data[40] = 5;
    assert_eq!(RepsFromTo::try_from_bytes(&data), None);
}

#[test]
fn up_to_date_vector_decodes_cursors() {
    let mut data = vec![2, 0, 0, 0, 7, 0, 0, 0, 1, 0, 0, 0, 9, 0, 0, 0];
    data.extend_from_slice(&[
        0x70, 0x32, 0xef, 0x5f, 0x34, 0x39, 0xf3, 0x46, 0x8b, 0x63, 0xb5, 0xfc, 0x9c, 0x55, 0xf9,
        0x81,
    ]);
    data.extend_from_slice(&0x0102_0304_0506_0708u64.to_le_bytes());
    data.extend_from_slice(&13_375_835_803i64.to_le_bytes());
    let vector = ReplUpToDateVector2::try_from_bytes(&data).unwrap();
    assert_eq!(vector.version, 2);
    assert_eq!(vector.reserved1, 7);
    assert_eq!(vector.reserved2, 9);
    assert_eq!(vector.cursors.len(), 1);
    assert_eq!(vector.cursors[0].uuid_dsa, guid_of(b"5fef3270-3934-46f3-8b63-b5fc9c55f981"));
    assert_eq!(vector.cursors[0].usn_high_prop_update, 0x0102_0304_0506_0708);
    assert_eq!(vector.cursors[0].time_last_sync_success.seconds, 13_375_835_803);
    assert_eq!(vector.cursors[0].time_last_sync_success.timestamp(), Some(1731362203));

    // one byte too many, one cursor too few, another version
    let mut long = data.clone();
    long.push(0);
    assert_eq!(ReplUpToDateVector2::try_from_bytes(&long), None);
    assert_eq!(ReplUpToDateVector2::try_from_bytes(&data[..47]), None);
    let mut other = data.clone();
    other[0] = 1;
    assert_eq!(ReplUpToDateVector2::try_from_bytes(&other), None);
    assert_eq!(ReplUpToDateVector2::try_from_bytes(&[]), None);
}

#[test]
fn cursor_with_far_away_time_is_decoded() {
    let mut data = vec![0u8; 24];
    data.extend_from_slice(&i64::MAX.to_le_bytes());
    let cursor = Repl2Cursor::try_from_bytes(&data).unwrap();
    assert_eq!(cursor.time_last_sync_success.seconds, i64::MAX);
    let mut data = vec![0u8; 24];
    data.extend_from_slice(&i64::MIN.to_le_bytes());
    let cursor = Repl2Cursor::try_from_bytes(&data).unwrap();
    assert_eq!(cursor.time_last_sync_success.timestamp(), None);
    assert_eq!(Repl2Cursor::try_from_bytes(&data[..31]), None);
}

#[test]
fn small_replication_records() {
    assert_eq!(ReplTimes::try_from_bytes(&[0x11; 84]).unwrap().times, [0x11; 84]);
    assert_eq!(ReplTimes::try_from_bytes(&[0x11; 83]), None);
    assert_eq!(ReplTimes::try_from_bytes(&[0x11; 85]), None);

    let mut usn = Vec::new();
    usn.extend_from_slice(&1u64.to_le_bytes());
    usn.extend_from_slice(&2u64.to_le_bytes());
    usn.extend_from_slice(&0xFFFF_FFFF_FFFF_FFFFu64.to_le_bytes());
    assert_eq!(
        UsnVector::try_from_bytes(&usn),
        Some(UsnVector {
            usn_high_obj_update: 1,
            usn_reserved: 2,
            usn_high_prop_update: 0xFFFF_FFFF_FFFF_FFFF,
        })
    );
    assert_eq!(UsnVector::try_from_bytes(&usn[..23]), None);

    assert_eq!(MtxAddr::try_from_bytes(&[]), None);
    assert_eq!(MtxAddr::try_from_bytes(&[0]), Some(MtxAddr { name: vec![] }));
    assert_eq!(MtxAddr::try_from_bytes(&[2, 7, 8, 9]), Some(MtxAddr { name: vec![7, 8] }));
    assert_eq!(MtxAddr::try_from_bytes(&[4, 7, 8, 9]), None);
}

#[test]
fn dsa_rpc_inst_is_total() {
    assert_eq!(DsaRpcInst::try_from_bytes(&[]), None);
    assert_eq!(DsaRpcInst::try_from_bytes(&[20, 0, 0]), None);
    // the size exceeds the buffer
    let mut data = vec![0u8; 20];
    data[0] = 21;
    assert_eq!(DsaRpcInst::try_from_bytes(&data), None);
    // all offsets zero: nothing is present
    data[0] = 20;
    assert_eq!(
        DsaRpcInst::try_from_bytes(&data),
        Some(DsaRpcInst { server: None, annotation: None, instance: None, instance_guid: None })
    );
    // a GUID that does not fit
    data[16] = 5;
    assert_eq!(DsaRpcInst::try_from_bytes(&data), None);
    // a text that ends in half a code unit counts as absent
    let mut data = vec![0u8; 23];
    data[0] = 20;
    data[4] = 20;
    data[20] = b'a';
    data[22] = b'b';
    let inst = DsaRpcInst::try_from_bytes(&data).unwrap();
    assert_eq!(inst.server, None);
    // a GUID at an offset
    let mut data = vec![0u8; 36];
    data[0] = 36;
    data[16] = 20;
    data[20..36].copy_from_slice(&[
        0x70, 0x32, 0xef, 0x5f, 0x34, 0x39, 0xf3, 0x46, 0x8b, 0x63, 0xb5, 0xfc, 0x9c, 0x55, 0xf9,
        0x81,
    ]);
    let inst = DsaRpcInst::try_from_bytes(&data).unwrap();
    assert_eq!(inst.instance_guid, Some(guid_of(b"5fef3270-3934-46f3-8b63-b5fc9c55f981")));
}

#[test]
fn dsa_signature_state() {
    assert_eq!(DsaSignatureState1::try_from_bytes(&[]), None);
    assert_eq!(DsaSignatureState1::try_from_bytes(&[1, 0, 0, 0]), None);
    let mut data = vec![0u8; 40];
    data[0] = 1;
    data[4] = 40;
    data[8] = 3;
    data[16] = 0x10;
    data[17] = 0x0E;
    data[24] = 0xFF;
    let state = DsaSignatureState1::try_from_bytes(&data).unwrap();
    assert_eq!(state.version, 1);
    assert_eq!(state.flags, 3);
    assert_eq!(state.padding0, 0);
    assert_eq!(state.backup_error_latency_secs, 3600);
    assert_eq!(state.dsa_guid, guid_of(b"000000ff-0000-0000-0000-000000000000"));
    data[4] = 39;
    assert_eq!(DsaSignatureState1::try_from_bytes(&data), None);
    data[4] = 41;
    assert_eq!(DsaSignatureState1::try_from_bytes(&data), None);
    data[4] = 40;
    data[0] = 2;
    assert_eq!(DsaSignatureState1::try_from_bytes(&data), None);
}
