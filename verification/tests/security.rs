use ad_values::guid::Guid;
use ad_values::values::structs::security::{
    AccessMask, Ace, AceData, AceFlags, Acl, AclRevision, ClaimSecurityAttribute1, ClaimValues,
    MandatoryMask, SecurityDescriptor, SecurityDescriptorControl, Sid, SidParseError,
};

const DOMAIN_SID: [u8; 24] = [
    0x01, 0x04, 0x00, 0x00, 0x00, 0x00, 0x00, 0x05, 0x15, 0x00, 0x00, 0x00, 0x4D, 0xE6, 0x40, 0xBB,
    0xD6, 0x87, 0x27, 0x23, 0xB7, 0x60, 0x93, 0x1B,
];

fn sid(authority: u64, subauthorities: &[u32]) -> Sid {
    Sid { version: 1, authority, subauthorities: subauthorities.to_vec() }
}

fn sid_bytes(authority: u64, subauthorities: &[u32]) -> Vec<u8> {
    let mut out = vec![1, subauthorities.len() as u8];
    out.extend_from_slice(&authority.to_be_bytes()[2..]);
    for s in subauthorities {
        out.extend_from_slice(&s.to_le_bytes());
    }
    out
}

fn ace_bytes(kind: u8, flags: u8, payload: &[u8]) -> Vec<u8> {
    let mut out = vec![kind, flags];
    out.extend_from_slice(&((4 + payload.len()) as u16).to_le_bytes());
    out.extend_from_slice(payload);
    out
}

fn acl_bytes(revision: u8, aces: &[Vec<u8>]) -> Vec<u8> {
    let size: usize = 8 + aces.iter().map(|a| a.len()).sum::<usize>();
    let mut out = vec![revision, 0];
    out.extend_from_slice(&(size as u16).to_le_bytes());
    out.extend_from_slice(&(aces.len() as u16).to_le_bytes());
    out.extend_from_slice(&[0, 0]);
    for a in aces {
        out.extend_from_slice(a);
    }
    out
}

fn descriptor_bytes(control: u16, owner: &[u8], group: &[u8], sacl: &[u8], dacl: &[u8]) -> Vec<u8> {
    let mut out = vec![1, 0];
    out.extend_from_slice(&control.to_le_bytes());
    let mut at: u32 = 20;
    let mut offsets = Vec::new();
    for part in [owner, group, sacl, dacl] {
        if part.is_empty() {
            offsets.push(0u32);
        } else {
            offsets.push(at);
            at += part.len() as u32;
        }
    }
    for o in &offsets {
        out.extend_from_slice(&o.to_le_bytes());
    }
    for part in [owner, group, sacl, dacl] {
        out.extend_from_slice(part);
    }
    out
}

#[test]
fn sid_decodes_from_bytes() {
    let decoded = Sid::try_from_bytes(&DOMAIN_SID).unwrap();
    assert_eq!(decoded, sid(5, &[21, 3141592653, 589793238, 462643383]));
    assert_eq!(Sid::get_length(&DOMAIN_SID), Some(24));
    // the authority is big-endian and has 48 bits
    let wide = Sid::try_from_bytes(&[1, 0, 0x01, 0x02, 0x03, 0x04, 0x05, 0x06]).unwrap();
    assert_eq!(wide.authority, 0x0102_0304_0506);
    assert_eq!(wide.subauthorities.len(), 0);
}

#[test]
fn sid_length_must_match_exactly() {
    assert_eq!(Sid::try_from_bytes(&[]), None);
    assert_eq!(Sid::try_from_bytes(&DOMAIN_SID[..7]), None);
    assert_eq!(Sid::try_from_bytes(&DOMAIN_SID[..23]), None);
    let mut long = DOMAIN_SID.to_vec();
    long.push(0);
    assert_eq!(Sid::try_from_bytes(&long), None);
    // the length of the identifier at the start of a longer buffer is known
    assert_eq!(Sid::get_length(&long), Some(24));
    assert_eq!(Sid::get_length(&DOMAIN_SID[..23]), None);
    // another version
    let mut other = DOMAIN_SID;
    other[0] = 2;
    assert_eq!(Sid::try_from_bytes(&other), None);
    assert_eq!(Sid::get_length(&other), None);
}

#[test]
fn sid_text_scenario() {
    let text = "S-1-5-21-3141592653-589793238-462643383";
    let parsed = Sid::from_str(text).unwrap();
    assert_eq!(parsed.authority, 5);
    assert_eq!(parsed.subauthorities, vec![21, 3141592653, 589793238, 462643383]);
    assert_eq!(parsed.to_string(), text);
}

#[test]
fn sid_text_round_trip() {
    for bytes in [
        DOMAIN_SID.to_vec(),
        sid_bytes(0, &[]),
        sid_bytes(0xFFFF_FFFF_FFFF, &[0, u32::MAX]),
        sid_bytes(5, &[18]),
        sid_bytes(5, &[32, 544]),
    ] {
        let decoded = Sid::try_from_bytes(&bytes).unwrap();
        assert_eq!(Sid::from_str(&decoded.to_string()), Ok(decoded));
    }
    assert_eq!(sid(0xFFFF_FFFF_FFFF, &[0, u32::MAX]).to_string(), "S-1-281474976710655-0-4294967295");
    assert_eq!(sid(0, &[]).to_string(), "S-1-0");
}

#[test]
fn sid_text_errors() {
    assert_eq!(Sid::from_str(""), Err(SidParseError::MissingPrefix));
    assert_eq!(Sid::from_str("s-1-5"), Err(SidParseError::MissingPrefix));
    assert_eq!(Sid::from_str("S"), Err(SidParseError::MissingPrefix));
    assert_eq!(Sid::from_str("S-"), Err(SidParseError::NotVersion1));
    assert_eq!(Sid::from_str("S-2-5"), Err(SidParseError::NotVersion1));
    assert_eq!(Sid::from_str("S-01-5"), Err(SidParseError::NotVersion1));
    assert_eq!(Sid::from_str("S-1"), Err(SidParseError::NoAuthority));
    assert_eq!(Sid::from_str("S-1-"), Err(SidParseError::NotANumber));
    assert_eq!(Sid::from_str("S-1-5-"), Err(SidParseError::NotANumber));
    assert_eq!(Sid::from_str("S-1-5--3"), Err(SidParseError::NotANumber));
    assert_eq!(Sid::from_str("S-1-x"), Err(SidParseError::NotANumber));
    assert_eq!(Sid::from_str("S-1-5-2\u{661}"), Err(SidParseError::NotANumber));
    assert_eq!(Sid::from_str("S-1-18446744073709551616"), Err(SidParseError::NotANumber));
    assert_eq!(Sid::from_str("S-1-281474976710656"), Err(SidParseError::AuthorityTooLarge));
    assert_eq!(Sid::from_str("S-1-18446744073709551615"), Err(SidParseError::AuthorityTooLarge));
    assert_eq!(Sid::from_str("S-1-5-4294967296"), Err(SidParseError::SubauthorityTooLarge));
    // the first error counts
    assert_eq!(Sid::from_str("S-1-281474976710656-x"), Err(SidParseError::AuthorityTooLarge));
    assert_eq!(Sid::from_str("S-1-x-4294967296"), Err(SidParseError::NotANumber));
    assert_eq!(SidParseError::NotVersion1.message(), "not a version 1 SID");
    assert_eq!(SidParseError::NoAuthority.message(), "no top authority specified");
}

#[test]
fn sid_text_accepts_what_number_parsing_accepts() {
    assert_eq!(Sid::from_str("S-1-+5-007"), Ok(sid(5, &[7])));
    assert_eq!(Sid::from_str("S-1-281474976710655-4294967295"), Ok(sid(0xFFFF_FFFF_FFFF, &[u32::MAX])));
    assert_eq!(Sid::from_str("S-1-0"), Ok(sid(0, &[])));
}

#[test]
fn well_known_sids_have_aliases() {
    assert_eq!(sid(1, &[0]).as_well_known_sddl_sid_string(), Some("WD"));
    assert_eq!(sid(3, &[4]).as_well_known_sddl_sid_string(), Some("OW"));
    assert_eq!(sid(5, &[11]).as_well_known_sddl_sid_string(), Some("AU"));
    assert_eq!(sid(5, &[18]).as_well_known_sddl_sid_string(), Some("SY"));
    assert_eq!(sid(5, &[32, 544]).as_well_known_sddl_sid_string(), Some("BA"));
    assert_eq!(sid(5, &[32, 584]).as_well_known_sddl_sid_string(), Some("HO"));
    assert_eq!(sid(15, &[2, 1]).as_well_known_sddl_sid_string(), Some("AC"));
    assert_eq!(sid(16, &[8448]).as_well_known_sddl_sid_string(), Some("MP"));
    assert_eq!(sid(18, &[2]).as_well_known_sddl_sid_string(), Some("SS"));
    // none for identifiers that are relative to a domain, nor for others
    assert_eq!(sid(5, &[21, 1, 2, 3, 512]).as_well_known_sddl_sid_string(), None);
    assert_eq!(sid(5, &[32, 557]).as_well_known_sddl_sid_string(), None);
    assert_eq!(sid(5, &[32]).as_well_known_sddl_sid_string(), None);
    assert_eq!(sid(5, &[]).as_well_known_sddl_sid_string(), None);
    assert_eq!(sid(2, &[0]).as_well_known_sddl_sid_string(), None);
    assert_eq!(Sid { version: 2, authority: 1, subauthorities: vec![0] }.as_well_known_sddl_sid_string(), None);
    assert_eq!(sid(5, &[18]).to_sddl_sid_string(), "SY");
    assert_eq!(sid(5, &[21, 7]).to_sddl_sid_string(), "S-1-5-21-7");
}

#[test]
fn masks_know_their_bits() {
    let mask = AccessMask::from(0x0002_0014);
    assert!(mask.contains(AccessMask::READ_CONTROL));
    assert!(mask.contains(AccessMask::DS_READ_PROP));
    assert!(!mask.contains(AccessMask::DS_WRITE_PROP));
    assert!(mask.intersects(AccessMask::DS_WRITE_PROP | AccessMask::DS_READ_PROP));
    assert!(mask.is_truncated());
    let unknown = AccessMask::from(0x8002_0014);
    assert!(!unknown.is_truncated());
    assert_eq!(unknown.truncate(), mask);
    assert_eq!(unknown.bits(), 0x8002_0014);
    assert_eq!(AccessMask::ALL, 0x000F_01FF);
    assert_eq!(AceFlags::ALL, 0xDF);
    assert_eq!(MandatoryMask::ALL, 7);
    assert_eq!(SecurityDescriptorControl::ALL, 0xFF3F);
    assert_eq!(SecurityDescriptor::UNWRITABLE, SecurityDescriptorControl::OWNER_DEFAULTED
        | SecurityDescriptorControl::GROUP_DEFAULTED | SecurityDescriptorControl::DACL_DEFAULTED
        | SecurityDescriptorControl::SACL_DEFAULTED | SecurityDescriptorControl::RM_CONTROL_VALID);
    assert_eq!(AclRevision::from_base_type(2), AclRevision::Revision);
    assert_eq!(AclRevision::from_base_type(4), AclRevision::Ds);
    assert_eq!(AclRevision::from_base_type(3), AclRevision::Other(3));
    assert_eq!(AclRevision::Other(9).to_base_type(), 9);
    assert_eq!(AclRevision::Ds.to_base_type(), 4);
}

#[test]
fn ace_with_mask_and_sid() {
    let mut payload = 0x0002_0014u32.to_le_bytes().to_vec();
    payload.extend_from_slice(&sid_bytes(5, &[11]));
    let bytes = ace_bytes(0x00, 0x02, &payload);
    assert_eq!(Ace::get_length(&bytes), Some(20));
    let ace = Ace::try_from_bytes(&bytes).unwrap();
    assert_eq!(ace.flags, AceFlags::from(0x02));
    assert_eq!(
        ace.data,
        AceData::AccessAllowed { mask: AccessMask::from(0x0002_0014), sid: sid(5, &[11]) }
    );
    assert_eq!(ace.application_data, Vec::<u8>::new());
    assert_eq!(ace.data.access_mask(), Some(AccessMask::from(0x0002_0014)));
    assert_eq!(ace.data.sid(), Some(&sid(5, &[11])));
    assert_eq!(ace.data.object_guid(), None);
    assert_eq!(ace.data.inherit_object_guid(), None);
    assert_eq!(ace.try_to_string().unwrap(), "(A;CI;LCRPRC;;;AU)");

    // what follows the SID is application data, and cannot be written down
    payload.extend_from_slice(&[1, 2, 3]);
    let ace = Ace::try_from_bytes(&ace_bytes(0x01, 0, &payload)).unwrap();
    assert_eq!(ace.application_data, vec![1, 2, 3]);
    assert!(matches!(ace.data, AceData::AccessDenied { .. }));
    assert_eq!(ace.try_to_string(), None);
}

#[test]
fn ace_types_decode_into_their_variants() {
    let mut payload = 1u32.to_le_bytes().to_vec();
    payload.extend_from_slice(&sid_bytes(1, &[0]));
    let data = |kind: u8| Ace::try_from_bytes(&ace_bytes(kind, 0, &payload)).unwrap().data;
    assert!(matches!(data(0x00), AceData::AccessAllowed { .. }));
    assert!(matches!(data(0x01), AceData::AccessDenied { .. }));
    assert!(matches!(data(0x02), AceData::SystemAudit { .. }));
    assert!(matches!(data(0x09), AceData::AccessAllowedCallback { .. }));
    assert!(matches!(data(0x0A), AceData::AccessDeniedCallback { .. }));
    assert!(matches!(data(0x0D), AceData::SystemAuditCallback { .. }));
    assert!(matches!(data(0x13), AceData::SystemScopedPolicyId { .. }));
    assert_eq!(
        data(0x11),
        AceData::SystemMandatoryLabel { mask: MandatoryMask::from(1), sid: sid(1, &[0]) }
    );
    assert_eq!(data(0x11).access_mask(), None);
    assert_eq!(data(0x03), AceData::Other { kind: 3 });
    assert_eq!(data(0xFF), AceData::Other { kind: 0xFF });
    assert_eq!(data(0xFF).sid(), None);
    let other = Ace::try_from_bytes(&ace_bytes(0x04, 0x10, &payload)).unwrap();
    assert_eq!(other.application_data, payload);
    assert_eq!(other.try_to_string(), None);
    let mut object = 1u32.to_le_bytes().to_vec();
    object.extend_from_slice(&0u32.to_le_bytes());
    object.extend_from_slice(&sid_bytes(1, &[0]));
    let data = |kind: u8| Ace::try_from_bytes(&ace_bytes(kind, 0, &object)).unwrap().data;
    assert!(matches!(data(0x05), AceData::AccessAllowedObject { .. }));
    assert!(matches!(data(0x06), AceData::AccessDeniedObject { .. }));
    assert!(matches!(data(0x07), AceData::SystemAuditObject { .. }));
    assert!(matches!(data(0x0B), AceData::AccessAllowedCallbackObject { .. }));
    assert!(matches!(data(0x0C), AceData::AccessDeniedCallbackObject { .. }));
    assert!(matches!(data(0x0F), AceData::SystemAuditCallbackObject { .. }));
}

#[test]
fn object_ace_holds_up_to_two_guids() {
    let object: [u8; 16] = [
        0x70, 0x32, 0xef, 0x5f, 0x34, 0x39, 0xf3, 0x46, 0x8b, 0x63, 0xb5, 0xfc, 0x9c, 0x55, 0xf9,
        0x81,
    ];
    let inherited: [u8; 16] = [
        0x0a, 0xa1, 0x3a, 0x74, 0xb6, 0x1f, 0x11, 0x45, 0xa8, 0xfe, 0x94, 0xe4, 0xc3, 0x78, 0x77,
        0x8e,
    ];
    let build = |flags: u32| {
        let mut payload = 0x0000_0100u32.to_le_bytes().to_vec();
        payload.extend_from_slice(&flags.to_le_bytes());
        if flags & 1 != 0 {
            payload.extend_from_slice(&object);
        }
        if flags & 2 != 0 {
            payload.extend_from_slice(&inherited);
        }
        payload.extend_from_slice(&sid_bytes(5, &[10]));
        ace_bytes(0x05, 0x12, &payload)
    };
    let both = Ace::try_from_bytes(&build(3)).unwrap();
    assert_eq!(
        both.data.object_guid().unwrap().to_string(),
        "5fef3270-3934-46f3-8b63-b5fc9c55f981"
    );
    assert_eq!(
        both.data.inherit_object_guid().unwrap().to_string(),
        "743aa10a-1fb6-4511-a8fe-94e4c378778e"
    );
    assert_eq!(
        both.try_to_string().unwrap(),
        "(OA;CIID;CR;5fef3270-3934-46f3-8b63-b5fc9c55f981;743aa10a-1fb6-4511-a8fe-94e4c378778e;PS)"
    );
    let first = Ace::try_from_bytes(&build(1)).unwrap();
    assert_eq!(first.data.inherit_object_guid(), None);
    assert_eq!(
        first.try_to_string().unwrap(),
        "(OA;CIID;CR;5fef3270-3934-46f3-8b63-b5fc9c55f981;;PS)"
    );
    let second = Ace::try_from_bytes(&build(2)).unwrap();
    assert_eq!(second.data.object_guid(), None);
    assert_eq!(
        second.try_to_string().unwrap(),
        "(OA;CIID;CR;;743aa10a-1fb6-4511-a8fe-94e4c378778e;PS)"
    );
    let none = Ace::try_from_bytes(&build(0)).unwrap();
    assert_eq!(none.try_to_string().unwrap(), "(OA;CIID;CR;;;PS)");
    // other bits of the object flags are kept and announce nothing
    match Ace::try_from_bytes(&build(0xF0)).unwrap().data {
        AceData::AccessAllowedObject { flags, object_type, inherited_object_type, .. } => {
            assert_eq!(flags, 0xF0);
            assert_eq!(object_type, None);
            assert_eq!(inherited_object_type, None);
        },
        _ => panic!("not an object entry"),
    }
    // a GUID that is announced must be there
    let mut short = build(3);
    short.truncate(4 + 8 + 16 + 8);
    short[2] = short.len() as u8;
    assert_eq!(Ace::try_from_bytes(&short), None);
}

#[test]
fn ace_is_rejected_on_any_mismatch() {
    let mut payload = 1u32.to_le_bytes().to_vec();
    payload.extend_from_slice(&sid_bytes(5, &[11]));
    let good = ace_bytes(0, 0, &payload);
    assert!(Ace::try_from_bytes(&good).is_some());
    assert_eq!(Ace::try_from_bytes(&[]), None);
    assert_eq!(Ace::try_from_bytes(&good[..3]), None);
    assert_eq!(Ace::get_length(&good[..3]), None);
    // the size field does not give the length
    assert_eq!(Ace::try_from_bytes(&good[..19]), None);
    let mut long = good.clone();
    long.push(0);
    assert_eq!(Ace::try_from_bytes(&long), None);
    // no room for the mask, or for the SID
    assert_eq!(Ace::try_from_bytes(&[0, 0, 6, 0, 1, 0]), None);
    assert_eq!(Ace::try_from_bytes(&[0, 0, 8, 0, 1, 0, 0, 0]), None);
    assert_eq!(Ace::try_from_bytes(&ace_bytes(0, 0, &payload[..payload.len() - 1])), None);
    // an entry of another type may be empty
    assert_eq!(
        Ace::try_from_bytes(&[0x20, 0, 4, 0]),
        Some(Ace { flags: AceFlags::from(0), data: AceData::Other { kind: 0x20 }, application_data: vec![] })
    );
}

#[test]
fn unknown_bits_take_the_text_away() {
    let build = |kind: u8, flags: u8, mask: u32| {
        let mut payload = mask.to_le_bytes().to_vec();
        payload.extend_from_slice(&sid_bytes(5, &[11]));
        Ace::try_from_bytes(&ace_bytes(kind, flags, &payload)).unwrap()
    };
    assert_eq!(build(0, 0, 0).try_to_string().unwrap(), "(A;;;;;AU)");
    assert_eq!(
        build(2, 0xDF, 0x000F_01FF).try_to_string().unwrap(),
        "(AU;CIOINPIOIDSAFA;CCDCLCSWRPWPDTLOCRSDRCWDWO;;;AU)"
    );
    assert_eq!(build(0x11, 0, 7).try_to_string().unwrap(), "(ML;;NRNWNX;;;AU)");
    // flipping on any bit without a code
    assert_eq!(build(0, 0x20, 0).try_to_string(), None);
    for bit in [0x200u32, 0x8000, 0x0010_0000, 0x1000_0000, 0x8000_0000] {
        assert_eq!(build(0, 0, 0x0002_0014 | bit).try_to_string(), None);
    }
    assert_eq!(build(0x11, 0, 1 | 8).try_to_string(), None);
    // two types have no code
    let mut object = 1u32.to_le_bytes().to_vec();
    object.extend_from_slice(&0u32.to_le_bytes());
    object.extend_from_slice(&sid_bytes(5, &[11]));
    assert_eq!(Ace::try_from_bytes(&ace_bytes(0x0C, 0, &object)).unwrap().try_to_string(), None);
    assert_eq!(Ace::try_from_bytes(&ace_bytes(0x0F, 0, &object)).unwrap().try_to_string(), None);
    assert_eq!(
        Ace::try_from_bytes(&ace_bytes(0x0B, 0, &object)).unwrap().try_to_string().unwrap(),
        "(ZA;;CC;;;AU)"
    );
    assert_eq!(build(0x09, 0, 0).try_to_string().unwrap(), "(XA;;;;;AU)");
    assert_eq!(build(0x0A, 0, 0).try_to_string().unwrap(), "(XD;;;;;AU)");
    assert_eq!(build(0x0D, 0, 0).try_to_string().unwrap(), "(XU;;;;;AU)");
    assert_eq!(build(0x13, 0, 0).try_to_string().unwrap(), "(SP;;;;;AU)");
    assert_eq!(build(0x01, 0, 0).try_to_string().unwrap(), "(D;;;;;AU)");
}

#[test]
fn acl_decodes_its_entries() {
    let mut payload = 0x0002_0014u32.to_le_bytes().to_vec();
    payload.extend_from_slice(&sid_bytes(5, &[11]));
    let first = ace_bytes(0, 2, &payload);
    let mut payload = 0x0001_0000u32.to_le_bytes().to_vec();
    payload.extend_from_slice(&DOMAIN_SID);
    let second = ace_bytes(1, 0, &payload);
    let bytes = acl_bytes(4, &[first.clone(), second.clone()]);
    assert_eq!(Acl::get_length(&bytes), Some(bytes.len()));
    let acl = Acl::try_from_bytes(&bytes).unwrap();
    assert_eq!(acl.revision, AclRevision::Ds);
    assert_eq!(acl.sbz1, 0);
    assert_eq!(acl.sbz2, 0);
    assert_eq!(acl.entries.len(), 2);
    assert_eq!(acl.entries[1], Ace::try_from_bytes(&second).unwrap());
    assert_eq!(
        acl.try_to_string().unwrap(),
        "(A;CI;LCRPRC;;;AU)(D;;SD;;;S-1-5-21-3141592653-589793238-462643383)"
    );
    let empty = Acl::try_from_bytes(&acl_bytes(2, &[])).unwrap();
    assert_eq!(empty.revision, AclRevision::Revision);
    assert_eq!(empty.try_to_string().unwrap(), "");
}

#[test]
fn acl_is_rejected_on_any_mismatch() {
    let mut payload = 1u32.to_le_bytes().to_vec();
    payload.extend_from_slice(&sid_bytes(5, &[11]));
    let ace = ace_bytes(0, 0, &payload);
    let good = acl_bytes(2, &[ace.clone()]);
    assert!(Acl::try_from_bytes(&good).is_some());
    assert_eq!(Acl::try_from_bytes(&good[..7]), None);
    assert_eq!(Acl::get_length(&good[..7]), None);
    // an unknown revision
    let mut other = good.clone();
    other[0] = 3;
    assert_eq!(Acl::try_from_bytes(&other), None);
    assert_eq!(Acl::get_length(&other), None);
    // the size field does not give the length
    let mut long = good.clone();
    long.push(0);
    assert_eq!(Acl::try_from_bytes(&long), None);
    // more entries announced than present
    let mut more = good.clone();
    more[4] = 2;
    assert_eq!(Acl::try_from_bytes(&more), None);
    // fewer entries announced than the size holds
    let mut fewer = good.clone();
    fewer[4] = 0;
    assert_eq!(Acl::try_from_bytes(&fewer), None);
    // an entry that is broken
    let mut broken = good.clone();
    broken[8 + 2] = 19;
    assert_eq!(Acl::try_from_bytes(&broken), None);
    // an entry that says that it is shorter than a header
    let mut tiny = acl_bytes(2, &[vec![0, 0, 2, 0]]);
    tiny[2] = tiny.len() as u8;
    assert_eq!(Acl::try_from_bytes(&tiny), None);
}

#[test]
fn security_descriptor_scenario() {
    let mut payload = 0x0002_0014u32.to_le_bytes().to_vec();
    payload.extend_from_slice(&sid_bytes(5, &[11]));
    let dacl = acl_bytes(2, &[ace_bytes(0, 2, &payload)]);
    let bytes = descriptor_bytes(0x8004, &sid_bytes(5, &[18]), &sid_bytes(5, &[32, 544]), &[], &dacl);
    let sd = SecurityDescriptor::try_from_bytes(&bytes).unwrap();
    assert_eq!(sd.revision, 1);
    assert_eq!(sd.control, SecurityDescriptorControl::from(0x8004));
    assert_eq!(sd.owner, Some(sid(5, &[18])));
    assert_eq!(sd.group, Some(sid(5, &[32, 544])));
    assert_eq!(sd.sacl, None);
    assert_eq!(sd.dacl.as_ref().unwrap().entries.len(), 1);
    assert_eq!(sd.try_to_string().unwrap(), "O:SYG:BAD:(A;CI;LCRPRC;;;AU)");
}

#[test]
fn security_descriptor_text_has_a_part_for_each_field() {
    let mut payload = 0x0000_0010u32.to_le_bytes().to_vec();
    payload.extend_from_slice(&sid_bytes(1, &[0]));
    let dacl = acl_bytes(4, &[ace_bytes(0, 0, &payload)]);
    let sacl = acl_bytes(2, &[ace_bytes(2, 0xC0, &payload)]);
    let text = |control: u16, owner: &[u8], group: &[u8], sacl: &[u8], dacl: &[u8]| {
        SecurityDescriptor::try_from_bytes(&descriptor_bytes(control, owner, group, sacl, dacl))
            .unwrap()
            .try_to_string()
    };
    assert_eq!(text(0x8000, &[], &[], &[], &[]).unwrap(), "");
    assert_eq!(text(0x8000, &DOMAIN_SID, &[], &[], &[]).unwrap(), "O:S-1-5-21-3141592653-589793238-462643383");
    assert_eq!(text(0x8000, &[], &sid_bytes(5, &[18]), &[], &[]).unwrap(), "G:SY");
    assert_eq!(text(0x8004, &[], &[], &[], &dacl).unwrap(), "D:(A;;RP;;;WD)");
    assert_eq!(text(0x8010, &[], &[], &sacl, &[]).unwrap(), "S:(AU;SAFA;RP;;;WD)");
    assert_eq!(
        text(0x8014 | 0x1000 | 0x0100 | 0x0400 | 0x2000 | 0x0200 | 0x0800, &[], &[], &sacl, &dacl).unwrap(),
        "D:PARAI(A;;RP;;;WD)S:PARAI(AU;SAFA;RP;;;WD)"
    );
    assert_eq!(text(0x9404, &[], &[], &sacl, &dacl).unwrap(), "D:PAI(A;;RP;;;WD)S:(AU;SAFA;RP;;;WD)");
    // flags that the language cannot express
    for bit in [0x0001u16, 0x0002, 0x0008, 0x0020, 0x4000] {
        assert_eq!(text(0x8004 | bit, &DOMAIN_SID, &[], &[], &dacl), None);
    }
    // an entry without a text takes the text of the descriptor away
    let mut unknown = 0x8000_0010u32.to_le_bytes().to_vec();
    unknown.extend_from_slice(&sid_bytes(1, &[0]));
    let bad = acl_bytes(4, &[ace_bytes(0, 0, &payload), ace_bytes(0, 0, &unknown)]);
    assert_eq!(text(0x8004, &DOMAIN_SID, &[], &[], &bad), None);
    assert_eq!(text(0x8010, &DOMAIN_SID, &[], &bad, &dacl), None);
}

#[test]
fn security_descriptor_is_rejected_on_any_mismatch() {
    let good = descriptor_bytes(0x8000, &DOMAIN_SID, &[], &[], &[]);
    assert!(SecurityDescriptor::try_from_bytes(&good).is_some());
    assert_eq!(SecurityDescriptor::try_from_bytes(&[]), None);
    assert_eq!(SecurityDescriptor::try_from_bytes(&good[..19]), None);
    // another revision
    let mut other = good.clone();
    other[0] = 2;
    assert_eq!(SecurityDescriptor::try_from_bytes(&other), None);
    // not self-relative
    let mut absolute = good.clone();
    absolute[3] = 0;
    assert_eq!(SecurityDescriptor::try_from_bytes(&absolute), None);
    // the owner does not lie within the buffer
    assert_eq!(SecurityDescriptor::try_from_bytes(&good[..good.len() - 1]), None);
    let mut far = good.clone();
    far[4] = good.len() as u8;
    assert_eq!(SecurityDescriptor::try_from_bytes(&far), None);
    // a list whose size reaches beyond the buffer
    let mut dacl = acl_bytes(2, &[]);
    dacl[2] = 9;
    let bytes = descriptor_bytes(0x8004, &[], &[], &[], &dacl);
    assert_eq!(SecurityDescriptor::try_from_bytes(&bytes), None);
    // bytes after the fields are not looked at
    let mut spare = good.clone();
    spare.extend_from_slice(&[0xAA; 5]);
    assert_eq!(SecurityDescriptor::try_from_bytes(&spare).unwrap().owner, Some(sid(5, &[21, 3141592653, 589793238, 462643383])));
}

fn utf16(text: &str) -> Vec<u8> {
    let mut out = Vec::new();
    for unit in text.encode_utf16() {
        out.extend_from_slice(&unit.to_le_bytes());
    }
    out.extend_from_slice(&[0, 0]);
    out
}

fn claim(kind: u16, values: &[Vec<u8>]) -> Vec<u8> {
    let name = utf16("claim");
    let mut out = Vec::new();
    let name_at = 16 + 4 * values.len();
    out.extend_from_slice(&(name_at as u32).to_le_bytes());
    out.extend_from_slice(&kind.to_le_bytes());
    out.extend_from_slice(&7u16.to_le_bytes());
    out.extend_from_slice(&0x0002_0001u32.to_le_bytes());
    out.extend_from_slice(&(values.len() as u32).to_le_bytes());
    let mut at = name_at + name.len();
    for v in values {
        out.extend_from_slice(&(at as u32).to_le_bytes());
        at += v.len();
    }
    out.extend_from_slice(&name);
    for v in values {
        out.extend_from_slice(v);
    }
    out
}

#[test]
fn claims_of_every_type() {
    let c = ClaimSecurityAttribute1::try_from_bytes(&claim(
        1,
        &[(-2i64).to_le_bytes().to_vec(), 5i64.to_le_bytes().to_vec()],
    ))
    .unwrap();
    assert_eq!(c.name, "claim");
    assert_eq!(c.reserved, 7);
    assert_eq!(c.flags.bits(), 0x0002_0001);
    assert_eq!(c.values, ClaimValues::Int64s(vec![-2, 5]));
    let c = ClaimSecurityAttribute1::try_from_bytes(&claim(2, &[u64::MAX.to_le_bytes().to_vec()])).unwrap();
    assert_eq!(c.values, ClaimValues::Uint64s(vec![u64::MAX]));
    let c = ClaimSecurityAttribute1::try_from_bytes(&claim(3, &[utf16("a\u{1F600}"), utf16("")])).unwrap();
    assert_eq!(c.values, ClaimValues::Strings(vec!["a\u{1F600}".to_owned(), String::new()]));
    let c = ClaimSecurityAttribute1::try_from_bytes(&claim(5, &[utf16("S-1-5-32-544")])).unwrap();
    assert_eq!(c.values, ClaimValues::Sids(vec![sid(5, &[32, 544])]));
    let c = ClaimSecurityAttribute1::try_from_bytes(&claim(
        6,
        &[1u64.to_le_bytes().to_vec(), 0u64.to_le_bytes().to_vec()],
    ))
    .unwrap();
    assert_eq!(c.values, ClaimValues::Booleans(vec![true, false]));
    let c = ClaimSecurityAttribute1::try_from_bytes(&claim(0x10, &[vec![2, 0, 0, 0, 9, 8], vec![0, 0, 0, 0]])).unwrap();
    assert_eq!(c.values, ClaimValues::OctetStrings(vec![vec![9, 8], vec![]]));
    let c = ClaimSecurityAttribute1::try_from_bytes(&claim(1, &[])).unwrap();
    assert_eq!(c.values, ClaimValues::Int64s(vec![]));
}

#[test]
fn claims_are_rejected_on_any_mismatch() {
    assert_eq!(ClaimSecurityAttribute1::try_from_bytes(&[]), None);
    assert_eq!(ClaimSecurityAttribute1::try_from_bytes(&[0; 15]), None);
    // the name lies outside
    assert_eq!(ClaimSecurityAttribute1::try_from_bytes(&[16, 0, 0, 0, 1, 0, 0, 0, 0, 0, 0, 0, 0, 0, 0, 0]), None);
    // an unknown type of value
    assert_eq!(ClaimSecurityAttribute1::try_from_bytes(&claim(4, &[])), None);
    assert_eq!(ClaimSecurityAttribute1::try_from_bytes(&claim(0, &[])), None);
    // a truth value that is neither 0 nor 1
    assert_eq!(ClaimSecurityAttribute1::try_from_bytes(&claim(6, &[2u64.to_le_bytes().to_vec()])), None);
    // a number that is cut short
    assert_eq!(ClaimSecurityAttribute1::try_from_bytes(&claim(1, &[vec![1, 2, 3]])), None);
    // a SID that is no SID
    assert_eq!(ClaimSecurityAttribute1::try_from_bytes(&claim(5, &[utf16("S-2-5")])), None);
    // octets that reach beyond the buffer
    assert_eq!(ClaimSecurityAttribute1::try_from_bytes(&claim(0x10, &[vec![3, 0, 0, 0, 9, 8]])), None);
    // more values announced than offsets present
    let mut more = claim(1, &[]);
    more[12] = 200;
    assert_eq!(ClaimSecurityAttribute1::try_from_bytes(&more), None);
    // a lone surrogate in the name
    let mut bad = claim(1, &[]);
    bad[16] = 0x00;
    bad[17] = 0xD8;
    assert_eq!(ClaimSecurityAttribute1::try_from_bytes(&bad), None);
}

#[test]
fn resource_attribute_ace_holds_a_claim() {
    let mut payload = 0u32.to_le_bytes().to_vec();
    payload.extend_from_slice(&sid_bytes(1, &[0]));
    payload.extend_from_slice(&claim(2, &[9u64.to_le_bytes().to_vec()]));
    let ace = Ace::try_from_bytes(&ace_bytes(0x12, 0, &payload)).unwrap();
    match &ace.data {
        AceData::SystemResourceAttribute { sid: s, attribute_data, .. } => {
            assert_eq!(s, &sid(1, &[0]));
            assert_eq!(attribute_data.values, ClaimValues::Uint64s(vec![9]));
        },
        _ => panic!("not a resource attribute"),
    }
    assert_eq!(ace.application_data, Vec::<u8>::new());
    assert_eq!(ace.try_to_string().unwrap(), "(RA;;;;;WD)");
    // without a claim there is no entry
    let mut payload = 0u32.to_le_bytes().to_vec();
    payload.extend_from_slice(&sid_bytes(1, &[0]));
    assert_eq!(Ace::try_from_bytes(&ace_bytes(0x12, 0, &payload)), None);
}

#[test]
fn guid_text() {
    let bytes: [u8; 16] = [
        0x70, 0x32, 0xef, 0x5f, 0x34, 0x39, 0xf3, 0x46, 0x8b, 0x63, 0xb5, 0xfc, 0x9c, 0x55, 0xf9,
        0x81,
    ];
    let guid = Guid::from_slice_le(&bytes).unwrap();
    assert_eq!(
        guid.bytes,
        [0x5f, 0xef, 0x32, 0x70, 0x39, 0x34, 0x46, 0xf3, 0x8b, 0x63, 0xb5, 0xfc, 0x9c, 0x55, 0xf9, 0x81]
    );
    assert_eq!(guid.to_string(), "5fef3270-3934-46f3-8b63-b5fc9c55f981");
    assert_eq!(Guid::from_slice_le(&bytes[..15]), None);
    assert_eq!(Guid::from_slice_le(&[0; 17]), None);
    assert_eq!(Guid { bytes: [0xAB; 16] }.to_string(), "abababab-abab-abab-abab-abababababab");
}
