use ad_values::oid_prefix::OidPrefix;
use num_bigint::BigUint;

#[test]
fn test_oid_prefix() {
    let pfx = OidPrefix::from_ber_bytes(&[0x2A, 0x03, 0x04]);
    assert_eq!(pfx.fixed_arcs.len(), 4);
    assert_eq!(pfx.fixed_arcs[0], BigUint::from(1u8));
    assert_eq!(pfx.fixed_arcs[1], BigUint::from(2u8));
    assert_eq!(pfx.fixed_arcs[2], BigUint::from(3u8));
    assert_eq!(pfx.fixed_arcs[3], BigUint::from(4u8));
    assert_eq!(pfx.final_range_start, BigUint::from(0u8));
    assert_eq!(pfx.final_range_end, BigUint::from(16384u16));

    let pfx = OidPrefix::from_ber_bytes(&[0x2A, 0x03, 0x04, 0x81]);
    assert_eq!(pfx.fixed_arcs.len(), 4);
    assert_eq!(pfx.fixed_arcs[0], BigUint::from(1u8));
    assert_eq!(pfx.fixed_arcs[1], BigUint::from(2u8));
    assert_eq!(pfx.fixed_arcs[2], BigUint::from(3u8));
    assert_eq!(pfx.fixed_arcs[3], BigUint::from(4u8));
    assert_eq!(pfx.final_range_start, BigUint::from(16384u16));
    assert_eq!(pfx.final_range_end, BigUint::from(32768u16));

    let pfx = OidPrefix::from_ber_bytes(&[0x2A, 0x03, 0x04, 0x82]);
    assert_eq!(pfx.fixed_arcs.len(), 4);
    assert_eq!(pfx.fixed_arcs[0], BigUint::from(1u8));
    assert_eq!(pfx.fixed_arcs[1], BigUint::from(2u8));
    assert_eq!(pfx.fixed_arcs[2], BigUint::from(3u8));
    assert_eq!(pfx.fixed_arcs[3], BigUint::from(4u8));
    assert_eq!(pfx.final_range_start, BigUint::from(32768u16));
    assert_eq!(pfx.final_range_end, BigUint::from(49152u16));
}

fn arcs(pfx: &OidPrefix) -> Vec<u64> {
    pfx.fixed_arcs.iter().map(|a| u64::try_from(a).unwrap()).collect()
}

#[test]
fn oid_prefix_of_nothing_has_no_arc() {
    let pfx = OidPrefix::from_ber_bytes(&[]);
    assert_eq!(pfx.fixed_arcs.len(), 0);
    assert_eq!(pfx.final_range_start, BigUint::from(0u8));
    assert_eq!(pfx.final_range_end, BigUint::from(16384u16));
    assert_eq!(pfx.to_string(), "(0..16384)");
}

#[test]
fn oid_prefix_splits_the_first_arc() {
    assert_eq!(arcs(&OidPrefix::from_ber_bytes(&[0])), vec![0, 0]);
    assert_eq!(arcs(&OidPrefix::from_ber_bytes(&[39])), vec![0, 39]);
    assert_eq!(arcs(&OidPrefix::from_ber_bytes(&[40])), vec![1, 0]);
    assert_eq!(arcs(&OidPrefix::from_ber_bytes(&[79])), vec![1, 39]);
    assert_eq!(arcs(&OidPrefix::from_ber_bytes(&[80])), vec![2, 0]);
    assert_eq!(arcs(&OidPrefix::from_ber_bytes(&[0x7F])), vec![2, 47]);
    // 0x88 0x37 is 8 * 128 + 55 = 1079, which stands for 2.999
    assert_eq!(arcs(&OidPrefix::from_ber_bytes(&[0x88, 0x37])), vec![2, 999]);
    // only the first arc is split
    assert_eq!(arcs(&OidPrefix::from_ber_bytes(&[0x2A, 0x2A])), vec![1, 2, 42]);
}

#[test]
fn oid_prefix_reads_long_arcs() {
    // 1.2.840.113556
    let pfx = OidPrefix::from_ber_bytes(&[0x2A, 0x86, 0x48, 0x86, 0xF7, 0x14]);
    assert_eq!(arcs(&pfx), vec![1, 2, 840, 113556]);
    assert_eq!(pfx.to_string(), "1.2.840.113556.(0..16384)");
    // leading zero digits do not change an arc
    let pfx = OidPrefix::from_ber_bytes(&[0x2A, 0x80, 0x80, 0x05]);
    assert_eq!(arcs(&pfx), vec![1, 2, 5]);
    // an arc beyond 64 bits: ten digits of all ones are 70 bits
    let pfx = OidPrefix::from_ber_bytes(&[
        0x2A, 0xFF, 0xFF, 0xFF, 0xFF, 0xFF, 0xFF, 0xFF, 0xFF, 0xFF, 0x7F,
    ]);
    assert_eq!(pfx.fixed_arcs.len(), 3);
    assert_eq!(pfx.fixed_arcs[2], (BigUint::from(1u8) << 70u32) - BigUint::from(1u8));
    assert_eq!(pfx.to_string(), "1.2.1180591620717411303423.(0..16384)");
}

#[test]
fn oid_prefix_bounds_an_incomplete_arc() {
    // two digits of the last arc are known
    let pfx = OidPrefix::from_ber_bytes(&[0x2A, 0x86, 0xC8]);
    assert_eq!(arcs(&pfx), vec![1, 2]);
    // (6 * 128 + 72) * 16384 = 13762560
    assert_eq!(pfx.final_range_start, BigUint::from(13762560u32));
    assert_eq!(pfx.final_range_end, BigUint::from(13762560u32 + 16384));
    assert_eq!(pfx.to_string(), "1.2.(13762560..13778944)");
    // nothing but an incomplete arc
    let pfx = OidPrefix::from_ber_bytes(&[0x80]);
    assert_eq!(pfx.fixed_arcs.len(), 0);
    assert_eq!(pfx.final_range_start, BigUint::from(0u8));
    assert_eq!(pfx.final_range_end, BigUint::from(16384u16));
}

#[test]
fn ber_helpers() {
    let (arc, rest) = OidPrefix::take_ber_integer_slice(&[0x86, 0x48, 0x03, 0x04]);
    assert_eq!(arc, &[0x86, 0x48]);
    assert_eq!(rest, &[0x03, 0x04]);
    let (arc, rest) = OidPrefix::take_ber_integer_slice(&[0x86, 0x88]);
    assert_eq!(arc, &[0x86, 0x88]);
    assert_eq!(rest, &[] as &[u8]);
    let (arc, rest) = OidPrefix::take_ber_integer_slice(&[]);
    assert_eq!(arc, &[] as &[u8]);
    assert_eq!(rest, &[] as &[u8]);
    assert!(OidPrefix::is_terminated_ber_integer(&[0x86, 0x48]));
    assert!(OidPrefix::is_terminated_ber_integer(&[0x00]));
    assert!(!OidPrefix::is_terminated_ber_integer(&[0x86, 0x88]));
    assert!(!OidPrefix::is_terminated_ber_integer(&[0x06, 0x48]));
    assert_eq!(OidPrefix::extract_ber_integer(&[0x86, 0x48]), BigUint::from(840u16));
    assert_eq!(OidPrefix::extract_ber_integer(&[0x7F]), BigUint::from(127u8));
}

#[test]
fn oid_prefix_can_be_cloned_and_compared() {
    let pfx = OidPrefix::from_ber_bytes(&[0x2A, 0x03, 0x82]);
    let copy = pfx.clone();
    assert_eq!(pfx, copy);
    assert_ne!(pfx, OidPrefix::from_ber_bytes(&[0x2A, 0x03, 0x83]));
}

#[test]
fn oid_prefix_orders_by_arcs_then_range() {
    let short = OidPrefix::from_ber_bytes(&[0x2A]);
    let longer = OidPrefix::from_ber_bytes(&[0x2A, 0x03]);
    assert!(short < longer);

    let low = OidPrefix::from_ber_bytes(&[0x2A, 0x82]);
    let high = OidPrefix::from_ber_bytes(&[0x2A, 0x83]);
    assert_eq!(low.final_range_start, BigUint::from(32768u32));
    assert_eq!(low.final_range_end, BigUint::from(49152u32));
    assert_eq!(high.final_range_start, BigUint::from(49152u32));
    assert!(short < low);
    assert!(low < high);
    assert!(high < longer);

    // an arc that has only begun, with nothing in it yet, leaves the same
    // range as no arc
    let begun = OidPrefix::from_ber_bytes(&[0x2A, 0x80]);
    assert_eq!(begun, short);

    let wide = OidPrefix {
        fixed_arcs: low.fixed_arcs.clone(),
        final_range_start: low.final_range_start.clone(),
        final_range_end: BigUint::from(49153u32),
    };
    assert!(low < wide);
    assert!(wide < high);
}
