use kullat::format::{
    abgr2101010, abgr8888, contains_format, fourcc, preferred_formats, select, NegotiationError,
    PixelFormat, FOURCC_ABGR2101010, FOURCC_ABGR8888, LINEAR_MODIFIER,
};

#[test]
fn fourcc_packs_bytes_little_endian() {
    assert_eq!(fourcc(b'A', b'B', b'2', b'4'), 0x34324241);
    assert_eq!(fourcc(b'A', b'B', b'3', b'0'), 0x30334241);
    assert_eq!(fourcc(0, 0, 0, 0), 0);
    assert_eq!(fourcc(0xFF, 0xFF, 0xFF, 0xFF), 0xFFFF_FFFF);
}

#[test]
fn named_formats_match_their_codes() {
    assert_eq!(fourcc(b'A', b'B', b'2', b'4'), FOURCC_ABGR8888);
    assert_eq!(fourcc(b'A', b'B', b'3', b'0'), FOURCC_ABGR2101010);
    assert_eq!(abgr8888().code, FOURCC_ABGR8888);
    assert_eq!(abgr8888().modifier, LINEAR_MODIFIER);
    assert_eq!(abgr2101010().code, FOURCC_ABGR2101010);
}

#[test]
fn preferred_formats_follow_display_depth() {
    let deep = preferred_formats(true);
    assert_eq!(deep.len(), 2);
    assert_eq!(deep[0], abgr2101010());
    assert_eq!(deep[1], abgr8888());

    let shallow = preferred_formats(false);
    assert_eq!(shallow.len(), 2);
    assert_eq!(shallow[0], abgr8888());
    assert_eq!(shallow[1], abgr2101010());
}

#[test]
fn select_takes_the_only_common_format() {
    // desired [10-bit, 8-bit], available {8-bit}: the 8-bit format wins
    let desired = vec![abgr2101010(), abgr8888()];
    let available = vec![abgr8888()];
    assert_eq!(select(&desired, &available), Ok(abgr8888()));
}

#[test]
fn select_prefers_the_first_desired_format() {
    // desired [10-bit, 8-bit], available {10-bit, 8-bit}: the 10-bit wins
    let desired = vec![abgr2101010(), abgr8888()];
    let available = vec![abgr2101010(), abgr8888()];
    assert_eq!(select(&desired, &available), Ok(abgr2101010()));
}

#[test]
fn select_fails_without_a_common_format() {
    // desired [10-bit], available {}: no common format
    let desired = vec![abgr2101010()];
    let available: Vec<PixelFormat> = Vec::new();
    assert_eq!(select(&desired, &available), Err(NegotiationError::NoCommonFormat));
}

#[test]
fn select_is_deterministic_across_calls() {
    let desired = preferred_formats(true);
    let available = vec![abgr8888(), abgr2101010()];
    let first = select(&desired, &available);
    let second = select(&desired, &available);
    assert_eq!(first, second);
    assert_eq!(first, Ok(abgr2101010()));
}

#[test]
fn select_ignores_modifier_mismatches() {
    // a format with another modifier is a different format
    let tiled = PixelFormat { code: FOURCC_ABGR8888, modifier: 7 };
    let desired = vec![abgr8888()];
    let available = vec![tiled];
    assert_eq!(select(&desired, &available), Err(NegotiationError::NoCommonFormat));
    assert!(!contains_format(&available, abgr8888()));
    assert!(contains_format(&available, tiled));
}

#[test]
fn select_with_empty_desired_list_fails() {
    let desired: Vec<PixelFormat> = Vec::new();
    let available = vec![abgr8888()];
    assert_eq!(select(&desired, &available), Err(NegotiationError::NoCommonFormat));
}
