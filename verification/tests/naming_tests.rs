use kangbot::service::naming::{
    generate_custom_pack_link, generate_pack_link, generate_pack_name, next_version, strip_vol_or,
    version_overflows,
};

#[test]
fn test_next_version_no_decimal() {
    assert_eq!(next_version("Vol1"), "Vol1.1");
    assert_eq!(next_version("Vol2"), "Vol2.1");
    assert_eq!(next_version("Vol3"), "Vol3.1");
}

#[test]
fn test_next_version_with_decimal() {
    assert_eq!(next_version("Vol1.1"), "Vol1.2");
    assert_eq!(next_version("Vol1.5"), "Vol1.6");
    assert_eq!(next_version("Vol2.3"), "Vol2.4");
}

#[test]
fn test_next_version_rollover() {
    assert_eq!(next_version("Vol1.9"), "Vol2");
    assert_eq!(next_version("Vol2.9"), "Vol3");
    assert_eq!(next_version("Vol5.9"), "Vol6");
}

#[test]
fn test_generate_pack_link() {
    assert_eq!(generate_pack_link(123456789, "1", "mybot"), "u123456789V1_by_mybot");
    assert_eq!(generate_pack_link(123456789, "1.5", "mybot"), "u123456789V1.5_by_mybot");
    assert_eq!(generate_pack_link(987654321, "2", "testbot"), "u987654321V2_by_testbot");
}

#[test]
fn test_generate_pack_name() {
    assert_eq!(generate_pack_name("johndoe", "Vol1"), "@johndoe's Kang Pack Vol1");
    assert_eq!(generate_pack_name("alice", "Vol1.5"), "@alice's Kang Pack Vol1.5");
    assert_eq!(generate_pack_name("bob", "Vol2"), "@bob's Kang Pack Vol2");
}

#[test]
fn next_version_reads_unusual_versions() {
    // Without the prefix, the number is still read.
    assert_eq!(next_version("7"), "Vol7.1");
    // A major that does not parse counts as 1, a minor that does not parse as 0.
    assert_eq!(next_version("Volx"), "Vol1.1");
    assert_eq!(next_version("Volx.y"), "Vol1.1");
    assert_eq!(next_version("Vol3.12"), "Vol4");
    assert_eq!(next_version("Vol10.0"), "Vol10.1");
    assert_eq!(next_version(""), "Vol1.1");
}

#[test]
fn next_version_sequence_over_a_range() {
    // Vol1 -> Vol1.1 -> ... -> Vol1.9 -> Vol2 -> ...
    let mut v = String::from("Vol1");
    let mut seen = Vec::new();
    for _ in 0..25 {
        seen.push(v.clone());
        v = next_version(&v);
    }
    assert_eq!(seen[0], "Vol1");
    assert_eq!(seen[1], "Vol1.1");
    assert_eq!(seen[9], "Vol1.9");
    assert_eq!(seen[10], "Vol2");
    assert_eq!(seen[11], "Vol2.1");
    assert_eq!(seen[20], "Vol3");
    assert_eq!(v, "Vol3.5");
}

#[test]
fn version_overflow_is_detected() {
    assert!(version_overflows("Vol4294967295.9"));
    assert!(!version_overflows("Vol4294967295"));
    assert!(!version_overflows("Vol4294967294.9"));
    assert_eq!(next_version("Vol4294967294.9"), "Vol4294967295");
    assert_eq!(next_version("Vol4294967295"), "Vol4294967295.1");
}

#[test]
fn strip_vol_prefix() {
    assert_eq!(strip_vol_or("Vol1.5", "1"), "1.5");
    assert_eq!(strip_vol_or("Custom", "1"), "1");
    assert_eq!(strip_vol_or("Vol", "1"), "");
}

#[test]
fn pack_link_with_negative_id() {
    assert_eq!(generate_pack_link(-42, "3", "b"), "u-42V3_by_b");
    assert_eq!(generate_pack_link(0, "1", "b"), "u0V1_by_b");
    assert_eq!(generate_pack_link(i64::MIN, "1", "b"), "u-9223372036854775808V1_by_b");
}

#[test]
fn custom_pack_link_sanitizes_the_name() {
    assert_eq!(generate_custom_pack_link(42, "My Pack!", "bot"), "MyPack_u42_by_bot");
    assert_eq!(generate_custom_pack_link(42, "1st pack", "bot"), "p_1stpack_u42_by_bot");
    assert_eq!(generate_custom_pack_link(42, "!!!", "bot"), "pack_u42_by_bot");
    assert_eq!(generate_custom_pack_link(42, "héllo_wörld", "bot"), "hllo_wrld_u42_by_bot");
}

#[test]
fn custom_pack_link_fits_in_64_bytes() {
    let long = "abcdefghij".repeat(10);
    let link = generate_custom_pack_link(123456789, &long, "mybot");
    assert_eq!(link.len(), 64);
    assert!(link.ends_with("_u123456789_by_mybot"));
    assert!(link.starts_with("abcdefghij"));
    // Underscores left at the cut are dropped.
    let under = format!("{}{}", "a".repeat(43), "_".repeat(20));
    let link = generate_custom_pack_link(123456789, &under, "mybot");
    assert_eq!(link, format!("{}_u123456789_by_mybot", "a".repeat(43)));
}
