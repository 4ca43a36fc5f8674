use dsl::cgroup::{parse_memory, parse_memory_checked};

#[test]
fn gib_suffix_scales_by_1024_cubed() {
    assert_eq!(parse_memory("1G"), "1073741824");
    assert_eq!(parse_memory("2G"), "2147483648");
    assert_eq!(parse_memory("16G"), "17179869184");
}

#[test]
fn gib_suffix_is_case_insensitive() {
    assert_eq!(parse_memory("1g"), "1073741824");
    assert_eq!(parse_memory("3g"), "3221225472");
}

#[test]
fn mib_suffix_scales_by_1024_squared() {
    assert_eq!(parse_memory("512M"), "536870912");
    assert_eq!(parse_memory("256M"), "268435456");
    assert_eq!(parse_memory("1m"), "1048576");
}

#[test]
fn bare_numeric_string_passes_through() {
    assert_eq!(parse_memory("1000"), "1000");
    assert_eq!(parse_memory("0"), "0");
}

#[test]
fn huge_bare_string_passes_through_unchanged() {
    assert_eq!(
        parse_memory("99999999999999999999999"),
        "99999999999999999999999"
    );
}

#[test]
fn unsuffixed_non_numeric_passes_through() {
    assert_eq!(parse_memory(""), "");
    assert_eq!(parse_memory("10K"), "10K");
}

#[test]
fn zero_with_suffix_scales_to_zero() {
    assert_eq!(parse_memory("0G"), "0");
    assert_eq!(parse_memory("0M"), "0");
}

#[test]
fn checked_accepts_exactly_the_acceptable_strings() {
    assert_eq!(parse_memory_checked("1G").as_deref(), Some("1073741824"));
    assert_eq!(parse_memory_checked("512M").as_deref(), Some("536870912"));
    assert_eq!(parse_memory_checked("1000").as_deref(), Some("1000"));
}

#[test]
fn checked_rejects_empty_numeric_part() {
    assert_eq!(parse_memory_checked("G"), None);
    assert_eq!(parse_memory_checked("M"), None);
}

#[test]
fn checked_rejects_non_numeric_part() {
    assert_eq!(parse_memory_checked("abcG"), None);
    assert_eq!(parse_memory_checked("1.5G"), None);
    assert_eq!(parse_memory_checked("-1M"), None);
}

#[test]
fn checked_rejects_overflowing_scaled_value() {
    assert_eq!(parse_memory_checked("99999999999999999999G"), None);
    assert_eq!(parse_memory_checked("17179869184G"), None);
}

#[test]
fn largest_representable_gib_value_is_accepted() {
    // 17179869183 * 2^30 is the largest G-suffixed value that fits in u64.
    assert_eq!(
        parse_memory_checked("17179869183G").as_deref(),
        Some("18446744072635809792")
    );
}
