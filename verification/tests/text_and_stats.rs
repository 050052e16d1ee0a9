use sunberry::stats::{bytes_to_string, fill_number_string};
use sunberry::systeminfo::{byte_unit, process_display_order, ByteUnit};
use sunberry::text::{decimal_string, replace_all, same_text, starts_with};

#[test]
fn fill_pads_on_the_left() {
    assert_eq!(fill_number_string(5, 3, ' ', true), "  5");
}

#[test]
fn fill_pads_on_the_right() {
    assert_eq!(fill_number_string(5, 3, '0', false), "500");
}

#[test]
fn fill_keeps_long_numbers() {
    assert_eq!(fill_number_string(12345, 3, ' ', true), "12345");
    assert_eq!(fill_number_string(0, 0, 'x', true), "0");
    assert_eq!(fill_number_string(42, 6, '*', true), "****42");
}

#[test]
fn bytes_below_a_thousand() {
    assert_eq!(bytes_to_string(0), "  0.000 B");
    assert_eq!(bytes_to_string(999), "999.000 B");
}

#[test]
fn bytes_in_each_unit() {
    assert_eq!(bytes_to_string(1000), "  1.000 kB");
    assert_eq!(bytes_to_string(1_234_567), "  1.234 MB");
    assert_eq!(bytes_to_string(5_000_000_000), "  5.000 GB");
    assert_eq!(bytes_to_string(999_999), "999.999 kB");
}

#[test]
fn bytes_remainder_padded_on_the_right() {
    // The remainder 5 is written as "5" and filled with zeros behind it.
    assert_eq!(bytes_to_string(1005), "  1.500 kB");
}

#[test]
fn bytes_beyond_a_thousand_gigabytes() {
    assert_eq!(bytes_to_string(2_000_000_000_000), "2000.000 GB");
    assert_eq!(bytes_to_string(u64::MAX), "18446744073.709 GB");
}

#[test]
fn bytes_point_in_fourth_column() {
    for b in [0u64, 7, 999, 1000, 65_536, 999_999_999, 999_999_999_999] {
        let s = bytes_to_string(b);
        assert_eq!(s.chars().nth(3), Some('.'), "{}", s);
    }
}

#[test]
fn decimal_of_extremes() {
    assert_eq!(decimal_string(0), "0");
    assert_eq!(decimal_string(10), "10");
    assert_eq!(decimal_string(u64::MAX), u64::MAX.to_string());
}

#[test]
fn replace_single_characters() {
    assert_eq!(replace_all("mein_wander_stein", "_", " "), "mein wander stein");
}

#[test]
fn replace_leftmost_without_overlap() {
    assert_eq!(replace_all("aaa", "aa", "b"), "ba");
    assert_eq!(replace_all("{{flora}}x{{flora}}", "{{flora}}", "F"), "FxF");
}

#[test]
fn replace_empty_pattern_like_std() {
    assert_eq!(replace_all("ab", "", "-"), "ab".replace("", "-"));
    assert_eq!(replace_all("", "", "-"), "-");
}

#[test]
fn replace_absent_pattern() {
    assert_eq!(replace_all("abc", "x", "y"), "abc");
    assert_eq!(replace_all("äöü", "ö", "o"), "äoü");
}

#[test]
fn prefix_and_equality() {
    assert!(starts_with("kworker/0:1", "kworker"));
    assert!(!starts_with("kwork", "kworker"));
    assert!(starts_with("x", ""));
    assert!(same_text("d", "d"));
    assert!(!same_text("d", "dd"));
}

#[test]
fn byte_unit_boundaries() {
    assert_eq!(byte_unit(0), ByteUnit::Bytes);
    assert_eq!(byte_unit(999), ByteUnit::Bytes);
    assert_eq!(byte_unit(1000), ByteUnit::Kilo);
    assert_eq!(byte_unit(999_999), ByteUnit::Kilo);
    assert_eq!(byte_unit(1_000_000), ByteUnit::Mega);
    assert_eq!(byte_unit(1_000_000_000), ByteUnit::Giga);
    assert_eq!(ByteUnit::Mega.divisor(), 1_000_000);
    assert_eq!(ByteUnit::Kilo.symbol(), "kB");
}

#[test]
fn processes_sorted_and_filtered() {
    let names: Vec<String> = ["a", "kworker/0", "b", "c", "d"].iter().map(|s| s.to_string()).collect();
    let memory = vec![10, 50, 0, 10, 20];
    assert_eq!(process_display_order(&names, &memory), vec![4, 0, 3]);
}

#[test]
fn processes_empty() {
    assert_eq!(process_display_order(&vec![], &vec![]), Vec::<usize>::new());
}
