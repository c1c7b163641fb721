use botcore::text::{contains_sub, i64_to_dec, u64_to_dec};

#[test]
fn contains_finds_a_substring() {
    assert!(contains_sub("hello world", "lo wo"));
    assert!(contains_sub("hello", "hello"));
    assert!(contains_sub("hello", ""));
    assert!(!contains_sub("hello", "world"));
    assert!(!contains_sub("hi", "hello"));
}

#[test]
fn contains_works_on_wide_characters() {
    assert!(contains_sub("开票前即可收到提醒", "票"));
    assert!(!contains_sub("山海相逢，不渝之遇", "票"));
}

#[test]
fn unsigned_decimal_rendering() {
    assert_eq!(u64_to_dec(0), "0");
    assert_eq!(u64_to_dec(7), "7");
    assert_eq!(u64_to_dec(4576832), "4576832");
    assert_eq!(u64_to_dec(u64::MAX), "18446744073709551615");
}

#[test]
fn signed_decimal_rendering() {
    assert_eq!(i64_to_dec(0), "0");
    assert_eq!(i64_to_dec(1680799575000), "1680799575000");
    assert_eq!(i64_to_dec(-45), "-45");
    assert_eq!(i64_to_dec(i64::MIN), "-9223372036854775808");
}
