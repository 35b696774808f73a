use twitter_video_dl::decimal::{push_numeral, read_field};
use twitter_video_dl::token::split_fields;

fn numeral_of(n: u64) -> String {
    let mut out = String::new();
    push_numeral(&mut out, n);
    out
}

fn field(s: &str) -> Vec<char> {
    s.chars().collect()
}

#[test]
fn numerals() {
    assert_eq!(numeral_of(0), "0");
    assert_eq!(numeral_of(7), "7");
    assert_eq!(numeral_of(10), "10");
    assert_eq!(numeral_of(909), "909");
    assert_eq!(numeral_of(u64::MAX), "18446744073709551615");
    for n in [1u64, 9, 99, 100, 101, 12345678901234567890, 1 << 63] {
        assert_eq!(numeral_of(n), n.to_string());
    }
}

#[test]
fn push_numeral_appends() {
    let mut out = String::from("id=");
    push_numeral(&mut out, 42);
    push_numeral(&mut out, 0);
    assert_eq!(out, "id=420");
}

#[test]
fn read_field_reads_digits() {
    assert_eq!(read_field(&field("0"), 255), Some(0));
    assert_eq!(read_field(&field("255"), 255), Some(255));
    assert_eq!(read_field(&field("0255"), 255), Some(255));
    assert_eq!(read_field(&field("18446744073709551615"), u64::MAX), Some(u64::MAX));
    assert_eq!(read_field(&field("5"), 5), Some(5));
    assert_eq!(read_field(&field("0"), 0), Some(0));
}

#[test]
fn read_field_refuses_the_rest() {
    assert_eq!(read_field(&field(""), 255), None);
    assert_eq!(read_field(&field("256"), 255), None);
    assert_eq!(read_field(&field("1000"), 255), None);
    assert_eq!(read_field(&field("6"), 5), None);
    assert_eq!(read_field(&field("1"), 0), None);
    assert_eq!(read_field(&field("18446744073709551616"), u64::MAX), None);
    assert_eq!(read_field(&field("184467440737095516150"), u64::MAX), None);
    assert_eq!(read_field(&field("+1"), 255), None);
    assert_eq!(read_field(&field("-1"), 255), None);
    assert_eq!(read_field(&field("1 "), 255), None);
    assert_eq!(read_field(&field("1e2"), 255), None);
    assert_eq!(read_field(&field("٣"), 255), None);
    assert_eq!(read_field(&field("2560x"), 255), None);
}

#[test]
fn split_fields_keeps_empty_fields() {
    assert_eq!(split_fields(&field("")), vec![field("")]);
    assert_eq!(split_fields(&field("abc")), vec![field("abc")]);
    assert_eq!(split_fields(&field("a_b")), vec![field("a"), field("b")]);
    assert_eq!(split_fields(&field("_")), vec![field(""), field("")]);
    assert_eq!(split_fields(&field("_a__b_")), vec![field(""), field("a"), field(""), field("b"), field("")]);
}
