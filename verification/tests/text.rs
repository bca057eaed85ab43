use resmoke_colors::text::{can_cut, decimal_text, slice_between, tail_from};

#[test]
fn decimal_text_writes_digits_without_leading_zeros() {
    assert_eq!(decimal_text(0), "0");
    assert_eq!(decimal_text(7), "7");
    assert_eq!(decimal_text(9), "9");
    assert_eq!(decimal_text(10), "10");
    assert_eq!(decimal_text(12345), "12345");
    assert_eq!(decimal_text(1000), "1000");
    assert_eq!(decimal_text(usize::MAX), usize::MAX.to_string());
}

#[test]
fn a_text_can_be_cut_between_characters_only() {
    let text = "aé b";
    assert!(can_cut(text, 0));
    assert!(can_cut(text, 1));
    assert!(!can_cut(text, 2));
    assert!(can_cut(text, 3));
    assert!(can_cut(text, 5));
    assert!(!can_cut(text, 6));
    assert!(can_cut("", 0));
    assert!(!can_cut("", 1));
}

#[test]
fn tail_from_keeps_what_follows_the_position() {
    assert_eq!(tail_from("abcdef", 0), "abcdef");
    assert_eq!(tail_from("abcdef", 2), "cdef");
    assert_eq!(tail_from("abcdef", 6), "");
    assert_eq!(tail_from("aé b", 3), " b");
}

#[test]
fn slice_between_keeps_what_lies_between_the_positions() {
    assert_eq!(slice_between("abcdef", 1, 4), "bcd");
    assert_eq!(slice_between("abcdef", 0, 6), "abcdef");
    assert_eq!(slice_between("abcdef", 3, 3), "");
    assert_eq!(slice_between("aé b", 1, 3), "é");
}
