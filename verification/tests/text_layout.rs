use wasm_agent::text::{
    decimal_string, push_left_aligned, push_right_aligned, push_spaces, signed_decimal_string,
};

#[test]
fn decimal_of_zero_is_one_digit() {
    assert_eq!(decimal_string(0), "0");
}

#[test]
fn decimal_matches_display() {
    for n in [1u64, 9, 10, 99, 100, 1234567890, u64::MAX] {
        assert_eq!(decimal_string(n), n.to_string());
    }
}

#[test]
fn signed_decimal_matches_display() {
    for i in [0i32, 7, -7, 2147483647, -2147483648, -10] {
        assert_eq!(signed_decimal_string(i), i.to_string());
    }
}

#[test]
fn left_alignment_pads_on_the_right() {
    let mut out = String::from("|");
    push_left_aligned(&mut out, "ab", 5);
    assert_eq!(out, "|ab   ");
    assert_eq!(out, format!("|{:<5}", "ab"));
}

#[test]
fn right_alignment_pads_on_the_left() {
    let mut out = String::new();
    push_right_aligned(&mut out, "42", 6);
    assert_eq!(out, format!("{:6}", 42));
}

#[test]
fn alignment_never_cuts() {
    let mut out = String::new();
    push_left_aligned(&mut out, "toolongtext", 4);
    push_right_aligned(&mut out, "xyz", 2);
    assert_eq!(out, "toolongtextxyz");
}

#[test]
fn padding_counts_characters_not_bytes() {
    let mut out = String::new();
    push_left_aligned(&mut out, "é", 3);
    assert_eq!(out, format!("{:<3}", "é"));
    assert_eq!(out.chars().count(), 3);
}

#[test]
fn spaces_are_appended() {
    let mut out = String::from("a");
    push_spaces(&mut out, 3);
    assert_eq!(out, "a   ");
}

#[test]
fn law_padded_field_fills_its_column() {
    for (t, w) in [("a", 6usize), ("abcdef", 6), ("abcdefgh", 6), ("", 4)] {
        let mut left = String::new();
        push_left_aligned(&mut left, t, w);
        let mut right = String::new();
        push_right_aligned(&mut right, t, w);
        let expected = std::cmp::max(t.chars().count(), w);
        assert_eq!(left.chars().count(), expected);
        assert_eq!(right.chars().count(), expected);
        assert!(left.starts_with(t));
        assert!(right.ends_with(t));
    }
}

#[test]
fn law_decimal_denotes_value() {
    for n in [0u64, 5, 10, 305, 1000000, u64::MAX] {
        let s = decimal_string(n);
        assert_eq!(s.parse::<u64>().unwrap(), n);
        assert!(s.len() == 1 || !s.starts_with('0'));
    }
}
