use accessibility_mcp::text::{
    decimal_text, hexadecimal_text, join, same_text, signed_decimal_text,
};

#[test]
fn join_puts_the_head_first() {
    assert_eq!(join("Node not found: ", "n1"), "Node not found: n1");
    assert_eq!(join("", "tail"), "tail");
    assert_eq!(join("head", ""), "head");
    assert_eq!(join("", ""), "");
    assert_eq!(join("é", "ß"), "éß");
}

#[test]
fn same_text_compares_characters() {
    assert!(same_text("AXButton", "AXButton"));
    assert!(same_text("", ""));
    assert!(!same_text("AXButton", "axbutton"));
    assert!(!same_text("AXButton", "AXButton "));
    assert!(!same_text("a", ""));
}

#[test]
fn decimal_of_small_numbers() {
    for n in 0u64..=120 {
        assert_eq!(decimal_text(n), n.to_string());
    }
}

#[test]
fn decimal_of_chosen_numbers() {
    assert_eq!(decimal_text(0), "0");
    assert_eq!(decimal_text(7), "7");
    assert_eq!(decimal_text(10), "10");
    assert_eq!(decimal_text(1000), "1000");
    assert_eq!(decimal_text(65535), "65535");
    assert_eq!(decimal_text(4294967295), "4294967295");
    assert_eq!(decimal_text(u64::MAX), "18446744073709551615");
}

#[test]
fn signed_decimal_of_chosen_numbers() {
    assert_eq!(signed_decimal_text(0), "0");
    assert_eq!(signed_decimal_text(-1), "-1");
    assert_eq!(signed_decimal_text(-25208), "-25208");
    assert_eq!(signed_decimal_text(25208), "25208");
    assert_eq!(signed_decimal_text(i64::MAX), "9223372036854775807");
    assert_eq!(signed_decimal_text(i64::MIN), "-9223372036854775808");
    assert_eq!(signed_decimal_text(i32::MIN as i64), "-2147483648");
}

#[test]
fn hexadecimal_of_chosen_numbers() {
    assert_eq!(hexadecimal_text(0), "0");
    assert_eq!(hexadecimal_text(9), "9");
    assert_eq!(hexadecimal_text(10), "a");
    assert_eq!(hexadecimal_text(15), "f");
    assert_eq!(hexadecimal_text(16), "10");
    assert_eq!(hexadecimal_text(255), "ff");
    assert_eq!(hexadecimal_text(0x7ffe_e4c0_1a2b), "7ffee4c01a2b");
    assert_eq!(hexadecimal_text(u64::MAX), "ffffffffffffffff");
    for n in 0u64..=300 {
        assert_eq!(hexadecimal_text(n), format!("{:x}", n));
    }
}
