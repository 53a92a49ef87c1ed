use dolt_diesel_demo::text::{indent_block, option_text, signed_text, unsigned_text};

#[test]
fn unsigned_text_writes_decimal_digits() {
    assert_eq!(unsigned_text(0), "0");
    assert_eq!(unsigned_text(7), "7");
    assert_eq!(unsigned_text(10), "10");
    assert_eq!(unsigned_text(1234), "1234");
    assert_eq!(unsigned_text(u32::MAX), "4294967295");
}

#[test]
fn signed_text_writes_sign_and_digits() {
    assert_eq!(signed_text(0), "0");
    assert_eq!(signed_text(1), "1");
    assert_eq!(signed_text(-7), "-7");
    assert_eq!(signed_text(-120), "-120");
    assert_eq!(signed_text(i32::MAX), "2147483647");
    assert_eq!(signed_text(i32::MIN), "-2147483648");
}

#[test]
fn option_text_uses_placeholder_for_absent_value() {
    assert_eq!(option_text(&None), "_");
    assert_eq!(option_text(&Some("added".to_string())), "added");
    assert_eq!(option_text(&Some(String::new())), "");
}

#[test]
fn indent_block_puts_tab_after_each_newline() {
    assert_eq!(indent_block(""), "\t");
    assert_eq!(indent_block("one line"), "\tone line");
    assert_eq!(indent_block("a\nb\n"), "\ta\n\tb\n\t");
    assert_eq!(indent_block("+--+\n|\u{e9}|\n+--+"), "\t+--+\n\t|\u{e9}|\n\t+--+");
}
