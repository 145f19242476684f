use dsh_desktop::text::{decimal_text, same_text};

#[test]
fn writes_numbers_in_decimal() {
    assert_eq!(decimal_text(0), "0");
    assert_eq!(decimal_text(9), "9");
    assert_eq!(decimal_text(10), "10");
    assert_eq!(decimal_text(65535), "65535");
    assert_eq!(decimal_text(4294967295), "4294967295");
}

#[test]
fn writes_different_numbers_differently() {
    assert_ne!(decimal_text(100), decimal_text(10));
}

#[test]
fn compares_texts() {
    assert!(same_text("a…", "a…"));
    assert!(!same_text("a", "b"));
    assert!(!same_text("a", "ab"));
}
