use dsh_desktop::tail::{capture, drain, keep_tail, STDOUT_TAIL_CAP};

#[test]
fn keeps_short_output_whole() {
    let mut sink = String::new();
    drain(&mut sink, b"first line\n");
    drain(&mut sink, b"second line\n");
    assert_eq!(sink, "first line\nsecond line\n");
}

#[test]
fn keeps_the_last_bytes_of_long_output() {
    let mut sink = "a".repeat(8000);
    drain(&mut sink, "b".repeat(1024).as_bytes());
    assert_eq!(STDOUT_TAIL_CAP, 8192);
    assert_eq!(sink.len(), 8192);
    assert_eq!(sink, format!("{}{}", "a".repeat(8192 - 1024), "b".repeat(1024)));
}

#[test]
fn keeps_exactly_the_cap() {
    let mut sink = String::new();
    capture(&mut sink, &"x".repeat(8192));
    assert_eq!(sink, "x".repeat(8192));
    capture(&mut sink, "y");
    assert_eq!(sink, format!("{}y", "x".repeat(8191)));
}

#[test]
fn never_cuts_a_character_in_two() {
    assert_eq!(keep_tail("aé…", 6), "aé…");
    assert_eq!(keep_tail("aé…", 5), "é…");
    assert_eq!(keep_tail("aé…", 4), "…");
    assert_eq!(keep_tail("aé…", 3), "…");
    assert_eq!(keep_tail("aé…", 2), "");
    assert_eq!(keep_tail("aé…", 0), "");
    assert_eq!(keep_tail("", 0), "");
    let mut sink = "é".repeat(4096);
    drain(&mut sink, b"!");
    assert_eq!(sink, format!("{}!", "é".repeat(4095)));
}

#[test]
fn replaces_what_is_not_text() {
    let mut sink = String::new();
    drain(&mut sink, b"ok \xff\xfe end");
    assert_eq!(sink, "ok \u{fffd}\u{fffd} end");
    let mut valid = String::new();
    drain(&mut valid, "grün…".as_bytes());
    assert_eq!(valid, "grün…");
}

#[test]
fn capping_in_steps_is_capping_once() {
    let first = "0123456789";
    let second = "abcdef";
    let stepwise = keep_tail(&format!("{}{}", keep_tail(first, 8), second), 8);
    assert_eq!(stepwise, keep_tail(&format!("{first}{second}"), 8));
    assert_eq!(stepwise, "89abcdef");
}
