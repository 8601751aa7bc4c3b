use fm_bridge::error::format_stderr;
use fm_bridge::session::describe_status;
use fm_bridge::text::is_blank;

#[test]
fn white_space_is_the_listed_characters() {
    for n in 0..=0x10ffffu32 {
        if let Some(c) = char::from_u32(n) {
            let listed = (0x9..=0xd).contains(&n)
                || n == 0x20
                || n == 0x85
                || n == 0xa0
                || n == 0x1680
                || (0x2000..=0x200a).contains(&n)
                || (0x2028..=0x2029).contains(&n)
                || n == 0x202f
                || n == 0x205f
                || n == 0x3000;
            let mut buffer = [0u8; 4];
            assert_eq!(is_blank(c.encode_utf8(&mut buffer)), listed, "{n:#x}");
        }
    }
}

#[test]
fn blank_text_holds_white_space_only() {
    assert!(is_blank(""));
    assert!(is_blank(" \t\r\n\u{a0}"));
    assert!(!is_blank("  x  "));
    assert!(!is_blank("\u{200b}"));
}

#[test]
fn stderr_is_trimmed_and_set_off() {
    assert_eq!(format_stderr(""), "");
    assert_eq!(format_stderr(" \n\t "), "");
    assert_eq!(format_stderr("  no model here\n"), ": no model here");
    assert_eq!(format_stderr("a  b"), ": a  b");
}

#[test]
fn exit_statuses_read_as_words() {
    assert_eq!(describe_status(Some(9), None), "killed by signal 9");
    assert_eq!(describe_status(None, Some(0)), "exit code 0");
    assert_eq!(describe_status(None, Some(1234567890)), "exit code 1234567890");
    assert_eq!(describe_status(None, Some(-1)), "exit code -1");
    assert_eq!(describe_status(None, Some(i32::MIN)), "exit code -2147483648");
    assert_eq!(describe_status(None, Some(i32::MAX)), "exit code 2147483647");
    assert_eq!(describe_status(None, None), "unknown");
    // A signal outranks a code.
    assert_eq!(describe_status(Some(15), Some(3)), "killed by signal 15");
}
