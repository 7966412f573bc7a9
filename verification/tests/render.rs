use gssctx::render::{CodeText, DisplayCall, DisplayReply};
use gssctx::status::GSS_C_GSS_CODE;
use gssctx::text::push_decimal;
use gssctx::Error;

fn said(message: &[u8], message_context: u32) -> DisplayReply<'_> {
    DisplayReply { major: 0, message, message_context }
}

#[test]
fn a_single_message_is_one_line() {
    let mut text = Error::fmt_code(13 << 16);
    assert_eq!(
        text.call(),
        Some(DisplayCall { code: 13 << 16, status_type: GSS_C_GSS_CODE, message_context: 0 })
    );
    text.feed(said(b"Unspecified GSS failure.  Minor code may provide more information", 0));
    assert!(text.is_done());
    assert_eq!(text.call(), None);
    assert_eq!(
        text.into_string(),
        "gssapi error Unspecified GSS failure.  Minor code may provide more information\n"
    );
}

#[test]
fn continuation_messages_are_concatenated_in_order() {
    let mut text = CodeText::new(0x0d09_0003);
    text.feed(said(b"first", 1));
    assert!(!text.is_done());
    assert_eq!(
        text.call(),
        Some(DisplayCall { code: 0x0d09_0003, status_type: 1, message_context: 1 })
    );
    text.feed(said(b"second", 7));
    assert!(!text.is_done());
    assert_eq!(
        text.call(),
        Some(DisplayCall { code: 0x0d09_0003, status_type: 1, message_context: 7 })
    );
    text.feed(said(b"third", 0));
    assert!(text.is_done());
    assert_eq!(text.call(), None);
    // Once the cursor is back at zero, nothing more is taken in.
    text.feed(said(b"fourth", 0));
    assert_eq!(
        text.into_string(),
        "gssapi error first\ngssapi error second\ngssapi error third\n"
    );
}

#[test]
fn an_unknown_code_ends_the_rendering() {
    let mut text = Error::fmt_code(851968);
    text.feed(DisplayReply { major: 5 << 16, message: b"ignored", message_context: 3 });
    assert!(text.is_done());
    assert_eq!(text.call(), None);
    assert_eq!(text.into_string(), "gssapi unknown error code 851968\n");
}

#[test]
fn an_unknown_code_after_a_message_keeps_the_message() {
    let mut text = Error::fmt_code(0);
    text.feed(said(b"partly", 2));
    text.feed(DisplayReply { major: 5 << 16, message: b"", message_context: 2 });
    assert!(text.is_done());
    assert_eq!(text.into_string(), "gssapi error partly\ngssapi unknown error code 0\n");
}

#[test]
fn malformed_bytes_are_replaced_not_rejected() {
    let mut text = Error::fmt_code(1);
    text.feed(said(b"caf\xc3\xa9 \xff!", 0));
    assert_eq!(text.into_string(), "gssapi error caf\u{e9} \u{fffd}!\n");
}

#[test]
fn an_error_renders_major_then_minor() {
    let e = Error { major: 13 << 16, minor: 2529639107 };
    let mut text = e.fmt();
    assert_eq!(
        text.call(),
        Some(DisplayCall { code: 13 << 16, status_type: 1, message_context: 0 })
    );
    text.feed(said(b"Unspecified GSS failure", 4));
    assert_eq!(
        text.call(),
        Some(DisplayCall { code: 13 << 16, status_type: 1, message_context: 4 })
    );
    text.feed(said(b"see minor", 0));
    assert!(!text.is_done());
    assert_eq!(
        text.call(),
        Some(DisplayCall { code: 2529639107, status_type: 1, message_context: 0 })
    );
    text.feed(DisplayReply { major: 5 << 16, message: b"", message_context: 0 });
    assert!(text.is_done());
    assert_eq!(text.call(), None);
    assert_eq!(
        text.into_string(),
        "gssapi error Unspecified GSS failure\ngssapi error see minor\ngssapi unknown error code 2529639107\n"
    );
}

#[test]
fn decimal_numerals() {
    for (n, expected) in [
        (0u32, "0"),
        (7, "7"),
        (10, "10"),
        (99, "99"),
        (100, "100"),
        (4294967295, "4294967295"),
        (1000000000, "1000000000"),
        (851968, "851968"),
    ] {
        let mut out = String::from("n=");
        push_decimal(&mut out, n);
        assert_eq!(out, format!("n={}", expected));
        assert_eq!(out, format!("n={}", n));
    }
}
