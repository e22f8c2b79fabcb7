use rustwatchman::text::{decode_line, drop_leading_token, trim};

#[test]
fn leading_token_is_dropped() {
    assert_eq!(drop_leading_token("2024-01-01T00:00:00Z some message"), "some message");
}

#[test]
fn line_without_space_loses_everything() {
    assert_eq!(drop_leading_token("word"), "");
    assert_eq!(drop_leading_token(""), "");
}

#[test]
fn only_the_first_space_ends_the_token() {
    assert_eq!(drop_leading_token("a  b"), " b");
    assert_eq!(drop_leading_token(" a b"), "a b");
    assert_eq!(drop_leading_token("a "), "");
    assert_eq!(drop_leading_token("a\tb c"), "c");
}

#[test]
fn leading_token_of_non_ascii_text() {
    assert_eq!(drop_leading_token("héllo wörld ünd"), "wörld ünd");
}

#[test]
fn trim_removes_surrounding_whitespace() {
    assert_eq!(trim("  hi there \n"), "hi there");
    assert_eq!(trim("\t\r\nx"), "x");
    assert_eq!(trim("x"), "x");
    assert_eq!(trim("\u{2003}wide\u{00a0}"), "wide");
}

#[test]
fn trim_of_blank_text_is_empty() {
    assert_eq!(trim(""), "");
    assert_eq!(trim(" \n\t "), "");
}

#[test]
fn trim_agrees_with_std() {
    for s in ["", " ", "a", " a", "a ", " a b ", "\n\na\tb\n", "é ", " \u{feff}x "] {
        assert_eq!(trim(s), s.trim());
    }
}

#[test]
fn decode_line_keeps_valid_text() {
    assert_eq!(decode_line(b"INFO started\n"), "INFO started");
    assert_eq!(decode_line("  gr\u{00fc}n ".as_bytes()), "gr\u{00fc}n");
    assert_eq!(decode_line(b""), "");
}

#[test]
fn decode_line_replaces_invalid_bytes() {
    assert_eq!(decode_line(&[b'a', 0xff, b'b', b'\n']), "a\u{fffd}b");
    assert_eq!(decode_line(&[0xc3]), "\u{fffd}");
}
