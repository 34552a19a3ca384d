use tracker_core::command::{at_num, at_plain, at_text, at_text_num, at_text_text, command, push_all, Arg};
use tracker_core::resps::field_end;
use tracker_core::text::{
    contains, field, has_at, in_run, is_digit, is_hex_digit, run_end, stream_tag, TagMatch,
};

#[test]
fn literals_in_a_buffer() {
    assert!(has_at(b"abcdef", 2, b"cd"));
    assert!(has_at(b"abcdef", 6, b""));
    assert!(!has_at(b"abcdef", 7, b""));
    assert!(!has_at(b"abcdef", 5, b"fg"));
    assert!(!has_at(b"abcdef", 2, b"ce"));
    assert!(!has_at(b"abcdef", usize::MAX, b"a"));
    assert!(contains(b"abcdef", b"ef"));
    assert!(contains(b"abcdef", b""));
    assert!(contains(b"", b""));
    assert!(!contains(b"abcdef", b"fe"));
    assert!(!contains(b"", b"a"));
}

#[test]
fn literals_in_a_stream() {
    assert_eq!(stream_tag(b"OK\r\n", 0, b"OK"), TagMatch::Found);
    assert_eq!(stream_tag(b"xOK", 1, b"OK\r\n"), TagMatch::Short);
    assert_eq!(stream_tag(b"x", 1, b"OK"), TagMatch::Short);
    assert_eq!(stream_tag(b"x", 1, b""), TagMatch::Found);
    assert_eq!(stream_tag(b"xOX", 1, b"OK\r\n"), TagMatch::Differs);
    assert_eq!(stream_tag(b"x", 2, b"OK"), TagMatch::Differs);
}

#[test]
fn digit_runs_and_fields() {
    assert!(is_digit(b'0') && is_digit(b'9') && !is_digit(b'/') && !is_digit(b':'));
    assert!(is_hex_digit(b'a') && is_hex_digit(b'F') && !is_hex_digit(b'g') && !is_hex_digit(b'G'));
    assert!(in_run(b'f', true) && !in_run(b'f', false));
    assert_eq!(run_end(b"12ab,", 0, false), 2);
    assert_eq!(run_end(b"12ab,", 0, true), 4);
    assert_eq!(run_end(b"12ab,", 4, true), 4);
    assert_eq!(run_end(b"12", 0, false), 2);
    assert_eq!(run_end(b"12", 9, false), 9);
    assert_eq!(field(b"x0042y", 1, false, 42), Some(42));
    assert_eq!(field(b"x0042y", 1, false, 41), None);
    assert_eq!(field(b"x0042y", 0, false, 100), None);
    assert_eq!(field(b"x0042y", 7, false, 100), None);
    assert_eq!(field(b"ffffffff", 0, true, u32::MAX), Some(u32::MAX));
    assert_eq!(field(b"100000000", 0, true, u32::MAX), None);
    assert_eq!(field(b"4294967295", 0, false, u32::MAX), Some(u32::MAX));
    assert_eq!(field(b"4294967296", 0, false, u32::MAX), None);
    assert_eq!(field(b"99999999999999999999999999", 0, false, u32::MAX), None);
    assert_eq!(field(b"1A", 0, true, 255), Some(26));
    assert_eq!(field_end(b"ab,cd", 0, b','), 2);
    assert_eq!(field_end(b"ab,cd", 3, b','), 5);
    assert_eq!(field_end(b"ab", 5, b','), 5);
}

#[test]
fn command_lines() {
    assert_eq!(at_plain("+X"), b"AT+X\r\n");
    assert_eq!(at_num("+X", 0), b"AT+X=0\r\n");
    assert_eq!(at_num("+X", 4_294_967_295), b"AT+X=4294967295\r\n");
    assert_eq!(at_num("+X", 1_000), b"AT+X=1000\r\n");
    assert_eq!(at_text("+X", ""), b"AT+X=\"\"\r\n");
    assert_eq!(at_text_num("+X", "a", 10), b"AT+X=\"a\",10\r\n");
    assert_eq!(at_text_text("+X", "a", "b"), b"AT+X=\"a\",\"b\"\r\n");
    let args = vec![Arg::Num(7), Arg::Text(b"t".to_vec()), Arg::Num(90)];
    assert_eq!(command(true, "+X", true, &args), b"AT+X=7,\"t\",90\r\n");
    assert_eq!(command(false, "X", true, &args), b"X=7,\"t\",90\r\n");
    assert_eq!(command(true, "+X", false, &args), b"AT+X7,\"t\",90\r\n");
    assert_eq!(command(false, "", false, &vec![]), b"\r\n");
    let mut out = b"ab".to_vec();
    push_all(&mut out, b"cd");
    assert_eq!(out, b"abcd");
}
