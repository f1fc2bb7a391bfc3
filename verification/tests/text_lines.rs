use nomikai_session::event::{EventSink, UiEvent};
use nomikai_session::report::{emit_remote_report_text_lines, emit_report_text};
use nomikai_session::text::{chars_of, lines_of, push_chars, push_decimal, push_hex_byte};

fn tl_lines(text: &str) -> Vec<String> {
    lines_of(&chars_of(text)).iter().map(|line| line.iter().collect::<String>()).collect()
}

fn tl_logs(text: &str) -> Vec<String> {
    let mut sink = EventSink::new();
    emit_report_text(&mut sink, text);
    sink.drain()
        .into_iter()
        .map(|event| match event {
            UiEvent::Log { msg } => msg,
            other => panic!("not a log: {:?}", other),
        })
        .collect()
}

#[test]
fn lines_end_at_line_feeds() {
    assert_eq!(tl_lines("a\nb\nc"), vec!["a", "b", "c"]);
    assert_eq!(tl_lines("a\nb\n"), vec!["a", "b"]);
    assert_eq!(tl_lines("a"), vec!["a"]);
    assert_eq!(tl_lines(""), Vec::<String>::new());
    assert_eq!(tl_lines("\n"), vec![""]);
    assert_eq!(tl_lines("\n\n"), vec!["", ""]);
    assert_eq!(tl_lines("a\n\nb"), vec!["a", "", "b"]);
}

#[test]
fn a_carriage_return_before_a_line_feed_belongs_to_the_line_end() {
    assert_eq!(tl_lines("a\r\nb\r\n"), vec!["a", "b"]);
    assert_eq!(tl_lines("a\r\r\nb"), vec!["a\r", "b"]);
    assert_eq!(tl_lines("a\rb\n"), vec!["a\rb"]);
    assert_eq!(tl_lines("a\r"), vec!["a\r"]);
    assert_eq!(tl_lines("\r\n"), vec![""]);
    assert_eq!(tl_lines("\r"), vec!["\r"]);
}

#[test]
fn lines_agree_with_the_standard_library() {
    let texts = [
        "",
        "\n",
        "\r",
        "\r\n",
        "a",
        "a\n",
        "a\r\n",
        "a\r",
        "a\n\r",
        "one\ntwo\r\nthree",
        "\n\n\n",
        "x\r\r\n\ny\r",
        "caf\u{e9}\n\u{1F600}\r\n",
    ];
    for text in texts.iter() {
        let expected: Vec<String> = text.lines().map(|line| line.to_string()).collect();
        assert_eq!(tl_lines(text), expected, "for {:?}", text);
    }
}

#[test]
fn characters_of_a_string_come_out_in_order() {
    assert_eq!(chars_of("a\u{e9}\u{1F600}z"), vec!['a', '\u{e9}', '\u{1F600}', 'z']);
    assert_eq!(chars_of(""), Vec::<char>::new());
}

#[test]
fn each_line_that_is_not_empty_is_logged() {
    assert_eq!(tl_logs("one\ntwo"), vec!["[RemoteReport] one", "[RemoteReport] two"]);
    assert_eq!(tl_logs("one\n\n\ntwo"), vec!["[RemoteReport] one", "[RemoteReport] two"]);
    assert_eq!(tl_logs(""), Vec::<String>::new());
    assert_eq!(tl_logs("one"), vec!["[RemoteReport] one"]);
    assert_eq!(tl_logs(" "), vec!["[RemoteReport]  "]);
}

#[test]
fn a_text_that_ends_in_a_line_feed_is_marked() {
    assert_eq!(tl_logs("one\n"), vec!["[RemoteReport] one", "[RemoteReport] <blank line>"]);
    assert_eq!(tl_logs("\n"), vec!["[RemoteReport] <blank line>"]);
    assert_eq!(tl_logs("one\r\n"), vec!["[RemoteReport] one", "[RemoteReport] <blank line>"]);
    assert_eq!(tl_logs("one\n\r"), vec!["[RemoteReport] one", "[RemoteReport] \r"]);
}

#[test]
fn bytes_are_decoded_before_they_are_split() {
    let mut sink = EventSink::new();
    emit_remote_report_text_lines(&mut sink, b"ok\n\xC3\xA9t\xC3\xA9\nbad\xFF\xFEend");
    assert_eq!(
        sink.drain(),
        vec![
            UiEvent::Log { msg: "[RemoteReport] ok".to_string() },
            UiEvent::Log { msg: "[RemoteReport] \u{e9}t\u{e9}".to_string() },
            UiEvent::Log { msg: "[RemoteReport] bad\u{FFFD}\u{FFFD}end".to_string() },
        ]
    );
}

#[test]
fn decimal_numerals_have_no_leading_zeros() {
    let cases: [(u128, &str); 9] = [
        (0, "0"),
        (7, "7"),
        (9, "9"),
        (10, "10"),
        (99, "99"),
        (100, "100"),
        (1_234_567_890, "1234567890"),
        (u64::MAX as u128, "18446744073709551615"),
        (u128::MAX, "340282366920938463463374607431768211455"),
    ];
    for (n, expected) in cases.iter() {
        let mut out = String::from("n=");
        push_decimal(&mut out, *n);
        assert_eq!(out, format!("n={}", expected));
        assert_eq!(out, format!("n={}", n));
    }
}

#[test]
fn a_byte_is_written_as_two_upper_case_hex_digits() {
    for b in 0..=255u8 {
        let mut out = String::from("0x");
        push_hex_byte(&mut out, b);
        assert_eq!(out, format!("0x{:02X}", b));
    }
}

#[test]
fn characters_are_appended_in_order() {
    let mut out = String::from("[");
    push_chars(&mut out, &vec!['a', '\u{1F600}', 'b']);
    push_chars(&mut out, &Vec::new());
    assert_eq!(out, "[a\u{1F600}b");
}
