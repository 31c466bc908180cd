use terminal_input::device_control::{DeviceControl, MAX_PAYLOAD};
use terminal_input::mouse::Mouse;
use terminal_input::{Event, Parser, TerminalEvent};

fn keys(bytes: &[u8]) -> Vec<Event> {
    bytes.iter().map(|&key| Event::KeyPress { key }).collect()
}

fn parse_all(bytes: &[u8]) -> Vec<Event> {
    Parser::new().parse(bytes)
}

#[test]
fn empty_input_yields_nothing() {
    let mut p = Parser::new();
    assert_eq!(p.parse(&[]), vec![]);
    assert_eq!(p.parse(b"a"), keys(b"a"));
}

#[test]
fn interrupt_yields_exit_and_stays_plain() {
    let mut p = Parser::new();
    assert_eq!(p.parse(&[0x03]), vec![Event::Exit]);
    assert_eq!(p.parse(b"k"), keys(b"k"));
}

#[test]
fn plain_text_passes_through() {
    let text = b"Hello, world! \t\r\n\x7f\x00\xff";
    assert_eq!(parse_all(text), keys(text));
}

#[test]
fn double_escape_then_letter() {
    assert_eq!(
        parse_all(&[0x1b, 0x1b, b'x']),
        vec![
            Event::KeyPress { key: 0x1b },
            Event::KeyPress { key: 0x1b },
            Event::KeyPress { key: b'x' },
        ]
    );
}

#[test]
fn run_of_escapes_each_yields_a_key() {
    let mut p = Parser::new();
    assert_eq!(p.parse(&[0x1b, 0x1b, 0x1b]), keys(&[0x1b, 0x1b]));
    // the last escape is still armed: it introduces an arrow key
    assert_eq!(p.parse(b"[A"), vec![Event::KeyPress { key: 0x26 }]);
}

#[test]
fn escape_then_interrupt_byte_is_two_keys() {
    assert_eq!(parse_all(&[0x1b, 0x03]), keys(&[0x1b, 0x03]));
}

#[test]
fn arrow_keys() {
    assert_eq!(parse_all(b"\x1b[A"), vec![Event::KeyPress { key: 0x26 }]);
    assert_eq!(parse_all(b"\x1b[B"), vec![Event::KeyPress { key: 0x28 }]);
    assert_eq!(parse_all(b"\x1b[C"), vec![Event::KeyPress { key: 0x27 }]);
    assert_eq!(parse_all(b"\x1b[D"), vec![Event::KeyPress { key: 0x25 }]);
}

#[test]
fn unrecognized_control_sequence_is_dropped() {
    let mut p = Parser::new();
    assert_eq!(p.parse(&[0x1b, b'[', b'Z']), vec![]);
    assert_eq!(p.parse(b"k"), keys(b"k"));
}

#[test]
fn numeric_control_sequence_drops_one_byte_only() {
    assert_eq!(parse_all(b"\x1b[3~"), keys(b"~"));
}

#[test]
fn arrow_split_across_calls() {
    let mut p = Parser::new();
    assert_eq!(p.parse(&[0x1b]), vec![]);
    assert_eq!(p.parse(b"["), vec![]);
    assert_eq!(p.parse(b"Cq"), vec![Event::KeyPress { key: 0x27 }, Event::KeyPress { key: b'q' }]);
}

#[test]
fn chunking_does_not_change_the_events() {
    let stream: &[u8] = b"ab\x1b\x1bc\x1b[A\x1b[<0;12;7M\x03\x1bP>|xterm(390)\x1b\\\x1b[Zz";
    let whole = parse_all(stream);
    for cut in 0..=stream.len() {
        let mut p = Parser::new();
        let mut events = p.parse(&stream[..cut]);
        events.extend(p.parse(&stream[cut..]));
        assert_eq!(events, whole, "cut at {}", cut);
    }
    let mut p = Parser::new();
    let mut one_by_one = Vec::new();
    for b in stream {
        one_by_one.extend(p.parse(std::slice::from_ref(b)));
    }
    assert_eq!(one_by_one, whole);
}

#[test]
fn mouse_report_across_calls() {
    let mut p = Parser::new();
    assert_eq!(p.parse(&[0x1b, b'[', b'<']), vec![]);
    assert_eq!(p.parse(b"0;1"), vec![]);
    assert_eq!(p.parse(b"2;7"), vec![]);
    assert_eq!(p.parse(b"M"), vec![Event::MouseDown { row: 7, col: 12 }]);
    assert_eq!(p.parse(b"k"), keys(b"k"));
}

#[test]
fn mouse_release_move_and_scroll() {
    assert_eq!(parse_all(b"\x1b[<0;3;4m"), vec![Event::MouseUp { row: 4, col: 3 }]);
    assert_eq!(parse_all(b"\x1b[<32;5;6M"), vec![Event::MouseMove { row: 6, col: 5 }]);
    assert_eq!(parse_all(b"\x1b[<64;1;1M"), vec![Event::Scroll { delta: -1 }]);
    assert_eq!(parse_all(b"\x1b[<65;1;1M"), vec![Event::Scroll { delta: 1 }]);
}

#[test]
fn malformed_mouse_report_is_dropped() {
    // terminator before the third number
    assert_eq!(parse_all(b"\x1b[<0;3Mk"), keys(b"k"));
    // a fourth number
    assert_eq!(parse_all(b"\x1b[<0;3;4;5Mk"), keys(b"5Mk"));
    // a stray byte
    assert_eq!(parse_all(b"\x1b[<0;x"), vec![]);
}

#[test]
fn mouse_number_overflow_abandons_report() {
    let mut bytes = b"\x1b[<0;".to_vec();
    bytes.extend(std::iter::repeat(b'9').take(40));
    assert_eq!(parse_all(&bytes), keys(&vec![b'9'; 40 - 20]));
}

#[test]
fn mouse_decoder_steps() {
    let mut m = Mouse::new();
    assert!(m.parse(b'1').is_continue());
    assert!(m.parse(b'5').is_continue());
    assert_eq!(m.button, 15);
    assert!(m.parse(b';').is_continue());
    assert_eq!(m.field, 1);
    assert_eq!(m.parse(b'Q'), std::ops::ControlFlow::Break(None));
}

#[test]
fn terminal_name_reply() {
    assert_eq!(
        parse_all(b"\x1bP>|xterm(390)\x1b\\"),
        vec![Event::Terminal(TerminalEvent::Name("xterm(390)".to_string()))]
    );
}

#[test]
fn terminal_name_reply_across_calls() {
    let mut p = Parser::new();
    assert_eq!(p.parse(b"\x1bP>|Wez"), vec![]);
    assert_eq!(p.parse(b"Term\x1b"), vec![]);
    assert_eq!(
        p.parse(b"\\a"),
        vec![Event::Terminal(TerminalEvent::Name("WezTerm".to_string())), Event::KeyPress { key: b'a' }]
    );
}

#[test]
fn true_color_reply() {
    assert_eq!(
        parse_all(b"\x1bP1+r524742=382F382F38\x1b\\"),
        vec![Event::Terminal(TerminalEvent::TrueColorSupported)]
    );
    assert_eq!(parse_all(b"\x1bP0+r524742\x1b\\"), vec![]);
}

#[test]
fn unknown_device_control_string_is_dropped() {
    assert_eq!(parse_all(b"\x1bP$r0m\x1b\\k"), keys(b"k"));
}

#[test]
fn device_control_string_abandoned_by_escape() {
    assert_eq!(parse_all(b"\x1bP>|xterm\x1bXk"), keys(b"k"));
}

#[test]
fn long_device_control_string_is_truncated() {
    let mut bytes = b"\x1bP>|".to_vec();
    bytes.extend(std::iter::repeat(b'n').take(2 * MAX_PAYLOAD));
    bytes.extend(b"\x1b\\");
    let name = "n".repeat(MAX_PAYLOAD - 2);
    assert_eq!(parse_all(&bytes), vec![Event::Terminal(TerminalEvent::Name(name))]);
}

#[test]
fn device_control_decoder_steps() {
    let mut d = DeviceControl::new();
    for &b in b">|ab" {
        assert_eq!(d.parse(b), std::ops::ControlFlow::Continue(None));
    }
    assert_eq!(d.payload, b">|ab".to_vec());
    assert_eq!(d.parse(0x1b), std::ops::ControlFlow::Continue(None));
    assert!(d.escape);
    assert_eq!(
        d.parse(b'\\'),
        std::ops::ControlFlow::Break(Some(Event::Terminal(TerminalEvent::Name("ab".to_string()))))
    );
}

#[test]
fn default_parser_starts_plain() {
    let mut p = Parser::default();
    assert_eq!(p.parse(b"\x1b[Dz"), vec![Event::KeyPress { key: 0x25 }, Event::KeyPress { key: b'z' }]);
}
