use liltcp::codec::Setting;
use liltcp::filter::{OutputSet, Rendering};
use liltcp::session::{
    handle_line, inbound_step, Effect, InboundAction, ReadEvent, SessionState,
};

fn as_pairs(lines: &[Rendering]) -> Vec<(Setting, String)> {
    lines.iter().map(|r| (r.kind, r.text.clone())).collect()
}

#[test]
fn new_session_enables_every_rendering() {
    let st = SessionState::new(Setting::Utf8);
    assert_eq!(st.input, Setting::Utf8);
    assert_eq!(st.output, OutputSet { utf8: true, hex: true, b64: true });
}

#[test]
fn hex_payload_is_sent_decoded() {
    let mut st = SessionState::new(Setting::Hex);
    match handle_line(&mut st, "48656c6c6f") {
        Effect::Transmit { payload } => assert_eq!(payload, b"Hello".to_vec()),
        _ => panic!("expected a transmission"),
    }
}

#[test]
fn doubled_escape_sends_literal_with_one_slash() {
    let mut st = SessionState::new(Setting::Utf8);
    match handle_line(&mut st, "//hello") {
        Effect::Transmit { payload } => assert_eq!(payload, b"/hello".to_vec()),
        _ => panic!("expected a transmission"),
    }
}

#[test]
fn preview_decodes_and_rerenders_without_sending() {
    let mut st = SessionState::new(Setting::Hex);
    match handle_line(&mut st, "!deadbeef") {
        Effect::ShowPreview { lines } => {
            assert_eq!(
                as_pairs(&lines),
                vec![
                    (Setting::Base64, "3q2+7w==".to_string()),
                    (Setting::Hex, "deadbeef".to_string()),
                ]
            );
        }
        _ => panic!("expected a preview and no transmission"),
    }
    assert_eq!(st, SessionState::new(Setting::Hex));
}

#[test]
fn malformed_command_changes_nothing() {
    let mut st = SessionState::new(Setting::Hex);
    assert!(matches!(handle_line(&mut st, "/zzz"), Effect::ShowMalformed));
    assert_eq!(st, SessionState::new(Setting::Hex));
}

#[test]
fn output_command_replaces_the_set() {
    let mut st = SessionState::new(Setting::Utf8);
    match handle_line(&mut st, "/ohb") {
        Effect::ShowOutputSet { set } => {
            assert_eq!(set, OutputSet { utf8: false, hex: true, b64: true });
        }
        _ => panic!("expected the new output set to be shown"),
    }
    assert_eq!(st.output, OutputSet { utf8: false, hex: true, b64: true });
    assert_eq!(st.input, Setting::Utf8);
}

#[test]
fn malformed_output_argument_keeps_the_set() {
    let mut st = SessionState::new(Setting::Utf8);
    assert!(matches!(handle_line(&mut st, "/ouq"), Effect::ShowMalformed));
    assert_eq!(st.output, OutputSet { utf8: true, hex: true, b64: true });
}

#[test]
fn input_command_switches_the_encoding() {
    let mut st = SessionState::new(Setting::Utf8);
    match handle_line(&mut st, "/ib") {
        Effect::ShowInputChanged { setting } => assert_eq!(setting, Setting::Base64),
        _ => panic!("expected the input change to be announced"),
    }
    assert_eq!(st.input, Setting::Base64);
    match handle_line(&mut st, "3q0=") {
        Effect::Transmit { payload } => assert_eq!(payload, vec![0xDE, 0xAD]),
        _ => panic!("expected a transmission"),
    }
}

#[test]
fn undecodable_payload_reports_and_sends_nothing() {
    let mut st = SessionState::new(Setting::Hex);
    match handle_line(&mut st, "xyz") {
        Effect::ShowDecodeError { setting } => assert_eq!(setting, Setting::Hex),
        _ => panic!("expected a decode error"),
    }
    assert_eq!(st, SessionState::new(Setting::Hex));
    st.input = Setting::Base64;
    assert!(matches!(
        handle_line(&mut st, "%%%"),
        Effect::ShowDecodeError { setting: Setting::Base64 }
    ));
}

#[test]
fn single_renderings_toggle_without_touching_the_rest() {
    let mut st = SessionState::new(Setting::Utf8);
    match handle_line(&mut st, "/-b64") {
        Effect::ShowOutputSet { set } => {
            assert_eq!(set, OutputSet { utf8: true, hex: true, b64: false });
        }
        _ => panic!("expected the new output set to be shown"),
    }
    assert_eq!(st.output, OutputSet { utf8: true, hex: true, b64: false });
    assert!(matches!(handle_line(&mut st, "/-str"), Effect::ShowOutputSet { .. }));
    assert_eq!(st.output, OutputSet { utf8: false, hex: true, b64: false });
    assert!(matches!(handle_line(&mut st, "/+b64"), Effect::ShowOutputSet { .. }));
    assert_eq!(st.output, OutputSet { utf8: false, hex: true, b64: true });
    assert_eq!(st.input, Setting::Utf8);
}

#[test]
fn dollar_command_switches_the_input_encoding() {
    let mut st = SessionState::new(Setting::Utf8);
    match handle_line(&mut st, "/$hex") {
        Effect::ShowInputChanged { setting } => assert_eq!(setting, Setting::Hex),
        _ => panic!("expected the input change to be announced"),
    }
    match handle_line(&mut st, "dead") {
        Effect::Transmit { payload } => assert_eq!(payload, vec![0xDE, 0xAD]),
        _ => panic!("expected a transmission"),
    }
}

#[test]
fn empty_line_is_an_empty_transmission() {
    let mut st = SessionState::new(Setting::Utf8);
    match handle_line(&mut st, "") {
        Effect::Transmit { payload } => assert!(payload.is_empty()),
        _ => panic!("expected an empty transmission"),
    }
}

#[test]
fn help_line_shows_help_only() {
    let mut st = SessionState::new(Setting::Utf8);
    assert!(matches!(handle_line(&mut st, "/?"), Effect::ShowHelp));
    assert_eq!(st, SessionState::new(Setting::Utf8));
}

#[test]
fn inbound_chunk_renders_once_then_close_stops_once() {
    let out = OutputSet { utf8: true, hex: true, b64: true };
    let events = vec![
        ReadEvent::Data { bytes: b"hi".to_vec() },
        ReadEvent::Ended,
    ];
    let mut shown: Vec<Vec<(Setting, String)>> = Vec::new();
    let mut stops: usize = 0;
    for ev in &events {
        match inbound_step(&out, ev) {
            InboundAction::Show { lines } => shown.push(as_pairs(&lines)),
            InboundAction::Stop => {
                stops += 1;
                break;
            }
        }
    }
    assert_eq!(stops, 1);
    assert_eq!(
        shown,
        vec![vec![
            (Setting::Utf8, "hi".to_string()),
            (Setting::Base64, "aGk=".to_string()),
            (Setting::Hex, "6869".to_string()),
        ]]
    );
}

#[test]
fn empty_output_set_discards_inbound_bytes() {
    let out = OutputSet { utf8: false, hex: false, b64: false };
    match inbound_step(&out, &ReadEvent::Data { bytes: vec![1, 2, 3] }) {
        InboundAction::Show { lines } => assert!(lines.is_empty()),
        InboundAction::Stop => panic!("data must not stop the loop"),
    }
}
