use rups::codec::{TelnetIn, IAC_DO, IAC_IAC, IAC_WILL, OPTION_ECHO, OPTION_NAWS,
    OPTION_SUPPRESS_GO_AHEAD};
use rups::pty::{Columns, Rows};
use rups::telnet_server::{format_shortcut, init_commands, interpret_input, ClientAction};
use rups::util::to_hex_string;

#[test]
fn control_codes_render_in_caret_notation() {
    assert_eq!(format_shortcut(Some(0x18)), "^X");
    assert_eq!(format_shortcut(Some(0x14)), "^T");
    assert_eq!(format_shortcut(Some(0x01)), "^A");
}

#[test]
fn printable_bytes_render_as_themselves() {
    assert_eq!(format_shortcut(Some(b'x')), "x");
    assert_eq!(format_shortcut(Some(b'A')), "A");
}

#[test]
fn unset_shortcuts_render_as_disabled() {
    assert_eq!(format_shortcut(None), "disabled");
}

#[test]
fn greeting_negotiation_commands() {
    let commands = init_commands();
    assert_eq!(commands.len(), 3);
    assert_eq!(commands[0], vec![IAC_IAC, IAC_WILL, OPTION_ECHO]);
    assert_eq!(commands[1], vec![IAC_IAC, IAC_WILL, OPTION_SUPPRESS_GO_AHEAD]);
    assert_eq!(commands[2], vec![IAC_IAC, IAC_DO, OPTION_NAWS]);
}

fn interpret(input: TelnetIn) -> ClientAction {
    interpret_input(Some(0x18), Some(0x14), Some(0x12), Some(b'q'), input)
}

#[test]
fn shortcut_bytes_become_commands_and_are_not_forwarded() {
    assert!(matches!(
        interpret(TelnetIn::Text { text: vec![0x12] }),
        ClientAction::SpawnChild
    ));
    assert!(matches!(
        interpret(TelnetIn::Text { text: vec![0x14] }),
        ClientAction::ToggleAutorestart
    ));
    assert!(matches!(
        interpret(TelnetIn::Text { text: vec![0x18] }),
        ClientAction::KillChild
    ));
    assert!(matches!(
        interpret(TelnetIn::Text { text: vec![b'q'] }),
        ClientAction::Logout
    ));
}

#[test]
fn ordinary_text_is_forwarded_unchanged() {
    match interpret(TelnetIn::Text { text: b"ls -l\r".to_vec() }) {
        ClientAction::Forward(bytes) => assert_eq!(bytes, b"ls -l\r".to_vec()),
        _ => panic!("expected the text forwarded"),
    }
    // A shortcut byte inside a longer chunk is not a command.
    match interpret(TelnetIn::Text { text: vec![0x18, b'a'] }) {
        ClientAction::Forward(bytes) => assert_eq!(bytes, vec![0x18, b'a']),
        _ => panic!("expected the text forwarded"),
    }
}

#[test]
fn disabled_shortcut_bytes_are_forwarded() {
    let action = interpret_input(None, None, None, None, TelnetIn::Text { text: vec![0x18] });
    match action {
        ClientAction::Forward(bytes) => assert_eq!(bytes, vec![0x18]),
        _ => panic!("expected the byte forwarded"),
    }
}

#[test]
fn window_size_reports_become_resizes() {
    match interpret(TelnetIn::NAWS { rows: 24, columns: 80 }) {
        ClientAction::SetWindowSize(rows, columns) => {
            assert_eq!(rows, Rows(24));
            assert_eq!(columns, Columns(80));
        },
        _ => panic!("expected a resize"),
    }
}

#[test]
fn carriage_frames_are_ignored() {
    assert!(matches!(interpret(TelnetIn::Carriage), ClientAction::Ignore));
}

#[test]
fn hex_rendering_spaces_byte_pairs() {
    assert_eq!(to_hex_string(vec![0xab, 0x01, 0xff]), "ab 01 ff");
    assert_eq!(to_hex_string(vec![0x00]), "00");
    assert_eq!(to_hex_string(Vec::new()), "");
}
