use rups::options::{parse_shortcut, Options};

#[test]
fn caret_notation_maps_to_control_codes() {
    // ^X is Ctrl-X: the letter's lowest five bits.
    assert_eq!(parse_shortcut(b"^X"), Ok(Some(0x18)));
    assert_eq!(parse_shortcut(b"^T"), Ok(Some(0x14)));
    assert_eq!(parse_shortcut(b"^R"), Ok(Some(0x12)));
    assert_eq!(parse_shortcut(b"^a"), Ok(Some(0x01)));
}

#[test]
fn single_letters_stand_for_themselves() {
    assert_eq!(parse_shortcut(b"x"), Ok(Some(b'x')));
    assert_eq!(parse_shortcut(b"A"), Ok(Some(b'A')));
}

#[test]
fn empty_argument_disables_the_command() {
    assert_eq!(parse_shortcut(b""), Ok(None));
}

#[test]
fn malformed_shortcuts_are_rejected() {
    // A lone caret is itself a letter-range byte, so it parses.
    assert_eq!(parse_shortcut(b"^"), Ok(Some(b'^')));
    assert_eq!(parse_shortcut(b"ab"), Err(()));
    assert_eq!(parse_shortcut(b"^xy"), Err(()));
    assert_eq!(parse_shortcut(b"1"), Err(()));
    assert_eq!(parse_shortcut(b"^1"), Err(()));
}

#[test]
fn defaults_match_the_documented_configuration() {
    let options = Options::default();
    assert_eq!(options.history_size, 20000);
    assert!(options.autostart);
    assert!(options.autorestart);
    assert!(!options.foreground);
    assert!(!options.interactive);
    assert!(!options.noinfo);
    assert_eq!(options.holdoff_secs, 5);
    assert_eq!(options.holdoff_nanos, 0);
    assert_eq!(options.killcmd, Some(0x18));
    assert_eq!(options.togglecmd, Some(0x14));
    assert_eq!(options.restartcmd, Some(0x12));
    assert_eq!(options.logoutcmd, None);
    assert!(!options.shortcuts_conflict());
}

#[test]
fn toggling_autorestart_flips_the_flag() {
    let mut options = Options::default();
    options.toggle_autorestart();
    assert!(!options.autorestart);
    options.toggle_autorestart();
    assert!(options.autorestart);
}

#[test]
fn shared_shortcuts_conflict() {
    let mut options = Options::default();
    options.killcmd = options.restartcmd;
    assert!(options.shortcuts_conflict());
    let mut options = Options::default();
    options.togglecmd = Some(0x12);
    assert!(options.shortcuts_conflict());
    // Two commands both left unset are also ambiguous.
    let mut options = Options::default();
    options.killcmd = None;
    options.togglecmd = None;
    assert!(options.shortcuts_conflict());
}
