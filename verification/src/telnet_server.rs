//! Connection-broker rules: the initial negotiation commands a client is
//! greeted with, the rendering of configured shortcuts, and the
//! interpretation of client input — single-byte control commands are
//! intercepted before anything is forwarded toward the child.

use vstd::prelude::*;
use crate::codec::{TelnetIn, IAC_IAC, IAC_WILL, IAC_DO, OPTION_ECHO, OPTION_SUPPRESS_GO_AHEAD,
    OPTION_NAWS};
use crate::pty::{Rows, Columns};
use crate::util::{ascii_seq, ascii_to_string};

verus! {

/// The negotiation commands sent to every fresh connection: the server
/// will echo, will suppress go-ahead, and asks for window-size reports.
pub fn init_commands() -> (r: Vec<Vec<u8>>)
    ensures
        r@.len() == 3,
        r@[0]@ == seq![IAC_IAC, IAC_WILL, OPTION_ECHO],
        r@[1]@ == seq![IAC_IAC, IAC_WILL, OPTION_SUPPRESS_GO_AHEAD],
        r@[2]@ == seq![IAC_IAC, IAC_DO, OPTION_NAWS],
{
    let mut first: Vec<u8> = Vec::new();
    first.push(IAC_IAC);
    first.push(IAC_WILL);
    first.push(OPTION_ECHO);
    let mut second: Vec<u8> = Vec::new();
    second.push(IAC_IAC);
    second.push(IAC_WILL);
    second.push(OPTION_SUPPRESS_GO_AHEAD);
    let mut third: Vec<u8> = Vec::new();
    third.push(IAC_IAC);
    third.push(IAC_DO);
    third.push(OPTION_NAWS);
    let mut r: Vec<Vec<u8>> = Vec::new();
    proof {
        assert(first@ =~= seq![IAC_IAC, IAC_WILL, OPTION_ECHO]);
        assert(second@ =~= seq![IAC_IAC, IAC_WILL, OPTION_SUPPRESS_GO_AHEAD]);
        assert(third@ =~= seq![IAC_IAC, IAC_DO, OPTION_NAWS]);
    }
    r.push(first);
    r.push(second);
    r.push(third);
    r
}

/// How a configured shortcut is shown to clients: a control code as a
/// caret followed by its letter, a printable byte as itself, a disabled
/// command as the word "disabled".
pub open spec fn format_shortcut_spec(cmd: Option<u8>) -> Seq<char> {
    match cmd {
        Some(c) => if c < 32 {
            seq![(0x5eu8) as char, ((0x40 | c) as u8) as char]
        } else {
            seq![c as char]
        },
        None => "disabled"@,
    }
}

/// Renders a configured shortcut byte for the greeting text: caret
/// notation for control codes, the character itself for a printable
/// byte, "disabled" when the command is unset.
pub fn format_shortcut(cmd: Option<u8>) -> (r: String)
    requires
        cmd matches Some(c) ==> c < 0x80,
    ensures
        r@ == format_shortcut_spec(cmd),
{
    match cmd {
        Some(c) => {
            let mut v: Vec<u8> = Vec::new();
            if c < 32 {
                v.push(0x5e);
                v.push(0x40 | c);
                proof {
                    assert((0x40u8 | c) < 0x80) by (bit_vector)
                        requires
                            c < 32,
                    ;
                    assert(ascii_seq(v@) =~= format_shortcut_spec(cmd));
                }
            } else {
                v.push(c);
                proof {
                    assert(ascii_seq(v@) =~= format_shortcut_spec(cmd));
                }
            }
            ascii_to_string(&v)
        },
        None => <String as vstd::string::StringExecFns>::from_str("disabled"),
    }
}

/// What the broker does with one decoded frame from a client.
pub enum ClientAction {
    SpawnChild,
    ToggleAutorestart,
    KillChild,
    Logout,
    Forward(Vec<u8>),
    SetWindowSize(Rows, Columns),
    Ignore,
}

/// Whether a text frame is exactly one byte matching an enabled
/// shortcut.
pub open spec fn is_shortcut(text: Seq<u8>, cmd: Option<u8>) -> bool {
    text.len() == 1 && cmd == Some(text[0])
}

/// Interprets one decoded frame from a client: a single byte matching an
/// enabled shortcut becomes its control command — restart, then
/// toggle-autorestart, then kill, then logout, in that order of
/// precedence — and is never forwarded to the child; any other text is
/// forwarded unchanged; a window-size report becomes a resize; a bare
/// carriage return is ignored.
pub fn interpret_input(
    killcmd: Option<u8>,
    togglecmd: Option<u8>,
    restartcmd: Option<u8>,
    logoutcmd: Option<u8>,
    input: TelnetIn,
) -> (r: ClientAction)
    ensures
        input matches TelnetIn::NAWS { rows, columns } ==> r == ClientAction::SetWindowSize(
            Rows(rows),
            Columns(columns),
        ),
        input is Carriage ==> r == ClientAction::Ignore,
        input matches TelnetIn::Text { text } ==> if is_shortcut(text@, restartcmd) {
            r == ClientAction::SpawnChild
        } else if is_shortcut(text@, togglecmd) {
            r == ClientAction::ToggleAutorestart
        } else if is_shortcut(text@, killcmd) {
            r == ClientAction::KillChild
        } else if is_shortcut(text@, logoutcmd) {
            r == ClientAction::Logout
        } else {
            r matches ClientAction::Forward(forwarded) && forwarded@ == text@
        },
{
    match input {
        TelnetIn::Text { text } => {
            if text.len() == 1 {
                let cmd = text[0];
                if let Some(restart) = restartcmd {
                    if cmd == restart {
                        return ClientAction::SpawnChild;
                    }
                }
                if let Some(toggle) = togglecmd {
                    if cmd == toggle {
                        return ClientAction::ToggleAutorestart;
                    }
                }
                if let Some(kill) = killcmd {
                    if cmd == kill {
                        return ClientAction::KillChild;
                    }
                }
                if let Some(logout) = logoutcmd {
                    if cmd == logout {
                        return ClientAction::Logout;
                    }
                }
            }
            ClientAction::Forward(text)
        },
        TelnetIn::NAWS { rows, columns } => ClientAction::SetWindowSize(Rows(rows), Columns(columns)),
        TelnetIn::Carriage => ClientAction::Ignore,
    }
}

} // verus!
