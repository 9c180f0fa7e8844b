//! Resolved server configuration and shortcut-byte parsing.
//!
//! Argument handling itself happens outside the library; what arrives
//! here is the resolved configuration the core works from. Command
//! shortcuts are single bytes, written on the command line either as one
//! literal letter or as caret notation (`^X`) for a control character.

use vstd::prelude::*;

verus! {

/// The resolved configuration: the command to run, history capacity,
/// behaviour toggles, the restart holdoff (whole seconds plus nanosecond
/// remainder), and the configured single-byte command shortcuts. A
/// shortcut of `None` means the command is disabled.
pub struct Options {
    pub command: Vec<String>,
    pub history_size: usize,
    pub foreground: bool,
    pub interactive: bool,
    pub autostart: bool,
    pub autorestart: bool,
    pub noinfo: bool,
    pub holdoff_secs: u64,
    pub holdoff_nanos: u32,
    pub killcmd: Option<u8>,
    pub togglecmd: Option<u8>,
    pub restartcmd: Option<u8>,
    pub logoutcmd: Option<u8>,
    pub started_at: String,
}

impl Default for Options {
    /// The defaults: a 20000-entry history, automatic start and restart,
    /// five-second holdoff, kill on `^X`, toggle-autorestart on `^T`,
    /// restart on `^R`, no logout shortcut.
    fn default() -> (r: Options)
        ensures
            r.command@ == Seq::<String>::empty(),
            r.history_size == 20000,
            !r.foreground,
            !r.interactive,
            r.autostart,
            r.autorestart,
            !r.noinfo,
            r.holdoff_secs == 5,
            r.holdoff_nanos == 0,
            r.killcmd == Some(0x18u8),
            r.togglecmd == Some(0x14u8),
            r.restartcmd == Some(0x12u8),
            r.logoutcmd is None,
            r.started_at@ == Seq::<char>::empty(),
    {
        Options {
            command: Vec::new(),
            history_size: 20000,
            foreground: false,
            interactive: false,
            autostart: true,
            autorestart: true,
            noinfo: false,
            holdoff_secs: 5,
            holdoff_nanos: 0,
            killcmd: Some(0x18),
            togglecmd: Some(0x14),
            restartcmd: Some(0x12),
            logoutcmd: None,
            started_at: String::new(),
        }
    }
}

impl Options {
    /// Flips whether the child is respawned automatically after it dies.
    pub fn toggle_autorestart(&mut self)
        ensures
            final(self).autorestart == !old(self).autorestart,
            final(self).command == old(self).command,
            final(self).history_size == old(self).history_size,
            final(self).foreground == old(self).foreground,
            final(self).interactive == old(self).interactive,
            final(self).autostart == old(self).autostart,
            final(self).noinfo == old(self).noinfo,
            final(self).holdoff_secs == old(self).holdoff_secs,
            final(self).holdoff_nanos == old(self).holdoff_nanos,
            final(self).killcmd == old(self).killcmd,
            final(self).togglecmd == old(self).togglecmd,
            final(self).restartcmd == old(self).restartcmd,
            final(self).logoutcmd == old(self).logoutcmd,
            final(self).started_at == old(self).started_at,
    {
        self.autorestart = !self.autorestart;
    }

    /// Two enabled commands sharing one shortcut byte (or two commands
    /// both left unset) make the configuration ambiguous; startup must
    /// fail then.
    pub open spec fn shortcuts_conflict_spec(self) -> bool {
        self.killcmd == self.togglecmd || self.killcmd == self.restartcmd || self.togglecmd
            == self.restartcmd
    }

    /// Reports whether the kill, toggle-autorestart and restart
    /// shortcuts collide.
    pub fn shortcuts_conflict(&self) -> (r: bool)
        ensures
            r == self.shortcuts_conflict_spec(),
    {
        opt_byte_eq(self.killcmd, self.togglecmd) || opt_byte_eq(self.killcmd, self.restartcmd)
            || opt_byte_eq(self.togglecmd, self.restartcmd)
    }
}

fn opt_byte_eq(a: Option<u8>, b: Option<u8>) -> (r: bool)
    ensures
        r == (a == b),
{
    match (a, b) {
        (Option::None, Option::None) => true,
        (Option::Some(x), Option::Some(y)) => x == y,
        _ => false,
    }
}

/// What a shortcut argument denotes: `^` followed by a letter is the
/// corresponding control code (the letter's lowest five bits), a single
/// letter stands for itself, an empty argument disables the command, and
/// anything else is rejected.
pub open spec fn parse_shortcut_spec(buf: Seq<u8>) -> Result<Option<u8>, ()> {
    if buf.len() == 2 && buf[0] == 0x5eu8 && 0x41 <= buf[1] <= 0x7a {
        Ok(Some((0x1f & buf[1]) as u8))
    } else if buf.len() == 1 && 0x41 <= buf[0] <= 0x7a {
        Ok(Some(buf[0]))
    } else if buf.len() == 0 {
        Ok(None)
    } else {
        Err(())
    }
}

/// Parses a shortcut argument: caret notation (`^A` through `^z`) maps
/// to the matching control code, a single letter to itself, and an empty
/// argument to a disabled command.
pub fn parse_shortcut(buf: &[u8]) -> (r: Result<Option<u8>, ()>)
    ensures
        r == parse_shortcut_spec(buf@),
{
    if buf.len() == 2 && buf[0] == 0x5e && buf[1] >= 0x41 && buf[1] <= 0x7a {
        Ok(Some(0x1f & buf[1]))
    } else if buf.len() == 1 && buf[0] >= 0x41 && buf[0] <= 0x7a {
        Ok(Some(buf[0]))
    } else if buf.len() == 0 {
        Ok(None)
    } else {
        Err(())
    }
}

} // verus!
