//! The telnet-level codec: turns the tokens of the wire-level tokenizer
//! into the frames the broker consumes — text chunks and window-size
//! reports — and tracks the negotiated state (echo, window-size
//! subnegotiation).
//!
//! Byte-level tokenizing (escape handling, subnegotiation framing) is
//! the wire transport's job outside the library; the decoder here is the
//! framing logic proper, specified token by token.

use vstd::prelude::*;

verus! {

// Telnet command bytes (the IAC family).
pub const IAC_SE: u8 = 240;
pub const IAC_NOP: u8 = 241;
pub const IAC_DM: u8 = 242;
pub const IAC_BRK: u8 = 243;
pub const IAC_GA: u8 = 249;
pub const IAC_SB: u8 = 250;
pub const IAC_WILL: u8 = 251;
pub const IAC_WONT: u8 = 252;
pub const IAC_DO: u8 = 253;
pub const IAC_DONT: u8 = 254;
pub const IAC_IAC: u8 = 255;

// Telnet option channels.
pub const OPTION_EXOPL: u8 = 255;
pub const OPTION_TRANSMIT_BINARY: u8 = 0;
pub const OPTION_ECHO: u8 = 1;
pub const OPTION_SUPPRESS_GO_AHEAD: u8 = 3;
pub const OPTION_STATUS: u8 = 5;
pub const OPTION_TIMING_MARK: u8 = 6;
pub const OPTION_LINEMODE: u8 = 34;
pub const OPTION_NAWS: u8 = 31;

/// One token from the wire-level tokenizer: plain text bytes, a bare
/// command, or an option negotiation.
#[derive(Debug, PartialEq)]
pub enum TelnetToken {
    Text(Vec<u8>),
    Command(u8),
    Negotiation { command: u8, channel: u8 },
}

/// One decoded frame: a chunk of text destined for the child, a bare
/// carriage return, or a client's window-size report.
#[derive(Clone, Debug, PartialEq)]
pub enum TelnetIn {
    Text { text: Vec<u8> },
    Carriage,
    NAWS { rows: u16, columns: u16 },
}

/// The mathematical value of a decoded frame.
pub ghost enum DecodedIn {
    Text { text: Seq<u8> },
    Carriage,
    Naws { rows: u16, columns: u16 },
}

impl View for TelnetIn {
    type V = DecodedIn;

    open spec fn view(&self) -> DecodedIn {
        match self {
            TelnetIn::Text { text } => DecodedIn::Text { text: text@ },
            TelnetIn::Carriage => DecodedIn::Carriage,
            TelnetIn::NAWS { rows, columns } => DecodedIn::Naws {
                rows: *rows,
                columns: *columns,
            },
        }
    }
}

/// The mathematical value of a possibly absent frame.
pub open spec fn frame_view(frame: Option<TelnetIn>) -> Option<DecodedIn> {
    match frame {
        Some(produced) => Some(produced@),
        None => None,
    }
}

/// Whether the decoder is reading plain text or the payload of a
/// window-size subnegotiation.
pub enum TelnetCodecMode {
    Text,
    NAWS,
}

/// A 16-bit integer read from two bytes, most significant first.
pub open spec fn be16(hi: u8, lo: u8) -> u16 {
    ((hi as u16) * 256 + lo as u16) as u16
}

/// The decoder mode after one non-producing token: the end of a
/// subnegotiation returns to text mode.
pub open spec fn mode_after_command(mode: TelnetCodecMode, command: u8) -> TelnetCodecMode {
    if command == IAC_SE {
        TelnetCodecMode::Text
    } else {
        mode
    }
}

/// The decoder mode after a negotiation token: the start of a
/// window-size subnegotiation enters that mode.
pub open spec fn mode_after_negotiation(
    mode: TelnetCodecMode,
    command: u8,
    channel: u8,
) -> TelnetCodecMode {
    if command == IAC_SB && channel == OPTION_NAWS {
        TelnetCodecMode::NAWS
    } else {
        mode
    }
}

/// The server-echo flag after a negotiation token: the client grants or
/// revokes echo on the echo channel.
pub open spec fn echo_after_negotiation(echo: bool, command: u8, channel: u8) -> bool {
    if command == IAC_DO && channel == OPTION_ECHO {
        true
    } else if command == IAC_DONT && channel == OPTION_ECHO {
        false
    } else {
        echo
    }
}

/// A token sequence the decoder can process from the given mode: the
/// payload of a window-size subnegotiation holds at least its four size
/// bytes.
pub open spec fn tokens_wf(mode: TelnetCodecMode, tokens: Seq<TelnetToken>) -> bool
    decreases tokens.len(),
{
    if tokens.len() == 0 {
        true
    } else {
        match tokens.first() {
            TelnetToken::Text(bytes) => mode is NAWS ==> bytes@.len() >= 4,
            TelnetToken::Command(command) => tokens_wf(
                mode_after_command(mode, command),
                tokens.drop_first(),
            ),
            TelnetToken::Negotiation { command, channel } => tokens_wf(
                mode_after_negotiation(mode, command, channel),
                tokens.drop_first(),
            ),
        }
    }
}

/// What decoding a token sequence from the given state produces: the
/// first frame (if any), how many tokens were consumed, and the decoder
/// state afterwards. A text token produces a frame and stops; command
/// and negotiation tokens update the state and decoding continues. In
/// window-size mode a text token is the four-byte payload, columns
/// first, each big-endian.
pub open spec fn decode_spec(
    mode: TelnetCodecMode,
    echo: bool,
    tokens: Seq<TelnetToken>,
) -> (Option<DecodedIn>, int, TelnetCodecMode, bool)
    decreases tokens.len(),
{
    if tokens.len() == 0 {
        (None, 0, mode, echo)
    } else {
        match tokens.first() {
            TelnetToken::Text(bytes) => match mode {
                TelnetCodecMode::Text => (Some(DecodedIn::Text { text: bytes@ }), 1, mode, echo),
                TelnetCodecMode::NAWS => (
                    Some(
                        DecodedIn::Naws {
                            rows: be16(bytes@[2], bytes@[3]),
                            columns: be16(bytes@[0], bytes@[1]),
                        },
                    ),
                    1,
                    mode,
                    echo,
                ),
            },
            TelnetToken::Command(command) => {
                let rest = decode_spec(
                    mode_after_command(mode, command),
                    echo,
                    tokens.drop_first(),
                );
                (rest.0, rest.1 + 1, rest.2, rest.3)
            },
            TelnetToken::Negotiation { command, channel } => {
                let rest = decode_spec(
                    mode_after_negotiation(mode, command, channel),
                    echo_after_negotiation(echo, command, channel),
                    tokens.drop_first(),
                );
                (rest.0, rest.1 + 1, rest.2, rest.3)
            },
        }
    }
}

/// The token-by-token decoder: the subnegotiation mode and the
/// negotiated server-echo flag.
pub struct Decoder {
    mode: TelnetCodecMode,
    server_echo: bool,
}

impl Decoder {
    /// Whether the decoder is inside a window-size subnegotiation.
    pub closed spec fn mode_view(self) -> TelnetCodecMode {
        self.mode
    }

    /// Whether the client has granted the server echo.
    pub closed spec fn echo_view(self) -> bool {
        self.server_echo
    }

    /// Creates a decoder in text mode with echo off.
    pub fn new() -> (r: Decoder)
        ensures
            r.mode_view() is Text,
            !r.echo_view(),
    {
        Decoder { mode: TelnetCodecMode::Text, server_echo: false }
    }

    /// Decodes tokens until the first frame: returns the frame (or none
    /// if the tokens ran out) and how many tokens were consumed, and
    /// leaves the decoder in the state the consumed tokens produce —
    /// exactly `decode_spec`.
    pub fn decode(&mut self, tokens: &Vec<TelnetToken>) -> (r: (Option<TelnetIn>, usize))
        requires
            tokens_wf(old(self).mode_view(), tokens@),
        ensures
            frame_view(r.0) == decode_spec(old(self).mode_view(), old(self).echo_view(), tokens@).0,
            r.1 == decode_spec(old(self).mode_view(), old(self).echo_view(), tokens@).1,
            final(self).mode_view() == decode_spec(
                old(self).mode_view(),
                old(self).echo_view(),
                tokens@,
            ).2,
            final(self).echo_view() == decode_spec(
                old(self).mode_view(),
                old(self).echo_view(),
                tokens@,
            ).3,
    {
        let ghost m0 = self.mode;
        let ghost e0 = self.server_echo;
        let ghost toks = tokens@;
        let len = tokens.len();
        let mut i: usize = 0;
        proof {
            assert(toks.skip(0) =~= toks);
        }
        while i < len
            invariant
                0 <= i <= len,
                len == toks.len(),
                toks == tokens@,
                m0 == old(self).mode_view(),
                e0 == old(self).echo_view(),
                tokens_wf(self.mode_view(), toks.skip(i as int)),
                decode_spec(m0, e0, toks) == {
                    let rest = decode_spec(self.mode_view(), self.echo_view(), toks.skip(i as int));
                    (rest.0, rest.1 + i, rest.2, rest.3)
                },
            decreases len - i,
        {
            proof {
                assert(toks.skip(i as int).first() == toks[i as int]);
                assert(toks.skip(i as int).drop_first() =~= toks.skip(i as int + 1));
            }
            match &tokens[i] {
                TelnetToken::Text(bytes) => {
                    match self.mode {
                        TelnetCodecMode::Text => {
                            let mut text: Vec<u8> = Vec::new();
                            let mut j: usize = 0;
                            while j < bytes.len()
                                invariant
                                    j <= bytes@.len(),
                                    text@ == bytes@.take(j as int),
                                decreases bytes@.len() - j,
                            {
                                text.push(bytes[j]);
                                proof {
                                    assert(bytes@.take(j as int + 1) =~= bytes@.take(
                                        j as int,
                                    ).push(bytes@[j as int]));
                                }
                                j = j + 1;
                            }
                            proof {
                                assert(bytes@.take(bytes@.len() as int) =~= bytes@);
                            }
                            return (Some(TelnetIn::Text { text }), i + 1);
                        },
                        TelnetCodecMode::NAWS => {
                            let columns: u16 = (bytes[0] as u16) * 256 + (bytes[1] as u16);
                            let rows: u16 = (bytes[2] as u16) * 256 + (bytes[3] as u16);
                            return (Some(TelnetIn::NAWS { rows, columns }), i + 1);
                        },
                    }
                },
                TelnetToken::Command(command) => {
                    if *command == IAC_SE {
                        match self.mode {
                            TelnetCodecMode::NAWS => {
                                self.mode = TelnetCodecMode::Text;
                            },
                            _ => {},
                        }
                    }
                },
                TelnetToken::Negotiation { command, channel } => {
                    if *command == IAC_DO && *channel == OPTION_ECHO {
                        self.server_echo = true;
                    } else if *command == IAC_DONT && *channel == OPTION_ECHO {
                        self.server_echo = false;
                    } else if *command == IAC_SB && *channel == OPTION_NAWS {
                        self.mode = TelnetCodecMode::NAWS;
                    }
                },
            }
            i = i + 1;
        }
        proof {
            assert(toks.skip(len as int) =~= Seq::<TelnetToken>::empty());
        }
        (None, len)
    }
}

/// The codec a connection speaks through: frames incoming tokens and
/// encodes outgoing byte chunks.
pub struct TelnetCodec {
    decoder: Decoder,
}

impl TelnetCodec {
    /// Whether the codec is inside a window-size subnegotiation.
    pub closed spec fn mode_view(self) -> TelnetCodecMode {
        self.decoder.mode_view()
    }

    /// Whether the client has granted the server echo.
    pub closed spec fn echo_view(self) -> bool {
        self.decoder.echo_view()
    }

    /// Creates a codec in text mode with echo off.
    pub fn new() -> (r: TelnetCodec)
        ensures
            r.mode_view() is Text,
            !r.echo_view(),
    {
        TelnetCodec { decoder: Decoder::new() }
    }

    /// Decodes tokens until the first frame; see `Decoder::decode`.
    pub fn decode(&mut self, tokens: &Vec<TelnetToken>) -> (r: (Option<TelnetIn>, usize))
        requires
            tokens_wf(old(self).mode_view(), tokens@),
        ensures
            frame_view(r.0) == decode_spec(old(self).mode_view(), old(self).echo_view(), tokens@).0,
            r.1 == decode_spec(old(self).mode_view(), old(self).echo_view(), tokens@).1,
            final(self).mode_view() == decode_spec(
                old(self).mode_view(),
                old(self).echo_view(),
                tokens@,
            ).2,
            final(self).echo_view() == decode_spec(
                old(self).mode_view(),
                old(self).echo_view(),
                tokens@,
            ).3,
    {
        self.decoder.decode(tokens)
    }

    /// Encodes one outgoing chunk: its bytes are appended to the output
    /// buffer unchanged.
    pub fn encode(&mut self, msg: Vec<u8>, dst: &mut Vec<u8>)
        ensures
            *final(self) == *old(self),
            final(dst)@ == old(dst)@ + msg@,
    {
        let mut i: usize = 0;
        while i < msg.len()
            invariant
                i <= msg@.len(),
                dst@ == old(dst)@ + msg@.take(i as int),
            decreases msg@.len() - i,
        {
            dst.push(msg[i]);
            proof {
                assert(old(dst)@ + msg@.take(i as int + 1) =~= (old(dst)@ + msg@.take(
                    i as int,
                )).push(msg@[i as int]));
            }
            i = i + 1;
        }
        proof {
            assert(old(dst)@ + msg@.take(msg@.len() as int) =~= old(dst)@ + msg@);
        }
    }
}

} // verus!
