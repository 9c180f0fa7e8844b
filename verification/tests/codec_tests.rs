use rups::codec::{TelnetCodec, TelnetIn, TelnetToken, IAC_DO, IAC_DONT, IAC_SB, IAC_SE, IAC_WILL,
    OPTION_ECHO, OPTION_NAWS};

#[test]
fn codec_it_works() {
}

#[test]
fn text_token_becomes_a_text_frame() {
    let mut codec = TelnetCodec::new();
    let tokens = vec![TelnetToken::Text(b"hello".to_vec())];
    let (frame, consumed) = codec.decode(&tokens);
    assert_eq!(frame, Some(TelnetIn::Text { text: b"hello".to_vec() }));
    assert_eq!(consumed, 1);
}

#[test]
fn empty_tokens_decode_to_nothing() {
    let mut codec = TelnetCodec::new();
    let tokens: Vec<TelnetToken> = Vec::new();
    let (frame, consumed) = codec.decode(&tokens);
    assert_eq!(frame, None);
    assert_eq!(consumed, 0);
}

#[test]
fn window_size_subnegotiation_decodes_big_endian() {
    let mut codec = TelnetCodec::new();
    // SB NAWS enters size mode; the payload is columns then rows, each
    // big-endian: columns 80 (0x0050), rows 24 (0x0018).
    let tokens = vec![
        TelnetToken::Negotiation { command: IAC_SB, channel: OPTION_NAWS },
        TelnetToken::Text(vec![0x00, 0x50, 0x00, 0x18]),
    ];
    let (frame, consumed) = codec.decode(&tokens);
    assert_eq!(frame, Some(TelnetIn::NAWS { rows: 24, columns: 80 }));
    assert_eq!(consumed, 2);
    // SE leaves size mode; later text is plain again.
    let tokens = vec![
        TelnetToken::Command(IAC_SE),
        TelnetToken::Text(b"plain".to_vec()),
    ];
    let (frame, consumed) = codec.decode(&tokens);
    assert_eq!(frame, Some(TelnetIn::Text { text: b"plain".to_vec() }));
    assert_eq!(consumed, 2);
}

#[test]
fn multibyte_window_size() {
    let mut codec = TelnetCodec::new();
    let tokens = vec![
        TelnetToken::Negotiation { command: IAC_SB, channel: OPTION_NAWS },
        TelnetToken::Text(vec![0x01, 0x02, 0x03, 0x04]),
    ];
    let (frame, _) = codec.decode(&tokens);
    // columns = 0x0102 = 258, rows = 0x0304 = 772.
    assert_eq!(frame, Some(TelnetIn::NAWS { rows: 772, columns: 258 }));
}

#[test]
fn negotiations_are_consumed_without_a_frame() {
    let mut codec = TelnetCodec::new();
    let tokens = vec![
        TelnetToken::Negotiation { command: IAC_DO, channel: OPTION_ECHO },
        TelnetToken::Negotiation { command: IAC_DONT, channel: OPTION_ECHO },
        TelnetToken::Negotiation { command: IAC_WILL, channel: OPTION_NAWS },
    ];
    let (frame, consumed) = codec.decode(&tokens);
    assert_eq!(frame, None);
    assert_eq!(consumed, 3);
}

#[test]
fn decoding_stops_at_the_first_frame() {
    let mut codec = TelnetCodec::new();
    let tokens = vec![
        TelnetToken::Negotiation { command: IAC_DO, channel: OPTION_ECHO },
        TelnetToken::Text(b"first".to_vec()),
        TelnetToken::Text(b"second".to_vec()),
    ];
    let (frame, consumed) = codec.decode(&tokens);
    assert_eq!(frame, Some(TelnetIn::Text { text: b"first".to_vec() }));
    assert_eq!(consumed, 2);
}

#[test]
fn encode_appends_bytes_unchanged() {
    let mut codec = TelnetCodec::new();
    let mut buffer: Vec<u8> = b"pre".to_vec();
    codec.encode(b"amble".to_vec(), &mut buffer);
    assert_eq!(buffer, b"preamble".to_vec());
    codec.encode(Vec::new(), &mut buffer);
    assert_eq!(buffer, b"preamble".to_vec());
}
