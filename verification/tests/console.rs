use makeup::console::{char_from_utf8, ConsoleError, Decoded, IoFailure, KeyDecoder, Keypress};
use makeup::input::{collect_pending_input, frame_of, InputFrame};

/// Feeds the decoder the events of one key.
fn decode(events: &[Option<u8>]) -> Decoded {
    let mut state = KeyDecoder::new();
    for (i, event) in events.iter().enumerate() {
        match state.step(*event) {
            Decoded::More(next) => state = next,
            done => {
                assert_eq!(events.len(), i + 1, "the key ended early");
                return done;
            }
        }
    }
    Decoded::More(state)
}

fn key(bytes: &[u8]) -> Decoded {
    let events: Vec<Option<u8>> = bytes.iter().map(|b| Some(*b)).collect();
    decode(&events)
}

fn key_then_silence(bytes: &[u8]) -> Decoded {
    let mut events: Vec<Option<u8>> = bytes.iter().map(|b| Some(*b)).collect();
    events.push(None);
    decode(&events)
}

#[test]
fn nothing_to_read() {
    assert_eq!(Decoded::Idle, decode(&[None]));
}

#[test]
fn plain_characters() {
    assert_eq!(Decoded::Key(Keypress::Char('a')), key(b"a"));
    assert_eq!(Decoded::Key(Keypress::Char(' ')), key(b" "));
    assert_eq!(Decoded::Key(Keypress::Char('\u{2}')), key(&[0x02]));
    assert_eq!(Decoded::Key(Keypress::Char('\u{80}')), key(&[0x80]));
    assert_eq!(Decoded::Key(Keypress::Char('\u{ff}')), key(&[0xff]));
}

#[test]
fn control_characters() {
    assert_eq!(Decoded::Key(Keypress::Return), key(b"\r"));
    assert_eq!(Decoded::Key(Keypress::Return), key(b"\n"));
    assert_eq!(Decoded::Key(Keypress::Tab), key(b"\t"));
    assert_eq!(Decoded::Key(Keypress::Backspace), key(&[0x7f]));
    assert_eq!(Decoded::Key(Keypress::Backspace), key(&[0x08]));
    assert_eq!(Decoded::Key(Keypress::Home), key(&[0x01]));
    assert_eq!(Decoded::Key(Keypress::End), key(&[0x05]));
    assert_eq!(Decoded::Failed(ConsoleError::Interrupted), key(&[0x03]));
}

#[test]
fn escape_alone() {
    assert_eq!(Decoded::Key(Keypress::Escape), key_then_silence(&[0x1b]));
    assert_eq!(Decoded::Key(Keypress::Escape), key_then_silence(b"\x1b["));
}

#[test]
fn arrows_and_friends() {
    assert_eq!(Decoded::Key(Keypress::Up), key(b"\x1b[A"));
    assert_eq!(Decoded::Key(Keypress::Down), key(b"\x1b[B"));
    assert_eq!(Decoded::Key(Keypress::Right), key(b"\x1b[C"));
    assert_eq!(Decoded::Key(Keypress::Left), key(b"\x1b[D"));
    assert_eq!(Decoded::Key(Keypress::Home), key(b"\x1b[H"));
    assert_eq!(Decoded::Key(Keypress::End), key(b"\x1b[F"));
    assert_eq!(Decoded::Key(Keypress::ShiftTab), key(b"\x1b[Z"));
}

#[test]
fn tilde_sequences() {
    assert_eq!(Decoded::Key(Keypress::Home), key(b"\x1b[x~1"));
    assert_eq!(Decoded::Key(Keypress::Insert), key(b"\x1b[x~2"));
    assert_eq!(Decoded::Key(Keypress::Delete), key(b"\x1b[x~3"));
    assert_eq!(Decoded::Key(Keypress::End), key(b"\x1b[x~4"));
    assert_eq!(Decoded::Key(Keypress::PageUp), key(b"\x1b[x~5"));
    assert_eq!(Decoded::Key(Keypress::PageDown), key(b"\x1b[x~6"));
    assert_eq!(Decoded::Key(Keypress::Home), key(b"\x1b[x~7"));
    assert_eq!(Decoded::Key(Keypress::End), key(b"\x1b[x~8"));
}

#[test]
fn unknown_sequences() {
    assert_eq!(Decoded::Key(Keypress::UnknownSequence(vec!['\x1b', 'O'])), key(b"\x1bO"));
    assert_eq!(
        Decoded::Key(Keypress::UnknownSequence(vec!['\x1b', '[', '3'])),
        key_then_silence(b"\x1b[3")
    );
    assert_eq!(
        Decoded::Key(Keypress::UnknownSequence(vec!['\x1b', '[', '3', ';'])),
        key(b"\x1b[3;")
    );
    assert_eq!(
        Decoded::Key(Keypress::UnknownSequence(vec!['\x1b', '[', '3', '~'])),
        key_then_silence(b"\x1b[3~")
    );
    assert_eq!(
        Decoded::Key(Keypress::UnknownSequence(vec!['\x1b', '[', '3', '~', '9'])),
        key(b"\x1b[3~9")
    );
}

#[test]
fn characters_of_several_bytes() {
    assert_eq!(Decoded::Key(Keypress::Char('\u{e9}')), key("\u{e9}".as_bytes()));
    assert_eq!(Decoded::Key(Keypress::Char('\u{20ac}')), key("\u{20ac}".as_bytes()));
    assert_eq!(Decoded::Key(Keypress::Char('\u{1f600}')), key("\u{1f600}".as_bytes()));
}

#[test]
fn the_decoder_asks_for_each_byte_of_a_character() {
    let bytes = "\u{1f600}".as_bytes();
    let first = KeyDecoder::new().step(Some(bytes[0]));
    assert_eq!(
        Decoded::More(KeyDecoder::Utf8 { width: 4, first: bytes[0], second: None, third: None }),
        first
    );
    let second = KeyDecoder::Utf8 { width: 4, first: bytes[0], second: None, third: None }
        .step(Some(bytes[1]));
    assert_eq!(
        Decoded::More(KeyDecoder::Utf8 {
            width: 4,
            first: bytes[0],
            second: Some(bytes[1]),
            third: None
        }),
        second
    );
    assert_eq!(Decoded::More(KeyDecoder::Escape), KeyDecoder::Start.step(Some(0x1b)));
    assert_eq!(Decoded::More(KeyDecoder::Csi), KeyDecoder::Escape.step(Some(b'[')));
    assert_eq!(Decoded::More(KeyDecoder::CsiParam(b'5')), KeyDecoder::Csi.step(Some(b'5')));
    assert_eq!(Decoded::More(KeyDecoder::CsiTilde(b'5')), KeyDecoder::CsiParam(b'5').step(Some(b'~')));
}

#[test]
fn bytes_that_are_no_character() {
    assert_eq!(Decoded::Failed(ConsoleError::InvalidUtf8), key(&[0xc3, 0x28]));
    assert_eq!(Decoded::Failed(ConsoleError::InvalidUtf8), key(&[0xe2, 0x82, 0x28]));
    assert_eq!(Decoded::Failed(ConsoleError::InvalidUtf8), key(&[0xf0, 0x9f, 0x98, 0x28]));
    assert_eq!(Decoded::Failed(ConsoleError::InvalidUtf8), key(&[0xc0, 0x80]));
}

#[test]
fn first_character_of_a_text() {
    assert_eq!(Ok('h'), char_from_utf8(b"henol"));
    assert_eq!(Ok('\u{20ac}'), char_from_utf8("\u{20ac}uro".as_bytes()));
    assert_eq!(Err(ConsoleError::InvalidUtf8), char_from_utf8(b""));
    assert_eq!(Err(ConsoleError::InvalidUtf8), char_from_utf8(&[0xff, 0x61]));
    assert_eq!(Err(ConsoleError::InvalidUtf8), char_from_utf8(&[0x61, 0xff]));
}

#[test]
fn console_error_messages() {
    assert_eq!("Interrupted!", ConsoleError::Interrupted.message());
    assert_eq!("IO error", ConsoleError::Io(IoFailure::Other).message());
    assert_eq!(
        "IO error: unexpected end of file",
        ConsoleError::Io(IoFailure::UnexpectedEof).message()
    );
    assert_eq!("invalid utf8 sequence", ConsoleError::InvalidUtf8.message());
}

#[test]
fn frames_of_what_was_read() {
    assert_eq!(Ok(InputFrame::Frame(Keypress::Up)), frame_of(Ok(Some(Keypress::Up))));
    assert_eq!(Ok(InputFrame::Empty), frame_of(Ok(None)));
    assert_eq!(Ok(InputFrame::End), frame_of(Err(ConsoleError::Interrupted)));
    assert_eq!(Ok(InputFrame::End), frame_of(Err(ConsoleError::Io(IoFailure::UnexpectedEof))));
    assert_eq!(
        Err(ConsoleError::Io(IoFailure::Other)),
        frame_of(Err(ConsoleError::Io(IoFailure::Other)))
    );
    assert_eq!(Err(ConsoleError::InvalidUtf8), frame_of(Err(ConsoleError::InvalidUtf8)));
}

#[test]
fn pending_input_is_the_keys_in_order() {
    assert_eq!(Some(vec![]), collect_pending_input(vec![]));
    assert_eq!(
        Some(vec![Keypress::Char('a'), Keypress::Up, Keypress::Char('b')]),
        collect_pending_input(vec![
            InputFrame::Frame(Keypress::Char('a')),
            InputFrame::Empty,
            InputFrame::Frame(Keypress::Up),
            InputFrame::Empty,
            InputFrame::Frame(Keypress::Char('b')),
        ])
    );
    assert_eq!(
        None,
        collect_pending_input(vec![
            InputFrame::Frame(Keypress::Char('a')),
            InputFrame::End,
            InputFrame::Frame(Keypress::Char('b')),
        ])
    );
    assert_eq!(None, collect_pending_input(vec![InputFrame::End]));
}
