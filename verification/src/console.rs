//! Keys as a terminal sends them, and the decoder that reads them from bytes.

use vstd::prelude::*;
use vstd::utf8::{decode_utf8, valid_utf8};

verus! {

/// One key, as the terminal reports it.
#[derive(Debug, Clone, PartialEq, Eq)]
pub enum Keypress {
    Up,
    Down,
    Right,
    Left,
    Home,
    End,
    ShiftTab,
    Insert,
    Delete,
    PageUp,
    PageDown,
    Return,
    Tab,
    Backspace,
    Escape,
    /// A character.
    Char(char),
    /// An escape sequence that stands for no known key, byte by byte.
    UnknownSequence(Vec<char>),
}

/// What a [`Keypress`] says, with an unknown sequence as a sequence of
/// characters.
pub enum KeypressView {
    Up,
    Down,
    Right,
    Left,
    Home,
    End,
    ShiftTab,
    Insert,
    Delete,
    PageUp,
    PageDown,
    Return,
    Tab,
    Backspace,
    Escape,
    Char(char),
    UnknownSequence(Seq<char>),
}

impl View for Keypress {
    type V = KeypressView;

    open spec fn view(&self) -> KeypressView {
        match *self {
            Keypress::Up => KeypressView::Up,
            Keypress::Down => KeypressView::Down,
            Keypress::Right => KeypressView::Right,
            Keypress::Left => KeypressView::Left,
            Keypress::Home => KeypressView::Home,
            Keypress::End => KeypressView::End,
            Keypress::ShiftTab => KeypressView::ShiftTab,
            Keypress::Insert => KeypressView::Insert,
            Keypress::Delete => KeypressView::Delete,
            Keypress::PageUp => KeypressView::PageUp,
            Keypress::PageDown => KeypressView::PageDown,
            Keypress::Return => KeypressView::Return,
            Keypress::Tab => KeypressView::Tab,
            Keypress::Backspace => KeypressView::Backspace,
            Keypress::Escape => KeypressView::Escape,
            Keypress::Char(c) => KeypressView::Char(c),
            Keypress::UnknownSequence(chars) => KeypressView::UnknownSequence(chars@),
        }
    }
}

/// How reading from the terminal failed.
#[derive(Debug, Clone, Copy, PartialEq, Eq, Structural)]
pub enum IoFailure {
    /// The input ended.
    UnexpectedEof,
    /// Any other failure.
    Other,
}

/// Why no key could be read.
#[derive(Debug, Clone, Copy, PartialEq, Eq, Structural)]
pub enum ConsoleError {
    /// The user interrupted the program.
    Interrupted,
    /// Reading from the terminal failed.
    Io(IoFailure),
    /// The bytes of a character are no UTF-8.
    InvalidUtf8,
}

impl ConsoleError {
    /// The message of the error.
    pub fn message(&self) -> (s: String)
        ensures
            s@ == self.spec_message(),
    {
        match self {
            ConsoleError::Interrupted => String::from_str("Interrupted!"),
            ConsoleError::Io(IoFailure::UnexpectedEof) => String::from_str(
                "IO error: unexpected end of file",
            ),
            ConsoleError::Io(IoFailure::Other) => String::from_str("IO error"),
            ConsoleError::InvalidUtf8 => String::from_str("invalid utf8 sequence"),
        }
    }

    /// The text of the message.
    pub open spec fn spec_message(&self) -> Seq<char> {
        match *self {
            ConsoleError::Interrupted => "Interrupted!"@,
            ConsoleError::Io(IoFailure::UnexpectedEof) => "IO error: unexpected end of file"@,
            ConsoleError::Io(IoFailure::Other) => "IO error"@,
            ConsoleError::InvalidUtf8 => "invalid utf8 sequence"@,
        }
    }
}

/// `std::str::Utf8Error`, what `std::str::from_utf8` fails with.
#[verifier::external_type_specification]
#[verifier::external_body]
pub struct ExUtf8Error(core::str::Utf8Error);

/// `std::str::from_utf8` succeeds on the bytes that are valid UTF-8, and only
/// on them; the string slice then holds the characters that the bytes encode.
pub assume_specification[ core::str::from_utf8 ](v: &[u8]) -> (r: Result<
    &str,
    core::str::Utf8Error,
>)
    ensures
        r is Ok <==> valid_utf8(v@),
        r matches Ok(s) ==> s@ == decode_utf8(v@),
;

/// The first character that `bytes` encode, where they are valid UTF-8 and
/// encode one.
pub open spec fn first_char(bytes: Seq<u8>) -> Option<char> {
    if valid_utf8(bytes) && decode_utf8(bytes).len() > 0 {
        Some(decode_utf8(bytes)[0])
    } else {
        None
    }
}

/// Reads the first character of a UTF-8 text.
pub fn char_from_utf8(buf: &[u8]) -> (r: Result<char, ConsoleError>)
    ensures
        match first_char(buf@) {
            Some(c) => r == Ok::<char, ConsoleError>(c),
            None => r == Err::<char, ConsoleError>(ConsoleError::InvalidUtf8),
        },
{
    match core::str::from_utf8(buf) {
        Ok(text) => {
            if text.unicode_len() > 0 {
                Ok(text.get_char(0))
            } else {
                Err(ConsoleError::InvalidUtf8)
            }
        },
        Err(_) => Err(ConsoleError::InvalidUtf8),
    }
}

/// Where the decoder stands inside a key: what it has read of the key so far.
#[derive(Debug, Clone, Copy, PartialEq, Eq, Structural)]
pub enum KeyDecoder {
    /// Between two keys.
    Start,
    /// Behind `ESC`.
    Escape,
    /// Behind `ESC [`.
    Csi,
    /// Behind `ESC [` and one more byte, which is kept.
    CsiParam(u8),
    /// Behind `ESC [`, one more byte, which is kept, and `~`.
    CsiTilde(u8),
    /// Inside a character of `width` bytes, behind its first bytes.
    Utf8 { width: u8, first: u8, second: Option<u8>, third: Option<u8> },
}

/// What a byte did to the decoder.
#[derive(Debug, Clone, PartialEq, Eq)]
pub enum Decoded {
    /// The key goes on: read the next byte.
    More(KeyDecoder),
    /// The key is complete.
    Key(Keypress),
    /// No byte came and no key had begun.
    Idle,
    /// The key cannot be read.
    Failed(ConsoleError),
}

/// What a [`Decoded`] says.
pub enum DecodedView {
    More(KeyDecoder),
    Key(KeypressView),
    Idle,
    Failed(ConsoleError),
}

impl View for Decoded {
    type V = DecodedView;

    open spec fn view(&self) -> DecodedView {
        match *self {
            Decoded::More(state) => DecodedView::More(state),
            Decoded::Key(key) => DecodedView::Key(key@),
            Decoded::Idle => DecodedView::Idle,
            Decoded::Failed(e) => DecodedView::Failed(e),
        }
    }
}

/// `ESC`, as a character.
pub open spec fn esc() -> char {
    '\u{1b}'
}

/// The decoder's answer for the bytes of a whole character.
pub open spec fn decoded_char(bytes: Seq<u8>) -> DecodedView {
    match first_char(bytes) {
        Some(c) => DecodedView::Key(KeypressView::Char(c)),
        None => DecodedView::Failed(ConsoleError::InvalidUtf8),
    }
}

impl KeyDecoder {
    /// Between two keys: `None` means that no byte came in time. The first
    /// byte of a character of several bytes says how many bytes there are.
    pub open spec fn spec_start(event: Option<u8>) -> DecodedView {
        match event {
            None => DecodedView::Idle,
            Some(b) => if b == 0x1b {
                DecodedView::More(KeyDecoder::Escape)
            } else if b == 0x0d || b == 0x0a {
                DecodedView::Key(KeypressView::Return)
            } else if b == 0x09 {
                DecodedView::Key(KeypressView::Tab)
            } else if b == 0x7f || b == 0x08 {
                DecodedView::Key(KeypressView::Backspace)
            } else if b == 0x01 {
                DecodedView::Key(KeypressView::Home)
            } else if b == 0x03 {
                DecodedView::Failed(ConsoleError::Interrupted)
            } else if b == 0x05 {
                DecodedView::Key(KeypressView::End)
            } else if 0xc0 <= b < 0xe0 {
                DecodedView::More(KeyDecoder::Utf8 { width: 2, first: b, second: None, third: None })
            } else if 0xe0 <= b < 0xf0 {
                DecodedView::More(KeyDecoder::Utf8 { width: 3, first: b, second: None, third: None })
            } else if 0xf0 <= b < 0xf8 {
                DecodedView::More(KeyDecoder::Utf8 { width: 4, first: b, second: None, third: None })
            } else {
                DecodedView::Key(KeypressView::Char(b as char))
            },
        }
    }

    /// Behind `ESC [`.
    pub open spec fn spec_csi(event: Option<u8>) -> DecodedView {
        match event {
            None => DecodedView::Key(KeypressView::Escape),
            Some(b) => if b == 0x41 {
                DecodedView::Key(KeypressView::Up)
            } else if b == 0x42 {
                DecodedView::Key(KeypressView::Down)
            } else if b == 0x43 {
                DecodedView::Key(KeypressView::Right)
            } else if b == 0x44 {
                DecodedView::Key(KeypressView::Left)
            } else if b == 0x48 {
                DecodedView::Key(KeypressView::Home)
            } else if b == 0x46 {
                DecodedView::Key(KeypressView::End)
            } else if b == 0x5a {
                DecodedView::Key(KeypressView::ShiftTab)
            } else {
                DecodedView::More(KeyDecoder::CsiParam(b))
            },
        }
    }

    /// Behind `ESC [`, the byte `kept` and `~`.
    pub open spec fn spec_tilde(kept: u8, event: Option<u8>) -> DecodedView {
        match event {
            None => DecodedView::Key(
                KeypressView::UnknownSequence(seq![esc(), '[', kept as char, '~']),
            ),
            Some(b) => if b == 0x31 || b == 0x37 {
                DecodedView::Key(KeypressView::Home)
            } else if b == 0x32 {
                DecodedView::Key(KeypressView::Insert)
            } else if b == 0x33 {
                DecodedView::Key(KeypressView::Delete)
            } else if b == 0x34 || b == 0x38 {
                DecodedView::Key(KeypressView::End)
            } else if b == 0x35 {
                DecodedView::Key(KeypressView::PageUp)
            } else if b == 0x36 {
                DecodedView::Key(KeypressView::PageDown)
            } else {
                DecodedView::Key(
                    KeypressView::UnknownSequence(seq![esc(), '[', kept as char, '~', b as char]),
                )
            },
        }
    }

    /// Inside a character, when the byte `b` comes.
    pub open spec fn spec_utf8(
        width: u8,
        first: u8,
        second: Option<u8>,
        third: Option<u8>,
        b: u8,
    ) -> DecodedView {
        match (second, third) {
            (None, _) => if width <= 2 {
                decoded_char(seq![first, b])
            } else {
                DecodedView::More(KeyDecoder::Utf8 { width, first, second: Some(b), third: None })
            },
            (Some(s), None) => if width <= 3 {
                decoded_char(seq![first, s, b])
            } else {
                DecodedView::More(
                    KeyDecoder::Utf8 { width, first, second: Some(s), third: Some(b) },
                )
            },
            (Some(s), Some(t)) => decoded_char(seq![first, s, t, b]),
        }
    }

    /// What the next byte does to the decoder; `None` means that no byte came
    /// in time.
    pub open spec fn spec_step(self, event: Option<u8>) -> DecodedView {
        match self {
            KeyDecoder::Start => Self::spec_start(event),
            KeyDecoder::Escape => match event {
                None => DecodedView::Key(KeypressView::Escape),
                Some(b) => if b == 0x5b {
                    DecodedView::More(KeyDecoder::Csi)
                } else {
                    DecodedView::Key(KeypressView::UnknownSequence(seq![esc(), b as char]))
                },
            },
            KeyDecoder::Csi => Self::spec_csi(event),
            KeyDecoder::CsiParam(kept) => match event {
                None => DecodedView::Key(
                    KeypressView::UnknownSequence(seq![esc(), '[', kept as char]),
                ),
                Some(b) => if b == 0x7e {
                    DecodedView::More(KeyDecoder::CsiTilde(kept))
                } else {
                    DecodedView::Key(
                        KeypressView::UnknownSequence(seq![esc(), '[', kept as char, b as char]),
                    )
                },
            },
            KeyDecoder::CsiTilde(kept) => Self::spec_tilde(kept, event),
            KeyDecoder::Utf8 { width, first, second, third } => match event {
                Some(b) => Self::spec_utf8(width, first, second, third, b),
                None => DecodedView::Failed(ConsoleError::InvalidUtf8),
            },
        }
    }

    /// A decoder between two keys.
    pub fn new() -> (decoder: Self)
        ensures
            decoder == KeyDecoder::Start,
    {
        KeyDecoder::Start
    }

    /// Hands the decoder the next byte of the terminal, or `None` where no
    /// byte came in time. Inside a character the next byte has to be there.
    pub fn step(self, event: Option<u8>) -> (decoded: Decoded)
        requires
            self is Utf8 ==> event is Some,
        ensures
            decoded@ == self.spec_step(event),
    {
        match self {
            KeyDecoder::Start => step_start(event),
            KeyDecoder::Escape => match event {
                None => Decoded::Key(Keypress::Escape),
                Some(b) => if b == 0x5b {
                    Decoded::More(KeyDecoder::Csi)
                } else {
                    unknown(vec!['\u{1b}', b as char])
                },
            },
            KeyDecoder::Csi => step_csi(event),
            KeyDecoder::CsiParam(kept) => match event {
                None => unknown(vec!['\u{1b}', '[', kept as char]),
                Some(b) => if b == 0x7e {
                    Decoded::More(KeyDecoder::CsiTilde(kept))
                } else {
                    unknown(vec!['\u{1b}', '[', kept as char, b as char])
                },
            },
            KeyDecoder::CsiTilde(kept) => step_tilde(kept, event),
            KeyDecoder::Utf8 { width, first, second, third } => match event {
                Some(b) => step_utf8(width, first, second, third, b),
                None => Decoded::Failed(ConsoleError::InvalidUtf8),
            },
        }
    }
}

fn unknown(chars: Vec<char>) -> (decoded: Decoded)
    ensures
        decoded@ == DecodedView::Key(KeypressView::UnknownSequence(chars@)),
{
    Decoded::Key(Keypress::UnknownSequence(chars))
}

fn whole_char(bytes: Vec<u8>) -> (decoded: Decoded)
    ensures
        decoded@ == decoded_char(bytes@),
{
    match char_from_utf8(bytes.as_slice()) {
        Ok(c) => Decoded::Key(Keypress::Char(c)),
        Err(e) => Decoded::Failed(e),
    }
}

fn step_start(event: Option<u8>) -> (decoded: Decoded)
    ensures
        decoded@ == KeyDecoder::spec_start(event),
{
    match event {
        None => Decoded::Idle,
        Some(b) => {
            assert((b & 224u8 == 192u8) == (0xc0u8 <= b && b < 0xe0u8)) by (bit_vector);
            assert((b & 240u8 == 224u8) == (0xe0u8 <= b && b < 0xf0u8)) by (bit_vector);
            assert((b & 248u8 == 240u8) == (0xf0u8 <= b && b < 0xf8u8)) by (bit_vector);
            if b == 0x1b {
                Decoded::More(KeyDecoder::Escape)
            } else if b == 0x0d || b == 0x0a {
                Decoded::Key(Keypress::Return)
            } else if b == 0x09 {
                Decoded::Key(Keypress::Tab)
            } else if b == 0x7f || b == 0x08 {
                Decoded::Key(Keypress::Backspace)
            } else if b == 0x01 {
                Decoded::Key(Keypress::Home)
            } else if b == 0x03 {
                Decoded::Failed(ConsoleError::Interrupted)
            } else if b == 0x05 {
                Decoded::Key(Keypress::End)
            } else if b & 224u8 == 192u8 {
                Decoded::More(KeyDecoder::Utf8 { width: 2, first: b, second: None, third: None })
            } else if b & 240u8 == 224u8 {
                Decoded::More(KeyDecoder::Utf8 { width: 3, first: b, second: None, third: None })
            } else if b & 248u8 == 240u8 {
                Decoded::More(KeyDecoder::Utf8 { width: 4, first: b, second: None, third: None })
            } else {
                Decoded::Key(Keypress::Char(b as char))
            }
        },
    }
}

fn step_csi(event: Option<u8>) -> (decoded: Decoded)
    ensures
        decoded@ == KeyDecoder::spec_csi(event),
{
    match event {
        None => Decoded::Key(Keypress::Escape),
        Some(b) => if b == 0x41 {
            Decoded::Key(Keypress::Up)
        } else if b == 0x42 {
            Decoded::Key(Keypress::Down)
        } else if b == 0x43 {
            Decoded::Key(Keypress::Right)
        } else if b == 0x44 {
            Decoded::Key(Keypress::Left)
        } else if b == 0x48 {
            Decoded::Key(Keypress::Home)
        } else if b == 0x46 {
            Decoded::Key(Keypress::End)
        } else if b == 0x5a {
            Decoded::Key(Keypress::ShiftTab)
        } else {
            Decoded::More(KeyDecoder::CsiParam(b))
        },
    }
}

fn step_tilde(kept: u8, event: Option<u8>) -> (decoded: Decoded)
    ensures
        decoded@ == KeyDecoder::spec_tilde(kept, event),
{
    match event {
        None => unknown(vec!['\u{1b}', '[', kept as char, '~']),
        Some(b) => if b == 0x31 || b == 0x37 {
            Decoded::Key(Keypress::Home)
        } else if b == 0x32 {
            Decoded::Key(Keypress::Insert)
        } else if b == 0x33 {
            Decoded::Key(Keypress::Delete)
        } else if b == 0x34 || b == 0x38 {
            Decoded::Key(Keypress::End)
        } else if b == 0x35 {
            Decoded::Key(Keypress::PageUp)
        } else if b == 0x36 {
            Decoded::Key(Keypress::PageDown)
        } else {
            unknown(vec!['\u{1b}', '[', kept as char, '~', b as char])
        },
    }
}

fn step_utf8(width: u8, first: u8, second: Option<u8>, third: Option<u8>, b: u8) -> (decoded:
    Decoded)
    ensures
        decoded@ == KeyDecoder::spec_utf8(width, first, second, third, b),
{
    match (second, third) {
        (None, _) => if width <= 2 {
            whole_char(vec![first, b])
        } else {
            Decoded::More(KeyDecoder::Utf8 { width, first, second: Some(b), third: None })
        },
        (Some(s), None) => if width <= 3 {
            whole_char(vec![first, s, b])
        } else {
            Decoded::More(KeyDecoder::Utf8 { width, first, second: Some(s), third: Some(b) })
        },
        (Some(s), Some(t)) => whole_char(vec![first, s, t, b]),
    }
}

} // verus!
