//! ANSI escape sequences: a structured description of each sequence and its
//! exact text.

use vstd::prelude::*;
use crate::text::{decimal, push_decimal};

verus! {

/// ANSI escape sequences.
#[derive(Debug, Clone, Hash, PartialEq, Eq, PartialOrd, Ord)]
pub enum Ansi {
    /// Set the (x, y) cursor position.
    CursorPosition(u64, u64),
    /// Set the cursor style.
    CursorStyle(CursorStyle),
    /// Set the cursor visibility.
    CursorVisibility(CursorVisibility),
    /// Move the cursor up.
    CursorUp(u64),
    /// Move the cursor down.
    CursorDown(u64),
    /// Move the cursor left.
    CursorLeft(u64),
    /// Move the cursor right.
    CursorRight(u64),
    /// Move the cursor to the start of the line `count` steps down.
    CursorNextLine(u64),
    /// Move the cursor to the start of the line `count` steps up.
    CursorPreviousLine(u64),
    /// Move the cursor to the column `x`.
    CursorHorizontalAbsolute(u64),
    /// Save the current position of the cursor.
    SaveCursorPosition,
    /// Restore the position of the cursor.
    RestoreCursorPosition,
    /// Erase part of the current display.
    EraseInDisplay(DisplayEraseMode),
    /// Erase part of the current line.
    EraseInLine(LineEraseMode),
    /// Scroll the display up.
    ScrollUp(u64),
    /// Scroll the display down.
    ScrollDown(u64),
    /// Set the terminal size (width, height).
    TerminalSize(u64, u64),
    /// Set the terminal title.
    TerminalTitle(String),
    /// Set the terminal foreground colour.
    TerminalForegroundColour(Colour),
    /// Set the terminal background colour.
    TerminalBackgroundColour(Colour),
    /// Set graphic rendition attributes.
    Sgr(Vec<SgrParameter>),
}

/// Terminal cursor styles.
#[derive(Debug, Clone, Copy, Hash, PartialEq, Eq, PartialOrd, Ord, Structural)]
pub enum CursorStyle {
    /// The cursor is a block.
    Block,
    /// The cursor is a bar.
    Bar,
    /// The cursor is a hollow block.
    HollowBlock,
}

/// Terminal cursor visibility.
#[derive(Debug, Clone, Copy, Hash, PartialEq, Eq, PartialOrd, Ord, Structural)]
pub enum CursorVisibility {
    /// The cursor is visible.
    Visible,
    /// The cursor is invisible.
    Invisible,
}

/// Default 8-bit colour palette.
#[derive(Debug, Clone, Copy, Hash, PartialEq, Eq, PartialOrd, Ord, Structural)]
pub enum Colour {
    Black,
    Red,
    Green,
    Yellow,
    Blue,
    Magenta,
    Cyan,
    White,
    BrightBlack,
    BrightRed,
    BrightGreen,
    BrightYellow,
    BrightBlue,
    BrightMagenta,
    BrightCyan,
    BrightWhite,
}

/// Erase part or all of the current display.
#[derive(Debug, Clone, Copy, Hash, PartialEq, Eq, PartialOrd, Ord, Structural)]
pub enum DisplayEraseMode {
    /// Erase from the cursor to the end of the display.
    FromCursorToEnd,
    /// Erase from the cursor to the start of the display.
    FromCursorToStart,
    /// Erase the entire display.
    All,
    /// Erase the scrollback buffer.
    ScrollbackBuffer,
}

/// Erase part or all of the current line. Does not move the cursor.
#[derive(Debug, Clone, Copy, Hash, PartialEq, Eq, PartialOrd, Ord, Structural)]
pub enum LineEraseMode {
    /// Erase from the cursor to the end of the line.
    FromCursorToEnd,
    /// Erase from the cursor to the start of the line.
    FromCursorToStart,
    /// Erase the entire line.
    All,
}

/// Select Graphic Rendition parameters.
#[derive(Debug, Clone, Copy, Hash, PartialEq, Eq, PartialOrd, Ord, Structural)]
pub enum SgrParameter {
    /// Reset all attributes.
    Reset,
    /// Bold.
    Bold,
    /// Faint.
    Faint,
    /// Italic.
    Italic,
    /// Underline.
    Underline,
    /// Blink.
    Blink,
    /// Rapid blink.
    RapidBlink,
    /// Reverse video, also known as invert.
    ReverseVideo,
    /// Conceal the text.
    Conceal,
    /// Crossed out.
    CrossedOut,
    /// Select the primary font.
    PrimaryFont,
    /// Select the alternative font at the given index.
    AlternativeFont(u64),
    /// Fraktur mode.
    Fraktur,
    /// Double underline.
    DoubleUnderline,
    /// Normal intensity.
    NormalIntensity,
    /// Not italic or blackletter.
    NotItalicOrBlackletter,
    /// Not underlined.
    NotUnderlined,
    /// Steady (not blinking).
    SteadyCursor,
    /// Proportional spacing.
    ProportionalSpacing,
    /// Not reversed.
    NotReversed,
    /// Reveal concealed text.
    Reveal,
    /// Not crossed out.
    NotCrossedOut,
    /// Set the foreground colour from the palette.
    ForegroundColour(Colour),
    /// Set the background colour from the palette.
    BackgroundColour(Colour),
    /// Set the foreground colour to a 24-bit colour.
    HexForegroundColour(u32),
    /// Set the background colour to a 24-bit colour.
    HexBackgroundColour(u32),
    /// Back to the default foreground colour.
    DefaultForegroundColour,
    /// Back to the default background colour.
    DefaultBackgroundColour,
    /// Disable proportional spacing.
    DisableProportionalSpacing,
    /// Framed.
    Framed,
    /// Encircled.
    Encircled,
    /// Overlined.
    Overlined,
    /// Not framed or encircled.
    NotFramedOrEncircled,
    /// Not overlined.
    NotOverlined,
    /// Set the underline colour from the palette.
    UnderlineColour(Colour),
    /// Set the underline colour to a 24-bit colour.
    HexUnderlineColour(u32),
    /// Back to the default underline colour.
    DefaultUnderlineColour,
    /// Ideogram underline or right side line.
    IdeogramUnderlineOrRightSideLine,
    /// Ideogram double underline or double line on the right side.
    IdeogramDoubleUnderlineOrDoubleLineOnTheRightSide,
    /// Ideogram overline or left side line.
    IdeogramOverlineOrLeftSideLine,
    /// Ideogram double overline or double line on the left side.
    IdeogramDoubleOverlineOrDoubleLineOnTheLeftSide,
    /// Ideogram stress marking.
    IdeogramStressMarking,
    /// Ideogram attributes off.
    IdeogramAttributesOff,
    /// Superscript.
    Superscript,
    /// Subscript.
    Subscript,
    /// Neither superscript nor subscript.
    NotSuperscriptOrSubscript,
}

/// The control sequence introducer, `ESC [`.
pub open spec fn csi() -> Seq<char> {
    seq!['\u{1b}', '[']
}

/// The red, green and blue bytes of a 24-bit colour; higher bits are ignored.
pub open spec fn rgb_of(hex: u32) -> (nat, nat, nat) {
    (((hex as nat) / 0x10000) % 0x100, ((hex as nat) / 0x100) % 0x100, (hex as nat) % 0x100)
}

/// `prefix;mode;value`, the shape of a palette colour parameter.
pub open spec fn palette_code(prefix: nat, index: nat) -> Seq<char> {
    decimal(prefix) + seq![';'] + decimal(5) + seq![';'] + decimal(index)
}

/// `prefix;2;r;g;b`, the shape of a 24-bit colour parameter.
pub open spec fn truecolour_code(prefix: nat, hex: u32) -> Seq<char> {
    decimal(prefix) + seq![';'] + decimal(2) + seq![';'] + decimal(rgb_of(hex).0) + seq![';']
        + decimal(rgb_of(hex).1) + seq![';'] + decimal(rgb_of(hex).2)
}

/// The parameters of a list of attributes, separated by `;`.
pub open spec fn sgr_codes(attributes: Seq<SgrParameter>) -> Seq<char>
    decreases attributes.len(),
{
    if attributes.len() == 0 {
        Seq::empty()
    } else if attributes.len() == 1 {
        attributes[0].spec_code()
    } else {
        sgr_codes(attributes.drop_last()) + seq![';'] + attributes.last().spec_code()
    }
}

/// The text of an SGR sequence with the given attributes.
pub open spec fn sgr_text(attributes: Seq<SgrParameter>) -> Seq<char> {
    csi() + sgr_codes(attributes) + seq!['m']
}

/// Appends the SGR sequence with the one attribute `parameter` to `out`.
pub fn push_sgr(out: &mut String, parameter: SgrParameter)
    ensures
        final(out)@ == old(out)@ + sgr_text(seq![parameter]),
{
    let attributes = vec![parameter];
    assert(attributes@ =~= seq![parameter]);
    Ansi::Sgr(attributes).render(out);
}

impl Colour {
    /// The position of the colour in the palette.
    pub open spec fn spec_index(&self) -> nat {
        match *self {
            Colour::Black => 0,
            Colour::Red => 1,
            Colour::Green => 2,
            Colour::Yellow => 3,
            Colour::Blue => 4,
            Colour::Magenta => 5,
            Colour::Cyan => 6,
            Colour::White => 7,
            Colour::BrightBlack => 8,
            Colour::BrightRed => 9,
            Colour::BrightGreen => 10,
            Colour::BrightYellow => 11,
            Colour::BrightBlue => 12,
            Colour::BrightMagenta => 13,
            Colour::BrightCyan => 14,
            Colour::BrightWhite => 15,
        }
    }

    /// Index in the palette.
    pub fn index(&self) -> (i: u64)
        ensures
            i == self.spec_index(),
            i < 16,
    {
        match *self {
            Colour::Black => 0,
            Colour::Red => 1,
            Colour::Green => 2,
            Colour::Yellow => 3,
            Colour::Blue => 4,
            Colour::Magenta => 5,
            Colour::Cyan => 6,
            Colour::White => 7,
            Colour::BrightBlack => 8,
            Colour::BrightRed => 9,
            Colour::BrightGreen => 10,
            Colour::BrightYellow => 11,
            Colour::BrightBlue => 12,
            Colour::BrightMagenta => 13,
            Colour::BrightCyan => 14,
            Colour::BrightWhite => 15,
        }
    }
}

impl SgrParameter {
    /// The text of the parameter inside an SGR sequence.
    pub open spec fn spec_code(&self) -> Seq<char> {
        match *self {
            SgrParameter::Reset => decimal(0),
            SgrParameter::Bold => decimal(1),
            SgrParameter::Faint => decimal(2),
            SgrParameter::Italic => decimal(3),
            SgrParameter::Underline => decimal(4),
            SgrParameter::Blink => decimal(5),
            SgrParameter::RapidBlink => decimal(6),
            SgrParameter::ReverseVideo => decimal(7),
            SgrParameter::Conceal => decimal(8),
            SgrParameter::CrossedOut => decimal(9),
            SgrParameter::PrimaryFont => decimal(10),
            SgrParameter::AlternativeFont(index) => decimal(10 + index as nat),
            SgrParameter::Fraktur => decimal(20),
            SgrParameter::DoubleUnderline => decimal(21),
            SgrParameter::NormalIntensity => decimal(22),
            SgrParameter::NotItalicOrBlackletter => decimal(23),
            SgrParameter::NotUnderlined => decimal(24),
            SgrParameter::SteadyCursor => decimal(25),
            SgrParameter::ProportionalSpacing => decimal(26),
            SgrParameter::NotReversed => decimal(27),
            SgrParameter::Reveal => decimal(28),
            SgrParameter::NotCrossedOut => decimal(29),
            SgrParameter::ForegroundColour(colour) => palette_code(38, colour.spec_index()),
            SgrParameter::BackgroundColour(colour) => palette_code(48, colour.spec_index()),
            SgrParameter::HexForegroundColour(hex) => truecolour_code(38, hex),
            SgrParameter::HexBackgroundColour(hex) => truecolour_code(48, hex),
            SgrParameter::DefaultForegroundColour => decimal(39),
            SgrParameter::DefaultBackgroundColour => decimal(49),
            SgrParameter::DisableProportionalSpacing => decimal(50),
            SgrParameter::Framed => decimal(51),
            SgrParameter::Encircled => decimal(52),
            SgrParameter::Overlined => decimal(53),
            SgrParameter::NotFramedOrEncircled => decimal(54),
            SgrParameter::NotOverlined => decimal(55),
            SgrParameter::UnderlineColour(colour) => palette_code(58, colour.spec_index()),
            SgrParameter::HexUnderlineColour(hex) => truecolour_code(58, hex),
            SgrParameter::DefaultUnderlineColour => decimal(59),
            SgrParameter::IdeogramUnderlineOrRightSideLine => decimal(60),
            SgrParameter::IdeogramDoubleUnderlineOrDoubleLineOnTheRightSide => decimal(61),
            SgrParameter::IdeogramOverlineOrLeftSideLine => decimal(62),
            SgrParameter::IdeogramDoubleOverlineOrDoubleLineOnTheLeftSide => decimal(63),
            SgrParameter::IdeogramStressMarking => decimal(64),
            SgrParameter::IdeogramAttributesOff => decimal(65),
            SgrParameter::Superscript => decimal(73),
            SgrParameter::Subscript => decimal(74),
            SgrParameter::NotSuperscriptOrSubscript => decimal(75),
        }
    }

    /// Appends the text of the parameter to `out`.
    pub fn push_code(&self, out: &mut String)
        ensures
            final(out)@ == old(out)@ + self.spec_code(),
    {
        match *self {
            SgrParameter::Reset => push_decimal(out, 0),
            SgrParameter::Bold => push_decimal(out, 1),
            SgrParameter::Faint => push_decimal(out, 2),
            SgrParameter::Italic => push_decimal(out, 3),
            SgrParameter::Underline => push_decimal(out, 4),
            SgrParameter::Blink => push_decimal(out, 5),
            SgrParameter::RapidBlink => push_decimal(out, 6),
            SgrParameter::ReverseVideo => push_decimal(out, 7),
            SgrParameter::Conceal => push_decimal(out, 8),
            SgrParameter::CrossedOut => push_decimal(out, 9),
            SgrParameter::PrimaryFont => push_decimal(out, 10),
            SgrParameter::AlternativeFont(index) => push_decimal(out, 10 + index as u128),
            SgrParameter::Fraktur => push_decimal(out, 20),
            SgrParameter::DoubleUnderline => push_decimal(out, 21),
            SgrParameter::NormalIntensity => push_decimal(out, 22),
            SgrParameter::NotItalicOrBlackletter => push_decimal(out, 23),
            SgrParameter::NotUnderlined => push_decimal(out, 24),
            SgrParameter::SteadyCursor => push_decimal(out, 25),
            SgrParameter::ProportionalSpacing => push_decimal(out, 26),
            SgrParameter::NotReversed => push_decimal(out, 27),
            SgrParameter::Reveal => push_decimal(out, 28),
            SgrParameter::NotCrossedOut => push_decimal(out, 29),
            SgrParameter::ForegroundColour(colour) => push_palette(out, 38, colour),
            SgrParameter::BackgroundColour(colour) => push_palette(out, 48, colour),
            SgrParameter::HexForegroundColour(hex) => push_truecolour(out, 38, hex),
            SgrParameter::HexBackgroundColour(hex) => push_truecolour(out, 48, hex),
            SgrParameter::DefaultForegroundColour => push_decimal(out, 39),
            SgrParameter::DefaultBackgroundColour => push_decimal(out, 49),
            SgrParameter::DisableProportionalSpacing => push_decimal(out, 50),
            SgrParameter::Framed => push_decimal(out, 51),
            SgrParameter::Encircled => push_decimal(out, 52),
            SgrParameter::Overlined => push_decimal(out, 53),
            SgrParameter::NotFramedOrEncircled => push_decimal(out, 54),
            SgrParameter::NotOverlined => push_decimal(out, 55),
            SgrParameter::UnderlineColour(colour) => push_palette(out, 58, colour),
            SgrParameter::HexUnderlineColour(hex) => push_truecolour(out, 58, hex),
            SgrParameter::DefaultUnderlineColour => push_decimal(out, 59),
            SgrParameter::IdeogramUnderlineOrRightSideLine => push_decimal(out, 60),
            SgrParameter::IdeogramDoubleUnderlineOrDoubleLineOnTheRightSide => push_decimal(out, 61),
            SgrParameter::IdeogramOverlineOrLeftSideLine => push_decimal(out, 62),
            SgrParameter::IdeogramDoubleOverlineOrDoubleLineOnTheLeftSide => push_decimal(out, 63),
            SgrParameter::IdeogramStressMarking => push_decimal(out, 64),
            SgrParameter::IdeogramAttributesOff => push_decimal(out, 65),
            SgrParameter::Superscript => push_decimal(out, 73),
            SgrParameter::Subscript => push_decimal(out, 74),
            SgrParameter::NotSuperscriptOrSubscript => push_decimal(out, 75),
        }
    }
}

/// Appends a palette colour parameter to `out`.
fn push_palette(out: &mut String, prefix: u8, colour: Colour)
    ensures
        final(out)@ == old(out)@ + palette_code(prefix as nat, colour.spec_index()),
{
    push_decimal(out, prefix as u128);
    out.push(';');
    push_decimal(out, 5);
    out.push(';');
    push_decimal(out, colour.index() as u128);
}

/// Appends a 24-bit colour parameter to `out`.
fn push_truecolour(out: &mut String, prefix: u8, hex: u32)
    ensures
        final(out)@ == old(out)@ + truecolour_code(prefix as nat, hex),
{
    let (r, g, b) = Ansi::rgb(&hex);
    push_decimal(out, prefix as u128);
    out.push(';');
    push_decimal(out, 2);
    out.push(';');
    push_decimal(out, r as u128);
    out.push(';');
    push_decimal(out, g as u128);
    out.push(';');
    push_decimal(out, b as u128);
}

/// Appends the control sequence introducer to `out`.
fn push_csi(out: &mut String)
    ensures
        final(out)@ == old(out)@ + csi(),
{
    out.push('\u{1b}');
    out.push('[');
}

/// Appends `ESC [ n c` to `out`.
fn push_counted(out: &mut String, n: u128, c: char)
    ensures
        final(out)@ == old(out)@ + csi() + decimal(n as nat) + seq![c],
{
    push_csi(out);
    push_decimal(out, n);
    out.push(c);
}

/// Appends `ESC [ c` to `out`.
fn push_plain(out: &mut String, c: char)
    ensures
        final(out)@ == old(out)@ + csi() + seq![c],
{
    push_csi(out);
    out.push(c);
}

/// Appends `ESC [ a ; b c` to `out`.
fn push_pair(out: &mut String, a: u128, b: u128, c: char)
    ensures
        final(out)@ == old(out)@ + csi() + decimal(a as nat) + seq![';'] + decimal(b as nat)
            + seq![c],
{
    push_csi(out);
    push_decimal(out, a);
    out.push(';');
    push_decimal(out, b);
    out.push(c);
}

/// Appends the sequence that sets the style of the cursor to `out`.
fn push_cursor_style(out: &mut String, style: CursorStyle)
    ensures
        final(out)@ == old(out)@ + Ansi::CursorStyle(style).spec_render(),
{
    push_csi(out);
    match style {
        CursorStyle::Block => push_decimal(out, 2),
        CursorStyle::Bar => push_decimal(out, 5),
        CursorStyle::HollowBlock => push_decimal(out, 2),
    }
    out.push(' ');
    out.push('q');
}

/// Appends the sequence that shows or hides the cursor to `out`.
fn push_cursor_visibility(out: &mut String, visibility: CursorVisibility)
    ensures
        final(out)@ == old(out)@ + Ansi::CursorVisibility(visibility).spec_render(),
{
    push_csi(out);
    out.push('?');
    push_decimal(out, 25);
    match visibility {
        CursorVisibility::Visible => out.push('h'),
        CursorVisibility::Invisible => out.push('l'),
    }
}

/// Appends the sequence that sets the size of the terminal to `out`.
fn push_terminal_size(out: &mut String, width: u64, height: u64)
    ensures
        final(out)@ == old(out)@ + Ansi::TerminalSize(width, height).spec_render(),
{
    push_csi(out);
    push_decimal(out, 8);
    out.push(';');
    push_decimal(out, height as u128);
    out.push(';');
    push_decimal(out, width as u128);
    out.push('t');
}

/// Appends the sequence that sets the title of the terminal to `out`.
fn push_title(out: &mut String, title: &str)
    ensures
        final(out)@ == old(out)@ + seq!['\u{1b}', ']', '0', ';'] + title@ + seq!['\u{7}'],
{
    out.push('\u{1b}');
    out.push(']');
    out.push('0');
    out.push(';');
    out.append(title);
    out.push('\u{7}');
}

/// Appends the sequence that sets a colour of the terminal to `out`.
fn push_terminal_colour(out: &mut String, prefix: u8, colour: Colour)
    ensures
        final(out)@ == old(out)@ + csi() + palette_code(prefix as nat, colour.spec_index()),
{
    push_csi(out);
    push_palette(out, prefix, colour);
}

/// Appends the SGR sequence with the given attributes to `out`.
fn push_attributes(out: &mut String, attributes: &Vec<SgrParameter>)
    ensures
        final(out)@ == old(out)@ + csi() + sgr_codes(attributes@) + seq!['m'],
{
    push_csi(out);
    let mut i: usize = 0;
    while i < attributes.len()
        invariant
            i <= attributes.len(),
            out@ == old(out)@ + csi() + sgr_codes(attributes@.take(i as int)),
        decreases attributes.len() - i,
    {
        if i > 0 {
            out.push(';');
        }
        attributes[i].push_code(out);
        proof {
            let done = attributes@.take(i as int + 1);
            assert(done.drop_last() =~= attributes@.take(i as int));
            assert(done.last() == attributes@[i as int]);
        }
        i += 1;
    }
    assert(attributes@.take(i as int) =~= attributes@);
    out.push('m');
}

impl Ansi {
    /// The exact text of the escape sequence.
    pub open spec fn spec_render(&self) -> Seq<char> {
        match *self {
            Ansi::CursorPosition(x, y) => csi() + decimal((y + 1) as nat) + seq![';'] + decimal(
                (x + 1) as nat,
            ) + seq!['H'],
            Ansi::CursorStyle(style) => match style {
                CursorStyle::Block => csi() + decimal(2) + seq![' ', 'q'],
                CursorStyle::Bar => csi() + decimal(5) + seq![' ', 'q'],
                CursorStyle::HollowBlock => csi() + decimal(2) + seq![' ', 'q'],
            },
            Ansi::CursorVisibility(visibility) => match visibility {
                CursorVisibility::Visible => csi() + seq!['?'] + decimal(25) + seq!['h'],
                CursorVisibility::Invisible => csi() + seq!['?'] + decimal(25) + seq!['l'],
            },
            Ansi::CursorUp(count) => csi() + decimal(count as nat) + seq!['A'],
            Ansi::CursorDown(count) => csi() + decimal(count as nat) + seq!['B'],
            Ansi::CursorLeft(count) => csi() + decimal(count as nat) + seq!['D'],
            Ansi::CursorRight(count) => csi() + decimal(count as nat) + seq!['C'],
            Ansi::CursorNextLine(count) => csi() + decimal(count as nat) + seq!['E'],
            Ansi::CursorPreviousLine(count) => csi() + decimal(count as nat) + seq!['F'],
            Ansi::CursorHorizontalAbsolute(x) => csi() + decimal((x + 1) as nat) + seq!['G'],
            Ansi::SaveCursorPosition => csi() + seq!['s'],
            Ansi::RestoreCursorPosition => csi() + seq!['u'],
            Ansi::EraseInDisplay(mode) => match mode {
                DisplayEraseMode::All => csi() + decimal(2) + seq!['J'],
                DisplayEraseMode::FromCursorToEnd => csi() + decimal(0) + seq!['J'],
                DisplayEraseMode::FromCursorToStart => csi() + decimal(1) + seq!['J'],
                DisplayEraseMode::ScrollbackBuffer => csi() + decimal(3) + seq!['J'],
            },
            Ansi::EraseInLine(mode) => match mode {
                LineEraseMode::All => csi() + decimal(2) + seq!['K'],
                LineEraseMode::FromCursorToEnd => csi() + decimal(0) + seq!['K'],
                LineEraseMode::FromCursorToStart => csi() + decimal(1) + seq!['K'],
            },
            Ansi::ScrollUp(count) => csi() + decimal(count as nat) + seq!['S'],
            Ansi::ScrollDown(count) => csi() + decimal(count as nat) + seq!['T'],
            Ansi::TerminalSize(width, height) => csi() + decimal(8) + seq![';'] + decimal(
                height as nat,
            ) + seq![';'] + decimal(width as nat) + seq!['t'],
            Ansi::TerminalTitle(title) => seq!['\u{1b}', ']', '0', ';'] + title@ + seq!['\u{7}'],
            Ansi::TerminalForegroundColour(colour) => csi() + palette_code(
                38,
                colour.spec_index(),
            ),
            Ansi::TerminalBackgroundColour(colour) => csi() + palette_code(
                48,
                colour.spec_index(),
            ),
            Ansi::Sgr(attributes) => csi() + sgr_codes(attributes@) + seq!['m'],
        }
    }

    /// Appends the text of this escape sequence to `f`.
    pub fn render(&self, f: &mut String)
        ensures
            final(f)@ == old(f)@ + self.spec_render(),
    {
        match self {
            Ansi::CursorPosition(x, y) => push_pair(f, *y as u128 + 1, *x as u128 + 1, 'H'),
            Ansi::CursorStyle(style) => push_cursor_style(f, *style),
            Ansi::CursorVisibility(visibility) => push_cursor_visibility(f, *visibility),
            Ansi::CursorUp(count) => push_counted(f, *count as u128, 'A'),
            Ansi::CursorDown(count) => push_counted(f, *count as u128, 'B'),
            Ansi::CursorLeft(count) => push_counted(f, *count as u128, 'D'),
            Ansi::CursorRight(count) => push_counted(f, *count as u128, 'C'),
            Ansi::CursorNextLine(count) => push_counted(f, *count as u128, 'E'),
            Ansi::CursorPreviousLine(count) => push_counted(f, *count as u128, 'F'),
            Ansi::CursorHorizontalAbsolute(x) => push_counted(f, *x as u128 + 1, 'G'),
            Ansi::SaveCursorPosition => push_plain(f, 's'),
            Ansi::RestoreCursorPosition => push_plain(f, 'u'),
            Ansi::EraseInDisplay(mode) => match mode {
                DisplayEraseMode::All => push_counted(f, 2, 'J'),
                DisplayEraseMode::FromCursorToEnd => push_counted(f, 0, 'J'),
                DisplayEraseMode::FromCursorToStart => push_counted(f, 1, 'J'),
                DisplayEraseMode::ScrollbackBuffer => push_counted(f, 3, 'J'),
            },
            Ansi::EraseInLine(mode) => match mode {
                LineEraseMode::All => push_counted(f, 2, 'K'),
                LineEraseMode::FromCursorToEnd => push_counted(f, 0, 'K'),
                LineEraseMode::FromCursorToStart => push_counted(f, 1, 'K'),
            },
            Ansi::ScrollUp(count) => push_counted(f, *count as u128, 'S'),
            Ansi::ScrollDown(count) => push_counted(f, *count as u128, 'T'),
            Ansi::TerminalSize(width, height) => push_terminal_size(f, *width, *height),
            Ansi::TerminalTitle(title) => push_title(f, title.as_str()),
            Ansi::TerminalForegroundColour(colour) => push_terminal_colour(f, 38, *colour),
            Ansi::TerminalBackgroundColour(colour) => push_terminal_colour(f, 48, *colour),
            Ansi::Sgr(attributes) => push_attributes(f, attributes),
        }
    }

    /// The text of this escape sequence as a string of its own.
    pub fn to_string(&self) -> (s: String)
        ensures
            s@ == self.spec_render(),
    {
        let mut s = String::new();
        self.render(&mut s);
        s
    }

    /// Convert a hex colour to RGB.
    pub fn rgb(hex: &u32) -> (c: (u32, u32, u32))
        ensures
            c.0 == rgb_of(*hex).0,
            c.1 == rgb_of(*hex).1,
            c.2 == rgb_of(*hex).2,
    {
        let h: u32 = *hex;
        let r: u32 = (h >> 16) & 0xFF;
        let g: u32 = (h >> 8) & 0xFF;
        let b: u32 = h & 0xFF;
        assert(r == (h / 0x10000) % 0x100 && g == (h / 0x100) % 0x100 && b == h % 0x100) by (bit_vector)
            requires
                r == (h >> 16) & 0xFF,
                g == (h >> 8) & 0xFF,
                b == h & 0xFF,
        ;
        (r, g, b)
    }
}

} // verus!
