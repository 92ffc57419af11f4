use makeup::{Ansi, Colour, CursorStyle, CursorVisibility, DisplayEraseMode, LineEraseMode, SgrParameter};

fn text(ansi: Ansi) -> String {
    let mut buffer = String::new();
    ansi.render(&mut buffer);
    buffer
}

#[test]
fn test_works_as_expected() {
    let mut buffer = String::new();
    Ansi::CursorPosition(0, 0).render(&mut buffer);
    assert_eq!("\u{1b}[1;1H", buffer);
    buffer.clear();

    Ansi::CursorDown(1).render(&mut buffer);
    assert_eq!("\u{1b}[1B", buffer);
    buffer.clear();

    Ansi::CursorUp(1).render(&mut buffer);
    assert_eq!("\u{1b}[1A", buffer);
    buffer.clear();

    Ansi::CursorLeft(1).render(&mut buffer);
    assert_eq!("\u{1b}[1D", buffer);
    buffer.clear();

    Ansi::CursorRight(1).render(&mut buffer);
    assert_eq!("\u{1b}[1C", buffer);
    buffer.clear();

    Ansi::CursorNextLine(1).render(&mut buffer);
    assert_eq!("\u{1b}[1E", buffer);
    buffer.clear();

    Ansi::CursorPreviousLine(1).render(&mut buffer);
    assert_eq!("\u{1b}[1F", buffer);
    buffer.clear();

    Ansi::CursorHorizontalAbsolute(1).render(&mut buffer);
    assert_eq!("\u{1b}[2G", buffer);
    buffer.clear();

    Ansi::CursorPosition(1, 1).render(&mut buffer);
    assert_eq!("\u{1b}[2;2H", buffer);
    buffer.clear();

    Ansi::EraseInDisplay(DisplayEraseMode::All).render(&mut buffer);
    assert_eq!("\u{1b}[2J", buffer);
    buffer.clear();

    Ansi::Sgr(vec![SgrParameter::HexForegroundColour(0xDB325C)]).render(&mut buffer);
    assert_eq!("\u{1b}[38;2;219;50;92m", buffer);
    buffer.clear();

    Ansi::Sgr(vec![SgrParameter::HexBackgroundColour(0xDB325C)]).render(&mut buffer);
    assert_eq!("\u{1b}[48;2;219;50;92m", buffer);
    buffer.clear();
}

#[test]
fn render_appends_to_what_is_there() {
    let mut buffer = String::from("abc");
    Ansi::CursorUp(12).render(&mut buffer);
    assert_eq!("abc\u{1b}[12A", buffer);
}

#[test]
fn cursor_position_is_row_then_column_one_based() {
    assert_eq!("\u{1b}[8;3H", text(Ansi::CursorPosition(2, 7)));
}

#[test]
fn cursor_position_does_not_overflow() {
    assert_eq!(
        "\u{1b}[18446744073709551616;18446744073709551616H",
        text(Ansi::CursorPosition(u64::MAX, u64::MAX))
    );
    assert_eq!("\u{1b}[18446744073709551616G", text(Ansi::CursorHorizontalAbsolute(u64::MAX)));
}

#[test]
fn cursor_styles() {
    assert_eq!("\u{1b}[2 q", text(Ansi::CursorStyle(CursorStyle::Block)));
    assert_eq!("\u{1b}[5 q", text(Ansi::CursorStyle(CursorStyle::Bar)));
    assert_eq!("\u{1b}[2 q", text(Ansi::CursorStyle(CursorStyle::HollowBlock)));
}

#[test]
fn cursor_visibility() {
    assert_eq!("\u{1b}[?25h", text(Ansi::CursorVisibility(CursorVisibility::Visible)));
    assert_eq!("\u{1b}[?25l", text(Ansi::CursorVisibility(CursorVisibility::Invisible)));
}

#[test]
fn save_and_restore() {
    assert_eq!("\u{1b}[s", text(Ansi::SaveCursorPosition));
    assert_eq!("\u{1b}[u", text(Ansi::RestoreCursorPosition));
}

#[test]
fn erase_modes() {
    assert_eq!("\u{1b}[0J", text(Ansi::EraseInDisplay(DisplayEraseMode::FromCursorToEnd)));
    assert_eq!("\u{1b}[1J", text(Ansi::EraseInDisplay(DisplayEraseMode::FromCursorToStart)));
    assert_eq!("\u{1b}[3J", text(Ansi::EraseInDisplay(DisplayEraseMode::ScrollbackBuffer)));
    assert_eq!("\u{1b}[2K", text(Ansi::EraseInLine(LineEraseMode::All)));
    assert_eq!("\u{1b}[0K", text(Ansi::EraseInLine(LineEraseMode::FromCursorToEnd)));
    assert_eq!("\u{1b}[1K", text(Ansi::EraseInLine(LineEraseMode::FromCursorToStart)));
}

#[test]
fn scrolling() {
    assert_eq!("\u{1b}[3S", text(Ansi::ScrollUp(3)));
    assert_eq!("\u{1b}[40T", text(Ansi::ScrollDown(40)));
}

#[test]
fn terminal_size_is_height_then_width() {
    assert_eq!("\u{1b}[8;24;80t", text(Ansi::TerminalSize(80, 24)));
}

#[test]
fn terminal_title() {
    assert_eq!("\u{1b}]0;hello\u{7}", text(Ansi::TerminalTitle("hello".to_string())));
}

#[test]
fn terminal_colours() {
    assert_eq!("\u{1b}[38;5;1", text(Ansi::TerminalForegroundColour(Colour::Red)));
    assert_eq!("\u{1b}[48;5;15", text(Ansi::TerminalBackgroundColour(Colour::BrightWhite)));
}

#[test]
fn sgr_joins_its_parameters() {
    assert_eq!("\u{1b}[m", text(Ansi::Sgr(vec![])));
    assert_eq!(
        "\u{1b}[1;4;38;5;2;0m",
        text(Ansi::Sgr(vec![
            SgrParameter::Bold,
            SgrParameter::Underline,
            SgrParameter::ForegroundColour(Colour::Green),
            SgrParameter::Reset,
        ]))
    );
}

#[test]
fn sgr_codes() {
    let one = |p: SgrParameter| text(Ansi::Sgr(vec![p]));
    assert_eq!("\u{1b}[0m", one(SgrParameter::Reset));
    assert_eq!("\u{1b}[2m", one(SgrParameter::Faint));
    assert_eq!("\u{1b}[3m", one(SgrParameter::Italic));
    assert_eq!("\u{1b}[5m", one(SgrParameter::Blink));
    assert_eq!("\u{1b}[6m", one(SgrParameter::RapidBlink));
    assert_eq!("\u{1b}[7m", one(SgrParameter::ReverseVideo));
    assert_eq!("\u{1b}[8m", one(SgrParameter::Conceal));
    assert_eq!("\u{1b}[9m", one(SgrParameter::CrossedOut));
    assert_eq!("\u{1b}[10m", one(SgrParameter::PrimaryFont));
    assert_eq!("\u{1b}[13m", one(SgrParameter::AlternativeFont(3)));
    assert_eq!("\u{1b}[20m", one(SgrParameter::Fraktur));
    assert_eq!("\u{1b}[21m", one(SgrParameter::DoubleUnderline));
    assert_eq!("\u{1b}[22m", one(SgrParameter::NormalIntensity));
    assert_eq!("\u{1b}[23m", one(SgrParameter::NotItalicOrBlackletter));
    assert_eq!("\u{1b}[24m", one(SgrParameter::NotUnderlined));
    assert_eq!("\u{1b}[25m", one(SgrParameter::SteadyCursor));
    assert_eq!("\u{1b}[26m", one(SgrParameter::ProportionalSpacing));
    assert_eq!("\u{1b}[27m", one(SgrParameter::NotReversed));
    assert_eq!("\u{1b}[28m", one(SgrParameter::Reveal));
    assert_eq!("\u{1b}[29m", one(SgrParameter::NotCrossedOut));
    assert_eq!("\u{1b}[39m", one(SgrParameter::DefaultForegroundColour));
    assert_eq!("\u{1b}[49m", one(SgrParameter::DefaultBackgroundColour));
    assert_eq!("\u{1b}[50m", one(SgrParameter::DisableProportionalSpacing));
    assert_eq!("\u{1b}[51m", one(SgrParameter::Framed));
    assert_eq!("\u{1b}[52m", one(SgrParameter::Encircled));
    assert_eq!("\u{1b}[53m", one(SgrParameter::Overlined));
    assert_eq!("\u{1b}[54m", one(SgrParameter::NotFramedOrEncircled));
    assert_eq!("\u{1b}[55m", one(SgrParameter::NotOverlined));
    assert_eq!("\u{1b}[58;5;4m", one(SgrParameter::UnderlineColour(Colour::Blue)));
    assert_eq!("\u{1b}[58;2;1;2;3m", one(SgrParameter::HexUnderlineColour(0x010203)));
    assert_eq!("\u{1b}[59m", one(SgrParameter::DefaultUnderlineColour));
    assert_eq!("\u{1b}[60m", one(SgrParameter::IdeogramUnderlineOrRightSideLine));
    assert_eq!(
        "\u{1b}[61m",
        one(SgrParameter::IdeogramDoubleUnderlineOrDoubleLineOnTheRightSide)
    );
    assert_eq!("\u{1b}[62m", one(SgrParameter::IdeogramOverlineOrLeftSideLine));
    assert_eq!(
        "\u{1b}[63m",
        one(SgrParameter::IdeogramDoubleOverlineOrDoubleLineOnTheLeftSide)
    );
    assert_eq!("\u{1b}[64m", one(SgrParameter::IdeogramStressMarking));
    assert_eq!("\u{1b}[65m", one(SgrParameter::IdeogramAttributesOff));
    assert_eq!("\u{1b}[73m", one(SgrParameter::Superscript));
    assert_eq!("\u{1b}[74m", one(SgrParameter::Subscript));
    assert_eq!("\u{1b}[75m", one(SgrParameter::NotSuperscriptOrSubscript));
    assert_eq!("\u{1b}[48;5;9m", one(SgrParameter::BackgroundColour(Colour::BrightRed)));
}

#[test]
fn rgb_ignores_the_bits_above_the_colour() {
    assert_eq!((0xDB, 0x32, 0x5C), Ansi::rgb(&0xDB325C));
    assert_eq!((0xDB, 0x32, 0x5C), Ansi::rgb(&0xFFDB325C));
    assert_eq!((0, 0, 0), Ansi::rgb(&0));
    assert_eq!((255, 255, 255), Ansi::rgb(&u32::MAX));
}

#[test]
fn colour_index_follows_the_palette() {
    assert_eq!(0, Colour::Black.index());
    assert_eq!(1, Colour::Red.index());
    assert_eq!(7, Colour::White.index());
    assert_eq!(8, Colour::BrightBlack.index());
    assert_eq!(15, Colour::BrightWhite.index());
}

#[test]
fn to_string_is_the_rendered_text() {
    assert_eq!("\u{1b}[2;2H", Ansi::CursorPosition(1, 1).to_string());
}
