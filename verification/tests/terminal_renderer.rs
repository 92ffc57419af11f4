use makeup::render::{RenderError, TerminalRenderer};
use makeup::{Colour, DrawCommand, DrawCommandBatch, DrawStyle, LineEraseMode, Renderer};

fn frame(commands: Vec<DrawCommand>) -> Vec<DrawCommandBatch> {
    vec![(1, commands)]
}

fn one(command: DrawCommand) -> String {
    let mut r = TerminalRenderer::new((80, 24));
    r.render_hashed(&frame(vec![command]), 1).unwrap();
    let text = r.flush().unwrap();
    assert!(text.starts_with("\u{1b}[s"));
    text["\u{1b}[s".len()..].to_string()
}

#[test]
fn the_first_frame_saves_the_cursor_and_draws() {
    let mut r = TerminalRenderer::new((80, 24));
    r.render_hashed(&frame(vec![DrawCommand::TextUnderCursor("hi".into())]), 7).unwrap();
    assert_eq!("\u{1b}[shi", r.flush().unwrap());
    assert_eq!("", r.flush().unwrap());
}

#[test]
fn later_frames_restore_the_cursor_first() {
    let mut r = TerminalRenderer::new((80, 24));
    r.render_hashed(&frame(vec![DrawCommand::TextUnderCursor("a".into())]), 7).unwrap();
    r.render_hashed(&frame(vec![DrawCommand::TextUnderCursor("b".into())]), 8).unwrap();
    assert_eq!("\u{1b}[sa\u{1b}[u\u{1b}[sb", r.flush().unwrap());
}

#[test]
fn a_frame_with_the_hash_of_the_last_one_is_not_drawn_again() {
    let mut r = TerminalRenderer::new((80, 24));
    let commands = frame(vec![DrawCommand::TextUnderCursor("a".into())]);
    r.render_hashed(&commands, 7).unwrap();
    r.flush().unwrap();
    r.render_hashed(&commands, 7).unwrap();
    assert_eq!("\u{1b}[u", r.flush().unwrap());
    r.render_hashed(&commands, 9).unwrap();
    assert_eq!("\u{1b}[u\u{1b}[sa", r.flush().unwrap());
    r.render_hashed(&commands, 9).unwrap();
    assert_eq!("\u{1b}[u", r.flush().unwrap());
}

#[test]
fn the_same_frame_is_drawn_once() {
    let mut r = TerminalRenderer::new((80, 24));
    let commands = frame(vec![DrawCommand::TextUnderCursor("a".into())]);
    r.render(&commands).unwrap();
    assert_eq!("\u{1b}[sa", r.flush().unwrap());
    r.render(&commands).unwrap();
    assert_eq!("\u{1b}[u", r.flush().unwrap());
    let other = frame(vec![DrawCommand::TextUnderCursor("b".into())]);
    r.render(&other).unwrap();
    assert_eq!("\u{1b}[u\u{1b}[sb", r.flush().unwrap());
}

#[test]
fn a_new_size_erases_the_screen_and_draws_again() {
    let mut r = TerminalRenderer::new((80, 24));
    let commands = frame(vec![DrawCommand::TextUnderCursor("a".into())]);
    r.render_hashed(&commands, 7).unwrap();
    r.flush().unwrap();
    r.resize((80, 24));
    r.render_hashed(&commands, 7).unwrap();
    assert_eq!("\u{1b}[u", r.flush().unwrap());
    r.resize((100, 30));
    assert_eq!((100, 30), r.dimensions());
    r.render_hashed(&commands, 7).unwrap();
    assert_eq!("\u{1b}[2J\u{1b}[u\u{1b}[sa", r.flush().unwrap());
    r.render_hashed(&commands, 7).unwrap();
    assert_eq!("\u{1b}[u", r.flush().unwrap());
}

#[test]
fn commands_as_escape_sequences() {
    assert_eq!("x", one(DrawCommand::CharUnderCursor('x')));
    assert_eq!("\u{1b}[2K", one(DrawCommand::EraseCurrentLine(LineEraseMode::All)));
    assert_eq!("\u{1b}[0K", one(DrawCommand::EraseCurrentLine(LineEraseMode::FromCursorToEnd)));
    assert_eq!("\u{1b}[3;2H", one(DrawCommand::MoveCursorAbsolute { x: 1, y: 2 }));
    assert_eq!("\u{1b}[3;2Hyo", one(DrawCommand::TextAt { x: 1, y: 2, text: "yo".into() }));
    assert_eq!("\u{1b}[?25l", one(DrawCommand::HideCursor));
    assert_eq!("\u{1b}[?25h", one(DrawCommand::ShowCursor));
}

#[test]
fn relative_moves_pick_the_sequence_by_sign() {
    assert_eq!("", one(DrawCommand::MoveCursorRelative { x: 0, y: 0 }));
    assert_eq!("\u{1b}[3C", one(DrawCommand::MoveCursorRelative { x: 3, y: 0 }));
    assert_eq!("\u{1b}[3D", one(DrawCommand::MoveCursorRelative { x: -3, y: 0 }));
    assert_eq!("\u{1b}[2B", one(DrawCommand::MoveCursorRelative { x: 0, y: 2 }));
    assert_eq!("\u{1b}[2A", one(DrawCommand::MoveCursorRelative { x: 0, y: -2 }));
    assert_eq!("\u{1b}[1D\u{1b}[4B", one(DrawCommand::MoveCursorRelative { x: -1, y: 4 }));
    assert_eq!(
        "\u{1b}[9223372036854775808D\u{1b}[9223372036854775807B",
        one(DrawCommand::MoveCursorRelative { x: i64::MIN, y: i64::MAX })
    );
}

#[test]
fn styles_as_sgr_sequences() {
    let style = |s: DrawStyle| one(DrawCommand::Style(s));
    assert_eq!("\u{1b}[0m", style(DrawStyle::Default));
    assert_eq!("\u{1b}[1m", style(DrawStyle::Bold));
    assert_eq!("\u{1b}[3m", style(DrawStyle::Italic));
    assert_eq!("\u{1b}[4m", style(DrawStyle::Underline));
    assert_eq!("\u{1b}[38;2;219;50;92m", style(DrawStyle::Foreground(0xDB325C)));
    assert_eq!("\u{1b}[48;2;219;50;92m", style(DrawStyle::Background(0xDB325C)));
    assert_eq!("\u{1b}[38;5;1m", style(DrawStyle::Foreground8Bit(Colour::Red)));
    assert_eq!("\u{1b}[48;5;12m", style(DrawStyle::Background8Bit(Colour::BrightBlue)));
    assert_eq!(
        "\u{1b}[38;2;1;2;3;48;2;4;5;6m",
        style(DrawStyle::Coloured { foreground: Some(0x010203), background: Some(0x040506) })
    );
    assert_eq!(
        "\u{1b}[48;2;4;5;6m",
        style(DrawStyle::Coloured { foreground: None, background: Some(0x040506) })
    );
    assert_eq!("", style(DrawStyle::Coloured { foreground: None, background: None }));
    assert_eq!(
        "\u{1b}[38;5;2;48;5;0m",
        style(DrawStyle::Coloured8Bit {
            foreground: Some(Colour::Green),
            background: Some(Colour::Black)
        })
    );
    assert_eq!(
        "\u{1b}[38;5;2m",
        style(DrawStyle::Coloured8Bit { foreground: Some(Colour::Green), background: None })
    );
    assert_eq!("", style(DrawStyle::Coloured8Bit { foreground: None, background: None }));
}

#[test]
fn batches_are_drawn_in_order() {
    let mut r = TerminalRenderer::new((80, 24));
    r.render_hashed(
        &[
            (1, vec![DrawCommand::TextUnderCursor("a".into()), DrawCommand::CharUnderCursor('b')]),
            (2, vec![]),
            (3, vec![DrawCommand::Style(DrawStyle::Bold), DrawCommand::TextUnderCursor("c".into())]),
        ],
        0,
    )
    .unwrap();
    assert_eq!("\u{1b}[sab\u{1b}[1mc", r.flush().unwrap());
}

#[test]
fn rendering_leaves_the_grid_alone() {
    let mut r = TerminalRenderer::new((80, 24));
    r.render(&frame(vec![DrawCommand::TextUnderCursor("abc".into())])).unwrap();
    assert_eq!((0, 0), r.cursor());
    assert_eq!("   ", r.read_at_cursor(3).unwrap());
    assert_eq!("   ", r.read_string(0, 0, 3).unwrap());
}

#[test]
fn cursor_moves_go_to_the_grid_and_to_the_terminal() {
    let mut r = TerminalRenderer::new((80, 24));
    assert_eq!(Ok(()), r.move_cursor(3, 4));
    assert_eq!((3, 4), r.cursor());
    assert_eq!(Ok(()), r.move_cursor_relative(-1, 2));
    assert_eq!((2, 6), r.cursor());
    assert_eq!(Err(RenderError::OutOfBounds(80, 0)), r.move_cursor(80, 0));
    assert_eq!(Err(RenderError::OutOfBounds(2, -1)), r.move_cursor_relative(0, -7));
    assert_eq!((2, 6), r.cursor());
    assert_eq!(
        "\u{1b}[5;4H\u{1b}[1D\u{1b}[2B\u{1b}[1;81H\u{1b}[7A",
        r.flush().unwrap()
    );
}

#[test]
fn width_and_height_can_be_set() {
    let mut r = TerminalRenderer::new((80, 24));
    r.set_width(10);
    r.set_height(5);
    assert_eq!((10, 5), r.dimensions());
    assert_eq!(Err(RenderError::OutOfBounds(10, 0)), r.move_cursor(10, 0));
}

#[test]
fn a_new_width_or_height_erases_the_screen() {
    let commands = frame(vec![DrawCommand::TextUnderCursor("a".into())]);
    let mut r = TerminalRenderer::new((80, 24));
    r.render_hashed(&commands, 1).unwrap();
    r.flush().unwrap();
    r.set_width(80);
    r.set_height(24);
    r.render_hashed(&commands, 1).unwrap();
    assert_eq!("\u{1b}[u", r.flush().unwrap());
    r.set_height(25);
    r.render_hashed(&commands, 1).unwrap();
    assert_eq!("\u{1b}[2J\u{1b}[u\u{1b}[sa", r.flush().unwrap());
    r.set_width(81);
    r.render_hashed(&commands, 2).unwrap();
    assert_eq!("\u{1b}[2J\u{1b}[u\u{1b}[sa", r.flush().unwrap());
}
