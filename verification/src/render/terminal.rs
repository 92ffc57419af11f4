//! A renderer that writes ANSI escape sequences for a terminal.

use std::hash::{Hash, Hasher};
use vstd::prelude::*;
use crate::ansi::{
    csi, sgr_codes, Ansi, Colour, CursorVisibility, DisplayEraseMode, SgrParameter,
};
use crate::render::memory::{Drawn, GridView, MemoryRenderer};
use crate::render::{RenderError, Renderer};
use crate::{
    batches_view, commands_view, BatchView, Coordinate, Coordinates, Dimension, Dimensions,
    DrawCommand, DrawCommandBatch, DrawCommandView, DrawStyle, RelativeCoordinate,
};

verus! {

/// The attributes that a style sets.
pub open spec fn style_parameters(style: DrawStyle) -> Seq<SgrParameter> {
    match style {
        DrawStyle::Coloured { foreground, background } => (match foreground {
            Some(c) => seq![SgrParameter::HexForegroundColour(c)],
            None => Seq::empty(),
        }) + (match background {
            Some(c) => seq![SgrParameter::HexBackgroundColour(c)],
            None => Seq::empty(),
        }),
        DrawStyle::Foreground(c) => seq![SgrParameter::HexForegroundColour(c)],
        DrawStyle::Background(c) => seq![SgrParameter::HexBackgroundColour(c)],
        DrawStyle::Coloured8Bit { foreground, background } => (match foreground {
            Some(c) => seq![SgrParameter::ForegroundColour(c)],
            None => Seq::empty(),
        }) + (match background {
            Some(c) => seq![SgrParameter::BackgroundColour(c)],
            None => Seq::empty(),
        }),
        DrawStyle::Foreground8Bit(c) => seq![SgrParameter::ForegroundColour(c)],
        DrawStyle::Background8Bit(c) => seq![SgrParameter::BackgroundColour(c)],
        DrawStyle::Default => seq![SgrParameter::Reset],
        DrawStyle::Bold => seq![SgrParameter::Bold],
        DrawStyle::Italic => seq![SgrParameter::Italic],
        DrawStyle::Underline => seq![SgrParameter::Underline],
    }
}

/// The escape sequence of a style; a style that sets nothing has none.
pub open spec fn style_text(style: DrawStyle) -> Seq<char> {
    if style_parameters(style).len() == 0 {
        Seq::empty()
    } else {
        csi() + sgr_codes(style_parameters(style)) + seq!['m']
    }
}

/// The escape sequences of a relative move: left or right first, then up or
/// down; nothing for a distance of zero.
pub open spec fn relative_move_text(x: RelativeCoordinate, y: RelativeCoordinate) -> Seq<char> {
    (if x < 0 {
        Ansi::CursorLeft((-x) as u64).spec_render()
    } else if x > 0 {
        Ansi::CursorRight(x as u64).spec_render()
    } else {
        Seq::empty()
    }) + (if y < 0 {
        Ansi::CursorUp((-y) as u64).spec_render()
    } else if y > 0 {
        Ansi::CursorDown(y as u64).spec_render()
    } else {
        Seq::empty()
    })
}

/// The text that a draw command sends to the terminal.
pub open spec fn command_text(command: DrawCommandView) -> Seq<char> {
    match command {
        DrawCommandView::TextUnderCursor(text) => text,
        DrawCommandView::CharUnderCursor(c) => seq![c],
        DrawCommandView::EraseCurrentLine(mode) => Ansi::EraseInLine(mode).spec_render(),
        DrawCommandView::MoveCursorRelative { x, y } => relative_move_text(x, y),
        DrawCommandView::MoveCursorAbsolute { x, y } => Ansi::CursorPosition(x, y).spec_render(),
        DrawCommandView::TextAt { x, y, text } => Ansi::CursorPosition(x, y).spec_render() + text,
        DrawCommandView::HideCursor => Ansi::CursorVisibility(
            CursorVisibility::Invisible,
        ).spec_render(),
        DrawCommandView::ShowCursor => Ansi::CursorVisibility(
            CursorVisibility::Visible,
        ).spec_render(),
        DrawCommandView::Style(style) => style_text(style),
    }
}

/// The text of the first `n` commands, in order.
pub open spec fn commands_text(commands: Seq<DrawCommandView>, n: nat) -> Seq<char>
    decreases n,
{
    if n == 0 || n > commands.len() {
        Seq::empty()
    } else {
        commands_text(commands, (n - 1) as nat) + command_text(commands[n - 1])
    }
}

/// The text of the first `n` batches, in order.
pub open spec fn batches_text(batches: Seq<BatchView>, n: nat) -> Seq<char>
    decreases n,
{
    if n == 0 || n > batches.len() {
        Seq::empty()
    } else {
        batches_text(batches, (n - 1) as nat) + commands_text(
            batches[n - 1].1,
            batches[n - 1].1.len(),
        )
    }
}

/// What a terminal renderer holds.
pub struct TerminalView {
    /// The grid that stands for the screen.
    pub grid: GridView,
    /// Whether the position of the cursor was saved on the terminal.
    pub saved_position: bool,
    /// Whether the screen has to be erased before the next frame.
    pub stale: bool,
    /// The hash of the last frame that was drawn.
    pub last_render_hash: Option<u64>,
    /// The text that waits to be written to the terminal.
    pub buffer: Seq<char>,
}

impl TerminalView {
    /// Whether the frame with this hash is the one on the screen, so that
    /// drawing it again can be skipped.
    pub open spec fn skips(self, hash: u64) -> bool {
        self.saved_position && !self.stale && self.last_render_hash == Some(hash)
    }

    /// The text that a frame adds to the buffer. A stale screen is erased. The
    /// cursor goes back to where it was saved, but for the first frame. A frame
    /// that is on the screen already ends here; any other saves the cursor and
    /// draws its commands.
    pub open spec fn frame_text(self, batches: Seq<BatchView>, hash: u64) -> Seq<char> {
        (if self.stale {
            Ansi::EraseInDisplay(DisplayEraseMode::All).spec_render()
        } else {
            Seq::empty()
        }) + (if self.saved_position {
            Ansi::RestoreCursorPosition.spec_render()
        } else {
            Seq::empty()
        }) + (if self.skips(hash) {
            Seq::empty()
        } else {
            Ansi::SaveCursorPosition.spec_render() + batches_text(batches, batches.len())
        })
    }

    /// The renderer after a frame.
    pub open spec fn after_frame(self, batches: Seq<BatchView>, hash: u64) -> TerminalView {
        TerminalView {
            grid: self.grid,
            saved_position: true,
            stale: false,
            last_render_hash: Some(hash),
            buffer: self.buffer + self.frame_text(batches, hash),
        }
    }

    /// The renderer after the terminal was found to have the given size: a
    /// new size is taken over by the grid, and the screen is stale.
    pub open spec fn after_resize(self, size: Dimensions) -> TerminalView {
        if size == (self.grid.width, self.grid.height) {
            self
        } else {
            TerminalView {
                grid: GridView { width: size.0, height: size.1, ..self.grid },
                stale: true,
                ..self
            }
        }
    }
}

/// A [`Renderer`] that renders to a terminal. It collects the text for the
/// terminal, which `flush` hands out.
#[derive(Debug)]
pub struct TerminalRenderer {
    memory_renderer: MemoryRenderer,
    saved_position: bool,
    stale: bool,
    last_render_hash: Option<u64>,
    buffer: String,
}

impl View for TerminalRenderer {
    type V = TerminalView;

    closed spec fn view(&self) -> TerminalView {
        TerminalView {
            grid: self.memory_renderer@,
            saved_position: self.saved_position,
            stale: self.stale,
            last_render_hash: self.last_render_hash,
            buffer: self.buffer@,
        }
    }
}

/// Hashes a frame with `fnv::FnvHasher`, through the `Hash` of the batches.
/// The number depends on how the machine lays out integers, so nothing is
/// said of it.
#[verifier::external_body]
fn frame_hash(commands: &[DrawCommandBatch]) -> u64 {
    let mut hasher = fnv::FnvHasher::default();
    commands.hash(&mut hasher);
    hasher.finish()
}

/// Appends the escape sequence of a style to `out`.
fn push_style(out: &mut String, style: &DrawStyle)
    ensures
        final(out)@ == old(out)@ + style_text(*style),
{
    let mut parameters: Vec<SgrParameter> = Vec::new();
    match *style {
        DrawStyle::Coloured { foreground, background } => {
            if let Some(c) = foreground {
                parameters.push(SgrParameter::HexForegroundColour(c));
            }
            if let Some(c) = background {
                parameters.push(SgrParameter::HexBackgroundColour(c));
            }
        },
        DrawStyle::Foreground(c) => parameters.push(SgrParameter::HexForegroundColour(c)),
        DrawStyle::Background(c) => parameters.push(SgrParameter::HexBackgroundColour(c)),
        DrawStyle::Coloured8Bit { foreground, background } => {
            if let Some(c) = foreground {
                parameters.push(SgrParameter::ForegroundColour(c));
            }
            if let Some(c) = background {
                parameters.push(SgrParameter::BackgroundColour(c));
            }
        },
        DrawStyle::Foreground8Bit(c) => parameters.push(SgrParameter::ForegroundColour(c)),
        DrawStyle::Background8Bit(c) => parameters.push(SgrParameter::BackgroundColour(c)),
        DrawStyle::Default => parameters.push(SgrParameter::Reset),
        DrawStyle::Bold => parameters.push(SgrParameter::Bold),
        DrawStyle::Italic => parameters.push(SgrParameter::Italic),
        DrawStyle::Underline => parameters.push(SgrParameter::Underline),
    }
    assert(parameters@ =~= style_parameters(*style));
    if parameters.len() > 0 {
        Ansi::Sgr(parameters).render(out);
    }
}

/// Appends the escape sequences of a relative move to `out`.
fn push_relative_move(out: &mut String, x: RelativeCoordinate, y: RelativeCoordinate)
    ensures
        final(out)@ == old(out)@ + relative_move_text(x, y),
{
    if x < 0 {
        Ansi::CursorLeft((-(x as i128)) as u64).render(out);
    } else if x > 0 {
        Ansi::CursorRight(x as u64).render(out);
    }
    if y < 0 {
        Ansi::CursorUp((-(y as i128)) as u64).render(out);
    } else if y > 0 {
        Ansi::CursorDown(y as u64).render(out);
    }
}

/// Appends the text of a draw command to `out`.
fn push_command(out: &mut String, command: &DrawCommand)
    ensures
        final(out)@ == old(out)@ + command_text(command@),
{
    match command {
        DrawCommand::TextUnderCursor(text) => out.append(text.as_str()),
        DrawCommand::CharUnderCursor(c) => out.push(*c),
        DrawCommand::EraseCurrentLine(mode) => Ansi::EraseInLine(*mode).render(out),
        DrawCommand::MoveCursorRelative { x, y } => push_relative_move(out, *x, *y),
        DrawCommand::MoveCursorAbsolute { x, y } => Ansi::CursorPosition(*x, *y).render(out),
        DrawCommand::TextAt { x, y, text } => {
            Ansi::CursorPosition(*x, *y).render(out);
            out.append(text.as_str());
        },
        DrawCommand::HideCursor => Ansi::CursorVisibility(CursorVisibility::Invisible).render(out),
        DrawCommand::ShowCursor => Ansi::CursorVisibility(CursorVisibility::Visible).render(out),
        DrawCommand::Style(style) => push_style(out, style),
    }
}

/// Appends the text of every command of every batch to `out`, in order.
fn push_batches(out: &mut String, commands: &[DrawCommandBatch])
    ensures
        final(out)@ == old(out)@ + batches_text(batches_view(commands@), commands@.len()),
{
    let ghost batches = batches_view(commands@);
    let mut i: usize = 0;
    while i < commands.len()
        invariant
            i <= commands.len(),
            batches == batches_view(commands@),
            out@ == old(out)@ + batches_text(batches, i as nat),
        decreases commands.len() - i,
    {
        let batch = &commands[i].1;
        let ghost views = commands_view(batch@);
        assert(batches[i as int].1 == views);
        let mut j: usize = 0;
        while j < batch.len()
            invariant
                j <= batch.len(),
                views == commands_view(batch@),
                out@ == old(out)@ + batches_text(batches, i as nat) + commands_text(views, j as nat),
            decreases batch.len() - j,
        {
            push_command(out, &batch[j]);
            j += 1;
        }
        i += 1;
    }
}

impl TerminalRenderer {
    /// A renderer for a terminal of the given size. Nothing is on the screen
    /// and nothing waits to be written.
    pub fn new(size: Dimensions) -> (renderer: Self)
        ensures
            renderer@ == (TerminalView {
                grid: GridView::empty(size.0, size.1),
                saved_position: false,
                stale: false,
                last_render_hash: None,
                buffer: Seq::empty(),
            }),
    {
        TerminalRenderer {
            memory_renderer: MemoryRenderer::new(size.0, size.1),
            saved_position: false,
            stale: false,
            last_render_hash: None,
            buffer: String::new(),
        }
    }

    /// Tells the renderer the size that the terminal has now. A new size is
    /// taken over by the grid, and the screen is erased before the next frame.
    pub fn resize(&mut self, size: Dimensions)
        ensures
            final(self)@ == old(self)@.after_resize(size),
    {
        let (width, height) = self.memory_renderer.dimensions();
        if size.0 != width || size.1 != height {
            self.memory_renderer.set_width(size.0);
            self.memory_renderer.set_height(size.1);
            self.stale = true;
        }
    }

    /// Renders a frame whose hash is `hash`: adds the text of the frame to the
    /// text that waits for the terminal.
    pub fn render_hashed(&mut self, commands: &[DrawCommandBatch], hash: u64) -> (r: Result<
        (),
        RenderError,
    >)
        ensures
            r == Ok::<(), RenderError>(()),
            final(self)@ == old(self)@.after_frame(batches_view(commands@), hash),
    {
        let skip = self.saved_position && !self.stale && match self.last_render_hash {
            Some(last) => last == hash,
            None => false,
        };
        if self.stale {
            Ansi::EraseInDisplay(DisplayEraseMode::All).render(&mut self.buffer);
            self.stale = false;
        }
        if self.saved_position {
            Ansi::RestoreCursorPosition.render(&mut self.buffer);
        } else {
            self.saved_position = true;
        }
        if !skip {
            Ansi::SaveCursorPosition.render(&mut self.buffer);
            push_batches(&mut self.buffer, commands);
        }
        self.last_render_hash = Some(hash);
        assert(self@.buffer =~= old(self)@.after_frame(batches_view(commands@), hash).buffer);
        Ok(())
    }
}

impl Renderer for TerminalRenderer {
    open spec fn grid(&self) -> GridView {
        self@.grid
    }

    open spec fn drawn(&self, batches: Seq<BatchView>) -> Drawn {
        Drawn::done(self@.grid)
    }

    open spec fn pending(&self) -> Seq<char> {
        self@.buffer
    }

    open spec fn leaves(&self, batches: Seq<BatchView>, text: Seq<char>) -> bool {
        exists|hash: u64| text == #[trigger] self@.after_frame(batches, hash).buffer
    }

    /// Renders a frame. Whatever the hash of the frame is, the renderer is as
    /// `render_hashed` leaves it for that hash.
    fn render(&mut self, commands: &[DrawCommandBatch]) -> (r: Result<(), RenderError>)
        ensures
            r is Ok,
            exists|hash: u64| final(self)@ == old(self)@.after_frame(batches_view(commands@), hash),
    {
        let hash = frame_hash(commands);
        self.render_hashed(commands, hash)
    }

    fn flush(&mut self) -> (r: Result<String, RenderError>)
        ensures
            final(self)@ == (TerminalView { buffer: Seq::empty(), ..old(self)@ }),
    {
        let mut text = String::new();
        std::mem::swap(&mut self.buffer, &mut text);
        Ok(text)
    }

    /// Moves the cursor of the grid, and tells the terminal to move its
    /// cursor, also where the grid refuses.
    fn move_cursor(&mut self, x: Coordinate, y: Coordinate) -> (r: Result<(), RenderError>)
        ensures
            final(self)@ == (TerminalView {
                grid: old(self)@.grid.move_to(x as int, y as int).grid,
                buffer: old(self)@.buffer + Ansi::CursorPosition(x, y).spec_render(),
                ..old(self)@
            }),
    {
        let res = self.memory_renderer.move_cursor(x, y);
        Ansi::CursorPosition(x, y).render(&mut self.buffer);
        res
    }

    /// Moves the cursor of the grid, and tells the terminal to move its
    /// cursor, also where the grid refuses.
    fn move_cursor_relative(&mut self, x: RelativeCoordinate, y: RelativeCoordinate) -> (r: Result<
        (),
        RenderError,
    >)
        ensures
            final(self)@ == (TerminalView {
                grid: old(self)@.grid.move_to(
                    old(self)@.grid.cursor_x + x,
                    old(self)@.grid.cursor_y + y,
                ).grid,
                buffer: old(self)@.buffer + relative_move_text(x, y),
                ..old(self)@
            }),
    {
        let res = self.memory_renderer.move_cursor_relative(x, y);
        push_relative_move(&mut self.buffer, x, y);
        res
    }

    fn read_at_cursor(&self, width: Dimension) -> (r: Result<String, RenderError>) {
        self.memory_renderer.read_at_cursor(width)
    }

    fn read_string(&self, x: Coordinate, y: Coordinate, width: Dimension) -> (r: Result<
        String,
        RenderError,
    >) {
        self.memory_renderer.read_string(x, y, width)
    }

    fn cursor(&self) -> (c: Coordinates) {
        self.memory_renderer.cursor()
    }

    fn dimensions(&self) -> (d: Dimensions) {
        self.memory_renderer.dimensions()
    }

    /// Changes the width of the grid. After a new width the screen is erased
    /// before the next frame.
    fn set_width(&mut self, w: Dimension)
        ensures
            final(self)@ == old(self)@.after_resize((w, old(self)@.grid.height)),
    {
        let (width, _) = self.memory_renderer.dimensions();
        if w != width {
            self.memory_renderer.set_width(w);
            self.stale = true;
        }
    }

    /// Changes the height of the grid. After a new height the screen is
    /// erased before the next frame.
    fn set_height(&mut self, h: Dimension)
        ensures
            final(self)@ == old(self)@.after_resize((old(self)@.grid.width, h)),
    {
        let (_, height) = self.memory_renderer.dimensions();
        if h != height {
            self.memory_renderer.set_height(h);
            self.stale = true;
        }
    }
}

} // verus!
