//! A terminal UI runtime: a tree of stateful components, a mailbox-driven
//! update pass, and renderers that draw to a character grid.

pub mod ansi;
pub mod component;
pub mod components;
pub mod console;
pub mod input;
pub mod layout;
pub mod pacing;
pub mod post_office;
pub mod render;
pub mod test;
pub mod text;
pub mod time;
pub mod tree;
pub mod ui;

pub use ansi::{
    Ansi, Colour, CursorStyle, CursorVisibility, DisplayEraseMode, LineEraseMode, SgrParameter,
};

pub use component::Component;
pub use input::Input;
pub use render::Renderer;
pub use ui::MUI;

use vstd::prelude::*;

verus! {

/// A column or a row of the character grid.
pub type Coordinate = u64;

/// A cell of the character grid, as (column, row).
pub type Coordinates = (Coordinate, Coordinate);

/// A width or a height, in cells.
pub type Dimension = u64;

/// A size in cells, as (width, height).
pub type Dimensions = (Dimension, Dimension);

/// A signed distance along a column or a row.
pub type RelativeCoordinate = i64;

/// A key that identifies a component.
pub type Key = u64;

/// The draw commands of one component, with the component's key.
pub type DrawCommandBatch = (Key, Vec<DrawCommand>);

/// Commands for drawing to the character grid. Draw commands are processed by
/// the current [`Renderer`], in the order in which they stand in a batch.
#[derive(Debug, Hash, PartialEq, Eq, PartialOrd, Ord)]
#[allow(inconsistent_fields)]
pub enum DrawCommand {
    /// Draw text under the cursor, advancing the cursor by the number of
    /// characters.
    TextUnderCursor(String),
    /// Draw a single character under the cursor, advancing the cursor by one.
    CharUnderCursor(char),
    /// Erase the current line, depending on the position of the cursor and
    /// the [`LineEraseMode`].
    EraseCurrentLine(LineEraseMode),
    /// Move the cursor to an absolute position.
    MoveCursorAbsolute { x: Coordinate, y: Coordinate },
    /// Move the cursor relative to its current position.
    MoveCursorRelative { x: RelativeCoordinate, y: RelativeCoordinate },
    /// Draw text starting at an absolute position; the cursor is left behind
    /// the last character.
    TextAt { x: Coordinate, y: Coordinate, text: String },
    /// Hide the cursor.
    HideCursor,
    /// Show the cursor.
    ShowCursor,
    /// Style the text that follows this command.
    Style(DrawStyle),
}

/// How the text that follows is drawn.
#[derive(Debug, Clone, Copy, Hash, PartialEq, Eq, PartialOrd, Ord, Structural)]
#[allow(inconsistent_fields)]
pub enum DrawStyle {
    /// 24-bit foreground and background colours; `None` leaves one as it is.
    Coloured { foreground: Option<u32>, background: Option<u32> },
    /// A 24-bit foreground colour.
    Foreground(u32),
    /// A 24-bit background colour.
    Background(u32),
    /// Foreground and background colours of the 8-bit palette; `None` leaves
    /// one as it is.
    Coloured8Bit { foreground: Option<Colour>, background: Option<Colour> },
    /// A foreground colour of the 8-bit palette.
    Foreground8Bit(Colour),
    /// A background colour of the 8-bit palette.
    Background8Bit(Colour),
    /// The default colours and attributes; undoes every style before it.
    Default,
    /// Bold text.
    Bold,
    /// Italic text.
    Italic,
    /// Underlined text.
    Underline,
}

/// What a [`DrawCommand`] says, with its text as a sequence of characters.
#[allow(inconsistent_fields)]
pub enum DrawCommandView {
    TextUnderCursor(Seq<char>),
    CharUnderCursor(char),
    EraseCurrentLine(LineEraseMode),
    MoveCursorAbsolute { x: Coordinate, y: Coordinate },
    MoveCursorRelative { x: RelativeCoordinate, y: RelativeCoordinate },
    TextAt { x: Coordinate, y: Coordinate, text: Seq<char> },
    HideCursor,
    ShowCursor,
    Style(DrawStyle),
}

/// What a [`DrawCommandBatch`] says.
pub type BatchView = (Key, Seq<DrawCommandView>);

impl View for DrawCommand {
    type V = DrawCommandView;

    open spec fn view(&self) -> DrawCommandView {
        match *self {
            DrawCommand::TextUnderCursor(text) => DrawCommandView::TextUnderCursor(text@),
            DrawCommand::CharUnderCursor(c) => DrawCommandView::CharUnderCursor(c),
            DrawCommand::EraseCurrentLine(mode) => DrawCommandView::EraseCurrentLine(mode),
            DrawCommand::MoveCursorAbsolute { x, y } => DrawCommandView::MoveCursorAbsolute { x, y },
            DrawCommand::MoveCursorRelative { x, y } => DrawCommandView::MoveCursorRelative { x, y },
            DrawCommand::TextAt { x, y, text } => DrawCommandView::TextAt { x, y, text: text@ },
            DrawCommand::HideCursor => DrawCommandView::HideCursor,
            DrawCommand::ShowCursor => DrawCommandView::ShowCursor,
            DrawCommand::Style(style) => DrawCommandView::Style(style),
        }
    }
}

/// What a list of draw commands says.
pub open spec fn commands_view(commands: Seq<DrawCommand>) -> Seq<DrawCommandView> {
    commands.map_values(|c: DrawCommand| c@)
}

/// What a batch says.
pub open spec fn batch_view(batch: DrawCommandBatch) -> BatchView {
    (batch.0, commands_view(batch.1@))
}

/// What a list of batches says.
pub open spec fn batches_view(batches: Seq<DrawCommandBatch>) -> Seq<BatchView> {
    batches.map_values(|b: DrawCommandBatch| batch_view(b))
}

impl DrawStyle {
    /// The name of the style.
    pub open spec fn spec_name(&self) -> Seq<char> {
        match *self {
            DrawStyle::Coloured { .. } => "Coloured"@,
            DrawStyle::Foreground(_) => "Foreground"@,
            DrawStyle::Background(_) => "Background"@,
            DrawStyle::Coloured8Bit { .. } => "Coloured8Bit"@,
            DrawStyle::Foreground8Bit(_) => "Foreground8Bit"@,
            DrawStyle::Background8Bit(_) => "Background8Bit"@,
            DrawStyle::Default => "Default"@,
            DrawStyle::Bold => "Bold"@,
            DrawStyle::Italic => "Italic"@,
            DrawStyle::Underline => "Underline"@,
        }
    }

    /// The name of the style.
    pub fn to_string(&self) -> (name: String)
        ensures
            name@ == self.spec_name(),
    {
        match self {
            DrawStyle::Coloured { .. } => String::from_str("Coloured"),
            DrawStyle::Foreground(_) => String::from_str("Foreground"),
            DrawStyle::Background(_) => String::from_str("Background"),
            DrawStyle::Coloured8Bit { .. } => String::from_str("Coloured8Bit"),
            DrawStyle::Foreground8Bit(_) => String::from_str("Foreground8Bit"),
            DrawStyle::Background8Bit(_) => String::from_str("Background8Bit"),
            DrawStyle::Default => String::from_str("Default"),
            DrawStyle::Bold => String::from_str("Bold"),
            DrawStyle::Italic => String::from_str("Italic"),
            DrawStyle::Underline => String::from_str("Underline"),
        }
    }
}

impl DrawCommand {
    /// The name of the command.
    pub open spec fn spec_name(&self) -> Seq<char> {
        match *self {
            DrawCommand::TextUnderCursor(_) => "TextUnderCursor"@,
            DrawCommand::CharUnderCursor(_) => "CharUnderCursor"@,
            DrawCommand::EraseCurrentLine(_) => "EraseCurrentLine"@,
            DrawCommand::MoveCursorAbsolute { .. } => "MoveCursorAbsolute"@,
            DrawCommand::MoveCursorRelative { .. } => "MoveCursorRelative"@,
            DrawCommand::TextAt { .. } => "TextAt"@,
            DrawCommand::HideCursor => "HideCursor"@,
            DrawCommand::ShowCursor => "ShowCursor"@,
            DrawCommand::Style(_) => "Style"@,
        }
    }

    /// The name of the command.
    pub fn to_string(&self) -> (name: String)
        ensures
            name@ == self.spec_name(),
    {
        match self {
            DrawCommand::TextUnderCursor(_) => String::from_str("TextUnderCursor"),
            DrawCommand::CharUnderCursor(_) => String::from_str("CharUnderCursor"),
            DrawCommand::EraseCurrentLine(_) => String::from_str("EraseCurrentLine"),
            DrawCommand::MoveCursorAbsolute { .. } => String::from_str("MoveCursorAbsolute"),
            DrawCommand::MoveCursorRelative { .. } => String::from_str("MoveCursorRelative"),
            DrawCommand::TextAt { .. } => String::from_str("TextAt"),
            DrawCommand::HideCursor => String::from_str("HideCursor"),
            DrawCommand::ShowCursor => String::from_str("ShowCursor"),
            DrawCommand::Style(_) => String::from_str("Style"),
        }
    }

    /// Whether two draw commands say the same.
    pub fn same(&self, other: &DrawCommand) -> (same: bool)
        ensures
            same == (self@ == other@),
    {
        match (self, other) {
            (DrawCommand::TextUnderCursor(a), DrawCommand::TextUnderCursor(b)) => {
                assert(a@ != b@ ==> self@ != other@);
                *a == *b
            },
            (DrawCommand::CharUnderCursor(a), DrawCommand::CharUnderCursor(b)) => *a == *b,
            (DrawCommand::EraseCurrentLine(a), DrawCommand::EraseCurrentLine(b)) => *a == *b,
            (
                DrawCommand::MoveCursorAbsolute { x: ax, y: ay },
                DrawCommand::MoveCursorAbsolute { x: bx, y: by },
            ) => *ax == *bx && *ay == *by,
            (
                DrawCommand::MoveCursorRelative { x: ax, y: ay },
                DrawCommand::MoveCursorRelative { x: bx, y: by },
            ) => *ax == *bx && *ay == *by,
            (
                DrawCommand::TextAt { x: ax, y: ay, text: a },
                DrawCommand::TextAt { x: bx, y: by, text: b },
            ) => *ax == *bx && *ay == *by && *a == *b,
            (DrawCommand::HideCursor, DrawCommand::HideCursor) => true,
            (DrawCommand::ShowCursor, DrawCommand::ShowCursor) => true,
            (DrawCommand::Style(a), DrawCommand::Style(b)) => *a == *b,
            _ => false,
        }
    }
}

impl Clone for DrawCommand {
    fn clone(&self) -> (copy: Self)
        ensures
            copy@ == self@,
    {
        match self {
            DrawCommand::TextUnderCursor(text) => DrawCommand::TextUnderCursor(text.clone()),
            DrawCommand::CharUnderCursor(c) => DrawCommand::CharUnderCursor(*c),
            DrawCommand::EraseCurrentLine(mode) => DrawCommand::EraseCurrentLine(*mode),
            DrawCommand::MoveCursorAbsolute { x, y } => DrawCommand::MoveCursorAbsolute {
                x: *x,
                y: *y,
            },
            DrawCommand::MoveCursorRelative { x, y } => DrawCommand::MoveCursorRelative {
                x: *x,
                y: *y,
            },
            DrawCommand::TextAt { x, y, text } => DrawCommand::TextAt {
                x: *x,
                y: *y,
                text: text.clone(),
            },
            DrawCommand::HideCursor => DrawCommand::HideCursor,
            DrawCommand::ShowCursor => DrawCommand::ShowCursor,
            DrawCommand::Style(style) => DrawCommand::Style(*style),
        }
    }
}

} // verus!
