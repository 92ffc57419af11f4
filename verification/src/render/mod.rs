//! Renderers: what a batch of draw commands does to a character grid.

pub mod memory;
pub mod terminal;

pub use memory::MemoryRenderer;
pub use terminal::TerminalRenderer;

use vstd::prelude::*;
use crate::render::memory::{Drawn, GridView};
use crate::{
    batches_view, BatchView, Coordinate, Coordinates, Dimension, Dimensions, DrawCommandBatch,
    RelativeCoordinate,
};

verus! {

/// A `Renderer` takes batches of draw commands and renders them somehow. It
/// keeps a character grid with a cursor, which can be read back.
pub trait Renderer {
    /// The grid of the renderer. A renderer that says nothing of itself
    /// leaves it open.
    open spec fn grid(&self) -> GridView {
        arbitrary()
    }

    /// What rendering the batches does to the grid, and the error with which
    /// it stops, if it does. A renderer that says nothing of itself leaves it
    /// open.
    open spec fn drawn(&self, batches: Seq<BatchView>) -> Drawn {
        arbitrary()
    }

    /// The text that waits to be written to the terminal. A renderer that
    /// says nothing of itself leaves it open.
    open spec fn pending(&self) -> Seq<char> {
        arbitrary()
    }

    /// Whether `text` can be what waits to be written to the terminal once the
    /// batches have been rendered. A renderer that says nothing of itself
    /// leaves it open.
    open spec fn leaves(&self, batches: Seq<BatchView>, text: Seq<char>) -> bool {
        arbitrary()
    }

    /// Renders the batches in order. What the terminal is to be told of them
    /// waits to be written.
    fn render(&mut self, commands: &[DrawCommandBatch]) -> (r: Result<(), RenderError>)
        ensures
            final(self).grid() == old(self).drawn(batches_view(commands@)).grid,
            r == old(self).drawn(batches_view(commands@)).result(),
            old(self).leaves(batches_view(commands@), final(self).pending()),
    ;

    /// Hands out the text that waits to be written to the terminal, so that
    /// it can be written in one piece. Nothing waits afterwards.
    fn flush(&mut self) -> (r: Result<String, RenderError>)
        ensures
            r matches Ok(text) && text@ == old(self).pending(),
            final(self).pending() == Seq::<char>::empty(),
            final(self).grid() == old(self).grid(),
    ;

    /// Moves the cursor to `(x, y)`, which has to be a cell of the grid.
    fn move_cursor(&mut self, x: Coordinate, y: Coordinate) -> (r: Result<(), RenderError>)
        ensures
            final(self).grid() == old(self).grid().move_to(x as int, y as int).grid,
            r == old(self).grid().move_to(x as int, y as int).result(),
    ;

    /// Moves the cursor by `(x, y)`; it has to stay inside the grid.
    fn move_cursor_relative(&mut self, x: RelativeCoordinate, y: RelativeCoordinate) -> (r: Result<
        (),
        RenderError,
    >)
        ensures
            final(self).grid() == old(self).grid().move_to(
                old(self).grid().cursor_x + x,
                old(self).grid().cursor_y + y,
            ).grid,
            r == old(self).grid().move_to(
                old(self).grid().cursor_x + x,
                old(self).grid().cursor_y + y,
            ).result(),
    ;

    /// Reads `width` characters from the cursor on.
    fn read_at_cursor(&self, width: Dimension) -> (r: Result<String, RenderError>)
        ensures
            match self.grid().read(
                self.grid().cursor_x as int,
                self.grid().cursor_y as int,
                width as nat,
            ) {
                Ok(text) => r matches Ok(s) && s@ == text,
                Err(e) => r matches Err(f) && f == e,
            },
    ;

    /// Reads `width` characters of row `y` from column `x` on, with a space for
    /// every cell that was never written.
    fn read_string(&self, x: Coordinate, y: Coordinate, width: Dimension) -> (r: Result<
        String,
        RenderError,
    >)
        ensures
            match self.grid().read(x as int, y as int, width as nat) {
                Ok(text) => r matches Ok(s) && s@ == text,
                Err(e) => r matches Err(f) && f == e,
            },
    ;

    /// The position of the cursor.
    fn cursor(&self) -> (c: Coordinates)
        ensures
            c == (self.grid().cursor_x, self.grid().cursor_y),
    ;

    /// The size of the grid.
    fn dimensions(&self) -> (d: Dimensions)
        ensures
            d == (self.grid().width, self.grid().height),
    ;

    /// Changes the width of the grid; what was written stays.
    fn set_width(&mut self, w: Dimension)
        ensures
            final(self).grid() == (GridView { width: w, ..old(self).grid() }),
    ;

    /// Changes the height of the grid; what was written stays.
    fn set_height(&mut self, h: Dimension)
        ensures
            final(self).grid() == (GridView { height: h, ..old(self).grid() }),
    ;
}

/// An error that occurred during rendering.
#[derive(Debug, Clone, Copy, PartialEq, Eq, Structural)]
pub enum RenderError {
    /// A write or a move aimed at a cell outside the grid.
    OutOfBounds(RelativeCoordinate, RelativeCoordinate),
}

/// The signed coordinate that stands for `v`: `v` itself where it fits, and
/// `v` wrapped into the signed range where it does not.
pub open spec fn wrap_coordinate(v: int) -> RelativeCoordinate {
    let m = (v + 0x8000_0000_0000_0000) % 0x1_0000_0000_0000_0000;
    (m - 0x8000_0000_0000_0000) as RelativeCoordinate
}

/// The error for a write or a move aimed at `(x, y)`.
pub open spec fn out_of_bounds(x: int, y: int) -> RenderError {
    RenderError::OutOfBounds(wrap_coordinate(x), wrap_coordinate(y))
}

/// Brings a number into the range of a signed coordinate.
pub(crate) fn to_relative(v: i128) -> (r: RelativeCoordinate)
    requires
        -0x8000_0000_0000_0000 <= v < 0x4_0000_0000_0000_0000,
    ensures
        r == wrap_coordinate(v as int),
{
    let m: i128 = (v + 0x8000_0000_0000_0000) % 0x1_0000_0000_0000_0000;
    (m - 0x8000_0000_0000_0000) as i64
}

impl RenderError {
    /// The message of the error.
    pub fn message(&self) -> (s: String)
        ensures
            s@ == self.spec_message(),
    {
        match *self {
            RenderError::OutOfBounds(x, y) => {
                let mut s = String::new();
                s.append("Coordinates (");
                crate::text::push_signed(&mut s, x);
                s.append(", ");
                crate::text::push_signed(&mut s, y);
                s.append(") out of bounds!");
                s
            },
        }
    }

    /// The text of the message.
    pub open spec fn spec_message(&self) -> Seq<char> {
        match *self {
            RenderError::OutOfBounds(x, y) => "Coordinates ("@ + crate::text::signed_decimal(
                x as int,
            ) + ", "@ + crate::text::signed_decimal(y as int) + ") out of bounds!"@,
        }
    }
}

} // verus!
