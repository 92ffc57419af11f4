//! A renderer that draws to a character grid held in memory.

use std::collections::HashMap;
use vstd::prelude::*;
use crate::ansi::LineEraseMode;
use crate::render::{out_of_bounds, to_relative, RenderError, Renderer};
use crate::{
    batches_view, commands_view, BatchView, Coordinate, Coordinates, Dimension, Dimensions,
    DrawCommand, DrawCommandBatch, DrawCommandView, RelativeCoordinate,
};

verus! {

broadcast use vstd::std_specs::hash::group_hash_axioms;

/// A character grid: its size, its cursor and the cells that were written.
pub struct GridView {
    pub width: Dimension,
    pub height: Dimension,
    pub cursor_x: Coordinate,
    pub cursor_y: Coordinate,
    pub cells: Map<Coordinates, char>,
}

/// What drawing left behind: the grid, and the error that stopped the drawing,
/// if one did.
pub struct Drawn {
    pub grid: GridView,
    pub error: Option<RenderError>,
}

impl Drawn {
    /// Drawing that went through.
    pub open spec fn done(grid: GridView) -> Drawn {
        Drawn { grid, error: None }
    }

    /// Drawing that stopped with `error`.
    pub open spec fn failed(grid: GridView, error: RenderError) -> Drawn {
        Drawn { grid, error: Some(error) }
    }

    /// What the caller is told.
    pub open spec fn result(self) -> Result<(), RenderError> {
        match self.error {
            Some(e) => Err(e),
            None => Ok(()),
        }
    }
}

/// The cells of `cells` but those of row `y` from column `from` up to, not
/// including, column `to`.
pub open spec fn erase_span(cells: Map<Coordinates, char>, y: Coordinate, from: int, to: int) -> Map<
    Coordinates,
    char,
> {
    Map::new(
        |p: Coordinates| cells.contains_key(p) && !(p.1 == y && from <= p.0 < to),
        |p: Coordinates| cells[p],
    )
}

impl GridView {
    /// An empty grid with the cursor in its corner.
    pub open spec fn empty(width: Dimension, height: Dimension) -> GridView {
        GridView { width, height, cursor_x: 0, cursor_y: 0, cells: Map::empty() }
    }

    /// Whether `(x, y)` is a cell of the grid.
    pub open spec fn in_bounds(self, x: int, y: int) -> bool {
        0 <= x < self.width && 0 <= y < self.height
    }

    /// The character at `(x, y)`: a space where nothing was written.
    pub open spec fn glyph(self, x: int, y: int) -> char {
        if 0 <= x <= u64::MAX && 0 <= y <= u64::MAX && self.cells.contains_key(
            (x as u64, y as u64),
        ) {
            self.cells[(x as u64, y as u64)]
        } else {
            ' '
        }
    }

    /// The `n` characters of row `y` that start at column `x`.
    pub open spec fn row_text(self, x: int, y: int, n: nat) -> Seq<char> {
        Seq::new(n, |i: int| self.glyph(x + i, y))
    }

    /// Moving the cursor to `(x, y)`, which has to be a cell of the grid.
    pub open spec fn move_to(self, x: int, y: int) -> Drawn {
        if self.in_bounds(x, y) {
            Drawn::done(GridView { cursor_x: x as u64, cursor_y: y as u64, ..self })
        } else {
            Drawn::failed(self, out_of_bounds(x, y))
        }
    }

    /// Writing one character under the cursor. A newline moves the cursor to
    /// the start of the next row. Any other character needs the cursor's cell
    /// and the one to its right inside the grid.
    pub open spec fn put_char(self, c: char) -> Drawn {
        if c == '\n' {
            self.move_to(0, self.cursor_y + 1)
        } else if !self.in_bounds(self.cursor_x as int, self.cursor_y as int) {
            Drawn::failed(self, out_of_bounds(self.cursor_x as int, self.cursor_y as int))
        } else if !self.in_bounds(self.cursor_x + 1, self.cursor_y as int) {
            Drawn::failed(self, out_of_bounds(self.cursor_x + 1, self.cursor_y as int))
        } else {
            Drawn::done(
                GridView {
                    cursor_x: (self.cursor_x + 1) as u64,
                    cells: self.cells.insert((self.cursor_x, self.cursor_y), c),
                    ..self
                },
            )
        }
    }

    /// Writing a text character by character, up to the first that fails.
    pub open spec fn put_text(self, text: Seq<char>) -> Drawn
        decreases text.len(),
    {
        if text.len() == 0 {
            Drawn::done(self)
        } else {
            let first = self.put_char(text[0]);
            if first.error is Some {
                first
            } else {
                first.grid.put_text(text.drop_first())
            }
        }
    }

    /// Erasing a part of the cursor's row.
    pub open spec fn erase(self, mode: LineEraseMode) -> GridView {
        match mode {
            LineEraseMode::FromCursorToStart => GridView {
                cells: erase_span(self.cells, self.cursor_y, 0, self.cursor_x as int),
                ..self
            },
            LineEraseMode::FromCursorToEnd => GridView {
                cells: erase_span(self.cells, self.cursor_y, self.cursor_x as int, self.width as int),
                ..self
            },
            LineEraseMode::All => GridView {
                cells: erase_span(self.cells, self.cursor_y, 0, self.width as int),
                ..self
            },
        }
    }

    /// Applying one draw command.
    pub open spec fn apply(self, command: DrawCommandView) -> Drawn {
        match command {
            DrawCommandView::TextUnderCursor(text) => self.put_text(text),
            DrawCommandView::CharUnderCursor(c) => self.put_char(c),
            DrawCommandView::EraseCurrentLine(mode) => Drawn::done(self.erase(mode)),
            DrawCommandView::MoveCursorRelative { x, y } => self.move_to(
                self.cursor_x + x,
                self.cursor_y + y,
            ),
            DrawCommandView::MoveCursorAbsolute { x, y } => self.move_to(x as int, y as int),
            DrawCommandView::TextAt { x, y, text } => {
                let moved = self.move_to(x as int, y as int);
                if moved.error is Some {
                    moved
                } else {
                    moved.grid.put_text(text)
                }
            },
            DrawCommandView::HideCursor => Drawn::done(self),
            DrawCommandView::ShowCursor => Drawn::done(self),
            DrawCommandView::Style(_) => Drawn::done(self),
        }
    }

    /// Applying draw commands in order, up to the first that fails.
    pub open spec fn apply_all(self, commands: Seq<DrawCommandView>) -> Drawn
        decreases commands.len(),
    {
        if commands.len() == 0 {
            Drawn::done(self)
        } else {
            let first = self.apply(commands[0]);
            if first.error is Some {
                first
            } else {
                first.grid.apply_all(commands.drop_first())
            }
        }
    }

    /// Applying batches in order, up to the first command that fails.
    pub open spec fn apply_batches(self, batches: Seq<BatchView>) -> Drawn
        decreases batches.len(),
    {
        if batches.len() == 0 {
            Drawn::done(self)
        } else {
            let first = self.apply_all(batches[0].1);
            if first.error is Some {
                first
            } else {
                first.grid.apply_batches(batches.drop_first())
            }
        }
    }

    /// Whether a read can start at `(x, y)`: in a row of the grid, at one of
    /// its columns or right behind the last one.
    pub open spec fn starts_read(self, x: int, y: int) -> bool {
        0 <= x <= self.width && 0 <= y < self.height
    }

    /// Reading `n` characters of row `y` from column `x` on. The read has to
    /// start in a row of the grid and to stay inside it: it may end with the
    /// last column, and every cell of the grid can be read.
    pub open spec fn read(self, x: int, y: int, n: nat) -> Result<Seq<char>, RenderError> {
        if !self.starts_read(x, y) {
            Err(out_of_bounds(x, y))
        } else if x + n > self.width {
            Err(out_of_bounds(x + n, y))
        } else {
            Ok(self.row_text(x, y, n))
        }
    }
}

/// Writing a text changes neither the width nor the height of the grid.
pub proof fn lemma_put_text_keeps_size(grid: GridView, text: Seq<char>)
    ensures
        grid.put_text(text).grid.width == grid.width,
        grid.put_text(text).grid.height == grid.height,
    decreases text.len(),
{
    if text.len() > 0 {
        lemma_put_text_keeps_size(grid.put_char(text[0]).grid, text.drop_first());
    }
}

/// Draw commands change neither the width nor the height of the grid.
pub proof fn lemma_apply_all_keeps_size(grid: GridView, commands: Seq<DrawCommandView>)
    ensures
        grid.apply_all(commands).grid.width == grid.width,
        grid.apply_all(commands).grid.height == grid.height,
    decreases commands.len(),
{
    if commands.len() > 0 {
        match commands[0] {
            DrawCommandView::TextUnderCursor(text) => lemma_put_text_keeps_size(grid, text),
            DrawCommandView::TextAt { x, y, text } => lemma_put_text_keeps_size(
                grid.move_to(x as int, y as int).grid,
                text,
            ),
            _ => {},
        }
        lemma_apply_all_keeps_size(grid.apply(commands[0]).grid, commands.drop_first());
    }
}

/// Batches of draw commands change neither the width nor the height of the
/// grid.
pub proof fn lemma_apply_batches_keeps_size(grid: GridView, batches: Seq<BatchView>)
    ensures
        grid.apply_batches(batches).grid.width == grid.width,
        grid.apply_batches(batches).grid.height == grid.height,
    decreases batches.len(),
{
    if batches.len() > 0 {
        lemma_apply_all_keeps_size(grid, batches[0].1);
        lemma_apply_batches_keeps_size(grid.apply_all(batches[0].1).grid, batches.drop_first());
    }
}

/// Whether a text holds no newline.
pub open spec fn single_line(text: Seq<char>) -> bool {
    forall|i: int| 0 <= i < text.len() ==> text[i] != '\n'
}

/// Whether `after` differs from `before` at most in the cells of row `y` from
/// column `from` up to, not including, column `to`.
pub open spec fn same_outside(
    before: Map<Coordinates, char>,
    after: Map<Coordinates, char>,
    y: Coordinate,
    from: int,
    to: int,
) -> bool {
    forall|p: Coordinates|
        #![trigger after.contains_key(p)]
        #![trigger before.contains_key(p)]
        !(p.1 == y && from <= p.0 < to) ==> (after.contains_key(p) == before.contains_key(p) && (
        before.contains_key(p) ==> after[p] == before[p]))
}

/// A text without a newline that fits between the cursor and the last column
/// is written whole: its characters stand in the cells from the cursor on, the
/// cursor stands behind them, and every other cell is as it was.
pub proof fn lemma_put_text_fits(grid: GridView, text: Seq<char>)
    requires
        grid.in_bounds(grid.cursor_x as int, grid.cursor_y as int),
        grid.cursor_x + text.len() < grid.width,
        single_line(text),
    ensures
        grid.put_text(text).error is None,
        grid.put_text(text).grid.width == grid.width,
        grid.put_text(text).grid.height == grid.height,
        grid.put_text(text).grid.cursor_x == grid.cursor_x + text.len(),
        grid.put_text(text).grid.cursor_y == grid.cursor_y,
        forall|i: int|
            0 <= i < text.len() ==> #[trigger] grid.put_text(text).grid.glyph(
                grid.cursor_x + i,
                grid.cursor_y as int,
            ) == text[i],
        same_outside(
            grid.cells,
            grid.put_text(text).grid.cells,
            grid.cursor_y,
            grid.cursor_x as int,
            grid.cursor_x + text.len(),
        ),
    decreases text.len(),
{
    if text.len() > 0 {
        let first = grid.put_char(text[0]);
        let rest = text.drop_first();
        lemma_put_text_fits(first.grid, rest);
        let end = first.grid.put_text(rest).grid;
        assert(grid.put_text(text).grid == end);
        assert forall|i: int| 0 <= i < text.len() implies #[trigger] end.glyph(
            grid.cursor_x + i,
            grid.cursor_y as int,
        ) == text[i] by {
            if i > 0 {
                assert(end.glyph(first.grid.cursor_x + (i - 1), first.grid.cursor_y as int)
                    == rest[i - 1]);
            } else {
                assert(first.grid.cells.contains_key((grid.cursor_x, grid.cursor_y)));
                assert(end.cells.contains_key((grid.cursor_x, grid.cursor_y)));
            }
        }
    }
}

/// After the cursor has moved to a cell of the grid, reading one character at
/// the cursor gives the character of that cell: the one written there last, or
/// a space.
pub proof fn lemma_read_at_cursor_gives_cell(grid: GridView, x: Coordinate, y: Coordinate)
    requires
        x < grid.width,
        y < grid.height,
    ensures
        grid.move_to(x as int, y as int).error is None,
        ({
            let moved = grid.move_to(x as int, y as int).grid;
            moved.read(moved.cursor_x as int, moved.cursor_y as int, 1)
        }) == Ok::<Seq<char>, RenderError>(seq![grid.glyph(x as int, y as int)]),
{
    let moved = grid.move_to(x as int, y as int).grid;
    assert(moved.row_text(x as int, y as int, 1) =~= seq![grid.glyph(x as int, y as int)]);
}

/// A character that is written becomes the character of the cursor's cell, and
/// no other cell changes.
pub proof fn lemma_put_char_writes_cell(grid: GridView, c: char)
    requires
        c != '\n',
        grid.put_char(c).error is None,
    ensures
        grid.put_char(c).grid.glyph(grid.cursor_x as int, grid.cursor_y as int) == c,
        forall|x: int, y: int|
            !(x == grid.cursor_x && y == grid.cursor_y) ==> #[trigger] grid.put_char(c).grid.glyph(
                x,
                y,
            ) == grid.glyph(x, y),
{
}

/// Text drawn at a position, where it fits in the row, is read back from that
/// position as it was written.
pub proof fn lemma_text_at_round_trip(grid: GridView, x: Coordinate, y: Coordinate, text: Seq<char>)
    requires
        y < grid.height,
        x + text.len() < grid.width,
        single_line(text),
    ensures
        grid.apply(DrawCommandView::TextAt { x, y, text }).error is None,
        grid.apply(DrawCommandView::TextAt { x, y, text }).grid.read(
            x as int,
            y as int,
            text.len(),
        ) == Ok::<Seq<char>, RenderError>(text),
        grid.apply(DrawCommandView::TextAt { x, y, text }).grid.cursor_x == x + text.len(),
        grid.apply(DrawCommandView::TextAt { x, y, text }).grid.cursor_y == y,
{
    let moved = grid.move_to(x as int, y as int).grid;
    lemma_put_text_fits(moved, text);
    let end = moved.put_text(text).grid;
    assert(end.row_text(x as int, y as int, text.len()) =~= text);
}

/// Text drawn under the cursor, where it fits in the row, is read back from
/// where the cursor stood as it was written.
pub proof fn lemma_text_under_cursor_round_trip(grid: GridView, text: Seq<char>)
    requires
        grid.in_bounds(grid.cursor_x as int, grid.cursor_y as int),
        grid.cursor_x + text.len() < grid.width,
        single_line(text),
    ensures
        grid.apply(DrawCommandView::TextUnderCursor(text)).error is None,
        grid.apply(DrawCommandView::TextUnderCursor(text)).grid.read(
            grid.cursor_x as int,
            grid.cursor_y as int,
            text.len(),
        ) == Ok::<Seq<char>, RenderError>(text),
{
    lemma_put_text_fits(grid, text);
    let end = grid.put_text(text).grid;
    assert(end.row_text(grid.cursor_x as int, grid.cursor_y as int, text.len()) =~= text);
}

/// A single batch is applied as its commands are.
pub proof fn lemma_single_batch(grid: GridView, batch: BatchView)
    ensures
        grid.apply_batches(seq![batch]) == grid.apply_all(batch.1),
{
    assert(seq![batch].drop_first() =~= Seq::empty());
    assert(grid.apply_all(batch.1).grid.apply_batches(Seq::empty()) == Drawn::done(
        grid.apply_all(batch.1).grid,
    ));
}

/// A batch that draws one text at a position, where the text fits in the row,
/// is read back from that position as it was written.
pub proof fn lemma_batch_round_trip(
    grid: GridView,
    key: crate::Key,
    x: Coordinate,
    y: Coordinate,
    text: Seq<char>,
)
    requires
        y < grid.height,
        x + text.len() < grid.width,
        single_line(text),
    ensures
        grid.apply_batches(seq![(key, seq![DrawCommandView::TextAt { x, y, text }])]).error is None,
        grid.apply_batches(seq![(key, seq![DrawCommandView::TextAt { x, y, text }])]).grid.read(
            x as int,
            y as int,
            text.len(),
        ) == Ok::<Seq<char>, RenderError>(text),
{
    let command = DrawCommandView::TextAt { x, y, text };
    lemma_single_batch(grid, (key, seq![command]));
    lemma_text_at_round_trip(grid, x, y, text);
    assert(seq![command].drop_first() =~= Seq::empty());
    assert(grid.apply_all(seq![command]) == grid.apply(command)) by {
        assert(grid.apply(command).grid.apply_all(Seq::empty()) == Drawn::done(
            grid.apply(command).grid,
        ));
    }
}

/// A text without a newline that does not fit between the cursor and the last
/// column fails at the first character that would leave the cursor outside
/// the grid. The characters before it are written, the cursor stands in the
/// last column, and no other cell has changed.
pub proof fn lemma_put_text_past_width(grid: GridView, text: Seq<char>)
    requires
        grid.in_bounds(grid.cursor_x as int, grid.cursor_y as int),
        grid.cursor_x + text.len() >= grid.width,
        single_line(text),
    ensures
        grid.put_text(text).error == Some(out_of_bounds(grid.width as int, grid.cursor_y as int)),
        grid.put_text(text).grid.width == grid.width,
        grid.put_text(text).grid.height == grid.height,
        grid.put_text(text).grid.cursor_x == grid.width - 1,
        grid.put_text(text).grid.cursor_y == grid.cursor_y,
        forall|i: int|
            0 <= i < grid.width - 1 - grid.cursor_x ==> #[trigger] grid.put_text(text).grid.glyph(
                grid.cursor_x + i,
                grid.cursor_y as int,
            ) == text[i],
        same_outside(
            grid.cells,
            grid.put_text(text).grid.cells,
            grid.cursor_y,
            grid.cursor_x as int,
            grid.width - 1,
        ),
    decreases text.len(),
{
    let first = grid.put_char(text[0]);
    if grid.cursor_x + 1 < grid.width {
        let rest = text.drop_first();
        lemma_put_text_past_width(first.grid, rest);
        let end = first.grid.put_text(rest).grid;
        assert(grid.put_text(text).grid == end);
        assert forall|i: int| 0 <= i < grid.width - 1 - grid.cursor_x implies #[trigger] end.glyph(
            grid.cursor_x + i,
            grid.cursor_y as int,
        ) == text[i] by {
            if i > 0 {
                assert(end.glyph(first.grid.cursor_x + (i - 1), first.grid.cursor_y as int)
                    == rest[i - 1]);
            } else {
                assert(first.grid.cells.contains_key((grid.cursor_x, grid.cursor_y)));
                assert(end.cells.contains_key((grid.cursor_x, grid.cursor_y)));
            }
        }
        assert forall|p: Coordinates|
            !(p.1 == grid.cursor_y && grid.cursor_x <= p.0 < grid.width - 1) implies (
            end.cells.contains_key(p) == grid.cells.contains_key(p) && (grid.cells.contains_key(p)
                ==> end.cells[p] == grid.cells[p])) by {
            assert(end.cells.contains_key(p) == first.grid.cells.contains_key(p));
        }
    }
}

/// A newline in the last row fails and changes nothing.
pub proof fn lemma_newline_past_height(grid: GridView)
    requires
        grid.cursor_y + 1 >= grid.height,
    ensures
        grid.put_char('\n') == Drawn::failed(grid, out_of_bounds(0, grid.cursor_y + 1)),
{
}

/// A command that fails stops the batch: the commands after it do nothing.
pub proof fn lemma_failure_stops_commands(
    grid: GridView,
    before: Seq<DrawCommandView>,
    failing: DrawCommandView,
    after: Seq<DrawCommandView>,
)
    requires
        grid.apply_all(before).error is None,
        grid.apply_all(before).grid.apply(failing).error is Some,
    ensures
        grid.apply_all(before + seq![failing] + after) == grid.apply_all(before).grid.apply(failing),
    decreases before.len(),
{
    let all = before + seq![failing] + after;
    if before.len() == 0 {
        assert(all[0] == failing);
    } else {
        assert(all[0] == before[0]);
        assert(all.drop_first() =~= before.drop_first() + seq![failing] + after);
        lemma_failure_stops_commands(grid.apply(before[0]).grid, before.drop_first(), failing, after);
    }
}

/// After the whole row of the cursor is erased, every read of that row gives
/// spaces only, the read of the whole row too.
pub proof fn lemma_erase_all_blanks_row(grid: GridView, x: Coordinate, n: Dimension)
    requires
        grid.cursor_y < grid.height,
        x + n <= grid.width,
    ensures
        grid.apply(DrawCommandView::EraseCurrentLine(LineEraseMode::All)).error is None,
        grid.erase(LineEraseMode::All).read(x as int, grid.cursor_y as int, n as nat) == Ok::<
            Seq<char>,
            RenderError,
        >(Seq::new(n as nat, |i: int| ' ')),
{
    let erased = grid.erase(LineEraseMode::All);
    assert(erased.row_text(x as int, grid.cursor_y as int, n as nat) =~= Seq::new(
        n as nat,
        |i: int| ' ',
    ));
}

/// Erasing from the cursor to the end of the row blanks the cells from the
/// cursor's column on and leaves every other cell as it was.
pub proof fn lemma_erase_to_end(grid: GridView)
    ensures
        forall|x: int|
            grid.cursor_x <= x < grid.width ==> #[trigger] grid.erase(
                LineEraseMode::FromCursorToEnd,
            ).glyph(x, grid.cursor_y as int) == ' ',
        forall|x: int, y: int|
            !(y == grid.cursor_y && grid.cursor_x <= x < grid.width) ==> #[trigger] grid.erase(
                LineEraseMode::FromCursorToEnd,
            ).glyph(x, y) == grid.glyph(x, y),
        grid.erase(LineEraseMode::FromCursorToEnd).cursor_x == grid.cursor_x,
        grid.erase(LineEraseMode::FromCursorToEnd).cursor_y == grid.cursor_y,
{
}

/// The number under which the cell `(x, y)` is stored.
pub closed spec fn cell_key(x: Coordinate, y: Coordinate) -> u128 {
    (y * 0x1_0000_0000_0000_0000 + x) as u128
}

/// The cells that a store holds.
pub closed spec fn cells_of(store: Map<u128, char>) -> Map<Coordinates, char> {
    Map::new(
        |p: Coordinates| store.contains_key(cell_key(p.0, p.1)),
        |p: Coordinates| store[cell_key(p.0, p.1)],
    )
}

proof fn lemma_cell_key_injective(x1: Coordinate, y1: Coordinate, x2: Coordinate, y2: Coordinate)
    ensures
        cell_key(x1, y1) == cell_key(x2, y2) <==> (x1 == x2 && y1 == y2),
{
}

proof fn lemma_cells_insert(store: Map<u128, char>, x: Coordinate, y: Coordinate, c: char)
    ensures
        cells_of(store.insert(cell_key(x, y), c)) == cells_of(store).insert((x, y), c),
{
    assert forall|p: Coordinates| cell_key(p.0, p.1) == cell_key(x, y) <==> p == (x, y) by {
        lemma_cell_key_injective(p.0, p.1, x, y);
    }
    assert(cells_of(store.insert(cell_key(x, y), c)) =~= cells_of(store).insert((x, y), c));
}

proof fn lemma_cells_remove(store: Map<u128, char>, x: Coordinate, y: Coordinate)
    ensures
        cells_of(store.remove(cell_key(x, y))) == cells_of(store).remove((x, y)),
{
    assert forall|p: Coordinates| cell_key(p.0, p.1) == cell_key(x, y) <==> p == (x, y) by {
        lemma_cell_key_injective(p.0, p.1, x, y);
    }
    assert(cells_of(store.remove(cell_key(x, y))) =~= cells_of(store).remove((x, y)));
}

/// A [`crate::Renderer`] that renders to an in-memory grid.
#[derive(Debug)]
pub struct MemoryRenderer {
    cursor_x: Coordinate,
    cursor_y: Coordinate,
    pub(crate) width: Dimension,
    pub(crate) height: Dimension,
    text: HashMap<u128, char>,
}

impl View for MemoryRenderer {
    type V = GridView;

    closed spec fn view(&self) -> GridView {
        GridView {
            width: self.width,
            height: self.height,
            cursor_x: self.cursor_x,
            cursor_y: self.cursor_y,
            cells: cells_of(self.text@),
        }
    }
}

fn key_of(x: Coordinate, y: Coordinate) -> (k: u128)
    ensures
        k == cell_key(x, y),
{
    (y as u128) * 0x1_0000_0000_0000_0000u128 + (x as u128)
}

impl MemoryRenderer {
    /// An empty grid of the given size, with the cursor in its corner.
    pub fn new(width: Dimension, height: Dimension) -> (renderer: MemoryRenderer)
        ensures
            renderer@ == GridView::empty(width, height),
    {
        let renderer = MemoryRenderer {
            cursor_x: 0,
            cursor_y: 0,
            width,
            height,
            text: HashMap::new(),
        };
        assert(renderer@.cells =~= Map::empty());
        renderer
    }

    /// Checks that `(x, y)` is a cell of the grid.
    pub fn bounds_check(&self, x: Coordinate, y: Coordinate) -> (r: Result<(), RenderError>)
        ensures
            self@.in_bounds(x as int, y as int) ==> r is Ok,
            !self@.in_bounds(x as int, y as int) ==> r == Err::<(), RenderError>(
                out_of_bounds(x as int, y as int),
            ),
    {
        if x < self.width && y < self.height {
            Ok(())
        } else {
            Err(RenderError::OutOfBounds(to_relative(x as i128), to_relative(y as i128)))
        }
    }

    /// Checks that `(x, y)` is a cell of the grid.
    pub fn bounds_check_relative(&self, x: RelativeCoordinate, y: RelativeCoordinate) -> (r: Result<
        (),
        RenderError,
    >)
        ensures
            self@.in_bounds(x as int, y as int) ==> r is Ok,
            !self@.in_bounds(x as int, y as int) ==> r == Err::<(), RenderError>(
                out_of_bounds(x as int, y as int),
            ),
    {
        if x >= 0 && y >= 0 && (x as u64) < self.width && (y as u64) < self.height {
            Ok(())
        } else {
            Err(RenderError::OutOfBounds(to_relative(x as i128), to_relative(y as i128)))
        }
    }

    /// Moves the cursor to `(x, y)` where that is a cell of the grid.
    fn move_to(&mut self, x: i128, y: i128) -> (r: Result<(), RenderError>)
        requires
            -0x8000_0000_0000_0000 <= x < 0x1_8000_0000_0000_0000,
            -0x8000_0000_0000_0000 <= y < 0x1_8000_0000_0000_0000,
        ensures
            final(self)@ == old(self)@.move_to(x as int, y as int).grid,
            r == old(self)@.move_to(x as int, y as int).result(),
    {
        if 0 <= x && x < self.width as i128 && 0 <= y && y < self.height as i128 {
            self.cursor_x = x as u64;
            self.cursor_y = y as u64;
            Ok(())
        } else {
            Err(RenderError::OutOfBounds(to_relative(x), to_relative(y)))
        }
    }

    /// Writes one character under the cursor and advances the cursor.
    pub fn insert_char(&mut self, c: char) -> (r: Result<(), RenderError>)
        ensures
            final(self)@ == old(self)@.put_char(c).grid,
            r == old(self)@.put_char(c).result(),
    {
        if c == '\n' {
            self.move_to(0, self.cursor_y as i128 + 1)
        } else if !(self.cursor_x < self.width && self.cursor_y < self.height) {
            Err(
                RenderError::OutOfBounds(
                    to_relative(self.cursor_x as i128),
                    to_relative(self.cursor_y as i128),
                ),
            )
        } else if !(self.cursor_x + 1 < self.width) {
            Err(
                RenderError::OutOfBounds(
                    to_relative(self.cursor_x as i128 + 1),
                    to_relative(self.cursor_y as i128),
                ),
            )
        } else {
            proof {
                lemma_cells_insert(self.text@, self.cursor_x, self.cursor_y, c);
            }
            self.text.insert(key_of(self.cursor_x, self.cursor_y), c);
            self.cursor_x += 1;
            Ok(())
        }
    }

    /// Writes a text under the cursor, character by character.
    fn put_text(&mut self, text: &str) -> (r: Result<(), RenderError>)
        ensures
            final(self)@ == old(self)@.put_text(text@).grid,
            r == old(self)@.put_text(text@).result(),
    {
        assert(text@.skip(0) =~= text@);
        for c in it: text.chars()
            invariant
                it.seq() == text@,
                old(self)@.put_text(text@) == self@.put_text(text@.skip(it.index() as int)),
        {
            let ghost rest = text@.skip(it.index() as int);
            assert(rest[0] == c);
            assert(rest.drop_first() =~= text@.skip(it.index() as int + 1));
            let r = self.insert_char(c);
            if r.is_err() {
                return r;
            }
        }
        Ok(())
    }

    /// Removes the cells of the cursor's row from column `from` up to, not
    /// including, column `to`.
    fn erase_columns(&mut self, from: Coordinate, to: Coordinate)
        ensures
            final(self)@ == (GridView {
                cells: erase_span(old(self)@.cells, old(self)@.cursor_y, from as int, to as int),
                ..old(self)@
            }),
    {
        let mut x: Coordinate = from;
        assert(self@.cells =~= erase_span(old(self)@.cells, old(self)@.cursor_y, from as int, x as int));
        while x < to
            invariant
                from <= x,
                x <= to || x == from,
                self@ == (GridView {
                    cells: erase_span(old(self)@.cells, old(self)@.cursor_y, from as int, x as int),
                    ..old(self)@
                }),
            decreases to - x,
        {
            proof {
                lemma_cells_remove(self.text@, x, self.cursor_y);
            }
            let ghost before = self@.cells;
            self.text.remove(&key_of(x, self.cursor_y));
            assert(self@.cells == before.remove((x, self.cursor_y)));
            assert(before.remove((x, self.cursor_y)) =~= erase_span(
                old(self)@.cells,
                old(self)@.cursor_y,
                from as int,
                x + 1,
            ));
            x += 1;
        }
        assert(erase_span(old(self)@.cells, old(self)@.cursor_y, from as int, x as int) =~= erase_span(
            old(self)@.cells,
            old(self)@.cursor_y,
            from as int,
            to as int,
        ));
    }

    /// Applies one draw command.
    fn apply(&mut self, command: &DrawCommand) -> (r: Result<(), RenderError>)
        ensures
            final(self)@ == old(self)@.apply(command@).grid,
            r == old(self)@.apply(command@).result(),
    {
        match command {
            DrawCommand::TextUnderCursor(text) => self.put_text(text.as_str()),
            DrawCommand::CharUnderCursor(c) => self.insert_char(*c),
            DrawCommand::EraseCurrentLine(mode) => {
                match mode {
                    LineEraseMode::FromCursorToStart => self.erase_columns(0, self.cursor_x),
                    LineEraseMode::FromCursorToEnd => self.erase_columns(self.cursor_x, self.width),
                    LineEraseMode::All => self.erase_columns(0, self.width),
                }
                Ok(())
            },
            DrawCommand::MoveCursorRelative { x, y } => self.move_to(
                self.cursor_x as i128 + *x as i128,
                self.cursor_y as i128 + *y as i128,
            ),
            DrawCommand::MoveCursorAbsolute { x, y } => self.move_to(*x as i128, *y as i128),
            DrawCommand::TextAt { x, y, text } => {
                let moved = self.move_to(*x as i128, *y as i128);
                if moved.is_err() {
                    return moved;
                }
                self.put_text(text.as_str())
            },
            DrawCommand::HideCursor => Ok(()),
            DrawCommand::ShowCursor => Ok(()),
            DrawCommand::Style(_) => Ok(()),
        }
    }

    /// Applies draw commands in order.
    fn apply_all(&mut self, commands: &Vec<DrawCommand>) -> (r: Result<(), RenderError>)
        ensures
            final(self)@ == old(self)@.apply_all(commands_view(commands@)).grid,
            r == old(self)@.apply_all(commands_view(commands@)).result(),
    {
        let ghost all = commands_view(commands@);
        let mut i: usize = 0;
        assert(all.skip(0) =~= all);
        while i < commands.len()
            invariant
                i <= commands.len(),
                all == commands_view(commands@),
                old(self)@.apply_all(all) == self@.apply_all(all.skip(i as int)),
            decreases commands.len() - i,
        {
            assert(all.skip(i as int)[0] == commands@[i as int]@);
            assert(all.skip(i as int).drop_first() =~= all.skip(i as int + 1));
            let r = self.apply(&commands[i]);
            if r.is_err() {
                return r;
            }
            i += 1;
        }
        Ok(())
    }

}

impl Renderer for MemoryRenderer {
    open spec fn grid(&self) -> GridView {
        self@
    }

    open spec fn drawn(&self, batches: Seq<BatchView>) -> Drawn {
        self@.apply_batches(batches)
    }

    open spec fn pending(&self) -> Seq<char> {
        Seq::empty()
    }

    open spec fn leaves(&self, batches: Seq<BatchView>, text: Seq<char>) -> bool {
        text == Seq::<char>::empty()
    }

    /// Applies every batch in order. The commands before one that fails stay
    /// applied, and so do the characters of a text before the one that fails.
    fn render(&mut self, commands: &[DrawCommandBatch]) -> (r: Result<(), RenderError>) {
        let ghost all = batches_view(commands@);
        let mut i: usize = 0;
        assert(all.skip(0) =~= all);
        while i < commands.len()
            invariant
                i <= commands.len(),
                all == batches_view(commands@),
                old(self)@.apply_batches(all) == self@.apply_batches(all.skip(i as int)),
            decreases commands.len() - i,
        {
            assert(all.skip(i as int)[0] == crate::batch_view(commands@[i as int]));
            assert(all.skip(i as int).drop_first() =~= all.skip(i as int + 1));
            let r = self.apply_all(&commands[i].1);
            if r.is_err() {
                return r;
            }
            i += 1;
        }
        Ok(())
    }

    /// Nothing waits in memory: the text is empty.
    fn flush(&mut self) -> (r: Result<String, RenderError>) {
        Ok(String::new())
    }

    fn move_cursor(&mut self, x: Coordinate, y: Coordinate) -> (r: Result<(), RenderError>) {
        self.move_to(x as i128, y as i128)
    }

    fn move_cursor_relative(&mut self, x: RelativeCoordinate, y: RelativeCoordinate) -> (r:
        Result<(), RenderError>) {
        self.move_to(self.cursor_x as i128 + x as i128, self.cursor_y as i128 + y as i128)
    }

    fn read_at_cursor(&self, width: Dimension) -> (r: Result<String, RenderError>) {
        self.read_string(self.cursor_x, self.cursor_y, width)
    }

    fn read_string(&self, x: Coordinate, y: Coordinate, width: Dimension) -> (r: Result<
        String,
        RenderError,
    >) {
        if !(x <= self.width && y < self.height) {
            return Err(RenderError::OutOfBounds(to_relative(x as i128), to_relative(y as i128)));
        }
        if x as u128 + (width as u128) > self.width as u128 {
            return Err(
                RenderError::OutOfBounds(
                    to_relative(x as i128 + width as i128),
                    to_relative(y as i128),
                ),
            );
        }
        let mut result = String::new();
        let mut i: Dimension = 0;
        while i < width
            invariant
                i <= width,
                x + width <= self.width,
                result@ == self@.row_text(x as int, y as int, i as nat),
            decreases width - i,
        {
            let c = match self.text.get(&key_of(x + i, y)) {
                Some(c) => *c,
                None => ' ',
            };
            assert(c == self@.glyph(x + i, y as int));
            result.push(c);
            assert(result@ =~= self@.row_text(x as int, y as int, (i + 1) as nat));
            i += 1;
        }
        Ok(result)
    }

    fn cursor(&self) -> (c: Coordinates) {
        (self.cursor_x, self.cursor_y)
    }

    fn dimensions(&self) -> (d: Dimensions) {
        (self.width, self.height)
    }

    fn set_width(&mut self, width: Dimension) {
        self.width = width;
    }

    fn set_height(&mut self, height: Dimension) {
        self.height = height;
    }
}

} // verus!
