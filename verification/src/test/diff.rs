//! Comparing draw commands: command by command, and as they look on a grid.

use vstd::prelude::*;
use crate::ansi::{push_sgr, sgr_text, SgrParameter};
use crate::render::memory::{lemma_apply_batches_keeps_size, GridView, MemoryRenderer};
use crate::render::{RenderError, Renderer};
use crate::text::{
    chars_of, decimal, join_lines, joined, lines_view, push_decimal, push_spaces, push_span, span,
    spaces, trim_end, trimmed,
};
use crate::{commands_view, BatchView, DrawCommand, DrawCommandView};

verus! {

/// What a draw command that may be missing says.
pub open spec fn option_view(command: Option<DrawCommand>) -> Option<DrawCommandView> {
    match command {
        Some(c) => Some(c@),
        None => None,
    }
}

/// The command at place `i`, if the list is that long.
pub open spec fn command_at(commands: Seq<DrawCommand>, i: int) -> Option<DrawCommandView> {
    if 0 <= i < commands.len() {
        Some(commands[i]@)
    } else {
        None
    }
}

/// The text that `Debug` writes for a draw command that may be missing.
pub uninterp spec fn debug_text(command: Option<DrawCommandView>) -> Seq<char>;

/// Formats a draw command that may be missing with `Debug`, through
/// `format!`. The text depends on the command alone.
#[verifier::external_body]
fn format_debug(command: &Option<DrawCommand>) -> (text: String)
    ensures
        text@ == debug_text(option_view(*command)),
{
    format!("{:?}", command)
}

/// One line of a comparison: the commands at the same place of both lists.
#[derive(Debug)]
pub struct DiffLine {
    pub line_number: usize,
    pub expected: Option<DrawCommand>,
    pub actual: Option<DrawCommand>,
    pub different: bool,
}

impl DiffLine {
    /// Whether this is line `i` of the comparison of `expected` with `actual`.
    pub open spec fn compares(self, expected: Seq<DrawCommand>, actual: Seq<DrawCommand>, i: int) -> bool {
        &&& self.line_number == i
        &&& option_view(self.expected) == command_at(expected, i)
        &&& option_view(self.actual) == command_at(actual, i)
        &&& self.different == (command_at(expected, i) != command_at(actual, i))
    }

    /// The text of the line.
    pub open spec fn spec_text(self) -> Seq<char> {
        "line "@ + decimal(self.line_number as nat) + ": expected: "@ + debug_text(
            option_view(self.expected),
        ) + ", actual: "@ + debug_text(option_view(self.actual)) + seq!['\n']
    }

    /// The line as text: its number and both commands.
    pub fn to_string(&self) -> (text: String)
        ensures
            text@ == self.spec_text(),
    {
        let mut text = String::new();
        text.append("line ");
        push_decimal(&mut text, self.line_number as u128);
        text.append(": expected: ");
        text.append(format_debug(&self.expected).as_str());
        text.append(", actual: ");
        text.append(format_debug(&self.actual).as_str());
        text.push('\n');
        text
    }
}

/// The comparison of two lists of draw commands, command by command.
#[derive(Debug)]
pub struct DrawCommandDiff {
    pub expected: Vec<DrawCommand>,
    pub actual: Vec<DrawCommand>,
    pub diff: Vec<DiffLine>,
}

fn pick(commands: &Vec<DrawCommand>, i: usize) -> (command: Option<DrawCommand>)
    ensures
        option_view(command) == command_at(commands@, i as int),
{
    if i < commands.len() {
        Some(commands[i].clone())
    } else {
        None
    }
}

fn differ(expected: &Option<DrawCommand>, actual: &Option<DrawCommand>) -> (different: bool)
    ensures
        different == (option_view(*expected) != option_view(*actual)),
{
    match (expected, actual) {
        (Some(e), Some(a)) => !e.same(a),
        (None, None) => false,
        _ => true,
    }
}

impl DrawCommandDiff {
    /// Compares `expected` with `actual`: one line for every place that one of
    /// the lists has, with the commands of both at that place.
    pub fn new(expected: Vec<DrawCommand>, actual: Vec<DrawCommand>) -> (diff: Self)
        ensures
            diff.expected == expected,
            diff.actual == actual,
            diff.diff@.len() == if expected@.len() >= actual@.len() {
                expected@.len()
            } else {
                actual@.len()
            },
            forall|i: int|
                0 <= i < diff.diff@.len() ==> (#[trigger] diff.diff@[i]).compares(
                    expected@,
                    actual@,
                    i,
                ),
    {
        let mut lines: Vec<DiffLine> = Vec::new();
        let count = if expected.len() >= actual.len() {
            expected.len()
        } else {
            actual.len()
        };
        let mut line_number: usize = 0;
        while line_number < count
            invariant
                line_number <= count,
                lines@.len() == line_number,
                forall|i: int|
                    0 <= i < lines@.len() ==> (#[trigger] lines@[i]).compares(
                        expected@,
                        actual@,
                        i,
                    ),
            decreases count - line_number,
        {
            let e = pick(&expected, line_number);
            let a = pick(&actual, line_number);
            let different = differ(&e, &a);
            lines.push(DiffLine { line_number, different, expected: e, actual: a });
            line_number += 1;
        }
        DrawCommandDiff { expected, actual, diff: lines }
    }

    /// Whether there is nothing to compare.
    pub fn is_empty(&self) -> (empty: bool)
        ensures
            empty == (self.diff@.len() == 0),
    {
        self.diff.is_empty()
    }

    /// Whether the lists differ at some place.
    pub fn is_different(&self) -> (different: bool)
        ensures
            different == exists|i: int| 0 <= i < self.diff@.len() && (#[trigger] self.diff@[i]).different,
    {
        let mut i: usize = 0;
        while i < self.diff.len()
            invariant
                i <= self.diff.len(),
                forall|j: int| 0 <= j < i ==> !(#[trigger] self.diff@[j]).different,
            decreases self.diff.len() - i,
        {
            if self.diff[i].different {
                return true;
            }
            i += 1;
        }
        false
    }
}

/// The escape sequence that takes every attribute back.
#[verifier::opaque]
pub open spec fn reset() -> Seq<char> {
    sgr_text(seq![SgrParameter::Reset])
}

/// The escape sequence for a red background.
#[verifier::opaque]
pub open spec fn red_background() -> Seq<char> {
    sgr_text(seq![SgrParameter::HexBackgroundColour(0xFF0000)])
}

/// The escape sequence for red text.
#[verifier::opaque]
pub open spec fn red_text() -> Seq<char> {
    sgr_text(seq![SgrParameter::HexForegroundColour(0xFF0000)])
}

fn push_reset(out: &mut String)
    ensures
        final(out)@ == old(out)@ + reset(),
{
    reveal(reset);
    push_sgr(out, SgrParameter::Reset);
}

fn push_red_background(out: &mut String)
    ensures
        final(out)@ == old(out)@ + red_background(),
{
    reveal(red_background);
    push_sgr(out, SgrParameter::HexBackgroundColour(0xFF0000));
}

fn push_red_text(out: &mut String)
    ensures
        final(out)@ == old(out)@ + red_text(),
{
    reveal(red_text);
    push_sgr(out, SgrParameter::HexForegroundColour(0xFF0000));
}

/// The text of the first `n` lines of a comparison: every line that differs
/// in red.
pub open spec fn diff_text(lines: Seq<DiffLine>, n: nat) -> Seq<char>
    decreases n,
{
    if n == 0 || n > lines.len() {
        Seq::empty()
    } else {
        diff_text(lines, (n - 1) as nat) + (if lines[n - 1].different {
            red_text()
        } else {
            reset()
        }) + lines[n - 1].spec_text() + reset()
    }
}

impl DrawCommandDiff {
    /// The comparison as a text for the terminal: a heading, then every line,
    /// those that differ in red.
    pub fn report(&self) -> (text: String)
        ensures
            text@ == "error rendering test ui!\n\n----------------\n\n"@ + diff_text(
                self.diff@,
                self.diff@.len(),
            ),
    {
        let mut lines = String::new();
        let mut i: usize = 0;
        while i < self.diff.len()
            invariant
                i <= self.diff.len(),
                lines@ == diff_text(self.diff@, i as nat),
            decreases self.diff.len() - i,
        {
            if self.diff[i].different {
                push_red_text(&mut lines);
            } else {
                push_reset(&mut lines);
            }
            lines.append(self.diff[i].to_string().as_str());
            push_reset(&mut lines);
            i += 1;
        }
        let mut data = String::from_str("error rendering test ui!\n\n----------------\n\n");
        data.append(lines.as_str());
        data
    }

    /// Compares what both lists look like on a grid.
    pub fn into_visual_diff(&self) -> (r: Result<VisualDiff, RenderError>)
        ensures
            VisualDiff::compares(commands_view(self.expected@), commands_view(self.actual@), r),
    {
        VisualDiff::new(self)
    }
}

/// The line `y` of a grid as it is read back: its cells but for the last
/// column, without the white space at the end.
pub open spec fn screen_row(grid: GridView, y: int) -> Seq<char> {
    trimmed(grid.row_text(0, y, (grid.width - 1) as nat))
}

/// The lines without the empty lines at the end.
pub open spec fn without_empty_end(lines: Seq<Seq<char>>) -> Seq<Seq<char>>
    decreases lines.len(),
{
    if lines.len() > 0 && lines.last().len() == 0 {
        without_empty_end(lines.drop_last())
    } else {
        lines
    }
}

/// The lines of a grid as they are read back, down to the last line that
/// holds anything.
pub open spec fn screen_lines(grid: GridView) -> Seq<Seq<char>> {
    without_empty_end(Seq::new(grid.height as nat, |y: int| screen_row(grid, y)))
}

/// Reads the lines of a grid, down to the last line that holds anything.
pub fn read_lines(renderer: &MemoryRenderer) -> (lines: Vec<Vec<char>>)
    requires
        renderer@.width > 0,
    ensures
        lines_view(lines@) == screen_lines(renderer@),
{
    let (width, height) = renderer.dimensions();
    let ghost grid = renderer@;
    let mut out: Vec<Vec<char>> = Vec::new();
    let mut i: u64 = 0;
    while i < height
        invariant
            i <= height,
            width > 0,
            grid == renderer@,
            (width, height) == (grid.width, grid.height),
            lines_view(out@) == Seq::new(i as nat, |y: int| screen_row(grid, y)),
        decreases height - i,
    {
        let line = match renderer.read_string(0, i, width - 1) {
            Ok(line) => line,
            Err(_) => String::new(),
        };
        let mut row = chars_of(line.as_str());
        trim_end(&mut row);
        assert(row@ == screen_row(grid, i as int));
        let ghost before = lines_view(out@);
        out.push(row);
        assert(lines_view(out@) =~= before.push(row@));
        assert(before.push(row@) =~= Seq::new((i + 1) as nat, |y: int| screen_row(grid, y)));
        i += 1;
    }
    let ghost all = lines_view(out@);
    loop
        invariant
            without_empty_end(all) == without_empty_end(lines_view(out@)),
        ensures
            lines_view(out@) == without_empty_end(all),
        decreases out@.len(),
    {
        if out.len() == 0 {
            break ;
        }
        if out[out.len() - 1].len() != 0 {
            assert(lines_view(out@).last() == out@.last()@);
            break ;
        }
        let ghost before = lines_view(out@);
        assert(before.last() == out@.last()@);
        out.pop();
        assert(lines_view(out@) =~= before.drop_last());
    }
    out
}

/// The character at place `i` of a line, if the line is that long.
pub open spec fn char_at(line: Seq<char>, i: int) -> Option<char> {
    if 0 <= i < line.len() {
        Some(line[i])
    } else {
        None
    }
}

/// Where a scan of two lines stands: the stretches that differ and are closed,
/// and the start of the one that is open, if one is.
pub struct Scan {
    pub ranges: Seq<(usize, usize)>,
    pub start: usize,
    pub different: bool,
}

/// The scan of two lines over their first `n` places. A stretch opens at the
/// first place at which the lines differ and closes before the next place at
/// which they agree.
pub open spec fn scan(expected: Seq<char>, actual: Seq<char>, n: nat) -> Scan
    decreases n,
{
    if n == 0 {
        Scan { ranges: Seq::empty(), start: 0, different: false }
    } else {
        let before = scan(expected, actual, (n - 1) as nat);
        let end = (n - 1) as usize;
        if char_at(expected, end as int) != char_at(actual, end as int) {
            if before.different {
                before
            } else {
                Scan { start: end, different: true, ..before }
            }
        } else if before.different {
            Scan { ranges: before.ranges.push((before.start, end)), different: false, ..before }
        } else {
            before
        }
    }
}

/// The longer of two lengths.
pub open spec fn longer(a: nat, b: nat) -> nat {
    if a >= b {
        a
    } else {
        b
    }
}

/// The stretches in which two lines differ, each from its first place up to,
/// not including, the place behind its last.
pub open spec fn different_ranges(expected: Seq<char>, actual: Seq<char>) -> Seq<(usize, usize)> {
    let total = longer(expected.len(), actual.len());
    let end = scan(expected, actual, total);
    if end.different {
        end.ranges.push((end.start, total as usize))
    } else {
        end.ranges
    }
}

/// Finds the stretches in which two lines differ.
pub fn find_different_ranges(expected: &Vec<char>, actual: &Vec<char>) -> (ranges: Vec<
    (usize, usize),
>)
    ensures
        ranges@ == different_ranges(expected@, actual@),
{
    let total = if expected.len() >= actual.len() {
        expected.len()
    } else {
        actual.len()
    };
    let mut ranges: Vec<(usize, usize)> = Vec::new();
    let mut start: usize = 0;
    let mut end: usize = 0;
    let mut different = false;
    while end < total
        invariant
            end <= total,
            total == longer(expected@.len(), actual@.len()),
            scan(expected@, actual@, end as nat) == (Scan { ranges: ranges@, start, different }),
        decreases total - end,
    {
        let e = if end < expected.len() {
            Some(expected[end])
        } else {
            None
        };
        let a = if end < actual.len() {
            Some(actual[end])
        } else {
            None
        };
        let same = match (e, a) {
            (Some(x), Some(y)) => x == y,
            (None, None) => true,
            _ => false,
        };
        if !same {
            if !different {
                start = end;
                different = true;
            }
        } else if different {
            ranges.push((start, end));
            different = false;
        }
        end += 1;
    }
    if different {
        ranges.push((start, end));
    }
    ranges
}

/// A line as far as it is marked: the text so far, and the place of the line
/// up to which it is written.
pub struct Marked {
    pub text: Seq<char>,
    pub last_position: usize,
}

/// The length of a stretch.
pub open spec fn stretch(from: usize, to: usize) -> nat {
    if to > from {
        (to - from) as nat
    } else {
        0
    }
}

/// The line `actual` with the first `k` stretches marked. Before each stretch
/// stands what the line holds up to it; the stretch itself is red, padded
/// with spaces where the line ends inside it. A stretch that starts where the
/// line has ended stands, as red spaces, behind the whole line.
pub open spec fn mark(actual: Seq<char>, ranges: Seq<(usize, usize)>, k: nat) -> Marked
    decreases k,
{
    if k == 0 || k > ranges.len() {
        Marked { text: Seq::empty(), last_position: 0 }
    } else {
        let before = mark(actual, ranges, (k - 1) as nat);
        let range = ranges[k - 1];
        if range.0 >= actual.len() {
            Marked {
                text: before.text + reset() + span(actual, 0, actual.len() as int)
                    + red_background() + spaces(stretch(range.0, range.1)) + reset(),
                last_position: actual.len() as usize,
            }
        } else {
            let last = if range.1 < actual.len() {
                range.1
            } else {
                actual.len() as usize
            };
            Marked {
                text: before.text + reset() + span(
                    actual,
                    before.last_position as int,
                    range.0 as int,
                ) + red_background() + span(actual, range.0 as int, last as int) + spaces(
                    stretch(last, range.1),
                ) + reset(),
                last_position: last,
            }
        }
    }
}

/// The line `actual` with every stretch marked in which it differs from
/// `expected`, and with the rest of the line behind the last stretch.
pub open spec fn marked_line(expected: Seq<char>, actual: Seq<char>) -> Seq<char> {
    let ranges = different_ranges(expected, actual);
    let marked = mark(actual, ranges, ranges.len());
    marked.text + reset() + span(actual, marked.last_position as int, actual.len() as int)
}

/// Appends `actual` to `out`, with every stretch marked in which it differs
/// from `expected`.
pub fn push_marked_line(out: &mut String, expected: &Vec<char>, actual: &Vec<char>)
    ensures
        final(out)@ == old(out)@ + marked_line(expected@, actual@),
{
    let ranges = find_different_ranges(expected, actual);
    let mut text = String::new();
    let mut last_position: usize = 0;
    let mut k: usize = 0;
    while k < ranges.len()
        invariant
            k <= ranges.len(),
            text@ == mark(actual@, ranges@, k as nat).text,
            last_position == mark(actual@, ranges@, k as nat).last_position,
        decreases ranges.len() - k,
    {
        let range = ranges[k];
        push_reset(&mut text);
        if range.0 >= actual.len() {
            push_span(&mut text, actual, 0, actual.len());
            last_position = actual.len();
            push_red_background(&mut text);
            let padding = if range.1 > range.0 {
                range.1 - range.0
            } else {
                0
            };
            push_spaces(&mut text, padding);
        } else {
            push_span(&mut text, actual, last_position, range.0);
            last_position = if range.1 < actual.len() {
                range.1
            } else {
                actual.len()
            };
            push_red_background(&mut text);
            push_span(&mut text, actual, range.0, last_position);
            let padding = if range.1 > last_position {
                range.1 - last_position
            } else {
                0
            };
            push_spaces(&mut text, padding);
        }
        push_reset(&mut text);
        k += 1;
    }
    push_reset(&mut text);
    push_span(&mut text, actual, last_position, actual.len());
    out.append(text.as_str());
}

/// The first `n` lines of `actual`, each marked against the line of
/// `expected` at its place and closed with a reset and a newline. A line for
/// which `expected` has none is red as a whole.
pub open spec fn marked_lines(expected: Seq<Seq<char>>, actual: Seq<Seq<char>>, n: nat) -> Seq<char>
    decreases n,
{
    if n == 0 || n > actual.len() {
        Seq::empty()
    } else {
        marked_lines(expected, actual, (n - 1) as nat) + (if n - 1 >= expected.len() {
            red_background() + actual[n - 1] + reset()
        } else {
            marked_line(expected[n - 1], actual[n - 1])
        }) + reset() + seq!['\n']
    }
}

/// What a comparison reports: what was expected, what was drawn, and the
/// drawn lines with their differences marked.
pub open spec fn report_text(expected: Seq<Seq<char>>, actual: Seq<Seq<char>>) -> Seq<char> {
    "test ui did not match expected output!!!\n\nvisual diff:\n\n----------------\n\nexpected:\n\n"@
        + joined(expected, expected.len())
        + "\n\n----------------\n\nactual:\n\n"@ + joined(actual, actual.len())
        + "\n\n----------------\n\ndiff:\n\n"@ + trimmed(
        marked_lines(expected, actual, actual.len()),
    ) + "\n\n----------------\n"@
}

/// The grid on which both sides of a comparison are drawn.
pub open spec fn canvas() -> GridView {
    GridView::empty(128, 128)
}

/// What a comparison looks like: the report, and whether the two sides look
/// different.
pub struct VisualDiff {
    rendered_diff: String,
    is_different: bool,
}

fn draw(commands: &Vec<DrawCommand>) -> (r: Result<MemoryRenderer, RenderError>)
    ensures
        match canvas().apply_batches(seq![(0u64, commands_view(commands@))]).error {
            Some(e) => r == Err::<MemoryRenderer, RenderError>(e),
            None => r matches Ok(renderer) && renderer@ == canvas().apply_batches(
                seq![(0u64, commands_view(commands@))],
            ).grid && renderer@.width == 128,
        },
{
    let mut copy: Vec<DrawCommand> = Vec::new();
    let mut i: usize = 0;
    while i < commands.len()
        invariant
            i <= commands.len(),
            commands_view(copy@) == commands_view(commands@).take(i as int),
        decreases commands.len() - i,
    {
        let ghost before = commands_view(copy@);
        copy.push(commands[i].clone());
        assert(commands_view(copy@) =~= before.push(commands@[i as int]@));
        assert(before.push(commands@[i as int]@) =~= commands_view(commands@).take(i as int + 1));
        i += 1;
    }
    assert(commands_view(commands@).take(i as int) =~= commands_view(commands@));
    let batches = vec![(0u64, copy)];
    assert(crate::batches_view(batches@) =~= seq![(0u64, commands_view(commands@))]);
    let mut renderer = MemoryRenderer::new(128, 128);
    proof {
        lemma_apply_batches_keeps_size(canvas(), seq![(0u64, commands_view(commands@))]);
    }
    match renderer.render(batches.as_slice()) {
        Ok(()) => Ok(renderer),
        Err(e) => Err(e),
    }
}

impl VisualDiff {
    /// The text that the comparison reports.
    pub closed spec fn spec_report(&self) -> Seq<char> {
        self.rendered_diff@
    }

    /// Whether the two sides look different.
    pub closed spec fn spec_is_different(&self) -> bool {
        self.is_different
    }

    /// Whether `r` is the visual comparison of `expected` with `actual`. Both
    /// lists are drawn on a grid of their own, `expected` first; a list that
    /// cannot be drawn gives its error. Then the two grids are read back line
    /// by line and compared.
    pub open spec fn compares(
        expected: Seq<DrawCommandView>,
        actual: Seq<DrawCommandView>,
        r: Result<VisualDiff, RenderError>,
    ) -> bool {
        let e = canvas().apply_batches(seq![(0u64, expected)]);
        let a = canvas().apply_batches(seq![(0u64, actual)]);
        match (e.error, a.error) {
            (Some(error), _) => r == Err::<VisualDiff, RenderError>(error),
            (None, Some(error)) => r == Err::<VisualDiff, RenderError>(error),
            (None, None) => {
                let expected_lines = screen_lines(e.grid);
                let actual_lines = screen_lines(a.grid);
                &&& r matches Ok(diff)
                &&& diff.spec_report() == report_text(expected_lines, actual_lines)
                &&& diff.spec_is_different() == (joined(expected_lines, expected_lines.len())
                    != joined(actual_lines, actual_lines.len()))
            },
        }
    }

    /// Compares what the two sides of `diff` look like on a grid.
    pub fn new(diff: &DrawCommandDiff) -> (r: Result<VisualDiff, RenderError>)
        ensures
            Self::compares(commands_view(diff.expected@), commands_view(diff.actual@), r),
    {
        let expected_renderer = match draw(&diff.expected) {
            Ok(renderer) => renderer,
            Err(e) => {
                return Err(e);
            },
        };
        let actual_renderer = match draw(&diff.actual) {
            Ok(renderer) => renderer,
            Err(e) => {
                return Err(e);
            },
        };
        let expected_lines = read_lines(&expected_renderer);
        let actual_lines = read_lines(&actual_renderer);
        let expected_text = join_lines(&expected_lines);
        let actual_text = join_lines(&actual_lines);
        let ghost e = lines_view(expected_lines@);
        let ghost a = lines_view(actual_lines@);

        let mut rendered_diff = String::new();
        let mut i: usize = 0;
        while i < actual_lines.len()
            invariant
                i <= actual_lines.len(),
                e == lines_view(expected_lines@),
                a == lines_view(actual_lines@),
                rendered_diff@ == marked_lines(e, a, i as nat),
            decreases actual_lines.len() - i,
        {
            assert(a[i as int] == actual_lines@[i as int]@);
            let mut line = String::new();
            if i >= expected_lines.len() {
                push_red_background(&mut line);
                push_span(&mut line, &actual_lines[i], 0, actual_lines[i].len());
                assert(span(a[i as int], 0, a[i as int].len() as int) =~= a[i as int]);
                push_reset(&mut line);
            } else {
                assert(e[i as int] == expected_lines@[i as int]@);
                push_marked_line(&mut line, &expected_lines[i], &actual_lines[i]);
            }
            let ghost before = rendered_diff@;
            rendered_diff.append(line.as_str());
            push_reset(&mut rendered_diff);
            rendered_diff.push('\n');
            assert(rendered_diff@ =~= before + line@ + reset() + seq!['\n']);
            i += 1;
        }

        let mut data = String::from_str(
            "test ui did not match expected output!!!\n\nvisual diff:\n\n----------------\n\nexpected:\n\n",
        );
        data.append(expected_text.as_str());
        data.append("\n\n----------------\n\nactual:\n\n");
        data.append(actual_text.as_str());
        data.append("\n\n----------------\n\ndiff:\n\n");
        let mut marked = chars_of(rendered_diff.as_str());
        trim_end(&mut marked);
        push_span(&mut data, &marked, 0, marked.len());
        assert(span(marked@, 0, marked@.len() as int) =~= marked@);
        data.append("\n\n----------------\n");
        let is_different = expected_text != actual_text;
        Ok(VisualDiff { rendered_diff: data, is_different })
    }

    /// Whether the two sides look different.
    pub fn is_different(&self) -> (different: bool)
        ensures
            different == self.spec_is_different(),
    {
        self.is_different
    }

    /// The text that the comparison reports, where the two sides look
    /// different.
    pub fn report(&self) -> (text: Option<&String>)
        ensures
            self.spec_is_different() ==> (text matches Some(t) && t@ == self.spec_report()),
            !self.spec_is_different() ==> text is None,
    {
        if self.is_different {
            Some(&self.rendered_diff)
        } else {
            None
        }
    }
}

} // verus!
