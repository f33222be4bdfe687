//! The offscreen buffer that the VT-100 shims edit: a grid of cells, the
//! cursor, the scroll region set by DECSTBM, the current SGR style and the
//! terminal modes.

use vstd::prelude::*;
use crate::modes::{EraseDisplayMode, EraseLineMode};
use crate::terminal_mode::{ActiveScreenBuffer, TerminalModeState};

verus! {

/// The SGR colors that apply to newly written cells.
#[derive(Debug, Clone, Copy, PartialEq, Eq, Structural)]
pub struct TuiStyle {
    pub fg_color: Option<u8>,
    pub bg_color: Option<u8>,
}

/// One cell of the buffer.
#[derive(Debug, Clone, Copy, PartialEq, Eq, Structural)]
pub enum PixelChar {
    /// A cell that holds nothing, with no style.
    Spacer,
    /// A character with the style it was written in.
    PlainText { display_char: char, style: TuiStyle },
}

/// A cell position, 0-based.
#[derive(Debug, Clone, Copy, PartialEq, Eq, Structural)]
pub struct Pos {
    pub row_index: usize,
    pub col_index: usize,
}

/// The dimensions of the buffer.
#[derive(Debug, Clone, Copy, PartialEq, Eq, Structural)]
pub struct Size {
    pub row_height: usize,
    pub col_width: usize,
}

/// The terminal screen that the output of the PTY child is rendered into.
#[derive(Debug, PartialEq, Eq)]
pub struct OffscreenBuffer {
    /// One `Vec` of cells per row.
    pub buffer: Vec<Vec<PixelChar>>,
    pub window_size: Size,
    pub cursor_pos: Pos,
    /// First row of the scroll region (DECSTBM), 0-based and inclusive.
    pub scroll_top: usize,
    /// Last row of the scroll region (DECSTBM), 0-based and inclusive.
    pub scroll_bottom: usize,
    /// The style that SGR sequences last selected.
    pub current_style: TuiStyle,
    /// Auto-wrap mode (DECAWM).
    pub auto_wrap_mode: bool,
    pub terminal_mode: TerminalModeState,
}

/// A row of `cols` empty cells.
pub open spec fn blank_line(cols: nat) -> Seq<PixelChar> {
    Seq::new(cols, |c: int| PixelChar::Spacer)
}

/// `count` empty rows of `cols` cells.
pub open spec fn blank_lines(count: nat, cols: nat) -> Seq<Seq<PixelChar>> {
    Seq::new(count, |i: int| blank_line(cols))
}

/// The space that erase operations write: a blank in the current style.
pub open spec fn styled_space(style: TuiStyle) -> PixelChar {
    PixelChar::PlainText { display_char: ' ', style: style }
}

/// How many rows an insertion or deletion of `n` rows at `at` moves inside a
/// region that ends at `bottom`: at most the rows from `at` to `bottom`.
pub open spec fn shift_count(at: int, bottom: int, n: int) -> int {
    if n < bottom + 1 - at {
        n
    } else {
        bottom + 1 - at
    }
}

/// The rows after `k` blank rows were inserted at `at`, the region from `at`
/// to `bottom` moving down and its last `k` rows dropping out.
pub open spec fn rows_shifted_down(
    lines: Seq<Seq<PixelChar>>,
    at: int,
    bottom: int,
    k: int,
    cols: nat,
) -> Seq<Seq<PixelChar>> {
    lines.take(at) + blank_lines(k as nat, cols) + lines.subrange(at, bottom + 1 - k) + lines.skip(
        bottom + 1,
    )
}

/// The rows after the `k` rows at `at` were deleted, the rest of the region up
/// to `bottom` moving up and `k` blank rows filling its end.
pub open spec fn rows_shifted_up(
    lines: Seq<Seq<PixelChar>>,
    at: int,
    bottom: int,
    k: int,
    cols: nat,
) -> Seq<Seq<PixelChar>> {
    lines.take(at) + lines.subrange(at + k, bottom + 1) + blank_lines(k as nat, cols) + lines.skip(
        bottom + 1,
    )
}

/// IL: inserting `n` blank rows at row `at` inside the scroll region
/// `top..=bottom`; a row outside the region changes nothing.
pub open spec fn lines_after_insert(
    lines: Seq<Seq<PixelChar>>,
    top: int,
    bottom: int,
    at: int,
    n: int,
    cols: nat,
) -> Seq<Seq<PixelChar>> {
    if top <= at <= bottom {
        rows_shifted_down(lines, at, bottom, shift_count(at, bottom, n), cols)
    } else {
        lines
    }
}

/// DL: deleting `n` rows at row `at` inside the scroll region `top..=bottom`;
/// a row outside the region changes nothing.
pub open spec fn lines_after_delete(
    lines: Seq<Seq<PixelChar>>,
    top: int,
    bottom: int,
    at: int,
    n: int,
    cols: nat,
) -> Seq<Seq<PixelChar>> {
    if top <= at <= bottom {
        rows_shifted_up(lines, at, bottom, shift_count(at, bottom, n), cols)
    } else {
        lines
    }
}

/// The cells of `line` with those in `start..end` replaced by `fill`.
pub open spec fn line_filled(line: Seq<PixelChar>, start: int, end: int, fill: PixelChar) -> Seq<
    PixelChar,
> {
    Seq::new(line.len(), |c: int| if start <= c < end { fill } else { line[c] })
}

proof fn lemma_map_remove_insert(
    s: Seq<Vec<PixelChar>>,
    removed: int,
    inserted: int,
    x: Vec<PixelChar>,
)
    requires
        0 <= removed < s.len(),
        0 <= inserted < s.len(),
    ensures
        s.remove(removed).insert(inserted, x).map_values(|l: Vec<PixelChar>| l@) == s.map_values(
            |l: Vec<PixelChar>| l@,
        ).remove(removed).insert(inserted, x@),
{
    let a = s.remove(removed).insert(inserted, x).map_values(|l: Vec<PixelChar>| l@);
    let b = s.map_values(|l: Vec<PixelChar>| l@).remove(removed).insert(inserted, x@);
    s.remove_ensures(removed);
    s.remove(removed).insert_ensures(inserted, x);
    s.map_values(|l: Vec<PixelChar>| l@).remove_ensures(removed);
    s.map_values(|l: Vec<PixelChar>| l@).remove(removed).insert_ensures(inserted, x@);
    assert(a =~= b);
}

proof fn lemma_shift_down_step(
    lines: Seq<Seq<PixelChar>>,
    at: int,
    bottom: int,
    j: int,
    cols: nat,
)
    requires
        0 <= at <= bottom < lines.len(),
        0 <= j < bottom + 1 - at,
    ensures
        rows_shifted_down(lines, at, bottom, j, cols).remove(bottom).insert(at, blank_line(cols))
            == rows_shifted_down(lines, at, bottom, j + 1, cols),
{
    let cur = rows_shifted_down(lines, at, bottom, j, cols);
    let next = rows_shifted_down(lines, at, bottom, j + 1, cols);
    cur.remove_ensures(bottom);
    cur.remove(bottom).insert_ensures(at, blank_line(cols));
    let got = cur.remove(bottom).insert(at, blank_line(cols));
    assert forall|i: int| 0 <= i < next.len() implies got[i] == next[i] by {
        if i < at {
        } else if i == at {
        } else if i < at + j + 1 {
        } else if i <= bottom {
        } else {
        }
    }
    assert(got =~= next);
}

proof fn lemma_shift_up_step(lines: Seq<Seq<PixelChar>>, at: int, bottom: int, j: int, cols: nat)
    requires
        0 <= at <= bottom < lines.len(),
        0 <= j < bottom + 1 - at,
    ensures
        rows_shifted_up(lines, at, bottom, j, cols).remove(at).insert(bottom, blank_line(cols))
            == rows_shifted_up(lines, at, bottom, j + 1, cols),
{
    let cur = rows_shifted_up(lines, at, bottom, j, cols);
    let next = rows_shifted_up(lines, at, bottom, j + 1, cols);
    cur.remove_ensures(at);
    cur.remove(at).insert_ensures(bottom, blank_line(cols));
    let got = cur.remove(at).insert(bottom, blank_line(cols));
    assert forall|i: int| 0 <= i < next.len() implies got[i] == next[i] by {
        if i < at {
        } else if i < bottom - j {
        } else if i < bottom {
        } else if i == bottom {
        } else {
        }
    }
    assert(got =~= next);
}

/// The columns `start..end` that EL clears on the cursor's row.
pub open spec fn erase_line_range(mode: EraseLineMode, col: int, cols: int) -> (int, int) {
    match mode {
        EraseLineMode::FromCursorToEnd => (col, cols),
        EraseLineMode::FromStartToCursor => (0, col + 1),
        EraseLineMode::EntireLine => (0, cols),
    }
}

/// The columns `start..end` that ED clears on row `r`.
pub open spec fn erase_display_range(
    mode: EraseDisplayMode,
    cursor_row: int,
    cursor_col: int,
    r: int,
    cols: int,
) -> (int, int) {
    match mode {
        EraseDisplayMode::FromCursorToEnd => if r < cursor_row {
            (0, 0)
        } else if r == cursor_row {
            (cursor_col, cols)
        } else {
            (0, cols)
        },
        EraseDisplayMode::FromStartToCursor => if r < cursor_row {
            (0, cols)
        } else if r == cursor_row {
            (0, cursor_col + 1)
        } else {
            (0, 0)
        },
        EraseDisplayMode::EntireDisplay => (0, cols),
    }
}

/// EL: the cursor's row with the selected columns replaced by `fill`.
pub open spec fn lines_after_erase_line(
    lines: Seq<Seq<PixelChar>>,
    mode: EraseLineMode,
    cursor_row: int,
    cursor_col: int,
    cols: int,
    fill: PixelChar,
) -> Seq<Seq<PixelChar>> {
    let range = erase_line_range(mode, cursor_col, cols);
    lines.update(cursor_row, line_filled(lines[cursor_row], range.0, range.1, fill))
}

/// ED: every row with the columns that the mode selects on it replaced by
/// `fill`.
pub open spec fn lines_after_erase_display(
    lines: Seq<Seq<PixelChar>>,
    mode: EraseDisplayMode,
    cursor_row: int,
    cursor_col: int,
    cols: int,
    fill: PixelChar,
) -> Seq<Seq<PixelChar>> {
    Seq::new(
        lines.len(),
        |r: int|
            {
                let range = erase_display_range(mode, cursor_row, cursor_col, r, cols);
                line_filled(lines[r], range.0, range.1, fill)
            },
    )
}

proof fn lemma_map_update(s: Seq<Vec<PixelChar>>, i: int, x: Vec<PixelChar>)
    requires
        0 <= i < s.len(),
    ensures
        s.update(i, x).map_values(|l: Vec<PixelChar>| l@) == s.map_values(
            |l: Vec<PixelChar>| l@,
        ).update(i, x@),
{
    assert(s.update(i, x).map_values(|l: Vec<PixelChar>| l@) =~= s.map_values(
        |l: Vec<PixelChar>| l@,
    ).update(i, x@));
}

/// A copy of `line` with the cells in `start..end` replaced by `fill`.
fn fill_range(line: &Vec<PixelChar>, start: usize, end: usize, fill: PixelChar) -> (filled: Vec<
    PixelChar,
>)
    ensures
        filled@ == line_filled(line@, start as int, end as int, fill),
{
    let mut filled: Vec<PixelChar> = Vec::new();
    let mut c: usize = 0;
    while c < line.len()
        invariant
            c <= line.len(),
            filled@ =~= line_filled(line@, start as int, end as int, fill).take(c as int),
        decreases line.len() - c,
    {
        if start <= c && c < end {
            filled.push(fill);
        } else {
            filled.push(line[c]);
        }
        c = c + 1;
    }
    filled
}

fn erase_line_bounds(mode: EraseLineMode, col: usize, cols: usize) -> (range: (usize, usize))
    requires
        col < cols,
    ensures
        range.0 as int == erase_line_range(mode, col as int, cols as int).0,
        range.1 as int == erase_line_range(mode, col as int, cols as int).1,
{
    match mode {
        EraseLineMode::FromCursorToEnd => (col, cols),
        EraseLineMode::FromStartToCursor => (0, col + 1),
        EraseLineMode::EntireLine => (0, cols),
    }
}

fn erase_display_bounds(
    mode: EraseDisplayMode,
    cursor_row: usize,
    cursor_col: usize,
    r: usize,
    cols: usize,
) -> (range: (usize, usize))
    requires
        cursor_col < cols,
    ensures
        range.0 as int == erase_display_range(
            mode,
            cursor_row as int,
            cursor_col as int,
            r as int,
            cols as int,
        ).0,
        range.1 as int == erase_display_range(
            mode,
            cursor_row as int,
            cursor_col as int,
            r as int,
            cols as int,
        ).1,
{
    match mode {
        EraseDisplayMode::FromCursorToEnd => if r < cursor_row {
            (0, 0)
        } else if r == cursor_row {
            (cursor_col, cols)
        } else {
            (0, cols)
        },
        EraseDisplayMode::FromStartToCursor => if r < cursor_row {
            (0, cols)
        } else if r == cursor_row {
            (0, cursor_col + 1)
        } else {
            (0, 0)
        },
        EraseDisplayMode::EntireDisplay => (0, cols),
    }
}

/// Deleting at a row what was just inserted there gives back the rows as they
/// were, except that the rows which the insertion pushed past the end of the
/// scroll region are blank.
pub proof fn lemma_delete_undoes_insert(
    lines: Seq<Seq<PixelChar>>,
    top: int,
    bottom: int,
    at: int,
    n: int,
    cols: nat,
)
    requires
        0 <= top <= bottom < lines.len(),
        n >= 0,
    ensures
        lines_after_delete(lines_after_insert(lines, top, bottom, at, n, cols), top, bottom, at, n, cols)
            == (if top <= at <= bottom {
            lines.take(bottom + 1 - shift_count(at, bottom, n)) + blank_lines(
                shift_count(at, bottom, n) as nat,
                cols,
            ) + lines.skip(bottom + 1)
        } else {
            lines
        }),
{
    if top <= at <= bottom {
        let k = shift_count(at, bottom, n);
        let inserted = lines_after_insert(lines, top, bottom, at, n, cols);
        let got = lines_after_delete(inserted, top, bottom, at, n, cols);
        let want = lines.take(bottom + 1 - k) + blank_lines(k as nat, cols) + lines.skip(bottom + 1);
        assert(inserted.len() == lines.len());
        assert forall|i: int| 0 <= i < want.len() implies got[i] == want[i] by {
            if i < at {
            } else if i < bottom + 1 - k {
                assert(got[i] == inserted[i + k]);
            } else if i <= bottom {
            } else {
            }
        }
        assert(got =~= want);
    }
}

/// IL and DL keep the number of rows and leave every row outside the scroll
/// region as it was.
pub proof fn lemma_insert_delete_keep_rows_outside_region(
    lines: Seq<Seq<PixelChar>>,
    top: int,
    bottom: int,
    at: int,
    n: int,
    cols: nat,
)
    requires
        0 <= top <= bottom < lines.len(),
        n >= 0,
    ensures
        lines_after_insert(lines, top, bottom, at, n, cols).len() == lines.len(),
        lines_after_delete(lines, top, bottom, at, n, cols).len() == lines.len(),
        forall|i: int|
            0 <= i < lines.len() && !(top <= i <= bottom) ==> #[trigger] lines_after_insert(
                lines,
                top,
                bottom,
                at,
                n,
                cols,
            )[i] == lines[i] && lines_after_delete(lines, top, bottom, at, n, cols)[i] == lines[i],
{
    if top <= at <= bottom {
        let k = shift_count(at, bottom, n);
        let ins = lines_after_insert(lines, top, bottom, at, n, cols);
        let del = lines_after_delete(lines, top, bottom, at, n, cols);
        assert forall|i: int| 0 <= i < lines.len() && !(top <= i <= bottom) implies ins[i]
            == lines[i] && del[i] == lines[i] by {
            if i < at {
            } else {
            }
        }
    }
}

/// Erasing from the start of the row to the cursor and then from the cursor
/// to the end of the row erases the whole row.
pub proof fn lemma_erase_line_halves_make_whole(
    lines: Seq<Seq<PixelChar>>,
    cursor_row: int,
    cursor_col: int,
    cols: int,
    fill: PixelChar,
)
    requires
        0 <= cursor_row < lines.len(),
        0 <= cursor_col < cols,
        lines[cursor_row].len() == cols,
    ensures
        lines_after_erase_line(
            lines_after_erase_line(
                lines,
                EraseLineMode::FromStartToCursor,
                cursor_row,
                cursor_col,
                cols,
                fill,
            ),
            EraseLineMode::FromCursorToEnd,
            cursor_row,
            cursor_col,
            cols,
            fill,
        ) == lines_after_erase_line(
            lines,
            EraseLineMode::EntireLine,
            cursor_row,
            cursor_col,
            cols,
            fill,
        ),
{
    let first = lines_after_erase_line(
        lines,
        EraseLineMode::FromStartToCursor,
        cursor_row,
        cursor_col,
        cols,
        fill,
    );
    let both = lines_after_erase_line(
        first,
        EraseLineMode::FromCursorToEnd,
        cursor_row,
        cursor_col,
        cols,
        fill,
    );
    let whole = lines_after_erase_line(
        lines,
        EraseLineMode::EntireLine,
        cursor_row,
        cursor_col,
        cols,
        fill,
    );
    assert(both[cursor_row] =~= whole[cursor_row]);
    assert(both =~= whole);
}

/// Erasing from the start of the display to the cursor and then from the
/// cursor to the end of the display erases the whole display.
pub proof fn lemma_erase_display_halves_make_whole(
    lines: Seq<Seq<PixelChar>>,
    cursor_row: int,
    cursor_col: int,
    cols: int,
    fill: PixelChar,
)
    requires
        0 <= cursor_row < lines.len(),
        0 <= cursor_col < cols,
        forall|r: int| 0 <= r < lines.len() ==> (#[trigger] lines[r]).len() == cols,
    ensures
        lines_after_erase_display(
            lines_after_erase_display(
                lines,
                EraseDisplayMode::FromStartToCursor,
                cursor_row,
                cursor_col,
                cols,
                fill,
            ),
            EraseDisplayMode::FromCursorToEnd,
            cursor_row,
            cursor_col,
            cols,
            fill,
        ) == lines_after_erase_display(
            lines,
            EraseDisplayMode::EntireDisplay,
            cursor_row,
            cursor_col,
            cols,
            fill,
        ),
{
    let first = lines_after_erase_display(
        lines,
        EraseDisplayMode::FromStartToCursor,
        cursor_row,
        cursor_col,
        cols,
        fill,
    );
    let both = lines_after_erase_display(
        first,
        EraseDisplayMode::FromCursorToEnd,
        cursor_row,
        cursor_col,
        cols,
        fill,
    );
    let whole = lines_after_erase_display(
        lines,
        EraseDisplayMode::EntireDisplay,
        cursor_row,
        cursor_col,
        cols,
        fill,
    );
    assert forall|r: int| 0 <= r < lines.len() implies both[r] == whole[r] by {
        assert(both[r] =~= whole[r]);
    }
    assert(both =~= whole);
}

/// IL moves rows down by exactly `n`: with the cursor row `at` inside the
/// scroll region, every row from `at` to the end of the region is blank when
/// it lies fewer than `n` rows below `at`, and otherwise holds the row that
/// stood `n` rows above it. Every other row keeps its content, and with `at`
/// outside the region nothing changes.
pub proof fn lemma_insert_lines_moves_rows_down_by_n(
    lines: Seq<Seq<PixelChar>>,
    top: int,
    bottom: int,
    at: int,
    n: int,
    cols: nat,
)
    requires
        0 <= top <= bottom < lines.len(),
        n >= 0,
    ensures
        lines_after_insert(lines, top, bottom, at, n, cols).len() == lines.len(),
        forall|i: int|
            0 <= i < lines.len() && !(top <= at <= bottom && at <= i <= bottom)
                ==> #[trigger] lines_after_insert(lines, top, bottom, at, n, cols)[i] == lines[i],
        top <= at <= bottom ==> forall|i: int|
            at <= i <= bottom ==> #[trigger] lines_after_insert(lines, top, bottom, at, n, cols)[i]
                == (if i < at + n {
                blank_line(cols)
            } else {
                lines[i - n]
            }),
{
    let after = lines_after_insert(lines, top, bottom, at, n, cols);
    if top <= at <= bottom {
        let k = shift_count(at, bottom, n);
        assert forall|i: int| 0 <= i < lines.len() implies #[trigger] after[i] == (if !(at <= i
            <= bottom) {
            lines[i]
        } else if i < at + n {
            blank_line(cols)
        } else {
            lines[i - n]
        }) by {
            if i < at {
            } else if i < at + k {
            } else if i <= bottom {
            } else {
            }
        }
    }
}

/// DL moves rows up by exactly `n`: with the cursor row `at` inside the
/// scroll region, every row from `at` to the end of the region holds the row
/// that stood `n` rows below it when that row lies in the region, and is blank
/// otherwise. Every other row keeps its content, and with `at` outside the
/// region nothing changes.
pub proof fn lemma_delete_lines_moves_rows_up_by_n(
    lines: Seq<Seq<PixelChar>>,
    top: int,
    bottom: int,
    at: int,
    n: int,
    cols: nat,
)
    requires
        0 <= top <= bottom < lines.len(),
        n >= 0,
    ensures
        lines_after_delete(lines, top, bottom, at, n, cols).len() == lines.len(),
        forall|i: int|
            0 <= i < lines.len() && !(top <= at <= bottom && at <= i <= bottom)
                ==> #[trigger] lines_after_delete(lines, top, bottom, at, n, cols)[i] == lines[i],
        top <= at <= bottom ==> forall|i: int|
            at <= i <= bottom ==> #[trigger] lines_after_delete(lines, top, bottom, at, n, cols)[i]
                == (if i + n <= bottom {
                lines[i + n]
            } else {
                blank_line(cols)
            }),
{
    let after = lines_after_delete(lines, top, bottom, at, n, cols);
    if top <= at <= bottom {
        let k = shift_count(at, bottom, n);
        assert forall|i: int| 0 <= i < lines.len() implies #[trigger] after[i] == (if !(at <= i
            <= bottom) {
            lines[i]
        } else if i + n <= bottom {
            lines[i + n]
        } else {
            blank_line(cols)
        }) by {
            if i < at {
            } else if i < bottom + 1 - k {
            } else if i <= bottom {
            } else {
            }
        }
    }
}

/// EL fills with `fill` exactly the cells of the cursor's row that the mode
/// names, the cursor's own cell included: from the cursor column to the end
/// (mode 0), from the start to the cursor column (mode 1), or all of them
/// (mode 2). Every other cell keeps its content.
pub proof fn lemma_erase_line_cells(
    lines: Seq<Seq<PixelChar>>,
    mode: EraseLineMode,
    cursor_row: int,
    cursor_col: int,
    cols: int,
    fill: PixelChar,
)
    requires
        0 <= cursor_row < lines.len(),
        0 <= cursor_col < cols,
        forall|r: int| 0 <= r < lines.len() ==> (#[trigger] lines[r]).len() == cols,
    ensures
        lines_after_erase_line(lines, mode, cursor_row, cursor_col, cols, fill).len() == lines.len(),
        forall|r: int|
            0 <= r < lines.len() ==> (#[trigger] lines_after_erase_line(
                lines,
                mode,
                cursor_row,
                cursor_col,
                cols,
                fill,
            )[r]).len() == cols,
        forall|r: int, c: int|
            0 <= r < lines.len() && 0 <= c < cols ==> #[trigger] lines_after_erase_line(
                lines,
                mode,
                cursor_row,
                cursor_col,
                cols,
                fill,
            )[r][c] == (if r == cursor_row && (mode == EraseLineMode::EntireLine || (mode
                == EraseLineMode::FromCursorToEnd && c >= cursor_col) || (mode
                == EraseLineMode::FromStartToCursor && c <= cursor_col)) {
                fill
            } else {
                lines[r][c]
            }),
{
}

/// ED fills with `fill` exactly the cells that the mode names, the cursor's
/// own cell included: every cell at or after the cursor in reading order
/// (mode 0), every cell at or before it (mode 1), or every cell (modes 2
/// and 3). Every other cell keeps its content.
pub proof fn lemma_erase_display_cells(
    lines: Seq<Seq<PixelChar>>,
    mode: EraseDisplayMode,
    cursor_row: int,
    cursor_col: int,
    cols: int,
    fill: PixelChar,
)
    requires
        0 <= cursor_row < lines.len(),
        0 <= cursor_col < cols,
        forall|r: int| 0 <= r < lines.len() ==> (#[trigger] lines[r]).len() == cols,
    ensures
        lines_after_erase_display(lines, mode, cursor_row, cursor_col, cols, fill).len()
            == lines.len(),
        forall|r: int|
            0 <= r < lines.len() ==> (#[trigger] lines_after_erase_display(
                lines,
                mode,
                cursor_row,
                cursor_col,
                cols,
                fill,
            )[r]).len() == cols,
        forall|r: int, c: int|
            0 <= r < lines.len() && 0 <= c < cols ==> #[trigger] lines_after_erase_display(
                lines,
                mode,
                cursor_row,
                cursor_col,
                cols,
                fill,
            )[r][c] == (if mode == EraseDisplayMode::EntireDisplay || (mode
                == EraseDisplayMode::FromCursorToEnd && (r > cursor_row || (r == cursor_row && c
                >= cursor_col))) || (mode == EraseDisplayMode::FromStartToCursor && (r < cursor_row
                || (r == cursor_row && c <= cursor_col))) {
                fill
            } else {
                lines[r][c]
            }),
{
}

/// A fresh row of `cols` empty cells.
fn new_blank_line(cols: usize) -> (line: Vec<PixelChar>)
    ensures
        line@ == blank_line(cols as nat),
{
    let mut line: Vec<PixelChar> = Vec::new();
    let mut c: usize = 0;
    while c < cols
        invariant
            c <= cols,
            line@ == blank_line(c as nat),
        decreases cols - c,
    {
        line.push(PixelChar::Spacer);
        c = c + 1;
        assert(line@ =~= blank_line(c as nat));
    }
    line
}

impl OffscreenBuffer {
    /// The cells, row by row.
    pub open spec fn lines(&self) -> Seq<Seq<PixelChar>> {
        self.buffer@.map_values(|l: Vec<PixelChar>| l@)
    }

    /// The grid has the buffer's dimensions, and the cursor and the scroll
    /// region lie inside it.
    pub open spec fn wf(&self) -> bool {
        let rows = self.window_size.row_height;
        let cols = self.window_size.col_width;
        &&& rows >= 1
        &&& cols >= 1
        &&& self.buffer@.len() == rows
        &&& forall|r: int| 0 <= r < rows ==> (#[trigger] self.buffer@[r])@.len() == cols
        &&& self.cursor_pos.row_index < rows
        &&& self.cursor_pos.col_index < cols
        &&& self.scroll_top <= self.scroll_bottom
        &&& self.scroll_bottom < rows
    }

    /// Everything but the cells is the same in `self` and `other`.
    pub open spec fn same_settings(&self, other: &OffscreenBuffer) -> bool {
        &&& self.window_size == other.window_size
        &&& self.cursor_pos == other.cursor_pos
        &&& self.scroll_top == other.scroll_top
        &&& self.scroll_bottom == other.scroll_bottom
        &&& self.current_style == other.current_style
        &&& self.auto_wrap_mode == other.auto_wrap_mode
        &&& self.terminal_mode == other.terminal_mode
    }

    /// Inserts `how_many` blank rows at row `at`; the rows from `at` to the
    /// end of the scroll region move down, and those pushed past its end are
    /// dropped. A row outside the scroll region changes nothing.
    pub fn insert_lines_at(&mut self, at: usize, how_many: usize)
        requires
            old(self).wf(),
        ensures
            final(self).wf(),
            final(self).same_settings(old(self)),
            final(self).lines() == lines_after_insert(
                old(self).lines(),
                old(self).scroll_top as int,
                old(self).scroll_bottom as int,
                at as int,
                how_many as int,
                old(self).window_size.col_width as nat,
            ),
    {
        let top = self.scroll_top;
        let bottom = self.scroll_bottom;
        if at < top || at > bottom {
            return;
        }
        let room = bottom - at + 1;
        let count = if how_many < room {
            how_many
        } else {
            room
        };
        let cols = self.window_size.col_width;
        let ghost orig = *self;
        let mut j: usize = 0;
        while j < count
            invariant
                orig.wf(),
                top == orig.scroll_top,
                bottom == orig.scroll_bottom,
                cols == orig.window_size.col_width,
                top <= at <= bottom,
                count == shift_count(at as int, bottom as int, how_many as int),
                j <= count,
                self.same_settings(&orig),
                self.buffer@.len() == orig.buffer@.len(),
                forall|r: int|
                    0 <= r < self.buffer@.len() ==> (#[trigger] self.buffer@[r])@.len() == cols,
                self.lines() == rows_shifted_down(orig.lines(), at as int, bottom as int, j as int, cols as nat),
            decreases count - j,
        {
            let ghost before = self.buffer@;
            proof {
                lemma_shift_down_step(orig.lines(), at as int, bottom as int, j as int, cols as nat);
            }
            let _dropped = self.buffer.remove(bottom);
            let blank = new_blank_line(cols);
            self.buffer.insert(at, blank);
            proof {
                lemma_map_remove_insert(before, bottom as int, at as int, blank);
                before.remove_ensures(bottom as int);
                before.remove(bottom as int).insert_ensures(at as int, blank);
            }
            j = j + 1;
        }
    }

    /// Deletes `how_many` rows at row `at`; the rows below it up to the end of
    /// the scroll region move up, and blank rows fill the end of the region.
    /// A row outside the scroll region changes nothing.
    pub fn delete_lines_at(&mut self, at: usize, how_many: usize)
        requires
            old(self).wf(),
        ensures
            final(self).wf(),
            final(self).same_settings(old(self)),
            final(self).lines() == lines_after_delete(
                old(self).lines(),
                old(self).scroll_top as int,
                old(self).scroll_bottom as int,
                at as int,
                how_many as int,
                old(self).window_size.col_width as nat,
            ),
    {
        let top = self.scroll_top;
        let bottom = self.scroll_bottom;
        if at < top || at > bottom {
            return;
        }
        let room = bottom - at + 1;
        let count = if how_many < room {
            how_many
        } else {
            room
        };
        let cols = self.window_size.col_width;
        let ghost orig = *self;
        let mut j: usize = 0;
        while j < count
            invariant
                orig.wf(),
                top == orig.scroll_top,
                bottom == orig.scroll_bottom,
                cols == orig.window_size.col_width,
                top <= at <= bottom,
                count == shift_count(at as int, bottom as int, how_many as int),
                j <= count,
                self.same_settings(&orig),
                self.buffer@.len() == orig.buffer@.len(),
                forall|r: int|
                    0 <= r < self.buffer@.len() ==> (#[trigger] self.buffer@[r])@.len() == cols,
                self.lines() == rows_shifted_up(orig.lines(), at as int, bottom as int, j as int, cols as nat),
            decreases count - j,
        {
            let ghost before = self.buffer@;
            proof {
                lemma_shift_up_step(orig.lines(), at as int, bottom as int, j as int, cols as nat);
            }
            let _dropped = self.buffer.remove(at);
            let blank = new_blank_line(cols);
            self.buffer.insert(bottom, blank);
            proof {
                lemma_map_remove_insert(before, at as int, bottom as int, blank);
                before.remove_ensures(at as int);
                before.remove(at as int).insert_ensures(bottom as int, blank);
            }
            j = j + 1;
        }
    }

    /// EL: clears the columns that `mode` selects on the cursor's row with
    /// spaces in the current style.
    pub fn erase_line(&mut self, mode: EraseLineMode)
        requires
            old(self).wf(),
        ensures
            final(self).wf(),
            final(self).same_settings(old(self)),
            final(self).lines() == lines_after_erase_line(
                old(self).lines(),
                mode,
                old(self).cursor_pos.row_index as int,
                old(self).cursor_pos.col_index as int,
                old(self).window_size.col_width as int,
                styled_space(old(self).current_style),
            ),
    {
        let row = self.cursor_pos.row_index;
        let cols = self.window_size.col_width;
        let range = erase_line_bounds(mode, self.cursor_pos.col_index, cols);
        let fill = PixelChar::PlainText { display_char: ' ', style: self.current_style };
        let line = fill_range(&self.buffer[row], range.0, range.1, fill);
        let ghost before = self.buffer@;
        self.buffer.set(row, line);
        proof {
            lemma_map_update(before, row as int, line);
        }
    }

    /// ED: clears the cells that `mode` selects with spaces in the current
    /// style.
    pub fn erase_display(&mut self, mode: EraseDisplayMode)
        requires
            old(self).wf(),
        ensures
            final(self).wf(),
            final(self).same_settings(old(self)),
            final(self).lines() == lines_after_erase_display(
                old(self).lines(),
                mode,
                old(self).cursor_pos.row_index as int,
                old(self).cursor_pos.col_index as int,
                old(self).window_size.col_width as int,
                styled_space(old(self).current_style),
            ),
    {
        let rows = self.window_size.row_height;
        let cols = self.window_size.col_width;
        let cursor_row = self.cursor_pos.row_index;
        let cursor_col = self.cursor_pos.col_index;
        let fill = PixelChar::PlainText { display_char: ' ', style: self.current_style };
        let ghost orig = *self;
        let ghost target = lines_after_erase_display(
            orig.lines(),
            mode,
            cursor_row as int,
            cursor_col as int,
            cols as int,
            fill,
        );
        let mut r: usize = 0;
        while r < rows
            invariant
                orig.wf(),
                rows == orig.window_size.row_height,
                cols == orig.window_size.col_width,
                cursor_row == orig.cursor_pos.row_index,
                cursor_col == orig.cursor_pos.col_index,
                fill == styled_space(orig.current_style),
                target == lines_after_erase_display(
                    orig.lines(),
                    mode,
                    cursor_row as int,
                    cursor_col as int,
                    cols as int,
                    fill,
                ),
                r <= rows,
                self.same_settings(&orig),
                self.buffer@.len() == rows,
                forall|i: int| 0 <= i < r ==> #[trigger] self.lines()[i] == target[i],
                forall|i: int| r <= i < rows ==> #[trigger] self.lines()[i] == orig.lines()[i],
            decreases rows - r,
        {
            let range = erase_display_bounds(mode, cursor_row, cursor_col, r, cols);
            let line = fill_range(&self.buffer[r], range.0, range.1, fill);
            let ghost before = self.buffer@;
            let ghost before_lines = self.lines();
            proof {
                assert(before_lines[r as int] == orig.lines()[r as int]);
                assert(line@ == target[r as int]);
            }
            self.buffer.set(r, line);
            proof {
                lemma_map_update(before, r as int, line);
                assert forall|i: int| 0 <= i < r + 1 implies #[trigger] self.lines()[i] == target[i] by {
                    if i < r {
                        assert(before_lines[i] == target[i]);
                    }
                }
                assert forall|i: int| r + 1 <= i < rows implies #[trigger] self.lines()[i] == orig.lines()[i] by {
                    assert(before_lines[i] == orig.lines()[i]);
                }
            }
            r = r + 1;
        }
        assert(self.lines() =~= target);
        assert forall|i: int| 0 <= i < rows implies (#[trigger] self.buffer@[i])@.len() == cols by {
            assert(self.lines()[i] == target[i]);
            assert(orig.lines()[i].len() == cols);
        }
    }

    /// Clears every cell to an unstyled empty cell.
    pub fn clear(&mut self)
        requires
            old(self).wf(),
        ensures
            final(self).wf(),
            final(self).same_settings(old(self)),
            final(self).lines() == blank_lines(
                old(self).window_size.row_height as nat,
                old(self).window_size.col_width as nat,
            ),
    {
        let rows = self.window_size.row_height;
        let cols = self.window_size.col_width;
        let ghost orig = *self;
        let mut r: usize = 0;
        while r < rows
            invariant
                orig.wf(),
                rows == orig.window_size.row_height,
                cols == orig.window_size.col_width,
                r <= rows,
                self.same_settings(&orig),
                self.buffer@.len() == rows,
                forall|i: int| 0 <= i < r ==> #[trigger] self.lines()[i] == blank_line(cols as nat),
                forall|i: int| r <= i < rows ==> #[trigger] self.lines()[i] == orig.lines()[i],
            decreases rows - r,
        {
            let line = new_blank_line(cols);
            let ghost before = self.buffer@;
            let ghost before_lines = self.lines();
            self.buffer.set(r, line);
            proof {
                lemma_map_update(before, r as int, line);
                assert forall|i: int| 0 <= i < r + 1 implies #[trigger] self.lines()[i] == blank_line(cols as nat) by {
                    if i < r {
                        assert(before_lines[i] == blank_line(cols as nat));
                    }
                }
                assert forall|i: int| r + 1 <= i < rows implies #[trigger] self.lines()[i] == orig.lines()[i] by {
                    assert(before_lines[i] == orig.lines()[i]);
                }
            }
            r = r + 1;
        }
        assert(self.lines() =~= blank_lines(rows as nat, cols as nat));
        assert forall|i: int| 0 <= i < rows implies (#[trigger] self.buffer@[i])@.len() == cols by {
            assert(self.lines()[i] == blank_line(cols as nat));
        }
    }

    /// DECAWM: turns auto-wrap on or off.
    pub fn set_auto_wrap_mode(&mut self, enabled: bool)
        ensures
            *final(self) == (OffscreenBuffer { auto_wrap_mode: enabled, ..*old(self) }),
    {
        self.auto_wrap_mode = enabled;
    }

    /// Switches output to the alternate screen buffer, or back to the primary
    /// one.
    pub fn set_alternate_screen_mode(&mut self, enabled: bool)
        ensures
            *final(self) == (OffscreenBuffer {
                terminal_mode: TerminalModeState {
                    active_screen_buffer: if enabled {
                        ActiveScreenBuffer::Alternate
                    } else {
                        ActiveScreenBuffer::Primary
                    },
                    ..old(self).terminal_mode
                },
                ..*old(self)
            }),
    {
        self.terminal_mode.active_screen_buffer =
            if enabled {
                ActiveScreenBuffer::Alternate
            } else {
                ActiveScreenBuffer::Primary
            };
    }

    /// A buffer of the given size with every cell empty, the cursor at the top
    /// left, the scroll region spanning every row, no style, auto-wrap on and
    /// the initial terminal modes.
    pub fn new_empty(window_size: Size) -> (ofs_buf: OffscreenBuffer)
        requires
            window_size.row_height >= 1,
            window_size.col_width >= 1,
        ensures
            ofs_buf.wf(),
            ofs_buf.window_size == window_size,
            ofs_buf.lines() == blank_lines(
                window_size.row_height as nat,
                window_size.col_width as nat,
            ),
            ofs_buf.cursor_pos == (Pos { row_index: 0, col_index: 0 }),
            ofs_buf.scroll_top == 0,
            ofs_buf.scroll_bottom == window_size.row_height - 1,
            ofs_buf.current_style == (TuiStyle { fg_color: None, bg_color: None }),
            ofs_buf.auto_wrap_mode,
            ofs_buf.terminal_mode == TerminalModeState::initial(),
    {
        let rows = window_size.row_height;
        let cols = window_size.col_width;
        let mut buffer: Vec<Vec<PixelChar>> = Vec::new();
        let mut r: usize = 0;
        while r < rows
            invariant
                r <= rows,
                buffer@.len() == r,
                forall|i: int| 0 <= i < r ==> (#[trigger] buffer@[i])@ == blank_line(cols as nat),
            decreases rows - r,
        {
            buffer.push(new_blank_line(cols));
            r = r + 1;
        }
        let ofs_buf = OffscreenBuffer {
            buffer,
            window_size,
            cursor_pos: Pos { row_index: 0, col_index: 0 },
            scroll_top: 0,
            scroll_bottom: rows - 1,
            current_style: TuiStyle { fg_color: None, bg_color: None },
            auto_wrap_mode: true,
            terminal_mode: TerminalModeState::default(),
        };
        assert(ofs_buf.lines() =~= blank_lines(rows as nat, cols as nat));
        ofs_buf
    }

    /// Moves the cursor to `pos`, clamped into the grid.
    pub fn set_cursor_pos(&mut self, pos: Pos)
        requires
            old(self).wf(),
        ensures
            final(self).wf(),
            final(self).cursor_pos.row_index == (if pos.row_index < old(
                self,
            ).window_size.row_height {
                pos.row_index
            } else {
                (old(self).window_size.row_height - 1) as usize
            }),
            final(self).cursor_pos.col_index == (if pos.col_index < old(
                self,
            ).window_size.col_width {
                pos.col_index
            } else {
                (old(self).window_size.col_width - 1) as usize
            }),
            *final(self) == (OffscreenBuffer { cursor_pos: final(self).cursor_pos, ..*old(self) }),
    {
        let row = if pos.row_index < self.window_size.row_height {
            pos.row_index
        } else {
            self.window_size.row_height - 1
        };
        let col = if pos.col_index < self.window_size.col_width {
            pos.col_index
        } else {
            self.window_size.col_width - 1
        };
        self.cursor_pos = Pos { row_index: row, col_index: col };
    }

    /// DECSTBM: sets the scroll region to the rows `top..=bottom` when they
    /// lie in the grid in that order; otherwise changes nothing and returns
    /// `false`.
    pub fn set_scroll_region(&mut self, top: usize, bottom: usize) -> (applied: bool)
        requires
            old(self).wf(),
        ensures
            final(self).wf(),
            applied == (top <= bottom && bottom < old(self).window_size.row_height),
            applied ==> *final(self) == (OffscreenBuffer {
                scroll_top: top,
                scroll_bottom: bottom,
                ..*old(self)
            }),
            !applied ==> *final(self) == *old(self),
    {
        if top <= bottom && bottom < self.window_size.row_height {
            self.scroll_top = top;
            self.scroll_bottom = bottom;
            true
        } else {
            false
        }
    }

    /// Sets the style that erase operations write with.
    pub fn set_current_style(&mut self, style: TuiStyle)
        ensures
            *final(self) == (OffscreenBuffer { current_style: style, ..*old(self) }),
    {
        self.current_style = style;
    }

    /// Writes `pixel_char` into the cell at `pos` when it lies in the grid;
    /// otherwise changes nothing and returns `false`.
    pub fn set_char(&mut self, pos: Pos, pixel_char: PixelChar) -> (written: bool)
        requires
            old(self).wf(),
        ensures
            final(self).wf(),
            final(self).same_settings(old(self)),
            written == (pos.row_index < old(self).window_size.row_height && pos.col_index < old(
                self,
            ).window_size.col_width),
            written ==> final(self).lines() == old(self).lines().update(
                pos.row_index as int,
                old(self).lines()[pos.row_index as int].update(pos.col_index as int, pixel_char),
            ),
            !written ==> final(self).lines() == old(self).lines(),
    {
        if pos.row_index < self.window_size.row_height && pos.col_index < self.window_size.col_width {
            let row = pos.row_index;
            let line = fill_range(&self.buffer[row], pos.col_index, pos.col_index + 1, pixel_char);
            let ghost before = self.buffer@;
            proof {
                assert(line@ =~= before[row as int]@.update(pos.col_index as int, pixel_char));
            }
            self.buffer.set(row, line);
            proof {
                lemma_map_update(before, row as int, line);
            }
            true
        } else {
            false
        }
    }

    /// The cell at `pos`, if it lies in the grid.
    pub fn get_char(&self, pos: Pos) -> (pixel_char: Option<PixelChar>)
        requires
            self.wf(),
        ensures
            pixel_char == (if pos.row_index < self.window_size.row_height && pos.col_index
                < self.window_size.col_width {
                Some(self.lines()[pos.row_index as int][pos.col_index as int])
            } else {
                None
            }),
    {
        if pos.row_index < self.window_size.row_height && pos.col_index < self.window_size.col_width {
            Some(self.buffer[pos.row_index][pos.col_index])
        } else {
            None
        }
    }
}

} // verus!
