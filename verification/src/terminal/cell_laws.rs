//! How the cells of a grid come out on screen, cell by cell.
use crate::terminal::grid::{frame_cursor, stacked, FrameInputs};
use crate::terminal::layout::{
    cursor_paint, filled, glyph, painted, row_facts, row_paint, row_runs, selection_tints, tint,
    tints, with_glyph, PaletteModel, RectModel, RowFacts, RowModel, RunModel,
};
use crate::terminal::model::{
    CellWidth, CursorShape, HyperlinkMatch, TerminalCell, TerminalColor, TerminalModel,
};
use crate::terminal::paint_laws::{
    covers, law_rectangles_fill_the_coloured_columns, law_runs_are_as_long_as_their_style,
};
use crate::theme::color::{Color, OPAQUE};
use vstd::prelude::*;

verus! {

/// Whether a run of text lies over a column.
pub open spec fn spans(run: RunModel, col: int) -> bool {
    run.start_col <= col < run.start_col + run.cell_count
}

/// Whether a row's selection has a column.
pub open spec fn selected_at(state: &TerminalModel, row: int, col: int) -> bool {
    0 <= row < state.selection@.len() && (match state.selection@[row] {
        Some(span) => span.0 <= col && col <= span.1,
        None => false,
    })
}

/// The text of a run looks as the flags of its cells say: bold and italic each exactly
/// where the cell is, wavy where the cell is undercurled, underlined where the cell is in
/// any way or lies under the link that the pointer is on, in the cell's colours, which an
/// inverse cell exchanges; and it says whether it is selected.
pub proof fn law_text_looks_as_its_cell_says(
    state: &TerminalModel,
    row: int,
    palette: PaletteModel,
    composing: bool,
    link: Option<&HyperlinkMatch>,
    focused: bool,
    blink_phase: bool,
    cursor: Option<(usize, usize)>,
    i: int,
    col: int,
)
    requires
        0 <= i < row_paint(
            state.line(row),
            row,
            palette,
            row_facts(state, row, composing, link, focused, blink_phase, cursor),
        ).text_runs.len(),
        spans(
            row_paint(
                state.line(row),
                row,
                palette,
                row_facts(state, row, composing, link, focused, blink_phase, cursor),
            ).text_runs[i],
            col,
        ),
    ensures
        ({
            let run = row_paint(
                state.line(row),
                row,
                palette,
                row_facts(state, row, composing, link, focused, blink_phase, cursor),
            ).text_runs[i];
            let cell = state.lines@[row]@[col];
            let flags = cell.style.flags;
            let linked = link is Some && {
                let (a, b) = (link->0.start, link->0.end);
                &&& a.0 < row || (a.0 == row && a.1 <= col)
                &&& row < b.0 || (row == b.0 && col <= b.1)
            };
            &&& 0 <= row < state.lines@.len()
            &&& 0 <= col < state.lines@[row]@.len() && col < state.cols
            &&& run.row == row
            &&& run.style.bold == flags.bold
            &&& run.style.italic == flags.italic
            &&& run.style.underline_wavy == flags.undercurl
            &&& run.style.underline == (flags.underline || flags.undercurl || linked)
            &&& run.style.fg == if flags.inverse {
                cell.style.bg
            } else {
                cell.style.fg
            }
            &&& run.style.bg == if flags.inverse {
                cell.style.fg
            } else {
                cell.style.bg
            }
            &&& run.style.selected == selected_at(state, row, col)
            &&& run.style.cursor == (cursor is Some && (cursor->0).0 == row && (cursor->0).1 == col
                && focused && state.cursor_shape == CursorShape::Block && !composing && (
            !state.cursor_blinking || blink_phase) && !selected_at(state, row, col))
            &&& cell.width != CellWidth::Spacer
            &&& cell.text@.len() > 0 || flags.underline || flags.undercurl
        }),
{
    let facts = row_facts(state, row, composing, link, focused, blink_phase, cursor);
    let line = state.line(row);
    law_runs_are_as_long_as_their_style(line, row, facts, line.len() as int);
    let run = row_runs(line, row, facts, line.len() as int)[i];
    assert(match glyph(line, row, col, facts) {
        Some(g) => g.style == run.style,
        None => false,
    });
    assert(line[col] == state.lines@[row]@[col]);
}

/// The characters of adjacent cells; a blank one is a space.
pub open spec fn characters_of(line: Seq<TerminalCell>, start: int, count: int) -> Seq<char>
    decreases count,
{
    if count <= 0 {
        Seq::empty()
    } else {
        let cell = line[start + count - 1];
        characters_of(line, start, count - 1) + if cell.text@.len() == 0 {
            seq![' ']
        } else {
            cell.text@
        }
    }
}

/// A run spells the characters of its cells.
pub proof fn law_a_run_spells_its_cells(
    line: Seq<TerminalCell>,
    row: int,
    facts: RowFacts,
    n: int,
    i: int,
)
    requires
        0 <= n <= line.len(),
        0 <= i < row_runs(line, row, facts, n).len(),
    ensures
        ({
            let run = row_runs(line, row, facts, n)[i];
            run.text == characters_of(line, run.start_col, run.cell_count)
        }),
    decreases n,
{
    let before = row_runs(line, row, facts, n - 1);
    law_runs_are_as_long_as_their_style(line, row, facts, n);
    if n > 0 {
        match glyph(line, row, n - 1, facts) {
            Some(g) => {
                let after = with_glyph(before, row, n - 1, g);
                if i < after.len() - 1 {
                    assert(after[i] == before[i]);
                    law_a_run_spells_its_cells(line, row, facts, n - 1, i);
                } else if after.len() == before.len() {
                    law_a_run_spells_its_cells(line, row, facts, n - 1, i);
                } else {
                    assert(characters_of(line, n - 1, 0) =~= Seq::<char>::empty());
                    assert(characters_of(line, n - 1, 1) =~= g.text);
                }
            },
            None => {
                law_a_run_spells_its_cells(line, row, facts, n - 1, i);
            },
        }
    }
}

proof fn lemma_glyph_is_covered(
    line: Seq<TerminalCell>,
    row: int,
    facts: RowFacts,
    n: int,
    col: int,
)
    requires
        0 <= col < n <= line.len(),
        glyph(line, row, col, facts) is Some,
    ensures
        exists|i: int|
            0 <= i < row_runs(line, row, facts, n).len() && spans(
                #[trigger] row_runs(line, row, facts, n)[i],
                col,
            ),
    decreases n,
{
    let before = row_runs(line, row, facts, n - 1);
    let after = row_runs(line, row, facts, n);
    if col == n - 1 {
        let g = glyph(line, row, col, facts)->0;
        assert(after == with_glyph(before, row, n - 1, g));
        law_runs_are_as_long_as_their_style(line, row, facts, n - 1);
        if after.len() == before.len() {
            assert(before[before.len() - 1].cell_count >= 1);
        }
        assert(spans(after[after.len() - 1], col));
    } else {
        lemma_glyph_is_covered(line, row, facts, n - 1, col);
        let i = choose|i: int| 0 <= i < before.len() && spans(#[trigger] before[i], col);
        match glyph(line, row, n - 1, facts) {
            Some(g) => {
                assert(after == with_glyph(before, row, n - 1, g));
                assert(spans(after[i], col));
            },
            None => {
                assert(spans(after[i], col));
            },
        }
    }
}

/// Every character is painted, and so is every underlined blank that does not just stand
/// behind a character with marks; the second column of a wide character is not.
pub proof fn law_every_character_is_painted(
    line: Seq<TerminalCell>,
    row: int,
    palette: PaletteModel,
    facts: RowFacts,
    col: int,
)
    requires
        0 <= col < line.len(),
        line[col].width != CellWidth::Spacer,
        line[col].text@.len() > 0 || ((line[col].style.flags.underline
            || line[col].style.flags.undercurl) && (col == 0 || (line[col - 1].width
            != CellWidth::Spacer && line[col - 1].text@.len() <= 1))),
    ensures
        exists|i: int|
            0 <= i < row_paint(line, row, palette, facts).text_runs.len() && spans(
                #[trigger] row_paint(line, row, palette, facts).text_runs[i],
                col,
            ),
{
    reveal_with_fuel(crate::terminal::layout::modified_before, 2);
    lemma_glyph_is_covered(line, row, facts, line.len() as int, col);
    let runs = row_runs(line, row, facts, line.len() as int);
    let i = choose|i: int| 0 <= i < runs.len() && spans(#[trigger] runs[i], col);
    assert(spans(row_paint(line, row, palette, facts).text_runs[i], col));
}

/// A blank behind a character with marks is not painted, which would hide what the marks
/// reach over; a wide character's second column does not part the two. A blank with no
/// underline is never painted.
pub proof fn law_marks_are_not_painted_over(
    line: Seq<TerminalCell>,
    row: int,
    palette: PaletteModel,
    facts: RowFacts,
    col: int,
    i: int,
)
    requires
        0 <= col < line.len(),
        line[col].text@.len() == 0,
        ({
            let blank = !line[col].style.flags.underline && !line[col].style.flags.undercurl;
            let behind = col >= 1 && line[col - 1].width != CellWidth::Spacer && line[col
                - 1].text@.len() > 1;
            let apart = col >= 2 && line[col - 1].width == CellWidth::Spacer && line[col - 2].width
                != CellWidth::Spacer && line[col - 2].text@.len() > 1;
            blank || behind || apart
        }),
        0 <= i < row_paint(line, row, palette, facts).text_runs.len(),
    ensures
        !spans(row_paint(line, row, palette, facts).text_runs[i], col),
{
    reveal_with_fuel(crate::terminal::layout::modified_before, 3);
    law_runs_are_as_long_as_their_style(line, row, facts, line.len() as int);
    let run = row_runs(line, row, facts, line.len() as int)[i];
    if spans(run, col) {
        assert(match glyph(line, row, col, facts) {
            Some(g) => g.style == run.style,
            None => false,
        });
    }
}

/// The background of a cell is painted in the colour that its program chose, which an
/// inverse cell exchanges for that of its text, exactly where that is not the terminal's
/// own.
pub proof fn law_a_background_has_its_cells_color(
    line: Seq<TerminalCell>,
    row: int,
    palette: PaletteModel,
    facts: RowFacts,
    col: int,
)
    requires
        0 <= col < line.len(),
    ensures
        ({
            let rects = row_paint(line, row, palette, facts).backgrounds;
            let bg = if line[col].style.flags.inverse {
                line[col].style.fg
            } else {
                line[col].style.bg
            };
            &&& (exists|i: int| 0 <= i < rects.len() && covers(#[trigger] rects[i], row, col))
                <==> bg != TerminalColor::Background
            &&& forall|i: int|
                0 <= i < rects.len() && covers(#[trigger] rects[i], row, col) ==> rects[i].color
                    == painted(bg, palette)
        }),
{
    let all = tints(line, palette);
    law_rectangles_fill_the_coloured_columns(all, row);
    let rects = filled(all, row);
    assert(all[col] == tint(line[col], palette));
    assert(row_paint(line, row, palette, facts).backgrounds == rects);
    if all[col] is Some {
        let i = choose|i: int| 0 <= i < rects.len() && covers(#[trigger] rects[i], row, col);
        assert(covers(row_paint(line, row, palette, facts).backgrounds[i], row, col));
    }
    assert forall|i: int| 0 <= i < rects.len() && covers(#[trigger] rects[i], row, col) implies
    all[col] == Some(rects[i].color) by {}
}

/// A selection is painted over exactly the selected cells, in its own colour.
pub proof fn law_a_selection_covers_the_selected_cells(
    state: &TerminalModel,
    row: int,
    palette: PaletteModel,
    composing: bool,
    link: Option<&HyperlinkMatch>,
    focused: bool,
    blink_phase: bool,
    cursor: Option<(usize, usize)>,
    col: int,
)
    requires
        0 <= col < state.line(row).len(),
    ensures
        ({
            let rects = row_paint(
                state.line(row),
                row,
                palette,
                row_facts(state, row, composing, link, focused, blink_phase, cursor),
            ).selections;
            &&& (exists|i: int| 0 <= i < rects.len() && covers(#[trigger] rects[i], row, col))
                <==> selected_at(state, row, col)
            &&& forall|i: int| 0 <= i < rects.len() ==> (#[trigger] rects[i]).color
                == palette.selection
        }),
{
    let facts = row_facts(state, row, composing, link, focused, blink_phase, cursor);
    let all = selection_tints(state.line(row).len(), palette, facts);
    law_rectangles_fill_the_coloured_columns(all, row);
    let rects = filled(all, row);
    assert forall|i: int| 0 <= i < rects.len() implies (#[trigger] rects[i]).color
        == palette.selection by {
        assert(covers(rects[i], row, rects[i].start_col));
        assert(all[rects[i].start_col] == Some(rects[i].color));
    }
    if exists|i: int| 0 <= i < rects.len() && covers(#[trigger] rects[i], row, col) {
        let i = choose|i: int| 0 <= i < rects.len() && covers(#[trigger] rects[i], row, col);
        assert(all[col] == Some(rects[i].color));
    }
    let shown = row_paint(state.line(row), row, palette, facts).selections;
    assert(shown == rects);
    if selected_at(state, row, col) {
        assert(all[col] is Some);
        let i = choose|i: int| 0 <= i < rects.len() && covers(#[trigger] rects[i], row, col);
        assert(covers(shown[i], row, col));
    }
    if exists|i: int| 0 <= i < shown.len() && covers(#[trigger] shown[i], row, col) {
        let i = choose|i: int| 0 <= i < shown.len() && covers(#[trigger] shown[i], row, col);
        assert(covers(rects[i], row, col));
        assert(all[col] == Some(rects[i].color));
        assert(selected_at(state, row, col));
    }
}

// Colours.

/// Whether a colour keeps all of its alpha and has these channels.
pub open spec fn has_channels(color: Color, r: int, g: int, b: int) -> bool {
    &&& color.opacity == OPAQUE
    &&& color.rgba as int == ((r * 256 + g) * 256 + b) * 256 + 255
}

/// The colours that programs name come from the palette: the text's, the background's, the
/// cursor's, and the sixteen named ones by their number. A colour by its channels is that
/// colour.
pub proof fn law_named_colors_come_from_the_palette(
    palette: PaletteModel,
    index: u8,
    r: u8,
    g: u8,
    b: u8,
)
    requires
        index < 16,
    ensures
        painted(TerminalColor::Foreground, palette) == palette.foreground,
        painted(TerminalColor::Background, palette) == palette.background,
        painted(TerminalColor::Cursor, palette) == palette.cursor,
        painted(TerminalColor::Indexed(index), palette) == palette.ansi[index as int],
        has_channels(
            painted(TerminalColor::Rgb { r, g, b }, palette),
            r as int,
            g as int,
            b as int,
        ),
{
}

/// The level of a step of the colour cube.
pub open spec fn cube_level(step: int) -> int {
    if step == 0 {
        0
    } else if step == 1 {
        95
    } else if step == 2 {
        135
    } else if step == 3 {
        175
    } else if step == 4 {
        215
    } else {
        255
    }
}

/// The numbers from 16 on name a cube of six steps of red, green and blue, and those from
/// 232 on greys from dark to light, ten apart.
pub proof fn law_numbered_colors_are_the_cube_and_the_greys(
    palette: PaletteModel,
    r: int,
    g: int,
    b: int,
    grey: int,
)
    requires
        0 <= r < 6,
        0 <= g < 6,
        0 <= b < 6,
        0 <= grey < 24,
    ensures
        has_channels(
            painted(TerminalColor::Indexed((16 + 36 * r + 6 * g + b) as u8), palette),
            cube_level(r),
            cube_level(g),
            cube_level(b),
        ),
        has_channels(
            painted(TerminalColor::Indexed((232 + grey) as u8), palette),
            8 + 10 * grey,
            8 + 10 * grey,
            8 + 10 * grey,
        ),
{
    let n = 36 * r + 6 * g + b;
    assert(n / 36 == r && n % 36 == 6 * g + b);
    assert((6 * g + b) / 6 == g);
    assert(n % 6 == b);
}

// The cursor.

/// The cursor covers its cell: both columns of a wide character, from whichever of them it
/// stands on. It has the colour of the text there, seventy-two parts of a hundred of it,
/// hides behind a selection, and keeps its shape.
pub proof fn law_the_cursor_covers_its_character(
    state: &TerminalModel,
    palette: PaletteModel,
    row: usize,
    col: usize,
)
    requires
        state.cursor == Some((row, col)),
        row < state.lines@.len(),
        col < state.lines@[row as int]@.len(),
        col < state.cols,
    ensures
        ({
            let cells = state.lines@[row as int]@;
            let behind = cells[col as int].width == CellWidth::Spacer && col > 0;
            let start = if behind {
                col - 1
            } else {
                col as int
            };
            let style = cells[start].style;
            let fg = if style.flags.inverse {
                style.bg
            } else {
                style.fg
            };
            match cursor_paint(state, palette) {
                Some(cursor) => {
                    &&& cursor.row == row
                    &&& cursor.start_col == start
                    &&& cursor.cell_count == if behind || cells[col as int].width
                        == CellWidth::Wide {
                        2int
                    } else {
                        1
                    }
                    &&& cursor.color.rgba == painted(fg, palette).rgba
                    &&& cursor.color.opacity == painted(fg, palette).opacity as int * 72 / 100
                    &&& cursor.visible == !selected_at(state, row as int, start)
                    &&& cursor.shape == state.cursor_shape
                },
                None => false,
            }
        }),
{
    let line = state.line(row as int);
    assert(line[col as int] == state.lines@[row as int]@[col as int]);
    if col > 0 {
        assert(line[col - 1] == state.lines@[row as int]@[col - 1]);
    }
    let style = line[if line[col as int].width == CellWidth::Spacer && col > 0 {
        col - 1
    } else {
        col as int
    }].style;
    let fg = if style.flags.inverse {
        style.bg
    } else {
        style.fg
    };
    let kept = painted(fg, palette).opacity as int;
    assert(0 <= kept * 72 / 100 <= kept) by (nonlinear_arith)
        requires
            0 <= kept,
    ;
}

/// There is no cursor where the program shows none, or where it stands outside the grid.
pub proof fn law_no_cursor_outside_the_grid(state: &TerminalModel, palette: PaletteModel)
    requires
        match state.cursor {
            None => true,
            Some((row, col)) => row >= state.lines@.len() || col >= state.cols || col
                >= state.lines@[row as int]@.len(),
        },
    ensures
        cursor_paint(state, palette) is None,
{
}

/// In a frame the cursor is there exactly as long as nothing is composed over it and, if it
/// blinks, in the lit half of its beat.
pub proof fn law_a_cursor_blinks_and_yields_to_composed_text(
    state: &TerminalModel,
    palette: PaletteModel,
    inputs: FrameInputs,
)
    requires
        cursor_paint(state, palette) is Some,
    ensures
        ({
            let cursor = cursor_paint(state, palette)->0;
            match frame_cursor(state, palette, inputs) {
                Some(shown) => {
                    &&& shown.visible == (cursor.visible && inputs.marked_text is None && (
                    !state.cursor_blinking || inputs.blink_phase))
                    &&& shown.focused == inputs.focused
                    &&& (shown.row, shown.start_col, shown.cell_count) == (
                        cursor.row,
                        cursor.start_col,
                        cursor.cell_count,
                    )
                    &&& shown.color == cursor.color && shown.shape == cursor.shape
                },
                None => false,
            }
        }),
{
}

/// A grid paints what its rows paint, and nothing else.
pub proof fn law_a_grid_paints_its_rows(rows: Seq<RowModel>)
    ensures
        forall|run: RunModel| #[trigger]
            stacked(rows).text_runs.contains(run) <==> exists|r: int|
                0 <= r < rows.len() && (#[trigger] rows[r]).text_runs.contains(run),
        forall|rect: RectModel| #[trigger]
            stacked(rows).backgrounds.contains(rect) <==> exists|r: int|
                0 <= r < rows.len() && (#[trigger] rows[r]).backgrounds.contains(rect),
        forall|rect: RectModel| #[trigger]
            stacked(rows).selections.contains(rect) <==> exists|r: int|
                0 <= r < rows.len() && (#[trigger] rows[r]).selections.contains(rect),
    decreases rows.len(),
{
    if rows.len() > 0 {
        let init = rows.drop_last();
        let last = rows.len() - 1;
        law_a_grid_paints_its_rows(init);
        assert(rows.last() == rows[last]);
        assert forall|run: RunModel| #[trigger]
            stacked(rows).text_runs.contains(run) <==> exists|r: int|
            0 <= r < rows.len() && (#[trigger] rows[r]).text_runs.contains(run) by {
            lemma_either(stacked(init).text_runs, rows[last].text_runs, run);
            if stacked(init).text_runs.contains(run) {
                let r = choose|r: int|
                    0 <= r < init.len() && (#[trigger] init[r]).text_runs.contains(run);
                assert(rows[r].text_runs.contains(run));
            }
            if exists|r: int| 0 <= r < rows.len() && (#[trigger] rows[r]).text_runs.contains(run) {
                let r = choose|r: int|
                    0 <= r < rows.len() && (#[trigger] rows[r]).text_runs.contains(run);
                if r < last {
                    assert(init[r].text_runs.contains(run));
                }
            }
        }
        assert forall|rect: RectModel| #[trigger]
            stacked(rows).backgrounds.contains(rect) <==> exists|r: int|
            0 <= r < rows.len() && (#[trigger] rows[r]).backgrounds.contains(rect) by {
            lemma_either(stacked(init).backgrounds, rows[last].backgrounds, rect);
            if stacked(init).backgrounds.contains(rect) {
                let r = choose|r: int|
                    0 <= r < init.len() && (#[trigger] init[r]).backgrounds.contains(rect);
                assert(rows[r].backgrounds.contains(rect));
            }
            if exists|r: int|
                0 <= r < rows.len() && (#[trigger] rows[r]).backgrounds.contains(rect) {
                let r = choose|r: int|
                    0 <= r < rows.len() && (#[trigger] rows[r]).backgrounds.contains(rect);
                if r < last {
                    assert(init[r].backgrounds.contains(rect));
                }
            }
        }
        assert forall|rect: RectModel| #[trigger]
            stacked(rows).selections.contains(rect) <==> exists|r: int|
            0 <= r < rows.len() && (#[trigger] rows[r]).selections.contains(rect) by {
            lemma_either(stacked(init).selections, rows[last].selections, rect);
            if stacked(init).selections.contains(rect) {
                let r = choose|r: int|
                    0 <= r < init.len() && (#[trigger] init[r]).selections.contains(rect);
                assert(rows[r].selections.contains(rect));
            }
            if exists|r: int|
                0 <= r < rows.len() && (#[trigger] rows[r]).selections.contains(rect) {
                let r = choose|r: int|
                    0 <= r < rows.len() && (#[trigger] rows[r]).selections.contains(rect);
                if r < last {
                    assert(init[r].selections.contains(rect));
                }
            }
        }
    }
}

proof fn lemma_either<T>(a: Seq<T>, b: Seq<T>, x: T)
    ensures
        (a + b).contains(x) <==> a.contains(x) || b.contains(x),
{
    if a.contains(x) {
        let i = choose|i: int| 0 <= i < a.len() && a[i] == x;
        assert((a + b)[i] == x);
    }
    if b.contains(x) {
        let i = choose|i: int| 0 <= i < b.len() && b[i] == x;
        assert((a + b)[a.len() + i] == x);
    }
    if (a + b).contains(x) {
        let i = choose|i: int| 0 <= i < (a + b).len() && (a + b)[i] == x;
        if i < a.len() {
            assert(a[i] == x);
        } else {
            assert(b[i - a.len()] == x);
        }
    }
}

} // verus!
