//! What holds of every row's painting.
use crate::terminal::layout::{
    filled, glyph, row_paint, row_runs, selection_tints, tint, tints, with_cell, with_glyph,
    PaletteModel, RectModel, RowFacts, RunModel,
};
use crate::terminal::model::TerminalCell;
use crate::theme::color::Color;
use vstd::prelude::*;

verus! {

pub open spec fn covers(rect: RectModel, row: int, col: int) -> bool {
    rect.row == row && rect.start_col <= col < rect.start_col + rect.cell_count
}

/// Whether rectangles stand in the order of their columns, apart or of different
/// colours, and end by a column.
pub open spec fn in_order(rects: Seq<RectModel>, row: int, end: int) -> bool {
    &&& forall|i: int|
        0 <= i < rects.len() ==> (#[trigger] rects[i]).row == row && 0 <= rects[i].start_col
            && rects[i].cell_count >= 1 && rects[i].start_col + rects[i].cell_count <= end
    &&& forall|i: int, j: int|
        0 <= i < j < rects.len() ==> (#[trigger] rects[i]).start_col + rects[i].cell_count <= (
        #[trigger] rects[j]).start_col
    &&& forall|i: int, j: int|
        0 <= i && j == i + 1 && j < rects.len() && (#[trigger] rects[i]).start_col
            + rects[i].cell_count == (#[trigger] rects[j]).start_col ==> rects[i].color
            != rects[j].color
}

/// The rectangles of a row fill each coloured column with its colour and no
/// other column; they do not overlap, and none could be wider.
pub proof fn law_rectangles_fill_the_coloured_columns(tints: Seq<Option<Color>>, row: int)
    ensures
        in_order(filled(tints, row), row, tints.len() as int),
        forall|i: int, col: int|
            0 <= i < filled(tints, row).len() && covers(
                #[trigger] filled(tints, row)[i],
                row,
                col,
            ) ==> 0 <= col < tints.len() && #[trigger] tints[col] == Some(
                filled(tints, row)[i].color,
            ),
        forall|col: int|
            0 <= col < tints.len() && (#[trigger] tints[col]) is Some ==> exists|i: int|
                0 <= i < filled(tints, row).len() && covers(
                    #[trigger] filled(tints, row)[i],
                    row,
                    col,
                ),
    decreases tints.len(),
{
    if tints.len() > 0 {
        let shorter = tints.drop_last();
        let before = filled(shorter, row);
        let n = tints.len() - 1;
        law_rectangles_fill_the_coloured_columns(shorter, row);
        assert forall|col: int| 0 <= col < n implies #[trigger] tints[col] == shorter[col] by {}
        let after = filled(tints, row);
        match tints.last() {
            None => {
                assert(after == before);
                assert forall|i: int, col: int|
                    0 <= i < after.len() && covers(#[trigger] after[i], row, col) implies 0 <= col
                    < tints.len() && #[trigger] tints[col] == Some(after[i].color) by {
                    assert(shorter[col] == Some(before[i].color));
                }
                assert forall|col: int|
                    0 <= col < tints.len() && (#[trigger] tints[col]) is Some implies exists|i: int|
                    0 <= i < after.len() && covers(#[trigger] after[i], row, col) by {
                    assert(shorter[col] is Some);
                }
            },
            Some(color) => {
                assert(after == with_cell(before, row, n, color));
                let joined = before.len() > 0 && before.last().row == row
                    && before.last().start_col + before.last().cell_count == n
                    && before.last().color == color;
                let last = after.len() - 1;
                assert forall|i: int, col: int|
                    0 <= i < after.len() && covers(#[trigger] after[i], row, col) implies 0 <= col
                    < tints.len() && #[trigger] tints[col] == Some(after[i].color) by {
                    if i < last {
                        assert(after[i] == before[i]);
                        assert(shorter[col] == Some(before[i].color));
                    } else if joined && col < n {
                        assert(covers(before[last], row, col));
                        assert(shorter[col] == Some(before[last].color));
                    }
                }
                assert forall|col: int|
                    0 <= col < tints.len() && (#[trigger] tints[col]) is Some implies exists|i: int|
                    0 <= i < after.len() && covers(#[trigger] after[i], row, col) by {
                    if col == n {
                        assert(covers(after[last], row, col));
                    } else {
                        assert(shorter[col] is Some);
                        let i = choose|i: int|
                            0 <= i < before.len() && covers(#[trigger] before[i], row, col);
                        assert(covers(after[i], row, col));
                    }
                }
            },
        }
    }
}

/// The characters of a row's cells, in order.
pub open spec fn spelled(line: Seq<TerminalCell>, row: int, facts: RowFacts, n: int) -> Seq<char>
    decreases n,
{
    if n <= 0 {
        Seq::empty()
    } else {
        let before = spelled(line, row, facts, n - 1);
        match glyph(line, row, n - 1, facts) {
            Some(g) => before + g.text,
            None => before,
        }
    }
}

pub open spec fn joined(runs: Seq<RunModel>) -> Seq<char>
    decreases runs.len(),
{
    if runs.len() == 0 {
        Seq::empty()
    } else {
        joined(runs.drop_last()) + runs.last().text
    }
}

/// A row's runs spell what its cells do, in the same order: batching loses no
/// text and moves none.
pub proof fn law_runs_spell_the_row(line: Seq<TerminalCell>, row: int, facts: RowFacts, n: int)
    ensures
        joined(row_runs(line, row, facts, n)) == spelled(line, row, facts, n),
    decreases n,
{
    if n > 0 {
        law_runs_spell_the_row(line, row, facts, n - 1);
        let before = row_runs(line, row, facts, n - 1);
        match glyph(line, row, n - 1, facts) {
            Some(g) => {
                let after = with_glyph(before, row, n - 1, g);
                if after.len() == before.len() {
                    assert(after.drop_last() =~= before.drop_last());
                    assert(joined(after) =~= joined(before) + g.text);
                } else {
                    assert(after.drop_last() =~= before);
                }
            },
            None => {},
        }
    }
}

/// A run lies in adjacent columns whose cells all have its style, and runs that
/// touch differ in style.
pub proof fn law_runs_are_as_long_as_their_style(
    line: Seq<TerminalCell>,
    row: int,
    facts: RowFacts,
    n: int,
)
    requires
        0 <= n <= line.len(),
    ensures
        forall|i: int|
            0 <= i < row_runs(line, row, facts, n).len() ==> {
                let run = #[trigger] row_runs(line, row, facts, n)[i];
                run.row == row && 0 <= run.start_col && run.cell_count >= 1 && run.start_col
                    + run.cell_count <= n
            },
        forall|i: int, col: int|
            0 <= i < row_runs(line, row, facts, n).len() && (#[trigger] row_runs(
                line,
                row,
                facts,
                n,
            )[i]).start_col <= col < row_runs(line, row, facts, n)[i].start_col + row_runs(
                line,
                row,
                facts,
                n,
            )[i].cell_count ==> (match #[trigger] glyph(line, row, col, facts) {
                Some(g) => g.style == row_runs(line, row, facts, n)[i].style,
                None => false,
            }),
        forall|i: int, j: int|
            0 <= i < j < row_runs(line, row, facts, n).len() ==> (#[trigger] row_runs(
                line,
                row,
                facts,
                n,
            )[i]).start_col + row_runs(line, row, facts, n)[i].cell_count <= (
            #[trigger] row_runs(line, row, facts, n)[j]).start_col,
        forall|i: int, j: int|
            0 <= i && j == i + 1 && j < row_runs(line, row, facts, n).len() && (
            #[trigger] row_runs(line, row, facts, n)[i]).start_col + row_runs(
                line,
                row,
                facts,
                n,
            )[i].cell_count == (#[trigger] row_runs(line, row, facts, n)[j]).start_col
                ==> row_runs(line, row, facts, n)[i].style != row_runs(line, row, facts, n)[j].style,
    decreases n,
{
    if n > 0 {
        law_runs_are_as_long_as_their_style(line, row, facts, n - 1);
        let before = row_runs(line, row, facts, n - 1);
        let after = row_runs(line, row, facts, n);
        match glyph(line, row, n - 1, facts) {
            Some(g) => {
                assert(after == with_glyph(before, row, n - 1, g));
                let last = after.len() - 1;
                assert forall|i: int| 0 <= i < last implies #[trigger] after[i] == before[i] by {}
                assert forall|i: int, col: int|
                    0 <= i < after.len() && (#[trigger] after[i]).start_col <= col
                        < after[i].start_col + after[i].cell_count implies (match #[trigger] glyph(
                    line,
                    row,
                    col,
                    facts,
                ) {
                    Some(g) => g.style == after[i].style,
                    None => false,
                }) by {
                    if i < last {
                        assert(before[i].start_col <= col);
                    } else if after.len() == before.len() && col < n - 1 {
                        assert(before[last].start_col <= col);
                    }
                }
            },
            None => {},
        }
    }
}

/// A row of the terminal's own background paints no background, and a row without
/// a selection no selection.
pub proof fn law_a_plain_row_paints_no_rectangle(
    line: Seq<TerminalCell>,
    row: int,
    palette: PaletteModel,
    facts: RowFacts,
)
    ensures
        (forall|col: int| 0 <= col < line.len() ==> tint(#[trigger] line[col], palette) is None)
            ==> row_paint(line, row, palette, facts).backgrounds.len() == 0,
        facts.selection is None ==> row_paint(line, row, palette, facts).selections.len() == 0,
{
    if forall|col: int| 0 <= col < line.len() ==> tint(#[trigger] line[col], palette) is None {
        let all = tints(line, palette);
        law_rectangles_fill_the_coloured_columns(all, row);
        let rects = filled(all, row);
        if rects.len() > 0 {
            assert(covers(rects[0], row, rects[0].start_col));
            assert(all[rects[0].start_col] is Some);
            assert(tint(line[rects[0].start_col], palette) is None);
        }
    }
    if facts.selection is None {
        let all = selection_tints(line.len(), palette, facts);
        law_rectangles_fill_the_coloured_columns(all, row);
        let rects = filled(all, row);
        if rects.len() > 0 {
            assert(covers(rects[0], row, rects[0].start_col));
            assert(all[rects[0].start_col] is Some);
        }
    }
}

} // verus!
