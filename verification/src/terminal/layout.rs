//! How a terminal's grid is painted: batched text, background and selection
//! rectangles, and the cursor. Rows that did not change are painted from what
//! was laid out before.
use crate::terminal::model::{
    CellFlags, CellWidth, CursorShape, HyperlinkMatch, TerminalCell, TerminalColor, TerminalModel,
};
use crate::theme::color::{rgb, Color};
use vstd::prelude::*;
use vstd::string::StringExecFns;

verus! {

/// How opaque a cursor is painted, in percent.
pub const CURSOR_OPACITY: u8 = 72;

/// The colours of a terminal.
#[derive(Debug, Clone, Copy)]
pub struct TerminalPalette {
    pub foreground: Color,
    pub background: Color,
    pub selection: Color,
    pub cursor: Color,
    pub ansi: [Color; 16],
}

#[verifier::ext_equal]
pub struct PaletteModel {
    pub foreground: Color,
    pub background: Color,
    pub selection: Color,
    pub cursor: Color,
    pub ansi: Seq<Color>,
}

impl View for TerminalPalette {
    type V = PaletteModel;

    open spec fn view(&self) -> PaletteModel {
        PaletteModel {
            foreground: self.foreground,
            background: self.background,
            selection: self.selection,
            cursor: self.cursor,
            ansi: self.ansi@,
        }
    }
}

pub(crate) fn same_palette(a: &TerminalPalette, b: &TerminalPalette) -> (same: bool)
    ensures
        same == (a@ == b@),
{
    if a.foreground != b.foreground || a.background != b.background || a.selection != b.selection
        || a.cursor != b.cursor {
        return false;
    }
    let mut i: usize = 0;
    while i < 16
        invariant
            i <= 16,
            forall|j: int| 0 <= j < i ==> a.ansi@[j] == b.ansi@[j],
        decreases 16 - i,
    {
        if a.ansi[i] != b.ansi[i] {
            assert(a@.ansi[i as int] != b@.ansi[i as int]);
            return false;
        }
        i += 1;
    }
    assert(a@.ansi =~= b@.ansi);
    true
}

/// A step of the colour cube of 256-colour terminals.
pub open spec fn cube_channel(v: nat) -> nat {
    if v == 0 {
        0
    } else {
        55 + 40 * v
    }
}

pub open spec fn channels(r: nat, g: nat, b: nat) -> Color {
    Color::solid(r * 0x100_0000 + g * 0x1_0000 + b * 0x100 + 0xff)
}

/// The colour that a terminal's name for it stands for: the sixteen named
/// colours, a cube of six steps each way, and twenty-four greys.
pub open spec fn painted(color: TerminalColor, palette: PaletteModel) -> Color {
    match color {
        TerminalColor::Foreground => palette.foreground,
        TerminalColor::Background => palette.background,
        TerminalColor::Cursor => palette.cursor,
        TerminalColor::Rgb { r, g, b } => channels(r as nat, g as nat, b as nat),
        TerminalColor::Indexed(index) => if index < 16 {
            palette.ansi[index as int]
        } else if index < 232 {
            let n = (index - 16) as nat;
            channels(cube_channel(n / 36), cube_channel(n % 36 / 6), cube_channel(n % 6))
        } else {
            let gray = (8 + 10 * (index - 232)) as nat;
            channels(gray, gray, gray)
        },
    }
}

fn component(v: u8) -> (level: u32)
    requires
        v < 6,
    ensures
        level == cube_channel(v as nat),
        level <= 255,
{
    if v == 0 {
        0
    } else {
        55 + 40 * (v as u32)
    }
}

pub fn terminal_color(color: TerminalColor, palette: &TerminalPalette) -> (paint: Color)
    ensures
        paint == painted(color, palette@),
{
    match color {
        TerminalColor::Foreground => palette.foreground,
        TerminalColor::Background => palette.background,
        TerminalColor::Cursor => palette.cursor,
        TerminalColor::Rgb { r, g, b } => rgb(
            (r as u32) * 0x1_0000 + (g as u32) * 0x100 + (b as u32),
        ),
        TerminalColor::Indexed(index) => {
            if index < 16 {
                palette.ansi[index as usize]
            } else if index < 232 {
                let n: u8 = index - 16;
                let r: u32 = component(n / 36);
                let g: u32 = component(n % 36 / 6);
                let b: u32 = component(n % 6);
                rgb(r * 0x1_0000 + g * 0x100 + b)
            } else {
                let gray: u32 = 8 + 10 * ((index - 232) as u32);
                rgb(gray * 0x1_0000 + gray * 0x100 + gray)
            }
        },
    }
}

/// How a run of text is drawn.
#[derive(Debug, Clone, Copy, PartialEq, Eq, Structural)]
pub struct GridTextStyle {
    pub fg: TerminalColor,
    pub bg: TerminalColor,
    pub bold: bool,
    pub italic: bool,
    pub underline: bool,
    pub underline_wavy: bool,
    pub selected: bool,
    pub cursor: bool,
}

/// Text of one style in adjacent columns of a row.
#[derive(Debug)]
pub struct BatchedTextRun {
    pub row: usize,
    pub start_col: usize,
    pub text: String,
    /// The number of grid cells, the second columns of wide ones aside.
    pub cell_count: usize,
    pub style: GridTextStyle,
}

#[verifier::ext_equal]
pub struct RunModel {
    pub row: int,
    pub start_col: int,
    pub text: Seq<char>,
    pub cell_count: int,
    pub style: GridTextStyle,
}

impl View for BatchedTextRun {
    type V = RunModel;

    open spec fn view(&self) -> RunModel {
        RunModel {
            row: self.row as int,
            start_col: self.start_col as int,
            text: self.text@,
            cell_count: self.cell_count as int,
            style: self.style,
        }
    }
}

impl Clone for BatchedTextRun {
    fn clone(&self) -> (copy: Self)
        ensures
            copy == *self,
    {
        BatchedTextRun {
            row: self.row,
            start_col: self.start_col,
            text: self.text.clone(),
            cell_count: self.cell_count,
            style: self.style,
        }
    }
}

/// Adjacent columns of a row filled with one colour.
#[derive(Debug, Clone, Copy, PartialEq, Eq, Structural)]
pub struct BackgroundRect {
    pub row: usize,
    pub start_col: usize,
    pub cell_count: usize,
    pub color: Color,
}

#[verifier::ext_equal]
pub struct RectModel {
    pub row: int,
    pub start_col: int,
    pub cell_count: int,
    pub color: Color,
}

impl View for BackgroundRect {
    type V = RectModel;

    open spec fn view(&self) -> RectModel {
        RectModel {
            row: self.row as int,
            start_col: self.start_col as int,
            cell_count: self.cell_count as int,
            color: self.color,
        }
    }
}

/// Where and how the cursor is painted.
#[derive(Debug, Clone, Copy, PartialEq, Eq, Structural)]
pub struct CursorPaint {
    pub row: usize,
    pub start_col: usize,
    pub cell_count: usize,
    pub color: Color,
    pub visible: bool,
    pub shape: CursorShape,
    pub focused: bool,
}

/// What one row paints.
#[derive(Debug)]
pub struct RowPaintData {
    pub text_runs: Vec<BatchedTextRun>,
    pub backgrounds: Vec<BackgroundRect>,
    pub selections: Vec<BackgroundRect>,
}

/// What a row, or a number of rows, paints.
#[verifier::ext_equal]
pub struct RowModel {
    pub text_runs: Seq<RunModel>,
    pub backgrounds: Seq<RectModel>,
    pub selections: Seq<RectModel>,
}

pub open spec fn runs_model(runs: Seq<BatchedTextRun>) -> Seq<RunModel> {
    Seq::new(runs.len(), |i: int| runs[i]@)
}

pub open spec fn rects_model(rects: Seq<BackgroundRect>) -> Seq<RectModel> {
    Seq::new(rects.len(), |i: int| rects[i]@)
}

impl View for RowPaintData {
    type V = RowModel;

    open spec fn view(&self) -> RowModel {
        RowModel {
            text_runs: runs_model(self.text_runs@),
            backgrounds: rects_model(self.backgrounds@),
            selections: rects_model(self.selections@),
        }
    }
}

/// What a grid paints.
#[derive(Debug)]
pub struct GridPaintData {
    pub text_runs: Vec<BatchedTextRun>,
    pub backgrounds: Vec<BackgroundRect>,
    pub selections: Vec<BackgroundRect>,
    pub cursor: Option<CursorPaint>,
}

impl GridPaintData {
    pub open spec fn model(&self) -> RowModel {
        RowModel {
            text_runs: runs_model(self.text_runs@),
            backgrounds: rects_model(self.backgrounds@),
            selections: rects_model(self.selections@),
        }
    }
}

/// Whether a place comes no later than another, row by row.
pub open spec fn no_later(a: (int, int), b: (int, int)) -> bool {
    a.0 < b.0 || (a.0 == b.0 && a.1 <= b.1)
}

/// All that decides how a row's cells are painted, the cells and the palette
/// aside.
#[verifier::ext_equal]
pub struct RowFacts {
    /// The selected columns, first and last.
    pub selection: Option<(int, int)>,
    /// The link under the pointer, where it touches the row.
    pub link: Option<((int, int), (int, int))>,
    /// The column in which a block cursor inverts the text.
    pub block: Option<int>,
}

pub open spec fn in_span(span: Option<(int, int)>, col: int) -> bool {
    match span {
        Some(s) => s.0 <= col <= s.1,
        None => false,
    }
}

pub open spec fn under_link(link: Option<((int, int), (int, int))>, row: int, col: int) -> bool {
    match link {
        Some(l) => no_later(l.0, (row, col)) && no_later((row, col), l.1),
        None => false,
    }
}

/// A cell's colours, exchanged where it is inverse.
pub open spec fn shown_colors(fg: TerminalColor, bg: TerminalColor, flags: CellFlags) -> (
    TerminalColor,
    TerminalColor,
) {
    if flags.inverse {
        (bg, fg)
    } else {
        (fg, bg)
    }
}

pub fn cell_colors(foreground: TerminalColor, background: TerminalColor, flags: CellFlags) -> (
    colors: (TerminalColor, TerminalColor))
    ensures
        colors == shown_colors(foreground, background, flags),
{
    if flags.inverse {
        (background, foreground)
    } else {
        (foreground, background)
    }
}

pub open spec fn underlined(flags: CellFlags) -> bool {
    flags.underline || flags.undercurl
}

pub open spec fn look(cell: TerminalCell, row: int, col: int, facts: RowFacts) -> GridTextStyle {
    let colors = shown_colors(cell.style.fg, cell.style.bg, cell.style.flags);
    GridTextStyle {
        fg: colors.0,
        bg: colors.1,
        bold: cell.style.flags.bold,
        italic: cell.style.flags.italic,
        underline: underlined(cell.style.flags) || under_link(facts.link, row, col),
        underline_wavy: cell.style.flags.undercurl,
        selected: in_span(facts.selection, col),
        cursor: facts.block == Some(col) && !in_span(facts.selection, col),
    }
}

/// Whether the last character before a column, spacers aside, has marks that
/// modify it: a blank behind such a character is its placeholder.
pub open spec fn modified_before(line: Seq<TerminalCell>, col: int) -> bool
    decreases col,
{
    if col <= 0 {
        false
    } else if line[col - 1].width == CellWidth::Spacer {
        modified_before(line, col - 1)
    } else {
        line[col - 1].text@.len() > 1
    }
}

#[verifier::ext_equal]
pub struct GlyphModel {
    pub text: Seq<char>,
    pub style: GridTextStyle,
}

/// What a cell adds to the text of its row: nothing for the second column of a
/// wide character, nor for a blank that is a placeholder or has no line under it.
pub open spec fn glyph(line: Seq<TerminalCell>, row: int, col: int, facts: RowFacts) -> Option<
    GlyphModel,
> {
    let cell = line[col];
    if cell.width == CellWidth::Spacer {
        None
    } else if cell.text@.len() == 0 {
        if modified_before(line, col) || !underlined(cell.style.flags) {
            None
        } else {
            Some(GlyphModel { text: seq![' '], style: look(cell, row, col, facts) })
        }
    } else {
        Some(GlyphModel { text: cell.text@, style: look(cell, row, col, facts) })
    }
}

/// Whether text of a style in a column continues the last of the runs.
pub open spec fn continues(runs: Seq<RunModel>, row: int, col: int, style: GridTextStyle) -> bool {
    runs.len() > 0 && runs.last().row == row && runs.last().start_col + runs.last().cell_count
        == col && runs.last().style == style
}

pub open spec fn with_glyph(runs: Seq<RunModel>, row: int, col: int, glyph: GlyphModel) -> Seq<
    RunModel,
> {
    if continues(runs, row, col, glyph.style) {
        let last = runs.last();
        runs.drop_last().push(
            RunModel { text: last.text + glyph.text, cell_count: last.cell_count + 1, ..last },
        )
    } else {
        runs.push(
            RunModel { row, start_col: col, text: glyph.text, cell_count: 1, style: glyph.style },
        )
    }
}

/// The text of a row's first `n` columns, batched.
pub open spec fn row_runs(line: Seq<TerminalCell>, row: int, facts: RowFacts, n: int) -> Seq<
    RunModel,
>
    decreases n,
{
    if n <= 0 {
        Seq::empty()
    } else {
        let before = row_runs(line, row, facts, n - 1);
        match glyph(line, row, n - 1, facts) {
            Some(g) => with_glyph(before, row, n - 1, g),
            None => before,
        }
    }
}

pub open spec fn with_cell(rects: Seq<RectModel>, row: int, col: int, color: Color) -> Seq<
    RectModel,
> {
    if rects.len() > 0 && rects.last().row == row && rects.last().start_col
        + rects.last().cell_count == col && rects.last().color == color {
        let last = rects.last();
        rects.drop_last().push(RectModel { cell_count: last.cell_count + 1, ..last })
    } else {
        rects.push(RectModel { row, start_col: col, cell_count: 1, color })
    }
}

/// The rectangles that fill each column with its colour, where it has one.
pub open spec fn filled(tints: Seq<Option<Color>>, row: int) -> Seq<RectModel>
    decreases tints.len(),
{
    if tints.len() == 0 {
        Seq::empty()
    } else {
        let before = filled(tints.drop_last(), row);
        match tints.last() {
            Some(color) => with_cell(before, row, tints.len() - 1, color),
            None => before,
        }
    }
}

/// The background of a cell; the terminal's own is not painted.
pub open spec fn tint(cell: TerminalCell, palette: PaletteModel) -> Option<Color> {
    let bg = shown_colors(cell.style.fg, cell.style.bg, cell.style.flags).1;
    if bg == TerminalColor::Background {
        None
    } else {
        Some(painted(bg, palette))
    }
}

pub open spec fn tints(line: Seq<TerminalCell>, palette: PaletteModel) -> Seq<Option<Color>> {
    Seq::new(line.len(), |col: int| tint(line[col], palette))
}

pub open spec fn selection_tints(len: nat, palette: PaletteModel, facts: RowFacts) -> Seq<
    Option<Color>,
> {
    Seq::new(
        len,
        |col: int|
            if in_span(facts.selection, col) {
                Some(palette.selection)
            } else {
                None
            },
    )
}

/// What a row paints.
pub open spec fn row_paint(
    line: Seq<TerminalCell>,
    row: int,
    palette: PaletteModel,
    facts: RowFacts,
) -> RowModel {
    RowModel {
        text_runs: row_runs(line, row, facts, line.len() as int),
        backgrounds: filled(tints(line, palette), row),
        selections: filled(selection_tints(line.len(), palette, facts), row),
    }
}

/// A row's selected columns, within the grid.
pub open spec fn selected_span(state: &TerminalModel, row: int) -> Option<(int, int)> {
    if 0 <= row < state.selection@.len() {
        match state.selection@[row] {
            Some(span) => if span.0 <= span.1 && span.0 < state.cols {
                Some(
                    (
                        span.0 as int,
                        if span.1 < state.cols {
                            span.1 as int
                        } else {
                            state.cols - 1
                        },
                    ),
                )
            } else {
                None
            },
            None => None,
        }
    } else {
        None
    }
}

pub open spec fn place(at: (usize, usize)) -> (int, int) {
    (at.0 as int, at.1 as int)
}

pub open spec fn touching(link: Option<&HyperlinkMatch>, row: int) -> Option<
    ((int, int), (int, int)),
> {
    match link {
        Some(l) => if l.start.0 <= row <= l.end.0 {
            Some((place(l.start), place(l.end)))
        } else {
            None
        },
        None => None,
    }
}

pub open spec fn cursor_shows(state: &TerminalModel, composing: bool, blink_phase: bool) -> bool {
    !composing && (!state.cursor_blinking || blink_phase)
}

pub open spec fn block_column(
    state: &TerminalModel,
    row: int,
    composing: bool,
    focused: bool,
    blink_phase: bool,
    cursor_cell: Option<(usize, usize)>,
) -> Option<int> {
    match cursor_cell {
        Some(at) => if at.0 == row && focused && state.cursor_shape == CursorShape::Block
            && cursor_shows(state, composing, blink_phase) {
            Some(at.1 as int)
        } else {
            None
        },
        None => None,
    }
}

pub open spec fn row_facts(
    state: &TerminalModel,
    row: int,
    composing: bool,
    link: Option<&HyperlinkMatch>,
    focused: bool,
    blink_phase: bool,
    cursor_cell: Option<(usize, usize)>,
) -> RowFacts {
    RowFacts {
        selection: selected_span(state, row),
        link: touching(link, row),
        block: block_column(state, row, composing, focused, blink_phase, cursor_cell),
    }
}

/// Whether rectangles end before a column.
pub open spec fn within(rects: Seq<BackgroundRect>, col: int) -> bool {
    forall|i: int|
        0 <= i < rects.len() ==> (#[trigger] rects[i]).start_col + rects[i].cell_count <= col
}

/// Fill one more cell, widening the last rectangle where the cell continues it.
pub fn push_background(backgrounds: &mut Vec<BackgroundRect>, row: usize, col: usize, color: Color)
    requires
        within(old(backgrounds)@, usize::MAX as int),
        col < usize::MAX,
    ensures
        rects_model(final(backgrounds)@) == with_cell(
            rects_model(old(backgrounds)@),
            row as int,
            col as int,
            color,
        ),
        within(old(backgrounds)@, col as int) ==> within(final(backgrounds)@, col + 1),
{
    let ghost before = backgrounds@;
    let len: usize = backgrounds.len();
    if len > 0 {
        let previous = backgrounds[len - 1];
        if previous.row == row && previous.start_col + previous.cell_count == col && previous.color
            == color {
            let wider = BackgroundRect { cell_count: previous.cell_count + 1, ..previous };
            backgrounds.set(len - 1, wider);
            assert(rects_model(before).last() == previous@);
            assert(rects_model(backgrounds@) =~= rects_model(before).drop_last().push(wider@));
            return;
        }
        assert(rects_model(before).last() == previous@);
    }
    let rect = BackgroundRect { row, start_col: col, cell_count: 1, color };
    backgrounds.push(rect);
    assert(rects_model(backgrounds@) =~= rects_model(before).push(rect@));
}

/// Add a cell's text, lengthening the last run where the cell continues it.
fn push_glyph(
    runs: &mut Vec<BatchedTextRun>,
    row: usize,
    col: usize,
    text: String,
    style: GridTextStyle,
)
    requires
        forall|i: int|
            0 <= i < old(runs)@.len() ==> (#[trigger] old(runs)@[i]).start_col
                + old(runs)@[i].cell_count <= col,
        col < usize::MAX,
    ensures
        runs_model(final(runs)@) == with_glyph(
            runs_model(old(runs)@),
            row as int,
            col as int,
            GlyphModel { text: text@, style },
        ),
        forall|i: int|
            0 <= i < final(runs)@.len() ==> (#[trigger] final(runs)@[i]).start_col
                + final(runs)@[i].cell_count <= col + 1,
{
    let ghost before = runs@;
    let len: usize = runs.len();
    if len > 0 {
        assert(runs_model(before).last() == before[len - 1]@);
        if runs[len - 1].row == row && runs[len - 1].start_col + runs[len - 1].cell_count == col
            && runs[len - 1].style == style {
            match runs.pop() {
                Some(last) => {
                    let mut longer = last.text;
                    longer.append(text.as_str());
                    let run = BatchedTextRun {
                        row: last.row,
                        start_col: last.start_col,
                        text: longer,
                        cell_count: last.cell_count + 1,
                        style: last.style,
                    };
                    runs.push(run);
                    assert(runs_model(runs@) =~= runs_model(before).drop_last().push(run@));
                },
                None => {},
            }
            return;
        }
    }
    let run = BatchedTextRun { row, start_col: col, text, cell_count: 1, style };
    runs.push(run);
    assert(runs_model(runs@) =~= runs_model(before).push(run@));
}

/// Whether a text has more than one character.
fn has_extras(text: &String) -> (extras: bool)
    ensures
        extras == (text@.len() > 1),
{
    text.as_str().unicode_len() > 1
}

/// The characters of a text that is not to be empty.
fn glyph_text(text: &String) -> (shown: String)
    ensures
        shown@ == if text@.len() == 0 {
            seq![' ']
        } else {
            text@
        },
{
    if text.as_str().unicode_len() == 0 {
        let mut blank = String::new();
        blank.push(' ');
        assert(blank@ =~= seq![' ']);
        blank
    } else {
        text.clone()
    }
}

proof fn lemma_span(state: &TerminalModel, row: int, col: int)
    requires
        0 <= col < state.cols,
    ensures
        in_span(selected_span(state, row), col) == state.selects(row, col),
{
}

/// Lay one row out.
pub fn layout_row(
    state: &TerminalModel,
    row: usize,
    palette: &TerminalPalette,
    composing: bool,
    hovered_link: Option<&HyperlinkMatch>,
    focused: bool,
    blink_phase: bool,
    cursor_cell: Option<(usize, usize)>,
) -> (paint: RowPaintData)
    ensures
        paint@ == row_paint(
            state.line(row as int),
            row as int,
            palette@,
            row_facts(
                state,
                row as int,
                composing,
                hovered_link,
                focused,
                blink_phase,
                cursor_cell,
            ),
        ),
{
    let ghost line = state.line(row as int);
    let ghost facts = row_facts(
        state,
        row as int,
        composing,
        hovered_link,
        focused,
        blink_phase,
        cursor_cell,
    );
    let ghost all = tints(line, palette@);
    let ghost chosen = selection_tints(line.len(), palette@, facts);
    let mut text_runs: Vec<BatchedTextRun> = Vec::new();
    let mut backgrounds: Vec<BackgroundRect> = Vec::new();
    let mut selections: Vec<BackgroundRect> = Vec::new();
    let mut previous_cell_had_extras = false;
    let mut col: usize = 0;
    proof {
        assert(all.take(0) =~= Seq::<Option<Color>>::empty());
        assert(chosen.take(0) =~= Seq::<Option<Color>>::empty());
        assert(runs_model(text_runs@) =~= Seq::<RunModel>::empty());
        assert(rects_model(backgrounds@) =~= Seq::<RectModel>::empty());
        assert(rects_model(selections@) =~= Seq::<RectModel>::empty());
    }
    while col < state.cols && state.cell(row, col).is_some()
        invariant
            line == state.line(row as int),
            facts == row_facts(
                state,
                row as int,
                composing,
                hovered_link,
                focused,
                blink_phase,
                cursor_cell,
            ),
            all == tints(line, palette@),
            chosen == selection_tints(line.len(), palette@, facts),
            col <= line.len() <= state.cols,
            previous_cell_had_extras == modified_before(line, col as int),
            runs_model(text_runs@) == row_runs(line, row as int, facts, col as int),
            rects_model(backgrounds@) == filled(all.take(col as int), row as int),
            rects_model(selections@) == filled(chosen.take(col as int), row as int),
            forall|i: int|
                0 <= i < text_runs@.len() ==> (#[trigger] text_runs@[i]).start_col
                    + text_runs@[i].cell_count <= col,
            within(backgrounds@, col as int),
            within(selections@, col as int),
        decreases state.cols - col,
    {
        let ghost done = col as int;
        proof {
            assert(all.take(done + 1).drop_last() =~= all.take(done));
            assert(chosen.take(done + 1).drop_last() =~= chosen.take(done));
            assert(all.take(done + 1).last() == all[done]);
            assert(chosen.take(done + 1).last() == chosen[done]);
            lemma_span(state, row as int, done);
        }
        if let Some(cell) = state.cell(row, col) {
            let flags = cell.style.flags;
            let selected = state.is_selected(row, col);
            let (fg, bg) = cell_colors(cell.style.fg, cell.style.bg, flags);
            if bg != TerminalColor::Background {
                push_background(&mut backgrounds, row, col, terminal_color(bg, palette));
            }
            if selected {
                push_background(&mut selections, row, col, palette.selection);
            }
            if cell.width != CellWidth::Spacer {
                let blank = cell.text.as_str().unicode_len() == 0;
                let placeholder = blank && previous_cell_had_extras;
                let underline = flags.underline || flags.undercurl;
                if !placeholder && !(blank && !underline) {
                    let cursor_here = match cursor_cell {
                        Some(at) => at.0 == row && at.1 == col,
                        None => false,
                    };
                    let cursor_visible = !composing && !selected && cursor_here && focused
                        && state.cursor_shape == CursorShape::Block && (!state.cursor_blinking
                        || blink_phase);
                    let hyperlink_hovered = match hovered_link {
                        Some(link) => (link.start.0 < row || (link.start.0 == row && link.start.1
                            <= col)) && (row < link.end.0 || (row == link.end.0 && col
                            <= link.end.1)),
                        None => false,
                    };
                    let style = GridTextStyle {
                        fg,
                        bg,
                        bold: flags.bold,
                        italic: flags.italic,
                        underline: underline || hyperlink_hovered,
                        underline_wavy: flags.undercurl,
                        selected,
                        cursor: cursor_visible,
                    };
                    assert(style == look(*cell, row as int, done, facts));
                    push_glyph(&mut text_runs, row, col, glyph_text(&cell.text), style);
                }
                previous_cell_had_extras = has_extras(&cell.text);
            }
        }
        col += 1;
    }
    proof {
        assert(all.take(line.len() as int) =~= all);
        assert(chosen.take(line.len() as int) =~= chosen);
    }
    RowPaintData { text_runs, backgrounds, selections }
}

/// The cursor of a grid in which nothing but the selection hides it.
pub open spec fn cursor_paint(state: &TerminalModel, palette: PaletteModel) -> Option<CursorPaint> {
    match state.cursor {
        None => None,
        Some(at) => match state.spec_cell(at.0 as int, at.1 as int) {
            None => None,
            Some(cell) => {
                // A cursor on the second column of a wide character covers both.
                let start: usize = if cell.width == CellWidth::Spacer && at.1 > 0 {
                    (at.1 - 1) as usize
                } else {
                    at.1
                };
                let style = state.line(at.0 as int)[start as int].style;
                Some(
                    CursorPaint {
                        row: at.0,
                        start_col: start,
                        cell_count: if start < at.1 || cell.width == CellWidth::Wide {
                            2
                        } else {
                            1
                        },
                        color: painted(
                            shown_colors(style.fg, style.bg, style.flags).0,
                            palette,
                        ).faded(CURSOR_OPACITY as nat),
                        visible: !state.selects(at.0 as int, start as int),
                        shape: state.cursor_shape,
                        focused: true,
                    },
                )
            },
        },
    }
}

pub fn layout_cursor(state: &TerminalModel, palette: &TerminalPalette) -> (cursor: Option<
    CursorPaint,
>)
    ensures
        cursor == cursor_paint(state, palette@),
{
    let (row, col) = match state.cursor {
        Some(at) => at,
        None => {
            return None;
        },
    };
    let width = match state.cell(row, col) {
        Some(cell) => cell.width,
        None => {
            return None;
        },
    };
    let on_spacer = width == CellWidth::Spacer && col > 0;
    let start_col: usize = if on_spacer {
        col - 1
    } else {
        col
    };
    let cell_count: usize = if on_spacer || width == CellWidth::Wide {
        2
    } else {
        1
    };
    match state.cell(row, start_col) {
        Some(cell) => {
            let (fg, _) = cell_colors(cell.style.fg, cell.style.bg, cell.style.flags);
            Some(
                CursorPaint {
                    row,
                    start_col,
                    cell_count,
                    color: terminal_color(fg, palette).opacity(CURSOR_OPACITY),
                    visible: !state.is_selected(row, start_col),
                    shape: state.cursor_shape,
                    focused: true,
                },
            )
        },
        None => None,
    }
}

} // verus!
