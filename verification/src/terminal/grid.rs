//! A whole grid's layout, and the rows kept from the layout before.
use crate::keyed::KeyedMap;
use crate::terminal::layout::{
    cursor_paint, cursor_shows, layout_cursor, layout_row, place, rects_model, row_facts,
    row_paint, runs_model, same_palette, selected_span, touching, BackgroundRect, BatchedTextRun,
    CursorPaint, GridPaintData, PaletteModel, RowFacts, RowModel, RowPaintData, TerminalPalette,
};
use crate::terminal::model::{CursorShape, HyperlinkMatch, TerminalModel};
use vstd::prelude::*;

verus! {

/// What the cursor adds to the layout of the row it stands on.
#[derive(Debug)]
pub struct CursorRowKey {
    pub position: (usize, usize),
    pub shape: CursorShape,
    pub blinking: bool,
    pub marked_text: Option<String>,
    pub focused: bool,
    pub blink_phase: bool,
}

/// What decides a row's layout, its cells and the palette aside.
#[derive(Debug)]
pub struct RowLayoutKey {
    /// The selected columns of the row, first and last.
    pub selection: Option<(usize, usize)>,
    pub hovered_link: Option<((usize, usize), (usize, usize))>,
    pub cursor: Option<CursorRowKey>,
}

#[verifier::ext_equal]
pub struct CursorKeyModel {
    pub position: (usize, usize),
    pub shape: CursorShape,
    pub blinking: bool,
    pub marked_text: Option<Seq<char>>,
    pub focused: bool,
    pub blink_phase: bool,
}

#[verifier::ext_equal]
pub struct RowKeyModel {
    pub selection: Option<(int, int)>,
    pub hovered_link: Option<((int, int), (int, int))>,
    pub cursor: Option<CursorKeyModel>,
}

pub open spec fn text_model(text: Option<String>) -> Option<Seq<char>> {
    match text {
        Some(t) => Some(t@),
        None => None,
    }
}

impl View for CursorRowKey {
    type V = CursorKeyModel;

    open spec fn view(&self) -> CursorKeyModel {
        CursorKeyModel {
            position: self.position,
            shape: self.shape,
            blinking: self.blinking,
            marked_text: text_model(self.marked_text),
            focused: self.focused,
            blink_phase: self.blink_phase,
        }
    }
}

impl View for RowLayoutKey {
    type V = RowKeyModel;

    open spec fn view(&self) -> RowKeyModel {
        RowKeyModel {
            selection: match self.selection {
                Some(s) => Some(place(s)),
                None => None,
            },
            hovered_link: match self.hovered_link {
                Some(l) => Some((place(l.0), place(l.1))),
                None => None,
            },
            cursor: match self.cursor {
                Some(c) => Some(c@),
                None => None,
            },
        }
    }
}

/// The inputs of a layout that change between frames of one grid.
#[derive(Debug, Clone, Copy)]
pub struct FrameInputs<'a> {
    /// The text being composed over the cursor, if any.
    pub marked_text: Option<&'a str>,
    pub hovered_link: Option<&'a HyperlinkMatch>,
    pub focused: bool,
    pub blink_phase: bool,
}

/// The cell that the cursor starts in.
pub open spec fn cursor_cell(cursor: Option<CursorPaint>) -> Option<(usize, usize)> {
    match cursor {
        Some(c) => Some((c.row, c.start_col)),
        None => None,
    }
}

/// The key of a row.
pub open spec fn row_key(
    state: &TerminalModel,
    row: int,
    cursor: Option<(usize, usize)>,
    inputs: FrameInputs,
) -> RowKeyModel {
    RowKeyModel {
        selection: selected_span(state, row),
        hovered_link: touching(inputs.hovered_link, row),
        cursor: match cursor {
            Some(at) => if at.0 == row {
                Some(
                    CursorKeyModel {
                        position: at,
                        shape: state.cursor_shape,
                        blinking: state.cursor_blinking,
                        marked_text: match inputs.marked_text {
                            Some(t) => Some(t@),
                            None => None,
                        },
                        focused: inputs.focused,
                        blink_phase: inputs.blink_phase,
                    },
                )
            } else {
                None
            },
            None => None,
        },
    }
}

pub fn row_layout_key(
    state: &TerminalModel,
    row: usize,
    cursor_cell: Option<(usize, usize)>,
    inputs: FrameInputs,
) -> (key: RowLayoutKey)
    ensures
        key@ == row_key(state, row as int, cursor_cell, inputs),
{
    let mut selection: Option<(usize, usize)> = None;
    let mut col: usize = 0;
    while col < state.cols
        invariant
            col <= state.cols,
            match selection {
                Some(s) => s.0 <= s.1 < col && state.selects(row as int, s.0 as int)
                    && state.selects(row as int, s.1 as int) && (forall|c: int|
                    0 <= c < s.0 || s.1 < c < col ==> !state.selects(row as int, c)),
                None => forall|c: int| 0 <= c < col ==> !state.selects(row as int, c),
            },
        decreases state.cols - col,
    {
        if state.is_selected(row, col) {
            selection = match selection {
                Some(s) => Some((s.0, col)),
                None => Some((col, col)),
            };
        }
        col += 1;
    }
    proof {
        if let Some(s) = selection {
            let span = state.selection@[row as int]->0;
            let last = if span.1 < state.cols {
                span.1 as int
            } else {
                state.cols - 1
            };
            assert(state.selects(row as int, span.0 as int));
            assert(state.selects(row as int, last));
        } else if row < state.selection@.len() && state.selection@[row as int] is Some {
            let span = state.selection@[row as int]->0;
            if span.0 <= span.1 && span.0 < state.cols {
                assert(state.selects(row as int, span.0 as int));
            }
        }
    }
    let hovered_link = match inputs.hovered_link {
        Some(link) => if row >= link.start.0 && row <= link.end.0 {
            Some((link.start, link.end))
        } else {
            None
        },
        None => None,
    };
    let cursor = match cursor_cell {
        Some(position) => if position.0 == row {
            Some(
                CursorRowKey {
                    position,
                    shape: state.cursor_shape,
                    blinking: state.cursor_blinking,
                    marked_text: match inputs.marked_text {
                        Some(text) => Some(text.to_string()),
                        None => None,
                    },
                    focused: inputs.focused,
                    blink_phase: inputs.blink_phase,
                },
            )
        } else {
            None
        },
        None => None,
    };
    RowLayoutKey { selection, hovered_link, cursor }
}

fn same_text(a: &Option<String>, b: &Option<String>) -> (same: bool)
    ensures
        same == (text_model(*a) == text_model(*b)),
{
    match (a, b) {
        (Some(x), Some(y)) => *x == *y,
        (None, None) => true,
        _ => false,
    }
}

fn same_place(a: (usize, usize), b: (usize, usize)) -> (same: bool)
    ensures
        same == (a == b),
        same == (place(a) == place(b)),
{
    a.0 == b.0 && a.1 == b.1
}

/// Whether two keys are equal.
pub fn same_key(a: &RowLayoutKey, b: &RowLayoutKey) -> (same: bool)
    ensures
        same == (a@ == b@),
{
    let selection = match (a.selection, b.selection) {
        (Some(x), Some(y)) => same_place(x, y),
        (None, None) => true,
        _ => false,
    };
    let link = match (a.hovered_link, b.hovered_link) {
        (Some(x), Some(y)) => same_place(x.0, y.0) && same_place(x.1, y.1),
        (None, None) => true,
        _ => false,
    };
    let cursor = match (&a.cursor, &b.cursor) {
        (Some(x), Some(y)) => same_place(x.position, y.position) && x.shape == y.shape && x.blinking
            == y.blinking && same_text(&x.marked_text, &y.marked_text) && x.focused == y.focused
            && x.blink_phase == y.blink_phase,
        (None, None) => true,
        _ => false,
    };
    selection && link && cursor
}

/// What the key says of a row's painting.
pub open spec fn key_facts(key: RowKeyModel) -> RowFacts {
    RowFacts {
        selection: key.selection,
        link: key.hovered_link,
        block: match key.cursor {
            Some(c) => if c.focused && c.shape == CursorShape::Block && c.marked_text is None && (
            !c.blinking || c.blink_phase) {
                Some(c.position.1 as int)
            } else {
                None
            },
            None => None,
        },
    }
}

/// What a frame of a row paints, its rows laid out anew.
pub open spec fn fresh_row(
    state: &TerminalModel,
    row: int,
    palette: PaletteModel,
    inputs: FrameInputs,
) -> RowModel {
    row_paint(
        state.line(row),
        row,
        palette,
        row_facts(
            state,
            row,
            inputs.marked_text is Some,
            inputs.hovered_link,
            inputs.focused,
            inputs.blink_phase,
            cursor_cell(cursor_paint(state, palette)),
        ),
    )
}

/// A row's key holds all that decides its painting: two rows of the same cells
/// and the same key paint alike.
pub proof fn law_the_key_decides_the_row(
    state: &TerminalModel,
    row: int,
    palette: PaletteModel,
    inputs: FrameInputs,
)
    ensures
        fresh_row(state, row, palette, inputs) == row_paint(
            state.line(row),
            row,
            palette,
            key_facts(
                row_key(state, row, cursor_cell(cursor_paint(state, palette)), inputs),
            ),
        ),
{
    let cursor = cursor_cell(cursor_paint(state, palette));
    let facts = row_facts(
        state,
        row,
        inputs.marked_text is Some,
        inputs.hovered_link,
        inputs.focused,
        inputs.blink_phase,
        cursor,
    );
    assert(key_facts(row_key(state, row, cursor, inputs)) =~= facts);
}

/// A row as it was laid out.
#[derive(Debug)]
pub struct CachedRowLayout {
    pub key: RowLayoutKey,
    pub paint: RowPaintData,
}

/// What all rows of a layout have in common.
#[derive(Debug, Clone, Copy)]
pub struct GridCacheKey {
    pub cols: usize,
    pub screen_lines: usize,
    pub display_offset: usize,
    pub palette: TerminalPalette,
}

pub open spec fn grid_key_holds(
    key: GridCacheKey,
    state: &TerminalModel,
    palette: PaletteModel,
) -> bool {
    key.cols == state.cols && key.screen_lines == state.rows && key.display_offset
        == state.display_offset && key.palette@ == palette
}

/// The rows of one terminal as they were last laid out.
#[derive(Debug)]
pub struct TerminalGridCache {
    pub key: GridCacheKey,
    pub rows: Vec<Option<CachedRowLayout>>,
}

impl TerminalGridCache {
    /// A place for each row.
    pub open spec fn well_formed(&self) -> bool {
        self.rows@.len() == self.key.screen_lines
    }

    /// Whether the rows may be used for a grid at all.
    pub open spec fn applies(&self, state: &TerminalModel, palette: PaletteModel) -> bool {
        grid_key_holds(self.key, state, palette) && !state.fully_damaged
    }
}

/// Whether a row is painted from the cache: nothing damaged it, and its key is
/// the one that it was laid out for.
pub open spec fn hit(
    cache: Option<TerminalGridCache>,
    state: &TerminalModel,
    row: int,
    palette: PaletteModel,
    inputs: FrameInputs,
) -> bool {
    match cache {
        Some(c) => c.applies(state, palette) && !state.row_is_damaged(row) && (match c.rows@[row] {
            Some(cached) => cached.key@ == row_key(
                state,
                row,
                cursor_cell(cursor_paint(state, palette)),
                inputs,
            ),
            None => false,
        }),
        None => false,
    }
}

/// What a row paints: what the cache holds where it is hit, else its layout.
pub open spec fn served_row(
    cache: Option<TerminalGridCache>,
    state: &TerminalModel,
    row: int,
    palette: PaletteModel,
    inputs: FrameInputs,
) -> RowModel {
    if hit(cache, state, row, palette, inputs) {
        cache->0.rows@[row]->0.paint@
    } else {
        fresh_row(state, row, palette, inputs)
    }
}

pub open spec fn served(
    cache: Option<TerminalGridCache>,
    state: &TerminalModel,
    palette: PaletteModel,
    inputs: FrameInputs,
) -> Seq<RowModel> {
    Seq::new(state.rows as nat, |row: int| served_row(cache, state, row, palette, inputs))
}

/// Rows painted one after the other.
pub open spec fn stacked(rows: Seq<RowModel>) -> RowModel
    decreases rows.len(),
{
    if rows.len() == 0 {
        RowModel {
            text_runs: Seq::empty(),
            backgrounds: Seq::empty(),
            selections: Seq::empty(),
        }
    } else {
        let above = stacked(rows.drop_last());
        RowModel {
            text_runs: above.text_runs + rows.last().text_runs,
            backgrounds: above.backgrounds + rows.last().backgrounds,
            selections: above.selections + rows.last().selections,
        }
    }
}

/// The cursor of a frame.
pub open spec fn frame_cursor(
    state: &TerminalModel,
    palette: PaletteModel,
    inputs: FrameInputs,
) -> Option<CursorPaint> {
    match cursor_paint(state, palette) {
        Some(c) => Some(
            CursorPaint {
                focused: inputs.focused,
                visible: c.visible && cursor_shows(
                    state,
                    inputs.marked_text is Some,
                    inputs.blink_phase,
                ),
                ..c
            },
        ),
        None => None,
    }
}

/// What the cache of a terminal holds once its grid was laid out.
pub open spec fn cache_follows(
    cache: TerminalGridCache,
    before: Option<TerminalGridCache>,
    state: &TerminalModel,
    palette: PaletteModel,
    inputs: FrameInputs,
) -> bool {
    &&& grid_key_holds(cache.key, state, palette)
    &&& cache.well_formed()
    &&& forall|row: int|
        0 <= row < state.rows ==> (match #[trigger] cache.rows@[row] {
            Some(cached) => cached.key@ == row_key(
                state,
                row,
                cursor_cell(cursor_paint(state, palette)),
                inputs,
            ) && cached.paint@ == served_row(before, state, row, palette, inputs),
            None => false,
        })
}

pub open spec fn cached_for(caches: Map<u64, TerminalGridCache>, terminal_id: u64) -> Option<
    TerminalGridCache,
> {
    if caches.contains_key(terminal_id) {
        Some(caches[terminal_id])
    } else {
        None
    }
}

fn empty_rows(count: usize) -> (rows: Vec<Option<CachedRowLayout>>)
    ensures
        rows@.len() == count,
        forall|i: int| 0 <= i < count ==> #[trigger] rows@[i] is None,
{
    let mut rows: Vec<Option<CachedRowLayout>> = Vec::new();
    let mut i: usize = 0;
    while i < count
        invariant
            i <= count,
            rows@.len() == i,
            forall|j: int| 0 <= j < i ==> #[trigger] rows@[j] is None,
        decreases count - i,
    {
        rows.push(None);
        i += 1;
    }
    rows
}

fn extend_runs(into: &mut Vec<BatchedTextRun>, runs: &Vec<BatchedTextRun>)
    ensures
        runs_model(final(into)@) == runs_model(old(into)@) + runs_model(runs@),
{
    let ghost before = into@;
    let mut i: usize = 0;
    while i < runs.len()
        invariant
            i <= runs@.len(),
            into@ == before + runs@.take(i as int),
        decreases runs@.len() - i,
    {
        into.push(runs[i].clone());
        i += 1;
        assert(into@ =~= before + runs@.take(i as int));
    }
    assert(runs@.take(runs@.len() as int) =~= runs@);
    assert(runs_model(into@) =~= runs_model(before) + runs_model(runs@));
}

fn extend_rects(into: &mut Vec<BackgroundRect>, rects: &Vec<BackgroundRect>)
    ensures
        rects_model(final(into)@) == rects_model(old(into)@) + rects_model(rects@),
{
    let ghost before = into@;
    let mut i: usize = 0;
    while i < rects.len()
        invariant
            i <= rects@.len(),
            into@ == before + rects@.take(i as int),
        decreases rects@.len() - i,
    {
        into.push(rects[i]);
        i += 1;
        assert(into@ =~= before + rects@.take(i as int));
    }
    assert(rects@.take(rects@.len() as int) =~= rects@);
    assert(rects_model(into@) =~= rects_model(before) + rects_model(rects@));
}

/// Lay a grid out, painting from the terminal's cache the rows that it is good
/// for, and leave the rows as painted in the cache.
pub fn layout_grid_cached(
    caches: &mut KeyedMap<u64, TerminalGridCache>,
    terminal_id: u64,
    state: &TerminalModel,
    palette: &TerminalPalette,
    inputs: FrameInputs,
) -> (paint: GridPaintData)
    requires
        old(caches)@.contains_key(terminal_id) ==> old(caches)@[terminal_id].well_formed(),
    ensures
        paint.model() == stacked(
            served(cached_for(old(caches)@, terminal_id), state, palette@, inputs),
        ),
        paint.cursor == frame_cursor(state, palette@, inputs),
        final(caches)@ == old(caches)@.insert(terminal_id, final(caches)@[terminal_id]),
        cache_follows(
            final(caches)@[terminal_id],
            cached_for(old(caches)@, terminal_id),
            state,
            palette@,
            inputs,
        ),
{
    let ghost before = cached_for(caches@, terminal_id);
    let composing = inputs.marked_text.is_some();
    let cursor = layout_cursor(state, palette);
    let cell = match cursor {
        Some(c) => Some((c.row, c.start_col)),
        None => None,
    };
    let key = GridCacheKey {
        cols: state.cols,
        screen_lines: state.rows,
        display_offset: state.display_offset,
        palette: *palette,
    };
    let held = caches.remove(&terminal_id);
    let mut rows = match held {
        Some(cache) => {
            if cache.key.cols == key.cols && cache.key.screen_lines == key.screen_lines
                && cache.key.display_offset == key.display_offset && same_palette(
                &cache.key.palette,
                palette,
            ) && !state.fully_damaged {
                cache.rows
            } else {
                empty_rows(state.rows)
            }
        },
        None => empty_rows(state.rows),
    };
    let ghost start = rows@;
    let ghost all = served(before, state, palette@, inputs);
    let mut text_runs: Vec<BatchedTextRun> = Vec::new();
    let mut backgrounds: Vec<BackgroundRect> = Vec::new();
    let mut selections: Vec<BackgroundRect> = Vec::new();
    let mut row: usize = 0;
    proof {
        assert(all.take(0) =~= Seq::<RowModel>::empty());
        assert(runs_model(text_runs@) =~= stacked(all.take(0)).text_runs);
        assert(rects_model(backgrounds@) =~= stacked(all.take(0)).backgrounds);
        assert(rects_model(selections@) =~= stacked(all.take(0)).selections);
    }
    while row < state.rows
        invariant
            row <= state.rows,
            rows@.len() == state.rows,
            all == served(before, state, palette@, inputs),
            composing == (inputs.marked_text is Some),
            cell == cursor_cell(cursor_paint(state, palette@)),
            before is Some && before->0.applies(state, palette@) ==> start == before->0.rows@,
            !(before is Some && before->0.applies(state, palette@)) ==> (forall|i: int|
                0 <= i < state.rows ==> #[trigger] start[i] is None),
            start.len() == state.rows,
            forall|i: int| row <= i < state.rows ==> #[trigger] rows@[i] == start[i],
            forall|i: int|
                0 <= i < row ==> (match #[trigger] rows@[i] {
                    Some(cached) => cached.key@ == row_key(state, i, cell, inputs)
                        && cached.paint@ == all[i],
                    None => false,
                }),
            runs_model(text_runs@) == stacked(all.take(row as int)).text_runs,
            rects_model(backgrounds@) == stacked(all.take(row as int)).backgrounds,
            rects_model(selections@) == stacked(all.take(row as int)).selections,
        decreases state.rows - row,
    {
        let ghost at = row as int;
        let ghost rows_before = rows@;
        assert(rows@[at] == start[at]);
        let row_key = row_layout_key(state, row, cell, inputs);
        let clean = !state.row_damaged(row);
        let reused = clean && (match &rows[row] {
            Some(cached) => same_key(&cached.key, &row_key),
            None => false,
        });
        assert(reused == hit(before, state, at, palette@, inputs));
        assert(all[at] == served_row(before, state, at, palette@, inputs));
        if !reused {
            let paint = layout_row(
                state,
                row,
                palette,
                composing,
                inputs.hovered_link,
                inputs.focused,
                inputs.blink_phase,
                cell,
            );
            rows.set(row, Some(CachedRowLayout { key: row_key, paint }));
        }
        match &rows[row] {
            Some(cached) => {
                extend_runs(&mut text_runs, &cached.paint.text_runs);
                extend_rects(&mut backgrounds, &cached.paint.backgrounds);
                extend_rects(&mut selections, &cached.paint.selections);
            },
            None => {},
        }
        row += 1;
        proof {
            assert(all.take(row as int).drop_last() =~= all.take(at));
            assert(all.take(row as int).last() == all[at]);
            assert forall|i: int| 0 <= i < row implies (match #[trigger] rows@[i] {
                Some(cached) => cached.key@ == self::row_key(state, i, cell, inputs)
                    && cached.paint@ == all[i],
                None => false,
            }) by {
                if i < at {
                    assert(rows@[i] == rows_before[i]);
                }
            }
        }
    }
    proof {
        assert(all.take(state.rows as int) =~= all);
        assert forall|r: int| 0 <= r < state.rows implies (match #[trigger] rows@[r] {
            Some(cached) => cached.key@ == self::row_key(
                state,
                r,
                cursor_cell(cursor_paint(state, palette@)),
                inputs,
            ) && cached.paint@ == served_row(before, state, r, palette@, inputs),
            None => false,
        }) by {
            assert(all[r] == served_row(before, state, r, palette@, inputs));
        }
    }
    caches.insert(terminal_id, TerminalGridCache { key, rows });
    proof {
        assert(caches@ =~= old(caches)@.insert(terminal_id, caches@[terminal_id]));
    }
    let cursor = match cursor {
        Some(c) => Some(
            CursorPaint {
                focused: inputs.focused,
                visible: c.visible && !composing && (!state.cursor_blinking || inputs.blink_phase),
                ..c
            },
        ),
        None => None,
    };
    GridPaintData { text_runs, backgrounds, selections, cursor }
}

/// Lay a whole grid out with no row kept: for one rendering of stored output.
pub fn layout_grid(
    state: &TerminalModel,
    palette: &TerminalPalette,
    composing: bool,
    hovered_link: Option<&HyperlinkMatch>,
    focused: bool,
    blink_phase: bool,
) -> (paint: GridPaintData)
    ensures
        paint.model() == stacked(
            Seq::new(
                state.rows as nat,
                |row: int|
                    row_paint(
                        state.line(row),
                        row,
                        palette@,
                        row_facts(
                            state,
                            row,
                            composing,
                            hovered_link,
                            focused,
                            blink_phase,
                            cursor_cell(cursor_paint(state, palette@)),
                        ),
                    ),
            ),
        ),
        match (paint.cursor, cursor_paint(state, palette@)) {
            (Some(got), Some(want)) => got == (CursorPaint {
                focused,
                visible: want.visible && cursor_shows(state, composing, blink_phase),
                ..want
            }),
            (None, None) => true,
            _ => false,
        },
{
    let mut caches: KeyedMap<u64, TerminalGridCache> = KeyedMap::new();
    let marked_text: Option<&str> = if composing {
        Some("")
    } else {
        None
    };
    let inputs = FrameInputs { marked_text, hovered_link, focused, blink_phase };
    let ghost rows = Seq::new(
        state.rows as nat,
        |row: int|
            row_paint(
                state.line(row),
                row,
                palette@,
                row_facts(
                    state,
                    row,
                    composing,
                    hovered_link,
                    focused,
                    blink_phase,
                    cursor_cell(cursor_paint(state, palette@)),
                ),
            ),
    );
    assert(served(None, state, palette@, inputs) =~= rows);
    layout_grid_cached(&mut caches, 0, state, palette, inputs)
}

/// Whether each row that the cache would be asked for is as the grid now has it.
pub open spec fn current(cache: TerminalGridCache, state: &TerminalModel) -> bool {
    cache.applies(state, cache.key.palette@) ==> forall|row: int|
        0 <= row < state.rows && !state.row_is_damaged(row) ==> (match #[trigger] cache.rows@[row] {
            Some(cached) => cached.paint@ == row_paint(
                state.line(row),
                row,
                cache.key.palette@,
                key_facts(cached.key@),
            ),
            None => true,
        })
}

/// Painting from a current cache is painting anew.
pub proof fn law_a_cached_layout_is_the_fresh_layout(
    cache: TerminalGridCache,
    state: &TerminalModel,
    palette: PaletteModel,
    inputs: FrameInputs,
)
    requires
        cache.well_formed(),
        current(cache, state),
    ensures
        served(Some(cache), state, palette, inputs) == served(None, state, palette, inputs),
{
    assert forall|row: int| 0 <= row < state.rows implies served_row(
        Some(cache),
        state,
        row,
        palette,
        inputs,
    ) == served_row(None, state, row, palette, inputs) by {
        if hit(Some(cache), state, row, palette, inputs) {
            law_the_key_decides_the_row(state, row, palette, inputs);
            assert(cache.rows@[row] is Some);
        }
    }
    assert(served(Some(cache), state, palette, inputs) =~= served(None, state, palette, inputs));
}

/// A layout leaves a cache that stays current for every later grid whose changed
/// rows are marked as damaged, or that is of another size, scrolled elsewhere or
/// fully damaged.
pub proof fn law_a_layout_leaves_a_current_cache(
    before: Option<TerminalGridCache>,
    cache: TerminalGridCache,
    state: &TerminalModel,
    palette: PaletteModel,
    inputs: FrameInputs,
    later: &TerminalModel,
)
    requires
        before is Some ==> before->0.well_formed() && current(before->0, state),
        cache_follows(cache, before, state, palette, inputs),
        forall|row: int|
            0 <= row < later.rows && !later.row_is_damaged(row) ==> #[trigger] later.line(row)
                == state.line(row),
    ensures
        current(cache, later),
{
    if before is Some {
        law_a_cached_layout_is_the_fresh_layout(before->0, state, palette, inputs);
    }
    if cache.applies(later, palette) {
        assert forall|row: int| 0 <= row < later.rows && !later.row_is_damaged(row) implies (
        match #[trigger] cache.rows@[row] {
            Some(cached) => cached.paint@ == row_paint(
                later.line(row),
                row,
                cache.key.palette@,
                key_facts(cached.key@),
            ),
            None => true,
        }) by {
            law_the_key_decides_the_row(state, row, palette, inputs);
            assert(later.line(row) == state.line(row));
            let fresh = served(None, state, palette, inputs);
            assert(fresh[row] == fresh_row(state, row, palette, inputs));
            let kept = served(before, state, palette, inputs);
            assert(kept[row] == served_row(before, state, row, palette, inputs));
        }
    }
}

/// A row that changed is laid out anew, and so is every row where the whole grid did, or
/// where the grid, the scroll position or the palette is not the one that the rows were
/// kept for.
pub proof fn law_changed_rows_are_laid_out_anew(
    cache: TerminalGridCache,
    state: &TerminalModel,
    row: int,
    palette: PaletteModel,
    inputs: FrameInputs,
)
    requires
        0 <= row < state.rows,
        ({
            ||| 0 <= row < state.damaged@.len() && state.damaged@[row]
            ||| state.fully_damaged
            ||| cache.key.cols != state.cols
            ||| cache.key.screen_lines != state.rows
            ||| cache.key.display_offset != state.display_offset
            ||| cache.key.palette@ != palette
            ||| cache.rows@[row] is None
        }),
    ensures
        served(Some(cache), state, palette, inputs)[row] == fresh_row(state, row, palette, inputs),
        served(None, state, palette, inputs)[row] == fresh_row(state, row, palette, inputs),
{
}

} // verus!
