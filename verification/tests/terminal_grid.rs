//! How terminal grids are painted.
use tcode_ui::keyed::KeyedMap;
use tcode_ui::terminal::drawer::view::{cursor_stroke, run_paint, CursorStroke};
use tcode_ui::terminal::grid::{
    layout_grid, layout_grid_cached, row_layout_key, same_key, FrameInputs, TerminalGridCache,
};
use tcode_ui::terminal::layout::{terminal_color, GridPaintData, TerminalPalette, CURSOR_OPACITY};
use tcode_ui::terminal::model::{
    CellFlags, CellWidth, CursorShape, HyperlinkMatch, TerminalCell, TerminalColor, TerminalModel,
    TerminalStyle,
};
use tcode_ui::theme::color::{rgb, Color};

fn cell(ch: char, width: CellWidth) -> TerminalCell {
    TerminalCell {
        text: if ch == ' ' { String::new() } else { ch.to_string() },
        width,
        style: TerminalStyle::default(),
    }
}

fn model(cells: Vec<TerminalCell>) -> TerminalModel {
    TerminalModel {
        cols: cells.len(),
        rows: 1,
        lines: vec![cells],
        display_offset: 0,
        cursor: None,
        cursor_shape: CursorShape::Block,
        cursor_blinking: false,
        selection: vec![None],
        fully_damaged: true,
        damaged: vec![true],
    }
}

fn palette() -> TerminalPalette {
    let mut ansi = [rgb(0); 16];
    for (index, color) in ansi.iter_mut().enumerate() {
        *color = rgb(index as u32 + 1);
    }
    TerminalPalette {
        foreground: rgb(0xffffff),
        background: rgb(0x000000),
        selection: rgb(0x336699),
        cursor: rgb(0xff00ff),
        ansi,
    }
}

fn frame() -> FrameInputs<'static> {
    FrameInputs { marked_text: None, hovered_link: None, focused: true, blink_phase: true }
}

fn summary(paint: &GridPaintData) -> Vec<(usize, usize, String, usize)> {
    paint
        .text_runs
        .iter()
        .map(|run| (run.row, run.start_col, run.text.clone(), run.cell_count))
        .collect()
}

#[test]
fn unselected_default_grid_has_no_selection_or_ansi_background_paint() {
    let state = model(vec![cell('x', CellWidth::Narrow)]);
    let paint = layout_grid(&state, &palette(), false, None, true, true);
    assert!(paint.selections.is_empty());
    assert!(paint.backgrounds.is_empty());
}

#[test]
fn batches_mixed_cjk_at_physical_column_boundaries() {
    let cells = vec![
        cell('a', CellWidth::Narrow),
        cell('中', CellWidth::Wide),
        cell(' ', CellWidth::Spacer),
        cell('b', CellWidth::Narrow),
        cell('文', CellWidth::Wide),
        cell(' ', CellWidth::Spacer),
        cell('c', CellWidth::Narrow),
    ];
    let state = model(cells);
    let runs = layout_grid(&state, &palette(), false, None, true, true).text_runs;
    let boundaries = runs
        .iter()
        .map(|run| (run.start_col, run.text.as_str(), run.cell_count))
        .collect::<Vec<_>>();
    assert_eq!(boundaries, vec![(0, "a中", 2), (3, "b文", 2), (6, "c", 1)]);
}

/// A row that was not replaced keeps its cached layout; replacing it forces a
/// rebuild.
#[test]
fn row_cache_reuses_clean_rows_and_rebuilds_damaged_rows() {
    let mut state = model(vec![cell('a', CellWidth::Narrow)]);
    let mut caches: KeyedMap<u64, TerminalGridCache> = KeyedMap::new();
    let first = layout_grid_cached(&mut caches, 7, &state, &palette(), frame());
    assert_eq!(first.text_runs[0].text, "a");

    // A change that touches nothing on this row leaves the cache alone.
    state.clear_damage();
    let cached = layout_grid_cached(&mut caches, 7, &state, &palette(), frame());
    assert_eq!(cached.text_runs[0].text, "a");

    state.clear_damage();
    state.lines = vec![vec![cell('b', CellWidth::Narrow)]];
    state.damaged = vec![true];
    let rebuilt = layout_grid_cached(&mut caches, 7, &state, &palette(), frame());
    assert_eq!(rebuilt.text_runs[0].text, "b");
}

#[test]
fn undercurl_maps_to_wavy_underline() {
    let mut styled = cell('x', CellWidth::Narrow);
    styled.style.flags = CellFlags { undercurl: true, ..CellFlags::none() };
    let state = model(vec![styled]);
    let run = layout_grid(&state, &palette(), false, None, true, true).text_runs.remove(0);
    assert!(run.style.underline);
    assert!(run.style.underline_wavy);
    assert!(run_paint(run.style, &palette()).wavy);
}

/// What is unmarked as damaged is painted from the cache, even where it changed.
#[test]
fn an_unmarked_change_is_not_seen() {
    let mut state = model(vec![cell('a', CellWidth::Narrow)]);
    let mut caches: KeyedMap<u64, TerminalGridCache> = KeyedMap::new();
    layout_grid_cached(&mut caches, 1, &state, &palette(), frame());
    state.clear_damage();
    state.lines = vec![vec![cell('b', CellWidth::Narrow)]];
    let stale = layout_grid_cached(&mut caches, 1, &state, &palette(), frame());
    assert_eq!(stale.text_runs[0].text, "a");
    // Another terminal has a cache of its own.
    let other = layout_grid_cached(&mut caches, 2, &state, &palette(), frame());
    assert_eq!(other.text_runs[0].text, "b");
    // Scrolling, another palette or full damage lay everything out anew.
    state.display_offset = 1;
    let scrolled = layout_grid_cached(&mut caches, 1, &state, &palette(), frame());
    assert_eq!(scrolled.text_runs[0].text, "b");
    state.lines = vec![vec![cell('c', CellWidth::Narrow)]];
    let repainted = TerminalPalette { cursor: rgb(1), ..palette() };
    let fresh = layout_grid_cached(&mut caches, 1, &state, &repainted, frame());
    assert_eq!(fresh.text_runs[0].text, "c");
    state.lines = vec![vec![cell('d', CellWidth::Narrow)]];
    state.fully_damaged = true;
    let damaged = layout_grid_cached(&mut caches, 1, &state, &repainted, frame());
    assert_eq!(damaged.text_runs[0].text, "d");
}

/// A current cache paints what a fresh layout does, whatever of the inputs
/// changes between the frames.
#[test]
fn cached_frames_equal_fresh_ones() {
    let mut state = model(vec![
        cell('a', CellWidth::Narrow),
        cell('b', CellWidth::Narrow),
        cell('c', CellWidth::Narrow),
    ]);
    state.cursor = Some((0, 1));
    let link = HyperlinkMatch { start: (0, 1), end: (0, 2), url: "u".to_string() };
    let mut caches: KeyedMap<u64, TerminalGridCache> = KeyedMap::new();
    for selection in [None, Some((0, 1))] {
        for marked in [None, Some("x")] {
            for hovered in [None, Some(&link)] {
                for focused in [false, true] {
                    for phase in [false, true] {
                        state.selection = vec![selection];
                        state.cursor_blinking = true;
                        let inputs = FrameInputs {
                            marked_text: marked,
                            hovered_link: hovered,
                            focused,
                            blink_phase: phase,
                        };
                        let cached =
                            layout_grid_cached(&mut caches, 1, &state, &palette(), inputs);
                        let fresh = layout_grid(
                            &state,
                            &palette(),
                            marked.is_some(),
                            hovered,
                            focused,
                            phase,
                        );
                        assert_eq!(summary(&cached), summary(&fresh));
                        assert_eq!(
                            cached.text_runs.iter().map(|run| run.style).collect::<Vec<_>>(),
                            fresh.text_runs.iter().map(|run| run.style).collect::<Vec<_>>()
                        );
                        assert_eq!(cached.selections, fresh.selections);
                        assert_eq!(cached.cursor, fresh.cursor);
                        state.clear_damage();
                    }
                }
            }
        }
    }
}

#[test]
fn keys_tell_rows_apart() {
    let mut state = model(vec![cell('a', CellWidth::Narrow), cell('b', CellWidth::Narrow)]);
    let plain = row_layout_key(&state, 0, None, frame());
    assert!(same_key(&plain, &row_layout_key(&state, 0, None, frame())));
    state.selection = vec![Some((1, 9))];
    let selected = row_layout_key(&state, 0, None, frame());
    assert!(!same_key(&plain, &selected));
    assert_eq!(selected.selection, Some((1, 1)), "a selection ends with the grid");
    state.selection = vec![Some((1, 0))];
    assert_eq!(row_layout_key(&state, 0, None, frame()).selection, None);
    let cursor = row_layout_key(&state, 0, Some((0, 1)), frame());
    assert!(!same_key(&plain, &cursor));
    assert!(same_key(&plain, &row_layout_key(&state, 0, Some((1, 1)), frame())));
}

#[test]
fn colors_follow_the_palette_the_cube_and_the_greys() {
    let palette = palette();
    assert_eq!(terminal_color(TerminalColor::Foreground, &palette), rgb(0xffffff));
    assert_eq!(terminal_color(TerminalColor::Background, &palette), rgb(0));
    assert_eq!(terminal_color(TerminalColor::Cursor, &palette), rgb(0xff00ff));
    assert_eq!(terminal_color(TerminalColor::Indexed(0), &palette), rgb(1));
    assert_eq!(terminal_color(TerminalColor::Indexed(15), &palette), rgb(16));
    assert_eq!(terminal_color(TerminalColor::Indexed(16), &palette), rgb(0));
    assert_eq!(terminal_color(TerminalColor::Indexed(21), &palette), rgb(0x0000ff));
    assert_eq!(terminal_color(TerminalColor::Indexed(110), &palette), rgb(0x87afd7));
    assert_eq!(terminal_color(TerminalColor::Indexed(231), &palette), rgb(0xffffff));
    assert_eq!(terminal_color(TerminalColor::Indexed(232), &palette), rgb(0x080808));
    assert_eq!(terminal_color(TerminalColor::Indexed(255), &palette), rgb(0xeeeeee));
    assert_eq!(
        terminal_color(TerminalColor::Rgb { r: 1, g: 2, b: 3 }, &palette),
        rgb(0x010203)
    );
}

#[test]
fn backgrounds_widen_over_adjacent_cells_of_one_color() {
    let mut cells = Vec::new();
    for index in [1u8, 1, 2, 2, 1] {
        let mut tinted = cell('x', CellWidth::Narrow);
        tinted.style.bg = TerminalColor::Indexed(index);
        cells.push(tinted);
    }
    cells.push(cell('y', CellWidth::Narrow));
    let paint = layout_grid(&model(cells), &palette(), false, None, true, true);
    let rects: Vec<(usize, usize, Color)> = paint
        .backgrounds
        .iter()
        .map(|rect| (rect.start_col, rect.cell_count, rect.color))
        .collect();
    assert_eq!(rects, vec![(0, 2, rgb(2)), (2, 2, rgb(3)), (4, 1, rgb(2))]);
}

#[test]
fn inverse_cells_exchange_their_colors() {
    let mut inverse = cell('x', CellWidth::Narrow);
    inverse.style.flags = CellFlags { inverse: true, ..CellFlags::none() };
    let paint = layout_grid(&model(vec![inverse]), &palette(), false, None, true, true);
    assert_eq!(paint.backgrounds[0].color, rgb(0xffffff));
    assert_eq!(paint.text_runs[0].style.fg, TerminalColor::Background);
}

#[test]
fn blanks_paint_only_their_underline() {
    let mut lined = cell(' ', CellWidth::Narrow);
    lined.style.flags = CellFlags { underline: true, ..CellFlags::none() };
    let mut modified = cell('❤', CellWidth::Narrow);
    modified.text = "❤\u{fe0f}".to_string();
    let mut placeholder = cell(' ', CellWidth::Narrow);
    placeholder.style.flags = CellFlags { underline: true, ..CellFlags::none() };
    let state = model(vec![cell(' ', CellWidth::Narrow), lined, modified, placeholder]);
    let paint = layout_grid(&state, &palette(), false, None, true, true);
    assert_eq!(
        summary(&paint),
        vec![(0, 1, " ".to_string(), 1), (0, 2, "❤\u{fe0f}".to_string(), 1)]
    );
}

#[test]
fn selections_and_links_follow_their_cells() {
    let mut state = model(vec![
        cell('a', CellWidth::Narrow),
        cell('b', CellWidth::Narrow),
        cell('c', CellWidth::Narrow),
    ]);
    state.selection = vec![Some((1, 2))];
    let paint = layout_grid(&state, &palette(), false, None, true, true);
    assert_eq!(paint.selections.len(), 1);
    assert_eq!((paint.selections[0].start_col, paint.selections[0].cell_count), (1, 2));
    assert_eq!(paint.selections[0].color, rgb(0x336699));
    state.selection = vec![None];
    let link = HyperlinkMatch { start: (0, 1), end: (0, 1), url: "u".to_string() };
    let paint = layout_grid(&state, &palette(), false, Some(&link), true, true);
    let lined: Vec<bool> = paint.text_runs.iter().map(|run| run.style.underline).collect();
    assert_eq!(lined, vec![false, true, false]);
}

#[test]
fn cursors_cover_wide_characters_and_hide_when_told() {
    let mut state = model(vec![cell('中', CellWidth::Wide), cell(' ', CellWidth::Spacer)]);
    state.cursor = Some((0, 1));
    let cursor = layout_grid(&state, &palette(), false, None, true, true).cursor.unwrap();
    assert_eq!((cursor.start_col, cursor.cell_count), (0, 2));
    assert_eq!(cursor.color, Color { rgba: 0xffffffff, opacity: u32::from(CURSOR_OPACITY) * 1_000_000 });
    assert!(cursor.visible);
    assert_eq!(cursor_stroke(Some(cursor), true), CursorStroke::Block);
    assert_eq!(cursor_stroke(Some(cursor), false), CursorStroke::Nothing);
    let composing = layout_grid(&state, &palette(), true, None, true, true).cursor.unwrap();
    assert!(!composing.visible);
    state.cursor_blinking = true;
    let dark = layout_grid(&state, &palette(), false, None, true, false).cursor.unwrap();
    assert!(!dark.visible);
    let unfocused = layout_grid(&state, &palette(), false, None, false, true).cursor;
    assert_eq!(cursor_stroke(unfocused, true), CursorStroke::Outline);
    state.selection = vec![Some((0, 0))];
    assert!(!layout_grid(&state, &palette(), false, None, true, true).cursor.unwrap().visible);
    state.cursor = Some((3, 0));
    assert!(layout_grid(&state, &palette(), false, None, true, true).cursor.is_none());
    for (shape, stroke) in [
        (CursorShape::Beam, CursorStroke::Beam),
        (CursorShape::Underline, CursorStroke::Underline),
        (CursorShape::Hidden, CursorStroke::Nothing),
    ] {
        let shaped = tcode_ui::terminal::layout::CursorPaint { shape, ..cursor };
        assert_eq!(cursor_stroke(Some(shaped), true), stroke);
    }
}

#[test]
fn text_under_a_block_cursor_is_inverted() {
    let mut state = model(vec![cell('a', CellWidth::Narrow), cell('b', CellWidth::Narrow)]);
    state.cursor = Some((0, 1));
    let paint = layout_grid(&state, &palette(), false, None, true, true);
    assert_eq!(paint.text_runs.len(), 2);
    assert!(paint.text_runs[1].style.cursor);
    assert_eq!(run_paint(paint.text_runs[1].style, &palette()).color, rgb(0));
    assert_eq!(run_paint(paint.text_runs[0].style, &palette()).color, rgb(0xffffff));
}
