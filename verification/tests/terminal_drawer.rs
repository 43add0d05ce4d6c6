//! The terminal drawer.
use tcode_ui::command::TerminalSplitDirection;
use tcode_ui::protocol::PixelBits;
use tcode_ui::terminal::drawer::pointer::{drag_scroll_lines, MouseMoveEvent, MouseUpEvent};
use tcode_ui::terminal::drawer::typing::{
    drop_paths, focus_report, on_terminal_copy, paste_to_terminal, ActivePane, ClipboardNotice,
    TerminalNotice,
};
use tcode_ui::terminal::drawer::view::{
    context_menu, ContextEntry, DrawerBody, ExitStatus, OverflowEntry, TabFacts, TerminalOverflow,
    TerminalSplit, ToolbarItem,
};
use tcode_ui::terminal::drawer::{
    term_mouse_button, terminal_clipboard_shortcut, terminal_link_modifier, ClipboardShortcut,
    DrawerEffect, Effect, Modifiers, MouseButton, MouseDownEvent, PaneFacts, PointedCell, TermMouseButton,
    TerminalDrawer,
};
use tcode_ui::terminal::key_bar::{TermModifiers, TerminalKey};
use tcode_ui::terminal::model::{CursorShape, HyperlinkMatch, TerminalModel};
use tcode_ui::terminal::selection::{
    grid_point_and_side, selection_drag_started, GridPosition, ScreenPoint, SelectionDrag,
    SelectionDragAction, SelectionKind, SelectionSide, SELECTION_DRAG_THRESHOLD,
};
use tcode_ui::window_seam::Platform;

fn none() -> Modifiers {
    Modifiers { control: false, alt: false, shift: false, platform: false, function: false }
}

fn at(x: f32, y: f32) -> ScreenPoint {
    ScreenPoint { x: fine(x), y: fine(y) }
}

fn fine(pixels: f32) -> i64 {
    (f64::from(pixels) * 65536.).round() as i64
}

fn pane() -> PaneFacts {
    PaneFacts {
        routes_mouse: false,
        bracketed_paste: false,
        alt_screen: false,
        alternate_scroll: false,
        history_size: 0,
        selected_text: None,
        link: None,
    }
}

fn names(effects: &[DrawerEffect]) -> Vec<String> {
    effects
        .iter()
        .map(|effect| match effect {
            Effect::Focus => "focus".to_string(),
            Effect::RequestSoftKeyboard => "keyboard".to_string(),
            Effect::Activate { terminal_id } => format!("activate {terminal_id}"),
            Effect::ReportButton { button, pressed, point, .. } => {
                format!("button {button:?} {pressed} {point:?}")
            }
            Effect::ReportMove { button, point, .. } => format!("move {button:?} {point:?}"),
            Effect::ReportScroll { lines, point, .. } => format!("wheel {lines} {point:?}"),
            Effect::AltScroll { lines, .. } => format!("arrows {lines}"),
            Effect::Scroll { lines, .. } => format!("scroll {lines}"),
            Effect::StartSelection { kind, point, .. } => format!("start {kind:?} {point:?}"),
            Effect::UpdateSelection { point, .. } => format!("update {point:?}"),
            Effect::ClearSelection { .. } => "clear".to_string(),
            Effect::Input { text, .. } => format!("input {text:?}"),
            Effect::Bytes { bytes, .. } => format!("bytes {bytes:?}"),
            Effect::CopyToClipboard { text } => format!("copy {text}"),
            Effect::CopyToPrimary { text } => format!("primary {text}"),
            Effect::OpenUrl { url } => format!("open {url}"),
            Effect::PlayBell => "bell".to_string(),
            Effect::InvalidateCoordinates => "coordinates".to_string(),
            Effect::StopPropagation => "stop".to_string(),
            Effect::Notify => "notify".to_string(),
        })
        .collect()
}

#[test]
fn simple_selection_waits_until_drag_crosses_threshold() {
    assert!(!selection_drag_started(fine(0.), fine(0.)));
    assert!(!selection_drag_started(SELECTION_DRAG_THRESHOLD, fine(0.)));
    assert!(selection_drag_started(SELECTION_DRAG_THRESHOLD + fine(0.01), fine(0.)));
    assert!(selection_drag_started(fine(2.), fine(2.)));
    assert!(!selection_drag_started(fine(-1.19), fine(-1.6)));
    assert!(selection_drag_started(fine(-1.21), fine(-1.6)));
    assert!(selection_drag_started(i64::MIN, i64::MAX));
}

#[test]
fn selection_drag_distinguishes_click_from_drag_threshold() {
    let mut drag = SelectionDrag::default();
    assert!(matches!(
        drag.on_down(7, at(10., 10.), (0, 1), SelectionSide::Left, 1, false),
        SelectionDragAction::ClearAndWait
    ));
    assert!(matches!(
        drag.on_move(7, at(12., 10.), (0, 1), SelectionSide::Right, true),
        SelectionDragAction::Nothing
    ));
    assert!(matches!(
        drag.on_move(7, at(12.1, 10.), (0, 2), SelectionSide::Left, true),
        SelectionDragAction::StartSimpleAndUpdate { anchor: (0, 1), point: (0, 2), .. }
    ));
}

#[test]
fn selection_drag_preserves_word_and_line_click_kinds() {
    let mut drag = SelectionDrag::default();
    assert!(matches!(
        drag.on_down(1, at(0., 0.), (2, 3), SelectionSide::Left, 2, false),
        SelectionDragAction::Start { kind: SelectionKind::Semantic, point: (2, 3), .. }
    ));
    assert!(matches!(
        drag.on_down(1, at(0., 0.), (4, 0), SelectionSide::Left, 3, false),
        SelectionDragAction::Start { kind: SelectionKind::Lines, point: (4, 0), .. }
    ));
    assert!(matches!(
        drag.on_down(1, at(0., 0.), (4, 0), SelectionSide::Left, 4, false),
        SelectionDragAction::Nothing
    ));
    assert!(matches!(
        drag.on_down(1, at(0., 0.), (4, 0), SelectionSide::Left, 1, true),
        SelectionDragAction::Update { point: (4, 0), .. }
    ));
}

#[test]
fn selection_drag_updates_across_rows_after_starting() {
    let mut drag = SelectionDrag::default();
    drag.on_down(3, at(4., 4.), (1, 4), SelectionSide::Left, 1, false);
    let action = drag.on_move(3, at(20., 40.), (3, 2), SelectionSide::Right, true);
    assert!(matches!(
        action,
        SelectionDragAction::StartSimpleAndUpdate { anchor: (1, 4), point: (3, 2), .. }
    ));
    // The drag goes on wherever the pointer is, and is not started again.
    assert!(matches!(
        drag.on_move(3, at(4., 4.), (1, 4), SelectionSide::Right, true),
        SelectionDragAction::Update { point: (1, 4), .. }
    ));
    assert!(drag.on_up(3));
    assert!(!drag.on_up(3));
    assert!(drag.mouse_down.is_none() && drag.pending_simple.is_none());
}

#[test]
fn a_drag_in_another_terminal_selects_nothing() {
    let mut drag = SelectionDrag::default();
    drag.on_down(3, at(4., 4.), (1, 4), SelectionSide::Left, 1, false);
    assert!(matches!(
        drag.on_move(4, at(20., 40.), (3, 2), SelectionSide::Right, true),
        SelectionDragAction::Nothing
    ));
    assert!(matches!(
        drag.on_move(3, at(20., 40.), (3, 2), SelectionSide::Right, false),
        SelectionDragAction::Nothing
    ));
    assert!(!drag.on_up(4));
    assert!(drag.mouse_down.is_some());
}

#[test]
fn a_release_tells_of_a_selection_once() {
    let mut drag = SelectionDrag::default();
    assert!(!drag.on_up(3), "nothing was pressed");
    drag.on_down(3, at(4., 4.), (1, 4), SelectionSide::Left, 1, false);
    assert!(!drag.on_up(3), "a click");
    drag.on_down(3, at(4., 4.), (1, 4), SelectionSide::Left, 1, false);
    drag.on_move(3, at(20., 40.), (3, 2), SelectionSide::Right, true);
    assert!(!drag.on_up(4), "another terminal");
    assert!(drag.on_up(3));
    assert!(matches!(
        drag.on_move(3, at(40., 40.), (3, 4), SelectionSide::Right, true),
        SelectionDragAction::Nothing
    ));
    assert!(!drag.on_up(3));
    drag.on_down(3, at(4., 4.), (1, 4), SelectionSide::Left, 1, false);
    drag.on_move(3, at(20., 40.), (3, 2), SelectionSide::Right, true);
    drag.on_down(4, at(4., 4.), (1, 4), SelectionSide::Left, 1, false);
    assert!(!drag.on_up(3), "a press anywhere ends it");
}

#[test]
fn a_program_hears_of_each_cell_once() {
    let mut drag = SelectionDrag::default();
    assert!(drag.should_report_mouse_move(1, (0, 0)));
    assert!(!drag.should_report_mouse_move(1, (0, 0)));
    assert!(drag.should_report_mouse_move(2, (0, 0)));
    assert!(drag.should_report_mouse_move(1, (0, 1)));
    drag.on_up(1);
    assert!(drag.should_report_mouse_move(1, (0, 1)));
}

#[test]
fn grid_point_maps_cell_halves_and_clamps_past_the_last_column() {
    for (x, col, side) in [
        (2.0f32, 0, SelectionSide::Left),
        (8., 0, SelectionSide::Right),
        (35., 2, SelectionSide::Right),
    ] {
        let position = GridPosition {
            column: (x / 10.) as usize,
            right_half: x % 10. > 5.,
            row: (5.0f32 / 20.) as i64,
            above: false,
        };
        assert_eq!(grid_point_and_side(position, 3, 2), ((0, col), side));
    }
    let above = GridPosition { column: 1, right_half: true, row: -1, above: true };
    assert_eq!(grid_point_and_side(above, 3, 2), ((0, 1), SelectionSide::Left));
    let below = GridPosition { column: 0, right_half: false, row: 9, above: false };
    assert_eq!(grid_point_and_side(below, 3, 2), ((1, 0), SelectionSide::Right));
}

#[test]
fn clipboard_shortcuts_are_platform_specific() {
    let command = Modifiers { platform: true, ..none() };
    let control_shift = Modifiers { control: true, shift: true, ..none() };
    assert_eq!(terminal_clipboard_shortcut("c", command, true), Some(ClipboardShortcut::Copy));
    assert_eq!(terminal_clipboard_shortcut("v", command, true), Some(ClipboardShortcut::Paste));
    assert_eq!(terminal_clipboard_shortcut("c", control_shift, true), None);
    assert_eq!(terminal_clipboard_shortcut("c", command, false), None);
    assert_eq!(
        terminal_clipboard_shortcut("C", control_shift, false),
        Some(ClipboardShortcut::Copy)
    );
    assert_eq!(
        terminal_clipboard_shortcut("V", control_shift, false),
        Some(ClipboardShortcut::Paste)
    );
    assert_eq!(
        terminal_clipboard_shortcut("c", Modifiers { control: true, ..none() }, false),
        None
    );
    assert_eq!(terminal_clipboard_shortcut("cc", command, true), None);
}

#[test]
fn hyperlink_modifier_matches_the_platform_shortcut_convention() {
    let command = Modifiers { platform: true, ..none() };
    let control = Modifiers { control: true, ..none() };
    assert!(terminal_link_modifier(command, true));
    assert!(!terminal_link_modifier(control, true));
    assert!(terminal_link_modifier(control, false));
    assert!(!terminal_link_modifier(command, false));
}

fn press(button: MouseButton, modifiers: Modifiers) -> MouseDownEvent {
    MouseDownEvent { button, modifiers, position: at(20., 20.), click_count: 1 }
}

const CELL: PointedCell = PointedCell { point: (2, 3), side: SelectionSide::Left };

#[test]
fn tapping_a_terminal_focuses_it_and_asks_for_the_keyboard() {
    let mut drawer = TerminalDrawer::new(0);
    let event = press(MouseButton::Left, none());
    let effects = drawer.terminal_mouse_down(1, event, None, None, Platform::Ios, None);
    assert_eq!(names(&effects), ["focus", "keyboard"]);
    let effects = drawer.terminal_mouse_down(1, event, Some(CELL), None, Platform::Ios, None);
    assert_eq!(names(&effects), ["focus", "keyboard", "activate 1", "notify"]);
    let effects =
        drawer.terminal_mouse_down(1, event, Some(CELL), Some(&pane()), Platform::Ios, None);
    assert_eq!(names(&effects), ["focus", "keyboard", "activate 1", "clear", "notify"]);
}

#[test]
fn each_button_has_its_way() {
    let mut drawer = TerminalDrawer::new(0);
    let routed = PaneFacts { routes_mouse: true, ..pane() };
    let right = press(MouseButton::Right, none());
    let effects =
        drawer.terminal_mouse_down(1, right, Some(CELL), Some(&routed), Platform::Linux, None);
    assert_eq!(
        names(&effects)[3..],
        ["button Right true (2, 3)", "stop", "notify"]
    );
    let other = press(MouseButton::Other, none());
    let effects =
        drawer.terminal_mouse_down(1, other, Some(CELL), Some(&routed), Platform::Linux, None);
    assert_eq!(names(&effects)[3..], ["notify"]);
    let effects =
        drawer.terminal_mouse_down(1, right, Some(CELL), Some(&pane()), Platform::Linux, None);
    assert_eq!(names(&effects)[3..], ["start Semantic (2, 3)", "notify"]);
    let selected = PaneFacts { selected_text: Some("x".to_string()), ..pane() };
    let effects =
        drawer.terminal_mouse_down(1, right, Some(CELL), Some(&selected), Platform::Linux, None);
    assert_eq!(names(&effects)[3..], ["notify"]);
    let middle = press(MouseButton::Middle, none());
    let effects = drawer.terminal_mouse_down(
        1,
        middle,
        Some(CELL),
        Some(&pane()),
        Platform::Linux,
        Some("a\nb"),
    );
    assert_eq!(names(&effects)[3..], ["input \"a\\rb\"", "stop", "notify"]);
    let effects = drawer.terminal_mouse_down(
        1,
        middle,
        Some(CELL),
        Some(&pane()),
        Platform::MacOs,
        Some("a\nb"),
    );
    assert_eq!(names(&effects)[3..], ["notify"]);
}

#[test]
fn a_link_opens_when_it_is_released_where_it_was_pressed() {
    let link = || HyperlinkMatch { start: (2, 3), end: (2, 9), url: "https://a".to_string() };
    let over = PaneFacts { link: Some(link()), ..pane() };
    let control = Modifiers { control: true, ..none() };
    let mut drawer = TerminalDrawer::new(0);
    let down = press(MouseButton::Left, control);
    let up = MouseUpEvent { button: MouseButton::Left, modifiers: control };
    drawer.terminal_mouse_down(1, down, Some(CELL), Some(&over), Platform::Linux, None);
    assert!(drawer.pressed_link.is_some());
    let effects = drawer.terminal_mouse_up(1, up, Some(CELL), Some(&over), Platform::Linux);
    assert_eq!(names(&effects), ["open https://a", "notify"]);
    let again = drawer.terminal_mouse_up(1, up, Some(CELL), Some(&over), Platform::Linux);
    assert_eq!(names(&again), ["notify"]);
    // Another terminal, or another link, opens nothing.
    drawer.terminal_mouse_down(1, down, Some(CELL), Some(&over), Platform::Linux, None);
    let effects = drawer.terminal_mouse_up(2, up, Some(CELL), Some(&over), Platform::Linux);
    assert_eq!(names(&effects), ["notify"]);
    assert!(drawer.pressed_link.is_none());
    drawer.terminal_mouse_down(1, down, Some(CELL), Some(&over), Platform::Linux, None);
    let elsewhere = PaneFacts {
        link: Some(HyperlinkMatch { url: "https://b".to_string(), ..link() }),
        ..pane()
    };
    let effects = drawer.terminal_mouse_up(1, up, Some(CELL), Some(&elsewhere), Platform::Linux);
    assert_eq!(names(&effects), ["notify"]);
}

fn movement(modifiers: Modifiers, now: u64) -> MouseMoveEvent {
    MouseMoveEvent {
        pressed_button: Some(MouseButton::Left),
        modifiers,
        position: at(40., 20.),
        drag_lines: Some(-2),
        now,
    }
}

#[test]
fn dragging_selects_and_scrolls_the_history() {
    let mut drawer = TerminalDrawer::new(0);
    let down = press(MouseButton::Left, none());
    drawer.terminal_mouse_down(1, down, Some(CELL), Some(&pane()), Platform::Linux, None);
    let target = PointedCell { point: (4, 0), side: SelectionSide::Right };
    let long = PaneFacts { history_size: 10, ..pane() };
    let effects = drawer.terminal_mouse_move(
        1,
        movement(none(), 0),
        Some(target),
        Some(&long),
        Platform::Linux,
    );
    assert_eq!(
        names(&effects),
        ["start Simple (2, 3)", "update (4, 0)", "scroll -2", "notify"]
    );
    let alt = PaneFacts { alt_screen: true, history_size: 10, ..pane() };
    let effects = drawer.terminal_mouse_move(
        1,
        movement(none(), 0),
        Some(target),
        Some(&alt),
        Platform::Linux,
    );
    assert_eq!(names(&effects), ["update (4, 0)", "notify"]);
    let selected = PaneFacts { selected_text: Some("text".to_string()), ..pane() };
    let up = MouseUpEvent { button: MouseButton::Left, modifiers: none() };
    let effects = drawer.terminal_mouse_up(1, up, Some(target), Some(&selected), Platform::Linux);
    assert_eq!(names(&effects), ["primary text", "notify"]);
    let effects = drawer.terminal_mouse_up(1, up, Some(target), Some(&selected), Platform::Linux);
    assert_eq!(names(&effects), ["notify"]);
}

#[test]
fn links_are_looked_up_every_sixteen_milliseconds() {
    let mut drawer = TerminalDrawer::new(0);
    let control = Modifiers { control: true, ..none() };
    let over = PaneFacts {
        link: Some(HyperlinkMatch { start: (0, 0), end: (0, 1), url: "u".to_string() }),
        ..pane()
    };
    drawer.terminal_mouse_move(1, movement(control, 100), Some(CELL), Some(&over), Platform::Linux);
    assert!(drawer.hovered_link.is_some());
    drawer.terminal_mouse_move(1, movement(control, 115), Some(CELL), Some(&pane()), Platform::Linux);
    assert!(drawer.hovered_link.is_some(), "too soon to look again");
    drawer.terminal_mouse_move(1, movement(control, 116), Some(CELL), Some(&pane()), Platform::Linux);
    assert!(drawer.hovered_link.is_none());
    drawer.terminal_mouse_move(1, movement(control, 200), Some(CELL), Some(&over), Platform::Linux);
    let effects =
        drawer.terminal_mouse_move(1, movement(control, 201), None, Some(&over), Platform::Linux);
    assert!(effects.is_empty() && drawer.hovered_link.is_none());
}

#[test]
fn the_wheel_goes_to_the_program_the_arrows_or_the_history() {
    let drawer = TerminalDrawer::new(0);
    let routed = PaneFacts { routes_mouse: true, ..pane() };
    let arrows = PaneFacts { alt_screen: true, alternate_scroll: true, ..pane() };
    let shift = Modifiers { shift: true, ..none() };
    let turn = |lines, cell, modifiers, pane: &PaneFacts| {
        names(&drawer.on_scroll(1, lines, cell, modifiers, Some(pane)))
    };
    assert_eq!(turn(3, Some(CELL), none(), &routed), ["wheel 3 (2, 3)", "stop", "notify"]);
    assert_eq!(turn(3, None, none(), &routed), ["wheel 3 (0, 0)", "stop", "notify"]);
    assert_eq!(turn(-1, None, none(), &arrows), ["arrows -1", "stop", "notify"]);
    assert_eq!(turn(-1, None, shift, &arrows), ["scroll -1", "stop", "notify"]);
    assert_eq!(turn(2, None, none(), &pane()), ["scroll 2", "stop", "notify"]);
    assert!(turn(0, None, none(), &pane()).is_empty());
    assert_eq!(names(&drawer.on_scroll(1, 1, None, none(), None)), ["stop", "notify"]);
}

#[test]
fn keys_copy_paste_or_go_to_the_terminal() {
    let mut drawer = TerminalDrawer::new(0);
    let active = ActivePane {
        terminal_id: 5,
        bracketed_paste: true,
        selected_text: Some("chosen".to_string()),
    };
    let command = Modifiers { platform: true, ..none() };
    drawer.bell_tabs.insert(5);
    drawer.bell_tabs.insert(6);
    let mut key = |name: &str, modifiers, encoded: Option<Vec<u8>>| {
        names(&drawer.on_key_down(
            name,
            modifiers,
            Platform::MacOs,
            9,
            Some(&active),
            Some("clip"),
            encoded,
        ))
    };
    assert_eq!(key("c", command, None), ["notify", "copy chosen", "stop"]);
    assert_eq!(
        key("v", command, None),
        ["notify", "input \"\\u{1b}[200~clip\\u{1b}[201~\"", "stop"]
    );
    assert_eq!(key("up", none(), Some(vec![27, 91, 65])), ["notify", "bytes [27, 91, 65]", "stop"]);
    assert_eq!(key("a", none(), None), ["notify"]);
    assert!(!drawer.bell_tabs.contains(&5), "typing answers the bell");
    assert!(drawer.bell_tabs.contains(&6));
    assert_eq!(drawer.last_input, 9);
    let effects =
        drawer.on_key_down("up", none(), Platform::MacOs, 10, None, None, Some(vec![1]));
    assert_eq!(names(&effects), ["notify"]);
}

#[test]
fn notices_ring_and_fill_only_the_system_clipboard() {
    let mut drawer = TerminalDrawer::new(0);
    let notices = vec![
        TerminalNotice {
            terminal_id: 1,
            bell: true,
            clipboard: Some(ClipboardNotice { text: "a".to_string(), selection: true }),
        },
        TerminalNotice {
            terminal_id: 2,
            bell: false,
            clipboard: Some(ClipboardNotice { text: "b".to_string(), selection: false }),
        },
    ];
    let effects = drawer.drain_terminal_notices(&notices);
    assert_eq!(names(&effects), ["bell", "copy b", "coordinates"]);
    assert!(drawer.bell_tabs.contains(&1) && !drawer.bell_tabs.contains(&2));
}

fn nothing(_: String, _: TermModifiers) -> Option<Vec<u8>> {
    None
}

#[test]
fn composed_text_is_marked_then_committed() {
    let mut drawer = TerminalDrawer::new(0);
    assert_eq!(
        names(&drawer.replace_and_mark_text_in_range(1, "に😀")),
        ["notify", "coordinates"]
    );
    assert_eq!(drawer.marked_text_range(1), Some(3));
    assert_eq!(drawer.marked_text_range(2), None);
    assert_eq!(names(&drawer.unmark_text(2)), ["coordinates"]);
    assert_eq!(names(&drawer.unmark_text(1)), ["notify", "coordinates"]);
    drawer.replace_and_mark_text_in_range(1, "x");
    drawer.replace_and_mark_text_in_range(1, "");
    assert_eq!(drawer.marked_text_range(1), None);
    drawer.replace_and_mark_text_in_range(1, "x");
    let effects = drawer.replace_text_in_range(1, "日本", nothing, 7, true);
    assert_eq!(
        names(&effects),
        ["bytes [230, 151, 165, 230, 156, 172]", "notify", "coordinates"]
    );
    assert_eq!(drawer.marked_text_range(1), None);
    assert_eq!(drawer.last_input, 7);
    let effects = drawer.replace_text_in_range(1, "a", nothing, 8, false);
    assert_eq!(names(&effects), ["notify", "coordinates"]);
}

#[test]
fn the_key_bar_types_into_the_active_terminal() {
    let mut drawer = TerminalDrawer::new(0);
    drawer.key_encoder.toggle_modifier(true);
    assert!(drawer.send_key_bar_key(TerminalKey::Tab, nothing, 1, None).is_empty());
    assert!(drawer.key_encoder.modifiers.control);
    let effects = drawer.send_key_bar_key(TerminalKey::Symbol('|'), nothing, 1, Some(4));
    assert_eq!(names(&effects), ["bytes [124]", "notify"]);
    assert!(!drawer.key_encoder.modifiers.control);
}

#[test]
fn dropped_files_are_pasted_as_words() {
    let paths = vec!["/tmp/a".to_string(), "it's".to_string()];
    assert_eq!(
        names(&drop_paths(1, &paths, Some(false))),
        ["focus", "input \" '/tmp/a' 'it'\\\\''s' \""]
    );
    assert_eq!(names(&drop_paths(1, &paths, None)), ["focus"]);
    assert!(drop_paths(1, &Vec::new(), Some(false)).is_empty());
    assert_eq!(names(&paste_to_terminal(1, "a\r\nb", Some(false))), ["input \"a\\rb\""]);
    assert!(paste_to_terminal(1, "a", None).is_empty());
    assert_eq!(names(&on_terminal_copy(Some(&"t".to_string()))), ["copy t"]);
    assert!(on_terminal_copy(None).is_empty());
}

#[test]
fn programs_that_ask_hear_of_focus() {
    assert_eq!(focus_report(true, true), Some(b"\x1b[I".to_vec()));
    assert_eq!(focus_report(true, false), Some(b"\x1b[O".to_vec()));
    assert_eq!(focus_report(false, true), None);
}

fn tabs() -> Vec<TabFacts> {
    vec![
        TabFacts { id: 1, label: "zsh".to_string(), exited: false },
        TabFacts { id: 2, label: "top".to_string(), exited: true },
    ]
}

#[test]
fn the_drawer_shows_its_tabs_toolbar_and_body() {
    let mut drawer = TerminalDrawer::new(0);
    drawer.bell_tabs.insert(2);
    drawer.split_sizes = vec![PixelBits(1), PixelBits(2)];
    drawer.replace_and_mark_text_in_range(1, "x");
    let view = drawer.render(true, &tabs(), Some(2), None, 4, false, true);
    let shown: Vec<(u64, bool, bool, bool)> = view
        .tabs
        .iter()
        .map(|tab| (tab.id, tab.selected, tab.muted, tab.bell))
        .collect();
    assert_eq!(shown, vec![(1, false, true, false), (2, true, true, true)]);
    assert_eq!(
        view.toolbar,
        vec![
            ToolbarItem::Restart,
            ToolbarItem::SplitHorizontal { disabled: false },
            ToolbarItem::SplitVertical { disabled: false },
            ToolbarItem::New { disabled: false },
            ToolbarItem::CloseDrawer,
        ]
    );
    assert_eq!(view.body, DrawerBody::Single(2));
    assert!(view.key_bar && view.limit_reached.is_none());
    assert_eq!(drawer.marked_text_range(1), None, "its terminal is not active any more");
    assert!(drawer.split_sizes.is_empty());

    let split = TerminalSplit {
        direction: TerminalSplitDirection::Vertical,
        first: 1,
        second: 2,
    };
    let view = drawer.render(false, &tabs(), Some(1), Some(split), 2, true, true);
    assert_eq!(
        view.toolbar,
        vec![ToolbarItem::New { disabled: true }, ToolbarItem::Overflow]
    );
    assert_eq!(
        view.overflow[0],
        OverflowEntry::Action { action: TerminalOverflow::SplitHorizontal, enabled: false }
    );
    assert_eq!(
        view.overflow[2],
        OverflowEntry::Action { action: TerminalOverflow::Restart, enabled: false }
    );
    assert_eq!(view.body, DrawerBody::Split(split));
    assert_eq!(view.limit_reached, Some(2));
    assert!(!view.key_bar);
    let view = drawer.render(false, &Vec::new(), None, None, 2, true, false);
    assert_eq!(view.body, DrawerBody::Starting);
}

#[test]
fn panes_say_how_their_program_ended() {
    let drawer = TerminalDrawer::new(0);
    let view = drawer.render_terminal(1, Some(1), false, Some(3), true);
    assert!(view.register_input && view.add_context && !view.link_hovered);
    assert_eq!(view.status, ExitStatus::Running);
    let view = drawer.render_terminal(1, Some(2), true, Some(3), false);
    assert!(!view.register_input);
    assert_eq!(view.status, ExitStatus::ExitedWithCode(3));
    assert_eq!(drawer.render_terminal(1, None, true, None, false).status, ExitStatus::Exited);
    assert_eq!(context_menu(false)[0], ContextEntry::Copy { enabled: false });
    assert_eq!(context_menu(true)[5], ContextEntry::AddContext { enabled: true });
}

#[test]
fn frames_blink_and_show_what_is_composed() {
    let state = TerminalModel {
        cols: 1,
        rows: 1,
        lines: vec![vec![tcode_ui::terminal::model::TerminalCell {
            text: "a".to_string(),
            width: tcode_ui::terminal::model::CellWidth::Narrow,
            style: Default::default(),
        }]],
        display_offset: 0,
        cursor: Some((0, 0)),
        cursor_shape: CursorShape::Block,
        cursor_blinking: true,
        selection: vec![None],
        fully_damaged: true,
        damaged: vec![true],
    };
    let color = tcode_ui::theme::color::rgb(0);
    let palette = tcode_ui::terminal::layout::TerminalPalette {
        foreground: color,
        background: color,
        selection: color,
        cursor: color,
        ansi: [color; 16],
    };
    let mut drawer = TerminalDrawer::new(1_000);
    drawer.blink();
    let lit = drawer.render_grid(1, &state, &palette, 1_499);
    assert!(lit.paint.cursor.unwrap().visible, "the cursor shows for a while after input");
    let dark = drawer.render_grid(1, &state, &palette, 1_500);
    assert!(!dark.paint.cursor.unwrap().visible);
    drawer.blink();
    assert!(drawer.render_grid(1, &state, &palette, 1_500).paint.cursor.unwrap().visible);
    drawer.replace_and_mark_text_in_range(1, "に");
    let composing = drawer.render_grid(1, &state, &palette, 1_500);
    assert_eq!(composing.overlay.as_deref(), Some("に"));
    assert!(!composing.paint.cursor.unwrap().visible);
    assert!(drawer.render_grid(2, &state, &palette, 1_500).overlay.is_none());
}

#[test]
fn buttons_that_programs_know_are_reported() {
    assert_eq!(term_mouse_button(MouseButton::Middle), Some(TermMouseButton::Middle));
    assert_eq!(term_mouse_button(MouseButton::Other), None);
}

#[test]
fn drags_past_the_grid_scroll_by_up_to_three_lines() {
    assert_eq!(drag_scroll_lines(-50, 0, 900, 0), Some(1));
    assert_eq!(drag_scroll_lines(-50, 0, 900, 2), Some(2));
    assert_eq!(drag_scroll_lines(9000, 0, 900, 40), Some(-3));
    assert_eq!(drag_scroll_lines(0, 0, 900, 2), None);
    assert_eq!(drag_scroll_lines(900, 0, 900, 2), None);
}
