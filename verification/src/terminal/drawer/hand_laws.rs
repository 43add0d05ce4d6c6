//! What the pointer and the keys do over a terminal.

use super::typing::{
    commit_effects, key_effects, notices_effects, quoted_words, ActivePane, TerminalNotice,
};
use super::{
    down_effects, shortcut, ClipboardShortcut, DrawerModel, Effect, EffectModel, Modifiers,
    MouseButton, MouseDownEvent, PaneFacts, PointedCell, TermMouseButton,
};
use super::pointer::{scroll_effects, MouseMoveEvent, MouseUpEvent};
use crate::terminal::key_bar::TermModifiers;
use crate::terminal::paste::{pasted, quoted};
use crate::terminal::selection::{
    apart, DragModel, ScreenPoint, SelectionDragAction, SelectionKind, SelectionSide,
};
use crate::window_seam::Platform;
use vstd::prelude::*;

verus! {

/// Whether a program gets the modifiers that are held.
pub open spec fn same_modifiers(told: TermModifiers, held: Modifiers) -> bool {
    &&& told.shift == held.shift
    &&& told.alt == held.alt
    &&& told.control == held.control
    &&& told.platform == held.platform
}

/// Whether a button is one that a program knows, under its own name.
pub open spec fn same_button(told: TermMouseButton, held: MouseButton) -> bool {
    match held {
        MouseButton::Left => told == TermMouseButton::Left,
        MouseButton::Middle => told == TermMouseButton::Middle,
        MouseButton::Right => told == TermMouseButton::Right,
        MouseButton::Other => false,
    }
}

/// Whether an effect tells a terminal's program of a button at a cell.
pub open spec fn tells_button(
    effect: EffectModel,
    id: u64,
    at: (usize, usize),
    held: MouseButton,
    modifiers: Modifiers,
    down: bool,
) -> bool {
    match effect {
        Effect::ReportButton { terminal_id, point, button, modifiers: told, pressed } =>
            terminal_id == id && point == at && same_button(button, held) && same_modifiers(
            told,
            modifiers,
        ) && pressed == down,
        _ => false,
    }
}

/// A press over a terminal whose program takes the pointer tells the program which
/// button went down at which cell, and does nothing else to the terminal but make it
/// the active one. The right button opens no menu then.
pub proof fn law_a_program_is_told_of_presses(
    id: u64,
    event: MouseDownEvent,
    cell: PointedCell,
    pane: &PaneFacts,
    platform: Platform,
    primary: Option<&str>,
)
    requires
        pane.routes_mouse,
        event.button != MouseButton::Other,
    ensures
        ({
            let done = down_effects(id, event, Some(cell), Some(pane), platform, primary);
            &&& done[0] == EffectModel::Focus
            &&& done[1] == EffectModel::RequestSoftKeyboard
            &&& done[2] == (EffectModel::Activate { terminal_id: id })
            &&& tells_button(done[3], id, cell.point, event.button, event.modifiers, true)
            &&& if event.button == MouseButton::Right {
                done.len() == 6 && done[4] == EffectModel::StopPropagation && done[5]
                    == EffectModel::Notify
            } else {
                done.len() == 5 && done[4] == EffectModel::Notify
            }
        }),
{
}

/// A release over such a terminal tells the program that the button came up.
pub proof fn law_a_program_is_told_of_releases(
    drawer: DrawerModel,
    id: u64,
    event: MouseUpEvent,
    cell: PointedCell,
    pane: &PaneFacts,
    platform: Platform,
)
    requires
        pane.routes_mouse,
        event.button != MouseButton::Other,
        drawer.drag.selecting != Some(id),
    ensures
        ({
            let done = drawer.release_effects(id, event, Some(cell), Some(pane), platform);
            &&& done.len() == 2
            &&& tells_button(done[0], id, cell.point, event.button, event.modifiers, false)
            &&& done[1] == EffectModel::Notify
        }),
{
}

/// A motion over such a terminal is told once for each cell that the pointer comes
/// to, with the button that is held.
pub proof fn law_a_program_is_told_of_each_cell_once(
    drawer: DrawerModel,
    id: u64,
    event: MouseMoveEvent,
    cell: PointedCell,
    pane: &PaneFacts,
    platform: Platform,
)
    requires
        pane.routes_mouse,
    ensures
        ({
            let done = drawer.move_effects(id, event, cell, pane, platform);
            let after = drawer.moved(id, event, Some(cell), Some(pane), platform);
            let known = drawer.drag.last_reported_point.contains_key(id)
                && drawer.drag.last_reported_point[id] == cell.point;
            &&& known ==> done.len() == 0 && after == drawer
            &&& !known ==> done.len() == 1 && match done[0] {
                Effect::ReportMove { terminal_id, point, button, modifiers } => {
                    &&& terminal_id == id
                    &&& point == cell.point
                    &&& same_modifiers(modifiers, event.modifiers)
                    &&& match (button, event.pressed_button) {
                        (Some(told), Some(held)) => same_button(told, held),
                        (None, Some(held)) => held == MouseButton::Other,
                        (None, None) => true,
                        (Some(_), None) => false,
                    }
                },
                _ => false,
            }
            &&& after.move_effects(id, event, cell, pane, platform).len() == 0
        }),
{
}

/// Where the pointer is the user's, the right button selects the word under it for
/// the menu that opens, unless something is selected.
pub proof fn law_the_right_button_selects_a_word(
    id: u64,
    event: MouseDownEvent,
    cell: PointedCell,
    pane: &PaneFacts,
    platform: Platform,
    primary: Option<&str>,
)
    requires
        !pane.routes_mouse,
        event.button == MouseButton::Right,
    ensures
        ({
            let done = down_effects(id, event, Some(cell), Some(pane), platform, primary);
            let opening = seq![
                EffectModel::Focus,
                EffectModel::RequestSoftKeyboard,
                EffectModel::Activate { terminal_id: id },
            ];
            done == if pane.selected_text is Some {
                opening.push(EffectModel::Notify)
            } else {
                opening.push(
                    EffectModel::StartSelection {
                        terminal_id: id,
                        kind: SelectionKind::Semantic,
                        point: cell.point,
                        side: cell.side,
                    },
                ).push(EffectModel::Notify)
            }
        }),
{
    let done = down_effects(id, event, Some(cell), Some(pane), platform, primary);
    let opening = seq![
        EffectModel::Focus,
        EffectModel::RequestSoftKeyboard,
        EffectModel::Activate { terminal_id: id },
    ];
    if pane.selected_text is Some {
        assert(done =~= opening.push(EffectModel::Notify));
    } else {
        assert(done =~= opening.push(
            EffectModel::StartSelection {
                terminal_id: id,
                kind: SelectionKind::Semantic,
                point: cell.point,
                side: cell.side,
            },
        ).push(EffectModel::Notify));
    }
}

/// The middle button pastes the primary selection on Linux, and there alone: elsewhere
/// it only makes the terminal the active one.
pub proof fn law_the_middle_button_pastes_on_linux(
    drawer: DrawerModel,
    id: u64,
    event: MouseDownEvent,
    cell: PointedCell,
    pane: &PaneFacts,
    platform: Platform,
    primary: Option<&str>,
)
    requires
        !pane.routes_mouse,
        event.button == MouseButton::Middle,
    ensures
        ({
            let done = down_effects(id, event, Some(cell), Some(pane), platform, primary);
            let opening = seq![
                EffectModel::Focus,
                EffectModel::RequestSoftKeyboard,
                EffectModel::Activate { terminal_id: id },
            ];
            &&& platform != Platform::Linux ==> done == opening.push(EffectModel::Notify)
            &&& platform == Platform::Linux && primary is None ==> done == opening.push(
                EffectModel::StopPropagation,
            ).push(EffectModel::Notify)
            &&& platform == Platform::Linux && primary is Some ==> done == opening.push(
                EffectModel::Input {
                    terminal_id: id,
                    text: pasted(primary->0@, pane.bracketed_paste),
                },
            ).push(EffectModel::StopPropagation).push(EffectModel::Notify)
            &&& drawer.pressed(id, event, Some(cell), Some(pane), platform) == drawer
        }),
{
    let done = down_effects(id, event, Some(cell), Some(pane), platform, primary);
    let opening = seq![
        EffectModel::Focus,
        EffectModel::RequestSoftKeyboard,
        EffectModel::Activate { terminal_id: id },
    ];
    if platform != Platform::Linux {
        assert(done =~= opening.push(EffectModel::Notify));
    } else if primary is None {
        assert(done =~= opening.push(EffectModel::StopPropagation).push(EffectModel::Notify));
    } else {
        assert(done =~= opening.push(
            EffectModel::Input {
                terminal_id: id,
                text: pasted(primary->0@, pane.bracketed_paste),
            },
        ).push(EffectModel::StopPropagation).push(EffectModel::Notify));
    }
}

/// Whether the key is held that makes the pointer follow links: Command on macOS,
/// Control elsewhere.
pub open spec fn follows_links(modifiers: Modifiers, platform: Platform) -> bool {
    if platform == Platform::MacOs {
        modifiers.platform
    } else {
        modifiers.control
    }
}

/// A link that is pressed and released under that key is opened, and nothing is
/// selected meanwhile.
pub proof fn law_a_pressed_link_opens_on_release(
    drawer: DrawerModel,
    id: u64,
    down: MouseDownEvent,
    up: MouseUpEvent,
    cell: PointedCell,
    pane: &PaneFacts,
    platform: Platform,
    primary: Option<&str>,
)
    requires
        !pane.routes_mouse,
        pane.link is Some,
        down.button == MouseButton::Left,
        up.button == MouseButton::Left,
        follows_links(down.modifiers, platform),
        follows_links(up.modifiers, platform),
        drawer.drag.selecting != Some(id),
    ensures
        ({
            let held = drawer.pressed(id, down, Some(cell), Some(pane), platform);
            &&& held.drag == drawer.drag
            &&& down_effects(id, down, Some(cell), Some(pane), platform, primary).len() == 4
            &&& held.release_effects(id, up, Some(cell), Some(pane), platform) == seq![
                EffectModel::OpenUrl { url: pane.link->0.url@ },
                EffectModel::Notify,
            ]
        }),
{
    let held = drawer.pressed(id, down, Some(cell), Some(pane), platform);
    assert(held.release_effects(id, up, Some(cell), Some(pane), platform) =~= seq![
        EffectModel::OpenUrl { url: pane.link->0.url@ },
        EffectModel::Notify,
    ]);
}

/// Without that key, or with another button, a release opens nothing.
pub proof fn law_links_open_under_their_key_alone(
    drawer: DrawerModel,
    id: u64,
    event: MouseUpEvent,
    cell: Option<PointedCell>,
    pane: &PaneFacts,
    platform: Platform,
    i: int,
)
    requires
        !follows_links(event.modifiers, platform) || event.button != MouseButton::Left
            || pane.routes_mouse,
        0 <= i < drawer.release_effects(id, event, cell, Some(pane), platform).len(),
    ensures
        !(drawer.release_effects(id, event, cell, Some(pane), platform)[i] is OpenUrl),
{
}

/// The link under the pointer is the one that shows, while the key is held; it is
/// looked up at most every sixteen milliseconds, and no link shows without the key.
pub proof fn law_the_link_under_the_pointer_shows(
    drawer: DrawerModel,
    id: u64,
    event: MouseMoveEvent,
    cell: PointedCell,
    pane: &PaneFacts,
    platform: Platform,
)
    requires
        !pane.routes_mouse,
    ensures
        ({
            let after = drawer.moved(id, event, Some(cell), Some(pane), platform);
            let early = drawer.last_link_hover is Some && event.now - drawer.last_link_hover->0
                < 16;
            &&& !follows_links(event.modifiers, platform) ==> after.hovered_link is None
                && after.last_link_hover == drawer.last_link_hover
            &&& follows_links(event.modifiers, platform) && early ==> after == drawer
            &&& follows_links(event.modifiers, platform) && !early ==> {
                &&& after.last_link_hover == Some(event.now)
                &&& pane.link is None ==> after.hovered_link is None
                &&& pane.link is Some ==> after.hovered_link == Some((id, pane.link->0))
                &&& after.drag == drawer.drag
            }
            &&& drawer.moved(id, event, None, Some(pane), platform).hovered_link is None
        }),
{
}

/// A plain press clears what was selected. Two clicks select a word and three select
/// lines, from the cell under the pointer; Shift with one click extends the selection
/// to that cell; further clicks select nothing.
pub proof fn law_clicks_select(
    drawer: DrawerModel,
    id: u64,
    event: MouseDownEvent,
    cell: PointedCell,
    pane: &PaneFacts,
    platform: Platform,
    primary: Option<&str>,
)
    requires
        !pane.routes_mouse,
        event.button == MouseButton::Left,
        !follows_links(event.modifiers, platform) || pane.link is None,
    ensures
        ({
            let done = down_effects(id, event, Some(cell), Some(pane), platform, primary);
            &&& event.click_count == 1 && !event.modifiers.shift ==> done.len() == 5 && done[3]
                == (EffectModel::ClearSelection { terminal_id: id })
            &&& event.click_count == 1 && event.modifiers.shift ==> done.len() == 5 && done[3] == (
            EffectModel::UpdateSelection { terminal_id: id, point: cell.point, side: cell.side })
            &&& event.click_count == 2 ==> done.len() == 5 && done[3] == (
            EffectModel::StartSelection {
                terminal_id: id,
                kind: SelectionKind::Semantic,
                point: cell.point,
                side: cell.side,
            })
            &&& event.click_count == 3 ==> done.len() == 5 && done[3] == (
            EffectModel::StartSelection {
                terminal_id: id,
                kind: SelectionKind::Lines,
                point: cell.point,
                side: cell.side,
            })
            &&& event.click_count == 0 || event.click_count > 3 ==> done.len() == 4
        }),
{
}

/// A drag from a press selects from the cell that was pressed to the cell under the
/// pointer, and scrolls the history where the pointer leaves the grid and there is a
/// history to scroll.
pub proof fn law_a_drag_selects_and_scrolls(
    drawer: DrawerModel,
    id: u64,
    down: MouseDownEvent,
    from: PointedCell,
    event: MouseMoveEvent,
    cell: PointedCell,
    pane: &PaneFacts,
    platform: Platform,
)
    requires
        !pane.routes_mouse,
        down.button == MouseButton::Left,
        down.click_count == 1,
        !down.modifiers.shift,
        !follows_links(down.modifiers, platform),
        !follows_links(event.modifiers, platform),
        event.pressed_button == Some(MouseButton::Left),
        apart(down.position, event.position),
    ensures
        ({
            let held = drawer.pressed(id, down, Some(from), Some(pane), platform);
            let done = held.move_effects(id, event, cell, pane, platform);
            &&& done.len() >= 2
            &&& done[0] == (EffectModel::StartSelection {
                terminal_id: id,
                kind: SelectionKind::Simple,
                point: from.point,
                side: from.side,
            })
            &&& done[1] == (EffectModel::UpdateSelection {
                terminal_id: id,
                point: cell.point,
                side: cell.side,
            })
            &&& if event.drag_lines is Some && !pane.alt_screen && pane.history_size > 0 {
                done.len() == 3 && done[2] == (EffectModel::Scroll {
                    terminal_id: id,
                    lines: event.drag_lines->0,
                })
            } else {
                done.len() == 2
            }
            &&& held.moved(id, event, Some(cell), Some(pane), platform).drag.selecting == Some(id)
        }),
{
}

/// What was selected by a drag is put on the primary selection when the button comes
/// up, on Linux and there alone; the drag is then over.
pub proof fn law_a_selection_is_put_on_primary_on_linux(
    drawer: DrawerModel,
    id: u64,
    event: MouseUpEvent,
    cell: Option<PointedCell>,
    pane: &PaneFacts,
    platform: Platform,
)
    requires
        !pane.routes_mouse,
        !follows_links(event.modifiers, platform),
        drawer.drag.selecting == Some(id),
    ensures
        ({
            let done = drawer.release_effects(id, event, cell, Some(pane), platform);
            &&& platform == Platform::Linux && pane.selected_text is Some ==> done == seq![
                EffectModel::CopyToPrimary { text: pane.selected_text->0@ },
                EffectModel::Notify,
            ]
            &&& platform != Platform::Linux || pane.selected_text is None ==> done == seq![
                EffectModel::Notify,
            ]
            &&& drawer.released(id).drag.selecting is None
            &&& drawer.released(id).pressed_link is None
        }),
{
    let done = drawer.release_effects(id, event, cell, Some(pane), platform);
    if platform == Platform::Linux && pane.selected_text is Some {
        assert(done =~= seq![
            EffectModel::CopyToPrimary { text: pane.selected_text->0@ },
            EffectModel::Notify,
        ]);
    } else {
        assert(done =~= seq![EffectModel::Notify]);
    }
}

/// The wheel goes to the program where it takes the pointer, as arrow keys to a
/// program on its own screen that asked for them, unless Shift is held, and else to
/// the history. Without whole lines nothing happens.
pub proof fn law_the_wheel_goes_where_it_is_wanted(
    id: u64,
    lines: i32,
    cell: PointedCell,
    modifiers: Modifiers,
    pane: &PaneFacts,
)
    ensures
        scroll_effects(id, 0, Some(cell), modifiers, Some(pane)).len() == 0,
        lines != 0 ==> {
            let done = scroll_effects(id, lines, Some(cell), modifiers, Some(pane));
            &&& done.len() == 3
            &&& done[1] == EffectModel::StopPropagation
            &&& done[2] == EffectModel::Notify
            &&& pane.routes_mouse ==> match done[0] {
                Effect::ReportScroll { terminal_id, point, lines: told, modifiers: held } =>
                    terminal_id == id && point == cell.point && told == lines && same_modifiers(
                    held,
                    modifiers,
                ),
                _ => false,
            }
            &&& !pane.routes_mouse && pane.alt_screen && pane.alternate_scroll && !modifiers.shift
                ==> done[0] == (EffectModel::AltScroll { terminal_id: id, lines })
            &&& !pane.routes_mouse && (!pane.alt_screen || !pane.alternate_scroll
                || modifiers.shift) ==> done[0] == (EffectModel::Scroll { terminal_id: id, lines })
        },
{
}

/// C and V are the clipboard's with Command alone on macOS, and with Control and
/// Shift alone elsewhere; no other key is, and none under other modifiers.
pub proof fn law_the_clipboard_keys(key: Seq<char>, modifiers: Modifiers, mac: bool)
    ensures
        shortcut(key, modifiers, mac) is Some <==> {
            &&& key == seq!['c'] || key == seq!['C'] || key == seq!['v'] || key == seq!['V']
            &&& !modifiers.alt && !modifiers.function
            &&& modifiers.platform == mac && modifiers.control == !mac && modifiers.shift == !mac
        },
        shortcut(key, modifiers, mac) == Some(ClipboardShortcut::Copy) ==> key == seq!['c'] || key
            == seq!['C'],
        shortcut(key, modifiers, mac) == Some(ClipboardShortcut::Paste) ==> key == seq!['v'] || key
            == seq!['V'],
{
}

/// A copy key puts the selected text on the clipboard, a paste key types the
/// clipboard's text into the active terminal, and any other key sends it what the
/// key is encoded as. A key that did something goes no further; one that has no
/// encoding is left to others.
pub proof fn law_what_a_key_does(
    active: &ActivePane,
    clipboard: Option<&str>,
    encoded: Option<Seq<u8>>,
)
    ensures
        key_effects(Some(ClipboardShortcut::Copy), Some(active), clipboard, encoded) == if
            active.selected_text is Some {
            seq![
                EffectModel::CopyToClipboard { text: active.selected_text->0@ },
                EffectModel::StopPropagation,
            ]
        } else {
            seq![EffectModel::StopPropagation]
        },
        key_effects(Some(ClipboardShortcut::Paste), Some(active), clipboard, encoded) == if clipboard
            is Some {
            seq![
                EffectModel::Input {
                    terminal_id: active.terminal_id,
                    text: pasted(clipboard->0@, active.bracketed_paste),
                },
                EffectModel::StopPropagation,
            ]
        } else {
            seq![EffectModel::StopPropagation]
        },
        key_effects(None, Some(active), clipboard, encoded) == if encoded is Some {
            seq![
                EffectModel::Bytes { terminal_id: active.terminal_id, bytes: encoded->0 },
                EffectModel::StopPropagation,
            ]
        } else {
            Seq::<EffectModel>::empty()
        },
        key_effects(None, None, clipboard, encoded).len() == 0,
{
    if active.selected_text is Some {
        assert(key_effects(Some(ClipboardShortcut::Copy), Some(active), clipboard, encoded)
            =~= seq![
            EffectModel::CopyToClipboard { text: active.selected_text->0@ },
            EffectModel::StopPropagation,
        ]);
    } else {
        assert(key_effects(Some(ClipboardShortcut::Copy), Some(active), clipboard, encoded)
            =~= seq![EffectModel::StopPropagation]);
    }
    if clipboard is Some {
        assert(key_effects(Some(ClipboardShortcut::Paste), Some(active), clipboard, encoded)
            =~= seq![
            EffectModel::Input {
                terminal_id: active.terminal_id,
                text: pasted(clipboard->0@, active.bracketed_paste),
            },
            EffectModel::StopPropagation,
        ]);
    } else {
        assert(key_effects(Some(ClipboardShortcut::Paste), Some(active), clipboard, encoded)
            =~= seq![EffectModel::StopPropagation]);
    }
}

/// Input makes the cursor show from then on, and answers the bell of the terminal
/// that was typed into, and nothing else of the drawer changes.
pub proof fn law_input_shows_the_cursor(drawer: DrawerModel, now: u64, active: Option<u64>)
    ensures
        ({
            let after = drawer.noted(now, active);
            &&& after.cursor_phase
            &&& after.last_input == now
            &&& active is None ==> after.bell_tabs == drawer.bell_tabs
            &&& after.sticky == drawer.sticky
            &&& after.marked_text == drawer.marked_text
            &&& after.drag == drawer.drag
            &&& after.pressed_link == drawer.pressed_link
            &&& after.hovered_link == drawer.hovered_link
        }),
{
}

/// A text that a terminal's program put on the clipboard gets there; one for the
/// primary selection does not; and the bell sounds once for each terminal that rang.
pub proof fn law_announcements_are_carried_out(notices: Seq<TerminalNotice>, i: int)
    requires
        0 <= i < notices.len(),
    ensures
        notices[i].bell ==> notices_effects(notices).contains(EffectModel::PlayBell),
        notices[i].clipboard is Some && !notices[i].clipboard->0.selection ==> notices_effects(
            notices,
        ).contains(EffectModel::CopyToClipboard { text: notices[i].clipboard->0.text@ }),
    decreases notices.len(),
{
    let done = notices_effects(notices);
    let before = notices_effects(notices.drop_last());
    if i < notices.len() - 1 {
        law_announcements_are_carried_out(notices.drop_last(), i);
        assert(notices.drop_last()[i] == notices[i]);
        assert forall|k: int| 0 <= k < before.len() implies done[k] == #[trigger] before[k] by {}
        if notices[i].bell {
            let k = choose|k: int| 0 <= k < before.len() && before[k] == EffectModel::PlayBell;
            assert(done[k] == EffectModel::PlayBell);
        }
        if notices[i].clipboard is Some && !notices[i].clipboard->0.selection {
            let want = EffectModel::CopyToClipboard { text: notices[i].clipboard->0.text@ };
            let k = choose|k: int| 0 <= k < before.len() && before[k] == want;
            assert(done[k] == want);
        }
    } else {
        let at = before.len() as int;
        if notices[i].bell {
            assert(done[at] == EffectModel::PlayBell);
        }
        if notices[i].clipboard is Some && !notices[i].clipboard->0.selection {
            let want = EffectModel::CopyToClipboard { text: notices[i].clipboard->0.text@ };
            let k: int = if notices[i].bell { at + 1 } else { at };
            assert(done[k] == want);
        }
    }
}

/// Whether an announcement calls for an effect.
pub open spec fn announced(notice: TerminalNotice, effect: EffectModel) -> bool {
    ||| notice.bell && effect == EffectModel::PlayBell
    ||| notice.clipboard is Some && !notice.clipboard->0.selection && effect == (
    EffectModel::CopyToClipboard { text: notice.clipboard->0.text@ })
}

/// Nothing is done that no terminal announced.
pub proof fn law_only_announcements_are_carried_out(notices: Seq<TerminalNotice>, k: int)
    requires
        0 <= k < notices_effects(notices).len(),
    ensures
        exists|i: int|
            0 <= i < notices.len() && announced(#[trigger] notices[i], notices_effects(notices)[k]),
    decreases notices.len(),
{
    let done = notices_effects(notices);
    let before = notices_effects(notices.drop_last());
    if k < before.len() {
        law_only_announcements_are_carried_out(notices.drop_last(), k);
        let i = choose|i: int|
            0 <= i < notices.drop_last().len() && announced(
                #[trigger] notices.drop_last()[i],
                before[k],
            );
        assert(notices.drop_last()[i] == notices[i]);
        assert(done[k] == before[k]);
        assert(announced(notices[i], done[k]));
    } else {
        assert(announced(notices[notices.len() - 1], done[k]));
    }
}

/// A press in one place ends whatever was selected or held anywhere else.
pub proof fn law_a_press_starts_over(
    drag: DragModel,
    id: u64,
    position: ScreenPoint,
    point: (usize, usize),
    side: SelectionSide,
    click_count: usize,
    shift: bool,
)
    ensures
        ({
            let down = drag.pressed(id, position, point, side, click_count, shift);
            &&& down.selecting is None
            &&& down.mouse_down is Some
            &&& down.mouse_down->0.terminal_id == id
            &&& down.mouse_down->0.position == position
            &&& down.pending_simple is Some <==> click_count == 1 && !shift
            &&& down.last_reported_point == drag.last_reported_point
            &&& down.move_action(id, position, point, side, false) == SelectionDragAction::Nothing
        }),
{
}

/// Committed text is sent to its terminal whole, before the view is drawn again; no
/// bytes are sent where there is nothing to send.
pub proof fn law_committed_text_is_sent(id: u64, bytes: Seq<u8>)
    ensures
        bytes.len() > 0 ==> commit_effects(id, bytes) == seq![
            EffectModel::Bytes { terminal_id: id, bytes },
            EffectModel::Notify,
            EffectModel::InvalidateCoordinates,
        ],
        bytes.len() == 0 ==> commit_effects(id, bytes) == seq![
            EffectModel::Notify,
            EffectModel::InvalidateCoordinates,
        ],
{
    if bytes.len() > 0 {
        assert(commit_effects(id, bytes) =~= seq![
            EffectModel::Bytes { terminal_id: id, bytes },
            EffectModel::Notify,
            EffectModel::InvalidateCoordinates,
        ]);
    } else {
        assert(commit_effects(id, bytes) =~= seq![
            EffectModel::Notify,
            EffectModel::InvalidateCoordinates,
        ]);
    }
}

/// Text is composed over a terminal exactly if the composition is that terminal's.
pub proof fn law_a_composition_is_one_terminals(drawer: DrawerModel, id: u64, other: u64)
    requires
        id != other,
        drawer.composes(id),
    ensures
        drawer.marked_text is Some,
        !drawer.composes(other),
{
}

/// Dropped files are typed as words that a shell takes each for one path, a space
/// between each two.
pub proof fn law_dropped_files_are_words(paths: Seq<String>, more: String)
    ensures
        quoted_words(seq![more]) == quoted(more@),
        paths.len() > 0 ==> quoted_words(paths.push(more)) == quoted_words(paths) + seq![' ']
            + quoted(more@),
        quoted_words(Seq::<String>::empty()).len() == 0,
{
    assert(seq![more].last() == more);
    assert(paths.push(more).drop_last() =~= paths);
    assert(paths.push(more).last() == more);
}

} // verus!
