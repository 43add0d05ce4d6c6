//! What the drawer shows of its terminals.

use super::view::{
    drawer_body, frame_of, overflow_entries, tab_model, toolbar_items, toolbar_state, DrawerBody,
    OverflowEntry, TabFacts, TerminalOverflow, TerminalSplit, ToolbarItem,
};
use super::DrawerModel;
use crate::terminal::grid::FrameInputs;
use crate::terminal::paste::pasted;
use vstd::prelude::*;

verus! {

/// A tab is selected exactly if its terminal is the active one, is written muted unless
/// it is and its program runs, and shows a bell exactly if its terminal rang.
pub proof fn law_tabs_show_their_terminals(tab: TabFacts, active: Option<u64>, bells: Set<u64>)
    ensures
        ({
            let shown = tab_model(tab, active, bells);
            &&& shown.id == tab.id
            &&& shown.label == tab.label@
            &&& shown.selected <==> active is Some && active->0 == tab.id
            &&& shown.muted <==> !(active is Some && active->0 == tab.id && !tab.exited)
            &&& shown.bell <==> bells.contains(tab.id)
        }),
{
}

/// A terminal can be added below the limit, and the active one be split below the limit
/// while nothing is split; it can be restarted exactly if its program ended.
pub proof fn law_what_the_toolbar_can_do(
    tabs: Seq<TabFacts>,
    active: Option<u64>,
    split: Option<TerminalSplit>,
    limit: usize,
)
    ensures
        ({
            let state = toolbar_state(tabs, active, split, limit);
            let full = toolbar_items(state, false);
            let ended = exists|i: int|
                0 <= i < tabs.len() && active == Some((#[trigger] tabs[i]).id) && tabs[i].exited;
            let splits = tabs.len() < limit && active is Some && split is None;
            &&& full.contains(ToolbarItem::New { disabled: tabs.len() >= limit })
            &&& full.contains(ToolbarItem::SplitHorizontal { disabled: !splits })
            &&& full.contains(ToolbarItem::SplitVertical { disabled: !splits })
            &&& full.contains(ToolbarItem::CloseDrawer)
            &&& ended ==> full.len() == 5 && full[0] == ToolbarItem::Restart
            &&& !ended ==> full.len() == 4
        }),
{
    let state = toolbar_state(tabs, active, split, limit);
    let full = toolbar_items(state, false);
    let n = full.len() as int;
    assert(full[n - 4] is SplitHorizontal);
    assert(full[n - 3] is SplitVertical);
    assert(full[n - 2] is New);
    assert(full[n - 1] is CloseDrawer);
}

/// A compact toolbar has a new terminal and the menu, and the menu has the rest: both
/// splits, the restart and, always, closing.
pub proof fn law_a_compact_toolbar_has_a_menu(
    tabs: Seq<TabFacts>,
    active: Option<u64>,
    split: Option<TerminalSplit>,
    limit: usize,
)
    ensures
        ({
            let state = toolbar_state(tabs, active, split, limit);
            let row = toolbar_items(state, true);
            let menu = overflow_entries(state);
            let splits = tabs.len() < limit && active is Some && split is None;
            let ended = exists|i: int|
                0 <= i < tabs.len() && active == Some((#[trigger] tabs[i]).id) && tabs[i].exited;
            &&& row.len() == 2
            &&& row[0] == (ToolbarItem::New { disabled: tabs.len() >= limit })
            &&& row[1] == ToolbarItem::Overflow
            &&& menu.len() == 5
            &&& menu[0] == (OverflowEntry::Action {
                action: TerminalOverflow::SplitHorizontal,
                enabled: splits,
            })
            &&& menu[1] == (OverflowEntry::Action {
                action: TerminalOverflow::SplitVertical,
                enabled: splits,
            })
            &&& menu[2] == (OverflowEntry::Action {
                action: TerminalOverflow::Restart,
                enabled: ended,
            })
            &&& menu[3] == OverflowEntry::Separator
            &&& menu[4] == (OverflowEntry::Action {
                action: TerminalOverflow::Close,
                enabled: true,
            })
        }),
{
}

/// The drawer shows a split where there is one, else the active terminal, and else that
/// a terminal starts.
pub proof fn law_what_fills_the_drawer(active: Option<u64>, split: Option<TerminalSplit>)
    ensures
        split is Some ==> drawer_body(active, split) == DrawerBody::Split(split->0),
        split is None && active is Some ==> drawer_body(active, split) == DrawerBody::Single(
            active->0,
        ),
        split is None && active is None ==> drawer_body(active, split) == DrawerBody::Starting,
{
}

/// Text that is composed stays while its terminal is active and goes with it; the sizes
/// of a split stay while something is split.
pub proof fn law_showing_keeps_what_lasts(
    drawer: DrawerModel,
    focused: bool,
    active: Option<u64>,
    split: Option<TerminalSplit>,
)
    ensures
        ({
            let after = drawer.shown(focused, active, split);
            &&& after.terminal_focused == focused
            &&& drawer.marked_text is Some && active is Some && (drawer.marked_text->0).0
                == active->0 ==> after.marked_text == drawer.marked_text
            &&& active is None ==> after.marked_text is None
            &&& drawer.marked_text is Some && active is Some && (drawer.marked_text->0).0
                != active->0 ==> after.marked_text is None
            &&& split is Some ==> after.split_sizes == drawer.split_sizes
            &&& split is None ==> after.split_sizes.len() == 0
            &&& after.sticky == drawer.sticky
            &&& after.bell_tabs == drawer.bell_tabs
            &&& after.drag == drawer.drag
            &&& after.row_layout_cache == drawer.row_layout_cache
            &&& after.last_input == drawer.last_input
        }),
{
}

/// A drawer opens with nothing held, composed, selected or rung, its cursor showing.
pub proof fn law_a_drawer_opens_plain(now: u64)
    ensures
        ({
            let drawer = DrawerModel::opened(now);
            &&& drawer.cursor_phase
            &&& drawer.last_input == now
            &&& drawer.marked_text is None && drawer.hovered_link is None
                && drawer.pressed_link is None
            &&& drawer.drag.selecting is None && drawer.drag.mouse_down is None
                && drawer.drag.pending_simple is None
            &&& drawer.bell_tabs == Set::<u64>::empty()
            &&& drawer.split_sizes.len() == 0
            &&& !drawer.terminal_focused
            &&& !drawer.sticky.control && !drawer.sticky.alt
        }),
{
}

/// A frame shows the composed text and the link of its own terminal alone, and its
/// cursor for half a second after input and then in its phase.
pub proof fn law_a_frame_shows_its_terminal(
    drawer: DrawerModel,
    terminal_id: u64,
    now: u64,
    inputs: FrameInputs,
)
    requires
        frame_of(drawer, terminal_id, now, inputs),
    ensures
        inputs.focused == drawer.terminal_focused,
        inputs.blink_phase <==> drawer.cursor_phase || now - drawer.last_input < 500,
        inputs.marked_text is Some <==> drawer.marked_text is Some && (drawer.marked_text->0).0
            == terminal_id,
        inputs.hovered_link is Some <==> drawer.hovered_link is Some && (drawer.hovered_link->0).0
            == terminal_id,
        inputs.marked_text is Some ==> inputs.marked_text->0@ == (drawer.marked_text->0).1,
        inputs.hovered_link is Some ==> *inputs.hovered_link->0 == (drawer.hovered_link->0).1,
{
}

/// A bracketed paste is the text between the two marks that programs know, the escape
/// character left out of it.
pub proof fn law_a_bracketed_paste_stands_between_marks(text: Seq<char>)
    requires
        !text.contains('\u{1b}'),
    ensures
        pasted(text, true) == seq!['\u{1b}', '[', '2', '0', '0', '~'] + text
            + seq!['\u{1b}', '[', '2', '0', '1', '~'],
{
    reveal_strlit("\x1b[200~");
    reveal_strlit("\x1b[201~");
    lemma_kept(text);
    assert(pasted(text, true) =~= seq!['\u{1b}', '[', '2', '0', '0', '~'] + text
        + seq!['\u{1b}', '[', '2', '0', '1', '~']);
}

proof fn lemma_kept(text: Seq<char>)
    requires
        !text.contains('\u{1b}'),
    ensures
        crate::terminal::paste::without_escape(text) == text,
    decreases text.len(),
{
    reveal(Seq::filter);
    if text.len() > 0 {
        let init = text.drop_last();
        assert forall|i: int| 0 <= i < init.len() implies init[i] != '\u{1b}' by {
            assert(text.contains(text[i]));
        }
        lemma_kept(init);
        assert(text.contains(text.last()));
        assert(init.push(text.last()) =~= text);
    } else {
        assert(crate::terminal::paste::without_escape(text) =~= text);
    }
}

} // verus!
