//! What the drawer shows.
use crate::command::{Command, TerminalSplitDirection};
use crate::conversation_ui::ConversationUiState;
use crate::keyed::{KeyedMap, KeyedSet};
use crate::protocol::PixelBits;
use crate::store::panels::{dispatched, names_active};
use crate::store::WorkspaceStore;
use crate::terminal::drawer::{DrawerModel, TerminalDrawer, BLINK_MILLIS};
use crate::terminal::grid::{
    cache_follows, cached_for, frame_cursor, layout_grid_cached, served, stacked, FrameInputs,
};
use crate::terminal::key_bar::{StickyModifiers, TerminalKeyEncoder};
use crate::terminal::layout::{
    painted, terminal_color, CursorPaint, GridPaintData, GridTextStyle, PaletteModel,
    TerminalPalette,
};
use crate::terminal::model::{CursorShape, HyperlinkMatch, TerminalModel};
use crate::terminal::selection::{DragModel, SelectionDrag};
use crate::theme::color::Color;
use vstd::prelude::*;
use vstd::string::StrSliceExecFns;

verus! {

/// A terminal of the session.
pub struct TabFacts {
    pub id: u64,
    pub label: String,
    pub exited: bool,
}

/// A tab as it is shown.
pub struct TabView {
    pub id: u64,
    pub label: String,
    pub selected: bool,
    /// Whether the label is written in the muted colour.
    pub muted: bool,
    pub bell: bool,
}

#[verifier::ext_equal]
pub struct TabModel {
    pub id: u64,
    pub label: Seq<char>,
    pub selected: bool,
    pub muted: bool,
    pub bell: bool,
}

impl View for TabView {
    type V = TabModel;

    open spec fn view(&self) -> TabModel {
        TabModel {
            id: self.id,
            label: self.label@,
            selected: self.selected,
            muted: self.muted,
            bell: self.bell,
        }
    }
}

pub open spec fn tab_model(tab: TabFacts, active: Option<u64>, bells: Set<u64>) -> TabModel {
    TabModel {
        id: tab.id,
        label: tab.label@,
        selected: active == Some(tab.id),
        muted: tab.exited || active != Some(tab.id),
        bell: bells.contains(tab.id),
    }
}

/// Two terminals side by side or one above the other.
#[derive(Clone, Copy, Debug, PartialEq, Eq, Structural)]
pub struct TerminalSplit {
    pub direction: TerminalSplitDirection,
    pub first: u64,
    pub second: u64,
}

/// What the toolbar can do.
#[derive(Clone, Copy, Debug, PartialEq, Eq, Structural)]
pub struct ToolbarState {
    /// Whether the session has as many terminals as it may.
    pub at_limit: bool,
    pub can_split: bool,
    pub active_exited: bool,
}

pub open spec fn toolbar_state(
    tabs: Seq<TabFacts>,
    active: Option<u64>,
    split: Option<TerminalSplit>,
    limit: usize,
) -> ToolbarState {
    ToolbarState {
        at_limit: tabs.len() >= limit,
        can_split: tabs.len() < limit && active is Some && split is None,
        active_exited: exists|i: int|
            0 <= i < tabs.len() && active == Some((#[trigger] tabs[i]).id) && tabs[i].exited,
    }
}

/// A control of the toolbar.
#[derive(Clone, Copy, Debug, PartialEq, Eq, Structural)]
pub enum ToolbarItem {
    Restart,
    SplitHorizontal { disabled: bool },
    SplitVertical { disabled: bool },
    New { disabled: bool },
    CloseDrawer,
    /// The menu of what a compact toolbar has no room for.
    Overflow,
}

/// An action of the overflow menu.
#[derive(Clone, Copy, Debug, PartialEq, Eq, Structural)]
pub enum TerminalOverflow {
    SplitHorizontal,
    SplitVertical,
    Restart,
    Close,
}

#[derive(Clone, Copy, Debug, PartialEq, Eq, Structural)]
pub enum OverflowEntry {
    Action { action: TerminalOverflow, enabled: bool },
    Separator,
}

/// The controls of the toolbar. A compact page has one row: a new terminal, and
/// everything else in the overflow menu.
pub open spec fn toolbar_items(state: ToolbarState, compact: bool) -> Seq<ToolbarItem> {
    if compact {
        seq![ToolbarItem::New { disabled: state.at_limit }, ToolbarItem::Overflow]
    } else {
        (if state.active_exited {
            seq![ToolbarItem::Restart]
        } else {
            Seq::empty()
        }) + seq![
            ToolbarItem::SplitHorizontal { disabled: !state.can_split },
            ToolbarItem::SplitVertical { disabled: !state.can_split },
            ToolbarItem::New { disabled: state.at_limit },
            ToolbarItem::CloseDrawer,
        ]
    }
}

pub open spec fn overflow_entries(state: ToolbarState) -> Seq<OverflowEntry> {
    seq![
        OverflowEntry::Action {
            action: TerminalOverflow::SplitHorizontal,
            enabled: state.can_split,
        },
        OverflowEntry::Action { action: TerminalOverflow::SplitVertical, enabled: state.can_split },
        OverflowEntry::Action { action: TerminalOverflow::Restart, enabled: state.active_exited },
        OverflowEntry::Separator,
        OverflowEntry::Action { action: TerminalOverflow::Close, enabled: true },
    ]
}

pub fn toolbar(state: ToolbarState, compact: bool) -> (items: Vec<ToolbarItem>)
    ensures
        items@ == toolbar_items(state, compact),
{
    let mut items: Vec<ToolbarItem> = Vec::new();
    if compact {
        items.push(ToolbarItem::New { disabled: state.at_limit });
        items.push(ToolbarItem::Overflow);
    } else {
        if state.active_exited {
            items.push(ToolbarItem::Restart);
        }
        items.push(ToolbarItem::SplitHorizontal { disabled: !state.can_split });
        items.push(ToolbarItem::SplitVertical { disabled: !state.can_split });
        items.push(ToolbarItem::New { disabled: state.at_limit });
        items.push(ToolbarItem::CloseDrawer);
    }
    assert(items@ =~= toolbar_items(state, compact));
    items
}

pub fn overflow_menu(state: ToolbarState) -> (entries: Vec<OverflowEntry>)
    ensures
        entries@ == overflow_entries(state),
{
    let mut entries: Vec<OverflowEntry> = Vec::new();
    entries.push(
        OverflowEntry::Action {
            action: TerminalOverflow::SplitHorizontal,
            enabled: state.can_split,
        },
    );
    entries.push(
        OverflowEntry::Action { action: TerminalOverflow::SplitVertical, enabled: state.can_split },
    );
    entries.push(
        OverflowEntry::Action { action: TerminalOverflow::Restart, enabled: state.active_exited },
    );
    entries.push(OverflowEntry::Separator);
    entries.push(OverflowEntry::Action { action: TerminalOverflow::Close, enabled: true });
    assert(entries@ =~= overflow_entries(state));
    entries
}

/// What fills the drawer below its toolbar.
#[derive(Clone, Copy, Debug, PartialEq, Eq, Structural)]
pub enum DrawerBody {
    /// No terminal is there yet.
    Starting,
    Single(u64),
    Split(TerminalSplit),
}

pub open spec fn drawer_body(active: Option<u64>, split: Option<TerminalSplit>) -> DrawerBody {
    match split {
        Some(s) => DrawerBody::Split(s),
        None => match active {
            Some(id) => DrawerBody::Single(id),
            None => DrawerBody::Starting,
        },
    }
}

/// The drawer as it is shown.
pub struct DrawerView {
    pub tabs: Vec<TabView>,
    pub toolbar: Vec<ToolbarItem>,
    pub overflow: Vec<OverflowEntry>,
    /// The limit of terminals, where the session is at it: the tooltip of the
    /// control for a new terminal then says so.
    pub limit_reached: Option<usize>,
    pub body: DrawerBody,
    pub key_bar: bool,
}

impl DrawerModel {
    /// Whether each kept layout has a place for each row.
    pub open spec fn well_formed(self) -> bool {
        forall|id: u64| #[trigger]
            self.row_layout_cache.contains_key(id) ==> self.row_layout_cache[id].well_formed()
    }

    /// A drawer that was just opened.
    pub open spec fn opened(now: u64) -> DrawerModel {
        DrawerModel {
            sticky: StickyModifiers::cleared(),
            split_sizes: Seq::empty(),
            row_layout_cache: Map::empty(),
            drag: DragModel::idle(),
            marked_text: None,
            bell_tabs: Set::empty(),
            hovered_link: None,
            pressed_link: None,
            last_link_hover: None,
            cursor_phase: true,
            last_input: now,
            terminal_focused: false,
            current_size: None,
        }
    }

    /// The drawer once it was shown: a composition lasts only while its terminal
    /// is active, and the sizes of a split only while there is one.
    pub open spec fn shown(
        self,
        focused: bool,
        active: Option<u64>,
        split: Option<TerminalSplit>,
    ) -> DrawerModel {
        DrawerModel {
            terminal_focused: focused,
            marked_text: match self.marked_text {
                Some(marked) => if active == Some(marked.0) {
                    self.marked_text
                } else {
                    None
                },
                None => None,
            },
            split_sizes: if split is None {
                Seq::empty()
            } else {
                self.split_sizes
            },
            ..self
        }
    }
}

impl TerminalDrawer {
    pub fn new(now: u64) -> (drawer: Self)
        ensures
            drawer@ == DrawerModel::opened(now),
            drawer@.well_formed(),
    {
        let drawer = TerminalDrawer {
            key_encoder: TerminalKeyEncoder::new(),
            split_sizes: Vec::new(),
            row_layout_cache: KeyedMap::new(),
            selection_drag: SelectionDrag::default(),
            marked_text: None,
            bell_tabs: KeyedSet::new(),
            hovered_link: None,
            pressed_link: None,
            last_link_hover: None,
            cursor_phase: true,
            last_input: now,
            terminal_focused: false,
            current_size: None,
        };
        assert(drawer@ =~= DrawerModel::opened(now));
        drawer
    }

    pub fn is_size(&self, width: PixelBits, height: PixelBits) -> (same: bool)
        ensures
            same == (self.current_size == Some((width, height))),
    {
        match self.current_size {
            Some(size) => size.0 == width && size.1 == height,
            None => false,
        }
    }

    /// Lay the drawer out at a size; a new one is remembered by the store.
    pub fn resize(&mut self, width: PixelBits, height: PixelBits, store: &mut WorkspaceStore)
        ensures
            final(self)@ == (DrawerModel { current_size: Some((width, height)), ..old(self)@ }),
            if old(self).current_size == Some((width, height)) {
                *final(store) == *old(store)
            } else {
                exists|session_id: String| #[trigger]
                    names_active(old(store)@, session_id) && final(store)@
                        == old(store)@.map_active_ui(
                        |ui: ConversationUiState|
                            ConversationUiState { terminal_height: height, ..ui },
                    ).dispatch(Command::SetTerminalHeight { session_id, height })
            },
    {
        if self.is_size(width, height) {
            return;
        }
        self.current_size = Some((width, height));
        store.set_terminal_height(height);
    }

    /// The cursor's phase changes.
    pub fn blink(&mut self)
        ensures
            final(self)@ == (DrawerModel {
                cursor_phase: !old(self)@.cursor_phase,
                ..old(self)@
            }),
    {
        self.cursor_phase = !self.cursor_phase;
    }

    fn tab_views(&self, tabs: &Vec<TabFacts>, active: Option<u64>) -> (views: Vec<TabView>)
        ensures
            views@.len() == tabs@.len(),
            forall|i: int|
                0 <= i < tabs@.len() ==> (#[trigger] views@[i])@ == tab_model(
                    tabs@[i],
                    active,
                    self@.bell_tabs,
                ),
    {
        let mut views: Vec<TabView> = Vec::new();
        let mut i: usize = 0;
        while i < tabs.len()
            invariant
                i <= tabs@.len(),
                views@.len() == i,
                forall|j: int|
                    0 <= j < i ==> (#[trigger] views@[j])@ == tab_model(
                        tabs@[j],
                        active,
                        self@.bell_tabs,
                    ),
            decreases tabs@.len() - i,
        {
            let tab = &tabs[i];
            let selected = match active {
                Some(id) => id == tab.id,
                None => false,
            };
            views.push(
                TabView {
                    id: tab.id,
                    label: tab.label.clone(),
                    selected,
                    muted: tab.exited || !selected,
                    bell: self.bell_tabs.contains(&tab.id),
                },
            );
            i += 1;
        }
        views
    }

    /// Show the drawer.
    pub fn render(
        &mut self,
        focused: bool,
        tabs: &Vec<TabFacts>,
        active: Option<u64>,
        split: Option<TerminalSplit>,
        limit: usize,
        compact: bool,
        uses_soft_keyboard: bool,
    ) -> (view: DrawerView)
        ensures
            final(self)@ == old(self)@.shown(focused, active, split),
            view.tabs@.len() == tabs@.len(),
            forall|i: int|
                0 <= i < tabs@.len() ==> (#[trigger] view.tabs@[i])@ == tab_model(
                    tabs@[i],
                    active,
                    old(self)@.bell_tabs,
                ),
            view.toolbar@ == toolbar_items(toolbar_state(tabs@, active, split, limit), compact),
            view.overflow@ == overflow_entries(toolbar_state(tabs@, active, split, limit)),
            view.limit_reached == if tabs@.len() >= limit {
                Some(limit)
            } else {
                None
            },
            view.body == drawer_body(active, split),
            view.key_bar == (focused && uses_soft_keyboard),
    {
        self.terminal_focused = focused;
        let stale = match (&self.marked_text, active) {
            (Some(marked), Some(id)) => marked.terminal_id != id,
            (Some(_), None) => true,
            (None, _) => false,
        };
        if stale {
            self.marked_text = None;
        }
        if split.is_none() {
            self.split_sizes = Vec::new();
        }
        assert(self@ =~= old(self)@.shown(focused, active, split));
        let views = self.tab_views(tabs, active);
        let mut active_exited = false;
        let mut i: usize = 0;
        while i < tabs.len()
            invariant
                i <= tabs@.len(),
                active_exited == exists|j: int|
                    0 <= j < i && active == Some((#[trigger] tabs@[j]).id) && tabs@[j].exited,
            decreases tabs@.len() - i,
        {
            let here = match active {
                Some(id) => id == tabs[i].id,
                None => false,
            };
            if here && tabs[i].exited {
                assert(active == Some(tabs@[i as int].id));
                active_exited = true;
            }
            i += 1;
        }
        let at_limit = tabs.len() >= limit;
        let state = ToolbarState {
            at_limit,
            can_split: !at_limit && active.is_some() && split.is_none(),
            active_exited,
        };
        assert(state == toolbar_state(tabs@, active, split, limit));
        let body = match split {
            Some(s) => DrawerBody::Split(s),
            None => match active {
                Some(id) => DrawerBody::Single(id),
                None => DrawerBody::Starting,
            },
        };
        DrawerView {
            tabs: views,
            toolbar: toolbar(state, compact),
            overflow: overflow_menu(state),
            limit_reached: if at_limit {
                Some(limit)
            } else {
                None
            },
            body,
            key_bar: focused && uses_soft_keyboard,
        }
    }
}

/// Perform an action of the overflow menu.
pub fn on_overflow(action: TerminalOverflow, store: &mut WorkspaceStore)
    ensures
        match action {
            TerminalOverflow::SplitHorizontal => dispatched(
                old(store)@,
                final(store)@,
                |session_id: String|
                    Command::SplitTerminal {
                        session_id,
                        direction: TerminalSplitDirection::Horizontal,
                    },
            ),
            TerminalOverflow::SplitVertical => dispatched(
                old(store)@,
                final(store)@,
                |session_id: String|
                    Command::SplitTerminal {
                        session_id,
                        direction: TerminalSplitDirection::Vertical,
                    },
            ),
            TerminalOverflow::Restart => dispatched(
                old(store)@,
                final(store)@,
                |session_id: String| Command::RestartTerminal { session_id },
            ),
            TerminalOverflow::Close => exists|session_id: String| #[trigger]
                names_active(old(store)@, session_id) && final(store)@ == old(store)@.map_active_ui(
                    |ui: ConversationUiState| ConversationUiState { terminal_open: false, ..ui },
                ).dispatch(Command::CloseTerminalPanel { session_id }),
        },
{
    match action {
        TerminalOverflow::SplitHorizontal => store.split_terminal(
            TerminalSplitDirection::Horizontal,
        ),
        TerminalOverflow::SplitVertical => store.split_terminal(TerminalSplitDirection::Vertical),
        TerminalOverflow::Restart => store.restart_terminal(),
        TerminalOverflow::Close => store.close_terminal_panel(),
    }
}

/// How a terminal's program ended.
#[derive(Clone, Copy, Debug, PartialEq, Eq, Structural)]
pub enum ExitStatus {
    Running,
    Exited,
    ExitedWithCode(i32),
}

/// An entry of a terminal's menu.
#[derive(Clone, Copy, Debug, PartialEq, Eq, Structural)]
pub enum ContextEntry {
    Copy { enabled: bool },
    Paste,
    SelectAll,
    Clear,
    Separator,
    AddContext { enabled: bool },
}

/// The menu of a terminal.
pub fn context_menu(has_selection: bool) -> (entries: Vec<ContextEntry>)
    ensures
        entries@ == seq![
            ContextEntry::Copy { enabled: has_selection },
            ContextEntry::Paste,
            ContextEntry::SelectAll,
            ContextEntry::Clear,
            ContextEntry::Separator,
            ContextEntry::AddContext { enabled: has_selection },
        ],
{
    let entries = vec![
        ContextEntry::Copy { enabled: has_selection },
        ContextEntry::Paste,
        ContextEntry::SelectAll,
        ContextEntry::Clear,
        ContextEntry::Separator,
        ContextEntry::AddContext { enabled: has_selection },
    ];
    assert(entries@ =~= seq![
        ContextEntry::Copy { enabled: has_selection },
        ContextEntry::Paste,
        ContextEntry::SelectAll,
        ContextEntry::Clear,
        ContextEntry::Separator,
        ContextEntry::AddContext { enabled: has_selection },
    ]);
    entries
}

/// A terminal as it is shown around its grid.
#[derive(Clone, Copy, Debug, PartialEq, Eq, Structural)]
pub struct PaneView {
    /// Whether keys and composed text go to it.
    pub register_input: bool,
    pub status: ExitStatus,
    /// Whether the button that hands the selection to the agent lies over it.
    pub add_context: bool,
    /// Whether the pointer shows that a link is under it.
    pub link_hovered: bool,
}

impl TerminalDrawer {
    /// What is shown around a terminal's grid.
    pub fn render_terminal(
        &self,
        terminal_id: u64,
        active: Option<u64>,
        exited: bool,
        exit_code: Option<i32>,
        has_selection: bool,
    ) -> (view: PaneView)
        ensures
            view == (PaneView {
                register_input: active == Some(terminal_id),
                status: if !exited {
                    ExitStatus::Running
                } else {
                    match exit_code {
                        Some(code) => ExitStatus::ExitedWithCode(code),
                        None => ExitStatus::Exited,
                    }
                },
                add_context: has_selection,
                link_hovered: hovers(self@, terminal_id) is Some,
            }),
    {
        let register_input = match active {
            Some(id) => id == terminal_id,
            None => false,
        };
        let status = if !exited {
            ExitStatus::Running
        } else {
            match exit_code {
                Some(code) => ExitStatus::ExitedWithCode(code),
                None => ExitStatus::Exited,
            }
        };
        let link_hovered = match &self.hovered_link {
            Some(hovered) => hovered.terminal_id == terminal_id,
            None => false,
        };
        PaneView { register_input, status, add_context: has_selection, link_hovered }
    }
}

/// The link that the pointer hovers over in a terminal.
pub open spec fn hovers(drawer: DrawerModel, terminal_id: u64) -> Option<HyperlinkMatch> {
    match drawer.hovered_link {
        Some(hovered) => if hovered.0 == terminal_id {
            Some(hovered.1)
        } else {
            None
        },
        None => None,
    }
}

/// The text composed over a terminal.
pub open spec fn composed(drawer: DrawerModel, terminal_id: u64) -> Option<Seq<char>> {
    match drawer.marked_text {
        Some(marked) => if marked.0 == terminal_id {
            Some(marked.1)
        } else {
            None
        },
        None => None,
    }
}

/// Whether a blinking cursor shows: in its phase, and for a while after input.
pub open spec fn cursor_is_lit(drawer: DrawerModel, now: u64) -> bool {
    drawer.cursor_phase || now - drawer.last_input < BLINK_MILLIS
}

/// Whether a frame is drawn from what the drawer holds.
pub open spec fn frame_of(
    drawer: DrawerModel,
    terminal_id: u64,
    now: u64,
    inputs: FrameInputs,
) -> bool {
    &&& inputs.focused == drawer.terminal_focused
    &&& inputs.blink_phase == cursor_is_lit(drawer, now)
    &&& match (inputs.marked_text, composed(drawer, terminal_id)) {
        (Some(got), Some(want)) => got@ == want,
        (None, None) => true,
        _ => false,
    }
    &&& match (inputs.hovered_link, hovers(drawer, terminal_id)) {
        (Some(got), Some(want)) => *got == want,
        (None, None) => true,
        _ => false,
    }
}

/// What is painted of a terminal.
pub struct GridFrame {
    pub paint: GridPaintData,
    /// The composed text painted over the cursor.
    pub overlay: Option<String>,
}

impl TerminalDrawer {
    /// Lay a terminal's grid out for a frame.
    pub fn render_grid(
        &mut self,
        terminal_id: u64,
        state: &TerminalModel,
        palette: &TerminalPalette,
        now: u64,
    ) -> (frame: GridFrame)
        requires
            old(self)@.well_formed(),
        ensures
            final(self)@.well_formed(),
            final(self)@ == (DrawerModel {
                row_layout_cache: final(self)@.row_layout_cache,
                ..old(self)@
            }),
            exists|inputs: FrameInputs| #[trigger]
                frame_of(old(self)@, terminal_id, now, inputs) && frame.paint.model() == stacked(
                    served(
                        cached_for(old(self)@.row_layout_cache, terminal_id),
                        state,
                        palette@,
                        inputs,
                    ),
                ) && frame.paint.cursor == frame_cursor(state, palette@, inputs) && cache_follows(
                    final(self)@.row_layout_cache[terminal_id],
                    cached_for(old(self)@.row_layout_cache, terminal_id),
                    state,
                    palette@,
                    inputs,
                ),
            final(self)@.row_layout_cache == old(self)@.row_layout_cache.insert(
                terminal_id,
                final(self)@.row_layout_cache[terminal_id],
            ),
            match (frame.overlay, composed(old(self)@, terminal_id)) {
                (Some(text), Some(marked)) => text@ == marked && marked.len() > 0
                    && frame.paint.cursor is Some,
                (Some(_), None) => false,
                (None, Some(marked)) => marked.len() == 0 || frame.paint.cursor is None,
                (None, None) => true,
            },
    {
        let marked_text: Option<&str> = match &self.marked_text {
            Some(marked) => if marked.terminal_id == terminal_id {
                Some(marked.text.as_str())
            } else {
                None
            },
            None => None,
        };
        let hovered_link: Option<&HyperlinkMatch> = match &self.hovered_link {
            Some(hovered) => if hovered.terminal_id == terminal_id {
                Some(&hovered.link)
            } else {
                None
            },
            None => None,
        };
        let blink_phase = self.cursor_phase || now < self.last_input || now - self.last_input
            < BLINK_MILLIS;
        let inputs = FrameInputs {
            marked_text,
            hovered_link,
            focused: self.terminal_focused,
            blink_phase,
        };
        assert(frame_of(old(self)@, terminal_id, now, inputs));
        assert(old(self)@.row_layout_cache.contains_key(terminal_id)
            ==> old(self)@.row_layout_cache[terminal_id].well_formed());
        let paint = layout_grid_cached(
            &mut self.row_layout_cache,
            terminal_id,
            state,
            palette,
            inputs,
        );
        let overlay = match marked_text {
            Some(text) => if text.unicode_len() > 0 && paint.cursor.is_some() {
                Some(text.to_string())
            } else {
                None
            },
            None => None,
        };
        assert forall|id: u64| #[trigger]
            self@.row_layout_cache.contains_key(
                id,
            ) implies self@.row_layout_cache[id].well_formed() by {
            if id != terminal_id {
                assert(old(self)@.row_layout_cache.contains_key(id));
            }
        }
        GridFrame { paint, overlay }
    }
}

/// What is filled for a cursor.
#[derive(Clone, Copy, Debug, PartialEq, Eq, Structural)]
pub enum CursorStroke {
    Nothing,
    /// The edges of its cell.
    Outline,
    /// The left edge.
    Beam,
    /// The lower edge.
    Underline,
    /// The whole cell.
    Block,
}

/// How a cursor is painted: only its outline where the terminal has no focus.
pub fn cursor_stroke(cursor: Option<CursorPaint>, show_cursor: bool) -> (stroke: CursorStroke)
    ensures
        stroke == (match cursor {
            Some(c) => if !show_cursor || !c.visible {
                CursorStroke::Nothing
            } else if !c.focused {
                CursorStroke::Outline
            } else {
                match c.shape {
                    CursorShape::Beam => CursorStroke::Beam,
                    CursorShape::Underline => CursorStroke::Underline,
                    CursorShape::Block => CursorStroke::Block,
                    CursorShape::Hidden => CursorStroke::Nothing,
                }
            },
            None => CursorStroke::Nothing,
        }),
{
    match cursor {
        Some(c) => if !show_cursor || !c.visible {
            CursorStroke::Nothing
        } else if !c.focused {
            CursorStroke::Outline
        } else {
            match c.shape {
                CursorShape::Beam => CursorStroke::Beam,
                CursorShape::Underline => CursorStroke::Underline,
                CursorShape::Block => CursorStroke::Block,
                CursorShape::Hidden => CursorStroke::Nothing,
            }
        },
        None => CursorStroke::Nothing,
    }
}

/// How the text of a run is painted.
#[derive(Clone, Copy, Debug, PartialEq, Eq, Structural)]
pub struct RunPaint {
    pub bold: bool,
    pub italic: bool,
    pub color: Color,
    pub underline: bool,
    pub wavy: bool,
}

/// Text under a block cursor is painted in its background's colour; its line, if
/// any, has the colour of the text.
pub fn run_paint(style: GridTextStyle, palette: &TerminalPalette) -> (paint: RunPaint)
    ensures
        paint == (RunPaint {
            bold: style.bold,
            italic: style.italic,
            color: painted(
                if style.cursor {
                    style.bg
                } else {
                    style.fg
                },
                palette@,
            ),
            underline: style.underline,
            wavy: style.underline && style.underline_wavy,
        }),
{
    let color = if style.cursor {
        terminal_color(style.bg, palette)
    } else {
        terminal_color(style.fg, palette)
    };
    RunPaint {
        bold: style.bold,
        italic: style.italic,
        color,
        underline: style.underline,
        wavy: style.underline && style.underline_wavy,
    }
}

/// Whatever is composed is shown only over the terminal it is composed in, and
/// hides the cursor there.
pub proof fn law_a_composition_hides_the_cursor(
    drawer: DrawerModel,
    terminal_id: u64,
    now: u64,
    inputs: FrameInputs,
    state: &TerminalModel,
    palette: PaletteModel,
)
    requires
        frame_of(drawer, terminal_id, now, inputs),
        composed(drawer, terminal_id) is Some,
        frame_cursor(state, palette, inputs) is Some,
    ensures
        !frame_cursor(state, palette, inputs)->0.visible,
{
}

} // verus!
