//! The panels of the conversation on screen.
use crate::command::Command;
use crate::conversation_ui::{ConversationUiState, DiffFocus};
use crate::protocol::{
    copy_text, ConversationDestination, DestinationName, PixelBits, RightTab,
    DEFAULT_TERMINAL_HEIGHT,
};
use crate::store::model::StoreModel;
use crate::store::WorkspaceStore;
use vstd::prelude::*;

verus! {

impl StoreModel {
    /// The client state of the conversation on screen.
    pub open spec fn active_ui(self) -> Option<ConversationUiState> {
        match self.destination {
            Some(destination) => if self.conversation_ui.contains_key(destination@) {
                Some(self.conversation_ui[destination@])
            } else {
                None
            },
            None => None,
        }
    }

    /// The store with other client state for the conversation on screen.
    pub open spec fn set_active_ui(self, ui: ConversationUiState) -> Self {
        StoreModel {
            conversation_ui: self.conversation_ui.insert(self.destination->0@, ui),
            ..self
        }
    }

    pub open spec fn turn_running(self) -> bool {
        self.status is Some && self.status->0.turn_running
    }

    /// Closing the panel during a turn keeps the turn's tasks from opening it
    /// again.
    pub open spec fn closed_by_user(self, ui: ConversationUiState) -> ConversationUiState {
        ConversationUiState {
            auto_open_task_suppressed: ui.auto_open_task_suppressed || self.turn_running(),
            ..ui
        }
    }

    /// The right panel shows this tab of the conversation on screen.
    pub open spec fn panel_shows(self, tab: RightTab) -> bool {
        self.active_ui() is Some && self.active_ui()->0.shows(tab)
    }

    pub open spec fn diff_toggled(self) -> Self {
        match self.active_ui() {
            Some(ui) => if ui.shows(RightTab::Diff) {
                self.set_active_ui(
                    self.closed_by_user(
                        ConversationUiState {
                            right_panel_open: false,
                            pending_diff_focus: None,
                            ..ui
                        },
                    ),
                )
            } else {
                self.set_active_ui(
                    ConversationUiState {
                        right_panel_open: true,
                        right_tab: RightTab::Diff,
                        ..ui
                    }.refreshed(),
                )
            },
            None => self,
        }
    }

    pub open spec fn tab_toggled(self, tab: RightTab) -> Self {
        match self.active_ui() {
            Some(ui) => if ui.shows(tab) {
                self.set_active_ui(
                    self.closed_by_user(ConversationUiState { right_panel_open: false, ..ui }),
                )
            } else {
                self.set_active_ui(
                    ConversationUiState { right_panel_open: true, right_tab: tab, ..ui },
                )
            },
            None => self,
        }
    }

    /// Change the client state of the conversation on screen, if it has any.
    pub open spec fn map_active_ui(
        self,
        change: spec_fn(ConversationUiState) -> ConversationUiState,
    ) -> Self {
        match self.active_ui() {
            Some(ui) => self.set_active_ui(change(ui)),
            None => self,
        }
    }

    /// The conversation a preview of `session_id` belongs to.
    pub open spec fn preview_destination(self, session_id: Seq<char>) -> DestinationName {
        if self.status is Some && self.status->0.session_id@ == session_id && self.destination is Some {
            self.destination->0@
        } else {
            DestinationName::Thread(session_id)
        }
    }
}

impl WorkspaceStore {
    /// The client state of the conversation on screen.
    pub fn active_conversation_ui(&self) -> (ui: Option<&ConversationUiState>)
        ensures
            match ui {
                Some(held) => self@.active_ui() == Some(*held),
                None => self@.active_ui() is None,
            },
    {
        match &self.active_destination {
            Some(destination) => self.conversation_ui.get(destination),
            None => None,
        }
    }

    /// Take the active client state out, to be put back changed.
    fn take_active_ui(&mut self) -> (taken: Option<(ConversationDestination, ConversationUiState)>)
        ensures
            match taken {
                Some(held) => old(self)@.active_ui() == Some(held.1) && old(self)@.destination
                    == Some(held.0) && final(self)@ == (StoreModel {
                    conversation_ui: old(self)@.conversation_ui.remove(held.0@),
                    ..old(self)@
                }),
                None => old(self)@.active_ui() is None && final(self)@ == old(self)@,
            },
    {
        match &self.active_destination {
            Some(active) => {
                let destination = active.clone();
                match self.conversation_ui.remove(&destination) {
                    Some(ui) => Some((destination, ui)),
                    None => {
                        assert(self@ =~= old(self)@);
                        None
                    },
                }
            },
            None => None,
        }
    }

    fn put_ui(&mut self, destination: ConversationDestination, ui: ConversationUiState)
        ensures
            final(self)@ == (StoreModel {
                conversation_ui: old(self)@.conversation_ui.insert(destination@, ui),
                ..old(self)@
            }),
    {
        self.conversation_ui.insert(destination, ui);
    }

    fn active_turn_running(&self) -> (running: bool)
        ensures
            running == self@.turn_running(),
    {
        match &self.session_status_replica {
            Some(status) => status.turn_running,
            None => false,
        }
    }

    /// Open the diff, or close it if it is showing.
    pub fn toggle_diff_panel(&mut self)
        ensures
            final(self)@ == old(self)@.diff_toggled(),
    {
        let running = self.active_turn_running();
        match self.take_active_ui() {
            Some((destination, held)) => {
                let mut ui = held;
                if ui.right_panel_open && ui.right_tab == RightTab::Diff {
                    ui.right_panel_open = false;
                    ui.pending_diff_focus = None;
                    if running {
                        ui.auto_open_task_suppressed = true;
                    }
                } else {
                    ui.right_panel_open = true;
                    ui.right_tab = RightTab::Diff;
                    ui.refresh_diff();
                }
                self.put_ui(destination, ui);
                assert(self@ =~= old(self)@.diff_toggled());
            },
            None => {},
        }
    }

    /// Show a turn's diff. Says whether there is anything to draw again.
    pub fn open_diff_for_turn(&mut self, turn: usize) -> (redraw: bool)
        ensures
            final(self)@ == old(self)@.map_active_ui(
                |ui: ConversationUiState|
                    (ConversationUiState {
                        pending_diff_focus: None,
                        right_panel_open: true,
                        right_tab: RightTab::Diff,
                        diff_selected_turn: Some(turn),
                        ..ui
                    }).refreshed(),
            ),
            redraw == old(self)@.active_ui() is Some,
    {
        match self.take_active_ui() {
            Some((destination, held)) => {
                let mut ui = held;
                ui.pending_diff_focus = None;
                ui.right_panel_open = true;
                ui.right_tab = RightTab::Diff;
                ui.diff_selected_turn = Some(turn);
                ui.refresh_diff();
                self.put_ui(destination, ui);
                assert(self@.conversation_ui =~= old(self)@.conversation_ui.insert(
                    destination@,
                    ui,
                ));
                true
            },
            None => false,
        }
    }

    /// Show one file of a turn's diff.
    pub fn open_diff_for_file(&mut self, turn: usize, path: String) -> (redraw: bool)
        ensures
            match (old(self)@.status, old(self)@.active_ui()) {
                (Some(status), Some(ui)) => redraw && final(self)@ == old(self)@.set_active_ui(
                    (ConversationUiState {
                        right_panel_open: true,
                        right_tab: RightTab::Diff,
                        diff_selected_turn: Some(turn),
                        pending_diff_focus: Some(
                            DiffFocus { session: status.session_id, turn, path },
                        ),
                        ..ui
                    }).refreshed(),
                ),
                _ => !redraw && final(self)@ == old(self)@,
            },
    {
        let session = match &self.session_status_replica {
            Some(status) => status.session_id.clone(),
            None => {
                return false;
            },
        };
        match self.take_active_ui() {
            Some((destination, held)) => {
                let mut ui = held;
                ui.right_panel_open = true;
                ui.right_tab = RightTab::Diff;
                ui.diff_selected_turn = Some(turn);
                ui.pending_diff_focus = Some(DiffFocus { session, turn, path });
                ui.refresh_diff();
                self.put_ui(destination, ui);
                assert(self@.conversation_ui =~= old(self)@.conversation_ui.insert(
                    destination@,
                    ui,
                ));
                true
            },
            None => false,
        }
    }

    /// Choose a turn in the diff panel.
    pub fn select_diff_turn(&mut self, turn: usize) -> (redraw: bool)
        ensures
            final(self)@ == old(self)@.map_active_ui(
                |ui: ConversationUiState|
                    (ConversationUiState {
                        pending_diff_focus: None,
                        diff_selected_turn: Some(turn),
                        ..ui
                    }).refreshed(),
            ),
            redraw == old(self)@.active_ui() is Some,
    {
        match self.take_active_ui() {
            Some((destination, held)) => {
                let mut ui = held;
                ui.pending_diff_focus = None;
                ui.diff_selected_turn = Some(turn);
                ui.refresh_diff();
                self.put_ui(destination, ui);
                assert(self@.conversation_ui =~= old(self)@.conversation_ui.insert(
                    destination@,
                    ui,
                ));
                true
            },
            None => false,
        }
    }

    pub fn discard_diff_focus(&mut self) -> (redraw: bool)
        ensures
            final(self)@ == old(self)@.map_active_ui(
                |ui: ConversationUiState| ConversationUiState { pending_diff_focus: None, ..ui },
            ),
            redraw == old(self)@.active_ui() is Some,
    {
        match self.take_active_ui() {
            Some((destination, held)) => {
                let mut ui = held;
                ui.discard_diff_focus();
                self.put_ui(destination, ui);
                assert(self@.conversation_ui =~= old(self)@.conversation_ui.insert(
                    destination@,
                    ui,
                ));
                true
            },
            None => false,
        }
    }

    /// Close the right panel.
    pub fn close_diff_panel(&mut self)
        ensures
            match old(self)@.active_ui() {
                Some(ui) => final(self)@ == old(self)@.set_active_ui(
                    old(self)@.closed_by_user(
                        ConversationUiState {
                            pending_diff_focus: None,
                            right_panel_open: false,
                            ..ui
                        },
                    ),
                ),
                None => final(self)@ == old(self)@,
            },
    {
        let running = self.active_turn_running();
        match self.take_active_ui() {
            Some((destination, held)) => {
                let mut ui = held;
                ui.pending_diff_focus = None;
                ui.right_panel_open = false;
                if running {
                    ui.auto_open_task_suppressed = true;
                }
                self.put_ui(destination, ui);
                assert(self@.conversation_ui =~= old(self)@.conversation_ui.insert(
                    destination@,
                    ui,
                ));
            },
            None => {},
        }
    }

    pub fn toggle_diff_expanded(&mut self) -> (redraw: bool)
        ensures
            final(self)@ == old(self)@.map_active_ui(
                |ui: ConversationUiState|
                    ConversationUiState { right_panel_expanded: !ui.right_panel_expanded, ..ui },
            ),
            redraw == old(self)@.active_ui() is Some,
    {
        match self.take_active_ui() {
            Some((destination, held)) => {
                let mut ui = held;
                ui.right_panel_expanded = !ui.right_panel_expanded;
                self.put_ui(destination, ui);
                assert(self@.conversation_ui =~= old(self)@.conversation_ui.insert(
                    destination@,
                    ui,
                ));
                true
            },
            None => false,
        }
    }

    pub fn set_right_tab(&mut self, tab: RightTab) -> (redraw: bool)
        ensures
            final(self)@ == old(self)@.map_active_ui(
                |ui: ConversationUiState| ConversationUiState { right_tab: tab, ..ui },
            ),
            redraw == old(self)@.active_ui() is Some,
    {
        match self.take_active_ui() {
            Some((destination, held)) => {
                let mut ui = held;
                ui.right_tab = tab;
                self.put_ui(destination, ui);
                assert(self@.conversation_ui =~= old(self)@.conversation_ui.insert(
                    destination@,
                    ui,
                ));
                true
            },
            None => false,
        }
    }

    fn toggle_tab_panel(&mut self, tab: RightTab)
        ensures
            final(self)@ == old(self)@.tab_toggled(tab),
    {
        let running = self.active_turn_running();
        match self.take_active_ui() {
            Some((destination, held)) => {
                let mut ui = held;
                if ui.right_panel_open && ui.right_tab == tab {
                    ui.right_panel_open = false;
                    if running {
                        ui.auto_open_task_suppressed = true;
                    }
                } else {
                    ui.right_panel_open = true;
                    ui.right_tab = tab;
                }
                self.put_ui(destination, ui);
                assert(self@ =~= old(self)@.tab_toggled(tab));
            },
            None => {},
        }
    }

    /// Open the plan, or close it if it is showing.
    pub fn toggle_plan_panel(&mut self)
        ensures
            final(self)@ == old(self)@.tab_toggled(RightTab::Plan),
    {
        self.toggle_tab_panel(RightTab::Plan);
    }

    /// Open the preview, or close it if it is showing.
    pub fn toggle_preview_panel(&mut self)
        ensures
            final(self)@ == old(self)@.tab_toggled(RightTab::Preview),
    {
        self.toggle_tab_panel(RightTab::Preview);
    }

    /// Close the panel if it shows the preview.
    pub fn close_preview_panel(&mut self) -> (redraw: bool)
        ensures
            redraw == old(self)@.panel_shows(RightTab::Preview),
            redraw ==> final(self)@ == old(self)@.set_active_ui(
                old(self)@.closed_by_user(
                    ConversationUiState { right_panel_open: false, ..old(self)@.active_ui()->0 },
                ),
            ),
            !redraw ==> final(self)@ == old(self)@,
    {
        if !self.preview_panel_showing() {
            return false;
        }
        self.toggle_tab_panel(RightTab::Preview);
        true
    }

    /// Whether the right panel shows the preview.
    pub fn preview_panel_showing(&self) -> (showing: bool)
        ensures
            showing == self@.panel_shows(RightTab::Preview),
    {
        match self.active_conversation_ui() {
            Some(ui) => ui.right_panel_open && ui.right_tab == RightTab::Preview,
            None => false,
        }
    }

    /// Show the preview if it is not showing.
    pub fn open_preview_panel(&mut self) -> (redraw: bool)
        ensures
            redraw == (old(self)@.active_ui() is Some && !old(self)@.panel_shows(
                RightTab::Preview,
            )),
            redraw ==> final(self)@ == old(self)@.set_active_ui(
                ConversationUiState {
                    right_panel_open: true,
                    right_tab: RightTab::Preview,
                    ..old(self)@.active_ui()->0
                },
            ),
            !redraw ==> final(self)@ == old(self)@,
    {
        match self.active_conversation_ui() {
            Some(ui) => {
                if ui.right_panel_open && ui.right_tab == RightTab::Preview {
                    return false;
                }
            },
            None => {
                return false;
            },
        }
        self.toggle_tab_panel(RightTab::Preview);
        true
    }

    /// Show the preview of a session, whether it is on screen or not.
    pub fn open_preview_panel_for(&mut self, session_id: &str)
        ensures
            ({
                let to = old(self)@.preview_destination(session_id@);
                let ui = if old(self)@.conversation_ui.contains_key(to) {
                    old(self)@.conversation_ui[to]
                } else {
                    ConversationUiState::fresh(
                        old(self)@.settings.word_wrap_diffs,
                        false,
                        PixelBits(DEFAULT_TERMINAL_HEIGHT),
                    )
                };
                final(self)@ == (StoreModel {
                    conversation_ui: old(self)@.conversation_ui.insert(
                        to,
                        ConversationUiState {
                            right_panel_open: true,
                            right_tab: RightTab::Preview,
                            ..ui
                        },
                    ),
                    ..old(self)@
                })
            }),
    {
        let on_screen = match &self.session_status_replica {
            Some(status) => *status.session_id.as_str() == *session_id,
            None => false,
        };
        let destination = if on_screen {
            match &self.active_destination {
                Some(active) => active.clone(),
                None => ConversationDestination::Thread(session_id.to_owned()),
            }
        } else {
            ConversationDestination::Thread(session_id.to_owned())
        };
        let mut ui = match self.conversation_ui.remove(&destination) {
            Some(held) => held,
            None => ConversationUiState::new(
                self.settings_replica.word_wrap_diffs,
                false,
                PixelBits(DEFAULT_TERMINAL_HEIGHT),
            ),
        };
        ui.right_panel_open = true;
        ui.right_tab = RightTab::Preview;
        self.put_ui(destination, ui);
        assert(self@.conversation_ui =~= old(self)@.conversation_ui.insert(destination@, ui));
    }

    /// The address a conversation's preview shows.
    pub fn preview_url(&self, destination: &ConversationDestination) -> (url: Option<String>)
        ensures
            url == (if self@.conversation_ui.contains_key(destination@) {
                self@.conversation_ui[destination@].preview_url
            } else {
                None
            }),
    {
        match self.conversation_ui.get(destination) {
            Some(ui) => copy_text(&ui.preview_url),
            None => None,
        }
    }

    pub fn set_preview_url(&mut self, destination: ConversationDestination, url: String) -> (redraw:
        bool)
        ensures
            redraw == old(self)@.conversation_ui.contains_key(destination@),
            redraw ==> final(self)@ == (StoreModel {
                conversation_ui: old(self)@.conversation_ui.insert(
                    destination@,
                    ConversationUiState {
                        preview_url: Some(url),
                        ..old(self)@.conversation_ui[destination@]
                    },
                ),
                ..old(self)@
            }),
            !redraw ==> final(self)@ == old(self)@,
    {
        match self.conversation_ui.remove(&destination) {
            Some(held) => {
                let mut ui = held;
                ui.preview_url = Some(url);
                self.put_ui(destination, ui);
                assert(self@.conversation_ui =~= old(self)@.conversation_ui.insert(
                    destination@,
                    ui,
                ));
                true
            },
            None => {
                assert(self@ =~= old(self)@);
                false
            },
        }
    }

    /// The size a conversation's preview is drawn at.
    pub fn preview_canvas(&self, destination: &ConversationDestination) -> (canvas: Option<
        (u32, u32),
    >)
        ensures
            canvas == (if self@.conversation_ui.contains_key(destination@) {
                self@.conversation_ui[destination@].preview_canvas
            } else {
                None
            }),
    {
        match self.conversation_ui.get(destination) {
            Some(ui) => ui.preview_canvas,
            None => None,
        }
    }

    pub fn set_preview_canvas(
        &mut self,
        destination: ConversationDestination,
        canvas: Option<(u32, u32)>,
    ) -> (redraw: bool)
        ensures
            redraw == old(self)@.conversation_ui.contains_key(destination@),
            redraw ==> final(self)@ == (StoreModel {
                conversation_ui: old(self)@.conversation_ui.insert(
                    destination@,
                    ConversationUiState {
                        preview_canvas: canvas,
                        ..old(self)@.conversation_ui[destination@]
                    },
                ),
                ..old(self)@
            }),
            !redraw ==> final(self)@ == old(self)@,
    {
        match self.conversation_ui.remove(&destination) {
            Some(held) => {
                let mut ui = held;
                ui.preview_canvas = canvas;
                self.put_ui(destination, ui);
                assert(self@.conversation_ui =~= old(self)@.conversation_ui.insert(
                    destination@,
                    ui,
                ));
                true
            },
            None => {
                assert(self@ =~= old(self)@);
                false
            },
        }
    }

    /// Forget a conversation's preview address and size.
    pub fn clear_preview_chrome(&mut self, destination: ConversationDestination) -> (redraw: bool)
        ensures
            redraw == old(self)@.conversation_ui.contains_key(destination@),
            redraw ==> final(self)@ == (StoreModel {
                conversation_ui: old(self)@.conversation_ui.insert(
                    destination@,
                    ConversationUiState {
                        preview_url: None,
                        preview_canvas: None,
                        ..old(self)@.conversation_ui[destination@]
                    },
                ),
                ..old(self)@
            }),
            !redraw ==> final(self)@ == old(self)@,
    {
        match self.conversation_ui.remove(&destination) {
            Some(held) => {
                let mut ui = held;
                ui.preview_url = None;
                ui.preview_canvas = None;
                self.put_ui(destination, ui);
                assert(self@.conversation_ui =~= old(self)@.conversation_ui.insert(
                    destination@,
                    ui,
                ));
                true
            },
            None => {
                assert(self@ =~= old(self)@);
                false
            },
        }
    }

    /// Whether the right panel is open, and its tab.
    pub fn window_caption_state(&self) -> (state: (bool, RightTab))
        ensures
            state == (match self@.active_ui() {
                Some(ui) => (ui.right_panel_open, ui.right_tab),
                None => (false, RightTab::Diff),
            }),
    {
        match self.active_conversation_ui() {
            Some(ui) => (ui.right_panel_open, ui.right_tab),
            None => (false, RightTab::Diff),
        }
    }

    pub fn pending_diff_focus(&self) -> (focus: Option<DiffFocus>)
        ensures
            focus == (match self@.active_ui() {
                Some(ui) => ui.pending_diff_focus,
                None => None,
            }),
    {
        match self.active_conversation_ui() {
            Some(ui) => match &ui.pending_diff_focus {
                Some(focus) => Some(focus.clone()),
                None => None,
            },
            None => None,
        }
    }

    /// Hand out the pending focus if it is for this turn of this session.
    pub fn take_diff_focus(&mut self, session: &str, turn: usize) -> (focus: Option<DiffFocus>)
        ensures
            match old(self)@.active_ui() {
                Some(ui) => if ui.focuses(session@, turn) {
                    focus == ui.pending_diff_focus && final(self)@ == old(self)@.set_active_ui(
                        ConversationUiState { pending_diff_focus: None, ..ui },
                    )
                } else {
                    focus is None && final(self)@ == old(self)@
                },
                None => focus is None && final(self)@ == old(self)@,
            },
    {
        match self.take_active_ui() {
            Some((destination, held)) => {
                let mut ui = held;
                let focus = ui.take_diff_focus(session, turn);
                self.put_ui(destination, ui);
                assert(self@.conversation_ui =~= old(self)@.conversation_ui.insert(
                    destination@,
                    ui,
                ));
                assert(old(self)@.conversation_ui.insert(destination@, held)
                    =~= old(self)@.conversation_ui);
                focus
            },
            None => None,
        }
    }

    pub fn diff_refresh_generation(&self) -> (generation: u64)
        ensures
            generation == (match self@.active_ui() {
                Some(ui) => ui.diff_refresh_generation,
                None => 0,
            }),
    {
        match self.active_conversation_ui() {
            Some(ui) => ui.diff_refresh_generation,
            None => 0,
        }
    }

    /// Whether diffs wrap: as set for the conversation, else as in the
    /// settings.
    pub fn diff_word_wrap(&self) -> (wrap: bool)
        ensures
            wrap == (match self@.active_ui() {
                Some(ui) => ui.diff_wrap,
                None => self@.settings.word_wrap_diffs,
            }),
    {
        match self.active_conversation_ui() {
            Some(ui) => ui.diff_wrap,
            None => self.settings_replica.word_wrap_diffs,
        }
    }

    pub fn diff_split(&self) -> (split: bool)
        ensures
            split == (self@.active_ui() is Some && self@.active_ui()->0.diff_split),
    {
        match self.active_conversation_ui() {
            Some(ui) => ui.diff_split,
            None => false,
        }
    }

    pub fn set_diff_split(&mut self, split: bool) -> (redraw: bool)
        ensures
            final(self)@ == old(self)@.map_active_ui(
                |ui: ConversationUiState| ConversationUiState { diff_split: split, ..ui },
            ),
            redraw == old(self)@.active_ui() is Some,
    {
        match self.take_active_ui() {
            Some((destination, held)) => {
                let mut ui = held;
                ui.diff_split = split;
                self.put_ui(destination, ui);
                assert(self@.conversation_ui =~= old(self)@.conversation_ui.insert(
                    destination@,
                    ui,
                ));
                true
            },
            None => false,
        }
    }

    pub fn toggle_diff_wrap(&mut self) -> (redraw: bool)
        ensures
            final(self)@ == old(self)@.map_active_ui(
                |ui: ConversationUiState| ConversationUiState { diff_wrap: !ui.diff_wrap, ..ui },
            ),
            redraw == old(self)@.active_ui() is Some,
    {
        match self.take_active_ui() {
            Some((destination, held)) => {
                let mut ui = held;
                ui.diff_wrap = !ui.diff_wrap;
                self.put_ui(destination, ui);
                assert(self@.conversation_ui =~= old(self)@.conversation_ui.insert(
                    destination@,
                    ui,
                ));
                true
            },
            None => false,
        }
    }

    fn set_terminal_open(&mut self, open: bool)
        ensures
            final(self)@ == old(self)@.map_active_ui(
                |ui: ConversationUiState| ConversationUiState { terminal_open: open, ..ui },
            ),
    {
        match self.take_active_ui() {
            Some((destination, held)) => {
                let mut ui = held;
                ui.terminal_open = open;
                self.put_ui(destination, ui);
                assert(self@.conversation_ui =~= old(self)@.conversation_ui.insert(
                    destination@,
                    ui,
                ));
            },
            None => {},
        }
    }

    /// Open the terminal drawer, or close it if it is open.
    pub fn toggle_terminal_panel(&mut self)
        ensures
            ({
                let opening = !(old(self)@.active_ui() is Some
                    && old(self)@.active_ui()->0.terminal_open);
                let shown = old(self)@.map_active_ui(
                    |ui: ConversationUiState| ConversationUiState { terminal_open: opening, ..ui },
                );
                exists|session_id: String| #[trigger]
                    names_active(old(self)@, session_id) && final(self)@ == shown.dispatch(
                        if opening {
                            Command::ToggleTerminalPanel { session_id }
                        } else {
                            Command::CloseTerminalPanel { session_id }
                        },
                    )
            }),
    {
        let opening = match self.active_conversation_ui() {
            Some(ui) => !ui.terminal_open,
            None => true,
        };
        self.set_terminal_open(opening);
        let session_id = self.active_id();
        assert(names_active(old(self)@, session_id));
        if opening {
            self.dispatch(Command::ToggleTerminalPanel { session_id });
        } else {
            self.dispatch(Command::CloseTerminalPanel { session_id });
        }
    }

    /// Close the terminal drawer.
    pub fn close_terminal_panel(&mut self)
        ensures
            exists|session_id: String| #[trigger]
                names_active(old(self)@, session_id) && final(self)@ == old(self)@.map_active_ui(
                    |ui: ConversationUiState| ConversationUiState { terminal_open: false, ..ui },
                ).dispatch(Command::CloseTerminalPanel { session_id }),
    {
        self.set_terminal_open(false);
        let session_id = self.active_id();
        assert(names_active(old(self)@, session_id));
        self.dispatch(Command::CloseTerminalPanel { session_id });
    }

    /// Resize the terminal drawer.
    pub fn set_terminal_height(&mut self, height: PixelBits)
        ensures
            exists|session_id: String| #[trigger]
                names_active(old(self)@, session_id) && final(self)@ == old(self)@.map_active_ui(
                    |ui: ConversationUiState| ConversationUiState { terminal_height: height, ..ui },
                ).dispatch(Command::SetTerminalHeight { session_id, height }),
    {
        match self.take_active_ui() {
            Some((destination, held)) => {
                let mut ui = held;
                ui.terminal_height = height;
                self.put_ui(destination, ui);
                assert(self@.conversation_ui =~= old(self)@.conversation_ui.insert(
                    destination@,
                    ui,
                ));
            },
            None => {},
        }
        let session_id = self.active_id();
        assert(names_active(old(self)@, session_id));
        self.dispatch(Command::SetTerminalHeight { session_id, height });
    }

    /// Close one terminal; the last one takes the drawer with it.
    pub fn close_terminal(&mut self, terminal_id: u64)
        ensures
            ({
                let last = old(self)@.status is Some && old(self)@.status->0.terminals@.len() <= 1;
                let shown = if last {
                    old(self)@.map_active_ui(
                        |ui: ConversationUiState|
                            ConversationUiState { terminal_open: false, ..ui },
                    )
                } else {
                    old(self)@
                };
                exists|session_id: String| #[trigger]
                    names_active(old(self)@, session_id) && final(self)@ == shown.dispatch(
                        Command::CloseTerminal { session_id, terminal_id },
                    )
            }),
    {
        let last = match &self.session_status_replica {
            Some(status) => status.terminals.len() <= 1,
            None => false,
        };
        if last {
            self.set_terminal_open(false);
        }
        let session_id = self.active_id();
        assert(names_active(old(self)@, session_id));
        self.dispatch(Command::CloseTerminal { session_id, terminal_id });
    }
}

/// One command about the selected session was queued, and nothing else changed.
pub open spec fn dispatched(
    before: StoreModel,
    after: StoreModel,
    command: spec_fn(String) -> Command,
) -> bool {
    exists|session_id: String| #[trigger]
        names_active(before, session_id) && after == before.dispatch(command(session_id))
}

/// A session id that names the selected session, or is empty when there is
/// none.
pub open spec fn names_active(state: StoreModel, session_id: String) -> bool {
    &&& session_id@ == state.active()
    &&& state.selected is Some ==> session_id == state.selected->0
}

} // verus!
