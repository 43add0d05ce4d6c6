//! What a client remembers of how a conversation is laid out on screen.
use crate::protocol::{copy_text, PixelBits, RightTab};
use vstd::prelude::*;

verus! {

/// A file of a turn's diff that a view asked to bring into sight.
#[derive(Debug)]
pub struct DiffFocus {
    pub session: String,
    pub turn: usize,
    pub path: String,
}

impl Clone for DiffFocus {
    fn clone(&self) -> (copy: Self)
        ensures
            copy == *self,
    {
        DiffFocus { session: self.session.clone(), turn: self.turn, path: self.path.clone() }
    }
}

/// The panels of one conversation.
#[derive(Debug)]
pub struct ConversationUiState {
    pub right_panel_open: bool,
    pub right_tab: RightTab,
    pub right_panel_expanded: bool,
    pub pending_diff_focus: Option<DiffFocus>,
    pub diff_selected_turn: Option<usize>,
    pub diff_refresh_generation: u64,
    pub diff_wrap: bool,
    pub diff_split: bool,
    pub terminal_open: bool,
    pub terminal_height: PixelBits,
    pub preview_url: Option<String>,
    pub preview_canvas: Option<(u32, u32)>,
    /// The user closed the task panel during this turn.
    pub auto_open_task_suppressed: bool,
}

impl Clone for ConversationUiState {
    fn clone(&self) -> (copy: Self)
        ensures
            copy == *self,
    {
        ConversationUiState {
            right_panel_open: self.right_panel_open,
            right_tab: self.right_tab,
            right_panel_expanded: self.right_panel_expanded,
            pending_diff_focus: self.pending_diff_focus.clone(),
            diff_selected_turn: self.diff_selected_turn,
            diff_refresh_generation: self.diff_refresh_generation,
            diff_wrap: self.diff_wrap,
            diff_split: self.diff_split,
            terminal_open: self.terminal_open,
            terminal_height: self.terminal_height,
            preview_url: copy_text(&self.preview_url),
            preview_canvas: self.preview_canvas,
            auto_open_task_suppressed: self.auto_open_task_suppressed,
        }
    }
}

impl ConversationUiState {
    /// The layout of a conversation nobody has arranged yet.
    pub open spec fn fresh(
        diff_wrap: bool,
        terminal_open: bool,
        terminal_height: PixelBits,
    ) -> Self {
        ConversationUiState {
            right_panel_open: false,
            right_tab: RightTab::Diff,
            right_panel_expanded: false,
            pending_diff_focus: None,
            diff_selected_turn: None,
            diff_refresh_generation: 0,
            diff_wrap,
            diff_split: false,
            terminal_open,
            terminal_height,
            preview_url: None,
            preview_canvas: None,
            auto_open_task_suppressed: false,
        }
    }

    pub fn new(diff_wrap: bool, terminal_open: bool, terminal_height: PixelBits) -> (ui: Self)
        ensures
            ui == Self::fresh(diff_wrap, terminal_open, terminal_height),
    {
        ConversationUiState {
            right_panel_open: false,
            right_tab: RightTab::Diff,
            right_panel_expanded: false,
            pending_diff_focus: None,
            diff_selected_turn: None,
            diff_refresh_generation: 0,
            diff_wrap,
            diff_split: false,
            terminal_open,
            terminal_height,
            preview_url: None,
            preview_canvas: None,
            auto_open_task_suppressed: false,
        }
    }

    /// The right panel shows this tab.
    pub open spec fn shows(self, tab: RightTab) -> bool {
        self.right_panel_open && self.right_tab == tab
    }

    pub open spec fn refreshed(self) -> Self {
        ConversationUiState {
            diff_refresh_generation: if self.diff_refresh_generation == u64::MAX {
                0
            } else {
                (self.diff_refresh_generation + 1) as u64
            },
            ..self
        }
    }

    /// Ask the diff view to load again.
    pub fn refresh_diff(&mut self)
        ensures
            *final(self) == old(self).refreshed(),
    {
        self.diff_refresh_generation = self.diff_refresh_generation.wrapping_add(1);
    }

    pub fn discard_diff_focus(&mut self)
        ensures
            *final(self) == (ConversationUiState { pending_diff_focus: None, ..*old(self) }),
    {
        self.pending_diff_focus = None;
    }

    /// A focus is pending for this turn of this session.
    pub open spec fn focuses(self, session: Seq<char>, turn: usize) -> bool {
        self.pending_diff_focus is Some && self.pending_diff_focus->0.session@ == session
            && self.pending_diff_focus->0.turn == turn
    }

    /// Hand out the pending focus if it is for this turn of this session.
    pub fn take_diff_focus(&mut self, session: &str, turn: usize) -> (focus: Option<DiffFocus>)
        ensures
            old(self).focuses(session@, turn) ==> focus == old(self).pending_diff_focus
                && *final(self) == (ConversationUiState { pending_diff_focus: None, ..*old(self) }),
            !old(self).focuses(session@, turn) ==> focus is None && *final(self) == *old(self),
    {
        let matches = match &self.pending_diff_focus {
            Some(focus) => *focus.session.as_str() == *session && focus.turn == turn,
            None => false,
        };
        if matches {
            self.pending_diff_focus.take()
        } else {
            None
        }
    }
}

} // verus!
