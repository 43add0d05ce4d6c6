//! Which conversation is on screen.
use crate::command::{Command, Effect, Outbox, SettingsPatch};
use crate::conversation_ui::ConversationUiState;
use crate::listing::{find_project, find_session};
use crate::protocol::{
    copy_text, ConversationDestination, GitStatusStatus, Project, SessionFlags, SessionStatus,
    StoredEvent, Topic,
};
use crate::store::model::{
    background_only, destination_of, draft_project, flags_of, lemma_cursors_kept, StoreModel,
};
use crate::store::{PendingTurn, WorkspaceStore};
use vstd::prelude::*;

verus! {

/// Working only because provider background tasks are still running.
pub fn status_background_only(status: &SessionStatus) -> (only: bool)
    ensures
        only == background_only(*status),
{
    status.working && !status.turn_running && !status.delivery_in_flight
        && status.queued_messages.len() == 0
}

/// What the sidebar shows of a session once it is parked.
pub fn parked_flags(status: &SessionStatus) -> (flags: SessionFlags)
    ensures
        flags == flags_of(*status),
{
    SessionFlags {
        working: status.working,
        pending_approval: status.pending_approval,
        pending_user_input: status.pending_user_input,
        background_only: status_background_only(status),
    }
}

impl WorkspaceStore {
    /// Where a session's client state belongs.
    pub fn destination(status: &SessionStatus) -> (destination: ConversationDestination)
        ensures
            destination == destination_of(*status),
    {
        if status.draft {
            match &status.project_id {
                Some(project_id) => {
                    return ConversationDestination::ProjectDraft(project_id.clone());
                },
                None => {},
            }
        }
        ConversationDestination::Thread(status.session_id.clone())
    }

    /// Record the project the user navigated into. Called only from user
    /// navigation (opening a thread, starting a draft), because the empty
    /// workspace returns here: background activity must not move it.
    pub(crate) fn remember_project(&mut self, project_id: Option<String>)
        ensures
            final(self)@ == old(self)@.remember(project_id),
    {
        match project_id {
            None => {},
            Some(id) => {
                let known = match &self.settings_replica.last_project_id {
                    Some(last) => *last == id,
                    None => false,
                };
                if !known {
                    self.settings_replica.last_project_id = Some(id.clone());
                    self.dispatch(
                        Command::PatchSettings { patch: SettingsPatch::LastProject(Some(id)) },
                    );
                }
            },
        }
    }

    /// Park the session on screen and show nothing.
    pub fn leave_session(&mut self)
        ensures
            final(self)@ == old(self)@.leave(),
    {
        self.selection_generation = self.selection_generation.wrapping_add(1);
        self.history_error = None;
        self.history_pages_fetched = 0;
        self.history_logged_records = None;
        self.session_turn_offset = 0;
        self.session_catching_up = false;
        self.emit(Effect::CancelHistory);
        self.emit(Effect::ClearTerminalTopics);
        match &self.session_status_replica {
            Some(status) => {
                if !status.draft {
                    self.background_session_flags.insert(
                        status.session_id.clone(),
                        parked_flags(status),
                    );
                }
            },
            None => {},
        }
        match self.selected_session_id.take() {
            Some(id) => {
                self.emit(
                    Effect::Unsubscribe { topic: Topic::SessionEvents { session_id: id.clone() } },
                );
                self.emit(
                    Effect::Unsubscribe { topic: Topic::SessionStatus { session_id: id.clone() } },
                );
                self.emit(Effect::Unsubscribe { topic: Topic::Preview { session_id: id.clone() } });
                self.emit(Effect::Unsubscribe { topic: Topic::GitStatus { session_id: id } });
            },
            None => {},
        }
        self.session_status_replica = None;
        self.session_replica = None;
        self.active_destination = None;
        self.git_status_replica = GitStatusStatus::default();
    }

    fn commits_draft(&self, status: &SessionStatus) -> (commits: bool)
        ensures
            commits == self@.commits_draft(*status),
    {
        match &self.active_destination {
            Some(active) => match active {
                ConversationDestination::ProjectDraft(draft) => {
                    let to_thread = match Self::destination(status) {
                        ConversationDestination::Thread(_) => true,
                        ConversationDestination::ProjectDraft(_) => false,
                    };
                    let same_project = match &status.project_id {
                        Some(project_id) => *project_id == *draft,
                        None => false,
                    };
                    to_thread && same_project && self.conversation_ui.contains_key(active)
                },
                ConversationDestination::Thread(_) => false,
            },
            None => false,
        }
    }

    /// Let the client state of the conversation on screen follow it. A draft
    /// that became a thread takes its state along: it is moved, not copied.
    pub fn sync_active_conversation_ui(&mut self)
        ensures
            final(self)@ == old(self)@.sync_ui(),
    {
        match &self.session_status_replica {
            None => {
                self.active_destination = None;
            },
            Some(status) => {
                let to = Self::destination(status);
                let commits = self.commits_draft(status);
                let wrap = self.settings_replica.word_wrap_diffs;
                let open = status.terminal_open;
                let height = status.terminal_height;
                if commits {
                    match &self.active_destination {
                        Some(active) => match self.conversation_ui.remove(active) {
                            Some(ui) => {
                                self.conversation_ui.insert(to.clone(), ui);
                            },
                            None => {},
                        },
                        None => {},
                    }
                }
                if !self.conversation_ui.contains_key(&to) {
                    self.conversation_ui.insert(
                        to.clone(),
                        ConversationUiState::new(wrap, open, height),
                    );
                }
                self.active_destination = Some(to);
                assert(self@ =~= old(self)@.sync_ui());
            },
        }
    }

    fn enter_session(&mut self, session_id: String)
        requires
            old(self)@.cursors_fit(),
        ensures
            final(self)@ == old(self)@.enter(session_id),
    {
        let ghost before = self@;
        let after: Option<u64> = match self.session_from.get(&session_id) {
            Some(from) => {
                let held: usize = match self.session_records.get(&session_id) {
                    Some(records) => records.len(),
                    None => 0,
                };
                assert(self@.from.contains_key(session_id@));
                assert(self@.records_of(session_id@).len() == held);
                Some(*from + held as u64)
            },
            None => None,
        };
        assert(after == before.resume_after(session_id@));
        if !self.session_records.contains_key(&session_id) {
            self.session_records.insert(session_id.clone(), Vec::new());
        }
        assert(self@.records =~= (if before.records.contains_key(session_id@) {
            before.records
        } else {
            before.records.insert(session_id@, Seq::<StoredEvent>::empty())
        }));
        self.baseline_topics.remove(&Topic::SessionStatus { session_id: session_id.clone() });
        self.baseline_topics.remove(&Topic::SessionEvents { session_id: session_id.clone() });
        self.session_status_replica =
        match self.session_statuses.get(&session_id) {
            Some(status) => Some(status.clone()),
            None => None,
        };
        self.git_status_replica =
        match self.git_statuses.get(&session_id) {
            Some(status) => status.clone(),
            None => GitStatusStatus::default(),
        };
        self.session_replica = None;
        self.selected_session_id = Some(session_id.clone());
        self.emit(
            Effect::Subscribe {
                topic: Topic::SessionStatus { session_id: session_id.clone() },
                after: None,
            },
        );
        self.emit(
            Effect::Subscribe {
                topic: Topic::GitStatus { session_id: session_id.clone() },
                after: None,
            },
        );
        // A client with no preview backend must not become a competing owner of
        // the session's preview: it would win requests it can only refuse.
        if self.preview_backend {
            self.emit(
                Effect::Subscribe {
                    topic: Topic::Preview { session_id: session_id.clone() },
                    after: None,
                },
            );
        }
        self.emit(Effect::Subscribe { topic: Topic::SessionEvents { session_id }, after });
        self.emit(Effect::SyncTerminalTopics);
        self.sync_active_conversation_ui();
    }

    fn project_of(&self, session_id: &str) -> (project: Option<String>)
        ensures
            project == self@.project_of(session_id@),
    {
        match find_session(&self.sessions, session_id) {
            Some(i) => copy_text(&self.sessions[i].project_id),
            None => None,
        }
    }

    /// Show a session. Selecting the one on screen changes nothing.
    pub fn select_session(&mut self, session_id: String)
        requires
            old(self)@.cursors_fit(),
        ensures
            final(self)@ == old(self)@.select(session_id),
    {
        if self.selects(session_id.as_str()) {
            return;
        }
        let project_id = self.project_of(session_id.as_str());
        self.remember_project(project_id);
        self.leave_session();
        proof {
            lemma_cursors_kept(old(self)@, self@);
        }
        self.enter_session(session_id);
    }

    /// Show a turn of a session, once it is on screen.
    pub fn select_session_at_turn(&mut self, session_id: String, turn: usize)
        requires
            old(self)@.cursors_fit(),
        ensures
            final(self)@ == (StoreModel {
                pending_chat_turn: Some(PendingTurn { session_id, turn }),
                ..old(self)@
            }).select(session_id),
    {
        self.pending_chat_turn = Some(PendingTurn { session_id: session_id.clone(), turn });
        proof {
            lemma_cursors_kept(old(self)@, self@);
        }
        self.select_session(session_id);
    }

    /// Ask the host for a session, to be shown when it answers.
    pub(crate) fn create_and_select(&mut self, command: Command)
        ensures
            final(self)@ == old(self)@.create(command),
    {
        let selected = copy_text(&self.selected_session_id);
        self.emit(Effect::Create { command, selected });
    }

    /// The host answered a request for a session that was sent while `selected`
    /// was on screen. The user may have moved on since: then the answer is not
    /// shown.
    pub fn finish_create(&mut self, selected: Option<String>, created: Option<String>)
        requires
            old(self)@.cursors_fit(),
        ensures
            ({
                let settled = StoreModel { draft_fallback_pending: false, ..old(self)@ };
                final(self)@ == (if created is Some && (match selected {
                    Some(id) => old(self)@.selects(id@),
                    None => old(self)@.selected is None,
                }) {
                    settled.select(created->0)
                } else {
                    settled
                })
            }),
    {
        self.draft_fallback_pending = false;
        match created {
            Some(id) => {
                let unmoved = match &selected {
                    Some(then_selected) => self.selects(then_selected.as_str()),
                    None => self.selected_session_id.is_none(),
                };
                if unmoved {
                    proof {
                        lemma_cursors_kept(old(self)@, self@);
                    }
                    self.select_session(id);
                }
            },
            None => {},
        }
    }

    /// Open the new-thread draft of a project.
    pub fn start_draft(&mut self, project_id: String, cwd: String)
        ensures
            final(self)@ == old(self)@.start_draft(project_id, cwd),
    {
        self.remember_project(Some(project_id.clone()));
        self.create_and_select(Command::StartDraft { project_id, cwd });
    }

    /// Whether the index lists a session that is not archived.
    pub fn session_visible(&self, session_id: &str) -> (visible: bool)
        ensures
            visible == self@.visible(session_id@),
    {
        let mut i: usize = 0;
        while i < self.sessions.len()
            invariant
                i <= self.sessions@.len(),
                forall|j: int|
                    0 <= j < i ==> !((#[trigger] self@.sessions[j]).id@ == session_id@
                        && self@.sessions[j].archived_at is None),
            decreases self.sessions@.len() - i,
        {
            if *self.sessions[i].id.as_str() == *session_id
                && self.sessions[i].archived_at.is_none() {
                assert(self@.sessions[i as int].id@ == session_id@);
                return true;
            }
            i += 1;
        }
        false
    }

    fn project_to_draft_in(&self) -> (project: Option<Project>)
        ensures
            project == draft_project(self@.projects, self@.settings.last_project_id),
    {
        match &self.settings_replica.last_project_id {
            Some(last) => match find_project(&self.projects, last.as_str()) {
                Some(i) => {
                    return Some(self.projects[i].clone());
                },
                None => {},
            },
            None => {},
        }
        if self.projects.len() > 0 {
            Some(self.projects[0].clone())
        } else {
            None
        }
    }

    /// Open the new-thread draft of the project the user last interacted with,
    /// so an empty workspace offers a composer instead of a dead end. A
    /// remembered project that is gone falls back to the first listed one; with
    /// no projects at all nothing happens.
    pub(crate) fn open_last_project_draft(&mut self)
        ensures
            final(self)@ == old(self)@.open_last_draft(),
    {
        if self.draft_fallback_pending {
            return;
        }
        match self.project_to_draft_in() {
            Some(project) => {
                self.draft_fallback_pending = true;
                self.start_draft(project.id, project.root);
            },
            None => {},
        }
    }

    fn visible_parent(&self, session_id: &str) -> (parent: Option<String>)
        ensures
            parent == self@.visible_parent(session_id@),
    {
        match find_session(&self.sessions, session_id) {
            Some(i) => match &self.sessions[i].parent_session_id {
                Some(parent) => {
                    if self.session_visible(parent.as_str()) {
                        Some(parent.clone())
                    } else {
                        None
                    }
                },
                None => None,
            },
            None => None,
        }
    }

    fn settle(&mut self)
        requires
            old(self)@.cursors_fit(),
        ensures
            final(self)@ == old(self)@.settle(),
    {
        match &self.session_status_replica {
            Some(status) => {
                if status.draft {
                    let gone = match &status.project_id {
                        Some(id) => find_project(&self.projects, id.as_str()).is_none(),
                        None => false,
                    };
                    if gone {
                        self.leave_session();
                        self.open_last_project_draft();
                    }
                } else {
                    let session_id = status.session_id.clone();
                    if !self.session_visible(session_id.as_str()) {
                        match self.visible_parent(session_id.as_str()) {
                            Some(parent) => {
                                self.select_session(parent);
                            },
                            None => {
                                self.leave_session();
                                self.open_last_project_draft();
                            },
                        }
                    }
                }
            },
            None => {
                if self.selected_session_id.is_none() {
                    self.open_last_project_draft();
                }
            },
        }
    }

    /// Decide what the workspace shows after the index changed.
    ///
    /// Only the conversation on screen is reconciled, so archiving a background
    /// thread never steals navigation. When the thread on screen leaves the
    /// visible index, the workspace follows its still-visible parent; with no
    /// such parent it falls back to the last interacted project's draft, which
    /// is also what an empty workspace opens. An authored write stays on
    /// screen, so that its failure still has its controls.
    pub fn reconcile_destination(&mut self, outbox: &Outbox)
        requires
            old(self)@.cursors_fit(),
        ensures
            final(self)@ == old(self)@.reconcile(*outbox),
    {
        if self.retire_adopted(outbox) {
            return;
        }
        proof {
            lemma_cursors_kept(old(self)@, self@);
        }
        self.settle();
    }
}

} // verus!
