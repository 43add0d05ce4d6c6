//! Applying what the host publishes.
use crate::command::{Effect, Outbox};
use crate::conversation_ui::ConversationUiState;
use crate::listing::{
    find_project, find_session, remove_project, remove_session, sort_most_recent_first,
    upsert_project, upsert_session, Recency,
};
use crate::protocol::{
    copy_text, ConversationDestination, DestinationName, EventEnvelope, EventKind, GitStatusStatus,
    IndexSnapshot, Project, RightTab, ServerEvent, SessionMeta, SessionStatus, Settings,
    StoredEvent, Timeline, Topic, TopicName,
};
use crate::store::model::{
    icon_invalidated, icons_invalidated, lemma_cursors_kept, listed, ui_after_event, with_prefill,
    StoreModel,
};
use crate::store::navigation::parked_flags;
use crate::store::{
    record_lists, FallbackBlock, FallbackReview, SessionReplica, TimelineWork, WorkspaceStore,
};
use crate::store::event_laws::{
    law_a_terminal_frame_reaches_its_terminal, law_terminal_output_reaches_its_terminal,
};
use vstd::prelude::*;

verus! {

proof fn lemma_record_insert(
    map: Map<Seq<char>, Vec<StoredEvent>>,
    id: Seq<char>,
    list: Vec<StoredEvent>,
)
    ensures
        record_lists(map.insert(id, list)) == record_lists(map).insert(id, list@),
{
    assert(record_lists(map.insert(id, list)) =~= record_lists(map).insert(id, list@));
}

/// The right panel after an agent event.
fn update_ui(ui: &mut ConversationUiState, kind: EventKind, auto_open: bool)
    ensures
        *final(ui) == ui_after_event(*old(ui), kind, auto_open),
{
    match kind {
        EventKind::TurnStarted => {
            ui.auto_open_task_suppressed = false;
        },
        EventKind::PlanUpdated => {
            if auto_open && !ui.auto_open_task_suppressed && !(ui.right_panel_open && ui.right_tab
                == RightTab::Plan) {
                ui.right_panel_open = true;
                ui.right_tab = RightTab::Plan;
            }
        },
        EventKind::TurnCompleted | EventKind::RewindCompleted => {
            ui.refresh_diff();
        },
        EventKind::Other => {},
    }
}

/// A status that says whether a prefill waits for its session.
pub(crate) fn mark_prefill(status: SessionStatus, available: bool) -> (shown: SessionStatus)
    ensures
        shown == with_prefill(status, available),
{
    reveal(with_prefill);
    SessionStatus { native_rewind_prefill_available: available, ..status }
}

impl WorkspaceStore {
    fn apply_upsert_session(&mut self, meta: SessionMeta)
        ensures
            final(self)@ == old(self)@.upsert_session(meta),
    {
        let mut sessions: Vec<SessionMeta> = Vec::new();
        std::mem::swap(&mut sessions, &mut self.sessions);
        upsert_session(&mut sessions, meta);
        self.sessions = sort_most_recent_first(sessions, Recency::Updated);
    }

    fn invalidate_icon(&mut self, project: &Project)
        ensures
            final(self)@ == old(self)@.emit(icon_invalidated(*project)),
    {
        self.emit(
            Effect::InvalidateProjectIcon {
                project_id: project.id.clone(),
                icon_path: copy_text(&project.icon_path),
            },
        );
    }

    fn invalidate_icons(&mut self, projects: &Vec<Project>)
        ensures
            final(self)@ == (StoreModel {
                effects: old(self)@.effects + icons_invalidated(projects@),
                ..old(self)@
            }),
    {
        let ghost before = self@;
        let ghost expected = icons_invalidated(projects@);
        let mut i: usize = 0;
        assert(before.effects =~= before.effects + expected.take(0));
        while i < projects.len()
            invariant
                i <= projects@.len(),
                expected == icons_invalidated(projects@),
                self@ == (StoreModel {
                    effects: before.effects + expected.take(i as int),
                    ..before
                }),
            decreases projects@.len() - i,
        {
            self.invalidate_icon(&projects[i]);
            assert(expected[i as int] == icon_invalidated(projects@[i as int]));
            assert(self@.effects =~= before.effects + expected.take(i + 1));
            i += 1;
        }
        assert(expected.take(i as int) =~= expected);
    }

    fn apply_upsert_project(&mut self, project: Project)
        ensures
            final(self)@ == old(self)@.upsert_project(project),
    {
        self.invalidate_icon(&project);
        upsert_project(&mut self.projects, project);
    }

    fn apply_remove_session(&mut self, session_id: String)
        ensures
            final(self)@ == old(self)@.remove_session(session_id@),
    {
        remove_session(&mut self.sessions, session_id.as_str());
        self.native_rewind_prefills.remove(&session_id);
        self.fallback_blocks.remove(&session_id);
        self.fallback_reviews.remove(&session_id);
        self.conversation_ui.remove(&ConversationDestination::Thread(session_id));
    }

    fn apply_remove_project(&mut self, project_id: String)
        ensures
            final(self)@ == old(self)@.remove_project(project_id@),
    {
        remove_project(&mut self.projects, project_id.as_str());
        self.import_statuses.remove(&project_id);
        self.conversation_ui.remove(&ConversationDestination::ProjectDraft(project_id));
    }

    fn apply_index(&mut self, snapshot: IndexSnapshot)
        ensures
            final(self)@ == old(self)@.replace_index(snapshot),
    {
        self.index_hydrated = true;
        self.baseline_topics.insert(Topic::Index);
        // Client state for a conversation the index no longer lists has nothing
        // left to return to: a deleted project takes its draft's state, a
        // deleted thread its own. Archived threads stay listed, so archiving
        // keeps its state.
        let sessions = snapshot.sessions;
        let projects = snapshot.projects;
        self.invalidate_icons(&projects);
        let listed_sessions = &sessions;
        let listed_projects = &projects;
        let keep = |destination: &ConversationDestination| -> (kept: bool)
            ensures
                kept == listed(listed_projects@, listed_sessions@, destination@),
            {
                match destination {
                    ConversationDestination::ProjectDraft(id) => find_project(
                        listed_projects,
                        id.as_str(),
                    ).is_some(),
                    ConversationDestination::Thread(id) => find_session(
                        listed_sessions,
                        id.as_str(),
                    ).is_some(),
                }
            };
        self.conversation_ui.retain(
            keep,
            Ghost(|name: DestinationName| listed(projects@, sessions@, name)),
        );
        self.sessions = sessions;
        self.projects = projects;
        self.title_generating = snapshot.title_generating;
        self.background_session_flags = snapshot.activity;
        self.working_started_at = snapshot.working_started_at;
        match &self.selected_session_id {
            Some(id) => {
                self.background_session_flags.remove(id);
            },
            None => {},
        }
    }

    fn apply_settings(&mut self, settings: Settings, baseline: bool)
        ensures
            final(self)@ == old(self)@.replace_settings(settings, baseline),
    {
        self.settings_replica = settings;
        self.settings_hydrated = true;
        if baseline {
            self.baseline_topics.insert(Topic::Settings);
        }
    }

    fn apply_git_status(&mut self, session_id: String, status: GitStatusStatus)
        ensures
            final(self)@ == old(self)@.replace_git_status(session_id@, status),
    {
        if self.selects(session_id.as_str()) {
            self.git_status_replica = status.clone();
        }
        self.git_statuses.insert(session_id, status);
    }

    fn apply_status(&mut self, session_id: String, status: SessionStatus)
        ensures
            final(self)@ == old(self)@.replace_status(session_id@, status),
    {
        self.baseline_topics.insert(Topic::SessionStatus { session_id: session_id.clone() });
        self.session_statuses.insert(session_id.clone(), status.clone());
        if self.selects(session_id.as_str()) {
            let available = self.native_rewind_prefills.contains_key(&session_id);
            self.session_status_replica = Some(mark_prefill(status, available));
            self.emit(Effect::SyncTerminalTopics);
            self.sync_active_conversation_ui();
            self.background_session_flags.remove(&session_id);
        } else {
            self.background_session_flags.insert(session_id, parked_flags(&status));
        }
    }

    fn take_records(&mut self, session_id: &String) -> (records: Vec<StoredEvent>)
        ensures
            records@ == old(self)@.records_of(session_id@),
            final(self)@ == (StoreModel {
                records: old(self)@.records.remove(session_id@),
                ..old(self)@
            }),
    {
        let taken = self.session_records.remove(session_id);
        assert(record_lists(self.session_records@) =~= old(self)@.records.remove(session_id@));
        match taken {
            Some(records) => records,
            None => Vec::new(),
        }
    }

    fn put_records(&mut self, session_id: String, records: Vec<StoredEvent>)
        ensures
            final(self)@ == (StoreModel {
                records: old(self)@.records.insert(session_id@, records@),
                ..old(self)@
            }),
    {
        proof {
            lemma_record_insert(self.session_records@, session_id@, records);
        }
        self.session_records.insert(session_id, records);
    }

    fn restart_history(&mut self, topic: Topic, session_id: String)
        ensures
            final(self)@ == old(self)@.restart_history(topic, session_id@),
    {
        self.put_records(session_id.clone(), Vec::new());
        self.session_from.remove(&session_id);
        self.session_replica = None;
        self.hydrated_sessions.remove(&session_id);
        self.baseline_topics.remove(&topic);
        self.session_catching_up = false;
        self.emit(Effect::Subscribe { topic, after: None });
    }

    fn start_of(&self, session_id: &String, from: u64) -> (start: u64)
        ensures
            start == self@.start_of(session_id@, from),
    {
        if from == 0 {
            0
        } else {
            match self.session_from.get(session_id) {
                Some(start) => *start,
                None => from,
            }
        }
    }

    fn apply_snapshot(
        &mut self,
        topic: Topic,
        session_id: String,
        from: u64,
        records: Vec<StoredEvent>,
        total: u64,
        total_turns: usize,
    ) -> (work: Option<TimelineWork>)
        requires
            topic@ == (TopicName::SessionEvents { session_id: session_id@ }),
            old(self)@.selects(session_id@) && old(self)@.continues(session_id@, from) ==> from
                + records@.len() <= u64::MAX,
            old(self)@.cursors_fit(),
        ensures
            ({
                let step = old(self)@.apply_snapshot(
                    topic,
                    session_id@,
                    from,
                    records@,
                    total,
                    total_turns,
                );
                final(self)@ == step.state && work == step.work
            }),
            final(self)@.cursors_fit(),
    {
        let ghost before = self@;
        let ghost id = session_id@;
        if !self.selects(session_id.as_str()) {
            return None;
        }
        let start: u64 = self.start_of(&session_id, from);
        let mut held = self.take_records(&session_id);
        proof {
            if before.from.contains_key(id) {
                assert(before.from[id] + before.records_of(id).len() <= u64::MAX);
            }
        }
        if from == 0 {
            held.clear();
        } else if from < start || from - start != held.len() as u64 {
            self.put_records(session_id.clone(), held);
            proof {
                assert(!before.continues(id, from));
            }
            self.restart_history(topic, session_id);
            proof {
                assert(self@ =~= before.restart_history(topic, id));
                assert forall|k: Seq<char>| #[trigger]
                    self@.from.contains_key(k) implies self@.from[k] + self@.records_of(k).len()
                    <= u64::MAX by {
                    assert(before.from.contains_key(k));
                    assert(self@.records_of(k) == before.records_of(k));
                }
            }
            return None;
        }
        assert(before.continues(id, from));
        assert(held@ == before.base_records(id, from));
        self.session_from.insert(session_id.clone(), start);
        let replayed = records.len() == 0 && from != 0 && self.session_replica.is_some();
        if replayed {
            self.put_records(session_id.clone(), held);
            self.baseline_topics.insert(topic);
            self.hydrated_sessions.insert(session_id);
            proof {
                let step = before.apply_snapshot(topic, id, from, records@, total, total_turns);
                assert(self@.records =~= step.state.records);
                assert(self@ =~= step.state);
                assert forall|k: Seq<char>| #[trigger]
                    self@.from.contains_key(k) implies self@.from[k] + self@.records_of(k).len()
                    <= u64::MAX by {
                    if k != id {
                        assert(before.from.contains_key(k));
                        assert(self@.records_of(k) == before.records_of(k));
                    }
                }
            }
            return None;
        }
        let mut arrived = records;
        held.append(&mut arrived);
        let after: u64 = start + held.len() as u64;
        self.put_records(session_id, held);
        self.session_catching_up = after < total;
        self.emit(Effect::UpdateAfter { topic, after });
        proof {
            let step = before.apply_snapshot(topic, id, from, records@, total, total_turns);
            assert(self@.records =~= step.state.records);
            assert(self@ =~= step.state);
            assert forall|k: Seq<char>| #[trigger]
                self@.from.contains_key(k) implies self@.from[k] + self@.records_of(k).len()
                <= u64::MAX by {
                if k != id {
                    assert(before.from.contains_key(k));
                    assert(self@.records_of(k) == before.records_of(k));
                }
            }
        }
        if after < total {
            return None;
        }
        let idle = match &self.session_status_replica {
            Some(status) => !status.turn_running,
            None => true,
        };
        Some(TimelineWork::Fold { session_id: self.active_id(), total_turns, idle })
    }

    /// Show the fold of the selected session's records.
    pub fn install_timeline(&mut self, timeline: Timeline, total_turns: usize)
        ensures
            final(self)@ == old(self)@.install_timeline(timeline, total_turns),
    {
        match &self.selected_session_id {
            None => {},
            Some(selected) => {
                let id = selected.clone();
                self.baseline_topics.insert(Topic::SessionEvents { session_id: id.clone() });
                self.hydrated_sessions.insert(id.clone());
                self.session_turn_offset = total_turns.saturating_sub(timeline.turns.len());
                self.session_replica = Some(SessionReplica { session_id: id, timeline });
                self.emit(Effect::LoadPendingChatHistory);
            },
        }
    }

    /// Replace the timeline on screen by one that has taken another record.
    pub fn advance_timeline(&mut self, timeline: Timeline)
        ensures
            final(self)@ == (StoreModel {
                timeline: match old(self)@.timeline {
                    Some(replica) => Some(SessionReplica { timeline, ..replica }),
                    None => None,
                },
                ..old(self)@
            }),
    {
        match self.session_replica.take() {
            Some(replica) => {
                self.session_replica =
                Some(SessionReplica { session_id: replica.session_id, timeline });
            },
            None => {},
        }
    }

    fn apply_conversation_event(&mut self, session_id: &String, kind: EventKind)
        ensures
            final(self)@ == old(self)@.conversation_event(session_id@, kind),
    {
        let destination = ConversationDestination::Thread(session_id.clone());
        let auto_open = self.settings_replica.auto_open_task_panel;
        match self.conversation_ui.remove(&destination) {
            Some(held) => {
                let mut ui = held;
                update_ui(&mut ui, kind, auto_open);
                self.conversation_ui.insert(destination, ui);
                assert(self@ =~= old(self)@.conversation_event(session_id@, kind));
            },
            None => {
                assert(self@ =~= old(self)@);
            },
        }
    }

    fn takes_events(&self, session_id: &String) -> (takes: bool)
        ensures
            takes == self@.takes_events(session_id@),
    {
        self.selects(session_id.as_str()) && !self.session_catching_up
            && self.session_from.contains_key(session_id)
    }

    fn apply_event(&mut self, topic: Topic, session_id: &String, record: StoredEvent)
        requires
            old(self)@.cursors_fit(),
            old(self)@.takes_events(session_id@),
            old(self)@.from[session_id@] + old(self)@.records_of(session_id@).len() < u64::MAX,
        ensures
            final(self)@ == old(self)@.append_event(topic, session_id@, record),
            final(self)@.cursors_fit(),
    {
        let ghost before = self@;
        let ghost id = session_id@;
        let kind = record.kind;
        let from: u64 = match self.session_from.get(session_id) {
            Some(from) => *from,
            None => 0,
        };
        let mut held = self.take_records(session_id);
        held.push(record);
        let after: u64 = from + held.len() as u64;
        self.put_records(session_id.clone(), held);
        assert(self@.records =~= before.records.insert(id, before.records_of(id).push(record)));
        self.emit(Effect::UpdateAfter { topic, after });
        // A new turn means the user moved on; the recovery card for the stopped
        // one is stale.
        if kind == EventKind::TurnStarted {
            self.fallback_blocks.remove(session_id);
            self.fallback_reviews.remove(session_id);
        }
        self.apply_conversation_event(session_id, kind);
        proof {
            assert(self@ =~= before.append_event(topic, id, record));
            assert forall|k: Seq<char>| #[trigger]
                self@.from.contains_key(k) implies self@.from[k] + self@.records_of(k).len()
                <= u64::MAX by {
                assert(before.from.contains_key(k));
                if k != id {
                    assert(self@.records_of(k) == before.records_of(k));
                }
            }
        }
    }

    fn apply_prefill(&mut self, session_id: String, text: String)
        ensures
            final(self)@ == old(self)@.receive_prefill(session_id@, text),
    {
        match self.session_status_replica.take() {
            Some(status) => {
                self.session_status_replica = if status.session_id == session_id {
                    Some(mark_prefill(status, true))
                } else {
                    Some(status)
                };
            },
            None => {},
        }
        self.native_rewind_prefills.insert(session_id, text);
    }

    fn apply_index_event(&mut self, event: ServerEvent)
        requires
            old(self)@.cursors_fit(),
        ensures
            ({
                let step = old(self)@.apply(EventEnvelope { topic: Topic::Index, event });
                final(self)@ == step.state && step.goes_on && step.work is None
            }),
            final(self)@.cursors_fit(),
    {
        match event {
            ServerEvent::IndexUpsertSession(meta) => self.apply_upsert_session(meta),
            ServerEvent::IndexUpsertProject(project) => self.apply_upsert_project(project),
            ServerEvent::IndexRemoveSession { session_id } => self.apply_remove_session(session_id),
            ServerEvent::IndexRemoveProject { project_id } => self.apply_remove_project(project_id),
            ServerEvent::IndexSnapshot(snapshot) => self.apply_index(snapshot),
            _ => {},
        }
        proof {
            lemma_cursors_kept(old(self)@, self@);
        }
    }

    fn apply_status_event(&mut self, session_id: String, event: ServerEvent)
        requires
            old(self)@.cursors_fit(),
        ensures
            ({
                let step = old(self)@.apply(
                    EventEnvelope { topic: Topic::SessionStatus { session_id }, event },
                );
                final(self)@ == step.state && step.goes_on && step.work is None
            }),
            final(self)@.cursors_fit(),
    {
        match event {
            ServerEvent::SessionStatusReplaced(status) => {
                if status.session_id == session_id {
                    self.apply_status(session_id, status);
                }
            },
            ServerEvent::NativeRewindPrefill { session_id: published, text } => {
                if session_id == published {
                    self.apply_prefill(session_id, text);
                }
            },
            ServerEvent::ModelFallbackBlocked {
                session_id: published,
                category,
                model,
                fallback_model,
                detail,
            } => {
                if session_id == published {
                    self.fallback_blocks.insert(
                        session_id,
                        FallbackBlock { category, model, fallback_model, detail },
                    );
                }
            },
            ServerEvent::FallbackReviewReady { session_id: published, assessment, draft } => {
                if session_id == published {
                    self.fallback_reviews.insert(session_id, FallbackReview { assessment, draft });
                }
            },
            _ => {},
        }
        proof {
            lemma_cursors_kept(old(self)@, self@);
        }
    }

    fn apply_session_event(&mut self, session_id: String, event: ServerEvent) -> (done: (
        bool,
        Option<TimelineWork>,
    ))
        requires
            old(self)@.cursors_fit(),
            old(self)@.admits(EventEnvelope { topic: Topic::SessionEvents { session_id }, event }),
        ensures
            ({
                let step = old(self)@.apply(
                    EventEnvelope { topic: Topic::SessionEvents { session_id }, event },
                );
                final(self)@ == step.state && done.0 == step.goes_on && done.1 == step.work
            }),
            final(self)@.cursors_fit(),
    {
        match event {
            ServerEvent::SessionHistoryError(message) => {
                if self.selects(session_id.as_str()) {
                    self.history_error = Some(message);
                }
                proof {
                    lemma_cursors_kept(old(self)@, self@);
                }
                (true, None)
            },
            ServerEvent::SessionSnapshot { from, records, total, total_turns } => {
                let topic = Topic::SessionEvents { session_id: session_id.clone() };
                let work = self.apply_snapshot(
                    topic,
                    session_id,
                    from,
                    records,
                    total,
                    total_turns,
                );
                (false, work)
            },
            ServerEvent::SessionEvent(record) => {
                if !self.takes_events(&session_id) {
                    return (false, None);
                }
                let shown = match &self.session_replica {
                    Some(replica) => replica.session_id == session_id,
                    None => false,
                };
                let topic = Topic::SessionEvents { session_id: session_id.clone() };
                self.apply_event(topic, &session_id, record.clone());
                if shown {
                    (true, Some(TimelineWork::Append { session_id, record }))
                } else {
                    (true, None)
                }
            },
            _ => (true, None),
        }
    }

    fn apply_envelope(&mut self, envelope: EventEnvelope) -> (done: (bool, Option<TimelineWork>))
        requires
            old(self)@.cursors_fit(),
            old(self)@.admits(envelope),
        ensures
            ({
                let step = old(self)@.apply(envelope);
                final(self)@ == step.state && done.0 == step.goes_on && done.1 == step.work
            }),
            final(self)@.cursors_fit(),
    {
        match envelope.topic {
            Topic::Index => {
                self.apply_index_event(envelope.event);
                (true, None)
            },
            Topic::SessionStatus { session_id } => {
                self.apply_status_event(session_id, envelope.event);
                (true, None)
            },
            Topic::SessionEvents { session_id } => self.apply_session_event(
                session_id,
                envelope.event,
            ),
            Topic::Settings => {
                match envelope.event {
                    ServerEvent::SettingsReplaced(settings) => self.apply_settings(settings, false),
                    ServerEvent::SettingsSnapshot(settings) => self.apply_settings(settings, true),
                    _ => {},
                }
                proof {
                    lemma_cursors_kept(old(self)@, self@);
                }
                (true, None)
            },
            Topic::Providers => {
                match envelope.event {
                    ServerEvent::ProvidersReplaced(status) => {
                        self.providers_replica = status;
                    },
                    _ => {},
                }
                proof {
                    lemma_cursors_kept(old(self)@, self@);
                }
                (true, None)
            },
            Topic::GitStatus { session_id } => {
                match envelope.event {
                    ServerEvent::GitStatusReplaced(status) => self.apply_git_status(
                        session_id,
                        status,
                    ),
                    _ => {},
                }
                proof {
                    lemma_cursors_kept(old(self)@, self@);
                }
                (true, None)
            },
            Topic::RuntimeEvents => (true, None),
            Topic::Terminal { terminal_id } => {
                match envelope.event {
                    ServerEvent::TerminalFrame { terminal_id: frame_id, frame } => {
                        if terminal_id == frame_id {
                            self.emit(Effect::TerminalFrame { terminal_id, frame });
                        }
                    },
                    ServerEvent::TerminalDelta { terminal_id: delta_id, delta } => {
                        if terminal_id == delta_id {
                            self.emit(Effect::TerminalDelta { terminal_id, delta });
                        }
                    },
                    _ => {},
                }
                proof {
                    lemma_cursors_kept(old(self)@, self@);
                }
                (true, None)
            },
            Topic::Preview { session_id } => {
                match envelope.event {
                    ServerEvent::PreviewRequest { session_id: requested, request } => {
                        if session_id == requested && self.selects(session_id.as_str()) {
                            self.emit(Effect::ForwardPreview { session_id, request });
                        }
                    },
                    _ => {},
                }
                proof {
                    lemma_cursors_kept(old(self)@, self@);
                }
                (true, None)
            },
            Topic::ExternalImport { project_id } => {
                match envelope.event {
                    ServerEvent::ExternalImportStatusReplaced { project_id: replaced, status } => {
                        if project_id == replaced {
                            self.import_statuses.insert(project_id, status);
                        }
                    },
                    _ => {},
                }
                proof {
                    lemma_cursors_kept(old(self)@, self@);
                }
                (true, None)
            },
        }
    }

    /// Whether the positions that taking an event leads to can be counted.
    pub fn admits(&self, envelope: &EventEnvelope) -> (admitted: bool)
        ensures
            admitted == self@.admits(*envelope),
    {
        let session_id = match &envelope.topic {
            Topic::SessionEvents { session_id } => session_id,
            _ => {
                return true;
            },
        };
        let held: u128 = match self.session_records.get(session_id) {
            Some(records) => records.len() as u128,
            None => 0,
        };
        assert(held == self@.records_of(session_id@).len());
        match &envelope.event {
            ServerEvent::SessionSnapshot { from, records, .. } => {
                let start: u64 = self.start_of(session_id, *from);
                let continues = *from == 0 || *from as u128 == start as u128 + held;
                !self.selects(session_id.as_str()) || !continues || *from as u128
                    + records.len() as u128 <= u64::MAX as u128
            },
            ServerEvent::SessionEvent(_) => match self.session_from.get(session_id) {
                Some(from) => !self.takes_events(session_id) || *from as u128 + held
                    < u64::MAX as u128,
                None => true,
            },
            _ => true,
        }
    }

    /// Apply one published event. `current` says whether it answers the latest
    /// subscription to its topic: a reply to one that has been replaced changes
    /// nothing. Work on the timeline, if any, is to be done before the queued
    /// effects.
    pub fn apply_domain_event(
        &mut self,
        envelope: EventEnvelope,
        current: bool,
        outbox: &Outbox,
    ) -> (work: Option<TimelineWork>)
        requires
            old(self)@.cursors_fit(),
            current ==> old(self)@.admits(envelope),
        ensures
            final(self)@ == old(self)@.domain_event(envelope, current, *outbox).state,
            work == old(self)@.domain_event(envelope, current, *outbox).work,
            final(self)@.cursors_fit(),
            // What a terminal's program prints is handed to that terminal.
            match (envelope.topic, envelope.event) {
                (
                    Topic::Terminal { terminal_id },
                    ServerEvent::TerminalDelta { terminal_id: id, delta },
                ) => current && terminal_id == id ==> final(self)@.effects == old(self)@.effects
                    + seq![
                    Effect::TerminalDelta { terminal_id, delta },
                    Effect::LoadPendingChatHistory,
                ],
                (
                    Topic::Terminal { terminal_id },
                    ServerEvent::TerminalFrame { terminal_id: id, frame },
                ) => current && terminal_id == id ==> final(self)@.effects == old(self)@.effects
                    + seq![
                    Effect::TerminalFrame { terminal_id, frame },
                    Effect::LoadPendingChatHistory,
                ],
                _ => true,
            },
    {
        proof {
            lemma_output_is_handed_on(self@, envelope, *outbox);
        }
        if !current {
            return None;
        }
        let indexed = match &envelope.topic {
            Topic::Index => true,
            _ => false,
        };
        let (goes_on, work) = self.apply_envelope(envelope);
        if goes_on {
            let ghost applied = self@;
            self.emit(Effect::LoadPendingChatHistory);
            proof {
                lemma_cursors_kept(applied, self@);
            }
            // Every index mutation re-decides the destination in one place.
            if indexed {
                let ghost loaded = self@;
                self.reconcile_destination(outbox);
                proof {
                    lemma_reconcile_cursors(loaded, *outbox);
                }
            }
        }
        work
    }
}

proof fn lemma_output_is_handed_on(state: StoreModel, envelope: EventEnvelope, outbox: Outbox)
    ensures
        match (envelope.topic, envelope.event) {
            (
                Topic::Terminal { terminal_id },
                ServerEvent::TerminalDelta { terminal_id: id, delta },
            ) => terminal_id == id ==> state.domain_event(envelope, true, outbox).state.effects
                == state.effects + seq![
                Effect::TerminalDelta { terminal_id, delta },
                Effect::LoadPendingChatHistory,
            ],
            (
                Topic::Terminal { terminal_id },
                ServerEvent::TerminalFrame { terminal_id: id, frame },
            ) => terminal_id == id ==> state.domain_event(envelope, true, outbox).state.effects
                == state.effects + seq![
                Effect::TerminalFrame { terminal_id, frame },
                Effect::LoadPendingChatHistory,
            ],
            _ => true,
        },
{
    match (envelope.topic, envelope.event) {
        (Topic::Terminal { terminal_id }, ServerEvent::TerminalDelta { delta, .. }) => {
            law_terminal_output_reaches_its_terminal(state, terminal_id, delta, outbox);
        },
        (Topic::Terminal { terminal_id }, ServerEvent::TerminalFrame { frame, .. }) => {
            law_a_terminal_frame_reaches_its_terminal(state, terminal_id, frame, outbox);
        },
        _ => {},
    }
}

/// Entering a session gives it a list of records, which counts nothing new.
proof fn lemma_select_cursors(state: StoreModel, id: String)
    requires
        state.cursors_fit(),
    ensures
        state.select(id).cursors_fit(),
{
    let after = state.select(id);
    assert forall|k: Seq<char>| #[trigger] after.from.contains_key(k) implies after.from[k]
        + after.records_of(k).len() <= u64::MAX by {
        assert(state.from.contains_key(k));
        assert(after.records_of(k) =~= state.records_of(k));
    }
}

proof fn lemma_reconcile_cursors(state: StoreModel, outbox: Outbox)
    requires
        state.cursors_fit(),
    ensures
        state.reconcile(outbox).cursors_fit(),
{
    let retired = state.retire_adopted(outbox);
    lemma_cursors_kept(state, retired);
    lemma_cursors_kept(retired, retired.leave());
    lemma_cursors_kept(retired.leave(), retired.leave().open_last_draft());
    lemma_cursors_kept(retired, retired.open_last_draft());
    match retired.status {
        Some(status) => match retired.visible_parent(status.session_id@) {
            Some(parent) => {
                lemma_select_cursors(retired, parent);
            },
            None => {},
        },
        None => {},
    }
}

} // verus!
