//! The workspace store as a mathematical value, and the steps it takes.
use crate::command::{Command, Effect, FailedEntry, Outbox, OutboxEntry, SettingsPatch};
use crate::conversation_ui::ConversationUiState;
use crate::listing::{
    has_project_id, has_session_id, lists_project, lists_session, most_recent_first, project_by_id,
    projects_without, session_by_id, sessions_without, upserted, Recency,
};
use crate::protocol::{
    ConnectionState, ConversationDestination, DestinationName, EventEnvelope, EventKind,
    GitStatusStatus, HostValue, IndexSnapshot, Project, ProvidersStatus, QueuedMessage, RightTab,
    ServerEvent, SessionFlags, SessionMeta, SessionStatus, Settings, StoredEvent, Timeline,
    TimelineEntry, Topic, TopicName,
};
use crate::store::{
    ClientPreferences, DeliveryMessage, FallbackBlock, FallbackReview, PendingTurn, SessionReplica,
    TimelineWork, WorkspaceAttachment,
};
use vstd::prelude::*;

verus! {

/// Everything a workspace store holds.
#[verifier::ext_equal]
pub struct StoreModel {
    pub attachment: WorkspaceAttachment,
    /// Whether this client can answer preview requests.
    pub preview_backend: bool,
    pub client_preferences: ClientPreferences,
    pub connection_state: ConnectionState,
    pub import_statuses: Map<Seq<char>, Option<HostValue>>,
    pub sessions: Seq<SessionMeta>,
    pub projects: Seq<Project>,
    pub title_generating: Set<Seq<char>>,
    pub settings: Settings,
    pub settings_hydrated: bool,
    pub baseline_topics: Set<TopicName>,
    pub index_hydrated: bool,
    pub last_refresh_attempt: Option<u32>,
    pub hydrated_sessions: Set<Seq<char>>,
    pub selected: Option<String>,
    pub records: Map<Seq<char>, Seq<StoredEvent>>,
    pub from: Map<Seq<char>, u64>,
    pub selection_generation: u64,
    pub turn_offset: usize,
    pub history_error: Option<String>,
    pub history_pages_fetched: usize,
    pub history_logged_records: Option<usize>,
    pub catching_up: bool,
    pub statuses: Map<Seq<char>, SessionStatus>,
    pub git_statuses: Map<Seq<char>, GitStatusStatus>,
    pub timeline: Option<SessionReplica>,
    pub status: Option<SessionStatus>,
    pub providers: ProvidersStatus,
    pub git_status: GitStatusStatus,
    pub background_flags: Map<Seq<char>, SessionFlags>,
    pub working_started_at: Map<Seq<char>, u64>,
    pub destination: Option<ConversationDestination>,
    pub pending_chat_turn: Option<PendingTurn>,
    pub prefills: Map<Seq<char>, String>,
    pub blocks: Map<Seq<char>, FallbackBlock>,
    pub reviews: Map<Seq<char>, FallbackReview>,
    pub conversation_ui: Map<DestinationName, ConversationUiState>,
    pub draft_fallback_pending: bool,
    /// What was decided and not carried out yet, oldest first.
    pub effects: Seq<Effect>,
}

/// Working only because provider background tasks are still running: the turn
/// has finished and nothing is queued or in delivery.
pub open spec fn background_only(status: SessionStatus) -> bool {
    status.working && !status.turn_running && !status.delivery_in_flight
        && status.queued_messages@.len() == 0
}

/// What the sidebar shows of a session once it is parked.
pub open spec fn flags_of(status: SessionStatus) -> SessionFlags {
    SessionFlags {
        working: status.working,
        pending_approval: status.pending_approval,
        pending_user_input: status.pending_user_input,
        background_only: background_only(status),
    }
}

/// A status that says whether a prefill waits for its session.
#[verifier::opaque]
pub open spec fn with_prefill(status: SessionStatus, available: bool) -> SessionStatus {
    SessionStatus { native_rewind_prefill_available: available, ..status }
}

/// Where a session's client state belongs: a draft's with its project.
pub open spec fn destination_of(status: SessionStatus) -> ConversationDestination {
    if status.draft && status.project_id is Some {
        ConversationDestination::ProjectDraft(status.project_id->0)
    } else {
        ConversationDestination::Thread(status.session_id)
    }
}

/// The words of a command if it sends a message to `active`.
pub open spec fn message_for(command: Command, active: Seq<char>) -> Option<String> {
    match command.message() {
        Some(message) => if message.0@ == active {
            Some(message.1)
        } else {
            None
        },
        None => None,
    }
}

pub open spec fn pending_messages(active: Seq<char>, entries: Seq<OutboxEntry>) -> Seq<
    DeliveryMessage,
>
    decreases entries.len(),
{
    if entries.len() == 0 {
        Seq::empty()
    } else {
        let before = pending_messages(active, entries.drop_last());
        match message_for(entries.last().command, active) {
            Some(text) => before.push(
                DeliveryMessage { key: entries.last().key, text, error: None, acknowledged: false },
            ),
            None => before,
        }
    }
}

pub open spec fn failed_messages(active: Seq<char>, entries: Seq<FailedEntry>) -> Seq<
    DeliveryMessage,
>
    decreases entries.len(),
{
    if entries.len() == 0 {
        Seq::empty()
    } else {
        let before = failed_messages(active, entries.drop_last());
        match message_for(entries.last().command, active) {
            Some(text) => before.push(
                DeliveryMessage {
                    key: entries.last().key,
                    text,
                    error: Some(entries.last().message),
                    acknowledged: false,
                },
            ),
            None => before,
        }
    }
}

/// A queued message is the delivery of `key`, or says the same where it names
/// no delivery.
pub open spec fn queued_as(message: QueuedMessage, key: Seq<char>, text: Seq<char>) -> bool {
    match message.delivery_key {
        Some(delivery) => delivery@ == key,
        None => message.text@ == text,
    }
}

/// An entry of the timeline records the delivery of `key`, or its words.
pub open spec fn recorded_as(entry: TimelineEntry, key: Seq<char>, text: Seq<char>) -> bool {
    ||| entry.id@ == "local-user-"@ + key
    ||| entry.id@ == "local-steer-"@ + key
    ||| entry.user_message is Some && entry.user_message->0.text@ == text
}

pub open spec fn any_queued(queued: Seq<QueuedMessage>, key: Seq<char>, text: Seq<char>) -> bool {
    exists|i: int| 0 <= i < queued.len() && queued_as(#[trigger] queued[i], key, text)
}

pub open spec fn any_recorded(
    entries: Seq<TimelineEntry>,
    key: Seq<char>,
    text: Seq<char>,
) -> bool {
    exists|i: int| 0 <= i < entries.len() && recorded_as(#[trigger] entries[i], key, text)
}

/// The project the user is sent back to: the remembered one, else the first.
pub open spec fn draft_project(
    projects: Seq<Project>,
    remembered: Option<String>,
) -> Option<Project> {
    let last = if remembered is Some {
        project_by_id(projects, remembered->0@)
    } else {
        None
    };
    if last is Some {
        last
    } else if projects.len() > 0 {
        Some(projects[0])
    } else {
        None
    }
}

/// What is cached of a project's icon may be stale: its configuration may have
/// gone back to a default that was cached before.
pub open spec fn icon_invalidated(project: Project) -> Effect {
    Effect::InvalidateProjectIcon { project_id: project.id, icon_path: project.icon_path }
}

pub open spec fn icons_invalidated(projects: Seq<Project>) -> Seq<Effect> {
    projects.map_values(|project: Project| icon_invalidated(project))
}

/// A destination whose project or thread the index lists.
pub open spec fn listed(
    projects: Seq<Project>,
    sessions: Seq<SessionMeta>,
    destination: DestinationName,
) -> bool {
    match destination {
        DestinationName::ProjectDraft(id) => lists_project(projects, id),
        DestinationName::Thread(id) => lists_session(sessions, id),
    }
}

/// The right panel after an agent event, given whether tasks open it.
pub open spec fn ui_after_event(
    ui: ConversationUiState,
    kind: EventKind,
    auto_open: bool,
) -> ConversationUiState {
    match kind {
        EventKind::TurnStarted => ConversationUiState { auto_open_task_suppressed: false, ..ui },
        EventKind::PlanUpdated => if auto_open && !ui.auto_open_task_suppressed && !ui.shows(
            RightTab::Plan,
        ) {
            ConversationUiState { right_panel_open: true, right_tab: RightTab::Plan, ..ui }
        } else {
            ui
        },
        EventKind::TurnCompleted => ui.refreshed(),
        EventKind::RewindCompleted => ui.refreshed(),
        EventKind::Other => ui,
    }
}

/// How far a snapshot that ends a session's history is folded.
pub struct SnapshotStep {
    pub state: StoreModel,
    pub work: Option<TimelineWork>,
}

impl StoreModel {
    pub open spec fn selects(self, id: Seq<char>) -> bool {
        self.selected is Some && self.selected->0@ == id
    }

    /// The selected session's id, or no characters.
    pub open spec fn active(self) -> Seq<char> {
        match self.selected {
            Some(id) => id@,
            None => Seq::empty(),
        }
    }

    pub open spec fn emit(self, effect: Effect) -> Self {
        StoreModel { effects: self.effects.push(effect), ..self }
    }

    pub open spec fn dispatch(self, command: Command) -> Self {
        self.emit(Effect::Dispatch(command))
    }

    pub open spec fn subscribe(self, topic: Topic, after: Option<u64>) -> Self {
        self.emit(Effect::Subscribe { topic, after })
    }

    pub open spec fn unsubscribe(self, topic: Topic) -> Self {
        self.emit(Effect::Unsubscribe { topic })
    }

    pub open spec fn create(self, command: Command) -> Self {
        self.emit(Effect::Create { command, selected: self.selected })
    }

    pub open spec fn records_of(self, id: Seq<char>) -> Seq<StoredEvent> {
        if self.records.contains_key(id) {
            self.records[id]
        } else {
            Seq::empty()
        }
    }

    /// Every held record has a cursor that a `u64` can hold.
    pub open spec fn cursors_fit(self) -> bool {
        forall|id: Seq<char>| #[trigger]
            self.from.contains_key(id) ==> self.from[id] + self.records_of(id).len() <= u64::MAX
    }

    /// What every reachable store satisfies: the status, the timeline and the
    /// destination on screen are the selected session's.
    pub open spec fn coherent(self) -> bool {
        &&& self.cursors_fit()
        &&& self.status is Some ==> self.selects(self.status->0.session_id@)
        &&& self.timeline is Some ==> self.selects(self.timeline->0.session_id@)
        &&& self.catching_up ==> self.selected is Some
        &&& forall|id: Seq<char>| #[trigger]
            self.statuses.contains_key(id) ==> self.statuses[id].session_id@ == id
        &&& match self.status {
            Some(status) => self.destination is Some && self.destination->0@ == destination_of(
                status,
            )@,
            None => self.destination is None,
        }
    }

    // Baselines and loading.

    pub open spec fn baseline_ready(self) -> bool {
        &&& self.baseline_topics.contains(TopicName::Index)
        &&& self.baseline_topics.contains(TopicName::Settings)
        &&& self.selected is Some ==> {
            &&& self.baseline_topics.contains(
                TopicName::SessionStatus { session_id: self.selected->0@ },
            )
            &&& self.baseline_topics.contains(
                TopicName::SessionEvents { session_id: self.selected->0@ },
            )
        }
    }

    pub open spec fn shown_connection(self) -> ConnectionState {
        match self.connection_state {
            ConnectionState::Connected | ConnectionState::Syncing => if self.baseline_ready() {
                ConnectionState::Connected
            } else {
                ConnectionState::Syncing
            },
            other => other,
        }
    }

    pub open spec fn threads_loading(self) -> bool {
        ||| !self.index_hydrated
        ||| !self.settings_hydrated
        ||| (self.shown_connection() != ConnectionState::Connected && self.sessions.len() == 0
            && self.projects.len() == 0)
    }

    pub open spec fn session_loading(self) -> bool {
        self.selected is Some && (self.timeline is None || self.status is None)
    }

    // Deliveries.

    pub open spec fn adopted(self, key: Seq<char>, text: Seq<char>) -> bool {
        ||| self.status is Some && any_queued(self.status->0.queued_messages@, key, text)
        ||| self.timeline is Some && any_recorded(self.timeline->0.timeline.entries@, key, text)
    }

    /// Acknowledged messages that no replica shows yet.
    pub open spec fn acknowledged_messages(self, entries: Seq<OutboxEntry>) -> Seq<DeliveryMessage>
        decreases entries.len(),
    {
        if entries.len() == 0 {
            Seq::empty()
        } else {
            let before = self.acknowledged_messages(entries.drop_last());
            match message_for(entries.last().command, self.active()) {
                Some(text) => if self.adopted(entries.last().key@, text@) {
                    before
                } else {
                    before.push(
                        DeliveryMessage {
                            key: entries.last().key,
                            text,
                            error: None,
                            acknowledged: true,
                        },
                    )
                },
                None => before,
            }
        }
    }

    /// The acknowledged messages that a replica shows are forgotten.
    pub open spec fn retired(self, entries: Seq<OutboxEntry>) -> Seq<Effect>
        decreases entries.len(),
    {
        if entries.len() == 0 {
            Seq::empty()
        } else {
            let before = self.retired(entries.drop_last());
            match message_for(entries.last().command, self.active()) {
                Some(text) => if self.adopted(entries.last().key@, text@) {
                    before.push(Effect::RetireAcknowledged { key: entries.last().key })
                } else {
                    before
                },
                None => before,
            }
        }
    }

    /// What the selected session still shows as being delivered: waiting,
    /// refused, then acknowledged.
    pub open spec fn delivery_messages(self, outbox: Outbox) -> Seq<DeliveryMessage> {
        pending_messages(self.active(), outbox.pending@) + failed_messages(
            self.active(),
            outbox.failed@,
        ) + self.acknowledged_messages(outbox.acknowledged@)
    }

    pub open spec fn retire_adopted(self, outbox: Outbox) -> Self {
        StoreModel { effects: self.effects + self.retired(outbox.acknowledged@), ..self }
    }

    // Navigation.

    pub open spec fn visible(self, id: Seq<char>) -> bool {
        exists|i: int|
            0 <= i < self.sessions.len() && (#[trigger] self.sessions[i]).id@ == id
                && self.sessions[i].archived_at is None
    }

    /// Record the project the user navigated into.
    pub open spec fn remember(self, project: Option<String>) -> Self {
        match project {
            None => self,
            Some(id) => if self.settings.last_project_id is Some
                && self.settings.last_project_id->0@ == id@ {
                self
            } else {
                StoreModel {
                    settings: Settings { last_project_id: Some(id), ..self.settings },
                    ..self
                }.dispatch(Command::PatchSettings { patch: SettingsPatch::LastProject(Some(id)) })
            },
        }
    }

    pub open spec fn unsubscribe_selected(self) -> Self {
        match self.selected {
            Some(id) => self.unsubscribe(Topic::SessionEvents { session_id: id }).unsubscribe(
                Topic::SessionStatus { session_id: id },
            ).unsubscribe(Topic::Preview { session_id: id }).unsubscribe(
                Topic::GitStatus { session_id: id },
            ),
            None => self,
        }
    }

    /// Park the session on screen and show nothing.
    pub open spec fn leave(self) -> Self {
        let cleared = self.emit(Effect::CancelHistory).emit(
            Effect::ClearTerminalTopics,
        ).unsubscribe_selected();
        StoreModel {
            selection_generation: if self.selection_generation == u64::MAX {
                0
            } else {
                (self.selection_generation + 1) as u64
            },
            history_error: None,
            history_pages_fetched: 0,
            history_logged_records: None,
            turn_offset: 0,
            catching_up: false,
            background_flags: match self.status {
                Some(status) => if status.draft {
                    self.background_flags
                } else {
                    self.background_flags.insert(status.session_id@, flags_of(status))
                },
                None => self.background_flags,
            },
            selected: None,
            status: None,
            timeline: None,
            destination: None,
            git_status: GitStatusStatus { status: None, busy: false },
            ..cleared
        }
    }

    /// The client state of the conversation on screen follows it: a draft that
    /// became a thread takes its state along, and a conversation without any
    /// gets fresh state.
    pub open spec fn sync_ui(self) -> Self {
        match self.status {
            None => StoreModel { destination: None, ..self },
            Some(status) => {
                let to = destination_of(status);
                let moved = if self.commits_draft(status) {
                    self.conversation_ui.remove(self.destination->0@).insert(
                        to@,
                        self.conversation_ui[self.destination->0@],
                    )
                } else {
                    self.conversation_ui
                };
                StoreModel {
                    destination: Some(to),
                    conversation_ui: if moved.contains_key(to@) {
                        moved
                    } else {
                        moved.insert(
                            to@,
                            ConversationUiState::fresh(
                                self.settings.word_wrap_diffs,
                                status.terminal_open,
                                status.terminal_height,
                            ),
                        )
                    },
                    ..self
                }
            },
        }
    }

    /// The draft on screen has become the thread of `status`.
    pub open spec fn commits_draft(self, status: SessionStatus) -> bool {
        &&& self.destination is Some
        &&& self.destination->0 matches ConversationDestination::ProjectDraft(draft)
        &&& destination_of(status) is Thread
        &&& status.project_id is Some
        &&& status.project_id->0@ == draft@
        &&& self.conversation_ui.contains_key(self.destination->0@)
    }

    /// How far a session's events are held.
    pub open spec fn resume_after(self, id: Seq<char>) -> Option<u64> {
        if self.from.contains_key(id) {
            Some((self.from[id] + self.records_of(id).len()) as u64)
        } else {
            None
        }
    }

    /// Show another session, subscribed from what is held of it.
    pub open spec fn enter(self, id: String) -> Self {
        let shown = StoreModel {
            selected: Some(id),
            baseline_topics: self.baseline_topics.remove(
                TopicName::SessionStatus { session_id: id@ },
            ).remove(TopicName::SessionEvents { session_id: id@ }),
            status: if self.statuses.contains_key(id@) {
                Some(self.statuses[id@])
            } else {
                None
            },
            git_status: if self.git_statuses.contains_key(id@) {
                self.git_statuses[id@]
            } else {
                GitStatusStatus { status: None, busy: false }
            },
            records: if self.records.contains_key(id@) {
                self.records
            } else {
                self.records.insert(id@, Seq::empty())
            },
            timeline: None,
            ..self
        };
        let status = shown.subscribe(Topic::SessionStatus { session_id: id }, None).subscribe(
            Topic::GitStatus { session_id: id },
            None,
        );
        let preview = if self.preview_backend {
            status.subscribe(Topic::Preview { session_id: id }, None)
        } else {
            status
        };
        preview.subscribe(
            Topic::SessionEvents { session_id: id },
            self.resume_after(id@),
        ).emit(Effect::SyncTerminalTopics).sync_ui()
    }

    pub open spec fn project_of(self, id: Seq<char>) -> Option<String> {
        match session_by_id(self.sessions, id) {
            Some(meta) => meta.project_id,
            None => None,
        }
    }

    pub open spec fn select(self, id: String) -> Self {
        if self.selects(id@) {
            self
        } else {
            self.remember(self.project_of(id@)).leave().enter(id)
        }
    }

    pub open spec fn start_draft(self, project_id: String, cwd: String) -> Self {
        self.remember(Some(project_id)).create(Command::StartDraft { project_id, cwd })
    }

    pub open spec fn open_last_draft(self) -> Self {
        if self.draft_fallback_pending {
            self
        } else {
            match draft_project(self.projects, self.settings.last_project_id) {
                Some(project) => StoreModel { draft_fallback_pending: true, ..self }.start_draft(
                    project.id,
                    project.root,
                ),
                None => self,
            }
        }
    }

    /// The visible parent of a session.
    pub open spec fn visible_parent(self, id: Seq<char>) -> Option<String> {
        match session_by_id(self.sessions, id) {
            Some(meta) => match meta.parent_session_id {
                Some(parent) => if self.visible(parent@) {
                    Some(parent)
                } else {
                    None
                },
                None => None,
            },
            None => None,
        }
    }

    /// Decide what the workspace shows after the index changed, when nothing
    /// is being delivered.
    pub open spec fn settle(self) -> Self {
        match self.status {
            Some(status) => if status.draft {
                if status.project_id is Some && !lists_project(
                    self.projects,
                    status.project_id->0@,
                ) {
                    self.leave().open_last_draft()
                } else {
                    self
                }
            } else if self.visible(status.session_id@) {
                self
            } else {
                match self.visible_parent(status.session_id@) {
                    Some(parent) => self.select(parent),
                    None => self.leave().open_last_draft(),
                }
            },
            None => if self.selected is Some {
                self
            } else {
                self.open_last_draft()
            },
        }
    }

    pub open spec fn reconcile(self, outbox: Outbox) -> Self {
        if self.delivery_messages(outbox).len() > 0 {
            self.retire_adopted(outbox)
        } else {
            self.retire_adopted(outbox).settle()
        }
    }

    // Events.

    pub open spec fn upsert_session(self, meta: SessionMeta) -> Self {
        StoreModel {
            sessions: most_recent_first(
                upserted(self.sessions, has_session_id(meta.id@), meta),
                Recency::Updated,
            ),
            ..self
        }
    }

    pub open spec fn upsert_project(self, project: Project) -> Self {
        StoreModel {
            projects: upserted(self.projects, has_project_id(project.id@), project),
            effects: self.effects.push(icon_invalidated(project)),
            ..self
        }
    }

    pub open spec fn remove_session(self, id: Seq<char>) -> Self {
        StoreModel {
            sessions: sessions_without(self.sessions, id),
            prefills: self.prefills.remove(id),
            blocks: self.blocks.remove(id),
            reviews: self.reviews.remove(id),
            conversation_ui: self.conversation_ui.remove(DestinationName::Thread(id)),
            ..self
        }
    }

    pub open spec fn remove_project(self, id: Seq<char>) -> Self {
        StoreModel {
            projects: projects_without(self.projects, id),
            import_statuses: self.import_statuses.remove(id),
            conversation_ui: self.conversation_ui.remove(DestinationName::ProjectDraft(id)),
            ..self
        }
    }

    pub open spec fn replace_index(self, snapshot: IndexSnapshot) -> Self {
        StoreModel {
            index_hydrated: true,
            baseline_topics: self.baseline_topics.insert(TopicName::Index),
            sessions: snapshot.sessions@,
            projects: snapshot.projects@,
            title_generating: snapshot.title_generating@,
            conversation_ui: self.conversation_ui.restrict(
                Set::new(
                    |destination: DestinationName|
                        listed(snapshot.projects@, snapshot.sessions@, destination),
                ),
            ),
            background_flags: match self.selected {
                Some(id) => snapshot.activity@.remove(id@),
                None => snapshot.activity@,
            },
            working_started_at: snapshot.working_started_at@,
            effects: self.effects + icons_invalidated(snapshot.projects@),
            ..self
        }
    }

    pub open spec fn replace_settings(self, settings: Settings, baseline: bool) -> Self {
        StoreModel {
            settings,
            settings_hydrated: true,
            baseline_topics: if baseline {
                self.baseline_topics.insert(TopicName::Settings)
            } else {
                self.baseline_topics
            },
            ..self
        }
    }

    pub open spec fn replace_git_status(self, id: Seq<char>, status: GitStatusStatus) -> Self {
        StoreModel {
            git_statuses: self.git_statuses.insert(id, status),
            git_status: if self.selects(id) {
                status
            } else {
                self.git_status
            },
            ..self
        }
    }

    pub open spec fn replace_status(self, id: Seq<char>, status: SessionStatus) -> Self {
        let known = StoreModel {
            baseline_topics: self.baseline_topics.insert(
                TopicName::SessionStatus { session_id: id },
            ),
            statuses: self.statuses.insert(id, status),
            ..self
        };
        if self.selects(id) {
            let shown = StoreModel {
                status: Some(with_prefill(status, self.prefills.contains_key(id))),
                ..known
            }.emit(Effect::SyncTerminalTopics).sync_ui();
            StoreModel { background_flags: shown.background_flags.remove(id), ..shown }
        } else {
            StoreModel {
                background_flags: self.background_flags.insert(id, flags_of(status)),
                ..known
            }
        }
    }

    /// A snapshot that does not continue what is held: drop what is held and
    /// ask for the session's events from the start.
    pub open spec fn restart_history(self, topic: Topic, id: Seq<char>) -> Self {
        StoreModel {
            records: self.records.insert(id, Seq::empty()),
            from: self.from.remove(id),
            timeline: None,
            hydrated_sessions: self.hydrated_sessions.remove(id),
            baseline_topics: self.baseline_topics.remove(topic@),
            catching_up: false,
            ..self
        }.subscribe(topic, None)
    }

    /// The position a session's held records start at.
    pub open spec fn start_of(self, id: Seq<char>, from: u64) -> u64 {
        if from == 0 {
            0
        } else if self.from.contains_key(id) {
            self.from[id]
        } else {
            from
        }
    }

    /// The records held once a snapshot from `from` is known to continue them.
    pub open spec fn base_records(self, id: Seq<char>, from: u64) -> Seq<StoredEvent> {
        if from == 0 {
            Seq::empty()
        } else {
            self.records_of(id)
        }
    }

    /// A snapshot from `from` starts over or continues what is held.
    pub open spec fn continues(self, id: Seq<char>, from: u64) -> bool {
        from == 0 || from == self.start_of(id, from) + self.records_of(id).len()
    }

    /// The topic of a session's events.
    pub open spec fn apply_snapshot(
        self,
        topic: Topic,
        id: Seq<char>,
        from: u64,
        records: Seq<StoredEvent>,
        total: u64,
        total_turns: usize,
    ) -> SnapshotStep {
        if !self.selects(id) {
            SnapshotStep { state: self, work: None }
        } else if !self.continues(id, from) {
            SnapshotStep { state: self.restart_history(topic, id), work: None }
        } else {
            let started = StoreModel {
                records: self.records.insert(id, self.base_records(id, from)),
                from: self.from.insert(id, self.start_of(id, from)),
                ..self
            };
            if records.len() == 0 && from != 0 && self.timeline is Some {
                SnapshotStep {
                    state: StoreModel {
                        baseline_topics: self.baseline_topics.insert(topic@),
                        hydrated_sessions: self.hydrated_sessions.insert(id),
                        ..started
                    },
                    work: None,
                }
            } else {
                let held = self.base_records(id, from) + records;
                let after = (self.start_of(id, from) + held.len()) as u64;
                let extended = StoreModel {
                    records: self.records.insert(id, held),
                    catching_up: after < total,
                    ..started
                }.emit(Effect::UpdateAfter { topic, after });
                SnapshotStep {
                    state: extended,
                    work: if after < total {
                        None
                    } else {
                        Some(
                            TimelineWork::Fold {
                                session_id: self.selected->0,
                                total_turns,
                                idle: !(self.status is Some && self.status->0.turn_running),
                            },
                        )
                    },
                }
            }
        }
    }

    /// The fold of the selected session's records is on screen.
    pub open spec fn install_timeline(self, timeline: Timeline, total_turns: usize) -> Self {
        match self.selected {
            None => self,
            Some(id) => StoreModel {
                baseline_topics: self.baseline_topics.insert(
                    TopicName::SessionEvents { session_id: id@ },
                ),
                hydrated_sessions: self.hydrated_sessions.insert(id@),
                turn_offset: if total_turns >= timeline.turns@.len() {
                    (total_turns - timeline.turns@.len()) as usize
                } else {
                    0
                },
                timeline: Some(SessionReplica { session_id: id, timeline }),
                ..self
            }.emit(Effect::LoadPendingChatHistory),
        }
    }

    pub open spec fn conversation_event(self, id: Seq<char>, kind: EventKind) -> Self {
        let destination = DestinationName::Thread(id);
        if self.conversation_ui.contains_key(destination) {
            StoreModel {
                conversation_ui: self.conversation_ui.insert(
                    destination,
                    ui_after_event(
                        self.conversation_ui[destination],
                        kind,
                        self.settings.auto_open_task_panel,
                    ),
                ),
                ..self
            }
        } else {
            self
        }
    }

    /// Live events of a session are applied once its history is complete.
    pub open spec fn takes_events(self, id: Seq<char>) -> bool {
        self.selects(id) && !self.catching_up && self.from.contains_key(id)
    }

    pub open spec fn append_event(self, topic: Topic, id: Seq<char>, record: StoredEvent) -> Self {
        let held = self.records_of(id).push(record);
        let extended = StoreModel { records: self.records.insert(id, held), ..self }.emit(
            Effect::UpdateAfter { topic, after: (self.from[id] + held.len()) as u64 },
        );
        let moved_on = if record.kind == EventKind::TurnStarted {
            StoreModel {
                blocks: extended.blocks.remove(id),
                reviews: extended.reviews.remove(id),
                ..extended
            }
        } else {
            extended
        };
        moved_on.conversation_event(id, record.kind)
    }

    pub open spec fn receive_prefill(self, id: Seq<char>, text: String) -> Self {
        StoreModel {
            prefills: self.prefills.insert(id, text),
            status: match self.status {
                Some(status) => if status.session_id@ == id {
                    Some(with_prefill(status, true))
                } else {
                    Some(status)
                },
                None => None,
            },
            ..self
        }
    }

    /// What a published event changes, and whether the store goes on to look
    /// for pending history.
    pub open spec fn apply(self, envelope: EventEnvelope) -> EventStep {
        match (envelope.topic, envelope.event) {
            (
                Topic::Preview { session_id },
                ServerEvent::PreviewRequest { session_id: requested, request },
            ) => if session_id@ == requested@ && self.selects(session_id@) {
                EventStep::changed(self.emit(Effect::ForwardPreview { session_id, request }))
            } else {
                EventStep::changed(self)
            },
            (
                Topic::Terminal { terminal_id },
                ServerEvent::TerminalFrame { terminal_id: frame_id, frame },
            ) => if terminal_id == frame_id {
                EventStep::changed(self.emit(Effect::TerminalFrame { terminal_id, frame }))
            } else {
                EventStep::changed(self)
            },
            (
                Topic::Terminal { terminal_id },
                ServerEvent::TerminalDelta { terminal_id: delta_id, delta },
            ) => if terminal_id == delta_id {
                EventStep::changed(self.emit(Effect::TerminalDelta { terminal_id, delta }))
            } else {
                EventStep::changed(self)
            },
            (Topic::Index, ServerEvent::IndexUpsertSession(meta)) => EventStep::changed(
                self.upsert_session(meta),
            ),
            (Topic::Index, ServerEvent::IndexUpsertProject(project)) => EventStep::changed(
                self.upsert_project(project),
            ),
            (Topic::Index, ServerEvent::IndexRemoveSession { session_id }) => EventStep::changed(
                self.remove_session(session_id@),
            ),
            (Topic::Index, ServerEvent::IndexRemoveProject { project_id }) => EventStep::changed(
                self.remove_project(project_id@),
            ),
            (
                Topic::ExternalImport { project_id },
                ServerEvent::ExternalImportStatusReplaced { project_id: replaced, status },
            ) => if project_id@ == replaced@ {
                EventStep::changed(
                    StoreModel {
                        import_statuses: self.import_statuses.insert(project_id@, status),
                        ..self
                    },
                )
            } else {
                EventStep::changed(self)
            },
            (Topic::Index, ServerEvent::IndexSnapshot(snapshot)) => EventStep::changed(
                self.replace_index(snapshot),
            ),
            (Topic::Settings, ServerEvent::SettingsReplaced(settings)) => EventStep::changed(
                self.replace_settings(settings, false),
            ),
            (Topic::Settings, ServerEvent::SettingsSnapshot(settings)) => EventStep::changed(
                self.replace_settings(settings, true),
            ),
            (Topic::Providers, ServerEvent::ProvidersReplaced(status)) => EventStep::changed(
                StoreModel { providers: status, ..self },
            ),
            (Topic::GitStatus { session_id }, ServerEvent::GitStatusReplaced(status)) =>
                EventStep::changed(self.replace_git_status(session_id@, status)),
            (Topic::SessionStatus { session_id }, ServerEvent::SessionStatusReplaced(status)) =>
                if status.session_id@ == session_id@ {
                EventStep::changed(self.replace_status(session_id@, status))
            } else {
                EventStep::changed(self)
            },
            (Topic::SessionEvents { session_id }, ServerEvent::SessionHistoryError(message)) =>
                if self.selects(session_id@) {
                EventStep::changed(StoreModel { history_error: Some(message), ..self })
            } else {
                EventStep::changed(self)
            },
            (
                Topic::SessionEvents { session_id },
                ServerEvent::SessionSnapshot { from, records, total, total_turns },
            ) => {
                let step = self.apply_snapshot(
                    envelope.topic,
                    session_id@,
                    from,
                    records@,
                    total,
                    total_turns,
                );
                EventStep { state: step.state, goes_on: false, work: step.work }
            },
            (Topic::SessionEvents { session_id }, ServerEvent::SessionEvent(record)) =>
                if self.takes_events(session_id@) {
                EventStep {
                    state: self.append_event(envelope.topic, session_id@, record),
                    goes_on: true,
                    work: if self.timeline is Some && self.timeline->0.session_id@ == session_id@ {
                        Some(TimelineWork::Append { session_id, record })
                    } else {
                        None
                    },
                }
            } else {
                EventStep { state: self, goes_on: false, work: None }
            },
            (
                Topic::SessionStatus { session_id },
                ServerEvent::NativeRewindPrefill { session_id: published, text },
            ) => if session_id@ == published@ {
                EventStep::changed(self.receive_prefill(session_id@, text))
            } else {
                EventStep::changed(self)
            },
            (
                Topic::SessionStatus { session_id },
                ServerEvent::ModelFallbackBlocked {
                    session_id: published,
                    category,
                    model,
                    fallback_model,
                    detail,
                },
            ) => if session_id@ == published@ {
                EventStep::changed(
                    StoreModel {
                        blocks: self.blocks.insert(
                            session_id@,
                            FallbackBlock { category, model, fallback_model, detail },
                        ),
                        ..self
                    },
                )
            } else {
                EventStep::changed(self)
            },
            (
                Topic::SessionStatus { session_id },
                ServerEvent::FallbackReviewReady { session_id: published, assessment, draft },
            ) => if session_id@ == published@ {
                EventStep::changed(
                    StoreModel {
                        reviews: self.reviews.insert(
                            session_id@,
                            FallbackReview { assessment, draft },
                        ),
                        ..self
                    },
                )
            } else {
                EventStep::changed(self)
            },
            _ => EventStep::changed(self),
        }
    }

    /// The whole answer to a published event. A reply to a subscription that
    /// has been replaced changes nothing; every index mutation re-decides what
    /// is on screen.
    pub open spec fn domain_event(self, envelope: EventEnvelope, current: bool, outbox: Outbox) ->
        EventStep {
        if !current {
            EventStep { state: self, goes_on: false, work: None }
        } else {
            let step = self.apply(envelope);
            if !step.goes_on {
                step
            } else {
                let loaded = step.state.emit(Effect::LoadPendingChatHistory);
                EventStep {
                    state: if envelope.topic is Index {
                        loaded.reconcile(outbox)
                    } else {
                        loaded
                    },
                    ..step
                }
            }
        }
    }

    /// The positions that taking the event leads to fit the cursors' type.
    pub open spec fn admits(self, envelope: EventEnvelope) -> bool {
        match (envelope.topic, envelope.event) {
            (
                Topic::SessionEvents { session_id },
                ServerEvent::SessionSnapshot { from, records, .. },
            ) => self.selects(session_id@) && self.continues(session_id@, from) ==> from
                + records@.len() <= u64::MAX,
            (Topic::SessionEvents { session_id }, ServerEvent::SessionEvent(record)) =>
                self.takes_events(session_id@) ==> self.from[session_id@] + self.records_of(
                session_id@,
            ).len() < u64::MAX,
            _ => true,
        }
    }
}

/// Cursors fit as long as what they count is untouched.
pub proof fn lemma_cursors_kept(before: StoreModel, after: StoreModel)
    requires
        before.cursors_fit(),
        after.from == before.from,
        after.records == before.records,
    ensures
        after.cursors_fit(),
{
    assert forall|id: Seq<char>| #[trigger] after.from.contains_key(id) implies after.from[id]
        + after.records_of(id).len() <= u64::MAX by {
        assert(before.from.contains_key(id));
        assert(after.records_of(id) == before.records_of(id));
    }
}

/// A state reached, whether the store goes on, and work for the folder of
/// timelines.
pub struct EventStep {
    pub state: StoreModel,
    pub goes_on: bool,
    pub work: Option<TimelineWork>,
}

impl EventStep {
    pub open spec fn changed(state: StoreModel) -> Self {
        EventStep { state, goes_on: true, work: None }
    }
}

} // verus!
