//! The client-facing projection and command boundary for workspace state.
//!
//! A store takes what the host publishes and what the user does, one step at a
//! time. What has to happen outside (subscriptions, commands, terminal
//! emulation, folding timelines) it only decides: it queues effects, and the
//! shell carries them out in order.
use crate::command::{Command, Effect};
use crate::conversation_ui::ConversationUiState;
use crate::keyed::{KeyedMap, KeyedSet};
use crate::protocol::{
    copy_text, ConnectionState, ConversationDestination, GitStatusStatus, HostValue, Project,
    ProvidersStatus, SessionFlags, SessionMeta, SessionStatus, Settings, StoredEvent,
    ThemePreference, Timeline, Topic,
};
use crate::store::model::StoreModel;
use vstd::prelude::*;

pub mod chat;
pub mod connection;
pub mod delivery;
pub mod delivery_laws;
pub mod event_laws;
pub mod events;
pub mod frame_laws;
pub mod images;
pub mod intents;
pub mod laws;
pub mod model;
pub mod navigation;
pub mod panels;
pub mod providers;
pub mod queries;
pub mod requests;
pub mod screen_laws;
pub mod snapshots;
pub mod view_laws;

verus! {

/// Payload-free topic discriminant used by views to subscribe only to the
/// store projections they render.
#[derive(Debug, Clone, Copy, PartialEq, Eq, Structural)]
pub enum TopicKind {
    SessionEvents,
    SessionStatus,
    Index,
    Settings,
    Providers,
    GitStatus,
    RuntimeEvents,
    ActiveSession,
    Terminal,
    Preview,
    ExternalImport,
}

/// The kind of a topic.
pub open spec fn kind_of(topic: Topic) -> TopicKind {
    match topic {
        Topic::SessionEvents { .. } => TopicKind::SessionEvents,
        Topic::SessionStatus { .. } => TopicKind::SessionStatus,
        Topic::Index => TopicKind::Index,
        Topic::Settings => TopicKind::Settings,
        Topic::Providers => TopicKind::Providers,
        Topic::GitStatus { .. } => TopicKind::GitStatus,
        Topic::RuntimeEvents => TopicKind::RuntimeEvents,
        Topic::Terminal { .. } => TopicKind::Terminal,
        Topic::Preview { .. } => TopicKind::Preview,
        Topic::ExternalImport { .. } => TopicKind::ExternalImport,
    }
}

impl From<&Topic> for TopicKind {
    fn from(topic: &Topic) -> (kind: Self) {
        match topic {
            Topic::SessionEvents { .. } => TopicKind::SessionEvents,
            Topic::SessionStatus { .. } => TopicKind::SessionStatus,
            Topic::Index => TopicKind::Index,
            Topic::Settings => TopicKind::Settings,
            Topic::Providers => TopicKind::Providers,
            Topic::GitStatus { .. } => TopicKind::GitStatus,
            Topic::RuntimeEvents => TopicKind::RuntimeEvents,
            Topic::Terminal { .. } => TopicKind::Terminal,
            Topic::Preview { .. } => TopicKind::Preview,
            Topic::ExternalImport { .. } => TopicKind::ExternalImport,
        }
    }
}

impl vstd::std_specs::convert::FromSpecImpl<&Topic> for TopicKind {
    open spec fn obeys_from_spec() -> bool {
        true
    }

    open spec fn from_spec(topic: &Topic) -> TopicKind {
        kind_of(*topic)
    }
}

/// A projection that views may have to draw again.
#[derive(Debug, Clone, Copy, PartialEq, Eq, Structural)]
pub struct StoreChange {
    pub topic: TopicKind,
}

/// Whether a view that shows these topics has to draw again.
pub fn observes(topics: &[TopicKind], change: StoreChange) -> (redraw: bool)
    ensures
        redraw == topics@.contains(change.topic),
{
    let mut i: usize = 0;
    while i < topics.len()
        invariant
            i <= topics@.len(),
            forall|j: int| 0 <= j < i ==> #[trigger] topics@[j] != change.topic,
        decreases topics@.len() - i,
    {
        if topics[i] == change.topic {
            return true;
        }
        i += 1;
    }
    false
}

/// Identity fixed for one workspace attachment.
#[derive(Debug)]
pub enum WorkspaceAttachment {
    Local,
    Remote { host_id: String, host_name: String },
}

impl Clone for WorkspaceAttachment {
    fn clone(&self) -> (copy: Self)
        ensures
            copy == *self,
    {
        match self {
            WorkspaceAttachment::Local => WorkspaceAttachment::Local,
            WorkspaceAttachment::Remote { host_id, host_name } => WorkspaceAttachment::Remote {
                host_id: host_id.clone(),
                host_name: host_name.clone(),
            },
        }
    }
}

/// A turn stopped by a safety classifier, kept per session so the composer can
/// offer recovery after the turn already ended.
#[derive(Debug)]
pub struct FallbackBlock {
    pub category: Option<HostValue>,
    /// The model that refused (or was expected, on a silent reroute).
    pub model: Option<String>,
    /// The model rerouted to; `None` when the request was blocked.
    pub fallback_model: Option<String>,
    pub detail: String,
}

impl Clone for FallbackBlock {
    fn clone(&self) -> (copy: Self)
        ensures
            copy == *self,
    {
        FallbackBlock {
            category: self.category.clone(),
            model: copy_text(&self.model),
            fallback_model: copy_text(&self.fallback_model),
            detail: self.detail.clone(),
        }
    }
}

/// A second model's read on a classifier stop: whether it looks like a false
/// positive, plus a clarification the user may review, edit and send.
#[derive(Debug)]
pub struct FallbackReview {
    pub assessment: String,
    /// Empty when the flag was not judged a false positive.
    pub draft: String,
}

impl Clone for FallbackReview {
    fn clone(&self) -> (copy: Self)
        ensures
            copy == *self,
    {
        FallbackReview { assessment: self.assessment.clone(), draft: self.draft.clone() }
    }
}

/// A rendered thread export as it arrives from the host: complete bytes, a file
/// name that is legal on any client OS, and the type to hand a download or
/// share sheet.
#[derive(Debug, Clone, PartialEq, Eq)]
pub struct ThreadExportArtifact {
    pub bytes: Vec<u8>,
    pub suggested_name: String,
    pub mime: String,
}

/// Whether a thread can be forked, and if not, why.
#[derive(Debug, Clone, Copy, PartialEq, Eq, Structural)]
pub enum ForkAvailability {
    Available,
    Unsupported,
    Empty,
    Running,
}

/// A message on its way to the host, as the chat shows it.
#[derive(Debug)]
pub struct DeliveryMessage {
    pub key: String,
    pub text: String,
    /// Why the host refused it.
    pub error: Option<String>,
    pub acknowledged: bool,
}

/// Work on a session's timeline that an event asks for.
#[derive(Debug)]
pub enum TimelineWork {
    /// Fold the records held for the session from the start, mark the result
    /// idle if so told, and install it.
    Fold { session_id: String, total_turns: usize, idle: bool },
    /// Apply one more record to the timeline on screen.
    Append { session_id: String, record: StoredEvent },
}

/// The folded events of the session on screen.
#[derive(Debug)]
pub struct SessionReplica {
    pub session_id: String,
    pub timeline: Timeline,
}

/// A turn to bring into sight once its session is on screen.
#[derive(Debug)]
pub struct PendingTurn {
    pub session_id: String,
    pub turn: usize,
}

/// What this device remembers, apart from the host's settings.
#[derive(Debug)]
pub struct ClientPreferences {
    pub appearance: Option<String>,
    pub language: Option<String>,
    pub device_name: Option<String>,
}

impl Default for ClientPreferences {
    fn default() -> (preferences: Self)
        ensures
            preferences == (ClientPreferences {
                appearance: None,
                language: None,
                device_name: None,
            }),
    {
        ClientPreferences { appearance: None, language: None, device_name: None }
    }
}

/// The appearance a stored preference names.
pub open spec fn appearance_named(name: Option<String>) -> Option<ThemePreference> {
    match name {
        Some(text) => if text@ == "system"@ {
            Some(ThemePreference::System)
        } else if text@ == "light"@ {
            Some(ThemePreference::Light)
        } else if text@ == "dark"@ {
            Some(ThemePreference::Dark)
        } else {
            None
        },
        None => None,
    }
}

/// The appearance a stored preference names.
pub fn parse_appearance(name: &Option<String>) -> (appearance: Option<ThemePreference>)
    ensures
        appearance == appearance_named(*name),
{
    match name {
        Some(text) => {
            if *text.as_str() == *"system" {
                Some(ThemePreference::System)
            } else if *text.as_str() == *"light" {
                Some(ThemePreference::Light)
            } else if *text.as_str() == *"dark" {
                Some(ThemePreference::Dark)
            } else {
                None
            }
        },
        None => None,
    }
}

/// The language in effect: the device's own, where `system` stands for none,
/// else the host's.
pub open spec fn language_in_effect(host: Option<String>, client: Option<String>) -> Option<
    Seq<char>,
> {
    match client {
        Some(language) => if language@ == "system"@ {
            None
        } else {
            Some(language@)
        },
        None => match host {
            Some(language) => Some(language@),
            None => None,
        },
    }
}

/// The host's settings with this device's overrides.
pub fn effective_client_settings(host: &Settings, preferences: &ClientPreferences) -> (settings:
    Settings)
    ensures
        settings.theme_mode == (match appearance_named(preferences.appearance) {
            Some(mode) => mode,
            None => host.theme_mode,
        }),
        match language_in_effect(host.language, preferences.language) {
            Some(language) => settings.language is Some && settings.language->0@ == language,
            None => settings.language is None,
        },
        settings == (Settings {
            theme_mode: settings.theme_mode,
            language: settings.language,
            ..*host
        }),
{
    let mut settings = host.clone();
    match parse_appearance(&preferences.appearance) {
        Some(mode) => {
            settings.theme_mode = mode;
        },
        None => {},
    }
    match &preferences.language {
        Some(language) => {
            settings.language = if *language.as_str() == *"system" {
                None
            } else {
                Some(language.clone())
            };
        },
        None => {},
    }
    settings
}

/// The store of one attachment.
pub struct WorkspaceStore {
    pub attachment: WorkspaceAttachment,
    pub preview_backend: bool,
    pub client_preferences: ClientPreferences,
    pub connection_state: ConnectionState,
    pub import_statuses: KeyedMap<String, Option<HostValue>>,
    pub sessions: Vec<SessionMeta>,
    pub projects: Vec<Project>,
    pub title_generating: KeyedSet<String>,
    pub settings_replica: Settings,
    pub settings_hydrated: bool,
    pub baseline_topics: KeyedSet<Topic>,
    pub index_hydrated: bool,
    pub last_refresh_attempt: Option<u32>,
    pub hydrated_sessions: KeyedSet<String>,
    pub selected_session_id: Option<String>,
    pub session_records: KeyedMap<String, Vec<StoredEvent>>,
    pub session_from: KeyedMap<String, u64>,
    pub selection_generation: u64,
    pub session_turn_offset: usize,
    pub history_error: Option<String>,
    pub history_pages_fetched: usize,
    pub history_logged_records: Option<usize>,
    pub session_catching_up: bool,
    pub session_statuses: KeyedMap<String, SessionStatus>,
    pub git_statuses: KeyedMap<String, GitStatusStatus>,
    pub session_replica: Option<SessionReplica>,
    pub session_status_replica: Option<SessionStatus>,
    pub providers_replica: ProvidersStatus,
    pub git_status_replica: GitStatusStatus,
    pub background_session_flags: KeyedMap<String, SessionFlags>,
    pub working_started_at: KeyedMap<String, u64>,
    pub active_destination: Option<ConversationDestination>,
    /// One-shot turn navigation requested by a cross-session content search.
    pub pending_chat_turn: Option<PendingTurn>,
    pub native_rewind_prefills: KeyedMap<String, String>,
    pub fallback_blocks: KeyedMap<String, FallbackBlock>,
    pub fallback_reviews: KeyedMap<String, FallbackReview>,
    pub conversation_ui: KeyedMap<ConversationDestination, ConversationUiState>,
    /// A project-draft fallback is in flight, so the reconcile step does not
    /// ask for one more draft per index event while it resolves.
    pub draft_fallback_pending: bool,
    pub effects: Vec<Effect>,
}

/// The records held per session.
pub open spec fn record_lists(map: Map<Seq<char>, Vec<StoredEvent>>) -> Map<
    Seq<char>,
    Seq<StoredEvent>,
> {
    Map::new(|id: Seq<char>| map.contains_key(id), |id: Seq<char>| map[id]@)
}

impl View for WorkspaceStore {
    type V = StoreModel;

    open spec fn view(&self) -> StoreModel {
        StoreModel {
            attachment: self.attachment,
            preview_backend: self.preview_backend,
            client_preferences: self.client_preferences,
            connection_state: self.connection_state,
            import_statuses: self.import_statuses@,
            sessions: self.sessions@,
            projects: self.projects@,
            title_generating: self.title_generating@,
            settings: self.settings_replica,
            settings_hydrated: self.settings_hydrated,
            baseline_topics: self.baseline_topics@,
            index_hydrated: self.index_hydrated,
            last_refresh_attempt: self.last_refresh_attempt,
            hydrated_sessions: self.hydrated_sessions@,
            selected: self.selected_session_id,
            records: record_lists(self.session_records@),
            from: self.session_from@,
            selection_generation: self.selection_generation,
            turn_offset: self.session_turn_offset,
            history_error: self.history_error,
            history_pages_fetched: self.history_pages_fetched,
            history_logged_records: self.history_logged_records,
            catching_up: self.session_catching_up,
            statuses: self.session_statuses@,
            git_statuses: self.git_statuses@,
            timeline: self.session_replica,
            status: self.session_status_replica,
            providers: self.providers_replica,
            git_status: self.git_status_replica,
            background_flags: self.background_session_flags@,
            working_started_at: self.working_started_at@,
            destination: self.active_destination,
            pending_chat_turn: self.pending_chat_turn,
            prefills: self.native_rewind_prefills@,
            blocks: self.fallback_blocks@,
            reviews: self.fallback_reviews@,
            conversation_ui: self.conversation_ui@,
            draft_fallback_pending: self.draft_fallback_pending,
            effects: self.effects@,
        }
    }
}

impl WorkspaceStore {
    /// A store that knows nothing of its host but how it is attached.
    pub open spec fn is_blank(
        self,
        attachment: WorkspaceAttachment,
        link: ConnectionState,
    ) -> bool {
        &&& self.attachment == attachment
        &&& self.connection_state == (if attachment is Remote {
            link
        } else {
            ConnectionState::Connected
        })
        &&& !self.settings_hydrated
        &&& !self.index_hydrated
        &&& self@.baseline_topics == Set::<crate::protocol::TopicName>::empty()
        &&& self@.sessions.len() == 0
        &&& self@.projects.len() == 0
        &&& self@.selected is None
        &&& self@.status is None
        &&& self@.timeline is None
        &&& self@.destination is None
        &&& self@.records == Map::<Seq<char>, Seq<StoredEvent>>::empty()
        &&& self@.from == Map::<Seq<char>, u64>::empty()
        &&& self@.statuses == Map::<Seq<char>, SessionStatus>::empty()
        &&& self@.background_flags == Map::<Seq<char>, SessionFlags>::empty()
        &&& self@.conversation_ui == Map::<
            crate::protocol::DestinationName,
            ConversationUiState,
        >::empty()
        &&& self@.blocks == Map::<Seq<char>, FallbackBlock>::empty()
        &&& self@.reviews == Map::<Seq<char>, FallbackReview>::empty()
        &&& self@.prefills == Map::<Seq<char>, String>::empty()
        &&& self@.import_statuses == Map::<Seq<char>, Option<HostValue>>::empty()
        &&& self@.git_statuses == Map::<Seq<char>, GitStatusStatus>::empty()
        &&& self@.hydrated_sessions == Set::<Seq<char>>::empty()
        &&& self@.title_generating == Set::<Seq<char>>::empty()
        &&& self@.working_started_at == Map::<Seq<char>, u64>::empty()
        &&& !self@.catching_up
        &&& !self@.draft_fallback_pending
        &&& self@.last_refresh_attempt is None
        &&& self@.pending_chat_turn is None
        &&& self@.history_error is None
        &&& self@.history_pages_fetched == 0
        &&& self@.history_logged_records is None
        &&& self@.selection_generation == 0
        &&& self@.turn_offset == 0
        &&& self@.providers.is_blank()
        &&& self@.git_status == (GitStatusStatus { status: None, busy: false })
    }

    /// The store of a new attachment. It subscribes to settings, the index,
    /// providers and runtime events, settings first: the index seed reconciles
    /// the destination, and that decision reads the remembered project out of
    /// the settings. `defaults` are the settings until the host's arrive.
    pub fn new_attached(
        attachment: WorkspaceAttachment,
        link: ConnectionState,
        client_preferences: ClientPreferences,
        preview_backend: bool,
        defaults: Settings,
    ) -> (store: Self)
        ensures
            store.is_blank(attachment, link),
            store@.coherent(),
            store.client_preferences == client_preferences,
            store.preview_backend == preview_backend,
            store.settings_replica == defaults,
            store.effects@ == seq![
                Effect::Subscribe { topic: Topic::Settings, after: None },
                Effect::Subscribe { topic: Topic::Index, after: None },
                Effect::Subscribe { topic: Topic::Providers, after: None },
                Effect::Subscribe { topic: Topic::RuntimeEvents, after: None },
            ],
    {
        let remote = match &attachment {
            WorkspaceAttachment::Local => false,
            WorkspaceAttachment::Remote { .. } => true,
        };
        let mut effects: Vec<Effect> = Vec::new();
        effects.push(Effect::Subscribe { topic: Topic::Settings, after: None });
        effects.push(Effect::Subscribe { topic: Topic::Index, after: None });
        effects.push(Effect::Subscribe { topic: Topic::Providers, after: None });
        effects.push(Effect::Subscribe { topic: Topic::RuntimeEvents, after: None });
        let store = WorkspaceStore {
            attachment,
            preview_backend,
            client_preferences,
            connection_state: if remote {
                link
            } else {
                ConnectionState::Connected
            },
            import_statuses: KeyedMap::new(),
            sessions: Vec::new(),
            projects: Vec::new(),
            title_generating: KeyedSet::new(),
            settings_replica: defaults,
            settings_hydrated: false,
            baseline_topics: KeyedSet::new(),
            index_hydrated: false,
            last_refresh_attempt: None,
            hydrated_sessions: KeyedSet::new(),
            selected_session_id: None,
            session_records: KeyedMap::new(),
            session_from: KeyedMap::new(),
            selection_generation: 0,
            session_turn_offset: 0,
            history_error: None,
            history_pages_fetched: 0,
            history_logged_records: None,
            session_catching_up: false,
            session_statuses: KeyedMap::new(),
            git_statuses: KeyedMap::new(),
            session_replica: None,
            session_status_replica: None,
            providers_replica: ProvidersStatus::default(),
            git_status_replica: GitStatusStatus::default(),
            background_session_flags: KeyedMap::new(),
            working_started_at: KeyedMap::new(),
            active_destination: None,
            pending_chat_turn: None,
            native_rewind_prefills: KeyedMap::new(),
            fallback_blocks: KeyedMap::new(),
            fallback_reviews: KeyedMap::new(),
            conversation_ui: KeyedMap::new(),
            draft_fallback_pending: false,
            effects,
        };
        assert(store@.records =~= Map::<Seq<char>, Seq<StoredEvent>>::empty());
        store
    }

    /// The store of this machine's own workspace.
    pub fn new(preview_backend: bool, defaults: Settings) -> (store: Self)
        ensures
            store.is_blank(WorkspaceAttachment::Local, ConnectionState::Connected),
            store@.coherent(),
            store.client_preferences == (ClientPreferences {
                appearance: None,
                language: None,
                device_name: None,
            }),
            store.preview_backend == preview_backend,
            store.settings_replica == defaults,
            store.effects@ == seq![
                Effect::Subscribe { topic: Topic::Settings, after: None },
                Effect::Subscribe { topic: Topic::Index, after: None },
                Effect::Subscribe { topic: Topic::Providers, after: None },
                Effect::Subscribe { topic: Topic::RuntimeEvents, after: None },
            ],
    {
        WorkspaceStore::new_attached(
            WorkspaceAttachment::Local,
            ConnectionState::Connected,
            ClientPreferences::default(),
            preview_backend,
            defaults,
        )
    }

    /// Take what was decided since the last call, oldest first.
    pub fn take_effects(&mut self) -> (effects: Vec<Effect>)
        ensures
            effects@ == old(self)@.effects,
            final(self)@ == (StoreModel { effects: Seq::empty(), ..old(self)@ }),
    {
        let mut effects: Vec<Effect> = Vec::new();
        std::mem::swap(&mut effects, &mut self.effects);
        effects
    }

    /// Queue one effect.
    pub(crate) fn emit(&mut self, effect: Effect)
        ensures
            final(self)@ == old(self)@.emit(effect),
    {
        self.effects.push(effect);
    }

    pub(crate) fn dispatch(&mut self, command: Command)
        ensures
            final(self)@ == old(self)@.dispatch(command),
    {
        self.effects.push(Effect::Dispatch(command));
    }

    /// Whether `id` is the selected session.
    pub fn selects(&self, id: &str) -> (selected: bool)
        ensures
            selected == self@.selects(id@),
    {
        match &self.selected_session_id {
            Some(selected) => *selected.as_str() == *id,
            None => false,
        }
    }

    /// The id of the session on screen.
    pub fn active_session_id(&self) -> (id: Option<String>)
        ensures
            id == self@.selected,
    {
        copy_text(&self.selected_session_id)
    }

    /// The id of the session on screen, or an empty one.
    pub(crate) fn active_id(&self) -> (id: String)
        ensures
            id@ == self@.active(),
            self@.selected is Some ==> id == self@.selected->0,
    {
        match &self.selected_session_id {
            Some(id) => id.clone(),
            None => String::new(),
        }
    }
}

} // verus!
