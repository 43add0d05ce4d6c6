//! The values a workspace host publishes and the commands it takes.
//!
//! Only what the client decides on is spelled out. What it merely carries from
//! the host to a view, or from a view to the host, is a [`HostValue`].
//! Lists that arrive whole and are never edited are shared.
use crate::keyed::{Key, KeyedMap, KeyedSet};
use std::rc::Rc;
use vstd::prelude::*;

verus! {

/// A length in pixels, as the bits of its single-precision value. The library
/// carries lengths; only the painter computes with them.
#[derive(Clone, Copy, Debug, PartialEq, Eq, Structural)]
pub struct PixelBits(pub u32);

/// A copy of an optional text.
pub fn copy_text(text: &Option<String>) -> (copy: Option<String>)
    ensures
        copy == *text,
{
    match text {
        Some(held) => Some(held.clone()),
        None => None,
    }
}

/// A shared list, once more.
pub fn share<T>(list: &Rc<Vec<T>>) -> (copy: Rc<Vec<T>>)
    ensures
        copy == *list,
{
    list.clone()
}

fn copy_worktree(worktree: &Option<WorktreeInfo>) -> (copy: Option<WorktreeInfo>)
    ensures
        copy == *worktree,
{
    match worktree {
        Some(held) => Some(held.clone()),
        None => None,
    }
}

fn copy_relay(relay: &Option<RelayConfirmation>) -> (copy: Option<RelayConfirmation>)
    ensures
        copy == *relay,
{
    match relay {
        Some(held) => Some(held.clone()),
        None => None,
    }
}

/// The bits of `240.0`, the height of a terminal drawer nobody has resized.
pub const DEFAULT_TERMINAL_HEIGHT: u32 = 0x4370_0000;

/// The agent program behind a session.
#[derive(Clone, Copy, Debug, PartialEq, Eq, Structural)]
pub enum ProviderKind {
    Codex,
    ClaudeCode,
    Pi,
    OpenCode,
    Acp,
}

impl View for ProviderKind {
    type V = ProviderKind;

    open spec fn view(&self) -> ProviderKind {
        *self
    }
}

impl Key for ProviderKind {
    fn same(&self, other: &Self) -> (same: bool) {
        *self == *other
    }
}

/// What a provider can do.
#[derive(Clone, Copy, Debug, PartialEq, Eq, Structural)]
pub struct ProviderCaps {
    pub supports_fork: bool,
    pub native_rewind: bool,
    pub downgrade_approval_without_native_approvals: bool,
}

/// How much an agent may do unasked.
#[derive(Clone, Copy, Debug, PartialEq, Eq, Structural)]
pub enum ApprovalMode {
    Supervised,
    AutoAcceptEdits,
    FullAccess,
}

/// Whether a turn builds or plans.
#[derive(Clone, Copy, Debug, PartialEq, Eq, Structural)]
pub enum InteractionMode {
    Build,
    Plan,
}

/// The tabs of the right panel.
#[derive(Clone, Copy, Debug, PartialEq, Eq, Structural)]
pub enum RightTab {
    Diff,
    Plan,
    Preview,
}

/// A light, dark or system-following appearance.
#[derive(Clone, Copy, Debug, PartialEq, Eq, Structural)]
pub enum ThemePreference {
    System,
    Light,
    Dark,
}

/// The order of projects in the sidebar.
#[derive(Clone, Copy, Debug, PartialEq, Eq, Structural)]
pub enum ProjectSort {
    Manual,
    Activity,
    Name,
}

/// The order of threads in the sidebar.
#[derive(Clone, Copy, Debug, PartialEq, Eq, Structural)]
pub enum ThreadSort {
    Activity,
    Created,
}

/// Whether the sidebar groups threads by project.
#[derive(Clone, Copy, Debug, PartialEq, Eq, Structural)]
pub enum SidebarLayout {
    Grouped,
    Flat,
}

/// Why a connection attempt failed.
#[derive(Clone, Copy, Debug, PartialEq, Eq, Structural)]
pub enum ConnectionFailure {
    Unreachable,
    Timeout,
    AuthenticationRejected,
}

/// The state of the link to the host.
#[allow(inconsistent_fields)]
#[derive(Clone, Copy, Debug, PartialEq, Eq, Structural)]
pub enum ConnectionState {
    Connected,
    Syncing,
    Reconnecting { attempt: u32, reason: Option<ConnectionFailure> },
    Offline { reason: ConnectionFailure },
}

/// What a host can be asked to publish.
#[derive(Debug)]
pub enum Topic {
    SessionEvents { session_id: String },
    SessionStatus { session_id: String },
    Index,
    Settings,
    Providers,
    GitStatus { session_id: String },
    RuntimeEvents,
    Terminal { terminal_id: u64 },
    Preview { session_id: String },
    ExternalImport { project_id: String },
}

/// A topic by the text of its identifiers.
pub enum TopicName {
    SessionEvents { session_id: Seq<char> },
    SessionStatus { session_id: Seq<char> },
    Index,
    Settings,
    Providers,
    GitStatus { session_id: Seq<char> },
    RuntimeEvents,
    Terminal { terminal_id: u64 },
    Preview { session_id: Seq<char> },
    ExternalImport { project_id: Seq<char> },
}

impl View for Topic {
    type V = TopicName;

    open spec fn view(&self) -> TopicName {
        match self {
            Topic::SessionEvents { session_id } => TopicName::SessionEvents {
                session_id: session_id@,
            },
            Topic::SessionStatus { session_id } => TopicName::SessionStatus {
                session_id: session_id@,
            },
            Topic::Index => TopicName::Index,
            Topic::Settings => TopicName::Settings,
            Topic::Providers => TopicName::Providers,
            Topic::GitStatus { session_id } => TopicName::GitStatus { session_id: session_id@ },
            Topic::RuntimeEvents => TopicName::RuntimeEvents,
            Topic::Terminal { terminal_id } => TopicName::Terminal { terminal_id: *terminal_id },
            Topic::Preview { session_id } => TopicName::Preview { session_id: session_id@ },
            Topic::ExternalImport { project_id } => TopicName::ExternalImport {
                project_id: project_id@,
            },
        }
    }
}

impl Key for Topic {
    fn same(&self, other: &Self) -> (same: bool) {
        match (self, other) {
            (Topic::SessionEvents { session_id: a }, Topic::SessionEvents { session_id: b }) => *a
                == *b,
            (Topic::SessionStatus { session_id: a }, Topic::SessionStatus { session_id: b }) => *a
                == *b,
            (Topic::Index, Topic::Index) => true,
            (Topic::Settings, Topic::Settings) => true,
            (Topic::Providers, Topic::Providers) => true,
            (Topic::GitStatus { session_id: a }, Topic::GitStatus { session_id: b }) => *a == *b,
            (Topic::RuntimeEvents, Topic::RuntimeEvents) => true,
            (Topic::Terminal { terminal_id: a }, Topic::Terminal { terminal_id: b }) => *a == *b,
            (Topic::Preview { session_id: a }, Topic::Preview { session_id: b }) => *a == *b,
            (Topic::ExternalImport { project_id: a }, Topic::ExternalImport { project_id: b }) => *a
                == *b,
            _ => false,
        }
    }
}

impl Clone for Topic {
    fn clone(&self) -> (copy: Self)
        ensures
            copy == *self,
    {
        match self {
            Topic::SessionEvents { session_id } => Topic::SessionEvents {
                session_id: session_id.clone(),
            },
            Topic::SessionStatus { session_id } => Topic::SessionStatus {
                session_id: session_id.clone(),
            },
            Topic::Index => Topic::Index,
            Topic::Settings => Topic::Settings,
            Topic::Providers => Topic::Providers,
            Topic::GitStatus { session_id } => Topic::GitStatus { session_id: session_id.clone() },
            Topic::RuntimeEvents => Topic::RuntimeEvents,
            Topic::Terminal { terminal_id } => Topic::Terminal { terminal_id: *terminal_id },
            Topic::Preview { session_id } => Topic::Preview { session_id: session_id.clone() },
            Topic::ExternalImport { project_id } => Topic::ExternalImport {
                project_id: project_id.clone(),
            },
        }
    }
}

/// A subscription: a topic and, for session events, how far they were applied.
#[derive(Debug)]
pub struct Subscription {
    pub topic: Topic,
    pub after: Option<u64>,
}

/// Where a conversation's client state belongs.
#[derive(Debug)]
pub enum ConversationDestination {
    ProjectDraft(String),
    Thread(String),
}

/// A destination by the text of its identifier.
pub enum DestinationName {
    ProjectDraft(Seq<char>),
    Thread(Seq<char>),
}

impl View for ConversationDestination {
    type V = DestinationName;

    open spec fn view(&self) -> DestinationName {
        match self {
            ConversationDestination::ProjectDraft(id) => DestinationName::ProjectDraft(id@),
            ConversationDestination::Thread(id) => DestinationName::Thread(id@),
        }
    }
}

impl Key for ConversationDestination {
    fn same(&self, other: &Self) -> (same: bool) {
        match (self, other) {
            (
                ConversationDestination::ProjectDraft(a),
                ConversationDestination::ProjectDraft(b),
            ) => *a == *b,
            (ConversationDestination::Thread(a), ConversationDestination::Thread(b)) => *a == *b,
            _ => false,
        }
    }
}

impl Clone for ConversationDestination {
    fn clone(&self) -> (copy: Self)
        ensures
            copy == *self,
    {
        match self {
            ConversationDestination::ProjectDraft(id) => ConversationDestination::ProjectDraft(
                id.clone(),
            ),
            ConversationDestination::Thread(id) => ConversationDestination::Thread(id.clone()),
        }
    }
}

/// A value that is carried and never read: its JSON text.
#[derive(Debug)]
pub struct HostValue {
    pub json: Rc<String>,
}

impl Clone for HostValue {
    fn clone(&self) -> (copy: Self)
        ensures
            copy == *self,
    {
        HostValue {
            json: self.json.clone(),
        }
    }
}

/// A worktree a session runs in.
#[derive(Debug)]
pub struct WorktreeInfo {
    pub branch: String,
    pub path: String,
}

impl Clone for WorktreeInfo {
    fn clone(&self) -> (copy: Self)
        ensures
            copy == *self,
    {
        WorktreeInfo {
            branch: self.branch.clone(),
            path: self.path.clone(),
        }
    }
}

/// A project of the index.
#[derive(Debug)]
pub struct Project {
    pub id: String,
    pub name: String,
    pub root: String,
    pub created_at: u64,
    /// An icon chosen over the project's own.
    pub icon_path: Option<String>,
}

impl Clone for Project {
    fn clone(&self) -> (copy: Self)
        ensures
            copy == *self,
    {
        Project {
            id: self.id.clone(),
            name: self.name.clone(),
            root: self.root.clone(),
            created_at: self.created_at,
            icon_path: copy_text(&self.icon_path),
        }
    }
}

/// A session of the index.
#[derive(Debug)]
pub struct SessionMeta {
    pub id: String,
    pub title: String,
    pub cwd: String,
    pub provider: ProviderKind,
    pub caps: ProviderCaps,
    pub project_id: Option<String>,
    pub parent_session_id: Option<String>,
    pub archived_at: Option<u64>,
    pub updated_at: u64,
    /// Whether the provider can resume this session.
    pub resume_cursor: bool,
    pub worktree: Option<WorktreeInfo>,
}

impl Clone for SessionMeta {
    fn clone(&self) -> (copy: Self)
        ensures
            copy == *self,
    {
        SessionMeta {
            id: self.id.clone(),
            title: self.title.clone(),
            cwd: self.cwd.clone(),
            provider: self.provider,
            caps: self.caps,
            project_id: copy_text(&self.project_id),
            parent_session_id: copy_text(&self.parent_session_id),
            archived_at: self.archived_at,
            updated_at: self.updated_at,
            resume_cursor: self.resume_cursor,
            worktree: copy_worktree(&self.worktree),
        }
    }
}

/// A message waiting behind the running turn.
#[derive(Debug)]
pub struct QueuedMessage {
    pub id: u64,
    pub text: String,
    pub delivery_key: Option<String>,
}

impl Clone for QueuedMessage {
    fn clone(&self) -> (copy: Self)
        ensures
            copy == *self,
    {
        QueuedMessage {
            id: self.id,
            text: self.text.clone(),
            delivery_key: copy_text(&self.delivery_key),
        }
    }
}

/// The two sides of a relay the user has to confirm.
#[derive(Debug)]
pub struct RelayConfirmation {
    pub from: String,
    pub to: String,
}

impl Clone for RelayConfirmation {
    fn clone(&self) -> (copy: Self)
        ensures
            copy == *self,
    {
        RelayConfirmation {
            from: self.from.clone(),
            to: self.to.clone(),
        }
    }
}

/// Where a draft will run.
#[derive(Debug)]
pub enum WorkspaceMode {
    LocalCheckout,
    NewWorktree { base: String, name: Option<String> },
    Other(HostValue),
}

impl Clone for WorkspaceMode {
    fn clone(&self) -> (copy: Self)
        ensures
            copy == *self,
    {
        match self {
            WorkspaceMode::LocalCheckout => WorkspaceMode::LocalCheckout,
            WorkspaceMode::NewWorktree { base, name } => WorkspaceMode::NewWorktree {
                base: base.clone(),
                name: name.clone(),
            },
            WorkspaceMode::Other(value) => WorkspaceMode::Other(value.clone()),
        }
    }
}

/// Everything the host publishes of one session but its events.
#[derive(Debug)]
pub struct SessionStatus {
    pub session_id: String,
    pub title: String,
    pub cwd: String,
    pub attachments_dir: String,
    pub provider: ProviderKind,
    pub caps: ProviderCaps,
    /// The provider's display name.
    pub agent_name: String,
    pub requested_model: Option<String>,
    pub requested_profile_id: Option<String>,
    pub acp_agent_id: Option<String>,
    pub project_id: Option<String>,
    pub approval_mode: ApprovalMode,
    pub interaction_mode: InteractionMode,
    pub queued_messages: Rc<Vec<QueuedMessage>>,
    pub review_comment_drafts: Rc<Vec<HostValue>>,
    /// The ids of the open terminals.
    pub terminals: Rc<Vec<u64>>,
    pub active_terminal_id: Option<u64>,
    pub terminal_contexts: Rc<Vec<HostValue>>,
    pub terminal_open: bool,
    pub terminal_height: PixelBits,
    /// Whether a message is on its way to the provider.
    pub delivery_in_flight: bool,
    pub turn_running: bool,
    pub stopping: bool,
    pub working: bool,
    pub pending_approval: bool,
    pub pending_user_input: bool,
    pub steering_supported: bool,
    pub provider_option_descriptors: Rc<Vec<HostValue>>,
    pub provider_option_selections: Rc<Vec<HostValue>>,
    pub provider_commands: Rc<Vec<HostValue>>,
    pub git_branch: Option<String>,
    pub branches: Rc<Vec<String>>,
    pub worktrees: Rc<Vec<String>>,
    pub draft: bool,
    pub draft_workspace: WorkspaceMode,
    pub worktree: Option<WorktreeInfo>,
    pub preparing_worktree: bool,
    pub relay_confirmation: Option<RelayConfirmation>,
    pub native_rewind_pending: bool,
    pub native_rewind_prefill_available: bool,
    pub model_pending_restart: bool,
    pub options_pending_restart: bool,
    pub approval_pending_restart: bool,
    pub ultrathink_armed: bool,
}

impl Clone for SessionStatus {
    fn clone(&self) -> (copy: Self)
        ensures
            copy == *self,
    {
        SessionStatus {
            session_id: self.session_id.clone(),
            title: self.title.clone(),
            cwd: self.cwd.clone(),
            attachments_dir: self.attachments_dir.clone(),
            provider: self.provider,
            caps: self.caps,
            agent_name: self.agent_name.clone(),
            requested_model: copy_text(&self.requested_model),
            requested_profile_id: copy_text(&self.requested_profile_id),
            acp_agent_id: copy_text(&self.acp_agent_id),
            project_id: copy_text(&self.project_id),
            approval_mode: self.approval_mode,
            interaction_mode: self.interaction_mode,
            queued_messages: share(&self.queued_messages),
            review_comment_drafts: share(&self.review_comment_drafts),
            terminals: share(&self.terminals),
            active_terminal_id: self.active_terminal_id,
            terminal_contexts: share(&self.terminal_contexts),
            terminal_open: self.terminal_open,
            terminal_height: self.terminal_height,
            delivery_in_flight: self.delivery_in_flight,
            turn_running: self.turn_running,
            stopping: self.stopping,
            working: self.working,
            pending_approval: self.pending_approval,
            pending_user_input: self.pending_user_input,
            steering_supported: self.steering_supported,
            provider_option_descriptors: share(&self.provider_option_descriptors),
            provider_option_selections: share(&self.provider_option_selections),
            provider_commands: share(&self.provider_commands),
            git_branch: copy_text(&self.git_branch),
            branches: share(&self.branches),
            worktrees: share(&self.worktrees),
            draft: self.draft,
            draft_workspace: self.draft_workspace.clone(),
            worktree: copy_worktree(&self.worktree),
            preparing_worktree: self.preparing_worktree,
            relay_confirmation: copy_relay(&self.relay_confirmation),
            native_rewind_pending: self.native_rewind_pending,
            native_rewind_prefill_available: self.native_rewind_prefill_available,
            model_pending_restart: self.model_pending_restart,
            options_pending_restart: self.options_pending_restart,
            approval_pending_restart: self.approval_pending_restart,
            ultrathink_armed: self.ultrathink_armed,
        }
    }
}

/// A file with uncommitted changes.
#[derive(Debug)]
pub struct GitFileEntry {
    pub path: String,
    pub insertions: u64,
    pub deletions: u64,
}

impl Clone for GitFileEntry {
    fn clone(&self) -> (copy: Self)
        ensures
            copy == *self,
    {
        GitFileEntry {
            path: self.path.clone(),
            insertions: self.insertions,
            deletions: self.deletions,
        }
    }
}

/// A checkout's branch and changes.
#[derive(Debug)]
pub struct GitStatus {
    pub branch: Option<String>,
    pub is_default_branch: bool,
    pub changed_files: Rc<Vec<GitFileEntry>>,
}

impl Clone for GitStatus {
    fn clone(&self) -> (copy: Self)
        ensures
            copy == *self,
    {
        GitStatus {
            branch: copy_text(&self.branch),
            is_default_branch: self.is_default_branch,
            changed_files: share(&self.changed_files),
        }
    }
}

/// The published git state of a session.
#[derive(Debug)]
pub struct GitStatusStatus {
    pub status: Option<GitStatus>,
    pub busy: bool,
}

impl Clone for GitStatusStatus {
    fn clone(&self) -> (copy: Self)
        ensures
            copy == *self,
    {
        GitStatusStatus {
            status: self.status.clone(),
            busy: self.busy,
        }
    }
}

impl Default for GitStatusStatus {
    fn default() -> (status: Self)
        ensures
            status == (GitStatusStatus { status: None, busy: false }),
    {
        GitStatusStatus { status: None, busy: false }
    }
}

/// A provider profile, with the settings that apply to it.
#[derive(Debug)]
pub struct ResolvedProfile {
    pub id: String,
    pub kind: ProviderKind,
    pub display_name: String,
    pub enabled: bool,
    pub accent_color: Option<String>,
    pub native_approvals: bool,
    pub supports_account_usage: bool,
    pub settings: HostValue,
}

impl Clone for ResolvedProfile {
    fn clone(&self) -> (copy: Self)
        ensures
            copy == *self,
    {
        ResolvedProfile {
            id: self.id.clone(),
            kind: self.kind,
            display_name: self.display_name.clone(),
            enabled: self.enabled,
            accent_color: copy_text(&self.accent_color),
            native_approvals: self.native_approvals,
            supports_account_usage: self.supports_account_usage,
            settings: self.settings.clone(),
        }
    }
}

/// The ids of the profiles every installation has.
#[derive(Debug)]
pub struct BuiltinProfiles {
    pub codex: String,
    pub claude_code: String,
    pub pi: String,
    pub open_code: String,
    pub acp: String,
}

impl Clone for BuiltinProfiles {
    fn clone(&self) -> (copy: Self)
        ensures
            copy == *self,
    {
        BuiltinProfiles {
            codex: self.codex.clone(),
            claude_code: self.claude_code.clone(),
            pi: self.pi.clone(),
            open_code: self.open_code.clone(),
            acp: self.acp.clone(),
        }
    }
}

impl BuiltinProfiles {
    pub open spec fn spec_id_for(self, kind: ProviderKind) -> String {
        match kind {
            ProviderKind::Codex => self.codex,
            ProviderKind::ClaudeCode => self.claude_code,
            ProviderKind::Pi => self.pi,
            ProviderKind::OpenCode => self.open_code,
            ProviderKind::Acp => self.acp,
        }
    }

    /// The built-in profile of a provider.
    pub fn id_for(&self, kind: ProviderKind) -> (id: &String)
        ensures
            *id == self.spec_id_for(kind),
    {
        match kind {
            ProviderKind::Codex => &self.codex,
            ProviderKind::ClaudeCode => &self.claude_code,
            ProviderKind::Pi => &self.pi,
            ProviderKind::OpenCode => &self.open_code,
            ProviderKind::Acp => &self.acp,
        }
    }

    /// Whether an id names a built-in profile.
    pub open spec fn names(self, id: Seq<char>) -> bool {
        ||| id == self.codex@
        ||| id == self.claude_code@
        ||| id == self.pi@
        ||| id == self.open_code@
        ||| id == self.acp@
    }

    pub fn contains(&self, id: &str) -> (builtin: bool)
        ensures
            builtin == self.names(id@),
    {
        *id == *self.codex.as_str() || *id == *self.claude_code.as_str() || *id == *self.pi.as_str()
            || *id == *self.open_code.as_str() || *id == *self.acp.as_str()
    }
}

/// When the user last looked at a session.
#[derive(Debug)]
pub struct LastVisit {
    pub session_id: String,
    pub at: u64,
}

impl Clone for LastVisit {
    fn clone(&self) -> (copy: Self)
        ensures
            copy == *self,
    {
        LastVisit {
            session_id: self.session_id.clone(),
            at: self.at,
        }
    }
}

/// The host settings a client shows or follows.
#[derive(Debug)]
pub struct Settings {
    pub theme_mode: ThemePreference,
    pub language: Option<String>,
    pub last_project_id: Option<String>,
    pub auto_open_task_panel: bool,
    pub word_wrap_diffs: bool,
    pub live_command_panel_disabled: bool,
    pub project_sort: ProjectSort,
    pub thread_sort: ThreadSort,
    pub sidebar_layout: SidebarLayout,
    pub collapsed_projects: Rc<Vec<String>>,
    pub last_visited: Rc<Vec<LastVisit>>,
    pub builtin_profiles: BuiltinProfiles,
    pub profiles: Rc<Vec<ResolvedProfile>>,
    /// Whether Pi's default profile asks for approvals itself.
    pub pi_native_approvals: bool,
    pub favorite_models: Rc<Vec<String>>,
    /// The ids of the installed ACP agents.
    pub acp_agents: Rc<Vec<String>>,
    pub browser: HostValue,
}

impl Clone for Settings {
    fn clone(&self) -> (copy: Self)
        ensures
            copy == *self,
    {
        Settings {
            theme_mode: self.theme_mode,
            language: copy_text(&self.language),
            last_project_id: copy_text(&self.last_project_id),
            auto_open_task_panel: self.auto_open_task_panel,
            word_wrap_diffs: self.word_wrap_diffs,
            live_command_panel_disabled: self.live_command_panel_disabled,
            project_sort: self.project_sort,
            thread_sort: self.thread_sort,
            sidebar_layout: self.sidebar_layout,
            collapsed_projects: share(&self.collapsed_projects),
            last_visited: share(&self.last_visited),
            builtin_profiles: self.builtin_profiles.clone(),
            profiles: share(&self.profiles),
            pi_native_approvals: self.pi_native_approvals,
            favorite_models: share(&self.favorite_models),
            acp_agents: share(&self.acp_agents),
            browser: self.browser.clone(),
        }
    }
}

/// A model a provider offers.
#[derive(Debug)]
pub struct ModelSpec {
    pub id: String,
    pub details: HostValue,
}

impl Clone for ModelSpec {
    fn clone(&self) -> (copy: Self)
        ensures
            copy == *self,
    {
        ModelSpec {
            id: self.id.clone(),
            details: self.details.clone(),
        }
    }
}

/// Account rate limits of a profile.
#[derive(Debug)]
pub struct ProviderUsage {
    pub error: Option<String>,
    pub windows: HostValue,
}

impl Clone for ProviderUsage {
    fn clone(&self) -> (copy: Self)
        ensures
            copy == *self,
    {
        ProviderUsage {
            error: copy_text(&self.error),
            windows: self.windows.clone(),
        }
    }
}

/// A provider program's version.
#[derive(Debug)]
pub struct ProviderVersionStatus {
    pub update_command: Option<String>,
    pub details: HostValue,
}

impl Clone for ProviderVersionStatus {
    fn clone(&self) -> (copy: Self)
        ensures
            copy == *self,
    {
        ProviderVersionStatus {
            update_command: copy_text(&self.update_command),
            details: self.details.clone(),
        }
    }
}

/// An agent of the ACP registry.
#[derive(Debug)]
pub struct AcpMarketplaceItem {
    pub id: String,
    pub installed: bool,
    pub details: HostValue,
}

impl Clone for AcpMarketplaceItem {
    fn clone(&self) -> (copy: Self)
        ensures
            copy == *self,
    {
        AcpMarketplaceItem {
            id: self.id.clone(),
            installed: self.installed,
            details: self.details.clone(),
        }
    }
}

/// What the host knows of the providers.
pub struct ProvidersStatus {
    pub model_catalogs: KeyedMap<ProviderKind, Rc<Vec<ModelSpec>>>,
    pub models_loading: KeyedMap<ProviderKind, bool>,
    pub provider_usage: KeyedMap<String, ProviderUsage>,
    pub usage_checking: KeyedSet<String>,
    pub provider_snapshots: KeyedMap<String, HostValue>,
    pub provider_versions: KeyedMap<ProviderKind, ProviderVersionStatus>,
    pub secret_names: KeyedMap<String, Rc<Vec<String>>>,
    pub acp_marketplace_items: Rc<Vec<AcpMarketplaceItem>>,
    pub acp_registry_loading: bool,
    pub acp_registry_error: Option<String>,
    pub acp_installing: KeyedSet<String>,
    pub providers_checked_at: Option<u64>,
    pub providers_checking: bool,
    /// Whether this program has a newer version.
    pub tcode_update: Option<HostValue>,
}

impl ProvidersStatus {
    /// Nothing is known yet.
    pub open spec fn is_blank(self) -> bool {
        &&& self.model_catalogs@ == Map::<ProviderKind, Rc<Vec<ModelSpec>>>::empty()
        &&& self.models_loading@ == Map::<ProviderKind, bool>::empty()
        &&& self.provider_usage@ == Map::<Seq<char>, ProviderUsage>::empty()
        &&& self.usage_checking@ == Set::<Seq<char>>::empty()
        &&& self.provider_snapshots@ == Map::<Seq<char>, HostValue>::empty()
        &&& self.provider_versions@ == Map::<ProviderKind, ProviderVersionStatus>::empty()
        &&& self.secret_names@ == Map::<Seq<char>, Rc<Vec<String>>>::empty()
        &&& self.acp_marketplace_items@ == Seq::<AcpMarketplaceItem>::empty()
        &&& !self.acp_registry_loading
        &&& self.acp_registry_error is None
        &&& self.acp_installing@ == Set::<Seq<char>>::empty()
        &&& self.providers_checked_at is None
        &&& !self.providers_checking
        &&& self.tcode_update is None
    }
}

impl Default for ProvidersStatus {
    fn default() -> (status: Self)
        ensures
            status.is_blank(),
    {
        ProvidersStatus {
            model_catalogs: KeyedMap::new(),
            models_loading: KeyedMap::new(),
            provider_usage: KeyedMap::new(),
            usage_checking: KeyedSet::new(),
            provider_snapshots: KeyedMap::new(),
            provider_versions: KeyedMap::new(),
            secret_names: KeyedMap::new(),
            acp_marketplace_items: Rc::new(Vec::new()),
            acp_registry_loading: false,
            acp_registry_error: None,
            acp_installing: KeyedSet::new(),
            providers_checked_at: None,
            providers_checking: false,
            tcode_update: None,
        }
    }
}

/// What the client distinguishes among a session's events.
#[derive(Clone, Copy, Debug, PartialEq, Eq, Structural)]
pub enum EventKind {
    TurnStarted,
    PlanUpdated,
    TurnCompleted,
    RewindCompleted,
    Other,
}

/// One recorded event of a session.
#[derive(Debug)]
pub struct StoredEvent {
    pub ts: Option<u64>,
    pub kind: EventKind,
    pub body: HostValue,
}

impl Clone for StoredEvent {
    fn clone(&self) -> (copy: Self)
        ensures
            copy == *self,
    {
        StoredEvent {
            ts: self.ts,
            kind: self.kind,
            body: self.body.clone(),
        }
    }
}

/// What a session parked in the background is doing.
#[derive(Clone, Copy, Debug, PartialEq, Eq, Structural)]
pub struct SessionFlags {
    pub working: bool,
    pub pending_approval: bool,
    pub pending_user_input: bool,
    pub background_only: bool,
}

/// Files a turn changed.
#[derive(Debug)]
pub struct TurnChanges {
    pub changes: Rc<Vec<HostValue>>,
    pub complete: bool,
}

impl Clone for TurnChanges {
    fn clone(&self) -> (copy: Self)
        ensures
            copy == *self,
    {
        TurnChanges {
            changes: share(&self.changes),
            complete: self.complete,
        }
    }
}

/// One turn of a timeline.
#[derive(Debug)]
pub struct TurnRecord {
    pub changes: Option<TurnChanges>,
    pub provider_checkpoint_id: Option<String>,
}

impl Clone for TurnRecord {
    fn clone(&self) -> (copy: Self)
        ensures
            copy == *self,
    {
        TurnRecord {
            changes: self.changes.clone(),
            provider_checkpoint_id: copy_text(&self.provider_checkpoint_id),
        }
    }
}

/// A message the user sent, with the length of the context put before it.
#[derive(Debug)]
pub struct UserMessage {
    pub text: String,
    /// Bytes of injected context at the start of the text.
    pub context_len: Option<usize>,
}

impl Clone for UserMessage {
    fn clone(&self) -> (copy: Self)
        ensures
            copy == *self,
    {
        UserMessage {
            text: self.text.clone(),
            context_len: self.context_len,
        }
    }
}

/// One entry of a timeline.
#[derive(Debug)]
pub struct TimelineEntry {
    pub id: String,
    pub turn: usize,
    pub user_message: Option<UserMessage>,
}

impl Clone for TimelineEntry {
    fn clone(&self) -> (copy: Self)
        ensures
            copy == *self,
    {
        TimelineEntry {
            id: self.id.clone(),
            turn: self.turn,
            user_message: self.user_message.clone(),
        }
    }
}

/// Token counts of a session.
#[derive(Clone, Copy, Debug, PartialEq, Eq, Structural)]
pub struct TokenUsage {
    pub used_tokens: Option<u64>,
    pub input_tokens: Option<u64>,
    pub output_tokens: Option<u64>,
    pub context_window: Option<u64>,
    pub total_processed_tokens: Option<u64>,
}

/// A question the agent asks the user.
#[derive(Debug)]
pub struct UserInputRequest {
    pub id: String,
    pub questions: HostValue,
}

impl Clone for UserInputRequest {
    fn clone(&self) -> (copy: Self)
        ensures
            copy == *self,
    {
        UserInputRequest {
            id: self.id.clone(),
            questions: self.questions.clone(),
        }
    }
}

/// A permission the agent asks for.
#[derive(Debug)]
pub struct ApprovalRequest {
    pub id: String,
    pub turn_id: Option<String>,
    pub details: HostValue,
}

impl Clone for ApprovalRequest {
    fn clone(&self) -> (copy: Self)
        ensures
            copy == *self,
    {
        ApprovalRequest {
            id: self.id.clone(),
            turn_id: copy_text(&self.turn_id),
            details: self.details.clone(),
        }
    }
}

/// What folding a session's events yields.
#[derive(Debug)]
pub struct Timeline {
    pub turns: Rc<Vec<TurnRecord>>,
    pub entries: Rc<Vec<TimelineEntry>>,
    pub usage: Option<TokenUsage>,
    /// The markdown of the proposed plan.
    pub proposed_plan: Option<String>,
    /// The markdown of a plan that awaits a decision.
    pub plan_ready: Option<String>,
    pub plan_steps: Rc<Vec<HostValue>>,
    pub pending_user_input: Option<UserInputRequest>,
    pub pending_approvals: Rc<Vec<ApprovalRequest>>,
}

impl Clone for Timeline {
    fn clone(&self) -> (copy: Self)
        ensures
            copy == *self,
    {
        Timeline {
            turns: share(&self.turns),
            entries: share(&self.entries),
            usage: self.usage,
            proposed_plan: copy_text(&self.proposed_plan),
            plan_ready: copy_text(&self.plan_ready),
            plan_steps: share(&self.plan_steps),
            pending_user_input: self.pending_user_input.clone(),
            pending_approvals: share(&self.pending_approvals),
        }
    }
}

/// The whole index, as published on subscription.
pub struct IndexSnapshot {
    pub sessions: Vec<SessionMeta>,
    pub projects: Vec<Project>,
    pub title_generating: KeyedSet<String>,
    pub activity: KeyedMap<String, SessionFlags>,
    pub working_started_at: KeyedMap<String, u64>,
}

/// What a host publishes.
pub enum ServerEvent {
    PreviewRequest { session_id: String, request: HostValue },
    TerminalFrame { terminal_id: u64, frame: HostValue },
    TerminalDelta { terminal_id: u64, delta: HostValue },
    IndexUpsertSession(SessionMeta),
    IndexUpsertProject(Project),
    IndexRemoveSession { session_id: String },
    IndexRemoveProject { project_id: String },
    ExternalImportStatusReplaced { project_id: String, status: Option<HostValue> },
    IndexSnapshot(IndexSnapshot),
    SettingsReplaced(Settings),
    SettingsSnapshot(Settings),
    ProvidersReplaced(ProvidersStatus),
    GitStatusReplaced(GitStatusStatus),
    SessionStatusReplaced(SessionStatus),
    /// The message to show for a failed history page.
    SessionHistoryError(String),
    SessionSnapshot { from: u64, records: Vec<StoredEvent>, total: u64, total_turns: usize },
    SessionEvent(StoredEvent),
    NativeRewindPrefill { session_id: String, text: String },
    ModelFallbackBlocked {
        session_id: String,
        category: Option<HostValue>,
        model: Option<String>,
        fallback_model: Option<String>,
        detail: String,
    },
    FallbackReviewReady { session_id: String, assessment: String, draft: String },
    Runtime(HostValue),
}

/// An event under the topic it was published for.
pub struct EventEnvelope {
    pub topic: Topic,
    pub event: ServerEvent,
}

} // verus!
