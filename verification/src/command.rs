//! What a client asks of its host.
use crate::protocol::{
    ApprovalMode, HostValue, InteractionMode, PixelBits, ProviderKind, SidebarLayout, Topic,
    WorkspaceMode,
};
use vstd::prelude::*;

verus! {

/// One change to the host's settings.
#[derive(Debug)]
pub enum SettingsPatch {
    LastProject(Option<String>),
    WordWrapDiffs(bool),
    SkipDeleteConfirmation(bool),
    AutoOpenTaskPanel(bool),
    LiveCommandPanelDisabled(bool),
    ProviderUpdateChecksDisabled(bool),
    InactiveFrameThrottleDisabled(bool),
    AbortOnModelFallback(bool),
    ResumeOnLimitReset(bool),
    FallbackReviewAdvisor(bool),
    AutoArchiveDisabled(bool),
    AutoArchiveMaxIdleDays(u32),
    AutoArchiveKeepCount(usize),
    AutoArchiveNoticeShown(bool),
    OrchestrateDecisionModels(Vec<HostValue>),
    OrchestrateChildModels(Vec<HostValue>),
    OrchestrateChildApproval(HostValue),
    OrchestrateChildWorktrees(bool),
    OrchestrateArchiveOnComplete(bool),
    ComputerUseEnabled(bool),
    ComputerUseImageMode(HostValue),
    ComputerUseAllowInput(bool),
    ComputerUseAllowForegroundFallback(bool),
    ComputerUseShowAgentCursor(bool),
    BrowserEnabled(bool),
    BrowserHomeUrl(Option<String>),
    BrowserAllowEvaluate(bool),
    TitleGenerationProvider(ProviderKind),
    TitleGenerationModel(String),
    TitleGenerationProfileId(Option<String>),
    FallbackReviewProvider(ProviderKind),
    FallbackReviewModel(String),
    FallbackReviewProfileId(Option<String>),
    SidebarLayout(SidebarLayout),
    RemoteHostingEnabled(bool),
    RemotePort(Option<u16>),
    RemoteHostName(Option<String>),
}

/// Which way a terminal is split.
#[derive(Clone, Copy, Debug, PartialEq, Eq, Structural)]
pub enum TerminalSplitDirection {
    Horizontal,
    Vertical,
}

/// Lines of a terminal handed to the agent as context.
#[derive(Debug)]
pub struct TerminalSelection {
    pub line_start: u64,
    pub line_end: u64,
    pub text: String,
}

/// A git action as the host was asked for it.
#[derive(Debug)]
pub struct GitActionRequest {
    pub session_id: String,
    pub action: HostValue,
    pub message: Option<String>,
    pub included: Option<Vec<String>>,
    pub feature_branch: Option<String>,
}

/// A command to the host.
#[allow(inconsistent_fields)]
#[derive(Debug)]
pub enum Command {
    PatchSettings { patch: SettingsPatch },
    ResetSettings,
    WriteRelaunchMarker { session_id: String, reopen_settings: String },
    ClearRelaunchMarker,
    SetSidebarCollapsed { collapsed: bool },
    SettleSession { session_id: String },
    MakeSessionActive { session_id: String },
    ArchiveSession { session_id: String },
    UnarchiveSession { session_id: String },
    AutoArchiveSweep { project_id: String },
    RenameSession { session_id: String, title: String },
    ForkThread { id: String },
    MergeWorktree { session_id: String },
    DeleteSession { session_id: String, remove_worktree: bool },
    MarkSessionUnread { session_id: String },
    SendTurn { session_id: String, text: String, attachment_paths: Vec<String> },
    ScheduleTurn {
        session_id: String,
        text: String,
        attachment_paths: Vec<String>,
        fire_at_unix_secs: u64,
    },
    ConfirmRelayAndSend { session_id: String, text: String, attachment_paths: Vec<String> },
    OrchestrateTurn { session_id: String, text: String, attachment_paths: Vec<String> },
    Steer { session_id: String, text: String, attachment_paths: Vec<String> },
    SteerQueued { session_id: String, id: u64 },
    DropQueued { session_id: String, id: u64 },
    Interrupt { session_id: String },
    RespondApproval { session_id: String, request_id: String, decision: HostValue },
    RespondUserInput { session_id: String, request_id: String, answers: HostValue },
    RewindTurn { session_id: String, turn: usize, mode: HostValue },
    AddReviewComment { session_id: String, comment: HostValue },
    RemoveReviewComment { session_id: String, index: usize },
    ImplementPlan { session_id: String },
    DismissPlan { session_id: String },
    ImplementPlanInNewThread { session_id: String, title: String },
    CopyPlan { markdown: String },
    SavePlanToWorkspace { session_id: String, markdown: String },
    DownloadPlan { session_id: String, markdown: String, fallback_title: String },
    CreateProject { root: String },
    ToggleProjectCollapsed { project_id: String },
    DeleteProject { project_id: String },
    StartDraft { project_id: String, cwd: String },
    SetDraftWorkspace { session_id: String, mode: WorkspaceMode },
    RunGitAction {
        session_id: String,
        action: HostValue,
        message: Option<String>,
        included: Option<Vec<String>>,
        feature_branch: Option<String>,
    },
    LoadBranches { session_id: String },
    CheckoutBranch { session_id: String, branch: String },
    CycleProjectSort,
    ToggleTerminalPanel { session_id: String },
    CloseTerminalPanel { session_id: String },
    SetTerminalHeight { session_id: String, height: PixelBits },
    CloseTerminal { session_id: String, terminal_id: u64 },
    RestartTerminal { session_id: String },
    NewTerminal { session_id: String },
    SplitTerminal { session_id: String, direction: TerminalSplitDirection },
    ActivateTerminal { session_id: String, terminal_id: u64 },
    CaptureTerminalSelection {
        session_id: String,
        terminal_id: u64,
        selection: Option<TerminalSelection>,
    },
    RemoveTerminalContext { session_id: String, context_id: u64 },
    RefreshProviderStatus,
    RefreshProviderUsage,
    CheckProviderVersions,
    ReloadProvider,
    SetProfileSecret { profile_id: String, name: String, value: Option<String> },
    UpdateProfileSettings { profile_id: String, patch: HostValue },
    CreateThirdPartyProfile {
        name: String,
        base_url: String,
        model: Option<String>,
        api_key: String,
    },
    DeleteProfile { profile_id: String },
    UpdateProvider { provider: ProviderKind },
    SetActiveModel {
        session_id: String,
        provider: ProviderKind,
        model: Option<String>,
        profile_id: Option<String>,
    },
    ToggleFavoriteModel { model: String },
    SetActiveOption { session_id: String, id: String, value: Option<HostValue> },
    SelectUltrathink { session_id: String },
    RefreshAcpRegistry,
    InstallAcpAgent { id: String },
    RemoveAcpAgent { id: String },
    AddCustomAcpAgent {
        name: String,
        command: String,
        args: Vec<String>,
        env: Vec<(String, String)>,
    },
    UpdateAcpAgent { id: String, patch: HostValue },
    SetActiveAcpAgent { session_id: String, id: String },
    SetInteractionMode { session_id: String, mode: InteractionMode },
    ToggleInteractionMode { session_id: String },
    SetActiveApprovalMode { session_id: String, mode: ApprovalMode },
    StartExternalImport { project_id: String, threads: Vec<HostValue> },
    PreviewReply { request_id: u64, response: Result<HostValue, String> },
    /// A command the client hands on without looking into it.
    Other { session_id: Option<String>, body: HostValue },
}

impl Command {
    /// The session and the words of a command that sends a message.
    pub open spec fn message(self) -> Option<(String, String)> {
        match self {
            Command::SendTurn { session_id, text, .. } => Some((session_id, text)),
            Command::ScheduleTurn { session_id, text, .. } => Some((session_id, text)),
            Command::Steer { session_id, text, .. } => Some((session_id, text)),
            Command::ConfirmRelayAndSend { session_id, text, .. } => Some((session_id, text)),
            Command::OrchestrateTurn { session_id, text, .. } => Some((session_id, text)),
            _ => None,
        }
    }

    /// The words of a message, and the session they go to.
    pub fn as_message(&self) -> (message: Option<(&String, &String)>)
        ensures
            match (message, self.message()) {
                (Some(found), Some(expected)) => *found.0 == expected.0 && *found.1 == expected.1,
                (None, None) => true,
                _ => false,
            },
    {
        match self {
            Command::SendTurn { session_id, text, .. } => Some((session_id, text)),
            Command::ScheduleTurn { session_id, text, .. } => Some((session_id, text)),
            Command::Steer { session_id, text, .. } => Some((session_id, text)),
            Command::ConfirmRelayAndSend { session_id, text, .. } => Some((session_id, text)),
            Command::OrchestrateTurn { session_id, text, .. } => Some((session_id, text)),
            _ => None,
        }
    }
}

/// Something the store has decided and the shell around it carries out.
#[allow(inconsistent_fields)]
#[derive(Debug)]
pub enum Effect {
    Subscribe { topic: Topic, after: Option<u64> },
    Unsubscribe { topic: Topic },
    /// Resume a session's events after this many once the link comes back.
    UpdateAfter { topic: Topic, after: u64 },
    /// Send a command; a failure is only logged.
    Dispatch(Command),
    /// Send a command that answers with a session, and report the answer
    /// together with what was selected when it was sent.
    Create { command: Command, selected: Option<String> },
    ForwardPreview { session_id: String, request: HostValue },
    TerminalFrame { terminal_id: u64, frame: HostValue },
    TerminalDelta { terminal_id: u64, delta: HostValue },
    SyncTerminalTopics,
    ClearTerminalTopics,
    CancelHistory,
    LoadPendingChatHistory,
    /// Forget a delivered message that the replica now shows.
    RetireAcknowledged { key: String },
    /// Forget what was cached of a project's icon, at every size.
    InvalidateProjectIcon { project_id: String, icon_path: Option<String> },
    RetryFailed { key: String },
    DiscardFailed { key: String },
    /// Look up a paired machine's address again and wake the link with it.
    RefreshOrigin { host_id: String },
    CancelRefresh,
    SavePreferences,
    CloseLink,
}

/// A command in the outbox.
#[derive(Debug)]
pub struct OutboxEntry {
    pub key: String,
    /// The session the command concerns, where it concerns one.
    pub session_id: Option<String>,
    pub command: Command,
}

/// A command the host refused.
#[derive(Debug)]
pub struct FailedEntry {
    pub key: String,
    pub command: Command,
    pub message: String,
}

/// The commands the link still holds.
#[derive(Debug)]
pub struct Outbox {
    pub pending: Vec<OutboxEntry>,
    pub failed: Vec<FailedEntry>,
    pub acknowledged: Vec<OutboxEntry>,
}

} // verus!
