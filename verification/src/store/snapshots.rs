//! What composer and panels show, taken from the replicas in one piece.
use crate::conversation_ui::ConversationUiState;
use crate::listing::{first, lemma_first, lemma_no_first};
use crate::protocol::{
    copy_text, share, ApprovalMode, ApprovalRequest, HostValue, InteractionMode, ModelSpec,
    PixelBits, ProviderKind, ProviderUsage, ProvidersStatus, QueuedMessage, RelayConfirmation,
    RightTab, SessionStatus, Settings, Timeline, TokenUsage, UserInputRequest, WorkspaceMode,
    WorktreeInfo, DEFAULT_TERMINAL_HEIGHT,
};
use crate::store::providers::{profile_by_id, resolved_profile};
use crate::store::WorkspaceStore;
use std::rc::Rc;
use vstd::prelude::*;

verus! {

/// The model a session runs on.
pub struct ComposerActiveModel {
    pub provider: ProviderKind,
    pub model: Option<String>,
    pub acp_agent_id: Option<String>,
    pub profile_id: Option<String>,
}

/// The checkout a session works in.
pub struct ComposerCheckoutState {
    pub branch: String,
    pub branches: Rc<Vec<String>>,
    pub turn_running: bool,
    pub is_draft: bool,
    pub worktree_base: Option<String>,
    pub workspace: WorkspaceMode,
    pub worktrees: Rc<Vec<String>>,
    pub worktree: Option<WorktreeInfo>,
}

/// Messages waiting behind the running turn.
pub struct ComposerQueue {
    pub messages: Rc<Vec<QueuedMessage>>,
    pub can_steer: bool,
    pub agent: String,
}

/// The complete replica-derived state consumed by composer views in one frame.
pub struct ComposerState {
    pub has_active_session: bool,
    pub terminal_contexts: Rc<Vec<HostValue>>,
    pub relay_confirmation: Option<RelayConfirmation>,
    pub active_cwd: Option<String>,
    pub provider_commands: Rc<Vec<HostValue>>,
    pub attachments_dir: Option<String>,
    pub pending_user_input: Option<UserInputRequest>,
    pub active_model: Option<ComposerActiveModel>,
    pub model_pending_restart: bool,
    pub active_model_spec: Option<ModelSpec>,
    pub active_option_descriptors: Rc<Vec<HostValue>>,
    pub active_option_selections: Rc<Vec<HostValue>>,
    pub ultrathink_armed: bool,
    pub options_pending_restart: bool,
    pub interaction_mode: InteractionMode,
    pub token_usage: Option<TokenUsage>,
    /// Account rate-limit windows for the profile driving this session.
    pub usage: Option<ProviderUsage>,
    pub provider: Option<ProviderKind>,
    pub approval_mode: ApprovalMode,
    pub native_approval_modes_enabled: bool,
    pub approval_pending_restart: bool,
    pub queue: Option<ComposerQueue>,
    pub steering_supported: bool,
    pub preparing_worktree: bool,
    pub plan_ready_markdown: Option<String>,
    pub checkout: Option<ComposerCheckoutState>,
    pub turn_running: bool,
    pub stopping: bool,
    pub pending_approval: Option<ApprovalRequest>,
    pub pending_approval_count: usize,
}

/// Whether the provider's own approval modes are in force: always, unless the
/// provider needs native approvals and its profile has them off.
pub open spec fn native_approvals(status: SessionStatus, settings: Settings) -> bool {
    !status.caps.downgrade_approval_without_native_approvals || match status.requested_profile_id {
        Some(id) => match profile_by_id(settings, id@) {
            Some(profile) => profile.native_approvals,
            None => settings.pi_native_approvals,
        },
        None => settings.pi_native_approvals,
    }
}

/// The approval mode in force.
pub open spec fn approval_in_force(status: SessionStatus, settings: Settings) -> ApprovalMode {
    if !native_approvals(status, settings) {
        ApprovalMode::FullAccess
    } else {
        status.approval_mode
    }
}

/// The profile a session runs on: its own, else its provider's built-in one.
pub open spec fn profile_of(status: SessionStatus, settings: Settings) -> Seq<char> {
    match status.requested_profile_id {
        Some(id) => id@,
        None => settings.builtin_profiles.spec_id_for(status.provider)@,
    }
}

/// The account usage to show: what was fetched for a profile that has account
/// usage, errors included.
pub open spec fn usage_shown(
    status: SessionStatus,
    settings: Settings,
    providers: ProvidersStatus,
) -> Option<ProviderUsage> {
    let id = profile_of(status, settings);
    match profile_by_id(settings, id) {
        Some(profile) => if profile.supports_account_usage && providers.provider_usage@.contains_key(
            id,
        ) {
            Some(providers.provider_usage@[id])
        } else {
            None
        },
        None => None,
    }
}

/// The token counts to show. The context window of [`ProviderKind::ClaudeCode`] is
/// at most the one its model and options select, which is `resolved_window`.
pub open spec fn tokens_shown(
    status: Option<SessionStatus>,
    usage: Option<TokenUsage>,
    resolved_window: u64,
) -> Option<TokenUsage> {
    match usage {
        Some(counts) => if status is Some && status->0.provider == ProviderKind::ClaudeCode
            && status->0.requested_model is Some && counts.context_window is Some
            && resolved_window < counts.context_window->0 {
            Some(TokenUsage { context_window: Some(resolved_window), ..counts })
        } else {
            Some(counts)
        },
        None => None,
    }
}

/// The catalogue entry of the requested model.
pub open spec fn model_shown(status: SessionStatus, providers: ProvidersStatus) -> Option<
    ModelSpec,
> {
    match status.requested_model {
        Some(model) => if providers.model_catalogs@.contains_key(status.provider) {
            first(
                providers.model_catalogs@[status.provider]@,
                |spec: ModelSpec| spec.id@ == model@,
            )
        } else {
            None
        },
        None => None,
    }
}

/// The branch a session is on: the checkout's, else its worktree's.
pub open spec fn branch_of(status: SessionStatus) -> Option<String> {
    match status.git_branch {
        Some(branch) => Some(branch),
        None => match status.worktree {
            Some(worktree) => Some(worktree.branch),
            None => None,
        },
    }
}

pub open spec fn checkout_shown(status: SessionStatus) -> Option<ComposerCheckoutState> {
    match branch_of(status) {
        Some(branch) => Some(
            ComposerCheckoutState {
                branch,
                branches: status.branches,
                turn_running: status.turn_running,
                is_draft: status.draft,
                worktree_base: match status.draft_workspace {
                    WorkspaceMode::NewWorktree { base, .. } => Some(base),
                    _ => None,
                },
                workspace: status.draft_workspace,
                worktrees: status.worktrees,
                worktree: status.worktree,
            },
        ),
        None => None,
    }
}

fn has_native_approvals(status: &SessionStatus, settings: &Settings) -> (native: bool)
    ensures
        native == native_approvals(*status, *settings),
{
    if !status.caps.downgrade_approval_without_native_approvals {
        return true;
    }
    match &status.requested_profile_id {
        Some(id) => match resolved_profile(settings, id.as_str()) {
            Some(profile) => profile.native_approvals,
            None => settings.pi_native_approvals,
        },
        None => settings.pi_native_approvals,
    }
}

fn find_usage(status: &SessionStatus, settings: &Settings, providers: &ProvidersStatus) -> (usage:
    Option<ProviderUsage>)
    ensures
        usage == usage_shown(*status, *settings, *providers),
{
    let id = match &status.requested_profile_id {
        Some(id) => id.clone(),
        None => settings.builtin_profiles.id_for(status.provider).clone(),
    };
    match resolved_profile(settings, id.as_str()) {
        Some(profile) => {
            if !profile.supports_account_usage {
                return None;
            }
            match providers.provider_usage.get(&id) {
                Some(usage) => Some(usage.clone()),
                None => None,
            }
        },
        None => None,
    }
}

fn find_model(status: &SessionStatus, providers: &ProvidersStatus) -> (found: Option<ModelSpec>)
    ensures
        found == model_shown(*status, *providers),
{
    match &status.requested_model {
        Some(model) => match providers.model_catalogs.get(&status.provider) {
            Some(models) => {
                let ghost wanted = |spec: ModelSpec| spec.id@ == model@;
                let mut i: usize = 0;
                while i < models.len()
                    invariant
                        i <= models@.len(),
                        status.requested_model == Some(*model),
                        providers.model_catalogs@.contains_key(status.provider),
                        providers.model_catalogs@[status.provider] == *models,
                        wanted == (|spec: ModelSpec| spec.id@ == model@),
                        forall|j: int| 0 <= j < i ==> !wanted(#[trigger] models@[j]),
                    decreases models@.len() - i,
                {
                    if models[i].id == *model {
                        proof {
                            lemma_first(models@, wanted, i as int);
                        }
                        return Some(models[i].clone());
                    }
                    i += 1;
                }
                proof {
                    lemma_no_first(models@, wanted);
                }
                None
            },
            None => None,
        },
        None => None,
    }
}

fn checkout_of(status: &SessionStatus) -> (checkout: Option<ComposerCheckoutState>)
    ensures
        checkout == checkout_shown(*status),
{
    let branch = match &status.git_branch {
        Some(branch) => branch.clone(),
        None => match &status.worktree {
            Some(worktree) => worktree.branch.clone(),
            None => {
                return None;
            },
        },
    };
    let worktree_base = match &status.draft_workspace {
        WorkspaceMode::NewWorktree { base, .. } => Some(base.clone()),
        _ => None,
    };
    let worktree = match &status.worktree {
        Some(worktree) => Some(worktree.clone()),
        None => None,
    };
    Some(
        ComposerCheckoutState {
            branch,
            branches: share(&status.branches),
            turn_running: status.turn_running,
            is_draft: status.draft,
            worktree_base,
            workspace: status.draft_workspace.clone(),
            worktrees: share(&status.worktrees),
            worktree,
        },
    )
}

fn tokens_of(status: Option<&SessionStatus>, usage: Option<TokenUsage>, resolved_window: u64) -> (
    tokens: Option<TokenUsage>)
    ensures
        tokens == tokens_shown(
            match status {
                Some(s) => Some(*s),
                None => None,
            },
            usage,
            resolved_window,
        ),
{
    match usage {
        Some(counts) => {
            match status {
                Some(status) => {
                    if status.provider == ProviderKind::ClaudeCode
                        && status.requested_model.is_some() {
                        match counts.context_window {
                            Some(reported) => {
                                if resolved_window < reported {
                                    return Some(
                                        TokenUsage {
                                            context_window: Some(resolved_window),
                                            ..counts
                                        },
                                    );
                                }
                            },
                            None => {},
                        }
                    }
                },
                None => {},
            }
            Some(counts)
        },
        None => None,
    }
}

/// What the composer shows of a session's status.
pub open spec fn shows_status(
    state: ComposerState,
    status: SessionStatus,
    settings: Settings,
    providers: ProvidersStatus,
) -> bool {
    &&& state.has_active_session
    &&& state.terminal_contexts == status.terminal_contexts
    &&& state.relay_confirmation == status.relay_confirmation
    &&& state.active_cwd == Some(status.cwd)
    &&& state.provider_commands == status.provider_commands
    &&& state.attachments_dir == Some(status.attachments_dir)
    &&& state.active_model == Some(
        ComposerActiveModel {
            provider: status.provider,
            model: status.requested_model,
            acp_agent_id: status.acp_agent_id,
            profile_id: status.requested_profile_id,
        },
    )
    &&& state.model_pending_restart == status.model_pending_restart
    &&& state.active_model_spec == model_shown(status, providers)
    &&& state.active_option_descriptors == status.provider_option_descriptors
    &&& state.active_option_selections == status.provider_option_selections
    &&& state.ultrathink_armed == status.ultrathink_armed
    &&& state.options_pending_restart == status.options_pending_restart
    &&& state.interaction_mode == status.interaction_mode
    &&& state.usage == usage_shown(status, settings, providers)
    &&& state.provider == Some(status.provider)
    &&& state.native_approval_modes_enabled == native_approvals(status, settings)
    &&& state.approval_mode == approval_in_force(status, settings)
    &&& state.approval_pending_restart == status.approval_pending_restart
    &&& state.queue == Some(
        ComposerQueue {
            messages: status.queued_messages,
            can_steer: status.steering_supported,
            agent: status.agent_name,
        },
    )
    &&& state.steering_supported == status.steering_supported
    &&& state.preparing_worktree == status.preparing_worktree
    &&& state.checkout == checkout_shown(status)
    &&& state.turn_running == status.turn_running
    &&& state.stopping == status.stopping
}

/// What the composer shows without a session.
pub open spec fn shows_no_status(state: ComposerState) -> bool {
    &&& !state.has_active_session
    &&& state.terminal_contexts@.len() == 0
    &&& state.relay_confirmation is None
    &&& state.active_cwd is None
    &&& state.provider_commands@.len() == 0
    &&& state.attachments_dir is None
    &&& state.active_model is None
    &&& !state.model_pending_restart
    &&& state.active_model_spec is None
    &&& state.active_option_descriptors@.len() == 0
    &&& state.active_option_selections@.len() == 0
    &&& !state.ultrathink_armed
    &&& !state.options_pending_restart
    &&& state.interaction_mode == InteractionMode::Build
    &&& state.usage is None
    &&& state.provider is None
    &&& state.native_approval_modes_enabled
    &&& state.approval_mode == ApprovalMode::Supervised
    &&& !state.approval_pending_restart
    &&& state.queue is None
    &&& !state.steering_supported
    &&& !state.preparing_worktree
    &&& state.checkout is None
    &&& !state.turn_running
    &&& !state.stopping
}

/// What the composer shows of a timeline.
pub open spec fn shows_timeline(state: ComposerState, timeline: Option<Timeline>) -> bool {
    match timeline {
        Some(timeline) => {
            &&& state.pending_user_input == timeline.pending_user_input
            &&& state.plan_ready_markdown == timeline.plan_ready
            &&& state.pending_approval == (if timeline.pending_approvals@.len() > 0 {
                Some(timeline.pending_approvals@[0])
            } else {
                None
            })
            &&& state.pending_approval_count == timeline.pending_approvals@.len()
        },
        None => {
            &&& state.pending_user_input is None
            &&& state.plan_ready_markdown is None
            &&& state.pending_approval is None
            &&& state.pending_approval_count == 0
        },
    }
}

/// The parts of the composer that a timeline decides.
struct TimelineParts {
    pending_user_input: Option<UserInputRequest>,
    plan_ready_markdown: Option<String>,
    pending_approval: Option<ApprovalRequest>,
    pending_approval_count: usize,
}

fn timeline_parts(timeline: Option<&Timeline>) -> (parts: TimelineParts)
    ensures
        match timeline {
            Some(held) => {
                &&& parts.pending_user_input == held.pending_user_input
                &&& parts.plan_ready_markdown == held.plan_ready
                &&& parts.pending_approval == (if held.pending_approvals@.len() > 0 {
                    Some(held.pending_approvals@[0])
                } else {
                    None
                })
                &&& parts.pending_approval_count == held.pending_approvals@.len()
            },
            None => {
                &&& parts.pending_user_input is None
                &&& parts.plan_ready_markdown is None
                &&& parts.pending_approval is None
                &&& parts.pending_approval_count == 0
            },
        },
{
    match timeline {
        Some(held) => TimelineParts {
            pending_user_input: match &held.pending_user_input {
                Some(request) => Some(request.clone()),
                None => None,
            },
            plan_ready_markdown: copy_text(&held.plan_ready),
            pending_approval: if held.pending_approvals.len() > 0 {
                Some(held.pending_approvals[0].clone())
            } else {
                None
            },
            pending_approval_count: held.pending_approvals.len(),
        },
        None => TimelineParts {
            pending_user_input: None,
            plan_ready_markdown: None,
            pending_approval: None,
            pending_approval_count: 0,
        },
    }
}

fn composer_without_session(parts: TimelineParts, token_usage: Option<TokenUsage>) -> (state:
    ComposerState)
    ensures
        shows_no_status(state),
        state.token_usage == token_usage,
        state.pending_user_input == parts.pending_user_input,
        state.plan_ready_markdown == parts.plan_ready_markdown,
        state.pending_approval == parts.pending_approval,
        state.pending_approval_count == parts.pending_approval_count,
{
    ComposerState {
        has_active_session: false,
        terminal_contexts: Rc::new(Vec::new()),
        relay_confirmation: None,
        active_cwd: None,
        provider_commands: Rc::new(Vec::new()),
        attachments_dir: None,
        pending_user_input: parts.pending_user_input,
        active_model: None,
        model_pending_restart: false,
        active_model_spec: None,
        active_option_descriptors: Rc::new(Vec::new()),
        active_option_selections: Rc::new(Vec::new()),
        ultrathink_armed: false,
        options_pending_restart: false,
        interaction_mode: InteractionMode::Build,
        token_usage,
        usage: None,
        provider: None,
        approval_mode: ApprovalMode::Supervised,
        native_approval_modes_enabled: true,
        approval_pending_restart: false,
        queue: None,
        steering_supported: false,
        preparing_worktree: false,
        plan_ready_markdown: parts.plan_ready_markdown,
        checkout: None,
        turn_running: false,
        stopping: false,
        pending_approval: parts.pending_approval,
        pending_approval_count: parts.pending_approval_count,
    }
}

fn copy_relay(relay: &Option<RelayConfirmation>) -> (copy: Option<RelayConfirmation>)
    ensures
        copy == *relay,
{
    match relay {
        Some(held) => Some(held.clone()),
        None => None,
    }
}

fn composer_of_session(
    status: &SessionStatus,
    settings: &Settings,
    providers: &ProvidersStatus,
    parts: TimelineParts,
    token_usage: Option<TokenUsage>,
) -> (state: ComposerState)
    ensures
        shows_status(state, *status, *settings, *providers),
        state.token_usage == token_usage,
        state.pending_user_input == parts.pending_user_input,
        state.plan_ready_markdown == parts.plan_ready_markdown,
        state.pending_approval == parts.pending_approval,
        state.pending_approval_count == parts.pending_approval_count,
{
    let native = has_native_approvals(status, settings);
    ComposerState {
        has_active_session: true,
        terminal_contexts: share(&status.terminal_contexts),
        relay_confirmation: copy_relay(&status.relay_confirmation),
        active_cwd: Some(status.cwd.clone()),
        provider_commands: share(&status.provider_commands),
        attachments_dir: Some(status.attachments_dir.clone()),
        pending_user_input: parts.pending_user_input,
        active_model: Some(
            ComposerActiveModel {
                provider: status.provider,
                model: copy_text(&status.requested_model),
                acp_agent_id: copy_text(&status.acp_agent_id),
                profile_id: copy_text(&status.requested_profile_id),
            },
        ),
        model_pending_restart: status.model_pending_restart,
        active_model_spec: find_model(status, providers),
        active_option_descriptors: share(&status.provider_option_descriptors),
        active_option_selections: share(&status.provider_option_selections),
        ultrathink_armed: status.ultrathink_armed,
        options_pending_restart: status.options_pending_restart,
        interaction_mode: status.interaction_mode,
        token_usage,
        usage: find_usage(status, settings, providers),
        provider: Some(status.provider),
        approval_mode: if native {
            status.approval_mode
        } else {
            ApprovalMode::FullAccess
        },
        native_approval_modes_enabled: native,
        approval_pending_restart: status.approval_pending_restart,
        queue: Some(
            ComposerQueue {
                messages: share(&status.queued_messages),
                can_steer: status.steering_supported,
                agent: status.agent_name.clone(),
            },
        ),
        steering_supported: status.steering_supported,
        preparing_worktree: status.preparing_worktree,
        plan_ready_markdown: parts.plan_ready_markdown,
        checkout: checkout_of(status),
        turn_running: status.turn_running,
        stopping: status.stopping,
        pending_approval: parts.pending_approval,
        pending_approval_count: parts.pending_approval_count,
    }
}

/// The composer's state. `resolved_window` is the context window that the session's
/// model and options select.
pub fn composer_state(
    status: Option<&SessionStatus>,
    timeline: Option<&Timeline>,
    settings: &Settings,
    providers: &ProvidersStatus,
    resolved_window: u64,
) -> (state: ComposerState)
    ensures
        match status {
            Some(held) => shows_status(state, *held, *settings, *providers),
            None => shows_no_status(state),
        },
        shows_timeline(
            state,
            match timeline {
                Some(held) => Some(*held),
                None => None,
            },
        ),
        state.token_usage == tokens_shown(
            match status {
                Some(held) => Some(*held),
                None => None,
            },
            match timeline {
                Some(held) => held.usage,
                None => None,
            },
            resolved_window,
        ),
{
    let usage = match timeline {
        Some(held) => held.usage,
        None => None,
    };
    let token_usage = tokens_of(status, usage, resolved_window);
    let parts = timeline_parts(timeline);
    match status {
        Some(held) => composer_of_session(held, settings, providers, parts, token_usage),
        None => composer_without_session(parts, token_usage),
    }
}

/// The panels around the conversation on screen.
#[derive(Debug, Clone, Copy, PartialEq, Eq, Structural)]
pub struct PanelState {
    pub right_panel_open: bool,
    pub right_tab: RightTab,
    pub right_panel_expanded: bool,
    pub terminal_open: bool,
    pub terminal_height: PixelBits,
    pub plan_tab_active: bool,
}

/// The panels of a conversation. The plan tab is offered while a plan is
/// proposed or the session plans.
pub fn panel_state(
    ui: Option<&ConversationUiState>,
    status: Option<&SessionStatus>,
    timeline: Option<&Timeline>,
) -> (state: PanelState)
    ensures
        match ui {
            Some(held) => state.right_panel_open == held.right_panel_open && state.right_tab
                == held.right_tab && state.right_panel_expanded == held.right_panel_expanded
                && state.terminal_open == held.terminal_open && state.terminal_height
                == held.terminal_height,
            None => !state.right_panel_open && state.right_tab == RightTab::Diff
                && !state.right_panel_expanded && !state.terminal_open && state.terminal_height
                == PixelBits(DEFAULT_TERMINAL_HEIGHT),
        },
        state.plan_tab_active == ((timeline is Some && timeline->0.proposed_plan is Some) || (
        status is Some && status->0.interaction_mode == InteractionMode::Plan)),
{
    let proposed = match timeline {
        Some(held) => held.proposed_plan.is_some(),
        None => false,
    };
    let planning = match status {
        Some(held) => held.interaction_mode == InteractionMode::Plan,
        None => false,
    };
    match ui {
        Some(held) => PanelState {
            right_panel_open: held.right_panel_open,
            right_tab: held.right_tab,
            right_panel_expanded: held.right_panel_expanded,
            terminal_open: held.terminal_open,
            terminal_height: held.terminal_height,
            plan_tab_active: proposed || planning,
        },
        None => PanelState {
            right_panel_open: false,
            right_tab: RightTab::Diff,
            right_panel_expanded: false,
            terminal_open: false,
            terminal_height: PixelBits(DEFAULT_TERMINAL_HEIGHT),
            plan_tab_active: proposed || planning,
        },
    }
}

impl WorkspaceStore {
    /// What the composer shows of the session on screen.
    pub fn composer_state(&self, resolved_window: u64) -> (state: ComposerState)
        ensures
            match self@.status {
                Some(held) => shows_status(state, held, self@.settings, self@.providers),
                None => shows_no_status(state),
            },
            shows_timeline(
                state,
                match self@.timeline {
                    Some(replica) => Some(replica.timeline),
                    None => None,
                },
            ),
            state.token_usage == tokens_shown(
                self@.status,
                match self@.timeline {
                    Some(replica) => replica.timeline.usage,
                    None => None,
                },
                resolved_window,
            ),
    {
        let timeline = match &self.session_replica {
            Some(replica) => Some(&replica.timeline),
            None => None,
        };
        composer_state(
            self.session_status_replica.as_ref(),
            timeline,
            &self.settings_replica,
            &self.providers_replica,
            resolved_window,
        )
    }

    /// The panels of the conversation on screen.
    pub fn panel_state(&self) -> (state: PanelState)
        ensures
            match self@.active_ui() {
                Some(held) => state.right_panel_open == held.right_panel_open && state.right_tab
                    == held.right_tab && state.right_panel_expanded == held.right_panel_expanded
                    && state.terminal_open == held.terminal_open && state.terminal_height
                    == held.terminal_height,
                None => !state.right_panel_open && state.right_tab == RightTab::Diff
                    && !state.right_panel_expanded && !state.terminal_open
                    && state.terminal_height == PixelBits(DEFAULT_TERMINAL_HEIGHT),
            },
            state.plan_tab_active == ((self@.timeline is Some
                && self@.timeline->0.timeline.proposed_plan is Some) || (self@.status is Some
                && self@.status->0.interaction_mode == InteractionMode::Plan)),
    {
        let timeline = match &self.session_replica {
            Some(replica) => Some(&replica.timeline),
            None => None,
        };
        panel_state(
            self.active_conversation_ui(),
            self.session_status_replica.as_ref(),
            timeline,
        )
    }
}

} // verus!
