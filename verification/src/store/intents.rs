//! What the user asks for: commands to the host.
use crate::command::{
    Command, Effect, GitActionRequest, Outbox, SettingsPatch, TerminalSelection,
    TerminalSplitDirection,
};
use crate::protocol::{
    ApprovalMode, HostValue, InteractionMode, ProviderKind, SidebarLayout, ThemePreference, Topic,
    WorkspaceMode,
};
use crate::store::delivery::answers_pending;
use crate::store::model::StoreModel;
use crate::store::panels::{dispatched, names_active};
use crate::store::{ClientPreferences, WorkspaceStore};
use vstd::prelude::*;

verus! {

impl WorkspaceStore {
    fn patch_settings(&mut self, patch: SettingsPatch)
        ensures
            final(self)@ == old(self)@.dispatch(Command::PatchSettings { patch }),
    {
        self.dispatch(Command::PatchSettings { patch });
    }

    pub fn set_word_wrap_diffs(&mut self, value: bool)
        ensures
            final(self)@ == old(self)@.dispatch(
                Command::PatchSettings { patch: SettingsPatch::WordWrapDiffs(value) },
            ),
    {
        self.patch_settings(SettingsPatch::WordWrapDiffs(value));
    }

    pub fn set_skip_delete_confirmation(&mut self, value: bool)
        ensures
            final(self)@ == old(self)@.dispatch(
                Command::PatchSettings { patch: SettingsPatch::SkipDeleteConfirmation(value) },
            ),
    {
        self.patch_settings(SettingsPatch::SkipDeleteConfirmation(value));
    }

    pub fn set_auto_open_task_panel(&mut self, value: bool)
        ensures
            final(self)@ == old(self)@.dispatch(
                Command::PatchSettings { patch: SettingsPatch::AutoOpenTaskPanel(value) },
            ),
    {
        self.patch_settings(SettingsPatch::AutoOpenTaskPanel(value));
    }

    pub fn set_live_command_panel_disabled(&mut self, value: bool)
        ensures
            final(self)@ == old(self)@.dispatch(
                Command::PatchSettings { patch: SettingsPatch::LiveCommandPanelDisabled(value) },
            ),
    {
        self.patch_settings(SettingsPatch::LiveCommandPanelDisabled(value));
    }

    pub fn set_provider_update_checks_disabled(&mut self, value: bool)
        ensures
            final(self)@ == old(self)@.dispatch(
                Command::PatchSettings {
                    patch: SettingsPatch::ProviderUpdateChecksDisabled(value),
                },
            ),
    {
        self.patch_settings(SettingsPatch::ProviderUpdateChecksDisabled(value));
    }

    pub fn set_inactive_frame_throttle_disabled(&mut self, value: bool)
        ensures
            final(self)@ == old(self)@.dispatch(
                Command::PatchSettings {
                    patch: SettingsPatch::InactiveFrameThrottleDisabled(value),
                },
            ),
    {
        self.patch_settings(SettingsPatch::InactiveFrameThrottleDisabled(value));
    }

    pub fn set_abort_on_model_fallback(&mut self, value: bool)
        ensures
            final(self)@ == old(self)@.dispatch(
                Command::PatchSettings { patch: SettingsPatch::AbortOnModelFallback(value) },
            ),
    {
        self.patch_settings(SettingsPatch::AbortOnModelFallback(value));
    }

    pub fn set_resume_on_limit_reset(&mut self, value: bool)
        ensures
            final(self)@ == old(self)@.dispatch(
                Command::PatchSettings { patch: SettingsPatch::ResumeOnLimitReset(value) },
            ),
    {
        self.patch_settings(SettingsPatch::ResumeOnLimitReset(value));
    }

    pub fn set_fallback_review_advisor(&mut self, value: bool)
        ensures
            final(self)@ == old(self)@.dispatch(
                Command::PatchSettings { patch: SettingsPatch::FallbackReviewAdvisor(value) },
            ),
    {
        self.patch_settings(SettingsPatch::FallbackReviewAdvisor(value));
    }

    pub fn set_auto_archive_disabled(&mut self, value: bool)
        ensures
            final(self)@ == old(self)@.dispatch(
                Command::PatchSettings { patch: SettingsPatch::AutoArchiveDisabled(value) },
            ),
    {
        self.patch_settings(SettingsPatch::AutoArchiveDisabled(value));
    }

    pub fn set_auto_archive_max_idle_days(&mut self, value: u32)
        ensures
            final(self)@ == old(self)@.dispatch(
                Command::PatchSettings { patch: SettingsPatch::AutoArchiveMaxIdleDays(value) },
            ),
    {
        self.patch_settings(SettingsPatch::AutoArchiveMaxIdleDays(value));
    }

    pub fn set_auto_archive_keep_count(&mut self, value: usize)
        ensures
            final(self)@ == old(self)@.dispatch(
                Command::PatchSettings { patch: SettingsPatch::AutoArchiveKeepCount(value) },
            ),
    {
        self.patch_settings(SettingsPatch::AutoArchiveKeepCount(value));
    }

    pub fn set_auto_archive_notice_shown(&mut self, value: bool)
        ensures
            final(self)@ == old(self)@.dispatch(
                Command::PatchSettings { patch: SettingsPatch::AutoArchiveNoticeShown(value) },
            ),
    {
        self.patch_settings(SettingsPatch::AutoArchiveNoticeShown(value));
    }

    pub fn set_orchestrate_decision_models(&mut self, value: Vec<HostValue>)
        ensures
            final(self)@ == old(self)@.dispatch(
                Command::PatchSettings { patch: SettingsPatch::OrchestrateDecisionModels(value) },
            ),
    {
        self.patch_settings(SettingsPatch::OrchestrateDecisionModels(value));
    }

    pub fn set_orchestrate_child_models(&mut self, value: Vec<HostValue>)
        ensures
            final(self)@ == old(self)@.dispatch(
                Command::PatchSettings { patch: SettingsPatch::OrchestrateChildModels(value) },
            ),
    {
        self.patch_settings(SettingsPatch::OrchestrateChildModels(value));
    }

    pub fn set_orchestrate_child_approval(&mut self, value: HostValue)
        ensures
            final(self)@ == old(self)@.dispatch(
                Command::PatchSettings { patch: SettingsPatch::OrchestrateChildApproval(value) },
            ),
    {
        self.patch_settings(SettingsPatch::OrchestrateChildApproval(value));
    }

    pub fn set_orchestrate_child_worktrees(&mut self, value: bool)
        ensures
            final(self)@ == old(self)@.dispatch(
                Command::PatchSettings { patch: SettingsPatch::OrchestrateChildWorktrees(value) },
            ),
    {
        self.patch_settings(SettingsPatch::OrchestrateChildWorktrees(value));
    }

    pub fn set_orchestrate_archive_on_complete(&mut self, value: bool)
        ensures
            final(self)@ == old(self)@.dispatch(
                Command::PatchSettings {
                    patch: SettingsPatch::OrchestrateArchiveOnComplete(value),
                },
            ),
    {
        self.patch_settings(SettingsPatch::OrchestrateArchiveOnComplete(value));
    }

    pub fn set_computer_use_enabled(&mut self, value: bool)
        ensures
            final(self)@ == old(self)@.dispatch(
                Command::PatchSettings { patch: SettingsPatch::ComputerUseEnabled(value) },
            ),
    {
        self.patch_settings(SettingsPatch::ComputerUseEnabled(value));
    }

    pub fn set_computer_use_image_mode(&mut self, value: HostValue)
        ensures
            final(self)@ == old(self)@.dispatch(
                Command::PatchSettings { patch: SettingsPatch::ComputerUseImageMode(value) },
            ),
    {
        self.patch_settings(SettingsPatch::ComputerUseImageMode(value));
    }

    pub fn set_computer_use_allow_input(&mut self, value: bool)
        ensures
            final(self)@ == old(self)@.dispatch(
                Command::PatchSettings { patch: SettingsPatch::ComputerUseAllowInput(value) },
            ),
    {
        self.patch_settings(SettingsPatch::ComputerUseAllowInput(value));
    }

    pub fn set_computer_use_allow_foreground_fallback(&mut self, value: bool)
        ensures
            final(self)@ == old(self)@.dispatch(
                Command::PatchSettings {
                    patch: SettingsPatch::ComputerUseAllowForegroundFallback(value),
                },
            ),
    {
        self.patch_settings(SettingsPatch::ComputerUseAllowForegroundFallback(value));
    }

    pub fn set_computer_use_show_agent_cursor(&mut self, value: bool)
        ensures
            final(self)@ == old(self)@.dispatch(
                Command::PatchSettings { patch: SettingsPatch::ComputerUseShowAgentCursor(value) },
            ),
    {
        self.patch_settings(SettingsPatch::ComputerUseShowAgentCursor(value));
    }

    pub fn set_browser_enabled(&mut self, value: bool)
        ensures
            final(self)@ == old(self)@.dispatch(
                Command::PatchSettings { patch: SettingsPatch::BrowserEnabled(value) },
            ),
    {
        self.patch_settings(SettingsPatch::BrowserEnabled(value));
    }

    pub fn set_browser_home_url(&mut self, value: Option<String>)
        ensures
            final(self)@ == old(self)@.dispatch(
                Command::PatchSettings { patch: SettingsPatch::BrowserHomeUrl(value) },
            ),
    {
        self.patch_settings(SettingsPatch::BrowserHomeUrl(value));
    }

    pub fn set_browser_allow_evaluate(&mut self, value: bool)
        ensures
            final(self)@ == old(self)@.dispatch(
                Command::PatchSettings { patch: SettingsPatch::BrowserAllowEvaluate(value) },
            ),
    {
        self.patch_settings(SettingsPatch::BrowserAllowEvaluate(value));
    }

    pub fn set_title_generation_provider(&mut self, value: ProviderKind)
        ensures
            final(self)@ == old(self)@.dispatch(
                Command::PatchSettings { patch: SettingsPatch::TitleGenerationProvider(value) },
            ),
    {
        self.patch_settings(SettingsPatch::TitleGenerationProvider(value));
    }

    pub fn set_title_generation_model(&mut self, value: String)
        ensures
            final(self)@ == old(self)@.dispatch(
                Command::PatchSettings { patch: SettingsPatch::TitleGenerationModel(value) },
            ),
    {
        self.patch_settings(SettingsPatch::TitleGenerationModel(value));
    }

    pub fn set_title_generation_profile_id(&mut self, value: Option<String>)
        ensures
            final(self)@ == old(self)@.dispatch(
                Command::PatchSettings { patch: SettingsPatch::TitleGenerationProfileId(value) },
            ),
    {
        self.patch_settings(SettingsPatch::TitleGenerationProfileId(value));
    }

    pub fn set_fallback_review_provider(&mut self, value: ProviderKind)
        ensures
            final(self)@ == old(self)@.dispatch(
                Command::PatchSettings { patch: SettingsPatch::FallbackReviewProvider(value) },
            ),
    {
        self.patch_settings(SettingsPatch::FallbackReviewProvider(value));
    }

    pub fn set_fallback_review_model(&mut self, value: String)
        ensures
            final(self)@ == old(self)@.dispatch(
                Command::PatchSettings { patch: SettingsPatch::FallbackReviewModel(value) },
            ),
    {
        self.patch_settings(SettingsPatch::FallbackReviewModel(value));
    }

    pub fn set_fallback_review_profile_id(&mut self, value: Option<String>)
        ensures
            final(self)@ == old(self)@.dispatch(
                Command::PatchSettings { patch: SettingsPatch::FallbackReviewProfileId(value) },
            ),
    {
        self.patch_settings(SettingsPatch::FallbackReviewProfileId(value));
    }

    pub fn set_sidebar_layout(&mut self, value: SidebarLayout)
        ensures
            final(self)@ == old(self)@.dispatch(
                Command::PatchSettings { patch: SettingsPatch::SidebarLayout(value) },
            ),
    {
        self.patch_settings(SettingsPatch::SidebarLayout(value));
    }

    pub fn set_remote_hosting_enabled(&mut self, value: bool)
        ensures
            final(self)@ == old(self)@.dispatch(
                Command::PatchSettings { patch: SettingsPatch::RemoteHostingEnabled(value) },
            ),
    {
        self.patch_settings(SettingsPatch::RemoteHostingEnabled(value));
    }

    pub fn set_remote_port(&mut self, value: Option<u16>)
        ensures
            final(self)@ == old(self)@.dispatch(
                Command::PatchSettings { patch: SettingsPatch::RemotePort(value) },
            ),
    {
        self.patch_settings(SettingsPatch::RemotePort(value));
    }

    pub fn set_remote_host_name(&mut self, value: Option<String>)
        ensures
            final(self)@ == old(self)@.dispatch(
                Command::PatchSettings { patch: SettingsPatch::RemoteHostName(value) },
            ),
    {
        self.patch_settings(SettingsPatch::RemoteHostName(value));
    }

    pub fn reset_settings(&mut self)
        ensures
            final(self)@ == old(self)@.dispatch(Command::ResetSettings),
    {
        self.dispatch(Command::ResetSettings);
    }

    pub fn write_relaunch_marker(&mut self, reopen_settings: String)
        ensures
            dispatched(
                old(self)@,
                final(self)@,
                |session_id: String| Command::WriteRelaunchMarker { session_id, reopen_settings },
            ),
    {
        let session_id = self.active_id();
        assert(names_active(old(self)@, session_id));
        self.dispatch(Command::WriteRelaunchMarker { session_id, reopen_settings });
    }

    pub fn clear_relaunch_marker(&mut self)
        ensures
            final(self)@ == old(self)@.dispatch(Command::ClearRelaunchMarker),
    {
        self.dispatch(Command::ClearRelaunchMarker);
    }

    pub fn set_sidebar_collapsed(&mut self, collapsed: bool)
        ensures
            final(self)@ == old(self)@.dispatch(Command::SetSidebarCollapsed { collapsed }),
    {
        self.dispatch(Command::SetSidebarCollapsed { collapsed });
    }

    pub fn settle_session(&mut self, session_id: String)
        ensures
            final(self)@ == old(self)@.dispatch(Command::SettleSession { session_id }),
    {
        self.dispatch(Command::SettleSession { session_id });
    }

    pub fn make_session_active(&mut self, session_id: String)
        ensures
            final(self)@ == old(self)@.dispatch(Command::MakeSessionActive { session_id }),
    {
        self.dispatch(Command::MakeSessionActive { session_id });
    }

    pub fn archive_session(&mut self, session_id: String)
        ensures
            final(self)@ == old(self)@.dispatch(Command::ArchiveSession { session_id }),
    {
        self.dispatch(Command::ArchiveSession { session_id });
    }

    pub fn unarchive_session(&mut self, session_id: String)
        ensures
            final(self)@ == old(self)@.dispatch(Command::UnarchiveSession { session_id }),
    {
        self.dispatch(Command::UnarchiveSession { session_id });
    }

    pub fn merge_worktree(&mut self, session_id: String)
        ensures
            final(self)@ == old(self)@.dispatch(Command::MergeWorktree { session_id }),
    {
        self.dispatch(Command::MergeWorktree { session_id });
    }

    pub fn mark_session_unread(&mut self, session_id: String)
        ensures
            final(self)@ == old(self)@.dispatch(Command::MarkSessionUnread { session_id }),
    {
        self.dispatch(Command::MarkSessionUnread { session_id });
    }

    pub fn rename_session(&mut self, session_id: String, title: String)
        ensures
            final(self)@ == old(self)@.dispatch(Command::RenameSession { session_id, title }),
    {
        self.dispatch(Command::RenameSession { session_id, title });
    }

    pub fn delete_session(&mut self, session_id: String, remove_worktree: bool)
        ensures
            final(self)@ == old(self)@.dispatch(
                Command::DeleteSession { session_id, remove_worktree },
            ),
    {
        self.dispatch(Command::DeleteSession { session_id, remove_worktree });
    }

    /// Fork a thread and show the fork.
    pub fn fork_thread(&mut self, id: String)
        ensures
            final(self)@ == old(self)@.create(Command::ForkThread { id }),
    {
        self.create_and_select(Command::ForkThread { id });
    }

    /// The command that archives a project's idle threads.
    pub fn auto_archive_sweep(project_id: String) -> (command: Command)
        ensures
            command == (Command::AutoArchiveSweep { project_id }),
    {
        Command::AutoArchiveSweep { project_id }
    }

    /// The command that adds a project.
    pub fn create_project(root: String) -> (command: Command)
        ensures
            command == (Command::CreateProject { root }),
    {
        Command::CreateProject { root }
    }

    /// The command that imports another agent's threads into a project.
    pub fn start_external_import(project_id: &str, threads: Vec<HostValue>) -> (command: Command)
        ensures
            command matches Command::StartExternalImport { project_id: id, threads: sent }
                && id@ == project_id@ && sent == threads,
    {
        Command::StartExternalImport { project_id: project_id.to_owned(), threads }
    }

    pub fn send_turn(&mut self, text: String, attachment_paths: Vec<String>)
        ensures
            dispatched(
                old(self)@,
                final(self)@,
                |session_id: String| Command::SendTurn { session_id, text, attachment_paths },
            ),
    {
        let session_id = self.active_id();
        assert(names_active(old(self)@, session_id));
        self.dispatch(Command::SendTurn { session_id, text, attachment_paths });
    }

    pub fn schedule_turn(
        &mut self,
        text: String,
        attachment_paths: Vec<String>,
        fire_at_unix_secs: u64,
    )
        ensures
            dispatched(
                old(self)@,
                final(self)@,
                |session_id: String|
                    Command::ScheduleTurn {
                        session_id,
                        text,
                        attachment_paths,
                        fire_at_unix_secs,
                    },
            ),
    {
        let session_id = self.active_id();
        assert(names_active(old(self)@, session_id));
        self.dispatch(
            Command::ScheduleTurn {
                session_id,
                text,
                attachment_paths,
                fire_at_unix_secs,
            },
        );
    }

    pub fn confirm_relay_and_send(&mut self, text: String, attachment_paths: Vec<String>)
        ensures
            dispatched(
                old(self)@,
                final(self)@,
                |session_id: String|
                    Command::ConfirmRelayAndSend {
                        session_id,
                        text,
                        attachment_paths,
                    },
            ),
    {
        let session_id = self.active_id();
        assert(names_active(old(self)@, session_id));
        self.dispatch(Command::ConfirmRelayAndSend { session_id, text, attachment_paths });
    }

    pub fn orchestrate_turn(&mut self, text: String, attachment_paths: Vec<String>)
        ensures
            dispatched(
                old(self)@,
                final(self)@,
                |session_id: String|
                    Command::OrchestrateTurn {
                        session_id,
                        text,
                        attachment_paths,
                    },
            ),
    {
        let session_id = self.active_id();
        assert(names_active(old(self)@, session_id));
        self.dispatch(Command::OrchestrateTurn { session_id, text, attachment_paths });
    }

    pub fn steer(&mut self, text: String, attachment_paths: Vec<String>)
        ensures
            dispatched(
                old(self)@,
                final(self)@,
                |session_id: String| Command::Steer { session_id, text, attachment_paths },
            ),
    {
        let session_id = self.active_id();
        assert(names_active(old(self)@, session_id));
        self.dispatch(Command::Steer { session_id, text, attachment_paths });
    }

    pub fn steer_queued(&mut self, id: u64)
        ensures
            dispatched(
                old(self)@,
                final(self)@,
                |session_id: String| Command::SteerQueued { session_id, id },
            ),
    {
        let session_id = self.active_id();
        assert(names_active(old(self)@, session_id));
        self.dispatch(Command::SteerQueued { session_id, id });
    }

    pub fn drop_queued(&mut self, id: u64)
        ensures
            dispatched(
                old(self)@,
                final(self)@,
                |session_id: String| Command::DropQueued { session_id, id },
            ),
    {
        let session_id = self.active_id();
        assert(names_active(old(self)@, session_id));
        self.dispatch(Command::DropQueued { session_id, id });
    }

    pub fn interrupt(&mut self)
        ensures
            dispatched(
                old(self)@,
                final(self)@,
                |session_id: String| Command::Interrupt { session_id },
            ),
    {
        let session_id = self.active_id();
        assert(names_active(old(self)@, session_id));
        self.dispatch(Command::Interrupt { session_id });
    }

    /// Answer an approval request, unless an answer is already on its way.
    pub fn respond_approval(&mut self, outbox: &Outbox, request_id: String, decision: HostValue)
        ensures
            if answers_pending(old(self)@, outbox.pending@, request_id@) {
                final(self)@ == old(self)@
            } else {
                dispatched(
                    old(self)@,
                    final(self)@,
                    |session_id: String|
                        Command::RespondApproval { session_id, request_id, decision },
                )
            },
    {
        if self.approval_delivery_pending(outbox, request_id.as_str()) {
            return;
        }
        let session_id = self.active_id();
        assert(names_active(old(self)@, session_id));
        self.dispatch(Command::RespondApproval { session_id, request_id, decision });
    }

    pub fn respond_user_input(&mut self, request_id: String, answers: HostValue)
        ensures
            dispatched(
                old(self)@,
                final(self)@,
                |session_id: String| Command::RespondUserInput { session_id, request_id, answers },
            ),
    {
        let session_id = self.active_id();
        assert(names_active(old(self)@, session_id));
        self.dispatch(Command::RespondUserInput { session_id, request_id, answers });
    }

    /// Rewind to a turn on screen, named by its position in the whole session.
    pub fn rewind_turn(&mut self, turn: usize, mode: HostValue)
        requires
            turn + old(self)@.turn_offset <= usize::MAX,
        ensures
            dispatched(
                old(self)@,
                final(self)@,
                |session_id: String|
                    Command::RewindTurn {
                        session_id,
                        turn: (turn + old(self)@.turn_offset) as usize,
                        mode,
                    },
            ),
    {
        let session_id = self.active_id();
        assert(names_active(old(self)@, session_id));
        let turn: usize = turn + self.session_turn_offset;
        self.dispatch(Command::RewindTurn { session_id, turn, mode });
    }

    pub fn add_review_comment(&mut self, comment: HostValue)
        ensures
            dispatched(
                old(self)@,
                final(self)@,
                |session_id: String| Command::AddReviewComment { session_id, comment },
            ),
    {
        let session_id = self.active_id();
        assert(names_active(old(self)@, session_id));
        self.dispatch(Command::AddReviewComment { session_id, comment });
    }

    pub fn remove_review_comment(&mut self, index: usize)
        ensures
            dispatched(
                old(self)@,
                final(self)@,
                |session_id: String| Command::RemoveReviewComment { session_id, index },
            ),
    {
        let session_id = self.active_id();
        assert(names_active(old(self)@, session_id));
        self.dispatch(Command::RemoveReviewComment { session_id, index });
    }

    pub fn implement_plan(&mut self)
        ensures
            dispatched(
                old(self)@,
                final(self)@,
                |session_id: String| Command::ImplementPlan { session_id },
            ),
    {
        let session_id = self.active_id();
        assert(names_active(old(self)@, session_id));
        self.dispatch(Command::ImplementPlan { session_id });
    }

    pub fn dismiss_plan(&mut self)
        ensures
            dispatched(
                old(self)@,
                final(self)@,
                |session_id: String| Command::DismissPlan { session_id },
            ),
    {
        let session_id = self.active_id();
        assert(names_active(old(self)@, session_id));
        self.dispatch(Command::DismissPlan { session_id });
    }

    /// Carry the plan out in a thread of its own, and show that thread.
    pub fn implement_plan_in_new_thread(&mut self, title: String)
        ensures
            exists|session_id: String| #[trigger]
                names_active(old(self)@, session_id) && final(self)@ == old(self)@.create(
                    Command::ImplementPlanInNewThread { session_id, title },
                ),
    {
        let session_id = self.active_id();
        assert(names_active(old(self)@, session_id));
        self.create_and_select(Command::ImplementPlanInNewThread { session_id, title });
    }

    pub fn copy_plan(&mut self, markdown: String)
        ensures
            final(self)@ == old(self)@.dispatch(Command::CopyPlan { markdown }),
    {
        self.dispatch(Command::CopyPlan { markdown });
    }

    pub fn save_plan_to_workspace(&mut self, markdown: String)
        ensures
            dispatched(
                old(self)@,
                final(self)@,
                |session_id: String| Command::SavePlanToWorkspace { session_id, markdown },
            ),
    {
        let session_id = self.active_id();
        assert(names_active(old(self)@, session_id));
        self.dispatch(Command::SavePlanToWorkspace { session_id, markdown });
    }

    pub fn download_plan(&mut self, markdown: String, fallback_title: String)
        ensures
            dispatched(
                old(self)@,
                final(self)@,
                |session_id: String| Command::DownloadPlan { session_id, markdown, fallback_title },
            ),
    {
        let session_id = self.active_id();
        assert(names_active(old(self)@, session_id));
        self.dispatch(Command::DownloadPlan { session_id, markdown, fallback_title });
    }

    pub fn toggle_project_collapsed(&mut self, project_id: String)
        ensures
            final(self)@ == old(self)@.dispatch(Command::ToggleProjectCollapsed { project_id }),
    {
        self.dispatch(Command::ToggleProjectCollapsed { project_id });
    }

    pub fn delete_project(&mut self, project_id: String)
        ensures
            final(self)@ == old(self)@.dispatch(Command::DeleteProject { project_id }),
    {
        self.dispatch(Command::DeleteProject { project_id });
    }

    pub fn set_draft_workspace(&mut self, mode: WorkspaceMode)
        ensures
            dispatched(
                old(self)@,
                final(self)@,
                |session_id: String| Command::SetDraftWorkspace { session_id, mode },
            ),
    {
        let session_id = self.active_id();
        assert(names_active(old(self)@, session_id));
        self.dispatch(Command::SetDraftWorkspace { session_id, mode });
    }

    pub fn run_git_action(
        &mut self,
        action: HostValue,
        message: Option<String>,
        included: Option<Vec<String>>,
        feature_branch: Option<String>,
    )
        ensures
            dispatched(
                old(self)@,
                final(self)@,
                |session_id: String|
                    Command::RunGitAction {
                        session_id,
                        action,
                        message,
                        included,
                        feature_branch,
                    },
            ),
    {
        let session_id = self.active_id();
        assert(names_active(old(self)@, session_id));
        self.dispatch(
            Command::RunGitAction {
                session_id,
                action,
                message,
                included,
                feature_branch,
            },
        );
    }

    /// Run a git action again, for the session it was asked for.
    pub fn retry_git_action(&mut self, request: GitActionRequest)
        ensures
            final(self)@ == old(self)@.dispatch(
                Command::RunGitAction {
                    session_id: request.session_id,
                    action: request.action,
                    message: request.message,
                    included: request.included,
                    feature_branch: request.feature_branch,
                },
            ),
    {
        self.dispatch(
            Command::RunGitAction {
                session_id: request.session_id,
                action: request.action,
                message: request.message,
                included: request.included,
                feature_branch: request.feature_branch,
            },
        );
    }

    pub fn load_branches(&mut self)
        ensures
            dispatched(
                old(self)@,
                final(self)@,
                |session_id: String| Command::LoadBranches { session_id },
            ),
    {
        let session_id = self.active_id();
        assert(names_active(old(self)@, session_id));
        self.dispatch(Command::LoadBranches { session_id });
    }

    pub fn checkout_branch(&mut self, branch: String)
        ensures
            dispatched(
                old(self)@,
                final(self)@,
                |session_id: String| Command::CheckoutBranch { session_id, branch },
            ),
    {
        let session_id = self.active_id();
        assert(names_active(old(self)@, session_id));
        self.dispatch(Command::CheckoutBranch { session_id, branch });
    }

    pub fn cycle_project_sort(&mut self)
        ensures
            final(self)@ == old(self)@.dispatch(Command::CycleProjectSort),
    {
        self.dispatch(Command::CycleProjectSort);
    }

    pub fn restart_terminal(&mut self)
        ensures
            dispatched(
                old(self)@,
                final(self)@,
                |session_id: String| Command::RestartTerminal { session_id },
            ),
    {
        let session_id = self.active_id();
        assert(names_active(old(self)@, session_id));
        self.dispatch(Command::RestartTerminal { session_id });
    }

    pub fn new_terminal(&mut self)
        ensures
            dispatched(
                old(self)@,
                final(self)@,
                |session_id: String| Command::NewTerminal { session_id },
            ),
    {
        let session_id = self.active_id();
        assert(names_active(old(self)@, session_id));
        self.dispatch(Command::NewTerminal { session_id });
    }

    pub fn split_terminal(&mut self, direction: TerminalSplitDirection)
        ensures
            dispatched(
                old(self)@,
                final(self)@,
                |session_id: String| Command::SplitTerminal { session_id, direction },
            ),
    {
        let session_id = self.active_id();
        assert(names_active(old(self)@, session_id));
        self.dispatch(Command::SplitTerminal { session_id, direction });
    }

    pub fn activate_terminal(&mut self, terminal_id: u64)
        ensures
            dispatched(
                old(self)@,
                final(self)@,
                |session_id: String| Command::ActivateTerminal { session_id, terminal_id },
            ),
    {
        let session_id = self.active_id();
        assert(names_active(old(self)@, session_id));
        self.dispatch(Command::ActivateTerminal { session_id, terminal_id });
    }

    pub fn capture_terminal_selection(
        &mut self,
        terminal_id: u64,
        selection: Option<TerminalSelection>,
    )
        ensures
            dispatched(
                old(self)@,
                final(self)@,
                |session_id: String|
                    Command::CaptureTerminalSelection {
                        session_id,
                        terminal_id,
                        selection,
                    },
            ),
    {
        let session_id = self.active_id();
        assert(names_active(old(self)@, session_id));
        self.dispatch(Command::CaptureTerminalSelection { session_id, terminal_id, selection });
    }

    pub fn remove_terminal_context(&mut self, context_id: u64)
        ensures
            dispatched(
                old(self)@,
                final(self)@,
                |session_id: String| Command::RemoveTerminalContext { session_id, context_id },
            ),
    {
        let session_id = self.active_id();
        assert(names_active(old(self)@, session_id));
        self.dispatch(Command::RemoveTerminalContext { session_id, context_id });
    }

    pub fn refresh_provider_status(&mut self)
        ensures
            final(self)@ == old(self)@.dispatch(Command::RefreshProviderStatus),
    {
        self.dispatch(Command::RefreshProviderStatus);
    }

    pub fn refresh_provider_usage(&mut self)
        ensures
            final(self)@ == old(self)@.dispatch(Command::RefreshProviderUsage),
    {
        self.dispatch(Command::RefreshProviderUsage);
    }

    pub fn check_provider_versions(&mut self)
        ensures
            final(self)@ == old(self)@.dispatch(Command::CheckProviderVersions),
    {
        self.dispatch(Command::CheckProviderVersions);
    }

    pub fn reload_provider(&mut self)
        ensures
            final(self)@ == old(self)@.dispatch(Command::ReloadProvider),
    {
        self.dispatch(Command::ReloadProvider);
    }

    pub fn set_profile_secret(&mut self, profile_id: String, name: String, value: Option<String>)
        ensures
            final(self)@ == old(self)@.dispatch(
                Command::SetProfileSecret { profile_id, name, value },
            ),
    {
        self.dispatch(Command::SetProfileSecret { profile_id, name, value });
    }

    pub fn update_profile_settings(&mut self, profile_id: String, patch: HostValue)
        ensures
            final(self)@ == old(self)@.dispatch(
                Command::UpdateProfileSettings { profile_id, patch },
            ),
    {
        self.dispatch(Command::UpdateProfileSettings { profile_id, patch });
    }

    pub fn create_third_party_profile(
        &mut self,
        name: String,
        base_url: String,
        model: Option<String>,
        api_key: String,
    )
        ensures
            final(self)@ == old(self)@.dispatch(
                Command::CreateThirdPartyProfile { name, base_url, model, api_key },
            ),
    {
        self.dispatch(Command::CreateThirdPartyProfile { name, base_url, model, api_key });
    }

    pub fn delete_profile(&mut self, profile_id: String)
        ensures
            final(self)@ == old(self)@.dispatch(Command::DeleteProfile { profile_id }),
    {
        self.dispatch(Command::DeleteProfile { profile_id });
    }

    pub fn update_provider(&mut self, provider: ProviderKind)
        ensures
            final(self)@ == old(self)@.dispatch(Command::UpdateProvider { provider }),
    {
        self.dispatch(Command::UpdateProvider { provider });
    }

    pub fn set_active_model(
        &mut self,
        provider: ProviderKind,
        model: Option<String>,
        profile_id: Option<String>,
    )
        ensures
            dispatched(
                old(self)@,
                final(self)@,
                |session_id: String|
                    Command::SetActiveModel {
                        session_id,
                        provider,
                        model,
                        profile_id,
                    },
            ),
    {
        let session_id = self.active_id();
        assert(names_active(old(self)@, session_id));
        self.dispatch(Command::SetActiveModel { session_id, provider, model, profile_id });
    }

    pub fn toggle_favorite_model(&mut self, model: String)
        ensures
            final(self)@ == old(self)@.dispatch(Command::ToggleFavoriteModel { model }),
    {
        self.dispatch(Command::ToggleFavoriteModel { model });
    }

    pub fn set_active_option(&mut self, id: String, value: Option<HostValue>)
        ensures
            dispatched(
                old(self)@,
                final(self)@,
                |session_id: String| Command::SetActiveOption { session_id, id, value },
            ),
    {
        let session_id = self.active_id();
        assert(names_active(old(self)@, session_id));
        self.dispatch(Command::SetActiveOption { session_id, id, value });
    }

    pub fn select_ultrathink(&mut self)
        ensures
            dispatched(
                old(self)@,
                final(self)@,
                |session_id: String| Command::SelectUltrathink { session_id },
            ),
    {
        let session_id = self.active_id();
        assert(names_active(old(self)@, session_id));
        self.dispatch(Command::SelectUltrathink { session_id });
    }

    pub fn refresh_acp_registry(&mut self)
        ensures
            final(self)@ == old(self)@.dispatch(Command::RefreshAcpRegistry),
    {
        self.dispatch(Command::RefreshAcpRegistry);
    }

    pub fn install_acp_agent(&mut self, id: String)
        ensures
            final(self)@ == old(self)@.dispatch(Command::InstallAcpAgent { id }),
    {
        self.dispatch(Command::InstallAcpAgent { id });
    }

    pub fn remove_acp_agent(&mut self, id: String)
        ensures
            final(self)@ == old(self)@.dispatch(Command::RemoveAcpAgent { id }),
    {
        self.dispatch(Command::RemoveAcpAgent { id });
    }

    pub fn add_custom_acp_agent(
        &mut self,
        name: String,
        command: String,
        args: Vec<String>,
        env: Vec<(String, String)>,
    )
        ensures
            final(self)@ == old(self)@.dispatch(
                Command::AddCustomAcpAgent { name, command, args, env },
            ),
    {
        self.dispatch(Command::AddCustomAcpAgent { name, command, args, env });
    }

    pub fn update_acp_agent(&mut self, id: String, patch: HostValue)
        ensures
            final(self)@ == old(self)@.dispatch(Command::UpdateAcpAgent { id, patch }),
    {
        self.dispatch(Command::UpdateAcpAgent { id, patch });
    }

    pub fn set_active_acp_agent(&mut self, id: String)
        ensures
            dispatched(
                old(self)@,
                final(self)@,
                |session_id: String| Command::SetActiveAcpAgent { session_id, id },
            ),
    {
        let session_id = self.active_id();
        assert(names_active(old(self)@, session_id));
        self.dispatch(Command::SetActiveAcpAgent { session_id, id });
    }

    pub fn set_interaction_mode(&mut self, mode: InteractionMode)
        ensures
            dispatched(
                old(self)@,
                final(self)@,
                |session_id: String| Command::SetInteractionMode { session_id, mode },
            ),
    {
        let session_id = self.active_id();
        assert(names_active(old(self)@, session_id));
        self.dispatch(Command::SetInteractionMode { session_id, mode });
    }

    pub fn toggle_interaction_mode(&mut self)
        ensures
            dispatched(
                old(self)@,
                final(self)@,
                |session_id: String| Command::ToggleInteractionMode { session_id },
            ),
    {
        let session_id = self.active_id();
        assert(names_active(old(self)@, session_id));
        self.dispatch(Command::ToggleInteractionMode { session_id });
    }

    pub fn set_active_approval_mode(&mut self, mode: ApprovalMode)
        ensures
            dispatched(
                old(self)@,
                final(self)@,
                |session_id: String| Command::SetActiveApprovalMode { session_id, mode },
            ),
    {
        let session_id = self.active_id();
        assert(names_active(old(self)@, session_id));
        self.dispatch(Command::SetActiveApprovalMode { session_id, mode });
    }

    pub fn preview_reply(&mut self, request_id: u64, response: Result<HostValue, String>)
        ensures
            final(self)@ == old(self)@.dispatch(Command::PreviewReply { request_id, response }),
    {
        self.dispatch(Command::PreviewReply { request_id, response });
    }

    /// Send a refused command again.
    pub fn retry_delivery(&mut self, key: String)
        ensures
            final(self)@ == old(self)@.emit(Effect::RetryFailed { key }),
    {
        self.emit(Effect::RetryFailed { key });
    }

    /// Give a refused command up.
    pub fn discard_delivery(&mut self, key: String)
        ensures
            final(self)@ == old(self)@.emit(Effect::DiscardFailed { key }),
    {
        self.emit(Effect::DiscardFailed { key });
    }

    /// Subscribe to a project's import status. Callers do this before starting
    /// a run: a fast completion is only recoverable through the subscription
    /// snapshot, not through the start reply.
    pub fn watch_external_import(&mut self, project_id: String)
        ensures
            final(self)@ == old(self)@.subscribe(Topic::ExternalImport { project_id }, None),
    {
        self.emit(Effect::Subscribe { topic: Topic::ExternalImport { project_id }, after: None });
    }

    /// Stop following a project's import, and forget its status.
    pub fn unwatch_external_import(&mut self, project_id: String)
        ensures
            final(self)@ == (StoreModel {
                import_statuses: old(self)@.import_statuses.remove(project_id@),
                ..old(self)@
            }).unsubscribe(Topic::ExternalImport { project_id }),
    {
        self.import_statuses.remove(&project_id);
        self.emit(Effect::Unsubscribe { topic: Topic::ExternalImport { project_id } });
    }

    /// Follow or override the host's appearance on this device.
    pub fn set_client_theme(&mut self, mode: Option<ThemePreference>)
        ensures
            final(self)@ == (StoreModel {
                client_preferences: ClientPreferences {
                    appearance: final(self)@.client_preferences.appearance,
                    ..old(self)@.client_preferences
                },
                ..old(self)@
            }).emit(Effect::SavePreferences),
            crate::store::appearance_named(final(self)@.client_preferences.appearance) == mode,
            mode is None ==> final(self)@.client_preferences.appearance is None,
    {
        proof {
            reveal_strlit("system");
            reveal_strlit("light");
            reveal_strlit("dark");
            assert("system"@.len() == 6 && "light"@.len() == 5 && "dark"@.len() == 4);
        }
        self.client_preferences.appearance =
        match mode {
            Some(ThemePreference::System) => Some("system".to_owned()),
            Some(ThemePreference::Light) => Some("light".to_owned()),
            Some(ThemePreference::Dark) => Some("dark".to_owned()),
            None => None,
        };
        self.emit(Effect::SavePreferences);
    }

    /// Follow or override the host's language on this device.
    pub fn set_client_language(&mut self, language: Option<String>)
        ensures
            final(self)@ == (StoreModel {
                client_preferences: ClientPreferences {
                    language,
                    ..old(self)@.client_preferences
                },
                ..old(self)@
            }).emit(Effect::SavePreferences),
    {
        self.client_preferences.language = language;
        self.emit(Effect::SavePreferences);
    }

    /// Go back to the host's appearance and language and the device's own name.
    pub fn reset_client_preferences(&mut self)
        ensures
            final(self)@ == (StoreModel {
                client_preferences: ClientPreferences {
                    appearance: None,
                    language: None,
                    device_name: None,
                },
                ..old(self)@
            }).emit(Effect::SavePreferences),
    {
        self.client_preferences = ClientPreferences::default();
        self.emit(Effect::SavePreferences);
    }
}

} // verus!
