//! What views read of the store, and how the panels answer the user.

use super::chat::{changed_turns, visible_bytes};
use super::connection::{redrawn, resubscribed, unsubscribed, LinkChange, SeedProgress};
use super::images::{icon_raster, question, ImageRequest, Query};
use super::model::StoreModel;
use super::panels::dispatched;
use super::providers::{accent_value, marked, profiles_by_provider, ModelQuestion};
use super::queries::{
    archive_lists, archived, in_project, known_flags, last_visit, orphaned_worktree, unarchived,
    visits_session,
};
use super::requests::{unexpected, AnswerName};
use super::snapshots::{
    approval_in_force, branch_of, checkout_shown, model_shown, shows_no_status, shows_status,
    shows_timeline, tokens_shown, usage_shown, ComposerState,
};
use super::{appearance_named, language_in_effect, StoreChange, TopicKind};
use crate::command::{Command, Effect};
use crate::conversation_ui::ConversationUiState;
use crate::listing::{
    is_first, law_most_recent_first_permutes, law_most_recent_first_sorts, lemma_first_meaning,
    most_recent_first, recency, session_by_id, Recency,
};
use crate::protocol::{
    AcpMarketplaceItem, ApprovalMode, BuiltinProfiles, DestinationName, EventEnvelope,
    InteractionMode, LastVisit, Project, ProviderKind, ProvidersStatus, ResolvedProfile, RightTab,
    SessionMeta, SessionStatus, Settings, Subscription, ThemePreference, Timeline, TokenUsage,
    Topic, TurnRecord, UserMessage, WorkspaceMode,
};
use vstd::prelude::*;
use vstd::utf8::{encode_utf8, is_char_boundary};

verus! {

/// What the panels of a conversation hold that a press of a toggle leaves alone.
pub open spec fn rest_kept(before: ConversationUiState, after: ConversationUiState) -> bool {
    &&& after.right_panel_expanded == before.right_panel_expanded
    &&& after.diff_selected_turn == before.diff_selected_turn
    &&& after.diff_wrap == before.diff_wrap
    &&& after.diff_split == before.diff_split
    &&& after.terminal_open == before.terminal_open
    &&& after.terminal_height == before.terminal_height
    &&& after.preview_url == before.preview_url
    &&& after.preview_canvas == before.preview_canvas
}

/// Toggling the diff opens the panel on the diff and asks for it to be loaded again,
/// unless the panel shows the diff: then it closes, and gives up a focus that waits.
/// A panel that the user closed during a turn is not opened again by that turn.
pub proof fn law_toggling_the_diff(store: StoreModel)
    requires
        store.active_ui() is Some,
    ensures
        ({
            let before = store.active_ui()->0;
            let after = store.diff_toggled().active_ui()->0;
            &&& store.diff_toggled().active_ui() is Some
            &&& rest_kept(before, after)
            &&& before.right_panel_open && before.right_tab == RightTab::Diff ==> {
                &&& !after.right_panel_open
                &&& after.pending_diff_focus is None
                &&& after.diff_refresh_generation == before.diff_refresh_generation
                &&& store.status is Some && store.status->0.turn_running
                    ==> after.auto_open_task_suppressed
                &&& store.status is None || !store.status->0.turn_running
                    ==> after.auto_open_task_suppressed == before.auto_open_task_suppressed
            }
            &&& !before.right_panel_open || before.right_tab != RightTab::Diff ==> {
                &&& after.right_panel_open
                &&& after.right_tab == RightTab::Diff
                &&& after.pending_diff_focus == before.pending_diff_focus
                &&& after.diff_refresh_generation != before.diff_refresh_generation
                &&& after.auto_open_task_suppressed == before.auto_open_task_suppressed
            }
        }),
{
}

/// Toggling another tab opens the panel on it, or closes the panel that shows it.
pub proof fn law_toggling_a_tab(store: StoreModel, tab: RightTab)
    requires
        store.active_ui() is Some,
    ensures
        ({
            let before = store.active_ui()->0;
            let after = store.tab_toggled(tab).active_ui()->0;
            &&& store.tab_toggled(tab).active_ui() is Some
            &&& rest_kept(before, after)
            &&& after.right_tab == tab
            &&& after.right_panel_open == !(before.right_panel_open && before.right_tab == tab)
            &&& after.pending_diff_focus == before.pending_diff_focus
            &&& after.auto_open_task_suppressed == (before.auto_open_task_suppressed || (
            !after.right_panel_open && store.status is Some && store.status->0.turn_running))
        }),
{
}

/// A toggle changes the panels of the conversation on screen and of no other, and
/// nothing else of the store; with no conversation on screen it changes nothing.
pub proof fn law_toggles_stay_with_their_conversation(
    store: StoreModel,
    tab: RightTab,
    other: DestinationName,
)
    requires
        store.destination is Some ==> other != store.destination->0@,
    ensures
        store.diff_toggled().conversation_ui.contains_key(other)
            == store.conversation_ui.contains_key(other),
        store.diff_toggled().conversation_ui[other] == store.conversation_ui[other],
        store.tab_toggled(tab).conversation_ui.contains_key(other)
            == store.conversation_ui.contains_key(other),
        store.tab_toggled(tab).conversation_ui[other] == store.conversation_ui[other],
        store.diff_toggled().effects == store.effects,
        store.tab_toggled(tab).effects == store.effects,
        store.diff_toggled().selected == store.selected,
        store.tab_toggled(tab).selected == store.selected,
        store.active_ui() is None ==> store.diff_toggled() == store && store.tab_toggled(tab)
            == store,
{
}

/// A preview belongs to the conversation on screen while its session's status is
/// there, which may be a draft's, and else to the session's own thread.
pub proof fn law_previews_belong_to_their_conversation(store: StoreModel, id: Seq<char>)
    ensures
        store.status is None ==> store.preview_destination(id) == DestinationName::Thread(id),
        store.status is Some && store.status->0.session_id@ != id ==> store.preview_destination(id)
            == DestinationName::Thread(id),
        store.status is Some && store.status->0.session_id@ == id && store.destination is Some
            ==> store.preview_destination(id) == store.destination->0@,
{
}

/// A composer that shows a session sends to it, runs its commands in its directory,
/// and offers its model, options, mode and queue as the host published them.
pub proof fn law_a_composer_shows_its_session(
    state: ComposerState,
    status: SessionStatus,
    settings: Settings,
    providers: ProvidersStatus,
)
    requires
        shows_status(state, status, settings, providers),
    ensures
        state.has_active_session,
        state.active_cwd is Some && state.active_cwd->0 == status.cwd,
        state.attachments_dir is Some && state.attachments_dir->0 == status.attachments_dir,
        state.provider == Some(status.provider),
        state.active_model is Some && state.active_model->0.provider == status.provider,
        state.active_model->0.model == status.requested_model,
        state.active_model->0.acp_agent_id == status.acp_agent_id,
        state.active_model->0.profile_id == status.requested_profile_id,
        state.active_option_descriptors == status.provider_option_descriptors,
        state.active_option_selections == status.provider_option_selections,
        state.interaction_mode == status.interaction_mode,
        state.queue is Some && state.queue->0.messages == status.queued_messages,
        state.queue->0.can_steer == status.steering_supported,
        state.queue->0.agent == status.agent_name,
        state.steering_supported == status.steering_supported,
        state.turn_running == status.turn_running,
        state.stopping == status.stopping,
        state.terminal_contexts == status.terminal_contexts,
        state.relay_confirmation == status.relay_confirmation,
        state.provider_commands == status.provider_commands,
        state.model_pending_restart == status.model_pending_restart,
        state.options_pending_restart == status.options_pending_restart,
        state.approval_pending_restart == status.approval_pending_restart,
        state.ultrathink_armed == status.ultrathink_armed,
        state.preparing_worktree == status.preparing_worktree,
{
}

/// A composer without a session offers none of a session's controls, and what a new
/// session would start with.
pub proof fn law_a_composer_without_a_session_is_plain(state: ComposerState)
    requires
        shows_no_status(state),
    ensures
        !state.has_active_session,
        state.active_model is None && state.provider is None && state.queue is None,
        state.usage is None && state.active_cwd is None && state.attachments_dir is None,
        state.interaction_mode == InteractionMode::Build,
        state.approval_mode == ApprovalMode::Supervised,
        !state.model_pending_restart && !state.options_pending_restart
            && !state.approval_pending_restart,
        !state.steering_supported && !state.preparing_worktree && !state.ultrathink_armed,
{
}

/// The composer asks what the timeline asks: its question, its plan, and the first of
/// its approvals with the number of all of them.
pub proof fn law_a_composer_asks_what_the_timeline_asks(state: ComposerState, timeline: Timeline)
    requires
        shows_timeline(state, Some(timeline)),
    ensures
        state.pending_user_input == timeline.pending_user_input,
        state.plan_ready_markdown == timeline.plan_ready,
        state.pending_approval_count == timeline.pending_approvals@.len(),
        timeline.pending_approvals@.len() == 0 ==> state.pending_approval is None,
        timeline.pending_approvals@.len() > 0 ==> state.pending_approval == Some(
            timeline.pending_approvals@[0],
        ),
{
}

/// The approval mode in force is the session's own, unless its provider approves
/// nothing by itself and its profile says so, or the settings where it has none: then
/// everything is allowed.
pub proof fn law_the_approval_mode_in_force(status: SessionStatus, settings: Settings)
    ensures
        !status.caps.downgrade_approval_without_native_approvals ==> approval_in_force(
            status,
            settings,
        ) == status.approval_mode,
        status.caps.downgrade_approval_without_native_approvals && status.requested_profile_id
            is None ==> approval_in_force(status, settings) == if settings.pi_native_approvals {
            status.approval_mode
        } else {
            ApprovalMode::FullAccess
        },
        forall|i: int|
            {
                &&& status.caps.downgrade_approval_without_native_approvals
                &&& status.requested_profile_id is Some
                &&& #[trigger] first_profile(settings, status.requested_profile_id->0@, i)
            } ==> approval_in_force(status, settings) == if settings.profiles@[i].native_approvals {
                status.approval_mode
            } else {
                ApprovalMode::FullAccess
            },
{
    if status.requested_profile_id is Some {
        let id = status.requested_profile_id->0@;
        assert forall|i: int|
            {
                &&& status.caps.downgrade_approval_without_native_approvals
                &&& #[trigger] first_profile(settings, id, i)
            } implies approval_in_force(status, settings) == if settings.profiles@[i].native_approvals {
            status.approval_mode
        } else {
            ApprovalMode::FullAccess
        } by {
            lemma_profile(settings, id, i);
        }
    }
}

/// Whether a profile is the first of the settings with an id.
pub open spec fn first_profile(settings: Settings, id: Seq<char>, i: int) -> bool {
    &&& 0 <= i < settings.profiles@.len()
    &&& settings.profiles@[i].id@ == id
    &&& forall|j: int| 0 <= j < i ==> (#[trigger] settings.profiles@[j]).id@ != id
}

proof fn lemma_profile(settings: Settings, id: Seq<char>, i: int)
    requires
        first_profile(settings, id, i),
    ensures
        super::providers::profile_by_id(settings, id) == Some(settings.profiles@[i]),
{
    let wanted = super::providers::has_profile_id(id);
    assert(is_first(settings.profiles@, wanted, i));
    crate::listing::lemma_first(settings.profiles@, wanted, i);
}

/// Account usage is shown as it was fetched for the profile that the session runs on,
/// where that profile has account usage, and not otherwise.
pub proof fn law_account_usage_is_the_profiles(
    status: SessionStatus,
    settings: Settings,
    providers: ProvidersStatus,
    i: int,
)
    requires
        status.requested_profile_id is Some,
        first_profile(settings, status.requested_profile_id->0@, i),
    ensures
        ({
            let id = status.requested_profile_id->0@;
            let fetched = providers.provider_usage@;
            &&& settings.profiles@[i].supports_account_usage && fetched.contains_key(id)
                ==> usage_shown(status, settings, providers) == Some(fetched[id])
            &&& !settings.profiles@[i].supports_account_usage || !fetched.contains_key(id)
                ==> usage_shown(status, settings, providers) is None
        }),
{
    lemma_profile(settings, status.requested_profile_id->0@, i);
}

/// Token counts are shown as they were reported, but for the window: it never exceeds
/// the one that a chosen model of [`ProviderKind::ClaudeCode`] has.
pub proof fn law_token_counts_are_as_reported(
    status: SessionStatus,
    counts: TokenUsage,
    window: u64,
)
    ensures
        ({
            let shown = tokens_shown(Some(status), Some(counts), window);
            let bounded = status.provider == ProviderKind::ClaudeCode && status.requested_model
                is Some;
            &&& shown is Some
            &&& shown->0 == (TokenUsage { context_window: shown->0.context_window, ..counts })
            &&& shown->0.context_window is Some <==> counts.context_window is Some
            &&& bounded && counts.context_window is Some ==> {
                &&& shown->0.context_window->0 <= window
                &&& shown->0.context_window->0 <= counts.context_window->0
                &&& shown->0.context_window->0 == window || shown->0.context_window
                    == counts.context_window
            }
            &&& !bounded ==> shown == Some(counts)
        }),
        tokens_shown(None, Some(counts), window) == Some(counts),
        tokens_shown(Some(status), None, window) is None,
{
}

/// The model that the composer names is the first entry of its provider's catalogue
/// with the id that the session asks for.
pub proof fn law_the_composers_model_is_in_the_catalogue(
    status: SessionStatus,
    providers: ProvidersStatus,
)
    requires
        model_shown(status, providers) is Some,
    ensures
        status.requested_model is Some,
        providers.model_catalogs@.contains_key(status.provider),
        model_shown(status, providers)->0.id@ == status.requested_model->0@,
        providers.model_catalogs@[status.provider]@.contains(model_shown(status, providers)->0),
{
    let model = status.requested_model->0;
    let list = providers.model_catalogs@[status.provider]@;
    let wanted = |spec: crate::protocol::ModelSpec| spec.id@ == model@;
    lemma_first_meaning(list, wanted);
    let i = choose|i: int| is_first(list, wanted, i) && list[i] == model_shown(status, providers)->0;
    assert(wanted(list[i]));
}

/// The branch shown is the checkout's, else the worktree's; a session on no branch
/// shows no checkout, and a draft for a new worktree shows what that is based on.
pub proof fn law_the_checkout_shown(status: SessionStatus)
    ensures
        status.git_branch is Some ==> branch_of(status) == status.git_branch,
        status.git_branch is None && status.worktree is Some ==> branch_of(status) == Some(
            status.worktree->0.branch,
        ),
        checkout_shown(status) is Some <==> status.git_branch is Some || status.worktree is Some,
        checkout_shown(status) is Some ==> {
            let shown = checkout_shown(status)->0;
            &&& Some(shown.branch) == branch_of(status)
            &&& shown.branches == status.branches
            &&& shown.is_draft == status.draft
            &&& shown.turn_running == status.turn_running
            &&& shown.workspace == status.draft_workspace
            &&& shown.worktrees == status.worktrees
            &&& shown.worktree == status.worktree
            &&& match status.draft_workspace {
                WorkspaceMode::NewWorktree { base, .. } => shown.worktree_base == Some(base),
                _ => shown.worktree_base is None,
            }
        },
{
}

/// A session stands in the list or in the archive, never in both: the archive holds
/// exactly the sessions that were archived.
pub proof fn law_a_session_is_listed_or_archived(sessions: Seq<SessionMeta>, meta: SessionMeta)
    ensures
        unarchived(sessions).contains(meta) <==> sessions.contains(meta) && meta.archived_at
            is None,
        archived(sessions).contains(meta) <==> sessions.contains(meta) && meta.archived_at is Some,
        unarchived(sessions).len() + archived(sessions).len() == sessions.len(),
    decreases sessions.len(),
{
    broadcast use vstd::seq_lib::group_filter_ensures;

    let open = |meta: SessionMeta| meta.archived_at is None;
    let away = |meta: SessionMeta| meta.archived_at is Some;
    if unarchived(sessions).contains(meta) {
        sessions.lemma_filter_contains_rev(open, meta);
    }
    if archived(sessions).contains(meta) {
        sessions.lemma_filter_contains_rev(away, meta);
    }
    lemma_split(sessions);
    if sessions.contains(meta) {
        let i = choose|i: int| 0 <= i < sessions.len() && sessions[i] == meta;
        if meta.archived_at is None {
            assert(open(sessions[i]));
        } else {
            assert(away(sessions[i]));
        }
    }
}

proof fn lemma_split(sessions: Seq<SessionMeta>)
    ensures
        unarchived(sessions).len() + archived(sessions).len() == sessions.len(),
    decreases sessions.len(),
{
    reveal(Seq::filter);
    if sessions.len() > 0 {
        lemma_split(sessions.drop_last());
    }
}

/// The archive shows each project that has archived threads, with all of them, the
/// latest first, and no other.
pub proof fn law_the_archive_shows_every_thread(
    groups: Seq<(Project, Seq<SessionMeta>)>,
    project: Project,
    i: int,
)
    requires
        0 <= i < groups.len(),
        groups[i].0 == project,
        groups[i].1.len() > 0,
    ensures
        exists|k: int|
            0 <= k < archive_lists(groups).len() && (#[trigger] archive_lists(groups)[k]).0
                == project && archive_lists(groups)[k].1.to_multiset()
                == groups[i].1.to_multiset() && latest_first(archive_lists(groups)[k].1),
    decreases groups.len(),
{
    let list = archive_lists(groups);
    let before = archive_lists(groups.drop_last());
    if i < groups.len() - 1 {
        law_the_archive_shows_every_thread(groups.drop_last(), project, i);
        let k = choose|k: int|
            0 <= k < before.len() && (#[trigger] before[k]).0 == project
                && before[k].1.to_multiset() == groups[i].1.to_multiset() && latest_first(
                before[k].1,
            );
        assert(list[k] == before[k]);
    } else {
        law_most_recent_first_permutes(groups[i].1, Recency::Archived);
        law_most_recent_first_sorts(groups[i].1, Recency::Archived);
        let sorted = most_recent_first(groups[i].1, Recency::Archived);
        assert forall|a: int, b: int|
            0 <= a < b < sorted.len() && (#[trigger] sorted[a]).archived_at is Some && (
            #[trigger] sorted[b]).archived_at is Some implies sorted[a].archived_at->0
            >= sorted[b].archived_at->0 by {
            assert(recency(sorted[a], Recency::Archived) >= recency(sorted[b], Recency::Archived));
        }
        assert(list[before.len() as int].1 == sorted);
    }
}

/// Whether archived threads stand by when they were archived, the latest first.
pub open spec fn latest_first(threads: Seq<SessionMeta>) -> bool {
    forall|a: int, b: int|
        0 <= a < b < threads.len() && (#[trigger] threads[a]).archived_at is Some && (
        #[trigger] threads[b]).archived_at is Some ==> threads[a].archived_at->0
            >= threads[b].archived_at->0
}

/// Projects without archived threads are not in the archive.
pub proof fn law_the_archive_has_no_empty_projects(
    groups: Seq<(Project, Seq<SessionMeta>)>,
    k: int,
)
    requires
        0 <= k < archive_lists(groups).len(),
    ensures
        archive_lists(groups)[k].1.len() > 0,
        archive_lists(groups).len() <= groups.len(),
    decreases groups.len(),
{
    let before = archive_lists(groups.drop_last());
    law_most_recent_first_permutes(groups.last().1, Recency::Archived);
    if before.len() > 0 {
        law_the_archive_has_no_empty_projects(
            groups.drop_last(),
            if k < before.len() {
                k
            } else {
                0
            },
        );
    }
    if k < before.len() {
        assert(archive_lists(groups)[k] == before[k]);
    }
}

/// What a session is doing is what its status says while it is on screen, and what
/// was last known of it once it is parked.
pub proof fn law_what_a_session_is_doing(store: StoreModel, id: Seq<char>)
    ensures
        store.status is Some && store.status->0.session_id@ == id ==> {
            let status = store.status->0;
            let flags = known_flags(store, id);
            &&& flags is Some
            &&& flags->0.working == status.working
            &&& flags->0.pending_approval == status.pending_approval
            &&& flags->0.pending_user_input == status.pending_user_input
            &&& flags->0.background_only == (status.working && !status.turn_running
                && !status.delivery_in_flight && status.queued_messages@.len() == 0)
        },
        store.status is None || store.status->0.session_id@ != id ==> {
            &&& known_flags(store, id) is Some <==> store.background_flags.contains_key(id)
            &&& known_flags(store, id) is Some ==> known_flags(store, id)->0
                == store.background_flags[id]
        },
{
}

/// Whether another session works on the branch of a session's worktree.
pub open spec fn branch_is_shared(sessions: Seq<SessionMeta>, id: Seq<char>, branch: Seq<char>) -> bool {
    exists|j: int|
        0 <= j < sessions.len() && (#[trigger] sessions[j]).id@ != id && sessions[j].worktree
            is Some && sessions[j].worktree->0.branch@ == branch
}

/// Deleting a session offers to remove its worktree, unless another session works on
/// the worktree's branch.
pub proof fn law_a_worktree_is_removed_with_its_last_session(
    sessions: Seq<SessionMeta>,
    id: Seq<char>,
    i: int,
)
    requires
        0 <= i < sessions.len(),
        sessions[i].id@ == id,
        forall|j: int| 0 <= j < i ==> (#[trigger] sessions[j]).id@ != id,
    ensures
        sessions[i].worktree is None ==> orphaned_worktree(sessions, id) is None,
        sessions[i].worktree is Some ==> orphaned_worktree(sessions, id) == if branch_is_shared(
            sessions,
            id,
            sessions[i].worktree->0.branch@,
        ) {
            None
        } else {
            sessions[i].worktree
        },
{
    let wanted = crate::listing::has_session_id(id);
    assert(is_first(sessions, wanted, i));
    crate::listing::lemma_first(sessions, wanted, i);
    assert(session_by_id(sessions, id) == Some(sessions[i]));
}

/// A session was last looked at when the settings say so, by its first entry there.
pub proof fn law_the_last_visit(visits: Seq<LastVisit>, id: Seq<char>, i: int)
    requires
        0 <= i < visits.len(),
        visits[i].session_id@ == id,
        forall|j: int| 0 <= j < i ==> (#[trigger] visits[j]).session_id@ != id,
    ensures
        last_visit(visits, id) == Some(visits[i].at),
{
    let wanted = visits_session(id);
    assert(is_first(visits, wanted, i));
    crate::listing::lemma_first(visits, wanted, i);
}

/// The turns whose diffs can be shown are exactly those that changed files, each at
/// its own position, the earlier first.
pub proof fn law_the_turns_that_changed_files(turns: Seq<TurnRecord>)
    requires
        turns.len() <= usize::MAX,
    ensures
        forall|k: int|
            0 <= k < changed_turns(turns).len() ==> (#[trigger] changed_turns(turns)[k])
                < turns.len() && changed_files(turns[changed_turns(turns)[k] as int]),
        forall|k: int, l: int|
            0 <= k < l < changed_turns(turns).len() ==> #[trigger] changed_turns(turns)[k]
                < #[trigger] changed_turns(turns)[l],
        forall|n: usize|
            n < turns.len() && changed_files(#[trigger] turns[n as int]) ==> changed_turns(
                turns,
            ).contains(n),
    decreases turns.len(),
{
    if turns.len() > 0 {
        let init = turns.drop_last();
        let before = changed_turns(init);
        let all = changed_turns(turns);
        law_the_turns_that_changed_files(init);
        assert forall|k: int| 0 <= k < all.len() implies (#[trigger] all[k]) < turns.len()
            && changed_files(turns[all[k] as int]) by {
            if k < before.len() {
                assert(all[k] == before[k]);
                assert(init[before[k] as int] == turns[before[k] as int]);
            }
        }
        assert forall|k: int, l: int| 0 <= k < l < all.len() implies #[trigger] all[k]
            < #[trigger] all[l] by {
            assert(all[k] == before[k]);
            assert(before[k] < init.len());
            if l < before.len() {
                assert(all[l] == before[l]);
            }
        }
        assert forall|n: usize|
            n < turns.len() && changed_files(#[trigger] turns[n as int]) implies all.contains(n) by {
            if n < init.len() {
                assert(init[n as int] == turns[n as int]);
                assert(before.contains(n));
                let k = choose|k: int| 0 <= k < before.len() && before[k] == n;
                assert(all[k] == n);
            } else {
                assert(all[before.len() as int] == n);
            }
        }
    }
}

/// Whether a turn changed files.
pub open spec fn changed_files(turn: TurnRecord) -> bool {
    turn.changes is Some && turn.changes->0.changes@.len() > 0
}

/// A message shows without the context that was put before it, and whole where there
/// is none, or where its length falls inside a character.
pub proof fn law_a_message_shows_without_its_context(message: UserMessage)
    ensures
        ({
            let all = encode_utf8(message.text@);
            let shown = visible_bytes(message);
            &&& message.context_len is None ==> shown == all
            &&& message.context_len is Some && !is_char_boundary(
                all,
                message.context_len->0 as int,
            ) ==> shown == all
            &&& message.context_len is Some && is_char_boundary(
                all,
                message.context_len->0 as int,
            ) && message.context_len->0 <= all.len() ==> {
                &&& shown.len() == all.len() - message.context_len->0
                &&& all == all.take(message.context_len->0 as int) + shown
            }
        }),
{
    let all = encode_utf8(message.text@);
    if message.context_len is Some && message.context_len->0 <= all.len() {
        let n = message.context_len->0 as int;
        assert(all =~= all.take(n) + all.subrange(n, all.len() as int));
    }
}

/// Profiles are offered provider by provider, Codex first and then `ClaudeCode`, Pi
/// and OpenCode; each is there, and none of another provider.
pub proof fn law_profiles_are_offered_by_provider(
    profiles: Seq<ResolvedProfile>,
    profile: ResolvedProfile,
)
    ensures
        profiles_by_provider(profiles).contains(profile) <==> profiles.contains(profile)
            && profile.kind != ProviderKind::Acp,
        forall|i: int, j: int|
            0 <= i < j < profiles_by_provider(profiles).len() ==> place_of(
                (#[trigger] profiles_by_provider(profiles)[i]).kind,
            ) <= place_of((#[trigger] profiles_by_provider(profiles)[j]).kind),
{
    broadcast use vstd::seq_lib::group_filter_ensures;

    let codex = |p: ResolvedProfile| p.kind == ProviderKind::Codex;
    let claude = |p: ResolvedProfile| p.kind == ProviderKind::ClaudeCode;
    let pi = |p: ResolvedProfile| p.kind == ProviderKind::Pi;
    let open = |p: ResolvedProfile| p.kind == ProviderKind::OpenCode;
    let a = profiles.filter(codex);
    let b = profiles.filter(claude);
    let c = profiles.filter(pi);
    let d = profiles.filter(open);
    let all = profiles_by_provider(profiles);
    assert(super::providers::profiles_of(profiles, ProviderKind::Codex) =~= a);
    assert(super::providers::profiles_of(profiles, ProviderKind::ClaudeCode) =~= b);
    assert(super::providers::profiles_of(profiles, ProviderKind::Pi) =~= c);
    assert(super::providers::profiles_of(profiles, ProviderKind::OpenCode) =~= d);
    assert(all =~= a + b + c + d);
    assert forall|i: int| 0 <= i < all.len() implies {
        &&& i < a.len() ==> #[trigger] all[i] == a[i]
        &&& a.len() <= i < a.len() + b.len() ==> all[i] == b[i - a.len()]
        &&& a.len() + b.len() <= i < a.len() + b.len() + c.len() ==> all[i] == c[i - a.len()
            - b.len()]
        &&& a.len() + b.len() + c.len() <= i ==> all[i] == d[i - a.len() - b.len() - c.len()]
    } by {}
    if profiles.contains(profile) && profile.kind != ProviderKind::Acp {
        let i = choose|i: int| 0 <= i < profiles.len() && profiles[i] == profile;
        if profile.kind == ProviderKind::Codex {
            assert(codex(profiles[i]));
            assert(a.contains(profile));
            let k = choose|k: int| 0 <= k < a.len() && a[k] == profile;
            assert(all[k] == profile);
        } else if profile.kind == ProviderKind::ClaudeCode {
            assert(claude(profiles[i]));
            assert(b.contains(profile));
            let k = choose|k: int| 0 <= k < b.len() && b[k] == profile;
            assert(all[a.len() + k] == profile);
        } else if profile.kind == ProviderKind::Pi {
            assert(pi(profiles[i]));
            assert(c.contains(profile));
            let k = choose|k: int| 0 <= k < c.len() && c[k] == profile;
            assert(all[a.len() + b.len() + k] == profile);
        } else {
            assert(open(profiles[i]));
            assert(d.contains(profile));
            let k = choose|k: int| 0 <= k < d.len() && d[k] == profile;
            assert(all[a.len() + b.len() + c.len() + k] == profile);
        }
    }
    if all.contains(profile) {
        let i = choose|i: int| 0 <= i < all.len() && all[i] == profile;
        if i < a.len() {
            profiles.lemma_filter_contains_rev(codex, profile);
            assert(codex(a[i]));
        } else if i < a.len() + b.len() {
            profiles.lemma_filter_contains_rev(claude, profile);
            assert(claude(b[i - a.len()]));
        } else if i < a.len() + b.len() + c.len() {
            profiles.lemma_filter_contains_rev(pi, profile);
            assert(pi(c[i - a.len() - b.len()]));
        } else {
            profiles.lemma_filter_contains_rev(open, profile);
            assert(open(d[i - a.len() - b.len() - c.len()]));
        }
    }
    assert forall|i: int| 0 <= i < all.len() implies {
        &&& i < a.len() ==> (#[trigger] all[i]).kind == ProviderKind::Codex
        &&& a.len() <= i < a.len() + b.len() ==> all[i].kind == ProviderKind::ClaudeCode
        &&& a.len() + b.len() <= i < a.len() + b.len() + c.len() ==> all[i].kind
            == ProviderKind::Pi
        &&& a.len() + b.len() + c.len() <= i ==> all[i].kind == ProviderKind::OpenCode
    } by {
        if i < a.len() {
            assert(codex(a[i]));
        } else if i < a.len() + b.len() {
            assert(claude(b[i - a.len()]));
        } else if i < a.len() + b.len() + c.len() {
            assert(pi(c[i - a.len() - b.len()]));
        } else {
            assert(open(d[i - a.len() - b.len() - c.len()]));
        }
    }
}

/// Where a provider stands among the providers.
pub open spec fn place_of(kind: ProviderKind) -> int {
    match kind {
        ProviderKind::Codex => 0,
        ProviderKind::ClaudeCode => 1,
        ProviderKind::Pi => 2,
        ProviderKind::OpenCode => 3,
        ProviderKind::Acp => 4,
    }
}

/// An agent of the marketplace counts as installed exactly if it is among the
/// installed ones, and nothing else of it changes.
pub proof fn law_installed_agents_are_marked(item: AcpMarketplaceItem, agents: Seq<String>)
    ensures
        marked(item, agents).installed <==> exists|i: int|
            0 <= i < agents.len() && (#[trigger] agents[i])@ == item.id@,
        marked(item, agents).id == item.id,
        marked(item, agents) == (AcpMarketplaceItem {
            installed: marked(item, agents).installed,
            ..item
        }),
{
}

/// A wrong answer is named by what was asked and by how it prints.
pub proof fn law_a_wrong_answer_is_named(printed: Seq<char>)
    ensures
        unexpected(AnswerName::ExternalHistory, printed) == "unexpected external-history response: "@
            + printed,
        unexpected(AnswerName::SessionContent, printed) == "unexpected session-content response: "@
            + printed,
        unexpected(AnswerName::GitDiff, printed) == "unexpected git-diff response: "@ + printed,
        unexpected(AnswerName::ThreadExport, printed) == "unexpected thread-export response: "@
            + printed,
        unexpected(AnswerName::StoredOutput, printed) == "unexpected stored-output response: "@
            + printed,
        unexpected(AnswerName::Hosting, printed) == "unexpected hosting response"@,
        unexpected(AnswerName::FileBytes, printed) == "unexpected file-bytes response: "@ + printed,
        unexpected(AnswerName::ActiveWorkspace, printed) == "unexpected active-workspace response: "@
            + printed,
        unexpected(AnswerName::SaveAttachment, printed) == "unexpected save-attachment response: "@
            + printed,
        unexpected(AnswerName::RemoveFile, printed) == "unexpected remove-file response: "@
            + printed,
        unexpected(AnswerName::CommitMessage, printed) == "unexpected commit-message response: "@
            + printed,
{
    reveal_strlit("unexpected ");
    reveal_strlit(" response: ");
    reveal_strlit("external-history");
    reveal_strlit("unexpected external-history response: ");
    assert(unexpected(AnswerName::ExternalHistory, printed)
        =~= "unexpected external-history response: "@ + printed);
    reveal_strlit("session-content");
    reveal_strlit("unexpected session-content response: ");
    assert(unexpected(AnswerName::SessionContent, printed)
        =~= "unexpected session-content response: "@ + printed);
    reveal_strlit("git-diff");
    reveal_strlit("unexpected git-diff response: ");
    assert(unexpected(AnswerName::GitDiff, printed) =~= "unexpected git-diff response: "@ + printed);
    reveal_strlit("thread-export");
    reveal_strlit("unexpected thread-export response: ");
    assert(unexpected(AnswerName::ThreadExport, printed)
        =~= "unexpected thread-export response: "@ + printed);
    reveal_strlit("stored-output");
    reveal_strlit("unexpected stored-output response: ");
    assert(unexpected(AnswerName::StoredOutput, printed)
        =~= "unexpected stored-output response: "@ + printed);
    reveal_strlit("file-bytes");
    reveal_strlit("unexpected file-bytes response: ");
    assert(unexpected(AnswerName::FileBytes, printed) =~= "unexpected file-bytes response: "@
        + printed);
    reveal_strlit("active-workspace");
    reveal_strlit("unexpected active-workspace response: ");
    assert(unexpected(AnswerName::ActiveWorkspace, printed)
        =~= "unexpected active-workspace response: "@ + printed);
    reveal_strlit("save-attachment");
    reveal_strlit("unexpected save-attachment response: ");
    assert(unexpected(AnswerName::SaveAttachment, printed)
        =~= "unexpected save-attachment response: "@ + printed);
    reveal_strlit("remove-file");
    reveal_strlit("unexpected remove-file response: ");
    assert(unexpected(AnswerName::RemoveFile, printed) =~= "unexpected remove-file response: "@
        + printed);
    reveal_strlit("commit-message");
    reveal_strlit("unexpected commit-message response: ");
    assert(unexpected(AnswerName::CommitMessage, printed)
        =~= "unexpected commit-message response: "@ + printed);
}

/// Each image is asked for under its own path, or its project's id at the size that
/// it is drawn at.
pub proof fn law_images_are_asked_for_by_name(request: ImageRequest)
    ensures
        match (request, question(request)) {
            (ImageRequest::File(path), Query::ReadFileBytes { path: asked }) => asked == path,
            (ImageRequest::Thumbnail(path), Query::ReadIconImage { path: asked }) => asked == path,
            (
                ImageRequest::Project { id, pixels, .. },
                Query::ReadProjectIcon { project_id, pixels: asked },
            ) => project_id == id && asked == pixels,
            _ => false,
        },
{
}

/// Icons are asked for at their size on screen, from one pixel to the largest size.
pub proof fn law_icons_fit_their_limits(size: i64)
    ensures
        1 <= icon_raster(size) <= 128,
        1 <= size <= 128 ==> icon_raster(size) == size,
        size > 128 ==> icon_raster(size) == 128,
        size < 1 ==> icon_raster(size) == 1,
{
}

/// The device's appearance is the one that its preference names.
pub proof fn law_the_devices_appearance(name: Option<String>)
    ensures
        name is None ==> appearance_named(name) is None,
        name is Some && name->0@ == "system"@ ==> appearance_named(name) == Some(
            ThemePreference::System,
        ),
        name is Some && name->0@ == "light"@ ==> appearance_named(name) == Some(
            ThemePreference::Light,
        ),
        name is Some && name->0@ == "dark"@ ==> appearance_named(name) == Some(
            ThemePreference::Dark,
        ),
        appearance_named(name) is Some ==> name is Some && (name->0@ == "system"@ || name->0@
            == "light"@ || name->0@ == "dark"@),
{
    reveal_strlit("system");
    reveal_strlit("light");
    reveal_strlit("dark");
    if name is Some {
        let word = name->0@;
        if word == "light"@ {
            assert(word.len() != "system"@.len());
        }
        if word == "dark"@ {
            assert(word.len() != "system"@.len() && word.len() != "light"@.len());
        }
    }
}

/// The language is the device's own where it has one, and the system's where that
/// says so; else it is the host's.
pub proof fn law_the_devices_language(host: Option<String>, client: Option<String>)
    ensures
        client is None && host is None ==> language_in_effect(host, client) is None,
        client is None && host is Some ==> language_in_effect(host, client) == Some(host->0@),
        client is Some && client->0@ == "system"@ ==> language_in_effect(host, client) is None,
        client is Some && client->0@ != "system"@ ==> language_in_effect(host, client) == Some(
            client->0@,
        ),
{
}

/// Views draw again what an event is about, but for what only the runtime is told.
pub proof fn law_views_draw_what_changed(envelope: &EventEnvelope)
    ensures
        envelope.event is Runtime ==> redrawn(LinkChange::Event(envelope)).len() == 0,
        !(envelope.event is Runtime) ==> {
            let drawn = redrawn(LinkChange::Event(envelope));
            &&& drawn.len() == 1
            &&& match envelope.topic {
                Topic::SessionEvents { .. } => drawn[0].topic == TopicKind::SessionEvents,
                Topic::SessionStatus { .. } => drawn[0].topic == TopicKind::SessionStatus,
                Topic::Index => drawn[0].topic == TopicKind::Index,
                Topic::Settings => drawn[0].topic == TopicKind::Settings,
                Topic::Providers => drawn[0].topic == TopicKind::Providers,
                Topic::GitStatus { .. } => drawn[0].topic == TopicKind::GitStatus,
                Topic::RuntimeEvents => drawn[0].topic == TopicKind::RuntimeEvents,
                Topic::Terminal { .. } => drawn[0].topic == TopicKind::Terminal,
                Topic::Preview { .. } => drawn[0].topic == TopicKind::Preview,
                Topic::ExternalImport { .. } => drawn[0].topic == TopicKind::ExternalImport,
            }
        },
        redrawn(LinkChange::Deliveries).contains(StoreChange { topic: TopicKind::SessionEvents }),
        redrawn(LinkChange::Connection).contains(StoreChange { topic: TopicKind::Index }),
        redrawn(LinkChange::Connection).contains(StoreChange { topic: TopicKind::SessionStatus }),
{
    assert(redrawn(LinkChange::Deliveries)[0].topic == TopicKind::SessionEvents);
    assert(redrawn(LinkChange::Connection)[0].topic == TopicKind::Index);
    assert(redrawn(LinkChange::Connection)[1].topic == TopicKind::SessionStatus);
}

/// The seed of a workspace is complete part by part: each snapshot counts for its own
/// part, and no event takes a part away.
pub proof fn law_the_seed_arrives_part_by_part(progress: SeedProgress, envelope: EventEnvelope)
    ensures
        ({
            let after = progress.noted(envelope);
            &&& after.index == (progress.index || (envelope.topic is Index && envelope.event
                is IndexSnapshot))
            &&& after.settings == (progress.settings || (envelope.topic is Settings
                && envelope.event is SettingsSnapshot))
            &&& after.providers == (progress.providers || (envelope.topic is Providers
                && envelope.event is ProvidersReplaced))
        }),
{
}

/// A session loads from its selection until its status and its timeline are there.
pub proof fn law_a_session_loads_until_it_is_there(store: StoreModel)
    ensures
        store.selected is None ==> !store.session_loading(),
        store.timeline is Some && store.status is Some ==> !store.session_loading(),
        store.selected is Some && store.timeline is None ==> store.session_loading(),
        store.selected is Some && store.status is None ==> store.session_loading(),
{
}

/// The project of a conversation is the one that its session names, and where it
/// names none the one at its directory.
pub proof fn law_a_conversations_project(store: StoreModel)
    requires
        store.status is Some,
        store.chat_project() is Some,
    ensures
        store.projects.contains(store.chat_project()->0),
        match store.status->0.project_id {
            Some(id) => store.chat_project()->0.id@ == id@,
            None => store.chat_project()->0.root@ == store.status->0.cwd@,
        },
{
    let status = store.status->0;
    let wanted = super::chat::belongs(status.project_id, status.cwd@);
    lemma_first_meaning(store.projects, wanted);
    let i = choose|i: int|
        is_first(store.projects, wanted, i) && store.projects[i] == store.chat_project()->0;
    assert(wanted(store.projects[i]));
}

/// An accent is six hexadecimal digits, whatever hash marks and blanks stand round
/// them, and its colour is the number that they spell.
pub proof fn law_accents_are_six_digits(raw: Seq<char>)
    ensures
        accent_value(raw) is Some ==> {
            let digits = crate::text::strip_leading(crate::text::trim(raw), '#');
            &&& digits.len() == 6
            &&& forall|i: int|
                0 <= i < 6 ==> crate::text::hex_value(#[trigger] digits[i]) is Some
            &&& accent_value(raw)->0 == digit_at(digits, 0) * 1048576 + digit_at(digits, 1) * 65536
                + digit_at(digits, 2) * 4096 + digit_at(digits, 3) * 256 + digit_at(digits, 4) * 16
                + digit_at(digits, 5)
        },
        ({
            let digits = crate::text::strip_leading(crate::text::trim(raw), '#');
            digits.len() == 6 && (forall|i: int|
                0 <= i < 6 ==> crate::text::hex_value(#[trigger] digits[i]) is Some)
                ==> accent_value(raw) is Some
        }),
{
    let digits = crate::text::strip_leading(crate::text::trim(raw), '#');
    if accent_value(raw) is Some {
        reveal_with_fuel(crate::theme::color::hex_number, 7);
    }
}

/// The value of a digit of a number in hexadecimal notation.
pub open spec fn digit_at(digits: Seq<char>, i: int) -> nat {
    crate::text::hex_value(digits[i])->0
}

/// What is asked of the host about the conversation on screen names the selected
/// session, goes out once and last, and changes nothing else.
pub proof fn law_requests_name_the_selected_session(
    before: StoreModel,
    after: StoreModel,
    command: spec_fn(String) -> Command,
)
    requires
        dispatched(before, after, command),
        before.selected is Some,
    ensures
        after.effects == before.effects.push(Effect::Dispatch(command(before.selected->0))),
        after == (StoreModel { effects: after.effects, ..before }),
{
}

/// Giving up a link gives up each of its topics, and asking again asks for each from
/// where it stood.
pub proof fn law_each_topic_is_given_up_and_asked_again(subscriptions: Seq<Subscription>, i: int)
    requires
        0 <= i < subscriptions.len(),
    ensures
        unsubscribed(subscriptions).len() == subscriptions.len(),
        unsubscribed(subscriptions)[i] == (Effect::Unsubscribe { topic: subscriptions[i].topic }),
        resubscribed(subscriptions).len() == subscriptions.len(),
        resubscribed(subscriptions)[i] == (Effect::Subscribe {
            topic: subscriptions[i].topic,
            after: subscriptions[i].after,
        }),
{
}

/// A built-in profile offers the models of its provider's catalogue, and another profile
/// none but its own; both go by the profile's settings and the favourites.
pub proof fn law_a_profiles_models(
    store: StoreModel,
    question: ModelQuestion,
    id: Seq<char>,
    i: int,
)
    requires
        store.asks_models(question, id),
        first_profile(store.settings, id, i),
    ensures
        ({
            let builtin = store.settings.builtin_profiles;
            let kind = store.settings.profiles@[i].kind;
            let own = id == builtin.codex@ || id == builtin.claude_code@ || id == builtin.pi@ || id
                == builtin.open_code@ || id == builtin.acp@;
            let catalogs = store.providers.model_catalogs@;
            &&& !own ==> question.catalog@.len() == 0
            &&& own && catalogs.contains_key(kind) ==> question.catalog@ == catalogs[kind]@
            &&& own && !catalogs.contains_key(kind) ==> question.catalog@.len() == 0
            &&& question.settings == Some(store.settings.profiles@[i].settings)
            &&& question.favorites == store.settings.favorite_models
        }),
{
    lemma_profile(store.settings, id, i);
}

/// A provider's own profile is the one that the host names for it.
pub proof fn law_each_provider_has_its_own_profile(profiles: BuiltinProfiles)
    ensures
        profiles.spec_id_for(ProviderKind::Codex) == profiles.codex,
        profiles.spec_id_for(ProviderKind::ClaudeCode) == profiles.claude_code,
        profiles.spec_id_for(ProviderKind::Pi) == profiles.pi,
        profiles.spec_id_for(ProviderKind::OpenCode) == profiles.open_code,
        profiles.spec_id_for(ProviderKind::Acp) == profiles.acp,
{
}

/// The client state that a command changes is that of the conversation on screen, and
/// nothing else of the store changes.
pub proof fn law_client_state_changes_in_place(
    store: StoreModel,
    change: spec_fn(ConversationUiState) -> ConversationUiState,
)
    ensures
        store.active_ui() is None ==> store.map_active_ui(change) == store,
        store.active_ui() is Some ==> {
            let after = store.map_active_ui(change);
            &&& after.active_ui() == Some(change(store.active_ui()->0))
            &&& after == (StoreModel { conversation_ui: after.conversation_ui, ..store })
            &&& after.conversation_ui.remove(store.destination->0@)
                == store.conversation_ui.remove(store.destination->0@)
        },
{
    if store.active_ui() is Some {
        let after = store.map_active_ui(change);
        assert(after.conversation_ui.remove(store.destination->0@)
            =~= store.conversation_ui.remove(store.destination->0@));
    }
}

/// A project's sessions are those that name it.
pub proof fn law_a_projects_sessions_name_it(
    sessions: Seq<SessionMeta>,
    id: Seq<char>,
    meta: SessionMeta,
)
    ensures
        sessions.filter(in_project(id)).contains(meta) <==> sessions.contains(meta)
            && meta.project_id is Some && meta.project_id->0@ == id,
{
    broadcast use vstd::seq_lib::group_filter_ensures;

    let own = in_project(id);
    if sessions.filter(own).contains(meta) {
        sessions.lemma_filter_contains_rev(own, meta);
        let k = choose|k: int| 0 <= k < sessions.filter(own).len() && sessions.filter(own)[k]
            == meta;
        assert(own(sessions.filter(own)[k]));
    }
    if sessions.contains(meta) && meta.project_id is Some && meta.project_id->0@ == id {
        let k = choose|k: int| 0 <= k < sessions.len() && sessions[k] == meta;
        assert(own(sessions[k]));
    }
}

/// A diff's focus is for one turn of one session, and a new load of the diff is told by
/// a number that the last one did not have.
pub proof fn law_a_diff_is_focused_and_loaded_again(
    ui: ConversationUiState,
    session: Seq<char>,
    turn: usize,
)
    ensures
        ui.focuses(session, turn) <==> ui.pending_diff_focus is Some
            && ui.pending_diff_focus->0.session@ == session && ui.pending_diff_focus->0.turn
            == turn,
        ui.refreshed().diff_refresh_generation != ui.diff_refresh_generation,
        ui.refreshed() == (ConversationUiState {
            diff_refresh_generation: ui.refreshed().diff_refresh_generation,
            ..ui
        }),
{
}

} // verus!
