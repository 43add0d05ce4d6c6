//! What moving between sessions asks of the host, and what is on screen afterwards.
use crate::command::{Command, Effect, Outbox, SettingsPatch};
use crate::listing::{
    has_project_id, has_session_id, is_first, lemma_first, lemma_first_meaning, lemma_no_first,
};
use crate::protocol::{
    ConnectionFailure, ConnectionState, GitStatusStatus, Project, SessionStatus, Subscription,
    Topic, TopicName,
};
use crate::store::model::StoreModel;
use crate::store::WorkspaceAttachment;
use vstd::prelude::*;

verus! {

/// Leaving a session gives up its topics, its terminals and the pages that are on their
/// way, in this order, and nothing is on screen afterwards.
pub proof fn law_leaving_gives_up_the_sessions_topics(state: StoreModel, id: String)
    requires
        state.selected == Some(id),
    ensures
        ({
            let after = state.leave();
            &&& after.effects == state.effects + seq![
                Effect::CancelHistory,
                Effect::ClearTerminalTopics,
                Effect::Unsubscribe { topic: Topic::SessionEvents { session_id: id } },
                Effect::Unsubscribe { topic: Topic::SessionStatus { session_id: id } },
                Effect::Unsubscribe { topic: Topic::Preview { session_id: id } },
                Effect::Unsubscribe { topic: Topic::GitStatus { session_id: id } },
            ]
            &&& after.selected is None && after.status is None && after.timeline is None
            &&& after.destination is None && after.history_error is None
            &&& after.history_pages_fetched == 0 && after.history_logged_records is None
            &&& after.git_status == (GitStatusStatus { status: None, busy: false })
            &&& !after.catching_up && after.turn_offset == 0
            &&& after.selection_generation != state.selection_generation
        }),
{
    assert(state.leave().effects =~= state.effects + seq![
        Effect::CancelHistory,
        Effect::ClearTerminalTopics,
        Effect::Unsubscribe { topic: Topic::SessionEvents { session_id: id } },
        Effect::Unsubscribe { topic: Topic::SessionStatus { session_id: id } },
        Effect::Unsubscribe { topic: Topic::Preview { session_id: id } },
        Effect::Unsubscribe { topic: Topic::GitStatus { session_id: id } },
    ]);
}

/// A thread that is left keeps badges that say what its status said; a draft that is left
/// gets none.
pub proof fn law_a_thread_that_is_left_keeps_its_badges(state: StoreModel, status: SessionStatus)
    requires
        state.status == Some(status),
    ensures
        ({
            let id = status.session_id@;
            let flags = state.leave().background_flags;
            &&& status.draft ==> flags == state.background_flags
            &&& !status.draft ==> flags.contains_key(id)
            &&& !status.draft ==> flags[id].working == status.working
            &&& !status.draft ==> flags[id].pending_approval == status.pending_approval
            &&& !status.draft ==> flags[id].pending_user_input == status.pending_user_input
            &&& !status.draft ==> flags[id].background_only == (status.working
                && !status.turn_running && !status.delivery_in_flight
                && status.queued_messages@.len() == 0)
            &&& forall|other: Seq<char>| #[trigger]
                state.background_flags.contains_key(other) && other != id ==> flags.contains_key(
                    other,
                ) && flags[other] == state.background_flags[other]
        }),
{
}

/// Entering a session asks for its status, its git status, its previews where they can be
/// answered, and its events behind those that are held, and follows its terminals. What
/// is known of it is shown at once; its timeline is not.
pub proof fn law_entering_asks_for_the_sessions_topics(state: StoreModel, id: String)
    requires
        state.from.contains_key(id@) ==> state.records.contains_key(id@) && state.from[id@]
            + state.records[id@].len() <= u64::MAX,
    ensures
        ({
            let after = state.enter(id);
            let resume = if state.from.contains_key(id@) {
                Some((state.from[id@] + state.records[id@].len()) as u64)
            } else {
                None
            };
            &&& after.effects == state.effects + seq![
                Effect::Subscribe { topic: Topic::SessionStatus { session_id: id }, after: None },
                Effect::Subscribe { topic: Topic::GitStatus { session_id: id }, after: None },
            ] + (if state.preview_backend {
                seq![
                    Effect::Subscribe { topic: Topic::Preview { session_id: id }, after: None },
                ]
            } else {
                Seq::<Effect>::empty()
            }) + seq![
                Effect::Subscribe { topic: Topic::SessionEvents { session_id: id }, after: resume },
                Effect::SyncTerminalTopics,
            ]
            &&& after.selected == Some(id)
            &&& after.timeline is None
            &&& after.status == if state.statuses.contains_key(id@) {
                Some(state.statuses[id@])
            } else {
                None
            }
            &&& after.git_status == if state.git_statuses.contains_key(id@) {
                state.git_statuses[id@]
            } else {
                GitStatusStatus { status: None, busy: false }
            }
            &&& !after.baseline_topics.contains(TopicName::SessionStatus { session_id: id@ })
            &&& !after.baseline_topics.contains(TopicName::SessionEvents { session_id: id@ })
            &&& state.records.contains_key(id@) ==> after.records == state.records
            &&& after.from == state.from
        }),
{
    let resume = state.resume_after(id@);
    let more = if state.preview_backend {
        seq![Effect::Subscribe { topic: Topic::Preview { session_id: id }, after: None }]
    } else {
        Seq::<Effect>::empty()
    };
    assert(state.enter(id).effects =~= state.effects + seq![
        Effect::Subscribe { topic: Topic::SessionStatus { session_id: id }, after: None },
        Effect::Subscribe { topic: Topic::GitStatus { session_id: id }, after: None },
    ] + more + seq![
        Effect::Subscribe { topic: Topic::SessionEvents { session_id: id }, after: resume },
        Effect::SyncTerminalTopics,
    ]);
}

/// Going to a session of another project tells the host which project was last used;
/// going to one of the same project, or of none, does not.
pub proof fn law_moving_remembers_the_project(
    state: StoreModel,
    id: String,
    at: int,
    project: String,
)
    requires
        !state.selects(id@),
        0 <= at < state.sessions.len(),
        state.sessions[at].id@ == id@,
        forall|j: int| 0 <= j < at ==> (#[trigger] state.sessions[j]).id@ != id@,
        state.sessions[at].project_id == Some(project),
    ensures
        ({
            let known = state.settings.last_project_id is Some
                && state.settings.last_project_id->0@ == project@;
            let after = state.select(id);
            &&& after.settings.last_project_id is Some
            &&& after.settings.last_project_id->0@ == project@
            &&& after.effects.len() > state.effects.len()
            &&& after.effects[state.effects.len() as int] == if known {
                Effect::CancelHistory
            } else {
                Effect::Dispatch(
                    Command::PatchSettings { patch: SettingsPatch::LastProject(Some(project)) },
                )
            }
        }),
{
    assert(is_first(state.sessions, has_session_id(id@), at));
    lemma_first(state.sessions, has_session_id(id@), at);
}

// What is on screen after the index changed.

/// A thread on screen that is archived or gone makes room for its parent, if the index
/// lists that and it is not archived.
pub proof fn law_an_archived_thread_makes_room_for_its_parent(
    state: StoreModel,
    outbox: Outbox,
    at: int,
    parent: String,
    k: int,
)
    requires
        state.coherent(),
        state.delivery_messages(outbox).len() == 0,
        state.status is Some && !state.status->0.draft,
        0 <= at < state.sessions.len(),
        state.sessions[at].id@ == state.status->0.session_id@,
        forall|j: int|
            0 <= j < at ==> (#[trigger] state.sessions[j]).id@ != state.status->0.session_id@,
        forall|j: int|
            0 <= j < state.sessions.len() && (#[trigger] state.sessions[j]).id@
                == state.status->0.session_id@ ==> state.sessions[j].archived_at is Some,
        state.sessions[at].parent_session_id == Some(parent),
        0 <= k < state.sessions.len(),
        state.sessions[k].id@ == parent@,
        state.sessions[k].archived_at is None,
    ensures
        state.reconcile(outbox).selected is Some,
        state.reconcile(outbox).selected->0@ == parent@,
{
    let retired = state.retire_adopted(outbox);
    let id = state.status->0.session_id@;
    assert(is_first(state.sessions, has_session_id(id), at));
    lemma_first(state.sessions, has_session_id(id), at);
    assert(retired.visible(parent@)) by {
        assert(retired.sessions[k].id@ == parent@);
    }
    assert(!retired.visible(id));
}

/// A thread on screen that leaves the index, with no parent to go to, is left, and the
/// draft of the project that was last used is asked for; of the first project, where that
/// one is not listed.
pub proof fn law_a_gone_thread_falls_back_to_a_draft(
    state: StoreModel,
    outbox: Outbox,
    project: Project,
)
    requires
        state.coherent(),
        state.delivery_messages(outbox).len() == 0,
        state.status is Some && !state.status->0.draft,
        forall|j: int|
            0 <= j < state.sessions.len() ==> (#[trigger] state.sessions[j]).id@
                != state.status->0.session_id@,
        !state.draft_fallback_pending,
        falls_back_to(state, project),
    ensures
        ({
            let after = state.reconcile(outbox);
            &&& after.selected is None && after.status is None && after.timeline is None
            &&& after.draft_fallback_pending
            &&& after.effects.len() > 0 && after.effects.last() == (Effect::Create {
                command: Command::StartDraft { project_id: project.id, cwd: project.root },
                selected: None,
            })
        }),
{
    let retired = state.retire_adopted(outbox);
    let id = state.status->0.session_id@;
    assert(!retired.visible(id));
    lemma_no_first(state.sessions, has_session_id(id));
    lemma_falls_back(state, project);
}

/// The project whose draft an empty workspace opens: the last used one that is listed, else
/// the first.
pub open spec fn falls_back_to(state: StoreModel, project: Project) -> bool {
    &&& state.projects.len() > 0
    &&& (exists|i: int| {
        &&& 0 <= i < state.projects.len() && state.projects[i] == project
        &&& state.settings.last_project_id is Some
        &&& (#[trigger] state.projects[i]).id@ == state.settings.last_project_id->0@
        &&& forall|j: int|
            0 <= j < i ==> (#[trigger] state.projects[j]).id@
                != state.settings.last_project_id->0@
    }) || (state.projects[0] == project && (state.settings.last_project_id is None || forall|
        j: int,
    |
        0 <= j < state.projects.len() ==> (#[trigger] state.projects[j]).id@
            != state.settings.last_project_id->0@))
}

proof fn lemma_falls_back(state: StoreModel, project: Project)
    requires
        falls_back_to(state, project),
    ensures
        crate::store::model::draft_project(state.projects, state.settings.last_project_id) == Some(
            project,
        ),
{
    if state.settings.last_project_id is Some {
        let wanted = has_project_id(state.settings.last_project_id->0@);
        if exists|i: int| {
            &&& 0 <= i < state.projects.len() && state.projects[i] == project
            &&& (#[trigger] state.projects[i]).id@ == state.settings.last_project_id->0@
            &&& forall|j: int|
                0 <= j < i ==> (#[trigger] state.projects[j]).id@
                    != state.settings.last_project_id->0@
        } {
            let i = choose|i: int| {
                &&& 0 <= i < state.projects.len() && state.projects[i] == project
                &&& (#[trigger] state.projects[i]).id@ == state.settings.last_project_id->0@
                &&& forall|j: int|
                    0 <= j < i ==> (#[trigger] state.projects[j]).id@
                        != state.settings.last_project_id->0@
            };
            assert(is_first(state.projects, wanted, i));
            lemma_first(state.projects, wanted, i);
        } else {
            lemma_no_first(state.projects, wanted);
        }
    }
}

/// A draft on screen stays, whatever happens to threads, as long as its project is listed.
pub proof fn law_a_draft_stays_with_its_project(state: StoreModel, outbox: Outbox)
    requires
        state.status is Some && state.status->0.draft,
        state.status->0.project_id is Some ==> exists|i: int|
            0 <= i < state.projects.len() && (#[trigger] state.projects[i]).id@
                == state.status->0.project_id->0@,
    ensures
        state.reconcile(outbox) == (StoreModel {
            effects: state.reconcile(outbox).effects,
            ..state
        }),
{
    if state.status->0.project_id is Some {
        let wanted = has_project_id(state.status->0.project_id->0@);
        lemma_first_meaning(state.projects, wanted);
        let i = choose|i: int|
            0 <= i < state.projects.len() && (#[trigger] state.projects[i]).id@
                == state.status->0.project_id->0@;
        assert(wanted(state.projects[i]));
    }
}

/// A draft on screen whose project leaves the index is left, and another project's draft
/// is asked for.
pub proof fn law_a_draft_without_its_project_falls_back(
    state: StoreModel,
    outbox: Outbox,
    project: Project,
)
    requires
        state.delivery_messages(outbox).len() == 0,
        state.status is Some && state.status->0.draft,
        state.status->0.project_id is Some,
        forall|i: int|
            0 <= i < state.projects.len() ==> (#[trigger] state.projects[i]).id@
                != state.status->0.project_id->0@,
        !state.draft_fallback_pending,
        falls_back_to(state, project),
    ensures
        ({
            let after = state.reconcile(outbox);
            &&& after.selected is None && after.status is None
            &&& after.draft_fallback_pending
            &&& after.effects.last() == (Effect::Create {
                command: Command::StartDraft { project_id: project.id, cwd: project.root },
                selected: None,
            })
        }),
{
    lemma_no_first(state.projects, has_project_id(state.status->0.project_id->0@));
    lemma_falls_back(state, project);
}

/// A workspace with nothing on screen opens a draft; one whose session has not told its
/// status yet waits; and one without projects stays as it is.
pub proof fn law_an_empty_workspace_opens_a_draft(
    state: StoreModel,
    outbox: Outbox,
    project: Project,
)
    requires
        state.delivery_messages(outbox).len() == 0,
        state.status is None,
        !state.draft_fallback_pending,
        outbox.acknowledged@.len() == 0,
    ensures
        state.selected is None && falls_back_to(state, project) ==> state.reconcile(
            outbox,
        ).draft_fallback_pending && state.reconcile(outbox).effects.last() == (Effect::Create {
            command: Command::StartDraft { project_id: project.id, cwd: project.root },
            selected: None,
        }),
        state.selected is Some ==> state.reconcile(outbox) == state,
        state.projects.len() == 0 ==> state.reconcile(outbox) == state,
{
    assert(state.effects + Seq::<Effect>::empty() =~= state.effects);
    if state.selected is None && falls_back_to(state, project) {
        lemma_falls_back(state, project);
    }
}

// The link.

/// Each subscription is asked for again, with its cursor, once the link comes back; a lost
/// link asks for nothing.
pub proof fn law_a_link_that_returns_asks_again(
    state: StoreModel,
    subscriptions: Seq<Subscription>,
    link: ConnectionState,
    i: int,
)
    requires
        0 <= i < subscriptions.len(),
    ensures
        ({
            let after = state.connection_changed(link, subscriptions);
            &&& after.connection_state == link
            &&& link == ConnectionState::Syncing ==> after.effects.len() == state.effects.len()
                + subscriptions.len() && after.effects[state.effects.len() + i] == (
            Effect::Subscribe { topic: subscriptions[i].topic, after: subscriptions[i].after })
            &&& link != ConnectionState::Syncing ==> after.effects == state.effects
            &&& link == ConnectionState::Connected ==> after.baseline_topics
                == state.baseline_topics
            &&& link != ConnectionState::Connected ==> forall|topic: TopicName|
                !(#[trigger] after.baseline_topics.contains(topic))
        }),
{
}

/// A link that is up shows as connected exactly once the index, the settings and, of a
/// session on screen, the status and the events were replayed, and as syncing before; any
/// other link shows as it is.
pub proof fn law_the_link_shows_as_it_is(state: StoreModel)
    ensures
        ({
            let topics = state.baseline_topics;
            let replayed = topics.contains(TopicName::Index) && topics.contains(TopicName::Settings)
                && (state.selected is Some ==> topics.contains(
                TopicName::SessionStatus { session_id: state.selected->0@ },
            ) && topics.contains(TopicName::SessionEvents { session_id: state.selected->0@ }));
            let up = state.connection_state == ConnectionState::Connected || state.connection_state
                == ConnectionState::Syncing;
            &&& up && replayed ==> state.shown_connection() == ConnectionState::Connected
            &&& up && !replayed ==> state.shown_connection() == ConnectionState::Syncing
            &&& !up ==> state.shown_connection() == state.connection_state
        }),
{
}

/// Threads count as loading until the index and the settings are there, and again, where
/// there is nothing to show, while the link is not connected.
pub proof fn law_threads_load_until_they_are_there(state: StoreModel)
    ensures
        !state.index_hydrated || !state.settings_hydrated ==> state.threads_loading(),
        state.index_hydrated && state.settings_hydrated && (state.sessions.len() > 0
            || state.projects.len() > 0) ==> !state.threads_loading(),
        state.index_hydrated && state.settings_hydrated && state.sessions.len() == 0
            && state.projects.len() == 0 ==> (state.threads_loading() <==> state.shown_connection()
            != ConnectionState::Connected),
        state.session_loading() <==> state.selected is Some && (state.timeline is None
            || state.status is None),
{
}

/// The address of a remote machine is looked up once for each attempt at which it could
/// not be reached or did not answer in time, and for no other reason; once the link is
/// settled, either way, the lookup is called off and counting starts over.
pub proof fn law_an_address_is_looked_up_once_per_attempt(
    state: StoreModel,
    attempt: u32,
    reason: Option<ConnectionFailure>,
    host_id: String,
    host_name: String,
    settled: ConnectionState,
)
    requires
        state.attachment == (WorkspaceAttachment::Remote { host_id, host_name }),
        !(settled is Reconnecting),
    ensures
        ({
            let lost = reason == Some(ConnectionFailure::Unreachable) || reason == Some(
                ConnectionFailure::Timeout,
            );
            let after = state.address_refreshed(
                ConnectionState::Reconnecting { attempt, reason },
            );
            &&& lost && state.last_refresh_attempt != Some(attempt) ==> after == (StoreModel {
                last_refresh_attempt: Some(attempt),
                effects: state.effects.push(Effect::RefreshOrigin { host_id }),
                ..state
            })
            &&& !lost || state.last_refresh_attempt == Some(attempt) ==> after == state
            &&& state.address_refreshed(settled) == (StoreModel {
                last_refresh_attempt: None,
                effects: state.effects.push(Effect::CancelRefresh),
                ..state
            })
        }),
{
}

} // verus!
