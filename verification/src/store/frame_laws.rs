//! What events and moves leave as it is.

use super::model::{with_prefill, StoreModel};
use crate::protocol::{EventEnvelope, ServerEvent, Timeline, Topic};
use vstd::prelude::*;

verus! {

/// The index's events change the index and what hangs on its entries, and nothing else.
pub proof fn law_index_events_change_the_index(
    state: StoreModel,
    envelope: EventEnvelope,
)
    ensures
        ({
            let after = state.apply(envelope).state;
            match envelope.event {
                ServerEvent::IndexUpsertSession(_) => after == (StoreModel {
                    sessions: after.sessions,
                    ..state
                }),
                ServerEvent::IndexUpsertProject(_) => after == (StoreModel {
                    projects: after.projects,
                    effects: after.effects,
                    ..state
                }),
                ServerEvent::IndexRemoveSession { .. } => after == (StoreModel {
                    sessions: after.sessions,
                    prefills: after.prefills,
                    blocks: after.blocks,
                    reviews: after.reviews,
                    conversation_ui: after.conversation_ui,
                    ..state
                }),
                ServerEvent::IndexRemoveProject { .. } => after == (StoreModel {
                    projects: after.projects,
                    import_statuses: after.import_statuses,
                    conversation_ui: after.conversation_ui,
                    ..state
                }),
                _ => true,
            }
        }),
{
}

/// A snapshot of the index changes the index, what hangs on its entries, and the badges,
/// and nothing else.
pub proof fn law_an_index_snapshot_changes_the_index(
    state: StoreModel,
    envelope: EventEnvelope,
)
    ensures
        ({
            let after = state.apply(envelope).state;
            match envelope.event {
                ServerEvent::IndexSnapshot(_) => after == (StoreModel {
                    index_hydrated: after.index_hydrated,
                    baseline_topics: after.baseline_topics,
                    sessions: after.sessions,
                    projects: after.projects,
                    title_generating: after.title_generating,
                    conversation_ui: after.conversation_ui,
                    background_flags: after.background_flags,
                    working_started_at: after.working_started_at,
                    effects: after.effects,
                    ..state
                }),
                _ => true,
            }
        }),
{
}

/// The events of imports, settings, providers and checkouts change what they are about,
/// and nothing else.
pub proof fn law_host_events_change_what_they_are_about(
    state: StoreModel,
    envelope: EventEnvelope,
)
    ensures
        ({
            let after = state.apply(envelope).state;
            match envelope.event {
                ServerEvent::ExternalImportStatusReplaced { .. } => after == (StoreModel {
                    import_statuses: after.import_statuses,
                    ..state
                }),
                ServerEvent::SettingsReplaced(_) => after == (StoreModel {
                    settings: after.settings,
                    settings_hydrated: after.settings_hydrated,
                    ..state
                }),
                ServerEvent::SettingsSnapshot(_) => after == (StoreModel {
                    settings: after.settings,
                    settings_hydrated: after.settings_hydrated,
                    baseline_topics: after.baseline_topics,
                    ..state
                }),
                ServerEvent::ProvidersReplaced(_) => after == (StoreModel {
                    providers: after.providers,
                    ..state
                }),
                ServerEvent::GitStatusReplaced(_) => after == (StoreModel {
                    git_statuses: after.git_statuses,
                    git_status: after.git_status,
                    ..state
                }),
                _ => true,
            }
        }),
{
}

/// A status changes what is known and shown of its session, and nothing else.
pub proof fn law_a_status_changes_what_is_shown_of_its_session(
    state: StoreModel,
    envelope: EventEnvelope,
)
    ensures
        ({
            let after = state.apply(envelope).state;
            match envelope.event {
                ServerEvent::SessionStatusReplaced(_) => after == (StoreModel {
                    baseline_topics: after.baseline_topics,
                    statuses: after.statuses,
                    status: after.status,
                    background_flags: after.background_flags,
                    destination: after.destination,
                    conversation_ui: after.conversation_ui,
                    effects: after.effects,
                    ..state
                }),
                _ => true,
            }
        }),
{
}

/// What waits for a session's user changes what waits, and nothing else.
pub proof fn law_notices_wait_for_their_session(
    state: StoreModel,
    envelope: EventEnvelope,
)
    ensures
        ({
            let after = state.apply(envelope).state;
            match envelope.event {
                ServerEvent::SessionHistoryError(_) => after == (StoreModel {
                    history_error: after.history_error,
                    ..state
                }),
                ServerEvent::NativeRewindPrefill { .. } => after == (StoreModel {
                    prefills: after.prefills,
                    status: after.status,
                    ..state
                }),
                ServerEvent::ModelFallbackBlocked { .. } => after == (StoreModel {
                    blocks: after.blocks,
                    ..state
                }),
                ServerEvent::FallbackReviewReady { .. } => after == (StoreModel {
                    reviews: after.reviews,
                    ..state
                }),
                _ => true,
            }
        }),
{
}

/// A page of history changes what is held and how far the session is, and nothing else.
pub proof fn law_a_page_changes_what_is_held(
    state: StoreModel,
    envelope: EventEnvelope,
)
    ensures
        ({
            let after = state.apply(envelope).state;
            match envelope.event {
                ServerEvent::SessionSnapshot { .. } => after == (StoreModel {
                    records: after.records,
                    from: after.from,
                    timeline: after.timeline,
                    hydrated_sessions: after.hydrated_sessions,
                    baseline_topics: after.baseline_topics,
                    catching_up: after.catching_up,
                    effects: after.effects,
                    ..state
                }),
                _ => true,
            }
        }),
{
}

/// A live event changes what is held of its session, what waits for its user and its
/// panel, and nothing else.
pub proof fn law_a_live_event_changes_what_is_held(
    state: StoreModel,
    envelope: EventEnvelope,
)
    ensures
        ({
            let after = state.apply(envelope).state;
            match envelope.event {
                ServerEvent::SessionEvent(_) => after == (StoreModel {
                    records: after.records,
                    blocks: after.blocks,
                    reviews: after.reviews,
                    conversation_ui: after.conversation_ui,
                    effects: after.effects,
                    ..state
                }),
                _ => true,
            }
        }),
{
}

/// What a program prints and what is asked of a preview changes nothing of the store: it
/// is handed on.
pub proof fn law_output_is_handed_on(state: StoreModel, envelope: EventEnvelope)
    requires
        envelope.topic is Terminal || envelope.topic is Preview || envelope.topic is RuntimeEvents,
    ensures
        ({
            let after = state.apply(envelope).state;
            after == (StoreModel { effects: after.effects, ..state })
        }),
{
}

/// An event on a session's topics leaves what is held of every other session.
pub proof fn law_an_event_leaves_other_sessions(
    state: StoreModel,
    session_id: String,
    event: ServerEvent,
    topic: Topic,
    other: Seq<char>,
)
    requires
        other != session_id@,
        topic == (Topic::SessionEvents { session_id }) || topic == (Topic::SessionStatus {
            session_id,
        }) || topic == (Topic::GitStatus { session_id }),
    ensures
        ({
            let after = state.apply(EventEnvelope { topic, event }).state;
            &&& after.records.contains_key(other) == state.records.contains_key(other)
            &&& after.records[other] == state.records[other]
            &&& after.from.contains_key(other) == state.from.contains_key(other)
            &&& after.from[other] == state.from[other]
            &&& after.statuses.contains_key(other) == state.statuses.contains_key(other)
            &&& after.statuses[other] == state.statuses[other]
            &&& after.git_statuses.contains_key(other) == state.git_statuses.contains_key(other)
            &&& after.git_statuses[other] == state.git_statuses[other]
            &&& after.background_flags.contains_key(other) == state.background_flags.contains_key(
                other,
            )
            &&& after.background_flags[other] == state.background_flags[other]
            &&& after.prefills.contains_key(other) == state.prefills.contains_key(other)
            &&& after.prefills[other] == state.prefills[other]
            &&& after.blocks.contains_key(other) == state.blocks.contains_key(other)
            &&& after.reviews.contains_key(other) == state.reviews.contains_key(other)
            &&& after.hydrated_sessions.contains(other) == state.hydrated_sessions.contains(other)
            &&& after.selected == state.selected
        }),
{
    reveal(with_prefill);
}

/// An event on a topic that is not its own changes nothing.
pub proof fn law_a_misdirected_event_changes_nothing(state: StoreModel, envelope: EventEnvelope)
    requires
        match envelope.event {
            ServerEvent::IndexUpsertSession(_)
            | ServerEvent::IndexUpsertProject(_)
            | ServerEvent::IndexRemoveSession { .. }
            | ServerEvent::IndexRemoveProject { .. }
            | ServerEvent::IndexSnapshot(_) => !(envelope.topic is Index),
            ServerEvent::SettingsReplaced(_) | ServerEvent::SettingsSnapshot(_) => !(envelope.topic
                is Settings),
            ServerEvent::ProvidersReplaced(_) => !(envelope.topic is Providers),
            ServerEvent::GitStatusReplaced(_) => !(envelope.topic is GitStatus),
            ServerEvent::SessionStatusReplaced(_)
            | ServerEvent::NativeRewindPrefill { .. }
            | ServerEvent::ModelFallbackBlocked { .. }
            | ServerEvent::FallbackReviewReady { .. } => !(envelope.topic is SessionStatus),
            ServerEvent::SessionHistoryError(_)
            | ServerEvent::SessionSnapshot { .. }
            | ServerEvent::SessionEvent(_) => !(envelope.topic is SessionEvents),
            ServerEvent::TerminalFrame { .. } | ServerEvent::TerminalDelta { .. } => !(
            envelope.topic is Terminal),
            ServerEvent::PreviewRequest { .. } => !(envelope.topic is Preview),
            ServerEvent::ExternalImportStatusReplaced { .. } => !(envelope.topic is ExternalImport),
            _ => true,
        },
    ensures
        state.apply(envelope).state == state,
        state.apply(envelope).work is None,
{
}

/// Leaving a session keeps all that is held of the sessions, the index, the settings and
/// the conversations; entering one keeps what is held of the others.
pub proof fn law_moving_keeps_what_is_held(state: StoreModel, id: String, other: Seq<char>)
    requires
        other != id@,
    ensures
        ({
            let left = state.leave();
            left == (StoreModel {
                selection_generation: left.selection_generation,
                history_error: left.history_error,
                history_pages_fetched: left.history_pages_fetched,
                history_logged_records: left.history_logged_records,
                turn_offset: left.turn_offset,
                catching_up: left.catching_up,
                background_flags: left.background_flags,
                selected: left.selected,
                status: left.status,
                timeline: left.timeline,
                destination: left.destination,
                git_status: left.git_status,
                effects: left.effects,
                ..state
            })
        }),
        ({
            let entered = state.enter(id);
            &&& entered == (StoreModel {
                selected: entered.selected,
                baseline_topics: entered.baseline_topics,
                status: entered.status,
                git_status: entered.git_status,
                records: entered.records,
                timeline: entered.timeline,
                destination: entered.destination,
                conversation_ui: entered.conversation_ui,
                effects: entered.effects,
                ..state
            })
            &&& entered.records.contains_key(other) == state.records.contains_key(other)
            &&& entered.records[other] == state.records[other]
        }),
{
}

/// A fold that is done changes the timeline and what says that it is there, and then
/// looks for history that is waited for.
pub proof fn law_a_fold_changes_the_timeline(
    state: StoreModel,
    timeline: Timeline,
    total_turns: usize,
)
    ensures
        state.selected is None ==> state.install_timeline(timeline, total_turns) == state,
        state.selected is Some ==> {
            let after = state.install_timeline(timeline, total_turns);
            &&& after.effects == state.effects.push(crate::command::Effect::LoadPendingChatHistory)
            &&& after == (StoreModel {
                baseline_topics: after.baseline_topics,
                hydrated_sessions: after.hydrated_sessions,
                turn_offset: after.turn_offset,
                timeline: after.timeline,
                effects: after.effects,
                ..state
            })
        },
{
}

} // verus!
