//! What each event that the host publishes comes to, field by field.
use crate::command::{Effect, Outbox};
use crate::conversation_ui::ConversationUiState;
use crate::listing::{
    has_project_id, has_session_id, is_first, law_most_recent_first_permutes,
    law_most_recent_first_sorts, lemma_first_meaning, lists_project, lists_session,
    most_recent_first, recency, upserted, Recency,
};
use crate::protocol::{
    ConversationDestination, DestinationName, EventEnvelope, EventKind, GitStatusStatus, HostValue,
    IndexSnapshot, Project, ProvidersStatus, RightTab, ServerEvent, SessionMeta, SessionStatus,
    Settings, StoredEvent, Timeline, Topic, TopicName,
};
use crate::store::model::{with_prefill, StoreModel};
use crate::store::TimelineWork;
use vstd::prelude::*;

verus! {

/// What a terminal's program prints reaches that terminal: a delta published on the
/// terminal's own topic is handed to it, unchanged, and nothing else happens but a look
/// for history that is waited for.
pub proof fn law_terminal_output_reaches_its_terminal(
    state: StoreModel,
    terminal_id: u64,
    delta: HostValue,
    outbox: Outbox,
)
    ensures
        ({
            let step = state.domain_event(
                EventEnvelope {
                    topic: Topic::Terminal { terminal_id },
                    event: ServerEvent::TerminalDelta { terminal_id, delta },
                },
                true,
                outbox,
            );
            &&& step.state.effects == state.effects + seq![
                Effect::TerminalDelta { terminal_id, delta },
                Effect::LoadPendingChatHistory,
            ]
            &&& step.state == (StoreModel { effects: step.state.effects, ..state })
            &&& step.work is None
        }),
{
    assert(state.effects.push(Effect::TerminalDelta { terminal_id, delta }).push(
        Effect::LoadPendingChatHistory,
    ) =~= state.effects + seq![
        Effect::TerminalDelta { terminal_id, delta },
        Effect::LoadPendingChatHistory,
    ]);
}

/// The whole grid of a terminal, published on the terminal's own topic, is handed to it.
pub proof fn law_a_terminal_frame_reaches_its_terminal(
    state: StoreModel,
    terminal_id: u64,
    frame: HostValue,
    outbox: Outbox,
)
    ensures
        ({
            let step = state.domain_event(
                EventEnvelope {
                    topic: Topic::Terminal { terminal_id },
                    event: ServerEvent::TerminalFrame { terminal_id, frame },
                },
                true,
                outbox,
            );
            &&& step.state.effects == state.effects + seq![
                Effect::TerminalFrame { terminal_id, frame },
                Effect::LoadPendingChatHistory,
            ]
            &&& step.state == (StoreModel { effects: step.state.effects, ..state })
            &&& step.work is None
        }),
{
    assert(state.effects.push(Effect::TerminalFrame { terminal_id, frame }).push(
        Effect::LoadPendingChatHistory,
    ) =~= state.effects + seq![
        Effect::TerminalFrame { terminal_id, frame },
        Effect::LoadPendingChatHistory,
    ]);
}

/// Output that is published under another terminal's topic reaches none.
pub proof fn law_misdirected_terminal_output_is_dropped(
    state: StoreModel,
    topic: u64,
    terminal_id: u64,
    value: HostValue,
    outbox: Outbox,
)
    requires
        topic != terminal_id,
    ensures
        state.domain_event(
            EventEnvelope {
                topic: Topic::Terminal { terminal_id: topic },
                event: ServerEvent::TerminalDelta { terminal_id, delta: value },
            },
            true,
            outbox,
        ).state.effects == state.effects.push(Effect::LoadPendingChatHistory),
        state.domain_event(
            EventEnvelope {
                topic: Topic::Terminal { terminal_id: topic },
                event: ServerEvent::TerminalFrame { terminal_id, frame: value },
            },
            true,
            outbox,
        ).state.effects == state.effects.push(Effect::LoadPendingChatHistory),
{
}

/// An answer to a subscription that has been replaced changes nothing.
pub proof fn law_a_stale_event_changes_nothing(
    state: StoreModel,
    envelope: EventEnvelope,
    outbox: Outbox,
)
    ensures
        state.domain_event(envelope, false, outbox).state == state,
        state.domain_event(envelope, false, outbox).work is None,
{
}

/// A preview request for the session on screen is handed on; one for any other session
/// is not.
pub proof fn law_previews_are_answered_for_the_session_on_screen(
    state: StoreModel,
    session_id: String,
    request: HostValue,
    outbox: Outbox,
)
    ensures
        ({
            let after = state.domain_event(
                EventEnvelope {
                    topic: Topic::Preview { session_id },
                    event: ServerEvent::PreviewRequest { session_id, request },
                },
                true,
                outbox,
            ).state;
            &&& after == (StoreModel { effects: after.effects, ..state })
            &&& after.effects == if state.selected is Some && state.selected->0@ == session_id@ {
                state.effects.push(Effect::ForwardPreview { session_id, request }).push(
                    Effect::LoadPendingChatHistory,
                )
            } else {
                state.effects.push(Effect::LoadPendingChatHistory)
            }
        }),
{
}

// The index.

/// A session that the host lists is in the index as it was published; every other one
/// stays as it was; and the index has the most recently updated one first.
pub proof fn law_a_listed_session_is_in_the_index(state: StoreModel, meta: SessionMeta)
    ensures
        ({
            let after = state.apply(
                EventEnvelope {
                    topic: Topic::Index,
                    event: ServerEvent::IndexUpsertSession(meta),
                },
            ).state;
            &&& after.sessions.contains(meta)
            &&& forall|other: SessionMeta|
                other.id@ != meta.id@ ==> (#[trigger] after.sessions.contains(other)
                    == state.sessions.contains(other))
            &&& forall|i: int, j: int|
                0 <= i <= j < after.sessions.len() ==> (#[trigger] after.sessions[i]).updated_at
                    >= (#[trigger] after.sessions[j]).updated_at
            &&& after == (StoreModel { sessions: after.sessions, ..state })
        }),
{
    broadcast use vstd::seq_lib::group_to_multiset_ensures;

    let same = has_session_id(meta.id@);
    let listed = upserted(state.sessions, same, meta);
    let after = most_recent_first(listed, Recency::Updated);
    law_most_recent_first_permutes(listed, Recency::Updated);
    law_most_recent_first_sorts(listed, Recency::Updated);
    assert forall|i: int, j: int| 0 <= i <= j < after.len() implies (#[trigger] after[i]).updated_at
        >= (#[trigger] after[j]).updated_at by {
        assert(recency(after[i], Recency::Updated) >= recency(after[j], Recency::Updated));
    }
    assert(listed.contains(meta)) by {
        if exists|i: int| is_first(state.sessions, same, i) {
            let at = choose|i: int| is_first(state.sessions, same, i);
            assert(listed[at] == meta);
        } else {
            assert(listed[state.sessions.len() as int] == meta);
        }
    }
    assert(listed.to_multiset().contains(meta));
    assert(after.contains(meta));
    assert forall|other: SessionMeta| other.id@ != meta.id@ implies (#[trigger] after.contains(other)
        == state.sessions.contains(other)) by {
        assert(listed.contains(other) == state.sessions.contains(other)) by {
            if state.sessions.contains(other) {
                let i = choose|i: int| 0 <= i < state.sessions.len() && state.sessions[i] == other;
                assert(listed[i] == other);
            }
            if listed.contains(other) {
                let i = choose|i: int| 0 <= i < listed.len() && listed[i] == other;
                assert(other != meta);
                assert(state.sessions[i] == other);
            }
        }
        assert(listed.to_multiset().contains(other) == after.to_multiset().contains(other));
    }
}

/// A project that the host lists is in the index as it was published, in the place of
/// the one that it replaces or else last; every other one stays; and what is cached of
/// its icon is forgotten.
pub proof fn law_a_listed_project_is_in_the_index(state: StoreModel, project: Project)
    ensures
        ({
            let after = state.apply(
                EventEnvelope {
                    topic: Topic::Index,
                    event: ServerEvent::IndexUpsertProject(project),
                },
            ).state;
            &&& after.projects.contains(project)
            &&& forall|i: int|
                0 <= i < state.projects.len() ==> (#[trigger] state.projects[i] == after.projects[i]
                    || (state.projects[i].id@ == project.id@ && after.projects[i] == project))
            &&& after.projects.len() == if exists|i: int|
                0 <= i < state.projects.len() && (#[trigger] state.projects[i]).id@ == project.id@ {
                state.projects.len()
            } else {
                state.projects.len() + 1
            }
            &&& after.effects == state.effects.push(
                Effect::InvalidateProjectIcon {
                    project_id: project.id,
                    icon_path: project.icon_path,
                },
            )
            &&& after == (StoreModel {
                projects: after.projects,
                effects: after.effects,
                ..state
            })
        }),
{
    let same = has_project_id(project.id@);
    let after = upserted(state.projects, same, project);
    lemma_first_meaning(state.projects, same);
    if exists|i: int| is_first(state.projects, same, i) {
        let at = choose|i: int| is_first(state.projects, same, i);
        assert(after[at] == project);
        assert(state.projects[at].id@ == project.id@);
    } else {
        assert(after[state.projects.len() as int] == project);
        assert forall|i: int| 0 <= i < state.projects.len() implies (#[trigger] state.projects[i]).id@
            != project.id@ by {
            assert(!same(state.projects[i]));
        }
    }
}

/// A session that is removed is no longer listed, and nothing is kept for it; all other
/// sessions, and what is kept for them, stay.
pub proof fn law_a_removed_session_is_gone(state: StoreModel, session_id: String)
    ensures
        ({
            let id = session_id@;
            let after = state.apply(
                EventEnvelope {
                    topic: Topic::Index,
                    event: ServerEvent::IndexRemoveSession { session_id },
                },
            ).state;
            &&& forall|i: int|
                0 <= i < after.sessions.len() ==> (#[trigger] after.sessions[i]).id@ != id
            &&& forall|other: SessionMeta|
                other.id@ != id ==> (#[trigger] after.sessions.contains(other)
                    == state.sessions.contains(other))
            &&& after.prefills == state.prefills.remove(id)
            &&& after.blocks == state.blocks.remove(id)
            &&& after.reviews == state.reviews.remove(id)
            &&& after.conversation_ui == state.conversation_ui.remove(DestinationName::Thread(id))
            &&& after == (StoreModel {
                sessions: after.sessions,
                prefills: after.prefills,
                blocks: after.blocks,
                reviews: after.reviews,
                conversation_ui: after.conversation_ui,
                ..state
            })
        }),
{
    lemma_filtered(state.sessions, |meta: SessionMeta| meta.id@ != session_id@);
}

/// Filtering keeps what passes, and nothing else.
proof fn lemma_filtered<T>(list: Seq<T>, pred: spec_fn(T) -> bool)
    ensures
        forall|x: T| #[trigger] list.filter(pred).contains(x) == (list.contains(x) && pred(x)),
        forall|i: int| 0 <= i < list.filter(pred).len() ==> pred(#[trigger] list.filter(pred)[i]),
{
    assert forall|i: int| 0 <= i < list.filter(pred).len() implies pred(
        #[trigger] list.filter(pred)[i],
    ) by {
        list.lemma_filter_pred(pred, i);
    }
    assert forall|x: T| #[trigger] list.filter(pred).contains(x) == (list.contains(x) && pred(
        x,
    )) by {
        if list.contains(x) && pred(x) {
            let i = choose|i: int| 0 <= i < list.len() && list[i] == x;
            list.lemma_filter_contains(pred, i);
        }
        if list.filter(pred).contains(x) {
            list.lemma_filter_contains_rev(pred, x);
        }
    }
}

/// A project that is removed is no longer listed, and nothing is kept for it or its
/// draft; all other projects, and what is kept for them, stay.
pub proof fn law_a_removed_project_is_gone(state: StoreModel, project_id: String)
    ensures
        ({
            let id = project_id@;
            let after = state.apply(
                EventEnvelope {
                    topic: Topic::Index,
                    event: ServerEvent::IndexRemoveProject { project_id },
                },
            ).state;
            &&& forall|i: int|
                0 <= i < after.projects.len() ==> (#[trigger] after.projects[i]).id@ != id
            &&& forall|other: Project|
                other.id@ != id ==> (#[trigger] after.projects.contains(other)
                    == state.projects.contains(other))
            &&& after.import_statuses == state.import_statuses.remove(id)
            &&& after.conversation_ui == state.conversation_ui.remove(
                DestinationName::ProjectDraft(id),
            )
            &&& after == (StoreModel {
                projects: after.projects,
                import_statuses: after.import_statuses,
                conversation_ui: after.conversation_ui,
                ..state
            })
        }),
{
    lemma_filtered(state.projects, |project: Project| project.id@ != project_id@);
}

/// The progress of an import is kept for its project.
pub proof fn law_import_progress_is_kept_for_its_project(
    state: StoreModel,
    project_id: String,
    status: Option<HostValue>,
)
    ensures
        ({
            let after = state.apply(
                EventEnvelope {
                    topic: Topic::ExternalImport { project_id },
                    event: ServerEvent::ExternalImportStatusReplaced { project_id, status },
                },
            ).state;
            after == (StoreModel {
                import_statuses: state.import_statuses.insert(project_id@, status),
                ..state
            })
        }),
{
}

/// The whole index replaces what was listed, in the order in which it was published.
/// The client state of conversations stays exactly where the index still lists the
/// draft's project or the thread, and the badges of the thread on screen are not kept.
pub proof fn law_the_index_is_as_published(state: StoreModel, snapshot: IndexSnapshot)
    ensures
        ({
            let after = state.apply(
                EventEnvelope { topic: Topic::Index, event: ServerEvent::IndexSnapshot(snapshot) },
            ).state;
            &&& after.index_hydrated
            &&& after.baseline_topics == state.baseline_topics.insert(TopicName::Index)
            &&& after.sessions == snapshot.sessions@
            &&& after.projects == snapshot.projects@
            &&& after.title_generating == snapshot.title_generating@
            &&& after.working_started_at == snapshot.working_started_at@
            &&& forall|id: Seq<char>| #[trigger]
                after.background_flags.contains_key(id) <==> snapshot.activity@.contains_key(id)
                    && !(state.selected is Some && state.selected->0@ == id)
            &&& forall|id: Seq<char>| #[trigger]
                after.background_flags.contains_key(id) ==> after.background_flags[id]
                    == snapshot.activity@[id]
            &&& forall|id: Seq<char>| #[trigger]
                after.conversation_ui.contains_key(DestinationName::Thread(id))
                    <==> state.conversation_ui.contains_key(DestinationName::Thread(id)) && exists|
                    i: int,
                |
                    0 <= i < snapshot.sessions@.len() && (#[trigger] snapshot.sessions@[i]).id@
                        == id
            &&& forall|id: Seq<char>| #[trigger]
                after.conversation_ui.contains_key(DestinationName::ProjectDraft(id))
                    <==> state.conversation_ui.contains_key(DestinationName::ProjectDraft(id))
                    && exists|i: int|
                    0 <= i < snapshot.projects@.len() && (#[trigger] snapshot.projects@[i]).id@
                        == id
            &&& forall|name: DestinationName| #[trigger]
                after.conversation_ui.contains_key(name) ==> after.conversation_ui[name]
                    == state.conversation_ui[name]
            &&& after.effects.len() == state.effects.len() + snapshot.projects@.len()
            &&& after.effects.take(state.effects.len() as int) == state.effects
            &&& forall|i: int|
                0 <= i < snapshot.projects@.len() ==> #[trigger] after.effects[state.effects.len()
                    + i] == (Effect::InvalidateProjectIcon {
                    project_id: snapshot.projects@[i].id,
                    icon_path: snapshot.projects@[i].icon_path,
                })
            &&& after.selected == state.selected && after.status == state.status
            &&& after.timeline == state.timeline && after.records == state.records
            &&& after.settings == state.settings && after.statuses == state.statuses
        }),
{
    let after = state.replace_index(snapshot);
    assert(after.effects.take(state.effects.len() as int) =~= state.effects);
    assert forall|id: Seq<char>| lists_session(snapshot.sessions@, id) <==> exists|i: int|
        0 <= i < snapshot.sessions@.len() && (#[trigger] snapshot.sessions@[i]).id@ == id by {
        lemma_first_meaning(snapshot.sessions@, has_session_id(id));
        if exists|i: int|
            0 <= i < snapshot.sessions@.len() && (#[trigger] snapshot.sessions@[i]).id@ == id {
            let i = choose|i: int|
                0 <= i < snapshot.sessions@.len() && (#[trigger] snapshot.sessions@[i]).id@ == id;
            assert(has_session_id(id)(snapshot.sessions@[i]));
        }
    }
    assert forall|id: Seq<char>| lists_project(snapshot.projects@, id) <==> exists|i: int|
        0 <= i < snapshot.projects@.len() && (#[trigger] snapshot.projects@[i]).id@ == id by {
        lemma_first_meaning(snapshot.projects@, has_project_id(id));
        if exists|i: int|
            0 <= i < snapshot.projects@.len() && (#[trigger] snapshot.projects@[i]).id@ == id {
            let i = choose|i: int|
                0 <= i < snapshot.projects@.len() && (#[trigger] snapshot.projects@[i]).id@ == id;
            assert(has_project_id(id)(snapshot.projects@[i]));
        }
    }
}

/// Every change of the index is followed by the decision on what is on screen, with the
/// messages that are still being delivered.
pub proof fn law_index_changes_decide_what_is_on_screen(
    state: StoreModel,
    event: ServerEvent,
    outbox: Outbox,
)
    ensures
        ({
            let envelope = EventEnvelope { topic: Topic::Index, event };
            let changed = state.apply(envelope).state;
            state.domain_event(envelope, true, outbox).state == (StoreModel {
                effects: changed.effects.push(Effect::LoadPendingChatHistory),
                ..changed
            }).reconcile(outbox)
        }),
{
}

// Settings, providers and git.

/// The settings are the published ones; only a snapshot of them counts as replayed.
pub proof fn law_settings_are_as_published(state: StoreModel, settings: Settings)
    ensures
        ({
            let snapshot = state.apply(
                EventEnvelope {
                    topic: Topic::Settings,
                    event: ServerEvent::SettingsSnapshot(settings),
                },
            ).state;
            let replaced = state.apply(
                EventEnvelope {
                    topic: Topic::Settings,
                    event: ServerEvent::SettingsReplaced(settings),
                },
            ).state;
            &&& replaced == (StoreModel { settings, settings_hydrated: true, ..state })
            &&& snapshot == (StoreModel {
                baseline_topics: state.baseline_topics.insert(TopicName::Settings),
                ..replaced
            })
        }),
{
}

/// What is known of the providers is what was published.
pub proof fn law_providers_are_as_published(state: StoreModel, status: ProvidersStatus)
    ensures
        state.apply(
            EventEnvelope {
                topic: Topic::Providers,
                event: ServerEvent::ProvidersReplaced(status),
            },
        ).state == (StoreModel { providers: status, ..state }),
{
}

/// A session's git status is kept for it, and shown where the session is on screen.
pub proof fn law_git_status_is_kept_for_its_session(
    state: StoreModel,
    session_id: String,
    status: GitStatusStatus,
)
    ensures
        ({
            let after = state.apply(
                EventEnvelope {
                    topic: Topic::GitStatus { session_id },
                    event: ServerEvent::GitStatusReplaced(status),
                },
            ).state;
            &&& after.git_statuses == state.git_statuses.insert(session_id@, status)
            &&& after.git_status == if state.selected is Some && state.selected->0@ == session_id@ {
                status
            } else {
                state.git_status
            }
            &&& after == (StoreModel {
                git_statuses: after.git_statuses,
                git_status: after.git_status,
                ..state
            })
        }),
{
}

// The status of sessions.

/// The status of a session that is not on screen is kept for it, and its badges say
/// what the status says: working, waiting for an approval or for an answer, or working
/// in the background alone.
pub proof fn law_a_parked_sessions_badges_follow_its_status(
    state: StoreModel,
    session_id: String,
    status: SessionStatus,
)
    requires
        status.session_id@ == session_id@,
        !(state.selected is Some && state.selected->0@ == session_id@),
    ensures
        ({
            let id = session_id@;
            let after = state.apply(
                EventEnvelope {
                    topic: Topic::SessionStatus { session_id },
                    event: ServerEvent::SessionStatusReplaced(status),
                },
            ).state;
            &&& after.statuses == state.statuses.insert(id, status)
            &&& after.baseline_topics == state.baseline_topics.insert(
                TopicName::SessionStatus { session_id: id },
            )
            &&& after.background_flags.dom() == state.background_flags.dom().insert(id)
            &&& after.background_flags[id].working == status.working
            &&& after.background_flags[id].pending_approval == status.pending_approval
            &&& after.background_flags[id].pending_user_input == status.pending_user_input
            &&& after.background_flags[id].background_only == (status.working
                && !status.turn_running && !status.delivery_in_flight
                && status.queued_messages@.len() == 0)
            &&& forall|other: Seq<char>| #[trigger]
                state.background_flags.contains_key(other) && other != id
                    ==> after.background_flags[other] == state.background_flags[other]
            &&& after == (StoreModel {
                statuses: after.statuses,
                baseline_topics: after.baseline_topics,
                background_flags: after.background_flags,
                ..state
            })
        }),
{
    let after = state.replace_status(session_id@, status);
    assert(after.background_flags.dom() =~= state.background_flags.dom().insert(session_id@));
}

/// The status of the session on screen is shown as published, but that it says whether a
/// prefill waits here; the session has no badges, its terminals are followed, and its
/// client state is that of its thread, or of its project while it is a draft.
pub proof fn law_the_status_on_screen_is_as_published(
    state: StoreModel,
    session_id: String,
    status: SessionStatus,
)
    requires
        status.session_id@ == session_id@,
        state.selected is Some && state.selected->0@ == session_id@,
    ensures
        ({
            let id = session_id@;
            let after = state.apply(
                EventEnvelope {
                    topic: Topic::SessionStatus { session_id },
                    event: ServerEvent::SessionStatusReplaced(status),
                },
            ).state;
            &&& after.status == Some(
                SessionStatus {
                    native_rewind_prefill_available: state.prefills.contains_key(id),
                    ..status
                },
            )
            &&& after.statuses == state.statuses.insert(id, status)
            &&& after.baseline_topics == state.baseline_topics.insert(
                TopicName::SessionStatus { session_id: id },
            )
            &&& after.background_flags == state.background_flags.remove(id)
            &&& after.effects == state.effects.push(Effect::SyncTerminalTopics)
            &&& after.selected == state.selected && after.timeline == state.timeline
            &&& after.records == state.records
            &&& after.destination is Some
            &&& !status.draft || status.project_id is None ==> after.destination->0@
                == DestinationName::Thread(id)
            &&& status.draft && status.project_id is Some ==> after.destination->0@
                == DestinationName::ProjectDraft(status.project_id->0@)
            &&& after.conversation_ui.contains_key(after.destination->0@)
        }),
{
    reveal(with_prefill);
}

/// A status that is published for another session is not taken.
pub proof fn law_a_misdirected_status_is_dropped(
    state: StoreModel,
    session_id: String,
    status: SessionStatus,
)
    requires
        status.session_id@ != session_id@,
    ensures
        state.apply(
            EventEnvelope {
                topic: Topic::SessionStatus { session_id },
                event: ServerEvent::SessionStatusReplaced(status),
            },
        ).state == state,
{
}

/// The words that a rewind leaves for the composer, the stop of a classifier and the
/// advice on it are kept for their session, as published.
pub proof fn law_what_waits_for_a_session_is_kept_for_it(
    state: StoreModel,
    session_id: String,
    text: String,
    category: Option<HostValue>,
    model: Option<String>,
    fallback_model: Option<String>,
    detail: String,
    assessment: String,
    draft: String,
)
    ensures
        ({
            let id = session_id@;
            let topic = Topic::SessionStatus { session_id };
            let rewound = state.apply(
                EventEnvelope {
                    topic,
                    event: ServerEvent::NativeRewindPrefill { session_id, text },
                },
            ).state;
            let stopped = state.apply(
                EventEnvelope {
                    topic,
                    event: ServerEvent::ModelFallbackBlocked {
                        session_id,
                        category,
                        model,
                        fallback_model,
                        detail,
                    },
                },
            ).state;
            let advised = state.apply(
                EventEnvelope {
                    topic,
                    event: ServerEvent::FallbackReviewReady { session_id, assessment, draft },
                },
            ).state;
            &&& rewound.prefills == state.prefills.insert(id, text)
            &&& state.status is Some && state.status->0.session_id@ == id ==> rewound.status
                == Some(
                SessionStatus { native_rewind_prefill_available: true, ..state.status->0 },
            )
            &&& stopped.blocks.dom() == state.blocks.dom().insert(id)
            &&& stopped.blocks[id].category == category
            &&& stopped.blocks[id].model == model
            &&& stopped.blocks[id].fallback_model == fallback_model
            &&& stopped.blocks[id].detail == detail
            &&& stopped == (StoreModel { blocks: stopped.blocks, ..state })
            &&& advised.reviews.dom() == state.reviews.dom().insert(id)
            &&& advised.reviews[id].assessment == assessment
            &&& advised.reviews[id].draft == draft
            &&& advised == (StoreModel { reviews: advised.reviews, ..state })
        }),
{
    reveal(with_prefill);
    assert(state.blocks.insert(
        session_id@,
        crate::store::FallbackBlock { category, model, fallback_model, detail },
    ).dom() =~= state.blocks.dom().insert(session_id@));
    assert(state.reviews.insert(
        session_id@,
        crate::store::FallbackReview { assessment, draft },
    ).dom() =~= state.reviews.dom().insert(session_id@));
}

// History.

/// Why a page of the history failed is shown for the session on screen alone.
pub proof fn law_a_history_error_is_shown_on_screen(
    state: StoreModel,
    session_id: String,
    message: String,
)
    ensures
        state.apply(
            EventEnvelope {
                topic: Topic::SessionEvents { session_id },
                event: ServerEvent::SessionHistoryError(message),
            },
        ).state == if state.selected is Some && state.selected->0@ == session_id@ {
            StoreModel { history_error: Some(message), ..state }
        } else {
            state
        },
{
}

/// The first page of a session's history is held from where it starts. The session is
/// caught up exactly if the page reaches the last event; then, and only then, a timeline
/// is folded, idle unless a turn is running.
pub proof fn law_the_first_page_is_held(
    state: StoreModel,
    session_id: String,
    from: u64,
    records: Vec<StoredEvent>,
    total: u64,
    total_turns: usize,
)
    requires
        state.selected == Some(session_id),
        !state.from.contains_key(session_id@),
        state.records.contains_key(session_id@) ==> state.records[session_id@].len() == 0,
        state.timeline is None,
        from + records@.len() <= u64::MAX,
    ensures
        ({
            let id = session_id@;
            let topic = Topic::SessionEvents { session_id };
            let after = (from + records@.len()) as u64;
            let step = state.apply(
                EventEnvelope {
                    topic,
                    event: ServerEvent::SessionSnapshot { from, records, total, total_turns },
                },
            );
            &&& step.state.records[id] == records@
            &&& step.state.from[id] == from
            &&& step.state.catching_up == (after < total)
            &&& step.state.effects == state.effects.push(Effect::UpdateAfter { topic, after })
            &&& step.work == if after < total {
                None
            } else {
                Some(
                    TimelineWork::Fold {
                        session_id,
                        total_turns,
                        idle: !(state.status is Some && state.status->0.turn_running),
                    },
                )
            }
        }),
{
    assert(Seq::<StoredEvent>::empty() + records@ =~= records@);
    if state.records.contains_key(session_id@) {
        assert(state.records[session_id@] =~= Seq::<StoredEvent>::empty());
    }
}

/// A page that starts where the held events end is held behind them.
pub proof fn law_the_next_page_is_held_behind(
    state: StoreModel,
    session_id: String,
    from: u64,
    records: Vec<StoredEvent>,
    total: u64,
    total_turns: usize,
)
    requires
        state.selected == Some(session_id),
        state.from.contains_key(session_id@),
        state.records.contains_key(session_id@),
        from != 0,
        from == state.from[session_id@] + state.records[session_id@].len(),
        records@.len() > 0,
        from + records@.len() <= u64::MAX,
    ensures
        ({
            let id = session_id@;
            let topic = Topic::SessionEvents { session_id };
            let after = (from + records@.len()) as u64;
            let step = state.apply(
                EventEnvelope {
                    topic,
                    event: ServerEvent::SessionSnapshot { from, records, total, total_turns },
                },
            );
            &&& step.state.records[id] == state.records[id] + records@
            &&& step.state.from[id] == state.from[id]
            &&& step.state.catching_up == (after < total)
            &&& step.state.effects == state.effects.push(Effect::UpdateAfter { topic, after })
            &&& step.work == if after < total {
                None
            } else {
                Some(
                    TimelineWork::Fold {
                        session_id,
                        total_turns,
                        idle: !(state.status is Some && state.status->0.turn_running),
                    },
                )
            }
            &&& step.state.timeline == state.timeline
        }),
{
}

/// A page that neither starts the history nor continues what is held is not taken: what
/// is held is dropped, and everything is asked for.
pub proof fn law_a_page_with_a_gap_starts_over(
    state: StoreModel,
    session_id: String,
    from: u64,
    records: Vec<StoredEvent>,
    total: u64,
    total_turns: usize,
)
    requires
        state.selected == Some(session_id),
        state.from.contains_key(session_id@),
        state.records.contains_key(session_id@),
        from != 0,
        from != state.from[session_id@] + state.records[session_id@].len(),
    ensures
        ({
            let id = session_id@;
            let topic = Topic::SessionEvents { session_id };
            let step = state.apply(
                EventEnvelope {
                    topic,
                    event: ServerEvent::SessionSnapshot { from, records, total, total_turns },
                },
            );
            &&& step.state.records[id].len() == 0
            &&& !step.state.from.contains_key(id)
            &&& step.state.timeline is None
            &&& !step.state.hydrated_sessions.contains(id)
            &&& !step.state.baseline_topics.contains(TopicName::SessionEvents { session_id: id })
            &&& !step.state.catching_up
            &&& step.state.effects == state.effects.push(Effect::Subscribe { topic, after: None })
            &&& step.work is None
        }),
{
}

/// The last event of a session that is caught up is held behind the others, and applied
/// to the timeline on screen. While pages are still on their way, and for sessions that
/// are not on screen, events are left to the pages.
pub proof fn law_a_live_event_is_held_and_applied(
    state: StoreModel,
    session_id: String,
    record: StoredEvent,
)
    requires
        state.records.contains_key(session_id@),
        state.from.contains_key(session_id@),
        state.from[session_id@] + state.records[session_id@].len() < u64::MAX,
    ensures
        ({
            let id = session_id@;
            let topic = Topic::SessionEvents { session_id };
            let taken = state.selected is Some && state.selected->0@ == id && !state.catching_up;
            let step = state.apply(
                EventEnvelope { topic, event: ServerEvent::SessionEvent(record) },
            );
            &&& taken ==> step.state.records[id] == state.records[id].push(record)
            &&& taken ==> step.state.effects == state.effects.push(
                Effect::UpdateAfter {
                    topic,
                    after: (state.from[id] + state.records[id].len() + 1) as u64,
                },
            )
            &&& taken && state.timeline is Some && state.timeline->0.session_id@ == id
                ==> step.work == Some(TimelineWork::Append { session_id, record })
            &&& taken && state.timeline is None ==> step.work is None
            &&& !taken ==> step.state == state && step.work is None
        }),
{
}

/// Live events arrange the right panel: a new turn lets tasks open it again; a changed
/// plan shows itself where the user wants that, did not close the panel during this turn
/// and has another tab or none open; the end of a turn or of a rewind loads the diff
/// again. Nothing else does.
pub proof fn law_live_events_arrange_the_panel(
    state: StoreModel,
    session_id: String,
    record: StoredEvent,
)
    requires
        state.selected is Some && state.selected->0@ == session_id@,
        !state.catching_up,
        state.from.contains_key(session_id@),
        state.conversation_ui.contains_key(DestinationName::Thread(session_id@)),
    ensures
        ({
            let name = DestinationName::Thread(session_id@);
            let ui = state.conversation_ui[name];
            let after = state.apply(
                EventEnvelope {
                    topic: Topic::SessionEvents { session_id },
                    event: ServerEvent::SessionEvent(record),
                },
            ).state;
            let shown = after.conversation_ui[name];
            &&& after.conversation_ui.dom() == state.conversation_ui.dom()
            &&& forall|other: DestinationName| #[trigger]
                state.conversation_ui.contains_key(other) && other != name
                    ==> after.conversation_ui[other] == state.conversation_ui[other]
            &&& record.kind == EventKind::TurnStarted ==> shown == (ConversationUiState {
                auto_open_task_suppressed: false,
                ..ui
            })
            &&& record.kind == EventKind::PlanUpdated ==> shown == if
                state.settings.auto_open_task_panel && !ui.auto_open_task_suppressed && !(
            ui.right_panel_open && ui.right_tab == RightTab::Plan) {
                ConversationUiState { right_panel_open: true, right_tab: RightTab::Plan, ..ui }
            } else {
                ui
            }
            &&& record.kind == EventKind::TurnCompleted || record.kind
                == EventKind::RewindCompleted ==> shown == (ConversationUiState {
                diff_refresh_generation: shown.diff_refresh_generation,
                ..ui
            }) && shown.diff_refresh_generation != ui.diff_refresh_generation
            &&& record.kind == EventKind::Other ==> shown == ui
        }),
{
    let after = state.append_event(
        Topic::SessionEvents { session_id },
        session_id@,
        record,
    );
    assert(after.conversation_ui.dom() =~= state.conversation_ui.dom());
}

/// A fold that is done is on screen: the session is there and ready, and the turns before
/// those that were folded are counted.
pub proof fn law_a_fold_is_on_screen(
    state: StoreModel,
    timeline: Timeline,
    total_turns: usize,
)
    requires
        state.selected is Some,
    ensures
        ({
            let id = state.selected->0@;
            let after = state.install_timeline(timeline, total_turns);
            &&& after.timeline is Some
            &&& after.timeline->0.session_id@ == id
            &&& after.timeline->0.timeline == timeline
            &&& after.hydrated_sessions == state.hydrated_sessions.insert(id)
            &&& after.baseline_topics == state.baseline_topics.insert(
                TopicName::SessionEvents { session_id: id },
            )
            &&& after.turn_offset == if total_turns > timeline.turns@.len() {
                total_turns - timeline.turns@.len()
            } else {
                0
            }
        }),
{
}

/// Where a conversation's client state is made, it is that of a conversation that nobody
/// has arranged: the panel is closed, and the terminal is as the host has it.
pub proof fn law_fresh_client_state_is_plain(
    state: StoreModel,
    session_id: String,
    status: SessionStatus,
)
    requires
        status.session_id@ == session_id@,
        !status.draft,
        state.selected is Some && state.selected->0@ == session_id@,
        state.destination is None,
        !state.conversation_ui.contains_key(DestinationName::Thread(session_id@)),
    ensures
        ({
            let ui = state.apply(
                EventEnvelope {
                    topic: Topic::SessionStatus { session_id },
                    event: ServerEvent::SessionStatusReplaced(status),
                },
            ).state.conversation_ui[DestinationName::Thread(session_id@)];
            &&& !ui.right_panel_open && !ui.right_panel_expanded
            &&& ui.right_tab == RightTab::Diff
            &&& ui.pending_diff_focus is None && ui.diff_selected_turn is None
            &&& ui.diff_wrap == state.settings.word_wrap_diffs && !ui.diff_split
            &&& ui.terminal_open == status.terminal_open
            &&& ui.terminal_height == status.terminal_height
            &&& ui.preview_url is None && ui.preview_canvas is None
            &&& !ui.auto_open_task_suppressed
        }),
{
    reveal(with_prefill);
}

/// A draft that becomes a thread takes its client state along.
pub proof fn law_a_sent_draft_takes_its_state_along(
    state: StoreModel,
    session_id: String,
    status: SessionStatus,
    project: String,
)
    requires
        status.session_id@ == session_id@,
        !status.draft,
        status.project_id is Some && status.project_id->0@ == project@,
        state.selected is Some && state.selected->0@ == session_id@,
        state.destination == Some(ConversationDestination::ProjectDraft(project)),
        state.conversation_ui.contains_key(DestinationName::ProjectDraft(project@)),
    ensures
        ({
            let after = state.apply(
                EventEnvelope {
                    topic: Topic::SessionStatus { session_id },
                    event: ServerEvent::SessionStatusReplaced(status),
                },
            ).state;
            &&& after.conversation_ui[DestinationName::Thread(session_id@)]
                == state.conversation_ui[DestinationName::ProjectDraft(project@)]
            &&& !after.conversation_ui.contains_key(DestinationName::ProjectDraft(project@))
        }),
{
    reveal(with_prefill);
    let to = DestinationName::Thread(session_id@);
    let from = DestinationName::ProjectDraft(project@);
    assert(to != from);
}

} // verus!
