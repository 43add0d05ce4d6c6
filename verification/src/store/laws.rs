//! What holds of the workspace store as a whole.
use crate::command::{Effect, Outbox};
use crate::listing::{
    distinct, has_session_id, is_first, law_listing_a_session_again_changes_nothing,
    law_listing_a_session_keeps_ids_distinct, law_most_recent_first_permutes, most_recent_first,
    upserted, Recency,
};
use crate::protocol::{
    ConnectionState, DestinationName, EventEnvelope, EventKind, IndexSnapshot, ServerEvent,
    SessionMeta, SessionStatus, Settings, StoredEvent, Subscription, Timeline, Topic, TopicName,
};
use crate::store::model::{destination_of, flags_of, lemma_cursors_kept, with_prefill, StoreModel};
use crate::store::TimelineWork;
use vstd::prelude::*;

verus! {

// Selection.

/// Selecting a session puts it on screen at once, and loading, whatever was
/// there before.
pub proof fn law_selection_is_immediate(state: StoreModel, id: String)
    ensures
        state.select(id).selects(id@),
        !state.selects(id@) ==> state.select(id).session_loading(),
{
}

/// Selecting the session on screen again changes nothing and asks the host for
/// nothing.
pub proof fn law_second_selection_changes_nothing(state: StoreModel, id: String, again: String)
    requires
        id@ == again@,
    ensures
        state.select(id).select(again) == state.select(id),
{
    law_selection_is_immediate(state, id);
}

/// The topics subscribed to once these effects are carried out.
pub open spec fn subscribed(effects: Seq<Effect>, before: Set<TopicName>) -> Set<TopicName>
    decreases effects.len(),
{
    if effects.len() == 0 {
        before
    } else {
        let held = subscribed(effects.drop_last(), before);
        match effects.last() {
            Effect::Subscribe { topic, .. } => held.insert(topic@),
            Effect::Unsubscribe { topic } => held.remove(topic@),
            _ => held,
        }
    }
}

/// The sessions whose history or status is subscribed to are the selected one.
pub open spec fn follows_selection(state: StoreModel, topics: Set<TopicName>) -> bool {
    forall|id: Seq<char>|
        #![trigger topics.contains(TopicName::SessionEvents { session_id: id })]
        #![trigger topics.contains(TopicName::SessionStatus { session_id: id })]
        {
            &&& topics.contains(TopicName::SessionEvents { session_id: id }) ==> state.selects(id)
            &&& topics.contains(TopicName::SessionStatus { session_id: id }) ==> state.selects(id)
        }
}

proof fn lemma_subscribed_push(effects: Seq<Effect>, effect: Effect, before: Set<TopicName>)
    ensures
        subscribed(effects.push(effect), before) == (match effect {
            Effect::Subscribe { topic, .. } => subscribed(effects, before).insert(topic@),
            Effect::Unsubscribe { topic } => subscribed(effects, before).remove(topic@),
            _ => subscribed(effects, before),
        }),
{
    assert(effects.push(effect).drop_last() =~= effects);
}

proof fn lemma_leave_subscriptions(state: StoreModel, before: Set<TopicName>)
    requires
        follows_selection(state, subscribed(state.effects, before)),
    ensures
        follows_selection(state.leave(), subscribed(state.leave().effects, before)),
{
    let a = state.effects.push(Effect::CancelHistory);
    let b = a.push(Effect::ClearTerminalTopics);
    lemma_subscribed_push(state.effects, Effect::CancelHistory, before);
    lemma_subscribed_push(a, Effect::ClearTerminalTopics, before);
    match state.selected {
        Some(id) => {
            let e1 = Effect::Unsubscribe { topic: Topic::SessionEvents { session_id: id } };
            let e2 = Effect::Unsubscribe { topic: Topic::SessionStatus { session_id: id } };
            let e3 = Effect::Unsubscribe { topic: Topic::Preview { session_id: id } };
            let e4 = Effect::Unsubscribe { topic: Topic::GitStatus { session_id: id } };
            lemma_subscribed_push(b, e1, before);
            lemma_subscribed_push(b.push(e1), e2, before);
            lemma_subscribed_push(b.push(e1).push(e2), e3, before);
            lemma_subscribed_push(b.push(e1).push(e2).push(e3), e4, before);
            let held = subscribed(state.effects, before);
            let after = subscribed(state.leave().effects, before);
            assert(state.leave().effects =~= b.push(e1).push(e2).push(e3).push(e4));
            assert forall|k: Seq<char>|
                !(#[trigger] after.contains(TopicName::SessionEvents { session_id: k })) && !after.contains(
                    TopicName::SessionStatus { session_id: k },
                ) by {
                if k != id@ {
                    assert(!state.selects(k));
                    assert(!held.contains(TopicName::SessionEvents { session_id: k }));
                    assert(!held.contains(TopicName::SessionStatus { session_id: k }));
                }
            }
        },
        None => {
            assert(state.leave().effects =~= b);
        },
    }
}

proof fn lemma_enter_subscriptions(state: StoreModel, id: String, before: Set<TopicName>)
    requires
        state.selected is None,
        follows_selection(state, subscribed(state.effects, before)),
    ensures
        follows_selection(state.enter(id), subscribed(state.enter(id).effects, before)),
        subscribed(state.enter(id).effects, before).contains(
            TopicName::SessionEvents { session_id: id@ },
        ),
        subscribed(state.enter(id).effects, before).contains(
            TopicName::SessionStatus { session_id: id@ },
        ),
{
    let s = state.effects;
    let e1 = Effect::Subscribe { topic: Topic::SessionStatus { session_id: id }, after: None };
    let e2 = Effect::Subscribe { topic: Topic::GitStatus { session_id: id }, after: None };
    let e3 = Effect::Subscribe { topic: Topic::Preview { session_id: id }, after: None };
    let e4 = Effect::Subscribe {
        topic: Topic::SessionEvents { session_id: id },
        after: state.resume_after(id@),
    };
    let e5 = Effect::SyncTerminalTopics;
    let p = s.push(e1).push(e2);
    let q = if state.preview_backend {
        p.push(e3)
    } else {
        p
    };
    lemma_subscribed_push(s, e1, before);
    lemma_subscribed_push(s.push(e1), e2, before);
    lemma_subscribed_push(p, e3, before);
    lemma_subscribed_push(q, e4, before);
    lemma_subscribed_push(q.push(e4), e5, before);
    assert(state.enter(id).effects =~= q.push(e4).push(e5));
    let held = subscribed(s, before);
    let after = subscribed(state.enter(id).effects, before);
    assert forall|k: Seq<char>|
        #![trigger after.contains(TopicName::SessionEvents { session_id: k })]
        #![trigger after.contains(TopicName::SessionStatus { session_id: k })]
        {
            &&& after.contains(TopicName::SessionEvents { session_id: k }) ==> k == id@
            &&& after.contains(TopicName::SessionStatus { session_id: k }) ==> k == id@
        } by {
        assert(!held.contains(TopicName::SessionEvents { session_id: k }));
        assert(!held.contains(TopicName::SessionStatus { session_id: k }));
    }
}

/// However fast the user selects, one session's history and one session's
/// status are subscribed to: the selected one's.
pub proof fn law_one_session_is_subscribed(state: StoreModel, id: String, before: Set<TopicName>)
    requires
        !state.selects(id@),
        follows_selection(state, subscribed(state.effects, before)),
    ensures
        follows_selection(state.select(id), subscribed(state.select(id).effects, before)),
        subscribed(state.select(id).effects, before).contains(
            TopicName::SessionEvents { session_id: id@ },
        ),
        subscribed(state.select(id).effects, before).contains(
            TopicName::SessionStatus { session_id: id@ },
        ),
{
    let remembered = state.remember(state.project_of(id@));
    assert(follows_selection(remembered, subscribed(remembered.effects, before))) by {
        if remembered.effects != state.effects {
            assert(remembered.effects.drop_last() =~= state.effects);
            lemma_subscribed_push(state.effects, remembered.effects.last(), before);
            assert(remembered.effects =~= state.effects.push(remembered.effects.last()));
        }
        assert forall|k: Seq<char>| state.selects(k) == remembered.selects(k) by {
        }
    }
    lemma_leave_subscriptions(remembered, before);
    lemma_enter_subscriptions(remembered.leave(), id, before);
}

/// Events of a session that is not on screen change nothing: a load that was
/// overtaken by another selection is retired.
pub proof fn law_retired_loads_change_nothing(
    state: StoreModel,
    session_id: String,
    event: ServerEvent,
    current: bool,
    outbox: Outbox,
)
    requires
        !state.selects(session_id@),
        event is SessionSnapshot || event is SessionEvent,
    ensures
        ({
            let step = state.domain_event(
                EventEnvelope { topic: Topic::SessionEvents { session_id }, event },
                current,
                outbox,
            );
            step.state == state && step.work is None
        }),
{
}

/// A session that is left keeps its badges in the sidebar; the records,
/// statuses and cursors held of every session stay.
pub proof fn law_leaving_parks_the_session(state: StoreModel)
    ensures
        state.leave().selected is None,
        state.leave().records == state.records,
        state.leave().from == state.from,
        state.leave().statuses == state.statuses,
        state.leave().conversation_ui == state.conversation_ui,
        state.status is Some && !state.status->0.draft ==> state.leave().background_flags
            == state.background_flags.insert(
            state.status->0.session_id@,
            flags_of(state.status->0),
        ),
{
}

// History.

/// A snapshot that continues what is held adds its records behind it, each
/// once; the cursor moves behind the last of them.
pub proof fn law_snapshot_extends_history_once(
    state: StoreModel,
    session_id: String,
    from: u64,
    records: Vec<StoredEvent>,
    total: u64,
    total_turns: usize,
)
    requires
        state.selects(session_id@),
        from != 0,
        state.continues(session_id@, from),
        records@.len() > 0 || state.timeline is None,
        from + records@.len() <= u64::MAX,
    ensures
        ({
            let topic = Topic::SessionEvents { session_id };
            let step = state.apply(
                EventEnvelope {
                    topic,
                    event: ServerEvent::SessionSnapshot { from, records, total, total_turns },
                },
            );
            &&& step.state.records_of(session_id@) == state.records_of(session_id@) + records@
            &&& step.state.resume_after(session_id@) == Some((from + records@.len()) as u64)
            &&& step.state.effects.last() == (Effect::UpdateAfter {
                topic,
                after: (from + records@.len()) as u64,
            })
            &&& step.work is Some <==> from + records@.len() >= total
        }),
{
}

/// A snapshot from the start replaces what is held.
pub proof fn law_full_snapshot_replaces_history(
    state: StoreModel,
    session_id: String,
    records: Vec<StoredEvent>,
    total: u64,
    total_turns: usize,
)
    requires
        state.selects(session_id@),
        records@.len() <= u64::MAX,
    ensures
        ({
            let step = state.apply(
                EventEnvelope {
                    topic: Topic::SessionEvents { session_id },
                    event: ServerEvent::SessionSnapshot { from: 0, records, total, total_turns },
                },
            );
            step.state.records_of(session_id@) == records@ && step.state.from[session_id@] == 0
        }),
{
    assert(Seq::<StoredEvent>::empty() + records@ =~= records@);
}

/// A snapshot that does not continue what is held drops it, and the session's
/// events are asked for from the start.
pub proof fn law_mismatched_tail_starts_over(
    state: StoreModel,
    session_id: String,
    from: u64,
    records: Vec<StoredEvent>,
    total: u64,
    total_turns: usize,
)
    requires
        state.selects(session_id@),
        !state.continues(session_id@, from),
    ensures
        ({
            let topic = Topic::SessionEvents { session_id };
            let step = state.apply(
                EventEnvelope {
                    topic,
                    event: ServerEvent::SessionSnapshot { from, records, total, total_turns },
                },
            );
            &&& step.state.records_of(session_id@).len() == 0
            &&& step.state.resume_after(session_id@) is None
            &&& step.state.session_loading()
            &&& !step.state.baseline_ready()
            &&& step.state.effects == state.effects.push(
                Effect::Subscribe { topic, after: None },
            )
            &&& step.work is None
        }),
{
}

/// An empty replay behind what is held keeps the timeline on screen as it is
/// and still establishes readiness.
pub proof fn law_empty_replay_keeps_the_timeline(
    state: StoreModel,
    session_id: String,
    from: u64,
    records: Vec<StoredEvent>,
    total: u64,
    total_turns: usize,
)
    requires
        state.selects(session_id@),
        state.timeline is Some,
        from != 0,
        state.continues(session_id@, from),
        records@.len() == 0,
    ensures
        ({
            let topic = Topic::SessionEvents { session_id };
            let step = state.apply(
                EventEnvelope {
                    topic,
                    event: ServerEvent::SessionSnapshot { from, records, total, total_turns },
                },
            );
            &&& step.state.timeline == state.timeline
            &&& step.state.records_of(session_id@) == state.records_of(session_id@)
            &&& step.state.baseline_topics == state.baseline_topics.insert(topic@)
            &&& step.work is None
        }),
{
}

/// A live event is held once, behind the others, and advances the cursor by
/// one.
pub proof fn law_live_event_is_held_once(
    state: StoreModel,
    session_id: String,
    record: StoredEvent,
)
    requires
        state.takes_events(session_id@),
        state.from[session_id@] + state.records_of(session_id@).len() < u64::MAX,
    ensures
        ({
            let topic = Topic::SessionEvents { session_id };
            let step = state.apply(
                EventEnvelope { topic, event: ServerEvent::SessionEvent(record) },
            );
            &&& step.state.records_of(session_id@) == state.records_of(session_id@).push(record)
            &&& step.state.resume_after(session_id@) == Some(
                (state.resume_after(session_id@)->0 + 1) as u64,
            )
        }),
{
}

/// The turn a rewind names is counted from the session's first turn, however
/// much of its history is folded: the turns on screen and the turns before
/// them add up.
pub proof fn law_turn_offset_is_absolute(state: StoreModel, timeline: Timeline, total_turns: usize)
    requires
        state.selected is Some,
        timeline.turns@.len() <= total_turns,
    ensures
        state.install_timeline(timeline, total_turns).turn_offset + timeline.turns@.len()
            == total_turns,
{
}

// The link.

/// Losing or restarting the link takes readiness away and nothing else: what
/// was replicated stays readable.
pub proof fn law_link_loss_keeps_replicas(
    state: StoreModel,
    link: ConnectionState,
    subscriptions: Seq<Subscription>,
)
    requires
        link != ConnectionState::Connected,
    ensures
        ({
            let after = state.connection_changed(link, subscriptions);
            &&& !after.baseline_ready()
            &&& after.shown_connection() != ConnectionState::Connected
            &&& after == (StoreModel {
                baseline_topics: Set::empty(),
                connection_state: link,
                effects: after.effects,
                ..state
            })
        }),
{
}

/// The user sees a connected link exactly while it is up and the index, the
/// settings and the selected session's status and events have been replayed.
pub proof fn law_connected_means_replayed(state: StoreModel)
    ensures
        state.shown_connection() == ConnectionState::Connected <==> ((state.connection_state
            == ConnectionState::Connected || state.connection_state == ConnectionState::Syncing)
            && state.baseline_ready()),
{
}

/// A part of the baseline that a host replays for a thread on screen.
pub enum Replay {
    Index(IndexSnapshot),
    Settings(Settings),
    Status(SessionStatus),
    /// Events, with the timeline that they fold to.
    Events {
        from: u64,
        records: Vec<StoredEvent>,
        total: u64,
        total_turns: usize,
        timeline: Timeline,
    },
}

impl Replay {
    /// The topic that it is published for.
    pub open spec fn topic(self, id: Seq<char>) -> TopicName {
        match self {
            Replay::Index(_) => TopicName::Index,
            Replay::Settings(_) => TopicName::Settings,
            Replay::Status(_) => TopicName::SessionStatus { session_id: id },
            Replay::Events { .. } => TopicName::SessionEvents { session_id: id },
        }
    }

    pub open spec fn envelope(self, id: String) -> EventEnvelope {
        match self {
            Replay::Index(snapshot) => EventEnvelope {
                topic: Topic::Index,
                event: ServerEvent::IndexSnapshot(snapshot),
            },
            Replay::Settings(settings) => EventEnvelope {
                topic: Topic::Settings,
                event: ServerEvent::SettingsSnapshot(settings),
            },
            Replay::Status(status) => EventEnvelope {
                topic: Topic::SessionStatus { session_id: id },
                event: ServerEvent::SessionStatusReplaced(status),
            },
            Replay::Events { from, records, total, total_turns, timeline } => EventEnvelope {
                topic: Topic::SessionEvents { session_id: id },
                event: ServerEvent::SessionSnapshot { from, records, total, total_turns },
            },
        }
    }
}

impl StoreModel {
    /// Whether a part is one that a thread on screen is replayed: the index lists the
    /// thread, the status is its own, and the events continue what is held, up to the
    /// last.
    pub open spec fn replays(self, id: Seq<char>, part: Replay) -> bool {
        match part {
            Replay::Index(snapshot) => exists|i: int|
                0 <= i < snapshot.sessions@.len() && (#[trigger] snapshot.sessions@[i]).id@ == id
                    && snapshot.sessions@[i].archived_at is None,
            Replay::Settings(_) => true,
            Replay::Status(status) => status.session_id@ == id && !status.draft,
            Replay::Events { from, records, total, .. } => {
                &&& self.continues(id, from)
                &&& total <= from + records@.len() <= u64::MAX
            },
        }
    }

    /// The store after a part is applied and, where that asks for it, the timeline
    /// folded and installed.
    #[verifier::opaque]
    pub open spec fn replayed(self, id: String, part: Replay, outbox: Outbox) -> Self {
        let step = self.domain_event(part.envelope(id), true, outbox);
        match (part, step.work) {
            (Replay::Events { timeline, total_turns, .. }, Some(TimelineWork::Fold { .. })) =>
                step.state.install_timeline(timeline, total_turns),
            _ => step.state,
        }
    }

    /// The store after parts are applied in their order, with what is in the outbox
    /// at each.
    pub open spec fn replayed_all(self, id: String, parts: Seq<(Replay, Outbox)>) -> Self
        decreases parts.len(),
    {
        if parts.len() == 0 {
            self
        } else {
            self.replayed_all(id, parts.drop_last()).replayed(id, parts.last().0, parts.last().1)
        }
    }
}

/// Whether each of the four parts of a baseline is among parts.
pub open spec fn complete(parts: Seq<(Replay, Outbox)>) -> bool {
    &&& exists|i: int| 0 <= i < parts.len() && (#[trigger] parts[i]).0 is Index
    &&& exists|i: int| 0 <= i < parts.len() && (#[trigger] parts[i]).0 is Settings
    &&& exists|i: int| 0 <= i < parts.len() && (#[trigger] parts[i]).0 is Status
    &&& exists|i: int| 0 <= i < parts.len() && (#[trigger] parts[i]).0 is Events
}

/// A thread on screen of a link that is syncing.
spec fn syncs(state: StoreModel, id: Seq<char>) -> bool {
    &&& state.selects(id)
    &&& state.connection_state == ConnectionState::Syncing
    &&& state.status is Some ==> state.status->0.session_id@ == id && !state.status->0.draft
}

proof fn lemma_index_replayed(
    state: StoreModel,
    id: String,
    snapshot: IndexSnapshot,
    outbox: Outbox,
)
    requires
        syncs(state, id@),
        state.replays(id@, Replay::Index(snapshot)),
    ensures
        syncs(state.replayed(id, Replay::Index(snapshot), outbox), id@),
        state.replayed(id, Replay::Index(snapshot), outbox).baseline_topics
            == state.baseline_topics.insert(TopicName::Index),
{
    reveal(StoreModel::replayed);
    let indexed = state.replace_index(snapshot).emit(Effect::LoadPendingChatHistory);
    if state.status is Some {
        assert(indexed.visible(id@)) by {
            let i = choose|i: int|
                0 <= i < snapshot.sessions@.len() && (#[trigger] snapshot.sessions@[i]).id@ == id@
                    && snapshot.sessions@[i].archived_at is None;
            assert(indexed.sessions[i].id@ == id@);
        }
        law_visible_thread_stays(indexed, outbox);
    } else {
        assert(indexed.retire_adopted(outbox).settle() == indexed.retire_adopted(outbox));
    }
    assert(state.replayed(id, Replay::Index(snapshot), outbox) == indexed.reconcile(outbox));
}

proof fn lemma_status_replayed(
    state: StoreModel,
    id: String,
    status: SessionStatus,
    outbox: Outbox,
)
    requires
        syncs(state, id@),
        state.replays(id@, Replay::Status(status)),
    ensures
        syncs(state.replayed(id, Replay::Status(status), outbox), id@),
        state.replayed(id, Replay::Status(status), outbox).baseline_topics
            == state.baseline_topics.insert(TopicName::SessionStatus { session_id: id@ }),
{
    reveal(StoreModel::replayed);
    let known = state.replace_status(id@, status);
    let shown = with_prefill(status, state.prefills.contains_key(id@));
    lemma_prefill_identity(status, state.prefills.contains_key(id@));
    assert(known.status == Some(shown));
    assert(known.selects(id@) && known.connection_state == ConnectionState::Syncing);
    assert(state.replayed(id, Replay::Status(status), outbox) == known.emit(
        Effect::LoadPendingChatHistory,
    ));
}

proof fn lemma_events_replayed(state: StoreModel, id: String, part: Replay, outbox: Outbox)
    requires
        syncs(state, id@),
        part is Events,
        state.replays(id@, part),
    ensures
        syncs(state.replayed(id, part, outbox), id@),
        state.replayed(id, part, outbox).baseline_topics == state.baseline_topics.insert(
            TopicName::SessionEvents { session_id: id@ },
        ),
{
    reveal(StoreModel::replayed);
    match part {
        Replay::Events { from, records, total, total_turns, timeline } => {
            let topic = Topic::SessionEvents { session_id: id };
            let step = state.apply_snapshot(topic, id@, from, records@, total, total_turns);
            let whole = state.domain_event(part.envelope(id), true, outbox);
            assert(whole.state == step.state && whole.work == step.work);
        },
        _ => {},
    }
}

/// A part that is replayed adds its topic to the baseline, and the thread stays.
proof fn lemma_replayed(state: StoreModel, id: String, part: Replay, outbox: Outbox)
    requires
        syncs(state, id@),
        state.replays(id@, part),
    ensures
        syncs(state.replayed(id, part, outbox), id@),
        state.replayed(id, part, outbox).baseline_topics == state.baseline_topics.insert(
            part.topic(id@),
        ),
{
    match part {
        Replay::Index(snapshot) => {
            lemma_index_replayed(state, id, snapshot, outbox);
        },
        Replay::Settings(settings) => {
            reveal(StoreModel::replayed);
            assert(state.replayed(id, part, outbox) == state.replace_settings(settings, true).emit(
                Effect::LoadPendingChatHistory,
            ));
        },
        Replay::Status(status) => {
            lemma_status_replayed(state, id, status, outbox);
        },
        Replay::Events { .. } => {
            lemma_events_replayed(state, id, part, outbox);
        },
    }
}

/// The topics of parts.
spec fn topics_of(id: Seq<char>, parts: Seq<(Replay, Outbox)>) -> Set<TopicName>
    decreases parts.len(),
{
    if parts.len() == 0 {
        Set::empty()
    } else {
        topics_of(id, parts.drop_last()).insert(parts.last().0.topic(id))
    }
}

proof fn lemma_topics_of(id: Seq<char>, parts: Seq<(Replay, Outbox)>, topic: TopicName)
    ensures
        topics_of(id, parts).contains(topic) <==> exists|i: int|
            0 <= i < parts.len() && (#[trigger] parts[i]).0.topic(id) == topic,
    decreases parts.len(),
{
    if parts.len() > 0 {
        let init = parts.drop_last();
        let last = parts.len() - 1;
        lemma_topics_of(id, init, topic);
        assert(parts.last() == parts[last]);
        if exists|i: int| 0 <= i < init.len() && (#[trigger] init[i]).0.topic(id) == topic {
            let i = choose|i: int| 0 <= i < init.len() && (#[trigger] init[i]).0.topic(id) == topic;
            assert(parts[i].0.topic(id) == topic);
        }
        if exists|i: int| 0 <= i < parts.len() && (#[trigger] parts[i]).0.topic(id) == topic {
            let i = choose|i: int|
                0 <= i < parts.len() && (#[trigger] parts[i]).0.topic(id) == topic;
            if i < last {
                assert(init[i].0.topic(id) == topic);
            }
        }
    }
}

proof fn lemma_replayed_all(state: StoreModel, id: String, parts: Seq<(Replay, Outbox)>)
    requires
        syncs(state, id@),
        state.baseline_topics == Set::<TopicName>::empty(),
        forall|n: int|
            0 <= n < parts.len() ==> state.replayed_all(id, #[trigger] parts.take(n)).replays(
                id@,
                parts[n].0,
            ),
    ensures
        syncs(state.replayed_all(id, parts), id@),
        state.replayed_all(id, parts).baseline_topics == topics_of(id@, parts),
    decreases parts.len(),
{
    if parts.len() > 0 {
        let init = parts.drop_last();
        let last = parts.len() - 1;
        assert forall|n: int| 0 <= n < init.len() implies state.replayed_all(
            id,
            #[trigger] init.take(n),
        ).replays(id@, init[n].0) by {
            assert(init.take(n) =~= parts.take(n));
        }
        lemma_replayed_all(state, id, init);
        assert(parts.take(last) =~= init);
        assert(parts.last() == parts[last]);
        lemma_replayed(state.replayed_all(id, init), id, parts[last].0, parts[last].1);
    }
}

/// After a reconnect with a thread on screen, the link shows as syncing until the
/// index, the settings, the thread's status and the thread's events have all been
/// replayed, in whatever order they come, and as connected from then on.
pub proof fn law_the_last_part_of_the_baseline_connects(
    state: StoreModel,
    subscriptions: Seq<Subscription>,
    id: String,
    parts: Seq<(Replay, Outbox)>,
)
    requires
        state.coherent(),
        state.selects(id@),
        state.status is Some ==> !state.status->0.draft,
        ({
            let syncing = state.connection_changed(ConnectionState::Syncing, subscriptions);
            forall|n: int|
                0 <= n < parts.len() ==> syncing.replayed_all(id, #[trigger] parts.take(n)).replays(
                    id@,
                    parts[n].0,
                )
        }),
    ensures
        state.connection_changed(ConnectionState::Syncing, subscriptions).replayed_all(
            id,
            parts,
        ).shown_connection() == if complete(parts) {
            ConnectionState::Connected
        } else {
            ConnectionState::Syncing
        },
{
    let syncing = state.connection_changed(ConnectionState::Syncing, subscriptions);
    lemma_replayed_all(syncing, id, parts);
    lemma_topics_of(id@, parts, TopicName::Index);
    lemma_topics_of(id@, parts, TopicName::Settings);
    lemma_topics_of(id@, parts, TopicName::SessionStatus { session_id: id@ });
    lemma_topics_of(id@, parts, TopicName::SessionEvents { session_id: id@ });
    let after = syncing.replayed_all(id, parts);
    assert(after.baseline_ready() == complete(parts)) by {
        assert(after.selected->0@ == id@);
        assert(forall|i: int|
            0 <= i < parts.len() ==> ((#[trigger] parts[i]).0 is Index <==> parts[i].0.topic(id@)
                == TopicName::Index));
    }
}

/// Applying the same session of the index a second time changes nothing, and the ids
/// in the index stay distinct.
pub proof fn law_a_session_applied_again_changes_nothing(state: StoreModel, meta: SessionMeta)
    requires
        distinct(state.sessions),
    ensures
        ({
            let envelope = EventEnvelope {
                topic: Topic::Index,
                event: ServerEvent::IndexUpsertSession(meta),
            };
            let once = state.apply(envelope).state;
            &&& once.apply(envelope).state == once
            &&& distinct(once.sessions)
        }),
{
    law_listing_a_session_again_changes_nothing(state.sessions, meta, Recency::Updated);
    law_listing_a_session_keeps_ids_distinct(state.sessions, meta, Recency::Updated);
}

// What is on screen after the index changed.

/// A message being delivered keeps its conversation on screen: only forgotten
/// placeholders are queued.
pub proof fn law_authored_write_stays(state: StoreModel, outbox: Outbox)
    requires
        state.delivery_messages(outbox).len() > 0,
    ensures
        state.reconcile(outbox) == (StoreModel {
            effects: state.reconcile(outbox).effects,
            ..state
        }),
{
}

/// As long as the thread on screen is listed and not archived, the index moves
/// nobody.
pub proof fn law_visible_thread_stays(state: StoreModel, outbox: Outbox)
    requires
        state.status is Some,
        !state.status->0.draft,
        state.visible(state.status->0.session_id@),
    ensures
        state.reconcile(outbox) == (StoreModel {
            effects: state.reconcile(outbox).effects,
            ..state
        }),
{
    let retired = state.retire_adopted(outbox);
    assert(retired.visible(state.status->0.session_id@)) by {
        let i = choose|i: int|
            0 <= i < state.sessions.len() && (#[trigger] state.sessions[i]).id@
                == state.status->0.session_id@ && state.sessions[i].archived_at is None;
        assert(retired.sessions[i].id@ == state.status->0.session_id@);
    }
}

/// When the thread on screen leaves the visible index, its visible parent is
/// shown.
pub proof fn law_vanished_thread_yields_to_its_parent(state: StoreModel, outbox: Outbox)
    requires
        state.coherent(),
        state.delivery_messages(outbox).len() == 0,
        state.status is Some,
        !state.status->0.draft,
        !state.visible(state.status->0.session_id@),
        state.visible_parent(state.status->0.session_id@) is Some,
    ensures
        state.reconcile(outbox).selects(
            state.visible_parent(state.status->0.session_id@)->0@,
        ),
{
    let retired = state.retire_adopted(outbox);
    let id = state.status->0.session_id@;
    lemma_visible_kept(state, retired);
    assert(retired.visible_parent(id) == state.visible_parent(id));
    law_selection_is_immediate(retired, state.visible_parent(id)->0);
}

proof fn lemma_visible_kept(state: StoreModel, other: StoreModel)
    requires
        state.sessions == other.sessions,
    ensures
        forall|id: Seq<char>| state.visible(id) == other.visible(id),
{
}

/// Replacing or adding one session leaves every other one listed as it was.
proof fn lemma_upsert_keeps_others(
    sessions: Seq<SessionMeta>,
    meta: SessionMeta,
    other: SessionMeta,
)
    requires
        sessions.contains(other),
        other.id@ != meta.id@,
    ensures
        most_recent_first(
            upserted(sessions, has_session_id(meta.id@), meta),
            Recency::Updated,
        ).contains(other),
{
    broadcast use vstd::seq_lib::group_to_multiset_ensures;

    let same = has_session_id(meta.id@);
    let list = upserted(sessions, same, meta);
    let i = choose|i: int| 0 <= i < sessions.len() && sessions[i] == other;
    if exists|k: int| is_first(sessions, same, k) {
        let k = choose|k: int| is_first(sessions, same, k);
        assert(list[i] == other);
    } else {
        assert(list[i] == other);
    }
    law_most_recent_first_permutes(list, Recency::Updated);
    assert(list.to_multiset().contains(other));
}

/// Archiving, or anything else that happens to a background thread, never
/// steals navigation from the thread on screen.
pub proof fn law_background_thread_never_steals_navigation(
    state: StoreModel,
    meta: SessionMeta,
    outbox: Outbox,
)
    requires
        state.status is Some,
        !state.status->0.draft,
        state.visible(state.status->0.session_id@),
        meta.id@ != state.status->0.session_id@,
    ensures
        ({
            let after = state.domain_event(
                EventEnvelope {
                    topic: Topic::Index,
                    event: ServerEvent::IndexUpsertSession(meta),
                },
                true,
                outbox,
            ).state;
            &&& after.selected == state.selected
            &&& after.status == state.status
            &&& after.destination == state.destination
        }),
{
    let id = state.status->0.session_id@;
    let changed = state.upsert_session(meta);
    let i = choose|i: int|
        0 <= i < state.sessions.len() && (#[trigger] state.sessions[i]).id@ == id
            && state.sessions[i].archived_at is None;
    let other = state.sessions[i];
    lemma_upsert_keeps_others(state.sessions, meta, other);
    let j = choose|j: int| 0 <= j < changed.sessions.len() && changed.sessions[j] == other;
    assert(changed.sessions[j].id@ == id);
    let loaded = changed.emit(Effect::LoadPendingChatHistory);
    lemma_visible_kept(changed, loaded);
    law_visible_thread_stays(loaded, outbox);
}

/// While a fallback draft is on its way, no other one is asked for.
pub proof fn law_one_fallback_draft_at_a_time(state: StoreModel)
    ensures
        state.draft_fallback_pending ==> state.open_last_draft() == state,
        state.open_last_draft().open_last_draft() == state.open_last_draft(),
{
}

// Client state of conversations.

/// A project that leaves the index takes its draft's client state along.
pub proof fn law_removed_project_clears_its_draft(state: StoreModel, id: Seq<char>)
    ensures
        !state.remove_project(id).conversation_ui.contains_key(DestinationName::ProjectDraft(id)),
        forall|name: DestinationName|
            name != DestinationName::ProjectDraft(id) && #[trigger]
                state.conversation_ui.contains_key(name)
                ==> state.remove_project(id).conversation_ui.contains_key(name)
                && state.remove_project(id).conversation_ui[name] == state.conversation_ui[name],
{
}

/// Committing a draft moves its client state to the thread: it is there, and
/// no longer with the draft.
pub proof fn law_committed_draft_moves_its_state(state: StoreModel)
    requires
        state.status is Some,
        state.commits_draft(state.status->0),
    ensures
        ({
            let from = state.destination->0@;
            let to = destination_of(state.status->0)@;
            let after = state.sync_ui();
            &&& after.conversation_ui.contains_key(to)
            &&& after.conversation_ui[to] == state.conversation_ui[from]
            &&& !after.conversation_ui.contains_key(from)
            &&& after.destination == Some(destination_of(state.status->0))
        }),
{
}

/// The conversation on screen always has client state, and what the user left
/// there is not overwritten.
pub proof fn law_active_conversation_has_state(state: StoreModel)
    requires
        state.status is Some,
        !state.commits_draft(state.status->0),
    ensures
        ({
            let to = destination_of(state.status->0)@;
            let after = state.sync_ui();
            &&& after.conversation_ui.contains_key(to)
            &&& state.conversation_ui.contains_key(to) ==> after.conversation_ui
                == state.conversation_ui
        }),
{
}

// Recovery cards and prefills.

/// A session's next turn starts, or the session is deleted.
pub open spec fn ends_recovery(envelope: EventEnvelope, id: Seq<char>) -> bool {
    match (envelope.topic, envelope.event) {
        (Topic::Index, ServerEvent::IndexRemoveSession { session_id }) => session_id@ == id,
        (Topic::SessionEvents { session_id }, ServerEvent::SessionEvent(record)) => session_id@
            == id && record.kind == EventKind::TurnStarted,
        _ => false,
    }
}

/// A classifier stop stays on offer until its session's next turn starts, or
/// the session is deleted.
pub proof fn law_block_survives_until_the_next_turn(
    state: StoreModel,
    envelope: EventEnvelope,
    id: Seq<char>,
)
    requires
        state.blocks.contains_key(id),
        !ends_recovery(envelope, id),
    ensures
        state.apply(envelope).state.blocks.contains_key(id),
{
}

/// The advice on a classifier stop stays as long as the stop itself may.
pub proof fn law_advice_survives_until_the_next_turn(
    state: StoreModel,
    envelope: EventEnvelope,
    id: Seq<char>,
)
    requires
        state.reviews.contains_key(id),
        !ends_recovery(envelope, id),
    ensures
        state.apply(envelope).state.reviews.contains_key(id),
{
}

/// The next turn of the session takes both cards away, and no other session's.
pub proof fn law_next_turn_clears_recovery(
    state: StoreModel,
    session_id: String,
    record: StoredEvent,
)
    requires
        state.takes_events(session_id@),
        record.kind == EventKind::TurnStarted,
    ensures
        ({
            let after = state.apply(
                EventEnvelope {
                    topic: Topic::SessionEvents { session_id },
                    event: ServerEvent::SessionEvent(record),
                },
            ).state;
            &&& after.blocks == state.blocks.remove(session_id@)
            &&& after.reviews == state.reviews.remove(session_id@)
        }),
{
}

/// A prefill is kept for the session it was published for, parked or not, and
/// for no other.
pub proof fn law_prefills_are_keyed_to_their_session(
    state: StoreModel,
    session_id: String,
    text: String,
    other: Seq<char>,
)
    requires
        other != session_id@,
    ensures
        ({
            let after = state.receive_prefill(session_id@, text);
            &&& after.prefills.contains_key(session_id@) && after.prefills[session_id@] == text
            &&& after.prefills.contains_key(other) == state.prefills.contains_key(other)
            &&& state.prefills.contains_key(other) ==> after.prefills[other]
                == state.prefills[other]
            &&& state.status is Some && state.status->0.session_id@ == other ==> after.status
                == state.status
        }),
{
}

// Coherence: what every step keeps.

proof fn lemma_prefill_identity(status: SessionStatus, available: bool)
    ensures
        with_prefill(status, available).session_id == status.session_id,
        with_prefill(status, available).draft == status.draft,
        with_prefill(status, available).project_id == status.project_id,
{
    reveal(with_prefill);
}

proof fn lemma_sync_coherent(state: StoreModel)
    requires
        state.cursors_fit(),
        state.status is Some ==> state.selects(state.status->0.session_id@),
        state.timeline is Some ==> state.selects(state.timeline->0.session_id@),
        state.catching_up ==> state.selected is Some,
        forall|id: Seq<char>| #[trigger]
            state.statuses.contains_key(id) ==> state.statuses[id].session_id@ == id,
    ensures
        state.sync_ui().coherent(),
{
    lemma_cursors_kept(state, state.sync_ui());
}

/// Leaving keeps the store coherent.
pub proof fn law_leaving_keeps_coherence(state: StoreModel)
    requires
        state.coherent(),
    ensures
        state.leave().coherent(),
{
    lemma_cursors_kept(state, state.leave());
}

/// Selecting keeps the store coherent.
pub proof fn law_selecting_keeps_coherence(state: StoreModel, id: String)
    requires
        state.coherent(),
    ensures
        state.select(id).coherent(),
{
    if !state.selects(id@) {
        let remembered = state.remember(state.project_of(id@));
        lemma_cursors_kept(state, remembered);
        assert(remembered.coherent());
        law_leaving_keeps_coherence(remembered);
        let left = remembered.leave();
        let after = left.enter(id);
        assert forall|k: Seq<char>| #[trigger] after.from.contains_key(k) implies after.from[k]
            + after.records_of(k).len() <= u64::MAX by {
            assert(left.from.contains_key(k));
            assert(after.records_of(k) =~= left.records_of(k));
        }
    }
}

/// Re-deciding what is on screen keeps the store coherent.
pub proof fn law_reconciling_keeps_coherence(state: StoreModel, outbox: Outbox)
    requires
        state.coherent(),
    ensures
        state.reconcile(outbox).coherent(),
{
    let retired = state.retire_adopted(outbox);
    lemma_cursors_kept(state, retired);
    assert(retired.coherent());
    law_leaving_keeps_coherence(retired);
    let left = retired.leave();
    lemma_cursors_kept(left, left.open_last_draft());
    lemma_cursors_kept(retired, retired.open_last_draft());
    assert(left.open_last_draft().coherent());
    assert(retired.open_last_draft().coherent());
    match retired.status {
        Some(status) => match retired.visible_parent(status.session_id@) {
            Some(parent) => {
                law_selecting_keeps_coherence(retired, parent);
            },
            None => {},
        },
        None => {},
    }
}

/// A change of the link keeps the store coherent.
pub proof fn law_link_changes_keep_coherence(
    state: StoreModel,
    link: ConnectionState,
    subscriptions: Seq<Subscription>,
)
    requires
        state.coherent(),
    ensures
        state.connection_changed(link, subscriptions).coherent(),
{
    lemma_cursors_kept(state, state.connection_changed(link, subscriptions));
}

/// Showing a fold keeps the store coherent.
pub proof fn law_installing_keeps_coherence(
    state: StoreModel,
    timeline: Timeline,
    total_turns: usize,
)
    requires
        state.coherent(),
    ensures
        state.install_timeline(timeline, total_turns).coherent(),
{
    lemma_cursors_kept(state, state.install_timeline(timeline, total_turns));
}

proof fn lemma_snapshot_coherent(
    state: StoreModel,
    topic: Topic,
    id: Seq<char>,
    from: u64,
    records: Seq<StoredEvent>,
    total: u64,
    total_turns: usize,
)
    requires
        state.coherent(),
        state.selects(id) && state.continues(id, from) ==> from + records.len() <= u64::MAX,
    ensures
        state.apply_snapshot(topic, id, from, records, total, total_turns).state.coherent(),
{
    let after = state.apply_snapshot(topic, id, from, records, total, total_turns).state;
    assert forall|k: Seq<char>| #[trigger] after.from.contains_key(k) implies after.from[k]
        + after.records_of(k).len() <= u64::MAX by {
        if k != id {
            assert(state.from.contains_key(k));
            assert(after.records_of(k) == state.records_of(k));
        }
    }
}

proof fn lemma_status_coherent(state: StoreModel, id: Seq<char>, status: SessionStatus)
    requires
        state.coherent(),
        status.session_id@ == id,
    ensures
        state.replace_status(id, status).coherent(),
{
    lemma_prefill_identity(status, state.prefills.contains_key(id));
    let after = state.replace_status(id, status);
    lemma_cursors_kept(state, after);
    if state.selects(id) {
        let shown = StoreModel {
            baseline_topics: state.baseline_topics.insert(
                TopicName::SessionStatus { session_id: id },
            ),
            statuses: state.statuses.insert(id, status),
            status: Some(with_prefill(status, state.prefills.contains_key(id))),
            ..state
        }.emit(Effect::SyncTerminalTopics);
        lemma_cursors_kept(state, shown);
        lemma_sync_coherent(shown);
    }
}

proof fn lemma_apply_coherent(state: StoreModel, envelope: EventEnvelope)
    requires
        state.coherent(),
        state.admits(envelope),
    ensures
        state.apply(envelope).state.coherent(),
{
    let after = state.apply(envelope).state;
    match (envelope.topic, envelope.event) {
        (
            Topic::SessionEvents { session_id },
            ServerEvent::SessionSnapshot { from, records, total, total_turns },
        ) => {
            lemma_snapshot_coherent(
                state,
                envelope.topic,
                session_id@,
                from,
                records@,
                total,
                total_turns,
            );
        },
        (Topic::SessionEvents { session_id }, ServerEvent::SessionEvent(record)) => {
            if state.takes_events(session_id@) {
                assert forall|k: Seq<char>| #[trigger]
                    after.from.contains_key(k) implies after.from[k] + after.records_of(k).len()
                    <= u64::MAX by {
                    assert(state.from.contains_key(k));
                    if k != session_id@ {
                        assert(after.records_of(k) == state.records_of(k));
                    }
                }
            }
        },
        (Topic::SessionStatus { session_id }, ServerEvent::SessionStatusReplaced(status)) => {
            if status.session_id@ == session_id@ {
                lemma_status_coherent(state, session_id@, status);
            }
        },
        (
            Topic::SessionStatus { session_id },
            ServerEvent::NativeRewindPrefill { session_id: published, text },
        ) => {
            lemma_cursors_kept(state, after);
            match state.status {
                Some(status) => {
                    lemma_prefill_identity(status, true);
                },
                None => {},
            }
        },
        _ => {
            lemma_cursors_kept(state, after);
        },
    }
}

/// Whatever the host publishes, the status, the timeline and the client state
/// on screen stay the selected session's.
pub proof fn law_events_keep_coherence(
    state: StoreModel,
    envelope: EventEnvelope,
    current: bool,
    outbox: Outbox,
)
    requires
        state.coherent(),
        current ==> state.admits(envelope),
    ensures
        state.domain_event(envelope, current, outbox).state.coherent(),
{
    if current {
        lemma_apply_coherent(state, envelope);
        let step = state.apply(envelope);
        let loaded = step.state.emit(Effect::LoadPendingChatHistory);
        lemma_cursors_kept(step.state, loaded);
        assert(loaded.coherent());
        law_reconciling_keeps_coherence(loaded, outbox);
    }
}

} // verus!
