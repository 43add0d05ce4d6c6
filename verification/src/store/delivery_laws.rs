//! Which messages a session shows as being delivered, and which are forgotten.
use crate::command::{Command, Effect, Outbox, OutboxEntry, FailedEntry};
use crate::store::delivery::{answers_pending, waiting_previews, waiting_sessions};
use crate::store::model::{failed_messages, pending_messages, StoreModel};
use crate::store::DeliveryMessage;
use vstd::prelude::*;

verus! {

/// Whether a command sends words to a session: now, later, into a running turn, after a
/// confirmation, or to be orchestrated.
pub open spec fn sends(command: Command, session: Seq<char>, words: String) -> bool {
    match command {
        Command::SendTurn { session_id, text, .. }
        | Command::ScheduleTurn { session_id, text, .. }
        | Command::Steer { session_id, text, .. }
        | Command::ConfirmRelayAndSend { session_id, text, .. }
        | Command::OrchestrateTurn { session_id, text, .. } => session_id@ == session && text
            == words,
        _ => false,
    }
}

proof fn lemma_pending(active: Seq<char>, entries: Seq<OutboxEntry>)
    ensures
        forall|i: int, words: String|
            0 <= i < entries.len() && #[trigger] sends(entries[i].command, active, words)
                ==> pending_messages(active, entries).contains(
                DeliveryMessage {
                    key: entries[i].key,
                    text: words,
                    error: None,
                    acknowledged: false,
                },
            ),
        forall|m: DeliveryMessage| #[trigger]
            pending_messages(active, entries).contains(m) ==> !m.acknowledged && m.error is None
                && exists|i: int|
                0 <= i < entries.len() && entries[i].key == m.key && #[trigger] sends(
                    entries[i].command,
                    active,
                    m.text,
                ),
    decreases entries.len(),
{
    if entries.len() > 0 {
        let init = entries.drop_last();
        let before = pending_messages(active, init);
        let after = pending_messages(active, entries);
        lemma_pending(active, init);
        assert(forall|m: DeliveryMessage| #[trigger] before.contains(m) ==> after.contains(m)) by {
            assert forall|m: DeliveryMessage| #[trigger] before.contains(m) implies after.contains(
                m,
            ) by {
                let i = choose|i: int| 0 <= i < before.len() && before[i] == m;
                assert(after[i] == m);
            }
        }
        assert forall|i: int, words: String|
            0 <= i < entries.len() && #[trigger] sends(
                entries[i].command,
                active,
                words,
            ) implies after.contains(
            DeliveryMessage { key: entries[i].key, text: words, error: None, acknowledged: false },
        ) by {
            if i < init.len() {
                assert(init[i] == entries[i]);
                assert(sends(init[i].command, active, words));
            } else {
                assert(after.last() == DeliveryMessage {
                    key: entries[i].key,
                    text: words,
                    error: None,
                    acknowledged: false,
                });
            }
        }
        assert forall|m: DeliveryMessage| #[trigger] after.contains(m) implies !m.acknowledged
            && m.error is None && exists|i: int|
            0 <= i < entries.len() && entries[i].key == m.key && #[trigger] sends(
                entries[i].command,
                active,
                m.text,
            ) by {
            let at = choose|at: int| 0 <= at < after.len() && after[at] == m;
            if at < before.len() {
                assert(before[at] == m);
                assert(before.contains(m));
                let i = choose|i: int|
                    0 <= i < init.len() && init[i].key == m.key && #[trigger] sends(
                        init[i].command,
                        active,
                        m.text,
                    );
                assert(sends(entries[i].command, active, m.text));
            } else {
                assert(sends(entries[entries.len() - 1].command, active, m.text));
            }
        }
    }
}

proof fn lemma_failed(active: Seq<char>, entries: Seq<FailedEntry>)
    ensures
        forall|i: int, words: String|
            0 <= i < entries.len() && #[trigger] sends(entries[i].command, active, words)
                ==> failed_messages(active, entries).contains(
                DeliveryMessage {
                    key: entries[i].key,
                    text: words,
                    error: Some(entries[i].message),
                    acknowledged: false,
                },
            ),
        forall|m: DeliveryMessage| #[trigger]
            failed_messages(active, entries).contains(m) ==> !m.acknowledged && m.error is Some
                && exists|i: int|
                0 <= i < entries.len() && entries[i].key == m.key && m.error == Some(
                    entries[i].message,
                ) && #[trigger] sends(entries[i].command, active, m.text),
    decreases entries.len(),
{
    if entries.len() > 0 {
        let init = entries.drop_last();
        let before = failed_messages(active, init);
        let after = failed_messages(active, entries);
        lemma_failed(active, init);
        assert forall|m: DeliveryMessage| #[trigger] before.contains(m) implies after.contains(
            m,
        ) by {
            let i = choose|i: int| 0 <= i < before.len() && before[i] == m;
            assert(after[i] == m);
        }
        assert forall|i: int, words: String|
            0 <= i < entries.len() && #[trigger] sends(
                entries[i].command,
                active,
                words,
            ) implies after.contains(
            DeliveryMessage {
                key: entries[i].key,
                text: words,
                error: Some(entries[i].message),
                acknowledged: false,
            },
        ) by {
            if i < init.len() {
                assert(init[i] == entries[i]);
                assert(sends(init[i].command, active, words));
            } else {
                assert(after.last() == DeliveryMessage {
                    key: entries[i].key,
                    text: words,
                    error: Some(entries[i].message),
                    acknowledged: false,
                });
            }
        }
        assert forall|m: DeliveryMessage| #[trigger] after.contains(m) implies !m.acknowledged
            && m.error is Some && exists|i: int|
            0 <= i < entries.len() && entries[i].key == m.key && m.error == Some(
                entries[i].message,
            ) && #[trigger] sends(entries[i].command, active, m.text) by {
            let at = choose|at: int| 0 <= at < after.len() && after[at] == m;
            if at < before.len() {
                assert(before[at] == m);
                assert(before.contains(m));
                let i = choose|i: int|
                    0 <= i < init.len() && init[i].key == m.key && m.error == Some(
                        init[i].message,
                    ) && #[trigger] sends(init[i].command, active, m.text);
                assert(sends(entries[i].command, active, m.text));
            } else {
                assert(sends(entries[entries.len() - 1].command, active, m.text));
            }
        }
    }
}

/// The acknowledged messages on screen are those that nothing shows yet; all others are
/// retired.
proof fn lemma_acknowledged(state: StoreModel, entries: Seq<OutboxEntry>)
    ensures
        forall|i: int, words: String|
            0 <= i < entries.len() && #[trigger] sends(entries[i].command, state.active(), words)
                ==> if state.adopted(entries[i].key@, words@) {
                state.retired(entries).contains(
                    Effect::RetireAcknowledged { key: entries[i].key },
                )
            } else {
                state.acknowledged_messages(entries).contains(
                    DeliveryMessage {
                        key: entries[i].key,
                        text: words,
                        error: None,
                        acknowledged: true,
                    },
                )
            },
        forall|m: DeliveryMessage| #[trigger]
            state.acknowledged_messages(entries).contains(m) ==> m.acknowledged && m.error is None
                && !state.adopted(m.key@, m.text@) && exists|i: int|
                0 <= i < entries.len() && entries[i].key == m.key && #[trigger] sends(
                    entries[i].command,
                    state.active(),
                    m.text,
                ),
        forall|e: Effect| #[trigger]
            state.retired(entries).contains(e) ==> exists|i: int, words: String|
                0 <= i < entries.len() && e == (Effect::RetireAcknowledged { key: entries[i].key })
                    && state.adopted(entries[i].key@, words@) && #[trigger] sends(
                    entries[i].command,
                    state.active(),
                    words,
                ),
    decreases entries.len(),
{
    let active = state.active();
    if entries.len() > 0 {
        let init = entries.drop_last();
        let end = entries.len() - 1;
        let before = state.acknowledged_messages(init);
        let after = state.acknowledged_messages(entries);
        let old_gone = state.retired(init);
        let gone = state.retired(entries);
        lemma_acknowledged(state, init);
        assert forall|m: DeliveryMessage| #[trigger] before.contains(m) implies after.contains(
            m,
        ) by {
            let i = choose|i: int| 0 <= i < before.len() && before[i] == m;
            assert(after[i] == m);
        }
        assert forall|e: Effect| #[trigger] old_gone.contains(e) implies gone.contains(e) by {
            let i = choose|i: int| 0 <= i < old_gone.len() && old_gone[i] == e;
            assert(gone[i] == e);
        }
        assert forall|i: int, words: String|
            0 <= i < entries.len() && #[trigger] sends(
                entries[i].command,
                active,
                words,
            ) implies if state.adopted(entries[i].key@, words@) {
            gone.contains(Effect::RetireAcknowledged { key: entries[i].key })
        } else {
            after.contains(
                DeliveryMessage {
                    key: entries[i].key,
                    text: words,
                    error: None,
                    acknowledged: true,
                },
            )
        } by {
            if i < init.len() {
                assert(init[i] == entries[i]);
                assert(sends(init[i].command, active, words));
            } else if state.adopted(entries[i].key@, words@) {
                assert(gone.last() == Effect::RetireAcknowledged { key: entries[i].key });
            } else {
                assert(after.last() == DeliveryMessage {
                    key: entries[i].key,
                    text: words,
                    error: None,
                    acknowledged: true,
                });
            }
        }
        assert forall|m: DeliveryMessage| #[trigger] after.contains(m) implies m.acknowledged
            && m.error is None && !state.adopted(m.key@, m.text@) && exists|i: int|
            0 <= i < entries.len() && entries[i].key == m.key && #[trigger] sends(
                entries[i].command,
                active,
                m.text,
            ) by {
            let at = choose|at: int| 0 <= at < after.len() && after[at] == m;
            if at < before.len() {
                assert(before[at] == m);
                assert(before.contains(m));
                let i = choose|i: int|
                    0 <= i < init.len() && init[i].key == m.key && #[trigger] sends(
                        init[i].command,
                        active,
                        m.text,
                    );
                assert(sends(entries[i].command, active, m.text));
            } else {
                assert(sends(entries[end].command, active, m.text));
            }
        }
        assert forall|e: Effect| #[trigger] gone.contains(e) implies exists|i: int, words: String|
            0 <= i < entries.len() && e == (Effect::RetireAcknowledged { key: entries[i].key })
                && state.adopted(entries[i].key@, words@) && #[trigger] sends(
                entries[i].command,
                active,
                words,
            ) by {
            let at = choose|at: int| 0 <= at < gone.len() && gone[at] == e;
            if at < old_gone.len() {
                assert(old_gone[at] == e);
                assert(old_gone.contains(e));
                let (i, words) = choose|i: int, words: String|
                    0 <= i < init.len() && e == (Effect::RetireAcknowledged { key: init[i].key })
                        && state.adopted(init[i].key@, words@) && #[trigger] sends(
                        init[i].command,
                        active,
                        words,
                    );
                assert(sends(entries[i].command, active, words));
            } else {
                let words = match entries[end].command.message() {
                    Some((_, words)) => words,
                    None => arbitrary(),
                };
                assert(sends(entries[end].command, active, words));
            }
        }
    }
}

proof fn lemma_parts(state: StoreModel, outbox: Outbox, m: DeliveryMessage)
    ensures
        state.delivery_messages(outbox).contains(m) <==> pending_messages(
            state.active(),
            outbox.pending@,
        ).contains(m) || failed_messages(state.active(), outbox.failed@).contains(m)
            || state.acknowledged_messages(outbox.acknowledged@).contains(m),
{
    let a = pending_messages(state.active(), outbox.pending@);
    let b = failed_messages(state.active(), outbox.failed@);
    let c = state.acknowledged_messages(outbox.acknowledged@);
    let all = a + b + c;
    if a.contains(m) {
        let i = choose|i: int| 0 <= i < a.len() && a[i] == m;
        assert(all[i] == m);
    }
    if b.contains(m) {
        let i = choose|i: int| 0 <= i < b.len() && b[i] == m;
        assert(all[a.len() + i] == m);
    }
    if c.contains(m) {
        let i = choose|i: int| 0 <= i < c.len() && c[i] == m;
        assert(all[a.len() + b.len() + i] == m);
    }
    if all.contains(m) {
        let i = choose|i: int| 0 <= i < all.len() && all[i] == m;
        if i < a.len() {
            assert(a[i] == m);
        } else if i < a.len() + b.len() {
            assert(b[i - a.len()] == m);
        } else {
            assert(c[i - a.len() - b.len()] == m);
        }
    }
}

/// Every message that waits for the host, and was sent to the session on screen, is
/// shown with its words and as not refused; and nothing else is shown that way.
pub proof fn law_waiting_messages_are_shown(
    state: StoreModel,
    outbox: Outbox,
    session: String,
    key: String,
    words: String,
)
    requires
        state.selected == Some(session),
    ensures
        state.delivery_messages(outbox).contains(
            DeliveryMessage { key, text: words, error: None, acknowledged: false },
        ) <==> exists|i: int|
            0 <= i < outbox.pending@.len() && outbox.pending@[i].key == key && #[trigger] sends(
                outbox.pending@[i].command,
                session@,
                words,
            ),
{
    let m = DeliveryMessage { key, text: words, error: None, acknowledged: false };
    lemma_pending(session@, outbox.pending@);
    lemma_failed(session@, outbox.failed@);
    lemma_acknowledged(state, outbox.acknowledged@);
    lemma_parts(state, outbox, m);
}

/// Every message that the host refused, and was sent to the session on screen, is shown
/// with its words and the reason; and nothing else is shown that way.
pub proof fn law_refused_messages_are_shown(
    state: StoreModel,
    outbox: Outbox,
    session: String,
    key: String,
    words: String,
    reason: String,
)
    requires
        state.selected == Some(session),
    ensures
        state.delivery_messages(outbox).contains(
            DeliveryMessage { key, text: words, error: Some(reason), acknowledged: false },
        ) <==> exists|i: int|
            0 <= i < outbox.failed@.len() && outbox.failed@[i].key == key
                && outbox.failed@[i].message == reason && #[trigger] sends(
                outbox.failed@[i].command,
                session@,
                words,
            ),
{
    let m = DeliveryMessage { key, text: words, error: Some(reason), acknowledged: false };
    lemma_pending(session@, outbox.pending@);
    lemma_failed(session@, outbox.failed@);
    lemma_acknowledged(state, outbox.acknowledged@);
    lemma_parts(state, outbox, m);
}

/// An acknowledged message whose delivery the timeline records under its key, as a turn or
/// as words into a running one, is shown no longer, and is forgotten.
pub proof fn law_a_message_recorded_under_its_key_is_retired(
    state: StoreModel,
    outbox: Outbox,
    session: String,
    i: int,
    words: String,
    at: int,
)
    requires
        state.selected == Some(session),
        0 <= i < outbox.acknowledged@.len(),
        sends(outbox.acknowledged@[i].command, session@, words),
        state.timeline is Some,
        0 <= at < state.timeline->0.timeline.entries@.len(),
        state.timeline->0.timeline.entries@[at].id@ == "local-user-"@ + outbox.acknowledged@[i].key@
            || state.timeline->0.timeline.entries@[at].id@ == "local-steer-"@
            + outbox.acknowledged@[i].key@,
    ensures
        forall|m: DeliveryMessage| #[trigger]
            state.delivery_messages(outbox).contains(m) && m.acknowledged ==> m.key@
                != outbox.acknowledged@[i].key@,
        state.retire_adopted(outbox).effects.contains(
            Effect::RetireAcknowledged { key: outbox.acknowledged@[i].key },
        ),
{
    let key = outbox.acknowledged@[i].key;
    lemma_shown_adopted(state, key@, at);
    lemma_gone(state, outbox, i, words);
    assert forall|m: DeliveryMessage| #[trigger]
        state.delivery_messages(outbox).contains(m) && m.acknowledged implies m.key@ != key@ by {
        lemma_only_unadopted(state, outbox, m);
        if m.key@ == key@ {
            lemma_shown_adopted(state, m.key@, at);
        }
    }
}

proof fn lemma_shown_adopted(state: StoreModel, key: Seq<char>, at: int)
    requires
        state.timeline is Some,
        0 <= at < state.timeline->0.timeline.entries@.len(),
        state.timeline->0.timeline.entries@[at].id@ == "local-user-"@ + key
            || state.timeline->0.timeline.entries@[at].id@ == "local-steer-"@ + key,
    ensures
        forall|text: Seq<char>| state.adopted(key, text),
{
    assert forall|text: Seq<char>| state.adopted(key, text) by {
        let entry = state.timeline->0.timeline.entries@[at];
        assert(crate::store::model::recorded_as(entry, key, text));
    }
}

proof fn lemma_only_unadopted(state: StoreModel, outbox: Outbox, m: DeliveryMessage)
    requires
        state.delivery_messages(outbox).contains(m),
        m.acknowledged,
    ensures
        !state.adopted(m.key@, m.text@),
{
    lemma_pending(state.active(), outbox.pending@);
    lemma_failed(state.active(), outbox.failed@);
    lemma_acknowledged(state, outbox.acknowledged@);
    lemma_parts(state, outbox, m);
}

proof fn lemma_gone(state: StoreModel, outbox: Outbox, i: int, words: String)
    requires
        0 <= i < outbox.acknowledged@.len(),
        sends(outbox.acknowledged@[i].command, state.active(), words),
        state.adopted(outbox.acknowledged@[i].key@, words@),
    ensures
        state.retire_adopted(outbox).effects.contains(
            Effect::RetireAcknowledged { key: outbox.acknowledged@[i].key },
        ),
{
    lemma_acknowledged(state, outbox.acknowledged@);
    let gone = state.retired(outbox.acknowledged@);
    let effect = Effect::RetireAcknowledged { key: outbox.acknowledged@[i].key };
    let at = choose|at: int| 0 <= at < gone.len() && gone[at] == effect;
    assert(state.retire_adopted(outbox).effects[state.effects.len() + at] == effect);
}

/// An acknowledged message whose words stand in the timeline as a message of the user is
/// shown no longer, and is forgotten.
pub proof fn law_a_message_that_the_thread_shows_is_retired(
    state: StoreModel,
    outbox: Outbox,
    session: String,
    i: int,
    words: String,
    at: int,
)
    requires
        state.selected == Some(session),
        0 <= i < outbox.acknowledged@.len(),
        sends(outbox.acknowledged@[i].command, session@, words),
        state.timeline is Some,
        0 <= at < state.timeline->0.timeline.entries@.len(),
        state.timeline->0.timeline.entries@[at].user_message is Some,
        state.timeline->0.timeline.entries@[at].user_message->0.text@ == words@,
    ensures
        forall|m: DeliveryMessage| #[trigger]
            state.delivery_messages(outbox).contains(m) && m.acknowledged ==> m.text@ != words@,
        state.retire_adopted(outbox).effects.contains(
            Effect::RetireAcknowledged { key: outbox.acknowledged@[i].key },
        ),
{
    let entry = state.timeline->0.timeline.entries@[at];
    assert forall|key: Seq<char>| state.adopted(key, words@) by {
        assert(crate::store::model::recorded_as(entry, key, words@));
    }
    lemma_gone(state, outbox, i, words);
    assert forall|m: DeliveryMessage| #[trigger]
        state.delivery_messages(outbox).contains(m) && m.acknowledged implies m.text@ != words@ by {
        lemma_only_unadopted(state, outbox, m);
    }
}

/// An acknowledged message that the host has queued, under its key or, where the queue
/// names no delivery, with its words, is shown no longer, and is forgotten.
pub proof fn law_a_queued_message_is_retired(
    state: StoreModel,
    outbox: Outbox,
    session: String,
    i: int,
    words: String,
    at: int,
)
    requires
        state.selected == Some(session),
        0 <= i < outbox.acknowledged@.len(),
        sends(outbox.acknowledged@[i].command, session@, words),
        state.status is Some,
        0 <= at < state.status->0.queued_messages@.len(),
        match state.status->0.queued_messages@[at].delivery_key {
            Some(key) => key@ == outbox.acknowledged@[i].key@,
            None => state.status->0.queued_messages@[at].text@ == words@,
        },
    ensures
        forall|m: DeliveryMessage| #[trigger]
            state.delivery_messages(outbox).contains(m) && m.acknowledged ==> m.text@ != words@
                || m.key@ != outbox.acknowledged@[i].key@,
        state.retire_adopted(outbox).effects.contains(
            Effect::RetireAcknowledged { key: outbox.acknowledged@[i].key },
        ),
{
    let key = outbox.acknowledged@[i].key;
    let queued = state.status->0.queued_messages@[at];
    assert(crate::store::model::queued_as(queued, key@, words@));
    lemma_gone(state, outbox, i, words);
    assert forall|m: DeliveryMessage| #[trigger]
        state.delivery_messages(outbox).contains(m) && m.acknowledged implies m.text@ != words@
        || m.key@ != key@ by {
        lemma_only_unadopted(state, outbox, m);
    }
}

/// An acknowledged message that neither the timeline nor the queue has is still shown,
/// with its words; and what is forgotten is a message of the session on screen that one
/// of them has.
pub proof fn law_an_acknowledged_message_stays_until_it_is_shown(
    state: StoreModel,
    outbox: Outbox,
    session: String,
    i: int,
    words: String,
)
    requires
        state.selected == Some(session),
        0 <= i < outbox.acknowledged@.len(),
        sends(outbox.acknowledged@[i].command, session@, words),
        state.timeline is Some ==> forall|at: int|
            0 <= at < state.timeline->0.timeline.entries@.len() ==> {
                let entry = #[trigger] state.timeline->0.timeline.entries@[at];
                &&& entry.id@ != "local-user-"@ + outbox.acknowledged@[i].key@
                &&& entry.id@ != "local-steer-"@ + outbox.acknowledged@[i].key@
                &&& entry.user_message is Some ==> entry.user_message->0.text@ != words@
            },
        state.status is Some ==> forall|at: int|
            0 <= at < state.status->0.queued_messages@.len() ==> {
                let queued = #[trigger] state.status->0.queued_messages@[at];
                match queued.delivery_key {
                    Some(key) => key@ != outbox.acknowledged@[i].key@,
                    None => queued.text@ != words@,
                }
            },
    ensures
        state.delivery_messages(outbox).contains(
            DeliveryMessage {
                key: outbox.acknowledged@[i].key,
                text: words,
                error: None,
                acknowledged: true,
            },
        ),
{
    let key = outbox.acknowledged@[i].key;
    assert(!state.adopted(key@, words@));
    lemma_acknowledged(state, outbox.acknowledged@);
    lemma_parts(
        state,
        outbox,
        DeliveryMessage { key, text: words, error: None, acknowledged: true },
    );
}

/// Only messages are forgotten, and only those that were acknowledged: nothing else is
/// done about deliveries.
pub proof fn law_only_acknowledged_messages_are_retired(state: StoreModel, outbox: Outbox, n: int)
    requires
        state.effects.len() <= n < state.retire_adopted(outbox).effects.len(),
    ensures
        state.retire_adopted(outbox).effects.take(state.effects.len() as int) == state.effects,
        exists|i: int|
            0 <= i < outbox.acknowledged@.len() && state.retire_adopted(outbox).effects[n] == (
            Effect::RetireAcknowledged { key: (#[trigger] outbox.acknowledged@[i]).key }),
{
    lemma_acknowledged(state, outbox.acknowledged@);
    let gone = state.retired(outbox.acknowledged@);
    let effect = gone[n - state.effects.len()];
    assert(state.retire_adopted(outbox).effects.take(state.effects.len() as int) =~= state.effects);
    assert(gone.contains(effect));
    let (i, words) = choose|i: int, words: String|
        0 <= i < outbox.acknowledged@.len() && effect == (Effect::RetireAcknowledged {
            key: outbox.acknowledged@[i].key,
        }) && state.adopted(outbox.acknowledged@[i].key@, words@) && #[trigger] sends(
            outbox.acknowledged@[i].command,
            state.active(),
            words,
        );
    assert(outbox.acknowledged@[i].key == outbox.acknowledged@[i].key);
}

/// An answer to an approval request counts as on its way exactly while it waits in the
/// outbox for the session on screen.
pub proof fn law_a_waiting_answer_is_on_its_way(
    state: StoreModel,
    pending: Seq<OutboxEntry>,
    request: Seq<char>,
)
    ensures
        answers_pending(state, pending, request) <==> exists|i: int|
            0 <= i < pending.len() && (match (#[trigger] pending[i]).command {
                Command::RespondApproval { session_id, request_id, .. } => request_id@ == request
                    && state.selected is Some && state.selected->0@ == session_id@,
                _ => false,
            }),
{
    if answers_pending(state, pending, request) {
        let i = choose|i: int|
            0 <= i < pending.len() && crate::store::delivery::answers(
                (#[trigger] pending[i]).command,
                state,
                request,
            );
        assert(crate::store::delivery::answers(pending[i].command, state, request));
    }
    if exists|i: int|
        0 <= i < pending.len() && (match (#[trigger] pending[i]).command {
            Command::RespondApproval { session_id, request_id, .. } => request_id@ == request
                && state.selected is Some && state.selected->0@ == session_id@,
            _ => false,
        }) {
        let i = choose|i: int|
            0 <= i < pending.len() && (match (#[trigger] pending[i]).command {
                Command::RespondApproval { session_id, request_id, .. } => request_id@ == request
                    && state.selected is Some && state.selected->0@ == session_id@,
                _ => false,
            });
        assert(crate::store::delivery::answers(pending[i].command, state, request));
    }
}

/// A session is listed as waiting exactly if a command waits for it; a session whose first
/// command is a message is listed with the words of that message.
pub proof fn law_sessions_that_wait_are_listed(entries: Seq<OutboxEntry>, id: Seq<char>)
    ensures
        waiting_sessions(entries).contains(id) <==> exists|i: int|
            0 <= i < entries.len() && (#[trigger] entries[i]).session_id is Some
                && entries[i].session_id->0@ == id,
    decreases entries.len(),
{
    if entries.len() > 0 {
        let init = entries.drop_last();
        let last = entries.len() - 1;
        let before = waiting_sessions(init);
        let after = waiting_sessions(entries);
        law_sessions_that_wait_are_listed(init, id);
        if before.contains(id) {
            let k = choose|k: int| 0 <= k < before.len() && before[k] == id;
            assert(after[k] == id);
            let i = choose|i: int|
                0 <= i < init.len() && (#[trigger] init[i]).session_id is Some
                    && init[i].session_id->0@ == id;
            assert(entries[i].session_id is Some && entries[i].session_id->0@ == id);
        } else {
            assert forall|i: int| 0 <= i < last implies !((#[trigger] entries[i]).session_id is Some
                && entries[i].session_id->0@ == id) by {
                assert(init[i] == entries[i]);
            }
            if entries[last].session_id is Some && entries[last].session_id->0@ == id {
                assert(after.last() == id);
            } else if after.contains(id) {
                let k = choose|k: int| 0 <= k < after.len() && after[k] == id;
                assert(before[k] == id);
            }
        }
    }
}

/// The preview of a session that waits is what its first waiting command says: the words
/// of a message, and nothing of any other command.
pub proof fn law_a_waiting_session_shows_its_first_words(
    entries: Seq<OutboxEntry>,
    first: int,
    words: String,
)
    requires
        0 <= first < entries.len(),
        entries[first].session_id is Some,
        sends(entries[first].command, entries[first].session_id->0@, words),
        forall|i: int|
            0 <= i < first ==> !((#[trigger] entries[i]).session_id is Some
                && entries[i].session_id->0@ == entries[first].session_id->0@),
    ensures
        exists|k: int|
            0 <= k < waiting_sessions(entries).len() && #[trigger] waiting_sessions(entries)[k]
                == entries[first].session_id->0@ && waiting_previews(entries)[k] == words@,
    decreases entries.len(),
{
    let id = entries[first].session_id->0@;
    let init = entries.drop_last();
    crate::store::delivery::law_pending_sessions_are_distinct(init);
    if first == entries.len() - 1 {
        law_sessions_that_wait_are_listed(init, id);
        assert(!waiting_sessions(init).contains(id)) by {
            assert forall|i: int| 0 <= i < init.len() implies !((
            #[trigger] init[i]).session_id is Some && init[i].session_id->0@ == id) by {
                assert(init[i] == entries[i]);
            }
        }
        let k = waiting_sessions(init).len() as int;
        assert(waiting_sessions(entries)[k] == id);
        assert(waiting_previews(entries)[k] == words@);
    } else {
        assert(init[first] == entries[first]);
        assert forall|i: int| 0 <= i < first implies !((#[trigger] init[i]).session_id is Some
            && init[i].session_id->0@ == id) by {
            assert(init[i] == entries[i]);
        }
        law_a_waiting_session_shows_its_first_words(init, first, words);
        let k = choose|k: int|
            0 <= k < waiting_sessions(init).len() && #[trigger] waiting_sessions(init)[k] == id
                && waiting_previews(init)[k] == words@;
        assert(waiting_sessions(entries)[k] == id);
    }
}

} // verus!
