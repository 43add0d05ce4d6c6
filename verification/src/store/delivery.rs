//! Messages between the composer and the host.
use crate::command::{Command, Effect, FailedEntry, Outbox, OutboxEntry};
use crate::protocol::{QueuedMessage, TimelineEntry};
use crate::store::model::{
    any_queued, any_recorded, failed_messages, message_for, pending_messages, queued_as,
    recorded_as, StoreModel,
};
use crate::store::{DeliveryMessage, WorkspaceStore};
use vstd::prelude::*;

verus! {

fn words_for(command: &Command, active: &str) -> (text: Option<String>)
    ensures
        text == message_for(*command, active@),
{
    match command.as_message() {
        Some(message) => {
            if *message.0.as_str() == *active {
                Some(message.1.clone())
            } else {
                None
            }
        },
        None => None,
    }
}

fn push_pending(messages: &mut Vec<DeliveryMessage>, entries: &Vec<OutboxEntry>, active: &str)
    ensures
        final(messages)@ == old(messages)@ + pending_messages(active@, entries@),
{
    let ghost before = messages@;
    let mut i: usize = 0;
    assert(entries@.take(0) =~= Seq::<OutboxEntry>::empty());
    assert(messages@ =~= before + pending_messages(active@, entries@.take(0)));
    while i < entries.len()
        invariant
            i <= entries@.len(),
            messages@ == before + pending_messages(active@, entries@.take(i as int)),
        decreases entries@.len() - i,
    {
        proof {
            assert(entries@.take(i + 1).drop_last() =~= entries@.take(i as int));
            assert(entries@.take(i + 1).last() == entries@[i as int]);
        }
        match words_for(&entries[i].command, active) {
            Some(text) => {
                messages.push(
                    DeliveryMessage {
                        key: entries[i].key.clone(),
                        text,
                        error: None,
                        acknowledged: false,
                    },
                );
            },
            None => {},
        }
        assert(messages@ =~= before + pending_messages(active@, entries@.take(i + 1)));
        i += 1;
    }
    assert(entries@.take(i as int) =~= entries@);
}

fn push_failed(messages: &mut Vec<DeliveryMessage>, entries: &Vec<FailedEntry>, active: &str)
    ensures
        final(messages)@ == old(messages)@ + failed_messages(active@, entries@),
{
    let ghost before = messages@;
    let mut i: usize = 0;
    assert(entries@.take(0) =~= Seq::<FailedEntry>::empty());
    assert(messages@ =~= before + failed_messages(active@, entries@.take(0)));
    while i < entries.len()
        invariant
            i <= entries@.len(),
            messages@ == before + failed_messages(active@, entries@.take(i as int)),
        decreases entries@.len() - i,
    {
        proof {
            assert(entries@.take(i + 1).drop_last() =~= entries@.take(i as int));
            assert(entries@.take(i + 1).last() == entries@[i as int]);
        }
        match words_for(&entries[i].command, active) {
            Some(text) => {
                messages.push(
                    DeliveryMessage {
                        key: entries[i].key.clone(),
                        text,
                        error: Some(entries[i].message.clone()),
                        acknowledged: false,
                    },
                );
            },
            None => {},
        }
        assert(messages@ =~= before + failed_messages(active@, entries@.take(i + 1)));
        i += 1;
    }
    assert(entries@.take(i as int) =~= entries@);
}

fn is_queued(queued: &Vec<QueuedMessage>, key: &str, text: &str) -> (found: bool)
    ensures
        found == any_queued(queued@, key@, text@),
{
    let mut i: usize = 0;
    while i < queued.len()
        invariant
            i <= queued@.len(),
            forall|j: int| 0 <= j < i ==> !queued_as(#[trigger] queued@[j], key@, text@),
        decreases queued@.len() - i,
    {
        let hit = match &queued[i].delivery_key {
            Some(delivery) => *delivery.as_str() == *key,
            None => *queued[i].text.as_str() == *text,
        };
        if hit {
            assert(queued_as(queued@[i as int], key@, text@));
            return true;
        }
        i += 1;
    }
    false
}

fn is_recorded(entries: &Vec<TimelineEntry>, key: &str, text: &str) -> (found: bool)
    ensures
        found == any_recorded(entries@, key@, text@),
{
    let mut sent = String::new();
    sent.append("local-user-");
    sent.append(key);
    let mut steered = String::new();
    steered.append("local-steer-");
    steered.append(key);
    assert(sent@ =~= "local-user-"@ + key@);
    assert(steered@ =~= "local-steer-"@ + key@);
    let mut i: usize = 0;
    while i < entries.len()
        invariant
            i <= entries@.len(),
            sent@ == "local-user-"@ + key@,
            steered@ == "local-steer-"@ + key@,
            forall|j: int| 0 <= j < i ==> !recorded_as(#[trigger] entries@[j], key@, text@),
        decreases entries@.len() - i,
    {
        let says = match &entries[i].user_message {
            Some(message) => *message.text.as_str() == *text,
            None => false,
        };
        if entries[i].id == sent || entries[i].id == steered || says {
            assert(recorded_as(entries@[i as int], key@, text@));
            return true;
        }
        i += 1;
    }
    false
}

/// What the outbox comes to on screen.
pub struct Deliveries {
    pub messages: Vec<DeliveryMessage>,
    /// Acknowledged messages to forget.
    pub retired: Vec<Effect>,
}

impl WorkspaceStore {
    fn is_adopted(&self, key: &str, text: &str) -> (adopted: bool)
        ensures
            adopted == self@.adopted(key@, text@),
    {
        let queued = match &self.session_status_replica {
            Some(status) => is_queued(&status.queued_messages, key, text),
            None => false,
        };
        let recorded = match &self.session_replica {
            Some(replica) => is_recorded(&replica.timeline.entries, key, text),
            None => false,
        };
        queued || recorded
    }

    /// What the selected session shows as being delivered: waiting, refused,
    /// and acknowledged but not on screen yet. An acknowledged message that is
    /// on screen is to be forgotten, so that a later rewind does not bring its
    /// placeholder back.
    pub fn delivery_messages(&self, outbox: &Outbox) -> (deliveries: Deliveries)
        ensures
            deliveries.messages@ == self@.delivery_messages(*outbox),
            deliveries.retired@ == self@.retired(outbox.acknowledged@),
    {
        let active = self.active_id();
        let mut messages: Vec<DeliveryMessage> = Vec::new();
        push_pending(&mut messages, &outbox.pending, active.as_str());
        push_failed(&mut messages, &outbox.failed, active.as_str());
        let ghost sent = messages@;
        let mut retired: Vec<Effect> = Vec::new();
        let entries = &outbox.acknowledged;
        let mut i: usize = 0;
        assert(entries@.take(0) =~= Seq::<OutboxEntry>::empty());
        assert(messages@ =~= sent + self@.acknowledged_messages(entries@.take(0)));
        while i < entries.len()
            invariant
                i <= entries@.len(),
                active@ == self@.active(),
                messages@ == sent + self@.acknowledged_messages(entries@.take(i as int)),
                retired@ == self@.retired(entries@.take(i as int)),
            decreases entries@.len() - i,
        {
            proof {
                assert(entries@.take(i + 1).drop_last() =~= entries@.take(i as int));
                assert(entries@.take(i + 1).last() == entries@[i as int]);
            }
            match words_for(&entries[i].command, active.as_str()) {
                Some(text) => {
                    if self.is_adopted(entries[i].key.as_str(), text.as_str()) {
                        retired.push(Effect::RetireAcknowledged { key: entries[i].key.clone() });
                    } else {
                        messages.push(
                            DeliveryMessage {
                                key: entries[i].key.clone(),
                                text,
                                error: None,
                                acknowledged: true,
                            },
                        );
                    }
                },
                None => {},
            }
            assert(messages@ =~= sent + self@.acknowledged_messages(entries@.take(i + 1)));
            i += 1;
        }
        assert(entries@.take(i as int) =~= entries@);
        assert(messages@ =~= self@.delivery_messages(*outbox));
        Deliveries { messages, retired }
    }

    /// Queue the forgetting of adopted messages; report whether any message is
    /// still being delivered.
    pub(crate) fn retire_adopted(&mut self, outbox: &Outbox) -> (delivering: bool)
        ensures
            final(self)@ == old(self)@.retire_adopted(*outbox),
            delivering == (old(self)@.delivery_messages(*outbox).len() > 0),
    {
        let deliveries = self.delivery_messages(outbox);
        let mut retired = deliveries.retired;
        let delivering = deliveries.messages.len() > 0;
        self.effects.append(&mut retired);
        assert(self@ =~= old(self)@.retire_adopted(*outbox));
        delivering
    }

    /// Whether an answer to this approval request is still on its way.
    pub fn approval_delivery_pending(&self, outbox: &Outbox, request: &str) -> (pending: bool)
        ensures
            pending == answers_pending(self@, outbox.pending@, request@),
    {
        let mut i: usize = 0;
        while i < outbox.pending.len()
            invariant
                i <= outbox.pending@.len(),
                forall|j: int|
                    0 <= j < i ==> !answers(
                        (#[trigger] outbox.pending@[j]).command,
                        self@,
                        request@,
                    ),
            decreases outbox.pending@.len() - i,
        {
            let hit = match &outbox.pending[i].command {
                Command::RespondApproval { session_id, request_id, .. } => *request_id.as_str()
                    == *request && self.selects(session_id.as_str()),
                _ => false,
            };
            if hit {
                assert(answers(outbox.pending@[i as int].command, self@, request@));
                return true;
            }
            i += 1;
        }
        false
    }

    /// The sessions with commands waiting, each once, with the first command's
    /// words.
    pub fn pending_sessions(outbox: &Outbox) -> (sessions: Vec<(String, String)>)
        ensures
            names(sessions@) == waiting_sessions(outbox.pending@),
            previews(sessions@) == waiting_previews(outbox.pending@),
    {
        let mut sessions: Vec<(String, String)> = Vec::new();
        let entries = &outbox.pending;
        let mut i: usize = 0;
        assert(entries@.take(0) =~= Seq::<OutboxEntry>::empty());
        assert(names(sessions@) =~= waiting_sessions(entries@.take(0)));
        assert(previews(sessions@) =~= waiting_previews(entries@.take(0)));
        while i < entries.len()
            invariant
                i <= entries@.len(),
                names(sessions@) == waiting_sessions(entries@.take(i as int)),
                previews(sessions@) == waiting_previews(entries@.take(i as int)),
            decreases entries@.len() - i,
        {
            let ghost before = sessions@;
            proof {
                assert(entries@.take(i + 1).drop_last() =~= entries@.take(i as int));
                assert(entries@.take(i + 1).last() == entries@[i as int]);
            }
            match &entries[i].session_id {
                Some(id) => {
                    if !lists(&sessions, id.as_str()) {
                        let preview = match entries[i].command.as_message() {
                            Some(message) => message.1.clone(),
                            None => String::new(),
                        };
                        sessions.push((id.clone(), preview));
                        assert(names(sessions@) =~= names(before).push(id@));
                        assert(previews(sessions@) =~= previews(before).push(preview@));
                    }
                },
                None => {},
            }
            i += 1;
        }
        assert(entries@.take(i as int) =~= entries@);
        sessions
    }

    /// Whether a session has commands waiting.
    pub fn session_has_pending_writes(outbox: &Outbox, id: &str) -> (pending: bool)
        ensures
            pending == waiting_sessions(outbox.pending@).contains(id@),
    {
        let sessions = Self::pending_sessions(outbox);
        lists(&sessions, id)
    }

    pub fn pending_write_count(outbox: &Outbox) -> (count: usize)
        ensures
            count == outbox.pending@.len(),
    {
        outbox.pending.len()
    }
}

/// A command answers this approval request of the selected session.
pub open spec fn answers(command: Command, state: StoreModel, request: Seq<char>) -> bool {
    match command {
        Command::RespondApproval { session_id, request_id, .. } => request_id@ == request
            && state.selects(session_id@),
        _ => false,
    }
}

pub open spec fn answers_pending(
    state: StoreModel,
    pending: Seq<OutboxEntry>,
    request: Seq<char>,
) -> bool {
    exists|i: int|
        0 <= i < pending.len() && answers((#[trigger] pending[i]).command, state, request)
}

/// The sessions that commands wait for, in the order of their first command.
pub open spec fn waiting_sessions(entries: Seq<OutboxEntry>) -> Seq<Seq<char>>
    decreases entries.len(),
{
    if entries.len() == 0 {
        Seq::empty()
    } else {
        let before = waiting_sessions(entries.drop_last());
        match entries.last().session_id {
            Some(id) => if before.contains(id@) {
                before
            } else {
                before.push(id@)
            },
            None => before,
        }
    }
}

/// The words of the first command waiting for each of those sessions.
pub open spec fn waiting_previews(entries: Seq<OutboxEntry>) -> Seq<Seq<char>>
    decreases entries.len(),
{
    if entries.len() == 0 {
        Seq::empty()
    } else {
        let before = waiting_previews(entries.drop_last());
        match entries.last().session_id {
            Some(id) => if waiting_sessions(entries.drop_last()).contains(id@) {
                before
            } else {
                before.push(
                    match entries.last().command.message() {
                        Some(message) => message.1@,
                        None => Seq::empty(),
                    },
                )
            },
            None => before,
        }
    }
}

/// The ids of a list of sessions with previews.
pub open spec fn names(sessions: Seq<(String, String)>) -> Seq<Seq<char>> {
    Seq::new(sessions.len(), |i: int| sessions[i].0@)
}

/// The previews of a list of sessions with previews.
pub open spec fn previews(sessions: Seq<(String, String)>) -> Seq<Seq<char>> {
    Seq::new(sessions.len(), |i: int| sessions[i].1@)
}

fn lists(sessions: &Vec<(String, String)>, id: &str) -> (listed: bool)
    ensures
        listed == names(sessions@).contains(id@),
{
    let mut i: usize = 0;
    while i < sessions.len()
        invariant
            i <= sessions@.len(),
            forall|j: int| 0 <= j < i ==> (#[trigger] sessions@[j]).0@ != id@,
        decreases sessions@.len() - i,
    {
        if *sessions[i].0.as_str() == *id {
            assert(names(sessions@)[i as int] == id@);
            return true;
        }
        i += 1;
    }
    assert forall|j: int| 0 <= j < names(sessions@).len() implies names(sessions@)[j] != id@ by {
        assert(sessions@[j].0@ != id@);
    }
    false
}

/// No session is listed twice as waiting.
pub proof fn law_pending_sessions_are_distinct(entries: Seq<OutboxEntry>)
    ensures
        waiting_sessions(entries).no_duplicates(),
        waiting_sessions(entries).len() == waiting_previews(entries).len(),
    decreases entries.len(),
{
    if entries.len() > 0 {
        law_pending_sessions_are_distinct(entries.drop_last());
    }
}

} // verus!
