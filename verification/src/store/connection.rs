//! The link to the host, and how much of it has been replayed.
use crate::command::{Effect, Outbox};
use crate::protocol::{
    ConnectionFailure, ConnectionState, EventEnvelope, ServerEvent, Subscription, Topic,
};
use crate::store::model::StoreModel;
use crate::store::{kind_of, StoreChange, TopicKind, WorkspaceAttachment, WorkspaceStore};
use vstd::prelude::*;

verus! {

/// Which of the first snapshots have arrived.
#[derive(Debug, Clone, Copy, PartialEq, Eq, Structural)]
pub struct SeedProgress {
    pub settings: bool,
    pub index: bool,
    pub providers: bool,
}

impl SeedProgress {
    pub open spec fn noted(self, envelope: EventEnvelope) -> Self {
        match (envelope.topic, envelope.event) {
            (Topic::Index, ServerEvent::IndexSnapshot(_)) => SeedProgress { index: true, ..self },
            (Topic::Settings, ServerEvent::SettingsSnapshot(_)) => SeedProgress {
                settings: true,
                ..self
            },
            (Topic::Providers, ServerEvent::ProvidersReplaced(_)) => SeedProgress {
                providers: true,
                ..self
            },
            _ => self,
        }
    }

    pub fn new() -> (progress: Self)
        ensures
            progress == (SeedProgress { settings: false, index: false, providers: false }),
    {
        SeedProgress { settings: false, index: false, providers: false }
    }

    /// Count a published event if it is one of the first snapshots.
    pub fn note(&mut self, envelope: &EventEnvelope)
        ensures
            *final(self) == old(self).noted(*envelope),
    {
        match (&envelope.topic, &envelope.event) {
            (Topic::Index, ServerEvent::IndexSnapshot(_)) => {
                self.index = true;
            },
            (Topic::Settings, ServerEvent::SettingsSnapshot(_)) => {
                self.settings = true;
            },
            (Topic::Providers, ServerEvent::ProvidersReplaced(_)) => {
                self.providers = true;
            },
            _ => {},
        }
    }

    /// Whether construction has nothing left to wait for.
    pub fn complete(&self) -> (complete: bool)
        ensures
            complete == (self.settings && self.index && self.providers),
    {
        self.settings && self.index && self.providers
    }
}

/// A subscription, asked for again.
pub open spec fn resubscribed(subscriptions: Seq<Subscription>) -> Seq<Effect> {
    Seq::new(
        subscriptions.len(),
        |i: int|
            Effect::Subscribe { topic: subscriptions[i].topic, after: subscriptions[i].after },
    )
}

/// A subscription, given up.
pub open spec fn unsubscribed(subscriptions: Seq<Subscription>) -> Seq<Effect> {
    Seq::new(
        subscriptions.len(),
        |i: int| Effect::Unsubscribe { topic: subscriptions[i].topic },
    )
}

impl StoreModel {
    /// The machine a remote attachment is to.
    pub open spec fn host_id(self) -> Option<String> {
        match self.attachment {
            WorkspaceAttachment::Local => None,
            WorkspaceAttachment::Remote { host_id, .. } => Some(host_id),
        }
    }

    /// Lost or restarted links invalidate every baseline; a syncing one asks
    /// for them again.
    pub open spec fn connection_changed(
        self,
        state: ConnectionState,
        subscriptions: Seq<Subscription>,
    ) -> Self {
        StoreModel {
            baseline_topics: if state == ConnectionState::Connected {
                self.baseline_topics
            } else {
                Set::empty()
            },
            connection_state: state,
            effects: if state == ConnectionState::Syncing {
                self.effects + resubscribed(subscriptions)
            } else {
                self.effects
            },
            ..self
        }
    }

    /// The attempt at which a machine is not to be found where it was.
    pub open spec fn lost_attempt(state: ConnectionState) -> Option<u32> {
        match state {
            ConnectionState::Reconnecting { attempt, reason } => match reason {
                Some(ConnectionFailure::Unreachable) => Some(attempt),
                Some(ConnectionFailure::Timeout) => Some(attempt),
                _ => None,
            },
            _ => None,
        }
    }

    /// Look up a machine's address once per attempt at which it is not found,
    /// and stop looking once the link is settled either way.
    pub open spec fn address_refreshed(self, state: ConnectionState) -> Self {
        match state {
            ConnectionState::Reconnecting { .. } => match Self::lost_attempt(state) {
                Some(attempt) => if self.last_refresh_attempt == Some(attempt) {
                    self
                } else {
                    let noted = StoreModel { last_refresh_attempt: Some(attempt), ..self };
                    match self.host_id() {
                        Some(host_id) => noted.emit(Effect::RefreshOrigin { host_id }),
                        None => noted,
                    }
                },
                None => self,
            },
            _ => StoreModel { last_refresh_attempt: None, ..self }.emit(Effect::CancelRefresh),
        }
    }
}

impl WorkspaceStore {
    pub fn is_remote(&self) -> (remote: bool)
        ensures
            remote == (self@.attachment is Remote),
    {
        match &self.attachment {
            WorkspaceAttachment::Local => false,
            WorkspaceAttachment::Remote { .. } => true,
        }
    }

    pub fn remote_host_name(&self) -> (name: Option<&str>)
        ensures
            match self@.attachment {
                WorkspaceAttachment::Local => name is None,
                WorkspaceAttachment::Remote { host_name, .. } => name is Some && name->0@
                    == host_name@,
            },
    {
        match &self.attachment {
            WorkspaceAttachment::Local => None,
            WorkspaceAttachment::Remote { host_name, .. } => Some(host_name.as_str()),
        }
    }

    pub fn remote_host_id(&self) -> (id: Option<&str>)
        ensures
            match self@.attachment {
                WorkspaceAttachment::Local => id is None,
                WorkspaceAttachment::Remote { host_id, .. } => id is Some && id->0@ == host_id@,
            },
    {
        match &self.attachment {
            WorkspaceAttachment::Local => None,
            WorkspaceAttachment::Remote { host_id, .. } => Some(host_id.as_str()),
        }
    }

    /// Become a remote attachment whose machine has no id yet.
    pub fn attach_remote(&mut self, host_name: String, link: ConnectionState)
        ensures
            final(self)@ == (StoreModel {
                attachment: final(self)@.attachment,
                connection_state: link,
                ..old(self)@
            }),
            final(self)@.attachment matches WorkspaceAttachment::Remote { host_id, host_name: name }
                && host_id@ == Seq::<char>::empty() && name == host_name,
    {
        self.attachment = WorkspaceAttachment::Remote { host_id: String::new(), host_name };
        self.connection_state = link;
    }

    /// Whether everything on screen has been replayed since the link came up.
    pub fn baseline_ready(&self) -> (ready: bool)
        ensures
            ready == self@.baseline_ready(),
    {
        if !self.baseline_topics.contains(&Topic::Index) || !self.baseline_topics.contains(
            &Topic::Settings,
        ) {
            return false;
        }
        match &self.selected_session_id {
            Some(id) => self.baseline_topics.contains(
                &Topic::SessionStatus { session_id: id.clone() },
            ) && self.baseline_topics.contains(&Topic::SessionEvents { session_id: id.clone() }),
            None => true,
        }
    }

    /// The connection as the user sees it: connected only once the baseline is
    /// complete.
    pub fn connection_state(&self) -> (state: ConnectionState)
        ensures
            state == self@.shown_connection(),
    {
        match self.connection_state {
            ConnectionState::Connected | ConnectionState::Syncing => {
                if self.baseline_ready() {
                    ConnectionState::Connected
                } else {
                    ConnectionState::Syncing
                }
            },
            other => other,
        }
    }

    /// Cached content remains readable while a new baseline is replayed.
    pub fn threads_loading(&self) -> (loading: bool)
        ensures
            loading == self@.threads_loading(),
    {
        !self.index_hydrated || !self.settings_hydrated || (self.connection_state()
            != ConnectionState::Connected && self.sessions.len() == 0 && self.projects.len() == 0)
    }

    pub fn session_loading(&self) -> (loading: bool)
        ensures
            loading == self@.session_loading(),
    {
        self.selected_session_id.is_some() && (self.session_replica.is_none()
            || self.session_status_replica.is_none())
    }

    /// Whether the chat has nothing to show yet. A message being delivered is
    /// something to show.
    pub fn chat_loading(&self, outbox: &Outbox) -> (loading: bool)
        ensures
            loading == (self@.delivery_messages(*outbox).len() == 0 && (!self@.index_hydrated
                || !self@.settings_hydrated || (match self@.selected {
                Some(id) => self@.session_loading() || !self@.hydrated_sessions.contains(id@)
                    || !self@.statuses.contains_key(id@),
                None => self@.threads_loading(),
            }))),
    {
        if self.delivery_messages(outbox).messages.len() > 0 {
            return false;
        }
        if !self.index_hydrated || !self.settings_hydrated {
            return true;
        }
        match &self.selected_session_id {
            Some(id) => self.session_loading() || !self.hydrated_sessions.contains(id)
                || !self.session_statuses.contains_key(id),
            None => self.threads_loading(),
        }
    }

    /// Look up a remote machine's address again when the link cannot find it.
    pub fn refresh_address(&mut self, state: ConnectionState)
        ensures
            final(self)@ == old(self)@.address_refreshed(state),
    {
        match state {
            ConnectionState::Connected | ConnectionState::Syncing
            | ConnectionState::Offline { .. } => {
                self.last_refresh_attempt = None;
                self.emit(Effect::CancelRefresh);
            },
            ConnectionState::Reconnecting { attempt, reason } => {
                let lost = match reason {
                    Some(ConnectionFailure::Unreachable) | Some(ConnectionFailure::Timeout) => true,
                    _ => false,
                };
                let tried = match self.last_refresh_attempt {
                    Some(last) => last == attempt,
                    None => false,
                };
                if lost && !tried {
                    self.last_refresh_attempt = Some(attempt);
                    match &self.attachment {
                        WorkspaceAttachment::Remote { host_id, .. } => {
                            let host_id = host_id.clone();
                            self.emit(Effect::RefreshOrigin { host_id });
                        },
                        WorkspaceAttachment::Local => {},
                    }
                }
            },
        }
    }

    /// Follow the link. State and domain events arrive on separate queues: a
    /// fresh baseline is requested after invalidation, so that a late event
    /// from the old socket cannot satisfy readiness for the new one.
    pub fn apply_connection_state(
        &mut self,
        state: ConnectionState,
        subscriptions: Vec<Subscription>,
    )
        ensures
            final(self)@ == old(self)@.connection_changed(state, subscriptions@),
    {
        let ghost before = self@;
        let ghost asked = subscriptions@;
        match state {
            ConnectionState::Connected => {},
            _ => {
                self.baseline_topics.clear();
            },
        }
        self.connection_state = state;
        if state == ConnectionState::Syncing {
            let ghost cleared = self@;
            let mut i: usize = 0;
            assert(self@.effects =~= cleared.effects + resubscribed(asked).take(0));
            while i < subscriptions.len()
                invariant
                    i <= subscriptions@.len(),
                    subscriptions@ == asked,
                    self@ == (StoreModel {
                        effects: cleared.effects + resubscribed(asked).take(i as int),
                        ..cleared
                    }),
                decreases subscriptions@.len() - i,
            {
                let topic = subscriptions[i].topic.clone();
                let after = subscriptions[i].after;
                self.emit(Effect::Subscribe { topic, after });
                assert(resubscribed(asked).take(i + 1) =~= resubscribed(asked).take(
                    i as int,
                ).push(resubscribed(asked)[i as int]));
                assert(self@.effects =~= cleared.effects + resubscribed(asked).take(i + 1));
                i += 1;
            }
            assert(resubscribed(asked).take(i as int) =~= resubscribed(asked));
        }
        assert(self@ =~= before.connection_changed(state, asked));
    }

    /// End this store's one-link lifetime.
    pub fn detach(&mut self, subscriptions: Vec<Subscription>)
        ensures
            final(self)@ == (StoreModel {
                effects: old(self)@.effects.push(Effect::CancelHistory).push(
                    Effect::CancelRefresh,
                ) + unsubscribed(subscriptions@) + seq![Effect::CloseLink],
                ..old(self)@
            }),
    {
        let ghost asked = subscriptions@;
        self.emit(Effect::CancelHistory);
        self.emit(Effect::CancelRefresh);
        let ghost cleared = self@;
        let mut i: usize = 0;
        assert(self@.effects =~= cleared.effects + unsubscribed(asked).take(0));
        while i < subscriptions.len()
            invariant
                i <= subscriptions@.len(),
                subscriptions@ == asked,
                self@ == (StoreModel {
                    effects: cleared.effects + unsubscribed(asked).take(i as int),
                    ..cleared
                }),
            decreases subscriptions@.len() - i,
        {
            let topic = subscriptions[i].topic.clone();
            self.emit(Effect::Unsubscribe { topic });
            assert(unsubscribed(asked).take(i + 1) =~= unsubscribed(asked).take(i as int).push(
                unsubscribed(asked)[i as int],
            ));
            assert(self@.effects =~= cleared.effects + unsubscribed(asked).take(i + 1));
            i += 1;
        }
        assert(unsubscribed(asked).take(i as int) =~= unsubscribed(asked));
        self.emit(Effect::CloseLink);
        assert(self@.effects =~= old(self)@.effects.push(Effect::CancelHistory).push(
            Effect::CancelRefresh,
        ) + unsubscribed(asked) + seq![Effect::CloseLink]);
    }
}

/// What of the link changed.
pub enum LinkChange<'a> {
    /// A published event arrived.
    Event(&'a EventEnvelope),
    /// What is still to be delivered changed.
    Deliveries,
    /// The link itself changed.
    Connection,
}

/// The projections that a change of the link makes views draw again. An event of the
/// runtime is no part of the replica; it goes to whoever listens for those.
pub open spec fn redrawn(change: LinkChange) -> Seq<StoreChange> {
    match change {
        LinkChange::Event(envelope) => if envelope.event is Runtime {
            Seq::empty()
        } else {
            seq![StoreChange { topic: kind_of(envelope.topic) }]
        },
        LinkChange::Deliveries => seq![StoreChange { topic: TopicKind::SessionEvents }],
        LinkChange::Connection => seq![
            StoreChange { topic: TopicKind::Index },
            StoreChange { topic: TopicKind::SessionStatus },
        ],
    }
}

pub fn changes(change: LinkChange) -> (changes: Vec<StoreChange>)
    ensures
        changes@ == redrawn(change),
{
    let mut changes: Vec<StoreChange> = Vec::new();
    match change {
        LinkChange::Event(envelope) => match &envelope.event {
            ServerEvent::Runtime(_) => {},
            _ => changes.push(StoreChange { topic: TopicKind::from(&envelope.topic) }),
        },
        LinkChange::Deliveries => changes.push(StoreChange { topic: TopicKind::SessionEvents }),
        LinkChange::Connection => {
            changes.push(StoreChange { topic: TopicKind::Index });
            changes.push(StoreChange { topic: TopicKind::SessionStatus });
        },
    }
    assert(changes@ =~= redrawn(change));
    changes
}

} // verus!
