//! What views read of the conversation on screen.
use crate::command::Outbox;
use crate::keyed::KeyedSet;
use crate::listing::{find_session, first, lemma_first, lemma_no_first, session_by_id};
use crate::protocol::{
    copy_text, share, ConversationDestination, DestinationName, GitStatus, HostValue, Project,
    SessionMeta, SessionStatus, Timeline, TimelineEntry, TurnChanges, TurnRecord, UserMessage,
};
use crate::store::events::mark_prefill;
use crate::store::model::{with_prefill, StoreModel};
use crate::store::{FallbackBlock, FallbackReview, WorkspaceStore};
use std::rc::Rc;
use vstd::prelude::*;
use vstd::utf8::{encode_utf8, is_char_boundary};

verus! {

/// A turn that changed files.
pub open spec fn has_changes(turn: TurnRecord) -> bool {
    turn.changes is Some && turn.changes->0.changes@.len() > 0
}

/// The positions of the turns that changed files, in order.
pub open spec fn changed_turns(turns: Seq<TurnRecord>) -> Seq<usize>
    decreases turns.len(),
{
    if turns.len() == 0 {
        Seq::empty()
    } else {
        let before = changed_turns(turns.drop_last());
        if has_changes(turns.last()) {
            before.push((turns.len() - 1) as usize)
        } else {
            before
        }
    }
}

/// The words the user typed: the message without the context put before it,
/// where the length of that context falls between two characters.
pub open spec fn visible_bytes(message: UserMessage) -> Seq<u8> {
    let bytes = encode_utf8(message.text@);
    match message.context_len {
        Some(len) => if is_char_boundary(bytes, len as int) {
            bytes.subrange(len as int, bytes.len() as int)
        } else {
            bytes
        },
        None => bytes,
    }
}

/// Position `i` holds the last entry that is a message of the user.
pub open spec fn is_last_message(entries: Seq<TimelineEntry>, i: int) -> bool {
    &&& 0 <= i < entries.len()
    &&& entries[i].user_message is Some
    &&& forall|j: int| i < j < entries.len() ==> (#[trigger] entries[j]).user_message is None
}

fn visible_text(message: &UserMessage) -> (text: String)
    ensures
        encode_utf8(text@) == visible_bytes(*message),
{
    match message.context_len {
        Some(len) => {
            if message.text.as_str().is_char_boundary(len) {
                let parts = message.text.as_str().split_at(len);
                return parts.1.to_owned();
            }
        },
        None => {},
    }
    message.text.clone()
}

/// A project by its id, or by its root where a session names none.
pub open spec fn belongs(project_id: Option<String>, cwd: Seq<char>) -> spec_fn(Project) -> bool {
    |project: Project|
        match project_id {
            Some(id) => project.id@ == id@,
            None => project.root@ == cwd,
        }
}

fn find_owner(projects: &Vec<Project>, project_id: &Option<String>, cwd: &str) -> (project: Option<
    Project,
>)
    ensures
        project == first(projects@, belongs(*project_id, cwd@)),
{
    let ghost wanted = belongs(*project_id, cwd@);
    let mut i: usize = 0;
    while i < projects.len()
        invariant
            i <= projects@.len(),
            wanted == belongs(*project_id, cwd@),
            forall|j: int| 0 <= j < i ==> !wanted(#[trigger] projects@[j]),
        decreases projects@.len() - i,
    {
        let hit = match project_id {
            Some(id) => projects[i].id == *id,
            None => *projects[i].root.as_str() == *cwd,
        };
        if hit {
            proof {
                lemma_first(projects@, wanted, i as int);
            }
            return Some(projects[i].clone());
        }
        i += 1;
    }
    proof {
        lemma_no_first(projects@, wanted);
    }
    None
}

/// What the chat's header names.
pub enum ChatHeader {
    /// A session, with its directory and whether it is a draft.
    Session { title: String, cwd: String, draft: bool },
    /// A message is on its way to a session that is not known yet.
    WaitingForConnection,
    Nothing,
}

impl StoreModel {
    /// The turns of the timeline on screen.
    pub open spec fn turns(self) -> Seq<TurnRecord> {
        match self.timeline {
            Some(replica) => replica.timeline.turns@,
            None => Seq::empty(),
        }
    }

    /// The index entry of the selected session.
    pub open spec fn selected_meta(self) -> Option<SessionMeta> {
        match self.selected {
            Some(id) => session_by_id(self.sessions, id@),
            None => None,
        }
    }

    pub open spec fn chat_project(self) -> Option<Project> {
        match self.status {
            Some(status) => first(self.projects, belongs(status.project_id, status.cwd@)),
            None => match self.selected_meta() {
                Some(meta) => first(self.projects, belongs(meta.project_id, meta.cwd@)),
                None => None,
            },
        }
    }
}

impl WorkspaceStore {
    /// Read the timeline on screen, if there is one.
    pub fn with_active_timeline<R, F: FnOnce(&Timeline) -> R>(&self, read: F) -> (answer: Option<R>)
        requires
            self@.timeline is Some ==> read.requires((&self@.timeline->0.timeline,)),
        ensures
            answer is Some <==> self@.timeline is Some,
            answer is Some ==> read.ensures((&self@.timeline->0.timeline,), answer->0),
    {
        match &self.session_replica {
            Some(replica) => Some(read(&replica.timeline)),
            None => None,
        }
    }

    /// Read the files that a turn of the timeline on screen changed.
    pub fn with_diff_turn_changes<R, F: FnOnce(&TurnChanges) -> R>(
        &self,
        turn: usize,
        read: F,
    ) -> (answer: Option<R>)
        requires
            turn < self@.turns().len() && self@.turns()[turn as int].changes is Some
                ==> read.requires((&self@.turns()[turn as int].changes->0,)),
        ensures
            answer is Some <==> turn < self@.turns().len() && self@.turns()[turn as int].changes
                is Some,
            answer is Some ==> read.ensures(
                (&self@.turns()[turn as int].changes->0,),
                answer->0,
            ),
    {
        match &self.session_replica {
            Some(replica) => {
                let turns = &replica.timeline.turns;
                if turn >= turns.len() {
                    return None;
                }
                match &turns[turn].changes {
                    Some(changes) => Some(read(changes)),
                    None => None,
                }
            },
            None => None,
        }
    }

    /// Read what the composer writes to: whether it is a draft, its session and its
    /// project.
    pub fn with_composer_destination<R, F: FnOnce(bool, &String, &Option<String>) -> R>(
        &self,
        read: F,
    ) -> (answer: Option<R>)
        requires
            self@.status is Some ==> read.requires(
                (
                    self@.status->0.draft,
                    &self@.status->0.session_id,
                    &self@.status->0.project_id,
                ),
            ),
        ensures
            answer is Some <==> self@.status is Some,
            answer is Some ==> read.ensures(
                (
                    self@.status->0.draft,
                    &self@.status->0.session_id,
                    &self@.status->0.project_id,
                ),
                answer->0,
            ),
    {
        match &self.session_status_replica {
            Some(status) => Some(read(status.draft, &status.session_id, &status.project_id)),
            None => None,
        }
    }

    /// Read the terminals of the session on screen: which are open, and which is active.
    pub fn with_terminal_workspace<R, F: FnOnce(&SessionStatus) -> R>(&self, read: F) -> (answer:
        Option<R>)
        requires
            self@.status is Some ==> read.requires((&self@.status->0,)),
        ensures
            answer is Some <==> self@.status is Some,
            answer is Some ==> read.ensures((&self@.status->0,), answer->0),
    {
        match &self.session_status_replica {
            Some(status) => Some(read(status)),
            None => None,
        }
    }

    /// Decide the controls for git, once its status is known, by that status and
    /// whether something is under way.
    pub fn chat_git_controls<R, F: FnOnce(&GitStatus, bool) -> R>(&self, controls: F) -> (answer:
        Option<R>)
        requires
            self@.git_status.status is Some ==> controls.requires(
                (&self@.git_status.status->0, self@.git_status.busy),
            ),
        ensures
            answer is Some <==> self@.git_status.status is Some,
            answer is Some ==> controls.ensures(
                (&self@.git_status.status->0, self@.git_status.busy),
                answer->0,
            ),
    {
        match &self.git_status_replica.status {
            Some(status) => Some(controls(status, self.git_status_replica.busy)),
            None => None,
        }
    }

    /// The turns whose files a diff can show.
    pub fn diff_turns(&self) -> (turns: Vec<usize>)
        ensures
            turns@ == changed_turns(self@.turns()),
    {
        let mut found: Vec<usize> = Vec::new();
        match &self.session_replica {
            Some(replica) => {
                let turns = &replica.timeline.turns;
                let mut i: usize = 0;
                assert(turns@.take(0) =~= Seq::<TurnRecord>::empty());
                while i < turns.len()
                    invariant
                        i <= turns@.len(),
                        found@ == changed_turns(turns@.take(i as int)),
                    decreases turns@.len() - i,
                {
                    proof {
                        assert(turns@.take(i + 1).drop_last() =~= turns@.take(i as int));
                        assert(turns@.take(i + 1).last() == turns@[i as int]);
                    }
                    match &turns[i].changes {
                        Some(changes) => {
                            if changes.changes.len() > 0 {
                                found.push(i);
                            }
                        },
                        None => {},
                    }
                    i += 1;
                }
                assert(turns@.take(i as int) =~= turns@);
            },
            None => {},
        }
        found
    }

    /// The turn whose diff is shown: the chosen one if it changed files, else
    /// the last that did.
    pub fn diff_selected_turn(&self) -> (turn: Option<usize>)
        ensures
            ({
                let turns = changed_turns(self@.turns());
                turn == (if self@.active_ui() is Some && self@.active_ui()->0.diff_selected_turn is Some
                    && turns.contains(self@.active_ui()->0.diff_selected_turn->0) {
                    self@.active_ui()->0.diff_selected_turn
                } else if turns.len() > 0 {
                    Some(turns.last())
                } else {
                    None
                })
            }),
    {
        let turns = self.diff_turns();
        let explicit: Option<usize> = match self.active_conversation_ui() {
            Some(ui) => ui.diff_selected_turn,
            None => None,
        };
        match explicit {
            Some(turn) => {
                let mut i: usize = 0;
                while i < turns.len()
                    invariant
                        i <= turns@.len(),
                        turns@ == changed_turns(self@.turns()),
                        self@.active_ui() is Some,
                        self@.active_ui()->0.diff_selected_turn == Some(turn),
                        forall|j: int| 0 <= j < i ==> #[trigger] turns@[j] != turn,
                    decreases turns@.len() - i,
                {
                    if turns[i] == turn {
                        assert(turns@.contains(turn));
                        return Some(turn);
                    }
                    i += 1;
                }
            },
            None => {},
        }
        if turns.len() > 0 {
            Some(turns[turns.len() - 1])
        } else {
            None
        }
    }

    /// The files a turn changed, and whether they are all of them.
    pub fn chat_turn_changes(&self, turn: usize) -> (changes: (Rc<Vec<HostValue>>, bool))
        ensures
            if turn < self@.turns().len() && self@.turns()[turn as int].changes is Some {
                changes.0@ == self@.turns()[turn as int].changes->0.changes@ && changes.1
                    == self@.turns()[turn as int].changes->0.complete
            } else {
                changes.0@.len() == 0 && !changes.1
            },
    {
        match &self.session_replica {
            Some(replica) => {
                if turn < replica.timeline.turns.len() {
                    match &replica.timeline.turns[turn].changes {
                        Some(changes) => {
                            return (share(&changes.changes), changes.complete);
                        },
                        None => {},
                    }
                }
            },
            None => {},
        }
        (Rc::new(Vec::new()), false)
    }

    /// Whether a turn can be rewound natively, and whether that has to wait.
    pub fn chat_native_rewind_state(&self, turn: usize) -> (state: Option<(bool, bool)>)
        ensures
            state == (match self@.status {
                Some(status) => Some(
                    (
                        status.caps.native_rewind && turn < self@.turns().len()
                            && self@.turns()[turn as int].provider_checkpoint_id is Some,
                        status.turn_running || status.queued_messages@.len() > 0
                            || status.native_rewind_pending,
                    ),
                ),
                None => None,
            }),
    {
        match &self.session_status_replica {
            Some(status) => {
                let checkpoint = match &self.session_replica {
                    Some(replica) => turn < replica.timeline.turns.len()
                        && replica.timeline.turns[turn].provider_checkpoint_id.is_some(),
                    None => false,
                };
                Some(
                    (
                        status.caps.native_rewind && checkpoint,
                        status.turn_running || status.queued_messages.len() > 0
                            || status.native_rewind_pending,
                    ),
                )
            },
            None => None,
        }
    }

    /// The user's last message: its turn and the words the user typed.
    pub fn last_user_message(&self) -> (message: Option<(usize, String)>)
        ensures
            match (message, self@.timeline) {
                (Some(found), Some(replica)) => exists|i: int| #[trigger]
                    is_last_message(replica.timeline.entries@, i) && found.0
                        == replica.timeline.entries@[i].turn && encode_utf8(found.1@)
                        == visible_bytes(replica.timeline.entries@[i].user_message->0),
                (None, Some(replica)) => forall|j: int|
                    0 <= j < replica.timeline.entries@.len() ==> (
                    #[trigger] replica.timeline.entries@[j]).user_message is None,
                (found, None) => found is None,
            },
    {
        match &self.session_replica {
            Some(replica) => {
                let entries = &replica.timeline.entries;
                let mut i: usize = entries.len();
                while i > 0
                    invariant
                        i <= entries@.len(),
                        self@.timeline == Some(*replica),
                        entries@ == replica.timeline.entries@,
                        forall|j: int|
                            i <= j < entries@.len() ==> (
                            #[trigger] entries@[j]).user_message is None,
                    decreases i,
                {
                    i -= 1;
                    match &entries[i].user_message {
                        Some(message) => {
                            assert(is_last_message(entries@, i as int));
                            return Some((entries[i].turn, visible_text(message)));
                        },
                        None => {},
                    }
                }
                None
            },
            None => None,
        }
    }

    /// A turn to bring into sight, counted among the turns on screen.
    pub fn pending_chat_turn(&self, session_id: &str) -> (turn: Option<usize>)
        ensures
            turn == (match self@.pending_chat_turn {
                Some(pending) => if pending.session_id@ == session_id@ && pending.turn
                    >= self@.turn_offset {
                    Some((pending.turn - self@.turn_offset) as usize)
                } else {
                    None
                },
                None => None,
            }),
    {
        match &self.pending_chat_turn {
            Some(pending) => {
                if *pending.session_id.as_str() == *session_id && pending.turn
                    >= self.session_turn_offset {
                    Some(pending.turn - self.session_turn_offset)
                } else {
                    None
                }
            },
            None => None,
        }
    }

    /// The turn has been brought into sight.
    pub fn take_pending_chat_turn(&mut self, session_id: &str, turn: usize)
        requires
            turn + old(self)@.turn_offset <= usize::MAX,
        ensures
            final(self)@ == (StoreModel {
                pending_chat_turn: match old(self)@.pending_chat_turn {
                    Some(pending) => if pending.session_id@ == session_id@ && pending.turn == turn
                        + old(self)@.turn_offset {
                        None
                    } else {
                        Some(pending)
                    },
                    None => None,
                },
                ..old(self)@
            }),
    {
        let shown = match &self.pending_chat_turn {
            Some(pending) => *pending.session_id.as_str() == *session_id && pending.turn == turn
                + self.session_turn_offset,
            None => false,
        };
        if shown {
            self.pending_chat_turn = None;
        }
    }

    /// The title, directory and draft state the chat's header shows.
    pub fn chat_active_session(&self, outbox: &Outbox) -> (header: ChatHeader)
        ensures
            header == (match self@.status {
                Some(status) => ChatHeader::Session {
                    title: status.title,
                    cwd: status.cwd,
                    draft: status.draft,
                },
                None => match self@.selected_meta() {
                    Some(meta) => ChatHeader::Session {
                        title: meta.title,
                        cwd: meta.cwd,
                        draft: false,
                    },
                    None => if self@.delivery_messages(*outbox).len() > 0 {
                        ChatHeader::WaitingForConnection
                    } else {
                        ChatHeader::Nothing
                    },
                },
            }),
    {
        match &self.session_status_replica {
            Some(status) => {
                return ChatHeader::Session {
                    title: status.title.clone(),
                    cwd: status.cwd.clone(),
                    draft: status.draft,
                };
            },
            None => {},
        }
        match &self.selected_session_id {
            Some(id) => match find_session(&self.sessions, id.as_str()) {
                Some(i) => {
                    return ChatHeader::Session {
                        title: self.sessions[i].title.clone(),
                        cwd: self.sessions[i].cwd.clone(),
                        draft: false,
                    };
                },
                None => {},
            },
            None => {},
        }
        if self.delivery_messages(outbox).messages.len() > 0 {
            ChatHeader::WaitingForConnection
        } else {
            ChatHeader::Nothing
        }
    }

    /// The project of the conversation on screen. Worktree sessions retain
    /// their project's identity even where their directory differs.
    pub fn chat_project(&self) -> (project: Option<Project>)
        ensures
            project == self@.chat_project(),
    {
        match &self.session_status_replica {
            Some(status) => find_owner(&self.projects, &status.project_id, status.cwd.as_str()),
            None => match &self.selected_session_id {
                Some(id) => match find_session(&self.sessions, id.as_str()) {
                    Some(i) => find_owner(
                        &self.projects,
                        &self.sessions[i].project_id,
                        self.sessions[i].cwd.as_str(),
                    ),
                    None => None,
                },
                None => None,
            },
        }
    }

    /// The directory to name the conversation's project after, where it has no
    /// project.
    pub fn chat_project_name(&self, outbox: &Outbox) -> (name: Result<String, Option<String>>)
        ensures
            match self@.chat_project() {
                Some(project) => name == Ok::<String, Option<String>>(project.name),
                None => name is Err && (match self@.status {
                    Some(status) => if status.cwd@.len() > 0 {
                        name->Err_0 == Some(status.cwd)
                    } else {
                        name->Err_0 is None
                    },
                    None => match self@.selected_meta() {
                        Some(meta) => if meta.cwd@.len() > 0 {
                            name->Err_0 == Some(meta.cwd)
                        } else {
                            name->Err_0 is None
                        },
                        None => name->Err_0 is None,
                    },
                }),
            },
    {
        match self.chat_project() {
            Some(project) => Ok(project.name),
            None => match self.chat_active_session(outbox) {
                ChatHeader::Session { title: _, cwd, draft: _ } => {
                    if cwd.as_str().is_empty() {
                        Err(None)
                    } else {
                        Err(Some(cwd))
                    }
                },
                _ => Err(None),
            },
        }
    }

    pub fn chat_requested_model(&self) -> (model: Option<String>)
        ensures
            model == (match self@.status {
                Some(status) => status.requested_model,
                None => None,
            }),
    {
        match &self.session_status_replica {
            Some(status) => copy_text(&status.requested_model),
            None => None,
        }
    }

    /// The proposed plan and its steps.
    pub fn plan_panel_state(&self) -> (state: (Option<String>, Rc<Vec<HostValue>>))
        ensures
            match self@.timeline {
                Some(replica) => state.0 == replica.timeline.proposed_plan && state.1@
                    == replica.timeline.plan_steps@,
                None => state.0 is None && state.1@.len() == 0,
            },
    {
        match &self.session_replica {
            Some(replica) => (
                copy_text(&replica.timeline.proposed_plan),
                share(&replica.timeline.plan_steps),
            ),
            None => (None, Rc::new(Vec::new())),
        }
    }

    pub fn review_comments(&self) -> (comments: Rc<Vec<HostValue>>)
        ensures
            match self@.status {
                Some(status) => comments@ == status.review_comment_drafts@,
                None => comments@.len() == 0,
            },
    {
        match &self.session_status_replica {
            Some(status) => share(&status.review_comment_drafts),
            None => Rc::new(Vec::new()),
        }
    }

    /// Consume the prefill delivered for the session on screen.
    pub fn take_native_rewind_prefill(&mut self) -> (prefill: Option<String>)
        ensures
            match old(self)@.status {
                Some(status) => if old(self)@.prefills.contains_key(status.session_id@) {
                    prefill == Some(old(self)@.prefills[status.session_id@]) && final(self)@ == (
                    StoreModel {
                        prefills: old(self)@.prefills.remove(status.session_id@),
                        status: Some(with_prefill(status, false)),
                        ..old(self)@
                    })
                } else {
                    prefill is None && final(self)@ == old(self)@
                },
                None => prefill is None && final(self)@ == old(self)@,
            },
    {
        let id = match &self.session_status_replica {
            Some(status) => status.session_id.clone(),
            None => {
                return None;
            },
        };
        match self.native_rewind_prefills.remove(&id) {
            Some(text) => {
                match self.session_status_replica.take() {
                    Some(status) => {
                        self.session_status_replica = Some(mark_prefill(status, false));
                    },
                    None => {},
                }
                Some(text)
            },
            None => {
                assert(self@ =~= old(self)@);
                None
            },
        }
    }

    /// The classifier stop the session on screen is showing.
    pub fn active_fallback_block(&self) -> (block: Option<&FallbackBlock>)
        ensures
            match block {
                Some(held) => self@.status is Some && self@.blocks.contains_key(
                    self@.status->0.session_id@,
                ) && self@.blocks[self@.status->0.session_id@] == *held,
                None => self@.status is None || !self@.blocks.contains_key(
                    self@.status->0.session_id@,
                ),
            },
    {
        match &self.session_status_replica {
            Some(status) => self.fallback_blocks.get(&status.session_id),
            None => None,
        }
    }

    pub fn dismiss_fallback_block(&mut self)
        ensures
            final(self)@ == (StoreModel {
                blocks: match old(self)@.status {
                    Some(status) => old(self)@.blocks.remove(status.session_id@),
                    None => old(self)@.blocks,
                },
                ..old(self)@
            }),
    {
        match &self.session_status_replica {
            Some(status) => {
                self.fallback_blocks.remove(&status.session_id);
            },
            None => {},
        }
    }

    /// The advice on the classifier stop of the session on screen.
    pub fn active_fallback_review(&self) -> (advice: Option<&FallbackReview>)
        ensures
            match advice {
                Some(held) => self@.status is Some && self@.reviews.contains_key(
                    self@.status->0.session_id@,
                ) && self@.reviews[self@.status->0.session_id@] == *held,
                None => self@.status is None || !self@.reviews.contains_key(
                    self@.status->0.session_id@,
                ),
            },
    {
        match &self.session_status_replica {
            Some(status) => self.fallback_reviews.get(&status.session_id),
            None => None,
        }
    }

    pub fn dismiss_fallback_review(&mut self)
        ensures
            final(self)@ == (StoreModel {
                reviews: match old(self)@.status {
                    Some(status) => old(self)@.reviews.remove(status.session_id@),
                    None => old(self)@.reviews,
                },
                ..old(self)@
            }),
    {
        match &self.session_status_replica {
            Some(status) => {
                self.fallback_reviews.remove(&status.session_id);
            },
            None => {},
        }
    }

    /// The conversations whose previews may live: those the index lists, and
    /// the one on screen.
    pub fn preview_live_keys(&self) -> (keys: KeyedSet<ConversationDestination>)
        ensures
            forall|name: DestinationName| #[trigger]
                keys@.contains(name) <==> (self@.destination is Some && self@.destination->0@
                    == name) || exists|i: int|
                    0 <= i < self@.sessions.len() && name == DestinationName::Thread(
                        (#[trigger] self@.sessions[i]).id@,
                    ),
    {
        let mut keys: KeyedSet<ConversationDestination> = KeyedSet::new();
        let mut i: usize = 0;
        while i < self.sessions.len()
            invariant
                i <= self.sessions@.len(),
                forall|name: DestinationName| #[trigger]
                    keys@.contains(name) <==> exists|k: int|
                        0 <= k < i && name == DestinationName::Thread(
                            (#[trigger] self@.sessions[k]).id@,
                        ),
            decreases self.sessions@.len() - i,
        {
            let ghost before = keys@;
            let destination = ConversationDestination::Thread(self.sessions[i].id.clone());
            keys.insert(destination);
            proof {
                assert forall|name: DestinationName| #[trigger]
                    keys@.contains(name) <==> exists|k: int|
                        0 <= k < i + 1 && name == DestinationName::Thread(
                            (#[trigger] self@.sessions[k]).id@,
                        ) by {
                    if before.contains(name) {
                        let k = choose|k: int|
                            0 <= k < i && name == DestinationName::Thread(
                                (#[trigger] self@.sessions[k]).id@,
                            );
                        assert(name == DestinationName::Thread(self@.sessions[k].id@));
                    }
                    if name == destination@ {
                        assert(name == DestinationName::Thread(self@.sessions[i as int].id@));
                    }
                }
            }
            i += 1;
        }
        match &self.active_destination {
            Some(destination) => {
                keys.insert(destination.clone());
            },
            None => {},
        }
        keys
    }
}

} // verus!
