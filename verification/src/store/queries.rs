//! What views read of the index and of parked sessions.
use crate::keyed::keys_where;
use crate::listing::{
    find_project, find_session, most_recent_first, project_by_id, session_by_id,
    sort_most_recent_first, Recency,
};
use crate::protocol::{
    copy_text, share, ConversationDestination, GitFileEntry, HostValue, Project, ProjectSort,
    SessionFlags, SessionMeta, Settings, SidebarLayout, ThemePreference, ThreadSort, WorktreeInfo,
};
use crate::store::model::{background_only, destination_of, StoreModel};
use crate::store::{
    appearance_named, effective_client_settings, language_in_effect, parse_appearance,
    ClientPreferences, ForkAvailability, WorkspaceStore,
};
use crate::text::{blank, is_blank};
use std::rc::Rc;
use vstd::prelude::*;

verus! {

/// Sessions that are not archived, in the order of the index.
pub open spec fn unarchived(sessions: Seq<SessionMeta>) -> Seq<SessionMeta> {
    sessions.filter(|meta: SessionMeta| meta.archived_at is None)
}

/// Archived sessions, in the order of the index.
pub open spec fn archived(sessions: Seq<SessionMeta>) -> Seq<SessionMeta> {
    sessions.filter(|meta: SessionMeta| meta.archived_at is Some)
}

/// A project with its threads.
pub struct ProjectGroup {
    pub project: Project,
    pub sessions: Vec<SessionMeta>,
}

/// What the groups' threads are, group by group.
pub open spec fn group_lists(groups: Seq<ProjectGroup>) -> Seq<(Project, Seq<SessionMeta>)> {
    Seq::new(groups.len(), |i: int| (groups[i].project, groups[i].sessions@))
}

/// The groups that hold threads, each ordered by when they were archived.
pub open spec fn archive_lists(groups: Seq<(Project, Seq<SessionMeta>)>) -> Seq<
    (Project, Seq<SessionMeta>),
>
    decreases groups.len(),
{
    if groups.len() == 0 {
        Seq::empty()
    } else {
        let before = archive_lists(groups.drop_last());
        if groups.last().1.len() == 0 {
            before
        } else {
            before.push((groups.last().0, most_recent_first(groups.last().1, Recency::Archived)))
        }
    }
}

/// Order each group of archived threads, latest first, and drop empty groups.
pub fn order_archive(groups: Vec<ProjectGroup>) -> (ordered: Vec<ProjectGroup>)
    ensures
        group_lists(ordered@) == archive_lists(group_lists(groups@)),
{
    let ghost lists = group_lists(groups@);
    let mut rest = groups;
    let mut ordered: Vec<ProjectGroup> = Vec::new();
    let mut i: usize = 0;
    let total: usize = rest.len();
    assert(group_lists(ordered@) =~= archive_lists(lists.take(0)));
    while i < total
        invariant
            i <= total,
            rest@.len() == total - i,
            lists.len() == total,
            group_lists(rest@) == lists.subrange(i as int, total as int),
            group_lists(ordered@) == archive_lists(lists.take(i as int)),
        decreases total - i,
    {
        let ghost before = ordered@;
        let ghost left = rest@;
        let group = rest.remove(0);
        proof {
            assert(group_lists(left)[0] == lists[i as int]);
            assert(group_lists(rest@) =~= lists.subrange(i + 1, total as int)) by {
                assert forall|k: int| 0 <= k < rest@.len() implies group_lists(rest@)[k]
                    == lists.subrange(i + 1, total as int)[k] by {
                    assert(rest@[k] == left[k + 1]);
                    assert(group_lists(left)[k + 1] == lists[i + k + 1]);
                }
            }
            assert(lists.take(i + 1).drop_last() =~= lists.take(i as int));
            assert(lists.take(i + 1).last() == lists[i as int]);
        }
        if group.sessions.len() > 0 {
            let sorted = sort_most_recent_first(group.sessions, Recency::Archived);
            ordered.push(ProjectGroup { project: group.project, sessions: sorted });
            assert(group_lists(ordered@) =~= group_lists(before).push((group.project, sorted@)));
        }
        i += 1;
    }
    assert(lists.take(total as int) =~= lists);
    ordered
}

/// What of a session the sidebar knows: its status if it is on screen, else
/// what was parked of it.
pub open spec fn known_flags(state: StoreModel, id: Seq<char>) -> Option<SessionFlags> {
    if state.status is Some && state.status->0.session_id@ == id {
        Some(crate::store::model::flags_of(state.status->0))
    } else if state.background_flags.contains_key(id) {
        Some(state.background_flags[id])
    } else {
        None
    }
}

/// The worktree that deleting a session leaves to nobody.
pub open spec fn orphaned_worktree(sessions: Seq<SessionMeta>, id: Seq<char>) -> Option<
    WorktreeInfo,
> {
    match session_by_id(sessions, id) {
        Some(meta) => match meta.worktree {
            Some(worktree) => if shares_branch(sessions, id, worktree.branch@) {
                None
            } else {
                Some(worktree)
            },
            None => None,
        },
        None => None,
    }
}

/// Another session works on this branch.
pub open spec fn shares_branch(
    sessions: Seq<SessionMeta>,
    id: Seq<char>,
    branch: Seq<char>,
) -> bool {
    exists|i: int|
        0 <= i < sessions.len() && (#[trigger] sessions[i]).id@ != id && sessions[i].worktree is Some
            && sessions[i].worktree->0.branch@ == branch
}

/// The files and branch a commit dialog offers.
pub struct CommitDialogState {
    pub files: Rc<Vec<GitFileEntry>>,
    pub branch: Option<String>,
    pub on_default_branch: bool,
}

/// The checkout a diff is taken in.
pub struct DiffActiveState {
    pub session: String,
    pub cwd: String,
    pub branches: Rc<Vec<String>>,
}

/// A window's title.
pub enum WindowTitle<'a> {
    NewThread,
    Named(&'a String),
    Application,
}

impl WorkspaceStore {
    fn filtered(&self, wanted_archived: bool) -> (sessions: Vec<SessionMeta>)
        ensures
            sessions@ == (if wanted_archived {
                archived(self@.sessions)
            } else {
                unarchived(self@.sessions)
            }),
    {
        let ghost all = self.sessions@;
        let ghost kept = if wanted_archived {
            |meta: SessionMeta| meta.archived_at is Some
        } else {
            |meta: SessionMeta| meta.archived_at is None
        };
        let mut sessions: Vec<SessionMeta> = Vec::new();
        let mut i: usize = 0;
        assert(all.take(0) =~= Seq::<SessionMeta>::empty());
        assert(all.take(0).filter(kept) =~= Seq::<SessionMeta>::empty());
        while i < self.sessions.len()
            invariant
                i <= all.len(),
                all == self.sessions@,
                forall|meta: SessionMeta| #[trigger]
                    kept(meta) == ((meta.archived_at is Some) == wanted_archived),
                sessions@ == all.take(i as int).filter(kept),
            decreases all.len() - i,
        {
            proof {
                reveal(Seq::filter);
                assert(all.take(i + 1).drop_last() =~= all.take(i as int));
                assert(all.take(i + 1).last() == all[i as int]);
            }
            if self.sessions[i].archived_at.is_some() == wanted_archived {
                sessions.push(self.sessions[i].clone());
            }
            i += 1;
        }
        assert(all.take(i as int) =~= all);
        sessions
    }

    /// The sessions the sidebar groups by project or lists flat.
    pub fn flat_sessions(&self) -> (sessions: Vec<SessionMeta>)
        ensures
            sessions@ == unarchived(self@.sessions),
    {
        self.filtered(false)
    }

    /// The sessions of the archive.
    pub fn archived_sessions(&self) -> (sessions: Vec<SessionMeta>)
        ensures
            sessions@ == archived(self@.sessions),
    {
        self.filtered(true)
    }

    pub fn sidebar_sessions(&self) -> (sessions: &Vec<SessionMeta>)
        ensures
            sessions@ == self@.sessions,
    {
        &self.sessions
    }

    pub fn projects(&self) -> (projects: &Vec<Project>)
        ensures
            projects@ == self@.projects,
    {
        &self.projects
    }

    /// The settings in effect on this device.
    pub fn settings(&self) -> (settings: Settings)
        ensures
            settings.theme_mode == (match appearance_named(self@.client_preferences.appearance) {
                Some(mode) => mode,
                None => self@.settings.theme_mode,
            }),
            match language_in_effect(self@.settings.language, self@.client_preferences.language) {
                Some(language) => settings.language is Some && settings.language->0@ == language,
                None => settings.language is None,
            },
            settings == (Settings {
                theme_mode: settings.theme_mode,
                language: settings.language,
                ..self@.settings
            }),
    {
        effective_client_settings(&self.settings_replica, &self.client_preferences)
    }

    pub fn title_generating(&self, session_id: &str) -> (generating: bool)
        ensures
            generating == self@.title_generating.contains(session_id@),
    {
        self.title_generating.contains(&session_id.to_owned())
    }

    /// Whether the index baseline has arrived, including an empty index.
    pub fn index_hydrated(&self) -> (hydrated: bool)
        ensures
            hydrated == self@.index_hydrated,
    {
        self.index_hydrated
    }

    /// Whether the settings reflect the host yet.
    pub fn settings_hydrated(&self) -> (hydrated: bool)
        ensures
            hydrated == self@.settings_hydrated,
    {
        self.settings_hydrated
    }

    pub fn client_theme_override(&self) -> (mode: Option<ThemePreference>)
        ensures
            mode == appearance_named(self@.client_preferences.appearance),
    {
        parse_appearance(&self.client_preferences.appearance)
    }

    pub fn client_language_override(&self) -> (language: &Option<String>)
        ensures
            *language == self@.client_preferences.language,
    {
        &self.client_preferences.language
    }

    pub fn client_device_name_override(&self) -> (name: &Option<String>)
        ensures
            *name == self@.client_preferences.device_name,
    {
        &self.client_preferences.device_name
    }

    /// This device's name: the one set here unless it is blank, else the
    /// platform's, else the application's.
    pub fn client_device_name(&self, device: Option<String>, application: String) -> (name: String)
        ensures
            name == (match self@.client_preferences.device_name {
                Some(set) => if !blank(set@) {
                    set
                } else {
                    match device {
                        Some(own) => own,
                        None => application,
                    }
                },
                None => match device {
                    Some(own) => own,
                    None => application,
                },
            }),
    {
        match &self.client_preferences.device_name {
            Some(set) => {
                if !is_blank(set.as_str()) {
                    return set.clone();
                }
            },
            None => {},
        }
        match device {
            Some(own) => own,
            None => application,
        }
    }

    /// Name this device; a blank name takes the name away.
    pub fn set_client_device_name(&mut self, name: Option<String>)
        ensures
            final(self)@ == (StoreModel {
                client_preferences: ClientPreferences {
                    device_name: match name {
                        Some(given) => if blank(given@) {
                            None
                        } else {
                            Some(given)
                        },
                        None => None,
                    },
                    ..old(self)@.client_preferences
                },
                ..old(self)@
            }).emit(crate::command::Effect::SavePreferences),
    {
        self.client_preferences.device_name =
        match name {
            Some(given) => {
                if is_blank(given.as_str()) {
                    None
                } else {
                    Some(given)
                }
            },
            None => None,
        };
        self.emit(crate::command::Effect::SavePreferences);
    }

    pub fn live_command_panel(&self) -> (shown: bool)
        ensures
            shown == !self@.settings.live_command_panel_disabled,
    {
        !self.settings_replica.live_command_panel_disabled
    }

    pub fn project_sort(&self) -> (sort: ProjectSort)
        ensures
            sort == self@.settings.project_sort,
    {
        self.settings_replica.project_sort
    }

    pub fn sidebar_layout(&self) -> (layout: SidebarLayout)
        ensures
            layout == self@.settings.sidebar_layout,
    {
        self.settings_replica.sidebar_layout
    }

    pub fn thread_sort(&self) -> (sort: ThreadSort)
        ensures
            sort == self@.settings.thread_sort,
    {
        self.settings_replica.thread_sort
    }

    pub fn is_project_collapsed(&self, project_id: &str) -> (collapsed: bool)
        ensures
            collapsed == text_listed(self@.settings.collapsed_projects@, project_id@),
    {
        lists_text(&self.settings_replica.collapsed_projects, project_id)
    }

    pub fn working_started_at_for(&self, session_id: &str) -> (at: Option<u64>)
        ensures
            at == (if self@.working_started_at.contains_key(session_id@) {
                Some(self@.working_started_at[session_id@])
            } else {
                None
            }),
    {
        match self.working_started_at.get_text(session_id) {
            Some(at) => Some(*at),
            None => None,
        }
    }

    /// What the sidebar knows a session to be doing.
    pub fn session_flags(&self, session_id: &str) -> (flags: Option<SessionFlags>)
        ensures
            flags == known_flags(self@, session_id@),
    {
        match &self.session_status_replica {
            Some(status) => {
                if *status.session_id.as_str() == *session_id {
                    return Some(crate::store::navigation::parked_flags(status));
                }
            },
            None => {},
        }
        match self.background_session_flags.get_text(session_id) {
            Some(flags) => Some(*flags),
            None => None,
        }
    }

    pub fn turn_running_for(&self, session_id: &str) -> (running: bool)
        ensures
            running == (known_flags(self@, session_id@) is Some && known_flags(
                self@,
                session_id@,
            )->0.working),
    {
        match self.session_flags(session_id) {
            Some(flags) => flags.working,
            None => false,
        }
    }

    pub fn background_only_for(&self, session_id: &str) -> (only: bool)
        ensures
            only == (known_flags(self@, session_id@) is Some && known_flags(
                self@,
                session_id@,
            )->0.background_only),
    {
        match self.session_flags(session_id) {
            Some(flags) => flags.background_only,
            None => false,
        }
    }

    pub fn pending_approval_for(&self, session_id: &str) -> (pending: bool)
        ensures
            pending == (known_flags(self@, session_id@) is Some && known_flags(
                self@,
                session_id@,
            )->0.pending_approval),
    {
        match self.session_flags(session_id) {
            Some(flags) => flags.pending_approval,
            None => false,
        }
    }

    pub fn pending_user_input_for(&self, session_id: &str) -> (pending: bool)
        ensures
            pending == (known_flags(self@, session_id@) is Some && known_flags(
                self@,
                session_id@,
            )->0.pending_user_input),
    {
        match self.session_flags(session_id) {
            Some(flags) => flags.pending_user_input,
            None => false,
        }
    }

    /// How many sessions are working, the one on screen among them.
    pub fn working_sessions_count(&self) -> (count: usize)
        requires
            keys_where(self@.background_flags, |flags: SessionFlags| flags.working).len()
                < usize::MAX,
        ensures
            count == keys_where(
                self@.background_flags,
                |flags: SessionFlags| flags.working,
            ).len() + (if self@.status is Some && self@.status->0.working {
                1int
            } else {
                0int
            }),
    {
        let counts = |flags: &SessionFlags| -> (working: bool)
            ensures
                working == flags.working,
            { flags.working };
        let parked: usize = self.background_session_flags.count(
            counts,
            Ghost(|flags: SessionFlags| flags.working),
        );
        let active: usize = match &self.session_status_replica {
            Some(status) => if status.working {
                1
            } else {
                0
            },
            None => 0,
        };
        parked + active
    }

    /// Whether a session changed since the user last looked at it. The one on
    /// screen is being looked at; one never looked at is not unread.
    pub fn session_unread(&self, session_id: &str) -> (unread: bool)
        ensures
            unread == (!(self@.status is Some && self@.status->0.session_id@ == session_id@)
                && session_by_id(self@.sessions, session_id@) is Some && (match last_visit(
                self@.settings.last_visited@,
                session_id@,
            ) {
                Some(visited) => session_by_id(self@.sessions, session_id@)->0.updated_at
                    > visited,
                None => false,
            })),
    {
        match &self.session_status_replica {
            Some(status) => {
                if *status.session_id.as_str() == *session_id {
                    return false;
                }
            },
            None => {},
        }
        match find_session(&self.sessions, session_id) {
            Some(i) => match find_last_visit(&self.settings_replica, session_id) {
                Some(visited) => self.sessions[i].updated_at > visited,
                None => false,
            },
            None => false,
        }
    }

    /// Whether a thread can be forked. One that is not listed is left to the
    /// host to refuse.
    pub fn fork_availability(&self, session_id: &str) -> (availability: ForkAvailability)
        ensures
            availability == (match session_by_id(self@.sessions, session_id@) {
                None => ForkAvailability::Available,
                Some(meta) => if !meta.caps.supports_fork {
                    ForkAvailability::Unsupported
                } else if !meta.resume_cursor {
                    ForkAvailability::Empty
                } else if known_flags(self@, session_id@) is Some && known_flags(
                    self@,
                    session_id@,
                )->0.working {
                    ForkAvailability::Running
                } else {
                    ForkAvailability::Available
                },
            }),
    {
        match find_session(&self.sessions, session_id) {
            None => ForkAvailability::Available,
            Some(i) => {
                if !self.sessions[i].caps.supports_fork {
                    ForkAvailability::Unsupported
                } else if !self.sessions[i].resume_cursor {
                    ForkAvailability::Empty
                } else if self.turn_running_for(session_id) {
                    ForkAvailability::Running
                } else {
                    ForkAvailability::Available
                }
            },
        }
    }

    /// What the window is titled.
    pub fn shell_window_title(&self) -> (title: WindowTitle<'_>)
        ensures
            match self@.status {
                Some(status) => if status.draft {
                    title is NewThread
                } else {
                    title matches WindowTitle::Named(name) && *name == status.title
                },
                None => title is Application,
            },
    {
        match &self.session_status_replica {
            Some(status) => {
                if status.draft {
                    WindowTitle::NewThread
                } else {
                    WindowTitle::Named(&status.title)
                }
            },
            None => WindowTitle::Application,
        }
    }

    /// The session whose preview is on screen, and where its state belongs.
    pub fn preview_active_identity(&self) -> (identity: Option<(String, ConversationDestination)>)
        ensures
            match self@.status {
                Some(status) => identity == Some((status.session_id, destination_of(status))),
                None => identity is None,
            },
    {
        match &self.session_status_replica {
            Some(status) => Some((status.session_id.clone(), Self::destination(status))),
            None => None,
        }
    }

    pub fn preview_browser_settings(&self) -> (settings: HostValue)
        ensures
            settings == self@.settings.browser,
    {
        self.settings_replica.browser.clone()
    }

    pub fn project_ids(&self) -> (ids: Vec<String>)
        ensures
            ids@ == Seq::new(self@.projects.len(), |i: int| self@.projects[i].id),
    {
        let mut ids: Vec<String> = Vec::new();
        let mut i: usize = 0;
        while i < self.projects.len()
            invariant
                i <= self.projects@.len(),
                ids@ =~= Seq::new(i as nat, |k: int| self@.projects[k].id),
            decreases self.projects@.len() - i,
        {
            ids.push(self.projects[i].id.clone());
            i += 1;
        }
        ids
    }

    /// A project's name, and how many sessions it has.
    pub fn project_summary(&self, project_id: &str) -> (summary: Option<(String, usize)>)
        ensures
            match project_by_id(self@.projects, project_id@) {
                Some(project) => summary matches Some(found) && found.0 == project.name && found.1
                    == self@.sessions.filter(in_project(project_id@)).len(),
                None => summary is None,
            },
    {
        match find_project(&self.projects, project_id) {
            None => None,
            Some(at) => {
                let ghost all = self.sessions@;
                let ghost kept = in_project(project_id@);
                let mut count: usize = 0;
                let mut i: usize = 0;
                assert(all.take(0) =~= Seq::<SessionMeta>::empty());
                assert(all.take(0).filter(kept) =~= Seq::<SessionMeta>::empty());
                while i < self.sessions.len()
                    invariant
                        i <= all.len(),
                        all == self.sessions@,
                        kept == in_project(project_id@),
                        count <= i,
                        count == all.take(i as int).filter(kept).len(),
                    decreases all.len() - i,
                {
                    proof {
                        reveal(Seq::filter);
                        assert(all.take(i + 1).drop_last() =~= all.take(i as int));
                        assert(all.take(i + 1).last() == all[i as int]);
                    }
                    let inside = match &self.sessions[i].project_id {
                        Some(id) => *id.as_str() == *project_id,
                        None => false,
                    };
                    if inside {
                        count += 1;
                    }
                    i += 1;
                }
                assert(all.take(i as int) =~= all);
                Some((self.projects[at].name.clone(), count))
            },
        }
    }

    pub fn project_root(&self, project_id: &str) -> (root: Option<String>)
        ensures
            root == (match project_by_id(self@.projects, project_id@) {
                Some(project) => Some(project.root),
                None => None,
            }),
    {
        match find_project(&self.projects, project_id) {
            Some(i) => Some(self.projects[i].root.clone()),
            None => None,
        }
    }

    /// The latest host-published status for a project's import, or `None` while
    /// the snapshot is still in flight or no run has ever started.
    pub fn external_import_status(&self, project_id: &str) -> (status: Option<&HostValue>)
        ensures
            match status {
                Some(value) => self@.import_statuses.contains_key(project_id@)
                    && self@.import_statuses[project_id@] == Some(*value),
                None => !self@.import_statuses.contains_key(project_id@)
                    || self@.import_statuses[project_id@] is None,
            },
    {
        match self.import_statuses.get_text(project_id) {
            Some(status) => status.as_ref(),
            None => None,
        }
    }

    /// What a commit dialog offers of the session on screen.
    pub fn commit_dialog_state(&self) -> (state: CommitDialogState)
        ensures
            match self@.git_status.status {
                Some(status) => state.files@ == status.changed_files@ && state.branch
                    == status.branch && state.on_default_branch == status.is_default_branch,
                None => state.files@.len() == 0 && state.branch is None
                    && !state.on_default_branch,
            },
    {
        match &self.git_status_replica.status {
            Some(status) => CommitDialogState {
                files: share(&status.changed_files),
                branch: copy_text(&status.branch),
                on_default_branch: status.is_default_branch,
            },
            None => CommitDialogState {
                files: Rc::new(Vec::new()),
                branch: None,
                on_default_branch: false,
            },
        }
    }

    /// The checkout of the session on screen.
    pub fn diff_active_state(&self) -> (state: Option<DiffActiveState>)
        ensures
            state == (match self@.status {
                Some(status) => Some(
                    DiffActiveState {
                        session: status.session_id,
                        cwd: status.cwd,
                        branches: status.branches,
                    },
                ),
                None => None,
            }),
    {
        match &self.session_status_replica {
            Some(status) => Some(
                DiffActiveState {
                    session: status.session_id.clone(),
                    cwd: status.cwd.clone(),
                    branches: share(&status.branches),
                },
            ),
            None => None,
        }
    }

    /// The worktree that deleting a session would leave to nobody.
    pub fn worktree_orphaned_by_delete(&self, session_id: &str) -> (worktree: Option<WorktreeInfo>)
        ensures
            worktree == orphaned_worktree(self@.sessions, session_id@),
    {
        match find_session(&self.sessions, session_id) {
            None => None,
            Some(at) => match &self.sessions[at].worktree {
                None => None,
                Some(worktree) => {
                    let mut i: usize = 0;
                    while i < self.sessions.len()
                        invariant
                            i <= self.sessions@.len(),
                            session_by_id(self@.sessions, session_id@) is Some,
                            session_by_id(self@.sessions, session_id@)->0.worktree == Some(
                                *worktree,
                            ),
                            forall|j: int|
                                0 <= j < i ==> !((#[trigger] self@.sessions[j]).id@ != session_id@
                                    && self@.sessions[j].worktree is Some
                                    && self@.sessions[j].worktree->0.branch@
                                    == worktree.branch@),
                        decreases self.sessions@.len() - i,
                    {
                        if !(*self.sessions[i].id.as_str() == *session_id) {
                            match &self.sessions[i].worktree {
                                Some(other) => {
                                    if other.branch == worktree.branch {
                                        assert(self@.sessions[i as int].id@ != session_id@);
                                        return None;
                                    }
                                },
                                None => {},
                            }
                        }
                        i += 1;
                    }
                    Some(worktree.clone())
                },
            },
        }
    }
}

/// Sessions of a project.
pub open spec fn in_project(id: Seq<char>) -> spec_fn(SessionMeta) -> bool {
    |meta: SessionMeta| meta.project_id is Some && meta.project_id->0@ == id
}

/// A list of texts holds this one.
pub open spec fn text_listed(list: Seq<String>, text: Seq<char>) -> bool {
    exists|i: int| 0 <= i < list.len() && (#[trigger] list[i])@ == text
}

/// Whether a list of texts holds this one.
pub fn lists_text(list: &Vec<String>, text: &str) -> (listed: bool)
    ensures
        listed == text_listed(list@, text@),
{
    let mut i: usize = 0;
    while i < list.len()
        invariant
            i <= list@.len(),
            forall|j: int| 0 <= j < i ==> (#[trigger] list@[j])@ != text@,
        decreases list@.len() - i,
    {
        if *list[i].as_str() == *text {
            assert(list@[i as int]@ == text@);
            return true;
        }
        i += 1;
    }
    false
}

/// The visits to a session.
pub open spec fn visits_session(id: Seq<char>) -> spec_fn(crate::protocol::LastVisit) -> bool {
    |visit: crate::protocol::LastVisit| visit.session_id@ == id
}

/// When a session was last looked at.
pub open spec fn last_visit(visits: Seq<crate::protocol::LastVisit>, id: Seq<char>) -> Option<u64> {
    match crate::listing::first(visits, visits_session(id)) {
        Some(visit) => Some(visit.at),
        None => None,
    }
}

fn find_last_visit(settings: &Settings, session_id: &str) -> (at: Option<u64>)
    ensures
        at == last_visit(settings.last_visited@, session_id@),
{
    let visits = &settings.last_visited;
    let ghost wanted = visits_session(session_id@);
    let mut i: usize = 0;
    while i < visits.len()
        invariant
            i <= visits@.len(),
            visits@ == settings.last_visited@,
            wanted == visits_session(session_id@),
            forall|j: int| 0 <= j < i ==> !wanted(#[trigger] visits@[j]),
        decreases visits@.len() - i,
    {
        if *visits[i].session_id.as_str() == *session_id {
            proof {
                crate::listing::lemma_first(visits@, wanted, i as int);
            }
            return Some(visits[i].at);
        }
        i += 1;
    }
    proof {
        crate::listing::lemma_no_first(visits@, wanted);
    }
    None
}

} // verus!
