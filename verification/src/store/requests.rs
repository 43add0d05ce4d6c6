//! Questions to the host, and what their answers come to.
//!
//! A question is put, and its answer handed back, by whoever holds the link.
use crate::protocol::{share, HostValue, ProjectSort, SessionMeta, ThreadSort};
use crate::store::panels::names_active;
use crate::store::queries::{archived, unarchived};
use crate::store::WorkspaceStore;
use std::rc::Rc;
use vstd::prelude::*;
use vstd::string::StringExecFns;

verus! {

/// A question to the host.
pub enum HostQuery {
    ScanExternalHistory,
    SearchSessionContent { query: String, limit: u32 },
    LoadGitDiff { cwd: String, scope: HostValue, base: Option<String>, ignore_whitespace: bool },
    RenderThreadExport { session_id: String, format: HostValue },
    RenderStoredOutput { session_id: String, item_id: String, cols: u16 },
    Hosting { action: HostValue },
    ReadFileBytes { path: String },
    ListActiveWorkspace { session_id: String },
    SaveAttachment { dir: String, bytes: Vec<u8>, ext: String },
    RemoveUserFile { path: String },
    GenerateCommitMessage { session_id: String, included: Option<Vec<String>> },
}

/// What came back: the answer to the question, an answer to another one, as it
/// prints, or the host's refusal.
pub enum Reply<T> {
    Expected(T),
    Unexpected(String),
    Failed(String),
}

/// The kinds of answers, as messages about wrong ones name them.
#[derive(Clone, Copy, Debug, PartialEq, Eq, Structural)]
pub enum AnswerName {
    ExternalHistory,
    SessionContent,
    GitDiff,
    ThreadExport,
    StoredOutput,
    Hosting,
    FileBytes,
    ActiveWorkspace,
    SaveAttachment,
    RemoveFile,
    CommitMessage,
}

impl AnswerName {
    pub open spec fn spec_name(self) -> Seq<char> {
        match self {
            AnswerName::ExternalHistory => "external-history"@,
            AnswerName::SessionContent => "session-content"@,
            AnswerName::GitDiff => "git-diff"@,
            AnswerName::ThreadExport => "thread-export"@,
            AnswerName::StoredOutput => "stored-output"@,
            AnswerName::Hosting => "hosting"@,
            AnswerName::FileBytes => "file-bytes"@,
            AnswerName::ActiveWorkspace => "active-workspace"@,
            AnswerName::SaveAttachment => "save-attachment"@,
            AnswerName::RemoveFile => "remove-file"@,
            AnswerName::CommitMessage => "commit-message"@,
        }
    }

    pub fn name(self) -> (name: &'static str)
        ensures
            name@ == self.spec_name(),
    {
        match self {
            AnswerName::ExternalHistory => "external-history",
            AnswerName::SessionContent => "session-content",
            AnswerName::GitDiff => "git-diff",
            AnswerName::ThreadExport => "thread-export",
            AnswerName::StoredOutput => "stored-output",
            AnswerName::Hosting => "hosting",
            AnswerName::FileBytes => "file-bytes",
            AnswerName::ActiveWorkspace => "active-workspace",
            AnswerName::SaveAttachment => "save-attachment",
            AnswerName::RemoveFile => "remove-file",
            AnswerName::CommitMessage => "commit-message",
        }
    }
}

/// What is said of a wrong answer. What the hosting controls were answered is
/// not printed.
pub open spec fn unexpected(kind: AnswerName, printed: Seq<char>) -> Seq<char> {
    if kind == AnswerName::Hosting {
        "unexpected hosting response"@
    } else {
        "unexpected "@ + kind.spec_name() + " response: "@ + printed
    }
}

fn unexpected_message(kind: AnswerName, printed: &String) -> (message: String)
    ensures
        message@ == unexpected(kind, printed@),
{
    if kind == AnswerName::Hosting {
        return "unexpected hosting response".to_string();
    }
    let mut message = "unexpected ".to_string();
    message.append(kind.name());
    message.append(" response: ");
    message.append(printed.as_str());
    message
}

impl<T> Reply<T> {
    /// What a caller that reports errors makes of a reply.
    pub fn or_error(self, kind: AnswerName) -> (result: Result<T, String>)
        ensures
            match self {
                Reply::Expected(value) => result == Ok::<T, String>(value),
                Reply::Unexpected(printed) => match result {
                    Err(message) => message@ == unexpected(kind, printed@),
                    Ok(_) => false,
                },
                Reply::Failed(message) => result == Err::<T, String>(message),
            },
    {
        match self {
            Reply::Expected(value) => Ok(value),
            Reply::Unexpected(printed) => Err(unexpected_message(kind, &printed)),
            Reply::Failed(message) => Err(message),
        }
    }
}

impl<T> Reply<Vec<T>> {
    /// What a caller that shows what there is makes of a reply.
    pub fn or_nothing(self) -> (list: Vec<T>)
        ensures
            match self {
                Reply::Expected(value) => list == value,
                _ => list@.len() == 0,
            },
    {
        match self {
            Reply::Expected(value) => value,
            _ => Vec::new(),
        }
    }
}

/// What sessions to group by project, and how to order the groups and what is in
/// them.
pub struct Grouping {
    pub sessions: Vec<SessionMeta>,
    pub project_sort: ProjectSort,
    pub thread_sort: ThreadSort,
}

/// A paired machine's credential, by its place in the list of them.
#[derive(Clone, Copy, Debug, PartialEq, Eq, Structural)]
pub enum PreviewProxy {
    /// The workspace is on this machine: nothing goes through a proxy.
    Direct,
    Paired(usize),
    /// The machine that the workspace is on is not paired.
    Unpaired,
}

impl WorkspaceStore {
    pub fn scan_external_history(&self) -> (query: HostQuery)
        ensures
            query == HostQuery::ScanExternalHistory,
    {
        HostQuery::ScanExternalHistory
    }

    pub fn search_session_content(&self, query: String, limit: u32) -> (asked: HostQuery)
        ensures
            asked == (HostQuery::SearchSessionContent { query, limit }),
    {
        HostQuery::SearchSessionContent { query, limit }
    }

    pub fn load_git_diff(
        &self,
        cwd: String,
        scope: HostValue,
        base: Option<String>,
        ignore_whitespace: bool,
    ) -> (query: HostQuery)
        ensures
            query == (HostQuery::LoadGitDiff { cwd, scope, base, ignore_whitespace }),
    {
        HostQuery::LoadGitDiff { cwd, scope, base, ignore_whitespace }
    }

    pub fn render_thread_export(&self, session_id: String, format: HostValue) -> (query: HostQuery)
        ensures
            query == (HostQuery::RenderThreadExport { session_id, format }),
    {
        HostQuery::RenderThreadExport { session_id, format }
    }

    pub fn render_stored_output(&self, session_id: String, item_id: String, cols: u16) -> (query:
        HostQuery)
        ensures
            query == (HostQuery::RenderStoredOutput { session_id, item_id, cols }),
    {
        HostQuery::RenderStoredOutput { session_id, item_id, cols }
    }

    pub fn hosting(&self, action: HostValue) -> (query: HostQuery)
        ensures
            query == (HostQuery::Hosting { action }),
    {
        HostQuery::Hosting { action }
    }

    pub fn read_file_bytes(&self, path: String) -> (query: HostQuery)
        ensures
            query == (HostQuery::ReadFileBytes { path }),
    {
        HostQuery::ReadFileBytes { path }
    }

    /// The files of the workspace of the session on screen.
    pub fn list_active_workspace(&self) -> (query: HostQuery)
        ensures
            exists|session_id: String| #[trigger]
                names_active(self@, session_id) && query == (HostQuery::ListActiveWorkspace {
                    session_id,
                }),
    {
        let session_id = self.active_id();
        assert(names_active(self@, session_id));
        HostQuery::ListActiveWorkspace { session_id }
    }

    pub fn save_attachment_to_dir(&self, dir: String, bytes: Vec<u8>, ext: String) -> (query:
        HostQuery)
        ensures
            query == (HostQuery::SaveAttachment { dir, bytes, ext }),
    {
        HostQuery::SaveAttachment { dir, bytes, ext }
    }

    pub fn remove_user_file(&self, path: String) -> (query: HostQuery)
        ensures
            query == (HostQuery::RemoveUserFile { path }),
    {
        HostQuery::RemoveUserFile { path }
    }

    /// Have a commit message written for the session on screen, for the given
    /// files or for all.
    pub fn generate_commit_message(&self, included: Option<Vec<String>>) -> (query: HostQuery)
        ensures
            exists|session_id: String| #[trigger]
                names_active(self@, session_id) && query == (HostQuery::GenerateCommitMessage {
                    session_id,
                    included,
                }),
    {
        let session_id = self.active_id();
        assert(names_active(self@, session_id));
        HostQuery::GenerateCommitMessage { session_id, included }
    }

    /// What the sidebar groups: the threads that are not archived, ordered as the
    /// settings say.
    pub fn grouped_sessions(&self) -> (grouping: Grouping)
        ensures
            grouping.sessions@ == unarchived(self@.sessions),
            grouping.project_sort == self@.settings.project_sort,
            grouping.thread_sort == self@.settings.thread_sort,
    {
        Grouping {
            sessions: self.flat_sessions(),
            project_sort: self.project_sort(),
            thread_sort: self.thread_sort(),
        }
    }

    /// What the archive groups: the archived threads. How they are ordered inside
    /// the groups is settled once they are grouped.
    pub fn archived_groups(&self) -> (grouping: Grouping)
        ensures
            grouping.sessions@ == archived(self@.sessions),
            grouping.project_sort == self@.settings.project_sort,
            grouping.thread_sort == ThreadSort::Activity,
    {
        Grouping {
            sessions: self.archived_sessions(),
            project_sort: self.project_sort(),
            thread_sort: ThreadSort::Activity,
        }
    }

    /// The ids of the installed agents.
    pub fn settings_installed_acp_agents(&self) -> (agents: Rc<Vec<String>>)
        ensures
            agents@ == self@.settings.acp_agents@,
    {
        share(&self.settings_replica.acp_agents)
    }

    /// Which credential a preview of a remote workspace goes through: that of the
    /// machine that the workspace is on.
    pub fn preview_proxy(&self, paired: &Vec<String>) -> (proxy: PreviewProxy)
        ensures
            match proxy {
                PreviewProxy::Direct => !(self@.attachment is Remote),
                PreviewProxy::Paired(i) => self@.attachment is Remote && i < paired@.len()
                    && paired@[i as int]@ == self@.attachment->Remote_host_id@ && forall|j: int|
                    0 <= j < i ==> (#[trigger] paired@[j])@ != self@.attachment->Remote_host_id@,
                PreviewProxy::Unpaired => self@.attachment is Remote && forall|j: int|
                    0 <= j < paired@.len() ==> (#[trigger] paired@[j])@
                        != self@.attachment->Remote_host_id@,
            },
    {
        let host = match self.remote_host_id() {
            Some(host) => host,
            None => {
                return PreviewProxy::Direct;
            },
        };
        let mut i: usize = 0;
        while i < paired.len()
            invariant
                i <= paired@.len(),
                self@.attachment is Remote,
                host@ == self@.attachment->Remote_host_id@,
                forall|j: int|
                    0 <= j < i ==> (#[trigger] paired@[j])@ != self@.attachment->Remote_host_id@,
            decreases paired@.len() - i,
        {
            if *paired[i].as_str() == *host {
                return PreviewProxy::Paired(i);
            }
            i += 1;
        }
        PreviewProxy::Unpaired
    }
}

} // verus!
