//! The replica of a workspace.
use std::rc::Rc;
use tcode_ui::command::{Command, Effect, FailedEntry, Outbox, OutboxEntry, SettingsPatch};
use tcode_ui::keyed::{KeyedMap, KeyedSet};
use tcode_ui::protocol::{
    ApprovalMode, ApprovalRequest, BuiltinProfiles, ConnectionFailure, ConnectionState,
    ConversationDestination, EventEnvelope, EventKind, GitStatusStatus, HostValue, IndexSnapshot,
    InteractionMode, PixelBits, Project, ProjectSort, ProviderCaps, ProviderKind, ProviderUsage,
    ProvidersStatus, ResolvedProfile, ServerEvent, SessionFlags, SessionMeta, SessionStatus,
    Settings, SidebarLayout, StoredEvent, Subscription, ThemePreference, ThreadSort, Timeline,
    TokenUsage, Topic, TurnChanges, TurnRecord, WorkspaceMode,
};
use tcode_ui::store::connection::{changes, LinkChange, SeedProgress};
use tcode_ui::store::requests::{AnswerName, HostQuery, PreviewProxy, Reply};
use tcode_ui::store::snapshots::composer_state;
use tcode_ui::store::{
    observes, ClientPreferences, SessionReplica, StoreChange, TimelineWork, TopicKind,
    WorkspaceAttachment, WorkspaceStore,
};

fn value(text: &str) -> HostValue {
    HostValue { json: Rc::new(text.to_string()) }
}

fn name(text: &str) -> String {
    text.to_string()
}

fn caps() -> ProviderCaps {
    ProviderCaps {
        supports_fork: false,
        native_rewind: false,
        downgrade_approval_without_native_approvals: false,
    }
}

fn settings() -> Settings {
    Settings {
        theme_mode: ThemePreference::Light,
        language: None,
        last_project_id: None,
        auto_open_task_panel: false,
        word_wrap_diffs: false,
        live_command_panel_disabled: false,
        project_sort: ProjectSort::Activity,
        thread_sort: ThreadSort::Activity,
        sidebar_layout: SidebarLayout::Grouped,
        collapsed_projects: Rc::new(Vec::new()),
        last_visited: Rc::new(Vec::new()),
        builtin_profiles: BuiltinProfiles {
            codex: name("codex"),
            claude_code: name("claude_code"),
            pi: name("pi"),
            open_code: name("open_code"),
            acp: name("acp"),
        },
        profiles: Rc::new(Vec::new()),
        pi_native_approvals: false,
        favorite_models: Rc::new(Vec::new()),
        acp_agents: Rc::new(vec![name("agent")]),
        browser: value("{}"),
    }
}

fn status(id: &str) -> SessionStatus {
    SessionStatus {
        session_id: name(id),
        title: name("Title"),
        cwd: name("/host/project"),
        attachments_dir: name("/host/attachments"),
        provider: ProviderKind::Codex,
        caps: caps(),
        agent_name: name("Codex"),
        requested_model: None,
        requested_profile_id: None,
        acp_agent_id: None,
        project_id: Some(name("project")),
        approval_mode: ApprovalMode::Supervised,
        interaction_mode: InteractionMode::Build,
        queued_messages: Rc::new(Vec::new()),
        review_comment_drafts: Rc::new(Vec::new()),
        terminals: Rc::new(Vec::new()),
        active_terminal_id: None,
        terminal_contexts: Rc::new(Vec::new()),
        terminal_open: false,
        terminal_height: PixelBits(0x4370_0000),
        delivery_in_flight: false,
        turn_running: false,
        stopping: false,
        working: false,
        pending_approval: false,
        pending_user_input: false,
        steering_supported: false,
        provider_option_descriptors: Rc::new(Vec::new()),
        provider_option_selections: Rc::new(Vec::new()),
        provider_commands: Rc::new(Vec::new()),
        git_branch: None,
        branches: Rc::new(Vec::new()),
        worktrees: Rc::new(Vec::new()),
        draft: false,
        draft_workspace: WorkspaceMode::LocalCheckout,
        worktree: None,
        preparing_worktree: false,
        relay_confirmation: None,
        native_rewind_pending: false,
        native_rewind_prefill_available: false,
        model_pending_restart: false,
        options_pending_restart: false,
        approval_pending_restart: false,
        ultrathink_armed: false,
    }
}

fn draft(project: &str) -> SessionStatus {
    SessionStatus {
        draft: true,
        project_id: Some(name(project)),
        ..status(&format!("draft-{project}"))
    }
}

fn meta(id: &str, parent: Option<&str>) -> SessionMeta {
    SessionMeta {
        id: name(id),
        title: name("Title"),
        cwd: name("/host/project"),
        provider: ProviderKind::Codex,
        caps: caps(),
        project_id: Some(name("project")),
        parent_session_id: parent.map(name),
        archived_at: None,
        updated_at: 1,
        resume_cursor: false,
        worktree: None,
    }
}

fn project(id: &str) -> Project {
    Project {
        id: name(id),
        name: name("My project"),
        root: format!("/host/{id}"),
        created_at: 1,
        icon_path: None,
    }
}

fn outbox() -> Outbox {
    Outbox { pending: Vec::new(), failed: Vec::new(), acknowledged: Vec::new() }
}

fn attached(attachment: WorkspaceAttachment) -> WorkspaceStore {
    let mut store = WorkspaceStore::new_attached(
        attachment,
        ConnectionState::Syncing,
        ClientPreferences::default(),
        false,
        settings(),
    );
    store.take_effects();
    store
}

fn store() -> WorkspaceStore {
    attached(WorkspaceAttachment::Local)
}

fn remote() -> WorkspaceStore {
    attached(WorkspaceAttachment::Remote { host_id: name("host"), host_name: name("Desk") })
}

fn apply(store: &mut WorkspaceStore, topic: Topic, event: ServerEvent) -> Option<TimelineWork> {
    store.apply_domain_event(EventEnvelope { topic, event }, true, &outbox())
}

fn events(id: &str) -> Topic {
    Topic::SessionEvents { session_id: name(id) }
}

fn status_topic(id: &str) -> Topic {
    Topic::SessionStatus { session_id: name(id) }
}

fn index(store: &mut WorkspaceStore, sessions: Vec<SessionMeta>, projects: Vec<Project>) {
    apply(
        store,
        Topic::Index,
        ServerEvent::IndexSnapshot(IndexSnapshot {
            sessions,
            projects,
            title_generating: KeyedSet::new(),
            activity: KeyedMap::new(),
            working_started_at: KeyedMap::new(),
        }),
    );
}

fn shows(store: &mut WorkspaceStore, id: &str) {
    store.select_session(name(id));
    apply(store, status_topic(id), ServerEvent::SessionStatusReplaced(status(id)));
}

fn record(kind: EventKind) -> StoredEvent {
    StoredEvent { ts: None, kind, body: value("{}") }
}

fn records(count: usize) -> Vec<StoredEvent> {
    (0..count).map(|_| record(EventKind::Other)).collect()
}

fn timeline(turns: usize) -> Timeline {
    Timeline {
        turns: Rc::new(
            (0..turns)
                .map(|_| TurnRecord { changes: None, provider_checkpoint_id: None })
                .collect(),
        ),
        entries: Rc::new(Vec::new()),
        usage: None,
        proposed_plan: None,
        plan_ready: None,
        plan_steps: Rc::new(Vec::new()),
        pending_user_input: None,
        pending_approvals: Rc::new(Vec::new()),
    }
}

fn subscribed(effects: &[Effect]) -> Vec<String> {
    effects
        .iter()
        .filter_map(|effect| match effect {
            Effect::Subscribe { topic, .. } => Some(format!("{topic:?}")),
            _ => None,
        })
        .collect()
}

#[test]
fn composer_state_exposes_first_pending_approval_and_count() {
    let request = ApprovalRequest {
        id: name("approval-1"),
        turn_id: Some(name("turn-1")),
        details: value("read src/lib.rs"),
    };
    let mut held = timeline(0);
    held.pending_approvals = Rc::new(vec![request.clone(), request.clone()]);
    let state = composer_state(
        Some(&status("one")),
        Some(&held),
        &settings(),
        &ProvidersStatus::default(),
        0,
    );
    let pending = state.pending_approval.unwrap();
    assert_eq!(pending.id, request.id);
    assert_eq!(pending.turn_id, request.turn_id);
    assert_eq!(*pending.details.json, *request.details.json);
    assert_eq!(state.pending_approval_count, 2);
}

#[test]
fn composer_state_clamps_claude_context_window_to_selected_limit() {
    let mut status = status("one");
    status.provider = ProviderKind::ClaudeCode;
    status.requested_model = Some(name("sonnet-4-6"));
    status.provider_option_selections = Rc::new(vec![value("{\"contextWindow\":500000}")]);
    let mut held = timeline(0);
    held.usage = Some(TokenUsage {
        used_tokens: None,
        input_tokens: None,
        output_tokens: None,
        context_window: Some(1_000_000),
        total_processed_tokens: None,
    });
    let state = composer_state(
        Some(&status),
        Some(&held),
        &settings(),
        &ProvidersStatus::default(),
        500_000,
    );
    assert_eq!(state.token_usage.and_then(|usage| usage.context_window), Some(500_000));
}

#[test]
fn account_usage_eligibility_does_not_hide_session_context_or_supported_errors() {
    let profile = |supports_account_usage| ResolvedProfile {
        id: name("custom"),
        kind: ProviderKind::ClaudeCode,
        display_name: name("custom"),
        enabled: true,
        accent_color: None,
        native_approvals: false,
        supports_account_usage,
        settings: value("{}"),
    };
    let mut settings = settings();
    settings.profiles = Rc::new(vec![profile(false)]);
    let mut status = status("one");
    status.provider = ProviderKind::ClaudeCode;
    status.requested_profile_id = Some(name("custom"));
    let mut held = timeline(0);
    held.usage = Some(TokenUsage {
        used_tokens: Some(1234),
        input_tokens: None,
        output_tokens: None,
        context_window: None,
        total_processed_tokens: None,
    });
    let mut providers = ProvidersStatus::default();
    providers.provider_usage.insert(
        name("custom"),
        ProviderUsage { error: Some(name("temporarily unreachable")), windows: value("[]") },
    );
    let custom = composer_state(Some(&status), Some(&held), &settings, &providers, 0);
    assert_eq!(custom.token_usage.unwrap().used_tokens, Some(1234));
    assert!(custom.usage.is_none());
    settings.profiles = Rc::new(vec![profile(true)]);
    let native = composer_state(Some(&status), Some(&held), &settings, &providers, 0);
    assert_eq!(native.usage.unwrap().error.as_deref(), Some("temporarily unreachable"));
    assert_eq!(native.token_usage.unwrap().used_tokens, Some(1234));
}

#[test]
fn a_new_store_subscribes_to_settings_before_the_index() {
    let mut store = WorkspaceStore::new_attached(
        WorkspaceAttachment::Local,
        ConnectionState::Syncing,
        ClientPreferences::default(),
        false,
        settings(),
    );
    assert_eq!(
        subscribed(&store.take_effects()),
        ["Settings", "Index", "Providers", "RuntimeEvents"]
    );
    assert!(store.take_effects().is_empty());
    let mut own = WorkspaceStore::new(false, settings());
    assert!(!own.is_remote() && own.client_preferences.appearance.is_none());
    assert_eq!(own.take_effects().len(), 4);
}

#[test]
fn selection_is_immediate_and_idempotent_and_retires_old_loads() {
    let mut store = store();
    index(&mut store, vec![meta("one", None), meta("two", None)], vec![project("project")]);
    store.take_effects();
    store.select_session(name("one"));
    assert!(store.selects("one"));
    assert!(!subscribed(&store.take_effects()).is_empty());
    store.select_session(name("one"));
    assert!(store.take_effects().is_empty(), "a second tap must send nothing");
    store.select_session(name("two"));
    assert!(store.selects("two"));
    let effects = store.take_effects();
    assert!(effects.iter().any(|effect| matches!(
        effect,
        Effect::Unsubscribe { topic: Topic::SessionEvents { session_id } } if session_id == "one"
    )));
    let late = EventEnvelope {
        topic: events("one"),
        event: ServerEvent::SessionSnapshot { from: 0, records: records(3), total: 3, total_turns: 1 },
    };
    assert!(store.apply_domain_event(late, false, &outbox()).is_none());
    assert!(store.session_loading(), "a retired load must not replace the skeleton");
    assert_eq!(store.active_session_id().as_deref(), Some("two"));
}

#[test]
fn paged_history_keeps_event_and_turn_cursors_absolute() {
    let mut store = store();
    index(&mut store, vec![meta("large", None)], vec![project("project")]);
    shows(&mut store, "large");
    let work = apply(
        &mut store,
        events("large"),
        ServerEvent::SessionSnapshot {
            from: 1_800,
            records: records(200),
            total: 2_000,
            total_turns: 500,
        },
    );
    assert!(matches!(work, Some(TimelineWork::Fold { total_turns: 500, .. })));
    store.install_timeline(timeline(50), 500);
    assert_eq!(store.session_turn_offset, 450);
    store.select_session_at_turn(name("large"), 452);
    assert_eq!(store.pending_chat_turn("large"), Some(2), "the turn as the page counts it");
    store.take_pending_chat_turn("large", 2);
    assert_eq!(store.pending_chat_turn("large"), None);
    // An empty tail on reconnect establishes readiness and keeps the timeline.
    store.take_effects();
    let work = apply(
        &mut store,
        events("large"),
        ServerEvent::SessionSnapshot {
            from: 2_000,
            records: Vec::new(),
            total: 2_000,
            total_turns: 500,
        },
    );
    assert!(work.is_none());
    assert!(store.session_replica.is_some());
    assert_eq!(store.session_turn_offset, 450);
    let page = store.session_records.get(&name("large")).unwrap();
    assert_eq!(page.len(), 200);
}

#[test]
fn paged_history_counts_from_the_start_of_the_session() {
    let mut store = store();
    index(&mut store, vec![meta("large", None)], vec![project("project")]);
    shows(&mut store, "large");
    store.take_effects();
    apply(
        &mut store,
        events("large"),
        ServerEvent::SessionSnapshot {
            from: 1_800,
            records: records(200),
            total: 2_000,
            total_turns: 500,
        },
    );
    let cursors: Vec<u64> = store
        .take_effects()
        .iter()
        .filter_map(|effect| match effect {
            Effect::UpdateAfter { topic: Topic::SessionEvents { .. }, after } => Some(*after),
            _ => None,
        })
        .collect();
    assert_eq!(cursors, [2_000]);
    store.install_timeline(timeline(50), 500);
    store.take_effects();
    store.rewind_turn(2, value("\"conversation\""));
    assert!(matches!(
        store.take_effects().as_slice(),
        [Effect::Dispatch(Command::RewindTurn { turn: 452, .. })]
    ));
    // An empty tail makes the topic ready again, and keeps the timeline.
    store.apply_connection_state(ConnectionState::Syncing, Vec::new());
    assert!(!store.baseline_topics.contains(&events("large")));
    let work = apply(
        &mut store,
        events("large"),
        ServerEvent::SessionSnapshot {
            from: 2_000,
            records: Vec::new(),
            total: 2_000,
            total_turns: 500,
        },
    );
    assert!(work.is_none());
    assert!(store.baseline_topics.contains(&events("large")));
    assert_eq!(store.session_replica.as_ref().unwrap().timeline.turns.len(), 50);
}

#[test]
fn only_events_that_are_taken_have_to_be_countable() {
    let mut store = store();
    index(&mut store, vec![meta("one", None)], vec![project("project")]);
    let snapshot = |from, count| EventEnvelope {
        topic: events("one"),
        event: ServerEvent::SessionSnapshot {
            from,
            records: records(count),
            total: 0,
            total_turns: 0,
        },
    };
    assert!(store.admits(&snapshot(u64::MAX, 1)), "nothing is selected");
    shows(&mut store, "one");
    assert!(!store.admits(&snapshot(u64::MAX, 1)));
    assert!(store.admits(&snapshot(u64::MAX, 0)));
    apply(
        &mut store,
        events("one"),
        ServerEvent::SessionSnapshot { from: 0, records: records(2), total: 2, total_turns: 1 },
    );
    assert!(store.admits(&snapshot(u64::MAX, 1)), "it does not continue what is held");
    assert!(store.apply_domain_event(snapshot(u64::MAX, 1), true, &outbox()).is_none());
    assert!(store.session_replica.is_none(), "everything is asked for again");
}

#[test]
fn a_session_applied_again_changes_nothing() {
    let mut store = store();
    index(
        &mut store,
        vec![meta("one", None), meta("two", None), meta("three", None)],
        vec![project("project")],
    );
    let listed = |store: &WorkspaceStore| -> Vec<(String, u64)> {
        store.sessions.iter().map(|meta| (meta.id.clone(), meta.updated_at)).collect()
    };
    let newer = || SessionMeta { updated_at: u64::MAX, ..meta("two", None) };
    apply(&mut store, Topic::Index, ServerEvent::IndexUpsertSession(newer()));
    let once = listed(&store);
    assert_eq!(once[0], (name("two"), u64::MAX));
    apply(&mut store, Topic::Index, ServerEvent::IndexUpsertSession(newer()));
    assert_eq!(listed(&store), once);
}

#[test]
fn outside_answers_are_asked_for_with_what_the_store_holds() {
    let mut store = store();
    assert_eq!(store.chat_git_controls(|_, _| ()), None);
    assert_eq!(store.with_terminal_workspace(|_| ()), None);
    index(&mut store, vec![meta("one", None)], vec![project("project")]);
    shows(&mut store, "one");
    let open = status("one").terminals.len();
    assert_eq!(store.with_terminal_workspace(|status| status.terminals.len()), Some(open));
    let favorites = store.settings_replica.favorite_models.len();
    let asked = store.picker_models_for_profile("nobody", |question| {
        (question.catalog.len(), question.overrides.is_none(), question.favorites.len())
    });
    assert_eq!(asked, (0, true, favorites));
    let edited =
        store.provider_dialog_models("nobody", vec![name("mine")], Vec::new(), |question| {
            question.overrides.unwrap().custom_models
        });
    assert_eq!(edited, ["mine"]);
}

#[test]
fn a_mismatched_tail_asks_for_everything_and_records_are_held_once() {
    let mut store = store();
    index(&mut store, vec![meta("one", None)], vec![project("project")]);
    shows(&mut store, "one");
    apply(
        &mut store,
        events("one"),
        ServerEvent::SessionSnapshot { from: 0, records: records(2), total: 2, total_turns: 1 },
    );
    store.install_timeline(timeline(1), 1);
    store.take_effects();
    let work = apply(
        &mut store,
        events("one"),
        ServerEvent::SessionEvent(record(EventKind::Other)),
    );
    assert!(matches!(work, Some(TimelineWork::Append { .. })));
    store.advance_timeline(timeline(1));
    assert_eq!(store.session_records.get(&name("one")).unwrap().len(), 3);
    assert!(store
        .take_effects()
        .iter()
        .any(|effect| matches!(effect, Effect::UpdateAfter { after: 3, .. })));
    // A tail that starts past what is held does not fit.
    apply(
        &mut store,
        events("one"),
        ServerEvent::SessionSnapshot { from: 9, records: records(1), total: 10, total_turns: 2 },
    );
    assert!(store
        .take_effects()
        .iter()
        .any(|effect| matches!(effect, Effect::Subscribe { after: None, .. })));
    apply(
        &mut store,
        events("one"),
        ServerEvent::SessionSnapshot { from: 0, records: records(10), total: 10, total_turns: 2 },
    );
    assert_eq!(store.session_records.get(&name("one")).unwrap().len(), 10);
}

#[test]
fn reconnecting_keeps_replicas_until_all_baselines_arrive() {
    let mut store = remote();
    index(&mut store, vec![meta("one", None)], vec![project("project")]);
    apply(&mut store, Topic::Settings, ServerEvent::SettingsSnapshot(settings()));
    shows(&mut store, "one");
    apply(
        &mut store,
        events("one"),
        ServerEvent::SessionSnapshot { from: 0, records: records(1), total: 1, total_turns: 1 },
    );
    store.install_timeline(timeline(1), 1);
    store.apply_connection_state(ConnectionState::Connected, Vec::new());
    assert!(store.baseline_ready());
    assert_eq!(store.connection_state(), ConnectionState::Connected);
    store.apply_connection_state(
        ConnectionState::Reconnecting { attempt: 1, reason: Some(ConnectionFailure::Unreachable) },
        Vec::new(),
    );
    assert!(!store.baseline_ready());
    assert!(store.session_replica.is_some(), "the cached thread remains visible");
    assert_eq!(store.sidebar_sessions().len(), 1, "the cached list remains visible");
    store.take_effects();
    store.apply_connection_state(
        ConnectionState::Syncing,
        vec![Subscription { topic: Topic::Index, after: None }],
    );
    assert_eq!(subscribed(&store.take_effects()), ["Index"]);
    store.apply_connection_state(ConnectionState::Connected, Vec::new());
    assert_eq!(store.connection_state(), ConnectionState::Syncing, "nothing was replayed yet");
    store.apply_connection_state(ConnectionState::Syncing, Vec::new());
    assert!(!store.threads_loading() && !store.chat_loading(&outbox()));
    // Each part that is still missing leaves the link syncing.
    shows(&mut store, "one");
    assert_eq!(store.connection_state(), ConnectionState::Syncing);
    apply(
        &mut store,
        events("one"),
        ServerEvent::SessionSnapshot { from: 0, records: records(1), total: 1, total_turns: 1 },
    );
    store.install_timeline(timeline(1), 1);
    assert_eq!(store.connection_state(), ConnectionState::Syncing);
    apply(&mut store, Topic::Settings, ServerEvent::SettingsSnapshot(settings()));
    assert_eq!(store.connection_state(), ConnectionState::Syncing);
    index(&mut store, vec![meta("one", None)], vec![project("project")]);
    assert_eq!(store.connection_state(), ConnectionState::Connected);
    assert_eq!(store.active_session_id().as_deref(), Some("one"));
}

#[test]
fn a_remote_address_is_refreshed_once_per_attempt() {
    let mut store = remote();
    let lost = ConnectionState::Reconnecting { attempt: 4, reason: Some(ConnectionFailure::Unreachable) };
    store.refresh_address(lost);
    assert!(store
        .take_effects()
        .iter()
        .any(|effect| matches!(effect, Effect::RefreshOrigin { host_id } if host_id == "host")));
    store.refresh_address(lost);
    assert!(store.take_effects().is_empty());
    assert!(store.is_remote());
    assert_eq!(store.remote_host_name(), Some("Desk"));
    assert_eq!(store.remote_host_id(), Some("host"));
}

#[test]
fn archiving_the_viewed_child_returns_to_its_parent() {
    let mut store = store();
    index(
        &mut store,
        vec![meta("parent", None), meta("child", Some("parent")), meta("sibling", Some("parent"))],
        vec![project("project")],
    );
    shows(&mut store, "child");
    let archived = SessionMeta { archived_at: Some(9), ..meta("child", Some("parent")) };
    apply(&mut store, Topic::Index, ServerEvent::IndexUpsertSession(archived));
    assert!(store.selects("parent"));
    apply(&mut store, status_topic("parent"), ServerEvent::SessionStatusReplaced(status("parent")));
    let archived = SessionMeta { archived_at: Some(9), ..meta("sibling", Some("parent")) };
    apply(&mut store, Topic::Index, ServerEvent::IndexUpsertSession(archived));
    assert!(store.selects("parent"), "archiving a background thread moved the user");
}

#[test]
fn a_workspace_with_no_conversation_opens_the_remembered_projects_draft() {
    let mut store = store();
    let mut remembered = settings();
    remembered.last_project_id = Some(name("second"));
    apply(&mut store, Topic::Settings, ServerEvent::SettingsSnapshot(remembered));
    index(&mut store, Vec::new(), vec![project("first"), project("second")]);
    let drafts = |effects: Vec<Effect>| -> Vec<String> {
        effects
            .into_iter()
            .filter_map(|effect| match effect {
                Effect::Create { command: Command::StartDraft { project_id, .. }, .. } => {
                    Some(project_id)
                }
                _ => None,
            })
            .collect()
    };
    assert_eq!(drafts(store.take_effects()), ["second"]);
    index(&mut store, Vec::new(), vec![project("first"), project("second")]);
    assert!(drafts(store.take_effects()).is_empty(), "one fallback draft at a time");
    let mut empty = self::store();
    index(&mut empty, Vec::new(), Vec::new());
    assert!(
        drafts(empty.take_effects()).is_empty(),
        "a workspace with no project must stay on its add-project state"
    );
}

#[test]
fn an_undelivered_message_keeps_its_deleted_thread_on_screen() {
    let mut store = store();
    index(&mut store, vec![meta("deleted", None)], vec![project("project")]);
    shows(&mut store, "deleted");
    let entry = OutboxEntry {
        key: name("key"),
        session_id: Some(name("deleted")),
        command: Command::SendTurn {
            session_id: name("deleted"),
            text: name("keep my failed send"),
            attachment_paths: Vec::new(),
        },
    };
    let held = Outbox { pending: vec![entry], failed: Vec::new(), acknowledged: Vec::new() };
    store.apply_domain_event(
        EventEnvelope {
            topic: Topic::Index,
            event: ServerEvent::IndexRemoveSession { session_id: name("deleted") },
        },
        true,
        &held,
    );
    assert!(store.selects("deleted"));
    let messages = store.delivery_messages(&held).messages;
    assert_eq!(messages.len(), 1);
    assert_eq!(messages[0].text, "keep my failed send");
    assert!(messages[0].error.is_none() && !messages[0].acknowledged);
    let refused = Outbox {
        pending: Vec::new(),
        failed: vec![FailedEntry {
            key: name("key"),
            command: Command::SendTurn {
                session_id: name("deleted"),
                text: name("keep my failed send"),
                attachment_paths: Vec::new(),
            },
            message: name("gone"),
        }],
        acknowledged: Vec::new(),
    };
    let messages = store.delivery_messages(&refused).messages;
    assert_eq!(messages[0].error.as_deref(), Some("gone"));
    assert_eq!(WorkspaceStore::pending_write_count(&held), 1);
    assert!(WorkspaceStore::session_has_pending_writes(&held, "deleted"));
    assert_eq!(WorkspaceStore::pending_sessions(&held).len(), 1);
    store.apply_domain_event(
        EventEnvelope {
            topic: Topic::Index,
            event: ServerEvent::IndexRemoveSession { session_id: name("other") },
        },
        true,
        &outbox(),
    );
    assert!(!store.selects("deleted"), "with nothing to deliver the thread is left");
}

#[test]
fn committing_a_draft_carries_its_conversation_state_to_the_thread() {
    let mut store = store();
    index(&mut store, Vec::new(), vec![project("p")]);
    store.select_session(name("draft-p"));
    apply(
        &mut store,
        status_topic("draft-p"),
        ServerEvent::SessionStatusReplaced(draft("p")),
    );
    store.set_preview_url(ConversationDestination::ProjectDraft(name("p")), name("http://x"));
    let committed = SessionStatus { draft: false, project_id: Some(name("p")), ..status("draft-p") };
    apply(
        &mut store,
        status_topic("draft-p"),
        ServerEvent::SessionStatusReplaced(committed),
    );
    assert_eq!(
        store.preview_url(&ConversationDestination::Thread(name("draft-p"))).as_deref(),
        Some("http://x")
    );
    assert_eq!(
        store.preview_url(&ConversationDestination::ProjectDraft(name("p"))),
        None,
        "the committed draft's state was copied instead of moved"
    );
}

#[test]
fn removing_a_project_clears_its_drafts_state_and_keeps_the_user() {
    let mut store = store();
    index(
        &mut store,
        vec![meta("kept", None)],
        vec![project("doomed"), project("project")],
    );
    store.select_session(name("draft-doomed"));
    apply(
        &mut store,
        status_topic("draft-doomed"),
        ServerEvent::SessionStatusReplaced(draft("doomed")),
    );
    store.set_preview_url(ConversationDestination::ProjectDraft(name("doomed")), name("u"));
    shows(&mut store, "kept");
    apply(
        &mut store,
        Topic::Index,
        ServerEvent::IndexRemoveProject { project_id: name("doomed") },
    );
    assert_eq!(store.preview_url(&ConversationDestination::ProjectDraft(name("doomed"))), None);
    assert!(store.selects("kept"), "deleting a background project moved the user");
}

#[test]
fn blocks_and_advice_survive_until_the_next_turn_starts() {
    let mut store = store();
    index(&mut store, vec![meta("one", None)], vec![project("project")]);
    shows(&mut store, "one");
    apply(
        &mut store,
        events("one"),
        ServerEvent::SessionSnapshot { from: 0, records: Vec::new(), total: 0, total_turns: 0 },
    );
    store.install_timeline(timeline(0), 0);
    apply(
        &mut store,
        status_topic("one"),
        ServerEvent::ModelFallbackBlocked {
            session_id: name("one"),
            category: None,
            model: Some(name("model")),
            fallback_model: None,
            detail: name("request blocked by classifier"),
        },
    );
    apply(
        &mut store,
        status_topic("one"),
        ServerEvent::FallbackReviewReady {
            session_id: name("one"),
            assessment: name("looks like a false positive"),
            draft: name("I am auditing my own service."),
        },
    );
    assert!(store.active_fallback_block().is_some() && store.active_fallback_review().is_some());
    apply(&mut store, events("one"), ServerEvent::SessionEvent(record(EventKind::TurnCompleted)));
    assert!(store.active_fallback_block().is_some() && store.active_fallback_review().is_some());
    apply(&mut store, events("one"), ServerEvent::SessionEvent(record(EventKind::TurnStarted)));
    assert!(store.active_fallback_block().is_none() && store.active_fallback_review().is_none());
}

#[test]
fn prefills_stay_keyed_to_their_sessions() {
    let mut store = store();
    index(&mut store, vec![meta("first", None), meta("second", None)], vec![project("project")]);
    shows(&mut store, "first");
    for (id, text) in [("first", "first parked prefill"), ("second", "second parked prefill")] {
        apply(
            &mut store,
            status_topic(id),
            ServerEvent::NativeRewindPrefill { session_id: name(id), text: name(text) },
        );
    }
    assert_eq!(store.take_native_rewind_prefill().as_deref(), Some("first parked prefill"));
    assert_eq!(store.take_native_rewind_prefill(), None);
    shows(&mut store, "second");
    assert_eq!(store.take_native_rewind_prefill().as_deref(), Some("second parked prefill"));
}

#[test]
fn leaving_a_session_parks_what_it_was_doing() {
    let mut store = store();
    index(&mut store, vec![meta("first", None), meta("second", None)], vec![project("project")]);
    store.select_session(name("first"));
    let working = SessionStatus { working: true, turn_running: true, ..status("first") };
    apply(&mut store, status_topic("first"), ServerEvent::SessionStatusReplaced(working));
    assert_eq!(store.working_sessions_count(), 1);
    shows(&mut store, "second");
    assert_eq!(store.working_sessions_count(), 1);
    assert!(matches!(
        store.session_flags("first"),
        Some(SessionFlags { working: true, pending_user_input: false, .. })
    ));
    let asking = SessionStatus { pending_user_input: true, ..status("first") };
    apply(&mut store, status_topic("first"), ServerEvent::SessionStatusReplaced(asking));
    assert!(store.pending_user_input_for("first"));
    assert!(store.selects("second"));
}

#[test]
fn client_preferences_override_host_settings_only_when_set() {
    let mut store = store();
    let mut host = settings();
    host.theme_mode = ThemePreference::Dark;
    host.language = Some(name("de"));
    apply(&mut store, Topic::Settings, ServerEvent::SettingsSnapshot(host));
    assert_eq!(store.settings().theme_mode, ThemePreference::Dark);
    store.set_client_theme(Some(ThemePreference::Light));
    assert_eq!(store.settings().theme_mode, ThemePreference::Light);
    assert_eq!(store.client_theme_override(), Some(ThemePreference::Light));
    assert!(store.take_effects().iter().any(|effect| matches!(effect, Effect::SavePreferences)));
    store.set_client_theme(None);
    assert_eq!(
        store.settings().theme_mode,
        ThemePreference::Dark,
        "clearing the client override must reveal the replicated host fallback"
    );
    store.set_client_device_name(Some(name("Desk client")));
    assert_eq!(store.client_device_name(None, name("fallback")), "Desk client");
    store.set_client_device_name(None);
    assert_eq!(store.client_device_name(Some(name("fallback device")), name("app")), "fallback device");
}

#[test]
fn worktree_threads_carry_their_projects_name() {
    let mut store = store();
    index(&mut store, vec![meta("one", None)], vec![project("project")]);
    store.select_session(name("one"));
    let elsewhere = SessionStatus { cwd: name("/host/worktrees/x"), ..status("one") };
    apply(&mut store, status_topic("one"), ServerEvent::SessionStatusReplaced(elsewhere));
    assert_eq!(store.chat_project_name(&outbox()).ok().as_deref(), Some("My project"));
    assert_eq!(store.chat_project().unwrap().id, "project");
}

#[test]
fn readers_see_what_is_on_screen() {
    let mut store = store();
    assert!(store.with_active_timeline(|_| ()).is_none());
    assert!(store.with_composer_destination(|_, _, _| ()).is_none());
    assert!(store.tcode_update_status().is_none());
    index(&mut store, vec![meta("one", None)], vec![project("project")]);
    shows(&mut store, "one");
    let seen = store.with_composer_destination(|draft, id, project| {
        (draft, id.clone(), project.clone())
    });
    let expected = status("one");
    assert_eq!(seen, Some((expected.draft, expected.session_id, expected.project_id)));
    let mut held = timeline(2);
    held.turns = Rc::new(vec![
        TurnRecord { changes: None, provider_checkpoint_id: None },
        TurnRecord {
            changes: Some(TurnChanges { changes: Rc::new(vec![value("{}")]), complete: true }),
            provider_checkpoint_id: None,
        },
    ]);
    store.session_replica = Some(SessionReplica { session_id: name("one"), timeline: held });
    assert_eq!(store.with_active_timeline(|shown| shown.turns.len()), Some(2));
    assert_eq!(store.with_diff_turn_changes(0, |_| ()), None);
    assert_eq!(store.with_diff_turn_changes(1, |changes| changes.complete), Some(true));
    assert_eq!(store.with_diff_turn_changes(2, |_| ()), None);
}

#[test]
fn intents_name_the_session_on_screen() {
    let mut store = store();
    index(&mut store, vec![meta("one", None)], vec![project("project")]);
    shows(&mut store, "one");
    store.take_effects();
    store.restart_terminal();
    store.set_word_wrap_diffs(true);
    let effects = store.take_effects();
    assert!(matches!(
        &effects[0],
        Effect::Dispatch(Command::RestartTerminal { session_id }) if session_id == "one"
    ));
    assert!(matches!(
        &effects[1],
        Effect::Dispatch(Command::PatchSettings { patch: SettingsPatch::WordWrapDiffs(true) })
    ));
}

#[test]
fn questions_carry_what_they_are_about_and_wrong_answers_are_named() {
    let mut store = store();
    assert!(matches!(
        store.list_active_workspace(),
        HostQuery::ListActiveWorkspace { session_id } if session_id.is_empty()
    ));
    index(&mut store, vec![meta("one", None)], vec![project("project")]);
    shows(&mut store, "one");
    assert!(matches!(
        store.generate_commit_message(None),
        HostQuery::GenerateCommitMessage { session_id, included: None } if session_id == "one"
    ));
    assert!(matches!(
        store.search_session_content(name("word"), 7),
        HostQuery::SearchSessionContent { query, limit: 7 } if query == "word"
    ));
    assert!(matches!(store.read_file_bytes(name("p")), HostQuery::ReadFileBytes { path } if path == "p"));
    let wrong: Result<u8, String> =
        Reply::Unexpected(name("Pong")).or_error(AnswerName::ThreadExport);
    assert_eq!(wrong, Err(name("unexpected thread-export response: Pong")));
    let hosting: Result<u8, String> = Reply::Unexpected(name("Pong")).or_error(AnswerName::Hosting);
    assert_eq!(hosting, Err(name("unexpected hosting response")));
    let failed: Result<u8, String> = Reply::Failed(name("no")).or_error(AnswerName::GitDiff);
    assert_eq!(failed, Err(name("no")));
    assert_eq!(Reply::Expected(3u8).or_error(AnswerName::GitDiff), Ok(3));
    assert_eq!(Reply::Expected(vec![1u8]).or_nothing(), vec![1]);
    assert!(Reply::<Vec<u8>>::Failed(name("no")).or_nothing().is_empty());
    assert_eq!(store.grouped_sessions().sessions.len(), 1);
    assert!(store.archived_groups().sessions.is_empty());
    assert_eq!(store.settings_installed_acp_agents().len(), 1);
    assert_eq!(store.preview_proxy(&vec![name("host")]), PreviewProxy::Direct);
    assert_eq!(remote().preview_proxy(&vec![name("x"), name("host")]), PreviewProxy::Paired(1));
    assert_eq!(remote().preview_proxy(&vec![name("x")]), PreviewProxy::Unpaired);
}

#[test]
fn stale_git_status_does_not_follow_the_user() {
    let mut store = store();
    index(&mut store, vec![meta("one", None), meta("two", None)], vec![project("project")]);
    shows(&mut store, "one");
    apply(
        &mut store,
        Topic::GitStatus { session_id: name("one") },
        ServerEvent::GitStatusReplaced(GitStatusStatus { status: None, busy: true }),
    );
    assert!(store.git_status_replica.busy);
    shows(&mut store, "two");
    assert!(!store.git_status_replica.busy);
    shows(&mut store, "one");
    assert!(store.git_status_replica.busy);
}

#[test]
fn views_redraw_what_changed_and_seeding_waits_for_three_snapshots() {
    let event = |topic, event| EventEnvelope { topic, event };
    let runtime = event(Topic::RuntimeEvents, ServerEvent::Runtime(value("{}")));
    assert!(changes(LinkChange::Event(&runtime)).is_empty());
    let snapshot = event(Topic::Settings, ServerEvent::SettingsSnapshot(settings()));
    let redrawn = changes(LinkChange::Event(&snapshot));
    assert_eq!(redrawn, vec![StoreChange { topic: TopicKind::Settings }]);
    assert!(observes(&[TopicKind::Index, TopicKind::Settings], redrawn[0]));
    assert!(!observes(&[TopicKind::Index], redrawn[0]));
    assert_eq!(changes(LinkChange::Connection).len(), 2);
    assert_eq!(
        changes(LinkChange::Deliveries),
        vec![StoreChange { topic: TopicKind::SessionEvents }]
    );
    let mut seeded = SeedProgress::new();
    seeded.note(&snapshot);
    seeded.note(&event(Topic::Providers, ServerEvent::ProvidersReplaced(ProvidersStatus::default())));
    assert!(!seeded.complete());
    seeded.note(&runtime);
    seeded.note(&event(
        Topic::Index,
        ServerEvent::IndexSnapshot(IndexSnapshot {
            sessions: Vec::new(),
            projects: Vec::new(),
            title_generating: KeyedSet::new(),
            activity: KeyedMap::new(),
            working_started_at: KeyedMap::new(),
        }),
    ));
    assert!(seeded.complete());
}
