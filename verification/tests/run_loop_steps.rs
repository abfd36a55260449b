use worktree::events::{MouseInput, MouseKind};
use worktree::layout::Area;
use worktree::run_loop::{screen_areas, ScreenAreas};
use worktree::model::PromptType;
use worktree::screen::{effective_tab, filter_cursor, footer_hints, shown_state, FooterItem};
use worktree::domain::{GitCommit, GitStatus, StashEntry, Worktree};
use worktree::events::{AsyncResult, Effect, InputEvent, KeyCode, KeyInput};
use worktree::handlers::{RepoCall, Step};
use worktree::model::{
    AppMode, AppState, DashboardState, DashboardTab, RefreshType, StatusViewState,
};
use worktree::run_loop::{apply_async_result, handle_event, is_event_ready, no_areas, tick};

fn checkout(name: &str) -> Worktree {
    Worktree {
        path: format!("/p/{name}"),
        commit: "1234567".into(),
        branch: name.into(),
        is_bare: false,
        is_detached: false,
        status_summary: None,
        size_bytes: 0,
        metadata: None,
    }
}

fn dashboard(tab: DashboardTab) -> DashboardState {
    DashboardState { active_tab: tab, cached_status: None, cached_history: None, loading: false }
}

fn listing(ws: Vec<Worktree>, selected: Option<usize>, tab: DashboardTab, refresh: RefreshType, last: u64) -> AppState {
    AppState::ListingWorktrees {
        filtered_worktrees: ws.iter().map(|w| w.copy()).collect(),
        worktrees: ws,
        selected,
        refresh_needed: refresh,
        selection_mode: false,
        dashboard: dashboard(tab),
        filter_query: String::new(),
        is_filtering: false,
        mode: AppMode::Normal,
        last_selection_change: last,
    }
}

fn key(c: KeyCode) -> InputEvent {
    InputEvent::Key(KeyInput { code: c, ctrl: false, shift: false })
}

#[test]
fn failed_fetch_shows_error_over_previous_state() {
    let prev = listing(vec![checkout("a")], Some(0), DashboardTab::Info, RefreshType::Nothing, 0);
    let state = AppState::Fetching { branch: "a".into(), prev_state: Box::new(prev) };
    let (next, effects) = apply_async_result(state, AsyncResult::FetchCompleted { branch: "a".into(), result: Err("offline".into()) }, 5);
    assert!(effects.is_empty());
    match next {
        AppState::Error(msg, prev) => {
            assert_eq!(msg, "Fetch failed: offline");
            assert!(matches!(*prev, AppState::ListingWorktrees { .. }));
        }
        other => panic!("unexpected {:?}", other),
    }
}

#[test]
fn successful_fetch_requests_full_refresh() {
    let prev = listing(vec![checkout("a")], Some(0), DashboardTab::Info, RefreshType::Nothing, 0);
    let state = AppState::Fetching { branch: "a".into(), prev_state: Box::new(prev) };
    let (next, _) = apply_async_result(state, AsyncResult::FetchCompleted { branch: "a".into(), result: Ok(()) }, 5);
    assert!(matches!(next, AppState::ListingWorktrees { refresh_needed: RefreshType::Full, .. }));
}

#[test]
fn pull_success_shows_notice_then_returns() {
    let prev = listing(vec![checkout("a")], Some(0), DashboardTab::Info, RefreshType::Nothing, 0);
    let state = AppState::Pulling { branch: "a".into(), prev_state: Box::new(prev) };
    let (next, _) = apply_async_result(state, AsyncResult::PullCompleted { branch: "a".into(), result: Ok(()) }, 100);
    match &next {
        AppState::Timed { inner_state, start_time, duration, .. } => {
            assert!(matches!(**inner_state, AppState::PullComplete { .. }));
            assert_eq!(*start_time, 100);
            assert_eq!(*duration, 800);
        }
        other => panic!("unexpected {:?}", other),
    }
    // not yet
    let (still, effects) = tick(next, 899);
    assert!(matches!(still, AppState::Timed { .. }));
    assert!(effects.is_empty());
    // time is up: the listing comes back and reloads
    let (back, effects) = tick(still, 900);
    assert!(matches!(back, AppState::ListingWorktrees { refresh_needed: RefreshType::Nothing, .. }));
    assert!(matches!(&effects[..], [Effect::ListWorktrees]));
}

#[test]
fn unawaited_result_changes_nothing() {
    let state = AppState::Help { prev_state: Box::new(AppState::Welcome) };
    let (next, effects) = apply_async_result(state, AsyncResult::BranchesFetched { result: Ok(vec!["x".into()]) }, 0);
    assert!(matches!(next, AppState::Help { .. }));
    assert!(effects.is_empty());
}

#[test]
fn status_fetch_opens_status_view() {
    let state = AppState::LoadingStatus { path: "/p/a".into(), branch: "a".into(), prev_state: Box::new(AppState::Welcome) };
    let st = GitStatus { staged: vec![("f".into(), "M ".into())], unstaged: vec![], untracked: vec!["n".into()] };
    let (next, _) = apply_async_result(state, AsyncResult::StatusFetched { path: "/p/a".into(), result: Ok(st) }, 0);
    match next {
        AppState::ViewingStatus { status, .. } => {
            assert_eq!(status.staged.len(), 1);
            assert_eq!(status.untracked, vec!["n".to_string()]);
            assert_eq!(status.selected_index, 0);
            assert!(!status.show_diff);
        }
        other => panic!("unexpected {:?}", other),
    }
}

#[test]
fn dashboard_status_is_cached_for_the_selected_worktree() {
    let mut state = listing(vec![checkout("a")], Some(0), DashboardTab::Status, RefreshType::Nothing, 0);
    if let AppState::ListingWorktrees { dashboard, .. } = &mut state {
        dashboard.loading = true;
    }
    let st = GitStatus { staged: vec![], unstaged: vec![], untracked: vec![] };
    let (next, _) = apply_async_result(state, AsyncResult::StatusFetched { path: "/p/a".into(), result: Ok(st) }, 0);
    match next {
        AppState::ListingWorktrees { dashboard, .. } => {
            assert!(!dashboard.loading);
            assert!(dashboard.cached_status.is_some());
        }
        other => panic!("unexpected {:?}", other),
    }
}

#[test]
fn stash_list_reload_clamps_selection() {
    let state = AppState::LoadingStashes { path: "/p/a".into(), branch: "a".into(), selected_index: 5, prev_state: Box::new(AppState::Welcome) };
    let stashes = vec![
        StashEntry { index: 0, message: "one".into(), branch: "a".into() },
        StashEntry { index: 1, message: "two".into(), branch: "a".into() },
    ];
    let (next, _) = apply_async_result(state, AsyncResult::StashesFetched { path: "/p/a".into(), result: Ok(stashes) }, 0);
    assert!(matches!(next, AppState::ViewingStashes { selected_index: 1, .. }));
}

#[test]
fn worktree_list_refresh_selects_first_row() {
    let state = listing(vec![], None, DashboardTab::Info, RefreshType::Nothing, 0);
    let (next, _) = apply_async_result(state, AsyncResult::WorktreesListed { result: Ok(vec![checkout("a"), checkout("b")]) }, 0);
    match next {
        AppState::ListingWorktrees { worktrees, filtered_worktrees, selected, .. } => {
            assert_eq!(worktrees.len(), 2);
            assert_eq!(filtered_worktrees.len(), 2);
            assert_eq!(selected, Some(0));
        }
        other => panic!("unexpected {:?}", other),
    }
}

#[test]
fn refresh_requests_are_processed_and_dashboard_debounced() {
    let state = listing(vec![checkout("a")], Some(0), DashboardTab::Status, RefreshType::Full, 0);
    let (s1, e1) = tick(state, 100);
    assert!(matches!(&e1[..], [Effect::ListWorktrees]));
    assert!(matches!(s1, AppState::ListingWorktrees { refresh_needed: RefreshType::Nothing, .. }));
    // the selection rested for 200 ms: the status of the selected worktree is fetched once
    let (s2, e2) = tick(s1, 200);
    assert!(matches!(&e2[..], [Effect::FetchStatus { path }] if path == "/p/a"));
    assert!(matches!(s2, AppState::ListingWorktrees { ref dashboard, .. } if dashboard.loading));
    let (_, e3) = tick(s2, 300);
    assert!(e3.is_empty());
    // the log tab fetches ten commits
    let log = listing(vec![checkout("a")], Some(0), DashboardTab::Log, RefreshType::Nothing, 0);
    let (_, e4) = tick(log, 250);
    assert!(matches!(&e4[..], [Effect::FetchHistory { limit: 10, .. }]));
    // too early
    let early = listing(vec![checkout("a")], Some(0), DashboardTab::Log, RefreshType::Nothing, 100);
    let (_, e5) = tick(early, 250);
    assert!(e5.is_empty());
}

#[test]
fn escape_on_help_exits_and_loading_states_ignore_keys() {
    let help = AppState::Help { prev_state: Box::new(AppState::Welcome) };
    match handle_event(&help, &key(KeyCode::Esc), no_areas(), 80, 0) {
        Step::Next(AppState::Exiting(None), e) => assert!(e.is_empty()),
        other => panic!("unexpected {:?}", other),
    }
    let loading = AppState::LoadingBranches { prev_state: Box::new(AppState::Welcome) };
    assert!(matches!(handle_event(&loading, &key(KeyCode::Esc), no_areas(), 80, 0), Step::Next(AppState::LoadingBranches { .. }, _)));
}

fn status_state(staged: usize, show_diff: bool, selected: usize) -> AppState {
    AppState::ViewingStatus {
        path: "/p/a".into(),
        branch: "a".into(),
        status: StatusViewState {
            staged: (0..staged).map(|i| (format!("f{i}"), "M ".to_string())).collect(),
            unstaged: vec![("u".into(), " M".into())],
            untracked: vec!["n".into()],
            selected_index: selected,
            diff_preview: None,
            show_diff,
        },
        prev_state: Box::new(AppState::Welcome),
    }
}

#[test]
fn status_view_keys() {
    let s = status_state(2, false, 3);
    assert!(is_event_ready(&s));
    // down wraps from the last file to the first
    match handle_event(&s, &key(KeyCode::Char('J')), no_areas(), 80, 0) {
        Step::Next(AppState::ViewingStatus { status, .. }, e) => {
            assert_eq!(status.selected_index, 0);
            assert!(e.is_empty());
        }
        other => panic!("unexpected {:?}", other),
    }
    // space on an untracked file stages it
    match handle_event(&s, &key(KeyCode::Char(' ')), no_areas(), 80, 0) {
        Step::Next(AppState::Staging { .. }, e) => assert!(matches!(&e[..], [Effect::StageFile { file, .. }] if file == "n")),
        other => panic!("unexpected {:?}", other),
    }
    // space on a staged file unstages it
    let s0 = status_state(2, false, 1);
    match handle_event(&s0, &key(KeyCode::Char(' ')), no_areas(), 80, 0) {
        Step::Next(AppState::Unstaging { .. }, e) => assert!(matches!(&e[..], [Effect::UnstageFile { file, .. }] if file == "f1")),
        other => panic!("unexpected {:?}", other),
    }
    // shift+s asks for the stash list first
    let ev = InputEvent::Key(KeyInput { code: KeyCode::Char('S'), ctrl: false, shift: true });
    assert!(matches!(handle_event(&s, &ev, no_areas(), 80, 0), Step::Call(RepoCall::ListStashes { .. }, None)));
    // with the diff shown, moving reloads it
    let d = status_state(2, true, 0);
    assert!(matches!(handle_event(&d, &key(KeyCode::Down), no_areas(), 80, 0), Step::Next(AppState::LoadingDiff { .. }, _)));
    // q goes back
    assert!(matches!(handle_event(&s, &key(KeyCode::Char('q')), no_areas(), 80, 0), Step::Next(AppState::Welcome, _)));
}

fn commit(hash: &str) -> GitCommit {
    GitCommit { hash: hash.into(), author: "x".into(), date: "d".into(), message: "m".into(), graph: String::new() }
}

#[test]
fn history_navigation_skips_graph_only_lines() {
    let state = AppState::ViewingHistory {
        branch: "a".into(),
        commits: vec![commit("a1"), commit(""), commit(""), commit("b2"), commit("")],
        selected_index: 0,
        prev_state: Box::new(AppState::Welcome),
    };
    match handle_event(&state, &key(KeyCode::Char('j')), no_areas(), 80, 0) {
        Step::Next(AppState::ViewingHistory { selected_index, .. }, _) => assert_eq!(selected_index, 3),
        other => panic!("unexpected {:?}", other),
    }
    match handle_event(&state, &key(KeyCode::Char('k')), no_areas(), 80, 0) {
        Step::Next(AppState::ViewingHistory { selected_index, .. }, _) => assert_eq!(selected_index, 3),
        other => panic!("unexpected {:?}", other),
    }
    let lonely = AppState::ViewingHistory {
        branch: "a".into(),
        commits: vec![commit("a1"), commit("")],
        selected_index: 0,
        prev_state: Box::new(AppState::Welcome),
    };
    match handle_event(&lonely, &key(KeyCode::Down), no_areas(), 80, 0) {
        Step::Next(AppState::ViewingHistory { selected_index, .. }, _) => assert_eq!(selected_index, 0),
        other => panic!("unexpected {:?}", other),
    }
}

#[test]
fn status_click_uses_the_columns_on_screen() {
    let s = status_state(2, false, 0);
    let staged = Area { x: 10, y: 5, width: 20, height: 10 };
    let unstaged = Area { x: 30, y: 5, width: 20, height: 10 };
    let areas = ScreenAreas { status_columns: Some((staged, unstaged)), history_popup: None };
    // the unstaged column's first row is its first file
    let click = InputEvent::Mouse(MouseInput { kind: MouseKind::LeftDown, column: 35, row: 5 });
    match handle_event(&s, &click, areas, 80, 0) {
        Step::Next(AppState::ViewingStatus { status, .. }, _) => assert_eq!(status.selected_index, 2),
        other => panic!("unexpected {:?}", other),
    }
    // areas are computed only for the screens that take clicks
    let a = screen_areas(&s, Some((100, 40)));
    assert!(a.status_columns.is_some() && a.history_popup.is_none());
    assert!(screen_areas(&s, None).status_columns.is_none());
    assert!(screen_areas(&AppState::Welcome, Some((100, 40))).status_columns.is_none());
}

#[test]
fn previous_state_of_menus_and_prompts() {
    let p = AppState::Prompting { prompt_type: PromptType::CommitMessage, input: String::new(), prev_state: Box::new(AppState::Welcome) };
    assert!(matches!(p.prev_state_boxed(), AppState::Welcome));
    let b = AppState::SwitchingBranch { path: "/p".into(), branches: vec![], selected_index: 0, prev_state: Box::new(AppState::WorktreeRemoved) };
    assert!(matches!(b.prev_state_boxed(), AppState::WorktreeRemoved));
}

#[test]
fn footer_and_shown_state() {
    let keys: Vec<&str> = footer_hints(&AppState::Welcome)
        .iter()
        .filter_map(|i| match i { FooterItem::Key { key, .. } => Some(*key), FooterItem::Gap => None })
        .collect();
    assert_eq!(keys, vec!["[I]", "[C]", "[Q]"]);
    let help = AppState::Help { prev_state: Box::new(AppState::Welcome) };
    assert!(matches!(footer_hints(&help)[..], [FooterItem::Key { key: "[ESC]", label: "BACK", .. }]));
    let timed = AppState::Timed {
        inner_state: Box::new(AppState::WorktreeRemoved),
        target_state: Box::new(AppState::Welcome),
        start_time: 0,
        duration: 10,
    };
    assert!(matches!(shown_state(&timed), AppState::WorktreeRemoved));
    let area = worktree::layout::Area { x: 0, y: 18, width: 40, height: 3 };
    assert_eq!(filter_cursor(area, 3), (4, 19));
    assert_eq!(filter_cursor(area, 60), (39, 19));
}

fn footer_text(state: &AppState) -> String {
    footer_hints(state)
        .iter()
        .map(|i| match i {
            FooterItem::Key { key, label, .. } => format!("{key} {label} "),
            FooterItem::Gap => " | ".to_string(),
        })
        .collect()
}

#[test]
fn test_footer_render_help_shortcut() {
    let state = listing(vec![], None, DashboardTab::Info, RefreshType::Nothing, 0);
    let content = footer_text(&state);
    assert!(content.contains("[?]"));
    assert!(content.contains("HELP"));
}

#[test]
fn test_footer_render_filter_shortcuts() {
    let mut state = listing(vec![], None, DashboardTab::Info, RefreshType::Nothing, 0);
    if let AppState::ListingWorktrees { is_filtering, mode, .. } = &mut state {
        *is_filtering = true;
        *mode = AppMode::Filter;
    }
    let content = footer_text(&state);
    assert!(content.contains("[^U]"));
    assert!(content.contains("CLEAR"));
    assert!(content.contains("[ESC]"));
    assert!(content.contains("CANCEL"));
}

#[test]
fn test_draw_timed_state() {
    let prev_state = Box::new(AppState::Welcome);
    let state = AppState::Timed {
        inner_state: Box::new(AppState::SyncComplete { branch: "test-branch".to_string(), prev_state: Box::new(AppState::Welcome) }),
        target_state: prev_state,
        start_time: 0,
        duration: 800,
    };
    match shown_state(&state) {
        AppState::SyncComplete { branch, .. } => assert_eq!(branch, "test-branch"),
        other => panic!("unexpected {:?}", other),
    }
}

#[test]
fn test_render_listing_sets_cursor_when_filtering() {
    // a 100x20 frame: the list's filter box is the bottom three rows of the
    // left 40%, and the query "foo" is three cells wide
    let filter_box = Area { x: 0, y: 17, width: 40, height: 3 };
    assert_eq!(filter_cursor(filter_box, 3), (4, 18));
}

#[test]
fn dashboard_tab_follows_the_mode() {
    assert!(matches!(effective_tab(AppMode::Git, DashboardTab::Log), DashboardTab::Status));
    assert!(matches!(effective_tab(AppMode::Manage, DashboardTab::Log), DashboardTab::Info));
    assert!(matches!(effective_tab(AppMode::Normal, DashboardTab::Log), DashboardTab::Log));
}
