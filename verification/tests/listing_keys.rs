use worktree::domain::Worktree;
use worktree::events::{Effect, InputEvent, KeyCode, KeyInput, MouseInput, MouseKind};
use worktree::listing::handle_listing_events;
use worktree::model::{AppMode, AppState, DashboardState, DashboardTab, Intent, RefreshType};

fn hub() -> Worktree {
    Worktree {
        path: "/path/to/hub".into(),
        commit: "abcdef1".into(),
        branch: "main".into(),
        is_bare: true,
        is_detached: false,
        status_summary: None,
        size_bytes: 0,
        metadata: None,
    }
}

fn checkout(name: &str) -> Worktree {
    Worktree {
        path: format!("/path/to/{name}"),
        commit: "1234567".into(),
        branch: name.into(),
        is_bare: false,
        is_detached: false,
        status_summary: Some("clean".into()),
        size_bytes: 0,
        metadata: None,
    }
}

fn listing(worktrees: Vec<Worktree>, query: &str, mode: AppMode, selected: Option<usize>) -> AppState {
    AppState::ListingWorktrees {
        filtered_worktrees: worktrees.iter().map(|w| w.copy()).collect(),
        worktrees,
        selected,
        refresh_needed: RefreshType::Nothing,
        selection_mode: false,
        dashboard: DashboardState {
            active_tab: DashboardTab::Info,
            cached_status: None,
            cached_history: None,
            loading: false,
        },
        filter_query: query.to_string(),
        is_filtering: mode == AppMode::Filter,
        mode,
        last_selection_change: 0,
    }
}

fn key(c: KeyCode) -> InputEvent {
    InputEvent::Key(KeyInput { code: c, ctrl: false, shift: false })
}

#[test]
fn test_handle_listing_events_normal_mode_system_actions() {
    let state = listing(vec![hub()], "", AppMode::Normal, Some(0));

    let (res, effects) = handle_listing_events(&key(KeyCode::Char('f')), &state, 80, 0);
    match res {
        Some(AppState::Fetching { branch, .. }) => assert_eq!(branch, "main"),
        other => panic!("Expected Fetching state, got {:?}", other),
    }
    assert!(matches!(&effects[..], [Effect::Fetch { path, branch }] if path == "/path/to/hub" && branch == "main"));

    let (res, _) = handle_listing_events(&key(KeyCode::Char('c')), &state, 80, 0);
    match res {
        Some(AppState::Confirming { title, action, .. }) => {
            assert_eq!(title, " PRUNE ");
            assert!(matches!(*action, Intent::CleanWorktrees { dry_run: false, artifacts: false }));
        }
        other => panic!("Expected Confirming state for prune, got {:?}", other),
    }

    let (res, effects) = handle_listing_events(&key(KeyCode::Char('o')), &state, 80, 0);
    assert!(res.is_none());
    assert!(matches!(&effects[..], [Effect::OpenRootInFileManager]));
}

#[test]
fn test_handle_listing_events_filter_ctrl_u() {
    let state = listing(vec![hub()], "some filter text", AppMode::Filter, Some(0));
    let ev = InputEvent::Key(KeyInput { code: KeyCode::Char('u'), ctrl: true, shift: false });
    let (res, _) = handle_listing_events(&ev, &state, 80, 0);
    match res {
        Some(AppState::ListingWorktrees { filter_query, mode, is_filtering, filtered_worktrees, .. }) => {
            assert_eq!(filter_query, "", "Filter query should be empty after Ctrl+U");
            assert_eq!(mode, AppMode::Filter);
            assert!(is_filtering);
            assert_eq!(filtered_worktrees.len(), 1);
        }
        other => panic!("Expected ListingWorktrees state, got {:?}", other),
    }
}

#[test]
fn escape_in_filter_clears_query_and_leaves_filter_mode() {
    let state = listing(vec![checkout("main"), checkout("dev")], "dev", AppMode::Filter, Some(0));
    let (res, effects) = handle_listing_events(&key(KeyCode::Esc), &state, 80, 7);
    assert!(effects.is_empty());
    match res {
        Some(AppState::ListingWorktrees { filter_query, mode, is_filtering, filtered_worktrees, refresh_needed, last_selection_change, .. }) => {
            assert_eq!(filter_query, "");
            assert_eq!(mode, AppMode::Normal);
            assert!(!is_filtering);
            assert_eq!(filtered_worktrees.len(), 2);
            assert_eq!(refresh_needed, RefreshType::Dashboard);
            assert_eq!(last_selection_change, 7);
        }
        other => panic!("unexpected {:?}", other),
    }
}

#[test]
fn typing_filters_and_backspace_removes_a_character() {
    let state = listing(vec![checkout("main"), checkout("feature-login")], "lo", AppMode::Filter, Some(0));
    let (res, _) = handle_listing_events(&key(KeyCode::Char('g')), &state, 80, 0);
    match res {
        Some(AppState::ListingWorktrees { filter_query, filtered_worktrees, .. }) => {
            assert_eq!(filter_query, "log");
            assert_eq!(filtered_worktrees.len(), 1);
            assert_eq!(filtered_worktrees[0].branch, "feature-login");
        }
        other => panic!("unexpected {:?}", other),
    }
    let (res, _) = handle_listing_events(&key(KeyCode::Backspace), &state, 80, 0);
    match res {
        Some(AppState::ListingWorktrees { filter_query, .. }) => assert_eq!(filter_query, "l"),
        other => panic!("unexpected {:?}", other),
    }
    let empty = listing(vec![checkout("main")], "", AppMode::Filter, Some(0));
    let (res, _) = handle_listing_events(&key(KeyCode::Backspace), &empty, 80, 0);
    assert!(res.is_none());
}

#[test]
fn moving_down_then_up_returns_to_the_same_row() {
    let state = listing(vec![checkout("a"), checkout("b"), checkout("c")], "", AppMode::Normal, Some(2));
    let (down, _) = handle_listing_events(&key(KeyCode::Char('j')), &state, 80, 1);
    let down = down.unwrap();
    match &down {
        AppState::ListingWorktrees { selected, refresh_needed, .. } => {
            assert_eq!(*selected, Some(0));
            assert_eq!(*refresh_needed, RefreshType::Dashboard);
        }
        _ => panic!(),
    }
    let (up, _) = handle_listing_events(&key(KeyCode::Up), &down, 80, 2);
    match up.unwrap() {
        AppState::ListingWorktrees { selected, .. } => assert_eq!(selected, Some(2)),
        _ => panic!(),
    }
}

#[test]
fn view_status_and_log_start_background_work() {
    let state = listing(vec![hub(), checkout("dev")], "", AppMode::Normal, Some(1));
    let (res, effects) = handle_listing_events(&key(KeyCode::Char('v')), &state, 80, 0);
    assert!(matches!(res, Some(AppState::LoadingStatus { ref path, ref branch, .. }) if path == "/path/to/dev" && branch == "dev"));
    assert!(matches!(&effects[..], [Effect::FetchStatus { path }] if path == "/path/to/dev"));
    let (res, effects) = handle_listing_events(&key(KeyCode::Char('l')), &state, 80, 0);
    assert!(matches!(res, Some(AppState::LoadingHistory { .. })));
    assert!(matches!(&effects[..], [Effect::FetchHistory { limit: 50, .. }]));
    // on the hub, neither works
    let on_hub = listing(vec![hub(), checkout("dev")], "", AppMode::Normal, Some(0));
    let (res, effects) = handle_listing_events(&key(KeyCode::Char('v')), &on_hub, 80, 0);
    assert!(res.is_none() && effects.is_empty());
}

#[test]
fn manage_mode_remove_asks_for_confirmation() {
    let state = listing(vec![hub(), checkout("dev")], "", AppMode::Manage, Some(1));
    let (res, _) = handle_listing_events(&key(KeyCode::Char('D')), &state, 80, 0);
    match res {
        Some(AppState::Confirming { title, message, action, .. }) => {
            assert_eq!(title, " FORCE REMOVE ");
            assert_eq!(message, "Are you sure you want to FORCE remove worktree 'dev'?");
            assert!(matches!(*action, Intent::RemoveWorktree { ref intent, force: true } if intent == "/path/to/dev"));
        }
        other => panic!("unexpected {:?}", other),
    }
    let (res, _) = handle_listing_events(&key(KeyCode::Char('d')), &state, 80, 0);
    match res {
        Some(AppState::Confirming { title, message, .. }) => {
            assert_eq!(title, " REMOVE ");
            assert_eq!(message, "Are you sure you want to remove worktree 'dev'?");
        }
        other => panic!("unexpected {:?}", other),
    }
}

#[test]
fn git_mode_rebase_and_escape() {
    let state = listing(vec![hub(), checkout("dev")], "", AppMode::Git, Some(1));
    let (res, _) = handle_listing_events(&key(KeyCode::Char('R')), &state, 80, 0);
    assert!(matches!(res, Some(AppState::Confirming { ref message, .. }) if message == "Rebase 'dev' onto its upstream?"));
    let (res, effects) = handle_listing_events(&key(KeyCode::Char('p')), &state, 80, 0);
    assert!(matches!(res, Some(AppState::Pulling { .. })));
    assert!(matches!(&effects[..], [Effect::Pull { .. }]));
    let (res, _) = handle_listing_events(&key(KeyCode::Esc), &state, 80, 0);
    assert!(matches!(res, Some(AppState::ListingWorktrees { mode: AppMode::Normal, .. })));
}

#[test]
fn mouse_click_selects_row_and_tabs() {
    let state = listing(vec![checkout("a"), checkout("b"), checkout("c")], "", AppMode::Normal, Some(0));
    // width 102: list is 40 cells wide; row 6 is the second worktree
    let click = |col: u16, row: u16| InputEvent::Mouse(MouseInput { kind: MouseKind::LeftDown, column: col, row });
    let (res, _) = handle_listing_events(&click(10, 6), &state, 102, 0);
    assert!(matches!(res, Some(AppState::ListingWorktrees { selected: Some(1), .. })));
    // past the rows: nothing
    let (res, _) = handle_listing_events(&click(10, 20), &state, 102, 0);
    assert!(res.is_none());
    // the dashboard's third tab header is 24..36 cells right of the list
    let (res, _) = handle_listing_events(&click(41 + 30, 4), &state, 102, 0);
    assert!(matches!(res, Some(AppState::ListingWorktrees { ref dashboard, .. }) if dashboard.active_tab == DashboardTab::Log));
    let (res, _) = handle_listing_events(&click(41 + 40, 4), &state, 102, 0);
    assert!(res.is_none());
}

#[test]
fn quit_and_help() {
    let state = listing(vec![checkout("a")], "", AppMode::Normal, Some(0));
    let (res, _) = handle_listing_events(&key(KeyCode::Char('q')), &state, 80, 0);
    assert!(matches!(res, Some(AppState::Exiting(None))));
    let (res, _) = handle_listing_events(&key(KeyCode::Char('?')), &state, 80, 0);
    assert!(matches!(res, Some(AppState::Help { .. })));
}
