use worktree::domain::{GitStatus, StashEntry, Worktree};
use worktree::events::{Effect, InputEvent, KeyCode, KeyInput};
use worktree::handlers::{RepoCall, RepoReply, Step};
use worktree::dialogs::resume;
use worktree::model::{
    AppMode, AppState, DashboardState, DashboardTab, EditorConfig, Intent, PromptType,
    RefreshType, StatusViewState,
};
use worktree::run_loop::{handle_event, no_areas};

fn key(c: KeyCode) -> InputEvent {
    InputEvent::Key(KeyInput { code: c, ctrl: false, shift: false })
}

fn step(state: &AppState, c: KeyCode) -> Step {
    handle_event(state, &key(c), no_areas(), 80, 0)
}

fn next_state(s: Step) -> AppState {
    match s {
        Step::Next(a, _) => a,
        other => panic!("unexpected {:?}", other),
    }
}

#[test]
fn branch_menu_switches_selected_branch() {
    let state = AppState::SwitchingBranch {
        path: "/p/a".into(),
        branches: vec!["main".into(), "dev".into()],
        selected_index: 0,
        prev_state: Box::new(AppState::Welcome),
    };
    let moved = next_state(step(&state, KeyCode::Char('k')));
    assert!(matches!(moved, AppState::SwitchingBranch { selected_index: 1, .. }));
    match step(&moved, KeyCode::Enter) {
        Step::Next(AppState::SwitchingBranchTask { path, prev_state }, e) => {
            assert_eq!(path, "/p/a");
            assert!(matches!(*prev_state, AppState::Welcome));
            assert!(matches!(&e[..], [Effect::SwitchBranch { branch, .. }] if branch == "dev"));
        }
        other => panic!("unexpected {:?}", other),
    }
}

#[test]
fn base_ref_picker_prompts_for_a_name() {
    let state = AppState::PickingBaseRef { branches: vec!["main".into()], selected_index: 0, prev_state: Box::new(AppState::Welcome) };
    match next_state(step(&state, KeyCode::Enter)) {
        AppState::Prompting { prompt_type: PromptType::NameNewWorktree { base_ref }, input, .. } => {
            assert_eq!(base_ref, "main");
            assert_eq!(input, "");
        }
        other => panic!("unexpected {:?}", other),
    }
}

#[test]
fn commit_menu_options() {
    let state = AppState::Committing { path: "/p/a".into(), branch: "a".into(), selected_index: 0, prev_state: Box::new(AppState::Welcome) };
    assert!(matches!(next_state(step(&state, KeyCode::Enter)), AppState::Prompting { prompt_type: PromptType::CommitMessage, .. }));
    let up = next_state(step(&state, KeyCode::Up));
    assert!(matches!(up, AppState::Committing { selected_index: 2, .. }));
    assert!(matches!(next_state(step(&up, KeyCode::Enter)), AppState::Prompting { prompt_type: PromptType::ApiKey, .. }));
    let ai = next_state(step(&state, KeyCode::Down));
    match step(&ai, KeyCode::Enter) {
        Step::Next(AppState::GeneratingCommitMessage { .. }, e) => assert!(matches!(&e[..], [Effect::GenerateCommitMessage { .. }])),
        other => panic!("unexpected {:?}", other),
    }
}

fn listing_with(ws: Vec<Worktree>, selected: Option<usize>) -> AppState {
    AppState::ListingWorktrees {
        filtered_worktrees: ws.iter().map(|w| w.copy()).collect(),
        worktrees: ws,
        selected,
        refresh_needed: RefreshType::Nothing,
        selection_mode: false,
        dashboard: DashboardState { active_tab: DashboardTab::Info, cached_status: None, cached_history: None, loading: false },
        filter_query: String::new(),
        is_filtering: false,
        mode: AppMode::Normal,
        last_selection_change: 0,
    }
}

#[test]
fn editor_menu_opens_selected_worktree() {
    let wt = Worktree { path: "/p/a".into(), commit: "c".into(), branch: "a".into(), is_bare: false, is_detached: false, status_summary: None, size_bytes: 0, metadata: None };
    let state = AppState::SelectingEditor {
        branch: "a".into(),
        options: EditorConfig::defaults(),
        selected: 0,
        prev_state: Box::new(listing_with(vec![wt], Some(0))),
    };
    let last = next_state(step(&state, KeyCode::Up));
    assert!(matches!(last, AppState::SelectingEditor { selected: 7, .. }));
    match step(&state, KeyCode::Enter) {
        Step::Next(AppState::Timed { inner_state, duration: 800, .. }, e) => {
            assert!(matches!(*inner_state, AppState::OpeningEditor { ref editor, .. } if editor == "code"));
            assert!(matches!(&e[..], [Effect::SavePreferredEditor { editor }, Effect::SpawnEditor { command, path }] if editor == "code" && command == "code" && path == "/p/a"));
        }
        other => panic!("unexpected {:?}", other),
    }
}

#[test]
fn confirm_removal_and_failure_message() {
    let state = AppState::Confirming {
        title: " REMOVE ".into(),
        message: "?".into(),
        action: Box::new(Intent::RemoveWorktree { intent: "/p/a".into(), force: false }),
        prev_state: Box::new(AppState::Welcome),
    };
    let call = match step(&state, KeyCode::Char('Y')) {
        Step::Call(c, None) => c,
        other => panic!("unexpected {:?}", other),
    };
    assert!(matches!(call, RepoCall::RemoveWorktree { ref path, force: false } if path == "/p/a"));
    match resume(&state, &call, RepoReply::Done(Err("locked".into())), 0) {
        Step::Next(AppState::Error(msg, prev), _) => {
            assert_eq!(msg, "Failed to remove worktree: locked");
            assert!(matches!(*prev, AppState::Welcome));
        }
        other => panic!("unexpected {:?}", other),
    }
    assert!(matches!(resume(&state, &call, RepoReply::Done(Ok(())), 0), Step::Next(AppState::Welcome, _)));
    assert!(matches!(step(&state, KeyCode::Char('n')), Step::Next(AppState::Welcome, _)));
}

fn stash(i: usize) -> StashEntry {
    StashEntry { index: i, message: format!("m{i}"), branch: "a".into() }
}

#[test]
fn stash_drop_then_reload_clamps() {
    let state = AppState::ViewingStashes { path: "/p/a".into(), branch: "a".into(), stashes: vec![stash(0), stash(1)], selected_index: 1, prev_state: Box::new(AppState::Welcome) };
    let call = match step(&state, KeyCode::Char('d')) {
        Step::Call(c, _) => c,
        other => panic!("unexpected {:?}", other),
    };
    assert!(matches!(call, RepoCall::DropStash { index: 1, .. }));
    let list = match resume(&state, &call, RepoReply::Done(Ok(())), 0) {
        Step::Call(c, _) => c,
        other => panic!("unexpected {:?}", other),
    };
    assert!(matches!(list, RepoCall::ListStashes { .. }));
    match resume(&state, &list, RepoReply::Stashes(Ok(vec![stash(0)])), 0) {
        Step::Next(AppState::ViewingStashes { stashes, selected_index, .. }, _) => {
            assert_eq!(stashes.len(), 1);
            assert_eq!(selected_index, 0);
        }
        other => panic!("unexpected {:?}", other),
    }
    match resume(&state, &call, RepoReply::Done(Err("no".into())), 0) {
        Step::Next(AppState::Error(msg, prev), _) => {
            assert_eq!(msg, "Failed to drop stash: no");
            assert!(matches!(*prev, AppState::ViewingStashes { .. }));
        }
        other => panic!("unexpected {:?}", other),
    }
    // Up from the first stash wraps to the last
    let top = AppState::ViewingStashes { path: "/p/a".into(), branch: "a".into(), stashes: vec![stash(0), stash(1)], selected_index: 0, prev_state: Box::new(AppState::Welcome) };
    assert!(matches!(next_state(step(&top, KeyCode::Up)), AppState::ViewingStashes { selected_index: 1, .. }));
}

#[test]
fn prompt_typing_and_new_worktree() {
    let state = AppState::Prompting { prompt_type: PromptType::NameNewWorktree { base_ref: "main".into() }, input: "fe".into(), prev_state: Box::new(AppState::Welcome) };
    let typed = next_state(step(&state, KeyCode::Char('x')));
    assert!(matches!(typed, AppState::Prompting { ref input, .. } if input == "fex"));
    let erased = next_state(step(&typed, KeyCode::Backspace));
    assert!(matches!(erased, AppState::Prompting { ref input, .. } if input == "fe"));
    let padded = AppState::Prompting { prompt_type: PromptType::NameNewWorktree { base_ref: "main".into() }, input: "  feat  ".into(), prev_state: Box::new(AppState::Welcome) };
    let (call, showing) = match step(&padded, KeyCode::Enter) {
        Step::Call(c, s) => (c, s),
        other => panic!("unexpected {:?}", other),
    };
    assert!(matches!(call, RepoCall::AddNewWorktree { ref name, ref branch, ref base_ref } if name == "feat" && branch == "feat" && base_ref == "main"));
    assert!(matches!(showing, Some(AppState::AddingWorktree { ref intent, .. }) if intent == "feat"));
    match resume(&padded, &call, RepoReply::Done(Ok(())), 42) {
        Step::Next(AppState::ListingWorktrees { refresh_needed: RefreshType::Full, worktrees, last_selection_change: 42, .. }, _) => assert!(worktrees.is_empty()),
        other => panic!("unexpected {:?}", other),
    }
    let same = AppState::Prompting { prompt_type: PromptType::NameNewWorktree { base_ref: "main".into() }, input: "main".into(), prev_state: Box::new(AppState::Welcome) };
    assert!(matches!(step(&same, KeyCode::Enter), Step::Call(RepoCall::AddWorktree { .. }, _)));
    let blank = AppState::Prompting { prompt_type: PromptType::NameNewWorktree { base_ref: "main".into() }, input: "   ".into(), prev_state: Box::new(AppState::Welcome) };
    assert!(matches!(step(&blank, KeyCode::Enter), Step::Next(AppState::Welcome, _)));
}

#[test]
fn commit_prompt_commits_and_reloads_status() {
    let view = AppState::ViewingStatus {
        path: "/p/a".into(),
        branch: "a".into(),
        status: StatusViewState { staged: vec![("f".into(), "M ".into())], unstaged: vec![], untracked: vec![], selected_index: 0, diff_preview: None, show_diff: false },
        prev_state: Box::new(AppState::Welcome),
    };
    let menu = AppState::Committing { path: "/p/a".into(), branch: "a".into(), selected_index: 0, prev_state: Box::new(view) };
    let prompt = AppState::Prompting { prompt_type: PromptType::CommitMessage, input: "fix".into(), prev_state: Box::new(menu) };
    let call = match step(&prompt, KeyCode::Enter) {
        Step::Call(c, _) => c,
        other => panic!("unexpected {:?}", other),
    };
    assert!(matches!(call, RepoCall::Commit { ref path, ref message } if path == "/p/a" && message == "fix"));
    let get = match resume(&prompt, &call, RepoReply::Done(Err("ignored".into())), 0) {
        Step::Call(c, _) => c,
        other => panic!("unexpected {:?}", other),
    };
    assert!(matches!(get, RepoCall::GetStatus { .. }));
    let fresh = GitStatus { staged: vec![], unstaged: vec![], untracked: vec!["new".into()] };
    match resume(&prompt, &get, RepoReply::Status(Ok(fresh)), 0) {
        Step::Next(AppState::ViewingStatus { status, .. }, _) => {
            assert!(status.staged.is_empty());
            assert_eq!(status.untracked, vec!["new".to_string()]);
        }
        other => panic!("unexpected {:?}", other),
    }
}
