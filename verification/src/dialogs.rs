//! Confirmation popups, the stash list and text prompts, which wait on
//! repository calls, and how the replies to those calls are applied.
use vstd::prelude::*;
use crate::domain::{copy_string, copy_stashes, stashes_view, GitStatus, StashEntry};
use crate::events::{effects_view, no_work, normalize, normalized, InputEvent, KeyCode};
use crate::handlers::{next, set_index, step_view, RepoCall, RepoCallV, RepoReply, Step, StepV};
use crate::listing::no_effects;
use crate::model::{
    copy_state, AppMode, AppState, AppStateV, DashboardState, DashboardStateV, DashboardTab,
    Intent, IntentV, PromptType, PromptTypeV, RefreshType, StatusViewStateV,
};
use crate::run_loop::prefixed;
use crate::status_view::stashes_read_step;
use crate::text::{chars_of, string_of, trim, trim_chars};

verus! {

fn next_exec(s: AppState) -> (r: Step)
    ensures
        step_view(r) == next(s@),
{
    Step::Next(s, no_work())
}

fn prev_of(state: &AppState) -> (r: AppState)
    ensures
        r@ == crate::handlers::back(state@),
{
    match state {
        AppState::Confirming { prev_state, .. } | AppState::ViewingStashes { prev_state, .. }
        | AppState::Prompting { prev_state, .. } | AppState::SwitchingBranch { prev_state, .. }
        | AppState::PickingBaseRef { prev_state, .. } | AppState::Committing {
            prev_state,
            ..
        } | AppState::ViewingHistory { prev_state, .. } | AppState::SelectingEditor {
            prev_state,
            ..
        } => copy_state(&**prev_state),
        _ => copy_state(state),
    }
}

// ---------------------------------------------------------------------------
// Confirmation
// ---------------------------------------------------------------------------

/// A key on a confirmation popup: yes runs the action (only a worktree
/// removal needs the repository), no or quit returns.
pub open spec fn confirm_step(v: AppStateV, ev: InputEvent) -> StepV {
    let prev = *v->Confirming_prev_state;
    match ev {
        InputEvent::Key(k) => match normalized(k.code) {
            KeyCode::Enter | KeyCode::Char('y') => match v->Confirming_action {
                IntentV::RemoveWorktree { intent, force } => StepV::Call(
                    RepoCallV::RemoveWorktree { path: intent, force },
                    None,
                ),
                _ => next(prev),
            },
            KeyCode::Esc | KeyCode::Char('n') | KeyCode::Char('q') => next(prev),
            _ => next(v),
        },
        _ => next(v),
    }
}

pub fn handle_confirm_events(event: &InputEvent, state: &AppState) -> (r: Step)
    requires
        state is Confirming,
    ensures
        step_view(r) == confirm_step(state@, *event),
{
    let action = match state {
        AppState::Confirming { action, .. } => action,
        _ => {
            return next_exec(copy_state(state));
        },
    };
    match event {
        InputEvent::Key(k) => match normalize(k.code) {
            KeyCode::Enter | KeyCode::Char('y') => match &**action {
                Intent::RemoveWorktree { intent, force } => Step::Call(
                    RepoCall::RemoveWorktree { path: intent.clone(), force: *force },
                    None,
                ),
                _ => next_exec(prev_of(state)),
            },
            KeyCode::Esc | KeyCode::Char('n') | KeyCode::Char('q') => next_exec(prev_of(state)),
            _ => next_exec(copy_state(state)),
        },
        _ => next_exec(copy_state(state)),
    }
}

// ---------------------------------------------------------------------------
// Stash list
// ---------------------------------------------------------------------------

/// A key on the stash list (keys are taken as typed).
pub open spec fn stash_step(v: AppStateV, ev: InputEvent) -> StepV {
    let stashes = v->ViewingStashes_stashes;
    let path = v->ViewingStashes_path;
    let i = v->ViewingStashes_selected_index;
    let n = stashes.len();
    match ev {
        InputEvent::Key(k) => match k.code {
            KeyCode::Esc => next(*v->ViewingStashes_prev_state),
            KeyCode::Up | KeyCode::Char('k') => next(
                set_index(
                    v,
                    if i > 0 {
                        (i - 1) as usize
                    } else if n > 0 {
                        (n - 1) as usize
                    } else {
                        0
                    },
                ),
            ),
            KeyCode::Down | KeyCode::Char('j') => next(
                set_index(
                    v,
                    if n > 0 {
                        ((i + 1) % (n as int)) as usize
                    } else {
                        0
                    },
                ),
            ),
            KeyCode::Char('a') => if i < n {
                StepV::Call(RepoCallV::ApplyStash { path, index: stashes[i as int].index }, None)
            } else {
                next(v)
            },
            KeyCode::Char('p') => if i < n {
                StepV::Call(RepoCallV::PopStash { path, index: stashes[i as int].index }, None)
            } else {
                next(v)
            },
            KeyCode::Char('d') => if i < n {
                StepV::Call(RepoCallV::DropStash { path, index: stashes[i as int].index }, None)
            } else {
                next(v)
            },
            KeyCode::Char('n') => next(
                AppStateV::Prompting {
                    prompt_type: PromptTypeV::StashMessage,
                    input: Seq::empty(),
                    prev_state: Box::new(v),
                },
            ),
            _ => next(v),
        },
        _ => next(v),
    }
}

pub fn handle_stash_events(event: &InputEvent, state: &AppState) -> (r: Step)
    requires
        state is ViewingStashes,
    ensures
        step_view(r) == stash_step(state@, *event),
{
    let (path, stashes, i) = match state {
        AppState::ViewingStashes { path, stashes, selected_index, .. } => (
            path,
            stashes,
            *selected_index,
        ),
        _ => {
            return next_exec(copy_state(state));
        },
    };
    let n = stashes.len();
    match event {
        InputEvent::Key(k) => match k.code {
            KeyCode::Esc => next_exec(prev_of(state)),
            KeyCode::Up | KeyCode::Char('k') => {
                let j = if i > 0 {
                    i - 1
                } else if n > 0 {
                    n - 1
                } else {
                    0
                };
                next_exec(crate::handlers::set_index_exec(state, j))
            },
            KeyCode::Down | KeyCode::Char('j') => {
                let j = if n > 0 {
                    crate::nav::wrap_next(i, n)
                } else {
                    0
                };
                next_exec(crate::handlers::set_index_exec(state, j))
            },
            KeyCode::Char('a') | KeyCode::Char('p') | KeyCode::Char('d') => if i < n {
                proof {
                    assert(stashes_view(stashes@)[i as int] == stashes@[i as int]@);
                }
                let index = stashes[i].index;
                let p = path.clone();
                let call = if k.code == KeyCode::Char('a') {
                    RepoCall::ApplyStash { path: p, index }
                } else if k.code == KeyCode::Char('p') {
                    RepoCall::PopStash { path: p, index }
                } else {
                    RepoCall::DropStash { path: p, index }
                };
                Step::Call(call, None)
            } else {
                next_exec(copy_state(state))
            },
            KeyCode::Char('n') => next_exec(
                AppState::Prompting {
                    prompt_type: PromptType::StashMessage,
                    input: String::new(),
                    prev_state: Box::new(copy_state(state)),
                },
            ),
            _ => next_exec(copy_state(state)),
        },
        _ => next_exec(copy_state(state)),
    }
}

// ---------------------------------------------------------------------------
// Text prompts
// ---------------------------------------------------------------------------

/// The worktree that a commit message is for: that of the status view or
/// commit menu behind the prompt.
pub open spec fn commit_path(p: AppStateV) -> Option<Seq<char>> {
    match p {
        AppStateV::ViewingStatus { path, .. } => Some(path),
        AppStateV::Committing { path, .. } => Some(path),
        _ => None,
    }
}

/// The prompt `v` with its input replaced.
pub open spec fn with_input(v: AppStateV, input: Seq<char>) -> AppStateV {
    match v {
        AppStateV::Prompting { prompt_type, prev_state, .. } => AppStateV::Prompting {
            prompt_type,
            input,
            prev_state,
        },
        _ => v,
    }
}

/// A key on a text prompt.
pub open spec fn prompt_step(v: AppStateV, ev: InputEvent) -> StepV {
    let input = v->Prompting_input;
    let prev = *v->Prompting_prev_state;
    let val = trim(input);
    match ev {
        InputEvent::Key(k) => match k.code {
            KeyCode::Enter => match v->Prompting_prompt_type {
                PromptTypeV::NameNewWorktree { base_ref } => if val.len() > 0 {
                    StepV::Call(
                        if val == base_ref {
                            RepoCallV::AddWorktree { name: val, base_ref }
                        } else {
                            RepoCallV::AddNewWorktree { name: val, branch: val, base_ref }
                        },
                        Some(AppStateV::AddingWorktree { intent: val, branch: val }),
                    )
                } else {
                    next(prev)
                },
                PromptTypeV::CommitMessage => if val.len() > 0 {
                    match commit_path(prev) {
                        Some(p) => StepV::Call(RepoCallV::Commit { path: p, message: val }, None),
                        None => next(prev),
                    }
                } else {
                    next(prev)
                },
                PromptTypeV::ApiKey => if val.len() > 0 {
                    StepV::Call(RepoCallV::SetApiKey { key: val }, None)
                } else {
                    next(prev)
                },
                PromptTypeV::StashMessage => match prev {
                    AppStateV::ViewingStashes { path, .. } => StepV::Call(
                        RepoCallV::StashSave {
                            path,
                            message: if val.len() == 0 {
                                None
                            } else {
                                Some(val)
                            },
                        },
                        None,
                    ),
                    _ => next(prev),
                },
            },
            KeyCode::Esc => next(prev),
            KeyCode::Char(c) => next(with_input(v, input.push(c))),
            KeyCode::Backspace => next(
                with_input(
                    v,
                    if input.len() > 0 {
                        input.drop_last()
                    } else {
                        input
                    },
                ),
            ),
            _ => next(v),
        },
        _ => next(v),
    }
}

fn with_input_exec(state: &AppState, input: String) -> (r: AppState)
    ensures
        r@ == with_input(state@, input@),
{
    match state {
        AppState::Prompting { prompt_type, prev_state, .. } => AppState::Prompting {
            prompt_type: prompt_type.copy(),
            input,
            prev_state: Box::new(copy_state(&**prev_state)),
        },
        _ => copy_state(state),
    }
}

fn commit_path_exec(p: &AppState) -> (r: Option<String>)
    ensures
        match r {
            Some(s) => commit_path(p@) == Some(s@),
            None => commit_path(p@) is None,
        },
{
    match p {
        AppState::ViewingStatus { path, .. } => Some(path.clone()),
        AppState::Committing { path, .. } => Some(path.clone()),
        _ => None,
    }
}

pub fn handle_prompt_events(event: &InputEvent, state: &AppState) -> (r: Step)
    requires
        state is Prompting,
    ensures
        step_view(r) == prompt_step(state@, *event),
{
    let (prompt_type, input, prev_state) = match state {
        AppState::Prompting { prompt_type, input, prev_state } => (prompt_type, input, prev_state),
        _ => {
            return next_exec(copy_state(state));
        },
    };
    match event {
        InputEvent::Key(k) => match k.code {
            KeyCode::Enter => {
                let val = string_of(trim_chars(&chars_of(input.as_str())).as_slice());
                let empty = val.as_str().is_empty();
                match prompt_type {
                    PromptType::NameNewWorktree { base_ref } => if !empty {
                        let call = if val == *base_ref {
                            RepoCall::AddWorktree { name: val.clone(), base_ref: base_ref.clone() }
                        } else {
                            RepoCall::AddNewWorktree {
                                name: val.clone(),
                                branch: val.clone(),
                                base_ref: base_ref.clone(),
                            }
                        };
                        Step::Call(
                            call,
                            Some(AppState::AddingWorktree { intent: val.clone(), branch: val }),
                        )
                    } else {
                        next_exec(copy_state(&**prev_state))
                    },
                    PromptType::CommitMessage => if !empty {
                        match commit_path_exec(&**prev_state) {
                            Some(p) => Step::Call(RepoCall::Commit { path: p, message: val }, None),
                            None => next_exec(copy_state(&**prev_state)),
                        }
                    } else {
                        next_exec(copy_state(&**prev_state))
                    },
                    PromptType::ApiKey => if !empty {
                        Step::Call(RepoCall::SetApiKey { key: val }, None)
                    } else {
                        next_exec(copy_state(&**prev_state))
                    },
                    PromptType::StashMessage => match &**prev_state {
                        AppState::ViewingStashes { path, .. } => Step::Call(
                            RepoCall::StashSave {
                                path: path.clone(),
                                message: if empty {
                                    None
                                } else {
                                    Some(val)
                                },
                            },
                            None,
                        ),
                        _ => next_exec(copy_state(&**prev_state)),
                    },
                }
            },
            KeyCode::Esc => next_exec(copy_state(&**prev_state)),
            KeyCode::Char(c) => {
                let mut cs = chars_of(input.as_str());
                cs.push(c);
                next_exec(with_input_exec(state, string_of(cs.as_slice())))
            },
            KeyCode::Backspace => {
                let mut cs = chars_of(input.as_str());
                if cs.len() > 0 {
                    cs.pop();
                    let s = string_of(cs.as_slice());
                    assert(s@ =~= input@.drop_last());
                    next_exec(with_input_exec(state, s))
                } else {
                    next_exec(with_input_exec(state, input.clone()))
                }
            },
            _ => next_exec(copy_state(state)),
        },
        _ => next_exec(copy_state(state)),
    }
}

// ---------------------------------------------------------------------------
// Replies to repository calls
// ---------------------------------------------------------------------------

/// The empty worktree list shown after a worktree was added, which fetches
/// the list again.
pub open spec fn fresh_listing(now: u64) -> AppStateV {
    AppStateV::ListingWorktrees {
        worktrees: Seq::empty(),
        filtered_worktrees: Seq::empty(),
        selected: None,
        refresh_needed: RefreshType::Full,
        selection_mode: false,
        dashboard: DashboardStateV {
            active_tab: DashboardTab::Info,
            cached_status: None,
            cached_history: None,
            loading: false,
        },
        filter_query: Seq::empty(),
        is_filtering: false,
        mode: AppMode::Normal,
        last_selection_change: now,
    }
}

fn fresh_listing_exec(now: u64) -> (r: AppState)
    ensures
        r@ == fresh_listing(now),
{
    let r = AppState::ListingWorktrees {
        worktrees: Vec::new(),
        filtered_worktrees: Vec::new(),
        selected: None,
        refresh_needed: RefreshType::Full,
        selection_mode: false,
        dashboard: DashboardState {
            active_tab: DashboardTab::Info,
            cached_status: None,
            cached_history: None,
            loading: false,
        },
        filter_query: String::new(),
        is_filtering: false,
        mode: AppMode::Normal,
        last_selection_change: now,
    };
    assert(crate::domain::worktrees_view(Seq::empty()) =~= Seq::empty());
    r
}

/// The state that a commit returns to: the status view behind the prompt,
/// or the one behind the commit menu.
pub open spec fn commit_return(p: AppStateV) -> AppStateV {
    match p {
        AppStateV::Committing { prev_state, .. } => *prev_state,
        _ => p,
    }
}

/// The status view `t` with the file lists of `st`.
pub open spec fn with_lists(t: AppStateV, st: GitStatus) -> AppStateV {
    match t {
        AppStateV::ViewingStatus { path, branch, status, prev_state } => AppStateV::ViewingStatus {
            path,
            branch,
            status: StatusViewStateV {
                staged: st@.staged,
                unstaged: st@.unstaged,
                untracked: st@.untracked,
                ..status
            },
            prev_state,
        },
        _ => t,
    }
}

/// The stash list `p` with the stashes `s`.
pub open spec fn with_stashes(p: AppStateV, s: Seq<StashEntry>) -> AppStateV {
    match p {
        AppStateV::ViewingStashes { path, branch, selected_index, prev_state, .. } =>
            AppStateV::ViewingStashes {
            path,
            branch,
            stashes: stashes_view(s),
            selected_index,
            prev_state,
        },
        _ => p,
    }
}

/// `a` if it is below `b`, else `b` (`usize::min`).
pub open spec fn min_index(a: usize, b: int) -> usize {
    if a <= b {
        a
    } else {
        b as usize
    }
}

/// How the reply to a repository call made from state `v` decides the
/// next state.
pub open spec fn resume_step(v: AppStateV, call: RepoCallV, reply: RepoReply, now: u64) -> StepV {
    match v {
        AppStateV::Confirming { prev_state, .. } => match call {
            RepoCallV::RemoveWorktree { .. } => match reply {
                RepoReply::Done(Err(e)) => next(
                    AppStateV::Error("Failed to remove worktree: "@ + e@, prev_state),
                ),
                RepoReply::Done(Ok(_)) => next(*prev_state),
                _ => next(v),
            },
            _ => next(v),
        },
        AppStateV::ViewingStashes { path, branch, selected_index, prev_state, .. } =>
            match call {
            RepoCallV::ApplyStash { .. } => match reply {
                RepoReply::Done(Err(e)) => next(
                    AppStateV::Error("Failed to apply stash: "@ + e@, Box::new(v)),
                ),
                RepoReply::Done(Ok(_)) => next(*prev_state),
                _ => next(v),
            },
            RepoCallV::PopStash { .. } => match reply {
                RepoReply::Done(Err(e)) => next(
                    AppStateV::Error("Failed to pop stash: "@ + e@, Box::new(v)),
                ),
                RepoReply::Done(Ok(_)) => next(*prev_state),
                _ => next(v),
            },
            RepoCallV::DropStash { .. } => match reply {
                RepoReply::Done(Err(e)) => next(
                    AppStateV::Error("Failed to drop stash: "@ + e@, Box::new(v)),
                ),
                RepoReply::Done(Ok(_)) => StepV::Call(RepoCallV::ListStashes { path }, None),
                _ => next(v),
            },
            RepoCallV::ListStashes { .. } => match reply {
                RepoReply::Stashes(Ok(s)) => next(
                    AppStateV::ViewingStashes {
                        path,
                        branch,
                        stashes: stashes_view(s@),
                        selected_index: min_index(
                            selected_index,
                            if s@.len() > 0 {
                                s@.len() - 1
                            } else {
                                0
                            },
                        ),
                        prev_state,
                    },
                ),
                _ => next(v),
            },
            _ => next(v),
        },
        AppStateV::ViewingStatus { .. } => match call {
            RepoCallV::ListStashes { .. } => match reply {
                RepoReply::Stashes(r) => {
                    let s = stashes_read_step(v, r);
                    StepV::Next(s.0, s.1)
                },
                _ => next(v),
            },
            _ => next(v),
        },
        AppStateV::Prompting { prev_state, .. } => match call {
            RepoCallV::AddWorktree { .. } | RepoCallV::AddNewWorktree { .. } => match reply {
                RepoReply::Done(Err(e)) => next(
                    AppStateV::Error(e@, Box::new(fresh_listing(now))),
                ),
                RepoReply::Done(Ok(_)) => next(fresh_listing(now)),
                _ => next(v),
            },
            RepoCallV::Commit { path, .. } => StepV::Call(RepoCallV::GetStatus { path }, None),
            RepoCallV::GetStatus { .. } => match reply {
                RepoReply::Status(Ok(st)) => next(with_lists(commit_return(*prev_state), st)),
                _ => next(*prev_state),
            },
            RepoCallV::SetApiKey { .. } => next(*prev_state),
            RepoCallV::StashSave { path, .. } => StepV::Call(RepoCallV::ListStashes { path }, None),
            RepoCallV::ListStashes { .. } => match reply {
                RepoReply::Stashes(Ok(s)) => next(with_stashes(*prev_state, s@)),
                _ => next(*prev_state),
            },
            _ => next(v),
        },
        _ => next(v),
    }
}

fn error_exec(prefix: &str, e: &String, prev: AppState) -> (r: AppState)
    ensures
        r@ == AppStateV::Error(prefix@ + e@, Box::new(prev@)),
{
    AppState::Error(prefixed(prefix, e.as_str()), Box::new(prev))
}

fn with_lists_exec(t: AppState, st: GitStatus) -> (r: AppState)
    ensures
        r@ == with_lists(t@, st),
{
    match t {
        AppState::ViewingStatus { path, branch, status, prev_state } => {
            let ghost sv = st@;
            AppState::ViewingStatus {
                path,
                branch,
                status: crate::model::StatusViewState {
                    staged: st.staged,
                    unstaged: st.unstaged,
                    untracked: st.untracked,
                    ..status
                },
                prev_state,
            }
        },
        other => other,
    }
}

fn commit_return_exec(p: &AppState) -> (r: AppState)
    ensures
        r@ == commit_return(p@),
{
    match p {
        AppState::Committing { prev_state, .. } => copy_state(&**prev_state),
        _ => copy_state(p),
    }
}

fn with_stashes_exec(p: AppState, s: Vec<StashEntry>) -> (r: AppState)
    ensures
        r@ == with_stashes(p@, s@),
{
    match p {
        AppState::ViewingStashes { path, branch, selected_index, prev_state, .. } =>
            AppState::ViewingStashes { path, branch, stashes: s, selected_index, prev_state },
        other => other,
    }
}

fn resume_confirming(state: &AppState, call: &RepoCall, reply: RepoReply) -> (r: Step)
    requires
        state is Confirming,
    ensures
        step_view(r) == resume_step(state@, call@, reply, 0),
{
    match state {
        AppState::Confirming { prev_state, .. } => match call {
            RepoCall::RemoveWorktree { .. } => match reply {
                RepoReply::Done(Err(e)) => next_exec(
                    error_exec("Failed to remove worktree: ", &e, copy_state(&**prev_state)),
                ),
                RepoReply::Done(Ok(_)) => next_exec(copy_state(&**prev_state)),
                _ => next_exec(copy_state(state)),
            },
            _ => next_exec(copy_state(state)),
        },
        _ => next_exec(copy_state(state)),
    }
}

fn resume_stashes(state: &AppState, call: &RepoCall, reply: RepoReply) -> (r: Step)
    requires
        state is ViewingStashes,
    ensures
        step_view(r) == resume_step(state@, call@, reply, 0),
{
    match state {
        AppState::ViewingStashes { path, branch, selected_index, prev_state, .. } => match call {
            RepoCall::ApplyStash { .. } => match reply {
                RepoReply::Done(Err(e)) => next_exec(
                    error_exec("Failed to apply stash: ", &e, copy_state(state)),
                ),
                RepoReply::Done(Ok(_)) => next_exec(copy_state(&**prev_state)),
                _ => next_exec(copy_state(state)),
            },
            RepoCall::PopStash { .. } => match reply {
                RepoReply::Done(Err(e)) => next_exec(
                    error_exec("Failed to pop stash: ", &e, copy_state(state)),
                ),
                RepoReply::Done(Ok(_)) => next_exec(copy_state(&**prev_state)),
                _ => next_exec(copy_state(state)),
            },
            RepoCall::DropStash { .. } => match reply {
                RepoReply::Done(Err(e)) => next_exec(
                    error_exec("Failed to drop stash: ", &e, copy_state(state)),
                ),
                RepoReply::Done(Ok(_)) => Step::Call(
                    RepoCall::ListStashes { path: path.clone() },
                    None,
                ),
                _ => next_exec(copy_state(state)),
            },
            RepoCall::ListStashes { .. } => match reply {
                RepoReply::Stashes(Ok(s)) => {
                    let last = if s.len() > 0 {
                        s.len() - 1
                    } else {
                        0
                    };
                    let idx = if *selected_index <= last {
                        *selected_index
                    } else {
                        last
                    };
                    next_exec(
                        AppState::ViewingStashes {
                            path: path.clone(),
                            branch: branch.clone(),
                            stashes: s,
                            selected_index: idx,
                            prev_state: Box::new(copy_state(&**prev_state)),
                        },
                    )
                },
                _ => next_exec(copy_state(state)),
            },
            _ => next_exec(copy_state(state)),
        },
        _ => next_exec(copy_state(state)),
    }
}

fn resume_prompting(state: &AppState, call: &RepoCall, reply: RepoReply, now: u64) -> (r: Step)
    requires
        state is Prompting,
    ensures
        step_view(r) == resume_step(state@, call@, reply, now),
{
    match state {
        AppState::Prompting { prev_state, .. } => match call {
            RepoCall::AddWorktree { .. } | RepoCall::AddNewWorktree { .. } => match reply {
                RepoReply::Done(Err(e)) => next_exec(
                    AppState::Error(e, Box::new(fresh_listing_exec(now))),
                ),
                RepoReply::Done(Ok(_)) => next_exec(fresh_listing_exec(now)),
                _ => next_exec(copy_state(state)),
            },
            RepoCall::Commit { path, .. } => Step::Call(
                RepoCall::GetStatus { path: path.clone() },
                None,
            ),
            RepoCall::GetStatus { .. } => match reply {
                RepoReply::Status(Ok(st)) => {
                    next_exec(with_lists_exec(commit_return_exec(&**prev_state), st))
                },
                _ => next_exec(copy_state(&**prev_state)),
            },
            RepoCall::SetApiKey { .. } => next_exec(copy_state(&**prev_state)),
            RepoCall::StashSave { path, .. } => Step::Call(
                RepoCall::ListStashes { path: path.clone() },
                None,
            ),
            RepoCall::ListStashes { .. } => match reply {
                RepoReply::Stashes(Ok(s)) => next_exec(
                    with_stashes_exec(copy_state(&**prev_state), s),
                ),
                _ => next_exec(copy_state(&**prev_state)),
            },
            _ => next_exec(copy_state(state)),
        },
        _ => next_exec(copy_state(state)),
    }
}

/// Applies the reply to a repository call made from `state`.
pub fn resume(state: &AppState, call: &RepoCall, reply: RepoReply, now: u64) -> (r: Step)
    requires
        state is ViewingStatus ==> crate::status_view::status_fits(state@),
    ensures
        step_view(r) == resume_step(state@, call@, reply, now),
{
    match state {
        AppState::Confirming { .. } => resume_confirming(state, call, reply),
        AppState::ViewingStashes { .. } => resume_stashes(state, call, reply),
        AppState::Prompting { .. } => resume_prompting(state, call, reply, now),
        AppState::ViewingStatus { .. } => match call {
            RepoCall::ListStashes { .. } => match reply {
                RepoReply::Stashes(r) => {
                    let (a, b) = crate::status_view::status_stashes_read(state, r);
                    Step::Next(a, b)
                },
                _ => next_exec(copy_state(state)),
            },
            _ => next_exec(copy_state(state)),
        },
        _ => next_exec(copy_state(state)),
    }
}

} // verus!
