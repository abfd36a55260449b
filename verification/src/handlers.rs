//! Keys and mouse events on the menus, prompts and popups of the interface.
//! A step either decides the next state at once, or asks for a repository
//! call whose reply (handed to `resume`) decides it.
use vstd::prelude::*;
use crate::domain::{
    commits_view, copy_string, copy_strings, copy_stashes, copy_commits, stashes_view, strings_view,
    GitCommit, GitCommitView, GitStatus, StashEntry,
};
use crate::events::{
    effects_view, no_work, normalize, normalized, one_effect, Effect, EffectV, InputEvent, KeyCode,
    KeyInput, MouseInput, MouseKind,
};
use crate::layout::{area_new, inside, part_of, rect_new, split_area, three, Area, Extent};
use crate::listing::no_effects;
use crate::model::{
    copy_editors, copy_state, editors_view, AppState, AppStateV, EditorConfig, Intent, IntentV,
    PromptType, PromptTypeV,
};
use crate::nav::{wrap_next, wrap_prev};
use crate::status_view::{less_two, plus_one};

verus! {

// ---------------------------------------------------------------------------
// Steps and repository calls
// ---------------------------------------------------------------------------

/// A repository call that the interface waits for.
#[allow(inconsistent_fields)]
#[derive(Debug)]
pub enum RepoCall {
    RemoveWorktree { path: String, force: bool },
    ApplyStash { path: String, index: usize },
    PopStash { path: String, index: usize },
    DropStash { path: String, index: usize },
    ListStashes { path: String },
    /// Check out the existing branch `base_ref` into a worktree `name`.
    AddWorktree { name: String, base_ref: String },
    /// Create branch `branch` from `base_ref` in a new worktree `name`.
    AddNewWorktree { name: String, branch: String, base_ref: String },
    Commit { path: String, message: String },
    GetStatus { path: String },
    SetApiKey { key: String },
    StashSave { path: String, message: Option<String> },
}

#[allow(inconsistent_fields)]
pub enum RepoCallV {
    RemoveWorktree { path: Seq<char>, force: bool },
    ApplyStash { path: Seq<char>, index: usize },
    PopStash { path: Seq<char>, index: usize },
    DropStash { path: Seq<char>, index: usize },
    ListStashes { path: Seq<char> },
    AddWorktree { name: Seq<char>, base_ref: Seq<char> },
    AddNewWorktree { name: Seq<char>, branch: Seq<char>, base_ref: Seq<char> },
    Commit { path: Seq<char>, message: Seq<char> },
    GetStatus { path: Seq<char> },
    SetApiKey { key: Seq<char> },
    StashSave { path: Seq<char>, message: Option<Seq<char>> },
}

impl View for RepoCall {
    type V = RepoCallV;

    open spec fn view(&self) -> RepoCallV {
        match self {
            RepoCall::RemoveWorktree { path, force } => RepoCallV::RemoveWorktree {
                path: path@,
                force: *force,
            },
            RepoCall::ApplyStash { path, index } => RepoCallV::ApplyStash {
                path: path@,
                index: *index,
            },
            RepoCall::PopStash { path, index } => RepoCallV::PopStash { path: path@, index: *index },
            RepoCall::DropStash { path, index } => RepoCallV::DropStash {
                path: path@,
                index: *index,
            },
            RepoCall::ListStashes { path } => RepoCallV::ListStashes { path: path@ },
            RepoCall::AddWorktree { name, base_ref } => RepoCallV::AddWorktree {
                name: name@,
                base_ref: base_ref@,
            },
            RepoCall::AddNewWorktree { name, branch, base_ref } => RepoCallV::AddNewWorktree {
                name: name@,
                branch: branch@,
                base_ref: base_ref@,
            },
            RepoCall::Commit { path, message } => RepoCallV::Commit {
                path: path@,
                message: message@,
            },
            RepoCall::GetStatus { path } => RepoCallV::GetStatus { path: path@ },
            RepoCall::SetApiKey { key } => RepoCallV::SetApiKey { key: key@ },
            RepoCall::StashSave { path, message } => RepoCallV::StashSave {
                path: path@,
                message: match message {
                    Some(m) => Some(m@),
                    None => None,
                },
            },
        }
    }
}

/// The reply to a repository call, errors as their messages.
#[derive(Debug)]
pub enum RepoReply {
    Done(Result<(), String>),
    Stashes(Result<Vec<StashEntry>, String>),
    Status(Result<GitStatus, String>),
}

/// One step of the interface.
#[derive(Debug)]
pub enum Step {
    /// The next state and the work to start in the background.
    Next(AppState, Vec<Effect>),
    /// Make the call (showing the given state meanwhile, if any) and hand
    /// its reply to `resume`.
    Call(RepoCall, Option<AppState>),
}

pub enum StepV {
    Next(AppStateV, Seq<EffectV>),
    Call(RepoCallV, Option<AppStateV>),
}

pub open spec fn step_view(s: Step) -> StepV {
    match s {
        Step::Next(a, e) => StepV::Next(a@, effects_view(e@)),
        Step::Call(c, show) => StepV::Call(
            c@,
            match show {
                Some(a) => Some(a@),
                None => None,
            },
        ),
    }
}

/// The next state is `v`, with no work started.
pub open spec fn next(v: AppStateV) -> StepV {
    StepV::Next(v, no_effects())
}

/// The next state is `v`.
fn next_exec(s: AppState) -> (r: Step)
    ensures
        step_view(r) == next(s@),
{
    Step::Next(s, no_work())
}

/// The menu or list `v` with row `i` selected.
pub open spec fn set_index(v: AppStateV, i: usize) -> AppStateV {
    match v {
        AppStateV::SwitchingBranch { path, branches, prev_state, .. } =>
            AppStateV::SwitchingBranch { path, branches, selected_index: i, prev_state },
        AppStateV::PickingBaseRef { branches, prev_state, .. } => AppStateV::PickingBaseRef {
            branches,
            selected_index: i,
            prev_state,
        },
        AppStateV::Committing { path, branch, prev_state, .. } => AppStateV::Committing {
            path,
            branch,
            selected_index: i,
            prev_state,
        },
        AppStateV::ViewingHistory { branch, commits, prev_state, .. } =>
            AppStateV::ViewingHistory { branch, commits, selected_index: i, prev_state },
        AppStateV::SelectingEditor { branch, options, prev_state, .. } =>
            AppStateV::SelectingEditor { branch, options, selected: i, prev_state },
        AppStateV::ViewingStashes { path, branch, stashes, prev_state, .. } =>
            AppStateV::ViewingStashes { path, branch, stashes, selected_index: i, prev_state },
        _ => v,
    }
}

pub(crate) fn set_index_exec(state: &AppState, i: usize) -> (r: AppState)
    ensures
        r@ == set_index(state@, i),
{
    match state {
        AppState::SwitchingBranch { path, branches, prev_state, .. } => AppState::SwitchingBranch {
            path: path.clone(),
            branches: copy_strings(branches),
            selected_index: i,
            prev_state: Box::new(copy_state(&**prev_state)),
        },
        AppState::PickingBaseRef { branches, prev_state, .. } => AppState::PickingBaseRef {
            branches: copy_strings(branches),
            selected_index: i,
            prev_state: Box::new(copy_state(&**prev_state)),
        },
        AppState::Committing { path, branch, prev_state, .. } => AppState::Committing {
            path: path.clone(),
            branch: branch.clone(),
            selected_index: i,
            prev_state: Box::new(copy_state(&**prev_state)),
        },
        AppState::ViewingHistory { branch, commits, prev_state, .. } => AppState::ViewingHistory {
            branch: branch.clone(),
            commits: copy_commits(commits),
            selected_index: i,
            prev_state: Box::new(copy_state(&**prev_state)),
        },
        AppState::SelectingEditor { branch, options, prev_state, .. } => AppState::SelectingEditor {
            branch: branch.clone(),
            options: copy_editors(options),
            selected: i,
            prev_state: Box::new(copy_state(&**prev_state)),
        },
        AppState::ViewingStashes { path, branch, stashes, prev_state, .. } =>
            AppState::ViewingStashes {
            path: path.clone(),
            branch: branch.clone(),
            stashes: copy_stashes(stashes),
            selected_index: i,
            prev_state: Box::new(copy_state(&**prev_state)),
        },
        _ => copy_state(state),
    }
}

/// The state a menu or view returns to.
pub open spec fn back(v: AppStateV) -> AppStateV {
    match v {
        AppStateV::SwitchingBranch { prev_state, .. } | AppStateV::PickingBaseRef {
            prev_state,
            ..
        } | AppStateV::Committing { prev_state, .. } | AppStateV::ViewingHistory {
            prev_state,
            ..
        } | AppStateV::SelectingEditor { prev_state, .. } | AppStateV::ViewingStashes {
            prev_state,
            ..
        } | AppStateV::Confirming { prev_state, .. } | AppStateV::Prompting { prev_state, .. } =>
            *prev_state,
        _ => v,
    }
}

fn back_exec(state: &AppState) -> (r: AppState)
    ensures
        r@ == back(state@),
{
    match state {
        AppState::SwitchingBranch { prev_state, .. } | AppState::PickingBaseRef {
            prev_state,
            ..
        } | AppState::Committing { prev_state, .. } | AppState::ViewingHistory {
            prev_state,
            ..
        } | AppState::SelectingEditor { prev_state, .. } | AppState::ViewingStashes {
            prev_state,
            ..
        } | AppState::Confirming { prev_state, .. } | AppState::Prompting { prev_state, .. } =>
            copy_state(&**prev_state),
        _ => copy_state(state),
    }
}

/// Moves the selection of a list of `n` rows down (`down`) or up, wrapping;
/// an empty list keeps its selection.
pub open spec fn step_row(i: usize, n: int, down: bool) -> usize {
    if n == 0 {
        i
    } else if down {
        ((i + 1) % n) as usize
    } else {
        ((i + n - 1) % n) as usize
    }
}

fn step_row_exec(i: usize, n: usize, down: bool) -> (r: usize)
    ensures
        r == step_row(i, n as int, down),
{
    if n == 0 {
        i
    } else if down {
        wrap_next(i, n)
    } else {
        wrap_prev(i, n)
    }
}

// ---------------------------------------------------------------------------
// Branch switching, base-ref picking and the commit menu
// ---------------------------------------------------------------------------

/// A key on the branch-switching menu.
pub open spec fn branch_step(v: AppStateV, ev: InputEvent) -> StepV {
    let branches = v->SwitchingBranch_branches;
    let i = v->SwitchingBranch_selected_index;
    let n = branches.len() as int;
    match ev {
        InputEvent::Key(k) => match normalized(k.code) {
            KeyCode::Esc | KeyCode::Char('q') => next(back(v)),
            KeyCode::Down | KeyCode::Char('j') => next(set_index(v, step_row(i, n, true))),
            KeyCode::Up | KeyCode::Char('k') => next(set_index(v, step_row(i, n, false))),
            KeyCode::Enter => if i < n {
                StepV::Next(
                    AppStateV::SwitchingBranchTask {
                        path: v->SwitchingBranch_path,
                        prev_state: v->SwitchingBranch_prev_state,
                    },
                    seq![
                        EffectV::SwitchBranch {
                            path: v->SwitchingBranch_path,
                            branch: branches[i as int],
                        },
                    ],
                )
            } else {
                next(back(v))
            },
            _ => next(v),
        },
        _ => next(v),
    }
}

pub fn handle_branch_events(event: &InputEvent, state: &AppState) -> (r: Step)
    requires
        state is SwitchingBranch,
    ensures
        step_view(r) == branch_step(state@, *event),
{
    let (path, branches, i, prev_state) = match state {
        AppState::SwitchingBranch { path, branches, selected_index, prev_state } => (
            path,
            branches,
            *selected_index,
            prev_state,
        ),
        _ => {
            return next_exec(copy_state(state));
        },
    };
    match event {
        InputEvent::Key(k) => match normalize(k.code) {
            KeyCode::Esc | KeyCode::Char('q') => next_exec(back_exec(state)),
            KeyCode::Down | KeyCode::Char('j') => next_exec(
                set_index_exec(state, step_row_exec(i, branches.len(), true)),
            ),
            KeyCode::Up | KeyCode::Char('k') => next_exec(
                set_index_exec(state, step_row_exec(i, branches.len(), false)),
            ),
            KeyCode::Enter => if i < branches.len() {
                proof {
                    assert(strings_view(branches@)[i as int] == branches@[i as int]@);
                }
                Step::Next(
                    AppState::SwitchingBranchTask {
                        path: path.clone(),
                        prev_state: Box::new(copy_state(&**prev_state)),
                    },
                    one_effect(
                        Effect::SwitchBranch { path: path.clone(), branch: branches[i].clone() },
                    ),
                )
            } else {
                next_exec(back_exec(state))
            },
            _ => next_exec(copy_state(state)),
        },
        _ => next_exec(copy_state(state)),
    }
}

/// A key on the menu that picks the base of a new worktree.
pub open spec fn picking_step(v: AppStateV, ev: InputEvent) -> StepV {
    let branches = v->PickingBaseRef_branches;
    let i = v->PickingBaseRef_selected_index;
    let n = branches.len() as int;
    match ev {
        InputEvent::Key(k) => match normalized(k.code) {
            KeyCode::Esc | KeyCode::Char('q') => next(back(v)),
            KeyCode::Down | KeyCode::Char('j') => next(set_index(v, step_row(i, n, true))),
            KeyCode::Up | KeyCode::Char('k') => next(set_index(v, step_row(i, n, false))),
            KeyCode::Enter => if i < n {
                next(
                    AppStateV::Prompting {
                        prompt_type: PromptTypeV::NameNewWorktree { base_ref: branches[i as int] },
                        input: Seq::empty(),
                        prev_state: v->PickingBaseRef_prev_state,
                    },
                )
            } else {
                next(v)
            },
            _ => next(v),
        },
        _ => next(v),
    }
}

pub fn handle_picking_ref_events(event: &InputEvent, state: &AppState) -> (r: Step)
    requires
        state is PickingBaseRef,
    ensures
        step_view(r) == picking_step(state@, *event),
{
    let (branches, i, prev_state) = match state {
        AppState::PickingBaseRef { branches, selected_index, prev_state } => (
            branches,
            *selected_index,
            prev_state,
        ),
        _ => {
            return next_exec(copy_state(state));
        },
    };
    match event {
        InputEvent::Key(k) => match normalize(k.code) {
            KeyCode::Esc | KeyCode::Char('q') => next_exec(back_exec(state)),
            KeyCode::Down | KeyCode::Char('j') => next_exec(
                set_index_exec(state, step_row_exec(i, branches.len(), true)),
            ),
            KeyCode::Up | KeyCode::Char('k') => next_exec(
                set_index_exec(state, step_row_exec(i, branches.len(), false)),
            ),
            KeyCode::Enter => if i < branches.len() {
                proof {
                    assert(strings_view(branches@)[i as int] == branches@[i as int]@);
                }
                next_exec(
                    AppState::Prompting {
                        prompt_type: PromptType::NameNewWorktree { base_ref: branches[i].clone() },
                        input: String::new(),
                        prev_state: Box::new(copy_state(&**prev_state)),
                    },
                )
            } else {
                next_exec(copy_state(state))
            },
            _ => next_exec(copy_state(state)),
        },
        _ => next_exec(copy_state(state)),
    }
}

/// A key on the commit menu (manual commit, generated message, API key).
pub open spec fn committing_step(v: AppStateV, ev: InputEvent) -> StepV {
    let i = v->Committing_selected_index;
    match ev {
        InputEvent::Key(k) => match normalized(k.code) {
            KeyCode::Esc | KeyCode::Char('q') => next(back(v)),
            KeyCode::Down | KeyCode::Char('j') => next(set_index(v, step_row(i, 3, true))),
            KeyCode::Up | KeyCode::Char('k') => next(set_index(v, step_row(i, 3, false))),
            KeyCode::Enter => if i == 0 {
                next(
                    AppStateV::Prompting {
                        prompt_type: PromptTypeV::CommitMessage,
                        input: Seq::empty(),
                        prev_state: Box::new(v),
                    },
                )
            } else if i == 1 {
                StepV::Next(
                    AppStateV::GeneratingCommitMessage { prev_state: Box::new(v) },
                    seq![
                        EffectV::GenerateCommitMessage {
                            path: v->Committing_path,
                            branch: v->Committing_branch,
                        },
                    ],
                )
            } else if i == 2 {
                next(
                    AppStateV::Prompting {
                        prompt_type: PromptTypeV::ApiKey,
                        input: Seq::empty(),
                        prev_state: Box::new(v),
                    },
                )
            } else {
                next(v)
            },
            _ => next(v),
        },
        _ => next(v),
    }
}

pub fn handle_committing_events(event: &InputEvent, state: &AppState) -> (r: Step)
    requires
        state is Committing,
    ensures
        step_view(r) == committing_step(state@, *event),
{
    let (path, branch, i) = match state {
        AppState::Committing { path, branch, selected_index, .. } => (
            path,
            branch,
            *selected_index,
        ),
        _ => {
            return next_exec(copy_state(state));
        },
    };
    match event {
        InputEvent::Key(k) => match normalize(k.code) {
            KeyCode::Esc | KeyCode::Char('q') => next_exec(back_exec(state)),
            KeyCode::Down | KeyCode::Char('j') => next_exec(
                set_index_exec(state, step_row_exec(i, 3, true)),
            ),
            KeyCode::Up | KeyCode::Char('k') => next_exec(
                set_index_exec(state, step_row_exec(i, 3, false)),
            ),
            KeyCode::Enter => if i == 0 {
                next_exec(
                    AppState::Prompting {
                        prompt_type: PromptType::CommitMessage,
                        input: String::new(),
                        prev_state: Box::new(copy_state(state)),
                    },
                )
            } else if i == 1 {
                Step::Next(
                    AppState::GeneratingCommitMessage { prev_state: Box::new(copy_state(state)) },
                    one_effect(
                        Effect::GenerateCommitMessage { path: path.clone(), branch: branch.clone() },
                    ),
                )
            } else if i == 2 {
                next_exec(
                    AppState::Prompting {
                        prompt_type: PromptType::ApiKey,
                        input: String::new(),
                        prev_state: Box::new(copy_state(state)),
                    },
                )
            } else {
                next_exec(copy_state(state))
            },
            _ => next_exec(copy_state(state)),
        },
        _ => next_exec(copy_state(state)),
    }
}

// ---------------------------------------------------------------------------
// Editor selection
// ---------------------------------------------------------------------------

/// The worktree path that the editor opens: that of the selected row of the
/// listing behind the menu.
pub open spec fn editor_target(p: AppStateV) -> Option<Seq<char>> {
    match p {
        AppStateV::ListingWorktrees { worktrees, selected, .. } => match selected {
            Some(i) => if i < worktrees.len() {
                Some(worktrees[i as int].path)
            } else {
                None
            },
            None => None,
        },
        _ => None,
    }
}

/// The editor menu has options and a selection on one of them.
pub open spec fn editor_ready(v: AppStateV) -> bool {
    v->SelectingEditor_options.len() > 0 && v->SelectingEditor_selected
        < v->SelectingEditor_options.len()
}

/// A key on the editor menu.
pub open spec fn editor_step(v: AppStateV, ev: InputEvent, now: u64) -> StepV {
    let options = v->SelectingEditor_options;
    let s = v->SelectingEditor_selected;
    let n = options.len() as int;
    let prev = v->SelectingEditor_prev_state;
    match ev {
        InputEvent::Key(k) => match normalized(k.code) {
            KeyCode::Up | KeyCode::Char('k') => next(
                set_index(
                    v,
                    if s > 0 {
                        (s - 1) as usize
                    } else {
                        (n - 1) as usize
                    },
                ),
            ),
            KeyCode::Down | KeyCode::Char('j') => next(
                set_index(
                    v,
                    if s < n - 1 {
                        (s + 1) as usize
                    } else {
                        0
                    },
                ),
            ),
            KeyCode::Enter => {
                let cmd = options[s as int].1;
                match editor_target(*prev) {
                    Some(p) => StepV::Next(
                        AppStateV::Timed {
                            inner_state: Box::new(
                                AppStateV::OpeningEditor {
                                    branch: v->SelectingEditor_branch,
                                    editor: cmd,
                                    prev_state: prev,
                                },
                            ),
                            target_state: prev,
                            start_time: now,
                            duration: 800,
                        },
                        seq![
                            EffectV::SavePreferredEditor { editor: cmd },
                            EffectV::SpawnEditor { command: cmd, path: p },
                        ],
                    ),
                    None => StepV::Next(v, seq![EffectV::SavePreferredEditor { editor: cmd }]),
                }
            },
            KeyCode::Esc => next(*prev),
            _ => next(v),
        },
        _ => next(v),
    }
}

fn editor_target_exec(p: &AppState) -> (r: Option<String>)
    ensures
        match r {
            Some(s) => editor_target(p@) == Some(s@),
            None => editor_target(p@) is None,
        },
{
    match p {
        AppState::ListingWorktrees { worktrees, selected, .. } => match selected {
            Some(i) => if *i < worktrees.len() {
                proof {
                    assert(crate::domain::worktrees_view(worktrees@)[*i as int]
                        == worktrees@[*i as int]@);
                }
                Some(worktrees[*i].path.clone())
            } else {
                None
            },
            None => None,
        },
        _ => None,
    }
}

pub fn handle_editor_events(event: &InputEvent, state: &AppState, now: u64) -> (r: Step)
    requires
        state is SelectingEditor,
        editor_ready(state@),
    ensures
        step_view(r) == editor_step(state@, *event, now),
{
    let (branch, options, s, prev_state) = match state {
        AppState::SelectingEditor { branch, options, selected, prev_state } => (
            branch,
            options,
            *selected,
            prev_state,
        ),
        _ => {
            return next_exec(copy_state(state));
        },
    };
    let n = options.len();
    assert(editors_view(options@).len() == n);
    match event {
        InputEvent::Key(k) => match normalize(k.code) {
            KeyCode::Up | KeyCode::Char('k') => next_exec(
                set_index_exec(
                    state,
                    if s > 0 {
                        s - 1
                    } else {
                        n - 1
                    },
                ),
            ),
            KeyCode::Down | KeyCode::Char('j') => next_exec(
                set_index_exec(
                    state,
                    if s < n - 1 {
                        s + 1
                    } else {
                        0
                    },
                ),
            ),
            KeyCode::Enter => {
                proof {
                    assert(editors_view(options@)[s as int].1 == options@[s as int].command@);
                }
                let cmd = options[s].command.clone();
                match editor_target_exec(&**prev_state) {
                    Some(p) => {
                        let ghost pv = prev_state@;
                        let inner = AppState::OpeningEditor {
                            branch: branch.clone(),
                            editor: cmd.clone(),
                            prev_state: Box::new(copy_state(&**prev_state)),
                        };
                        assert(inner@ == AppStateV::OpeningEditor {
                            branch: branch@,
                            editor: cmd@,
                            prev_state: Box::new(pv),
                        });
                        let mut effs: Vec<Effect> = Vec::new();
                        effs.push(Effect::SavePreferredEditor { editor: cmd.clone() });
                        effs.push(Effect::SpawnEditor { command: cmd.clone(), path: p });
                        assert(effects_view(effs@) =~= seq![
                            EffectV::SavePreferredEditor { editor: cmd@ },
                            EffectV::SpawnEditor { command: cmd@, path: p@ },
                        ]);
                        Step::Next(
                            AppState::Timed {
                                inner_state: Box::new(inner),
                                target_state: Box::new(copy_state(&**prev_state)),
                                start_time: now,
                                duration: 800,
                            },
                            effs,
                        )
                    },
                    None => Step::Next(
                        copy_state(state),
                        one_effect(Effect::SavePreferredEditor { editor: cmd }),
                    ),
                }
            },
            KeyCode::Esc => next_exec(back_exec(state)),
            _ => next_exec(copy_state(state)),
        },
        _ => next_exec(copy_state(state)),
    }
}

// ---------------------------------------------------------------------------
// Commit history
// ---------------------------------------------------------------------------

/// `i + d` on a ring of `n` rows, for `d <= n`.
pub open spec fn ahead(i: int, d: int, n: int) -> int {
    if i + d < n {
        i + d
    } else {
        i + d - n
    }
}

/// `i - d` on a ring of `n` rows, for `d <= n`.
pub open spec fn behind(i: int, d: int, n: int) -> int {
    if i >= d {
        i - d
    } else {
        i + n - d
    }
}

/// Whether the commit at `j` is a real commit (not a graph-only line).
pub open spec fn is_commit(c: Seq<GitCommitView>, j: int) -> bool {
    c[j].hash.len() > 0
}

/// The distance to the first real commit after row `i` (from `d` on),
/// going down and wrapping; `c.len()` when there is none.
pub open spec fn commit_ahead(c: Seq<GitCommitView>, i: int, d: int) -> int
    decreases c.len() - d,
{
    if d >= c.len() || d < 1 {
        c.len() as int
    } else if is_commit(c, ahead(i, d, c.len() as int)) {
        d
    } else {
        commit_ahead(c, i, d + 1)
    }
}

/// The distance to the first real commit before row `i` (from `d` on),
/// going up and wrapping; `c.len()` when there is none.
pub open spec fn commit_behind(c: Seq<GitCommitView>, i: int, d: int) -> int
    decreases c.len() - d,
{
    if d >= c.len() || d < 1 {
        c.len() as int
    } else if is_commit(c, behind(i, d, c.len() as int)) {
        d
    } else {
        commit_behind(c, i, d + 1)
    }
}

/// The row that moving down from `i` selects: the next real commit,
/// skipping graph-only lines, or `i` itself when there is none.
pub open spec fn next_commit(c: Seq<GitCommitView>, i: int) -> int {
    ahead(i, commit_ahead(c, i, 1), c.len() as int)
}

/// The row that moving up from `i` selects.
pub open spec fn prev_commit(c: Seq<GitCommitView>, i: int) -> int {
    behind(i, commit_behind(c, i, 1), c.len() as int)
}

/// The history popup's selection is on a row, unless there are no rows.
pub open spec fn history_ready(v: AppStateV) -> bool {
    let n = v->ViewingHistory_commits.len();
    n == 0 || v->ViewingHistory_selected_index < n
}

/// The row of the history clicked at (`col`, `row`), if any.
pub open spec fn history_row_at(p: Area, col: u16, row: u16) -> Option<int> {
    let x = plus_one(p.x);
    let y = plus_one(p.y);
    if x <= col < x + less_two(p.width) && y <= row < y + less_two(p.height) {
        Some(row - y)
    } else {
        None
    }
}

/// An input event on the commit history; `popup` is the popup's area on
/// screen, when the terminal's size could be read.
pub open spec fn history_step(v: AppStateV, ev: InputEvent, popup: Option<Area>) -> StepV {
    let c = v->ViewingHistory_commits;
    let i = v->ViewingHistory_selected_index;
    let n = c.len() as int;
    match ev {
        InputEvent::Key(k) => match normalized(k.code) {
            KeyCode::Esc | KeyCode::Char('q') => next(back(v)),
            KeyCode::Down | KeyCode::Char('j') => next(
                if n > 0 {
                    set_index(v, next_commit(c, i as int) as usize)
                } else {
                    v
                },
            ),
            KeyCode::Up | KeyCode::Char('k') => next(
                if n > 0 {
                    set_index(v, prev_commit(c, i as int) as usize)
                } else {
                    v
                },
            ),
            _ => next(v),
        },
        InputEvent::Mouse(m) => match m.kind {
            MouseKind::LeftDown => match popup {
                Some(p) => match history_row_at(p, m.column, m.row) {
                    Some(r) => if r < n && is_commit(c, r) {
                        next(set_index(v, r as usize))
                    } else {
                        next(v)
                    },
                    None => next(v),
                },
                None => next(v),
            },
            MouseKind::ScrollDown => next(set_index(v, step_row(i, n, true))),
            MouseKind::ScrollUp => next(set_index(v, step_row(i, n, false))),
            _ => next(v),
        },
        InputEvent::Other => next(v),
    }
}

fn next_commit_exec(c: &Vec<GitCommit>, i: usize) -> (r: usize)
    requires
        i < c.len(),
    ensures
        r as int == next_commit(commits_view(c@), i as int),
        r < c.len(),
{
    let ghost cv = commits_view(c@);
    let n = c.len();
    let mut next: usize = if i + 1 == n {
        0
    } else {
        i + 1
    };
    let mut d: usize = 1;
    while next != i && c[next].hash.as_str().is_empty()
        invariant
            n == c.len(),
            cv == commits_view(c@),
            i < n,
            1 <= d <= n,
            next < n,
            next as int == ahead(i as int, d as int, n as int),
            commit_ahead(cv, i as int, 1) == commit_ahead(cv, i as int, d as int),
        decreases n - d,
    {
        assert(cv[next as int] == c@[next as int]@);
        assert(d < n);
        next = if next + 1 == n {
            0
        } else {
            next + 1
        };
        d = d + 1;
    }
    proof {
        assert(cv[next as int] == c@[next as int]@);
    }
    next
}

fn prev_commit_exec(c: &Vec<GitCommit>, i: usize) -> (r: usize)
    requires
        i < c.len(),
    ensures
        r as int == prev_commit(commits_view(c@), i as int),
        r < c.len(),
{
    let ghost cv = commits_view(c@);
    let n = c.len();
    let mut prev: usize = if i == 0 {
        n - 1
    } else {
        i - 1
    };
    let mut d: usize = 1;
    while prev != i && c[prev].hash.as_str().is_empty()
        invariant
            n == c.len(),
            cv == commits_view(c@),
            i < n,
            1 <= d <= n,
            prev < n,
            prev as int == behind(i as int, d as int, n as int),
            commit_behind(cv, i as int, 1) == commit_behind(cv, i as int, d as int),
        decreases n - d,
    {
        assert(cv[prev as int] == c@[prev as int]@);
        assert(d < n);
        prev = if prev == 0 {
            n - 1
        } else {
            prev - 1
        };
        d = d + 1;
    }
    proof {
        assert(cv[prev as int] == c@[prev as int]@);
    }
    prev
}

/// The history popup on a `width` by `height` terminal: the middle of a
/// 10/80/10 split of the rows and of a 7/85/7 split of the columns. It lies
/// on the screen, across a band of rows from the row split. Which band and
/// which column of the splits it is, and where exactly they lie, comes from
/// the layout solver and is not stated.
pub fn history_popup_area(width: u16, height: u16) -> (r: Area)
    ensures
        inside(r, rect_new(0, 0, width, height)),
        exists|row: Area|
            #[trigger] part_of(row, rect_new(0, 0, width, height), true) && part_of(r, row, false),
{
    let rows = split_area(
        true,
        &three(Extent::Percentage(10), Extent::Percentage(80), Extent::Percentage(10)),
        area_new(0, 0, width, height),
    );
    let cols = split_area(
        false,
        &three(Extent::Percentage(7), Extent::Percentage(85), Extent::Percentage(7)),
        rows[1],
    );
    proof {
        assert(part_of(rows@[1], rect_new(0, 0, width, height), true));
        assert(part_of(cols@[1], rows@[1], false));
    }
    cols[1]
}

fn history_row_at_exec(p: Area, col: u16, row: u16) -> (r: Option<u16>)
    ensures
        match r {
            Some(x) => history_row_at(p, col, row) == Some(x as int),
            None => history_row_at(p, col, row) is None,
        },
{
    let x: u16 = if p.x == u16::MAX {
        0
    } else {
        p.x + 1
    };
    let y: u16 = if p.y == u16::MAX {
        0
    } else {
        p.y + 1
    };
    let w: u16 = if p.width >= 2 {
        p.width - 2
    } else {
        0
    };
    let h: u16 = if p.height >= 2 {
        p.height - 2
    } else {
        0
    };
    if col >= x && (col as u32) < (x as u32) + (w as u32) && row >= y && (row as u32) < (y as u32)
        + (h as u32) {
        Some(row - y)
    } else {
        None
    }
}

/// Handles an input event on the commit history; `popup` is the popup's
/// area on screen, when the terminal's size could be read.
pub fn handle_history_events(event: &InputEvent, state: &AppState, popup: Option<Area>) -> (r:
    Step)
    requires
        state is ViewingHistory,
        history_ready(state@),
    ensures
        step_view(r) == history_step(state@, *event, popup),
{
    let (commits, i) = match state {
        AppState::ViewingHistory { commits, selected_index, .. } => (commits, *selected_index),
        _ => {
            return next_exec(copy_state(state));
        },
    };
    let ghost cv = commits_view(commits@);
    let n = commits.len();
    match event {
        InputEvent::Key(k) => match normalize(k.code) {
            KeyCode::Esc | KeyCode::Char('q') => next_exec(back_exec(state)),
            KeyCode::Down | KeyCode::Char('j') => if n > 0 {
                next_exec(set_index_exec(state, next_commit_exec(commits, i)))
            } else {
                next_exec(copy_state(state))
            },
            KeyCode::Up | KeyCode::Char('k') => if n > 0 {
                next_exec(set_index_exec(state, prev_commit_exec(commits, i)))
            } else {
                next_exec(copy_state(state))
            },
            _ => next_exec(copy_state(state)),
        },
        InputEvent::Mouse(m) => match m.kind {
            MouseKind::LeftDown => match popup {
                Some(p) => match history_row_at_exec(p, m.column, m.row) {
                    Some(r) => {
                        let r = r as usize;
                        if r < n && !commits[r].hash.as_str().is_empty() {
                            assert(cv[r as int] == commits@[r as int]@);
                            next_exec(set_index_exec(state, r))
                        } else {
                            proof {
                                if r < n {
                                    assert(cv[r as int] == commits@[r as int]@);
                                }
                            }
                            next_exec(copy_state(state))
                        }
                    },
                    None => next_exec(copy_state(state)),
                },
                None => next_exec(copy_state(state)),
            },
            MouseKind::ScrollDown => next_exec(set_index_exec(state, step_row_exec(i, n, true))),
            MouseKind::ScrollUp => next_exec(set_index_exec(state, step_row_exec(i, n, false))),
            _ => next_exec(copy_state(state)),
        },
        InputEvent::Other => next_exec(copy_state(state)),
    }
}

} // verus!
