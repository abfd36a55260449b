//! The decisions of the interface loop: what background results, watcher
//! events and the passing of time do to the state.
use vstd::prelude::*;
use crate::domain::{
    commits_view, opt_view, stashes_view, strings_view, worktrees_view, GitStatusView,
    RepositoryEvent, StashEntryView, WorktreeView,
};
use crate::events::{
    effects_view, no_work, one_effect, AsyncResult, Effect, EffectV, InputEvent, KeyCode,
};
use crate::handlers::{
    branch_step, committing_step, editor_ready, editor_step, handle_branch_events,
    handle_committing_events, handle_editor_events, handle_history_events,
    handle_picking_ref_events, history_ready, history_step, next, picking_step, step_view,
    RepoCall, RepoCallV, Step, StepV,
};
use crate::dialogs::{
    confirm_step, handle_confirm_events, handle_prompt_events, handle_stash_events, prompt_step,
    stash_step,
};
use crate::listing::{handle_listing_events, listing_step, no_effects, selected_checkout};
use crate::status_view::{
    handle_status_events, status_file_columns, status_fits, status_step, StatusOutcome,
};
use crate::handlers::history_popup_area;
use crate::layout::Area;
use crate::model::{
    copy_state, create_timed_state, filter_worktrees, fuzzy_filtered, AppState, AppStateV,
    DashboardState, DashboardStateV, DashboardTab, PromptType, PromptTypeV, RefreshType,
    StatusViewState, StatusViewStateV,
};

verus! {

/// `prefix` followed by `detail`.
pub fn prefixed(prefix: &str, detail: &str) -> (r: String)
    ensures
        r@ == prefix@ + detail@,
{
    let mut s = String::from_str(prefix);
    s.append(detail);
    s
}

/// The view of a state after `request_refresh`.
pub open spec fn refreshed(v: AppStateV) -> AppStateV {
    match v {
        AppStateV::ListingWorktrees {
            worktrees,
            filtered_worktrees,
            selected,
            refresh_needed,
            selection_mode,
            dashboard,
            filter_query,
            is_filtering,
            mode,
            last_selection_change,
        } => AppStateV::ListingWorktrees {
            worktrees,
            filtered_worktrees,
            selected,
            refresh_needed: RefreshType::Full,
            selection_mode,
            dashboard,
            filter_query,
            is_filtering,
            mode,
            last_selection_change,
        },
        _ => v,
    }
}

pub proof fn lemma_refresh_view(s: AppState, t: AppState)
    requires
        match s {
            AppState::ListingWorktrees {
                worktrees,
                filtered_worktrees,
                selected,
                refresh_needed,
                selection_mode,
                dashboard,
                filter_query,
                is_filtering,
                mode,
                last_selection_change,
            } => t == AppState::ListingWorktrees {
                worktrees,
                filtered_worktrees,
                selected,
                refresh_needed: RefreshType::Full,
                selection_mode,
                dashboard,
                filter_query,
                is_filtering,
                mode,
                last_selection_change,
            },
            _ => t == s,
        },
    ensures
        t@ == refreshed(s@),
{
}

/// A watcher event asks for the worktree list to be fetched again.
pub fn apply_repository_event(state: &mut AppState, event: &RepositoryEvent)
    ensures
        final(state)@ == refreshed(old(state)@),
{
    let ghost before = *state;
    match event {
        RepositoryEvent::RescanRequired | RepositoryEvent::WorktreeListChanged
        | RepositoryEvent::StatusChanged(_) | RepositoryEvent::HeadChanged(_) => {
            state.request_refresh();
        },
    }
    proof {
        lemma_refresh_view(before, *state);
    }
}

/// The view of an error state.
pub open spec fn err(prefix: Seq<char>, e: String, prev: AppStateV) -> AppStateV {
    AppStateV::Error(prefix + e@, Box::new(prev))
}

/// The selected worktree of a listing (indexing the unfiltered list), when
/// its path is `path`.
pub open spec fn listing_shows(v: AppStateV, path: Seq<char>) -> bool {
    match v {
        AppStateV::ListingWorktrees { worktrees, selected, .. } => match selected {
            Some(i) => i < worktrees.len() && worktrees[i as int].path == path,
            None => false,
        },
        _ => false,
    }
}

pub open spec fn with_dashboard(v: AppStateV, d: DashboardStateV) -> AppStateV {
    match v {
        AppStateV::ListingWorktrees {
            worktrees,
            filtered_worktrees,
            selected,
            refresh_needed,
            selection_mode,
            dashboard,
            filter_query,
            is_filtering,
            mode,
            last_selection_change,
        } => AppStateV::ListingWorktrees {
            worktrees,
            filtered_worktrees,
            selected,
            refresh_needed,
            selection_mode,
            dashboard: d,
            filter_query,
            is_filtering,
            mode,
            last_selection_change,
        },
        _ => v,
    }
}

pub open spec fn dashboard_of(v: AppStateV) -> DashboardStateV {
    match v {
        AppStateV::ListingWorktrees { dashboard, .. } => dashboard,
        _ => arbitrary(),
    }
}

/// The state after a background completion that returns to `prev` on
/// success and shows `done` for a while first.
pub open spec fn completion(
    prev: AppStateV,
    result: Result<(), String>,
    prefix: Seq<char>,
    done: AppStateV,
    now: u64,
) -> AppStateV {
    match result {
        Err(e) => err(prefix, e, prev),
        Ok(_) => AppStateV::Timed {
            inner_state: Box::new(done),
            target_state: Box::new(prev),
            start_time: now,
            duration: 800,
        },
    }
}

/// How a background result changes the state, and what work it starts.
/// `t` and `effs` are the state and work that follow `s` and `r`.
pub open spec fn result_step(
    s: AppState,
    r: AsyncResult,
    now: u64,
    t: AppStateV,
    effs: Seq<EffectV>,
) -> bool {
    let v = s@;
    match r {
        AsyncResult::StatusFetched { path, result } => effs.len() == 0 && if listing_shows(
            v,
            path@,
        ) {
            t == with_dashboard(
                v,
                DashboardStateV {
                    loading: false,
                    cached_status: match result {
                        Ok(st) => Some(st@),
                        Err(_) => None,
                    },
                    ..dashboard_of(v)
                },
            )
        } else {
            match v {
                AppStateV::LoadingStatus { path: lp, branch, prev_state } => if lp == path@ {
                    match result {
                        Ok(st) => t == AppStateV::ViewingStatus {
                            path: path@,
                            branch,
                            status: StatusViewStateV {
                                staged: st@.staged,
                                unstaged: st@.unstaged,
                                untracked: st@.untracked,
                                selected_index: 0,
                                diff_preview: None,
                                show_diff: false,
                            },
                            prev_state,
                        },
                        Err(e) => t == err("Failed to fetch status: "@, e, *prev_state),
                    }
                } else {
                    t == v
                },
                _ => t == v,
            }
        },
        AsyncResult::HistoryFetched { path, result } => effs.len() == 0 && if listing_shows(
            v,
            path@,
        ) {
            t == with_dashboard(
                v,
                DashboardStateV {
                    loading: false,
                    cached_history: match result {
                        Ok(h) => Some(commits_view(h@)),
                        Err(_) => None,
                    },
                    ..dashboard_of(v)
                },
            )
        } else {
            match v {
                AppStateV::LoadingHistory { branch, prev_state } => match result {
                    Ok(h) => t == AppStateV::ViewingHistory {
                        branch,
                        commits: commits_view(h@),
                        selected_index: 0,
                        prev_state,
                    },
                    Err(e) => t == err("Failed to fetch history: "@, e, *prev_state),
                },
                _ => t == v,
            }
        },
        AsyncResult::BranchesFetched { result } => effs.len() == 0 && match v {
            AppStateV::LoadingBranches { prev_state } => match result {
                Ok(b) => t == AppStateV::PickingBaseRef {
                    branches: strings_view(b@),
                    selected_index: 0,
                    prev_state,
                },
                Err(e) => t == err("Failed to list branches: "@, e, *prev_state),
            },
            _ => t == v,
        },
        AsyncResult::CleanCompleted { result } => effs.len() == 0 && match v {
            AppStateV::Cleaning { prev_state } => match result {
                Ok(_) => t == AppStateV::Timed {
                    inner_state: Box::new(AppStateV::WorktreeRemoved),
                    target_state: prev_state,
                    start_time: now,
                    duration: 1200,
                },
                Err(e) => t == err("Clean failed: "@, e, *prev_state),
            },
            _ => t == v,
        },
        AsyncResult::FetchCompleted { branch, result } => effs.len() == 0 && match v {
            AppStateV::Fetching { prev_state, .. } => match result {
                Ok(_) => t == refreshed(*prev_state),
                Err(e) => t == err("Fetch failed: "@, e, *prev_state),
            },
            _ => t == v,
        },
        AsyncResult::PullCompleted { branch, result } => effs.len() == 0 && match v {
            AppStateV::Pulling { prev_state, .. } => t == completion(
                *prev_state,
                result,
                "Pull failed: "@,
                AppStateV::PullComplete { branch: branch@, prev_state },
                now,
            ),
            _ => t == v,
        },
        AsyncResult::PushCompleted { branch, result } => effs.len() == 0 && match v {
            AppStateV::Pushing { prev_state, .. } => t == completion(
                *prev_state,
                result,
                "Push failed: "@,
                AppStateV::PushComplete { branch: branch@, prev_state },
                now,
            ),
            _ => t == v,
        },
        AsyncResult::SyncCompleted { branch, result } => effs.len() == 0 && match v {
            AppStateV::Syncing { prev_state, .. } => t == completion(
                *prev_state,
                result,
                "Sync failed: "@,
                AppStateV::SyncComplete { branch: branch@, prev_state },
                now,
            ),
            _ => t == v,
        },
        AsyncResult::StagedFile { result, .. } | AsyncResult::UnstagedFile { result, .. }
        | AsyncResult::StagedAll { result, .. } | AsyncResult::UnstagedAll { result, .. } =>
            match v {
            AppStateV::Staging { prev_state, .. } | AppStateV::Unstaging { prev_state, .. } =>
                match result {
                Err(e) => effs.len() == 0 && t == err("Operation failed: "@, e, *prev_state),
                Ok(_) => match *prev_state {
                    AppStateV::ViewingStatus { path, branch, prev_state: inner, .. } => t
                        == AppStateV::LoadingStatus { path, branch, prev_state: inner } && effs
                        == seq![EffectV::FetchStatus { path }],
                    other => effs.len() == 0 && t == other,
                },
            },
            _ => effs.len() == 0 && t == v,
        },
        AsyncResult::DiffFetched { result, .. } => effs.len() == 0 && match v {
            AppStateV::LoadingDiff { prev_state } => match result {
                Ok(d) => match *prev_state {
                    AppStateV::ViewingStatus { path, branch, status, prev_state: inner } => t
                        == AppStateV::ViewingStatus {
                        path,
                        branch,
                        status: StatusViewStateV { diff_preview: Some(d@), ..status },
                        prev_state: inner,
                    },
                    other => t == other,
                },
                Err(e) => t == err("Failed to fetch diff: "@, e, *prev_state),
            },
            _ => t == v,
        },
        AsyncResult::BranchSwitched { result, .. } => effs.len() == 0 && match v {
            AppStateV::SwitchingBranchTask { prev_state, .. } => match result {
                Err(e) => t == err("Branch switch failed: "@, e, *prev_state),
                Ok(_) => t == refreshed(*prev_state),
            },
            _ => t == v,
        },
        AsyncResult::CommitMessageGenerated { result } => effs.len() == 0 && match v {
            AppStateV::GeneratingCommitMessage { prev_state } => match result {
                Ok(m) => t == AppStateV::Prompting {
                    prompt_type: PromptTypeV::CommitMessage,
                    input: m@,
                    prev_state,
                },
                Err(e) => t == err("AI generation failed: "@, e, *prev_state),
            },
            _ => t == v,
        },
        AsyncResult::StashApplied { result } | AsyncResult::StashPopped { result }
        | AsyncResult::StashDropped { result } | AsyncResult::StashSaved { result } => match v {
            AppStateV::StashAction { prev_state, .. } => match result {
                Err(e) => effs.len() == 0 && t == err("Stash operation failed: "@, e, *prev_state),
                Ok(_) => match *prev_state {
                    AppStateV::ViewingStashes {
                        path,
                        branch,
                        selected_index,
                        prev_state: inner,
                        ..
                    } => t == AppStateV::LoadingStashes {
                        path,
                        branch,
                        selected_index,
                        prev_state: inner,
                    } && effs == seq![EffectV::ListStashes { path }],
                    other => effs.len() == 0 && t == other,
                },
            },
            _ => effs.len() == 0 && t == v,
        },
        AsyncResult::StashesFetched { result, .. } => effs.len() == 0 && match v {
            AppStateV::LoadingStashes { path, branch, selected_index, prev_state } =>
                match result {
                Ok(st) => t == AppStateV::ViewingStashes {
                    path,
                    branch,
                    stashes: stashes_view(st@),
                    selected_index: if st@.len() == 0 {
                        0
                    } else if selected_index < st@.len() - 1 {
                        selected_index
                    } else {
                        (st@.len() - 1) as usize
                    },
                    prev_state,
                },
                Err(e) => t == err("Failed to list stashes: "@, e, *prev_state),
            },
            _ => t == v,
        },
        AsyncResult::WorktreesListed { result } => effs.len() == 0 && match v {
            AppStateV::ListingWorktrees {
                selected,
                refresh_needed,
                selection_mode,
                dashboard,
                filter_query,
                is_filtering,
                mode,
                last_selection_change,
                ..
            } => match result {
                Ok(ws) => {
                    let wv = worktrees_view(ws@);
                    t matches AppStateV::ListingWorktrees {
                        worktrees: tw,
                        filtered_worktrees: tf,
                        selected: ts,
                        refresh_needed: tr,
                        selection_mode: tsm,
                        dashboard: td,
                        filter_query: tq,
                        is_filtering: ti,
                        mode: tm,
                        last_selection_change: tl,
                    } && tw == wv && (if filter_query.len() == 0 {
                        tf == wv
                    } else {
                        fuzzy_filtered(wv, crate::text::unicode_lowercase(filter_query), tf)
                    }) && ts == (if selected.is_none() && wv.len() > 0 {
                        Some(0usize)
                    } else {
                        selected
                    }) && td == (DashboardStateV {
                        cached_status: None,
                        cached_history: None,
                        ..dashboard
                    }) && tr == refresh_needed && tsm == selection_mode && tq == filter_query
                        && ti == is_filtering && tm == mode && tl == last_selection_change
                },
                Err(_) => t == v,
            },
            _ => t == v,
        },
    }
}

fn error_state(prefix: &str, e: String, prev: Box<AppState>) -> (r: AppState)
    ensures
        r@ == err(prefix@, e, prev@),
{
    AppState::Error(prefixed(prefix, e.as_str()), prev)
}

/// Whether the listing's selected worktree (in the unfiltered list) has
/// the path `path`.
fn shows_path(state: &AppState, path: &String) -> (b: bool)
    ensures
        b == listing_shows(state@, path@),
{
    match state {
        AppState::ListingWorktrees { worktrees, selected, .. } => match selected {
            Some(i) => {
                if *i < worktrees.len() {
                    proof {
                        assert(worktrees_view(worktrees@)[*i as int].path == worktrees@[*i as int].path@);
                    }
                    crate::domain::copy_string(&worktrees[*i].path) == *path
                } else {
                    false
                }
            },
            None => false,
        },
        _ => false,
    }
}

fn on_status_fetched(state: AppState, r: AsyncResult, now: u64) -> (out: (AppState, Vec<Effect>))
    requires
        r is StatusFetched,
    ensures
        result_step(state, r, now, out.0@, effects_view(out.1@)),
{
    let ghost s0 = state;
    let shows = match &r {
        AsyncResult::StatusFetched { path, .. } => shows_path(&state, path),
        _ => false,
    };
    let next = match r {
        AsyncResult::StatusFetched { path, result } => if shows {
            match state {
                AppState::ListingWorktrees {
                    worktrees,
                    filtered_worktrees,
                    selected,
                    refresh_needed,
                    selection_mode,
                    dashboard,
                    filter_query,
                    is_filtering,
                    mode,
                    last_selection_change,
                } => AppState::ListingWorktrees {
                    worktrees,
                    filtered_worktrees,
                    selected,
                    refresh_needed,
                    selection_mode,
                    dashboard: DashboardState {
                        loading: false,
                        cached_status: match result {
                            Ok(st) => Some(st),
                            Err(_) => None,
                        },
                        ..dashboard
                    },
                    filter_query,
                    is_filtering,
                    mode,
                    last_selection_change,
                },
                other => other,
            }
        } else {
            match state {
                AppState::LoadingStatus { path: lp, branch, prev_state } => {
                    if lp == path {
                        match result {
                            Ok(st) => AppState::ViewingStatus {
                                path,
                                branch,
                                status: StatusViewState {
                                    staged: st.staged,
                                    unstaged: st.unstaged,
                                    untracked: st.untracked,
                                    selected_index: 0,
                                    diff_preview: None,
                                    show_diff: false,
                                },
                                prev_state,
                            },
                            Err(e) => error_state("Failed to fetch status: ", e, prev_state),
                        }
                    } else {
                        AppState::LoadingStatus { path: lp, branch, prev_state }
                    }
                },
                other => other,
            }
        },
        other => state,
    };
    (next, Vec::new())
}

fn on_history_fetched(state: AppState, r: AsyncResult, now: u64) -> (out: (AppState, Vec<Effect>))
    requires
        r is HistoryFetched,
    ensures
        result_step(state, r, now, out.0@, effects_view(out.1@)),
{
    let shows = match &r {
        AsyncResult::HistoryFetched { path, .. } => shows_path(&state, path),
        _ => false,
    };
    let next = match r {
        AsyncResult::HistoryFetched { path, result } => if shows {
            match state {
                AppState::ListingWorktrees {
                    worktrees,
                    filtered_worktrees,
                    selected,
                    refresh_needed,
                    selection_mode,
                    dashboard,
                    filter_query,
                    is_filtering,
                    mode,
                    last_selection_change,
                } => AppState::ListingWorktrees {
                    worktrees,
                    filtered_worktrees,
                    selected,
                    refresh_needed,
                    selection_mode,
                    dashboard: DashboardState {
                        loading: false,
                        cached_history: match result {
                            Ok(h) => Some(h),
                            Err(_) => None,
                        },
                        ..dashboard
                    },
                    filter_query,
                    is_filtering,
                    mode,
                    last_selection_change,
                },
                other => other,
            }
        } else {
            match state {
                AppState::LoadingHistory { branch, prev_state } => match result {
                    Ok(h) => AppState::ViewingHistory {
                        branch,
                        commits: h,
                        selected_index: 0,
                        prev_state,
                    },
                    Err(e) => error_state("Failed to fetch history: ", e, prev_state),
                },
                other => other,
            }
        },
        other => state,
    };
    (next, Vec::new())
}

fn on_branches_or_clean(state: AppState, r: AsyncResult, now: u64) -> (out: (AppState, Vec<Effect>))
    requires
        r is BranchesFetched || r is CleanCompleted,
    ensures
        result_step(state, r, now, out.0@, effects_view(out.1@)),
{
    let next = match r {
        AsyncResult::BranchesFetched { result } => match state {
            AppState::LoadingBranches { prev_state } => match result {
                Ok(b) => AppState::PickingBaseRef { branches: b, selected_index: 0, prev_state },
                Err(e) => error_state("Failed to list branches: ", e, prev_state),
            },
            other => other,
        },
        AsyncResult::CleanCompleted { result } => match state {
            AppState::Cleaning { prev_state } => match result {
                Ok(_) => {
                    assert(AppState::WorktreeRemoved@ == AppStateV::WorktreeRemoved);
                    create_timed_state(AppState::WorktreeRemoved, *prev_state, now, 1200)
                },
                Err(e) => error_state("Clean failed: ", e, prev_state),
            },
            other => other,
        },
        other => state,
    };
    (next, Vec::new())
}

/// `prev` with a full refresh requested.
fn refreshed_state(prev: Box<AppState>) -> (r: AppState)
    ensures
        r@ == refreshed(prev@),
{
    let mut p = *prev;
    let ghost before = p;
    p.request_refresh();
    proof {
        lemma_refresh_view(before, p);
    }
    p
}

fn on_remote_completed(state: AppState, r: AsyncResult, now: u64) -> (out: (AppState, Vec<Effect>))
    requires
        r is FetchCompleted || r is PullCompleted || r is PushCompleted || r is SyncCompleted
            || r is BranchSwitched,
    ensures
        result_step(state, r, now, out.0@, effects_view(out.1@)),
{
    let next = match r {
        AsyncResult::FetchCompleted { branch, result } => match state {
            AppState::Fetching { prev_state, .. } => match result {
                Ok(_) => refreshed_state(prev_state),
                Err(e) => error_state("Fetch failed: ", e, prev_state),
            },
            other => other,
        },
        AsyncResult::PullCompleted { branch, result } => match state {
            AppState::Pulling { prev_state, .. } => match result {
                Ok(_) => {
                    let ghost b = branch@;
                    let inner = AppState::PullComplete {
                        branch,
                        prev_state: Box::new(copy_state(&prev_state)),
                    };
                    assert(inner@ == AppStateV::PullComplete {
                        branch: b,
                        prev_state: Box::new(prev_state@),
                    });
                    create_timed_state(inner, *prev_state, now, 800)
                },
                Err(e) => error_state("Pull failed: ", e, prev_state),
            },
            other => other,
        },
        AsyncResult::PushCompleted { branch, result } => match state {
            AppState::Pushing { prev_state, .. } => match result {
                Ok(_) => {
                    let ghost b = branch@;
                    let inner = AppState::PushComplete {
                        branch,
                        prev_state: Box::new(copy_state(&prev_state)),
                    };
                    assert(inner@ == AppStateV::PushComplete {
                        branch: b,
                        prev_state: Box::new(prev_state@),
                    });
                    create_timed_state(inner, *prev_state, now, 800)
                },
                Err(e) => error_state("Push failed: ", e, prev_state),
            },
            other => other,
        },
        AsyncResult::SyncCompleted { branch, result } => match state {
            AppState::Syncing { prev_state, .. } => match result {
                Ok(_) => {
                    let ghost b = branch@;
                    let inner = AppState::SyncComplete {
                        branch,
                        prev_state: Box::new(copy_state(&prev_state)),
                    };
                    assert(inner@ == AppStateV::SyncComplete {
                        branch: b,
                        prev_state: Box::new(prev_state@),
                    });
                    create_timed_state(inner, *prev_state, now, 800)
                },
                Err(e) => error_state("Sync failed: ", e, prev_state),
            },
            other => other,
        },
        AsyncResult::BranchSwitched { result, .. } => match state {
            AppState::SwitchingBranchTask { prev_state, .. } => match result {
                Err(e) => error_state("Branch switch failed: ", e, prev_state),
                Ok(_) => refreshed_state(prev_state),
            },
            other => other,
        },
        other => state,
    };
    (next, Vec::new())
}

fn on_staging_done(state: AppState, r: AsyncResult, now: u64) -> (out: (AppState, Vec<Effect>))
    requires
        r is StagedFile || r is UnstagedFile || r is StagedAll || r is UnstagedAll,
    ensures
        result_step(state, r, now, out.0@, effects_view(out.1@)),
{
    let result = match r {
        AsyncResult::StagedFile { result, .. } | AsyncResult::UnstagedFile { result, .. }
        | AsyncResult::StagedAll { result, .. } | AsyncResult::UnstagedAll { result, .. } =>
            result,
        _ => Ok(()),
    };
    let mut effects: Vec<Effect> = Vec::new();
    let next = match state {
        AppState::Staging { prev_state, .. } | AppState::Unstaging { prev_state, .. } =>
            match result {
            Err(e) => error_state("Operation failed: ", e, prev_state),
            Ok(_) => {
                let ghost pv = prev_state@;
                match *prev_state {
                    AppState::ViewingStatus { path, branch, status, prev_state: inner } => {
                        assert(pv == AppStateV::ViewingStatus {
                            path: path@,
                            branch: branch@,
                            status: status@,
                            prev_state: Box::new(inner@),
                        });
                        let ghost pth = path@;
                        effects.push(Effect::FetchStatus { path: path.clone() });
                        assert(effects_view(effects@) =~= seq![EffectV::FetchStatus { path: pth }]);
                        AppState::LoadingStatus { path, branch, prev_state: inner }
                    },
                    other => other,
                }
            },
        },
        other => other,
    };
    (next, effects)
}

fn on_diff_or_message(state: AppState, r: AsyncResult, now: u64) -> (out: (AppState, Vec<Effect>))
    requires
        r is DiffFetched || r is CommitMessageGenerated,
    ensures
        result_step(state, r, now, out.0@, effects_view(out.1@)),
{
    let next = match r {
        AsyncResult::DiffFetched { result, .. } => match state {
            AppState::LoadingDiff { prev_state } => match result {
                Ok(d) => {
                    let ghost pv = prev_state@;
                    match *prev_state {
                        AppState::ViewingStatus { path, branch, status, prev_state: inner } => {
                            assert(pv == AppStateV::ViewingStatus {
                                path: path@,
                                branch: branch@,
                                status: status@,
                                prev_state: Box::new(inner@),
                            });
                            AppState::ViewingStatus {
                                path,
                                branch,
                                status: StatusViewState { diff_preview: Some(d), ..status },
                                prev_state: inner,
                            }
                        },
                        other => other,
                    }
                },
                Err(e) => error_state("Failed to fetch diff: ", e, prev_state),
            },
            other => other,
        },
        AsyncResult::CommitMessageGenerated { result } => match state {
            AppState::GeneratingCommitMessage { prev_state } => match result {
                Ok(m) => AppState::Prompting {
                    prompt_type: PromptType::CommitMessage,
                    input: m,
                    prev_state,
                },
                Err(e) => error_state("AI generation failed: ", e, prev_state),
            },
            other => other,
        },
        other => state,
    };
    (next, Vec::new())
}

fn on_stash_done(state: AppState, r: AsyncResult, now: u64) -> (out: (AppState, Vec<Effect>))
    requires
        r is StashApplied || r is StashPopped || r is StashDropped || r is StashSaved,
    ensures
        result_step(state, r, now, out.0@, effects_view(out.1@)),
{
    let result = match r {
        AsyncResult::StashApplied { result } | AsyncResult::StashPopped { result }
        | AsyncResult::StashDropped { result } | AsyncResult::StashSaved { result } => result,
        _ => Ok(()),
    };
    let mut effects: Vec<Effect> = Vec::new();
    let next = match state {
        AppState::StashAction { prev_state, .. } => match result {
            Err(e) => error_state("Stash operation failed: ", e, prev_state),
            Ok(_) => {
                let ghost pv = prev_state@;
                match *prev_state {
                    AppState::ViewingStashes {
                        path,
                        branch,
                        stashes,
                        selected_index,
                        prev_state: inner,
                    } => {
                        assert(pv == AppStateV::ViewingStashes {
                            path: path@,
                            branch: branch@,
                            stashes: stashes_view(stashes@),
                            selected_index,
                            prev_state: Box::new(inner@),
                        });
                        let ghost pth = path@;
                        effects.push(Effect::ListStashes { path: path.clone() });
                        assert(effects_view(effects@) =~= seq![EffectV::ListStashes { path: pth }]);
                        AppState::LoadingStashes { path, branch, selected_index, prev_state: inner }
                    },
                    other => other,
                }
            },
        },
        other => other,
    };
    (next, effects)
}

fn on_stashes_fetched(state: AppState, r: AsyncResult, now: u64) -> (out: (AppState, Vec<Effect>))
    requires
        r is StashesFetched,
    ensures
        result_step(state, r, now, out.0@, effects_view(out.1@)),
{
    let next = match r {
        AsyncResult::StashesFetched { result, .. } => match state {
            AppState::LoadingStashes { path, branch, selected_index, prev_state } => match result {
                Ok(st) => {
                    let idx = if st.len() == 0 {
                        0
                    } else if selected_index < st.len() - 1 {
                        selected_index
                    } else {
                        st.len() - 1
                    };
                    AppState::ViewingStashes {
                        path,
                        branch,
                        stashes: st,
                        selected_index: idx,
                        prev_state,
                    }
                },
                Err(e) => error_state("Failed to list stashes: ", e, prev_state),
            },
            other => other,
        },
        other => state,
    };
    (next, Vec::new())
}

fn on_worktrees_listed(state: AppState, r: AsyncResult, now: u64) -> (out: (AppState, Vec<Effect>))
    requires
        r is WorktreesListed,
    ensures
        result_step(state, r, now, out.0@, effects_view(out.1@)),
{
    let next = match r {
        AsyncResult::WorktreesListed { result } => match state {
            AppState::ListingWorktrees {
                worktrees,
                filtered_worktrees,
                selected,
                refresh_needed,
                selection_mode,
                dashboard,
                filter_query,
                is_filtering,
                mode,
                last_selection_change,
            } => match result {
                Ok(ws) => {
                    let filtered = filter_worktrees(&ws, filter_query.as_str());
                    let sel = if selected.is_none() && ws.len() > 0 {
                        Some(0)
                    } else {
                        selected
                    };
                    AppState::ListingWorktrees {
                        worktrees: ws,
                        filtered_worktrees: filtered,
                        selected: sel,
                        refresh_needed,
                        selection_mode,
                        dashboard: DashboardState {
                            cached_status: None,
                            cached_history: None,
                            ..dashboard
                        },
                        filter_query,
                        is_filtering,
                        mode,
                        last_selection_change,
                    }
                },
                Err(_) => AppState::ListingWorktrees {
                    worktrees,
                    filtered_worktrees,
                    selected,
                    refresh_needed,
                    selection_mode,
                    dashboard,
                    filter_query,
                    is_filtering,
                    mode,
                    last_selection_change,
                },
            },
            other => other,
        },
        other => state,
    };
    (next, Vec::new())
}

/// Applies a background result to the state; returns the new state and the
/// work to start.
pub fn apply_async_result(state: AppState, result: AsyncResult, now: u64) -> (r: (
    AppState,
    Vec<Effect>,
))
    ensures
        result_step(state, result, now, r.0@, effects_view(r.1@)),
{
    match &result {
        AsyncResult::StatusFetched { .. } => on_status_fetched(state, result, now),
        AsyncResult::HistoryFetched { .. } => on_history_fetched(state, result, now),
        AsyncResult::BranchesFetched { .. } | AsyncResult::CleanCompleted { .. } =>
            on_branches_or_clean(state, result, now),
        AsyncResult::FetchCompleted { .. } | AsyncResult::PullCompleted { .. }
        | AsyncResult::PushCompleted { .. } | AsyncResult::SyncCompleted { .. }
        | AsyncResult::BranchSwitched { .. } => on_remote_completed(state, result, now),
        AsyncResult::StagedFile { .. } | AsyncResult::UnstagedFile { .. }
        | AsyncResult::StagedAll { .. } | AsyncResult::UnstagedAll { .. } =>
            on_staging_done(state, result, now),
        AsyncResult::DiffFetched { .. } | AsyncResult::CommitMessageGenerated { .. } =>
            on_diff_or_message(state, result, now),
        AsyncResult::StashApplied { .. } | AsyncResult::StashPopped { .. }
        | AsyncResult::StashDropped { .. } | AsyncResult::StashSaved { .. } =>
            on_stash_done(state, result, now),
        AsyncResult::StashesFetched { .. } => on_stashes_fetched(state, result, now),
        AsyncResult::WorktreesListed { .. } => on_worktrees_listed(state, result, now),
    }
}


// ---------------------------------------------------------------------------
// Input events
// ---------------------------------------------------------------------------

/// The handlers' preconditions on the state they are given: the status
/// view's counts fit the index range, the editor menu has a selected
/// option, the history's selection is on a row.
pub open spec fn event_ready(v: AppStateV) -> bool {
    &&& v is ViewingStatus ==> status_fits(v)
    &&& v is SelectingEditor ==> editor_ready(v)
    &&& v is ViewingHistory ==> history_ready(v)
}

pub fn is_event_ready(state: &AppState) -> (b: bool)
    ensures
        b == event_ready(state@),
{
    match state {
        AppState::ViewingStatus { status, .. } => {
            let s = status.staged.len() as u128;
            let u = status.unstaged.len() as u128;
            let t = status.untracked.len() as u128;
            status.selected_index as u128 + s + u + t <= usize::MAX as u128
        },
        AppState::SelectingEditor { options, selected, .. } => {
            proof {
                assert(crate::model::editors_view(options@).len() == options@.len());
            }
            options.len() > 0 && *selected < options.len()
        },
        AppState::ViewingHistory { commits, selected_index, .. } => {
            proof {
                assert(crate::domain::commits_view(commits@).len() == commits@.len());
            }
            commits.len() == 0 || *selected_index < commits.len()
        },
        _ => true,
    }
}

/// States that only wait for background work and ignore input.
pub open spec fn is_waiting(v: AppStateV) -> bool {
    v is LoadingStatus || v is LoadingHistory || v is LoadingBranches || v is Cleaning
        || v is Staging || v is Unstaging || v is SwitchingBranchTask
        || v is GeneratingCommitMessage || v is LoadingDiff
}

/// The areas on screen that mouse clicks are placed against.
#[derive(Debug, Clone, Copy)]
pub struct ScreenAreas {
    /// The staged and unstaged file columns of the status view.
    pub status_columns: Option<(Area, Area)>,
    /// The commit history popup.
    pub history_popup: Option<Area>,
}

/// No areas: the terminal's size is not known.
pub fn no_areas() -> (r: ScreenAreas)
    ensures
        r.status_columns is None,
        r.history_popup is None,
{
    ScreenAreas { status_columns: None, history_popup: None }
}

/// The areas of the screen of `state` on a terminal of `size`, when it
/// could be read: the file columns of a status view and the popup of a
/// commit history (see `status_file_columns` and `history_popup_area`).
/// Where the layout solver places them is not stated.
pub fn screen_areas(state: &AppState, size: Option<(u16, u16)>) -> (r: ScreenAreas)
    ensures
        r.status_columns is Some <==> (state is ViewingStatus && size is Some),
        r.history_popup is Some <==> (state is ViewingHistory && size is Some),
{
    match (state, size) {
        (AppState::ViewingStatus { status, .. }, Some((w, h))) => ScreenAreas {
            status_columns: Some(status_file_columns(w, h, status.show_diff)),
            history_popup: None,
        },
        (AppState::ViewingHistory { .. }, Some((w, h))) => ScreenAreas {
            status_columns: None,
            history_popup: Some(history_popup_area(w, h)),
        },
        _ => no_areas(),
    }
}

/// What an input event does in state `v`: `width` is the terminal's width,
/// `areas` the areas on screen, `now` the time in milliseconds.
pub open spec fn event_step(
    v: AppStateV,
    ev: InputEvent,
    areas: ScreenAreas,
    width: u16,
    now: u64,
    r: StepV,
) -> bool {
    match v {
        AppStateV::ListingWorktrees { .. } => r matches StepV::Next(t, e) && (listing_step(
            v,
            ev,
            width,
            now,
            Some(t),
            e,
        ) || (t == v && listing_step(v, ev, width, now, None, e))),
        AppStateV::ViewingStatus { path, .. } => match status_step(v, ev, areas.status_columns) {
            Some(te) => r == StepV::Next(te.0, te.1),
            None => r == StepV::Call(RepoCallV::ListStashes { path }, None),
        },
        AppStateV::ViewingHistory { .. } => r == history_step(v, ev, areas.history_popup),
        AppStateV::SwitchingBranch { .. } => r == branch_step(v, ev),
        AppStateV::PickingBaseRef { .. } => r == picking_step(v, ev),
        AppStateV::SelectingEditor { .. } => r == editor_step(v, ev, now),
        AppStateV::Prompting { .. } => r == prompt_step(v, ev),
        AppStateV::Confirming { .. } => r == confirm_step(v, ev),
        AppStateV::Committing { .. } => r == committing_step(v, ev),
        AppStateV::ViewingStashes { .. } => r == stash_step(v, ev),
        _ => if is_waiting(v) {
            r == next(v)
        } else {
            r == (match ev {
                InputEvent::Key(k) => if k.code == KeyCode::Char('q') || k.code == KeyCode::Esc {
                    next(AppStateV::Exiting(None))
                } else {
                    next(v)
                },
                _ => next(v),
            })
        },
    }
}

/// Handles an input event in any state.
pub fn handle_event(
    state: &AppState,
    event: &InputEvent,
    areas: ScreenAreas,
    width: u16,
    now: u64,
) -> (r: Step)
    requires
        event_ready(state@),
    ensures
        event_step(state@, *event, areas, width, now, step_view(r)),
{
    match state {
        AppState::ListingWorktrees { .. } => {
            let (o, e) = handle_listing_events(event, state, width, now);
            match o {
                Some(t) => Step::Next(t, e),
                None => Step::Next(copy_state(state), e),
            }
        },
        AppState::ViewingStatus { .. } => match handle_status_events(event, state, areas.status_columns) {
            StatusOutcome::Next(t, e) => Step::Next(t, e),
            StatusOutcome::ReadStashes { path } => Step::Call(RepoCall::ListStashes { path }, None),
        },
        AppState::ViewingHistory { .. } => handle_history_events(event, state, areas.history_popup),
        AppState::SwitchingBranch { .. } => handle_branch_events(event, state),
        AppState::PickingBaseRef { .. } => handle_picking_ref_events(event, state),
        AppState::SelectingEditor { .. } => handle_editor_events(event, state, now),
        AppState::Prompting { .. } => handle_prompt_events(event, state),
        AppState::Confirming { .. } => handle_confirm_events(event, state),
        AppState::Committing { .. } => handle_committing_events(event, state),
        AppState::ViewingStashes { .. } => handle_stash_events(event, state),
        AppState::LoadingStatus { .. } | AppState::LoadingHistory { .. }
        | AppState::LoadingBranches { .. } | AppState::Cleaning { .. } | AppState::Staging { .. }
        | AppState::Unstaging { .. } | AppState::SwitchingBranchTask { .. }
        | AppState::GeneratingCommitMessage { .. } | AppState::LoadingDiff { .. } => Step::Next(
            copy_state(state),
            no_work(),
        ),
        _ => {
            let quit = match event {
                InputEvent::Key(k) => k.code == KeyCode::Char('q') || k.code == KeyCode::Esc,
                _ => false,
            };
            if quit {
                Step::Next(AppState::Exiting(None), no_work())
            } else {
                Step::Next(copy_state(state), no_work())
            }
        },
    }
}

// ---------------------------------------------------------------------------
// The passing of time
// ---------------------------------------------------------------------------

/// Milliseconds from `start` to `now` (none when the clock went back).
pub open spec fn elapsed(now: u64, start: u64) -> int {
    if now >= start {
        now - start
    } else {
        0
    }
}

/// A timed state whose time is up becomes its target, which then asks for
/// the worktree list again.
pub open spec fn expire(v: AppStateV, now: u64) -> AppStateV {
    match v {
        AppStateV::Timed { target_state, start_time, duration, .. } => if elapsed(
            now,
            start_time,
        ) >= duration {
            refreshed(*target_state)
        } else {
            v
        },
        _ => v,
    }
}

/// The listing `v` with `refresh_needed` set to `r` and dashboard `d`.
pub open spec fn with_refresh(v: AppStateV, r: RefreshType, d: DashboardStateV) -> AppStateV {
    match v {
        AppStateV::ListingWorktrees {
            worktrees,
            filtered_worktrees,
            selected,
            refresh_needed,
            selection_mode,
            dashboard,
            filter_query,
            is_filtering,
            mode,
            last_selection_change,
        } => AppStateV::ListingWorktrees {
            worktrees,
            filtered_worktrees,
            selected,
            refresh_needed: r,
            selection_mode,
            dashboard: d,
            filter_query,
            is_filtering,
            mode,
            last_selection_change,
        },
        _ => v,
    }
}

/// A requested refresh of the listing: a full one fetches the worktree
/// list; a dashboard one forgets the dashboard's data.
pub open spec fn process_refresh(v: AppStateV) -> (AppStateV, Seq<EffectV>) {
    match v {
        AppStateV::ListingWorktrees { refresh_needed, dashboard, .. } => match refresh_needed {
            RefreshType::Full => (
                with_refresh(v, RefreshType::Nothing, dashboard),
                seq![EffectV::ListWorktrees],
            ),
            RefreshType::Dashboard => (
                with_refresh(
                    v,
                    RefreshType::Nothing,
                    DashboardStateV {
                        cached_status: None,
                        cached_history: None,
                        loading: false,
                        ..dashboard
                    },
                ),
                no_effects(),
            ),
            RefreshType::Nothing => (v, no_effects()),
        },
        _ => (v, no_effects()),
    }
}

/// Once the selection has rested for 200 ms, the dashboard's missing data
/// for the selected checkout is fetched: its status on the status tab, its
/// last ten commits on the log tab.
pub open spec fn debounce(v: AppStateV, now: u64) -> (AppStateV, Seq<EffectV>) {
    match v {
        AppStateV::ListingWorktrees { dashboard, last_selection_change, .. } => if elapsed(
            now,
            last_selection_change,
        ) >= 200 && !dashboard.loading && (dashboard.cached_status is None
            || dashboard.cached_history is None) {
            match selected_checkout(v) {
                Some(w) => match dashboard.active_tab {
                    DashboardTab::Status => if dashboard.cached_status is None {
                        (
                            with_dashboard(v, DashboardStateV { loading: true, ..dashboard }),
                            seq![EffectV::FetchStatus { path: w.path }],
                        )
                    } else {
                        (v, no_effects())
                    },
                    DashboardTab::Log => if dashboard.cached_history is None {
                        (
                            with_dashboard(v, DashboardStateV { loading: true, ..dashboard }),
                            seq![EffectV::FetchHistory { path: w.path, limit: 10 }],
                        )
                    } else {
                        (v, no_effects())
                    },
                    DashboardTab::Info => (v, no_effects()),
                },
                None => (v, no_effects()),
            }
        } else {
            (v, no_effects())
        },
        _ => (v, no_effects()),
    }
}

/// What the passing of time does before each frame: timed states expire,
/// requested refreshes are processed, then the dashboard is filled.
pub open spec fn tick_step(v: AppStateV, now: u64) -> (AppStateV, Seq<EffectV>) {
    let a = expire(v, now);
    let b = process_refresh(a);
    let c = debounce(b.0, now);
    (c.0, b.1 + c.1)
}

fn expire_exec(state: AppState, now: u64) -> (r: AppState)
    ensures
        r@ == expire(state@, now),
{
    match state {
        AppState::Timed { inner_state, target_state, start_time, duration } => {
            let el = if now >= start_time {
                now - start_time
            } else {
                0
            };
            if el >= duration {
                refreshed_state(target_state)
            } else {
                AppState::Timed { inner_state, target_state, start_time, duration }
            }
        },
        other => other,
    }
}

fn process_refresh_exec(state: AppState) -> (r: (AppState, Vec<Effect>))
    ensures
        r.0@ == process_refresh(state@).0,
        effects_view(r.1@) == process_refresh(state@).1,
{
    match state {
        AppState::ListingWorktrees {
            worktrees,
            filtered_worktrees,
            selected,
            refresh_needed,
            selection_mode,
            dashboard,
            filter_query,
            is_filtering,
            mode,
            last_selection_change,
        } => {
            if refresh_needed == RefreshType::Full {
                (
                    AppState::ListingWorktrees {
                        worktrees,
                        filtered_worktrees,
                        selected,
                        refresh_needed: RefreshType::Nothing,
                        selection_mode,
                        dashboard,
                        filter_query,
                        is_filtering,
                        mode,
                        last_selection_change,
                    },
                    one_effect(Effect::ListWorktrees),
                )
            } else if refresh_needed == RefreshType::Dashboard {
                (
                    AppState::ListingWorktrees {
                        worktrees,
                        filtered_worktrees,
                        selected,
                        refresh_needed: RefreshType::Nothing,
                        selection_mode,
                        dashboard: DashboardState {
                            cached_status: None,
                            cached_history: None,
                            loading: false,
                            ..dashboard
                        },
                        filter_query,
                        is_filtering,
                        mode,
                        last_selection_change,
                    },
                    no_work(),
                )
            } else {
                (
                    AppState::ListingWorktrees {
                        worktrees,
                        filtered_worktrees,
                        selected,
                        refresh_needed,
                        selection_mode,
                        dashboard,
                        filter_query,
                        is_filtering,
                        mode,
                        last_selection_change,
                    },
                    no_work(),
                )
            }
        },
        other => (other, no_work()),
    }
}

fn debounce_exec(state: AppState, now: u64) -> (r: (AppState, Vec<Effect>))
    ensures
        r.0@ == debounce(state@, now).0,
        effects_view(r.1@) == debounce(state@, now).1,
{
    let ghost v = state@;
    let target = crate::listing::selected_checkout_exec(&state);
    match state {
        AppState::ListingWorktrees {
            worktrees,
            filtered_worktrees,
            selected,
            refresh_needed,
            selection_mode,
            dashboard,
            filter_query,
            is_filtering,
            mode,
            last_selection_change,
        } => {
            let el = if now >= last_selection_change {
                now - last_selection_change
            } else {
                0
            };
            let mut d = dashboard;
            let mut effects: Vec<Effect> = no_work();
            if el >= 200 && !d.loading && (d.cached_status.is_none() || d.cached_history.is_none()) {
                match target {
                    Some(path) => match d.active_tab {
                        DashboardTab::Status => if d.cached_status.is_none() {
                            d.loading = true;
                            effects = one_effect(Effect::FetchStatus { path });
                        },
                        DashboardTab::Log => if d.cached_history.is_none() {
                            d.loading = true;
                            effects = one_effect(Effect::FetchHistory { path, limit: 10 });
                        },
                        DashboardTab::Info => {},
                    },
                    None => {},
                }
            }
            (
                AppState::ListingWorktrees {
                    worktrees,
                    filtered_worktrees,
                    selected,
                    refresh_needed,
                    selection_mode,
                    dashboard: d,
                    filter_query,
                    is_filtering,
                    mode,
                    last_selection_change,
                },
                effects,
            )
        },
        other => (other, no_work()),
    }
}

/// What the passing of time does to the state before a frame is drawn;
/// returns the new state and the work to start.
pub fn tick(state: AppState, now: u64) -> (r: (AppState, Vec<Effect>))
    ensures
        r.0@ == tick_step(state@, now).0,
        effects_view(r.1@) == tick_step(state@, now).1,
{
    let a = expire_exec(state, now);
    let (b, mut e1) = process_refresh_exec(a);
    let (c, mut e2) = debounce_exec(b, now);
    let ghost v1 = effects_view(e1@);
    let ghost v2 = effects_view(e2@);
    e1.append(&mut e2);
    assert(effects_view(e1@) =~= v1 + v2);
    (c, e1)
}

} // verus!
