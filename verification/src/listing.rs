//! Keys and mouse events on the worktree list: filtering, moving the
//! selection, switching modes and starting work on the selected worktree.
use vstd::prelude::*;
use crate::domain::{copy_worktrees, worktrees_view, Worktree, WorktreeView};
use crate::events::{
    effects_view, one_effect, Effect, EffectV, InputEvent, KeyCode, KeyInput, MouseInput, MouseKind,
};
use crate::model::{
    copy_state, filter_result, filter_worktrees, move_selection, moved_selection, AppMode,
    AppState, AppStateV, DashboardState, DashboardStateV, DashboardTab, Intent, IntentV,
    RefreshType,
};
use crate::text::{chars_of, string_of};

verus! {

/// The view of an optional state.
pub open spec fn opt_state(o: Option<AppState>) -> Option<AppStateV> {
    match o {
        Some(s) => Some(s@),
        None => None,
    }
}

/// A listing like `v` (keeping its worktrees and selection mode) with the
/// other fields given.
pub open spec fn relist(
    v: AppStateV,
    filtered: Seq<WorktreeView>,
    selected: Option<usize>,
    refresh: RefreshType,
    dashboard: DashboardStateV,
    query: Seq<char>,
    filtering: bool,
    mode: AppMode,
    last: u64,
) -> AppStateV {
    match v {
        AppStateV::ListingWorktrees { worktrees, selection_mode, .. } =>
            AppStateV::ListingWorktrees {
            worktrees,
            filtered_worktrees: filtered,
            selected,
            refresh_needed: refresh,
            selection_mode,
            dashboard,
            filter_query: query,
            is_filtering: filtering,
            mode,
            last_selection_change: last,
        },
        _ => v,
    }
}

/// The listing with only its mode (and filtering flag) changed.
pub open spec fn with_mode(v: AppStateV, mode: AppMode, filtering: bool) -> AppStateV {
    relist(
        v,
        v->ListingWorktrees_filtered_worktrees,
        v->ListingWorktrees_selected,
        v->ListingWorktrees_refresh_needed,
        v->ListingWorktrees_dashboard,
        v->ListingWorktrees_filter_query,
        filtering,
        mode,
        v->ListingWorktrees_last_selection_change,
    )
}

/// The listing with its selection moved by `delta` rows (wrapping) and the
/// dashboard marked for reloading.
pub open spec fn moved(v: AppStateV, delta: int, now: u64) -> AppStateV {
    let f = v->ListingWorktrees_filtered_worktrees;
    relist(
        v,
        f,
        moved_selection(v->ListingWorktrees_selected, f.len() as usize, delta),
        RefreshType::Dashboard,
        v->ListingWorktrees_dashboard,
        v->ListingWorktrees_filter_query,
        v->ListingWorktrees_is_filtering,
        v->ListingWorktrees_mode,
        now,
    )
}

/// The listing showing dashboard tab `tab`, with the selection `selected`.
pub open spec fn on_tab(v: AppStateV, tab: DashboardTab, now: u64) -> AppStateV {
    relist(
        v,
        v->ListingWorktrees_filtered_worktrees,
        v->ListingWorktrees_selected,
        RefreshType::Dashboard,
        DashboardStateV { active_tab: tab, loading: false, ..v->ListingWorktrees_dashboard },
        v->ListingWorktrees_filter_query,
        v->ListingWorktrees_is_filtering,
        v->ListingWorktrees_mode,
        now,
    )
}

/// The worktree on the selected row of the (filtered) list.
pub open spec fn selected_worktree(v: AppStateV) -> Option<WorktreeView> {
    match v {
        AppStateV::ListingWorktrees { filtered_worktrees, selected, .. } => match selected {
            Some(i) => if i < filtered_worktrees.len() {
                Some(filtered_worktrees[i as int])
            } else {
                None
            },
            None => None,
        },
        _ => None,
    }
}

/// The selected worktree, when it is not the bare hub.
pub open spec fn selected_checkout(v: AppStateV) -> Option<WorktreeView> {
    match selected_worktree(v) {
        Some(w) => if w.is_bare {
            None
        } else {
            Some(w)
        },
        None => None,
    }
}

/// The selected worktree, when it is the bare hub.
pub open spec fn selected_hub(v: AppStateV) -> Option<WorktreeView> {
    match selected_worktree(v) {
        Some(w) => if w.is_bare {
            Some(w)
        } else {
            None
        },
        None => None,
    }
}

pub open spec fn no_effects() -> Seq<EffectV> {
    Seq::empty()
}

/// The question asked before removing the worktree on `branch`.
pub open spec fn remove_message(branch: Seq<char>, force: bool) -> Seq<char> {
    "Are you sure you want to "@ + (if force {
        "FORCE "@
    } else {
        Seq::empty()
    }) + "remove worktree '"@ + branch + "'?"@
}

/// The question asked before rebasing the worktree on `branch`.
pub open spec fn rebase_message(branch: Seq<char>) -> Seq<char> {
    "Rebase '"@ + branch + "' onto its upstream?"@
}

/// A transient "opening the editor" notice in front of `v`.
pub open spec fn opening(v: AppStateV, branch: Seq<char>, editor: Seq<char>, now: u64) -> AppStateV {
    AppStateV::Timed {
        inner_state: Box::new(
            AppStateV::OpeningEditor { branch, editor, prev_state: Box::new(v) },
        ),
        target_state: Box::new(v),
        start_time: now,
        duration: 800,
    }
}

/// What a key does in the normal mode of the list.
pub open spec fn normal_key(v: AppStateV, code: KeyCode, now: u64) -> (
    Option<AppStateV>,
    Seq<EffectV>,
) {
    let prev = Box::new(v);
    match code {
        KeyCode::Char('?') => (Some(AppStateV::Help { prev_state: prev }), no_effects()),
        KeyCode::Char('/') => (Some(with_mode(v, AppMode::Filter, true)), no_effects()),
        KeyCode::Char('m') => (
            Some(with_mode(v, AppMode::Manage, v->ListingWorktrees_is_filtering)),
            no_effects(),
        ),
        KeyCode::Char('g') => (
            Some(with_mode(v, AppMode::Git, v->ListingWorktrees_is_filtering)),
            no_effects(),
        ),
        KeyCode::Char('j') | KeyCode::Down => (Some(moved(v, 1, now)), no_effects()),
        KeyCode::Char('k') | KeyCode::Up => (Some(moved(v, -1, now)), no_effects()),
        KeyCode::Enter => match selected_worktree(v) {
            Some(w) => if w.is_bare {
                (
                    Some(opening(v, "HUB"@, "Detecting..."@, now)),
                    seq![EffectV::OpenRootInPreferredEditor],
                )
            } else {
                (
                    Some(opening(v, w.branch, "Opening..."@, now)),
                    seq![EffectV::OpenInPreferredEditor { path: w.path }],
                )
            },
            None => (None, no_effects()),
        },
        KeyCode::Char('v') => match selected_checkout(v) {
            Some(w) => (
                Some(AppStateV::LoadingStatus { path: w.path, branch: w.branch, prev_state: prev }),
                seq![EffectV::FetchStatus { path: w.path }],
            ),
            None => (None, no_effects()),
        },
        KeyCode::Char('l') => match selected_checkout(v) {
            Some(w) => (
                Some(AppStateV::LoadingHistory { branch: w.branch, prev_state: prev }),
                seq![EffectV::FetchHistory { path: w.path, limit: 50 }],
            ),
            None => (None, no_effects()),
        },
        KeyCode::Char('q') | KeyCode::Esc => (Some(AppStateV::Exiting(None)), no_effects()),
        KeyCode::Char('1') => (Some(on_tab(v, DashboardTab::Info, now)), no_effects()),
        KeyCode::Char('2') => (Some(on_tab(v, DashboardTab::Status, now)), no_effects()),
        KeyCode::Char('3') => (Some(on_tab(v, DashboardTab::Log, now)), no_effects()),
        KeyCode::Char('o') => match selected_hub(v) {
            Some(w) => (None, seq![EffectV::OpenRootInFileManager]),
            None => (None, no_effects()),
        },
        KeyCode::Char('f') => match selected_hub(v) {
            Some(w) => (
                Some(AppStateV::Fetching { branch: w.branch, prev_state: prev }),
                seq![EffectV::Fetch { path: w.path, branch: w.branch }],
            ),
            None => (None, no_effects()),
        },
        KeyCode::Char('c') => match selected_hub(v) {
            Some(w) => (
                Some(
                    AppStateV::Confirming {
                        title: " PRUNE "@,
                        message: "Are you sure you want to prune stale worktrees?"@,
                        action: IntentV::CleanWorktrees { dry_run: false, artifacts: false },
                        prev_state: prev,
                    },
                ),
                no_effects(),
            ),
            None => (None, no_effects()),
        },
        _ => (None, no_effects()),
    }
}

/// What a key does in the manage mode of the list.
pub open spec fn manage_key(v: AppStateV, code: KeyCode) -> (Option<AppStateV>, Seq<EffectV>) {
    let prev = Box::new(v);
    match code {
        KeyCode::Esc => (
            Some(with_mode(v, AppMode::Normal, v->ListingWorktrees_is_filtering)),
            no_effects(),
        ),
        KeyCode::Char('a') => (
            Some(AppStateV::LoadingBranches { prev_state: prev }),
            seq![EffectV::ListBranches],
        ),
        KeyCode::Char('r') | KeyCode::Char('d') | KeyCode::Char('x') | KeyCode::Char('D') => {
            let force = code == KeyCode::Char('D');
            match selected_checkout(v) {
                Some(w) => (
                    Some(
                        AppStateV::Confirming {
                            title: if force {
                                " FORCE REMOVE "@
                            } else {
                                " REMOVE "@
                            },
                            message: remove_message(w.branch, force),
                            action: IntentV::RemoveWorktree { intent: w.path, force },
                            prev_state: prev,
                        },
                    ),
                    no_effects(),
                ),
                None => (None, no_effects()),
            }
        },
        KeyCode::Char('c') => (
            Some(AppStateV::Cleaning { prev_state: prev }),
            seq![EffectV::Clean { dry_run: false, artifacts: false }],
        ),
        KeyCode::Char('C') => (
            Some(
                AppStateV::Confirming {
                    title: " CLEAN ARTIFACTS "@,
                    message: "Remove all build artifacts from INACTIVE worktrees?"@,
                    action: IntentV::CleanWorktrees { dry_run: false, artifacts: true },
                    prev_state: prev,
                },
            ),
            no_effects(),
        ),
        _ => (None, no_effects()),
    }
}

/// What a key does in the git mode of the list.
pub open spec fn git_key(v: AppStateV, code: KeyCode) -> (Option<AppStateV>, Seq<EffectV>) {
    let prev = Box::new(v);
    match code {
        KeyCode::Esc => (
            Some(with_mode(v, AppMode::Normal, v->ListingWorktrees_is_filtering)),
            no_effects(),
        ),
        KeyCode::Char('s') => match selected_checkout(v) {
            Some(w) => (
                Some(AppStateV::Syncing { branch: w.branch, prev_state: prev }),
                seq![EffectV::SyncConfigs { path: w.path, branch: w.branch }],
            ),
            None => (None, no_effects()),
        },
        KeyCode::Char('p') => match selected_checkout(v) {
            Some(w) => (
                Some(AppStateV::Pulling { branch: w.branch, prev_state: prev }),
                seq![EffectV::Pull { path: w.path, branch: w.branch }],
            ),
            None => (None, no_effects()),
        },
        KeyCode::Char('P') => match selected_checkout(v) {
            Some(w) => (
                Some(AppStateV::Pushing { branch: w.branch, prev_state: prev }),
                seq![EffectV::Push { path: w.path, branch: w.branch }],
            ),
            None => (None, no_effects()),
        },
        KeyCode::Char('R') => match selected_checkout(v) {
            Some(w) => (
                Some(
                    AppStateV::Confirming {
                        title: " REBASE "@,
                        message: rebase_message(w.branch),
                        action: IntentV::Rebase { upstream: None },
                        prev_state: prev,
                    },
                ),
                no_effects(),
            ),
            None => (None, no_effects()),
        },
        KeyCode::Char('f') => match selected_worktree(v) {
            Some(w) => (
                Some(AppStateV::Fetching { branch: w.branch, prev_state: prev }),
                seq![EffectV::Fetch { path: w.path, branch: w.branch }],
            ),
            None => (None, no_effects()),
        },
        _ => (None, no_effects()),
    }
}

/// `t` is the listing `v` after the filter query became `query`: the
/// filtered list is recomputed, the selection kept and the dashboard marked
/// for reloading.
pub open spec fn refiltered(
    v: AppStateV,
    query: Seq<char>,
    filtering: bool,
    mode: AppMode,
    now: u64,
    t: AppStateV,
) -> bool {
    &&& t is ListingWorktrees
    &&& filter_result(
        v->ListingWorktrees_worktrees,
        query,
        t->ListingWorktrees_filtered_worktrees,
    )
    &&& t == relist(
        v,
        t->ListingWorktrees_filtered_worktrees,
        v->ListingWorktrees_selected,
        RefreshType::Dashboard,
        v->ListingWorktrees_dashboard,
        query,
        filtering,
        mode,
        now,
    )
}

/// What a key does while the filter query is being typed.
pub open spec fn filter_key(v: AppStateV, k: KeyInput, now: u64, out: Option<AppStateV>) -> bool {
    let q = v->ListingWorktrees_filter_query;
    let mode = v->ListingWorktrees_mode;
    match k.code {
        KeyCode::Esc => out matches Some(t) && refiltered(
            v,
            Seq::empty(),
            false,
            AppMode::Normal,
            now,
            t,
        ),
        KeyCode::Enter => out matches Some(t) && refiltered(v, q, false, AppMode::Normal, now, t),
        KeyCode::Char(c) => if c == 'u' && k.ctrl {
            out matches Some(t) && refiltered(v, Seq::empty(), true, mode, now, t)
        } else {
            out matches Some(t) && refiltered(v, q.push(c), true, mode, now, t)
        },
        KeyCode::Backspace => if q.len() > 0 {
            out matches Some(t) && refiltered(v, q.drop_last(), true, mode, now, t)
        } else {
            out is None
        },
        KeyCode::Down => out == Some(moved(v, 1, now)),
        KeyCode::Up => out == Some(moved(v, -1, now)),
        _ => out is None,
    }
}

/// The width of the worktree list in a terminal `width` cells wide: two
/// fifths of the width inside the border.
pub open spec fn list_width(width: u16) -> int {
    if width >= 2 {
        (width - 2) * 2 / 5
    } else {
        0
    }
}

/// The dashboard tab whose header is at `dx` cells right of the list.
pub open spec fn tab_at(dx: int) -> Option<DashboardTab> {
    if dx < 12 {
        Some(DashboardTab::Info)
    } else if dx < 24 {
        Some(DashboardTab::Status)
    } else if dx < 36 {
        Some(DashboardTab::Log)
    } else {
        None
    }
}

/// What a mouse event does on the list.
pub open spec fn mouse_step(v: AppStateV, m: MouseInput, width: u16, now: u64) -> Option<AppStateV> {
    let f = v->ListingWorktrees_filtered_worktrees;
    match m.kind {
        MouseKind::LeftDown => {
            let lw = list_width(width);
            let x = m.column as int;
            let y = m.row as int;
            if 1 <= x <= 1 + lw && y >= 5 {
                if y < 32768 && y - 5 < f.len() {
                    Some(
                        relist(
                            v,
                            f,
                            Some((y - 5) as usize),
                            RefreshType::Dashboard,
                            v->ListingWorktrees_dashboard,
                            v->ListingWorktrees_filter_query,
                            v->ListingWorktrees_is_filtering,
                            v->ListingWorktrees_mode,
                            now,
                        ),
                    )
                } else {
                    None
                }
            } else if x > 1 + lw && y >= 4 {
                match tab_at(x - (1 + lw)) {
                    Some(tab) => Some(on_tab(v, tab, now)),
                    None => None,
                }
            } else {
                None
            }
        },
        MouseKind::ScrollDown => Some(moved(v, 1, now)),
        MouseKind::ScrollUp => Some(moved(v, -1, now)),
        _ => None,
    }
}

/// What an input event does on the list: `out` is the next state (none
/// when nothing changes) and `effs` the work started.
pub open spec fn listing_step(
    v: AppStateV,
    ev: InputEvent,
    width: u16,
    now: u64,
    out: Option<AppStateV>,
    effs: Seq<EffectV>,
) -> bool {
    match ev {
        InputEvent::Key(k) => if v->ListingWorktrees_mode == AppMode::Filter {
            filter_key(v, k, now, out) && effs.len() == 0
        } else {
            let r = match v->ListingWorktrees_mode {
                AppMode::Normal => normal_key(v, k.code, now),
                AppMode::Manage => manage_key(v, k.code),
                _ => git_key(v, k.code),
            };
            out == r.0 && effs == r.1
        },
        InputEvent::Mouse(m) => out == mouse_step(v, m, width, now) && effs.len() == 0,
        InputEvent::Other => out is None && effs.len() == 0,
    }
}

// ---------------------------------------------------------------------------
// Executable handlers
// ---------------------------------------------------------------------------

fn relist_exec(
    state: &AppState,
    filtered: Vec<Worktree>,
    selected: Option<usize>,
    refresh: RefreshType,
    dashboard: DashboardState,
    query: String,
    filtering: bool,
    mode: AppMode,
    last: u64,
) -> (r: AppState)
    requires
        state is ListingWorktrees,
    ensures
        r@ == relist(
            state@,
            worktrees_view(filtered@),
            selected,
            refresh,
            dashboard@,
            query@,
            filtering,
            mode,
            last,
        ),
{
    match state {
        AppState::ListingWorktrees { worktrees, selection_mode, .. } => AppState::ListingWorktrees {
            worktrees: copy_worktrees(worktrees),
            filtered_worktrees: filtered,
            selected,
            refresh_needed: refresh,
            selection_mode: *selection_mode,
            dashboard,
            filter_query: query,
            is_filtering: filtering,
            mode,
            last_selection_change: last,
        },
        _ => copy_state(state),
    }
}

/// The listing with its mode and filtering flag changed.
fn with_mode_exec(state: &AppState, mode: AppMode, filtering: bool) -> (r: AppState)
    requires
        state is ListingWorktrees,
    ensures
        r@ == with_mode(state@, mode, filtering),
{
    match state {
        AppState::ListingWorktrees {
            filtered_worktrees,
            selected,
            refresh_needed,
            dashboard,
            filter_query,
            last_selection_change,
            ..
        } => relist_exec(
            state,
            copy_worktrees(filtered_worktrees),
            *selected,
            *refresh_needed,
            dashboard.copy(),
            filter_query.clone(),
            filtering,
            mode,
            *last_selection_change,
        ),
        _ => copy_state(state),
    }
}

/// The listing with its selection moved by `delta`.
fn moved_exec(state: &AppState, delta: isize, now: u64) -> (r: AppState)
    requires
        state is ListingWorktrees,
    ensures
        r@ == moved(state@, delta as int, now),
{
    match state {
        AppState::ListingWorktrees {
            filtered_worktrees,
            selected,
            dashboard,
            filter_query,
            is_filtering,
            mode,
            ..
        } => {
            let sel = move_selection(*selected, filtered_worktrees.len(), delta);
            relist_exec(
                state,
                copy_worktrees(filtered_worktrees),
                sel,
                RefreshType::Dashboard,
                dashboard.copy(),
                filter_query.clone(),
                *is_filtering,
                *mode,
                now,
            )
        },
        _ => copy_state(state),
    }
}

/// The listing showing dashboard tab `tab`.
fn on_tab_exec(state: &AppState, tab: DashboardTab, now: u64) -> (r: AppState)
    requires
        state is ListingWorktrees,
    ensures
        r@ == on_tab(state@, tab, now),
{
    match state {
        AppState::ListingWorktrees {
            filtered_worktrees,
            selected,
            dashboard,
            filter_query,
            is_filtering,
            mode,
            ..
        } => {
            let d = dashboard.copy();
            let nd = DashboardState { active_tab: tab, loading: false, ..d };
            relist_exec(
                state,
                copy_worktrees(filtered_worktrees),
                *selected,
                RefreshType::Dashboard,
                nd,
                filter_query.clone(),
                *is_filtering,
                *mode,
                now,
            )
        },
        _ => copy_state(state),
    }
}

/// The worktree on the selected row.
fn selected_exec(state: &AppState) -> (r: Option<&Worktree>)
    ensures
        match r {
            Some(w) => selected_worktree(state@) == Some(w@),
            None => selected_worktree(state@) is None,
        },
{
    match state {
        AppState::ListingWorktrees { filtered_worktrees, selected, .. } => match selected {
            Some(i) => if *i < filtered_worktrees.len() {
                proof {
                    assert(worktrees_view(filtered_worktrees@)[*i as int]
                        == filtered_worktrees@[*i as int]@);
                }
                Some(&filtered_worktrees[*i])
            } else {
                None
            },
            None => None,
        },
        _ => None,
    }
}

/// The path of the selected worktree, when it is not the bare hub.
pub(crate) fn selected_checkout_exec(state: &AppState) -> (r: Option<String>)
    ensures
        match r {
            Some(p) => selected_checkout(state@) matches Some(w) && w.path == p@,
            None => selected_checkout(state@) is None,
        },
{
    match selected_exec(state) {
        Some(w) => if w.is_bare {
            None
        } else {
            Some(w.path.clone())
        },
        None => None,
    }
}

/// The transient "opening the editor" notice in front of `state`.
fn opening_exec(state: &AppState, branch: String, editor: String, now: u64) -> (r: AppState)
    ensures
        r@ == opening(state@, branch@, editor@, now),
{
    let inner = AppState::OpeningEditor {
        branch,
        editor,
        prev_state: Box::new(copy_state(state)),
    };
    assert(inner@ == AppStateV::OpeningEditor {
        branch: branch@,
        editor: editor@,
        prev_state: Box::new(state@),
    });
    AppState::Timed {
        inner_state: Box::new(inner),
        target_state: Box::new(copy_state(state)),
        start_time: now,
        duration: 800,
    }
}

fn normal_key_exec(state: &AppState, code: KeyCode, now: u64) -> (r: (Option<AppState>, Vec<Effect>))
    requires
        state is ListingWorktrees,
    ensures
        opt_state(r.0) == normal_key(state@, code, now).0,
        effects_view(r.1@) == normal_key(state@, code, now).1,
{
    let ghost v = state@;
    match code {
        KeyCode::Char('?') => (
            Some(AppState::Help { prev_state: Box::new(copy_state(state)) }),
            Vec::new(),
        ),
        KeyCode::Char('/') => (Some(with_mode_exec(state, AppMode::Filter, true)), Vec::new()),
        KeyCode::Char('m') | KeyCode::Char('g') => {
            let filtering = match state {
                AppState::ListingWorktrees { is_filtering, .. } => *is_filtering,
                _ => false,
            };
            let mode = if code == KeyCode::Char('m') {
                AppMode::Manage
            } else {
                AppMode::Git
            };
            (Some(with_mode_exec(state, mode, filtering)), Vec::new())
        },
        KeyCode::Char('j') | KeyCode::Down => (Some(moved_exec(state, 1, now)), Vec::new()),
        KeyCode::Char('k') | KeyCode::Up => (Some(moved_exec(state, -1, now)), Vec::new()),
        KeyCode::Enter => match selected_exec(state) {
            Some(w) => if w.is_bare {
                (
                    Some(
                        opening_exec(
                            state,
                            String::from_str("HUB"),
                            String::from_str("Detecting..."),
                            now,
                        ),
                    ),
                    one_effect(Effect::OpenRootInPreferredEditor),
                )
            } else {
                (
                    Some(
                        opening_exec(state, w.branch.clone(), String::from_str("Opening..."), now),
                    ),
                    one_effect(Effect::OpenInPreferredEditor { path: w.path.clone() }),
                )
            },
            None => (None, Vec::new()),
        },
        KeyCode::Char('v') => match selected_exec(state) {
            Some(w) => if w.is_bare {
                (None, Vec::new())
            } else {
                (
                    Some(
                        AppState::LoadingStatus {
                            path: w.path.clone(),
                            branch: w.branch.clone(),
                            prev_state: Box::new(copy_state(state)),
                        },
                    ),
                    one_effect(Effect::FetchStatus { path: w.path.clone() }),
                )
            },
            None => (None, Vec::new()),
        },
        KeyCode::Char('l') => match selected_exec(state) {
            Some(w) => if w.is_bare {
                (None, Vec::new())
            } else {
                (
                    Some(
                        AppState::LoadingHistory {
                            branch: w.branch.clone(),
                            prev_state: Box::new(copy_state(state)),
                        },
                    ),
                    one_effect(Effect::FetchHistory { path: w.path.clone(), limit: 50 }),
                )
            },
            None => (None, Vec::new()),
        },
        KeyCode::Char('q') | KeyCode::Esc => (Some(AppState::Exiting(None)), Vec::new()),
        KeyCode::Char('1') => (Some(on_tab_exec(state, DashboardTab::Info, now)), Vec::new()),
        KeyCode::Char('2') => (Some(on_tab_exec(state, DashboardTab::Status, now)), Vec::new()),
        KeyCode::Char('3') => (Some(on_tab_exec(state, DashboardTab::Log, now)), Vec::new()),
        KeyCode::Char('o') => match selected_exec(state) {
            Some(w) => if w.is_bare {
                (None, one_effect(Effect::OpenRootInFileManager))
            } else {
                (None, Vec::new())
            },
            None => (None, Vec::new()),
        },
        KeyCode::Char('f') => match selected_exec(state) {
            Some(w) => if w.is_bare {
                (
                    Some(
                        AppState::Fetching {
                            branch: w.branch.clone(),
                            prev_state: Box::new(copy_state(state)),
                        },
                    ),
                    one_effect(Effect::Fetch { path: w.path.clone(), branch: w.branch.clone() }),
                )
            } else {
                (None, Vec::new())
            },
            None => (None, Vec::new()),
        },
        KeyCode::Char('c') => match selected_exec(state) {
            Some(w) => if w.is_bare {
                (
                    Some(
                        AppState::Confirming {
                            title: String::from_str(" PRUNE "),
                            message: String::from_str(
                                "Are you sure you want to prune stale worktrees?",
                            ),
                            action: Box::new(
                                Intent::CleanWorktrees { dry_run: false, artifacts: false },
                            ),
                            prev_state: Box::new(copy_state(state)),
                        },
                    ),
                    Vec::new(),
                )
            } else {
                (None, Vec::new())
            },
            None => (None, Vec::new()),
        },
        _ => (None, Vec::new()),
    }
}

/// The question asked before removing the worktree on `branch`.
fn remove_message_exec(branch: &String, force: bool) -> (r: String)
    ensures
        r@ == remove_message(branch@, force),
{
    let mut m = String::from_str("Are you sure you want to ");
    if force {
        m.append("FORCE ");
    }
    m.append("remove worktree '");
    m.append(branch.as_str());
    m.append("'?");
    proof {
        if force {
            assert(m@ =~= remove_message(branch@, force));
        } else {
            assert(m@ =~= remove_message(branch@, force));
        }
    }
    m
}

fn manage_key_exec(state: &AppState, code: KeyCode) -> (r: (Option<AppState>, Vec<Effect>))
    requires
        state is ListingWorktrees,
    ensures
        opt_state(r.0) == manage_key(state@, code).0,
        effects_view(r.1@) == manage_key(state@, code).1,
{
    match code {
        KeyCode::Esc => {
            let filtering = match state {
                AppState::ListingWorktrees { is_filtering, .. } => *is_filtering,
                _ => false,
            };
            (Some(with_mode_exec(state, AppMode::Normal, filtering)), Vec::new())
        },
        KeyCode::Char('a') => (
            Some(AppState::LoadingBranches { prev_state: Box::new(copy_state(state)) }),
            one_effect(Effect::ListBranches),
        ),
        KeyCode::Char('r') | KeyCode::Char('d') | KeyCode::Char('x') | KeyCode::Char('D') => {
            let force = code == KeyCode::Char('D');
            match selected_exec(state) {
                Some(w) => if w.is_bare {
                    (None, Vec::new())
                } else {
                    let title = if force {
                        String::from_str(" FORCE REMOVE ")
                    } else {
                        String::from_str(" REMOVE ")
                    };
                    (
                        Some(
                            AppState::Confirming {
                                title,
                                message: remove_message_exec(&w.branch, force),
                                action: Box::new(
                                    Intent::RemoveWorktree { intent: w.path.clone(), force },
                                ),
                                prev_state: Box::new(copy_state(state)),
                            },
                        ),
                        Vec::new(),
                    )
                },
                None => (None, Vec::new()),
            }
        },
        KeyCode::Char('c') => (
            Some(AppState::Cleaning { prev_state: Box::new(copy_state(state)) }),
            one_effect(Effect::Clean { dry_run: false, artifacts: false }),
        ),
        KeyCode::Char('C') => (
            Some(
                AppState::Confirming {
                    title: String::from_str(" CLEAN ARTIFACTS "),
                    message: String::from_str(
                        "Remove all build artifacts from INACTIVE worktrees?",
                    ),
                    action: Box::new(Intent::CleanWorktrees { dry_run: false, artifacts: true }),
                    prev_state: Box::new(copy_state(state)),
                },
            ),
            Vec::new(),
        ),
        _ => (None, Vec::new()),
    }
}

/// The question asked before rebasing the worktree on `branch`.
fn rebase_message_exec(branch: &String) -> (r: String)
    ensures
        r@ == rebase_message(branch@),
{
    let mut m = String::from_str("Rebase '");
    m.append(branch.as_str());
    m.append("' onto its upstream?");
    m
}

fn git_key_exec(state: &AppState, code: KeyCode) -> (r: (Option<AppState>, Vec<Effect>))
    requires
        state is ListingWorktrees,
    ensures
        opt_state(r.0) == git_key(state@, code).0,
        effects_view(r.1@) == git_key(state@, code).1,
{
    match code {
        KeyCode::Esc => {
            let filtering = match state {
                AppState::ListingWorktrees { is_filtering, .. } => *is_filtering,
                _ => false,
            };
            (Some(with_mode_exec(state, AppMode::Normal, filtering)), Vec::new())
        },
        KeyCode::Char('s') | KeyCode::Char('p') | KeyCode::Char('P') | KeyCode::Char('R') => {
            match selected_exec(state) {
                Some(w) => if w.is_bare {
                    (None, Vec::new())
                } else {
                    let prev = Box::new(copy_state(state));
                    if code == KeyCode::Char('s') {
                        (
                            Some(AppState::Syncing { branch: w.branch.clone(), prev_state: prev }),
                            one_effect(
                                Effect::SyncConfigs {
                                    path: w.path.clone(),
                                    branch: w.branch.clone(),
                                },
                            ),
                        )
                    } else if code == KeyCode::Char('p') {
                        (
                            Some(AppState::Pulling { branch: w.branch.clone(), prev_state: prev }),
                            one_effect(
                                Effect::Pull { path: w.path.clone(), branch: w.branch.clone() },
                            ),
                        )
                    } else if code == KeyCode::Char('P') {
                        (
                            Some(AppState::Pushing { branch: w.branch.clone(), prev_state: prev }),
                            one_effect(
                                Effect::Push { path: w.path.clone(), branch: w.branch.clone() },
                            ),
                        )
                    } else {
                        (
                            Some(
                                AppState::Confirming {
                                    title: String::from_str(" REBASE "),
                                    message: rebase_message_exec(&w.branch),
                                    action: Box::new(Intent::Rebase { upstream: None }),
                                    prev_state: prev,
                                },
                            ),
                            Vec::new(),
                        )
                    }
                },
                None => (None, Vec::new()),
            }
        },
        KeyCode::Char('f') => match selected_exec(state) {
            Some(w) => (
                Some(
                    AppState::Fetching {
                        branch: w.branch.clone(),
                        prev_state: Box::new(copy_state(state)),
                    },
                ),
                one_effect(Effect::Fetch { path: w.path.clone(), branch: w.branch.clone() }),
            ),
            None => (None, Vec::new()),
        },
        _ => (None, Vec::new()),
    }
}

/// The listing after its filter query became `query`.
fn refilter_exec(state: &AppState, query: String, filtering: bool, mode: AppMode, now: u64) -> (r:
    AppState)
    requires
        state is ListingWorktrees,
    ensures
        refiltered(state@, query@, filtering, mode, now, r@),
{
    match state {
        AppState::ListingWorktrees { worktrees, selected, dashboard, .. } => {
            let filtered = filter_worktrees(worktrees, query.as_str());
            relist_exec(
                state,
                filtered,
                *selected,
                RefreshType::Dashboard,
                dashboard.copy(),
                query,
                filtering,
                mode,
                now,
            )
        },
        _ => copy_state(state),
    }
}

fn filter_key_exec(state: &AppState, k: KeyInput, now: u64) -> (r: Option<AppState>)
    requires
        state is ListingWorktrees,
    ensures
        filter_key(state@, k, now, opt_state(r)),
{
    let (query, mode) = match state {
        AppState::ListingWorktrees { filter_query, mode, .. } => (filter_query, *mode),
        _ => {
            return None;
        },
    };
    match k.code {
        KeyCode::Esc => Some(refilter_exec(state, String::new(), false, AppMode::Normal, now)),
        KeyCode::Enter => Some(refilter_exec(state, query.clone(), false, AppMode::Normal, now)),
        KeyCode::Char(c) => if c == 'u' && k.ctrl {
            Some(refilter_exec(state, String::new(), true, mode, now))
        } else {
            let mut cs = chars_of(query.as_str());
            cs.push(c);
            let q = string_of(cs.as_slice());
            Some(refilter_exec(state, q, true, mode, now))
        },
        KeyCode::Backspace => {
            let mut cs = chars_of(query.as_str());
            if cs.len() > 0 {
                cs.pop();
                let q = string_of(cs.as_slice());
                assert(q@ =~= query@.drop_last());
                Some(refilter_exec(state, q, true, mode, now))
            } else {
                None
            }
        },
        KeyCode::Down => Some(moved_exec(state, 1, now)),
        KeyCode::Up => Some(moved_exec(state, -1, now)),
        _ => None,
    }
}

fn mouse_exec(state: &AppState, m: MouseInput, width: u16, now: u64) -> (r: Option<AppState>)
    requires
        state is ListingWorktrees,
    ensures
        opt_state(r) == mouse_step(state@, m, width, now),
{
    let (flen, dashboard, query, filtering, mode) = match state {
        AppState::ListingWorktrees {
            filtered_worktrees,
            dashboard,
            filter_query,
            is_filtering,
            mode,
            ..
        } => (filtered_worktrees.len(), dashboard, filter_query, *is_filtering, *mode),
        _ => {
            return None;
        },
    };
    match m.kind {
        MouseKind::LeftDown => {
            let lw: u16 = if width >= 2 {
                ((width - 2) as u32 * 2 / 5) as u16
            } else {
                0
            };
            let x = m.column;
            let y = m.row;
            if x >= 1 && x <= 1 + lw && y >= 5 {
                if y < 32768 && ((y - 5) as usize) < flen {
                    let filtered = match state {
                        AppState::ListingWorktrees { filtered_worktrees, .. } => copy_worktrees(
                            filtered_worktrees,
                        ),
                        _ => Vec::new(),
                    };
                    Some(
                        relist_exec(
                            state,
                            filtered,
                            Some((y - 5) as usize),
                            RefreshType::Dashboard,
                            dashboard.copy(),
                            query.clone(),
                            filtering,
                            mode,
                            now,
                        ),
                    )
                } else {
                    None
                }
            } else if x > 1 + lw && y >= 4 {
                let dx = x - (1 + lw);
                if dx < 12 {
                    Some(on_tab_exec(state, DashboardTab::Info, now))
                } else if dx < 24 {
                    Some(on_tab_exec(state, DashboardTab::Status, now))
                } else if dx < 36 {
                    Some(on_tab_exec(state, DashboardTab::Log, now))
                } else {
                    None
                }
            } else {
                None
            }
        },
        MouseKind::ScrollDown => Some(moved_exec(state, 1, now)),
        MouseKind::ScrollUp => Some(moved_exec(state, -1, now)),
        _ => None,
    }
}

/// Handles an input event on the worktree list. `term_width` is the width
/// of the terminal; `now` the time in milliseconds. Returns the next state
/// (none when nothing changes) and the work to start.
pub fn handle_listing_events(event: &InputEvent, state: &AppState, term_width: u16, now: u64) -> (r: (
    Option<AppState>,
    Vec<Effect>,
))
    requires
        state is ListingWorktrees,
    ensures
        listing_step(state@, *event, term_width, now, opt_state(r.0), effects_view(r.1@)),
{
    let mode = match state {
        AppState::ListingWorktrees { mode, .. } => *mode,
        _ => AppMode::Normal,
    };
    match event {
        InputEvent::Key(k) => {
            if mode == AppMode::Filter {
                let out = filter_key_exec(state, *k, now);
                let e: Vec<Effect> = Vec::new();
                assert(effects_view(e@) =~= Seq::<EffectV>::empty());
                (out, e)
            } else if mode == AppMode::Normal {
                normal_key_exec(state, k.code, now)
            } else if mode == AppMode::Manage {
                manage_key_exec(state, k.code)
            } else {
                git_key_exec(state, k.code)
            }
        },
        InputEvent::Mouse(m) => {
            let e: Vec<Effect> = Vec::new();
            assert(effects_view(e@) =~= Seq::<EffectV>::empty());
            (mouse_exec(state, *m, term_width, now), e)
        },
        InputEvent::Other => {
            let e: Vec<Effect> = Vec::new();
            assert(effects_view(e@) =~= Seq::<EffectV>::empty());
            (None, e)
        },
    }
}

} // verus!
