//! Keys and mouse events on the status view of a worktree: moving through
//! the files, staging and unstaging, the diff preview and the stash list.
use vstd::prelude::*;
use crate::domain::{stashes_view, StashEntry};
use crate::events::{
    effects_view, no_work, normalize, normalized, one_effect, Effect, EffectV, InputEvent, KeyCode,
    KeyInput, MouseInput, MouseKind,
};
use crate::layout::{
    area_new, contains_cell, contains_cell_exec, inside, one, part_of, rect_new, split_area, two,
    Area,
    Extent,
};
use crate::listing::no_effects;
use crate::model::{copy_state, AppState, AppStateV, StatusViewState, StatusViewStateV};

verus! {

/// The status view `v` showing `st`.
pub open spec fn with_status(v: AppStateV, st: StatusViewStateV) -> AppStateV {
    match v {
        AppStateV::ViewingStatus { path, branch, prev_state, .. } => AppStateV::ViewingStatus {
            path,
            branch,
            status: st,
            prev_state,
        },
        _ => v,
    }
}

/// `st` with row `i` selected.
pub open spec fn select_row(st: StatusViewStateV, i: usize) -> StatusViewStateV {
    StatusViewStateV { selected_index: i, ..st }
}

/// The listing counts of a status view fit the machine's index range.
pub open spec fn status_fits(v: AppStateV) -> bool {
    let st = v->ViewingStatus_status;
    st.selected_index + st.total() <= usize::MAX
}

/// After a key that does not leave the view: the view shows `st`, unless
/// the diff preview is on for a selected file, which is then reloaded (in
/// front of the view as it was before the key).
pub open spec fn after_key(v: AppStateV, st: StatusViewStateV) -> (AppStateV, Seq<EffectV>) {
    if st.show_diff && st.selected_file() is Some {
        (
            AppStateV::LoadingDiff { prev_state: Box::new(v) },
            seq![EffectV::GetDiff { path: v->ViewingStatus_path }],
        )
    } else {
        (with_status(v, st), no_effects())
    }
}

/// The row after `i` in a list of `total` rows, wrapping.
pub open spec fn next_row(i: usize, total: int) -> usize {
    ((i + 1) % total) as usize
}

/// The row before `i` in a list of `total` rows, wrapping.
pub open spec fn prev_row(i: usize, total: int) -> usize {
    ((i + total - 1) % total) as usize
}

/// What a key does on the status view; none when the stash list must be
/// read first (see `stashes_read_step`).
pub open spec fn status_key(v: AppStateV, k: KeyInput) -> Option<(AppStateV, Seq<EffectV>)> {
    let st = v->ViewingStatus_status;
    let path = v->ViewingStatus_path;
    let branch = v->ViewingStatus_branch;
    let prev = Box::new(v);
    let i = st.selected_index;
    let total = st.total();
    let s = st.staged.len();
    let u = st.unstaged.len();
    match normalized(k.code) {
        KeyCode::Esc | KeyCode::Char('q') => Some((*v->ViewingStatus_prev_state, no_effects())),
        KeyCode::Down | KeyCode::Char('j') => Some(
            after_key(
                v,
                if total > 0 {
                    select_row(st, next_row(i, total))
                } else {
                    st
                },
            ),
        ),
        KeyCode::Up | KeyCode::Char('k') => Some(
            after_key(
                v,
                if total > 0 {
                    select_row(st, prev_row(i, total))
                } else {
                    st
                },
            ),
        ),
        KeyCode::Char(' ') => if i < s {
            Some(
                (
                    AppStateV::Unstaging { path, prev_state: prev },
                    seq![EffectV::UnstageFile { path, file: st.staged[i as int].0 }],
                ),
            )
        } else if i < s + u {
            Some(
                (
                    AppStateV::Staging { path, prev_state: prev },
                    seq![EffectV::StageFile { path, file: st.unstaged[i - s].0 }],
                ),
            )
        } else if i < total {
            Some(
                (
                    AppStateV::Staging { path, prev_state: prev },
                    seq![EffectV::StageFile { path, file: st.untracked[i - s - u] }],
                ),
            )
        } else {
            Some(after_key(v, st))
        },
        KeyCode::Char('c') => Some(
            (
                AppStateV::Committing { path, branch, selected_index: 0, prev_state: prev },
                no_effects(),
            ),
        ),
        KeyCode::Char('a') => Some(
            (AppStateV::Staging { path, prev_state: prev }, seq![EffectV::StageAll { path }]),
        ),
        KeyCode::Char('u') => Some(
            (AppStateV::Unstaging { path, prev_state: prev }, seq![EffectV::UnstageAll { path }]),
        ),
        KeyCode::Char('d') => Some(
            after_key(v, StatusViewStateV { show_diff: !st.show_diff, ..st }),
        ),
        KeyCode::Char('r') => Some(
            (
                AppStateV::LoadingStatus { path, branch, prev_state: prev },
                seq![EffectV::FetchStatus { path }],
            ),
        ),
        KeyCode::Char('s') => if k.shift {
            None
        } else {
            Some(after_key(v, st))
        },
        _ => Some(after_key(v, st)),
    }
}

/// After the stash list was read for a shifted `s`: the stash view on
/// success, else as for any other key.
pub open spec fn stashes_read_step(v: AppStateV, r: Result<Vec<StashEntry>, String>) -> (
    AppStateV,
    Seq<EffectV>,
) {
    match r {
        Ok(st) => (
            AppStateV::ViewingStashes {
                path: v->ViewingStatus_path,
                branch: v->ViewingStatus_branch,
                stashes: stashes_view(st@),
                selected_index: 0,
                prev_state: Box::new(v),
            },
            no_effects(),
        ),
        Err(_) => after_key(v, v->ViewingStatus_status),
    }
}

/// After the selection moved to `st` by the mouse: the diff preview, when
/// on, is reloaded in front of the view as it was.
pub open spec fn after_pointer(v: AppStateV, st: StatusViewStateV) -> (AppStateV, Seq<EffectV>) {
    if v->ViewingStatus_status.show_diff {
        (
            AppStateV::LoadingDiff { prev_state: Box::new(v) },
            seq![EffectV::GetDiff { path: v->ViewingStatus_path }],
        )
    } else {
        (with_status(v, st), no_effects())
    }
}

/// A click at (`col`, `row`) given the rectangles of the staged column and
/// of the unstaged/untracked column.
pub open spec fn status_click_step(
    v: AppStateV,
    col: u16,
    row: u16,
    staged: Area,
    unstaged: Area,
) -> (AppStateV, Seq<EffectV>) {
    let st = v->ViewingStatus_status;
    let s = st.staged.len();
    if contains_cell(staged, col, row) {
        let rel = row - staged.y;
        if rel < s {
            after_pointer(v, select_row(st, rel as usize))
        } else {
            (v, no_effects())
        }
    } else if contains_cell(unstaged, col, row) {
        let rel = row - unstaged.y;
        if rel < st.unstaged.len() + st.untracked.len() {
            after_pointer(v, select_row(st, (s + rel) as usize))
        } else {
            (v, no_effects())
        }
    } else {
        (v, no_effects())
    }
}

/// `n - 2`, or 0 below 2.
pub open spec fn less_two(n: u16) -> u16 {
    if n >= 2 {
        (n - 2) as u16
    } else {
        0
    }
}

/// `n + 1`, wrapping.
pub open spec fn plus_one(n: u16) -> u16 {
    if n == u16::MAX {
        0
    } else {
        (n + 1) as u16
    }
}

/// What a mouse event does on the status view; `cols` are the staged and
/// the unstaged file columns on screen, when the terminal's size could be
/// read.
pub open spec fn status_mouse(v: AppStateV, m: MouseInput, cols: Option<(Area, Area)>) -> (
    AppStateV,
    Seq<EffectV>,
) {
    let st = v->ViewingStatus_status;
    let total = st.total();
    match m.kind {
        MouseKind::LeftDown => match cols {
            Some((staged, unstaged)) => status_click_step(v, m.column, m.row, staged, unstaged),
            None => (v, no_effects()),
        },
        MouseKind::ScrollDown => if total > 0 {
            after_pointer(v, select_row(st, next_row(st.selected_index, total)))
        } else {
            (v, no_effects())
        },
        MouseKind::ScrollUp => if total > 0 {
            after_pointer(v, select_row(st, prev_row(st.selected_index, total)))
        } else {
            (v, no_effects())
        },
        _ => (v, no_effects()),
    }
}

/// What an input event does on the status view; none when the stash list
/// must be read first.
pub open spec fn status_step(v: AppStateV, ev: InputEvent, cols: Option<(Area, Area)>) -> Option<
    (AppStateV, Seq<EffectV>),
> {
    match ev {
        InputEvent::Key(k) => status_key(v, k),
        InputEvent::Mouse(m) => Some(status_mouse(v, m, cols)),
        InputEvent::Other => Some((v, no_effects())),
    }
}

/// The result of an input event on the status view.
#[derive(Debug)]
pub enum StatusOutcome {
    /// The next state and the work to start.
    Next(AppState, Vec<Effect>),
    /// The stash list of the worktree at `path` must be read; hand it to
    /// `status_stashes_read`.
    ReadStashes { path: String },
}

pub open spec fn outcome_view(o: StatusOutcome) -> Option<(AppStateV, Seq<EffectV>)> {
    match o {
        StatusOutcome::Next(s, e) => Some((s@, effects_view(e@))),
        StatusOutcome::ReadStashes { .. } => None,
    }
}

// ---------------------------------------------------------------------------
// Executable handlers
// ---------------------------------------------------------------------------

fn with_status_exec(state: &AppState, st: StatusViewState) -> (r: AppState)
    requires
        state is ViewingStatus,
    ensures
        r@ == with_status(state@, st@),
{
    match state {
        AppState::ViewingStatus { path, branch, prev_state, .. } => AppState::ViewingStatus {
            path: path.clone(),
            branch: branch.clone(),
            status: st,
            prev_state: Box::new(copy_state(&**prev_state)),
        },
        _ => copy_state(state),
    }
}

fn status_path(state: &AppState) -> (r: String)
    requires
        state is ViewingStatus,
    ensures
        r@ == state@->ViewingStatus_path,
{
    match state {
        AppState::ViewingStatus { path, .. } => path.clone(),
        _ => String::new(),
    }
}

fn after_key_exec(state: &AppState, st: StatusViewState) -> (r: (AppState, Vec<Effect>))
    requires
        state is ViewingStatus,
        st.staged@.len() + st.unstaged@.len() + st.untracked@.len() <= usize::MAX,
    ensures
        r.0@ == after_key(state@, st@).0,
        effects_view(r.1@) == after_key(state@, st@).1,
{
    if st.show_diff && st.selected_file().is_some() {
        (
            AppState::LoadingDiff { prev_state: Box::new(copy_state(state)) },
            one_effect(Effect::GetDiff { path: status_path(state) }),
        )
    } else {
        (with_status_exec(state, st), no_work())
    }
}

fn after_pointer_exec(state: &AppState, st: StatusViewState) -> (r: (AppState, Vec<Effect>))
    requires
        state is ViewingStatus,
    ensures
        r.0@ == after_pointer(state@, st@).0,
        effects_view(r.1@) == after_pointer(state@, st@).1,
{
    let show = match state {
        AppState::ViewingStatus { status, .. } => status.show_diff,
        _ => false,
    };
    if show {
        (
            AppState::LoadingDiff { prev_state: Box::new(copy_state(state)) },
            one_effect(Effect::GetDiff { path: status_path(state) }),
        )
    } else {
        (with_status_exec(state, st), no_work())
    }
}

fn unchanged(state: &AppState) -> (r: (AppState, Vec<Effect>))
    ensures
        r.0@ == state@,
        effects_view(r.1@) == no_effects(),
{
    (copy_state(state), no_work())
}

/// A click at (`col`, `row`) on the status view, given the rectangles of
/// its two file columns.
pub fn status_click(state: &AppState, col: u16, row: u16, staged: Area, unstaged: Area) -> (r: (
    AppState,
    Vec<Effect>,
))
    requires
        state is ViewingStatus,
        status_fits(state@),
    ensures
        r.0@ == status_click_step(state@, col, row, staged, unstaged).0,
        effects_view(r.1@) == status_click_step(state@, col, row, staged, unstaged).1,
{
    let status = match state {
        AppState::ViewingStatus { status, .. } => status,
        _ => {
            return unchanged(state);
        },
    };
    let s = status.staged.len();
    if contains_cell_exec(staged, col, row) {
        let rel = (row - staged.y) as usize;
        if rel < s {
            let mut st = status.copy();
            st.selected_index = rel;
            after_pointer_exec(state, st)
        } else {
            unchanged(state)
        }
    } else if contains_cell_exec(unstaged, col, row) {
        let rel = (row - unstaged.y) as usize;
        if rel < status.unstaged.len() + status.untracked.len() {
            let mut st = status.copy();
            st.selected_index = s + rel;
            after_pointer_exec(state, st)
        } else {
            unchanged(state)
        }
    } else {
        unchanged(state)
    }
}

/// The inside of a bordered area.
pub open spec fn bordered(s: Area) -> Area {
    rect_new(plus_one(s.x), plus_one(s.y), less_two(s.width), less_two(s.height))
}

/// Columns `r` are framed by the status area `s`: `s` lies on the screen
/// and both columns lie inside its border, side by side on the same rows.
pub open spec fn framed_columns(r: (Area, Area), s: Area, width: u16, height: u16) -> bool {
    &&& inside(s, rect_new(0, 0, width, height))
    &&& inside(r.0, bordered(s))
    &&& inside(r.1, bordered(s))
    &&& r.0.y == r.1.y
    &&& r.0.height == r.1.height
}

/// The two file columns of the status view on a `width` by `height`
/// terminal: the main area (the right 80%), its upper 60% when a diff is
/// shown, inside its border, below the three-row title, split in halves.
/// Both columns lie inside the border of a status area on the screen, on
/// the same rows, at least one cell in from the screen's top and left edges.
/// Which of the two lies further left, and where exactly, comes from the
/// layout solver and is not stated.
pub fn status_file_columns(width: u16, height: u16, show_diff: bool) -> (r: (Area, Area))
    ensures
        exists|s: Area| #[trigger] framed_columns(r, s, width, height),
        width < u16::MAX ==> r.0.x >= 1 && r.1.x >= 1,
        height < u16::MAX ==> r.0.y >= 1 && r.1.y >= 1,
{
    let body = split_area(
        false,
        &two(Extent::Percentage(20), Extent::Percentage(80)),
        area_new(0, 0, width, height),
    );
    let main_area = body[1];
    let status_area = if show_diff {
        let parts = split_area(true, &two(Extent::Percentage(60), Extent::Percentage(40)), main_area);
        parts[0]
    } else {
        let parts = split_area(true, &one(Extent::Percentage(100)), main_area);
        parts[0]
    };
    let x = if status_area.x == u16::MAX {
        0
    } else {
        status_area.x + 1
    };
    let y = if status_area.y == u16::MAX {
        0
    } else {
        status_area.y + 1
    };
    let w = if status_area.width >= 2 {
        status_area.width - 2
    } else {
        0
    };
    let h = if status_area.height >= 2 {
        status_area.height - 2
    } else {
        0
    };
    let inner = area_new(x, y, w, h);
    let rows = split_area(true, &two(Extent::Length(3), Extent::Min(0)), inner);
    let file_area = rows[1];
    let cols = split_area(false, &two(Extent::Percentage(50), Extent::Percentage(50)), file_area);
    let r = (cols[0], cols[1]);
    proof {
        assert(part_of(body@[1], rect_new(0, 0, width, height), false));
        assert(inner == bordered(status_area));
        assert(part_of(rows@[1], inner, true));
        assert(part_of(cols@[0], file_area, false));
        assert(part_of(cols@[1], file_area, false));
        assert(framed_columns(r, status_area, width, height));
    }
    r
}

fn status_key_exec(state: &AppState, k: KeyInput) -> (r: StatusOutcome)
    requires
        state is ViewingStatus,
        status_fits(state@),
    ensures
        outcome_view(r) == status_key(state@, k),
        r matches StatusOutcome::ReadStashes { path } ==> path@ == state@->ViewingStatus_path,
{
    let ghost v = state@;
    let (path, branch, status, prev_state) = match state {
        AppState::ViewingStatus { path, branch, status, prev_state } => (
            path,
            branch,
            status,
            prev_state,
        ),
        _ => {
            let (a, b) = unchanged(state);
            return StatusOutcome::Next(a, b);
        },
    };
    let total = status.total();
    let i = status.selected_index;
    let s = status.staged.len();
    let u = status.unstaged.len();
    let (a, b) = match normalize(k.code) {
        KeyCode::Esc | KeyCode::Char('q') => (copy_state(&**prev_state), no_work()),
        KeyCode::Down | KeyCode::Char('j') => {
            let mut st = status.copy();
            if total > 0 {
                st.selected_index = (i + 1) % total;
            }
            after_key_exec(state, st)
        },
        KeyCode::Up | KeyCode::Char('k') => {
            let mut st = status.copy();
            if total > 0 {
                st.selected_index = (i + total - 1) % total;
            }
            after_key_exec(state, st)
        },
        KeyCode::Char(' ') => {
            if i < s {
                proof {
                    assert(v->ViewingStatus_status.staged[i as int].0 == status.staged@[i as int].0@);
                }
                (
                    AppState::Unstaging {
                        path: path.clone(),
                        prev_state: Box::new(copy_state(state)),
                    },
                    one_effect(
                        Effect::UnstageFile { path: path.clone(), file: status.staged[i].0.clone() },
                    ),
                )
            } else if i < s + u {
                proof {
                    assert(v->ViewingStatus_status.unstaged[i - s].0 == status.unstaged@[i - s].0@);
                }
                (
                    AppState::Staging { path: path.clone(), prev_state: Box::new(copy_state(state)) },
                    one_effect(
                        Effect::StageFile {
                            path: path.clone(),
                            file: status.unstaged[i - s].0.clone(),
                        },
                    ),
                )
            } else if i < total {
                proof {
                    assert(v->ViewingStatus_status.untracked[i - s - u] == status.untracked@[i - s
                        - u]@);
                }
                (
                    AppState::Staging { path: path.clone(), prev_state: Box::new(copy_state(state)) },
                    one_effect(
                        Effect::StageFile {
                            path: path.clone(),
                            file: status.untracked[i - s - u].clone(),
                        },
                    ),
                )
            } else {
                after_key_exec(state, status.copy())
            }
        },
        KeyCode::Char('c') => (
            AppState::Committing {
                path: path.clone(),
                branch: branch.clone(),
                selected_index: 0,
                prev_state: Box::new(copy_state(state)),
            },
            no_work(),
        ),
        KeyCode::Char('a') => (
            AppState::Staging { path: path.clone(), prev_state: Box::new(copy_state(state)) },
            one_effect(Effect::StageAll { path: path.clone() }),
        ),
        KeyCode::Char('u') => (
            AppState::Unstaging { path: path.clone(), prev_state: Box::new(copy_state(state)) },
            one_effect(Effect::UnstageAll { path: path.clone() }),
        ),
        KeyCode::Char('d') => {
            let mut st = status.copy();
            st.show_diff = !st.show_diff;
            after_key_exec(state, st)
        },
        KeyCode::Char('r') => (
            AppState::LoadingStatus {
                path: path.clone(),
                branch: branch.clone(),
                prev_state: Box::new(copy_state(state)),
            },
            one_effect(Effect::FetchStatus { path: path.clone() }),
        ),
        KeyCode::Char('s') => {
            if k.shift {
                return StatusOutcome::ReadStashes { path: path.clone() };
            }
            after_key_exec(state, status.copy())
        },
        _ => after_key_exec(state, status.copy()),
    };
    StatusOutcome::Next(a, b)
}

fn status_mouse_exec(state: &AppState, m: MouseInput, cols: Option<(Area, Area)>) -> (r: (
    AppState,
    Vec<Effect>,
))
    requires
        state is ViewingStatus,
        status_fits(state@),
    ensures
        r.0@ == status_mouse(state@, m, cols).0,
        effects_view(r.1@) == status_mouse(state@, m, cols).1,
{
    let status = match state {
        AppState::ViewingStatus { status, .. } => status,
        _ => {
            return unchanged(state);
        },
    };
    let total = status.total();
    match m.kind {
        MouseKind::LeftDown => match cols {
            Some((staged, unstaged)) => status_click(state, m.column, m.row, staged, unstaged),
            None => unchanged(state),
        },
        MouseKind::ScrollDown => if total > 0 {
            let mut st = status.copy();
            st.selected_index = (status.selected_index + 1) % total;
            after_pointer_exec(state, st)
        } else {
            unchanged(state)
        },
        MouseKind::ScrollUp => if total > 0 {
            let mut st = status.copy();
            st.selected_index = (status.selected_index + total - 1) % total;
            after_pointer_exec(state, st)
        } else {
            unchanged(state)
        },
        _ => unchanged(state),
    }
}

/// Handles an input event on the status view. `cols` are the staged and
/// unstaged file columns on screen (for mouse clicks), when the terminal's
/// size could be read.
pub fn handle_status_events(event: &InputEvent, state: &AppState, cols: Option<(Area, Area)>) -> (r:
    StatusOutcome)
    requires
        state is ViewingStatus,
        status_fits(state@),
    ensures
        outcome_view(r) == status_step(state@, *event, cols),
        r matches StatusOutcome::ReadStashes { path } ==> path@ == state@->ViewingStatus_path,
{
    match event {
        InputEvent::Key(k) => status_key_exec(state, *k),
        InputEvent::Mouse(m) => {
            let (a, b) = status_mouse_exec(state, *m, cols);
            StatusOutcome::Next(a, b)
        },
        InputEvent::Other => {
            let (a, b) = unchanged(state);
            StatusOutcome::Next(a, b)
        },
    }
}

/// Continues a shifted `s` on the status view once the stash list of the
/// worktree was read.
pub fn status_stashes_read(state: &AppState, stashes: Result<Vec<StashEntry>, String>) -> (r: (
    AppState,
    Vec<Effect>,
))
    requires
        state is ViewingStatus,
        status_fits(state@),
    ensures
        r.0@ == stashes_read_step(state@, stashes).0,
        effects_view(r.1@) == stashes_read_step(state@, stashes).1,
{
    match state {
        AppState::ViewingStatus { path, branch, status, .. } => match stashes {
            Ok(list) => (
                AppState::ViewingStashes {
                    path: path.clone(),
                    branch: branch.clone(),
                    stashes: list,
                    selected_index: 0,
                    prev_state: Box::new(copy_state(state)),
                },
                no_work(),
            ),
            Err(_) => after_key_exec(state, status.copy()),
        },
        _ => unchanged(state),
    }
}

} // verus!
