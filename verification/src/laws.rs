//! Properties of the library that span several functions or hold of every
//! input, proved over the specifications of the functions they speak of.
use vstd::prelude::*;
use crate::domain::{GitCommitView, GitStatusView, WorktreeView};
use crate::events::{EffectV, KeyCode, KeyInput};
use crate::git_repo::{fresh_remote_branches, local_branches};
use crate::handlers::{ahead, commit_ahead, is_commit, next_commit};
use crate::listing::{filter_key, moved};
use crate::model::{moved_selection, AppMode, AppStateV, RefreshType};
use crate::reducer::{
    best_match, first_current, first_in_tier, matches_tier, sync_covers, sync_selection,
    teleport_plan_of,
};
use crate::run_loop::{is_waiting, refreshed, result_step, tick_step};
use crate::events::AsyncResult;
use crate::model::AppState;
use crate::status_view::{next_row, prev_row};
use crate::warp::{grid_columns, grid_rows};
use crate::widgets::{max_listed, staged_section, unstaged_section};
use crate::git_repo::{
    apply_worktree_line, stale_names, status_of, AdminEntry, GitdirState,
};
use crate::text::{byte_len, chars_in_bytes, contains, lemma_byte_len_nonneg, unicode_lowercase};

verus! {

/// Moving the selection down one row and then up one row comes back to
/// the row it started on (and the other way round).
pub proof fn law_down_then_up(i: usize, n: usize)
    requires
        i < n,
    ensures
        moved_selection(moved_selection(Some(i), n, 1), n, -1) == Some(i),
        moved_selection(moved_selection(Some(i), n, -1), n, 1) == Some(i),
{
}

/// In a list with rows, moving the selection always lands on a row.
pub proof fn law_moves_land_on_rows(sel: Option<usize>, n: usize, delta: int)
    requires
        n > 0,
        -1 <= delta <= 1,
    ensures
        moved_selection(sel, n, delta) matches Some(j) && j < n,
{
}

/// Escape while typing a filter clears the query, leaves filter mode and
/// shows every worktree again.
pub proof fn law_escape_clears_filter(v: AppStateV, k: KeyInput, now: u64, out: Option<AppStateV>)
    requires
        v is ListingWorktrees,
        k.code == KeyCode::Esc,
        filter_key(v, k, now, out),
    ensures
        out matches Some(t) && t is ListingWorktrees && t->ListingWorktrees_filter_query.len() == 0
            && t->ListingWorktrees_mode == AppMode::Normal && !t->ListingWorktrees_is_filtering
            && t->ListingWorktrees_filtered_worktrees == v->ListingWorktrees_worktrees,
{
}

/// Ctrl+U while typing a filter clears the query but keeps filtering, and
/// shows every worktree again.
pub proof fn law_ctrl_u_clears_query(v: AppStateV, k: KeyInput, now: u64, out: Option<AppStateV>)
    requires
        v is ListingWorktrees,
        k.code == KeyCode::Char('u'),
        k.ctrl,
        filter_key(v, k, now, out),
    ensures
        out matches Some(t) && t is ListingWorktrees && t->ListingWorktrees_filter_query.len() == 0
            && t->ListingWorktrees_mode == v->ListingWorktrees_mode
            && t->ListingWorktrees_is_filtering
            && t->ListingWorktrees_filtered_worktrees == v->ListingWorktrees_worktrees,
{
}

/// Moving through a non-empty worktree list keeps the selection on one of
/// its rows and asks the dashboard to reload.
pub proof fn law_listing_moves_stay_on_rows(v: AppStateV, delta: int, now: u64)
    requires
        v is ListingWorktrees,
        v->ListingWorktrees_filtered_worktrees.len() > 0,
        v->ListingWorktrees_filtered_worktrees.len() <= usize::MAX,
        -1 <= delta <= 1,
    ensures
        ({
            let t = moved(v, delta, now);
            &&& t is ListingWorktrees
            &&& t->ListingWorktrees_selected matches Some(j) && j
                < v->ListingWorktrees_filtered_worktrees.len()
            &&& t->ListingWorktrees_refresh_needed == RefreshType::Dashboard
        }),
{
}

proof fn lemma_commit_ahead(c: Seq<GitCommitView>, i: int, d: int)
    requires
        0 <= i < c.len(),
        1 <= d,
    ensures
        ({
            let r = commit_ahead(c, i, d);
            &&& 1 <= r <= c.len()
            &&& (d <= c.len() ==> d <= r)
            &&& (r < c.len() ==> is_commit(c, ahead(i, r, c.len() as int)))
            &&& forall|e: int| d <= e < r ==> !is_commit(c, #[trigger] ahead(i, e, c.len() as int))
        }),
    decreases c.len() - d,
{
    if d < c.len() && !is_commit(c, ahead(i, d, c.len() as int)) {
        lemma_commit_ahead(c, i, d + 1);
    }
}

/// Moving down in the commit history skips graph-only lines: it lands on
/// a real commit, or stays where it was when there is none, and every line
/// passed over is graph-only.
pub proof fn law_history_skips_graph_lines(c: Seq<GitCommitView>, i: int)
    requires
        0 <= i < c.len(),
    ensures
        ({
            let n = c.len() as int;
            let d = commit_ahead(c, i, 1);
            let j = next_commit(c, i);
            &&& 0 <= j < n
            &&& j == i || is_commit(c, j)
            &&& forall|e: int| 1 <= e < d ==> !is_commit(c, #[trigger] ahead(i, e, n))
        }),
{
    lemma_commit_ahead(c, i, 1);
}

proof fn lemma_first_in_tier(ws: Seq<WorktreeView>, needle: Seq<char>, tier: int, i: int)
    requires
        0 <= i,
    ensures
        first_in_tier(ws, needle, tier, i) matches Some(j) ==> i <= j < ws.len() && matches_tier(
            ws[j],
            needle,
            tier,
        ),
    decreases ws.len() - i,
{
    if i < ws.len() && !matches_tier(ws[i], needle, tier) {
        lemma_first_in_tier(ws, needle, tier, i + 1);
    }
}

/// What `switch` and `teleport` find is a checkout of the list, never the
/// bare hub.
pub proof fn law_match_is_checkout(ws: Seq<WorktreeView>, name: Seq<char>)
    ensures
        best_match(ws, name) matches Some(i) ==> 0 <= i < ws.len() && !ws[i].is_bare,
{
    let needle = crate::text::unicode_lowercase(name);
    lemma_first_in_tier(ws, needle, 1, 0);
    lemma_first_in_tier(ws, needle, 2, 0);
    lemma_first_in_tier(ws, needle, 3, 0);
    lemma_first_in_tier(ws, needle, 4, 0);
}

proof fn lemma_first_current(ws: Seq<WorktreeView>, here: Seq<bool>, i: int)
    requires
        0 <= i,
    ensures
        first_current(ws, here, i) matches Some(j) ==> i <= j < ws.len() && !ws[j].is_bare,
    decreases ws.len() - i,
{
    if i < ws.len() && !(!ws[i].is_bare && i < here.len() && here[i]) {
        lemma_first_current(ws, here, i + 1);
    }
}

/// A teleport that goes ahead moves changes between two different
/// checkouts of the list.
pub proof fn law_teleport_between_checkouts(ws: Seq<WorktreeView>, here: Seq<bool>, target: Seq<char>)
    ensures
        teleport_plan_of(ws, here, target) matches Ok((s, t)) ==> {
            &&& 0 <= s < ws.len() && 0 <= t < ws.len()
            &&& !ws[s].is_bare && !ws[t].is_bare
            &&& ws[s].path != ws[t].path
        },
{
    lemma_first_current(ws, here, 0);
    law_match_is_checkout(ws, target);
}

/// A configuration sync acts only on worktrees it covers (checkouts, when
/// no name is given), in their order, each at most once.
pub proof fn law_sync_covers_targets(ws: Seq<WorktreeView>, name: Option<Seq<char>>)
    ensures
        sync_selection(ws, name).len() <= ws.len(),
        forall|k: int|
            0 <= k < sync_selection(ws, name).len() ==> sync_covers(
                #[trigger] sync_selection(ws, name)[k],
                name,
            ),
    decreases ws.len(),
{
    if ws.len() > 0 {
        law_sync_covers_targets(ws.drop_last(), name);
    }
}

/// The launch configuration's grid has room for every pane, and no row
/// of it is empty.
pub proof fn law_grid_holds_panes(count: int)
    requires
        count > 0,
    ensures
        grid_rows(count) * grid_columns(count) >= count,
        (grid_rows(count) - 1) * grid_columns(count) < count,
{
    let c = grid_columns(count);
    if c == 2 {
        assert(count == 2 * (count / 2) + count % 2);
        assert((count / 2 + (if count % 2 != 0 {
            1int
        } else {
            0
        })) * 2 >= count);
    } else {
        assert(count / 1 == count);
        assert(count % 1 == 0);
    }
}

/// The status tab lists at most fifteen files in each section: the staged
/// section has a header, at most fifteen files, a count of the rest and a
/// blank line; the unstaged one a header, files and a count.
pub proof fn law_status_sections_bounded(s: GitStatusView)
    ensures
        staged_section(s).len() <= max_listed() + 3,
        unstaged_section(s).len() <= max_listed() + 2,
{
}

/// Moving through the status view's files stays on a file.
pub proof fn law_status_rows_wrap(i: usize, total: int)
    requires
        0 < total <= usize::MAX,
    ensures
        next_row(i, total) < total,
        prev_row(i, total) < total,
{
    assert(0 <= (i + 1) % total < total);
    assert(0 <= (i + total - 1) % total < total);
}

proof fn lemma_fresh_remote(ls: Seq<Seq<char>>, seen: Set<Seq<char>>)
    ensures
        forall|k: int|
            0 <= k < fresh_remote_branches(ls, seen).len() ==> !seen.contains(
                #[trigger] fresh_remote_branches(ls, seen)[k],
            ),
        forall|a: int, b: int|
            0 <= a < b < fresh_remote_branches(ls, seen).len() ==> fresh_remote_branches(
                ls,
                seen,
            )[a] != fresh_remote_branches(ls, seen)[b],
    decreases ls.len(),
{
    if ls.len() > 0 {
        let t = crate::text::trim(ls[0]);
        let name = t.skip(7);
        let rest = ls.drop_first();
        if !crate::git_repo::ignored_branch_line(t) && crate::text::starts_with(
            t,
            crate::git_repo::remote_prefix(),
        ) && !seen.contains(name) {
            lemma_fresh_remote(rest, seen.insert(name));
            let f = fresh_remote_branches(ls, seen);
            let g = fresh_remote_branches(rest, seen.insert(name));
            assert(f == seq![name] + g);
            assert forall|k: int| 0 <= k < f.len() implies !seen.contains(#[trigger] f[k]) by {
                if k > 0 {
                    assert(f[k] == g[k - 1]);
                }
            }
            assert forall|a: int, b: int| 0 <= a < b < f.len() implies f[a] != f[b] by {
                assert(f[b] == g[b - 1]);
                if a > 0 {
                    assert(f[a] == g[a - 1]);
                } else {
                    assert(!seen.insert(name).contains(g[b - 1]));
                }
            }
        } else {
            lemma_fresh_remote(rest, seen);
            assert(fresh_remote_branches(ls, seen) == fresh_remote_branches(rest, seen));
        }
    }
}

/// A remote branch is listed only when no local branch has its name, and
/// at most once.
pub proof fn law_remote_branches_fresh(ls: Seq<Seq<char>>)
    ensures
        ({
            let locals = local_branches(ls);
            let remotes = fresh_remote_branches(ls, locals.to_set());
            &&& forall|k: int| 0 <= k < remotes.len() ==> !locals.contains(#[trigger] remotes[k])
            &&& forall|a: int, b: int| 0 <= a < b < remotes.len() ==> remotes[a] != remotes[b]
        }),
{
    let locals = local_branches(ls);
    lemma_fresh_remote(ls, locals.to_set());
    let remotes = fresh_remote_branches(ls, locals.to_set());
    assert forall|k: int| 0 <= k < remotes.len() implies !locals.contains(#[trigger] remotes[k]) by {
        if locals.contains(remotes[k]) {
            assert(locals.to_set().contains(remotes[k]));
        }
    }
}

/// A background result that the state is not waiting for changes nothing
/// and starts no work.
pub proof fn law_unawaited_results_ignored(
    s: AppState,
    r: AsyncResult,
    now: u64,
    t: AppStateV,
    effs: Seq<EffectV>,
)
    requires
        !(s@ is ListingWorktrees),
        !is_waiting(s@),
        !(s@ is Fetching || s@ is Pulling || s@ is Pushing || s@ is Syncing || s@ is StashAction
            || s@ is LoadingStashes),
        result_step(s, r, now, t, effs),
    ensures
        t == s@,
        effs.len() == 0,
{
}

/// When a timed notice over the worktree list runs out, the list comes
/// back and its worktrees are fetched again.
pub proof fn law_expired_notice_reloads_list(v: AppStateV, now: u64)
    requires
        v matches AppStateV::Timed { target_state, start_time, duration, .. }
            && *target_state is ListingWorktrees && now >= start_time && now - start_time
            >= duration,
    ensures
        tick_step(v, now).0 is ListingWorktrees,
        tick_step(v, now).1.len() >= 1,
        tick_step(v, now).1[0] == EffectV::ListWorktrees,
{
}


// ---------------------------------------------------------------------------
// Worktree listings
// ---------------------------------------------------------------------------

/// The keyword that opens a worktree's block: "worktree ".
pub open spec fn worktree_keyword() -> Seq<char> {
    seq!['w', 'o', 'r', 'k', 't', 'r', 'e', 'e', ' ']
}

/// A line "worktree <path>" sets the worktree's path to exactly `<path>`
/// and changes nothing else.
pub proof fn law_worktree_line_sets_path(w: WorktreeView, p: Seq<char>)
    ensures
        apply_worktree_line(w, worktree_keyword() + p) == (WorktreeView { path: p, ..w }),
{
    let l = worktree_keyword() + p;
    assert(l.take(9) =~= worktree_keyword());
    assert(l.skip(9) =~= p);
}

/// A line "HEAD <hash>" sets the commit to the hash's first seven
/// characters (all of it when shorter), and changes nothing else.
pub proof fn law_head_line_sets_commit(w: WorktreeView, h: Seq<char>)
    ensures
        apply_worktree_line(w, seq!['H', 'E', 'A', 'D', ' '] + h) == (WorktreeView {
            commit: if h.len() < 7 {
                h
            } else {
                h.take(7)
            },
            ..w
        }),
{
    let l = seq!['H', 'E', 'A', 'D', ' '] + h;
    assert(l.take(9) != worktree_keyword() || l.len() < 9) by {
        if l.len() >= 9 {
            assert(l.take(9)[0] == 'H');
        }
    }
    assert(l.subrange(0, 5) =~= seq!['H', 'E', 'A', 'D', ' ']);
    assert(l.skip(5) =~= h);
}

/// A line "branch refs/heads/<name>" sets the branch to `<name>` (when the
/// name does not itself start with "refs/heads/"), and changes nothing else.
pub proof fn law_branch_line_sets_branch(w: WorktreeView, b: Seq<char>)
    requires
        !(b.len() >= 11 && b.take(11) == seq!['r', 'e', 'f', 's', '/', 'h', 'e', 'a', 'd', 's', '/']),
    ensures
        apply_worktree_line(
            w,
            seq!['b', 'r', 'a', 'n', 'c', 'h', ' '] + seq![
                'r',
                'e',
                'f',
                's',
                '/',
                'h',
                'e',
                'a',
                'd',
                's',
                '/',
            ] + b,
        ) == (WorktreeView { branch: b, ..w }),
{
    let rh = seq!['r', 'e', 'f', 's', '/', 'h', 'e', 'a', 'd', 's', '/'];
    let l = seq!['b', 'r', 'a', 'n', 'c', 'h', ' '] + rh + b;
    if l.len() >= 9 {
        assert(l.take(9)[0] == 'b');
        assert(l.take(9) != worktree_keyword());
    }
    assert(l.take(5)[0] == 'b');
    assert(l.subrange(0, 7) =~= seq!['b', 'r', 'a', 'n', 'c', 'h', ' ']);
    let rest = l.skip(7);
    assert(rest =~= rh + b);
    assert(rest.subrange(0, 11) =~= rh);
    assert(rest.skip(11) =~= b);
    if b.len() >= 11 {
        assert(b.subrange(0, 11) == b.take(11));
    }
    assert(crate::git_repo::strip_all_prefix(b, rh) == b);
}

/// A line that does not start with "worktree " leaves the path as it was.
pub proof fn law_other_lines_keep_path(w: WorktreeView, l: Seq<char>)
    requires
        !(l.len() >= 9 && l.take(9) == worktree_keyword()),
    ensures
        apply_worktree_line(w, l).path == w.path,
{
    if l.len() >= 9 {
        assert(l.subrange(0, 9) == l.take(9));
    }
}

// ---------------------------------------------------------------------------
// Stale worktree entries
// ---------------------------------------------------------------------------

/// Whether an administrative entry under `.bare/worktrees` is stale: its
/// `gitdir` file is missing or unreadable, or it points at a directory that
/// is gone or that git does not list as a worktree.
pub open spec fn is_stale_entry(e: AdminEntry, valid: Seq<Seq<char>>) -> bool {
    match e.gitdir {
        GitdirState::Missing => true,
        GitdirState::Unreadable => true,
        GitdirState::Points { target, target_exists } => !target_exists || !valid.contains(target@),
    }
}

proof fn lemma_stale_prefix(es: Seq<AdminEntry>, valid: Seq<Seq<char>>, j: int)
    requires
        0 <= j <= es.len(),
    ensures
        stale_names(es.take(j), valid).len() <= stale_names(es, valid).len(),
        forall|m: int|
            0 <= m < stale_names(es.take(j), valid).len() ==> #[trigger] stale_names(
                es.take(j),
                valid,
            )[m] == stale_names(es, valid)[m],
    decreases es.len(),
{
    if j == es.len() {
        assert(es.take(j) =~= es);
    } else {
        let d = es.drop_last();
        assert(es.take(j) =~= d.take(j));
        lemma_stale_prefix(d, valid, j);
    }
}

/// Some entry named `name` is stale.
pub open spec fn named_stale_entry(es: Seq<AdminEntry>, valid: Seq<Seq<char>>, name: Seq<char>) -> bool {
    exists|i: int| 0 <= i < es.len() && es[i].name@ == name && is_stale_entry(#[trigger] es[i], valid)
}

proof fn lemma_stale_from(es: Seq<AdminEntry>, valid: Seq<Seq<char>>, m: int)
    requires
        0 <= m < stale_names(es, valid).len(),
    ensures
        named_stale_entry(es, valid, stale_names(es, valid)[m]),
    decreases es.len(),
{
    let d = es.drop_last();
    if m < stale_names(d, valid).len() {
        lemma_stale_from(d, valid, m);
        let i = choose|i: int|
            0 <= i < d.len() && d[i].name@ == stale_names(d, valid)[m] && is_stale_entry(
                #[trigger] d[i],
                valid,
            );
        assert(es[i] == d[i]);
    } else {
        let i = es.len() - 1;
        assert(es[i].name@ == stale_names(es, valid)[m]);
        assert(is_stale_entry(es[i], valid));
    }
}

/// Clean finds exactly the stale entries: every entry whose `gitdir` is
/// missing or unreadable, or whose worktree directory is gone, or that git
/// no longer lists, is among the names found; and every name found is that
/// of such an entry.
pub proof fn law_stale_entries_found(es: Seq<AdminEntry>, valid: Seq<Seq<char>>)
    ensures
        forall|k: int|
            0 <= k < es.len() && is_stale_entry(#[trigger] es[k], valid) ==> stale_names(
                es,
                valid,
            ).contains(es[k].name@),
        forall|m: int|
            0 <= m < stale_names(es, valid).len() ==> named_stale_entry(
                es,
                valid,
                #[trigger] stale_names(es, valid)[m],
            ),
{
    assert forall|k: int|
        0 <= k < es.len() && is_stale_entry(#[trigger] es[k], valid) implies stale_names(
        es,
        valid,
    ).contains(es[k].name@) by {
        let t = es.take(k + 1);
        assert(t.drop_last() =~= es.take(k));
        assert(t.last() == es[k]);
        let sn = stale_names(t, valid);
        let at = sn.len() - 1;
        lemma_stale_prefix(es, valid, k + 1);
        assert(sn[at] == es[k].name@);
        assert(stale_names(es, valid)[at] == sn[at]);
    }
    assert forall|m: int| 0 <= m < stale_names(es, valid).len() implies named_stale_entry(
        es,
        valid,
        #[trigger] stale_names(es, valid)[m],
    ) by {
        lemma_stale_from(es, valid, m);
    }
}


// ---------------------------------------------------------------------------
// Porcelain status
// ---------------------------------------------------------------------------

/// A porcelain line "XY path": two status columns, a space, the path.
pub open spec fn porcelain_line(l: Seq<char>, x: char, y: char) -> bool {
    l.len() >= 4 && l[0] == x && l[1] == y && l[2] == ' '
}

proof fn lemma_porcelain_slices(l: Seq<char>)
    requires
        l.len() >= 4,
        (l[0] as u32) < 0x80,
        (l[1] as u32) < 0x80,
        l[2] == ' ',
    ensures
        byte_len(l) >= 4,
        chars_in_bytes(l, 2) == 2,
        chars_in_bytes(l, 3) == 3,
{
    let l1 = l.drop_first();
    let l2 = l1.drop_first();
    let l3 = l2.drop_first();
    assert(l1[0] == l[1]);
    assert(l2[0] == l[2]);
    assert(l3.len() >= 1);
    lemma_byte_len_nonneg(l3.drop_first());
    assert(byte_len(l3) == crate::text::utf8_width(l3[0]) + byte_len(l3.drop_first()));
    assert(byte_len(l2) == 1 + byte_len(l3));
    assert(byte_len(l1) == 1 + byte_len(l2));
    assert(byte_len(l) == 1 + byte_len(l1));
    assert(chars_in_bytes(l2, 1) == 1) by {
        assert(chars_in_bytes(l3, 0) == 0);
    }
    assert(chars_in_bytes(l1, 1) == 1) by {
        assert(chars_in_bytes(l2, 0) == 0);
    }
    assert(chars_in_bytes(l1, 2) == 2);
    assert(chars_in_bytes(l, 2) == 2);
    assert(chars_in_bytes(l, 3) == 3);
}

proof fn lemma_status_prefix(ls: Seq<Seq<char>>, j: int)
    requires
        0 <= j <= ls.len(),
    ensures
        ({
            let a = status_of(ls.take(j));
            let b = status_of(ls);
            &&& a.staged.len() <= b.staged.len()
            &&& (forall|m: int| 0 <= m < a.staged.len() ==> #[trigger] a.staged[m] == b.staged[m])
            &&& a.unstaged.len() <= b.unstaged.len()
            &&& (forall|m: int| 0 <= m < a.unstaged.len() ==> #[trigger] a.unstaged[m] == b.unstaged[m])
            &&& a.untracked.len() <= b.untracked.len()
            &&& (forall|m: int| 0 <= m < a.untracked.len() ==> #[trigger] a.untracked[m] == b.untracked[m])
        }),
    decreases ls.len(),
{
    if j == ls.len() {
        assert(ls.take(j) =~= ls);
    } else {
        let d = ls.drop_last();
        assert(ls.take(j) =~= d.take(j));
        lemma_status_prefix(d, j);
    }
}

/// A line whose status columns are "M ", "A ", "D ", "R " or "C " (a change
/// staged in the index) lists its path with that code among the staged
/// files; a line "?? path" lists the path among the untracked files; and a
/// line " M path" or " D path" (a change not staged) lists it among the
/// unstaged files.
pub proof fn law_porcelain_lines_are_listed(ls: Seq<Seq<char>>, k: int)
    requires
        0 <= k < ls.len(),
    ensures
        ({
            let l = ls[k];
            let x = l[0];
            (x == 'M' || x == 'A' || x == 'D' || x == 'R' || x == 'C') && porcelain_line(l, x, ' ')
                ==> status_of(ls).staged.contains((l.skip(3), seq![x, ' ']))
        }),
        porcelain_line(ls[k], '?', '?') ==> status_of(ls).untracked.contains(ls[k].skip(3)),
        ({
            let l = ls[k];
            let y = l[1];
            (y == 'M' || y == 'D') && porcelain_line(l, ' ', y) ==> status_of(ls).unstaged.contains(
                (l.skip(3), seq![' ', y]),
            )
        }),
{
    let l = ls[k];
    let t = ls.take(k + 1);
    assert(t.drop_last() =~= ls.take(k));
    assert(t.last() == l);
    lemma_status_prefix(ls, k + 1);
    let a = status_of(t);
    let b = status_of(ls);
    if l.len() >= 4 && l[2] == ' ' && (l[0] as u32) < 0x80 && (l[1] as u32) < 0x80 {
        lemma_porcelain_slices(l);
        let c = l.take(2);
        assert(c =~= seq![l[0], l[1]]);
        assert(crate::git_repo::status_code(l) == c);
        assert(crate::git_repo::status_path(l) == l.skip(3));
        if (l[0] == 'M' || l[0] == 'A' || l[0] == 'D' || l[0] == 'R' || l[0] == 'C') && l[1] == ' ' {
            let m = a.staged.len() - 1;
            assert(a.staged[m] == (l.skip(3), seq![l[0], ' ']));
            assert(b.staged[m] == a.staged[m]);
        }
        if l[0] == '?' && l[1] == '?' {
            let m = a.untracked.len() - 1;
            assert(a.untracked[m] == l.skip(3));
            assert(b.untracked[m] == a.untracked[m]);
        }
        if l[0] == ' ' && (l[1] == 'M' || l[1] == 'D') {
            let m = a.unstaged.len() - 1;
            assert(a.unstaged[m] == (l.skip(3), seq![' ', l[1]]));
            assert(b.unstaged[m] == a.unstaged[m]);
        }
    }
}


// ---------------------------------------------------------------------------
// Finding a worktree by name
// ---------------------------------------------------------------------------

/// Checkout `w`'s branch is `n` (lower-cased).
pub open spec fn branch_is(w: WorktreeView, n: Seq<char>) -> bool {
    !w.is_bare && unicode_lowercase(w.branch) == n
}

/// Checkout `w`'s directory name is `n` (lower-cased).
pub open spec fn directory_is(w: WorktreeView, n: Seq<char>) -> bool {
    !w.is_bare && match crate::git_repo::path_file_name(w.path) {
        Some(d) => unicode_lowercase(d) == n,
        None => false,
    }
}

/// Checkout `w`'s branch contains `n` (lower-cased).
pub open spec fn branch_has(w: WorktreeView, n: Seq<char>) -> bool {
    !w.is_bare && contains(unicode_lowercase(w.branch), n)
}

/// Checkout `w`'s path contains `n` (lower-cased).
pub open spec fn path_has(w: WorktreeView, n: Seq<char>) -> bool {
    !w.is_bare && contains(unicode_lowercase(w.path), n)
}

/// `p` holds of `ws[j]` and of no earlier worktree.
pub open spec fn first_with(ws: Seq<WorktreeView>, p: spec_fn(WorktreeView) -> bool, j: int) -> bool {
    0 <= j < ws.len() && p(ws[j]) && forall|k: int| 0 <= k < j ==> !p(#[trigger] ws[k])
}

/// `p` holds of no worktree.
pub open spec fn none_with(ws: Seq<WorktreeView>, p: spec_fn(WorktreeView) -> bool) -> bool {
    forall|k: int| 0 <= k < ws.len() ==> !p(#[trigger] ws[k])
}

proof fn lemma_tier_is(ws: Seq<WorktreeView>, n: Seq<char>, t: int, p: spec_fn(WorktreeView) -> bool, i: int, j: int)
    requires
        0 <= i <= j <= ws.len(),
        forall|w: WorktreeView| #[trigger] matches_tier(w, n, t) == p(w),
        forall|k: int| i <= k < j ==> !p(#[trigger] ws[k]),
        j < ws.len() ==> p(ws[j]),
    ensures
        j < ws.len() ==> first_in_tier(ws, n, t, i) == Some(j),
        j == ws.len() ==> first_in_tier(ws, n, t, i) is None,
    decreases j - i,
{
    if i < j {
        assert(!p(ws[i]));
        assert(!matches_tier(ws[i], n, t));
        lemma_tier_is(ws, n, t, p, i + 1, j);
    } else if j < ws.len() {
        assert(matches_tier(ws[j], n, t));
    }
}

/// `switch` and `teleport` find a worktree by name (compared lower-cased,
/// never the hub) in this order of preference: the first checkout whose
/// branch is the name; else the first whose directory name is the name,
/// whatever branches merely contain it; else the first whose branch
/// contains the name; else the first whose path contains it; else none.
pub proof fn law_switch_preference(ws: Seq<WorktreeView>, name: Seq<char>, j: int)
    ensures
        ({
            let n = unicode_lowercase(name);
            let b = |w: WorktreeView| branch_is(w, n);
            let d = |w: WorktreeView| directory_is(w, n);
            let bc = |w: WorktreeView| branch_has(w, n);
            let pc = |w: WorktreeView| path_has(w, n);
            &&& first_with(ws, b, j) ==> best_match(ws, name) == Some(j)
            &&& none_with(ws, b) && first_with(ws, d, j) ==> best_match(ws, name) == Some(j)
            &&& none_with(ws, b) && none_with(ws, d) && first_with(ws, bc, j) ==> best_match(ws, name)
                == Some(j)
            &&& none_with(ws, b) && none_with(ws, d) && none_with(ws, bc) && first_with(ws, pc, j)
                ==> best_match(ws, name) == Some(j)
            &&& none_with(ws, b) && none_with(ws, d) && none_with(ws, bc) && none_with(ws, pc)
                ==> best_match(ws, name) is None
        }),
{
    let n = unicode_lowercase(name);
    let b = |w: WorktreeView| branch_is(w, n);
    let d = |w: WorktreeView| directory_is(w, n);
    let bc = |w: WorktreeView| branch_has(w, n);
    let pc = |w: WorktreeView| path_has(w, n);
    assert forall|w: WorktreeView| #[trigger] matches_tier(w, n, 1) == b(w) by {}
    assert forall|w: WorktreeView| #[trigger] matches_tier(w, n, 2) == d(w) by {}
    assert forall|w: WorktreeView| #[trigger] matches_tier(w, n, 3) == bc(w) by {}
    assert forall|w: WorktreeView| #[trigger] matches_tier(w, n, 4) == pc(w) by {}
    let len = ws.len() as int;
    if first_with(ws, b, j) {
        lemma_tier_is(ws, n, 1, b, 0, j);
    }
    if none_with(ws, b) {
        lemma_tier_is(ws, n, 1, b, 0, len);
        if first_with(ws, d, j) {
            lemma_tier_is(ws, n, 2, d, 0, j);
        }
        if none_with(ws, d) {
            lemma_tier_is(ws, n, 2, d, 0, len);
            if first_with(ws, bc, j) {
                lemma_tier_is(ws, n, 3, bc, 0, j);
            }
            if none_with(ws, bc) {
                lemma_tier_is(ws, n, 3, bc, 0, len);
                if first_with(ws, pc, j) {
                    lemma_tier_is(ws, n, 4, pc, 0, j);
                }
                if none_with(ws, pc) {
                    lemma_tier_is(ws, n, 4, pc, 0, len);
                }
            }
        }
    }
}


// ---------------------------------------------------------------------------
// Fuzzy filtering
// ---------------------------------------------------------------------------

/// The worktree's branch or its path fuzzily matches `q`.
pub open spec fn fuzzy_hit(w: WorktreeView, q: Seq<char>) -> bool {
    crate::model::skim_score(w.branch, q) is Some || crate::model::skim_score(w.path, q) is Some
}

/// `w` is one of `ws` and fuzzily matches `q`.
pub open spec fn listed_hit(ws: Seq<WorktreeView>, q: Seq<char>, w: WorktreeView) -> bool {
    exists|i: int| 0 <= i < ws.len() && #[trigger] ws[i] == w && fuzzy_hit(ws[i], q)
}

/// The better of the branch's and the path's fuzzy scores, when either matches.
pub open spec fn best_score(w: WorktreeView, q: Seq<char>) -> int {
    let b = crate::model::skim_score(w.branch, q);
    let p = crate::model::skim_score(w.path, q);
    if b is Some && (p is None || b->0 >= p->0) {
        b->0 as int
    } else {
        p->0 as int
    }
}

/// Filtering by a non-empty query keeps exactly the worktrees whose branch
/// or path fuzzily matches the lower-cased query (either alone is enough),
/// best score first; each kept worktree is one of the list.
pub proof fn law_filter_keeps_branch_or_path_matches(
    ws: Seq<WorktreeView>,
    q: Seq<char>,
    r: Seq<WorktreeView>,
)
    requires
        q.len() > 0,
        crate::model::filter_result(ws, q, r),
    ensures
        forall|i: int|
            0 <= i < ws.len() && fuzzy_hit(#[trigger] ws[i], unicode_lowercase(q)) ==> r.contains(
                ws[i],
            ),
        forall|k: int| 0 <= k < r.len() ==> listed_hit(ws, unicode_lowercase(q), #[trigger] r[k]),
        forall|a: int, b: int|
            0 <= a < b < r.len() ==> best_score(#[trigger] r[a], unicode_lowercase(q)) >= best_score(
                #[trigger] r[b],
                unicode_lowercase(q),
            ),
{
    let lq = unicode_lowercase(q);
    let sc = crate::model::scores_of(ws, lq);
    let idx = choose|idx: Seq<int>|
        #[trigger] crate::model::ranked(sc, idx) && r == idx.map_values(|i: int| ws[i]);
    assert(crate::model::ranked(sc, idx) && r == idx.map_values(|i: int| ws[i]));
    assert forall|i: int| 0 <= i < ws.len() implies (#[trigger] sc[i]).is_some() == fuzzy_hit(
        ws[i],
        lq,
    ) && (fuzzy_hit(ws[i], lq) ==> sc[i]->0 == best_score(ws[i], lq)) by {
        assert(sc[i] == crate::model::worktree_score(ws[i], lq));
    }
    assert forall|i: int| 0 <= i < ws.len() && fuzzy_hit(#[trigger] ws[i], lq) implies r.contains(
        ws[i],
    ) by {
        assert(sc[i].is_some());
        assert(idx.contains(i));
        let m = choose|m: int| 0 <= m < idx.len() && idx[m] == i;
        assert(r[m] == ws[i]);
    }
    assert forall|k: int| 0 <= k < r.len() implies listed_hit(ws, lq, #[trigger] r[k]) by {
        let i = idx[k];
        assert(0 <= i < sc.len() && sc[i].is_some());
        assert(r[k] == ws[i]);
    }
    assert forall|a: int, b: int| 0 <= a < b < r.len() implies best_score(
        #[trigger] r[a],
        lq,
    ) >= best_score(#[trigger] r[b], lq) by {
        let ia = idx[a];
        let ib = idx[b];
        assert(sc[ia].is_some() && sc[ib].is_some());
        assert(r[a] == ws[ia] && r[b] == ws[ib]);
        assert(sc[ia].unwrap() >= sc[ib].unwrap());
    }
}

} // verus!
