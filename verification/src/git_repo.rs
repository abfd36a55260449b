//! Interpretation of the text that git prints: commit logs, branch lists,
//! porcelain status and worktree lists.
use vstd::prelude::*;
use crate::domain::StashEntry;
use crate::domain::{
    opt_view, RepoStatus, ProjectContext, WorktreeMetadata, WorktreeMetadataView, commits_view, pairs_view, strings_view, worktrees_view, GitCommit, GitCommitView, GitStatus,
    GitStatusView, Worktree, WorktreeView,
};
use crate::text::{
    byte_len, chars_in_bytes, chars_of, contains, contains_chars, decimal, find_char,
    find_char_exec, lemma_lex_lt_transitive, lemma_lex_total, lex_le, lex_lt, lex_lt_exec,
    lines, lines_of, slice_of, starts_with, starts_with_chars, string_of, trim, trim_chars,
    occurs_at, occurs_at_exec, ends_with, ends_with_chars, is_ws, is_whitespace, byte_len_upto, chars_in_bytes_exec, decimal_exec, append,
};

verus! {

/// The git-backed project repository.  The commands themselves run in the
/// application; the functions here decide what their output means.
pub struct GitProjectRepository;

// ---------------------------------------------------------------------------
// Commit history
// ---------------------------------------------------------------------------

/// The four fields of `hash|author|date|message`, as `splitn(4, '|')`
/// yields them; `None` when the line has fewer than three `|`.
pub open spec fn pipe_fields(line: Seq<char>) -> Option<(Seq<char>, Seq<char>, Seq<char>, Seq<char>)> {
    let a = find_char(line, '|');
    let r1 = line.skip(a + 1);
    let b = find_char(r1, '|');
    let r2 = r1.skip(b + 1);
    let c = find_char(r2, '|');
    if a < 0 || b < 0 || c < 0 {
        None
    } else {
        Some((line.take(a), r1.take(b), r2.take(c), r2.skip(c + 1)))
    }
}

pub open spec fn commit_of_line(line: Seq<char>) -> Option<GitCommitView> {
    match pipe_fields(line) {
        Some(f) => Some(
            GitCommitView {
                hash: f.0,
                author: f.1,
                date: f.2,
                message: f.3,
                graph: Seq::<char>::empty(),
            },
        ),
        None => None,
    }
}

/// The commits described by a sequence of log lines, in order; lines that
/// do not hold four fields are skipped.
pub open spec fn history_of(ls: Seq<Seq<char>>) -> Seq<GitCommitView>
    decreases ls.len(),
{
    if ls.len() == 0 {
        Seq::empty()
    } else {
        let prev = history_of(ls.drop_last());
        match commit_of_line(ls.last()) {
            Some(c) => prev.push(c),
            None => prev,
        }
    }
}

// ---------------------------------------------------------------------------
// Branch lists
// ---------------------------------------------------------------------------

pub open spec fn remote_prefix() -> Seq<char> {
    seq!['o', 'r', 'i', 'g', 'i', 'n', '/']
}

pub open spec fn origin_head() -> Seq<char> {
    seq!['o', 'r', 'i', 'g', 'i', 'n', '/', 'H', 'E', 'A', 'D']
}

/// A trimmed branch line that names no branch: empty, or `origin/HEAD`.
pub open spec fn ignored_branch_line(t: Seq<char>) -> bool {
    t.len() == 0 || contains(t, origin_head())
}

/// Local branch names, in the order of the lines, duplicates kept.
pub open spec fn local_branches(ls: Seq<Seq<char>>) -> Seq<Seq<char>>
    decreases ls.len(),
{
    if ls.len() == 0 {
        Seq::empty()
    } else {
        let prev = local_branches(ls.drop_last());
        let t = trim(ls.last());
        if !ignored_branch_line(t) && !starts_with(t, remote_prefix()) {
            prev.push(t)
        } else {
            prev
        }
    }
}

/// Remote branch names with `origin/` removed, each kept the first time it
/// appears and only when no name in `seen` equals it.
pub open spec fn fresh_remote_branches(ls: Seq<Seq<char>>, seen: Set<Seq<char>>) -> Seq<Seq<char>>
    decreases ls.len(),
{
    if ls.len() == 0 {
        Seq::empty()
    } else {
        let t = trim(ls[0]);
        let name = t.skip(7);
        if !ignored_branch_line(t) && starts_with(t, remote_prefix()) && !seen.contains(name) {
            seq![name] + fresh_remote_branches(ls.drop_first(), seen.insert(name))
        } else {
            fresh_remote_branches(ls.drop_first(), seen)
        }
    }
}

/// The branch names that a `git branch -a` listing yields before sorting.
pub open spec fn branch_candidates(output: Seq<char>) -> Seq<Seq<char>> {
    let ls = lines_of(output);
    let locals = local_branches(ls);
    locals + fresh_remote_branches(ls, locals.to_set())
}

pub open spec fn sorted_lex(s: Seq<Seq<char>>) -> bool {
    forall|i: int, j: int| 0 <= i < j < s.len() ==> lex_le(#[trigger] s[i], #[trigger] s[j])
}

// ---------------------------------------------------------------------------
// Porcelain status
// ---------------------------------------------------------------------------

/// A porcelain line can be sliced at byte `k` when the line is shorter
/// than `min` bytes (it is skipped) or byte `k` starts a character.
pub open spec fn sliceable(l: Seq<char>, min: int, k: int) -> bool {
    byte_len(l) < min || chars_in_bytes(l, k) >= 0
}

/// The two status columns of a porcelain line (its first two bytes).
pub open spec fn status_code(l: Seq<char>) -> Seq<char> {
    l.take(chars_in_bytes(l, 2))
}

/// The path of a porcelain line (from its fourth byte on).
pub open spec fn status_path(l: Seq<char>) -> Seq<char> {
    l.skip(chars_in_bytes(l, 3))
}

pub open spec fn code(a: char, b: char) -> Seq<char> {
    seq![a, b]
}

pub open spec fn is_staged_code(c: Seq<char>) -> bool {
    c == code('M', ' ') || c == code('A', ' ') || c == code('D', ' ') || c == code('R', ' ') || c
        == code('C', ' ')
}

/// Counts of (staged, unstaged, untracked) entries that the summary reports.
pub open spec fn summary_counts(ls: Seq<Seq<char>>) -> (nat, nat, nat)
    decreases ls.len(),
{
    if ls.len() == 0 {
        (0, 0, 0)
    } else {
        let p = summary_counts(ls.drop_last());
        let l = ls.last();
        let c = status_code(l);
        if byte_len(l) < 2 {
            p
        } else if is_staged_code(c) {
            (p.0 + 1, p.1, p.2)
        } else if c == code('?', '?') {
            (p.0, p.1, p.2 + 1)
        } else if c == code('M', 'M') || c == code('M', 'D') {
            (p.0 + 1, p.1 + 1, p.2)
        } else {
            (p.0, p.1 + 1, p.2)
        }
    }
}

/// `+n`, `~n` and `?n` for the non-zero counts, joined by spaces.
pub open spec fn summary_parts(s: nat, u: nat, t: nat) -> Seq<Seq<char>> {
    let a = if s > 0 {
        seq![seq!['+'] + decimal(s)]
    } else {
        Seq::empty()
    };
    let b = if u > 0 {
        seq![seq!['~'] + decimal(u)]
    } else {
        Seq::empty()
    };
    let c = if t > 0 {
        seq![seq!['?'] + decimal(t)]
    } else {
        Seq::empty()
    };
    a + b + c
}

pub open spec fn join_spaces(parts: Seq<Seq<char>>) -> Seq<char>
    decreases parts.len(),
{
    if parts.len() == 0 {
        Seq::empty()
    } else if parts.len() == 1 {
        parts[0]
    } else {
        join_spaces(parts.drop_last()) + seq![' '] + parts.last()
    }
}

pub open spec fn clean_word() -> Seq<char> {
    seq!['c', 'l', 'e', 'a', 'n']
}

/// The one-line summary of a porcelain status listing.
pub open spec fn status_summary_of(output: Seq<char>) -> Seq<char> {
    let counts = summary_counts(lines_of(output));
    let parts = summary_parts(counts.0, counts.1, counts.2);
    if trim(output).len() == 0 || parts.len() == 0 {
        clean_word()
    } else {
        join_spaces(parts)
    }
}

/// The detailed status that a porcelain listing describes.
pub open spec fn status_of(ls: Seq<Seq<char>>) -> GitStatusView
    decreases ls.len(),
{
    if ls.len() == 0 {
        GitStatusView { staged: Seq::empty(), unstaged: Seq::empty(), untracked: Seq::empty() }
    } else {
        let p = status_of(ls.drop_last());
        let l = ls.last();
        let c = status_code(l);
        let f = status_path(l);
        if byte_len(l) < 4 {
            p
        } else if is_staged_code(c) {
            GitStatusView { staged: p.staged.push((f, c)), ..p }
        } else if c == code(' ', 'M') || c == code(' ', 'D') {
            GitStatusView { unstaged: p.unstaged.push((f, c)), ..p }
        } else if c == code('?', '?') {
            GitStatusView { untracked: p.untracked.push(f), ..p }
        } else if c == code('M', 'M') {
            GitStatusView {
                staged: p.staged.push((f, code('M', ' '))),
                unstaged: p.unstaged.push((f, code(' ', 'M'))),
                ..p
            }
        } else if c == code('M', 'D') {
            GitStatusView {
                staged: p.staged.push((f, code('M', ' '))),
                unstaged: p.unstaged.push((f, code(' ', 'D'))),
                ..p
            }
        } else {
            p
        }
    }
}


// ---------------------------------------------------------------------------
// Worktree lists (`git worktree list --porcelain`)
// ---------------------------------------------------------------------------

/// Index of the first occurrence of `p` in `s`, or -1.
pub open spec fn find_pat(s: Seq<char>, p: Seq<char>) -> int
    decreases s.len(),
{
    if occurs_at(s, p, 0) {
        0
    } else if s.len() == 0 {
        -1
    } else {
        let r = find_pat(s.drop_first(), p);
        if r < 0 {
            -1
        } else {
            r + 1
        }
    }
}

/// The pieces of `s` between non-overlapping occurrences of `p`, read from
/// the left (what `str::split` yields for a string pattern).
pub open spec fn split_pat(s: Seq<char>, p: Seq<char>) -> Seq<Seq<char>>
    decreases s.len(),
{
    let i = find_pat(s, p);
    if p.len() == 0 || i < 0 || i + p.len() > s.len() {
        seq![s]
    } else {
        seq![s.take(i)] + split_pat(s.skip(i + p.len()), p)
    }
}

/// `s` with every leading copy of `p` removed (`str::trim_start_matches`).
pub open spec fn strip_all_prefix(s: Seq<char>, p: Seq<char>) -> Seq<char>
    decreases s.len(),
{
    if p.len() > 0 && starts_with(s, p) {
        strip_all_prefix(s.skip(p.len() as int), p)
    } else {
        s
    }
}

pub open spec fn empty_worktree() -> WorktreeView {
    WorktreeView {
        path: Seq::empty(),
        commit: Seq::empty(),
        branch: Seq::empty(),
        is_bare: false,
        is_detached: false,
        status_summary: None,
        size_bytes: 0,
        metadata: None,
    }
}

pub open spec fn kw_worktree() -> Seq<char> {
    seq!['w', 'o', 'r', 'k', 't', 'r', 'e', 'e', ' ']
}

pub open spec fn kw_head() -> Seq<char> {
    seq!['H', 'E', 'A', 'D', ' ']
}

pub open spec fn kw_branch() -> Seq<char> {
    seq!['b', 'r', 'a', 'n', 'c', 'h', ' ']
}

pub open spec fn kw_bare() -> Seq<char> {
    seq!['b', 'a', 'r', 'e']
}

pub open spec fn kw_detached() -> Seq<char> {
    seq!['d', 'e', 't', 'a', 'c', 'h', 'e', 'd']
}

pub open spec fn kw_refs_heads() -> Seq<char> {
    seq!['r', 'e', 'f', 's', '/', 'h', 'e', 'a', 'd', 's', '/']
}

/// The effect of one porcelain line on the worktree being described.
pub open spec fn apply_worktree_line(w: WorktreeView, line: Seq<char>) -> WorktreeView {
    if starts_with(line, kw_worktree()) {
        WorktreeView { path: line.skip(9), ..w }
    } else if starts_with(line, kw_head()) {
        let h = line.skip(5);
        WorktreeView {
            commit: if h.len() < 7 {
                h
            } else {
                h.take(7)
            },
            ..w
        }
    } else if starts_with(line, kw_branch()) {
        WorktreeView { branch: strip_all_prefix(line.skip(7), kw_refs_heads()), ..w }
    } else if line == kw_bare() {
        WorktreeView { is_bare: true, ..w }
    } else if line == kw_detached() {
        WorktreeView { is_detached: true, ..w }
    } else {
        w
    }
}

pub open spec fn worktree_of_lines(ls: Seq<Seq<char>>) -> WorktreeView
    decreases ls.len(),
{
    if ls.len() == 0 {
        empty_worktree()
    } else {
        apply_worktree_line(worktree_of_lines(ls.drop_last()), ls.last())
    }
}

/// The worktrees of the non-empty blocks of a porcelain listing.
pub open spec fn worktrees_of_blocks(blocks: Seq<Seq<char>>) -> Seq<WorktreeView>
    decreases blocks.len(),
{
    if blocks.len() == 0 {
        Seq::empty()
    } else {
        let prev = worktrees_of_blocks(blocks.drop_last());
        if blocks.last().len() == 0 {
            prev
        } else {
            prev.push(worktree_of_lines(lines_of(blocks.last())))
        }
    }
}

pub open spec fn blank_line_sep() -> Seq<char> {
    seq!['\n', '\n']
}

/// The worktrees that `git worktree list --porcelain` describes, before
/// their size, status and metadata are known.
pub open spec fn worktree_list_of(output: Seq<char>) -> Seq<WorktreeView> {
    worktrees_of_blocks(split_pat(output, blank_line_sep()))
}


// ---------------------------------------------------------------------------
// Repository layout decisions
// ---------------------------------------------------------------------------

/// What `std::path::Path::parent` returns for a path, as a string.
pub uninterp spec fn path_parent(p: Seq<char>) -> Option<Seq<char>>;

/// What `std::path::Path::file_name` returns for a path, as a string.
pub uninterp spec fn path_file_name(p: Seq<char>) -> Option<Seq<char>>;

/// File names whose presence marks a Kotlin Multiplatform / Android project.
pub open spec fn kmp_indicators() -> Seq<Seq<char>> {
    seq![
        seq!['b', 'u', 'i', 'l', 'd', '.', 'g', 'r', 'a', 'd', 'l', 'e'],
        seq!['b', 'u', 'i', 'l', 'd', '.', 'g', 'r', 'a', 'd', 'l', 'e', '.', 'k', 't', 's'],
        seq!['s', 'e', 't', 't', 'i', 'n', 'g', 's', '.', 'g', 'r', 'a', 'd', 'l', 'e'],
        seq!['s', 'e', 't', 't', 'i', 'n', 'g', 's', '.', 'g', 'r', 'a', 'd', 'l', 'e', '.', 'k', 't', 's'],
        seq!['l', 'o', 'c', 'a', 'l', '.', 'p', 'r', 'o', 'p', 'e', 'r', 't', 'i', 'e', 's'],
    ]
}

/// `s` with every trailing copy of `p` removed (`str::trim_end_matches`).
pub open spec fn strip_all_suffix(s: Seq<char>, p: Seq<char>) -> Seq<char>
    decreases s.len(),
{
    if p.len() > 0 && ends_with(s, p) {
        strip_all_suffix(s.take(s.len() - p.len()), p)
    } else {
        s
    }
}

pub open spec fn dot_git_suffix() -> Seq<char> {
    seq!['/', '.', 'g', 'i', 't']
}

/// The worktree directory that the `gitdir` file of an administrative
/// entry points at.
pub open spec fn gitdir_target_of(content: Seq<char>) -> Seq<char> {
    strip_all_suffix(trim(content), dot_git_suffix())
}

/// What is known of one entry under `.bare/worktrees/`.
pub enum GitdirState {
    /// The entry has no `gitdir` file.
    Missing,
    /// The `gitdir` file could not be read.
    Unreadable,
    /// The `gitdir` file points at `target`, which does or does not exist.
    Points { target: String, target_exists: bool },
}

pub struct AdminEntry {
    pub name: String,
    pub gitdir: GitdirState,
}

pub open spec fn entry_is_stale(e: AdminEntry, valid: Seq<Seq<char>>) -> bool {
    match e.gitdir {
        GitdirState::Missing => true,
        GitdirState::Unreadable => true,
        GitdirState::Points { target, target_exists } => !target_exists || !valid.contains(
            target@,
        ),
    }
}

/// Names of the stale entries, in order.
pub open spec fn stale_names(es: Seq<AdminEntry>, valid: Seq<Seq<char>>) -> Seq<Seq<char>>
    decreases es.len(),
{
    if es.len() == 0 {
        Seq::empty()
    } else {
        let prev = stale_names(es.drop_last(), valid);
        if entry_is_stale(es.last(), valid) {
            prev.push(es.last().name@)
        } else {
            prev
        }
    }
}

pub open spec fn hub_suffix() -> Seq<char> {
    seq!['-', 'h', 'u', 'b']
}

pub open spec fn project_word() -> Seq<char> {
    seq!['p', 'r', 'o', 'j', 'e', 'c', 't']
}

pub open spec fn bare_suffix() -> Seq<char> {
    seq!['.', 'b', 'a', 'r', 'e']
}

pub open spec fn true_word() -> Seq<char> {
    seq!['t', 'r', 'u', 'e']
}

/// How a directory is classified from what the checks found: a `.bare`
/// directory, the output of `git rev-parse --git-common-dir` and of
/// `git rev-parse --is-inside-work-tree` (when they succeeded), and a
/// `.git` entry.
pub open spec fn repo_status_of(
    has_bare_dir: bool,
    common_dir: Option<Seq<char>>,
    inside_work_tree: Option<Seq<char>>,
    has_git_entry: bool,
) -> RepoStatus {
    if has_bare_dir {
        RepoStatus::BareHub
    } else if common_dir.is_some() && ends_with(trim(common_dir.unwrap()), bare_suffix()) {
        RepoStatus::BareHub
    } else if inside_work_tree.is_some() && trim(inside_work_tree.unwrap()) == true_word() {
        RepoStatus::StandardGit
    } else if has_git_entry {
        RepoStatus::StandardGit
    } else {
        RepoStatus::NoRepo
    }
}

pub open spec fn lock_index() -> Seq<char> {
    seq!['i', 'n', 'd', 'e', 'x', '.', 'l', 'o', 'c', 'k']
}

pub open spec fn lock_head() -> Seq<char> {
    seq!['H', 'E', 'A', 'D', '.', 'l', 'o', 'c', 'k']
}

pub open spec fn dot_git() -> Seq<char> {
    seq!['.', 'g', 'i', 't']
}

pub open spec fn dot_bare() -> Seq<char> {
    seq!['.', 'b', 'a', 'r', 'e']
}

/// A changed path is worth a rescan unless it is a git lock file.
pub open spec fn path_is_meaningful(p: Seq<char>) -> bool {
    !((contains(p, dot_git()) || contains(p, dot_bare())) && (contains(p, lock_index())
        || contains(p, lock_head())))
}

/// Whitespace-separated tokens of `s` (what `str::split_whitespace` yields).
pub open spec fn ws_tokens(s: Seq<char>) -> Seq<Seq<char>>
    decreases s.len(),
{
    if s.len() == 0 {
        Seq::empty()
    } else {
        let p = ws_tokens(s.drop_last());
        if is_ws(s.last()) {
            p
        } else if s.len() > 1 && !is_ws(s.drop_last().last()) && p.len() > 0 {
            p.drop_last().push(p.last().push(s.last()))
        } else {
            p.push(seq![s.last()])
        }
    }
}

/// One line of a `.worktrees.sync` manifest: an action and a source path.
pub struct SyncEntry {
    pub action: String,
    pub source: String,
}

/// The (action, source) pairs of a sync manifest: comment (`#`) and blank
/// lines and lines with fewer than two tokens are skipped.
pub open spec fn sync_entries_of(ls: Seq<Seq<char>>) -> Seq<(Seq<char>, Seq<char>)>
    decreases ls.len(),
{
    if ls.len() == 0 {
        Seq::empty()
    } else {
        let prev = sync_entries_of(ls.drop_last());
        let t = trim(ls.last());
        let parts = ws_tokens(t);
        if t.len() == 0 || t[0] == '#' || parts.len() < 2 {
            prev
        } else {
            prev.push((parts[0], parts[1]))
        }
    }
}

/// The worktree list with each worktree given the metadata of the first
/// entry whose key is its branch.
pub open spec fn metadata_for(
    branch: Seq<char>,
    entries: Seq<(Seq<char>, WorktreeMetadataView)>,
) -> Option<WorktreeMetadataView>
    decreases entries.len(),
{
    if entries.len() == 0 {
        None
    } else if entries[0].0 == branch {
        Some(entries[0].1)
    } else {
        metadata_for(branch, entries.drop_first())
    }
}

// ---------------------------------------------------------------------------
// Executable helpers
// ---------------------------------------------------------------------------

fn chars_eq(a: &Vec<char>, b: &Vec<char>) -> (r: bool)
    ensures
        r == (a@ == b@),
{
    if a.len() != b.len() {
        return false;
    }
    let mut i: usize = 0;
    while i < a.len()
        invariant
            i <= a.len() == b.len(),
            forall|j: int| 0 <= j < i ==> a@[j] == b@[j],
        decreases a.len() - i,
    {
        if a[i] != b[i] {
            return false;
        }
        i = i + 1;
    }
    assert(a@ =~= b@);
    true
}

fn is_code(c: &Vec<char>, x: char, y: char) -> (r: bool)
    ensures
        r == (c@ == code(x, y)),
{
    let r = c.len() == 2 && c[0] == x && c[1] == y;
    proof {
        if c@.len() == 2 && c@[0] == x && c@[1] == y {
            assert(c@ =~= code(x, y));
        }
    }
    r
}

fn is_staged_code_exec(c: &Vec<char>) -> (r: bool)
    ensures
        r == is_staged_code(c@),
{
    is_code(c, 'M', ' ') || is_code(c, 'A', ' ') || is_code(c, 'D', ' ') || is_code(c, 'R', ' ')
        || is_code(c, 'C', ' ')
}

fn in_seen(seen: &Vec<Vec<char>>, x: &Vec<char>) -> (r: bool)
    ensures
        r == seen@.map_values(|v: Vec<char>| v@).contains(x@),
{
    let ghost sv = seen@.map_values(|v: Vec<char>| v@);
    let mut i: usize = 0;
    while i < seen.len()
        invariant
            i <= seen.len(),
            sv == seen@.map_values(|v: Vec<char>| v@),
            forall|j: int| 0 <= j < i ==> sv[j] != x@,
        decreases seen.len() - i,
    {
        if chars_eq(&seen[i], x) {
            assert(sv[i as int] == x@);
            return true;
        }
        i = i + 1;
    }
    assert(!sv.contains(x@));
    false
}

fn vec_of_str(s: &str) -> (v: Vec<char>)
    ensures
        v@ == s@,
{
    chars_of(s)
}

proof fn lemma_multiset_insert_at(s: Seq<Seq<char>>, p: int, x: Seq<char>)
    requires
        0 <= p <= s.len(),
    ensures
        s.insert(p, x).to_multiset() == s.to_multiset().insert(x),
{
    broadcast use vstd::seq_lib::group_to_multiset_ensures;

    let a = s.take(p);
    let b = s.skip(p);
    assert(s =~= a + b);
    assert(s.insert(p, x) =~= a.push(x) + b);
    vstd::seq_lib::lemma_multiset_commutative(a.push(x), b);
    vstd::seq_lib::lemma_multiset_commutative(a, b);
    assert(a.push(x).to_multiset() =~= a.to_multiset().insert(x));
    assert(a.to_multiset().insert(x).add(b.to_multiset()) =~= a.to_multiset().add(
        b.to_multiset(),
    ).insert(x));
}

/// Sorts character sequences in lexicographic order (a stable insertion
/// sort); the result is the sorted rearrangement of the input.
pub fn sort_lex(v: Vec<Vec<char>>) -> (r: Vec<Vec<char>>)
    ensures
        sorted_lex(r@.map_values(|x: Vec<char>| x@)),
        r@.map_values(|x: Vec<char>| x@).to_multiset() == v@.map_values(
            |x: Vec<char>| x@,
        ).to_multiset(),
{
    broadcast use vstd::seq_lib::group_to_multiset_ensures;

    let ghost vv = v@.map_values(|x: Vec<char>| x@);
    let mut out: Vec<Vec<char>> = Vec::new();
    let mut i: usize = 0;
    while i < v.len()
        invariant
            i <= v.len(),
            vv == v@.map_values(|x: Vec<char>| x@),
            sorted_lex(out@.map_values(|x: Vec<char>| x@)),
            out@.map_values(|x: Vec<char>| x@).to_multiset() == vv.take(i as int).to_multiset(),
        decreases v.len() - i,
    {
        let ghost ov = out@.map_values(|x: Vec<char>| x@);
        let x = &v[i];
        let mut p: usize = 0;
        while p < out.len() && !lex_lt_exec(x, &out[p])
            invariant
                p <= out.len(),
                ov == out@.map_values(|x: Vec<char>| x@),
                forall|j: int| 0 <= j < p ==> !lex_lt(x@, #[trigger] ov[j]),
            decreases out.len() - p,
        {
            p = p + 1;
        }
        let xc = x.clone();
        assert(xc@ == x@);
        out.insert(p, xc);
        proof {
            let nv = out@.map_values(|y: Vec<char>| y@);
            assert(nv =~= ov.insert(p as int, x@));
            assert forall|a: int, b: int| 0 <= a < b < nv.len() implies lex_le(
                #[trigger] nv[a],
                #[trigger] nv[b],
            ) by {
                if b < p {
                    assert(nv[a] == ov[a] && nv[b] == ov[b]);
                } else if b == p {
                    assert(nv[a] == ov[a]);
                    assert(!lex_lt(x@, ov[a]));
                    lemma_lex_total(x@, ov[a]);
                } else if a > p {
                    assert(nv[a] == ov[a - 1] && nv[b] == ov[b - 1]);
                } else if a == p {
                    assert(nv[b] == ov[b - 1]);
                    assert(lex_lt(x@, ov[p as int]));
                    if p < b - 1 {
                        assert(lex_le(ov[p as int], ov[b - 1]));
                        if ov[p as int] != ov[b - 1] {
                            lemma_lex_lt_transitive(x@, ov[p as int], ov[b - 1]);
                        }
                    }
                } else {
                    assert(nv[a] == ov[a] && nv[b] == ov[b - 1]);
                }
            }
            lemma_multiset_insert_at(ov, p as int, x@);
            assert(x@ == vv[i as int]);
            assert(vv.take(i + 1) =~= vv.take(i as int).push(vv[i as int]));
            vv.take(i as int).to_multiset_ensures();
            assert(vv.take(i as int).push(x@).to_multiset() =~= vv.take(i as int).to_multiset().insert(
                x@,
            ));
            assert(vv.take(i + 1).to_multiset() == vv.take(i as int).to_multiset().insert(x@));
            assert(nv.to_multiset() == ov.to_multiset().insert(x@));
        }
        i = i + 1;
    }
    assert(vv.take(i as int) =~= vv);
    out
}

fn strings_from(v: &Vec<Vec<char>>) -> (r: Vec<String>)
    ensures
        strings_view(r@) == v@.map_values(|x: Vec<char>| x@),
{
    let mut r: Vec<String> = Vec::new();
    let mut i: usize = 0;
    while i < v.len()
        invariant
            i <= v.len(),
            r@.len() == i,
            forall|j: int| 0 <= j < i ==> #[trigger] r@[j]@ == v@[j]@,
        decreases v.len() - i,
    {
        r.push(string_of(v[i].as_slice()));
        i = i + 1;
    }
    assert(strings_view(r@) =~= v@.map_values(|x: Vec<char>| x@));
    r
}


fn join_with_spaces(parts: &Vec<Vec<char>>) -> (r: Vec<char>)
    ensures
        r@ == join_spaces(parts@.map_values(|x: Vec<char>| x@)),
{
    let ghost pv = parts@.map_values(|x: Vec<char>| x@);
    let mut r: Vec<char> = Vec::new();
    let mut i: usize = 0;
    while i < parts.len()
        invariant
            i <= parts.len(),
            pv == parts@.map_values(|x: Vec<char>| x@),
            r@ == join_spaces(pv.take(i as int)),
        decreases parts.len() - i,
    {
        assert(pv.take(i + 1).drop_last() =~= pv.take(i as int));
        if i > 0 {
            r.push(' ');
        }
        append(&mut r, parts[i].as_slice());
        proof {
            if i == 0 {
                assert(pv.take(1).len() == 1);
                assert(r@ =~= pv.take(1)[0]);
            } else {
                assert(r@ =~= join_spaces(pv.take(i as int)) + seq![' '] + pv.take(i + 1).last());
            }
        }
        i = i + 1;
    }
    assert(pv.take(i as int) =~= pv);
    r
}

fn counted_part(sym: char, n: usize) -> (r: Vec<char>)
    ensures
        r@ == seq![sym] + decimal(n as nat),
{
    let mut r: Vec<char> = Vec::new();
    r.push(sym);
    let d = decimal_exec(n as u64);
    append(&mut r, d.as_slice());
    r
}

fn clean_chars() -> (r: Vec<char>)
    ensures
        r@ == clean_word(),
{
    let r = vec!['c', 'l', 'e', 'a', 'n'];
    assert(r@ =~= clean_word());
    r
}


proof fn lemma_occurs_skip(s: Seq<char>, p: Seq<char>, pos: int, j: int)
    requires
        0 <= pos <= s.len(),
        0 <= j,
    ensures
        occurs_at(s.skip(pos), p, j) == occurs_at(s, p, pos + j),
{
    if 0 <= j && j + p.len() <= s.len() - pos {
        assert(s.skip(pos).subrange(j, j + p.len()) =~= s.subrange(pos + j, pos + j + p.len()));
    }
}

proof fn lemma_find_pat(s: Seq<char>, p: Seq<char>, i: int)
    requires
        p.len() > 0,
        0 <= i <= s.len(),
        forall|j: int| 0 <= j < i ==> !occurs_at(s, p, j),
        occurs_at(s, p, i) || i == s.len(),
    ensures
        find_pat(s, p) == (if occurs_at(s, p, i) {
            i
        } else {
            -1
        }),
    decreases s.len(),
{
    if i > 0 {
        assert(!occurs_at(s, p, 0));
        assert forall|j: int| 0 <= j < i - 1 implies !occurs_at(s.drop_first(), p, j) by {
            lemma_occurs_skip(s, p, 1, j);
            assert(s.drop_first() == s.skip(1));
        }
        lemma_occurs_skip(s, p, 1, i - 1);
        assert(s.drop_first() == s.skip(1));
        lemma_find_pat(s.drop_first(), p, i - 1);
    }
}

proof fn lemma_no_pat_tail(s: Seq<char>, p: Seq<char>, j: int)
    requires
        p.len() > 0,
        j + p.len() > s.len(),
    ensures
        !occurs_at(s, p, j),
{
}

/// Splits a text at blank lines (`str::split("\n\n")`).
fn split_blank_lines(s: &Vec<char>) -> (r: Vec<Vec<char>>)
    ensures
        r@.map_values(|x: Vec<char>| x@) == split_pat(s@, blank_line_sep()),
{
    let sep = vec!['\n', '\n'];
    assert(sep@ =~= blank_line_sep());
    let ghost whole = split_pat(s@, sep@);
    let mut pieces: Vec<Vec<char>> = Vec::new();
    let mut pos: usize = 0;
    let mut done = false;
    assert(s@.skip(0) =~= s@);
    while !done
        invariant
            pos <= s.len(),
            sep@ == blank_line_sep(),
            !done ==> pieces@.map_values(|x: Vec<char>| x@) + split_pat(s@.skip(pos as int), sep@)
                == whole,
            done ==> pieces@.map_values(|x: Vec<char>| x@) == whole,
        decreases s.len() - pos + (if done {
            0int
        } else {
            1int
        }),
    {
        let ghost rest = s@.skip(pos as int);
        let ghost pv = pieces@.map_values(|x: Vec<char>| x@);
        let mut j: usize = pos;
        while s.len() - j >= 2 && !occurs_at_exec(s, sep.as_slice(), j)
            invariant
                pos <= j <= s.len(),
                sep@ == blank_line_sep(),
                forall|k: int| pos <= k < j ==> !occurs_at(s@, sep@, k),
            decreases s.len() - j,
        {
            j = j + 1;
        }
        if s.len() - j >= 2 {
            proof {
                assert forall|k: int| 0 <= k < j - pos implies !occurs_at(rest, sep@, k) by {
                    lemma_occurs_skip(s@, sep@, pos as int, k);
                }
                lemma_occurs_skip(s@, sep@, pos as int, j - pos);
                lemma_find_pat(rest, sep@, j - pos);
                assert(rest.take(j - pos) =~= s@.subrange(pos as int, j as int));
                assert(rest.skip(j - pos + 2) =~= s@.skip(j + 2));
            }
            let piece = slice_of(s, pos, j);
            pieces.push(piece);
            proof {
                assert(pieces@.map_values(|x: Vec<char>| x@) =~= pv.push(
                    s@.subrange(pos as int, j as int),
                ));
                assert(pv.push(s@.subrange(pos as int, j as int)) + split_pat(s@.skip(j + 2), sep@)
                    =~= pv + split_pat(rest, sep@));
            }
            pos = j + 2;
        } else {
            proof {
                assert forall|k: int| 0 <= k <= rest.len() implies !occurs_at(rest, sep@, k) by {
                    lemma_occurs_skip(s@, sep@, pos as int, k);
                    if pos + k < j {
                    } else {
                        lemma_no_pat_tail(s@, sep@, pos + k);
                    }
                }
                lemma_find_pat(rest, sep@, rest.len() as int);
                assert(rest =~= s@.subrange(pos as int, s@.len() as int));
            }
            let piece = slice_of(s, pos, s.len());
            pieces.push(piece);
            proof {
                assert(pieces@.map_values(|x: Vec<char>| x@) =~= pv + split_pat(rest, sep@));
            }
            done = true;
        }
    }
    pieces
}

/// `str::trim_start_matches` with a non-empty string pattern.
fn strip_all_prefix_exec(s: &Vec<char>, p: &Vec<char>) -> (r: Vec<char>)
    requires
        p@.len() > 0,
    ensures
        r@ == strip_all_prefix(s@, p@),
{
    let mut pos: usize = 0;
    assert(s@.skip(0) =~= s@);
    while p.len() <= s.len() - pos && occurs_at_exec(s, p.as_slice(), pos)
        invariant
            pos <= s.len(),
            p@.len() > 0,
            strip_all_prefix(s@, p@) == strip_all_prefix(s@.skip(pos as int), p@),
        decreases s.len() - pos,
    {
        proof {
            let rest = s@.skip(pos as int);
            assert(rest.subrange(0, p@.len() as int) =~= s@.subrange(
                pos as int,
                pos + p@.len(),
            ));
            assert(rest.skip(p@.len() as int) =~= s@.skip(pos + p@.len()));
        }
        pos = pos + p.len();
    }
    proof {
        let rest = s@.skip(pos as int);
        if starts_with(rest, p@) {
            assert(rest.subrange(0, p@.len() as int) =~= s@.subrange(
                pos as int,
                pos + p@.len(),
            ));
        }
    }
    let r = slice_of(s, pos, s.len());
    assert(r@ =~= s@.skip(pos as int));
    r
}

fn new_worktree() -> (w: Worktree)
    ensures
        w@ == empty_worktree(),
{
    let w = Worktree {
        path: String::new(),
        commit: String::new(),
        branch: String::new(),
        is_bare: false,
        is_detached: false,
        status_summary: None,
        size_bytes: 0,
        metadata: None,
    };
    assert(w@ =~= empty_worktree());
    w
}

fn apply_worktree_line_exec(w: &mut Worktree, line: &Vec<char>)
    ensures
        final(w)@ == apply_worktree_line(old(w)@, line@),
{
    let kw_wt = vec!['w', 'o', 'r', 'k', 't', 'r', 'e', 'e', ' '];
    let kw_hd = vec!['H', 'E', 'A', 'D', ' '];
    let kw_br = vec!['b', 'r', 'a', 'n', 'c', 'h', ' '];
    let kw_ba = vec!['b', 'a', 'r', 'e'];
    let kw_de = vec!['d', 'e', 't', 'a', 'c', 'h', 'e', 'd'];
    let kw_rh = vec!['r', 'e', 'f', 's', '/', 'h', 'e', 'a', 'd', 's', '/'];
    assert(kw_wt@ =~= kw_worktree());
    assert(kw_hd@ =~= kw_head());
    assert(kw_br@ =~= kw_branch());
    assert(kw_ba@ =~= kw_bare());
    assert(kw_de@ =~= kw_detached());
    assert(kw_rh@ =~= kw_refs_heads());
    if starts_with_chars(line, kw_wt.as_slice()) {
        let rest = slice_of(line, 9, line.len());
        assert(rest@ =~= line@.skip(9));
        w.path = string_of(rest.as_slice());
    } else if starts_with_chars(line, kw_hd.as_slice()) {
        let end = if line.len() - 5 < 7 {
            line.len()
        } else {
            12
        };
        let h = slice_of(line, 5, end);
        assert(line@.skip(5).len() < 7 ==> h@ =~= line@.skip(5));
        assert(line@.skip(5).len() >= 7 ==> h@ =~= line@.skip(5).take(7));
        w.commit = string_of(h.as_slice());
    } else if starts_with_chars(line, kw_br.as_slice()) {
        let rest = slice_of(line, 7, line.len());
        assert(rest@ =~= line@.skip(7));
        let b = strip_all_prefix_exec(&rest, &kw_rh);
        w.branch = string_of(b.as_slice());
    } else if chars_eq(line, &kw_ba) {
        w.is_bare = true;
    } else if chars_eq(line, &kw_de) {
        w.is_detached = true;
    }
    assert(w@ =~= apply_worktree_line(old(w)@, line@));
}


/// `std::path::Path::parent`, as a string.
#[verifier::external_body]
fn path_parent_exec(p: &str) -> (r: Option<String>)
    ensures
        opt_view(r) == path_parent(p@),
{
    std::path::Path::new(p).parent().map(|q| q.to_string_lossy().to_string())
}

/// `std::path::Path::file_name`, as a string.
#[verifier::external_body]
pub(crate) fn path_file_name_exec(p: &str) -> (r: Option<String>)
    ensures
        opt_view(r) == path_file_name(p@),
{
    std::path::Path::new(p).file_name().map(|q| q.to_string_lossy().to_string())
}

pub(crate) fn strip_all_suffix_exec(s: &Vec<char>, p: &Vec<char>) -> (r: Vec<char>)
    requires
        p@.len() > 0,
    ensures
        r@ == strip_all_suffix(s@, p@),
{
    let mut end: usize = s.len();
    assert(s@.take(end as int) =~= s@);
    while p.len() <= end && occurs_at_exec(s, p.as_slice(), end - p.len())
        invariant
            end <= s.len(),
            p@.len() > 0,
            strip_all_suffix(s@, p@) == strip_all_suffix(s@.take(end as int), p@),
        decreases end,
    {
        proof {
            let t = s@.take(end as int);
            assert(t.subrange(t.len() - p@.len(), t.len() as int) =~= s@.subrange(
                end - p@.len(),
                end as int,
            ));
            assert(t.take(t.len() - p@.len()) =~= s@.take(end - p@.len()));
        }
        end = end - p.len();
    }
    proof {
        let t = s@.take(end as int);
        if ends_with(t, p@) {
            assert(t.subrange(t.len() - p@.len(), t.len() as int) =~= s@.subrange(
                end - p@.len(),
                end as int,
            ));
        }
    }
    slice_of(s, 0, end)
}

fn ws_tokens_exec(s: &Vec<char>) -> (r: Vec<Vec<char>>)
    ensures
        r@.map_values(|x: Vec<char>| x@) == ws_tokens(s@),
{
    let mut r: Vec<Vec<char>> = Vec::new();
    let mut i: usize = 0;
    while i < s.len()
        invariant
            i <= s.len(),
            r@.map_values(|x: Vec<char>| x@) == ws_tokens(s@.take(i as int)),
            i > 0 && !is_ws(s@[i - 1]) ==> r@.len() > 0,
        decreases s.len() - i,
    {
        let ghost prev = r@.map_values(|x: Vec<char>| x@);
        assert(s@.take(i + 1).drop_last() =~= s@.take(i as int));
        let c = s[i];
        if is_whitespace(c) {
        } else if i > 0 && !is_whitespace(s[i - 1]) {
            let n = r.len();
            let mut last = r.pop().unwrap();
            last.push(c);
            r.push(last);
            proof {
                assert(s@.take(i as int).last() == s@[i - 1]);
                assert(r@.map_values(|x: Vec<char>| x@) =~= prev.drop_last().push(
                    prev.last().push(c),
                ));
            }
        } else {
            let mut t = Vec::new();
            t.push(c);
            r.push(t);
            proof {
                assert(i > 0 ==> s@.take(i as int).last() == s@[i - 1]);
                assert(r@.map_values(|x: Vec<char>| x@) =~= prev.push(seq![c]));
            }
        }
        i = i + 1;
    }
    assert(s@.take(i as int) =~= s@);
    r
}

proof fn lemma_lines_ok(ls: Seq<Seq<char>>, i: int)
    requires
        0 <= i < ls.len(),
    ensures
        ls.take(i + 1).drop_last() == ls.take(i),
        ls.take(i + 1).last() == ls[i],
{
    assert(ls.take(i + 1).drop_last() =~= ls.take(i));
}

impl GitProjectRepository {

    /// The file that stores worktree metadata.
    pub fn get_metadata_path() -> (r: String)
        ensures
            r@ == seq!['.', 'w', 'o', 'r', 'k', 't', 'r', 'e', 'e', '.', 'j', 's', 'o', 'n'],
    {
        let v = vec!['.', 'w', 'o', 'r', 'k', 't', 'r', 'e', 'e', '.', 'j', 's', 'o', 'n'];
        string_of(v.as_slice())
    }

    /// The project root (the directory that holds `.bare`) from the output
    /// of `git rev-parse --path-format=absolute --git-common-dir`: the
    /// parent of the trimmed path, `None` when it has none.
    pub fn get_project_root_path(common_dir_output: &str) -> (r: Option<String>)
        ensures
            opt_view(r) == path_parent(trim(common_dir_output@)),
    {
        let t = trim_chars(&chars_of(common_dir_output));
        let ts = string_of(t.as_slice());
        path_parent_exec(ts.as_str())
    }

    /// The project context from the names of the entries of a directory:
    /// Kotlin Multiplatform / Android when one of them is a Gradle or
    /// `local.properties` file.
    pub fn detect_context(entry_names: &Vec<String>) -> (r: ProjectContext)
        ensures
            (r == ProjectContext::KmpAndroid) == (exists|i: int|
                0 <= i < entry_names@.len() && kmp_indicators().contains(
                    #[trigger] entry_names@[i]@,
                )),
    {
        let ind: Vec<Vec<char>> = vec![
            vec!['b', 'u', 'i', 'l', 'd', '.', 'g', 'r', 'a', 'd', 'l', 'e'],
            vec!['b', 'u', 'i', 'l', 'd', '.', 'g', 'r', 'a', 'd', 'l', 'e', '.', 'k', 't', 's'],
            vec!['s', 'e', 't', 't', 'i', 'n', 'g', 's', '.', 'g', 'r', 'a', 'd', 'l', 'e'],
            vec![
                's', 'e', 't', 't', 'i', 'n', 'g', 's', '.', 'g', 'r', 'a', 'd', 'l', 'e', '.', 'k',
                't', 's',
            ],
            vec!['l', 'o', 'c', 'a', 'l', '.', 'p', 'r', 'o', 'p', 'e', 'r', 't', 'i', 'e', 's'],
        ];
        assert(ind@.map_values(|x: Vec<char>| x@) =~= kmp_indicators());
        let mut i: usize = 0;
        while i < entry_names.len()
            invariant
                i <= entry_names@.len(),
                ind@.map_values(|x: Vec<char>| x@) == kmp_indicators(),
                forall|j: int| 0 <= j < i ==> !kmp_indicators().contains(#[trigger] entry_names@[j]@),
            decreases entry_names.len() - i,
        {
            let name = chars_of(entry_names[i].as_str());
            if in_seen(&ind, &name) {
                return ProjectContext::KmpAndroid;
            }
            i = i + 1;
        }
        ProjectContext::Standard
    }

    /// The worktree directory named by the content of a `gitdir` file:
    /// trimmed, with trailing `/.git` removed.
    pub fn gitdir_target(content: &str) -> (r: String)
        ensures
            r@ == gitdir_target_of(content@),
    {
        let t = trim_chars(&chars_of(content));
        let suffix = vec!['/', '.', 'g', 'i', 't'];
        assert(suffix@ =~= dot_git_suffix());
        let r = strip_all_suffix_exec(&t, &suffix);
        string_of(r.as_slice())
    }

    /// Names of the administrative entries that are stale: no readable
    /// `gitdir`, a missing target directory, or a target that git does not
    /// list as a worktree.
    pub fn stale_worktrees(entries: &Vec<AdminEntry>, valid_paths: &Vec<String>) -> (r: Vec<String>)
        ensures
            strings_view(r@) == stale_names(entries@, strings_view(valid_paths@)),
    {
        let mut valid: Vec<Vec<char>> = Vec::new();
        let mut k: usize = 0;
        while k < valid_paths.len()
            invariant
                k <= valid_paths@.len(),
                valid@.map_values(|x: Vec<char>| x@) == strings_view(valid_paths@.take(k as int)),
            decreases valid_paths.len() - k,
        {
            let ghost prev = valid@.map_values(|x: Vec<char>| x@);
            let c = chars_of(valid_paths[k].as_str());
            valid.push(c);
            assert(valid@.map_values(|x: Vec<char>| x@) =~= prev.push(c@));
            assert(valid_paths@.take(k + 1) =~= valid_paths@.take(k as int).push(valid_paths@[k as int]));
            assert(valid@.map_values(|x: Vec<char>| x@) =~= strings_view(
                valid_paths@.take(k + 1),
            ));
            k = k + 1;
        }
        assert(valid_paths@.take(k as int) =~= valid_paths@);
        let ghost vv = strings_view(valid_paths@);
        let mut r: Vec<String> = Vec::new();
        let mut i: usize = 0;
        while i < entries.len()
            invariant
                i <= entries@.len(),
                valid@.map_values(|x: Vec<char>| x@) == vv,
                strings_view(r@) == stale_names(entries@.take(i as int), vv),
            decreases entries.len() - i,
        {
            assert(entries@.take(i + 1).drop_last() =~= entries@.take(i as int));
            let e = &entries[i];
            let stale = match &e.gitdir {
                GitdirState::Missing => true,
                GitdirState::Unreadable => true,
                GitdirState::Points { target, target_exists } => !*target_exists || !in_seen(
                    &valid,
                    &chars_of(target.as_str()),
                ),
            };
            if stale {
                let ghost prev = r@;
                r.push(e.name.clone());
                assert(strings_view(r@) =~= strings_view(prev).push(e.name@));
            }
            i = i + 1;
        }
        assert(entries@.take(i as int) =~= entries@);
        r
    }

    /// Name of the hub directory created by a conversion: the given name,
    /// or the repository's directory name (`project` when it has none)
    /// followed by `-hub`.
    pub fn hub_name(name: Option<String>, current_dir: &str) -> (r: String)
        ensures
            r@ == match name {
                Some(n) => n@,
                None => match path_file_name(current_dir@) {
                    Some(p) => p + hub_suffix(),
                    None => project_word() + hub_suffix(),
                },
            },
    {
        match name {
            Some(n) => n,
            None => {
                let base = match path_file_name_exec(current_dir) {
                    Some(p) => chars_of(p.as_str()),
                    None => {
                        let v = vec!['p', 'r', 'o', 'j', 'e', 'c', 't'];
                        assert(v@ =~= project_word());
                        v
                    },
                };
                let mut v = base;
                let suffix = vec!['-', 'h', 'u', 'b'];
                assert(suffix@ =~= hub_suffix());
                append(&mut v, suffix.as_slice());
                string_of(v.as_slice())
            },
        }
    }

    /// Classifies a directory (see `repo_status_of`).
    pub fn check_status(
        has_bare_dir: bool,
        common_dir: Option<String>,
        inside_work_tree: Option<String>,
        has_git_entry: bool,
    ) -> (r: RepoStatus)
        ensures
            r == repo_status_of(
                has_bare_dir,
                opt_view(common_dir),
                opt_view(inside_work_tree),
                has_git_entry,
            ),
    {
        if has_bare_dir {
            return RepoStatus::BareHub;
        }
        if let Some(c) = &common_dir {
            let t = trim_chars(&chars_of(c.as_str()));
            let suffix = vec!['.', 'b', 'a', 'r', 'e'];
            assert(suffix@ =~= bare_suffix());
            if ends_with_chars(&t, suffix.as_slice()) {
                return RepoStatus::BareHub;
            }
        }
        if let Some(w) = &inside_work_tree {
            let t = trim_chars(&chars_of(w.as_str()));
            let tw = vec!['t', 'r', 'u', 'e'];
            assert(tw@ =~= true_word());
            if chars_eq(&t, &tw) {
                return RepoStatus::StandardGit;
            }
        }
        if has_git_entry {
            return RepoStatus::StandardGit;
        }
        RepoStatus::NoRepo
    }

    /// Whether a batch of changed paths calls for a rescan: some path is
    /// not a git lock file (`index.lock` / `HEAD.lock` under `.git` or
    /// `.bare`).
    pub fn is_meaningful_change(paths: &Vec<String>) -> (r: bool)
        ensures
            r == exists|i: int| 0 <= i < paths@.len() && path_is_meaningful(#[trigger] paths@[i]@),
    {
        let g = vec!['.', 'g', 'i', 't'];
        let b = vec!['.', 'b', 'a', 'r', 'e'];
        let li = vec!['i', 'n', 'd', 'e', 'x', '.', 'l', 'o', 'c', 'k'];
        let lh = vec!['H', 'E', 'A', 'D', '.', 'l', 'o', 'c', 'k'];
        assert(g@ =~= dot_git());
        assert(b@ =~= dot_bare());
        assert(li@ =~= lock_index());
        assert(lh@ =~= lock_head());
        let mut i: usize = 0;
        while i < paths.len()
            invariant
                i <= paths@.len(),
                g@ == dot_git() && b@ == dot_bare() && li@ == lock_index() && lh@ == lock_head(),
                forall|j: int| 0 <= j < i ==> !path_is_meaningful(#[trigger] paths@[j]@),
            decreases paths.len() - i,
        {
            let p = chars_of(paths[i].as_str());
            let gitish = contains_chars(&p, g.as_slice()) || contains_chars(&p, b.as_slice());
            let lock = contains_chars(&p, li.as_slice()) || contains_chars(&p, lh.as_slice());
            if !(gitish && lock) {
                return true;
            }
            i = i + 1;
        }
        false
    }

    /// Parses a `.worktrees.sync` manifest into (action, source) entries.
    pub fn parse_sync_manifest(content: &str) -> (r: Vec<SyncEntry>)
        ensures
            r@.map_values(|e: SyncEntry| (e.action@, e.source@)) == sync_entries_of(
                lines_of(content@),
            ),
    {
        let text = chars_of(content);
        let ls = lines(&text);
        let ghost spec_ls = lines_of(content@);
        let mut r: Vec<SyncEntry> = Vec::new();
        let mut i: usize = 0;
        while i < ls.len()
            invariant
                i <= ls@.len() == spec_ls.len(),
                forall|j: int| 0 <= j < ls@.len() ==> #[trigger] ls@[j]@ == spec_ls[j],
                r@.map_values(|e: SyncEntry| (e.action@, e.source@)) == sync_entries_of(
                    spec_ls.take(i as int),
                ),
            decreases ls.len() - i,
        {
            proof {
                lemma_lines_ok(spec_ls, i as int);
            }
            let t = trim_chars(&ls[i]);
            if t.len() > 0 && t[0] != '#' {
                let parts = ws_tokens_exec(&t);
                if parts.len() >= 2 {
                    let ghost prev = r@.map_values(|e: SyncEntry| (e.action@, e.source@));
                    let e = SyncEntry {
                        action: string_of(parts[0].as_slice()),
                        source: string_of(parts[1].as_slice()),
                    };
                    r.push(e);
                    proof {
                        let pv = parts@.map_values(|x: Vec<char>| x@);
                        assert(pv[0] == parts@[0]@ && pv[1] == parts@[1]@);
                        assert(r@.map_values(|e: SyncEntry| (e.action@, e.source@)) =~= prev.push(
                            (pv[0], pv[1]),
                        ));
                    }
                }
            }
            i = i + 1;
        }
        assert(spec_ls.take(i as int) =~= spec_ls);
        r
    }

    /// Gives each worktree the metadata of the first entry keyed by its
    /// branch; the rest of each worktree is unchanged.
    pub fn attach_metadata(worktrees: Vec<Worktree>, entries: &Vec<(String, WorktreeMetadata)>) -> (r: Vec<Worktree>)
        ensures
            r@.len() == worktrees@.len(),
            forall|i: int|
                0 <= i < r@.len() ==> {
                    let w = #[trigger] r@[i]@;
                    let o = worktrees@[i]@;
                    &&& w.metadata == match metadata_for(
                        o.branch,
                        entries@.map_values(|e: (String, WorktreeMetadata)| (e.0@, e.1@)),
                    ) {
                        Some(m) => Some(m),
                        None => o.metadata,
                    }
                    &&& w == (WorktreeView { metadata: w.metadata, ..o })
                },
    {
        let ghost ev = entries@.map_values(|e: (String, WorktreeMetadata)| (e.0@, e.1@));
        let mut r: Vec<Worktree> = Vec::new();
        let mut ws = worktrees;
        let ghost orig = ws@;
        let mut i: usize = 0;
        // Take the worktrees in order.
        let mut rev: Vec<Worktree> = Vec::new();
        while ws.len() > 0
            invariant
                rev@.len() + ws@.len() == orig.len(),
                forall|j: int| 0 <= j < ws@.len() ==> #[trigger] ws@[j] == orig[j],
                forall|j: int| 0 <= j < rev@.len() ==> #[trigger] rev@[j] == orig[orig.len() - 1 - j],
            decreases ws.len(),
        {
            let w = ws.pop().unwrap();
            rev.push(w);
        }
        while rev.len() > 0
            invariant
                r@.len() + rev@.len() == orig.len(),
                forall|j: int| 0 <= j < rev@.len() ==> #[trigger] rev@[j] == orig[orig.len() - 1 - j],
                ev == entries@.map_values(|e: (String, WorktreeMetadata)| (e.0@, e.1@)),
                forall|j: int|
                    0 <= j < r@.len() ==> {
                        let w = #[trigger] r@[j]@;
                        let o = orig[j]@;
                        &&& w.metadata == match metadata_for(o.branch, ev) {
                            Some(m) => Some(m),
                            None => o.metadata,
                        }
                        &&& w == (WorktreeView { metadata: w.metadata, ..o })
                    },
            decreases rev.len(),
        {
            let mut w = rev.pop().unwrap();
            let ghost o = w@;
            let branch = chars_of(w.branch.as_str());
            let mut k: usize = 0;
            let mut found = false;
            assert(ev.skip(0) =~= ev);
            while k < entries.len() && !found
                invariant
                    k <= entries@.len(),
                    ev == entries@.map_values(|e: (String, WorktreeMetadata)| (e.0@, e.1@)),
                    branch@ == o.branch,
                    !found ==> metadata_for(o.branch, ev) == metadata_for(o.branch, ev.skip(k as int)),
                    !found ==> w@ == o,
                    found ==> w@ == (WorktreeView { metadata: metadata_for(o.branch, ev), ..o }),
                    found ==> metadata_for(o.branch, ev).is_some(),
                decreases entries.len() - k + (if found { 0int } else { 1int }),
            {
                assert(ev.skip(k as int)[0] == ev[k as int]);
                assert(ev.skip(k as int).drop_first() =~= ev.skip(k + 1));
                let key = chars_of(entries[k].0.as_str());
                if chars_eq(&key, &branch) {
                    w.metadata = Some(entries[k].1.copy());
                    found = true;
                } else {
                    k = k + 1;
                }
            }
            proof {
                if !found {
                    assert(ev.skip(k as int) =~= Seq::<(Seq<char>, WorktreeMetadataView)>::empty());
                }
            }
            r.push(w);
        }
        r
    }

    /// Parses `git worktree list --porcelain` output: one worktree per
    /// non-empty block, with size 0 and no status summary or metadata.
    pub fn parse_worktree_list(output: &str) -> (r: Vec<Worktree>)
        ensures
            worktrees_view(r@) == worktree_list_of(output@),
    {
        let text = chars_of(output);
        let blocks = split_blank_lines(&text);
        let ghost bv = blocks@.map_values(|x: Vec<char>| x@);
        let mut r: Vec<Worktree> = Vec::new();
        let mut i: usize = 0;
        while i < blocks.len()
            invariant
                i <= blocks.len(),
                bv == blocks@.map_values(|x: Vec<char>| x@),
                bv == split_pat(output@, blank_line_sep()),
                worktrees_view(r@) == worktrees_of_blocks(bv.take(i as int)),
            decreases blocks.len() - i,
        {
            assert(bv.take(i + 1).drop_last() =~= bv.take(i as int));
            assert(bv.take(i + 1).last() == blocks@[i as int]@);
            let block = &blocks[i];
            if block.len() > 0 {
                let ls = lines(block);
                let ghost spec_ls = lines_of(block@);
                let mut w = new_worktree();
                let mut k: usize = 0;
                while k < ls.len()
                    invariant
                        k <= ls@.len() == spec_ls.len(),
                        forall|j: int| 0 <= j < ls@.len() ==> #[trigger] ls@[j]@ == spec_ls[j],
                        w@ == worktree_of_lines(spec_ls.take(k as int)),
                    decreases ls.len() - k,
                {
                    proof {
                        lemma_lines_ok(spec_ls, k as int);
                    }
                    apply_worktree_line_exec(&mut w, &ls[k]);
                    k = k + 1;
                }
                assert(spec_ls.take(k as int) =~= spec_ls);
                let ghost prev = r@;
                r.push(w);
                assert(worktrees_view(r@) =~= worktrees_view(prev).push(
                    worktree_of_lines(spec_ls),
                ));
            }
            i = i + 1;
        }
        assert(bv.take(i as int) =~= bv);
        r
    }

    /// Summarizes `git status --porcelain` output as `+staged ~unstaged
    /// ?untracked` (zero counts left out), or `clean`.
    pub fn get_status_summary(output: &str) -> (r: String)
        requires
            forall|i: int|
                0 <= i < lines_of(output@).len() ==> sliceable(
                    #[trigger] lines_of(output@)[i],
                    2,
                    2,
                ),
        ensures
            r@ == status_summary_of(output@),
    {
        let text = chars_of(output);
        if trim_chars(&text).len() == 0 {
            return string_of(clean_chars().as_slice());
        }
        let ls = lines(&text);
        let ghost spec_ls = lines_of(output@);
        let mut staged: usize = 0;
        let mut unstaged: usize = 0;
        let mut untracked: usize = 0;
        let mut i: usize = 0;
        while i < ls.len()
            invariant
                i <= ls@.len() == spec_ls.len(),
                forall|j: int| 0 <= j < ls@.len() ==> #[trigger] ls@[j]@ == spec_ls[j],
                forall|j: int| 0 <= j < spec_ls.len() ==> sliceable(#[trigger] spec_ls[j], 2, 2),
                staged <= i && unstaged <= i && untracked <= i,
                summary_counts(spec_ls.take(i as int)) == (
                    staged as nat,
                    unstaged as nat,
                    untracked as nat,
                ),
            decreases ls.len() - i,
        {
            proof {
                lemma_lines_ok(spec_ls, i as int);
            }
            let l = &ls[i];
            assert(l@ == spec_ls[i as int]);
            let n = byte_len_upto(l, 2);
            if n >= 2 {
                let k = chars_in_bytes_exec(l, 2);
                match k {
                    None => {
                        assert(false);
                    },
                    Some(k) => {
                        let c = slice_of(l, 0, k);
                        assert(c@ =~= status_code(l@));
                        if is_staged_code_exec(&c) {
                            staged = staged + 1;
                        } else if is_code(&c, '?', '?') {
                            untracked = untracked + 1;
                        } else if is_code(&c, 'M', 'M') || is_code(&c, 'M', 'D') {
                            staged = staged + 1;
                            unstaged = unstaged + 1;
                        } else {
                            unstaged = unstaged + 1;
                        }
                    },
                }
            }
            i = i + 1;
        }
        assert(spec_ls.take(i as int) =~= spec_ls);
        let mut parts: Vec<Vec<char>> = Vec::new();
        if staged > 0 {
            parts.push(counted_part('+', staged));
        }
        if unstaged > 0 {
            parts.push(counted_part('~', unstaged));
        }
        if untracked > 0 {
            parts.push(counted_part('?', untracked));
        }
        assert(parts@.map_values(|x: Vec<char>| x@) =~= summary_parts(
            staged as nat,
            unstaged as nat,
            untracked as nat,
        ));
        if parts.len() == 0 {
            return string_of(clean_chars().as_slice());
        }
        let j = join_with_spaces(&parts);
        string_of(j.as_slice())
    }

    /// Parses `git status --porcelain` output into staged, unstaged and
    /// untracked entries.
    pub fn parse_status(output: &str) -> (r: GitStatus)
        requires
            forall|i: int|
                0 <= i < lines_of(output@).len() ==> sliceable(
                    #[trigger] lines_of(output@)[i],
                    4,
                    2,
                ) && sliceable(lines_of(output@)[i], 4, 3),
        ensures
            r@ == status_of(lines_of(output@)),
    {
        let text = chars_of(output);
        let ls = lines(&text);
        let ghost spec_ls = lines_of(output@);
        let mut st = GitStatus { staged: Vec::new(), unstaged: Vec::new(), untracked: Vec::new() };
        assert(spec_ls.take(0) =~= Seq::<Seq<char>>::empty());
        assert(st@ =~= status_of(spec_ls.take(0)));
        let mut i: usize = 0;
        while i < ls.len()
            invariant
                i <= ls@.len() == spec_ls.len(),
                forall|j: int| 0 <= j < ls@.len() ==> #[trigger] ls@[j]@ == spec_ls[j],
                forall|j: int|
                    0 <= j < spec_ls.len() ==> sliceable(#[trigger] spec_ls[j], 4, 2) && sliceable(
                        spec_ls[j],
                        4,
                        3,
                    ),
                st@ == status_of(spec_ls.take(i as int)),
            decreases ls.len() - i,
        {
            proof {
                lemma_lines_ok(spec_ls, i as int);
            }
            let l = &ls[i];
            assert(l@ == spec_ls[i as int]);
            let ghost before = st@;
            let n = byte_len_upto(l, 4);
            if n >= 4 {
                let k2 = chars_in_bytes_exec(l, 2);
                let k3 = chars_in_bytes_exec(l, 3);
                match (k2, k3) {
                    (Some(k2), Some(k3)) => {
                        let c = slice_of(l, 0, k2);
                        let f = slice_of(l, k3, l.len());
                        assert(c@ =~= status_code(l@));
                        assert(f@ =~= status_path(l@));
                        let cs = string_of(c.as_slice());
                        let fs = string_of(f.as_slice());
                        if is_staged_code_exec(&c) {
                            st.staged.push((fs, cs));
                            assert(pairs_view(st.staged@) =~= before.staged.push((f@, c@)));
                        } else if is_code(&c, ' ', 'M') || is_code(&c, ' ', 'D') {
                            st.unstaged.push((fs, cs));
                            assert(pairs_view(st.unstaged@) =~= before.unstaged.push((f@, c@)));
                        } else if is_code(&c, '?', '?') {
                            st.untracked.push(fs);
                            assert(strings_view(st.untracked@) =~= before.untracked.push(f@));
                        } else if is_code(&c, 'M', 'M') || is_code(&c, 'M', 'D') {
                            let second = if is_code(&c, 'M', 'M') {
                                vec![' ', 'M']
                            } else {
                                vec![' ', 'D']
                            };
                            let first = vec!['M', ' '];
                            assert(first@ =~= code('M', ' '));
                            assert(c@ == code('M', 'M') ==> second@ =~= code(' ', 'M'));
                            assert(c@ != code('M', 'M') ==> second@ =~= code(' ', 'D'));
                            let fs2 = string_of(f.as_slice());
                            st.staged.push((fs, string_of(first.as_slice())));
                            st.unstaged.push((fs2, string_of(second.as_slice())));
                            assert(pairs_view(st.staged@) =~= before.staged.push((f@, first@)));
                            assert(pairs_view(st.unstaged@) =~= before.unstaged.push(
                                (f@, second@),
                            ));
                        }
                    },
                    _ => {
                        assert(false);
                    },
                }
            }
            i = i + 1;
            assert(st@ =~= status_of(spec_ls.take(i as int)));
        }
        assert(spec_ls.take(i as int) =~= spec_ls);
        st
    }
    /// Parses `git log --pretty=format:%h|%an|%ad|%s` output into commits.
    /// A line with fewer than three `|` is skipped; the message keeps any
    /// further `|`.
    pub fn parse_git_history(output: &str) -> (r: Vec<GitCommit>)
        ensures
            commits_view(r@) == history_of(lines_of(output@)),
    {
        let text = chars_of(output);
        let ls = lines(&text);
        let ghost spec_ls = lines_of(output@);
        let mut r: Vec<GitCommit> = Vec::new();
        let mut i: usize = 0;
        while i < ls.len()
            invariant
                i <= ls@.len() == spec_ls.len(),
                forall|j: int| 0 <= j < ls@.len() ==> #[trigger] ls@[j]@ == spec_ls[j],
                commits_view(r@) == history_of(spec_ls.take(i as int)),
            decreases ls.len() - i,
        {
            proof {
                lemma_lines_ok(spec_ls, i as int);
            }
            let line = &ls[i];
            let ghost l = line@;
            assert(l == spec_ls[i as int]);
            match find_char_exec(line, '|') {
                None => {},
                Some(a) => {
                    let r1 = slice_of(line, a + 1, line.len());
                    assert(r1@ =~= l.skip(a + 1));
                    match find_char_exec(&r1, '|') {
                        None => {},
                        Some(b) => {
                            let r2 = slice_of(&r1, b + 1, r1.len());
                            assert(r2@ =~= r1@.skip(b + 1));
                            match find_char_exec(&r2, '|') {
                                None => {},
                                Some(c) => {
                                    let hash = slice_of(line, 0, a);
                                    let author = slice_of(&r1, 0, b);
                                    let date = slice_of(&r2, 0, c);
                                    let message = slice_of(&r2, c + 1, r2.len());
                                    assert(hash@ =~= l.take(a as int));
                                    assert(author@ =~= r1@.take(b as int));
                                    assert(date@ =~= r2@.take(c as int));
                                    assert(message@ =~= r2@.skip(c + 1));
                                    let commit = GitCommit {
                                        hash: string_of(hash.as_slice()),
                                        author: string_of(author.as_slice()),
                                        date: string_of(date.as_slice()),
                                        message: string_of(message.as_slice()),
                                        graph: String::new(),
                                    };
                                    let ghost prev = r@;
                                    r.push(commit);
                                    assert(commits_view(r@) =~= commits_view(prev).push(
                                        commit_of_line(l).unwrap(),
                                    ));
                                },
                            }
                        },
                    }
                },
            }
            i = i + 1;
        }
        assert(spec_ls.take(i as int) =~= spec_ls);
        r
    }

    /// Parses `git branch -a --format=%(refname:short)` output: local
    /// branches first, then remote branches under `origin/` whose name is
    /// not yet listed; `origin/HEAD` and empty lines are skipped; the
    /// result is sorted.
    pub fn parse_branches(output: &str) -> (r: Vec<String>)
        ensures
            sorted_lex(strings_view(r@)),
            strings_view(r@).to_multiset() == branch_candidates(output@).to_multiset(),
    {
        let text = chars_of(output);
        let ls = lines(&text);
        let ghost spec_ls = lines_of(output@);
        let head = vec_of_str("origin/HEAD");
        let prefix = vec_of_str("origin/");
        proof {
            reveal_strlit("origin/HEAD");
            reveal_strlit("origin/");
            assert(head@ =~= origin_head());
            assert(prefix@ =~= remote_prefix());
        }
        let mut branches: Vec<Vec<char>> = Vec::new();
        // 1. Local branches.
        let mut i: usize = 0;
        while i < ls.len()
            invariant
                i <= ls@.len() == spec_ls.len(),
                forall|j: int| 0 <= j < ls@.len() ==> #[trigger] ls@[j]@ == spec_ls[j],
                head@ == origin_head(),
                prefix@ == remote_prefix(),
                branches@.map_values(|x: Vec<char>| x@) == local_branches(spec_ls.take(i as int)),
            decreases ls.len() - i,
        {
            proof {
                lemma_lines_ok(spec_ls, i as int);
            }
            let t = trim_chars(&ls[i]);
            if !(t.len() == 0 || contains_chars(&t, head.as_slice())) && !starts_with_chars(
                &t,
                prefix.as_slice(),
            ) {
                let ghost prev = branches@;
                branches.push(t);
                assert(branches@.map_values(|x: Vec<char>| x@) =~= prev.map_values(
                    |x: Vec<char>| x@,
                ).push(trim(spec_ls[i as int])));
            }
            i = i + 1;
        }
        assert(spec_ls.take(i as int) =~= spec_ls);
        let ghost locals = local_branches(spec_ls);
        // 2. Remote branches not yet seen.
        let mut seen: Vec<Vec<char>> = Vec::new();
        let mut k: usize = 0;
        while k < branches.len()
            invariant
                k <= branches@.len(),
                seen@.map_values(|x: Vec<char>| x@) == branches@.map_values(|x: Vec<char>| x@).take(
                    k as int,
                ),
            decreases branches.len() - k,
        {
            let ghost prev = seen@;
            let ghost bv = branches@.map_values(|x: Vec<char>| x@);
            let c = branches[k].clone();
            assert(c@ == bv[k as int]);
            seen.push(c);
            assert(seen@.map_values(|x: Vec<char>| x@) =~= prev.map_values(|x: Vec<char>| x@).push(
                c@,
            ));
            assert(bv.take(k + 1) =~= bv.take(k as int).push(bv[k as int]));
            k = k + 1;
        }
        assert(branches@.map_values(|x: Vec<char>| x@).take(k as int) =~= locals);
        let ghost n_local = branches@.len();
        let mut i: usize = 0;
        assert(spec_ls.skip(0) =~= spec_ls);
        while i < ls.len()
            invariant
                i <= ls@.len() == spec_ls.len(),
                forall|j: int| 0 <= j < ls@.len() ==> #[trigger] ls@[j]@ == spec_ls[j],
                head@ == origin_head(),
                prefix@ == remote_prefix(),
                branches@.map_values(|x: Vec<char>| x@) + fresh_remote_branches(
                    spec_ls.skip(i as int),
                    seen@.map_values(|x: Vec<char>| x@).to_set(),
                ) == locals + fresh_remote_branches(spec_ls, locals.to_set()),
            decreases ls.len() - i,
        {
            let ghost sk = spec_ls.skip(i as int);
            assert(sk[0] == spec_ls[i as int]);
            assert(sk.drop_first() =~= spec_ls.skip(i + 1));
            let t = trim_chars(&ls[i]);
            if !(t.len() == 0 || contains_chars(&t, head.as_slice())) && starts_with_chars(
                &t,
                prefix.as_slice(),
            ) {
                let name = slice_of(&t, 7, t.len());
                assert(name@ =~= t@.skip(7));
                if !in_seen(&seen, &name) {
                    let ghost pb = branches@.map_values(|x: Vec<char>| x@);
                    let ghost ps = seen@.map_values(|x: Vec<char>| x@);
                    seen.push(name.clone());
                    branches.push(name);
                    proof {
                        assert(seen@.map_values(|x: Vec<char>| x@) =~= ps.push(t@.skip(7)));
                        assert(ps.push(t@.skip(7)).to_set() =~= ps.to_set().insert(t@.skip(7)))
                            by {
                            broadcast use vstd::seq_lib::group_seq_properties;

                        }
                        assert(branches@.map_values(|x: Vec<char>| x@) =~= pb.push(t@.skip(7)));
                        assert(pb.push(t@.skip(7)) + fresh_remote_branches(
                            spec_ls.skip(i + 1),
                            ps.to_set().insert(t@.skip(7)),
                        ) =~= pb + (seq![t@.skip(7)] + fresh_remote_branches(
                            spec_ls.skip(i + 1),
                            ps.to_set().insert(t@.skip(7)),
                        )));
                    }
                } else {
                    proof {
                        broadcast use vstd::seq_lib::group_seq_properties;

                    }
                }
            }
            i = i + 1;
        }
        assert(spec_ls.skip(i as int) =~= Seq::<Seq<char>>::empty());
        assert(branches@.map_values(|x: Vec<char>| x@) =~= branch_candidates(output@));
        // 3. Sort.
        let sorted = sort_lex(branches);
        strings_from(&sorted)
    }
}


/// Whether every line of `ls` can be sliced as `sliceable(line, min, k)`.
fn lines_sliceable(ls: &Vec<Vec<char>>, min: usize, k: usize) -> (b: bool)
    requires
        min < 0x1000,
        k < 0x1000,
    ensures
        b == (forall|i: int| 0 <= i < ls@.len() ==> sliceable(#[trigger] ls@[i]@, min as int, k as int)),
{
    let mut i: usize = 0;
    while i < ls.len()
        invariant
            i <= ls@.len(),
            min < 0x1000,
            k < 0x1000,
            forall|j: int| 0 <= j < i ==> sliceable(#[trigger] ls@[j]@, min as int, k as int),
        decreases ls.len() - i,
    {
        let n = byte_len_upto(&ls[i], min);
        if n >= min && chars_in_bytes_exec(&ls[i], k).is_none() {
            assert(!sliceable(ls@[i as int]@, min as int, k as int));
            return false;
        }
        i = i + 1;
    }
    true
}

/// Whether `get_status_summary` can read `output`: every line shorter than
/// two bytes or with a character boundary at byte 2.
pub fn summary_input_ok(output: &str) -> (b: bool)
    ensures
        b == (forall|i: int|
            0 <= i < lines_of(output@).len() ==> sliceable(#[trigger] lines_of(output@)[i], 2, 2)),
{
    let ls = lines(&chars_of(output));
    let b = lines_sliceable(&ls, 2, 2);
    proof {
        if b {
            assert forall|i: int| 0 <= i < lines_of(output@).len() implies sliceable(
                #[trigger] lines_of(output@)[i],
                2,
                2,
            ) by {
                assert(ls@[i]@ == lines_of(output@)[i]);
            }
        } else {
            let j = choose|j: int| 0 <= j < ls@.len() && !sliceable(#[trigger] ls@[j]@, 2, 2);
            assert(ls@[j]@ == lines_of(output@)[j]);
        }
    }
    b
}

/// Whether `parse_status` can read `output`: every line shorter than four
/// bytes or with character boundaries at bytes 2 and 3.
pub fn status_input_ok(output: &str) -> (b: bool)
    ensures
        b == (forall|i: int|
            0 <= i < lines_of(output@).len() ==> sliceable(#[trigger] lines_of(output@)[i], 4, 2)
                && sliceable(lines_of(output@)[i], 4, 3)),
{
    let ls = lines(&chars_of(output));
    let b2 = lines_sliceable(&ls, 4, 2);
    let b3 = lines_sliceable(&ls, 4, 3);
    proof {
        if b2 && b3 {
            assert forall|i: int| 0 <= i < lines_of(output@).len() implies sliceable(
                #[trigger] lines_of(output@)[i],
                4,
                2,
            ) && sliceable(lines_of(output@)[i], 4, 3) by {
                assert(ls@[i]@ == lines_of(output@)[i]);
            }
        }
        if !b2 {
            let j = choose|j: int| 0 <= j < ls@.len() && !sliceable(#[trigger] ls@[j]@, 4, 2);
            assert(ls@[j]@ == lines_of(output@)[j]);
        }
        if !b3 {
            let j = choose|j: int| 0 <= j < ls@.len() && !sliceable(#[trigger] ls@[j]@, 4, 3);
            assert(ls@[j]@ == lines_of(output@)[j]);
        }
    }
    b2 && b3
}

/// The stash entries listed by `git stash list --format=%gs`: one per line,
/// numbered in order from 0, on `branch`.
pub fn parse_stash_list(output: &str, branch: &str) -> (r: Vec<StashEntry>)
    ensures
        r@.len() == lines_of(output@).len(),
        forall|i: int|
            0 <= i < r@.len() ==> (#[trigger] r@[i]).index == i && r@[i].message@ == lines_of(
                output@,
            )[i] && r@[i].branch@ == branch@,
{
    let ls = lines(&chars_of(output));
    let mut r: Vec<StashEntry> = Vec::new();
    let mut i: usize = 0;
    while i < ls.len()
        invariant
            i <= ls@.len(),
            ls@.len() == lines_of(output@).len(),
            forall|j: int| 0 <= j < ls@.len() ==> #[trigger] ls@[j]@ == lines_of(output@)[j],
            r@.len() == i,
            forall|j: int|
                0 <= j < i ==> (#[trigger] r@[j]).index == j && r@[j].message@ == lines_of(
                    output@,
                )[j] && r@[j].branch@ == branch@,
        decreases ls.len() - i,
    {
        r.push(StashEntry { index: i, message: string_of(ls[i].as_slice()), branch: String::from_str(branch) });
        i = i + 1;
    }
    r
}


// ---------------------------------------------------------------------------
// Build artifacts
// ---------------------------------------------------------------------------

/// The build-artifact directories that `clean --artifacts` removes.
pub open spec fn artifact_names() -> Seq<Seq<char>> {
    seq!["node_modules"@, "target"@, "build"@, "dist"@, ".gradle"@, "bin"@, "obj"@]
}

/// `Path::join` with a relative name: a separator goes between them unless
/// the path is empty or already ends with one.
pub open spec fn path_join(p: Seq<char>, n: Seq<char>) -> Seq<char> {
    if p.len() == 0 {
        n
    } else if p.last() == '/' {
        p + n
    } else {
        p + seq!['/'] + n
    }
}

/// The artifact directories of one worktree, in the order of `artifact_names`.
pub open spec fn artifacts_of(p: Seq<char>) -> Seq<Seq<char>> {
    artifact_names().map_values(|n: Seq<char>| path_join(p, n))
}

/// The artifact directories to look for: those of every checkout (not the
/// hub) that is not the current directory (`here[i]`), in order.
pub open spec fn artifact_paths(ws: Seq<WorktreeView>, here: Seq<bool>) -> Seq<Seq<char>>
    decreases ws.len(),
{
    if ws.len() == 0 {
        Seq::empty()
    } else {
        let i = ws.len() - 1;
        let rest = artifact_paths(ws.drop_last(), here);
        if ws.last().is_bare || (i < here.len() && here[i]) {
            rest
        } else {
            rest + artifacts_of(ws.last().path)
        }
    }
}

fn path_join_exec(p: &str, n: &str) -> (r: String)
    ensures
        r@ == path_join(p@, n@),
{
    let pc = chars_of(p);
    let nc = chars_of(n);
    let mut v = pc.clone();
    if pc.len() > 0 && pc[pc.len() - 1] != '/' {
        v.push('/');
    }
    append(&mut v, nc.as_slice());
    let r = string_of(v.as_slice());
    proof {
        if pc@.len() == 0 {
            assert(r@ =~= n@);
        } else if pc@.last() == '/' {
            assert(r@ =~= p@ + n@);
        } else {
            assert(r@ =~= p@ + seq!['/'] + n@);
        }
    }
    r
}

/// The build-artifact directories that `clean --artifacts` looks for: for
/// each checkout that is not the current directory (`here[i]` tells whether
/// worktree `i` is), its `node_modules`, `target`, `build`, `dist`,
/// `.gradle`, `bin` and `obj`.
pub fn artifact_candidates(worktrees: &Vec<Worktree>, here: &Vec<bool>) -> (r: Vec<String>)
    ensures
        strings_view(r@) == artifact_paths(worktrees_view(worktrees@), here@),
{
    let names: [&str; 7] = ["node_modules", "target", "build", "dist", ".gradle", "bin", "obj"];
    proof {
        reveal_strlit("node_modules");
        reveal_strlit("target");
        reveal_strlit("build");
        reveal_strlit("dist");
        reveal_strlit(".gradle");
        reveal_strlit("bin");
        reveal_strlit("obj");
    }
    let ghost wv = worktrees_view(worktrees@);
    let mut r: Vec<String> = Vec::new();
    let mut i: usize = 0;
    while i < worktrees.len()
        invariant
            i <= worktrees@.len(),
            wv == worktrees_view(worktrees@),
            names@.len() == 7,
            forall|k: int| 0 <= k < 7 ==> (#[trigger] names@[k])@ == artifact_names()[k],
            strings_view(r@) == artifact_paths(wv.take(i as int), here@),
        decreases worktrees@.len() - i,
    {
        let w = &worktrees[i];
        proof {
            assert(wv.take(i + 1).drop_last() =~= wv.take(i as int));
            assert(wv.take(i + 1).last() == w@);
        }
        let skip = w.is_bare || (i < here.len() && here[i]);
        if !skip {
            let ghost before = strings_view(r@);
            let mut k: usize = 0;
            while k < 7
                invariant
                    k <= 7,
                    names@.len() == 7,
                    forall|j: int| 0 <= j < 7 ==> (#[trigger] names@[j])@ == artifact_names()[j],
                    strings_view(r@) == before + artifacts_of(w.path@).take(k as int),
                decreases 7 - k,
            {
                let q = path_join_exec(w.path.as_str(), names[k]);
                let ghost prev = strings_view(r@);
                r.push(q);
                proof {
                    assert(strings_view(r@) =~= prev.push(q@));
                    assert(artifacts_of(w.path@).take(k + 1) =~= artifacts_of(w.path@).take(
                        k as int,
                    ).push(path_join(w.path@, artifact_names()[k as int])));
                }
                k = k + 1;
            }
            assert(artifacts_of(w.path@).take(7) =~= artifacts_of(w.path@));
        }
        i = i + 1;
    }
    assert(wv.take(i as int) =~= wv);
    r
}

} // verus!
