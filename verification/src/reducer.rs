//! The decisions of the command-line commands: how a project is named,
//! which worktrees a command acts on, and the steps of the commands that
//! chain several repository calls.
use vstd::prelude::*;
use crate::domain::{opt_view, worktrees_view, GitStatus, Worktree, WorktreeView};
use crate::git_repo::{path_file_name, path_file_name_exec, strip_all_suffix, strip_all_suffix_exec};
use crate::handlers::{RepoCall, RepoCallV, RepoReply};
use crate::run_loop::prefixed;
use crate::text::{
    chars_of, contains, contains_chars, ends_with, ends_with_chars, string_of, to_lowercase,
    trim, trim_chars, unicode_lowercase,
};

verus! {

// ---------------------------------------------------------------------------
// Project names
// ---------------------------------------------------------------------------

/// What `std::path::Path::file_stem` returns for a path, as a string.
pub uninterp spec fn path_file_stem(p: Seq<char>) -> Option<Seq<char>>;

/// `std::path::Path::file_stem`, as a string.
#[verifier::external_body]
fn path_file_stem_exec(p: &str) -> (r: Option<String>)
    ensures
        opt_view(r) == path_file_stem(p@),
{
    std::path::Path::new(p).file_stem().map(|q| q.to_string_lossy().to_string())
}

pub open spec fn default_project_name() -> Seq<char> {
    seq!['p', 'r', 'o', 'j', 'e', 'c', 't']
}

/// The name of a project: the given name, else the file stem of the
/// repository URL without trailing slashes, else "project".
pub open spec fn project_name_of(url: Option<Seq<char>>, name: Option<Seq<char>>) -> Seq<char> {
    match name {
        Some(n) => n,
        None => match url {
            Some(u) => match path_file_stem(strip_all_suffix(u, seq!['/'])) {
                Some(s) => s,
                None => default_project_name(),
            },
            None => default_project_name(),
        },
    }
}

fn default_project_name_exec() -> (r: String)
    ensures
        r@ == default_project_name(),
{
    let v: Vec<char> = vec!['p', 'r', 'o', 'j', 'e', 'c', 't'];
    let s = string_of(v.as_slice());
    assert(s@ =~= default_project_name());
    s
}

/// The name of the project that a repository URL (or an explicit name)
/// gives.
pub fn get_project_name(url: Option<&String>, name: Option<String>) -> (r: String)
    ensures
        r@ == project_name_of(
            match url {
                Some(u) => Some(u@),
                None => None,
            },
            opt_view(name),
        ),
{
    match name {
        Some(n) => n,
        None => match url {
            Some(u) => {
                let slash: Vec<char> = vec!['/'];
                assert(slash@ =~= seq!['/']);
                let trimmed = string_of(strip_all_suffix_exec(&chars_of(u.as_str()), &slash).as_slice());
                match path_file_stem_exec(trimmed.as_str()) {
                    Some(s) => s,
                    None => default_project_name_exec(),
                }
            },
            None => default_project_name_exec(),
        },
    }
}

/// The name under which `Open` lays out a project: the last component of
/// its root directory, else "project".
pub open spec fn root_name_of(root: Seq<char>) -> Seq<char> {
    match path_file_name(root) {
        Some(n) => n,
        None => default_project_name(),
    }
}

pub fn root_project_name(root: &str) -> (r: String)
    ensures
        r@ == root_name_of(root@),
{
    match path_file_name_exec(root) {
        Some(n) => n,
        None => default_project_name_exec(),
    }
}

/// The branch of a new worktree: the given branch, else the worktree's name.
pub fn branch_for(intent: &String, branch: Option<String>) -> (r: String)
    ensures
        r@ == (match branch {
            Some(b) => b@,
            None => intent@,
        }),
{
    match branch {
        Some(b) => b,
        None => intent.clone(),
    }
}

/// The branch a rebase goes onto: the given one, else `main`.
pub fn rebase_upstream(upstream: Option<String>) -> (r: String)
    ensures
        r@ == (match upstream {
            Some(u) => u@,
            None => seq!['m', 'a', 'i', 'n'],
        }),
{
    match upstream {
        Some(u) => u,
        None => {
            let v: Vec<char> = vec!['m', 'a', 'i', 'n'];
            let s = string_of(v.as_slice());
            assert(s@ =~= seq!['m', 'a', 'i', 'n']);
            s
        },
    }
}

/// Whether a failed migration suggests `--force`: its message mentions a
/// directory that already exists.
pub fn suggests_force(message: &str) -> (b: bool)
    ensures
        b == contains(message@, "already exists"@),
{
    let needle = chars_of("already exists");
    contains_chars(&chars_of(message), needle.as_slice())
}

// ---------------------------------------------------------------------------
// Which worktrees a command acts on
// ---------------------------------------------------------------------------

/// Whether worktree `w` is the one named `name`: its branch is `name`, or
/// its path ends with `name`.
pub open spec fn named(w: WorktreeView, name: Seq<char>) -> bool {
    w.branch == name || ends_with(w.path, name)
}

/// Whether a configuration sync for `name` (all checkouts when absent)
/// covers `w`.
pub open spec fn sync_covers(w: WorktreeView, name: Option<Seq<char>>) -> bool {
    match name {
        Some(n) => named(w, n),
        None => !w.is_bare,
    }
}

/// The worktrees, in order, that a configuration sync for `name` covers.
pub open spec fn sync_selection(ws: Seq<WorktreeView>, name: Option<Seq<char>>) -> Seq<WorktreeView>
    decreases ws.len(),
{
    if ws.len() == 0 {
        Seq::empty()
    } else {
        let rest = sync_selection(ws.drop_last(), name);
        if sync_covers(ws.last(), name) {
            rest.push(ws.last())
        } else {
            rest
        }
    }
}

fn named_exec(w: &Worktree, name: &String) -> (b: bool)
    ensures
        b == named(w@, name@),
{
    w.branch == *name || ends_with_chars(&chars_of(w.path.as_str()), chars_of(name.as_str()).as_slice())
}

/// The worktrees whose configuration a sync for `name` (all checkouts when
/// absent) updates; an error when there are none.
pub fn sync_targets(worktrees: &Vec<Worktree>, name: Option<&String>) -> (r: Result<
    Vec<Worktree>,
    String,
>)
    ensures
        ({
            let sel = sync_selection(
                worktrees_view(worktrees@),
                match name {
                    Some(n) => Some(n@),
                    None => None,
                },
            );
            match r {
                Ok(v) => sel.len() > 0 && worktrees_view(v@) == sel,
                Err(e) => sel.len() == 0 && e@ == "No matching worktrees found to synchronize."@,
            }
        }),
{
    let ghost nv = match name {
        Some(n) => Some(n@),
        None => None,
    };
    let ghost wv = worktrees_view(worktrees@);
    let mut out: Vec<Worktree> = Vec::new();
    let mut i: usize = 0;
    while i < worktrees.len()
        invariant
            i <= worktrees.len(),
            wv == worktrees_view(worktrees@),
            nv == (match name {
                Some(n) => Some(n@),
                None => None,
            }),
            worktrees_view(out@) == sync_selection(wv.take(i as int), nv),
        decreases worktrees.len() - i,
    {
        let w = &worktrees[i];
        let covers = match name {
            Some(n) => named_exec(w, n),
            None => !w.is_bare,
        };
        proof {
            assert(wv.take(i + 1).drop_last() =~= wv.take(i as int));
            assert(wv.take(i + 1).last() == w@);
        }
        if covers {
            let ghost before = worktrees_view(out@);
            out.push(w.copy());
            assert(worktrees_view(out@) =~= before.push(w@));
        }
        i = i + 1;
    }
    assert(wv.take(i as int) =~= wv);
    if out.len() == 0 {
        Err(String::from_str("No matching worktrees found to synchronize."))
    } else {
        Ok(out)
    }
}

/// The index of the first worktree at or after `i` that is named `name`.
pub open spec fn first_named(ws: Seq<WorktreeView>, name: Seq<char>, i: int) -> Option<int>
    decreases ws.len() - i,
{
    if i >= ws.len() || i < 0 {
        None
    } else if named(ws[i], name) {
        Some(i)
    } else {
        first_named(ws, name, i + 1)
    }
}

/// Push or pull.
#[derive(Debug, Clone, Copy, PartialEq, Eq, Structural)]
pub enum RemoteOp {
    Push,
    Pull,
}

pub open spec fn missing_target_message(op: RemoteOp) -> Seq<char> {
    match op {
        RemoteOp::Push => "Please specify a worktree to push (e.g. 'worktrees push main')."@,
        RemoteOp::Pull => "Please specify a worktree to pull (e.g. 'worktrees pull main')."@,
    }
}

/// The worktree that a push or pull of `name` acts on: the first one named
/// `name`. A push with no name acts on the checkout that the current
/// directory belongs to (`here[i]` tells whether worktree `i` is it).
/// Errors when no name is given and there is no such checkout (or the
/// operation is a pull), or when no worktree has the name.
pub fn remote_target(
    worktrees: &Vec<Worktree>,
    name: Option<&String>,
    here: &Vec<bool>,
    op: RemoteOp,
) -> (r: Result<Worktree, String>)
    ensures
        match name {
            None => match (op, first_current(worktrees_view(worktrees@), here@, 0)) {
                (RemoteOp::Push, Some(i)) => r matches Ok(w) && w@ == worktrees_view(worktrees@)[i],
                _ => r matches Err(e) && e@ == missing_target_message(op),
            },
            Some(n) => match first_named(worktrees_view(worktrees@), n@, 0) {
                Some(i) => r matches Ok(w) && w@ == worktrees_view(worktrees@)[i],
                None => r matches Err(e) && e@ == "Worktree not found."@,
            },
        },
{
    match name {
        None => {
            let current = match op {
                RemoteOp::Push => first_current_exec(worktrees, here),
                RemoteOp::Pull => None,
            };
            match current {
                Some(i) => {
                    proof {
                        assert(worktrees_view(worktrees@)[i as int] == worktrees@[i as int]@);
                    }
                    Ok(worktrees[i].copy())
                },
                None => Err(
                    match op {
                        RemoteOp::Push => String::from_str(
                            "Please specify a worktree to push (e.g. 'worktrees push main').",
                        ),
                        RemoteOp::Pull => String::from_str(
                            "Please specify a worktree to pull (e.g. 'worktrees pull main').",
                        ),
                    },
                ),
            }
        },
        Some(n) => match first_named_exec(worktrees, n) {
            Some(i) => {
                proof {
                    assert(worktrees_view(worktrees@)[i as int] == worktrees@[i as int]@);
                }
                Ok(worktrees[i].copy())
            },
            None => Err(String::from_str("Worktree not found.")),
        },
    }
}

fn first_named_exec(worktrees: &Vec<Worktree>, n: &String) -> (r: Option<usize>)
    ensures
        match r {
            Some(i) => first_named(worktrees_view(worktrees@), n@, 0) == Some(i as int) && i
                < worktrees@.len(),
            None => first_named(worktrees_view(worktrees@), n@, 0) is None,
        },
{
    let ghost wv = worktrees_view(worktrees@);
    let mut i: usize = 0;
    while i < worktrees.len()
        invariant
            i <= worktrees.len(),
            wv == worktrees_view(worktrees@),
            first_named(wv, n@, 0) == first_named(wv, n@, i as int),
        decreases worktrees.len() - i,
    {
        assert(wv[i as int] == worktrees@[i as int]@);
        if named_exec(&worktrees[i], n) {
            return Some(i);
        }
        i = i + 1;
    }
    None
}

/// How well checkout `w` matches the lower-cased search `needle`, by tier:
/// 1 its branch is the needle, 2 its directory name is, 3 its branch
/// contains the needle, 4 its path does (all compared lower-cased). The
/// bare hub never matches.
pub open spec fn matches_tier(w: WorktreeView, needle: Seq<char>, tier: int) -> bool {
    !w.is_bare && if tier == 1 {
        unicode_lowercase(w.branch) == needle
    } else if tier == 2 {
        path_file_name(w.path) matches Some(d) && unicode_lowercase(d) == needle
    } else if tier == 3 {
        contains(unicode_lowercase(w.branch), needle)
    } else {
        contains(unicode_lowercase(w.path), needle)
    }
}

/// The first index at or after `i` whose worktree matches in `tier`.
pub open spec fn first_in_tier(ws: Seq<WorktreeView>, needle: Seq<char>, tier: int, i: int) -> Option<
    int,
>
    decreases ws.len() - i,
{
    if i >= ws.len() || i < 0 {
        None
    } else if matches_tier(ws[i], needle, tier) {
        Some(i)
    } else {
        first_in_tier(ws, needle, tier, i + 1)
    }
}

/// The worktree that a search for `name` finds: the first match of the
/// best tier that has one.
pub open spec fn best_match(ws: Seq<WorktreeView>, name: Seq<char>) -> Option<int> {
    let needle = unicode_lowercase(name);
    match first_in_tier(ws, needle, 1, 0) {
        Some(i) => Some(i),
        None => match first_in_tier(ws, needle, 2, 0) {
            Some(i) => Some(i),
            None => match first_in_tier(ws, needle, 3, 0) {
                Some(i) => Some(i),
                None => first_in_tier(ws, needle, 4, 0),
            },
        },
    }
}

fn matches_tier_exec(w: &Worktree, needle: &String, tier: u8) -> (b: bool)
    requires
        1 <= tier <= 4,
    ensures
        b == matches_tier(w@, needle@, tier as int),
{
    if w.is_bare {
        return false;
    }
    if tier == 1 {
        to_lowercase(w.branch.as_str()) == *needle
    } else if tier == 2 {
        match path_file_name_exec(w.path.as_str()) {
            Some(d) => to_lowercase(d.as_str()) == *needle,
            None => false,
        }
    } else if tier == 3 {
        contains_chars(
            &chars_of(to_lowercase(w.branch.as_str()).as_str()),
            chars_of(needle.as_str()).as_slice(),
        )
    } else {
        contains_chars(
            &chars_of(to_lowercase(w.path.as_str()).as_str()),
            chars_of(needle.as_str()).as_slice(),
        )
    }
}

fn first_in_tier_exec(worktrees: &Vec<Worktree>, needle: &String, tier: u8) -> (r: Option<usize>)
    requires
        1 <= tier <= 4,
    ensures
        match r {
            Some(i) => first_in_tier(worktrees_view(worktrees@), needle@, tier as int, 0) == Some(
                i as int,
            ) && i < worktrees@.len(),
            None => first_in_tier(worktrees_view(worktrees@), needle@, tier as int, 0) is None,
        },
{
    let ghost wv = worktrees_view(worktrees@);
    let mut i: usize = 0;
    while i < worktrees.len()
        invariant
            i <= worktrees.len(),
            1 <= tier <= 4,
            wv == worktrees_view(worktrees@),
            first_in_tier(wv, needle@, tier as int, 0) == first_in_tier(
                wv,
                needle@,
                tier as int,
                i as int,
            ),
        decreases worktrees.len() - i,
    {
        assert(wv[i as int] == worktrees@[i as int]@);
        if matches_tier_exec(&worktrees[i], needle, tier) {
            return Some(i);
        }
        i = i + 1;
    }
    None
}

/// The worktree that `switch` and `teleport` find for `name` (see
/// `best_match`), as an index into `worktrees`.
pub fn match_worktree(worktrees: &Vec<Worktree>, name: &str) -> (r: Option<usize>)
    ensures
        match r {
            Some(i) => best_match(worktrees_view(worktrees@), name@) == Some(i as int)
                && i < worktrees@.len(),
            None => best_match(worktrees_view(worktrees@), name@) is None,
        },
{
    let needle = to_lowercase(name);
    match first_in_tier_exec(worktrees, &needle, 1) {
        Some(i) => Some(i),
        None => match first_in_tier_exec(worktrees, &needle, 2) {
            Some(i) => Some(i),
            None => match first_in_tier_exec(worktrees, &needle, 3) {
                Some(i) => Some(i),
                None => first_in_tier_exec(worktrees, &needle, 4),
            },
        },
    }
}

/// Whether checkout `w` is the one `checkout` means by the lower-cased
/// `needle`: its branch or its directory name, lower-cased.
pub open spec fn checkout_named(w: WorktreeView, needle: Seq<char>) -> bool {
    matches_tier(w, needle, 1) || matches_tier(w, needle, 2)
}

pub open spec fn first_checkout(ws: Seq<WorktreeView>, needle: Seq<char>, i: int) -> Option<int>
    decreases ws.len() - i,
{
    if i >= ws.len() || i < 0 {
        None
    } else if checkout_named(ws[i], needle) {
        Some(i)
    } else {
        first_checkout(ws, needle, i + 1)
    }
}

/// The worktree whose branch `checkout` switches: the first checkout whose
/// branch or directory name is `intent` (ignoring case).
pub fn checkout_target(worktrees: &Vec<Worktree>, intent: &String) -> (r: Result<usize, String>)
    ensures
        match first_checkout(worktrees_view(worktrees@), unicode_lowercase(intent@), 0) {
            Some(i) => r matches Ok(j) && j == i,
            None => r matches Err(e) && e@ == "Worktree '"@ + intent@ + "' not found."@,
        },
{
    let needle = to_lowercase(intent.as_str());
    let ghost wv = worktrees_view(worktrees@);
    let mut i: usize = 0;
    while i < worktrees.len()
        invariant
            i <= worktrees.len(),
            wv == worktrees_view(worktrees@),
            needle@ == unicode_lowercase(intent@),
            first_checkout(wv, needle@, 0) == first_checkout(wv, needle@, i as int),
        decreases worktrees.len() - i,
    {
        assert(wv[i as int] == worktrees@[i as int]@);
        if matches_tier_exec(&worktrees[i], &needle, 1) || matches_tier_exec(
            &worktrees[i],
            &needle,
            2,
        ) {
            return Ok(i);
        }
        i = i + 1;
    }
    let mut m = String::from_str("Worktree '");
    m.append(intent.as_str());
    m.append("' not found.");
    Err(m)
}

// ---------------------------------------------------------------------------
// Setting up the default worktrees
// ---------------------------------------------------------------------------

/// What became of a default worktree.
#[derive(Debug, Clone, Copy, PartialEq, Eq, Structural)]
pub enum SetupStatus {
    Ready,
    /// Ready, created as a new branch from `main`.
    ReadyFromMain,
    Skipped,
}

/// `main` is ready when checking it out worked, else skipped.
pub fn main_setup_status(added: &Result<(), String>) -> (s: SetupStatus)
    ensures
        s == (if added is Ok {
            SetupStatus::Ready
        } else {
            SetupStatus::Skipped
        }),
{
    match added {
        Ok(_) => SetupStatus::Ready,
        Err(_) => SetupStatus::Skipped,
    }
}

/// `dev` is ready when checking out an existing `dev` branch worked; else
/// (none) it is created from `main`.
pub fn dev_setup_status(added: &Result<(), String>) -> (s: Option<SetupStatus>)
    ensures
        s == (if added is Ok {
            Some(SetupStatus::Ready)
        } else {
            None::<SetupStatus>
        }),
{
    match added {
        Ok(_) => Some(SetupStatus::Ready),
        Err(_) => None,
    }
}

/// `dev` after creating it from `main`: ready from main, or skipped.
pub fn dev_created_status(created: &Result<(), String>) -> (s: SetupStatus)
    ensures
        s == (if created is Ok {
            SetupStatus::ReadyFromMain
        } else {
            SetupStatus::Skipped
        }),
{
    match created {
        Ok(_) => SetupStatus::ReadyFromMain,
        Err(_) => SetupStatus::Skipped,
    }
}

// ---------------------------------------------------------------------------
// Teleporting uncommitted changes
// ---------------------------------------------------------------------------

/// Where a teleport takes the changes from and to.
#[derive(Debug)]
pub struct TeleportPlan {
    pub source_path: String,
    pub source_branch: String,
    pub target_path: String,
    pub target_branch: String,
}

/// The first checkout (not the bare hub) whose directory is the current one.
pub open spec fn first_current(ws: Seq<WorktreeView>, here: Seq<bool>, i: int) -> Option<int>
    decreases ws.len() - i,
{
    if i >= ws.len() || i < 0 {
        None
    } else if !ws[i].is_bare && i < here.len() && here[i] {
        Some(i)
    } else {
        first_current(ws, here, i + 1)
    }
}

/// The outcome of planning a teleport to `target` from the worktree at the
/// current directory (`here[i]`: worktree `i`'s directory is the current
/// one): the source, the target found as `switch` finds it, and neither
/// the same.
pub open spec fn teleport_plan_of(
    ws: Seq<WorktreeView>,
    here: Seq<bool>,
    target: Seq<char>,
) -> Result<(int, int), Seq<char>> {
    match first_current(ws, here, 0) {
        None => Err(
            "Not currently in a managed worktree. Teleport must be run from a worktree directory."@,
        ),
        Some(s) => match best_match(ws, target) {
            None => Err("Target worktree '"@ + target + "' not found."@),
            Some(t) => if ws[s].path == ws[t].path {
                Err("Already in target worktree '"@ + ws[t].branch + "'."@)
            } else {
                Ok((s, t))
            },
        },
    }
}

fn first_current_exec(worktrees: &Vec<Worktree>, here: &Vec<bool>) -> (r: Option<usize>)
    ensures
        match r {
            Some(i) => first_current(worktrees_view(worktrees@), here@, 0) == Some(i as int) && i
                < worktrees@.len(),
            None => first_current(worktrees_view(worktrees@), here@, 0) is None,
        },
{
    let ghost wv = worktrees_view(worktrees@);
    let mut i: usize = 0;
    while i < worktrees.len()
        invariant
            i <= worktrees.len(),
            wv == worktrees_view(worktrees@),
            first_current(wv, here@, 0) == first_current(wv, here@, i as int),
        decreases worktrees.len() - i,
    {
        assert(wv[i as int] == worktrees@[i as int]@);
        if !worktrees[i].is_bare && i < here.len() && here[i] {
            return Some(i);
        }
        i = i + 1;
    }
    None
}

/// Plans a teleport to `target`.
pub fn plan_teleport(worktrees: &Vec<Worktree>, here: &Vec<bool>, target: &str) -> (r: Result<
    TeleportPlan,
    String,
>)
    ensures
        match teleport_plan_of(worktrees_view(worktrees@), here@, target@) {
            Ok((s, t)) => r matches Ok(p) && p.source_path@ == worktrees@[s].path@
                && p.source_branch@ == worktrees@[s].branch@ && p.target_path@
                == worktrees@[t].path@ && p.target_branch@ == worktrees@[t].branch@,
            Err(m) => r matches Err(e) && e@ == m,
        },
{
    let ghost wv = worktrees_view(worktrees@);
    let source = first_current_exec(worktrees, here);
    let s = match source {
        Some(s) => s,
        None => {
            return Err(
                String::from_str(
                    "Not currently in a managed worktree. Teleport must be run from a worktree directory.",
                ),
            );
        },
    };
    assert(first_current(wv, here@, 0) == Some(s as int));
    let t = match match_worktree(worktrees, target) {
        Some(t) => t,
        None => {
            let mut m = String::from_str("Target worktree '");
            m.append(target);
            m.append("' not found.");
            return Err(m);
        },
    };
    assert(wv[s as int] == worktrees@[s as int]@);
    assert(wv[t as int] == worktrees@[t as int]@);
    if worktrees[s].path == worktrees[t].path {
        let mut m = String::from_str("Already in target worktree '");
        m.append(worktrees[t].branch.as_str());
        m.append("'.");
        return Err(m);
    }
    Ok(
        TeleportPlan {
            source_path: worktrees[s].path.clone(),
            source_branch: worktrees[s].branch.clone(),
            target_path: worktrees[t].path.clone(),
            target_branch: worktrees[t].branch.clone(),
        },
    )
}

/// Whether a worktree's status shows changes to teleport.
pub fn has_changes(status: &GitStatus) -> (b: bool)
    ensures
        b == (status@.staged.len() > 0 || status@.unstaged.len() > 0 || status@.untracked.len()
            > 0),
{
    status.staged.len() > 0 || status.unstaged.len() > 0 || status.untracked.len() > 0
}

/// The stash message under which a teleport carries the changes.
pub open spec fn teleport_message(p: TeleportPlan) -> Seq<char> {
    "Teleport to "@ + p.target_branch@
}

/// The first call of a teleport: stash the source's changes.
pub fn teleport_start(plan: &TeleportPlan) -> (c: RepoCall)
    ensures
        c@ == (RepoCallV::StashSave {
            path: plan.source_path@,
            message: Some(teleport_message(*plan)),
        }),
{
    RepoCall::StashSave {
        path: plan.source_path.clone(),
        message: Some(prefixed("Teleport to ", plan.target_branch.as_str())),
    }
}

/// After each call of a teleport, the next call, the end (`Ok(None)`), or
/// the error that stops it: stash the source, check that a stash exists,
/// apply the newest stash to the target, then drop it from the source.
pub open spec fn teleport_next(
    p: TeleportPlan,
    call: RepoCallV,
    reply: RepoReply,
) -> Result<Option<RepoCallV>, Seq<char>> {
    match call {
        RepoCallV::StashSave { .. } => match reply {
            RepoReply::Done(Ok(_)) => Ok(Some(RepoCallV::ListStashes { path: p.source_path@ })),
            RepoReply::Done(Err(e)) => Err(e@),
            _ => Err(Seq::empty()),
        },
        RepoCallV::ListStashes { .. } => match reply {
            RepoReply::Stashes(Ok(s)) => if s@.len() == 0 {
                Err("Failed to create stash for teleport."@)
            } else {
                Ok(Some(RepoCallV::ApplyStash { path: p.target_path@, index: 0 }))
            },
            RepoReply::Stashes(Err(e)) => Err(e@),
            _ => Err(Seq::empty()),
        },
        RepoCallV::ApplyStash { .. } => match reply {
            RepoReply::Done(Ok(_)) => Ok(Some(RepoCallV::DropStash { path: p.source_path@, index: 0 })),
            RepoReply::Done(Err(e)) => Err(
                "Failed to apply changes to target '"@ + p.target_branch@ + "': "@ + e@
                    + ". Changes preserved in stash@{0}."@,
            ),
            _ => Err(Seq::empty()),
        },
        RepoCallV::DropStash { .. } => match reply {
            RepoReply::Done(Ok(_)) => Ok(None),
            RepoReply::Done(Err(e)) => Err(e@),
            _ => Err(Seq::empty()),
        },
        _ => Err(Seq::empty()),
    }
}

pub open spec fn opt_call_view(o: Option<RepoCall>) -> Option<RepoCallV> {
    match o {
        Some(c) => Some(c@),
        None => None,
    }
}

/// The step of a teleport after `call` returned `reply`.
pub fn teleport_resume(plan: &TeleportPlan, call: &RepoCall, reply: RepoReply) -> (r: Result<
    Option<RepoCall>,
    String,
>)
    ensures
        match (r, teleport_next(*plan, call@, reply)) {
            (Ok(a), Ok(b)) => opt_call_view(a) == b,
            (Err(a), Err(b)) => a@ == b,
            _ => false,
        },
{
    match call {
        RepoCall::StashSave { .. } => match reply {
            RepoReply::Done(Ok(_)) => Ok(Some(RepoCall::ListStashes { path: plan.source_path.clone() })),
            RepoReply::Done(Err(e)) => Err(e),
            _ => Err(String::new()),
        },
        RepoCall::ListStashes { .. } => match reply {
            RepoReply::Stashes(Ok(s)) => if s.len() == 0 {
                Err(String::from_str("Failed to create stash for teleport."))
            } else {
                Ok(Some(RepoCall::ApplyStash { path: plan.target_path.clone(), index: 0 }))
            },
            RepoReply::Stashes(Err(e)) => Err(e),
            _ => Err(String::new()),
        },
        RepoCall::ApplyStash { .. } => match reply {
            RepoReply::Done(Ok(_)) => Ok(Some(RepoCall::DropStash { path: plan.source_path.clone(), index: 0 })),
            RepoReply::Done(Err(e)) => {
                let mut m = String::from_str("Failed to apply changes to target '");
                m.append(plan.target_branch.as_str());
                m.append("': ");
                m.append(e.as_str());
                m.append(". Changes preserved in stash@{0}.");
                Err(m)
            },
            _ => Err(String::new()),
        },
        RepoCall::DropStash { .. } => match reply {
            RepoReply::Done(Ok(_)) => Ok(None),
            RepoReply::Done(Err(e)) => Err(e),
            _ => Err(String::new()),
        },
        _ => Err(String::new()),
    }
}


// ---------------------------------------------------------------------------
// Small command decisions
// ---------------------------------------------------------------------------

/// After `init`, a fresh project (no URL to clone) gets a `main` worktree
/// on a new `main` branch from `HEAD`; a cloned one gets none.
pub fn default_main_worktree(url: Option<&String>) -> (r: Option<RepoCall>)
    ensures
        match url {
            None => r matches Some(c) && c@ == (RepoCallV::AddNewWorktree {
                name: "main"@,
                branch: "main"@,
                base_ref: "HEAD"@,
            }),
            Some(_) => r is None,
        },
{
    match url {
        None => Some(
            RepoCall::AddNewWorktree {
                name: String::from_str("main"),
                branch: String::from_str("main"),
                base_ref: String::from_str("HEAD"),
            },
        ),
        Some(_) => None,
    }
}

/// `run` removes its temporary worktree `intent` afterwards, forcibly, whether
/// the command succeeded or not.
pub fn temporary_cleanup(intent: &String) -> (c: RepoCall)
    ensures
        c@ == (RepoCallV::RemoveWorktree { path: intent@, force: true }),
{
    RepoCall::RemoveWorktree { path: intent.clone(), force: true }
}

/// The outcome of `run`: it fails exactly when the command did, naming the
/// command's exit status (`status`, as the system prints it).
pub fn run_result(success: bool, status: &str) -> (r: Result<(), String>)
    ensures
        success <==> r is Ok,
        r matches Err(e) ==> e@ == "Command failed with status: "@ + status@,
{
    if success {
        Ok(())
    } else {
        Err(prefixed("Command failed with status: ", status))
    }
}

/// `list` shows the welcome notice when there are no worktrees.
pub fn shows_welcome(worktrees: &Vec<Worktree>) -> (b: bool)
    ensures
        b == (worktrees@.len() == 0),
{
    worktrees.len() == 0
}

/// The API key to store: the given key without surrounding whitespace; an
/// error when nothing is left.
pub fn api_key_input(key: &str) -> (r: Result<String, String>)
    ensures
        trim(key@).len() > 0 <==> r is Ok,
        r matches Ok(k) ==> k@ == trim(key@),
        r matches Err(e) ==> e@ == "API key cannot be empty"@,
{
    let t = trim_chars(&chars_of(key));
    if t.len() == 0 {
        Err(String::from_str("API key cannot be empty"))
    } else {
        Ok(string_of(t.as_slice()))
    }
}

} // verus!
