//! The repository domain: worktrees, commits, status entries and stashes.
use vstd::prelude::*;

verus! {

/// View of an optional string.
pub open spec fn opt_view(o: Option<String>) -> Option<Seq<char>> {
    match o {
        Some(s) => Some(s@),
        None => None,
    }
}

/// Custom attributes for a worktree.
#[derive(Debug, Default)]
pub struct WorktreeMetadata {
    pub created_at: Option<String>,
    pub purpose: Option<String>,
    pub description: Option<String>,
    pub color: Option<String>,
    pub icon: Option<String>,
}

#[verifier::ext_equal]
pub struct WorktreeMetadataView {
    pub created_at: Option<Seq<char>>,
    pub purpose: Option<Seq<char>>,
    pub description: Option<Seq<char>>,
    pub color: Option<Seq<char>>,
    pub icon: Option<Seq<char>>,
}

impl View for WorktreeMetadata {
    type V = WorktreeMetadataView;

    open spec fn view(&self) -> WorktreeMetadataView {
        WorktreeMetadataView {
            created_at: opt_view(self.created_at),
            purpose: opt_view(self.purpose),
            description: opt_view(self.description),
            color: opt_view(self.color),
            icon: opt_view(self.icon),
        }
    }
}

/// A Git worktree and its current state.
#[derive(Debug)]
pub struct Worktree {
    /// The absolute path to the worktree on disk.
    pub path: String,
    /// The short commit hash currently checked out.
    pub commit: String,
    /// The name of the branch currently checked out.
    pub branch: String,
    /// Whether this is the primary bare repository (hub).
    pub is_bare: bool,
    /// Whether the HEAD is in a detached state.
    pub is_detached: bool,
    /// A summarized string of git status (e.g., "+2 ~1").
    pub status_summary: Option<String>,
    /// The size of the worktree directory on disk in bytes.
    pub size_bytes: u64,
    /// Custom metadata for this worktree.
    pub metadata: Option<WorktreeMetadata>,
}

#[verifier::ext_equal]
pub struct WorktreeView {
    pub path: Seq<char>,
    pub commit: Seq<char>,
    pub branch: Seq<char>,
    pub is_bare: bool,
    pub is_detached: bool,
    pub status_summary: Option<Seq<char>>,
    pub size_bytes: u64,
    pub metadata: Option<WorktreeMetadataView>,
}

impl View for Worktree {
    type V = WorktreeView;

    open spec fn view(&self) -> WorktreeView {
        WorktreeView {
            path: self.path@,
            commit: self.commit@,
            branch: self.branch@,
            is_bare: self.is_bare,
            is_detached: self.is_detached,
            status_summary: opt_view(self.status_summary),
            size_bytes: self.size_bytes,
            metadata: match &self.metadata {
                Some(m) => Some(m@),
                None => None,
            },
        }
    }
}

/// Views of a list of worktrees.
pub open spec fn worktrees_view(v: Seq<Worktree>) -> Seq<WorktreeView> {
    v.map_values(|w: Worktree| w@)
}

/// Detailed git status of a specific worktree.
#[derive(Debug)]
pub struct GitStatus {
    /// (path, code)
    pub staged: Vec<(String, String)>,
    /// (path, code)
    pub unstaged: Vec<(String, String)>,
    pub untracked: Vec<String>,
}

#[verifier::ext_equal]
pub struct GitStatusView {
    pub staged: Seq<(Seq<char>, Seq<char>)>,
    pub unstaged: Seq<(Seq<char>, Seq<char>)>,
    pub untracked: Seq<Seq<char>>,
}

pub open spec fn pairs_view(v: Seq<(String, String)>) -> Seq<(Seq<char>, Seq<char>)> {
    v.map_values(|p: (String, String)| (p.0@, p.1@))
}

pub open spec fn strings_view(v: Seq<String>) -> Seq<Seq<char>> {
    v.map_values(|s: String| s@)
}

impl View for GitStatus {
    type V = GitStatusView;

    open spec fn view(&self) -> GitStatusView {
        GitStatusView {
            staged: pairs_view(self.staged@),
            unstaged: pairs_view(self.unstaged@),
            untracked: strings_view(self.untracked@),
        }
    }
}

/// Information about a single Git commit.
#[derive(Debug)]
pub struct GitCommit {
    pub hash: String,
    pub author: String,
    pub date: String,
    pub message: String,
    pub graph: String,
}

#[verifier::ext_equal]
pub struct GitCommitView {
    pub hash: Seq<char>,
    pub author: Seq<char>,
    pub date: Seq<char>,
    pub message: Seq<char>,
    pub graph: Seq<char>,
}

impl View for GitCommit {
    type V = GitCommitView;

    open spec fn view(&self) -> GitCommitView {
        GitCommitView {
            hash: self.hash@,
            author: self.author@,
            date: self.date@,
            message: self.message@,
            graph: self.graph@,
        }
    }
}

pub open spec fn commits_view(v: Seq<GitCommit>) -> Seq<GitCommitView> {
    v.map_values(|c: GitCommit| c@)
}

/// The architectural context of the project.
#[derive(Debug, Clone, Copy, PartialEq, Eq, Structural)]
pub enum ProjectContext {
    /// A standard project with no specialized sync logic.
    Standard,
    /// A Kotlin Multiplatform or Android project requiring specific properties sync.
    KmpAndroid,
}

/// A Git stash entry.
#[derive(Debug)]
pub struct StashEntry {
    pub index: usize,
    pub message: String,
    pub branch: String,
}

#[verifier::ext_equal]
pub struct StashEntryView {
    pub index: usize,
    pub message: Seq<char>,
    pub branch: Seq<char>,
}

impl View for StashEntry {
    type V = StashEntryView;

    open spec fn view(&self) -> StashEntryView {
        StashEntryView { index: self.index, message: self.message@, branch: self.branch@ }
    }
}

pub open spec fn stashes_view(v: Seq<StashEntry>) -> Seq<StashEntryView> {
    v.map_values(|s: StashEntry| s@)
}

/// Events emitted by the repository watcher.
#[derive(Debug)]
pub enum RepositoryEvent {
    /// The list of worktrees has changed (added, removed, pruned).
    WorktreeListChanged,
    /// The git status of a specific worktree has changed.
    StatusChanged(String),
    /// The HEAD of a specific worktree has changed (commit/checkout).
    HeadChanged(String),
    /// A generic change that might require a full refresh.
    RescanRequired,
}

/// The status of the current repository.
#[derive(Debug, Clone, Copy, PartialEq, Eq, Structural)]
pub enum RepoStatus {
    /// A valid Bare Hub (root or worktree).
    BareHub,
    /// A standard Git repository.
    StandardGit,
    /// Not a known Git repository format.
    NoRepo,
}

// ---------------------------------------------------------------------------
// Copies with a stated result
// ---------------------------------------------------------------------------

pub fn copy_string(s: &String) -> (r: String)
    ensures
        r@ == s@,
{
    s.clone()
}

pub fn copy_opt_string(s: &Option<String>) -> (r: Option<String>)
    ensures
        opt_view(r) == opt_view(*s),
{
    match s {
        Some(x) => Some(x.clone()),
        None => None,
    }
}

impl WorktreeMetadata {
    pub fn copy(&self) -> (r: WorktreeMetadata)
        ensures
            r@ == self@,
    {
        WorktreeMetadata {
            created_at: copy_opt_string(&self.created_at),
            purpose: copy_opt_string(&self.purpose),
            description: copy_opt_string(&self.description),
            color: copy_opt_string(&self.color),
            icon: copy_opt_string(&self.icon),
        }
    }
}

impl Worktree {
    pub fn copy(&self) -> (r: Worktree)
        ensures
            r@ == self@,
    {
        Worktree {
            path: self.path.clone(),
            commit: self.commit.clone(),
            branch: self.branch.clone(),
            is_bare: self.is_bare,
            is_detached: self.is_detached,
            status_summary: copy_opt_string(&self.status_summary),
            size_bytes: self.size_bytes,
            metadata: match &self.metadata {
                Some(m) => Some(m.copy()),
                None => None,
            },
        }
    }
}

pub fn copy_worktrees(v: &Vec<Worktree>) -> (r: Vec<Worktree>)
    ensures
        worktrees_view(r@) == worktrees_view(v@),
{
    let mut r: Vec<Worktree> = Vec::new();
    let mut i: usize = 0;
    while i < v.len()
        invariant
            i <= v.len(),
            r@.len() == i,
            worktrees_view(r@) == worktrees_view(v@.take(i as int)),
        decreases v.len() - i,
    {
        let ghost prev = r@;
        let x = v[i].copy();
        r.push(x);
        i = i + 1;
        proof {
            let a = worktrees_view(r@);
            let b = worktrees_view(v@.take(i as int));
            assert(a.len() == b.len());
            assert forall|j: int| 0 <= j < a.len() implies a[j] == b[j] by {
                if j < i - 1 {
                    assert(worktrees_view(prev)[j] == worktrees_view(v@.take(i - 1))[j]);
                }
            }
            assert(a =~= b);
        }
    }
    assert(v@.take(i as int) =~= v@);
    r
}

pub fn copy_strings(v: &Vec<String>) -> (r: Vec<String>)
    ensures
        strings_view(r@) == strings_view(v@),
{
    let mut r: Vec<String> = Vec::new();
    let mut i: usize = 0;
    while i < v.len()
        invariant
            i <= v.len(),
            r@.len() == i,
            strings_view(r@) == strings_view(v@.take(i as int)),
        decreases v.len() - i,
    {
        let ghost prev = r@;
        let x = v[i].clone();
        r.push(x);
        i = i + 1;
        proof {
            let a = strings_view(r@);
            let b = strings_view(v@.take(i as int));
            assert(a.len() == b.len());
            assert forall|j: int| 0 <= j < a.len() implies a[j] == b[j] by {
                if j < i - 1 {
                    assert(strings_view(prev)[j] == strings_view(v@.take(i - 1))[j]);
                }
            }
            assert(a =~= b);
        }
    }
    assert(v@.take(i as int) =~= v@);
    r
}

pub fn copy_pairs(v: &Vec<(String, String)>) -> (r: Vec<(String, String)>)
    ensures
        pairs_view(r@) == pairs_view(v@),
{
    let mut r: Vec<(String, String)> = Vec::new();
    let mut i: usize = 0;
    while i < v.len()
        invariant
            i <= v.len(),
            r@.len() == i,
            pairs_view(r@) == pairs_view(v@.take(i as int)),
        decreases v.len() - i,
    {
        let ghost prev = r@;
        let x = (v[i].0.clone(), v[i].1.clone());
        r.push(x);
        i = i + 1;
        proof {
            let a = pairs_view(r@);
            let b = pairs_view(v@.take(i as int));
            assert(a.len() == b.len());
            assert forall|j: int| 0 <= j < a.len() implies a[j] == b[j] by {
                if j < i - 1 {
                    assert(pairs_view(prev)[j] == pairs_view(v@.take(i - 1))[j]);
                }
            }
            assert(a =~= b);
        }
    }
    assert(v@.take(i as int) =~= v@);
    r
}

impl GitStatus {
    pub fn copy(&self) -> (r: GitStatus)
        ensures
            r@ == self@,
    {
        GitStatus {
            staged: copy_pairs(&self.staged),
            unstaged: copy_pairs(&self.unstaged),
            untracked: copy_strings(&self.untracked),
        }
    }
}

impl GitCommit {
    pub fn copy(&self) -> (r: GitCommit)
        ensures
            r@ == self@,
    {
        GitCommit {
            hash: self.hash.clone(),
            author: self.author.clone(),
            date: self.date.clone(),
            message: self.message.clone(),
            graph: self.graph.clone(),
        }
    }
}

pub fn copy_commits(v: &Vec<GitCommit>) -> (r: Vec<GitCommit>)
    ensures
        commits_view(r@) == commits_view(v@),
{
    let mut r: Vec<GitCommit> = Vec::new();
    let mut i: usize = 0;
    while i < v.len()
        invariant
            i <= v.len(),
            r@.len() == i,
            commits_view(r@) == commits_view(v@.take(i as int)),
        decreases v.len() - i,
    {
        let ghost prev = r@;
        let x = v[i].copy();
        r.push(x);
        i = i + 1;
        proof {
            let a = commits_view(r@);
            let b = commits_view(v@.take(i as int));
            assert(a.len() == b.len());
            assert forall|j: int| 0 <= j < a.len() implies a[j] == b[j] by {
                if j < i - 1 {
                    assert(commits_view(prev)[j] == commits_view(v@.take(i - 1))[j]);
                }
            }
            assert(a =~= b);
        }
    }
    assert(v@.take(i as int) =~= v@);
    r
}

impl StashEntry {
    pub fn copy(&self) -> (r: StashEntry)
        ensures
            r@ == self@,
    {
        StashEntry { index: self.index, message: self.message.clone(), branch: self.branch.clone() }
    }
}

pub fn copy_stashes(v: &Vec<StashEntry>) -> (r: Vec<StashEntry>)
    ensures
        stashes_view(r@) == stashes_view(v@),
{
    let mut r: Vec<StashEntry> = Vec::new();
    let mut i: usize = 0;
    while i < v.len()
        invariant
            i <= v.len(),
            r@.len() == i,
            stashes_view(r@) == stashes_view(v@.take(i as int)),
        decreases v.len() - i,
    {
        let ghost prev = r@;
        let x = v[i].copy();
        r.push(x);
        i = i + 1;
        proof {
            let a = stashes_view(r@);
            let b = stashes_view(v@.take(i as int));
            assert(a.len() == b.len());
            assert forall|j: int| 0 <= j < a.len() implies a[j] == b[j] by {
                if j < i - 1 {
                    assert(stashes_view(prev)[j] == stashes_view(v@.take(i - 1))[j]);
                }
            }
            assert(a =~= b);
        }
    }
    assert(v@.take(i as int) =~= v@);
    r
}

} // verus!
