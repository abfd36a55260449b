//! What the widgets of the interface show: the rows of the worktree list,
//! the cursor and icons, the status tab's file lists and the hub overview.
//! Drawing them with colours is left to the terminal front end.
use vstd::prelude::*;
use crate::domain::{
    worktrees_view, GitCommit, GitStatus, GitStatusView, ProjectContext, Worktree, WorktreeView,
};
use crate::git_repo::{path_file_name, path_file_name_exec};
use crate::model::{AppMode, DashboardTab};
use crate::text::{
    byte_len, byte_len_upto, chars_in_bytes, chars_in_bytes_exec, chars_of, decimal, decimal_exec,
    slice_of, string_of, to_uppercase, unicode_uppercase,
};
use crate::screen::Tone;

verus! {

/// The glyphs of the interface (Nerd Font icons).
pub struct Icons;

impl Icons {
    pub const HUB: &'static str = "󰨝 ";
    pub const DETACHED: &'static str = "\u{f071} ";
    pub const WORKTREE: &'static str = "󰘬 ";
    pub const CLEAN: &'static str = "\u{f058} ";
    pub const DIRTY: &'static str = "\u{f044} ";
}

/// The icon of a row kind: 0 the hub, 1 a detached checkout, 2 a worktree.
pub open spec fn icon_text(kind: usize) -> Seq<char> {
    if kind == 0 {
        "󰨝 "@
    } else if kind == 1 {
        "\u{f071} "@
    } else {
        "󰘬 "@
    }
}

/// The animated cursor in front of the selected row, by frame.
pub open spec fn cursor_frame(k: int) -> Seq<char> {
    if k == 0 {
        " ▊ "@
    } else if k == 1 {
        " ▋ "@
    } else if k == 2 {
        " ▌ "@
    } else if k == 3 {
        " ▍ "@
    } else if k == 4 {
        " ▌ "@
    } else {
        " ▋ "@
    }
}

/// The first cell of a row: the cursor (which changes every second tick)
/// or blanks, then the row's icon; an unknown kind shows the worktree icon.
pub open spec fn spinner_text(is_selected: bool, spinner_tick: usize, icon_idx: usize) -> Seq<char> {
    let kind = if icon_idx < 3 {
        icon_idx
    } else {
        2
    };
    (if is_selected {
        cursor_frame(((spinner_tick / 2) % 6) as int)
    } else {
        "   "@
    }) + icon_text(kind)
}

pub fn get_spinner_icon(is_selected: bool, spinner_tick: usize, icon_idx: usize) -> (r: String)
    ensures
        r@ == spinner_text(is_selected, spinner_tick, icon_idx),
{
    let prefix: &str = if is_selected {
        let k = (spinner_tick / 2) % 6;
        if k == 0 {
            " ▊ "
        } else if k == 1 {
            " ▋ "
        } else if k == 2 {
            " ▌ "
        } else if k == 3 {
            " ▍ "
        } else if k == 4 {
            " ▌ "
        } else {
            " ▋ "
        }
    } else {
        "   "
    };
    let icon: &str = if icon_idx == 0 {
        Icons::HUB
    } else if icon_idx == 1 {
        Icons::DETACHED
    } else {
        Icons::WORKTREE
    };
    let mut s = String::from_str(prefix);
    s.append(icon);
    s
}

/// The unit in which a size is shown.
#[derive(Debug, Clone, Copy, PartialEq, Eq, Structural)]
pub enum SizeUnit {
    /// Nothing at all: "0 B".
    Zero,
    Bytes,
    Kilobytes,
    Megabytes,
    Gigabytes,
}

/// The largest binary unit that is at most `bytes` (kilobyte = 1024).
pub open spec fn unit_of(bytes: u64) -> SizeUnit {
    if bytes == 0 {
        SizeUnit::Zero
    } else if bytes >= 1073741824 {
        SizeUnit::Gigabytes
    } else if bytes >= 1048576 {
        SizeUnit::Megabytes
    } else if bytes >= 1024 {
        SizeUnit::Kilobytes
    } else {
        SizeUnit::Bytes
    }
}

pub fn size_unit(bytes: u64) -> (u: SizeUnit)
    ensures
        u == unit_of(bytes),
{
    if bytes == 0 {
        SizeUnit::Zero
    } else if bytes >= 1073741824 {
        SizeUnit::Gigabytes
    } else if bytes >= 1048576 {
        SizeUnit::Megabytes
    } else if bytes >= 1024 {
        SizeUnit::Kilobytes
    } else {
        SizeUnit::Bytes
    }
}

// ---------------------------------------------------------------------------
// The worktree list
// ---------------------------------------------------------------------------

/// The table of worktrees beside the dashboard.
pub struct WorktreeListWidget<'a> {
    pub worktrees: &'a [Worktree],
    /// The rows to show, as indices into `worktrees` (all when absent).
    pub indices: Option<&'a [usize]>,
    pub is_dimmed: bool,
    pub spinner_tick: usize,
    pub filter_query: Option<&'a str>,
    pub mode: Option<AppMode>,
}

/// What the list shows when it has no rows.
#[derive(Debug)]
pub enum EmptyNotice {
    /// "No worktrees match '<query>'." and how to clear the filter.
    NoMatch(String),
    /// "No worktrees found." and how to add one.
    NoWorktrees,
}

impl EmptyNotice {
    /// The two lines of the notice.
    pub fn lines(&self) -> (r: (String, String))
        ensures
            match self {
                EmptyNotice::NoMatch(q) => r.0@ == "No worktrees match '"@ + q@ + "'."@
                    && r.1@ == "Press [Esc] to clear filter."@,
                EmptyNotice::NoWorktrees => r.0@ == "No worktrees found."@ && r.1@
                    == "Press [A] to add a worktree."@,
            },
    {
        match self {
            EmptyNotice::NoMatch(q) => {
                let mut a = String::from_str("No worktrees match '");
                a.append(q.as_str());
                a.append("'.");
                (a, String::from_str("Press [Esc] to clear filter."))
            },
            EmptyNotice::NoWorktrees => (
                String::from_str("No worktrees found."),
                String::from_str("Press [A] to add a worktree."),
            ),
        }
    }
}

/// One row of the list.
#[derive(Debug)]
pub struct ListRow {
    /// Cursor and icon.
    pub cursor: String,
    /// 0 the hub, 1 a detached checkout, 2 a worktree.
    pub kind: usize,
    pub intent: String,
    pub branch: String,
    /// The status summary, shown as "CLEAN" when clean; none shows "-".
    pub status: Option<String>,
    pub is_clean: bool,
    pub size_bytes: u64,
    /// At most the first seven bytes of the commit.
    pub commit: String,
    pub is_selected: bool,
}

pub open spec fn mode_title_of(mode: Option<AppMode>) -> Seq<char> {
    match mode {
        Some(AppMode::Manage) => "MANAGE WORKTREES"@,
        Some(AppMode::Git) => "GIT WORKTREES"@,
        Some(AppMode::Filter) => "FILTERING..."@,
        _ => "ACTIVE WORKTREES"@,
    }
}

/// The kind of a worktree's row.
pub open spec fn row_kind(w: WorktreeView) -> usize {
    if w.is_bare {
        0
    } else if w.is_detached {
        1
    } else {
        2
    }
}

/// What the intent column shows: "MAIN" for the hub, else the worktree's
/// purpose, else its directory name, else its branch.
pub open spec fn intent_text(w: WorktreeView) -> Seq<char> {
    if w.is_bare {
        "MAIN"@
    } else {
        match w.metadata {
            Some(m) if m.purpose is Some => m.purpose->0,
            _ => match path_file_name(w.path) {
                Some(n) => n,
                None => w.branch,
            },
        }
    }
}

/// The commit column can be cut after at most seven bytes.
pub open spec fn commit_cuttable(c: Seq<char>) -> bool {
    chars_in_bytes(c, if byte_len(c) < 7 {
        byte_len(c)
    } else {
        7
    }) >= 0
}

/// The commit column: the commit's first seven bytes.
pub open spec fn short_commit(c: Seq<char>) -> Seq<char> {
    c.take(chars_in_bytes(c, if byte_len(c) < 7 {
        byte_len(c)
    } else {
        7
    }))
}

impl<'a> WorktreeListWidget<'a> {
    pub fn new(worktrees: &'a [Worktree], indices: Option<&'a [usize]>) -> (r: Self)
        ensures
            r.worktrees@ == worktrees@,
            r.indices == indices,
            !r.is_dimmed,
            r.spinner_tick == 0,
            r.filter_query is None,
            r.mode is None,
    {
        WorktreeListWidget {
            worktrees,
            indices,
            is_dimmed: false,
            spinner_tick: 0,
            filter_query: None,
            mode: None,
        }
    }

    pub fn dimmed(self, is_dimmed: bool) -> (r: Self)
        ensures
            r == (WorktreeListWidget { is_dimmed, ..self }),
    {
        WorktreeListWidget { is_dimmed, ..self }
    }

    pub fn tick(self, tick: usize) -> (r: Self)
        ensures
            r == (WorktreeListWidget { spinner_tick: tick, ..self }),
    {
        WorktreeListWidget { spinner_tick: tick, ..self }
    }

    pub fn with_filter(self, query: Option<&'a str>) -> (r: Self)
        ensures
            r == (WorktreeListWidget { filter_query: query, ..self }),
    {
        WorktreeListWidget { filter_query: query, ..self }
    }

    pub fn with_mode(self, mode: AppMode) -> (r: Self)
        ensures
            r == (WorktreeListWidget { mode: Some(mode), ..self }),
    {
        WorktreeListWidget { mode: Some(mode), ..self }
    }

    /// The number of rows.
    pub open spec fn row_count(&self) -> int {
        match self.indices {
            Some(ix) => ix@.len() as int,
            None => self.worktrees@.len() as int,
        }
    }

    pub fn total_count(&self) -> (n: usize)
        ensures
            n == self.row_count(),
    {
        match self.indices {
            Some(ix) => ix.len(),
            None => self.worktrees.len(),
        }
    }

    /// The title: the mode's name and the number of rows.
    pub fn title(&self) -> (r: String)
        ensures
            r@ == " "@ + mode_title_of(self.mode) + " ("@ + decimal(self.row_count() as nat)
                + ") "@,
    {
        let t: &str = match self.mode {
            Some(AppMode::Manage) => "MANAGE WORKTREES",
            Some(AppMode::Git) => "GIT WORKTREES",
            Some(AppMode::Filter) => "FILTERING...",
            _ => "ACTIVE WORKTREES",
        };
        let mut s = String::from_str(" ");
        s.append(t);
        s.append(" (");
        let n = self.total_count();
        let digits = string_of(decimal_exec(n as u64).as_slice());
        s.append(digits.as_str());
        s.append(") ");
        s
    }

    /// What an empty list says: that the filter matched nothing, when a
    /// query is typed, else that there are no worktrees.
    pub fn empty_notice(&self) -> (r: EmptyNotice)
        ensures
            match self.filter_query {
                Some(q) if q@.len() > 0 => r matches EmptyNotice::NoMatch(s) && s@ == q@,
                _ => r == EmptyNotice::NoWorktrees,
            },
    {
        match self.filter_query {
            Some(q) => if q.is_empty() {
                EmptyNotice::NoWorktrees
            } else {
                EmptyNotice::NoMatch(String::from_str(q))
            },
            None => EmptyNotice::NoWorktrees,
        }
    }

    /// The rows that fit below the header in a list `inner_height` rows
    /// high, scrolled by `offset`: `[start, end)`.
    pub fn visible_range(&self, offset: usize, inner_height: u16) -> (r: (usize, usize))
        ensures
            ({
                let total = self.row_count();
                let last = if total > 0 {
                    total - 1
                } else {
                    0
                };
                let start = if offset < last {
                    offset as int
                } else {
                    last
                };
                let avail = if inner_height >= 2 {
                    inner_height - 2
                } else {
                    0
                };
                r.0 == start && r.1 == (if start + avail < total {
                    start + avail
                } else {
                    total
                })
            }),
    {
        let total = self.total_count();
        let last = if total > 0 {
            total - 1
        } else {
            0
        };
        let start = if offset < last {
            offset
        } else {
            last
        };
        let avail: usize = if inner_height >= 2 {
            (inner_height - 2) as usize
        } else {
            0
        };
        let end = if avail < total - start {
            start + avail
        } else {
            total
        };
        (start, end)
    }

    /// The worktree shown on row `i`.
    pub open spec fn row_worktree(&self, i: int) -> Worktree {
        match self.indices {
            Some(ix) => self.worktrees@[ix@[i] as int],
            None => self.worktrees@[i],
        }
    }

    /// Row `i` can be shown: it exists and names an existing worktree whose
    /// commit can be cut.
    pub open spec fn row_ok(&self, i: int) -> bool {
        &&& 0 <= i < self.row_count()
        &&& (self.indices matches Some(ix) ==> ix@[i] < self.worktrees@.len())
        &&& commit_cuttable(self.row_worktree(i).commit@)
    }

    /// Row `i`, the selected row being `selected`.
    pub fn row(&self, i: usize, selected: Option<usize>) -> (r: ListRow)
        requires
            self.row_ok(i as int),
        ensures
            ({
                let w = self.row_worktree(i as int)@;
                &&& r.is_selected == (selected == Some(i))
                &&& r.kind == row_kind(w)
                &&& r.cursor@ == spinner_text(r.is_selected, self.spinner_tick, r.kind)
                &&& r.intent@ == intent_text(w)
                &&& r.branch@ == w.branch
                &&& r.is_clean == (w.status_summary == Some("clean"@))
                &&& match w.status_summary {
                    Some(s) => r.status matches Some(t) && t@ == (if s == "clean"@ {
                        "CLEAN"@
                    } else {
                        s
                    }),
                    None => r.status is None,
                }
                &&& r.size_bytes == w.size_bytes
                &&& r.commit@ == short_commit(w.commit)
            }),
    {
        let wt = match self.indices {
            Some(ix) => &self.worktrees[ix[i]],
            None => &self.worktrees[i],
        };
        let is_selected = match selected {
            Some(s) => s == i,
            None => false,
        };
        let kind: usize = if wt.is_bare {
            0
        } else if wt.is_detached {
            1
        } else {
            2
        };
        let intent = if wt.is_bare {
            String::from_str("MAIN")
        } else {
            let purpose = match &wt.metadata {
                Some(m) => match &m.purpose {
                    Some(p) => Some(p.clone()),
                    None => None,
                },
                None => None,
            };
            match purpose {
                Some(p) => p,
                None => match path_file_name_exec(wt.path.as_str()) {
                    Some(n) => n,
                    None => wt.branch.clone(),
                },
            }
        };
        let clean_word = String::from_str("clean");
        let (status, is_clean) = match &wt.status_summary {
            Some(s) => if *s == clean_word {
                (Some(String::from_str("CLEAN")), true)
            } else {
                (Some(s.clone()), false)
            },
            None => (None, false),
        };
        let cs = chars_of(wt.commit.as_str());
        let n = byte_len_upto(&cs, 7);
        let cut = if n < 7 {
            n
        } else {
            7
        };
        let commit = match chars_in_bytes_exec(&cs, cut) {
            Some(k) => string_of(slice_of(&cs, 0, k).as_slice()),
            None => String::new(),
        };
        ListRow {
            cursor: get_spinner_icon(is_selected, self.spinner_tick, kind),
            kind,
            intent,
            branch: wt.branch.clone(),
            status,
            is_clean,
            size_bytes: wt.size_bytes,
            commit,
            is_selected,
        }
    }
}

// ---------------------------------------------------------------------------
// The dashboard
// ---------------------------------------------------------------------------

/// How a file of the status tab is shown.
#[derive(Debug, Clone, Copy, PartialEq, Eq, Structural)]
pub enum FileTone {
    Staged,
    Unstaged,
    Untracked,
    /// A deletion (its status code has a `D`).
    Deleted,
}

/// One line of the status tab.
#[derive(Debug)]
pub enum StatusLine {
    /// "Working directory clean."
    Clean,
    StagedHeader,
    UnstagedHeader,
    File { name: String, tone: FileTone },
    /// "... and N more"
    More(usize),
    Blank,
    /// "Not available for bare repository."
    NotAvailable,
    /// "Loading status..."
    Loading,
}

pub enum StatusLineV {
    Clean,
    StagedHeader,
    UnstagedHeader,
    File { name: Seq<char>, tone: FileTone },
    More(usize),
    Blank,
    NotAvailable,
    Loading,
}

impl View for StatusLine {
    type V = StatusLineV;

    open spec fn view(&self) -> StatusLineV {
        match self {
            StatusLine::Clean => StatusLineV::Clean,
            StatusLine::StagedHeader => StatusLineV::StagedHeader,
            StatusLine::UnstagedHeader => StatusLineV::UnstagedHeader,
            StatusLine::File { name, tone } => StatusLineV::File { name: name@, tone: *tone },
            StatusLine::More(n) => StatusLineV::More(*n),
            StatusLine::Blank => StatusLineV::Blank,
            StatusLine::NotAvailable => StatusLineV::NotAvailable,
            StatusLine::Loading => StatusLineV::Loading,
        }
    }
}

pub open spec fn lines_view(v: Seq<StatusLine>) -> Seq<StatusLineV> {
    v.map_values(|l: StatusLine| l@)
}

/// At most this many files of a section are listed.
pub open spec fn max_listed() -> int {
    15
}

/// The lines of staged or unstaged files (`tone`), deletions marked.
pub open spec fn coded_lines(files: Seq<(Seq<char>, Seq<char>)>, tone: FileTone) -> Seq<
    StatusLineV,
> {
    files.map_values(
        |p: (Seq<char>, Seq<char>)|
            StatusLineV::File {
                name: p.0,
                tone: if p.1.contains('D') {
                    FileTone::Deleted
                } else {
                    tone
                },
            },
    )
}

pub open spec fn untracked_lines(files: Seq<Seq<char>>) -> Seq<StatusLineV> {
    files.map_values(|f: Seq<char>| StatusLineV::File { name: f, tone: FileTone::Untracked })
}

pub open spec fn min_int(a: int, b: int) -> int {
    if a < b {
        a
    } else {
        b
    }
}

/// The staged section: a header, at most fifteen files, how many more,
/// and a blank line.
pub open spec fn staged_section(s: GitStatusView) -> Seq<StatusLineV> {
    let n = s.staged.len() as int;
    if n == 0 {
        Seq::empty()
    } else {
        seq![StatusLineV::StagedHeader] + coded_lines(
            s.staged.take(min_int(n, max_listed())),
            FileTone::Staged,
        ) + (if n > max_listed() {
            seq![StatusLineV::More((n - max_listed()) as usize)]
        } else {
            Seq::empty()
        }) + seq![StatusLineV::Blank]
    }
}

/// The unstaged section: a header, the unstaged then the untracked files,
/// fifteen in all at most (when exactly fifteen files are unstaged, the
/// untracked ones are not mentioned), and how many more.
pub open spec fn unstaged_section(s: GitStatusView) -> Seq<StatusLineV> {
    let u = s.unstaged.len() as int;
    let t = s.untracked.len() as int;
    if u == 0 && t == 0 {
        Seq::empty()
    } else {
        seq![StatusLineV::UnstagedHeader] + coded_lines(
            s.unstaged.take(min_int(u, max_listed())),
            FileTone::Unstaged,
        ) + (if u > max_listed() {
            seq![StatusLineV::More((u + t - max_listed()) as usize)]
        } else if u < max_listed() {
            untracked_lines(s.untracked.take(min_int(t, max_listed() - u))) + (if t > max_listed()
                - u {
                seq![StatusLineV::More((t - (max_listed() - u)) as usize)]
            } else {
                Seq::empty()
            })
        } else {
            Seq::empty()
        })
    }
}

/// The lines of the status tab.
pub open spec fn status_tab_lines(status: Option<GitStatusView>, is_bare: bool) -> Seq<
    StatusLineV,
> {
    match status {
        None => if is_bare {
            seq![StatusLineV::NotAvailable]
        } else {
            seq![StatusLineV::Loading]
        },
        Some(s) => if s.staged.len() == 0 && s.unstaged.len() == 0 && s.untracked.len() == 0 {
            seq![StatusLineV::Clean]
        } else {
            staged_section(s) + unstaged_section(s)
        },
    }
}

/// The status tab of the dashboard.
pub struct StatusTabWidget<'a> {
    pub status: Option<&'a GitStatus>,
    pub is_bare: bool,
}

fn has_deletion(code: &String) -> (b: bool)
    ensures
        b == code@.contains('D'),
{
    let cs = chars_of(code.as_str());
    let mut i: usize = 0;
    while i < cs.len()
        invariant
            i <= cs.len(),
            cs@ == code@,
            forall|j: int| 0 <= j < i ==> cs@[j] != 'D',
        decreases cs.len() - i,
    {
        if cs[i] == 'D' {
            assert(code@[i as int] == 'D');
            return true;
        }
        i = i + 1;
    }
    false
}

fn push_line(out: &mut Vec<StatusLine>, l: StatusLine)
    ensures
        lines_view(final(out)@) == lines_view(old(out)@).push(l@),
{
    out.push(l);
    assert(lines_view(out@) =~= lines_view(old(out)@).push(l@));
}

/// Appends the lines of the first `k` coded files.
fn push_coded(out: &mut Vec<StatusLine>, files: &Vec<(String, String)>, k: usize, tone: FileTone)
    requires
        k <= files@.len(),
    ensures
        lines_view(final(out)@) == lines_view(old(out)@) + coded_lines(
            crate::domain::pairs_view(files@).take(k as int),
            tone,
        ),
{
    let ghost start = lines_view(out@);
    let ghost pv = crate::domain::pairs_view(files@);
    let mut i: usize = 0;
    while i < k
        invariant
            i <= k <= files@.len(),
            pv == crate::domain::pairs_view(files@),
            lines_view(out@) == start + coded_lines(pv.take(i as int), tone),
        decreases k - i,
    {
        let t = if has_deletion(&files[i].1) {
            FileTone::Deleted
        } else {
            tone
        };
        push_line(out, StatusLine::File { name: files[i].0.clone(), tone: t });
        proof {
            assert(pv[i as int] == (files@[i as int].0@, files@[i as int].1@));
            assert(coded_lines(pv.take(i + 1), tone) =~= coded_lines(pv.take(i as int), tone).push(
                StatusLineV::File { name: files@[i as int].0@, tone: t },
            ));
        }
        i = i + 1;
    }
}

/// Appends the lines of the first `k` untracked files.
fn push_untracked(out: &mut Vec<StatusLine>, files: &Vec<String>, k: usize)
    requires
        k <= files@.len(),
    ensures
        lines_view(final(out)@) == lines_view(old(out)@) + untracked_lines(
            crate::domain::strings_view(files@).take(k as int),
        ),
{
    let ghost start = lines_view(out@);
    let ghost sv = crate::domain::strings_view(files@);
    let mut i: usize = 0;
    while i < k
        invariant
            i <= k <= files@.len(),
            sv == crate::domain::strings_view(files@),
            lines_view(out@) == start + untracked_lines(sv.take(i as int)),
        decreases k - i,
    {
        push_line(out, StatusLine::File { name: files[i].clone(), tone: FileTone::Untracked });
        proof {
            assert(sv[i as int] == files@[i as int]@);
            assert(untracked_lines(sv.take(i + 1)) =~= untracked_lines(sv.take(i as int)).push(
                StatusLineV::File { name: files@[i as int]@, tone: FileTone::Untracked },
            ));
        }
        i = i + 1;
    }
}

fn push_staged(out: &mut Vec<StatusLine>, s: &GitStatus)
    ensures
        lines_view(final(out)@) == lines_view(old(out)@) + staged_section(s@),
{
    let ghost start = lines_view(out@);
    let n = s.staged.len();
    if n > 0 {
        push_line(out, StatusLine::StagedHeader);
        let k = if n < 15 {
            n
        } else {
            15
        };
        push_coded(out, &s.staged, k, FileTone::Staged);
        if n > 15 {
            push_line(out, StatusLine::More(n - 15));
        }
        push_line(out, StatusLine::Blank);
    }
    assert(lines_view(out@) =~= start + staged_section(s@));
}

fn push_unstaged(out: &mut Vec<StatusLine>, s: &GitStatus)
    requires
        s.unstaged@.len() + s.untracked@.len() <= usize::MAX,
    ensures
        lines_view(final(out)@) == lines_view(old(out)@) + unstaged_section(s@),
{
    let ghost start = lines_view(out@);
    let u = s.unstaged.len();
    let t = s.untracked.len();
    if u > 0 || t > 0 {
        push_line(out, StatusLine::UnstagedHeader);
        let k = if u < 15 {
            u
        } else {
            15
        };
        push_coded(out, &s.unstaged, k, FileTone::Unstaged);
        if u > 15 {
            push_line(out, StatusLine::More(u + t - 15));
        } else if u < 15 {
            let room = 15 - u;
            let kt = if t < room {
                t
            } else {
                room
            };
            push_untracked(out, &s.untracked, kt);
            if t > room {
                push_line(out, StatusLine::More(t - room));
            }
        }
    }
    assert(lines_view(out@) =~= start + unstaged_section(s@));
}

impl<'a> StatusTabWidget<'a> {
    /// The lines that the tab shows.
    pub fn lines(&self) -> (r: Vec<StatusLine>)
        requires
            self.status matches Some(s) ==> s.unstaged@.len() + s.untracked@.len() <= usize::MAX,
        ensures
            lines_view(r@) == status_tab_lines(
                match self.status {
                    Some(s) => Some(s@),
                    None => None,
                },
                self.is_bare,
            ),
    {
        let mut out: Vec<StatusLine> = Vec::new();
        assert(lines_view(out@) =~= Seq::<StatusLineV>::empty());
        let s = match self.status {
            Some(s) => s,
            None => {
                if self.is_bare {
                    push_line(&mut out, StatusLine::NotAvailable);
                } else {
                    push_line(&mut out, StatusLine::Loading);
                }
                assert(lines_view(out@) =~= status_tab_lines(None, self.is_bare));
                return out;
            },
        };
        if s.staged.len() == 0 && s.unstaged.len() == 0 && s.untracked.len() == 0 {
            push_line(&mut out, StatusLine::Clean);
            assert(lines_view(out@) =~= seq![StatusLineV::Clean]);
            return out;
        }
        push_staged(&mut out, s);
        push_unstaged(&mut out, s);
        assert(lines_view(out@) =~= staged_section(s@) + unstaged_section(s@));
        out
    }
}

/// The log tab of the dashboard.
pub struct LogTabWidget<'a> {
    pub history: Option<&'a [GitCommit]>,
    pub is_bare: bool,
}

/// What the log tab says instead of commits.
#[derive(Debug, Clone, Copy, PartialEq, Eq, Structural)]
pub enum LogNotice {
    /// "No commit history found."
    NoHistory,
    /// "Not available for bare repository."
    NotAvailable,
    /// "Loading history..."
    Loading,
}

impl<'a> LogTabWidget<'a> {
    /// The notice shown in place of the commits, if any.
    pub fn notice(&self) -> (r: Option<LogNotice>)
        ensures
            r == (match self.history {
                Some(h) => if h@.len() == 0 {
                    Some(LogNotice::NoHistory)
                } else {
                    None
                },
                None => if self.is_bare {
                    Some(LogNotice::NotAvailable)
                } else {
                    Some(LogNotice::Loading)
                },
            }),
    {
        match self.history {
            Some(h) => if h.len() == 0 {
                Some(LogNotice::NoHistory)
            } else {
                None
            },
            None => if self.is_bare {
                Some(LogNotice::NotAvailable)
            } else {
                Some(LogNotice::Loading)
            },
        }
    }
}

/// The dashboard beside the worktree list: a tab bar and the active tab.
pub struct DashboardWidget<'a> {
    pub worktree: Option<&'a Worktree>,
    pub all_worktrees: &'a [Worktree],
    pub context: ProjectContext,
    pub active_tab: DashboardTab,
    pub status: Option<&'a GitStatus>,
    pub history: Option<&'a [GitCommit]>,
}

impl<'a> DashboardWidget<'a> {
    pub fn new(
        worktree: Option<&'a Worktree>,
        all_worktrees: &'a [Worktree],
        context: ProjectContext,
        active_tab: DashboardTab,
        status: Option<&'a GitStatus>,
        history: Option<&'a [GitCommit]>,
    ) -> (r: Self)
        ensures
            r.worktree == worktree,
            r.all_worktrees@ == all_worktrees@,
            r.context == context,
            r.active_tab == active_tab,
            r.status == status,
            r.history == history,
    {
        DashboardWidget { worktree, all_worktrees, context, active_tab, status, history }
    }

    /// Whether the selected worktree is the bare hub.
    pub fn selected_is_bare(&self) -> (b: bool)
        ensures
            b == (self.worktree matches Some(w) && w.is_bare),
    {
        match self.worktree {
            Some(w) => w.is_bare,
            None => false,
        }
    }

    /// The status tab for the selected worktree.
    pub fn status_tab(&self) -> (r: StatusTabWidget<'a>)
        ensures
            r.status == self.status,
            r.is_bare == (self.worktree matches Some(w) && w.is_bare),
    {
        StatusTabWidget { status: self.status, is_bare: self.selected_is_bare() }
    }

    /// The log tab for the selected worktree.
    pub fn log_tab(&self) -> (r: LogTabWidget<'a>)
        ensures
            r.history == self.history,
            r.is_bare == (self.worktree matches Some(w) && w.is_bare),
    {
        LogTabWidget { history: self.history, is_bare: self.selected_is_bare() }
    }
}

/// The details of the selected worktree, or an overview of the hub.
pub struct DetailsWidget<'a> {
    pub worktree: Option<&'a Worktree>,
    pub all_worktrees: &'a [Worktree],
    pub context: ProjectContext,
}

/// Whether a checkout has changes: a status summary other than "clean".
pub open spec fn is_dirty(w: WorktreeView) -> bool {
    w.status_summary matches Some(s) && s != "clean"@
}

/// The number of checkouts (not the hub) among `ws`.
pub open spec fn count_checkouts(ws: Seq<WorktreeView>) -> int
    decreases ws.len(),
{
    if ws.len() == 0 {
        0
    } else {
        count_checkouts(ws.drop_last()) + if ws.last().is_bare {
            0int
        } else {
            1
        }
    }
}

/// The number of checkouts with changes among `ws`.
pub open spec fn count_dirty(ws: Seq<WorktreeView>) -> int
    decreases ws.len(),
{
    if ws.len() == 0 {
        0
    } else {
        count_dirty(ws.drop_last()) + if !ws.last().is_bare && is_dirty(ws.last()) {
            1int
        } else {
            0
        }
    }
}

pub proof fn lemma_dirty_le_checkouts(ws: Seq<WorktreeView>)
    ensures
        0 <= count_dirty(ws) <= count_checkouts(ws) <= ws.len(),
    decreases ws.len(),
{
    if ws.len() > 0 {
        lemma_dirty_le_checkouts(ws.drop_last());
    }
}

/// What the type line of a checkout says.
pub open spec fn kind_label(w: WorktreeView) -> Seq<char> {
    if w.is_bare {
        "BARE (MAIN)"@
    } else if w.is_detached {
        "DETACHED HEAD"@
    } else {
        "STANDARD WORKTREE"@
    }
}

impl<'a> DetailsWidget<'a> {
    pub fn new(worktree: Option<&'a Worktree>, all_worktrees: &'a [Worktree], context: ProjectContext) -> (r: Self)
        ensures
            r.worktree == worktree,
            r.all_worktrees@ == all_worktrees@,
            r.context == context,
    {
        DetailsWidget { worktree, all_worktrees, context }
    }

    /// The hub overview's counts: checkouts, clean ones, dirty ones.
    pub fn hub_counts(&self) -> (r: (usize, usize, usize))
        ensures
            ({
                let ws = worktrees_view(self.all_worktrees@);
                r.0 == count_checkouts(ws) && r.2 == count_dirty(ws) && r.1 == r.0 - r.2
            }),
    {
        let ghost ws = worktrees_view(self.all_worktrees@);
        let clean_word = String::from_str("clean");
        let mut total: usize = 0;
        let mut dirty: usize = 0;
        let mut i: usize = 0;
        while i < self.all_worktrees.len()
            invariant
                i <= self.all_worktrees@.len(),
                ws == worktrees_view(self.all_worktrees@),
                clean_word@ == "clean"@,
                total == count_checkouts(ws.take(i as int)),
                dirty == count_dirty(ws.take(i as int)),
                dirty <= total <= i,
            decreases self.all_worktrees@.len() - i,
        {
            let w = &self.all_worktrees[i];
            proof {
                assert(ws.take(i + 1).drop_last() =~= ws.take(i as int));
                assert(ws[i as int] == w@);
            }
            if !w.is_bare {
                total = total + 1;
                let d = match &w.status_summary {
                    Some(s) => !(*s == clean_word),
                    None => false,
                };
                if d {
                    dirty = dirty + 1;
                }
            }
            i = i + 1;
        }
        assert(ws.take(i as int) =~= ws);
        (total, total - dirty, dirty)
    }

    /// The type line of a checkout.
    pub fn kind_text(w: &Worktree) -> (r: &'static str)
        ensures
            r@ == kind_label(w@),
    {
        if w.is_bare {
            "BARE (MAIN)"
        } else if w.is_detached {
            "DETACHED HEAD"
        } else {
            "STANDARD WORKTREE"
        }
    }
}

/// One line of the details pane.
#[derive(Debug)]
pub enum DetailLine {
    /// A section title.
    Section(&'static str),
    /// A labelled value.
    Field { label: &'static str, value: String, tone: Tone },
    /// A key and the action it starts.
    Action { key: &'static str, label: &'static str, key_tone: Tone, label_tone: Tone },
    Blank,
    /// " NO WORKTREE SELECTED "
    NothingSelected,
    /// "Use j/k to navigate the list."
    NavigateHint,
}

pub enum DetailLineV {
    Section(Seq<char>),
    Field { label: Seq<char>, value: Seq<char>, tone: Tone },
    Action { key: Seq<char>, label: Seq<char>, key_tone: Tone, label_tone: Tone },
    Blank,
    NothingSelected,
    NavigateHint,
}

impl View for DetailLine {
    type V = DetailLineV;

    open spec fn view(&self) -> DetailLineV {
        match self {
            DetailLine::Section(t) => DetailLineV::Section(t@),
            DetailLine::Field { label, value, tone } => DetailLineV::Field {
                label: label@,
                value: value@,
                tone: *tone,
            },
            DetailLine::Action { key, label, key_tone, label_tone } => DetailLineV::Action {
                key: key@,
                label: label@,
                key_tone: *key_tone,
                label_tone: *label_tone,
            },
            DetailLine::Blank => DetailLineV::Blank,
            DetailLine::NothingSelected => DetailLineV::NothingSelected,
            DetailLine::NavigateHint => DetailLineV::NavigateHint,
        }
    }
}

pub open spec fn details_view(v: Seq<DetailLine>) -> Seq<DetailLineV> {
    v.map_values(|l: DetailLine| l@)
}

pub open spec fn section(t: &str) -> DetailLineV {
    DetailLineV::Section(t@)
}

pub open spec fn field(label: &str, value: Seq<char>, tone: Tone) -> DetailLineV {
    DetailLineV::Field { label: label@, value, tone }
}

pub open spec fn action(key: &str, label: &str, key_tone: Tone, label_tone: Tone) -> DetailLineV {
    DetailLineV::Action { key: key@, label: label@, key_tone, label_tone }
}

/// `s` when `b`, else nothing.
pub open spec fn when(b: bool, s: Seq<DetailLineV>) -> Seq<DetailLineV> {
    if b {
        s
    } else {
        Seq::empty()
    }
}

/// The hub overview: counts of checkouts, the hub's path and its actions.
pub open spec fn hub_details(w: WorktreeView, ws: Seq<WorktreeView>, kmp: bool) -> Seq<DetailLineV> {
    let total = count_checkouts(ws);
    let dirty = count_dirty(ws);
    seq![
        section("HUB PROJECT OVERVIEW ─────"),
        field(" TOTAL WORKTREES : ", decimal(total as nat), Tone::Text),
        field(" CLEAN ENV      : ", decimal((total - dirty) as nat), Tone::Success),
        field(
            " DIRTY ENV      : ",
            decimal(dirty as nat),
            if dirty > 0 {
                Tone::Warning
            } else {
                Tone::Subtle
            },
        ),
        DetailLineV::Blank,
        section("CONFIGURATION ──────────"),
        field(" PROJECT HUB    : ", w.path, Tone::Subtle),
    ] + when(kmp, seq![field(" CONTEXT        : ", "KMP / ANDROID"@, Tone::Accent)]) + seq![
        DetailLineV::Blank,
        section("SYSTEM ACTIONS ─────────"),
        action(" [O] ", "Open Project Root", Tone::Primary, Tone::Text),
        action(" [F] ", "Global Fetch", Tone::Primary, Tone::Text),
        action(" [C] ", "Prune Stale Metadata", Tone::Secondary, Tone::Text),
    ]
}

/// The state line of a checkout: a tick or a warning sign and its
/// upper-cased status summary.
pub open spec fn state_line(summary: Seq<char>) -> DetailLineV {
    if summary == "clean"@ {
        field(" STATE  : ", "✔ "@ + unicode_uppercase(summary), Tone::Success)
    } else {
        field(" STATE  : ", "⚠ "@ + unicode_uppercase(summary), Tone::Warning)
    }
}

/// The details of a checkout: identity, status, place on disk and actions.
pub open spec fn checkout_details(w: WorktreeView, kmp: bool) -> Seq<DetailLineV> {
    let name = match path_file_name(w.path) {
        Some(n) => n,
        None => "UNKNOWN"@,
    };
    let purpose = match w.metadata {
        Some(m) => m.purpose,
        None => None,
    };
    seq![section("IDENTITY ───────────────"), field(" INTENT : ", name, Tone::Text)] + match purpose {
        Some(p) => seq![field(" PURPOSE: ", p, Tone::Accent)],
        None => Seq::empty(),
    } + seq![
        field(" BRANCH : ", w.branch, Tone::Primary),
        field(" COMMIT : ", w.commit, Tone::Warning),
        DetailLineV::Blank,
        section("STATUS ─────────────────"),
        field(
            " TYPE   : ",
            kind_label(w),
            if w.is_detached {
                Tone::Error
            } else {
                Tone::Success
            },
        ),
    ] + match w.status_summary {
        Some(s) => seq![state_line(s)],
        None => Seq::empty(),
    } + seq![
        DetailLineV::Blank,
        section("PHYSICAL ───────────────"),
        field(" PATH   : ", w.path, Tone::Subtle),
    ] + when(kmp, seq![field(" OPTIM  : ", "GRADLE_CACHE_ACTIVE"@, Tone::Success)]) + seq![
        DetailLineV::Blank,
        section("ACTIONS ────────────────"),
        action(" [ENT] ", "Open in Editor", Tone::Primary, Tone::Subtle),
        action(" [D/X] ", "Delete Worktree", Tone::Error, Tone::Subtle),
    ]
}

/// What the details pane shows.
pub open spec fn details_of(
    w: Option<WorktreeView>,
    ws: Seq<WorktreeView>,
    ctx: ProjectContext,
) -> Seq<DetailLineV> {
    let kmp = ctx == ProjectContext::KmpAndroid;
    match w {
        Some(w) => if w.is_bare {
            hub_details(w, ws, kmp)
        } else {
            checkout_details(w, kmp)
        },
        None => seq![
            DetailLineV::Blank,
            DetailLineV::NothingSelected,
            DetailLineV::Blank,
            DetailLineV::NavigateHint,
        ],
    }
}

fn push_line_d(v: &mut Vec<DetailLine>, l: DetailLine)
    ensures
        details_view(final(v)@) == details_view(old(v)@).push(l@),
{
    let ghost before = details_view(v@);
    let ghost lv = l@;
    v.push(l);
    assert(details_view(v@) =~= before.push(lv));
}

fn number_text(n: usize) -> (r: String)
    ensures
        r@ == decimal(n as nat),
{
    string_of(decimal_exec(n as u64).as_slice())
}

impl<'a> DetailsWidget<'a> {
    /// The lines of the details pane.
    pub fn lines(&self) -> (r: Vec<DetailLine>)
        ensures
            details_view(r@) == details_of(
                match self.worktree {
                    Some(w) => Some(w@),
                    None => None,
                },
                worktrees_view(self.all_worktrees@),
                self.context,
            ),
    {
        let kmp = match self.context {
            ProjectContext::KmpAndroid => true,
            ProjectContext::Standard => false,
        };
        let mut v: Vec<DetailLine> = Vec::new();
        let w = match self.worktree {
            Some(w) => w,
            None => {
                push_line_d(&mut v, DetailLine::Blank);
                push_line_d(&mut v, DetailLine::NothingSelected);
                push_line_d(&mut v, DetailLine::Blank);
                push_line_d(&mut v, DetailLine::NavigateHint);
                assert(details_view(v@) =~= details_of(None, worktrees_view(self.all_worktrees@), self.context));
                return v;
            },
        };
        if w.is_bare {
            let (total, clean, dirty) = self.hub_counts();
            push_line_d(&mut v, DetailLine::Section("HUB PROJECT OVERVIEW ─────"));
            push_line_d(&mut v, DetailLine::Field { label: " TOTAL WORKTREES : ", value: number_text(total), tone: Tone::Text });
            push_line_d(&mut v, DetailLine::Field { label: " CLEAN ENV      : ", value: number_text(clean), tone: Tone::Success });
            push_line_d(&mut v, DetailLine::Field {
                label: " DIRTY ENV      : ",
                value: number_text(dirty),
                tone: if dirty > 0 {
                    Tone::Warning
                } else {
                    Tone::Subtle
                },
            });
            push_line_d(&mut v, DetailLine::Blank);
            push_line_d(&mut v, DetailLine::Section("CONFIGURATION ──────────"));
            push_line_d(&mut v, DetailLine::Field { label: " PROJECT HUB    : ", value: w.path.clone(), tone: Tone::Subtle });
            if kmp {
                push_line_d(&mut v, DetailLine::Field {
                    label: " CONTEXT        : ",
                    value: String::from_str("KMP / ANDROID"),
                    tone: Tone::Accent,
                });
            }
            push_line_d(&mut v, DetailLine::Blank);
            push_line_d(&mut v, DetailLine::Section("SYSTEM ACTIONS ─────────"));
            push_line_d(&mut v, DetailLine::Action { key: " [O] ", label: "Open Project Root", key_tone: Tone::Primary, label_tone: Tone::Text });
            push_line_d(&mut v, DetailLine::Action { key: " [F] ", label: "Global Fetch", key_tone: Tone::Primary, label_tone: Tone::Text });
            push_line_d(&mut v, DetailLine::Action { key: " [C] ", label: "Prune Stale Metadata", key_tone: Tone::Secondary, label_tone: Tone::Text });
            assert(details_view(v@) =~= hub_details(w@, worktrees_view(self.all_worktrees@), kmp));
            return v;
        }
        let name = match path_file_name_exec(w.path.as_str()) {
            Some(n) => n,
            None => String::from_str("UNKNOWN"),
        };
        push_line_d(&mut v, DetailLine::Section("IDENTITY ───────────────"));
        push_line_d(&mut v, DetailLine::Field { label: " INTENT : ", value: name, tone: Tone::Text });
        let ghost p1 = details_view(v@);
        let purpose = match &w.metadata {
            Some(m) => match &m.purpose {
                Some(p) => Some(p.clone()),
                None => None,
            },
            None => None,
        };
        match purpose {
            Some(p) => push_line_d(&mut v, DetailLine::Field { label: " PURPOSE: ", value: p, tone: Tone::Accent }),
            None => {},
        }
        let ghost p2 = details_view(v@);
        push_line_d(&mut v, DetailLine::Field { label: " BRANCH : ", value: w.branch.clone(), tone: Tone::Primary });
        push_line_d(&mut v, DetailLine::Field { label: " COMMIT : ", value: w.commit.clone(), tone: Tone::Warning });
        push_line_d(&mut v, DetailLine::Blank);
        push_line_d(&mut v, DetailLine::Section("STATUS ─────────────────"));
        push_line_d(&mut v, DetailLine::Field {
            label: " TYPE   : ",
            value: String::from_str(DetailsWidget::kind_text(w)),
            tone: if w.is_detached {
                Tone::Error
            } else {
                Tone::Success
            },
        });
        let ghost p3 = details_view(v@);
        match &w.status_summary {
            Some(sm) => {
                let clean = String::from_str("clean");
                let upper = to_uppercase(sm.as_str());
                let (mut value, tone) = if *sm == clean {
                    (String::from_str("✔ "), Tone::Success)
                } else {
                    (String::from_str("⚠ "), Tone::Warning)
                };
                value.append(upper.as_str());
                push_line_d(&mut v, DetailLine::Field { label: " STATE  : ", value, tone });
            },
            None => {},
        }
        let ghost p4 = details_view(v@);
        push_line_d(&mut v, DetailLine::Blank);
        push_line_d(&mut v, DetailLine::Section("PHYSICAL ───────────────"));
        push_line_d(&mut v, DetailLine::Field { label: " PATH   : ", value: w.path.clone(), tone: Tone::Subtle });
        if kmp {
            push_line_d(&mut v, DetailLine::Field {
                label: " OPTIM  : ",
                value: String::from_str("GRADLE_CACHE_ACTIVE"),
                tone: Tone::Success,
            });
        }
        push_line_d(&mut v, DetailLine::Blank);
        push_line_d(&mut v, DetailLine::Section("ACTIONS ────────────────"));
        push_line_d(&mut v, DetailLine::Action { key: " [ENT] ", label: "Open in Editor", key_tone: Tone::Primary, label_tone: Tone::Subtle });
        push_line_d(&mut v, DetailLine::Action { key: " [D/X] ", label: "Delete Worktree", key_tone: Tone::Error, label_tone: Tone::Subtle });
        assert(details_view(v@) =~= checkout_details(w@, kmp));
        v
    }
}

/// The list of stashes of a worktree.
pub struct StashListWidget;

impl StashListWidget {
    /// The label of stash `index`: " stash@{N} ".
    pub fn stash_label(index: usize) -> (r: String)
        ensures
            r@ == " stash@{"@ + decimal(index as nat) + "} "@,
    {
        let mut s = String::from_str(" stash@{");
        let digits = string_of(decimal_exec(index as u64).as_slice());
        s.append(digits.as_str());
        s.append("} ");
        s
    }
}

} // verus!
