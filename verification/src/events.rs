//! Inputs that reach the interface (keys, mouse, background results) and
//! the work that the interface asks the application to start.
use vstd::prelude::*;
use crate::domain::{GitCommit, GitStatus, StashEntry, Worktree};

verus! {

/// A key, as the terminal reports it.
#[derive(Debug, Clone, Copy, PartialEq, Eq, Structural)]
pub enum KeyCode {
    Char(char),
    Enter,
    Esc,
    Backspace,
    Up,
    Down,
    Left,
    Right,
    Tab,
    Other,
}

/// A key press with its modifiers.
#[derive(Debug, Clone, Copy, PartialEq, Eq, Structural)]
pub struct KeyInput {
    pub code: KeyCode,
    pub ctrl: bool,
    pub shift: bool,
}

#[derive(Debug, Clone, Copy, PartialEq, Eq, Structural)]
pub enum MouseKind {
    LeftDown,
    ScrollDown,
    ScrollUp,
    Moved,
    Drag,
    Other,
}

/// A mouse event at a terminal cell.
#[derive(Debug, Clone, Copy, PartialEq, Eq, Structural)]
pub struct MouseInput {
    pub kind: MouseKind,
    pub column: u16,
    pub row: u16,
}

#[derive(Debug, Clone, Copy, PartialEq, Eq, Structural)]
pub enum InputEvent {
    Key(KeyInput),
    Mouse(MouseInput),
    Other,
}

/// `char::to_ascii_lowercase`.
pub open spec fn ascii_lower(c: char) -> char {
    if 'A' <= c && c <= 'Z' {
        ((c as u32) + 32) as char
    } else {
        c
    }
}

/// The key with letters lower-cased, as most menus compare keys.
pub open spec fn normalized(code: KeyCode) -> KeyCode {
    match code {
        KeyCode::Char(c) => KeyCode::Char(ascii_lower(c)),
        other => other,
    }
}

pub fn to_ascii_lower(c: char) -> (r: char)
    ensures
        r == ascii_lower(c),
{
    if 'A' <= c && c <= 'Z' {
        let v: u32 = (c as u32) + 32;
        let b: u8 = v as u8;
        assert(b as u32 == v);
        let r = b as char;
        r
    } else {
        c
    }
}

pub fn normalize(code: KeyCode) -> (r: KeyCode)
    ensures
        r == normalized(code),
{
    match code {
        KeyCode::Char(c) => KeyCode::Char(to_ascii_lower(c)),
        other => other,
    }
}

/// Work that the interface asks the application to start in the
/// background; each completes with an `AsyncResult`, except the editor and
/// file-manager launches.
#[derive(Debug)]
pub enum Effect {
    FetchStatus { path: String },
    FetchHistory { path: String, limit: usize },
    Fetch { path: String, branch: String },
    Pull { path: String, branch: String },
    Push { path: String, branch: String },
    SyncConfigs { path: String, branch: String },
    ListBranches,
    Clean { dry_run: bool, artifacts: bool },
    StageFile { path: String, file: String },
    UnstageFile { path: String, file: String },
    StageAll { path: String },
    UnstageAll { path: String },
    GetDiff { path: String },
    SwitchBranch { path: String, branch: String },
    GenerateCommitMessage { path: String, branch: String },
    ListStashes { path: String },
    ListWorktrees,
    /// Open `path` with the preferred editor, if one is configured.
    OpenInPreferredEditor { path: String },
    /// Open the project root with the preferred editor, if one is configured.
    OpenRootInPreferredEditor,
    /// Open the project root in the system file manager.
    OpenRootInFileManager,
    /// Remember `editor` as the preferred editor.
    SavePreferredEditor { editor: String },
    /// Start `command` with `path` as its argument.
    SpawnEditor { command: String, path: String },
}

pub enum EffectV {
    FetchStatus { path: Seq<char> },
    FetchHistory { path: Seq<char>, limit: usize },
    Fetch { path: Seq<char>, branch: Seq<char> },
    Pull { path: Seq<char>, branch: Seq<char> },
    Push { path: Seq<char>, branch: Seq<char> },
    SyncConfigs { path: Seq<char>, branch: Seq<char> },
    ListBranches,
    Clean { dry_run: bool, artifacts: bool },
    StageFile { path: Seq<char>, file: Seq<char> },
    UnstageFile { path: Seq<char>, file: Seq<char> },
    StageAll { path: Seq<char> },
    UnstageAll { path: Seq<char> },
    GetDiff { path: Seq<char> },
    SwitchBranch { path: Seq<char>, branch: Seq<char> },
    GenerateCommitMessage { path: Seq<char>, branch: Seq<char> },
    ListStashes { path: Seq<char> },
    ListWorktrees,
    OpenInPreferredEditor { path: Seq<char> },
    OpenRootInPreferredEditor,
    OpenRootInFileManager,
    SavePreferredEditor { editor: Seq<char> },
    SpawnEditor { command: Seq<char>, path: Seq<char> },
}

impl View for Effect {
    type V = EffectV;

    open spec fn view(&self) -> EffectV {
        match self {
            Effect::FetchStatus { path } => EffectV::FetchStatus { path: path@ },
            Effect::FetchHistory { path, limit } => EffectV::FetchHistory {
                path: path@,
                limit: *limit,
            },
            Effect::Fetch { path, branch } => EffectV::Fetch { path: path@, branch: branch@ },
            Effect::Pull { path, branch } => EffectV::Pull { path: path@, branch: branch@ },
            Effect::Push { path, branch } => EffectV::Push { path: path@, branch: branch@ },
            Effect::SyncConfigs { path, branch } => EffectV::SyncConfigs {
                path: path@,
                branch: branch@,
            },
            Effect::ListBranches => EffectV::ListBranches,
            Effect::Clean { dry_run, artifacts } => EffectV::Clean {
                dry_run: *dry_run,
                artifacts: *artifacts,
            },
            Effect::StageFile { path, file } => EffectV::StageFile { path: path@, file: file@ },
            Effect::UnstageFile { path, file } => EffectV::UnstageFile { path: path@, file: file@ },
            Effect::StageAll { path } => EffectV::StageAll { path: path@ },
            Effect::UnstageAll { path } => EffectV::UnstageAll { path: path@ },
            Effect::GetDiff { path } => EffectV::GetDiff { path: path@ },
            Effect::SwitchBranch { path, branch } => EffectV::SwitchBranch {
                path: path@,
                branch: branch@,
            },
            Effect::GenerateCommitMessage { path, branch } => EffectV::GenerateCommitMessage {
                path: path@,
                branch: branch@,
            },
            Effect::ListStashes { path } => EffectV::ListStashes { path: path@ },
            Effect::ListWorktrees => EffectV::ListWorktrees,
            Effect::OpenInPreferredEditor { path } => EffectV::OpenInPreferredEditor {
                path: path@,
            },
            Effect::OpenRootInPreferredEditor => EffectV::OpenRootInPreferredEditor,
            Effect::OpenRootInFileManager => EffectV::OpenRootInFileManager,
            Effect::SavePreferredEditor { editor } => EffectV::SavePreferredEditor {
                editor: editor@,
            },
            Effect::SpawnEditor { command, path } => EffectV::SpawnEditor {
                command: command@,
                path: path@,
            },
        }
    }
}

pub open spec fn effects_view(v: Seq<Effect>) -> Seq<EffectV> {
    v.map_values(|e: Effect| e@)
}

/// A list of one piece of work.
pub fn one_effect(e: Effect) -> (r: Vec<Effect>)
    ensures
        effects_view(r@) == seq![e@],
{
    let mut v: Vec<Effect> = Vec::new();
    v.push(e);
    assert(effects_view(v@) =~= seq![e@]);
    v
}

/// An empty list of work.
pub fn no_work() -> (r: Vec<Effect>)
    ensures
        effects_view(r@) == Seq::<EffectV>::empty(),
{
    let v: Vec<Effect> = Vec::new();
    assert(effects_view(v@) =~= Seq::<EffectV>::empty());
    v
}

/// The outcome of background work, with errors as their messages.
#[allow(inconsistent_fields)]
#[derive(Debug)]
pub enum AsyncResult {
    FetchCompleted { branch: String, result: Result<(), String> },
    PullCompleted { branch: String, result: Result<(), String> },
    PushCompleted { branch: String, result: Result<(), String> },
    StatusFetched { path: String, result: Result<GitStatus, String> },
    HistoryFetched { path: String, result: Result<Vec<GitCommit>, String> },
    SyncCompleted { branch: String, result: Result<(), String> },
    BranchesFetched { result: Result<Vec<String>, String> },
    CleanCompleted { result: Result<Vec<String>, String> },
    StagedFile { path: String, result: Result<(), String> },
    UnstagedFile { path: String, result: Result<(), String> },
    StagedAll { path: String, result: Result<(), String> },
    UnstagedAll { path: String, result: Result<(), String> },
    BranchSwitched { path: String, result: Result<(), String> },
    DiffFetched { path: String, result: Result<String, String> },
    CommitMessageGenerated { result: Result<String, String> },
    StashesFetched { path: String, result: Result<Vec<StashEntry>, String> },
    StashApplied { result: Result<(), String> },
    StashPopped { result: Result<(), String> },
    StashDropped { result: Result<(), String> },
    StashSaved { result: Result<(), String> },
    WorktreesListed { result: Result<Vec<Worktree>, String> },
}

/// The work that the command line starts in the background.
#[derive(Debug)]
pub enum AsyncAction {
    Fetch { path: String, branch: String },
    Pull { path: String, branch: String },
    Push { path: String, branch: String },
    GetStatus { path: String },
    GetHistory { path: String, limit: usize },
    SyncConfigs { path: String, branch: String },
}

} // verus!
