//! The application model: modes, the states of the interactive interface,
//! and the intents that the command line and the interface produce.
use vstd::prelude::*;
use crate::domain::{
    commits_view, copy_commits, copy_opt_string, copy_pairs, copy_stashes, copy_strings,
    copy_worktrees, opt_view, pairs_view, stashes_view, strings_view, worktrees_view, GitCommit,
    GitCommitView, GitStatus, GitStatusView, StashEntry, StashEntryView, Worktree, WorktreeView,
};
use fuzzy_matcher::FuzzyMatcher;

verus! {

/// What a text prompt asks for.
#[derive(Debug)]
pub enum PromptType {
    NameNewWorktree { base_ref: String },
    CommitMessage,
    StashMessage,
    ApiKey,
}

pub enum PromptTypeV {
    NameNewWorktree { base_ref: Seq<char> },
    CommitMessage,
    StashMessage,
    ApiKey,
}

impl View for PromptType {
    type V = PromptTypeV;

    open spec fn view(&self) -> PromptTypeV {
        match self {
            PromptType::NameNewWorktree { base_ref } => PromptTypeV::NameNewWorktree {
                base_ref: base_ref@,
            },
            PromptType::CommitMessage => PromptTypeV::CommitMessage,
            PromptType::StashMessage => PromptTypeV::StashMessage,
            PromptType::ApiKey => PromptTypeV::ApiKey,
        }
    }
}

impl PromptType {
    pub fn copy(&self) -> (r: PromptType)
        ensures
            r@ == self@,
    {
        match self {
            PromptType::NameNewWorktree { base_ref } => PromptType::NameNewWorktree {
                base_ref: base_ref.clone(),
            },
            PromptType::CommitMessage => PromptType::CommitMessage,
            PromptType::StashMessage => PromptType::StashMessage,
            PromptType::ApiKey => PromptType::ApiKey,
        }
    }
}

/// The key-binding mode of the worktree list.
#[derive(Debug, Clone, Copy, PartialEq, Eq, Structural)]
pub enum AppMode {
    Normal,
    Manage,
    Git,
    Filter,
}

#[derive(Debug, Clone, Copy, PartialEq, Eq, Structural)]
pub enum DashboardTab {
    Info,
    Status,
    Log,
}

#[derive(Debug, Clone, Copy, PartialEq, Eq, Structural)]
pub enum RefreshType {
    /// Nothing to refresh.
    Nothing,
    Dashboard,
    Full,
}

/// An editor that a worktree can be opened in.
#[derive(Debug)]
pub struct EditorConfig {
    pub name: String,
    pub command: String,
}

pub open spec fn editors_view(v: Seq<EditorConfig>) -> Seq<(Seq<char>, Seq<char>)> {
    v.map_values(|e: EditorConfig| (e.name@, e.command@))
}

pub fn copy_editors(v: &Vec<EditorConfig>) -> (r: Vec<EditorConfig>)
    ensures
        editors_view(r@) == editors_view(v@),
{
    let mut r: Vec<EditorConfig> = Vec::new();
    let mut i: usize = 0;
    while i < v.len()
        invariant
            i <= v.len(),
            r@.len() == i,
            forall|j: int|
                0 <= j < i ==> (#[trigger] r@[j]).name@ == v@[j].name@ && r@[j].command@
                    == v@[j].command@,
        decreases v.len() - i,
    {
        r.push(EditorConfig { name: v[i].name.clone(), command: v[i].command.clone() });
        i = i + 1;
    }
    assert(editors_view(r@) =~= editors_view(v@));
    r
}

fn editor(name: &str, command: &str) -> (e: EditorConfig)
    ensures
        e.name@ == name@,
        e.command@ == command@,
{
    EditorConfig { name: name.to_owned(), command: command.to_owned() }
}

impl EditorConfig {
    /// The editors offered by default, in menu order.
    pub fn defaults() -> (r: Vec<EditorConfig>)
        ensures
            editors_view(r@) == seq![
                ("VS Code"@, "code"@),
                ("Cursor"@, "cursor"@),
                ("Zed"@, "zed"@),
                ("Android Studio"@, "studio"@),
                ("IntelliJ IDEA"@, "idea"@),
                ("Vim"@, "vim"@),
                ("Neovim"@, "nvim"@),
                ("Antigravity"@, "antigravity"@),
            ],
    {
        let mut r: Vec<EditorConfig> = Vec::new();
        r.push(editor("VS Code", "code"));
        r.push(editor("Cursor", "cursor"));
        r.push(editor("Zed", "zed"));
        r.push(editor("Android Studio", "studio"));
        r.push(editor("IntelliJ IDEA", "idea"));
        r.push(editor("Vim", "vim"));
        r.push(editor("Neovim", "nvim"));
        r.push(editor("Antigravity", "antigravity"));
        let ghost want = seq![
            ("VS Code"@, "code"@),
            ("Cursor"@, "cursor"@),
            ("Zed"@, "zed"@),
            ("Android Studio"@, "studio"@),
            ("IntelliJ IDEA"@, "idea"@),
            ("Vim"@, "vim"@),
            ("Neovim"@, "nvim"@),
            ("Antigravity"@, "antigravity"@),
        ];
        assert(editors_view(r@) =~= want);
        r
    }
}

/// The detailed status view of one worktree.
#[derive(Debug)]
pub struct StatusViewState {
    pub staged: Vec<(String, String)>,
    pub unstaged: Vec<(String, String)>,
    pub untracked: Vec<String>,
    pub selected_index: usize,
    pub diff_preview: Option<String>,
    pub show_diff: bool,
}

#[verifier::ext_equal]
pub struct StatusViewStateV {
    pub staged: Seq<(Seq<char>, Seq<char>)>,
    pub unstaged: Seq<(Seq<char>, Seq<char>)>,
    pub untracked: Seq<Seq<char>>,
    pub selected_index: usize,
    pub diff_preview: Option<Seq<char>>,
    pub show_diff: bool,
}

impl View for StatusViewState {
    type V = StatusViewStateV;

    open spec fn view(&self) -> StatusViewStateV {
        StatusViewStateV {
            staged: pairs_view(self.staged@),
            unstaged: pairs_view(self.unstaged@),
            untracked: strings_view(self.untracked@),
            selected_index: self.selected_index,
            diff_preview: opt_view(self.diff_preview),
            show_diff: self.show_diff,
        }
    }
}

impl StatusViewStateV {
    pub open spec fn total(self) -> int {
        (self.staged.len() + self.unstaged.len() + self.untracked.len()) as int
    }

    /// The file at the selected row: staged entries first, then unstaged,
    /// then untracked.
    pub open spec fn selected_file(self) -> Option<Seq<char>> {
        let i = self.selected_index as int;
        let s = self.staged.len() as int;
        let u = self.unstaged.len() as int;
        if i < s {
            Some(self.staged[i].0)
        } else if i < s + u {
            Some(self.unstaged[i - s].0)
        } else if i < self.total() {
            Some(self.untracked[i - s - u])
        } else {
            None
        }
    }
}

impl StatusViewState {
    /// Number of files listed (staged, unstaged and untracked).
    pub fn total(&self) -> (r: usize)
        requires
            self.staged@.len() + self.unstaged@.len() + self.untracked@.len() <= usize::MAX,
        ensures
            r as int == self@.total(),
    {
        self.staged.len() + self.unstaged.len() + self.untracked.len()
    }

    /// The file at the selected row, if the selection is on a row.
    pub fn selected_file(&self) -> (r: Option<&str>)
        requires
            self.staged@.len() + self.unstaged@.len() + self.untracked@.len() <= usize::MAX,
        ensures
            match r {
                Some(f) => self@.selected_file() == Some(f@),
                None => self@.selected_file().is_none(),
            },
    {
        let idx = self.selected_index;
        if idx < self.staged.len() {
            Some(self.staged[idx].0.as_str())
        } else if idx < self.staged.len() + self.unstaged.len() {
            Some(self.unstaged[idx - self.staged.len()].0.as_str())
        } else if idx < self.total() {
            Some(self.untracked[idx - self.staged.len() - self.unstaged.len()].as_str())
        } else {
            None
        }
    }

    pub fn copy(&self) -> (r: StatusViewState)
        ensures
            r@ == self@,
    {
        StatusViewState {
            staged: copy_pairs(&self.staged),
            unstaged: copy_pairs(&self.unstaged),
            untracked: copy_strings(&self.untracked),
            selected_index: self.selected_index,
            diff_preview: copy_opt_string(&self.diff_preview),
            show_diff: self.show_diff,
        }
    }
}

/// The dashboard beside the worktree list.
#[derive(Debug)]
pub struct DashboardState {
    pub active_tab: DashboardTab,
    pub cached_status: Option<GitStatus>,
    pub cached_history: Option<Vec<GitCommit>>,
    pub loading: bool,
}

#[verifier::ext_equal]
pub struct DashboardStateV {
    pub active_tab: DashboardTab,
    pub cached_status: Option<GitStatusView>,
    pub cached_history: Option<Seq<GitCommitView>>,
    pub loading: bool,
}

impl View for DashboardState {
    type V = DashboardStateV;

    open spec fn view(&self) -> DashboardStateV {
        DashboardStateV {
            active_tab: self.active_tab,
            cached_status: match &self.cached_status {
                Some(s) => Some(s@),
                None => None,
            },
            cached_history: match &self.cached_history {
                Some(h) => Some(commits_view(h@)),
                None => None,
            },
            loading: self.loading,
        }
    }
}

impl DashboardState {
    pub fn copy(&self) -> (r: DashboardState)
        ensures
            r@ == self@,
    {
        DashboardState {
            active_tab: self.active_tab,
            cached_status: match &self.cached_status {
                Some(s) => Some(s.copy()),
                None => None,
            },
            cached_history: match &self.cached_history {
                Some(h) => Some(copy_commits(h)),
                None => None,
            },
            loading: self.loading,
        }
    }
}

/// The shells that completions can be generated for.
#[derive(Debug, Clone, Copy, PartialEq, Eq, Structural)]
pub enum Shell {
    Bash,
    Elvish,
    Fish,
    PowerShell,
    Zsh,
}

/// What the user asked the tool to do.
#[allow(inconsistent_fields)]
#[derive(Debug)]
pub enum Intent {
    Initialize { url: Option<String>, name: Option<String>, warp: bool },
    AddWorktree { intent: String, branch: Option<String> },
    RemoveWorktree { intent: String, force: bool },
    ListWorktrees,
    SetupDefaults,
    RunCommand { intent: String, branch: Option<String>, command: Vec<String> },
    SyncConfigurations { intent: Option<String> },
    Pull { intent: Option<String> },
    Push { intent: Option<String> },
    Config { key: Option<String>, show: bool },
    CleanWorktrees { dry_run: bool, artifacts: bool },
    SwitchWorktree { name: String, copy: bool },
    Convert { name: Option<String>, branch: Option<String> },
    CheckoutWorktree { intent: String, branch: String },
    Completions { shell: Shell },
    Open,
    Migrate { force: bool, dry_run: bool },
    Rebase { upstream: Option<String> },
    Teleport { target: String },
    ViewStashes { path: String, branch: String },
    ApplyStash { path: String, index: usize },
    PopStash { path: String, index: usize },
    DropStash { path: String, index: usize },
    StashSave { path: String, message: Option<String> },
    ChangeMode(AppMode),
}

#[allow(inconsistent_fields)]
pub enum IntentV {
    Initialize { url: Option<Seq<char>>, name: Option<Seq<char>>, warp: bool },
    AddWorktree { intent: Seq<char>, branch: Option<Seq<char>> },
    RemoveWorktree { intent: Seq<char>, force: bool },
    ListWorktrees,
    SetupDefaults,
    RunCommand { intent: Seq<char>, branch: Option<Seq<char>>, command: Seq<Seq<char>> },
    SyncConfigurations { intent: Option<Seq<char>> },
    Pull { intent: Option<Seq<char>> },
    Push { intent: Option<Seq<char>> },
    Config { key: Option<Seq<char>>, show: bool },
    CleanWorktrees { dry_run: bool, artifacts: bool },
    SwitchWorktree { name: Seq<char>, copy: bool },
    Convert { name: Option<Seq<char>>, branch: Option<Seq<char>> },
    CheckoutWorktree { intent: Seq<char>, branch: Seq<char> },
    Completions { shell: Shell },
    Open,
    Migrate { force: bool, dry_run: bool },
    Rebase { upstream: Option<Seq<char>> },
    Teleport { target: Seq<char> },
    ViewStashes { path: Seq<char>, branch: Seq<char> },
    ApplyStash { path: Seq<char>, index: usize },
    PopStash { path: Seq<char>, index: usize },
    DropStash { path: Seq<char>, index: usize },
    StashSave { path: Seq<char>, message: Option<Seq<char>> },
    ChangeMode(AppMode),
}

impl View for Intent {
    type V = IntentV;

    open spec fn view(&self) -> IntentV {
        match self {
            Intent::Initialize { url, name, warp } => IntentV::Initialize {
                url: opt_view(*url),
                name: opt_view(*name),
                warp: *warp,
            },
            Intent::AddWorktree { intent, branch } => IntentV::AddWorktree {
                intent: intent@,
                branch: opt_view(*branch),
            },
            Intent::RemoveWorktree { intent, force } => IntentV::RemoveWorktree {
                intent: intent@,
                force: *force,
            },
            Intent::ListWorktrees => IntentV::ListWorktrees,
            Intent::SetupDefaults => IntentV::SetupDefaults,
            Intent::RunCommand { intent, branch, command } => IntentV::RunCommand {
                intent: intent@,
                branch: opt_view(*branch),
                command: strings_view(command@),
            },
            Intent::SyncConfigurations { intent } => IntentV::SyncConfigurations {
                intent: opt_view(*intent),
            },
            Intent::Pull { intent } => IntentV::Pull { intent: opt_view(*intent) },
            Intent::Push { intent } => IntentV::Push { intent: opt_view(*intent) },
            Intent::Config { key, show } => IntentV::Config { key: opt_view(*key), show: *show },
            Intent::CleanWorktrees { dry_run, artifacts } => IntentV::CleanWorktrees {
                dry_run: *dry_run,
                artifacts: *artifacts,
            },
            Intent::SwitchWorktree { name, copy } => IntentV::SwitchWorktree {
                name: name@,
                copy: *copy,
            },
            Intent::Convert { name, branch } => IntentV::Convert {
                name: opt_view(*name),
                branch: opt_view(*branch),
            },
            Intent::CheckoutWorktree { intent, branch } => IntentV::CheckoutWorktree {
                intent: intent@,
                branch: branch@,
            },
            Intent::Completions { shell } => IntentV::Completions { shell: *shell },
            Intent::Open => IntentV::Open,
            Intent::Migrate { force, dry_run } => IntentV::Migrate {
                force: *force,
                dry_run: *dry_run,
            },
            Intent::Rebase { upstream } => IntentV::Rebase { upstream: opt_view(*upstream) },
            Intent::Teleport { target } => IntentV::Teleport { target: target@ },
            Intent::ViewStashes { path, branch } => IntentV::ViewStashes {
                path: path@,
                branch: branch@,
            },
            Intent::ApplyStash { path, index } => IntentV::ApplyStash {
                path: path@,
                index: *index,
            },
            Intent::PopStash { path, index } => IntentV::PopStash { path: path@, index: *index },
            Intent::DropStash { path, index } => IntentV::DropStash { path: path@, index: *index },
            Intent::StashSave { path, message } => IntentV::StashSave {
                path: path@,
                message: opt_view(*message),
            },
            Intent::ChangeMode(m) => IntentV::ChangeMode(*m),
        }
    }
}

impl Intent {
    pub fn copy(&self) -> (r: Intent)
        ensures
            r@ == self@,
    {
        match self {
            Intent::Initialize { url, name, warp } => Intent::Initialize {
                url: copy_opt_string(url),
                name: copy_opt_string(name),
                warp: *warp,
            },
            Intent::AddWorktree { intent, branch } => Intent::AddWorktree {
                intent: intent.clone(),
                branch: copy_opt_string(branch),
            },
            Intent::RemoveWorktree { intent, force } => Intent::RemoveWorktree {
                intent: intent.clone(),
                force: *force,
            },
            Intent::ListWorktrees => Intent::ListWorktrees,
            Intent::SetupDefaults => Intent::SetupDefaults,
            Intent::RunCommand { intent, branch, command } => Intent::RunCommand {
                intent: intent.clone(),
                branch: copy_opt_string(branch),
                command: copy_strings(command),
            },
            Intent::SyncConfigurations { intent } => Intent::SyncConfigurations {
                intent: copy_opt_string(intent),
            },
            Intent::Pull { intent } => Intent::Pull { intent: copy_opt_string(intent) },
            Intent::Push { intent } => Intent::Push { intent: copy_opt_string(intent) },
            Intent::Config { key, show } => Intent::Config {
                key: copy_opt_string(key),
                show: *show,
            },
            Intent::CleanWorktrees { dry_run, artifacts } => Intent::CleanWorktrees {
                dry_run: *dry_run,
                artifacts: *artifacts,
            },
            Intent::SwitchWorktree { name, copy } => Intent::SwitchWorktree {
                name: name.clone(),
                copy: *copy,
            },
            Intent::Convert { name, branch } => Intent::Convert {
                name: copy_opt_string(name),
                branch: copy_opt_string(branch),
            },
            Intent::CheckoutWorktree { intent, branch } => Intent::CheckoutWorktree {
                intent: intent.clone(),
                branch: branch.clone(),
            },
            Intent::Completions { shell } => Intent::Completions { shell: *shell },
            Intent::Open => Intent::Open,
            Intent::Migrate { force, dry_run } => Intent::Migrate {
                force: *force,
                dry_run: *dry_run,
            },
            Intent::Rebase { upstream } => Intent::Rebase { upstream: copy_opt_string(upstream) },
            Intent::Teleport { target } => Intent::Teleport { target: target.clone() },
            Intent::ViewStashes { path, branch } => Intent::ViewStashes {
                path: path.clone(),
                branch: branch.clone(),
            },
            Intent::ApplyStash { path, index } => Intent::ApplyStash {
                path: path.clone(),
                index: *index,
            },
            Intent::PopStash { path, index } => Intent::PopStash {
                path: path.clone(),
                index: *index,
            },
            Intent::DropStash { path, index } => Intent::DropStash {
                path: path.clone(),
                index: *index,
            },
            Intent::StashSave { path, message } => Intent::StashSave {
                path: path.clone(),
                message: copy_opt_string(message),
            },
            Intent::ChangeMode(m) => Intent::ChangeMode(*m),
        }
    }
}

/// The possible states of the interactive interface.
#[allow(inconsistent_fields)]
///
/// Times are milliseconds on a clock that the application supplies.
#[derive(Debug)]
pub enum AppState {
    /// The starting state when no project is detected.
    Welcome,
    /// Actively initializing a new bare repository.
    Initializing { project_name: String },
    /// Successfully initialized a new repository.
    Initialized { project_name: String },
    /// Actively adding a new worktree.
    AddingWorktree { intent: String, branch: String },
    /// Successfully added a new worktree.
    WorktreeAdded { intent: String },
    /// Actively removing a worktree.
    RemovingWorktree { intent: String },
    /// Successfully removed a worktree.
    WorktreeRemoved,
    /// Confirming a destructive operation.
    Confirming { title: String, message: String, action: Box<Intent>, prev_state: Box<AppState> },
    /// Synchronizing configuration files.
    Syncing { branch: String, prev_state: Box<AppState> },
    /// Synchronization completed.
    SyncComplete { branch: String, prev_state: Box<AppState> },
    /// Help modal showing shortcuts.
    Help { prev_state: Box<AppState> },
    /// Fetching from remote.
    Fetching { branch: String, prev_state: Box<AppState> },
    /// Pulling from remote.
    Pulling { branch: String, prev_state: Box<AppState> },
    /// Pull completed.
    PullComplete { branch: String, prev_state: Box<AppState> },
    /// Pushing changes to remote.
    Pushing { branch: String, prev_state: Box<AppState> },
    /// Push completed.
    PushComplete { branch: String, prev_state: Box<AppState> },
    /// Selecting an editor to open a worktree.
    SelectingEditor {
        branch: String,
        options: Vec<EditorConfig>,
        selected: usize,
        prev_state: Box<AppState>,
    },
    /// Opening a worktree in the selected editor.
    OpeningEditor { branch: String, editor: String, prev_state: Box<AppState> },
    /// The primary state showing all active worktrees.
    ListingWorktrees {
        worktrees: Vec<Worktree>,
        filtered_worktrees: Vec<Worktree>,
        /// The selected row of the (filtered) table.
        selected: Option<usize>,
        refresh_needed: RefreshType,
        selection_mode: bool,
        dashboard: DashboardState,
        filter_query: String,
        is_filtering: bool,
        mode: AppMode,
        last_selection_change: u64,
    },
    /// Detailed Git status view for a specific worktree.
    ViewingStatus {
        path: String,
        branch: String,
        status: StatusViewState,
        prev_state: Box<AppState>,
    },
    /// Git stash view.
    ViewingStashes {
        path: String,
        branch: String,
        stashes: Vec<StashEntry>,
        selected_index: usize,
        prev_state: Box<AppState>,
    },
    /// Loading stashes for a worktree.
    LoadingStashes {
        path: String,
        branch: String,
        selected_index: usize,
        prev_state: Box<AppState>,
    },
    /// Actively applying/popping/dropping/saving stash.
    StashAction { message: String, prev_state: Box<AppState> },
    /// Git commit history log view.
    ViewingHistory {
        branch: String,
        commits: Vec<GitCommit>,
        selected_index: usize,
        prev_state: Box<AppState>,
    },
    /// Loading status for a worktree.
    LoadingStatus { path: String, branch: String, prev_state: Box<AppState> },
    /// Loading history for a worktree.
    LoadingHistory { branch: String, prev_state: Box<AppState> },
    /// Loading branches for selection.
    LoadingBranches { prev_state: Box<AppState> },
    /// Cleaning stale worktrees/artifacts.
    Cleaning { prev_state: Box<AppState> },
    /// Actively staging a file.
    Staging { path: String, prev_state: Box<AppState> },
    /// Actively unstaging a file.
    Unstaging { path: String, prev_state: Box<AppState> },
    /// Actively switching branch.
    SwitchingBranchTask { path: String, prev_state: Box<AppState> },
    /// Actively generating a commit message.
    GeneratingCommitMessage { prev_state: Box<AppState> },
    /// Loading diff for preview.
    LoadingDiff { prev_state: Box<AppState> },
    /// Branch selection menu for switching worktree branches.
    SwitchingBranch {
        path: String,
        branches: Vec<String>,
        selected_index: usize,
        prev_state: Box<AppState>,
    },
    /// Commit menu selection.
    Committing { path: String, branch: String, selected_index: usize, prev_state: Box<AppState> },
    /// Branch selection menu for creating a new worktree.
    PickingBaseRef { branches: Vec<String>, selected_index: usize, prev_state: Box<AppState> },
    /// General purpose text input prompt.
    Prompting { prompt_type: PromptType, input: String, prev_state: Box<AppState> },
    /// Initial setup of canonical worktrees.
    SettingUpDefaults,
    /// Canonical setup completed.
    SetupComplete,
    /// Temporary state that turns into `target_state` once `duration`
    /// milliseconds have passed since `start_time`.
    Timed {
        inner_state: Box<AppState>,
        target_state: Box<AppState>,
        start_time: u64,
        duration: u64,
    },
    /// An error state with a message.
    Error(String, Box<AppState>),
    /// Signal to exit the application.
    Exiting(Option<String>),
}

/// The mathematical value of an `AppState`: strings as character sequences.
#[allow(inconsistent_fields)]
pub enum AppStateV {
    Welcome,
    Initializing { project_name: Seq<char> },
    Initialized { project_name: Seq<char> },
    AddingWorktree { intent: Seq<char>, branch: Seq<char> },
    WorktreeAdded { intent: Seq<char> },
    RemovingWorktree { intent: Seq<char> },
    WorktreeRemoved,
    Confirming {
        title: Seq<char>,
        message: Seq<char>,
        action: IntentV,
        prev_state: Box<AppStateV>,
    },
    Syncing { branch: Seq<char>, prev_state: Box<AppStateV> },
    SyncComplete { branch: Seq<char>, prev_state: Box<AppStateV> },
    Help { prev_state: Box<AppStateV> },
    Fetching { branch: Seq<char>, prev_state: Box<AppStateV> },
    Pulling { branch: Seq<char>, prev_state: Box<AppStateV> },
    PullComplete { branch: Seq<char>, prev_state: Box<AppStateV> },
    Pushing { branch: Seq<char>, prev_state: Box<AppStateV> },
    PushComplete { branch: Seq<char>, prev_state: Box<AppStateV> },
    SelectingEditor {
        branch: Seq<char>,
        options: Seq<(Seq<char>, Seq<char>)>,
        selected: usize,
        prev_state: Box<AppStateV>,
    },
    OpeningEditor { branch: Seq<char>, editor: Seq<char>, prev_state: Box<AppStateV> },
    ListingWorktrees {
        worktrees: Seq<WorktreeView>,
        filtered_worktrees: Seq<WorktreeView>,
        selected: Option<usize>,
        refresh_needed: RefreshType,
        selection_mode: bool,
        dashboard: DashboardStateV,
        filter_query: Seq<char>,
        is_filtering: bool,
        mode: AppMode,
        last_selection_change: u64,
    },
    ViewingStatus {
        path: Seq<char>,
        branch: Seq<char>,
        status: StatusViewStateV,
        prev_state: Box<AppStateV>,
    },
    ViewingStashes {
        path: Seq<char>,
        branch: Seq<char>,
        stashes: Seq<StashEntryView>,
        selected_index: usize,
        prev_state: Box<AppStateV>,
    },
    LoadingStashes {
        path: Seq<char>,
        branch: Seq<char>,
        selected_index: usize,
        prev_state: Box<AppStateV>,
    },
    StashAction { message: Seq<char>, prev_state: Box<AppStateV> },
    ViewingHistory {
        branch: Seq<char>,
        commits: Seq<GitCommitView>,
        selected_index: usize,
        prev_state: Box<AppStateV>,
    },
    LoadingStatus { path: Seq<char>, branch: Seq<char>, prev_state: Box<AppStateV> },
    LoadingHistory { branch: Seq<char>, prev_state: Box<AppStateV> },
    LoadingBranches { prev_state: Box<AppStateV> },
    Cleaning { prev_state: Box<AppStateV> },
    Staging { path: Seq<char>, prev_state: Box<AppStateV> },
    Unstaging { path: Seq<char>, prev_state: Box<AppStateV> },
    SwitchingBranchTask { path: Seq<char>, prev_state: Box<AppStateV> },
    GeneratingCommitMessage { prev_state: Box<AppStateV> },
    LoadingDiff { prev_state: Box<AppStateV> },
    SwitchingBranch {
        path: Seq<char>,
        branches: Seq<Seq<char>>,
        selected_index: usize,
        prev_state: Box<AppStateV>,
    },
    Committing {
        path: Seq<char>,
        branch: Seq<char>,
        selected_index: usize,
        prev_state: Box<AppStateV>,
    },
    PickingBaseRef {
        branches: Seq<Seq<char>>,
        selected_index: usize,
        prev_state: Box<AppStateV>,
    },
    Prompting { prompt_type: PromptTypeV, input: Seq<char>, prev_state: Box<AppStateV> },
    SettingUpDefaults,
    SetupComplete,
    Timed {
        inner_state: Box<AppStateV>,
        target_state: Box<AppStateV>,
        start_time: u64,
        duration: u64,
    },
    Error(Seq<char>, Box<AppStateV>),
    Exiting(Option<Seq<char>>),
}

/// The mathematical value of a state.
pub open spec fn sv(s: AppState) -> AppStateV
    decreases s,
{
    match s {
        AppState::Welcome => AppStateV::Welcome,
        AppState::Initializing { project_name } => AppStateV::Initializing {
            project_name: project_name@,
        },
        AppState::Initialized { project_name } => AppStateV::Initialized {
            project_name: project_name@,
        },
        AppState::AddingWorktree { intent, branch } => AppStateV::AddingWorktree {
            intent: intent@,
            branch: branch@,
        },
        AppState::WorktreeAdded { intent } => AppStateV::WorktreeAdded { intent: intent@ },
        AppState::RemovingWorktree { intent } => AppStateV::RemovingWorktree { intent: intent@ },
        AppState::WorktreeRemoved => AppStateV::WorktreeRemoved,
        AppState::Confirming { title, message, action, prev_state } => AppStateV::Confirming {
            title: title@,
            message: message@,
            action: (*action)@,
            prev_state: Box::new(sv(*prev_state)),
        },
        AppState::Syncing { branch, prev_state } => AppStateV::Syncing {
            branch: branch@,
            prev_state: Box::new(sv(*prev_state)),
        },
        AppState::SyncComplete { branch, prev_state } => AppStateV::SyncComplete {
            branch: branch@,
            prev_state: Box::new(sv(*prev_state)),
        },
        AppState::Help { prev_state } => AppStateV::Help { prev_state: Box::new(sv(*prev_state)) },
        AppState::Fetching { branch, prev_state } => AppStateV::Fetching {
            branch: branch@,
            prev_state: Box::new(sv(*prev_state)),
        },
        AppState::Pulling { branch, prev_state } => AppStateV::Pulling {
            branch: branch@,
            prev_state: Box::new(sv(*prev_state)),
        },
        AppState::PullComplete { branch, prev_state } => AppStateV::PullComplete {
            branch: branch@,
            prev_state: Box::new(sv(*prev_state)),
        },
        AppState::Pushing { branch, prev_state } => AppStateV::Pushing {
            branch: branch@,
            prev_state: Box::new(sv(*prev_state)),
        },
        AppState::PushComplete { branch, prev_state } => AppStateV::PushComplete {
            branch: branch@,
            prev_state: Box::new(sv(*prev_state)),
        },
        AppState::SelectingEditor { branch, options, selected, prev_state } =>
            AppStateV::SelectingEditor {
            branch: branch@,
            options: editors_view(options@),
            selected: selected,
            prev_state: Box::new(sv(*prev_state)),
        },
        AppState::OpeningEditor { branch, editor, prev_state } => AppStateV::OpeningEditor {
            branch: branch@,
            editor: editor@,
            prev_state: Box::new(sv(*prev_state)),
        },
        AppState::ListingWorktrees {
            worktrees,
            filtered_worktrees,
            selected,
            refresh_needed,
            selection_mode,
            dashboard,
            filter_query,
            is_filtering,
            mode,
            last_selection_change,
        } => AppStateV::ListingWorktrees {
            worktrees: worktrees_view(worktrees@),
            filtered_worktrees: worktrees_view(filtered_worktrees@),
            selected: selected,
            refresh_needed: refresh_needed,
            selection_mode: selection_mode,
            dashboard: dashboard@,
            filter_query: filter_query@,
            is_filtering: is_filtering,
            mode: mode,
            last_selection_change: last_selection_change,
        },
        AppState::ViewingStatus { path, branch, status, prev_state } => AppStateV::ViewingStatus {
            path: path@,
            branch: branch@,
            status: status@,
            prev_state: Box::new(sv(*prev_state)),
        },
        AppState::ViewingStashes { path, branch, stashes, selected_index, prev_state } =>
            AppStateV::ViewingStashes {
            path: path@,
            branch: branch@,
            stashes: stashes_view(stashes@),
            selected_index: selected_index,
            prev_state: Box::new(sv(*prev_state)),
        },
        AppState::LoadingStashes { path, branch, selected_index, prev_state } =>
            AppStateV::LoadingStashes {
            path: path@,
            branch: branch@,
            selected_index: selected_index,
            prev_state: Box::new(sv(*prev_state)),
        },
        AppState::StashAction { message, prev_state } => AppStateV::StashAction {
            message: message@,
            prev_state: Box::new(sv(*prev_state)),
        },
        AppState::ViewingHistory { branch, commits, selected_index, prev_state } =>
            AppStateV::ViewingHistory {
            branch: branch@,
            commits: commits_view(commits@),
            selected_index: selected_index,
            prev_state: Box::new(sv(*prev_state)),
        },
        AppState::LoadingStatus { path, branch, prev_state } => AppStateV::LoadingStatus {
            path: path@,
            branch: branch@,
            prev_state: Box::new(sv(*prev_state)),
        },
        AppState::LoadingHistory { branch, prev_state } => AppStateV::LoadingHistory {
            branch: branch@,
            prev_state: Box::new(sv(*prev_state)),
        },
        AppState::LoadingBranches { prev_state } => AppStateV::LoadingBranches {
            prev_state: Box::new(sv(*prev_state)),
        },
        AppState::Cleaning { prev_state } => AppStateV::Cleaning {
            prev_state: Box::new(sv(*prev_state)),
        },
        AppState::Staging { path, prev_state } => AppStateV::Staging {
            path: path@,
            prev_state: Box::new(sv(*prev_state)),
        },
        AppState::Unstaging { path, prev_state } => AppStateV::Unstaging {
            path: path@,
            prev_state: Box::new(sv(*prev_state)),
        },
        AppState::SwitchingBranchTask { path, prev_state } => AppStateV::SwitchingBranchTask {
            path: path@,
            prev_state: Box::new(sv(*prev_state)),
        },
        AppState::GeneratingCommitMessage { prev_state } => AppStateV::GeneratingCommitMessage {
            prev_state: Box::new(sv(*prev_state)),
        },
        AppState::LoadingDiff { prev_state } => AppStateV::LoadingDiff {
            prev_state: Box::new(sv(*prev_state)),
        },
        AppState::SwitchingBranch { path, branches, selected_index, prev_state } =>
            AppStateV::SwitchingBranch {
            path: path@,
            branches: strings_view(branches@),
            selected_index: selected_index,
            prev_state: Box::new(sv(*prev_state)),
        },
        AppState::Committing { path, branch, selected_index, prev_state } =>
            AppStateV::Committing {
            path: path@,
            branch: branch@,
            selected_index: selected_index,
            prev_state: Box::new(sv(*prev_state)),
        },
        AppState::PickingBaseRef { branches, selected_index, prev_state } =>
            AppStateV::PickingBaseRef {
            branches: strings_view(branches@),
            selected_index: selected_index,
            prev_state: Box::new(sv(*prev_state)),
        },
        AppState::Prompting { prompt_type, input, prev_state } => AppStateV::Prompting {
            prompt_type: prompt_type@,
            input: input@,
            prev_state: Box::new(sv(*prev_state)),
        },
        AppState::SettingUpDefaults => AppStateV::SettingUpDefaults,
        AppState::SetupComplete => AppStateV::SetupComplete,
        AppState::Timed { inner_state, target_state, start_time, duration } => AppStateV::Timed {
            inner_state: Box::new(sv(*inner_state)),
            target_state: Box::new(sv(*target_state)),
            start_time: start_time,
            duration: duration,
        },
        AppState::Error(msg, prev) => AppStateV::Error(msg@, Box::new(sv(*prev))),
        AppState::Exiting(r) => AppStateV::Exiting(opt_view(r)),
    }
}

impl View for AppState {
    type V = AppStateV;

    open spec fn view(&self) -> AppStateV {
        sv(*self)
    }
}

fn copy_box(b: &Box<AppState>) -> (r: Box<AppState>)
    ensures
        r@ == b@,
    decreases *b, 1int,
{
    Box::new(copy_state(&**b))
}

/// A deep copy of a state.
pub fn copy_state(s: &AppState) -> (r: AppState)
    ensures
        r@ == s@,
    decreases *s, 0int,
{
    match s {
        AppState::Welcome => AppState::Welcome,
        AppState::Initializing { project_name } => AppState::Initializing {
            project_name: project_name.clone(),
        },
        AppState::Initialized { project_name } => AppState::Initialized {
            project_name: project_name.clone(),
        },
        AppState::AddingWorktree { intent, branch } => AppState::AddingWorktree {
            intent: intent.clone(),
            branch: branch.clone(),
        },
        AppState::WorktreeAdded { intent } => AppState::WorktreeAdded { intent: intent.clone() },
        AppState::RemovingWorktree { intent } => AppState::RemovingWorktree {
            intent: intent.clone(),
        },
        AppState::WorktreeRemoved => AppState::WorktreeRemoved,
        AppState::Confirming { title, message, action, prev_state } => AppState::Confirming {
            title: title.clone(),
            message: message.clone(),
            action: Box::new(action.copy()),
            prev_state: copy_box(prev_state),
        },
        AppState::Syncing { branch, prev_state } => AppState::Syncing {
            branch: branch.clone(),
            prev_state: copy_box(prev_state),
        },
        AppState::SyncComplete { branch, prev_state } => AppState::SyncComplete {
            branch: branch.clone(),
            prev_state: copy_box(prev_state),
        },
        AppState::Help { prev_state } => AppState::Help { prev_state: copy_box(prev_state) },
        AppState::Fetching { branch, prev_state } => AppState::Fetching {
            branch: branch.clone(),
            prev_state: copy_box(prev_state),
        },
        AppState::Pulling { branch, prev_state } => AppState::Pulling {
            branch: branch.clone(),
            prev_state: copy_box(prev_state),
        },
        AppState::PullComplete { branch, prev_state } => AppState::PullComplete {
            branch: branch.clone(),
            prev_state: copy_box(prev_state),
        },
        AppState::Pushing { branch, prev_state } => AppState::Pushing {
            branch: branch.clone(),
            prev_state: copy_box(prev_state),
        },
        AppState::PushComplete { branch, prev_state } => AppState::PushComplete {
            branch: branch.clone(),
            prev_state: copy_box(prev_state),
        },
        AppState::SelectingEditor { branch, options, selected, prev_state } =>
            AppState::SelectingEditor {
            branch: branch.clone(),
            options: copy_editors(options),
            selected: *selected,
            prev_state: copy_box(prev_state),
        },
        AppState::OpeningEditor { branch, editor, prev_state } => AppState::OpeningEditor {
            branch: branch.clone(),
            editor: editor.clone(),
            prev_state: copy_box(prev_state),
        },
        AppState::ListingWorktrees {
            worktrees,
            filtered_worktrees,
            selected,
            refresh_needed,
            selection_mode,
            dashboard,
            filter_query,
            is_filtering,
            mode,
            last_selection_change,
        } => AppState::ListingWorktrees {
            worktrees: copy_worktrees(worktrees),
            filtered_worktrees: copy_worktrees(filtered_worktrees),
            selected: *selected,
            refresh_needed: *refresh_needed,
            selection_mode: *selection_mode,
            dashboard: dashboard.copy(),
            filter_query: filter_query.clone(),
            is_filtering: *is_filtering,
            mode: *mode,
            last_selection_change: *last_selection_change,
        },
        AppState::ViewingStatus { path, branch, status, prev_state } => AppState::ViewingStatus {
            path: path.clone(),
            branch: branch.clone(),
            status: status.copy(),
            prev_state: copy_box(prev_state),
        },
        AppState::ViewingStashes { path, branch, stashes, selected_index, prev_state } =>
            AppState::ViewingStashes {
            path: path.clone(),
            branch: branch.clone(),
            stashes: copy_stashes(stashes),
            selected_index: *selected_index,
            prev_state: copy_box(prev_state),
        },
        AppState::LoadingStashes { path, branch, selected_index, prev_state } =>
            AppState::LoadingStashes {
            path: path.clone(),
            branch: branch.clone(),
            selected_index: *selected_index,
            prev_state: copy_box(prev_state),
        },
        AppState::StashAction { message, prev_state } => AppState::StashAction {
            message: message.clone(),
            prev_state: copy_box(prev_state),
        },
        AppState::ViewingHistory { branch, commits, selected_index, prev_state } =>
            AppState::ViewingHistory {
            branch: branch.clone(),
            commits: copy_commits(commits),
            selected_index: *selected_index,
            prev_state: copy_box(prev_state),
        },
        AppState::LoadingStatus { path, branch, prev_state } => AppState::LoadingStatus {
            path: path.clone(),
            branch: branch.clone(),
            prev_state: copy_box(prev_state),
        },
        AppState::LoadingHistory { branch, prev_state } => AppState::LoadingHistory {
            branch: branch.clone(),
            prev_state: copy_box(prev_state),
        },
        AppState::LoadingBranches { prev_state } => AppState::LoadingBranches {
            prev_state: copy_box(prev_state),
        },
        AppState::Cleaning { prev_state } => AppState::Cleaning { prev_state: copy_box(prev_state) },
        AppState::Staging { path, prev_state } => AppState::Staging {
            path: path.clone(),
            prev_state: copy_box(prev_state),
        },
        AppState::Unstaging { path, prev_state } => AppState::Unstaging {
            path: path.clone(),
            prev_state: copy_box(prev_state),
        },
        AppState::SwitchingBranchTask { path, prev_state } => AppState::SwitchingBranchTask {
            path: path.clone(),
            prev_state: copy_box(prev_state),
        },
        AppState::GeneratingCommitMessage { prev_state } => AppState::GeneratingCommitMessage {
            prev_state: copy_box(prev_state),
        },
        AppState::LoadingDiff { prev_state } => AppState::LoadingDiff {
            prev_state: copy_box(prev_state),
        },
        AppState::SwitchingBranch { path, branches, selected_index, prev_state } =>
            AppState::SwitchingBranch {
            path: path.clone(),
            branches: copy_strings(branches),
            selected_index: *selected_index,
            prev_state: copy_box(prev_state),
        },
        AppState::Committing { path, branch, selected_index, prev_state } =>
            AppState::Committing {
            path: path.clone(),
            branch: branch.clone(),
            selected_index: *selected_index,
            prev_state: copy_box(prev_state),
        },
        AppState::PickingBaseRef { branches, selected_index, prev_state } =>
            AppState::PickingBaseRef {
            branches: copy_strings(branches),
            selected_index: *selected_index,
            prev_state: copy_box(prev_state),
        },
        AppState::Prompting { prompt_type, input, prev_state } => AppState::Prompting {
            prompt_type: prompt_type.copy(),
            input: input.clone(),
            prev_state: copy_box(prev_state),
        },
        AppState::SettingUpDefaults => AppState::SettingUpDefaults,
        AppState::SetupComplete => AppState::SetupComplete,
        AppState::Timed { inner_state, target_state, start_time, duration } => AppState::Timed {
            inner_state: copy_box(inner_state),
            target_state: copy_box(target_state),
            start_time: *start_time,
            duration: *duration,
        },
        AppState::Error(msg, prev) => AppState::Error(msg.clone(), copy_box(prev)),
        AppState::Exiting(r) => AppState::Exiting(copy_opt_string(r)),
    }
}


// ---------------------------------------------------------------------------
// State helpers
// ---------------------------------------------------------------------------

/// A state that shows `inner` and turns into `target` after `duration_ms`.
pub fn create_timed_state(inner: AppState, target: AppState, now: u64, duration_ms: u64) -> (r:
    AppState)
    ensures
        r == (AppState::Timed {
            inner_state: Box::new(inner),
            target_state: Box::new(target),
            start_time: now,
            duration: duration_ms,
        }),
{
    AppState::Timed {
        inner_state: Box::new(inner),
        target_state: Box::new(target),
        start_time: now,
        duration: duration_ms,
    }
}

/// The selection after moving by `delta` rows in a table of `len` rows,
/// wrapping around at both ends; no selection becomes the first row.
pub open spec fn moved_selection(selected: Option<usize>, len: usize, delta: int) -> Option<usize> {
    if len == 0 {
        selected
    } else {
        match selected {
            None => Some(0),
            Some(i) => {
                let next = i + delta;
                if next < 0 {
                    Some((len - 1) as usize)
                } else if next >= len {
                    Some(0)
                } else {
                    Some(next as usize)
                }
            },
        }
    }
}

/// Moves a table selection up or down with wrapping.
pub fn move_selection(selected: Option<usize>, len: usize, delta: isize) -> (r: Option<usize>)
    ensures
        r == moved_selection(selected, len, delta as int),
        len > 0 ==> (r matches Some(j) && j < len),
{
    if len == 0 {
        return selected;
    }
    match selected {
        None => Some(0),
        Some(i) => {
            let next: i128 = i as i128 + delta as i128;
            if next < 0 {
                Some(len - 1)
            } else if next >= len as i128 {
                Some(0)
            } else {
                Some(next as usize)
            }
        },
    }
}

impl AppState {
    /// Signals that the worktree list needs to be re-fetched.
    pub fn request_refresh(&mut self)
        ensures
            match *old(self) {
                AppState::ListingWorktrees {
                    worktrees,
                    filtered_worktrees,
                    selected,
                    refresh_needed,
                    selection_mode,
                    dashboard,
                    filter_query,
                    is_filtering,
                    mode,
                    last_selection_change,
                } => *final(self) == AppState::ListingWorktrees {
                    worktrees,
                    filtered_worktrees,
                    selected,
                    refresh_needed: RefreshType::Full,
                    selection_mode,
                    dashboard,
                    filter_query,
                    is_filtering,
                    mode,
                    last_selection_change,
                },
                _ => *final(self) == *old(self),
            },
    {
        if let AppState::ListingWorktrees { refresh_needed, .. } = self {
            *refresh_needed = RefreshType::Full;
        }
    }

    /// Whether the state remembers a state to return to.
    pub open spec fn has_prev_state(self) -> bool {
        match self {
            AppState::Confirming { .. } | AppState::Syncing { .. } | AppState::SyncComplete {
                ..
            } | AppState::Help { .. } | AppState::Fetching { .. } | AppState::Pulling { .. }
            | AppState::PullComplete { .. } | AppState::Pushing { .. } | AppState::PushComplete {
                ..
            } | AppState::SelectingEditor { .. } | AppState::OpeningEditor { .. }
            | AppState::ViewingStatus { .. } | AppState::ViewingStashes { .. }
            | AppState::ViewingHistory { .. } | AppState::LoadingStatus { .. }
            | AppState::LoadingHistory { .. } | AppState::LoadingBranches { .. }
            | AppState::Cleaning { .. } | AppState::Staging { .. } | AppState::Unstaging { .. }
            | AppState::SwitchingBranchTask { .. } | AppState::GeneratingCommitMessage { .. }
            | AppState::LoadingDiff { .. } | AppState::LoadingStashes { .. }
            | AppState::StashAction { .. } | AppState::SwitchingBranch { .. }
            | AppState::Committing { .. } | AppState::PickingBaseRef { .. }
            | AppState::Prompting { .. } | AppState::Error(..) | AppState::Timed { .. } => true,
            _ => false,
        }
    }

    /// The state to return to: the previous state, or for a timed state its
    /// target.
    pub fn prev_state_boxed(&self) -> (r: &AppState)
        requires
            self.has_prev_state(),
        ensures
            match *self {
                AppState::Confirming { prev_state, .. } => *r == *prev_state,
                AppState::Syncing { prev_state, .. } => *r == *prev_state,
                AppState::SyncComplete { prev_state, .. } => *r == *prev_state,
                AppState::Help { prev_state } => *r == *prev_state,
                AppState::Fetching { prev_state, .. } => *r == *prev_state,
                AppState::Pulling { prev_state, .. } => *r == *prev_state,
                AppState::PullComplete { prev_state, .. } => *r == *prev_state,
                AppState::Pushing { prev_state, .. } => *r == *prev_state,
                AppState::PushComplete { prev_state, .. } => *r == *prev_state,
                AppState::SelectingEditor { prev_state, .. } => *r == *prev_state,
                AppState::OpeningEditor { prev_state, .. } => *r == *prev_state,
                AppState::ViewingStatus { prev_state, .. } => *r == *prev_state,
                AppState::ViewingStashes { prev_state, .. } => *r == *prev_state,
                AppState::ViewingHistory { prev_state, .. } => *r == *prev_state,
                AppState::LoadingStatus { prev_state, .. } => *r == *prev_state,
                AppState::LoadingHistory { prev_state, .. } => *r == *prev_state,
                AppState::LoadingBranches { prev_state } => *r == *prev_state,
                AppState::Cleaning { prev_state } => *r == *prev_state,
                AppState::Staging { prev_state, .. } => *r == *prev_state,
                AppState::Unstaging { prev_state, .. } => *r == *prev_state,
                AppState::SwitchingBranchTask { prev_state, .. } => *r == *prev_state,
                AppState::GeneratingCommitMessage { prev_state } => *r == *prev_state,
                AppState::LoadingDiff { prev_state } => *r == *prev_state,
                AppState::LoadingStashes { prev_state, .. } => *r == *prev_state,
                AppState::StashAction { prev_state, .. } => *r == *prev_state,
                AppState::SwitchingBranch { prev_state, .. } => *r == *prev_state,
                AppState::Committing { prev_state, .. } => *r == *prev_state,
                AppState::PickingBaseRef { prev_state, .. } => *r == *prev_state,
                AppState::Prompting { prev_state, .. } => *r == *prev_state,
                AppState::Error(_, prev_state) => *r == *prev_state,
                AppState::Timed { target_state, .. } => *r == *target_state,
                _ => false,
            },
    {
        match self {
            AppState::Confirming { prev_state, .. }
            | AppState::Syncing { prev_state, .. }
            | AppState::SyncComplete { prev_state, .. }
            | AppState::Help { prev_state }
            | AppState::Fetching { prev_state, .. }
            | AppState::Pulling { prev_state, .. }
            | AppState::PullComplete { prev_state, .. }
            | AppState::Pushing { prev_state, .. }
            | AppState::PushComplete { prev_state, .. }
            | AppState::SelectingEditor { prev_state, .. }
            | AppState::OpeningEditor { prev_state, .. }
            | AppState::ViewingStatus { prev_state, .. }
            | AppState::ViewingStashes { prev_state, .. }
            | AppState::ViewingHistory { prev_state, .. }
            | AppState::LoadingStatus { prev_state, .. }
            | AppState::LoadingHistory { prev_state, .. }
            | AppState::LoadingBranches { prev_state }
            | AppState::Cleaning { prev_state }
            | AppState::Staging { prev_state, .. }
            | AppState::Unstaging { prev_state, .. }
            | AppState::SwitchingBranchTask { prev_state, .. }
            | AppState::GeneratingCommitMessage { prev_state }
            | AppState::LoadingDiff { prev_state }
            | AppState::LoadingStashes { prev_state, .. }
            | AppState::StashAction { prev_state, .. }
            | AppState::SwitchingBranch { prev_state, .. }
            | AppState::Committing { prev_state, .. }
            | AppState::PickingBaseRef { prev_state, .. }
            | AppState::Prompting { prev_state, .. }
            | AppState::Error(_, prev_state) => prev_state,
            AppState::Timed { target_state, .. } => target_state,
            _ => {
                proof {
                    assert(false);
                }
                self
            },
        }
    }
}

// ---------------------------------------------------------------------------
// Fuzzy filtering
// ---------------------------------------------------------------------------

/// The score that `SkimMatcherV2::default().fuzzy_match(choice, pattern)`
/// returns (`None` when the pattern does not match).
pub uninterp spec fn skim_score(choice: Seq<char>, pattern: Seq<char>) -> Option<i64>;

/// `fuzzy_matcher::skim::SkimMatcherV2::default().fuzzy_match`.
#[verifier::external_body]
fn skim_fuzzy_match(choice: &str, pattern: &str) -> (r: Option<i64>)
    ensures
        r == skim_score(choice@, pattern@),
{
    fuzzy_matcher::skim::SkimMatcherV2::default().fuzzy_match(choice, pattern)
}

/// The better of the branch and path scores of a worktree.
pub open spec fn worktree_score(w: WorktreeView, q: Seq<char>) -> Option<i64> {
    let b = skim_score(w.branch, q);
    let p = skim_score(w.path, q);
    match (b, p) {
        (Some(x), Some(y)) => Some(if x >= y {
            x
        } else {
            y
        }),
        (Some(x), None) => Some(x),
        (None, Some(y)) => Some(y),
        (None, None) => None,
    }
}

/// `idx` lists exactly the indices with a score, by descending score and,
/// for equal scores, in their input order.
pub open spec fn ranked(scores: Seq<Option<i64>>, idx: Seq<int>) -> bool {
    &&& forall|k: int| 0 <= k < idx.len() ==> 0 <= #[trigger] idx[k] < scores.len() && scores[idx[k]].is_some()
    &&& forall|i: int| 0 <= i < scores.len() && (#[trigger] scores[i]).is_some() ==> idx.contains(i)
    &&& forall|a: int, b: int|
        0 <= a < b < idx.len() ==> {
            let sa = scores[#[trigger] idx[a]].unwrap();
            let sb = scores[#[trigger] idx[b]].unwrap();
            sa > sb || (sa == sb && idx[a] < idx[b])
        }
}

proof fn lemma_rank_skip(scores: Seq<Option<i64>>, k: int, ov: Seq<int>)
    requires
        0 <= k < scores.len(),
        scores[k].is_none(),
        ranked(scores.take(k), ov),
    ensures
        ranked(scores.take(k + 1), ov),
{
    let pre = scores.take(k);
    let now = scores.take(k + 1);
    assert forall|i: int| 0 <= i < now.len() && (#[trigger] now[i]).is_some() implies ov.contains(i) by {
        assert(i < k);
        assert(pre[i] == now[i]);
    }
    assert forall|j: int| 0 <= j < ov.len() implies 0 <= #[trigger] ov[j] < now.len() && now[ov[j]].is_some() by {
        assert(pre[ov[j]] == now[ov[j]]);
    }
    assert forall|a: int, b: int| 0 <= a < b < ov.len() implies ({
        let sa = now[#[trigger] ov[a]].unwrap();
        let sb = now[#[trigger] ov[b]].unwrap();
        sa > sb || (sa == sb && ov[a] < ov[b])
    }) by {
        assert(pre[ov[a]] == now[ov[a]]);
        assert(pre[ov[b]] == now[ov[b]]);
    }
}

#[verifier::spinoff_prover]
#[verifier::rlimit(40)]
proof fn lemma_rank_insert(scores: Seq<Option<i64>>, k: int, ov: Seq<int>, p: int, s: i64)
    requires
        0 <= k < scores.len(),
        scores[k] == Some(s),
        ranked(scores.take(k), ov),
        0 <= p <= ov.len(),
        forall|j: int| 0 <= j < p ==> scores.take(k)[#[trigger] ov[j]].unwrap() >= s,
        p < ov.len() ==> scores.take(k)[ov[p]].unwrap() < s,
    ensures
        ranked(scores.take(k + 1), ov.insert(p, k)),
{
    let pre = scores.take(k);
    let now = scores.take(k + 1);
    let nv = ov.insert(p, k);
    assert forall|j: int| 0 <= j < ov.len() implies ov[j] < k && now[ov[j]] == pre[ov[j]] by {
        assert(0 <= ov[j] < pre.len());
    }
    assert forall|j: int| 0 <= j < nv.len() implies 0 <= #[trigger] nv[j] < now.len() && now[nv[j]].is_some() by {
        if j < p {
            assert(nv[j] == ov[j]);
        } else if j > p {
            assert(nv[j] == ov[j - 1]);
        }
    }
    assert forall|i: int| 0 <= i < now.len() && (#[trigger] now[i]).is_some() implies nv.contains(i) by {
        if i == k {
            assert(nv[p] == k);
        } else {
            assert(pre[i] == now[i]);
            assert(ov.contains(i));
            let j = choose|j: int| 0 <= j < ov.len() && ov[j] == i;
            if j < p {
                assert(nv[j] == i);
            } else {
                assert(nv[j + 1] == i);
            }
        }
    }
    assert forall|a: int, b: int| 0 <= a < b < nv.len() implies ({
        let sa = now[#[trigger] nv[a]].unwrap();
        let sb = now[#[trigger] nv[b]].unwrap();
        sa > sb || (sa == sb && nv[a] < nv[b])
    }) by {
        if b < p {
            assert(nv[a] == ov[a] && nv[b] == ov[b]);
        } else if a > p {
            assert(nv[a] == ov[a - 1] && nv[b] == ov[b - 1]);
        } else if b == p {
            assert(nv[a] == ov[a]);
            assert(pre[ov[a]].unwrap() >= s);
        } else if a == p {
            assert(nv[b] == ov[b - 1]);
            if p < b - 1 {
                assert(pre[ov[p]].unwrap() >= pre[ov[b - 1]].unwrap());
            }
        } else {
            assert(nv[a] == ov[a] && nv[b] == ov[b - 1]);
        }
    }
}

/// Orders the indices that have a score by descending score; equal scores
/// keep their input order.
pub fn fuzzy_rank(scores: &Vec<Option<i64>>) -> (r: Vec<usize>)
    ensures
        ranked(scores@, r@.map_values(|i: usize| i as int)),
{
    let mut out: Vec<usize> = Vec::new();
    let mut k: usize = 0;
    while k < scores.len()
        invariant
            k <= scores.len(),
            ranked(scores@.take(k as int), out@.map_values(|i: usize| i as int)),
        decreases scores.len() - k,
    {
        let ghost ov = out@.map_values(|i: usize| i as int);
        let ghost pre = scores@.take(k as int);
        assert forall|j: int| 0 <= j < out@.len() implies out@[j] < k by {
            assert(ov[j] == out@[j] as int);
            assert(0 <= ov[j] < pre.len());
        }
        match scores[k] {
            None => {
                proof {
                    lemma_rank_skip(scores@, k as int, ov);
                }
            },
            Some(s) => {
                let mut p: usize = 0;
                while p < out.len() && scores[out[p]].unwrap_or(i64::MIN) >= s
                    invariant
                        p <= out.len(),
                        ov == out@.map_values(|i: usize| i as int),
                        ranked(pre, ov),
                        forall|j: int| 0 <= j < out@.len() ==> out@[j] < k,
                        k < scores.len(),
                        pre == scores@.take(k as int),
                        forall|j: int| 0 <= j < p ==> pre[#[trigger] ov[j]].unwrap() >= s,
                    decreases out.len() - p,
                {
                    assert(ov[p as int] == out@[p as int] as int);
                    assert(pre[ov[p as int]] == scores@[ov[p as int]]);
                    p = p + 1;
                }
                proof {
                    if p < out.len() {
                        assert(ov[p as int] == out@[p as int] as int);
                        assert(pre[ov[p as int]] == scores@[ov[p as int]]);
                    }
                    lemma_rank_insert(scores@, k as int, ov, p as int, s);
                }
                out.insert(p, k);
                assert(out@.map_values(|i: usize| i as int) =~= ov.insert(p as int, k as int));
            },
        }
        k = k + 1;
    }
    assert(scores@.take(k as int) =~= scores@);
    out
}

/// The scores of each worktree for a pattern.
pub open spec fn scores_of(ws: Seq<WorktreeView>, q: Seq<char>) -> Seq<Option<i64>> {
    ws.map_values(|w: WorktreeView| worktree_score(w, q))
}

/// `r` holds the worktrees of `ws` that match `q`, best first, ties in
/// their input order.
pub open spec fn fuzzy_filtered(ws: Seq<WorktreeView>, q: Seq<char>, r: Seq<WorktreeView>) -> bool {
    exists|idx: Seq<int>|
        #[trigger] ranked(scores_of(ws, q), idx) && r == idx.map_values(|i: int| ws[i])
}

/// `r` is what filtering `ws` by the query `q` shows: all of `ws` for an
/// empty query, else the fuzzy matches of the lower-cased query.
pub open spec fn filter_result(ws: Seq<WorktreeView>, q: Seq<char>, r: Seq<WorktreeView>) -> bool {
    if q.len() == 0 {
        r == ws
    } else {
        fuzzy_filtered(ws, crate::text::unicode_lowercase(q), r)
    }
}

/// The worktrees that fuzzily match `query` (lower-cased) on their branch or
/// path, best match first; an empty query keeps every worktree in order.
pub fn filter_worktrees(worktrees: &Vec<Worktree>, query: &str) -> (r: Vec<Worktree>)
    ensures
        filter_result(worktrees_view(worktrees@), query@, worktrees_view(r@)),
        query@.len() == 0 ==> worktrees_view(r@) == worktrees_view(worktrees@),
        query@.len() > 0 ==> fuzzy_filtered(
            worktrees_view(worktrees@),
            crate::text::unicode_lowercase(query@),
            worktrees_view(r@),
        ),
{
    if query.is_empty() {
        return copy_worktrees(worktrees);
    }
    let q = crate::text::to_lowercase(query);
    let ghost wv = worktrees_view(worktrees@);
    let ghost want = wv.map_values(
        |w: WorktreeView| worktree_score(w, crate::text::unicode_lowercase(query@)),
    );
    let mut scores: Vec<Option<i64>> = Vec::new();
    let mut i: usize = 0;
    while i < worktrees.len()
        invariant
            i <= worktrees.len(),
            wv == worktrees_view(worktrees@),
            want == wv.map_values(
                |w: WorktreeView| worktree_score(w, crate::text::unicode_lowercase(query@)),
            ),
            q@ == crate::text::unicode_lowercase(query@),
            scores@.len() == i,
            forall|j: int| 0 <= j < i ==> #[trigger] scores@[j] == want[j],
        decreases worktrees.len() - i,
    {
        let w = &worktrees[i];
        let b = skim_fuzzy_match(w.branch.as_str(), q.as_str());
        let p = skim_fuzzy_match(w.path.as_str(), q.as_str());
        let s = match (b, p) {
            (Some(x), Some(y)) => Some(if x >= y {
                x
            } else {
                y
            }),
            (Some(x), None) => Some(x),
            (None, Some(y)) => Some(y),
            (None, None) => None,
        };
        assert(wv[i as int] == w@);
        scores.push(s);
        i = i + 1;
    }
    assert(scores@ =~= want);
    let order = fuzzy_rank(&scores);
    let ghost idx = order@.map_values(|i: usize| i as int);
    let mut r: Vec<Worktree> = Vec::new();
    let mut k: usize = 0;
    while k < order.len()
        invariant
            k <= order.len(),
            idx == order@.map_values(|i: usize| i as int),
            ranked(want, idx),
            want.len() == worktrees@.len(),
            wv == worktrees_view(worktrees@),
            r@.len() == k,
            forall|j: int| 0 <= j < k ==> #[trigger] r@[j]@ == wv[idx[j]],
        decreases order.len() - k,
    {
        assert(0 <= idx[k as int] < want.len());
        let w = worktrees[order[k]].copy();
        r.push(w);
        k = k + 1;
    }
    assert(worktrees_view(r@) =~= idx.map_values(|i: int| wv[i]));
    assert(want =~= scores_of(wv, crate::text::unicode_lowercase(query@)));
    assert(ranked(scores_of(wv, crate::text::unicode_lowercase(query@)), idx));
    r
}

} // verus!
