use worktree::widgets::DetailLine;
use worktree::domain::{GitStatus, Worktree};
use worktree::model::AppMode;
use worktree::widgets::{
    get_spinner_icon, size_unit, DetailsWidget, EmptyNotice, FileTone, LogNotice, LogTabWidget,
    SizeUnit, StashListWidget, StatusLine, StatusTabWidget, WorktreeListWidget,
};
use worktree::domain::ProjectContext;

fn wt(path: &str, branch: &str, bare: bool, summary: Option<&str>) -> Worktree {
    Worktree {
        path: path.into(),
        commit: "0123456789abcdef".into(),
        branch: branch.into(),
        is_bare: bare,
        is_detached: false,
        status_summary: summary.map(|s| s.to_string()),
        size_bytes: 2048,
        metadata: None,
    }
}

#[test]
fn test_render_empty_worktree_list() {
    let worktrees: Vec<Worktree> = vec![];
    let widget = WorktreeListWidget::new(&worktrees, None);
    assert!(widget.title().contains("ACTIVE WORKTREES (0)"));
    assert!(matches!(widget.empty_notice(), EmptyNotice::NoWorktrees));
    let (a, b) = widget.empty_notice().lines();
    assert_eq!(a, "No worktrees found.");
    assert_eq!(b, "Press [A] to add a worktree.");
}

#[test]
fn test_render_empty_worktree_list_with_filter() {
    let worktrees: Vec<Worktree> = vec![];
    let widget = WorktreeListWidget::new(&worktrees, None).with_filter(Some("foobar"));
    assert!(widget.title().contains("ACTIVE WORKTREES (0)"));
    match widget.empty_notice() {
        EmptyNotice::NoMatch(q) => assert_eq!(q, "foobar"),
        other => panic!("unexpected {:?}", other),
    }
    let (a, b) = widget.empty_notice().lines();
    assert_eq!(a, "No worktrees match 'foobar'.");
    assert_eq!(b, "Press [Esc] to clear filter.");
}

#[test]
fn test_render_worktree_list_with_mode() {
    let worktrees: Vec<Worktree> = vec![];
    let widget = WorktreeListWidget::new(&worktrees, None).with_mode(AppMode::Manage);
    assert!(widget.title().contains("MANAGE WORKTREES (0)"));
}

#[test]
fn title_counts_rows_and_builders_set_fields() {
    let worktrees = vec![wt("/a", "a", false, None), wt("/b", "b", false, None)];
    let idx = [1usize];
    let widget = WorktreeListWidget::new(&worktrees, Some(&idx)).dimmed(true).tick(9).with_mode(AppMode::Git);
    assert_eq!(widget.title(), " GIT WORKTREES (1) ");
    assert!(widget.is_dimmed);
    assert_eq!(widget.spinner_tick, 9);
    assert_eq!(widget.total_count(), 1);
    let row = widget.row(0, Some(0));
    assert_eq!(row.branch, "b");
    assert!(row.is_selected);
}

#[test]
fn rows_show_intent_status_and_short_commit() {
    let worktrees = vec![wt("/p/hub", "main", true, None), wt("/p/feature-x", "feat/x", false, Some("clean")), wt("/p/dev", "dev", false, Some("+1 ~2"))];
    let widget = WorktreeListWidget::new(&worktrees, None);
    let hub = widget.row(0, None);
    assert_eq!(hub.intent, "MAIN");
    assert_eq!(hub.kind, 0);
    assert!(hub.status.is_none());
    assert_eq!(hub.commit, "0123456");
    let x = widget.row(1, Some(2));
    assert_eq!(x.intent, "feature-x");
    assert_eq!(x.status.as_deref(), Some("CLEAN"));
    assert!(x.is_clean);
    assert!(!x.is_selected);
    let d = widget.row(2, Some(2));
    assert_eq!(d.status.as_deref(), Some("+1 ~2"));
    assert!(!d.is_clean);
    assert_eq!(d.size_bytes, 2048);
}

#[test]
fn visible_range_windows_rows() {
    let worktrees: Vec<Worktree> = (0..10).map(|i| wt(&format!("/p/{i}"), "b", false, None)).collect();
    let widget = WorktreeListWidget::new(&worktrees, None);
    assert_eq!(widget.visible_range(0, 6), (0, 4));
    assert_eq!(widget.visible_range(8, 6), (8, 10));
    assert_eq!(widget.visible_range(50, 6), (9, 10));
    assert_eq!(widget.visible_range(0, 1), (0, 0));
}

#[test]
fn spinner_cycles_every_second_tick() {
    assert_eq!(get_spinner_icon(true, 0, 0), format!(" ▊ {}", worktree::widgets::Icons::HUB));
    assert_eq!(get_spinner_icon(true, 2, 2), format!(" ▋ {}", worktree::widgets::Icons::WORKTREE));
    assert_eq!(get_spinner_icon(true, 13, 1), format!(" ▊ {}", worktree::widgets::Icons::DETACHED));
    assert_eq!(get_spinner_icon(true, 9, 1), format!(" ▌ {}", worktree::widgets::Icons::DETACHED));
    assert_eq!(get_spinner_icon(false, 13, 1), format!("   {}", worktree::widgets::Icons::DETACHED));
    assert_eq!(get_spinner_icon(false, 0, 9), format!("   {}", worktree::widgets::Icons::WORKTREE));
}

#[test]
fn sizes_pick_binary_units() {
    assert_eq!(size_unit(0), SizeUnit::Zero);
    assert_eq!(size_unit(1023), SizeUnit::Bytes);
    assert_eq!(size_unit(1024), SizeUnit::Kilobytes);
    assert_eq!(size_unit(1048576), SizeUnit::Megabytes);
    assert_eq!(size_unit(1073741824), SizeUnit::Gigabytes);
}

fn status(staged: usize, unstaged: usize, untracked: usize) -> GitStatus {
    GitStatus {
        staged: (0..staged).map(|i| (format!("s{i}"), if i == 0 { "D ".to_string() } else { "M ".to_string() })).collect(),
        unstaged: (0..unstaged).map(|i| (format!("u{i}"), " M".to_string())).collect(),
        untracked: (0..untracked).map(|i| format!("t{i}")).collect(),
    }
}

#[test]
fn status_tab_lists_at_most_fifteen_files_per_section() {
    let st = status(17, 10, 9);
    let lines = StatusTabWidget { status: Some(&st), is_bare: false }.lines();
    // staged: header, 15 files, "... and 2 more", blank
    assert!(matches!(lines[0], StatusLine::StagedHeader));
    assert!(matches!(&lines[1], StatusLine::File { name, tone: FileTone::Deleted } if name == "s0"));
    assert!(matches!(&lines[2], StatusLine::File { tone: FileTone::Staged, .. }));
    assert!(matches!(lines[16], StatusLine::More(2)));
    assert!(matches!(lines[17], StatusLine::Blank));
    // unstaged: header, 10 unstaged, 5 untracked, "... and 4 more"
    assert!(matches!(lines[18], StatusLine::UnstagedHeader));
    assert!(matches!(&lines[29], StatusLine::File { name, tone: FileTone::Untracked } if name == "t0"));
    assert!(matches!(lines[34], StatusLine::More(4)));
    assert_eq!(lines.len(), 35);
}

#[test]
fn status_tab_edge_cases() {
    let clean = status(0, 0, 0);
    let lines = StatusTabWidget { status: Some(&clean), is_bare: false }.lines();
    assert!(matches!(lines[..], [StatusLine::Clean]));
    let lines = StatusTabWidget { status: None, is_bare: true }.lines();
    assert!(matches!(lines[..], [StatusLine::NotAvailable]));
    let lines = StatusTabWidget { status: None, is_bare: false }.lines();
    assert!(matches!(lines[..], [StatusLine::Loading]));
    // exactly fifteen unstaged files: the untracked ones are not mentioned
    let st = status(0, 15, 3);
    let lines = StatusTabWidget { status: Some(&st), is_bare: false }.lines();
    assert_eq!(lines.len(), 16);
    // many unstaged: the count covers untracked files too
    let st = status(0, 20, 3);
    let lines = StatusTabWidget { status: Some(&st), is_bare: false }.lines();
    assert!(matches!(lines[16], StatusLine::More(8)));
}

#[test]
fn log_tab_notices() {
    assert_eq!(LogTabWidget { history: None, is_bare: true }.notice(), Some(LogNotice::NotAvailable));
    assert_eq!(LogTabWidget { history: None, is_bare: false }.notice(), Some(LogNotice::Loading));
    assert_eq!(LogTabWidget { history: Some(&[]), is_bare: false }.notice(), Some(LogNotice::NoHistory));
}

#[test]
fn hub_overview_counts_checkouts() {
    let all = vec![wt("/p/hub", "main", true, None), wt("/p/a", "a", false, Some("clean")), wt("/p/b", "b", false, Some("~1")), wt("/p/c", "c", false, None)];
    let d = DetailsWidget::new(Some(&all[0]), &all, ProjectContext::Standard);
    assert_eq!(d.hub_counts(), (3, 2, 1));
    assert_eq!(DetailsWidget::kind_text(&all[0]), "BARE (MAIN)");
    assert_eq!(DetailsWidget::kind_text(&all[1]), "STANDARD WORKTREE");
}

#[test]
fn stash_labels() {
    assert_eq!(StashListWidget::stash_label(0), " stash@{0} ");
    assert_eq!(StashListWidget::stash_label(12), " stash@{12} ");
}

#[test]
fn details_lines_of_a_checkout() {
    let all = vec![wt("/p/hub", "main", true, None), wt("/p/feat", "feat", false, Some("~1"))];
    let d = DetailsWidget::new(Some(&all[1]), &all, ProjectContext::KmpAndroid);
    let lines = d.lines();
    let fields: Vec<(&str, String)> = lines
        .iter()
        .filter_map(|l| match l { DetailLine::Field { label, value, .. } => Some((*label, value.clone())), _ => None })
        .collect();
    assert_eq!(fields[0], (" INTENT : ", "feat".to_string()));
    assert!(fields.contains(&(" STATE  : ", "⚠ ~1".to_string())));
    assert!(fields.contains(&(" OPTIM  : ", "GRADLE_CACHE_ACTIVE".to_string())));
    let hub = DetailsWidget::new(Some(&all[0]), &all, ProjectContext::Standard).lines();
    assert!(matches!(&hub[1], DetailLine::Field { label: " TOTAL WORKTREES : ", value, .. } if value == "1"));
    assert!(matches!(DetailsWidget::new(None, &all, ProjectContext::Standard).lines()[1], DetailLine::NothingSelected));
}

#[test]
fn icons_keep_their_glyphs() {
    assert_eq!(worktree::widgets::Icons::DETACHED, "\u{f071} ");
    assert_eq!(worktree::widgets::Icons::CLEAN, "\u{f058} ");
    assert_eq!(worktree::widgets::Icons::DIRTY, "\u{f044} ");
    let unselected_detached = get_spinner_icon(false, 0, 1);
    assert_eq!(unselected_detached, "   \u{f071} ");
    assert_eq!(unselected_detached.chars().count(), 5);
    assert_eq!(get_spinner_icon(true, 4, 1), " \u{258c} \u{f071} ");
}
