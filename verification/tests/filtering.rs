use worktree::domain::Worktree;
use worktree::model::filter_worktrees;

fn wt(path: &str, branch: &str, commit: &str, summary: &str) -> Worktree {
    Worktree {
        path: path.to_string(),
        branch: branch.to_string(),
        commit: commit.to_string(),
        is_bare: false,
        is_detached: false,
        status_summary: Some(summary.to_string()),
        size_bytes: 0,
        metadata: None,
    }
}

#[test]
fn test_filter_worktrees_fuzzy() {
    let worktrees = vec![
        wt("/path/to/main", "main", "abc1234", "clean"),
        wt("/path/to/dev", "dev", "def5678", "+1 ~2"),
        wt("/path/to/feature-login", "feature/login", "789", "clean"),
    ];

    let filtered = filter_worktrees(&worktrees, "");
    assert_eq!(filtered.len(), 3);

    let filtered = filter_worktrees(&worktrees, "mn");
    assert_eq!(filtered.len(), 1);
    assert_eq!(filtered[0].branch, "main");

    let filtered = filter_worktrees(&worktrees, "log");
    assert_eq!(filtered.len(), 1);
    assert_eq!(filtered[0].branch, "feature/login");

    let filtered = filter_worktrees(&worktrees, "featlog");
    assert_eq!(filtered.len(), 1);
    assert_eq!(filtered[0].branch, "feature/login");

    let filtered = filter_worktrees(&worktrees, "MAIN");
    assert_eq!(filtered.len(), 1);
    assert_eq!(filtered[0].branch, "main");

    let filtered = filter_worktrees(&worktrees, "xyz");
    assert_eq!(filtered.len(), 0);
}
