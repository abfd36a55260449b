use worktree::git_repo::GitProjectRepository;
use worktree::layout::{area_new, Area};
use worktree::status_view::status_file_columns;
use worktree::handlers::history_popup_area;
use worktree::domain::{ProjectContext, RepoStatus, Worktree};

#[test]
fn rect_new_clamps_size() {
    assert_eq!(area_new(65530, 0, 10, 5), Area { x: 65530, y: 0, width: 5, height: 5 });
    assert_eq!(area_new(1, 2, 3, 4), Area { x: 1, y: 2, width: 3, height: 4 });
}

#[test]
fn status_columns_split_the_right_side() {
    let (staged, unstaged) = status_file_columns(100, 40, false);
    // the main area is the right 80%, its inner area starts one cell in,
    // below a 3-row header; the two columns share it equally
    assert_eq!(staged.x, 21);
    assert_eq!(staged.y, 4);
    assert_eq!(staged.width + unstaged.width, 78);
    assert_eq!(unstaged.x, staged.x + staged.width);
    assert_eq!(staged.height, 35);
    let (staged_d, _) = status_file_columns(100, 40, true);
    assert!(staged_d.height < staged.height);
}

#[test]
fn history_popup_is_centred() {
    let p = history_popup_area(100, 50);
    assert_eq!((p.x, p.y, p.width, p.height), (7, 5, 85, 40));
}

#[test]
fn status_summary_counts() {
    assert_eq!(GitProjectRepository::get_status_summary(""), "clean");
    assert_eq!(GitProjectRepository::get_status_summary("   \n"), "clean");
    assert_eq!(GitProjectRepository::get_status_summary("M  a\nMM b\n?? c\n D d"), "+2 ~2 ?1");
    assert_eq!(GitProjectRepository::get_status_summary("?? x\n?? y"), "?2");
}

#[test]
fn porcelain_status_is_split() {
    let st = GitProjectRepository::parse_status("M  a.rs\nMD b.rs\n?? new.txt\n M c.rs\nx");
    assert_eq!(st.staged, vec![("a.rs".to_string(), "M ".to_string()), ("b.rs".to_string(), "M ".to_string())]);
    assert_eq!(st.unstaged, vec![("b.rs".to_string(), " D".to_string()), ("c.rs".to_string(), " M".to_string())]);
    assert_eq!(st.untracked, vec!["new.txt".to_string()]);
}

#[test]
fn worktree_list_porcelain() {
    let out = "worktree /p/.bare\nbare\n\nworktree /p/main\nHEAD 0123456789abcdef\nbranch refs/heads/main\n\nworktree /p/tmp\nHEAD fedcba9876543210\ndetached\n";
    let ws = GitProjectRepository::parse_worktree_list(out);
    assert_eq!(ws.len(), 3);
    assert!(ws[0].is_bare);
    assert_eq!(ws[1].branch, "main");
    assert_eq!(ws[1].commit, "0123456");
    assert!(ws[2].is_detached);
    assert_eq!(ws[2].branch, "");
}

#[test]
fn small_repository_helpers() {
    assert_eq!(GitProjectRepository::get_metadata_path(), ".worktree.json");
    assert_eq!(GitProjectRepository::get_project_root_path("/home/u/proj/.bare\n"), Some("/home/u/proj".to_string()));
    assert_eq!(GitProjectRepository::gitdir_target("  /p/feat/.git\n"), "/p/feat");
    assert_eq!(GitProjectRepository::detect_context(&vec!["src".into(), "build.gradle.kts".into()]), ProjectContext::KmpAndroid);
    assert_eq!(GitProjectRepository::detect_context(&vec!["Cargo.toml".into()]), ProjectContext::Standard);
    assert_eq!(GitProjectRepository::hub_name(None, "/work/app"), "app-hub");
    assert_eq!(GitProjectRepository::hub_name(Some("x".into()), "/work/app"), "x");
    assert_eq!(GitProjectRepository::check_status(false, Some("/p/.bare\n".into()), None, false), RepoStatus::BareHub);
    assert_eq!(GitProjectRepository::check_status(false, None, Some("true\n".into()), false), RepoStatus::StandardGit);
    assert_eq!(GitProjectRepository::check_status(false, None, None, false), RepoStatus::NoRepo);
    assert!(!GitProjectRepository::is_meaningful_change(&vec!["/p/.bare/index.lock".into()]));
    assert!(GitProjectRepository::is_meaningful_change(&vec!["/p/main/src/lib.rs".into()]));
}

#[test]
fn branches_are_sorted_and_remote_duplicates_dropped() {
    let b = GitProjectRepository::parse_branches("  zeta\nalpha\norigin/alpha\norigin/beta\norigin/beta\n\n");
    assert_eq!(b, vec!["alpha".to_string(), "beta".to_string(), "zeta".to_string()]);
}

#[test]
fn test_detect_context() {
    // an empty directory is a standard project; a Gradle build file makes it KMP/Android
    assert_eq!(GitProjectRepository::detect_context(&vec![]), ProjectContext::Standard);
    assert_eq!(
        GitProjectRepository::detect_context(&vec!["build.gradle.kts".to_string()]),
        ProjectContext::KmpAndroid
    );
}

#[test]
fn test_clean_artifacts() {
    let wt = |path: &str, branch: &str, bare: bool| Worktree {
        path: path.into(),
        commit: "abc1234".into(),
        branch: branch.into(),
        is_bare: bare,
        is_detached: false,
        status_summary: None,
        size_bytes: 0,
        metadata: None,
    };
    let ws = vec![wt("/tmp/my-hub", "", true), wt("/tmp/my-hub/main", "main", false), wt("/tmp/my-hub/dev", "dev", false)];
    // run from the main worktree: its artifacts stay
    let here = vec![false, true, false];
    let cleaned = worktree::git_repo::artifact_candidates(&ws, &here);
    assert!(cleaned.iter().any(|s| s.contains("dev/target")));
    assert!(!cleaned.iter().any(|s| s.contains("main/target")));
}
