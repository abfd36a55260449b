use worktree::reducer::{api_key_input, default_main_worktree, run_result, shows_welcome, temporary_cleanup};
use worktree::domain::{GitStatus, Worktree};
use worktree::handlers::{RepoCall, RepoReply};
use worktree::reducer::{
    branch_for, checkout_target, dev_created_status, dev_setup_status, has_changes,
    main_setup_status, match_worktree, plan_teleport, rebase_upstream, remote_target,
    root_project_name, suggests_force, sync_targets, teleport_resume, teleport_start, RemoteOp,
    SetupStatus,
};
use worktree::warp::warp_config;

fn wt(path: &str, branch: &str, bare: bool) -> Worktree {
    Worktree { path: path.into(), commit: "c".into(), branch: branch.into(), is_bare: bare, is_detached: false, status_summary: None, size_bytes: 0, metadata: None }
}

fn sample() -> Vec<Worktree> {
    vec![wt("/p/.bare", "", true), wt("/p/main", "main", false), wt("/p/dev", "dev", false), wt("/p/feature-login", "Feature/Login", false)]
}

#[test]
fn switch_prefers_exact_branch_then_directory_then_substrings() {
    let ws = sample();
    assert_eq!(match_worktree(&ws, "DEV"), Some(2));
    assert_eq!(match_worktree(&ws, "feature-login"), Some(3));
    assert_eq!(match_worktree(&ws, "login"), Some(3));
    assert_eq!(match_worktree(&ws, "ai"), Some(1));
    assert_eq!(match_worktree(&ws, "nonexistent"), None);
    // the hub never matches
    assert_eq!(match_worktree(&ws, "bare"), None);
}

#[test]
fn checkout_needs_exact_branch_or_directory() {
    let ws = sample();
    assert_eq!(checkout_target(&ws, &"dev".to_string()), Ok(2));
    assert_eq!(checkout_target(&ws, &"FEATURE-LOGIN".to_string()), Ok(3));
    assert_eq!(checkout_target(&ws, &"log".to_string()), Err("Worktree 'log' not found.".to_string()));
}

#[test]
fn sync_targets_by_name_or_all_checkouts() {
    let ws = sample();
    let t = sync_targets(&ws, Some(&"main".to_string())).unwrap();
    assert_eq!(t.len(), 1);
    assert_eq!(t[0].path, "/p/main");
    let all = sync_targets(&ws, None).unwrap();
    assert_eq!(all.iter().map(|w| w.branch.as_str()).collect::<Vec<_>>(), vec!["main", "dev", "Feature/Login"]);
    assert_eq!(sync_targets(&ws, Some(&"zzz".to_string())).unwrap_err(), "No matching worktrees found to synchronize.");
}

#[test]
fn push_and_pull_targets() {
    let ws = sample();
    assert_eq!(remote_target(&ws, Some(&"dev".to_string()), &vec![], RemoteOp::Push).unwrap().path, "/p/dev");
    assert_eq!(remote_target(&ws, Some(&"login".to_string()), &vec![], RemoteOp::Pull).unwrap().path, "/p/feature-login");
    assert_eq!(remote_target(&ws, None, &vec![false; 4], RemoteOp::Push).unwrap_err(), "Please specify a worktree to push (e.g. 'worktrees push main').");
    assert_eq!(remote_target(&ws, None, &vec![false, false, true, false], RemoteOp::Pull).unwrap_err(), "Please specify a worktree to pull (e.g. 'worktrees pull main').");
    assert_eq!(remote_target(&ws, Some(&"x".to_string()), &vec![], RemoteOp::Pull).unwrap_err(), "Worktree not found.");
}

#[test]
fn small_defaults() {
    assert_eq!(branch_for(&"feat-x".to_string(), Some("feature/x".to_string())), "feature/x");
    assert_eq!(branch_for(&"feat-x".to_string(), None), "feat-x");
    assert_eq!(rebase_upstream(None), "main");
    assert_eq!(rebase_upstream(Some("develop".into())), "develop");
    assert!(suggests_force("destination 'x' already exists"));
    assert!(!suggests_force("permission denied"));
    assert_eq!(root_project_name("/mock/root"), "root");
    assert_eq!(root_project_name("/"), "project");
}

#[test]
fn setup_statuses() {
    assert_eq!(main_setup_status(&Ok(())), SetupStatus::Ready);
    assert_eq!(main_setup_status(&Err("x".into())), SetupStatus::Skipped);
    assert_eq!(dev_setup_status(&Ok(())), Some(SetupStatus::Ready));
    assert_eq!(dev_setup_status(&Err("x".into())), None);
    assert_eq!(dev_created_status(&Ok(())), SetupStatus::ReadyFromMain);
    assert_eq!(dev_created_status(&Err("x".into())), SetupStatus::Skipped);
}

#[test]
fn teleport_plan_and_steps() {
    let ws = sample();
    let here = vec![false, true, false, false];
    let plan = plan_teleport(&ws, &here, "dev").unwrap();
    assert_eq!(plan.source_path, "/p/main");
    assert_eq!(plan.target_path, "/p/dev");
    assert_eq!(plan_teleport(&ws, &here, "main").unwrap_err(), "Already in target worktree 'main'.");
    assert_eq!(plan_teleport(&ws, &here, "zzz").unwrap_err(), "Target worktree 'zzz' not found.");
    assert_eq!(
        plan_teleport(&ws, &vec![true, false, false, false], "dev").unwrap_err(),
        "Not currently in a managed worktree. Teleport must be run from a worktree directory."
    );

    let first = teleport_start(&plan);
    assert!(matches!(first, RepoCall::StashSave { ref path, message: Some(ref m) } if path == "/p/main" && m == "Teleport to dev"));
    let list = teleport_resume(&plan, &first, RepoReply::Done(Ok(()))).unwrap().unwrap();
    assert!(matches!(list, RepoCall::ListStashes { .. }));
    assert_eq!(teleport_resume(&plan, &list, RepoReply::Stashes(Ok(vec![]))).unwrap_err(), "Failed to create stash for teleport.");
    let entry = worktree::domain::StashEntry { index: 0, message: "m".into(), branch: "main".into() };
    let apply = teleport_resume(&plan, &list, RepoReply::Stashes(Ok(vec![entry]))).unwrap().unwrap();
    assert!(matches!(apply, RepoCall::ApplyStash { ref path, index: 0 } if path == "/p/dev"));
    assert_eq!(
        teleport_resume(&plan, &apply, RepoReply::Done(Err("conflict".into()))).unwrap_err(),
        "Failed to apply changes to target 'dev': conflict. Changes preserved in stash@{0}."
    );
    let drop = teleport_resume(&plan, &apply, RepoReply::Done(Ok(()))).unwrap().unwrap();
    assert!(matches!(drop, RepoCall::DropStash { ref path, index: 0 } if path == "/p/main"));
    assert!(teleport_resume(&plan, &drop, RepoReply::Done(Ok(()))).unwrap().is_none());

    assert!(!has_changes(&GitStatus { staged: vec![], unstaged: vec![], untracked: vec![] }));
    assert!(has_changes(&GitStatus { staged: vec![], unstaged: vec![], untracked: vec!["x".into()] }));
}

#[test]
fn warp_config_grid() {
    assert!(warp_config("p", &vec![]).is_none());
    let ws: Vec<Worktree> = (0..5).map(|i| wt(&format!("/p/{i}"), "b", false)).collect();
    let c = warp_config("proj", &ws).unwrap();
    assert_eq!(c.name, "proj");
    let tab = &c.windows[0].tabs[0];
    assert_eq!(tab.title.as_deref(), Some("Worktrees"));
    let layout = tab.layout.as_ref().unwrap();
    assert_eq!((layout.grid.rows, layout.grid.columns), (3, 2));
    assert_eq!(layout.panes.len(), 5);
    assert_eq!(layout.panes[4].cwd, "/p/4");
    let one = warp_config("proj", &vec![ws[0].copy()]).unwrap();
    let l1 = one.windows[0].tabs[0].layout.as_ref().unwrap();
    assert_eq!((l1.grid.rows, l1.grid.columns), (1, 1));
}

#[test]
fn artifact_candidates_skip_hub_and_current_worktree() {
    let ws = vec![
        wt("/p", "", true),
        wt("/p/main", "main", false),
        wt("/p/dev/", "dev", false),
        wt("/p/feat", "feat", false),
    ];
    let here = vec![false, false, false, true];
    let got = worktree::git_repo::artifact_candidates(&ws, &here);
    let names = ["node_modules", "target", "build", "dist", ".gradle", "bin", "obj"];
    let mut want: Vec<String> = names.iter().map(|n| format!("/p/main/{n}")).collect();
    want.extend(names.iter().map(|n| format!("/p/dev/{n}")));
    assert_eq!(got, want);
    assert!(worktree::git_repo::artifact_candidates(&ws, &vec![true, true, true, true]).is_empty());
}

/// The two worktrees that the command handler's tests list.
fn listed() -> Vec<Worktree> {
    let mut main = wt("main", "main", false);
    main.commit = "1234567".into();
    main.status_summary = Some("clean".into());
    let mut dev = wt("dev", "dev", false);
    dev.commit = "abcdef0".into();
    dev.status_summary = Some("~1".into());
    vec![main, dev]
}

#[test]
fn test_reducer_handle_switch() {
    assert_eq!(match_worktree(&listed(), "dev"), Some(1));
}

#[test]
fn test_reducer_handle_switch_not_found() {
    assert_eq!(match_worktree(&listed(), "nonexistent"), None);
}

#[test]
fn test_reducer_handle_checkout() {
    assert_eq!(checkout_target(&listed(), &"dev".to_string()), Ok(1));
}

#[test]
fn test_reducer_handle_sync() {
    let targets = sync_targets(&listed(), Some(&"main".to_string())).unwrap();
    assert_eq!(targets.len(), 1);
    assert_eq!(targets[0].path, "main");
}

#[test]
fn test_reducer_handle_push() {
    let target = remote_target(&listed(), Some(&"main".to_string()), &vec![], RemoteOp::Push).unwrap();
    assert_eq!(target.path, "main");
}

#[test]
fn push_without_name_uses_current_worktree() {
    let ws = sample();
    // the current directory is the dev checkout
    let here = vec![false, false, true, false];
    assert_eq!(remote_target(&ws, None, &here, RemoteOp::Push).unwrap().path, "/p/dev");
    // the hub does not count as the current checkout
    let hub = vec![true, false, false, false];
    assert_eq!(
        remote_target(&ws, None, &hub, RemoteOp::Push).unwrap_err(),
        "Please specify a worktree to push (e.g. 'worktrees push main')."
    );
}

#[test]
fn small_command_decisions() {
    assert!(matches!(default_main_worktree(None), Some(RepoCall::AddNewWorktree { name, branch, base_ref }) if name == "main" && branch == "main" && base_ref == "HEAD"));
    assert!(default_main_worktree(Some(&"https://x/y.git".to_string())).is_none());
    assert!(matches!(temporary_cleanup(&"tmp".to_string()), RepoCall::RemoveWorktree { path, force: true } if path == "tmp"));
    assert_eq!(run_result(true, "exit status: 0"), Ok(()));
    assert_eq!(run_result(false, "exit status: 2"), Err("Command failed with status: exit status: 2".to_string()));
    assert!(shows_welcome(&vec![]));
    assert!(!shows_welcome(&sample()));
    assert_eq!(api_key_input("  abc \n"), Ok("abc".to_string()));
    assert_eq!(api_key_input("   "), Err("API key cannot be empty".to_string()));
}
