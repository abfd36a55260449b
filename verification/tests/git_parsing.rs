use worktree::git_repo::GitProjectRepository;

#[test]
fn test_parse_git_history_normal() {
    let output = "abc1234|John Doe|2023-01-01|Fix bug\ndef4567|Jane Smith|2023-01-02|Add feature";
    let commits = GitProjectRepository::parse_git_history(output);
    assert_eq!(commits.len(), 2);
    assert_eq!(commits[0].hash, "abc1234");
    assert_eq!(commits[0].author, "John Doe");
    assert_eq!(commits[0].date, "2023-01-01");
    assert_eq!(commits[0].message, "Fix bug");
    assert_eq!(commits[1].hash, "def4567");
    assert_eq!(commits[1].author, "Jane Smith");
    assert_eq!(commits[1].date, "2023-01-02");
    assert_eq!(commits[1].message, "Add feature");
}

#[test]
fn test_parse_git_history_single() {
    let output = "abc1234|John Doe|2023-01-01|Fix bug";
    let commits = GitProjectRepository::parse_git_history(output);
    assert_eq!(commits.len(), 1);
    assert_eq!(commits[0].hash, "abc1234");
}

#[test]
fn test_parse_git_history_empty() {
    let output = "";
    let commits = GitProjectRepository::parse_git_history(output);
    assert!(commits.is_empty());
}

#[test]
fn test_parse_git_history_malformed() {
    let output = "abc1234|John Doe|2023-01-01\ndef4567|Jane Smith|2023-01-02|Add feature|Extra";
    let commits = GitProjectRepository::parse_git_history(output);
    assert_eq!(commits.len(), 1);
    assert_eq!(commits[0].hash, "def4567");
    assert_eq!(commits[0].message, "Add feature|Extra");
}

#[test]
fn test_parse_git_history_with_pipes() {
    let output = "abc1234|John Doe|2023-01-01|Message with | pipe";
    let commits = GitProjectRepository::parse_git_history(output);
    assert_eq!(commits.len(), 1);
    assert_eq!(commits[0].hash, "abc1234");
    assert_eq!(commits[0].message, "Message with | pipe");
}

#[test]
fn test_parse_branches() {
    let output = "main\norigin/HEAD\norigin/main\norigin/feature-branch\norigin/other-branch";
    let branches = GitProjectRepository::parse_branches(output);

    assert_eq!(branches.len(), 3);
    assert_eq!(branches[0], "feature-branch");
    assert_eq!(branches[1], "main");
    assert_eq!(branches[2], "other-branch");
}
