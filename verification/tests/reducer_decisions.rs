use worktree::reducer::get_project_name;

#[test]
fn test_get_project_name() {
    assert_eq!(
        get_project_name(Some(&"https://github.com/user/repo.git".to_string()), None),
        "repo"
    );
    assert_eq!(
        get_project_name(Some(&"git@github.com:user/my-project".to_string()), None),
        "my-project"
    );
    assert_eq!(
        get_project_name(
            Some(&"https://github.com/user/repo.git".to_string()),
            Some("custom".to_string())
        ),
        "custom"
    );
    assert_eq!(
        get_project_name(Some(&"/path/to/local/repo".to_string()), None),
        "repo"
    );
    assert_eq!(
        get_project_name(None, Some("my-project".to_string())),
        "my-project"
    );
    assert_eq!(get_project_name(None, None), "project");
}
