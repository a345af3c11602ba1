use chrono::{TimeZone, Utc};
use sw::config::Config;
use sw::models::ProjectSource;
use sw::scanner::github::{
    clone_path_below, clone_path_for, get_clone_path, get_gh_username, is_gh_authenticated, is_gh_installed,
    parse_github_timestamp, payload_lines, poll_decision, project_from_repository,
    repository_to_project, GitHubFetch, GitHubRepository, GitHubScanner, PollAction, PollEvent,
    FETCH_TIMEOUT_SECONDS,
};
use sw::timestamp::Timestamp;

fn test_config() -> Config {
    Config {
        editor_command: "vim".to_string(),
        project_dirs: vec![],
        github_username: None,
        gitlab_username: None,
        cache_ttl_seconds: 1800,
    }
}

fn home() -> String {
    dirs::home_dir().unwrap().to_str().unwrap().to_string()
}

fn create_test_repo(name: &str, archived: bool, pushed_at: Option<&str>) -> GitHubRepository {
    GitHubRepository {
        name: name.to_string(),
        html_url: format!("https://github.com/testuser/{}", name),
        archived,
        pushed_at: pushed_at.map(|s| s.to_string()),
        updated_at: Some("2024-01-01T00:00:00Z".to_string()),
    }
}

#[test]
fn test_github_scanner_no_username() {
    let result = GitHubScanner::scan(GitHubFetch::NotConfigured, &home()).unwrap();
    assert!(result.is_empty());
}

#[test]
fn test_github_scanner_no_gh_cli() {
    let result = GitHubScanner::scan(GitHubFetch::NotInstalled, &home());
    assert!(result.is_ok());
}

#[test]
fn github_test_repository_to_project_normal_repo() {
    let repo = create_test_repo("my-project", false, Some("2024-01-15T10:30:00Z"));
    let config = test_config();

    let project = repository_to_project(repo, &config).unwrap().unwrap();

    assert_eq!(project.name, "my-project");
    assert_eq!(project.source, ProjectSource::GitHub);
    assert_eq!(project.github_url, Some("https://github.com/testuser/my-project".to_string()));
    assert!(project.last_modified.is_some());

    let expected_path = dirs::home_dir().unwrap().join("Documents/git/my-project");
    assert_eq!(project.path, expected_path.to_str().unwrap());
}

#[test]
fn test_repository_to_project_archived_repo() {
    let repo = create_test_repo("archived-project", true, Some("2024-01-15T10:30:00Z"));
    let config = test_config();

    let result = repository_to_project(repo, &config).unwrap();
    assert!(result.is_none());
}

#[test]
fn github_test_repository_to_project_no_timestamp() {
    let mut repo = create_test_repo("no-timestamp", false, None);
    repo.updated_at = None;
    let config = test_config();

    let project = repository_to_project(repo, &config).unwrap().unwrap();

    assert_eq!(project.name, "no-timestamp");
    assert!(project.last_modified.is_none());
}

#[test]
fn test_parse_github_timestamp_valid() {
    let timestamp_str = Some("2024-01-15T10:30:00Z".to_string());
    let result = parse_github_timestamp(&timestamp_str).unwrap().unwrap();

    let expected = Utc.with_ymd_and_hms(2024, 1, 15, 10, 30, 0).unwrap();
    assert_eq!(result, Timestamp { secs: expected.timestamp(), nanos: 0 });
    assert_eq!(result.secs, 1_705_314_600);
}

#[test]
fn test_parse_github_timestamp_none() {
    let result = parse_github_timestamp(&None).unwrap();
    assert!(result.is_none());
}

#[test]
fn test_parse_github_timestamp_invalid() {
    let timestamp_str = Some("invalid-timestamp".to_string());
    let result = parse_github_timestamp(&timestamp_str);
    assert!(result.is_err());
}

#[test]
fn github_test_get_clone_path() {
    let config = test_config();
    let path = get_clone_path("test-repo", &config).unwrap();

    let expected = dirs::home_dir().unwrap().join("Documents/git/test-repo");
    assert_eq!(path, expected.to_str().unwrap());
    assert_eq!(clone_path_below("/home/u", "test-repo"), "/home/u/Documents/git/test-repo");
    assert_eq!(clone_path_below("/home/u/", "r"), "/home/u/Documents/git/r");
}

#[test]
fn test_is_gh_installed() {
    let installed = is_gh_installed();
    assert!(installed == true || installed == false);
}

#[test]
fn test_is_gh_authenticated() {
    assert!(is_gh_authenticated(true, "octocat\n"));
    assert!(!is_gh_authenticated(true, "  \n"));
    assert!(!is_gh_authenticated(false, "octocat\n"));
}

#[test]
fn test_timeout_mechanism() {
    let second: u128 = 1_000_000_000;
    assert_eq!(poll_decision(PollEvent::Running, 0, 1), PollAction::Sleep(100));
    assert_eq!(poll_decision(PollEvent::Running, second, 1), PollAction::Sleep(100));
    assert_eq!(poll_decision(PollEvent::Running, second + 1, 1), PollAction::KillTimedOut);
    assert_eq!(
        poll_decision(PollEvent::Running, 10 * second, FETCH_TIMEOUT_SECONDS),
        PollAction::Sleep(100)
    );
    assert_eq!(
        poll_decision(PollEvent::Running, 10 * second + 1, FETCH_TIMEOUT_SECONDS),
        PollAction::KillTimedOut
    );
    assert_eq!(poll_decision(PollEvent::Running, u128::MAX, u64::MAX), PollAction::KillTimedOut);
    assert_eq!(poll_decision(PollEvent::Exited { success: true }, u128::MAX, 1), PollAction::Collect);
    assert_eq!(
        poll_decision(PollEvent::Exited { success: false }, 0, 1),
        PollAction::ReportFailure
    );
    assert_eq!(poll_decision(PollEvent::Unreadable, 0, 1), PollAction::KillUnreadable);
}

#[test]
fn test_get_gh_username_function_exists() {
    assert_eq!(get_gh_username(true, " octocat \n", "").unwrap(), "octocat");
    assert!(get_gh_username(true, "\n", "").is_err());
    let failed = get_gh_username(false, "octocat", "no token").unwrap_err();
    assert!(failed.message.contains("no token"));
}

#[test]
fn test_is_gh_installed_function() {
    let result = is_gh_installed();
    assert!(result == true || result == false);
}

#[test]
fn test_is_gh_authenticated_function() {
    assert!(is_gh_authenticated(true, "a"));
    assert!(!is_gh_authenticated(false, ""));
}

#[test]
fn pushed_at_comes_before_updated_at() {
    let repo = create_test_repo("p", false, Some("2024-01-15T10:30:00+02:00"));
    let project = project_from_repository(repo, "/h").unwrap().unwrap();
    assert_eq!(project.last_modified, Some(Timestamp { secs: 1_705_314_600 - 7200, nanos: 0 }));
    assert_eq!(project.path, "/h/Documents/git/p");

    let repo = create_test_repo("u", false, None);
    let project = project_from_repository(repo, "/h").unwrap().unwrap();
    assert_eq!(project.last_modified, Some(Timestamp { secs: 1_704_067_200, nanos: 0 }));

    // a push time that cannot be read is an error, whatever the update time
    let repo = create_test_repo("bad", false, Some("yesterday"));
    assert!(project_from_repository(repo, "/h").is_err());
}

#[test]
fn github_scan_decides_by_what_was_found() {
    for fetch in [
        GitHubFetch::NotConfigured,
        GitHubFetch::NotInstalled,
        GitHubFetch::NotAuthenticated,
        GitHubFetch::FetchFailed("timed out".to_string()),
    ] {
        assert!(GitHubScanner::scan(fetch, "/h").unwrap().is_empty());
    }
    let failed = GitHubScanner::scan(GitHubFetch::AuthCheckFailed("no gh".to_string()), "/h");
    assert_eq!(failed.unwrap_err().message, "no gh");

    let repos = vec![
        create_test_repo("older", false, Some("2024-01-15T10:30:00Z")),
        create_test_repo("gone", true, Some("2025-01-15T10:30:00Z")),
        create_test_repo("newer", false, Some("2024-02-15T10:30:00Z")),
    ];
    let list = GitHubScanner::scan(GitHubFetch::Repositories(repos), "/h").unwrap();
    let names: Vec<&str> = list.projects().iter().map(|p| p.name.as_str()).collect();
    assert_eq!(names, vec!["newer", "older"]);

    let repos = vec![
        create_test_repo("fine", false, Some("2024-01-15T10:30:00Z")),
        create_test_repo("bad", false, Some("nope")),
    ];
    assert!(GitHubScanner::scan(GitHubFetch::Repositories(repos), "/h").is_err());
}

#[test]
fn payload_lines_skip_blank_lines() {
    assert_eq!(
        payload_lines("{\"a\":1}\n\n  \t\n{\"b\":2}\r\n{\"c\":3}"),
        vec!["{\"a\":1}", "{\"b\":2}", "{\"c\":3}"]
    );
    assert!(payload_lines("").is_empty());
    assert!(payload_lines("\n\n").is_empty());
    assert_eq!(payload_lines("x\r"), vec!["x\r"]);
    let text = "one\r\n two \n\r\nthree\n";
    let expected: Vec<&str> = text.lines().filter(|l| !l.trim().is_empty()).collect();
    assert_eq!(payload_lines(text), expected);
}

#[test]
fn the_clone_path_needs_a_home_directory() {
    let home = Some("/home/u".to_string());
    assert_eq!(clone_path_for(&home, "repo").unwrap(), "/home/u/Documents/git/repo");
    let failed = clone_path_for(&None, "repo").unwrap_err();
    assert_eq!(failed.message, "Failed to get home directory");
}

#[test]
fn the_account_comes_from_the_settings() {
    let mut config = test_config();
    assert!(matches!(GitHubScanner::account_given(&config, true), Err(GitHubFetch::NotConfigured)));
    assert!(matches!(GitHubScanner::account_given(&config, false), Err(GitHubFetch::NotConfigured)));
    assert!(matches!(GitHubScanner::account_to_fetch(&config), Err(GitHubFetch::NotConfigured)));

    config.github_username = Some("octocat".to_string());
    assert_eq!(GitHubScanner::account_given(&config, true).unwrap(), "octocat");
    assert!(matches!(GitHubScanner::account_given(&config, false), Err(GitHubFetch::NotInstalled)));
    match GitHubScanner::account_to_fetch(&config) {
        Ok(account) => {
            assert!(is_gh_installed());
            assert_eq!(account, "octocat");
        }
        Err(found) => {
            assert!(!is_gh_installed());
            assert!(matches!(found, GitHubFetch::NotInstalled));
        }
    }

    assert!(GitHubScanner::after_auth_check(Ok(true)).is_none());
    assert!(matches!(
        GitHubScanner::after_auth_check(Ok(false)),
        Some(GitHubFetch::NotAuthenticated)
    ));
    match GitHubScanner::after_auth_check(Err("no gh".to_string())) {
        Some(GitHubFetch::AuthCheckFailed(reason)) => assert_eq!(reason, "no gh"),
        other => panic!("expected a failed check, got {:?}", other),
    }
}
