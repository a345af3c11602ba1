use sw::scanner::cursor::CursorScanner;
use sw::scanner::github::GitHubScanner;
use sw::scanner::gitlab::GitLabScanner;
use sw::scanner::local::LocalScanner;

#[test]
fn test_cursor_scanner_name() {
    let scanner = CursorScanner;
    assert_eq!(scanner.scanner_name(), "cursor");
}

#[test]
fn test_github_scanner_name() {
    let scanner = GitHubScanner;
    assert_eq!(scanner.scanner_name(), "github");
}

#[test]
fn test_gitlab_scanner_name() {
    let scanner = GitLabScanner;
    assert_eq!(scanner.scanner_name(), "gitlab");
}

#[test]
fn local_scanner_name() {
    let scanner = LocalScanner;
    assert_eq!(scanner.scanner_name(), "local");
}
