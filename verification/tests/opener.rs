use sw::config::Config;
use sw::models::{Project, ProjectSource};
use sw::opener::{is_background_editor, OpenError, OpenStep, ProjectOpener};

fn config_with_editor(editor: &str) -> Config {
    Config {
        editor_command: editor.to_string(),
        project_dirs: vec![],
        github_username: None,
        gitlab_username: None,
        cache_ttl_seconds: 1800,
    }
}

#[test]
fn test_opener_creation() {
    let _opener = ProjectOpener::new();
}

#[test]
fn test_open_nonexistent_project() {
    let opener = ProjectOpener::new();
    let config = config_with_editor("echo");
    let nonexistent_path = "/nonexistent/path/that/does/not/exist";
    let project = Project::new_local("nonexistent".to_string(), nonexistent_path);

    let result = opener.open_project(&project, &config, false);
    assert!(result.is_err(), "Should fail to open nonexistent project");
    assert!(result
        .unwrap_err()
        .message(nonexistent_path)
        .contains("does not exist"));
}

#[test]
fn test_open_with_empty_editor_command() {
    let opener = ProjectOpener::new();
    let config = config_with_editor("");
    let project = Project::new_local("test-project".to_string(), "/tmp");

    let result = opener.open_project(&project, &config, true);
    assert!(result.is_err(), "Should fail with empty editor command");
    assert!(result.unwrap_err().message("/tmp").contains("empty"));
}

#[test]
fn test_open_with_whitespace_only_editor_command() {
    let opener = ProjectOpener::new();
    let config = config_with_editor("   ");
    let project = Project::new_local("test-project".to_string(), "/tmp");

    let result = opener.open_project(&project, &config, true);
    assert!(
        result.is_err(),
        "Should fail with whitespace-only editor command"
    );
    assert!(result.unwrap_err().message("/tmp").contains("empty"));
}

#[test]
fn test_is_background_editor() {
    assert!(is_background_editor("cursor"));
    assert!(is_background_editor("code"));
    assert!(is_background_editor("subl"));
    assert!(is_background_editor("atom"));

    assert!(!is_background_editor("vim"));
    assert!(!is_background_editor("nano"));
    assert!(!is_background_editor("emacs"));
}

#[test]
fn test_github_project_missing_url() {
    let opener = ProjectOpener::new();
    let nonexistent_path = "/tmp/sw-test/nonexistent";

    let mut project = Project::new_local("test".to_string(), nonexistent_path);
    project.source = ProjectSource::GitHub;

    let result = opener.clone_github_project(&project);
    assert!(result.is_err());
    assert!(result
        .unwrap_err()
        .message(nonexistent_path)
        .contains("missing URL"));
}

#[test]
fn test_existing_github_project() {
    let opener = ProjectOpener::new();
    let config = config_with_editor("echo");

    let project = Project::new_github(
        "existing-repo".to_string(),
        "/tmp",
        "https://github.com/user/existing-repo".to_string(),
    );

    let result = opener.open_project(&project, &config, true);

    match result {
        Ok(OpenStep::Launch(plan)) => {
            assert_eq!(plan.program, "echo");
            assert!(plan.args.is_empty());
            assert_eq!(plan.path, "/tmp");
            assert!(!plan.background);
        }
        other => panic!("expected a launch, got {:?}", other),
    }
}

#[test]
fn remote_project_is_cloned_first() {
    let opener = ProjectOpener::new();
    let config = config_with_editor("code --new-window");
    let project = Project::new_gitlab(
        "repo".to_string(),
        "/home/u/gitlab/u/repo",
        "https://gitlab.example.com/u/repo".to_string(),
    );
    match opener.open_project(&project, &config, false) {
        Ok(OpenStep::CloneFirst(plan)) => {
            assert_eq!(plan.url, "https://gitlab.example.com/u/repo");
            assert_eq!(plan.target, "/home/u/gitlab/u/repo");
        }
        other => panic!("expected a clone, got {:?}", other),
    }
    match opener.open_project(&project, &config, true) {
        Ok(OpenStep::Launch(plan)) => {
            assert_eq!(plan.program, "code");
            assert_eq!(plan.args, vec!["--new-window".to_string()]);
            assert!(plan.background);
        }
        other => panic!("expected a launch, got {:?}", other),
    }
    assert_eq!(
        opener.open_project_path("/x", &config_with_editor("vim"), false).unwrap_err(),
        OpenError::MissingPath
    );
}
