use sw::models::{Project, ProjectSource};
use sw::scanner::cursor::{
    get_cursor_storage_path, parse_workspace_directory, storage_path_below, storage_path_for,
    workspace_to_project, CursorScanner, Platform, WorkspaceInfo,
};
use sw::timestamp::Timestamp;

#[test]
fn test_parse_workspace_directory_valid() {
    let project_path = "/tmp/work/Users/test/my-project";

    let workspace_info =
        parse_workspace_directory(Some(project_path.to_string()), Some(1_705_314_600)).unwrap();

    assert_eq!(workspace_info.name, "my-project");
    assert_eq!(workspace_info.path, project_path);
    assert!(workspace_info.last_modified.is_some());
    assert_eq!(workspace_info.last_modified, Some(Timestamp { secs: 1_705_314_600, nanos: 0 }));
}

#[test]
fn test_parse_workspace_directory_missing_config_path() {
    let result = parse_workspace_directory(None, Some(1_705_314_600));
    assert!(result.is_none());
}

#[test]
fn test_workspace_to_project_existing_path() {
    let project_path = "/tmp/work/Users/test/existing-project";

    let workspace_info = WorkspaceInfo {
        path: project_path.to_string(),
        name: "existing-project".to_string(),
        last_modified: Some(Timestamp { secs: 1_705_314_600, nanos: 0 }),
    };

    let project = workspace_to_project(workspace_info, true).unwrap();

    assert_eq!(project.name, "existing-project");
    assert_eq!(project.path, project_path);
    assert_eq!(project.source, ProjectSource::Cursor);
    assert!(project.last_modified.is_some());
}

#[test]
fn test_workspace_to_project_nonexistent_path() {
    let workspace_info = WorkspaceInfo {
        path: "/nonexistent/path".to_string(),
        name: "nonexistent-project".to_string(),
        last_modified: None,
    };

    let result = workspace_to_project(workspace_info, false);
    assert!(result.is_none());
}

#[test]
fn test_workspace_to_project_non_git_directory() {
    let non_git_path = "/tmp/work/regular-project";

    let workspace_info = WorkspaceInfo {
        path: non_git_path.to_string(),
        name: "regular-project".to_string(),
        last_modified: None,
    };

    let result = workspace_to_project(workspace_info, true);
    assert!(result.is_some());

    let project = result.unwrap();
    assert_eq!(project.name, "regular-project");
    assert_eq!(project.path, non_git_path);
    assert_eq!(project.source, ProjectSource::Cursor);
}

#[test]
fn test_get_cursor_storage_path() {
    let path = get_cursor_storage_path(Platform::MacOs).unwrap();
    assert!(path.contains("Library/Application Support/Cursor/User/workspaceStorage"));

    let path = get_cursor_storage_path(Platform::Linux).unwrap();
    assert!(path.contains(".config/Cursor/User/workspaceStorage"));

    let path = get_cursor_storage_path(Platform::Windows).unwrap();
    assert!(path.contains("AppData/Roaming/Cursor/User/workspaceStorage"));

    assert_eq!(
        storage_path_below("/home/u", Platform::Linux),
        "/home/u/.config/Cursor/User/workspaceStorage"
    );
    let home = dirs::home_dir().unwrap();
    assert_eq!(
        get_cursor_storage_path(Platform::Linux).unwrap(),
        home.join(".config/Cursor/User/workspaceStorage").to_str().unwrap()
    );
}

#[test]
fn workspace_without_a_name_is_unknown() {
    let w = parse_workspace_directory(Some("/".to_string()), None).unwrap();
    assert_eq!(w.name, "unknown");
    assert_eq!(w.path, "/");
    assert_eq!(w.last_modified, None);
    assert_eq!(Timestamp::from_file_time(Some(u64::MAX)), None);
    assert_eq!(Timestamp::from_file_time(Some(7)), Some(Timestamp { secs: 7, nanos: 0 }));
}

#[test]
fn cursor_scan_sorts_by_recency() {
    let list = CursorScanner::scan(vec![
        Project::new_cursor("none-b".to_string(), "/1"),
        Project::new_cursor("old".to_string(), "/2").with_last_modified(Timestamp { secs: 1, nanos: 0 }),
        Project::new_cursor("none-a".to_string(), "/3"),
        Project::new_cursor("new".to_string(), "/4").with_last_modified(Timestamp { secs: 2, nanos: 0 }),
    ]);
    let names: Vec<&str> = list.projects().iter().map(|p| p.name.as_str()).collect();
    assert_eq!(names, vec!["new", "old", "none-a", "none-b"]);
}

#[test]
fn cursor_test_cursor_scanner_integration() {
    let project_path1 = "/tmp/one/Users/test/project1";
    let project_path2 = "/tmp/two/Users/test/project2";

    // three remembered workspaces, of which the last points at nothing
    let remembered = [
        (project_path1, true),
        (project_path2, true),
        ("/nonexistent/path", false),
    ];

    let mut workspaces = Vec::new();
    for (path, _) in remembered.iter() {
        if let Some(info) = parse_workspace_directory(Some(path.to_string()), Some(1_705_314_600)) {
            workspaces.push(info);
        }
    }
    assert_eq!(workspaces.len(), 3);

    let mut projects = Vec::new();
    for (workspace, (_, exists)) in workspaces.into_iter().zip(remembered.iter()) {
        if let Some(project) = workspace_to_project(workspace, *exists) {
            projects.push(project);
        }
    }

    assert_eq!(projects.len(), 2);

    let project_names: Vec<&str> = projects.iter().map(|p| p.name.as_str()).collect();
    assert!(project_names.contains(&"project1"));
    assert!(project_names.contains(&"project2"));

    assert!(projects.iter().all(|p| p.source == ProjectSource::Cursor));
}

#[test]
fn the_storage_path_needs_a_home_directory() {
    let home = Some("/home/u".to_string());
    assert_eq!(
        storage_path_for(&home, Platform::MacOs).unwrap(),
        "/home/u/Library/Application Support/Cursor/User/workspaceStorage"
    );
    assert_eq!(
        storage_path_for(&home, Platform::Windows).unwrap(),
        "/home/u/AppData/Roaming/Cursor/User/workspaceStorage"
    );
    let failed = storage_path_for(&None, Platform::Linux).unwrap_err();
    assert_eq!(failed.message, "Failed to get home directory");
}
