use chrono::{TimeZone, Utc};
use sw::models::{Project, ProjectList, ProjectSource};
use sw::timestamp::Timestamp;

fn at(year: i32, month: u32, day: u32, hour: u32, min: u32, sec: u32) -> Timestamp {
    let t = Utc.with_ymd_and_hms(year, month, day, hour, min, sec).unwrap();
    Timestamp { secs: t.timestamp(), nanos: t.timestamp_subsec_nanos() }
}

#[test]
fn test_project_creation() {
    let project = Project::new_local("test-project".to_string(), "/path/to/project");

    assert_eq!(project.name, "test-project");
    assert_eq!(project.path, "/path/to/project");
    assert_eq!(project.source, ProjectSource::Local);
    assert!(project.last_modified.is_none());
    assert!(project.github_url.is_none());
}

#[test]
fn test_cursor_project_creation() {
    let project = Project::new_cursor("cursor-project".to_string(), "/cursor/path");

    assert_eq!(project.source, ProjectSource::Cursor);
    assert_eq!(project.name, "cursor-project");
}

#[test]
fn test_github_project_creation() {
    let project = Project::new_github(
        "github-project".to_string(),
        "/github/path",
        "https://github.com/user/repo".to_string(),
    );

    assert_eq!(project.source, ProjectSource::GitHub);
    assert_eq!(
        project.github_url,
        Some("https://github.com/user/repo".to_string())
    );
    assert!(project.gitlab_url.is_none());
}

#[test]
fn test_gitlab_project_creation() {
    let project = Project::new_gitlab(
        "gitlab-project".to_string(),
        "/gitlab/path",
        "https://gitlab.example.com/user/repo".to_string(),
    );

    assert_eq!(project.name, "gitlab-project");
    assert_eq!(project.path, "/gitlab/path");
    assert_eq!(project.source, ProjectSource::GitLab);
    assert_eq!(
        project.gitlab_url,
        Some("https://gitlab.example.com/user/repo".to_string())
    );
    assert!(project.github_url.is_none());
    assert!(project.last_modified.is_none());
}

#[test]
fn test_project_with_timestamp() {
    let timestamp = at(2024, 1, 15, 10, 30, 0);
    let project = Project::new_local("test".to_string(), "/path").with_last_modified(timestamp);

    assert_eq!(project.last_modified, Some(timestamp));
}

#[test]
fn test_display_string() {
    let local_project = Project::new_local("local-proj".to_string(), "/path/to/local");
    assert!(local_project.display_string().starts_with("📁 local-proj"));

    let cursor_project = Project::new_cursor("cursor-proj".to_string(), "/path/to/cursor");
    assert!(cursor_project
        .display_string()
        .starts_with("🎯 cursor-proj"));

    let github_project = Project::new_github(
        "github-proj".to_string(),
        "/path/to/github",
        "https://github.com/user/repo".to_string(),
    );
    assert!(github_project
        .display_string()
        .starts_with("🐙 github-proj"));

    let gitlab_project = Project::new_gitlab(
        "gitlab-proj".to_string(),
        "/path/to/gitlab",
        "https://gitlab.example.com/user/repo".to_string(),
    );
    assert!(gitlab_project
        .display_string()
        .starts_with("🦊 gitlab-proj"));

    let timestamp = at(2024, 1, 15, 10, 30, 0);
    let project_with_time =
        Project::new_local("timed-proj".to_string(), "/path").with_last_modified(timestamp);

    let display = project_with_time.display_string();
    assert!(display.contains("📁 timed-proj"));
    assert!(display.contains("(2024-01-15 10:30)"));
}

#[test]
fn test_project_list_operations() {
    let mut list = ProjectList::new();
    assert!(list.is_empty());
    assert_eq!(list.len(), 0);

    let project = Project::new_local("test".to_string(), "/path");
    list.add_project(project.clone());

    assert!(!list.is_empty());
    assert_eq!(list.len(), 1);
    assert_eq!(list.projects()[0], project);
}

#[test]
fn test_project_list_sorting() {
    let mut list = ProjectList::new();

    let old_time = at(2024, 1, 1, 0, 0, 0);
    let new_time = at(2024, 2, 1, 0, 0, 0);

    let old_project = Project::new_local("old".to_string(), "/old").with_last_modified(old_time);
    let new_project = Project::new_local("new".to_string(), "/new").with_last_modified(new_time);
    let no_time_project = Project::new_local("no-time".to_string(), "/no-time");

    list.add_project(old_project.clone());
    list.add_project(new_project.clone());
    list.add_project(no_time_project.clone());

    list.sort_by_last_modified();

    assert_eq!(list.projects()[0], new_project);
    assert_eq!(list.projects()[1], old_project);
    assert_eq!(list.projects()[2], no_time_project);
}

#[test]
fn test_filter_by_source() {
    let projects = vec![
        Project::new_local("local1".to_string(), "/path1"),
        Project::new_cursor("cursor1".to_string(), "/path2"),
        Project::new_github(
            "github1".to_string(),
            "/path3",
            "https://github.com/user/repo".to_string(),
        ),
    ];

    let project_list = ProjectList::from_projects(projects);

    let local_projects = project_list.filter_by_source(ProjectSource::Local);
    assert_eq!(local_projects.len(), 1);
    assert_eq!(local_projects[0].name, "local1");

    let cursor_projects = project_list.filter_by_source(ProjectSource::Cursor);
    assert_eq!(cursor_projects.len(), 1);
    assert_eq!(cursor_projects[0].name, "cursor1");

    let github_projects = project_list.filter_by_source(ProjectSource::GitHub);
    assert_eq!(github_projects.len(), 1);
    assert_eq!(github_projects[0].name, "github1");
}

#[test]
fn test_deduplicate_projects() {
    let shared_path = "/Users/test/my-project";

    let projects = vec![
        Project::new_local("my-project".to_string(), shared_path),
        Project::new_github(
            "my-project".to_string(),
            shared_path,
            "https://github.com/user/my-project".to_string(),
        ),
        Project::new_cursor("other-project".to_string(), "/different/path"),
    ];

    let mut project_list = ProjectList::from_projects(projects);
    assert_eq!(project_list.len(), 3);

    project_list.deduplicate();
    assert_eq!(project_list.len(), 2);

    let remaining_projects: Vec<_> = project_list
        .projects()
        .iter()
        .map(|p| (&p.name, &p.source))
        .collect();
    assert!(remaining_projects.contains(&(&"my-project".to_string(), &ProjectSource::Local)));
    assert!(remaining_projects.contains(&(&"other-project".to_string(), &ProjectSource::Cursor)));
    assert!(!remaining_projects
        .iter()
        .any(|(_, source)| **source == ProjectSource::GitHub));
}

#[test]
fn test_deduplicate_no_duplicates() {
    let projects = vec![
        Project::new_local("project1".to_string(), "/path1"),
        Project::new_cursor("project2".to_string(), "/path2"),
        Project::new_github(
            "project3".to_string(),
            "/path3",
            "https://github.com/user/project3".to_string(),
        ),
    ];

    let mut project_list = ProjectList::from_projects(projects);
    let len_before = project_list.len();

    project_list.deduplicate();
    assert_eq!(project_list.len(), len_before);
}

fn names(list: &ProjectList) -> Vec<&str> {
    list.projects().iter().map(|p| p.name.as_str()).collect()
}

#[test]
fn deduplicate_twice_is_deduplicate_once() {
    let mut list = ProjectList::from_projects(vec![
        Project::new_github("r1".to_string(), "/a", "https://github.com/u/r1".to_string()),
        Project::new_local("l1".to_string(), "/a"),
        Project::new_gitlab("r2".to_string(), "/a", "https://gitlab.com/u/r2".to_string()),
        Project::new_cursor("c1".to_string(), "/a"),
        Project::new_github("r3".to_string(), "/b", "https://github.com/u/r3".to_string()),
        Project::new_github("r3".to_string(), "/b", "https://github.com/u/r3".to_string()),
        Project::new_local("l2".to_string(), "/a"),
    ]);
    list.deduplicate();
    assert_eq!(names(&list), vec!["l1", "c1", "r3", "r3", "l2"]);
    let once = list.clone();
    list.deduplicate();
    assert_eq!(list.projects(), once.projects());
}

#[test]
fn the_local_project_wins_over_the_remote_one() {
    let local = Project::new_local("mine".to_string(), "/shared");
    let remote =
        Project::new_github("mine".to_string(), "/shared", "https://github.com/u/mine".to_string());

    let mut list = ProjectList::from_projects(vec![local.clone(), remote.clone()]);
    list.deduplicate();
    assert_eq!(list.projects(), &[local.clone()]);

    let mut list = ProjectList::from_projects(vec![remote.clone(), local.clone()]);
    list.deduplicate();
    assert_eq!(list.projects(), &[local.clone()]);

    // a remote project alone stays, and so does one at another path
    let mut list = ProjectList::from_projects(vec![remote.clone()]);
    list.deduplicate();
    assert_eq!(list.projects(), &[remote.clone()]);
    let mut list = ProjectList::from_projects(vec![
        remote.clone(),
        Project::new_local("mine".to_string(), "/shared/"),
        Project::new_cursor("mine".to_string(), "/shared"),
    ]);
    list.deduplicate();
    assert_eq!(list.len(), 3);
}

#[test]
fn sorting_puts_times_first_and_is_stable() {
    let t1 = at(2024, 3, 1, 0, 0, 0);
    let t2 = at(2024, 2, 1, 0, 0, 0);
    let newest = Project::new_local("n".to_string(), "/n").with_last_modified(t1);
    let older = Project::new_local("o".to_string(), "/o").with_last_modified(t2);
    let none = Project::new_local("x".to_string(), "/x");

    let arrangements = [
        vec![newest.clone(), older.clone(), none.clone()],
        vec![newest.clone(), none.clone(), older.clone()],
        vec![older.clone(), newest.clone(), none.clone()],
        vec![older.clone(), none.clone(), newest.clone()],
        vec![none.clone(), newest.clone(), older.clone()],
        vec![none.clone(), older.clone(), newest.clone()],
    ];
    for projects in arrangements {
        let mut list = ProjectList::from_projects(projects);
        list.sort_by_last_modified();
        assert_eq!(list.projects(), &[newest.clone(), older.clone(), none.clone()]);
        list.sort_by_last_modified();
        assert_eq!(list.projects(), &[newest.clone(), older.clone(), none.clone()]);
    }

    let mut list = ProjectList::from_projects(vec![
        Project::new_local("b".to_string(), "/1"),
        Project::new_local("same".to_string(), "/first").with_last_modified(t2),
        Project::new_local("a".to_string(), "/2"),
        Project::new_local("same".to_string(), "/second").with_last_modified(t2),
        Project::new_local("B".to_string(), "/3"),
        Project::new_local("a".to_string(), "/4"),
        Project::new_local("zz".to_string(), "/5").with_last_modified(Timestamp { secs: t2.secs, nanos: 1 }),
    ]);
    list.sort_by_last_modified();
    let paths: Vec<&str> = list.projects().iter().map(|p| p.path.as_str()).collect();
    assert_eq!(paths, vec!["/5", "/first", "/second", "/3", "/2", "/4", "/1"]);
}

#[test]
fn lists_grow_and_copy() {
    let mut list = ProjectList::default();
    assert!(list.is_empty());
    let other = ProjectList::from_projects(vec![
        Project::new_local("a".to_string(), "/a"),
        Project::new_cursor("b".to_string(), "/b"),
    ]);
    list.add_project(Project::new_local("z".to_string(), "/z"));
    list.extend_from(&other);
    list.extend_from(&ProjectList::new());
    assert_eq!(names(&list), vec!["z", "a", "b"]);
    assert_eq!(list.clone().projects(), list.projects());
    assert!(list.filter_by_source(ProjectSource::GitLab).is_empty());
    assert_eq!(list.filter_by_source(ProjectSource::Local).len(), 2);
}

#[test]
fn display_line_and_origin() {
    let p = Project::new_gitlab("repo".to_string(), "/home/u/gitlab/u/repo", "https://gitlab.com/u/repo".to_string())
        .with_last_modified(at(2024, 1, 15, 10, 30, 59));
    assert_eq!(p.display_string(), "🦊 repo (2024-01-15 10:30) - /home/u/gitlab/u/repo");
    assert_eq!(p.label(), "🦊 repo (2024-01-15 10:30)");
    assert_eq!(p.origin_url(), Some("https://gitlab.com/u/repo".to_string()));
    let q = Project::new_local("plain".to_string(), "/p");
    assert_eq!(q.display_string(), "📁 plain - /p");
    assert_eq!(q.origin_url(), None);
    let far = Project::new_cursor("far".to_string(), "/f").with_last_modified(Timestamp { secs: i64::MIN, nanos: 0 });
    assert_eq!(far.display_string(), "🎯 far - /f");
    assert!(ProjectSource::GitHub.remote());
    assert!(ProjectSource::GitLab.remote());
    assert!(!ProjectSource::Local.remote());
    assert!(!ProjectSource::Cursor.remote());
    let mut odd = Project::new_github("g".to_string(), "/g", "https://github.com/u/g".to_string());
    odd.gitlab_url = Some("https://gitlab.com/u/g".to_string());
    assert_eq!(odd.origin_url(), Some("https://github.com/u/g".to_string()));
    assert_ne!(odd, Project::new_github("g".to_string(), "/g", "https://github.com/u/g".to_string()));
}
