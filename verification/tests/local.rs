use sw::models::{Project, ProjectSource};
use sw::paths::{file_name, is_hidden_directory, join_path, project_name};
use sw::scanner::local::{
    get_project_timestamp, is_candidate, is_project_directory, project_from_directory,
    DirectoryProbe, LocalScanner, MAX_DEPTH,
};
use sw::timestamp::Timestamp;

fn probe(has_git: bool, commit_secs: Option<i64>, modified_secs: Option<u64>) -> DirectoryProbe {
    DirectoryProbe { has_git, commit_secs, modified_secs }
}

#[test]
fn test_is_project_directory() {
    assert!(is_project_directory(&probe(true, None, None)));
    assert!(is_project_directory(&probe(true, Some(5), Some(6))));
    assert!(!is_project_directory(&probe(false, None, Some(6))));
}

#[test]
fn test_is_hidden_directory() {
    assert!(is_hidden_directory("/tmp/work/.hidden"));
    assert!(!is_hidden_directory("/tmp/work/normal"));
    assert!(is_hidden_directory(".git/"));
    assert!(!is_hidden_directory("/tmp/.hidden/visible"));
    assert!(!is_hidden_directory("/"));
    assert!(!is_hidden_directory(""));
    assert!(!is_hidden_directory("a/.."));
}

#[test]
fn test_get_directory_modified_time() {
    let timestamp = get_project_timestamp(None, Some(1_705_314_600));
    assert!(timestamp.is_some());
    assert_eq!(timestamp, Some(Timestamp { secs: 1_705_314_600, nanos: 0 }));
}

#[test]
fn commit_time_comes_before_directory_time() {
    assert_eq!(get_project_timestamp(Some(10), Some(20)), Some(Timestamp { secs: 10, nanos: 0 }));
    assert_eq!(get_project_timestamp(Some(-3), None), Some(Timestamp { secs: -3, nanos: 0 }));
    assert_eq!(get_project_timestamp(None, None), None);
    assert_eq!(get_project_timestamp(None, Some(u64::MAX)), None);
}

#[test]
fn only_directories_under_version_control_are_projects() {
    assert!(is_candidate("/code/app", true));
    assert!(!is_candidate("/code/app", false));
    assert!(!is_candidate("/code/.cache", true));
    assert_eq!(MAX_DEPTH, 3);

    let p = project_from_directory("/code/rust-app", &probe(true, Some(100), Some(200))).unwrap();
    assert_eq!(p.name, "rust-app");
    assert_eq!(p.path, "/code/rust-app");
    assert_eq!(p.source, ProjectSource::Local);
    assert_eq!(p.last_modified, Some(Timestamp { secs: 100, nanos: 0 }));
    assert!(project_from_directory("/code/empty", &probe(false, None, Some(1))).is_none());
    assert_eq!(project_from_directory("/", &probe(true, None, None)).unwrap().name, "unknown");
}

#[test]
fn local_scan_gathers_the_roots_and_sorts() {
    let list = LocalScanner::scan(vec![
        vec![
            Project::new_local("b".to_string(), "/r1/b"),
            Project::new_local("old".to_string(), "/r1/old").with_last_modified(Timestamp { secs: 1, nanos: 0 }),
        ],
        vec![],
        vec![
            Project::new_local("new".to_string(), "/r2/new").with_last_modified(Timestamp { secs: 9, nanos: 0 }),
            Project::new_local("a".to_string(), "/r2/a"),
        ],
    ]);
    let names: Vec<&str> = list.projects().iter().map(|p| p.name.as_str()).collect();
    assert_eq!(names, vec!["new", "old", "a", "b"]);
    assert!(LocalScanner::scan(vec![]).is_empty());
}

#[test]
fn paths_join_and_name() {
    assert_eq!(join_path("/home/u", "Code"), "/home/u/Code");
    assert_eq!(join_path("/home/u/", "Code"), "/home/u/Code");
    assert_eq!(join_path("", "Code"), "Code");
    assert_eq!(join_path("/home/u", "/abs"), "/abs");
    assert_eq!(join_path("/home/u", ""), "/home/u/");
    assert_eq!(join_path("/", "x"), "/x");

    assert_eq!(file_name("/a/b/c"), Some("c".to_string()));
    assert_eq!(file_name("/a/b/c///"), Some("c".to_string()));
    assert_eq!(file_name("name"), Some("name".to_string()));
    assert_eq!(file_name("/"), None);
    assert_eq!(file_name(""), None);
    assert_eq!(file_name("/a/.."), None);
    assert_eq!(file_name("/a/..."), Some("...".to_string()));
    assert_eq!(file_name("/a/é b"), Some("é b".to_string()));
    assert_eq!(project_name("/x/y"), "y");
    assert_eq!(project_name("//"), "unknown");
    for p in [
        "/a/b/c", "/a/b/c/", "name", "/", "a/..", "/a/.hidden", "rel/path.txt", "a/.", "a/./",
        "a/./.", "./a", ".", "..", "./", "/.", "a/b/../", "a//b//", "a/.b", "a/b.", "a/..b", "",
        "/a/./b/./", "...", "a/.../",
    ] {
        let expected = std::path::Path::new(p).file_name().map(|n| n.to_str().unwrap().to_string());
        assert_eq!(file_name(p), expected, "for {}", p);
    }
}

// What a walk over a directory finds: each entry with whether it is a
// directory and whether it holds version-control metadata.
fn projects_below(entries: &[(&str, bool, bool)]) -> Vec<Project> {
    let mut projects = Vec::new();
    for (path, is_dir, has_git) in entries.iter() {
        if is_candidate(path, *is_dir) {
            let found = probe(*has_git, None, Some(1_705_314_600));
            if let Some(project) = project_from_directory(path, &found) {
                projects.push(project);
            }
        }
    }
    projects
}

#[test]
fn test_scan_directory() {
    let projects = projects_below(&[
        ("/base", true, false),
        ("/base/rust-app", true, true),
        ("/base/rust-app/Cargo.toml", false, false),
        ("/base/rust-app/src", true, false),
        ("/base/node-app", true, true),
        ("/base/node-app/package.json", false, false),
        ("/base/git-repo", true, true),
        ("/base/.hidden", true, false),
        ("/base/.hidden/Cargo.toml", false, false),
        ("/base/empty", true, false),
    ]);

    assert_eq!(projects.len(), 3);

    let project_names: Vec<&str> = projects.iter().map(|p| p.name.as_str()).collect();
    assert!(project_names.contains(&"rust-app"));
    assert!(project_names.contains(&"node-app"));
    assert!(project_names.contains(&"git-repo"));
    assert!(!project_names.contains(&".hidden"));
    assert!(!project_names.contains(&"empty"));

    assert!(projects.iter().all(|p| p.source == ProjectSource::Local));
}

#[test]
fn test_local_scanner() {
    let found = projects_below(&[
        ("/base", true, false),
        ("/base/project1", true, true),
        ("/base/project2", true, true),
    ]);

    let scanner = LocalScanner;
    let result = LocalScanner::scan(vec![found]);

    assert_eq!(result.len(), 2);
    assert_eq!(scanner.scanner_name(), "local");
}

#[test]
fn test_scan_nonexistent_directory() {
    let projects = projects_below(&[]);
    assert!(projects.is_empty());
    assert!(LocalScanner::scan(vec![projects]).is_empty());
}

#[test]
fn test_project_file_detection() {
    let project_files = [
        "Cargo.toml", "package.json", "pyproject.toml", "setup.py",
        "requirements.txt", "go.mod", "pom.xml", "build.gradle",
        "Makefile", "justfile", "Dockerfile", "README.md",
    ];

    for file in &project_files {
        let project_dir = format!("/base/test-{}", file);
        let found = projects_below(&[(project_dir.as_str(), true, true)]);
        assert!(
            is_project_directory(&probe(true, None, None)) && found.len() == 1,
            "Failed to detect Git repository with file: {}",
            file
        );
    }

    // a directory with a project file but without version control
    assert!(!is_project_directory(&probe(false, None, Some(1))));
    assert!(projects_below(&[("/base/not-a-git-repo", true, false)]).is_empty());
}
