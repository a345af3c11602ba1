use sw::cache::{Cache, CacheFile};
use sw::config::Config;
use sw::models::{Project, ProjectList};
use sw::scanner::local::{is_candidate, project_from_directory, DirectoryProbe, LocalScanner};
use sw::scanner::{merge_results, ProjectScanner, ScanError, ScanManager, ScanOutcome};
use sw::timestamp::Timestamp;

struct MockScanner {
    name: &'static str,
    projects: Vec<Project>,
    should_fail: bool,
}

impl MockScanner {
    fn new(name: &'static str, projects: Vec<Project>) -> Self {
        Self {
            name,
            projects,
            should_fail: false,
        }
    }

    fn new_failing(name: &'static str) -> Self {
        Self {
            name,
            projects: vec![],
            should_fail: true,
        }
    }
}

impl ProjectScanner for MockScanner {
    fn scan(&self, _config: &Config) -> Result<ProjectList, ScanError> {
        if self.should_fail {
            return Err(ScanError { message: "Mock scanner failure".to_string() });
        }
        Ok(ProjectList::from_projects(self.projects.clone()))
    }

    fn scanner_name(&self) -> &'static str {
        self.name
    }
}

fn test_config() -> Config {
    Config {
        editor_command: "vim".to_string(),
        project_dirs: vec![],
        github_username: None,
        gitlab_username: None,
        cache_ttl_seconds: 1800,
    }
}

#[test]
fn test_scan_manager_with_mock_scanners() {
    let scanner1 = MockScanner::new(
        "mock1",
        vec![Project::new_local("project1".to_string(), "/path1")],
    );
    let scanner2 = MockScanner::new(
        "mock2",
        vec![Project::new_local("project2".to_string(), "/path2")],
    );

    let manager = ScanManager::new_with_scanners(vec![
        Box::new(scanner1) as Box<dyn ProjectScanner>,
        Box::new(scanner2) as Box<dyn ProjectScanner>,
    ]);

    let config = test_config();
    let result = manager.scan_all_verbose(&config).projects;

    assert_eq!(result.len(), 2);
    let project_names: Vec<&str> = result.projects().iter().map(|p| p.name.as_str()).collect();
    assert!(project_names.contains(&"project1"));
    assert!(project_names.contains(&"project2"));
}

#[test]
fn test_scan_manager_with_failing_scanner() {
    let good_scanner = MockScanner::new(
        "good",
        vec![Project::new_local("project1".to_string(), "/path1")],
    );
    let bad_scanner = MockScanner::new_failing("bad");

    let manager = ScanManager::new_with_scanners(vec![
        Box::new(good_scanner) as Box<dyn ProjectScanner>,
        Box::new(bad_scanner) as Box<dyn ProjectScanner>,
    ]);

    let config = test_config();
    let run = manager.scan_all_verbose(&config);
    let result = run.projects;

    assert_eq!(result.len(), 1);
    assert_eq!(result.projects()[0].name, "project1");

    assert_eq!(run.notes.len(), 2);
    assert_eq!(run.notes[0].scanner, "good");
    assert!(matches!(run.notes[0].outcome, ScanOutcome::Found(1)));
    assert_eq!(run.notes[1].scanner, "bad");
    match &run.notes[1].outcome {
        ScanOutcome::Failed(message) => assert_eq!(message, "Mock scanner failure"),
        other => panic!("expected a failure, got {:?}", other),
    }
}

#[test]
fn one_failing_scanner_of_three_changes_nothing_for_the_others() {
    let first = vec![Project::new_local("a".to_string(), "/a")];
    let third = vec![
        Project::new_cursor("c".to_string(), "/c"),
        Project::new_local("b".to_string(), "/b"),
    ];
    let manager = ScanManager::new_with_scanners(vec![
        Box::new(MockScanner::new("one", first.clone())) as Box<dyn ProjectScanner>,
        Box::new(MockScanner::new_failing("two")) as Box<dyn ProjectScanner>,
        Box::new(MockScanner::new("three", third.clone())) as Box<dyn ProjectScanner>,
    ]);
    let with_failure = manager.scan_all_verbose(&test_config()).projects;
    let without = merge_results(&vec![
        Ok(ProjectList::from_projects(first)),
        Ok(ProjectList::from_projects(third)),
    ]);
    assert_eq!(with_failure.projects(), without.projects());
    let names: Vec<&str> = with_failure.projects().iter().map(|p| p.name.as_str()).collect();
    assert_eq!(names, vec!["a", "b", "c"]);
}

#[test]
fn merge_removes_duplicates_then_sorts() {
    let t1 = Timestamp { secs: 200, nanos: 0 };
    let t2 = Timestamp { secs: 100, nanos: 0 };
    let local = vec![
        Project::new_local("old".to_string(), "/shared").with_last_modified(t2),
        Project::new_local("zeta".to_string(), "/z"),
    ];
    let remote = vec![
        Project::new_github("dup".to_string(), "/shared", "https://github.com/u/dup".to_string())
            .with_last_modified(t1),
        Project::new_gitlab("dup2".to_string(), "/z", "https://gitlab.com/u/z".to_string()),
        Project::new_github("new".to_string(), "/n", "https://github.com/u/n".to_string())
            .with_last_modified(t1),
        Project::new_cursor("alpha".to_string(), "/shared"),
    ];
    let merged = merge_results(&vec![
        Ok(ProjectList::from_projects(local)),
        Err(ScanError { message: "down".to_string() }),
        Ok(ProjectList::from_projects(remote)),
    ]);
    let names: Vec<&str> = merged.projects().iter().map(|p| p.name.as_str()).collect();
    assert_eq!(names, vec!["new", "old", "alpha", "zeta"]);

    // merging what is merged changes nothing
    let again = merge_results(&vec![Ok(merged.clone())]);
    assert_eq!(again.projects(), merged.projects());

    let nothing = merge_results(&vec![
        Err(ScanError { message: "a".to_string() }),
        Err(ScanError { message: "b".to_string() }),
    ]);
    assert!(nothing.is_empty());
}

#[test]
fn two_repositories_come_back_from_the_cache() {
    // one root with two directories under version control, and one without
    let entries = [
        ("/root/code", true, DirectoryProbe { has_git: false, commit_secs: None, modified_secs: Some(5) }),
        ("/root/code/older", true, DirectoryProbe { has_git: true, commit_secs: Some(1_000), modified_secs: Some(9_000) }),
        ("/root/code/plain", true, DirectoryProbe { has_git: false, commit_secs: None, modified_secs: Some(8_000) }),
        ("/root/code/newer", true, DirectoryProbe { has_git: true, commit_secs: None, modified_secs: Some(2_000) }),
        ("/root/code/newer/README.md", false, DirectoryProbe { has_git: false, commit_secs: None, modified_secs: None }),
        ("/root/code/.hidden", true, DirectoryProbe { has_git: true, commit_secs: Some(3_000), modified_secs: None }),
    ];
    let mut found = Vec::new();
    for (path, is_dir, probe) in entries.iter() {
        if is_candidate(path, *is_dir) {
            if let Some(project) = project_from_directory(path, probe) {
                found.push(project);
            }
        }
    }
    let local = LocalScanner::scan(vec![found]);
    let merged = merge_results(&vec![
        Ok(local),
        Ok(ProjectList::new()),
        Err(ScanError { message: "not signed in".to_string() }),
    ]);
    let names: Vec<&str> = merged.projects().iter().map(|p| p.name.as_str()).collect();
    assert_eq!(names, vec!["newer", "older"]);

    let cache = Cache::new(&test_config(), "/var/cache/sw");
    let plan = cache.save_projects(&merged).unwrap();
    let file = CacheFile { modified_secs: Some(50_000), contents: Some(plan.data) };
    let loaded = cache.load_projects(&file, 50_001).unwrap().unwrap();
    assert_eq!(loaded.projects(), merged.projects());
    let paths: Vec<&str> = loaded.projects().iter().map(|p| p.path.as_str()).collect();
    assert_eq!(paths, vec!["/root/code/newer", "/root/code/older"]);
    // once the time to live has passed the file is a miss, and it is still there
    assert!(cache.load_projects(&file, 50_000 + 1800).unwrap().is_none());
    assert!(file.contents.is_some());
}
