use sw::cache::{temp_file_name, temp_file_path, Cache, CacheError, CacheFile, SaveStep};
use sw::codec::{decode_projects, encode_projects, CodecError};
use sw::config::Config;
use sw::models::{Project, ProjectList, ProjectSource};
use sw::timestamp::Timestamp;

fn cache_in(dir: &str, ttl_seconds: u64) -> Cache {
    let config = Config {
        editor_command: "vim".to_string(),
        project_dirs: vec![],
        github_username: None,
        gitlab_username: None,
        cache_ttl_seconds: ttl_seconds,
    };
    Cache::new(&config, dir)
}

#[test]
fn test_cache_creation() {
    let cache = cache_in("/tmp/sw-cache-test", 1);

    assert!(cache.projects_cache_path().contains("sw_projects.cache"));
    assert!(cache.github_cache_path().contains("sw_github.cache"));
    assert_eq!(cache.projects_cache_path(), "/tmp/sw-cache-test/sw_projects.cache");
    assert_eq!(cache.github_cache_path(), "/tmp/sw-cache-test/sw_github.cache");
}

#[test]
fn test_cache_validity() {
    let cache = cache_in("/tmp/sw-cache-test", 1);
    let now: u64 = 1_700_000_000;

    // no file
    assert!(!cache.is_cache_valid(None, now));

    // a file written now
    assert!(cache.is_cache_valid(Some(now), now));

    // two seconds later
    assert!(!cache.is_cache_valid(Some(now), now + 2));
}

#[test]
fn cache_validity_at_the_boundary() {
    let cache = cache_in("/c", 60);
    assert!(cache.is_cache_valid(Some(1000), 1059));
    assert!(!cache.is_cache_valid(Some(1000), 1060));
    // a file from the future is not valid, and nothing panics
    assert!(!cache.is_cache_valid(Some(1001), 1000));
    assert!(!cache.is_cache_valid(Some(u64::MAX), 0));
    // a cache that never stays valid
    assert!(!cache_in("/c", 0).is_cache_valid(Some(1000), 1000));
}

#[test]
fn test_project_cache_roundtrip() {
    let cache = cache_in("/tmp/sw-cache-test", 60);

    let mut project_list = ProjectList::new();
    project_list.add_project(Project::new_local("test-project".to_string(), "/test/path"));
    project_list.add_project(Project::new_github(
        "gh-project".to_string(),
        "/gh/path",
        "https://github.com/user/repo".to_string(),
    ));

    let plan = cache.save_projects(&project_list).unwrap();
    assert_eq!(plan.target, cache.projects_cache_path());

    let file = CacheFile { modified_secs: Some(100), contents: Some(plan.data) };
    let loaded = cache.load_projects(&file, 100).unwrap().unwrap();

    assert_eq!(loaded.len(), 2);
    assert_eq!(loaded.projects()[0].name, "test-project");
    assert_eq!(loaded.projects()[0].source, ProjectSource::Local);
    assert_eq!(loaded.projects()[1].name, "gh-project");
    assert_eq!(loaded.projects()[1].source, ProjectSource::GitHub);
}

#[test]
fn round_trip_keeps_every_field() {
    let mut list = ProjectList::new();
    list.add_project(
        Project::new_local("a".to_string(), "/a")
            .with_last_modified(Timestamp { secs: 1_705_314_600, nanos: 123 }),
    );
    list.add_project(Project::new_cursor("b".to_string(), "/b"));
    list.add_project(Project::new_github("c".to_string(), "/c", "https://github.com/u/c".to_string()));
    list.add_project(
        Project::new_gitlab("d".to_string(), "/d", "https://gitlab.com/u/d".to_string())
            .with_last_modified(Timestamp { secs: -5, nanos: 0 }),
    );
    list.add_project(Project::new_local("".to_string(), ""));

    let bytes = encode_projects(&list).unwrap();
    let back = decode_projects(&bytes).unwrap();
    assert_eq!(back.len(), 5);
    for i in 0..5 {
        assert_eq!(back.projects()[i], list.projects()[i]);
    }
    assert_eq!(back.projects()[0].last_modified, Some(Timestamp { secs: 1_705_314_600, nanos: 123 }));
    assert_eq!(back.projects()[1].last_modified, None);
    assert_eq!(back.projects()[2].github_url, Some("https://github.com/u/c".to_string()));
    assert_eq!(back.projects()[2].gitlab_url, None);
    assert_eq!(back.projects()[3].gitlab_url, Some("https://gitlab.com/u/d".to_string()));

    let empty = encode_projects(&ProjectList::new()).unwrap();
    assert_eq!(empty, vec![0u8; 8]);
    assert_eq!(decode_projects(&empty).unwrap().len(), 0);
}

#[test]
fn encoding_is_the_layout_of_bincode() {
    let mut list = ProjectList::new();
    list.add_project(Project::new_cursor("ab".to_string(), "/p"));
    let bytes = encode_projects(&list).unwrap();
    let mut expected: Vec<u8> = Vec::new();
    expected.extend_from_slice(&1u64.to_le_bytes());
    expected.extend_from_slice(&2u64.to_le_bytes());
    expected.extend_from_slice(b"ab");
    expected.extend_from_slice(&2u64.to_le_bytes());
    expected.extend_from_slice(b"/p");
    expected.push(0);
    expected.extend_from_slice(&1u32.to_le_bytes());
    expected.push(0);
    expected.push(0);
    assert_eq!(bytes, expected);
}

#[test]
fn corrupt_cache_is_an_error() {
    let cache = cache_in("/c", 60);
    let file = CacheFile { modified_secs: Some(10), contents: Some(vec![1, 2, 3]) };
    match cache.load_projects(&file, 10) {
        Err(CacheError::Corrupt(CodecError::Malformed(_))) => {}
        other => panic!("expected a corrupt cache, got {:?}", other),
    }
    assert!(matches!(decode_projects(b"not a cache"), Err(CodecError::Malformed(_))));

    // one record whose source number is none
    let mut bytes: Vec<u8> = Vec::new();
    bytes.extend_from_slice(&1u64.to_le_bytes());
    bytes.extend_from_slice(&0u64.to_le_bytes());
    bytes.extend_from_slice(&0u64.to_le_bytes());
    bytes.push(0);
    bytes.extend_from_slice(&9u32.to_le_bytes());
    bytes.push(0);
    bytes.push(0);
    assert!(matches!(decode_projects(&bytes), Err(CodecError::InvalidRecord(0))));

    // the same file, once stale, is a miss and no error
    assert!(matches!(cache.load_projects(&file, 70), Ok(None)));
    // a file that cannot be read is a miss
    let unreadable = CacheFile { modified_secs: Some(10), contents: None };
    assert!(matches!(cache.load_projects(&unreadable, 10), Ok(None)));
    // no file is a miss
    let missing = CacheFile { modified_secs: None, contents: None };
    assert!(matches!(cache.load_projects(&missing, 10), Ok(None)));
}

#[test]
fn test_cache_invalidation() {
    let cache = cache_in("/tmp/sw-cache-test", 60);

    let project_list = ProjectList::new();

    let projects_plan = cache.save_projects(&project_list).unwrap();
    let github_plan = cache.save_github_projects(&project_list).unwrap();
    assert_eq!(projects_plan.target, cache.projects_cache_path());
    assert_eq!(github_plan.target, cache.github_cache_path());

    assert_eq!(
        cache.invalidate_all(true, true),
        vec![cache.projects_cache_path(), cache.github_cache_path()]
    );
    assert_eq!(cache.invalidate_all(false, true), vec![cache.github_cache_path()]);
    assert_eq!(cache.invalidate_all(true, false), vec![cache.projects_cache_path()]);
    assert!(cache.invalidate_all(false, false).is_empty());
}

#[test]
fn a_save_is_tried_three_times() {
    assert_eq!(Cache::after_attempt(0, true), SaveStep::Done);
    assert_eq!(Cache::after_attempt(2, true), SaveStep::Done);
    assert_eq!(Cache::after_attempt(0, false), SaveStep::RetryAfter(1));
    assert_eq!(Cache::after_attempt(1, false), SaveStep::RetryAfter(2));
    assert_eq!(Cache::after_attempt(2, false), SaveStep::GiveUp);
    assert_eq!(Cache::after_attempt(u32::MAX, false), SaveStep::GiveUp);
}

#[test]
fn temporary_files_are_named_by_process_and_clock() {
    assert_eq!(
        temp_file_name("/var/cache/sw/sw_projects.cache", 4242, 1_700_000_000_123_456_789),
        "sw_projects.cache.tmp.4242.1700000000123456789"
    );
    assert_eq!(
        temp_file_path("/var/cache/sw/sw_projects.cache", 4242, 7),
        "/var/cache/sw/sw_projects.cache.tmp.4242.7"
    );
    assert_eq!(temp_file_name("/", 0, 0), "cache.tmp.0.0");
    assert_eq!(temp_file_path("name", 1, u128::MAX), format!("name.tmp.1.{}", u128::MAX));
    assert_ne!(temp_file_name("a", 1, 23), temp_file_name("a", 12, 3));
}
