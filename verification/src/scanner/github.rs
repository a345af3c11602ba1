//! The user's GitHub repositories as projects: what is made of the answer
//! of the command line client, and how long to wait for it.

use vstd::prelude::*;
use vstd::string::StringExecFns;
use crate::config::{home_directory, program_on_path, Config};
use crate::models::{by_recency, Project, ProjectList, ProjectSource, ProjectView};
use crate::paths::{join_path, joined};
use crate::scanner::ScanError;
use crate::search::{first_index, lemma_first_index_is};
use crate::text::{filled_lines, filled_lines_of, is_blank, is_blank_text, texts_of, trimmed, trimmed_text};
use crate::text::opt_text;
use crate::timestamp::Timestamp;

verus! {

/// The source that lists the user's GitHub repositories.
#[derive(Debug, Clone, Copy)]
pub struct GitHubScanner;

/// A repository as the client reports it.
#[derive(Debug)]
pub struct GitHubRepository {
    /// The repository's name.
    pub name: String,
    /// The address of its page.
    pub html_url: String,
    /// Whether it is archived.
    pub archived: bool,
    /// When it was last pushed to, as RFC 3339 text.
    pub pushed_at: Option<String>,
    /// When it was last updated, as RFC 3339 text.
    pub updated_at: Option<String>,
}

/// What the scan found out before it could list the repositories, or the
/// list itself.
#[derive(Debug)]
pub enum GitHubFetch {
    /// The settings name no GitHub account.
    NotConfigured,
    /// The client is not installed.
    NotInstalled,
    /// The question whether the client is signed in could not be asked.
    AuthCheckFailed(String),
    /// The client is not signed in.
    NotAuthenticated,
    /// The client did not answer in time, or answered with an error.
    FetchFailed(String),
    /// The repositories that the client listed.
    Repositories(Vec<GitHubRepository>),
}

/// What the client's process was found to be doing.
#[derive(Debug, Clone, Copy, PartialEq, Eq, Structural)]
pub enum PollEvent {
    /// The process has ended, with success or without.
    Exited { success: bool },
    /// The process is still running.
    Running,
    /// The state of the process could not be read.
    Unreadable,
}

/// What to do with the client's process next.
#[derive(Debug, Clone, Copy, PartialEq, Eq, Structural)]
pub enum PollAction {
    /// Read what the process wrote and take it for the list.
    Collect,
    /// Read what the process wrote to its error stream and report a failure.
    ReportFailure,
    /// Wait for this many milliseconds, then look again.
    Sleep(u64),
    /// End the process and report that it took too long.
    KillTimedOut,
    /// End the process and report that it could not be watched.
    KillUnreadable,
}

/// How long the scan waits for the client, in seconds.
pub const FETCH_TIMEOUT_SECONDS: u64 = 10;

/// How long to wait between two looks at the process, in milliseconds.
pub const POLL_INTERVAL_MILLIS: u64 = 100;

/// The directory below the home directory into which repositories are
/// cloned.
pub open spec fn clone_root() -> Seq<char> {
    "Documents/git"@
}

/// Where the clone of a repository lives: under `Documents/git` in the home
/// directory, by the repository's name.
pub open spec fn clone_path_of(home: Seq<char>, repo_name: Seq<char>) -> Seq<char> {
    joined(joined(home, clone_root()), repo_name)
}

/// What to do after a look at the process, `elapsed_nanos` nanoseconds after
/// its start, with a limit of `timeout_seconds`.
pub open spec fn poll_step(event: PollEvent, elapsed_nanos: u128, timeout_seconds: u64) -> PollAction {
    match event {
        PollEvent::Exited { success } => if success {
            PollAction::Collect
        } else {
            PollAction::ReportFailure
        },
        PollEvent::Running => if elapsed_nanos > timeout_seconds * 1_000_000_000 {
            PollAction::KillTimedOut
        } else {
            PollAction::Sleep(POLL_INTERVAL_MILLIS)
        },
        PollEvent::Unreadable => PollAction::KillUnreadable,
    }
}

/// The time that the texts of a repository name: that of the last push,
/// else that of the last update. `Err` where the text that counts is no
/// RFC 3339 time.
pub open spec fn repository_time(
    pushed_at: Option<Seq<char>>,
    updated_at: Option<Seq<char>>,
) -> Result<Option<Timestamp>, ()> {
    let text = match pushed_at {
        Some(t) => Some(t),
        None => updated_at,
    };
    match text {
        None => Ok(None),
        Some(t) => match Timestamp::parsed(t) {
            Some(ts) => Ok(Some(ts)),
            None => Err(()),
        },
    }
}

/// A repository, with its texts as sequences of characters.
pub struct GitHubRepositoryView {
    pub name: Seq<char>,
    pub html_url: Seq<char>,
    pub archived: bool,
    pub pushed_at: Option<Seq<char>>,
    pub updated_at: Option<Seq<char>>,
}

impl View for GitHubRepository {
    type V = GitHubRepositoryView;

    open spec fn view(&self) -> GitHubRepositoryView {
        GitHubRepositoryView {
            name: self.name@,
            html_url: self.html_url@,
            archived: self.archived,
            pushed_at: opt_text(self.pushed_at),
            updated_at: opt_text(self.updated_at),
        }
    }
}

/// The project that a repository becomes: none for an archived one; else
/// the project at the clone path, with the repository's address and time.
/// `Err` where its time cannot be read.
pub open spec fn project_of_repository(repo: GitHubRepositoryView, home: Seq<char>) -> Result<
    Option<ProjectView>,
    (),
> {
    if repo.archived {
        Ok(None)
    } else {
        match repository_time(repo.pushed_at, repo.updated_at) {
            Err(_) => Err(()),
            Ok(time) => Ok(
                Some(
                    ProjectView {
                        name: repo.name,
                        path: clone_path_of(home, repo.name),
                        last_modified: time,
                        source: ProjectSource::GitHub,
                        github_url: Some(repo.html_url),
                        gitlab_url: None,
                    },
                ),
            ),
        }
    }
}

/// The project of a repository is a GitHub project that carries the
/// address of the repository, so that it can be cloned where it is not on
/// disk yet.
pub proof fn lemma_repository_project_has_origin(repo: GitHubRepositoryView, home: Seq<char>)
    ensures
        project_of_repository(repo, home) matches Ok(Some(p)) ==> p.source.is_remote()
            && Project::origin_of(p) == Some(repo.html_url),
{
}

/// The views of a sequence of repositories.
pub open spec fn repository_views(s: Seq<GitHubRepository>) -> Seq<GitHubRepositoryView> {
    s.map_values(|r: GitHubRepository| r@)
}

/// The test that a repository passes when its time cannot be read.
pub open spec fn is_unreadable(home: Seq<char>) -> spec_fn(GitHubRepositoryView) -> bool {
    |r: GitHubRepositoryView| project_of_repository(r, home) is Err
}

/// The position of the first repository whose time cannot be read, or the
/// length of the list where there is none. Archived repositories are not
/// looked at.
pub open spec fn first_unreadable(s: Seq<GitHubRepositoryView>, home: Seq<char>) -> int {
    first_index(s, is_unreadable(home))
}

/// The projects of the repositories of `s` that are not archived, in their
/// order; only meant where every time can be read.
pub open spec fn projects_of_repositories(s: Seq<GitHubRepositoryView>, home: Seq<char>) -> Seq<
    ProjectView,
>
    decreases s.len(),
{
    if s.len() == 0 {
        Seq::empty()
    } else {
        let before = projects_of_repositories(s.drop_last(), home);
        match project_of_repository(s.last(), home) {
            Ok(Some(p)) => before.push(p),
            _ => before,
        }
    }
}

/// Tells whether the GitHub client `gh` is installed.
pub fn is_gh_installed() -> (r: bool) {
    program_on_path("gh")
}

/// What the answer to the question for the signed-in account means: the
/// client is signed in where it ended with success and named an account.
pub fn is_gh_authenticated(success: bool, stdout: &str) -> (r: bool)
    ensures
        r == (success && !is_blank_text(stdout@)),
{
    success && !is_blank(stdout)
}

/// The account that the client named: what it wrote, trimmed. `Err` where
/// it ended without success or named none.
pub fn get_gh_username(success: bool, stdout: &str, stderr: &str) -> (r: Result<String, ScanError>)
    ensures
        match r {
            Ok(name) => success && !is_blank_text(stdout@) && name@ == trimmed_text(stdout@),
            Err(e) => if !success {
                e.message@ == "Failed to get GitHub username: "@ + stderr@
            } else {
                is_blank_text(stdout@) && e.message@ == "GitHub username is empty"@
            },
        },
{
    if !success {
        let mut message = String::from_str("Failed to get GitHub username: ");
        message.append(stderr);
        return Err(ScanError { message });
    }
    if is_blank(stdout) {
        return Err(ScanError { message: String::from_str("GitHub username is empty") });
    }
    Ok(trimmed(stdout))
}

/// Where the clone of the repository `repo_name` lives, below `home`.
pub fn clone_path_below(home: &str, repo_name: &str) -> (r: String)
    ensures
        r@ == clone_path_of(home@, repo_name@),
{
    let root = join_path(home, "Documents/git");
    join_path(root.as_str(), repo_name)
}

/// Where the clone of the repository `repo_name` lives, below the home
/// directory of the user. An error where the user has none.
pub fn get_clone_path(repo_name: &str, _config: &Config) -> (r: Result<String, ScanError>)
    ensures
        exists|home: Option<Seq<char>>|
            crate::scanner::path_outcome(r) == clone_path_at(home, repo_name@),
{
    let home = home_directory();
    let found = clone_path_for(&home, repo_name);
    assert(crate::scanner::path_outcome(found) == clone_path_at(opt_text(home), repo_name@));
    found
}

/// Where the clone of a repository lives, given what the machine said of the
/// home directory of the user: below that directory, or nowhere where the
/// user has none, which is a failure.
pub open spec fn clone_path_at(home: Option<Seq<char>>, repo_name: Seq<char>) -> Result<
    Seq<char>,
    Seq<char>,
> {
    match home {
        Some(h) => Ok(clone_path_of(h, repo_name)),
        None => Err(crate::scanner::no_home_text()),
    }
}

/// Where the clone of the repository `repo_name` lives, given what the
/// machine said of the home directory of the user.
pub fn clone_path_for(home: &Option<String>, repo_name: &str) -> (r: Result<String, ScanError>)
    ensures
        crate::scanner::path_outcome(r) == clone_path_at(opt_text(*home), repo_name@),
{
    match home {
        Some(h) => Ok(clone_path_below(h.as_str(), repo_name)),
        None => Err(ScanError { message: String::from_str("Failed to get home directory") }),
    }
}

/// Reads the time of a repository from its RFC 3339 text. No text is no
/// time; a text that is no time is an error.
pub fn parse_github_timestamp(timestamp_str: &Option<String>) -> (r: Result<
    Option<Timestamp>,
    ScanError,
>)
    ensures
        match r {
            Ok(t) => repository_time(opt_text(*timestamp_str), None) == Ok::<Option<Timestamp>, ()>(t),
            Err(_) => repository_time(opt_text(*timestamp_str), None) is Err,
        },
{
    match timestamp_str {
        Some(ts) => match Timestamp::parse_rfc3339(ts.as_str()) {
            Some(t) => Ok(Some(t)),
            None => {
                let mut message = String::from_str("Failed to parse GitHub timestamp: ");
                message.append(ts.as_str());
                Err(ScanError { message })
            },
        },
        None => Ok(None),
    }
}

/// Turns a repository into a project whose clone lives below the home
/// directory of the user. An archived repository gives none; a user without
/// a home directory, and a time that cannot be read, are errors.
pub fn repository_to_project(repo: GitHubRepository, _config: &Config) -> (r: Result<
    Option<Project>,
    ScanError,
>)
    ensures
        match r {
            Ok(Some(p)) => exists|home: Seq<char>|
                project_of_repository(repo@, home) == Ok::<Option<ProjectView>, ()>(Some(p@)),
            Ok(None) => repo@.archived,
            Err(_) => !repo@.archived,
        },
{
    if repo.archived {
        return Ok(None);
    }
    match home_directory() {
        Some(home) => project_from_repository(repo, home.as_str()),
        None => Err(ScanError { message: String::from_str("Failed to get home directory") }),
    }
}

/// Turns a repository into a project whose clone lives below `home`. An
/// archived repository gives none.
pub fn project_from_repository(repo: GitHubRepository, home: &str) -> (r: Result<
    Option<Project>,
    ScanError,
>)
    ensures
        match r {
            Ok(Some(p)) => project_of_repository(repo@, home@) == Ok::<Option<ProjectView>, ()>(
                Some(p@),
            ),
            Ok(None) => project_of_repository(repo@, home@) == Ok::<Option<ProjectView>, ()>(None),
            Err(_) => project_of_repository(repo@, home@) is Err,
        },
{
    if repo.archived {
        return Ok(None);
    }
    let clone_path = clone_path_below(home, repo.name.as_str());
    let text = match repo.pushed_at {
        Some(t) => Some(t),
        None => repo.updated_at,
    };
    let last_modified = match parse_github_timestamp(&text) {
        Ok(t) => t,
        Err(e) => {
            return Err(e);
        },
    };
    let mut project = Project::new_github(repo.name, clone_path.as_str(), repo.html_url);
    if let Some(timestamp) = last_modified {
        project = project.with_last_modified(timestamp);
    }
    Ok(Some(project))
}

/// What to do with the client's process after a look at it.
pub fn poll_decision(event: PollEvent, elapsed_nanos: u128, timeout_seconds: u64) -> (r: PollAction)
    ensures
        r == poll_step(event, elapsed_nanos, timeout_seconds),
{
    match event {
        PollEvent::Exited { success } => if success {
            PollAction::Collect
        } else {
            PollAction::ReportFailure
        },
        PollEvent::Running => {
            let limit: u128 = (timeout_seconds as u128) * 1_000_000_000;
            if elapsed_nanos > limit {
                PollAction::KillTimedOut
            } else {
                PollAction::Sleep(POLL_INTERVAL_MILLIS)
            }
        },
        PollEvent::Unreadable => PollAction::KillUnreadable,
    }
}

/// The lines of the client's answer that hold a repository each: those that
/// are not blank.
pub fn payload_lines(stdout: &str) -> (r: Vec<String>)
    ensures
        texts_of(r@) == filled_lines_of(stdout@),
{
    filled_lines(stdout)
}

impl GitHubScanner {
    /// The short name of the source.
    pub fn scanner_name(&self) -> (r: &'static str)
        ensures
            r@ == "github"@,
    {
        "github"
    }

    /// The projects of the listed repositories that are not archived, in
    /// the order by recency. The first repository whose time cannot be read
    /// is an error.
    pub fn projects_from_repositories(repos: Vec<GitHubRepository>, home: &str) -> (r: Result<
        ProjectList,
        ScanError,
    >)
        ensures
            match r {
                Ok(list) => first_unreadable(repository_views(repos@), home@) == repos@.len()
                    && list@ == by_recency(
                    projects_of_repositories(repository_views(repos@), home@),
                ),
                Err(_) => first_unreadable(repository_views(repos@), home@) < repos@.len(),
            },
    {
        let ghost all = repository_views(repos@);
        let ghost unreadable = is_unreadable(home@);
        let n = repos.len();
        let mut list = ProjectList::new();
        let mut i: usize = 0;
        assert(all.take(0) =~= Seq::<GitHubRepositoryView>::empty());
        for repo in it: repos
            invariant
                n == it.seq().len(),
                i == it.index(),
                i <= n,
                all == repository_views(it.seq()),
                unreadable == is_unreadable(home@),
                forall|k: int| 0 <= k < i ==> !unreadable(#[trigger] all[k]),
                list@ == projects_of_repositories(all.take(i as int), home@),
        {
            proof {
                assert(all[i as int] == repo@);
                assert(all.take(i + 1).drop_last() =~= all.take(i as int));
                assert(all.take(i + 1).last() == all[i as int]);
            }
            match project_from_repository(repo, home) {
                Ok(Some(project)) => {
                    list.add_project(project);
                },
                Ok(None) => {},
                Err(e) => {
                    proof {
                        assert(unreadable(all[i as int]));
                        lemma_first_index_is(all, unreadable, i as int);
                    }
                    return Err(e);
                },
            }
            i = i + 1;
        }
        proof {
            assert(all.take(n as int) =~= all);
            lemma_first_index_is(all, unreadable, n as int);
        }
        list.sort_by_last_modified();
        Ok(list)
    }

    /// What the scan reports for what it found out: an empty list where the
    /// source is not set up, not installed, not signed in, or did not
    /// answer; an error where the sign-in could not be checked; else the
    /// projects of the listed repositories.
    pub fn scan(fetch: GitHubFetch, home: &str) -> (r: Result<ProjectList, ScanError>)
        ensures
            match fetch {
                GitHubFetch::NotConfigured | GitHubFetch::NotInstalled
                | GitHubFetch::NotAuthenticated | GitHubFetch::FetchFailed(_) => r matches Ok(list)
                    && list@ == Seq::<ProjectView>::empty(),
                GitHubFetch::AuthCheckFailed(m) => r matches Err(e) && e.message@ == m@,
                GitHubFetch::Repositories(repos) => match r {
                    Ok(list) => first_unreadable(repository_views(repos@), home@) == repos@.len()
                        && list@ == by_recency(
                        projects_of_repositories(repository_views(repos@), home@),
                    ),
                    Err(_) => first_unreadable(repository_views(repos@), home@) < repos@.len(),
                },
            },
    {
        match fetch {
            GitHubFetch::NotConfigured => Ok(ProjectList::new()),
            GitHubFetch::NotInstalled => Ok(ProjectList::new()),
            GitHubFetch::NotAuthenticated => Ok(ProjectList::new()),
            GitHubFetch::FetchFailed(_) => Ok(ProjectList::new()),
            GitHubFetch::AuthCheckFailed(message) => Err(ScanError { message }),
            GitHubFetch::Repositories(repos) => GitHubScanner::projects_from_repositories(repos, home),
        }
    }
}

impl GitHubScanner {
    /// The account whose repositories are to be listed, given whether the
    /// client is installed: the account of the settings. Without an account
    /// the source is not set up, whatever is installed; with one and without
    /// the client, the client is missing.
    pub fn account_given(config: &Config, installed: bool) -> (r: Result<String, GitHubFetch>)
        ensures
            match config@.github_username {
                None => r matches Err(GitHubFetch::NotConfigured),
                Some(name) => if installed {
                    r matches Ok(account) && account@ == name
                } else {
                    r matches Err(GitHubFetch::NotInstalled)
                },
            },
    {
        match &config.github_username {
            None => Err(GitHubFetch::NotConfigured),
            Some(name) => if installed {
                Ok(name.clone())
            } else {
                Err(GitHubFetch::NotInstalled)
            },
        }
    }

    /// The account whose repositories are to be listed on this machine.
    /// Without an account in the settings the source is not set up, and the
    /// machine is not asked; with one, the machine says whether the client
    /// is installed.
    pub fn account_to_fetch(config: &Config) -> (r: Result<String, GitHubFetch>)
        ensures
            match config@.github_username {
                None => r matches Err(GitHubFetch::NotConfigured),
                Some(name) => match r {
                    Ok(account) => account@ == name,
                    Err(found) => found is NotInstalled,
                },
            },
    {
        match &config.github_username {
            None => Err(GitHubFetch::NotConfigured),
            Some(_) => GitHubScanner::account_given(config, is_gh_installed()),
        }
    }

    /// What the check of the sign-in means for the scan: nothing stands in
    /// its way where the client is signed in; else the client is signed
    /// out, or the check failed for the reason given.
    pub fn after_auth_check(checked: Result<bool, String>) -> (r: Option<GitHubFetch>)
        ensures
            match checked {
                Ok(signed_in) => if signed_in {
                    r is None
                } else {
                    r matches Some(GitHubFetch::NotAuthenticated)
                },
                Err(reason) => r matches Some(GitHubFetch::AuthCheckFailed(text)) && text@
                    == reason@,
            },
    {
        match checked {
            Ok(signed_in) => if signed_in {
                None
            } else {
                Some(GitHubFetch::NotAuthenticated)
            },
            Err(reason) => Some(GitHubFetch::AuthCheckFailed(reason)),
        }
    }
}

} // verus!
