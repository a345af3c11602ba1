//! The user's GitLab repositories as projects: what is made of the JSON
//! list that the command line client prints.

use vstd::prelude::*;
use vstd::string::StringExecFns;
use crate::config::{home_directory, program_on_path};
use crate::models::{Project, ProjectList, ProjectSource, ProjectView};
use crate::paths::{join_path, joined};
use crate::scanner::ScanError;
use crate::text::{is_blank, is_blank_text};
use crate::text::opt_text;
use crate::timestamp::Timestamp;

verus! {

/// The source that lists the user's GitLab repositories.
#[derive(Debug, Clone, Copy)]
pub struct GitLabScanner;

/// What the scan reads of one repository in the client's list: its name,
/// the address of its page, the time of its last activity, and whether it
/// is archived. A field is `None` where the list does not hold it as a text
/// (the last as a boolean).
pub type RepoFields = (Option<String>, Option<String>, Option<String>, Option<bool>);

/// The fields of a repository, with their texts as sequences of characters.
pub type RepoFieldsView = (Option<Seq<char>>, Option<Seq<char>>, Option<Seq<char>>, Option<bool>);

/// The view of the fields of one repository.
pub open spec fn fields_view(f: RepoFields) -> RepoFieldsView {
    (opt_text(f.0), opt_text(f.1), opt_text(f.2), f.3)
}

/// The views of the fields of a list of repositories.
pub open spec fn fields_views(s: Seq<RepoFields>) -> Seq<RepoFieldsView> {
    s.map_values(|f: RepoFields| fields_view(f))
}

/// What `serde_json::from_str` reads from `text` as a list of values, each
/// reduced to the fields `name`, `web_url`, `last_activity_at` and
/// `archived`; `None` where `text` is not a JSON list.
pub uninterp spec fn gitlab_listing(text: Seq<char>) -> Option<Seq<RepoFieldsView>>;

/// The error of serde_json, `serde_json::Error`, carried through as it is:
/// nothing is known of what one holds.
#[verifier::external_type_specification]
#[verifier::external_body]
pub struct ExJsonError(serde_json::Error);

/// Calls `serde_json::from_str` for a list of `serde_json::Value` and picks
/// four fields of each with `Value`'s index, `as_str` and `as_bool`. The
/// contract names what was read, and says that an error is the `None` of
/// that name.
#[verifier::external_body]
fn json_listing(text: &str) -> (r: Result<Vec<RepoFields>, serde_json::Error>)
    ensures
        match r {
            Ok(fields) => gitlab_listing(text@) == Some(fields_views(fields@)),
            Err(_) => gitlab_listing(text@) is None,
        },
{
    let values: Vec<serde_json::Value> = serde_json::from_str(text)?;
    Ok(values.iter().map(|v| (
        v["name"].as_str().map(String::from),
        v["web_url"].as_str().map(String::from),
        v["last_activity_at"].as_str().map(String::from),
        v["archived"].as_bool(),
    )).collect())
}

/// Calls `to_string` on a serde_json error, for the message of the
/// library's own error. Nothing is claimed of the text.
#[verifier::external_body]
fn json_error_text(e: &serde_json::Error) -> (r: String) {
    e.to_string()
}

/// What the scan found out before it could read the list, or the list.
#[derive(Debug)]
pub enum GitLabFetch {
    /// The settings name no GitLab account.
    NotConfigured,
    /// The client is not installed or cannot reach its server.
    CannotConnect,
    /// The client could not be run, or what it wrote is no text.
    Unavailable(String),
    /// The client ended without success; the text is what it wrote to its
    /// error stream.
    CommandFailed(String),
    /// What the client wrote for the account `username`.
    Output { username: String, stdout: String },
}

/// The directory in which the clones of GitLab repositories live where the
/// home directory is not known.
pub open spec fn homeless_root() -> Seq<char> {
    "/tmp"@
}

/// Where the clone of a repository lives: under `gitlab` in the home
/// directory, by the account and the repository's name.
pub open spec fn gitlab_clone_path(
    home: Option<Seq<char>>,
    username: Seq<char>,
    repo_name: Seq<char>,
) -> Seq<char> {
    let base = match home {
        Some(h) => h,
        None => homeless_root(),
    };
    joined(joined(joined(base, "gitlab"@), username), repo_name)
}

/// The project that the fields of a repository give: `None` where the name
/// or the address is missing; else the project at the clone path, with the
/// time of the last activity, or `now` where that is missing or no RFC 3339
/// time.
pub open spec fn project_of_fields(
    f: RepoFieldsView,
    username: Seq<char>,
    home: Option<Seq<char>>,
    now: Timestamp,
) -> Option<ProjectView> {
    match (f.0, f.1) {
        (Some(name), Some(web_url)) => Some(
            ProjectView {
                name,
                path: gitlab_clone_path(home, username, name),
                last_modified: Some(
                    match f.2 {
                        Some(text) => match Timestamp::parsed(text) {
                            Some(t) => t,
                            None => now,
                        },
                        None => now,
                    },
                ),
                source: ProjectSource::GitLab,
                github_url: None,
                gitlab_url: Some(web_url),
            },
        ),
        _ => None,
    }
}

/// The project of a repository is a GitLab project that carries the
/// address of the repository, so that it can be cloned where it is not on
/// disk yet.
pub proof fn lemma_fields_project_has_origin(
    f: RepoFieldsView,
    username: Seq<char>,
    home: Option<Seq<char>>,
    now: Timestamp,
)
    ensures
        project_of_fields(f, username, home, now) matches Some(p) ==> p.source.is_remote()
            && Project::origin_of(p) == f.1,
{
}

/// The projects of a list of repositories, in their order: a repository
/// that is archived, or that lacks its name or address, gives none.
pub open spec fn projects_of_listing(
    s: Seq<RepoFieldsView>,
    username: Seq<char>,
    home: Option<Seq<char>>,
    now: Timestamp,
) -> Seq<ProjectView>
    decreases s.len(),
{
    if s.len() == 0 {
        Seq::empty()
    } else {
        let before = projects_of_listing(s.drop_last(), username, home, now);
        if s.last().3 == Some(true) {
            before
        } else {
            match project_of_fields(s.last(), username, home, now) {
                Some(p) => before.push(p),
                None => before,
            }
        }
    }
}

/// What the scan makes of what the client wrote: nothing of a blank
/// answer, an error of what is no JSON list, else the projects of the list.
pub open spec fn projects_of_output(
    stdout: Seq<char>,
    username: Seq<char>,
    home: Option<Seq<char>>,
    now: Timestamp,
) -> Option<Seq<ProjectView>> {
    if is_blank_text(stdout) {
        Some(Seq::empty())
    } else {
        match gitlab_listing(stdout) {
            Some(listing) => Some(projects_of_listing(listing, username, home, now)),
            None => None,
        }
    }
}

/// The view of an optional borrowed text.
pub open spec fn opt_str(o: Option<&str>) -> Option<Seq<char>> {
    match o {
        Some(s) => Some(s@),
        None => None,
    }
}

/// Reads the time of the last activity of a repository from its RFC 3339
/// text. `None` where the text is no such time.
pub fn parse_gitlab_timestamp(timestamp_str: &str) -> (r: Option<Timestamp>)
    ensures
        r == Timestamp::parsed(timestamp_str@),
{
    Timestamp::parse_rfc3339(timestamp_str)
}

/// Tells whether the GitLab client `glab` is installed.
pub fn is_glab_installed() -> (r: bool) {
    program_on_path("glab")
}

impl GitLabScanner {
    /// The short name of the source.
    pub fn scanner_name(&self) -> (r: &'static str)
        ensures
            r@ == "gitlab"@,
    {
        "gitlab"
    }

    /// Tells whether the client can be used: it is installed and it reached
    /// its server.
    pub fn can_connect(installed: bool, accessible: bool) -> (r: bool)
        ensures
            r == (installed && accessible),
    {
        installed && accessible
    }

    /// Where the clone of the repository `repo_name` of `username` lives,
    /// below the home directory of the user, or below `/tmp` where the user
    /// has none.
    pub fn get_clone_path(username: &str, repo_name: &str) -> (r: String)
        ensures
            exists|home: Option<Seq<char>>| r@ == gitlab_clone_path(home, username@, repo_name@),
    {
        match home_directory() {
            Some(home) => {
                let path = GitLabScanner::clone_path_below(Some(home.as_str()), username, repo_name);
                assert(path@ == gitlab_clone_path(Some(home@), username@, repo_name@));
                path
            },
            None => {
                let path = GitLabScanner::clone_path_below(None, username, repo_name);
                assert(path@ == gitlab_clone_path(None, username@, repo_name@));
                path
            },
        }
    }

    /// Where the clone of the repository `repo_name` of `username` lives,
    /// below `home`, or below `/tmp` where there is none.
    pub fn clone_path_below(home: Option<&str>, username: &str, repo_name: &str) -> (r: String)
        ensures
            r@ == gitlab_clone_path(opt_str(home), username@, repo_name@),
    {
        let base = match home {
            Some(h) => h,
            None => "/tmp",
        };
        let root = join_path(base, "gitlab");
        let account = join_path(root.as_str(), username);
        join_path(account.as_str(), repo_name)
    }

    /// Turns the fields of a repository into a project. A repository without
    /// a name or an address is an error; one without a time of last activity
    /// gets `now`.
    pub fn repository_to_project(
        fields: RepoFields,
        username: &str,
        home: Option<&str>,
        now: Timestamp,
    ) -> (r: Result<Project, ScanError>)
        ensures
            match r {
                Ok(p) => project_of_fields(fields_view(fields), username@, opt_str(home), now)
                    == Some(p@),
                Err(_) => project_of_fields(fields_view(fields), username@, opt_str(home), now)
                    is None,
            },
    {
        let (name, web_url, last_activity_at, _) = fields;
        let name = match name {
            Some(n) => n,
            None => {
                return Err(ScanError { message: String::from_str("Repository name not found") });
            },
        };
        let web_url = match web_url {
            Some(u) => u,
            None => {
                return Err(
                    ScanError { message: String::from_str("Repository web_url not found") },
                );
            },
        };
        let clone_path = GitLabScanner::clone_path_below(home, username, name.as_str());
        let last_modified = match last_activity_at {
            Some(text) => match parse_gitlab_timestamp(text.as_str()) {
                Some(t) => t,
                None => now,
            },
            None => now,
        };
        Ok(Project::new_gitlab(name, clone_path.as_str(), web_url).with_last_modified(last_modified))
    }

    /// The projects of a list of repositories, in the order of the list.
    pub fn projects_from_listing(
        listing: Vec<RepoFields>,
        username: &str,
        home: Option<&str>,
        now: Timestamp,
    ) -> (r: ProjectList)
        ensures
            r@ == projects_of_listing(fields_views(listing@), username@, opt_str(home), now),
    {
        let ghost all = fields_views(listing@);
        let n = listing.len();
        let mut list = ProjectList::new();
        let mut i: usize = 0;
        assert(all.take(0) =~= Seq::<RepoFieldsView>::empty());
        for fields in it: listing
            invariant
                n == it.seq().len(),
                i == it.index(),
                i <= n,
                all == fields_views(it.seq()),
                list@ == projects_of_listing(all.take(i as int), username@, opt_str(home), now),
        {
            proof {
                assert(all[i as int] == fields_view(fields));
                assert(all.take(i + 1).drop_last() =~= all.take(i as int));
                assert(all.take(i + 1).last() == all[i as int]);
            }
            let archived = match fields.3 {
                Some(flag) => flag,
                None => false,
            };
            if !archived {
                match GitLabScanner::repository_to_project(fields, username, home, now) {
                    Ok(project) => {
                        list.add_project(project);
                    },
                    Err(_) => {},
                }
            }
            i = i + 1;
        }
        assert(all.take(n as int) =~= all);
        list
    }

    /// The projects that the client's answer lists. A blank answer lists
    /// none; an answer that is no JSON list is an error.
    pub fn projects_from_output(stdout: &str, username: &str, home: Option<&str>, now: Timestamp) -> (r:
        Result<ProjectList, ScanError>)
        ensures
            match r {
                Ok(list) => projects_of_output(stdout@, username@, opt_str(home), now) == Some(
                    list@,
                ),
                Err(_) => projects_of_output(stdout@, username@, opt_str(home), now) is None,
            },
    {
        if is_blank(stdout) {
            return Ok(ProjectList::new());
        }
        match json_listing(stdout) {
            Ok(listing) => Ok(GitLabScanner::projects_from_listing(listing, username, home, now)),
            Err(e) => {
                let mut message = String::from_str("Failed to parse glab JSON output: ");
                message.append(json_error_text(&e).as_str());
                Err(ScanError { message })
            },
        }
    }

    /// What the scan reports for what it found out: an empty list where the
    /// source is not set up or cannot connect; an error where the client
    /// could not be run or ended without success; else the projects that its
    /// answer lists.
    pub fn scan(fetch: GitLabFetch, home: Option<&str>, now: Timestamp) -> (r: Result<
        ProjectList,
        ScanError,
    >)
        ensures
            match fetch {
                GitLabFetch::NotConfigured | GitLabFetch::CannotConnect => r matches Ok(list)
                    && list@ == Seq::<ProjectView>::empty(),
                GitLabFetch::Unavailable(m) => r matches Err(e) && e.message@ == m@,
                GitLabFetch::CommandFailed(stderr) => r matches Err(e) && e.message@
                    == "glab command failed: "@ + stderr@,
                GitLabFetch::Output { username, stdout } => match r {
                    Ok(list) => projects_of_output(stdout@, username@, opt_str(home), now) == Some(
                        list@,
                    ),
                    Err(_) => projects_of_output(stdout@, username@, opt_str(home), now) is None,
                },
            },
    {
        match fetch {
            GitLabFetch::NotConfigured => Ok(ProjectList::new()),
            GitLabFetch::CannotConnect => Ok(ProjectList::new()),
            GitLabFetch::Unavailable(message) => Err(ScanError { message }),
            GitLabFetch::CommandFailed(stderr) => {
                let mut message = String::from_str("glab command failed: ");
                message.append(stderr.as_str());
                Err(ScanError { message })
            },
            GitLabFetch::Output { username, stdout } => GitLabScanner::projects_from_output(
                stdout.as_str(),
                username.as_str(),
                home,
                now,
            ),
        }
    }
}

impl GitLabScanner {
    /// The account whose repositories are to be listed, given whether the
    /// client is installed: the account of the settings. Without an account
    /// the source is not set up, whatever is installed; with one and without
    /// the client, there is no connection.
    pub fn account_given(config: &crate::config::Config, installed: bool) -> (r: Result<
        String,
        GitLabFetch,
    >)
        ensures
            match config@.gitlab_username {
                None => r matches Err(GitLabFetch::NotConfigured),
                Some(name) => if installed {
                    r matches Ok(account) && account@ == name
                } else {
                    r matches Err(GitLabFetch::CannotConnect)
                },
            },
    {
        match &config.gitlab_username {
            None => Err(GitLabFetch::NotConfigured),
            Some(name) => if installed {
                Ok(name.clone())
            } else {
                Err(GitLabFetch::CannotConnect)
            },
        }
    }

    /// The account whose repositories are to be listed on this machine.
    /// Without an account in the settings the source is not set up, and the
    /// machine is not asked; with one, the machine says whether the client
    /// is installed.
    pub fn account_to_fetch(config: &crate::config::Config) -> (r: Result<String, GitLabFetch>)
        ensures
            match config@.gitlab_username {
                None => r matches Err(GitLabFetch::NotConfigured),
                Some(name) => match r {
                    Ok(account) => account@ == name,
                    Err(found) => found is CannotConnect,
                },
            },
    {
        match &config.gitlab_username {
            None => Err(GitLabFetch::NotConfigured),
            Some(_) => GitLabScanner::account_given(config, is_glab_installed()),
        }
    }

    /// What the probe of the server means for the scan of `account`: the
    /// scan goes on where the client reached its server, else there is no
    /// connection.
    pub fn after_probe(account: String, accessible: bool) -> (r: Result<String, GitLabFetch>)
        ensures
            if accessible {
                r matches Ok(name) && name@ == account@
            } else {
                r matches Err(GitLabFetch::CannotConnect)
            },
    {
        if GitLabScanner::can_connect(true, accessible) {
            Ok(account)
        } else {
            Err(GitLabFetch::CannotConnect)
        }
    }
}

} // verus!
