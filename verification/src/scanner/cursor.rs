//! The workspaces that the Cursor editor remembers, as projects.

use vstd::prelude::*;
use vstd::string::StringExecFns;
use crate::config::home_directory;
use crate::scanner::ScanError;
use crate::models::{by_recency, in_recency_order, views, Project, ProjectList, ProjectSource, ProjectView};
use crate::paths::{join_path, joined, project_name, project_name_of};
use crate::text::opt_text;
use crate::timestamp::Timestamp;

verus! {

/// The source that lists the workspaces of the Cursor editor.
#[derive(Debug, Clone, Copy)]
pub struct CursorScanner;

/// The kind of system that the switcher runs on.
#[derive(Debug, Clone, Copy, PartialEq, Eq, Structural)]
pub enum Platform {
    MacOs,
    Linux,
    Windows,
}

/// A workspace that the editor remembers.
#[derive(Debug)]
pub struct WorkspaceInfo {
    /// The directory that the workspace points to.
    pub path: String,
    /// The name of that directory.
    pub name: String,
    /// When the editor last wrote the workspace's metadata.
    pub last_modified: Option<Timestamp>,
}

/// A workspace, with its texts as sequences of characters.
pub struct WorkspaceView {
    pub path: Seq<char>,
    pub name: Seq<char>,
    pub last_modified: Option<Timestamp>,
}

impl View for WorkspaceInfo {
    type V = WorkspaceView;

    open spec fn view(&self) -> WorkspaceView {
        WorkspaceView { path: self.path@, name: self.name@, last_modified: self.last_modified }
    }
}

/// Where the editor keeps its workspaces, below the home directory.
pub open spec fn storage_below_home(platform: Platform) -> Seq<char> {
    match platform {
        Platform::MacOs => "Library/Application Support/Cursor/User/workspaceStorage"@,
        Platform::Linux => ".config/Cursor/User/workspaceStorage"@,
        Platform::Windows => "AppData/Roaming/Cursor/User/workspaceStorage"@,
    }
}

/// The workspace that a metadata file describes: none where the file names
/// no path; else the workspace at that path, named by its last part, with
/// the file's time.
pub open spec fn workspace_of(config_path: Option<Seq<char>>, modified_secs: Option<u64>) -> Option<
    WorkspaceView,
> {
    match config_path {
        Some(path) => Some(
            WorkspaceView {
                path,
                name: project_name_of(path),
                last_modified: Timestamp::of_file_time(modified_secs),
            },
        ),
        None => None,
    }
}

/// The project of a workspace: none where its directory is gone.
pub open spec fn project_of_workspace(w: WorkspaceView, path_exists: bool) -> Option<ProjectView> {
    if path_exists {
        Some(
            ProjectView {
                name: w.name,
                path: w.path,
                last_modified: w.last_modified,
                source: ProjectSource::Cursor,
                github_url: None,
                gitlab_url: None,
            },
        )
    } else {
        None
    }
}

/// Where the editor keeps its workspaces, below the home directory of the
/// user. An error where the user has none.
pub fn get_cursor_storage_path(platform: Platform) -> (r: Result<String, ScanError>)
    ensures
        exists|home: Option<Seq<char>>|
            crate::scanner::path_outcome(r) == storage_path_at(home, platform),
{
    let home = home_directory();
    let found = storage_path_for(&home, platform);
    assert(crate::scanner::path_outcome(found) == storage_path_at(
        crate::text::opt_text(home),
        platform,
    ));
    found
}

/// Where the editor keeps its workspaces, given what the machine said of the
/// home directory of the user: below that directory, or nowhere where the
/// user has none, which is a failure.
pub open spec fn storage_path_at(home: Option<Seq<char>>, platform: Platform) -> Result<
    Seq<char>,
    Seq<char>,
> {
    match home {
        Some(h) => Ok(joined(h, storage_below_home(platform))),
        None => Err(crate::scanner::no_home_text()),
    }
}

/// Where the editor keeps its workspaces, given what the machine said of the
/// home directory of the user.
pub fn storage_path_for(home: &Option<String>, platform: Platform) -> (r: Result<String, ScanError>)
    ensures
        crate::scanner::path_outcome(r) == storage_path_at(crate::text::opt_text(*home), platform),
{
    match home {
        Some(h) => Ok(storage_path_below(h.as_str(), platform)),
        None => Err(ScanError { message: String::from_str("Failed to get home directory") }),
    }
}

/// Where the editor keeps its workspaces, below `home`.
pub fn storage_path_below(home: &str, platform: Platform) -> (r: String)
    ensures
        r@ == joined(home@, storage_below_home(platform)),
{
    match platform {
        Platform::MacOs => join_path(home, "Library/Application Support/Cursor/User/workspaceStorage"),
        Platform::Linux => join_path(home, ".config/Cursor/User/workspaceStorage"),
        Platform::Windows => join_path(home, "AppData/Roaming/Cursor/User/workspaceStorage"),
    }
}

/// The workspace that a metadata file describes, given the path that the
/// file names and the time at which it was written.
pub fn parse_workspace_directory(config_path: Option<String>, modified_secs: Option<u64>) -> (r:
    Option<WorkspaceInfo>)
    ensures
        match r {
            Some(w) => workspace_of(opt_text(config_path), modified_secs) == Some(w@),
            None => workspace_of(opt_text(config_path), modified_secs) is None,
        },
{
    match config_path {
        Some(path) => {
            let name = project_name(path.as_str());
            Some(WorkspaceInfo { path, name, last_modified: Timestamp::from_file_time(modified_secs) })
        },
        None => None,
    }
}

/// The project of a workspace, given whether its directory still exists. A
/// workspace whose directory is gone gives none, and that is no error.
pub fn workspace_to_project(workspace: WorkspaceInfo, path_exists: bool) -> (r: Option<Project>)
    ensures
        match r {
            Some(p) => project_of_workspace(workspace@, path_exists) == Some(p@),
            None => project_of_workspace(workspace@, path_exists) is None,
        },
{
    if !path_exists {
        return None;
    }
    let mut project = Project::new_cursor(workspace.name, workspace.path.as_str());
    if let Some(timestamp) = workspace.last_modified {
        project = project.with_last_modified(timestamp);
    }
    Some(project)
}

impl CursorScanner {
    /// The short name of the source.
    pub fn scanner_name(&self) -> (r: &'static str)
        ensures
            r@ == "cursor"@,
    {
        "cursor"
    }

    /// The list that the source reports: the projects of its workspaces, in
    /// the order by recency.
    pub fn scan(projects: Vec<Project>) -> (r: ProjectList)
        ensures
            r@ == by_recency(views(projects@)),
            in_recency_order(r@),
    {
        let mut list = ProjectList::from_projects(projects);
        list.sort_by_last_modified();
        list
    }
}

} // verus!
