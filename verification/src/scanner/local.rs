//! The version-controlled directories below the configured roots, as
//! projects.

use vstd::prelude::*;
use crate::models::{by_recency, in_recency_order, views, Project, ProjectList, ProjectSource, ProjectView};
use crate::paths::{is_hidden_directory, is_hidden_path, project_name, project_name_of};
use crate::timestamp::Timestamp;

verus! {

/// The source that walks the configured directories.
#[derive(Debug, Clone, Copy)]
pub struct LocalScanner;

/// How many levels below a root the walk goes.
pub const MAX_DEPTH: usize = 3;

/// What was found at a directory that may be a project.
#[derive(Debug, Clone, Copy, PartialEq, Eq, Structural)]
pub struct DirectoryProbe {
    /// The directory holds version-control metadata.
    pub has_git: bool,
    /// The time of the last commit, in seconds since the epoch, if the
    /// repository has one.
    pub commit_secs: Option<i64>,
    /// The time at which the directory was last modified, if it can be read.
    pub modified_secs: Option<u64>,
}

/// The time of a project: that of its last commit, else that of the last
/// change to its directory, else none.
pub open spec fn project_time(commit_secs: Option<i64>, modified_secs: Option<u64>) -> Option<
    Timestamp,
> {
    match commit_secs {
        Some(secs) => Some(Timestamp { secs, nanos: 0 }),
        None => Timestamp::of_file_time(modified_secs),
    }
}

/// True when an entry of the walk may be a project: a directory that is not
/// hidden.
pub open spec fn may_be_project(path: Seq<char>, is_dir: bool) -> bool {
    is_dir && !is_hidden_path(path)
}

/// The project at a directory: none where the directory is not under
/// version control.
pub open spec fn project_at(path: Seq<char>, probe: DirectoryProbe) -> Option<ProjectView> {
    if probe.has_git {
        Some(
            ProjectView {
                name: project_name_of(path),
                path,
                last_modified: project_time(probe.commit_secs, probe.modified_secs),
                source: ProjectSource::Local,
                github_url: None,
                gitlab_url: None,
            },
        )
    } else {
        None
    }
}

/// The projects of all roots, root after root.
pub open spec fn flattened(s: Seq<Vec<Project>>) -> Seq<ProjectView>
    decreases s.len(),
{
    if s.len() == 0 {
        Seq::empty()
    } else {
        flattened(s.drop_last()) + views(s.last()@)
    }
}

/// Tells whether a directory is a project: it is one exactly when it holds
/// version-control metadata.
pub fn is_project_directory(probe: &DirectoryProbe) -> (r: bool)
    ensures
        r == probe.has_git,
{
    probe.has_git
}

/// Tells whether an entry of the walk is worth a closer look.
pub fn is_candidate(path: &str, is_dir: bool) -> (r: bool)
    ensures
        r == may_be_project(path@, is_dir),
{
    is_dir && !is_hidden_directory(path)
}

/// The time of a project, from the time of its last commit and that of its
/// directory.
pub fn get_project_timestamp(commit_secs: Option<i64>, modified_secs: Option<u64>) -> (r: Option<
    Timestamp,
>)
    ensures
        r == project_time(commit_secs, modified_secs),
{
    match commit_secs {
        Some(secs) => Some(Timestamp::from_secs(secs)),
        None => Timestamp::from_file_time(modified_secs),
    }
}

/// The project at the directory `path`, given what was found there.
pub fn project_from_directory(path: &str, probe: &DirectoryProbe) -> (r: Option<Project>)
    ensures
        match r {
            Some(p) => project_at(path@, *probe) == Some(p@),
            None => project_at(path@, *probe) is None,
        },
{
    if !is_project_directory(probe) {
        return None;
    }
    let mut project = Project::new_local(project_name(path), path);
    if let Some(timestamp) = get_project_timestamp(probe.commit_secs, probe.modified_secs) {
        project = project.with_last_modified(timestamp);
    }
    Some(project)
}

impl LocalScanner {
    /// The short name of the source.
    pub fn scanner_name(&self) -> (r: &'static str)
        ensures
            r@ == "local"@,
    {
        "local"
    }

    /// The list that the source reports: the projects found below each root,
    /// root after root, put in the order by recency.
    pub fn scan(found: Vec<Vec<Project>>) -> (r: ProjectList)
        ensures
            r@ == by_recency(flattened(found@)),
            in_recency_order(r@),
    {
        let mut list = ProjectList::new();
        let ghost all = found@;
        let n = found.len();
        let mut i: usize = 0;
        assert(all.take(0) =~= Seq::<Vec<Project>>::empty());
        for projects in it: found
            invariant
                n == it.seq().len(),
                i == it.index(),
                i <= n,
                all == it.seq(),
                list@ == flattened(all.take(i as int)),
        {
            proof {
                assert(all.take(i + 1).drop_last() =~= all.take(i as int));
                assert(all.take(i + 1).last() == projects);
            }
            let part = ProjectList::from_projects(projects);
            list.extend_from(&part);
            i = i + 1;
        }
        assert(all.take(n as int) =~= all);
        list.sort_by_last_modified();
        list
    }
}

} // verus!
