//! Projects and the list of them: construction, the display line, the
//! removal of remote entries that a local checkout already covers, and the
//! order by recency.

use vstd::hash_set::StringHashSet;
use vstd::prelude::*;
use vstd::std_specs::cmp::PartialEqSpecImpl;
use vstd::string::StringExecFns;
use crate::order::{
    is_strict_weak, lemma_slot_found, lemma_sorted_contains, lemma_sorted_of_ordered,
    lemma_sorted_ordered, lemma_sorted_permutes, one_way, ordered, sorted, splits,
};
use crate::text::{
    clone_opt_text, lemma_lex_less_asymmetric, lemma_lex_less_splits, lemma_lex_less_total,
    opt_text, same_opt_text, str_less, text_less,
};
use crate::timestamp::Timestamp;

verus! {

/// Where a project was discovered.
#[derive(Debug, Clone, Copy, PartialEq, Eq, Structural)]
pub enum ProjectSource {
    /// Found in a local directory tree.
    Local,
    /// Found in the editor's workspace storage.
    Cursor,
    /// Found among the user's GitHub repositories.
    GitHub,
    /// Found among the user's GitLab repositories.
    GitLab,
}

impl ProjectSource {
    /// True for the sources that list the repositories of a hosting service.
    pub open spec fn is_remote(self) -> bool {
        self == ProjectSource::GitHub || self == ProjectSource::GitLab
    }

    /// Tells whether the source is a hosting service.
    pub fn remote(&self) -> (r: bool)
        ensures
            r == self.is_remote(),
    {
        match self {
            ProjectSource::GitHub => true,
            ProjectSource::GitLab => true,
            _ => false,
        }
    }

    /// The sign that stands for the source in a display line.
    pub open spec fn icon_text(self) -> Seq<char> {
        match self {
            ProjectSource::Local => "📁"@,
            ProjectSource::Cursor => "🎯"@,
            ProjectSource::GitHub => "🐙"@,
            ProjectSource::GitLab => "🦊"@,
        }
    }

    /// The sign that stands for the source in a display line.
    pub fn icon(&self) -> (r: &'static str)
        ensures
            r@ == self.icon_text(),
    {
        match self {
            ProjectSource::Local => "📁",
            ProjectSource::Cursor => "🎯",
            ProjectSource::GitHub => "🐙",
            ProjectSource::GitLab => "🦊",
        }
    }
}

/// A discovered project.
#[derive(Debug)]
pub struct Project {
    /// The project's name, usually that of its directory.
    pub name: String,
    /// Where the project lives, or will live once cloned.
    pub path: String,
    /// When the project was last modified, if known.
    pub last_modified: Option<Timestamp>,
    /// The source that reported the project.
    pub source: ProjectSource,
    /// The repository's address, for a project found on GitHub.
    pub github_url: Option<String>,
    /// The repository's address, for a project found on GitLab.
    pub gitlab_url: Option<String>,
}

/// What a project is, with its texts as sequences of characters.
pub struct ProjectView {
    pub name: Seq<char>,
    pub path: Seq<char>,
    pub last_modified: Option<Timestamp>,
    pub source: ProjectSource,
    pub github_url: Option<Seq<char>>,
    pub gitlab_url: Option<Seq<char>>,
}

impl View for Project {
    type V = ProjectView;

    open spec fn view(&self) -> ProjectView {
        ProjectView {
            name: self.name@,
            path: self.path@,
            last_modified: self.last_modified,
            source: self.source,
            github_url: opt_text(self.github_url),
            gitlab_url: opt_text(self.gitlab_url),
        }
    }
}

impl Clone for Project {
    fn clone(&self) -> (r: Self)
        ensures
            r@ == self@,
    {
        Project {
            name: self.name.clone(),
            path: self.path.clone(),
            last_modified: self.last_modified,
            source: self.source,
            github_url: clone_opt_text(&self.github_url),
            gitlab_url: clone_opt_text(&self.gitlab_url),
        }
    }
}

impl PartialEq for Project {
    fn eq(&self, other: &Self) -> (r: bool) {
        self.name == other.name && self.path == other.path && self.last_modified
            == other.last_modified && self.source == other.source && same_opt_text(
            &self.github_url,
            &other.github_url,
        ) && same_opt_text(&self.gitlab_url, &other.gitlab_url)
    }
}

impl PartialEqSpecImpl for Project {
    open spec fn obeys_eq_spec() -> bool {
        true
    }

    open spec fn eq_spec(&self, other: &Self) -> bool {
        self@ == other@
    }
}

impl Eq for Project {

}

/// The time part of a display line: the minute in brackets behind a blank,
/// or nothing where the project has no time or the calendar no date for it.
pub open spec fn time_text(t: Option<Timestamp>) -> Seq<char> {
    match t {
        Some(ts) => match ts.minute_view() {
            Some(m) => " ("@ + m + ")"@,
            None => Seq::empty(),
        },
        None => Seq::empty(),
    }
}

/// The short line that stands for a project: sign, name, and time.
pub open spec fn label_text(p: ProjectView) -> Seq<char> {
    p.source.icon_text() + " "@ + p.name + time_text(p.last_modified)
}

/// The line that shows a project: sign, name, time, and path.
pub open spec fn display_text(p: ProjectView) -> Seq<char> {
    label_text(p) + " - "@ + p.path
}

impl Project {
    /// The project with the given fields.
    pub open spec fn make(
        name: Seq<char>,
        path: Seq<char>,
        source: ProjectSource,
        github_url: Option<Seq<char>>,
        gitlab_url: Option<Seq<char>>,
    ) -> ProjectView {
        ProjectView { name, path, last_modified: None, source, github_url, gitlab_url }
    }

    /// A project found in a local directory tree.
    pub fn new_local(name: String, path: &str) -> (r: Project)
        ensures
            r@ == Project::make(name@, path@, ProjectSource::Local, None, None),
    {
        Project {
            name,
            path: String::from_str(path),
            last_modified: None,
            source: ProjectSource::Local,
            github_url: None,
            gitlab_url: None,
        }
    }

    /// A project found in the editor's workspace storage.
    pub fn new_cursor(name: String, path: &str) -> (r: Project)
        ensures
            r@ == Project::make(name@, path@, ProjectSource::Cursor, None, None),
    {
        Project {
            name,
            path: String::from_str(path),
            last_modified: None,
            source: ProjectSource::Cursor,
            github_url: None,
            gitlab_url: None,
        }
    }

    /// A project found among the user's GitHub repositories.
    pub fn new_github(name: String, path: &str, github_url: String) -> (r: Project)
        ensures
            r@ == Project::make(name@, path@, ProjectSource::GitHub, Some(github_url@), None),
    {
        Project {
            name,
            path: String::from_str(path),
            last_modified: None,
            source: ProjectSource::GitHub,
            github_url: Some(github_url),
            gitlab_url: None,
        }
    }

    /// A project found among the user's GitLab repositories.
    pub fn new_gitlab(name: String, path: &str, gitlab_url: String) -> (r: Project)
        ensures
            r@ == Project::make(name@, path@, ProjectSource::GitLab, None, Some(gitlab_url@)),
    {
        Project {
            name,
            path: String::from_str(path),
            last_modified: None,
            source: ProjectSource::GitLab,
            github_url: None,
            gitlab_url: Some(gitlab_url),
        }
    }

    /// The same project with its time of last modification set.
    pub fn with_last_modified(self, timestamp: Timestamp) -> (r: Project)
        ensures
            r@ == (ProjectView { last_modified: Some(timestamp), ..self@ }),
    {
        let mut p = self;
        p.last_modified = Some(timestamp);
        p
    }

    /// The repository address that a clone of the project is made from: the
    /// one that belongs to its source.
    pub open spec fn origin_of(p: ProjectView) -> Option<Seq<char>> {
        match p.source {
            ProjectSource::GitHub => p.github_url,
            ProjectSource::GitLab => p.gitlab_url,
            _ => None,
        }
    }

    /// The repository address to clone the project from, if its source is a
    /// hosting service and gave one.
    pub fn origin_url(&self) -> (r: Option<String>)
        ensures
            opt_text(r) == Project::origin_of(self@),
    {
        match self.source {
            ProjectSource::GitHub => clone_opt_text(&self.github_url),
            ProjectSource::GitLab => clone_opt_text(&self.gitlab_url),
            _ => None,
        }
    }

    /// The short line that stands for the project: the sign of its source,
    /// its name, and the minute of its last modification if known.
    pub fn label(&self) -> (r: String)
        ensures
            r@ == label_text(self@),
    {
        let mut line = String::from_str(self.source.icon());
        line.append(" ");
        line.append(self.name.as_str());
        let ghost head = line@;
        match self.last_modified {
            Some(ts) => {
                match ts.format_minute() {
                    Some(m) => {
                        line.append(" (");
                        line.append(m.as_str());
                        line.append(")");
                        assert(line@ =~= head + (" ("@ + m@ + ")"@));
                    },
                    None => {
                        assert(line@ =~= head + Seq::<char>::empty());
                    },
                }
            },
            None => {
                assert(line@ =~= head + Seq::<char>::empty());
            },
        }
        line
    }

    /// The line that shows the project in a list: its label, then its path.
    pub fn display_string(&self) -> (r: String)
        ensures
            r@ == display_text(self@),
    {
        let mut line = self.label();
        line.append(" - ");
        line.append(self.path.as_str());
        line
    }
}

/// The view of an optional project.
pub open spec fn opt_project(o: Option<Project>) -> Option<ProjectView> {
    match o {
        Some(p) => Some(p@),
        None => None,
    }
}

/// The views of a sequence of projects, in the same order.
pub open spec fn views(s: Seq<Project>) -> Seq<ProjectView> {
    s.map_values(|p: Project| p@)
}

/// True when `a` has to stand before `b` in the order by recency: a later
/// time comes first, a time comes before none, and two projects without a
/// time go by name.
pub open spec fn precedes(a: ProjectView, b: ProjectView) -> bool {
    match (a.last_modified, b.last_modified) {
        (Some(ta), Some(tb)) => ta.later_than(tb),
        (Some(_), None) => true,
        (None, Some(_)) => false,
        (None, None) => text_less(a.name, b.name),
    }
}

/// The order by recency as a relation: which of two projects has to stand
/// first.
pub open spec fn recency() -> spec_fn(ProjectView, ProjectView) -> bool {
    |a: ProjectView, b: ProjectView| precedes(a, b)
}

/// True when no project of `s` stands behind one that it has to precede.
pub open spec fn in_recency_order(s: Seq<ProjectView>) -> bool {
    ordered(s, recency())
}

/// The projects of `s` in the order by recency, those that tie in the order
/// in which `s` has them.
pub open spec fn by_recency(s: Seq<ProjectView>) -> Seq<ProjectView> {
    sorted(s, recency())
}

/// True when a local project of `s` lives at `path`.
pub open spec fn claimed_locally(s: Seq<ProjectView>, path: Seq<char>) -> bool {
    exists|i: int| 0 <= i < s.len() && (#[trigger] s[i]).source == ProjectSource::Local && s[i].path == path
}

/// True when `p` stays in `s`: all but a remote project whose path a local
/// project of `s` has.
pub open spec fn survives(s: Seq<ProjectView>, p: ProjectView) -> bool {
    !(p.source.is_remote() && claimed_locally(s, p.path))
}

/// The test that a project passes when it stays in `s`.
pub open spec fn survivor_of(s: Seq<ProjectView>) -> spec_fn(ProjectView) -> bool {
    |p: ProjectView| survives(s, p)
}

/// The test that a project passes when `source` reported it.
pub open spec fn reported_by(source: ProjectSource) -> spec_fn(ProjectView) -> bool {
    |p: ProjectView| p.source == source
}

/// The projects of `s` that stay, in their order.
pub open spec fn deduplicated(s: Seq<ProjectView>) -> Seq<ProjectView> {
    s.filter(survivor_of(s))
}

/// The projects of `s` that `source` reported, in their order.
pub open spec fn from_source(s: Seq<ProjectView>, source: ProjectSource) -> Seq<ProjectView> {
    s.filter(reported_by(source))
}

/// Of two projects at most one has to precede the other.
pub proof fn lemma_precedes_asymmetric(a: ProjectView, b: ProjectView)
    requires
        precedes(a, b),
    ensures
        !precedes(b, a),
{
    if a.last_modified is None && b.last_modified is None {
        lemma_lex_less_asymmetric(
            vstd::utf8::encode_utf8(a.name),
            vstd::utf8::encode_utf8(b.name),
        );
    }
}

/// Where `a` has to precede `c`, any `b` is preceded by `a` or precedes `c`.
pub proof fn lemma_precedes_splits(a: ProjectView, b: ProjectView, c: ProjectView)
    requires
        precedes(a, c),
    ensures
        precedes(a, b) || precedes(b, c),
{
    if a.last_modified is None && c.last_modified is None && b.last_modified is None {
        lemma_lex_less_splits(
            vstd::utf8::encode_utf8(a.name),
            vstd::utf8::encode_utf8(b.name),
            vstd::utf8::encode_utf8(c.name),
        );
    }
}

/// Where `a` has to precede `b` and `b` has to precede `c`, `a` has to
/// precede `c`.
pub proof fn lemma_precedes_transitive(a: ProjectView, b: ProjectView, c: ProjectView)
    requires
        precedes(a, b),
        precedes(b, c),
    ensures
        precedes(a, c),
{
    lemma_precedes_splits(a, c, b);
    if precedes(c, b) {
        lemma_precedes_asymmetric(b, c);
    }
}

/// Two projects neither of which has to precede the other tie: both have a
/// time and the times are the same, or neither has one and the names are the
/// same in bytes.
pub proof fn lemma_precedes_total(a: ProjectView, b: ProjectView)
    requires
        !precedes(a, b),
        !precedes(b, a),
    ensures
        a.last_modified == b.last_modified,
        a.last_modified is None ==> vstd::utf8::encode_utf8(a.name) == vstd::utf8::encode_utf8(
            b.name,
        ),
{
    if a.last_modified is None && b.last_modified is None {
        lemma_lex_less_total(vstd::utf8::encode_utf8(a.name), vstd::utf8::encode_utf8(b.name));
    }
}

/// The order by recency is the strict part of an order with ties.
pub proof fn lemma_recency_strict_weak()
    ensures
        is_strict_weak(recency()),
{
    assert forall|a: ProjectView, b: ProjectView| #[trigger] one_way(recency(), a, b) by {
        if precedes(a, b) {
            lemma_precedes_asymmetric(a, b);
        }
    }
    assert forall|a: ProjectView, b: ProjectView, c: ProjectView| #[trigger]
        splits(recency(), a, b, c) by {
        if precedes(a, c) {
            lemma_precedes_splits(a, b, c);
        }
    }
}

/// The order by recency puts every sequence in order.
pub proof fn lemma_by_recency_ordered(s: Seq<ProjectView>)
    ensures
        in_recency_order(by_recency(s)),
        by_recency(s).len() == s.len(),
{
    lemma_recency_strict_weak();
    lemma_sorted_ordered(s, recency());
}

/// The order by recency keeps every project, as often as it was there.
pub proof fn lemma_by_recency_permutes(s: Seq<ProjectView>)
    ensures
        by_recency(s).to_multiset() == s.to_multiset(),
{
    lemma_sorted_permutes(s, recency());
}

/// An ordered sequence is its own order by recency.
pub proof fn lemma_by_recency_of_ordered(s: Seq<ProjectView>)
    requires
        in_recency_order(s),
    ensures
        by_recency(s) == s,
{
    lemma_sorted_of_ordered(s, recency());
}

/// Tells whether `a` has to stand before `b` in the order by recency.
pub fn comes_before(a: &Project, b: &Project) -> (r: bool)
    ensures
        r == precedes(a@, b@),
{
    match (a.last_modified, b.last_modified) {
        (Some(ta), Some(tb)) => ta.is_later_than(&tb),
        (Some(_), None) => true,
        (None, Some(_)) => false,
        (None, None) => str_less(a.name.as_str(), b.name.as_str()),
    }
}

/// The views of a sequence of borrowed projects, in the same order.
pub open spec fn views_of_refs(s: Seq<&Project>) -> Seq<ProjectView> {
    s.map_values(|p: &Project| p@)
}

/// An ordered collection of projects. The same project may occur more than
/// once until `deduplicate` is called.
#[derive(Debug)]
pub struct ProjectList {
    projects: Vec<Project>,
}

impl View for ProjectList {
    type V = Seq<ProjectView>;

    closed spec fn view(&self) -> Seq<ProjectView> {
        views(self.projects@)
    }
}

impl Clone for ProjectList {
    fn clone(&self) -> (r: Self)
        ensures
            r@ == self@,
    {
        let mut copy: Vec<Project> = Vec::new();
        let mut i: usize = 0;
        while i < self.projects.len()
            invariant
                i <= self.projects.len(),
                views(copy@) == views(self.projects@).take(i as int),
            decreases self.projects.len() - i,
        {
            let ghost prev = copy@;
            let c = self.projects[i].clone();
            copy.push(c);
            assert(views(copy@) =~= views(prev).push(c@));
            assert(views(self.projects@).take(i + 1) =~= views(self.projects@).take(i as int).push(
                self.projects@[i as int]@,
            ));
            i = i + 1;
        }
        assert(views(self.projects@).take(i as int) =~= views(self.projects@));
        ProjectList { projects: copy }
    }
}

impl Default for ProjectList {
    fn default() -> (r: Self)
        ensures
            r@ == Seq::<ProjectView>::empty(),
    {
        ProjectList::new()
    }
}

impl ProjectList {
    /// The empty list.
    pub fn new() -> (r: ProjectList)
        ensures
            r@ == Seq::<ProjectView>::empty(),
    {
        let list = ProjectList { projects: Vec::new() };
        assert(list@ =~= Seq::<ProjectView>::empty());
        list
    }

    /// The list that holds `projects`, in their order.
    pub fn from_projects(projects: Vec<Project>) -> (r: ProjectList)
        ensures
            r@ == views(projects@),
    {
        ProjectList { projects }
    }

    /// Puts `project` at the end of the list.
    pub fn add_project(&mut self, project: Project)
        ensures
            final(self)@ == old(self)@.push(project@),
    {
        self.projects.push(project);
        assert(self@ =~= old(self)@.push(project@));
    }

    /// Puts copies of the projects of `other` at the end of the list, in
    /// their order.
    pub fn extend_from(&mut self, other: &ProjectList)
        ensures
            final(self)@ == old(self)@ + other@,
    {
        let mut i: usize = 0;
        assert(self@ =~= old(self)@ + other@.take(0));
        while i < other.projects.len()
            invariant
                i <= other.projects.len(),
                self@ == old(self)@ + other@.take(i as int),
            decreases other.projects.len() - i,
        {
            let ghost prev = self@;
            let p = other.projects[i].clone();
            self.projects.push(p);
            proof {
                assert(self@ =~= prev.push(p@));
                assert(other@.take(i + 1) =~= other@.take(i as int).push(other@[i as int]));
                assert(self@ =~= old(self)@ + other@.take(i + 1));
            }
            i = i + 1;
        }
        assert(other@.take(i as int) =~= other@);
    }

    /// The projects of the list, in their order.
    pub fn projects(&self) -> (r: &[Project])
        ensures
            views(r@) == self@,
    {
        self.projects.as_slice()
    }

    /// The number of projects in the list.
    pub fn len(&self) -> (r: usize)
        ensures
            r == self@.len(),
    {
        self.projects.len()
    }

    /// Tells whether the list holds no project.
    pub fn is_empty(&self) -> (r: bool)
        ensures
            r == (self@.len() == 0),
    {
        self.projects.len() == 0
    }

    /// Puts the list in the order by recency: the project modified last comes
    /// first, the projects without a time come last, by name, and projects
    /// that tie keep the order they had.
    pub fn sort_by_last_modified(&mut self)
        ensures
            final(self)@ == by_recency(old(self)@),
            in_recency_order(final(self)@),
            final(self)@.to_multiset() == old(self)@.to_multiset(),
    {
        let ghost before = self@;
        let n = self.projects.len();
        let mut i: usize = 0;
        assert(self@.take(0) =~= by_recency(before.take(0)));
        assert(self@.skip(0) =~= before.skip(0));
        while i < n
            invariant
                n == self.projects.len(),
                n == before.len(),
                i <= n,
                self@.take(i as int) == by_recency(before.take(i as int)),
                self@.skip(i as int) == before.skip(i as int),
            decreases n - i,
        {
            let ghost head = self@.take(i as int);
            let ghost whole = self@;
            assert(whole[i as int] == before.skip(i as int)[0]);
            let p = self.projects.remove(i);
            assert(self@ =~= whole.remove(i as int));
            let mut j: usize = i;
            while j > 0 && comes_before(&p, &self.projects[j - 1])
                invariant
                    j <= i,
                    i < n,
                    self.projects.len() == n - 1,
                    self@ == whole.remove(i as int),
                    head == whole.take(i as int),
                    whole.len() == n,
                    forall|k: int| j <= k < i ==> precedes(p@, #[trigger] head[k]),
                decreases j,
            {
                assert(self@[j - 1] == head[j - 1]);
                j = j - 1;
            }
            proof {
                if j > 0 {
                    assert(self@[j - 1] == head[j - 1]);
                }
                lemma_slot_found(head, p@, recency(), j as int);
            }
            self.projects.insert(j, p);
            proof {
                let now = self@;
                assert(now =~= whole.remove(i as int).insert(j as int, p@));
                let grown = before.take(i + 1);
                assert(grown.drop_last() =~= before.take(i as int));
                assert(grown.last() == p@);
                assert(now.take(i + 1) =~= head.insert(j as int, p@));
                let tail = now.skip(i + 1);
                let goal = before.skip(i + 1);
                assert forall|k: int| 0 <= k < n - i - 1 implies #[trigger] tail[k] == goal[k] by {
                    assert(now[k + i + 1] == whole[k + i + 1]);
                    assert(whole[k + i + 1] == whole.skip(i as int)[k + 1]);
                    assert(before[k + i + 1] == before.skip(i as int)[k + 1]);
                }
                assert(now.skip(i + 1) =~= before.skip(i + 1));
            }
            i = i + 1;
        }
        proof {
            assert(self@.take(n as int) =~= self@);
            assert(before.take(n as int) =~= before);
            lemma_by_recency_ordered(before);
            lemma_by_recency_permutes(before);
        }
    }

    /// The projects that `source` reported, in the order of the list.
    pub fn filter_by_source(&self, source: ProjectSource) -> (r: Vec<&Project>)
        ensures
            views_of_refs(r@) == from_source(self@, source),
    {
        let mut found: Vec<&Project> = Vec::new();
        let ghost keep = reported_by(source);
        let mut i: usize = 0;
        assert(self@.take(0) =~= Seq::<ProjectView>::empty());
        assert(Seq::<ProjectView>::empty().filter(keep) =~= Seq::<ProjectView>::empty()) by {
            Seq::<ProjectView>::empty().lemma_filter_len(keep);
        }
        assert(views_of_refs(found@) =~= Seq::<ProjectView>::empty());
        while i < self.projects.len()
            invariant
                i <= self.projects.len(),
                keep == reported_by(source),
                views_of_refs(found@) == self@.take(i as int).filter(keep),
            decreases self.projects.len() - i,
        {
            let ghost prior = views_of_refs(found@);
            proof {
                assert(self@.take(i + 1) =~= self@.take(i as int).push(self@[i as int]));
                self@.take(i as int).lemma_filter_push(self@[i as int], keep);
            }
            if self.projects[i].source == source {
                found.push(&self.projects[i]);
                assert(views_of_refs(found@) =~= prior.push(self@[i as int]));
            }
            i = i + 1;
        }
        assert(self@.take(i as int) =~= self@);
        found
    }

    /// The paths of the local projects of the list, as a set.
    fn local_paths(&self) -> (r: StringHashSet)
        ensures
            forall|path: Seq<char>| claimed_locally(self@, path) <==> r@.contains(path),
    {
        let mut paths = StringHashSet::new();
        let mut i: usize = 0;
        while i < self.projects.len()
            invariant
                i <= self.projects.len(),
                forall|path: Seq<char>|
                    claimed_locally(self@.take(i as int), path) <==> paths@.contains(path),
            decreases self.projects.len() - i,
        {
            let ghost seen = self@.take(i as int);
            let ghost grown = self@.take(i + 1);
            let ghost held = paths@;
            let ghost cur = self@[i as int];
            assert(grown =~= seen.push(cur));
            if self.projects[i].source == ProjectSource::Local {
                let _ = paths.insert(self.projects[i].path.clone());
            }
            proof {
                assert forall|path: Seq<char>|
                    claimed_locally(grown, path) <==> paths@.contains(path) by {
                    if claimed_locally(grown, path) {
                        let w = choose|w: int|
                            0 <= w < grown.len() && (#[trigger] grown[w]).source
                                == ProjectSource::Local && grown[w].path == path;
                        if w < i {
                            assert(seen[w] == grown[w]);
                            assert(claimed_locally(seen, path));
                        }
                    }
                    if paths@.contains(path) {
                        if held.contains(path) {
                            assert(claimed_locally(seen, path));
                            let w = choose|w: int|
                                0 <= w < seen.len() && (#[trigger] seen[w]).source
                                    == ProjectSource::Local && seen[w].path == path;
                            assert(grown[w] == seen[w]);
                        } else {
                            assert(grown[i as int] == cur);
                        }
                    }
                }
            }
            i = i + 1;
        }
        assert(self@.take(i as int) =~= self@);
        paths
    }

    /// Removes every remote project whose path a local project of the list
    /// has. The other projects stay, in their order.
    pub fn deduplicate(&mut self)
        ensures
            final(self)@ == deduplicated(old(self)@),
    {
        let ghost before = self@;
        let ghost keep = survivor_of(before);
        let locals = self.local_paths();
        let mut i: usize = self.projects.len();
        proof {
            assert(self@.take(i as int) =~= before.take(i as int));
            assert(before.skip(i as int) =~= Seq::<ProjectView>::empty());
            before.skip(i as int).lemma_filter_len(keep);
            assert(self@.skip(i as int) =~= before.skip(i as int).filter(keep));
        }
        while i > 0
            invariant
                i <= self.projects.len(),
                i <= before.len(),
                keep == survivor_of(before),
                self@.take(i as int) == before.take(i as int),
                self@.skip(i as int) == before.skip(i as int).filter(keep),
                forall|path: Seq<char>| claimed_locally(before, path) <==> locals@.contains(path),
            decreases i,
        {
            i = i - 1;
            let ghost whole = self@;
            let ghost cur = before[i as int];
            proof {
                assert(whole[i as int] == whole.take(i + 1)[i as int]);
                assert(cur == before.take(i + 1)[i as int]);
                assert(before.skip(i as int) =~= seq![cur] + before.skip(i + 1));
                before.skip(i + 1).lemma_filter_prepend(cur, keep);
                assert(whole.take(i as int) =~= whole.take(i + 1).take(i as int));
                assert(before.take(i as int) =~= before.take(i + 1).take(i as int));
            }
            let doomed = self.projects[i].source.remote() && locals.contains(
                self.projects[i].path.as_str(),
            );
            if doomed {
                let _ = self.projects.remove(i);
                proof {
                    assert(self@ =~= whole.remove(i as int));
                    assert(self@.take(i as int) =~= whole.take(i as int));
                    assert(self@.skip(i as int) =~= whole.skip(i + 1));
                    assert(before.skip(i as int).filter(keep) =~= before.skip(i + 1).filter(keep));
                }
            } else {
                proof {
                    assert(whole.skip(i as int) =~= seq![cur] + whole.skip(i + 1));
                }
            }
        }
        proof {
            assert(self@.skip(0) =~= self@);
            assert(before.skip(0) =~= before);
        }
    }
}

/// What a merge makes of the reported projects: the duplicates are removed,
/// then the rest is put in the order by recency.
pub open spec fn merged(s: Seq<ProjectView>) -> Seq<ProjectView> {
    by_recency(deduplicated(s))
}

/// A filter whose test holds of every element changes nothing.
proof fn lemma_filter_all(s: Seq<ProjectView>, keep: spec_fn(ProjectView) -> bool)
    requires
        forall|i: int| 0 <= i < s.len() ==> keep(#[trigger] s[i]),
    ensures
        s.filter(keep) == s,
    decreases s.len(),
{
    if s.len() == 0 {
        s.lemma_filter_len(keep);
        assert(s.filter(keep) =~= s);
    } else {
        let t = s.drop_last();
        assert forall|i: int| 0 <= i < t.len() implies keep(#[trigger] t[i]) by {
            assert(t[i] == s[i]);
        }
        lemma_filter_all(t, keep);
        t.lemma_filter_push(s.last(), keep);
        assert(t.push(s.last()) =~= s);
    }
}

/// Two sequences with the same projects have the same paths claimed by
/// local projects.
proof fn lemma_claims_of_same_projects(a: Seq<ProjectView>, b: Seq<ProjectView>, path: Seq<char>)
    requires
        forall|p: ProjectView| a.contains(p) ==> b.contains(p),
        claimed_locally(a, path),
    ensures
        claimed_locally(b, path),
{
    let i = choose|i: int|
        0 <= i < a.len() && (#[trigger] a[i]).source == ProjectSource::Local && a[i].path == path;
    assert(a.contains(a[i]));
    let j = choose|j: int| 0 <= j < b.len() && b[j] == a[i];
    assert(b[j].source == ProjectSource::Local && b[j].path == path);
}

/// What stays after the duplicates are removed: the projects of the list
/// that survive, the local ones among them, each claiming what it claimed.
pub proof fn lemma_deduplicated_projects(s: Seq<ProjectView>)
    ensures
        forall|p: ProjectView| #[trigger]
            deduplicated(s).contains(p) <==> s.contains(p) && survives(s, p),
        forall|path: Seq<char>| #[trigger]
            claimed_locally(deduplicated(s), path) <==> claimed_locally(s, path),
{
    let keep = survivor_of(s);
    let d = deduplicated(s);
    assert forall|p: ProjectView| #[trigger] d.contains(p) <==> s.contains(p) && survives(s, p) by {
        if d.contains(p) {
            let i = choose|i: int| 0 <= i < d.len() && d[i] == p;
            s.lemma_filter_pred(keep, i);
            s.lemma_filter_contains_rev(keep, p);
        }
        if s.contains(p) && survives(s, p) {
            let i = choose|i: int| 0 <= i < s.len() && s[i] == p;
            s.lemma_filter_contains(keep, i);
        }
    }
    assert forall|path: Seq<char>| #[trigger]
        claimed_locally(d, path) <==> claimed_locally(s, path) by {
        if claimed_locally(d, path) {
            lemma_claims_of_same_projects(d, s, path);
        }
        if claimed_locally(s, path) {
            let i = choose|i: int|
                0 <= i < s.len() && (#[trigger] s[i]).source == ProjectSource::Local && s[i].path
                    == path;
            assert(s.contains(s[i]));
            assert(survives(s, s[i]));
            assert(d.contains(s[i]));
            let j = choose|j: int| 0 <= j < d.len() && d[j] == s[i];
            assert(d[j].source == ProjectSource::Local && d[j].path == path);
        }
    }
}

/// A list in which every project survives has no duplicates to remove.
proof fn lemma_deduplicated_of_clean(s: Seq<ProjectView>)
    requires
        forall|i: int| 0 <= i < s.len() ==> survives(s, #[trigger] s[i]),
    ensures
        deduplicated(s) == s,
{
    let keep = survivor_of(s);
    assert forall|i: int| 0 <= i < s.len() implies keep(#[trigger] s[i]) by {
        assert(survives(s, s[i]));
    }
    lemma_filter_all(s, keep);
}

/// Removing the duplicates twice is removing them once.
pub proof fn lemma_deduplicate_idempotent(s: Seq<ProjectView>)
    ensures
        deduplicated(deduplicated(s)) == deduplicated(s),
{
    let d = deduplicated(s);
    lemma_deduplicated_projects(s);
    assert forall|i: int| 0 <= i < d.len() implies survives(d, #[trigger] d[i]) by {
        assert(d.contains(d[i]));
        assert(survives(s, d[i]));
        assert(claimed_locally(d, d[i].path) <==> claimed_locally(s, d[i].path));
    }
    lemma_deduplicated_of_clean(d);
}

/// Where a local project and a remote one have the same path, the local
/// one is still there after the duplicates are removed and the remote one
/// is gone.
pub proof fn lemma_local_wins(s: Seq<ProjectView>, local: int, remote: int)
    requires
        0 <= local < s.len(),
        0 <= remote < s.len(),
        s[local].source == ProjectSource::Local,
        s[remote].source.is_remote(),
        s[local].path == s[remote].path,
    ensures
        deduplicated(s).contains(s[local]),
        !deduplicated(s).contains(s[remote]),
{
    lemma_deduplicated_projects(s);
    assert(s.contains(s[local]));
    assert(survives(s, s[local]));
    assert(claimed_locally(s, s[remote].path));
}

/// Of a local project and a remote one at the same path, in either order,
/// exactly the local one is left.
pub proof fn lemma_local_wins_of_two(local: ProjectView, remote: ProjectView)
    requires
        local.source == ProjectSource::Local,
        remote.source.is_remote(),
        local.path == remote.path,
    ensures
        deduplicated(seq![local, remote]) == seq![local],
        deduplicated(seq![remote, local]) == seq![local],
{
    let a = seq![local, remote];
    let b = seq![remote, local];
    let keep_a = survivor_of(a);
    let keep_b = survivor_of(b);
    let none = Seq::<ProjectView>::empty();
    assert(a[0].source == ProjectSource::Local && a[0].path == remote.path);
    assert(claimed_locally(a, remote.path));
    assert(b[1].source == ProjectSource::Local && b[1].path == remote.path);
    assert(claimed_locally(b, remote.path));
    none.lemma_filter_len(keep_a);
    none.lemma_filter_len(keep_b);
    assert(none.filter(keep_a) =~= none);
    assert(none.filter(keep_b) =~= none);
    none.lemma_filter_push(local, keep_a);
    none.push(local).lemma_filter_push(remote, keep_a);
    assert(none.push(local).push(remote) =~= a);
    assert(none.push(local) =~= seq![local]);
    none.lemma_filter_push(remote, keep_b);
    none.push(remote).lemma_filter_push(local, keep_b);
    assert(none.push(remote).push(local) =~= b);
}

/// Ordering an ordered list again changes nothing.
pub proof fn lemma_by_recency_idempotent(s: Seq<ProjectView>)
    ensures
        by_recency(by_recency(s)) == by_recency(s),
{
    lemma_by_recency_ordered(s);
    lemma_by_recency_of_ordered(by_recency(s));
}

/// Of two projects with a time, the first later than the second, and one
/// without a time, the order by recency is: the later, the earlier, the one
/// without, however the three stood before.
pub proof fn lemma_by_recency_of_three(newer: ProjectView, older: ProjectView, timeless: ProjectView)
    requires
        newer.last_modified matches Some(t1) && older.last_modified matches Some(t2)
            && t1.later_than(t2),
        timeless.last_modified is None,
    ensures
        by_recency(seq![newer, older, timeless]) == seq![newer, older, timeless],
        by_recency(seq![newer, timeless, older]) == seq![newer, older, timeless],
        by_recency(seq![older, newer, timeless]) == seq![newer, older, timeless],
        by_recency(seq![older, timeless, newer]) == seq![newer, older, timeless],
        by_recency(seq![timeless, newer, older]) == seq![newer, older, timeless],
        by_recency(seq![timeless, older, newer]) == seq![newer, older, timeless],
{
    lemma_precedes_asymmetric(newer, older);
    lemma_precedes_asymmetric(newer, timeless);
    lemma_precedes_asymmetric(older, timeless);
    lemma_three_in_order(newer, older, timeless, newer, older, timeless);
    lemma_three_in_order(newer, older, timeless, newer, timeless, older);
    lemma_three_in_order(newer, older, timeless, older, newer, timeless);
    lemma_three_in_order(newer, older, timeless, older, timeless, newer);
    lemma_three_in_order(newer, older, timeless, timeless, newer, older);
    lemma_three_in_order(newer, older, timeless, timeless, older, newer);
}

/// Three projects of which each has to precede the next come out of the
/// order by recency in that order, in whatever arrangement they went in.
proof fn lemma_three_in_order(
    a: ProjectView,
    b: ProjectView,
    c: ProjectView,
    x: ProjectView,
    y: ProjectView,
    z: ProjectView,
)
    requires
        precedes(a, b),
        precedes(b, c),
        precedes(a, c),
        !precedes(b, a),
        !precedes(c, a),
        !precedes(c, b),
        seq![x, y, z] == seq![a, b, c] || seq![x, y, z] == seq![a, c, b] || seq![x, y, z] == seq![
            b,
            a,
            c,
        ] || seq![x, y, z] == seq![b, c, a] || seq![x, y, z] == seq![c, a, b] || seq![x, y, z]
            == seq![c, b, a],
    ensures
        by_recency(seq![x, y, z]) == seq![a, b, c],
{
    let s = seq![x, y, z];
    let r = by_recency(s);
    lemma_by_recency_ordered(s);
    assert(r.len() == 3);
    lemma_by_recency_projects(s);
    assert(s.contains(a) && s.contains(b) && s.contains(c)) by {
        assert(seq![a, b, c][0] == a && seq![a, b, c][1] == b && seq![a, b, c][2] == c);
        assert(seq![a, c, b][0] == a && seq![a, c, b][1] == c && seq![a, c, b][2] == b);
        assert(seq![b, a, c][0] == b && seq![b, a, c][1] == a && seq![b, a, c][2] == c);
        assert(seq![b, c, a][0] == b && seq![b, c, a][1] == c && seq![b, c, a][2] == a);
        assert(seq![c, a, b][0] == c && seq![c, a, b][1] == a && seq![c, a, b][2] == b);
        assert(seq![c, b, a][0] == c && seq![c, b, a][1] == b && seq![c, b, a][2] == a);
    }
    assert(r.contains(a) && r.contains(b) && r.contains(c));
    let ia = choose|i: int| 0 <= i < r.len() && r[i] == a;
    let ib = choose|i: int| 0 <= i < r.len() && r[i] == b;
    let ic = choose|i: int| 0 <= i < r.len() && r[i] == c;
    assert(ia < ib) by {
        if ib < ia {
            assert(!precedes(r[ia], r[ib]));
        }
    }
    assert(ib < ic) by {
        if ic < ib {
            assert(!precedes(r[ib], r[ic]));
        }
    }
    assert(r =~= seq![a, b, c]);
}

/// The order by recency changes nothing in which projects a list holds.
proof fn lemma_by_recency_projects(s: Seq<ProjectView>)
    ensures
        forall|p: ProjectView| #[trigger] by_recency(s).contains(p) <==> s.contains(p),
{
    lemma_sorted_contains(s, recency());
}

/// Merging a merged list changes nothing.
pub proof fn lemma_merged_idempotent(s: Seq<ProjectView>)
    ensures
        merged(merged(s)) == merged(s),
        in_recency_order(merged(s)),
        deduplicated(merged(s)) == merged(s),
{
    let d = deduplicated(s);
    let r = by_recency(d);
    lemma_deduplicated_projects(s);
    lemma_by_recency_projects(d);
    lemma_by_recency_ordered(d);
    assert forall|i: int| 0 <= i < r.len() implies survives(r, #[trigger] r[i]) by {
        let p = r[i];
        assert(r.contains(p));
        assert(d.contains(p));
        assert(survives(s, p));
        if claimed_locally(r, p.path) {
            lemma_claims_of_same_projects(r, d, p.path);
            assert(claimed_locally(s, p.path));
        }
    }
    lemma_deduplicated_of_clean(r);
    lemma_by_recency_of_ordered(r);
}

} // verus!
