//! The state of the interactive picker: the text typed so far, the
//! projects that match it best, and the one that is selected.

use vstd::prelude::*;
use vstd::string::StringExecFns;
use crate::models::{opt_project, views, Project, ProjectSource, ProjectView};
use crate::order::{
    is_strict_weak, lemma_slot_found, lemma_sorted_contains, lemma_sorted_ordered, one_way,
    sorted, splits,
};
use crate::text::{append_decimal, contains_text, decimal_text, has_part, pop_char, push_char};

verus! {

/// How many projects the picker shows at most.
pub const MAX_SHOWN: usize = 20;

/// The score of every project while nothing is typed.
pub const UNFILTERED_SCORE: i64 = 100;

/// A project that matches the typed text: its position in the list, and how
/// well it matches.
pub type Match = (usize, i64);

/// The score that `fuzzy_matcher`'s `SkimMatcherV2`, as `default()` makes it,
/// gives to `choice` for `pattern`; `None` where the two do not match.
pub uninterp spec fn skim_score(choice: Seq<char>, pattern: Seq<char>) -> Option<i64>;

/// Calls `fuzzy_match` of a `SkimMatcherV2::default()`. The contract only
/// names the score.
#[verifier::external_body]
fn fuzzy_score(choice: &str, pattern: &str) -> (r: Option<i64>)
    ensures
        r == skim_score(choice@, pattern@),
{
    fuzzy_matcher::FuzzyMatcher::fuzzy_match(
        &fuzzy_matcher::skim::SkimMatcherV2::default(),
        choice,
        pattern,
    )
}

/// A key that the picker reacts to.
#[derive(Debug, Clone, Copy, PartialEq, Eq, Structural)]
pub enum Key {
    /// A character was typed.
    Char(char),
    Esc,
    Enter,
    Backspace,
    Up,
    Down,
    /// Any other key.
    Other,
}

/// The state of the picker.
#[derive(Debug)]
pub struct TuiApp {
    input: String,
    projects: Vec<Project>,
    filtered_projects: Vec<Match>,
    selected_index: usize,
    should_quit: bool,
    selected_project: Option<Project>,
}

/// The state of the picker, with its texts as sequences of characters.
pub struct TuiView {
    pub input: Seq<char>,
    pub projects: Seq<ProjectView>,
    pub filtered_projects: Seq<Match>,
    pub selected_index: usize,
    pub should_quit: bool,
    pub selected_project: Option<ProjectView>,
}

/// The relation that puts the better match first.
pub open spec fn higher_score() -> spec_fn(Match, Match) -> bool {
    |a: Match, b: Match| a.1 > b.1
}

/// The matches among the first `n` projects, in the order of the list.
pub open spec fn scored(projects: Seq<ProjectView>, input: Seq<char>, n: int) -> Seq<Match>
    decreases n,
{
    if n <= 0 {
        Seq::empty()
    } else {
        let before = scored(projects, input, n - 1);
        match skim_score(projects[n - 1].name, input) {
            Some(score) => before.push(((n - 1) as usize, score)),
            None => before,
        }
    }
}

/// What is shown while nothing is typed: the first projects of the list, each
/// with the same score.
pub open spec fn unfiltered(n: int) -> Seq<Match> {
    Seq::new(
        (if n < MAX_SHOWN {
            n
        } else {
            MAX_SHOWN as int
        }) as nat,
        |i: int| (i as usize, UNFILTERED_SCORE),
    )
}

/// The first entries of `s`, as many as are shown at most.
pub open spec fn capped(s: Seq<Match>) -> Seq<Match> {
    if s.len() <= MAX_SHOWN {
        s
    } else {
        s.take(MAX_SHOWN as int)
    }
}

/// The projects that are shown for the typed text: all of them in the order
/// of the list where nothing is typed; else those that match, the best
/// first, those that match equally well in the order of the list. Never
/// more than twenty.
pub open spec fn shown(projects: Seq<ProjectView>, input: Seq<char>) -> Seq<Match> {
    if input.len() == 0 {
        unfiltered(projects.len() as int)
    } else {
        capped(sorted(scored(projects, input, projects.len() as int), higher_score()))
    }
}

/// The selection after the shown projects have changed: as before where it
/// is still within them, else the first.
pub open spec fn kept_selection(selected: usize, shown_len: int) -> usize {
    if selected >= shown_len {
        0
    } else {
        selected
    }
}

/// The project that is selected, if the selection points at one.
pub open spec fn selected_of(v: TuiView) -> Option<ProjectView> {
    if v.selected_index < v.filtered_projects.len() && v.filtered_projects[v.selected_index as int].0
        < v.projects.len() {
        Some(v.projects[v.filtered_projects[v.selected_index as int].0 as int])
    } else {
        None
    }
}

/// The state after the shown projects were computed anew.
pub open spec fn refiltered(v: TuiView) -> TuiView {
    let filtered = shown(v.projects, v.input);
    TuiView {
        filtered_projects: filtered,
        selected_index: kept_selection(v.selected_index, filtered.len() as int),
        ..v
    }
}

/// The state after the typed text changed to `input`.
pub open spec fn retyped(v: TuiView, input: Seq<char>) -> TuiView {
    TuiView { filtered_projects: shown(v.projects, input), selected_index: 0, input, ..v }
}

/// The state after the selection moved up by one, if it could.
pub open spec fn moved_up(v: TuiView) -> TuiView {
    if v.selected_index > 0 {
        TuiView { selected_index: (v.selected_index - 1) as usize, ..v }
    } else {
        v
    }
}

/// The state after the selection moved down by one, if it could.
pub open spec fn moved_down(v: TuiView) -> TuiView {
    if v.selected_index + 1 < v.filtered_projects.len() {
        TuiView { selected_index: (v.selected_index + 1) as usize, ..v }
    } else {
        v
    }
}

/// The state after a key: `q` and escape quit; enter takes the selected
/// project, if there is one, and quits; a character is added to the typed
/// text and backspace removes its last one, both with the first match
/// selected; the arrows move the selection; any other key changes nothing.
pub open spec fn after_key(v: TuiView, key: Key) -> TuiView {
    match key {
        Key::Char(c) => if c == 'q' {
            TuiView { should_quit: true, ..v }
        } else {
            retyped(v, v.input.push(c))
        },
        Key::Esc => TuiView { should_quit: true, ..v },
        Key::Enter => match selected_of(v) {
            Some(p) => TuiView { selected_project: Some(p), should_quit: true, ..v },
            None => v,
        },
        Key::Backspace => retyped(
            v,
            if v.input.len() > 0 {
                v.input.drop_last()
            } else {
                v.input
            },
        ),
        Key::Up => moved_up(v),
        Key::Down => moved_down(v),
        Key::Other => v,
    }
}

/// The better match comes first: a strict order with ties.
pub proof fn lemma_higher_score_strict_weak()
    ensures
        is_strict_weak(higher_score()),
{
    assert forall|a: Match, b: Match| #[trigger] one_way(higher_score(), a, b) by {}
    assert forall|a: Match, b: Match, c: Match| #[trigger] splits(higher_score(), a, b, c) by {}
}

/// Every match among the first `n` projects points at one of them.
pub proof fn lemma_scored_in_range(projects: Seq<ProjectView>, input: Seq<char>, n: int)
    requires
        n <= usize::MAX,
    ensures
        scored(projects, input, n).len() <= (if n < 0 {
            0
        } else {
            n
        }),
        forall|k: int|
            0 <= k < scored(projects, input, n).len() ==> (#[trigger] scored(
                projects,
                input,
                n,
            )[k]).0 < n,
    decreases n,
{
    if n > 0 {
        lemma_scored_in_range(projects, input, n - 1);
    }
}

/// Every shown match points at a project of the list, and no more than
/// twenty are shown.
pub proof fn lemma_shown_in_range(projects: Seq<ProjectView>, input: Seq<char>)
    requires
        projects.len() <= usize::MAX,
    ensures
        shown(projects, input).len() <= MAX_SHOWN,
        shown(projects, input).len() <= projects.len(),
        forall|k: int|
            0 <= k < shown(projects, input).len() ==> (#[trigger] shown(projects, input)[k]).0
                < projects.len(),
{
    let n = projects.len() as int;
    if input.len() > 0 {
        let all = scored(projects, input, n);
        let best = sorted(all, higher_score());
        lemma_scored_in_range(projects, input, n);
        lemma_higher_score_strict_weak();
        lemma_sorted_ordered(all, higher_score());
        lemma_sorted_contains(all, higher_score());
        assert forall|k: int| 0 <= k < capped(best).len() implies (#[trigger] capped(best)[k]).0
            < n by {
            assert(capped(best)[k] == best[k]);
            assert(best.contains(best[k]));
            assert(all.contains(best[k]));
            let w = choose|w: int| 0 <= w < all.len() && all[w] == best[k];
            assert(all[w].0 < n);
        }
    }
}

/// Puts the matches in order, the best first; those that match equally
/// well keep the order they had.
pub fn sort_by_score(v: &mut Vec<Match>)
    ensures
        final(v)@ == sorted(old(v)@, higher_score()),
{
    let ghost before = v@;
    let n = v.len();
    let mut i: usize = 0;
    assert(v@.take(0) =~= sorted(before.take(0), higher_score()));
    assert(v@.skip(0) =~= before.skip(0));
    while i < n
        invariant
            n == v.len(),
            n == before.len(),
            i <= n,
            v@.take(i as int) == sorted(before.take(i as int), higher_score()),
            v@.skip(i as int) == before.skip(i as int),
        decreases n - i,
    {
        let ghost head = v@.take(i as int);
        let ghost whole = v@;
        assert(whole[i as int] == before.skip(i as int)[0]);
        let m = v.remove(i);
        let mut j: usize = i;
        while j > 0 && m.1 > v[j - 1].1
            invariant
                j <= i,
                i < n,
                v.len() == n - 1,
                v@ == whole.remove(i as int),
                head == whole.take(i as int),
                whole.len() == n,
                forall|k: int| j <= k < i ==> m.1 > (#[trigger] head[k]).1,
            decreases j,
        {
            assert(v@[j - 1] == head[j - 1]);
            j = j - 1;
        }
        proof {
            if j > 0 {
                assert(v@[j - 1] == head[j - 1]);
            }
            lemma_slot_found(head, m, higher_score(), j as int);
        }
        v.insert(j, m);
        proof {
            let now = v@;
            let grown = before.take(i + 1);
            assert(grown.drop_last() =~= before.take(i as int));
            assert(grown.last() == m);
            assert(now.take(i + 1) =~= head.insert(j as int, m));
            let tail = now.skip(i + 1);
            let goal = before.skip(i + 1);
            assert forall|k: int| 0 <= k < n - i - 1 implies #[trigger] tail[k] == goal[k] by {
                assert(now[k + i + 1] == whole[k + i + 1]);
                assert(whole[k + i + 1] == whole.skip(i as int)[k + 1]);
                assert(before[k + i + 1] == before.skip(i as int)[k + 1]);
            }
            assert(tail =~= goal);
        }
        i = i + 1;
    }
    proof {
        assert(v@.take(n as int) =~= v@);
        assert(before.take(n as int) =~= before);
    }
}

/// The matches that are shown for the typed text.
pub fn best_matches(projects: &Vec<Project>, input: &str) -> (r: Vec<Match>)
    ensures
        r@ == shown(views(projects@), input@),
{
    let n = projects.len();
    let mut found: Vec<Match> = Vec::new();
    if input.is_empty() {
        let limit: usize = if n < MAX_SHOWN {
            n
        } else {
            MAX_SHOWN
        };
        let mut i: usize = 0;
        while i < limit
            invariant
                i <= limit,
                found@ == Seq::new(i as nat, |k: int| (k as usize, UNFILTERED_SCORE)),
            decreases limit - i,
        {
            found.push((i, UNFILTERED_SCORE));
            assert(found@ =~= Seq::new((i + 1) as nat, |k: int| (k as usize, UNFILTERED_SCORE)));
            i = i + 1;
        }
        return found;
    }
    let mut i: usize = 0;
    while i < n
        invariant
            i <= n,
            n == projects.len(),
            found@ == scored(views(projects@), input@, i as int),
        decreases n - i,
    {
        assert(views(projects@)[i as int] == projects@[i as int]@);
        match fuzzy_score(projects[i].name.as_str(), input) {
            Some(score) => {
                found.push((i, score));
            },
            None => {},
        }
        i = i + 1;
    }
    sort_by_score(&mut found);
    if found.len() > MAX_SHOWN {
        found.truncate(MAX_SHOWN);
    }
    found
}

impl View for TuiApp {
    type V = TuiView;

    closed spec fn view(&self) -> TuiView {
        TuiView {
            input: self.input@,
            projects: views(self.projects@),
            filtered_projects: self.filtered_projects@,
            selected_index: self.selected_index,
            should_quit: self.should_quit,
            selected_project: opt_project(self.selected_project),
        }
    }
}

/// Copies an optional project.
fn clone_opt_project(o: &Option<Project>) -> (r: Option<Project>)
    ensures
        opt_project(r) == opt_project(*o),
{
    match o {
        Some(p) => Some(p.clone()),
        None => None,
    }
}

impl TuiApp {
    /// The picker over `projects`, with nothing typed, the first projects
    /// shown and the first of them selected.
    pub fn new(projects: Vec<Project>) -> (r: TuiApp)
        ensures
            r@ == (TuiView {
                input: Seq::empty(),
                projects: views(projects@),
                filtered_projects: shown(views(projects@), Seq::empty()),
                selected_index: 0,
                should_quit: false,
                selected_project: None,
            }),
    {
        let input = String::new();
        let filtered_projects = best_matches(&projects, input.as_str());
        TuiApp {
            input,
            projects,
            filtered_projects,
            selected_index: 0,
            should_quit: false,
            selected_project: None,
        }
    }

    /// The text typed so far.
    pub fn input(&self) -> (r: &str)
        ensures
            r@ == self@.input,
    {
        self.input.as_str()
    }

    /// Replaces the typed text. What is shown changes with the next call of
    /// `update_filtered_projects`.
    pub fn set_input(&mut self, input: &str)
        ensures
            final(self)@ == (TuiView { input: input@, ..old(self)@ }),
    {
        self.input = String::from_str(input);
    }

    /// The projects that the picker chooses from.
    pub fn projects(&self) -> (r: &[Project])
        ensures
            views(r@) == self@.projects,
    {
        self.projects.as_slice()
    }

    /// The matches that are shown, the best first.
    pub fn filtered_projects(&self) -> (r: &[Match])
        ensures
            r@ == self@.filtered_projects,
    {
        self.filtered_projects.as_slice()
    }

    /// The position of the selection among the shown matches.
    pub fn selected_index(&self) -> (r: usize)
        ensures
            r == self@.selected_index,
    {
        self.selected_index
    }

    /// Whether the picker is to close.
    pub fn should_quit(&self) -> (r: bool)
        ensures
            r == self@.should_quit,
    {
        self.should_quit
    }

    /// The project that was taken with enter, if any.
    pub fn selected_project(&self) -> (r: Option<Project>)
        ensures
            opt_project(r) == self@.selected_project,
    {
        clone_opt_project(&self.selected_project)
    }

    /// Computes the shown matches anew from the typed text. The selection
    /// stays where it is still within them, else it goes to the first.
    pub fn update_filtered_projects(&mut self)
        ensures
            final(self)@ == refiltered(old(self)@),
    {
        self.filtered_projects = best_matches(&self.projects, self.input.as_str());
        if self.selected_index >= self.filtered_projects.len() {
            self.selected_index = 0;
        }
    }

    /// Moves the selection up by one, unless it is at the first match.
    pub fn move_selection_up(&mut self)
        ensures
            final(self)@ == moved_up(old(self)@),
    {
        if self.selected_index > 0 {
            self.selected_index = self.selected_index - 1;
        }
    }

    /// Moves the selection down by one, unless it is at the last match.
    pub fn move_selection_down(&mut self)
        ensures
            final(self)@ == moved_down(old(self)@),
    {
        if self.selected_index < self.filtered_projects.len() && self.selected_index + 1
            < self.filtered_projects.len() {
            self.selected_index = self.selected_index + 1;
        }
    }

    /// The project that is selected, if the selection points at one.
    pub fn get_selected_project(&self) -> (r: Option<Project>)
        ensures
            opt_project(r) == selected_of(self@),
    {
        if self.selected_index < self.filtered_projects.len() {
            let at: usize = self.filtered_projects[self.selected_index].0;
            if at < self.projects.len() {
                assert(views(self.projects@)[at as int] == self.projects@[at as int]@);
                return Some(self.projects[at].clone());
            }
        }
        None
    }

    /// Changes the typed text and shows what matches it, the first match
    /// selected.
    fn retype(&mut self)
        ensures
            final(self)@ == retyped(old(self)@, old(self)@.input),
    {
        self.filtered_projects = best_matches(&self.projects, self.input.as_str());
        self.selected_index = 0;
    }

    /// Reacts to a key.
    pub fn handle_key(&mut self, key: Key)
        ensures
            final(self)@ == after_key(old(self)@, key),
    {
        match key {
            Key::Char(c) => {
                if c == 'q' {
                    self.should_quit = true;
                } else {
                    push_char(&mut self.input, c);
                    self.retype();
                }
            },
            Key::Esc => {
                self.should_quit = true;
            },
            Key::Enter => {
                match self.get_selected_project() {
                    Some(project) => {
                        self.selected_project = Some(project);
                        self.should_quit = true;
                    },
                    None => {},
                }
            },
            Key::Backspace => {
                pop_char(&mut self.input);
                self.retype();
            },
            Key::Up => {
                self.move_selection_up();
            },
            Key::Down => {
                self.move_selection_down();
            },
            Key::Other => {},
        }
    }
}

/// How a project of a remote source stands, or that the project is there.
#[derive(Debug, Clone, Copy, PartialEq, Eq, Structural)]
pub enum RowStatus {
    /// A remote project that is cloned already.
    Cloned,
    /// A remote project that is not cloned yet.
    Remote,
    /// A project of another source.
    Available,
}

/// The colour family of a status text.
#[derive(Debug, Clone, Copy, PartialEq, Eq, Structural)]
pub enum Tone {
    Success,
    Error,
    Warning,
}

/// The status of a row: a remote project is cloned or not, any other is
/// available.
pub open spec fn row_status_of(source: ProjectSource, exists: bool) -> RowStatus {
    if source.is_remote() {
        if exists {
            RowStatus::Cloned
        } else {
            RowStatus::Remote
        }
    } else {
        RowStatus::Available
    }
}

/// The tone of a status text: success where it holds the check mark, error
/// where it holds the cross, else warning.
pub open spec fn tone_of(status: Seq<char>) -> Tone {
    if has_part(status, "✅"@) {
        Tone::Success
    } else if has_part(status, "❌"@) {
        Tone::Error
    } else {
        Tone::Warning
    }
}

/// What is known of the sign-in of a command line client.
#[derive(Debug, Clone, Copy, PartialEq, Eq, Structural)]
pub enum ClientStatus {
    /// No project of the service is in the list, so nothing was asked.
    NoProjects,
    /// The client is not installed.
    NotInstalled,
    /// The client is installed and usable.
    Ready,
    /// The client is installed but not usable.
    NotReady,
    /// The question could not be asked.
    CheckFailed,
}

/// The status line of the GitHub client.
pub open spec fn github_status_text(status: ClientStatus) -> Seq<char> {
    match status {
        ClientStatus::NoProjects => "not configured"@,
        ClientStatus::NotInstalled => "CLI not found"@,
        ClientStatus::Ready => "✅ authenticated"@,
        ClientStatus::NotReady => "❌ not authenticated"@,
        ClientStatus::CheckFailed => "❌ error checking auth"@,
    }
}

/// The status line of the GitLab client.
pub open spec fn gitlab_status_text(status: ClientStatus) -> Seq<char> {
    match status {
        ClientStatus::NoProjects => "not configured"@,
        ClientStatus::NotInstalled => "CLI not found"@,
        ClientStatus::Ready => "✅ accessible"@,
        ClientStatus::NotReady | ClientStatus::CheckFailed => "❌ not accessible"@,
    }
}

/// The title of the list: how many projects are shown, of how many.
pub open spec fn title_text(shown: usize, total: usize) -> Seq<char> {
    " Projects ("@ + decimal_text(shown as nat) + "/"@ + decimal_text(total as nat) + ") "@
}

/// Tells whether a project of `source` is in the list.
pub fn has_source(projects: &[Project], source: ProjectSource) -> (r: bool)
    ensures
        r == exists|i: int| 0 <= i < projects@.len() && (#[trigger] projects@[i]).source == source,
{
    let mut i: usize = 0;
    while i < projects.len()
        invariant
            i <= projects.len(),
            forall|k: int| 0 <= k < i ==> (#[trigger] projects@[k]).source != source,
        decreases projects.len() - i,
    {
        if projects[i].source == source {
            return true;
        }
        i = i + 1;
    }
    false
}

/// The status of a row of the list.
pub fn row_status(source: ProjectSource, exists: bool) -> (r: RowStatus)
    ensures
        r == row_status_of(source, exists),
{
    if source.remote() {
        if exists {
            RowStatus::Cloned
        } else {
            RowStatus::Remote
        }
    } else {
        RowStatus::Available
    }
}

/// The tone in which a status text is shown.
pub fn status_tone(status: &str) -> (r: Tone)
    ensures
        r == tone_of(status@),
{
    if contains_text(status, "✅") {
        Tone::Success
    } else if contains_text(status, "❌") {
        Tone::Error
    } else {
        Tone::Warning
    }
}

/// The status line of the GitHub client.
pub fn compute_github_status(status: ClientStatus) -> (r: String)
    ensures
        r@ == github_status_text(status),
{
    match status {
        ClientStatus::NoProjects => String::from_str("not configured"),
        ClientStatus::NotInstalled => String::from_str("CLI not found"),
        ClientStatus::Ready => String::from_str("✅ authenticated"),
        ClientStatus::NotReady => String::from_str("❌ not authenticated"),
        ClientStatus::CheckFailed => String::from_str("❌ error checking auth"),
    }
}

/// The status line of the GitLab client.
pub fn compute_gitlab_status(status: ClientStatus) -> (r: String)
    ensures
        r@ == gitlab_status_text(status),
{
    match status {
        ClientStatus::NoProjects => String::from_str("not configured"),
        ClientStatus::NotInstalled => String::from_str("CLI not found"),
        ClientStatus::Ready => String::from_str("✅ accessible"),
        ClientStatus::NotReady => String::from_str("❌ not accessible"),
        ClientStatus::CheckFailed => String::from_str("❌ not accessible"),
    }
}

/// The title of the list.
pub fn projects_title(shown: usize, total: usize) -> (r: String)
    ensures
        r@ == title_text(shown, total),
{
    let mut title = String::from_str(" Projects (");
    append_decimal(&mut title, shown as u128);
    title.append("/");
    append_decimal(&mut title, total as u128);
    title.append(") ");
    assert(title@ =~= title_text(shown, total));
    title
}

} // verus!
