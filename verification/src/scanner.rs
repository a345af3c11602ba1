//! The sources of projects and what is made of their reports: each source
//! scans on its own, a source that fails contributes nothing, and the
//! reports are merged in the order of the sources.

use vstd::prelude::*;
use crate::config::Config;
use crate::models::{
    deduplicated, in_recency_order, lemma_merged_idempotent, merged, ProjectList, ProjectView,
};

pub mod cursor;
pub mod github;
pub mod gitlab;
pub mod local;

verus! {

/// Why a source could not report its projects.
#[derive(Debug)]
pub struct ScanError {
    /// What went wrong, in words.
    pub message: String,
}

/// What is said where a source needs the home directory and the user has
/// none.
pub open spec fn no_home_text() -> Seq<char> {
    "Failed to get home directory"@
}

/// What a path or a failure says: the text of the path, or the message of
/// the failure.
pub open spec fn path_outcome(r: Result<String, ScanError>) -> Result<Seq<char>, Seq<char>> {
    match r {
        Ok(path) => Ok(path@),
        Err(e) => Err(e.message@),
    }
}

/// A source of projects.
pub trait ProjectScanner {
    /// The projects that the source finds under the given settings.
    fn scan(&self, config: &Config) -> Result<ProjectList, ScanError>;

    /// The short name of the source.
    fn scanner_name(&self) -> &'static str;
}

/// What one source contributed to a scan.
#[derive(Debug)]
pub enum ScanOutcome {
    /// The source reported this many projects.
    Found(usize),
    /// The source failed; the text says why.
    Failed(String),
}

/// The name of a source and what it contributed.
#[derive(Debug)]
pub struct ScanNote {
    /// The short name of the source.
    pub scanner: String,
    /// What the source contributed.
    pub outcome: ScanOutcome,
}

/// The result of a scan of all sources.
#[derive(Debug)]
pub struct ScanRun {
    /// The merged list of the projects that the sources reported.
    pub projects: ProjectList,
    /// One note for each source, in the order of the sources.
    pub notes: Vec<ScanNote>,
}

/// The sources that a scan asks, in their order.
pub struct ScanManager {
    scanners: Vec<Box<dyn ProjectScanner>>,
}

/// What a report counts for: the list of a source that succeeded, nothing
/// for one that failed.
pub open spec fn contribution(r: Result<ProjectList, ScanError>) -> Option<Seq<ProjectView>> {
    match r {
        Ok(list) => Some(list@),
        Err(_) => None,
    }
}

/// What the reports count for, in their order.
pub open spec fn contributions(s: Seq<Result<ProjectList, ScanError>>) -> Seq<
    Option<Seq<ProjectView>>,
> {
    s.map_values(|r: Result<ProjectList, ScanError>| contribution(r))
}

/// The projects of all the sources that succeeded, source after source.
pub open spec fn gathered(s: Seq<Option<Seq<ProjectView>>>) -> Seq<ProjectView>
    decreases s.len(),
{
    if s.len() == 0 {
        Seq::empty()
    } else {
        gathered(s.drop_last()) + (match s.last() {
            Some(list) => list,
            None => Seq::empty(),
        })
    }
}

/// Gathering two runs of reports one after the other is gathering each and
/// joining the results.
pub proof fn lemma_gathered_joins(a: Seq<Option<Seq<ProjectView>>>, b: Seq<Option<Seq<ProjectView>>>)
    ensures
        gathered(a + b) == gathered(a) + gathered(b),
    decreases b.len(),
{
    if b.len() == 0 {
        assert(a + b =~= a);
        assert(gathered(a) + gathered(b) =~= gathered(a));
    } else {
        lemma_gathered_joins(a, b.drop_last());
        assert((a + b).drop_last() =~= a + b.drop_last());
        assert((a + b).last() == b.last());
        let tail = match b.last() {
            Some(list) => list,
            None => Seq::empty(),
        };
        assert(gathered(a + b) =~= gathered(a) + (gathered(b.drop_last()) + tail));
    }
}

/// A source that fails changes nothing in what is gathered from the others,
/// wherever it stands among them.
pub proof fn lemma_failure_contributes_nothing(s: Seq<Option<Seq<ProjectView>>>, at: int)
    requires
        0 <= at <= s.len(),
    ensures
        gathered(s.insert(at, None)) == gathered(s),
{
    let head = s.take(at);
    let tail = s.skip(at);
    let fail: Seq<Option<Seq<ProjectView>>> = seq![None];
    assert(s.insert(at, None) =~= head + fail + tail);
    assert(s =~= head + tail);
    lemma_gathered_joins(head + fail, tail);
    lemma_gathered_joins(head, fail);
    lemma_gathered_joins(head, tail);
    let none = Seq::<Option<Seq<ProjectView>>>::empty();
    assert(fail.drop_last() =~= none);
    assert(gathered(none) =~= Seq::<ProjectView>::empty());
    assert(gathered(fail) =~= Seq::<ProjectView>::empty());
    assert(gathered(head) + gathered(fail) =~= gathered(head));
}

/// Of three sources of which the middle one fails, the projects of the other
/// two are gathered, and the same holds where the first or the last fails.
pub proof fn lemma_one_of_three_fails(a: Seq<ProjectView>, b: Seq<ProjectView>)
    ensures
        gathered(seq![None, Some(a), Some(b)]) == a + b,
        gathered(seq![Some(a), None, Some(b)]) == a + b,
        gathered(seq![Some(a), Some(b), None]) == a + b,
{
    let two = seq![Some(a), Some(b)];
    assert(two.drop_last() =~= seq![Some(a)]);
    let none = Seq::<Option<Seq<ProjectView>>>::empty();
    assert(seq![Some(a)].drop_last() =~= none);
    assert(gathered(none) =~= Seq::<ProjectView>::empty());
    assert(gathered(seq![Some(a)]) =~= a);
    assert(gathered(two) =~= a + b);
    lemma_failure_contributes_nothing(two, 0);
    lemma_failure_contributes_nothing(two, 1);
    lemma_failure_contributes_nothing(two, 2);
    assert(two.insert(0, None) =~= seq![None, Some(a), Some(b)]);
    assert(two.insert(1, None) =~= seq![Some(a), None, Some(b)]);
    assert(two.insert(2, None) =~= seq![Some(a), Some(b), None]);
}

/// True when a note says what a report counts for: how many projects a
/// source found, or that it failed.
pub open spec fn note_fits(note: ScanNote, report: Option<Seq<ProjectView>>) -> bool {
    match report {
        Some(list) => note.outcome == ScanOutcome::Found(list.len() as usize),
        None => note.outcome is Failed,
    }
}

/// True when a run is what a scan makes of these reports, one of each
/// source: its list is the merge of the reports, and each note says what the
/// report of its source counts for.
pub open spec fn run_fits(sources: nat, run: ScanRun, reports: Seq<Option<Seq<ProjectView>>>) -> bool {
    &&& reports.len() == sources
    &&& run.notes@.len() == sources
    &&& run.projects@ == merged(gathered(reports))
    &&& forall|i: int| 0 <= i < reports.len() ==> note_fits(#[trigger] run.notes@[i], reports[i])
}

/// Merges the reports of the sources: the projects of those that succeeded
/// are gathered in the order of the reports, the duplicates are removed, and
/// the rest is put in the order by recency. A report that is an error
/// contributes nothing and stops nothing.
pub fn merge_results(results: &Vec<Result<ProjectList, ScanError>>) -> (r: ProjectList)
    ensures
        r@ == merged(gathered(contributions(results@))),
        in_recency_order(r@),
        deduplicated(r@) == r@,
{
    let mut all = ProjectList::new();
    let mut i: usize = 0;
    assert(contributions(results@).take(0) =~= Seq::<Option<Seq<ProjectView>>>::empty());
    while i < results.len()
        invariant
            i <= results.len(),
            all@ == gathered(contributions(results@).take(i as int)),
        decreases results.len() - i,
    {
        proof {
            let c = contributions(results@);
            assert(c.take(i + 1).drop_last() =~= c.take(i as int));
            assert(c.take(i + 1).last() == contribution(results@[i as int]));
        }
        match &results[i] {
            Ok(list) => {
                all.extend_from(list);
            },
            Err(_) => {
                assert(all@ + Seq::<ProjectView>::empty() =~= all@);
            },
        }
        i = i + 1;
    }
    proof {
        assert(contributions(results@).take(i as int) =~= contributions(results@));
        lemma_merged_idempotent(all@);
    }
    all.deduplicate();
    all.sort_by_last_modified();
    all
}

/// Copies the message of a failed report.
fn failure_text(e: &ScanError) -> (r: String)
    ensures
        r@ == e.message@,
{
    e.message.clone()
}

/// The note for the report of the source called `name`.
pub fn note_for(name: &str, result: &Result<ProjectList, ScanError>) -> (r: ScanNote)
    ensures
        r.scanner@ == name@,
        match *result {
            Ok(list) => r.outcome == ScanOutcome::Found(list@.len() as usize),
            Err(e) => r.outcome matches ScanOutcome::Failed(m) && m@ == e.message@,
        },
{
    let outcome = match result {
        Ok(list) => ScanOutcome::Found(list.len()),
        Err(e) => ScanOutcome::Failed(failure_text(e)),
    };
    ScanNote { scanner: name.to_owned(), outcome }
}

impl ScanManager {
    /// The number of sources.
    pub closed spec fn count(&self) -> nat {
        self.scanners@.len()
    }

    /// A manager that asks the given sources, in their order.
    pub fn new_with_scanners(scanners: Vec<Box<dyn ProjectScanner>>) -> (r: ScanManager)
        ensures
            r.count() == scanners@.len(),
    {
        ScanManager { scanners }
    }

    /// Asks every source in turn and merges what they report. A source that
    /// fails is noted and contributes nothing; the scan itself never fails.
    /// What the sources report is theirs to decide, so the result is stated
    /// over their reports, whatever they were.
    pub fn scan_all_verbose(&self, config: &Config) -> (r: ScanRun)
        ensures
            exists|reports: Seq<Option<Seq<ProjectView>>>| run_fits(self.count(), r, reports),
            in_recency_order(r.projects@),
            deduplicated(r.projects@) == r.projects@,
            r.notes@.len() == self.count(),
    {
        let mut results: Vec<Result<ProjectList, ScanError>> = Vec::new();
        let mut notes: Vec<ScanNote> = Vec::new();
        let mut i: usize = 0;
        while i < self.scanners.len()
            invariant
                i <= self.scanners.len(),
                results.len() == i,
                notes.len() == i,
                forall|k: int|
                    0 <= k < i ==> note_fits(#[trigger] notes@[k], contribution(results@[k])),
            decreases self.scanners.len() - i,
        {
            let result = self.scanners[i].scan(config);
            let note = note_for(self.scanners[i].scanner_name(), &result);
            notes.push(note);
            results.push(result);
            i = i + 1;
        }
        let projects = merge_results(&results);
        proof {
            let reports = contributions(results@);
            assert(reports.len() == self.count());
            assert forall|k: int| 0 <= k < reports.len() implies note_fits(
                #[trigger] notes@[k],
                reports[k],
            ) by {
                assert(reports[k] == contribution(results@[k]));
            }
        }
        let run = ScanRun { projects, notes };
        assert(run_fits(self.count(), run, contributions(results@)));
        run
    }
}

} // verus!
