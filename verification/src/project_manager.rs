//! The way from the cache to the list of projects: when the cached list is
//! taken, when the sources are scanned again, and what a refresh in the
//! background starts from.

use vstd::prelude::*;
use crate::cache::{
    opt_bytes, projects_file_name, refresh_result, shown_at_once, Cache, CacheError, CacheFile,
    SavePlan,
};
use crate::codec::encoding;
use crate::config::Config;
use crate::models::{deduplicated, in_recency_order, ProjectList, ProjectView};
use crate::paths::joined;
use crate::scanner::{run_fits, ScanManager, ScanRun};

verus! {

/// What to do with what the cache gave.
#[derive(Debug)]
pub enum CacheDecision {
    /// Take the cached list.
    UseCached(ProjectList),
    /// Scan the sources again.
    Rescan,
}

/// What a fresh scan leaves to be done: the run of the scan, and the write
/// that stores its list.
#[derive(Debug)]
pub struct FreshScan {
    /// What the sources reported, merged.
    pub run: ScanRun,
    /// The write that stores the merged list; one is planned for every list.
    pub save: Result<SavePlan, CacheError>,
}

/// True when the sources have to be scanned again: the cache gave no list,
/// or its file is no longer valid.
pub open spec fn must_rescan(cached: Option<Seq<ProjectView>>, still_valid: bool) -> bool {
    cached is None || !still_valid
}

/// The view of an optional list.
pub open spec fn opt_list(o: Option<ProjectList>) -> Option<Seq<ProjectView>> {
    match o {
        Some(list) => Some(list@),
        None => None,
    }
}

/// Decides between the cached list and a new scan, given what the cache
/// loaded and whether its file is still valid.
pub fn get_projects_with_cache(cached: Option<ProjectList>, still_valid: bool) -> (r: CacheDecision)
    ensures
        match r {
            CacheDecision::UseCached(list) => !must_rescan(opt_list(cached), still_valid)
                && opt_list(cached) == Some(list@),
            CacheDecision::Rescan => must_rescan(opt_list(cached), still_valid),
        },
{
    match cached {
        Some(list) => if still_valid {
            CacheDecision::UseCached(list)
        } else {
            CacheDecision::Rescan
        },
        None => CacheDecision::Rescan,
    }
}

/// Scans all sources and plans the write that stores the merged list in the
/// cache: the list is the merge of what the sources reported, and the plan
/// holds its bytes for the file of the merged list.
pub fn get_projects_fresh(manager: &ScanManager, cache: &Cache, config: &Config) -> (r: FreshScan)
    ensures
        exists|reports: Seq<Option<Seq<ProjectView>>>| run_fits(manager.count(), r.run, reports),
        in_recency_order(r.run.projects@),
        deduplicated(r.run.projects@) == r.run.projects@,
        r.run.notes@.len() == manager.count(),
        r.save matches Ok(plan) && plan.target@ == joined(cache@.cache_dir, projects_file_name())
            && plan.data@ == encoding(r.run.projects@),
{
    let run = manager.scan_all_verbose(config);
    let ghost reports = choose|reports: Seq<Option<Seq<ProjectView>>>|
        run_fits(manager.count(), run, reports);
    let save = cache.save_projects(&run.projects);
    let fresh = FreshScan { run, save };
    assert(run_fits(manager.count(), fresh.run, reports));
    fresh
}

/// What is shown at once and whether a refresh in the background is due,
/// given the cache file and the time: the list that the file holds, stale
/// or not, or the empty list where there is none; a refresh where the file
/// is not valid or that list is empty. A valid file that holds no list is
/// an error.
pub fn get_projects_with_background_refresh(cache: &Cache, file: &CacheFile, now_secs: u64) -> (r:
    Result<(ProjectList, bool), CacheError>)
    ensures
        refresh_result(r) == shown_at_once(
            cache@.ttl_seconds,
            file.modified_secs,
            opt_bytes(file.contents),
            now_secs,
        ),
        r matches Err(e) ==> e is Corrupt && !(e->Corrupt_0 is Encode),
{
    cache.shown_for_refresh(file, now_secs)
}

} // verus!
