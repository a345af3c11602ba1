//! The cache of the merged project list: where its files are, when one is
//! still valid, what a load makes of a file, and how a save is retried.

use vstd::prelude::*;
use vstd::string::{StrSliceExecFns, StringExecFns};
use crate::codec::{
    bincode_records, decode_projects, decoding, encode_projects, encoding,
    lemma_records_round_trip, to_records, CodecError,
};
use crate::config::Config;
use crate::models::{ProjectList, ProjectView};
use crate::paths::{file_name, join_path, joined, last_part, last_part_bounds, name_end, name_start};
use crate::text::{append_decimal, chars_of, decimal_text, lemma_decimal_text, texts_of};

verus! {

/// The name of the file that holds the merged project list.
pub open spec fn projects_file_name() -> Seq<char> {
    "sw_projects.cache"@
}

/// The name of the file that holds the list of the remote repositories only.
pub open spec fn github_file_name() -> Seq<char> {
    "sw_github.cache"@
}

/// How often a save tries to write before it gives up.
pub const MAX_WRITE_ATTEMPTS: u32 = 3;

/// The cache: the directory of its files, and the time for which a file
/// stays valid.
#[derive(Debug)]
pub struct Cache {
    cache_dir: String,
    ttl_seconds: u64,
}

/// What a cache is made of.
pub struct CacheView {
    pub cache_dir: Seq<char>,
    pub ttl_seconds: u64,
}

impl View for Cache {
    type V = CacheView;

    closed spec fn view(&self) -> CacheView {
        CacheView { cache_dir: self.cache_dir@, ttl_seconds: self.ttl_seconds }
    }
}

/// What was found of a cache file on disk.
#[derive(Debug)]
pub struct CacheFile {
    /// When the file was last written, in seconds since the epoch; `None`
    /// where there is no file or its time cannot be read.
    pub modified_secs: Option<u64>,
    /// What the file holds; `None` where it cannot be read.
    pub contents: Option<Vec<u8>>,
}

/// Why the cache could not do what was asked.
#[derive(Debug)]
pub enum CacheError {
    /// The file is there and valid, but it does not hold a project list.
    Corrupt(CodecError),
    /// The project list could not be written to bytes.
    Encode(CodecError),
    /// Every attempt to write the file failed; the text is the last reason.
    WriteFailed(String),
}

/// What to write, and where.
#[derive(Debug)]
pub struct SavePlan {
    /// The path of the cache file.
    pub target: String,
    /// The bytes that the file is to hold.
    pub data: Vec<u8>,
}

/// What follows an attempt to write the cache file.
#[derive(Debug, Clone, Copy, PartialEq, Eq, Structural)]
pub enum SaveStep {
    /// The file is written.
    Done,
    /// Wait for this many milliseconds, then try again.
    RetryAfter(u64),
    /// Give up and report the last failure.
    GiveUp,
}

/// True when a file last written at `modified` is still valid at `now`: it
/// is there, it is not from the future, and it is younger than `ttl`.
pub open spec fn is_fresh(ttl: u64, modified: Option<u64>, now: u64) -> bool {
    match modified {
        Some(m) => m <= now && now - m < ttl,
        None => false,
    }
}

/// What a load makes of a file.
pub open spec fn loaded(ttl: u64, modified: Option<u64>, contents: Option<Seq<u8>>, now: u64) -> Result<
    Option<Seq<ProjectView>>,
    Option<int>,
> {
    if !is_fresh(ttl, modified, now) {
        Ok(None)
    } else {
        match contents {
            None => Ok(None),
            Some(bytes) => match decoding(bytes) {
                Ok(projects) => Ok(Some(projects)),
                Err(at) => Err(at),
            },
        }
    }
}

/// What follows attempt number `attempt`, counted from zero.
pub open spec fn next_step(attempt: u32, succeeded: bool) -> SaveStep {
    if succeeded {
        SaveStep::Done
    } else if attempt + 1 < MAX_WRITE_ATTEMPTS {
        SaveStep::RetryAfter(if attempt == 0 {
            1
        } else {
            2
        })
    } else {
        SaveStep::GiveUp
    }
}

/// The path beside `target` with the name `name`: `target` up to its last
/// part, then `name`.
pub open spec fn beside(target: Seq<char>, name: Seq<char>) -> Seq<char> {
    let end = name_end(target, target.len() as int);
    target.subrange(0, name_start(target, end)) + name
}

/// The name of the temporary file for a write to `target`: the name of the
/// target, or `cache` where it has none, then `.tmp.`, the number of the
/// process, a dot, and the nanoseconds of the clock.
pub open spec fn temp_name(target: Seq<char>, process: u32, nanos: u128) -> Seq<char> {
    (match last_part(target) {
        Some(name) => name,
        None => "cache"@,
    }) + ".tmp."@ + decimal_text(process as nat) + "."@ + decimal_text(nanos as nat)
}

/// What the result of a load says: the list or the miss, or for a corrupt
/// file the position of the first record that holds no project, if the
/// bytes are records at all.
pub open spec fn load_result(r: Result<Option<ProjectList>, CacheError>) -> Result<
    Option<Seq<ProjectView>>,
    Option<int>,
> {
    match r {
        Ok(Some(list)) => Ok(Some(list@)),
        Ok(None) => Ok(None),
        Err(CacheError::Corrupt(CodecError::InvalidRecord(at))) => Err(Some(at as int)),
        Err(_) => Err(None),
    }
}

/// What is shown at once, and whether a refresh is due: the list that the
/// file holds, stale or not, with a refresh where the file is not valid or
/// the list is empty; the empty list with a refresh where there is nothing
/// to read or a stale file holds no list; an error where a valid file holds
/// no list.
pub open spec fn shown_at_once(
    ttl: u64,
    modified: Option<u64>,
    contents: Option<Seq<u8>>,
    now: u64,
) -> Result<(Seq<ProjectView>, bool), Option<int>> {
    let fresh = is_fresh(ttl, modified, now);
    match contents {
        None => Ok((Seq::empty(), true)),
        Some(bytes) => match decoding(bytes) {
            Ok(projects) => Ok((projects, !fresh || projects.len() == 0)),
            Err(at) => if fresh {
                Err(at)
            } else {
                Ok((Seq::empty(), true))
            },
        },
    }
}

/// What the result of looking for what to show says: the list and whether
/// to refresh, or for a corrupt file the position of the first record that
/// holds no project, if the bytes are records at all.
pub open spec fn refresh_result(r: Result<(ProjectList, bool), CacheError>) -> Result<
    (Seq<ProjectView>, bool),
    Option<int>,
> {
    match r {
        Ok((list, refresh)) => Ok((list@, refresh)),
        Err(CacheError::Corrupt(CodecError::InvalidRecord(at))) => Err(Some(at as int)),
        Err(_) => Err(None),
    }
}

/// The view of optional bytes.
pub open spec fn opt_bytes(o: Option<Vec<u8>>) -> Option<Seq<u8>> {
    match o {
        Some(v) => Some(v@),
        None => None,
    }
}

/// The name of the temporary file for a write to `target` by the process
/// `process` at `nanos` nanoseconds of the clock.
pub fn temp_file_name(target: &str, process: u32, nanos: u128) -> (r: String)
    ensures
        r@ == temp_name(target@, process, nanos),
{
    let mut name = match file_name(target) {
        Some(n) => n,
        None => String::from_str("cache"),
    };
    let ghost stem = name@;
    name.append(".tmp.");
    append_decimal(&mut name, process as u128);
    name.append(".");
    append_decimal(&mut name, nanos);
    assert(name@ =~= stem + ".tmp."@ + decimal_text(process as nat) + "."@ + decimal_text(
        nanos as nat,
    ));
    name
}

/// The path of the temporary file for a write to `target`: in the
/// directory of `target`, under the temporary name.
pub fn temp_file_path(target: &str, process: u32, nanos: u128) -> (r: String)
    ensures
        r@ == beside(target@, temp_name(target@, process, nanos)),
{
    let v = chars_of(target);
    let (start, _) = last_part_bounds(&v);
    let mut path = String::from_str(target.substring_char(0, start));
    let name = temp_file_name(target, process, nanos);
    path.append(name.as_str());
    path
}

impl Cache {
    /// The cache in the directory `cache_dir`, with the time to live that
    /// `config` sets.
    pub fn new(config: &Config, cache_dir: &str) -> (r: Cache)
        ensures
            r@ == (CacheView { cache_dir: cache_dir@, ttl_seconds: config.cache_ttl_seconds }),
    {
        Cache { cache_dir: String::from_str(cache_dir), ttl_seconds: config.cache_ttl_seconds }
    }

    /// The path of the file that holds the merged project list.
    pub fn projects_cache_path(&self) -> (r: String)
        ensures
            r@ == joined(self@.cache_dir, projects_file_name()),
    {
        join_path(self.cache_dir.as_str(), "sw_projects.cache")
    }

    /// The path of the file that holds the remote repositories only.
    pub fn github_cache_path(&self) -> (r: String)
        ensures
            r@ == joined(self@.cache_dir, github_file_name()),
    {
        join_path(self.cache_dir.as_str(), "sw_github.cache")
    }

    /// Tells whether a file last written at `modified_secs` is still valid at
    /// `now_secs`. No file, and a file from the future, are not valid.
    pub fn is_cache_valid(&self, modified_secs: Option<u64>, now_secs: u64) -> (r: bool)
        ensures
            r == is_fresh(self@.ttl_seconds, modified_secs, now_secs),
    {
        match modified_secs {
            Some(m) => m <= now_secs && now_secs - m < self.ttl_seconds,
            None => false,
        }
    }

    /// What a load makes of a cache file at `now_secs`: nothing where the
    /// file is missing, stale or unreadable; the list it holds; an error
    /// where it is valid but holds no list.
    fn load(&self, file: &CacheFile, now_secs: u64) -> (r: Result<Option<ProjectList>, CacheError>)
        ensures
            load_result(r) == loaded(
                self@.ttl_seconds,
                file.modified_secs,
                opt_bytes(file.contents),
                now_secs,
            ),
            r matches Err(e) ==> e is Corrupt && !(e->Corrupt_0 is Encode),
    {
        if !self.is_cache_valid(file.modified_secs, now_secs) {
            return Ok(None);
        }
        match &file.contents {
            None => Ok(None),
            Some(bytes) => match decode_projects(bytes.as_slice()) {
                Ok(list) => Ok(Some(list)),
                Err(e) => Err(CacheError::Corrupt(e)),
            },
        }
    }

    /// What a load of the merged project list makes of its file at
    /// `now_secs`: a miss where the file is missing, stale or unreadable;
    /// the list it holds; an error where it is valid but holds no list.
    pub fn load_projects(&self, file: &CacheFile, now_secs: u64) -> (r: Result<
        Option<ProjectList>,
        CacheError,
    >)
        ensures
            load_result(r) == loaded(
                self@.ttl_seconds,
                file.modified_secs,
                opt_bytes(file.contents),
                now_secs,
            ),
            r matches Err(e) ==> e is Corrupt && !(e->Corrupt_0 is Encode),
    {
        self.load(file, now_secs)
    }

    /// What a load of the list of remote repositories makes of its file at
    /// `now_secs`, by the same rules.
    pub fn load_github_projects(&self, file: &CacheFile, now_secs: u64) -> (r: Result<
        Option<ProjectList>,
        CacheError,
    >)
        ensures
            load_result(r) == loaded(
                self@.ttl_seconds,
                file.modified_secs,
                opt_bytes(file.contents),
                now_secs,
            ),
            r matches Err(e) ==> e is Corrupt && !(e->Corrupt_0 is Encode),
    {
        self.load(file, now_secs)
    }

    /// What is shown at once when a refresh may run in the background, and
    /// whether one is due, given the cache file and the time: the list that
    /// the file holds, stale or not, and the empty list where there is no
    /// file, where it cannot be read, or where it is stale and holds no list;
    /// a refresh where the file is not valid or the list is empty. A valid
    /// file that holds no list is an error.
    pub fn shown_for_refresh(&self, file: &CacheFile, now_secs: u64) -> (r: Result<
        (ProjectList, bool),
        CacheError,
    >)
        ensures
            refresh_result(r) == shown_at_once(
                self@.ttl_seconds,
                file.modified_secs,
                opt_bytes(file.contents),
                now_secs,
            ),
            r matches Err(e) ==> e is Corrupt && !(e->Corrupt_0 is Encode),
    {
        let fresh = self.is_cache_valid(file.modified_secs, now_secs);
        match &file.contents {
            None => Ok((ProjectList::new(), true)),
            Some(bytes) => match decode_projects(bytes.as_slice()) {
                Ok(list) => {
                    let refresh = !fresh || list.is_empty();
                    Ok((list, refresh))
                },
                Err(e) => if fresh {
                    Err(CacheError::Corrupt(e))
                } else {
                    Ok((ProjectList::new(), true))
                },
            },
        }
    }

    /// What a save has to write: the bytes of `projects`, to the path
    /// `target`. A plan is made for every list.
    pub fn plan_save(&self, target: String, projects: &ProjectList) -> (r: Result<SavePlan, CacheError>)
        ensures
            r matches Ok(plan) && plan.target@ == target@ && plan.data@ == encoding(projects@),
    {
        match encode_projects(projects) {
            Ok(data) => Ok(SavePlan { target, data }),
            Err(e) => Err(CacheError::Encode(e)),
        }
    }

    /// What a save of the merged project list has to write: the bytes of the
    /// list, to the file of the merged list. A plan is made for every list.
    pub fn save_projects(&self, projects: &ProjectList) -> (r: Result<SavePlan, CacheError>)
        ensures
            r matches Ok(plan) && plan.target@ == joined(self@.cache_dir, projects_file_name())
                && plan.data@ == encoding(projects@),
    {
        self.plan_save(self.projects_cache_path(), projects)
    }

    /// What a save of the remote repositories has to write: the bytes of the
    /// list, to the file of the remote repositories. A plan is made for every
    /// list.
    pub fn save_github_projects(&self, projects: &ProjectList) -> (r: Result<SavePlan, CacheError>)
        ensures
            r matches Ok(plan) && plan.target@ == joined(self@.cache_dir, github_file_name())
                && plan.data@ == encoding(projects@),
    {
        self.plan_save(self.github_cache_path(), projects)
    }

    /// What follows attempt number `attempt` to write the file, counted from
    /// zero: done after a success; after a failure a wait of one millisecond,
    /// then of two, and after the third failure nothing more.
    pub fn after_attempt(attempt: u32, succeeded: bool) -> (r: SaveStep)
        ensures
            r == next_step(attempt, succeeded),
    {
        if succeeded {
            SaveStep::Done
        } else if attempt < MAX_WRITE_ATTEMPTS - 1 {
            SaveStep::RetryAfter(if attempt == 0 {
                1
            } else {
                2
            })
        } else {
            SaveStep::GiveUp
        }
    }

    /// The cache files that an invalidation has to delete: of the two, those
    /// that are there.
    pub fn invalidate_all(&self, projects_present: bool, github_present: bool) -> (r: Vec<String>)
        ensures
            texts_of(r@) == (if projects_present {
                seq![joined(self@.cache_dir, projects_file_name())]
            } else {
                Seq::<Seq<char>>::empty()
            }) + (if github_present {
                seq![joined(self@.cache_dir, github_file_name())]
            } else {
                Seq::<Seq<char>>::empty()
            }),
    {
        let mut doomed: Vec<String> = Vec::new();
        if projects_present {
            doomed.push(self.projects_cache_path());
        }
        if github_present {
            doomed.push(self.github_cache_path());
        }
        assert(texts_of(doomed@) =~= (if projects_present {
            seq![joined(self@.cache_dir, projects_file_name())]
        } else {
            Seq::<Seq<char>>::empty()
        }) + (if github_present {
            seq![joined(self@.cache_dir, github_file_name())]
        } else {
            Seq::<Seq<char>>::empty()
        }));
        doomed
    }
}

/// A file is valid from the second in which it is written until its time
/// to live has passed: never with a time to live of zero, never when it is
/// from the future, and never from the moment at which it is as old as its
/// time to live.
pub proof fn lemma_ttl_window(ttl: u64, written: u64, now: u64)
    ensures
        is_fresh(ttl, Some(written), written) <==> ttl > 0,
        is_fresh(ttl, Some(written), now) <==> written <= now < written + ttl,
        !is_fresh(ttl, None, now),
{
}

/// A load of a stale or missing file is a miss, whatever the file holds.
pub proof fn lemma_stale_is_a_miss(ttl: u64, modified: Option<u64>, contents: Option<Seq<u8>>, now: u64)
    requires
        !is_fresh(ttl, modified, now),
    ensures
        loaded(ttl, modified, contents, now) == Ok::<Option<Seq<ProjectView>>, Option<int>>(None),
{
}

/// Where the bytes of a file read back as the records that were written
/// for a list, a load of the file while it is valid gives that list, field
/// for field.
pub proof fn lemma_load_of_saved(
    ttl: u64,
    modified: Option<u64>,
    bytes: Seq<u8>,
    now: u64,
    saved: Seq<ProjectView>,
)
    requires
        is_fresh(ttl, modified, now),
        bincode_records(bytes) == Some(to_records(saved)),
    ensures
        decoding(bytes) == Ok::<Seq<ProjectView>, Option<int>>(saved),
        loaded(ttl, modified, Some(bytes), now) == Ok::<Option<Seq<ProjectView>>, Option<int>>(
            Some(saved),
        ),
{
    lemma_records_round_trip(saved);
}

/// Two writes to one target get different temporary names unless both the
/// process and the clock are the same.
pub proof fn lemma_temp_names_differ(
    target: Seq<char>,
    process: u32,
    nanos: u128,
    other_process: u32,
    other_nanos: u128,
)
    requires
        temp_name(target, process, nanos) == temp_name(target, other_process, other_nanos),
    ensures
        process == other_process,
        nanos == other_nanos,
{
    reveal_strlit(".");
    let stem = (match last_part(target) {
        Some(name) => name,
        None => "cache"@,
    }) + ".tmp."@;
    let pid = decimal_text(process as nat);
    let other_pid = decimal_text(other_process as nat);
    let clock = decimal_text(nanos as nat);
    let other_clock = decimal_text(other_nanos as nat);
    let dot = seq!['.'];
    assert("."@ =~= dot);
    let tail = pid + dot + clock;
    let other_tail = other_pid + dot + other_clock;
    assert(temp_name(target, process, nanos) =~= stem + tail);
    assert(temp_name(target, other_process, other_nanos) =~= stem + other_tail);
    assert(tail =~= (stem + tail).skip(stem.len() as int));
    assert(other_tail =~= (stem + other_tail).skip(stem.len() as int));
    assert(tail == other_tail);
    lemma_decimal_text(process as nat);
    lemma_decimal_text(other_process as nat);
    lemma_decimal_text(nanos as nat);
    lemma_decimal_text(other_nanos as nat);
    assert(tail[pid.len() as int] == '.');
    assert(other_tail[other_pid.len() as int] == '.');
    if pid.len() < other_pid.len() {
        assert(other_tail[pid.len() as int] == other_pid[pid.len() as int]);
    }
    if other_pid.len() < pid.len() {
        assert(tail[other_pid.len() as int] == pid[other_pid.len() as int]);
    }
    assert(pid =~= tail.take(pid.len() as int));
    assert(other_pid =~= other_tail.take(other_pid.len() as int));
    assert(clock =~= tail.skip(pid.len() as int + 1));
    assert(other_clock =~= other_tail.skip(other_pid.len() as int + 1));
}

/// A stale file that holds a list is shown at once, with a refresh; and so
/// is a valid file, with a refresh only where its list is empty.
pub proof fn lemma_stale_list_is_shown(
    ttl: u64,
    modified: Option<u64>,
    bytes: Seq<u8>,
    now: u64,
    held: Seq<ProjectView>,
)
    requires
        decoding(bytes) == Ok::<Seq<ProjectView>, Option<int>>(held),
    ensures
        shown_at_once(ttl, modified, Some(bytes), now) == Ok::<
            (Seq<ProjectView>, bool),
            Option<int>,
        >((held, !is_fresh(ttl, modified, now) || held.len() == 0)),
{
}

} // verus!
