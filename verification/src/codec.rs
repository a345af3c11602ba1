//! The bytes of a cache file: a list of projects as bincode writes a list
//! of plain records, and back.

use vstd::prelude::*;
use crate::models::{views, Project, ProjectList, ProjectSource, ProjectView};
use crate::search::{first_index, lemma_first_index_is};
use crate::text::opt_text;
use crate::timestamp::Timestamp;

verus! {

/// A project as the cache file holds it: name, path, time of last
/// modification as seconds and nanoseconds, the number of its source, and
/// the two repository addresses.
pub type Record = (String, String, Option<(i64, u32)>, u32, Option<String>, Option<String>);

/// A record with its texts as sequences of characters.
pub type RecordView = (
    Seq<char>,
    Seq<char>,
    Option<(i64, u32)>,
    u32,
    Option<Seq<char>>,
    Option<Seq<char>>,
);

/// The view of one record.
pub open spec fn record_view(r: Record) -> RecordView {
    (r.0@, r.1@, r.2, r.3, opt_text(r.4), opt_text(r.5))
}

/// The views of a sequence of records.
pub open spec fn record_views(s: Seq<Record>) -> Seq<RecordView> {
    s.map_values(|r: Record| record_view(r))
}

/// The bytes that `bincode::serialize` writes for a list of records.
pub uninterp spec fn bincode_bytes(records: Seq<RecordView>) -> Seq<u8>;

/// The list of records that `bincode::deserialize` reads from `bytes`, or
/// `None` where it reports an error.
pub uninterp spec fn bincode_records(bytes: Seq<u8>) -> Option<Seq<RecordView>>;

/// The error of bincode, `bincode::ErrorKind`, carried through as it is:
/// nothing is known of what one holds.
#[verifier::external_type_specification]
#[verifier::external_body]
pub struct ExBincodeErrorKind(bincode::ErrorKind);

/// Calls `bincode::serialize` on the records. The call succeeds, and the
/// bytes are the ones named `bincode_bytes`. It succeeds because bincode
/// writes into a vector of its own, under no limit of size, and fails
/// otherwise only on a sequence without a length, which a `Vec` never is.
#[verifier::external_body]
fn bincode_serialize(records: &Vec<Record>) -> (r: Result<Vec<u8>, Box<bincode::ErrorKind>>)
    ensures
        r is Ok,
        r matches Ok(bytes) ==> bytes@ == bincode_bytes(record_views(records@)),
{
    bincode::serialize(records)
}

/// Calls `bincode::deserialize` for a list of records. The contract names
/// what it read, and says that an error is the `None` of that name.
#[verifier::external_body]
fn bincode_deserialize(bytes: &[u8]) -> (r: Result<Vec<Record>, Box<bincode::ErrorKind>>)
    ensures
        match r {
            Ok(records) => bincode_records(bytes@) == Some(record_views(records@)),
            Err(_) => bincode_records(bytes@) is None,
        },
{
    bincode::deserialize(bytes)
}

/// Calls `to_string` on a bincode error, for the message of the library's
/// own error. Nothing is claimed of the text.
#[verifier::external_body]
fn bincode_error_text(e: &Box<bincode::ErrorKind>) -> (r: String) {
    e.to_string()
}

/// Why a list of projects could not be written to bytes or read from them.
#[derive(Debug)]
pub enum CodecError {
    /// The projects could not be written to bytes; the text says why.
    Encode(String),
    /// The bytes are not a list of records; the text says why.
    Malformed(String),
    /// The record at this position names no source.
    InvalidRecord(usize),
}

/// The number that stands for a source in a record.
pub open spec fn source_number(source: ProjectSource) -> u32 {
    match source {
        ProjectSource::Local => 0,
        ProjectSource::Cursor => 1,
        ProjectSource::GitHub => 2,
        ProjectSource::GitLab => 3,
    }
}

/// The source that a number stands for, if any.
pub open spec fn source_numbered(n: u32) -> Option<ProjectSource> {
    if n == 0 {
        Some(ProjectSource::Local)
    } else if n == 1 {
        Some(ProjectSource::Cursor)
    } else if n == 2 {
        Some(ProjectSource::GitHub)
    } else if n == 3 {
        Some(ProjectSource::GitLab)
    } else {
        None
    }
}

/// The record that holds a project.
pub open spec fn to_record(p: ProjectView) -> RecordView {
    (
        p.name,
        p.path,
        match p.last_modified {
            Some(t) => Some((t.secs, t.nanos)),
            None => None,
        },
        source_number(p.source),
        p.github_url,
        p.gitlab_url,
    )
}

/// The project that a record holds, if its source number is one.
pub open spec fn from_record(r: RecordView) -> Option<ProjectView> {
    match source_numbered(r.3) {
        Some(source) => Some(
            ProjectView {
                name: r.0,
                path: r.1,
                last_modified: match r.2 {
                    Some((secs, nanos)) => Some(Timestamp { secs, nanos }),
                    None => None,
                },
                source,
                github_url: r.4,
                gitlab_url: r.5,
            },
        ),
        None => None,
    }
}

/// The records that hold the projects of `s`.
pub open spec fn to_records(s: Seq<ProjectView>) -> Seq<RecordView> {
    s.map_values(|p: ProjectView| to_record(p))
}

/// The test that a record passes when it holds no project.
pub open spec fn holds_no_project() -> spec_fn(RecordView) -> bool {
    |r: RecordView| from_record(r) is None
}

/// The position of the first record of `s` that holds no project, or the
/// length of `s` where each holds one.
pub open spec fn first_invalid(s: Seq<RecordView>) -> int {
    first_index(s, holds_no_project())
}

/// The projects that the records of `s` hold; only meant where each holds
/// one.
pub open spec fn from_records(s: Seq<RecordView>) -> Seq<ProjectView> {
    s.map_values(|r: RecordView| from_record(r).unwrap())
}

/// The bytes of a cache file that holds the projects of `s`.
pub open spec fn encoding(s: Seq<ProjectView>) -> Seq<u8> {
    bincode_bytes(to_records(s))
}

/// What a cache file with these bytes holds.
pub open spec fn decoding(bytes: Seq<u8>) -> Result<Seq<ProjectView>, Option<int>> {
    match bincode_records(bytes) {
        None => Err(None),
        Some(records) => if first_invalid(records) < records.len() {
            Err(Some(first_invalid(records)))
        } else {
            Ok(from_records(records))
        },
    }
}

/// The number that stands for a source in a record.
pub fn source_index(source: ProjectSource) -> (n: u32)
    ensures
        n == source_number(source),
{
    match source {
        ProjectSource::Local => 0,
        ProjectSource::Cursor => 1,
        ProjectSource::GitHub => 2,
        ProjectSource::GitLab => 3,
    }
}

/// The source that a number stands for, if any.
pub fn source_of_index(n: u32) -> (r: Option<ProjectSource>)
    ensures
        r == source_numbered(n),
{
    if n == 0 {
        Some(ProjectSource::Local)
    } else if n == 1 {
        Some(ProjectSource::Cursor)
    } else if n == 2 {
        Some(ProjectSource::GitHub)
    } else if n == 3 {
        Some(ProjectSource::GitLab)
    } else {
        None
    }
}

/// The record that holds `p`.
pub fn record_of(p: &Project) -> (r: Record)
    ensures
        record_view(r) == to_record(p@),
{
    let copy = p.clone();
    let time = match copy.last_modified {
        Some(t) => Some((t.secs, t.nanos)),
        None => None,
    };
    (copy.name, copy.path, time, source_index(copy.source), copy.github_url, copy.gitlab_url)
}

/// The project that `r` holds, if its source number is one.
pub fn project_of(r: Record) -> (p: Option<Project>)
    ensures
        match p {
            Some(project) => from_record(record_view(r)) == Some(project@),
            None => from_record(record_view(r)) is None,
        },
{
    let (name, path, time, number, github_url, gitlab_url) = r;
    match source_of_index(number) {
        Some(source) => {
            let last_modified = match time {
                Some((secs, nanos)) => Some(Timestamp { secs, nanos }),
                None => None,
            };
            Some(Project { name, path, last_modified, source, github_url, gitlab_url })
        },
        None => None,
    }
}

/// Every project is the one that its record holds.
pub proof fn lemma_record_round_trip(p: ProjectView)
    ensures
        from_record(to_record(p)) == Some(p),
{
}

/// The records of a list of projects hold that list: none of them is
/// invalid, and reading them gives the projects back, field for field.
pub proof fn lemma_records_round_trip(s: Seq<ProjectView>)
    ensures
        first_invalid(to_records(s)) == s.len(),
        from_records(to_records(s)) == s,
{
    let r = to_records(s);
    let invalid = holds_no_project();
    assert forall|k: int| 0 <= k < r.len() implies !invalid(#[trigger] r[k]) by {
        lemma_record_round_trip(s[k]);
    }
    lemma_first_index_is(r, invalid, r.len() as int);
    assert forall|i: int| 0 <= i < s.len() implies from_records(r)[i] == s[i] by {
        lemma_record_round_trip(s[i]);
    }
    assert(from_records(r) =~= s);
}

/// Writes the projects of `list` to the bytes of a cache file. Every list
/// can be written.
pub fn encode_projects(list: &ProjectList) -> (r: Result<Vec<u8>, CodecError>)
    ensures
        r matches Ok(bytes) && bytes@ == encoding(list@),
{
    let projects = list.projects();
    let mut records: Vec<Record> = Vec::new();
    let mut i: usize = 0;
    while i < projects.len()
        invariant
            i <= projects.len(),
            views(projects@) == list@,
            record_views(records@) == to_records(list@.take(i as int)),
        decreases projects.len() - i,
    {
        let ghost prev = records@;
        let rec = record_of(&projects[i]);
        records.push(rec);
        proof {
            assert(views(projects@)[i as int] == projects@[i as int]@);
            assert(record_views(records@) =~= record_views(prev).push(record_view(rec)));
            assert(list@.take(i + 1) =~= list@.take(i as int).push(list@[i as int]));
            assert(to_records(list@.take(i + 1)) =~= to_records(list@.take(i as int)).push(
                to_record(list@[i as int]),
            ));
        }
        i = i + 1;
    }
    assert(list@.take(i as int) =~= list@);
    match bincode_serialize(&records) {
        Ok(bytes) => Ok(bytes),
        Err(e) => Err(CodecError::Encode(bincode_error_text(&e))),
    }
}

/// Reads the projects that the bytes of a cache file hold. Bytes that are
/// no list of records, and a record that names no source, are errors.
pub fn decode_projects(bytes: &[u8]) -> (r: Result<ProjectList, CodecError>)
    ensures
        match r {
            Ok(list) => decoding(bytes@) == Ok::<Seq<ProjectView>, Option<int>>(list@),
            Err(CodecError::Malformed(_)) => decoding(bytes@) == Err::<
                Seq<ProjectView>,
                Option<int>,
            >(None),
            Err(CodecError::InvalidRecord(at)) => decoding(bytes@) == Err::<
                Seq<ProjectView>,
                Option<int>,
            >(Some(at as int)),
            Err(CodecError::Encode(_)) => false,
        },
{
    let records = match bincode_deserialize(bytes) {
        Ok(records) => records,
        Err(e) => {
            return Err(CodecError::Malformed(bincode_error_text(&e)));
        },
    };
    let ghost all = record_views(records@);
    let ghost invalid = holds_no_project();
    let n = records.len();
    let mut list = ProjectList::new();
    let mut i: usize = 0;
    assert(all.take(0) =~= Seq::<RecordView>::empty());
    assert(from_records(all.take(0)) =~= Seq::<ProjectView>::empty());
    for rec in it: records
        invariant
            n == it.seq().len(),
            i == it.index(),
            i <= n,
            all == record_views(it.seq()),
            invalid == holds_no_project(),
            bincode_records(bytes@) == Some(all),
            forall|k: int| 0 <= k < i ==> !invalid(#[trigger] all[k]),
            list@ == from_records(all.take(i as int)),
    {
        proof {
            assert(all[i as int] == record_view(rec));
        }
        match project_of(rec) {
            Some(project) => {
                list.add_project(project);
                proof {
                    assert(all.take(i + 1) =~= all.take(i as int).push(all[i as int]));
                    assert(from_records(all.take(i + 1)) =~= from_records(all.take(i as int)).push(
                        project@,
                    ));
                }
            },
            None => {
                proof {
                    assert(invalid(all[i as int]));
                    lemma_first_index_is(all, invalid, i as int);
                }
                return Err(CodecError::InvalidRecord(i));
            },
        }
        i = i + 1;
    }
    proof {
        assert(all.take(n as int) =~= all);
        lemma_first_index_is(all, invalid, n as int);
    }
    Ok(list)
}

} // verus!
