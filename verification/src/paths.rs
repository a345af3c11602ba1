//! Paths as texts with `/` between their parts: joining, and the name of
//! the last part.

use vstd::prelude::*;
use vstd::string::{StrSliceExecFns, StringExecFns};
use crate::text::chars_of;

verus! {

/// The path `rest` below `base`: `rest` itself where it starts at the root
/// or `base` is empty, else the two with one `/` between them.
pub open spec fn joined(base: Seq<char>, rest: Seq<char>) -> Seq<char> {
    if rest.len() > 0 && rest[0] == '/' {
        rest
    } else if base.len() == 0 {
        rest
    } else if base.last() == '/' {
        base + rest
    } else {
        base + seq!['/'] + rest
    }
}

/// Joins two paths.
pub fn join_path(base: &str, rest: &str) -> (r: String)
    ensures
        r@ == joined(base@, rest@),
{
    let b = chars_of(base);
    let t = chars_of(rest);
    if t.len() > 0 && t[0] == '/' {
        return String::from_str(rest);
    }
    if b.len() == 0 {
        return String::from_str(rest);
    }
    let mut out = String::from_str(base);
    if b[b.len() - 1] != '/' {
        proof {
            reveal_strlit("/");
            assert("/"@ =~= seq!['/']);
        }
        out.append("/");
    }
    out.append(rest);
    out
}

/// Where the last part of `s` ends, looking at the first `n` characters
/// only: trailing `/` and trailing parts that are a single dot do not
/// count.
pub open spec fn name_end(s: Seq<char>, n: int) -> int
    decreases n,
{
    if n <= 0 {
        0
    } else if s[n - 1] == '/' {
        name_end(s, n - 1)
    } else if n >= 2 && s[n - 1] == '.' && s[n - 2] == '/' {
        name_end(s, n - 2)
    } else {
        n
    }
}

/// Where the part that ends at `n` starts: behind the last `/` before `n`.
pub open spec fn name_start(s: Seq<char>, n: int) -> int
    decreases n,
{
    if n <= 0 {
        0
    } else if s[n - 1] == '/' {
        n
    } else {
        name_start(s, n - 1)
    }
}

/// The last part of a path: `None` for a path without a part, and where
/// the part is `.` or `..`.
pub open spec fn last_part(s: Seq<char>) -> Option<Seq<char>> {
    let end = name_end(s, s.len() as int);
    let start = name_start(s, end);
    let part = s.subrange(start, end);
    if end == 0 || part == seq!['.'] || part == seq!['.', '.'] {
        None
    } else {
        Some(part)
    }
}

/// Finds where the last part of a path starts and ends.
pub fn last_part_bounds(v: &Vec<char>) -> (r: (usize, usize))
    ensures
        r.1 == name_end(v@, v@.len() as int),
        r.0 == name_start(v@, r.1 as int),
        r.0 <= r.1 <= v@.len(),
{
    let mut end: usize = v.len();
    loop
        invariant
            end <= v.len(),
            name_end(v@, v@.len() as int) == name_end(v@, end as int),
        ensures
            end <= v.len(),
            name_end(v@, v@.len() as int) == end,
        decreases end,
    {
        if end > 0 && v[end - 1] == '/' {
            end = end - 1;
        } else if end >= 2 && v[end - 1] == '.' && v[end - 2] == '/' {
            end = end - 2;
        } else {
            break;
        }
    }
    let mut start: usize = end;
    while start > 0 && v[start - 1] != '/'
        invariant
            start <= end,
            end <= v.len(),
            name_start(v@, end as int) == name_start(v@, start as int),
        decreases start,
    {
        start = start - 1;
    }
    (start, end)
}

/// The name of the directory or file that a path leads to, as
/// `Path::file_name` gives it for a path of texts with `/` between them.
pub fn file_name(path: &str) -> (r: Option<String>)
    ensures
        match r {
            Some(name) => last_part(path@) == Some(name@),
            None => last_part(path@) is None,
        },
{
    let v = chars_of(path);
    let (start, end) = last_part_bounds(&v);
    if end == 0 {
        return None;
    }
    let ghost part = path@.subrange(start as int, end as int);
    if end - start == 1 && v[start] == '.' {
        assert(part =~= seq!['.']);
        return None;
    }
    if end - start == 2 && v[start] == '.' && v[start + 1] == '.' {
        assert(part =~= seq!['.', '.']);
        return None;
    }
    proof {
        if part == seq!['.'] {
            assert(part.len() == 1);
            assert(part[0] == '.');
        }
        if part == seq!['.', '.'] {
            assert(part.len() == 2);
            assert(part[0] == '.' && part[1] == '.');
        }
    }
    let name = path.substring_char(start, end);
    Some(String::from_str(name))
}

/// True when the last part of the path starts with a dot.
pub open spec fn is_hidden_path(s: Seq<char>) -> bool {
    match last_part(s) {
        Some(name) => name.len() > 0 && name[0] == '.',
        None => false,
    }
}

/// Tells whether a path leads to a hidden directory: one whose name starts
/// with a dot.
pub fn is_hidden_directory(path: &str) -> (r: bool)
    ensures
        r == is_hidden_path(path@),
{
    match file_name(path) {
        Some(name) => {
            let v = chars_of(name.as_str());
            v.len() > 0 && v[0] == '.'
        },
        None => false,
    }
}

/// The name that a project at `path` gets: the last part of the path, or
/// `unknown` where it has none.
pub open spec fn project_name_of(path: Seq<char>) -> Seq<char> {
    match last_part(path) {
        Some(name) => name,
        None => "unknown"@,
    }
}

/// The name that a project at `path` gets.
pub fn project_name(path: &str) -> (r: String)
    ensures
        r@ == project_name_of(path@),
{
    match file_name(path) {
        Some(name) => name,
        None => String::from_str("unknown"),
    }
}

} // verus!
