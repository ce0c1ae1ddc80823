//! File-system path operations on path strings (Unix paths, `/` as separator).
//!
//! These follow `std::path::Path` on Unix. `parent` calls `Path::parent` and is named by
//! `path_parent`; the others are written out here.

use vstd::prelude::*;
use crate::text::{append_str, ends_with_str, owned, push_char, starts_with_str, string_from_chars, to_chars};

verus! {

/// What `Path::parent` returns for the path `p`.
pub uninterp spec fn path_parent(p: Seq<char>) -> Option<Seq<char>>;

/// `Path::new(p).parent()`, as a string.
///
/// Trusted: the result is what std's `Path::parent` gives for `p`: the path without its
/// final component (the empty path for a relative path of one component), and none when
/// `p` ends in the root or is empty. The result depends on `p` alone.
#[verifier::external_body]
pub(crate) fn parent(p: &str) -> (r: Option<String>)
    ensures
        match r {
            Some(s) => path_parent(p@) == Some(s@),
            None => path_parent(p@) is None,
        },
{
    match std::path::Path::new(p).parent() {
        Some(q) => match q.to_str() {
            Some(s) => Some(s.to_string()),
            None => None,
        },
        None => None,
    }
}

/// A path is absolute when it starts at the root `/`.
pub open spec fn spec_is_absolute(p: Seq<char>) -> bool {
    p.len() > 0 && p[0] == '/'
}

/// `base` joined with `name`: an absolute `name` replaces `base`; otherwise `name` is
/// appended, after a `/` when `base` is not empty and does not already end with one.
pub open spec fn spec_join(base: Seq<char>, name: Seq<char>) -> Seq<char> {
    if spec_is_absolute(name) {
        name
    } else if base.len() == 0 || base[base.len() - 1] == '/' {
        base + name
    } else {
        base + seq!['/'] + name
    }
}

/// Whether `p` is an absolute path.
pub fn is_absolute(p: &str) -> (r: bool)
    ensures
        r == spec_is_absolute(p@),
{
    let r = starts_with_str(p, "/");
    proof {
        reveal_strlit("/");
        if spec_is_absolute(p@) {
            assert(p@.subrange(0, 1) =~= "/"@);
        }
        if r {
            assert(p@.subrange(0, 1)[0] == p@[0]);
        }
    }
    r
}

/// `base` joined with `name` (as `Path::join` does on Unix).
pub fn join(base: &str, name: &str) -> (r: String)
    ensures
        r@ == spec_join(base@, name@),
{
    if is_absolute(name) {
        return owned(name);
    }
    let mut r = owned(base);
    let ends = ends_with_str(base, "/");
    proof {
        reveal_strlit("/");
        if base@.len() > 0 {
            if base@[base@.len() - 1] == '/' {
                assert(base@.subrange(base@.len() - 1, base@.len() as int) =~= "/"@);
            }
            if ends {
                assert(base@.subrange(base@.len() - 1, base@.len() as int)[0] == base@[base@.len() - 1]);
            }
        }
    }
    if !(base.is_empty() || ends) {
        push_char(&mut r, '/');
    }
    append_str(&mut r, name);
    r
}

/// Where the last segment of `p` starts: just after its last `/`, or 0.
pub open spec fn segment_start(p: Seq<char>) -> int
    decreases p.len(),
{
    if p.len() == 0 {
        0
    } else if p.last() == '/' {
        p.len() as int
    } else {
        segment_start(p.drop_last())
    }
}

/// Where the last segment starts, and that it holds no `/`.
pub proof fn lemma_segment_start(p: Seq<char>)
    ensures
        0 <= segment_start(p) <= p.len(),
        p.len() > 0 && p.last() != '/' ==> segment_start(p) < p.len(),
        segment_start(p) > 0 ==> p[segment_start(p) - 1] == '/',
        forall|k: int| segment_start(p) <= k < p.len() ==> p[k] != '/',
    decreases p.len(),
{
    if p.len() > 0 && p.last() != '/' {
        lemma_segment_start(p.drop_last());
        assert forall|k: int| segment_start(p) <= k < p.len() implies p[k] != '/' by {
            if k < p.len() - 1 {
                assert(p[k] == p.drop_last()[k]);
            }
        }
    }
}

/// The file name of `p` (as `Path::file_name` gives it): its last component when that is
/// a name. Trailing `/` and `.` components are skipped; `..`, the root and an empty path
/// have none.
pub open spec fn spec_file_name(p: Seq<char>) -> Option<Seq<char>>
    decreases p.len(),
{
    if p.len() == 0 {
        None
    } else if p.last() == '/' {
        spec_file_name(p.drop_last())
    } else {
        let start = segment_start(p);
        let seg = p.subrange(start, p.len() as int);
        if seg == seq!['.'] {
            if start <= 0 {
                None
            } else {
                proof {
                    lemma_segment_start(p);
                }
                spec_file_name(p.subrange(0, start - 1))
            }
        } else if seg == seq!['.', '.'] {
            None
        } else {
            Some(seg)
        }
    }
}

/// A file name is one plain component: not empty, without `/`, neither `.` nor `..`.
pub open spec fn is_plain_name(s: Seq<char>) -> bool {
    &&& s.len() > 0
    &&& forall|k: int| 0 <= k < s.len() ==> s[k] != '/'
    &&& s != seq!['.']
    &&& s != seq!['.', '.']
}

/// Whatever `spec_file_name` finds is a plain name.
pub proof fn lemma_file_name_is_plain(p: Seq<char>)
    ensures
        spec_file_name(p) matches Some(s) ==> is_plain_name(s),
    decreases p.len(),
{
    if p.len() == 0 {
    } else if p.last() == '/' {
        lemma_file_name_is_plain(p.drop_last());
    } else {
        lemma_segment_start(p);
        let start = segment_start(p);
        let seg = p.subrange(start, p.len() as int);
        if seg == seq!['.'] {
            if start > 0 {
                lemma_file_name_is_plain(p.subrange(0, start - 1));
            }
        } else if seg != seq!['.', '.'] {
            assert forall|k: int| 0 <= k < seg.len() implies seg[k] != '/' by {
                assert(seg[k] == p[start + k]);
            }
        }
    }
}

/// Where the final `.` of a file name stands (-1 when it has none).
pub open spec fn last_dot(f: Seq<char>) -> int
    decreases f.len(),
{
    if f.len() == 0 {
        -1
    } else if f.last() == '.' {
        f.len() - 1
    } else {
        last_dot(f.drop_last())
    }
}

/// The stem of a file name: the part before its final `.`, or the whole name when the
/// name has no `.` or only a leading one.
pub open spec fn name_stem(f: Seq<char>) -> Seq<char> {
    let d = last_dot(f);
    if d > 0 {
        f.subrange(0, d)
    } else {
        f
    }
}

/// The extension of a file name: the part after its final `.`, when that `.` does not
/// start the name.
pub open spec fn name_extension(f: Seq<char>) -> Option<Seq<char>> {
    let d = last_dot(f);
    if d > 0 {
        Some(f.subrange(d + 1, f.len() as int))
    } else {
        None
    }
}

/// The file stem of `p` (as `Path::file_stem` gives it).
pub open spec fn spec_file_stem(p: Seq<char>) -> Option<Seq<char>> {
    match spec_file_name(p) {
        Some(f) => Some(name_stem(f)),
        None => None,
    }
}

/// The extension of `p` (as `Path::extension` gives it).
pub open spec fn spec_extension(p: Seq<char>) -> Option<Seq<char>> {
    match spec_file_name(p) {
        Some(f) => name_extension(f),
        None => None,
    }
}

/// Where the final `.` stands, and that none follows it.
pub proof fn lemma_last_dot(f: Seq<char>)
    ensures
        -1 <= last_dot(f) < f.len(),
        last_dot(f) >= 0 ==> f[last_dot(f)] == '.',
        forall|k: int| last_dot(f) < k < f.len() ==> f[k] != '.',
    decreases f.len(),
{
    if f.len() > 0 && f.last() != '.' {
        lemma_last_dot(f.drop_last());
        assert forall|k: int| last_dot(f) < k < f.len() implies f[k] != '.' by {
            if k < f.len() - 1 {
                assert(f[k] == f.drop_last()[k]);
            }
        }
    }
}

/// Finds where the final `.` of `f` stands (none when there is none).
fn find_last_dot(f: &Vec<char>) -> (r: Option<usize>)
    ensures
        match r {
            Some(i) => i == last_dot(f@),
            None => last_dot(f@) == -1,
        },
{
    let mut i: usize = f.len();
    assert(f@.subrange(0, i as int) =~= f@);
    while i > 0
        invariant
            i <= f@.len(),
            last_dot(f@) == last_dot(f@.subrange(0, i as int)),
        decreases i,
    {
        let ghost pre = f@.subrange(0, i as int);
        assert(pre.drop_last() =~= f@.subrange(0, i - 1));
        if f[i - 1] == '.' {
            return Some(i - 1);
        }
        i -= 1;
    }
    None
}

/// Finds the file name of `p`: start and end (exclusive) of it among the characters `v`.
fn file_name_bounds(v: &Vec<char>) -> (r: Option<(usize, usize)>)
    ensures
        match r {
            Some((a, b)) => a <= b <= v@.len() && spec_file_name(v@) == Some(v@.subrange(a as int, b as int)),
            None => spec_file_name(v@) is None,
        },
{
    let mut end: usize = v.len();
    assert(v@.subrange(0, end as int) =~= v@);
    loop
        invariant
            end <= v@.len(),
            spec_file_name(v@) == spec_file_name(v@.subrange(0, end as int)),
        decreases end,
    {
        let ghost pre = v@.subrange(0, end as int);
        if end == 0 {
            return None;
        }
        if v[end - 1] == '/' {
            assert(pre.drop_last() =~= v@.subrange(0, end - 1));
            end -= 1;
        } else {
            let mut start: usize = end;
            while start > 0 && v[start - 1] != '/'
                invariant
                    start <= end <= v@.len(),
                    end > 0,
                    v@[end - 1] != '/',
                    segment_start(pre) == segment_start(v@.subrange(0, start as int)),
                    forall|k: int| start <= k < end ==> v@[k] != '/',
                decreases start,
            {
                assert(v@.subrange(0, start as int).drop_last() =~= v@.subrange(0, start - 1));
                start -= 1;
            }
            proof {
                lemma_segment_start(pre);
                if start > 0 {
                    assert(v@.subrange(0, start as int).last() == '/');
                }
            }
            assert(segment_start(pre) == start);
            let ghost seg = pre.subrange(start as int, end as int);
            assert(seg =~= v@.subrange(start as int, end as int));
            let len = end - start;
            let is_dot = len == 1 && v[start] == '.';
            let is_dotdot = len == 2 && v[start] == '.' && v[start + 1] == '.';
            proof {
                if len == 1 {
                    if v@[start as int] == '.' {
                        assert(seg =~= seq!['.']);
                    } else {
                        assert(seg[0] != seq!['.'][0]);
                    }
                } else {
                    assert(seg.len() != seq!['.'].len());
                }
                if len == 2 {
                    if v@[start as int] == '.' && v@[start + 1] == '.' {
                        assert(seg =~= seq!['.', '.']);
                    } else if v@[start as int] != '.' {
                        assert(seg[0] != seq!['.', '.'][0]);
                    } else {
                        assert(seg[1] != seq!['.', '.'][1]);
                    }
                } else {
                    assert(seg.len() != seq!['.', '.'].len());
                }
            }
            if is_dot {
                if start == 0 {
                    return None;
                }
                assert(pre.subrange(0, start - 1) =~= v@.subrange(0, start - 1));
                end = start - 1;
            } else if is_dotdot {
                return None;
            } else {
                return Some((start, end));
            }
        }
    }
}

/// The file name of `p`.
pub fn file_name(p: &str) -> (r: Option<String>)
    ensures
        match r {
            Some(s) => spec_file_name(p@) == Some(s@),
            None => spec_file_name(p@) is None,
        },
{
    let v = to_chars(p);
    match file_name_bounds(&v) {
        Some((a, b)) => Some(string_from_chars(&v, a, b)),
        None => None,
    }
}

/// The file stem of `p`.
pub fn file_stem(p: &str) -> (r: Option<String>)
    ensures
        match r {
            Some(s) => spec_file_stem(p@) == Some(s@),
            None => spec_file_stem(p@) is None,
        },
{
    let v = to_chars(p);
    match file_name_bounds(&v) {
        Some((a, b)) => {
            let name = string_from_chars(&v, a, b);
            let fv = to_chars(name.as_str());
            match find_last_dot(&fv) {
                Some(d) => {
                    if d > 0 {
                        proof { lemma_last_dot(fv@); }
                        Some(string_from_chars(&fv, 0, d))
                    } else {
                        Some(name)
                    }
                },
                None => Some(name),
            }
        },
        None => None,
    }
}

/// The extension of `p`.
pub fn extension(p: &str) -> (r: Option<String>)
    ensures
        match r {
            Some(s) => spec_extension(p@) == Some(s@),
            None => spec_extension(p@) is None,
        },
{
    let v = to_chars(p);
    match file_name_bounds(&v) {
        Some((a, b)) => {
            let name = string_from_chars(&v, a, b);
            let fv = to_chars(name.as_str());
            match find_last_dot(&fv) {
                Some(d) => {
                    if d > 0 {
                        proof { lemma_last_dot(fv@); }
                        Some(string_from_chars(&fv, d + 1, fv.len()))
                    } else {
                        None
                    }
                },
                None => None,
            }
        },
        None => None,
    }
}

} // verus!
