use vstd::prelude::*;

verus! {

/// Why no file name could be taken from a path.
#[derive(Clone, Copy, Debug, PartialEq, Eq, Structural)]
pub enum PathError {
    /// Nothing exists at the path.
    Missing,
    /// The path has no final normal component (it is empty, a root, `.`, or ends in `..`).
    NoFileName,
}

/// Position of the last `c` in `s`, or -1 when `s` holds none.
pub open spec fn last_index_of(s: Seq<char>, c: char) -> int
    decreases s.len(),
{
    if s.len() == 0 {
        -1
    } else if s.last() == c {
        s.len() - 1
    } else {
        last_index_of(s.drop_last(), c)
    }
}

/// The characters after the last `/` of `p`.
pub open spec fn tail_segment(p: Seq<char>) -> Seq<char> {
    p.subrange(last_index_of(p, '/') + 1, p.len() as int)
}

/// The final component of a `/`-separated path: trailing separators and `.`
/// components are skipped; a path that ends in `..`, or has no component, has none.
pub open spec fn file_name_of(p: Seq<char>) -> Option<Seq<char>>
    decreases p.len(),
{
    if p.len() == 0 {
        None
    } else if p.last() == '/' {
        file_name_of(p.drop_last())
    } else if p == seq!['.'] {
        None
    } else if p.len() >= 2 && p.last() == '.' && p[p.len() - 2] == '/' {
        file_name_of(p.drop_last())
    } else if tail_segment(p) == seq!['.', '.'] {
        None
    } else {
        Some(tail_segment(p))
    }
}

/// The extension of a path: what follows the last `.` of its file name, where
/// that `.` is not the name's first character.
pub open spec fn extension_of(p: Seq<char>) -> Option<Seq<char>> {
    match file_name_of(p) {
        None => None,
        Some(f) => {
            let d = last_index_of(f, '.');
            if d > 0 {
                Some(f.subrange(d + 1, f.len() as int))
            } else {
                None
            }
        },
    }
}

proof fn lemma_last_index_of_is(s: Seq<char>, c: char, k: int)
    requires
        -1 <= k < s.len(),
        k >= 0 ==> s[k] == c,
        forall|i: int| k < i < s.len() ==> s[i] != c,
    ensures
        last_index_of(s, c) == k,
    decreases s.len(),
{
    if s.len() > 0 && s.last() != c {
        lemma_last_index_of_is(s.drop_last(), c, k);
    }
}

/// Where the file name of `path` lies, as a range of character positions.
fn file_name_range(path: &str) -> (r: Option<(usize, usize)>)
    ensures
        match r {
            Some((s, e)) => s < e <= path@.len() && file_name_of(path@) == Some(
                path@.subrange(s as int, e as int),
            ),
            None => file_name_of(path@) is None,
        },
{
    let n = path.unicode_len();
    let mut end: usize = n;
    assert(path@.subrange(0, n as int) =~= path@);
    loop
        invariant
            end <= n,
            n == path@.len(),
            file_name_of(path@) == file_name_of(path@.subrange(0, end as int)),
        ensures
            0 < end <= n,
            file_name_of(path@) == file_name_of(path@.subrange(0, end as int)),
            path@[end - 1] != '/',
            !(path@[end - 1] == '.' && end >= 2 && path@[end - 2] == '/'),
        decreases end,
    {
        if end == 0 {
            assert(path@.subrange(0, 0).len() == 0);
            return None;
        }
        let ghost q = path@.subrange(0, end as int);
        assert(q.drop_last() =~= path@.subrange(0, end - 1));
        let c = path.get_char(end - 1);
        if c == '/' {
            end = end - 1;
        } else if c == '.' && end >= 2 && path.get_char(end - 2) == '/' {
            assert(q.len() >= 2 && q[q.len() - 2] == '/');
            assert(q != seq!['.']);
            end = end - 1;
        } else {
            break;
        }
    }
    let ghost q = path@.subrange(0, end as int);
    let mut start: usize = end;
    loop
        invariant
            start <= end,
            end <= n,
            n == path@.len(),
            forall|i: int| start <= i < end ==> path@[i] != '/',
        ensures
            start <= end,
            forall|i: int| start <= i < end ==> path@[i] != '/',
            start == 0 || path@[start - 1] == '/',
        decreases start,
    {
        if start == 0 || path.get_char(start - 1) == '/' {
            break;
        }
        start = start - 1;
    }
    proof {
        lemma_last_index_of_is(q, '/', start - 1);
        assert(tail_segment(q) =~= path@.subrange(start as int, end as int));
    }
    if end - start == 1 && path.get_char(start) == '.' {
        proof {
            if start > 0 {
                assert(q[q.len() - 2] == '/');
            }
            assert(q =~= seq!['.']);
        }
        return None;
    }
    if end - start == 2 && path.get_char(start) == '.' && path.get_char(start + 1) == '.' {
        assert(tail_segment(q) =~= seq!['.', '.']);
        return None;
    }
    proof {
        if tail_segment(q) == seq!['.', '.'] {
            assert(tail_segment(q)[0] == path@[start as int]);
        }
        if q == seq!['.'] {
            assert(q.len() == 1);
        }
    }
    Some((start, end))
}

/// The file name of `path`, where `exists` tells whether anything exists there.
pub fn file_name_from_path(path: &str, exists: bool) -> (r: Result<String, PathError>)
    ensures
        !exists ==> r == Err::<String, PathError>(PathError::Missing),
        exists ==> match file_name_of(path@) {
            Some(f) => r is Ok && r->Ok_0@ == f,
            None => r == Err::<String, PathError>(PathError::NoFileName),
        },
{
    if !exists {
        return Err(PathError::Missing);
    }
    match file_name_range(path) {
        Some((s, e)) => Ok(path.substring_char(s, e).to_owned()),
        None => Err(PathError::NoFileName),
    }
}

/// The extension of `path`, if its file name has one.
pub fn file_extension_from_path(path: &str) -> (r: Option<&str>)
    ensures
        match r {
            Some(x) => extension_of(path@) == Some(x@),
            None => extension_of(path@) is None,
        },
{
    match file_name_range(path) {
        None => None,
        Some((s, e)) => {
            let ghost f = path@.subrange(s as int, e as int);
            let mut d: usize = e;
            loop
                invariant
                    s <= d <= e,
                    e <= path@.len(),
                    forall|i: int| d <= i < e ==> path@[i] != '.',
                ensures
                    s <= d <= e,
                    forall|i: int| d <= i < e ==> path@[i] != '.',
                    d == s || path@[d - 1] == '.',
                decreases d,
            {
                if d == s || path.get_char(d - 1) == '.' {
                    break;
                }
                d = d - 1;
            }
            proof {
                lemma_last_index_of_is(f, '.', d - s - 1);
            }
            if d - s >= 2 {
                assert(f.subrange(d - s, f.len() as int) =~= path@.subrange(d as int, e as int));
                Some(path.substring_char(d, e))
            } else {
                None
            }
        },
    }
}

} // verus!
