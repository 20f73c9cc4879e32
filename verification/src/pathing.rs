//! Path handling on plain strings. A path's file name is its last textual
//! component: everything after the last `/` once trailing slashes are
//! dropped, and nothing at all when that component is `.` or `..`. The
//! extension is everything after the last `.` of the file name, provided
//! that dot is neither the first character of the file name nor absent.
//! These rules match the usual Unix reading wherever the last component is
//! written out plainly; unlike the standard path type, no component in the
//! middle of the path is normalized away.

use vstd::prelude::*;
use crate::strings::str_eq;

verus! {

/// Spec: index of the last occurrence of `c` in `s`, or -1 when absent.
pub open spec fn find_last(s: Seq<char>, c: char) -> int
    decreases s.len(),
{
    if s.len() == 0 {
        -1
    } else if s.last() == c {
        s.len() - 1
    } else {
        find_last(s.drop_last(), c)
    }
}

/// `find_last` names the greatest index holding `c`, or -1 when `c` is absent.
pub proof fn lemma_find_last(s: Seq<char>, c: char)
    ensures
        find_last(s, c) == -1 || (0 <= find_last(s, c) < s.len()),
        find_last(s, c) == -1 ==> forall|j: int| 0 <= j < s.len() ==> s[j] != c,
        find_last(s, c) >= 0 ==> s[find_last(s, c)] == c,
        find_last(s, c) >= 0 ==> forall|j: int| find_last(s, c) < j < s.len() ==> s[j] != c,
    decreases s.len(),
{
    if s.len() > 0 && s.last() != c {
        lemma_find_last(s.drop_last(), c);
        assert(forall|j: int| 0 <= j < s.len() - 1 ==> s[j] == s.drop_last()[j]);
    }
}

/// If `s[i] == c` and nothing after `i` is `c`, then `i` is the last occurrence.
pub proof fn lemma_find_last_unique(s: Seq<char>, c: char, i: int)
    requires
        0 <= i < s.len(),
        s[i] == c,
        forall|j: int| i < j < s.len() ==> s[j] != c,
    ensures
        find_last(s, c) == i,
    decreases s.len(),
{
    if s.last() != c {
        lemma_find_last_unique(s.drop_last(), c, i);
    }
}

/// Spec: the string without its trailing `/` characters.
pub open spec fn strip_trailing_slashes(s: Seq<char>) -> Seq<char>
    decreases s.len(),
{
    if s.len() > 0 && s.last() == '/' {
        strip_trailing_slashes(s.drop_last())
    } else {
        s
    }
}

/// Spec: the file name of a path: the part after the last `/` once
/// trailing slashes are dropped, and empty when that component is the
/// current- or parent-directory name.
pub open spec fn file_name_spec(path: Seq<char>) -> Seq<char> {
    let t = strip_trailing_slashes(path);
    let comp = t.subrange(find_last(t, '/') + 1, t.len() as int);
    if comp == "."@ || comp == ".."@ {
        Seq::empty()
    } else {
        comp
    }
}

/// Spec: the extension of a path, everything after the last `.` of the file
/// name, provided that dot exists and does not start the file name.
pub open spec fn ext_of_spec(path: Seq<char>) -> Option<Seq<char>> {
    let name = file_name_spec(path);
    let d = find_last(name, '.');
    if d > 0 {
        Some(name.subrange(d + 1, name.len() as int))
    } else {
        None
    }
}

/// Spec: the stem of a path's file name, everything before its extension.
pub open spec fn file_stem_spec(path: Seq<char>) -> Seq<char> {
    let name = file_name_spec(path);
    let d = find_last(name, '.');
    if d > 0 {
        name.subrange(0, d)
    } else {
        name
    }
}

/// Spec: directory join; a single `/` separates the parts unless the
/// directory is empty or already ends with one.
pub open spec fn join_path_spec(dir: Seq<char>, name: Seq<char>) -> Seq<char> {
    if dir.len() == 0 {
        name
    } else if dir.last() == '/' {
        dir + name
    } else {
        dir + seq!['/'] + name
    }
}

/// Index of the last occurrence of `c` in `s`.
pub fn find_last_char(s: &str, c: char) -> (r: Option<usize>)
    ensures
        match r {
            Some(i) => find_last(s@, c) == i as int,
            None => find_last(s@, c) == -1,
        },
{
    let n: usize = s.unicode_len();
    let mut i: usize = n;
    while i > 0
        invariant
            n == s@.len(),
            i <= n,
            forall|j: int| i <= j < n ==> s@[j] != c,
        decreases i,
    {
        i = i - 1;
        if s.get_char(i) == c {
            proof {
                lemma_find_last_unique(s@, c, i as int);
            }
            return Some(i);
        }
    }
    proof {
        lemma_find_last(s@, c);
        if find_last(s@, c) >= 0 {
            assert(s@[find_last(s@, c)] == c);
        }
    }
    None
}

/// The file name of a path.
pub fn file_name_of<'a>(path: &'a str) -> (r: &'a str)
    ensures
        r@ == file_name_spec(path@),
{
    let n: usize = path.unicode_len();
    let mut end: usize = n;
    proof {
        assert(path@.subrange(0, n as int) =~= path@);
    }
    while end > 0 && path.get_char(end - 1) == '/'
        invariant
            n == path@.len(),
            end <= n,
            strip_trailing_slashes(path@) == strip_trailing_slashes(
                path@.subrange(0, end as int),
            ),
        decreases end,
    {
        end = end - 1;
        proof {
            let prev = path@.subrange(0, end + 1);
            assert(prev.last() == '/');
            assert(prev.drop_last() =~= path@.subrange(0, end as int));
        }
    }
    let trimmed = path.substring_char(0, end);
    proof {
        assert(strip_trailing_slashes(trimmed@) == trimmed@);
        lemma_find_last(trimmed@, '/');
    }
    let comp = match find_last_char(trimmed, '/') {
        Some(i) => trimmed.substring_char(i + 1, end),
        None => {
            proof {
                assert(trimmed@.subrange(0, end as int) =~= trimmed@);
            }
            trimmed
        },
    };
    if str_eq(comp, ".") || str_eq(comp, "..") {
        let empty = path.substring_char(0, 0);
        proof {
            assert(empty@ =~= Seq::<char>::empty());
        }
        empty
    } else {
        comp
    }
}

/// The extension of a path, when its file name has one.
pub fn extension_of<'a>(path: &'a str) -> (r: Option<&'a str>)
    ensures
        match r {
            Some(e) => ext_of_spec(path@) == Some(e@),
            None => ext_of_spec(path@) is None,
        },
{
    let name = file_name_of(path);
    let n: usize = name.unicode_len();
    proof {
        lemma_find_last(name@, '.');
    }
    match find_last_char(name, '.') {
        Some(d) => {
            if d > 0 {
                Some(name.substring_char(d + 1, n))
            } else {
                None
            }
        },
        None => None,
    }
}

/// The stem of a path's file name.
pub fn file_stem_of<'a>(path: &'a str) -> (r: &'a str)
    ensures
        r@ == file_stem_spec(path@),
{
    let name = file_name_of(path);
    proof {
        lemma_find_last(name@, '.');
    }
    match find_last_char(name, '.') {
        Some(d) => {
            if d > 0 {
                name.substring_char(0, d)
            } else {
                name
            }
        },
        None => name,
    }
}

/// Joins a directory and a file name with a single `/`.
pub fn join_path(dir: &str, name: &str) -> (r: String)
    ensures
        r@ == join_path_spec(dir@, name@),
{
    let n: usize = dir.unicode_len();
    if n == 0 {
        return String::from_str(name);
    }
    let mut out = String::from_str(dir);
    if dir.get_char(n - 1) != '/' {
        push_sep(&mut out);
    }
    out.append(name);
    out
}

/// Appends the path separator.
fn push_sep(s: &mut String)
    ensures
        final(s)@ == old(s)@ + seq!['/'],
{
    crate::strings::push_char(s, '/');
}

} // verus!
