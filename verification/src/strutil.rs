//! Verified string helpers: equality, prefix test, last-occurrence search,
//! and the path model (file name, extension, stem) the planner is built on.

use vstd::prelude::*;

verus! {

/// The views of a sequence of owned strings, one character sequence each.
pub open spec fn string_views(strings: Seq<String>) -> Seq<Seq<char>> {
    strings.map_values(|s: String| s@)
}

/// Character-for-character equality of two string slices.
pub fn str_eq(a: &str, b: &str) -> (eq: bool)
    ensures
        eq == (a@ == b@),
{
    let a_len = a.unicode_len();
    let b_len = b.unicode_len();
    if a_len != b_len {
        return false;
    }
    let mut i: usize = 0;
    while i < a_len
        invariant
            0 <= i <= a_len,
            a_len == a@.len(),
            a_len == b@.len(),
            forall|j: int| 0 <= j < i ==> a@[j] == b@[j],
        decreases a_len - i,
    {
        if a.get_char(i) != b.get_char(i) {
            return false;
        }
        i += 1;
    }
    proof {
        assert(a@ =~= b@);
    }
    true
}

/// `prefix` is an initial segment of `s`.
pub open spec fn spec_starts_with(s: Seq<char>, prefix: Seq<char>) -> bool {
    prefix.len() <= s.len() && s.subrange(0, prefix.len() as int) == prefix
}

/// Prefix test on string slices.
pub fn starts_with(s: &str, prefix: &str) -> (r: bool)
    ensures
        r == spec_starts_with(s@, prefix@),
{
    let p_len = prefix.unicode_len();
    let s_len = s.unicode_len();
    if p_len > s_len {
        proof {
            assert(!spec_starts_with(s@, prefix@));
        }
        return false;
    }
    let mut i: usize = 0;
    while i < p_len
        invariant
            0 <= i <= p_len,
            p_len == prefix@.len(),
            s_len == s@.len(),
            p_len <= s_len,
            forall|j: int| 0 <= j < i ==> s@[j] == prefix@[j],
        decreases p_len - i,
    {
        if s.get_char(i) != prefix.get_char(i) {
            proof {
                assert(s@.subrange(0, prefix@.len() as int)[i as int] != prefix@[i as int]);
            }
            return false;
        }
        i += 1;
    }
    proof {
        assert(s@.subrange(0, prefix@.len() as int) =~= prefix@);
    }
    true
}

/// Index of the last occurrence of `c` in `s`, or `-1` when `c` does not
/// occur.
pub open spec fn spec_last_index_of(s: Seq<char>, c: char) -> int
    decreases s.len(),
{
    if s.len() == 0 {
        -1
    } else if s[s.len() - 1] == c {
        s.len() - 1
    } else {
        spec_last_index_of(s.drop_last(), c)
    }
}

/// What `spec_last_index_of` returns: either `-1` and `c` does not occur, or
/// the greatest index at which `c` stands.
pub proof fn lemma_last_index_of(s: Seq<char>, c: char)
    ensures
        spec_last_index_of(s, c) == -1 ==> forall|i: int| 0 <= i < s.len() ==> s[i] != c,
        spec_last_index_of(s, c) != -1 ==> {
            let r = spec_last_index_of(s, c);
            &&& 0 <= r < s.len()
            &&& s[r] == c
            &&& forall|i: int| r < i < s.len() ==> s[i] != c
        },
    decreases s.len(),
{
    if s.len() > 0 {
        lemma_last_index_of(s.drop_last(), c);
        if s[s.len() - 1] != c {
            assert(forall|i: int| 0 <= i < s.len() - 1 ==> s[i] == s.drop_last()[i]);
        }
    }
}

/// Finds the last occurrence of `c` in `s`, scanning from the end.
pub fn last_index_of(s: &str, c: char) -> (r: Option<usize>)
    ensures
        match r {
            Some(i) => i == spec_last_index_of(s@, c) && i < s@.len(),
            None => spec_last_index_of(s@, c) == -1,
        },
{
    let len = s.unicode_len();
    let mut i: usize = len;
    proof {
        lemma_last_index_of(s@, c);
    }
    while i > 0
        invariant
            0 <= i <= len,
            len == s@.len(),
            forall|j: int| i <= j < len ==> s@[j] != c,
            spec_last_index_of(s@, c) == -1 ==> forall|j: int| 0 <= j < s@.len() ==> s@[j] != c,
            spec_last_index_of(s@, c) != -1 ==> {
                let r = spec_last_index_of(s@, c);
                &&& 0 <= r < s@.len()
                &&& s@[r] == c
                &&& forall|j: int| r < j < s@.len() ==> s@[j] != c
            },
        decreases i,
    {
        i -= 1;
        if s.get_char(i) == c {
            return Some(i);
        }
    }
    None
}

/// The final component of a path: everything after the last separator, the
/// whole path when no separator occurs.
pub open spec fn spec_file_name(path: Seq<char>) -> Seq<char> {
    path.subrange(spec_last_index_of(path, '/') + 1, path.len() as int)
}

/// The extension of a path: what follows the last dot of its file name.
/// `None` when the file name has no dot, or only a leading one (a hidden
/// file is not an extension).
pub open spec fn spec_extension(path: Seq<char>) -> Option<Seq<char>> {
    let name = spec_file_name(path);
    let dot = spec_last_index_of(name, '.');
    if dot <= 0 {
        None
    } else {
        Some(name.subrange(dot + 1, name.len() as int))
    }
}

/// The stem of a path's file name: the file name with its extension and the
/// dot before it removed; the whole file name when there is no extension.
pub open spec fn spec_file_stem(path: Seq<char>) -> Seq<char> {
    let name = spec_file_name(path);
    let dot = spec_last_index_of(name, '.');
    if dot <= 0 {
        name
    } else {
        name.subrange(0, dot)
    }
}

/// The final component of `path`, as a borrowed slice.
pub fn file_name(path: &str) -> (name: &str)
    ensures
        name@ == spec_file_name(path@),
{
    let len = path.unicode_len();
    proof {
        lemma_last_index_of(path@, '/');
    }
    match last_index_of(path, '/') {
        Some(i) => path.substring_char(i + 1, len),
        None => {
            proof {
                assert(path@.subrange(0, path@.len() as int) =~= path@);
            }
            path
        },
    }
}

/// The extension of `path`, as a borrowed slice of its file name.
pub fn extension(path: &str) -> (ext: Option<&str>)
    ensures
        match ext {
            Some(e) => spec_extension(path@) == Some(e@),
            None => spec_extension(path@) is None,
        },
{
    let name = file_name(path);
    let len = name.unicode_len();
    proof {
        lemma_last_index_of(name@, '.');
    }
    match last_index_of(name, '.') {
        Some(i) => {
            if i == 0 {
                None
            } else {
                Some(name.substring_char(i + 1, len))
            }
        },
        None => None,
    }
}

/// The stem of `path`'s file name, as a borrowed slice.
pub fn file_stem(path: &str) -> (stem: &str)
    ensures
        stem@ == spec_file_stem(path@),
{
    let name = file_name(path);
    let len = name.unicode_len();
    proof {
        lemma_last_index_of(name@, '.');
    }
    match last_index_of(name, '.') {
        Some(i) => {
            if i == 0 {
                proof {
                    assert(name@.subrange(0, name@.len() as int) =~= name@);
                }
                name
            } else {
                name.substring_char(0, i)
            }
        },
        None => {
            proof {
                assert(name@.subrange(0, name@.len() as int) =~= name@);
            }
            name
        },
    }
}

/// Membership of a string among the views of a list of owned strings.
pub fn contains_str(haystack: &Vec<String>, needle: &str) -> (found: bool)
    ensures
        found == string_views(haystack@).contains(needle@),
{
    let mut i: usize = 0;
    while i < haystack.len()
        invariant
            0 <= i <= haystack@.len(),
            forall|j: int| 0 <= j < i ==> string_views(haystack@)[j] != needle@,
        decreases haystack@.len() - i,
    {
        if str_eq(haystack[i].as_str(), needle) {
            proof {
                assert(string_views(haystack@)[i as int] == needle@);
            }
            return true;
        }
        i += 1;
    }
    proof {
        assert(forall|j: int|
            0 <= j < string_views(haystack@).len() ==> string_views(haystack@)[j] != needle@);
    }
    false
}

} // verus!
