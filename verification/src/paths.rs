//! A plain-string model of filesystem paths.
//!
//! A path is an ordinary string; its components are separated by `/`. The
//! final component is the file name, the part of the file name after its
//! last dot is the extension, and the part before that dot is the stem.
//! A file name whose only dot is its first character (a hidden file) has no
//! extension, and its stem is the whole name. Paths are taken as already
//! normalized: no trailing separator and no `..` component.

use vstd::prelude::*;

verus! {

/// Index of the last occurrence of `c` in `s`, or `-1` when `c` does not
/// occur.
pub open spec fn last_index_of(s: Seq<char>, c: char) -> int
    decreases s.len(),
{
    if s.len() == 0 {
        -1
    } else if s.last() == c {
        s.len() - 1
    } else {
        last_index_of(s.drop_last(), c)
    }
}

/// What `last_index_of` returns: an in-range index of `c` after which `c`
/// does not occur again, at or after every occurrence of `c`; or `-1`, and
/// then `c` does not occur at all.
pub proof fn lemma_last_index_of_props(s: Seq<char>, c: char)
    ensures
        -1 <= last_index_of(s, c) < s.len(),
        last_index_of(s, c) >= 0 ==> s[last_index_of(s, c)] == c,
        forall|j: int| last_index_of(s, c) < j < s.len() ==> s[j] != c,
        forall|j: int| 0 <= j < s.len() && s[j] == c ==> last_index_of(s, c) >= j,
    decreases s.len(),
{
    if s.len() > 0 && s.last() != c {
        lemma_last_index_of_props(s.drop_last(), c);
        assert(forall|j: int| 0 <= j < s.len() - 1 ==> s[j] == s.drop_last()[j]);
    }
}

/// The final `/`-separated component of `p` (the whole of `p` when it has
/// no separator).
pub open spec fn file_name_spec(p: Seq<char>) -> Seq<char> {
    p.subrange(last_index_of(p, '/') + 1, p.len() as int)
}

/// The extension of `p`'s file name: what follows the name's last dot,
/// unless that dot is absent or is the name's first character.
pub open spec fn extension_spec(p: Seq<char>) -> Option<Seq<char>> {
    let name = file_name_spec(p);
    let d = last_index_of(name, '.');
    if d <= 0 {
        None
    } else {
        Some(name.subrange(d + 1, name.len() as int))
    }
}

/// The stem of `p`'s file name: the name up to its last dot, the whole
/// name when it has no extension, and nothing when the name is empty.
pub open spec fn file_stem_spec(p: Seq<char>) -> Option<Seq<char>> {
    let name = file_name_spec(p);
    let d = last_index_of(name, '.');
    if name.len() == 0 {
        None
    } else if d <= 0 {
        Some(name)
    } else {
        Some(name.subrange(0, d))
    }
}

/// The directory holding `p`: everything before the last separator, `/`
/// itself for an entry of the root, and the empty path for a bare name.
pub open spec fn parent_spec(p: Seq<char>) -> Seq<char> {
    let k = last_index_of(p, '/');
    if k == -1 {
        Seq::empty()
    } else if k == 0 {
        seq!['/']
    } else {
        p.subrange(0, k)
    }
}

/// `name` appended to directory `dir`, with a separator between them
/// unless `dir` is empty or already ends in one.
pub open spec fn join_spec(dir: Seq<char>, name: Seq<char>) -> Seq<char> {
    if dir.len() == 0 {
        name
    } else if dir.last() == '/' {
        dir + name
    } else {
        dir + seq!['/'] + name
    }
}

/// Index of the last occurrence of `c` in `s`, scanning from the end.
pub fn find_last(s: &str, c: char) -> (r: Option<usize>)
    ensures
        r matches Some(i) ==> i < s@.len() && last_index_of(s@, c) == i as int,
        r is None ==> last_index_of(s@, c) == -1,
{
    proof {
        lemma_last_index_of_props(s@, c);
    }
    let n = s.unicode_len();
    let mut i: usize = n;
    while i > 0
        invariant
            n == s@.len(),
            i <= n,
            forall|j: int| i <= j < n ==> s@[j] != c,
        decreases i,
    {
        i = i - 1;
        if s.get_char(i) == c {
            proof {
                lemma_last_index_of_props(s@, c);
            }
            return Some(i);
        }
    }
    None
}

/// The final `/`-separated component of `p`.
pub fn file_name_of(p: &str) -> (r: String)
    ensures
        r@ == file_name_spec(p@),
{
    let n = p.unicode_len();
    match find_last(p, '/') {
        Some(k) => p.substring_char(k + 1, n).to_owned(),
        None => p.to_owned(),
    }
}

/// The extension of `p`'s file name, when it has one.
pub fn extension_of(p: &str) -> (r: Option<String>)
    ensures
        r matches Some(e) ==> extension_spec(p@) == Some(e@),
        r is None ==> extension_spec(p@) is None,
{
    let name = file_name_of(p);
    let name_str = name.as_str();
    let n = name_str.unicode_len();
    match find_last(name_str, '.') {
        Some(d) if d > 0 => Some(name_str.substring_char(d + 1, n).to_owned()),
        _ => None,
    }
}

/// The stem of `p`'s file name, when the name is non-empty.
pub fn file_stem_of(p: &str) -> (r: Option<String>)
    ensures
        r matches Some(st) ==> file_stem_spec(p@) == Some(st@),
        r is None ==> file_stem_spec(p@) is None,
{
    let name = file_name_of(p);
    let name_str = name.as_str();
    let n = name_str.unicode_len();
    if n == 0 {
        return None;
    }
    match find_last(name_str, '.') {
        Some(d) if d > 0 => Some(name_str.substring_char(0, d).to_owned()),
        _ => Some(name),
    }
}

/// The directory holding `p`.
pub fn parent_of(p: &str) -> (r: String)
    ensures
        r@ == parent_spec(p@),
{
    match find_last(p, '/') {
        Some(k) => {
            if k == 0 {
                let root = String::from_str("/");
                proof {
                    reveal_strlit("/");
                    assert(root@ =~= seq!['/']);
                }
                root
            } else {
                p.substring_char(0, k).to_owned()
            }
        },
        None => String::new(),
    }
}

/// `name` joined onto directory `dir`.
pub fn join_paths(dir: &str, name: &str) -> (r: String)
    ensures
        r@ == join_spec(dir@, name@),
{
    let n = dir.unicode_len();
    if n == 0 {
        return name.to_owned();
    }
    if dir.get_char(n - 1) == '/' {
        dir.to_owned().concat(name)
    } else {
        let sep = String::from_str("/");
        proof {
            reveal_strlit("/");
            assert(sep@ =~= seq!['/']);
        }
        let r = dir.to_owned().concat(sep.as_str()).concat(name);
        proof {
            assert(r@ =~= dir@ + seq!['/'] + name@);
        }
        r
    }
}

} // verus!
