//! Event qualification: which filesystem change events lead to a
//! transcoding job.
//!
//! An event carries a change kind and the affected paths. Only create and
//! modify events are considered, and of their paths only those whose
//! extension matches the configured allow-list, compared without regard to
//! ASCII case. Everything else is dropped.

use vstd::prelude::*;
use crate::chars::{seq_eq_ignore_ascii_case, str_eq_ignore_case};
use crate::paths::{extension_of, extension_spec};

verus! {

/// The kind of a filesystem change notification.
#[derive(Clone, Copy, PartialEq, Eq, Structural, Debug)]
pub enum EventKind {
    Create,
    Modify,
    Remove,
    Other,
}

/// Whether events of this kind are considered at all: only creations and
/// modifications are.
pub open spec fn kind_accepted_spec(kind: EventKind) -> bool {
    kind == EventKind::Create || kind == EventKind::Modify
}

/// Whether events of this kind are considered at all.
pub fn kind_accepted(kind: EventKind) -> (r: bool)
    ensures
        r == kind_accepted_spec(kind),
{
    match kind {
        EventKind::Create => true,
        EventKind::Modify => true,
        EventKind::Remove => false,
        EventKind::Other => false,
    }
}

/// The views of a sequence of strings.
pub open spec fn views_of(v: Seq<String>) -> Seq<Seq<char>> {
    v.map_values(|s: String| s@)
}

/// Whether `e` matches some entry of `exts` up to ASCII case.
pub open spec fn ext_in_list(e: Seq<char>, exts: Seq<Seq<char>>) -> bool {
    exists|i: int| 0 <= i < exts.len() && seq_eq_ignore_ascii_case(e, exts[i])
}

/// Whether `p` names a video file: it has an extension and that extension
/// matches an entry of `exts` up to ASCII case. A path without an
/// extension never qualifies.
pub open spec fn is_video_path(p: Seq<char>, exts: Seq<Seq<char>>) -> bool {
    match extension_spec(p) {
        Some(e) => ext_in_list(e, exts),
        None => false,
    }
}

/// Whether `path` names a video file according to the allow-list
/// `extensions`, compared case-insensitively.
pub fn is_video_file(path: &str, extensions: &Vec<String>) -> (r: bool)
    ensures
        r == is_video_path(path@, views_of(extensions@)),
{
    let ext = extension_of(path);
    match ext {
        None => false,
        Some(e) => {
            let n = extensions.len();
            let mut i: usize = 0;
            while i < n
                invariant
                    n == extensions@.len(),
                    i <= n,
                    extension_spec(path@) == Some(e@),
                    forall|j: int| 0 <= j < i
                        ==> !seq_eq_ignore_ascii_case(e@, views_of(extensions@)[j]),
                decreases n - i,
            {
                if str_eq_ignore_case(e.as_str(), extensions[i].as_str()) {
                    assert(seq_eq_ignore_ascii_case(e@, views_of(extensions@)[i as int]));
                    return true;
                }
                i = i + 1;
            }
            false
        },
    }
}

/// The paths of an event that lead to a job: none when the event's kind is
/// not accepted, else exactly the paths that name video files, in order.
pub open spec fn qualifying_spec(
    kind: EventKind,
    paths: Seq<Seq<char>>,
    exts: Seq<Seq<char>>,
) -> Seq<Seq<char>> {
    if kind_accepted_spec(kind) {
        paths.filter(|p: Seq<char>| is_video_path(p, exts))
    } else {
        Seq::empty()
    }
}

/// Filters one event down to the paths that lead to a job.
pub fn qualifying_paths(kind: EventKind, paths: &Vec<String>, extensions: &Vec<String>) -> (r: Vec<
    String,
>)
    ensures
        views_of(r@) == qualifying_spec(kind, views_of(paths@), views_of(extensions@)),
{
    let ghost exts: Seq<Seq<char>> = views_of(extensions@);
    let ghost pred = |p: Seq<char>| is_video_path(p, exts);
    let mut out: Vec<String> = Vec::new();
    if !kind_accepted(kind) {
        assert(views_of(out@) =~= qualifying_spec(kind, views_of(paths@), exts));
        return out;
    }
    let n = paths.len();
    let mut i: usize = 0;
    while i < n
        invariant
            n == paths@.len(),
            i <= n,
            kind_accepted_spec(kind),
            exts == views_of(extensions@),
            pred == (|p: Seq<char>| is_video_path(p, exts)),
            views_of(out@) == views_of(paths@).subrange(0, i as int).filter(pred),
        decreases n - i,
    {
        let ghost prefix = views_of(paths@).subrange(0, i as int);
        let ghost next_prefix = views_of(paths@).subrange(0, i + 1);
        proof {
            assert(next_prefix.drop_last() =~= prefix);
            reveal(Seq::filter);
        }
        if is_video_file(paths[i].as_str(), extensions) {
            out.push(paths[i].clone());
            proof {
                assert(views_of(out@) =~= prefix.filter(pred).push(paths@[i as int]@));
                assert(next_prefix.filter(pred) =~= prefix.filter(pred).push(
                    paths@[i as int]@,
                ));
            }
        } else {
            proof {
                assert(next_prefix.filter(pred) =~= prefix.filter(pred));
            }
        }
        i = i + 1;
    }
    proof {
        assert(views_of(paths@).subrange(0, n as int) =~= views_of(paths@));
    }
    out
}

/// How many of `paths` name video files according to `exts`.
pub open spec fn count_qualifying(paths: Seq<Seq<char>>, exts: Seq<Seq<char>>) -> nat
    decreases paths.len(),
{
    if paths.len() == 0 {
        0
    } else {
        count_qualifying(paths.drop_last(), exts) + if is_video_path(paths.last(), exts) {
            1nat
        } else {
            0nat
        }
    }
}

proof fn lemma_filter_len_is_count(paths: Seq<Seq<char>>, exts: Seq<Seq<char>>)
    ensures
        paths.filter(|p: Seq<char>| is_video_path(p, exts)).len() == count_qualifying(
            paths,
            exts,
        ),
    decreases paths.len(),
{
    reveal(Seq::filter);
    if paths.len() > 0 {
        lemma_filter_len_is_count(paths.drop_last(), exts);
    }
}

/// The qualifier admits exactly the right paths: a kind other than create
/// or modify yields nothing; every chosen path names a video file; every
/// path of an accepted event that names a video file is chosen; and each
/// qualifying occurrence is chosen once, so an accepted event listing N
/// qualifying paths yields exactly N of them.
pub proof fn lemma_qualifier_exact(kind: EventKind, paths: Seq<Seq<char>>, exts: Seq<Seq<char>>)
    ensures
        !kind_accepted_spec(kind) ==> qualifying_spec(kind, paths, exts) == Seq::<Seq<char>>::empty(),
        forall|i: int|
            0 <= i < qualifying_spec(kind, paths, exts).len()
                ==> is_video_path(#[trigger] qualifying_spec(kind, paths, exts)[i], exts),
        kind_accepted_spec(kind) ==> forall|i: int|
            0 <= i < paths.len() && is_video_path(#[trigger] paths[i], exts)
                ==> qualifying_spec(kind, paths, exts).contains(paths[i]),
        kind_accepted_spec(kind) ==> qualifying_spec(kind, paths, exts).len() == count_qualifying(
            paths,
            exts,
        ),
{
    broadcast use vstd::seq_lib::group_filter_ensures;

    if kind_accepted_spec(kind) {
        lemma_filter_len_is_count(paths, exts);
    }
}

} // verus!
