//! Leaves out files that already sit in a category folder of an output root.
use vstd::prelude::*;
use crate::category::contains_str;
use crate::path::{is_absolute, is_named, is_named_str, segments, segments_of, strs};
use crate::text::str_eq;

verus! {

/// `path` lies at or below `root`, compared component by component.
pub open spec fn begins_with(path: Seq<char>, root: Seq<char>) -> bool {
    let p = segments(path);
    let r = segments(root);
    is_absolute(path) == is_absolute(root) && r.len() <= p.len() && p.subrange(0, r.len() as int)
        == r
}

/// The first component of `path` below `root`, given that `path` begins with `root`
/// and goes deeper.
pub open spec fn first_below(path: Seq<char>, root: Seq<char>) -> Seq<char> {
    segments(path)[segments(root).len() as int]
}

/// `path` lies in a folder of `root` whose name is one of `names`.
pub open spec fn in_category_folder(path: Seq<char>, root: Seq<char>, names: Seq<Seq<char>>) -> bool {
    &&& begins_with(path, root)
    &&& segments(root).len() < segments(path).len()
    &&& is_named(first_below(path, root))
    &&& names.contains(first_below(path, root))
}

/// `path` lies in a category folder of one of the roots.
pub open spec fn excluded(path: Seq<char>, roots: Seq<Seq<char>>, names: Seq<Seq<char>>) -> bool {
    exists|i: int| 0 <= i < roots.len() && in_category_folder(path, #[trigger] roots[i], names)
}

/// The files that no root holds in one of its category folders, in their order.
pub open spec fn kept(
    files: Seq<Seq<char>>,
    roots: Seq<Seq<char>>,
    names: Seq<Seq<char>>,
) -> Seq<Seq<char>> {
    files.filter(|f: Seq<char>| !excluded(f, roots, names))
}

fn starts_with_slash(s: &str) -> (r: bool)
    ensures
        r == is_absolute(s@),
{
    s.unicode_len() > 0 && s.get_char(0) == '/'
}

/// Whether `path` lies in a folder of `root` named by one of `names`.
pub fn is_under_category_folder(path: &str, root: &str, names: &Vec<String>) -> (r: bool)
    ensures
        r == in_category_folder(path@, root@, strs(names@)),
{
    if starts_with_slash(path) != starts_with_slash(root) {
        return false;
    }
    let p = segments_of(path);
    let q = segments_of(root);
    if q.len() >= p.len() {
        return false;
    }
    let mut i: usize = 0;
    while i < q.len()
        invariant
            i <= q@.len() < p@.len(),
            strs(p@) == segments(path@),
            strs(q@) == segments(root@),
            is_absolute(path@) == is_absolute(root@),
            strs(p@).subrange(0, i as int) == strs(q@).subrange(0, i as int),
        decreases q@.len() - i,
    {
        if !str_eq(p[i].as_str(), q[i].as_str()) {
            assert(strs(p@).subrange(0, q@.len() as int)[i as int] != strs(q@)[i as int]);
            return false;
        }
        assert(strs(p@).subrange(0, i + 1) =~= strs(p@).subrange(0, i as int).push(p@[i as int]@));
        assert(strs(q@).subrange(0, i + 1) =~= strs(q@).subrange(0, i as int).push(q@[i as int]@));
        i = i + 1;
    }
    assert(strs(q@).subrange(0, q@.len() as int) =~= strs(q@));
    let below = p[q.len()].as_str();
    is_named_str(below) && contains_str(names, below)
}

/// Whether `path` lies in a category folder of one of `roots`.
pub fn is_excluded(path: &str, roots: &Vec<String>, names: &Vec<String>) -> (r: bool)
    ensures
        r == excluded(path@, strs(roots@), strs(names@)),
{
    let mut i: usize = 0;
    while i < roots.len()
        invariant
            i <= roots@.len(),
            forall|k: int|
                0 <= k < i ==> !in_category_folder(path@, #[trigger] strs(roots@)[k], strs(names@)),
        decreases roots@.len() - i,
    {
        if is_under_category_folder(path, roots[i].as_str(), names) {
            assert(in_category_folder(path@, strs(roots@)[i as int], strs(names@)));
            return true;
        }
        i = i + 1;
    }
    false
}

/// The files that no output root holds in a folder named by `category_names`.
pub fn filter_files(files: &Vec<String>, output_roots: &Vec<String>, category_names: &Vec<String>) -> (r: Vec<String>)
    ensures
        strs(r@) == kept(strs(files@), strs(output_roots@), strs(category_names@)),
{
    let ghost roots = strs(output_roots@);
    let ghost names = strs(category_names@);
    let ghost keep = |f: Seq<char>| !excluded(f, roots, names);
    let mut r: Vec<String> = Vec::new();
    let mut i: usize = 0;
    while i < files.len()
        invariant
            i <= files@.len(),
            roots == strs(output_roots@),
            names == strs(category_names@),
            keep == (|f: Seq<char>| !excluded(f, roots, names)),
            strs(r@) == strs(files@).subrange(0, i as int).filter(keep),
        decreases files@.len() - i,
    {
        let ghost before = r@;
        proof {
            assert(strs(files@).subrange(0, i + 1) =~= strs(files@).subrange(0, i as int).push(files@[i as int]@));
            strs(files@).subrange(0, i as int).lemma_filter_push(files@[i as int]@, keep);
        }
        if !is_excluded(files[i].as_str(), output_roots, category_names) {
            r.push(files[i].clone());
            assert(strs(r@) =~= strs(before).push(files@[i as int]@));
        }
        i = i + 1;
    }
    assert(strs(files@).subrange(0, files@.len() as int) =~= strs(files@));
    r
}

/// A file that lies at or below none of the roots is never left out; so a list
/// of such files comes through unchanged.
pub proof fn lemma_filter_keeps_outside(
    files: Seq<Seq<char>>,
    roots: Seq<Seq<char>>,
    names: Seq<Seq<char>>,
)
    requires
        forall|k: int, i: int|
            0 <= k < files.len() && 0 <= i < roots.len() ==> !begins_with(
                #[trigger] files[k],
                #[trigger] roots[i],
            ),
    ensures
        kept(files, roots, names) == files,
{
    let keep = |f: Seq<char>| !excluded(f, roots, names);
    assert forall|k: int| 0 <= k < files.len() implies keep(files[k]) by {
        if excluded(files[k], roots, names) {
            let i = choose|i: int| 0 <= i < roots.len() && in_category_folder(files[k], #[trigger] roots[i], names);
            assert(!begins_with(files[k], roots[i]));
        }
    }
    lemma_filter_all(files, keep);
}

proof fn lemma_filter_all(s: Seq<Seq<char>>, p: spec_fn(Seq<char>) -> bool)
    requires
        forall|k: int| 0 <= k < s.len() ==> p(#[trigger] s[k]),
    ensures
        s.filter(p) == s,
    decreases s.len(),
{
    if s.len() > 0 {
        lemma_filter_all(s.drop_last(), p);
        assert(s =~= s.drop_last().push(s.last()));
        s.drop_last().lemma_filter_push(s.last(), p);
    }
}

/// A file in a category folder of some root is left out; a file that, below
/// every root that it lies at, is in no folder named by `names` is kept.
pub proof fn lemma_filter_category_folders(
    files: Seq<Seq<char>>,
    roots: Seq<Seq<char>>,
    names: Seq<Seq<char>>,
    f: Seq<char>,
)
    requires
        files.contains(f),
    ensures
        (exists|i: int| 0 <= i < roots.len() && in_category_folder(f, #[trigger] roots[i], names))
            ==> !kept(files, roots, names).contains(f),
        (forall|i: int|
            0 <= i < roots.len() && begins_with(f, #[trigger] roots[i]) && segments(roots[i]).len()
                < segments(f).len() ==> !names.contains(first_below(f, roots[i])))
            ==> kept(files, roots, names).contains(f),
{
    let keep = |x: Seq<char>| !excluded(x, roots, names);
    let filtered = files.filter(keep);
    if filtered.contains(f) {
        let k = choose|k: int| 0 <= k < filtered.len() && filtered[k] == f;
        files.lemma_filter_pred(keep, k);
    }
    if keep(f) {
        let k = choose|k: int| 0 <= k < files.len() && files[k] == f;
        files.lemma_filter_contains(keep, k);
    } else {
        let i = choose|i: int| 0 <= i < roots.len() && in_category_folder(f, #[trigger] roots[i], names);
        assert(names.contains(first_below(f, roots[i])));
    }
}

} // verus!
