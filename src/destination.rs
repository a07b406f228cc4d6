//! Collision-free destination names: `name`, then `stem_1.ext`, `stem_2.ext`, ...
use vstd::prelude::*;
use crate::path::{extension, is_absolute, join, join_path, last_dot, lemma_last_dot_range, stem, stem_and_extension};
use crate::text::{decimal, lemma_decimal_injective, push_decimal};

verus! {

/// The extension of a file name with its dot, or empty when it has none.
pub open spec fn dotted_tail(name: Seq<char>) -> Seq<char> {
    match extension(name) {
        Some(e) => seq!['.'] + e,
        None => Seq::empty(),
    }
}

/// The `k`-th name tried for `name`: the name itself, then `stem_k` followed by
/// the extension, if any.
pub open spec fn candidate(name: Seq<char>, k: nat) -> Seq<char> {
    if k == 0 {
        name
    } else {
        stem(name) + seq!['_'] + decimal(k) + dotted_tail(name)
    }
}

pub proof fn lemma_stem_tail(name: Seq<char>)
    ensures
        stem(name) + dotted_tail(name) == name,
{
    lemma_last_dot_range(name);
    let i = last_dot(name);
    if i > 0 {
        assert(stem(name) + dotted_tail(name) =~= name);
    }
}

/// Different counters give different names.
pub proof fn lemma_candidates_distinct(name: Seq<char>, a: nat, b: nat)
    requires
        a != b,
    ensures
        candidate(name, a) != candidate(name, b),
{
    lemma_stem_tail(name);
    let s = stem(name);
    let t = dotted_tail(name);
    if a == 0 || b == 0 {
        crate::text::lemma_decimal_nonempty(a);
        crate::text::lemma_decimal_nonempty(b);
        assert(candidate(name, a).len() != candidate(name, b).len());
    } else if candidate(name, a) == candidate(name, b) {
        let ca = candidate(name, a);
        let cb = candidate(name, b);
        assert(ca.len() == s.len() + 1 + decimal(a).len() + t.len());
        assert(cb.len() == s.len() + 1 + decimal(b).len() + t.len());
        assert(decimal(a).len() == decimal(b).len());
        let lo = s.len() + 1;
        let hi = lo + decimal(a).len();
        assert(ca.subrange(lo as int, hi as int) =~= decimal(a));
        assert(cb.subrange(lo as int, hi as int) =~= decimal(b));
        lemma_decimal_injective(a, b);
    }
}

fn candidate_from_parts(name: &str, st: &String, ext: &Option<String>, k: u64) -> (r: String)
    requires
        st@ == stem(name@),
        crate::path::opt_view(*ext) == extension(name@),
    ensures
        r@ == candidate(name@, k as nat),
{
    if k == 0 {
        return String::from_str(name);
    }
    proof {
        reveal_strlit("_");
        reveal_strlit(".");
    }
    let mut r = st.clone();
    r.append("_");
    push_decimal(&mut r, k);
    match ext {
        Some(e) => {
            r.append(".");
            r.append(e.as_str());
        },
        None => {},
    }
    assert(r@ =~= candidate(name@, k as nat));
    r
}

/// The `counter`-th name tried for `file_name`.
pub fn destination_name(file_name: &str, counter: u64) -> (r: String)
    ensures
        r@ == candidate(file_name@, counter as nat),
{
    let (st, ext) = stem_and_extension(file_name);
    candidate_from_parts(file_name, &st, &ext, counter)
}

/// All candidates of a name are absolute exactly when the name is.
pub proof fn lemma_candidate_absolute(name: Seq<char>, k: nat)
    ensures
        is_absolute(candidate(name, k)) == is_absolute(name),
{
    if k > 0 {
        lemma_stem_tail(name);
        let s = stem(name);
        let c = candidate(name, k);
        if s.len() > 0 {
            assert(c[0] == s[0]);
            assert(name[0] == s[0]) by {
                assert(name == s + dotted_tail(name));
            }
        } else {
            assert(c[0] == '_');
            lemma_last_dot_range(name);
            assert(name.len() == 0) by {
                if name.len() > 0 {
                    assert(last_dot(name) <= 0 ==> s == name);
                }
            }
        }
    }
}

/// Different counters lead to different paths in the same folder, so a
/// search never offers a path twice.
pub proof fn lemma_destinations_distinct(dir: Seq<char>, name: Seq<char>, a: nat, b: nat)
    requires
        a != b,
    ensures
        join(dir, candidate(name, a)) != join(dir, candidate(name, b)),
{
    let x = candidate(name, a);
    let y = candidate(name, b);
    lemma_candidates_distinct(name, a, b);
    lemma_candidate_absolute(name, a);
    lemma_candidate_absolute(name, b);
    if !is_absolute(x) && dir.len() > 0 {
        let prefix = if dir.last() == '/' {
            dir
        } else {
            dir + seq!['/']
        };
        assert(join(dir, x) == prefix + x);
        assert(join(dir, y) == prefix + y);
        if prefix + x == prefix + y {
            assert((prefix + x).subrange(prefix.len() as int, (prefix + x).len() as int) =~= x);
            assert((prefix + y).subrange(prefix.len() as int, (prefix + y).len() as int) =~= y);
        }
    }
}

/// The search for a free destination path of a file in a category folder:
/// it offers `name`, then `stem_1.ext`, `stem_2.ext`, ..., and the caller
/// answers for each whether the file system already has an entry there.
pub struct DestinationSearch {
    dir: String,
    name: String,
    stem: String,
    ext: Option<String>,
    counter: u64,
    path: String,
}

impl DestinationSearch {
    pub closed spec fn dir(&self) -> Seq<char> {
        self.dir@
    }

    pub closed spec fn name(&self) -> Seq<char> {
        self.name@
    }

    /// The counter of the path now offered.
    pub closed spec fn counter(&self) -> nat {
        self.counter as nat
    }

    pub closed spec fn wf(&self) -> bool {
        &&& self.stem@ == stem(self.name@)
        &&& crate::path::opt_view(self.ext) == extension(self.name@)
        &&& self.path@ == join(self.dir@, candidate(self.name@, self.counter as nat))
    }

    /// Starts with `file_name` itself in `category_dir`.
    pub fn new(category_dir: &str, file_name: &str) -> (r: DestinationSearch)
        ensures
            r.wf(),
            r.dir() == category_dir@,
            r.name() == file_name@,
            r.counter() == 0,
    {
        let (st, ext) = stem_and_extension(file_name);
        let path = join_path(category_dir, file_name);
        DestinationSearch {
            dir: String::from_str(category_dir),
            name: String::from_str(file_name),
            stem: st,
            ext,
            counter: 0,
            path,
        }
    }

    /// The path offered now.
    pub fn candidate(&self) -> (r: String)
        requires
            self.wf(),
        ensures
            r@ == join(self.dir(), candidate(self.name(), self.counter())),
    {
        self.path.clone()
    }

    /// The counter of the path offered now.
    pub fn counter_value(&self) -> (r: u64)
        ensures
            r == self.counter(),
    {
        self.counter
    }

    /// Takes whether the offered path is taken. If it is free, the search ends
    /// with that path; if it is taken, the next candidate is offered.
    pub fn record(&mut self, taken: bool) -> (r: Option<String>)
        requires
            old(self).wf(),
            taken ==> old(self).counter() < u64::MAX,
        ensures
            final(self).wf(),
            final(self).dir() == old(self).dir(),
            final(self).name() == old(self).name(),
            r is Some <==> !taken,
            r matches Some(p) ==> p@ == join(old(self).dir(), candidate(old(self).name(), old(self).counter())),
            final(self).counter() == old(self).counter() + if taken {
                1nat
            } else {
                0nat
            },
    {
        if !taken {
            return Some(self.path.clone());
        }
        self.counter = self.counter + 1;
        let name = candidate_from_parts(self.name.as_str(), &self.stem, &self.ext, self.counter);
        self.path = join_path(self.dir.as_str(), name.as_str());
        None
    }
}

} // verus!
