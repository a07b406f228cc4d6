//! Categories of file extensions and the classification of an extension.
use vstd::prelude::*;
use crate::path::strs;
use crate::text::{lower_of, lowercase, str_eq};

verus! {

/// A named group of extensions; each extension carries its leading dot (`.jpg`).
pub struct Category {
    pub name: String,
    pub extensions: Vec<String>,
}

/// Categories in a fixed order: classification takes the first that matches.
pub struct CategoryMap {
    entries: Vec<Category>,
}

/// The view of a category map: its names and their extensions, in order.
pub type CategoryTable = Seq<(Seq<char>, Seq<Seq<char>>)>;

pub open spec fn category_view(c: Category) -> (Seq<char>, Seq<Seq<char>>) {
    (c.name@, strs(c.extensions@))
}

impl View for CategoryMap {
    type V = CategoryTable;

    closed spec fn view(&self) -> CategoryTable {
        self.entries@.map_values(|c: Category| category_view(c))
    }
}

/// The name of the category for extensions that no category lists.
pub open spec fn others() -> Seq<char> {
    seq!['O', 't', 'h', 'e', 'r', 's']
}

pub open spec fn names_unique(m: CategoryTable) -> bool {
    forall|i: int, j: int| 0 <= i < m.len() && 0 <= j < m.len() && i != j ==> m[i].0 != m[j].0
}

pub open spec fn table_names(m: CategoryTable) -> Seq<Seq<char>> {
    m.map_values(|c: (Seq<char>, Seq<Seq<char>>)| c.0)
}

/// The name of the first category from index `i` on that lists `ext`, or `Others`.
pub open spec fn match_from(m: CategoryTable, ext: Seq<char>, i: int) -> Seq<char>
    decreases m.len() - i,
{
    if i < 0 || i >= m.len() {
        others()
    } else if m[i].1.contains(ext) {
        m[i].0
    } else {
        match_from(m, ext, i + 1)
    }
}

/// The name of the first category that lists `ext` exactly, or `Others`.
pub open spec fn first_match(m: CategoryTable, ext: Seq<char>) -> Seq<char> {
    match_from(m, ext, 0)
}

/// The table with every extension lowercased.
pub open spec fn fold_table(m: CategoryTable) -> CategoryTable {
    m.map_values(
        |c: (Seq<char>, Seq<Seq<char>>)| (c.0, c.1.map_values(|e: Seq<char>| lower_of(e))),
    )
}

/// The category of an extension, compared without regard to case.
pub open spec fn classify(m: CategoryTable, ext: Seq<char>) -> Seq<char> {
    first_match(fold_table(m), lower_of(ext))
}

/// The name of the default category.
pub fn others_name() -> (r: String)
    ensures
        r@ == others(),
{
    proof {
        reveal_strlit("Others");
    }
    let r = String::from_str("Others");
    assert(r@ =~= others());
    r
}

/// Whether `x` is among the strings of `v`.
pub fn contains_str(v: &Vec<String>, x: &str) -> (r: bool)
    ensures
        r == strs(v@).contains(x@),
{
    let mut i: usize = 0;
    while i < v.len()
        invariant
            i <= v@.len(),
            forall|k: int| 0 <= k < i ==> v@[k]@ != x@,
        decreases v@.len() - i,
    {
        if str_eq(v[i].as_str(), x) {
            assert(strs(v@)[i as int] == x@);
            return true;
        }
        i = i + 1;
    }
    proof {
        if strs(v@).contains(x@) {
            let k = choose|k: int| 0 <= k < strs(v@).len() && strs(v@)[k] == x@;
            assert(v@[k]@ == x@);
        }
    }
    false
}

/// A copy of a list of strings.
pub fn copy_strs(v: &Vec<String>) -> (r: Vec<String>)
    ensures
        strs(r@) == strs(v@),
{
    let mut r: Vec<String> = Vec::new();
    let mut i: usize = 0;
    while i < v.len()
        invariant
            i <= v@.len(),
            strs(r@) == strs(v@).subrange(0, i as int),
        decreases v@.len() - i,
    {
        let ghost before = r@;
        r.push(v[i].clone());
        assert(strs(r@) =~= strs(before).push(v@[i as int]@));
        assert(strs(v@).subrange(0, i + 1) =~= strs(v@).subrange(0, i as int).push(v@[i as int]@));
        i = i + 1;
    }
    assert(strs(v@).subrange(0, v@.len() as int) =~= strs(v@));
    r
}

impl CategoryMap {
    /// Category names are unique.
    pub open spec fn wf(&self) -> bool {
        names_unique(self@)
    }

    /// A map with no categories.
    pub fn new() -> (r: CategoryMap)
        ensures
            r@ == CategoryTable::empty(),
            r.wf(),
    {
        let r = CategoryMap { entries: Vec::new() };
        assert(r@ =~= CategoryTable::empty());
        r
    }

    /// Number of categories.
    pub fn len(&self) -> (r: usize)
        ensures
            r == self@.len(),
    {
        self.entries.len()
    }

    /// Gives `name` the list `extensions`: a category already named so keeps its
    /// place, a new one goes last.
    pub fn insert(&mut self, name: String, extensions: Vec<String>)
        requires
            old(self).wf(),
        ensures
            final(self).wf(),
            forall|i: int|
                0 <= i < old(self)@.len() && old(self)@[i].0 == name@ ==> final(self)@ == old(
                    self,
                )@.update(i, (name@, strs(extensions@))),
            (forall|i: int| 0 <= i < old(self)@.len() ==> old(self)@[i].0 != name@)
                ==> final(self)@ == old(self)@.push((name@, strs(extensions@))),
    {
        let ghost before = self@;
        let ghost entry = (name@, strs(extensions@));
        let mut i: usize = 0;
        while i < self.entries.len()
            invariant
                self@ == before,
                before == old(self)@,
                names_unique(before),
                entry == (name@, strs(extensions@)),
                i <= self@.len(),
                forall|k: int| 0 <= k < i ==> self@[k].0 != name@,
            decreases self@.len() - i,
        {
            if str_eq(self.entries[i].name.as_str(), name.as_str()) {
                assert(self@[i as int].0 == name@);
                let ghost old_entries = self.entries@;
                let c = Category { name, extensions };
                assert(category_view(c) == entry);
                self.entries.set(i, c);
                assert(self.entries@ == old_entries.update(i as int, c));
                assert(self@ =~= before.update(i as int, entry));
                assert(before[i as int].0 == name@);
                assert forall|k: int|
                    0 <= k < before.len() && before[k].0 == name@ implies k == i as int by {
                    if k != i as int {
                        assert(before[k].0 != before[i as int].0);
                    }
                }
                assert(forall|k: int|
                    0 <= k < before.len() && before[k].0 == name@ ==> self@ == before.update(
                        k,
                        entry,
                    ));
                return;
            }
            i = i + 1;
        }
        self.entries.push(Category { name, extensions });
        assert(self@ =~= before.push(entry));
    }

    /// The extensions of the category at `index`.
    pub fn extensions(&self, index: usize) -> (r: Vec<String>)
        requires
            index < self@.len(),
        ensures
            strs(r@) == self@[index as int].1,
    {
        copy_strs(&self.entries[index].extensions)
    }

    /// The category names, in order.
    pub fn names(&self) -> (r: Vec<String>)
        ensures
            strs(r@) == table_names(self@),
    {
        let mut r: Vec<String> = Vec::new();
        let mut i: usize = 0;
        while i < self.entries.len()
            invariant
                i <= self@.len(),
                strs(r@) == table_names(self@).subrange(0, i as int),
            decreases self@.len() - i,
        {
            let ghost before = r@;
            r.push(self.entries[i].name.clone());
            assert(strs(r@) =~= strs(before).push(self@[i as int].0));
            assert(table_names(self@).subrange(0, i + 1) =~= table_names(self@).subrange(
                0,
                i as int,
            ).push(self@[i as int].0));
            i = i + 1;
        }
        assert(table_names(self@).subrange(0, self@.len() as int) =~= table_names(self@));
        r
    }

    /// The category names in order, followed by `Others`.
    pub fn category_names(&self) -> (r: Vec<String>)
        ensures
            strs(r@) == table_names(self@).push(others()),
    {
        let mut r = self.names();
        let ghost before = r@;
        r.push(others_name());
        assert(strs(r@) =~= strs(before).push(others()));
        r
    }

    /// The same categories with every extension lowercased.
    pub fn folded(&self) -> (r: CategoryMap)
        ensures
            r@ == fold_table(self@),
            r.wf() == self.wf(),
    {
        let mut out: Vec<Category> = Vec::new();
        let mut i: usize = 0;
        while i < self.entries.len()
            invariant
                i <= self@.len(),
                out@.map_values(|c: Category| category_view(c)) == fold_table(self@).subrange(
                    0,
                    i as int,
                ),
            decreases self@.len() - i,
        {
            let src = &self.entries[i].extensions;
            let mut exts: Vec<String> = Vec::new();
            let mut j: usize = 0;
            while j < src.len()
                invariant
                    j <= src@.len(),
                    strs(exts@) == strs(src@).map_values(|e: Seq<char>| lower_of(e)).subrange(
                        0,
                        j as int,
                    ),
                decreases src@.len() - j,
            {
                let ghost eb = exts@;
                exts.push(lowercase(src[j].as_str()));
                assert(strs(exts@) =~= strs(eb).push(lower_of(src@[j as int]@)));
                assert(strs(src@).map_values(|e: Seq<char>| lower_of(e)).subrange(0, j + 1)
                    =~= strs(src@).map_values(|e: Seq<char>| lower_of(e)).subrange(
                    0,
                    j as int,
                ).push(lower_of(src@[j as int]@)));
                j = j + 1;
            }
            assert(strs(src@).map_values(|e: Seq<char>| lower_of(e)).subrange(
                0,
                src@.len() as int,
            ) =~= strs(src@).map_values(|e: Seq<char>| lower_of(e)));
            let ghost ob = out@;
            out.push(Category { name: self.entries[i].name.clone(), extensions: exts });
            assert(out@.map_values(|c: Category| category_view(c)) =~= ob.map_values(
                |c: Category| category_view(c),
            ).push(fold_table(self@)[i as int]));
            assert(fold_table(self@).subrange(0, i + 1) =~= fold_table(self@).subrange(
                0,
                i as int,
            ).push(fold_table(self@)[i as int]));
            i = i + 1;
        }
        assert(fold_table(self@).subrange(0, self@.len() as int) =~= fold_table(self@));
        let r = CategoryMap { entries: out };
        assert(r@ =~= fold_table(self@));
        assert(r.wf() == self.wf()) by {
            assert(r@.len() == self@.len());
            assert forall|i: int| 0 <= i < r@.len() implies #[trigger] r@[i].0 == self@[i].0 by {
                assert(fold_table(self@)[i].0 == self@[i].0);
            }
            if self.wf() {
                assert forall|i: int, j: int|
                    0 <= i < r@.len() && 0 <= j < r@.len() && i != j implies r@[i].0 != r@[j].0 by {
                    assert(self@[i].0 != self@[j].0);
                }
            }
            if r.wf() {
                assert forall|i: int, j: int|
                    0 <= i < self@.len() && 0 <= j < self@.len() && i != j implies self@[i].0
                        != self@[j].0 by {
                    assert(r@[i].0 != r@[j].0);
                }
            }
        }
        r
    }

    /// The first category that lists `ext` exactly, or `Others`.
    pub fn category_of_folded(&self, ext: &str) -> (r: String)
        ensures
            r@ == first_match(self@, ext@),
    {
        let mut i: usize = 0;
        while i < self.entries.len()
            invariant
                i <= self@.len(),
                first_match(self@, ext@) == match_from(self@, ext@, i as int),
            decreases self@.len() - i,
        {
            if contains_str(&self.entries[i].extensions, ext) {
                return self.entries[i].name.clone();
            }
            i = i + 1;
        }
        others_name()
    }
}

/// The category of an extension such as `.jpg` (or the empty string), compared
/// without regard to case; `Others` when no category lists it.
pub fn get_category(ext: &str, categories: &CategoryMap) -> (r: String)
    ensures
        r@ == classify(categories@, ext@),
{
    let folded_ext = lowercase(ext);
    let folded = categories.folded();
    folded.category_of_folded(folded_ext.as_str())
}

/// `r` is the name of the first category of `f` that lists `e`, or `Others`
/// when none does.
pub open spec fn is_first_match(f: CategoryTable, e: Seq<char>, r: Seq<char>) -> bool {
    ||| (exists|i: int|
        #![trigger f[i]]
        0 <= i < f.len() && f[i].1.contains(e) && r == f[i].0 && (forall|j: int|
            0 <= j < i ==> !f[j].1.contains(e)))
    ||| (r == others() && forall|j: int| 0 <= j < f.len() ==> !f[j].1.contains(e))
}

/// Every extension gets exactly one category: the first that lists it, when
/// compared without regard to case, or else `Others`, and then none lists it.
pub proof fn lemma_classify_total(m: CategoryTable, ext: Seq<char>)
    ensures
        is_first_match(fold_table(m), lower_of(ext), classify(m, ext)),
{
    lemma_match_from(fold_table(m), lower_of(ext), 0);
}

proof fn lemma_match_from(f: CategoryTable, e: Seq<char>, k: int)
    requires
        0 <= k <= f.len(),
        forall|j: int| 0 <= j < k ==> !f[j].1.contains(e),
    ensures
        is_first_match(f, e, match_from(f, e, k)),
    decreases f.len() - k,
{
    if k < f.len() {
        if f[k].1.contains(e) {
            assert(f[k].1.contains(e));
        } else {
            lemma_match_from(f, e, k + 1);
        }
    }
}

/// Extensions that differ only in case get the same category.
pub proof fn lemma_classify_ignores_case(m: CategoryTable, a: Seq<char>, b: Seq<char>)
    requires
        lower_of(a) == lower_of(b),
    ensures
        classify(m, a) == classify(m, b),
{
}

} // verus!
