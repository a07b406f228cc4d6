//! A model of `/`-separated paths: components, file name, stem and extension.
use vstd::prelude::*;

verus! {

/// The views of a sequence of strings.
pub open spec fn strs(v: Seq<String>) -> Seq<Seq<char>> {
    v.map_values(|x: String| x@)
}

/// The pieces of `s` between `/` separators, empty pieces included.
pub open spec fn split_slash(s: Seq<char>) -> Seq<Seq<char>>
    decreases s.len(),
{
    if s.len() == 0 {
        seq![Seq::<char>::empty()]
    } else {
        let prev = split_slash(s.drop_last());
        if s.last() == '/' {
            prev.push(Seq::<char>::empty())
        } else {
            prev.update(prev.len() - 1, prev.last().push(s.last()))
        }
    }
}

/// A piece that names something: not empty and not the current-directory mark.
pub open spec fn is_component(p: Seq<char>) -> bool {
    p.len() > 0 && p != seq!['.']
}

pub open spec fn components(pieces: Seq<Seq<char>>) -> Seq<Seq<char>> {
    pieces.filter(|p: Seq<char>| is_component(p))
}

/// A relative path that starts at the current directory: `.` or `./...`.
pub open spec fn starts_at_current_dir(s: Seq<char>) -> bool {
    s.len() >= 1 && s[0] == '.' && (s.len() == 1 || s[1] == '/')
}

/// The current-directory mark.
pub open spec fn current_mark() -> Seq<char> {
    seq!['.']
}

/// The components of a path, in order: a leading `.` stays, other `.` and
/// empty pieces go (`/a//b/./c/` has `a`, `b`, `c`; `./a` has `.`, `a`).
pub open spec fn segments(s: Seq<char>) -> Seq<Seq<char>> {
    if starts_at_current_dir(s) {
        seq![current_mark()] + components(split_slash(s))
    } else {
        components(split_slash(s))
    }
}

pub open spec fn is_absolute(s: Seq<char>) -> bool {
    s.len() > 0 && s[0] == '/'
}

pub open spec fn parent_mark() -> Seq<char> {
    seq!['.', '.']
}

/// A component that names an entry: neither `.` nor `..`.
pub open spec fn is_named(p: Seq<char>) -> bool {
    p != current_mark() && p != parent_mark()
}

/// The last component of a path, unless there is none or it is `.` or `..`.
pub open spec fn file_name(s: Seq<char>) -> Option<Seq<char>> {
    let g = segments(s);
    if g.len() > 0 && is_named(g.last()) {
        Some(g.last())
    } else {
        None
    }
}

/// The index of the last `.` in `s`, or -1.
pub open spec fn last_dot(s: Seq<char>) -> int
    decreases s.len(),
{
    if s.len() == 0 {
        -1
    } else if s.last() == '.' {
        s.len() - 1
    } else {
        last_dot(s.drop_last())
    }
}

/// The extension of a file name: what follows its last `.`, unless that dot
/// is missing or is the first character.
pub open spec fn extension(name: Seq<char>) -> Option<Seq<char>> {
    let i = last_dot(name);
    if i <= 0 {
        None
    } else {
        Some(name.subrange(i + 1, name.len() as int))
    }
}

/// The file name without its extension and the dot before it.
pub open spec fn stem(name: Seq<char>) -> Seq<char> {
    let i = last_dot(name);
    if i <= 0 {
        name
    } else {
        name.subrange(0, i)
    }
}

/// The extension of a path's file name with its leading dot, or empty.
pub open spec fn dotted_extension(path: Seq<char>) -> Seq<char> {
    match file_name(path) {
        Some(n) => match extension(n) {
            Some(e) => seq!['.'] + e,
            None => Seq::empty(),
        },
        None => Seq::empty(),
    }
}

/// `name` placed inside `dir`; an absolute `name` stands alone.
pub open spec fn join(dir: Seq<char>, name: Seq<char>) -> Seq<char> {
    if is_absolute(name) || dir.len() == 0 {
        name
    } else if dir.last() == '/' {
        dir + name
    } else {
        dir + seq!['/'] + name
    }
}

pub proof fn lemma_last_dot_range(s: Seq<char>)
    ensures
        -1 <= last_dot(s) < s.len(),
        last_dot(s) >= 0 ==> s[last_dot(s)] == '.',
        forall|j: int| last_dot(s) < j < s.len() ==> s[j] != '.',
    decreases s.len(),
{
    if s.len() > 0 && s.last() != '.' {
        lemma_last_dot_range(s.drop_last());
        assert forall|j: int| last_dot(s) < j < s.len() implies s[j] != '.' by {
            if j < s.len() - 1 {
                assert(s.drop_last()[j] == s[j]);
            }
        }
    }
}

fn one_char(s: &str, i: usize) -> (r: &str)
    requires
        i < s@.len(),
        s@.len() <= usize::MAX,
    ensures
        r@ == seq![s@[i as int]],
{
    let r = s.substring_char(i, i + 1);
    assert(r@ =~= seq![s@[i as int]]);
    r
}

fn is_component_str(s: &str) -> (r: bool)
    ensures
        r == is_component(s@),
{
    proof {
        reveal_strlit(".");
        assert("."@ =~= seq!['.']);
    }
    s.unicode_len() > 0 && !crate::text::str_eq(s, ".")
}

/// The components of `path`.
pub fn segments_of(path: &str) -> (r: Vec<String>)
    ensures
        strs(r@) == segments(path@),
{
    let mut r = pieces_of(path);
    let n = path.unicode_len();
    if n >= 1 && path.get_char(0) == '.' && (n == 1 || path.get_char(1) == '/') {
        proof {
            reveal_strlit(".");
            assert("."@ =~= current_mark());
        }
        let ghost before = r@;
        r.insert(0, String::from_str("."));
        assert(strs(r@) =~= seq![current_mark()] + strs(before));
    }
    r
}

/// Whether a component names an entry: neither `.` nor `..`.
pub fn is_named_str(s: &str) -> (r: bool)
    ensures
        r == is_named(s@),
{
    proof {
        reveal_strlit(".");
        reveal_strlit("..");
        assert("."@ =~= current_mark());
        assert(".."@ =~= parent_mark());
    }
    !crate::text::str_eq(s, ".") && !crate::text::str_eq(s, "..")
}

/// The components of `path` other than `.`, and no empty ones.
fn pieces_of(path: &str) -> (r: Vec<String>)
    ensures
        strs(r@) == components(split_slash(path@)),
{
    let n = path.unicode_len();
    let mut done: Vec<String> = Vec::new();
    let mut cur = String::new();
    let mut i: usize = 0;
    proof {
        assert(path@.subrange(0, 0) =~= Seq::<char>::empty());
        assert(strs(done@) =~= Seq::<Seq<char>>::empty());
        assert(components(Seq::<Seq<char>>::empty()) =~= Seq::<Seq<char>>::empty());
    }
    while i < n
        invariant
            n == path@.len(),
            i <= n,
            split_slash(path@.subrange(0, i as int)).len() >= 1,
            strs(done@) == components(split_slash(path@.subrange(0, i as int)).drop_last()),
            cur@ == split_slash(path@.subrange(0, i as int)).last(),
        decreases n - i,
    {
        let ghost pre = path@.subrange(0, i as int);
        let ghost next = path@.subrange(0, i + 1);
        let ghost p = split_slash(pre);
        assert(next.drop_last() =~= pre);
        assert(next.last() == path@[i as int]);
        let c = path.get_char(i);
        if c == '/' {
            proof {
                assert(split_slash(next) == p.push(Seq::<char>::empty()));
                assert(split_slash(next).drop_last() =~= p);
                assert(p =~= p.drop_last().push(p.last()));
                p.drop_last().lemma_filter_push(p.last(), |p: Seq<char>| is_component(p));
            }
            if is_component_str(cur.as_str()) {
                let ghost old_done = done@;
                done.push(cur);
                assert(strs(done@) =~= strs(old_done).push(p.last()));
            }
            cur = String::new();
        } else {
            proof {
                assert(split_slash(next) == p.update(p.len() - 1, p.last().push(c)));
                assert(split_slash(next).drop_last() =~= p.drop_last());
            }
            cur.append(one_char(path, i));
        }
        i = i + 1;
    }
    proof {
        let p = split_slash(path@.subrange(0, n as int));
        assert(path@.subrange(0, n as int) =~= path@);
        assert(p =~= p.drop_last().push(p.last()));
        p.drop_last().lemma_filter_push(p.last(), |p: Seq<char>| is_component(p));
    }
    if is_component_str(cur.as_str()) {
        let ghost old_done = done@;
        done.push(cur);
        assert(strs(done@) =~= strs(old_done).push(cur@));
    }
    done
}

/// The view of an optional string.
pub open spec fn opt_view(o: Option<String>) -> Option<Seq<char>> {
    match o {
        Some(x) => Some(x@),
        None => None,
    }
}

/// The last component of `path`, unless there is none or it is `..`.
pub fn file_name_of(path: &str) -> (r: Option<String>)
    ensures
        opt_view(r) == file_name(path@),
{
    let mut segs = segments_of(path);
    match segs.pop() {
        Some(last) => {
            if is_named_str(last.as_str()) {
                Some(last)
            } else {
                None
            }
        },
        None => None,
    }
}

fn last_dot_of(s: &str) -> (r: Option<usize>)
    ensures
        match r {
            Some(i) => i as int == last_dot(s@),
            None => last_dot(s@) == -1,
        },
{
    proof {
        lemma_last_dot_range(s@);
    }
    let mut j = s.unicode_len();
    while j > 0
        invariant
            j <= s@.len(),
            forall|k: int| j <= k < s@.len() ==> s@[k] != '.',
        decreases j,
    {
        if s.get_char(j - 1) == '.' {
            proof {
                lemma_last_dot_range(s@);
                let d = last_dot(s@);
                if d > j - 1 {
                    assert(s@[d] == '.');
                }
                if d < j - 1 {
                    assert(s@[j - 1] != '.');
                }
            }
            return Some(j - 1);
        }
        j = j - 1;
    }
    None
}

/// Splits a file name into its stem and its extension.
pub fn stem_and_extension(name: &str) -> (r: (String, Option<String>))
    ensures
        r.0@ == stem(name@),
        opt_view(r.1) == extension(name@),
{
    let n = name.unicode_len();
    proof {
        lemma_last_dot_range(name@);
    }
    match last_dot_of(name) {
        Some(i) => {
            if i == 0 {
                (String::from_str(name), None)
            } else {
                let st = String::from_str(name.substring_char(0, i));
                let ex = String::from_str(name.substring_char(i + 1, n));
                (st, Some(ex))
            }
        },
        None => (String::from_str(name), None),
    }
}

/// The extension of the file name of `path` with its leading dot, or an empty string.
pub fn dotted_extension_of(path: &str) -> (r: String)
    ensures
        r@ == dotted_extension(path@),
{
    match file_name_of(path) {
        Some(n) => {
            let (_st, ex) = stem_and_extension(n.as_str());
            match ex {
                Some(e) => {
                    proof {
                        reveal_strlit(".");
                    }
                    let mut r = String::from_str(".");
                    r.append(e.as_str());
                    assert(r@ =~= seq!['.'] + e@);
                    r
                },
                None => String::new(),
            }
        },
        None => String::new(),
    }
}

/// `name` placed inside `dir`.
pub fn join_path(dir: &str, name: &str) -> (r: String)
    ensures
        r@ == join(dir@, name@),
{
    let dn = dir.unicode_len();
    let absolute = name.unicode_len() > 0 && name.get_char(0) == '/';
    if absolute || dn == 0 {
        String::from_str(name)
    } else if dir.get_char(dn - 1) == '/' {
        let mut r = String::from_str(dir);
        r.append(name);
        r
    } else {
        proof {
            reveal_strlit("/");
        }
        let mut r = String::from_str(dir);
        r.append("/");
        r.append(name);
        assert(r@ =~= dir@ + seq!['/'] + name@);
        r
    }
}

} // verus!
