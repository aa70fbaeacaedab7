//! A component-wise model of `/`-separated filesystem paths.
//!
//! A path is modelled as a flag (absolute or relative) together with the
//! sequence of its non-empty components: repeated and trailing separators
//! carry no meaning, so `/a//b/` has the components `["a", "b"]`.

use vstd::prelude::*;

verus! {

/// A path is absolute when it starts with the separator.
pub open spec fn is_abs_path(s: Seq<char>) -> bool {
    s.len() > 0 && s[0] == '/'
}

/// Length of the leading run of non-separator characters.
pub open spec fn first_sep(s: Seq<char>) -> int
    decreases s.len(),
{
    if s.len() == 0 {
        0
    } else if s[0] == '/' {
        0
    } else {
        1 + first_sep(s.subrange(1, s.len() as int))
    }
}

pub proof fn lemma_first_sep_bounds(s: Seq<char>)
    ensures
        0 <= first_sep(s) <= s.len(),
        s.len() > 0 && s[0] != '/' ==> first_sep(s) >= 1,
    decreases s.len(),
{
    if s.len() > 0 && s[0] != '/' {
        lemma_first_sep_bounds(s.subrange(1, s.len() as int));
    }
}

/// `first_sep` is pinned down by what a scan of the characters finds.
pub proof fn lemma_first_sep_at(s: Seq<char>, k: int)
    requires
        0 <= k <= s.len(),
        forall|j: int| 0 <= j < k ==> s[j] != '/',
        k < s.len() ==> s[k] == '/',
    ensures
        first_sep(s) == k,
    decreases k,
{
    if k == 0 {
    } else {
        let t = s.subrange(1, s.len() as int);
        assert(forall|j: int| 0 <= j < k - 1 ==> t[j] == s[j + 1]);
        lemma_first_sep_at(t, k - 1);
    }
}

/// The non-empty components of a path, in order.
pub open spec fn path_components(s: Seq<char>) -> Seq<Seq<char>>
    decreases s.len(),
    via path_components_dec
{
    if s.len() == 0 {
        Seq::empty()
    } else if s[0] == '/' {
        path_components(s.subrange(1, s.len() as int))
    } else {
        seq![s.subrange(0, first_sep(s))] + path_components(
            s.subrange(first_sep(s), s.len() as int),
        )
    }
}

#[via_fn]
proof fn path_components_dec(s: Seq<char>) {
    if s.len() != 0 && s[0] != '/' {
        lemma_first_sep_bounds(s);
    }
}

/// `dir` contains `p` (or equals it): both are absolute or both relative,
/// and `dir`'s components are a prefix of `p`'s components.
pub open spec fn is_path_prefix(dir: Seq<char>, p: Seq<char>) -> bool {
    is_abs_path(dir) == is_abs_path(p) && path_components(dir).is_prefix_of(path_components(p))
}

/// The views of a sequence of owned strings.
pub open spec fn views_of(v: Seq<String>) -> Seq<Seq<char>> {
    v.map_values(|c: String| c@)
}

pub fn is_absolute_path(s: &str) -> (r: bool)
    ensures
        r == is_abs_path(s@),
{
    let n = s.unicode_len();
    if n == 0 {
        false
    } else {
        s.get_char(0) == '/'
    }
}

/// Index of the first separator in `s`, or its length if there is none.
fn find_sep(s: &str) -> (r: usize)
    ensures
        r == first_sep(s@),
{
    let n = s.unicode_len();
    let mut i: usize = 0;
    while i < n
        invariant
            0 <= i <= n == s@.len(),
            forall|j: int| 0 <= j < i ==> s@[j] != '/',
        decreases n - i,
    {
        if s.get_char(i) == '/' {
            proof {
                lemma_first_sep_at(s@, i as int);
            }
            return i;
        }
        i += 1;
    }
    proof {
        lemma_first_sep_at(s@, n as int);
    }
    n
}

/// The components of `s` as owned strings, mirroring `path_components`.
pub fn split_path(s: &str) -> (r: Vec<String>)
    ensures
        views_of(r@) == path_components(s@),
    decreases s@.len(),
{
    let n = s.unicode_len();
    if n == 0 {
        let r: Vec<String> = Vec::new();
        proof {
            assert(views_of(r@) =~= path_components(s@));
        }
        r
    } else if s.get_char(0) == '/' {
        let rest = s.substring_char(1, n);
        split_path(rest)
    } else {
        let k = find_sep(s);
        proof {
            lemma_first_sep_bounds(s@);
        }
        let head = s.substring_char(0, k);
        let tail = s.substring_char(k, n);
        let mut r = split_path(tail);
        r.insert(0, head.to_owned());
        proof {
            assert(views_of(r@) =~~= path_components(s@));
        }
        r
    }
}

/// Character-wise string equality.
pub fn str_eq(a: &str, b: &str) -> (r: bool)
    ensures
        r == (a@ == b@),
{
    let n = a.unicode_len();
    if n != b.unicode_len() {
        return false;
    }
    let mut i: usize = 0;
    while i < n
        invariant
            0 <= i <= n,
            n == a@.len() == b@.len(),
            forall|j: int| 0 <= j < i ==> a@[j] == b@[j],
        decreases n - i,
    {
        if s_neq(a.get_char(i), b.get_char(i)) {
            return false;
        }
        i += 1;
    }
    proof {
        assert(a@ =~= b@);
    }
    true
}

/// Character inequality, spelled out so the comparison has a contract.
fn s_neq(x: char, y: char) -> (r: bool)
    ensures
        r == (x != y),
{
    x != y
}

/// Components interleaved with single separators: the text of a relative
/// path with exactly those components.
pub open spec fn join_components(cs: Seq<Seq<char>>) -> Seq<char>
    decreases cs.len(),
{
    if cs.len() == 0 {
        Seq::empty()
    } else if cs.len() == 1 {
        cs[0]
    } else {
        join_components(cs.drop_last()) + seq!['/'] + cs.last()
    }
}

/// The text of `p` made relative to `dir`: the components of `p` that
/// remain once `dir`'s components are stripped from the front.
pub open spec fn spec_relative(dir: Seq<char>, p: Seq<char>) -> Seq<char> {
    join_components(path_components(p).skip(path_components(dir).len() as int))
}

/// What joining `name` onto `dir` yields: `name` itself when absolute,
/// otherwise `dir` and `name` separated by exactly one separator.
pub open spec fn spec_join(dir: Seq<char>, name: Seq<char>) -> Seq<char> {
    if is_abs_path(name) {
        name
    } else if dir.len() == 0 {
        name
    } else if dir[dir.len() - 1] == '/' {
        dir + name
    } else {
        dir + seq!['/'] + name
    }
}

/// The directory holding the file a path names: the path with its last
/// component dropped, keeping its absolute or relative character. A path
/// with no components has no parent.
pub open spec fn spec_parent(p: Seq<char>) -> Option<Seq<char>> {
    let cs = path_components(p);
    if cs.len() == 0 {
        Option::None
    } else if is_abs_path(p) {
        Option::Some(seq!['/'] + join_components(cs.drop_last()))
    } else {
        Option::Some(join_components(cs.drop_last()))
    }
}

/// A path names a metadata file when its last component is the fixed
/// metadata filename.
pub open spec fn spec_is_metadata_path(p: Seq<char>) -> bool {
    path_components(p).len() > 0 && path_components(p).last() == "entries.json"@
}

/// Component-wise containment: `r` holds exactly when `path` is `dir`
/// itself or lies below it.
pub fn check_path_prefix(dir: &str, path: &str) -> (r: bool)
    ensures
        r == is_path_prefix(dir@, path@),
{
    if is_absolute_path(dir) != is_absolute_path(path) {
        return false;
    }
    let dc = split_path(dir);
    let pc = split_path(path);
    if dc.len() > pc.len() {
        return false;
    }
    let mut i: usize = 0;
    while i < dc.len()
        invariant
            0 <= i <= dc@.len() <= pc@.len(),
            views_of(dc@) == path_components(dir@),
            views_of(pc@) == path_components(path@),
            is_abs_path(dir@) == is_abs_path(path@),
            forall|j: int| 0 <= j < i ==> views_of(dc@)[j] == views_of(pc@)[j],
        decreases dc@.len() - i,
    {
        if !str_eq(dc[i].as_str(), pc[i].as_str()) {
            proof {
                let dm = path_components(dir@);
                let pm = path_components(path@);
                assert(dm[i as int] != pm[i as int]);
                assert(!dm.is_prefix_of(pm)) by {
                    if dm =~= pm.subrange(0, dm.len() as int) {
                        assert(dm[i as int] == pm[i as int]);
                    }
                }
            }
            return false;
        }
        i += 1;
    }
    proof {
        let dm = path_components(dir@);
        let pm = path_components(path@);
        assert(dm =~= pm.subrange(0, dm.len() as int));
    }
    true
}

/// The text with the components `pc[from..to]` separated by single
/// separators.
fn join_range(pc: &Vec<String>, from: usize, to: usize) -> (r: String)
    requires
        from <= to <= pc@.len(),
    ensures
        r@ == join_components(views_of(pc@).subrange(from as int, to as int)),
{
    let mut out = String::new();
    let mut i: usize = from;
    proof {
        assert(out@ =~= join_components(views_of(pc@).subrange(from as int, from as int)));
    }
    while i < to
        invariant
            from <= i <= to <= pc@.len(),
            out@ == join_components(views_of(pc@).subrange(from as int, i as int)),
        decreases to - i,
    {
        if i > from {
            out.append("/");
        }
        out.append(pc[i].as_str());
        proof {
            reveal_strlit("/");
            let vm = views_of(pc@);
            let cs = vm.subrange(from as int, i + 1 as int);
            assert(cs.drop_last() =~= vm.subrange(from as int, i as int));
            assert(cs.last() == vm[i as int]);
            if i == from {
                assert(out@ =~= cs[0]);
            } else {
                assert(out@ =~= join_components(cs.drop_last()) + seq!['/'] + cs.last());
            }
        }
        i += 1;
    }
    out
}

/// `path` made relative to `dir`, when `dir` contains it.
pub fn make_relative(dir: &str, path: &str) -> (r: Option<String>)
    ensures
        (r is Some) == is_path_prefix(dir@, path@),
        r matches Some(s) ==> s@ == spec_relative(dir@, path@),
{
    if !check_path_prefix(dir, path) {
        return None;
    }
    let dc = split_path(dir);
    let pc = split_path(path);
    let k = dc.len();
    let out = join_range(&pc, k, pc.len());
    proof {
        let pm = path_components(path@);
        assert(pm.subrange(k as int, pm.len() as int) =~= pm.skip(k as int));
    }
    Some(out)
}

/// The directory holding the file `p` names, by dropping `p`'s last
/// component.
pub fn parent_dir(p: &str) -> (r: Option<String>)
    ensures
        (r is Some) == (path_components(p@).len() > 0),
        r matches Some(s) ==> Option::Some(s@) == spec_parent(p@),
{
    let pc = split_path(p);
    if pc.len() == 0 {
        return None;
    }
    let tail = join_range(&pc, 0, pc.len() - 1);
    proof {
        let cs = path_components(p@);
        assert(cs.subrange(0, cs.len() - 1) =~= cs.drop_last());
    }
    if is_absolute_path(p) {
        let mut out = "/".to_owned();
        out.append(tail.as_str());
        proof {
            reveal_strlit("/");
            assert(out@ =~= seq!['/'] + tail@);
        }
        Some(out)
    } else {
        Some(tail)
    }
}

/// `name` joined onto `dir`, with the separator handling of a path join:
/// an absolute `name` stands alone.
pub fn join_path(dir: &str, name: &str) -> (r: String)
    ensures
        r@ == spec_join(dir@, name@),
{
    if is_absolute_path(name) {
        return name.to_owned();
    }
    let n = dir.unicode_len();
    if n == 0 {
        return name.to_owned();
    }
    let mut r = dir.to_owned();
    if s_neq(dir.get_char(n - 1), '/') {
        r.append("/");
        proof {
            reveal_strlit("/");
            assert(r@ =~= dir@ + seq!['/']);
        }
    }
    r.append(name);
    proof {
        assert(r@ =~= spec_join(dir@, name@));
    }
    r
}

/// An already absolute `path` stands; a relative one is resolved against
/// `current_dir`.
pub fn to_absolute(path: &str, current_dir: &str) -> (r: String)
    ensures
        r@ == spec_join(current_dir@, path@),
{
    if is_absolute_path(path) {
        path.to_owned()
    } else {
        join_path(current_dir, path)
    }
}

/// Whether `p` names a metadata file, by its final path component.
pub fn is_metadata_path(p: &str) -> (r: bool)
    ensures
        r == spec_is_metadata_path(p@),
{
    let pc = split_path(p);
    if pc.len() == 0 {
        return false;
    }
    str_eq(pc[pc.len() - 1].as_str(), "entries.json")
}

} // verus!
