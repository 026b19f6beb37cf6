//! Unix paths held as strings: joining, splitting into components, comparing,
//! and the parts of a file name.

use vstd::prelude::*;

use crate::text::{same_text, substring, to_chars};

verus! {

/// The characters of each string.
pub open spec fn views(v: Seq<String>) -> Seq<Seq<char>> {
    v.map_values(|x: String| x@)
}

/// The pieces of `s` between occurrences of `c` (as `str::split` gives them).
pub open spec fn split_on(s: Seq<char>, c: char) -> Seq<Seq<char>>
    decreases s.len(),
{
    if s.len() == 0 {
        seq![Seq::<char>::empty()]
    } else {
        let init = split_on(s.drop_last(), c);
        if s.last() == c {
            init.push(Seq::<char>::empty())
        } else {
            init.drop_last().push(init.last().push(s.last()))
        }
    }
}

/// `base.join(rel)`: an absolute `rel` replaces `base`; otherwise a separator is put
/// between them unless `base` is empty or already ends with one.
pub open spec fn joined_path(base: Seq<char>, rel: Seq<char>) -> Seq<char> {
    if rel.len() > 0 && rel[0] == '/' {
        rel
    } else if base.len() == 0 || base.last() == '/' {
        base + rel
    } else {
        base + seq!['/'] + rel
    }
}

/// The path starts at the root directory.
pub open spec fn has_root(s: Seq<char>) -> bool {
    s.len() > 0 && s[0] == '/'
}

/// The path is relative and begins with a `.` component.
pub open spec fn leading_cur_dir(s: Seq<char>) -> bool {
    !has_root(s) && s.len() > 0 && s[0] == '.' && (s.len() == 1 || s[1] == '/')
}

/// A piece between separators that names a component: not empty and not `.`.
pub open spec fn is_named_part(p: Seq<char>) -> bool {
    p.len() > 0 && p != seq!['.']
}

/// The pieces that name components, in order.
pub open spec fn named_parts(parts: Seq<Seq<char>>) -> Seq<Seq<char>>
    decreases parts.len(),
{
    if parts.len() == 0 {
        parts
    } else if is_named_part(parts.last()) {
        named_parts(parts.drop_last()).push(parts.last())
    } else {
        named_parts(parts.drop_last())
    }
}

/// The components of a path after the root and a leading `.`: repeated separators,
/// a trailing separator and inner `.` components do not count.
pub open spec fn path_parts(s: Seq<char>) -> Seq<Seq<char>> {
    named_parts(split_on(s, '/'))
}

/// Two paths are equal as `Path` compares them: component by component.
pub open spec fn same_path(a: Seq<char>, b: Seq<char>) -> bool {
    &&& has_root(a) == has_root(b)
    &&& leading_cur_dir(a) == leading_cur_dir(b)
    &&& path_parts(a) == path_parts(b)
}

/// The last component of a path, when it names a file or directory.
pub open spec fn file_name_of(s: Seq<char>) -> Option<Seq<char>> {
    let parts = path_parts(s);
    if parts.len() > 0 && parts.last() != seq!['.', '.'] {
        Some(parts.last())
    } else {
        None
    }
}

/// The extension of a file name: what follows its last `.`, unless nothing comes
/// before that `.`.
pub open spec fn extension_of(name: Seq<char>) -> Option<Seq<char>> {
    let pieces = split_on(name, '.');
    if pieces.len() >= 2 && name.len() > pieces.last().len() + 1 {
        Some(pieces.last())
    } else {
        None
    }
}

proof fn lemma_split_nonempty(s: Seq<char>, c: char)
    ensures
        split_on(s, c).len() >= 1,
    decreases s.len(),
{
    if s.len() > 0 {
        lemma_split_nonempty(s.drop_last(), c);
    }
}

/// The first piece of a split is the text before the first separator, or the whole
/// text when there is no separator.
pub proof fn lemma_first_piece(s: Seq<char>, c: char)
    ensures
        split_on(s, c).len() >= 1,
        split_on(s, c)[0].len() <= s.len(),
        s.take(split_on(s, c)[0].len() as int) == split_on(s, c)[0],
        forall|i: int| 0 <= i < split_on(s, c)[0].len() ==> split_on(s, c)[0][i] != c,
        split_on(s, c).len() == 1 ==> split_on(s, c)[0] == s,
    decreases s.len(),
{
    if s.len() > 0 {
        lemma_first_piece(s.drop_last(), c);
        let init = split_on(s.drop_last(), c);
        let f = split_on(s, c)[0];
        if s.last() == c {
            assert(f == init[0]);
            assert(s.take(f.len() as int) =~= s.drop_last().take(f.len() as int));
        } else if init.len() == 1 {
            assert(f == init[0].push(s.last()));
            assert(f =~= s);
            assert(s.take(f.len() as int) =~= s);
        } else {
            assert(f == init[0]);
            assert(s.take(f.len() as int) =~= s.drop_last().take(f.len() as int));
        }
    } else {
        assert(s.take(0) =~= split_on(s, c)[0]);
    }
}

/// A trailing separator does not change which path a string names.
pub proof fn law_trailing_separator(s: Seq<char>)
    requires
        s.len() > 0,
    ensures
        same_path(s.push('/'), s),
{
    let t = s.push('/');
    assert(t.drop_last() =~= s);
    assert(split_on(t, '/') == split_on(s, '/').push(Seq::<char>::empty()));
    assert(split_on(t, '/').drop_last() =~= split_on(s, '/'));
    assert(!is_named_part(Seq::<char>::empty()));
    assert(t[0] == s[0]);
    if s.len() > 1 {
        assert(t[1] == s[1]);
    }
}

/// Splits `s` at every occurrence of `c`.
pub fn split(s: &str, c: char) -> (r: Vec<String>)
    ensures
        views(r@) == split_on(s@, c),
{
    let v = to_chars(s);
    let n = v.len();
    let mut r: Vec<String> = Vec::new();
    let mut start: usize = 0;
    let mut i: usize = 0;
    assert(s@.take(0) =~= Seq::<char>::empty());
    assert(views(r@).push(s@.subrange(0, 0)) =~= split_on(s@.take(0), c));
    while i < n
        invariant
            v@ == s@,
            n == v.len(),
            start <= i <= n,
            views(r@).push(s@.subrange(start as int, i as int)) == split_on(s@.take(i as int), c),
        decreases n - i,
    {
        let ghost before = views(r@);
        assert(s@.take(i + 1).drop_last() =~= s@.take(i as int));
        assert(s@.take(i + 1).last() == v@[i as int]);
        proof {
            lemma_split_nonempty(s@.take(i as int), c);
        }
        if v[i] == c {
            let piece = substring(s, start, i);
            r.push(piece);
            assert(views(r@) =~= before.push(s@.subrange(start as int, i as int)));
            start = i + 1;
            assert(s@.subrange(start as int, i + 1) =~= Seq::<char>::empty());
            assert(split_on(s@.take(i + 1), c) == split_on(s@.take(i as int), c).push(
                Seq::<char>::empty(),
            ));
            assert(views(r@).push(s@.subrange(start as int, i + 1)) =~= split_on(
                s@.take(i + 1),
                c,
            ));
        } else {
            let ghost init = split_on(s@.take(i as int), c);
            assert(init.drop_last() =~= before);
            assert(init.last() == s@.subrange(start as int, i as int));
            assert(s@.subrange(start as int, i + 1) =~= s@.subrange(start as int, i as int).push(
                v@[i as int],
            ));
            assert(views(r@).push(s@.subrange(start as int, i + 1)) =~= split_on(
                s@.take(i + 1),
                c,
            ));
        }
        i = i + 1;
    }
    let ghost before = views(r@);
    let piece = substring(s, start, n);
    r.push(piece);
    assert(views(r@) =~= before.push(s@.subrange(start as int, n as int)));
    assert(s@.take(n as int) =~= s@);
    r
}

/// Joins a relative or absolute path onto a base path, as `Path::join` does.
pub fn join(base: &str, rel: &str) -> (r: String)
    ensures
        r@ == joined_path(base@, rel@),
{
    let rv = to_chars(rel);
    if rv.len() > 0 && rv[0] == '/' {
        return String::from_str(rel);
    }
    let bv = to_chars(base);
    let mut r = String::from_str(base);
    if !(bv.len() == 0 || bv[bv.len() - 1] == '/') {
        r.append("/");
        proof {
            reveal_strlit("/");
        }
    }
    r.append(rel);
    r
}

/// The pieces of `parts` that name components.
fn keep_named(parts: &Vec<String>) -> (r: Vec<String>)
    ensures
        views(r@) == named_parts(views(parts@)),
{
    let mut r: Vec<String> = Vec::new();
    let mut i: usize = 0;
    assert(views(parts@).take(0) =~= Seq::<Seq<char>>::empty());
    while i < parts.len()
        invariant
            i <= parts@.len(),
            views(r@) == named_parts(views(parts@).take(i as int)),
        decreases parts@.len() - i,
    {
        let ghost before = views(r@);
        assert(views(parts@).take(i + 1).drop_last() =~= views(parts@).take(i as int));
        assert(views(parts@).take(i + 1).last() == parts@[i as int]@);
        let p = &parts[i];
        let pv = to_chars(p.as_str());
        if pv.len() > 0 && !(pv.len() == 1 && pv[0] == '.') {
            r.push(p.clone());
            assert(views(r@) =~= before.push(p@));
        } else {
            assert(!is_named_part(p@)) by {
                if pv.len() == 1 && pv[0] == '.' {
                    assert(p@ =~= seq!['.']);
                }
            }
        }
        proof {
            if is_named_part(p@) {
                assert(pv.len() > 0);
                assert(!(pv.len() == 1 && pv@[0] == '.')) by {
                    if pv.len() == 1 && pv@[0] == '.' {
                        assert(p@ =~= seq!['.']);
                    }
                }
            }
        }
        i = i + 1;
    }
    assert(views(parts@).take(parts@.len() as int) =~= views(parts@));
    r
}

/// The components of a path after its root and a leading `.`.
pub fn parts_of(s: &str) -> (r: Vec<String>)
    ensures
        views(r@) == path_parts(s@),
{
    let pieces = split(s, '/');
    keep_named(&pieces)
}

fn root_flags(s: &str) -> (r: (bool, bool))
    ensures
        r.0 == has_root(s@),
        r.1 == leading_cur_dir(s@),
{
    let v = to_chars(s);
    let root = v.len() > 0 && v[0] == '/';
    let cur = !root && v.len() > 0 && v[0] == '.' && (v.len() == 1 || v[1] == '/');
    (root, cur)
}

/// Whether two paths are equal component by component, as `Path`'s `==` compares them.
pub fn paths_equal(a: &str, b: &str) -> (r: bool)
    ensures
        r == same_path(a@, b@),
{
    let fa = root_flags(a);
    let fb = root_flags(b);
    if fa.0 != fb.0 || fa.1 != fb.1 {
        return false;
    }
    let pa = parts_of(a);
    let pb = parts_of(b);
    if pa.len() != pb.len() {
        assert(views(pa@).len() != views(pb@).len());
        return false;
    }
    let mut i: usize = 0;
    while i < pa.len()
        invariant
            pa@.len() == pb@.len(),
            views(pa@) == path_parts(a@),
            views(pb@) == path_parts(b@),
            i <= pa@.len(),
            forall|j: int| 0 <= j < i ==> pa@[j]@ == pb@[j]@,
        decreases pa@.len() - i,
    {
        if !same_text(pa[i].as_str(), pb[i].as_str()) {
            assert(views(pa@)[i as int] != views(pb@)[i as int]);
            return false;
        }
        i = i + 1;
    }
    assert(views(pa@) =~= views(pb@));
    true
}

/// Whether `dir` is one of the directories of a `PATH` value (separated by `:`).
pub fn is_in_path(path_var: &str, dir: &str) -> (r: bool)
    ensures
        r == exists|j: int|
            0 <= j < split_on(path_var@, ':').len() && same_path(
                #[trigger] split_on(path_var@, ':')[j],
                dir@,
            ),
{
    let entries = split(path_var, ':');
    let mut i: usize = 0;
    while i < entries.len()
        invariant
            views(entries@) == split_on(path_var@, ':'),
            i <= entries@.len(),
            forall|j: int| 0 <= j < i ==> !same_path(#[trigger] split_on(path_var@, ':')[j], dir@),
        decreases entries@.len() - i,
    {
        assert(split_on(path_var@, ':')[i as int] == entries@[i as int]@);
        if paths_equal(entries[i].as_str(), dir) {
            return true;
        }
        i = i + 1;
    }
    false
}

/// The final component of a path, as `Path::file_name` gives it.
pub fn file_name(path: &str) -> (r: Option<String>)
    ensures
        r.deep_view() == file_name_of(path@),
{
    let mut parts = parts_of(path);
    let n = parts.len();
    if n == 0 {
        return None;
    }
    assert(views(parts@)[n - 1] == parts@[n - 1]@);
    let ghost whole = parts@;
    let last = parts.pop().unwrap();
    assert(last == whole[n - 1]);
    assert(last@ == path_parts(path@).last());
    proof {
        reveal_strlit("..");
        assert(".."@ =~= seq!['.', '.']);
    }
    if same_text(last.as_str(), "..") {
        return None;
    }
    Some(last)
}

/// The extension of a file name, as `Path::extension` gives it for a file name.
pub fn extension(name: &str) -> (r: Option<String>)
    ensures
        r.deep_view() == extension_of(name@),
{
    let pieces = split(name, '.');
    let k = pieces.len();
    if k < 2 {
        return None;
    }
    let last = &pieces[k - 1];
    let nl = name.unicode_len();
    let ll = last.unicode_len();
    assert(views(pieces@).last() == last@);
    if nl > ll && nl - ll > 1 {
        Some(last.clone())
    } else {
        None
    }
}

} // verus!
