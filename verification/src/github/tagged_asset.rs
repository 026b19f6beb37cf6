//! Asset name patterns that stand for any release: `{tag}` marks where the
//! release's version goes.

use vstd::prelude::*;

use crate::github::release::Tag;
use crate::text::{starts_with, substring, to_chars, trim_start_char};

verus! {

/// `s` with every non-overlapping occurrence of `pat` (read left to right)
/// replaced by `rep`, as `str::replace` does for a non-empty `pat`.
pub open spec fn replace_all(s: Seq<char>, pat: Seq<char>, rep: Seq<char>) -> Seq<char>
    decreases s.len(),
{
    if s.len() == 0 || pat.len() == 0 {
        s
    } else if starts_with(s, pat) {
        rep + replace_all(s.skip(pat.len() as int), pat, rep)
    } else {
        seq![s[0]] + replace_all(s.drop_first(), pat, rep)
    }
}

/// The version of a tag: the tag without one leading `v`.
pub open spec fn version_of(tag: Seq<char>) -> Seq<char> {
    if tag.len() > 0 && tag[0] == 'v' {
        tag.drop_first()
    } else {
        tag
    }
}

/// The placeholder for the version in an untagged asset name.
pub open spec fn tag_placeholder() -> Seq<char> {
    "{tag}"@
}

impl Tag {
    /// The version this tag names: the tag without one leading `v`.
    pub fn version(&self) -> (v: String)
        ensures
            v@ == version_of(self.0@),
    {
        let c = to_chars(self.0.as_str());
        if c.len() > 0 && c[0] == 'v' {
            substring(self.0.as_str(), 1, c.len())
        } else {
            String::from_str(self.0.as_str())
        }
    }
}

/// Whether `p` occurs in `v` at position `i`.
fn occurs_at(v: &Vec<char>, i: usize, p: &Vec<char>) -> (b: bool)
    requires
        i <= v@.len(),
    ensures
        b == starts_with(v@.skip(i as int), p@),
{
    let vn = v.len();
    if p.len() > vn - i {
        return false;
    }
    let mut k: usize = 0;
    while k < p.len()
        invariant
            vn == v@.len(),
            i + p@.len() <= v@.len(),
            k <= p@.len(),
            forall|j: int| 0 <= j < k ==> v@[i + j] == p@[j],
        decreases p@.len() - k,
    {
        assert(i + k < v@.len());
        if v[i + k] != p[k] {
            assert(v@.skip(i as int).take(p@.len() as int)[k as int] != p@[k as int]);
            return false;
        }
        k = k + 1;
    }
    assert(v@.skip(i as int).take(p@.len() as int) =~= p@);
    true
}

/// Replaces every occurrence of `pat` in `s` by `rep`.
pub fn replace(s: &str, pat: &str, rep: &str) -> (r: String)
    ensures
        r@ == replace_all(s@, pat@, rep@),
{
    let v = to_chars(s);
    let p = to_chars(pat);
    let n = v.len();
    let pn = p.len();
    if pn == 0 {
        return String::from_str(s);
    }
    let mut out = String::new();
    let mut seg: usize = 0;
    let mut i: usize = 0;
    assert(s@.skip(0) =~= s@);
    while i < n
        invariant
            v@ == s@,
            p@ == pat@,
            n == v@.len(),
            pn == p@.len(),
            pn > 0,
            seg <= i <= n,
            out@ + s@.subrange(seg as int, i as int) + replace_all(s@.skip(i as int), pat@, rep@)
                == replace_all(s@, pat@, rep@),
        decreases n - i,
    {
        let ghost before = out@;
        if occurs_at(&v, i, &p) {
            let piece = substring(s, seg, i);
            out.append(piece.as_str());
            out.append(rep);
            assert(s@.skip(i as int).skip(pn as int) =~= s@.skip(i + pn));
            i = i + pn;
            seg = i;
            assert(s@.subrange(seg as int, i as int) =~= Seq::<char>::empty());
            assert(out@ == before + piece@ + rep@);
        } else {
            assert(s@.skip(i as int)[0] == s@[i as int]);
            assert(s@.skip(i as int).drop_first() =~= s@.skip(i + 1));
            assert(s@.subrange(seg as int, i + 1) =~= s@.subrange(seg as int, i as int).push(
                s@[i as int],
            ));
            i = i + 1;
        }
    }
    let last = substring(s, seg, n);
    out.append(last.as_str());
    assert(s@.skip(n as int) =~= Seq::<char>::empty());
    out
}

/// Turns untagged asset names into tagged ones and back.
pub struct TaggedAsset;

impl TaggedAsset {
    /// The asset name for a release: `{tag}` replaced by the release's version.
    pub fn tag(tag: &Tag, untagged: &str) -> (r: String)
        ensures
            r@ == replace_all(untagged@, tag_placeholder(), version_of(tag.0@)),
    {
        let version = tag.version();
        replace(untagged, "{tag}", version.as_str())
    }
}

} // verus!
