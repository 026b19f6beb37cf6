//! The registry of installed applications, kept as a list of records.

use vstd::prelude::*;

use crate::paths::{join, joined_path};
use crate::text::same_text;

pub mod app_record;

use app_record::AppRecord;

verus! {

/// The records of `s` whose name is `n`, in order.
pub open spec fn named(s: Seq<AppRecord>, n: Seq<char>) -> Seq<AppRecord>
    decreases s.len(),
{
    if s.len() == 0 {
        s
    } else if s.last().name@ == n {
        named(s.drop_last(), n).push(s.last())
    } else {
        named(s.drop_last(), n)
    }
}

/// The records of `s` whose name is not `n`, in order.
pub open spec fn without(s: Seq<AppRecord>, n: Seq<char>) -> Seq<AppRecord>
    decreases s.len(),
{
    if s.len() == 0 {
        s
    } else if s.last().name@ == n {
        without(s.drop_last(), n)
    } else {
        without(s.drop_last(), n).push(s.last())
    }
}

/// The first record named `n`, if any.
pub open spec fn lookup(s: Seq<AppRecord>, n: Seq<char>) -> Option<AppRecord> {
    if named(s, n).len() > 0 {
        Some(named(s, n)[0])
    } else {
        None
    }
}

/// No two records share a name.
pub open spec fn names_unique(s: Seq<AppRecord>) -> bool {
    forall|n: Seq<char>| #[trigger] named(s, n).len() <= 1
}

/// Selecting by name distributes over concatenation.
pub proof fn lemma_named_concat(a: Seq<AppRecord>, b: Seq<AppRecord>, n: Seq<char>)
    ensures
        named(a + b, n) == named(a, n) + named(b, n),
    decreases b.len(),
{
    if b.len() == 0 {
        assert(a + b =~= a);
        assert(named(a, n) + named(b, n) =~= named(a, n));
    } else {
        lemma_named_concat(a, b.drop_last(), n);
        assert((a + b).drop_last() =~= a + b.drop_last());
        if b.last().name@ == n {
            assert(named(a, n) + named(b.drop_last(), n).push(b.last()) =~= (named(a, n) + named(
                b.drop_last(),
                n,
            )).push(b.last()));
        }
    }
}

/// Dropping one name does not change the records of another.
pub proof fn lemma_named_without(s: Seq<AppRecord>, n: Seq<char>, m: Seq<char>)
    ensures
        named(without(s, n), m) == if n == m { Seq::<AppRecord>::empty() } else { named(s, m) },
    decreases s.len(),
{
    if s.len() > 0 {
        lemma_named_without(s.drop_last(), n, m);
        if s.last().name@ != n {
            assert(without(s, n).drop_last() =~= without(s.drop_last(), n));
        }
    } else {
        assert(named(without(s, n), m) =~= Seq::<AppRecord>::empty());
    }
}

/// Every record is either named `n` or not.
pub proof fn lemma_named_without_len(s: Seq<AppRecord>, n: Seq<char>)
    ensures
        named(s, n).len() + without(s, n).len() == s.len(),
    decreases s.len(),
{
    if s.len() > 0 {
        lemma_named_without_len(s.drop_last(), n);
    }
}

/// The records of a sequence with one more record at the end.
pub proof fn lemma_named_push(s: Seq<AppRecord>, r: AppRecord, m: Seq<char>)
    ensures
        named(s.push(r), m) == if r.name@ == m { named(s, m).push(r) } else { named(s, m) },
{
    assert(s.push(r).drop_last() =~= s);
}

/// After adding a record, looking up its name gives that record.
pub proof fn law_add_then_get(s: Seq<AppRecord>, r: AppRecord)
    ensures
        lookup(without(s, r.name@).push(r), r.name@) == Some(r),
{
    lemma_named_push(without(s, r.name@), r, r.name@);
    lemma_named_without(s, r.name@, r.name@);
    assert(named(without(s, r.name@).push(r), r.name@) =~= seq![r]);
}

/// Adding a record leaves the lookup of every other name unchanged.
pub proof fn law_add_keeps_others(s: Seq<AppRecord>, r: AppRecord, m: Seq<char>)
    requires
        m != r.name@,
    ensures
        lookup(without(s, r.name@).push(r), m) == lookup(s, m),
{
    lemma_named_push(without(s, r.name@), r, m);
    lemma_named_without(s, r.name@, m);
}

/// After removing a name, looking it up finds nothing.
pub proof fn law_remove_then_get(s: Seq<AppRecord>, n: Seq<char>)
    ensures
        lookup(without(s, n), n) is None,
{
    lemma_named_without(s, n, n);
}

/// Removing a name leaves the lookup of every other name unchanged.
pub proof fn law_remove_keeps_others(s: Seq<AppRecord>, n: Seq<char>, m: Seq<char>)
    requires
        m != n,
    ensures
        lookup(without(s, n), m) == lookup(s, m),
{
    lemma_named_without(s, n, m);
}

/// Removing a name that no record has leaves the records as they were.
pub proof fn law_remove_absent(s: Seq<AppRecord>, n: Seq<char>)
    requires
        lookup(s, n) is None,
    ensures
        without(s, n) == s,
    decreases s.len(),
{
    if s.len() > 0 {
        if s.last().name@ == n {
            assert(named(s, n).len() > 0);
        }
        assert(named(s.drop_last(), n).len() == 0);
        law_remove_absent(s.drop_last(), n);
        assert(s.drop_last().push(s.last()) =~= s);
    }
}

/// Adding and removing keep names unique.
pub proof fn law_names_stay_unique(s: Seq<AppRecord>, r: AppRecord, n: Seq<char>)
    requires
        names_unique(s),
    ensures
        names_unique(without(s, r.name@).push(r)),
        names_unique(without(s, n)),
{
    assert forall|m: Seq<char>| #[trigger] named(without(s, r.name@).push(r), m).len() <= 1 by {
        lemma_named_push(without(s, r.name@), r, m);
        lemma_named_without(s, r.name@, m);
        assert(named(s, m).len() <= 1);
    }
    assert forall|m: Seq<char>| #[trigger] named(without(s, n), m).len() <= 1 by {
        lemma_named_without(s, n, m);
        assert(named(s, m).len() <= 1);
    }
}

/// Adding a record whose name is already there keeps the number of records when
/// names are unique; adding a new name adds one record.
pub proof fn law_add_count(s: Seq<AppRecord>, r: AppRecord)
    requires
        names_unique(s),
    ensures
        without(s, r.name@).push(r).len() == if lookup(s, r.name@) is Some {
            s.len()
        } else {
            s.len() + 1
        },
{
    lemma_named_without_len(s, r.name@);
    assert(named(s, r.name@).len() <= 1);
}

/// Where the registry is stored: `~/.local/share/dra/installed_apps.json`, with
/// `/tmp` standing in for an unknown home directory.
pub open spec fn registry_path_of(home: Option<Seq<char>>) -> Seq<char> {
    let h = match home {
        Some(h) => h,
        None => "/tmp"@,
    };
    joined_path(
        joined_path(joined_path(joined_path(h, ".local"@), "share"@), "dra"@),
        "installed_apps.json"@,
    )
}

/// The path of the registry file for a home directory (from `HOME`, if set).
pub fn registry_path(home: Option<&str>) -> (p: String)
    ensures
        p@ == registry_path_of(home.deep_view()),
{
    let h: &str = match home {
        Some(h) => h,
        None => "/tmp",
    };
    let local = join(h, ".local");
    let share = join(local.as_str(), "share");
    let dra = join(share.as_str(), "dra");
    join(dra.as_str(), "installed_apps.json")
}

/// The full registry: a list of records.
#[derive(Debug, Clone)]
pub struct Registry {
    pub apps: Vec<AppRecord>,
}

impl Default for Registry {
    fn default() -> (r: Self)
        ensures
            r.apps@ == Seq::<AppRecord>::empty(),
    {
        Registry { apps: Vec::new() }
    }
}

impl Registry {
    /// The registry read from disk, or an empty one when it could not be read or parsed.
    pub fn or_empty(stored: Option<Registry>) -> (r: Registry)
        ensures
            match stored {
                Some(s) => r == s,
                None => r.apps@ == Seq::<AppRecord>::empty(),
            },
    {
        match stored {
            Some(s) => s,
            None => Registry::default(),
        }
    }

    /// Drops every record named `name`, keeping the others in order.
    fn drop_named(&mut self, name: &str)
        ensures
            final(self).apps@ == without(old(self).apps@, name@),
    {
        let ghost s = self.apps@;
        let ghost mut j: int = 0;
        let mut i: usize = 0;
        assert(s.take(0) =~= Seq::<AppRecord>::empty());
        assert(s.skip(0) =~= s);
        while i < self.apps.len()
            invariant
                0 <= j <= s.len(),
                i <= self.apps@.len(),
                self.apps@.take(i as int) == without(s.take(j), name@),
                self.apps@.skip(i as int) == s.skip(j),
                self.apps@.len() - i == s.len() - j,
            decreases self.apps@.len() - i,
        {
            let ghost before = self.apps@;
            assert(s.take(j + 1).drop_last() =~= s.take(j));
            assert(s.skip(j)[0] == s[j]);
            assert(before[i as int] == before.skip(i as int)[0]);
            if same_text(self.apps[i].name.as_str(), name) {
                self.apps.remove(i);
                assert(self.apps@.take(i as int) =~= before.take(i as int));
                assert(self.apps@.skip(i as int) =~= before.skip(i as int).drop_first());
                assert(s.skip(j).drop_first() =~= s.skip(j + 1));
            } else {
                assert(self.apps@.take(i + 1) =~= before.take(i as int).push(before[i as int]));
                assert(self.apps@.skip(i + 1) =~= before.skip(i as int).drop_first());
                assert(s.skip(j).drop_first() =~= s.skip(j + 1));
                i = i + 1;
            }
            proof {
                j = j + 1;
            }
        }
        assert(self.apps@.skip(i as int).len() == 0);
        assert(j == s.len());
        assert(s.take(j) =~= s);
        assert(self.apps@ =~= self.apps@.take(i as int));
    }

    /// Adds a record; an existing record with the same name is replaced.
    pub fn add_record(&mut self, record: AppRecord)
        ensures
            final(self).apps@ == without(old(self).apps@, record.name@).push(record),
    {
        let ghost r = record;
        self.drop_named(record.name.as_str());
        self.apps.push(record);
    }

    /// Removes every record with the given name.
    pub fn remove_record(&mut self, name: &str)
        ensures
            final(self).apps@ == without(old(self).apps@, name@),
    {
        self.drop_named(name);
    }

    /// The first record with the given name, if any.
    pub fn get_record(&self, name: &str) -> (r: Option<&AppRecord>)
        ensures
            match r {
                Some(a) => lookup(self.apps@, name@) == Some(*a),
                None => lookup(self.apps@, name@) is None,
            },
    {
        let ghost s = self.apps@;
        let mut i: usize = 0;
        assert(s.take(0) =~= Seq::<AppRecord>::empty());
        while i < self.apps.len()
            invariant
                s == self.apps@,
                i <= s.len(),
                named(s.take(i as int), name@).len() == 0,
            decreases s.len() - i,
        {
            assert(s.take(i + 1).drop_last() =~= s.take(i as int));
            if same_text(self.apps[i].name.as_str(), name) {
                proof {
                    assert(s =~= s.take(i + 1) + s.skip(i + 1));
                    lemma_named_concat(s.take(i + 1), s.skip(i + 1), name@);
                }
                return Some(&self.apps[i]);
            }
            i = i + 1;
        }
        assert(s.take(i as int) =~= s);
        None
    }

    /// All records, in the order they were added.
    pub fn list_records(&self) -> (r: &[AppRecord])
        ensures
            r@ == self.apps@,
    {
        self.apps.as_slice()
    }
}

} // verus!
