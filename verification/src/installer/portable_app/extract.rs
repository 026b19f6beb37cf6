//! Which top-level directory, if any, all entries of an archive share.

use vstd::prelude::*;

use crate::text::same_text;

verus! {

/// What failed while an archive was read: the archive itself, one of its entries,
/// or an entry's path.
#[derive(Debug, Clone, Copy, PartialEq, Eq, Structural)]
pub enum ArchiveFault {
    Archive,
    Entry,
    Path,
}

/// What reading a gzip-compressed tar archive gives: the entries read, in order,
/// each as the components of its path and whether it is a directory; and, when
/// reading stopped at an error, what failed and the error's text.
pub uninterp spec fn archive_listing(bytes: Seq<u8>) -> (Seq<(Seq<Seq<char>>, bool)>, Option<(ArchiveFault, Seq<char>)>);

/// A fault with its text taken by view.
pub open spec fn fault_view(fault: Option<(ArchiveFault, String)>) -> Option<(ArchiveFault, Seq<char>)> {
    match fault {
        Some((kind, text)) => Some((kind, text@)),
        None => None,
    }
}

/// Decompresses the bytes with `flate2::read::GzDecoder` and walks
/// `tar::Archive::entries`, giving for each entry, in order, the components of
/// `Entry::path` (each as lossy UTF-8) and whether `Header::entry_type().is_dir()`.
/// It stops at the first error of `entries`, of an entry or of a path, and gives
/// the entries read before it with that error's kind and text. Claimed: the result
/// is `archive_listing` of the bytes.
#[verifier::external_body]
fn read_archive_entries(bytes: &[u8]) -> (r: (Vec<(Vec<String>, bool)>, Option<(ArchiveFault, String)>))
    ensures
        archive_listing(bytes@) == (r.0.deep_view(), fault_view(r.1)),
{
    let mut listed = Vec::new();
    let walk = (|| {
        for entry in tar::Archive::new(flate2::read::GzDecoder::new(bytes)).entries().map_err(|e| (ArchiveFault::Archive, e))? {
            let entry = entry.map_err(|e| (ArchiveFault::Entry, e))?;
            let path = entry.path().map_err(|e| (ArchiveFault::Path, e))?;
            let parts = path.components().map(|c| c.as_os_str().to_string_lossy().to_string()).collect();
            listed.push((parts, entry.header().entry_type().is_dir()));
        }
        Ok(())
    })();
    (listed, walk.err().map(|(kind, e)| (kind, e.to_string())))
}

/// The top-level directory shared by every entry: there is at least one entry,
/// every entry's path has the same first component, and that component is a
/// directory (no entry is that component alone as something other than a
/// directory). Otherwise none.
pub open spec fn common_top_dir(entries: Seq<(Seq<Seq<char>>, bool)>) -> Option<Seq<char>> {
    if entries.len() > 0 && (forall|i: int|
        0 <= i < entries.len() ==> (#[trigger] entries[i]).0.len() > 0 && entries[i].0[0]
            == entries[0].0[0] && (entries[i].0.len() == 1 ==> entries[i].1)) {
        Some(entries[0].0[0])
    } else {
        None
    }
}

/// The common top-level directory of an archive's entries.
pub fn common_top_level(entries: &Vec<(Vec<String>, bool)>) -> (r: Option<String>)
    ensures
        r.deep_view() == common_top_dir(entries.deep_view()),
{
    let ghost ev = entries.deep_view();
    let n = entries.len();
    if n == 0 {
        return None;
    }
    assert(ev[0] == entries@[0].deep_view());
    if entries[0].0.len() == 0 {
        assert(ev[0].0.len() == 0);
        return None;
    }
    let first: &String = &entries[0].0[0];
    assert(ev[0].0[0] == first@);
    let mut i: usize = 0;
    while i < n
        invariant
            ev == entries.deep_view(),
            n == entries@.len(),
            0 <= i <= n,
            ev[0].0.len() > 0,
            ev[0].0[0] == first@,
            forall|j: int|
                0 <= j < i ==> (#[trigger] ev[j]).0.len() > 0 && ev[j].0[0] == ev[0].0[0] && (
                ev[j].0.len() == 1 ==> ev[j].1),
        decreases n - i,
    {
        let (parts, is_dir) = (&entries[i].0, entries[i].1);
        assert(ev[i as int] == entries@[i as int].deep_view());
        assert(ev[i as int].0.len() == parts@.len());
        if parts.len() == 0 {
            return None;
        }
        assert(ev[i as int].0[0] == parts@[0]@);
        if !same_text(parts[0].as_str(), first.as_str()) {
            return None;
        }
        if parts.len() == 1 && !is_dir {
            return None;
        }
        i = i + 1;
    }
    Some(first.clone())
}

/// Some entry has an empty path or a first component other than the first entry's.
pub open spec fn stray_entry_exists(entries: Seq<(Seq<Seq<char>>, bool)>) -> bool {
    exists|i: int|
        0 <= i < entries.len() && ((#[trigger] entries[i]).0.len() == 0 || entries[i].0[0]
            != entries[0].0[0])
}

/// Whether some entry leaves the first entry's top-level component.
pub fn has_stray_entry(entries: &Vec<(Vec<String>, bool)>) -> (b: bool)
    ensures
        b == stray_entry_exists(entries.deep_view()),
{
    let ghost ev = entries.deep_view();
    let n = entries.len();
    if n == 0 {
        return false;
    }
    assert(ev[0] == entries@[0].deep_view());
    if entries[0].0.len() == 0 {
        assert(ev[0].0.len() == 0);
        return true;
    }
    let first: &String = &entries[0].0[0];
    assert(ev[0].0[0] == first@);
    let mut i: usize = 0;
    while i < n
        invariant
            ev == entries.deep_view(),
            n == entries@.len(),
            0 <= i <= n,
            ev[0].0.len() > 0,
            ev[0].0[0] == first@,
            forall|j: int|
                0 <= j < i ==> (#[trigger] ev[j]).0.len() > 0 && ev[j].0[0] == ev[0].0[0],
        decreases n - i,
    {
        let parts = &entries[i].0;
        assert(ev[i as int] == entries@[i as int].deep_view());
        assert(ev[i as int].0.len() == parts@.len());
        if parts.len() == 0 {
            return true;
        }
        assert(ev[i as int].0[0] == parts@[0]@);
        if !same_text(parts[0].as_str(), first.as_str()) {
            return true;
        }
        i = i + 1;
    }
    false
}

/// The message for a fault met while reading an archive.
pub open spec fn fault_message(kind: ArchiveFault, text: Seq<char>) -> Seq<char> {
    match kind {
        ArchiveFault::Archive => "Error reading archive: "@ + text,
        ArchiveFault::Entry => "Error reading archive entry: "@ + text,
        ArchiveFault::Path => "Error reading entry path: "@ + text,
    }
}

/// Builds the message for a fault met while reading an archive.
pub fn fault_message_text(kind: ArchiveFault, text: &str) -> (s: String)
    ensures
        s@ == fault_message(kind, text@),
{
    let mut s = match kind {
        ArchiveFault::Archive => String::from_str("Error reading archive: "),
        ArchiveFault::Entry => String::from_str("Error reading archive entry: "),
        ArchiveFault::Path => String::from_str("Error reading entry path: "),
    };
    s.append(text);
    s
}

/// What the entries read, and the fault that stopped the reading if any, decide:
/// the walk ends with no shared directory at the first stray entry, before any
/// later fault is met; otherwise a fault is an error, and a complete listing gives
/// its common top-level directory.
pub open spec fn top_level_outcome(
    entries: Seq<(Seq<Seq<char>>, bool)>,
    fault: Option<(ArchiveFault, Seq<char>)>,
) -> Result<Option<Seq<char>>, Seq<char>> {
    if stray_entry_exists(entries) {
        Ok(None)
    } else {
        match fault {
            Some((kind, text)) => Err(fault_message(kind, text)),
            None => Ok(common_top_dir(entries)),
        }
    }
}

/// A result with its strings taken by view.
pub open spec fn outcome_view(r: Result<Option<String>, String>) -> Result<Option<Seq<char>>, Seq<char>> {
    match r {
        Ok(top) => Ok(top.deep_view()),
        Err(e) => Err(e@),
    }
}

/// The shared top-level directory, or the error, that a listing of an archive gives.
pub fn top_level_of_listing(
    entries: &Vec<(Vec<String>, bool)>,
    fault: Option<(ArchiveFault, String)>,
) -> (r: Result<Option<String>, String>)
    ensures
        outcome_view(r) == top_level_outcome(entries.deep_view(), fault_view(fault)),
{
    if has_stray_entry(entries) {
        return Ok(None);
    }
    match fault {
        Some((kind, text)) => Err(fault_message_text(kind, text.as_str())),
        None => Ok(common_top_level(entries)),
    }
}

/// The top-level directory that every entry of a gzip-compressed tar archive shares,
/// if any; an error when reading the archive fails before a stray entry is met.
pub fn archive_top_level(bytes: &[u8]) -> (r: Result<Option<String>, String>)
    ensures
        outcome_view(r) == top_level_outcome(archive_listing(bytes@).0, archive_listing(bytes@).1),
{
    let (entries, fault) = read_archive_entries(bytes);
    top_level_of_listing(&entries, fault)
}

/// A shared top-level directory is shared by every entry, not only the first
/// ones: each entry's path is non-empty and starts with it. When some entry starts
/// elsewhere, there is none; when no entry strays, all entries start alike.
pub proof fn law_top_dir_shared_by_all(entries: Seq<(Seq<Seq<char>>, bool)>)
    ensures
        common_top_dir(entries) matches Some(d) ==> forall|i: int|
            0 <= i < entries.len() ==> (#[trigger] entries[i]).0.len() > 0 && entries[i].0[0] == d,
        stray_entry_exists(entries) ==> common_top_dir(entries) is None,
        !stray_entry_exists(entries) ==> forall|i: int, j: int|
            0 <= i < entries.len() && 0 <= j < entries.len() ==> (#[trigger] entries[i]).0.len() > 0
                && entries[i].0[0] == (#[trigger] entries[j]).0[0],
        (exists|i: int|
            0 <= i < entries.len() && (#[trigger] entries[i]).0.len() > 0 && entries[0].0.len() > 0
                && entries[i].0[0] != entries[0].0[0]) ==> stray_entry_exists(entries),
{
    if stray_entry_exists(entries) {
        let i = choose|i: int|
            0 <= i < entries.len() && ((#[trigger] entries[i]).0.len() == 0 || entries[i].0[0]
                != entries[0].0[0]);
        assert(entries[i] == entries[i]);
    }
    if !stray_entry_exists(entries) {
        assert forall|i: int, j: int|
            0 <= i < entries.len() && 0 <= j < entries.len() implies (#[trigger] entries[i]).0.len() > 0
            && entries[i].0[0] == (#[trigger] entries[j]).0[0] by {
            assert(!((entries[i]).0.len() == 0 || entries[i].0[0] != entries[0].0[0]));
            assert(!((entries[j]).0.len() == 0 || entries[j].0[0] != entries[0].0[0]));
        }
    }
}

/// An archive yields a directory to strip only when it was read to the end and
/// every entry starts with that directory.
pub proof fn law_outcome_strips_shared_dir(
    entries: Seq<(Seq<Seq<char>>, bool)>,
    fault: Option<(ArchiveFault, Seq<char>)>,
)
    ensures
        top_level_outcome(entries, fault) matches Ok(Some(d)) ==> fault is None && forall|i: int|
            0 <= i < entries.len() ==> (#[trigger] entries[i]).0.len() > 0 && entries[i].0[0] == d,
{
    law_top_dir_shared_by_all(entries);
}

/// The shared top-level component counts as a directory to strip only when no entry
/// is that component alone as a file; and when every entry starts with the first
/// entry's component and each entry that is that component alone is a directory,
/// that component is the result.
pub proof fn law_top_dir_is_directory(entries: Seq<(Seq<Seq<char>>, bool)>)
    ensures
        common_top_dir(entries) is Some ==> forall|i: int|
            0 <= i < entries.len() && (#[trigger] entries[i]).0.len() == 1 ==> entries[i].1,
        (entries.len() > 0 && forall|i: int|
            0 <= i < entries.len() ==> (#[trigger] entries[i]).0.len() > 0 && entries[i].0[0]
                == entries[0].0[0] && (entries[i].0.len() == 1 ==> entries[i].1)) ==> common_top_dir(
            entries,
        ) == Some(entries[0].0[0]),
{
}

} // verus!
