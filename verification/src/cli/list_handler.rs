//! `dra list`: the table of installed applications.

use vstd::prelude::*;

use crate::registry::app_record::{AppRecord, InstallType};
use crate::text::join as join_lines;

verus! {

/// The label of an installation type in the table.
pub open spec fn type_label_of(t: InstallType) -> Seq<char> {
    match t {
        InstallType::Bin => "Bin"@,
        InstallType::ArchiveBin => "ArchiveBin"@,
        InstallType::PortableApp => "PortableApp"@,
        InstallType::AppImage => "AppImage"@,
    }
}

/// `s` padded with spaces on the right to at least `width` characters, as `{:<width}` does.
pub open spec fn padded(s: Seq<char>, width: nat) -> Seq<char> {
    if s.len() >= width {
        s
    } else {
        s + Seq::new((width - s.len()) as nat, |i: int| ' ')
    }
}

/// A row of the table: name, version, type and repository in columns of 20, 14, 16
/// and 30 characters, separated by single spaces.
pub open spec fn row_of(r: AppRecord) -> Seq<char> {
    padded(r.name@, 20) + " "@ + padded(r.installed_version@, 14) + " "@ + padded(
        type_label_of(r.install_type),
        16,
    ) + " "@ + padded(r.repo@, 30)
}

/// The label of an installation type.
pub fn type_label(t: InstallType) -> (s: &'static str)
    ensures
        s@ == type_label_of(t),
{
    match t {
        InstallType::Bin => "Bin",
        InstallType::ArchiveBin => "ArchiveBin",
        InstallType::PortableApp => "PortableApp",
        InstallType::AppImage => "AppImage",
    }
}

/// Pads `s` with spaces on the right to `width` characters.
pub fn pad_right(s: &str, width: usize) -> (r: String)
    ensures
        r@ == padded(s@, width as nat),
{
    let n = s.unicode_len();
    let mut r = String::from_str(s);
    if n >= width {
        return r;
    }
    let mut k: usize = n;
    while k < width
        invariant
            n == s@.len(),
            n <= k <= width,
            r@ == s@ + Seq::new((k - n) as nat, |i: int| ' '),
        decreases width - k,
    {
        r.append(" ");
        proof {
            reveal_strlit(" ");
        }
        assert(s@ + Seq::new((k + 1 - n) as nat, |i: int| ' ') =~= s@ + Seq::new(
            (k - n) as nat,
            |i: int| ' ',
        ) + " "@);
        k = k + 1;
    }
    r
}

/// One row of the table of installed applications.
pub fn list_row(record: &AppRecord) -> (s: String)
    ensures
        s@ == row_of(*record),
{
    let mut s = pad_right(record.name.as_str(), 20);
    s.append(" ");
    let v = pad_right(record.installed_version.as_str(), 14);
    s.append(v.as_str());
    s.append(" ");
    let t = pad_right(type_label(record.install_type), 16);
    s.append(t.as_str());
    s.append(" ");
    let r = pad_right(record.repo.as_str(), 30);
    s.append(r.as_str());
    s
}

/// The header of the table, laid out like a row.
pub fn header_row() -> (s: String)
    ensures
        s@ == padded("Name"@, 20) + " "@ + padded("Version"@, 14) + " "@ + padded("Type"@, 16) + " "@
            + padded("Repository"@, 30),
{
    let mut s = pad_right("Name", 20);
    s.append(" ");
    let v = pad_right("Version", 14);
    s.append(v.as_str());
    s.append(" ");
    let t = pad_right("Type", 16);
    s.append(t.as_str());
    s.append(" ");
    let r = pad_right("Repository", 30);
    s.append(r.as_str());
    s
}

/// The rows of the table, one per record, in order.
pub fn list_rows(records: &[AppRecord]) -> (s: String)
    ensures
        s@ == crate::text::join_with(records@.map_values(|r: AppRecord| row_of(r)), "\n"@),
{
    let mut rows: Vec<String> = Vec::new();
    let mut i: usize = 0;
    while i < records.len()
        invariant
            i <= records@.len(),
            rows@.map_values(|x: String| x@) == records@.take(i as int).map_values(
                |r: AppRecord| row_of(r),
            ),
        decreases records@.len() - i,
    {
        let ghost before = rows@.map_values(|x: String| x@);
        rows.push(list_row(&records[i]));
        assert(records@.take(i + 1).map_values(|r: AppRecord| row_of(r)) =~= records@.take(
            i as int,
        ).map_values(|r: AppRecord| row_of(r)).push(row_of(records@[i as int])));
        assert(rows@.map_values(|x: String| x@) =~= before.push(row_of(records@[i as int])));
        i = i + 1;
    }
    assert(records@.take(records@.len() as int) =~= records@);
    join_lines(&rows, "\n")
}

} // verus!
