//! `dra update`: which applications to check and whether one is out of date.

use vstd::prelude::*;

use crate::cli::remove_handler::{not_installed_error, not_installed_error_of};
use crate::github::release::Asset;
use crate::registry::app_record::{AppRecord, InstallType};
use crate::registry::{named, Registry};
use crate::text::{same_text, trim_start_char, trim_start_matching};

verus! {

/// A version without its leading `v`s, so that `v1.0` and `1.0` compare equal.
pub open spec fn normalized(v: Seq<char>) -> Seq<char> {
    trim_start_char(v, 'v')
}

/// Normalizing twice changes nothing more.
pub proof fn law_normalize_idempotent(v: Seq<char>)
    ensures
        normalized(normalized(v)) == normalized(v),
    decreases v.len(),
{
    if v.len() > 0 && v[0] == 'v' {
        law_normalize_idempotent(v.drop_first());
    }
}

/// A version and the same version with a leading `v` are the same once normalized.
pub proof fn law_leading_v_ignored(v: Seq<char>)
    ensures
        normalized(seq!['v'] + v) == normalized(v),
{
    assert((seq!['v'] + v).drop_first() =~= v);
}

/// Removes every leading `v` from a version.
pub fn normalize_version(version: &str) -> (r: String)
    ensures
        r@ == normalized(version@),
{
    trim_start_matching(version, 'v')
}

/// Whether the installed version is the latest one, leading `v`s ignored.
pub fn is_up_to_date(installed: &str, latest: &str) -> (b: bool)
    ensures
        b == (normalized(installed@) == normalized(latest@)),
{
    let a = normalize_version(installed);
    let b = normalize_version(latest);
    same_text(a.as_str(), b.as_str())
}

/// The positions of the records to check: the first one with the given name, or
/// every record when no name is given.
pub fn update_targets(registry: &Registry, name: Option<&str>) -> (r: Result<Vec<usize>, String>)
    ensures
        match name {
            None => r is Ok && r->Ok_0@ == Seq::new(
                registry.apps@.len(),
                |i: int| i as usize,
            ),
            Some(n) => match r {
                Ok(v) => v@.len() == 1 && v@[0] < registry.apps@.len()
                    && registry.apps@[v@[0] as int].name@ == n@ && forall|j: int|
                    0 <= j < v@[0] ==> (#[trigger] registry.apps@[j]).name@ != n@,
                Err(e) => e@ == not_installed_error_of(n@) && forall|j: int|
                    0 <= j < registry.apps@.len() ==> (#[trigger] registry.apps@[j]).name@ != n@,
            },
        },
{
    let len = registry.apps.len();
    match name {
        None => {
            let mut v: Vec<usize> = Vec::new();
            let mut i: usize = 0;
            while i < len
                invariant
                    name is None,
                    len == registry.apps@.len(),
                    i <= len,
                    v@ == Seq::new(i as nat, |k: int| k as usize),
                decreases len - i,
            {
                v.push(i);
                assert(v@ =~= Seq::new((i + 1) as nat, |k: int| k as usize));
                i = i + 1;
            }
            Ok(v)
        },
        Some(n) => {
            let mut i: usize = 0;
            while i < len
                invariant
                    name == Some(n),
                    len == registry.apps@.len(),
                    i <= len,
                    forall|j: int| 0 <= j < i ==> (#[trigger] registry.apps@[j]).name@ != n@,
                decreases len - i,
            {
                if same_text(registry.apps[i].name.as_str(), n) {
                    let mut v: Vec<usize> = Vec::new();
                    v.push(i);
                    return Ok(v);
                }
                i = i + 1;
            }
            Err(not_installed_error(n))
        },
    }
}

impl AppRecord {
    /// The same record at a new version.
    pub fn with_version(self, version: String) -> (r: AppRecord)
        ensures
            r.name == self.name,
            r.repo == self.repo,
            r.installed_version == version,
            r.install_type == self.install_type,
            r.installed_path == self.installed_path,
            r.executables == self.executables,
            r.installed_at == self.installed_at,
    {
        AppRecord { installed_version: version, ..self }
    }
}

/// The asset an update installs: the first of the release.
pub fn first_asset(assets: Vec<Asset>) -> (r: Result<Asset, String>)
    ensures
        match r {
            Ok(a) => assets@.len() > 0 && a == assets@[0],
            Err(e) => assets@.len() == 0 && e@ == "No assets found in latest release"@,
        },
{
    let mut assets = assets;
    if assets.len() == 0 {
        Err(String::from_str("No assets found in latest release"))
    } else {
        Ok(assets.swap_remove(0))
    }
}

/// The refusal `dra update` gives for a portable application.
pub open spec fn portable_update_refusal() -> Seq<char> {
    "Update for PortableApp type is not yet supported via 'dra update'. Use 'dra install-app' with the latest version instead."@
}

/// Why `dra update` does not update an application of this install type, if it
/// does not: portable applications are refused, the other types are updated.
pub fn update_refusal(install_type: InstallType) -> (r: Option<String>)
    ensures
        match r {
            Some(e) => install_type is PortableApp && e@ == portable_update_refusal(),
            None => !(install_type is PortableApp),
        },
{
    match install_type {
        InstallType::PortableApp => Some(
            String::from_str(
                "Update for PortableApp type is not yet supported via 'dra update'. Use 'dra install-app' with the latest version instead.",
            ),
        ),
        _ => None,
    }
}

} // verus!
