//! `dra remove`: what is deleted for each kind of installation.

use vstd::prelude::*;

use crate::installer::portable_app::{jp, with_suffix};
use crate::paths::join;
use crate::registry::app_record::InstallType;

verus! {

/// The error reported for a name the registry does not know.
pub open spec fn not_installed_error_of(name: Seq<char>) -> Seq<char> {
    "No installed app found with name '"@ + name + "'. Run 'dra list' to see installed apps."@
}

/// The directory executables are installed into: `~/.local/bin`.
pub open spec fn bin_dir_of(home: Seq<char>) -> Seq<char> {
    jp(jp(home, ".local"@), "bin"@)
}

/// Whether removing an installation of this type deletes its executables (as opposed
/// to a whole portable application).
pub open spec fn removes_executables(t: InstallType) -> bool {
    t != InstallType::PortableApp
}

/// What removing a portable application deletes.
pub struct PortableRemoval {
    /// The application directory
    pub app_dir: String,
    /// The links: executable, shortcut, service and autostart entry
    pub links: Vec<String>,
    /// The service unit; its presence means the service is stopped and disabled
    pub service_unit: String,
}

/// The error reported for a name the registry does not know.
pub fn not_installed_error(name: &str) -> (e: String)
    ensures
        e@ == not_installed_error_of(name@),
{
    let mut e = with_suffix("No installed app found with name '", name);
    e.append("'. Run 'dra list' to see installed apps.");
    e
}

/// Whether removing an installation of this type deletes its executables.
pub fn is_executable_type(t: InstallType) -> (b: bool)
    ensures
        b == removes_executables(t),
{
    match t {
        InstallType::PortableApp => false,
        _ => true,
    }
}

/// The files to delete for executables installed in `~/.local/bin`, in order.
pub fn executable_paths(home: &str, executables: &Vec<String>) -> (r: Vec<String>)
    ensures
        r@.len() == executables@.len(),
        forall|i: int|
            0 <= i < r@.len() ==> (#[trigger] r@[i])@ == jp(bin_dir_of(home@), executables@[i]@),
{
    let local = join(home, ".local");
    let bin_dir = join(local.as_str(), "bin");
    let mut r: Vec<String> = Vec::new();
    let mut i: usize = 0;
    while i < executables.len()
        invariant
            bin_dir@ == bin_dir_of(home@),
            i <= executables@.len(),
            r@.len() == i,
            forall|k: int|
                0 <= k < i ==> (#[trigger] r@[k])@ == jp(bin_dir_of(home@), executables@[k]@),
        decreases executables@.len() - i,
    {
        r.push(join(bin_dir.as_str(), executables[i].as_str()));
        i = i + 1;
    }
    r
}

/// What to delete for a portable application named `app_name`.
pub fn portable_app_removal(home: &str, app_name: &str) -> (r: PortableRemoval)
    ensures
        r.app_dir@ == jp(jp(jp(home@, ".local"@), "app"@), app_name@),
        r.links@.map_values(|x: String| x@) == seq![
            jp(jp(jp(home@, ".local"@), "bin"@), app_name@),
            jp(jp(jp(jp(home@, ".local"@), "share"@), "applications"@), app_name@ + ".desktop"@),
            jp(jp(jp(jp(home@, ".config"@), "systemd"@), "user"@), app_name@ + ".service"@),
            jp(jp(jp(home@, ".config"@), "autostart"@), app_name@ + ".desktop"@),
        ],
        r.service_unit@ == jp(
            jp(jp(jp(home@, ".config"@), "systemd"@), "user"@),
            app_name@ + ".service"@,
        ),
{
    let local = join(home, ".local");
    let config = join(home, ".config");
    let apps = join(local.as_str(), "app");
    let app_dir = join(apps.as_str(), app_name);
    let bin_dir = join(local.as_str(), "bin");
    let share = join(local.as_str(), "share");
    let desktop_dir = join(share.as_str(), "applications");
    let systemd = join(config.as_str(), "systemd");
    let systemd_dir = join(systemd.as_str(), "user");
    let autostart_dir = join(config.as_str(), "autostart");
    let desktop_file = with_suffix(app_name, ".desktop");
    let service_file = with_suffix(app_name, ".service");
    let mut links: Vec<String> = Vec::new();
    links.push(join(bin_dir.as_str(), app_name));
    links.push(join(desktop_dir.as_str(), desktop_file.as_str()));
    let service_unit = join(systemd_dir.as_str(), service_file.as_str());
    links.push(service_unit.clone());
    links.push(join(autostart_dir.as_str(), desktop_file.as_str()));
    let r = PortableRemoval { app_dir, links, service_unit };
    assert(r.links@.map_values(|x: String| x@) =~= seq![
        jp(jp(jp(home@, ".local"@), "bin"@), app_name@),
        jp(jp(jp(jp(home@, ".local"@), "share"@), "applications"@), app_name@ + ".desktop"@),
        jp(jp(jp(jp(home@, ".config"@), "systemd"@), "user"@), app_name@ + ".service"@),
        jp(jp(jp(home@, ".config"@), "autostart"@), app_name@ + ".desktop"@),
    ]);
    r
}

/// Removal deletes executables for a single binary, an archive binary and an
/// AppImage, and deletes a whole application only for a portable application.
pub proof fn law_executable_types()
    ensures
        removes_executables(InstallType::Bin),
        removes_executables(InstallType::ArchiveBin),
        removes_executables(InstallType::AppImage),
        !removes_executables(InstallType::PortableApp),
{
}

} // verus!
