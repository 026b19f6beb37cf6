//! The systemd user service of a portable application.

use vstd::prelude::*;

use crate::installer::portable_app::jp;
use crate::paths::join;

verus! {

/// The unit file: a description, the command and working directory, restart on
/// failure, wanted by the default target.
pub open spec fn service_text(app_dir: Seq<char>, app_name: Seq<char>, bin_rel: Seq<char>) -> Seq<char> {
    "[Unit]\nDescription="@ + app_name + "\n\n[Service]\nExecStart="@ + jp(app_dir, bin_rel)
        + "\nWorkingDirectory="@ + app_dir
        + "\nRestart=on-failure\n\n[Install]\nWantedBy=default.target\n"@
}

/// The content of the `.service` file.
pub fn service_unit(app_dir: &str, app_name: &str, bin_rel_path: &str) -> (s: String)
    ensures
        s@ == service_text(app_dir@, app_name@, bin_rel_path@),
{
    let exec_path = join(app_dir, bin_rel_path);
    let mut s = String::from_str("[Unit]\nDescription=");
    s.append(app_name);
    s.append("\n\n[Service]\nExecStart=");
    s.append(exec_path.as_str());
    s.append("\nWorkingDirectory=");
    s.append(app_dir);
    s.append("\nRestart=on-failure\n\n[Install]\nWantedBy=default.target\n");
    s
}

} // verus!
