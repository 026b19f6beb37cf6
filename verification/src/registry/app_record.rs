//! One installed application, as the registry records it.

use vstd::prelude::*;

use crate::civil_time::{iso_text, iso_timestamp};

verus! {

/// How an application was installed.
#[derive(Debug, Clone, Copy, PartialEq, Eq, Structural)]
pub enum InstallType {
    /// Single binary file copied to ~/.local/bin
    Bin,
    /// Executable extracted from a tar.gz/zip archive
    ArchiveBin,
    /// Portable app installed to ~/.local/app/<name> (with desktop/service)
    PortableApp,
    /// AppImage file
    AppImage,
}

/// A record of an installed application in the registry.
#[derive(Debug, Clone)]
pub struct AppRecord {
    /// Application name, e.g. "ripgrep" or "vscode"
    pub name: String,
    /// Source repository, e.g. "BurntSushi/ripgrep"
    pub repo: String,
    /// Currently installed version (GitHub tag), e.g. "v13.0.0"
    pub installed_version: String,
    /// How the app was installed
    pub install_type: InstallType,
    /// Primary installation path
    pub installed_path: String,
    /// Executable files placed in ~/.local/bin
    pub executables: Vec<String>,
    /// ISO 8601 timestamp of installation
    pub installed_at: String,
}

/// `std::time::SystemTime`, a reading of the system clock.
#[verifier::external_type_specification]
#[verifier::external_body]
pub struct ExSystemTime(std::time::SystemTime);

/// `std::time::SystemTimeError`, a clock reading before the reference time.
#[verifier::external_type_specification]
#[verifier::external_body]
pub struct ExSystemTimeError(std::time::SystemTimeError);

/// Calls `SystemTime::now()`. The result is the clock's, so nothing is claimed of it.
#[verifier::external_body]
fn system_now() -> (t: std::time::SystemTime) {
    std::time::SystemTime::now()
}

/// Calls `SystemTime::duration_since(UNIX_EPOCH)` on a reading. Nothing is claimed of
/// the result: it depends on the clock reading, which is opaque here.
#[verifier::external_body]
fn since_unix_epoch(t: &std::time::SystemTime) -> (d: Result<std::time::Duration, std::time::SystemTimeError>) {
    t.duration_since(std::time::UNIX_EPOCH)
}

/// Calls `Duration::as_secs`. Nothing is claimed of the result, a function of an
/// opaque duration.
#[verifier::external_body]
fn whole_seconds(d: &std::time::Duration) -> (s: u64) {
    d.as_secs()
}

/// Seconds since the Unix epoch by the system clock; zero for a clock set before it.
fn unix_time_secs() -> (secs: u64) {
    let now = system_now();
    match since_unix_epoch(&now) {
        Ok(d) => whole_seconds(&d),
        Err(_) => 0,
    }
}

/// The current time as an ISO 8601 timestamp (UTC).
pub fn chrono_now() -> (s: String)
    ensures
        exists|secs: u64| s@ == iso_text(secs as nat),
{
    let secs = unix_time_secs();
    iso_timestamp(secs)
}

impl AppRecord {
    /// Creates a record stamped with the current time.
    pub fn new(
        name: String,
        repo: String,
        installed_version: String,
        install_type: InstallType,
        installed_path: String,
        executables: Vec<String>,
    ) -> (r: Self)
        ensures
            r.name == name,
            r.repo == repo,
            r.installed_version == installed_version,
            r.install_type == install_type,
            r.installed_path == installed_path,
            r.executables == executables,
            exists|secs: u64| r.installed_at@ == iso_text(secs as nat),
    {
        let installed_at = chrono_now();
        AppRecord {
            name,
            repo,
            installed_version,
            install_type,
            installed_path,
            executables,
            installed_at,
        }
    }
}

} // verus!
