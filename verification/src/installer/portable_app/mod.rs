//! Portable applications: where their files go, what the generated files say,
//! and what the installation reports.

use vstd::prelude::*;

use crate::paths::{join, joined_path};
use crate::text::{join as join_lines, join_with};

pub mod desktop;
pub mod extract;
pub mod service;
pub mod symlink;
pub mod uninstall;

verus! {

/// What to install and how.
#[derive(Debug, Clone)]
pub struct PortableAppConfig {
    /// Application name (used for directory name, bin symlink, etc.)
    pub app_name: String,
    /// Relative path of the executable inside the package (e.g. "bin/code")
    pub bin_rel_path: String,
    /// Relative path of the icon inside the package (e.g. "share/icons/code.png")
    pub icon_rel_path: Option<String>,
    /// Path to an external icon file (copied into app dir)
    pub cicon_path: Option<String>,
    /// Generate a systemd user service
    pub service: bool,
    /// Enable autostart via .desktop symlink
    pub autostart: bool,
    /// Whether to skip confirmation when app_dir already exists
    pub yes: bool,
    /// Custom app directory root (default: ~/.local/app)
    pub app_root: Option<String>,
}

/// Where an installation put its files.
#[derive(Debug, Clone)]
pub struct InstallResult {
    pub app_dir: String,
    pub bin_link: String,
    pub desktop_link: String,
    pub service_link: Option<String>,
    pub autostart_link: Option<String>,
    pub uninstall_path: String,
}

/// Every path that an installation touches.
#[derive(Debug, Clone)]
pub struct InstallPlan {
    pub app_root: String,
    pub bin_dir: String,
    pub desktop_dir: String,
    pub systemd_dir: String,
    pub autostart_dir: String,
    pub app_dir: String,
    /// The executable inside the application directory
    pub bin_path: String,
    /// The `.desktop` file generated inside the application directory
    pub desktop_path: String,
    /// The `.service` file generated inside the application directory
    pub service_path: String,
    pub bin_link: String,
    pub desktop_link: String,
    pub service_link: Option<String>,
    pub autostart_link: Option<String>,
    /// The links, in the order they are created
    pub symlink_targets: Vec<String>,
    pub uninstall_path: String,
}

/// `a/b` as `Path::join` builds it.
pub open spec fn jp(a: Seq<char>, b: Seq<char>) -> Seq<char> {
    joined_path(a, b)
}

/// The lines of the installation summary.
pub open spec fn summary_lines(r: InstallResult, app_name: Seq<char>) -> Seq<Seq<char>> {
    seq![
        "  App directory: "@ + r.app_dir@,
        "  Uninstall:     "@ + r.uninstall_path@,
        "  Binary:        "@ + r.bin_link@,
        "  Desktop:       "@ + r.desktop_link@,
    ] + match r.service_link {
        Some(s) => seq!["  Service:       "@ + s@, "  Run: systemctl --user start "@ + app_name + ".service"@],
        None => Seq::<Seq<char>>::empty(),
    } + match r.autostart_link {
        Some(a) => seq!["  Autostart:     "@ + a@],
        None => Seq::<Seq<char>>::empty(),
    }
}

/// A label followed by a value.
fn labelled(label: &str, value: &str) -> (s: String)
    ensures
        s@ == label@ + value@,
{
    let mut s = String::from_str(label);
    s.append(value);
    s
}

/// A name followed by a suffix, such as `code` and `.desktop`.
pub fn with_suffix(name: &str, suffix: &str) -> (s: String)
    ensures
        s@ == name@ + suffix@,
{
    labelled(name, suffix)
}

impl InstallResult {
    /// A human readable summary of the installation, one path per line.
    pub fn summary(&self, app_name: &str) -> (s: String)
        ensures
            s@ == join_with(summary_lines(*self, app_name@), "\n"@),
    {
        let mut lines: Vec<String> = Vec::new();
        lines.push(labelled("  App directory: ", self.app_dir.as_str()));
        lines.push(labelled("  Uninstall:     ", self.uninstall_path.as_str()));
        lines.push(labelled("  Binary:        ", self.bin_link.as_str()));
        lines.push(labelled("  Desktop:       ", self.desktop_link.as_str()));
        match &self.service_link {
            Some(sl) => {
                lines.push(labelled("  Service:       ", sl.as_str()));
                let mut run = labelled("  Run: systemctl --user start ", app_name);
                run.append(".service");
                lines.push(run);
            },
            None => {},
        }
        match &self.autostart_link {
            Some(al) => {
                lines.push(labelled("  Autostart:     ", al.as_str()));
            },
            None => {},
        }
        assert(lines@.map_values(|x: String| x@) =~= summary_lines(*self, app_name@));
        join_lines(&lines, "\n")
    }
}

/// The application root: the configured one, or `~/.local/app`.
pub open spec fn app_root_for(home: Seq<char>, app_root: Option<Seq<char>>) -> Seq<char> {
    match app_root {
        Some(r) => r,
        None => jp(jp(home, ".local"@), "app"@),
    }
}

/// Where the installation puts everything, for a home directory and a configuration.
pub open spec fn planned(home: Seq<char>, config: PortableAppConfig, plan: InstallPlan) -> bool {
    let name = config.app_name@;
    let app_dir = jp(app_root_for(home, config.app_root.deep_view()), name);
    &&& plan.app_root@ == app_root_for(home, config.app_root.deep_view())
    &&& plan.bin_dir@ == jp(jp(home, ".local"@), "bin"@)
    &&& plan.desktop_dir@ == jp(jp(jp(home, ".local"@), "share"@), "applications"@)
    &&& plan.systemd_dir@ == jp(jp(jp(home, ".config"@), "systemd"@), "user"@)
    &&& plan.autostart_dir@ == jp(jp(home, ".config"@), "autostart"@)
    &&& plan.app_dir@ == app_dir
    &&& plan.bin_path@ == jp(app_dir, config.bin_rel_path@)
    &&& plan.desktop_path@ == jp(app_dir, name + ".desktop"@)
    &&& plan.service_path@ == jp(app_dir, name + ".service"@)
    &&& plan.bin_link@ == jp(plan.bin_dir@, name)
    &&& plan.desktop_link@ == jp(plan.desktop_dir@, name + ".desktop"@)
    &&& plan.service_link.deep_view() == (if config.service {
        Some(jp(plan.systemd_dir@, name + ".service"@))
    } else {
        None
    })
    &&& plan.autostart_link.deep_view() == (if config.autostart {
        Some(jp(plan.autostart_dir@, name + ".desktop"@))
    } else {
        None
    })
    &&& plan.symlink_targets@.map_values(|x: String| x@) == seq![plan.bin_link@, plan.desktop_link@]
        + (if config.service { seq![plan.service_link.deep_view()->0] } else { Seq::empty() }) + (
    if config.autostart {
        seq![plan.autostart_link.deep_view()->0]
    } else {
        Seq::empty()
    })
    &&& plan.uninstall_path@ == jp(app_dir, "uninstall.sh"@)
}

/// What to do about an application directory that may already exist.
#[derive(Debug, Clone, Copy, PartialEq, Eq, Structural)]
pub enum ExistingDirAction {
    /// There is no such directory: go on.
    Proceed,
    /// It exists and overwriting was allowed: remove it, then go on.
    RemoveThenProceed,
    /// It exists and overwriting was not allowed: stop with an error.
    Refuse,
}

/// Decides what to do about the application directory.
pub fn existing_dir_action(exists: bool, yes: bool) -> (a: ExistingDirAction)
    ensures
        !exists ==> a == ExistingDirAction::Proceed,
        exists && yes ==> a == ExistingDirAction::RemoveThenProceed,
        exists && !yes ==> a == ExistingDirAction::Refuse,
{
    if !exists {
        ExistingDirAction::Proceed
    } else if yes {
        ExistingDirAction::RemoveThenProceed
    } else {
        ExistingDirAction::Refuse
    }
}

/// What has just happened during an installation.
#[derive(Debug, Clone, Copy, PartialEq, Eq, Structural)]
pub enum InstallEvent {
    /// The installation starts; whether the application directory already exists.
    Started { app_dir_exists: bool },
    /// The existing application directory was removed.
    ExistingDirRemoved,
    /// The package was extracted; whether the executable is where it should be.
    Extracted { binary_present: bool },
    /// The `.desktop` file (and the `.service` file, if asked for) were written.
    FilesWritten,
    /// Every link was attempted; whether all were created or already in place.
    LinksDone { all_ok: bool },
    /// The service was enabled.
    ServiceEnabled,
    /// The uninstall script was written.
    UninstallWritten,
}

/// What the installation does next.
#[derive(Debug, Clone, Copy, PartialEq, Eq, Structural)]
pub enum InstallStep {
    /// Remove the existing application directory.
    RemoveExistingDir,
    /// Stop: the directory exists and overwriting was not allowed.
    Refuse,
    /// Create the application directory and extract the package into it.
    ExtractPackage,
    /// Remove the application directory and stop: the executable is missing.
    RemoveAppDirAndFail,
    /// Write the `.desktop` file, and the `.service` file if asked for.
    WriteFiles,
    /// Create the link directories and the links.
    CreateLinks,
    /// Stop: a link conflicts with an existing file.
    FailOnConflicts,
    /// Enable the service.
    EnableService,
    /// Write the uninstall script.
    WriteUninstallScript,
    /// Report the result.
    Done,
}

/// The step that follows an event, for an installation that may overwrite (`yes`) and
/// may install a service (`service`).
pub open spec fn step_after(yes: bool, service: bool, event: InstallEvent) -> InstallStep {
    match event {
        InstallEvent::Started { app_dir_exists } => if !app_dir_exists {
            InstallStep::ExtractPackage
        } else if yes {
            InstallStep::RemoveExistingDir
        } else {
            InstallStep::Refuse
        },
        InstallEvent::ExistingDirRemoved => InstallStep::ExtractPackage,
        InstallEvent::Extracted { binary_present } => if binary_present {
            InstallStep::WriteFiles
        } else {
            InstallStep::RemoveAppDirAndFail
        },
        InstallEvent::FilesWritten => InstallStep::CreateLinks,
        InstallEvent::LinksDone { all_ok } => if !all_ok {
            InstallStep::FailOnConflicts
        } else if service {
            InstallStep::EnableService
        } else {
            InstallStep::WriteUninstallScript
        },
        InstallEvent::ServiceEnabled => InstallStep::WriteUninstallScript,
        InstallEvent::UninstallWritten => InstallStep::Done,
    }
}

/// Decides the next step of an installation from what has just happened.
pub fn next_step(config: &PortableAppConfig, event: InstallEvent) -> (s: InstallStep)
    ensures
        s == step_after(config.yes, config.service, event),
{
    match event {
        InstallEvent::Started { app_dir_exists } => match existing_dir_action(
            app_dir_exists,
            config.yes,
        ) {
            ExistingDirAction::Proceed => InstallStep::ExtractPackage,
            ExistingDirAction::RemoveThenProceed => InstallStep::RemoveExistingDir,
            ExistingDirAction::Refuse => InstallStep::Refuse,
        },
        InstallEvent::ExistingDirRemoved => InstallStep::ExtractPackage,
        InstallEvent::Extracted { binary_present } => if binary_present {
            InstallStep::WriteFiles
        } else {
            InstallStep::RemoveAppDirAndFail
        },
        InstallEvent::FilesWritten => InstallStep::CreateLinks,
        InstallEvent::LinksDone { all_ok } => if !all_ok {
            InstallStep::FailOnConflicts
        } else if config.service {
            InstallStep::EnableService
        } else {
            InstallStep::WriteUninstallScript
        },
        InstallEvent::ServiceEnabled => InstallStep::WriteUninstallScript,
        InstallEvent::UninstallWritten => InstallStep::Done,
    }
}

/// The error reported when a link conflicts with an existing file.
pub open spec fn conflicts_error() -> Seq<char> {
    "Installation failed due to conflicts. Run the app's uninstall.sh to clean up."@
}

/// The error reported when a link conflicts with an existing file.
pub fn link_conflicts_error() -> (e: String)
    ensures
        e@ == conflicts_error(),
{
    String::from_str("Installation failed due to conflicts. Run the app's uninstall.sh to clean up.")
}

/// The installation succeeds only if every link was created or already in place.
pub fn all_links_ok(results: &Vec<bool>) -> (b: bool)
    ensures
        b == forall|i: int| 0 <= i < results@.len() ==> #[trigger] results@[i],
{
    let mut i: usize = 0;
    while i < results.len()
        invariant
            i <= results@.len(),
            forall|j: int| 0 <= j < i ==> #[trigger] results@[j],
        decreases results@.len() - i,
    {
        if !results[i] {
            return false;
        }
        i = i + 1;
    }
    true
}

/// The portable application installer.
pub struct PortableAppInstaller;

impl PortableAppInstaller {
    /// Works out every path of the installation from the home directory and the configuration.
    pub fn plan(home: &str, config: &PortableAppConfig) -> (p: InstallPlan)
        ensures
            planned(home@, *config, p),
    {
        let local = join(home, ".local");
        let app_root = match &config.app_root {
            Some(r) => r.clone(),
            None => join(local.as_str(), "app"),
        };
        let bin_dir = join(local.as_str(), "bin");
        let share = join(local.as_str(), "share");
        let desktop_dir = join(share.as_str(), "applications");
        let config_dir = join(home, ".config");
        let systemd = join(config_dir.as_str(), "systemd");
        let systemd_dir = join(systemd.as_str(), "user");
        let autostart_dir = join(config_dir.as_str(), "autostart");
        let name = config.app_name.as_str();
        let app_dir = join(app_root.as_str(), name);
        let bin_path = join(app_dir.as_str(), config.bin_rel_path.as_str());
        let desktop_file = with_suffix(name, ".desktop");
        let service_file = with_suffix(name, ".service");
        let desktop_path = join(app_dir.as_str(), desktop_file.as_str());
        let service_path = join(app_dir.as_str(), service_file.as_str());
        let bin_link = join(bin_dir.as_str(), name);
        let desktop_link = join(desktop_dir.as_str(), desktop_file.as_str());
        let mut symlink_targets: Vec<String> = Vec::new();
        symlink_targets.push(bin_link.clone());
        symlink_targets.push(desktop_link.clone());
        let service_link = if config.service {
            let sl = join(systemd_dir.as_str(), service_file.as_str());
            symlink_targets.push(sl.clone());
            Some(sl)
        } else {
            None
        };
        let autostart_link = if config.autostart {
            let al = join(autostart_dir.as_str(), desktop_file.as_str());
            symlink_targets.push(al.clone());
            Some(al)
        } else {
            None
        };
        let uninstall_path = join(app_dir.as_str(), "uninstall.sh");
        let p = InstallPlan {
            app_root,
            bin_dir,
            desktop_dir,
            systemd_dir,
            autostart_dir,
            app_dir,
            bin_path,
            desktop_path,
            service_path,
            bin_link,
            desktop_link,
            service_link,
            autostart_link,
            symlink_targets,
            uninstall_path,
        };
        assert(p.symlink_targets@.map_values(|x: String| x@) =~= seq![p.bin_link@, p.desktop_link@]
            + (if config.service { seq![p.service_link.deep_view()->0] } else { Seq::empty() }) + (
        if config.autostart {
            seq![p.autostart_link.deep_view()->0]
        } else {
            Seq::empty()
        }));
        p
    }

    /// The error reported when the application directory already exists and
    /// overwriting was not allowed.
    pub fn existing_dir_error(app_dir: &str) -> (s: String)
        ensures
            s@ == "App directory already exists: "@ + app_dir@
                + "\nUse --yes to overwrite automatically, or remove it first."@,
    {
        let mut s = labelled("App directory already exists: ", app_dir);
        s.append("\nUse --yes to overwrite automatically, or remove it first.");
        s
    }

    /// The error reported when the executable is missing after extraction.
    pub fn missing_binary_error(bin_path: &str) -> (s: String)
        ensures
            s@ == "Binary not found at expected path: "@ + bin_path@,
    {
        labelled("Binary not found at expected path: ", bin_path)
    }
}

impl InstallPlan {
    /// What the installation reports once every step has succeeded.
    pub fn into_result(self) -> (r: InstallResult)
        ensures
            r.app_dir == self.app_dir,
            r.bin_link == self.bin_link,
            r.desktop_link == self.desktop_link,
            r.service_link == self.service_link,
            r.autostart_link == self.autostart_link,
            r.uninstall_path == self.uninstall_path,
    {
        InstallResult {
            app_dir: self.app_dir,
            bin_link: self.bin_link,
            desktop_link: self.desktop_link,
            service_link: self.service_link,
            autostart_link: self.autostart_link,
            uninstall_path: self.uninstall_path,
        }
    }
}

/// An existing application directory is removed only when overwriting was allowed:
/// starting over an existing directory without `yes` refuses, whether or not a
/// service or autostart was asked for, and no other event ever removes or refuses.
pub proof fn law_overwrite_needs_yes(yes: bool, service: bool, event: InstallEvent)
    ensures
        step_after(yes, service, event) == InstallStep::RemoveExistingDir <==> (event
            == InstallEvent::Started { app_dir_exists: true } && yes),
        step_after(yes, service, event) == InstallStep::Refuse <==> (event
            == InstallEvent::Started { app_dir_exists: true } && !yes),
        step_after(yes, service, InstallEvent::Started { app_dir_exists: false })
            == InstallStep::ExtractPackage,
{
}

/// An installation fails when the executable is missing or a link conflicts,
/// whatever was asked for; the service is enabled only when one was asked for and
/// every link is in place; the uninstall script is always written before the end.
pub proof fn law_install_failures_and_service(yes: bool, service: bool, event: InstallEvent)
    ensures
        step_after(yes, service, InstallEvent::Extracted { binary_present: false })
            == InstallStep::RemoveAppDirAndFail,
        step_after(yes, service, InstallEvent::LinksDone { all_ok: false })
            == InstallStep::FailOnConflicts,
        step_after(yes, service, event) == InstallStep::EnableService <==> (event
            == InstallEvent::LinksDone { all_ok: true } && service),
        step_after(yes, service, event) == InstallStep::Done <==> event
            == InstallEvent::UninstallWritten,
        step_after(yes, service, event) == InstallStep::WriteUninstallScript <==> (event
            == InstallEvent::ServiceEnabled || (event == InstallEvent::LinksDone { all_ok: true }
            && !service)),
{
}

} // verus!
