use dra::installer::portable_app::desktop::{desktop_entry, icon_target, icons_dir};
use dra::installer::portable_app::extract::{
    archive_top_level, common_top_level, fault_message_text, has_stray_entry, top_level_of_listing, ArchiveFault,
};
use dra::installer::portable_app::service::service_unit;
use dra::installer::portable_app::symlink::{symlink_action, SymlinkAction};
use dra::installer::portable_app::uninstall::uninstall_script;
use dra::installer::portable_app::{
    all_links_ok, existing_dir_action, link_conflicts_error, next_step, ExistingDirAction, InstallEvent,
    InstallResult, InstallStep, PortableAppConfig, PortableAppInstaller,
};

fn config(service: bool, autostart: bool, app_root: Option<&str>) -> PortableAppConfig {
    PortableAppConfig {
        app_name: "vscode".to_string(),
        bin_rel_path: "bin/code".to_string(),
        icon_rel_path: None,
        cicon_path: None,
        service,
        autostart,
        yes: false,
        app_root: app_root.map(|s| s.to_string()),
    }
}

#[test]
fn plan_paths() {
    let p = PortableAppInstaller::plan("/home/u", &config(true, true, None));
    assert_eq!(p.app_dir, "/home/u/.local/app/vscode");
    assert_eq!(p.bin_path, "/home/u/.local/app/vscode/bin/code");
    assert_eq!(p.bin_link, "/home/u/.local/bin/vscode");
    assert_eq!(p.desktop_path, "/home/u/.local/app/vscode/vscode.desktop");
    assert_eq!(p.desktop_link, "/home/u/.local/share/applications/vscode.desktop");
    assert_eq!(p.service_path, "/home/u/.local/app/vscode/vscode.service");
    assert_eq!(p.service_link.as_deref(), Some("/home/u/.config/systemd/user/vscode.service"));
    assert_eq!(p.autostart_link.as_deref(), Some("/home/u/.config/autostart/vscode.desktop"));
    assert_eq!(p.symlink_targets.len(), 4);
    assert_eq!(p.uninstall_path, "/home/u/.local/app/vscode/uninstall.sh");
    let q = PortableAppInstaller::plan("/home/u", &config(false, false, Some("/opt/apps")));
    assert_eq!(q.app_dir, "/opt/apps/vscode");
    assert_eq!(q.service_link, None);
    assert_eq!(q.symlink_targets, vec!["/home/u/.local/bin/vscode", "/home/u/.local/share/applications/vscode.desktop"]);
}

#[test]
fn summary_lines() {
    let r = InstallResult {
        app_dir: "/a".to_string(),
        bin_link: "/b".to_string(),
        desktop_link: "/d".to_string(),
        service_link: Some("/s".to_string()),
        autostart_link: None,
        uninstall_path: "/a/uninstall.sh".to_string(),
    };
    assert_eq!(
        r.summary("app"),
        "  App directory: /a\n  Uninstall:     /a/uninstall.sh\n  Binary:        /b\n  Desktop:       /d\n  Service:       /s\n  Run: systemctl --user start app.service"
    );
    let p = PortableAppInstaller::plan("/h", &config(false, true, None)).into_result();
    assert!(p.summary("vscode").ends_with("  Autostart:     /h/.config/autostart/vscode.desktop"));
}

#[test]
fn desktop_file_content() {
    assert_eq!(
        desktop_entry("/a/vscode", "vscode", "bin/code", Some("/a/vscode/icon.png")),
        "[Desktop Entry]\nType=Application\nName=vscode\nExec=/a/vscode/bin/code\nPath=/a/vscode\nTerminal=false\nIcon=/a/vscode/icon.png\n"
    );
    assert!(!desktop_entry("/a", "x", "b", None).contains("Icon="));
    assert_eq!(icons_dir("/a"), "/a/share/icons");
    assert_eq!(icon_target("/a", "x", Some("i.png"), None).as_deref(), Some("/a/i.png"));
    assert_eq!(icon_target("/a", "x", Some("i.png"), Some("/tmp/logo.svg")).as_deref(), Some("/a/share/icons/x.svg"));
    assert_eq!(icon_target("/a", "x", None, Some("/tmp/logo")).as_deref(), Some("/a/share/icons/x.png"));
    assert_eq!(icon_target("/a", "x", None, None), None);
}

#[test]
fn service_file_content() {
    assert_eq!(
        service_unit("/a/app", "app", "bin/app"),
        "[Unit]\nDescription=app\n\n[Service]\nExecStart=/a/app/bin/app\nWorkingDirectory=/a/app\nRestart=on-failure\n\n[Install]\nWantedBy=default.target\n"
    );
}

#[test]
fn uninstall_script_content() {
    let links = vec!["/l1".to_string(), "/l2".to_string()];
    let s = uninstall_script("/a/app", "app", &links, true);
    let lines: Vec<&str> = s.split('\n').collect();
    assert_eq!(lines[0], "#!/usr/bin/env bash");
    assert_eq!(lines[3], "echo \"[+] Stopping and disabling service: app.service\"");
    assert_eq!(lines[4], "systemctl --user stop app.service 2>/dev/null || true");
    assert_eq!(lines[9], "rm -f \"/l1\"");
    assert_eq!(lines[10], "rm -f \"/l2\"");
    assert_eq!(lines[13], "rm -rf \"/a/app\"");
    assert_eq!(*lines.last().unwrap(), "echo \"[+] Uninstallation completed successfully.\"");
    assert!(!uninstall_script("/a", "app", &links, false).contains("systemctl"));
}

fn entry(parts: &[&str], is_dir: bool) -> (Vec<String>, bool) {
    (parts.iter().map(|p| p.to_string()).collect(), is_dir)
}

#[test]
fn top_level_prefix() {
    let s = |x: &str| Some(x.to_string());
    assert_eq!(
        common_top_level(&vec![entry(&["MyApp-1.0", "file1.txt"], false), entry(&["MyApp-1.0", "sub", "f"], false)]),
        s("MyApp-1.0")
    );
    assert_eq!(common_top_level(&vec![entry(&["MyApp"], true), entry(&["MyApp", "f"], false)]), s("MyApp"));
    assert_eq!(common_top_level(&vec![entry(&["file1.txt"], false), entry(&["sub", "f"], false)]), None);
    assert_eq!(common_top_level(&vec![entry(&["app"], false)]), None);
    assert_eq!(common_top_level(&vec![entry(&["a", "b"], false), entry(&[], false)]), None);
    assert_eq!(common_top_level(&vec![]), None);
}

fn tar_gz(entries: &[(&str, bool)]) -> Vec<u8> {
    let encoder = flate2::write::GzEncoder::new(Vec::new(), flate2::Compression::fast());
    let mut builder = tar::Builder::new(encoder);
    for (path, is_dir) in entries {
        let mut header = tar::Header::new_gnu();
        header.set_path(path).unwrap();
        if *is_dir {
            header.set_entry_type(tar::EntryType::Directory);
            header.set_size(0);
            header.set_mode(0o755);
            header.set_cksum();
            builder.append(&header, &b""[..]).unwrap();
        } else {
            header.set_size(5);
            header.set_mode(0o644);
            header.set_cksum();
            builder.append(&header, &b"hello"[..]).unwrap();
        }
    }
    builder.into_inner().unwrap().finish().unwrap()
}

#[test]
fn archive_top_level_reads_real_archives() {
    let with_prefix = tar_gz(&[("MyApp-1.0/file1.txt", false), ("MyApp-1.0/sub/file2.txt", false)]);
    assert_eq!(archive_top_level(&with_prefix), Ok(Some("MyApp-1.0".to_string())));
    let no_prefix = tar_gz(&[("file1.txt", false), ("sub/file2.txt", false)]);
    assert_eq!(archive_top_level(&no_prefix), Ok(None));
    let single_file = tar_gz(&[("app", false)]);
    assert_eq!(archive_top_level(&single_file), Ok(None));
    let dir_entry = tar_gz(&[("app", true), ("app/bin", false)]);
    assert_eq!(archive_top_level(&dir_entry), Ok(Some("app".to_string())));
    assert_eq!(archive_top_level(b"not an archive"), Err("Error reading archive entry: invalid gzip header".to_string()));
}

#[test]
fn listing_faults_and_stray_entries() {
    let fault = |k: ArchiveFault| Some((k, "boom".to_string()));
    let same = vec![entry(&["app", "a"], false), entry(&["app", "b"], false)];
    let stray = vec![entry(&["app", "a"], false), entry(&["other"], false)];
    assert!(!has_stray_entry(&same));
    assert!(has_stray_entry(&stray));
    assert!(has_stray_entry(&vec![entry(&[], false)]));
    assert!(!has_stray_entry(&vec![]));
    assert_eq!(top_level_of_listing(&same, None), Ok(Some("app".to_string())));
    assert_eq!(top_level_of_listing(&same, fault(ArchiveFault::Entry)), Err("Error reading archive entry: boom".to_string()));
    assert_eq!(top_level_of_listing(&vec![], fault(ArchiveFault::Archive)), Err("Error reading archive: boom".to_string()));
    assert_eq!(top_level_of_listing(&same, fault(ArchiveFault::Path)), Err("Error reading entry path: boom".to_string()));
    // A stray entry ends the walk before the later fault is reached.
    assert_eq!(top_level_of_listing(&stray, fault(ArchiveFault::Entry)), Ok(None));
    assert_eq!(fault_message_text(ArchiveFault::Path, "x"), "Error reading entry path: x");
}

#[test]
fn link_and_dir_decisions() {
    assert_eq!(symlink_action(false, "/x", "/y"), SymlinkAction::Create);
    assert_eq!(symlink_action(true, "/a/b/", "/a/b"), SymlinkAction::AlreadyLinked);
    assert_eq!(symlink_action(true, "/a/c", "/a/b"), SymlinkAction::Conflict);
    assert_eq!(existing_dir_action(false, false), ExistingDirAction::Proceed);
    assert_eq!(existing_dir_action(true, true), ExistingDirAction::RemoveThenProceed);
    assert_eq!(existing_dir_action(true, false), ExistingDirAction::Refuse);
    assert!(all_links_ok(&vec![true, true]));
    assert!(!all_links_ok(&vec![true, false]));
    assert_eq!(
        PortableAppInstaller::existing_dir_error("/x"),
        "App directory already exists: /x\nUse --yes to overwrite automatically, or remove it first."
    );
    assert_eq!(PortableAppInstaller::missing_binary_error("/x/b"), "Binary not found at expected path: /x/b");
}

#[test]
fn install_steps_in_order() {
    let with_service = config(true, false, None);
    let plain = config(false, false, None);
    assert_eq!(next_step(&plain, InstallEvent::Started { app_dir_exists: true }), InstallStep::Refuse);
    let mut yes = config(false, false, None);
    yes.yes = true;
    assert_eq!(next_step(&yes, InstallEvent::Started { app_dir_exists: true }), InstallStep::RemoveExistingDir);
    assert_eq!(next_step(&plain, InstallEvent::Started { app_dir_exists: false }), InstallStep::ExtractPackage);
    assert_eq!(next_step(&plain, InstallEvent::ExistingDirRemoved), InstallStep::ExtractPackage);
    assert_eq!(next_step(&plain, InstallEvent::Extracted { binary_present: false }), InstallStep::RemoveAppDirAndFail);
    assert_eq!(next_step(&plain, InstallEvent::Extracted { binary_present: true }), InstallStep::WriteFiles);
    assert_eq!(next_step(&plain, InstallEvent::FilesWritten), InstallStep::CreateLinks);
    assert_eq!(next_step(&plain, InstallEvent::LinksDone { all_ok: false }), InstallStep::FailOnConflicts);
    assert_eq!(next_step(&plain, InstallEvent::LinksDone { all_ok: true }), InstallStep::WriteUninstallScript);
    assert_eq!(next_step(&with_service, InstallEvent::LinksDone { all_ok: true }), InstallStep::EnableService);
    assert_eq!(next_step(&with_service, InstallEvent::ServiceEnabled), InstallStep::WriteUninstallScript);
    assert_eq!(next_step(&plain, InstallEvent::UninstallWritten), InstallStep::Done);
    assert_eq!(
        link_conflicts_error(),
        "Installation failed due to conflicts. Run the app's uninstall.sh to clean up."
    );
}
