use dra::cli::install_app_handler::{
    app_not_found_error,
    derive_name, find_asset_by_pattern, select_by_pattern, uninstall_app_dir, AssetSelectionMode,
    InstallAppHandler,
};
use dra::cli::list_handler::{header_row, list_row, list_rows, pad_right, type_label};
use dra::cli::remove_handler::{executable_paths, is_executable_type, not_installed_error, portable_app_removal};
use dra::cli::update_handler::{first_asset, is_up_to_date, normalize_version, update_refusal, update_targets};
use dra::github::release::{Asset, Release, Repository, Tag};
use dra::installer::portable_app::InstallResult;
use dra::registry::app_record::{AppRecord, InstallType};
use dra::registry::Registry;

#[test]
fn test_derive_name_from_asset() {
    assert_eq!(derive_name("vscode-1.80.0-linux-x64.tar.gz"), "vscode");
    assert_eq!(derive_name("code-server-4.0.0.tar.gz"), "code");
    assert_eq!(derive_name("myapp"), "myapp");
    assert_eq!(derive_name("simple-name-v2.0.tar.gz"), "simple");
}

#[test]
fn derive_name_of_leading_dash_is_empty() {
    assert_eq!(derive_name("-x"), "");
    assert_eq!(derive_name(""), "");
}

#[test]
fn test_update_not_needed() {
    let current = "v1.0.0".to_string();
    let latest = "v1.0.0".to_string();
    assert_eq!(normalize_version(&current), normalize_version(&latest));
}

#[test]
fn test_update_needed() {
    let current = "v1.0.0".to_string();
    let latest = "v2.0.0".to_string();
    assert_ne!(normalize_version(&current), normalize_version(&latest));
}

#[test]
fn up_to_date_ignores_leading_v() {
    assert!(is_up_to_date("v1.2.3", "1.2.3"));
    assert!(is_up_to_date("vv1", "1"));
    assert!(!is_up_to_date("1.2.3", "1.2.4"));
    assert_eq!(normalize_version("vvv"), "");
}

fn asset(name: &str) -> Asset {
    Asset { name: name.to_string(), download_url: format!("https://github.com/o/r/releases/download/v1/{}", name) }
}

#[test]
fn pattern_selects_first_match() {
    let assets = vec![asset("a.zip"), asset("b_1.0.tar.gz"), asset("c_1.0.tar.gz")];
    let found = find_asset_by_pattern(assets, "*_1.0.tar.gz").unwrap();
    assert_eq!(found.name, "b_1.0.tar.gz");
    let none = find_asset_by_pattern(vec![asset("a.zip")], "?.tar");
    assert!(none.is_none());
    let q = find_asset_by_pattern(vec![asset("ab"), asset("a")], "?").unwrap();
    assert_eq!(q.name, "a");
}

#[test]
fn select_by_pattern_fills_in_the_version() {
    let release = Release {
        tag: Tag("v0.1.5".to_string()),
        assets: vec![asset("helloworld_0.1.5.tar.gz"), asset("helloworld_0.1.5.zip")],
    };
    let a = select_by_pattern(release, "helloworld_{tag}.zip").unwrap();
    assert_eq!(a.name, "helloworld_0.1.5.zip");
    let release = Release { tag: Tag("1.0".to_string()), assets: vec![asset("x.deb")] };
    assert_eq!(select_by_pattern(release, "y*").unwrap_err(), "No asset found for y*");
}

#[test]
fn literal_selection_matches_exact_name() {
    let release = Release { tag: Tag("1.0".to_string()), assets: vec![asset("ab"), asset("a")] };
    assert_eq!(select_by_pattern(release, "a").unwrap().name, "a");
}

fn handler(name: Option<&str>, select: Option<&str>, automatic: bool) -> InstallAppHandler {
    InstallAppHandler::new(
        None,
        Some("/tmp/pkg.tar.gz".to_string()),
        "bin/code".to_string(),
        name.map(|s| s.to_string()),
        Some("share/icon.png".to_string()),
        None,
        true,
        false,
        true,
        select.map(|s| s.to_string()),
        automatic,
        None,
        None,
    )
}

#[test]
fn selection_mode_precedence() {
    assert!(matches!(handler(None, Some("x*"), true).selection_mode(), AssetSelectionMode::Pattern(p) if p == "x*"));
    assert!(matches!(handler(None, None, true).selection_mode(), AssetSelectionMode::Automatic));
    assert!(matches!(handler(None, None, false).selection_mode(), AssetSelectionMode::Interactive));
}

#[test]
fn app_name_from_option_or_file_name() {
    assert_eq!(handler(Some("mine"), None, false).app_name("/tmp/code-1.0.tar.gz"), "mine");
    assert_eq!(handler(None, None, false).app_name("/tmp/code-1.0.tar.gz"), "code");
    assert_eq!(handler(None, None, false).app_name("/tmp/dir/"), "dir");
    assert_eq!(handler(None, None, false).app_name("/"), "app");
    assert_eq!(handler(None, None, false).app_name("a/.."), "app");
}

#[test]
fn portable_config_copies_options() {
    let c = handler(None, None, false).portable_config("code".to_string());
    assert_eq!(c.app_name, "code");
    assert_eq!(c.bin_rel_path, "bin/code");
    assert_eq!(c.icon_rel_path.as_deref(), Some("share/icon.png"));
    assert!(c.service && !c.autostart && c.yes);
    assert_eq!(c.app_root, None);
}

#[test]
fn uninstall_dir_is_under_local_app() {
    assert_eq!(uninstall_app_dir("/home/u", "vscode"), "/home/u/.local/app/vscode");
}

fn record(name: &str, t: InstallType) -> AppRecord {
    AppRecord {
        name: name.to_string(),
        repo: "BurntSushi/ripgrep".to_string(),
        installed_version: "13.0.0".to_string(),
        install_type: t,
        installed_path: "/p".to_string(),
        executables: vec!["rg".to_string()],
        installed_at: "0".to_string(),
    }
}

#[test]
fn list_row_pads_columns() {
    let row = list_row(&record("ripgrep", InstallType::ArchiveBin));
    assert_eq!(row, format!("{:<20} {:<14} {:<16} {:<30}", "ripgrep", "13.0.0", "ArchiveBin", "BurntSushi/ripgrep"));
    assert_eq!(header_row(), format!("{:<20} {:<14} {:<16} {:<30}", "Name", "Version", "Type", "Repository"));
    assert_eq!(pad_right("abc", 2), "abc");
    assert_eq!(pad_right("äb", 4), "äb  ");
    assert_eq!(type_label(InstallType::PortableApp), "PortableApp");
    let rows = list_rows(&[record("a", InstallType::Bin), record("b", InstallType::AppImage)]);
    assert_eq!(rows.lines().count(), 2);
}

#[test]
fn removal_paths() {
    let exes = vec!["rg".to_string(), "/abs/tool".to_string()];
    assert_eq!(executable_paths("/home/u", &exes), vec!["/home/u/.local/bin/rg", "/abs/tool"]);
    let r = portable_app_removal("/home/u", "vscode");
    assert_eq!(r.app_dir, "/home/u/.local/app/vscode");
    assert_eq!(
        r.links,
        vec![
            "/home/u/.local/bin/vscode",
            "/home/u/.local/share/applications/vscode.desktop",
            "/home/u/.config/systemd/user/vscode.service",
            "/home/u/.config/autostart/vscode.desktop",
        ]
    );
    assert_eq!(r.service_unit, "/home/u/.config/systemd/user/vscode.service");
    assert!(is_executable_type(InstallType::AppImage));
    assert!(!is_executable_type(InstallType::PortableApp));
    assert_eq!(
        not_installed_error("x"),
        "No installed app found with name 'x'. Run 'dra list' to see installed apps."
    );
}

#[test]
fn update_targets_by_name_or_all() {
    let reg = Registry { apps: vec![record("a", InstallType::Bin), record("b", InstallType::Bin)] };
    assert_eq!(update_targets(&reg, None).unwrap(), vec![0, 1]);
    assert_eq!(update_targets(&reg, Some("b")).unwrap(), vec![1]);
    assert!(update_targets(&reg, Some("c")).unwrap_err().contains("'c'"));
    let updated = record("a", InstallType::Bin).with_version("14.0.0".to_string());
    assert_eq!(updated.installed_version, "14.0.0");
    assert_eq!(updated.name, "a");
}

#[test]
fn first_asset_or_error() {
    assert_eq!(first_asset(vec![asset("x"), asset("y")]).unwrap().name, "x");
    assert_eq!(first_asset(vec![]).unwrap_err(), "No assets found in latest release");
}

#[test]
fn install_app_record() {
    let mut h = handler(None, None, false);
    h.repo = Some(Repository { owner: "microsoft".to_string(), repo: "vscode".to_string() });
    let result = InstallResult {
        app_dir: "/h/.local/app/vscode".to_string(),
        bin_link: "/h/.local/bin/vscode".to_string(),
        desktop_link: "/d".to_string(),
        service_link: None,
        autostart_link: None,
        uninstall_path: "/u".to_string(),
    };
    let r = h.installed_record("vscode".to_string(), "1.85.0".to_string(), &result);
    assert_eq!(r.repo, "microsoft/vscode");
    assert_eq!(r.install_type, InstallType::PortableApp);
    assert_eq!(r.installed_path, "/h/.local/app/vscode");
    assert_eq!(r.executables, vec!["vscode"]);
    assert_eq!(r.installed_version, "1.85.0");
    let local = handler(None, None, false).installed_record("x".to_string(), String::new(), &result);
    assert_eq!(local.repo, "");
}

#[test]
fn update_refuses_portable_apps_only() {
    assert_eq!(
        update_refusal(InstallType::PortableApp),
        Some(
            "Update for PortableApp type is not yet supported via 'dra update'. Use 'dra install-app' with the latest version instead."
                .to_string()
        )
    );
    assert_eq!(update_refusal(InstallType::Bin), None);
    assert_eq!(update_refusal(InstallType::ArchiveBin), None);
    assert_eq!(update_refusal(InstallType::AppImage), None);
}

#[test]
fn uninstall_app_not_found_message() {
    assert_eq!(app_not_found_error("code", "/h/.local/app/code"), "App 'code' not found at /h/.local/app/code");
}
