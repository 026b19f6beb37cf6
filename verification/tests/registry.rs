use dra::registry::app_record::{AppRecord, InstallType};
use dra::civil_time::{civil_from_days, iso_timestamp};
use dra::registry::{registry_path, Registry};

fn test_record(name: &str) -> AppRecord {
    AppRecord {
        name: name.to_string(),
        repo: format!("test/{}", name),
        installed_version: "v1.0.0".to_string(),
        install_type: InstallType::ArchiveBin,
        installed_path: format!("/home/user/.local/bin/{}", name),
        executables: vec![name.to_string()],
        installed_at: "2024-01-01T00:00:00Z".to_string(),
    }
}

#[test]
fn test_add_and_get() {
    let mut registry = Registry::default();
    let record = test_record("ripgrep");
    registry.add_record(record.clone());

    let retrieved = registry.get_record("ripgrep").unwrap();
    assert_eq!(retrieved.name, "ripgrep");
    assert_eq!(retrieved.repo, "test/ripgrep");
}

#[test]
fn test_add_replace_same_name() {
    let mut registry = Registry::default();
    registry.add_record(test_record("ripgrep"));
    let mut v2 = test_record("ripgrep");
    v2.installed_version = "v2.0.0".to_string();
    registry.add_record(v2);

    assert_eq!(registry.list_records().len(), 1);
    assert_eq!(registry.get_record("ripgrep").unwrap().installed_version, "v2.0.0");
}

#[test]
fn test_remove_record() {
    let mut registry = Registry::default();
    registry.add_record(test_record("ripgrep"));
    registry.add_record(test_record("vscode"));
    registry.remove_record("ripgrep");

    assert_eq!(registry.list_records().len(), 1);
    assert!(registry.get_record("ripgrep").is_none());
    assert!(registry.get_record("vscode").is_some());
}

#[test]
fn test_remove_nonexistent() {
    let mut registry = Registry::default();
    registry.add_record(test_record("ripgrep"));
    registry.remove_record("nonexistent");
    assert_eq!(registry.list_records().len(), 1);
}

#[test]
fn test_list_records() {
    let mut registry = Registry::default();
    registry.add_record(test_record("a"));
    registry.add_record(test_record("b"));
    registry.add_record(test_record("c"));

    assert_eq!(registry.list_records().len(), 3);
}

#[test]
fn replaced_record_moves_to_the_end() {
    let mut registry = Registry::default();
    registry.add_record(test_record("a"));
    registry.add_record(test_record("b"));
    registry.add_record(test_record("a"));
    let names: Vec<&str> = registry.list_records().iter().map(|r| r.name.as_str()).collect();
    assert_eq!(names, vec!["b", "a"]);
}

#[test]
fn get_returns_first_of_duplicates() {
    let mut first = test_record("dup");
    first.installed_version = "first".to_string();
    let mut second = test_record("dup");
    second.installed_version = "second".to_string();
    let registry = Registry { apps: vec![first, second] };
    assert_eq!(registry.get_record("dup").unwrap().installed_version, "first");
}

#[test]
fn remove_drops_every_duplicate() {
    let mut registry = Registry { apps: vec![test_record("dup"), test_record("x"), test_record("dup")] };
    registry.remove_record("dup");
    assert_eq!(registry.list_records().len(), 1);
    assert_eq!(registry.list_records()[0].name, "x");
}

#[test]
fn add_then_get_and_others_unchanged() {
    let mut registry = Registry::default();
    registry.add_record(test_record("x"));
    let before = registry.get_record("x").unwrap().repo.clone();
    let mut r = test_record("y");
    r.repo = "other/y".to_string();
    registry.add_record(r);
    assert_eq!(registry.get_record("y").unwrap().repo, "other/y");
    assert_eq!(registry.get_record("x").unwrap().repo, before);
}

#[test]
fn or_empty_falls_back() {
    assert!(Registry::or_empty(None).list_records().is_empty());
    let r = Registry { apps: vec![test_record("z")] };
    assert_eq!(Registry::or_empty(Some(r)).list_records().len(), 1);
}

#[test]
fn registry_path_under_home_or_tmp() {
    assert_eq!(registry_path(Some("/home/u")), "/home/u/.local/share/dra/installed_apps.json");
    assert_eq!(registry_path(Some("/home/u/")), "/home/u/.local/share/dra/installed_apps.json");
    assert_eq!(registry_path(None), "/tmp/.local/share/dra/installed_apps.json");
}

#[test]
fn test_app_record_creation() {
    let record = AppRecord::new(
        "ripgrep".to_string(),
        "BurntSushi/ripgrep".to_string(),
        "13.0.0".to_string(),
        InstallType::ArchiveBin,
        "/home/user/.local/bin".to_string(),
        vec!["rg".to_string()],
    );
    assert_eq!(record.name, "ripgrep");
    assert_eq!(record.repo, "BurntSushi/ripgrep");
    assert_eq!(record.installed_version, "13.0.0");
    assert_eq!(record.install_type, InstallType::ArchiveBin);
    assert_eq!(record.executables, vec!["rg"]);
    assert!(!record.installed_at.is_empty());
}

#[test]
fn installed_at_is_an_iso_timestamp() {
    let record = AppRecord::new(
        "a".to_string(),
        "o/a".to_string(),
        "1".to_string(),
        InstallType::Bin,
        "/x".to_string(),
        vec![],
    );
    let t = record.installed_at.as_bytes();
    assert_eq!(t.len(), 20);
    assert_eq!((t[4], t[7], t[10], t[13], t[16], t[19]), (b'-', b'-', b'T', b':', b':', b'Z'));
    let year: u32 = record.installed_at[..4].parse().unwrap();
    assert!(year >= 2024);
}

#[test]
fn iso_timestamps_of_known_instants() {
    assert_eq!(iso_timestamp(0), "1970-01-01T00:00:00Z");
    assert_eq!(iso_timestamp(1704067200), "2024-01-01T00:00:00Z");
    assert_eq!(iso_timestamp(951782400), "2000-02-29T00:00:00Z");
    assert_eq!(iso_timestamp(4107542399), "2100-02-28T23:59:59Z");
    assert_eq!(iso_timestamp(4107542400), "2100-03-01T00:00:00Z");
    assert_eq!(iso_timestamp(1725029869), "2024-08-30T14:57:49Z");
    assert_eq!(civil_from_days(365), (1971, 1, 1));
    assert_eq!(civil_from_days(364), (1970, 12, 31));
}

#[test]
fn test_remove_record_from_registry() {
    let mut registry = Registry::default();
    registry.add_record(AppRecord::new(
        "test-app".to_string(),
        "test/repo".to_string(),
        "v1.0.0".to_string(),
        InstallType::ArchiveBin,
        "/tmp/test-bin".to_string(),
        vec!["test-app".to_string()],
    ));

    assert_eq!(registry.list_records().len(), 1);
    registry.remove_record("test-app");
    assert_eq!(registry.list_records().len(), 0);
}
