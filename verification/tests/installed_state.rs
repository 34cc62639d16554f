use barforge::desktop::{install_stage_line, update_all_label, updates_summary, InstallStage};
use barforge::desktop::{InstalledModule, InstalledState, SemVersion};

fn version(value: &str) -> SemVersion {
    SemVersion::parse(value).expect("version should parse")
}

#[test]
fn installed_module_has_update_when_registry_newer() {
    let module = InstalledModule {
        name: "weather".to_string(),
        installed_version: version("1.0.0"),
        registry_version: Some(version("1.1.0")),
    };

    assert!(module.has_update());
}

#[test]
fn installed_module_no_update_when_same_or_missing() {
    let same = InstalledModule {
        name: "clock".to_string(),
        installed_version: version("1.0.0"),
        registry_version: Some(version("1.0.0")),
    };
    let missing = InstalledModule {
        name: "media".to_string(),
        installed_version: version("1.0.0"),
        registry_version: None,
    };

    assert!(!same.has_update());
    assert!(!missing.has_update());
}

#[test]
fn installed_state_counts_updates() {
    let state = InstalledState {
        modules: vec![
            InstalledModule {
                name: "weather".to_string(),
                installed_version: version("1.0.0"),
                registry_version: Some(version("1.2.0")),
            },
            InstalledModule {
                name: "clock".to_string(),
                installed_version: version("2.0.0"),
                registry_version: Some(version("2.0.0")),
            },
        ],
    };

    assert_eq!(state.update_count(), 1);
    assert_eq!(state.modules_with_updates()[0].name, "weather");
}

#[test]
fn prerelease_is_older_than_release() {
    let module = InstalledModule {
        name: "cpu".to_string(),
        installed_version: version("1.0.0-beta.1"),
        registry_version: Some(version("1.0.0")),
    };
    assert!(module.has_update());
    let older = InstalledModule {
        name: "cpu".to_string(),
        installed_version: version("2.0.0"),
        registry_version: Some(version("1.9.9")),
    };
    assert!(!older.has_update());
}

#[test]
fn version_parse_splits_parts() {
    let parsed = version("1.2.3-rc.1+build.5");
    assert_eq!(
        parsed,
        SemVersion {
            major: 1,
            minor: 2,
            patch: 3,
            pre: "rc.1".to_string(),
            build: "build.5".to_string(),
        }
    );
    assert!(SemVersion::parse("1.2").is_none());
}

#[test]
fn updates_screen_texts_follow_update_count() {
    assert_eq!(updates_summary(2), "2 updates available");
    assert_eq!(updates_summary(1), "1 update available");
    assert_eq!(updates_summary(0), "All modules are up to date");
    assert_eq!(update_all_label(false, 2), "Update All (2)");
    assert_eq!(update_all_label(false, 0), "No Updates");
    assert_eq!(update_all_label(true, 2), "Updating...");
}

#[test]
fn install_stage_line_shows_only_while_installing() {
    assert_eq!(
        install_stage_line(true, Some(InstallStage::DownloadingPackage)),
        Some("Downloading package")
    );
    assert_eq!(install_stage_line(false, Some(InstallStage::DownloadingPackage)), None);
    assert_eq!(install_stage_line(true, None), None);
}

#[test]
fn updates_shell_renders_update_summary_and_rows() {
    let state = InstalledState {
        modules: vec![
            InstalledModule {
                name: "weather".to_string(),
                installed_version: version("1.0.0"),
                registry_version: Some(version("1.2.0")),
            },
            InstalledModule {
                name: "clock".to_string(),
                installed_version: version("1.0.0"),
                registry_version: Some(version("1.0.0")),
            },
            InstalledModule {
                name: "cpu".to_string(),
                installed_version: version("0.9.0"),
                registry_version: Some(version("1.1.0")),
            },
        ],
    };
    let count = state.update_count();
    assert!(updates_summary(count).contains("2 updates available"));
    assert!(update_all_label(false, count).contains("Update All (2)"));
    let rows: Vec<&str> = state.modules_with_updates().iter().map(|m| m.name.as_str()).collect();
    assert!(rows.contains(&"weather"));
    assert!(rows.contains(&"cpu"));
}

#[test]
fn updates_shell_renders_no_updates_state() {
    let state = InstalledState {
        modules: vec![InstalledModule {
            name: "clock".to_string(),
            installed_version: version("1.0.0"),
            registry_version: Some(version("1.0.0")),
        }],
    };
    let count = state.update_count();
    assert!(updates_summary(count).contains("All modules are up to date"));
    assert!(update_all_label(false, count).contains("No Updates"));
    assert!(!update_all_label(false, count).contains("Update All"));
}

#[test]
fn module_detail_renders_install_stage() {
    let line = install_stage_line(true, Some(InstallStage::DownloadingPackage));
    assert!(line.unwrap_or_default().contains("Downloading package"));
}
