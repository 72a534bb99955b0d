use minivaneger::registry::{load_addon, load_addons, scan_root, AddonCandidate};

fn candidate(name: &str, exe: bool, scripts: bool, manifest: Option<&str>) -> AddonCandidate {
    AddonCandidate {
        dirname: name.to_string(),
        has_exe: exe,
        has_scripts: scripts,
        manifest_path: format!("/games/{}/scripts/ls.json", name),
        manifest: manifest.map(|m| m.as_bytes().to_vec()),
    }
}

const GOOD: &str = r#"{"addons": [{"name": "m", "enabled": true}]}"#;

#[test]
fn discovery_keeps_only_packages() {
    let cs = vec![
        candidate("one", true, true, Some(GOOD)),
        candidate("no_exe", false, true, Some(GOOD)),
        candidate("no_scripts", true, false, Some(GOOD)),
        candidate("bad_manifest", true, true, Some("{")),
        candidate("no_manifest", true, true, None),
        candidate("two", true, true, Some(GOOD)),
    ];
    let found = load_addons(cs);
    assert_eq!(found.len(), 2);
    assert_eq!(found[0].dirname, "one");
    assert_eq!(found[0].config_path, "/games/one/scripts/ls.json");
    assert_eq!(found[1].dirname, "two");
    assert_eq!(found[1].addons[0].name, "m");
}

#[test]
fn discovery_of_nothing() {
    assert!(load_addons(vec![]).is_empty());
    assert!(load_addon(candidate("x", false, false, None)).is_none());
}

#[test]
fn scan_root_prefers_override() {
    assert_eq!(scan_root(Some("/mods".to_string()), "/bin".to_string()), "/mods");
    assert_eq!(scan_root(None, "/bin".to_string()), "/bin");
}
