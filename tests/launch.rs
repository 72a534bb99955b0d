use minivaneger::launch::{plan_launch, LaunchError, LaunchProbe};
use minivaneger::settings::{DirProbe, Language, SettingsCfg, StoredSettings};
use minivaneger::state::flags_changed;

fn settings(language: Language, valid: bool) -> SettingsCfg {
    let probe = DirProbe { is_dir: true, has_marker: valid };
    let stored = StoredSettings { resource_dir: "/game".to_string(), language };
    SettingsCfg::load("f.ron".to_string(), Some(stored), probe)
}

fn probe() -> LaunchProbe {
    LaunchProbe {
        game_root: Some("/real/game".to_string()),
        exe_path: "/mods/a/vss.exe".to_string(),
        exe_exists: true,
        scripts_dir: Some("/mods/a/scripts".to_string()),
    }
}

#[test]
fn russian_launch_passes_language_flag() {
    let cmd = plan_launch(&settings(Language::Ru, true), probe()).unwrap();
    assert_eq!(cmd.program, "/mods/a/vss.exe");
    assert_eq!(cmd.working_dir, "/real/game");
    assert_eq!(cmd.args, vec!["-vss", "/mods/a/scripts", "-russian"]);
}

#[test]
fn english_launch_omits_language_flag() {
    let cmd = plan_launch(&settings(Language::En, true), probe()).unwrap();
    assert_eq!(cmd.args, vec!["-vss", "/mods/a/scripts"]);
}

#[test]
fn launch_errors() {
    let r = plan_launch(&settings(Language::En, false), probe());
    assert_eq!(r.err(), Some(LaunchError::NotValidated));
    let mut unnamed = settings(Language::En, true);
    unnamed.resource_dir = String::new();
    unnamed.resource_dir_validated = true;
    assert_eq!(plan_launch(&unnamed, probe()).err(), Some(LaunchError::NotValidated));
    let mut p = probe();
    p.game_root = None;
    assert_eq!(plan_launch(&settings(Language::En, true), p).err(), Some(LaunchError::GameRootMissing));
    let mut p = probe();
    p.exe_exists = false;
    assert_eq!(plan_launch(&settings(Language::En, true), p).err(), Some(LaunchError::ExecutableMissing));
    let mut p = probe();
    p.scripts_dir = None;
    assert_eq!(plan_launch(&settings(Language::En, true), p).err(), Some(LaunchError::ScriptsMissing));
}

#[test]
fn flag_changes_are_detected() {
    assert!(!flags_changed(&vec![true, false], &vec![true, false]));
    assert!(flags_changed(&vec![true, false], &vec![true, true]));
    assert!(!flags_changed(&vec![], &vec![true]));
}
