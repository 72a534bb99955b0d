use minivaneger::settings::{
    settings_changed, settings_path, validate, DirProbe, Language, Settings2ResourceDirectoryState,
    SettingsCfg, StoredSettings, SETTINGS_FILE_PATH,
};

const GOOD: DirProbe = DirProbe { is_dir: true, has_marker: true };
const NO_MARKER: DirProbe = DirProbe { is_dir: true, has_marker: false };

fn stored(dir: &str, language: Language) -> Option<StoredSettings> {
    Some(StoredSettings { resource_dir: dir.to_string(), language })
}

#[test]
fn absent_or_unparsable_file_gives_defaults() {
    let s = SettingsCfg::load("minivaneger.ron".to_string(), None, GOOD);
    assert_eq!(s.resource_dir, "");
    assert_eq!(s.language, Language::En);
    assert!(!s.resource_dir_validated);
    assert_eq!(s.file(), "minivaneger.ron");
}

#[test]
fn load_validates_stored_directory() {
    let s = SettingsCfg::load("f.ron".to_string(), stored("/game", Language::Ru), GOOD);
    assert_eq!(s.resource_dir, "/game");
    assert_eq!(s.language, Language::Ru);
    assert!(s.resource_dir_validated);
    let s = SettingsCfg::load("f.ron".to_string(), stored("/game", Language::En), NO_MARKER);
    assert!(!s.resource_dir_validated);
}

#[test]
fn validation_needs_name_directory_and_marker() {
    assert!(validate(&"/g".to_string(), GOOD));
    assert!(!validate(&"".to_string(), GOOD));
    assert!(!validate(&"/g".to_string(), NO_MARKER));
    assert!(!validate(&"/g".to_string(), DirProbe { is_dir: false, has_marker: true }));
}

#[test]
fn validation_is_repeatable() {
    let d = "/g".to_string();
    assert_eq!(validate(&d, GOOD), validate(&d, GOOD));
    assert_eq!(validate(&d, NO_MARKER), validate(&d, NO_MARKER));
}

#[test]
fn settings_path_uses_existing_override() {
    assert_eq!(settings_path(Some("/x.ron".to_string()), true), "/x.ron");
    assert_eq!(settings_path(Some("/x.ron".to_string()), false), SETTINGS_FILE_PATH);
    assert_eq!(settings_path(None, true), SETTINGS_FILE_PATH);
}

#[test]
fn default_settings_file() {
    let s = SettingsCfg::default();
    assert_eq!(s.file(), SETTINGS_FILE_PATH);
    assert_eq!(s.language, Language::En);
    assert_eq!(Language::default(), Language::En);
}

#[test]
fn save_keeps_dir_and_language_only() {
    let s = SettingsCfg::load("f.ron".to_string(), stored("/game", Language::Ru), GOOD);
    let out = s.save();
    assert_eq!(out.resource_dir, "/game");
    assert_eq!(out.language, Language::Ru);
}

#[test]
fn choosing_a_directory_revalidates() {
    let mut s = SettingsCfg::load("f.ron".to_string(), None, GOOD);
    assert!(s.choose_resource_dir("/game".to_string(), GOOD));
    assert!(s.resource_dir_validated);
    assert_eq!(s.resource_dir, "/game");
    assert!(!s.choose_resource_dir("/game".to_string(), NO_MARKER));
    assert!(!s.resource_dir_validated);
    assert_eq!(s.file(), "f.ron");
}

#[test]
fn language_change_asks_for_save() {
    let mut s = SettingsCfg::default();
    assert!(s.set_language(Language::Ru));
    assert!(!s.set_language(Language::Ru));
    assert_eq!(s.language, Language::Ru);
}

#[test]
fn change_ignores_validity_flag() {
    let a = SettingsCfg::load("f.ron".to_string(), stored("/g", Language::En), GOOD);
    let b = SettingsCfg::load("f.ron".to_string(), stored("/g", Language::En), NO_MARKER);
    assert!(!settings_changed(&a, &b));
    let c = SettingsCfg::load("f.ron".to_string(), stored("/h", Language::En), GOOD);
    assert!(settings_changed(&a, &c));
    let d = SettingsCfg::load("f.ron".to_string(), stored("/g", Language::Ru), GOOD);
    assert!(settings_changed(&a, &d));
}

#[test]
fn resource_directory_state_projection() {
    let s = SettingsCfg::load("f.ron".to_string(), stored("/g", Language::En), GOOD);
    let r = Settings2ResourceDirectoryState.with(&s);
    assert_eq!(r.resource_dir, "/g");
    assert!(r.resource_dir_validated);
}
