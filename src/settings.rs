//! User settings: the game's resource directory and the language, the file
//! they are kept in, and the check that the resource directory is a game
//! installation.
use vstd::prelude::*;

verus! {

/// The settings file used where no override names an existing file.
pub const SETTINGS_FILE_PATH: &'static str = "minivaneger.ron";

/// The environment variable that may name another settings file.
pub const ENV_FILE_PATH: &'static str = "MINIVANEGER_SETTINGS_FILE_PATH";

/// The file at the root of a game installation that marks it as one.
pub const MARKER_FILE: &'static str = "tabutask.prm";

/// The language the game is started in.
#[derive(Debug, Clone, Copy, PartialEq, Eq, Structural)]
pub enum Language {
    En,
    Ru,
}

impl Default for Language {
    fn default() -> (r: Language)
        ensures
            r == Language::En,
    {
        Language::En
    }
}

/// What the program saw of a candidate resource directory.
#[derive(Debug, Clone, Copy, PartialEq, Eq, Structural)]
pub struct DirProbe {
    /// The path canonicalizes to an existing directory.
    pub is_dir: bool,
    /// That directory holds the installation's marker file at its root.
    pub has_marker: bool,
}

/// The fields that the settings file keeps.
pub struct StoredSettings {
    pub resource_dir: String,
    pub language: Language,
}

/// The settings of a session.
pub struct SettingsCfg {
    pub resource_dir: String,
    /// Whether `resource_dir` is a game installation; never stored, always
    /// recomputed from the directory.
    pub resource_dir_validated: bool,
    pub language: Language,
    /// The file the settings were loaded from.
    pub path: Option<String>,
}

/// A resource directory is valid when it is named, is a directory, and
/// holds the marker file.
pub open spec fn dir_is_valid(dir: Seq<char>, probe: DirProbe) -> bool {
    dir.len() > 0 && probe.is_dir && probe.has_marker
}

/// Whether the settings differ in a field that the settings file keeps.
pub open spec fn settings_differ(a: SettingsCfg, b: SettingsCfg) -> bool {
    a.resource_dir@ != b.resource_dir@ || a.language != b.language
}

/// Checks a resource directory against what the program saw of it. The
/// result depends on nothing else, so equal inputs give equal results.
pub fn validate(resource_dir: &String, probe: DirProbe) -> (r: bool)
    ensures
        r == dir_is_valid(resource_dir@, probe),
{
    let named = resource_dir.as_str().unicode_len() > 0;
    named && probe.is_dir && probe.has_marker
}

/// Whether the settings must be written: a kept field changed. The validity
/// flag is not compared.
pub fn settings_changed(old: &SettingsCfg, new: &SettingsCfg) -> (r: bool)
    ensures
        r == settings_differ(*old, *new),
{
    !(old.resource_dir == new.resource_dir) || old.language != new.language
}

/// The settings file to use: the override where it names an existing file,
/// else the default file in the working directory.
pub fn settings_path(env_override: Option<String>, override_is_file: bool) -> (r: String)
    ensures
        r@ == match env_override {
            Some(p) => if override_is_file {
                p@
            } else {
                SETTINGS_FILE_PATH@
            },
            None => SETTINGS_FILE_PATH@,
        },
{
    match env_override {
        Some(p) => if override_is_file {
            p
        } else {
            String::from_str(SETTINGS_FILE_PATH)
        },
        None => String::from_str(SETTINGS_FILE_PATH),
    }
}

impl Default for SettingsCfg {
    fn default() -> (r: SettingsCfg)
        ensures
            r.resource_dir@.len() == 0,
            !r.resource_dir_validated,
            r.language == Language::En,
            r.path is None,
    {
        SettingsCfg {
            resource_dir: String::new(),
            resource_dir_validated: false,
            language: Language::En,
            path: None,
        }
    }
}

impl SettingsCfg {
    /// Settings as loaded from `path`: the stored fields where the file was
    /// read and parsed, the defaults (no resource directory, English) where
    /// it was absent or unparsable. `probe` is what the program saw of the
    /// stored resource directory; the validity flag is computed from it.
    pub fn load(path: String, stored: Option<StoredSettings>, probe: DirProbe) -> (r: SettingsCfg)
        ensures
            r.path == Some(path),
            match stored {
                Some(s) => r.resource_dir@ == s.resource_dir@ && r.language == s.language,
                None => r.resource_dir@.len() == 0 && r.language == Language::En,
            },
            r.resource_dir_validated == dir_is_valid(r.resource_dir@, probe),
    {
        let (resource_dir, language) = match stored {
            Some(s) => (s.resource_dir, s.language),
            None => (String::new(), Language::En),
        };
        let resource_dir_validated = validate(&resource_dir, probe);
        SettingsCfg { resource_dir, resource_dir_validated, language, path: Some(path) }
    }

    /// The file that the settings are written to.
    pub fn file(&self) -> (r: String)
        ensures
            r@ == match self.path {
                Some(p) => p@,
                None => SETTINGS_FILE_PATH@,
            },
    {
        match &self.path {
            Some(p) => p.clone(),
            None => String::from_str(SETTINGS_FILE_PATH),
        }
    }

    /// The fields to write to the settings file; the validity flag is not
    /// among them.
    pub fn save(&self) -> (r: StoredSettings)
        ensures
            r.resource_dir@ == self.resource_dir@,
            r.language == self.language,
    {
        StoredSettings { resource_dir: self.resource_dir.clone(), language: self.language }
    }

    /// Takes a newly chosen resource directory and validates it at once.
    /// Returns whether the settings must be written.
    pub fn choose_resource_dir(&mut self, dir: String, probe: DirProbe) -> (save: bool)
        ensures
            final(self).resource_dir@ == dir@,
            final(self).resource_dir_validated == dir_is_valid(dir@, probe),
            final(self).language == old(self).language,
            final(self).path == old(self).path,
            save == (old(self).resource_dir@ != dir@),
    {
        let save = !(self.resource_dir == dir);
        self.resource_dir_validated = validate(&dir, probe);
        self.resource_dir = dir;
        save
    }

    /// Sets the language. Returns whether the settings must be written.
    pub fn set_language(&mut self, language: Language) -> (save: bool)
        ensures
            final(self).language == language,
            final(self).resource_dir == old(self).resource_dir,
            final(self).resource_dir_validated == old(self).resource_dir_validated,
            final(self).path == old(self).path,
            save == (old(self).language != language),
    {
        let save = self.language != language;
        self.language = language;
        save
    }
}

/// The resource directory and whether it is valid, as the settings view
/// shows them.
pub struct ResourceDirectoryState {
    pub resource_dir: String,
    pub resource_dir_validated: bool,
}

/// Projects settings onto their resource directory state.
pub struct Settings2ResourceDirectoryState;

impl Settings2ResourceDirectoryState {
    pub fn with(&self, data: &SettingsCfg) -> (r: ResourceDirectoryState)
        ensures
            r.resource_dir@ == data.resource_dir@,
            r.resource_dir_validated == data.resource_dir_validated,
    {
        ResourceDirectoryState {
            resource_dir: data.resource_dir.clone(),
            resource_dir_validated: data.resource_dir_validated,
        }
    }
}

} // verus!
