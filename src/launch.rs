//! The command that starts the game with an addon's scripts.
use vstd::prelude::*;
use crate::settings::{Language, SettingsCfg};

verus! {

/// The flag that tells the game to load a scripts directory.
pub const DISCOVERY_FLAG: &'static str = "-vss";

/// The flag that starts the game in Russian.
pub const RUSSIAN_FLAG: &'static str = "-russian";

/// What the program saw before a launch.
pub struct LaunchProbe {
    /// The canonical resource directory, where it is an existing directory.
    pub game_root: Option<String>,
    /// The companion executable beside the package's manifest.
    pub exe_path: String,
    /// Whether that executable exists.
    pub exe_exists: bool,
    /// The canonical scripts directory of the package, where it exists.
    pub scripts_dir: Option<String>,
}

/// A process to start: the program, its working directory and arguments.
pub struct LaunchCommand {
    pub program: String,
    pub working_dir: String,
    pub args: Vec<String>,
}

/// Why the game was not started.
#[derive(Debug, Clone, PartialEq, Eq)]
pub enum LaunchError {
    /// The resource directory is empty or not a validated game installation.
    NotValidated,
    /// The resource directory is no longer an existing directory.
    GameRootMissing,
    /// The package has no companion executable.
    ExecutableMissing,
    /// The package has no scripts directory.
    ScriptsMissing,
    /// The process could not be started; the text gives the cause.
    Spawn(String),
}

/// The arguments of a launch: the discovery flag, the scripts directory, and
/// the language flag for Russian only.
pub open spec fn launch_args(scripts: Seq<char>, language: Language) -> Seq<Seq<char>> {
    match language {
        Language::Ru => seq![DISCOVERY_FLAG@, scripts, RUSSIAN_FLAG@],
        Language::En => seq![DISCOVERY_FLAG@, scripts],
    }
}

/// A launch is accepted only from a named resource directory that was
/// validated.
pub open spec fn launch_allowed(settings: SettingsCfg) -> bool {
    settings.resource_dir@.len() > 0 && settings.resource_dir_validated
}

/// Decides whether the game can be started and with what. Only a validated
/// resource directory is accepted.
pub fn plan_launch(settings: &SettingsCfg, probe: LaunchProbe) -> (r: Result<
    LaunchCommand,
    LaunchError,
>)
    ensures
        !launch_allowed(*settings) ==> r == Err::<LaunchCommand, LaunchError>(
            LaunchError::NotValidated,
        ),
        launch_allowed(*settings) && probe.game_root is None ==> r == Err::<
            LaunchCommand,
            LaunchError,
        >(LaunchError::GameRootMissing),
        launch_allowed(*settings) && probe.game_root is Some && !probe.exe_exists ==> r
            == Err::<LaunchCommand, LaunchError>(LaunchError::ExecutableMissing),
        launch_allowed(*settings) && probe.game_root is Some && probe.exe_exists
            && probe.scripts_dir is None ==> r == Err::<LaunchCommand, LaunchError>(
            LaunchError::ScriptsMissing,
        ),
        r is Ok <==> launch_allowed(*settings) && probe.game_root is Some && probe.exe_exists
            && probe.scripts_dir is Some,
        r matches Ok(cmd) ==> cmd.program@ == probe.exe_path@ && cmd.working_dir@
            == probe.game_root->Some_0@ && cmd.args@.map_values(|a: String| a@) == launch_args(
            probe.scripts_dir->Some_0@,
            settings.language,
        ),
{
    let named = settings.resource_dir.as_str().unicode_len() > 0;
    if !named || !settings.resource_dir_validated {
        return Err(LaunchError::NotValidated);
    }
    let working_dir = match probe.game_root {
        Some(d) => d,
        None => {
            return Err(LaunchError::GameRootMissing);
        },
    };
    if !probe.exe_exists {
        return Err(LaunchError::ExecutableMissing);
    }
    let scripts = match probe.scripts_dir {
        Some(s) => s,
        None => {
            return Err(LaunchError::ScriptsMissing);
        },
    };
    let mut args: Vec<String> = Vec::new();
    args.push(String::from_str(DISCOVERY_FLAG));
    args.push(scripts);
    match settings.language {
        Language::Ru => {
            args.push(String::from_str(RUSSIAN_FLAG));
        },
        Language::En => {},
    }
    proof {
        assert(args@.map_values(|a: String| a@) =~= launch_args(
            probe.scripts_dir->Some_0@,
            settings.language,
        ));
    }
    Ok(LaunchCommand { program: probe.exe_path, working_dir, args })
}

} // verus!
