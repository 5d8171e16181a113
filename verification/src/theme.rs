use crate::text::str_eq;
use vstd::prelude::*;

verus! {

/// The theme that a portable Windows install moves a default setup to.
pub const MIGRATED_THEME: &'static str = "cool-glow";

/// The file of a theme: its name with `.css`.
pub fn theme_file_name(theme: &str) -> (r: String)
    ensures
        r@ == theme@ + ".css"@,
{
    let mut r = theme.to_owned();
    r.append(".css");
    r
}

/// Which style sheet `build_ui` loads.
pub enum ThemeChoice {
    /// The theme file in the user's theme directory.
    User,
    /// The theme file in the presets directory.
    Preset,
    /// Neither: starting fails with "theme ... not found".
    Missing,
}

/// The user's own theme file wins; otherwise the presets directory is used
/// when one is known, whether or not it holds the file.
pub fn choose_theme(user_theme_exists: bool, presets_dir_known: bool) -> (r: ThemeChoice)
    ensures
        user_theme_exists ==> r == ThemeChoice::User,
        !user_theme_exists && presets_dir_known ==> r == ThemeChoice::Preset,
        !user_theme_exists && !presets_dir_known ==> r == ThemeChoice::Missing,
{
    if user_theme_exists {
        ThemeChoice::User
    } else if presets_dir_known {
        ThemeChoice::Preset
    } else {
        ThemeChoice::Missing
    }
}

/// Whether a portable Windows install copies the bundled `cool-glow` theme
/// to the user's theme directory and switches to it: only from the
/// `default` theme, never over a user's copy, and only when the bundled file
/// is there.
pub fn should_migrate_theme(theme: &str, user_copy_exists: bool, bundled_is_file: bool) -> (r: bool)
    ensures
        r == (theme@ == "default"@ && !user_copy_exists && bundled_is_file),
{
    str_eq(theme, "default") && !user_copy_exists && bundled_is_file
}


/// Where the theme presets are looked for.
pub enum PresetsSource {
    /// The folder that `WAYLYRICS_THEME_PRESETS_DIR` names at run time.
    Env,
    /// The `themes` folder beside the program (portable Windows install).
    BesideExe,
    /// The `themes` folder one level above the program's folder.
    AboveExe,
    /// The folder that `WAYLYRICS_THEME_PRESETS_DIR` named at build time.
    Compiled,
}

/// The presets folder, in order of preference: the environment variable,
/// the `themes` folder beside the program, the one above it, then the
/// folder fixed at build time; none when none of them applies.
pub fn choose_presets_dir(
    env_set: bool,
    exe_themes_is_dir: bool,
    parent_themes_is_dir: bool,
    compiled_set: bool,
) -> (r: Option<PresetsSource>)
    ensures
        env_set ==> r == Some(PresetsSource::Env),
        !env_set && exe_themes_is_dir ==> r == Some(PresetsSource::BesideExe),
        !env_set && !exe_themes_is_dir && parent_themes_is_dir ==> r == Some(
            PresetsSource::AboveExe,
        ),
        !env_set && !exe_themes_is_dir && !parent_themes_is_dir ==> (r == Some(
            PresetsSource::Compiled,
        ) <==> compiled_set),
        !env_set && !exe_themes_is_dir && !parent_themes_is_dir && !compiled_set ==> r is None,
{
    if env_set {
        Some(PresetsSource::Env)
    } else if exe_themes_is_dir {
        Some(PresetsSource::BesideExe)
    } else if parent_themes_is_dir {
        Some(PresetsSource::AboveExe)
    } else if compiled_set {
        Some(PresetsSource::Compiled)
    } else {
        None
    }
}

} // verus!
