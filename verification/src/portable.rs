use crate::text::{decimal, push_decimal};
use vstd::prelude::*;

verus! {

/// A path separator on either platform.
pub open spec fn is_separator(c: char) -> bool {
    c == '/' || c == '\\'
}

/// A relative path that adjoins rather than replaces: not empty, not
/// starting with a separator, and no drive (`X:`) at its start.
pub open spec fn plain_relative(p: Seq<char>) -> bool {
    &&& p.len() > 0
    &&& !is_separator(p[0])
    &&& !(p.len() >= 2 && p[1] == ':')
}

/// A Windows verbatim path (`\\?\...`), to which joining normalizes what it
/// adjoins.
pub open spec fn verbatim(p: Seq<char>) -> bool {
    p.len() >= 3 && p[0] == '\\' && p[1] == '\\' && p[2] == '?'
}

/// A bare drive such as `C:`, which Windows joins without a separator.
pub open spec fn bare_drive(p: Seq<char>) -> bool {
    p.len() == 2 && p[1] == ':'
}

/// `out` is `relative` adjoined to `root`, for a plain `relative` and a root
/// that is not verbatim:
/// - an empty root gives `relative` itself;
/// - a root ending in `/` gives `root + relative`;
/// - a non-empty root that ends in no separator and is no bare drive gives
///   `root`, one separator (`/` or `\`, by platform), then `relative`;
/// - in every case the result is `root + relative` with at most one
///   separator between them.
pub open spec fn joins(root: Seq<char>, relative: Seq<char>, out: Seq<char>) -> bool {
    plain_relative(relative) && !verbatim(root) ==> {
        &&& root.len() == 0 ==> out == relative
        &&& root.len() > 0 && root.last() == '/' ==> out == root + relative
        &&& root.len() > 0 && !is_separator(root.last()) && !bare_drive(root) ==> {
            ||| out == root + seq!['/'] + relative
            ||| out == root + seq!['\\'] + relative
        }
        &&& {
            ||| out == root + relative
            ||| out == root + seq!['/'] + relative
            ||| out == root + seq!['\\'] + relative
        }
    }
}

/// `Path::join`, on paths given as text: `relative` adjoined to `root`, as
/// `joins` states. `PathBuf::push` adds the platform's separator (`/` on
/// Unix, `\` on Windows) unless the root is empty, ends in a separator of
/// the platform, or (on Windows) is a bare drive; it appends the relative
/// text as it is unless that is absolute, rooted or has a drive prefix, or
/// the root is verbatim. Which separator is not stated, nor the result for
/// the cases that `joins` leaves out.
#[verifier::external_body]
fn path_join(root: &str, relative: &str) -> (r: String)
    ensures
        joins(root@, relative@, r@),
{
    std::path::Path::new(root).join(relative).to_string_lossy().into_owned()
}

/// A path inside the portable folder.
pub fn portable_path(root: &str, relative: &str) -> (r: String)
    ensures
        joins(root@, relative@, r@),
{
    path_join(root, relative)
}

/// The `PATH` that the launcher gives the app: its `bin` folder, the
/// portable folder, then the `PATH` it was started with, if any.
pub fn launcher_path_var(bin: &str, root: &str, existing: Option<&str>) -> (r: String)
    ensures
        r@ == bin@ + ";"@ + root@ + match existing {
            Some(e) => ";"@ + e@,
            None => Seq::<char>::empty(),
        },
{
    let mut r = bin.to_owned();
    r.append(";");
    r.append(root);
    match existing {
        Some(e) => {
            r.append(";");
            r.append(e);
        },
        None => {},
    }
    r
}

/// The relative paths inside the portable folder that the launcher uses.
pub const APP_EXE: &'static str = "bin\\waylyrics-app.exe";
pub const BIN_DIR: &'static str = "bin";
pub const THEMES_DIR: &'static str = "themes";
pub const SHARE_DIR: &'static str = "share";
pub const SCHEMAS_DIR: &'static str = "share\\glib-2.0\\schemas";
pub const PIXBUF_LOADERS: &'static str = "lib\\gdk-pixbuf-2.0\\2.10.0\\loaders.cache";
pub const STARTUP_LOG: &'static str = "waylyrics-startup.log";

/// The environment the launcher sets for the app, besides `PATH`: the
/// theme presets, the data and schema folders and the pixbuf loaders of the
/// portable folder.
pub fn launcher_env(root: &str) -> (r: Vec<(String, String)>)
    ensures
        r@.len() == 4,
        r@[0].0@ == "WAYLYRICS_THEME_PRESETS_DIR"@,
        joins(root@, THEMES_DIR@, r@[0].1@),
        r@[1].0@ == "XDG_DATA_DIRS"@,
        joins(root@, SHARE_DIR@, r@[1].1@),
        r@[2].0@ == "GSETTINGS_SCHEMA_DIR"@,
        joins(root@, SCHEMAS_DIR@, r@[2].1@),
        r@[3].0@ == "GDK_PIXBUF_MODULE_FILE"@,
        joins(root@, PIXBUF_LOADERS@, r@[3].1@),
{
    let mut r: Vec<(String, String)> = Vec::new();
    r.push(("WAYLYRICS_THEME_PRESETS_DIR".to_owned(), portable_path(root, THEMES_DIR)));
    r.push(("XDG_DATA_DIRS".to_owned(), portable_path(root, SHARE_DIR)));
    r.push(("GSETTINGS_SCHEMA_DIR".to_owned(), portable_path(root, SCHEMAS_DIR)));
    r.push(("GDK_PIXBUF_MODULE_FILE".to_owned(), portable_path(root, PIXBUF_LOADERS)));
    r
}

/// What the exit status reads: the exit code, or the note that Windows or
/// security software ended the app.
pub open spec fn exit_status_text(code: Option<i32>) -> Seq<char> {
    match code {
        Some(c) => decimal(c as int),
        None => "terminated by Windows or security software"@,
    }
}

/// The message shown when the app ended within the first seconds.
pub fn startup_exit_message(code: Option<i32>, log_path: &str) -> (r: String)
    ensures
        r@ == "Waylyrics exited during startup.\n\nExit status: "@ + exit_status_text(code)
            + "\n\nDiagnostic log:\n"@ + log_path@
            + "\n\nIf Waylyrics is not already running, please send this log file when reporting the problem."@,
{
    let mut r = "Waylyrics exited during startup.\n\nExit status: ".to_owned();
    match code {
        Some(c) => push_decimal(&mut r, c),
        None => r.append("terminated by Windows or security software"),
    }
    r.append("\n\nDiagnostic log:\n");
    r.append(log_path);
    r.append(
        "\n\nIf Waylyrics is not already running, please send this log file when reporting the problem.",
    );
    r
}

} // verus!

verus! {

/// The relative paths that the launcher uses are plain, so `joins` fixes
/// what `portable_path` makes of each of them.
pub proof fn launcher_paths_are_plain()
    ensures
        plain_relative(APP_EXE@),
        plain_relative(BIN_DIR@),
        plain_relative(THEMES_DIR@),
        plain_relative(SHARE_DIR@),
        plain_relative(SCHEMAS_DIR@),
        plain_relative(PIXBUF_LOADERS@),
        plain_relative(STARTUP_LOG@),
{
    reveal_strlit("bin\\waylyrics-app.exe");
    reveal_strlit("bin");
    reveal_strlit("themes");
    reveal_strlit("share");
    reveal_strlit("share\\glib-2.0\\schemas");
    reveal_strlit("lib\\gdk-pixbuf-2.0\\2.10.0\\loaders.cache");
    reveal_strlit("waylyrics-startup.log");
}

} // verus!
