//! Where the manager keeps its own files.

use vstd::prelude::*;

use std::path::PathBuf;

verus! {

/// The path `PathBuf::from` makes of a text.
pub uninterp spec fn path_from_text(text: Seq<char>) -> PathBuf;

/// The path `PathBuf::join` makes of a base path and one more part.
pub uninterp spec fn path_joined(base: PathBuf, part: Seq<char>) -> PathBuf;

/// A path made from text (`PathBuf::from`).
/// Trusted: the result is `path_from_text` of the text.
#[verifier::external_body]
fn path_from(text: &str) -> (p: PathBuf)
    ensures
        p == path_from_text(text@),
{
    PathBuf::from(text)
}

/// A path extended by one part (`Path::join`).
/// Trusted: the result is `path_joined` of the base and the part.
#[verifier::external_body]
fn join_path(base: &PathBuf, part: &str) -> (p: PathBuf)
    ensures
        p == path_joined(*base, part@),
{
    base.join(part)
}

/// The user's configuration directory as the platform defines it
/// (`dirs::config_dir`). It depends on the environment, so nothing is stated of it.
#[verifier::external_body]
fn user_config_dir() -> Option<PathBuf> {
    dirs::config_dir()
}

/// The user's home directory (`dirs::home_dir`). It depends on the environment,
/// so nothing is stated of it.
#[verifier::external_body]
fn user_home_dir() -> Option<PathBuf> {
    dirs::home_dir()
}

/// The manager's directory under a base configuration directory, or under the
/// current directory when there is none.
pub open spec fn app_dir_under(base: Option<PathBuf>) -> PathBuf {
    path_joined(
        match base {
            Some(b) => b,
            None => path_from_text("."@),
        },
        "starship-manager"@,
    )
}

/// The manager's directory under the given base configuration directory.
pub fn config_dir_in(base: Option<PathBuf>) -> (p: PathBuf)
    ensures
        p == app_dir_under(base),
{
    let root = match base {
        Some(b) => b,
        None => path_from("."),
    };
    join_path(&root, "starship-manager")
}

/// Returns the default configuration directory for starship-manager: the
/// `starship-manager` directory inside the platform's configuration directory as
/// `dirs::config_dir` gives it (`$XDG_CONFIG_HOME` or `~/.config` on Linux,
/// `~/Library/Application Support` on macOS, `{FOLDERID_RoamingAppData}` on
/// Windows), or inside the current directory when there is none.
pub fn config_dir() -> (p: PathBuf)
    ensures
        exists|base: Option<PathBuf>| p == #[trigger] app_dir_under(base),
{
    config_dir_in(user_config_dir())
}

/// Returns the profiles directory inside the config dir.
pub fn profiles_dir() -> (p: PathBuf)
    ensures
        exists|base: Option<PathBuf>| p == path_joined(#[trigger] app_dir_under(base), "profiles"@),
{
    let dir = config_dir();
    join_path(&dir, "profiles")
}

/// Where the active Starship configuration lives: the path that the
/// `STARSHIP_CONFIG` variable names when it is set, else `.config/starship.toml`
/// under the home directory (or under the current directory when there is none).
pub open spec fn starship_config_at(env: Option<Seq<char>>, home: Option<PathBuf>) -> PathBuf {
    match env {
        Some(p) => path_from_text(p),
        None => path_joined(
            path_joined(
                match home {
                    Some(h) => h,
                    None => path_from_text("."@),
                },
                ".config"@,
            ),
            "starship.toml"@,
        ),
    }
}

/// The text of an optional string.
pub open spec fn opt_view(s: Option<String>) -> Option<Seq<char>> {
    match s {
        Some(t) => Some(t@),
        None => None,
    }
}

/// The active Starship configuration path for a given value of
/// `STARSHIP_CONFIG` and a given home directory.
pub fn starship_config_path_in(env: Option<String>, home: Option<PathBuf>) -> (p: PathBuf)
    ensures
        p == starship_config_at(opt_view(env), home),
{
    match env {
        Some(e) => path_from(e.as_str()),
        None => {
            let root = match home {
                Some(h) => h,
                None => path_from("."),
            };
            let dot_config = join_path(&root, ".config");
            join_path(&dot_config, "starship.toml")
        },
    }
}

/// Return the path to the user's active `starship.toml`, given the value of the
/// `STARSHIP_CONFIG` environment variable (`None` when it is unset): that
/// path when set, else the default location under the home directory.
pub fn active_starship_config_path(env: Option<String>) -> (p: PathBuf)
    ensures
        exists|home: Option<PathBuf>| p == #[trigger] starship_config_at(opt_view(env), home),
{
    match env {
        Some(e) => starship_config_path_in(Some(e), None),
        None => starship_config_path_in(None, user_home_dir()),
    }
}

/// The manager's directory lies inside the configuration directory it is
/// given: with a base directory `b` it is `b` joined with `starship-manager`;
/// without one, `starship-manager` inside the current directory.
pub proof fn law_app_dir_inside_base(b: PathBuf)
    ensures
        app_dir_under(Some(b)) == path_joined(b, "starship-manager"@),
        app_dir_under(None) == path_joined(path_from_text("."@), "starship-manager"@),
{
}

/// `STARSHIP_CONFIG`, when set, decides the path whatever the home directory;
/// when it is unset the path is `.config/starship.toml` inside the home
/// directory given.
pub proof fn law_starship_config_location(e: Seq<char>, h: PathBuf, h1: Option<PathBuf>, h2: Option<PathBuf>)
    ensures
        starship_config_at(Some(e), h1) == starship_config_at(Some(e), h2),
        starship_config_at(Some(e), h1) == path_from_text(e),
        starship_config_at(None, Some(h)) == path_joined(path_joined(h, ".config"@), "starship.toml"@),
{
}

} // verus!
