//! Choosing and describing the way Starship gets installed or updated.

use vstd::prelude::*;

use crate::text::{lossy_utf8, string_push, utf8_lossy, views};
use vstd::string::StringExecFns;

verus! {

/// Supported install/update providers.
#[derive(Debug, Clone, Copy, PartialEq, Eq, Structural)]
pub enum InstallProvider {
    /// `winget install Starship.Starship` (Windows)
    Winget,
    /// `brew install starship` (macOS / Linux)
    Brew,
    /// Official install script `curl -sS https://starship.rs/install.sh | sh`
    Script,
}

/// The name a provider is shown under.
pub open spec fn provider_label(p: InstallProvider) -> Seq<char> {
    match p {
        InstallProvider::Winget => "winget"@,
        InstallProvider::Brew => "brew"@,
        InstallProvider::Script => "install script"@,
    }
}

impl InstallProvider {
    /// The name this provider is shown under ("winget", "brew", "install script").
    pub fn display_name(&self) -> (s: String)
        ensures
            s@ == provider_label(*self),
    {
        match self {
            InstallProvider::Winget => String::from_str("winget"),
            InstallProvider::Brew => String::from_str("brew"),
            InstallProvider::Script => String::from_str("install script"),
        }
    }
}

/// What is known about the host when choosing a provider: its platform family,
/// and whether the `winget` and `brew` commands were found on it.
#[derive(Debug, Clone, Copy)]
pub struct HostTools {
    pub is_windows: bool,
    pub is_unix: bool,
    pub has_winget: bool,
    pub has_brew: bool,
}

/// The provider to use: winget on Windows when it is there, else brew when it is
/// there, else the install script on Unix-like systems, else none.
pub open spec fn chosen_provider(host: HostTools) -> Option<InstallProvider> {
    if host.is_windows && host.has_winget {
        Some(InstallProvider::Winget)
    } else if host.has_brew {
        Some(InstallProvider::Brew)
    } else if host.is_unix {
        Some(InstallProvider::Script)
    } else {
        None
    }
}

/// Detect which provider is available on this host.
pub fn detect_provider(host: &HostTools) -> (p: Option<InstallProvider>)
    ensures
        p == chosen_provider(*host),
{
    if host.is_windows && host.has_winget {
        return Some(InstallProvider::Winget);
    }
    if host.has_brew {
        return Some(InstallProvider::Brew);
    }
    if host.is_unix {
        return Some(InstallProvider::Script);
    }
    None
}

/// A program to run, its arguments, and what a failure to start it is reported as.
pub struct InstallCommand {
    pub program: String,
    pub args: Vec<String>,
    pub context: String,
}

/// What a failure to start the install program is reported as.
pub open spec fn install_context(p: InstallProvider) -> Seq<char> {
    match p {
        InstallProvider::Winget => "running winget"@,
        InstallProvider::Brew => "running brew install starship"@,
        InstallProvider::Script => "running install script"@,
    }
}

/// The program that installs Starship through a provider.
pub open spec fn install_program(p: InstallProvider) -> Seq<char> {
    match p {
        InstallProvider::Winget => "winget"@,
        InstallProvider::Brew => "brew"@,
        InstallProvider::Script => "sh"@,
    }
}

/// The arguments given to that program.
pub open spec fn install_args(p: InstallProvider) -> Seq<Seq<char>> {
    match p {
        InstallProvider::Winget => seq![
            "install"@,
            "--id"@,
            "Starship.Starship"@,
            "--accept-source-agreements"@,
            "--accept-package-agreements"@,
        ],
        InstallProvider::Brew => seq!["install"@, "starship"@],
        InstallProvider::Script => seq![
            "-c"@,
            "curl -sS https://starship.rs/install.sh | sh -s -- --yes"@,
        ],
    }
}

/// The command that installs or updates Starship through `provider`.
pub fn install_command(provider: InstallProvider) -> (cmd: InstallCommand)
    ensures
        cmd.program@ == install_program(provider),
        views(cmd.args@) == install_args(provider),
        cmd.context@ == install_context(provider),
{
    match provider {
        InstallProvider::Winget => {
            let args = vec![
                String::from_str("install"),
                String::from_str("--id"),
                String::from_str("Starship.Starship"),
                String::from_str("--accept-source-agreements"),
                String::from_str("--accept-package-agreements"),
            ];
            assert(views(args@) =~= install_args(provider));
            InstallCommand {
                program: String::from_str("winget"),
                args,
                context: String::from_str("running winget"),
            }
        },
        InstallProvider::Brew => {
            let args = vec![String::from_str("install"), String::from_str("starship")];
            assert(views(args@) =~= install_args(provider));
            InstallCommand {
                program: String::from_str("brew"),
                args,
                context: String::from_str("running brew install starship"),
            }
        },
        InstallProvider::Script => {
            let args = vec![
                String::from_str("-c"),
                String::from_str("curl -sS https://starship.rs/install.sh | sh -s -- --yes"),
            ];
            assert(views(args@) =~= install_args(provider));
            InstallCommand {
                program: String::from_str("sh"),
                args,
                context: String::from_str("running install script"),
            }
        },
    }
}

/// The text an install run reports: its standard output, then, when its
/// standard error is not empty, a line break and the standard error.
pub open spec fn combined_output(stdout: Seq<char>, stderr: Seq<char>) -> Seq<char> {
    if stderr.len() == 0 {
        stdout
    } else {
        stdout + seq!['\n'] + stderr
    }
}

/// Combines the captured output streams of an install run, each decoded as
/// UTF-8 with invalid sequences replaced.
pub fn combine_output(stdout: &[u8], stderr: &[u8]) -> (s: String)
    ensures
        s@ == combined_output(lossy_utf8(stdout@), lossy_utf8(stderr@)),
{
    let mut result = utf8_lossy(stdout);
    let err = utf8_lossy(stderr);
    if !err.as_str().is_empty() {
        string_push(&mut result, '\n');
        result.append(err.as_str());
    }
    result
}

/// The provider choice: a provider is offered only when it can run (winget on a
/// Windows host that has it, brew where brew was found, the script on a Unix-like
/// host); winget is preferred on Windows whatever else is there, brew comes next,
/// the script last, and no provider is offered only when none can run.
pub proof fn law_provider_choice(host: HostTools)
    ensures
        chosen_provider(host) == Some(InstallProvider::Winget) ==> host.is_windows
            && host.has_winget,
        chosen_provider(host) == Some(InstallProvider::Brew) ==> host.has_brew,
        chosen_provider(host) == Some(InstallProvider::Script) ==> host.is_unix,
        host.is_windows && host.has_winget ==> chosen_provider(host) == Some(
            InstallProvider::Winget,
        ),
        host.has_brew && !(host.is_windows && host.has_winget) ==> chosen_provider(host) == Some(
            InstallProvider::Brew,
        ),
        host.is_unix && !host.has_brew && !(host.is_windows && host.has_winget) ==> chosen_provider(
            host,
        ) == Some(InstallProvider::Script),
        chosen_provider(host) is None <==> !(host.is_windows && host.has_winget) && !host.has_brew
            && !host.is_unix,
{
}

} // verus!
