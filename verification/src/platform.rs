//! What depends on the system that the bridge runs on.
use vstd::prelude::*;

use crate::paths::{join_on, joined_on};
use crate::text::chars::{opt_text, texts};

verus! {

/// `std::path::is_separator` says whether a character separates the names of a
/// path on this system. A slash does so on all of them; of other characters it
/// depends on the system, and nothing is claimed.
pub assume_specification[ std::path::is_separator ](c: char) -> (out: bool)
    ensures
        c == '/' ==> out,
;

/// A family of systems.
#[derive(Clone, Copy, Debug, PartialEq, Eq, Structural)]
pub enum Platform {
    Unix,
    Windows,
}

/// The family of a system, by whether the backslash separates the names of a path
/// there.
pub open spec fn family_by(backslash_separates: bool) -> Platform {
    if backslash_separates {
        Platform::Windows
    } else {
        Platform::Unix
    }
}

/// The system that the bridge runs on. There is no way to one but
/// [`System::current`], so that a value always tells what this system is.
#[derive(Clone, Copy, Debug)]
pub struct System {
    backslash_separates: bool,
}

impl System {
    /// The family that the system belongs to. The backslash separates the names of
    /// a path on Windows alone.
    pub closed spec fn family(self) -> Platform {
        family_by(self.backslash_separates)
    }

    /// This system: one of Windows where `std::path::is_separator` says that the
    /// backslash separates names, else one of Unix.
    pub fn current() -> (out: System)
        ensures
            call_ensures(std::path::is_separator, ('\\',), out.family() is Windows),
    {
        System { backslash_separates: std::path::is_separator('\\') }
    }

    /// The family that the system belongs to.
    pub fn platform(&self) -> (out: Platform)
        ensures
            out == self.family(),
    {
        if self.backslash_separates {
            Platform::Windows
        } else {
            Platform::Unix
        }
    }
}

/// The shell that commands are run by.
pub open spec fn shell_program(platform: Platform) -> Seq<char> {
    match platform {
        Platform::Windows => "powershell"@,
        Platform::Unix => "sh"@,
    }
}

/// What the shell is told before a command.
pub open spec fn shell_args(platform: Platform) -> Seq<Seq<char>> {
    match platform {
        Platform::Windows => seq!["-NoProfile"@, "-Command"@],
        Platform::Unix => seq!["-lc"@],
    }
}

/// The shell that commands are run by.
pub fn shell_program_on(platform: Platform) -> (out: &'static str)
    ensures
        out@ == shell_program(platform),
{
    match platform {
        Platform::Windows => "powershell",
        Platform::Unix => "sh",
    }
}

/// What the shell is told before a command.
pub fn shell_args_on(platform: Platform) -> (out: Vec<String>)
    ensures
        texts(out@) == shell_args(platform),
{
    let mut out: Vec<String> = Vec::new();
    match platform {
        Platform::Windows => {
            out.push("-NoProfile".to_owned());
            out.push("-Command".to_owned());
        },
        Platform::Unix => {
            out.push("-lc".to_owned());
        },
    }
    assert(texts(out@) =~= shell_args(platform));
    out
}

/// The shell that commands are run by on this system.
pub fn default_shell_program() -> (out: &'static str)
    ensures
        exists|windows: bool| #[trigger]
            call_ensures(std::path::is_separator, ('\\',), windows) && out@ == shell_program(
                family_by(windows),
            ),
{
    let system = System::current();
    assert(call_ensures(std::path::is_separator, ('\\',), system.family() is Windows));
    shell_program_on(system.platform())
}

/// What the shell of this system is told before a command.
pub fn default_shell_args() -> (out: Vec<String>)
    ensures
        exists|windows: bool| #[trigger]
            call_ensures(std::path::is_separator, ('\\',), windows) && texts(out@) == shell_args(
                family_by(windows),
            ),
{
    let system = System::current();
    assert(call_ensures(std::path::is_separator, ('\\',), system.family() is Windows));
    shell_args_on(system.platform())
}

/// The directory that the bridge keeps its files in: on Windows among the
/// application data of the user, else hidden in their home directory.
pub open spec fn data_dir(
    platform: Platform,
    home: Option<Seq<char>>,
    appdata: Option<Seq<char>>,
    user_profile: Option<Seq<char>>,
) -> Seq<char> {
    match (platform, appdata, user_profile) {
        (Platform::Windows, Some(appdata), _) => joined_on(platform, appdata, "feishu2acp"@),
        (Platform::Windows, None, Some(profile)) => joined_on(
            platform,
            joined_on(platform, joined_on(platform, profile, "AppData"@), "Roaming"@),
            "feishu2acp"@,
        ),
        _ => match home {
            Some(home) => joined_on(platform, home, ".feishu2acp"@),
            None => joined_on(platform, "."@, ".feishu2acp"@),
        },
    }
}

/// The directory that the bridge keeps its files in.
pub fn default_data_dir(
    system: System,
    home: &Option<String>,
    appdata: &Option<String>,
    user_profile: &Option<String>,
) -> (out: String)
    ensures
        out@ == data_dir(
            system.family(),
            opt_text(*home),
            opt_text(*appdata),
            opt_text(*user_profile),
        ),
{
    if let Platform::Windows = system.platform() {
        if let Some(appdata) = appdata {
            return join_on(system, appdata.as_str(), "feishu2acp");
        }
        if let Some(profile) = user_profile {
            let data = join_on(system, profile.as_str(), "AppData");
            let roaming = join_on(system, data.as_str(), "Roaming");
            return join_on(system, roaming.as_str(), "feishu2acp");
        }
    }
    match home {
        Some(home) => join_on(system, home.as_str(), ".feishu2acp"),
        None => join_on(system, ".", ".feishu2acp"),
    }
}

} // verus!
