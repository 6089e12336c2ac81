//! What the assistant decides before the tasks begin: whether the process
//! may run at all, and which software it is to install.

use crate::text::{
    owned_texts, parse_i8, slice_texts, spelled_i8, split_whitespace, texts, trim, trimmed, words,
};
use vstd::prelude::*;

verus! {

/// The rule by which the privilege of the process is judged.
#[derive(Debug, Clone, Copy, PartialEq, Eq, Structural)]
pub enum PrivilegePolicy {
    /// Root may not run the assistant.
    DenyRoot,
    /// Only root may run the assistant, unless the run is flagged as allowed.
    DenyNonRootUnlessFlagged,
}

/// The judgement on the privilege of the process. It is made once, at the
/// start; a denied process ends.
#[derive(Debug, Clone, Copy, PartialEq, Eq, Structural)]
pub enum PrivilegeDecision {
    /// The run goes on without privilege.
    AllowedNonRoot,
    /// The run goes on and counts as privileged.
    AllowedRoot,
    /// The run ends.
    Denied,
}

/// The exit code of a process that was denied.
pub const DENIED_EXIT: i32 = 1;

/// The judgement on a process with effective user id `euid` under `policy`,
/// where `allow` is the flag that lets a run go on.
pub open spec fn privilege_decision(policy: PrivilegePolicy, euid: u32, allow: bool) ->
    PrivilegeDecision {
    match policy {
        PrivilegePolicy::DenyRoot => if euid == 0 {
            PrivilegeDecision::Denied
        } else {
            PrivilegeDecision::AllowedNonRoot
        },
        PrivilegePolicy::DenyNonRootUnlessFlagged => if euid != 0 && !allow {
            PrivilegeDecision::Denied
        } else {
            PrivilegeDecision::AllowedRoot
        },
    }
}

/// Judges whether a process with effective user id `euid` may go on.
pub fn validate_root_priviliges(policy: PrivilegePolicy, euid: u32, allow_root: bool) -> (decision:
    PrivilegeDecision)
    ensures
        decision == privilege_decision(policy, euid, allow_root),
{
    match policy {
        PrivilegePolicy::DenyRoot => {
            if euid == 0 {
                PrivilegeDecision::Denied
            } else {
                PrivilegeDecision::AllowedNonRoot
            }
        },
        PrivilegePolicy::DenyNonRootUnlessFlagged => {
            if euid != 0 && !allow_root {
                PrivilegeDecision::Denied
            } else {
                PrivilegeDecision::AllowedRoot
            }
        },
    }
}

impl PrivilegeDecision {
    /// The exit code with which the process ends here, or `None` where the
    /// run goes on.
    pub fn exit_code(&self) -> (code: Option<i32>)
        ensures
            *self == PrivilegeDecision::Denied ==> code == Some(DENIED_EXIT),
            *self != PrivilegeDecision::Denied ==> code is None,
    {
        match self {
            PrivilegeDecision::Denied => Some(DENIED_EXIT),
            _ => None,
        }
    }
}

/// The packages installed where the operator names none.
pub open spec fn default_packages() -> Seq<Seq<char>> {
    seq![
        "firefox"@,
        "clang"@,
        "zsh"@,
        "git"@,
        "gimp"@,
        "mpv"@,
        "curl"@,
        "vim"@,
        "rkhunter"@,
    ]
}

/// The default packages of the desktop edition.
pub open spec fn desktop_packages() -> Seq<Seq<char>> {
    seq![
        "firefox"@,
        "clang"@,
        "zsh"@,
        "git"@,
        "zed"@,
        "gimp"@,
        "mpv"@,
        "spectacle"@,
    ]
}

/// The packages installed where the operator names none.
pub fn default_sw_package() -> (packages: &'static [&'static str])
    ensures
        slice_texts(packages@) == default_packages(),
{
    let packages: &'static [&'static str] = &[
        "firefox",
        "clang",
        "zsh",
        "git",
        "gimp",
        "mpv",
        "curl",
        "vim",
        "rkhunter",
    ];
    assert(slice_texts(packages@) =~= default_packages());
    packages
}

/// The packages installed where the operator names none, as owned strings.
pub fn default_sw_list() -> (packages: Vec<String>)
    ensures
        texts(packages@) == default_packages(),
{
    owned_texts(default_sw_package())
}

/// The default packages of the desktop edition, as owned strings.
pub fn default_package() -> (packages: Vec<String>)
    ensures
        texts(packages@) == desktop_packages(),
{
    let mut packages: Vec<String> = Vec::new();
    packages.push("firefox".to_owned());
    packages.push("clang".to_owned());
    packages.push("zsh".to_owned());
    packages.push("git".to_owned());
    packages.push("zed".to_owned());
    packages.push("gimp".to_owned());
    packages.push("mpv".to_owned());
    packages.push("spectacle".to_owned());
    assert(texts(packages@) =~= desktop_packages());
    packages
}

/// What the operator chose by the number typed: `Some(true)` for a list of
/// their own, `Some(false)` for the default list, `None` where no number
/// was typed and the question has to be put again.
pub open spec fn install_choice(typed: Option<i8>) -> Option<bool> {
    match typed {
        Some(number) => Some(number == 0),
        None => None,
    }
}

/// Reads the operator's choice off the number typed: `0` asks for a list of
/// their own, any other number for the default list.
pub fn choose_install_type(typed: Option<i8>) -> (custom: Option<bool>)
    ensures
        custom == install_choice(typed),
{
    match typed {
        Some(number) => Some(number == 0),
        None => None,
    }
}

/// Reads the operator's choice off the line typed.
pub fn check_sw_install_type(line: &str) -> (custom: Option<bool>)
    ensures
        custom == install_choice(spelled_i8(trimmed(line@))),
{
    choose_install_type(parse_i8(trim(line)))
}

/// The packages that the operator named on `line`, separated by whitespace.
pub fn set_sw_list(line: &str) -> (packages: Vec<String>)
    ensures
        texts(packages@) == words(line@),
{
    split_whitespace(line)
}

} // verus!
