//! The shell steps: Zsh as the login shell, Oh My Zsh, and its plugins.

use crate::commands::{
    run_sudo_command, run_user_command, sudo_spec, user_command, user_spec, CommandSpecView,
};
use crate::step::{after, events, run_once, Action, ActionView, Event, EventView};
use crate::text::{joined, slice_texts};
use vstd::prelude::*;

verus! {

/// The command that makes Zsh the login shell of `name`.
pub open spec fn shell_change_command(name: Seq<char>) -> CommandSpecView {
    sudo_spec("chsh"@, seq!["-s"@, "/usr/bin/zsh"@, name], None)
}

/// The shell change for `name`: run the command, then report its verdict.
pub open spec fn shell_change(name: Seq<char>, seen: Seq<EventView>) -> ActionView {
    run_once(shell_change_command(name), seen)
}

/// Makes Zsh the login shell of the user `name`.
pub fn change_def_shell(name: &str, seen: &[Event]) -> (action: Action)
    ensures
        action@ == shell_change(name@, events(seen@)),
{
    let args = ["-s", "/usr/bin/zsh", name];
    assert(slice_texts(args@) =~= seq!["-s"@, "/usr/bin/zsh"@, name@]);
    run_sudo_command("chsh", &args, seen)
}

/// Where Oh My Zsh is looked for.
pub open spec fn omz_dir() -> Seq<char> {
    "~/.oh-my-zsh"@
}

/// The command that fetches the installer of Oh My Zsh.
pub open spec fn omz_fetch_command() -> CommandSpecView {
    user_spec(
        "curl"@,
        seq![
            "-fsSL"@,
            "https://raw.githubusercontent.com/ohmyzsh/ohmyzsh/master/tools/install.sh"@,
        ],
    )
}

/// The shell that runs the installer it is fed.
pub open spec fn omz_run_command() -> CommandSpecView {
    user_spec("bash"@, Seq::empty())
}

/// The installation of Oh My Zsh: nothing to do where it is already there;
/// else fetch the installer into a shell, and report the shell's verdict.
pub open spec fn omz_install(seen: Seq<EventView>) -> ActionView {
    if seen.len() == 0 {
        ActionView::Probe(omz_dir())
    } else if !seen[0].absent() {
        ActionView::Done(Ok(()))
    } else if seen.len() == 1 {
        ActionView::Pipe { from: omz_fetch_command(), into: omz_run_command() }
    } else {
        ActionView::Done(seen[1].launch_verdict())
    }
}

/// Installs Oh My Zsh unless it is already installed.
pub fn install_omz(seen: &[Event]) -> (action: Action)
    ensures
        action@ == omz_install(events(seen@)),
{
    if seen.len() == 0 {
        Action::Probe("~/.oh-my-zsh".to_owned())
    } else if !seen[0].absent() {
        Action::Done(Ok(()))
    } else if seen.len() == 1 {
        let fetch = [
            "-fsSL",
            "https://raw.githubusercontent.com/ohmyzsh/ohmyzsh/master/tools/install.sh",
        ];
        let none: [&str; 0] = [];
        assert(slice_texts(fetch@) =~= omz_fetch_command().args);
        assert(slice_texts(none@) =~= omz_run_command().args);
        Action::Pipe { from: user_command("curl", &fetch), into: user_command("bash", &none) }
    } else {
        Action::Done(seen[1].launch_verdict())
    }
}

/// Where the plugin `plugin_name` of the user at `home_dir` lives.
pub open spec fn plugin_dir(home_dir: Seq<char>, plugin_name: Seq<char>) -> Seq<char> {
    home_dir + "/.oh-my-zsh/custom/plugins/"@ + plugin_name
}

/// The command that clones `repo_url` into `dir`.
pub open spec fn clone_command(repo_url: Seq<char>, dir: Seq<char>) -> CommandSpecView {
    user_spec("git"@, seq!["clone"@, repo_url, dir])
}

/// The installation of a plugin: nothing to do where its directory is
/// already there; else clone it, and report the verdict of the clone.
pub open spec fn plugin_install(
    home_dir: Seq<char>,
    plugin_name: Seq<char>,
    repo_url: Seq<char>,
    seen: Seq<EventView>,
) -> ActionView {
    let dir = plugin_dir(home_dir, plugin_name);
    if seen.len() == 0 {
        ActionView::Probe(dir)
    } else if !seen[0].absent() {
        ActionView::Done(Ok(()))
    } else {
        run_once(clone_command(repo_url, dir), seen.skip(1))
    }
}

/// The directory of the plugin `plugin_name` under `home_dir`.
pub fn plugin_path(home_dir: &str, plugin_name: &str) -> (dir: String)
    ensures
        dir@ == plugin_dir(home_dir@, plugin_name@),
{
    let base = joined(home_dir, "/.oh-my-zsh/custom/plugins/");
    joined(base.as_str(), plugin_name)
}

/// Installs the Zsh plugin `plugin_name` from `repo_url` for the user whose
/// home is `home_dir`, unless it is already installed.
pub fn install_zsh_plugin(
    home_dir: &str,
    plugin_name: &str,
    repo_url: &str,
    seen: &[Event],
) -> (action: Action)
    ensures
        action@ == plugin_install(home_dir@, plugin_name@, repo_url@, events(seen@)),
{
    let path = plugin_path(home_dir, plugin_name);
    if seen.len() == 0 {
        Action::Probe(path)
    } else if !seen[0].absent() {
        Action::Done(Ok(()))
    } else {
        let args = ["clone", repo_url, path.as_str()];
        assert(slice_texts(args@) =~= seq!["clone"@, repo_url@, path@]);
        run_user_command("git", &args, after(seen, 1))
    }
}

/// The installation of the autosuggestions plugin.
pub open spec fn autosuggestions_install(home_dir: Seq<char>, seen: Seq<EventView>) -> ActionView {
    plugin_install(
        home_dir,
        "zsh-autosuggestions"@,
        "https://github.com/zsh-users/zsh-autosuggestions"@,
        seen,
    )
}

/// The installation of the syntax highlighting plugin.
pub open spec fn syntax_highlighting_install(
    home_dir: Seq<char>,
    seen: Seq<EventView>,
) -> ActionView {
    plugin_install(
        home_dir,
        "zsh-syntax-highlighting"@,
        "https://github.com/zsh-users/zsh-syntax-highlighting.git"@,
        seen,
    )
}

/// Installs the autosuggestions plugin.
pub fn install_zsh_autosuggestions(home_dir: &str, seen: &[Event]) -> (action: Action)
    ensures
        action@ == autosuggestions_install(home_dir@, events(seen@)),
{
    install_zsh_plugin(
        home_dir,
        "zsh-autosuggestions",
        "https://github.com/zsh-users/zsh-autosuggestions",
        seen,
    )
}

/// Installs the syntax highlighting plugin.
pub fn install_zsh_syntax_highlighting(home_dir: &str, seen: &[Event]) -> (action: Action)
    ensures
        action@ == syntax_highlighting_install(home_dir@, events(seen@)),
{
    install_zsh_plugin(
        home_dir,
        "zsh-syntax-highlighting",
        "https://github.com/zsh-users/zsh-syntax-highlighting.git",
        seen,
    )
}

} // verus!
