//! The plan of the default setup: its tasks, the step that carries out each,
//! and the label under which each is reported.

use crate::configs::{
    config_install, destination, lemma_install_settles, lemma_mirror_settles, mirror,
    mirror_from, root_home, root_items, setup_root_config, user_config_setup,
};
use crate::iptables::{
    iptables_file_setup, iptables_rules_setup, rules_apply_command, rules_install, rules_target,
    rules_write_command,
};
use crate::shell::{
    autosuggestions_install, change_def_shell, install_omz, install_zsh_autosuggestions,
    install_zsh_syntax_highlighting, omz_install, shell_change, syntax_highlighting_install,
};
use crate::software::{software_install, software_setup};
use crate::step::{
    events, lemma_guard_is_harmless, lemma_guard_settles, lemma_run_settles, overwrite_guard,
    run_once, Action, ActionView, Event, EventView, Guard,
};
use crate::text::{borrowed_texts, joined, texts};
use crate::user_cfg::{UserCfg, UserCfgView};
use crate::zram::{zram_copy_command, zram_install, zram_swap_setup, zram_target};
use vstd::prelude::*;

verus! {

/// A task of the default setup.
#[derive(Debug, Clone, Copy, PartialEq, Eq, Structural)]
pub enum Task {
    IptablesFile,
    IptablesRules,
    Software,
    UserShell,
    RootShell,
    OhMyZsh,
    Autosuggestions,
    SyntaxHighlighting,
    ZshConfig,
    VimConfig,
    RootConfig,
    ZramSwap,
}

/// The tasks of the default setup, in the order in which they are performed.
pub open spec fn default_tasks() -> Seq<Task> {
    seq![
        Task::IptablesFile,
        Task::IptablesRules,
        Task::Software,
        Task::UserShell,
        Task::RootShell,
        Task::OhMyZsh,
        Task::Autosuggestions,
        Task::SyntaxHighlighting,
        Task::ZshConfig,
        Task::VimConfig,
        Task::RootConfig,
        Task::ZramSwap,
    ]
}

/// The number of tasks of the default setup.
pub const PLANNED: usize = 12;

/// The task at `index` of the default setup.
pub fn task_at(index: usize) -> (task: Option<Task>)
    ensures
        index < PLANNED ==> task == Some(default_tasks()[index as int]),
        index >= PLANNED ==> task is None,
        default_tasks().len() == PLANNED,
{
    if index == 0 {
        Some(Task::IptablesFile)
    } else if index == 1 {
        Some(Task::IptablesRules)
    } else if index == 2 {
        Some(Task::Software)
    } else if index == 3 {
        Some(Task::UserShell)
    } else if index == 4 {
        Some(Task::RootShell)
    } else if index == 5 {
        Some(Task::OhMyZsh)
    } else if index == 6 {
        Some(Task::Autosuggestions)
    } else if index == 7 {
        Some(Task::SyntaxHighlighting)
    } else if index == 8 {
        Some(Task::ZshConfig)
    } else if index == 9 {
        Some(Task::VimConfig)
    } else if index == 10 {
        Some(Task::RootConfig)
    } else if index == 11 {
        Some(Task::ZramSwap)
    } else {
        None
    }
}

/// The Zsh configuration that ships with the assistant.
pub open spec fn zsh_config() -> Seq<char> {
    "../configs/.zshrc"@
}

/// The Vim configuration that ships with the assistant.
pub open spec fn vim_config() -> Seq<char> {
    "../configs/.vimrc"@
}

/// The step that carries out `task` for `user` on `distro`, with `packages`
/// as the software to install.
pub open spec fn task_step(
    task: Task,
    user: UserCfgView,
    distro: Seq<char>,
    packages: Seq<Seq<char>>,
    seen: Seq<EventView>,
) -> ActionView {
    match task {
        Task::IptablesFile => rules_install(seen),
        Task::IptablesRules => run_once(rules_apply_command(), seen),
        Task::Software => software_install(packages, distro, seen),
        Task::UserShell => shell_change(user.name, seen),
        Task::RootShell => shell_change("root"@, seen),
        Task::OhMyZsh => omz_install(seen),
        Task::Autosuggestions => autosuggestions_install(user.home_dir, seen),
        Task::SyntaxHighlighting => syntax_highlighting_install(user.home_dir, seen),
        Task::ZshConfig => config_install(zsh_config(), user.home_dir, seen),
        Task::VimConfig => config_install(vim_config(), user.home_dir, seen),
        Task::RootConfig => mirror(user.home_dir, root_items(), root_home(), seen),
        Task::ZramSwap => zram_install(seen),
    }
}

/// Says what `task` needs next, given what its step has observed so far.
pub fn perform_task(
    task: Task,
    user: &UserCfg,
    distro: &str,
    packages: &Vec<String>,
    seen: &[Event],
) -> (action: Action)
    ensures
        action@ == task_step(task, user@, distro@, texts(packages@), events(seen@)),
{
    match task {
        Task::IptablesFile => iptables_file_setup(seen),
        Task::IptablesRules => iptables_rules_setup(seen),
        Task::Software => software_setup(borrowed_texts(packages).as_slice(), distro, seen),
        Task::UserShell => change_def_shell(user.get_name(), seen),
        Task::RootShell => change_def_shell("root", seen),
        Task::OhMyZsh => install_omz(seen),
        Task::Autosuggestions => install_zsh_autosuggestions(user.get_home(), seen),
        Task::SyntaxHighlighting => install_zsh_syntax_highlighting(user.get_home(), seen),
        Task::ZshConfig => user_config_setup("../configs/.zshrc", user.get_home(), seen),
        Task::VimConfig => user_config_setup("../configs/.vimrc", user.get_home(), seen),
        Task::RootConfig => setup_root_config(user.get_home(), seen),
        Task::ZramSwap => zram_swap_setup(seen),
    }
}

/// The label under which `task` is reported for the user `name`.
pub open spec fn task_label(task: Task, name: Seq<char>) -> Seq<char> {
    match task {
        Task::IptablesFile => "iptables file setup"@,
        Task::IptablesRules => "iptables rules setup"@,
        Task::Software => "Software installation"@,
        Task::UserShell => "Shell change for "@ + name,
        Task::RootShell => "Shell change for root"@,
        Task::OhMyZsh => "Oh My Zsh installation"@,
        Task::Autosuggestions => "Zsh autosuggestions installation"@,
        Task::SyntaxHighlighting => "Zsh syntax highlighting installation"@,
        Task::ZshConfig => "Zsh user configuration"@,
        Task::VimConfig => "Vim user configuration"@,
        Task::RootConfig => "Root configuration"@,
        Task::ZramSwap => "ZRAM swap setup"@,
    }
}

/// The label under which `task` is reported for `user`.
pub fn label_of(task: Task, user: &UserCfg) -> (label: String)
    ensures
        label@ == task_label(task, user@.name),
{
    match task {
        Task::IptablesFile => "iptables file setup".to_owned(),
        Task::IptablesRules => "iptables rules setup".to_owned(),
        Task::Software => "Software installation".to_owned(),
        Task::UserShell => joined("Shell change for ", user.get_name()),
        Task::RootShell => "Shell change for root".to_owned(),
        Task::OhMyZsh => "Oh My Zsh installation".to_owned(),
        Task::Autosuggestions => "Zsh autosuggestions installation".to_owned(),
        Task::SyntaxHighlighting => "Zsh syntax highlighting installation".to_owned(),
        Task::ZshConfig => "Zsh user configuration".to_owned(),
        Task::VimConfig => "Vim user configuration".to_owned(),
        Task::RootConfig => "Root configuration".to_owned(),
        Task::ZramSwap => "ZRAM swap setup".to_owned(),
    }
}

/// The most events that a task of the default setup asks for.
pub open spec fn longest_step() -> nat {
    5
}

/// Every task comes to an end: once its step has been told as many events
/// as the longest step asks for, it is done, whatever the events were.
pub proof fn lemma_task_ends(
    task: Task,
    user: UserCfgView,
    distro: Seq<char>,
    packages: Seq<Seq<char>>,
    seen: Seq<EventView>,
)
    requires
        seen.len() >= longest_step(),
    ensures
        task_step(task, user, distro, packages, seen) is Done,
{
    reveal_with_fuel(mirror_from, 4);
}

/// A task that is done stays done: whatever is reported after its step has
/// ended, the step has ended, and with the same result.
pub proof fn lemma_task_settles(
    task: Task,
    user: UserCfgView,
    distro: Seq<char>,
    packages: Seq<Seq<char>>,
    seen: Seq<EventView>,
    more: Seq<EventView>,
)
    requires
        task_step(task, user, distro, packages, seen) is Done,
    ensures
        task_step(task, user, distro, packages, seen + more) == task_step(
            task,
            user,
            distro,
            packages,
            seen,
        ),
{
    let longer = seen + more;
    if seen.len() >= 1 {
        assert(longer[0] == seen[0]);
        assert(longer.skip(1) =~= seen.skip(1) + more);
    }
    if seen.len() >= 2 {
        assert(longer[1] == seen[1]);
        assert(longer.skip(2) =~= seen.skip(2) + more);
    }
    match task {
        Task::IptablesFile => {
            if seen.len() >= 2 && seen[0].present() && seen[1].content() is Some {
                let target = rules_target();
                lemma_guard_settles(target, seen.skip(2), more);
                lemma_guard_is_harmless(target, seen.skip(2));
                if let Guard::Proceed(rest) = overwrite_guard(target, seen.skip(2)) {
                    lemma_run_settles(
                        rules_write_command(seen[1].content()->0),
                        rest,
                        more,
                    );
                }
            }
        },
        Task::ZshConfig => {
            if let Ok(to) = destination(zsh_config(), user.home_dir) {
                lemma_install_settles(zsh_config(), to, seen, more);
            }
        },
        Task::VimConfig => {
            if let Ok(to) = destination(vim_config(), user.home_dir) {
                lemma_install_settles(vim_config(), to, seen, more);
            }
        },
        Task::RootConfig => {
            lemma_mirror_settles(user.home_dir, root_items(), root_home(), seen, more);
        },
        Task::ZramSwap => {
            if seen.len() >= 1 && seen[0].present() {
                let target = zram_target();
                lemma_guard_settles(target, seen.skip(1), more);
                lemma_guard_is_harmless(target, seen.skip(1));
                if let Guard::Proceed(rest) = overwrite_guard(target, seen.skip(1)) {
                    lemma_run_settles(zram_copy_command(), rest, more);
                }
            }
        },
        _ => {},
    }
}

} // verus!
