use glwiz::commands::{CommandOutcome, CommandSpec, ExitInfo, Launch, Privilege};
use glwiz::configs::{
    config_destination, copy_item_as_root, destination_of, failed_item, install_file,
    mirror_privileged, path_of_item, setup_root_config, user_config_setup,
};
use glwiz::error::SetupError;
use glwiz::iptables::{iptables_file_setup, iptables_rules_setup};
use glwiz::shell::{
    change_def_shell, install_omz, install_zsh_autosuggestions, install_zsh_plugin,
    install_zsh_syntax_highlighting, plugin_path,
};
use glwiz::software::software_setup;
use glwiz::step::{Action, Event};
use glwiz::zram::zram_swap_setup;

fn strings(items: &[&str]) -> Vec<String> {
    items.iter().map(|s| s.to_string()).collect()
}

fn command(program: &str, args: &[&str], privilege: Privilege) -> CommandSpec {
    CommandSpec { program: program.to_string(), args: strings(args), privilege, stdin: None }
}

fn run(program: &str, args: &[&str], privilege: Privilege) -> Action {
    Action::Run(command(program, args, privilege))
}

fn exited(code: i32) -> Event {
    Event::Launched(Launch::Finished(CommandOutcome {
        exit_info: ExitInfo::Code(code),
        stdout: String::new(),
        stderr: String::new(),
    }))
}

fn failed_exit() -> Action {
    Action::Done(Err(SetupError::NonZeroExit { stdout: String::new(), stderr: String::new() }))
}

fn answer(line: &str) -> Event {
    Event::Answer(line.to_string())
}

fn probe(path: &str) -> Action {
    Action::Probe(path.to_string())
}

fn done() -> Action {
    Action::Done(Ok(()))
}

fn changes_the_machine(action: &Action) -> bool {
    matches!(action, Action::Write { .. } | Action::Run(_) | Action::Pipe { .. })
}

#[test]
fn shell_change_runs_chsh_as_root() {
    assert_eq!(
        change_def_shell("alice", &vec![]),
        run("chsh", &["-s", "/usr/bin/zsh", "alice"], Privilege::Root)
    );
    assert_eq!(change_def_shell("alice", &vec![exited(0)]), done());
    assert_eq!(change_def_shell("alice", &vec![exited(1)]), failed_exit());
    assert_eq!(
        change_def_shell("root", &vec![Event::Launched(Launch::NotStarted)]),
        Action::Done(Err(SetupError::SpawnFailed))
    );
}

#[test]
fn a_step_looks_at_no_more_events_than_it_asked_for() {
    assert_eq!(change_def_shell("alice", &vec![exited(0), exited(1), answer("n")]), done());
    assert_eq!(install_omz(&vec![Event::Exists(true), exited(1)]), done());
}

#[test]
fn a_report_on_something_else_counts_as_no_launch() {
    assert_eq!(
        change_def_shell("alice", &vec![Event::Exists(true)]),
        Action::Done(Err(SetupError::SpawnFailed))
    );
}

#[test]
fn omz_is_left_alone_where_it_is_installed() {
    assert_eq!(install_omz(&vec![]), probe("~/.oh-my-zsh"));
    assert_eq!(install_omz(&vec![Event::Exists(true)]), done());
}

#[test]
fn omz_is_fetched_into_a_shell() {
    assert_eq!(
        install_omz(&vec![Event::Exists(false)]),
        Action::Pipe {
            from: command(
                "curl",
                &[
                    "-fsSL",
                    "https://raw.githubusercontent.com/ohmyzsh/ohmyzsh/master/tools/install.sh"
                ],
                Privilege::User
            ),
            into: command("bash", &[], Privilege::User),
        }
    );
    assert_eq!(install_omz(&vec![Event::Exists(false), exited(0)]), done());
    assert_eq!(install_omz(&vec![Event::Exists(false), exited(2)]), failed_exit());
    assert_eq!(
        install_omz(&vec![Event::Exists(false), Event::Launched(Launch::NotStarted)]),
        Action::Done(Err(SetupError::SpawnFailed))
    );
}

#[test]
fn plugin_path_lies_under_the_custom_plugins() {
    assert_eq!(
        plugin_path("/home/alice", "zsh-autosuggestions"),
        "/home/alice/.oh-my-zsh/custom/plugins/zsh-autosuggestions"
    );
}

#[test]
fn plugin_is_cloned_where_it_is_missing() {
    let dir = "/home/alice/.oh-my-zsh/custom/plugins/demo";
    assert_eq!(install_zsh_plugin("/home/alice", "demo", "https://x/demo", &vec![]), probe(dir));
    assert_eq!(
        install_zsh_plugin("/home/alice", "demo", "https://x/demo", &vec![Event::Exists(false)]),
        run("git", &["clone", "https://x/demo", dir], Privilege::User)
    );
    assert_eq!(
        install_zsh_plugin(
            "/home/alice",
            "demo",
            "https://x/demo",
            &vec![Event::Exists(false), exited(0)]
        ),
        done()
    );
    assert_eq!(
        install_zsh_plugin(
            "/home/alice",
            "demo",
            "https://x/demo",
            &vec![Event::Exists(false), exited(128)]
        ),
        failed_exit()
    );
}

#[test]
fn plugin_is_left_alone_where_it_is_installed() {
    assert_eq!(
        install_zsh_plugin("/home/alice", "demo", "https://x/demo", &vec![Event::Exists(true)]),
        done()
    );
}

#[test]
fn autosuggestions_come_from_their_repository() {
    let dir = "/home/alice/.oh-my-zsh/custom/plugins/zsh-autosuggestions";
    assert_eq!(install_zsh_autosuggestions("/home/alice", &vec![]), probe(dir));
    assert_eq!(
        install_zsh_autosuggestions("/home/alice", &vec![Event::Exists(false)]),
        run(
            "git",
            &["clone", "https://github.com/zsh-users/zsh-autosuggestions", dir],
            Privilege::User
        )
    );
}

#[test]
fn syntax_highlighting_comes_from_its_repository() {
    let dir = "/home/alice/.oh-my-zsh/custom/plugins/zsh-syntax-highlighting";
    assert_eq!(install_zsh_syntax_highlighting("/home/alice", &vec![]), probe(dir));
    assert_eq!(
        install_zsh_syntax_highlighting("/home/alice", &vec![Event::Exists(false)]),
        run(
            "git",
            &["clone", "https://github.com/zsh-users/zsh-syntax-highlighting.git", dir],
            Privilege::User
        )
    );
}

#[test]
fn config_destination_keeps_the_file_name() {
    assert_eq!(
        config_destination("../configs/.zshrc", "/home/alice"),
        Ok("/home/alice/.zshrc".to_string())
    );
    assert_eq!(config_destination("vimrc", "/root"), Ok("/root/vimrc".to_string()));
    assert_eq!(config_destination("a/b/c.conf", "/etc/"), Ok("/etc/c.conf".to_string()));
}

#[test]
fn config_destination_wants_a_file_name() {
    for path in ["", "/", "..", "../configs/..", "."] {
        assert_eq!(config_destination(path, "/home/alice"), Err(SetupError::InvalidSourceName));
    }
}

#[test]
fn a_source_without_file_name_ends_the_install_at_once() {
    assert_eq!(
        user_config_setup("..", "/home/alice", &vec![]),
        Action::Done(Err(SetupError::InvalidSourceName))
    );
    assert_eq!(
        user_config_setup("/", "/home/alice", &vec![Event::Exists(false)]),
        Action::Done(Err(SetupError::InvalidSourceName))
    );
}

#[test]
fn a_config_is_copied_onto_a_free_destination() {
    let from = "../configs/.vimrc";
    let home = "/home/alice";
    let content = b"set number\n".to_vec();
    assert_eq!(user_config_setup(from, home, &vec![]), probe("/home/alice/.vimrc"));
    let mut seen = vec![Event::Exists(false)];
    assert_eq!(user_config_setup(from, home, &seen), Action::Read(from.to_string()));
    seen.push(Event::Content(Some(content.clone())));
    assert_eq!(
        user_config_setup(from, home, &seen),
        Action::Write { path: "/home/alice/.vimrc".to_string(), content }
    );
    seen.push(Event::Written(true));
    assert_eq!(user_config_setup(from, home, &seen), done());
}

#[test]
fn installing_twice_writes_the_source_twice() {
    let content = vec![0u8, 159, 146, 150, 10];
    let first = vec![Event::Exists(false), Event::Content(Some(content.clone()))];
    let second = vec![Event::Exists(true), answer("y\n"), Event::Content(Some(content.clone()))];
    let expected =
        || Action::Write { path: "/home/alice/.zshrc".to_string(), content: content.clone() };
    assert_eq!(install_file("src/.zshrc", "/home/alice/.zshrc", &first), expected());
    assert_eq!(install_file("src/.zshrc", "/home/alice/.zshrc", &second), expected());
    let mut first_done = first;
    first_done.push(Event::Written(true));
    let mut second_done = second;
    second_done.push(Event::Written(true));
    assert_eq!(install_file("src/.zshrc", "/home/alice/.zshrc", &first_done), done());
    assert_eq!(install_file("src/.zshrc", "/home/alice/.zshrc", &second_done), done());
}

#[test]
fn an_existing_destination_is_asked_about() {
    assert_eq!(
        install_file("a", "/home/alice/a", &vec![Event::Exists(true)]),
        Action::Confirm("/home/alice/a".to_string())
    );
}

#[test]
fn declining_leaves_the_destination_alone() {
    for line in ["n\n", "N", "", "no", "yes", "maybe\n"] {
        let seen = vec![Event::Exists(true), answer(line)];
        for n in 0..=seen.len() {
            let action = install_file("a", "/home/alice/a", &seen[..n]);
            assert!(!changes_the_machine(&action));
        }
        assert_eq!(install_file("a", "/home/alice/a", &seen), done());
    }
}

#[test]
fn accepting_in_capitals_overwrites() {
    let seen = vec![Event::Exists(true), answer(" Y \n")];
    assert_eq!(install_file("a", "/home/alice/a", &seen), Action::Read("a".to_string()));
}

#[test]
fn a_source_that_cannot_be_read_fails_the_install() {
    let seen = vec![Event::Exists(false), Event::Content(None)];
    assert_eq!(
        install_file("a", "/home/alice/a", &seen),
        Action::Done(Err(SetupError::SourceUnreadable))
    );
}

#[test]
fn a_write_that_fails_fails_the_install() {
    let seen = vec![Event::Exists(false), Event::Content(Some(vec![1, 2])), Event::Written(false)];
    assert_eq!(
        install_file("a", "/home/alice/a", &seen),
        Action::Done(Err(SetupError::DestinationWriteFailed))
    );
}

#[test]
fn copy_item_as_root_copies_directories_too() {
    assert_eq!(
        copy_item_as_root("/home/alice/.zshrc", "/root/.zshrc", &[]),
        run("cp", &["-r", "/home/alice/.zshrc", "/root/.zshrc"], Privilege::Root)
    );
    assert_eq!(copy_item_as_root("/home/alice/.zshrc", "/root/.zshrc", &[exited(0)]), done());
    assert_eq!(
        copy_item_as_root("/home/alice/.zshrc", "/root/.zshrc", &[exited(1)]),
        failed_exit()
    );
    assert_eq!(path_of_item("/home/alice", ".zshrc"), "/home/alice/.zshrc");
}

#[test]
fn root_receives_the_three_items_in_order() {
    let copy = |item: &str| {
        run(
            "cp",
            &["-r", &format!("/home/alice/{}", item), &format!("/root/{}", item)],
            Privilege::Root,
        )
    };
    assert_eq!(setup_root_config("/home/alice", &vec![]), copy(".oh-my-zsh"));
    assert_eq!(setup_root_config("/home/alice", &vec![exited(0)]), copy(".zshrc"));
    assert_eq!(setup_root_config("/home/alice", &vec![exited(0), exited(0)]), copy(".vimrc"));
    assert_eq!(setup_root_config("/home/alice", &vec![exited(0), exited(0), exited(0)]), done());
}

#[test]
fn mirroring_stops_at_the_first_copy_that_fails() {
    let items = ["a", "b", "c"];
    let seen = vec![exited(0), exited(1)];
    assert_eq!(mirror_privileged("/src", &items, "/dst", &seen), failed_exit());
    assert_eq!(failed_item(&items, &seen), Some(1));
    let longer = vec![exited(0), exited(1), exited(0)];
    assert_eq!(mirror_privileged("/src", &items, "/dst", &longer), failed_exit());
    assert_eq!(failed_item(&items, &longer), Some(1));
    let first = vec![Event::Launched(Launch::NotStarted)];
    assert_eq!(
        mirror_privileged("/src", &items, "/dst", &first),
        Action::Done(Err(SetupError::SpawnFailed))
    );
    assert_eq!(failed_item(&items, &first), Some(0));
}

#[test]
fn mirroring_copies_each_item_under_the_target() {
    let items = ["a", "dir/b"];
    assert_eq!(
        mirror_privileged("/src", &items, "/dst", &vec![]),
        run("cp", &["-r", "/src/a", "/dst/a"], Privilege::Root)
    );
    assert_eq!(
        mirror_privileged("/src", &items, "/dst", &vec![exited(0)]),
        run("cp", &["-r", "/src/dir/b", "/dst/dir/b"], Privilege::Root)
    );
    assert_eq!(mirror_privileged("/src", &items, "/dst", &vec![exited(0), exited(0)]), done());
    assert_eq!(failed_item(&items, &vec![exited(0), exited(0)]), None);
}

#[test]
fn mirroring_nothing_is_done_at_once() {
    assert_eq!(mirror_privileged("/src", &[], "/dst", &[]), done());
    assert_eq!(failed_item(&[], &[exited(1)]), None);
}

#[test]
fn the_rules_file_needs_its_source() {
    assert_eq!(iptables_file_setup(&vec![]), probe("../configs/iptables.rules"));
    assert_eq!(
        iptables_file_setup(&vec![Event::Exists(false)]),
        Action::Done(Err(SetupError::SourceUnreadable))
    );
    assert_eq!(
        iptables_file_setup(&vec![Event::Exists(true)]),
        Action::Read("../configs/iptables.rules".to_string())
    );
    assert_eq!(
        iptables_file_setup(&vec![Event::Exists(true), Event::Content(None)]),
        Action::Done(Err(SetupError::SourceUnreadable))
    );
}

#[test]
fn the_rules_are_written_as_root() {
    let rules = b"*filter\nCOMMIT\n".to_vec();
    let mut seen = vec![Event::Exists(true), Event::Content(Some(rules.clone()))];
    assert_eq!(iptables_file_setup(&seen), probe("/etc/iptables/iptables.rules"));
    seen.push(Event::Exists(false));
    assert_eq!(
        iptables_file_setup(&seen),
        Action::Run(CommandSpec {
            program: "tee".to_string(),
            args: strings(&["/etc/iptables/iptables.rules"]),
            privilege: Privilege::Root,
            stdin: Some(rules),
        })
    );
    seen.push(exited(0));
    assert_eq!(iptables_file_setup(&seen), done());
}

#[test]
fn existing_rules_are_kept_on_a_declining_answer() {
    let rules = b"*filter\nCOMMIT\n".to_vec();
    let mut seen =
        vec![Event::Exists(true), Event::Content(Some(rules.clone())), Event::Exists(true)];
    assert_eq!(
        iptables_file_setup(&seen),
        Action::Confirm("/etc/iptables/iptables.rules".to_string())
    );
    seen.push(answer("n\n"));
    assert_eq!(iptables_file_setup(&seen), done());
    seen.pop();
    seen.push(answer("y\n"));
    assert!(matches!(iptables_file_setup(&seen), Action::Run(_)));
    seen.push(Event::Launched(Launch::InputRefused));
    assert_eq!(iptables_file_setup(&seen), Action::Done(Err(SetupError::StdinWriteFailed)));
}

#[test]
fn the_rules_are_applied_through_a_shell() {
    assert_eq!(
        iptables_rules_setup(&vec![]),
        run("bash", &["-c", "iptables-restore < /etc/iptables/iptables.rules"], Privilege::Root)
    );
    assert_eq!(iptables_rules_setup(&vec![exited(0)]), done());
    assert_eq!(iptables_rules_setup(&vec![exited(4)]), failed_exit());
}

#[test]
fn swap_needs_its_source() {
    assert_eq!(zram_swap_setup(&vec![]), probe("../configs/zram-generator.conf"));
    assert_eq!(
        zram_swap_setup(&vec![Event::Exists(false)]),
        Action::Done(Err(SetupError::SourceUnreadable))
    );
}

#[test]
fn swap_is_copied_as_root() {
    let mut seen = vec![Event::Exists(true)];
    assert_eq!(zram_swap_setup(&seen), probe("/etc/systemd/zram-generator.conf"));
    seen.push(Event::Exists(false));
    assert_eq!(
        zram_swap_setup(&seen),
        run(
            "cp",
            &["../configs/zram-generator.conf", "/etc/systemd/zram-generator.conf"],
            Privilege::Root
        )
    );
    seen.push(exited(0));
    assert_eq!(zram_swap_setup(&seen), done());
}

#[test]
fn existing_swap_configuration_is_kept_on_a_declining_answer() {
    let mut seen = vec![Event::Exists(true), Event::Exists(true)];
    assert_eq!(
        zram_swap_setup(&seen),
        Action::Confirm("/etc/systemd/zram-generator.conf".to_string())
    );
    seen.push(answer("\n"));
    assert_eq!(zram_swap_setup(&seen), done());
}

#[test]
fn each_distribution_has_its_package_manager() {
    let packages = ["firefox", "vim"];
    assert_eq!(
        software_setup(&packages, "arch", &vec![]),
        run("pacman", &["-Sy", "--noconfirm", "firefox", "vim"], Privilege::Root)
    );
    assert_eq!(
        software_setup(&packages, "debian", &vec![]),
        run("apt", &["install", "-y", "firefox", "vim"], Privilege::Root)
    );
    assert_eq!(
        software_setup(&packages, "fedora", &vec![]),
        run("dnf", &["install", "-y", "firefox", "vim"], Privilege::Root)
    );
}

#[test]
fn software_reports_the_verdict_of_the_package_manager() {
    let packages = ["firefox"];
    assert_eq!(software_setup(&packages, "debian", &vec![exited(0)]), done());
    assert_eq!(software_setup(&packages, "debian", &vec![exited(100)]), failed_exit());
}

#[test]
fn an_unknown_distribution_has_nothing_to_run() {
    let packages = ["firefox"];
    for distro in ["unknown", "", "Arch", "ubuntu"] {
        assert_eq!(
            software_setup(&packages, distro, &vec![]),
            Action::Done(Err(SetupError::SpawnFailed))
        );
    }
}

#[test]
fn software_without_packages_still_runs_the_manager() {
    assert_eq!(
        software_setup(&[], "arch", &[]),
        run("pacman", &["-Sy", "--noconfirm"], Privilege::Root)
    );
}

#[test]
fn events_answer_only_what_they_report() {
    assert!(Event::Exists(true).present());
    assert!(!Event::Exists(false).present());
    assert!(Event::Exists(false).absent());
    assert!(!Event::Exists(true).absent());
    assert!(!Event::Written(true).present());
    assert!(!Event::Written(true).absent());
    assert!(Event::Written(true).written());
    assert!(!Event::Written(false).written());
    assert!(!Event::Exists(true).written());
    assert_eq!(Event::Content(Some(vec![1, 2])).content(), Some(&vec![1u8, 2]));
    assert_eq!(Event::Content(None).content(), None);
    assert_eq!(Event::Exists(true).content(), None);
    assert!(answer("y").accepted());
    assert!(!answer("n").accepted());
    assert!(!Event::Exists(true).accepted());
    assert_eq!(exited(0).launch_verdict(), Ok(()));
    assert_eq!(Event::Written(true).launch_verdict(), Err(SetupError::SpawnFailed));
}

#[test]
fn a_destination_counts_as_free_only_when_reported_absent() {
    assert_eq!(
        install_file("a", "/home/alice/a", &vec![Event::Written(true)]),
        Action::Confirm("/home/alice/a".to_string())
    );
    assert_eq!(
        install_zsh_plugin("/home/alice", "demo", "https://x/demo", &vec![Event::Written(true)]),
        done()
    );
}

#[test]
fn destination_of_wants_a_file_name() {
    assert_eq!(
        destination_of(Some(".zshrc".to_string()), "/home/alice"),
        Ok("/home/alice/.zshrc".to_string())
    );
    assert_eq!(destination_of(None, "/home/alice"), Err(SetupError::InvalidSourceName));
}
