use glwiz::commands::{CommandOutcome, ExitInfo, Launch};
use glwiz::error::SetupError;
use glwiz::plan::{label_of, perform_task, task_at, Task, PLANNED};
use glwiz::step::{Action, Event};
use glwiz::user_cfg::UserCfg;
use glwiz::{detect_distro, distro_name, Detection};

const PLAN: [Task; 12] = [
    Task::IptablesFile,
    Task::IptablesRules,
    Task::Software,
    Task::UserShell,
    Task::RootShell,
    Task::OhMyZsh,
    Task::Autosuggestions,
    Task::SyntaxHighlighting,
    Task::ZshConfig,
    Task::VimConfig,
    Task::RootConfig,
    Task::ZramSwap,
];

fn alice() -> UserCfg {
    UserCfg::resolve(Some("alice".to_string()), Some("/home/alice".to_string()), Some(true))
        .unwrap()
}

fn exited(code: i32) -> Event {
    Event::Launched(Launch::Finished(CommandOutcome {
        exit_info: ExitInfo::Code(code),
        stdout: String::new(),
        stderr: String::new(),
    }))
}

/// Carries out one task on a machine where every source is there, no
/// destination exists yet, and every command ends with `code`.
fn carry_out(task: Task, user: &UserCfg, code: i32) -> (Result<(), SetupError>, usize) {
    let packages = vec!["firefox".to_string()];
    let mut seen: Vec<Event> = Vec::new();
    loop {
        let event = match perform_task(task, user, "arch", &packages, &seen) {
            Action::Done(result) => return (result, seen.len()),
            Action::Probe(path) => Event::Exists(path.starts_with("../configs/")),
            Action::Read(_) => Event::Content(Some(b"content\n".to_vec())),
            Action::Write { .. } => Event::Written(true),
            Action::Confirm(_) => Event::Answer("n\n".to_string()),
            Action::Run(_) => exited(code),
            Action::Pipe { .. } => exited(code),
        };
        seen.push(event);
    }
}

#[test]
fn the_plan_holds_twelve_tasks_in_order() {
    assert_eq!(PLANNED, 12);
    for (index, task) in PLAN.iter().enumerate() {
        assert_eq!(task_at(index), Some(*task));
    }
    assert_eq!(task_at(12), None);
    assert_eq!(task_at(usize::MAX), None);
}

#[test]
fn every_task_has_its_label() {
    let user = alice();
    let labels: Vec<String> = PLAN.iter().map(|task| label_of(*task, &user)).collect();
    assert_eq!(
        labels,
        vec![
            "iptables file setup",
            "iptables rules setup",
            "Software installation",
            "Shell change for alice",
            "Shell change for root",
            "Oh My Zsh installation",
            "Zsh autosuggestions installation",
            "Zsh syntax highlighting installation",
            "Zsh user configuration",
            "Vim user configuration",
            "Root configuration",
            "ZRAM swap setup",
        ]
    );
}

#[test]
fn every_task_ends_within_five_events() {
    let user = alice();
    for task in PLAN {
        for code in [0, 1] {
            let (_, events) = carry_out(task, &user, code);
            assert!(events <= 5);
        }
        let noise: Vec<Event> = (0..5).map(|_| Event::Written(false)).collect();
        assert!(matches!(perform_task(task, &user, "arch", &Vec::new(), &noise), Action::Done(_)));
    }
}

#[test]
fn the_tasks_of_the_user_work_on_the_resolved_identity() {
    let user = alice();
    let none: Vec<Event> = Vec::new();
    let packages: Vec<String> = Vec::new();
    match perform_task(Task::UserShell, &user, "arch", &packages, &none) {
        Action::Run(spec) => assert_eq!(spec.args, vec!["-s", "/usr/bin/zsh", "alice"]),
        other => panic!("unexpected {:?}", other),
    }
    match perform_task(Task::RootShell, &user, "arch", &packages, &none) {
        Action::Run(spec) => assert_eq!(spec.args, vec!["-s", "/usr/bin/zsh", "root"]),
        other => panic!("unexpected {:?}", other),
    }
    assert_eq!(
        perform_task(Task::ZshConfig, &user, "arch", &packages, &none),
        Action::Probe("/home/alice/.zshrc".to_string())
    );
    assert_eq!(
        perform_task(Task::VimConfig, &user, "arch", &packages, &none),
        Action::Probe("/home/alice/.vimrc".to_string())
    );
    match perform_task(Task::RootConfig, &user, "arch", &packages, &none) {
        Action::Run(spec) => {
            assert_eq!(spec.args, vec!["-r", "/home/alice/.oh-my-zsh", "/root/.oh-my-zsh"])
        }
        other => panic!("unexpected {:?}", other),
    }
}

#[test]
fn the_distribution_is_known_by_its_release_file() {
    let probe = |path: &str| Detection::Probe(path.to_string());
    let known = |name: &str| Detection::Known(Some(name.to_string()));
    assert_eq!(detect_distro(&vec![]), probe("/etc/arch-release"));
    assert_eq!(detect_distro(&vec![true]), known("arch"));
    assert_eq!(detect_distro(&vec![false]), probe("/etc/debian_version"));
    assert_eq!(detect_distro(&vec![false, true]), known("debian"));
    assert_eq!(detect_distro(&vec![false, false]), probe("/etc/fedora-release"));
    assert_eq!(detect_distro(&vec![false, false, true]), known("fedora"));
    assert_eq!(detect_distro(&vec![false, false, false]), Detection::Known(None));
    assert_eq!(detect_distro(&vec![true, true, true]), known("arch"));
}

#[test]
fn a_distribution_that_is_not_known_is_called_unknown() {
    assert_eq!(distro_name(None), "unknown");
    assert_eq!(distro_name(Some("debian".to_string())), "debian");
}
