use glwiz::commands::{CommandOutcome, ExitInfo, Launch};
use glwiz::error::SetupError;
use glwiz::plan::Task;
use glwiz::prog_fun::PrivilegePolicy;
use glwiz::step::{Action, Event};
use glwiz::task::{Policy, TaskResult};
use glwiz::{gnu_linux_default_setup, Ending, Job, Options, Reply, Request};

/// A machine as the run sees it.
struct Machine {
    euid: u32,
    user: Option<&'static str>,
    home: Option<&'static str>,
    home_exists: bool,
    release_file: Option<&'static str>,
    lines: Vec<&'static str>,
    failing: Option<Task>,
}

fn workstation() -> Machine {
    Machine {
        euid: 1000,
        user: Some("alice"),
        home: Some("/home/alice"),
        home_exists: true,
        release_file: Some("/etc/debian_version"),
        lines: vec!["1\n"],
        failing: None,
    }
}

fn options(policy: Policy) -> Options {
    Options {
        privilege: PrivilegePolicy::DenyRoot,
        allow_root: false,
        policy,
        check_home: true,
    }
}

fn exited(code: i32) -> Event {
    Event::Launched(Launch::Finished(CommandOutcome {
        exit_info: ExitInfo::Code(code),
        stdout: String::new(),
        stderr: String::new(),
    }))
}

/// Carries out the step of a job on a machine where every source is there
/// and no destination exists yet.
fn carry_out(job: &Job, code: i32) -> Result<(), SetupError> {
    let mut seen: Vec<Event> = Vec::new();
    loop {
        let event = match job.step(&seen) {
            Action::Done(result) => return result,
            Action::Probe(path) => Event::Exists(path.starts_with("../configs/")),
            Action::Read(_) => Event::Content(Some(b"content\n".to_vec())),
            Action::Write { .. } => Event::Written(true),
            Action::Confirm(_) => Event::Answer("n\n".to_string()),
            Action::Run(_) => exited(code),
            Action::Pipe { .. } => exited(code),
        };
        seen.push(event);
    }
}

/// Drives a run on `machine` to its end; gives what was asked, in short, and
/// how the run ended.
fn drive(options: &Options, machine: &Machine) -> (Vec<String>, Ending) {
    let mut replies: Vec<Reply> = Vec::new();
    let mut asked: Vec<String> = Vec::new();
    let mut lines = machine.lines.iter();
    loop {
        let reply = match gnu_linux_default_setup(options, &replies) {
            Request::License => {
                asked.push("license".to_string());
                Reply::Shown
            }
            Request::EffectiveUser => {
                asked.push("euid".to_string());
                Reply::User(machine.euid)
            }
            Request::Lookup(name) => {
                asked.push(format!("lookup {}", name));
                let value = if name == "USER" { machine.user } else { machine.home };
                Reply::Variable(value.map(|text| text.to_string()))
            }
            Request::Probe(path) => {
                asked.push(format!("probe {}", path));
                let found = if Some(path.as_str()) == machine.home {
                    machine.home_exists
                } else {
                    Some(path.as_str()) == machine.release_file
                };
                Reply::Exists(found)
            }
            Request::InstallType { again } => {
                asked.push(format!("install type, again: {}", again));
                Reply::Line(lines.next().unwrap().to_string())
            }
            Request::Packages => {
                asked.push("packages".to_string());
                Reply::Line(lines.next().unwrap().to_string())
            }
            Request::Perform(job) => {
                asked.push(format!("task {}", job.label));
                let code = if Some(job.task) == machine.failing { 1 } else { 0 };
                Reply::Outcome(carry_out(&job, code))
            }
            Request::Exit(ending) => return (asked, ending),
        };
        replies.push(reply);
    }
}

fn all_labels() -> Vec<&'static str> {
    vec![
        "iptables file setup",
        "iptables rules setup",
        "Software installation",
        "Shell change for alice",
        "Shell change for root",
        "Oh My Zsh installation",
        "Zsh autosuggestions installation",
        "Zsh syntax highlighting installation",
        "Zsh user configuration",
        "Vim user configuration",
        "Root configuration",
        "ZRAM swap setup",
    ]
}

fn preliminaries() -> Vec<String> {
    [
        "license",
        "euid",
        "lookup USER",
        "lookup HOME",
        "probe /home/alice",
        "probe /etc/arch-release",
        "probe /etc/debian_version",
    ]
    .iter()
    .map(|text| text.to_string())
    .collect()
}

/// What a run asks that performs the tasks with `labels`: the firewall comes
/// before the question for the software, every other task behind it.
fn with_tasks(labels: &[&str]) -> Vec<String> {
    let mut asked = preliminaries();
    for (index, label) in labels.iter().enumerate() {
        if index == 2 {
            asked.push("install type, again: false".to_string());
        }
        asked.push(format!("task {}", label));
    }
    asked
}

#[test]
fn a_run_in_which_all_succeeds_exits_with_zero() {
    for policy in [Policy::FailFast, Policy::CollectAll] {
        let (asked, ending) = drive(&options(policy), &workstation());
        assert_eq!(asked, with_tasks(&all_labels()));
        assert_eq!(ending, Ending::Finished { code: 0, failed: Vec::new() });
        assert_eq!(ending.code(), 0);
    }
}

#[test]
fn fail_fast_exits_with_the_status_of_the_software_install() {
    let machine = Machine { failing: Some(Task::Software), ..workstation() };
    let (asked, ending) = drive(&options(Policy::FailFast), &machine);
    assert_eq!(asked, with_tasks(&all_labels()[..3]));
    assert_eq!(
        ending,
        Ending::Finished {
            code: 1,
            failed: vec![TaskResult { status: 1, message: "Software installation".to_string() }],
        }
    );
    assert_eq!(ending.code(), 1);
}

#[test]
fn collect_all_reports_the_software_install_at_the_end() {
    let machine = Machine { failing: Some(Task::Software), ..workstation() };
    let (asked, ending) = drive(&options(Policy::CollectAll), &machine);
    assert_eq!(asked, with_tasks(&all_labels()));
    assert_eq!(
        ending,
        Ending::Finished {
            code: 1,
            failed: vec![TaskResult { status: 1, message: "Software installation".to_string() }],
        }
    );
}

#[test]
fn root_is_denied_before_anything_is_looked_up() {
    let machine = Machine { euid: 0, ..workstation() };
    let (asked, ending) = drive(&options(Policy::CollectAll), &machine);
    assert_eq!(asked, vec!["license", "euid"]);
    assert_eq!(ending, Ending::Denied);
    assert_eq!(ending.code(), 1);
}

#[test]
fn a_run_that_requires_root_denies_a_user_without_the_flag() {
    let require_root = Options {
        privilege: PrivilegePolicy::DenyNonRootUnlessFlagged,
        ..options(Policy::CollectAll)
    };
    let (asked, ending) = drive(&require_root, &workstation());
    assert_eq!(asked, vec!["license", "euid"]);
    assert_eq!(ending, Ending::Denied);
    let flagged = Options { allow_root: true, ..require_root };
    let (_, ending) = drive(&flagged, &workstation());
    assert_eq!(ending.code(), 0);
}

#[test]
fn a_missing_user_ends_the_run_before_home_is_looked_up() {
    for user in [None, Some("")] {
        let machine = Machine { user, ..workstation() };
        let (asked, ending) = drive(&options(Policy::CollectAll), &machine);
        assert_eq!(asked, vec!["license", "euid", "lookup USER"]);
        assert_eq!(
            ending,
            Ending::Unresolved(SetupError::MissingVariable { name: "USER".to_string() })
        );
        assert_eq!(ending.code(), 1);
    }
}

#[test]
fn a_missing_home_ends_the_run_before_any_task() {
    for home in [None, Some("")] {
        let machine = Machine { home, ..workstation() };
        let (asked, ending) = drive(&options(Policy::FailFast), &machine);
        assert_eq!(asked, vec!["license", "euid", "lookup USER", "lookup HOME"]);
        assert_eq!(
            ending,
            Ending::Unresolved(SetupError::MissingVariable { name: "HOME".to_string() })
        );
    }
}

#[test]
fn a_home_that_is_not_on_disk_ends_the_run() {
    let machine = Machine { home_exists: false, ..workstation() };
    let (asked, ending) = drive(&options(Policy::CollectAll), &machine);
    assert_eq!(asked.len(), 5);
    assert_eq!(
        ending,
        Ending::Unresolved(SetupError::InvalidHome { path: "/home/alice".to_string() })
    );
}

#[test]
fn without_the_check_the_home_is_not_probed() {
    let machine = Machine { home_exists: false, ..workstation() };
    let unchecked = Options { check_home: false, ..options(Policy::CollectAll) };
    let (asked, ending) = drive(&unchecked, &machine);
    assert!(!asked.contains(&"probe /home/alice".to_string()));
    assert_eq!(ending.code(), 0);
}

#[test]
fn the_question_for_the_install_type_is_put_until_a_number_is_typed() {
    let machine = Machine { lines: vec!["\n", "zero\n", "0\n", "htop  tmux\n"], ..workstation() };
    let (asked, ending) = drive(&options(Policy::CollectAll), &machine);
    let questions: Vec<&String> = asked[7..14].iter().collect();
    assert_eq!(
        questions,
        vec![
            "task iptables file setup",
            "task iptables rules setup",
            "install type, again: false",
            "install type, again: true",
            "install type, again: true",
            "packages",
            "task Software installation"
        ]
    );
    assert_eq!(ending.code(), 0);
}

#[test]
fn the_job_carries_what_the_run_has_found_out() {
    let typed = |line: &str| Reply::Line(line.to_string());
    let replies = vec![
        Reply::Shown,
        Reply::User(1000),
        Reply::Variable(Some("alice".to_string())),
        Reply::Variable(Some("/home/alice".to_string())),
        Reply::Exists(true),
        Reply::Exists(false),
        Reply::Exists(false),
        Reply::Exists(true),
        Reply::Outcome(Ok(())),
        Reply::Outcome(Ok(())),
        typed("0"),
        typed("htop tmux"),
    ];
    match gnu_linux_default_setup(&options(Policy::CollectAll), &replies) {
        Request::Perform(job) => {
            assert_eq!(job.task, Task::Software);
            assert_eq!(job.label, "Software installation");
            assert_eq!(job.user.get_name(), "alice");
            assert_eq!(job.user.get_home(), "/home/alice");
            assert_eq!(job.distro, "fedora");
            assert_eq!(job.packages, vec!["htop", "tmux"]);
            match job.step(&Vec::new()) {
                Action::Run(spec) => assert_eq!(
                    spec.launch_line(),
                    vec!["sudo", "dnf", "install", "-y", "htop", "tmux"]
                ),
                other => panic!("unexpected {:?}", other),
            }
        }
        other => panic!("unexpected {:?}", other),
    }
}

#[test]
fn a_distribution_without_release_file_is_unknown() {
    let machine = Machine { release_file: None, ..workstation() };
    let (asked, ending) = drive(&options(Policy::CollectAll), &machine);
    assert!(asked.contains(&"probe /etc/fedora-release".to_string()));
    assert_eq!(
        ending,
        Ending::Finished {
            code: 1,
            failed: vec![TaskResult { status: 1, message: "Software installation".to_string() }],
        }
    );
}

#[test]
fn the_default_list_is_installed_where_the_operator_names_none() {
    let replies = vec![
        Reply::Shown,
        Reply::User(1000),
        Reply::Variable(Some("alice".to_string())),
        Reply::Variable(Some("/home/alice".to_string())),
        Reply::Exists(true),
        Reply::Exists(true),
        Reply::Outcome(Ok(())),
        Reply::Outcome(Err(SetupError::SpawnFailed)),
        Reply::Line("5".to_string()),
    ];
    match gnu_linux_default_setup(&options(Policy::CollectAll), &replies) {
        Request::Perform(job) => {
            assert_eq!(job.task, Task::Software);
            assert_eq!(job.distro, "arch");
            assert_eq!(
                job.packages,
                vec!["firefox", "clang", "zsh", "git", "gimp", "mpv", "curl", "vim", "rkhunter"]
            );
        }
        other => panic!("unexpected {:?}", other),
    }
}

#[test]
fn a_reply_of_the_wrong_kind_counts_against_the_run() {
    let opts = options(Policy::CollectAll);
    assert_eq!(
        gnu_linux_default_setup(&opts, &vec![Reply::Shown, Reply::Shown]),
        Request::Exit(Ending::Denied)
    );
    assert_eq!(
        gnu_linux_default_setup(&opts, &vec![Reply::Shown, Reply::User(1000), Reply::Shown]),
        Request::Exit(Ending::Unresolved(SetupError::MissingVariable {
            name: "USER".to_string()
        }))
    );
}

#[test]
fn the_firewall_comes_before_the_question_for_the_software() {
    let mut replies = vec![
        Reply::Shown,
        Reply::User(1000),
        Reply::Variable(Some("alice".to_string())),
        Reply::Variable(Some("/home/alice".to_string())),
        Reply::Exists(true),
        Reply::Exists(true),
    ];
    let opts = options(Policy::CollectAll);
    match gnu_linux_default_setup(&opts, &replies) {
        Request::Perform(job) => {
            assert_eq!(job.task, Task::IptablesFile);
            assert_eq!(job.packages, Vec::<String>::new());
        }
        other => panic!("unexpected {:?}", other),
    }
    replies.push(Reply::Outcome(Ok(())));
    match gnu_linux_default_setup(&opts, &replies) {
        Request::Perform(job) => assert_eq!(job.task, Task::IptablesRules),
        other => panic!("unexpected {:?}", other),
    }
    replies.push(Reply::Outcome(Ok(())));
    assert_eq!(gnu_linux_default_setup(&opts, &replies), Request::InstallType { again: false });
}

#[test]
fn fail_fast_ends_at_a_failing_firewall_before_any_question() {
    let machine = Machine { failing: Some(Task::IptablesRules), ..workstation() };
    let (asked, ending) = drive(&options(Policy::FailFast), &machine);
    assert_eq!(asked, with_tasks(&all_labels()[..2]));
    assert_eq!(
        ending,
        Ending::Finished {
            code: 1,
            failed: vec![TaskResult { status: 1, message: "iptables rules setup".to_string() }],
        }
    );
}

#[test]
fn collect_all_asks_for_the_software_after_a_failing_firewall() {
    let machine = Machine { failing: Some(Task::IptablesFile), ..workstation() };
    let (asked, ending) = drive(&options(Policy::CollectAll), &machine);
    assert_eq!(asked, with_tasks(&all_labels()));
    assert_eq!(
        ending,
        Ending::Finished {
            code: 1,
            failed: vec![TaskResult { status: 1, message: "iptables file setup".to_string() }],
        }
    );
}
