//! Decision core of a post-installation assistant for a GNU/Linux
//! workstation: it installs software, writes firewall rules, makes Zsh the
//! login shell, mirrors the user's configuration to root and enables
//! compressed swap.
//!
//! Nothing here touches the machine. The library decides and a driver acts,
//! on two levels. The run, [`gnu_linux_default_setup`], is handed the
//! replies to everything it has asked so far and answers with the next
//! [`Request`]. Where the request is a task, the step of that task is handed
//! the events it has been told so far and answers with the next
//! [`step::Action`]. The driver performs what is asked, appends what came of
//! it, and asks again.

pub mod commands;
pub mod configs;
pub mod env;
pub mod error;
pub mod iptables;
pub mod paths;
pub mod plan;
pub mod prog_fun;
pub mod runs;
pub mod shell;
pub mod software;
pub mod step;
pub mod task;
pub mod text;
pub mod user_cfg;
pub mod zram;

use crate::env::{get_env_var, lookup};
use crate::error::{status_of, step_status, verdict_view, SetupError, SetupErrorView};
use crate::plan::{
    default_tasks, label_of, perform_task, task_at, task_label, task_step, Task, PLANNED,
};
use crate::prog_fun::{
    check_sw_install_type, default_packages, default_sw_list, install_choice, privilege_decision,
    set_sw_list, validate_root_priviliges, PrivilegeDecision, PrivilegePolicy, DENIED_EXIT,
};
use crate::step::{events, Action, Event};
use crate::task::{
    failed_tasks, failing, next_task, pipeline, results, statuses, Policy, Progress, TaskResult,
    TaskResultView,
};
use crate::text::{optional_text, spelled_i8, texts, trimmed, words};
use crate::user_cfg::{
    home_variable, resolution, user_variable, UserCfg, UserCfgView, HOME_VARIABLE, USER_VARIABLE,
};
use vstd::prelude::*;

verus! {

/// How a run is configured.
#[derive(Debug, Clone, Copy, PartialEq, Eq, Structural)]
pub struct Options {
    /// The rule by which the privilege of the process is judged.
    pub privilege: PrivilegePolicy,
    /// The flag that lets a run go on under that rule.
    pub allow_root: bool,
    /// How the run deals with a task that failed.
    pub policy: Policy,
    /// Whether the home directory has to exist on disk.
    pub check_home: bool,
}

/// What the driver reports back to the run.
#[derive(Debug, PartialEq, Eq)]
pub enum Reply {
    /// The licence notice was shown.
    Shown,
    /// The effective user id of the process.
    User(u32),
    /// What the environment holds for the variable, if anything.
    Variable(Option<String>),
    /// Whether the probed path exists.
    Exists(bool),
    /// The line the operator typed.
    Line(String),
    /// How the step of the task ended.
    Outcome(Result<(), SetupError>),
}

/// Mathematical value of a [`Reply`].
pub enum ReplyView {
    Shown,
    User(u32),
    Variable(Option<Seq<char>>),
    Exists(bool),
    Line(Seq<char>),
    Outcome(Result<(), SetupErrorView>),
}

impl View for Reply {
    type V = ReplyView;

    open spec fn view(&self) -> ReplyView {
        match *self {
            Reply::Shown => ReplyView::Shown,
            Reply::User(euid) => ReplyView::User(euid),
            Reply::Variable(value) => ReplyView::Variable(optional_text(value)),
            Reply::Exists(found) => ReplyView::Exists(found),
            Reply::Line(line) => ReplyView::Line(line@),
            Reply::Outcome(result) => ReplyView::Outcome(verdict_view(result)),
        }
    }
}

/// The values of the replies of a run, in order.
pub open spec fn replies_view(replies: Seq<Reply>) -> Seq<ReplyView> {
    Seq::new(replies.len(), |i: int| replies[i]@)
}

impl ReplyView {
    /// The reply names a user whom the options let pass. A reply that names
    /// no user lets nobody pass.
    pub open spec fn admits(self, options: Options) -> bool {
        self matches ReplyView::User(euid) && privilege_decision(
            options.privilege,
            euid,
            options.allow_root,
        ) != PrivilegeDecision::Denied
    }

    /// What the reply holds for a variable, if it holds anything.
    pub open spec fn variable(self) -> Option<Seq<char>> {
        match self {
            ReplyView::Variable(value) => value,
            _ => None,
        }
    }

    /// The reply tells that the probed path exists.
    pub open spec fn present(self) -> bool {
        self == ReplyView::Exists(true)
    }

    /// The choice between a list of one's own and the default list that the
    /// reply makes, if it makes one.
    pub open spec fn choice(self) -> Option<bool> {
        match self {
            ReplyView::Line(line) => install_choice(spelled_i8(trimmed(line))),
            _ => None,
        }
    }

    /// The packages that the reply lists.
    pub open spec fn listed(self) -> Seq<Seq<char>> {
        match self {
            ReplyView::Line(line) => words(line),
            _ => Seq::empty(),
        }
    }

    /// The status of the task that the reply reports on. A reply that
    /// reports on none counts as a failure.
    pub open spec fn status(self) -> i8 {
        match self {
            ReplyView::Outcome(result) => status_of(result),
            _ => 1i8,
        }
    }
}

/// A task together with what its step works on.
#[derive(Debug, PartialEq, Eq)]
pub struct Job {
    pub task: Task,
    /// The label under which the task is reported.
    pub label: String,
    pub user: UserCfg,
    pub distro: String,
    pub packages: Vec<String>,
}

/// Mathematical value of a [`Job`].
pub struct JobView {
    pub task: Task,
    pub label: Seq<char>,
    pub user: UserCfgView,
    pub distro: Seq<char>,
    pub packages: Seq<Seq<char>>,
}

impl View for Job {
    type V = JobView;

    open spec fn view(&self) -> JobView {
        JobView {
            task: self.task,
            label: self.label@,
            user: self.user@,
            distro: self.distro@,
            packages: texts(self.packages@),
        }
    }
}

/// How a run ended.
#[derive(Debug, PartialEq, Eq)]
pub enum Ending {
    /// The process may not run with the privilege it has.
    Denied,
    /// The identity of the user could not be resolved.
    Unresolved(SetupError),
    /// The tasks were gone through; `failed` holds those that failed.
    Finished { code: i32, failed: Vec<TaskResult> },
}

/// Mathematical value of an [`Ending`].
pub enum EndingView {
    Denied,
    Unresolved(SetupErrorView),
    Finished { code: i32, failed: Seq<TaskResultView> },
}

impl View for Ending {
    type V = EndingView;

    open spec fn view(&self) -> EndingView {
        match *self {
            Ending::Denied => EndingView::Denied,
            Ending::Unresolved(e) => EndingView::Unresolved(e@),
            Ending::Finished { code, failed } => EndingView::Finished {
                code,
                failed: results(failed@),
            },
        }
    }
}

/// The exit code of a run that ended before its tasks because the identity
/// of the user could not be resolved.
pub const UNRESOLVED_EXIT: i32 = 1;

impl EndingView {
    /// The exit code of the process.
    pub open spec fn code(self) -> i32 {
        match self {
            EndingView::Denied => DENIED_EXIT,
            EndingView::Unresolved(_) => UNRESOLVED_EXIT,
            EndingView::Finished { code, .. } => code,
        }
    }
}

/// What the run asks of the driver.
#[derive(Debug, PartialEq, Eq)]
pub enum Request {
    /// Show the licence notice.
    License,
    /// Report the effective user id of the process.
    EffectiveUser,
    /// Report what the environment holds for this variable.
    Lookup(String),
    /// Report whether this path exists.
    Probe(String),
    /// Ask the operator for `0` for a software list of their own or any
    /// other number for the default list. `again` tells that the answer
    /// before was no number.
    InstallType { again: bool },
    /// Ask the operator for the packages to install.
    Packages,
    /// Carry out the step of this job and report how it ended.
    Perform(Job),
    /// End the process.
    Exit(Ending),
}

/// Mathematical value of a [`Request`].
pub enum RequestView {
    License,
    EffectiveUser,
    Lookup(Seq<char>),
    Probe(Seq<char>),
    InstallType { again: bool },
    Packages,
    Perform(JobView),
    Exit(EndingView),
}

impl View for Request {
    type V = RequestView;

    open spec fn view(&self) -> RequestView {
        match *self {
            Request::License => RequestView::License,
            Request::EffectiveUser => RequestView::EffectiveUser,
            Request::Lookup(name) => RequestView::Lookup(name@),
            Request::Probe(path) => RequestView::Probe(path@),
            Request::InstallType { again } => RequestView::InstallType { again },
            Request::Packages => RequestView::Packages,
            Request::Perform(job) => RequestView::Perform(job@),
            Request::Exit(ending) => RequestView::Exit(ending@),
        }
    }
}

/// The release files by which a distribution is known, each with the name
/// of its distribution, in the order in which they are probed.
pub open spec fn release_files() -> Seq<(Seq<char>, Seq<char>)> {
    seq![
        ("/etc/arch-release"@, "arch"@),
        ("/etc/debian_version"@, "debian"@),
        ("/etc/fedora-release"@, "fedora"@),
    ]
}

/// The name under which a distribution that was not recognised goes.
pub open spec fn unknown_distro() -> Seq<char> {
    "unknown"@
}

/// Where the detection of the distribution stands.
#[derive(Debug, Clone, PartialEq, Eq)]
pub enum Detection {
    /// Report whether this file exists.
    Probe(String),
    /// The distribution is this one, or not a known one.
    Known(Option<String>),
}

/// Mathematical value of a [`Detection`].
pub enum DetectionView {
    Probe(Seq<char>),
    Known(Option<Seq<char>>),
}

impl View for Detection {
    type V = DetectionView;

    open spec fn view(&self) -> DetectionView {
        match *self {
            Detection::Probe(path) => DetectionView::Probe(path@),
            Detection::Known(name) => DetectionView::Known(optional_text(name)),
        }
    }
}

/// Detecting the distribution from index `at` of the release files on,
/// where `seen[i]` tells whether the file at index `i` exists: the first
/// file found names the distribution; a file not probed yet is probed next;
/// with none found the distribution is not a known one.
pub open spec fn detection_from(seen: Seq<bool>, at: int) -> DetectionView
    decreases release_files().len() - at,
{
    if at < 0 || at >= release_files().len() {
        DetectionView::Known(None)
    } else if at >= seen.len() {
        DetectionView::Probe(release_files()[at].0)
    } else if seen[at] {
        DetectionView::Known(Some(release_files()[at].1))
    } else {
        detection_from(seen, at + 1)
    }
}

/// Detects the distribution by its release file.
pub fn detect_distro(seen: &[bool]) -> (detection: Detection)
    ensures
        detection@ == detection_from(seen@, 0),
{
    proof {
        reveal_with_fuel(detection_from, 4);
    }
    if seen.len() == 0 {
        Detection::Probe("/etc/arch-release".to_owned())
    } else if seen[0] {
        Detection::Known(Some("arch".to_owned()))
    } else if seen.len() == 1 {
        Detection::Probe("/etc/debian_version".to_owned())
    } else if seen[1] {
        Detection::Known(Some("debian".to_owned()))
    } else if seen.len() == 2 {
        Detection::Probe("/etc/fedora-release".to_owned())
    } else if seen[2] {
        Detection::Known(Some("fedora".to_owned()))
    } else {
        Detection::Known(None)
    }
}

/// The name of the distribution to install software for: the one detected,
/// or `unknown`.
pub fn distro_name(detected: Option<String>) -> (name: String)
    ensures
        name@ == match optional_text(detected) {
            Some(known) => known,
            None => unknown_distro(),
        },
{
    match detected {
        Some(known) => known,
        None => "unknown".to_owned(),
    }
}

/// Whether each of the `count` replies from index `base` on tells that the
/// probed path exists.
pub open spec fn presences(replies: Seq<ReplyView>, base: int, count: int) -> Seq<bool> {
    Seq::new(count as nat, |i: int| replies[base + i].present())
}

/// The statuses that the `count` replies from index `base` on report.
pub open spec fn reported(replies: Seq<ReplyView>, base: int, count: int) -> Seq<i8> {
    Seq::new(count as nat, |i: int| replies[base + i].status())
}

/// The number of replies from index `base` on, as far as `most`.
pub open spec fn taken(replies: Seq<ReplyView>, base: int, most: int) -> int {
    if replies.len() - base < most {
        replies.len() - base
    } else {
        most
    }
}

/// The results recorded for the first tasks of the default setup, performed
/// for the user `name`, that ended with `statuses`.
pub open spec fn recorded(name: Seq<char>, statuses: Seq<i8>) -> Seq<TaskResultView> {
    Seq::new(
        statuses.len(),
        |i: int|
            TaskResultView { status: statuses[i], message: task_label(default_tasks()[i], name) },
    )
}

/// The number of tasks that are performed before the software is chosen:
/// those of the firewall.
pub const BEFORE_CHOICE: usize = 2;

/// What follows the tasks that ended with `statuses`: the policy decides
/// whether a task follows or the run ends; a run that ends reports the tasks
/// that failed.
pub open spec fn conclude(
    options: Options,
    user: UserCfgView,
    distro: Seq<char>,
    packages: Seq<Seq<char>>,
    statuses: Seq<i8>,
) -> RequestView {
    match pipeline(options.policy, PLANNED as nat, statuses) {
        Progress::Perform(index) => RequestView::Perform(
            JobView {
                task: default_tasks()[index as int],
                label: task_label(default_tasks()[index as int], user.name),
                user,
                distro,
                packages,
            },
        ),
        Progress::Exit(code) => RequestView::Exit(
            EndingView::Finished { code, failed: recorded(user.name, statuses).filter(failing()) },
        ),
    }
}

/// The statuses of the tasks of a run: those of the tasks before the choice
/// of software, whose outcomes start at index `early` of the replies, and
/// those of the tasks after it, whose outcomes start at index `base`, as
/// many as there are tasks left at most.
pub open spec fn outcomes(replies: Seq<ReplyView>, early: int, base: int) -> Seq<i8> {
    reported(replies, early, BEFORE_CHOICE as int) + reported(
        replies,
        base,
        taken(replies, base, PLANNED - BEFORE_CHOICE),
    )
}

/// The run from the tasks after the choice of software on.
pub open spec fn tasks_phase(
    options: Options,
    user: UserCfgView,
    distro: Seq<char>,
    packages: Seq<Seq<char>>,
    replies: Seq<ReplyView>,
    early: int,
    base: int,
) -> RequestView {
    conclude(options, user, distro, packages, outcomes(replies, early, base))
}

/// The run from the choice of software on, whose replies start at index
/// `base`: the operator is asked until a number is typed; `0` is followed by
/// the question for the packages, any other number by the default list;
/// then come the tasks that are left.
pub open spec fn software_phase(
    options: Options,
    user: UserCfgView,
    distro: Seq<char>,
    replies: Seq<ReplyView>,
    early: int,
    base: int,
    again: bool,
) -> RequestView
    decreases replies.len() - base,
{
    if base < 0 || base >= replies.len() {
        RequestView::InstallType { again }
    } else {
        match replies[base].choice() {
            None => software_phase(options, user, distro, replies, early, base + 1, true),
            Some(false) => tasks_phase(
                options,
                user,
                distro,
                default_packages(),
                replies,
                early,
                base + 1,
            ),
            Some(true) => if base + 1 >= replies.len() {
                RequestView::Packages
            } else {
                tasks_phase(
                    options,
                    user,
                    distro,
                    replies[base + 1].listed(),
                    replies,
                    early,
                    base + 2,
                )
            },
        }
    }
}

/// The run from the tasks of the firewall on, whose outcomes start at index
/// `base` of the replies. They are performed before the software is chosen,
/// and no packages are known to them. Once both have ended, and the policy
/// lets the run go on, the software is chosen.
pub open spec fn firewall_phase(
    options: Options,
    user: UserCfgView,
    distro: Seq<char>,
    replies: Seq<ReplyView>,
    base: int,
) -> RequestView {
    let count = taken(replies, base, BEFORE_CHOICE as int);
    let statuses = reported(replies, base, count);
    if count == BEFORE_CHOICE && pipeline(options.policy, PLANNED as nat, statuses) is Perform {
        software_phase(options, user, distro, replies, base, base + BEFORE_CHOICE, false)
    } else {
        conclude(options, user, distro, Seq::empty(), statuses)
    }
}

/// The run from the detection of the distribution on, whose replies start
/// at index `base` and of which `probed` release files have been probed:
/// the detection goes on until the distribution is known, or known not to
/// be a known one; then come the tasks of the firewall.
pub open spec fn detect_phase(
    options: Options,
    user: UserCfgView,
    replies: Seq<ReplyView>,
    base: int,
    probed: int,
) -> RequestView
    decreases release_files().len() - probed,
{
    match detection_from(presences(replies, base, probed), 0) {
        DetectionView::Known(name) => firewall_phase(
            options,
            user,
            match name {
                Some(known) => known,
                None => unknown_distro(),
            },
            replies,
            base + probed,
        ),
        DetectionView::Probe(path) => if base + probed >= replies.len() || probed
            >= release_files().len() || probed < 0 {
            RequestView::Probe(path)
        } else {
            detect_phase(options, user, replies, base, probed + 1)
        },
    }
}

/// The run from the resolution of the identity on. The lookup of the user
/// sits at index 2 of the replies, the lookup of the home directory at
/// index 3, and the probe of the home directory, where it is checked, at
/// index 4. A variable that is absent or empty ends the run at once; so
/// does a home directory that is checked and not there.
pub open spec fn identity_phase(options: Options, replies: Seq<ReplyView>) -> RequestView {
    if replies.len() <= 2 {
        RequestView::Lookup(user_variable())
    } else if lookup(user_variable(), replies[2].variable()) is Err {
        RequestView::Exit(
            EndingView::Unresolved(lookup(user_variable(), replies[2].variable())->Err_0),
        )
    } else if replies.len() == 3 {
        RequestView::Lookup(home_variable())
    } else if lookup(home_variable(), replies[3].variable()) is Err {
        RequestView::Exit(
            EndingView::Unresolved(lookup(home_variable(), replies[3].variable())->Err_0),
        )
    } else if options.check_home && replies.len() == 4 {
        RequestView::Probe(replies[3].variable()->0)
    } else {
        let found = if options.check_home {
            Some(replies[4].present())
        } else {
            None
        };
        let base = if options.check_home {
            5int
        } else {
            4int
        };
        match resolution(replies[2].variable(), replies[3].variable(), found) {
            Err(e) => RequestView::Exit(EndingView::Unresolved(e)),
            Ok(user) => detect_phase(options, user, replies, base, 0),
        }
    }
}

/// What a run under `options` asks next, given the replies to everything it
/// has asked so far. The notice comes first, at index 0 of the replies; the
/// effective user, at index 1, is judged before anything else is asked, and
/// a process that is denied ends at once.
pub open spec fn run_next(options: Options, replies: Seq<ReplyView>) -> RequestView {
    if replies.len() == 0 {
        RequestView::License
    } else if replies.len() == 1 {
        RequestView::EffectiveUser
    } else if !replies[1].admits(options) {
        RequestView::Exit(EndingView::Denied)
    } else {
        identity_phase(options, replies)
    }
}

impl Reply {
    /// Whether the reply names a user whom the options let pass.
    pub fn admits(&self, options: &Options) -> (yes: bool)
        ensures
            yes == self@.admits(*options),
    {
        match self {
            Reply::User(euid) => {
                match validate_root_priviliges(options.privilege, *euid, options.allow_root) {
                    PrivilegeDecision::Denied => false,
                    _ => true,
                }
            },
            _ => false,
        }
    }

    /// What the reply holds for a variable, if it holds anything.
    pub fn variable(&self) -> (value: Option<String>)
        ensures
            optional_text(value) == self@.variable(),
    {
        match self {
            Reply::Variable(Some(value)) => Some(value.clone()),
            _ => None,
        }
    }

    /// Whether the reply tells that the probed path exists.
    pub fn present(&self) -> (yes: bool)
        ensures
            yes == self@.present(),
    {
        match self {
            Reply::Exists(found) => *found,
            _ => false,
        }
    }

    /// The choice between a list of one's own and the default list that the
    /// reply makes, if it makes one.
    pub fn choice(&self) -> (custom: Option<bool>)
        ensures
            custom == self@.choice(),
    {
        match self {
            Reply::Line(line) => check_sw_install_type(line.as_str()),
            _ => None,
        }
    }

    /// The packages that the reply lists.
    pub fn listed(&self) -> (packages: Vec<String>)
        ensures
            texts(packages@) == self@.listed(),
    {
        match self {
            Reply::Line(line) => set_sw_list(line.as_str()),
            _ => {
                let none: Vec<String> = Vec::new();
                assert(texts(none@) =~= Seq::<Seq<char>>::empty());
                none
            },
        }
    }

    /// The status of the task that the reply reports on.
    pub fn status(&self) -> (status: i8)
        ensures
            status == self@.status(),
    {
        match self {
            Reply::Outcome(result) => step_status(result),
            _ => 1,
        }
    }
}

impl Ending {
    /// The exit code of the process.
    pub fn code(&self) -> (code: i32)
        ensures
            code == self@.code(),
    {
        match self {
            Ending::Denied => DENIED_EXIT,
            Ending::Unresolved(_) => UNRESOLVED_EXIT,
            Ending::Finished { code, .. } => *code,
        }
    }
}

impl Job {
    /// Says what the task of the job needs next, given what its step has
    /// observed so far.
    pub fn step(&self, seen: &[Event]) -> (action: Action)
        ensures
            action@ == task_step(
                self@.task,
                self@.user,
                self@.distro,
                self@.packages,
                events(seen@),
            ),
    {
        perform_task(self.task, &self.user, self.distro.as_str(), &self.packages, seen)
    }
}

/// Records the outcomes that the replies hold from index `base` on, `most`
/// of them at most, behind the results in `done`.
fn record(
    user: &UserCfg,
    replies: &[Reply],
    base: usize,
    most: usize,
    done: Vec<TaskResult>,
) -> (all: Vec<TaskResult>)
    requires
        base <= replies@.len(),
        done@.len() + most <= PLANNED,
        results(done@) == recorded(user@.name, statuses(done@)),
    ensures
        statuses(all@) == statuses(done@) + reported(
            replies_view(replies@),
            base as int,
            taken(replies_view(replies@), base as int, most as int),
        ),
        results(all@) == recorded(user@.name, statuses(all@)),
        all@.len() <= PLANNED,
{
    let ghost told = replies_view(replies@);
    let ghost first = done@;
    let mut all = done;
    let mut count: usize = 0;
    let length = replies.len();
    assert(statuses(all@) =~= statuses(first) + reported(told, base as int, 0));
    while base + count < length && count < most
        invariant
            told == replies_view(replies@),
            length == replies@.len(),
            base + count <= replies@.len(),
            count <= most,
            first.len() + most <= PLANNED,
            all@.len() == first.len() + count,
            statuses(all@) == statuses(first) + reported(told, base as int, count as int),
            results(all@) == recorded(user@.name, statuses(all@)),
        decreases most - count,
    {
        let ghost before = all@;
        assert(told[base + count] == replies@[base + count]@);
        let status = replies[base + count].status();
        let message = label_of(task_at(all.len()).unwrap(), user);
        all.push(TaskResult { status, message });
        count = count + 1;
        proof {
            let now = statuses(first) + reported(told, base as int, count as int);
            assert forall|i: int| 0 <= i < all@.len() implies statuses(all@)[i] == now[i] by {
                if i < before.len() {
                    assert(all@[i] == before[i]);
                    assert(statuses(before)[i] == (statuses(first) + reported(
                        told,
                        base as int,
                        count - 1,
                    ))[i]);
                }
            }
            assert(statuses(all@) =~= now);
            assert forall|i: int| 0 <= i < all@.len() implies results(all@)[i] == recorded(
                user@.name,
                statuses(all@),
            )[i] by {
                if i < before.len() {
                    assert(all@[i] == before[i]);
                    assert(results(before)[i] == recorded(user@.name, statuses(before))[i]);
                }
            }
            assert(results(all@) =~= recorded(user@.name, statuses(all@)));
        }
    }
    all
}

/// What follows the tasks whose results are `done`.
fn conclude_run(
    options: &Options,
    user: UserCfg,
    distro: String,
    packages: Vec<String>,
    done: Vec<TaskResult>,
) -> (request: Request)
    requires
        results(done@) == recorded(user@.name, statuses(done@)),
    ensures
        request@ == conclude(*options, user@, distro@, texts(packages@), statuses(done@)),
{
    match next_task(options.policy, PLANNED, done.as_slice()) {
        Progress::Perform(index) => {
            let task = task_at(index).unwrap();
            let label = label_of(task, &user);
            Request::Perform(Job { task, label, user, distro, packages })
        },
        Progress::Exit(code) => {
            Request::Exit(Ending::Finished { code, failed: failed_tasks(done.as_slice()) })
        },
    }
}

/// The tasks after the choice of software, whose outcomes start at index
/// `base` of the replies; `done` holds the results of the tasks before it.
fn run_tasks(
    options: &Options,
    user: UserCfg,
    distro: String,
    packages: Vec<String>,
    replies: &[Reply],
    done: Vec<TaskResult>,
    early: Ghost<int>,
    base: usize,
) -> (request: Request)
    requires
        base <= replies@.len(),
        done@.len() == BEFORE_CHOICE,
        statuses(done@) == reported(replies_view(replies@), early@, BEFORE_CHOICE as int),
        results(done@) == recorded(user@.name, statuses(done@)),
    ensures
        request@ == tasks_phase(
            *options,
            user@,
            distro@,
            texts(packages@),
            replies_view(replies@),
            early@,
            base as int,
        ),
{
    let all = record(&user, replies, base, PLANNED - BEFORE_CHOICE, done);
    conclude_run(options, user, distro, packages, all)
}

/// The choice of software and what follows it, with the answers of the
/// operator from index `base` of the replies on; `done` holds the results
/// of the tasks before it.
fn choose_software(
    options: &Options,
    user: UserCfg,
    distro: String,
    replies: &[Reply],
    done: Vec<TaskResult>,
    early: Ghost<int>,
    base: usize,
) -> (request: Request)
    requires
        base <= replies@.len(),
        done@.len() == BEFORE_CHOICE,
        statuses(done@) == reported(replies_view(replies@), early@, BEFORE_CHOICE as int),
        results(done@) == recorded(user@.name, statuses(done@)),
    ensures
        request@ == software_phase(
            *options,
            user@,
            distro@,
            replies_view(replies@),
            early@,
            base as int,
            false,
        ),
{
    let ghost told = replies_view(replies@);
    let mut at: usize = base;
    let mut again = false;
    loop
        invariant
            told == replies_view(replies@),
            at <= replies@.len(),
            done@.len() == BEFORE_CHOICE,
            statuses(done@) == reported(told, early@, BEFORE_CHOICE as int),
            results(done@) == recorded(user@.name, statuses(done@)),
            software_phase(*options, user@, distro@, told, early@, base as int, false)
                == software_phase(*options, user@, distro@, told, early@, at as int, again),
        decreases replies@.len() - at,
    {
        if at >= replies.len() {
            return Request::InstallType { again };
        }
        assert(told[at as int] == replies@[at as int]@);
        match replies[at].choice() {
            None => {
                at = at + 1;
                again = true;
            },
            Some(false) => {
                let packages = default_sw_list();
                return run_tasks(options, user, distro, packages, replies, done, early, at + 1);
            },
            Some(true) => {
                if at + 1 >= replies.len() {
                    return Request::Packages;
                }
                assert(told[at + 1] == replies@[at + 1]@);
                let packages = replies[at + 1].listed();
                return run_tasks(options, user, distro, packages, replies, done, early, at + 2);
            },
        }
    }
}

/// The tasks of the firewall and what follows them, with their outcomes
/// from index `base` of the replies on.
fn run_firewall(
    options: &Options,
    user: UserCfg,
    distro: String,
    replies: &[Reply],
    base: usize,
) -> (request: Request)
    requires
        base <= replies@.len(),
    ensures
        request@ == firewall_phase(*options, user@, distro@, replies_view(replies@), base as int),
{
    let none: Vec<TaskResult> = Vec::new();
    assert(results(none@) =~= recorded(user@.name, statuses(none@)));
    assert(statuses(none@) =~= Seq::<i8>::empty());
    let done = record(&user, replies, base, BEFORE_CHOICE, none);
    assert(statuses(done@) =~= reported(
        replies_view(replies@),
        base as int,
        taken(replies_view(replies@), base as int, BEFORE_CHOICE as int),
    ));
    let goes_on = match next_task(options.policy, PLANNED, done.as_slice()) {
        Progress::Perform(_) => true,
        Progress::Exit(_) => false,
    };
    let length = replies.len();
    if done.len() == BEFORE_CHOICE && goes_on {
        assert(base + BEFORE_CHOICE <= length);
        choose_software(options, user, distro, replies, done, Ghost(base as int), base + 2)
    } else {
        let packages: Vec<String> = Vec::new();
        assert(texts(packages@) =~= Seq::<Seq<char>>::empty());
        conclude_run(options, user, distro, packages, done)
    }
}

/// The detection of the distribution and what follows it, with the probes
/// of the release files from index `base` of the replies on.
fn detect(options: &Options, user: UserCfg, replies: &[Reply], base: usize) -> (request:
    Request)
    requires
        base <= replies.len(),
    ensures
        request@ == detect_phase(*options, user@, replies_view(replies@), base as int, 0),
{
    let ghost told = replies_view(replies@);
    let mut probes: Vec<bool> = Vec::new();
    assert(probes@ =~= presences(told, base as int, 0));
    loop
        invariant
            told == replies_view(replies@),
            probes@.len() <= release_files().len(),
            base + probes@.len() <= replies.len(),
            probes@ == presences(told, base as int, probes@.len() as int),
            detect_phase(*options, user@, told, base as int, 0) == detect_phase(
                *options,
                user@,
                told,
                base as int,
                probes@.len() as int,
            ),
        decreases release_files().len() - probes@.len(),
    {
        proof {
            reveal_with_fuel(detection_from, 4);
        }
        match detect_distro(probes.as_slice()) {
            Detection::Known(name) => {
                let at = base + probes.len();
                return run_firewall(options, user, distro_name(name), replies, at);
            },
            Detection::Probe(path) => {
                let at = base + probes.len();
                if at >= replies.len() {
                    return Request::Probe(path);
                }
                assert(told[at as int] == replies@[at as int]@);
                probes.push(replies[at].present());
                assert(probes@ =~= presences(told, base as int, probes@.len() as int));
            },
        }
    }
}

/// The default setup of a workstation: the licence notice, the judgement on
/// the privilege of the process, the identity of the user, the
/// distribution, the tasks of the firewall, the choice of software, and then
/// the other tasks one by one.
/// Given the replies to everything asked so far, says what to ask next or
/// how the run ends.
pub fn gnu_linux_default_setup(options: &Options, replies: &[Reply]) -> (request: Request)
    ensures
        request@ == run_next(*options, replies_view(replies@)),
{
    let ghost told = replies_view(replies@);
    if replies.len() == 0 {
        return Request::License;
    }
    if replies.len() == 1 {
        return Request::EffectiveUser;
    }
    assert(told[1] == replies@[1]@);
    if !replies[1].admits(options) {
        return Request::Exit(Ending::Denied);
    }
    if replies.len() == 2 {
        return Request::Lookup(USER_VARIABLE.to_owned());
    }
    assert(told[2] == replies@[2]@);
    match get_env_var(USER_VARIABLE, replies[2].variable()) {
        Err(e) => {
            return Request::Exit(Ending::Unresolved(e));
        },
        Ok(_) => {},
    }
    if replies.len() == 3 {
        return Request::Lookup(HOME_VARIABLE.to_owned());
    }
    assert(told[3] == replies@[3]@);
    match get_env_var(HOME_VARIABLE, replies[3].variable()) {
        Err(e) => {
            return Request::Exit(Ending::Unresolved(e));
        },
        Ok(home) => {
            if options.check_home && replies.len() == 4 {
                return Request::Probe(home);
            }
        },
    }
    let found = if options.check_home {
        assert(told[4] == replies@[4]@);
        Some(replies[4].present())
    } else {
        None
    };
    let base: usize = if options.check_home {
        5
    } else {
        4
    };
    match UserCfg::resolve(replies[2].variable(), replies[3].variable(), found) {
        Err(e) => Request::Exit(Ending::Unresolved(e)),
        Ok(user) => detect(options, user, replies, base),
    }
}

} // verus!
