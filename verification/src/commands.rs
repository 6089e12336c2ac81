//! Commands for the operating system: how one is described, how its launch
//! line is built, and how the way it ended is judged.
//!
//! The library starts no process. It hands a [`CommandSpec`] to the driver,
//! and the driver reports a [`Launch`].

use crate::error::{status_of, verdict_view, SetupError, SetupErrorView};
use crate::step::{events, run_once, Action, ActionView, Event, EventView};
use crate::text::{optional_bytes, owned_texts, slice_texts, texts, trim, trimmed};
use vstd::prelude::*;
use vstd::string::*;

verus! {

/// The privilege a command runs with.
#[derive(Debug, Clone, Copy, PartialEq, Eq, Structural)]
pub enum Privilege {
    /// As the invoking user.
    User,
    /// As root, through the elevation front-end.
    Root,
}

/// How a process ended.
#[derive(Debug, Clone, Copy, PartialEq, Eq, Structural)]
pub enum ExitInfo {
    /// It exited with this code.
    Code(i32),
    /// A signal ended it.
    Signal,
}

/// One invocation of an external program.
#[derive(Debug, Clone, PartialEq, Eq)]
pub struct CommandSpec {
    pub program: String,
    pub args: Vec<String>,
    pub privilege: Privilege,
    /// Bytes to stream to the program's standard input. Where this is set,
    /// the program's standard output is discarded.
    pub stdin: Option<Vec<u8>>,
}

/// Mathematical value of a [`CommandSpec`].
pub struct CommandSpecView {
    pub program: Seq<char>,
    pub args: Seq<Seq<char>>,
    pub privilege: Privilege,
    pub stdin: Option<Seq<u8>>,
}

impl View for CommandSpec {
    type V = CommandSpecView;

    open spec fn view(&self) -> CommandSpecView {
        CommandSpecView {
            program: self.program@,
            args: texts(self.args@),
            privilege: self.privilege,
            stdin: optional_bytes(self.stdin),
        }
    }
}

/// Name of the elevation front-end.
pub open spec fn elevation_front_end() -> Seq<char> {
    "sudo"@
}

impl CommandSpecView {
    /// The words handed to the operating system: the program and its
    /// arguments, behind the elevation front-end where root is asked for.
    pub open spec fn launch_line(self) -> Seq<Seq<char>> {
        match self.privilege {
            Privilege::User => seq![self.program] + self.args,
            Privilege::Root => seq![elevation_front_end(), self.program] + self.args,
        }
    }
}

/// `words` with a single blank between each two.
pub open spec fn spaced(words: Seq<Seq<char>>) -> Seq<char>
    decreases words.len(),
{
    if words.len() == 0 {
        Seq::empty()
    } else if words.len() == 1 {
        words[0]
    } else {
        spaced(words.drop_last()) + " "@ + words.last()
    }
}

/// The diagnostic for `command` that failed with `failure`: the launch line
/// of the command, and the failure in words, which holds both streams where
/// the program ran.
pub open spec fn diagnostic_text(command: CommandSpecView, failure: SetupErrorView) -> Seq<char> {
    "command `"@ + spaced(command.launch_line()) + "` failed: "@ + failure.text()
}

/// What a finished process left behind.
#[derive(Debug, Clone, PartialEq, Eq)]
pub struct CommandOutcome {
    pub exit_info: ExitInfo,
    pub stdout: String,
    pub stderr: String,
}

/// Mathematical value of a [`CommandOutcome`].
pub struct CommandOutcomeView {
    pub exit_info: ExitInfo,
    pub stdout: Seq<char>,
    pub stderr: Seq<char>,
}

impl CommandOutcomeView {
    /// The process succeeded: it exited, and with code 0.
    pub open spec fn succeeded(self) -> bool {
        self.exit_info == ExitInfo::Code(0)
    }
}

impl View for CommandOutcome {
    type V = CommandOutcomeView;

    open spec fn view(&self) -> CommandOutcomeView {
        CommandOutcomeView { exit_info: self.exit_info, stdout: self.stdout@, stderr: self.stderr@ }
    }
}

/// What became of one launch, as the driver reports it.
#[derive(Debug, Clone, PartialEq, Eq)]
pub enum Launch {
    /// The program could not be found or started.
    NotStarted,
    /// The program started, but its input could not be written in full.
    InputRefused,
    /// The program ran to its end.
    Finished(CommandOutcome),
}

/// Mathematical value of a [`Launch`].
pub enum LaunchView {
    NotStarted,
    InputRefused,
    Finished(CommandOutcomeView),
}

impl View for Launch {
    type V = LaunchView;

    open spec fn view(&self) -> LaunchView {
        match *self {
            Launch::NotStarted => LaunchView::NotStarted,
            Launch::InputRefused => LaunchView::InputRefused,
            Launch::Finished(outcome) => LaunchView::Finished(outcome@),
        }
    }
}

impl LaunchView {
    /// The verdict on a launch. Success is owed to a process that exited with
    /// code 0 and to nothing else. A failing process hands on both streams,
    /// trimmed.
    pub open spec fn verdict(self) -> Result<(), SetupErrorView> {
        match self {
            LaunchView::NotStarted => Err(SetupErrorView::SpawnFailed),
            LaunchView::InputRefused => Err(SetupErrorView::StdinWriteFailed),
            LaunchView::Finished(outcome) => if outcome.succeeded() {
                Ok(())
            } else {
                Err(
                    SetupErrorView::NonZeroExit {
                        stdout: trimmed(outcome.stdout),
                        stderr: trimmed(outcome.stderr),
                    },
                )
            },
        }
    }
}

/// `command` with `args`, run directly as the invoking user.
pub open spec fn user_spec(command: Seq<char>, args: Seq<Seq<char>>) -> CommandSpecView {
    CommandSpecView { program: command, args, privilege: Privilege::User, stdin: None }
}

/// `command` with `args`, run as root; fed `stdin` on its standard input
/// where there is one.
pub open spec fn sudo_spec(
    command: Seq<char>,
    args: Seq<Seq<char>>,
    stdin: Option<Seq<u8>>,
) -> CommandSpecView {
    CommandSpecView { program: command, args, privilege: Privilege::Root, stdin }
}

/// Describes `command` with `args`, run directly as the invoking user.
pub fn user_command(command: &str, args: &[&str]) -> (spec: CommandSpec)
    ensures
        spec@ == user_spec(command@, slice_texts(args@)),
{
    CommandSpec {
        program: command.to_owned(),
        args: owned_texts(args),
        privilege: Privilege::User,
        stdin: None,
    }
}

/// Describes `command` with `args`, run as root.
pub fn sudo_command(command: &str, args: &[&str]) -> (spec: CommandSpec)
    ensures
        spec@ == sudo_spec(command@, slice_texts(args@), None),
{
    CommandSpec {
        program: command.to_owned(),
        args: owned_texts(args),
        privilege: Privilege::Root,
        stdin: None,
    }
}

/// Describes `command` with `args`, run as root and fed `input` on its
/// standard input.
pub fn sudo_command_with_stdin(command: &str, args: &[&str], input: Vec<u8>) -> (spec:
    CommandSpec)
    ensures
        spec@ == sudo_spec(command@, slice_texts(args@), Some(input@)),
{
    CommandSpec {
        program: command.to_owned(),
        args: owned_texts(args),
        privilege: Privilege::Root,
        stdin: Some(input),
    }
}

impl CommandSpec {
    /// The words to hand to the operating system for this command.
    pub fn launch_line(&self) -> (line: Vec<String>)
        ensures
            texts(line@) == self@.launch_line(),
    {
        let mut line: Vec<String> = Vec::new();
        match self.privilege {
            Privilege::User => {},
            Privilege::Root => {
                line.push("sudo".to_owned());
            },
        }
        line.push(self.program.clone());
        let ghost head = texts(line@);
        let mut i: usize = 0;
        while i < self.args.len()
            invariant
                i <= self.args.len(),
                line@.len() == head.len() + i,
                texts(line@).take(head.len() as int) == head,
                forall|j: int| 0 <= j < i ==> line@[head.len() + j]@ == self.args@[j]@,
            decreases self.args.len() - i,
        {
            let ghost before = texts(line@);
            line.push(self.args[i].clone());
            i = i + 1;
            assert(texts(line@).take(head.len() as int) =~= before.take(head.len() as int));
        }
        assert(texts(line@) =~= head + texts(self.args@));
        assert(texts(line@) =~= self@.launch_line());
        line
    }
}

impl CommandOutcome {
    /// Whether the process succeeded: it exited, and with code 0.
    pub fn succeeded(&self) -> (yes: bool)
        ensures
            yes == self@.succeeded(),
    {
        match self.exit_info {
            ExitInfo::Code(code) => code == 0,
            ExitInfo::Signal => false,
        }
    }
}

impl LaunchView {
    /// What is reported of a command that was handed to the operating
    /// system, where `ended` is what its process left behind, or `None` where
    /// its input was refused, and `located` tells whether its program could
    /// be found. The elevation front-end starts even where the program it is
    /// to run cannot be found, and then fails in its place: such a command
    /// was not started.
    pub open spec fn report(
        privilege: Privilege,
        ended: Option<CommandOutcomeView>,
        located: bool,
    ) -> LaunchView {
        let failed = match ended {
            Some(outcome) => !outcome.succeeded(),
            None => true,
        };
        if privilege == Privilege::Root && !located && failed {
            LaunchView::NotStarted
        } else {
            match ended {
                Some(outcome) => LaunchView::Finished(outcome),
                None => LaunchView::InputRefused,
            }
        }
    }
}

/// What to report of `command` once it was handed to the operating system:
/// `ended` is what its process left behind, or `None` where its input was
/// refused, and `located` tells whether its program could be found.
pub fn launch_report(
    command: &CommandSpec,
    ended: Option<CommandOutcome>,
    located: bool,
) -> (launch: Launch)
    ensures
        launch@ == LaunchView::report(
            command@.privilege,
            match ended {
                Some(outcome) => Some(outcome@),
                None => None,
            },
            located,
        ),
{
    let failed = match &ended {
        Some(outcome) => !outcome.succeeded(),
        None => true,
    };
    let elevated = match command.privilege {
        Privilege::Root => true,
        Privilege::User => false,
    };
    if elevated && !located && failed {
        Launch::NotStarted
    } else {
        match ended {
            Some(outcome) => Launch::Finished(outcome),
            None => Launch::InputRefused,
        }
    }
}

/// Judges a launch. A program that could not be started gives `SpawnFailed`,
/// one whose input could not be written `StdinWriteFailed`, one that ended
/// otherwise than with code 0 `NonZeroExit` with both streams trimmed.
pub fn command_result(launch: &Launch) -> (result: Result<(), SetupError>)
    ensures
        verdict_view(result) == launch@.verdict(),
        launch@ is NotStarted ==> verdict_view(result) == Err::<(), SetupErrorView>(
            SetupErrorView::SpawnFailed,
        ),
        result is Ok <==> (launch@ matches LaunchView::Finished(outcome) && outcome.exit_info
            == ExitInfo::Code(0)),
{
    match launch {
        Launch::NotStarted => Err(SetupError::SpawnFailed),
        Launch::InputRefused => Err(SetupError::StdinWriteFailed),
        Launch::Finished(outcome) => {
            if outcome.succeeded() {
                Ok(())
            } else {
                Err(
                    SetupError::NonZeroExit {
                        stdout: trim(outcome.stdout.as_str()).to_owned(),
                        stderr: trim(outcome.stderr.as_str()).to_owned(),
                    },
                )
            }
        },
    }
}

/// Runs `command` with `args` as the invoking user: asks for the launch,
/// then reports its verdict.
pub fn run_user_command(command: &str, args: &[&str], seen: &[Event]) -> (action: Action)
    ensures
        action@ == run_once(user_spec(command@, slice_texts(args@)), events(seen@)),
{
    if seen.len() == 0 {
        Action::Run(user_command(command, args))
    } else {
        Action::Done(seen[0].launch_verdict())
    }
}

/// Runs `command` with `args` as root: asks for the launch, then reports its
/// verdict.
pub fn run_sudo_command(command: &str, args: &[&str], seen: &[Event]) -> (action: Action)
    ensures
        action@ == run_once(sudo_spec(command@, slice_texts(args@), None), events(seen@)),
{
    if seen.len() == 0 {
        Action::Run(sudo_command(command, args))
    } else {
        Action::Done(seen[0].launch_verdict())
    }
}

/// Runs `command` with `args` as root and feeds it `stdin_content`: asks for
/// the launch, then reports its verdict.
pub fn run_sudo_command_with_stdin(
    command: &str,
    args: &[&str],
    stdin_content: Vec<u8>,
    seen: &[Event],
) -> (action: Action)
    ensures
        action@ == run_once(
            sudo_spec(command@, slice_texts(args@), Some(stdin_content@)),
            events(seen@),
        ),
{
    if seen.len() == 0 {
        Action::Run(sudo_command_with_stdin(command, args, stdin_content))
    } else {
        Action::Done(seen[0].launch_verdict())
    }
}

/// `words` with a single blank between each two.
pub fn join_spaced(words: &[String]) -> (line: String)
    ensures
        line@ == spaced(texts(words@)),
{
    let mut line = String::new();
    let mut i: usize = 0;
    assert(texts(words@).take(0) =~= Seq::<Seq<char>>::empty());
    while i < words.len()
        invariant
            i <= words.len(),
            line@ == spaced(texts(words@).take(i as int)),
        decreases words.len() - i,
    {
        let ghost before = texts(words@).take(i as int);
        let ghost after = texts(words@).take(i + 1);
        proof {
            assert(after.drop_last() =~= before);
            assert(after.last() == words@[i as int]@);
        }
        if i > 0 {
            line.append(" ");
        } else {
            assert(line@ + words@[i as int]@ =~= words@[i as int]@);
        }
        line.append(words[i].as_str());
        i = i + 1;
    }
    assert(texts(words@).take(words.len() as int) =~= texts(words@));
    line
}

/// The diagnostic for `command` that failed with `error`.
pub fn diagnostic(command: &CommandSpec, error: &SetupError) -> (text: String)
    ensures
        text@ == diagnostic_text(command@, error@),
{
    let line = command.launch_line();
    let mut text = "command `".to_owned();
    text.append(join_spaced(line.as_slice()).as_str());
    text.append("` failed: ");
    text.append(error.describe().as_str());
    text
}

/// The status of a command is `0` exactly where its process exited with
/// code 0. Any other exit code, a signal, a program that was not started and
/// an input that was refused all give a status other than `0`.
pub proof fn lemma_status_follows_exit(launch: LaunchView)
    ensures
        status_of(launch.verdict()) == 0 <==> launch.verdict() is Ok,
        launch.verdict() is Ok <==> (launch matches LaunchView::Finished(outcome)
            && outcome.exit_info == ExitInfo::Code(0)),
        launch matches LaunchView::Finished(outcome) && outcome.exit_info != ExitInfo::Code(0)
            ==> status_of(launch.verdict()) != 0,
{
}

/// A command run as root whose program cannot be found fails with
/// `SpawnFailed`, whatever the elevation front-end left behind when it
/// failed in its place.
pub proof fn lemma_missing_program_behind_front_end(
    command: CommandSpecView,
    ended: Option<CommandOutcomeView>,
)
    requires
        command.privilege == Privilege::Root,
        ended matches Some(outcome) ==> !outcome.succeeded(),
    ensures
        LaunchView::report(command.privilege, ended, false).verdict() == Err::<
            (),
            SetupErrorView,
        >(SetupErrorView::SpawnFailed),
{
}

/// A command whose program could not be started fails with `SpawnFailed`,
/// whatever the command is and whatever is reported afterwards; its step
/// never ends with success.
pub proof fn lemma_missing_program(command: CommandSpecView, seen: Seq<EventView>)
    requires
        seen.len() > 0,
        seen[0] == EventView::Launched(LaunchView::NotStarted),
    ensures
        run_once(command, seen) == ActionView::Done(Err(SetupErrorView::SpawnFailed)),
        status_of(Err(SetupErrorView::SpawnFailed)) != 0,
{
}

} // verus!
