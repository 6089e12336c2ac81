//! The exchange between a step and the driver that carries it out.
//!
//! A step is a function from what has been observed so far to what is to
//! happen next. The driver starts with nothing observed, performs each
//! [`Action`] it is handed, appends the [`Event`] that came of it, and asks
//! again, until the step answers [`Action::Done`]. A step reads the events in
//! order and looks at no more of them than it asked for.
//!
//! A step takes every sequence of events. An event of another kind than
//! the one asked for counts as the worst that could have been reported: a
//! source as missing, a destination as existing, an answer as declining, a
//! write as failed, a command as not started.

use crate::commands::{command_result, CommandSpec, CommandSpecView, Launch, LaunchView};
use crate::error::{verdict_view, SetupError, SetupErrorView};
use crate::text::{
    all_ascii, ascii_lower, ascii_lowercased, copy_bytes, is_space, lemma_trimmed_between,
    lowercase, lowercase_of, optional_bytes, same_text, trim, trimmed,
};
use vstd::prelude::*;
use vstd::slice::slice_subrange;
use vstd::utf8::char_u32_cast;

verus! {

/// What a step asks of the driver.
#[derive(Debug, PartialEq, Eq)]
pub enum Action {
    /// Report whether this path exists.
    Probe(String),
    /// Read this file.
    Read(String),
    /// Write `content` to `path`, replacing what is there.
    Write { path: String, content: Vec<u8> },
    /// Ask the operator whether this path may be overwritten, and report the
    /// line typed.
    Confirm(String),
    /// Run this command.
    Run(CommandSpec),
    /// Run `from` and stream its standard output into `into`; report on `into`.
    Pipe { from: CommandSpec, into: CommandSpec },
    /// The step is over, with this result.
    Done(Result<(), SetupError>),
}

/// Mathematical value of an [`Action`].
pub enum ActionView {
    Probe(Seq<char>),
    Read(Seq<char>),
    Write { path: Seq<char>, content: Seq<u8> },
    Confirm(Seq<char>),
    Run(CommandSpecView),
    Pipe { from: CommandSpecView, into: CommandSpecView },
    Done(Result<(), SetupErrorView>),
}

impl View for Action {
    type V = ActionView;

    open spec fn view(&self) -> ActionView {
        match *self {
            Action::Probe(path) => ActionView::Probe(path@),
            Action::Read(path) => ActionView::Read(path@),
            Action::Write { path, content } => ActionView::Write {
                path: path@,
                content: content@,
            },
            Action::Confirm(path) => ActionView::Confirm(path@),
            Action::Run(spec) => ActionView::Run(spec@),
            Action::Pipe { from, into } => ActionView::Pipe { from: from@, into: into@ },
            Action::Done(result) => ActionView::Done(verdict_view(result)),
        }
    }
}

impl ActionView {
    /// The action may change the machine: it writes a file or starts a
    /// process.
    pub open spec fn mutates(self) -> bool {
        self is Write || self is Run || self is Pipe
    }
}

/// What the driver reports back.
#[derive(Debug, Clone, PartialEq, Eq)]
pub enum Event {
    /// Whether the probed path exists.
    Exists(bool),
    /// The bytes of the file read, or `None` where it could not be read.
    Content(Option<Vec<u8>>),
    /// Whether the write went through.
    Written(bool),
    /// The line the operator typed.
    Answer(String),
    /// What became of the command.
    Launched(Launch),
}

/// Mathematical value of an [`Event`].
pub enum EventView {
    Exists(bool),
    Content(Option<Seq<u8>>),
    Written(bool),
    Answer(Seq<char>),
    Launched(LaunchView),
}

impl View for Event {
    type V = EventView;

    open spec fn view(&self) -> EventView {
        match *self {
            Event::Exists(found) => EventView::Exists(found),
            Event::Content(bytes) => EventView::Content(optional_bytes(bytes)),
            Event::Written(done) => EventView::Written(done),
            Event::Answer(line) => EventView::Answer(line@),
            Event::Launched(launch) => EventView::Launched(launch@),
        }
    }
}

/// The values of the events of a run, in order.
pub open spec fn events(seen: Seq<Event>) -> Seq<EventView> {
    Seq::new(seen.len(), |i: int| seen[i]@)
}

/// The line, once trimmed and put in lowercase, is `y`.
pub open spec fn says_yes(line: Seq<char>) -> bool {
    lowercase_of(trimmed(line)) == "y"@
}

impl EventView {
    /// The event reports that the probed path exists.
    pub open spec fn present(self) -> bool {
        self == EventView::Exists(true)
    }

    /// The event reports that the probed path does not exist.
    pub open spec fn absent(self) -> bool {
        self == EventView::Exists(false)
    }

    /// The bytes that the event delivers, if it delivers any.
    pub open spec fn content(self) -> Option<Seq<u8>> {
        match self {
            EventView::Content(bytes) => bytes,
            _ => None,
        }
    }

    /// The event reports a write that went through.
    pub open spec fn written(self) -> bool {
        self == EventView::Written(true)
    }

    /// The event is an answer that accepts. Anything else declines.
    pub open spec fn accepted(self) -> bool {
        self matches EventView::Answer(line) && says_yes(line)
    }

    /// The verdict on the command that the event reports on. Where it
    /// reports on none, none was started.
    pub open spec fn launch_verdict(self) -> Result<(), SetupErrorView> {
        match self {
            EventView::Launched(launch) => launch.verdict(),
            _ => Err(SetupErrorView::SpawnFailed),
        }
    }
}

/// Whether an answer that is already trimmed and in lowercase accepts.
pub fn is_yes(normalized: &str) -> (yes: bool)
    ensures
        yes == (normalized@ == "y"@),
{
    same_text(normalized, "y")
}

/// Whether the line typed accepts: trimmed and put in lowercase, it is `y`.
pub fn answer_accepts(line: &str) -> (yes: bool)
    ensures
        yes == says_yes(line@),
{
    let normalized = lowercase(trim(line));
    is_yes(normalized.as_str())
}

impl Event {
    /// Whether the event reports that the probed path exists.
    pub fn present(&self) -> (yes: bool)
        ensures
            yes == self@.present(),
    {
        match self {
            Event::Exists(found) => *found,
            _ => false,
        }
    }

    /// Whether the event reports that the probed path does not exist.
    pub fn absent(&self) -> (yes: bool)
        ensures
            yes == self@.absent(),
    {
        match self {
            Event::Exists(found) => !*found,
            _ => false,
        }
    }

    /// The bytes that the event delivers, if it delivers any.
    pub fn content(&self) -> (bytes: Option<&Vec<u8>>)
        ensures
            bytes is Some <==> self@.content() is Some,
            bytes is Some ==> bytes->0@ == self@.content()->0,
    {
        match self {
            Event::Content(Some(bytes)) => Some(bytes),
            _ => None,
        }
    }

    /// Whether the event reports a write that went through.
    pub fn written(&self) -> (yes: bool)
        ensures
            yes == self@.written(),
    {
        match self {
            Event::Written(done) => *done,
            _ => false,
        }
    }

    /// Whether the event is an answer that accepts.
    pub fn accepted(&self) -> (yes: bool)
        ensures
            yes == self@.accepted(),
    {
        match self {
            Event::Answer(line) => answer_accepts(line.as_str()),
            _ => false,
        }
    }

    /// The verdict on the command that the event reports on.
    pub fn launch_verdict(&self) -> (result: Result<(), SetupError>)
        ensures
            verdict_view(result) == self@.launch_verdict(),
    {
        match self {
            Event::Launched(launch) => command_result(launch),
            _ => Err(SetupError::SpawnFailed),
        }
    }
}

/// Where a step stands at the guard that protects a destination.
pub enum Guard {
    /// The driver has something to do first.
    Ask(ActionView),
    /// The operator declined: nothing is to be changed.
    Skip,
    /// The destination may be written; the events after the guard follow.
    Proceed(Seq<EventView>),
}

/// The guard before `dest`: probe it; where it is not reported absent, ask
/// whether it may be overwritten, and go on only on an accepting answer.
pub open spec fn overwrite_guard(dest: Seq<char>, seen: Seq<EventView>) -> Guard {
    if seen.len() == 0 {
        Guard::Ask(ActionView::Probe(dest))
    } else if seen[0].absent() {
        Guard::Proceed(seen.skip(1))
    } else if seen.len() == 1 {
        Guard::Ask(ActionView::Confirm(dest))
    } else if seen[1].accepted() {
        Guard::Proceed(seen.skip(2))
    } else {
        Guard::Skip
    }
}

/// Running one command and reporting its verdict.
pub open spec fn run_once(command: CommandSpecView, seen: Seq<EventView>) -> ActionView {
    if seen.len() == 0 {
        ActionView::Run(command)
    } else {
        ActionView::Done(seen[0].launch_verdict())
    }
}

/// Copying the file `from` to `to`: read it, write what was read, and report
/// whether the write went through.
pub open spec fn file_copy(from: Seq<char>, to: Seq<char>, seen: Seq<EventView>) -> ActionView {
    if seen.len() == 0 {
        ActionView::Read(from)
    } else {
        match seen[0].content() {
            None => ActionView::Done(Err(SetupErrorView::SourceUnreadable)),
            Some(content) => if seen.len() == 1 {
                ActionView::Write { path: to, content }
            } else if seen[1].written() {
                ActionView::Done(Ok(()))
            } else {
                ActionView::Done(Err(SetupErrorView::DestinationWriteFailed))
            },
        }
    }
}

/// Where a step stands at the guard, in executable form: `Proceed` holds the
/// number of events that the guard took.
pub(crate) enum Passage {
    Ask(Action),
    Skip,
    Proceed(usize),
}

/// The events from index `from` on.
pub(crate) fn after(seen: &[Event], from: usize) -> (rest: &[Event])
    requires
        from <= seen@.len(),
    ensures
        events(rest@) == events(seen@).skip(from as int),
{
    let rest = slice_subrange(seen, from, seen.len());
    assert(events(rest@) =~= events(seen@).skip(from as int));
    rest
}

/// Takes the events through the guard before `dest`.
pub(crate) fn pass_guard(dest: &str, seen: &[Event]) -> (passage: Passage)
    ensures
        match overwrite_guard(dest@, events(seen@)) {
            Guard::Ask(action) => passage matches Passage::Ask(asked) && asked@ == action,
            Guard::Skip => passage is Skip,
            Guard::Proceed(rest) => passage matches Passage::Proceed(taken) && taken
                <= seen@.len() && events(seen@).skip(taken as int) == rest,
        },
{
    if seen.len() == 0 {
        Passage::Ask(Action::Probe(dest.to_owned()))
    } else if seen[0].absent() {
        Passage::Proceed(1)
    } else if seen.len() == 1 {
        Passage::Ask(Action::Confirm(dest.to_owned()))
    } else if seen[1].accepted() {
        Passage::Proceed(2)
    } else {
        Passage::Skip
    }
}

/// Copies the file `from` to `to`: asks for the content of `from`, asks for
/// it to be written to `to`, and reports whether that went through.
pub fn copy_file(from: &str, to: &str, seen: &[Event]) -> (action: Action)
    ensures
        action@ == file_copy(from@, to@, events(seen@)),
{
    if seen.len() == 0 {
        Action::Read(from.to_owned())
    } else {
        match seen[0].content() {
            None => Action::Done(Err(SetupError::SourceUnreadable)),
            Some(content) => {
                if seen.len() == 1 {
                    Action::Write { path: to.to_owned(), content: copy_bytes(content) }
                } else if seen[1].written() {
                    Action::Done(Ok(()))
                } else {
                    Action::Done(Err(SetupError::DestinationWriteFailed))
                }
            },
        }
    }
}

/// The guard itself changes nothing: whatever it asks of the driver is a
/// probe or a question.
pub proof fn lemma_guard_is_harmless(dest: Seq<char>, seen: Seq<EventView>)
    ensures
        overwrite_guard(dest, seen) matches Guard::Ask(action) ==> !action.mutates(),
{
}

/// An existing destination and an answer that does not accept close the
/// guard, whatever is reported after them.
pub proof fn lemma_guard_declined(dest: Seq<char>, seen: Seq<EventView>)
    requires
        seen.len() >= 2,
        !seen[0].absent(),
        !seen[1].accepted(),
    ensures
        overwrite_guard(dest, seen) is Skip,
{
}

/// A guard that has been passed or closed stays so when more is reported:
/// what follows a passed guard is what followed it before, and the rest.
pub proof fn lemma_guard_settles(dest: Seq<char>, seen: Seq<EventView>, more: Seq<EventView>)
    ensures
        overwrite_guard(dest, seen) is Skip ==> overwrite_guard(dest, seen + more) is Skip,
        overwrite_guard(dest, seen) matches Guard::Proceed(rest) ==> overwrite_guard(
            dest,
            seen + more,
        ) == Guard::Proceed(rest + more),
{
    if seen.len() >= 1 {
        assert((seen + more)[0] == seen[0]);
        assert((seen + more).skip(1) =~= seen.skip(1) + more);
    }
    if seen.len() >= 2 {
        assert((seen + more)[1] == seen[1]);
        assert((seen + more).skip(2) =~= seen.skip(2) + more);
    }
}

/// A command that has been reported on stays judged as it was.
pub proof fn lemma_run_settles(
    command: CommandSpecView,
    seen: Seq<EventView>,
    more: Seq<EventView>,
)
    requires
        run_once(command, seen) is Done,
    ensures
        run_once(command, seen + more) == run_once(command, seen),
{
    assert((seen + more)[0] == seen[0]);
}

/// A copy that has ended stays ended as it was.
pub proof fn lemma_copy_settles(
    from: Seq<char>,
    to: Seq<char>,
    seen: Seq<EventView>,
    more: Seq<EventView>,
)
    requires
        file_copy(from, to, seen) is Done,
    ensures
        file_copy(from, to, seen + more) == file_copy(from, to, seen),
{
    assert((seen + more)[0] == seen[0]);
    if seen.len() >= 2 {
        assert((seen + more)[1] == seen[1]);
    }
}

/// An answer of ASCII characters accepts exactly where, trimmed, it is the
/// letter `y` or the letter `Y`.
pub proof fn lemma_ascii_answer(line: Seq<char>)
    requires
        all_ascii(trimmed(line)),
    ensures
        says_yes(line) <==> (trimmed(line) == seq!['y'] || trimmed(line) == seq!['Y']),
{
    reveal_strlit("y");
    let answer = trimmed(line);
    let lower = ascii_lowercased(answer);
    assert("y"@ =~= seq!['y']);
    if answer == seq!['y'] || answer == seq!['Y'] {
        assert(lower =~= seq!['y']);
    }
    if lower == seq!['y'] {
        assert(answer.len() == 1);
        assert(lower[0] == ascii_lower(answer[0]));
        let code = answer[0] as u32;
        if 65 <= code <= 90 {
            assert((((code + 32) as u8) as char) as u32 == code + 32);
            assert('y' as u32 == 121);
            assert(code == 89);
            char_u32_cast(answer[0], 89u32);
            char_u32_cast('Y', 89u32);
        }
        assert(answer[0] == 'y' || answer[0] == 'Y');
        assert(answer =~= seq![answer[0]]);
    }
}

/// The letter `y`, small or capital, accepts with any whitespace around it.
pub proof fn lemma_yes_accepts(before: Seq<char>, letter: char, after: Seq<char>)
    requires
        letter == 'y' || letter == 'Y',
        forall|i: int| 0 <= i < before.len() ==> is_space(before[i]),
        forall|i: int| 0 <= i < after.len() ==> is_space(after[i]),
    ensures
        says_yes(before + seq![letter] + after),
{
    lemma_trimmed_between(before, seq![letter], after);
    lemma_ascii_answer(before + seq![letter] + after);
}

} // verus!
