//! Installing configuration files: one file into the user's home, and the
//! user's files mirrored into root's.

use crate::commands::{run_sudo_command, sudo_spec, CommandSpecView};
use crate::error::{SetupError, SetupErrorView};
use crate::paths::{file_name, file_name_of, join, path_join};
use crate::step::{
    after, copy_file, events, file_copy, lemma_copy_settles, lemma_guard_is_harmless,
    lemma_guard_settles, overwrite_guard, pass_guard, run_once, says_yes, Action, ActionView,
    Event, EventView, Guard, Passage,
};
use crate::text::{joined, optional_text, slice_texts};
use vstd::prelude::*;
use vstd::slice::slice_subrange;

verus! {

/// Where `config_path` is installed under `home_dir`: under its own file
/// name. A path without a file name has no destination.
pub open spec fn destination(config_path: Seq<char>, home_dir: Seq<char>) -> Result<
    Seq<char>,
    SetupErrorView,
> {
    match file_name_of(config_path) {
        Some(name) => Ok(path_join(home_dir, name)),
        None => Err(SetupErrorView::InvalidSourceName),
    }
}

/// Installing the file `from` as `to`: pass the guard before `to`, then copy.
/// A declined overwrite ends the step with success and nothing changed.
pub open spec fn guarded_copy(from: Seq<char>, to: Seq<char>, seen: Seq<EventView>) -> ActionView {
    match overwrite_guard(to, seen) {
        Guard::Ask(action) => action,
        Guard::Skip => ActionView::Done(Ok(())),
        Guard::Proceed(rest) => file_copy(from, to, rest),
    }
}

/// Installing `config_path` under `home_dir`.
pub open spec fn config_install(
    config_path: Seq<char>,
    home_dir: Seq<char>,
    seen: Seq<EventView>,
) -> ActionView {
    match destination(config_path, home_dir) {
        Ok(to) => guarded_copy(config_path, to, seen),
        Err(e) => ActionView::Done(Err(e)),
    }
}

/// The path under `home_dir` for a file whose name was found to be `name`.
/// A source in which no file name was found has no destination.
pub fn destination_of(name: Option<String>, home_dir: &str) -> (to: Result<String, SetupError>)
    ensures
        match optional_text(name) {
            Some(n) => to is Ok && to->Ok_0@ == path_join(home_dir@, n),
            None => to is Err && to->Err_0@ == SetupErrorView::InvalidSourceName,
        },
{
    match name {
        Some(name) => Ok(join(home_dir, name.as_str())),
        None => Err(SetupError::InvalidSourceName),
    }
}

/// The path under `home_dir` at which `config_path` is installed.
pub fn config_destination(config_path: &str, home_dir: &str) -> (to: Result<String, SetupError>)
    ensures
        match destination(config_path@, home_dir@) {
            Ok(path) => to is Ok && to->Ok_0@ == path,
            Err(e) => to is Err && to->Err_0@ == e,
        },
{
    destination_of(file_name(config_path), home_dir)
}

/// Installs the file `from` as `to`, asking before an existing `to` is
/// overwritten.
pub fn install_file(from: &str, to: &str, seen: &[Event]) -> (action: Action)
    ensures
        action@ == guarded_copy(from@, to@, events(seen@)),
{
    match pass_guard(to, seen) {
        Passage::Ask(action) => action,
        Passage::Skip => Action::Done(Ok(())),
        Passage::Proceed(taken) => copy_file(from, to, after(seen, taken)),
    }
}

/// Installs the configuration file `config_path` into `home_dir` under its
/// own name.
pub fn user_config_setup(config_path: &str, home_dir: &str, seen: &[Event]) -> (action: Action)
    ensures
        action@ == config_install(config_path@, home_dir@, events(seen@)),
{
    match config_destination(config_path, home_dir) {
        Ok(to) => install_file(config_path, to.as_str(), seen),
        Err(e) => Action::Done(Err(e)),
    }
}

/// The path of `item` under `dir`.
pub open spec fn item_path(dir: Seq<char>, item: Seq<char>) -> Seq<char> {
    dir + "/"@ + item
}

/// The command that copies `src` to `dest` as root, directories included.
pub open spec fn copy_command(src: Seq<char>, dest: Seq<char>) -> CommandSpecView {
    sudo_spec("cp"@, seq!["-r"@, src, dest], None)
}

/// Mirroring `items` from index `at` on: the first item whose copy has not
/// been reported is copied next; a copy that failed ends the step with its
/// failure; with every copy reported good the step ends with success.
pub open spec fn mirror_from(
    source_dir: Seq<char>,
    items: Seq<Seq<char>>,
    target_root: Seq<char>,
    seen: Seq<EventView>,
    at: int,
) -> ActionView
    decreases items.len() - at,
{
    if at < 0 || at >= items.len() {
        ActionView::Done(Ok(()))
    } else if at >= seen.len() {
        ActionView::Run(
            copy_command(item_path(source_dir, items[at]), item_path(target_root, items[at])),
        )
    } else if seen[at].launch_verdict() is Err {
        ActionView::Done(seen[at].launch_verdict())
    } else {
        mirror_from(source_dir, items, target_root, seen, at + 1)
    }
}

/// Mirroring `items` from `source_dir` into `target_root`, one copy after
/// the other, as far as the first that fails.
pub open spec fn mirror(
    source_dir: Seq<char>,
    items: Seq<Seq<char>>,
    target_root: Seq<char>,
    seen: Seq<EventView>,
) -> ActionView {
    mirror_from(source_dir, items, target_root, seen, 0)
}

/// The index of the first item whose copy is reported to have failed.
pub open spec fn first_failed(items: Seq<Seq<char>>, seen: Seq<EventView>, at: int) -> Option<int>
    decreases items.len() - at,
{
    if at < 0 || at >= items.len() || at >= seen.len() {
        None
    } else if seen[at].launch_verdict() is Err {
        Some(at)
    } else {
        first_failed(items, seen, at + 1)
    }
}

/// The files and directories of the user that root receives.
pub open spec fn root_items() -> Seq<Seq<char>> {
    seq![".oh-my-zsh"@, ".zshrc"@, ".vimrc"@]
}

/// Where root's copies go.
pub open spec fn root_home() -> Seq<char> {
    "/root"@
}

/// The path of `item` under `dir`.
pub fn path_of_item(dir: &str, item: &str) -> (path: String)
    ensures
        path@ == item_path(dir@, item@),
{
    let base = joined(dir, "/");
    joined(base.as_str(), item)
}

/// Copies `src` to `dest` as root, directories included: asks for the copy,
/// then reports its verdict.
pub fn copy_item_as_root(src: &str, dest: &str, seen: &[Event]) -> (action: Action)
    ensures
        action@ == run_once(copy_command(src@, dest@), events(seen@)),
{
    let args = ["-r", src, dest];
    assert(slice_texts(args@) =~= seq!["-r"@, src@, dest@]);
    run_sudo_command("cp", &args, seen)
}

/// The event that reports on the copy of the item at index `at`, if there
/// is one yet.
fn report_on(seen: &[Event], at: usize) -> (own: &[Event])
    ensures
        at < seen@.len() ==> events(own@) == seq![events(seen@)[at as int]],
        at >= seen@.len() ==> events(own@) == Seq::<EventView>::empty(),
{
    let own = if at < seen.len() {
        slice_subrange(seen, at, at + 1)
    } else {
        slice_subrange(seen, seen.len(), seen.len())
    };
    assert(at < seen@.len() ==> events(own@) =~= seq![events(seen@)[at as int]]);
    assert(at >= seen@.len() ==> events(own@) =~= Seq::<EventView>::empty());
    own
}

/// Mirrors each of `items` from `source_dir` into `target_root` as root. The
/// first copy that fails ends the step; what was copied before it stays.
pub fn mirror_privileged(
    source_dir: &str,
    items: &[&str],
    target_root: &str,
    seen: &[Event],
) -> (action: Action)
    ensures
        action@ == mirror(source_dir@, slice_texts(items@), target_root@, events(seen@)),
{
    let mut at: usize = 0;
    while at < items.len()
        invariant
            at <= items@.len(),
            mirror(source_dir@, slice_texts(items@), target_root@, events(seen@)) == mirror_from(
                source_dir@,
                slice_texts(items@),
                target_root@,
                events(seen@),
                at as int,
            ),
        decreases items@.len() - at,
    {
        let src = path_of_item(source_dir, items[at]);
        let dest = path_of_item(target_root, items[at]);
        match copy_item_as_root(src.as_str(), dest.as_str(), report_on(seen, at)) {
            Action::Done(Ok(_)) => {
                at = at + 1;
            },
            action => {
                return action;
            },
        }
    }
    Action::Done(Ok(()))
}

/// The index of the first item whose copy is reported to have failed, if
/// any has.
pub fn failed_item(items: &[&str], seen: &[Event]) -> (index: Option<usize>)
    ensures
        match first_failed(slice_texts(items@), events(seen@), 0) {
            Some(i) => index == Some(i as usize) && i < items@.len(),
            None => index is None,
        },
{
    let mut at: usize = 0;
    while at < items.len() && at < seen.len()
        invariant
            at <= items@.len(),
            at <= seen@.len(),
            first_failed(slice_texts(items@), events(seen@), 0) == first_failed(
                slice_texts(items@),
                events(seen@),
                at as int,
            ),
        decreases items@.len() - at,
    {
        if seen[at].launch_verdict().is_err() {
            return Some(at);
        }
        at = at + 1;
    }
    None
}

/// Gives root the user's shell and editor configuration from `home_dir`.
pub fn setup_root_config(home_dir: &str, seen: &[Event]) -> (action: Action)
    ensures
        action@ == mirror(home_dir@, root_items(), root_home(), events(seen@)),
{
    let items = [".oh-my-zsh", ".zshrc", ".vimrc"];
    assert(slice_texts(items@) =~= root_items());
    mirror_privileged(home_dir, &items, "/root", seen)
}

/// Declining leaves the destination alone: where the destination exists
/// and the answer does not accept, the step ends with success, and nothing
/// it asked for on the way there writes a file or starts a process.
pub proof fn lemma_declined_overwrite(from: Seq<char>, to: Seq<char>, seen: Seq<EventView>)
    requires
        seen.len() >= 2,
        !seen[0].absent(),
        !seen[1].accepted(),
    ensures
        guarded_copy(from, to, seen) == ActionView::Done(Ok(())),
        forall|n: int|
            0 <= n <= seen.len() ==> !(#[trigger] guarded_copy(from, to, seen.take(n))).mutates(),
{
    assert forall|n: int| 0 <= n <= seen.len() implies !(#[trigger] guarded_copy(
        from,
        to,
        seen.take(n),
    )).mutates() by {
        let part = seen.take(n);
        if n >= 1 {
            assert(part[0] == seen[0]);
        }
        if n >= 2 {
            assert(part[1] == seen[1]);
        }
    }
}

/// Installing twice gives the same file twice: with the first installation
/// onto a free destination and the second accepted onto the existing one,
/// each writes to the destination exactly the bytes read from the source,
/// and ends with success once the write went through.
pub proof fn lemma_install_is_idempotent(
    from: Seq<char>,
    to: Seq<char>,
    content: Seq<u8>,
    answer: Seq<char>,
)
    requires
        says_yes(answer),
    ensures
        guarded_copy(from, to, seq![EventView::Exists(false)]) == ActionView::Read(from),
        guarded_copy(from, to, seq![EventView::Exists(false), EventView::Content(Some(content))])
            == (ActionView::Write { path: to, content }),
        guarded_copy(
            from,
            to,
            seq![
                EventView::Exists(false),
                EventView::Content(Some(content)),
                EventView::Written(true),
            ],
        ) == ActionView::Done(Ok(())),
        guarded_copy(from, to, seq![EventView::Exists(true), EventView::Answer(answer)])
            == ActionView::Read(from),
        guarded_copy(
            from,
            to,
            seq![
                EventView::Exists(true),
                EventView::Answer(answer),
                EventView::Content(Some(content)),
            ],
        ) == (ActionView::Write { path: to, content }),
        guarded_copy(
            from,
            to,
            seq![
                EventView::Exists(true),
                EventView::Answer(answer),
                EventView::Content(Some(content)),
                EventView::Written(true),
            ],
        ) == ActionView::Done(Ok(())),
{
}

/// Mirroring stops at the first copy that failed: the step ends with the
/// failure of that copy, whatever is reported after it, and asks for no
/// further copy.
pub proof fn lemma_mirror_stops_at_failure(
    source_dir: Seq<char>,
    items: Seq<Seq<char>>,
    target_root: Seq<char>,
    seen: Seq<EventView>,
    failed: int,
)
    requires
        0 <= failed < items.len(),
        failed < seen.len(),
        seen[failed].launch_verdict() is Err,
        forall|i: int| 0 <= i < failed ==> seen[i].launch_verdict() is Ok,
    ensures
        mirror(source_dir, items, target_root, seen) == ActionView::Done(
            seen[failed].launch_verdict(),
        ),
        first_failed(items, seen, 0) == Some(failed),
{
    lemma_mirror_from(source_dir, items, target_root, seen, failed, 0);
}

proof fn lemma_mirror_from(
    source_dir: Seq<char>,
    items: Seq<Seq<char>>,
    target_root: Seq<char>,
    seen: Seq<EventView>,
    failed: int,
    at: int,
)
    requires
        0 <= at <= failed < items.len(),
        failed < seen.len(),
        seen[failed].launch_verdict() is Err,
        forall|i: int| 0 <= i < failed ==> seen[i].launch_verdict() is Ok,
    ensures
        mirror_from(source_dir, items, target_root, seen, at) == ActionView::Done(
            seen[failed].launch_verdict(),
        ),
        first_failed(items, seen, at) == Some(failed),
    decreases failed - at,
{
    if at < failed {
        lemma_mirror_from(source_dir, items, target_root, seen, failed, at + 1);
    }
}

/// Mirroring copies every item where no copy fails: item by item in order,
/// and with all of them reported good the step ends with success.
pub proof fn lemma_mirror_copies_all(
    source_dir: Seq<char>,
    items: Seq<Seq<char>>,
    target_root: Seq<char>,
    seen: Seq<EventView>,
)
    requires
        forall|i: int| 0 <= i < seen.len() ==> seen[i].launch_verdict() is Ok,
    ensures
        seen.len() < items.len() ==> mirror(source_dir, items, target_root, seen)
            == ActionView::Run(
            copy_command(
                item_path(source_dir, items[seen.len() as int]),
                item_path(target_root, items[seen.len() as int]),
            ),
        ),
        seen.len() >= items.len() ==> mirror(source_dir, items, target_root, seen)
            == ActionView::Done(Ok(())),
{
    lemma_mirror_good_from(source_dir, items, target_root, seen, 0);
}

proof fn lemma_mirror_good_from(
    source_dir: Seq<char>,
    items: Seq<Seq<char>>,
    target_root: Seq<char>,
    seen: Seq<EventView>,
    at: int,
)
    requires
        0 <= at,
        at <= seen.len(),
        at <= items.len(),
        forall|i: int| 0 <= i < seen.len() ==> seen[i].launch_verdict() is Ok,
    ensures
        seen.len() < items.len() ==> mirror_from(source_dir, items, target_root, seen, at)
            == ActionView::Run(
            copy_command(
                item_path(source_dir, items[seen.len() as int]),
                item_path(target_root, items[seen.len() as int]),
            ),
        ),
        seen.len() >= items.len() ==> mirror_from(source_dir, items, target_root, seen, at)
            == ActionView::Done(Ok(())),
    decreases items.len() - at,
{
    if at < items.len() && at < seen.len() {
        lemma_mirror_good_from(source_dir, items, target_root, seen, at + 1);
    }
}

/// An installation that has ended stays ended as it was.
pub proof fn lemma_install_settles(
    from: Seq<char>,
    to: Seq<char>,
    seen: Seq<EventView>,
    more: Seq<EventView>,
)
    requires
        guarded_copy(from, to, seen) is Done,
    ensures
        guarded_copy(from, to, seen + more) == guarded_copy(from, to, seen),
{
    lemma_guard_settles(to, seen, more);
    lemma_guard_is_harmless(to, seen);
    if let Guard::Proceed(rest) = overwrite_guard(to, seen) {
        lemma_copy_settles(from, to, rest, more);
    }
}

/// A mirroring that has ended stays ended as it was.
pub proof fn lemma_mirror_settles(
    source_dir: Seq<char>,
    items: Seq<Seq<char>>,
    target_root: Seq<char>,
    seen: Seq<EventView>,
    more: Seq<EventView>,
)
    requires
        mirror(source_dir, items, target_root, seen) is Done,
    ensures
        mirror(source_dir, items, target_root, seen + more) == mirror(
            source_dir,
            items,
            target_root,
            seen,
        ),
{
    lemma_mirror_settles_from(source_dir, items, target_root, seen, more, 0);
}

proof fn lemma_mirror_settles_from(
    source_dir: Seq<char>,
    items: Seq<Seq<char>>,
    target_root: Seq<char>,
    seen: Seq<EventView>,
    more: Seq<EventView>,
    at: int,
)
    requires
        0 <= at,
        mirror_from(source_dir, items, target_root, seen, at) is Done,
    ensures
        mirror_from(source_dir, items, target_root, seen + more, at) == mirror_from(
            source_dir,
            items,
            target_root,
            seen,
            at,
        ),
    decreases items.len() - at,
{
    if at < items.len() && at < seen.len() {
        assert((seen + more)[at] == seen[at]);
        if seen[at].launch_verdict() is Ok {
            lemma_mirror_settles_from(source_dir, items, target_root, seen, more, at + 1);
        }
    }
}

} // verus!
