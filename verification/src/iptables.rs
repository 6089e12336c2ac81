//! The firewall steps: installing the rules file and applying it.

use crate::commands::{
    run_sudo_command, run_sudo_command_with_stdin, sudo_spec, CommandSpecView,
};
use crate::error::{SetupError, SetupErrorView};
use crate::step::{
    after, events, overwrite_guard, pass_guard, run_once, Action, ActionView, Event, EventView,
    Guard, Passage,
};
use crate::text::{copy_bytes, slice_texts};
use vstd::prelude::*;

verus! {

/// The rules file that ships with the assistant.
pub open spec fn rules_source() -> Seq<char> {
    "../configs/iptables.rules"@
}

/// The rules file of the system.
pub open spec fn rules_target() -> Seq<char> {
    "/etc/iptables/iptables.rules"@
}

/// The command that writes `rules` to the system's rules file as root.
pub open spec fn rules_write_command(rules: Seq<u8>) -> CommandSpecView {
    sudo_spec("tee"@, seq![rules_target()], Some(rules))
}

/// The command that loads the system's rules file into the firewall.
pub open spec fn rules_apply_command() -> CommandSpecView {
    sudo_spec("bash"@, seq!["-c"@, "iptables-restore < /etc/iptables/iptables.rules"@], None)
}

/// Installing the rules file: the source must exist and be readable; then
/// the guard before the system's file; then the write as root, whose verdict
/// is reported.
pub open spec fn rules_install(seen: Seq<EventView>) -> ActionView {
    if seen.len() == 0 {
        ActionView::Probe(rules_source())
    } else if !seen[0].present() {
        ActionView::Done(Err(SetupErrorView::SourceUnreadable))
    } else if seen.len() == 1 {
        ActionView::Read(rules_source())
    } else {
        match seen[1].content() {
            None => ActionView::Done(Err(SetupErrorView::SourceUnreadable)),
            Some(rules) => match overwrite_guard(rules_target(), seen.skip(2)) {
                Guard::Ask(action) => action,
                Guard::Skip => ActionView::Done(Ok(())),
                Guard::Proceed(rest) => run_once(rules_write_command(rules), rest),
            },
        }
    }
}

/// Installs the firewall rules file into the system.
pub fn iptables_file_setup(seen: &[Event]) -> (action: Action)
    ensures
        action@ == rules_install(events(seen@)),
{
    let src = "../configs/iptables.rules";
    let dest = "/etc/iptables/iptables.rules";
    if seen.len() == 0 {
        return Action::Probe(src.to_owned());
    }
    if !seen[0].present() {
        return Action::Done(Err(SetupError::SourceUnreadable));
    }
    if seen.len() == 1 {
        return Action::Read(src.to_owned());
    }
    let rules = match seen[1].content() {
        Some(rules) => rules,
        None => {
            return Action::Done(Err(SetupError::SourceUnreadable));
        },
    };
    let asked = after(seen, 2);
    match pass_guard(dest, asked) {
        Passage::Ask(action) => action,
        Passage::Skip => Action::Done(Ok(())),
        Passage::Proceed(taken) => {
            let args = [dest];
            assert(slice_texts(args@) =~= seq![rules_target()]);
            run_sudo_command_with_stdin("tee", &args, copy_bytes(rules), after(asked, taken))
        },
    }
}

/// Loads the system's rules file into the firewall.
pub fn iptables_rules_setup(seen: &[Event]) -> (action: Action)
    ensures
        action@ == run_once(rules_apply_command(), events(seen@)),
{
    let args = ["-c", "iptables-restore < /etc/iptables/iptables.rules"];
    assert(slice_texts(args@) =~= rules_apply_command().args);
    run_sudo_command("bash", &args, seen)
}

} // verus!
