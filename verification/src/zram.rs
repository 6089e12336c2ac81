//! The swap step: installing the configuration of compressed swap.

use crate::commands::{run_sudo_command, sudo_spec, CommandSpecView};
use crate::error::{SetupError, SetupErrorView};
use crate::step::{
    after, events, overwrite_guard, pass_guard, run_once, Action, ActionView, Event, EventView,
    Guard, Passage,
};
use crate::text::slice_texts;
use vstd::prelude::*;

verus! {

/// The swap configuration that ships with the assistant.
pub open spec fn zram_source() -> Seq<char> {
    "../configs/zram-generator.conf"@
}

/// The swap configuration of the system.
pub open spec fn zram_target() -> Seq<char> {
    "/etc/systemd/zram-generator.conf"@
}

/// The command that copies the swap configuration into the system as root.
pub open spec fn zram_copy_command() -> CommandSpecView {
    sudo_spec("cp"@, seq![zram_source(), zram_target()], None)
}

/// Installing the swap configuration: the source must exist; then the guard
/// before the system's file; then the copy as root, whose verdict is
/// reported.
pub open spec fn zram_install(seen: Seq<EventView>) -> ActionView {
    if seen.len() == 0 {
        ActionView::Probe(zram_source())
    } else if !seen[0].present() {
        ActionView::Done(Err(SetupErrorView::SourceUnreadable))
    } else {
        match overwrite_guard(zram_target(), seen.skip(1)) {
            Guard::Ask(action) => action,
            Guard::Skip => ActionView::Done(Ok(())),
            Guard::Proceed(rest) => run_once(zram_copy_command(), rest),
        }
    }
}

/// Installs the configuration of compressed swap into the system.
pub fn zram_swap_setup(seen: &[Event]) -> (action: Action)
    ensures
        action@ == zram_install(events(seen@)),
{
    let src = "../configs/zram-generator.conf";
    let dest = "/etc/systemd/zram-generator.conf";
    if seen.len() == 0 {
        return Action::Probe(src.to_owned());
    }
    if !seen[0].present() {
        return Action::Done(Err(SetupError::SourceUnreadable));
    }
    let asked = after(seen, 1);
    match pass_guard(dest, asked) {
        Passage::Ask(action) => action,
        Passage::Skip => Action::Done(Ok(())),
        Passage::Proceed(taken) => {
            let args = [src, dest];
            assert(slice_texts(args@) =~= zram_copy_command().args);
            run_sudo_command("cp", &args, after(asked, taken))
        },
    }
}

} // verus!
