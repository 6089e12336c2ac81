//! The software step: installing packages with the distribution's package
//! manager.

use crate::commands::{run_sudo_command, sudo_spec, CommandSpecView};
use crate::error::{SetupError, SetupErrorView};
use crate::step::{events, run_once, Action, ActionView, Event, EventView};
use crate::text::{same_text, slice_texts};
use vstd::prelude::*;

verus! {

/// The package manager of `distro` and the words that make it install
/// without asking; `None` for a distribution that is not supported.
pub open spec fn package_manager(distro: Seq<char>) -> Option<(Seq<char>, Seq<Seq<char>>)> {
    if distro == "arch"@ {
        Some(("pacman"@, seq!["-Sy"@, "--noconfirm"@]))
    } else if distro == "debian"@ {
        Some(("apt"@, seq!["install"@, "-y"@]))
    } else if distro == "fedora"@ {
        Some(("dnf"@, seq!["install"@, "-y"@]))
    } else {
        None
    }
}

/// The command that installs `packages` with `manager`.
pub open spec fn install_command(
    manager: (Seq<char>, Seq<Seq<char>>),
    packages: Seq<Seq<char>>,
) -> CommandSpecView {
    sudo_spec(manager.0, manager.1 + packages, None)
}

/// Installing `packages` on `distro`: on a supported distribution run its
/// package manager and report the verdict; on any other there is no program
/// to start.
pub open spec fn software_install(
    packages: Seq<Seq<char>>,
    distro: Seq<char>,
    seen: Seq<EventView>,
) -> ActionView {
    match package_manager(distro) {
        Some(manager) => run_once(install_command(manager, packages), seen),
        None => ActionView::Done(Err(SetupErrorView::SpawnFailed)),
    }
}

/// Installs `packages` with the package manager of `distro`.
pub fn software_setup(packages: &[&str], distro: &str, seen: &[Event]) -> (action: Action)
    ensures
        action@ == software_install(slice_texts(packages@), distro@, events(seen@)),
{
    let (cmd, first, second) = if same_text(distro, "arch") {
        ("pacman", "-Sy", "--noconfirm")
    } else if same_text(distro, "debian") {
        ("apt", "install", "-y")
    } else if same_text(distro, "fedora") {
        ("dnf", "install", "-y")
    } else {
        return Action::Done(Err(SetupError::SpawnFailed));
    };
    let ghost manager = package_manager(distro@)->0;
    let mut args: Vec<&str> = Vec::new();
    args.push(first);
    args.push(second);
    assert(slice_texts(args@) =~= manager.1);
    let mut i: usize = 0;
    while i < packages.len()
        invariant
            i <= packages@.len(),
            args@.len() == 2 + i,
            manager.1.len() == 2,
            slice_texts(args@).take(2) == manager.1,
            forall|j: int| 0 <= j < i ==> args@[2 + j]@ == packages@[j]@,
        decreases packages@.len() - i,
    {
        let ghost before = slice_texts(args@);
        args.push(packages[i]);
        i = i + 1;
        assert(slice_texts(args@).take(2) =~= before.take(2));
    }
    assert(slice_texts(args@) =~= manager.1 + slice_texts(packages@));
    run_sudo_command(cmd, args.as_slice(), seen)
}

} // verus!
