//! What holds of every run of the default setup, from the first reply to
//! the exit code.

use crate::plan::{default_tasks, task_label, PLANNED};
use crate::prog_fun::default_packages;
use crate::task::{
    all_succeeded, failing, first_failure, is_first_failure, lemma_first_failure_exists,
    lemma_first_failure_unique, lemma_no_failure_reported, lemma_single_failure_reported,
    pipeline, Policy, TaskResultView, FAILED_RUN,
};
use crate::error::SetupErrorView;
use crate::prog_fun::DENIED_EXIT;
use crate::user_cfg::{home_variable, user_variable, UserCfgView};
use crate::{
    conclude, detect_phase, detection_from, firewall_phase, outcomes, presences, recorded,
    release_files, reported, run_next, software_phase, taken, tasks_phase, unknown_distro,
    EndingView, Options, ReplyView, RequestView, BEFORE_CHOICE,
};
use vstd::prelude::*;

verus! {

/// How the questions before the tasks were answered in a run that gets as
/// far as its tasks.
pub struct Preliminaries {
    /// The name of the user.
    pub name: Seq<char>,
    /// The home directory of the user.
    pub home: Seq<char>,
    /// The number of release files that were probed.
    pub probed: int,
    /// The number of answers to the question for the software that were no
    /// number.
    pub refused: int,
    /// Whether the operator chose a list of their own.
    pub custom: bool,
}

/// The index of the first reply behind those that resolve the identity.
pub open spec fn identity_end(options: Options) -> int {
    if options.check_home {
        5
    } else {
        4
    }
}

impl Preliminaries {
    /// The identity of the user.
    pub open spec fn user(self) -> UserCfgView {
        UserCfgView { name: self.name, home_dir: self.home }
    }

    /// The index of the outcome of the first task.
    pub open spec fn firewall_at(self, options: Options) -> int {
        identity_end(options) + self.probed
    }

    /// The index of the answer that chose the software.
    pub open spec fn choice_at(self, options: Options) -> int {
        self.firewall_at(options) + BEFORE_CHOICE + self.refused
    }

    /// The index of the outcome of the first task after the choice of
    /// software.
    pub open spec fn tasks_at(self, options: Options) -> int {
        self.choice_at(options) + 1 + if self.custom {
            1int
        } else {
            0int
        }
    }

    /// The distribution: that of the last release file probed where it was
    /// found, and none that is known else.
    pub open spec fn distro(self, options: Options, replies: Seq<ReplyView>) -> Seq<char> {
        if replies[self.firewall_at(options) - 1].present() {
            release_files()[self.probed - 1].1
        } else {
            unknown_distro()
        }
    }

    /// The packages: those that the operator listed, or the default ones.
    pub open spec fn packages(self, options: Options, replies: Seq<ReplyView>) -> Seq<Seq<char>> {
        if self.custom {
            replies[self.choice_at(options) + 1].listed()
        } else {
            default_packages()
        }
    }

    /// The statuses of the tasks performed so far.
    pub open spec fn statuses(self, options: Options, replies: Seq<ReplyView>) -> Seq<i8> {
        outcomes(replies, self.firewall_at(options), self.tasks_at(options))
    }
}

/// The replies let the process pass, give the user `p.name` with the home
/// `p.home`, which is there where that is checked, and settle the
/// distribution with `p.probed` probes: each but the last finds nothing,
/// and the last finds its file unless it is the probe of the last file.
pub open spec fn identified(options: Options, replies: Seq<ReplyView>, p: Preliminaries) -> bool {
    &&& replies.len() >= p.firewall_at(options)
    &&& replies[1].admits(options)
    &&& replies[2].variable() == Some(p.name)
    &&& p.name.len() > 0
    &&& replies[3].variable() == Some(p.home)
    &&& p.home.len() > 0
    &&& options.check_home ==> replies[4].present()
    &&& 1 <= p.probed <= release_files().len()
    &&& forall|i: int|
        identity_end(options) <= i < p.firewall_at(options) - 1 ==> !(
        #[trigger] replies[i]).present()
    &&& p.probed < release_files().len() ==> replies[p.firewall_at(options) - 1].present()
}

/// The replies are as [`identified`] says, hold the outcomes of the tasks
/// before the choice of software, after which the policy lets the run go
/// on, and choose the software: `p.refused` answers that are no number, then
/// one that is, then the list of packages where one was asked for.
pub open spec fn answered(options: Options, replies: Seq<ReplyView>, p: Preliminaries) -> bool {
    &&& identified(options, replies, p)
    &&& replies.len() >= p.tasks_at(options)
    &&& pipeline(
        options.policy,
        PLANNED as nat,
        reported(replies, p.firewall_at(options), BEFORE_CHOICE as int),
    ) is Perform
    &&& p.refused >= 0
    &&& forall|i: int|
        p.firewall_at(options) + BEFORE_CHOICE <= i < p.choice_at(options) ==> (
        #[trigger] replies[i]).choice() is None
    &&& replies[p.choice_at(options)].choice() == Some(p.custom)
}

/// A process that is denied ends at once: whatever else is reported, the
/// run asks for nothing more and exits with [`DENIED_EXIT`].
pub proof fn lemma_denied_run_ends(options: Options, replies: Seq<ReplyView>)
    requires
        replies.len() >= 2,
        !replies[1].admits(options),
    ensures
        run_next(options, replies) == RequestView::Exit(EndingView::Denied),
        EndingView::Denied.code() == DENIED_EXIT,
{
}

/// A run without identity ends before its tasks: where the process is let
/// pass and the lookup of the user or of the home directory gives nothing or
/// the empty text, the run ends with a failure that names that variable,
/// the user first, whatever else is reported.
pub proof fn lemma_unresolved_run_ends(options: Options, replies: Seq<ReplyView>)
    requires
        replies.len() >= 3,
        replies[1].admits(options),
    ensures
        (replies[2].variable() is None || replies[2].variable()->0.len() == 0) ==> run_next(
            options,
            replies,
        ) == RequestView::Exit(
            EndingView::Unresolved(SetupErrorView::MissingVariable { name: user_variable() }),
        ),
        !(replies[2].variable() is None || replies[2].variable()->0.len() == 0) && replies.len()
            >= 4 && (replies[3].variable() is None || replies[3].variable()->0.len() == 0)
            ==> run_next(options, replies) == RequestView::Exit(
            EndingView::Unresolved(SetupErrorView::MissingVariable { name: home_variable() }),
        ),
{
}

/// The detection ends with the probe that finds its file, or with the probe
/// of the last file, and is followed by the first tasks.
proof fn lemma_detected(
    options: Options,
    user: UserCfgView,
    replies: Seq<ReplyView>,
    base: int,
    probed: int,
)
    requires
        0 <= base,
        1 <= probed <= release_files().len(),
        base + probed <= replies.len(),
        forall|i: int| base <= i < base + probed - 1 ==> !(#[trigger] replies[i]).present(),
        probed < release_files().len() ==> replies[base + probed - 1].present(),
    ensures
        detect_phase(options, user, replies, base, 0) == firewall_phase(
            options,
            user,
            if replies[base + probed - 1].present() {
                release_files()[probed - 1].1
            } else {
                unknown_distro()
            },
            replies,
            base + probed,
        ),
{
    reveal_with_fuel(detection_from, 4);
    assert(release_files().len() == 3);
    let first = replies[base].present();
    assert(presences(replies, base, 0) =~= Seq::<bool>::empty());
    assert(presences(replies, base, 1) =~= seq![first]);
    assert(detect_phase(options, user, replies, base, 0) == detect_phase(
        options,
        user,
        replies,
        base,
        1,
    ));
    if probed >= 2 {
        assert(!replies[base].present());
        let second = replies[base + 1].present();
        assert(presences(replies, base, 2) =~= seq![false, second]);
        assert(detect_phase(options, user, replies, base, 1) == detect_phase(
            options,
            user,
            replies,
            base,
            2,
        ));
        if probed >= 3 {
            assert(!replies[base + 1].present());
            let third = replies[base + 2].present();
            assert(presences(replies, base, 3) =~= seq![false, false, third]);
            assert(detect_phase(options, user, replies, base, 2) == detect_phase(
                options,
                user,
                replies,
                base,
                3,
            ));
        }
    }
}

/// A run whose user and distribution are settled is at its first tasks.
pub proof fn lemma_identified_run(options: Options, replies: Seq<ReplyView>, p: Preliminaries)
    requires
        identified(options, replies, p),
    ensures
        run_next(options, replies) == firewall_phase(
            options,
            p.user(),
            p.distro(options, replies),
            replies,
            p.firewall_at(options),
        ),
{
    let base = identity_end(options);
    assert(run_next(options, replies) == detect_phase(options, p.user(), replies, base, 0));
    lemma_detected(options, p.user(), replies, base, p.probed);
}

proof fn lemma_chosen(
    options: Options,
    user: UserCfgView,
    distro: Seq<char>,
    replies: Seq<ReplyView>,
    early: int,
    from: int,
    again: bool,
    choice: int,
    custom: bool,
)
    requires
        0 <= from <= choice,
        choice + 1 + if custom { 1int } else { 0int } <= replies.len(),
        forall|i: int| from <= i < choice ==> (#[trigger] replies[i]).choice() is None,
        replies[choice].choice() == Some(custom),
    ensures
        software_phase(options, user, distro, replies, early, from, again) == tasks_phase(
            options,
            user,
            distro,
            if custom {
                replies[choice + 1].listed()
            } else {
                default_packages()
            },
            replies,
            early,
            choice + 1 + if custom { 1int } else { 0int },
        ),
    decreases choice - from,
{
    if from < choice {
        assert(replies[from].choice() is None);
        lemma_chosen(options, user, distro, replies, early, from + 1, true, choice, custom);
    }
}

/// A run that is still at the tasks before the choice of software, or that
/// the policy ends there, does what the policy says of the outcomes of
/// those tasks.
pub proof fn lemma_run_before_choice(
    options: Options,
    replies: Seq<ReplyView>,
    p: Preliminaries,
)
    requires
        identified(options, replies, p),
        replies.len() < p.firewall_at(options) + BEFORE_CHOICE || pipeline(
            options.policy,
            PLANNED as nat,
            reported(replies, p.firewall_at(options), BEFORE_CHOICE as int),
        ) is Exit,
    ensures
        run_next(options, replies) == conclude(
            options,
            p.user(),
            p.distro(options, replies),
            Seq::empty(),
            reported(
                replies,
                p.firewall_at(options),
                taken(replies, p.firewall_at(options), BEFORE_CHOICE as int),
            ),
        ),
{
    lemma_identified_run(options, replies, p);
}

/// A run whose questions are answered is at its tasks: it does what the
/// policy says of the outcomes of the tasks performed so far, for the user,
/// the distribution and the packages that the replies settled.
pub proof fn lemma_run_at_tasks(options: Options, replies: Seq<ReplyView>, p: Preliminaries)
    requires
        answered(options, replies, p),
    ensures
        run_next(options, replies) == conclude(
            options,
            p.user(),
            p.distro(options, replies),
            p.packages(options, replies),
            p.statuses(options, replies),
        ),
{
    lemma_identified_run(options, replies, p);
    let early = p.firewall_at(options);
    lemma_chosen(
        options,
        p.user(),
        p.distro(options, replies),
        replies,
        early,
        early + BEFORE_CHOICE,
        false,
        p.choice_at(options),
        p.custom,
    );
}

/// Under [`Policy::FailFast`] the first task that failed ends what follows
/// the tasks: no further task is asked for, and the exit code is the status
/// of that task.
pub proof fn lemma_fail_fast_concludes(
    options: Options,
    user: UserCfgView,
    distro: Seq<char>,
    packages: Seq<Seq<char>>,
    statuses: Seq<i8>,
    failed: int,
)
    requires
        options.policy == Policy::FailFast,
        is_first_failure(statuses, failed),
    ensures
        conclude(options, user, distro, packages, statuses) == RequestView::Exit(
            EndingView::Finished {
                code: statuses[failed] as i32,
                failed: recorded(user.name, statuses).filter(failing()),
            },
        ),
{
    assert(!all_succeeded(statuses));
    lemma_first_failure_exists(statuses);
    lemma_first_failure_unique(statuses, failed, first_failure(statuses));
}

/// Under [`Policy::FailFast`] a run ends with the first task that fails,
/// whether before or after the choice of software: it asks for nothing
/// more, and its exit code is the status of that task.
pub proof fn lemma_fail_fast_run(
    options: Options,
    replies: Seq<ReplyView>,
    p: Preliminaries,
    failed: int,
)
    requires
        options.policy == Policy::FailFast,
        identified(options, replies, p),
        is_first_failure(
            reported(
                replies,
                p.firewall_at(options),
                taken(replies, p.firewall_at(options), BEFORE_CHOICE as int),
            ),
            failed,
        ) || (answered(options, replies, p) && is_first_failure(
            p.statuses(options, replies),
            failed,
        )),
    ensures
        run_next(options, replies) matches RequestView::Exit(ending) && ending.code()
            == replies[if failed < BEFORE_CHOICE {
            p.firewall_at(options) + failed
        } else {
            p.tasks_at(options) + failed - BEFORE_CHOICE
        }].status() as i32,
{
    let early = p.firewall_at(options);
    let first = reported(replies, early, taken(replies, early, BEFORE_CHOICE as int));
    if is_first_failure(first, failed) {
        assert(!all_succeeded(first));
        lemma_first_failure_exists(first);
        lemma_first_failure_unique(first, failed, first_failure(first));
        if replies.len() >= early + BEFORE_CHOICE {
            assert(first =~= reported(replies, early, BEFORE_CHOICE as int));
        }
        lemma_run_before_choice(options, replies, p);
        lemma_fail_fast_concludes(
            options,
            p.user(),
            p.distro(options, replies),
            Seq::empty(),
            first,
            failed,
        );
    } else {
        let all = p.statuses(options, replies);
        let both = reported(replies, early, BEFORE_CHOICE as int);
        if failed < BEFORE_CHOICE {
            assert(both[failed] == all[failed]);
            assert(!all_succeeded(both));
        }
        lemma_run_at_tasks(options, replies, p);
        lemma_fail_fast_concludes(
            options,
            p.user(),
            p.distro(options, replies),
            p.packages(options, replies),
            all,
            failed,
        );
    }
}

/// Under [`Policy::CollectAll`] a run goes through the whole plan: as long
/// as a task is left it asks for the next one in order, whatever failed
/// before; with all tasks performed it ends with `0` where none failed and
/// with [`FAILED_RUN`] where any did, and reports the tasks that failed.
pub proof fn lemma_collect_all_run(options: Options, replies: Seq<ReplyView>, p: Preliminaries)
    requires
        options.policy == Policy::CollectAll,
        answered(options, replies, p),
    ensures
        p.statuses(options, replies).len() < PLANNED ==> (run_next(
            options,
            replies,
        ) matches RequestView::Perform(job) && job.task == default_tasks()[p.statuses(
            options,
            replies,
        ).len() as int]),
        p.statuses(options, replies).len() >= PLANNED ==> run_next(options, replies)
            == RequestView::Exit(
            EndingView::Finished {
                code: if all_succeeded(p.statuses(options, replies)) {
                    0i32
                } else {
                    FAILED_RUN
                },
                failed: recorded(p.name, p.statuses(options, replies)).filter(failing()),
            },
        ),
{
    lemma_run_at_tasks(options, replies, p);
}

/// Under [`Policy::CollectAll`] a run performs the tasks before the choice
/// of software one after the other, whatever failed, and then asks for the
/// software.
pub proof fn lemma_collect_all_run_before_choice(
    options: Options,
    replies: Seq<ReplyView>,
    p: Preliminaries,
)
    requires
        options.policy == Policy::CollectAll,
        identified(options, replies, p),
        replies.len() <= p.firewall_at(options) + BEFORE_CHOICE,
    ensures
        replies.len() < p.firewall_at(options) + BEFORE_CHOICE ==> (run_next(
            options,
            replies,
        ) matches RequestView::Perform(job) && job.task == default_tasks()[replies.len()
            - p.firewall_at(options)]),
        replies.len() == p.firewall_at(options) + BEFORE_CHOICE ==> run_next(options, replies)
            == (RequestView::InstallType { again: false }),
{
    lemma_identified_run(options, replies, p);
}

/// Under [`Policy::CollectAll`] a run in which exactly one task failed ends
/// with [`FAILED_RUN`], whichever task it was, and reports that task and
/// no other.
pub proof fn lemma_single_failure_run(
    options: Options,
    replies: Seq<ReplyView>,
    p: Preliminaries,
    failed: int,
)
    requires
        options.policy == Policy::CollectAll,
        answered(options, replies, p),
        p.statuses(options, replies).len() == PLANNED,
        0 <= failed < PLANNED,
        p.statuses(options, replies)[failed] != 0,
        forall|i: int|
            0 <= i < PLANNED && i != failed ==> p.statuses(options, replies)[i] == 0,
    ensures
        run_next(options, replies) == RequestView::Exit(
            EndingView::Finished {
                code: FAILED_RUN,
                failed: seq![
                    TaskResultView {
                        status: p.statuses(options, replies)[failed],
                        message: task_label(default_tasks()[failed], p.name),
                    },
                ],
            },
        ),
{
    lemma_collect_all_run(options, replies, p);
    let statuses = p.statuses(options, replies);
    lemma_single_failure_reported(recorded(p.name, statuses), failed);
}

/// Under either policy a run in which every task succeeded ends with `0`
/// and reports no task.
pub proof fn lemma_clean_run(options: Options, replies: Seq<ReplyView>, p: Preliminaries)
    requires
        answered(options, replies, p),
        p.statuses(options, replies).len() == PLANNED,
        all_succeeded(p.statuses(options, replies)),
    ensures
        run_next(options, replies) == RequestView::Exit(
            EndingView::Finished { code: 0, failed: Seq::empty() },
        ),
{
    lemma_run_at_tasks(options, replies, p);
    lemma_no_failure_reported(recorded(p.name, p.statuses(options, replies)));
}

} // verus!
