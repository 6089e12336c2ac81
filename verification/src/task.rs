//! The results of the tasks of a run, and the two policies by which a run
//! goes on or ends.

use vstd::prelude::*;

verus! {

/// The outcome of one task: its status, `0` for success, and the label under
/// which it is reported.
#[derive(Debug, Clone, PartialEq, Eq)]
pub struct TaskResult {
    pub status: i8,
    pub message: String,
}

/// Mathematical value of a [`TaskResult`].
pub struct TaskResultView {
    pub status: i8,
    pub message: Seq<char>,
}

impl View for TaskResult {
    type V = TaskResultView;

    open spec fn view(&self) -> TaskResultView {
        TaskResultView { status: self.status, message: self.message@ }
    }
}

/// The values of the results of a run, in order.
pub open spec fn results(tasks: Seq<TaskResult>) -> Seq<TaskResultView> {
    Seq::new(tasks.len(), |i: int| tasks[i]@)
}

/// The statuses of the results of a run, in order.
pub open spec fn statuses(tasks: Seq<TaskResult>) -> Seq<i8> {
    Seq::new(tasks.len(), |i: int| tasks[i].status)
}

/// How a run deals with a task that failed.
#[derive(Debug, Clone, Copy, PartialEq, Eq, Structural)]
pub enum Policy {
    /// End the run at once, with the status of the task as exit code.
    FailFast,
    /// Perform every task, then report all that failed.
    CollectAll,
}

/// What a run does next.
#[derive(Debug, Clone, Copy, PartialEq, Eq, Structural)]
pub enum Progress {
    /// Perform the task at this index of the plan.
    Perform(usize),
    /// End the process with this exit code.
    Exit(i32),
}

/// The exit code of a run under [`Policy::CollectAll`] in which one task or
/// more failed.
pub const FAILED_RUN: i32 = 1;

/// Every status is `0`.
pub open spec fn all_succeeded(statuses: Seq<i8>) -> bool {
    forall|i: int| 0 <= i < statuses.len() ==> statuses[i] == 0
}

/// `at` is the index of the first status that is not `0`.
pub open spec fn is_first_failure(statuses: Seq<i8>, at: int) -> bool {
    &&& 0 <= at < statuses.len()
    &&& statuses[at] != 0
    &&& forall|i: int| 0 <= i < at ==> statuses[i] == 0
}

/// The index of the first status that is not `0`, where there is one.
pub open spec fn first_failure(statuses: Seq<i8>) -> int {
    choose|at: int| is_first_failure(statuses, at)
}

/// The predicate of a result that reports failure.
pub open spec fn failing() -> spec_fn(TaskResultView) -> bool {
    |task: TaskResultView| task.status != 0
}

/// What a run of `planned` tasks does next, once the tasks before have ended
/// with `statuses`.
///
/// Under [`Policy::FailFast`] a recorded failure ends the run with the first
/// failing status as exit code. Under [`Policy::CollectAll`] the run goes
/// through the whole plan and then ends with `0` or [`FAILED_RUN`].
pub open spec fn pipeline(policy: Policy, planned: nat, statuses: Seq<i8>) -> Progress {
    match policy {
        Policy::FailFast => if !all_succeeded(statuses) {
            Progress::Exit(statuses[first_failure(statuses)] as i32)
        } else if statuses.len() < planned {
            Progress::Perform(statuses.len() as usize)
        } else {
            Progress::Exit(0)
        },
        Policy::CollectAll => if statuses.len() < planned {
            Progress::Perform(statuses.len() as usize)
        } else if all_succeeded(statuses) {
            Progress::Exit(0)
        } else {
            Progress::Exit(FAILED_RUN)
        },
    }
}

/// A sequence that holds a status other than `0` has a first one.
pub proof fn lemma_first_failure_exists(statuses: Seq<i8>)
    requires
        !all_succeeded(statuses),
    ensures
        is_first_failure(statuses, first_failure(statuses)),
    decreases statuses.len(),
{
    let bad = choose|i: int| 0 <= i < statuses.len() && statuses[i] != 0;
    let before = statuses.take(bad);
    if all_succeeded(before) {
        assert forall|i: int| 0 <= i < bad implies statuses[i] == 0 by {
            assert(before[i] == statuses[i]);
        }
        assert(is_first_failure(statuses, bad));
    } else {
        lemma_first_failure_exists(before);
        let at = first_failure(before);
        assert(before[at] == statuses[at]);
        assert forall|i: int| 0 <= i < at implies statuses[i] == 0 by {
            assert(before[i] == statuses[i]);
        }
        assert(is_first_failure(statuses, at));
    }
}

/// The first failure is unique.
pub proof fn lemma_first_failure_unique(statuses: Seq<i8>, a: int, b: int)
    requires
        is_first_failure(statuses, a),
        is_first_failure(statuses, b),
    ensures
        a == b,
{
}

/// The check after one task under [`Policy::FailFast`]: `None` to go on, or
/// the exit code with which the process ends, which is the status itself.
pub fn validate_task_status(status: i8) -> (exit: Option<i32>)
    ensures
        status == 0 ==> exit is None,
        status != 0 ==> exit == Some(status as i32),
{
    if status != 0 {
        Some(status as i32)
    } else {
        None
    }
}

/// Whether every task succeeded.
pub fn validate_task_statuses(tasks: &[TaskResult]) -> (ok: bool)
    ensures
        ok == all_succeeded(statuses(tasks@)),
{
    let mut i: usize = 0;
    while i < tasks.len()
        invariant
            i <= tasks.len(),
            forall|j: int| 0 <= j < i ==> statuses(tasks@)[j] == 0,
        decreases tasks.len() - i,
    {
        if tasks[i].status != 0 {
            assert(statuses(tasks@)[i as int] != 0);
            return false;
        }
        i = i + 1;
    }
    true
}

/// The tasks that failed, in the order in which they were performed.
pub fn failed_tasks(tasks: &[TaskResult]) -> (failed: Vec<TaskResult>)
    ensures
        results(failed@) == results(tasks@).filter(failing()),
{
    let mut failed: Vec<TaskResult> = Vec::new();
    let mut i: usize = 0;
    proof {
        reveal(Seq::filter);
        assert(results(tasks@).take(0) =~= Seq::<TaskResultView>::empty());
        assert(results(failed@) =~= Seq::<TaskResultView>::empty());
    }
    while i < tasks.len()
        invariant
            i <= tasks.len(),
            results(failed@) == results(tasks@).take(i as int).filter(failing()),
        decreases tasks.len() - i,
    {
        let ghost before = results(tasks@).take(i as int);
        let ghost kept = results(failed@);
        proof {
            before.lemma_filter_push(tasks@[i as int]@, failing());
            assert(results(tasks@).take(i + 1) =~= before.push(tasks@[i as int]@));
        }
        if tasks[i].status != 0 {
            failed.push(TaskResult { status: tasks[i].status, message: tasks[i].message.clone() });
            assert(results(failed@) =~= kept.push(tasks@[i as int]@));
        }
        i = i + 1;
    }
    assert(results(tasks@).take(tasks.len() as int) =~= results(tasks@));
    failed
}

/// What a run of `planned` tasks does next under `policy`, given the results
/// of the tasks performed so far.
pub fn next_task(policy: Policy, planned: usize, done: &[TaskResult]) -> (progress: Progress)
    ensures
        progress == pipeline(policy, planned as nat, statuses(done@)),
{
    let ghost recorded = statuses(done@);
    match policy {
        Policy::FailFast => {
            let mut i: usize = 0;
            while i < done.len()
                invariant
                    i <= done.len(),
                    policy == Policy::FailFast,
                    recorded == statuses(done@),
                    forall|j: int| 0 <= j < i ==> recorded[j] == 0,
                decreases done.len() - i,
            {
                match validate_task_status(done[i].status) {
                    Some(code) => {
                        proof {
                            assert(recorded[i as int] == done@[i as int].status);
                            assert(!all_succeeded(recorded));
                            assert(is_first_failure(recorded, i as int));
                            lemma_first_failure_exists(recorded);
                            lemma_first_failure_unique(
                                recorded,
                                i as int,
                                first_failure(recorded),
                            );
                        }
                        return Progress::Exit(code);
                    },
                    None => {},
                }
                i = i + 1;
            }
            if done.len() < planned {
                Progress::Perform(done.len())
            } else {
                Progress::Exit(0)
            }
        },
        Policy::CollectAll => {
            if done.len() < planned {
                Progress::Perform(done.len())
            } else if validate_task_statuses(done) {
                Progress::Exit(0)
            } else {
                Progress::Exit(FAILED_RUN)
            }
        },
    }
}

/// The course of a run in which the task at index `i`, where it is
/// performed, ends with status `outcomes[i]`: the statuses recorded when the
/// run ends, and its exit code. `done` tasks have been performed already.
pub open spec fn course(policy: Policy, planned: nat, outcomes: Seq<i8>, done: nat) -> (
    Seq<i8>,
    i32,
)
    recommends
        done <= planned <= outcomes.len(),
    decreases planned - done,
{
    match pipeline(policy, planned, outcomes.take(done as int)) {
        Progress::Exit(code) => (outcomes.take(done as int), code),
        Progress::Perform(_) => if done < planned {
            course(policy, planned, outcomes, done + 1)
        } else {
            (outcomes.take(done as int), 0)
        },
    }
}

proof fn lemma_fail_fast_from(planned: nat, outcomes: Seq<i8>, failed: int, done: nat)
    requires
        planned <= outcomes.len(),
        failed < planned,
        is_first_failure(outcomes, failed),
        done <= failed + 1,
    ensures
        course(Policy::FailFast, planned, outcomes, done) == (
            outcomes.take(failed + 1),
            outcomes[failed] as i32,
        ),
    decreases failed + 1 - done,
{
    let recorded = outcomes.take(done as int);
    if done <= failed {
        assert(all_succeeded(recorded)) by {
            assert forall|i: int| 0 <= i < recorded.len() implies recorded[i] == 0 by {
                assert(recorded[i] == outcomes[i]);
            }
        }
        lemma_fail_fast_from(planned, outcomes, failed, done + 1);
    } else {
        assert(recorded[failed] == outcomes[failed]);
        assert(is_first_failure(recorded, failed)) by {
            assert forall|i: int| 0 <= i < failed implies recorded[i] == 0 by {
                assert(recorded[i] == outcomes[i]);
            }
        }
        assert(!all_succeeded(recorded));
        lemma_first_failure_exists(recorded);
        lemma_first_failure_unique(recorded, failed, first_failure(recorded));
    }
}

/// Under [`Policy::FailFast`] a run ends with the first task that fails: no
/// task after it is performed, and the exit code is the status of that task.
pub proof fn lemma_fail_fast_course(planned: nat, outcomes: Seq<i8>, failed: int)
    requires
        planned <= outcomes.len(),
        failed < planned,
        is_first_failure(outcomes, failed),
    ensures
        course(Policy::FailFast, planned, outcomes, 0) == (
            outcomes.take(failed + 1),
            outcomes[failed] as i32,
        ),
{
    lemma_fail_fast_from(planned, outcomes, failed, 0);
}

proof fn lemma_collect_all_from(planned: nat, outcomes: Seq<i8>, done: nat)
    requires
        done <= planned <= outcomes.len(),
    ensures
        course(Policy::CollectAll, planned, outcomes, done) == (
            outcomes.take(planned as int),
            if all_succeeded(outcomes.take(planned as int)) {
                0i32
            } else {
                FAILED_RUN
            },
        ),
    decreases planned - done,
{
    if done < planned {
        lemma_collect_all_from(planned, outcomes, done + 1);
    }
}

/// Under [`Policy::CollectAll`] a run performs every task of the plan,
/// whatever failed before, and ends with `0` where all succeeded and with
/// [`FAILED_RUN`] where one or more failed.
pub proof fn lemma_collect_all_course(planned: nat, outcomes: Seq<i8>)
    requires
        planned <= outcomes.len(),
    ensures
        course(Policy::CollectAll, planned, outcomes, 0) == (
            outcomes.take(planned as int),
            if all_succeeded(outcomes.take(planned as int)) {
                0i32
            } else {
                FAILED_RUN
            },
        ),
{
    lemma_collect_all_from(planned, outcomes, 0);
}

proof fn lemma_clean_from(policy: Policy, planned: nat, outcomes: Seq<i8>, done: nat)
    requires
        done <= planned <= outcomes.len(),
        all_succeeded(outcomes.take(planned as int)),
    ensures
        course(policy, planned, outcomes, done) == (outcomes.take(planned as int), 0i32),
    decreases planned - done,
{
    let recorded = outcomes.take(done as int);
    assert(all_succeeded(recorded)) by {
        assert forall|i: int| 0 <= i < recorded.len() implies recorded[i] == 0 by {
            assert(recorded[i] == outcomes.take(planned as int)[i]);
        }
    }
    if done < planned {
        lemma_clean_from(policy, planned, outcomes, done + 1);
    }
}

/// Under either policy a run in which every task succeeds performs the
/// whole plan and exits with `0`.
pub proof fn lemma_clean_course(policy: Policy, planned: nat, outcomes: Seq<i8>)
    requires
        planned <= outcomes.len(),
        all_succeeded(outcomes.take(planned as int)),
    ensures
        course(policy, planned, outcomes, 0) == (outcomes.take(planned as int), 0i32),
{
    lemma_clean_from(policy, planned, outcomes, 0);
}

/// Where no task failed, none is reported.
pub proof fn lemma_no_failure_reported(tasks: Seq<TaskResultView>)
    requires
        forall|i: int| 0 <= i < tasks.len() ==> tasks[i].status == 0,
    ensures
        tasks.filter(failing()) == Seq::<TaskResultView>::empty(),
    decreases tasks.len(),
{
    reveal(Seq::filter);
    if tasks.len() > 0 {
        lemma_no_failure_reported(tasks.drop_last());
    }
}

/// Where exactly one task failed, the list of failed tasks holds that task
/// and nothing else.
pub proof fn lemma_single_failure_reported(tasks: Seq<TaskResultView>, failed: int)
    requires
        0 <= failed < tasks.len(),
        tasks[failed].status != 0,
        forall|i: int| 0 <= i < tasks.len() && i != failed ==> tasks[i].status == 0,
    ensures
        tasks.filter(failing()) == seq![tasks[failed]],
    decreases tasks.len(),
{
    reveal(Seq::filter);
    let front = tasks.drop_last();
    if failed == tasks.len() - 1 {
        lemma_no_failure_reported(front);
        assert(tasks.filter(failing()) =~= seq![tasks[failed]]);
    } else {
        lemma_single_failure_reported(front, failed);
    }
}

} // verus!
