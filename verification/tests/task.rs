use glwiz::task::{
    failed_tasks, next_task, validate_task_status, validate_task_statuses, Policy, Progress,
    TaskResult, FAILED_RUN,
};

fn task(status: i8, message: &str) -> TaskResult {
    TaskResult { status, message: message.to_string() }
}

fn run(policy: Policy, outcomes: &[(i8, &str)]) -> (Vec<TaskResult>, i32) {
    let mut done: Vec<TaskResult> = Vec::new();
    loop {
        match next_task(policy, outcomes.len(), &done) {
            Progress::Perform(index) => {
                assert_eq!(index, done.len());
                done.push(task(outcomes[index].0, outcomes[index].1));
            }
            Progress::Exit(code) => return (done, code),
        }
    }
}

#[test]
fn task_result_holds_status_and_message() {
    let result = task(0, "Software installation");
    assert_eq!(result.status, 0);
    assert_eq!(result.message, "Software installation");
}

#[test]
fn validate_task_status_lets_success_pass() {
    assert_eq!(validate_task_status(0), None);
}

#[test]
fn validate_task_status_exits_with_the_status_itself() {
    assert_eq!(validate_task_status(1), Some(1));
    assert_eq!(validate_task_status(2), Some(2));
    assert_eq!(validate_task_status(127), Some(127));
    assert_eq!(validate_task_status(-1), Some(-1));
    assert_eq!(validate_task_status(-128), Some(-128));
}

#[test]
fn validate_task_statuses_wants_every_status_zero() {
    assert!(validate_task_statuses(&Vec::new()));
    assert!(validate_task_statuses(&vec![task(0, "Task 1"), task(0, "Task 2")]));
    assert!(!validate_task_statuses(&vec![task(0, "Task 1"), task(1, "Task 2")]));
    assert!(!validate_task_statuses(&vec![task(-3, "Task 1"), task(0, "Task 2")]));
}

#[test]
fn failed_tasks_keeps_the_failures_in_order() {
    let tasks = vec![task(0, "a"), task(2, "b"), task(0, "c"), task(1, "d"), task(-1, "e")];
    assert_eq!(failed_tasks(&tasks), vec![task(2, "b"), task(1, "d"), task(-1, "e")]);
    assert_eq!(failed_tasks(&vec![task(0, "a")]), Vec::new());
    assert_eq!(failed_tasks(&Vec::new()), Vec::new());
}

#[test]
fn fail_fast_never_performs_what_follows_a_failure() {
    let (done, code) = run(Policy::FailFast, &[(0, "A"), (3, "B"), (0, "C")]);
    assert_eq!(done, vec![task(0, "A"), task(3, "B")]);
    assert_eq!(code, 3);
}

#[test]
fn fail_fast_exits_with_the_first_failing_status() {
    let done = vec![task(0, "A"), task(-2, "B"), task(5, "C")];
    assert_eq!(next_task(Policy::FailFast, 3, &done), Progress::Exit(-2));
    assert_eq!(next_task(Policy::FailFast, 10, &done), Progress::Exit(-2));
    assert_eq!(next_task(Policy::FailFast, 0, &done), Progress::Exit(-2));
}

#[test]
fn fail_fast_goes_through_a_clean_run() {
    let (done, code) = run(Policy::FailFast, &[(0, "A"), (0, "B"), (0, "C")]);
    assert_eq!(done.len(), 3);
    assert_eq!(code, 0);
}

#[test]
fn collect_all_performs_every_task() {
    let (done, code) = run(Policy::CollectAll, &[(0, "A"), (3, "B"), (0, "C")]);
    assert_eq!(done, vec![task(0, "A"), task(3, "B"), task(0, "C")]);
    assert_eq!(code, FAILED_RUN);
    assert_eq!(failed_tasks(&done), vec![task(3, "B")]);
}

#[test]
fn collect_all_exits_with_the_same_code_whatever_failed() {
    assert_eq!(FAILED_RUN, 1);
    let (_, one) = run(Policy::CollectAll, &[(7, "A"), (0, "B")]);
    let (_, many) = run(Policy::CollectAll, &[(-1, "A"), (2, "B"), (100, "C")]);
    assert_eq!(one, 1);
    assert_eq!(many, 1);
}

#[test]
fn collect_all_goes_through_a_clean_run() {
    let (done, code) = run(Policy::CollectAll, &[(0, "A"), (0, "B")]);
    assert_eq!(done.len(), 2);
    assert_eq!(code, 0);
}

#[test]
fn an_empty_plan_ends_at_once() {
    assert_eq!(next_task(Policy::FailFast, 0, &Vec::new()), Progress::Exit(0));
    assert_eq!(next_task(Policy::CollectAll, 0, &Vec::new()), Progress::Exit(0));
}

#[test]
fn the_next_task_is_the_first_one_not_performed() {
    let done = vec![task(0, "A"), task(0, "B")];
    assert_eq!(next_task(Policy::FailFast, 5, &done), Progress::Perform(2));
    assert_eq!(next_task(Policy::CollectAll, 5, &done), Progress::Perform(2));
    let failed = vec![task(0, "A"), task(1, "B")];
    assert_eq!(next_task(Policy::CollectAll, 5, &failed), Progress::Perform(2));
}
