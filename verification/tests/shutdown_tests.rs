use arroyo_boot::shutdown::ShutdownCoordinator;
use arroyo_boot::shutdown::ShutdownState;

#[test]
fn one_failure_cancels_all_siblings() {
    // A mock sibling observes the token before and after another task's
    // failure: unset before, set after.
    let mut coordinator = ShutdownCoordinator::new("cluster");
    let _admin = coordinator.spawn_task("admin");
    let api = coordinator.spawn_task("api");
    let _compiler = coordinator.spawn_task("compiler");

    // What a sibling polls before anything failed.
    assert!(!coordinator.cancellation_token());
    assert_eq!(coordinator.state, ShutdownState::Running);

    coordinator.fail_task(api, 12_000);

    // Every sibling now observes the cancellation.
    assert!(coordinator.cancellation_token());
    assert_eq!(coordinator.state, ShutdownState::CancelRequested);
    assert_eq!(coordinator.cancel_at, Some(12_000));
}

#[test]
fn wait_returns_within_grace_even_if_a_task_never_completes() {
    let grace: u64 = 30_000;
    let mut coordinator = ShutdownCoordinator::new("worker");
    let _stuck = coordinator.spawn_task("worker");
    coordinator.begin_wait();

    // An external signal arrives at t = 1000; the stuck task never
    // completes.
    coordinator.external_signal(1_000);

    // Before the grace period has elapsed the coordinator keeps waiting,
    // draining.
    assert!(!coordinator.wait_for_shutdown(1_000, grace));
    assert_eq!(coordinator.state, ShutdownState::Draining);
    assert!(!coordinator.wait_for_shutdown(1_000 + grace - 1, grace));

    // At exactly cancel time + grace the wait is over, task or no task.
    let mut coordinator2 = ShutdownCoordinator::new("worker");
    let _stuck2 = coordinator2.spawn_task("worker");
    coordinator2.begin_wait();
    coordinator2.external_signal(1_000);
    assert!(coordinator2.wait_for_shutdown(1_000 + grace, grace));
    assert_eq!(coordinator2.state, ShutdownState::Terminated);
}

#[test]
fn wait_ends_at_once_when_every_task_completed() {
    let mut coordinator = ShutdownCoordinator::new("api");
    let admin = coordinator.spawn_task("admin");
    let api = coordinator.spawn_task("api");
    coordinator.begin_wait();
    coordinator.complete_task(admin);
    assert!(!coordinator.wait_for_shutdown(500, 30_000));
    coordinator.complete_task(api);
    assert!(coordinator.wait_for_shutdown(600, 30_000));
    assert_eq!(coordinator.state, ShutdownState::Terminated);
}

#[test]
fn a_clean_completion_cancels_nobody() {
    let mut coordinator = ShutdownCoordinator::new("cluster");
    let admin = coordinator.spawn_task("admin");
    let _api = coordinator.spawn_task("api");
    coordinator.complete_task(admin);
    assert!(!coordinator.cancellation_token());
    assert_eq!(coordinator.state, ShutdownState::Running);
}

#[test]
fn the_earliest_cancellation_time_is_kept() {
    let mut coordinator = ShutdownCoordinator::new("cluster");
    let a = coordinator.spawn_task("api");
    let b = coordinator.spawn_task("compiler");
    coordinator.fail_task(a, 4_000);
    coordinator.fail_task(b, 9_000);
    assert_eq!(coordinator.cancel_at, Some(4_000));
    assert_eq!(coordinator.state, ShutdownState::CancelRequested);
}

#[test]
fn a_guard_participates_in_the_same_bookkeeping() {
    let grace: u64 = 10_000;
    let mut coordinator = ShutdownCoordinator::new("controller");
    let admin = coordinator.spawn_task("admin");
    let controller = coordinator.guard("controller");
    coordinator.begin_wait();
    coordinator.external_signal(0);
    // The guard's component is still running: the wait drains until the
    // grace period has elapsed.
    assert!(!coordinator.wait_for_shutdown(grace - 1, grace));
    coordinator.complete_task(admin);
    coordinator.complete_task(controller);
    // With the guard released and every task done, the wait ends before
    // the grace period is up — completion, not the timer, ended it.
    assert!(coordinator.wait_for_shutdown(grace - 1, grace));
    assert_eq!(coordinator.state, ShutdownState::Terminated);
}
