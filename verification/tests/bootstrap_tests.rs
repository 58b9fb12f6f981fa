use arroyo_boot::dispatch::dispatch;
use arroyo_boot::dispatch::CPService;
use arroyo_boot::migration::Ledger;
use arroyo_boot::migration::MigrationDef;
use arroyo_boot::shutdown::ShutdownCoordinator;
use arroyo_boot::shutdown::ShutdownState;

#[test]
fn an_api_process_with_nothing_pending_runs_until_a_signal_arrives() {
    // The ledger is fully migrated: a run applies nothing.
    let defs = vec![MigrationDef { version: 1, name: "create_tables" }];
    let mut ledger = Ledger::new();
    ledger.record_applied(1, "create_tables", 100);
    assert!(ledger.run(&defs, 200).is_empty());

    // Dispatching the api role registers the admin task and the api
    // task with the coordinator.
    let service = CPService::Api;
    let plan = dispatch(service.kind(), 1);
    let mut coordinator = ShutdownCoordinator::new(service.name());
    let mut handles = Vec::new();
    for unit in plan.units.iter() {
        handles.push(coordinator.spawn_task(unit.name));
    }
    assert_eq!(coordinator.tasks.len(), 2);
    assert_eq!(coordinator.tasks[0].name, "admin");
    assert_eq!(coordinator.tasks[1].name, "api");
    coordinator.begin_wait();

    // No failure, no signal: the process keeps running, however often
    // the wait polls.
    for now in [0u64, 10_000, 3_600_000] {
        assert!(!coordinator.wait_for_shutdown(now, 30_000));
        assert_eq!(coordinator.state, ShutdownState::Running);
    }

    // An external signal arrives; the grace period later, the wait is
    // over.
    coordinator.external_signal(3_600_000);
    assert!(!coordinator.wait_for_shutdown(3_600_000, 30_000));
    assert_eq!(coordinator.state, ShutdownState::Draining);
    assert!(coordinator.wait_for_shutdown(3_630_000, 30_000));
    assert_eq!(coordinator.state, ShutdownState::Terminated);
}
