use arroyo_boot::dispatch::admin_port;
use arroyo_boot::dispatch::dispatch;
use arroyo_boot::dispatch::needs_pool;
use arroyo_boot::dispatch::CPService;
use arroyo_boot::dispatch::ServiceKind;
use arroyo_boot::dispatch::CONTROL_PLANE_ADMIN_PORT;

#[test]
fn dispatching_the_whole_cluster_uses_exactly_one_pool() {
    // All three control-plane units receive a pool, and
    // instance-identity comparison across them finds a single pool.
    let pool_id: u64 = 7;
    let plan = dispatch(ServiceKind::All, pool_id);
    assert_eq!(plan.units.len(), 4);
    let pools: Vec<u64> = plan.units.iter().filter_map(|u| u.pool).collect();
    assert_eq!(pools.len(), 3);
    assert!(pools.iter().all(|p| *p == pool_id));
    let names: Vec<&str> = plan.units.iter().map(|u| u.name).collect();
    assert_eq!(names, vec!["admin", "api", "compiler", "controller"]);
}

#[test]
fn every_dispatch_starts_the_admin_unit_first() {
    for kind in [
        ServiceKind::Api,
        ServiceKind::Compiler,
        ServiceKind::Controller,
        ServiceKind::Worker,
        ServiceKind::Node,
        ServiceKind::All,
    ] {
        let plan = dispatch(kind, 1);
        assert_eq!(plan.units[0].name, "admin");
        assert!(plan.units[0].pool.is_none());
    }
}

#[test]
fn single_control_plane_roles_start_their_unit_with_the_pool() {
    let plan = dispatch(ServiceKind::Api, 3);
    assert_eq!(plan.units.len(), 2);
    assert_eq!(plan.units[1].name, "api");
    assert_eq!(plan.units[1].pool, Some(3));

    let plan = dispatch(ServiceKind::Controller, 9);
    assert_eq!(plan.units[1].name, "controller");
    assert_eq!(plan.units[1].pool, Some(9));

    let plan = dispatch(ServiceKind::Compiler, 5);
    assert_eq!(plan.units[1].name, "compiler");
    assert_eq!(plan.units[1].pool, Some(5));
}

#[test]
fn worker_and_node_derive_their_identity_without_a_shared_pool() {
    let plan = dispatch(ServiceKind::Worker, 11);
    assert_eq!(plan.units.len(), 2);
    assert_eq!(plan.units[1].name, "worker");
    assert!(plan.units[1].pool.is_none());
    assert!(!needs_pool(ServiceKind::Worker));

    let plan = dispatch(ServiceKind::Node, 11);
    assert_eq!(plan.units[1].name, "node");
    assert!(plan.units[1].pool.is_none());
    assert!(!needs_pool(ServiceKind::Node));
}

#[test]
fn admin_port_is_fixed_for_the_control_plane_and_ephemeral_otherwise() {
    assert_eq!(admin_port(ServiceKind::Api), CONTROL_PLANE_ADMIN_PORT);
    assert_eq!(admin_port(ServiceKind::Compiler), CONTROL_PLANE_ADMIN_PORT);
    assert_eq!(admin_port(ServiceKind::Controller), CONTROL_PLANE_ADMIN_PORT);
    assert_eq!(admin_port(ServiceKind::All), CONTROL_PLANE_ADMIN_PORT);
    assert_eq!(admin_port(ServiceKind::Worker), 0);
    assert_eq!(admin_port(ServiceKind::Node), 0);
    assert_eq!(dispatch(ServiceKind::All, 0).admin_port, CONTROL_PLANE_ADMIN_PORT);
    assert_eq!(dispatch(ServiceKind::Node, 0).admin_port, 0);
}

#[test]
fn control_plane_selections_name_themselves() {
    assert_eq!(CPService::Api.name(), "api");
    assert_eq!(CPService::Compiler.name(), "compiler");
    assert_eq!(CPService::Controller.name(), "controller");
    assert_eq!(CPService::All.name(), "cluster");
}

#[test]
fn control_plane_selections_map_to_their_kind() {
    assert_eq!(CPService::Api.kind(), ServiceKind::Api);
    assert_eq!(CPService::Compiler.kind(), ServiceKind::Compiler);
    assert_eq!(CPService::Controller.kind(), ServiceKind::Controller);
    assert_eq!(CPService::All.kind(), ServiceKind::All);
    assert!(needs_pool(CPService::All.kind()));
}
