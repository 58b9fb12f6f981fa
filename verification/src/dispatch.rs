//! Service selection and dispatch planning.
//!
//! A process runs one service role, or the whole control plane in one
//! process.  Dispatch is pure composition: given the selected kind, it
//! determines exactly which service units start, which of them share the
//! process's single connection pool, and which port the administrative
//! endpoint binds.  Every dispatch starts the admin unit; no unit ever
//! gets a pool other than the one the process built at bootstrap.

use vstd::prelude::*;

verus! {

/// Fixed admin/health endpoint port for the control-plane roles; worker
/// and node roles bind an ephemeral (OS-assigned) port instead.
pub const CONTROL_PLANE_ADMIN_PORT: u16 = 8001;

/// The closed set of service roles a process can be started as.  `All`
/// runs the api, compiler and controller units in one process, sharing
/// one connection pool.
#[derive(PartialEq, Eq, Structural, Clone, Copy, Debug)]
pub enum ServiceKind {
    Api,
    Compiler,
    Controller,
    Worker,
    Node,
    All,
}

/// The control-plane selection: which always-on service(s) this process
/// hosts.
#[derive(PartialEq, Eq, Structural, Clone, Copy, Debug)]
pub enum CPService {
    Api,
    Compiler,
    Controller,
    All,
}

impl CPService {
    /// The selection's name, as used for logging, task registration and
    /// the CLI command surface.
    pub open spec fn spec_name(&self) -> Seq<char> {
        match self {
            CPService::Api => "api"@,
            CPService::Compiler => "compiler"@,
            CPService::Controller => "controller"@,
            CPService::All => "cluster"@,
        }
    }

    /// The selection's name; `All` is the whole cluster in one process.
    pub fn name(&self) -> (r: &'static str)
        ensures
            r@ == self.spec_name(),
    {
        match self {
            CPService::Api => "api",
            CPService::Compiler => "compiler",
            CPService::Controller => "controller",
            CPService::All => "cluster",
        }
    }

    /// The service kind this selection dispatches as.
    pub fn kind(&self) -> (k: ServiceKind)
        ensures
            self is Api ==> k is Api,
            self is Compiler ==> k is Compiler,
            self is Controller ==> k is Controller,
            self is All ==> k is All,
    {
        match self {
            CPService::Api => ServiceKind::Api,
            CPService::Compiler => ServiceKind::Compiler,
            CPService::Controller => ServiceKind::Controller,
            CPService::All => ServiceKind::All,
        }
    }
}

/// A control-plane role manages cluster state and needs the shared
/// database pool; worker and node roles derive their identity from the
/// environment instead.
pub open spec fn is_control_plane(kind: ServiceKind) -> bool {
    kind is Api || kind is Compiler || kind is Controller || kind is All
}

/// Whether bootstrap must build the process's single connection pool
/// before dispatching this kind.
pub fn needs_pool(kind: ServiceKind) -> (b: bool)
    ensures
        b == is_control_plane(kind),
{
    match kind {
        ServiceKind::Api | ServiceKind::Compiler | ServiceKind::Controller | ServiceKind::All =>
            true,
        ServiceKind::Worker | ServiceKind::Node => false,
    }
}

/// The admin endpoint port for a kind: fixed for control-plane roles,
/// ephemeral (0, OS-assigned) for worker and node roles.
pub fn admin_port(kind: ServiceKind) -> (p: u16)
    ensures
        is_control_plane(kind) ==> p == CONTROL_PLANE_ADMIN_PORT,
        !is_control_plane(kind) ==> p == 0,
{
    if needs_pool(kind) {
        CONTROL_PLANE_ADMIN_PORT
    } else {
        0
    }
}

/// One service unit to start: its registration name and, if it uses the
/// shared connection pool, which pool instance it receives.
#[derive(Clone, Copy)]
pub struct UnitPlan {
    pub name: &'static str,
    pub pool: Option<u64>,
}

/// The set of tasks a dispatch starts, in registration order, and the
/// admin endpoint port.  Unit 0 is always the admin unit.
pub struct DispatchPlan {
    pub units: Vec<UnitPlan>,
    pub admin_port: u16,
}

/// Plans the dispatch of `kind`, with `pool_id` identifying the one
/// connection pool the process built at bootstrap.  Exactly the units the
/// kind implies are started, the admin unit unconditionally first; every
/// unit that uses a pool receives that same single pool — dispatch never
/// introduces another.
pub fn dispatch(kind: ServiceKind, pool_id: u64) -> (p: DispatchPlan)
    ensures
        p.admin_port == (if is_control_plane(kind) {
            CONTROL_PLANE_ADMIN_PORT as int
        } else {
            0int
        }),
        p.units@.len() >= 1,
        p.units@[0].name@ == "admin"@ && p.units@[0].pool is None,
        kind is Api ==> (p.units@.len() == 2 && p.units@[1].name@ == "api"@ && p.units@[1].pool
            == Some(pool_id)),
        kind is Compiler ==> (p.units@.len() == 2 && p.units@[1].name@ == "compiler"@
            && p.units@[1].pool == Some(pool_id)),
        kind is Controller ==> (p.units@.len() == 2 && p.units@[1].name@ == "controller"@
            && p.units@[1].pool == Some(pool_id)),
        kind is Worker ==> (p.units@.len() == 2 && p.units@[1].name@ == "worker"@
            && p.units@[1].pool is None),
        kind is Node ==> (p.units@.len() == 2 && p.units@[1].name@ == "node"@ && p.units@[1].pool
            is None),
        kind is All ==> (p.units@.len() == 4 && p.units@[1].name@ == "api"@ && p.units@[1].pool
            == Some(pool_id) && p.units@[2].name@ == "compiler"@ && p.units@[2].pool == Some(
            pool_id,
        ) && p.units@[3].name@ == "controller"@ && p.units@[3].pool == Some(pool_id)),
        // One pool per process: every unit that receives a pool receives
        // the same one, the pool built at bootstrap.
        forall|i: int|
            0 <= i < p.units@.len() && (#[trigger] p.units@[i]).pool is Some
                ==> p.units@[i].pool == Some(pool_id),
{
    let mut units: Vec<UnitPlan> = Vec::new();
    units.push(UnitPlan { name: "admin", pool: None });
    match kind {
        ServiceKind::Api => {
            units.push(UnitPlan { name: "api", pool: Some(pool_id) });
        },
        ServiceKind::Compiler => {
            units.push(UnitPlan { name: "compiler", pool: Some(pool_id) });
        },
        ServiceKind::Controller => {
            units.push(UnitPlan { name: "controller", pool: Some(pool_id) });
        },
        ServiceKind::Worker => {
            units.push(UnitPlan { name: "worker", pool: None });
        },
        ServiceKind::Node => {
            units.push(UnitPlan { name: "node", pool: None });
        },
        ServiceKind::All => {
            units.push(UnitPlan { name: "api", pool: Some(pool_id) });
            units.push(UnitPlan { name: "compiler", pool: Some(pool_id) });
            units.push(UnitPlan { name: "controller", pool: Some(pool_id) });
        },
    }
    let port = admin_port(kind);
    DispatchPlan { units, admin_port: port }
}

} // verus!
