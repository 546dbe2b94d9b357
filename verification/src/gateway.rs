//! The gateway/node-host process pair and its ownership rules.
//!
//! On startup the supervisor first probes the gateway's health endpoint.
//! A healthy answer means a gateway is already running externally: the
//! supervisor attaches to it without spawning one, records that it does
//! not own it, and still tries to start the node-host companion. An
//! unhealthy answer means the supervisor spawns its own gateway, polls
//! the health endpoint for a bounded window (staying attached even if
//! the window runs out), and then starts the node host.
//!
//! The ownership flag set at that moment governs every later teardown:
//! a process the supervisor did not spawn is never killed by it. The
//! node host, which depends on the gateway, is always ours and is
//! killed first.

use vstd::prelude::*;

verus! {

/// How many health polls a freshly spawned gateway is given before the
/// supervisor stops waiting (it keeps the process either way).
pub const HEALTH_WAIT_MAX_POLLS: u32 = 10;

/// A supervised gateway process, with its optional node-host companion
/// and the record of who spawned it.
#[derive(Clone, Copy, Debug, PartialEq, Eq, Structural)]
pub struct GatewayHandle {
    /// Process id of the gateway (meaningful only when `we_spawned`).
    pub pid: u32,
    /// Process id of the node host, when one was started.
    pub node_host_pid: Option<u32>,
    /// Whether the supervisor spawned the gateway and therefore owns its
    /// termination.
    pub we_spawned: bool,
}

/// The decision taken from the startup probe: attach to an external
/// gateway, or spawn one of our own.
#[derive(Clone, Copy, Debug, PartialEq, Eq, Structural)]
pub enum GatewayPlan {
    /// The gateway answered the probe: do not spawn one; only try to
    /// start the node host.
    Attach,
    /// No gateway answered: resolve paths, spawn one, wait for health,
    /// then start the node host.
    Spawn,
}

/// An external gateway is reused exactly when the startup probe found it
/// healthy.
pub fn plan_gateway_setup(already_healthy: bool) -> (p: GatewayPlan)
    ensures
        p == if already_healthy {
            GatewayPlan::Attach
        } else {
            GatewayPlan::Spawn
        },
{
    if already_healthy {
        GatewayPlan::Attach
    } else {
        GatewayPlan::Spawn
    }
}

/// A handle attached to an externally running gateway: never ours to
/// kill.
pub fn attach_handle(node_host_pid: Option<u32>) -> (h: GatewayHandle)
    ensures
        h == (GatewayHandle { pid: 0, node_host_pid, we_spawned: false }),
{
    GatewayHandle { pid: 0, node_host_pid, we_spawned: false }
}

/// A handle owning a gateway the supervisor spawned itself.
pub fn spawned_handle(pid: u32, node_host_pid: Option<u32>) -> (h: GatewayHandle)
    ensures
        h == (GatewayHandle { pid, node_host_pid, we_spawned: true }),
{
    GatewayHandle { pid, node_host_pid, we_spawned: true }
}

/// The teardown steps for one handle, in the order the runner must take
/// them: node host first, then — only for an owned gateway — the
/// gateway itself.
#[derive(Clone, Copy, Debug, PartialEq, Eq, Structural)]
pub struct TeardownPlan {
    /// The node host to kill first, if one exists.
    pub kill_node_host: Option<u32>,
    /// The node-host PID record is always cleared.
    pub remove_node_host_record: bool,
    /// The gateway to kill, present exactly for an owned handle.
    pub kill_gateway: Option<u32>,
    /// The gateway PID record is cleared exactly when the gateway was
    /// ours.
    pub remove_gateway_record: bool,
}

/// What tearing down a handle must do.
pub open spec fn spec_teardown(h: GatewayHandle) -> TeardownPlan {
    TeardownPlan {
        kill_node_host: h.node_host_pid,
        remove_node_host_record: true,
        kill_gateway: if h.we_spawned {
            Option::Some(h.pid)
        } else {
            Option::None
        },
        remove_gateway_record: h.we_spawned,
    }
}

/// Plans the teardown of a handle.
pub fn plan_teardown(h: &GatewayHandle) -> (p: TeardownPlan)
    ensures
        p == spec_teardown(*h),
{
    TeardownPlan {
        kill_node_host: h.node_host_pid,
        remove_node_host_record: true,
        kill_gateway: if h.we_spawned {
            Some(h.pid)
        } else {
            None
        },
        remove_gateway_record: h.we_spawned,
    }
}

/// Ownership governs teardown: a handle attached to an external gateway
/// is never killed, and a handle the supervisor spawned always is.
pub proof fn lemma_ownership_governs_teardown(h: GatewayHandle)
    ensures
        spec_teardown(h).kill_gateway is Some <==> h.we_spawned,
        h.we_spawned ==> spec_teardown(h).kill_gateway == Option::Some(h.pid),
{
}

/// The bounded health wait after spawning a gateway.
pub struct HealthWait {
    /// Polls performed so far.
    pub polls: u32,
}

/// What the runner does after one poll of the freshly spawned gateway.
#[derive(Clone, Copy, Debug, PartialEq, Eq, Structural)]
pub enum WaitStep {
    /// The gateway answered; stop waiting.
    BecameHealthy,
    /// Not healthy yet; sleep one interval and poll again.
    PollAgain,
    /// The window is exhausted; keep the process and move on without
    /// treating this as fatal.
    GiveUp,
}

impl HealthWait {
    /// A wait that has not polled yet.
    pub fn new() -> (w: HealthWait)
        ensures
            w.polls == 0,
    {
        HealthWait { polls: 0 }
    }

    /// Consumes one poll result. The wait ends with the first healthy
    /// answer, or once the poll budget is spent — whichever comes first.
    pub fn record_poll(&mut self, healthy: bool) -> (s: WaitStep)
        requires
            old(self).polls < HEALTH_WAIT_MAX_POLLS,
        ensures
            final(self).polls == old(self).polls + 1,
            s == if healthy {
                WaitStep::BecameHealthy
            } else if old(self).polls + 1 == HEALTH_WAIT_MAX_POLLS {
                WaitStep::GiveUp
            } else {
                WaitStep::PollAgain
            },
    {
        self.polls = self.polls + 1;
        if healthy {
            WaitStep::BecameHealthy
        } else if self.polls == HEALTH_WAIT_MAX_POLLS {
            WaitStep::GiveUp
        } else {
            WaitStep::PollAgain
        }
    }
}

} // verus!
