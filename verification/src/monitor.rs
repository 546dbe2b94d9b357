//! Periodic gateway health monitoring.
//!
//! A background thread wakes on a fixed period, probes the gateway's
//! health endpoint, and keeps a consecutive-failure counter. Any
//! successful probe resets the counter; once three probes in a row have
//! failed, a restart of the gateway is attempted. Completing an attempt
//! — whether the respawn succeeded or failed — starts a fresh count, so
//! the next attempt again needs three consecutive failures; an attempt
//! skipped because the handle's guard was busy leaves the count alone
//! and is retried the next interval. Shutdown is cooperative: a one-way
//! flag observed once per interval.
//!
//! The thread itself, the sleeps and the HTTP probe live in the runner;
//! this module holds the monitor's state and its exact transitions,
//! together with the status events it emits.

use vstd::prelude::*;

verus! {

/// Consecutive probe failures needed before a restart is attempted.
pub const RESTART_THRESHOLD: u32 = 3;

/// A status event emitted towards the interface after a probe or a
/// restart attempt.
#[derive(Clone, Copy, Debug, PartialEq, Eq, Structural)]
pub struct StatusEvent {
    /// Whether the gateway is believed to be running.
    pub running: bool,
    /// Probe outcome, when the event reports a probe.
    pub healthy: Option<bool>,
    /// The running consecutive-failure count, reported on failures.
    pub failures: Option<u32>,
    /// Whether the supervisor owns the gateway process, when known.
    pub managed: Option<bool>,
    /// Whether this event reports a completed restart.
    pub restarted: bool,
}

/// What the monitor asks of the runner after consuming a probe result.
#[derive(Clone, Copy, Debug, PartialEq, Eq, Structural)]
pub struct ProbeOutcome {
    /// The status event to emit.
    pub status: StatusEvent,
    /// Whether the runner should now attempt a gateway restart.
    pub attempt_restart: bool,
}

/// How a requested restart attempt went.
#[derive(Clone, Copy, Debug, PartialEq, Eq, Structural)]
pub enum RestartOutcome {
    /// The old handle was torn down and a new gateway is in place;
    /// `managed` records whether the new one was spawned by us.
    Replaced { managed: bool },
    /// The attempt completed but the respawn failed; the gateway stays
    /// absent.
    SpawnFailed,
    /// The handle's guard was busy; the attempt was skipped entirely.
    Skipped,
}

/// The health monitor's state: the consecutive-failure counter and the
/// one-way shutdown switch.
pub struct HealthMonitor {
    pub consecutive_failures: u32,
    pub stopped: bool,
}

/// The counter after one more probe: reset on success, one higher
/// (saturating) on failure.
pub open spec fn spec_failures_after(failures: u32, probe_ok: bool) -> u32 {
    if probe_ok {
        0
    } else if failures == u32::MAX {
        failures
    } else {
        (failures + 1) as u32
    }
}

/// The consecutive-failure count a probe history ends with: the length
/// of the failed streak since the last success.
pub open spec fn spec_streak(probes: Seq<bool>) -> nat
    decreases probes.len(),
{
    if probes.len() == 0 {
        0
    } else if probes.last() {
        0
    } else {
        spec_streak(probes.drop_last()) + 1
    }
}

impl HealthMonitor {
    /// A monitor that has seen no failures and is running.
    pub fn new() -> (m: HealthMonitor)
        ensures
            m.consecutive_failures == 0,
            !m.stopped,
    {
        HealthMonitor { consecutive_failures: 0, stopped: false }
    }

    /// Observes the shutdown flag at the top of an interval. The switch
    /// is one-way: once stopped, the monitor stays stopped.
    pub fn observe_shutdown(&mut self, shutdown_requested: bool) -> (stop: bool)
        ensures
            final(self).stopped == (old(self).stopped || shutdown_requested),
            final(self).consecutive_failures == old(self).consecutive_failures,
            stop == final(self).stopped,
    {
        if shutdown_requested {
            self.stopped = true;
        }
        self.stopped
    }

    /// Consumes one probe result: a success resets the counter and
    /// reports a healthy gateway; a failure raises the counter, reports
    /// it, and asks for a restart exactly when the counter has reached
    /// the threshold.
    pub fn record_probe(&mut self, probe_ok: bool) -> (o: ProbeOutcome)
        requires
            !old(self).stopped,
        ensures
            final(self).stopped == old(self).stopped,
            final(self).consecutive_failures
                == spec_failures_after(old(self).consecutive_failures, probe_ok),
            probe_ok ==> o == (ProbeOutcome {
                status: StatusEvent {
                    running: true,
                    healthy: Some(true),
                    failures: None::<u32>,
                    managed: None::<bool>,
                    restarted: false,
                },
                attempt_restart: false,
            }),
            !probe_ok ==> o == (ProbeOutcome {
                status: StatusEvent {
                    running: false,
                    healthy: Some(false),
                    failures: Some(final(self).consecutive_failures),
                    managed: None::<bool>,
                    restarted: false,
                },
                attempt_restart: final(self).consecutive_failures >= RESTART_THRESHOLD,
            }),
    {
        if probe_ok {
            self.consecutive_failures = 0;
            ProbeOutcome {
                status: StatusEvent {
                    running: true,
                    healthy: Some(true),
                    failures: None,
                    managed: None,
                    restarted: false,
                },
                attempt_restart: false,
            }
        } else {
            if self.consecutive_failures < u32::MAX {
                self.consecutive_failures = self.consecutive_failures + 1;
            }
            ProbeOutcome {
                status: StatusEvent {
                    running: false,
                    healthy: Some(false),
                    failures: Some(self.consecutive_failures),
                    managed: None,
                    restarted: false,
                },
                attempt_restart: self.consecutive_failures >= RESTART_THRESHOLD,
            }
        }
    }

    /// Records how a requested restart attempt went. A completed attempt
    /// — replaced handle or failed respawn — starts a fresh count; a
    /// skipped attempt leaves the count alone so the next interval
    /// retries. Only a successful replacement emits a status event.
    pub fn record_restart(&mut self, outcome: RestartOutcome) -> (st: Option<StatusEvent>)
        requires
            !old(self).stopped,
        ensures
            final(self).stopped == old(self).stopped,
            match outcome {
                RestartOutcome::Replaced { managed } => final(self).consecutive_failures == 0
                    && st == Some(StatusEvent {
                    running: true,
                    healthy: None::<bool>,
                    failures: None::<u32>,
                    managed: Some(managed),
                    restarted: true,
                }),
                RestartOutcome::SpawnFailed => final(self).consecutive_failures == 0
                    && st is None,
                RestartOutcome::Skipped => final(self).consecutive_failures
                    == old(self).consecutive_failures && st is None,
            },
    {
        match outcome {
            RestartOutcome::Replaced { managed } => {
                self.consecutive_failures = 0;
                Some(StatusEvent {
                    running: true,
                    healthy: None,
                    failures: None,
                    managed: Some(managed),
                    restarted: true,
                })
            },
            RestartOutcome::SpawnFailed => {
                self.consecutive_failures = 0;
                None
            },
            RestartOutcome::Skipped => None,
        }
    }
}

/// The status event announced at startup, once the gateway is (or is
/// not) in place.
pub fn startup_status(running: bool, managed: bool) -> (st: StatusEvent)
    ensures
        st == (StatusEvent {
            running: running,
            healthy: None::<bool>,
            failures: None::<u32>,
            managed: Some(managed),
            restarted: false,
        }),
{
    StatusEvent { running, healthy: None, failures: None, managed: Some(managed), restarted: false }
}

/// Running the counter over a probe history from zero yields the length
/// of the trailing failed streak: the counter resets on any success and
/// counts only consecutive failures.
pub proof fn lemma_counter_is_failed_streak(probes: Seq<bool>)
    requires
        probes.len() <= u32::MAX,
    ensures
        probes.fold_left(0u32, |f: u32, ok: bool| spec_failures_after(f, ok))
            == spec_streak(probes),
    decreases probes.len(),
{
    if probes.len() > 0 {
        lemma_counter_is_failed_streak(probes.drop_last());
        assert(spec_streak(probes.drop_last()) <= probes.drop_last().len()) by {
            lemma_streak_bounded(probes.drop_last());
        }
    }
}

/// The failed streak never exceeds the history's length.
pub proof fn lemma_streak_bounded(probes: Seq<bool>)
    ensures
        spec_streak(probes) <= probes.len(),
    decreases probes.len(),
{
    if probes.len() > 0 {
        lemma_streak_bounded(probes.drop_last());
    }
}

/// The restart threshold is reached exactly when the last three probes
/// all failed — never after fewer consecutive failures.
pub proof fn lemma_threshold_needs_three_failures(probes: Seq<bool>)
    ensures
        spec_streak(probes) >= RESTART_THRESHOLD <==> probes.len() >= 3 && !probes[probes.len()
            - 1] && !probes[probes.len() - 2] && !probes[probes.len() - 3],
{
    if probes.len() >= 1 && !probes.last() {
        if probes.len() >= 2 && !probes[probes.len() - 2] {
            assert(spec_streak(probes.drop_last())
                == spec_streak(probes.drop_last().drop_last()) + 1);
            assert(probes.drop_last().drop_last() =~= probes.take(probes.len() - 2));
        }
    }
}

} // verus!
