//! The agent process: launch planning, the stdout relay filter, and the
//! send protocol with transparent restart.
//!
//! A send acquires the agent handle and inspects it. A missing handle,
//! a child observed exited, or a failed write all lead — when a restart
//! authority is available — to dropping the stale handle, one full
//! respawn, and a single retry of the same send; the retry itself runs
//! without restart authority, so a send never respawns twice. Without
//! restart authority the send fails explicitly instead. A message is
//! thus either written to a live process exactly once or the caller is
//! told it was not: it is never silently dropped and never duplicated.
//!
//! The protocol is modelled as a machine consuming the runner's
//! observations (handle state, write results, spawn results); the
//! machine's phase tells the runner what to do next, and its counters
//! carry the at-most-one-respawn discipline.

use vstd::prelude::*;
use vstd::string::{StrSliceExecFns, StringExecFns};
use crate::text::{char_is_whitespace, is_ws_char};

verus! {

/// A supervised agent process. The pipes and the child itself live with
/// the runner; the supervisor's decisions need only its identity.
#[derive(Clone, Copy, Debug, PartialEq, Eq, Structural)]
pub struct AgentHandle {
    pub pid: u32,
}

/// How a send ended.
#[derive(Clone, Copy, Debug, PartialEq, Eq, Structural)]
pub enum SendResult {
    /// The message was written and flushed to a live process; `retried`
    /// records whether that happened on the retry after a respawn.
    Delivered { retried: bool },
    /// No live agent and no restart authority to bring one up.
    NotRunning,
    /// The write failed and no restart authority was available (or the
    /// retried write failed in turn).
    WriteFailed,
    /// The respawn itself failed; the send is reported failed to its
    /// caller.
    RestartFailed,
}

/// Where a send stands.
#[derive(Clone, Copy, Debug, PartialEq, Eq, Structural)]
pub enum SendPhase {
    /// The runner must inspect the handle slot and the child's liveness.
    Inspect,
    /// The handle is believed live: write the message and flush.
    Writing,
    /// The stale handle was dropped: spawn a fresh agent process.
    Respawning,
    /// The send is over.
    Done(SendResult),
}

/// An observation the runner feeds into the machine.
#[derive(Clone, Copy, Debug, PartialEq, Eq, Structural)]
pub enum SendEvent {
    /// The handle slot is empty.
    SlotEmpty,
    /// The slot held a child that has exited; the runner drops it.
    ProcessDead,
    /// The slot holds a child that is still running.
    ProcessLive,
    /// The write and flush succeeded.
    WriteOk,
    /// The write or flush failed; the runner drops the handle.
    WriteError,
    /// The respawn succeeded and the new handle is stored.
    SpawnOk,
    /// The respawn failed; the slot stays empty.
    SpawnFailed,
}

/// Which events a phase can consume.
pub open spec fn send_event_fits(phase: SendPhase, ev: SendEvent) -> bool {
    match (phase, ev) {
        (SendPhase::Inspect, SendEvent::SlotEmpty) => true,
        (SendPhase::Inspect, SendEvent::ProcessDead) => true,
        (SendPhase::Inspect, SendEvent::ProcessLive) => true,
        (SendPhase::Writing, SendEvent::WriteOk) => true,
        (SendPhase::Writing, SendEvent::WriteError) => true,
        (SendPhase::Respawning, SendEvent::SpawnOk) => true,
        (SendPhase::Respawning, SendEvent::SpawnFailed) => true,
        _ => false,
    }
}

/// One logical send of one message, with its restart bookkeeping.
pub struct SendProtocol {
    /// Whether a restart authority accompanies this send. The retry
    /// after a respawn runs as a send of its own without one.
    pub can_restart: bool,
    /// True on the retry pass that follows the one respawn.
    pub retrying: bool,
    pub phase: SendPhase,
    /// Respawns triggered by this send.
    pub respawns: u32,
    /// Write attempts made for this send.
    pub writes: u32,
    /// Successful writes: the message is delivered at most once.
    pub deliveries: u32,
}

impl SendProtocol {
    /// The machine's invariant: one send triggers at most one respawn,
    /// writes the message at most twice (once before, once after the
    /// respawn), and delivers it at most once.
    pub open spec fn wf(self) -> bool {
        &&& self.respawns <= 1
        &&& self.writes <= 2
        &&& self.deliveries <= 1
        &&& (self.retrying ==> self.respawns == 1 && self.can_restart)
        &&& (!self.retrying ==> self.writes <= 1)
        &&& match self.phase {
            SendPhase::Inspect | SendPhase::Writing => self.deliveries == 0 && (
            if self.retrying {
                self.writes <= 1
            } else {
                self.writes == 0 && self.respawns == 0
            }),
            SendPhase::Respawning => self.deliveries == 0 && !self.retrying && self.respawns
                == 1 && self.can_restart && self.writes <= 1,
            SendPhase::Done(r) => match r {
                SendResult::Delivered { retried } => self.deliveries == 1 && retried
                    == self.retrying && self.writes >= 1 && (!retried ==> self.respawns == 0
                    && self.writes == 1),
                SendResult::NotRunning => self.deliveries == 0,
                SendResult::WriteFailed => self.deliveries == 0 && self.writes >= 1,
                SendResult::RestartFailed => self.deliveries == 0 && self.respawns == 1,
            },
        }
    }

    /// A fresh send, before the handle is inspected.
    pub open spec fn spec_new(can_restart: bool) -> SendProtocol {
        SendProtocol {
            can_restart,
            retrying: false,
            phase: SendPhase::Inspect,
            respawns: 0,
            writes: 0,
            deliveries: 0,
        }
    }

    /// The transition relation.
    pub open spec fn spec_step(m: SendProtocol, ev: SendEvent) -> SendProtocol {
        match (m.phase, ev) {
            (SendPhase::Inspect, SendEvent::SlotEmpty)
            | (SendPhase::Inspect, SendEvent::ProcessDead) => if m.can_restart && !m.retrying {
                SendProtocol {
                    phase: SendPhase::Respawning,
                    respawns: (m.respawns + 1) as u32,
                    ..m
                }
            } else {
                SendProtocol { phase: SendPhase::Done(SendResult::NotRunning), ..m }
            },
            (SendPhase::Inspect, SendEvent::ProcessLive) => SendProtocol {
                phase: SendPhase::Writing,
                ..m
            },
            (SendPhase::Writing, SendEvent::WriteOk) => SendProtocol {
                phase: SendPhase::Done(SendResult::Delivered { retried: m.retrying }),
                writes: (m.writes + 1) as u32,
                deliveries: (m.deliveries + 1) as u32,
                ..m
            },
            (SendPhase::Writing, SendEvent::WriteError) => if m.can_restart && !m.retrying {
                SendProtocol {
                    phase: SendPhase::Respawning,
                    writes: (m.writes + 1) as u32,
                    respawns: (m.respawns + 1) as u32,
                    ..m
                }
            } else {
                SendProtocol {
                    phase: SendPhase::Done(SendResult::WriteFailed),
                    writes: (m.writes + 1) as u32,
                    ..m
                }
            },
            (SendPhase::Respawning, SendEvent::SpawnOk) => SendProtocol {
                phase: SendPhase::Inspect,
                retrying: true,
                ..m
            },
            (SendPhase::Respawning, SendEvent::SpawnFailed) => SendProtocol {
                phase: SendPhase::Done(SendResult::RestartFailed),
                ..m
            },
            _ => m,
        }
    }

    /// A fresh send; `can_restart` says whether a restart authority
    /// accompanies it.
    pub fn new(can_restart: bool) -> (m: SendProtocol)
        ensures
            m == SendProtocol::spec_new(can_restart),
            m.wf(),
    {
        SendProtocol {
            can_restart,
            retrying: false,
            phase: SendPhase::Inspect,
            respawns: 0,
            writes: 0,
            deliveries: 0,
        }
    }

    /// Consumes one observation; the new phase tells the runner what to
    /// do next.
    pub fn step(&mut self, ev: SendEvent) -> (p: SendPhase)
        requires
            old(self).wf(),
            send_event_fits(old(self).phase, ev),
        ensures
            final(self).wf(),
            *final(self) == SendProtocol::spec_step(*old(self), ev),
            p == final(self).phase,
    {
        match ev {
            SendEvent::SlotEmpty | SendEvent::ProcessDead => {
                if self.can_restart && !self.retrying {
                    self.phase = SendPhase::Respawning;
                    self.respawns = self.respawns + 1;
                } else {
                    self.phase = SendPhase::Done(SendResult::NotRunning);
                }
            },
            SendEvent::ProcessLive => {
                self.phase = SendPhase::Writing;
            },
            SendEvent::WriteOk => {
                self.phase = SendPhase::Done(SendResult::Delivered { retried: self.retrying });
                self.writes = self.writes + 1;
                self.deliveries = self.deliveries + 1;
            },
            SendEvent::WriteError => {
                self.writes = self.writes + 1;
                if self.can_restart && !self.retrying {
                    self.phase = SendPhase::Respawning;
                    self.respawns = self.respawns + 1;
                } else {
                    self.phase = SendPhase::Done(SendResult::WriteFailed);
                }
            },
            SendEvent::SpawnOk => {
                self.phase = SendPhase::Inspect;
                self.retrying = true;
            },
            SendEvent::SpawnFailed => {
                self.phase = SendPhase::Done(SendResult::RestartFailed);
            },
        }
        self.phase
    }
}

/// One logical send triggers at most one respawn and delivers the
/// message at most once, whatever the environment answers: both bounds
/// are invariant under every step.
pub proof fn lemma_send_discipline(m: SendProtocol, ev: SendEvent)
    requires
        m.wf(),
        send_event_fits(m.phase, ev),
    ensures
        SendProtocol::spec_step(m, ev).wf(),
        SendProtocol::spec_step(m, ev).respawns <= 1,
        SendProtocol::spec_step(m, ev).deliveries <= 1,
{
}

/// A send that finds a dead (or missing) handle under a restart
/// authority performs exactly one respawn followed by exactly one
/// retried write, and delivers the message exactly once.
pub proof fn lemma_dead_handle_respawn_and_retry(dead: SendEvent)
    requires
        dead == SendEvent::SlotEmpty || dead == SendEvent::ProcessDead,
    ensures
        ({
            let m0 = SendProtocol::spec_new(true);
            let m1 = SendProtocol::spec_step(m0, dead);
            let m2 = SendProtocol::spec_step(m1, SendEvent::SpawnOk);
            let m3 = SendProtocol::spec_step(m2, SendEvent::ProcessLive);
            let m4 = SendProtocol::spec_step(m3, SendEvent::WriteOk);
            &&& m1.phase == SendPhase::Respawning
            &&& m2.phase == SendPhase::Inspect && m2.retrying
            &&& m3.phase == SendPhase::Writing
            &&& m4.phase == SendPhase::Done(SendResult::Delivered { retried: true })
            &&& m4.respawns == 1
            &&& m4.writes == 1
            &&& m4.deliveries == 1
        }),
{
}

/// Without a restart authority, a dead or missing handle fails the send
/// explicitly and nothing is respawned.
pub proof fn lemma_no_authority_fails_explicitly(dead: SendEvent)
    requires
        dead == SendEvent::SlotEmpty || dead == SendEvent::ProcessDead,
    ensures
        ({
            let m1 = SendProtocol::spec_step(SendProtocol::spec_new(false), dead);
            m1.phase == SendPhase::Done(SendResult::NotRunning) && m1.respawns == 0
        }),
{
}

/// A delivered send wrote the message to a live process exactly once:
/// whatever path led there, it was neither lost nor duplicated.
pub proof fn lemma_delivered_exactly_once(m: SendProtocol, retried: bool)
    requires
        m.wf(),
        m.phase == SendPhase::Done(SendResult::Delivered { retried }),
    ensures
        m.deliveries == 1,
        m.respawns <= 1,
{
}

/// The characters ending a script name run through the TypeScript
/// runner.
pub open spec fn ends_in_ts(s: Seq<char>) -> bool {
    s.len() >= 3 && s[s.len() - 3] == '.' && s[s.len() - 2] == 't' && s[s.len() - 1] == 's'
}

/// How the agent process is to be launched: the program to invoke and
/// the script handed to it.
#[derive(Clone, Debug, PartialEq, Eq)]
pub struct AgentLaunchPlan {
    /// The program invoked: the TypeScript runner for a `.ts` script,
    /// the configured interpreter otherwise.
    pub runner: String,
    /// The script the agent runs from.
    pub script: String,
    /// Whether the script goes through the TypeScript runner.
    pub uses_script_runner: bool,
}

/// Resolves how to launch the agent from the environment overrides and
/// the development checkout, if one was found. The script is the
/// override, else the development script, else the packaged build
/// artifact; a TypeScript script selects the script runner (the
/// override or its default), anything else the configured interpreter
/// (the override or its default).
pub fn plan_agent_launch(
    env_path: Option<String>,
    env_script: Option<String>,
    env_runner: Option<String>,
    dev_script: Option<String>,
) -> (p: AgentLaunchPlan)
    ensures
        p.script@ == (match env_script {
            Option::Some(s) => s@,
            Option::None => match dev_script {
                Option::Some(d) => d@,
                Option::None => "../agent/dist/index.js"@,
            },
        }),
        p.uses_script_runner == ends_in_ts(p.script@),
        p.uses_script_runner ==> p.runner@ == (match env_runner {
            Option::Some(r) => r@,
            Option::None => "npx"@,
        }),
        !p.uses_script_runner ==> p.runner@ == (match env_path {
            Option::Some(a) => a@,
            Option::None => "node"@,
        }),
{
    let script = match env_script {
        Option::Some(s) => s,
        Option::None => match dev_script {
            Option::Some(d) => d,
            Option::None => String::from_str("../agent/dist/index.js"),
        },
    };
    let n = script.as_str().unicode_len();
    let uses_script_runner = if n >= 3 {
        let c1 = script.as_str().get_char(n - 3);
        let c2 = script.as_str().get_char(n - 2);
        let c3 = script.as_str().get_char(n - 1);
        c1 == '.' && c2 == 't' && c3 == 's'
    } else {
        false
    };
    let runner = if uses_script_runner {
        match env_runner {
            Option::Some(r) => r,
            Option::None => String::from_str("npx"),
        }
    } else {
        match env_path {
            Option::Some(a) => a,
            Option::None => String::from_str("node"),
        }
    };
    AgentLaunchPlan { runner, script, uses_script_runner }
}

/// A line the relay forwards: after discarding leading whitespace it
/// starts with `'{'`. Everything else — blank lines, runtime banners —
/// is noise and is dropped without being treated as an error.
pub open spec fn spec_protocol_line(s: Seq<char>) -> bool
    decreases s.len(),
{
    if s.len() == 0 {
        false
    } else if is_ws_char(s[0]) {
        spec_protocol_line(s.drop_first())
    } else {
        s[0] == '{'
    }
}

/// Whether a line read from the agent's stdout is forwarded to the
/// interface.
pub fn is_protocol_line(line: &str) -> (r: bool)
    ensures
        r == spec_protocol_line(line@),
{
    let n = line.unicode_len();
    let mut i: usize = 0;
    proof {
        assert(line@.skip(0) =~= line@);
    }
    while i < n
        invariant
            0 <= i <= n,
            n == line@.len(),
            spec_protocol_line(line@) == spec_protocol_line(line@.skip(i as int)),
        decreases n - i,
    {
        let c = line.get_char(i);
        proof {
            assert(line@.skip(i as int)[0] == line@[i as int]);
        }
        if char_is_whitespace(c) {
            proof {
                assert(line@.skip(i as int).drop_first() =~= line@.skip(i + 1));
            }
            i = i + 1;
        } else {
            return c == '{';
        }
    }
    proof {
        assert(line@.skip(n as int) =~= Seq::<char>::empty());
    }
    false
}

} // verus!
