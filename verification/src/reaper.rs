//! Orphan reaping at startup.
//!
//! A previous run of the application may have crashed and left its
//! gateway or node-host process behind, recorded in a PID file. Before a
//! new process of the same role is spawned, the old one is found through
//! its record, sent a graceful termination signal, given a grace period,
//! and escalated to a forceful signal only if it is still alive. The
//! record is removed at the end of the sequence no matter what was
//! found; an invalid record is discarded without signaling anything.
//!
//! The sequence is modelled as a small protocol machine. The runner
//! reads the file, probes `/proc`, sends the signals and sleeps; each
//! observation is fed into [`ReapProtocol::step`], whose result says
//! what to do next. The machine counts the signals it has asked for, so
//! the signal discipline is stated over it directly.

use vstd::prelude::*;
use crate::pid::{parse_pid, signal_target};
use crate::text::{is_decimal_numeral, numeral_value, trim_ascii};

verus! {

/// Relies on `std::path::Path::exists`: on this platform a process
/// exists exactly when its `/proc` entry does, checked without
/// delivering any signal. The answer depends on machine state, so
/// nothing is promised of it.
#[verifier::external_body]
fn proc_entry_exists(pid: u32) -> bool {
    std::path::Path::new(&format!("/proc/{}", pid)).exists()
}

/// Whether a process with this id is currently alive. An existence
/// check, not a signal: a dead process is never signalled at all.
pub fn is_pid_alive(pid: u32) -> bool {
    proc_entry_exists(pid)
}

/// The roles that leave PID records behind.
#[derive(Clone, Copy, Debug, PartialEq, Eq, Structural)]
pub enum ProcessRole {
    Gateway,
    NodeHost,
}

/// The file-name stem of a role's PID record.
pub fn role_record_stem(role: ProcessRole) -> (r: &'static str)
    ensures
        role == ProcessRole::Gateway ==> r@ == "gateway"@,
        role == ProcessRole::NodeHost ==> r@ == "node-host"@,
{
    match role {
        ProcessRole::Gateway => "gateway",
        ProcessRole::NodeHost => "node-host",
    }
}

/// What a PID record turned out to hold.
#[derive(Clone, Copy, Debug, PartialEq, Eq, Structural)]
pub enum RecordClass {
    /// No record exists for the role.
    Missing,
    /// A record exists but does not name a usable signal target:
    /// non-numeric, zero, negative, or too large for a signed 32-bit id.
    Invalid,
    /// A record naming a positive, representable process id.
    Target(i32),
}

/// Classification of a record's bytes: a usable target is a decimal
/// numeral whose value is positive and fits a signed 32-bit integer.
pub open spec fn spec_classify(content: Option<Seq<u8>>) -> RecordClass {
    match content {
        Option::None => RecordClass::Missing,
        Option::Some(s) => {
            let t = trim_ascii(s);
            if is_decimal_numeral(t) && 1 <= numeral_value(t) && numeral_value(t)
                <= i32::MAX as nat {
                RecordClass::Target(numeral_value(t) as i32)
            } else {
                RecordClass::Invalid
            }
        },
    }
}

/// Reads a record (or its absence) into a [`RecordClass`].
pub fn classify_record(content: &Option<Vec<u8>>) -> (c: RecordClass)
    ensures
        c == spec_classify(content.deep_view()),
{
    match content {
        Option::None => RecordClass::Missing,
        Option::Some(v) => {
            proof {
                assert(content.deep_view() == Option::Some(v.deep_view()));
                assert(v.deep_view() =~= v@);
            }
            match parse_pid(v) {
                Option::None => RecordClass::Invalid,
                Option::Some(value) => match signal_target(value) {
                    Option::None => RecordClass::Invalid,
                    Option::Some(p) => RecordClass::Target(p),
                },
            }
        },
    }
}

/// Where the reap sequence for one role stands.
#[derive(Clone, Copy, Debug, PartialEq, Eq, Structural)]
pub enum ReapPhase {
    /// The record has not been read yet.
    ReadRecord,
    /// The record named this target; its liveness is being checked.
    ProbeLiveness(i32),
    /// The graceful signal was sent; after the grace period the target's
    /// liveness is checked once more.
    GraceWait(i32),
    /// Signaling is over; the record file is to be deleted.
    RemoveRecord,
    /// Nothing is left to do for this role.
    Done,
}

/// An observation handed to the machine by the runner.
#[derive(Debug, PartialEq, Eq)]
pub enum ReapEvent {
    /// The record file's bytes, or `None` if no file exists.
    RecordContent(Option<Vec<u8>>),
    /// Whether the target process is alive.
    Observed(bool),
    /// The record file has been removed.
    Removed,
}

/// What the runner must do next.
#[derive(Clone, Copy, Debug, PartialEq, Eq, Structural)]
pub enum ReapAction {
    /// Check whether the target process exists.
    Probe(i32),
    /// Send the graceful termination signal, wait the grace period, then
    /// report the target's liveness again.
    TermThenWait(i32),
    /// Send the forceful termination signal, then remove the record.
    KillThenRemove(i32),
    /// Remove the record without signaling.
    Remove,
    /// The sequence for this role is complete.
    Finished,
}

/// The reap sequence for one role, with its signal bookkeeping.
pub struct ReapProtocol {
    pub phase: ReapPhase,
    /// Graceful signals the machine has asked for.
    pub term_signals: u32,
    /// Forceful signals the machine has asked for.
    pub kill_signals: u32,
    /// Whether a record file existed for this role.
    pub had_record: bool,
    /// Whether the record file has been removed.
    pub removed_record: bool,
}

/// Which events a phase can consume.
pub open spec fn event_fits(phase: ReapPhase, ev: ReapEvent) -> bool {
    match (phase, ev) {
        (ReapPhase::ReadRecord, ReapEvent::RecordContent(_)) => true,
        (ReapPhase::ProbeLiveness(_), ReapEvent::Observed(_)) => true,
        (ReapPhase::GraceWait(_), ReapEvent::Observed(_)) => true,
        (ReapPhase::RemoveRecord, ReapEvent::Removed) => true,
        _ => false,
    }
}

impl ReapProtocol {
    /// The machine's invariant: at most one signal of each kind, the
    /// forceful one only after the graceful one, and the record removed
    /// exactly when one existed once the sequence is done.
    pub open spec fn wf(self) -> bool {
        &&& self.term_signals <= 1
        &&& self.kill_signals <= self.term_signals
        &&& match self.phase {
            ReapPhase::ReadRecord => self.term_signals == 0 && self.kill_signals == 0
                && !self.had_record && !self.removed_record,
            ReapPhase::ProbeLiveness(p) => self.term_signals == 0 && self.kill_signals == 0
                && p >= 1 && self.had_record && !self.removed_record,
            ReapPhase::GraceWait(p) => self.term_signals == 1 && self.kill_signals == 0
                && p >= 1 && self.had_record && !self.removed_record,
            ReapPhase::RemoveRecord => self.had_record && !self.removed_record,
            ReapPhase::Done => self.removed_record == self.had_record,
        }
    }

    /// The machine before anything was read.
    pub open spec fn spec_init() -> ReapProtocol {
        ReapProtocol {
            phase: ReapPhase::ReadRecord,
            term_signals: 0,
            kill_signals: 0,
            had_record: false,
            removed_record: false,
        }
    }

    /// The transition relation, as a function of the machine and the
    /// observation it consumes.
    pub open spec fn spec_step(m: ReapProtocol, ev: ReapEvent) -> (ReapProtocol, ReapAction) {
        match (m.phase, ev) {
            (ReapPhase::ReadRecord, ReapEvent::RecordContent(c)) => {
                let with_record = ReapProtocol { had_record: c is Some, ..m };
                match spec_classify(c.deep_view()) {
                    RecordClass::Missing => (
                        ReapProtocol { phase: ReapPhase::Done, ..with_record },
                        ReapAction::Finished,
                    ),
                    RecordClass::Invalid => (
                        ReapProtocol { phase: ReapPhase::RemoveRecord, ..with_record },
                        ReapAction::Remove,
                    ),
                    RecordClass::Target(p) => (
                        ReapProtocol { phase: ReapPhase::ProbeLiveness(p), ..with_record },
                        ReapAction::Probe(p),
                    ),
                }
            },
            (ReapPhase::ProbeLiveness(p), ReapEvent::Observed(alive)) => if alive {
                (
                    ReapProtocol {
                        phase: ReapPhase::GraceWait(p),
                        term_signals: (m.term_signals + 1) as u32,
                        ..m
                    },
                    ReapAction::TermThenWait(p),
                )
            } else {
                (ReapProtocol { phase: ReapPhase::RemoveRecord, ..m }, ReapAction::Remove)
            },
            (ReapPhase::GraceWait(p), ReapEvent::Observed(still_alive)) => if still_alive {
                (
                    ReapProtocol {
                        phase: ReapPhase::RemoveRecord,
                        kill_signals: (m.kill_signals + 1) as u32,
                        ..m
                    },
                    ReapAction::KillThenRemove(p),
                )
            } else {
                (ReapProtocol { phase: ReapPhase::RemoveRecord, ..m }, ReapAction::Remove)
            },
            (ReapPhase::RemoveRecord, ReapEvent::Removed) => (
                ReapProtocol { phase: ReapPhase::Done, removed_record: true, ..m },
                ReapAction::Finished,
            ),
            _ => (m, ReapAction::Finished),
        }
    }

    /// A machine for one role, before its record is read.
    pub fn new() -> (m: ReapProtocol)
        ensures
            m == ReapProtocol::spec_init(),
            m.wf(),
    {
        ReapProtocol {
            phase: ReapPhase::ReadRecord,
            term_signals: 0,
            kill_signals: 0,
            had_record: false,
            removed_record: false,
        }
    }

    /// Consumes one observation and says what to do next.
    pub fn step(&mut self, ev: ReapEvent) -> (a: ReapAction)
        requires
            old(self).wf(),
            event_fits(old(self).phase, ev),
        ensures
            final(self).wf(),
            *final(self) == ReapProtocol::spec_step(*old(self), ev).0,
            a == ReapProtocol::spec_step(*old(self), ev).1,
    {
        match ev {
            ReapEvent::RecordContent(c) => {
                self.had_record = c.is_some();
                match classify_record(&c) {
                    RecordClass::Missing => {
                        self.phase = ReapPhase::Done;
                        ReapAction::Finished
                    },
                    RecordClass::Invalid => {
                        self.phase = ReapPhase::RemoveRecord;
                        ReapAction::Remove
                    },
                    RecordClass::Target(p) => {
                        self.phase = ReapPhase::ProbeLiveness(p);
                        ReapAction::Probe(p)
                    },
                }
            },
            ReapEvent::Observed(alive) => match self.phase {
                ReapPhase::ProbeLiveness(p) => if alive {
                    self.phase = ReapPhase::GraceWait(p);
                    self.term_signals = self.term_signals + 1;
                    ReapAction::TermThenWait(p)
                } else {
                    self.phase = ReapPhase::RemoveRecord;
                    ReapAction::Remove
                },
                ReapPhase::GraceWait(p) => if alive {
                    self.phase = ReapPhase::RemoveRecord;
                    self.kill_signals = self.kill_signals + 1;
                    ReapAction::KillThenRemove(p)
                } else {
                    self.phase = ReapPhase::RemoveRecord;
                    ReapAction::Remove
                },
                _ => ReapAction::Finished,
            },
            ReapEvent::Removed => {
                self.phase = ReapPhase::Done;
                self.removed_record = true;
                ReapAction::Finished
            },
        }
    }
}

/// Reaping never asks for more than one graceful and one forceful
/// signal, and a forceful signal is only ever asked for after the
/// graceful one: the discipline is invariant under every step.
pub proof fn lemma_reap_signal_discipline(m: ReapProtocol, ev: ReapEvent)
    requires
        m.wf(),
        event_fits(m.phase, ev),
    ensures
        ReapProtocol::spec_step(m, ev).0.wf(),
        ReapProtocol::spec_step(m, ev).0.term_signals <= 1,
        ReapProtocol::spec_step(m, ev).0.kill_signals
            <= ReapProtocol::spec_step(m, ev).0.term_signals,
{
}

/// A valid record naming a process that is already dead is removed
/// without any signal being asked for.
pub proof fn lemma_dead_orphan_reaped_silently(content: Vec<u8>, p: i32)
    requires
        spec_classify(Option::Some(content.deep_view())) == RecordClass::Target(p),
    ensures
        ({
            let ev0 = ReapEvent::RecordContent(Option::Some(content));
            let (m1, a1) = ReapProtocol::spec_step(ReapProtocol::spec_init(), ev0);
            let (m2, a2) = ReapProtocol::spec_step(m1, ReapEvent::Observed(false));
            let (m3, a3) = ReapProtocol::spec_step(m2, ReapEvent::Removed);
            &&& a1 == ReapAction::Probe(p)
            &&& a2 == ReapAction::Remove
            &&& a3 == ReapAction::Finished
            &&& m3.term_signals == 0
            &&& m3.kill_signals == 0
            &&& m3.removed_record
        }),
{
}

/// An invalid record is discarded — removed with no liveness probe and
/// no signal.
pub proof fn lemma_invalid_record_discarded(content: Vec<u8>)
    requires
        spec_classify(Option::Some(content.deep_view())) == RecordClass::Invalid,
    ensures
        ({
            let ev0 = ReapEvent::RecordContent(Option::Some(content));
            let (m1, a1) = ReapProtocol::spec_step(ReapProtocol::spec_init(), ev0);
            let (m2, a2) = ReapProtocol::spec_step(m1, ReapEvent::Removed);
            &&& a1 == ReapAction::Remove
            &&& a2 == ReapAction::Finished
            &&& m2.term_signals == 0
            &&& m2.kill_signals == 0
            &&& m2.removed_record
        }),
{
}

/// A live process recorded as `p` receives exactly one graceful signal,
/// and exactly one forceful signal if and only if it is still alive
/// after the grace period.
pub proof fn lemma_live_orphan_signal_sequence(content: Vec<u8>, p: i32, still_alive: bool)
    requires
        spec_classify(Option::Some(content.deep_view())) == RecordClass::Target(p),
    ensures
        ({
            let ev0 = ReapEvent::RecordContent(Option::Some(content));
            let (m1, a1) = ReapProtocol::spec_step(ReapProtocol::spec_init(), ev0);
            let (m2, a2) = ReapProtocol::spec_step(m1, ReapEvent::Observed(true));
            let (m3, a3) = ReapProtocol::spec_step(m2, ReapEvent::Observed(still_alive));
            let (m4, a4) = ReapProtocol::spec_step(m3, ReapEvent::Removed);
            &&& a1 == ReapAction::Probe(p)
            &&& a2 == ReapAction::TermThenWait(p)
            &&& m2.term_signals == 1
            &&& a3 == if still_alive {
                ReapAction::KillThenRemove(p)
            } else {
                ReapAction::Remove
            }
            &&& m3.kill_signals == if still_alive {
                1u32
            } else {
                0u32
            }
            &&& m4.term_signals == 1
            &&& a4 == ReapAction::Finished
            &&& m4.removed_record
        }),
{
}

} // verus!
