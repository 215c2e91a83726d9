//! The main loop's decision core.
//!
//! The orchestrator owns two pieces of state: where the loop stands
//! (waiting for a session, or running) and the session epoch — the
//! timestamp of the first record successfully built in this process
//! lifetime, set at most once and used to derive the uptime of every later
//! record.  The driver performs the waiting, reading and publishing, and
//! feeds each outcome to one of the step functions here; every decision —
//! retry the telegram, rebuild the session, set the epoch, derive the
//! uptime — is made and specified in this module.

use vstd::prelude::*;

use crate::builder::{build_message, first_object_error, telegram_record};
use crate::record::{uptime_minutes_of, Message, UptimeError};
use crate::session::{ConnectError, PublishError};
use crate::telegram::{DecodeError, ReadError, Telegram};

verus! {

/// Where the main loop stands.
#[derive(Clone, Copy, Debug, PartialEq, Eq, Structural)]
pub enum OrchestratorState {
    /// No usable session: keep (re)connecting, immediately and without
    /// backoff.
    AwaitingSession,
    /// A session is up: pull telegrams, build records, publish.
    Running,
}

/// The outcome of one telegram acquisition, as the driver observed it.
pub enum IngestEvent {
    /// The serial side reported a hardware or overflow condition.
    ReadFailed(ReadError),
    /// The reader timed out without yielding a frame.
    Idle,
    /// A frame arrived but the decoder rejected it as a whole.
    DecodeFailed(DecodeError),
    /// A frame arrived and decoded into a telegram.
    Decoded(Telegram),
}

/// Why an iteration published nothing.  All of these are transient: the
/// loop simply proceeds to the next readout.
#[derive(Clone, Copy, Debug, PartialEq, Eq, Structural)]
pub enum SkipReason {
    /// The serial read failed.
    Read(ReadError),
    /// The reader was idle this cycle.
    Idle,
    /// The decoder rejected the frame.
    Decode(DecodeError),
    /// One object inside the telegram failed to decode; the whole record
    /// is discarded rather than published partially.
    Object(DecodeError),
    /// The record was built but its uptime could not be derived.
    Uptime(UptimeError),
}

/// What the driver should do with one iteration's outcome.
#[derive(Clone, Copy, Debug, PartialEq, Eq, Structural)]
pub enum IngestOutcome {
    /// Serialize and publish this finished record.
    Publish(Message),
    /// Publish nothing; proceed to the next readout.
    Skip(SkipReason),
}

/// The decision core's state.
#[derive(Clone, Copy, Debug, PartialEq, Eq)]
pub struct Orchestrator {
    pub state: OrchestratorState,
    /// Timestamp of the first record built in this process lifetime;
    /// `None` until that record exists, then never changed again.
    pub epoch: Option<i64>,
}

/// The orchestrator after a connect attempt resolves: a session makes it
/// `Running`, a failure leaves it waiting for the immediate retry.  The
/// epoch is untouched.
pub open spec fn connect_step(o: Orchestrator, r: Result<(), ConnectError>) -> Orchestrator {
    if r is Ok {
        Orchestrator { state: OrchestratorState::Running, ..o }
    } else {
        Orchestrator { state: OrchestratorState::AwaitingSession, ..o }
    }
}

/// The orchestrator after a publish resolves: a network failure
/// invalidates the session and sends the loop back to `AwaitingSession`;
/// anything else keeps it running.  The epoch is untouched.
pub open spec fn publish_step(o: Orchestrator, r: Result<(), PublishError>) -> Orchestrator {
    if r == Result::<(), PublishError>::Err(PublishError::Network) {
        Orchestrator { state: OrchestratorState::AwaitingSession, ..o }
    } else {
        o
    }
}

/// The orchestrator and the iteration's outcome after one ingest event.
///
/// Failures to acquire or decode skip the cycle and change nothing.  A
/// fully decoded telegram builds a record; the epoch — the record's own
/// timestamp if this is the first record, the stored one otherwise —
/// yields the uptime, and a record whose uptime cannot be derived is
/// skipped rather than published.
pub open spec fn ingest_step(o: Orchestrator, e: IngestEvent) -> (Orchestrator, IngestOutcome) {
    match e {
        IngestEvent::ReadFailed(re) => (o, IngestOutcome::Skip(SkipReason::Read(re))),
        IngestEvent::Idle => (o, IngestOutcome::Skip(SkipReason::Idle)),
        IngestEvent::DecodeFailed(de) => (o, IngestOutcome::Skip(SkipReason::Decode(de))),
        IngestEvent::Decoded(t) => match first_object_error(t.objects@) {
            Some(oe) => (o, IngestOutcome::Skip(SkipReason::Object(oe))),
            None => {
                let m = telegram_record(t);
                let epoch = match o.epoch {
                    Some(e0) => e0,
                    None => m.unix_timestamp,
                };
                if m.unix_timestamp < epoch {
                    (o, IngestOutcome::Skip(SkipReason::Uptime(UptimeError::EpochInFuture)))
                } else if uptime_minutes_of(m.unix_timestamp as int, epoch as int) > u32::MAX {
                    (o, IngestOutcome::Skip(SkipReason::Uptime(UptimeError::TooLarge)))
                } else {
                    (
                        Orchestrator { epoch: Some(epoch), ..o },
                        IngestOutcome::Publish(
                            Message {
                                uptime_min: uptime_minutes_of(
                                    m.unix_timestamp as int,
                                    epoch as int,
                                ) as u32,
                                ..m
                            },
                        ),
                    )
                }
            },
        },
    }
}

impl Orchestrator {
    /// A fresh orchestrator: no session yet, no epoch yet.
    pub fn new() -> (o: Orchestrator)
        ensures
            o.state is AwaitingSession,
            o.epoch is None,
    {
        Orchestrator { state: OrchestratorState::AwaitingSession, epoch: None }
    }

    /// Absorbs the outcome of one session-connect attempt, made only while
    /// waiting for a session.
    pub fn on_connect_result(&mut self, r: Result<(), ConnectError>)
        requires
            old(self).state is AwaitingSession,
        ensures
            *final(self) == connect_step(*old(self), r),
            final(self).epoch == old(self).epoch,
            r is Ok <==> final(self).state is Running,
    {
        if r.is_ok() {
            self.state = OrchestratorState::Running;
        }
    }

    /// Absorbs the outcome of one telegram acquisition, made only while
    /// running.  The loop stays `Running` whatever the outcome: acquisition
    /// and decode failures discard at most the one telegram and reset
    /// nothing else.
    pub fn on_ingest(&mut self, event: IngestEvent) -> (r: IngestOutcome)
        requires
            old(self).state is Running,
        ensures
            (*final(self), r) == ingest_step(*old(self), event),
            final(self).state is Running,
            old(self).epoch is Some ==> final(self).epoch == old(self).epoch,
            r matches IngestOutcome::Publish(m) ==> final(self).epoch is Some
                && m.unix_timestamp >= final(self).epoch->0 && m.uptime_min as int
                == uptime_minutes_of(m.unix_timestamp as int, final(self).epoch->0 as int),
            old(self).epoch is None ==> (r matches IngestOutcome::Publish(m) ==> m.uptime_min
                == 0),
            r is Skip ==> *final(self) == *old(self),
    {
        match event {
            IngestEvent::ReadFailed(e) => IngestOutcome::Skip(SkipReason::Read(e)),
            IngestEvent::Idle => IngestOutcome::Skip(SkipReason::Idle),
            IngestEvent::DecodeFailed(e) => IngestOutcome::Skip(SkipReason::Decode(e)),
            IngestEvent::Decoded(t) => match build_message(&t) {
                Err(e) => IngestOutcome::Skip(SkipReason::Object(e)),
                Ok(mut m) => {
                    let epoch = match self.epoch {
                        Some(e0) => e0,
                        None => m.unix_timestamp,
                    };
                    match m.set_uptime(epoch) {
                        Err(e) => IngestOutcome::Skip(SkipReason::Uptime(e)),
                        Ok(()) => {
                            self.epoch = Some(epoch);
                            IngestOutcome::Publish(m)
                        },
                    }
                },
            },
        }
    }

    /// Absorbs the outcome of publishing one record, made only while
    /// running.  Exactly the network failures send the loop back to
    /// `AwaitingSession`; each such failure does so once, and the driver
    /// must then discard the session it was using.
    pub fn on_publish_result(&mut self, r: Result<(), PublishError>)
        requires
            old(self).state is Running,
        ensures
            *final(self) == publish_step(*old(self), r),
            final(self).epoch == old(self).epoch,
            r == Result::<(), PublishError>::Err(PublishError::Network)
                <==> final(self).state is AwaitingSession,
    {
        match r {
            Err(PublishError::Network) => {
                self.state = OrchestratorState::AwaitingSession;
            },
            _ => {},
        }
    }
}

/// One forced reconnect cycle: a publish fails on the network, then the
/// next connect attempt succeeds.
pub open spec fn reconnect_cycle(o: Orchestrator) -> Orchestrator {
    connect_step(publish_step(o, Result::Err(PublishError::Network)), Result::Ok(()))
}

/// `n` forced reconnect cycles in a row.
pub open spec fn reconnect_cycles(o: Orchestrator, n: nat) -> Orchestrator
    decreases n,
{
    if n == 0 {
        o
    } else {
        reconnect_cycle(reconnect_cycles(o, (n - 1) as nat))
    }
}

/// Forced reconnect cycles accumulate nothing: a running orchestrator is
/// bit-for-bit the same after `n` cycles as after one — the epoch is kept
/// and no other state exists to grow.
pub proof fn lemma_reconnect_cycles_identical(o: Orchestrator, n: nat)
    requires
        o.state is Running,
        n >= 1,
    ensures
        reconnect_cycles(o, n) == reconnect_cycles(o, 1),
        reconnect_cycles(o, n) == o,
    decreases n,
{
    assert(reconnect_cycles(o, 0) == o);
    assert(reconnect_cycles(o, 1) == reconnect_cycle(o));
    assert(reconnect_cycle(o) == o);
    if n > 1 {
        lemma_reconnect_cycles_identical(o, (n - 1) as nat);
    }
}

} // verus!
