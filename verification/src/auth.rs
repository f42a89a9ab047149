//! The authentication and machine-registration state machines.
//!
//! Both follow the same two-phase shape over the signed channel: a request
//! is sent; a positive confirmation counts only once the corresponding
//! durable bit is persisted; a negative confirmation, or a failure to
//! persist, force-resets to the safe unconfirmed state.  Control processes
//! observe progress through a poll-style acknowledgement.

use vstd::prelude::*;
use crate::ipc::Ack;

verus! {

/// Where a two-phase sequence stands.
#[derive(Clone, Copy, PartialEq, Eq, Structural, Debug)]
pub enum Phase {
    /// Nothing sent since the last reset.
    Idle,
    /// The request went out without transport error; no outcome yet.
    Sent,
    /// A positive confirmation arrived; the durable bit is being written.
    Persisting,
    /// Confirmed, with the durable bit set.
    Confirmed,
    /// Refused by the registry, or the bit could not be persisted.
    Rejected,
}

/// What can happen to a two-phase sequence.
#[derive(Clone, Copy, PartialEq, Eq, Structural, Debug)]
pub enum AuthEvent {
    /// The request was sent without transport error.
    Sent,
    /// The registry confirmed positively.
    PositiveConfirm,
    /// The registry refused.
    NegativeConfirm,
    /// The durable bit was written.
    PersistOk,
    /// The durable bit could not be written.
    PersistFailed,
    /// A new attempt begins.
    Reset,
}

/// What the caller must do to the durable bit after a step.
#[derive(Clone, Copy, PartialEq, Eq, Structural, Debug)]
pub enum PersistAction {
    /// Leave the persisted bit as it is.
    Keep,
    /// Durably write this value, and report the outcome as a persist
    /// event.
    Store(bool),
}

/// One step of the machine: from a phase, the current durable bit and an
/// event to the next phase, the next in-memory bit and the persist duty.
pub open spec fn spec_auth_step(phase: Phase, bit: bool, ev: AuthEvent) -> (
    Phase,
    bool,
    PersistAction,
) {
    match ev {
        AuthEvent::Sent => (Phase::Sent, bit, PersistAction::Keep),
        AuthEvent::PositiveConfirm => if phase != Phase::Sent {
            // A stale or duplicate confirmation: nothing further happens.
            (phase, bit, PersistAction::Keep)
        } else if bit {
            (Phase::Confirmed, bit, PersistAction::Keep)
        } else {
            (Phase::Persisting, bit, PersistAction::Store(true))
        },
        AuthEvent::NegativeConfirm => (Phase::Rejected, false, PersistAction::Store(false)),
        AuthEvent::PersistOk => if phase == Phase::Persisting {
            (Phase::Confirmed, true, PersistAction::Keep)
        } else {
            (phase, bit, PersistAction::Keep)
        },
        AuthEvent::PersistFailed => if phase == Phase::Persisting {
            (Phase::Rejected, false, PersistAction::Store(false))
        } else {
            (phase, bit, PersistAction::Keep)
        },
        AuthEvent::Reset => (Phase::Idle, bit, PersistAction::Keep),
    }
}

/// The poll-style acknowledgement of a phase: the awaited value once
/// confirmed, a terminal stop once rejected, pending otherwise.
pub open spec fn spec_poll(phase: Phase) -> Ack<()> {
    match phase {
        Phase::Confirmed => Ack::Done(()),
        Phase::Rejected => Ack::Stopped,
        _ => Ack::Pending,
    }
}

/// One two-phase sequence: its phase and its in-memory copy of the
/// durable bit.
#[derive(Clone, Copy, PartialEq, Eq, Structural, Debug)]
pub struct TwoPhase {
    pub phase: Phase,
    pub bit: bool,
}

impl TwoPhase {
    /// A fresh sequence over an already-persisted bit.
    pub fn new(bit: bool) -> (r: TwoPhase)
        ensures
            r.phase == Phase::Idle,
            r.bit == bit,
    {
        TwoPhase { phase: Phase::Idle, bit }
    }

    /// Apply one event; the returned action is the caller's persistence
    /// duty.
    pub fn step(&mut self, ev: AuthEvent) -> (act: PersistAction)
        ensures
            (final(self).phase, final(self).bit, act) == spec_auth_step(
                old(self).phase,
                old(self).bit,
                ev,
            ),
    {
        let (phase, bit, act) = match ev {
            AuthEvent::Sent => (Phase::Sent, self.bit, PersistAction::Keep),
            AuthEvent::PositiveConfirm => if self.phase != Phase::Sent {
                (self.phase, self.bit, PersistAction::Keep)
            } else if self.bit {
                (Phase::Confirmed, self.bit, PersistAction::Keep)
            } else {
                (Phase::Persisting, self.bit, PersistAction::Store(true))
            },
            AuthEvent::NegativeConfirm => (Phase::Rejected, false, PersistAction::Store(false)),
            AuthEvent::PersistOk => if self.phase == Phase::Persisting {
                (Phase::Confirmed, true, PersistAction::Keep)
            } else {
                (self.phase, self.bit, PersistAction::Keep)
            },
            AuthEvent::PersistFailed => if self.phase == Phase::Persisting {
                (Phase::Rejected, false, PersistAction::Store(false))
            } else {
                (self.phase, self.bit, PersistAction::Keep)
            },
            AuthEvent::Reset => (Phase::Idle, self.bit, PersistAction::Keep),
        };
        self.phase = phase;
        self.bit = bit;
        act
    }

    /// Poll the sequence.
    pub fn poll(&self) -> (r: Ack<()>)
        ensures
            r == spec_poll(self.phase),
    {
        match self.phase {
            Phase::Confirmed => Ack::Done(()),
            Phase::Rejected => Ack::Stopped,
            _ => Ack::Pending,
        }
    }

    /// Was the request sent without a confirmed outcome recorded against
    /// it yet being possible to miss?  This is the transient session flag:
    /// true from the send on.
    pub fn maybe(&self) -> (r: bool)
        ensures
            r == (self.phase != Phase::Idle),
    {
        !(self.phase == Phase::Idle)
    }

    /// The confirmed flag: true only once the registry confirmed and the
    /// durable bit was persisted.
    pub fn confirmed(&self) -> (r: bool)
        ensures
            r == (self.phase == Phase::Confirmed),
    {
        self.phase == Phase::Confirmed
    }
}

/// Law: after the request is sent and a positive confirmation arrives,
/// and the durable bit is persisted where the step demands it, the
/// sequence is confirmed and the bit is set; after a negative
/// confirmation the sequence is unconfirmed and the bit is clear,
/// regardless of prior state.
pub proof fn lemma_confirm_transitions(phase: Phase, bit: bool)
    ensures
        ({
            let s1 = spec_auth_step(phase, bit, AuthEvent::Sent);
            let s2 = spec_auth_step(s1.0, s1.1, AuthEvent::PositiveConfirm);
            let s3 = if s2.2 == PersistAction::Store(true) {
                spec_auth_step(s2.0, s2.1, AuthEvent::PersistOk)
            } else {
                s2
            };
            s3.0 == Phase::Confirmed && s3.1 == true
        }),
        ({
            let s = spec_auth_step(phase, bit, AuthEvent::NegativeConfirm);
            s.0 == Phase::Rejected && s.1 == false && s.2 == PersistAction::Store(false)
                && spec_poll(s.0) == Ack::<()>::Stopped
        }),
{
}

/// Law: before anything was sent the poll is pending; a confirmed
/// sequence polls done; a rejected one polls stopped; and one step can
/// reach the confirmed phase only from a sent or persisting sequence or
/// one already confirmed — never without the request having gone out.
pub proof fn lemma_poll_outcomes(phase: Phase, bit: bool, ev: AuthEvent)
    ensures
        spec_poll(Phase::Idle) == Ack::<()>::Pending,
        spec_poll(Phase::Confirmed) == Ack::<()>::Done(()),
        spec_poll(Phase::Rejected) == Ack::<()>::Stopped,
        spec_poll(phase) == Ack::<()>::Done(()) ==> phase == Phase::Confirmed,
        spec_auth_step(phase, bit, ev).0 == Phase::Confirmed ==> (phase == Phase::Sent
            && ev == AuthEvent::PositiveConfirm) || (phase == Phase::Persisting
            && ev == AuthEvent::PersistOk) || phase == Phase::Confirmed,
        spec_auth_step(phase, bit, ev).0 == Phase::Persisting ==> (phase == Phase::Sent
            && ev == AuthEvent::PositiveConfirm) || phase == Phase::Persisting,
{
}

} // verus!
