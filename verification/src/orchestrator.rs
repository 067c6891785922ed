//! The end-to-end transfer sequence: handshake, boot header, payload,
//! each followed by a boot-source flag and a break, with the device
//! re-located between phases because the ROM loader re-enumerates its USB
//! interface after certain commands. The decisions live here; the caller
//! performs each action (locate, open, write, read, sleep) and reports
//! back whether it succeeded.
use vstd::prelude::*;
use crate::ProtocolError;

verus! {

/// Where the sequence stands. Each phase past `Idle` records the last
/// completed milestone; any failure is fatal for the whole run, a fresh
/// run must restart from `Idle`.
#[derive(Debug, Clone, Copy, PartialEq, Eq, Structural)]
pub enum Phase {
    Idle,
    AwaitDeviceFirst,
    HandshakeSent,
    AwaitDeviceSecond,
    HeaderSent,
    FlagSentFirst,
    AwaitDeviceThird,
    HandshakeResent,
    PayloadSent,
    FlagSentSecond,
    Done,
    Failed,
}

/// What the caller must perform next.
#[derive(Debug, Clone, Copy, PartialEq, Eq, Structural)]
pub enum Action {
    /// Locate the device and open a fresh session.
    Locate,
    /// Pause a fixed settle interval, then locate anew and open a fresh
    /// session: the ROM loader has reset its USB interface.
    SettleThenLocate,
    /// Exchange the keep-download handshake frame.
    SendHandshake,
    /// Transfer the boot header record chunk by chunk.
    SendHeader,
    /// Exchange the boot-source flag frame, then the break frame.
    SendFlagAndBreak,
    /// Transfer the firmware payload chunk by chunk.
    SendPayload,
    /// The sequence is complete.
    Finish,
    /// The run failed; nothing may resume from a partial state.
    Abort,
}

/// The action owed in each phase.
pub open spec fn action_of(p: Phase) -> Action {
    match p {
        Phase::Idle => Action::Locate,
        Phase::AwaitDeviceFirst => Action::SendHandshake,
        Phase::HandshakeSent => Action::SettleThenLocate,
        Phase::AwaitDeviceSecond => Action::SendHeader,
        Phase::HeaderSent => Action::SendFlagAndBreak,
        Phase::FlagSentFirst => Action::SettleThenLocate,
        Phase::AwaitDeviceThird => Action::SendHandshake,
        Phase::HandshakeResent => Action::SendPayload,
        Phase::PayloadSent => Action::SendFlagAndBreak,
        Phase::FlagSentSecond => Action::Finish,
        Phase::Done => Action::Finish,
        Phase::Failed => Action::Abort,
    }
}

/// The transition relation: a successful action advances to the next
/// milestone; any failure is fatal; the two terminal phases absorb.
pub open spec fn next_phase(p: Phase, ok: bool) -> Phase {
    match p {
        Phase::Done => Phase::Done,
        Phase::Failed => Phase::Failed,
        _ => if !ok {
            Phase::Failed
        } else {
            match p {
                Phase::Idle => Phase::AwaitDeviceFirst,
                Phase::AwaitDeviceFirst => Phase::HandshakeSent,
                Phase::HandshakeSent => Phase::AwaitDeviceSecond,
                Phase::AwaitDeviceSecond => Phase::HeaderSent,
                Phase::HeaderSent => Phase::FlagSentFirst,
                Phase::FlagSentFirst => Phase::AwaitDeviceThird,
                Phase::AwaitDeviceThird => Phase::HandshakeResent,
                Phase::HandshakeResent => Phase::PayloadSent,
                Phase::PayloadSent => Phase::FlagSentSecond,
                Phase::FlagSentSecond => Phase::Done,
                _ => Phase::Failed,
            }
        },
    }
}

/// Drives the sequence. The caller alternates `next_action` with
/// performing that action, then reports the outcome to `advance`.
pub struct TransferOrchestrator {
    pub phase: Phase,
    /// The first failure, kept for reporting which phase broke the run.
    pub error: Option<ProtocolError>,
}

impl TransferOrchestrator {
    /// A fresh run.
    pub fn new() -> (r: Self)
        ensures
            r.phase == Phase::Idle,
            r.error is None,
    {
        TransferOrchestrator { phase: Phase::Idle, error: None }
    }

    /// What the caller must perform next.
    pub fn next_action(&self) -> (a: Action)
        ensures
            a == action_of(self.phase),
    {
        match self.phase {
            Phase::Idle => Action::Locate,
            Phase::AwaitDeviceFirst => Action::SendHandshake,
            Phase::HandshakeSent => Action::SettleThenLocate,
            Phase::AwaitDeviceSecond => Action::SendHeader,
            Phase::HeaderSent => Action::SendFlagAndBreak,
            Phase::FlagSentFirst => Action::SettleThenLocate,
            Phase::AwaitDeviceThird => Action::SendHandshake,
            Phase::HandshakeResent => Action::SendPayload,
            Phase::PayloadSent => Action::SendFlagAndBreak,
            Phase::FlagSentSecond => Action::Finish,
            Phase::Done => Action::Finish,
            Phase::Failed => Action::Abort,
        }
    }

    /// Records the outcome of the action just performed and moves to the
    /// next phase; the first failure is kept and the run is over.
    pub fn advance(&mut self, outcome: Result<(), ProtocolError>)
        ensures
            final(self).phase == next_phase(old(self).phase, outcome is Ok),
            outcome is Err && !(old(self).phase is Done) && !(old(self).phase is Failed)
                ==> final(self).error == Some(outcome->Err_0),
            outcome is Ok || old(self).phase is Done || old(self).phase is Failed
                ==> final(self).error == old(self).error,
    {
        match self.phase {
            Phase::Done => {},
            Phase::Failed => {},
            _ => {
                match outcome {
                    Err(e) => {
                        self.phase = Phase::Failed;
                        self.error = Some(e);
                    },
                    Ok(()) => {
                        self.phase = match self.phase {
                            Phase::Idle => Phase::AwaitDeviceFirst,
                            Phase::AwaitDeviceFirst => Phase::HandshakeSent,
                            Phase::HandshakeSent => Phase::AwaitDeviceSecond,
                            Phase::AwaitDeviceSecond => Phase::HeaderSent,
                            Phase::HeaderSent => Phase::FlagSentFirst,
                            Phase::FlagSentFirst => Phase::AwaitDeviceThird,
                            Phase::AwaitDeviceThird => Phase::HandshakeResent,
                            Phase::HandshakeResent => Phase::PayloadSent,
                            Phase::PayloadSent => Phase::FlagSentSecond,
                            Phase::FlagSentSecond => Phase::Done,
                            _ => Phase::Failed,
                        };
                    },
                }
            },
        }
    }
}

/// A failure in any active phase is fatal, and neither terminal phase can
/// be left: the only path to `Done` runs through every milestone in
/// order.
pub proof fn lemma_failure_is_fatal(p: Phase)
    ensures
        !(p is Done) && !(p is Failed) ==> next_phase(p, false) == Phase::Failed,
        next_phase(Phase::Failed, true) == Phase::Failed,
        next_phase(Phase::Done, false) == Phase::Done,
{
}

} // verus!
