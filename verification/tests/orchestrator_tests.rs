use cvi_loader::orchestrator::{Action, Phase, TransferOrchestrator};
use cvi_loader::ProtocolError;

#[test]
fn happy_path_walks_the_whole_sequence() {
    let mut orch = TransferOrchestrator::new();
    assert_eq!(orch.phase, Phase::Idle);

    let expected = [
        Action::Locate,
        Action::SendHandshake,
        Action::SettleThenLocate,
        Action::SendHeader,
        Action::SendFlagAndBreak,
        Action::SettleThenLocate,
        Action::SendHandshake,
        Action::SendPayload,
        Action::SendFlagAndBreak,
        Action::Finish,
    ];
    for want in expected {
        assert_eq!(orch.next_action(), want);
        orch.advance(Ok(()));
    }
    assert_eq!(orch.phase, Phase::Done);
    assert_eq!(orch.error, None);
    // Done absorbs further outcomes.
    orch.advance(Ok(()));
    assert_eq!(orch.phase, Phase::Done);
}

#[test]
fn failure_is_fatal_and_remembered() {
    let mut orch = TransferOrchestrator::new();
    orch.advance(Ok(())); // located
    orch.advance(Ok(())); // handshake sent
    orch.advance(Ok(())); // relocated
    assert_eq!(orch.next_action(), Action::SendHeader);
    orch.advance(Err(ProtocolError::IoFailure));
    assert_eq!(orch.phase, Phase::Failed);
    assert_eq!(orch.error, Some(ProtocolError::IoFailure));
    assert_eq!(orch.next_action(), Action::Abort);
    // Nothing leads out of the failed state, and the first error stays.
    orch.advance(Ok(()));
    assert_eq!(orch.phase, Phase::Failed);
    assert_eq!(orch.error, Some(ProtocolError::IoFailure));
}

#[test]
fn checksum_mismatch_aborts_discovery_phase() {
    let mut orch = TransferOrchestrator::new();
    orch.advance(Err(ProtocolError::DeviceNotFound));
    assert_eq!(orch.phase, Phase::Failed);
    assert_eq!(orch.error, Some(ProtocolError::DeviceNotFound));
}
