use solo_machine::handshake::{ConnectAction, ConnectHandshake, StepOutcome};

fn created(id: &str) -> StepOutcome {
    StepOutcome::Created(id.to_string())
}

#[test]
fn successful_handshake_saves_the_produced_ids() {
    let mut h = ConnectHandshake::new();
    assert!(matches!(h.next_action(), ConnectAction::CreateSoloMachineClient));
    h.on_outcome(created("06-solomachine-0"));
    assert!(matches!(h.next_action(), ConnectAction::CreateTendermintClient));
    h.on_outcome(created("07-tendermint-0"));
    match h.next_action() {
        ConnectAction::ConnectionOpenInit { solo_machine_client_id, tendermint_client_id } => {
            assert_eq!(solo_machine_client_id, "06-solomachine-0");
            assert_eq!(tendermint_client_id, "07-tendermint-0");
        }
        other => panic!("unexpected {:?}", other),
    }
    h.on_outcome(created("connection-0"));
    match h.next_action() {
        ConnectAction::ConnectionOpenTry { tendermint_client_id, solo_machine_client_id, solo_machine_connection_id } => {
            assert_eq!(tendermint_client_id, "07-tendermint-0");
            assert_eq!(solo_machine_client_id, "06-solomachine-0");
            assert_eq!(solo_machine_connection_id, "connection-0");
        }
        other => panic!("unexpected {:?}", other),
    }
    h.on_outcome(created("connection-1"));
    assert!(matches!(h.next_action(), ConnectAction::ConnectionOpenAck { .. }));
    h.on_outcome(StepOutcome::Succeeded);
    assert!(matches!(h.next_action(), ConnectAction::ConnectionOpenConfirm { .. }));
    h.on_outcome(StepOutcome::Succeeded);
    assert!(matches!(h.next_action(), ConnectAction::ChannelOpenInit { .. }));
    h.on_outcome(created("channel-0"));
    assert!(matches!(h.next_action(), ConnectAction::ChannelOpenTry { .. }));
    h.on_outcome(created("channel-1"));
    match h.next_action() {
        ConnectAction::ChannelOpenAck { solo_machine_channel_id, tendermint_channel_id } => {
            assert_eq!(solo_machine_channel_id, "channel-0");
            assert_eq!(tendermint_channel_id, "channel-1");
        }
        other => panic!("unexpected {:?}", other),
    }
    h.on_outcome(StepOutcome::Succeeded);
    assert!(matches!(h.next_action(), ConnectAction::ChannelOpenConfirm { .. }));
    h.on_outcome(StepOutcome::Succeeded);
    match h.next_action() {
        ConnectAction::SaveConnectionDetails { details } => {
            assert_eq!(details.solo_machine_client_id, "06-solomachine-0");
            assert_eq!(details.tendermint_client_id, "07-tendermint-0");
            assert_eq!(details.solo_machine_connection_id, "connection-0");
            assert_eq!(details.tendermint_connection_id, "connection-1");
            assert_eq!(details.solo_machine_channel_id, "channel-0");
            assert_eq!(details.tendermint_channel_id, "channel-1");
        }
        other => panic!("unexpected {:?}", other),
    }
    assert!(!h.is_over());
    h.on_outcome(StepOutcome::Succeeded);
    assert!(h.is_over());
    assert!(h.is_finished());
    assert!(matches!(h.next_action(), ConnectAction::Finished));
    h.on_outcome(StepOutcome::Failed);
    assert!(h.is_finished());
}

#[test]
fn failure_aborts_for_good() {
    let mut h = ConnectHandshake::new();
    h.on_outcome(created("06-solomachine-0"));
    h.on_outcome(StepOutcome::Failed);
    assert!(h.is_over());
    assert!(!h.is_finished());
    assert!(matches!(h.next_action(), ConnectAction::Aborted));
    h.on_outcome(created("x"));
    h.on_outcome(StepOutcome::Succeeded);
    assert!(matches!(h.next_action(), ConnectAction::Aborted));
}

#[test]
fn outcome_that_does_not_fit_aborts() {
    let mut h = ConnectHandshake::new();
    h.on_outcome(StepOutcome::Succeeded);
    assert!(matches!(h.next_action(), ConnectAction::Aborted));
    let mut h = ConnectHandshake::new();
    for id in ["a", "b", "c", "d"] {
        h.on_outcome(created(id));
    }
    h.on_outcome(created("unexpected"));
    assert!(matches!(h.next_action(), ConnectAction::Aborted));
}
