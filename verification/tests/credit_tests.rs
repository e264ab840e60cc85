use solo_machine::credit::{CreditAction, CreditError, PacketCrediting};
use solo_machine::packets::{Packet, PacketDataError, PacketProcessingError, PacketRouteError};

fn packet(sequence: u64, src_channel: &str, data: &str) -> Packet {
    Packet {
        sequence,
        source_port: "transfer".into(),
        source_channel: src_channel.into(),
        destination_port: "transfer".into(),
        destination_channel: "channel-1".into(),
        data: data.as_bytes().to_vec(),
        timeout_height: None,
        timeout_timestamp: 0,
    }
}

const DATA: &str = "{\"amount\":\"3\",\"denom\":\"transfer/channel-1/gld\",\"receiver\":\"alice\",\"sender\":\"bob\"}";

fn crediting(packets: Vec<Packet>) -> PacketCrediting {
    PacketCrediting::new("transfer".into(), "channel-0".into(), "channel-1".into(), packets)
}

#[test]
fn packets_are_acknowledged_then_minted_in_order() {
    let mut c = crediting(vec![packet(1, "channel-0", DATA), packet(2, "channel-0", DATA)]);
    let mut log = Vec::new();
    loop {
        match c.next_action() {
            CreditAction::Acknowledge { index } => log.push(format!("ack {}", index)),
            CreditAction::Mint { index, order } => {
                assert_eq!(order.receiver, "alice");
                assert_eq!(order.amount, 3);
                assert_eq!(order.denom, "gld");
                log.push(format!("mint {}", index));
            }
            CreditAction::Done => break,
            CreditAction::Stopped { error } => panic!("stopped: {:?}", error),
        }
        c.on_outcome(true);
    }
    assert_eq!(log, vec!["ack 0", "mint 0", "ack 1", "mint 1"]);
}

#[test]
fn rejected_acknowledgement_stops_before_minting() {
    let mut c = crediting(vec![packet(1, "channel-0", DATA)]);
    assert!(matches!(c.next_action(), CreditAction::Acknowledge { index: 0 }));
    c.on_outcome(false);
    assert!(matches!(c.next_action(), CreditAction::Stopped { error: CreditError::AcknowledgementRejected }));
    c.on_outcome(true);
    assert!(matches!(c.next_action(), CreditAction::Stopped { error: CreditError::AcknowledgementRejected }));
}

#[test]
fn invalid_packets_stop_crediting() {
    let mut c = crediting(vec![packet(1, "channel-9", DATA)]);
    assert!(matches!(
        c.next_action(),
        CreditAction::Stopped { error: CreditError::Packet(PacketProcessingError::Route(PacketRouteError::InvalidSourceChannel)) }
    ));
    let mut c = crediting(vec![packet(1, "channel-0", DATA), packet(2, "channel-0", "{}")]);
    c.on_outcome(true);
    c.on_outcome(true);
    assert!(matches!(
        c.next_action(),
        CreditAction::Stopped { error: CreditError::Packet(PacketProcessingError::Data(PacketDataError::MissingDenom)) }
    ));
    let mut c = crediting(vec![packet(1, "channel-0", DATA)]);
    c.on_outcome(true);
    c.on_outcome(false);
    assert!(matches!(c.next_action(), CreditAction::Stopped { error: CreditError::MintFailed }));
}

#[test]
fn no_packets_means_done() {
    let c = crediting(vec![]);
    assert!(matches!(c.next_action(), CreditAction::Done));
}
