use solo_machine::chain::{resolve_add_chain_request, AddChainRequest, Chain, ChainConnectionDetails};
use solo_machine::duration::ProtoDuration;
use solo_machine::packets::{Height, Packet, TokenTransferPacketData};
use solo_machine::signing::{sign, signing_secret, timestamped_sign, DataType, SignBytesData, SignMode};
use solo_machine::setup;
use solo_machine::transaction::{acknowledgement, connection_version, packet_data_json, public_key_any, AnyMessage, TransactionBuilder, TransactionError};
use solo_machine::signing::{transaction_signature, verifying_key};
use cosmos_sdk_proto::cosmos::tx::v1beta1::{AuthInfo, TxBody};
use cosmos_sdk_proto::cosmos::tx::v1beta1::mode_info::Sum;
use prost::Message;

const PHRASE: &str = "abandon abandon abandon abandon abandon abandon abandon abandon abandon abandon abandon about";

fn chain(connected: bool) -> Chain {
    let req = AddChainRequest {
        grpc_addr: None,
        rpc_addr: None,
        account_prefix: None,
        fee_config: None,
        trust_level: None,
        trusting_period: None,
        max_clock_drift: None,
        rpc_timeout: None,
        diversifier: None,
        port_id: None,
        trusted_height: None,
        trusted_hash: None,
    };
    let mut c = Chain::from_config("testnet-1".into(), "node".into(), resolve_add_chain_request(&req).unwrap(), 1000);
    if connected {
        c.add_connection_details(&ChainConnectionDetails {
            solo_machine_client_id: "06-solomachine-0".into(),
            tendermint_client_id: "07-tendermint-0".into(),
            solo_machine_connection_id: "connection-0".into(),
            tendermint_connection_id: "connection-1".into(),
            solo_machine_channel_id: "channel-0".into(),
            tendermint_channel_id: "channel-1".into(),
        });
    }
    c
}

fn proof_at(secret: &[u8; 32], c: &Chain, sequence: u64, data_type: DataType, data: &[u8]) -> Vec<u8> {
    timestamped_sign(
        secret,
        &SignBytesData {
            sequence,
            timestamp: c.consensus_timestamp,
            diversifier: c.diversifier.clone(),
            data_type,
            data: data.to_vec(),
        },
        SignMode::Unspecified,
    )
    .unwrap()
}

fn tendermint_state() -> AnyMessage {
    AnyMessage { type_url: "/ibc.lightclients.tendermint.v1.ClientState".into(), value: vec![9, 9] }
}

fn builder(connected: bool, secret: [u8; 32]) -> TransactionBuilder {
    TransactionBuilder::new(chain(connected), secret, "signer".into(), "memo".into())
}

#[test]
fn connection_open_ack_signs_three_consecutive_sequences() {
    let secret = signing_secret(PHRASE).unwrap();
    let mut b = builder(true, secret);
    let before = b.chain.clone();
    let m = b.msg_connection_open_ack("connection-0", "connection-1", tendermint_state(), b"conn", b"client", b"cons", Some(Height { revision_number: 0, revision_height: 9 })).unwrap();
    assert_eq!(m.client_state.value, vec![9, 9]);
    assert_eq!(b.chain.sequence, before.sequence + 3);
    assert_eq!(b.chain.packet_sequence, before.packet_sequence);
    assert_eq!(m.proof_height, Height { revision_number: 0, revision_height: before.sequence });
    assert_eq!(m.proof_try, proof_at(&secret, &before, before.sequence, DataType::ConnectionState, b"conn"));
    assert_eq!(m.proof_client, proof_at(&secret, &before, before.sequence + 1, DataType::ClientState, b"client"));
    assert_eq!(m.proof_consensus, proof_at(&secret, &before, before.sequence + 2, DataType::ConsensusState, b"cons"));
    assert_eq!(m.connection_id, "connection-0");
    assert_eq!(m.counterparty_connection_id, "connection-1");
    assert_eq!(m.version.identifier, "1");
    assert_eq!(m.consensus_height, Some(Height { revision_number: 0, revision_height: 9 }));
    assert_eq!(m.signer, "signer");
}

#[test]
fn failed_signing_leaves_sequence_alone() {
    let mut b = builder(true, [0u8; 32]);
    let before = b.chain.sequence;
    assert!(b.msg_connection_open_ack("a", "b", tendermint_state(), b"x", b"y", b"z", None).is_none());
    assert_eq!(b.chain.sequence, before);
    assert!(b.msg_channel_open_ack("a", "b", b"x").is_none());
    assert_eq!(b.chain.sequence, before);
    assert!(b.msg_token_receive_ack(sample_packet(), b"ack").is_none());
    assert_eq!(b.chain.sequence, before);
    let packet_sequence = b.chain.packet_sequence;
    assert_eq!(
        b.msg_token_send(5, "gld", "r", Height { revision_number: 0, revision_height: 1 }, b"commitment").unwrap_err(),
        TransactionError::SigningFailed
    );
    assert_eq!(b.chain.sequence, before);
    assert_eq!(b.chain.packet_sequence, packet_sequence);
}

#[test]
fn channel_open_ack_signs_one_sequence() {
    let secret = signing_secret(PHRASE).unwrap();
    let mut b = builder(true, secret);
    let before = b.chain.clone();
    let m = b.msg_channel_open_ack("channel-0", "channel-1", b"chan").unwrap();
    assert_eq!(b.chain.sequence, 2);
    assert_eq!(m.proof_height, Height { revision_number: 0, revision_height: 1 });
    assert_eq!(m.proof_try, proof_at(&secret, &before, 1, DataType::ChannelState, b"chan"));
    assert_eq!(m.port_id, "transfer");
    assert_eq!(m.channel_id, "channel-0");
    assert_eq!(m.counterparty_channel_id, "channel-1");
    assert_eq!(m.counterparty_version, "ics20-1");
}

#[test]
fn packet_data_serialises_like_serde() {
    let d = TokenTransferPacketData { denom: "gld".into(), amount: 100, sender: "a\"b".into(), receiver: "r".into() };
    let bytes = packet_data_json(&d).unwrap();
    assert_eq!(String::from_utf8(bytes).unwrap(), "{\"denom\":\"gld\",\"amount\":100,\"sender\":\"a\\\"b\",\"receiver\":\"r\"}");
}

#[test]
fn token_send_packet_routes_over_the_connection() {
    let b = builder(true, [0u8; 32]);
    let d = TokenTransferPacketData { denom: "gld".into(), amount: 5, sender: "s".into(), receiver: "r".into() };
    let p = b.token_send_packet(&d, Height { revision_number: 1, revision_height: 90 }).unwrap();
    assert_eq!(p.sequence, b.chain.packet_sequence);
    assert_eq!(p.source_port, "transfer");
    assert_eq!(p.source_channel, "channel-1");
    assert_eq!(p.destination_port, "transfer");
    assert_eq!(p.destination_channel, "channel-0");
    assert_eq!(p.data, packet_data_json(&d).unwrap());
    assert_eq!(p.timeout_height, Some(Height { revision_number: 1, revision_height: 100 }));
    assert_eq!(p.timeout_timestamp, 0);
    assert_eq!(
        builder(false, [0u8; 32]).token_send_packet(&d, Height { revision_number: 0, revision_height: 1 }).unwrap_err(),
        TransactionError::ConnectionNotEstablished
    );
    assert_eq!(
        b.token_send_packet(&d, Height { revision_number: 0, revision_height: u64::MAX - 3 }).unwrap_err(),
        TransactionError::HeightOverflow
    );
}

#[test]
fn token_send_moves_both_sequences() {
    let secret = signing_secret(PHRASE).unwrap();
    let mut b = builder(true, secret);
    let before = b.chain.clone();
    let d = TokenTransferPacketData { denom: "gld".into(), amount: 5, sender: "signer".into(), receiver: "r".into() };
    let p = b.token_send_packet(&d, Height { revision_number: 2, revision_height: 40 }).unwrap();
    let m = b.msg_token_send(5, "gld", "r", Height { revision_number: 2, revision_height: 40 }, b"commitment").unwrap();
    assert_eq!(b.chain.sequence, 2);
    assert_eq!(b.chain.packet_sequence, 2);
    assert_eq!(m.packet.sequence, before.packet_sequence);
    assert_eq!(m.packet.source_port, "transfer");
    assert_eq!(m.packet.source_channel, "channel-1");
    assert_eq!(m.packet.destination_channel, "channel-0");
    assert_eq!(m.packet.data, p.data);
    assert_eq!(
        String::from_utf8(m.packet.data.clone()).unwrap(),
        "{\"denom\":\"gld\",\"amount\":5,\"sender\":\"signer\",\"receiver\":\"r\"}"
    );
    assert_eq!(m.packet.timeout_height, Some(Height { revision_number: 2, revision_height: 50 }));
    assert_eq!(m.packet.timeout_timestamp, 0);
    assert_eq!(m.proof_commitment, proof_at(&secret, &before, 1, DataType::PacketCommitment, b"commitment"));
    assert_eq!(m.proof_height, Height { revision_number: 0, revision_height: 1 });
    assert_eq!(m.signer, "signer");
}

#[test]
fn token_send_refusals_leave_the_builder_alone() {
    let secret = signing_secret(PHRASE).unwrap();
    let mut b = builder(false, secret);
    assert_eq!(
        b.msg_token_send(1, "gld", "r", Height { revision_number: 0, revision_height: 1 }, b"c").unwrap_err(),
        TransactionError::ConnectionNotEstablished
    );
    assert_eq!((b.chain.sequence, b.chain.packet_sequence), (1, 1));
    let mut b = builder(true, secret);
    assert_eq!(
        b.msg_token_send(1, "gld", "r", Height { revision_number: 0, revision_height: u64::MAX - 5 }, b"c").unwrap_err(),
        TransactionError::HeightOverflow
    );
    assert_eq!((b.chain.sequence, b.chain.packet_sequence), (1, 1));
}

fn sample_packet() -> Packet {
    Packet {
        sequence: 3,
        source_port: "transfer".into(),
        source_channel: "channel-1".into(),
        destination_port: "transfer".into(),
        destination_channel: "channel-0".into(),
        data: vec![],
        timeout_height: None,
        timeout_timestamp: 0,
    }
}

#[test]
fn acknowledgement_is_result_one() {
    assert_eq!(acknowledgement(), b"{\"result\":[1]}".to_vec());
    let secret = signing_secret(PHRASE).unwrap();
    let mut b = builder(true, secret);
    let before = b.chain.clone();
    let m = b.msg_token_receive_ack(sample_packet(), b"ack-data").unwrap();
    assert_eq!(m.acknowledgement, b"{\"result\":[1]}".to_vec());
    assert_eq!(m.proof_acked, proof_at(&secret, &before, 1, DataType::PacketAcknowledgement, b"ack-data"));
    assert_eq!(m.packet.sequence, 3);
    assert_eq!(m.packet.source_channel, "channel-1");
    assert_eq!(b.chain.sequence, 2);
}

#[test]
fn transfer_message_times_out_after_next_sequence() {
    let b = builder(true, [0u8; 32]);
    let m = b.msg_token_receive(250, "ibc/ABC", "r").unwrap();
    assert_eq!(m.source_port, "transfer");
    assert_eq!(m.source_channel, "channel-0");
    assert_eq!(m.token_amount, "250");
    assert_eq!(m.token_denom, "ibc/ABC");
    assert_eq!(m.sender, "signer");
    assert_eq!(m.receiver, "r");
    assert_eq!(m.timeout_height, Height { revision_number: 0, revision_height: 2 });
    assert_eq!(builder(false, [0u8; 32]).msg_token_receive(1, "d", "r").unwrap_err(), TransactionError::ConnectionNotEstablished);
}

#[test]
fn update_client_signs_header_at_current_sequence() {
    let secret = signing_secret(PHRASE).unwrap();
    let mut b = builder(true, secret);
    let before = b.chain.clone();
    let m = b.msg_update_solo_machine_client().unwrap();
    assert_eq!(m.client_id, "06-solomachine-0");
    assert_eq!(m.header.sequence, 1);
    assert_eq!(m.header.timestamp, 1000);
    assert_eq!(m.header.new_diversifier, "solo-machine-diversifier");
    assert_eq!(m.signer, "signer");
    let key = m.header.new_public_key.clone().unwrap();
    let expected_key = public_key_any(&secret).unwrap();
    assert_eq!(key.type_url, expected_key.type_url);
    assert_eq!(key.value, expected_key.value);
    let header_data = cosmos_sdk_proto::ibc::lightclients::solomachine::v1::HeaderData {
        new_pub_key: Some(prost_types::Any { type_url: key.type_url.clone(), value: key.value.clone() }),
        new_diversifier: before.diversifier.clone(),
    };
    let mut header_bytes = Vec::new();
    header_data.encode(&mut header_bytes).unwrap();
    let expected = sign(
        &secret,
        &SignBytesData {
            sequence: 1,
            timestamp: before.consensus_timestamp,
            diversifier: before.diversifier.clone(),
            data_type: DataType::Header,
            data: header_bytes,
        },
        SignMode::Unspecified,
    )
    .unwrap();
    assert_eq!(m.header.signature, expected);
    assert_eq!(b.chain.sequence, 2);
    let mut unconnected = builder(false, secret);
    assert_eq!(unconnected.msg_update_solo_machine_client().unwrap_err(), TransactionError::ConnectionNotEstablished);
    assert_eq!(unconnected.chain.sequence, 1);
    let mut b = builder(true, [0u8; 32]);
    assert_eq!(b.msg_update_solo_machine_client().unwrap_err(), TransactionError::SigningFailed);
    assert_eq!(b.chain.sequence, 1);
}

#[test]
fn fixed_message_parts() {
    let v = connection_version();
    assert_eq!(v.features, vec!["ORDER_ORDERED".to_string(), "ORDER_UNORDERED".to_string()]);
    let b = builder(true, [0u8; 32]);
    let m = b.msg_connection_open_init("06-solomachine-0", "07-tendermint-0");
    assert_eq!(m.client_id, "06-solomachine-0");
    assert_eq!(m.counterparty_client_id, "07-tendermint-0");
    assert_eq!(m.counterparty_key_prefix, b"ibc".to_vec());
    assert_eq!(m.counterparty_connection_id, "");
    assert_eq!(m.delay_period, 0);
    assert_eq!(m.signer, "signer");
    let m = b.msg_channel_open_init("connection-0");
    assert_eq!(m.state, 1);
    assert_eq!(m.ordering, 1);
    assert_eq!(m.connection_hops, vec!["connection-0".to_string()]);
    assert_eq!(m.version, "ics20-1");
    assert!(b.msg_create_solo_machine_client().is_none());
    let b = builder(true, signing_secret(PHRASE).unwrap());
    let p = b.msg_create_solo_machine_client().unwrap();
    assert_eq!(p.sequence, 1);
    assert_eq!(p.frozen_sequence, 0);
    assert_eq!(p.timestamp, 1000);
    assert_eq!(p.diversifier, "solo-machine-diversifier");
    assert_eq!(p.public_key.value, public_key_any(&signing_secret(PHRASE).unwrap()).unwrap().value);
    assert_eq!(p.signer, "signer");
    assert!(p.allow_update_after_proposal);
    let t = b.msg_create_tendermint_client(ProtoDuration { seconds: 100, nanos: 0 }, Height { revision_number: 1, revision_height: 5 });
    assert_eq!(t.chain_id, "testnet-1");
    assert_eq!(t.trusting_period, ProtoDuration { seconds: 1209600, nanos: 0 });
    assert_eq!(t.unbonding_period, ProtoDuration { seconds: 100, nanos: 0 });
    assert_eq!(t.latest_height, Height { revision_number: 1, revision_height: 5 });
    assert_eq!(t.upgrade_path, vec!["upgrade".to_string(), "upgradedIBCState".to_string()]);
    assert_eq!(t.frozen_height, Height { revision_number: 0, revision_height: 0 });
    let f = b.transaction_fee();
    assert_eq!(f.amount, "1000");
    assert_eq!(f.denom, "stake");
    assert_eq!(f.gas_limit, 300000);
    assert_eq!(f.payer, "");
    assert_eq!(b.memo, "memo");
}

#[test]
fn first_sequence_handshake_signs_at_one() {
    let secret = signing_secret(PHRASE).unwrap();
    let mut c = chain(true);
    c.increment_sequence();
    let b = setup::TransactionBuilder::new(c.clone(), secret, "signer".into(), String::new());
    let m = b.msg_connection_open_ack("connection-0", "connection-1", tendermint_state(), b"conn", b"client", b"cons").unwrap();
    assert_eq!(m.proof_height, Height { revision_number: 0, revision_height: 1 });
    assert_eq!(m.consensus_height, Some(Height { revision_number: 0, revision_height: 1 }));
    let expected = timestamped_sign(
        &secret,
        &SignBytesData { sequence: 1, timestamp: c.consensus_timestamp, diversifier: c.diversifier.clone(), data_type: DataType::ClientState, data: b"client".to_vec() },
        SignMode::Direct,
    )
    .unwrap();
    assert_eq!(m.proof_client, expected);
    assert_eq!(b.chain.sequence, 2);
    let p = b.msg_create_solo_machine_client().unwrap();
    assert_eq!(p.sequence, 1);
    let init = b.msg_connection_open_init("06-solomachine-0", "07-tendermint-0");
    assert_eq!(init.counterparty_key_prefix, b"ibc".to_vec());
    let t = b.msg_create_tendermint_client(ProtoDuration { seconds: 7, nanos: 0 }, Height { revision_number: 0, revision_height: 3 });
    assert_eq!(t.unbonding_period, ProtoDuration { seconds: 7, nanos: 0 });
    assert!(setup::TransactionBuilder::new(c, [0u8; 32], "s".into(), String::new())
        .msg_connection_open_ack("a", "b", tendermint_state(), b"x", b"y", b"z")
        .is_none());
}

#[test]
fn build_assembles_and_signs_the_transaction() {
    let secret = signing_secret(PHRASE).unwrap();
    let b = builder(true, secret);
    let message = AnyMessage { type_url: "/ibc.core.client.v1.MsgCreateClient".into(), value: vec![1, 2, 3] };
    let tx = b.build(vec![message], 7, 42).unwrap();

    let body = TxBody::decode(tx.body_bytes.as_slice()).unwrap();
    assert_eq!(body.memo, "memo");
    assert_eq!(body.timeout_height, 0);
    assert_eq!(body.messages.len(), 1);
    assert_eq!(body.messages[0].type_url, "/ibc.core.client.v1.MsgCreateClient");
    assert_eq!(body.messages[0].value, vec![1, 2, 3]);
    assert!(body.extension_options.is_empty());

    let auth = AuthInfo::decode(tx.auth_info_bytes.as_slice()).unwrap();
    assert_eq!(auth.signer_infos.len(), 1);
    let signer = &auth.signer_infos[0];
    assert_eq!(signer.sequence, 42);
    let key = signer.public_key.as_ref().unwrap();
    assert_eq!(key.type_url, "/cosmos.crypto.secp256k1.PubKey");
    let pub_key = cosmos_sdk_proto::cosmos::crypto::secp256k1::PubKey::decode(key.value.as_slice()).unwrap();
    assert_eq!(pub_key.key, verifying_key(&secret).unwrap());
    match signer.mode_info.as_ref().unwrap().sum.as_ref().unwrap() {
        Sum::Single(single) => assert_eq!(single.mode, 1),
        Sum::Multi(_) => panic!("expected a single signer"),
    }
    let fee = auth.fee.unwrap();
    assert_eq!(fee.amount.len(), 1);
    assert_eq!(fee.amount[0].denom, "stake");
    assert_eq!(fee.amount[0].amount, "1000");
    assert_eq!(fee.gas_limit, 300000);
    assert_eq!(fee.payer, "");

    assert_eq!(tx.signatures.len(), 1);
    assert_eq!(
        tx.signatures[0],
        transaction_signature(&secret, &tx.body_bytes, &tx.auth_info_bytes, "testnet-1", 7).unwrap()
    );
    assert_ne!(
        tx.signatures[0],
        transaction_signature(&secret, &tx.body_bytes, &tx.auth_info_bytes, "testnet-1", 8).unwrap()
    );
}

#[test]
fn build_refuses_a_key_that_is_no_secret_scalar() {
    let b = builder(true, [0u8; 32]);
    assert!(b.build(Vec::new(), 1, 1).is_none());
    assert!(public_key_any(&[0u8; 32]).is_none());
    let s = setup::TransactionBuilder::new(chain(true), signing_secret(PHRASE).unwrap(), "s".into(), "setup".into());
    let tx = s.build(Vec::new(), 1, 1).unwrap();
    assert_eq!(TxBody::decode(tx.body_bytes.as_slice()).unwrap().memo, "setup");
}
