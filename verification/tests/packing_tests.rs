use cosmos_sdk_proto::ibc;
use cosmos_sdk_proto::ibc::applications::transfer::v1::MsgTransfer;
use cosmos_sdk_proto::ibc::lightclients::solomachine::v1::{ClientState, ConsensusState, Header};
use prost::Message;
use solo_machine::chain::{resolve_add_chain_request, AddChainRequest, Chain, ChainConnectionDetails};
use solo_machine::packets::{Height, Packet, TokenTransferPacketData};
use solo_machine::signing::signing_secret;
use solo_machine::transaction::{AnyMessage, TransactionBuilder};

const PHRASE: &str = "abandon abandon abandon abandon abandon abandon abandon abandon abandon abandon abandon about";

fn builder() -> TransactionBuilder {
    let req = AddChainRequest {
        grpc_addr: None,
        rpc_addr: None,
        account_prefix: None,
        fee_config: None,
        trust_level: None,
        trusting_period: None,
        max_clock_drift: None,
        rpc_timeout: None,
        diversifier: None,
        port_id: None,
        trusted_height: None,
        trusted_hash: None,
    };
    let mut c = Chain::from_config("testnet-1".into(), "node".into(), resolve_add_chain_request(&req).unwrap(), 1000);
    c.add_connection_details(&ChainConnectionDetails {
        solo_machine_client_id: "06-solomachine-0".into(),
        tendermint_client_id: "07-tendermint-0".into(),
        solo_machine_connection_id: "connection-0".into(),
        tendermint_connection_id: "connection-1".into(),
        solo_machine_channel_id: "channel-0".into(),
        tendermint_channel_id: "channel-1".into(),
    });
    TransactionBuilder::new(c, signing_secret(PHRASE).unwrap(), "cosmos1signer".into(), "memo".into())
}

fn packet() -> Packet {
    Packet {
        sequence: 4,
        source_port: "transfer".into(),
        source_channel: "channel-1".into(),
        destination_port: "transfer".into(),
        destination_channel: "channel-0".into(),
        data: b"{}".to_vec(),
        timeout_height: Some(Height { revision_number: 1, revision_height: 20 }),
        timeout_timestamp: 0,
    }
}

#[test]
fn create_client_packs_both_states() {
    let b = builder();
    let m = b.msg_create_solo_machine_client().unwrap();
    let any = m.to_any().unwrap();
    assert_eq!(any.type_url, "/ibc.core.client.v1.MsgCreateClient");
    let msg = ibc::core::client::v1::MsgCreateClient::decode(any.value.as_slice()).unwrap();
    assert_eq!(msg.signer, "cosmos1signer");
    let client_state = msg.client_state.unwrap();
    assert_eq!(client_state.type_url, "/ibc.lightclients.solomachine.v1.ClientState");
    let state = ClientState::decode(client_state.value.as_slice()).unwrap();
    assert_eq!(state.sequence, 1);
    assert_eq!(state.frozen_sequence, 0);
    assert!(state.allow_update_after_proposal);
    let inner = state.consensus_state.unwrap();
    assert_eq!(inner.diversifier, "solo-machine-diversifier");
    assert_eq!(inner.timestamp, 1000);
    assert_eq!(inner.public_key.unwrap().value, m.public_key.value);
    let consensus_state = msg.consensus_state.unwrap();
    assert_eq!(consensus_state.type_url, "/ibc.lightclients.solomachine.v1.ConsensusState");
    let consensus = ConsensusState::decode(consensus_state.value.as_slice()).unwrap();
    assert_eq!(consensus.public_key.unwrap().type_url, "/cosmos.crypto.secp256k1.PubKey");
    assert_eq!(consensus.timestamp, 1000);
}

#[test]
fn update_client_packs_the_header() {
    let mut b = builder();
    let m = b.msg_update_solo_machine_client().unwrap();
    let any = m.to_any().unwrap();
    assert_eq!(any.type_url, "/ibc.core.client.v1.MsgUpdateClient");
    let msg = ibc::core::client::v1::MsgUpdateClient::decode(any.value.as_slice()).unwrap();
    assert_eq!(msg.client_id, "06-solomachine-0");
    let header_any = msg.header.unwrap();
    assert_eq!(header_any.type_url, "/ibc.lightclients.solomachine.v1.Header");
    let header = Header::decode(header_any.value.as_slice()).unwrap();
    assert_eq!(header.sequence, 1);
    assert_eq!(header.signature, m.header.signature);
    assert_eq!(header.new_diversifier, "solo-machine-diversifier");
    assert!(header.new_public_key.is_some());
}

#[test]
fn connection_messages_pack_their_fields() {
    let mut b = builder();
    let init = b.msg_connection_open_init("06-solomachine-0", "07-tendermint-0").to_any().unwrap();
    assert_eq!(init.type_url, "/ibc.core.connection.v1.MsgConnectionOpenInit");
    let msg = ibc::core::connection::v1::MsgConnectionOpenInit::decode(init.value.as_slice()).unwrap();
    assert_eq!(msg.client_id, "06-solomachine-0");
    let counterparty = msg.counterparty.unwrap();
    assert_eq!(counterparty.client_id, "07-tendermint-0");
    assert_eq!(counterparty.prefix.unwrap().key_prefix, b"ibc".to_vec());
    assert_eq!(msg.version.unwrap().features, vec!["ORDER_ORDERED".to_string(), "ORDER_UNORDERED".to_string()]);

    let state = AnyMessage { type_url: "/ibc.lightclients.tendermint.v1.ClientState".into(), value: vec![1] };
    let ack = b
        .msg_connection_open_ack("connection-0", "connection-1", state, b"c", b"d", b"e", Some(Height { revision_number: 2, revision_height: 7 }))
        .unwrap();
    let any = ack.to_any().unwrap();
    assert_eq!(any.type_url, "/ibc.core.connection.v1.MsgConnectionOpenAck");
    let msg = ibc::core::connection::v1::MsgConnectionOpenAck::decode(any.value.as_slice()).unwrap();
    assert_eq!(msg.connection_id, "connection-0");
    assert_eq!(msg.counterparty_connection_id, "connection-1");
    assert_eq!(msg.client_state.unwrap().value, vec![1]);
    assert_eq!(msg.proof_height.unwrap().revision_height, 1);
    assert_eq!(msg.consensus_height.unwrap().revision_height, 7);
    assert_eq!(msg.proof_try, ack.proof_try);
    assert_eq!(msg.proof_consensus, ack.proof_consensus);
}

#[test]
fn channel_messages_pack_their_fields() {
    let mut b = builder();
    let init = b.msg_channel_open_init("connection-0").to_any().unwrap();
    assert_eq!(init.type_url, "/ibc.core.channel.v1.MsgChannelOpenInit");
    let msg = ibc::core::channel::v1::MsgChannelOpenInit::decode(init.value.as_slice()).unwrap();
    assert_eq!(msg.port_id, "transfer");
    let channel = msg.channel.unwrap();
    assert_eq!(channel.state, 1);
    assert_eq!(channel.ordering, 1);
    assert_eq!(channel.connection_hops, vec!["connection-0".to_string()]);
    assert_eq!(channel.version, "ics20-1");

    let ack = b.msg_channel_open_ack("channel-0", "channel-1", b"chan").unwrap().to_any().unwrap();
    assert_eq!(ack.type_url, "/ibc.core.channel.v1.MsgChannelOpenAck");
    let msg = ibc::core::channel::v1::MsgChannelOpenAck::decode(ack.value.as_slice()).unwrap();
    assert_eq!(msg.channel_id, "channel-0");
    assert_eq!(msg.counterparty_channel_id, "channel-1");
    assert_eq!(msg.counterparty_version, "ics20-1");
    assert_eq!(msg.proof_height.unwrap().revision_height, 1);
}

#[test]
fn packet_messages_pack_the_packet() {
    let mut b = builder();
    let d = TokenTransferPacketData { denom: "gld".into(), amount: 3, sender: "cosmos1signer".into(), receiver: "r".into() };
    let p = b.token_send_packet(&d, Height { revision_number: 0, revision_height: 5 }).unwrap();
    let recv = b.msg_token_send(3, "gld", "r", Height { revision_number: 0, revision_height: 5 }, b"commitment").unwrap().to_any().unwrap();
    assert_eq!(recv.type_url, "/ibc.core.channel.v1.MsgRecvPacket");
    let msg = ibc::core::channel::v1::MsgRecvPacket::decode(recv.value.as_slice()).unwrap();
    let sent = msg.packet.unwrap();
    assert_eq!(sent.sequence, 1);
    assert_eq!(sent.source_channel, "channel-1");
    assert_eq!(sent.timeout_height.unwrap().revision_height, 15);
    assert_eq!(sent.data, p.data);
    assert_eq!(msg.signer, "cosmos1signer");

    let ack = b.msg_token_receive_ack(packet(), b"ack").unwrap().to_any().unwrap();
    assert_eq!(ack.type_url, "/ibc.core.channel.v1.MsgAcknowledgement");
    let msg = ibc::core::channel::v1::MsgAcknowledgement::decode(ack.value.as_slice()).unwrap();
    assert_eq!(msg.packet.unwrap().sequence, 4);
    assert_eq!(msg.acknowledgement, b"{\"result\":[1]}".to_vec());
    assert_eq!(msg.proof_height.unwrap().revision_height, 2);
}

#[test]
fn transfer_packs_one_coin() {
    let b = builder();
    let any = b.msg_token_receive(25, "ibc/ABC", "r").unwrap().to_any().unwrap();
    assert_eq!(any.type_url, "/ibc.applications.transfer.v1.MsgTransfer");
    let msg = MsgTransfer::decode(any.value.as_slice()).unwrap();
    assert_eq!(msg.source_port, "transfer");
    assert_eq!(msg.source_channel, "channel-0");
    let token = msg.token.unwrap();
    assert_eq!(token.denom, "ibc/ABC");
    assert_eq!(token.amount, "25");
    assert_eq!(msg.sender, "cosmos1signer");
    assert_eq!(msg.timeout_height.unwrap().revision_height, 2);
}

#[test]
fn packed_message_builds_a_transaction() {
    let b = builder();
    let any = b.msg_channel_open_init("connection-0").to_any().unwrap();
    let tx = b.build(vec![any.clone()], 3, 9).unwrap();
    let body = cosmos_sdk_proto::cosmos::tx::v1beta1::TxBody::decode(tx.body_bytes.as_slice()).unwrap();
    assert_eq!(body.messages.len(), 1);
    assert_eq!(body.messages[0].type_url, any.type_url);
    assert_eq!(body.messages[0].value, any.value);
}
