use vstd::prelude::*;
use cosmos_sdk_proto::ibc;
use cosmos_sdk_proto::cosmos::base::v1beta1::Coin;
use crate::handler::version_view;
use crate::packets::{Height, Packet, PacketView};
use crate::signing::opt_vec_view;
use crate::text::owned;
use crate::transaction::{
    AcknowledgementMessage, AnyMessage, ChannelOpenAckMessage, ChannelOpenInitMessage,
    ConnectionOpenAckMessage, ConnectionOpenInitMessage, CreateClientMessage, RecvPacketMessage,
    SoloMachineHeader, TransferMessage, UpdateClientMessage, any_view,
};

verus! {

/// The type URL and encoding of an optional packed message.
pub open spec fn opt_any_view(o: Option<AnyMessage>) -> Option<(Seq<char>, Seq<u8>)> {
    match o {
        Some(a) => Some(any_view(a)),
        None => None,
    }
}

/// An encoding packed under its type URL; `None` when there is no encoding.
pub open spec fn packed(type_url: Seq<char>, value: Option<Seq<u8>>) -> Option<(Seq<char>, Seq<u8>)> {
    match value {
        Some(v) => Some((type_url, v)),
        None => None,
    }
}

/// Packs an encoding under its type URL.
fn pack(type_url: &str, value: Option<Vec<u8>>) -> (r: Option<AnyMessage>)
    ensures
        opt_any_view(r) == packed(type_url@, opt_vec_view(value)),
{
    match value {
        Some(v) => Some(AnyMessage { type_url: owned(type_url), value: v }),
        None => None,
    }
}

/// The protobuf encoding of the solo machine `ConsensusState` with this
/// public key, diversifier and timestamp; `None` when encoding fails.
pub uninterp spec fn solo_machine_consensus_state_encoding(
    public_key: (Seq<char>, Seq<u8>),
    diversifier: Seq<char>,
    timestamp: u64,
) -> Option<Seq<u8>>;

/// The protobuf encoding of the solo machine `ClientState` with these
/// fields, its consensus state holding the public key, diversifier and
/// timestamp; `None` when encoding fails.
pub uninterp spec fn solo_machine_client_state_encoding(
    sequence: u64,
    frozen_sequence: u64,
    public_key: (Seq<char>, Seq<u8>),
    diversifier: Seq<char>,
    timestamp: u64,
    allow_update_after_proposal: bool,
) -> Option<Seq<u8>>;

/// The protobuf encoding of `MsgCreateClient` with these packed states and
/// signer; `None` when encoding fails.
pub uninterp spec fn msg_create_client_encoding(
    client_state: (Seq<char>, Seq<u8>),
    consensus_state: (Seq<char>, Seq<u8>),
    signer: Seq<char>,
) -> Option<Seq<u8>>;

/// The protobuf encoding of the solo machine `Header` with these fields;
/// `None` when encoding fails.
pub uninterp spec fn solo_machine_header_encoding(
    sequence: u64,
    timestamp: u64,
    signature: Seq<u8>,
    new_public_key: Option<(Seq<char>, Seq<u8>)>,
    new_diversifier: Seq<char>,
) -> Option<Seq<u8>>;

/// The protobuf encoding of `MsgUpdateClient` with this client id, packed
/// header and signer; `None` when encoding fails.
pub uninterp spec fn msg_update_client_encoding(
    client_id: Seq<char>,
    header: (Seq<char>, Seq<u8>),
    signer: Seq<char>,
) -> Option<Seq<u8>>;

/// The protobuf encoding of `MsgConnectionOpenInit` with these fields (the
/// counterparty's key prefix as a Merkle prefix); `None` when encoding
/// fails.
pub uninterp spec fn msg_connection_open_init_encoding(
    client_id: Seq<char>,
    counterparty_client_id: Seq<char>,
    counterparty_connection_id: Seq<char>,
    key_prefix: Seq<u8>,
    version: (Seq<char>, Seq<Seq<char>>),
    delay_period: u64,
    signer: Seq<char>,
) -> Option<Seq<u8>>;

/// The protobuf encoding of `MsgConnectionOpenAck` with these fields; `None`
/// when encoding fails.
pub uninterp spec fn msg_connection_open_ack_encoding(
    connection_id: Seq<char>,
    counterparty_connection_id: Seq<char>,
    version: (Seq<char>, Seq<Seq<char>>),
    client_state: (Seq<char>, Seq<u8>),
    proof_height: Height,
    proof_try: Seq<u8>,
    proof_client: Seq<u8>,
    proof_consensus: Seq<u8>,
    consensus_height: Option<Height>,
    signer: Seq<char>,
) -> Option<Seq<u8>>;

/// The protobuf encoding of `MsgChannelOpenInit` with this port, a channel
/// of these fields, and signer; `None` when encoding fails.
pub uninterp spec fn msg_channel_open_init_encoding(
    port_id: Seq<char>,
    state: i32,
    ordering: i32,
    counterparty_port_id: Seq<char>,
    counterparty_channel_id: Seq<char>,
    connection_hops: Seq<Seq<char>>,
    version: Seq<char>,
    signer: Seq<char>,
) -> Option<Seq<u8>>;

/// The protobuf encoding of `MsgChannelOpenAck` with these fields; `None`
/// when encoding fails.
pub uninterp spec fn msg_channel_open_ack_encoding(
    port_id: Seq<char>,
    channel_id: Seq<char>,
    counterparty_channel_id: Seq<char>,
    counterparty_version: Seq<char>,
    proof_try: Seq<u8>,
    proof_height: Height,
    signer: Seq<char>,
) -> Option<Seq<u8>>;

/// The protobuf encoding of `MsgRecvPacket` with these fields; `None` when
/// encoding fails.
pub uninterp spec fn msg_recv_packet_encoding(
    packet: PacketView,
    proof_commitment: Seq<u8>,
    proof_height: Height,
    signer: Seq<char>,
) -> Option<Seq<u8>>;

/// The protobuf encoding of `MsgAcknowledgement` with these fields; `None`
/// when encoding fails.
pub uninterp spec fn msg_acknowledgement_encoding(
    packet: PacketView,
    acknowledgement: Seq<u8>,
    proof_acked: Seq<u8>,
    proof_height: Height,
    signer: Seq<char>,
) -> Option<Seq<u8>>;

/// The protobuf encoding of the ICS-20 `MsgTransfer` with these fields (the
/// token as one coin); `None` when encoding fails.
pub uninterp spec fn msg_transfer_encoding(
    source_port: Seq<char>,
    source_channel: Seq<char>,
    denom: Seq<char>,
    amount: Seq<char>,
    sender: Seq<char>,
    receiver: Seq<char>,
    timeout_height: Height,
    timeout_timestamp: u64,
) -> Option<Seq<u8>>;

/// Encodes `cosmos_sdk_proto`'s solo machine `ConsensusState` with
/// `prost::Message::encode`. Claimed: the bytes are
/// [`solo_machine_consensus_state_encoding`] of the fields.
#[verifier::external_body]
fn encode_solo_machine_consensus_state(public_key: &AnyMessage, diversifier: &str, timestamp: u64) -> (r:
    Option<Vec<u8>>)
    ensures
        opt_vec_view(r) == solo_machine_consensus_state_encoding(
            any_view(*public_key),
            diversifier@,
            timestamp,
        ),
{
    let key = prost_types::Any { type_url: public_key.type_url.clone(), value: public_key.value.clone() };
    let message = ibc::lightclients::solomachine::v1::ConsensusState {
        public_key: Some(key),
        diversifier: diversifier.to_string(),
        timestamp,
    };
    let mut buf = Vec::new();
    prost::Message::encode(&message, &mut buf).ok().map(|_| buf)
}

/// Encodes `cosmos_sdk_proto`'s solo machine `ClientState`, with its
/// consensus state, with `prost::Message::encode`. Claimed: the bytes are
/// [`solo_machine_client_state_encoding`] of the fields.
#[verifier::external_body]
fn encode_solo_machine_client_state(m: &CreateClientMessage) -> (r: Option<Vec<u8>>)
    ensures
        opt_vec_view(r) == solo_machine_client_state_encoding(
            m.sequence,
            m.frozen_sequence,
            any_view(m.public_key),
            m.diversifier@,
            m.timestamp,
            m.allow_update_after_proposal,
        ),
{
    let key = prost_types::Any { type_url: m.public_key.type_url.clone(), value: m.public_key.value.clone() };
    let consensus_state = ibc::lightclients::solomachine::v1::ConsensusState {
        public_key: Some(key),
        diversifier: m.diversifier.clone(),
        timestamp: m.timestamp,
    };
    let message = ibc::lightclients::solomachine::v1::ClientState {
        sequence: m.sequence,
        frozen_sequence: m.frozen_sequence,
        consensus_state: Some(consensus_state),
        allow_update_after_proposal: m.allow_update_after_proposal,
    };
    let mut buf = Vec::new();
    prost::Message::encode(&message, &mut buf).ok().map(|_| buf)
}

/// Encodes `cosmos_sdk_proto`'s `MsgCreateClient` with
/// `prost::Message::encode`. Claimed: the bytes are
/// [`msg_create_client_encoding`] of the fields.
#[verifier::external_body]
fn encode_msg_create_client(client_state: &AnyMessage, consensus_state: &AnyMessage, signer: &str) -> (r:
    Option<Vec<u8>>)
    ensures
        opt_vec_view(r) == msg_create_client_encoding(
            any_view(*client_state),
            any_view(*consensus_state),
            signer@,
        ),
{
    let any = |a: &AnyMessage| prost_types::Any { type_url: a.type_url.clone(), value: a.value.clone() };
    let message = ibc::core::client::v1::MsgCreateClient {
        client_state: Some(any(client_state)),
        consensus_state: Some(any(consensus_state)),
        signer: signer.to_string(),
    };
    let mut buf = Vec::new();
    prost::Message::encode(&message, &mut buf).ok().map(|_| buf)
}

/// Encodes `cosmos_sdk_proto`'s solo machine `Header` with
/// `prost::Message::encode`. Claimed: the bytes are
/// [`solo_machine_header_encoding`] of the fields.
#[verifier::external_body]
fn encode_solo_machine_header(h: &SoloMachineHeader) -> (r: Option<Vec<u8>>)
    ensures
        opt_vec_view(r) == solo_machine_header_encoding(
            h.sequence,
            h.timestamp,
            h.signature@,
            opt_any_view(h.new_public_key),
            h.new_diversifier@,
        ),
{
    let message = ibc::lightclients::solomachine::v1::Header {
        sequence: h.sequence,
        timestamp: h.timestamp,
        signature: h.signature.clone(),
        new_public_key: h.new_public_key.clone().map(|a| prost_types::Any { type_url: a.type_url, value: a.value }),
        new_diversifier: h.new_diversifier.clone(),
    };
    let mut buf = Vec::new();
    prost::Message::encode(&message, &mut buf).ok().map(|_| buf)
}

/// Encodes `cosmos_sdk_proto`'s `MsgUpdateClient` with
/// `prost::Message::encode`. Claimed: the bytes are
/// [`msg_update_client_encoding`] of the fields.
#[verifier::external_body]
fn encode_msg_update_client(client_id: &str, header: &AnyMessage, signer: &str) -> (r: Option<Vec<u8>>)
    ensures
        opt_vec_view(r) == msg_update_client_encoding(client_id@, any_view(*header), signer@),
{
    let message = ibc::core::client::v1::MsgUpdateClient {
        client_id: client_id.to_string(),
        header: Some(prost_types::Any { type_url: header.type_url.clone(), value: header.value.clone() }),
        signer: signer.to_string(),
    };
    let mut buf = Vec::new();
    prost::Message::encode(&message, &mut buf).ok().map(|_| buf)
}

/// Encodes `cosmos_sdk_proto`'s `MsgConnectionOpenInit` with
/// `prost::Message::encode`. Claimed: the bytes are
/// [`msg_connection_open_init_encoding`] of the fields.
#[verifier::external_body]
fn encode_msg_connection_open_init(m: &ConnectionOpenInitMessage) -> (r: Option<Vec<u8>>)
    ensures
        opt_vec_view(r) == msg_connection_open_init_encoding(
            m.client_id@,
            m.counterparty_client_id@,
            m.counterparty_connection_id@,
            m.counterparty_key_prefix@,
            version_view(m.version),
            m.delay_period,
            m.signer@,
        ),
{
    let m = m.clone();
    let prefix = ibc::core::commitment::v1::MerklePrefix { key_prefix: m.counterparty_key_prefix };
    let counterparty = ibc::core::connection::v1::Counterparty { client_id: m.counterparty_client_id, connection_id: m.counterparty_connection_id, prefix: Some(prefix) };
    let version = ibc::core::connection::v1::Version { identifier: m.version.identifier, features: m.version.features };
    let message = ibc::core::connection::v1::MsgConnectionOpenInit {
        client_id: m.client_id,
        counterparty: Some(counterparty),
        version: Some(version),
        delay_period: m.delay_period,
        signer: m.signer,
    };
    let mut buf = Vec::new();
    prost::Message::encode(&message, &mut buf).ok().map(|_| buf)
}

/// Encodes `cosmos_sdk_proto`'s `MsgConnectionOpenAck` with
/// `prost::Message::encode`. Claimed: the bytes are
/// [`msg_connection_open_ack_encoding`] of the fields.
#[verifier::external_body]
fn encode_msg_connection_open_ack(m: &ConnectionOpenAckMessage) -> (r: Option<Vec<u8>>)
    ensures
        opt_vec_view(r) == msg_connection_open_ack_encoding(
            m.connection_id@,
            m.counterparty_connection_id@,
            version_view(m.version),
            any_view(m.client_state),
            m.proof_height,
            m.proof_try@,
            m.proof_client@,
            m.proof_consensus@,
            m.consensus_height,
            m.signer@,
        ),
{
    let ConnectionOpenAckMessage { connection_id, counterparty_connection_id, version, client_state, proof_height, proof_try, proof_client, proof_consensus, consensus_height, signer } = m.clone();
    let height = |h: Height| ibc::core::client::v1::Height { revision_number: h.revision_number, revision_height: h.revision_height };
    let message = ibc::core::connection::v1::MsgConnectionOpenAck {
        connection_id,
        counterparty_connection_id,
        version: Some(ibc::core::connection::v1::Version { identifier: version.identifier, features: version.features }),
        client_state: Some(prost_types::Any { type_url: client_state.type_url, value: client_state.value }),
        proof_height: Some(height(proof_height)),
        proof_try, proof_client, proof_consensus,
        consensus_height: consensus_height.map(height),
        signer,
    };
    let mut buf = Vec::new();
    prost::Message::encode(&message, &mut buf).ok().map(|_| buf)
}

/// Encodes `cosmos_sdk_proto`'s `MsgChannelOpenInit` with
/// `prost::Message::encode`. Claimed: the bytes are
/// [`msg_channel_open_init_encoding`] of the fields.
#[verifier::external_body]
fn encode_msg_channel_open_init(m: &ChannelOpenInitMessage) -> (r: Option<Vec<u8>>)
    ensures
        opt_vec_view(r) == msg_channel_open_init_encoding(
            m.port_id@,
            m.state,
            m.ordering,
            m.counterparty_port_id@,
            m.counterparty_channel_id@,
            m.connection_hops@.map_values(|h: String| h@),
            m.version@,
            m.signer@,
        ),
{
    let m = m.clone();
    let counterparty = ibc::core::channel::v1::Counterparty { port_id: m.counterparty_port_id, channel_id: m.counterparty_channel_id };
    let channel = ibc::core::channel::v1::Channel {
        state: m.state,
        ordering: m.ordering,
        counterparty: Some(counterparty),
        connection_hops: m.connection_hops,
        version: m.version,
    };
    let message = ibc::core::channel::v1::MsgChannelOpenInit { port_id: m.port_id, channel: Some(channel), signer: m.signer };
    let mut buf = Vec::new();
    prost::Message::encode(&message, &mut buf).ok().map(|_| buf)
}

/// Encodes `cosmos_sdk_proto`'s `MsgChannelOpenAck` with
/// `prost::Message::encode`. Claimed: the bytes are
/// [`msg_channel_open_ack_encoding`] of the fields.
#[verifier::external_body]
fn encode_msg_channel_open_ack(m: &ChannelOpenAckMessage) -> (r: Option<Vec<u8>>)
    ensures
        opt_vec_view(r) == msg_channel_open_ack_encoding(
            m.port_id@,
            m.channel_id@,
            m.counterparty_channel_id@,
            m.counterparty_version@,
            m.proof_try@,
            m.proof_height,
            m.signer@,
        ),
{
    let m = m.clone();
    let h = m.proof_height;
    let message = ibc::core::channel::v1::MsgChannelOpenAck {
        port_id: m.port_id,
        channel_id: m.channel_id,
        counterparty_channel_id: m.counterparty_channel_id,
        counterparty_version: m.counterparty_version,
        proof_try: m.proof_try,
        proof_height: Some(ibc::core::client::v1::Height { revision_number: h.revision_number, revision_height: h.revision_height }),
        signer: m.signer,
    };
    let mut buf = Vec::new();
    prost::Message::encode(&message, &mut buf).ok().map(|_| buf)
}

/// Encodes `cosmos_sdk_proto`'s `MsgRecvPacket` with
/// `prost::Message::encode`. Claimed: the bytes are
/// [`msg_recv_packet_encoding`] of the fields.
#[verifier::external_body]
fn encode_msg_recv_packet(m: &RecvPacketMessage) -> (r: Option<Vec<u8>>)
    ensures
        opt_vec_view(r) == msg_recv_packet_encoding(
            m.packet@,
            m.proof_commitment@,
            m.proof_height,
            m.signer@,
        ),
{
    let m = m.clone();
    let height = |h: Height| ibc::core::client::v1::Height { revision_number: h.revision_number, revision_height: h.revision_height };
    let Packet { sequence, source_port, source_channel, destination_port, destination_channel, data, timeout_height, timeout_timestamp } = m.packet;
    let packet = ibc::core::channel::v1::Packet { sequence, source_port, source_channel, destination_port, destination_channel, data, timeout_height: timeout_height.map(height), timeout_timestamp };
    let message = ibc::core::channel::v1::MsgRecvPacket { packet: Some(packet), proof_commitment: m.proof_commitment, proof_height: Some(height(m.proof_height)), signer: m.signer };
    let mut buf = Vec::new();
    prost::Message::encode(&message, &mut buf).ok().map(|_| buf)
}

/// Encodes `cosmos_sdk_proto`'s `MsgAcknowledgement` with
/// `prost::Message::encode`. Claimed: the bytes are
/// [`msg_acknowledgement_encoding`] of the fields.
#[verifier::external_body]
fn encode_msg_acknowledgement(m: &AcknowledgementMessage) -> (r: Option<Vec<u8>>)
    ensures
        opt_vec_view(r) == msg_acknowledgement_encoding(
            m.packet@,
            m.acknowledgement@,
            m.proof_acked@,
            m.proof_height,
            m.signer@,
        ),
{
    let m = m.clone();
    let height = |h: Height| ibc::core::client::v1::Height { revision_number: h.revision_number, revision_height: h.revision_height };
    let Packet { sequence, source_port, source_channel, destination_port, destination_channel, data, timeout_height, timeout_timestamp } = m.packet;
    let packet = ibc::core::channel::v1::Packet { sequence, source_port, source_channel, destination_port, destination_channel, data, timeout_height: timeout_height.map(height), timeout_timestamp };
    let message = ibc::core::channel::v1::MsgAcknowledgement { packet: Some(packet), acknowledgement: m.acknowledgement, proof_acked: m.proof_acked, proof_height: Some(height(m.proof_height)), signer: m.signer };
    let mut buf = Vec::new();
    prost::Message::encode(&message, &mut buf).ok().map(|_| buf)
}

/// Encodes `cosmos_sdk_proto`'s ICS-20 `MsgTransfer` with
/// `prost::Message::encode`. Claimed: the bytes are
/// [`msg_transfer_encoding`] of the fields.
#[verifier::external_body]
fn encode_msg_transfer(m: &TransferMessage) -> (r: Option<Vec<u8>>)
    ensures
        opt_vec_view(r) == msg_transfer_encoding(
            m.source_port@,
            m.source_channel@,
            m.token_denom@,
            m.token_amount@,
            m.sender@,
            m.receiver@,
            m.timeout_height,
            m.timeout_timestamp,
        ),
{
    let m = m.clone();
    let h = m.timeout_height;
    let message = ibc::applications::transfer::v1::MsgTransfer {
        source_port: m.source_port,
        source_channel: m.source_channel,
        token: Some(Coin { denom: m.token_denom, amount: m.token_amount }),
        sender: m.sender,
        receiver: m.receiver,
        timeout_height: Some(ibc::core::client::v1::Height { revision_number: h.revision_number, revision_height: h.revision_height }),
        timeout_timestamp: m.timeout_timestamp,
    };
    let mut buf = Vec::new();
    prost::Message::encode(&message, &mut buf).ok().map(|_| buf)
}

/// The packed solo machine consensus state of a create-client message.
pub open spec fn spec_consensus_state_any(m: CreateClientMessage) -> Option<(Seq<char>, Seq<u8>)> {
    packed(
        "/ibc.lightclients.solomachine.v1.ConsensusState"@,
        solo_machine_consensus_state_encoding(any_view(m.public_key), m.diversifier@, m.timestamp),
    )
}

/// The packed solo machine client state of a create-client message.
pub open spec fn spec_client_state_any(m: CreateClientMessage) -> Option<(Seq<char>, Seq<u8>)> {
    packed(
        "/ibc.lightclients.solomachine.v1.ClientState"@,
        solo_machine_client_state_encoding(
            m.sequence,
            m.frozen_sequence,
            any_view(m.public_key),
            m.diversifier@,
            m.timestamp,
            m.allow_update_after_proposal,
        ),
    )
}

/// The packed create-client message: both states packed, then the message.
pub open spec fn spec_create_client_any(m: CreateClientMessage) -> Option<(Seq<char>, Seq<u8>)> {
    match (spec_client_state_any(m), spec_consensus_state_any(m)) {
        (Some(client_state), Some(consensus_state)) => packed(
            "/ibc.core.client.v1.MsgCreateClient"@,
            msg_create_client_encoding(client_state, consensus_state, m.signer@),
        ),
        _ => None,
    }
}

/// The packed solo machine header of an update-client message.
pub open spec fn spec_header_any(h: SoloMachineHeader) -> Option<(Seq<char>, Seq<u8>)> {
    packed(
        "/ibc.lightclients.solomachine.v1.Header"@,
        solo_machine_header_encoding(
            h.sequence,
            h.timestamp,
            h.signature@,
            opt_any_view(h.new_public_key),
            h.new_diversifier@,
        ),
    )
}

/// The packed update-client message: the header packed, then the message.
pub open spec fn spec_update_client_any(m: UpdateClientMessage) -> Option<(Seq<char>, Seq<u8>)> {
    match spec_header_any(m.header) {
        Some(header) => packed(
            "/ibc.core.client.v1.MsgUpdateClient"@,
            msg_update_client_encoding(m.client_id@, header, m.signer@),
        ),
        None => None,
    }
}

impl CreateClientMessage {
    /// Packs the message for a transaction (see [`spec_create_client_any`]).
    pub fn to_any(&self) -> (r: Option<AnyMessage>)
        ensures
            opt_any_view(r) == spec_create_client_any(*self),
    {
        let client_state = match pack(
            "/ibc.lightclients.solomachine.v1.ClientState",
            encode_solo_machine_client_state(self),
        ) {
            Some(a) => a,
            None => return None,
        };
        let consensus_state = match pack(
            "/ibc.lightclients.solomachine.v1.ConsensusState",
            encode_solo_machine_consensus_state(
                &self.public_key,
                self.diversifier.as_str(),
                self.timestamp,
            ),
        ) {
            Some(a) => a,
            None => return None,
        };
        pack(
            "/ibc.core.client.v1.MsgCreateClient",
            encode_msg_create_client(&client_state, &consensus_state, self.signer.as_str()),
        )
    }
}

impl UpdateClientMessage {
    /// Packs the message for a transaction (see [`spec_update_client_any`]).
    pub fn to_any(&self) -> (r: Option<AnyMessage>)
        ensures
            opt_any_view(r) == spec_update_client_any(*self),
    {
        let header = match pack(
            "/ibc.lightclients.solomachine.v1.Header",
            encode_solo_machine_header(&self.header),
        ) {
            Some(a) => a,
            None => return None,
        };
        pack(
            "/ibc.core.client.v1.MsgUpdateClient",
            encode_msg_update_client(self.client_id.as_str(), &header, self.signer.as_str()),
        )
    }
}

impl ConnectionOpenInitMessage {
    /// Packs the message for a transaction: its encoding under the type URL
    /// of `MsgConnectionOpenInit`.
    pub fn to_any(&self) -> (r: Option<AnyMessage>)
        ensures
            opt_any_view(r) == packed(
                "/ibc.core.connection.v1.MsgConnectionOpenInit"@,
                msg_connection_open_init_encoding(
                    self.client_id@,
                    self.counterparty_client_id@,
                    self.counterparty_connection_id@,
                    self.counterparty_key_prefix@,
                    version_view(self.version),
                    self.delay_period,
                    self.signer@,
                ),
            ),
    {
        pack("/ibc.core.connection.v1.MsgConnectionOpenInit", encode_msg_connection_open_init(self))
    }
}

impl ConnectionOpenAckMessage {
    /// Packs the message for a transaction: its encoding under the type URL
    /// of `MsgConnectionOpenAck`.
    pub fn to_any(&self) -> (r: Option<AnyMessage>)
        ensures
            opt_any_view(r) == packed(
                "/ibc.core.connection.v1.MsgConnectionOpenAck"@,
                msg_connection_open_ack_encoding(
                    self.connection_id@,
                    self.counterparty_connection_id@,
                    version_view(self.version),
                    any_view(self.client_state),
                    self.proof_height,
                    self.proof_try@,
                    self.proof_client@,
                    self.proof_consensus@,
                    self.consensus_height,
                    self.signer@,
                ),
            ),
    {
        pack("/ibc.core.connection.v1.MsgConnectionOpenAck", encode_msg_connection_open_ack(self))
    }
}

impl ChannelOpenInitMessage {
    /// Packs the message for a transaction: its encoding under the type URL
    /// of `MsgChannelOpenInit`.
    pub fn to_any(&self) -> (r: Option<AnyMessage>)
        ensures
            opt_any_view(r) == packed(
                "/ibc.core.channel.v1.MsgChannelOpenInit"@,
                msg_channel_open_init_encoding(
                    self.port_id@,
                    self.state,
                    self.ordering,
                    self.counterparty_port_id@,
                    self.counterparty_channel_id@,
                    self.connection_hops@.map_values(|h: String| h@),
                    self.version@,
                    self.signer@,
                ),
            ),
    {
        pack("/ibc.core.channel.v1.MsgChannelOpenInit", encode_msg_channel_open_init(self))
    }
}

impl ChannelOpenAckMessage {
    /// Packs the message for a transaction: its encoding under the type URL
    /// of `MsgChannelOpenAck`.
    pub fn to_any(&self) -> (r: Option<AnyMessage>)
        ensures
            opt_any_view(r) == packed(
                "/ibc.core.channel.v1.MsgChannelOpenAck"@,
                msg_channel_open_ack_encoding(
                    self.port_id@,
                    self.channel_id@,
                    self.counterparty_channel_id@,
                    self.counterparty_version@,
                    self.proof_try@,
                    self.proof_height,
                    self.signer@,
                ),
            ),
    {
        pack("/ibc.core.channel.v1.MsgChannelOpenAck", encode_msg_channel_open_ack(self))
    }
}

impl RecvPacketMessage {
    /// Packs the message for a transaction: its encoding under the type URL
    /// of `MsgRecvPacket`.
    pub fn to_any(&self) -> (r: Option<AnyMessage>)
        ensures
            opt_any_view(r) == packed(
                "/ibc.core.channel.v1.MsgRecvPacket"@,
                msg_recv_packet_encoding(
                    self.packet@,
                    self.proof_commitment@,
                    self.proof_height,
                    self.signer@,
                ),
            ),
    {
        pack("/ibc.core.channel.v1.MsgRecvPacket", encode_msg_recv_packet(self))
    }
}

impl AcknowledgementMessage {
    /// Packs the message for a transaction: its encoding under the type URL
    /// of `MsgAcknowledgement`.
    pub fn to_any(&self) -> (r: Option<AnyMessage>)
        ensures
            opt_any_view(r) == packed(
                "/ibc.core.channel.v1.MsgAcknowledgement"@,
                msg_acknowledgement_encoding(
                    self.packet@,
                    self.acknowledgement@,
                    self.proof_acked@,
                    self.proof_height,
                    self.signer@,
                ),
            ),
    {
        pack("/ibc.core.channel.v1.MsgAcknowledgement", encode_msg_acknowledgement(self))
    }
}

impl TransferMessage {
    /// Packs the message for a transaction: its encoding under the type URL
    /// of the ICS-20 `MsgTransfer`.
    pub fn to_any(&self) -> (r: Option<AnyMessage>)
        ensures
            opt_any_view(r) == packed(
                "/ibc.applications.transfer.v1.MsgTransfer"@,
                msg_transfer_encoding(
                    self.source_port@,
                    self.source_channel@,
                    self.token_denom@,
                    self.token_amount@,
                    self.sender@,
                    self.receiver@,
                    self.timeout_height,
                    self.timeout_timestamp,
                ),
            ),
    {
        pack("/ibc.applications.transfer.v1.MsgTransfer", encode_msg_transfer(self))
    }
}

} // verus!
