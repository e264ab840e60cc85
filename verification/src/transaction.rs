use vstd::prelude::*;
use vstd::slice::slice_to_vec;
use vstd::utf8::encode_utf8;
use crate::chain::{Chain, ChainConnectionDetails};
use crate::packets::{Height, Packet};
use crate::signing::{DataType, SignBytesData, SignMode, opt_vec_view, spec_sign, spec_timestamped_sign, sign, timestamped_sign};
use crate::signing::{secp256k1_public_key, spec_transaction_signature, transaction_signature, verifying_key};
use cosmos_sdk_proto::cosmos::tx::v1beta1::{AuthInfo, Fee, ModeInfo, SignerInfo, TxBody};
use cosmos_sdk_proto::cosmos::tx::v1beta1::mode_info::{Single, Sum};
use cosmos_sdk_proto::cosmos::base::v1beta1::Coin;
use crate::text::owned;
use crate::packets::{PacketView, TokenTransferPacketData};
use crate::events::{json_string_literal, json_quote};
use crate::numeric::{decimal_text, u64_to_decimal};
use crate::decimal::{decimal_display, decimal_to_text};
use crate::duration::{ProtoDuration, spec_duration_to_proto, duration_to_proto};
use crate::ratio::TrustLevel;
use crate::handler::{proposed_version, version_view};

verus! {

/// Why a message for the chain could not be built.
#[derive(Debug, Clone, Copy, PartialEq, Eq, Structural)]
pub enum TransactionError {
    /// No connection with the chain has been established.
    ConnectionNotEstablished,
    /// A proof could not be signed.
    SigningFailed,
    /// The packet data could not be serialised.
    PacketDataEncoding,
    /// The timeout height does not fit.
    HeightOverflow,
}

/// `chain` with its signature sequence moved `n` steps on.
pub open spec fn advanced(chain: Chain, n: nat) -> Chain {
    Chain { sequence: (chain.sequence + n) as u64, ..chain }
}

/// The timestamped proof that the solo machine signs over `data` at the
/// chain's current sequence.
pub open spec fn spec_chain_proof(
    secret: Seq<u8>,
    chain: Chain,
    data_type: DataType,
    data: Seq<u8>,
) -> Option<Seq<u8>> {
    spec_timestamped_sign(
        secret,
        chain.sequence,
        chain.consensus_timestamp,
        chain.diversifier@,
        data_type,
        data,
        SignMode::Unspecified,
    )
}

/// What the solo machine signs over `data` at the chain's current sequence.
fn sign_bytes_at(chain: &Chain, data_type: DataType, data: &[u8]) -> (r: SignBytesData)
    ensures
        r.sequence == chain.sequence,
        r.timestamp == chain.consensus_timestamp,
        r.diversifier@ == chain.diversifier@,
        r.data_type == data_type,
        r.data@ == data@,
{
    SignBytesData {
        sequence: chain.sequence,
        timestamp: chain.consensus_timestamp,
        diversifier: chain.diversifier.clone(),
        data_type,
        data: slice_to_vec(data),
    }
}

/// Signs a proof at the current sequence and, when that succeeds, moves the
/// sequence on: every signature consumes its own sequence number.
fn take_proof(chain: &mut Chain, secret: &[u8; 32], data_type: DataType, data: &[u8]) -> (r: Option<
    Vec<u8>,
>)
    requires
        old(chain).sequence < u64::MAX,
    ensures
        opt_vec_view(r) == spec_chain_proof(secret@, *old(chain), data_type, data@),
        r is Some ==> *final(chain) == advanced(*old(chain), 1),
        r is None ==> *final(chain) == *old(chain),
{
    let sign_bytes = sign_bytes_at(chain, data_type, data);
    let proof = timestamped_sign(secret, &sign_bytes, SignMode::Unspecified);
    if proof.is_some() {
        chain.increment_sequence();
    }
    proof
}

/// The height at which the chain checks proofs signed at `sequence`.
pub open spec fn proof_height(sequence: u64) -> Height {
    Height { revision_number: 0, revision_height: sequence }
}

/// The connection version the solo machine proposes.
#[derive(Debug, Clone)]
pub struct ConnectionVersion {
    pub identifier: String,
    pub features: Vec<String>,
}

/// Connection version `1` with ordered and unordered channels.
pub fn connection_version() -> (r: ConnectionVersion)
    ensures
        r.identifier@ == "1"@,
        r.features@.len() == 2,
        r.features@[0]@ == "ORDER_ORDERED"@,
        r.features@[1]@ == "ORDER_UNORDERED"@,
        version_view(r) == proposed_version(),
{
    let mut features: Vec<String> = Vec::new();
    features.push(owned("ORDER_ORDERED"));
    features.push(owned("ORDER_UNORDERED"));
    let r = ConnectionVersion { identifier: owned("1"), features };
    assert(r.features@.map_values(|f: String| f@) =~= seq!["ORDER_ORDERED"@, "ORDER_UNORDERED"@]);
    r
}

/// Creates the solo machine client on the chain: its client state (the
/// sequence it starts at, the sequence it is frozen at, and whether it may
/// be updated after a proposal) and its consensus state (public key,
/// diversifier and timestamp).
#[derive(Debug, Clone)]
pub struct CreateClientMessage {
    pub sequence: u64,
    pub frozen_sequence: u64,
    pub public_key: AnyMessage,
    pub diversifier: String,
    pub timestamp: u64,
    pub allow_update_after_proposal: bool,
    pub signer: String,
}

/// Opens a connection on the chain towards the tendermint client.
#[derive(Debug, Clone)]
pub struct ConnectionOpenInitMessage {
    pub client_id: String,
    pub counterparty_client_id: String,
    pub counterparty_connection_id: String,
    pub counterparty_key_prefix: Vec<u8>,
    pub version: ConnectionVersion,
    pub delay_period: u64,
    pub signer: String,
}

/// The connection-open-init message: from the solo machine client to the
/// tendermint client, with no counterparty connection yet, key prefix
/// `ibc`, the connection version and no delay.
pub(crate) fn connection_open_init_message(
    solo_machine_client_id: &str,
    tendermint_client_id: &str,
    signer: &str,
) -> (r: ConnectionOpenInitMessage)
    ensures
        r.client_id@ == solo_machine_client_id@,
        r.counterparty_client_id@ == tendermint_client_id@,
        r.counterparty_connection_id@ == Seq::<char>::empty(),
        r.counterparty_key_prefix@ == seq![0x69u8, 0x62u8, 0x63u8],
        r.version.identifier@ == "1"@,
        r.version.features@.len() == 2,
        r.version.features@[0]@ == "ORDER_ORDERED"@,
        r.version.features@[1]@ == "ORDER_UNORDERED"@,
        r.delay_period == 0,
        r.signer@ == signer@,
{
    proof {
        reveal_strlit("");
    }
    let mut prefix: Vec<u8> = Vec::new();
    prefix.push(0x69u8);
    prefix.push(0x62u8);
    prefix.push(0x63u8);
    assert(prefix@ =~= seq![0x69u8, 0x62u8, 0x63u8]);
    ConnectionOpenInitMessage {
        client_id: owned(solo_machine_client_id),
        counterparty_client_id: owned(tendermint_client_id),
        counterparty_connection_id: owned(""),
        counterparty_key_prefix: prefix,
        version: connection_version(),
        delay_period: 0,
        signer: owned(signer),
    }
}

/// Opens a channel on the chain over the solo machine's connection.
#[derive(Debug, Clone)]
pub struct ChannelOpenInitMessage {
    pub port_id: String,
    pub state: i32,
    pub ordering: i32,
    pub counterparty_port_id: String,
    pub counterparty_channel_id: String,
    pub connection_hops: Vec<String>,
    pub version: String,
    pub signer: String,
}

/// Acknowledges on the chain the connection opened on the solo machine.
#[derive(Debug, Clone)]
pub struct ConnectionOpenAckMessage {
    pub connection_id: String,
    pub counterparty_connection_id: String,
    pub version: ConnectionVersion,
    pub client_state: AnyMessage,
    pub proof_height: Height,
    pub proof_try: Vec<u8>,
    pub proof_client: Vec<u8>,
    pub proof_consensus: Vec<u8>,
    pub consensus_height: Option<Height>,
    pub signer: String,
}

/// Acknowledges on the chain the channel opened on the solo machine.
#[derive(Debug, Clone)]
pub struct ChannelOpenAckMessage {
    pub port_id: String,
    pub channel_id: String,
    pub counterparty_channel_id: String,
    pub counterparty_version: String,
    pub proof_height: Height,
    pub proof_try: Vec<u8>,
    pub signer: String,
}

/// The JSON text of token transfer packet data, fields in the order
/// `denom`, `amount`, `sender`, `receiver`; `None` when a string cannot be
/// serialised.
pub open spec fn spec_packet_data_json(d: TokenTransferPacketData) -> Option<Seq<char>> {
    spec_transfer_data_json(d.denom@, d.amount, d.sender@, d.receiver@)
}

/// The JSON text of token transfer packet data with these fields (see
/// [`spec_packet_data_json`]).
pub open spec fn spec_transfer_data_json(
    denom: Seq<char>,
    amount: u64,
    sender: Seq<char>,
    receiver: Seq<char>,
) -> Option<Seq<char>> {
    match (json_string_literal(denom), json_string_literal(sender), json_string_literal(receiver)) {
        (Some(denom), Some(sender), Some(receiver)) => Some(
            "{\"denom\":"@ + denom + ",\"amount\":"@ + decimal_text(amount as nat) + ",\"sender\":"@
                + sender + ",\"receiver\":"@ + receiver + "}"@,
        ),
        _ => None,
    }
}

/// The packet that carries the JSON packet data `text` from the solo machine
/// to the chain over the connection `details`: the chain's packet sequence,
/// from the chain's port and tendermint channel to its port and solo machine
/// channel, timing out ten blocks past `latest_height`, with no timeout
/// timestamp.
pub open spec fn sent_packet(
    chain: Chain,
    details: ChainConnectionDetails,
    text: Seq<char>,
    latest_height: Height,
) -> PacketView {
    PacketView {
        sequence: chain.packet_sequence,
        source_port: chain.port_id@,
        source_channel: details.tendermint_channel_id@,
        destination_port: chain.port_id@,
        destination_channel: details.solo_machine_channel_id@,
        data: encode_utf8(text),
        timeout_height: Some(
            Height {
                revision_number: latest_height.revision_number,
                revision_height: (latest_height.revision_height + timeout_height_offset()) as u64,
            },
        ),
        timeout_timestamp: 0,
    }
}

/// Serialises token transfer packet data as JSON bytes.
pub fn packet_data_json(d: &TokenTransferPacketData) -> (r: Option<Vec<u8>>)
    ensures
        opt_vec_view(r) == (match spec_packet_data_json(*d) {
            Some(text) => Some(encode_utf8(text)),
            None => None,
        }),
{
    let denom = json_quote(d.denom.as_str());
    let sender = json_quote(d.sender.as_str());
    let receiver = json_quote(d.receiver.as_str());
    match (denom, sender, receiver) {
        (Some(denom), Some(sender), Some(receiver)) => {
            let amount = u64_to_decimal(d.amount);
            let mut s = owned("{\"denom\":");
            s.append(denom.as_str());
            s.append(",\"amount\":");
            s.append(amount.as_str());
            s.append(",\"sender\":");
            s.append(sender.as_str());
            s.append(",\"receiver\":");
            s.append(receiver.as_str());
            s.append("}");
            Some(s.as_str().as_bytes_vec())
        },
        _ => None,
    }
}

/// How many blocks past the chain's latest height a packet sent to the
/// chain stays valid.
pub open spec fn timeout_height_offset() -> u64 {
    10
}

/// Delivers a packet sent by the solo machine to the chain.
#[derive(Debug, Clone)]
pub struct RecvPacketMessage {
    pub packet: Packet,
    pub proof_commitment: Vec<u8>,
    pub proof_height: Height,
    pub signer: String,
}

/// Sends tokens from the chain back to the solo machine.
#[derive(Debug, Clone)]
pub struct TransferMessage {
    pub source_port: String,
    pub source_channel: String,
    pub token_amount: String,
    pub token_denom: String,
    pub sender: String,
    pub receiver: String,
    pub timeout_height: Height,
    pub timeout_timestamp: u64,
}

/// The acknowledgement the solo machine writes for a received packet: the
/// JSON `{"result":[1]}`.
pub fn acknowledgement() -> (r: Vec<u8>)
    ensures
        r@ == encode_utf8("{\"result\":[1]}"@),
{
    let text = owned("{\"result\":[1]}");
    text.as_str().as_bytes_vec()
}

/// Acknowledges on the chain a packet received by the solo machine.
#[derive(Debug, Clone)]
pub struct AcknowledgementMessage {
    pub packet: Packet,
    pub acknowledgement: Vec<u8>,
    pub proof_acked: Vec<u8>,
    pub proof_height: Height,
    pub signer: String,
}

/// A new header for the solo machine client on the chain.
#[derive(Debug, Clone)]
pub struct SoloMachineHeader {
    pub sequence: u64,
    pub timestamp: u64,
    pub signature: Vec<u8>,
    pub new_public_key: Option<AnyMessage>,
    pub new_diversifier: String,
}

/// Updates the solo machine client on the chain.
#[derive(Debug, Clone)]
pub struct UpdateClientMessage {
    pub client_id: String,
    pub header: SoloMachineHeader,
    pub signer: String,
}

/// The tendermint client state created on the solo machine for the chain.
#[derive(Debug, Clone)]
pub struct TendermintClientPlan {
    pub chain_id: String,
    pub trust_level: TrustLevel,
    pub trusting_period: ProtoDuration,
    pub unbonding_period: ProtoDuration,
    pub max_clock_drift: ProtoDuration,
    pub frozen_height: Height,
    pub latest_height: Height,
    pub upgrade_path: Vec<String>,
    pub allow_update_after_expiry: bool,
    pub allow_update_after_misbehaviour: bool,
}

/// The tendermint client state for the chain: its id, trust level,
/// trusting period and clock drift, the chain's unbonding period, not
/// frozen (height zero), at the chain's latest height, upgrading along
/// `upgrade`/`upgradedIBCState`, allowing no update after expiry or
/// misbehaviour.
pub(crate) fn tendermint_client_plan(
    chain: &Chain,
    unbonding_period: ProtoDuration,
    latest_height: Height,
) -> (r: TendermintClientPlan)
    requires
        chain.trusting_period.wf(),
        chain.max_clock_drift.wf(),
    ensures
        r.chain_id@ == chain.id@,
        r.trust_level == chain.trust_level,
        r.trusting_period == spec_duration_to_proto(chain.trusting_period),
        r.unbonding_period == unbonding_period,
        r.max_clock_drift == spec_duration_to_proto(chain.max_clock_drift),
        r.frozen_height == (Height { revision_number: 0, revision_height: 0 }),
        r.latest_height == latest_height,
        r.upgrade_path@.len() == 2,
        r.upgrade_path@[0]@ == "upgrade"@,
        r.upgrade_path@[1]@ == "upgradedIBCState"@,
        !r.allow_update_after_expiry,
        !r.allow_update_after_misbehaviour,
{
    let mut upgrade_path: Vec<String> = Vec::new();
    upgrade_path.push(owned("upgrade"));
    upgrade_path.push(owned("upgradedIBCState"));
    TendermintClientPlan {
        chain_id: chain.id.clone(),
        trust_level: chain.trust_level,
        trusting_period: duration_to_proto(chain.trusting_period),
        unbonding_period,
        max_clock_drift: duration_to_proto(chain.max_clock_drift),
        frozen_height: Height { revision_number: 0, revision_height: 0 },
        latest_height,
        upgrade_path,
        allow_update_after_expiry: false,
        allow_update_after_misbehaviour: false,
    }
}

/// The fee of a transaction sent to the chain.
#[derive(Debug, Clone)]
pub struct TransactionFee {
    pub denom: String,
    pub amount: String,
    pub gas_limit: u64,
    pub payer: String,
    pub granter: String,
}

/// The fee the solo machine pays: the chain's fee amount (in display form)
/// and denomination, its gas limit, and no payer or granter.
pub(crate) fn chain_fee(chain: &Chain) -> (r: TransactionFee)
    ensures
        r.denom@ == chain.fee.denom@,
        r.amount@ == decimal_display(chain.fee.amount.bytes@),
        r.gas_limit == chain.fee.gas_limit,
        r.payer@ == Seq::<char>::empty(),
        r.granter@ == Seq::<char>::empty(),
{
    proof {
        reveal_strlit("");
    }
    TransactionFee {
        denom: chain.fee.denom.clone(),
        amount: decimal_to_text(chain.fee.amount),
        gas_limit: chain.fee.gas_limit,
        payer: owned(""),
        granter: owned(""),
    }
}

/// A message packed for a transaction: its type URL and its encoding.
#[derive(Debug, Clone)]
pub struct AnyMessage {
    pub type_url: String,
    pub value: Vec<u8>,
}

/// The type URL and the encoding of a packed message.
pub open spec fn any_view(a: AnyMessage) -> (Seq<char>, Seq<u8>) {
    (a.type_url@, a.value@)
}

/// The type URLs and encodings of packed messages, in order.
pub open spec fn anys_view(s: Seq<AnyMessage>) -> Seq<(Seq<char>, Seq<u8>)> {
    s.map_values(|a: AnyMessage| any_view(a))
}

/// The body of a transaction: its messages, memo, timeout height and
/// extension options.
#[derive(Debug, Clone)]
pub struct TxBodyData {
    pub messages: Vec<AnyMessage>,
    pub memo: String,
    pub timeout_height: u64,
    pub extension_options: Vec<AnyMessage>,
    pub non_critical_extension_options: Vec<AnyMessage>,
}

/// One signer of a transaction: its packed public key, its single sign mode
/// and its account sequence.
#[derive(Debug, Clone)]
pub struct SignerInfoData {
    pub public_key: Option<AnyMessage>,
    pub mode: i32,
    pub sequence: u64,
}

/// The signers of a transaction and the fee it pays.
#[derive(Debug, Clone)]
pub struct AuthInfoData {
    pub signer_infos: Vec<SignerInfoData>,
    pub fee: TransactionFee,
}

/// The type URL, sign mode code and account sequence of a signer.
pub open spec fn signer_info_view(s: SignerInfoData) -> (Option<(Seq<char>, Seq<u8>)>, i32, u64) {
    (
        match s.public_key {
            Some(a) => Some(any_view(a)),
            None => None,
        },
        s.mode,
        s.sequence,
    )
}

/// Denomination, amount, gas limit, payer and granter of a fee.
pub open spec fn fee_view(f: TransactionFee) -> (Seq<char>, Seq<char>, u64, Seq<char>, Seq<char>) {
    (f.denom@, f.amount@, f.gas_limit, f.payer@, f.granter@)
}

/// A signed transaction as the chain receives it.
#[derive(Debug, Clone)]
pub struct TxRaw {
    pub body_bytes: Vec<u8>,
    pub auth_info_bytes: Vec<u8>,
    pub signatures: Vec<Vec<u8>>,
}

/// The protobuf encoding of a transaction body with these messages, memo,
/// timeout height and extension options; `None` when encoding fails.
pub uninterp spec fn tx_body_encoding(
    messages: Seq<(Seq<char>, Seq<u8>)>,
    memo: Seq<char>,
    timeout_height: u64,
    extension_options: Seq<(Seq<char>, Seq<u8>)>,
    non_critical_extension_options: Seq<(Seq<char>, Seq<u8>)>,
) -> Option<Seq<u8>>;

/// The protobuf encoding of the `AuthInfo` with these signers (each with a
/// single sign mode) and a fee of one coin; `None` when encoding fails.
pub uninterp spec fn auth_info_encoding(
    signer_infos: Seq<(Option<(Seq<char>, Seq<u8>)>, i32, u64)>,
    fee: (Seq<char>, Seq<char>, u64, Seq<char>, Seq<char>),
) -> Option<Seq<u8>>;

/// The protobuf encoding of the secp256k1 `PubKey` message holding `key`;
/// `None` when encoding fails.
pub uninterp spec fn public_key_encoding(key: Seq<u8>) -> Option<Seq<u8>>;

/// Encodes `cosmos_sdk_proto`'s `TxBody` with `prost::Message::encode`, each
/// packed message as a `prost_types::Any`. Claimed: the bytes are
/// [`tx_body_encoding`] of the fields.
#[verifier::external_body]
fn encode_tx_body(body: &TxBodyData) -> (r: Option<Vec<u8>>)
    ensures
        opt_vec_view(r) == tx_body_encoding(
            anys_view(body.messages@),
            body.memo@,
            body.timeout_height,
            anys_view(body.extension_options@),
            anys_view(body.non_critical_extension_options@),
        ),
{
    let any = |a: &AnyMessage| prost_types::Any { type_url: a.type_url.clone(), value: a.value.clone() };
    let message = TxBody {
        messages: body.messages.iter().map(any).collect(),
        memo: body.memo.clone(),
        timeout_height: body.timeout_height,
        extension_options: body.extension_options.iter().map(any).collect(),
        non_critical_extension_options: body.non_critical_extension_options.iter().map(any).collect(),
    };
    let mut buf = Vec::new();
    prost::Message::encode(&message, &mut buf).ok().map(|_| buf)
}

/// Encodes `cosmos_sdk_proto`'s `AuthInfo` with `prost::Message::encode`:
/// each signer with a single sign mode, the fee as one coin. Claimed: the
/// bytes are [`auth_info_encoding`] of signers and fee.
#[verifier::external_body]
fn encode_auth_info(info: &AuthInfoData) -> (r: Option<Vec<u8>>)
    ensures
        opt_vec_view(r) == auth_info_encoding(
            info.signer_infos@.map_values(|s: SignerInfoData| signer_info_view(s)),
            fee_view(info.fee),
        ),
{
    let f = info.fee.clone();
    let message = AuthInfo {
        signer_infos: info.signer_infos.iter().map(|s| SignerInfo {
            public_key: s.public_key.clone().map(|a| prost_types::Any { type_url: a.type_url, value: a.value }),
            mode_info: Some(ModeInfo { sum: Some(Sum::Single(Single { mode: s.mode })) }),
            sequence: s.sequence,
        }).collect(),
        fee: Some(Fee { amount: vec![Coin { denom: f.denom, amount: f.amount }], gas_limit: f.gas_limit, payer: f.payer, granter: f.granter }),
    };
    let mut buf = Vec::new();
    prost::Message::encode(&message, &mut buf).ok().map(|_| buf)
}

/// Encodes `cosmos_sdk_proto`'s secp256k1 `PubKey` holding `key` with
/// `prost::Message::encode`. Claimed: the bytes are [`public_key_encoding`]
/// of the key.
#[verifier::external_body]
fn encode_public_key(key: &[u8]) -> (r: Option<Vec<u8>>)
    ensures
        opt_vec_view(r) == public_key_encoding(key@),
{
    let message = cosmos_sdk_proto::cosmos::crypto::secp256k1::PubKey { key: key.to_vec() };
    let mut buf = Vec::new();
    prost::Message::encode(&message, &mut buf).ok().map(|_| buf)
}

/// The type URL of a packed secp256k1 public key.
pub open spec fn secp256k1_type_url() -> Seq<char> {
    "/cosmos.crypto.secp256k1.PubKey"@
}

/// The packed public key of the secret key: the secp256k1 `PubKey` message
/// holding the compressed key.
pub open spec fn spec_public_key_any(secret: Seq<u8>) -> Option<(Seq<char>, Seq<u8>)> {
    match secp256k1_public_key(secret) {
        None => None,
        Some(key) => match public_key_encoding(key) {
            None => None,
            Some(value) => Some((secp256k1_type_url(), value)),
        },
    }
}

/// Packs the public key of `secret`; `None` when it has none or the key
/// cannot be encoded.
pub fn public_key_any(secret: &[u8; 32]) -> (r: Option<AnyMessage>)
    ensures
        match spec_public_key_any(secret@) {
            None => r is None,
            Some(v) => r matches Some(a) && any_view(a) == v,
        },
{
    let key = match verifying_key(secret) {
        Some(k) => k,
        None => return None,
    };
    let value = match encode_public_key(key.as_slice()) {
        Some(v) => v,
        None => return None,
    };
    proof {
        reveal_strlit("/cosmos.crypto.secp256k1.PubKey");
    }
    Some(AnyMessage { type_url: owned("/cosmos.crypto.secp256k1.PubKey"), value })
}

/// What a transaction to `chain` signed with `secret` is made of: the
/// encoded body (the messages, the memo, no timeout height and no extension
/// options), the encoded auth info (one signer with the packed public key,
/// sign mode direct (`1`) and `account_sequence`, paying the chain's fee)
/// and the signature over both for `account_number` on the chain's id.
pub open spec fn spec_transaction(
    chain: Chain,
    secret: Seq<u8>,
    memo: Seq<char>,
    messages: Seq<AnyMessage>,
    account_number: u64,
    account_sequence: u64,
) -> Option<(Seq<u8>, Seq<u8>, Seq<u8>)> {
    match tx_body_encoding(anys_view(messages), memo, 0, Seq::empty(), Seq::empty()) {
        None => None,
        Some(body) => match spec_public_key_any(secret) {
            None => None,
            Some(key) => match auth_info_encoding(
                seq![(Some(key), 1i32, account_sequence)],
                (
                    chain.fee.denom@,
                    decimal_display(chain.fee.amount.bytes@),
                    chain.fee.gas_limit,
                    Seq::empty(),
                    Seq::empty(),
                ),
            ) {
                None => None,
                Some(auth) => match spec_transaction_signature(
                    secret,
                    body,
                    auth,
                    chain.id@,
                    account_number,
                ) {
                    None => None,
                    Some(signature) => Some((body, auth, signature)),
                },
            },
        },
    }
}

/// Assembles and signs a transaction carrying `messages` (see
/// [`spec_transaction`]); `None` when a part cannot be encoded or signed.
pub(crate) fn build_transaction(
    chain: &Chain,
    secret: &[u8; 32],
    memo: &str,
    messages: Vec<AnyMessage>,
    account_number: u64,
    account_sequence: u64,
) -> (r: Option<TxRaw>)
    ensures
        match spec_transaction(*chain, secret@, memo@, messages@, account_number, account_sequence) {
            None => r is None,
            Some((body, auth, signature)) => r matches Some(t) && t.body_bytes@ == body
                && t.auth_info_bytes@ == auth && t.signatures@.len() == 1 && t.signatures@[0]@
                == signature,
        },
{
    let body = TxBodyData {
        messages,
        memo: owned(memo),
        timeout_height: 0,
        extension_options: Vec::new(),
        non_critical_extension_options: Vec::new(),
    };
    assert(anys_view(body.extension_options@) =~= Seq::empty());
    assert(anys_view(body.non_critical_extension_options@) =~= Seq::empty());
    let body_bytes = match encode_tx_body(&body) {
        Some(b) => b,
        None => return None,
    };
    let public_key = match public_key_any(secret) {
        Some(k) => k,
        None => return None,
    };
    let ghost key = any_view(public_key);
    let mut signer_infos: Vec<SignerInfoData> = Vec::new();
    signer_infos.push(SignerInfoData { public_key: Some(public_key), mode: 1, sequence: account_sequence });
    let info = AuthInfoData { signer_infos, fee: chain_fee(chain) };
    assert(info.signer_infos@.map_values(|s: SignerInfoData| signer_info_view(s)) =~= seq![
        (Some(key), 1i32, account_sequence),
    ]);
    let auth_info_bytes = match encode_auth_info(&info) {
        Some(a) => a,
        None => return None,
    };
    let signature = match transaction_signature(
        secret,
        body_bytes.as_slice(),
        auth_info_bytes.as_slice(),
        chain.id.as_str(),
        account_number,
    ) {
        Some(s) => s,
        None => return None,
    };
    let mut signatures: Vec<Vec<u8>> = Vec::new();
    signatures.push(signature);
    Some(TxRaw { body_bytes, auth_info_bytes, signatures })
}

/// The protobuf encoding of the solo machine `HeaderData` with this new
/// public key and diversifier; `None` when encoding fails.
pub uninterp spec fn header_data_encoding(
    new_pub_key: Option<(Seq<char>, Seq<u8>)>,
    new_diversifier: Seq<char>,
) -> Option<Seq<u8>>;

/// Encodes `cosmos_sdk_proto`'s solo machine `HeaderData` with
/// `prost::Message::encode`. Claimed: the bytes are [`header_data_encoding`]
/// of the fields.
#[verifier::external_body]
fn encode_header_data(new_pub_key: &AnyMessage, new_diversifier: &str) -> (r: Option<Vec<u8>>)
    ensures
        opt_vec_view(r) == header_data_encoding(Some(any_view(*new_pub_key)), new_diversifier@),
{
    let message = cosmos_sdk_proto::ibc::lightclients::solomachine::v1::HeaderData {
        new_pub_key: Some(prost_types::Any { type_url: new_pub_key.type_url.clone(), value: new_pub_key.value.clone() }),
        new_diversifier: new_diversifier.to_string(),
    };
    let mut buf = Vec::new();
    prost::Message::encode(&message, &mut buf).ok().map(|_| buf)
}

/// The header signature of the solo machine at the chain's sequence: the
/// packed public key of `secret`, and the signature (not timestamped) over
/// the header data that keeps that key and the chain's diversifier.
pub open spec fn spec_header_signature(secret: Seq<u8>, chain: Chain) -> Option<
    ((Seq<char>, Seq<u8>), Seq<u8>),
> {
    match spec_public_key_any(secret) {
        None => None,
        Some(key) => match header_data_encoding(Some(key), chain.diversifier@) {
            None => None,
            Some(data) => match spec_sign(
                secret,
                chain.sequence,
                chain.consensus_timestamp,
                chain.diversifier@,
                DataType::Header,
                data,
                SignMode::Unspecified,
            ) {
                None => None,
                Some(signature) => Some((key, signature)),
            },
        },
    }
}

/// Signs the header at the chain's sequence: the packed public key and the
/// signature of [`spec_header_signature`].
fn header_signature(chain: &Chain, secret: &[u8; 32]) -> (r: Option<(AnyMessage, Vec<u8>)>)
    ensures
        match spec_header_signature(secret@, *chain) {
            None => r is None,
            Some((key, signature)) => r matches Some((k, sig)) && any_view(k) == key && sig@
                == signature,
        },
{
    let key = match public_key_any(secret) {
        Some(k) => k,
        None => return None,
    };
    let data = match encode_header_data(&key, chain.diversifier.as_str()) {
        Some(d) => d,
        None => return None,
    };
    let sign_bytes = sign_bytes_at(chain, DataType::Header, data.as_slice());
    match sign(secret, &sign_bytes, SignMode::Unspecified) {
        Some(signature) => Some((key, signature)),
        None => None,
    }
}

/// Builds the messages that the solo machine sends to one chain. It holds
/// the chain's record, whose signature and packet sequences it moves on as
/// it signs, the key that signs the proofs, the account that signs the
/// transactions, and the memo they carry.
pub struct TransactionBuilder {
    pub chain: Chain,
    pub secret: [u8; 32],
    pub signer: String,
    pub memo: String,
}

/// The builder `b` with its chain record replaced by `chain`.
pub open spec fn with_chain(b: TransactionBuilder, chain: Chain) -> TransactionBuilder {
    TransactionBuilder { chain, ..b }
}

impl TransactionBuilder {
    /// A builder for `chain`, signing proofs with `secret` and transactions
    /// as `signer`.
    pub fn new(chain: Chain, secret: [u8; 32], signer: String, memo: String) -> (r: Self)
        ensures
            r.chain == chain,
            r.secret == secret,
            r.signer == signer,
            r.memo == memo,
    {
        TransactionBuilder { chain, secret, signer, memo }
    }

    /// The message that creates the solo machine client on the chain: it
    /// starts at the chain's sequence, not frozen, allowing updates after a
    /// proposal, with the packed public key of the builder's key and the
    /// chain's diversifier and consensus timestamp, signed by the builder's
    /// account. `None` when the key has no public key that can be packed.
    pub fn msg_create_solo_machine_client(&self) -> (r: Option<CreateClientMessage>)
        ensures
            match spec_public_key_any(self.secret@) {
                None => r is None,
                Some(key) => r matches Some(m) && {
                    &&& m.sequence == self.chain.sequence
                    &&& m.frozen_sequence == 0
                    &&& any_view(m.public_key) == key
                    &&& m.diversifier@ == self.chain.diversifier@
                    &&& m.timestamp == self.chain.consensus_timestamp
                    &&& m.allow_update_after_proposal
                    &&& m.signer@ == self.signer@
                },
            },
    {
        let public_key = match public_key_any(&self.secret) {
            Some(k) => k,
            None => return None,
        };
        Some(
            CreateClientMessage {
                sequence: self.chain.sequence,
                frozen_sequence: 0,
                public_key,
                diversifier: self.chain.diversifier.clone(),
                timestamp: self.chain.consensus_timestamp,
                allow_update_after_proposal: true,
                signer: self.signer.clone(),
            },
        )
    }

    /// The update-client message: a header at the chain's sequence, signed
    /// (not timestamped) over the header data that keeps the solo machine's
    /// public key and the chain's diversifier, carrying that key, the
    /// diversifier and the chain's timestamp, for the solo machine client of
    /// the connection; the sequence then moves one step on. Refused, with the
    /// builder unchanged, when no connection is established or the header
    /// cannot be signed.
    pub fn msg_update_solo_machine_client(&mut self) -> (r: Result<
        UpdateClientMessage,
        TransactionError,
    >)
        requires
            old(self).chain.sequence < u64::MAX,
        ensures
            ({
                let c0 = old(self).chain;
                let h = spec_header_signature(old(self).secret@, c0);
                &&& c0.connection_details is None ==> r == Err::<
                    UpdateClientMessage,
                    TransactionError,
                >(TransactionError::ConnectionNotEstablished)
                &&& c0.connection_details is Some && h is None ==> r == Err::<
                    UpdateClientMessage,
                    TransactionError,
                >(TransactionError::SigningFailed)
                &&& r is Err ==> *final(self) == *old(self)
                &&& c0.connection_details is Some && h is Some ==> r is Ok && *final(self)
                    == with_chain(*old(self), advanced(c0, 1))
                &&& r matches Ok(m) ==> {
                    &&& c0.connection_details matches Some(details)
                    &&& h matches Some((key, signature))
                    &&& m.client_id@ == details.solo_machine_client_id@
                    &&& m.header.sequence == c0.sequence
                    &&& m.header.timestamp == c0.consensus_timestamp
                    &&& m.header.signature@ == signature
                    &&& m.header.new_public_key matches Some(k) && any_view(k) == key
                    &&& m.header.new_diversifier@ == c0.diversifier@
                    &&& m.signer@ == old(self).signer@
                }
            }),
    {
        let client_id = match &self.chain.connection_details {
            Some(d) => d.solo_machine_client_id.clone(),
            None => return Err(TransactionError::ConnectionNotEstablished),
        };
        let sequence = self.chain.sequence;
        let (key, signature) = match header_signature(&self.chain, &self.secret) {
            Some(h) => h,
            None => return Err(TransactionError::SigningFailed),
        };
        self.chain.increment_sequence();
        Ok(
            UpdateClientMessage {
                client_id,
                header: SoloMachineHeader {
                    sequence,
                    timestamp: self.chain.consensus_timestamp,
                    signature,
                    new_public_key: Some(key),
                    new_diversifier: self.chain.diversifier.clone(),
                },
                signer: self.signer.clone(),
            },
        )
    }

    /// The tendermint client state for the chain, at `latest_height` and
    /// with the chain's `unbonding_period` (see `tendermint_client_plan`).
    pub fn msg_create_tendermint_client(
        &self,
        unbonding_period: ProtoDuration,
        latest_height: Height,
    ) -> (r: TendermintClientPlan)
        requires
            self.chain.trusting_period.wf(),
            self.chain.max_clock_drift.wf(),
        ensures
            r.chain_id@ == self.chain.id@,
            r.trust_level == self.chain.trust_level,
            r.trusting_period == spec_duration_to_proto(self.chain.trusting_period),
            r.unbonding_period == unbonding_period,
            r.max_clock_drift == spec_duration_to_proto(self.chain.max_clock_drift),
            r.frozen_height == (Height { revision_number: 0, revision_height: 0 }),
            r.latest_height == latest_height,
            r.upgrade_path@.len() == 2,
            r.upgrade_path@[0]@ == "upgrade"@,
            r.upgrade_path@[1]@ == "upgradedIBCState"@,
            !r.allow_update_after_expiry,
            !r.allow_update_after_misbehaviour,
    {
        tendermint_client_plan(&self.chain, unbonding_period, latest_height)
    }

    /// The connection-open-init message from the solo machine client to the
    /// tendermint client (see `connection_open_init_message`), signed by the
    /// builder's account.
    pub fn msg_connection_open_init(
        &self,
        solo_machine_client_id: &str,
        tendermint_client_id: &str,
    ) -> (r: ConnectionOpenInitMessage)
        ensures
            r.client_id@ == solo_machine_client_id@,
            r.counterparty_client_id@ == tendermint_client_id@,
            r.counterparty_connection_id@ == Seq::<char>::empty(),
            r.counterparty_key_prefix@ == seq![0x69u8, 0x62u8, 0x63u8],
            r.version.identifier@ == "1"@,
            r.version.features@.len() == 2,
            r.version.features@[0]@ == "ORDER_ORDERED"@,
            r.version.features@[1]@ == "ORDER_UNORDERED"@,
            r.delay_period == 0,
            r.signer@ == self.signer@,
    {
        connection_open_init_message(
            solo_machine_client_id,
            tendermint_client_id,
            self.signer.as_str(),
        )
    }

    /// The connection-open-ack message, carrying the packed tendermint client
    /// state `client_state`. Its three proofs (of the connection,
    /// of the tendermint client state and of its consensus state, each given
    /// as the encoded state data) are signed at three consecutive sequences,
    /// starting at the chain's; each signature moves the sequence on, so the
    /// chain ends three steps on. The proof height is the starting sequence.
    /// When a proof cannot be signed, nothing is built and the chain keeps
    /// the steps of the proofs signed before it.
    pub fn msg_connection_open_ack(
        &mut self,
        solo_machine_connection_id: &str,
        tendermint_connection_id: &str,
        client_state: AnyMessage,
        connection_data: &[u8],
        client_data: &[u8],
        consensus_data: &[u8],
        consensus_height: Option<Height>,
    ) -> (r: Option<ConnectionOpenAckMessage>)
        requires
            old(self).chain.sequence <= u64::MAX - 3,
        ensures
            ({
                let b0 = *old(self);
                let c0 = b0.chain;
                let p1 = spec_chain_proof(
                    b0.secret@,
                    c0,
                    DataType::ConnectionState,
                    connection_data@,
                );
                let p2 = spec_chain_proof(
                    b0.secret@,
                    advanced(c0, 1),
                    DataType::ClientState,
                    client_data@,
                );
                let p3 = spec_chain_proof(
                    b0.secret@,
                    advanced(c0, 2),
                    DataType::ConsensusState,
                    consensus_data@,
                );
                &&& p1 is None ==> r is None && *final(self) == b0
                &&& (p1 is Some && p2 is None) ==> r is None && *final(self) == with_chain(
                    b0,
                    advanced(c0, 1),
                )
                &&& (p1 is Some && p2 is Some && p3 is None) ==> r is None && *final(self)
                    == with_chain(b0, advanced(c0, 2))
                &&& (p1 is Some && p2 is Some && p3 is Some) ==> *final(self) == with_chain(
                    b0,
                    advanced(c0, 3),
                ) && r is Some
                &&& r matches Some(m) ==> {
                    &&& Some(m.proof_try@) == p1
                    &&& Some(m.proof_client@) == p2
                    &&& Some(m.proof_consensus@) == p3
                    &&& m.proof_height == proof_height(c0.sequence)
                    &&& m.connection_id@ == solo_machine_connection_id@
                    &&& m.counterparty_connection_id@ == tendermint_connection_id@
                    &&& m.version.identifier@ == "1"@
                    &&& m.version.features@.len() == 2
                    &&& m.version.features@[0]@ == "ORDER_ORDERED"@
                    &&& m.version.features@[1]@ == "ORDER_UNORDERED"@
                    &&& m.client_state == client_state
                    &&& m.consensus_height == consensus_height
                    &&& m.signer@ == b0.signer@
                }
            }),
    {
        let ghost c0 = self.chain;
        let height = Height { revision_number: 0, revision_height: self.chain.sequence };
        let proof_try = match take_proof(
            &mut self.chain,
            &self.secret,
            DataType::ConnectionState,
            connection_data,
        ) {
            Some(p) => p,
            None => return None,
        };
        assert(self.chain == advanced(c0, 1));
        let proof_client = match take_proof(
            &mut self.chain,
            &self.secret,
            DataType::ClientState,
            client_data,
        ) {
            Some(p) => p,
            None => return None,
        };
        assert(self.chain == advanced(c0, 2));
        let proof_consensus = match take_proof(
            &mut self.chain,
            &self.secret,
            DataType::ConsensusState,
            consensus_data,
        ) {
            Some(p) => p,
            None => return None,
        };
        assert(self.chain == advanced(c0, 3));
        Some(
            ConnectionOpenAckMessage {
                connection_id: owned(solo_machine_connection_id),
                counterparty_connection_id: owned(tendermint_connection_id),
                version: connection_version(),
                client_state,
                proof_height: height,
                proof_try,
                proof_client,
                proof_consensus,
                consensus_height,
                signer: self.signer.clone(),
            },
        )
    }

    /// The channel-open-init message: an unordered channel (ordering `1`) in
    /// state `INIT` (`1`) on the chain's port, to the same port on the other
    /// side, over the one connection, with version `ics20-1`.
    pub fn msg_channel_open_init(&self, solo_machine_connection_id: &str) -> (r:
        ChannelOpenInitMessage)
        ensures
            r.port_id@ == self.chain.port_id@,
            r.state == 1,
            r.ordering == 1,
            r.counterparty_port_id@ == self.chain.port_id@,
            r.counterparty_channel_id@ == Seq::<char>::empty(),
            r.connection_hops@.len() == 1,
            r.connection_hops@[0]@ == solo_machine_connection_id@,
            r.version@ == "ics20-1"@,
            r.signer@ == self.signer@,
    {
        proof {
            reveal_strlit("");
        }
        let mut hops: Vec<String> = Vec::new();
        hops.push(owned(solo_machine_connection_id));
        ChannelOpenInitMessage {
            port_id: self.chain.port_id.clone(),
            state: 1,
            ordering: 1,
            counterparty_port_id: self.chain.port_id.clone(),
            counterparty_channel_id: owned(""),
            connection_hops: hops,
            version: owned("ics20-1"),
            signer: self.signer.clone(),
        }
    }

    /// The channel-open-ack message: the proof of the channel (given as the
    /// encoded channel state data) is signed at the chain's sequence, which
    /// then moves one step on; the proof height is that sequence. When the
    /// proof cannot be signed nothing is built and the builder is unchanged.
    pub fn msg_channel_open_ack(
        &mut self,
        solo_machine_channel_id: &str,
        tendermint_channel_id: &str,
        channel_data: &[u8],
    ) -> (r: Option<ChannelOpenAckMessage>)
        requires
            old(self).chain.sequence < u64::MAX,
        ensures
            ({
                let b0 = *old(self);
                let p = spec_chain_proof(
                    b0.secret@,
                    b0.chain,
                    DataType::ChannelState,
                    channel_data@,
                );
                &&& p is None ==> r is None && *final(self) == b0
                &&& p is Some ==> r is Some && *final(self) == with_chain(
                    b0,
                    advanced(b0.chain, 1),
                )
                &&& r matches Some(m) ==> {
                    &&& Some(m.proof_try@) == p
                    &&& m.proof_height == proof_height(b0.chain.sequence)
                    &&& m.port_id@ == b0.chain.port_id@
                    &&& m.channel_id@ == solo_machine_channel_id@
                    &&& m.counterparty_channel_id@ == tendermint_channel_id@
                    &&& m.counterparty_version@ == "ics20-1"@
                    &&& m.signer@ == b0.signer@
                }
            }),
    {
        let height = Height { revision_number: 0, revision_height: self.chain.sequence };
        let proof_try = match take_proof(
            &mut self.chain,
            &self.secret,
            DataType::ChannelState,
            channel_data,
        ) {
            Some(p) => p,
            None => return None,
        };
        Some(
            ChannelOpenAckMessage {
                port_id: self.chain.port_id.clone(),
                channel_id: owned(solo_machine_channel_id),
                counterparty_channel_id: owned(tendermint_channel_id),
                counterparty_version: owned("ics20-1"),
                proof_height: height,
                proof_try,
                signer: self.signer.clone(),
            },
        )
    }

    /// The packet that carries tokens from the solo machine to the chain:
    /// the chain's packet sequence, from the chain's port and tendermint
    /// channel to its port and solo machine channel, the JSON packet data,
    /// a timeout ten blocks past `latest_height` and no timeout timestamp.
    /// Refused when no connection is established, when the data cannot be
    /// serialised, or when the timeout height does not fit.
    pub fn token_send_packet(
        &self,
        data: &TokenTransferPacketData,
        latest_height: Height,
    ) -> (r: Result<Packet, TransactionError>)
        ensures
            self.chain.connection_details is None ==> r == Err::<Packet, TransactionError>(
                TransactionError::ConnectionNotEstablished,
            ),
            self.chain.connection_details is Some && spec_packet_data_json(*data) is None ==> r
                == Err::<Packet, TransactionError>(TransactionError::PacketDataEncoding),
            self.chain.connection_details is Some && spec_packet_data_json(*data) is Some
                && latest_height.revision_height + timeout_height_offset() > u64::MAX ==> r
                == Err::<Packet, TransactionError>(TransactionError::HeightOverflow),
            self.chain.connection_details is Some && spec_packet_data_json(*data) is Some
                && latest_height.revision_height + timeout_height_offset() <= u64::MAX ==> r is Ok,
            r matches Ok(p) ==> {
                &&& self.chain.connection_details matches Some(details)
                &&& spec_packet_data_json(*data) matches Some(text)
                &&& p@ == sent_packet(self.chain, details, text, latest_height)
            },
    {
        let details = match &self.chain.connection_details {
            Some(d) => d,
            None => return Err(TransactionError::ConnectionNotEstablished),
        };
        let bytes = match packet_data_json(data) {
            Some(b) => b,
            None => return Err(TransactionError::PacketDataEncoding),
        };
        let timeout = match latest_height.revision_height.checked_add(10) {
            Some(h) => h,
            None => return Err(TransactionError::HeightOverflow),
        };
        Ok(
            Packet {
                sequence: self.chain.packet_sequence,
                source_port: self.chain.port_id.clone(),
                source_channel: details.tendermint_channel_id.clone(),
                destination_port: self.chain.port_id.clone(),
                destination_channel: details.solo_machine_channel_id.clone(),
                data: bytes,
                timeout_height: Some(
                    Height {
                        revision_number: latest_height.revision_number,
                        revision_height: timeout,
                    },
                ),
                timeout_timestamp: 0,
            },
        )
    }

    /// The receive-packet message that sends `amount` of `denom` from the
    /// builder's account to `receiver` on the chain: the packet is the one
    /// [`Self::token_send_packet`] builds for that data at `latest_height`,
    /// and the proof of its commitment (given as the encoded commitment
    /// data) is signed at the chain's sequence; then both the sequence and
    /// the packet sequence move one step on. The proof height is the signing
    /// sequence. Refused, with the builder unchanged, when no connection is
    /// established, the data cannot be serialised, the timeout height does
    /// not fit, or the proof cannot be signed.
    pub fn msg_token_send(
        &mut self,
        amount: u64,
        denom: &str,
        receiver: &str,
        latest_height: Height,
        commitment_data: &[u8],
    ) -> (r: Result<RecvPacketMessage, TransactionError>)
        requires
            old(self).chain.sequence < u64::MAX,
            old(self).chain.packet_sequence < u64::MAX,
        ensures
            ({
                let b0 = *old(self);
                let c0 = b0.chain;
                let text = spec_transfer_data_json(denom@, amount, b0.signer@, receiver@);
                let fits = latest_height.revision_height + timeout_height_offset() <= u64::MAX;
                let p = spec_chain_proof(
                    b0.secret@,
                    c0,
                    DataType::PacketCommitment,
                    commitment_data@,
                );
                &&& c0.connection_details is None ==> r == Err::<
                    RecvPacketMessage,
                    TransactionError,
                >(TransactionError::ConnectionNotEstablished)
                &&& c0.connection_details is Some && text is None ==> r == Err::<
                    RecvPacketMessage,
                    TransactionError,
                >(TransactionError::PacketDataEncoding)
                &&& c0.connection_details is Some && text is Some && !fits ==> r == Err::<
                    RecvPacketMessage,
                    TransactionError,
                >(TransactionError::HeightOverflow)
                &&& c0.connection_details is Some && text is Some && fits && p is None ==> r
                    == Err::<RecvPacketMessage, TransactionError>(TransactionError::SigningFailed)
                &&& c0.connection_details is Some && text is Some && fits && p is Some ==> r is Ok
                &&& r is Err ==> *final(self) == b0
                &&& r is Ok ==> *final(self) == with_chain(
                    b0,
                    Chain {
                        sequence: (c0.sequence + 1) as u64,
                        packet_sequence: (c0.packet_sequence + 1) as u64,
                        ..c0
                    },
                )
                &&& r matches Ok(m) ==> {
                    &&& c0.connection_details matches Some(details)
                    &&& text matches Some(t)
                    &&& m.packet@ == sent_packet(c0, details, t, latest_height)
                    &&& Some(m.proof_commitment@) == p
                    &&& m.proof_height == proof_height(c0.sequence)
                    &&& m.signer@ == b0.signer@
                }
            }),
    {
        let data = TokenTransferPacketData {
            denom: owned(denom),
            amount,
            sender: self.signer.clone(),
            receiver: owned(receiver),
        };
        let packet = match self.token_send_packet(&data, latest_height) {
            Ok(p) => p,
            Err(e) => return Err(e),
        };
        let height = Height { revision_number: 0, revision_height: self.chain.sequence };
        let proof = match take_proof(
            &mut self.chain,
            &self.secret,
            DataType::PacketCommitment,
            commitment_data,
        ) {
            Some(p) => p,
            None => return Err(TransactionError::SigningFailed),
        };
        self.chain.increment_packet_sequence();
        Ok(
            RecvPacketMessage {
                packet,
                proof_commitment: proof,
                proof_height: height,
                signer: self.signer.clone(),
            },
        )
    }

    /// The transfer message that brings tokens back from the chain: from the
    /// chain's port and the solo machine channel, `amount` of the chain's
    /// denomination `ibc_denom`, from the builder's account to `receiver`,
    /// timing out one past the chain's sequence. Refused when no connection
    /// is established.
    pub fn msg_token_receive(&self, amount: u64, ibc_denom: &str, receiver: &str) -> (r: Result<
        TransferMessage,
        TransactionError,
    >)
        requires
            self.chain.sequence < u64::MAX,
        ensures
            self.chain.connection_details is None ==> r == Err::<
                TransferMessage,
                TransactionError,
            >(TransactionError::ConnectionNotEstablished),
            self.chain.connection_details is Some ==> r is Ok,
            r matches Ok(m) ==> {
                &&& self.chain.connection_details matches Some(details)
                &&& m.source_port@ == self.chain.port_id@
                &&& m.source_channel@ == details.solo_machine_channel_id@
                &&& m.token_amount@ == decimal_text(amount as nat)
                &&& m.token_denom@ == ibc_denom@
                &&& m.sender@ == self.signer@
                &&& m.receiver@ == receiver@
                &&& m.timeout_height == Height {
                    revision_number: 0,
                    revision_height: (self.chain.sequence + 1) as u64,
                }
                &&& m.timeout_timestamp == 0
            },
    {
        let details = match &self.chain.connection_details {
            Some(d) => d,
            None => return Err(TransactionError::ConnectionNotEstablished),
        };
        Ok(
            TransferMessage {
                source_port: self.chain.port_id.clone(),
                source_channel: details.solo_machine_channel_id.clone(),
                token_amount: u64_to_decimal(amount),
                token_denom: owned(ibc_denom),
                sender: self.signer.clone(),
                receiver: owned(receiver),
                timeout_height: Height {
                    revision_number: 0,
                    revision_height: self.chain.sequence + 1,
                },
                timeout_timestamp: 0,
            },
        )
    }

    /// The acknowledgement message for a packet received by the solo
    /// machine: the proof of the acknowledgement (given as the encoded
    /// acknowledgement data) is signed at the chain's sequence, which then
    /// moves one step on; the proof height is that sequence. When the proof
    /// cannot be signed nothing is built and the builder is unchanged.
    pub fn msg_token_receive_ack(&mut self, packet: Packet, acknowledgement_data: &[u8]) -> (r:
        Option<AcknowledgementMessage>)
        requires
            old(self).chain.sequence < u64::MAX,
        ensures
            ({
                let b0 = *old(self);
                let p = spec_chain_proof(
                    b0.secret@,
                    b0.chain,
                    DataType::PacketAcknowledgement,
                    acknowledgement_data@,
                );
                &&& p is None ==> r is None && *final(self) == b0
                &&& p is Some ==> r is Some && *final(self) == with_chain(
                    b0,
                    advanced(b0.chain, 1),
                )
                &&& r matches Some(m) ==> {
                    &&& m.packet == packet
                    &&& m.acknowledgement@ == encode_utf8("{\"result\":[1]}"@)
                    &&& Some(m.proof_acked@) == p
                    &&& m.proof_height == proof_height(b0.chain.sequence)
                    &&& m.signer@ == b0.signer@
                }
            }),
    {
        let height = Height { revision_number: 0, revision_height: self.chain.sequence };
        let proof = match take_proof(
            &mut self.chain,
            &self.secret,
            DataType::PacketAcknowledgement,
            acknowledgement_data,
        ) {
            Some(p) => p,
            None => return None,
        };
        Some(
            AcknowledgementMessage {
                packet,
                acknowledgement: acknowledgement(),
                proof_acked: proof,
                proof_height: height,
                signer: self.signer.clone(),
            },
        )
    }

    /// The fee every transaction to the chain pays (see `chain_fee`).
    pub fn transaction_fee(&self) -> (r: TransactionFee)
        ensures
            r.denom@ == self.chain.fee.denom@,
            r.amount@ == decimal_display(self.chain.fee.amount.bytes@),
            r.gas_limit == self.chain.fee.gas_limit,
            r.payer@ == Seq::<char>::empty(),
            r.granter@ == Seq::<char>::empty(),
    {
        chain_fee(&self.chain)
    }

    /// Assembles and signs a transaction to the chain carrying `messages`,
    /// with the builder's memo, for the account with `account_number` at
    /// `account_sequence` (see [`spec_transaction`]).
    pub fn build(&self, messages: Vec<AnyMessage>, account_number: u64, account_sequence: u64) -> (r:
        Option<TxRaw>)
        ensures
            match spec_transaction(
                self.chain,
                self.secret@,
                self.memo@,
                messages@,
                account_number,
                account_sequence,
            ) {
                None => r is None,
                Some((body, auth, signature)) => r matches Some(t) && t.body_bytes@ == body
                    && t.auth_info_bytes@ == auth && t.signatures@.len() == 1
                    && t.signatures@[0]@ == signature,
            },
    {
        build_transaction(
            &self.chain,
            &self.secret,
            self.memo.as_str(),
            messages,
            account_number,
            account_sequence,
        )
    }
}

} // verus!
