use vstd::prelude::*;
use crate::signing::opt_vec_view;
use crate::text::owned;
use crate::transaction::{ChannelOpenInitMessage, ConnectionVersion, connection_version};

verus! {

/// The other end of a connection.
#[derive(Debug, Clone)]
pub struct ConnectionCounterparty {
    pub client_id: String,
    pub connection_id: String,
    pub key_prefix: Option<Vec<u8>>,
}

/// A connection end as the solo machine stores it.
#[derive(Debug, Clone)]
pub struct ConnectionEnd {
    pub client_id: String,
    pub versions: Vec<ConnectionVersion>,
    pub state: i32,
    pub counterparty: Option<ConnectionCounterparty>,
    pub delay_period: u64,
}

/// The mathematical content of a [`ConnectionEnd`].
pub ghost struct ConnectionEndView {
    pub client_id: Seq<char>,
    pub versions: Seq<(Seq<char>, Seq<Seq<char>>)>,
    pub state: i32,
    pub counterparty: Option<(Seq<char>, Seq<char>, Option<Seq<u8>>)>,
    pub delay_period: u64,
}

pub open spec fn version_view(v: ConnectionVersion) -> (Seq<char>, Seq<Seq<char>>) {
    (v.identifier@, v.features@.map_values(|f: String| f@))
}

/// The connection version the solo machine proposes and accepts: identifier
/// `1` with ordered and unordered channels.
pub open spec fn proposed_version() -> (Seq<char>, Seq<Seq<char>>) {
    ("1"@, seq!["ORDER_ORDERED"@, "ORDER_UNORDERED"@])
}

pub open spec fn counterparty_view(c: ConnectionCounterparty) -> (Seq<char>, Seq<char>, Option<Seq<u8>>) {
    (c.client_id@, c.connection_id@, opt_vec_view(c.key_prefix))
}

impl View for ConnectionEnd {
    type V = ConnectionEndView;

    open spec fn view(&self) -> ConnectionEndView {
        ConnectionEndView {
            client_id: self.client_id@,
            versions: self.versions@.map_values(|v: ConnectionVersion| version_view(v)),
            state: self.state,
            counterparty: match self.counterparty {
                Some(c) => Some(counterparty_view(c)),
                None => None,
            },
            delay_period: self.delay_period,
        }
    }
}

/// The other end of a channel.
#[derive(Debug, Clone)]
pub struct ChannelCounterparty {
    pub port_id: String,
    pub channel_id: String,
}

/// A channel end as the solo machine stores it.
#[derive(Debug, Clone)]
pub struct Channel {
    pub state: i32,
    pub ordering: i32,
    pub counterparty: Option<ChannelCounterparty>,
    pub connection_hops: Vec<String>,
    pub version: String,
}

/// The mathematical content of a [`Channel`].
pub ghost struct ChannelView {
    pub state: i32,
    pub ordering: i32,
    pub counterparty: Option<(Seq<char>, Seq<char>)>,
    pub connection_hops: Seq<Seq<char>>,
    pub version: Seq<char>,
}

impl View for Channel {
    type V = ChannelView;

    open spec fn view(&self) -> ChannelView {
        ChannelView {
            state: self.state,
            ordering: self.ordering,
            counterparty: match self.counterparty {
                Some(c) => Some((c.port_id@, c.channel_id@)),
                None => None,
            },
            connection_hops: self.connection_hops@.map_values(|h: String| h@),
            version: self.version@,
        }
    }
}

/// The protobuf encoding of a connection end; `None` when encoding fails.
pub uninterp spec fn connection_end_encoding(end: ConnectionEndView) -> Option<Seq<u8>>;

/// The connection end that protobuf bytes decode to; `None` when they
/// decode to none.
pub uninterp spec fn connection_end_decoding(bytes: Seq<u8>) -> Option<ConnectionEndView>;

/// The protobuf encoding of a channel end; `None` when encoding fails.
pub uninterp spec fn channel_encoding(channel: ChannelView) -> Option<Seq<u8>>;

/// The channel end that protobuf bytes decode to; `None` when they decode to
/// none.
pub uninterp spec fn channel_decoding(bytes: Seq<u8>) -> Option<ChannelView>;

/// Encodes a connection end with `prost::Message::encode` on
/// `cosmos_sdk_proto`'s `ConnectionEnd`. Claimed: the bytes are
/// [`connection_end_encoding`] of the end's view.
#[verifier::external_body]
fn encode_connection_end(end: ConnectionEnd) -> (r: Option<Vec<u8>>)
    ensures
        opt_vec_view(r) == connection_end_encoding(end@),
{
    let message = cosmos_sdk_proto::ibc::core::connection::v1::ConnectionEnd {
        client_id: end.client_id,
        versions: end.versions.into_iter().map(|v| cosmos_sdk_proto::ibc::core::connection::v1::Version { identifier: v.identifier, features: v.features }).collect(),
        state: end.state,
        counterparty: end.counterparty.map(|c| cosmos_sdk_proto::ibc::core::connection::v1::Counterparty {
            client_id: c.client_id,
            connection_id: c.connection_id,
            prefix: c.key_prefix.map(|p| cosmos_sdk_proto::ibc::core::commitment::v1::MerklePrefix { key_prefix: p }),
        }),
        delay_period: end.delay_period,
    };
    let mut buf = Vec::new();
    prost::Message::encode(&message, &mut buf).ok().map(|_| buf)
}

/// Decodes a connection end with `prost::Message::decode` on
/// `cosmos_sdk_proto`'s `ConnectionEnd`. Claimed: the view of the result is
/// [`connection_end_decoding`] of the bytes.
#[verifier::external_body]
fn decode_connection_end(bytes: &[u8]) -> (r: Option<ConnectionEnd>)
    ensures
        match r {
            Some(end) => connection_end_decoding(bytes@) == Some(end@),
            None => connection_end_decoding(bytes@) is None,
        },
{
    let message = <cosmos_sdk_proto::ibc::core::connection::v1::ConnectionEnd as prost::Message>::decode(bytes).ok()?;
    Some(ConnectionEnd {
        client_id: message.client_id,
        versions: message.versions.into_iter().map(|v| ConnectionVersion { identifier: v.identifier, features: v.features }).collect(),
        state: message.state,
        counterparty: message.counterparty.map(|c| ConnectionCounterparty {
            client_id: c.client_id,
            connection_id: c.connection_id,
            key_prefix: c.prefix.map(|p| p.key_prefix),
        }),
        delay_period: message.delay_period,
    })
}

/// Encodes a channel end with `prost::Message::encode` on
/// `cosmos_sdk_proto`'s `Channel`. Claimed: the bytes are
/// [`channel_encoding`] of the channel's view.
#[verifier::external_body]
fn encode_channel(channel: Channel) -> (r: Option<Vec<u8>>)
    ensures
        opt_vec_view(r) == channel_encoding(channel@),
{
    let message = cosmos_sdk_proto::ibc::core::channel::v1::Channel {
        state: channel.state,
        ordering: channel.ordering,
        counterparty: channel.counterparty.map(|c| cosmos_sdk_proto::ibc::core::channel::v1::Counterparty { port_id: c.port_id, channel_id: c.channel_id }),
        connection_hops: channel.connection_hops,
        version: channel.version,
    };
    let mut buf = Vec::new();
    prost::Message::encode(&message, &mut buf).ok().map(|_| buf)
}

/// Decodes a channel end with `prost::Message::decode` on
/// `cosmos_sdk_proto`'s `Channel`. Claimed: the view of the result is
/// [`channel_decoding`] of the bytes.
#[verifier::external_body]
fn decode_channel(bytes: &[u8]) -> (r: Option<Channel>)
    ensures
        match r {
            Some(channel) => channel_decoding(bytes@) == Some(channel@),
            None => channel_decoding(bytes@) is None,
        },
{
    let message = <cosmos_sdk_proto::ibc::core::channel::v1::Channel as prost::Message>::decode(bytes).ok()?;
    Some(Channel {
        state: message.state,
        ordering: message.ordering,
        counterparty: message.counterparty.map(|c| ChannelCounterparty {
            port_id: c.port_id,
            channel_id: c.channel_id,
        }),
        connection_hops: message.connection_hops,
        version: message.version,
    })
}

/// State `TRYOPEN` of connections and channels.
pub open spec fn state_try_open() -> i32 {
    2
}

/// State `OPEN` of connections and channels.
pub open spec fn state_open() -> i32 {
    3
}

/// The connection end the solo machine opens in answer to the chain's
/// connection-open-init: on the tendermint client, towards the chain's
/// connection on the solo machine client with key prefix `ibc`, version
/// `1` with ordered and unordered channels, in state `TRYOPEN`, no delay.
pub open spec fn spec_try_connection(
    tendermint_client_id: Seq<char>,
    solo_machine_client_id: Seq<char>,
    solo_machine_connection_id: Seq<char>,
) -> ConnectionEndView {
    ConnectionEndView {
        client_id: tendermint_client_id,
        versions: seq![("1"@, seq!["ORDER_ORDERED"@, "ORDER_UNORDERED"@])],
        state: state_try_open(),
        counterparty: Some(
            (solo_machine_client_id, solo_machine_connection_id, Some(seq![0x69u8, 0x62u8, 0x63u8])),
        ),
        delay_period: 0,
    }
}

/// Why a stored connection or channel end could not be confirmed.
#[derive(Debug, Clone, Copy, PartialEq, Eq, Structural)]
pub enum HandlerError {
    /// Nothing is stored for the identifier.
    NotFound,
    /// The stored bytes are no valid end.
    InvalidStoredEnd,
    /// The end could not be encoded.
    Encoding,
}

/// The encoded connection end stored for connection-open-try.
pub fn connection_open_try(
    tendermint_client_id: &str,
    solo_machine_client_id: &str,
    solo_machine_connection_id: &str,
) -> (r: Result<Vec<u8>, HandlerError>)
    ensures
        match connection_end_encoding(
            spec_try_connection(
                tendermint_client_id@,
                solo_machine_client_id@,
                solo_machine_connection_id@,
            ),
        ) {
            Some(b) => r matches Ok(v) && v@ == b,
            None => r == Err::<Vec<u8>, HandlerError>(HandlerError::Encoding),
        },
{
    let mut prefix: Vec<u8> = Vec::new();
    prefix.push(0x69u8);
    prefix.push(0x62u8);
    prefix.push(0x63u8);
    let mut versions: Vec<ConnectionVersion> = Vec::new();
    versions.push(connection_version());
    let end = ConnectionEnd {
        client_id: owned(tendermint_client_id),
        versions,
        state: 2,
        counterparty: Some(
            ConnectionCounterparty {
                client_id: owned(solo_machine_client_id),
                connection_id: owned(solo_machine_connection_id),
                key_prefix: Some(prefix),
            },
        ),
        delay_period: 0,
    };
    proof {
        let v = end@;
        let w = spec_try_connection(
            tendermint_client_id@,
            solo_machine_client_id@,
            solo_machine_connection_id@,
        );
        assert(end.versions@[0].features@.map_values(|f: String| f@) =~= seq![
            "ORDER_ORDERED"@,
            "ORDER_UNORDERED"@,
        ]);
        assert(v.versions =~= w.versions);
        assert(opt_vec_view(end.counterparty->0.key_prefix) == Some(seq![0x69u8, 0x62u8, 0x63u8]));
        assert(v == w);
    }
    match encode_connection_end(end) {
        Some(b) => Ok(b),
        None => Err(HandlerError::Encoding),
    }
}

/// The connection end stored in answer to connection-open-init holds exactly
/// one version, the one the solo machine proposes; it is the version that
/// the connection-open-init and connection-open-ack messages carry (any
/// version `v` with identifier `1` and the features ordered, then
/// unordered), so the chain's check of the stored end against the
/// acknowledged version holds.
pub proof fn lemma_try_end_holds_the_proposed_version(
    tendermint_client_id: Seq<char>,
    solo_machine_client_id: Seq<char>,
    solo_machine_connection_id: Seq<char>,
    v: ConnectionVersion,
)
    requires
        v.identifier@ == "1"@,
        v.features@.len() == 2,
        v.features@[0]@ == "ORDER_ORDERED"@,
        v.features@[1]@ == "ORDER_UNORDERED"@,
    ensures
        spec_try_connection(
            tendermint_client_id,
            solo_machine_client_id,
            solo_machine_connection_id,
        ).versions.len() == 1,
        spec_try_connection(
            tendermint_client_id,
            solo_machine_client_id,
            solo_machine_connection_id,
        ).versions[0] == version_view(v),
        version_view(v) == proposed_version(),
{
    assert(v.features@.map_values(|f: String| f@) =~= seq!["ORDER_ORDERED"@, "ORDER_UNORDERED"@]);
}

/// A connection end with its state set to `OPEN`, all else kept.
pub open spec fn opened_connection(end: ConnectionEndView) -> ConnectionEndView {
    ConnectionEndView { state: state_open(), ..end }
}

/// Confirms a stored connection end: decodes it, sets its state to `OPEN`
/// and encodes it again; everything but the state is kept.
pub fn connection_open_confirm(stored: &Option<Vec<u8>>) -> (r: Result<Vec<u8>, HandlerError>)
    ensures
        match *stored {
            None => r == Err::<Vec<u8>, HandlerError>(HandlerError::NotFound),
            Some(bytes) => match connection_end_decoding(bytes@) {
                None => r == Err::<Vec<u8>, HandlerError>(HandlerError::InvalidStoredEnd),
                Some(end) => match connection_end_encoding(opened_connection(end)) {
                    Some(b) => r matches Ok(v) && v@ == b,
                    None => r == Err::<Vec<u8>, HandlerError>(HandlerError::Encoding),
                },
            },
        },
{
    let bytes = match stored {
        Some(b) => b,
        None => return Err(HandlerError::NotFound),
    };
    let mut end = match decode_connection_end(bytes.as_slice()) {
        Some(e) => e,
        None => return Err(HandlerError::InvalidStoredEnd),
    };
    let ghost before = end@;
    end.state = 3;
    assert(end@ == opened_connection(before));
    match encode_connection_end(end) {
        Some(b) => Ok(b),
        None => Err(HandlerError::Encoding),
    }
}

/// The channel the solo machine opens in answer to the chain's
/// channel-open-init: unordered (`1`), in state `TRYOPEN`, towards the
/// chain's channel on the same port, over the tendermint connection, with
/// version `ics20-1`.
pub open spec fn spec_try_channel(
    port_id: Seq<char>,
    solo_machine_channel_id: Seq<char>,
    tendermint_connection_id: Seq<char>,
) -> ChannelView {
    ChannelView {
        state: state_try_open(),
        ordering: 1,
        counterparty: Some((port_id, solo_machine_channel_id)),
        connection_hops: seq![tendermint_connection_id],
        version: "ics20-1"@,
    }
}

/// The encoded channel end stored for channel-open-try.
pub fn channel_open_try(
    port_id: &str,
    solo_machine_channel_id: &str,
    tendermint_connection_id: &str,
) -> (r: Result<Vec<u8>, HandlerError>)
    ensures
        match channel_encoding(
            spec_try_channel(port_id@, solo_machine_channel_id@, tendermint_connection_id@),
        ) {
            Some(b) => r matches Ok(v) && v@ == b,
            None => r == Err::<Vec<u8>, HandlerError>(HandlerError::Encoding),
        },
{
    let mut hops: Vec<String> = Vec::new();
    hops.push(owned(tendermint_connection_id));
    let channel = Channel {
        state: 2,
        ordering: 1,
        counterparty: Some(
            ChannelCounterparty {
                port_id: owned(port_id),
                channel_id: owned(solo_machine_channel_id),
            },
        ),
        connection_hops: hops,
        version: owned("ics20-1"),
    };
    proof {
        assert(channel.connection_hops@.map_values(|h: String| h@) =~= seq![
            tendermint_connection_id@,
        ]);
        assert(channel@ == spec_try_channel(
            port_id@,
            solo_machine_channel_id@,
            tendermint_connection_id@,
        ));
    }
    match encode_channel(channel) {
        Some(b) => Ok(b),
        None => Err(HandlerError::Encoding),
    }
}

/// The channel end stored in answer to the chain's channel-open-init `m`
/// (unordered, version `ics20-1`, on the chain's port) has the ordering and
/// the version of `m`, is one step further than `INIT` (`TRYOPEN`), faces
/// the chain's channel on the port of `m`, and runs over the tendermint
/// connection alone.
pub proof fn lemma_try_channel_matches_the_init(
    m: ChannelOpenInitMessage,
    solo_machine_channel_id: Seq<char>,
    tendermint_connection_id: Seq<char>,
)
    requires
        m.state == 1,
        m.ordering == 1,
        m.version@ == "ics20-1"@,
    ensures
        ({
            let c = spec_try_channel(m.port_id@, solo_machine_channel_id, tendermint_connection_id);
            &&& c.ordering == m.ordering
            &&& c.version == m.version@
            &&& c.state == m.state + 1
            &&& c.counterparty == Some((m.port_id@, solo_machine_channel_id))
            &&& c.connection_hops.len() == 1
            &&& c.connection_hops[0] == tendermint_connection_id
        }),
{
}

/// A channel end with its state set to `OPEN`, all else kept.
pub open spec fn opened_channel(channel: ChannelView) -> ChannelView {
    ChannelView { state: state_open(), ..channel }
}

/// Confirms a stored channel end: decodes it, sets its state to `OPEN` and
/// encodes it again; everything but the state is kept.
pub fn channel_open_confirm(stored: &Option<Vec<u8>>) -> (r: Result<Vec<u8>, HandlerError>)
    ensures
        match *stored {
            None => r == Err::<Vec<u8>, HandlerError>(HandlerError::NotFound),
            Some(bytes) => match channel_decoding(bytes@) {
                None => r == Err::<Vec<u8>, HandlerError>(HandlerError::InvalidStoredEnd),
                Some(channel) => match channel_encoding(opened_channel(channel)) {
                    Some(b) => r matches Ok(v) && v@ == b,
                    None => r == Err::<Vec<u8>, HandlerError>(HandlerError::Encoding),
                },
            },
        },
{
    let bytes = match stored {
        Some(b) => b,
        None => return Err(HandlerError::NotFound),
    };
    let mut channel = match decode_channel(bytes.as_slice()) {
        Some(c) => c,
        None => return Err(HandlerError::InvalidStoredEnd),
    };
    let ghost before = channel@;
    channel.state = 3;
    assert(channel@ == opened_channel(before));
    match encode_channel(channel) {
        Some(b) => Ok(b),
        None => Err(HandlerError::Encoding),
    }
}

/// Reads a stored connection end: nothing stored is no connection; bytes
/// that decode to no connection end are refused.
pub fn get_connection(stored: &Option<Vec<u8>>) -> (r: Result<Option<ConnectionEnd>, HandlerError>)
    ensures
        match *stored {
            None => r matches Ok(None),
            Some(bytes) => match connection_end_decoding(bytes@) {
                None => r == Err::<Option<ConnectionEnd>, HandlerError>(
                    HandlerError::InvalidStoredEnd,
                ),
                Some(end) => r matches Ok(Some(e)) && e@ == end,
            },
        },
{
    match stored {
        None => Ok(None),
        Some(bytes) => match decode_connection_end(bytes.as_slice()) {
            None => Err(HandlerError::InvalidStoredEnd),
            Some(end) => Ok(Some(end)),
        },
    }
}

} // verus!
