use solo_machine::handler::get_connection;
use solo_machine::handler::{channel_open_confirm, channel_open_try, connection_open_confirm, connection_open_try, HandlerError};

#[test]
fn connection_try_then_confirm() {
    let bytes = connection_open_try("07-tendermint-0", "06-solomachine-0", "connection-0").unwrap();
    let end = <cosmos_sdk_proto::ibc::core::connection::v1::ConnectionEnd as prost::Message>::decode(bytes.as_slice()).unwrap();
    assert_eq!(end.client_id, "07-tendermint-0");
    assert_eq!(end.state, 2);
    let cp = end.counterparty.clone().unwrap();
    assert_eq!(cp.client_id, "06-solomachine-0");
    assert_eq!(cp.connection_id, "connection-0");
    assert_eq!(cp.prefix.unwrap().key_prefix, b"ibc".to_vec());
    assert_eq!(end.versions.len(), 1);
    assert_eq!(end.versions[0].identifier, "1");
    assert_eq!(end.delay_period, 0);

    let confirmed = connection_open_confirm(&Some(bytes)).unwrap();
    let opened = <cosmos_sdk_proto::ibc::core::connection::v1::ConnectionEnd as prost::Message>::decode(confirmed.as_slice()).unwrap();
    assert_eq!(opened.state, 3);
    assert_eq!(opened.client_id, end.client_id);
    assert_eq!(opened.counterparty, end.counterparty);
    assert_eq!(opened.versions, end.versions);

    assert_eq!(connection_open_confirm(&None).unwrap_err(), HandlerError::NotFound);
    assert_eq!(connection_open_confirm(&Some(vec![0xff, 0xff])).unwrap_err(), HandlerError::InvalidStoredEnd);
}

#[test]
fn channel_try_then_confirm() {
    let bytes = channel_open_try("transfer", "channel-0", "connection-1").unwrap();
    let ch = <cosmos_sdk_proto::ibc::core::channel::v1::Channel as prost::Message>::decode(bytes.as_slice()).unwrap();
    assert_eq!(ch.state, 2);
    assert_eq!(ch.ordering, 1);
    let cp = ch.counterparty.clone().unwrap();
    assert_eq!(cp.port_id, "transfer");
    assert_eq!(cp.channel_id, "channel-0");
    assert_eq!(ch.connection_hops, vec!["connection-1".to_string()]);
    assert_eq!(ch.version, "ics20-1");

    let confirmed = channel_open_confirm(&Some(bytes)).unwrap();
    let opened = <cosmos_sdk_proto::ibc::core::channel::v1::Channel as prost::Message>::decode(confirmed.as_slice()).unwrap();
    assert_eq!(opened.state, 3);
    assert_eq!(opened.counterparty, ch.counterparty);
    assert_eq!(channel_open_confirm(&None).unwrap_err(), HandlerError::NotFound);
}

#[test]
fn stored_connections_are_read_back() {
    assert!(get_connection(&None).unwrap().is_none());
    let bytes = connection_open_try("07-tendermint-0", "06-solomachine-0", "connection-0").unwrap();
    let end = get_connection(&Some(bytes)).unwrap().unwrap();
    assert_eq!(end.client_id, "07-tendermint-0");
    assert_eq!(end.state, 2);
    assert_eq!(end.counterparty.unwrap().key_prefix, Some(b"ibc".to_vec()));
    assert_eq!(get_connection(&Some(vec![0xff])).unwrap_err(), HandlerError::InvalidStoredEnd);
}
