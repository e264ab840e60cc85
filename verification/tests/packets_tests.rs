use solo_machine::packets::{
    base_denom, check_packet_route, ensure_response_success, extract_attribute, extract_packets,
    get_attribute, last_attribute_value, packet_data_from_entries, packet_from_attributes,
    packet_mint_order, parse_height, parse_packet_data, AttributeError, EventAttribute, Height,
    Packet, PacketDataError, PacketError, PacketField, PacketProcessingError, PacketRouteError,
    ResponseError, TxEvent,
};

fn attr(key: &str, value: &str) -> EventAttribute {
    EventAttribute { key: key.to_string(), value: value.to_string() }
}

fn event(type_str: &str, attributes: Vec<EventAttribute>) -> TxEvent {
    TxEvent { type_str: type_str.to_string(), attributes }
}

fn send_packet_attributes() -> Vec<EventAttribute> {
    vec![
        attr("packet_data", "{\"amount\":\"100\",\"denom\":\"transfer/channel-0/gld\",\"receiver\":\"cosmos1xyz\",\"sender\":\"cosmos1abc\"}"),
        attr("packet_timeout_height", "0-120"),
        attr("packet_timeout_timestamp", "0"),
        attr("packet_sequence", "7"),
        attr("packet_src_port", "transfer"),
        attr("packet_src_channel", "channel-1"),
        attr("packet_dst_port", "transfer"),
        attr("packet_dst_channel", "channel-0"),
    ]
}

#[test]
fn get_attribute_returns_first_match() {
    let tags = vec![attr("a", "1"), attr("b", "2"), attr("a", "3")];
    assert_eq!(get_attribute(&tags, "a"), Ok("1".to_string()));
    assert_eq!(get_attribute(&tags, "c"), Err(AttributeError::KeyNotFound));
    assert_eq!(last_attribute_value(&tags, "a"), Some("3".to_string()));
    assert_eq!(last_attribute_value(&tags, "c"), None);
}

#[test]
fn extract_attribute_takes_last_event_of_type() {
    let events = vec![
        event("create_client", vec![attr("client_id", "07-tendermint-0")]),
        event("message", vec![attr("client_id", "ignored")]),
        event("create_client", vec![attr("client_id", "06-solomachine-1")]),
    ];
    assert_eq!(
        extract_attribute(&events, "create_client", "client_id"),
        Ok("06-solomachine-1".to_string())
    );
    assert_eq!(
        extract_attribute(&events, "connection_open_init", "connection_id"),
        Err(AttributeError::EventNotFound)
    );
    let broken = vec![
        event("create_client", vec![attr("other", "x")]),
        event("create_client", vec![attr("client_id", "y")]),
    ];
    assert_eq!(extract_attribute(&broken, "create_client", "client_id"), Err(AttributeError::KeyNotFound));
}

#[test]
fn heights_parse_as_revision_dash_height() {
    assert_eq!(parse_height("1-10"), Some(Height { revision_number: 1, revision_height: 10 }));
    assert_eq!(parse_height("0-120"), Some(Height { revision_number: 0, revision_height: 120 }));
    assert_eq!(parse_height("10"), None);
    assert_eq!(parse_height("a-1"), None);
}

#[test]
fn response_codes_must_both_be_zero() {
    assert_eq!(ensure_response_success(0, 0), Ok(()));
    assert_eq!(ensure_response_success(1, 0), Err(ResponseError::CheckTxFailed));
    assert_eq!(ensure_response_success(1, 5), Err(ResponseError::CheckTxFailed));
    assert_eq!(ensure_response_success(0, 5), Err(ResponseError::DeliverTxFailed));
}

#[test]
fn packet_is_read_from_send_packet_attributes() {
    let packet = packet_from_attributes(&send_packet_attributes()).unwrap();
    assert_eq!(packet.sequence, 7);
    assert_eq!(packet.source_port, "transfer");
    assert_eq!(packet.source_channel, "channel-1");
    assert_eq!(packet.destination_port, "transfer");
    assert_eq!(packet.destination_channel, "channel-0");
    assert_eq!(packet.timeout_height, Some(Height { revision_number: 0, revision_height: 120 }));
    assert_eq!(packet.timeout_timestamp, 0);
    assert!(packet.data.starts_with(b"{\"amount\""));
}

#[test]
fn packet_errors_name_the_field() {
    let mut tags = send_packet_attributes();
    tags.retain(|t| t.key != "packet_src_port");
    assert!(matches!(
        packet_from_attributes(&tags),
        Err(PacketError::MissingAttribute(PacketField::SourcePort))
    ));
    let mut tags = send_packet_attributes();
    tags.push(attr("packet_sequence", "seven"));
    assert!(matches!(
        packet_from_attributes(&tags),
        Err(PacketError::InvalidAttribute(PacketField::Sequence))
    ));
}

#[test]
fn extract_packets_reads_every_send_packet_event() {
    let events = vec![
        event("message", vec![attr("action", "transfer")]),
        event("send_packet", send_packet_attributes()),
        event("send_packet", send_packet_attributes()),
    ];
    let packets = extract_packets(&events).unwrap();
    assert_eq!(packets.len(), 2);
    assert!(extract_packets(&vec![event("message", vec![])]).unwrap().is_empty());
    let bad = vec![event("send_packet", vec![attr("packet_sequence", "1")])];
    assert!(extract_packets(&bad).is_err());
}

#[test]
fn packet_data_is_read_from_json() {
    let data = parse_packet_data(b"{\"amount\":\"100\",\"denom\":\"gld\",\"receiver\":\"r\",\"sender\":\"s\"}").unwrap();
    assert_eq!(data.amount, 100);
    assert_eq!(data.denom, "gld");
    assert_eq!(data.receiver, "r");
    assert_eq!(data.sender, "s");
    assert_eq!(parse_packet_data(b"not json").unwrap_err(), PacketDataError::InvalidPacketData);
    assert_eq!(parse_packet_data(b"{\"amount\":\"1\"}").unwrap_err(), PacketDataError::MissingDenom);
    assert_eq!(
        parse_packet_data(b"{\"amount\":\"x\",\"denom\":\"d\",\"receiver\":\"r\",\"sender\":\"s\"}").unwrap_err(),
        PacketDataError::InvalidAmount
    );
    let entries = vec![("denom".to_string(), "d".to_string()), ("amount".to_string(), "5".to_string())];
    assert_eq!(packet_data_from_entries(&entries).unwrap_err(), PacketDataError::MissingReceiver);
}

#[test]
fn base_denom_is_last_path_segment() {
    assert_eq!(base_denom("transfer/channel-0/gld"), "gld");
    assert_eq!(base_denom("gld"), "gld");
    assert_eq!(base_denom("a/"), "");
}

fn routed_packet(src_port: &str, src_channel: &str, dst_port: &str, dst_channel: &str, data: &[u8]) -> Packet {
    Packet {
        sequence: 1,
        source_port: src_port.to_string(),
        source_channel: src_channel.to_string(),
        destination_port: dst_port.to_string(),
        destination_channel: dst_channel.to_string(),
        data: data.to_vec(),
        timeout_height: None,
        timeout_timestamp: 0,
    }
}

#[test]
fn packet_route_must_match_connection() {
    let ok = routed_packet("transfer", "channel-1", "transfer", "channel-0", b"");
    assert_eq!(check_packet_route("transfer", "channel-1", "channel-0", &ok), Ok(()));
    let p = routed_packet("other", "channel-1", "transfer", "channel-0", b"");
    assert_eq!(check_packet_route("transfer", "channel-1", "channel-0", &p), Err(PacketRouteError::InvalidSourcePort));
    let p = routed_packet("transfer", "channel-9", "transfer", "channel-0", b"");
    assert_eq!(check_packet_route("transfer", "channel-1", "channel-0", &p), Err(PacketRouteError::InvalidSourceChannel));
    let p = routed_packet("transfer", "channel-1", "other", "channel-0", b"");
    assert_eq!(check_packet_route("transfer", "channel-1", "channel-0", &p), Err(PacketRouteError::InvalidDestinationPort));
    let p = routed_packet("transfer", "channel-1", "transfer", "channel-9", b"");
    assert_eq!(check_packet_route("transfer", "channel-1", "channel-0", &p), Err(PacketRouteError::InvalidDestinationChannel));
}

#[test]
fn mint_order_uses_base_denom() {
    let data = b"{\"amount\":\"25\",\"denom\":\"transfer/channel-0/gld\",\"receiver\":\"alice\",\"sender\":\"bob\"}";
    let p = routed_packet("transfer", "channel-1", "transfer", "channel-0", data);
    let order = packet_mint_order("transfer", "channel-1", "channel-0", &p).unwrap();
    assert_eq!(order.receiver, "alice");
    assert_eq!(order.amount, 25);
    assert_eq!(order.denom, "gld");
    let bad_route = routed_packet("x", "channel-1", "transfer", "channel-0", data);
    assert_eq!(
        packet_mint_order("transfer", "channel-1", "channel-0", &bad_route).unwrap_err(),
        PacketProcessingError::Route(PacketRouteError::InvalidSourcePort)
    );
    let bad_data = routed_packet("transfer", "channel-1", "transfer", "channel-0", b"[]");
    assert_eq!(
        packet_mint_order("transfer", "channel-1", "channel-0", &bad_data).unwrap_err(),
        PacketProcessingError::Data(PacketDataError::InvalidPacketData)
    );
}
