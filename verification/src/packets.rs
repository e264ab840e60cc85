use vstd::prelude::*;
use crate::numeric::{spec_parse_u64, parse_u64, all_digits, decimal_text, is_ascii_digit, lemma_decimal_text_parses, lemma_u64_text_round_trip};
use crate::text::str_eq;
use vstd::utf8::encode_utf8;
use vstd::slice::slice_to_vec;

verus! {

/// One attribute (tag) of an event in a transaction result.
#[derive(Debug, Clone)]
pub struct EventAttribute {
    pub key: String,
    pub value: String,
}

/// An event reported in the result of a delivered transaction.
#[derive(Debug, Clone)]
pub struct TxEvent {
    pub type_str: String,
    pub attributes: Vec<EventAttribute>,
}

/// An IBC height: revision number and height within that revision.
#[derive(Debug, Clone, Copy, PartialEq, Eq, Structural)]
pub struct Height {
    pub revision_number: u64,
    pub revision_height: u64,
}

/// An IBC packet as it is read from a `send_packet` event.
#[derive(Debug, Clone)]
pub struct Packet {
    pub sequence: u64,
    pub source_port: String,
    pub source_channel: String,
    pub destination_port: String,
    pub destination_channel: String,
    pub data: Vec<u8>,
    pub timeout_height: Option<Height>,
    pub timeout_timestamp: u64,
}

/// The mathematical content of a [`Packet`].
pub ghost struct PacketView {
    pub sequence: u64,
    pub source_port: Seq<char>,
    pub source_channel: Seq<char>,
    pub destination_port: Seq<char>,
    pub destination_channel: Seq<char>,
    pub data: Seq<u8>,
    pub timeout_height: Option<Height>,
    pub timeout_timestamp: u64,
}

impl View for Packet {
    type V = PacketView;

    open spec fn view(&self) -> PacketView {
        PacketView {
            sequence: self.sequence,
            source_port: self.source_port@,
            source_channel: self.source_channel@,
            destination_port: self.destination_port@,
            destination_channel: self.destination_channel@,
            data: self.data@,
            timeout_height: self.timeout_height,
            timeout_timestamp: self.timeout_timestamp,
        }
    }
}

/// The attribute of a `send_packet` event that a packet field is read from.
#[derive(Debug, Clone, Copy, PartialEq, Eq, Structural)]
pub enum PacketField {
    Sequence,
    SourcePort,
    SourceChannel,
    DestinationPort,
    DestinationChannel,
    Data,
    TimeoutHeight,
    TimeoutTimestamp,
}

/// Why a packet could not be read from a `send_packet` event.
#[derive(Debug, Clone, Copy, PartialEq, Eq, Structural)]
pub enum PacketError {
    /// The event has no attribute for the field.
    MissingAttribute(PacketField),
    /// The attribute's value is not a valid value of the field.
    InvalidAttribute(PacketField),
}

/// Why an attribute could not be read from a transaction's events.
#[derive(Debug, Clone, Copy, PartialEq, Eq, Structural)]
pub enum AttributeError {
    /// An event of the wanted type has no attribute with the wanted key.
    KeyNotFound,
    /// No event of the wanted type was found.
    EventNotFound,
}

/// Why a transaction result is not a success.
#[derive(Debug, Clone, Copy, PartialEq, Eq, Structural)]
pub enum ResponseError {
    /// `check_tx` returned a non-zero code.
    CheckTxFailed,
    /// `deliver_tx` returned a non-zero code.
    DeliverTxFailed,
}

pub open spec fn attribute_pairs(v: Seq<EventAttribute>) -> Seq<(Seq<char>, Seq<char>)> {
    Seq::new(v.len(), |i: int| (v[i].key@, v[i].value@))
}

pub open spec fn opt_string_view(o: Option<String>) -> Option<Seq<char>> {
    match o {
        Some(s) => Some(s@),
        None => None,
    }
}

/// The value of the first attribute with key `key`.
pub open spec fn first_value(tags: Seq<(Seq<char>, Seq<char>)>, key: Seq<char>) -> Option<Seq<char>>
    decreases tags.len(),
{
    if tags.len() == 0 {
        None
    } else if tags[0].0 == key {
        Some(tags[0].1)
    } else {
        first_value(tags.drop_first(), key)
    }
}

/// The value of the last attribute with key `key`: collecting the attributes
/// into a map keeps the last value given for a key.
pub open spec fn last_value(tags: Seq<(Seq<char>, Seq<char>)>, key: Seq<char>) -> Option<Seq<char>>
    decreases tags.len(),
{
    if tags.len() == 0 {
        None
    } else if tags.last().0 == key {
        Some(tags.last().1)
    } else {
        last_value(tags.drop_last(), key)
    }
}

/// The value of attribute `key` read from events of type `event_type`: each
/// matching event in turn must hold the key, and the last one's value wins.
pub open spec fn spec_scan_attribute(
    events: Seq<TxEvent>,
    event_type: Seq<char>,
    key: Seq<char>,
) -> Result<Option<Seq<char>>, AttributeError>
    decreases events.len(),
{
    if events.len() == 0 {
        Ok(None)
    } else {
        match spec_scan_attribute(events.drop_last(), event_type, key) {
            Err(e) => Err(e),
            Ok(found) => {
                let ev = events.last();
                if ev.type_str@ == event_type {
                    match first_value(attribute_pairs(ev.attributes@), key) {
                        Some(v) => Ok(Some(v)),
                        None => Err(AttributeError::KeyNotFound),
                    }
                } else {
                    Ok(found)
                }
            },
        }
    }
}

pub open spec fn spec_extract_attribute(
    events: Seq<TxEvent>,
    event_type: Seq<char>,
    key: Seq<char>,
) -> Result<Seq<char>, AttributeError> {
    match spec_scan_attribute(events, event_type, key) {
        Err(e) => Err(e),
        Ok(Some(v)) => Ok(v),
        Ok(None) => Err(AttributeError::EventNotFound),
    }
}

/// Index of the first `c` in `s`, or `s.len()` when there is none.
pub open spec fn first_index_of(s: Seq<char>, c: char) -> int
    decreases s.len(),
{
    if s.len() == 0 {
        0
    } else if s[0] == c {
        0
    } else {
        1 + first_index_of(s.drop_first(), c)
    }
}

pub open spec fn has_char(s: Seq<char>, c: char) -> bool {
    exists|i: int| 0 <= i < s.len() && s[i] == c
}

/// A height written as `<revision number>-<revision height>`.
pub open spec fn spec_parse_height(s: Seq<char>) -> Option<Height> {
    let k = first_index_of(s, '-');
    if k < s.len() && !has_char(s.skip(k + 1), '-') {
        match (spec_parse_u64(s.take(k)), spec_parse_u64(s.skip(k + 1))) {
            (Some(n), Some(h)) => Some(Height { revision_number: n, revision_height: h }),
            _ => None,
        }
    } else {
        None
    }
}

pub open spec fn sequence_key() -> Seq<char> {
    seq!['p', 'a', 'c', 'k', 'e', 't', '_', 's', 'e', 'q', 'u', 'e', 'n', 'c', 'e']
}

pub open spec fn src_port_key() -> Seq<char> {
    seq!['p', 'a', 'c', 'k', 'e', 't', '_', 's', 'r', 'c', '_', 'p', 'o', 'r', 't']
}

pub open spec fn src_channel_key() -> Seq<char> {
    seq!['p', 'a', 'c', 'k', 'e', 't', '_', 's', 'r', 'c', '_', 'c', 'h', 'a', 'n', 'n', 'e', 'l']
}

pub open spec fn dst_port_key() -> Seq<char> {
    seq!['p', 'a', 'c', 'k', 'e', 't', '_', 'd', 's', 't', '_', 'p', 'o', 'r', 't']
}

pub open spec fn dst_channel_key() -> Seq<char> {
    seq!['p', 'a', 'c', 'k', 'e', 't', '_', 'd', 's', 't', '_', 'c', 'h', 'a', 'n', 'n', 'e', 'l']
}

pub open spec fn data_key() -> Seq<char> {
    seq!['p', 'a', 'c', 'k', 'e', 't', '_', 'd', 'a', 't', 'a']
}

pub open spec fn timeout_height_key() -> Seq<char> {
    seq![
        'p', 'a', 'c', 'k', 'e', 't', '_', 't', 'i', 'm', 'e', 'o', 'u', 't', '_', 'h', 'e', 'i',
        'g', 'h', 't',
    ]
}

pub open spec fn timeout_timestamp_key() -> Seq<char> {
    seq![
        'p', 'a', 'c', 'k', 'e', 't', '_', 't', 'i', 'm', 'e', 'o', 'u', 't', '_', 't', 'i', 'm',
        'e', 's', 't', 'a', 'm', 'p',
    ]
}

pub open spec fn send_packet_type() -> Seq<char> {
    seq!['s', 'e', 'n', 'd', '_', 'p', 'a', 'c', 'k', 'e', 't']
}

/// The packet that the attributes of a `send_packet` event describe. Fields are
/// read in declaration order and the first field that is missing or invalid
/// decides the error.
pub open spec fn spec_packet_from_attributes(
    tags: Seq<(Seq<char>, Seq<char>)>,
) -> Result<PacketView, PacketError> {
    let seq_v = last_value(tags, sequence_key());
    let src_port = last_value(tags, src_port_key());
    let src_channel = last_value(tags, src_channel_key());
    let dst_port = last_value(tags, dst_port_key());
    let dst_channel = last_value(tags, dst_channel_key());
    let data = last_value(tags, data_key());
    let th = last_value(tags, timeout_height_key());
    let ts = last_value(tags, timeout_timestamp_key());
    if seq_v is None {
        Err(PacketError::MissingAttribute(PacketField::Sequence))
    } else if spec_parse_u64(seq_v.unwrap()) is None {
        Err(PacketError::InvalidAttribute(PacketField::Sequence))
    } else if src_port is None {
        Err(PacketError::MissingAttribute(PacketField::SourcePort))
    } else if src_channel is None {
        Err(PacketError::MissingAttribute(PacketField::SourceChannel))
    } else if dst_port is None {
        Err(PacketError::MissingAttribute(PacketField::DestinationPort))
    } else if dst_channel is None {
        Err(PacketError::MissingAttribute(PacketField::DestinationChannel))
    } else if data is None {
        Err(PacketError::MissingAttribute(PacketField::Data))
    } else if th is None {
        Err(PacketError::MissingAttribute(PacketField::TimeoutHeight))
    } else if spec_parse_height(th.unwrap()) is None {
        Err(PacketError::InvalidAttribute(PacketField::TimeoutHeight))
    } else if ts is None {
        Err(PacketError::MissingAttribute(PacketField::TimeoutTimestamp))
    } else if spec_parse_u64(ts.unwrap()) is None {
        Err(PacketError::InvalidAttribute(PacketField::TimeoutTimestamp))
    } else {
        Ok(
            PacketView {
                sequence: spec_parse_u64(seq_v.unwrap()).unwrap(),
                source_port: src_port.unwrap(),
                source_channel: src_channel.unwrap(),
                destination_port: dst_port.unwrap(),
                destination_channel: dst_channel.unwrap(),
                data: encode_utf8(data.unwrap()),
                timeout_height: spec_parse_height(th.unwrap()),
                timeout_timestamp: spec_parse_u64(ts.unwrap()).unwrap(),
            },
        )
    }
}

/// A height written as `<revision number>-<revision height>`.
pub open spec fn height_text(h: Height) -> Seq<char> {
    decimal_text(h.revision_number as nat) + seq!['-'] + decimal_text(h.revision_height as nat)
}

/// The attributes of a `send_packet` event that describes the packet `p`
/// (with a timeout height) whose data is the text `data_text`: one per
/// field, numbers in decimal.
pub open spec fn packet_attributes(p: PacketView, data_text: Seq<char>) -> Seq<(Seq<char>, Seq<char>)> {
    seq![
        (sequence_key(), decimal_text(p.sequence as nat)),
        (src_port_key(), p.source_port),
        (src_channel_key(), p.source_channel),
        (dst_port_key(), p.destination_port),
        (dst_channel_key(), p.destination_channel),
        (data_key(), data_text),
        (timeout_height_key(), height_text(p.timeout_height.unwrap())),
        (timeout_timestamp_key(), decimal_text(p.timeout_timestamp as nat)),
    ]
}

proof fn lemma_attribute_keys_distinct()
    ensures
        sequence_key() != src_port_key(),
        sequence_key() != src_channel_key(),
        sequence_key() != dst_port_key(),
        sequence_key() != dst_channel_key(),
        sequence_key() != data_key(),
        sequence_key() != timeout_height_key(),
        sequence_key() != timeout_timestamp_key(),
        src_port_key() != src_channel_key(),
        src_port_key() != dst_port_key(),
        src_port_key() != dst_channel_key(),
        src_port_key() != data_key(),
        src_port_key() != timeout_height_key(),
        src_port_key() != timeout_timestamp_key(),
        src_channel_key() != dst_port_key(),
        src_channel_key() != dst_channel_key(),
        src_channel_key() != data_key(),
        src_channel_key() != timeout_height_key(),
        src_channel_key() != timeout_timestamp_key(),
        dst_port_key() != dst_channel_key(),
        dst_port_key() != data_key(),
        dst_port_key() != timeout_height_key(),
        dst_port_key() != timeout_timestamp_key(),
        dst_channel_key() != data_key(),
        dst_channel_key() != timeout_height_key(),
        dst_channel_key() != timeout_timestamp_key(),
        data_key() != timeout_height_key(),
        data_key() != timeout_timestamp_key(),
        timeout_height_key() != timeout_timestamp_key(),
{
    assert(sequence_key() != src_port_key()) by { assert(sequence_key()[8] != src_port_key()[8]); }
    assert(sequence_key() != src_channel_key()) by { assert(sequence_key().len() != src_channel_key().len()); }
    assert(sequence_key() != dst_port_key()) by { assert(sequence_key()[7] != dst_port_key()[7]); }
    assert(sequence_key() != dst_channel_key()) by { assert(sequence_key().len() != dst_channel_key().len()); }
    assert(sequence_key() != data_key()) by { assert(sequence_key().len() != data_key().len()); }
    assert(sequence_key() != timeout_height_key()) by { assert(sequence_key().len() != timeout_height_key().len()); }
    assert(sequence_key() != timeout_timestamp_key()) by { assert(sequence_key().len() != timeout_timestamp_key().len()); }
    assert(src_port_key() != src_channel_key()) by { assert(src_port_key().len() != src_channel_key().len()); }
    assert(src_port_key() != dst_port_key()) by { assert(src_port_key()[7] != dst_port_key()[7]); }
    assert(src_port_key() != dst_channel_key()) by { assert(src_port_key().len() != dst_channel_key().len()); }
    assert(src_port_key() != data_key()) by { assert(src_port_key().len() != data_key().len()); }
    assert(src_port_key() != timeout_height_key()) by { assert(src_port_key().len() != timeout_height_key().len()); }
    assert(src_port_key() != timeout_timestamp_key()) by { assert(src_port_key().len() != timeout_timestamp_key().len()); }
    assert(src_channel_key() != dst_port_key()) by { assert(src_channel_key().len() != dst_port_key().len()); }
    assert(src_channel_key() != dst_channel_key()) by { assert(src_channel_key()[7] != dst_channel_key()[7]); }
    assert(src_channel_key() != data_key()) by { assert(src_channel_key().len() != data_key().len()); }
    assert(src_channel_key() != timeout_height_key()) by { assert(src_channel_key().len() != timeout_height_key().len()); }
    assert(src_channel_key() != timeout_timestamp_key()) by { assert(src_channel_key().len() != timeout_timestamp_key().len()); }
    assert(dst_port_key() != dst_channel_key()) by { assert(dst_port_key().len() != dst_channel_key().len()); }
    assert(dst_port_key() != data_key()) by { assert(dst_port_key().len() != data_key().len()); }
    assert(dst_port_key() != timeout_height_key()) by { assert(dst_port_key().len() != timeout_height_key().len()); }
    assert(dst_port_key() != timeout_timestamp_key()) by { assert(dst_port_key().len() != timeout_timestamp_key().len()); }
    assert(dst_channel_key() != data_key()) by { assert(dst_channel_key().len() != data_key().len()); }
    assert(dst_channel_key() != timeout_height_key()) by { assert(dst_channel_key().len() != timeout_height_key().len()); }
    assert(dst_channel_key() != timeout_timestamp_key()) by { assert(dst_channel_key().len() != timeout_timestamp_key().len()); }
    assert(data_key() != timeout_height_key()) by { assert(data_key().len() != timeout_height_key().len()); }
    assert(data_key() != timeout_timestamp_key()) by { assert(data_key().len() != timeout_timestamp_key().len()); }
    assert(timeout_height_key() != timeout_timestamp_key()) by { assert(timeout_height_key().len() != timeout_timestamp_key().len()); }
}

proof fn lemma_first_dash_after_digits(a: Seq<char>, rest: Seq<char>)
    requires
        all_digits(a),
        rest.len() > 0,
        rest[0] == '-',
    ensures
        first_index_of(a + rest, '-') == a.len(),
    decreases a.len(),
{
    if a.len() == 0 {
        assert(a + rest =~= rest);
    } else {
        assert(is_ascii_digit(a[0]));
        assert((a + rest)[0] == a[0]);
        assert((a + rest).drop_first() =~= a.drop_first() + rest);
        assert(all_digits(a.drop_first())) by {
            assert forall|i: int| 0 <= i < a.drop_first().len() implies is_ascii_digit(
                #[trigger] a.drop_first()[i],
            ) by {
                assert(a.drop_first()[i] == a[i + 1]);
            }
        }
        lemma_first_dash_after_digits(a.drop_first(), rest);
    }
}

/// The text of a height reads back as that height.
pub proof fn lemma_height_text_round_trip(h: Height)
    ensures
        spec_parse_height(height_text(h)) == Some(h),
{
    let a = decimal_text(h.revision_number as nat);
    let b = decimal_text(h.revision_height as nat);
    lemma_decimal_text_parses(h.revision_number as nat);
    lemma_decimal_text_parses(h.revision_height as nat);
    lemma_u64_text_round_trip(h.revision_number);
    lemma_u64_text_round_trip(h.revision_height);
    let s = height_text(h);
    assert(s =~= a + (seq!['-'] + b));
    lemma_first_dash_after_digits(a, seq!['-'] + b);
    let k = first_index_of(s, '-');
    assert(k == a.len());
    assert(s.take(k) =~= a);
    assert(s.skip(k + 1) =~= b);
    assert(!has_char(b, '-')) by {
        if has_char(b, '-') {
            let i = choose|i: int| 0 <= i < b.len() && b[i] == '-';
            assert(is_ascii_digit(b[i]));
        }
    }
}

/// A packet written out as the attributes of a `send_packet` event reads
/// back as that packet: each attribute goes to the field its key names.
pub proof fn lemma_packet_attributes_read_back(p: PacketView, data_text: Seq<char>)
    requires
        p.timeout_height is Some,
        p.data == encode_utf8(data_text),
    ensures
        spec_packet_from_attributes(packet_attributes(p, data_text)) == Ok::<PacketView, PacketError>(p),
{
    let tags = packet_attributes(p, data_text);
    lemma_attribute_keys_distinct();
    reveal_with_fuel(last_value, 9);
    lemma_u64_text_round_trip(p.sequence);
    lemma_u64_text_round_trip(p.timeout_timestamp);
    lemma_height_text_round_trip(p.timeout_height.unwrap());
    assert(tags.drop_last().last() == tags[6]);
    assert(last_value(tags, sequence_key()) == Some(decimal_text(p.sequence as nat)));
    assert(last_value(tags, src_port_key()) == Some(p.source_port));
    assert(last_value(tags, src_channel_key()) == Some(p.source_channel));
    assert(last_value(tags, dst_port_key()) == Some(p.destination_port));
    assert(last_value(tags, dst_channel_key()) == Some(p.destination_channel));
    assert(last_value(tags, data_key()) == Some(data_text));
    assert(last_value(tags, timeout_height_key()) == Some(height_text(p.timeout_height.unwrap())));
    assert(last_value(tags, timeout_timestamp_key()) == Some(decimal_text(p.timeout_timestamp as nat)));
}

/// The packets sent by a transaction: one per `send_packet` event, in event
/// order; the first event that does not describe a packet decides the error.
pub open spec fn spec_extract_packets(events: Seq<TxEvent>) -> Result<Seq<PacketView>, PacketError>
    decreases events.len(),
{
    if events.len() == 0 {
        Ok(Seq::empty())
    } else {
        match spec_extract_packets(events.drop_last()) {
            Err(e) => Err(e),
            Ok(ps) => {
                let ev = events.last();
                if ev.type_str@ == send_packet_type() {
                    match spec_packet_from_attributes(attribute_pairs(ev.attributes@)) {
                        Ok(p) => Ok(ps.push(p)),
                        Err(e) => Err(e),
                    }
                } else {
                    Ok(ps)
                }
            },
        }
    }
}

/// The value of the first attribute whose key is `key`.
pub fn get_attribute(tags: &Vec<EventAttribute>, key: &str) -> (r: Result<String, AttributeError>)
    ensures
        r matches Ok(v) ==> first_value(attribute_pairs(tags@), key@) == Some(v@),
        r is Err ==> first_value(attribute_pairs(tags@), key@) is None && r == Err::<String, AttributeError>(
            AttributeError::KeyNotFound,
        ),
{
    let ghost pairs = attribute_pairs(tags@);
    let mut i: usize = 0;
    assert(pairs.skip(0) =~= pairs);
    while i < tags.len()
        invariant
            pairs == attribute_pairs(tags@),
            i <= tags.len(),
            first_value(pairs, key@) == first_value(pairs.skip(i as int), key@),
        decreases tags.len() - i,
    {
        assert(pairs.skip(i as int).drop_first() =~= pairs.skip(i + 1));
        assert(pairs.skip(i as int)[0] == pairs[i as int]);
        if str_eq(tags[i].key.as_str(), key) {
            return Ok(tags[i].value.clone());
        }
        i = i + 1;
    }
    Err(AttributeError::KeyNotFound)
}

/// The value of the last attribute whose key is `key`.
pub fn last_attribute_value(tags: &Vec<EventAttribute>, key: &str) -> (r: Option<String>)
    ensures
        opt_string_view(r) == last_value(attribute_pairs(tags@), key@),
{
    let ghost pairs = attribute_pairs(tags@);
    let mut found: Option<String> = None;
    let mut i: usize = 0;
    while i < tags.len()
        invariant
            pairs == attribute_pairs(tags@),
            i <= tags.len(),
            opt_string_view(found) == last_value(pairs.take(i as int), key@),
        decreases tags.len() - i,
    {
        assert(pairs.take(i + 1).drop_last() =~= pairs.take(i as int));
        assert(pairs.take(i + 1).last() == pairs[i as int]);
        if str_eq(tags[i].key.as_str(), key) {
            found = Some(tags[i].value.clone());
        }
        i = i + 1;
    }
    assert(pairs.take(tags.len() as int) =~= pairs);
    found
}

/// Reads attribute `key` from the events of type `event_type`, as a
/// transaction's result reports it: every such event must carry the key, and
/// the last such event's value is returned.
pub fn extract_attribute(events: &Vec<TxEvent>, event_type: &str, key: &str) -> (r: Result<
    String,
    AttributeError,
>)
    ensures
        match r {
            Ok(v) => spec_extract_attribute(events@, event_type@, key@) == Ok::<
                Seq<char>,
                AttributeError,
            >(v@),
            Err(e) => spec_extract_attribute(events@, event_type@, key@) == Err::<
                Seq<char>,
                AttributeError,
            >(e),
        },
{
    let mut found: Option<String> = None;
    let mut i: usize = 0;
    while i < events.len()
        invariant
            i <= events.len(),
            spec_scan_attribute(events@.take(i as int), event_type@, key@) == Ok::<
                Option<Seq<char>>,
                AttributeError,
            >(opt_string_view(found)),
        decreases events.len() - i,
    {
        assert(events@.take(i + 1).drop_last() =~= events@.take(i as int));
        assert(events@.take(i + 1).last() == events@[i as int]);
        if str_eq(events[i].type_str.as_str(), event_type) {
            match get_attribute(&events[i].attributes, key) {
                Ok(v) => {
                    found = Some(v);
                },
                Err(e) => {
                    proof {
                        lemma_scan_error_persists(events@, event_type@, key@, i as int + 1);
                    }
                    return Err(e);
                },
            }
        }
        i = i + 1;
    }
    assert(events@.take(events.len() as int) =~= events@);
    match found {
        Some(v) => Ok(v),
        None => Err(AttributeError::EventNotFound),
    }
}

/// Once scanning a prefix of the events fails, scanning all of them fails the
/// same way.
pub proof fn lemma_scan_error_persists(
    events: Seq<TxEvent>,
    event_type: Seq<char>,
    key: Seq<char>,
    k: int,
)
    requires
        0 <= k <= events.len(),
        spec_scan_attribute(events.take(k), event_type, key) is Err,
    ensures
        spec_scan_attribute(events, event_type, key) == spec_scan_attribute(
            events.take(k),
            event_type,
            key,
        ),
    decreases events.len() - k,
{
    if k == events.len() {
        assert(events.take(k) =~= events);
    } else {
        assert(events.take(k + 1).drop_last() =~= events.take(k));
        lemma_scan_error_persists(events, event_type, key, k + 1);
    }
}

/// Index of the first `c` in `s` (or its length when `c` does not occur).
fn find_char(s: &str, c: char) -> (k: usize)
    ensures
        k == first_index_of(s@, c),
        k <= s@.len(),
{
    let n = s.unicode_len();
    let mut i: usize = 0;
    assert(s@.skip(0) =~= s@);
    while i < n
        invariant
            n == s@.len(),
            i <= n,
            first_index_of(s@, c) == i + first_index_of(s@.skip(i as int), c),
        decreases n - i,
    {
        assert(s@.skip(i as int).drop_first() =~= s@.skip(i + 1));
        assert(s@.skip(i as int)[0] == s@[i as int]);
        if s.get_char(i) == c {
            return i;
        }
        i = i + 1;
    }
    assert(s@.skip(n as int).len() == 0);
    n
}

proof fn lemma_first_index_bounds(s: Seq<char>, c: char)
    ensures
        0 <= first_index_of(s, c) <= s.len(),
        first_index_of(s, c) < s.len() ==> s[first_index_of(s, c)] == c,
    decreases s.len(),
{
    if s.len() > 0 && s[0] != c {
        lemma_first_index_bounds(s.drop_first(), c);
    }
}

/// Reads a height written as `<revision number>-<revision height>`.
pub fn parse_height(s: &str) -> (r: Option<Height>)
    ensures
        r == spec_parse_height(s@),
{
    let n = s.unicode_len();
    let k = find_char(s, '-');
    if k >= n {
        return None;
    }
    let rest = s.substring_char(k + 1, n);
    assert(rest@ =~= s@.skip(k + 1));
    let again = find_char(rest, '-');
    proof {
        lemma_first_index_bounds(rest@, '-');
        if has_char(rest@, '-') {
            let j = choose|j: int| 0 <= j < rest@.len() && rest@[j] == '-';
            lemma_first_index_le(rest@, '-', j);
        }
    }
    if again < rest.unicode_len() {
        return None;
    }
    let head = s.substring_char(0, k);
    assert(head@ =~= s@.take(k as int));
    match (parse_u64(head), parse_u64(rest)) {
        (Some(number), Some(height)) => Some(Height { revision_number: number, revision_height: height }),
        _ => None,
    }
}

proof fn lemma_first_index_le(s: Seq<char>, c: char, j: int)
    requires
        0 <= j < s.len(),
        s[j] == c,
    ensures
        first_index_of(s, c) <= j,
    decreases j,
{
    if s[0] != c {
        lemma_first_index_le(s.drop_first(), c, j - 1);
    }
}

/// Checks the codes of a broadcast transaction: both `check_tx` and
/// `deliver_tx` must report success (code zero).
pub fn ensure_response_success(check_tx_code: u32, deliver_tx_code: u32) -> (r: Result<
    (),
    ResponseError,
>)
    ensures
        r == (if check_tx_code != 0 {
            Err(ResponseError::CheckTxFailed)
        } else if deliver_tx_code != 0 {
            Err(ResponseError::DeliverTxFailed)
        } else {
            Ok(())
        }),
{
    if check_tx_code != 0 {
        Err(ResponseError::CheckTxFailed)
    } else if deliver_tx_code != 0 {
        Err(ResponseError::DeliverTxFailed)
    } else {
        Ok(())
    }
}

/// Reads the packet described by the attributes of a `send_packet` event.
pub fn packet_from_attributes(tags: &Vec<EventAttribute>) -> (r: Result<Packet, PacketError>)
    ensures
        match r {
            Ok(p) => spec_packet_from_attributes(attribute_pairs(tags@)) == Ok::<
                PacketView,
                PacketError,
            >(p@),
            Err(e) => spec_packet_from_attributes(attribute_pairs(tags@)) == Err::<
                PacketView,
                PacketError,
            >(e),
        },
{
    proof {
        reveal_strlit("packet_sequence");
        reveal_strlit("packet_src_port");
        reveal_strlit("packet_src_channel");
        reveal_strlit("packet_dst_port");
        reveal_strlit("packet_dst_channel");
        reveal_strlit("packet_data");
        reveal_strlit("packet_timeout_height");
        reveal_strlit("packet_timeout_timestamp");
    }
    assert("packet_sequence"@ =~= sequence_key());
    assert("packet_src_port"@ =~= src_port_key());
    assert("packet_src_channel"@ =~= src_channel_key());
    assert("packet_dst_port"@ =~= dst_port_key());
    assert("packet_dst_channel"@ =~= dst_channel_key());
    assert("packet_data"@ =~= data_key());
    assert("packet_timeout_height"@ =~= timeout_height_key());
    assert("packet_timeout_timestamp"@ =~= timeout_timestamp_key());
    let sequence = match last_attribute_value(tags, "packet_sequence") {
        None => return Err(PacketError::MissingAttribute(PacketField::Sequence)),
        Some(v) => match parse_u64(v.as_str()) {
            None => return Err(PacketError::InvalidAttribute(PacketField::Sequence)),
            Some(n) => n,
        },
    };
    let source_port = match last_attribute_value(tags, "packet_src_port") {
        None => return Err(PacketError::MissingAttribute(PacketField::SourcePort)),
        Some(v) => v,
    };
    let source_channel = match last_attribute_value(tags, "packet_src_channel") {
        None => return Err(PacketError::MissingAttribute(PacketField::SourceChannel)),
        Some(v) => v,
    };
    let destination_port = match last_attribute_value(tags, "packet_dst_port") {
        None => return Err(PacketError::MissingAttribute(PacketField::DestinationPort)),
        Some(v) => v,
    };
    let destination_channel = match last_attribute_value(tags, "packet_dst_channel") {
        None => return Err(PacketError::MissingAttribute(PacketField::DestinationChannel)),
        Some(v) => v,
    };
    let data = match last_attribute_value(tags, "packet_data") {
        None => return Err(PacketError::MissingAttribute(PacketField::Data)),
        Some(v) => slice_to_vec(v.as_str().as_bytes()),
    };
    let timeout_height = match last_attribute_value(tags, "packet_timeout_height") {
        None => return Err(PacketError::MissingAttribute(PacketField::TimeoutHeight)),
        Some(v) => match parse_height(v.as_str()) {
            None => return Err(PacketError::InvalidAttribute(PacketField::TimeoutHeight)),
            Some(h) => h,
        },
    };
    let timeout_timestamp = match last_attribute_value(tags, "packet_timeout_timestamp") {
        None => return Err(PacketError::MissingAttribute(PacketField::TimeoutTimestamp)),
        Some(v) => match parse_u64(v.as_str()) {
            None => return Err(PacketError::InvalidAttribute(PacketField::TimeoutTimestamp)),
            Some(n) => n,
        },
    };
    Ok(
        Packet {
            sequence,
            source_port,
            source_channel,
            destination_port,
            destination_channel,
            data,
            timeout_height: Some(timeout_height),
            timeout_timestamp,
        },
    )
}

pub open spec fn packets_view(v: Seq<Packet>) -> Seq<PacketView> {
    Seq::new(v.len(), |i: int| v[i]@)
}

/// Reads the packets that a transaction sent from its events: one packet per
/// `send_packet` event, in event order.
pub fn extract_packets(events: &Vec<TxEvent>) -> (r: Result<Vec<Packet>, PacketError>)
    ensures
        match r {
            Ok(ps) => spec_extract_packets(events@) == Ok::<Seq<PacketView>, PacketError>(
                packets_view(ps@),
            ),
            Err(e) => spec_extract_packets(events@) == Err::<Seq<PacketView>, PacketError>(e),
        },
{
    proof {
        reveal_strlit("send_packet");
    }
    assert("send_packet"@ =~= send_packet_type());
    let mut packets: Vec<Packet> = Vec::new();
    let mut i: usize = 0;
    assert(packets_view(packets@) =~= Seq::<PacketView>::empty());
    while i < events.len()
        invariant
            i <= events.len(),
            spec_extract_packets(events@.take(i as int)) == Ok::<Seq<PacketView>, PacketError>(
                packets_view(packets@),
            ),
        decreases events.len() - i,
    {
        assert(events@.take(i + 1).drop_last() =~= events@.take(i as int));
        assert(events@.take(i + 1).last() == events@[i as int]);
        proof {
            reveal_strlit("send_packet");
        }
        assert("send_packet"@ =~= send_packet_type());
        if str_eq(events[i].type_str.as_str(), "send_packet") {
            match packet_from_attributes(&events[i].attributes) {
                Ok(p) => {
                    let ghost before = packets@;
                    packets.push(p);
                    assert(packets_view(packets@) =~= packets_view(before).push(p@));
                },
                Err(e) => {
                    proof {
                        let ev = events@.take(i + 1).last();
                        assert(ev.type_str@ == send_packet_type());
                        assert(spec_packet_from_attributes(attribute_pairs(ev.attributes@)) == Err::<
                            PacketView,
                            PacketError,
                        >(e));
                        assert(spec_extract_packets(events@.take(i + 1)) == Err::<
                            Seq<PacketView>,
                            PacketError,
                        >(e));
                        lemma_extract_error_persists(events@, i as int + 1);
                    }
                    return Err(e);
                },
            }
        }
        i = i + 1;
    }
    assert(events@.take(events.len() as int) =~= events@);
    Ok(packets)
}

/// Once reading the packets of a prefix of the events fails, reading all of
/// them fails the same way.
pub proof fn lemma_extract_error_persists(events: Seq<TxEvent>, k: int)
    requires
        0 <= k <= events.len(),
        spec_extract_packets(events.take(k)) is Err,
    ensures
        spec_extract_packets(events) == spec_extract_packets(events.take(k)),
    decreases events.len() - k,
{
    if k == events.len() {
        assert(events.take(k) =~= events);
    } else {
        assert(events.take(k + 1).drop_last() =~= events.take(k));
        lemma_extract_error_persists(events, k + 1);
    }
}

/// What `serde_json` reads from `bytes` as a JSON object whose values are all
/// strings: its entries, ordered by key; `None` when `bytes` is not such an
/// object.
pub uninterp spec fn json_string_object(bytes: Seq<u8>) -> Option<Seq<(Seq<char>, Seq<char>)>>;

pub open spec fn string_pairs(v: Seq<(String, String)>) -> Seq<(Seq<char>, Seq<char>)> {
    Seq::new(v.len(), |i: int| (v[i].0@, v[i].1@))
}

/// Decodes `bytes` with `serde_json::from_slice` into a map from strings to
/// strings and hands its entries out in key order. Nothing is claimed of which
/// byte strings decode: the result is only tied, by name, to `bytes`.
#[verifier::external_body]
fn decode_json_string_object(bytes: &[u8]) -> (r: Option<Vec<(String, String)>>)
    ensures
        json_string_object(bytes@) == (match r {
            Some(v) => Some(string_pairs(v@)),
            None => None,
        }),
{
    serde_json::from_slice::<std::collections::BTreeMap<String, String>>(bytes).ok().map(
        |m| m.into_iter().collect(),
    )
}

/// The data of an ICS-20 fungible token transfer packet.
#[derive(Debug, Clone)]
pub struct FungibleTokenPacketData {
    pub denom: String,
    pub amount: u64,
    pub sender: String,
    pub receiver: String,
}

/// Why the data of a packet could not be read.
#[derive(Debug, Clone, Copy, PartialEq, Eq, Structural)]
pub enum PacketDataError {
    /// The data is not a JSON object of strings.
    InvalidPacketData,
    MissingDenom,
    MissingAmount,
    InvalidAmount,
    MissingReceiver,
    MissingSender,
}

pub open spec fn denom_key() -> Seq<char> {
    seq!['d', 'e', 'n', 'o', 'm']
}

pub open spec fn amount_key() -> Seq<char> {
    seq!['a', 'm', 'o', 'u', 'n', 't']
}

pub open spec fn receiver_key() -> Seq<char> {
    seq!['r', 'e', 'c', 'e', 'i', 'v', 'e', 'r']
}

pub open spec fn sender_key() -> Seq<char> {
    seq!['s', 'e', 'n', 'd', 'e', 'r']
}

/// The token packet data held by the entries of a decoded JSON object
/// (denom, amount, sender, receiver), read in the order denom, amount,
/// receiver, sender.
pub open spec fn spec_packet_data_from_entries(entries: Seq<(Seq<char>, Seq<char>)>) -> Result<
    (Seq<char>, u64, Seq<char>, Seq<char>),
    PacketDataError,
> {
    let denom = first_value(entries, denom_key());
    let amount = first_value(entries, amount_key());
    let receiver = first_value(entries, receiver_key());
    let sender = first_value(entries, sender_key());
    if denom is None {
        Err(PacketDataError::MissingDenom)
    } else if amount is None {
        Err(PacketDataError::MissingAmount)
    } else if spec_parse_u64(amount.unwrap()) is None {
        Err(PacketDataError::InvalidAmount)
    } else if receiver is None {
        Err(PacketDataError::MissingReceiver)
    } else if sender is None {
        Err(PacketDataError::MissingSender)
    } else {
        Ok((denom.unwrap(), spec_parse_u64(amount.unwrap()).unwrap(), sender.unwrap(), receiver.unwrap()))
    }
}

/// The entries of the JSON object of token packet data as it is written:
/// denom, amount (in decimal), sender, receiver.
pub open spec fn packet_data_entries(
    denom: Seq<char>,
    amount: u64,
    sender: Seq<char>,
    receiver: Seq<char>,
) -> Seq<(Seq<char>, Seq<char>)> {
    seq![
        (denom_key(), denom),
        (amount_key(), decimal_text(amount as nat)),
        (sender_key(), sender),
        (receiver_key(), receiver),
    ]
}

/// Token packet data written out as the entries of its JSON object reads
/// back as the same denomination, amount, sender and receiver.
pub proof fn lemma_packet_data_entries_read_back(
    denom: Seq<char>,
    amount: u64,
    sender: Seq<char>,
    receiver: Seq<char>,
)
    ensures
        spec_packet_data_from_entries(packet_data_entries(denom, amount, sender, receiver)) == Ok::<
            (Seq<char>, u64, Seq<char>, Seq<char>),
            PacketDataError,
        >((denom, amount, sender, receiver)),
{
    let e = packet_data_entries(denom, amount, sender, receiver);
    assert(denom_key() != amount_key()) by { assert(denom_key().len() != amount_key().len()); }
    assert(denom_key() != sender_key()) by { assert(denom_key().len() != sender_key().len()); }
    assert(denom_key() != receiver_key()) by { assert(denom_key().len() != receiver_key().len()); }
    assert(amount_key() != sender_key()) by { assert(amount_key()[0] != sender_key()[0]); }
    assert(amount_key() != receiver_key()) by { assert(amount_key().len() != receiver_key().len()); }
    assert(sender_key() != receiver_key()) by { assert(sender_key().len() != receiver_key().len()); }
    reveal_with_fuel(first_value, 5);
    lemma_u64_text_round_trip(amount);
    assert(e.drop_first()[0] == e[1]);
    assert(first_value(e, denom_key()) == Some(denom));
    assert(first_value(e, amount_key()) == Some(decimal_text(amount as nat)));
    assert(first_value(e, sender_key()) == Some(sender));
    assert(first_value(e, receiver_key()) == Some(receiver));
}

pub open spec fn packet_data_view(d: FungibleTokenPacketData) -> (Seq<char>, u64, Seq<char>, Seq<char>) {
    (d.denom@, d.amount, d.sender@, d.receiver@)
}

/// The value of the first entry whose key is `key`.
fn entry_value(entries: &Vec<(String, String)>, key: &str) -> (r: Option<String>)
    ensures
        opt_string_view(r) == first_value(string_pairs(entries@), key@),
{
    let ghost pairs = string_pairs(entries@);
    let mut i: usize = 0;
    assert(pairs.skip(0) =~= pairs);
    while i < entries.len()
        invariant
            pairs == string_pairs(entries@),
            i <= entries.len(),
            first_value(pairs, key@) == first_value(pairs.skip(i as int), key@),
        decreases entries.len() - i,
    {
        assert(pairs.skip(i as int).drop_first() =~= pairs.skip(i + 1));
        assert(pairs.skip(i as int)[0] == pairs[i as int]);
        if str_eq(entries[i].0.as_str(), key) {
            return Some(entries[i].1.clone());
        }
        i = i + 1;
    }
    None
}

/// Reads token packet data from the entries of a decoded JSON object.
pub fn packet_data_from_entries(entries: &Vec<(String, String)>) -> (r: Result<
    FungibleTokenPacketData,
    PacketDataError,
>)
    ensures
        match r {
            Ok(d) => spec_packet_data_from_entries(string_pairs(entries@)) == Ok::<
                (Seq<char>, u64, Seq<char>, Seq<char>),
                PacketDataError,
            >(packet_data_view(d)),
            Err(e) => spec_packet_data_from_entries(string_pairs(entries@)) == Err::<
                (Seq<char>, u64, Seq<char>, Seq<char>),
                PacketDataError,
            >(e),
        },
{
    proof {
        reveal_strlit("denom");
        reveal_strlit("amount");
        reveal_strlit("receiver");
        reveal_strlit("sender");
    }
    assert("denom"@ =~= denom_key());
    assert("amount"@ =~= amount_key());
    assert("receiver"@ =~= receiver_key());
    assert("sender"@ =~= sender_key());
    let denom = match entry_value(entries, "denom") {
        None => return Err(PacketDataError::MissingDenom),
        Some(v) => v,
    };
    let amount = match entry_value(entries, "amount") {
        None => return Err(PacketDataError::MissingAmount),
        Some(v) => match parse_u64(v.as_str()) {
            None => return Err(PacketDataError::InvalidAmount),
            Some(n) => n,
        },
    };
    let receiver = match entry_value(entries, "receiver") {
        None => return Err(PacketDataError::MissingReceiver),
        Some(v) => v,
    };
    let sender = match entry_value(entries, "sender") {
        None => return Err(PacketDataError::MissingSender),
        Some(v) => v,
    };
    Ok(FungibleTokenPacketData { denom, amount, sender, receiver })
}

/// Reads the token packet data carried by a packet: a JSON object whose
/// `denom`, `amount`, `receiver` and `sender` entries are strings.
pub fn parse_packet_data(packet_data: &[u8]) -> (r: Result<FungibleTokenPacketData, PacketDataError>)
    ensures
        json_string_object(packet_data@) is None ==> r == Err::<
            FungibleTokenPacketData,
            PacketDataError,
        >(PacketDataError::InvalidPacketData),
        json_string_object(packet_data@) matches Some(entries) ==> match r {
            Ok(d) => spec_packet_data_from_entries(entries) == Ok::<
                (Seq<char>, u64, Seq<char>, Seq<char>),
                PacketDataError,
            >(packet_data_view(d)),
            Err(e) => spec_packet_data_from_entries(entries) == Err::<
                (Seq<char>, u64, Seq<char>, Seq<char>),
                PacketDataError,
            >(e),
        },
{
    match decode_json_string_object(packet_data) {
        None => Err(PacketDataError::InvalidPacketData),
        Some(entries) => packet_data_from_entries(&entries),
    }
}

/// Why a packet received from the chain does not travel the connection's
/// channel.
#[derive(Debug, Clone, Copy, PartialEq, Eq, Structural)]
pub enum PacketRouteError {
    InvalidSourcePort,
    InvalidSourceChannel,
    InvalidDestinationPort,
    InvalidDestinationChannel,
}

pub open spec fn spec_check_packet_route(
    port_id: Seq<char>,
    solo_machine_channel_id: Seq<char>,
    tendermint_channel_id: Seq<char>,
    p: PacketView,
) -> Result<(), PacketRouteError> {
    if port_id != p.source_port {
        Err(PacketRouteError::InvalidSourcePort)
    } else if solo_machine_channel_id != p.source_channel {
        Err(PacketRouteError::InvalidSourceChannel)
    } else if port_id != p.destination_port {
        Err(PacketRouteError::InvalidDestinationPort)
    } else if tendermint_channel_id != p.destination_channel {
        Err(PacketRouteError::InvalidDestinationChannel)
    } else {
        Ok(())
    }
}

/// Checks that a packet sent by the chain goes from the chain's end of the
/// connection's channel to the solo machine's end, on the chain's port.
pub fn check_packet_route(
    port_id: &str,
    solo_machine_channel_id: &str,
    tendermint_channel_id: &str,
    packet: &Packet,
) -> (r: Result<(), PacketRouteError>)
    ensures
        r == spec_check_packet_route(
            port_id@,
            solo_machine_channel_id@,
            tendermint_channel_id@,
            packet@,
        ),
{
    if !str_eq(port_id, packet.source_port.as_str()) {
        Err(PacketRouteError::InvalidSourcePort)
    } else if !str_eq(solo_machine_channel_id, packet.source_channel.as_str()) {
        Err(PacketRouteError::InvalidSourceChannel)
    } else if !str_eq(port_id, packet.destination_port.as_str()) {
        Err(PacketRouteError::InvalidDestinationPort)
    } else if !str_eq(tendermint_channel_id, packet.destination_channel.as_str()) {
        Err(PacketRouteError::InvalidDestinationChannel)
    } else {
        Ok(())
    }
}

/// The part of `s` after its last `/` (all of `s` when it has none).
pub open spec fn last_segment(s: Seq<char>) -> Seq<char>
    decreases s.len(),
{
    if s.len() == 0 {
        s
    } else if s.last() == '/' {
        Seq::empty()
    } else {
        last_segment(s.drop_last()).push(s.last())
    }
}

/// The base denomination of a (possibly traced) denomination: what follows
/// its last `/`.
pub fn base_denom(denom: &str) -> (r: String)
    ensures
        r@ == last_segment(denom@),
{
    let n = denom.unicode_len();
    let mut start: usize = 0;
    let mut i: usize = 0;
    while i < n
        invariant
            n == denom@.len(),
            start <= i <= n,
            last_segment(denom@.take(i as int)) == denom@.subrange(start as int, i as int),
        decreases n - i,
    {
        let c = denom.get_char(i);
        assert(denom@.take(i + 1).drop_last() =~= denom@.take(i as int));
        assert(denom@.take(i + 1).last() == c);
        if c == '/' {
            start = i + 1;
            assert(denom@.subrange(start as int, i + 1) =~= Seq::<char>::empty());
        } else {
            assert(denom@.subrange(start as int, i + 1) =~= denom@.subrange(
                start as int,
                i as int,
            ).push(c));
        }
        i = i + 1;
    }
    assert(denom@.take(n as int) =~= denom@);
    let r = denom.substring_char(start, n);
    String::from_str(r)
}

/// What the solo machine mints for a packet received from the chain.
#[derive(Debug, Clone)]
pub struct MintOrder {
    pub receiver: String,
    pub amount: u64,
    pub denom: String,
}

/// Why a packet received from the chain is refused.
#[derive(Debug, Clone, Copy, PartialEq, Eq, Structural)]
pub enum PacketProcessingError {
    Route(PacketRouteError),
    Data(PacketDataError),
}

/// What a packet received from the chain mints on the solo machine
/// (receiver, amount, base denomination), or why it is refused.
pub open spec fn spec_mint_order(
    port_id: Seq<char>,
    solo_machine_channel_id: Seq<char>,
    tendermint_channel_id: Seq<char>,
    p: PacketView,
) -> Result<(Seq<char>, u64, Seq<char>), PacketProcessingError> {
    match spec_check_packet_route(port_id, solo_machine_channel_id, tendermint_channel_id, p) {
        Err(e) => Err(PacketProcessingError::Route(e)),
        Ok(_) => match json_string_object(p.data) {
            None => Err(PacketProcessingError::Data(PacketDataError::InvalidPacketData)),
            Some(entries) => match spec_packet_data_from_entries(entries) {
                Err(e) => Err(PacketProcessingError::Data(e)),
                Ok(d) => Ok((d.3, d.1, last_segment(d.0))),
            },
        },
    }
}

/// A packet that travels the connection's channel mints, on the solo
/// machine, the amount its data names, to the receiver its data names (not
/// the sender), in the base of the denomination its data names.
pub proof fn lemma_mint_goes_to_the_receiver(
    port_id: Seq<char>,
    solo_machine_channel_id: Seq<char>,
    tendermint_channel_id: Seq<char>,
    p: PacketView,
    entries: Seq<(Seq<char>, Seq<char>)>,
    denom: Seq<char>,
    amount: u64,
    sender: Seq<char>,
    receiver: Seq<char>,
)
    requires
        spec_check_packet_route(port_id, solo_machine_channel_id, tendermint_channel_id, p) is Ok,
        json_string_object(p.data) == Some(entries),
        first_value(entries, denom_key()) == Some(denom),
        first_value(entries, amount_key()) == Some(decimal_text(amount as nat)),
        first_value(entries, sender_key()) == Some(sender),
        first_value(entries, receiver_key()) == Some(receiver),
    ensures
        spec_mint_order(port_id, solo_machine_channel_id, tendermint_channel_id, p) == Ok::<
            (Seq<char>, u64, Seq<char>),
            PacketProcessingError,
        >((receiver, amount, last_segment(denom))),
{
    lemma_u64_text_round_trip(amount);
}

pub open spec fn mint_order_view(r: Result<MintOrder, PacketProcessingError>) -> Result<
    (Seq<char>, u64, Seq<char>),
    PacketProcessingError,
> {
    match r {
        Ok(o) => Ok((o.receiver@, o.amount, o.denom@)),
        Err(e) => Err(e),
    }
}

/// Decides what a packet received from the chain mints on the solo machine:
/// the packet must travel the connection's channel, and its data names the
/// receiver, the amount and the denomination, of which the base denomination
/// is minted.
pub fn packet_mint_order(
    port_id: &str,
    solo_machine_channel_id: &str,
    tendermint_channel_id: &str,
    packet: &Packet,
) -> (r: Result<MintOrder, PacketProcessingError>)
    ensures
        mint_order_view(r) == spec_mint_order(
            port_id@,
            solo_machine_channel_id@,
            tendermint_channel_id@,
            packet@,
        ),
{
    match check_packet_route(port_id, solo_machine_channel_id, tendermint_channel_id, packet) {
        Err(e) => Err(PacketProcessingError::Route(e)),
        Ok(()) => match parse_packet_data(packet.data.as_slice()) {
            Err(e) => Err(PacketProcessingError::Data(e)),
            Ok(data) => {
                let denom = base_denom(data.denom.as_str());
                Ok(MintOrder { receiver: data.receiver, amount: data.amount, denom })
            },
        },
    }
}

/// The data of a token transfer packet that the solo machine sends to the
/// chain.
#[derive(Debug, Clone)]
pub struct TokenTransferPacketData {
    pub denom: String,
    pub amount: u64,
    pub sender: String,
    pub receiver: String,
}

} // verus!
