use solo_machine::ratio::trust_threshold;
use solo_machine::chain::{
    chain_config_answer, query_chain_response, resolve_add_chain_request, resolve_chain_config,
    trusted_hash_of, AddChainRequest, Chain, ChainAnswerError, ChainConfigError,
    ChainConfigRequest, ChainConnectionDetails, ConnectionDetails, Fee, FeeConfig, FeeSettings,
};
use solo_machine::duration::{converts_without_overflow, ProtoDuration, StdDuration};
use solo_machine::ratio::TrustLevel;

const HASH: &str = "b1e3c6e5f0d2a4c8e9f7a6b5c4d3e2f1a0b9c8d7e6f5a4b3c2d1e0f9a8b7c6d5";

fn empty_request() -> AddChainRequest {
    AddChainRequest {
        grpc_addr: None,
        rpc_addr: None,
        account_prefix: None,
        fee_config: None,
        trust_level: None,
        trusting_period: None,
        max_clock_drift: None,
        rpc_timeout: None,
        diversifier: None,
        port_id: None,
        trusted_height: None,
        trusted_hash: None,
    }
}

fn empty_config() -> ChainConfigRequest {
    ChainConfigRequest {
        grpc_addr: None,
        rpc_addr: None,
        fee_config: None,
        trust_level: None,
        trusting_period: None,
        max_clock_drift: None,
        rpc_timeout: None,
        diversifier: None,
        port_id: None,
        trusted_height: Some(5),
        trusted_hash: Some(HASH.to_string()),
    }
}

fn decimal_text(bytes: [u8; 16]) -> String {
    rust_decimal::Decimal::deserialize(bytes).to_string()
}

#[test]
fn add_request_takes_defaults() {
    let c = resolve_add_chain_request(&empty_request()).unwrap();
    assert_eq!(c.grpc_addr, "http://0.0.0.0:9090");
    assert_eq!(c.rpc_addr, "http://0.0.0.0:26657");
    assert_eq!(c.account_prefix, "cosmos");
    assert_eq!(decimal_text(c.fee.amount.bytes), "1000");
    assert_eq!(c.fee.denom, "stake");
    assert_eq!(c.fee.gas_limit, 300000);
    assert_eq!(c.trust_level, TrustLevel { numerator: 1, denominator: 3 });
    assert_eq!(c.trusting_period, StdDuration { secs: 336 * 60 * 60, nanos: 0 });
    assert_eq!(c.max_clock_drift, StdDuration { secs: 3, nanos: 0 });
    assert_eq!(c.rpc_timeout, StdDuration { secs: 60, nanos: 0 });
    assert_eq!(c.diversifier, "solo-machine-diversifier");
    assert_eq!(c.port_id, "transfer");
    assert_eq!(c.trusted_height, 1);
    assert_eq!(c.trusted_hash, None);
}

#[test]
fn add_request_reads_given_settings() {
    let mut req = empty_request();
    req.fee_config = Some(FeeConfig {
        fee_amount: Some("12.5".to_string()),
        fee_denom: Some("gld".to_string()),
        gas_limit: Some("42".to_string()),
    });
    req.trust_level = Some("2/6".to_string());
    req.trusting_period = Some(ProtoDuration { seconds: 10, nanos: 5 });
    req.trusted_height = Some(99);
    req.trusted_hash = Some(HASH.to_uppercase());
    let c = resolve_add_chain_request(&req).unwrap();
    assert_eq!(decimal_text(c.fee.amount.bytes), "12.5");
    assert_eq!(c.fee.denom, "gld");
    assert_eq!(c.fee.gas_limit, 42);
    assert_eq!(c.trust_level, TrustLevel { numerator: 1, denominator: 3 });
    assert_eq!(c.trusting_period, StdDuration { secs: 10, nanos: 5 });
    assert_eq!(c.trusted_height, 99);
    assert_eq!(c.trusted_hash.unwrap().to_vec(), hex::decode(HASH).unwrap());
}

#[test]
fn add_request_errors_in_reading_order() {
    let mut req = empty_request();
    req.fee_config = Some(FeeConfig { fee_amount: Some("abc".into()), fee_denom: None, gas_limit: Some("x".into()) });
    assert_eq!(resolve_add_chain_request(&req).unwrap_err(), ChainConfigError::InvalidFeeAmount);

    let mut req = empty_request();
    req.fee_config = Some(FeeConfig { fee_amount: None, fee_denom: None, gas_limit: Some("-1".into()) });
    assert_eq!(resolve_add_chain_request(&req).unwrap_err(), ChainConfigError::InvalidGasLimit);

    let mut req = empty_request();
    req.trust_level = Some("1/0".into());
    assert_eq!(resolve_add_chain_request(&req).unwrap_err(), ChainConfigError::InvalidTrustLevel);

    let mut req = empty_request();
    req.trusting_period = Some(ProtoDuration { seconds: -1, nanos: 0 });
    assert_eq!(resolve_add_chain_request(&req).unwrap_err(), ChainConfigError::NegativeTrustingPeriod);

    let mut req = empty_request();
    req.max_clock_drift = Some(ProtoDuration { seconds: -2, nanos: 0 });
    assert_eq!(resolve_add_chain_request(&req).unwrap_err(), ChainConfigError::NegativeMaxClockDrift);

    let mut req = empty_request();
    req.rpc_timeout = Some(ProtoDuration { seconds: -3, nanos: 0 });
    assert_eq!(resolve_add_chain_request(&req).unwrap_err(), ChainConfigError::NegativeRpcTimeout);

    let mut req = empty_request();
    req.trusted_hash = Some("zz".into());
    assert_eq!(resolve_add_chain_request(&req).unwrap_err(), ChainConfigError::InvalidTrustedHashHex);

    let mut req = empty_request();
    req.trusted_hash = Some("abcd".into());
    assert_eq!(resolve_add_chain_request(&req).unwrap_err(), ChainConfigError::InvalidTrustedHashLength);
}

#[test]
fn empty_trusted_hash_means_none() {
    assert_eq!(trusted_hash_of(&Some(String::new())), Ok(None));
    assert_eq!(trusted_hash_of(&None), Ok(None));
}

#[test]
fn server_config_requires_config_height_and_hash() {
    assert_eq!(resolve_chain_config(&None).unwrap_err(), ChainConfigError::MissingConfig);
    let mut c = empty_config();
    c.trusted_height = None;
    assert_eq!(resolve_chain_config(&Some(c)).unwrap_err(), ChainConfigError::MissingTrustedHeight);
    let mut c = empty_config();
    c.trusted_hash = None;
    assert_eq!(resolve_chain_config(&Some(c)).unwrap_err(), ChainConfigError::MissingTrustedHash);
    let mut c = empty_config();
    c.trusted_hash = Some(String::new());
    assert_eq!(resolve_chain_config(&Some(c)).unwrap_err(), ChainConfigError::EmptyTrustedHash);
    let mut c = empty_config();
    c.trusted_hash = Some("0g".into());
    assert_eq!(resolve_chain_config(&Some(c)).unwrap_err(), ChainConfigError::InvalidTrustedHashHex);
    let mut c = empty_config();
    c.trusted_hash = Some("00".into());
    assert_eq!(resolve_chain_config(&Some(c)).unwrap_err(), ChainConfigError::InvalidTrustedHashLength);
    let mut c = empty_config();
    c.fee_config = Some(FeeSettings { fee_amount: Some("1e".into()), fee_denom: None, gas_limit: None });
    assert_eq!(resolve_chain_config(&Some(c)).unwrap_err(), ChainConfigError::InvalidFeeAmount);
}

#[test]
fn server_config_is_answered_as_given() {
    let mut c = empty_config();
    c.fee_config = Some(FeeSettings { fee_amount: None, fee_denom: Some("atom".into()), gas_limit: Some(7) });
    c.trust_level = Some("2/3".into());
    let v = resolve_chain_config(&Some(c)).unwrap();
    assert_eq!(decimal_text(v.fee.amount.bytes), "1000");
    assert_eq!(v.fee.gas_limit, 7);
    assert_eq!(v.trusted_height, 5);
    let a = chain_config_answer(&v).unwrap();
    assert_eq!(a.grpc_addr, "http://0.0.0.0:9090");
    assert_eq!(a.fee_amount, "1000");
    assert_eq!(a.fee_denom, "atom");
    assert_eq!(a.gas_limit, 7);
    assert_eq!(a.trust_level, "2/3");
    assert_eq!(a.trusting_period, ProtoDuration { seconds: 1209600, nanos: 0 });
    assert_eq!(a.max_clock_drift, ProtoDuration { seconds: 3, nanos: 0 });
    assert_eq!(a.trusted_height, 5);
    assert_eq!(a.trusted_hash, HASH);
    let mut back = empty_config();
    back.trusted_hash = Some(a.trusted_hash.clone());
    assert_eq!(resolve_chain_config(&Some(back)).unwrap().trusted_hash, v.trusted_hash);
}

#[test]
fn large_trusted_height_cannot_be_answered() {
    let mut v = resolve_chain_config(&Some(empty_config())).unwrap();
    v.trusted_height = u32::MAX as u64 + 1;
    assert_eq!(chain_config_answer(&v).unwrap_err(), ChainAnswerError::TrustedHeightTooLarge);
}

fn details() -> ChainConnectionDetails {
    ChainConnectionDetails {
        solo_machine_client_id: "06-solomachine-0".into(),
        tendermint_client_id: "07-tendermint-0".into(),
        solo_machine_connection_id: "connection-0".into(),
        tendermint_connection_id: "connection-1".into(),
        solo_machine_channel_id: "channel-0".into(),
        tendermint_channel_id: "channel-1".into(),
    }
}

fn sample_chain() -> Chain {
    let mut req = empty_request();
    req.trusted_hash = Some(HASH.to_string());
    let config = resolve_add_chain_request(&req).unwrap();
    Chain::from_config("testnet-1".into(), "node".into(), config, 1000)
}

#[test]
fn added_chain_starts_fresh_and_queries_back() {
    let chain = sample_chain();
    assert_eq!(chain.sequence, 1);
    assert_eq!(chain.packet_sequence, 1);
    assert!(chain.connection_details.is_none());
    let r = query_chain_response(&chain);
    assert_eq!(r.chain_id, "testnet-1");
    assert_eq!(r.node_id, "node");
    let fee = r.fee_config.unwrap();
    assert_eq!(fee.fee_amount.as_deref(), Some("1000"));
    assert_eq!(fee.fee_denom.as_deref(), Some("stake"));
    assert_eq!(fee.gas_limit.as_deref(), Some("300000"));
    assert_eq!(r.trust_level, "1/3");
    assert_eq!(r.trusting_period, Some(ProtoDuration { seconds: 1209600, nanos: 0 }));
    assert_eq!(r.trusted_hash, HASH);
    assert_eq!(r.sequence, 1);
    assert!(r.connection_details.is_none());
}

#[test]
fn sequences_and_connection_details_update() {
    let mut chain = sample_chain();
    chain.increment_sequence();
    chain.increment_sequence();
    chain.increment_packet_sequence();
    assert_eq!(chain.sequence, 3);
    assert_eq!(chain.packet_sequence, 2);
    chain.add_connection_details(&details());
    let r = query_chain_response(&chain);
    let d: ConnectionDetails = r.connection_details.unwrap();
    assert_eq!(d.solo_machine_client_id, "06-solomachine-0");
    assert_eq!(d.tendermint_channel_id, "channel-1");
    let copy = details().duplicate();
    assert_eq!(copy.tendermint_connection_id, "connection-1");
    let converted = ConnectionDetails::from(&copy);
    assert_eq!(converted.solo_machine_channel_id, "channel-0");
}

#[test]
fn default_fee() {
    let fee = Fee::default();
    assert_eq!(decimal_text(fee.amount.bytes), "1000");
    assert_eq!(fee.denom, "stake");
    assert_eq!(fee.gas_limit, 300000);
}

#[test]
fn durations_follow_prost_conversion() {
    let mut req = empty_request();
    req.max_clock_drift = Some(ProtoDuration { seconds: 0, nanos: -5 });
    let c = resolve_add_chain_request(&req).unwrap();
    let expected = std::time::Duration::try_from(prost_types::Duration { seconds: 0, nanos: -5 }).unwrap();
    assert_eq!(c.max_clock_drift, StdDuration { secs: expected.as_secs(), nanos: expected.subsec_nanos() });
    let mut req = empty_request();
    req.rpc_timeout = Some(ProtoDuration { seconds: 5, nanos: -1 });
    let c = resolve_add_chain_request(&req).unwrap();
    assert_eq!(c.rpc_timeout, StdDuration { secs: 4, nanos: 999_999_999 });
}

#[test]
fn trust_thresholds_between_a_third_and_one() {
    let third = TrustLevel { numerator: 1, denominator: 3 };
    assert_eq!(trust_threshold(third), Some(third));
    assert_eq!(trust_threshold(TrustLevel { numerator: 1, denominator: 1 }), Some(TrustLevel { numerator: 1, denominator: 1 }));
    assert_eq!(trust_threshold(TrustLevel { numerator: 1, denominator: 4 }), None);
    assert_eq!(trust_threshold(TrustLevel { numerator: 2, denominator: 1 }), None);
    assert_eq!(trust_threshold(TrustLevel { numerator: 0, denominator: 0 }), None);
    let big = TrustLevel { numerator: u64::MAX - 1, denominator: u64::MAX };
    assert_eq!(trust_threshold(big), Some(big));
}

#[test]
fn answered_configuration_resolves_back() {
    let mut c = empty_config();
    c.trust_level = Some("4/6".into());
    c.trusting_period = Some(ProtoDuration { seconds: 100, nanos: 7 });
    c.max_clock_drift = Some(ProtoDuration { seconds: 2, nanos: 1_500_000_000 });
    c.diversifier = Some("div".into());
    let v = resolve_chain_config(&Some(c)).unwrap();
    assert_eq!(v.trust_level, TrustLevel { numerator: 2, denominator: 3 });
    let a = chain_config_answer(&v).unwrap();
    assert_eq!(a.trust_level, "2/3");
    let back = ChainConfigRequest {
        grpc_addr: Some(a.grpc_addr.clone()),
        rpc_addr: Some(a.rpc_addr.clone()),
        fee_config: Some(FeeSettings {
            fee_amount: Some(a.fee_amount.clone()),
            fee_denom: Some(a.fee_denom.clone()),
            gas_limit: Some(a.gas_limit),
        }),
        trust_level: Some(a.trust_level.clone()),
        trusting_period: Some(a.trusting_period),
        max_clock_drift: Some(a.max_clock_drift),
        rpc_timeout: Some(a.rpc_timeout),
        diversifier: Some(a.diversifier.clone()),
        port_id: Some(a.port_id.clone()),
        trusted_height: Some(a.trusted_height),
        trusted_hash: Some(a.trusted_hash.clone()),
    };
    let v2 = resolve_chain_config(&Some(back)).unwrap();
    assert_eq!(v2.trust_level, v.trust_level);
    assert_eq!(v2.trusting_period, v.trusting_period);
    assert_eq!(v2.max_clock_drift, StdDuration { secs: 3, nanos: 500_000_000 });
    assert_eq!(v2.max_clock_drift, v.max_clock_drift);
    assert_eq!(v2.rpc_timeout, v.rpc_timeout);
    assert_eq!(v2.trusted_hash, v.trusted_hash);
    assert_eq!(v2.trusted_height, v.trusted_height);
    assert_eq!(v2.diversifier, "div");
    assert_eq!(v2.fee.amount.bytes, v.fee.amount.bytes);
}

#[test]
fn duration_overflow_is_detected() {
    use_converts();
}

fn use_converts() {
    assert!(converts_without_overflow(ProtoDuration { seconds: 10, nanos: 5 }));
    assert!(converts_without_overflow(ProtoDuration { seconds: -10, nanos: -2_000_000_000 }));
    assert!(!converts_without_overflow(ProtoDuration { seconds: i64::MAX, nanos: 1_000_000_000 }));
    assert!(!converts_without_overflow(ProtoDuration { seconds: i64::MIN, nanos: 0 }));
    assert!(converts_without_overflow(ProtoDuration { seconds: i64::MIN, nanos: 1 }));
    assert!(converts_without_overflow(ProtoDuration { seconds: i64::MAX, nanos: 999_999_999 }));
    assert!(!converts_without_overflow(ProtoDuration { seconds: i64::MIN + 1, nanos: -1_000_000_000 }));
}

#[test]
fn port_ids_must_be_ics24_identifiers() {
    let mut req = empty_request();
    req.port_id = Some(String::new());
    assert_eq!(resolve_add_chain_request(&req).unwrap_err(), ChainConfigError::InvalidPortId);
    req.port_id = Some("t".into());
    assert_eq!(resolve_add_chain_request(&req).unwrap_err(), ChainConfigError::InvalidPortId);
    req.port_id = Some("trans/fer".into());
    assert_eq!(resolve_add_chain_request(&req).unwrap_err(), ChainConfigError::InvalidPortId);
    req.port_id = Some("x".repeat(129));
    assert_eq!(resolve_add_chain_request(&req).unwrap_err(), ChainConfigError::InvalidPortId);
    req.port_id = Some("my-port.v1_[a]<b>#+".into());
    assert_eq!(resolve_add_chain_request(&req).unwrap().port_id, "my-port.v1_[a]<b>#+");
    req.port_id = Some("x".repeat(128));
    assert!(resolve_add_chain_request(&req).is_ok());

    let mut c = empty_config();
    c.port_id = Some("a b".into());
    assert_eq!(resolve_chain_config(&Some(c)).unwrap_err(), ChainConfigError::InvalidPortId);
    let mut c = empty_config();
    c.port_id = Some("ab".into());
    assert_eq!(resolve_chain_config(&Some(c)).unwrap().port_id, "ab");
}

#[test]
fn server_fee_denominations_must_be_identifiers() {
    let mut c = empty_config();
    c.fee_config = Some(FeeSettings { fee_amount: None, fee_denom: Some(String::new()), gas_limit: None });
    assert_eq!(resolve_chain_config(&Some(c)).unwrap_err(), ChainConfigError::InvalidFeeDenom);
    let mut c = empty_config();
    c.fee_config = Some(FeeSettings { fee_amount: None, fee_denom: Some("ibc/ABC".into()), gas_limit: None });
    assert_eq!(resolve_chain_config(&Some(c)).unwrap_err(), ChainConfigError::InvalidFeeDenom);
    let mut c = empty_config();
    c.fee_config = Some(FeeSettings { fee_amount: None, fee_denom: Some("gld".into()), gas_limit: None });
    assert_eq!(resolve_chain_config(&Some(c)).unwrap().fee.denom, "gld");
}
