use solo_machine::chain::ChainConnectionDetails;
use solo_machine::command::ColorChoice;
use solo_machine::events::{
    connection_details_json, log_line, text_output, CliEventHandler, CliOutput, EnvLogger, Event,
    JsonOutput, LogLevel,
};
use solo_machine::output::OutputType;

fn details() -> ChainConnectionDetails {
    ChainConnectionDetails {
        solo_machine_client_id: "06-solomachine-0".into(),
        tendermint_client_id: "07-tendermint-0".into(),
        solo_machine_connection_id: "connection-0".into(),
        tendermint_connection_id: "connection-1".into(),
        solo_machine_channel_id: "channel-0".into(),
        tendermint_channel_id: "channel-1".into(),
    }
}

#[test]
fn minted_tokens_log_line() {
    let e = Event::TokensMinted {
        chain_id: "testnet".into(),
        request_id: None,
        to_address: "cosmos1abc".into(),
        amount: "100".into(),
        denom: "gld".into(),
        transaction_hash: "ABCD".into(),
    };
    let l = log_line(&e).unwrap();
    assert_eq!(l.level, LogLevel::Info);
    assert_eq!(
        l.message,
        "Minted new tokens [Chain ID = testnet] [Request ID = None] [Address = cosmos1abc] [Amount = 100 gld] [Transaction Hash = ABCD]"
    );
}

#[test]
fn other_log_lines() {
    let l = log_line(&Event::ChainAdded { chain_id: "c".into() }).unwrap();
    assert_eq!(l.message, "Added new chain [Chain ID = c]");
    let l = log_line(&Event::Warning { message: "careful".into() }).unwrap();
    assert_eq!(l.level, LogLevel::Warn);
    assert_eq!(l.message, "careful");
    let l = log_line(&Event::SignerUpdated {
        chain_id: "c".into(),
        old_public_key: "a".into(),
        new_public_key: "b".into(),
    })
    .unwrap();
    assert_eq!(l.message, "Successfully updated signer's public key [Chain ID: c]");
    let l = log_line(&Event::CreatedTendermintClient { client_id: "07-tendermint-0".into() }).unwrap();
    assert_eq!(l.message, "Created tendermint client on solo machine [Client ID = 07-tendermint-0]");
}

#[test]
fn connection_details_serialise_in_field_order() {
    let json = connection_details_json(&details()).unwrap();
    let parsed: serde_json::Value = serde_json::from_str(&json).unwrap();
    assert_eq!(parsed["tendermint_channel_id"], "channel-1");
    assert!(json.starts_with("{\"solo_machine_client_id\":\"06-solomachine-0\""));
    let l = log_line(&Event::ConnectionEstablished { chain_id: "c".into(), connection_details: details() }).unwrap();
    assert_eq!(l.message, format!("Connection successfully established [Chain ID = c] [Details = {}]", json));
}

#[test]
fn env_logger_handles_events() {
    let logger = EnvLogger::new();
    let l = logger.handle(&Event::ChainAdded { chain_id: "x".into() }).unwrap();
    assert_eq!(l.message, "Added new chain [Chain ID = x]");
}

#[test]
fn text_output_of_events() {
    let t = text_output(&Event::ChainAdded { chain_id: "c".into() });
    assert_eq!(t.headline, "New chain added!");
    assert!(t.highlight_values);
    assert_eq!(t.rows, vec![("Chain ID".to_string(), "c".to_string())]);
    let t = text_output(&Event::Warning { message: "m".into() });
    assert_eq!(t.headline, "WARNING: m");
    assert!(t.warning);
    assert!(t.rows.is_empty());
    let t = text_output(&Event::TokensBurnt {
        chain_id: "c".into(),
        request_id: Some("r1".into()),
        from_address: "a".into(),
        amount: "5".into(),
        denom: "gld".into(),
        transaction_hash: "h".into(),
    });
    assert_eq!(t.headline, "Tokens burnt!");
    assert_eq!(t.rows[1], ("Request ID".to_string(), "r1".to_string()));
    assert_eq!(t.rows[2], ("From".to_string(), "a".to_string()));
    let t = text_output(&Event::ConnectionEstablished { chain_id: "c".into(), connection_details: details() });
    assert_eq!(t.rows.len(), 7);
}

#[test]
fn cli_handler_chooses_text_or_json() {
    let h = CliEventHandler::new(ColorChoice::Never, OutputType::Json);
    match h.handle(&Event::Warning { message: "w".into() }) {
        CliOutput::Json { color, output: JsonOutput::Warning { message } } => {
            assert_eq!(color, ColorChoice::Never);
            assert_eq!(message, "w");
        }
        other => panic!("unexpected {:?}", other),
    }
    assert!(matches!(
        h.handle(&Event::ChainAdded { chain_id: "c".into() }),
        CliOutput::Json { output: JsonOutput::Success, .. }
    ));
    let h = CliEventHandler::new(ColorChoice::Auto, OutputType::Text);
    match h.handle(&Event::ChainAdded { chain_id: "c".into() }) {
        CliOutput::Text { color, output } => {
            assert_eq!(color, ColorChoice::Auto);
            assert_eq!(output.headline, "New chain added!");
        }
        other => panic!("unexpected {:?}", other),
    }
}
