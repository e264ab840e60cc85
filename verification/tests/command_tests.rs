use solo_machine::command::{
    color_choice, get_color_for_operation_type, history_title, into_row, new_public_key,
    plan_command, ColorChoice, CommandError, CommandKind, HandlerSource, Operation, OperationType, PublicKeyAlgo,
    PublicKeyError, TableColor,
};

const G_COMPRESSED: &str = "0279be667ef9dcbbac55a06295ce870b07029bfcdb2dce28d959f2815b16f81798";
const G_UNCOMPRESSED: &str = "0479be667ef9dcbbac55a06295ce870b07029bfcdb2dce28d959f2815b16f81798483ada7726a3c4655da4fbfc0e1108a8fd17b448a68554199c47d08ffb10d4b8";

#[test]
fn no_style_turns_colours_off() {
    assert_eq!(color_choice(true), ColorChoice::Never);
    assert_eq!(color_choice(false), ColorChoice::Auto);
}

#[test]
fn commands_need_their_settings() {
    let none: Option<String> = None;
    let db = Some("/tmp/solo.db".to_string());
    let signer = Some("/tmp/signer.so".to_string());
    assert_eq!(plan_command(CommandKind::Chain, false, &db, &none, &vec![]).unwrap_err(), CommandError::SignerRequiredForChain);
    assert_eq!(plan_command(CommandKind::Ibc, false, &db, &none, &vec![]).unwrap_err(), CommandError::SignerRequiredForIbc);
    assert_eq!(plan_command(CommandKind::Start, false, &db, &none, &vec![]).unwrap_err(), CommandError::SignerRequiredForServer);
    assert_eq!(plan_command(CommandKind::Chain, false, &none, &signer, &vec![]).unwrap_err(), CommandError::DbPathRequired);
    assert_eq!(plan_command(CommandKind::Init, false, &none, &none, &vec![]).unwrap_err(), CommandError::DbPathRequired);
    assert!(plan_command(CommandKind::GenCompletion, false, &none, &none, &vec![]).is_ok());
    assert_eq!(CommandError::DbPathRequired.message(), "`db-path` is required");
    assert_eq!(CommandError::SignerRequiredForServer.message(), "`signer` is required for gRPC server");
}

#[test]
fn plans_follow_the_sub_command() {
    let db = Some("/tmp/solo.db".to_string());
    let signer = Some("/tmp/signer.so".to_string());
    let p = plan_command(CommandKind::Ibc, true, &db, &signer, &vec![]).unwrap();
    assert_eq!(p.color, ColorChoice::Never);
    assert_eq!(p.db_url.as_deref(), Some("sqlite:/tmp/solo.db"));
    assert!(p.spawn_handlers);
    assert!(p.register_cli_handler);
    assert_eq!(p.signer_path, signer);
    assert!(!p.run_migrations);
    let p = plan_command(CommandKind::Init, false, &db, &signer, &vec![]).unwrap();
    assert_eq!(p.create_db_file, db);
    assert!(p.run_migrations);
    assert!(!p.spawn_handlers);
    assert_eq!(p.signer_path, None);
    let p = plan_command(CommandKind::Start, false, &db, &signer, &vec![]).unwrap();
    assert!(p.spawn_handlers);
    assert!(!p.register_cli_handler);
    let p = plan_command(CommandKind::GenCompletion, false, &db, &signer, &vec![]).unwrap();
    assert_eq!(p.db_url, None);
}

#[test]
fn new_public_keys_are_checked() {
    let k = new_public_key(G_COMPRESSED, PublicKeyAlgo::Secp256k1).unwrap();
    assert_eq!(k.algo, PublicKeyAlgo::Secp256k1);
    assert_eq!(k.compressed, hex::decode(G_COMPRESSED).unwrap());
    let k = new_public_key(G_UNCOMPRESSED, PublicKeyAlgo::EthSecp256k1).unwrap();
    assert_eq!(k.algo, PublicKeyAlgo::EthSecp256k1);
    assert_eq!(k.compressed, hex::decode(G_COMPRESSED).unwrap());
    assert_eq!(new_public_key("xyz", PublicKeyAlgo::Secp256k1).unwrap_err(), PublicKeyError::InvalidHex);
    assert_eq!(new_public_key("0011", PublicKeyAlgo::Secp256k1).unwrap_err(), PublicKeyError::InvalidKey);
}

#[test]
fn history_rows() {
    assert_eq!(get_color_for_operation_type(&OperationType::Mint), TableColor::Green);
    assert_eq!(get_color_for_operation_type(&OperationType::Burn), TableColor::Red);
    let op = Operation {
        id: "4".into(),
        request_id: None,
        address: "cosmos1abc".into(),
        denom: "gld".into(),
        amount: "10".into(),
        operation_type: OperationType::Burn,
        operation_type_text: "burn".into(),
        transaction_hash: "HASH".into(),
        created_at: "2021-01-01".into(),
    };
    let row = into_row(&op);
    assert_eq!(row.len(), 8);
    assert_eq!(row[0].text, "4");
    assert!(row[0].right_aligned);
    assert_eq!(row[1].text, "-");
    assert!(row[4].right_aligned);
    assert_eq!(row[5].color, Some(TableColor::Red));
    assert_eq!(row[6].text, "HASH");
    let title = history_title();
    let texts: Vec<&str> = title.iter().map(|c| c.text.as_str()).collect();
    assert_eq!(texts, vec!["ID", "Request ID", "Address", "Denom", "Amount", "Type", "Transaction Hash", "Time"]);
    assert!(title.iter().all(|c| c.bold));
}

fn sources(p: &solo_machine::command::CommandPlan) -> Vec<Option<String>> {
    p.handlers
        .iter()
        .map(|h| match h {
            HandlerSource::File(path) => Some(path.clone()),
            HandlerSource::CommandLine => None,
        })
        .collect()
}

#[test]
fn command_line_handler_comes_after_loaded_handlers() {
    let db = Some("/tmp/solo.db".to_string());
    let signer = Some("/tmp/signer.so".to_string());
    let files = vec!["a.so".to_string(), "b.so".to_string()];
    let p = plan_command(CommandKind::Chain, false, &db, &signer, &files).unwrap();
    assert_eq!(sources(&p), vec![Some("a.so".to_string()), Some("b.so".to_string()), None]);
    let p = plan_command(CommandKind::Ibc, true, &db, &signer, &files).unwrap();
    assert_eq!(sources(&p), vec![Some("a.so".to_string()), Some("b.so".to_string()), None]);
    let p = plan_command(CommandKind::Start, false, &db, &signer, &files).unwrap();
    assert_eq!(sources(&p), vec![Some("a.so".to_string()), Some("b.so".to_string())]);
    let p = plan_command(CommandKind::Init, false, &db, &signer, &files).unwrap();
    assert!(p.handlers.is_empty());
}

#[test]
fn history_table_has_one_row_per_operation_in_order() {
    let op = |id: &str, kind: OperationType| Operation {
        id: id.into(),
        request_id: if id == "1" { Some("r1".into()) } else { None },
        address: "cosmos1abc".into(),
        denom: "gld".into(),
        amount: "10".into(),
        operation_type: kind,
        operation_type_text: "op".into(),
        transaction_hash: "HASH".into(),
        created_at: "2021-01-01".into(),
    };
    let ops = vec![op("1", OperationType::Mint), op("2", OperationType::Burn), op("3", OperationType::Mint)];
    let rows = solo_machine::command::history_rows(&ops);
    assert_eq!(rows.len(), 3);
    let ids: Vec<&str> = rows.iter().map(|r| r[0].text.as_str()).collect();
    assert_eq!(ids, vec!["1", "2", "3"]);
    assert_eq!(rows[0][1].text, "r1");
    assert_eq!(rows[1][1].text, "-");
    assert_eq!(rows[1][5].color, Some(TableColor::Red));
    assert_eq!(rows[2][5].color, Some(TableColor::Green));
    assert!(solo_machine::command::history_rows(&vec![]).is_empty());
}
