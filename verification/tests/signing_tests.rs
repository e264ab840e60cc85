use solo_machine::signing::{sign, signing_secret, timestamped_sign, transaction_signature, verifying_key, DataType, SignBytesData, SignMode};

const PHRASE: &str = "abandon abandon abandon abandon abandon abandon abandon abandon abandon abandon abandon about";

fn sign_bytes(sequence: u64) -> SignBytesData {
    SignBytesData {
        sequence,
        timestamp: 1000,
        diversifier: "solo-machine-diversifier".into(),
        data_type: DataType::ConnectionState,
        data: vec![1, 2, 3],
    }
}

#[test]
fn data_type_codes() {
    assert_eq!(DataType::ClientState.code(), 1);
    assert_eq!(DataType::ConsensusState.code(), 2);
    assert_eq!(DataType::ConnectionState.code(), 3);
    assert_eq!(DataType::ChannelState.code(), 4);
    assert_eq!(DataType::PacketCommitment.code(), 5);
    assert_eq!(DataType::PacketAcknowledgement.code(), 6);
    assert_eq!(DataType::Header.code(), 9);
}

#[test]
fn secret_derives_from_valid_mnemonic_only() {
    let secret = signing_secret(PHRASE).unwrap();
    assert_eq!(secret.len(), 32);
    assert_eq!(signing_secret(PHRASE).unwrap(), secret);
    assert!(signing_secret("not a mnemonic").is_none());
    assert!(signing_secret("abandon abandon abandon abandon abandon abandon abandon abandon abandon abandon abandon abandon").is_none());
}

#[test]
fn signatures_are_deterministic_and_depend_on_the_sign_bytes() {
    let secret = signing_secret(PHRASE).unwrap();
    let a = sign(&secret, &sign_bytes(1), SignMode::Unspecified).unwrap();
    let b = sign(&secret, &sign_bytes(1), SignMode::Unspecified).unwrap();
    let c = sign(&secret, &sign_bytes(2), SignMode::Unspecified).unwrap();
    assert_eq!(a, b);
    assert_ne!(a, c);
    let t = timestamped_sign(&secret, &sign_bytes(1), SignMode::Unspecified).unwrap();
    assert_ne!(t, a);
    assert!(t.len() > a.len());
}

#[test]
fn invalid_secret_cannot_sign() {
    assert!(sign(&[0u8; 32], &sign_bytes(1), SignMode::Unspecified).is_none());
    assert!(sign(&[0xffu8; 32], &sign_bytes(1), SignMode::Unspecified).is_none());
}

#[test]
fn transaction_signature_is_sixty_four_bytes() {
    let secret = signing_secret(PHRASE).unwrap();
    let s = transaction_signature(&secret, b"body", b"auth", "testnet-1", 7).unwrap();
    assert_eq!(s.len(), 64);
    let other = transaction_signature(&secret, b"body", b"auth", "testnet-1", 8).unwrap();
    assert_ne!(s, other);
}

#[test]
fn sign_mode_is_part_of_the_signature_data() {
    assert_eq!(SignMode::Unspecified.code(), 0);
    assert_eq!(SignMode::Direct.code(), 1);
    let secret = signing_secret(PHRASE).unwrap();
    let a = sign(&secret, &sign_bytes(1), SignMode::Unspecified).unwrap();
    let b = sign(&secret, &sign_bytes(1), SignMode::Direct).unwrap();
    assert_ne!(a, b);
}

#[test]
fn verifying_key_of_secret_one_is_the_generator() {
    let mut one = [0u8; 32];
    one[31] = 1;
    assert_eq!(
        hex::encode(verifying_key(&one).unwrap()),
        "0279be667ef9dcbbac55a06295ce870b07029bfcdb2dce28d959f2815b16f81798"
    );
    assert!(verifying_key(&[0u8; 32]).is_none());
    let secret = signing_secret(PHRASE).unwrap();
    assert_eq!(verifying_key(&secret).unwrap().len(), 33);
}
