use solo_machine::command::PublicKeyAlgo;
use solo_machine::requests::{
    history_window, memo_or_default, parse_amount, parse_public_key_algo, update_signer_key,
    RequestError,
};

const G_COMPRESSED: &str = "0279be667ef9dcbbac55a06295ce870b07029bfcdb2dce28d959f2815b16f81798";

#[test]
fn memo_defaults() {
    assert_eq!(memo_or_default(&None), "solo-machine-memo");
    assert_eq!(memo_or_default(&Some("hi".into())), "hi");
}

#[test]
fn amounts_are_256_bit_decimals() {
    assert_eq!(parse_amount("123").unwrap().limbs, [123, 0, 0, 0]);
    assert_eq!(parse_amount("").unwrap().limbs, [0, 0, 0, 0]);
    assert_eq!(parse_amount("18446744073709551616").unwrap().limbs, [0, 1, 0, 0]);
    let max = "115792089237316195423570985008687907853269984665640564039457584007913129639935";
    assert_eq!(parse_amount(max).unwrap().limbs, [u64::MAX; 4]);
    let over = "115792089237316195423570985008687907853269984665640564039457584007913129639936";
    assert_eq!(parse_amount(over).unwrap_err(), RequestError::InvalidAmount);
    assert_eq!(parse_amount("12a").unwrap_err(), RequestError::InvalidAmount);
    assert_eq!(parse_amount("-1").unwrap_err(), RequestError::InvalidAmount);
}

#[test]
fn public_key_algorithms() {
    assert_eq!(parse_public_key_algo("secp256k1"), Some(PublicKeyAlgo::Secp256k1));
    assert_eq!(parse_public_key_algo("eth-secp256k1"), Some(PublicKeyAlgo::EthSecp256k1));
    assert_eq!(parse_public_key_algo("ed25519"), None);
}

#[test]
fn update_signer_checks_key_then_algorithm() {
    let k = update_signer_key(G_COMPRESSED, &None).unwrap();
    assert_eq!(k.algo, PublicKeyAlgo::Secp256k1);
    let k = update_signer_key(G_COMPRESSED, &Some("eth-secp256k1".into())).unwrap();
    assert_eq!(k.algo, PublicKeyAlgo::EthSecp256k1);
    assert_eq!(update_signer_key("zz", &Some("bad".into())).unwrap_err(), RequestError::InvalidPublicKeyHex);
    assert_eq!(update_signer_key("00", &Some("bad".into())).unwrap_err(), RequestError::InvalidPublicKey);
    assert_eq!(update_signer_key(G_COMPRESSED, &Some("bad".into())).unwrap_err(), RequestError::InvalidPublicKeyAlgo);
}

#[test]
fn history_window_defaults_and_limits() {
    assert_eq!(history_window(None, None), Ok((10, 0)));
    assert_eq!(history_window(Some(3), Some(6)), Ok((3, 6)));
    assert_eq!(history_window(Some(u32::MAX), Some(0)), Err(RequestError::InvalidLimit));
    assert_eq!(history_window(Some(1), Some(2147483648)), Err(RequestError::InvalidOffset));
    assert_eq!(history_window(Some(2147483647), None), Ok((2147483647, 0)));
}
