use vstd::prelude::*;
use crate::text::owned;

verus! {

/// Kinds of data that a solo machine signature vouches for.
#[derive(Debug, Clone, Copy, PartialEq, Eq, Structural)]
pub enum DataType {
    ClientState,
    ConsensusState,
    ConnectionState,
    ChannelState,
    PacketCommitment,
    PacketAcknowledgement,
    Header,
}

/// The number by which the protocol encodes a data type.
pub open spec fn data_type_code(t: DataType) -> i32 {
    match t {
        DataType::ClientState => 1,
        DataType::ConsensusState => 2,
        DataType::ConnectionState => 3,
        DataType::ChannelState => 4,
        DataType::PacketCommitment => 5,
        DataType::PacketAcknowledgement => 6,
        DataType::Header => 9,
    }
}

impl SignMode {
    /// The number by which the protocol encodes this sign mode.
    pub fn code(&self) -> (r: i32)
        ensures
            r == sign_mode_code(*self),
    {
        match self {
            SignMode::Unspecified => 0,
            SignMode::Direct => 1,
        }
    }
}

impl DataType {
    /// The number by which the protocol encodes this data type.
    pub fn code(&self) -> (r: i32)
        ensures
            r == data_type_code(*self),
    {
        match self {
            DataType::ClientState => 1,
            DataType::ConsensusState => 2,
            DataType::ConnectionState => 3,
            DataType::ChannelState => 4,
            DataType::PacketCommitment => 5,
            DataType::PacketAcknowledgement => 6,
            DataType::Header => 9,
        }
    }
}

/// Sign modes of a single signature.
#[derive(Debug, Clone, Copy, PartialEq, Eq, Structural)]
pub enum SignMode {
    Unspecified,
    Direct,
}

/// The number by which the protocol encodes a sign mode.
pub open spec fn sign_mode_code(m: SignMode) -> i32 {
    match m {
        SignMode::Unspecified => 0,
        SignMode::Direct => 1,
    }
}

/// What a solo machine signature is made over.
#[derive(Debug, Clone)]
pub struct SignBytesData {
    pub sequence: u64,
    pub timestamp: u64,
    pub diversifier: String,
    pub data_type: DataType,
    pub data: Vec<u8>,
}

pub open spec fn opt_secret_view(o: Option<[u8; 32]>) -> Option<Seq<u8>> {
    match o {
        Some(v) => Some(v@),
        None => None,
    }
}

pub open spec fn opt_vec_view(o: Option<Vec<u8>>) -> Option<Seq<u8>> {
    match o {
        Some(v) => Some(v@),
        None => None,
    }
}

/// The protobuf encoding of the solo machine `SignBytes` message with these
/// fields; `None` when encoding fails.
pub uninterp spec fn sign_bytes_encoding(
    sequence: u64,
    timestamp: u64,
    diversifier: Seq<char>,
    data_type: i32,
    data: Seq<u8>,
) -> Option<Seq<u8>>;

/// The protobuf encoding of a single-signer `SignatureDescriptor.Data`
/// holding `signature` and the sign mode `mode`; `None` when encoding fails.
pub uninterp spec fn signature_data_encoding(signature: Seq<u8>, mode: i32) -> Option<Seq<u8>>;

/// The protobuf encoding of `TimestampedSignatureData`; `None` when encoding
/// fails.
pub uninterp spec fn timestamped_signature_encoding(signature_data: Seq<u8>, timestamp: u64) -> Option<
    Seq<u8>,
>;

/// The protobuf encoding of a transaction `SignDoc`; `None` when encoding
/// fails.
pub uninterp spec fn sign_doc_encoding(
    body_bytes: Seq<u8>,
    auth_info_bytes: Seq<u8>,
    chain_id: Seq<char>,
    account_number: u64,
) -> Option<Seq<u8>>;

/// The secp256k1 ECDSA signature (RFC 6979 nonce, SHA-256 digest) of
/// `message` under the secret scalar `secret` (big endian); `None` when
/// `secret` is no valid secret scalar or signing fails.
pub uninterp spec fn ecdsa_signature(secret: Seq<u8>, message: Seq<u8>) -> Option<Seq<u8>>;

/// The BIP-39 seed (empty password) of an English mnemonic phrase; `None`
/// when the phrase is no valid English mnemonic.
pub uninterp spec fn bip39_seed(phrase: Seq<char>) -> Option<Seq<u8>>;

/// The secret key that BIP-32 derives from `seed` along `path`; `None` when
/// the path does not parse or derivation fails.
pub uninterp spec fn hd_secret(seed: Seq<u8>, path: Seq<char>) -> Option<Seq<u8>>;

/// Encodes `cosmos_sdk_proto`'s solo machine `SignBytes` with
/// `prost::Message::encode`. Claimed: the bytes are [`sign_bytes_encoding`]
/// of the fields.
#[verifier::external_body]
fn encode_sign_bytes(
    sequence: u64,
    timestamp: u64,
    diversifier: &str,
    data_type: i32,
    data: &[u8],
) -> (r: Option<Vec<u8>>)
    ensures
        opt_vec_view(r) == sign_bytes_encoding(sequence, timestamp, diversifier@, data_type, data@),
{
    let message = cosmos_sdk_proto::ibc::lightclients::solomachine::v1::SignBytes {
        sequence,
        timestamp,
        diversifier: diversifier.to_string(),
        data_type,
        data: data.to_vec(),
    };
    let mut buf = Vec::new();
    prost::Message::encode(&message, &mut buf).ok().map(|_| buf)
}

/// Encodes `cosmos_sdk_proto`'s single-signer `SignatureDescriptor.Data` with
/// `prost::Message::encode`. Claimed: the bytes are
/// [`signature_data_encoding`] of signature and mode.
#[verifier::external_body]
fn encode_signature_data(signature: &[u8], mode: i32) -> (r: Option<Vec<u8>>)
    ensures
        opt_vec_view(r) == signature_data_encoding(signature@, mode),
{
    let message = cosmos_sdk_proto::cosmos::tx::signing::v1beta1::signature_descriptor::Data {
        sum: Some(cosmos_sdk_proto::cosmos::tx::signing::v1beta1::signature_descriptor::data::Sum::Single(
            cosmos_sdk_proto::cosmos::tx::signing::v1beta1::signature_descriptor::data::Single {
                mode,
                signature: signature.to_vec(),
            },
        )),
    };
    let mut buf = Vec::new();
    prost::Message::encode(&message, &mut buf).ok().map(|_| buf)
}

/// Encodes `cosmos_sdk_proto`'s `TimestampedSignatureData` with
/// `prost::Message::encode`. Claimed: the bytes are
/// [`timestamped_signature_encoding`] of the fields.
#[verifier::external_body]
fn encode_timestamped_signature(signature_data: &[u8], timestamp: u64) -> (r: Option<Vec<u8>>)
    ensures
        opt_vec_view(r) == timestamped_signature_encoding(signature_data@, timestamp),
{
    let message = cosmos_sdk_proto::ibc::lightclients::solomachine::v1::TimestampedSignatureData {
        signature_data: signature_data.to_vec(),
        timestamp,
    };
    let mut buf = Vec::new();
    prost::Message::encode(&message, &mut buf).ok().map(|_| buf)
}

/// Encodes `cosmos_sdk_proto`'s transaction `SignDoc` with
/// `prost::Message::encode`. Claimed: the bytes are [`sign_doc_encoding`] of
/// the fields.
#[verifier::external_body]
fn encode_sign_doc(
    body_bytes: &[u8],
    auth_info_bytes: &[u8],
    chain_id: &str,
    account_number: u64,
) -> (r: Option<Vec<u8>>)
    ensures
        opt_vec_view(r) == sign_doc_encoding(
            body_bytes@,
            auth_info_bytes@,
            chain_id@,
            account_number,
        ),
{
    let message = cosmos_sdk_proto::cosmos::tx::v1beta1::SignDoc {
        body_bytes: body_bytes.to_vec(),
        auth_info_bytes: auth_info_bytes.to_vec(),
        chain_id: chain_id.to_string(),
        account_number,
    };
    let mut buf = Vec::new();
    prost::Message::encode(&message, &mut buf).ok().map(|_| buf)
}

/// Signs `message` with `k256::ecdsa::SigningKey::from_bytes(secret)` and
/// `Signer::try_sign`, giving the 64 bytes of the signature. Claimed: the
/// result is [`ecdsa_signature`] of secret and message.
#[verifier::external_body]
fn ecdsa_sign(secret: &[u8; 32], message: &[u8]) -> (r: Option<Vec<u8>>)
    ensures
        opt_vec_view(r) == ecdsa_signature(secret@, message@),
{
    let key = k256::ecdsa::SigningKey::from_bytes(secret.as_slice()).ok()?;
    let signature: k256::ecdsa::Signature =
        k256::ecdsa::signature::Signer::try_sign(&key, message).ok()?;
    Some(signature.as_ref().to_vec())
}

/// The seed of an English mnemonic phrase with `bip39::Mnemonic::from_phrase`
/// and `bip39::Seed::new` (empty password). Claimed: the result is
/// [`bip39_seed`] of the phrase.
#[verifier::external_body]
fn mnemonic_seed(phrase: &str) -> (r: Option<Vec<u8>>)
    ensures
        opt_vec_view(r) == bip39_seed(phrase@),
{
    let mnemonic = bip39::Mnemonic::from_phrase(phrase, bip39::Language::English).ok()?;
    Some(bip39::Seed::new(&mnemonic, "").as_bytes().to_vec())
}

/// The secret key derived from `seed` along `path` with
/// `tiny_hderive::bip32::ExtendedPrivKey::derive`. Claimed: the result is
/// [`hd_secret`] of seed and path.
#[verifier::external_body]
fn derive_secret(seed: &[u8], path: &str) -> (r: Option<[u8; 32]>)
    ensures
        opt_secret_view(r) == hd_secret(seed@, path@),
{
    let key = tiny_hderive::bip32::ExtendedPrivKey::derive(seed, path).ok()?;
    Some(key.secret())
}

/// The derivation path of the solo machine's key.
pub open spec fn hd_path() -> Seq<char> {
    seq!['m', '/', '4', '4', '\'', '/', '1', '1', '8', '\'', '/', '0', '\'', '/', '0', '/', '0']
}

/// The secret signing key of a mnemonic, derived along `m/44'/118'/0'/0/0`.
pub open spec fn spec_signing_secret(phrase: Seq<char>) -> Option<Seq<u8>> {
    match bip39_seed(phrase) {
        Some(seed) => hd_secret(seed, hd_path()),
        None => None,
    }
}

/// The secret signing key of the mnemonic `phrase`; `None` when the phrase is
/// no valid English mnemonic or no key derives from it.
pub fn signing_secret(phrase: &str) -> (r: Option<[u8; 32]>)
    ensures
        opt_secret_view(r) == spec_signing_secret(phrase@),
{
    match mnemonic_seed(phrase) {
        None => None,
        Some(seed) => {
            proof {
                reveal_strlit("m/44'/118'/0'/0/0");
            }
            let path = owned("m/44'/118'/0'/0/0");
            assert(path@ =~= hd_path());
            derive_secret(seed.as_slice(), path.as_str())
        },
    }
}

/// The signature data (with sign mode `mode`) of the signature over the
/// encoded sign bytes.
pub open spec fn spec_sign(
    secret: Seq<u8>,
    sequence: u64,
    timestamp: u64,
    diversifier: Seq<char>,
    data_type: DataType,
    data: Seq<u8>,
    mode: SignMode,
) -> Option<Seq<u8>> {
    match sign_bytes_encoding(sequence, timestamp, diversifier, data_type_code(data_type), data) {
        None => None,
        Some(message) => match ecdsa_signature(secret, message) {
            None => None,
            Some(signature) => signature_data_encoding(signature, sign_mode_code(mode)),
        },
    }
}

/// The signature data of [`spec_sign`], stamped with the sign bytes'
/// timestamp.
pub open spec fn spec_timestamped_sign(
    secret: Seq<u8>,
    sequence: u64,
    timestamp: u64,
    diversifier: Seq<char>,
    data_type: DataType,
    data: Seq<u8>,
    mode: SignMode,
) -> Option<Seq<u8>> {
    match spec_sign(secret, sequence, timestamp, diversifier, data_type, data, mode) {
        None => None,
        Some(signature_data) => timestamped_signature_encoding(signature_data, timestamp),
    }
}

/// Signs the sign bytes with the secret key: the encoded signature data of
/// the signature over the encoded sign bytes.
pub fn sign(secret: &[u8; 32], sign_bytes: &SignBytesData, mode: SignMode) -> (r: Option<Vec<u8>>)
    ensures
        opt_vec_view(r) == spec_sign(
            secret@,
            sign_bytes.sequence,
            sign_bytes.timestamp,
            sign_bytes.diversifier@,
            sign_bytes.data_type,
            sign_bytes.data@,
            mode,
        ),
{
    let message = encode_sign_bytes(
        sign_bytes.sequence,
        sign_bytes.timestamp,
        sign_bytes.diversifier.as_str(),
        sign_bytes.data_type.code(),
        sign_bytes.data.as_slice(),
    );
    match message {
        None => None,
        Some(message) => match ecdsa_sign(secret, message.as_slice()) {
            None => None,
            Some(signature) => encode_signature_data(signature.as_slice(), mode.code()),
        },
    }
}

/// Signs the sign bytes and stamps the signature data with their timestamp.
pub fn timestamped_sign(secret: &[u8; 32], sign_bytes: &SignBytesData, mode: SignMode) -> (r: Option<
    Vec<u8>,
>)
    ensures
        opt_vec_view(r) == spec_timestamped_sign(
            secret@,
            sign_bytes.sequence,
            sign_bytes.timestamp,
            sign_bytes.diversifier@,
            sign_bytes.data_type,
            sign_bytes.data@,
            mode,
        ),
{
    match sign(secret, sign_bytes, mode) {
        None => None,
        Some(signature_data) => encode_timestamped_signature(
            signature_data.as_slice(),
            sign_bytes.timestamp,
        ),
    }
}

/// The transaction signature: the signature over the encoded `SignDoc`.
pub open spec fn spec_transaction_signature(
    secret: Seq<u8>,
    body_bytes: Seq<u8>,
    auth_info_bytes: Seq<u8>,
    chain_id: Seq<char>,
    account_number: u64,
) -> Option<Seq<u8>> {
    match sign_doc_encoding(body_bytes, auth_info_bytes, chain_id, account_number) {
        None => None,
        Some(doc) => ecdsa_signature(secret, doc),
    }
}

/// Signs a transaction: the signature over its encoded `SignDoc`.
pub fn transaction_signature(
    secret: &[u8; 32],
    body_bytes: &[u8],
    auth_info_bytes: &[u8],
    chain_id: &str,
    account_number: u64,
) -> (r: Option<Vec<u8>>)
    ensures
        opt_vec_view(r) == spec_transaction_signature(
            secret@,
            body_bytes@,
            auth_info_bytes@,
            chain_id@,
            account_number,
        ),
{
    match encode_sign_doc(body_bytes, auth_info_bytes, chain_id, account_number) {
        None => None,
        Some(doc) => ecdsa_sign(secret, doc.as_slice()),
    }
}

/// The compressed SEC1 encoding of the secp256k1 public key of the secret
/// scalar `secret`; `None` when `secret` is no valid secret scalar.
pub uninterp spec fn secp256k1_public_key(secret: Seq<u8>) -> Option<Seq<u8>>;

/// The compressed public key of a secret key, with `k256`'s
/// `SigningKey::from_bytes` and `verify_key`. Claimed: the result is
/// [`secp256k1_public_key`] of the secret.
#[verifier::external_body]
fn compressed_verifying_key(secret: &[u8; 32]) -> (r: Option<Vec<u8>>)
    ensures
        opt_vec_view(r) == secp256k1_public_key(secret@),
{
    let key = k256::ecdsa::SigningKey::from_bytes(secret.as_slice()).ok()?;
    Some(key.verify_key().to_bytes().to_vec())
}

/// The public key (compressed SEC1 encoding) that verifies the signatures
/// made with a secret key; `None` when the secret is no valid secret scalar.
pub fn verifying_key(secret: &[u8; 32]) -> (r: Option<Vec<u8>>)
    ensures
        opt_vec_view(r) == secp256k1_public_key(secret@),
{
    compressed_verifying_key(secret)
}

} // verus!
