use vstd::prelude::*;
use crate::command::{PublicKey, PublicKeyAlgo, PublicKeyError, spec_new_public_key, new_public_key};
use crate::numeric::{is_ascii_digit, digit_value};
use crate::text::{owned, str_eq};

verus! {

/// The memo of transactions whose request names none.
pub open spec fn default_memo() -> Seq<char> {
    "solo-machine-memo"@
}

/// The memo of a request: the one given, else `solo-machine-memo`.
pub fn memo_or_default(memo: &Option<String>) -> (r: String)
    ensures
        r@ == (match *memo {
            Some(m) => m@,
            None => default_memo(),
        }),
{
    match memo {
        Some(m) => m.clone(),
        None => owned("solo-machine-memo"),
    }
}

/// 2^256, the bound of 256-bit amounts.
pub open spec fn u256_bound() -> nat {
    0x1_0000_0000_0000_0000_0000_0000_0000_0000_0000_0000_0000_0000_0000_0000_0000_0000nat
}

/// `U256::from_dec_str`: the decimal digits read left to right; `None` on a
/// character that is no ASCII digit or when the value reaches 2^256
/// (the empty text is zero).
pub open spec fn spec_u256_from_dec(s: Seq<char>) -> Option<nat>
    decreases s.len(),
{
    if s.len() == 0 {
        Some(0)
    } else {
        match spec_u256_from_dec(s.drop_last()) {
            None => None,
            Some(v) => if !is_ascii_digit(s.last()) {
                None
            } else if v * 10 + digit_value(s.last()) >= u256_bound() {
                None
            } else {
                Some((v * 10 + digit_value(s.last())) as nat)
            },
        }
    }
}

/// The number held by four little endian 64-bit limbs.
pub open spec fn u256_value(limbs: Seq<u64>) -> nat {
    (limbs[0] + limbs[1] * 0x1_0000_0000_0000_0000nat + limbs[2]
        * 0x1_0000_0000_0000_0000_0000_0000_0000_0000nat + limbs[3]
        * 0x1_0000_0000_0000_0000_0000_0000_0000_0000_0000_0000_0000_0000nat) as nat
}

/// A 256-bit token amount, as four little endian 64-bit limbs.
#[derive(Debug, Clone, Copy)]
pub struct Amount {
    pub limbs: [u64; 4],
}

/// Reads a decimal amount with `primitive_types::U256::from_dec_str`.
/// Claimed: it succeeds exactly when [`spec_u256_from_dec`] gives a number,
/// whose limbs it returns; which of its two errors comes is not stated.
#[verifier::external_body]
fn u256_from_dec_str(s: &str) -> (r: Option<Amount>)
    ensures
        match spec_u256_from_dec(s@) {
            Some(v) => r matches Some(a) && u256_value(a.limbs@) == v,
            None => r is None,
        },
{
    primitive_types::U256::from_dec_str(s).ok().map(|v| Amount { limbs: v.0 })
}

/// Why a request was refused before anything was done.
#[derive(Debug, Clone, Copy, PartialEq, Eq, Structural)]
pub enum RequestError {
    /// The amount is no decimal number below 2^256.
    InvalidAmount,
    /// The new public key is not hexadecimal text.
    InvalidPublicKeyHex,
    /// The new public key is no secp256k1 point.
    InvalidPublicKey,
    /// The public key algorithm is unknown.
    InvalidPublicKeyAlgo,
    /// The history limit does not fit a 32-bit signed integer.
    InvalidLimit,
    /// The history offset does not fit a 32-bit signed integer.
    InvalidOffset,
}

/// The amount of a mint or burn request.
pub fn parse_amount(s: &str) -> (r: Result<Amount, RequestError>)
    ensures
        match spec_u256_from_dec(s@) {
            Some(v) => r matches Ok(a) && u256_value(a.limbs@) == v,
            None => r == Err::<Amount, RequestError>(RequestError::InvalidAmount),
        },
{
    match u256_from_dec_str(s) {
        Some(a) => Ok(a),
        None => Err(RequestError::InvalidAmount),
    }
}

/// The names of the public key algorithms.
pub open spec fn spec_public_key_algo(s: Seq<char>) -> Option<PublicKeyAlgo> {
    if s == "secp256k1"@ {
        Some(PublicKeyAlgo::Secp256k1)
    } else if s == "eth-secp256k1"@ {
        Some(PublicKeyAlgo::EthSecp256k1)
    } else {
        None
    }
}

/// Reads the name of a public key algorithm: `secp256k1` or
/// `eth-secp256k1`.
pub fn parse_public_key_algo(s: &str) -> (r: Option<PublicKeyAlgo>)
    ensures
        r == spec_public_key_algo(s@),
{
    if str_eq(s, "secp256k1") {
        Some(PublicKeyAlgo::Secp256k1)
    } else if str_eq(s, "eth-secp256k1") {
        Some(PublicKeyAlgo::EthSecp256k1)
    } else {
        None
    }
}

/// The new public key of an update-signer request: hexadecimal SEC1 bytes of
/// a secp256k1 point and an optional algorithm name (`secp256k1` when none
/// is given), checked in that order.
pub open spec fn spec_update_signer_key(hex_text: Seq<char>, algo: Option<Seq<char>>) -> Result<
    (PublicKeyAlgo, Seq<u8>),
    RequestError,
> {
    match spec_new_public_key(hex_text, PublicKeyAlgo::Secp256k1) {
        Err(PublicKeyError::InvalidHex) => Err(RequestError::InvalidPublicKeyHex),
        Err(PublicKeyError::InvalidKey) => Err(RequestError::InvalidPublicKey),
        Ok((_, point)) => match algo {
            None => Ok((PublicKeyAlgo::Secp256k1, point)),
            Some(name) => match spec_public_key_algo(name) {
                None => Err(RequestError::InvalidPublicKeyAlgo),
                Some(a) => Ok((a, point)),
            },
        },
    }
}

/// Reads the new public key of an update-signer request.
pub fn update_signer_key(hex_text: &str, algo: &Option<String>) -> (r: Result<PublicKey, RequestError>)
    ensures
        match spec_update_signer_key(
            hex_text@,
            match *algo {
                Some(a) => Some(a@),
                None => None,
            },
        ) {
            Ok((a, point)) => r matches Ok(k) && k.algo == a && k.compressed@ == point,
            Err(e) => r == Err::<PublicKey, RequestError>(e),
        },
{
    let key = match new_public_key(hex_text, PublicKeyAlgo::Secp256k1) {
        Ok(k) => k,
        Err(PublicKeyError::InvalidHex) => return Err(RequestError::InvalidPublicKeyHex),
        Err(PublicKeyError::InvalidKey) => return Err(RequestError::InvalidPublicKey),
    };
    let chosen = match algo {
        None => PublicKeyAlgo::Secp256k1,
        Some(name) => match parse_public_key_algo(name.as_str()) {
            Some(a) => a,
            None => return Err(RequestError::InvalidPublicKeyAlgo),
        },
    };
    Ok(PublicKey { algo: chosen, compressed: key.compressed })
}

/// The window of history asked for: `limit` (ten by default) operations
/// after skipping `offset` (none by default), each as a 32-bit signed
/// integer.
pub fn history_window(limit: Option<u32>, offset: Option<u32>) -> (r: Result<(i32, i32), RequestError>)
    ensures
        ({
            let l: u32 = match limit {
                Some(v) => v,
                None => 10,
            };
            let o: u32 = match offset {
                Some(v) => v,
                None => 0,
            };
            &&& l > i32::MAX ==> r == Err::<(i32, i32), RequestError>(RequestError::InvalidLimit)
            &&& l <= i32::MAX && o > i32::MAX ==> r == Err::<(i32, i32), RequestError>(
                RequestError::InvalidOffset,
            )
            &&& l <= i32::MAX && o <= i32::MAX ==> r == Ok::<(i32, i32), RequestError>(
                (l as i32, o as i32),
            )
        }),
{
    let l: u32 = match limit {
        Some(v) => v,
        None => 10,
    };
    let o: u32 = match offset {
        Some(v) => v,
        None => 0,
    };
    if l > 2147483647u32 {
        return Err(RequestError::InvalidLimit);
    }
    if o > 2147483647u32 {
        return Err(RequestError::InvalidOffset);
    }
    Ok((l as i32, o as i32))
}

} // verus!
