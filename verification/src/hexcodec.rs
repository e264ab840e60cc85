use vstd::prelude::*;
use vstd::utf8::{encode_utf8, is_ascii_chars, is_ascii_chars_encode_utf8};

verus! {

/// The value of a hexadecimal digit byte (either case).
pub open spec fn hex_digit_value(b: u8) -> Option<u8> {
    if 48 <= b && b <= 57 {
        Some((b - 48) as u8)
    } else if 97 <= b && b <= 102 {
        Some((b - 87) as u8)
    } else if 65 <= b && b <= 70 {
        Some((b - 55) as u8)
    } else {
        None
    }
}

/// Decoding of hexadecimal text: an even number of hex digits, each pair
/// giving one byte, high nibble first.
pub open spec fn spec_hex_decode(data: Seq<u8>) -> Option<Seq<u8>> {
    if data.len() % 2 == 0 && (forall|i: int|
        0 <= i < data.len() ==> #[trigger] hex_digit_value(data[i]) is Some) {
        Some(
            Seq::new(
                data.len() / 2,
                |i: int|
                    (hex_digit_value(data[2 * i]).unwrap() * 16 + hex_digit_value(
                        data[2 * i + 1],
                    ).unwrap()) as u8,
            ),
        )
    } else {
        None
    }
}

pub open spec fn lower_hex_char(n: nat) -> char {
    if n < 10 {
        ((48 + n) as u32) as char
    } else {
        ((87 + n) as u32) as char
    }
}

/// Lower case hexadecimal text of bytes, high nibble first.
pub open spec fn spec_hex_encode(data: Seq<u8>) -> Seq<char>
    decreases data.len(),
{
    if data.len() == 0 {
        Seq::empty()
    } else {
        spec_hex_encode(data.drop_last()) + seq![
            lower_hex_char((data.last() / 16) as nat),
            lower_hex_char((data.last() % 16) as nat),
        ]
    }
}

/// `hex::decode`. Claimed: it accepts an even number of hex digits of either
/// case and returns the bytes they spell, and fails on odd length or any
/// other byte ([`spec_hex_decode`]).
#[verifier::external_body]
pub(crate) fn hex_decode(data: &[u8]) -> (r: Option<Vec<u8>>)
    ensures
        spec_hex_decode(data@) == (match r {
            Some(v) => Some(v@),
            None => None,
        }),
{
    hex::decode(data).ok()
}

/// `hex::encode`. Claimed: the result is the lower case hexadecimal text of
/// the bytes ([`spec_hex_encode`]).
#[verifier::external_body]
pub(crate) fn hex_encode(data: &[u8]) -> (r: String)
    ensures
        r@ == spec_hex_encode(data@),
{
    hex::encode(data)
}

proof fn lemma_hex_encode_shape(data: Seq<u8>)
    ensures
        spec_hex_encode(data).len() == 2 * data.len(),
        forall|i: int|
            0 <= i < data.len() ==> {
                &&& #[trigger] spec_hex_encode(data)[2 * i] == lower_hex_char((data[i] / 16) as nat)
                &&& spec_hex_encode(data)[2 * i + 1] == lower_hex_char((data[i] % 16) as nat)
            },
    decreases data.len(),
{
    if data.len() > 0 {
        let front = data.drop_last();
        lemma_hex_encode_shape(front);
        assert forall|i: int| 0 <= i < data.len() implies {
            &&& #[trigger] spec_hex_encode(data)[2 * i] == lower_hex_char((data[i] / 16) as nat)
            &&& spec_hex_encode(data)[2 * i + 1] == lower_hex_char((data[i] % 16) as nat)
        } by {
            if i < front.len() {
                assert(data[i] == front[i]);
                assert(spec_hex_encode(front)[2 * i] == lower_hex_char((front[i] / 16) as nat));
            }
        }
    }
}

proof fn lemma_lower_hex_char(n: nat)
    requires
        n < 16,
    ensures
        lower_hex_char(n) as u32 <= 0x7f,
        hex_digit_value(lower_hex_char(n) as u8) == Some(n as u8),
{
}

/// Hex text has two characters per byte.
pub proof fn lemma_hex_encode_len(data: Seq<u8>)
    ensures
        spec_hex_encode(data).len() == 2 * data.len(),
{
    lemma_hex_encode_shape(data);
}

/// Hex text written by `hex::encode` reads back with `hex::decode` as the
/// same bytes.
pub proof fn lemma_hex_round_trip(data: Seq<u8>)
    ensures
        spec_hex_decode(encode_utf8(spec_hex_encode(data))) == Some(data),
{
    let text = spec_hex_encode(data);
    lemma_hex_encode_shape(data);
    assert forall|k: int| 0 <= k < text.len() implies '\0' <= #[trigger] text[k] <= '\u{7f}' by {
        let i = k / 2;
        assert(0 <= i < data.len());
        assert(spec_hex_encode(data)[2 * i] == lower_hex_char((data[i] / 16) as nat));
        lemma_lower_hex_char((data[i] / 16) as nat);
        lemma_lower_hex_char((data[i] % 16) as nat);
        if k % 2 == 0 {
            assert(k == 2 * i);
        } else {
            assert(k == 2 * i + 1);
        }
    }
    assert(is_ascii_chars(text));
    is_ascii_chars_encode_utf8(text);
    let bytes = encode_utf8(text);
    assert(bytes.len() == 2 * data.len());
    assert forall|k: int| 0 <= k < bytes.len() implies #[trigger] hex_digit_value(bytes[k]) is Some by {
        let i = k / 2;
        assert(bytes[k] == text[k] as u8);
        assert(spec_hex_encode(data)[2 * i] == lower_hex_char((data[i] / 16) as nat));
        lemma_lower_hex_char((data[i] / 16) as nat);
        lemma_lower_hex_char((data[i] % 16) as nat);
        if k % 2 == 0 {
            assert(k == 2 * i);
        } else {
            assert(k == 2 * i + 1);
        }
    }
    let decoded = spec_hex_decode(bytes).unwrap();
    assert forall|i: int| 0 <= i < data.len() implies decoded[i] == data[i] by {
        assert(spec_hex_encode(data)[2 * i] == lower_hex_char((data[i] / 16) as nat));
        assert(bytes[2 * i] == text[2 * i] as u8);
        assert(bytes[2 * i + 1] == text[2 * i + 1] as u8);
        lemma_lower_hex_char((data[i] / 16) as nat);
        lemma_lower_hex_char((data[i] % 16) as nat);
    }
    assert(decoded =~= data);
}

} // verus!
