use vstd::prelude::*;

verus! {

/// A `rust_decimal::Decimal` held as the 16 bytes of its `serialize` form:
/// four bytes of flags (scale in the third, sign in the top bit of the
/// fourth), then the 96-bit magnitude, little endian.
#[derive(Debug, Clone, Copy)]
pub struct DecimalBytes {
    pub bytes: [u8; 16],
}

/// The sign bit of a serialised decimal.
pub open spec fn spec_negative(b: Seq<u8>) -> bool {
    b[3] >= 128
}

/// The scale (number of fractional digits) of a serialised decimal.
pub open spec fn spec_scale(b: Seq<u8>) -> nat {
    (b[2] % 32) as nat
}

/// The little endian number held by `b[from..from + n]`.
pub open spec fn le_value(b: Seq<u8>, from: int, n: nat) -> nat
    decreases n,
{
    if n == 0 {
        0
    } else {
        b[from] as nat + 256 * le_value(b, from + 1, (n - 1) as nat)
    }
}

/// The magnitude (unscaled) of a serialised decimal.
pub open spec fn spec_magnitude(b: Seq<u8>) -> nat {
    le_value(b, 4, 12)
}

/// The signed unscaled value of a serialised decimal.
pub open spec fn spec_unscaled(b: Seq<u8>) -> int {
    if spec_negative(b) {
        -(spec_magnitude(b) as int)
    } else {
        spec_magnitude(b) as int
    }
}

pub open spec fn pow10(n: nat) -> nat
    decreases n,
{
    if n == 0 {
        1
    } else {
        10 * pow10((n - 1) as nat)
    }
}

/// `a` is less than `b` as numbers: `ua / 10^sa < ub / 10^sb`.
pub open spec fn spec_decimal_lt(a: Seq<u8>, b: Seq<u8>) -> bool {
    spec_unscaled(a) * pow10(spec_scale(b)) < spec_unscaled(b) * pow10(spec_scale(a))
}

/// The decimal's scale is within the 28 digits that `Decimal` keeps.
pub open spec fn scale_in_range(b: Seq<u8>) -> bool {
    spec_scale(b) <= 28
}

/// The scale at which two decimals are added or subtracted: the larger of
/// their scales.
pub open spec fn common_scale(a: Seq<u8>, b: Seq<u8>) -> nat {
    if spec_scale(a) >= spec_scale(b) {
        spec_scale(a)
    } else {
        spec_scale(b)
    }
}

/// The signed unscaled value of `a` brought to the scale `s` (at least its
/// own).
pub open spec fn aligned_unscaled(a: Seq<u8>, s: nat) -> int {
    spec_unscaled(a) * pow10((s - spec_scale(a)) as nat)
}

/// The exact sum of two decimals, unscaled at their common scale.
pub open spec fn exact_sum(a: Seq<u8>, b: Seq<u8>) -> int {
    aligned_unscaled(a, common_scale(a, b)) + aligned_unscaled(b, common_scale(a, b))
}

/// The exact difference of two decimals, unscaled at their common scale.
pub open spec fn exact_difference(a: Seq<u8>, b: Seq<u8>) -> int {
    aligned_unscaled(a, common_scale(a, b)) - aligned_unscaled(b, common_scale(a, b))
}

/// `v` has a magnitude below 2^96, the size of a decimal's magnitude.
pub open spec fn fits_u96(v: int) -> bool {
    -0x1_0000_0000_0000_0000_0000_0000 < v < 0x1_0000_0000_0000_0000_0000_0000
}

/// The number `v / 10^s` can be held exactly by a decimal at a scale no
/// larger than `s`: dropping some `k <= s` trailing digits, all zero, leaves
/// a magnitude below 2^96.
pub open spec fn exactly_representable(v: int, s: nat) -> bool {
    exists|k: nat| #![trigger pow10(k)] k <= s && v % pow10(k) as int == 0 && fits_u96(v / pow10(k) as int)
}

/// The serialised decimal `r` holds the number `v / 10^s`.
pub open spec fn holds_value(r: Seq<u8>, v: int, s: nat) -> bool {
    spec_unscaled(r) * pow10(s) == v * pow10(spec_scale(r))
}

/// `r` holds exactly `v / 10^s`, at a scale no larger than `s`.
pub open spec fn exact_result(r: Seq<u8>, v: int, s: nat) -> bool {
    spec_scale(r) <= s && holds_value(r, v, s)
}

/// The serialised decimal that `Decimal::from_str` reads from `s`; `None`
/// when `s` is not a decimal number.
pub uninterp spec fn decimal_from_str(s: Seq<char>) -> Option<Seq<u8>>;

/// The text that `Decimal`'s `Display` writes for a serialised decimal.
pub uninterp spec fn decimal_display(b: Seq<u8>) -> Seq<char>;

/// The serialised sum that `Decimal::checked_add` computes; `None` on
/// overflow.
pub uninterp spec fn decimal_sum(a: Seq<u8>, b: Seq<u8>) -> Option<Seq<u8>>;

/// The serialised difference that `Decimal::checked_sub` computes; `None` on
/// overflow.
pub uninterp spec fn decimal_difference(a: Seq<u8>, b: Seq<u8>) -> Option<Seq<u8>>;

pub open spec fn opt_bytes_view(o: Option<DecimalBytes>) -> Option<Seq<u8>> {
    match o {
        Some(d) => Some(d.bytes@),
        None => None,
    }
}

impl DecimalBytes {
    /// The decimal zero (`Decimal::default()`): all bytes zero.
    pub open spec fn spec_zero() -> Seq<u8> {
        Seq::new(16, |i: int| 0u8)
    }

    /// Zero, as `Decimal::default()` serialises.
    pub fn zero() -> (r: DecimalBytes)
        ensures
            r.bytes@ == Self::spec_zero(),
    {
        let r = DecimalBytes { bytes: [0u8; 16] };
        assert(r.bytes@ =~= Self::spec_zero());
        r
    }

    /// The integer `n` (below 2^32) with scale zero, as `Decimal::from`
    /// serialises it.
    pub open spec fn spec_from_u32(n: u32) -> Seq<u8> {
        seq![
            0u8, 0u8, 0u8, 0u8,
            (n % 256) as u8, ((n / 256) % 256) as u8, ((n / 65536) % 256) as u8, (n / 16777216) as u8,
            0u8, 0u8, 0u8, 0u8, 0u8, 0u8, 0u8, 0u8,
        ]
    }
}

/// Parses a decimal number with `Decimal::from_str`. Claimed: the
/// serialised result is [`decimal_from_str`] of the text.
#[verifier::external_body]
pub(crate) fn parse_decimal(s: &str) -> (r: Option<DecimalBytes>)
    ensures
        opt_bytes_view(r) == decimal_from_str(s@),
{
    match <rust_decimal::Decimal as std::str::FromStr>::from_str(s) {
        Ok(d) => Some(DecimalBytes { bytes: d.serialize() }),
        Err(_) => None,
    }
}

/// Displays a decimal with `Decimal`'s `Display`. Claimed: the text is
/// [`decimal_display`] of the serialised decimal.
#[verifier::external_body]
pub(crate) fn decimal_to_text(d: DecimalBytes) -> (r: String)
    ensures
        r@ == decimal_display(d.bytes@),
{
    rust_decimal::Decimal::deserialize(d.bytes).to_string()
}

/// Whether the sign bit (top bit of the fourth byte) is clear, as
/// `Decimal::is_sign_positive` answers after `Decimal::deserialize`.
pub(crate) fn decimal_is_sign_positive(d: DecimalBytes) -> (r: bool)
    ensures
        r == !spec_negative(d.bytes@),
{
    d.bytes[3] < 128
}

/// What `Decimal`'s `<` answers for two serialised decimals.
pub uninterp spec fn decimal_less(a: Seq<u8>, b: Seq<u8>) -> bool;

/// `Decimal`'s `<`. Claimed: the answer is [`decimal_less`] of the two, and,
/// when both scales are at most 28, it compares the numbers' values exactly.
#[verifier::external_body]
pub(crate) fn decimal_lt(a: DecimalBytes, b: DecimalBytes) -> (r: bool)
    ensures
        r == decimal_less(a.bytes@, b.bytes@),
        scale_in_range(a.bytes@) && scale_in_range(b.bytes@) ==> r == spec_decimal_lt(
            a.bytes@,
            b.bytes@,
        ),
{
    rust_decimal::Decimal::deserialize(a.bytes) < rust_decimal::Decimal::deserialize(b.bytes)
}

/// `Decimal::checked_add`. Claimed: the serialised sum is [`decimal_sum`] of
/// the two; and when both scales are at most 28 and the exact sum can be
/// held by a decimal at a scale no larger than their common one, there is a
/// sum, and it is that exact number, at a scale no larger than the common
/// one. Every path of `ops::add` aligns both operands to the larger scale,
/// computes exactly, and only when the result needs more than 96 bits drops
/// trailing digits one scale at a time until it fits, rounding by what was
/// dropped: dropped digits that are all zero change nothing.
#[verifier::external_body]
pub(crate) fn decimal_checked_add(a: DecimalBytes, b: DecimalBytes) -> (r: Option<DecimalBytes>)
    ensures
        opt_bytes_view(r) == decimal_sum(a.bytes@, b.bytes@),
        scale_in_range(a.bytes@) && scale_in_range(b.bytes@) && exactly_representable(exact_sum(a.bytes@, b.bytes@), common_scale(a.bytes@, b.bytes@))
            ==> r is Some && exact_result(r->0.bytes@, exact_sum(a.bytes@, b.bytes@), common_scale(a.bytes@, b.bytes@)),
{
    match rust_decimal::Decimal::deserialize(a.bytes).checked_add(
        rust_decimal::Decimal::deserialize(b.bytes),
    ) {
        Some(d) => Some(DecimalBytes { bytes: d.serialize() }),
        None => None,
    }
}

/// `Decimal::checked_sub`. Claimed: the serialised difference is
/// [`decimal_difference`] of the two; when both scales are at most 28 and
/// the exact difference can be held by a decimal at a scale no larger than
/// their common one, there is a difference, and it is that exact number, at
/// a scale no larger than the common one (as for [`decimal_checked_add`]);
/// and when both scales are at most 28 and the first is not below the
/// second, which is not below zero, there is a difference: it lies between
/// zero and the first, so dropping digits always brings it into 96 bits.
#[verifier::external_body]
pub(crate) fn decimal_checked_sub(a: DecimalBytes, b: DecimalBytes) -> (r: Option<DecimalBytes>)
    ensures
        opt_bytes_view(r) == decimal_difference(a.bytes@, b.bytes@),
        scale_in_range(a.bytes@) && scale_in_range(b.bytes@) && exactly_representable(exact_difference(a.bytes@, b.bytes@), common_scale(a.bytes@, b.bytes@))
            ==> r is Some && exact_result(r->0.bytes@, exact_difference(a.bytes@, b.bytes@), common_scale(a.bytes@, b.bytes@)),
        scale_in_range(a.bytes@) && scale_in_range(b.bytes@) && spec_unscaled(b.bytes@) >= 0 && !spec_decimal_lt(a.bytes@, b.bytes@)
            ==> r is Some,
{
    match rust_decimal::Decimal::deserialize(a.bytes).checked_sub(
        rust_decimal::Decimal::deserialize(b.bytes),
    ) {
        Some(d) => Some(DecimalBytes { bytes: d.serialize() }),
        None => None,
    }
}

/// Powers of ten multiply: `10^(x + y) == 10^x * 10^y`.
pub(crate) proof fn lemma_pow10_add(x: nat, y: nat)
    ensures
        pow10(x + y) == pow10(x) * pow10(y),
    decreases x,
{
    if x > 0 {
        let w = (x - 1) as nat;
        lemma_pow10_add(w, y);
        assert(pow10(x + y) == 10 * pow10(w + y));
        assert(pow10(x) == 10 * pow10(w));
        assert(10 * (pow10(w) * pow10(y)) == (10 * pow10(w)) * pow10(y)) by (nonlinear_arith);
    } else {
        assert(pow10(x) == 1);
        assert(x + y == y);
    }
}

/// Powers of ten are positive.
pub(crate) proof fn lemma_pow10_pos(n: nat)
    ensures
        pow10(n) >= 1,
    decreases n,
{
    if n > 0 {
        lemma_pow10_pos((n - 1) as nat);
    }
}

spec fn pow256(n: nat) -> nat
    decreases n,
{
    if n == 0 {
        1
    } else {
        256 * pow256((n - 1) as nat)
    }
}

proof fn lemma_le_value_bound(b: Seq<u8>, from: int, n: nat)
    ensures
        le_value(b, from, n) < pow256(n),
    decreases n,
{
    if n > 0 {
        lemma_le_value_bound(b, from + 1, (n - 1) as nat);
        let low = b[from] as nat;
        let rest = le_value(b, from + 1, (n - 1) as nat);
        let p = pow256((n - 1) as nat);
        assert(low + 256 * rest < 256 * p) by (nonlinear_arith)
            requires
                low < 256,
                rest < p,
        ;
    }
}

/// A decimal's magnitude is below 2^96.
pub(crate) proof fn lemma_magnitude_bound(b: Seq<u8>)
    ensures
        spec_magnitude(b) < 0x1_0000_0000_0000_0000_0000_0000,
{
    lemma_le_value_bound(b, 4, 12);
    assert(pow256(12) == 0x1_0000_0000_0000_0000_0000_0000) by {
        reveal_with_fuel(pow256, 13);
    }
}

} // verus!
