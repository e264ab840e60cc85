use vstd::prelude::*;
use crate::numeric::{
    gcd, spec_parse_u64, decimal_text, u64_to_decimal, is_ascii_digit, lemma_decimal_text_parses,
    lemma_u64_text_round_trip, lemma_gcd_divides, lemma_gcd_of_quotients,
};
use crate::packets::first_index_of;

verus! {

/// A trust level: a reduced fraction with a non-zero denominator.
#[derive(Debug, Clone, Copy, PartialEq, Eq, Structural)]
pub struct TrustLevel {
    pub numerator: u64,
    pub denominator: u64,
}

/// The fraction `n/d` in lowest terms, as `Ratio::new` reduces it (zero is
/// `0/1`).
pub open spec fn reduced(n: u64, d: u64) -> TrustLevel {
    if n == 0 {
        TrustLevel { numerator: 0, denominator: 1 }
    } else {
        TrustLevel {
            numerator: (n as nat / gcd(n as nat, d as nat)) as u64,
            denominator: (d as nat / gcd(n as nat, d as nat)) as u64,
        }
    }
}

/// `Ratio::<u64>::from_str`: `numer/denom` or just `numer` (denominator one),
/// both read as `u64`; a zero denominator is refused; the result is reduced.
pub open spec fn spec_parse_ratio(s: Seq<char>) -> Option<TrustLevel> {
    let k = first_index_of(s, '/');
    let numer = if k < s.len() {
        s.take(k)
    } else {
        s
    };
    let denom = if k < s.len() {
        spec_parse_u64(s.skip(k + 1))
    } else {
        Some(1u64)
    };
    match (spec_parse_u64(numer), denom) {
        (Some(n), Some(d)) => if d == 0 {
            None
        } else {
            Some(reduced(n, d))
        },
        _ => None,
    }
}

/// Parses a trust level with `num_rational`'s `FromStr` for `Ratio<u64>`.
/// Claimed: the reduced fraction of [`spec_parse_ratio`].
#[verifier::external_body]
pub(crate) fn parse_trust_level(s: &str) -> (r: Option<TrustLevel>)
    ensures
        r == spec_parse_ratio(s@),
{
    match s.parse::<num_rational::Ratio<u64>>() {
        Ok(ratio) => Some(TrustLevel { numerator: *ratio.numer(), denominator: *ratio.denom() }),
        Err(_) => None,
    }
}

/// How a ratio displays: `numer` when the denominator is one, else
/// `numer/denom`.
pub open spec fn spec_ratio_text(t: TrustLevel) -> Seq<char> {
    if t.denominator == 1 {
        decimal_text(t.numerator as nat)
    } else {
        decimal_text(t.numerator as nat) + seq!['/'] + decimal_text(t.denominator as nat)
    }
}

/// Displays a trust level as `num_rational` displays a ratio.
pub fn trust_level_text(t: TrustLevel) -> (r: String)
    ensures
        r@ == spec_ratio_text(t),
{
    let mut r = u64_to_decimal(t.numerator);
    if t.denominator != 1 {
        proof {
            reveal_strlit("/");
        }
        r.append("/");
        let d = u64_to_decimal(t.denominator);
        r.append(d.as_str());
    }
    r
}

/// A trust level usable as a light client's trust threshold: between one
/// third and one, with a non-zero denominator.
pub open spec fn valid_trust_threshold(t: TrustLevel) -> bool {
    t.numerator <= t.denominator && t.denominator > 0 && 3 * t.numerator >= t.denominator
}

/// The trust threshold of a light client for a trust level, as
/// `TrustThresholdFraction::new` admits it: `None` unless the level lies
/// between one third and one.
pub fn trust_threshold(t: TrustLevel) -> (r: Option<TrustLevel>)
    ensures
        valid_trust_threshold(t) ==> r == Some(t),
        !valid_trust_threshold(t) ==> r is None,
{
    if t.numerator <= t.denominator && t.denominator > 0 && 3 * (t.numerator as u128) >= (
    t.denominator as u128) {
        Some(t)
    } else {
        None
    }
}

proof fn lemma_first_index_after_prefix(a: Seq<char>, rest: Seq<char>, c: char)
    requires
        forall|i: int| 0 <= i < a.len() ==> a[i] != c,
    ensures
        first_index_of(a + rest, c) == a.len() + first_index_of(rest, c),
    decreases a.len(),
{
    if a.len() > 0 {
        assert((a + rest).drop_first() =~= a.drop_first() + rest);
        assert((a + rest)[0] == a[0]);
        lemma_first_index_after_prefix(a.drop_first(), rest, c);
    } else {
        assert(a + rest =~= rest);
    }
}

proof fn lemma_digits_have_no_slash(n: nat)
    ensures
        forall|i: int| 0 <= i < decimal_text(n).len() ==> decimal_text(n)[i] != '/',
{
    lemma_decimal_text_parses(n);
    assert forall|i: int| 0 <= i < decimal_text(n).len() implies decimal_text(n)[i] != '/' by {
        assert(is_ascii_digit(decimal_text(n)[i]));
    }
}

/// The displayed text of a fraction with a non-zero denominator reads back
/// as that fraction, reduced.
proof fn lemma_ratio_text_parses(t: TrustLevel)
    requires
        t.denominator > 0,
    ensures
        spec_parse_ratio(spec_ratio_text(t)) == Some(reduced(t.numerator, t.denominator)),
{
    let a = decimal_text(t.numerator as nat);
    lemma_digits_have_no_slash(t.numerator as nat);
    lemma_u64_text_round_trip(t.numerator);
    if t.denominator == 1 {
        assert(a + Seq::<char>::empty() =~= a);
        lemma_first_index_after_prefix(a, Seq::<char>::empty(), '/');
    } else {
        let b = decimal_text(t.denominator as nat);
        let rest = seq!['/'] + b;
        lemma_first_index_after_prefix(a, rest, '/');
        assert(rest[0] == '/');
        let text = a + seq!['/'] + b;
        assert(text =~= a + rest);
        assert(text.take(a.len() as int) =~= a);
        assert(text.skip(a.len() as int + 1) =~= b);
        lemma_u64_text_round_trip(t.denominator);
    }
}

/// Reducing a fraction that is already reduced changes nothing.
proof fn lemma_reduced_is_fixed(n: u64, d: u64)
    requires
        d > 0,
    ensures
        reduced(n, d).denominator > 0,
        reduced(reduced(n, d).numerator, reduced(n, d).denominator) == reduced(n, d),
{
    if n > 0 {
        lemma_gcd_of_quotients(n as nat, d as nat);
        let g = gcd(n as nat, d as nat);
        let (p, q) = lemma_gcd_divides(n as nat, d as nat);
        assert(n as nat / g == p && d as nat / g == q && p <= n && q <= d && p > 0 && q > 0)
            by (nonlinear_arith)
            requires
                g > 0,
                n > 0,
                d > 0,
                n == g * p,
                d == g * q,
        ;
        let t = reduced(n, d);
        assert(t.numerator == p && t.denominator == q);
        assert(gcd(p, q) == 1);
        assert(p / 1 == p && q / 1 == q);
    } else {
        assert(gcd(0, 1) == gcd(1, 0));
    }
}

/// A trust level read from text, displayed, and read again is the same
/// trust level: what a query shows of a chain's trust level is accepted back
/// as that trust level.
pub proof fn lemma_trust_level_text_round_trip(s: Seq<char>)
    requires
        spec_parse_ratio(s) is Some,
    ensures
        spec_parse_ratio(spec_ratio_text(spec_parse_ratio(s).unwrap())) == spec_parse_ratio(s),
{
    let k = first_index_of(s, '/');
    let numer = if k < s.len() {
        s.take(k)
    } else {
        s
    };
    let denom = if k < s.len() {
        spec_parse_u64(s.skip(k + 1))
    } else {
        Some(1u64)
    };
    let n = spec_parse_u64(numer).unwrap();
    let d = denom.unwrap();
    lemma_reduced_is_fixed(n, d);
    lemma_ratio_text_parses(reduced(n, d));
}

} // verus!
