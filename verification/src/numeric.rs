use vstd::prelude::*;

verus! {

pub open spec fn is_ascii_digit(c: char) -> bool {
    '0' <= c && c <= '9'
}

pub open spec fn digit_value(c: char) -> int {
    (c as int) - ('0' as int)
}

/// Every character of `d` is an ASCII decimal digit.
pub open spec fn all_digits(d: Seq<char>) -> bool {
    forall|i: int| 0 <= i < d.len() ==> is_ascii_digit(#[trigger] d[i])
}

/// The number that the decimal digits `d` spell.
pub open spec fn digits_value(d: Seq<char>) -> int
    decreases d.len(),
{
    if d.len() == 0 {
        0
    } else {
        digits_value(d.drop_last()) * 10 + digit_value(d.last())
    }
}

/// The digits of an unsigned decimal literal: the text after an optional
/// leading `+`.
pub open spec fn unsigned_digits(s: Seq<char>) -> Seq<char> {
    if s.len() > 0 && s[0] == '+' {
        s.drop_first()
    } else {
        s
    }
}

/// The value of `s` read as `str::parse::<u64>` reads it: an optional `+`
/// followed by at least one ASCII digit and nothing else, with a value that
/// fits in 64 bits.
pub open spec fn spec_parse_u64(s: Seq<char>) -> Option<u64> {
    let d = unsigned_digits(s);
    if d.len() > 0 && all_digits(d) && digits_value(d) <= u64::MAX {
        Some(digits_value(d) as u64)
    } else {
        None
    }
}

pub proof fn lemma_digits_value_nonneg(d: Seq<char>)
    requires
        all_digits(d),
    ensures
        digits_value(d) >= 0,
    decreases d.len(),
{
    if d.len() > 0 {
        assert(is_ascii_digit(d[d.len() - 1]));
        lemma_digits_value_nonneg(d.drop_last());
    }
}

/// A longer run of digits never spells a smaller number.
pub proof fn lemma_digits_value_prefix(d: Seq<char>, i: int, j: int)
    requires
        all_digits(d),
        0 <= i <= j <= d.len(),
    ensures
        digits_value(d.take(i)) <= digits_value(d.take(j)),
    decreases j - i,
{
    if i < j {
        lemma_digits_value_prefix(d, i, j - 1);
        assert(d.take(j).drop_last() =~= d.take(j - 1));
        assert(is_ascii_digit(d[j - 1]));
        assert(all_digits(d.take(j - 1)));
        lemma_digits_value_nonneg(d.take(j - 1));
    }
}

/// Reads a `u64` from its decimal text, as `str::parse::<u64>` does.
pub fn parse_u64(s: &str) -> (r: Option<u64>)
    ensures
        r == spec_parse_u64(s@),
{
    let n = s.unicode_len();
    let mut start: usize = 0;
    if n > 0 && s.get_char(0) == '+' {
        start = 1;
    }
    let ghost d = unsigned_digits(s@);
    assert(d =~= s@.subrange(start as int, n as int));
    if start == n {
        return None;
    }
    let mut value: u64 = 0;
    let mut i: usize = start;
    while i < n
        invariant
            n == s@.len(),
            start <= i <= n,
            d == s@.subrange(start as int, n as int),
            d == unsigned_digits(s@),
            all_digits(d.take(i - start)),
            value == digits_value(d.take(i - start)),
        decreases n - i,
    {
        let c = s.get_char(i);
        let ghost k: int = i - start;
        assert(d[k] == c);
        assert(d.take(k + 1).drop_last() =~= d.take(k));
        if !('0' <= c && c <= '9') {
            assert(!all_digits(d)) by {
                assert(!is_ascii_digit(d[k]));
            }
            return None;
        }
        let dv = (c as u32 - '0' as u32) as u64;
        assert(all_digits(d.take(k + 1)));
        assert(d.take(k + 1).last() == c);
        assert(digits_value(d.take(k + 1)) == value * 10 + dv);
        match value.checked_mul(10) {
            None => {
                proof {
                    lemma_none_when_overflow(d, k + 1);
                }
                return None;
            },
            Some(v10) => match v10.checked_add(dv) {
                None => {
                    proof {
                        lemma_none_when_overflow(d, k + 1);
                    }
                    return None;
                },
                Some(v) => {
                    value = v;
                },
            },
        }
        i = i + 1;
    }
    assert(d.take(n - start) =~= d);
    Some(value)
}

proof fn lemma_none_when_overflow(d: Seq<char>, k: int)
    requires
        0 <= k <= d.len(),
        all_digits(d.take(k)),
        digits_value(d.take(k)) > u64::MAX,
    ensures
        !(all_digits(d) && digits_value(d) <= u64::MAX),
{
    if all_digits(d) {
        lemma_digits_value_prefix(d, k, d.len() as int);
        assert(d.take(d.len() as int) =~= d);
    }
}

/// Greatest common divisor (Euclid).
pub open spec fn gcd(a: nat, b: nat) -> nat
    decreases b,
{
    if b == 0 {
        a
    } else {
        gcd(b, a % b)
    }
}

/// The character of decimal digit `d`.
pub open spec fn digit_char(d: nat) -> char {
    ((('0' as u32) as nat) + d) as char
}

/// The decimal text of `n`, without leading zeros (`0` is written `0`).
pub open spec fn decimal_text(n: nat) -> Seq<char>
    decreases n,
{
    if n < 10 {
        seq![digit_char(n)]
    } else {
        decimal_text(n / 10).push(digit_char(n % 10))
    }
}

fn digit_str(d: u64) -> (s: &'static str)
    requires
        d < 10,
    ensures
        s@ == seq![digit_char(d as nat)],
{
    proof {
        reveal_strlit("0");
        reveal_strlit("1");
        reveal_strlit("2");
        reveal_strlit("3");
        reveal_strlit("4");
        reveal_strlit("5");
        reveal_strlit("6");
        reveal_strlit("7");
        reveal_strlit("8");
        reveal_strlit("9");
    }
    let s = if d == 0 {
        "0"
    } else if d == 1 {
        "1"
    } else if d == 2 {
        "2"
    } else if d == 3 {
        "3"
    } else if d == 4 {
        "4"
    } else if d == 5 {
        "5"
    } else if d == 6 {
        "6"
    } else if d == 7 {
        "7"
    } else if d == 8 {
        "8"
    } else {
        "9"
    };
    assert(s@ =~= seq![digit_char(d as nat)]);
    s
}

/// The decimal text of a `u64`, as its `Display` writes it.
pub fn u64_to_decimal(n: u64) -> (r: String)
    ensures
        r@ == decimal_text(n as nat),
    decreases n,
{
    if n < 10 {
        String::from_str(digit_str(n))
    } else {
        let mut r = u64_to_decimal(n / 10);
        r.append(digit_str(n % 10));
        r
    }
}

proof fn lemma_digit_char(d: nat)
    requires
        d < 10,
    ensures
        is_ascii_digit(digit_char(d)),
        digit_value(digit_char(d)) == d,
{
    assert((('0' as u32) as nat) + d < 0xD800);
}

/// The decimal text of a number reads back as that number.
pub proof fn lemma_decimal_text_parses(n: nat)
    ensures
        all_digits(decimal_text(n)),
        decimal_text(n).len() > 0,
        digits_value(decimal_text(n)) == n,
    decreases n,
{
    lemma_digit_char(n % 10);
    if n < 10 {
        let t = decimal_text(n);
        assert(t.drop_last() =~= Seq::<char>::empty());
        assert(t.last() == digit_char(n));
        assert(digits_value(t) == digits_value(t.drop_last()) * 10 + digit_value(t.last()));
    } else {
        lemma_decimal_text_parses(n / 10);
        let t = decimal_text(n);
        assert(t.drop_last() =~= decimal_text(n / 10));
        assert(t.last() == digit_char(n % 10));
        assert(digits_value(t) == digits_value(t.drop_last()) * 10 + digit_value(t.last()));
        assert forall|i: int| 0 <= i < t.len() implies is_ascii_digit(#[trigger] t[i]) by {
            if i < t.len() - 1 {
                assert(t[i] == decimal_text(n / 10)[i]);
            }
        }
    }
}

/// Reading back the decimal text of a `u64` gives the number.
pub proof fn lemma_u64_text_round_trip(n: u64)
    ensures
        spec_parse_u64(decimal_text(n as nat)) == Some(n),
{
    lemma_decimal_text_parses(n as nat);
    let t = decimal_text(n as nat);
    assert(is_ascii_digit(t[0]));
    assert(unsigned_digits(t) == t);
}

/// `gcd(a, b)` divides both `a` and `b`; the quotients are returned.
pub proof fn lemma_gcd_divides(a: nat, b: nat) -> (q: (nat, nat))
    requires
        a > 0 || b > 0,
    ensures
        gcd(a, b) > 0,
        a == gcd(a, b) * q.0,
        b == gcd(a, b) * q.1,
    decreases b,
{
    if b == 0 {
        assert(a == a * 1nat) by (nonlinear_arith);
        (1nat, 0nat)
    } else {
        let r = a % b;
        let (p, t) = lemma_gcd_divides(b, r);
        let g = gcd(b, r);
        assert(gcd(a, b) == g);
        vstd::arithmetic::div_mod::lemma_fundamental_div_mod(a as int, b as int);
        let m = a / b;
        let k = p * m + t;
        assert(a == g * k) by (nonlinear_arith)
            requires
                a == b * m + r,
                b == g * p,
                r == g * t,
                k == p * m + t,
        ;
        (k, p)
    }
}

/// Every common divisor `c` of `a` and `b` divides `gcd(a, b)`; the quotient
/// is returned.
pub proof fn lemma_gcd_greatest(a: nat, b: nat, c: nat, x: nat, y: nat) -> (z: nat)
    requires
        c > 0,
        a == c * x,
        b == c * y,
    ensures
        gcd(a, b) == c * z,
    decreases b,
{
    if b == 0 {
        x
    } else {
        let r = a % b;
        vstd::arithmetic::div_mod::lemma_fundamental_div_mod(a as int, b as int);
        let m = a / b;
        let w: int = x - y * m;
        assert(r == c * w) by (nonlinear_arith)
            requires
                a == b * m + r,
                a == c * x,
                b == c * y,
                w == x - y * m,
        ;
        assert(w >= 0) by (nonlinear_arith)
            requires
                r == c * w,
                r >= 0,
                c > 0,
        ;
        lemma_gcd_greatest(b, r, c, y, w as nat)
    }
}

/// Dividing two numbers by their greatest common divisor leaves numbers
/// whose greatest common divisor is one.
pub proof fn lemma_gcd_of_quotients(a: nat, b: nat)
    requires
        b > 0,
    ensures
        gcd(a, b) > 0,
        gcd(a / gcd(a, b), b / gcd(a, b)) == 1,
{
    let g = gcd(a, b);
    let (p, q) = lemma_gcd_divides(a, b);
    assert(a / g == p && b / g == q) by (nonlinear_arith)
        requires
            g > 0,
            a == g * p,
            b == g * q,
    ;
    assert(q > 0) by (nonlinear_arith)
        requires
            b == g * q,
            b > 0,
    ;
    let h = gcd(p, q);
    let (p1, q1) = lemma_gcd_divides(p, q);
    let gh = g * h;
    assert(gh > 0 && a == gh * p1 && b == gh * q1) by (nonlinear_arith)
        requires
            g > 0,
            h > 0,
            gh == g * h,
            a == g * p,
            b == g * q,
            p == h * p1,
            q == h * q1,
    ;
    let z = lemma_gcd_greatest(a, b, gh, p1, q1);
    assert(h == 1) by (nonlinear_arith)
        requires
            g == gh * z,
            gh == g * h,
            g > 0,
            h > 0,
    ;
}

} // verus!
