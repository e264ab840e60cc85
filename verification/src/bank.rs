use vstd::prelude::*;
use vstd::slice::slice_to_vec;
use crate::decimal::{
    DecimalBytes, decimal_sum, decimal_difference, decimal_less, spec_negative, decimal_checked_add,
    decimal_checked_sub, decimal_lt, decimal_from_str, parse_decimal, decimal_is_sign_positive, scale_in_range, spec_decimal_lt,
    common_scale, exact_sum, exact_difference, exact_result, fits_u96, holds_value, spec_scale,
    exactly_representable,
    spec_unscaled, spec_magnitude, pow10, lemma_pow10_add, lemma_pow10_pos, lemma_magnitude_bound,
};
use crate::signing::opt_vec_view;
use crate::text::owned;

verus! {

/// Why a change of balance was refused.
#[derive(Debug, Clone, Copy, PartialEq, Eq, Structural)]
pub enum BankError {
    /// The amount is not a decimal number.
    InvalidAmount,
    /// The amount is negative.
    NegativeAmount,
    /// The stored balance is not a 16 byte decimal.
    InvalidStoredBalance,
    /// The balance is below the amount to burn.
    InsufficientBalance,
    /// The new balance does not fit in a decimal.
    Overflow,
}

/// Where the balance of `denom` held by `address` is stored.
pub open spec fn spec_balance_path(address: Seq<char>, denom: Seq<char>) -> Seq<char> {
    "balances/"@ + address + "/"@ + denom
}

/// The storage path `balances/{address}/{denom}`.
pub fn balance_path(address: &str, denom: &str) -> (r: String)
    ensures
        r@ == spec_balance_path(address@, denom@),
{
    let mut s = owned("balances/");
    s.append(address);
    s.append("/");
    s.append(denom);
    s
}

/// A stored balance: a 16 byte serialised decimal; no entry is zero.
pub open spec fn spec_stored_balance(stored: Option<Seq<u8>>) -> Result<Seq<u8>, BankError> {
    match stored {
        None => Ok(DecimalBytes::spec_zero()),
        Some(bytes) => if bytes.len() == 16 {
            Ok(bytes)
        } else {
            Err(BankError::InvalidStoredBalance)
        },
    }
}

/// Reads a serialised decimal: exactly 16 bytes.
pub fn deserialize_decimal(bytes: &[u8]) -> (r: Result<DecimalBytes, BankError>)
    ensures
        bytes@.len() == 16 ==> (r matches Ok(d) && d.bytes@ == bytes@),
        bytes@.len() != 16 ==> r == Err::<DecimalBytes, BankError>(BankError::InvalidStoredBalance),
{
    if bytes.len() != 16 {
        return Err(BankError::InvalidStoredBalance);
    }
    let mut fixed = [0u8; 16];
    let mut i: usize = 0;
    while i < 16
        invariant
            bytes@.len() == 16,
            i <= 16,
            forall|j: int| 0 <= j < i ==> fixed@[j] == bytes@[j],
        decreases 16 - i,
    {
        fixed[i] = bytes[i];
        i = i + 1;
    }
    assert(fixed@ =~= bytes@);
    Ok(DecimalBytes { bytes: fixed })
}

/// Reads a stored balance; no entry means a zero balance.
pub fn deserialize_balance(stored: &Option<Vec<u8>>) -> (r: Result<DecimalBytes, BankError>)
    ensures
        match spec_stored_balance(opt_vec_view(*stored)) {
            Ok(b) => r matches Ok(d) && d.bytes@ == b,
            Err(e) => r == Err::<DecimalBytes, BankError>(e),
        },
{
    match stored {
        None => Ok(DecimalBytes::zero()),
        Some(bytes) => deserialize_decimal(bytes.as_slice()),
    }
}

/// Both decimals keep at most 28 fractional digits and their exact sum can
/// be held by a decimal at a scale no larger than their common one.
pub open spec fn mint_exact(current: Seq<u8>, amount: Seq<u8>) -> bool {
    scale_in_range(current) && scale_in_range(amount) && exactly_representable(
        exact_sum(current, amount),
        common_scale(current, amount),
    )
}

/// Both decimals keep at most 28 fractional digits and their exact
/// difference can be held by a decimal at a scale no larger than their
/// common one.
pub open spec fn burn_exact(current: Seq<u8>, amount: Seq<u8>) -> bool {
    scale_in_range(current) && scale_in_range(amount) && exactly_representable(
        exact_difference(current, amount),
        common_scale(current, amount),
    )
}

/// The balance is below the amount to burn: compared as numbers when both
/// scales are at most 28, otherwise as `Decimal`'s `<` answers.
pub open spec fn balance_below(current: Seq<u8>, amount: Seq<u8>) -> bool {
    if scale_in_range(current) && scale_in_range(amount) {
        spec_decimal_lt(current, amount)
    } else {
        decimal_less(current, amount)
    }
}

/// The stored balance after minting `amount`: the current balance plus the
/// amount.
pub open spec fn spec_mint_to(stored: Option<Seq<u8>>, amount: Seq<u8>) -> Result<Seq<u8>, BankError> {
    match spec_stored_balance(stored) {
        Err(e) => Err(e),
        Ok(current) => match decimal_sum(current, amount) {
            Some(new_balance) => Ok(new_balance),
            None => Err(BankError::Overflow),
        },
    }
}

/// Mints `amount` on top of the stored balance; gives the new stored bytes.
pub fn mint_to(stored: &Option<Vec<u8>>, amount: DecimalBytes) -> (r: Result<Vec<u8>, BankError>)
    ensures
        match spec_mint_to(opt_vec_view(*stored), amount.bytes@) {
            Ok(b) => r matches Ok(v) && v@ == b,
            Err(e) => r == Err::<Vec<u8>, BankError>(e),
        },
        spec_stored_balance(opt_vec_view(*stored)) matches Ok(current) ==> (mint_exact(
            current,
            amount.bytes@,
        ) ==> (r matches Ok(v) && exact_result(
            v@,
            exact_sum(current, amount.bytes@),
            common_scale(current, amount.bytes@),
        ))),
{
    let current = match deserialize_balance(stored) {
        Ok(c) => c,
        Err(e) => return Err(e),
    };
    match decimal_checked_add(current, amount) {
        Some(new_balance) => Ok(slice_to_vec(new_balance.bytes.as_slice())),
        None => Err(BankError::Overflow),
    }
}

/// Minting refuses a negative amount, then adds it to the balance.
pub open spec fn spec_mint(stored: Option<Seq<u8>>, amount: Seq<u8>) -> Result<Seq<u8>, BankError> {
    if spec_negative(amount) {
        Err(BankError::NegativeAmount)
    } else {
        spec_mint_to(stored, amount)
    }
}

/// Mints a non-negative `amount`; gives the new stored bytes.
pub fn mint(stored: &Option<Vec<u8>>, amount: DecimalBytes) -> (r: Result<Vec<u8>, BankError>)
    ensures
        match spec_mint(opt_vec_view(*stored), amount.bytes@) {
            Ok(b) => r matches Ok(v) && v@ == b,
            Err(e) => r == Err::<Vec<u8>, BankError>(e),
        },
        spec_stored_balance(opt_vec_view(*stored)) matches Ok(current) ==> (!spec_negative(
            amount.bytes@,
        ) && mint_exact(current, amount.bytes@) ==> (r matches Ok(v) && exact_result(
            v@,
            exact_sum(current, amount.bytes@),
            common_scale(current, amount.bytes@),
        ))),
{
    if !decimal_is_sign_positive(amount) {
        return Err(BankError::NegativeAmount);
    }
    mint_to(stored, amount)
}

/// Burning refuses a negative amount and an amount above the balance, then
/// takes the amount off the balance.
pub open spec fn spec_burn(stored: Option<Seq<u8>>, amount: Seq<u8>) -> Result<Seq<u8>, BankError> {
    if spec_negative(amount) {
        Err(BankError::NegativeAmount)
    } else {
        match spec_stored_balance(stored) {
            Err(e) => Err(e),
            Ok(current) => if balance_below(current, amount) {
                Err(BankError::InsufficientBalance)
            } else {
                match decimal_difference(current, amount) {
                    Some(new_balance) => Ok(new_balance),
                    None => Err(BankError::Overflow),
                }
            },
        }
    }
}

/// Burns a non-negative `amount` from the stored balance; gives the new
/// stored bytes.
pub fn burn(stored: &Option<Vec<u8>>, amount: DecimalBytes) -> (r: Result<Vec<u8>, BankError>)
    ensures
        match spec_burn(opt_vec_view(*stored), amount.bytes@) {
            Ok(b) => r matches Ok(v) && v@ == b,
            Err(e) => r == Err::<Vec<u8>, BankError>(e),
        },
        spec_stored_balance(opt_vec_view(*stored)) matches Ok(current) ==> (!spec_negative(
            amount.bytes@,
        ) && scale_in_range(amount.bytes@) && scale_in_range(current) ==> (r == Err::<
            Vec<u8>,
            BankError,
        >(BankError::InsufficientBalance) <==> spec_decimal_lt(current, amount.bytes@))),
        spec_stored_balance(opt_vec_view(*stored)) matches Ok(current) ==> (!spec_negative(
            amount.bytes@,
        ) && !spec_decimal_lt(current, amount.bytes@) && burn_exact(current, amount.bytes@) ==> (
        r matches Ok(v) && exact_result(
            v@,
            exact_difference(current, amount.bytes@),
            common_scale(current, amount.bytes@),
        ))),
        spec_stored_balance(opt_vec_view(*stored)) matches Ok(current) ==> (!spec_negative(
            amount.bytes@,
        ) && scale_in_range(current) && scale_in_range(amount.bytes@) && !spec_decimal_lt(
            current,
            amount.bytes@,
        ) ==> r is Ok),
{
    if !decimal_is_sign_positive(amount) {
        return Err(BankError::NegativeAmount);
    }
    let current = match deserialize_balance(stored) {
        Ok(c) => c,
        Err(e) => return Err(e),
    };
    if decimal_lt(current, amount) {
        return Err(BankError::InsufficientBalance);
    }
    match decimal_checked_sub(current, amount) {
        Some(new_balance) => Ok(slice_to_vec(new_balance.bytes.as_slice())),
        None => Err(BankError::Overflow),
    }
}

/// Reads the amount of a mint or burn request as a decimal number.
pub fn parse_amount(text: &str) -> (r: Result<DecimalBytes, BankError>)
    ensures
        match decimal_from_str(text@) {
            Some(b) => r matches Ok(d) && d.bytes@ == b,
            None => r == Err::<DecimalBytes, BankError>(BankError::InvalidAmount),
        },
{
    match parse_decimal(text) {
        Some(d) => Ok(d),
        None => Err(BankError::InvalidAmount),
    }
}

proof fn lemma_cancel(a: int, b: int, p: int)
    requires
        p > 0,
        a * p == b * p,
    ensures
        a == b,
{
    assert(a == b) by (nonlinear_arith)
        requires
            p > 0,
            a * p == b * p,
    ;
}

proof fn lemma_cancel_le(a: int, b: int, p: int)
    requires
        p > 0,
        a * p <= b * p,
    ensures
        a <= b,
{
    assert(a <= b) by (nonlinear_arith)
        requires
            p > 0,
            a * p <= b * p,
    ;
}

/// Burning what was just minted gives the balance back: when a balance of at
/// least zero and an amount that is not negative (both at most 28 digits
/// after the point) were minted without rounding (`minted` holds their exact
/// sum, as [`mint`] promises whenever that sum can be held exactly), the
/// minted balance is not below the amount, so burning the amount succeeds
/// ([`burn`]); the difference can be held exactly, so burn computes it
/// exactly; and the balance that burn leaves holds the same number as the
/// balance before the mint.
pub proof fn lemma_burn_undoes_mint(current: Seq<u8>, amount: Seq<u8>, minted: Seq<u8>)
    requires
        spec_unscaled(current) >= 0,
        !spec_negative(amount),
        scale_in_range(current),
        scale_in_range(amount),
        exact_result(minted, exact_sum(current, amount), common_scale(current, amount)),
    ensures
        !spec_decimal_lt(minted, amount),
        burn_exact(minted, amount),
        forall|after: Seq<u8>|
            exact_result(after, exact_difference(minted, amount), common_scale(minted, amount))
                ==> #[trigger] holds_value(after, spec_unscaled(current), spec_scale(current)),
{
    let sc = spec_scale(current);
    let sa = spec_scale(amount);
    let sm = spec_scale(minted);
    let cs = common_scale(current, amount);
    let uc = spec_unscaled(current);
    let ua = spec_unscaled(amount);
    let um = spec_unscaled(minted);
    let pc = pow10((cs - sc) as nat);
    let pa = pow10((cs - sa) as nat);
    let q = pow10((cs - sm) as nat);
    let psm = pow10(sm);
    let psa = pow10(sa);
    let e = exact_sum(current, amount);
    assert(ua >= 0);
    lemma_pow10_pos((cs - sc) as nat);
    lemma_pow10_pos((cs - sa) as nat);
    lemma_pow10_pos((cs - sm) as nat);
    lemma_pow10_pos(sm);
    lemma_pow10_pos(sa);
    lemma_pow10_pos(sc);
    lemma_pow10_pos(cs);
    assert(e == uc * pc + ua * pa);
    assert(uc * pc >= 0 && ua * pa >= 0) by (nonlinear_arith)
        requires
            uc >= 0,
            ua >= 0,
            pc >= 1,
            pa >= 1,
    ;
    // the minted balance, brought to the common scale, is the exact sum
    lemma_pow10_add((cs - sm) as nat, sm);
    assert((um * q) * psm == e * psm) by (nonlinear_arith)
        requires
            um * pow10(cs) == e * psm,
            pow10(cs) == q * psm,
    ;
    lemma_cancel(um * q, e, psm as int);
    // it is not below the amount
    lemma_pow10_add((cs - sa) as nat, sa);
    assert((um * psa) * q >= (ua * psm) * q) by (nonlinear_arith)
        requires
            um * q == e,
            e == uc * pc + ua * pa,
            uc * pc >= 0,
            pow10(cs) == pa * psa,
            pow10(cs) == q * psm,
            psa >= 1,
    ;
    lemma_cancel_le(ua * psm, um * psa, q as int);
    // the difference at the scale of the burn
    let s2 = common_scale(minted, amount);
    let r = pow10((cs - s2) as nat);
    let pm2 = pow10((s2 - sm) as nat);
    let pa2 = pow10((s2 - sa) as nat);
    let d = exact_difference(minted, amount);
    lemma_pow10_pos((cs - s2) as nat);
    lemma_pow10_add((cs - s2) as nat, (s2 - sm) as nat);
    lemma_pow10_add((cs - s2) as nat, (s2 - sa) as nat);
    assert(((cs - s2) as nat + (s2 - sm) as nat) == (cs - sm) as nat);
    assert(((cs - s2) as nat + (s2 - sa) as nat) == (cs - sa) as nat);
    assert(d == um * pm2 - ua * pa2);
    assert(d * r == uc * pc) by (nonlinear_arith)
        requires
            d == um * pm2 - ua * pa2,
            q == r * pm2,
            pa == r * pa2,
            um * q == e,
            e == uc * pc + ua * pa,
    ;
    // that difference is the balance at the scale of the burn: its digits
    // below the balance's scale are zero, and what is left is the balance's
    // magnitude, below 2^96
    lemma_magnitude_bound(current);
    assert(uc <= spec_magnitude(current));
    if s2 >= sc {
        let k = (s2 - sc) as nat;
        let pk = pow10(k);
        lemma_pow10_pos(k);
        lemma_pow10_add((cs - s2) as nat, k);
        assert(((cs - s2) as nat + k) == (cs - sc) as nat);
        assert((d) * r == (uc * pk) * r) by (nonlinear_arith)
            requires
                d * r == uc * pc,
                pc == r * pk,
        ;
        lemma_cancel(d, uc * pk, r as int);
        vstd::arithmetic::div_mod::lemma_mod_multiples_basic(uc, pk as int);
        vstd::arithmetic::div_mod::lemma_div_by_multiple(uc, pk as int);
        assert(k <= s2 && d % pk as int == 0 && fits_u96(d / pk as int));
    } else {
        let k = (sc - s2) as nat;
        lemma_pow10_pos(k);
        lemma_pow10_add((cs - sc) as nat, k);
        assert(((cs - sc) as nat + k) == (cs - s2) as nat);
        assert((d * pow10(k)) * pc == uc * pc) by (nonlinear_arith)
            requires
                d * r == uc * pc,
                r == pc * pow10(k),
        ;
        lemma_cancel(d * pow10(k), uc, pc as int);
        assert(0 <= d <= uc) by (nonlinear_arith)
            requires
                d * pow10(k) == uc,
                uc >= 0,
                pow10(k) >= 1,
        ;
        assert(pow10(0) == 1);
        assert(0 <= s2 && d % pow10(0) as int == 0 && fits_u96(d / pow10(0) as int));
    }
    assert(exactly_representable(d, s2));
    // what burn leaves holds the balance's number
    lemma_pow10_add((cs - s2) as nat, s2);
    lemma_pow10_add((cs - sc) as nat, sc);
    assert forall|after: Seq<u8>|
        exact_result(after, d, s2) implies #[trigger] holds_value(after, uc, sc) by {
        let ud = spec_unscaled(after);
        let sd = spec_scale(after);
        let pd = pow10(sd);
        let psc = pow10(sc);
        assert((ud * psc) * pc == (uc * pd) * pc) by (nonlinear_arith)
            requires
                ud * pow10(s2) == d * pd,
                pow10(cs) == r * pow10(s2),
                pow10(cs) == pc * psc,
                d * r == uc * pc,
        ;
        lemma_cancel(ud * psc, uc * pd, pc as int);
    }
}

} // verus!
