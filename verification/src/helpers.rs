//! Interest model: the fixed-point per-period rate and the compounded
//! interest computation.
//!
//! The rate is an 18-place fixed-point fraction, never floating point.
//! Compounding is iterative: each elapsed period grows the balance by
//! `balance * rate`, rounded down.

use vstd::prelude::*;

use vstd::arithmetic::mul::lemma_mul_inequality;
use vstd::string::StrSliceExecFns;

use crate::error::ContractError;
use crate::state::DepositInfo;

verus! {

/// Scale of the fixed-point rate: one whole unit in atomic parts,
/// `10^18`.
pub const RATE_FRACTIONAL: u128 = 1_000_000_000_000_000_000;

/// Interest rate per compounding period, held as a count of `10^-18`
/// atomic parts of a whole.
#[derive(Clone, Copy, Debug, PartialEq, Eq, Structural)]
pub struct Rate {
    pub atomics: u128,
}

impl Rate {
    /// A rate parsed from a configured string is always a proper fraction:
    /// strictly less than one whole unit per period.
    pub open spec fn wf(self) -> bool {
        self.atomics < RATE_FRACTIONAL
    }

    /// The zero rate: no interest accrues.
    pub fn zero() -> (r: Rate)
        ensures
            r.atomics == 0,
            r.wf(),
    {
        Rate { atomics: 0 }
    }
}

/// `10^n`.
pub open spec fn pow10(n: nat) -> nat
    decreases n,
{
    if n == 0 {
        1
    } else {
        10 * pow10((n - 1) as nat)
    }
}

/// The balance after `periods` rounds of compounding at the given rate:
/// each round adds `balance * rate`, rounded down to whole units.
pub open spec fn compound(balance: nat, rate_atomics: nat, periods: nat) -> nat
    decreases periods,
{
    if periods == 0 {
        balance
    } else {
        let prev = compound(balance, rate_atomics, (periods - 1) as nat);
        prev + (prev * rate_atomics) / (RATE_FRACTIONAL as nat)
    }
}

/// The interest alone that `periods` rounds of compounding add to the
/// balance, excluding the principal.
pub open spec fn interest_of(balance: nat, rate_atomics: nat, periods: nat) -> nat {
    (compound(balance, rate_atomics, periods) - balance) as nat
}

/// Compounding never shrinks a balance as periods accumulate.
pub proof fn lemma_compound_monotone(balance: nat, rate_atomics: nat, i: nat, j: nat)
    requires
        i <= j,
    ensures
        compound(balance, rate_atomics, i) <= compound(balance, rate_atomics, j),
    decreases j - i,
{
    if i < j {
        lemma_compound_monotone(balance, rate_atomics, i, (j - 1) as nat);
    }
}

/// Relies on `cosmwasm_std::Uint128::mul_floor` applied to a `Decimal`
/// built from raw atomics: the product of a balance and a proper fraction
/// is `balance * atomics / 10^18`, rounded down; the 256-bit intermediate
/// product never overflows and the quotient fits below the balance.
#[verifier::external_body]
fn mul_floor_rate(balance: u128, rate_atomics: u128) -> (r: u128)
    requires
        rate_atomics < RATE_FRACTIONAL,
    ensures
        r == (balance * rate_atomics) / (RATE_FRACTIONAL as int),
{
    let rate = cosmwasm_std::Decimal::new(cosmwasm_std::Uint128::new(rate_atomics));
    cosmwasm_std::Uint128::new(balance).mul_floor(rate).u128()
}

/// Interest accrued by a record's balance over `days` elapsed periods:
/// zero when no period has elapsed, else the compounded growth of the
/// balance, excluding the principal.
pub fn calculate_accrued_interest(deposit: &DepositInfo, interest_rate: Rate, days: u64) -> (r:
    Result<u128, ContractError>)
    requires
        interest_rate.wf(),
        compound(deposit.last_balance as nat, interest_rate.atomics as nat, days as nat)
            <= u128::MAX,
    ensures
        r is Ok,
        r->Ok_0 == interest_of(
            deposit.last_balance as nat,
            interest_rate.atomics as nat,
            days as nat,
        ),
        days == 0 ==> r->Ok_0 == 0,
{
    if days == 0 {
        return Ok(0);
    }
    let mut interested_balance: u128 = deposit.last_balance;
    let mut counter: u64 = 0;
    while counter < days
        invariant
            counter <= days,
            interest_rate.wf(),
            interested_balance == compound(
                deposit.last_balance as nat,
                interest_rate.atomics as nat,
                counter as nat,
            ),
            compound(deposit.last_balance as nat, interest_rate.atomics as nat, days as nat)
                <= u128::MAX,
        decreases days - counter,
    {
        proof {
            lemma_compound_monotone(
                deposit.last_balance as nat,
                interest_rate.atomics as nat,
                (counter + 1) as nat,
                days as nat,
            );
            assert(compound(
                deposit.last_balance as nat,
                interest_rate.atomics as nat,
                (counter + 1) as nat,
            ) == interested_balance + (interested_balance as nat * interest_rate.atomics as nat)
                / (RATE_FRACTIONAL as nat));
        }
        let step = mul_floor_rate(interested_balance, interest_rate.atomics);
        interested_balance = interested_balance + step;
        counter = counter + 1;
    }
    proof {
        lemma_compound_monotone(
            deposit.last_balance as nat,
            interest_rate.atomics as nat,
            0,
            days as nat,
        );
    }
    Ok(interested_balance - deposit.last_balance)
}

/// Whether a character is one of the ascii digits `0` through `9`.
pub open spec fn is_decimal_digit(c: char) -> bool {
    48 <= c as u32 <= 57
}

/// Numeric value of an ascii digit.
pub open spec fn digit_val(c: char) -> nat {
    ((c as u32) - 48) as nat
}

/// The number that a sequence of ascii digits denotes, most significant
/// first.
pub open spec fn digits_val(s: Seq<char>) -> nat
    decreases s.len(),
{
    if s.len() == 0 {
        0
    } else {
        10 * digits_val(s.drop_last()) + digit_val(s.last())
    }
}

/// A usable fractional part: one to eighteen ascii digits.
pub open spec fn valid_fraction(frac: Seq<char>) -> bool {
    &&& 1 <= frac.len() <= 18
    &&& forall|j: int| 0 <= j < frac.len() ==> is_decimal_digit(#[trigger] frac[j])
}

/// The atomic parts that a fractional part denotes: its digits scaled up
/// to eighteen places.
pub open spec fn fraction_atomics(frac: Seq<char>) -> nat {
    digits_val(frac) * pow10((18 - frac.len()) as nat)
}

/// Split at the first `.`, if any: the part before it and the part after
/// it.
pub open spec fn split_once_dot(s: Seq<char>) -> Option<(Seq<char>, Seq<char>)>
    decreases s.len(),
{
    if s.len() == 0 {
        None
    } else if s[0] == '.' {
        Some((Seq::empty(), s.drop_first()))
    } else {
        match split_once_dot(s.drop_first()) {
            None => None,
            Some((before, after)) => Some((seq![s[0]] + before, after)),
        }
    }
}

/// What a configured rate string denotes: `None` for a malformed string,
/// else the atomic parts of the rate.
///
/// A string without a decimal separator denotes the zero rate, whatever it
/// holds. With one separator, the fractional part alone is read, as one to
/// eighteen ascii digits scaled up to eighteen places. More than one
/// separator, or an unusable fractional part, is malformed.
pub open spec fn rate_of(s: Seq<char>) -> Option<nat> {
    match split_once_dot(s) {
        None => Some(0),
        Some((before, frac)) => {
            if frac.contains('.') {
                None
            } else if valid_fraction(frac) {
                Some(fraction_atomics(frac))
            } else {
                None
            }
        },
    }
}

/// A string without a dot splits to nothing.
proof fn lemma_no_dot_split(s: Seq<char>)
    requires
        forall|j: int| 0 <= j < s.len() ==> s[j] != '.',
    ensures
        split_once_dot(s) is None,
    decreases s.len(),
{
    if s.len() > 0 {
        lemma_no_dot_split(s.drop_first());
    }
}

/// A string whose first dot sits at `k` splits around that dot.
proof fn lemma_first_dot_split(s: Seq<char>, k: int)
    requires
        0 <= k < s.len(),
        s[k] == '.',
        forall|j: int| 0 <= j < k ==> s[j] != '.',
    ensures
        split_once_dot(s) == Some((s.subrange(0, k), s.subrange(k + 1, s.len() as int))),
    decreases k,
{
    if k == 0 {
        assert(s.subrange(0, 0) =~= Seq::<char>::empty());
        assert(s.drop_first() =~= s.subrange(1, s.len() as int));
    } else {
        lemma_first_dot_split(s.drop_first(), k - 1);
        assert(seq![s[0]] + s.drop_first().subrange(0, k - 1) =~= s.subrange(0, k));
        assert(s.drop_first().subrange(k, s.drop_first().len() as int) =~= s.subrange(
            k + 1,
            s.len() as int,
        ));
    }
}

/// The number a digit string denotes stays below one followed by as many
/// zeroes as there are digits.
proof fn lemma_digits_val_bound(s: Seq<char>)
    requires
        forall|j: int| 0 <= j < s.len() ==> is_decimal_digit(#[trigger] s[j]),
    ensures
        digits_val(s) < pow10(s.len()),
    decreases s.len(),
{
    if s.len() > 0 {
        lemma_digits_val_bound(s.drop_last());
    }
}

/// Every power of ten is positive.
proof fn lemma_pow10_pos(n: nat)
    ensures
        pow10(n) >= 1,
    decreases n,
{
    if n > 0 {
        lemma_pow10_pos((n - 1) as nat);
    }
}

/// Powers of ten multiply by adding exponents.
proof fn lemma_pow10_add(a: nat, b: nat)
    ensures
        pow10(a) * pow10(b) == pow10(a + b),
    decreases a,
{
    if a == 0 {
        assert(pow10(0) == 1);
        assert(1 * pow10(b) == pow10(b)) by (nonlinear_arith);
    } else {
        lemma_pow10_add((a - 1) as nat, b);
        assert(pow10(a) == 10 * pow10((a - 1) as nat));
        assert(pow10(a + b) == 10 * pow10((a + b - 1) as nat));
        assert((a + b - 1) as nat == (a - 1) as nat + b);
        assert((10 * pow10((a - 1) as nat)) * pow10(b) == 10 * (pow10((a - 1) as nat) * pow10(b)))
            by (nonlinear_arith);
    }
}

/// The atomic parts of a usable fractional part always stay below one
/// whole unit.
proof fn lemma_fraction_atomics_bound(frac: Seq<char>)
    requires
        valid_fraction(frac),
    ensures
        fraction_atomics(frac) < RATE_FRACTIONAL,
{
    let dv = digits_val(frac) as int;
    let high = pow10(frac.len()) as int;
    let scale = pow10((18 - frac.len()) as nat) as int;
    lemma_digits_val_bound(frac);
    lemma_pow10_pos((18 - frac.len()) as nat);
    lemma_pow10_add(frac.len(), (18 - frac.len()) as nat);
    lemma_mul_inequality(dv + 1, high, scale);
    assert((dv + 1) * scale == dv * scale + scale) by (nonlinear_arith);
    assert(pow10(18) == RATE_FRACTIONAL) by {
        reveal_with_fuel(pow10, 19);
    }
}

/// Relies on `cosmwasm_std::Decimal::from_str`: the string `"0.<frac>"`,
/// with `frac` made of one to eighteen ascii digits, parses to the decimal
/// whose atomic representation is those digits scaled up to eighteen
/// places.
#[verifier::external_body]
fn parse_fraction_atomics(frac: &str) -> (r: u128)
    requires
        valid_fraction(frac@),
    ensures
        r == fraction_atomics(frac@),
{
    let text = format!("0.{}", frac);
    match <cosmwasm_std::Decimal as core::str::FromStr>::from_str(&text) {
        Ok(d) => d.atomics().u128(),
        Err(_) => 0,
    }
}

/// Reads the per-period interest rate out of a configured string.
///
/// A string without a decimal separator reads as the zero rate; one
/// separator makes the digits after it the fractional part of the rate;
/// more than one decimal separator, or a fractional part that is not one
/// to eighteen ascii digits, is rejected.
pub fn get_decimals(value: &str) -> (r: Result<Rate, ContractError>)
    ensures
        match r {
            Ok(rate) => rate.wf() && rate_of(value@) == Some(rate.atomics as nat),
            Err(e) => rate_of(value@) is None && e == ContractError::FormatError,
        },
{
    let n = value.unicode_len();
    let mut i: usize = 0;
    let mut dots: usize = 0;
    let mut first_dot: usize = 0;
    let mut second_dot: usize = 0;
    while i < n
        invariant
            n == value@.len(),
            i <= n,
            dots <= 2,
            dots == 0 ==> forall|j: int| 0 <= j < i ==> value@[j] != '.',
            dots == 1 ==> first_dot < i && value@[first_dot as int] == '.' && forall|j: int|
                0 <= j < i && j != first_dot ==> value@[j] != '.',
            dots == 2 ==> first_dot < second_dot < i && value@[first_dot as int] == '.'
                && value@[second_dot as int] == '.' && forall|j: int|
                0 <= j < first_dot ==> value@[j] != '.',
        decreases n - i,
    {
        let c = value.get_char(i);
        if c == '.' {
            if dots == 0 {
                first_dot = i;
                dots = 1;
            } else if dots == 1 {
                second_dot = i;
                dots = 2;
            }
        }
        i = i + 1;
    }
    if dots == 0 {
        proof {
            lemma_no_dot_split(value@);
        }
        return Ok(Rate::zero());
    }
    if dots >= 2 {
        proof {
            lemma_first_dot_split(value@, first_dot as int);
            let frac = value@.subrange(first_dot as int + 1, n as int);
            assert(frac[second_dot - first_dot - 1] == '.');
            assert(frac.contains('.'));
        }
        return Err(ContractError::FormatError);
    }
    let frac = value.substring_char(first_dot + 1, n);
    proof {
        lemma_first_dot_split(value@, first_dot as int);
        assert forall|j: int| 0 <= j < frac@.len() implies frac@[j] != '.' by {
            assert(frac@[j] == value@[first_dot + 1 + j]);
        }
        assert(!frac@.contains('.'));
    }
    let frac_len = value.unicode_len() - (first_dot + 1);
    assert(frac_len == frac@.len());
    if frac_len < 1 || frac_len > 18 {
        return Err(ContractError::FormatError);
    }
    let mut j: usize = 0;
    while j < frac_len
        invariant
            frac_len == frac@.len(),
            j <= frac_len,
            forall|k: int| 0 <= k < j ==> is_decimal_digit(#[trigger] frac@[k]),
            valid_fraction(frac@) ==> rate_of(value@) == Some(fraction_atomics(frac@)),
            !valid_fraction(frac@) ==> rate_of(value@) is None,
        decreases frac_len - j,
    {
        let c = frac.get_char(j);
        let b = c as u32;
        if b < 48 || b > 57 {
            proof {
                assert(!is_decimal_digit(frac@[j as int]));
                assert(!valid_fraction(frac@));
            }
            return Err(ContractError::FormatError);
        }
        j = j + 1;
    }
    proof {
        lemma_fraction_atomics_bound(frac@);
    }
    let atomics = parse_fraction_atomics(frac);
    Ok(Rate { atomics })
}

} // verus!
