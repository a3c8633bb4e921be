//! Stateless fee-splitting logic: divides a token amount between a platform
//! fee recipient and a payee, given a fee rate in basis points.
use vstd::prelude::*;

verus! {

/// Denominator for basis-point fee calculations (10_000 bps = 100.00%).
pub const BPS_DENOMINATOR: i128 = 10_000;

/// Why a split was refused.
#[derive(Copy, Clone, Debug, PartialEq, Eq, PartialOrd, Ord, Structural)]
pub enum Error {
    /// `fee_bps` exceeds `BPS_DENOMINATOR` (100.00%).
    InvalidFeeBps,
    /// `amount` is negative, or `amount * fee_bps` does not fit in an `i128`.
    InvalidAmount,
}

impl Error {
    /// The numeric code under which the contract reports this error.
    pub fn code(&self) -> (c: u32)
        ensures
            c == self.spec_code(),
    {
        match self {
            Error::InvalidFeeBps => 1,
            Error::InvalidAmount => 2,
        }
    }

    pub open spec fn spec_code(self) -> u32 {
        match self {
            Error::InvalidFeeBps => 1,
            Error::InvalidAmount => 2,
        }
    }
}

/// The floored fee: `amount * fee_bps / 10_000`, rounded toward zero.
pub open spec fn fee_of(amount: int, fee_bps: int) -> int {
    (amount * fee_bps) / (BPS_DENOMINATOR as int)
}

/// What `compute_split` returns, stated over mathematical integers.
pub open spec fn split_result(amount: i128, fee_bps: u32) -> Result<(i128, i128), Error> {
    if amount < 0 {
        Err(Error::InvalidAmount)
    } else if fee_bps > BPS_DENOMINATOR {
        Err(Error::InvalidFeeBps)
    } else if amount * fee_bps > i128::MAX {
        Err(Error::InvalidAmount)
    } else {
        Ok((fee_of(amount as int, fee_bps as int) as i128, (amount - fee_of(amount as int, fee_bps as int)) as i128))
    }
}

/// The fee calculator. It holds no funds and no state.
pub struct FeeDistribution;

impl FeeDistribution {
    /// Splits `amount` into `(fee, net)` given a fee rate in basis points
    /// (1 bps = 0.01%; e.g. `250` = 2.5%).
    ///
    /// The fee is floored (integer division), so any rounding remainder is
    /// left in `net`: rounding always favors the payee, never the platform.
    pub fn compute_split(amount: i128, fee_bps: u32) -> (r: Result<(i128, i128), Error>)
        ensures
            r == split_result(amount, fee_bps),
            r matches Ok((fee, net)) ==> fee + net == amount && 0 <= fee <= amount && 0 <= net,
    {
        if amount < 0 {
            return Err(Error::InvalidAmount);
        }
        let bps: i128 = fee_bps as i128;
        if bps > BPS_DENOMINATOR {
            return Err(Error::InvalidFeeBps);
        }
        let scaled: i128 = match amount.checked_mul(bps) {
            Some(s) => s,
            None => return Err(Error::InvalidAmount),
        };
        let fee: i128 = scaled / BPS_DENOMINATOR;
        proof {
            lemma_fee_bounds(amount as int, fee_bps as int);
        }
        let net: i128 = amount - fee;
        Ok((fee, net))
    }
}

/// The floored fee lies between zero and the amount, and undershoots the
/// exact product by less than one basis-point unit.
pub proof fn lemma_fee_bounds(amount: int, fee_bps: int)
    requires
        0 <= amount,
        0 <= fee_bps <= BPS_DENOMINATOR,
    ensures
        0 <= fee_of(amount, fee_bps) <= amount,
        fee_of(amount, fee_bps) * BPS_DENOMINATOR <= amount * fee_bps,
        amount * fee_bps < fee_of(amount, fee_bps) * BPS_DENOMINATOR + BPS_DENOMINATOR,
{
    let p = amount * fee_bps;
    assert(0 <= p <= amount * 10_000) by (nonlinear_arith)
        requires 0 <= amount, 0 <= fee_bps <= 10_000, p == amount * fee_bps;
    let f = p / 10_000;
    assert(f * 10_000 <= p < f * 10_000 + 10_000 && 0 <= f <= amount) by (nonlinear_arith)
        requires 0 <= p <= amount * 10_000, f == p / 10_000, 0 <= amount;
}

/// A successful split accounts for every unit of the amount: the two parts
/// are non-negative and add up to exactly `amount`.
pub proof fn split_conserves_amount(amount: i128, fee_bps: u32)
    ensures
        split_result(amount, fee_bps) matches Ok((fee, net)) ==> fee + net == amount && 0 <= fee
            && 0 <= net,
{
    if split_result(amount, fee_bps) is Ok {
        lemma_fee_bounds(amount as int, fee_bps as int);
    }
}

/// A split succeeds exactly when the amount is non-negative, the rate is at
/// most 100%, and `amount * fee_bps` fits in an `i128`.
pub proof fn split_succeeds_exactly_on_valid_input(amount: i128, fee_bps: u32)
    ensures
        split_result(amount, fee_bps) is Ok <==> (0 <= amount && fee_bps <= BPS_DENOMINATOR
            && amount * fee_bps <= i128::MAX),
{
}

/// Rounding always favors the payee: the fee is the exact proportional fee
/// rounded down, never up.
pub proof fn split_rounds_toward_payee(amount: i128, fee_bps: u32)
    ensures
        split_result(amount, fee_bps) matches Ok((fee, net)) ==> fee * BPS_DENOMINATOR
            <= amount * fee_bps < fee * BPS_DENOMINATOR + BPS_DENOMINATOR,
{
    if split_result(amount, fee_bps) is Ok {
        lemma_fee_bounds(amount as int, fee_bps as int);
    }
}

/// A zero rate leaves the whole amount to the payee; a 100% rate gives the
/// whole amount to the fee recipient.
pub proof fn split_extreme_rates(amount: i128)
    ensures
        split_result(amount, 0) matches Ok((fee, net)) ==> fee == 0 && net == amount,
        split_result(amount, 10_000) matches Ok((fee, net)) ==> fee == amount && net == 0,
{
    assert(amount * 0 == 0) by (nonlinear_arith);
    assert(amount * 10_000 / 10_000 == amount) by (nonlinear_arith);
}

/// A higher rate never yields a lower fee for the same amount.
pub proof fn split_fee_grows_with_rate(amount: i128, low_bps: u32, high_bps: u32)
    requires
        low_bps <= high_bps,
    ensures
        split_result(amount, low_bps) matches Ok((low_fee, _)) ==> (split_result(amount, high_bps) matches Ok((
            high_fee,
            _,
        )) ==> low_fee <= high_fee),
{
    if split_result(amount, low_bps) is Ok && split_result(amount, high_bps) is Ok {
        let a = amount as int;
        let l = low_bps as int;
        let h = high_bps as int;
        assert(a * l <= a * h) by (nonlinear_arith)
            requires 0 <= a, l <= h;
        assert((a * l) / 10_000 <= (a * h) / 10_000) by (nonlinear_arith)
            requires 0 <= a * l <= a * h;
    }
}

/// A refused split names its reason: a negative amount first, then a rate
/// above 100%, then an amount whose scaled product overflows.
pub proof fn split_refusals_name_their_reason(amount: i128, fee_bps: u32)
    ensures
        amount < 0 ==> split_result(amount, fee_bps) == Err::<(i128, i128), Error>(Error::InvalidAmount),
        amount >= 0 && fee_bps > BPS_DENOMINATOR ==> split_result(amount, fee_bps) == Err::<(i128, i128), Error>(
            Error::InvalidFeeBps,
        ),
        amount >= 0 && fee_bps <= BPS_DENOMINATOR && amount * fee_bps > i128::MAX ==> split_result(amount, fee_bps)
            == Err::<(i128, i128), Error>(Error::InvalidAmount),
{
}

/// Distinct errors are reported under distinct codes.
pub proof fn split_error_codes_are_distinct()
    ensures
        Error::InvalidFeeBps.spec_code() != Error::InvalidAmount.spec_code(),
{
}

} // verus!
