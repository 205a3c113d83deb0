//! Strategy ledger: yield-rate configuration and aggregate deposit totals per
//! strategy, and the time-proportional yield-accrual arithmetic.

use crate::math::{lemma_low64_identity, low64, BPS_DENOMINATOR, SECONDS_PER_YEAR};
use vstd::arithmetic::div_mod::lemma_div_is_ordered;
use vstd::arithmetic::mul::{lemma_mul_inequality, lemma_mul_upper_bound};
use vstd::prelude::*;
use vstd::string::StrSliceExecFns;

verus! {

/// Longest accepted strategy display name, in characters.
pub const MAX_NAME_LEN: usize = 64;

/// Highest accepted annual yield rate, in basis points (500%).
pub const MAX_APY_BPS: u16 = 50_000;

/// Configuration and aggregate state for one yield-bearing offering.
///
/// Identities (admin and asset identifiers) are opaque account numbers handed
/// out by the external persistence layer.
#[derive(Clone, Debug, PartialEq)]
pub struct Strategy {
    /// Admin who created and manages this strategy.
    pub admin: u64,
    /// The underlying asset that users deposit.
    pub underlying_token: u64,
    /// The claim-asset identifier whose supply this strategy controls.
    pub yield_token_mint: u64,
    /// Display name, at most `MAX_NAME_LEN` characters.
    pub name: String,
    /// Annual yield rate in basis points (1000 = 10.00%).
    pub apy: u64,
    /// Total principal currently deposited in this strategy.
    pub total_deposits: u64,
    /// Whether this strategy is currently accepting operations.
    pub is_active: bool,
    /// When this strategy was created.
    pub created_at: i64,
    /// Total claim tokens minted against this strategy's deposits.
    pub total_yield_tokens_minted: u64,
    /// Numeric id.
    pub strategy_id: u64,
}

/// Monotonic counter handing out the next strategy id.
#[derive(Clone, Debug, PartialEq)]
pub struct StrategyCounter {
    pub count: u64,
}

/// Rejections raised when creating a strategy.
#[derive(Clone, Copy, Debug, PartialEq, Eq, Structural)]
pub enum CustomError {
    /// The display name exceeds `MAX_NAME_LEN` characters.
    NameTooLong,
    /// The annual rate exceeds `MAX_APY_BPS` basis points.
    ApyTooHigh,
}

impl Strategy {
    /// A well-formed strategy: its rate and name were accepted at creation.
    pub open spec fn wf(self) -> bool {
        &&& self.apy <= MAX_APY_BPS
        &&& self.name@.len() <= MAX_NAME_LEN
    }

    /// Whether the strategy accepts position-mutating operations.
    pub fn is_operational(&self) -> (r: bool)
        ensures
            r == self.is_active,
    {
        self.is_active
    }

    /// Yield accrued by `principal` over `time_elapsed_seconds`, in 128-bit
    /// width: the annual yield `principal * apy / 10000`, pro-rated by
    /// `elapsed / SECONDS_PER_YEAR`, truncating at each division and keeping
    /// the low 64 bits. Non-positive elapsed time accrues nothing.
    pub fn calculate_yield(&self, principal: u64, time_elapsed_seconds: i64) -> (r: u64)
        requires
            annual_yield(principal, self.apy) * time_elapsed_seconds <= u128::MAX,
        ensures
            r == accrued_yield(principal, self.apy, time_elapsed_seconds as int),
    {
        if time_elapsed_seconds <= 0 {
            return 0;
        }
        proof {
            lemma_mul_upper_bound(principal as int, u64::MAX as int, self.apy as int, u64::MAX as int);
        }
        let annual: u128 = (principal as u128) * (self.apy as u128) / (BPS_DENOMINATOR as u128);
        let accrued: u128 = annual * (time_elapsed_seconds as u128) / (SECONDS_PER_YEAR as u128);
        let low: u128 = accrued % 0x1_0000_0000_0000_0000u128;
        low as u64
    }
}

/// The annual yield owed on `principal` at `apy` basis points, rounded down.
pub open spec fn annual_yield(principal: u64, apy: u64) -> int {
    (principal * apy) / (BPS_DENOMINATOR as int)
}

/// Yield accrued over `elapsed` seconds: the annual yield pro-rated by the
/// elapsed fraction of a year, truncating, narrowed to 64 bits. Zero for
/// non-positive elapsed time.
pub open spec fn accrued_yield(principal: u64, apy: u64, elapsed: int) -> int {
    if elapsed <= 0 {
        0
    } else {
        low64((annual_yield(principal, apy) * elapsed) / (SECONDS_PER_YEAR as int))
    }
}

/// Accrual over zero or negative elapsed time yields nothing.
pub proof fn lemma_accrued_yield_zero(principal: u64, apy: u64, elapsed: int)
    requires
        elapsed <= 0,
    ensures
        accrued_yield(principal, apy, elapsed) == 0,
{
}

/// Accrued yield never comes out negative.
pub proof fn lemma_accrued_yield_nonneg(principal: u64, apy: u64, elapsed: int)
    ensures
        accrued_yield(principal, apy, elapsed) >= 0,
{
    if elapsed > 0 {
        let a = annual_yield(principal, apy);
        assert(principal * apy >= 0) by (nonlinear_arith);
        lemma_div_is_ordered(0, principal * apy, BPS_DENOMINATOR as int);
        assert(a * elapsed >= 0) by (nonlinear_arith)
            requires
                a >= 0,
                elapsed > 0,
        ;
        lemma_div_is_ordered(0, a * elapsed, SECONDS_PER_YEAR as int);
    }
}

/// Accrual is monotonic non-decreasing in elapsed time, wherever the larger
/// accrued quantity still fits the 64-bit field it is narrowed into.
pub proof fn lemma_accrued_yield_monotonic_elapsed(principal: u64, apy: u64, e1: int, e2: int)
    requires
        e1 <= e2,
        annual_yield(principal, apy) * e2 / (SECONDS_PER_YEAR as int) < 0x1_0000_0000_0000_0000,
    ensures
        accrued_yield(principal, apy, e1) <= accrued_yield(principal, apy, e2),
{
    lemma_accrued_yield_nonneg(principal, apy, e2);
    if 0 < e1 {
        let a = annual_yield(principal, apy);
        assert(principal * apy >= 0) by (nonlinear_arith);
        lemma_div_is_ordered(0, principal * apy, BPS_DENOMINATOR as int);
        lemma_mul_inequality(e1, e2, a);
        assert(e1 * a == a * e1) by (nonlinear_arith);
        assert(e2 * a == a * e2) by (nonlinear_arith);
        lemma_div_is_ordered(a * e1, a * e2, SECONDS_PER_YEAR as int);
        assert(a * e1 >= 0) by (nonlinear_arith)
            requires
                a >= 0,
                e1 > 0,
        ;
        lemma_div_is_ordered(0, a * e1, SECONDS_PER_YEAR as int);
        lemma_low64_identity((a * e1) / (SECONDS_PER_YEAR as int));
        lemma_low64_identity((a * e2) / (SECONDS_PER_YEAR as int));
    }
}

/// Accrual is monotonic non-decreasing in the principal, wherever the larger
/// accrued quantity still fits the 64-bit field it is narrowed into.
pub proof fn lemma_accrued_yield_monotonic_principal(p1: u64, p2: u64, apy: u64, elapsed: int)
    requires
        p1 <= p2,
        elapsed > 0 ==> annual_yield(p2, apy) * elapsed / (SECONDS_PER_YEAR as int)
            < 0x1_0000_0000_0000_0000,
    ensures
        accrued_yield(p1, apy, elapsed) <= accrued_yield(p2, apy, elapsed),
{
    if elapsed > 0 {
        lemma_mul_inequality(p1 as int, p2 as int, apy as int);
        lemma_div_is_ordered(p1 * apy, p2 * apy, BPS_DENOMINATOR as int);
        let a1 = annual_yield(p1, apy);
        let a2 = annual_yield(p2, apy);
        assert(p1 * apy >= 0) by (nonlinear_arith);
        lemma_div_is_ordered(0, p1 * apy, BPS_DENOMINATOR as int);
        lemma_mul_inequality(a1, a2, elapsed);
        assert(a1 * elapsed == elapsed * a1) by (nonlinear_arith);
        assert(a2 * elapsed == elapsed * a2) by (nonlinear_arith);
        lemma_div_is_ordered(a1 * elapsed, a2 * elapsed, SECONDS_PER_YEAR as int);
        assert(a1 * elapsed >= 0) by (nonlinear_arith)
            requires
                a1 >= 0,
                elapsed > 0,
        ;
        lemma_div_is_ordered(0, a1 * elapsed, SECONDS_PER_YEAR as int);
        lemma_low64_identity((a1 * elapsed) / (SECONDS_PER_YEAR as int));
        lemma_low64_identity((a2 * elapsed) / (SECONDS_PER_YEAR as int));
    }
}

/// Sets up the protocol: the strategy counter starts at zero.
pub fn initialize_protocol(counter: &mut StrategyCounter)
    ensures
        final(counter).count == 0,
{
    counter.count = 0;
}

/// Creates a strategy with zeroed aggregates, bound to the given asset
/// identifiers, and bumps the strategy counter.
///
/// Rejects a name over `MAX_NAME_LEN` characters, then a rate over
/// `MAX_APY_BPS` basis points; a rejected request leaves the counter
/// untouched.
pub fn create_strategy(
    admin: u64,
    underlying_token: u64,
    yield_token_mint: u64,
    name: String,
    apy_basis_points: u16,
    strategy_id: u64,
    now: i64,
    counter: &mut StrategyCounter,
) -> (r: Result<Strategy, CustomError>)
    requires
        name@.len() <= MAX_NAME_LEN && apy_basis_points <= MAX_APY_BPS ==> old(counter).count
            < u64::MAX,
    ensures
        r == Err::<Strategy, CustomError>(CustomError::NameTooLong) <==> name@.len()
            > MAX_NAME_LEN,
        r == Err::<Strategy, CustomError>(CustomError::ApyTooHigh) <==> name@.len()
            <= MAX_NAME_LEN && apy_basis_points > MAX_APY_BPS,
        r is Ok <==> name@.len() <= MAX_NAME_LEN && apy_basis_points <= MAX_APY_BPS,
        r matches Ok(s) ==> s == (Strategy {
            admin,
            underlying_token,
            yield_token_mint,
            name,
            apy: apy_basis_points as u64,
            total_deposits: 0,
            is_active: true,
            created_at: now,
            total_yield_tokens_minted: 0,
            strategy_id,
        }),
        r matches Ok(s) ==> s.wf(),
        r is Ok ==> final(counter).count == old(counter).count + 1,
        r is Err ==> *final(counter) == *old(counter),
{
    if name.as_str().unicode_len() > MAX_NAME_LEN {
        return Err(CustomError::NameTooLong);
    }
    if apy_basis_points > MAX_APY_BPS {
        return Err(CustomError::ApyTooHigh);
    }
    let strategy = Strategy {
        admin,
        underlying_token,
        yield_token_mint,
        name,
        apy: apy_basis_points as u64,
        total_deposits: 0,
        is_active: true,
        created_at: now,
        total_yield_tokens_minted: 0,
        strategy_id,
    };
    counter.count = counter.count + 1;
    Ok(strategy)
}

} // verus!
