//! Position accrual engine: one user's stake in one strategy, and the
//! deposit / claim / withdraw / redemption arithmetic that mutates it.
//!
//! Each operation validates before any state change, reports the exact token
//! movements the caller must perform through the external transfer service,
//! and on any rejection leaves every record exactly as it was.

use crate::math::{lemma_share_le_whole, lemma_whole_share, proportional_share};
use crate::strategy::{accrued_yield, annual_yield, Strategy};
use vstd::arithmetic::div_mod::lemma_div_of0;
use vstd::arithmetic::mul::lemma_mul_upper_bound;
use vstd::prelude::*;

verus! {

/// One user's stake in one strategy.
#[derive(Clone, Debug, PartialEq)]
pub struct UserPosition {
    /// The user who owns this position.
    pub user: u64,
    /// The strategy this position belongs to.
    pub strategy: u64,
    /// Principal currently deposited by the user.
    pub deposited_amount: u64,
    /// Claim tokens attributable to this position.
    pub yield_tokens_minted: u64,
    /// When the user made the deposit.
    pub deposit_time: i64,
    /// Last time yield was claimed, the checkpoint for continuous accrual.
    pub last_yield_claim: i64,
    /// Total yield claimed over this position's lifetime.
    pub total_yield_claimed: u64,
    /// Numeric id.
    pub position_id: u64,
}

/// Declared for a maturity lock that no operation enforces: withdrawals are
/// unconditionally unlocked, so nothing ever raises this.
#[derive(Clone, Copy, Debug, PartialEq, Eq, Structural)]
pub enum CustomError {
    NotMature,
}

/// Rejections raised when depositing into a strategy. The asset-mismatch
/// variants are raised by the embedding layer when it resolves the token
/// accounts handed to it.
#[derive(Clone, Copy, Debug, PartialEq, Eq, Structural)]
pub enum DepositError {
    StrategyNotActive,
    WrongUnderlyingToken,
    WrongYieldTokenMint,
    InvalidAmount,
}

/// Rejections raised when claiming accrued yield.
#[derive(Clone, Copy, Debug, PartialEq, Eq, Structural)]
pub enum ClaimError {
    StrategyNotActive,
    WrongYieldTokenMint,
    UnauthorizedUser,
    NoYieldToClaim,
}

/// Rejections raised when withdrawing principal.
#[derive(Clone, Copy, Debug, PartialEq, Eq, Structural)]
pub enum WithdrawError {
    StrategyNotActive,
    UnauthorizedUser,
    InsufficientBalance,
    InvalidAmount,
}

/// Rejections raised when redeeming claim tokens. The asset-mismatch
/// variants are raised by the embedding layer.
#[derive(Clone, Copy, Debug, PartialEq, Eq, Structural)]
pub enum RedeemError {
    StrategyNotActive,
    UnauthorizedUser,
    WrongYieldTokenMint,
    WrongYieldTokenAccount,
    InvalidAmount,
    InsufficientYieldTokens,
    NoPosition,
}

/// Deposits `amount` of the underlying asset into `strategy`, (re)initializing
/// the caller's position and minting claim tokens one-for-one with the
/// deposit.
///
/// On success the caller owes the transfer service two movements: `amount`
/// underlying from the user into the strategy vault, and a mint of the
/// returned number of claim tokens to the user. Claim tokens are always
/// minted 1:1 with the deposit; yield is realized only at claim or
/// redemption time.
pub fn deposit_to_strategy(
    strategy: &mut Strategy,
    position: &mut UserPosition,
    user: u64,
    amount: u64,
    now: i64,
) -> (r: Result<u64, DepositError>)
    requires
        old(strategy).is_active && amount > 0 ==> old(strategy).total_deposits + amount
            <= u64::MAX && old(strategy).total_yield_tokens_minted + amount <= u64::MAX,
    ensures
        r == Err::<u64, DepositError>(DepositError::StrategyNotActive) <==> !old(
            strategy,
        ).is_active,
        r == Err::<u64, DepositError>(DepositError::InvalidAmount) <==> old(strategy).is_active
            && amount == 0,
        r is Ok <==> old(strategy).is_active && amount > 0,
        r matches Ok(minted) ==> minted == amount,
        r is Ok ==> *final(position) == (UserPosition {
            user,
            strategy: old(strategy).strategy_id,
            deposited_amount: amount,
            yield_tokens_minted: amount,
            deposit_time: now,
            last_yield_claim: now,
            total_yield_claimed: 0,
            position_id: old(strategy).total_deposits,
        }),
        r is Ok ==> *final(strategy) == (Strategy {
            total_deposits: (old(strategy).total_deposits + amount) as u64,
            total_yield_tokens_minted: (old(strategy).total_yield_tokens_minted + amount) as u64,
            ..*old(strategy)
        }),
        r is Err ==> *final(strategy) == *old(strategy) && *final(position) == *old(position),
{
    if !strategy.is_operational() {
        return Err(DepositError::StrategyNotActive);
    }
    if amount == 0 {
        return Err(DepositError::InvalidAmount);
    }
    let yield_tokens_to_mint: u64 = amount;
    position.user = user;
    position.strategy = strategy.strategy_id;
    position.deposited_amount = amount;
    position.yield_tokens_minted = yield_tokens_to_mint;
    position.deposit_time = now;
    position.last_yield_claim = now;
    position.total_yield_claimed = 0;
    position.position_id = strategy.total_deposits;
    strategy.total_deposits = strategy.total_deposits + amount;
    strategy.total_yield_tokens_minted = strategy.total_yield_tokens_minted + yield_tokens_to_mint;
    Ok(yield_tokens_to_mint)
}

/// Yield accrued by `position` since its last claim checkpoint.
pub open spec fn claimable_yield(strategy: Strategy, position: UserPosition, now: i64) -> int {
    accrued_yield(position.deposited_amount, strategy.apy, now - position.last_yield_claim)
}

/// Claims the yield accrued since the last claim checkpoint: a
/// supply-expanding mint of claim tokens to the user, not a transfer from a
/// pool.
///
/// On success the caller owes the transfer service one movement: a mint of
/// the returned number of claim tokens to the user. The checkpoint advances
/// to `now`; the strategy's aggregates are untouched.
pub fn claim_yield(
    strategy: &Strategy,
    position: &mut UserPosition,
    user: u64,
    now: i64,
) -> (r: Result<u64, ClaimError>)
    requires
        strategy.is_active && old(position).user == user ==> i64::MIN <= now - old(
            position,
        ).last_yield_claim <= i64::MAX,
        strategy.is_active && old(position).user == user ==> annual_yield(
            old(position).deposited_amount,
            strategy.apy,
        ) * (now - old(position).last_yield_claim) <= u128::MAX,
        strategy.is_active && old(position).user == user ==> old(position).total_yield_claimed
            + claimable_yield(*strategy, *old(position), now) <= u64::MAX && old(
            position,
        ).yield_tokens_minted + claimable_yield(*strategy, *old(position), now) <= u64::MAX,
    ensures
        r == Err::<u64, ClaimError>(ClaimError::StrategyNotActive) <==> !strategy.is_active,
        r == Err::<u64, ClaimError>(ClaimError::UnauthorizedUser) <==> strategy.is_active && old(
            position,
        ).user != user,
        r == Err::<u64, ClaimError>(ClaimError::NoYieldToClaim) <==> strategy.is_active && old(
            position,
        ).user == user && claimable_yield(*strategy, *old(position), now) == 0,
        r is Ok <==> strategy.is_active && old(position).user == user && claimable_yield(
            *strategy,
            *old(position),
            now,
        ) > 0,
        r matches Ok(y) ==> y == claimable_yield(*strategy, *old(position), now),
        r is Ok ==> *final(position) == (UserPosition {
            last_yield_claim: now,
            total_yield_claimed: (old(position).total_yield_claimed + claimable_yield(
                *strategy,
                *old(position),
                now,
            )) as u64,
            yield_tokens_minted: (old(position).yield_tokens_minted + claimable_yield(
                *strategy,
                *old(position),
                now,
            )) as u64,
            ..*old(position)
        }),
        r is Err ==> *final(position) == *old(position),
{
    if !strategy.is_operational() {
        return Err(ClaimError::StrategyNotActive);
    }
    if position.user != user {
        return Err(ClaimError::UnauthorizedUser);
    }
    let time_elapsed: i64 = now - position.last_yield_claim;
    if time_elapsed <= 0 {
        return Err(ClaimError::NoYieldToClaim);
    }
    let yield_amount: u64 = strategy.calculate_yield(position.deposited_amount, time_elapsed);
    if yield_amount == 0 {
        return Err(ClaimError::NoYieldToClaim);
    }
    position.last_yield_claim = now;
    position.total_yield_claimed = position.total_yield_claimed + yield_amount;
    position.yield_tokens_minted = position.yield_tokens_minted + yield_amount;
    Ok(yield_amount)
}

/// Withdraws `amount` of principal from the position, with no maturity lock
/// and no penalty.
///
/// On success the caller owes the transfer service one movement: `amount`
/// underlying from the strategy vault to the user. Both the position's and
/// the strategy's principal totals fall by `amount`; a rejection leaves both
/// unchanged, so neither total can ever be driven below zero.
pub fn withdraw_from_strategy(
    strategy: &mut Strategy,
    position: &mut UserPosition,
    user: u64,
    amount: u64,
) -> (r: Result<(), WithdrawError>)
    requires
        old(position).deposited_amount <= old(strategy).total_deposits,
    ensures
        r == Err::<(), WithdrawError>(WithdrawError::StrategyNotActive) <==> !old(
            strategy,
        ).is_active,
        r == Err::<(), WithdrawError>(WithdrawError::UnauthorizedUser) <==> old(strategy).is_active
            && old(position).user != user,
        r == Err::<(), WithdrawError>(WithdrawError::InvalidAmount) <==> old(strategy).is_active
            && old(position).user == user && amount == 0,
        r == Err::<(), WithdrawError>(WithdrawError::InsufficientBalance) <==> old(
            strategy,
        ).is_active && old(position).user == user && amount > 0 && old(position).deposited_amount
            < amount,
        r is Ok <==> old(strategy).is_active && old(position).user == user && 0 < amount <= old(
            position,
        ).deposited_amount,
        r is Ok ==> *final(position) == (UserPosition {
            deposited_amount: (old(position).deposited_amount - amount) as u64,
            ..*old(position)
        }),
        r is Ok ==> *final(strategy) == (Strategy {
            total_deposits: (old(strategy).total_deposits - amount) as u64,
            ..*old(strategy)
        }),
        r is Ok ==> final(position).deposited_amount <= final(strategy).total_deposits,
        r is Err ==> *final(strategy) == *old(strategy) && *final(position) == *old(position),
{
    if !strategy.is_operational() {
        return Err(WithdrawError::StrategyNotActive);
    }
    if position.user != user {
        return Err(WithdrawError::UnauthorizedUser);
    }
    if amount == 0 {
        return Err(WithdrawError::InvalidAmount);
    }
    if position.deposited_amount < amount {
        return Err(WithdrawError::InsufficientBalance);
    }
    position.deposited_amount = position.deposited_amount - amount;
    strategy.total_deposits = strategy.total_deposits - amount;
    Ok(())
}

/// The token movements a successful redemption owes the transfer service: a
/// burn of the redeemed claim tokens from the user, and one transfer of
/// `total_payout` underlying from the strategy vault to the user.
#[derive(Clone, Copy, Debug, PartialEq, Eq, Structural)]
pub struct RedeemOutcome {
    /// Proportional share of the remaining principal, rounded down.
    pub principal_returned: u64,
    /// Proportional share of the lifetime yield, rounded down.
    pub yield_returned: u64,
    /// `principal_returned + yield_returned`.
    pub total_payout: u64,
}

/// Whether a redemption request passes every validation check.
pub open spec fn redeem_permitted(
    strategy: Strategy,
    position: UserPosition,
    user: u64,
    amount: u64,
    balance: u64,
) -> bool {
    &&& strategy.is_active
    &&& position.user == user
    &&& amount > 0
    &&& balance >= amount
    &&& position.yield_tokens_minted > 0
}

/// The principal a redemption of `amount` claim tokens returns: the
/// position's share of its remaining principal, proportional to the redeemed
/// fraction of its claim tokens.
pub open spec fn redeem_principal_part(position: UserPosition, amount: u64) -> int {
    proportional_share(
        position.deposited_amount as int,
        amount as int,
        position.yield_tokens_minted as int,
    )
}

/// The yield a redemption of `amount` claim tokens returns: the same
/// proportional share of the yield accrued over the position's entire
/// lifetime.
pub open spec fn redeem_yield_part(
    strategy: Strategy,
    position: UserPosition,
    amount: u64,
    now: i64,
) -> int {
    proportional_share(
        accrued_yield(position.deposited_amount, strategy.apy, now - position.deposit_time),
        amount as int,
        position.yield_tokens_minted as int,
    )
}

/// The principal left on a position after one redemption of `claim` out of
/// `tokens` claim tokens: the proportional share comes out, and the final
/// redemption (the one taking every remaining token) resets the principal to
/// exactly zero, sweeping any truncation residue with it.
pub open spec fn after_redeem_deposited(deposited: int, tokens: int, claim: int) -> int {
    if tokens == claim {
        0
    } else {
        deposited - proportional_share(deposited, claim, tokens)
    }
}

/// Redeems `yield_token_amount` claim tokens for the proportional share of
/// the position's principal plus the same share of its lifetime yield, all
/// three proportional computations rounding down — a deliberate conservative
/// bias in favor of protocol solvency.
///
/// The truncation drift this leaves behind stays inside the position: each
/// partial redemption rounds the returned principal down, so at most one
/// underlying unit per redeemed token line stays recorded, and the final
/// redemption (the one that brings the claim-token balance to zero) sweeps
/// the whole remainder and resets the position to its clean empty state.
pub fn redeem_yield_tokens(
    strategy: &mut Strategy,
    position: &mut UserPosition,
    user: u64,
    yield_token_amount: u64,
    user_yield_token_balance: u64,
    now: i64,
) -> (r: Result<RedeemOutcome, RedeemError>)
    requires
        redeem_permitted(
            *old(strategy),
            *old(position),
            user,
            yield_token_amount,
            user_yield_token_balance,
        ) ==> {
            &&& yield_token_amount <= old(position).yield_tokens_minted
            &&& yield_token_amount <= old(strategy).total_yield_tokens_minted
            &&& old(position).deposited_amount <= old(strategy).total_deposits
            &&& i64::MIN <= now - old(position).deposit_time <= i64::MAX
            &&& annual_yield(old(position).deposited_amount, old(strategy).apy) * (now - old(
                position,
            ).deposit_time) <= u128::MAX
            &&& redeem_principal_part(*old(position), yield_token_amount) + redeem_yield_part(
                *old(strategy),
                *old(position),
                yield_token_amount,
                now,
            ) <= u64::MAX
        },
    ensures
        r == Err::<RedeemOutcome, RedeemError>(RedeemError::StrategyNotActive) <==> !old(
            strategy,
        ).is_active,
        r == Err::<RedeemOutcome, RedeemError>(RedeemError::UnauthorizedUser) <==> old(
            strategy,
        ).is_active && old(position).user != user,
        r == Err::<RedeemOutcome, RedeemError>(RedeemError::InvalidAmount) <==> old(
            strategy,
        ).is_active && old(position).user == user && yield_token_amount == 0,
        r == Err::<RedeemOutcome, RedeemError>(RedeemError::InsufficientYieldTokens) <==> old(
            strategy,
        ).is_active && old(position).user == user && yield_token_amount > 0
            && user_yield_token_balance < yield_token_amount,
        r == Err::<RedeemOutcome, RedeemError>(RedeemError::NoPosition) <==> old(
            strategy,
        ).is_active && old(position).user == user && 0 < yield_token_amount
            <= user_yield_token_balance && old(position).yield_tokens_minted == 0,
        r is Ok <==> redeem_permitted(
            *old(strategy),
            *old(position),
            user,
            yield_token_amount,
            user_yield_token_balance,
        ),
        r matches Ok(o) ==> o == (RedeemOutcome {
            principal_returned: redeem_principal_part(*old(position), yield_token_amount) as u64,
            yield_returned: redeem_yield_part(
                *old(strategy),
                *old(position),
                yield_token_amount,
                now,
            ) as u64,
            total_payout: (redeem_principal_part(*old(position), yield_token_amount)
                + redeem_yield_part(
                *old(strategy),
                *old(position),
                yield_token_amount,
                now,
            )) as u64,
        }),
        r is Ok ==> *final(position) == (UserPosition {
            deposited_amount: (old(position).deposited_amount - redeem_principal_part(
                *old(position),
                yield_token_amount,
            )) as u64,
            yield_tokens_minted: (old(position).yield_tokens_minted - yield_token_amount) as u64,
            total_yield_claimed: if old(position).yield_tokens_minted == yield_token_amount {
                0
            } else {
                old(position).total_yield_claimed
            },
            last_yield_claim: if old(position).yield_tokens_minted == yield_token_amount {
                now
            } else {
                old(position).last_yield_claim
            },
            ..*old(position)
        }),
        r is Ok ==> final(position).deposited_amount == after_redeem_deposited(
            old(position).deposited_amount as int,
            old(position).yield_tokens_minted as int,
            yield_token_amount as int,
        ),
        r is Ok ==> *final(strategy) == (Strategy {
            total_deposits: (old(strategy).total_deposits - redeem_principal_part(
                *old(position),
                yield_token_amount,
            )) as u64,
            total_yield_tokens_minted: (old(strategy).total_yield_tokens_minted
                - yield_token_amount) as u64,
            ..*old(strategy)
        }),
        r is Err ==> *final(strategy) == *old(strategy) && *final(position) == *old(position),
{
    if !strategy.is_operational() {
        return Err(RedeemError::StrategyNotActive);
    }
    if position.user != user {
        return Err(RedeemError::UnauthorizedUser);
    }
    if yield_token_amount == 0 {
        return Err(RedeemError::InvalidAmount);
    }
    if user_yield_token_balance < yield_token_amount {
        return Err(RedeemError::InsufficientYieldTokens);
    }
    let total_yield_tokens: u64 = position.yield_tokens_minted;
    if total_yield_tokens == 0 {
        return Err(RedeemError::NoPosition);
    }
    proof {
        lemma_mul_upper_bound(
            position.deposited_amount as int,
            u64::MAX as int,
            yield_token_amount as int,
            u64::MAX as int,
        );
        lemma_share_le_whole(position.deposited_amount, yield_token_amount, total_yield_tokens);
    }
    let principal_wide: u128 = (position.deposited_amount as u128) * (yield_token_amount as u128)
        / (total_yield_tokens as u128);
    let principal_to_return: u64 = principal_wide as u64;
    let time_since_deposit: i64 = now - position.deposit_time;
    let total_yield_for_position: u64 = strategy.calculate_yield(
        position.deposited_amount,
        time_since_deposit,
    );
    proof {
        lemma_mul_upper_bound(
            total_yield_for_position as int,
            u64::MAX as int,
            yield_token_amount as int,
            u64::MAX as int,
        );
        lemma_share_le_whole(total_yield_for_position, yield_token_amount, total_yield_tokens);
    }
    let yield_wide: u128 = (total_yield_for_position as u128) * (yield_token_amount as u128) / (
    total_yield_tokens as u128);
    let yield_to_return: u64 = yield_wide as u64;
    let total_to_transfer: u64 = principal_to_return + yield_to_return;
    let remaining_yield_tokens: u64 = total_yield_tokens - yield_token_amount;
    position.deposited_amount = position.deposited_amount - principal_to_return;
    position.yield_tokens_minted = remaining_yield_tokens;
    strategy.total_deposits = strategy.total_deposits - principal_to_return;
    strategy.total_yield_tokens_minted = strategy.total_yield_tokens_minted - yield_token_amount;
    if remaining_yield_tokens == 0 {
        proof {
            lemma_whole_share(old(position).deposited_amount, total_yield_tokens);
        }
        position.deposited_amount = 0;
        position.total_yield_claimed = 0;
        position.last_yield_claim = now;
    }
    Ok(
        RedeemOutcome {
            principal_returned: principal_to_return,
            yield_returned: yield_to_return,
            total_payout: total_to_transfer,
        },
    )
}

/// A deposit followed by an immediate full redemption returns exactly the
/// deposited principal: a 1:1 deposit leaves the claim-token balance equal
/// to the principal, the whole proportional share of the principal is the
/// principal itself, and zero elapsed time accrues zero yield.
pub proof fn lemma_immediate_full_redemption(strategy: Strategy, position: UserPosition, now: i64)
    requires
        position.deposited_amount == position.yield_tokens_minted,
        position.deposited_amount > 0,
        position.deposit_time == now,
    ensures
        redeem_principal_part(position, position.yield_tokens_minted)
            == position.deposited_amount,
        redeem_yield_part(strategy, position, position.yield_tokens_minted, now) == 0,
        redeem_principal_part(position, position.yield_tokens_minted) + redeem_yield_part(
            strategy,
            position,
            position.yield_tokens_minted,
            now,
        ) == position.deposited_amount,
{
    lemma_whole_share(position.deposited_amount, position.yield_tokens_minted);
    assert(accrued_yield(position.deposited_amount, strategy.apy, 0) == 0);
    assert(0 * position.yield_tokens_minted == 0) by (nonlinear_arith);
    lemma_div_of0(position.yield_tokens_minted as int);
}

/// Total of a sequence of claim-token redemption amounts.
pub open spec fn sum_claims(claims: Seq<u64>) -> int
    decreases claims.len(),
{
    if claims.len() == 0 {
        0
    } else {
        claims[0] + sum_claims(claims.drop_first())
    }
}

/// The (principal, claim tokens) left on a position after redeeming the
/// amounts in `claims`, one after another.
pub open spec fn position_after_redemptions(deposited: int, tokens: int, claims: Seq<u64>) -> (
    int,
    int,
)
    decreases claims.len(),
{
    if claims.len() == 0 {
        (deposited, tokens)
    } else {
        let claim = claims[0] as int;
        position_after_redemptions(
            after_redeem_deposited(deposited, tokens, claim),
            tokens - claim,
            claims.drop_first(),
        )
    }
}

/// A claim total is never negative.
proof fn lemma_sum_claims_nonneg(claims: Seq<u64>)
    ensures
        sum_claims(claims) >= 0,
    decreases claims.len(),
{
    if claims.len() > 0 {
        lemma_sum_claims_nonneg(claims.drop_first());
    }
}

/// Any sequence of partial redemptions whose amounts add up to the
/// position's whole claim-token balance ends with both the principal and the
/// claim-token balance at exactly zero: truncation residue accumulates in
/// the recorded principal along the way and the final redemption sweeps it.
pub proof fn lemma_full_redemption_clears_position(deposited: u64, tokens: u64, claims: Seq<u64>)
    requires
        tokens > 0,
        forall|i: int| 0 <= i < claims.len() ==> claims[i] > 0,
        sum_claims(claims) == tokens,
    ensures
        position_after_redemptions(deposited as int, tokens as int, claims) == (0int, 0int),
    decreases claims.len(),
{
    lemma_sum_claims_nonneg(claims);
    if claims.len() == 0 {
        assert(false);
    } else {
        let claim = claims[0];
        let rest = claims.drop_first();
        lemma_sum_claims_nonneg(rest);
        assert(claim <= tokens);
        if rest.len() == 0 {
            assert(claim == tokens);
            assert(after_redeem_deposited(deposited as int, tokens as int, claim as int) == 0);
            assert(position_after_redemptions(0int, 0int, rest) == (0int, 0int));
        } else {
            lemma_sum_claims_nonneg(rest.drop_first());
            assert(sum_claims(rest) == rest[0] + sum_claims(rest.drop_first()));
            assert(rest[0] == claims[1] && claims[1] > 0);
            assert(claim < tokens);
            lemma_share_le_whole(deposited, claim, tokens);
            let next_deposited = after_redeem_deposited(
                deposited as int,
                tokens as int,
                claim as int,
            );
            assert(0 <= next_deposited <= deposited);
            assert(forall|i: int| 0 <= i < rest.len() ==> rest[i] == claims[i + 1]);
            lemma_full_redemption_clears_position(
                next_deposited as u64,
                (tokens - claim) as u64,
                rest,
            );
        }
    }
}

} // verus!
