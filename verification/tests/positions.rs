use yieldos::position::{
    claim_yield, deposit_to_strategy, redeem_yield_tokens, withdraw_from_strategy, ClaimError,
    DepositError, RedeemError, UserPosition, WithdrawError,
};
use yieldos::strategy::Strategy;

fn position_strategy(apy: u64) -> Strategy {
    Strategy {
        admin: 1,
        underlying_token: 2,
        yield_token_mint: 3,
        name: String::from("staking"),
        apy,
        total_deposits: 0,
        is_active: true,
        created_at: 0,
        total_yield_tokens_minted: 0,
        strategy_id: 7,
    }
}

fn empty_position() -> UserPosition {
    UserPosition {
        user: 0,
        strategy: 0,
        deposited_amount: 0,
        yield_tokens_minted: 0,
        deposit_time: 0,
        last_yield_claim: 0,
        total_yield_claimed: 0,
        position_id: 0,
    }
}

#[test]
fn deposit_initializes_position_and_aggregates() {
    let mut strategy = position_strategy(1000);
    let mut position = empty_position();
    let minted = deposit_to_strategy(&mut strategy, &mut position, 10, 5_000, 100).unwrap();
    assert_eq!(minted, 5_000);
    assert_eq!(position.user, 10);
    assert_eq!(position.strategy, 7);
    assert_eq!(position.deposited_amount, 5_000);
    assert_eq!(position.yield_tokens_minted, 5_000);
    assert_eq!(position.deposit_time, 100);
    assert_eq!(position.last_yield_claim, 100);
    assert_eq!(position.total_yield_claimed, 0);
    assert_eq!(position.position_id, 0);
    assert_eq!(strategy.total_deposits, 5_000);
    assert_eq!(strategy.total_yield_tokens_minted, 5_000);
}

#[test]
fn deposit_rejects_zero_amount() {
    let mut strategy = position_strategy(1000);
    let mut position = empty_position();
    let before_strategy = strategy.clone();
    let before_position = position.clone();
    let r = deposit_to_strategy(&mut strategy, &mut position, 10, 0, 100);
    assert_eq!(r.unwrap_err(), DepositError::InvalidAmount);
    assert_eq!(strategy, before_strategy);
    assert_eq!(position, before_position);
}

#[test]
fn deposit_rejects_inactive_strategy() {
    let mut strategy = position_strategy(1000);
    strategy.is_active = false;
    let mut position = empty_position();
    let before_strategy = strategy.clone();
    let r = deposit_to_strategy(&mut strategy, &mut position, 10, 5_000, 100);
    assert_eq!(r.unwrap_err(), DepositError::StrategyNotActive);
    assert_eq!(strategy, before_strategy);
}

#[test]
fn claim_mints_accrued_yield_and_advances_checkpoint() {
    let mut strategy = position_strategy(1000);
    let mut position = empty_position();
    deposit_to_strategy(&mut strategy, &mut position, 10, 1_000_000, 0).unwrap();
    let aggregates_before = (strategy.total_deposits, strategy.total_yield_tokens_minted);
    let claimed = claim_yield(&strategy, &mut position, 10, 31_536_000).unwrap();
    assert_eq!(claimed, 100_000);
    assert_eq!(position.last_yield_claim, 31_536_000);
    assert_eq!(position.total_yield_claimed, 100_000);
    assert_eq!(position.yield_tokens_minted, 1_100_000);
    assert_eq!(position.deposited_amount, 1_000_000);
    // A claim expands the claim-token supply without touching the strategy.
    assert_eq!(
        (strategy.total_deposits, strategy.total_yield_tokens_minted),
        aggregates_before
    );
}

#[test]
fn claim_rejects_when_nothing_accrued() {
    let mut strategy = position_strategy(1000);
    let mut position = empty_position();
    deposit_to_strategy(&mut strategy, &mut position, 10, 1_000_000, 0).unwrap();
    let before = position.clone();
    let r = claim_yield(&strategy, &mut position, 10, 0);
    assert_eq!(r.unwrap_err(), ClaimError::NoYieldToClaim);
    assert_eq!(position, before);
    // Elapsed time too short for any yield truncates to zero and is rejected.
    let r = claim_yield(&strategy, &mut position, 10, 1);
    assert_eq!(r.unwrap_err(), ClaimError::NoYieldToClaim);
}

#[test]
fn claim_rejects_other_users() {
    let mut strategy = position_strategy(1000);
    let mut position = empty_position();
    deposit_to_strategy(&mut strategy, &mut position, 10, 1_000_000, 0).unwrap();
    let r = claim_yield(&strategy, &mut position, 11, 31_536_000);
    assert_eq!(r.unwrap_err(), ClaimError::UnauthorizedUser);
}

#[test]
fn withdraw_reduces_both_principal_totals() {
    let mut strategy = position_strategy(1000);
    let mut position = empty_position();
    deposit_to_strategy(&mut strategy, &mut position, 10, 5_000, 100).unwrap();
    withdraw_from_strategy(&mut strategy, &mut position, 10, 2_000).unwrap();
    assert_eq!(position.deposited_amount, 3_000);
    assert_eq!(strategy.total_deposits, 3_000);
    assert_eq!(position.yield_tokens_minted, 5_000);
}

#[test]
fn withdraw_rejects_overdraw_and_leaves_state_unchanged() {
    let mut strategy = position_strategy(1000);
    let mut position = empty_position();
    deposit_to_strategy(&mut strategy, &mut position, 10, 5_000, 100).unwrap();
    let before_strategy = strategy.clone();
    let before_position = position.clone();
    let r = withdraw_from_strategy(&mut strategy, &mut position, 10, 5_001);
    assert_eq!(r.unwrap_err(), WithdrawError::InsufficientBalance);
    assert_eq!(strategy, before_strategy);
    assert_eq!(position, before_position);
}

#[test]
fn withdraw_rejects_zero_amount() {
    let mut strategy = position_strategy(1000);
    let mut position = empty_position();
    deposit_to_strategy(&mut strategy, &mut position, 10, 5_000, 100).unwrap();
    let r = withdraw_from_strategy(&mut strategy, &mut position, 10, 0);
    assert_eq!(r.unwrap_err(), WithdrawError::InvalidAmount);
}

#[test]
fn immediate_full_redemption_returns_exact_principal() {
    let mut strategy = position_strategy(1000);
    let mut position = empty_position();
    deposit_to_strategy(&mut strategy, &mut position, 10, 5_000, 100).unwrap();
    let o = redeem_yield_tokens(&mut strategy, &mut position, 10, 5_000, 5_000, 100).unwrap();
    assert_eq!(o.principal_returned, 5_000);
    assert_eq!(o.yield_returned, 0);
    assert_eq!(o.total_payout, 5_000);
    assert_eq!(position.deposited_amount, 0);
    assert_eq!(position.yield_tokens_minted, 0);
    assert_eq!(position.total_yield_claimed, 0);
    assert_eq!(position.last_yield_claim, 100);
    assert_eq!(strategy.total_deposits, 0);
    assert_eq!(strategy.total_yield_tokens_minted, 0);
}

#[test]
fn redemption_after_a_year_pays_proportional_yield() {
    let mut strategy = position_strategy(1000);
    let mut position = empty_position();
    deposit_to_strategy(&mut strategy, &mut position, 10, 1_000_000, 0).unwrap();
    let o = redeem_yield_tokens(&mut strategy, &mut position, 10, 500_000, 1_000_000, 31_536_000)
        .unwrap();
    assert_eq!(o.principal_returned, 500_000);
    // Lifetime yield is 100_000; half the claim tokens take half of it.
    assert_eq!(o.yield_returned, 50_000);
    assert_eq!(o.total_payout, 550_000);
    assert_eq!(position.deposited_amount, 500_000);
    assert_eq!(position.yield_tokens_minted, 500_000);
    assert_eq!(strategy.total_deposits, 500_000);
    assert_eq!(strategy.total_yield_tokens_minted, 500_000);
}

#[test]
fn partial_redemptions_summing_to_all_tokens_clear_the_position() {
    let mut strategy = position_strategy(1000);
    let mut position = empty_position();
    deposit_to_strategy(&mut strategy, &mut position, 10, 10, 100).unwrap();
    let first = redeem_yield_tokens(&mut strategy, &mut position, 10, 3, 10, 100).unwrap();
    assert_eq!(first.principal_returned, 3);
    assert_eq!((position.deposited_amount, position.yield_tokens_minted), (7, 7));
    let second = redeem_yield_tokens(&mut strategy, &mut position, 10, 3, 7, 100).unwrap();
    assert_eq!(second.principal_returned, 3);
    assert_eq!((position.deposited_amount, position.yield_tokens_minted), (4, 4));
    let third = redeem_yield_tokens(&mut strategy, &mut position, 10, 4, 4, 100).unwrap();
    assert_eq!(third.principal_returned, 4);
    assert_eq!((position.deposited_amount, position.yield_tokens_minted), (0, 0));
    assert_eq!(strategy.total_deposits, 0);
    assert_eq!(strategy.total_yield_tokens_minted, 0);
}

#[test]
fn redemption_rounds_principal_share_down() {
    let mut strategy = position_strategy(0);
    let mut position = empty_position();
    deposit_to_strategy(&mut strategy, &mut position, 10, 100, 0).unwrap();
    // 100 * 3 / 100 == 3 exactly, but 10 * 3 / 100 == 0 on a small position.
    let o = redeem_yield_tokens(&mut strategy, &mut position, 10, 3, 100, 0).unwrap();
    assert_eq!(o.principal_returned, 3);
    let mut small = position_strategy(0);
    let mut small_pos = empty_position();
    deposit_to_strategy(&mut small, &mut small_pos, 10, 10, 0).unwrap();
    small_pos.yield_tokens_minted = 100;
    let o = redeem_yield_tokens(&mut small, &mut small_pos, 10, 3, 100, 0).unwrap();
    assert_eq!(o.principal_returned, 0);
    assert_eq!(small_pos.deposited_amount, 10);
    assert_eq!(small_pos.yield_tokens_minted, 97);
}

#[test]
fn redemption_error_cases() {
    let mut strategy = position_strategy(1000);
    let mut position = empty_position();
    deposit_to_strategy(&mut strategy, &mut position, 10, 5_000, 100).unwrap();

    let r = redeem_yield_tokens(&mut strategy, &mut position, 11, 1_000, 1_000, 100);
    assert_eq!(r.unwrap_err(), RedeemError::UnauthorizedUser);

    let r = redeem_yield_tokens(&mut strategy, &mut position, 10, 0, 1_000, 100);
    assert_eq!(r.unwrap_err(), RedeemError::InvalidAmount);

    let r = redeem_yield_tokens(&mut strategy, &mut position, 10, 1_000, 999, 100);
    assert_eq!(r.unwrap_err(), RedeemError::InsufficientYieldTokens);

    let mut empty = empty_position();
    empty.user = 10;
    let r = redeem_yield_tokens(&mut strategy, &mut empty, 10, 1_000, 1_000, 100);
    assert_eq!(r.unwrap_err(), RedeemError::NoPosition);

    strategy.is_active = false;
    let r = redeem_yield_tokens(&mut strategy, &mut position, 10, 1_000, 1_000, 100);
    assert_eq!(r.unwrap_err(), RedeemError::StrategyNotActive);
}

#[test]
fn withdraw_rejects_inactive_strategy_and_other_users() {
    let mut strategy = position_strategy(1000);
    let mut position = empty_position();
    deposit_to_strategy(&mut strategy, &mut position, 10, 5_000, 100).unwrap();
    let r = withdraw_from_strategy(&mut strategy, &mut position, 11, 1_000);
    assert_eq!(r.unwrap_err(), WithdrawError::UnauthorizedUser);
    strategy.is_active = false;
    let r = withdraw_from_strategy(&mut strategy, &mut position, 10, 1_000);
    assert_eq!(r.unwrap_err(), WithdrawError::StrategyNotActive);
}
