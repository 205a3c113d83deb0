use yieldos::marketplace::{
    cancel_order, create_marketplace, place_order, CancelError, Marketplace, MarketplaceCounter,
    MarketplaceError, OrderCounter, OrderError, TradeOrder, BUY_ORDER, SELL_ORDER,
};
use yieldos::strategy::Strategy;

fn market_strategy() -> Strategy {
    Strategy {
        admin: 1,
        underlying_token: 2,
        yield_token_mint: 3,
        name: String::from("staking"),
        apy: 1000,
        total_deposits: 0,
        is_active: true,
        created_at: 0,
        total_yield_tokens_minted: 0,
        strategy_id: 7,
    }
}

fn open_market() -> Marketplace {
    Marketplace {
        admin: 1,
        strategy: 7,
        yield_token_mint: 3,
        underlying_token_mint: 2,
        total_volume: 0,
        total_trades: 0,
        best_bid_price: 0,
        best_ask_price: 0,
        trading_fee_bps: 100,
        is_active: true,
        created_at: 0,
        marketplace_id: 40,
    }
}

#[test]
fn create_marketplace_binds_assets_from_strategy() {
    let strategy = market_strategy();
    let mut counter = MarketplaceCounter { count: 0 };
    let m = create_marketplace(&strategy, 1, 40, 100, 99, &mut counter).unwrap();
    assert_eq!(m.admin, 1);
    assert_eq!(m.strategy, 7);
    assert_eq!(m.yield_token_mint, 3);
    assert_eq!(m.underlying_token_mint, 2);
    assert_eq!(m.total_volume, 0);
    assert_eq!(m.total_trades, 0);
    assert_eq!(m.best_bid_price, 0);
    assert_eq!(m.best_ask_price, 0);
    assert_eq!(m.trading_fee_bps, 100);
    assert!(m.is_active);
    assert_eq!(m.created_at, 99);
    assert_eq!(m.marketplace_id, 40);
    assert_eq!(counter.count, 1);
}

#[test]
fn create_marketplace_rejections() {
    let mut strategy = market_strategy();
    let mut counter = MarketplaceCounter { count: 0 };

    let r = create_marketplace(&strategy, 99, 40, 100, 0, &mut counter);
    assert_eq!(r.unwrap_err(), MarketplaceError::Unauthorized);

    let r = create_marketplace(&strategy, 1, 40, 1_001, 0, &mut counter);
    assert_eq!(r.unwrap_err(), MarketplaceError::FeeTooHigh);

    strategy.is_active = false;
    let r = create_marketplace(&strategy, 1, 40, 100, 0, &mut counter);
    assert_eq!(r.unwrap_err(), MarketplaceError::StrategyNotActive);

    assert_eq!(counter.count, 0);
}

#[test]
fn place_buy_order_locks_descaled_value() {
    let mut market = open_market();
    let mut counter = OrderCounter { count: 0 };
    let o = place_order(&mut market, &mut counter, 10, 1, BUY_ORDER, 100, 2_000_000, 0, 200, 5)
        .unwrap();
    assert_eq!(o.user, 10);
    assert_eq!(o.marketplace, 40);
    assert_eq!(o.order_type, BUY_ORDER);
    assert_eq!(o.yield_token_amount, 100);
    assert_eq!(o.price_per_token, 2_000_000);
    assert_eq!(o.total_value, 200);
    assert_eq!(o.filled_amount, 0);
    assert!(o.is_active);
    assert_eq!(o.created_at, 5);
    assert_eq!(o.order_id, 1);
    assert_eq!(market.best_bid_price, 2_000_000);
    assert_eq!(market.best_ask_price, 0);
    assert_eq!(counter.count, 1);
}

#[test]
fn place_sell_order_locks_quantity() {
    let mut market = open_market();
    let mut counter = OrderCounter { count: 0 };
    let o = place_order(&mut market, &mut counter, 11, 2, SELL_ORDER, 50, 1_500_000, 50, 0, 5)
        .unwrap();
    assert_eq!(o.order_type, SELL_ORDER);
    assert_eq!(o.total_value, 75);
    assert_eq!(market.best_ask_price, 1_500_000);
    assert_eq!(market.best_bid_price, 0);
}

#[test]
fn best_prices_ratchet_only_on_improvement() {
    let mut market = open_market();
    let mut counter = OrderCounter { count: 0 };
    place_order(&mut market, &mut counter, 10, 1, BUY_ORDER, 10, 1_000_000, 0, 100, 0).unwrap();
    assert_eq!(market.best_bid_price, 1_000_000);
    // A lower bid does not displace the best bid.
    place_order(&mut market, &mut counter, 10, 2, BUY_ORDER, 10, 900_000, 0, 100, 0).unwrap();
    assert_eq!(market.best_bid_price, 1_000_000);
    // A higher bid does.
    place_order(&mut market, &mut counter, 10, 3, BUY_ORDER, 10, 1_100_000, 0, 100, 0).unwrap();
    assert_eq!(market.best_bid_price, 1_100_000);
    place_order(&mut market, &mut counter, 11, 4, SELL_ORDER, 10, 2_000_000, 10, 0, 0).unwrap();
    assert_eq!(market.best_ask_price, 2_000_000);
    place_order(&mut market, &mut counter, 11, 5, SELL_ORDER, 10, 2_500_000, 10, 0, 0).unwrap();
    assert_eq!(market.best_ask_price, 2_000_000);
    place_order(&mut market, &mut counter, 11, 6, SELL_ORDER, 10, 1_800_000, 10, 0, 0).unwrap();
    assert_eq!(market.best_ask_price, 1_800_000);
    assert_eq!(counter.count, 6);
}

#[test]
fn place_order_validation_errors() {
    let mut market = open_market();
    let mut counter = OrderCounter { count: 0 };
    let before = market.clone();

    let r = place_order(&mut market, &mut counter, 10, 1, BUY_ORDER, 0, 1_000_000, 0, 100, 0);
    assert_eq!(r.unwrap_err(), OrderError::InvalidAmount);

    let r = place_order(&mut market, &mut counter, 10, 1, BUY_ORDER, 10, 0, 0, 100, 0);
    assert_eq!(r.unwrap_err(), OrderError::InvalidPrice);

    let r = place_order(&mut market, &mut counter, 10, 1, 2, 10, 1_000_000, 0, 100, 0);
    assert_eq!(r.unwrap_err(), OrderError::InvalidOrderType);

    market.is_active = false;
    let r = place_order(&mut market, &mut counter, 10, 1, BUY_ORDER, 10, 1_000_000, 0, 100, 0);
    assert_eq!(r.unwrap_err(), OrderError::MarketplaceNotActive);
    market.is_active = true;

    assert_eq!(market, before);
    assert_eq!(counter.count, 0);
}

#[test]
fn place_order_checks_side_appropriate_balance() {
    let mut market = open_market();
    let mut counter = OrderCounter { count: 0 };
    // A buy of 100 at 2.0 needs 200 underlying; 199 is short.
    let r = place_order(&mut market, &mut counter, 10, 1, BUY_ORDER, 100, 2_000_000, 0, 199, 0);
    assert_eq!(r.unwrap_err(), OrderError::InsufficientBalance);
    // A sell of 50 needs 50 claim tokens; 49 is short.
    let r = place_order(&mut market, &mut counter, 11, 2, SELL_ORDER, 50, 1_500_000, 49, 0, 0);
    assert_eq!(r.unwrap_err(), OrderError::InsufficientBalance);
    assert_eq!(counter.count, 0);
}

#[test]
fn cancel_partially_filled_buy_refunds_unfilled_value() {
    let mut market = open_market();
    let mut order = TradeOrder {
        user: 10,
        marketplace: 40,
        order_type: BUY_ORDER,
        yield_token_amount: 200,
        price_per_token: 1_000_000,
        total_value: 200,
        filled_amount: 75,
        is_active: true,
        created_at: 0,
        order_id: 1,
    };
    let refund = cancel_order(&mut market, &mut order, 10).unwrap();
    assert_eq!(refund, 125);
    assert!(!order.is_active);
    assert_eq!(order.filled_amount, 75);
}

#[test]
fn cancel_sell_refunds_unfilled_quantity() {
    let mut market = open_market();
    let mut order = TradeOrder {
        user: 11,
        marketplace: 40,
        order_type: SELL_ORDER,
        yield_token_amount: 50,
        price_per_token: 1_500_000,
        total_value: 75,
        filled_amount: 20,
        is_active: true,
        created_at: 0,
        order_id: 2,
    };
    let refund = cancel_order(&mut market, &mut order, 11).unwrap();
    assert_eq!(refund, 30);
    assert!(!order.is_active);
}

#[test]
fn cancel_resets_best_price_held_by_the_order() {
    let mut market = open_market();
    let mut counter = OrderCounter { count: 0 };
    let mut best_bid =
        place_order(&mut market, &mut counter, 10, 1, BUY_ORDER, 10, 1_000_000, 0, 100, 0).unwrap();
    let mut other_ask =
        place_order(&mut market, &mut counter, 11, 2, SELL_ORDER, 10, 2_000_000, 10, 0, 0).unwrap();
    cancel_order(&mut market, &mut best_bid, 10).unwrap();
    // The best bid is zeroed, not recomputed; the ask side is untouched.
    assert_eq!(market.best_bid_price, 0);
    assert_eq!(market.best_ask_price, 2_000_000);
    cancel_order(&mut market, &mut other_ask, 11).unwrap();
    assert_eq!(market.best_ask_price, 0);
}

#[test]
fn cancel_keeps_best_price_of_other_orders() {
    let mut market = open_market();
    let mut counter = OrderCounter { count: 0 };
    place_order(&mut market, &mut counter, 10, 1, BUY_ORDER, 10, 1_000_000, 0, 100, 0).unwrap();
    let mut lower =
        place_order(&mut market, &mut counter, 10, 2, BUY_ORDER, 10, 900_000, 0, 100, 0).unwrap();
    cancel_order(&mut market, &mut lower, 10).unwrap();
    assert_eq!(market.best_bid_price, 1_000_000);
}

#[test]
fn cancel_rejections() {
    let mut market = open_market();
    let order_template = TradeOrder {
        user: 10,
        marketplace: 40,
        order_type: BUY_ORDER,
        yield_token_amount: 10,
        price_per_token: 1_000_000,
        total_value: 10,
        filled_amount: 0,
        is_active: true,
        created_at: 0,
        order_id: 1,
    };

    let mut order = order_template.clone();
    let r = cancel_order(&mut market, &mut order, 99);
    assert_eq!(r.unwrap_err(), CancelError::UnauthorizedUser);

    let mut order = order_template.clone();
    order.is_active = false;
    let r = cancel_order(&mut market, &mut order, 10);
    assert_eq!(r.unwrap_err(), CancelError::OrderNotActive);

    let mut order = order_template.clone();
    order.marketplace = 41;
    let r = cancel_order(&mut market, &mut order, 10);
    assert_eq!(r.unwrap_err(), CancelError::OrderMarketplaceMismatch);

    let mut order = order_template.clone();
    order.filled_amount = 10;
    let r = cancel_order(&mut market, &mut order, 10);
    assert_eq!(r.unwrap_err(), CancelError::NoRefundAvailable);
    assert!(order.is_active);
}
