//! Marketplace order book: best-bid/best-ask tracking and the order
//! lifecycle (place and cancel). Each order owns an escrow holding the
//! side-appropriate asset; the escrow is controlled by the order record
//! itself, so locked funds move only through settlement or cancellation.

use crate::math::{lemma_scaled_value_ordered, mul_price, scaled_value, PRICE_SCALE};
use crate::strategy::Strategy;
use vstd::prelude::*;

verus! {

/// Order side tag: a bid for claim tokens, escrowing underlying.
pub const BUY_ORDER: u8 = 0;

/// Order side tag: an offer of claim tokens, escrowing them.
pub const SELL_ORDER: u8 = 1;

/// Highest accepted trading fee, in basis points (10%).
pub const MAX_FEE_BPS: u16 = 1_000;

/// Secondary market for one strategy's claim tokens, priced in the
/// strategy's underlying asset.
#[derive(Clone, Debug, PartialEq)]
pub struct Marketplace {
    /// Admin who manages the marketplace.
    pub admin: u64,
    /// Strategy whose claim tokens trade here.
    pub strategy: u64,
    /// Claim-asset identifier being traded.
    pub yield_token_mint: u64,
    /// Underlying asset used for pricing.
    pub underlying_token_mint: u64,
    /// Cumulative traded volume, in underlying units.
    pub total_volume: u64,
    /// Cumulative number of executed trades.
    pub total_trades: u64,
    /// Best known bid price, or 0 when unset. Prices are six-decimal
    /// fixed point (1_000_000 = 1.0 underlying per claim token). The best
    /// prices are an advisory ratchet: they improve on placement and are
    /// simply reset to 0, not recomputed, when the best order is cancelled,
    /// so they may be stale.
    pub best_bid_price: u64,
    /// Best known ask price, or 0 when unset; advisory, as above.
    pub best_ask_price: u64,
    /// Trading fee in basis points (100 = 1%).
    pub trading_fee_bps: u16,
    /// Whether trading is enabled.
    pub is_active: bool,
    /// When the marketplace was created.
    pub created_at: i64,
    /// Numeric id.
    pub marketplace_id: u64,
}

impl Marketplace {
    /// A well-formed marketplace: its fee was accepted at creation.
    pub open spec fn wf(self) -> bool {
        self.trading_fee_bps <= MAX_FEE_BPS
    }
}

/// One resting order on a marketplace.
#[derive(Clone, Debug, PartialEq)]
pub struct TradeOrder {
    /// User who placed the order.
    pub user: u64,
    /// Marketplace this order belongs to.
    pub marketplace: u64,
    /// `BUY_ORDER` or `SELL_ORDER`.
    pub order_type: u8,
    /// Requested quantity of claim tokens.
    pub yield_token_amount: u64,
    /// Limit price per claim token, six-decimal fixed point.
    pub price_per_token: u64,
    /// Order value in underlying units: quantity times price, de-scaled.
    pub total_value: u64,
    /// Quantity already filled.
    pub filled_amount: u64,
    /// Whether the order is still open.
    pub is_active: bool,
    /// When the order was created.
    pub created_at: i64,
    /// Numeric id.
    pub order_id: u64,
}

impl TradeOrder {
    /// A well-formed order never has more filled than it asked for.
    pub open spec fn wf(self) -> bool {
        self.filled_amount <= self.yield_token_amount
    }

    /// Whether the order can still take a fill.
    pub open spec fn spec_fillable(self) -> bool {
        self.is_active && self.filled_amount < self.yield_token_amount
    }

    /// Whether the order can still take a fill.
    pub fn is_fillable(&self) -> (r: bool)
        ensures
            r == self.spec_fillable(),
    {
        self.is_active && self.filled_amount < self.yield_token_amount
    }

    /// Unfilled claim-token quantity.
    pub fn remaining_amount(&self) -> (r: u64)
        requires
            self.wf(),
        ensures
            r == self.yield_token_amount - self.filled_amount,
    {
        self.yield_token_amount - self.filled_amount
    }

    /// The fee owed on a payment of `amount`, at `fee_bps` basis points,
    /// rounded down, in 128-bit width.
    pub fn calculate_fee(&self, amount: u64, fee_bps: u16) -> (r: u64)
        ensures
            r == crate::math::bps_portion(amount, fee_bps),
    {
        crate::math::mul_bps(amount, fee_bps)
    }
}

/// Monotonic counter handing out the next marketplace id.
#[derive(Clone, Debug, PartialEq)]
pub struct MarketplaceCounter {
    pub count: u64,
}

/// Monotonic counter handing out the next order id.
#[derive(Clone, Debug, PartialEq)]
pub struct OrderCounter {
    pub count: u64,
}

/// Rejections raised when creating a marketplace. The asset-mismatch
/// variants are raised by the embedding layer.
#[derive(Clone, Copy, Debug, PartialEq, Eq, Structural)]
pub enum MarketplaceError {
    Unauthorized,
    StrategyNotActive,
    WrongYieldTokenMint,
    WrongUnderlyingToken,
    FeeTooHigh,
}

/// Rejections raised when placing an order. The asset-mismatch variants are
/// raised by the embedding layer.
#[derive(Clone, Copy, Debug, PartialEq, Eq, Structural)]
pub enum OrderError {
    MarketplaceNotActive,
    WrongYieldTokenMint,
    WrongUnderlyingToken,
    WrongTokenAccount,
    InvalidAmount,
    InvalidPrice,
    InvalidOrderType,
    InsufficientBalance,
}

/// Rejections raised when cancelling an order.
#[derive(Clone, Copy, Debug, PartialEq, Eq, Structural)]
pub enum CancelError {
    UnauthorizedUser,
    OrderNotActive,
    OrderMarketplaceMismatch,
    NoRefundAvailable,
}

/// Creates the marketplace for `strategy`, binding its asset identifiers
/// from the strategy, with zeroed counters and unset best prices.
///
/// Only the strategy's admin may create it, the strategy must be active, and
/// the fee may not exceed `MAX_FEE_BPS`; a rejected request leaves the
/// counter untouched.
pub fn create_marketplace(
    strategy: &Strategy,
    admin: u64,
    marketplace_id: u64,
    trading_fee_bps: u16,
    now: i64,
    counter: &mut MarketplaceCounter,
) -> (r: Result<Marketplace, MarketplaceError>)
    requires
        strategy.admin == admin && strategy.is_active && trading_fee_bps <= MAX_FEE_BPS ==> old(
            counter,
        ).count < u64::MAX,
    ensures
        r == Err::<Marketplace, MarketplaceError>(MarketplaceError::Unauthorized) <==> strategy.admin
            != admin,
        r == Err::<Marketplace, MarketplaceError>(MarketplaceError::StrategyNotActive)
            <==> strategy.admin == admin && !strategy.is_active,
        r == Err::<Marketplace, MarketplaceError>(MarketplaceError::FeeTooHigh) <==> strategy.admin
            == admin && strategy.is_active && trading_fee_bps > MAX_FEE_BPS,
        r is Ok <==> strategy.admin == admin && strategy.is_active && trading_fee_bps
            <= MAX_FEE_BPS,
        r matches Ok(m) ==> m == (Marketplace {
            admin,
            strategy: strategy.strategy_id,
            yield_token_mint: strategy.yield_token_mint,
            underlying_token_mint: strategy.underlying_token,
            total_volume: 0,
            total_trades: 0,
            best_bid_price: 0,
            best_ask_price: 0,
            trading_fee_bps,
            is_active: true,
            created_at: now,
            marketplace_id,
        }),
        r matches Ok(m) ==> m.wf(),
        r is Ok ==> final(counter).count == old(counter).count + 1,
        r is Err ==> *final(counter) == *old(counter),
{
    if strategy.admin != admin {
        return Err(MarketplaceError::Unauthorized);
    }
    if !strategy.is_operational() {
        return Err(MarketplaceError::StrategyNotActive);
    }
    if trading_fee_bps > MAX_FEE_BPS {
        return Err(MarketplaceError::FeeTooHigh);
    }
    let marketplace = Marketplace {
        admin,
        strategy: strategy.strategy_id,
        yield_token_mint: strategy.yield_token_mint,
        underlying_token_mint: strategy.underlying_token,
        total_volume: 0,
        total_trades: 0,
        best_bid_price: 0,
        best_ask_price: 0,
        trading_fee_bps,
        is_active: true,
        created_at: now,
        marketplace_id,
    };
    counter.count = counter.count + 1;
    Ok(marketplace)
}

/// Whether an order request passes every validation check, including the
/// side-appropriate balance check: a sell must be backed by `quantity` claim
/// tokens, a buy by the order's de-scaled value in underlying tokens.
pub open spec fn order_permitted(
    marketplace: Marketplace,
    order_type: u8,
    quantity: u64,
    price: u64,
    yield_balance: u64,
    underlying_balance: u64,
) -> bool {
    &&& marketplace.is_active
    &&& quantity > 0
    &&& price > 0
    &&& (order_type == BUY_ORDER || order_type == SELL_ORDER)
    &&& if order_type == SELL_ORDER {
        yield_balance >= quantity
    } else {
        underlying_balance >= scaled_value(quantity, price)
    }
}

/// Places an order: locks the side-appropriate asset in the order's escrow
/// and ratchets the marketplace's best price if the new order improves it.
///
/// On success the caller owes the transfer service one movement into the
/// fresh escrow: `yield_token_amount` claim tokens for a sell, or the
/// order's `total_value` underlying for a buy. A rejected request leaves the
/// marketplace and the counter untouched.
pub fn place_order(
    marketplace: &mut Marketplace,
    counter: &mut OrderCounter,
    user: u64,
    order_id: u64,
    order_type: u8,
    yield_token_amount: u64,
    price_per_token: u64,
    user_yield_token_balance: u64,
    user_underlying_balance: u64,
    now: i64,
) -> (r: Result<TradeOrder, OrderError>)
    requires
        order_permitted(
            *old(marketplace),
            order_type,
            yield_token_amount,
            price_per_token,
            user_yield_token_balance,
            user_underlying_balance,
        ) ==> old(counter).count < u64::MAX,
    ensures
        r == Err::<TradeOrder, OrderError>(OrderError::MarketplaceNotActive) <==> !old(
            marketplace,
        ).is_active,
        r == Err::<TradeOrder, OrderError>(OrderError::InvalidAmount) <==> old(
            marketplace,
        ).is_active && yield_token_amount == 0,
        r == Err::<TradeOrder, OrderError>(OrderError::InvalidPrice) <==> old(
            marketplace,
        ).is_active && yield_token_amount > 0 && price_per_token == 0,
        r == Err::<TradeOrder, OrderError>(OrderError::InvalidOrderType) <==> old(
            marketplace,
        ).is_active && yield_token_amount > 0 && price_per_token > 0 && order_type != BUY_ORDER
            && order_type != SELL_ORDER,
        r == Err::<TradeOrder, OrderError>(OrderError::InsufficientBalance) <==> old(
            marketplace,
        ).is_active && yield_token_amount > 0 && price_per_token > 0 && (order_type == BUY_ORDER
            || order_type == SELL_ORDER) && (if order_type == SELL_ORDER {
            user_yield_token_balance < yield_token_amount
        } else {
            user_underlying_balance < scaled_value(yield_token_amount, price_per_token)
        }),
        r is Ok <==> order_permitted(
            *old(marketplace),
            order_type,
            yield_token_amount,
            price_per_token,
            user_yield_token_balance,
            user_underlying_balance,
        ),
        r matches Ok(o) ==> o == (TradeOrder {
            user,
            marketplace: old(marketplace).marketplace_id,
            order_type,
            yield_token_amount,
            price_per_token,
            total_value: scaled_value(yield_token_amount, price_per_token) as u64,
            filled_amount: 0,
            is_active: true,
            created_at: now,
            order_id,
        }),
        r matches Ok(o) ==> o.wf() && o.spec_fillable(),
        r is Ok ==> *final(marketplace) == (Marketplace {
            best_bid_price: if order_type == BUY_ORDER && (old(marketplace).best_bid_price == 0
                || price_per_token > old(marketplace).best_bid_price) {
                price_per_token
            } else {
                old(marketplace).best_bid_price
            },
            best_ask_price: if order_type == SELL_ORDER && (old(marketplace).best_ask_price == 0
                || price_per_token < old(marketplace).best_ask_price) {
                price_per_token
            } else {
                old(marketplace).best_ask_price
            },
            ..*old(marketplace)
        }),
        r is Ok ==> final(counter).count == old(counter).count + 1,
        r is Err ==> *final(marketplace) == *old(marketplace) && *final(counter) == *old(counter),
{
    if !marketplace.is_active {
        return Err(OrderError::MarketplaceNotActive);
    }
    if yield_token_amount == 0 {
        return Err(OrderError::InvalidAmount);
    }
    if price_per_token == 0 {
        return Err(OrderError::InvalidPrice);
    }
    if order_type != BUY_ORDER && order_type != SELL_ORDER {
        return Err(OrderError::InvalidOrderType);
    }
    let total_value: u64 = mul_price(yield_token_amount, price_per_token);
    if order_type == SELL_ORDER {
        if user_yield_token_balance < yield_token_amount {
            return Err(OrderError::InsufficientBalance);
        }
    } else {
        if user_underlying_balance < total_value {
            return Err(OrderError::InsufficientBalance);
        }
    }
    let order = TradeOrder {
        user,
        marketplace: marketplace.marketplace_id,
        order_type,
        yield_token_amount,
        price_per_token,
        total_value,
        filled_amount: 0,
        is_active: true,
        created_at: now,
        order_id,
    };
    if order_type == BUY_ORDER {
        if marketplace.best_bid_price == 0 || price_per_token > marketplace.best_bid_price {
            marketplace.best_bid_price = price_per_token;
        }
    } else {
        if marketplace.best_ask_price == 0 || price_per_token < marketplace.best_ask_price {
            marketplace.best_ask_price = price_per_token;
        }
    }
    counter.count = counter.count + 1;
    Ok(order)
}

/// The underlying value already spent by a buy order's fills, derived from
/// the filled quantity at the order's limit price.
pub open spec fn filled_value(order: TradeOrder) -> int {
    scaled_value(order.filled_amount, order.price_per_token)
}

/// The escrowed remainder a cancellation refunds: the unfilled underlying
/// value for a buy order, the unfilled claim-token quantity for a sell.
pub open spec fn cancel_refund(order: TradeOrder) -> int {
    if order.order_type == BUY_ORDER {
        order.total_value - filled_value(order)
    } else {
        order.yield_token_amount - order.filled_amount
    }
}

/// An order as `place_order` creates it meets `cancel_order`'s escrow
/// precondition: as long as the fill stays within the quantity and the
/// order's full de-scaled value fits its 64-bit field, the value already
/// spent by fills cannot exceed the value locked at placement.
pub proof fn lemma_fill_value_within_total(order: TradeOrder)
    requires
        order.total_value == scaled_value(order.yield_token_amount, order.price_per_token),
        order.wf(),
        (order.yield_token_amount * order.price_per_token) / (PRICE_SCALE as int)
            < 0x1_0000_0000_0000_0000,
    ensures
        filled_value(order) <= order.total_value,
{
    lemma_scaled_value_ordered(
        order.filled_amount,
        order.yield_token_amount,
        order.price_per_token,
    );
}

/// Cancels an order: computes the unfilled escrowed remainder, deactivates
/// the order, and zeroes the marketplace's best price if the cancelled order
/// held it (the book is not rescanned; the best price becomes unset).
///
/// On success the caller owes the transfer service one movement out of the
/// order's escrow back to its owner: the returned amount, in underlying
/// tokens for a buy order and claim tokens for a sell order. A rejection
/// leaves both records untouched.
pub fn cancel_order(
    marketplace: &mut Marketplace,
    order: &mut TradeOrder,
    user: u64,
) -> (r: Result<u64, CancelError>)
    requires
        old(order).user == user && old(order).is_active && old(order).marketplace == old(
            marketplace,
        ).marketplace_id ==> old(order).wf() && (old(order).order_type == BUY_ORDER ==> filled_value(
            *old(order),
        ) <= old(order).total_value),
    ensures
        r == Err::<u64, CancelError>(CancelError::UnauthorizedUser) <==> old(order).user != user,
        r == Err::<u64, CancelError>(CancelError::OrderNotActive) <==> old(order).user == user
            && !old(order).is_active,
        r == Err::<u64, CancelError>(CancelError::OrderMarketplaceMismatch) <==> old(order).user
            == user && old(order).is_active && old(order).marketplace != old(
            marketplace,
        ).marketplace_id,
        r == Err::<u64, CancelError>(CancelError::NoRefundAvailable) <==> old(order).user == user
            && old(order).is_active && old(order).marketplace == old(marketplace).marketplace_id
            && old(order).filled_amount == old(order).yield_token_amount,
        r is Ok <==> old(order).user == user && old(order).is_active && old(order).marketplace
            == old(marketplace).marketplace_id && old(order).filled_amount < old(
            order,
        ).yield_token_amount,
        r matches Ok(refund) ==> refund == cancel_refund(*old(order)),
        r is Ok ==> *final(order) == (TradeOrder { is_active: false, ..*old(order) }),
        r is Ok ==> *final(marketplace) == (Marketplace {
            best_bid_price: if old(order).order_type == BUY_ORDER && old(order).price_per_token
                == old(marketplace).best_bid_price {
                0
            } else {
                old(marketplace).best_bid_price
            },
            best_ask_price: if old(order).order_type != BUY_ORDER && old(order).order_type
                == SELL_ORDER && old(order).price_per_token == old(marketplace).best_ask_price {
                0
            } else {
                old(marketplace).best_ask_price
            },
            ..*old(marketplace)
        }),
        r is Err ==> *final(marketplace) == *old(marketplace) && *final(order) == *old(order),
{
    if order.user != user {
        return Err(CancelError::UnauthorizedUser);
    }
    if !order.is_active {
        return Err(CancelError::OrderNotActive);
    }
    if order.marketplace != marketplace.marketplace_id {
        return Err(CancelError::OrderMarketplaceMismatch);
    }
    let refund_amount: u64 = order.remaining_amount();
    if refund_amount == 0 {
        return Err(CancelError::NoRefundAvailable);
    }
    let actual_refund: u64 = if order.order_type == BUY_ORDER {
        let total_locked: u64 = order.total_value;
        let filled: u64 = mul_price(order.filled_amount, order.price_per_token);
        total_locked - filled
    } else {
        refund_amount
    };
    order.is_active = false;
    if order.order_type == BUY_ORDER && order.price_per_token == marketplace.best_bid_price {
        marketplace.best_bid_price = 0;
    } else if order.order_type == SELL_ORDER && order.price_per_token
        == marketplace.best_ask_price {
        marketplace.best_ask_price = 0;
    }
    Ok(actual_refund)
}

} // verus!
