//! Trade settlement engine: matches a buy and a sell order, computes the
//! fill, payment and fee amounts, and commits the fill to both orders and
//! the marketplace counters.

use crate::marketplace::{Marketplace, TradeOrder, BUY_ORDER, SELL_ORDER};
use crate::math::{bps_portion, lemma_bps_portion_le, mul_bps, mul_price, scaled_value};
use vstd::prelude::*;

verus! {

/// Rejections raised when executing a trade.
#[derive(Clone, Copy, Debug, PartialEq, Eq, Structural)]
pub enum TradeError {
    InvalidBuyOrder,
    InvalidSellOrder,
    OrderNotFillable,
    OrderMarketplaceMismatch,
    PriceMismatch,
    InvalidTradeAmount,
    NoTradeableAmount,
}

/// The token movements a successful trade owes the transfer service:
/// `amount` claim tokens from the sell order's escrow to the buyer,
/// `net_payment` underlying from the buy order's escrow to the seller, and
/// `fee` underlying from the buy order's escrow to the marketplace's fee
/// account (skipped entirely when the fee is zero). Each escrow is moved by
/// its own derived authority, never by the executor.
#[derive(Clone, Copy, Debug, PartialEq, Eq, Structural)]
pub struct TradeFill {
    /// Claim tokens actually traded.
    pub amount: u64,
    /// Clearing price: always the sell order's price.
    pub execution_price: u64,
    /// Underlying paid by the buyer: `amount` at the execution price.
    pub total_payment: u64,
    /// Marketplace fee taken out of the payment.
    pub fee: u64,
    /// Underlying the seller receives: `total_payment - fee`.
    pub net_payment: u64,
}

/// Whether a settlement request passes every precondition: correctly-sided,
/// fillable orders on this marketplace, a crossing price, and a positive
/// requested amount.
pub open spec fn trade_permitted(
    marketplace: Marketplace,
    buy: TradeOrder,
    sell: TradeOrder,
    requested: u64,
) -> bool {
    &&& buy.order_type == BUY_ORDER
    &&& buy.spec_fillable()
    &&& buy.marketplace == marketplace.marketplace_id
    &&& sell.order_type == SELL_ORDER
    &&& sell.spec_fillable()
    &&& sell.marketplace == marketplace.marketplace_id
    &&& sell.price_per_token <= buy.price_per_token
    &&& requested > 0
}

/// The quantity a trade actually fills: the requested amount, capped by
/// what remains open on each order.
pub open spec fn fill_quantity(buy: TradeOrder, sell: TradeOrder, requested: u64) -> u64 {
    let buy_rem = (buy.yield_token_amount - buy.filled_amount) as u64;
    let sell_rem = (sell.yield_token_amount - sell.filled_amount) as u64;
    if requested <= buy_rem && requested <= sell_rem {
        requested
    } else if buy_rem <= sell_rem {
        buy_rem
    } else {
        sell_rem
    }
}

/// The underlying the buyer pays: the filled quantity at the sell order's
/// price, de-scaled.
pub open spec fn trade_payment(buy: TradeOrder, sell: TradeOrder, requested: u64) -> int {
    scaled_value(fill_quantity(buy, sell, requested), sell.price_per_token)
}

/// The marketplace's cut of the payment, in its fee basis points.
pub open spec fn trade_fee(
    marketplace: Marketplace,
    buy: TradeOrder,
    sell: TradeOrder,
    requested: u64,
) -> int {
    bps_portion(trade_payment(buy, sell, requested) as u64, marketplace.trading_fee_bps)
}

/// Fee conservation: for any payment and any fee rate a marketplace can
/// carry, the fee taken and the net remainder recompose the payment exactly.
pub proof fn lemma_fee_conservation(payment: u64, fee_bps: u16)
    requires
        fee_bps <= crate::marketplace::MAX_FEE_BPS,
    ensures
        0 <= bps_portion(payment, fee_bps) <= payment,
        payment == (payment - bps_portion(payment, fee_bps)) + bps_portion(payment, fee_bps),
{
    lemma_bps_portion_le(payment, fee_bps);
}

/// Matches `buy_order` against `sell_order` for up to `trade_amount` claim
/// tokens.
///
/// The fill is `trade_amount` capped by both orders' remainders; the
/// clearing price is always the sell order's price (favoring the buyer when
/// prices cross); the fee comes out of the buyer's payment and the seller
/// receives the rest, exactly: `total_payment == net_payment + fee`. Filled
/// amounts only grow, and an order is deactivated exactly when its fill
/// reaches its requested quantity. A rejection leaves both orders and the
/// marketplace untouched.
pub fn execute_trade(
    marketplace: &mut Marketplace,
    buy_order: &mut TradeOrder,
    sell_order: &mut TradeOrder,
    trade_amount: u64,
) -> (r: Result<TradeFill, TradeError>)
    requires
        trade_permitted(*old(marketplace), *old(buy_order), *old(sell_order), trade_amount) ==> {
            &&& old(marketplace).wf()
            &&& old(marketplace).total_volume + trade_payment(
                *old(buy_order),
                *old(sell_order),
                trade_amount,
            ) <= u64::MAX
            &&& old(marketplace).total_trades < u64::MAX
        },
    ensures
        r == Err::<TradeFill, TradeError>(TradeError::InvalidBuyOrder) <==> old(
            buy_order,
        ).order_type != BUY_ORDER,
        r == Err::<TradeFill, TradeError>(TradeError::InvalidSellOrder) <==> old(
            buy_order,
        ).order_type == BUY_ORDER && old(buy_order).spec_fillable() && old(buy_order).marketplace
            == old(marketplace).marketplace_id && old(sell_order).order_type != SELL_ORDER,
        r == Err::<TradeFill, TradeError>(TradeError::OrderNotFillable) <==> (old(
            buy_order,
        ).order_type == BUY_ORDER && !old(buy_order).spec_fillable()) || (old(
            buy_order,
        ).order_type == BUY_ORDER && old(buy_order).spec_fillable() && old(buy_order).marketplace
            == old(marketplace).marketplace_id && old(sell_order).order_type == SELL_ORDER && !old(
            sell_order,
        ).spec_fillable()),
        r == Err::<TradeFill, TradeError>(TradeError::OrderMarketplaceMismatch) <==> (old(
            buy_order,
        ).order_type == BUY_ORDER && old(buy_order).spec_fillable() && old(buy_order).marketplace
            != old(marketplace).marketplace_id) || (old(buy_order).order_type == BUY_ORDER && old(
            buy_order,
        ).spec_fillable() && old(buy_order).marketplace == old(marketplace).marketplace_id && old(
            sell_order,
        ).order_type == SELL_ORDER && old(sell_order).spec_fillable() && old(sell_order).marketplace
            != old(marketplace).marketplace_id),
        r == Err::<TradeFill, TradeError>(TradeError::PriceMismatch) <==> old(buy_order).order_type
            == BUY_ORDER && old(buy_order).spec_fillable() && old(buy_order).marketplace == old(
            marketplace,
        ).marketplace_id && old(sell_order).order_type == SELL_ORDER && old(
            sell_order,
        ).spec_fillable() && old(sell_order).marketplace == old(marketplace).marketplace_id && old(
            sell_order,
        ).price_per_token > old(buy_order).price_per_token,
        r == Err::<TradeFill, TradeError>(TradeError::InvalidTradeAmount) <==> trade_permitted(
            *old(marketplace),
            *old(buy_order),
            *old(sell_order),
            1,
        ) && trade_amount == 0,
        r == Err::<TradeFill, TradeError>(TradeError::NoTradeableAmount) <==> trade_permitted(
            *old(marketplace),
            *old(buy_order),
            *old(sell_order),
            trade_amount,
        ) && fill_quantity(*old(buy_order), *old(sell_order), trade_amount) == 0,
        r is Ok <==> trade_permitted(
            *old(marketplace),
            *old(buy_order),
            *old(sell_order),
            trade_amount,
        ) && fill_quantity(*old(buy_order), *old(sell_order), trade_amount) > 0,
        r matches Ok(f) ==> f == (TradeFill {
            amount: fill_quantity(*old(buy_order), *old(sell_order), trade_amount),
            execution_price: old(sell_order).price_per_token,
            total_payment: trade_payment(*old(buy_order), *old(sell_order), trade_amount) as u64,
            fee: trade_fee(*old(marketplace), *old(buy_order), *old(sell_order), trade_amount) as u64,
            net_payment: (trade_payment(*old(buy_order), *old(sell_order), trade_amount) - trade_fee(
                *old(marketplace),
                *old(buy_order),
                *old(sell_order),
                trade_amount,
            )) as u64,
        }),
        r matches Ok(f) ==> f.total_payment == f.net_payment + f.fee,
        r is Ok ==> *final(buy_order) == (TradeOrder {
            filled_amount: (old(buy_order).filled_amount + fill_quantity(
                *old(buy_order),
                *old(sell_order),
                trade_amount,
            )) as u64,
            is_active: old(buy_order).filled_amount + fill_quantity(
                *old(buy_order),
                *old(sell_order),
                trade_amount,
            ) < old(buy_order).yield_token_amount,
            ..*old(buy_order)
        }),
        r is Ok ==> *final(sell_order) == (TradeOrder {
            filled_amount: (old(sell_order).filled_amount + fill_quantity(
                *old(buy_order),
                *old(sell_order),
                trade_amount,
            )) as u64,
            is_active: old(sell_order).filled_amount + fill_quantity(
                *old(buy_order),
                *old(sell_order),
                trade_amount,
            ) < old(sell_order).yield_token_amount,
            ..*old(sell_order)
        }),
        r is Ok ==> final(buy_order).filled_amount > old(buy_order).filled_amount,
        r is Ok ==> final(sell_order).filled_amount > old(sell_order).filled_amount,
        r is Ok ==> (final(buy_order).is_active <==> final(buy_order).filled_amount < final(
            buy_order).yield_token_amount),
        r is Ok ==> (final(sell_order).is_active <==> final(sell_order).filled_amount < final(
            sell_order).yield_token_amount),
        r is Ok ==> *final(marketplace) == (Marketplace {
            total_volume: (old(marketplace).total_volume + trade_payment(
                *old(buy_order),
                *old(sell_order),
                trade_amount,
            )) as u64,
            total_trades: (old(marketplace).total_trades + 1) as u64,
            ..*old(marketplace)
        }),
        r is Err ==> *final(marketplace) == *old(marketplace) && *final(buy_order) == *old(
            buy_order,
        ) && *final(sell_order) == *old(sell_order),
{
    if buy_order.order_type != BUY_ORDER {
        return Err(TradeError::InvalidBuyOrder);
    }
    if !buy_order.is_fillable() {
        return Err(TradeError::OrderNotFillable);
    }
    if buy_order.marketplace != marketplace.marketplace_id {
        return Err(TradeError::OrderMarketplaceMismatch);
    }
    if sell_order.order_type != SELL_ORDER {
        return Err(TradeError::InvalidSellOrder);
    }
    if !sell_order.is_fillable() {
        return Err(TradeError::OrderNotFillable);
    }
    if sell_order.marketplace != marketplace.marketplace_id {
        return Err(TradeError::OrderMarketplaceMismatch);
    }
    if sell_order.price_per_token > buy_order.price_per_token {
        return Err(TradeError::PriceMismatch);
    }
    if trade_amount == 0 {
        return Err(TradeError::InvalidTradeAmount);
    }
    let max_buy_amount: u64 = buy_order.remaining_amount();
    let max_sell_amount: u64 = sell_order.remaining_amount();
    let capped: u64 = if trade_amount <= max_buy_amount {
        trade_amount
    } else {
        max_buy_amount
    };
    let actual_trade_amount: u64 = if capped <= max_sell_amount {
        capped
    } else {
        max_sell_amount
    };
    if actual_trade_amount == 0 {
        return Err(TradeError::NoTradeableAmount);
    }
    let execution_price: u64 = sell_order.price_per_token;
    let total_payment: u64 = mul_price(actual_trade_amount, execution_price);
    let fee_amount: u64 = mul_bps(total_payment, marketplace.trading_fee_bps);
    proof {
        lemma_bps_portion_le(total_payment, marketplace.trading_fee_bps);
    }
    let net_payment: u64 = total_payment - fee_amount;
    buy_order.filled_amount = buy_order.filled_amount + actual_trade_amount;
    sell_order.filled_amount = sell_order.filled_amount + actual_trade_amount;
    if buy_order.filled_amount >= buy_order.yield_token_amount {
        buy_order.is_active = false;
    }
    if sell_order.filled_amount >= sell_order.yield_token_amount {
        sell_order.is_active = false;
    }
    marketplace.total_volume = marketplace.total_volume + total_payment;
    marketplace.total_trades = marketplace.total_trades + 1;
    Ok(
        TradeFill {
            amount: actual_trade_amount,
            execution_price,
            total_payment,
            fee: fee_amount,
            net_payment,
        },
    )
}

} // verus!
