//! The matching decision function.
//!
//! This is the one place where business logic lives.  It runs inside the
//! confidential-computation cluster on the plaintext values reconstructed
//! from the two orders' ciphertext shards, and it determines financial
//! outcomes, so it must be reproduced bit-exactly by every host.
//!
//! Confidentiality requires that the evaluation not leak which logical
//! branch was taken: every intermediate below is computed unconditionally
//! and the result is a value selection, never an early exit.

use vstd::prelude::*;

verus! {

/// Plaintext order intent: limit price, total volume, side
/// (0 = buy, 1 = sell) and the minimum quantity the owner is willing to
/// have filled (an all-or-none style guard against size probing).
#[derive(Clone, Copy, Debug, PartialEq, Eq, Structural)]
pub struct OrderData {
    pub price: u64,
    pub volume: u64,
    pub side: u64,
    pub min_exec_qty: u64,
}

/// Verdict of one match attempt: a success flag (1 = executed, 0 = not)
/// and, on success, the execution price and volume.
#[derive(Clone, Copy, Debug, PartialEq, Eq, Structural)]
pub struct TradeResult {
    pub is_executed: u64,
    pub exec_price: u64,
    pub exec_volume: u64,
}

impl OrderData {
    /// A side is either buy (0) or sell (1).
    pub open spec fn side_valid(self) -> bool {
        self.side == 0 || self.side == 1
    }
}

/// Exactly one buy (0) and one sell (1): the sides sum to 1.
pub open spec fn valid_sides(maker: OrderData, taker: OrderData) -> bool {
    maker.side + taker.side == 1
}

/// The buy-side limit price of the pair, whichever order carries it.
pub open spec fn buy_price(maker: OrderData, taker: OrderData) -> u64 {
    if maker.side == 0 {
        maker.price
    } else {
        taker.price
    }
}

/// The sell-side limit price of the pair, whichever order carries it.
pub open spec fn sell_price(maker: OrderData, taker: OrderData) -> u64 {
    if maker.side == 0 {
        taker.price
    } else {
        maker.price
    }
}

/// Prices cross when the buyer is willing to pay at least the seller's ask.
pub open spec fn price_match(maker: OrderData, taker: OrderData) -> bool {
    buy_price(maker, taker) >= sell_price(maker, taker)
}

/// The executable volume: the smaller of the two orders' volumes.
pub open spec fn fill_volume(maker: OrderData, taker: OrderData) -> u64 {
    if maker.volume < taker.volume {
        maker.volume
    } else {
        taker.volume
    }
}

/// The fill must meet both parties' stated minimum, or a counterparty could
/// probe true size with small trial fills.
pub open spec fn min_fill_satisfied(maker: OrderData, taker: OrderData) -> bool {
    fill_volume(maker, taker) >= maker.min_exec_qty
        && fill_volume(maker, taker) >= taker.min_exec_qty
}

/// The pair trades exactly when sides are valid, prices cross and the fill
/// meets both minimums.
pub open spec fn can_trade(maker: OrderData, taker: OrderData) -> bool {
    valid_sides(maker, taker) && price_match(maker, taker) && min_fill_satisfied(maker, taker)
}

/// The execution price: the arithmetic midpoint of the two limit prices,
/// truncating, so that neither side's exact limit is revealed by the fill
/// price alone.
pub open spec fn mid_price(maker: OrderData, taker: OrderData) -> u64 {
    (((buy_price(maker, taker) as int) + (sell_price(maker, taker) as int)) / 2) as u64
}

/// The complete verdict for a pair of orders.
pub open spec fn match_result(maker: OrderData, taker: OrderData) -> TradeResult {
    if can_trade(maker, taker) {
        TradeResult {
            is_executed: 1,
            exec_price: mid_price(maker, taker),
            exec_volume: fill_volume(maker, taker),
        }
    } else {
        TradeResult { is_executed: 0, exec_price: 0, exec_volume: 0 }
    }
}

/// Decides whether two orders trade and at what price and volume.
///
/// Every intermediate is computed unconditionally; the branches below only
/// select between already-computed values, mirroring the oblivious
/// evaluation required inside the cluster.
pub fn execute_dark_match(maker: &OrderData, taker: &OrderData) -> (r: TradeResult)
    ensures
        r == match_result(*maker, *taker),
        r.is_executed == 1 <==> can_trade(*maker, *taker),
        r.is_executed == 0 ==> r.exec_price == 0 && r.exec_volume == 0,
{
    let side_sum: u128 = maker.side as u128 + taker.side as u128;
    let valid: bool = side_sum == 1;

    let is_maker_buy: bool = maker.side == 0;
    let buy: u64 = if is_maker_buy {
        maker.price
    } else {
        taker.price
    };
    let sell: u64 = if is_maker_buy {
        taker.price
    } else {
        maker.price
    };

    let crossed: bool = buy >= sell;

    let exec_vol: u64 = if maker.volume < taker.volume {
        maker.volume
    } else {
        taker.volume
    };

    let min_ok: bool = exec_vol >= maker.min_exec_qty && exec_vol >= taker.min_exec_qty;

    let tradable: bool = valid && crossed && min_ok;

    let mid_wide: u128 = (buy as u128 + sell as u128) / 2;
    let mid: u64 = mid_wide as u64;

    if tradable {
        TradeResult { is_executed: 1, exec_price: mid, exec_volume: exec_vol }
    } else {
        TradeResult { is_executed: 0, exec_price: 0, exec_volume: 0 }
    }
}

/// Two orders on the same side never trade, whatever their prices and
/// volumes.
pub proof fn lemma_equal_sides_no_trade(maker: OrderData, taker: OrderData)
    requires
        maker.side == taker.side,
    ensures
        !can_trade(maker, taker),
        match_result(maker, taker).is_executed == 0,
{
}

/// When the sides differ but the buy price is below the sell price, the
/// pair never trades.
pub proof fn lemma_uncrossed_prices_no_trade(maker: OrderData, taker: OrderData)
    requires
        maker.side_valid(),
        taker.side_valid(),
        maker.side != taker.side,
        buy_price(maker, taker) < sell_price(maker, taker),
    ensures
        !can_trade(maker, taker),
        match_result(maker, taker).is_executed == 0,
{
}

/// When the sides differ and prices cross but the executable volume falls
/// short of either party's minimum, the pair never trades.
pub proof fn lemma_below_min_fill_no_trade(maker: OrderData, taker: OrderData)
    requires
        maker.side_valid(),
        taker.side_valid(),
        maker.side != taker.side,
        price_match(maker, taker),
        fill_volume(maker, taker) < maker.min_exec_qty
            || fill_volume(maker, taker) < taker.min_exec_qty,
    ensures
        !can_trade(maker, taker),
        match_result(maker, taker).is_executed == 0,
{
}

/// When the sides differ, prices cross and the executable volume meets both
/// minimums, the pair trades at the midpoint price for the smaller volume.
pub proof fn lemma_crossed_orders_trade(maker: OrderData, taker: OrderData)
    requires
        maker.side_valid(),
        taker.side_valid(),
        maker.side != taker.side,
        buy_price(maker, taker) >= sell_price(maker, taker),
        fill_volume(maker, taker) >= maker.min_exec_qty,
        fill_volume(maker, taker) >= taker.min_exec_qty,
    ensures
        can_trade(maker, taker),
        match_result(maker, taker).is_executed == 1,
        match_result(maker, taker).exec_volume == fill_volume(maker, taker),
        match_result(maker, taker).exec_price as int == (buy_price(maker, taker) as int
            + sell_price(maker, taker) as int) / 2,
{
}

/// A verdict that did not execute carries zeroed price and volume fields,
/// whatever the inputs were.
pub proof fn lemma_no_trade_zero_fields(maker: OrderData, taker: OrderData)
    ensures
        match_result(maker, taker).is_executed == 0 ==> match_result(maker, taker).exec_price == 0
            && match_result(maker, taker).exec_volume == 0,
        match_result(maker, taker).is_executed == 0 || match_result(maker, taker).is_executed == 1,
{
}

} // verus!
