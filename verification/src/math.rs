//! Settlement arithmetic in fixed point.

use vstd::prelude::*;
use crate::MarketData;
use crate::error::ProtocolError;

verus! {

/// Fixed-point scale: eight decimal digits.
pub const SCALE: i64 = 100_000_000;

/// Quotient of `n` by `d`, rounded toward zero.
pub open spec fn quotient_toward_zero(n: int, d: int) -> int {
    if n >= 0 && d > 0 {
        n / d
    } else if n < 0 && d > 0 {
        -((-n) / d)
    } else if n >= 0 && d < 0 {
        -(n / (-d))
    } else {
        (-n) / (-d)
    }
}

/// Relative change from `previous` to `current`, scaled by [`SCALE`].
pub open spec fn percent_change(current: int, previous: int) -> int {
    quotient_toward_zero((current - previous) * SCALE, previous)
}

/// The funding payment for a position of `size` when the price moved from
/// `previous` to `current`. Positive: the taker owes the maker.
pub open spec fn settlement(current: int, previous: int, size: int) -> int {
    quotient_toward_zero(size * percent_change(current, previous), SCALE as int)
}

proof fn lemma_quotient_bounded(n: int, d: int)
    requires
        d != 0,
    ensures
        n >= 0 ==> 0 <= quotient_toward_zero(n, d) <= n || -n <= quotient_toward_zero(n, d) <= 0,
        n <= 0 ==> 0 <= quotient_toward_zero(n, d) <= -n || n <= quotient_toward_zero(n, d) <= 0,
{
    let a: int = if n >= 0 { n } else { -n };
    let b: int = if d > 0 { d } else { -d };
    assert(0 <= a / b <= a) by (nonlinear_arith)
        requires
            a >= 0,
            b >= 1,
    ;
}

/// What [`compute_payment`] returns for a price move from `previous` to
/// `current` on a position of `size`: the settlement, where the previous price
/// is not zero and the amount fits.
pub open spec fn payment_due(current: int, previous: int, size: int) -> Result<i64, ProtocolError> {
    if previous == 0 {
        Err(ProtocolError::InvalidMarketData)
    } else if i64::MIN <= settlement(current, previous, size) <= i64::MAX {
        Ok(settlement(current, previous, size) as i64)
    } else {
        Err(ProtocolError::SettlementOutOfRange)
    }
}

/// The payment that the price move between two snapshots asks of a position:
/// `position_size * ((current - previous) * SCALE / previous) / SCALE`, each
/// division rounded toward zero, on the bitcoin price of the snapshots.
pub fn compute_payment(
    market_data: MarketData,
    prev_market_data: MarketData,
    position_size: i64,
) -> (payment: Result<i64, ProtocolError>)
    ensures
        payment == payment_due(
            market_data.bitcoin.usd as int,
            prev_market_data.bitcoin.usd as int,
            position_size as int,
        ),
{
    let current: i128 = market_data.bitcoin.usd as i128;
    let previous: i128 = prev_market_data.bitcoin.usd as i128;
    if previous == 0 {
        return Err(ProtocolError::InvalidMarketData);
    }
    let scale: i128 = SCALE as i128;
    let scaled: i128 = (current - previous) * scale;
    let percent: i128 = match scaled.checked_div(previous) {
        Some(q) => q,
        None => {
            return Err(ProtocolError::SettlementOutOfRange);
        },
    };
    proof {
        lemma_quotient_bounded(scaled as int, previous as int);
    }
    let product: i128 = match (position_size as i128).checked_mul(percent) {
        Some(p) => p,
        None => {
            return Err(ProtocolError::SettlementOutOfRange);
        },
    };
    let due: i128 = match product.checked_div(scale) {
        Some(q) => q,
        None => {
            return Err(ProtocolError::SettlementOutOfRange);
        },
    };
    if due < i64::MIN as i128 || due > i64::MAX as i128 {
        return Err(ProtocolError::SettlementOutOfRange);
    }
    Ok(due as i64)
}

/// A price that did not move asks for no payment, whatever the position.
pub proof fn lemma_settlement_of_unchanged_price(price: int, size: int)
    requires
        price != 0,
    ensures
        settlement(price, price, size) == 0,
        payment_due(price, price, size) == Ok::<i64, ProtocolError>(0),
{
    assert((price - price) * SCALE == 0);
    assert(percent_change(price, price) == 0);
    assert(size * 0 == 0);
}

} // verus!
