//! The one rule of the market-data fetch utility: which listings are
//! worth keeping.  The fetch itself is an outside collaborator; it hands
//! this predicate each listing's two prices.

use vstd::prelude::*;

verus! {

/// The price floor below which a listing is dropped.
pub const PRICE_FLOOR: i64 = 50000;

/// Whether a market listing is kept: either its daily average price or
/// its trader price lies above the floor.
pub fn is_valuable(avg24h_price: i64, trader_price: i64) -> (r: bool)
    ensures
        r == (avg24h_price > PRICE_FLOOR || trader_price > PRICE_FLOOR),
{
    avg24h_price > PRICE_FLOOR || trader_price > PRICE_FLOOR
}

} // verus!
