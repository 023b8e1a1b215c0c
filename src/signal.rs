//! Discrete trading signals and the threshold classifier.

use vstd::prelude::*;

verus! {

/// A trading recommendation, ordered from strongest sell to strongest buy.
#[derive(Clone, Copy, Debug, PartialEq, Eq, Structural)]
pub enum Signal {
    StrongSell,
    Sell,
    Neutral,
    Buy,
    StrongBuy,
}

/// Position of a signal on the sell-to-buy scale, from -2 to 2.
pub open spec fn strength_spec(s: Signal) -> int {
    match s {
        Signal::StrongSell => -2,
        Signal::Sell => -1,
        Signal::Neutral => 0,
        Signal::Buy => 1,
        Signal::StrongBuy => 2,
    }
}

impl Signal {
    /// Position of the signal on the sell-to-buy scale; the order of the
    /// scale is the order of strength and direction.
    pub fn strength(&self) -> (r: i8)
        ensures
            r as int == strength_spec(*self),
            -2 <= r <= 2,
    {
        match self {
            Signal::StrongSell => -2,
            Signal::Sell => -1,
            Signal::Neutral => 0,
            Signal::Buy => 1,
            Signal::StrongBuy => 2,
        }
    }
}

impl Default for Signal {
    fn default() -> (r: Self)
        ensures
            r == Signal::Neutral,
    {
        Signal::Neutral
    }
}

/// A value strictly above this level is classified as a sell.
pub const SELL_ABOVE: i64 = 70;

/// A value strictly below this level is classified as a buy.
pub const BUY_BELOW: i64 = 30;

/// The classification of a value: above the upper level (exclusive) is a
/// sell, below the lower level (exclusive) is a buy, anything else neutral.
pub open spec fn classify_spec(value: int) -> Signal {
    if value > SELL_ABOVE {
        Signal::Sell
    } else if value < BUY_BELOW {
        Signal::Buy
    } else {
        Signal::Neutral
    }
}

/// Classifies a value by the two fixed levels; a pure function of the value.
pub fn classify(value: i64) -> (r: Signal)
    ensures
        r == classify_spec(value as int),
{
    if value > SELL_ABOVE {
        Signal::Sell
    } else if value < BUY_BELOW {
        Signal::Buy
    } else {
        Signal::Neutral
    }
}

} // verus!
