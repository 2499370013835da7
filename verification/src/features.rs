//! The classification target of the direction features: which way a price
//! opened relative to the previous close.

use vstd::prelude::*;
use vstd::string::*;

verus! {

/// The direction of a price move: a gap up, a gap down, or a normal
/// opening in between.
#[derive(Debug, Clone, PartialEq, Eq, Structural)]
pub enum PriceDirection {
    Up,
    Down,
    Flat,
}

impl PriceDirection {
    /// The class index of the direction: down is 0, a normal opening is 1,
    /// up is 2.
    pub fn to_usize(&self) -> (r: usize)
        ensures
            r == (match self {
                PriceDirection::Up => 2usize,
                PriceDirection::Down => 0usize,
                PriceDirection::Flat => 1usize,
            }),
    {
        match self {
            PriceDirection::Up => 2,
            PriceDirection::Down => 0,
            PriceDirection::Flat => 1,
        }
    }

    /// The display name of the direction; a normal opening prints as
    /// "None".
    pub fn to_string(&self) -> (r: String)
        ensures
            r@ == (match self {
                PriceDirection::Up => "Up"@,
                PriceDirection::Down => "Down"@,
                PriceDirection::Flat => "None"@,
            }),
    {
        match self {
            PriceDirection::Up => String::from_str("Up"),
            PriceDirection::Down => String::from_str("Down"),
            PriceDirection::Flat => String::from_str("None"),
        }
    }
}

} // verus!
