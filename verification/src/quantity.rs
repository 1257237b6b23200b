//! Fixed-point quantities.

use vstd::prelude::*;

verus! {

/// A physical quantity held in thousandths of its engineering unit
/// (millivolts for a voltage, milliamperes for a current, and so on).
///
/// The quantity stands for the rational number `milli / 1000`.
#[derive(Debug, Clone, Copy, PartialEq, Eq, Hash, Structural)]
pub struct Quantity {
    pub milli: i64,
}

impl Quantity {
    /// The quantity that a raw reading in thousandths stands for.
    pub open spec fn of_milli(raw: int) -> Quantity
        recommends
            i64::MIN <= raw <= i64::MAX,
    {
        Quantity { milli: raw as i64 }
    }

    /// The quantity of `units` whole units.
    pub open spec fn of_units(units: int) -> Quantity
        recommends
            i64::MIN <= units * 1000 <= i64::MAX,
    {
        Quantity { milli: (units * 1000) as i64 }
    }

    /// Takes a raw reading that is already in thousandths of the unit.
    pub fn from_milli(raw: i32) -> (q: Quantity)
        ensures
            q == Self::of_milli(raw as int),
            q.milli == raw,
    {
        Quantity { milli: raw as i64 }
    }

    /// Takes a reading in whole units.
    pub fn from_units(units: i32) -> (q: Quantity)
        ensures
            q == Self::of_units(units as int),
            q.milli == units * 1000,
    {
        let wide: i64 = units as i64;
        Quantity { milli: wide * 1000 }
    }

    /// The whole units of the quantity, rounded towards zero.
    pub open spec fn spec_whole_units(self) -> int {
        if self.milli >= 0 {
            self.milli as int / 1000
        } else {
            -((-(self.milli as int)) / 1000)
        }
    }

    /// The part of the quantity below one unit, in thousandths, with the sign
    /// of the quantity.
    pub open spec fn spec_thousandths(self) -> int {
        self.milli as int - 1000 * self.spec_whole_units()
    }

    /// The whole units of the quantity, rounded towards zero.
    pub fn whole_units(&self) -> (units: i64)
        ensures
            units == self.spec_whole_units(),
            self.milli == 1000 * units + self.spec_thousandths(),
            -1000 < self.spec_thousandths() < 1000,
    {
        if self.milli >= 0 {
            self.milli / 1000
        } else if self.milli == i64::MIN {
            -9223372036854775
        } else {
            let positive: i64 = -self.milli;
            -(positive / 1000)
        }
    }

    /// The part of the quantity below one unit, in thousandths.
    pub fn thousandths(&self) -> (part: i64)
        ensures
            part == self.spec_thousandths(),
            -1000 < part < 1000,
            self.milli >= 0 ==> part >= 0,
            self.milli <= 0 ==> part <= 0,
    {
        let units: i64 = self.whole_units();
        self.milli - 1000 * units
    }
}

} // verus!
