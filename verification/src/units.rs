use vstd::prelude::*;

use crate::text::{decimal, push_decimal};

verus! {

/// `a + b`, or the largest `u64` when the sum does not fit.
pub open spec fn sat_add(a: u64, b: u64) -> u64 {
    if a + b > u64::MAX {
        u64::MAX
    } else {
        (a + b) as u64
    }
}

/// `a - b`, or 0 when `b` is larger.
pub open spec fn sat_sub(a: u64, b: u64) -> u64 {
    if a < b {
        0
    } else {
        (a - b) as u64
    }
}

/// An amount of energy in microjoules.
#[derive(Debug, Clone, Copy, PartialEq, Eq, PartialOrd, Ord, Hash)]
pub struct EnergyUj(pub u64);

impl EnergyUj {
    /// Energy of `mj` millijoules.
    pub fn from_millijoules(mj: u64) -> (r: Self)
        requires
            mj * 1000 <= u64::MAX,
        ensures
            r.0 == mj * 1000,
    {
        EnergyUj(mj * 1_000)
    }

    /// The number of microjoules.
    pub fn as_u64(&self) -> (r: u64)
        ensures
            r == self.0,
    {
        self.0
    }

    /// Energy of `value` microjoules.
    pub fn from_u64(value: u64) -> (r: Self)
        ensures
            r.0 == value,
    {
        EnergyUj(value)
    }

    /// Adds `rhs`, saturating at the largest representable amount.
    pub fn add_assign(&mut self, rhs: Self)
        ensures
            final(self).0 == sat_add(old(self).0, rhs.0),
    {
        self.0 = self.0.saturating_add(rhs.0);
    }

    /// Subtracts `rhs`, saturating at zero.
    pub fn sub_assign(&mut self, rhs: Self)
        ensures
            final(self).0 == sat_sub(old(self).0, rhs.0),
    {
        self.0 = self.0.saturating_sub(rhs.0);
    }

    /// The amount followed by its unit, as in `"42 µJ"`.
    pub fn to_text(&self) -> (s: String)
        ensures
            s@ == decimal(self.0 as nat) + " µJ"@,
    {
        let mut s = String::new();
        push_decimal(&mut s, self.0);
        s.append(" µJ");
        s
    }
}

impl Default for EnergyUj {
    fn default() -> (r: Self)
        ensures
            r.0 == 0,
    {
        EnergyUj(0)
    }
}

/// A number of bytes.
#[derive(Debug, Clone, Copy, PartialEq, Eq, Hash)]
pub struct Byte(pub u64);

impl Byte {
    /// The number of bytes.
    pub fn as_u64(&self) -> (r: u64)
        ensures
            r == self.0,
    {
        self.0
    }

    /// `value` bytes.
    pub fn from(value: u64) -> (r: Self)
        ensures
            r.0 == value,
    {
        Byte(value)
    }

    /// Adds `rhs`, saturating at the largest representable count.
    pub fn add_assign(&mut self, rhs: Self)
        ensures
            final(self).0 == sat_add(old(self).0, rhs.0),
    {
        self.0 = self.0.saturating_add(rhs.0);
    }

    /// Adds `rhs` bytes, saturating at the largest representable count.
    pub fn add_assign_u64(&mut self, rhs: u64)
        ensures
            final(self).0 == sat_add(old(self).0, rhs),
    {
        self.0 = self.0.saturating_add(rhs);
    }

    /// The count followed by its unit, as in `"42 B"`.
    pub fn to_text(&self) -> (s: String)
        ensures
            s@ == decimal(self.0 as nat) + " B"@,
    {
        let mut s = String::new();
        push_decimal(&mut s, self.0);
        s.append(" B");
        s
    }
}

impl Default for Byte {
    fn default() -> (r: Self)
        ensures
            r.0 == 0,
    {
        Byte(0)
    }
}

/// A percentage reading, held as the IEEE-754 bit pattern of its `f64` value
/// (`f64::to_bits`); the library passes it through unchanged.
#[derive(Debug, Clone, Copy, PartialEq, Eq, Hash)]
pub struct Percent(pub u64);

/// Adding an amount and then subtracting it again gives back the starting amount,
/// unless the addition saturated.
pub proof fn law_add_then_sub_restores(a: u64, b: u64)
    requires
        a + b <= u64::MAX,
    ensures
        sat_sub(sat_add(a, b), b) == a,
{
}

/// Saturating addition never decreases an amount and is bounded by the largest value.
pub proof fn law_add_is_monotone(a: u64, b: u64)
    ensures
        a <= sat_add(a, b),
        b <= sat_add(a, b),
        sat_add(a, b) == sat_add(b, a),
{
}

/// Saturating subtraction never increases an amount.
pub proof fn law_sub_never_increases(a: u64, b: u64)
    ensures
        sat_sub(a, b) <= a,
        sat_sub(a, b) == 0 <==> a <= b,
{
}

} // verus!
