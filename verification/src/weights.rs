//! Weights that the designer adds by hand.

use vstd::prelude::*;

verus! {

/// Miscellaneous weights throughout the ship, in tons.
#[derive(Clone, Copy, Debug, PartialEq, Eq, Structural)]
pub struct MiscWgts {
    /// Extra weight in the vital spaces.
    pub vital: u32,
    /// Extra weight in the hull.
    pub hull: u32,
    /// Extra weight on the deck.
    pub on: u32,
    /// Extra weight above the deck.
    pub above: u32,
    /// Extra displacement given to void space.
    pub void: u32,
}

impl MiscWgts {
    /// Sum of the five weights.
    pub open spec fn total(self) -> nat {
        (self.vital + self.hull + self.on + self.above + self.void) as nat
    }

    /// Total of miscellaneous weights.
    pub fn wgt(&self) -> (r: u32)
        requires
            self.total() <= u32::MAX,
        ensures
            r == self.total(),
    {
        self.vital + self.hull + self.on + self.above + self.void
    }

    /// Total of miscellaneous weights, or `None` where it exceeds what a
    /// 32-bit count holds.
    pub fn checked_wgt(&self) -> (r: Option<u32>)
        ensures
            self.total() <= u32::MAX ==> r == Some(self.total() as u32),
            self.total() > u32::MAX ==> r.is_none(),
    {
        let total: u64 = self.vital as u64 + self.hull as u64 + self.on as u64 + self.above as u64
            + self.void as u64;
        if total <= u32::MAX as u64 {
            Some(total as u32)
        } else {
            None
        }
    }
}

impl Default for MiscWgts {
    fn default() -> (r: MiscWgts)
        ensures
            r == (MiscWgts { vital: 0, hull: 0, on: 0, above: 0, void: 0 }),
    {
        MiscWgts { vital: 0, hull: 0, on: 0, above: 0, void: 0 }
    }
}

} // verus!
