//! The player's stock of scrap, power and credits.

use vstd::prelude::*;
use crate::units::{clamp_i32, clamp_to_i32};

verus! {

/// Scrap a new run starts with.
pub const STARTING_SCRAP: i32 = 50;

/// Cap on stored scrap a new run starts with.
pub const STARTING_MAX_SCRAP: i32 = 1000;

/// What the player holds: scrap to repair with, credits for the shop.
#[derive(Debug, Clone, Copy)]
pub struct Resources {
    pub scrap: i32,
    pub max_scrap: i32,
    pub power: i32,
    pub credits: i32,
}

impl Resources {
    /// The resources a run starts with.
    pub fn new() -> (r: Self)
        ensures
            r.scrap == STARTING_SCRAP,
            r.max_scrap == STARTING_MAX_SCRAP,
            r.power == 0,
            r.credits == 0,
    {
        Resources { scrap: STARTING_SCRAP, max_scrap: STARTING_MAX_SCRAP, power: 0, credits: 0 }
    }

    /// Whether the stored scrap covers `cost`.
    pub fn can_afford(&self, cost: i32) -> (b: bool)
        ensures
            b == (self.scrap >= cost),
    {
        self.scrap >= cost
    }

    /// Scrap after paying `cost`: unchanged when the cost is not covered, and
    /// kept within `i32` when a negative cost would carry it past the top.
    pub open spec fn scrap_after_deduct(self, cost: i32) -> int {
        if self.scrap >= cost {
            clamp_i32(self.scrap - cost)
        } else {
            self.scrap as int
        }
    }

    /// Pays `cost` in scrap if it is covered; does nothing otherwise.
    pub fn deduct(&mut self, cost: i32)
        ensures
            final(self).scrap == old(self).scrap_after_deduct(cost),
            final(self).max_scrap == old(self).max_scrap,
            final(self).power == old(self).power,
            final(self).credits == old(self).credits,
    {
        if self.can_afford(cost) {
            self.scrap = clamp_to_i32(self.scrap as i128 - cost as i128);
        }
    }

    /// Scrap after gaining `amount`: the sum, capped at `max_scrap` and kept
    /// within `i32`.
    pub open spec fn scrap_after_add(self, amount: i32) -> int {
        let sum = clamp_i32(self.scrap + amount);
        if sum <= self.max_scrap {
            sum
        } else {
            self.max_scrap as int
        }
    }

    /// Adds `amount` scrap, capped at `max_scrap`.
    pub fn add_scrap(&mut self, amount: i32)
        ensures
            final(self).scrap == old(self).scrap_after_add(amount),
            final(self).max_scrap == old(self).max_scrap,
            final(self).power == old(self).power,
            final(self).credits == old(self).credits,
    {
        let sum: i32 = clamp_to_i32(self.scrap as i128 + amount as i128);
        self.scrap = if sum <= self.max_scrap {
            sum
        } else {
            self.max_scrap
        };
    }

    /// Adds `amount` credits, kept within `i32`.
    pub fn add_credits(&mut self, amount: i32)
        ensures
            final(self).credits == clamp_i32(old(self).credits + amount),
            final(self).scrap == old(self).scrap,
            final(self).max_scrap == old(self).max_scrap,
            final(self).power == old(self).power,
    {
        self.credits = clamp_to_i32(self.credits as i128 + amount as i128);
    }

    /// Pays `cost` in credits if it is covered and says whether it was.
    pub fn deduct_credits(&mut self, cost: i32) -> (paid: bool)
        ensures
            paid == (old(self).credits >= cost),
            final(self).credits == if paid {
                clamp_i32(old(self).credits - cost)
            } else {
                old(self).credits as int
            },
            final(self).scrap == old(self).scrap,
            final(self).max_scrap == old(self).max_scrap,
            final(self).power == old(self).power,
    {
        if self.credits >= cost {
            self.credits = clamp_to_i32(self.credits as i128 - cost as i128);
            true
        } else {
            false
        }
    }
}

} // verus!
