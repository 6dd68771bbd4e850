//! What the player keeps from run to run.

use vstd::prelude::*;
use crate::economy::upgrades::UpgradeLevel;
use crate::units::{clamp_i32, clamp_to_i32};

verus! {

/// The player's profile across runs.
#[derive(Debug, Clone)]
pub struct PlayerProfile {
    /// Credits earned in all runs together.
    pub lifetime_credits: i32,
    /// Credits banked for the next run.
    pub banked_credits: i32,
    /// Levels of the upgrades that outlast a run.
    pub permanent_upgrades: Vec<UpgradeLevel>,
    /// Number of escapes.
    pub runs_completed: u32,
    /// Shortest time to an escape, in microseconds.
    pub best_time: Option<u64>,
}

impl PlayerProfile {
    /// A profile with nothing earned, banked, bought or won.
    pub fn new() -> (p: Self)
        ensures
            p.lifetime_credits == 0,
            p.banked_credits == 0,
            p.permanent_upgrades@.len() == 0,
            p.runs_completed == 0,
            p.best_time.is_none(),
    {
        PlayerProfile {
            lifetime_credits: 0,
            banked_credits: 0,
            permanent_upgrades: Vec::new(),
            runs_completed: 0,
            best_time: None,
        }
    }

    /// The better of the best time so far and a new time.
    pub open spec fn better_time(best: Option<u64>, time: u64) -> Option<u64> {
        match best {
            Some(b) => if time < b {
                Some(time)
            } else {
                Some(b)
            },
            None => Some(time),
        }
    }

    /// Records an escape that earned `credits_earned` and took
    /// `escape_time`: the credits count toward the lifetime total and the
    /// bank, each kept within `i32`; the run counts; the best time is kept.
    pub fn record_victory(&mut self, credits_earned: i32, escape_time: u64)
        ensures
            final(self).lifetime_credits == clamp_i32(old(self).lifetime_credits + credits_earned),
            final(self).banked_credits == clamp_i32(old(self).banked_credits + credits_earned),
            final(self).runs_completed == if old(self).runs_completed == u32::MAX {
                u32::MAX
            } else {
                (old(self).runs_completed + 1) as u32
            },
            final(self).best_time == PlayerProfile::better_time(old(self).best_time, escape_time),
            final(self).permanent_upgrades@ == old(self).permanent_upgrades@,
    {
        self.lifetime_credits = clamp_to_i32(self.lifetime_credits as i128 + credits_earned as i128);
        self.banked_credits = clamp_to_i32(self.banked_credits as i128 + credits_earned as i128);
        if self.runs_completed < u32::MAX {
            self.runs_completed += 1;
        }
        self.best_time = match self.best_time {
            Some(best) => if escape_time < best {
                Some(escape_time)
            } else {
                Some(best)
            },
            None => Some(escape_time),
        };
    }

    /// Spends `amount` of the banked credits if the bank covers it, and
    /// says whether it did.
    pub fn spend_credits(&mut self, amount: i32) -> (spent: bool)
        ensures
            spent == (old(self).banked_credits >= amount),
            final(self).banked_credits == if spent {
                clamp_i32(old(self).banked_credits - amount)
            } else {
                old(self).banked_credits as int
            },
            final(self).lifetime_credits == old(self).lifetime_credits,
            final(self).runs_completed == old(self).runs_completed,
            final(self).best_time == old(self).best_time,
            final(self).permanent_upgrades@ == old(self).permanent_upgrades@,
    {
        if self.banked_credits >= amount {
            self.banked_credits = clamp_to_i32(self.banked_credits as i128 - amount as i128);
            true
        } else {
            false
        }
    }
}

impl Default for PlayerProfile {
    fn default() -> (p: Self)
        ensures
            p.lifetime_credits == 0,
            p.banked_credits == 0,
            p.permanent_upgrades@.len() == 0,
            p.runs_completed == 0,
            p.best_time.is_none(),
    {
        PlayerProfile::new()
    }
}

} // verus!
