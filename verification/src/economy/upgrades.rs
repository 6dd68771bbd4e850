//! Upgrades bought between rounds, and the levels the player holds.

use vstd::prelude::*;
use crate::units::{clamp_i32, clamp_to_i32, div_toward_zero, divide_toward_zero, MILLI};

verus! {

/// An upgrade on offer.
#[derive(Debug, Clone)]
pub struct UpgradeTemplate {
    pub id: String,
    pub name: String,
    pub description: String,
    pub base_cost: i32,
    /// Factor on the cost for each level already held, in thousandths.
    pub cost_multiplier: u32,
    pub max_level: u32,
    pub category: String,
}

/// The level held of one upgrade.
#[derive(Debug, Clone)]
pub struct UpgradeLevel {
    pub id: String,
    pub level: u32,
}

/// The levels the player holds, in the order in which the upgrades were
/// first bought. An upgrade that was never bought is at level 0.
#[derive(Debug, Clone)]
pub struct GameUpgrades {
    pub levels: Vec<UpgradeLevel>,
}

/// Level of the upgrade `id` in `levels`: that of the first entry with this
/// id, or 0 if there is none.
pub open spec fn level_in(levels: Seq<UpgradeLevel>, id: Seq<char>) -> u32
    decreases levels.len(),
{
    if levels.len() == 0 {
        0
    } else if levels[0].id@ == id {
        levels[0].level
    } else {
        level_in(levels.drop_first(), id)
    }
}

/// Cost of the next level of an upgrade of which `level` levels are held:
/// the base cost times the multiplier once for each level held, rounded
/// toward zero and kept within `i32` after each step.
pub open spec fn cost_at(base_cost: int, multiplier: nat, level: nat) -> int
    decreases level,
{
    if level == 0 {
        clamp_i32(base_cost)
    } else {
        clamp_i32(
            div_toward_zero(cost_at(base_cost, multiplier, (level - 1) as nat) * multiplier, MILLI as int),
        )
    }
}

impl GameUpgrades {
    /// No upgrade bought.
    pub fn new() -> (u: Self)
        ensures
            u.levels@.len() == 0,
            forall|id: Seq<char>| u.level(id) == 0,
    {
        GameUpgrades { levels: Vec::new() }
    }

    /// Level held of the upgrade `id`.
    pub open spec fn level(self, id: Seq<char>) -> u32 {
        level_in(self.levels@, id)
    }

    /// Level held of the upgrade `id`; 0 if it was never bought.
    pub fn get_level(&self, id: &str) -> (level: u32)
        ensures
            level == self.level(id@),
    {
        let key: String = id.to_owned();
        let mut i: usize = 0;
        proof {
            assert(self.levels@.skip(0) =~= self.levels@);
        }
        while i < self.levels.len()
            invariant
                i <= self.levels@.len(),
                key@ == id@,
                level_in(self.levels@, id@) == level_in(self.levels@.skip(i as int), id@),
            decreases self.levels@.len() - i,
        {
            proof {
                assert(self.levels@.skip(i as int).drop_first() =~= self.levels@.skip(i + 1));
            }
            if self.levels[i].id == key {
                return self.levels[i].level;
            }
            i += 1;
        }
        0
    }

    /// Sets the level held of the upgrade `id`, and leaves every other
    /// upgrade as it is.
    pub fn set_level(&mut self, id: &str, level: u32)
        ensures
            final(self).level(id@) == level,
            forall|other: Seq<char>| other != id@ ==> final(self).level(other) == old(self).level(other),
    {
        let key: String = id.to_owned();
        let mut i: usize = 0;
        while i < self.levels.len()
            invariant
                i <= self.levels@.len(),
                key@ == id@,
                self.levels@ == old(self).levels@,
                forall|j: int| 0 <= j < i ==> (#[trigger] self.levels@[j]).id@ != id@,
            decreases self.levels@.len() - i,
        {
            if self.levels[i].id == key {
                self.levels[i].level = level;
                proof {
                    lemma_level_in_update(old(self).levels@, i as int, self.levels@[i as int]);
                }
                return ;
            }
            i += 1;
        }
        let entry = UpgradeLevel { id: key, level };
        self.levels.push(entry);
        proof {
            lemma_level_in_push(old(self).levels@, entry);
        }
    }

    /// Cost of the next level of `template`.
    pub fn get_cost(&self, template: &UpgradeTemplate) -> (cost: i32)
        ensures
            cost == cost_at(
                template.base_cost as int,
                template.cost_multiplier as nat,
                self.level(template.id@) as nat,
            ),
    {
        let level = self.get_level(template.id.as_str());
        let mut cost: i32 = template.base_cost;
        let mut i: u32 = 0;
        while i < level
            invariant
                i <= level,
                cost == cost_at(template.base_cost as int, template.cost_multiplier as nat, i as nat),
            decreases level - i,
        {
            assert(-0x8000_0000 * 0x1_0000_0000 <= cost * template.cost_multiplier <= 0x8000_0000
                * 0x1_0000_0000) by (nonlinear_arith)
                requires
                    -0x8000_0000 <= cost <= 0x8000_0000,
                    0 <= template.cost_multiplier <= 0x1_0000_0000,
            ;
            cost = clamp_to_i32(
                divide_toward_zero((cost as i128) * (template.cost_multiplier as i128), MILLI),
            );
            i += 1;
        }
        cost
    }
}

/// Changing the level of the first entry for an id changes the level of
/// that id and of no other.
pub proof fn lemma_level_in_update(levels: Seq<UpgradeLevel>, i: int, entry: UpgradeLevel)
    requires
        0 <= i < levels.len(),
        entry.id@ == levels[i].id@,
        forall|j: int| 0 <= j < i ==> (#[trigger] levels[j]).id@ != entry.id@,
    ensures
        level_in(levels.update(i, entry), entry.id@) == entry.level,
        forall|other: Seq<char>|
            other != entry.id@ ==> level_in(levels.update(i, entry), other) == level_in(
                levels,
                other,
            ),
    decreases i,
{
    let after = levels.update(i, entry);
    if i == 0 {
        assert(after.drop_first() =~= levels.drop_first());
        assert forall|other: Seq<char>| other != entry.id@ implies level_in(after, other)
            == level_in(levels, other) by {
            assert(after[0].id@ != other);
            assert(levels[0].id@ != other);
        }
    } else {
        assert(after.drop_first() =~= levels.drop_first().update(i - 1, entry));
        assert forall|j: int| 0 <= j < i - 1 implies (#[trigger] levels.drop_first()[j]).id@
            != entry.id@ by {
            assert(levels[j + 1].id@ != entry.id@);
        }
        lemma_level_in_update(levels.drop_first(), i - 1, entry);
        assert(levels[0].id@ != entry.id@);
        assert(after[0] == levels[0]);
        assert forall|other: Seq<char>| other != entry.id@ implies level_in(after, other)
            == level_in(levels, other) by {
            if levels[0].id@ != other {
                assert(level_in(after.drop_first(), other) == level_in(levels.drop_first(), other));
            }
        }
    }
}

/// Appending an entry for an id that has none sets the level of that id
/// and of no other.
pub proof fn lemma_level_in_push(levels: Seq<UpgradeLevel>, entry: UpgradeLevel)
    requires
        forall|j: int| 0 <= j < levels.len() ==> (#[trigger] levels[j]).id@ != entry.id@,
    ensures
        level_in(levels.push(entry), entry.id@) == entry.level,
        forall|other: Seq<char>|
            other != entry.id@ ==> level_in(levels.push(entry), other) == level_in(levels, other),
    decreases levels.len(),
{
    let after = levels.push(entry);
    if levels.len() == 0 {
        assert(after.drop_first() =~= levels);
        assert forall|other: Seq<char>| other != entry.id@ implies level_in(after, other)
            == level_in(levels, other) by {
            assert(after[0].id@ != other);
        }
    } else {
        assert(after.drop_first() =~= levels.drop_first().push(entry));
        assert forall|j: int| 0 <= j < levels.drop_first().len() implies (
        #[trigger] levels.drop_first()[j]).id@ != entry.id@ by {
            assert(levels[j + 1].id@ != entry.id@);
        }
        lemma_level_in_push(levels.drop_first(), entry);
        assert(levels[0].id@ != entry.id@);
        assert(after[0] == levels[0]);
        assert forall|other: Seq<char>| other != entry.id@ implies level_in(after, other)
            == level_in(levels, other) by {
            if levels[0].id@ != other {
                assert(level_in(after.drop_first(), other) == level_in(levels.drop_first(), other));
            }
        }
    }
}

} // verus!
