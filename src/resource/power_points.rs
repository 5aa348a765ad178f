//! Power points, with which Brawlers level up.

use vstd::prelude::*;

verus! {

/// An amount of power points.
#[derive(Clone, Copy, Debug, PartialEq, Eq, Structural)]
pub struct PowerPoints(pub u32);

/// Power points needed to upgrade a Brawler to `level` from `level - 1`.
pub open spec fn required(level: int) -> int {
    if level == 2 {
        20
    } else if level == 3 {
        30
    } else if level == 4 {
        50
    } else if level == 5 {
        80
    } else if level == 6 {
        130
    } else if level == 7 {
        210
    } else if level == 8 {
        340
    } else if level == 9 {
        550
    } else {
        0
    }
}

/// Total power points a Brawler can hold at `level`: what the upgrades up to
/// the level after it take.
pub open spec fn max_at(level: int) -> int
    decreases level,
{
    if level <= 0 {
        0
    } else {
        max_at(level - 1) + required(level + 1)
    }
}

/// Power points still needed, with `total` power points, to reach the first
/// level from `level` on whose maximum covers them; 0 past level 9.
pub open spec fn gap_from(level: int, total: int) -> int
    decreases 10 - level,
{
    if level >= 10 {
        0
    } else if max_at(level) >= total {
        max_at(level) - total
    } else {
        gap_from(level + 1, total)
    }
}

/// The most power points any Brawler can hold.
pub proof fn lemma_max_at_bounded(level: int)
    ensures
        0 <= max_at(level) <= 1410,
        level >= 8 ==> max_at(level) == 1410,
    decreases level,
{
    if level > 0 {
        lemma_max_at_bounded(level - 1);
        if level <= 8 {
            reveal_with_fuel(max_at, 9);
        }
    }
}

impl PowerPoints {
    /// Power points required to unlock a Brawler.
    pub const LEVEL_ONE: u32 = 0;
    /// Power points required to upgrade a Brawler to level 2 from level 1.
    pub const LEVEL_TWO: u32 = 20;
    /// Power points required to upgrade a Brawler to level 3 from level 2.
    pub const LEVEL_THREE: u32 = 30;
    /// Power points required to upgrade a Brawler to level 4 from level 3.
    pub const LEVEL_FOUR: u32 = 50;
    /// Power points required to upgrade a Brawler to level 5 from level 4.
    pub const LEVEL_FIVE: u32 = 80;
    /// Power points required to upgrade a Brawler to level 6 from level 5.
    pub const LEVEL_SIX: u32 = 130;
    /// Power points required to upgrade a Brawler to level 7 from level 6.
    pub const LEVEL_SEVEN: u32 = 210;
    /// Power points required to upgrade a Brawler to level 8 from level 7.
    pub const LEVEL_EIGHT: u32 = 340;
    /// Power points required to upgrade a Brawler to level 9 from level 8.
    pub const LEVEL_NINE: u32 = 550;

    /// The power points it takes to max out a Brawler.
    pub fn max_power_points() -> (r: Self)
        ensures
            r.0 == max_at(8),
            r.0 == 1410,
    {
        proof {
            lemma_max_at_bounded(8);
        }
        PowerPoints(Self::LEVEL_TWO).const_add(PowerPoints(Self::LEVEL_THREE)).const_add(
            PowerPoints(Self::LEVEL_FOUR),
        ).const_add(PowerPoints(Self::LEVEL_FIVE)).const_add(PowerPoints(Self::LEVEL_SIX)).const_add(
            PowerPoints(Self::LEVEL_SEVEN),
        ).const_add(PowerPoints(Self::LEVEL_EIGHT)).const_add(PowerPoints(Self::LEVEL_NINE))
    }

    /// Power points required to upgrade a Brawler to `level` from `level - 1`.
    pub fn power_points_required(level: u8) -> (r: Self)
        ensures
            r.0 == required(level as int),
    {
        match level {
            2 => PowerPoints(Self::LEVEL_TWO),
            3 => PowerPoints(Self::LEVEL_THREE),
            4 => PowerPoints(Self::LEVEL_FOUR),
            5 => PowerPoints(Self::LEVEL_FIVE),
            6 => PowerPoints(Self::LEVEL_SIX),
            7 => PowerPoints(Self::LEVEL_SEVEN),
            8 => PowerPoints(Self::LEVEL_EIGHT),
            9 => PowerPoints(Self::LEVEL_NINE),
            _ => PowerPoints(Self::LEVEL_ONE),
        }
    }

    /// The most total power points a Brawler can have at `level`.
    pub fn max_at_level(level: u8) -> (r: Self)
        ensures
            r.0 == max_at(level as int),
    {
        let mut total: u32 = 0;
        let mut i: u8 = 0;
        while i < level
            invariant
                i <= level,
                total == max_at(i as int),
            decreases level - i,
        {
            proof {
                lemma_max_at_bounded(i as int);
            }
            if i < 9 {
                total = total + Self::power_points_required(i + 1 + 1).0;
            }
            i = i + 1;
        }
        PowerPoints(total)
    }

    /// Total power points of a Brawler at `level` that holds `power_points`
    /// at that level.
    pub fn total_from(power_points: Self, level: u8) -> (r: Self)
        requires
            max_at(level as int) + power_points.0 <= u32::MAX,
        ensures
            r.0 == max_at(level as int) + power_points.0,
    {
        Self::max_at_level(level).const_add(power_points)
    }

    /// Power points held at `level` by a Brawler with `total` power points.
    pub fn level_specific_from(total: Self, level: u8) -> (r: Self)
        requires
            total.0 >= max_at(level as int),
        ensures
            r.0 == total.0 - max_at(level as int),
    {
        total.const_sub(Self::max_at_level(level))
    }

    /// Converts power points held at `level` into total power points.
    pub fn to_total(self, level: u8) -> (r: Self)
        requires
            max_at(level as int) + self.0 <= u32::MAX,
        ensures
            r.0 == max_at(level as int) + self.0,
    {
        Self::total_from(self, level)
    }

    /// Converts total power points into those held at `level`.
    pub fn to_level_specific(self, level: u8) -> (r: Self)
        requires
            self.0 >= max_at(level as int),
        ensures
            r.0 == self.0 - max_at(level as int),
    {
        Self::level_specific_from(self, level)
    }

    /// Power points still needed to reach the next level, when `self` is
    /// the total a Brawler has.
    pub fn to_next_level(self) -> (r: Self)
        ensures
            r.0 == gap_from(1, self.0 as int),
    {
        let mut i: u8 = 1;
        while i < 10
            invariant
                1 <= i <= 10,
                gap_from(1, self.0 as int) == gap_from(i as int, self.0 as int),
            decreases 10 - i,
        {
            let max = Self::max_at_level(i).0;
            if max >= self.0 {
                return PowerPoints(max - self.0);
            }
            i = i + 1;
        }
        PowerPoints(0)
    }

    /// Checks if a Brawler with these total power points can be upgraded
    /// from `level`; Brawlers at level 9 or above cannot.
    pub fn can_upgrade(&self, level: u8) -> (r: bool)
        ensures
            r == (level < 9 && max_at(level as int) >= self.0),
    {
        level < 9 && Self::max_at_level(level).0 >= self.0
    }

    /// Adds two amounts.
    fn const_add(self, rhs: Self) -> (r: Self)
        requires
            self.0 + rhs.0 <= u32::MAX,
        ensures
            r.0 == self.0 + rhs.0,
    {
        PowerPoints(self.0 + rhs.0)
    }

    /// Subtracts `rhs` from this amount.
    fn const_sub(self, rhs: Self) -> (r: Self)
        requires
            self.0 >= rhs.0,
        ensures
            r.0 == self.0 - rhs.0,
    {
        PowerPoints(self.0 - rhs.0)
    }
}

impl From<u32> for PowerPoints {
    fn from(power_points: u32) -> (r: Self) {
        PowerPoints(power_points)
    }
}

impl vstd::std_specs::convert::FromSpecImpl<u32> for PowerPoints {
    open spec fn obeys_from_spec() -> bool {
        true
    }

    open spec fn from_spec(v: u32) -> Self {
        PowerPoints(v)
    }
}

} // verus!
