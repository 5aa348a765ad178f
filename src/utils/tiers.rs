//! Start-progress tier systems: Brawler levels, leagues and Brawler ranks.

use vstd::prelude::*;

verus! {

/// A Brawler level.
#[derive(Clone, Copy, Debug)]
pub struct Level {
    /// The number of power points at which the level starts.
    pub start: u32,
    /// The number of power points that must be collected to advance to the next level.
    pub progress: u32,
    /// The amount of currency required to advance to the next level.
    pub required_currency: u32,
}

impl Level {
    /// Creates a new level.
    pub fn new(start: u32, progress: u32, required_currency: u32) -> (r: Self)
        ensures
            r == (Level { start, progress, required_currency }),
    {
        Level { start, progress, required_currency }
    }

    /// The number of power points at which this level ends and the next begins.
    pub open spec fn end_spec(&self) -> int {
        self.start + self.progress
    }

    /// Returns the number of power points at which this level ends and the next begins.
    pub fn end(&self) -> (r: u32)
        requires
            self.end_spec() <= u32::MAX,
        ensures
            r == self.end_spec(),
    {
        self.start + self.progress
    }

    /// Checks if `units` power points are enough to advance past this level.
    pub fn can_advance(&self, units: u32) -> (r: bool)
        ensures
            r == (units >= self.end_spec()),
    {
        units as u64 >= self.start as u64 + self.progress as u64
    }
}

/// A list of levels, to assist with level-ups.
#[derive(Clone, Debug)]
pub struct LevelManager(pub Vec<Level>);

impl LevelManager {
    /// Each level ends where the next one starts.
    pub open spec fn valid(&self) -> bool {
        forall|i: int| 0 <= i < self.0@.len() - 1 ==> #[trigger] self.0@[i].end_spec() == self.0@[i + 1].start
    }

    /// Creates a manager from levels already sorted by their start.
    pub fn from_sorted(tiers: Vec<Level>) -> (r: Self)
        ensures
            r.0@ == tiers@,
    {
        LevelManager(tiers)
    }

    /// Creates a manager from sorted levels, if each ends where the next starts.
    pub fn try_from_sorted(tiers: Vec<Level>) -> (r: Option<Self>)
        ensures
            r matches Some(m) ==> m.0@ == tiers@,
            r is Some <==> (LevelManager(tiers)).valid(),
    {
        let manager = LevelManager(tiers);
        if manager.is_valid() {
            Some(manager)
        } else {
            None
        }
    }

    /// Checks that each level ends where the next one starts.
    pub fn is_valid(&self) -> (r: bool)
        ensures
            r == self.valid(),
    {
        let n = self.0.len();
        if n < 2 {
            return true;
        }
        let mut i: usize = 0;
        while i + 1 < n
            invariant
                n == self.0@.len(),
                n >= 2,
                i + 1 <= n,
                forall|j: int| 0 <= j < i ==> #[trigger] self.0@[j].end_spec() == self.0@[j + 1].start,
            decreases n - i,
        {
            if self.0[i].start as u64 + self.0[i].progress as u64 != self.0[i + 1].start as u64 {
                assert(self.0@[i as int].end_spec() != self.0@[i as int + 1].start);
                return false;
            }
            i = i + 1;
        }
        true
    }

    /// Returns the level at `index`.
    pub fn get(&self, index: usize) -> (r: Option<&Level>)
        ensures
            index < self.0@.len() ==> r == Some(&self.0@[index as int]),
            index >= self.0@.len() ==> r is None,
    {
        if index < self.0.len() {
            Some(&self.0[index])
        } else {
            None
        }
    }

    /// Returns the level that `trophies` advance past: of those that
    /// end at or below `trophies`, the last one before their distance from
    /// `trophies` starts to grow. `None` if `trophies` pass the end of none.
    pub fn advance_rank(&self, trophies: u32) -> (r: Option<&Level>)
        ensures
            r is None <==> forall|j: int| 0 <= j < self.0@.len() ==> #[trigger] self.0@[j].end_spec() > trophies,
            r matches Some(t) ==> exists|i: int| 0 <= i < self.0@.len() && self.0@[i] == *t && t.end_spec() <= trophies,
    {
        let mut difference: u64 = u64::MAX;
        let mut previous: Option<&Level> = None;
        let mut i: usize = 0;
        while i < self.0.len()
            invariant
                i <= self.0@.len(),
                previous is None <==> forall|j: int| 0 <= j < i ==> #[trigger] self.0@[j].end_spec() > trophies,
                (previous is None) == (difference == u64::MAX),
                previous matches Some(t) ==> exists|k: int| 0 <= k < self.0@.len() && self.0@[k] == *t && t.end_spec() <= trophies,
            decreases self.0@.len() - i,
        {
            let tier = &self.0[i];
            let end = tier.start as u64 + tier.progress as u64;
            assert(end == self.0@[i as int].end_spec());
            if trophies as u64 >= end {
                let current = trophies as u64 - end;
                if difference < current {
                    return previous;
                }
                difference = current;
                previous = Some(tier);
            }
            i = i + 1;
        }
        previous
    }

    /// Returns all levels of the manager.
    pub fn tiers(&self) -> (r: &[Level])
        ensures
            r@ == self.0@,
    {
        self.0.as_slice()
    }

    /// Returns the first level that `units` power points fall in; `None` if there is none.
    pub fn tier_from_units(&self, units: u32) -> (r: Option<&Level>)
        ensures
            r matches Some(t) ==> exists|i: int|
                0 <= i < self.0@.len() && self.0@[i] == *t && t.start <= units < t.end_spec()
                    && forall|j: int| 0 <= j < i ==> !(self.0@[j].start <= units < #[trigger] self.0@[j].end_spec()),
            r is None ==> forall|j: int|
                0 <= j < self.0@.len() ==> !(self.0@[j].start <= units < #[trigger] self.0@[j].end_spec()),
    {
        let mut i: usize = 0;
        while i < self.0.len()
            invariant
                i <= self.0@.len(),
                forall|j: int| 0 <= j < i ==> !(self.0@[j].start <= units < #[trigger] self.0@[j].end_spec()),
            decreases self.0@.len() - i,
        {
            let t = &self.0[i];
            if units >= t.start && (units as u64) < t.start as u64 + t.progress as u64 {
                return Some(t);
            }
            i = i + 1;
        }
        None
    }
}

/// A league of the Trophy Road.
#[derive(Clone, Debug)]
pub struct League {
    /// The name of the league.
    pub name: String,
    /// The number of trophies at which the league begins.
    pub start: u32,
    /// The number of trophies which must be gained in this league to qualify for the next league.
    pub progress: u32,
}

impl League {
    /// Creates a new league.
    pub fn new(name: String, start: u32, progress: u32) -> (r: Self)
        ensures
            r == (League { name, start, progress }),
    {
        League { name, start, progress }
    }

    /// The number of trophies at which this league ends and the next begins.
    pub open spec fn end_spec(&self) -> int {
        self.start + self.progress
    }

    /// Returns the number of trophies at which this league ends and the next begins.
    pub fn end(&self) -> (r: u32)
        requires
            self.end_spec() <= u32::MAX,
        ensures
            r == self.end_spec(),
    {
        self.start + self.progress
    }

    /// Checks if `units` trophies are enough to advance past this league.
    pub fn can_advance(&self, units: u32) -> (r: bool)
        ensures
            r == (units >= self.end_spec()),
    {
        units as u64 >= self.start as u64 + self.progress as u64
    }
}

/// A list of leagues, to assist with league-ups.
#[derive(Clone, Debug)]
pub struct LeagueManager(pub Vec<League>);

impl LeagueManager {
    /// Each league ends where the next one starts.
    pub open spec fn valid(&self) -> bool {
        forall|i: int| 0 <= i < self.0@.len() - 1 ==> #[trigger] self.0@[i].end_spec() == self.0@[i + 1].start
    }

    /// Creates a manager from leagues already sorted by their start.
    pub fn from_sorted(tiers: Vec<League>) -> (r: Self)
        ensures
            r.0@ == tiers@,
    {
        LeagueManager(tiers)
    }

    /// Creates a manager from sorted leagues, if each ends where the next starts.
    pub fn try_from_sorted(tiers: Vec<League>) -> (r: Option<Self>)
        ensures
            r matches Some(m) ==> m.0@ == tiers@,
            r is Some <==> (LeagueManager(tiers)).valid(),
    {
        let manager = LeagueManager(tiers);
        if manager.is_valid() {
            Some(manager)
        } else {
            None
        }
    }

    /// Checks that each league ends where the next one starts.
    pub fn is_valid(&self) -> (r: bool)
        ensures
            r == self.valid(),
    {
        let n = self.0.len();
        if n < 2 {
            return true;
        }
        let mut i: usize = 0;
        while i + 1 < n
            invariant
                n == self.0@.len(),
                n >= 2,
                i + 1 <= n,
                forall|j: int| 0 <= j < i ==> #[trigger] self.0@[j].end_spec() == self.0@[j + 1].start,
            decreases n - i,
        {
            if self.0[i].start as u64 + self.0[i].progress as u64 != self.0[i + 1].start as u64 {
                assert(self.0@[i as int].end_spec() != self.0@[i as int + 1].start);
                return false;
            }
            i = i + 1;
        }
        true
    }

    /// Returns the league at `index`.
    pub fn get(&self, index: usize) -> (r: Option<&League>)
        ensures
            index < self.0@.len() ==> r == Some(&self.0@[index as int]),
            index >= self.0@.len() ==> r is None,
    {
        if index < self.0.len() {
            Some(&self.0[index])
        } else {
            None
        }
    }

    /// Returns the league that `trophies` advance past: of those that
    /// end at or below `trophies`, the last one before their distance from
    /// `trophies` starts to grow. `None` if `trophies` pass the end of none.
    pub fn advance_rank(&self, trophies: u32) -> (r: Option<&League>)
        ensures
            r is None <==> forall|j: int| 0 <= j < self.0@.len() ==> #[trigger] self.0@[j].end_spec() > trophies,
            r matches Some(t) ==> exists|i: int| 0 <= i < self.0@.len() && self.0@[i] == *t && t.end_spec() <= trophies,
    {
        let mut difference: u64 = u64::MAX;
        let mut previous: Option<&League> = None;
        let mut i: usize = 0;
        while i < self.0.len()
            invariant
                i <= self.0@.len(),
                previous is None <==> forall|j: int| 0 <= j < i ==> #[trigger] self.0@[j].end_spec() > trophies,
                (previous is None) == (difference == u64::MAX),
                previous matches Some(t) ==> exists|k: int| 0 <= k < self.0@.len() && self.0@[k] == *t && t.end_spec() <= trophies,
            decreases self.0@.len() - i,
        {
            let tier = &self.0[i];
            let end = tier.start as u64 + tier.progress as u64;
            assert(end == self.0@[i as int].end_spec());
            if trophies as u64 >= end {
                let current = trophies as u64 - end;
                if difference < current {
                    return previous;
                }
                difference = current;
                previous = Some(tier);
            }
            i = i + 1;
        }
        previous
    }

    /// Returns all leagues of the manager.
    pub fn tiers(&self) -> (r: &[League])
        ensures
            r@ == self.0@,
    {
        self.0.as_slice()
    }

    /// Returns the first league that `units` trophies fall in; `None` if there is none.
    pub fn tier_from_units(&self, units: u32) -> (r: Option<&League>)
        ensures
            r matches Some(t) ==> exists|i: int|
                0 <= i < self.0@.len() && self.0@[i] == *t && t.start <= units < t.end_spec()
                    && forall|j: int| 0 <= j < i ==> !(self.0@[j].start <= units < #[trigger] self.0@[j].end_spec()),
            r is None ==> forall|j: int|
                0 <= j < self.0@.len() ==> !(self.0@[j].start <= units < #[trigger] self.0@[j].end_spec()),
    {
        let mut i: usize = 0;
        while i < self.0.len()
            invariant
                i <= self.0@.len(),
                forall|j: int| 0 <= j < i ==> !(self.0@[j].start <= units < #[trigger] self.0@[j].end_spec()),
            decreases self.0@.len() - i,
        {
            let t = &self.0[i];
            if units >= t.start && (units as u64) < t.start as u64 + t.progress as u64 {
                return Some(t);
            }
            i = i + 1;
        }
        None
    }
}

/// The trophy rank of a Brawler.
#[derive(Clone, Copy, Debug)]
pub struct Rank {
    /// The number of trophies at which the rank begins.
    pub start: u32,
    /// The number of trophies which must be gained at this rank to qualify for the next rank.
    pub progress: u32,
    /// The count of the primary reward for leveling up from the rank.
    pub primary_reward_count: u32,
    /// The count of the secondary reward for leveling up from the rank.
    pub secondary_reward_count: u32,
}

impl Rank {
    /// Creates a new rank.
    pub fn new(start: u32, progress: u32, primary_reward_count: u32, secondary_reward_count: u32) -> (r: Self)
        ensures
            r == (Rank { start, progress, primary_reward_count, secondary_reward_count }),
    {
        Rank { start, progress, primary_reward_count, secondary_reward_count }
    }

    /// The number of trophies at which this rank ends and the next begins.
    pub open spec fn end_spec(&self) -> int {
        self.start + self.progress
    }

    /// Returns the number of trophies at which this rank ends and the next begins.
    pub fn end(&self) -> (r: u32)
        requires
            self.end_spec() <= u32::MAX,
        ensures
            r == self.end_spec(),
    {
        self.start + self.progress
    }

    /// Checks if `units` trophies are enough to advance past this rank.
    pub fn can_advance(&self, units: u32) -> (r: bool)
        ensures
            r == (units >= self.end_spec()),
    {
        units as u64 >= self.start as u64 + self.progress as u64
    }
}

/// A list of ranks, to assist with rank-ups.
#[derive(Clone, Debug)]
pub struct RankManager(pub Vec<Rank>);

impl RankManager {
    /// Each rank ends where the next one starts.
    pub open spec fn valid(&self) -> bool {
        forall|i: int| 0 <= i < self.0@.len() - 1 ==> #[trigger] self.0@[i].end_spec() == self.0@[i + 1].start
    }

    /// Creates a manager from ranks already sorted by their start.
    pub fn from_sorted(tiers: Vec<Rank>) -> (r: Self)
        ensures
            r.0@ == tiers@,
    {
        RankManager(tiers)
    }

    /// Creates a manager from sorted ranks, if each ends where the next starts.
    pub fn try_from_sorted(tiers: Vec<Rank>) -> (r: Option<Self>)
        ensures
            r matches Some(m) ==> m.0@ == tiers@,
            r is Some <==> (RankManager(tiers)).valid(),
    {
        let manager = RankManager(tiers);
        if manager.is_valid() {
            Some(manager)
        } else {
            None
        }
    }

    /// Checks that each rank ends where the next one starts.
    pub fn is_valid(&self) -> (r: bool)
        ensures
            r == self.valid(),
    {
        let n = self.0.len();
        if n < 2 {
            return true;
        }
        let mut i: usize = 0;
        while i + 1 < n
            invariant
                n == self.0@.len(),
                n >= 2,
                i + 1 <= n,
                forall|j: int| 0 <= j < i ==> #[trigger] self.0@[j].end_spec() == self.0@[j + 1].start,
            decreases n - i,
        {
            if self.0[i].start as u64 + self.0[i].progress as u64 != self.0[i + 1].start as u64 {
                assert(self.0@[i as int].end_spec() != self.0@[i as int + 1].start);
                return false;
            }
            i = i + 1;
        }
        true
    }

    /// Returns the rank at `index`.
    pub fn get(&self, index: usize) -> (r: Option<&Rank>)
        ensures
            index < self.0@.len() ==> r == Some(&self.0@[index as int]),
            index >= self.0@.len() ==> r is None,
    {
        if index < self.0.len() {
            Some(&self.0[index])
        } else {
            None
        }
    }

    /// Returns the rank that `trophies` advance past: of those that
    /// end at or below `trophies`, the last one before their distance from
    /// `trophies` starts to grow. `None` if `trophies` pass the end of none.
    pub fn advance_rank(&self, trophies: u32) -> (r: Option<&Rank>)
        ensures
            r is None <==> forall|j: int| 0 <= j < self.0@.len() ==> #[trigger] self.0@[j].end_spec() > trophies,
            r matches Some(t) ==> exists|i: int| 0 <= i < self.0@.len() && self.0@[i] == *t && t.end_spec() <= trophies,
    {
        let mut difference: u64 = u64::MAX;
        let mut previous: Option<&Rank> = None;
        let mut i: usize = 0;
        while i < self.0.len()
            invariant
                i <= self.0@.len(),
                previous is None <==> forall|j: int| 0 <= j < i ==> #[trigger] self.0@[j].end_spec() > trophies,
                (previous is None) == (difference == u64::MAX),
                previous matches Some(t) ==> exists|k: int| 0 <= k < self.0@.len() && self.0@[k] == *t && t.end_spec() <= trophies,
            decreases self.0@.len() - i,
        {
            let tier = &self.0[i];
            let end = tier.start as u64 + tier.progress as u64;
            assert(end == self.0@[i as int].end_spec());
            if trophies as u64 >= end {
                let current = trophies as u64 - end;
                if difference < current {
                    return previous;
                }
                difference = current;
                previous = Some(tier);
            }
            i = i + 1;
        }
        previous
    }

    /// Returns all ranks of the manager.
    pub fn tiers(&self) -> (r: &[Rank])
        ensures
            r@ == self.0@,
    {
        self.0.as_slice()
    }

    /// Returns the first rank that `units` trophies fall in; `None` if there is none.
    pub fn tier_from_units(&self, units: u32) -> (r: Option<&Rank>)
        ensures
            r matches Some(t) ==> exists|i: int|
                0 <= i < self.0@.len() && self.0@[i] == *t && t.start <= units < t.end_spec()
                    && forall|j: int| 0 <= j < i ==> !(self.0@[j].start <= units < #[trigger] self.0@[j].end_spec()),
            r is None ==> forall|j: int|
                0 <= j < self.0@.len() ==> !(self.0@[j].start <= units < #[trigger] self.0@[j].end_spec()),
    {
        let mut i: usize = 0;
        while i < self.0.len()
            invariant
                i <= self.0@.len(),
                forall|j: int| 0 <= j < i ==> !(self.0@[j].start <= units < #[trigger] self.0@[j].end_spec()),
            decreases self.0@.len() - i,
        {
            let t = &self.0[i];
            if units >= t.start && (units as u64) < t.start as u64 + t.progress as u64 {
                return Some(t);
            }
            i = i + 1;
        }
        None
    }
}

impl LevelManager {
    /// The number of power points required to level up from `level`; `None`
    /// if the manager holds no such level.
    pub fn level_up_cost(&self, level: u8) -> (r: Option<u32>)
        ensures
            (level == 0 || level > self.0@.len()) ==> r is None,
            (1 <= level <= self.0@.len()) ==> r == Some(self.0@[level - 1].required_currency),
    {
        if level == 0 {
            None
        } else {
            match self.get(level as usize - 1) {
                Some(l) => Some(l.required_currency),
                None => None,
            }
        }
    }
}

} // verus!
