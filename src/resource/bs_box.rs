//! Brawl Boxes and the rewards they hold.

use vstd::prelude::*;

use crate::model::brawler::{Brawler, ChromaticSeason, Rarity};
use crate::resource::power_points::{max_at, PowerPoints};
use crate::utils::rng::{random_below, select_one, split_in_integers, sum_of, weight_sum, weighted_random};

verus! {

/// A Brawl Box.
#[derive(Clone, Copy, Debug)]
pub struct BsBox {
    /// The type of the box.
    pub box_type: BoxType,
}

/// The type of a box.
#[derive(Clone, Copy, Debug)]
pub enum BoxType {
    /// A Brawl Box.
    Brawl,
    /// A Big Box.
    Big,
    /// A Mega Box.
    Mega,
    /// A box with custom data.
    Custom(BoxData),
}

/// What a box can hold.
#[derive(Clone, Copy, Debug)]
pub struct BoxData {
    /// The number of items in the box.
    pub total: u8,
    /// Lowest, highest and average power points the box gives.
    pub power_points: [u32; 3],
    /// Lowest, highest and average gold the box gives.
    pub gold: [u32; 3],
}

impl BoxData {
    /// Creates new box data.
    pub fn new(total: u8, power_points: [u32; 3], gold: [u32; 3]) -> (r: Self)
        ensures
            r == (BoxData { total, power_points, gold }),
    {
        BoxData { total, power_points, gold }
    }
}

impl BoxType {
    /// The data of boxes of type `t`.
    pub open spec fn data_of(t: BoxType) -> BoxData {
        match t {
            BoxType::Brawl => BoxData { total: 2, power_points: [7, 25, 14], gold: [12, 70, 19] },
            BoxType::Big => BoxData { total: 5, power_points: [27, 75, 46], gold: [36, 210, 63] },
            BoxType::Mega => BoxData { total: 9, power_points: [81, 225, 132], gold: [6, 210, 63] },
            BoxType::Custom(data) => data,
        }
    }

    /// Returns the data of boxes of this type.
    pub fn box_data(&self) -> (r: BoxData)
        ensures
            r == Self::data_of(*self),
    {
        match self {
            BoxType::Brawl => BoxData { total: 2, power_points: [7, 25, 14], gold: [12, 70, 19] },
            BoxType::Big => BoxData { total: 5, power_points: [27, 75, 46], gold: [36, 210, 63] },
            BoxType::Mega => BoxData { total: 9, power_points: [81, 225, 132], gold: [6, 210, 63] },
            BoxType::Custom(data) => *data,
        }
    }
}

impl BsBox {
    /// Creates a new box of `box_type`.
    pub fn new(box_type: BoxType) -> (r: Self)
        ensures
            r == (BsBox { box_type }),
    {
        BsBox { box_type }
    }

    /// Creates a new Brawl Box.
    pub fn brawl_box() -> (r: Self)
        ensures
            r == (BsBox { box_type: BoxType::Brawl }),
    {
        Self::new(BoxType::Brawl)
    }

    /// Creates a new Big Box.
    pub fn big_box() -> (r: Self)
        ensures
            r == (BsBox { box_type: BoxType::Big }),
    {
        Self::new(BoxType::Big)
    }

    /// Creates a new Mega Box.
    pub fn mega_box() -> (r: Self)
        ensures
            r == (BsBox { box_type: BoxType::Mega }),
    {
        Self::new(BoxType::Mega)
    }
}

/// The default odds, in percent, to get token doublers as reward.
pub const TOKEN_DOUBLER_ODDS: u32 = 9;

/// The default amount of token doublers given as reward.
pub const TOKEN_DOUBLER_QUANTITY: u32 = 200;

/// Items that come in two variants, such as a Brawler's two gadgets: which
/// of the two are present.
#[derive(Clone, Copy, Debug, PartialEq, Eq, Structural)]
pub struct TwoVariantsInfo {
    /// Whether the first variant is present.
    pub first: bool,
    /// Whether the second variant is present.
    pub second: bool,
}

impl TwoVariantsInfo {
    /// Creates a new pair of variants.
    pub fn new(first: bool, second: bool) -> (r: Self)
        ensures
            r == (TwoVariantsInfo { first, second }),
    {
        TwoVariantsInfo { first, second }
    }

    /// Adds the variants present in `other`.
    pub fn combine(&mut self, other: &Self)
        ensures
            *final(self) == (TwoVariantsInfo {
                first: old(self).first || other.first,
                second: old(self).second || other.second,
            }),
    {
        self.first = self.first || other.first;
        self.second = self.second || other.second;
    }

    /// Returns true if at least one of the variants is present.
    pub fn has_at_least_one(&self) -> (r: bool)
        ensures
            r == (self.first || self.second),
    {
        self.first || self.second
    }
}

/// A player's Brawler, as box rewards see it.
#[derive(Clone, Debug)]
pub struct BrawlerData {
    /// Name of the Brawler.
    pub name: String,
    /// Power level of the Brawler.
    pub level: u8,
    /// Power points the Brawler holds at its current level, not counting
    /// those spent on level-ups.
    pub power_points: u32,
    /// Which gadgets the Brawler has.
    pub gadgets: TwoVariantsInfo,
    /// Which star powers the Brawler has.
    pub star_powers: TwoVariantsInfo,
}

impl BrawlerData {
    /// Creates the data of a player's Brawler. `power_points` counts only
    /// those held at the current level.
    pub fn new(
        name: String,
        level: u8,
        power_points: u32,
        first_gadget: bool,
        second_gadget: bool,
        first_sp: bool,
        second_sp: bool,
    ) -> (r: Self)
        ensures
            r.name == name,
            r.level == level,
            r.power_points == power_points,
            r.gadgets == (TwoVariantsInfo { first: first_gadget, second: second_gadget }),
            r.star_powers == (TwoVariantsInfo { first: first_sp, second: second_sp }),
    {
        BrawlerData {
            name,
            level,
            power_points,
            gadgets: TwoVariantsInfo::new(first_gadget, second_gadget),
            star_powers: TwoVariantsInfo::new(first_sp, second_sp),
        }
    }
}

/// The rarities a Brawler from a box can have.
#[derive(Clone, Copy, Debug, PartialEq, Eq, Hash, Structural)]
pub enum UnlockableRarity {
    /// Rare.
    Rare,
    /// Super Rare.
    SuperRare,
    /// Epic.
    Epic,
    /// Mythic.
    Mythic,
    /// Legendary.
    Legendary,
}

impl UnlockableRarity {
    /// The box rarity of Brawlers of rarity `r`: Chromatic Brawlers count by
    /// their season, Trophy Road Brawlers never come from boxes.
    pub open spec fn of_rarity(r: Rarity) -> Option<UnlockableRarity> {
        match r {
            Rarity::TrophyRoad(_) => None,
            Rarity::Rare => Some(UnlockableRarity::Rare),
            Rarity::SuperRare => Some(UnlockableRarity::SuperRare),
            Rarity::Epic => Some(UnlockableRarity::Epic),
            Rarity::Mythic => Some(UnlockableRarity::Mythic),
            Rarity::Legendary => Some(UnlockableRarity::Legendary),
            Rarity::Chromatic(ChromaticSeason::First) => Some(UnlockableRarity::Legendary),
            Rarity::Chromatic(ChromaticSeason::Second) => Some(UnlockableRarity::Mythic),
            Rarity::Chromatic(ChromaticSeason::Third) => Some(UnlockableRarity::Epic),
        }
    }

    /// The rarity right under `r`, if there is one.
    pub open spec fn below(r: UnlockableRarity) -> Option<UnlockableRarity> {
        match r {
            UnlockableRarity::Legendary => Some(UnlockableRarity::Mythic),
            UnlockableRarity::Mythic => Some(UnlockableRarity::Epic),
            UnlockableRarity::Epic => Some(UnlockableRarity::SuperRare),
            UnlockableRarity::SuperRare => Some(UnlockableRarity::Rare),
            UnlockableRarity::Rare => None,
        }
    }

    /// Position of `r` from the bottom, Rare being 0.
    pub open spec fn rank(r: UnlockableRarity) -> nat {
        match r {
            UnlockableRarity::Rare => 0,
            UnlockableRarity::SuperRare => 1,
            UnlockableRarity::Epic => 2,
            UnlockableRarity::Mythic => 3,
            UnlockableRarity::Legendary => 4,
        }
    }

    /// Creates the box rarity of Brawlers of `rarity`.
    pub fn from_rarity(rarity: Rarity) -> (r: Option<Self>)
        ensures
            r == Self::of_rarity(rarity),
    {
        match rarity {
            Rarity::TrophyRoad(_) => None,
            Rarity::Rare => Some(UnlockableRarity::Rare),
            Rarity::SuperRare => Some(UnlockableRarity::SuperRare),
            Rarity::Epic => Some(UnlockableRarity::Epic),
            Rarity::Mythic => Some(UnlockableRarity::Mythic),
            Rarity::Legendary => Some(UnlockableRarity::Legendary),
            Rarity::Chromatic(season) => match season {
                ChromaticSeason::First => Some(UnlockableRarity::Legendary),
                ChromaticSeason::Second => Some(UnlockableRarity::Mythic),
                ChromaticSeason::Third => Some(UnlockableRarity::Epic),
            },
        }
    }

    /// Returns the rarity right under this one; Rare has none.
    pub fn lower(&self) -> (r: Option<Self>)
        ensures
            r == Self::below(*self),
    {
        match *self {
            UnlockableRarity::Legendary => Some(UnlockableRarity::Mythic),
            UnlockableRarity::Mythic => Some(UnlockableRarity::Epic),
            UnlockableRarity::Epic => Some(UnlockableRarity::SuperRare),
            UnlockableRarity::SuperRare => Some(UnlockableRarity::Rare),
            _ => None,
        }
    }
}

/// `rarity` has at least one Brawler left to unlock in `unlockable`.
pub open spec fn has_unlockable(unlockable: Seq<(UnlockableRarity, String)>, rarity: UnlockableRarity) -> bool {
    exists|i: int| 0 <= i < unlockable.len() && #[trigger] unlockable[i].0 == rarity
}

/// The first rarity from `rarity` down that has a Brawler left to unlock.
pub open spec fn valid_rarity(unlockable: Seq<(UnlockableRarity, String)>, rarity: UnlockableRarity) -> Option<UnlockableRarity>
    decreases UnlockableRarity::rank(rarity),
{
    if has_unlockable(unlockable, rarity) {
        Some(rarity)
    } else {
        match UnlockableRarity::below(rarity) {
            Some(lower) => valid_rarity(unlockable, lower),
            None => None,
        }
    }
}

/// The rarity found from `rarity` down has a Brawler left to unlock.
proof fn lemma_valid_rarity_has_unlockable(unlockable: Seq<(UnlockableRarity, String)>, rarity: UnlockableRarity)
    ensures
        valid_rarity(unlockable, rarity) matches Some(x) ==> has_unlockable(unlockable, x),
    decreases UnlockableRarity::rank(rarity),
{
    if !has_unlockable(unlockable, rarity) {
        match UnlockableRarity::below(rarity) {
            Some(lower) => lemma_valid_rarity_has_unlockable(unlockable, lower),
            None => {},
        }
    }
}

/// Checks whether `rarity` has a Brawler left to unlock.
fn rarity_has_unlockable(unlockable: &Vec<(UnlockableRarity, String)>, rarity: UnlockableRarity) -> (r: bool)
    ensures
        r == has_unlockable(unlockable@, rarity),
{
    let mut i: usize = 0;
    while i < unlockable.len()
        invariant
            i <= unlockable@.len(),
            forall|j: int| 0 <= j < i ==> !(#[trigger] unlockable@[j].0 == rarity),
        decreases unlockable@.len() - i,
    {
        if unlockable[i].0 == rarity {
            return true;
        }
        i = i + 1;
    }
    false
}

/// Returns the first rarity from `rarity` down for which a Brawler can still
/// be unlocked, or `None` if there is none.
pub fn get_valid_rarity(rarity: UnlockableRarity, unlockable_brawlers: &Vec<(UnlockableRarity, String)>) -> (r: Option<UnlockableRarity>)
    ensures
        r == valid_rarity(unlockable_brawlers@, rarity),
{
    let mut current = rarity;
    loop
        invariant
            valid_rarity(unlockable_brawlers@, rarity) == valid_rarity(unlockable_brawlers@, current),
        decreases UnlockableRarity::rank(current),
    {
        if rarity_has_unlockable(unlockable_brawlers, current) {
            return Some(current);
        }
        match current.lower() {
            Some(lower) => current = lower,
            None => return None,
        }
    }
}

/// Gadgets unlocked for a Brawler.
#[derive(Clone, Copy, Debug, PartialEq, Eq, Structural)]
pub struct UnlockedGadgets(pub TwoVariantsInfo);

impl UnlockedGadgets {
    /// Returns true if the first gadget is unlocked.
    pub fn first(&self) -> (r: bool)
        ensures
            r == self.0.first,
    {
        self.0.first
    }

    /// Returns true if the second gadget is unlocked.
    pub fn second(&self) -> (r: bool)
        ensures
            r == self.0.second,
    {
        self.0.second
    }

    /// Sets whether the first gadget is unlocked.
    pub fn set_first(&mut self, value: bool)
        ensures
            final(self).0 == (TwoVariantsInfo { first: value, ..old(self).0 }),
    {
        self.0.first = value;
    }

    /// Sets whether the second gadget is unlocked.
    pub fn set_second(&mut self, value: bool)
        ensures
            final(self).0 == (TwoVariantsInfo { second: value, ..old(self).0 }),
    {
        self.0.second = value;
    }
}

/// Star powers unlocked for a Brawler.
#[derive(Clone, Copy, Debug, PartialEq, Eq, Structural)]
pub struct UnlockedStarPowers(pub TwoVariantsInfo);

impl UnlockedStarPowers {
    /// Returns true if the first star power is unlocked.
    pub fn first(&self) -> (r: bool)
        ensures
            r == self.0.first,
    {
        self.0.first
    }

    /// Returns true if the second star power is unlocked.
    pub fn second(&self) -> (r: bool)
        ensures
            r == self.0.second,
    {
        self.0.second
    }

    /// Sets whether the first star power is unlocked.
    pub fn set_first(&mut self, value: bool)
        ensures
            final(self).0 == (TwoVariantsInfo { first: value, ..old(self).0 }),
    {
        self.0.first = value;
    }

    /// Sets whether the second star power is unlocked.
    pub fn set_second(&mut self, value: bool)
        ensures
            final(self).0 == (TwoVariantsInfo { second: value, ..old(self).0 }),
    {
        self.0.second = value;
    }
}

/// Index of the entry named `name` in `entries`, if there is one.
pub open spec fn index_of<T>(entries: Seq<(String, T)>, name: Seq<char>) -> int
    decreases entries.len(),
{
    if entries.len() == 0 {
        -1
    } else if entries.last().0@ == name {
        entries.len() - 1
    } else {
        index_of(entries.drop_last(), name)
    }
}

/// Finds the last entry named `name`.
fn find_entry<T>(entries: &Vec<(String, T)>, name: &String) -> (r: Option<usize>)
    ensures
        r matches Some(i) ==> i == index_of(entries@, name@) && i < entries@.len(),
        r is None ==> index_of(entries@, name@) == -1,
{
    let mut i: usize = entries.len();
    assert(entries@.subrange(0, i as int) =~= entries@);
    while i > 0
        invariant
            i <= entries@.len(),
            index_of(entries@, name@) == index_of(entries@.subrange(0, i as int), name@),
        decreases i,
    {
        proof {
            assert(entries@.subrange(0, i as int).drop_last() =~= entries@.subrange(0, i - 1));
        }
        if entries[i - 1].0 == *name {
            return Some(i - 1);
        }
        i = i - 1;
    }
    proof {
        assert(entries@.subrange(0, 0).len() == 0);
    }
    None
}

/// Rewards unlocked by opening a box.
#[derive(Clone, Debug)]
pub struct BoxRewards {
    /// Names of the Brawlers unlocked.
    pub brawlers: Vec<String>,
    /// Power points collected, by Brawler.
    pub power_points: Vec<(String, PowerPoints)>,
    /// Gadgets unlocked, by Brawler.
    pub gadgets: Vec<(String, UnlockedGadgets)>,
    /// Star powers unlocked, by Brawler.
    pub star_powers: Vec<(String, UnlockedStarPowers)>,
    /// Amount of gold collected.
    pub gold: u32,
    /// Amount of token doublers collected.
    pub token_doublers: Option<u32>,
}

impl BoxRewards {
    /// No rewards yet, but `gold`.
    pub fn with_gold(gold: u32) -> (r: Self)
        ensures
            r.brawlers@.len() == 0,
            r.power_points@.len() == 0,
            r.gadgets@.len() == 0,
            r.star_powers@.len() == 0,
            r.gold == gold,
            r.token_doublers is None,
    {
        BoxRewards {
            brawlers: Vec::new(),
            power_points: Vec::new(),
            gadgets: Vec::new(),
            star_powers: Vec::new(),
            gold,
            token_doublers: None,
        }
    }

    /// Adds `power_points` for `brawler`, on top of any it already got.
    pub fn add_power_points(&mut self, brawler: String, power_points: PowerPoints)
        requires
            index_of(old(self).power_points@, brawler@) >= 0 ==> old(self).power_points@[index_of(
                old(self).power_points@,
                brawler@,
            )].1.0 + power_points.0 <= u32::MAX,
        ensures
            ({
                let i = index_of(old(self).power_points@, brawler@);
                if i >= 0 {
                    &&& final(self).power_points@.len() == old(self).power_points@.len()
                    &&& final(self).power_points@[i].0@ == brawler@
                    &&& final(self).power_points@[i].1.0 == old(self).power_points@[i].1.0 + power_points.0
                    &&& forall|j: int| 0 <= j < old(self).power_points@.len() && j != i
                        ==> final(self).power_points@[j] == old(self).power_points@[j]
                } else {
                    &&& final(self).power_points@.len() == old(self).power_points@.len() + 1
                    &&& final(self).power_points@.last().0@ == brawler@
                    &&& final(self).power_points@.last().1 == power_points
                    &&& final(self).power_points@.drop_last() == old(self).power_points@
                }
            }),
            final(self).brawlers == old(self).brawlers,
            final(self).gadgets == old(self).gadgets,
            final(self).star_powers == old(self).star_powers,
            final(self).gold == old(self).gold,
            final(self).token_doublers == old(self).token_doublers,
    {
        match find_entry(&self.power_points, &brawler) {
            Some(i) => {
                let total = PowerPoints(self.power_points[i].1.0 + power_points.0);
                self.power_points.set(i, (brawler, total));
            },
            None => {
                self.power_points.push((brawler, power_points));
                assert(self.power_points@.drop_last() =~= old(self).power_points@);
            },
        }
    }

    /// Adds a new Brawler.
    pub fn add_brawler(&mut self, brawler: String)
        ensures
            final(self).brawlers@.len() == old(self).brawlers@.len() + 1,
            final(self).brawlers@.last()@ == brawler@,
            final(self).brawlers@.drop_last() == old(self).brawlers@,
            final(self).power_points == old(self).power_points,
            final(self).gadgets == old(self).gadgets,
            final(self).star_powers == old(self).star_powers,
            final(self).gold == old(self).gold,
            final(self).token_doublers == old(self).token_doublers,
    {
        self.brawlers.push(brawler);
        assert(self.brawlers@.drop_last() =~= old(self).brawlers@);
    }

    /// Adds gadgets to `brawler`, on top of any it already got.
    pub fn add_gadgets(&mut self, brawler: String, gadgets: UnlockedGadgets)
        ensures
            ({
                let i = index_of(old(self).gadgets@, brawler@);
                if i >= 0 {
                    &&& final(self).gadgets@.len() == old(self).gadgets@.len()
                    &&& final(self).gadgets@[i].0@ == brawler@
                    &&& final(self).gadgets@[i].1.0 == (TwoVariantsInfo {
                        first: old(self).gadgets@[i].1.0.first || gadgets.0.first,
                        second: old(self).gadgets@[i].1.0.second || gadgets.0.second,
                    })
                    &&& forall|j: int| 0 <= j < old(self).gadgets@.len() && j != i
                        ==> final(self).gadgets@[j] == old(self).gadgets@[j]
                } else {
                    &&& final(self).gadgets@.len() == old(self).gadgets@.len() + 1
                    &&& final(self).gadgets@.last().0@ == brawler@
                    &&& final(self).gadgets@.last().1 == gadgets
                    &&& final(self).gadgets@.drop_last() == old(self).gadgets@
                }
            }),
            final(self).brawlers == old(self).brawlers,
            final(self).power_points == old(self).power_points,
            final(self).star_powers == old(self).star_powers,
            final(self).gold == old(self).gold,
            final(self).token_doublers == old(self).token_doublers,
    {
        match find_entry(&self.gadgets, &brawler) {
            Some(i) => {
                let mut info = self.gadgets[i].1.0;
                info.combine(&gadgets.0);
                self.gadgets.set(i, (brawler, UnlockedGadgets(info)));
            },
            None => {
                self.gadgets.push((brawler, gadgets));
                assert(self.gadgets@.drop_last() =~= old(self).gadgets@);
            },
        }
    }

    /// Adds star powers to `brawler`, on top of any it already got.
    pub fn add_star_powers(&mut self, brawler: String, star_powers: UnlockedStarPowers)
        ensures
            ({
                let i = index_of(old(self).star_powers@, brawler@);
                if i >= 0 {
                    &&& final(self).star_powers@.len() == old(self).star_powers@.len()
                    &&& final(self).star_powers@[i].0@ == brawler@
                    &&& final(self).star_powers@[i].1.0 == (TwoVariantsInfo {
                        first: old(self).star_powers@[i].1.0.first || star_powers.0.first,
                        second: old(self).star_powers@[i].1.0.second || star_powers.0.second,
                    })
                    &&& forall|j: int| 0 <= j < old(self).star_powers@.len() && j != i
                        ==> final(self).star_powers@[j] == old(self).star_powers@[j]
                } else {
                    &&& final(self).star_powers@.len() == old(self).star_powers@.len() + 1
                    &&& final(self).star_powers@.last().0@ == brawler@
                    &&& final(self).star_powers@.last().1 == star_powers
                    &&& final(self).star_powers@.drop_last() == old(self).star_powers@
                }
            }),
            final(self).brawlers == old(self).brawlers,
            final(self).power_points == old(self).power_points,
            final(self).gadgets == old(self).gadgets,
            final(self).gold == old(self).gold,
            final(self).token_doublers == old(self).token_doublers,
    {
        match find_entry(&self.star_powers, &brawler) {
            Some(i) => {
                let mut info = self.star_powers[i].1.0;
                info.combine(&star_powers.0);
                self.star_powers.set(i, (brawler, UnlockedStarPowers(info)));
            },
            None => {
                self.star_powers.push((brawler, star_powers));
                assert(self.star_powers@.drop_last() =~= old(self).star_powers@);
            },
        }
    }

    /// Adds `quantity` token doublers to those already collected.
    pub fn add_token_doublers(&mut self, quantity: u32)
        requires
            old(self).token_doublers matches Some(t) ==> t + quantity <= u32::MAX,
        ensures
            final(self).token_doublers == Some((match old(self).token_doublers {
                Some(t) => t + quantity,
                None => quantity as int,
            }) as u32),
            final(self).brawlers == old(self).brawlers,
            final(self).power_points == old(self).power_points,
            final(self).gadgets == old(self).gadgets,
            final(self).star_powers == old(self).star_powers,
            final(self).gold == old(self).gold,
    {
        let current = match self.token_doublers {
            Some(t) => t,
            None => 0,
        };
        self.token_doublers = Some(current + quantity);
    }
}

/// Odds to get each kind of item from a box, in ten-thousandths of a percent.
#[derive(Clone, Copy, Debug)]
pub struct BoxOdds {
    /// Odds to get power points.
    pub power_points: u32,
    /// Odds to get a Rare Brawler.
    pub rare: u32,
    /// Odds to get a Super Rare Brawler.
    pub super_rare: u32,
    /// Odds to get an Epic Brawler.
    pub epic: u32,
    /// Odds to get a Mythic Brawler.
    pub mythic: u32,
    /// Odds to get a Legendary Brawler.
    pub legendary: u32,
    /// Odds to get a gadget.
    pub gadget: u32,
    /// Odds to get a star power.
    pub star_power: u32,
}

/// One item of a box.
#[derive(Clone, Copy, Debug, PartialEq, Eq, Structural)]
pub enum BoxItem {
    /// Power points.
    PowerPoints,
    /// A Brawler of the given rarity.
    Brawler(UnlockableRarity),
    /// A gadget.
    Gadget,
    /// A star power.
    StarPower,
}

impl BoxOdds {
    /// The items in the order their odds are weighed.
    pub open spec fn items() -> Seq<BoxItem> {
        seq![
            BoxItem::PowerPoints,
            BoxItem::Brawler(UnlockableRarity::Rare),
            BoxItem::Brawler(UnlockableRarity::SuperRare),
            BoxItem::Brawler(UnlockableRarity::Epic),
            BoxItem::Brawler(UnlockableRarity::Mythic),
            BoxItem::Brawler(UnlockableRarity::Legendary),
            BoxItem::Gadget,
            BoxItem::StarPower,
        ]
    }

    /// The odds of the items, in the same order.
    pub open spec fn weights(&self) -> Seq<u32> {
        seq![
            self.power_points,
            self.rare,
            self.super_rare,
            self.epic,
            self.mythic,
            self.legendary,
            self.gadget,
            self.star_power,
        ]
    }

    /// The game's odds.
    pub fn new() -> (r: Self)
        ensures
            r.weights() == seq![926516u32, 22103, 12218, 5527, 2521, 1115, 20000, 10000],
    {
        BoxOdds {
            power_points: 926516,
            rare: 22103,
            super_rare: 12218,
            epic: 5527,
            mythic: 2521,
            legendary: 1115,
            gadget: 20000,
            star_power: 10000,
        }
    }

    /// Returns the odds to get a Brawler of `rarity`; Chromatic Brawlers
    /// count by their season, Trophy Road Brawlers never come from boxes.
    pub fn get_rarity_odds(&self, rarity: Rarity) -> (r: u32)
        ensures
            r == match UnlockableRarity::of_rarity(rarity) {
                Some(UnlockableRarity::Rare) => self.rare,
                Some(UnlockableRarity::SuperRare) => self.super_rare,
                Some(UnlockableRarity::Epic) => self.epic,
                Some(UnlockableRarity::Mythic) => self.mythic,
                Some(UnlockableRarity::Legendary) => self.legendary,
                None => 0,
            },
    {
        match rarity {
            Rarity::TrophyRoad(_) => 0,
            Rarity::Rare => self.rare,
            Rarity::SuperRare => self.super_rare,
            Rarity::Epic => self.epic,
            Rarity::Mythic => self.mythic,
            Rarity::Legendary => self.legendary,
            Rarity::Chromatic(season) => match season {
                ChromaticSeason::First => self.legendary,
                ChromaticSeason::Second => self.mythic,
                ChromaticSeason::Third => self.epic,
            },
        }
    }
}

impl BoxItem {
    /// Selects `total` random items, each with the chance its odds give;
    /// power points when all odds are 0.
    pub fn select_items(odds: &BoxOdds, total: u8) -> (r: Vec<BoxItem>)
        requires
            weight_sum(odds.weights(), 8) <= u32::MAX,
        ensures
            r@.len() == total,
            forall|k: int|
                0 <= k < r@.len() ==> #[trigger] r@[k] == BoxItem::PowerPoints || exists|i: int|
                    0 <= i < 8 && odds.weights()[i] > 0 && r@[k] == BoxOdds::items()[i],
    {
        let choices = vec![
            BoxItem::PowerPoints,
            BoxItem::Brawler(UnlockableRarity::Rare),
            BoxItem::Brawler(UnlockableRarity::SuperRare),
            BoxItem::Brawler(UnlockableRarity::Epic),
            BoxItem::Brawler(UnlockableRarity::Mythic),
            BoxItem::Brawler(UnlockableRarity::Legendary),
            BoxItem::Gadget,
            BoxItem::StarPower,
        ];
        let weights = vec![
            odds.power_points,
            odds.rare,
            odds.super_rare,
            odds.epic,
            odds.mythic,
            odds.legendary,
            odds.gadget,
            odds.star_power,
        ];
        assert(choices@ == BoxOdds::items());
        assert(weights@ == odds.weights());
        let mut items: Vec<BoxItem> = Vec::new();
        let mut n: u8 = 0;
        while n < total
            invariant
                n <= total,
                items@.len() == n,
                choices@ == BoxOdds::items(),
                weights@ == odds.weights(),
                weight_sum(weights@, 8) <= u32::MAX,
                forall|k: int|
                    0 <= k < items@.len() ==> #[trigger] items@[k] == BoxItem::PowerPoints || exists|i: int|
                        0 <= i < 8 && odds.weights()[i] > 0 && items@[k] == BoxOdds::items()[i],
            decreases total - n,
        {
            let item = match select_one(choices.as_slice(), weights.as_slice()) {
                Some(x) => *x,
                None => BoxItem::PowerPoints,
            };
            items.push(item);
            n = n + 1;
        }
        items
    }
}

impl TwoVariantsInfo {
    /// One variant of a pair where both are present, picked at random; a
    /// pair with at most one present stays as it is.
    pub fn choose_one(&self) -> (r: Self)
        ensures
            self.first && self.second ==> r.first != r.second,
            !(self.first && self.second) ==> r == *self,
    {
        if self.first && self.second {
            let choice = random_below(2);
            TwoVariantsInfo { first: choice == 0, second: choice == 1 }
        } else {
            *self
        }
    }
}

/// Picks a random Brawler of `mapping` and one of its variants still to
/// unlock, and takes that variant off the mapping, along with the Brawler
/// once it has none left. `None` when the mapping is empty.
pub fn handle_two_variants(mapping: &mut Vec<(String, TwoVariantsInfo)>) -> (r: Option<(String, TwoVariantsInfo)>)
    ensures
        r is None <==> old(mapping)@.len() == 0,
        r is None ==> final(mapping)@ == old(mapping)@,
        r is Some ==> final(mapping)@.len() == old(mapping)@.len() || final(mapping)@.len() == old(mapping)@.len() - 1,
        r matches Some((name, choice)) ==> exists|i: int|
            0 <= i < old(mapping)@.len() && #[trigger] old(mapping)@[i].0@ == name@ && (
            old(mapping)@[i].1.first && old(mapping)@[i].1.second ==> choice.first != choice.second) && (!(
            old(mapping)@[i].1.first && old(mapping)@[i].1.second) ==> choice == old(mapping)@[i].1),
{
    if mapping.len() == 0 {
        return None;
    }
    let i = random_below(mapping.len() as u64) as usize;
    let name = mapping[i].0.clone();
    let variants = mapping[i].1;
    let choice = variants.choose_one();
    let mut left = variants;
    if choice.first {
        left.first = false;
    } else if choice.second {
        left.second = false;
    }
    let ghost before = mapping@;
    if left.has_at_least_one() {
        let key = mapping[i].0.clone();
        mapping.set(i, (key, left));
    } else {
        mapping.remove(i);
    }
    assert(before[i as int].0@ == name@);
    Some((name, choice))
}

/// Adds `total` gadgets to `rewards`, each for a random Brawler that can
/// still get one. Returns how many could not be given.
pub fn add_gadgets(total: u32, unlockable_gadgets: &mut Vec<(String, TwoVariantsInfo)>, rewards: &mut BoxRewards) -> (r: u32)
    ensures
        r <= total,
        old(unlockable_gadgets)@.len() == 0 ==> r == total,
        r > 0 ==> final(unlockable_gadgets)@.len() == 0,
        final(rewards).brawlers == old(rewards).brawlers,
        final(rewards).power_points == old(rewards).power_points,
        final(rewards).star_powers == old(rewards).star_powers,
        final(rewards).gold == old(rewards).gold,
        final(rewards).token_doublers == old(rewards).token_doublers,
{
    let mut missed: u32 = 0;
    let mut n: u32 = 0;
    while n < total
        invariant
            n <= total,
            missed <= n,
            old(unlockable_gadgets)@.len() == 0 ==> missed == n && unlockable_gadgets@.len() == 0,
            missed > 0 ==> unlockable_gadgets@.len() == 0,
            rewards.brawlers == old(rewards).brawlers,
            rewards.power_points == old(rewards).power_points,
            rewards.star_powers == old(rewards).star_powers,
            rewards.gold == old(rewards).gold,
            rewards.token_doublers == old(rewards).token_doublers,
        decreases total - n,
    {
        match handle_two_variants(unlockable_gadgets) {
            Some((brawler, choice)) => rewards.add_gadgets(brawler, UnlockedGadgets(choice)),
            None => missed = missed + 1,
        }
        n = n + 1;
    }
    missed
}

/// Adds `total` star powers to `rewards`, each for a random Brawler that can
/// still get one. Returns how many could not be given.
pub fn add_star_powers(total: u32, unlockable_star_powers: &mut Vec<(String, TwoVariantsInfo)>, rewards: &mut BoxRewards) -> (r: u32)
    ensures
        r <= total,
        old(unlockable_star_powers)@.len() == 0 ==> r == total,
        r > 0 ==> final(unlockable_star_powers)@.len() == 0,
        final(rewards).brawlers == old(rewards).brawlers,
        final(rewards).power_points == old(rewards).power_points,
        final(rewards).gadgets == old(rewards).gadgets,
        final(rewards).gold == old(rewards).gold,
        final(rewards).token_doublers == old(rewards).token_doublers,
{
    let mut missed: u32 = 0;
    let mut n: u32 = 0;
    while n < total
        invariant
            n <= total,
            missed <= n,
            old(unlockable_star_powers)@.len() == 0 ==> missed == n && unlockable_star_powers@.len() == 0,
            missed > 0 ==> unlockable_star_powers@.len() == 0,
            rewards.brawlers == old(rewards).brawlers,
            rewards.power_points == old(rewards).power_points,
            rewards.gadgets == old(rewards).gadgets,
            rewards.gold == old(rewards).gold,
            rewards.token_doublers == old(rewards).token_doublers,
        decreases total - n,
    {
        match handle_two_variants(unlockable_star_powers) {
            Some((brawler, choice)) => rewards.add_star_powers(brawler, UnlockedStarPowers(choice)),
            None => missed = missed + 1,
        }
        n = n + 1;
    }
    missed
}

/// Picks, for each of `rarities`, a random Brawler to unlock from the first
/// rarity from it down that has one left, adds it to `rewards` and takes it
/// off `unlockable_brawlers`. Returns how many rarities had none left.
pub fn add_brawlers(rarities: Vec<UnlockableRarity>, unlockable_brawlers: &mut Vec<(UnlockableRarity, String)>, rewards: &mut BoxRewards) -> (r: u32)
    requires
        rarities@.len() <= u32::MAX,
    ensures
        r <= rarities@.len(),
        final(rewards).brawlers@.len() == old(rewards).brawlers@.len() + rarities@.len() - r,
        final(unlockable_brawlers)@.len() == old(unlockable_brawlers)@.len() - (rarities@.len() - r),
        final(rewards).power_points == old(rewards).power_points,
        final(rewards).gadgets == old(rewards).gadgets,
        final(rewards).star_powers == old(rewards).star_powers,
        final(rewards).gold == old(rewards).gold,
        final(rewards).token_doublers == old(rewards).token_doublers,
{
    let mut missed: u32 = 0;
    let mut k: usize = 0;
    while k < rarities.len()
        invariant
            k <= rarities@.len() <= u32::MAX,
            missed <= k,
            rewards.brawlers@.len() == old(rewards).brawlers@.len() + k - missed,
            unlockable_brawlers@.len() == old(unlockable_brawlers)@.len() - (k - missed),
            rewards.power_points == old(rewards).power_points,
            rewards.gadgets == old(rewards).gadgets,
            rewards.star_powers == old(rewards).star_powers,
            rewards.gold == old(rewards).gold,
            rewards.token_doublers == old(rewards).token_doublers,
        decreases rarities@.len() - k,
    {
        match get_valid_rarity(rarities[k], unlockable_brawlers) {
            Some(rarity) => {
                let mut candidates: Vec<usize> = Vec::new();
                let mut i: usize = 0;
                while i < unlockable_brawlers.len()
                    invariant
                        i <= unlockable_brawlers@.len(),
                        forall|j: int| 0 <= j < candidates@.len() ==> #[trigger] candidates@[j] < unlockable_brawlers@.len(),
                        candidates@.len() > 0 || forall|j: int| 0 <= j < i ==> #[trigger] unlockable_brawlers@[j].0 != rarity,
                    decreases unlockable_brawlers@.len() - i,
                {
                    if unlockable_brawlers[i].0 == rarity {
                        candidates.push(i);
                    }
                    i = i + 1;
                }
                proof {
                    lemma_valid_rarity_has_unlockable(unlockable_brawlers@, rarities@[k as int]);
                }
                let pick = random_below(candidates.len() as u64) as usize;
                let index = candidates[pick];
                let (_, name) = unlockable_brawlers.swap_remove(index);
                rewards.add_brawler(name);
            },
            None => missed = missed + 1,
        }
        k = k + 1;
    }
    missed
}

/// The numbers of the player's Brawlers: the Brawlers of `all` it can still
/// unlock from boxes, with their box rarities.
pub open spec fn unlockable_brawlers(all: Seq<Brawler>, owned: Seq<BrawlerData>) -> Seq<(UnlockableRarity, Seq<char>)>
    decreases all.len(),
{
    if all.len() == 0 {
        seq![]
    } else {
        let rest = unlockable_brawlers(all.drop_last(), owned);
        let b = all.last();
        match UnlockableRarity::of_rarity(b.rarity) {
            Some(r) => if exists|j: int| 0 <= j < owned.len() && #[trigger] owned[j].name@ == b.name@ {
                rest
            } else {
                rest.push((r, b.name@))
            },
            None => rest,
        }
    }
}

/// Total power points of `d`, counting those spent on its level-ups.
pub open spec fn total_power_points(d: BrawlerData) -> int {
    max_at(d.level as int) + d.power_points
}

/// For each of `owned` that is not maxed out, the power points it can still take.
pub open spec fn power_point_room(owned: Seq<BrawlerData>) -> Seq<(Seq<char>, int)>
    decreases owned.len(),
{
    if owned.len() == 0 {
        seq![]
    } else {
        let rest = power_point_room(owned.drop_last());
        let d = owned.last();
        if total_power_points(d) < 1410 {
            rest.push((d.name@, 1410 - total_power_points(d)))
        } else {
            rest
        }
    }
}

/// For each of `owned` at level `min_level` or above, which of the two
/// variants that `pick` gives it are still locked.
pub open spec fn locked_variants(owned: Seq<BrawlerData>, min_level: int, gadgets: bool) -> Seq<(Seq<char>, TwoVariantsInfo)>
    decreases owned.len(),
{
    if owned.len() == 0 {
        seq![]
    } else {
        let rest = locked_variants(owned.drop_last(), min_level, gadgets);
        let d = owned.last();
        let v = if gadgets {
            d.gadgets
        } else {
            d.star_powers
        };
        if d.level >= min_level {
            rest.push((d.name@, TwoVariantsInfo { first: !v.first, second: !v.second }))
        } else {
            rest
        }
    }
}

/// Everything a player can still unlock from boxes.
#[derive(Clone, Debug)]
pub struct Unlockable {
    /// Brawlers the player can unlock, with their box rarities.
    pub brawlers: Vec<(UnlockableRarity, String)>,
    /// Power points each Brawler can still take.
    pub power_points: Vec<(String, u32)>,
    /// Gadgets each Brawler can still unlock.
    pub gadgets: Vec<(String, TwoVariantsInfo)>,
    /// Star powers each Brawler can still unlock.
    pub star_powers: Vec<(String, TwoVariantsInfo)>,
}

/// The statistics of a player that decide what a box gives.
#[derive(Clone, Copy, Debug)]
pub struct PlayerStats<'a> {
    /// The odds of unlocking each kind of item.
    pub odds: BoxOdds,
    /// All Brawlers there are.
    pub all_brawlers: &'a [Brawler],
    /// The player's Brawlers.
    pub player_brawlers: &'a [BrawlerData],
}

impl<'a> PlayerStats<'a> {
    /// Creates the statistics of a player with the game's odds.
    pub fn new(all_brawlers: &'a [Brawler], player_brawlers: &'a [BrawlerData]) -> (r: Self)
        ensures
            r.all_brawlers@ == all_brawlers@,
            r.player_brawlers@ == player_brawlers@,
            r.odds.weights() == seq![926516u32, 22103, 12218, 5527, 2521, 1115, 20000, 10000],
    {
        PlayerStats { odds: BoxOdds::new(), all_brawlers, player_brawlers }
    }

    /// Checks whether the player owns a Brawler named `name`.
    fn owns(&self, name: &String) -> (r: bool)
        ensures
            r == exists|j: int| 0 <= j < self.player_brawlers@.len() && #[trigger] self.player_brawlers@[j].name@ == name@,
    {
        let mut j: usize = 0;
        while j < self.player_brawlers.len()
            invariant
                j <= self.player_brawlers@.len(),
                forall|k: int| 0 <= k < j ==> #[trigger] self.player_brawlers@[k].name@ != name@,
            decreases self.player_brawlers@.len() - j,
        {
            if self.player_brawlers[j].name == *name {
                return true;
            }
            j = j + 1;
        }
        false
    }

    /// Returns what the player can still unlock from boxes.
    pub fn get_unlockable_data(&self) -> (r: Unlockable)
        ensures
            r.brawlers@.map_values(|e: (UnlockableRarity, String)| (e.0, e.1@)) == unlockable_brawlers(
                self.all_brawlers@,
                self.player_brawlers@,
            ),
            r.power_points@.map_values(|e: (String, u32)| (e.0@, e.1 as int)) == power_point_room(
                self.player_brawlers@,
            ),
            r.gadgets@.map_values(|e: (String, TwoVariantsInfo)| (e.0@, e.1)) == locked_variants(
                self.player_brawlers@,
                7,
                true,
            ),
            r.star_powers@.map_values(|e: (String, TwoVariantsInfo)| (e.0@, e.1)) == locked_variants(
                self.player_brawlers@,
                9,
                false,
            ),
    {
        let mut brawlers: Vec<(UnlockableRarity, String)> = Vec::new();
        let mut i: usize = 0;
        while i < self.all_brawlers.len()
            invariant
                i <= self.all_brawlers@.len(),
                brawlers@.map_values(|e: (UnlockableRarity, String)| (e.0, e.1@)) == unlockable_brawlers(
                    self.all_brawlers@.subrange(0, i as int),
                    self.player_brawlers@,
                ),
            decreases self.all_brawlers@.len() - i,
        {
            proof {
                assert(self.all_brawlers@.subrange(0, i + 1).drop_last() =~= self.all_brawlers@.subrange(0, i as int));
            }
            let ghost before = brawlers@;
            let b = &self.all_brawlers[i];
            match UnlockableRarity::from_rarity(b.rarity) {
                Some(rarity) => {
                    if !self.owns(&b.name) {
                        brawlers.push((rarity, b.name.clone()));
                        assert(brawlers@.map_values(|e: (UnlockableRarity, String)| (e.0, e.1@)) =~= before.map_values(
                            |e: (UnlockableRarity, String)| (e.0, e.1@),
                        ).push((rarity, b.name@)));
                    }
                },
                None => {},
            }
            i = i + 1;
        }
        assert(self.all_brawlers@.subrange(0, self.all_brawlers@.len() as int) == self.all_brawlers@);
        let mut power_points: Vec<(String, u32)> = Vec::new();
        let mut gadgets: Vec<(String, TwoVariantsInfo)> = Vec::new();
        let mut star_powers: Vec<(String, TwoVariantsInfo)> = Vec::new();
        let mut i: usize = 0;
        while i < self.player_brawlers.len()
            invariant
                i <= self.player_brawlers@.len(),
                power_points@.map_values(|e: (String, u32)| (e.0@, e.1 as int)) == power_point_room(
                    self.player_brawlers@.subrange(0, i as int),
                ),
                gadgets@.map_values(|e: (String, TwoVariantsInfo)| (e.0@, e.1)) == locked_variants(
                    self.player_brawlers@.subrange(0, i as int),
                    7,
                    true,
                ),
                star_powers@.map_values(|e: (String, TwoVariantsInfo)| (e.0@, e.1)) == locked_variants(
                    self.player_brawlers@.subrange(0, i as int),
                    9,
                    false,
                ),
            decreases self.player_brawlers@.len() - i,
        {
            proof {
                assert(self.player_brawlers@.subrange(0, i + 1).drop_last() =~= self.player_brawlers@.subrange(
                    0,
                    i as int,
                ));
            }
            let ghost (pp0, g0, s0) = (power_points@, gadgets@, star_powers@);
            let d = &self.player_brawlers[i];
            let max = PowerPoints::max_at_level(d.level).0 as u64;
            let total = max + d.power_points as u64;
            if total < 1410 {
                power_points.push((d.name.clone(), (1410 - total) as u32));
                assert(power_points@.map_values(|e: (String, u32)| (e.0@, e.1 as int)) =~= pp0.map_values(
                    |e: (String, u32)| (e.0@, e.1 as int),
                ).push((d.name@, 1410 - total_power_points(*d))));
            }
            if d.level >= 7 {
                let info = TwoVariantsInfo::new(!d.gadgets.first, !d.gadgets.second);
                gadgets.push((d.name.clone(), info));
                assert(gadgets@.map_values(|e: (String, TwoVariantsInfo)| (e.0@, e.1)) =~= g0.map_values(
                    |e: (String, TwoVariantsInfo)| (e.0@, e.1),
                ).push((d.name@, info)));
                if d.level >= 9 {
                    let info = TwoVariantsInfo::new(!d.star_powers.first, !d.star_powers.second);
                    star_powers.push((d.name.clone(), info));
                    assert(star_powers@.map_values(|e: (String, TwoVariantsInfo)| (e.0@, e.1)) =~= s0.map_values(
                        |e: (String, TwoVariantsInfo)| (e.0@, e.1),
                    ).push((d.name@, info)));
                }
            }
            i = i + 1;
        }
        assert(self.player_brawlers@.subrange(0, self.player_brawlers@.len() as int) == self.player_brawlers@);
        Unlockable { brawlers, power_points, gadgets, star_powers }
    }
}

/// Puts the entries of `map` in a random order.
pub fn shuffle_entries(map: &mut Vec<(String, u32)>)
    ensures
        final(map)@.len() == old(map)@.len(),
        forall|k: int| 0 <= k < final(map)@.len() ==> old(map)@.contains(#[trigger] final(map)@[k]),
{
    let ghost entries = map@;
    let mut shuffled: Vec<(String, u32)> = Vec::new();
    while map.len() > 0
        invariant
            shuffled@.len() + map@.len() == entries.len(),
            forall|k: int| 0 <= k < shuffled@.len() ==> entries.contains(#[trigger] shuffled@[k]),
            forall|k: int| 0 <= k < map@.len() ==> entries.contains(#[trigger] map@[k]),
        decreases map@.len(),
    {
        let ghost before = map@;
        let i = random_below(map.len() as u64) as usize;
        let entry = map.swap_remove(i);
        assert(entries.contains(before[i as int]));
        assert forall|k: int| 0 <= k < map@.len() implies entries.contains(#[trigger] map@[k]) by {
            if k == i {
                assert(map@[k] == before.last());
                assert(entries.contains(before[before.len() - 1]));
            } else {
                assert(map@[k] == before[k]);
            }
        }
        shuffled.push(entry);
    }
    *map = shuffled;
}

/// Gives `stacks` stacks of power points, together a random amount within
/// the box's power point bounds, each to a different Brawler of
/// `power_points_map` in random order that can still take it.
pub fn add_power_points(stacks: usize, box_data: &BoxData, power_points_map: Vec<(String, u32)>, rewards: &mut BoxRewards)
    requires
        1 <= stacks <= 0x1000_0000,
        box_data.power_points[0] <= box_data.power_points[2] <= box_data.power_points[1],
        box_data.power_points[1] + stacks <= u32::MAX,
        (box_data.power_points[0] + box_data.power_points[2]) / 2 < (box_data.power_points[2]
            + box_data.power_points[1]) / 2,
    ensures
        final(rewards).brawlers == old(rewards).brawlers,
        final(rewards).gadgets == old(rewards).gadgets,
        final(rewards).star_powers == old(rewards).star_powers,
        final(rewards).gold == old(rewards).gold,
        final(rewards).token_doublers == old(rewards).token_doublers,
{
    let lower = box_data.power_points[0];
    let upper = box_data.power_points[1];
    let avg = box_data.power_points[2];
    let power_points = weighted_random(lower, upper, avg);
    let pieces = split_in_integers(power_points, stacks as u32, 1);
    let mut map = power_points_map;
    shuffle_entries(&mut map);
    let mut p: usize = 0;
    while p < pieces.len()
        invariant
            rewards.brawlers == old(rewards).brawlers,
            rewards.gadgets == old(rewards).gadgets,
            rewards.star_powers == old(rewards).star_powers,
            rewards.gold == old(rewards).gold,
            rewards.token_doublers == old(rewards).token_doublers,
        decreases pieces@.len() - p,
    {
        let piece = pieces[p];
        let mut i: usize = 0;
        while i < map.len()
            invariant
                rewards.brawlers == old(rewards).brawlers,
                rewards.gadgets == old(rewards).gadgets,
                rewards.star_powers == old(rewards).star_powers,
                rewards.gold == old(rewards).gold,
                rewards.token_doublers == old(rewards).token_doublers,
            decreases map@.len() - i,
        {
            if map[i].1 >= piece {
                let (brawler, _) = map.swap_remove(i);
                let room = match find_entry(&rewards.power_points, &brawler) {
                    Some(k) => rewards.power_points[k].1.0 <= u32::MAX - piece,
                    None => true,
                };
                if room {
                    rewards.add_power_points(brawler, PowerPoints(piece));
                }
                break;
            }
            i = i + 1;
        }
        p = p + 1;
    }
}

impl BsBox {
    /// The box's data can be opened: its bounds are ordered and leave
    /// room between their midpoints.
    pub open spec fn can_open(&self) -> bool {
        let d = BoxType::data_of(self.box_type);
        &&& d.gold[0] <= d.gold[2] <= d.gold[1]
        &&& (d.gold[0] + d.gold[2]) / 2 < (d.gold[2] + d.gold[1]) / 2
        &&& d.gold[1] <= u32::MAX / 3
        &&& d.power_points[0] <= d.power_points[2] <= d.power_points[1]
        &&& d.power_points[1] + 256 <= u32::MAX
        &&& (d.power_points[0] + d.power_points[2]) / 2 < (d.power_points[2] + d.power_points[1]) / 2
    }

    /// Opens the box for a player with `player_stats`.
    ///
    /// The box holds random items by the player's odds. Its power point
    /// stacks go to different Brawlers that can still take them; a player
    /// with none gets triple gold instead, one with a single such Brawler
    /// double gold and one stack. Brawlers, gadgets and star powers go to
    /// those the player can still unlock; each one that cannot be given
    /// doubles the chance of token doublers.
    pub fn open(&self, player_stats: PlayerStats) -> (r: BoxRewards)
        requires
            self.can_open(),
            weight_sum(player_stats.odds.weights(), 8) <= u32::MAX,
        ensures
            r.token_doublers is None || r.token_doublers == Some(TOKEN_DOUBLER_QUANTITY),
            BoxType::data_of(self.box_type).gold[0] <= r.gold <= 3 * BoxType::data_of(self.box_type).gold[1],
    {
        let box_data = self.box_type.box_data();
        let mut gold = weighted_random(box_data.gold[0], box_data.gold[1], box_data.gold[2]);
        let mut rarities: Vec<UnlockableRarity> = Vec::new();
        let mut gadgets: u32 = 0;
        let mut star_powers: u32 = 0;
        let mut stacks: usize = 0;
        let selected = BoxItem::select_items(&player_stats.odds, box_data.total);
        let mut k: usize = 0;
        while k < selected.len()
            invariant
                selected@.len() == box_data.total,
                k <= selected@.len(),
                stacks <= k,
                gadgets <= k,
                star_powers <= k,
                rarities@.len() <= k,
            decreases selected@.len() - k,
        {
            match selected[k] {
                BoxItem::PowerPoints => stacks = stacks + 1,
                BoxItem::Brawler(rarity) => rarities.push(rarity),
                BoxItem::Gadget => gadgets = gadgets + 1,
                BoxItem::StarPower => star_powers = star_powers + 1,
            }
            k = k + 1;
        }
        let mut unlockable = player_stats.get_unlockable_data();
        let candidates = unlockable.power_points.len();
        if candidates == 0 {
            gold = gold * 3;
            stacks = 0;
        } else if candidates == 1 {
            gold = gold * 2;
            stacks = 1;
        } else if candidates < stacks {
            stacks = candidates;
        }
        assert(stacks <= 255);
        let mut rewards = BoxRewards::with_gold(gold);
        if stacks > 0 {
            add_power_points(stacks, &box_data, unlockable.power_points, &mut rewards);
        }
        let mut missed = add_brawlers(rarities, &mut unlockable.brawlers, &mut rewards);
        missed = missed + add_gadgets(gadgets, &mut unlockable.gadgets, &mut rewards);
        missed = missed + add_star_powers(star_powers, &mut unlockable.star_powers, &mut rewards);
        let mut token_doubler_odds: u64 = TOKEN_DOUBLER_ODDS as u64;
        let mut m: u32 = 0;
        while m < missed && token_doubler_odds < 100
            invariant
                token_doubler_odds <= 200,
            decreases missed - m,
        {
            token_doubler_odds = token_doubler_odds * 2;
            m = m + 1;
        }
        if token_doubler_odds >= random_below(100) {
            rewards.add_token_doublers(TOKEN_DOUBLER_QUANTITY);
        }
        rewards
    }
}

} // verus!
