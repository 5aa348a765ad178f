//! The Trophy Road and its rewards.

use vstd::prelude::*;

use crate::resource::bs_box::BoxType;

verus! {

/// The Trophy Road: every reward on it.
#[derive(Clone, Debug)]
pub struct TrophyRoad(pub Vec<TrophyRoadReward>);

/// A reward on the Trophy Road.
#[derive(Clone, Debug)]
pub struct TrophyRoadReward {
    /// The trophies at which the reward is gained.
    pub trophies: u32,
    /// The kind of the reward.
    pub kind: TrophyRoadRewardKind,
    /// The number of rewards given.
    pub count: u32,
    /// Extra data associated with the reward.
    pub extra_data: String,
}

impl TrophyRoad {
    /// Creates a new Trophy Road.
    pub fn new(rewards: Vec<TrophyRoadReward>) -> (r: Self)
        ensures
            r.0@ == rewards@,
    {
        TrophyRoad(rewards)
    }

    /// Checks if a player with `trophies` can unlock the reward at `index`;
    /// false if there is no such reward.
    ///
    /// Only the trophy requirement counts, not whether the reward was
    /// collected before.
    pub fn can_collect(&self, index: usize, trophies: u32) -> (r: bool)
        ensures
            r == (index < self.0@.len() && self.0@[index as int].trophies <= trophies),
    {
        if index < self.0.len() {
            self.0[index].can_collect(trophies)
        } else {
            false
        }
    }

    /// The rewards a player with `trophies` can collect, in order.
    pub fn collectables(&self, trophies: u32) -> (r: Vec<&TrophyRoadReward>)
        ensures
            r@.map_values(|x: &TrophyRoadReward| *x) == collectable(self.0@, trophies),
    {
        let mut out: Vec<&TrophyRoadReward> = Vec::new();
        let mut i: usize = 0;
        while i < self.0.len()
            invariant
                i <= self.0@.len(),
                out@.map_values(|x: &TrophyRoadReward| *x) == collectable(self.0@.subrange(0, i as int), trophies),
            decreases self.0@.len() - i,
        {
            let ghost before = out@;
            proof {
                let s = self.0@.subrange(0, i as int + 1);
                assert(s.drop_last() =~= self.0@.subrange(0, i as int));
            }
            if self.0[i].can_collect(trophies) {
                out.push(&self.0[i]);
                assert(out@.map_values(|x: &TrophyRoadReward| *x) =~= before.map_values(
                    |x: &TrophyRoadReward| *x,
                ).push(self.0@[i as int]));
            }
            i = i + 1;
        }
        assert(self.0@.subrange(0, self.0@.len() as int) == self.0@);
        out
    }
}

/// The rewards of `rewards` that a player with `trophies` can collect, in order.
pub open spec fn collectable(rewards: Seq<TrophyRoadReward>, trophies: u32) -> Seq<TrophyRoadReward>
    decreases rewards.len(),
{
    if rewards.len() == 0 {
        seq![]
    } else {
        let rest = collectable(rewards.drop_last(), trophies);
        if rewards.last().trophies <= trophies {
            rest.push(rewards.last())
        } else {
            rest
        }
    }
}

impl TrophyRoadReward {
    /// Creates a new reward.
    pub fn new(trophies: u32, kind: TrophyRoadRewardKind, count: u32, extra_data: String) -> (r: Self)
        ensures
            r == (TrophyRoadReward { trophies, kind, count, extra_data }),
    {
        TrophyRoadReward { trophies, kind, count, extra_data }
    }

    /// Checks if a player with `trophies` can collect the reward.
    pub fn can_collect(&self, trophies: u32) -> (r: bool)
        ensures
            r == (self.trophies <= trophies),
    {
        trophies >= self.trophies
    }
}

/// The kind of a Trophy Road reward.
#[derive(Clone, Copy, Debug)]
pub enum TrophyRoadRewardKind {
    /// Gold.
    Gold,
    /// A Brawler.
    Brawler,
    /// A Brawl Box.
    BsBox(BoxType),
    /// Token doublers.
    TokenDoublers,
    /// Power points.
    PowerPoints,
    /// A game mode.
    GameMode,
}

impl TrophyRoadRewardKind {
    /// The code number used for gold.
    pub const GOLD: u8 = 1;
    /// The code number used for Brawler.
    pub const BRAWLER: u8 = 3;
    /// The code number used for Brawl Box.
    pub const BRAWL_BOX: u8 = 6;
    /// The code number used for token doublers.
    pub const TOKEN_DOUBLERS: u8 = 9;
    /// The code number used for Mega Box.
    pub const MEGA_BOX: u8 = 10;
    /// The code number used for power points.
    pub const POWER_POINTS: u8 = 12;
    /// The code number used for game mode.
    pub const GAME_MODE: u8 = 13;
    /// The code number used for Big Box.
    pub const BIG_BOX: u8 = 14;

    /// The kind with code `code`, if it is one of 1, 3, 6, 9, 10, 12, 13, 14.
    pub open spec fn of_code(code: u8) -> Option<TrophyRoadRewardKind> {
        if code == 1 {
            Some(TrophyRoadRewardKind::Gold)
        } else if code == 3 {
            Some(TrophyRoadRewardKind::Brawler)
        } else if code == 6 {
            Some(TrophyRoadRewardKind::BsBox(BoxType::Brawl))
        } else if code == 9 {
            Some(TrophyRoadRewardKind::TokenDoublers)
        } else if code == 10 {
            Some(TrophyRoadRewardKind::BsBox(BoxType::Mega))
        } else if code == 12 {
            Some(TrophyRoadRewardKind::PowerPoints)
        } else if code == 13 {
            Some(TrophyRoadRewardKind::GameMode)
        } else if code == 14 {
            Some(TrophyRoadRewardKind::BsBox(BoxType::Big))
        } else {
            None
        }
    }

    /// The code of `kind`; custom boxes have none.
    pub open spec fn code_of(kind: TrophyRoadRewardKind) -> Option<u8> {
        match kind {
            TrophyRoadRewardKind::Gold => Some(1u8),
            TrophyRoadRewardKind::Brawler => Some(3u8),
            TrophyRoadRewardKind::TokenDoublers => Some(9u8),
            TrophyRoadRewardKind::PowerPoints => Some(12u8),
            TrophyRoadRewardKind::GameMode => Some(13u8),
            TrophyRoadRewardKind::BsBox(BoxType::Brawl) => Some(6u8),
            TrophyRoadRewardKind::BsBox(BoxType::Big) => Some(14u8),
            TrophyRoadRewardKind::BsBox(BoxType::Mega) => Some(10u8),
            TrophyRoadRewardKind::BsBox(BoxType::Custom(_)) => None,
        }
    }

    /// Creates a kind from its code; `None` for codes that name no kind.
    pub fn from_code(code: u8) -> (r: Option<Self>)
        ensures
            r == Self::of_code(code),
    {
        match code {
            1 => Some(TrophyRoadRewardKind::Gold),
            3 => Some(TrophyRoadRewardKind::Brawler),
            6 => Some(TrophyRoadRewardKind::BsBox(BoxType::Brawl)),
            9 => Some(TrophyRoadRewardKind::TokenDoublers),
            10 => Some(TrophyRoadRewardKind::BsBox(BoxType::Mega)),
            12 => Some(TrophyRoadRewardKind::PowerPoints),
            13 => Some(TrophyRoadRewardKind::GameMode),
            14 => Some(TrophyRoadRewardKind::BsBox(BoxType::Big)),
            _ => None,
        }
    }

    /// The kind's code; `None` for custom boxes.
    pub fn to_code(self) -> (r: Option<u8>)
        ensures
            r == Self::code_of(self),
    {
        match self {
            TrophyRoadRewardKind::Gold => Some(Self::GOLD),
            TrophyRoadRewardKind::Brawler => Some(Self::BRAWLER),
            TrophyRoadRewardKind::TokenDoublers => Some(Self::TOKEN_DOUBLERS),
            TrophyRoadRewardKind::PowerPoints => Some(Self::POWER_POINTS),
            TrophyRoadRewardKind::GameMode => Some(Self::GAME_MODE),
            TrophyRoadRewardKind::BsBox(bt) => match bt {
                BoxType::Brawl => Some(Self::BRAWL_BOX),
                BoxType::Big => Some(Self::BIG_BOX),
                BoxType::Mega => Some(Self::MEGA_BOX),
                BoxType::Custom(_) => None,
            },
        }
    }
}

/// Every code names a kind that has that code again.
pub proof fn lemma_code_round_trip(code: u8)
    ensures
        TrophyRoadRewardKind::of_code(code) matches Some(kind) ==> TrophyRoadRewardKind::code_of(kind)
            == Some(code),
{
}

} // verus!
