//! Brawlers as the game's content describes them.

use vstd::prelude::*;

verus! {

/// Default amount of ammo a Brawler has.
pub fn default_ammo() -> (r: u8)
    ensures
        r == 3,
{
    3
}

/// Default extra text of an attack or super: "Damage".
pub fn default_descriptor() -> (r: Option<String>)
    ensures
        r matches Some(s) && s@ == "Damage"@,
{
    Some(String::from_str("Damage"))
}

/// A Brawler.
#[derive(Clone, Debug)]
pub struct Brawler {
    /// Name of the Brawler.
    pub name: String,
    /// Health points of the Brawler at level 1.
    pub health: u32,
    /// Speed of the Brawler.
    pub speed: u32,
    /// Rarity of the Brawler.
    pub rarity: Rarity,
    /// The Brawler's attack at level 1.
    pub attack: Attack,
    /// The Brawler's super at level 1.
    pub ult: Ult,
    /// The Brawler's first gadget.
    pub gadget1: Gadget,
    /// The Brawler's second gadget.
    pub gadget2: Gadget,
    /// The Brawler's first star power.
    pub sp1: StarPower,
    /// The Brawler's second star power.
    pub sp2: StarPower,
    /// All skins of the Brawler.
    pub skins: Vec<Skin>,
}

/// The rarity of a Brawler.
#[derive(Clone, Copy, Debug, PartialEq, Eq, Hash, Structural)]
pub enum Rarity {
    /// Unlocked on the Trophy Road at the given trophies.
    TrophyRoad(u32),
    /// Rare.
    Rare,
    /// Super Rare.
    SuperRare,
    /// Epic.
    Epic,
    /// Mythic.
    Mythic,
    /// Legendary.
    Legendary,
    /// Chromatic, of the given season.
    Chromatic(ChromaticSeason),
}

/// The season of a Chromatic Brawler.
#[derive(Clone, Copy, Debug, PartialEq, Eq, Hash, Structural)]
pub enum ChromaticSeason {
    /// The first season, as rare as Legendary.
    First,
    /// The second season, as rare as Mythic.
    Second,
    /// The third season, as rare as Epic.
    Third,
}

impl Rarity {
    /// The rarity right under `r`, if there is one below it.
    pub open spec fn below(r: Rarity) -> Option<Rarity> {
        match r {
            Rarity::Legendary => Some(Rarity::Mythic),
            Rarity::Mythic => Some(Rarity::Epic),
            Rarity::Epic => Some(Rarity::SuperRare),
            Rarity::SuperRare => Some(Rarity::Rare),
            _ => None,
        }
    }

    /// Returns the rarity right under this one.
    ///
    /// `Chromatic`, `Rare` and `TrophyRoad` have none.
    pub fn lower(&self) -> (r: Option<Self>)
        ensures
            r == Self::below(*self),
    {
        match *self {
            Rarity::Legendary => Some(Rarity::Mythic),
            Rarity::Mythic => Some(Rarity::Epic),
            Rarity::Epic => Some(Rarity::SuperRare),
            Rarity::SuperRare => Some(Rarity::Rare),
            _ => None,
        }
    }
}

/// The attack of a Brawler.
#[derive(Clone, Debug)]
pub struct Attack {
    /// Name of the attack.
    pub name: String,
    /// Damage output of the attack.
    pub damage: u32,
    /// Description of the attack.
    pub description: String,
    /// Maximum attack ammo the Brawler can have.
    pub max_ammo: u8,
    /// Range of the attack, in tenths of a tile.
    pub range: u32,
    /// Reload time of the attack, in tenths of a round.
    pub reload: u32,
    /// Number of projectiles in the attack.
    pub projectiles: u32,
    /// Extra text for the attack, such as "Damage per shell".
    pub descriptor: Option<String>,
}

/// The super of a Brawler.
#[derive(Clone, Debug)]
pub struct Ult {
    /// Name of the super.
    pub name: String,
    /// Damage output of the super; `None` for special supers.
    pub damage: Option<u32>,
    /// Description of the super.
    pub description: String,
    /// Range of the super, in tenths of a tile; `None` for spawners.
    pub range: Option<u32>,
    /// Number of projectiles in the super.
    pub projectiles: u32,
    /// Number of hits required to charge the super.
    pub hits_required: u32,
    /// Extra text for the super, such as "Damage per shell".
    pub descriptor: Option<String>,
    /// Spawn of the super, for the few Brawlers that have one.
    pub spawn: Option<Spawn>,
}

/// A Brawler's spawn.
#[derive(Clone, Debug)]
pub struct Spawn {
    /// Name of the spawn.
    pub name: String,
    /// Health of the spawn.
    pub health: u32,
    /// Damage output of the spawn.
    pub damage: u32,
    /// Range of the spawn, in tenths of a tile.
    pub range: u32,
    /// Speed of the spawn, in tenths of a tile per round.
    pub speed: u32,
}

/// A Brawler's gadget.
#[derive(Clone, Debug)]
pub struct Gadget {
    /// Name of the gadget.
    pub name: String,
    /// Description of the gadget.
    pub description: String,
}

/// A Brawler's star power.
#[derive(Clone, Debug)]
pub struct StarPower {
    /// Name of the star power.
    pub name: String,
    /// Description of the star power.
    pub description: String,
}

/// A Brawler skin.
#[derive(Clone, Debug)]
pub struct Skin {
    /// Name of the skin.
    pub name: String,
    /// Cost of the skin.
    pub cost: u32,
    /// Type of the skin.
    pub kind: SkinType,
    /// Whether the skin is special.
    pub special: bool,
}

/// What a skin is bought with.
#[derive(Clone, Copy, Debug, PartialEq, Eq, Structural)]
pub enum SkinType {
    /// Skin available for gems.
    Gem,
    /// Skin available for star tokens.
    StarToken,
    /// Skin available for free.
    Free,
}

impl SkinType {
    /// Whether the skin is free.
    pub fn is_free(&self) -> (r: bool)
        ensures
            r == (*self == SkinType::Free),
    {
        matches!(self, SkinType::Free)
    }

    /// Whether the skin is available for gems.
    pub fn is_gem(&self) -> (r: bool)
        ensures
            r == (*self == SkinType::Gem),
    {
        matches!(self, SkinType::Gem)
    }

    /// Whether the skin is available for star tokens.
    pub fn is_star_token(&self) -> (r: bool)
        ensures
            r == (*self == SkinType::StarToken),
    {
        matches!(self, SkinType::StarToken)
    }
}

} // verus!
