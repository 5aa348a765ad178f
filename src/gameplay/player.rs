//! Players and their state during a brawl.

use vstd::prelude::*;

use crate::gameplay::battle_brawler::{buffed, valid_level, BrawlerInfo, Spawn};

verus! {

/// A unique identifier for a [`Player`] during a brawl.
#[derive(Clone, Copy, Debug, PartialEq, Eq, Hash, Structural)]
pub struct PlayerId(pub u64);

/// A point on the map.
#[derive(Clone, Copy, Debug, PartialEq, Eq, Hash, Structural)]
pub struct Position(pub u32, pub u32);

impl Position {
    /// Creates the point `(x, y)`.
    pub fn new(x: u32, y: u32) -> (r: Self)
        ensures
            r == Position(x, y),
    {
        Position(x, y)
    }
}

/// Square of the Euclidean distance between two points.
pub open spec fn sq_dist(a: Position, b: Position) -> int {
    (a.0 - b.0) * (a.0 - b.0) + (a.1 - b.1) * (a.1 - b.1)
}

/// A character's current status.
#[derive(Clone, Copy, Debug, PartialEq, Eq, Structural)]
pub enum CharacterStatus {
    /// Character is alive.
    Alive,
    /// Character is dead, but respawning.
    Respawning,
    /// Character is dead and cannot respawn.
    Dead,
}

impl CharacterStatus {
    /// Checks if the character is alive.
    pub fn is_alive(&self) -> (r: bool)
        ensures
            r == (*self == CharacterStatus::Alive),
    {
        matches!(self, CharacterStatus::Alive)
    }

    /// Checks if the character is respawning.
    pub fn is_respawning(&self) -> (r: bool)
        ensures
            r == (*self == CharacterStatus::Respawning),
    {
        matches!(self, CharacterStatus::Respawning)
    }

    /// Checks if the character is dead.
    pub fn is_dead(&self) -> (r: bool)
        ensures
            r == (*self == CharacterStatus::Dead),
    {
        matches!(self, CharacterStatus::Dead)
    }
}

/// A player's spawn.
#[derive(Clone, Debug)]
pub struct PlayerSpawn {
    /// Stats and info about the spawn.
    pub info: Spawn,
    /// The current health of the spawn.
    pub health: u32,
    /// The status of the spawn.
    pub status: CharacterStatus,
}

/// The current state of a player.
#[derive(Clone, Debug)]
pub struct PlayerState {
    /// Amount of ammo the player has.
    pub ammo: u8,
    /// Round number when the player last used ammo.
    pub last_used_ammo: u8,
    /// Number of attacks the player landed since last using the super.
    pub attacks: u32,
    /// Whether the player is invincible right now.
    pub is_invincible: bool,
    /// The player's current status.
    pub status: CharacterStatus,
    /// The spawn of the player's Brawler, while it is out.
    pub spawn: Option<PlayerSpawn>,
    /// Maximum health points the player can have.
    pub max_health: u32,
    /// The player's current health points.
    pub health: u32,
    /// Round number when the player last dealt or took damage.
    pub last_attack_round: u8,
    /// Whether the player is stunned right now.
    pub is_stunned: bool,
    /// The player's position on the map.
    pub position: Position,
}

impl PlayerState {
    /// This state after taking `amount` damage: health never drops below 0,
    /// and a player whose health reaches 0 is dead.
    pub open spec fn damaged(self, amount: int) -> PlayerState {
        if self.health <= amount {
            PlayerState { health: 0, status: CharacterStatus::Dead, ..self }
        } else {
            PlayerState { health: (self.health - amount) as u32, ..self }
        }
    }

    /// This state after healing `amount`, up to the maximum health.
    pub open spec fn healed(self, amount: int) -> PlayerState {
        let h = if self.health + amount > self.max_health {
            self.max_health as int
        } else {
            self.health + amount
        };
        PlayerState { health: h as u32, ..self }
    }

    /// Ammo is due at `round` for a Brawler that reloads in `reload_rounds`
    /// rounds and holds `max_ammo`.
    pub open spec fn ammo_due(self, reload_rounds: int, max_ammo: int, round: int) -> bool {
        let since = if round >= reload_rounds {
            round - reload_rounds
        } else {
            0
        };
        self.last_used_ammo <= since && self.ammo < max_ammo
    }

    /// The player counts as alive: its status is alive or it has health left.
    pub open spec fn alive(self) -> bool {
        self.status == CharacterStatus::Alive || self.health > 0
    }

    /// The player counts as dead: its status is dead or it has no health left.
    pub open spec fn dead(self) -> bool {
        self.status == CharacterStatus::Dead || self.health == 0
    }

    /// A state with `ammo` and full `health`, at the origin, alive and with
    /// nothing else going on.
    pub open spec fn fresh(ammo: u8, health: u32) -> PlayerState {
        PlayerState {
            ammo,
            last_used_ammo: 0,
            attacks: 0,
            is_invincible: false,
            status: CharacterStatus::Alive,
            spawn: None,
            max_health: health,
            health,
            last_attack_round: 0,
            is_stunned: false,
            position: Position(0, 0),
        }
    }

    /// Creates a new state with `ammo` and `health`, at the origin, alive and
    /// with nothing else going on.
    pub fn new(ammo: u8, health: u32) -> (r: Self)
        ensures
            r == Self::fresh(ammo, health),
    {
        PlayerState {
            ammo,
            last_used_ammo: 0,
            attacks: 0,
            is_invincible: false,
            status: CharacterStatus::Alive,
            spawn: None,
            max_health: health,
            health,
            last_attack_round: 0,
            is_stunned: false,
            position: Position::new(0, 0),
        }
    }

    /// Returns the square of the distance to another player.
    pub fn squared_distance_from_player(&self, player_state: &Self) -> (r: u128)
        ensures
            r == sq_dist(self.position, player_state.position),
            r <= 0x2_0000_0000_0000_0000,
    {
        let dx: u128 = if self.position.0 >= player_state.position.0 {
            (self.position.0 - player_state.position.0) as u128
        } else {
            (player_state.position.0 - self.position.0) as u128
        };
        let dy: u128 = if self.position.1 >= player_state.position.1 {
            (self.position.1 - player_state.position.1) as u128
        } else {
            (player_state.position.1 - self.position.1) as u128
        };
        assert(dx * dx <= 0xffff_ffff * 0xffff_ffff && dy * dy <= 0xffff_ffff * 0xffff_ffff)
            by (nonlinear_arith)
            requires
                dx <= 0xffff_ffff,
                dy <= 0xffff_ffff,
        ;
        assert(dx * dx == (self.position.0 - player_state.position.0) * (self.position.0
            - player_state.position.0)) by (nonlinear_arith)
            requires
                dx == self.position.0 - player_state.position.0 || dx == player_state.position.0
                    - self.position.0,
        ;
        assert(dy * dy == (self.position.1 - player_state.position.1) * (self.position.1
            - player_state.position.1)) by (nonlinear_arith)
            requires
                dy == self.position.1 - player_state.position.1 || dy == player_state.position.1
                    - self.position.1,
        ;
        dx * dx + dy * dy
    }

    /// Tries to regenerate one ammo for a player of `brawler` at `round_num`.
    ///
    /// Ammo is due once the Brawler's reload time has passed since the
    /// player last used ammo, and only while the player holds less than the
    /// maximum. Returns whether ammo was regenerated.
    pub fn regenerate_ammo(&mut self, brawler: &BrawlerInfo, round_num: u8) -> (r: bool)
        ensures
            r == old(self).ammo_due(
                brawler.reload_rounds(),
                brawler.attack.max_ammo as int,
                round_num as int,
            ),
            r ==> *final(self) == (PlayerState { ammo: (old(self).ammo + 1) as u8, ..*old(self) }),
            !r ==> *final(self) == *old(self),
    {
        if self.ammo_is_due(brawler, round_num) {
            self.ammo = self.ammo + 1;
            true
        } else {
            false
        }
    }

    /// Checks whether ammo is due at `round_num` for a player of `brawler`.
    pub(crate) fn ammo_is_due(&self, brawler: &BrawlerInfo, round_num: u8) -> (r: bool)
        ensures
            r == self.ammo_due(
                brawler.reload_rounds(),
                brawler.attack.max_ammo as int,
                round_num as int,
            ),
    {
        let reload = brawler.reload_rounds_exec();
        self.last_used_ammo <= round_num.saturating_sub(reload) && self.ammo < brawler.attack.max_ammo
    }

    /// Heals the player by `amount`, up to the maximum health.
    pub fn heal(&mut self, amount: u32)
        ensures
            *final(self) == old(self).healed(amount as int),
    {
        if self.health >= self.max_health || self.max_health - self.health <= amount {
            self.health = self.max_health;
        } else {
            self.health = self.health + amount;
        }
    }

    /// Checks if the player is alive: by status, or by health left.
    pub fn is_alive(&self) -> (r: bool)
        ensures
            r == self.alive(),
    {
        self.status.is_alive() || self.health > 0
    }

    /// Checks if the player is respawning.
    pub fn is_respawning(&self) -> (r: bool)
        ensures
            r == (self.status == CharacterStatus::Respawning),
    {
        self.status.is_respawning()
    }

    /// Checks if the player is dead: by status, or by no health left.
    pub fn is_dead(&self) -> (r: bool)
        ensures
            r == self.dead(),
    {
        self.status.is_dead() || self.health == 0
    }

    /// Applies `amount` damage to the player; a player whose health reaches 0
    /// is dead.
    pub fn damage(&mut self, amount: u32)
        ensures
            *final(self) == old(self).damaged(amount as int),
    {
        if self.health <= amount {
            self.health = 0;
            self.status = CharacterStatus::Dead;
        } else {
            self.health = self.health - amount;
        }
    }
}

/// Checks that `base` scaled to `level` fits in `u32`.
fn fits_buffed(base: u32, level: u32) -> (r: bool)
    requires
        valid_level(level as int),
    ensures
        r == (buffed(base as int, level as int) <= u32::MAX),
{
    let l = if level == 10 { 9 } else { level };
    let (a, b) = (base as u64, (l - 1) as u64);
    assert(a * b <= 0xffff_ffff * 9) by (nonlinear_arith)
        requires
            a <= 0xffff_ffff,
            b <= 9,
    ;
    let scaled = a * b;
    base as u64 + scaled / 20 <= u32::MAX as u64
}

/// The Brawler a player plays with, and its level.
#[derive(Clone, Debug)]
pub struct PlayerBrawlerState {
    /// The player's selected Brawler.
    pub brawler: BrawlerInfo,
    /// The level of the player's selected Brawler.
    pub level: u32,
}

impl PlayerBrawlerState {
    /// The Brawler's stats fit in `u32` at its level.
    pub open spec fn wf(&self) -> bool {
        self.brawler.fits_level(self.level as int)
    }

    /// Checks that the Brawler's level is between 1 and 10 and its stats fit
    /// in `u32` at that level.
    pub fn is_valid(&self) -> (r: bool)
        ensures
            r == self.wf(),
    {
        if self.level < 1 || self.level > 10 {
            return false;
        }
        let b = &self.brawler;
        let ult = match b.ult.damage {
            Some(d) => d,
            None => 0,
        };
        fits_buffed(b.health, self.level) && fits_buffed(b.attack.damage, self.level) && fits_buffed(
            ult,
            self.level,
        )
    }

    /// Creates a new state with the given Brawler and level.
    pub fn new(brawler: BrawlerInfo, level: u32) -> (r: Self)
        ensures
            r == (PlayerBrawlerState { brawler, level }),
    {
        PlayerBrawlerState { brawler, level }
    }
}

/// A player during a brawl.
#[derive(Clone, Debug)]
pub struct Player {
    /// The unique ID of the player.
    pub id: PlayerId,
    /// The state of the player.
    pub state: PlayerState,
    /// Whether the player is the first one in lobby or not.
    pub is_first: bool,
    /// The state of the player's Brawler.
    pub brawler_state: PlayerBrawlerState,
}

impl Player {
    /// The player can attack.
    pub open spec fn attack_ready(&self) -> bool {
        self.state.ammo > 0
    }

    /// The player can use its super: it landed more attacks than required.
    pub open spec fn super_ready(&self) -> bool {
        self.state.attacks > self.brawler_state.brawler.ult.hits_required
    }

    /// Creates a new player with full ammo and full health at the Brawler's
    /// level.
    pub fn new(id: PlayerId, brawler_state: PlayerBrawlerState, is_first: bool) -> (r: Self)
        requires
            brawler_state.wf(),
        ensures
            r.id == id,
            r.is_first == is_first,
            r.brawler_state == brawler_state,
            r.state == PlayerState::fresh(
                brawler_state.brawler.attack.max_ammo,
                buffed(brawler_state.brawler.health as int, brawler_state.level as int) as u32,
            ),
    {
        let ammo = brawler_state.brawler.attack.max_ammo;
        let health = brawler_state.brawler.health(brawler_state.level);
        Player { id, is_first, brawler_state, state: PlayerState::new(ammo, health) }
    }

    /// Tries to regenerate the player's ammo; see
    /// [`PlayerState::regenerate_ammo`].
    pub fn regenerate_ammo(&mut self, round_num: u8) -> (r: bool)
        ensures
            r == old(self).state.ammo_due(
                old(self).brawler_state.brawler.reload_rounds(),
                old(self).brawler_state.brawler.attack.max_ammo as int,
                round_num as int,
            ),
            final(self).state == (if r {
                PlayerState { ammo: (old(self).state.ammo + 1) as u8, ..old(self).state }
            } else {
                old(self).state
            }),
            final(self).id == old(self).id,
            final(self).is_first == old(self).is_first,
            final(self).brawler_state == old(self).brawler_state,
    {
        self.state.regenerate_ammo(&self.brawler_state.brawler, round_num)
    }

    /// Heals the player by `amount`, up to the maximum health.
    pub fn heal(&mut self, amount: u32)
        ensures
            *final(self) == (Player { state: old(self).state.healed(amount as int), ..*old(self) }),
    {
        self.state.heal(amount);
    }

    /// Marks the player as respawning, with full health.
    pub fn respawn(&mut self)
        ensures
            *final(self) == (Player {
                state: PlayerState {
                    status: CharacterStatus::Respawning,
                    health: old(self).state.max_health,
                    ..old(self).state
                },
                ..*old(self)
            }),
    {
        self.state.status = CharacterStatus::Respawning;
        self.state.health = self.state.max_health;
    }

    /// Checks that the player can start a game: its Brawler's stats fit at
    /// its level, it holds no more ammo than the Brawler can, and it has
    /// landed no attacks yet.
    pub fn is_ready(&self) -> (r: bool)
        ensures
            r == (self.brawler_state.wf() && self.state.ammo <= self.brawler_state.brawler.attack.max_ammo
                && self.state.attacks == 0),
    {
        self.brawler_state.is_valid() && self.state.ammo <= self.brawler_state.brawler.attack.max_ammo
            && self.state.attacks == 0
    }

    /// Checks if the player can attack.
    pub fn can_attack(&self) -> (r: bool)
        ensures
            r == self.attack_ready(),
    {
        self.state.ammo > 0
    }

    /// Checks if the player can use the super.
    pub fn can_super(&self) -> (r: bool)
        ensures
            r == self.super_ready(),
    {
        self.state.attacks > self.brawler_state.brawler.super_hits_required()
    }
}

impl PartialEq for Player {
    fn eq(&self, other: &Self) -> (r: bool) {
        self.id == other.id
    }
}

impl vstd::std_specs::cmp::PartialEqSpecImpl for Player {
    open spec fn obeys_eq_spec() -> bool {
        true
    }

    open spec fn eq_spec(&self, other: &Player) -> bool {
        self.id == other.id
    }
}

} // verus!
