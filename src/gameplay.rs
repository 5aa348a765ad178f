//! The core of the library: players, their Brawlers and the game modes they
//! battle in.

pub mod battle_brawler;
pub mod battle_game_mode;
pub mod battle_log;
pub mod player;

use vstd::prelude::*;

use crate::gameplay::battle_game_mode::gemgrab::GemGrab;
use crate::gameplay::battle_game_mode::showdown::Showdown;
use crate::gameplay::battle_game_mode::{player_live, BattleGameMode};
use crate::gameplay::player::{Player, PlayerId};

verus! {

/// A brawl: a game mode and the two players who battle in it.
#[derive(Clone, Debug)]
pub struct Game {
    /// The game mode of the brawl.
    pub game_mode: BattleGameMode,
    /// The players of the brawl.
    pub players: Players,
    /// The result, once the brawl has been played.
    pub result: Option<GameResult>,
}

impl Game {
    /// Creates a new brawl that has not been played yet.
    pub fn new(gamemode: BattleGameMode, players: Players) -> (r: Self)
        ensures
            r == (Game { game_mode: gamemode, players, result: None }),
    {
        Game { game_mode: gamemode, players, result: None }
    }
}

/// The two players of a game.
#[derive(Clone, Debug)]
pub struct Players(pub Player, pub Player);

impl Players {
    /// Both players can start a game.
    pub open spec fn ready_spec(&self) -> bool {
        player_live(self.0, 0) && player_live(self.1, 0)
    }

    /// Checks that both players can start a game: their Brawlers' stats fit
    /// at their levels, they hold no more ammo than their Brawlers can, and
    /// they have landed no attacks yet.
    pub fn ready(&self) -> (r: bool)
        ensures
            r == self.ready_spec(),
            r ==> GemGrab::initial().wf(*self) && Showdown::initial().wf(*self),
    {
        self.0.is_ready() && self.1.is_ready()
    }

    /// Creates the pair of players.
    pub fn new(first: Player, second: Player) -> (r: Self)
        ensures
            r == Players(first, second),
    {
        Players(first, second)
    }
}

/// The result of a game.
#[derive(Clone, Copy, Debug, PartialEq, Eq, Structural)]
pub enum GameResult {
    /// Game ended with one player winning and one losing.
    Decisive { winner: PlayerId, loser: PlayerId },
    /// Game ended in a draw.
    Draw,
}

impl GameResult {
    /// Checks if the result is decisive.
    pub fn is_decisive(&self) -> (r: bool)
        ensures
            r == (*self is Decisive),
    {
        matches!(self, GameResult::Decisive { .. })
    }

    /// Checks if the result is a draw.
    pub fn is_draw(&self) -> (r: bool)
        ensures
            r == (*self is Draw),
    {
        matches!(self, GameResult::Draw)
    }
}

} // verus!
