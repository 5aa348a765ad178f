//! Entries of the battle log.

use vstd::prelude::*;

use crate::gameplay::player::PlayerId;

verus! {

/// Relies on chrono's `Utc::now` and `DateTime::timestamp_millis`: the time
/// now, in milliseconds since the Unix epoch. Nothing can be promised of it.
#[verifier::external_body]
fn utc_now_millis() -> (r: i64) {
    chrono::Utc::now().timestamp_millis()
}

/// An entry of the battle log.
#[derive(Clone, Debug)]
pub struct BattleLogEntry {
    /// The players that took part in the battle.
    pub players: Vec<PlayerLogEntry>,
    /// The name of the game mode in which the battle was played.
    pub game_mode: String,
    /// When the battle ended, in milliseconds since the Unix epoch (UTC).
    pub timestamp: i64,
}

impl BattleLogEntry {
    /// Creates a new entry for a battle that ends now.
    pub fn new(players: Vec<PlayerLogEntry>, game_mode: String) -> (r: Self)
        ensures
            r.players@ == players@,
            r.game_mode@ == game_mode@,
    {
        BattleLogEntry { players, game_mode, timestamp: utc_now_millis() }
    }
}

/// A player's part in an entry of the battle log.
#[derive(Clone, Debug)]
pub struct PlayerLogEntry {
    /// The ID of the player.
    pub id: PlayerId,
    /// The entry for the player's Brawler.
    pub brawler_entry: PlayerBrawlerLogEntry,
    /// The trophies the player earned from the battle.
    pub reward_trophies: i32,
    /// Whether the player won the battle.
    pub won: bool,
}

impl PlayerLogEntry {
    /// Creates a new player entry.
    pub fn new(id: PlayerId, brawler_entry: PlayerBrawlerLogEntry, reward_trophies: i32, won: bool) -> (r: Self)
        ensures
            r == (PlayerLogEntry { id, brawler_entry, reward_trophies, won }),
    {
        PlayerLogEntry { id, brawler_entry, reward_trophies, won }
    }
}

/// The Brawler's part in a player's entry of the battle log.
#[derive(Clone, Debug)]
pub struct PlayerBrawlerLogEntry {
    /// The name of the Brawler.
    pub name: String,
    /// The level of the Brawler.
    pub level: u32,
    /// The trophies of the Brawler.
    pub trophies: u32,
}

impl PlayerBrawlerLogEntry {
    /// Creates a new Brawler entry.
    pub fn new(name: String, level: u32, trophies: u32) -> (r: Self)
        ensures
            r == (PlayerBrawlerLogEntry { name, level, trophies }),
    {
        PlayerBrawlerLogEntry { name, level, trophies }
    }
}

} // verus!
