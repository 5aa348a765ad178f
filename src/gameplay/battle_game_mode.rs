//! Game modes for battles, and the round mechanics they share.
//!
//! A game mode is a state machine. [`Step`] says what the game needs next:
//! notices delivered to the players, a move chosen among legal moves, or
//! nothing more because the game is over. Whoever drives the game performs
//! that and feeds the answer back.

pub mod gemgrab;
pub mod showdown;

use vstd::prelude::*;

use crate::error::Error;
use crate::gameplay::battle_brawler::{in_reach, within_reach};
use crate::gameplay::battle_game_mode::gemgrab::{GemGrab, GemGrabMove};
use crate::gameplay::battle_game_mode::showdown::{Showdown, ShowdownMove};
use crate::gameplay::player::{sq_dist, Player, PlayerId, PlayerState};
use crate::gameplay::{GameResult, Players};
use crate::model::game_mode::Event;

verus! {

/// Rounds a player must go without dealing or taking an attack before healing.
pub const HEALING_TIME: u8 = 3;

/// Health regained by healing.
pub const HEALING_OVER_TIME: u32 = 100;

/// Rounds after which a game that nobody has won ends in a draw.
pub const ROUND_LIMIT: u8 = 150;

/// A message for one player.
#[derive(Clone, Debug)]
pub struct Notice {
    /// Who the message is for.
    pub player: PlayerId,
    /// The message.
    pub message: String,
}

impl Notice {
    /// This notice gives `message` to `player`.
    pub open spec fn says(&self, player: PlayerId, message: Seq<char>) -> bool {
        self.player == player && self.message@ == message
    }

    /// Creates a notice of `message` for `player`.
    pub fn new(player: PlayerId, message: &str) -> (r: Self)
        ensures
            r.says(player, message@),
    {
        Notice { player, message: String::from_str(message) }
    }
}

/// What a game needs next.
#[derive(Debug)]
pub enum Step<M> {
    /// Deliver these notices in order, then go on.
    Inform(Vec<Notice>),
    /// Ask the acting player for the index of one of these moves.
    Choose(Vec<M>),
    /// Deliver these notices in order; the game ended with this result.
    Finished(Vec<Notice>, GameResult),
}

/// The moves a player is asked to choose from.
#[derive(Clone, Copy, Debug)]
pub enum Moves<'a> {
    /// Moves in Gem Grab.
    GemGrab(&'a [GemGrabMove]),
    /// Moves in Showdown.
    Showdown(&'a [ShowdownMove]),
}

/// A game mode usable for battles.
#[derive(Clone, Copy, Debug)]
pub struct BattleGameMode {
    /// The event of the game mode.
    pub event: Event,
}

/// A game in progress, in one of the modes that can be played.
#[derive(Debug)]
pub enum Battle {
    /// A game of Gem Grab.
    GemGrab(GemGrab),
    /// A game of Showdown.
    Showdown(Showdown),
}

/// A general move.
#[derive(Clone, Copy, Debug, PartialEq, Eq, Structural)]
pub enum GeneralMove {
    /// Attack the enemy Brawler.
    Attack,
    /// Use the super on the enemy Brawler.
    Ult,
    /// Attack the enemy spawn.
    AttackSpawn,
    /// Use the super on the enemy spawn.
    UltSpawn,
    /// Dodge the next move.
    Dodge,
}

/// The player who acts in round `round`: the first one in even rounds.
pub open spec fn actor(players: Players, round: int) -> Player {
    if round % 2 == 0 {
        players.0
    } else {
        players.1
    }
}

/// The player who waits in round `round`.
pub open spec fn opponent(players: Players, round: int) -> Player {
    if round % 2 == 0 {
        players.1
    } else {
        players.0
    }
}

/// The pair of players in which `actor` acts in round `round`.
pub open spec fn arranged(round: int, actor: Player, opponent: Player) -> Players {
    if round % 2 == 0 {
        Players(actor, opponent)
    } else {
        Players(opponent, actor)
    }
}

/// `p` with state `s`.
pub open spec fn with_state(p: Player, s: PlayerState) -> Player {
    Player { state: s, ..p }
}

/// `p` after the ammo check of round `round`: one more ammo when it is due.
pub open spec fn regenerated(p: Player, round: int) -> Player {
    let b = p.brawler_state.brawler;
    if p.state.ammo_due(b.reload_rounds(), b.attack.max_ammo as int, round) {
        with_state(p, PlayerState { ammo: (p.state.ammo + 1) as u8, ..p.state })
    } else {
        p
    }
}

/// `p` heals in round `round`: it has not dealt or taken an attack for long enough.
pub open spec fn heal_due(p: Player, round: int) -> bool {
    p.state.last_attack_round + HEALING_TIME < round
}

/// `p` after the healing check of round `round`.
pub open spec fn rested(p: Player, round: int) -> Player {
    if heal_due(p, round) {
        with_state(p, p.state.healed(HEALING_OVER_TIME as int))
    } else {
        p
    }
}

/// The acting player after the checks that open its turn in round `round`.
pub open spec fn refreshed(p: Player, round: int) -> Player {
    rested(regenerated(p, round), round)
}

/// `p` with its stun cleared.
pub open spec fn unstunned(p: Player) -> Player {
    with_state(p, PlayerState { is_stunned: false, ..p.state })
}

/// `p` with its invincibility cleared.
pub open spec fn exposed(p: Player) -> Player {
    with_state(p, PlayerState { is_invincible: false, ..p.state })
}

/// `p` is in a state the game can go on with: its Brawler's stats fit at its
/// level and it holds no more ammo than the Brawler can.
pub open spec fn player_ok(p: Player) -> bool {
    p.brawler_state.wf() && p.state.ammo <= p.brawler_state.brawler.attack.max_ammo
}

/// `p` is ready for round `round`: it landed at most one attack per round.
pub open spec fn player_live(p: Player, round: int) -> bool {
    player_ok(p) && p.state.attacks <= round
}

/// `player` may make general move `m`.
pub open spec fn general_allowed(m: GeneralMove, player: Player) -> bool {
    &&& player.brawler_state.wf()
    &&& m == GeneralMove::Attack ==> player.state.ammo > 0 && player.state.attacks < u32::MAX
}

/// What general move `m` of `first` against `second` does to the two players.
pub open spec fn general_outcome(m: GeneralMove, first: Player, second: Player) -> (Player, Player) {
    let info = first.brawler_state.brawler;
    let level = first.brawler_state.level as int;
    match m {
        GeneralMove::Attack => {
            let (a, b) = info.attack_outcome(first.state, second.state, level);
            (with_state(first, a), with_state(second, b))
        },
        GeneralMove::Ult => {
            let (a, b) = info.ult_outcome(first.state, second.state, level);
            (with_state(first, a), with_state(second, b))
        },
        GeneralMove::Dodge => (
            with_state(first, PlayerState { is_invincible: true, ..first.state }),
            second,
        ),
        _ => (first, second),
    }
}

/// General move `m` of `first` reaches `second`.
pub open spec fn lands(m: GeneralMove, first: Player, second: Player) -> bool {
    let d2 = sq_dist(first.state.position, second.state.position);
    let info = first.brawler_state.brawler;
    match m {
        GeneralMove::Attack => in_reach(d2, info.attack.range as int),
        GeneralMove::Ult => in_reach(d2, info.ult.range_or_zero()),
        _ => false,
    }
}

/// General move `m` of `first` against `second` in round `round`: its
/// outcome, with the round recorded as the last one in which both took part
/// in an attack and, for an attack, the last one in which `first` used ammo.
pub open spec fn general_played(m: GeneralMove, first: Player, second: Player, round: int) -> (Player, Player) {
    let (a, b) = general_outcome(m, first, second);
    if lands(m, first, second) {
        let used = if m == GeneralMove::Attack {
            round as u8
        } else {
            a.state.last_used_ammo
        };
        (
            with_state(a, PlayerState { last_attack_round: round as u8, last_used_ammo: used, ..a.state }),
            with_state(b, PlayerState { last_attack_round: round as u8, ..b.state }),
        )
    } else {
        (a, b)
    }
}

/// The checks that open a turn keep a player's Brawler, identity and
/// landed attacks, and never give it more ammo than the Brawler holds.
pub proof fn lemma_refreshed_bounds(p: Player, round: int)
    requires
        player_ok(p),
    ensures
        refreshed(p, round).id == p.id,
        refreshed(p, round).brawler_state == p.brawler_state,
        refreshed(p, round).state.attacks == p.state.attacks,
        refreshed(p, round).state.status == p.state.status,
        refreshed(p, round).state.spawn == p.state.spawn,
        player_ok(refreshed(p, round)),
{
}

/// A general move keeps both players' Brawlers and identities, never gives
/// the mover ammo, lands at most one more attack for it, and leaves the
/// other player's ammo and landed attacks alone.
pub proof fn lemma_general_played_bounds(m: GeneralMove, first: Player, second: Player, round: int)
    requires
        general_allowed(m, first),
    ensures
        ({
            let (a, b) = general_played(m, first, second, round);
            &&& a.id == first.id && b.id == second.id
            &&& a.brawler_state == first.brawler_state
            &&& b.brawler_state == second.brawler_state
            &&& a.state.ammo <= first.state.ammo
            &&& a.state.attacks <= first.state.attacks + 1
            &&& b.state.ammo == second.state.ammo
            &&& b.state.attacks == second.state.attacks
        }),
{
}

impl GeneralMove {
    /// Performs the move of `first` against `second`.
    ///
    /// Moves on spawns do nothing while no game mode gives spawns a part.
    pub fn handle_move(&self, first: &mut Player, second: &mut Player)
        requires
            general_allowed(*self, *old(first)),
        ensures
            (*final(first), *final(second)) == general_outcome(*self, *old(first), *old(second)),
    {
        let brawler_level = first.brawler_state.level;
        match self {
            GeneralMove::Attack => {
                first.brawler_state.brawler.attack(&mut first.state, &mut second.state, brawler_level)
            },
            GeneralMove::Ult => {
                first.brawler_state.brawler.ult(&mut first.state, &mut second.state, brawler_level)
            },
            GeneralMove::AttackSpawn => {},
            GeneralMove::UltSpawn => {},
            GeneralMove::Dodge => first.state.is_invincible = true,
        }
    }
}

/// Plays general move `m` of `first` against `second` in round `round_num`.
pub(crate) fn play_general(m: GeneralMove, first: &mut Player, second: &mut Player, round_num: u8)
    requires
        general_allowed(m, *old(first)),
    ensures
        (*final(first), *final(second)) == general_played(m, *old(first), *old(second), round_num as int),
{
    let landed = match m {
        GeneralMove::Attack => within_reach(
            &first.state,
            &second.state,
            first.brawler_state.brawler.attack.range,
        ),
        GeneralMove::Ult => {
            let range = match first.brawler_state.brawler.ult.range {
                Some(r) => r,
                None => 0,
            };
            within_reach(&first.state, &second.state, range)
        },
        _ => false,
    };
    m.handle_move(first, second);
    if landed {
        first.state.last_attack_round = round_num;
        second.state.last_attack_round = round_num;
        if m == GeneralMove::Attack {
            first.state.last_used_ammo = round_num;
        }
    }
}

/// Opens the turn of `player` in round `round_num`: ammo and healing checks.
pub(crate) fn refresh(player: &mut Player, round_num: u8)
    ensures
        *final(player) == refreshed(*old(player), round_num as int),
{
    player.regenerate_ammo(round_num);
    BattleGameMode::heal(player, round_num);
}

impl BattleGameMode {
    /// Starts a game of this mode.
    ///
    /// Gem Grab and Showdown can be played; any other event is refused.
    pub fn start(&self) -> (r: Result<Battle, Error>)
        ensures
            self.event == Event::GemGrab ==> r == Ok::<Battle, Error>(Battle::GemGrab(GemGrab::initial())),
            self.event == Event::Showdown ==> r == Ok::<Battle, Error>(Battle::Showdown(Showdown::initial())),
            r is Err <==> (self.event != Event::GemGrab && self.event != Event::Showdown),
    {
        match self.event {
            Event::GemGrab => Ok(Battle::GemGrab(GemGrab::new())),
            Event::Showdown => Ok(Battle::Showdown(Showdown::new())),
            _ => Err(Error::MiscError(String::from_str("this game mode cannot be played yet"))),
        }
    }

    /// Heals `player` if it has not dealt or taken an attack for long enough
    /// before round `round_num`. Returns whether it healed.
    pub fn heal(player: &mut Player, round_num: u8) -> (r: bool)
        ensures
            r == heal_due(*old(player), round_num as int),
            *final(player) == rested(*old(player), round_num as int),
    {
        if (player.state.last_attack_round as u16) + (HEALING_TIME as u16) < round_num as u16 {
            player.heal(HEALING_OVER_TIME);
            true
        } else {
            false
        }
    }

    /// Clears the stun of `stunned`, if it is stunned, and returns the
    /// notices that tell both players about it.
    pub fn handle_stun(stunned: &mut Player, other_id: &PlayerId) -> (r: Vec<Notice>)
        ensures
            old(stunned).state.is_stunned ==> {
                &&& *final(stunned) == unstunned(*old(stunned))
                &&& r@.len() == 2
                &&& r@[0].says(old(stunned).id, "You are stunned!"@)
                &&& r@[1].says(*other_id, "Opponent is stunned!"@)
            },
            !old(stunned).state.is_stunned ==> *final(stunned) == *old(stunned) && r@.len() == 0,
    {
        let mut notices = Vec::new();
        if !stunned.state.is_stunned {
            return notices;
        }
        notices.push(Notice::new(stunned.id, "You are stunned!"));
        notices.push(Notice::new(*other_id, "Opponent is stunned!"));
        stunned.state.is_stunned = false;
        notices
    }

    /// The notices that tell both players the game ended in a draw because
    /// time ran out.
    pub fn time_out(first: &PlayerId, second: &PlayerId) -> (r: Vec<Notice>)
        ensures
            r@.len() == 2,
            r@[0].says(*first, "Time's up. Match ended in a draw."@),
            r@[1].says(*second, "Time's up. Match ended in a draw."@),
    {
        let mut notices = Vec::new();
        notices.push(Notice::new(*first, "Time's up. Match ended in a draw."));
        notices.push(Notice::new(*second, "Time's up. Match ended in a draw."));
        notices
    }

    /// The notice that tells `player` it is respawning.
    pub fn dispatch_respawning_message(player: &PlayerId) -> (r: Notice)
        ensures
            r.says(*player, "You are respawning!"@),
    {
        Notice::new(*player, "You are respawning!")
    }

    /// The final result of a game that ended with `result`.
    ///
    /// A game that ended without a result timed out: it is a draw, and both
    /// players are told so.
    pub fn result<M>(result: Option<GameResult>, players: &Players) -> (r: Step<M>)
        ensures
            result matches Some(res) ==> (r matches Step::Finished(n, x) && n@.len() == 0 && x == res),
            result is None ==> (r matches Step::Finished(n, x) && x == GameResult::Draw && n@.len() == 2
                && n@[0].says(players.0.id, "Time's up. Match ended in a draw."@)
                && n@[1].says(players.1.id, "Time's up. Match ended in a draw."@)),
    {
        match result {
            Some(res) => Step::Finished(Vec::new(), res),
            None => Step::Finished(
                BattleGameMode::time_out(&players.0.id, &players.1.id),
                GameResult::Draw,
            ),
        }
    }
}

} // verus!
