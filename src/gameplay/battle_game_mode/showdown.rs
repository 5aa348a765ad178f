//! Showdown: the last player alive wins.

use vstd::prelude::*;

use crate::error::Error;
use crate::gameplay::battle_game_mode::{
    actor, arranged, exposed, general_allowed, general_played, lemma_general_played_bounds,
    lemma_refreshed_bounds, opponent, play_general, player_live, player_ok, refresh, refreshed,
    unstunned, with_state, BattleGameMode, GeneralMove, Step, ROUND_LIMIT,
};
use crate::gameplay::player::{Player, PlayerState};
use crate::gameplay::{GameResult, Players};
use crate::utils::rng::{select_one, weight_sum};

verus! {

/// The round number at which the poison effect begins.
pub const POISON_ROUND_NUM: u8 = 40;

/// The amount of damage done by the poison effect.
pub const POISON_DAMAGE: u32 = 100;

/// A game of Showdown.
///
/// Showdown is a game mode where the last player alive wins. From round 40
/// on, poison hurts both players after every move.
#[derive(Clone, Copy, Debug)]
pub struct Showdown {
    /// The round being played.
    pub round_num: u8,
    /// Power-ups collected by the first and by the second player.
    pub powerups: (u8, u8),
    /// The result, once the game is over.
    pub result: Option<GameResult>,
}

/// A move in Showdown.
#[derive(Clone, Copy, Debug, PartialEq, Eq, Structural)]
pub enum ShowdownMove {
    /// A general move.
    General(GeneralMove),
    /// Collect a power-up.
    CollectPowerUp,
}

/// The moves open to a player who can attack (`can_attack`) and use its
/// super (`can_super`), against an opponent that may have a spawn out.
pub open spec fn showdown_moves(can_attack: bool, can_super: bool, spawn: bool) -> Seq<ShowdownMove> {
    let base = seq![ShowdownMove::General(GeneralMove::Dodge), ShowdownMove::CollectPowerUp];
    let attacks = (if can_attack { seq![ShowdownMove::General(GeneralMove::Attack)] } else { seq![] })
        + (if can_super { seq![ShowdownMove::General(GeneralMove::Ult)] } else { seq![] });
    let on_spawn = if spawn {
        (if can_attack { seq![ShowdownMove::General(GeneralMove::AttackSpawn)] } else { seq![] })
            + (if can_super { seq![ShowdownMove::General(GeneralMove::UltSpawn)] } else { seq![] })
    } else {
        seq![]
    };
    base + attacks + on_spawn
}

/// The result once the acting player is `first` and the waiting one `second`.
pub open spec fn showdown_result(first: Player, second: Player) -> Option<GameResult> {
    if first.state.alive() && second.state.dead() {
        Some(GameResult::Decisive { winner: first.id, loser: second.id })
    } else if first.state.dead() && second.state.alive() {
        Some(GameResult::Decisive { winner: second.id, loser: first.id })
    } else if first.state.dead() && second.state.dead() {
        Some(GameResult::Draw)
    } else {
        None
    }
}

/// `draw` is a possible random outcome of move `m`: a power-up is 0 or 1.
pub open spec fn power_draw_ok(m: ShowdownMove, draw: int) -> bool {
    match m {
        ShowdownMove::CollectPowerUp => 0 <= draw <= 1,
        _ => draw == 0,
    }
}

/// `p` after the poison of round `round`, if it has begun.
pub open spec fn poisoned(p: Player, round: int) -> Player {
    if round >= POISON_ROUND_NUM {
        with_state(p, p.state.damaged(POISON_DAMAGE as int))
    } else {
        p
    }
}

impl Showdown {
    /// A game that has not started.
    pub open spec fn initial() -> Showdown {
        Showdown { round_num: 0, powerups: (0, 0), result: None }
    }

    /// Power-ups of the first player if `first`, else of the second.
    pub open spec fn powerups_of(self, first: bool) -> int {
        if first {
            self.powerups.0 as int
        } else {
            self.powerups.1 as int
        }
    }

    /// The game can go on from here with `players`.
    pub open spec fn wf(self, players: Players) -> bool {
        &&& self.round_num <= ROUND_LIMIT
        &&& player_ok(players.0)
        &&& player_ok(players.1)
        &&& self.result is None ==> {
            &&& self.powerups.0 + self.powerups.1 <= self.round_num
            &&& player_live(players.0, self.round_num as int)
            &&& player_live(players.1, self.round_num as int)
        }
    }

    /// Rounds the game may still take: none once it is over.
    pub open spec fn steps_left(self) -> nat {
        if self.result is Some || self.round_num > ROUND_LIMIT {
            0
        } else {
            (ROUND_LIMIT - self.round_num + 1) as nat
        }
    }

    /// A game can take at most one step per round up to the round limit,
    /// and one more to end.
    pub proof fn lemma_steps_left_bounded(self)
        ensures
            self.steps_left() <= ROUND_LIMIT + 1,
            self.result is Some ==> self.steps_left() == 0,
    {
    }

    /// The game waits for the acting player's move.
    pub open spec fn awaits_move(self, players: Players) -> bool {
        &&& self.result is None
        &&& self.round_num < ROUND_LIMIT
        &&& !actor(players, self.round_num as int).state.is_stunned
    }

    /// The moves open to the acting player in this round.
    pub open spec fn legal(self, players: Players) -> Seq<ShowdownMove> {
        let r = self.round_num as int;
        let a = refreshed(actor(players, r), r);
        showdown_moves(a.attack_ready(), a.super_ready(), opponent(players, r).state.spawn is Some)
    }

    /// The acting player `first` and the waiting player `second` play move
    /// `m`, with random outcome `draw`: the game and the two players after
    /// it. The poison strikes after the move.
    #[verifier::opaque]
    pub open spec fn turn(self, first: Player, second: Player, m: ShowdownMove, draw: int) -> (Showdown, Player, Player) {
        let r = self.round_num as int;
        let a0 = refreshed(first, r);
        let (a1, b1) = match m {
            ShowdownMove::General(g) => general_played(g, a0, second, r),
            _ => (a0, second),
        };
        let a = poisoned(a1, r);
        let b = poisoned(exposed(b1), r);
        let mine = self.powerups_of(r % 2 == 0) + match m {
            ShowdownMove::CollectPowerUp => draw,
            _ => 0,
        };
        let theirs = self.powerups_of(r % 2 != 0);
        let res = showdown_result(a, b);
        (
            Showdown {
                round_num: if res is Some {
                    r as u8
                } else {
                    (r + 1) as u8
                },
                powerups: if r % 2 == 0 {
                    (mine as u8, theirs as u8)
                } else {
                    (theirs as u8, mine as u8)
                },
                result: res,
            },
            a,
            b,
        )
    }

    /// The game and the players after the acting player plays move `m` with
    /// random outcome `draw`.
    pub open spec fn after_turn(self, players: Players, m: ShowdownMove, draw: int) -> (Showdown, Players) {
        let r = self.round_num as int;
        let (g, a, b) = self.turn(actor(players, r), opponent(players, r), m, draw);
        (g, arranged(r, a, b))
    }

    /// `step` is what the game needs once it is at `after`.
    pub open spec fn turn_step(after: Showdown, step: Step<ShowdownMove>) -> bool {
        match after.result {
            Some(res) => step matches Step::Finished(n, x) && n@.len() == 0 && x == res,
            None => step matches Step::Inform(n) && n@.len() == 0,
        }
    }

    /// Move `m` with random outcome `draw` is a possible turn from here that
    /// leaves the game and players `after` and needs `step` next.
    pub open spec fn played(self, players: Players, m: ShowdownMove, draw: int, after: (Showdown, Players), step: Step<ShowdownMove>) -> bool {
        &&& power_draw_ok(m, draw)
        &&& after == self.after_turn(players, m, draw)
        &&& Self::turn_step(after.0, step)
    }

    /// Creates a game that has not started.
    pub fn new() -> (r: Self)
        ensures
            r == Self::initial(),
    {
        Showdown { round_num: 0, powerups: (0, 0), result: None }
    }

    fn moves_from(can_attack: bool, can_super: bool, spawn: bool) -> (r: Vec<ShowdownMove>)
        ensures
            r@ == showdown_moves(can_attack, can_super, spawn),
    {
        let mut moves = vec![ShowdownMove::General(GeneralMove::Dodge), ShowdownMove::CollectPowerUp];
        if can_attack {
            moves.push(ShowdownMove::General(GeneralMove::Attack));
        }
        if can_super {
            moves.push(ShowdownMove::General(GeneralMove::Ult));
        }
        if spawn {
            if can_attack {
                moves.push(ShowdownMove::General(GeneralMove::AttackSpawn));
            }
            if can_super {
                moves.push(ShowdownMove::General(GeneralMove::UltSpawn));
            }
        }
        assert(moves@ =~= showdown_moves(can_attack, can_super, spawn));
        moves
    }

    /// The moves open to `first` against `second`.
    pub fn possible_moves(&self, first: &Player, second: &Player) -> (r: Vec<ShowdownMove>)
        ensures
            r@ == showdown_moves(first.attack_ready(), first.super_ready(), second.state.spawn is Some),
    {
        Self::moves_from(first.can_attack(), first.can_super(), second.state.spawn.is_some())
    }

    /// The moves open to the acting player in this round.
    pub fn legal_moves(&self, players: &Players) -> (r: Vec<ShowdownMove>)
        ensures
            r@ == self.legal(*players),
    {
        let (first, second) = if self.round_num % 2 == 0 {
            (&players.0, &players.1)
        } else {
            (&players.1, &players.0)
        };
        let can_attack = first.can_attack() || first.state.ammo_is_due(
            &first.brawler_state.brawler,
            self.round_num,
        );
        Self::moves_from(can_attack, first.can_super(), second.state.spawn.is_some())
    }

    fn check_result(first: &Player, second: &Player) -> (r: Option<GameResult>)
        ensures
            r == showdown_result(*first, *second),
    {
        if first.state.is_alive() && second.state.is_dead() {
            Some(GameResult::Decisive { winner: first.id, loser: second.id })
        } else if first.state.is_dead() && second.state.is_alive() {
            Some(GameResult::Decisive { winner: second.id, loser: first.id })
        } else if first.state.is_dead() && second.state.is_dead() {
            Some(GameResult::Draw)
        } else {
            None
        }
    }

    /// Poison hurts both players from round 40 on.
    fn poison_effect(&self, first: &mut PlayerState, second: &mut PlayerState)
        ensures
            self.round_num >= POISON_ROUND_NUM ==> *final(first) == old(first).damaged(
                POISON_DAMAGE as int,
            ) && *final(second) == old(second).damaged(POISON_DAMAGE as int),
            self.round_num < POISON_ROUND_NUM ==> *final(first) == *old(first) && *final(second)
                == *old(second),
    {
        if self.round_num >= POISON_ROUND_NUM {
            first.damage(POISON_DAMAGE);
            second.damage(POISON_DAMAGE);
        }
    }

    /// Plays move `m` of the acting player `first` against `second`, with
    /// random outcome `draw`.
    #[verifier::rlimit(80)]
    fn turn_of(&mut self, first: &mut Player, second: &mut Player, m: ShowdownMove, draw: u8) -> (r: Step<ShowdownMove>)
        requires
            old(self).result is None,
            old(self).round_num < ROUND_LIMIT,
            old(self).powerups.0 + old(self).powerups.1 <= old(self).round_num,
            player_live(*old(first), old(self).round_num as int),
            showdown_moves(
                refreshed(*old(first), old(self).round_num as int).attack_ready(),
                refreshed(*old(first), old(self).round_num as int).super_ready(),
                old(second).state.spawn is Some,
            ).contains(m),
            power_draw_ok(m, draw as int),
        ensures
            (*final(self), *final(first), *final(second)) == old(self).turn(*old(first), *old(second), m, draw as int),
            Self::turn_step(*final(self), r),
    {
        proof {
            reveal(Showdown::turn);
        }
        let round = self.round_num;
        refresh(first, round);
        match m {
            ShowdownMove::General(g) => {
                assert(general_allowed(g, *first));
                play_general(g, first, second, round);
            },
            ShowdownMove::CollectPowerUp => {
                if round % 2 == 0 {
                    self.powerups.0 = self.powerups.0 + draw;
                } else {
                    self.powerups.1 = self.powerups.1 + draw;
                }
            },
        }
        second.state.is_invincible = false;
        self.poison_effect(&mut first.state, &mut second.state);
        match Self::check_result(first, second) {
            Some(res) => {
                self.result = Some(res);
                Step::Finished(Vec::new(), res)
            },
            None => {
                self.round_num = round + 1;
                Step::Inform(Vec::new())
            },
        }
    }

    /// A turn leaves a game that can go on.
    proof fn lemma_turn_keeps_wf(self, first: Player, second: Player, m: ShowdownMove, draw: int)
        requires
            self.result is None,
            self.round_num < ROUND_LIMIT,
            self.powerups.0 + self.powerups.1 <= self.round_num,
            player_live(first, self.round_num as int),
            player_live(second, self.round_num as int),
            showdown_moves(
                refreshed(first, self.round_num as int).attack_ready(),
                refreshed(first, self.round_num as int).super_ready(),
                second.state.spawn is Some,
            ).contains(m),
            power_draw_ok(m, draw),
        ensures
            ({
                let (g, a, b) = self.turn(first, second, m, draw);
                &&& g.result is Some || g.round_num == self.round_num + 1
                &&& g.round_num <= ROUND_LIMIT
                &&& player_ok(a) && player_ok(b)
                &&& g.result is None ==> {
                    &&& g.powerups.0 + g.powerups.1 <= g.round_num
                    &&& player_live(a, g.round_num as int)
                    &&& player_live(b, g.round_num as int)
                }
            }),
    {
        reveal(Showdown::turn);
        let r = self.round_num as int;
        lemma_refreshed_bounds(first, r);
        let a0 = refreshed(first, r);
        match m {
            ShowdownMove::General(g) => {
                lemma_general_played_bounds(g, a0, second, r);
            },
            _ => {},
        }
    }

    /// Plays move `m` of the acting player, with random outcome `draw`.
    ///
    /// The player first regains ammo and health as due; then the move takes
    /// effect and the opponent's invincibility ends. From round 40 on, poison
    /// then deals 100 damage to both players. A player alive against a dead
    /// one wins, two dead players draw, and the game goes on to the next
    /// round while both are alive.
    pub fn play_turn(&mut self, players: &mut Players, m: ShowdownMove, draw: u8) -> (r: Step<ShowdownMove>)
        requires
            old(self).wf(*old(players)),
            old(self).awaits_move(*old(players)),
            old(self).legal(*old(players)).contains(m),
            power_draw_ok(m, draw as int),
        ensures
            (*final(self), *final(players)) == old(self).after_turn(*old(players), m, draw as int),
            Self::turn_step(*final(self), r),
            final(self).wf(*final(players)),
            final(self).steps_left() < old(self).steps_left(),
    {
        proof {
            let round = self.round_num as int;
            self.lemma_turn_keeps_wf(actor(*players, round), opponent(*players, round), m, draw as int);
        }
        if self.round_num % 2 == 0 {
            self.turn_of(&mut players.0, &mut players.1, m, draw)
        } else {
            self.turn_of(&mut players.1, &mut players.0, m, draw)
        }
    }

    /// Moves the game on to what it needs next.
    ///
    /// A finished game stays finished. A game that reached the round limit
    /// ends in a draw, and both players are told that time ran out.
    /// Otherwise a stunned acting player regains ammo and health as due,
    /// recovers and sits the round out, and both players are told; anyone
    /// else is asked for a move, and nothing changes until it comes.
    pub fn advance(&mut self, players: &mut Players) -> (r: Step<ShowdownMove>)
        requires
            old(self).wf(*old(players)),
        ensures
            final(self).wf(*final(players)),
            r is Finished <==> final(self).result is Some,
            old(self).result is None ==> r is Choose || final(self).steps_left() < old(self).steps_left(),
            old(self).result matches Some(res) ==> {
                &&& *final(self) == *old(self)
                &&& *final(players) == *old(players)
                &&& r matches Step::Finished(n, x) && n@.len() == 0 && x == res
            },
            old(self).result is None && old(self).round_num >= ROUND_LIMIT ==> {
                &&& *final(self) == (Showdown { result: Some(GameResult::Draw), ..*old(self) })
                &&& *final(players) == *old(players)
                &&& r matches Step::Finished(n, x) && x == GameResult::Draw && n@.len() == 2
                    && n@[0].says(old(players).0.id, "Time's up. Match ended in a draw."@)
                    && n@[1].says(old(players).1.id, "Time's up. Match ended in a draw."@)
            },
            ({
                let round = old(self).round_num as int;
                let a = actor(*old(players), round);
                let b = opponent(*old(players), round);
                old(self).result is None && round < ROUND_LIMIT ==> {
                    &&& a.state.is_stunned ==> {
                        &&& *final(self) == (Showdown { round_num: (round + 1) as u8, ..*old(self) })
                        &&& *final(players) == arranged(round, unstunned(refreshed(a, round)), b)
                        &&& r matches Step::Inform(n) && n@.len() == 2
                            && n@[0].says(a.id, "You are stunned!"@)
                            && n@[1].says(b.id, "Opponent is stunned!"@)
                    }
                    &&& !a.state.is_stunned ==> {
                        &&& *final(self) == *old(self)
                        &&& *final(players) == *old(players)
                        &&& r matches Step::Choose(moves) && moves@ == old(self).legal(*old(players))
                    }
                }
            }),
    {
        if let Some(res) = self.result {
            return Step::Finished(Vec::new(), res);
        }
        if self.round_num >= ROUND_LIMIT {
            self.result = Some(GameResult::Draw);
            return BattleGameMode::result(None, players);
        }
        let round = self.round_num;
        let stunned = if round % 2 == 0 {
            players.0.state.is_stunned
        } else {
            players.1.state.is_stunned
        };
        if stunned {
            let notices = if round % 2 == 0 {
                refresh(&mut players.0, round);
                BattleGameMode::handle_stun(&mut players.0, &players.1.id)
            } else {
                refresh(&mut players.1, round);
                BattleGameMode::handle_stun(&mut players.1, &players.0.id)
            };
            self.round_num = round + 1;
            return Step::Inform(notices);
        }
        Step::Choose(self.legal_moves(players))
    }

    /// Plays the move at index `idx` of the legal moves of this round.
    ///
    /// An index past the end of the legal moves is refused with a
    /// [`Error::ResponseError`], and nothing changes. Otherwise the move is
    /// played as [`Showdown::play_turn`] says, with a random outcome: a
    /// power-up comes with chance 1 in 4.
    pub fn apply_choice(&mut self, players: &mut Players, idx: usize) -> (r: Result<Step<ShowdownMove>, Error>)
        requires
            old(self).wf(*old(players)),
            old(self).awaits_move(*old(players)),
        ensures
            final(self).wf(*final(players)),
            r is Err <==> idx >= old(self).legal(*old(players)).len(),
            r is Ok ==> final(self).steps_left() < old(self).steps_left(),
            r matches Err(e) ==> e is ResponseError && *final(self) == *old(self) && *final(players) == *old(players),
            r matches Ok(step) ==> exists|draw: int|
                #[trigger] old(self).played(
                    *old(players),
                    old(self).legal(*old(players))[idx as int],
                    draw,
                    (*final(self), *final(players)),
                    step,
                ),
    {
        let moves = self.legal_moves(players);
        if idx >= moves.len() {
            return Err(Error::ResponseError(Some(String::from_str("invalid move: index out of bounds."))));
        }
        let m = moves[idx];
        let draw: u8 = match m {
            ShowdownMove::CollectPowerUp => {
                let options = vec![0u8, 1u8];
                let weights = vec![3u32, 1u32];
                assert(weight_sum(weights@, 2) == 4) by {
                    reveal_with_fuel(weight_sum, 3);
                }
                match select_one(options.as_slice(), weights.as_slice()) {
                    Some(x) => *x,
                    None => 0,
                }
            },
            _ => 0,
        };
        let ghost old_self = *self;
        let ghost old_players = *players;
        let step = self.play_turn(players, m, draw);
        proof {
            assert(old_self.played(old_players, m, draw as int, (*self, *players), step));
        }
        Ok(step)
    }
}

} // verus!
