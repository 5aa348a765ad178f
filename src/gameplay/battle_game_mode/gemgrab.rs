//! Gem Grab: the first player to hold 10 gems wins.

use vstd::prelude::*;

use crate::error::Error;
use crate::gameplay::battle_game_mode::{
    actor, arranged, exposed, general_allowed, general_played, lemma_general_played_bounds,
    lemma_refreshed_bounds, opponent, play_general,
    player_live, player_ok, refresh, refreshed, unstunned, with_state, BattleGameMode, GeneralMove,
    Notice, Step, ROUND_LIMIT,
};
use crate::gameplay::player::{CharacterStatus, Player, PlayerId, PlayerState};
use crate::gameplay::{GameResult, Players};
use crate::utils::rng::{random_below, select_one, weight_sum};

verus! {

/// Gems a player needs to win.
pub const GEMS_TO_WIN: u8 = 10;

/// A game of Gem Grab.
///
/// Gem Grab is a 1v1 game mode where you need to collect 10 gems before the
/// enemy to win. A gem mine at the center of the map spits out gems.
///
/// A player who is defeated drops half of its gems, rounded up, and is
/// respawning from then on.
#[derive(Clone, Copy, Debug)]
pub struct GemGrab {
    /// Number of dropped gems available.
    pub dropped: u8,
    /// Gems held by the first and by the second player.
    pub gems: (u8, u8),
    /// The round being played.
    pub round_num: u8,
    /// The result, once the game is over.
    pub result: Option<GameResult>,
}

/// A move in Gem Grab.
#[derive(Clone, Copy, Debug, PartialEq, Eq, Structural)]
pub enum GemGrabMove {
    /// A general move.
    General(GeneralMove),
    /// Collect a gem from the mine.
    CollectGem,
    /// Collect dropped gems.
    CollectDroppedGems,
}

/// The moves open to a player who can attack (`can_attack`) and use its
/// super (`can_super`), against an opponent that may be respawning or have
/// a spawn out.
pub open spec fn gem_moves(can_attack: bool, can_super: bool, respawning: bool, spawn: bool) -> Seq<GemGrabMove> {
    let base = seq![GemGrabMove::General(GeneralMove::Dodge), GemGrabMove::CollectGem];
    let attacks = if !respawning {
        (if can_attack { seq![GemGrabMove::General(GeneralMove::Attack)] } else { seq![] })
            + (if can_super { seq![GemGrabMove::General(GeneralMove::Ult)] } else { seq![] })
    } else {
        seq![GemGrabMove::CollectDroppedGems]
    };
    let on_spawn = if spawn {
        (if can_attack { seq![GemGrabMove::General(GeneralMove::AttackSpawn)] } else { seq![] })
            + (if can_super { seq![GemGrabMove::General(GeneralMove::UltSpawn)] } else { seq![] })
    } else {
        seq![]
    };
    base + attacks + on_spawn
}

/// The result once the acting player holds `first_gems` and the waiting one
/// `second_gems`.
pub open spec fn gem_result(first_gems: int, second_gems: int, first: PlayerId, second: PlayerId) -> Option<GameResult> {
    if first_gems >= 10 && second_gems < 10 {
        Some(GameResult::Decisive { winner: first, loser: second })
    } else if second_gems >= 10 && first_gems < 10 {
        Some(GameResult::Decisive { winner: second, loser: first })
    } else if first_gems >= 10 && second_gems >= 10 {
        Some(GameResult::Draw)
    } else {
        None
    }
}

/// Gems that a player holding `gems` drops when defeated: half, rounded up.
pub open spec fn gems_dropped(gems: int) -> int {
    gems / 2 + gems % 2
}

/// `draw` is a possible random outcome of move `m` with `dropped` gems on the
/// ground: a gem from the mine is 0 or 1, dropped gems fewer than lie there.
pub open spec fn draw_ok(m: GemGrabMove, draw: int, dropped: int) -> bool {
    match m {
        GemGrabMove::CollectGem => 0 <= draw <= 1,
        GemGrabMove::CollectDroppedGems => if dropped == 0 {
            draw == 0
        } else {
            0 <= draw < dropped
        },
        _ => draw == 0,
    }
}

/// `p` after being defeated: respawning with full health.
pub open spec fn respawned(p: Player) -> Player {
    with_state(p, PlayerState { status: CharacterStatus::Respawning, health: p.state.max_health, ..p.state })
}

impl GemGrab {
    /// A game that has not started.
    pub open spec fn initial() -> GemGrab {
        GemGrab { dropped: 0, gems: (0, 0), round_num: 0, result: None }
    }

    /// Gems of the first player if `first`, else of the second.
    pub open spec fn gems_of(self, first: bool) -> int {
        if first {
            self.gems.0 as int
        } else {
            self.gems.1 as int
        }
    }

    /// The gems with the acting side of round `round` holding `mine` and the
    /// other `theirs`.
    pub open spec fn gems_by_turn(round: int, mine: int, theirs: int) -> (u8, u8) {
        if round % 2 == 0 {
            (mine as u8, theirs as u8)
        } else {
            (theirs as u8, mine as u8)
        }
    }

    /// The game can go on from here with `players`.
    pub open spec fn wf(self, players: Players) -> bool {
        &&& self.round_num <= ROUND_LIMIT
        &&& player_ok(players.0)
        &&& player_ok(players.1)
        &&& self.result is None ==> {
            &&& self.gems.0 + self.gems.1 + self.dropped <= self.round_num
            &&& player_live(players.0, self.round_num as int)
            &&& player_live(players.1, self.round_num as int)
        }
    }

    /// Rounds the game may still take: none once it is over.
    pub open spec fn steps_left(self) -> nat {
        if self.result is Some || self.round_num > ROUND_LIMIT {
            0
        } else {
            (ROUND_LIMIT - self.round_num + 1) as nat
        }
    }

    /// A game can take at most one step per round up to the round limit,
    /// and one more to end.
    pub proof fn lemma_steps_left_bounded(self)
        ensures
            self.steps_left() <= ROUND_LIMIT + 1,
            self.result is Some ==> self.steps_left() == 0,
    {
    }

    /// The game waits for the acting player's move.
    pub open spec fn awaits_move(self, players: Players) -> bool {
        let a = actor(players, self.round_num as int);
        &&& self.result is None
        &&& self.round_num < ROUND_LIMIT
        &&& a.state.status != CharacterStatus::Respawning
        &&& !a.state.is_stunned
    }

    /// The moves open to the acting player in this round.
    pub open spec fn legal(self, players: Players) -> Seq<GemGrabMove> {
        let r = self.round_num as int;
        let a = refreshed(actor(players, r), r);
        let b = opponent(players, r);
        gem_moves(
            a.attack_ready(),
            a.super_ready(),
            b.state.status == CharacterStatus::Respawning,
            b.state.spawn is Some,
        )
    }

    /// The acting player `first` and the waiting player `second` after the
    /// turn's checks and move `m`.
    pub open spec fn moved(self, first: Player, second: Player, m: GemGrabMove) -> (Player, Player) {
        let r = self.round_num as int;
        let a0 = refreshed(first, r);
        let (a, b) = match m {
            GemGrabMove::General(g) => general_played(g, a0, second, r),
            _ => (a0, second),
        };
        (a, exposed(b))
    }

    /// Move `m` of `first` defeats `second`.
    pub open spec fn defeats(self, first: Player, second: Player, m: GemGrabMove) -> bool {
        self.moved(first, second, m).1.state.health == 0
    }

    /// The acting player `first` and the waiting player `second` play move
    /// `m`, with random outcome `draw`: the game and the two players after it.
    #[verifier::opaque]
    pub open spec fn turn(self, first: Player, second: Player, m: GemGrabMove, draw: int) -> (GemGrab, Player, Player) {
        let r = self.round_num as int;
        let (a, b) = self.moved(first, second, m);
        let mine = self.gems_of(r % 2 == 0) + match m {
            GemGrabMove::General(_) => 0,
            _ => draw,
        };
        let theirs = self.gems_of(r % 2 != 0);
        let pool = match m {
            GemGrabMove::CollectDroppedGems => 0,
            _ => self.dropped as int,
        };
        if self.defeats(first, second, m) {
            let lost = gems_dropped(theirs);
            (
                GemGrab {
                    dropped: (pool + lost) as u8,
                    gems: Self::gems_by_turn(r, mine, theirs - lost),
                    round_num: (r + 1) as u8,
                    result: None,
                },
                a,
                respawned(b),
            )
        } else {
            let res = gem_result(mine, theirs, a.id, b.id);
            (
                GemGrab {
                    dropped: pool as u8,
                    gems: Self::gems_by_turn(r, mine, theirs),
                    round_num: if res is Some {
                        r as u8
                    } else {
                        (r + 1) as u8
                    },
                    result: res,
                },
                a,
                b,
            )
        }
    }

    /// `step` is what the game needs after the acting player `first` plays
    /// move `m` against `second` with random outcome `draw`.
    pub open spec fn turn_step(self, first: Player, second: Player, m: GemGrabMove, draw: int, step: Step<GemGrabMove>) -> bool {
        if self.defeats(first, second, m) {
            step matches Step::Inform(n) && n@.len() == 2
                && n@[0].says(first.id, "Opponent defeated! Respawning next round."@)
                && n@[1].says(second.id, "You are defeated! Respawning next round."@)
        } else {
            match self.turn(first, second, m, draw).0.result {
                Some(res) => step matches Step::Finished(n, x) && n@.len() == 0 && x == res,
                None => step matches Step::Inform(n) && n@.len() == 0,
            }
        }
    }

    /// The game and the players after the acting player plays move `m` with
    /// random outcome `draw`.
    pub open spec fn after_turn(self, players: Players, m: GemGrabMove, draw: int) -> (GemGrab, Players) {
        let r = self.round_num as int;
        let (g, a, b) = self.turn(actor(players, r), opponent(players, r), m, draw);
        (g, arranged(r, a, b))
    }

    /// Move `m` with random outcome `draw` is a possible turn from here that
    /// leaves the game and players `after` and needs `step` next.
    pub open spec fn played(self, players: Players, m: GemGrabMove, draw: int, after: (GemGrab, Players), step: Step<GemGrabMove>) -> bool {
        let round = self.round_num as int;
        &&& draw_ok(m, draw, self.dropped as int)
        &&& after == self.after_turn(players, m, draw)
        &&& self.turn_step(actor(players, round), opponent(players, round), m, draw, step)
    }

    /// Creates a game that has not started.
    pub fn new() -> (r: Self)
        ensures
            r == Self::initial(),
    {
        GemGrab { dropped: 0, gems: (0, 0), round_num: 0, result: None }
    }

    /// Adds `gems` to the dropped gems.
    fn drop_gems(&mut self, gems: u8)
        requires
            old(self).dropped + gems <= u8::MAX,
        ensures
            *final(self) == (GemGrab { dropped: (old(self).dropped + gems) as u8, ..*old(self) }),
    {
        self.dropped = self.dropped + gems;
    }

    fn side_gems(&self, first: bool) -> (r: u8)
        ensures
            r == self.gems_of(first),
    {
        if first {
            self.gems.0
        } else {
            self.gems.1
        }
    }

    fn set_side_gems(&mut self, first: bool, gems: u8)
        ensures
            *final(self) == (GemGrab {
                gems: if first {
                    (gems, old(self).gems.1)
                } else {
                    (old(self).gems.0, gems)
                },
                ..*old(self)
            }),
    {
        if first {
            self.gems.0 = gems;
        } else {
            self.gems.1 = gems;
        }
    }

    fn moves_from(can_attack: bool, can_super: bool, respawning: bool, spawn: bool) -> (r: Vec<GemGrabMove>)
        ensures
            r@ == gem_moves(can_attack, can_super, respawning, spawn),
    {
        let mut moves = vec![GemGrabMove::General(GeneralMove::Dodge), GemGrabMove::CollectGem];
        if !respawning {
            if can_attack {
                moves.push(GemGrabMove::General(GeneralMove::Attack));
            }
            if can_super {
                moves.push(GemGrabMove::General(GeneralMove::Ult));
            }
        } else {
            moves.push(GemGrabMove::CollectDroppedGems);
        }
        if spawn {
            if can_attack {
                moves.push(GemGrabMove::General(GeneralMove::AttackSpawn));
            }
            if can_super {
                moves.push(GemGrabMove::General(GeneralMove::UltSpawn));
            }
        }
        assert(moves@ =~= gem_moves(can_attack, can_super, respawning, spawn));
        moves
    }

    /// The moves open to `first` against `second`.
    pub fn possible_moves(&self, first: &Player, second: &Player) -> (r: Vec<GemGrabMove>)
        ensures
            r@ == gem_moves(
                first.attack_ready(),
                first.super_ready(),
                second.state.status == CharacterStatus::Respawning,
                second.state.spawn is Some,
            ),
    {
        Self::moves_from(
            first.can_attack(),
            first.can_super(),
            second.state.status.is_respawning(),
            second.state.spawn.is_some(),
        )
    }

    /// The moves open to `first` against `second` once the checks that open
    /// its turn are done.
    fn turn_moves(&self, first: &Player, second: &Player) -> (r: Vec<GemGrabMove>)
        ensures
            r@ == gem_moves(
                refreshed(*first, self.round_num as int).attack_ready(),
                refreshed(*first, self.round_num as int).super_ready(),
                second.state.status == CharacterStatus::Respawning,
                second.state.spawn is Some,
            ),
    {
        let can_attack = first.can_attack() || first.state.ammo_is_due(
            &first.brawler_state.brawler,
            self.round_num,
        );
        Self::moves_from(
            can_attack,
            first.can_super(),
            second.state.status.is_respawning(),
            second.state.spawn.is_some(),
        )
    }

    /// The moves open to the acting player in this round.
    pub fn legal_moves(&self, players: &Players) -> (r: Vec<GemGrabMove>)
        ensures
            r@ == self.legal(*players),
    {
        if self.round_num % 2 == 0 {
            self.turn_moves(&players.0, &players.1)
        } else {
            self.turn_moves(&players.1, &players.0)
        }
    }

    fn check_result(first_gems: u8, second_gems: u8, first: PlayerId, second: PlayerId) -> (r: Option<GameResult>)
        ensures
            r == gem_result(first_gems as int, second_gems as int, first, second),
    {
        if first_gems >= GEMS_TO_WIN && second_gems < GEMS_TO_WIN {
            Some(GameResult::Decisive { winner: first, loser: second })
        } else if second_gems >= GEMS_TO_WIN && first_gems < GEMS_TO_WIN {
            Some(GameResult::Decisive { winner: second, loser: first })
        } else if first_gems >= GEMS_TO_WIN && second_gems >= GEMS_TO_WIN {
            Some(GameResult::Draw)
        } else {
            None
        }
    }

    /// Plays move `m` of the acting player `first` against `second`, with
    /// random outcome `draw`.
    #[verifier::rlimit(80)]
    fn turn_of(&mut self, first: &mut Player, second: &mut Player, m: GemGrabMove, draw: u8) -> (r: Step<GemGrabMove>)
        requires
            old(self).result is None,
            old(self).round_num < ROUND_LIMIT,
            old(self).gems.0 + old(self).gems.1 + old(self).dropped <= old(self).round_num,
            player_live(*old(first), old(self).round_num as int),
            player_live(*old(second), old(self).round_num as int),
            gem_moves(
                refreshed(*old(first), old(self).round_num as int).attack_ready(),
                refreshed(*old(first), old(self).round_num as int).super_ready(),
                old(second).state.status == CharacterStatus::Respawning,
                old(second).state.spawn is Some,
            ).contains(m),
            draw_ok(m, draw as int, old(self).dropped as int),
        ensures
            (*final(self), *final(first), *final(second)) == old(self).turn(*old(first), *old(second), m, draw as int),
            old(self).turn_step(*old(first), *old(second), m, draw as int, r),
    {
        proof {
            reveal(GemGrab::turn);
        }
        let round = self.round_num;
        let first_side = round % 2 == 0;
        refresh(first, round);
        match m {
            GemGrabMove::General(g) => {
                assert(general_allowed(g, *first));
                play_general(g, first, second, round);
            },
            GemGrabMove::CollectGem => {
                let mine = self.side_gems(first_side);
                self.set_side_gems(first_side, mine + draw);
            },
            GemGrabMove::CollectDroppedGems => {
                let mine = self.side_gems(first_side);
                self.set_side_gems(first_side, mine + draw);
                self.dropped = 0;
            },
        }
        second.state.is_invincible = false;
        if second.state.health == 0 {
            second.respawn();
            let theirs = self.side_gems(!first_side);
            let lost = theirs / 2 + theirs % 2;
            self.set_side_gems(!first_side, theirs - lost);
            self.drop_gems(lost);
            self.round_num = round + 1;
            let mut notices = Vec::new();
            notices.push(Notice::new(first.id, "Opponent defeated! Respawning next round."));
            notices.push(Notice::new(second.id, "You are defeated! Respawning next round."));
            return Step::Inform(notices);
        }
        let mine = self.side_gems(first_side);
        let theirs = self.side_gems(!first_side);
        match Self::check_result(mine, theirs, first.id, second.id) {
            Some(res) => {
                self.result = Some(res);
                Step::Finished(Vec::new(), res)
            },
            None => {
                self.round_num = round + 1;
                Step::Inform(Vec::new())
            },
        }
    }

    /// Plays move `m` of the acting player, with random outcome `draw`.
    ///
    /// The player first regains ammo and health as due; then the move takes
    /// effect and the opponent's invincibility ends. An opponent left without
    /// health respawns and drops half its gems, rounded up, and both players
    /// are told. Otherwise a player with 10 gems wins, both with 10 draw, and
    /// the game goes on to the next round if neither has them.
    #[verifier::rlimit(80)]
    pub fn play_turn(&mut self, players: &mut Players, m: GemGrabMove, draw: u8) -> (r: Step<GemGrabMove>)
        requires
            old(self).wf(*old(players)),
            old(self).awaits_move(*old(players)),
            old(self).legal(*old(players)).contains(m),
            draw_ok(m, draw as int, old(self).dropped as int),
        ensures
            (*final(self), *final(players)) == old(self).after_turn(*old(players), m, draw as int),
            old(self).turn_step(
                actor(*old(players), old(self).round_num as int),
                opponent(*old(players), old(self).round_num as int),
                m,
                draw as int,
                r,
            ),
            final(self).wf(*final(players)),
            final(self).steps_left() < old(self).steps_left(),
    {
        proof {
            let round = self.round_num as int;
            self.lemma_turn_keeps_wf(actor(*players, round), opponent(*players, round), m, draw as int);
        }
        if self.round_num % 2 == 0 {
            self.turn_of(&mut players.0, &mut players.1, m, draw)
        } else {
            self.turn_of(&mut players.1, &mut players.0, m, draw)
        }
    }

    /// A turn leaves a game that can go on.
    proof fn lemma_turn_keeps_wf(self, first: Player, second: Player, m: GemGrabMove, draw: int)
        requires
            self.result is None,
            self.round_num < ROUND_LIMIT,
            self.gems.0 + self.gems.1 + self.dropped <= self.round_num,
            player_live(first, self.round_num as int),
            player_live(second, self.round_num as int),
            gem_moves(
                refreshed(first, self.round_num as int).attack_ready(),
                refreshed(first, self.round_num as int).super_ready(),
                second.state.status == CharacterStatus::Respawning,
                second.state.spawn is Some,
            ).contains(m),
            draw_ok(m, draw, self.dropped as int),
        ensures
            ({
                let (g, a, b) = self.turn(first, second, m, draw);
                &&& g.result is Some || g.round_num == self.round_num + 1
                &&& g.round_num <= ROUND_LIMIT
                &&& player_ok(a) && player_ok(b)
                &&& a.id == first.id && b.id == second.id
                &&& g.result is None ==> {
                    &&& g.gems.0 + g.gems.1 + g.dropped <= g.round_num
                    &&& player_live(a, g.round_num as int)
                    &&& player_live(b, g.round_num as int)
                }
            }),
    {
        reveal(GemGrab::turn);
        let r = self.round_num as int;
        lemma_refreshed_bounds(first, r);
        let a0 = refreshed(first, r);
        match m {
            GemGrabMove::General(g) => {
                lemma_general_played_bounds(g, a0, second, r);
            },
            _ => {},
        }
    }

    /// Opens the turn of `first` against `second`: a respawning player sits
    /// the round out, a stunned one recovers, anyone else is asked for a move.
    fn open_turn(&mut self, first: &mut Player, second: &mut Player) -> (r: Step<GemGrabMove>)
        requires
            old(self).result is None,
            old(self).round_num < ROUND_LIMIT,
        ensures
            old(first).state.status == CharacterStatus::Respawning ==> {
                &&& *final(self) == (GemGrab { round_num: (old(self).round_num + 1) as u8, ..*old(self) })
                &&& *final(first) == *old(first)
                &&& *final(second) == *old(second)
                &&& r matches Step::Inform(n) && n@.len() == 1 && n@[0].says(old(first).id, "You are respawning!"@)
            },
            old(first).state.status != CharacterStatus::Respawning && old(first).state.is_stunned ==> {
                &&& *final(self) == (GemGrab { round_num: (old(self).round_num + 1) as u8, ..*old(self) })
                &&& *final(first) == unstunned(refreshed(*old(first), old(self).round_num as int))
                &&& *final(second) == *old(second)
                &&& r matches Step::Inform(n) && n@.len() == 2
                    && n@[0].says(old(first).id, "You are stunned!"@)
                    && n@[1].says(old(second).id, "Opponent is stunned!"@)
            },
            old(first).state.status != CharacterStatus::Respawning && !old(first).state.is_stunned ==> {
                &&& *final(self) == *old(self)
                &&& *final(first) == *old(first)
                &&& *final(second) == *old(second)
                &&& r matches Step::Choose(moves) && moves@ == gem_moves(
                    refreshed(*old(first), old(self).round_num as int).attack_ready(),
                    refreshed(*old(first), old(self).round_num as int).super_ready(),
                    old(second).state.status == CharacterStatus::Respawning,
                    old(second).state.spawn is Some,
                )
            },
    {
        let round = self.round_num;
        if first.state.status.is_respawning() {
            self.round_num = round + 1;
            let mut notices = Vec::new();
            notices.push(BattleGameMode::dispatch_respawning_message(&first.id));
            return Step::Inform(notices);
        }
        if first.state.is_stunned {
            refresh(first, round);
            let notices = BattleGameMode::handle_stun(first, &second.id);
            self.round_num = round + 1;
            return Step::Inform(notices);
        }
        Step::Choose(self.turn_moves(first, second))
    }

    /// Moves the game on to what it needs next.
    ///
    /// A finished game stays finished. A game that reached the round limit
    /// ends in a draw, and both players are told that time ran out.
    /// Otherwise the acting player's turn opens: a respawning player is told
    /// so and sits the round out; a stunned player regains ammo and health as
    /// due, recovers and sits the round out, and both players are told;
    /// anyone else is asked for a move, and nothing changes until it comes.
    pub fn advance(&mut self, players: &mut Players) -> (r: Step<GemGrabMove>)
        requires
            old(self).wf(*old(players)),
        ensures
            final(self).wf(*final(players)),
            r is Finished <==> final(self).result is Some,
            old(self).result is None ==> r is Choose || final(self).steps_left() < old(self).steps_left(),
            old(self).result matches Some(res) ==> {
                &&& *final(self) == *old(self)
                &&& *final(players) == *old(players)
                &&& r matches Step::Finished(n, x) && n@.len() == 0 && x == res
            },
            old(self).result is None && old(self).round_num >= ROUND_LIMIT ==> {
                &&& *final(self) == (GemGrab { result: Some(GameResult::Draw), ..*old(self) })
                &&& *final(players) == *old(players)
                &&& r matches Step::Finished(n, x) && x == GameResult::Draw && n@.len() == 2
                    && n@[0].says(old(players).0.id, "Time's up. Match ended in a draw."@)
                    && n@[1].says(old(players).1.id, "Time's up. Match ended in a draw."@)
            },
            ({
                let round = old(self).round_num as int;
                let a = actor(*old(players), round);
                let b = opponent(*old(players), round);
                old(self).result is None && round < ROUND_LIMIT ==> {
                    &&& a.state.status == CharacterStatus::Respawning ==> {
                        &&& *final(self) == (GemGrab { round_num: (round + 1) as u8, ..*old(self) })
                        &&& *final(players) == *old(players)
                        &&& r matches Step::Inform(n) && n@.len() == 1 && n@[0].says(a.id, "You are respawning!"@)
                    }
                    &&& a.state.status != CharacterStatus::Respawning && a.state.is_stunned ==> {
                        &&& *final(self) == (GemGrab { round_num: (round + 1) as u8, ..*old(self) })
                        &&& *final(players) == arranged(round, unstunned(refreshed(a, round)), b)
                        &&& r matches Step::Inform(n) && n@.len() == 2
                            && n@[0].says(a.id, "You are stunned!"@)
                            && n@[1].says(b.id, "Opponent is stunned!"@)
                    }
                    &&& old(self).awaits_move(*old(players)) ==> {
                        &&& *final(self) == *old(self)
                        &&& *final(players) == *old(players)
                        &&& r matches Step::Choose(moves) && moves@ == old(self).legal(*old(players))
                    }
                }
            }),
    {
        if let Some(res) = self.result {
            return Step::Finished(Vec::new(), res);
        }
        if self.round_num >= ROUND_LIMIT {
            self.result = Some(GameResult::Draw);
            return BattleGameMode::result(None, players);
        }
        if self.round_num % 2 == 0 {
            self.open_turn(&mut players.0, &mut players.1)
        } else {
            self.open_turn(&mut players.1, &mut players.0)
        }
    }

    /// Plays the move at index `idx` of the legal moves of this round.
    ///
    /// An index past the end of the legal moves is refused with a
    /// [`Error::ResponseError`], and nothing changes. Otherwise the move is
    /// played as [`GemGrab::play_turn`] says, with a random outcome: a gem
    /// from the mine comes with chance 3 in 4, and of the dropped gems a
    /// uniformly random number fewer than lie there, while all of them are
    /// taken off the ground.
    pub fn apply_choice(&mut self, players: &mut Players, idx: usize) -> (r: Result<Step<GemGrabMove>, Error>)
        requires
            old(self).wf(*old(players)),
            old(self).awaits_move(*old(players)),
        ensures
            final(self).wf(*final(players)),
            r is Err <==> idx >= old(self).legal(*old(players)).len(),
            r is Ok ==> final(self).steps_left() < old(self).steps_left(),
            r matches Err(e) ==> e is ResponseError && *final(self) == *old(self) && *final(players) == *old(players),
            r matches Ok(step) ==> exists|draw: int|
                #[trigger] old(self).played(
                    *old(players),
                    old(self).legal(*old(players))[idx as int],
                    draw,
                    (*final(self), *final(players)),
                    step,
                ),
    {
        let moves = self.legal_moves(players);
        if idx >= moves.len() {
            return Err(Error::ResponseError(Some(String::from_str("Invalid move: index out of bounds."))));
        }
        let m = moves[idx];
        let draw: u8 = match m {
            GemGrabMove::CollectGem => {
                let options = vec![0u8, 1u8];
                let weights = vec![1u32, 3u32];
                assert(weight_sum(weights@, 2) == 4) by {
                    reveal_with_fuel(weight_sum, 3);
                }
                match select_one(options.as_slice(), weights.as_slice()) {
                    Some(x) => *x,
                    None => 0,
                }
            },
            GemGrabMove::CollectDroppedGems => if self.dropped == 0 {
                0
            } else {
                random_below(self.dropped as u64) as u8
            },
            _ => 0,
        };
        let ghost old_self = *self;
        let ghost old_players = *players;
        let step = self.play_turn(players, m, draw);
        proof {
            let round = old_self.round_num as int;
            assert(draw_ok(m, draw as int, old_self.dropped as int));
            assert(old_self.played(old_players, m, draw as int, (*self, *players), step));
        }
        Ok(step)
    }

    /// Gems only ever change hands by the rules: in a turn the acting player
    /// never loses gems, and the waiting player keeps its gems unless it is
    /// defeated, when it loses exactly the half it drops.
    pub proof fn lemma_gems_kept(self, players: Players, m: GemGrabMove, draw: int)
        requires
            self.wf(players),
            self.awaits_move(players),
            self.legal(players).contains(m),
            draw_ok(m, draw, self.dropped as int),
        ensures
            ({
                let round = self.round_num as int;
                let after = self.after_turn(players, m, draw).0;
                let (mine, theirs) = (self.gems_of(round % 2 == 0), self.gems_of(round % 2 != 0));
                &&& after.gems_of(round % 2 == 0) >= mine
                &&& self.defeats(actor(players, round), opponent(players, round), m)
                    ==> after.gems_of(round % 2 != 0) == theirs - gems_dropped(theirs)
                &&& !self.defeats(actor(players, round), opponent(players, round), m)
                    ==> after.gems_of(round % 2 != 0) == theirs
            }),
    {
        reveal(GemGrab::turn);
    }
}

} // verus!
