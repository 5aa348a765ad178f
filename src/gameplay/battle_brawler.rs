//! Battle data of a Brawler and the combat formulas shared by all Brawlers.

use vstd::prelude::*;

use crate::gameplay::player::{sq_dist, PlayerState};

verus! {

/// Default amount of ammo a Brawler has.
pub fn default_ammo() -> (r: u8)
    ensures
        r == 3,
{
    3
}

/// Stat `base` scaled to `level`; level 10 scales as level 9.
pub open spec fn buffed(base: int, level: int) -> int {
    let level = if level == 10 { 9 } else { level };
    base + base * (level - 1) / 20
}

/// `level` is a Brawler level.
pub open spec fn valid_level(level: int) -> bool {
    1 <= level <= 10
}

/// `q` is the integer square root of `n`.
pub open spec fn is_isqrt(n: int, q: int) -> bool {
    0 <= q && q * q <= n && n < (q + 1) * (q + 1)
}

/// The integer square root of `n`.
pub open spec fn isqrt(n: int) -> int {
    choose|q: int| is_isqrt(n, q)
}

/// `a / b` rounded up.
pub open spec fn ceil_div(a: int, b: int) -> int {
    (a + b - 1) / b
}

/// A target at squared distance `d2` is within `range` tenths of a tile.
pub open spec fn in_reach(d2: int, range: int) -> bool {
    100 * d2 <= range * range
}

/// How far the projectiles spread at squared distance `d2`: the range left
/// over, in tiles, rounded up, and at least 1.
pub open spec fn spread(d2: int, range: int) -> int {
    let left = ceil_div(range - isqrt(100 * d2), 10);
    if left < 1 {
        1
    } else {
        left
    }
}

/// Number of projectiles that hit a target at squared distance `d2`.
pub open spec fn projectiles_hit(projectiles: int, d2: int, range: int) -> int {
    ceil_div(projectiles, spread(d2, range))
}

/// Damage that a strike deals to a target at squared distance `d2`.
pub open spec fn strike_damage(per_hit: int, projectiles: int, d2: int, range: int) -> int {
    per_hit * projectiles_hit(projectiles, d2, range)
}

proof fn lemma_isqrt_unique(n: int, a: int, b: int)
    requires
        is_isqrt(n, a),
        is_isqrt(n, b),
    ensures
        a == b,
{
    if a < b {
        assert((a + 1) * (a + 1) <= b * b) by (nonlinear_arith)
            requires
                0 <= a,
                a + 1 <= b,
        ;
    }
    if b < a {
        assert((b + 1) * (b + 1) <= a * a) by (nonlinear_arith)
            requires
                0 <= b,
                b + 1 <= a,
        ;
    }
}

/// Integer square root of `n`.
fn int_sqrt(n: u128) -> (r: u128)
    requires
        n < 0x1_0000_0000_0000_0000_0000_0000,
    ensures
        r == isqrt(n as int),
        is_isqrt(n as int, r as int),
{
    let mut lo: u128 = 0;
    let mut hi: u128 = 0x4_0000_0000_0000;
    assert(n < hi * hi);
    while hi - lo > 1
        invariant
            lo < hi <= 0x4_0000_0000_0000,
            lo * lo <= n,
            n < hi * hi,
        decreases hi - lo,
    {
        let mid = lo + (hi - lo) / 2;
        assert(mid * mid < 0x10_0000_0000_0000_0000_0000_0000) by (nonlinear_arith)
            requires
                mid < 0x4_0000_0000_0000,
        ;
        if mid * mid <= n {
            lo = mid;
        } else {
            hi = mid;
        }
    }
    assert(hi == lo + 1);
    assert(is_isqrt(n as int, lo as int));
    proof {
        lemma_isqrt_unique(n as int, lo as int, isqrt(n as int));
    }
    lo
}

/// Checks whether `second` is within `range` tenths of a tile of `first`.
pub(crate) fn within_reach(first: &PlayerState, second: &PlayerState, range: u32) -> (r: bool)
    ensures
        r == in_reach(sq_dist(first.position, second.position), range as int),
{
    let d2 = first.squared_distance_from_player(second);
    let range = range as u128;
    assert(range * range <= 0xffff_ffff * 0xffff_ffff) by (nonlinear_arith)
        requires
            range <= 0xffff_ffff,
    ;
    100 * d2 <= range * range
}

/// Lands a strike of `projectiles` projectiles, each dealing `per_hit`, with
/// `range` tenths of reach, from `first` on `second`. Returns whether the
/// target was within reach.
fn strike(first: &PlayerState, second: &mut PlayerState, per_hit: u32, range: u32, projectiles: u32) -> (landed: bool)
    ensures
        landed == in_reach(sq_dist(first.position, old(second).position), range as int),
        landed ==> *final(second) == old(second).damaged(
            strike_damage(per_hit as int, projectiles as int, sq_dist(first.position, old(second).position), range as int),
        ),
        !landed ==> *final(second) == *old(second),
{
    let d2 = first.squared_distance_from_player(second);
    let range = range as u128;
    assert(range * range <= 0xffff_ffff * 0xffff_ffff) by (nonlinear_arith)
        requires
            range <= 0xffff_ffff,
    ;
    if 100 * d2 > range * range {
        return false;
    }
    let q = int_sqrt(100 * d2);
    let ghost gd2 = d2 as int;
    assert(q * q <= range * range);
    assert(q <= range) by (nonlinear_arith)
        requires
            q * q <= range * range,
            0 <= q,
            0 <= range,
    ;
    let left = (range - q + 9) / 10;
    let width: u128 = if left < 1 { 1 } else { left };
    assert(width == spread(gd2, range as int));
    let p = projectiles as u128;
    let hits = (p + width - 1) / width;
    proof {
        let (gp, gs) = (p as int, width as int);
        assert((gp + gs - 1) / gs <= gp) by (nonlinear_arith)
            requires
                gs >= 1,
                gp >= 0,
        ;
    }
    assert(hits <= p);
    assert(per_hit as u128 * hits <= 0xffff_ffff * 0xffff_ffff) by (nonlinear_arith)
        requires
            per_hit <= 0xffff_ffff,
            hits <= 0xffff_ffff,
    ;
    let total = per_hit as u128 * hits;
    let amount: u32 = if total > u32::MAX as u128 { u32::MAX } else { total as u32 };
    second.damage(amount);
    proof {
        assert(old(second).damaged(amount as int) == old(second).damaged(total as int));
    }
    true
}

/// Battle data of a Brawler at level 1.
#[derive(Clone, Debug)]
pub struct BrawlerInfo {
    /// Name of the Brawler.
    pub name: String,
    /// Health points of the Brawler at level 1.
    pub health: u32,
    /// Speed of the Brawler.
    pub speed: u32,
    /// The Brawler's attack at level 1.
    pub attack: BattleAttack,
    /// The Brawler's super at level 1.
    pub ult: BattleUlt,
}

/// The attack of a Brawler.
#[derive(Clone, Debug)]
pub struct BattleAttack {
    /// Damage of one projectile.
    pub damage: u32,
    /// Description of the attack.
    pub description: String,
    /// Maximum attack ammo the Brawler can have.
    pub max_ammo: u8,
    /// Range of the attack, in tenths of a tile.
    pub range: u32,
    /// Reload time of the attack, in tenths of a round.
    pub reload: u32,
    /// Number of projectiles in the attack.
    pub projectiles: u32,
}

/// The super of a Brawler.
#[derive(Clone, Debug)]
pub struct BattleUlt {
    /// Damage of one projectile; `None` for Brawlers with a special super.
    pub damage: Option<u32>,
    /// Description of the super.
    pub description: String,
    /// Range of the super, in tenths of a tile; `None` for spawners.
    pub range: Option<u32>,
    /// Number of projectiles in the super.
    pub projectiles: u32,
    /// Number of hits required to charge the super.
    pub hits_required: u32,
    /// What the super spawns, for the few Brawlers that spawn something.
    pub spawn: Option<Spawn>,
}

/// The stats of a Brawler that depend on its level.
#[derive(Clone, Copy, Debug, PartialEq, Eq, Structural)]
pub struct BrawlerStats {
    /// Health points.
    pub health: u32,
    /// Damage of one attack projectile.
    pub attack: u32,
    /// Damage of one super projectile, 0 for a special super.
    pub ult_damage: u32,
}

/// A Brawler's spawn.
#[derive(Clone, Debug)]
pub struct Spawn {
    /// Name of the spawn.
    pub name: String,
    /// Health of the spawn.
    pub health: u32,
    /// Damage output of the spawn.
    pub damage: u32,
    /// Range of the spawn, in tenths of a tile.
    pub range: u32,
    /// Speed of the spawn, in tenths of a tile per round.
    pub speed: u32,
}

/// A Brawler that takes part in battles: it supplies its battle data, and the
/// formulas of [`BrawlerInfo`] do the rest.
pub trait BrawlerExt {
    /// The Brawler's battle data.
    fn info(&self) -> &BrawlerInfo;
}

impl BrawlerExt for BrawlerInfo {
    fn info(&self) -> &BrawlerInfo {
        self
    }
}

/// Nita.
#[derive(Clone, Debug)]
pub struct Nita {
    /// Nita's battle data.
    pub data: BrawlerInfo,
}

impl BrawlerExt for Nita {
    fn info(&self) -> &BrawlerInfo {
        &self.data
    }
}

/// Shelly.
#[derive(Clone, Debug)]
pub struct Shelly {
    /// Shelly's battle data.
    pub data: BrawlerInfo,
}

impl BrawlerExt for Shelly {
    fn info(&self) -> &BrawlerInfo {
        &self.data
    }
}

impl BattleUlt {
    /// Damage of one projectile of the super, 0 for a special super.
    pub open spec fn damage_or_zero(&self) -> int {
        match self.damage {
            Some(d) => d as int,
            None => 0,
        }
    }

    /// Range of the super, 0 for spawners.
    pub open spec fn range_or_zero(&self) -> int {
        match self.range {
            Some(r) => r as int,
            None => 0,
        }
    }
}

impl BrawlerInfo {
    /// The level-scaled stats of this Brawler fit in `u32` at `level`.
    pub open spec fn fits_level(&self, level: int) -> bool {
        &&& valid_level(level)
        &&& buffed(self.health as int, level) <= u32::MAX
        &&& buffed(self.attack.damage as int, level) <= u32::MAX
        &&& buffed(self.ult.damage_or_zero(), level) <= u32::MAX
    }

    /// Rounds needed to reload one ammo: the reload time rounded up, at most 255.
    pub open spec fn reload_rounds(&self) -> int {
        let r = ceil_div(self.attack.reload as int, 10);
        if r > 255 {
            255
        } else {
            r
        }
    }

    /// Returns `base` after scaling it to `level`.
    pub fn buff_stat(base: u32, level: u32) -> (r: u32)
        requires
            valid_level(level as int),
            buffed(base as int, level as int) <= u32::MAX,
        ensures
            r == buffed(base as int, level as int),
    {
        let level = if level == 10 { 9 } else { level };
        let scaled = base as u64 * (level - 1) as u64;
        assert(scaled <= 0xffff_ffff * 9) by (nonlinear_arith)
            requires
                scaled == base * (level - 1),
                base <= 0xffff_ffff,
                level - 1 <= 9,
        ;
        (base as u64 + scaled / 20) as u32
    }

    /// Returns the Brawler's health at `level`.
    pub fn health(&self, level: u32) -> (r: u32)
        requires
            self.fits_level(level as int),
        ensures
            r == buffed(self.health as int, level as int),
    {
        Self::buff_stat(self.health, level)
    }

    /// Whether the Brawler has a spawn; none of the Brawlers here has one.
    pub fn has_spawn(&self) -> (r: bool)
        ensures
            !r,
    {
        false
    }

    /// The Brawler's level-dependent stats at level 1.
    pub fn stats(&self) -> (r: BrawlerStats)
        ensures
            r == (BrawlerStats {
                health: self.health,
                attack: self.attack.damage,
                ult_damage: self.ult.damage_or_zero() as u32,
            }),
    {
        let ult_damage = match self.ult.damage {
            Some(d) => d,
            None => 0,
        };
        BrawlerStats { health: self.health, attack: self.attack.damage, ult_damage }
    }

    /// The Brawler's level-dependent stats at `level`.
    pub fn buff_stats(&self, level: u32) -> (r: BrawlerStats)
        requires
            self.fits_level(level as int),
        ensures
            r == (BrawlerStats {
                health: buffed(self.health as int, level as int) as u32,
                attack: buffed(self.attack.damage as int, level as int) as u32,
                ult_damage: buffed(self.ult.damage_or_zero(), level as int) as u32,
            }),
    {
        let s = self.stats();
        BrawlerStats {
            health: Self::buff_stat(s.health, level),
            attack: Self::buff_stat(s.attack, level),
            ult_damage: Self::buff_stat(s.ult_damage, level),
        }
    }

    /// Returns the number of hits required to use the super.
    pub fn super_hits_required(&self) -> (r: u32)
        ensures
            r == self.ult.hits_required,
    {
        self.ult.hits_required
    }

    /// Rounds needed to reload one ammo.
    pub fn reload_rounds_exec(&self) -> (r: u8)
        ensures
            r == self.reload_rounds(),
    {
        let r = self.attack.reload / 10 + if self.attack.reload % 10 == 0 { 0 } else { 1 };
        assert(r == ceil_div(self.attack.reload as int, 10));
        if r > 255 {
            255
        } else {
            r as u8
        }
    }

    /// What the Brawler's attack from `first` on `second` at `level` leaves
    /// of the two states.
    pub open spec fn attack_outcome(&self, first: PlayerState, second: PlayerState, level: int) -> (PlayerState, PlayerState) {
        let d2 = sq_dist(first.position, second.position);
        if in_reach(d2, self.attack.range as int) {
            (
                PlayerState {
                    ammo: (first.ammo - 1) as u8,
                    attacks: (first.attacks + 1) as u32,
                    ..first
                },
                second.damaged(
                    strike_damage(
                        buffed(self.attack.damage as int, level),
                        self.attack.projectiles as int,
                        d2,
                        self.attack.range as int,
                    ),
                ),
            )
        } else {
            (first, second)
        }
    }

    /// What the Brawler's super from `first` on `second` at `level` leaves of
    /// the two states.
    pub open spec fn ult_outcome(&self, first: PlayerState, second: PlayerState, level: int) -> (PlayerState, PlayerState) {
        let d2 = sq_dist(first.position, second.position);
        if in_reach(d2, self.ult.range_or_zero()) {
            (
                PlayerState { attacks: 0, ..first },
                second.damaged(
                    strike_damage(
                        buffed(self.ult.damage_or_zero(), level),
                        self.ult.projectiles as int,
                        d2,
                        self.ult.range_or_zero(),
                    ),
                ),
            )
        } else {
            (first, second)
        }
    }

    /// Performs the Brawler's attack: `first` attacks `second`.
    ///
    /// A target out of range is not affected. Otherwise it takes the damage
    /// of the projectiles that hit, and the attacker spends one ammo and
    /// counts one more landed attack.
    pub fn attack(&self, first: &mut PlayerState, second: &mut PlayerState, first_brawler_level: u32)
        requires
            self.fits_level(first_brawler_level as int),
            old(first).ammo > 0,
            old(first).attacks < u32::MAX,
        ensures
            (*final(first), *final(second)) == self.attack_outcome(
                *old(first),
                *old(second),
                first_brawler_level as int,
            ),
    {
        let damage = Self::buff_stat(self.attack.damage, first_brawler_level);
        if strike(first, second, damage, self.attack.range, self.attack.projectiles) {
            first.ammo = first.ammo - 1;
            first.attacks = first.attacks + 1;
        }
    }

    /// Performs the Brawler's super: `first` uses it on `second`.
    ///
    /// A target out of range is not affected. Otherwise it takes the damage
    /// of the projectiles that hit, and the attacker's landed attacks are
    /// spent.
    pub fn ult(&self, first: &mut PlayerState, second: &mut PlayerState, first_brawler_level: u32)
        requires
            self.fits_level(first_brawler_level as int),
        ensures
            (*final(first), *final(second)) == self.ult_outcome(
                *old(first),
                *old(second),
                first_brawler_level as int,
            ),
    {
        let base = match self.ult.damage {
            Some(d) => d,
            None => 0,
        };
        let range = match self.ult.range {
            Some(r) => r,
            None => 0,
        };
        let damage = Self::buff_stat(base, first_brawler_level);
        if strike(first, second, damage, range, self.ult.projectiles) {
            first.attacks = 0;
        }
    }
}

/// Scaling a stat never lowers it as the level rises, and level 10 scales as
/// level 9.
pub proof fn lemma_buffed_monotonic(base: int, low: int, high: int)
    requires
        0 <= base,
        1 <= low <= high <= 10,
    ensures
        buffed(base, low) <= buffed(base, high),
        buffed(base, 10) == buffed(base, 9),
{
    let l = if low == 10 { 9 } else { low };
    let h = if high == 10 { 9 } else { high };
    assert(l <= h);
    assert(base * (l - 1) <= base * (h - 1)) by (nonlinear_arith)
        requires
            0 <= base,
            l <= h,
    ;
    vstd::arithmetic::div_mod::lemma_div_is_ordered(base * (l - 1), base * (h - 1), 20);
}

} // verus!
