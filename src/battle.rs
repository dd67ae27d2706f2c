//! The battle: everything on the field, and one function per phase of a frame.
use rand::Rng;
use vstd::prelude::*;

use crate::fixed::{add_sat, clamp64, clamp_u32, saturate, sub_sat, travel, travel_exec};
use crate::economy::{MushroomManager, UpgradeButton};
use crate::rules::{
    HERO_BASE_REACH, HERO_EXP_PER_SECOND, INITIAL_SPORE_COUNT, MUSHROOM_LORD_SPAWN_OFFSET,
    MUSHROOM_SPAWN_OFFSET, SUMMON_MINIMUM_SPORE_COUNT,
};
use crate::units::{cooldown, cooldown_ms, countdown, countdown_exec, Hero, Mushroom, MushroomUnit};

verus! {

/// Whether the game has ended, and who won.
#[derive(Clone, Copy, Debug, PartialEq, Eq, Structural)]
pub struct GameManager {
    pub game_over: bool,
    /// Meaningful once `game_over` is set: the hero fell.
    pub victory: bool,
}

/// How the game stands, as shown to the player.
#[derive(Clone, Copy, Debug, PartialEq, Eq, Structural)]
pub enum Outcome {
    Running,
    Victory,
    Defeat,
}

impl Default for GameManager {
    fn default() -> (r: GameManager)
        ensures
            !r.game_over,
            !r.victory,
    {
        GameManager::new()
    }
}

impl GameManager {
    pub open spec fn outcome_spec(self) -> Outcome {
        if !self.game_over {
            Outcome::Running
        } else if self.victory {
            Outcome::Victory
        } else {
            Outcome::Defeat
        }
    }

    pub fn new() -> (r: GameManager)
        ensures
            !r.game_over,
            !r.victory,
    {
        GameManager { game_over: false, victory: false }
    }

    pub fn outcome(&self) -> (r: Outcome)
        ensures
            r == self.outcome_spec(),
    {
        if !self.game_over {
            Outcome::Running
        } else if self.victory {
            Outcome::Victory
        } else {
            Outcome::Defeat
        }
    }
}

/// Everything on the field.
pub struct Battle {
    pub hero: Hero,
    /// The mushrooms on the field, oldest first.
    pub mushrooms: Vec<MushroomUnit>,
    pub spores: u32,
    pub manager: MushroomManager,
    /// Whether the Mushroom Lord has been summoned; it comes only once.
    pub summoned: bool,
    pub game: GameManager,
    /// Position of the player's base, where mushrooms come from.
    pub base_x: i64,
    /// The id the next mushroom gets.
    pub next_id: u64,
}

/// The battle as a mathematical value.
pub struct BattleView {
    pub hero: Hero,
    pub mushrooms: Seq<MushroomUnit>,
    pub spores: u32,
    pub manager: MushroomManager,
    pub summoned: bool,
    pub game: GameManager,
    pub base_x: i64,
    pub next_id: u64,
}

impl View for Battle {
    type V = BattleView;

    open spec fn view(&self) -> BattleView {
        BattleView {
            hero: self.hero,
            mushrooms: self.mushrooms@,
            spores: self.spores,
            manager: self.manager,
            summoned: self.summoned,
            game: self.game,
            base_x: self.base_x,
            next_id: self.next_id,
        }
    }
}

/// Whether the hero's attack reaches `m`: they stand within the hero's range
/// of each other, on either side.
pub open spec fn hero_reaches(h: Hero, m: MushroomUnit) -> bool {
    -(h.atk_range as int) <= h.x - m.x <= h.atk_range
}

/// `m` after a blow from the hero, if the blow reaches it.
pub open spec fn struck_by_hero(h: Hero, m: MushroomUnit) -> MushroomUnit {
    if hero_reaches(h, m) {
        MushroomUnit { stats: Mushroom { hp: clamp64(m.stats.hp - h.atk) as i64, ..m.stats }, ..m }
    } else {
        m
    }
}

/// The id handed out `k` mushrooms after `id`; ids wrap around.
pub open spec fn id_after(id: u64, k: int) -> u64 {
    ((id + k) % 0x1_0000_0000_0000_0000) as u64
}

/// Mushrooms of a wave, made from `template` with ids from `next_id` on,
/// the `k`-th of them `offsets[k]` to the right of `base_x`.
pub open spec fn wave(template: Mushroom, base_x: i64, next_id: u64, offsets: Seq<i64>) -> Seq<MushroomUnit> {
    Seq::new(
        offsets.len(),
        |k: int|
            MushroomUnit::spawn_spec(
                id_after(next_id, k),
                template,
                clamp64(base_x + offsets[k]) as i64,
                false,
            ),
    )
}

/// `m` after `elapsed_ms` milliseconds of walking towards the hero, unless
/// it is in combat.
pub open spec fn marched(m: MushroomUnit, elapsed_ms: u32) -> MushroomUnit {
    if m.in_combat {
        m
    } else {
        MushroomUnit { x: clamp64(m.x + travel(m.stats.move_speed, elapsed_ms)) as i64, ..m }
    }
}

pub open spec fn is_alive(m: MushroomUnit) -> bool {
    m.stats.hp > 0
}

/// Whether `m` reaches the hero standing at `hero_x`: the hero is at most its
/// range ahead of it, or behind it.
pub open spec fn mushroom_reaches(hero_x: i64, m: MushroomUnit) -> bool {
    hero_x - m.x <= m.stats.atk_range
}

/// Whether `m` hits the hero at `hero_x` this frame.
pub open spec fn strikes(hero_x: i64, m: MushroomUnit) -> bool {
    mushroom_reaches(hero_x, m) && m.attack_timer <= 0
}

/// `m` after its turn against the hero at `hero_x`: in combat while it
/// reaches the hero; when its timer has run out it hits, lunges and waits one
/// cooldown; the lunge ends once half the cooldown is left.
pub open spec fn after_strike(hero_x: i64, m: MushroomUnit) -> MushroomUnit {
    if mushroom_reaches(hero_x, m) {
        let cd = cooldown(m.stats.atk_speed);
        if m.attack_timer <= 0 {
            MushroomUnit { in_combat: true, lunging: true, attack_timer: cd as i64, ..m }
        } else {
            MushroomUnit { in_combat: true, lunging: m.lunging && 2 * m.attack_timer > cd, ..m }
        }
    } else {
        MushroomUnit { in_combat: false, ..m }
    }
}

/// The hero's health after the blows of `ms`, one after the other.
pub open spec fn hp_after_blows(hp: i64, hero_x: i64, ms: Seq<MushroomUnit>) -> i64 {
    ms.fold_left(
        hp,
        |h: i64, m: MushroomUnit|
            if strikes(hero_x, m) {
                clamp64(h - m.stats.atk) as i64
            } else {
                h
            },
    )
}

/// Spores after collecting `per` for each fallen mushroom of `ms`.
pub open spec fn spores_after_reap(spores: u32, per: u32, ms: Seq<MushroomUnit>) -> u32 {
    ms.fold_left(
        spores,
        |s: u32, m: MushroomUnit|
            if is_alive(m) {
                s
            } else {
                clamp_u32(s + per) as u32
            },
    )
}

/// Experience after collecting the drop of each fallen mushroom of `ms`.
pub open spec fn exp_after_reap(exp: i64, ms: Seq<MushroomUnit>) -> i64 {
    ms.fold_left(
        exp,
        |e: i64, m: MushroomUnit|
            if is_alive(m) {
                e
            } else {
                clamp64(e + m.stats.xp_drop) as i64
            },
    )
}

/// Every mushroom of `ms` has well-formed stats.
pub open spec fn all_wf(ms: Seq<MushroomUnit>) -> bool {
    forall|i: int| 0 <= i < ms.len() ==> (#[trigger] ms[i]).stats.wf()
}

/// A mushroom's timer after `elapsed_ms` milliseconds.
pub open spec fn unit_countdown(m: MushroomUnit, elapsed_ms: u32) -> MushroomUnit {
    MushroomUnit { attack_timer: countdown(m.attack_timer, elapsed_ms), ..m }
}

impl BattleView {
    pub open spec fn wf(self) -> bool {
        &&& self.hero.wf()
        &&& self.manager.wf()
        &&& all_wf(self.mushrooms)
    }

    /// A new battle: the hero at `hero_x`, the base at `base_x`, no
    /// mushrooms yet and the starting spores.
    pub open spec fn initial(hero_x: i64, base_x: i64) -> BattleView {
        BattleView {
            hero: Hero::spawn_spec(hero_x),
            mushrooms: Seq::empty(),
            spores: INITIAL_SPORE_COUNT,
            manager: MushroomManager::initial(),
            summoned: false,
            game: GameManager { game_over: false, victory: false },
            base_x,
            next_id: 0,
        }
    }

    /// How many mushrooms one click sends: as many as the manager says, but
    /// no more than there are spores.
    pub open spec fn wave_size(self) -> nat {
        if self.manager.spawn_count <= self.spores {
            self.manager.spawn_count as nat
        } else {
            self.spores as nat
        }
    }

    /// A wave of `offsets.len()` mushrooms joins the field, one spore each.
    pub open spec fn spawn_wave(self, offsets: Seq<i64>) -> BattleView {
        BattleView {
            mushrooms: self.mushrooms + wave(
                self.manager.mushroom_template,
                self.base_x,
                self.next_id,
                offsets,
            ),
            spores: (self.spores - offsets.len()) as u32,
            next_id: id_after(self.next_id, offsets.len() as int),
            ..self
        }
    }

    /// Mushrooms out of combat walk `elapsed_ms` milliseconds towards the hero.
    pub open spec fn march(self, elapsed_ms: u32) -> BattleView {
        BattleView {
            mushrooms: self.mushrooms.map_values(|m: MushroomUnit| marched(m, elapsed_ms)),
            ..self
        }
    }

    /// Fallen mushrooms leave the field. Each pays the template's spore
    /// yield to the player and its own experience drop to the hero.
    pub open spec fn reap(self) -> BattleView {
        BattleView {
            mushrooms: self.mushrooms.filter(|m: MushroomUnit| is_alive(m)),
            spores: spores_after_reap(
                self.spores,
                self.manager.mushroom_template.spore_count,
                self.mushrooms,
            ),
            hero: Hero { exp: exp_after_reap(self.hero.exp, self.mushrooms), ..self.hero },
            ..self
        }
    }

    /// Every mushroom takes its turn against the hero.
    pub open spec fn mushroom_strikes(self) -> BattleView {
        BattleView {
            mushrooms: self.mushrooms.map_values(|m: MushroomUnit| after_strike(self.hero.x, m)),
            hero: Hero { hp: hp_after_blows(self.hero.hp, self.hero.x, self.mushrooms), ..self.hero },
            ..self
        }
    }

    /// Out of combat the hero walks `elapsed_ms` milliseconds towards the base.
    pub open spec fn hero_walk(self, elapsed_ms: u32) -> BattleView {
        if self.hero.in_combat {
            self
        } else {
            BattleView {
                hero: Hero {
                    x: clamp64(self.hero.x - travel(self.hero.move_speed, elapsed_ms)) as i64,
                    ..self.hero
                },
                ..self
            }
        }
    }

    /// The hero gathers experience with time.
    pub open spec fn hero_train(self, elapsed_ms: u32) -> BattleView {
        BattleView {
            hero: self.hero.gain_spec(clamp64(travel(HERO_EXP_PER_SECOND, elapsed_ms))),
            ..self
        }
    }

    /// A hero without health ends the game in the player's victory.
    pub open spec fn hero_fall(self) -> BattleView {
        if self.hero.hp <= 0 {
            BattleView { game: GameManager { game_over: true, victory: true }, ..self }
        } else {
            self
        }
    }

    /// One frame of `elapsed_ms` milliseconds, in which the wave placed at
    /// `offsets` is sent.
    pub open spec fn tick(self, elapsed_ms: u32, offsets: Seq<i64>) -> BattleView {
        self.tick_timers(elapsed_ms)
            .hero_strike()
            .spawn_wave(offsets)
            .march(elapsed_ms)
            .reap()
            .mushroom_strikes()
            .hero_walk(elapsed_ms)
            .hero_train(elapsed_ms)
            .hero_fall()
    }

    /// Whether the player holds enough spores to summon the Mushroom Lord.
    pub open spec fn summon_ready(self) -> bool {
        self.spores >= SUMMON_MINIMUM_SPORE_COUNT
    }

    /// The Mushroom Lord joins the field, made stronger by every spore the
    /// player holds, which are all spent. It comes only once, and only when
    /// the summon is ready.
    pub open spec fn summon(self) -> BattleView {
        if self.summon_ready() && !self.summoned {
            BattleView {
                mushrooms: self.mushrooms.push(
                    MushroomUnit::spawn_spec(
                        self.next_id,
                        Mushroom::lord_spec(self.spores),
                        clamp64(self.base_x + MUSHROOM_LORD_SPAWN_OFFSET) as i64,
                        true,
                    ),
                ),
                spores: 0,
                summoned: true,
                next_id: id_after(self.next_id, 1),
                ..self
            }
        } else {
            self
        }
    }

    /// The battle after buying the upgrade `button` offers at its price.
    pub open spec fn bought(self, button: UpgradeButton) -> BattleView {
        BattleView {
            spores: (self.spores - button.cost) as u32,
            manager: self.manager.upgraded(button.upgrade_type, self.hero.level),
            ..self
        }
    }

    /// Whether the Mushroom Lord at `i` is the only one on the field.
    pub open spec fn is_only_lord(self, i: int) -> bool {
        &&& 0 <= i < self.mushrooms.len()
        &&& self.mushrooms[i].is_lord
        &&& forall|j: int|
            0 <= j < self.mushrooms.len() && j != i ==> !(#[trigger] self.mushrooms[j]).is_lord
    }

    /// Whether the hero deals a blow on its turn: the game goes on, its timer
    /// has run out and some mushroom is within its reach.
    pub open spec fn hero_blow(self) -> bool {
        &&& !self.game.game_over
        &&& self.hero.attack_timer <= 0
        &&& exists|i: int|
            0 <= i < self.mushrooms.len() && #[trigger] hero_reaches(self.hero, self.mushrooms[i])
    }

    /// Every attack timer counts `elapsed_ms` milliseconds down.
    pub open spec fn tick_timers(self, elapsed_ms: u32) -> BattleView {
        BattleView {
            hero: Hero { attack_timer: countdown(self.hero.attack_timer, elapsed_ms), ..self.hero },
            mushrooms: self.mushrooms.map_values(|m: MushroomUnit| unit_countdown(m, elapsed_ms)),
            ..self
        }
    }

    /// The hero's turn. After the game is over the hero only leaves combat.
    /// Otherwise the game is lost once the hero stands at the base; the hero
    /// is in combat while a mushroom is within reach (and stays so until its
    /// timer runs out); and when its timer has run out it hits every
    /// mushroom within reach and waits one cooldown. It shows its attack pose
    /// from a blow until half the cooldown is left.
    pub open spec fn hero_strike(self) -> BattleView {
        let h = self.hero;
        if self.game.game_over {
            BattleView { hero: Hero { in_combat: false, ..h }, ..self }
        } else {
            let game = if h.x - self.base_x <= HERO_BASE_REACH {
                GameManager { game_over: true, victory: false }
            } else {
                self.game
            };
            let ready = h.attack_timer <= 0;
            let engaged = (!ready && h.in_combat) || exists|i: int|
                0 <= i < self.mushrooms.len() && #[trigger] hero_reaches(h, self.mushrooms[i]);
            let cd = cooldown(h.atk_speed);
            if ready {
                BattleView {
                    hero: Hero {
                        in_combat: engaged,
                        attack_timer: cd as i64,
                        striking: engaged || h.striking,
                        ..h
                    },
                    mushrooms: self.mushrooms.map_values(|m: MushroomUnit| struck_by_hero(h, m)),
                    game,
                    ..self
                }
            } else {
                BattleView {
                    hero: Hero {
                        in_combat: engaged,
                        striking: h.striking && 2 * h.attack_timer > cd,
                        ..h
                    },
                    game,
                    ..self
                }
            }
        }
    }
}

impl Battle {
    /// A new battle: the hero at `hero_x`, the base at `base_x`.
    pub fn new(hero_x: i64, base_x: i64) -> (r: Battle)
        ensures
            r@ == BattleView::initial(hero_x, base_x),
            r@.wf(),
    {
        let r = Battle {
            hero: Hero::spawn(hero_x),
            mushrooms: Vec::new(),
            spores: INITIAL_SPORE_COUNT,
            manager: MushroomManager::new(),
            summoned: false,
            game: GameManager::new(),
            base_x,
            next_id: 0,
        };
        assert(r@.mushrooms =~= Seq::<MushroomUnit>::empty());
        r
    }

    /// Counts every attack timer down by `elapsed_ms` milliseconds.
    pub fn tick_timers(&mut self, elapsed_ms: u32)
        requires
            old(self)@.wf(),
        ensures
            final(self)@ == old(self)@.tick_timers(elapsed_ms),
            final(self)@.wf(),
    {
        self.hero.attack_timer = countdown_exec(self.hero.attack_timer, elapsed_ms);
        countdown_all(&mut self.mushrooms, elapsed_ms);
    }

    /// The hero's turn; see `BattleView::hero_strike`. Returns whether the
    /// hero dealt a blow.
    pub fn hero_strike(&mut self) -> (struck: bool)
        requires
            old(self)@.wf(),
        ensures
            final(self)@ == old(self)@.hero_strike(),
            final(self)@.wf(),
            struck == old(self)@.hero_blow(),
    {
        if self.game.game_over {
            self.hero.in_combat = false;
            return false;
        }
        if (self.hero.x as i128 - self.base_x as i128) <= HERO_BASE_REACH as i128 {
            self.game = GameManager { game_over: true, victory: false };
        }
        let h = self.hero;
        let ready = h.attack_timer <= 0;
        let found = hero_hits(&mut self.mushrooms, &h, ready);
        let engaged = (!ready && h.in_combat) || found;
        let cd = cooldown_ms(h.atk_speed);
        self.hero.in_combat = engaged;
        if ready {
            self.hero.attack_timer = cd;
            self.hero.striking = engaged || h.striking;
        } else {
            self.hero.striking = h.striking && (2 * h.attack_timer as i128) > cd as i128;
        }
        ready && found
    }

    /// Sends a wave of mushrooms placed at `offsets` right of the base.
    pub fn spawn_wave(&mut self, offsets: &Vec<i64>)
        requires
            old(self)@.wf(),
            offsets@.len() <= old(self).spores,
        ensures
            final(self)@ == old(self)@.spawn_wave(offsets@),
            final(self)@.wf(),
    {
        let template = self.manager.mushroom_template;
        let id = push_wave(&mut self.mushrooms, template, self.base_x, self.next_id, offsets);
        self.next_id = id;
        self.spores = self.spores - offsets.len() as u32;
    }

    /// Mushrooms out of combat walk `elapsed_ms` milliseconds.
    pub fn march(&mut self, elapsed_ms: u32)
        requires
            old(self)@.wf(),
        ensures
            final(self)@ == old(self)@.march(elapsed_ms),
            final(self)@.wf(),
    {
        march_all(&mut self.mushrooms, elapsed_ms);
    }

    /// Clears fallen mushrooms and pays out their rewards.
    pub fn reap(&mut self)
        requires
            old(self)@.wf(),
        ensures
            final(self)@ == old(self)@.reap(),
            final(self)@.wf(),
    {
        let (kept, spores, exp) = reap_all(
            &self.mushrooms,
            self.spores,
            self.manager.mushroom_template.spore_count,
            self.hero.exp,
        );
        proof {
            let alive = |m: MushroomUnit| is_alive(m);
            assert forall|i: int| 0 <= i < kept@.len() implies (#[trigger] kept@[i]).stats.wf() by {
                old(self)@.mushrooms.lemma_filter_contains_rev(alive, kept@[i]);
                let j = choose|j: int| 0 <= j < old(self)@.mushrooms.len() && old(self)@.mushrooms[j] == kept@[i];
                assert(old(self)@.mushrooms[j].stats.wf());
            }
        }
        self.mushrooms = kept;
        self.spores = spores;
        self.hero.exp = exp;
    }

    /// Every mushroom takes its turn against the hero.
    pub fn mushroom_strikes(&mut self)
        requires
            old(self)@.wf(),
        ensures
            final(self)@ == old(self)@.mushroom_strikes(),
            final(self)@.wf(),
    {
        let hp = strike_all(&mut self.mushrooms, self.hero.x, self.hero.hp);
        self.hero.hp = hp;
    }

    /// Out of combat the hero walks `elapsed_ms` milliseconds.
    pub fn hero_walk(&mut self, elapsed_ms: u32)
        requires
            old(self)@.wf(),
        ensures
            final(self)@ == old(self)@.hero_walk(elapsed_ms),
            final(self)@.wf(),
    {
        if !self.hero.in_combat {
            let d = travel_exec(self.hero.move_speed, elapsed_ms);
            self.hero.x = saturate(self.hero.x as i128 - d);
        }
    }

    /// The hero gathers the experience of `elapsed_ms` milliseconds.
    pub fn hero_train(&mut self, elapsed_ms: u32)
        requires
            old(self)@.wf(),
        ensures
            final(self)@ == old(self)@.hero_train(elapsed_ms),
            final(self)@.wf(),
    {
        let amount = saturate(travel_exec(HERO_EXP_PER_SECOND, elapsed_ms));
        self.hero.gain_exp(amount);
    }

    /// Ends the game in victory once the hero has no health left.
    pub fn hero_fall(&mut self)
        requires
            old(self)@.wf(),
        ensures
            final(self)@ == old(self)@.hero_fall(),
            final(self)@.wf(),
    {
        if self.hero.hp <= 0 {
            self.game = GameManager { game_over: true, victory: true };
        }
    }

    /// One frame of `elapsed_ms` milliseconds, sending the wave placed at
    /// `offsets` (empty when the player did not click). Returns whether the
    /// hero dealt a blow.
    pub fn tick_with_offsets(&mut self, elapsed_ms: u32, offsets: &Vec<i64>) -> (struck: bool)
        requires
            old(self)@.wf(),
            offsets@.len() <= old(self).spores,
        ensures
            final(self)@ == old(self)@.tick(elapsed_ms, offsets@),
            final(self)@.wf(),
            struck == old(self)@.tick_timers(elapsed_ms).hero_blow(),
    {
        self.tick_timers(elapsed_ms);
        let struck = self.hero_strike();
        self.spawn_wave(offsets);
        self.march(elapsed_ms);
        self.reap();
        self.mushroom_strikes();
        self.hero_walk(elapsed_ms);
        self.hero_train(elapsed_ms);
        self.hero_fall();
        struck
    }

    /// How many mushrooms one click sends now; see `BattleView::wave_size`.
    pub fn wave_size(&self) -> (r: u32)
        ensures
            r == self@.wave_size(),
    {
        if self.manager.spawn_count <= self.spores {
            self.manager.spawn_count
        } else {
            self.spores
        }
    }

    /// One frame of `elapsed_ms` milliseconds. When the player `clicked`, a
    /// wave of `wave_size` mushrooms is sent, each placed at random up to
    /// `MUSHROOM_SPAWN_OFFSET` right of the base. Returns whether the hero
    /// dealt a blow.
    pub fn tick(&mut self, elapsed_ms: u32, clicked: bool) -> (struck: bool)
        requires
            old(self)@.wf(),
        ensures
            final(self)@.wf(),
            struck == old(self)@.tick_timers(elapsed_ms).hero_blow(),
            exists|offsets: Seq<i64>|
                {
                    &&& offsets.len() == if clicked { old(self)@.wave_size() } else { 0 }
                    &&& forall|k: int|
                        0 <= k < offsets.len() ==> 0 <= #[trigger] offsets[k]
                            < MUSHROOM_SPAWN_OFFSET
                    &&& final(self)@ == old(self)@.tick(elapsed_ms, offsets)
                },
    {
        let n = if clicked { self.wave_size() } else { 0 };
        let offsets = draw_offsets(n);
        let struck = self.tick_with_offsets(elapsed_ms, &offsets);
        assert(offsets@.len() == if clicked { old(self)@.wave_size() } else { 0 });
        struck
    }

    /// Whether the Mushroom Lord can be summoned now.
    pub fn summon_ready(&self) -> (r: bool)
        ensures
            r == self@.summon_ready(),
    {
        self.spores >= SUMMON_MINIMUM_SPORE_COUNT
    }

    /// Summons the Mushroom Lord if the summon is ready and it has not come
    /// yet; returns whether it came.
    pub fn summon_lord(&mut self) -> (r: bool)
        requires
            old(self)@.wf(),
        ensures
            r == (old(self)@.summon_ready() && !old(self).summoned),
            final(self)@ == old(self)@.summon(),
            final(self)@.wf(),
    {
        if self.spores < SUMMON_MINIMUM_SPORE_COUNT || self.summoned {
            return false;
        }
        let x = add_sat(self.base_x, MUSHROOM_LORD_SPAWN_OFFSET);
        let lord = MushroomUnit::spawn(self.next_id, Mushroom::lord(self.spores), x, true);
        self.mushrooms.push(lord);
        self.spores = 0;
        self.summoned = true;
        self.next_id = if self.next_id == u64::MAX { 0 } else { self.next_id + 1 };
        true
    }

    /// Buys the upgrade `button` offers if the player can pay its price:
    /// the spores are spent, the template or the wave size improves, and
    /// the price goes up by its factor. Nothing overflows: a new price, a
    /// spore yield, a count per click or a stat that would pass the top of
    /// its range stops there, and the purchase still happens.
    /// Returns whether the purchase happened; without it nothing changes.
    pub fn purchase(&mut self, button: &mut UpgradeButton) -> (r: bool)
        requires
            old(self)@.wf(),
        ensures
            r == (old(self).spores >= old(button).cost),
            r ==> final(self)@ == old(self)@.bought(*old(button)),
            r ==> *final(button) == old(button).bought(),
            !r ==> final(self)@ == old(self)@,
            !r ==> *final(button) == *old(button),
            r ==> final(button).cost == if old(button).cost * old(button).cost_multiplier
                <= u32::MAX {
                old(button).cost * old(button).cost_multiplier
            } else {
                u32::MAX as int
            },
            r && old(button).upgrade_type is SporeCount
                ==> final(self).manager.mushroom_template.spore_count == if old(
                self,
            ).manager.mushroom_template.spore_count + old(self).hero.level <= u32::MAX {
                old(self).manager.mushroom_template.spore_count + old(self).hero.level
            } else {
                u32::MAX as int
            },
            r && old(button).upgrade_type is MushroomsPerClick
                ==> final(self).manager.spawn_count == if old(self).manager.spawn_count
                < u32::MAX {
                old(self).manager.spawn_count + 1
            } else {
                u32::MAX as int
            },
            final(self)@.wf(),
    {
        if self.spores < button.cost {
            return false;
        }
        self.spores = self.spores - button.cost;
        button.cost = crate::economy::mul_sat(button.cost, button.cost_multiplier);
        let level = self.hero.level;
        self.manager.apply_upgrade(button.upgrade_type, level);
        true
    }

    /// The health of the Mushroom Lord while exactly one is on the field;
    /// `None` when there is none, or several.
    pub fn lord_hp(&self) -> (r: Option<i64>)
        ensures
            r is None <==> forall|i: int| !#[trigger] self@.is_only_lord(i),
            r matches Some(hp) ==> exists|i: int|
                #[trigger] self@.is_only_lord(i) && hp == self@.mushrooms[i].stats.hp,
    {
        let n = self.mushrooms.len();
        let mut first: Option<usize> = None;
        let mut i: usize = 0;
        while i < n
            invariant
                n == self@.mushrooms.len(),
                i <= n,
                first is None ==> forall|j: int| 0 <= j < i ==> !(#[trigger] self@.mushrooms[j]).is_lord,
                first matches Some(k) ==> {
                    &&& k < i
                    &&& self@.mushrooms[k as int].is_lord
                    &&& forall|j: int| 0 <= j < i && j != k ==> !(#[trigger] self@.mushrooms[j]).is_lord
                },
            decreases n - i,
        {
            if self.mushrooms[i].is_lord {
                match first {
                    Some(k) => {
                        assert forall|x: int| !#[trigger] self@.is_only_lord(x) by {
                            if x != k as int {
                                assert(self@.mushrooms[k as int].is_lord);
                            } else {
                                assert(self@.mushrooms[i as int].is_lord);
                            }
                        }
                        return None;
                    },
                    None => {
                        first = Some(i);
                    },
                }
            }
            i += 1;
        }
        match first {
            Some(k) => {
                assert(self@.is_only_lord(k as int));
                Some(self.mushrooms[k].stats.hp)
            },
            None => {
                assert forall|x: int| !#[trigger] self@.is_only_lord(x) by {
                    if 0 <= x < n {
                        assert(!self@.mushrooms[x].is_lord);
                    }
                }
                None
            },
        }
    }

    /// How the game stands.
    pub fn outcome(&self) -> (r: Outcome)
        ensures
            r == self.game.outcome_spec(),
    {
        self.game.outcome()
    }
}

/// Counts the timer of every mushroom in `ms` down by `elapsed_ms`.
fn countdown_all(ms: &mut Vec<MushroomUnit>, elapsed_ms: u32)
    ensures
        final(ms)@ == old(ms)@.map_values(|m: MushroomUnit| unit_countdown(m, elapsed_ms)),
{
    let ghost ms0 = ms@;
    let n = ms.len();
    let mut i: usize = 0;
    while i < n
        invariant
            n == ms0.len(),
            ms@.len() == n,
            i <= n,
            forall|j: int| 0 <= j < i ==> ms@[j] == unit_countdown(ms0[j], elapsed_ms),
            forall|j: int| i <= j < n ==> ms@[j] == ms0[j],
        decreases n - i,
    {
        let t = countdown_exec(ms[i].attack_timer, elapsed_ms);
        ms[i].attack_timer = t;
        i += 1;
    }
    assert(ms@ =~= ms0.map_values(|m: MushroomUnit| unit_countdown(m, elapsed_ms)));
}

/// Finds whether the hero `h` reaches any mushroom of `ms`, and when `ready`
/// deals its blow to every mushroom it reaches.
fn hero_hits(ms: &mut Vec<MushroomUnit>, h: &Hero, ready: bool) -> (found: bool)
    ensures
        found == exists|j: int| 0 <= j < old(ms)@.len() && #[trigger] hero_reaches(*h, old(ms)@[j]),
        final(ms)@ == if ready {
            old(ms)@.map_values(|m: MushroomUnit| struck_by_hero(*h, m))
        } else {
            old(ms)@
        },
{
    let ghost ms0 = ms@;
    let n = ms.len();
    let mut found = false;
    let mut i: usize = 0;
    while i < n
        invariant
            n == ms0.len(),
            ms@.len() == n,
            i <= n,
            found == exists|j: int| 0 <= j < i && #[trigger] hero_reaches(*h, ms0[j]),
            forall|j: int| 0 <= j < i ==> ms@[j]
                == if ready { struck_by_hero(*h, ms0[j]) } else { ms0[j] },
            forall|j: int| i <= j < n ==> ms@[j] == ms0[j],
        decreases n - i,
    {
        let m = ms[i];
        let d: i128 = h.x as i128 - m.x as i128;
        if -(h.atk_range as i128) <= d && d <= h.atk_range as i128 {
            assert(hero_reaches(*h, ms0[i as int]));
            found = true;
            if ready {
                ms[i].stats.hp = sub_sat(m.stats.hp, h.atk);
            }
        }
        i += 1;
    }
    if ready {
        assert(ms@ =~= ms0.map_values(|m: MushroomUnit| struck_by_hero(*h, m)));
    } else {
        assert(ms@ =~= ms0);
    }
    found
}


/// Appends to `ms` the wave made from `template` at `offsets` right of
/// `base_x`, with ids from `next_id` on; returns the next free id.
fn push_wave(
    ms: &mut Vec<MushroomUnit>,
    template: Mushroom,
    base_x: i64,
    next_id: u64,
    offsets: &Vec<i64>,
) -> (id: u64)
    ensures
        final(ms)@ == old(ms)@ + wave(template, base_x, next_id, offsets@),
        id == id_after(next_id, offsets@.len() as int),
{
    let ghost ms0 = ms@;
    let n = offsets.len();
    let mut id = next_id;
    let mut k: usize = 0;
    while k < n
        invariant
            n == offsets@.len(),
            k <= n,
            id == id_after(next_id, k as int),
            ms@ == ms0 + wave(template, base_x, next_id, offsets@).take(k as int),
        decreases n - k,
    {
        let x = add_sat(base_x, offsets[k]);
        ms.push(MushroomUnit::spawn(id, template, x, false));
        assert(ms0 + wave(template, base_x, next_id, offsets@).take(k + 1) =~= ms0 + wave(
            template,
            base_x,
            next_id,
            offsets@,
        ).take(k as int).push(MushroomUnit::spawn_spec(id, template, x, false)));
        id = if id == u64::MAX { 0 } else { id + 1 };
        k += 1;
    }
    assert(wave(template, base_x, next_id, offsets@).take(n as int) =~= wave(template, base_x, next_id, offsets@));
    id
}

/// Lets every mushroom of `ms` out of combat walk `elapsed_ms` milliseconds.
fn march_all(ms: &mut Vec<MushroomUnit>, elapsed_ms: u32)
    requires
        all_wf(old(ms)@),
    ensures
        final(ms)@ == old(ms)@.map_values(|m: MushroomUnit| marched(m, elapsed_ms)),
{
    let ghost ms0 = ms@;
    let n = ms.len();
    let mut i: usize = 0;
    while i < n
        invariant
            n == ms0.len(),
            ms@.len() == n,
            i <= n,
            forall|j: int| 0 <= j < n ==> (#[trigger] ms0[j]).stats.wf(),
            forall|j: int| 0 <= j < i ==> ms@[j] == marched(ms0[j], elapsed_ms),
            forall|j: int| i <= j < n ==> ms@[j] == ms0[j],
        decreases n - i,
    {
        let m = ms[i];
        assert(ms0[i as int].stats.wf());
        if !m.in_combat {
            let d = travel_exec(m.stats.move_speed, elapsed_ms);
            ms[i].x = saturate(m.x as i128 + d);
        }
        i += 1;
    }
    assert(ms@ =~= ms0.map_values(|m: MushroomUnit| marched(m, elapsed_ms)));
}

/// The mushrooms of `ms` still standing, and the spores and experience after
/// the rewards of the fallen ones.
fn reap_all(ms: &Vec<MushroomUnit>, spores: u32, per: u32, exp: i64) -> (r: (
    Vec<MushroomUnit>,
    u32,
    i64,
))
    ensures
        r.0@ == ms@.filter(|m: MushroomUnit| is_alive(m)),
        r.1 == spores_after_reap(spores, per, ms@),
        r.2 == exp_after_reap(exp, ms@),
{
    let mut kept: Vec<MushroomUnit> = Vec::new();
    let mut s = spores;
    let mut e = exp;
    let n = ms.len();
    let mut i: usize = 0;
    while i < n
        invariant
            n == ms@.len(),
            i <= n,
            kept@ == ms@.take(i as int).filter(|m: MushroomUnit| is_alive(m)),
            s == spores_after_reap(spores, per, ms@.take(i as int)),
            e == exp_after_reap(exp, ms@.take(i as int)),
        decreases n - i,
    {
        let m = ms[i];
        proof {
            assert(ms@.take(i + 1) =~= ms@.take(i as int).push(m));
            ms@.take(i as int).lemma_filter_push(m, |m: MushroomUnit| is_alive(m));
            assert(ms@.take(i + 1).drop_last() =~= ms@.take(i as int));
        }
        if m.stats.hp > 0 {
            kept.push(m);
        } else {
            s = s.saturating_add(per);
            e = add_sat(e, m.stats.xp_drop);
        }
        i += 1;
    }
    assert(ms@.take(n as int) =~= ms@);
    (kept, s, e)
}

/// Lets every mushroom of `ms` take its turn against the hero standing at
/// `hero_x` with health `hp`; returns the hero's health afterwards.
fn strike_all(ms: &mut Vec<MushroomUnit>, hero_x: i64, hp: i64) -> (r: i64)
    requires
        all_wf(old(ms)@),
    ensures
        final(ms)@ == old(ms)@.map_values(|m: MushroomUnit| after_strike(hero_x, m)),
        r == hp_after_blows(hp, hero_x, old(ms)@),
{
    let ghost ms0 = ms@;
    let n = ms.len();
    let mut h = hp;
    let mut i: usize = 0;
    while i < n
        invariant
            n == ms0.len(),
            ms@.len() == n,
            i <= n,
            forall|j: int| 0 <= j < n ==> (#[trigger] ms0[j]).stats.wf(),
            forall|j: int| 0 <= j < i ==> ms@[j] == after_strike(hero_x, ms0[j]),
            forall|j: int| i <= j < n ==> ms@[j] == ms0[j],
            h == hp_after_blows(hp, hero_x, ms0.take(i as int)),
        decreases n - i,
    {
        let m = ms[i];
        assert(ms0[i as int].stats.wf());
        proof {
            assert(ms0.take(i + 1).drop_last() =~= ms0.take(i as int));
        }
        if (hero_x as i128 - m.x as i128) <= m.stats.atk_range as i128 {
            let cd = cooldown_ms(m.stats.atk_speed);
            if m.attack_timer <= 0 {
                h = sub_sat(h, m.stats.atk);
                ms[i].lunging = true;
                ms[i].attack_timer = cd;
            } else {
                ms[i].lunging = m.lunging && (2 * m.attack_timer as i128) > cd as i128;
            }
            ms[i].in_combat = true;
        } else {
            ms[i].in_combat = false;
        }
        i += 1;
    }
    assert(ms@ =~= ms0.map_values(|m: MushroomUnit| after_strike(hero_x, m)));
    assert(ms0.take(n as int) =~= ms0);
    h
}


/// Relies on rand's `thread_rng` and `Rng::gen_range`: a value drawn from
/// `0..bound`, which `gen_range` returns for any non-empty range. The thread's
/// generator is seeded by the operating system on first use, and panics only
/// if the system refuses it entropy.
#[verifier::external_body]
fn random_below(bound: i64) -> (r: i64)
    requires
        bound > 0,
    ensures
        0 <= r < bound,
{
    rand::thread_rng().gen_range(0..bound)
}

/// `n` random offsets for the mushrooms of a wave.
fn draw_offsets(n: u32) -> (r: Vec<i64>)
    ensures
        r@.len() == n,
        forall|k: int| 0 <= k < r@.len() ==> 0 <= #[trigger] r@[k] < MUSHROOM_SPAWN_OFFSET,
{
    let mut r: Vec<i64> = Vec::new();
    let mut k: u32 = 0;
    while k < n
        invariant
            k <= n,
            r@.len() == k,
            forall|j: int| 0 <= j < r@.len() ==> 0 <= #[trigger] r@[j] < MUSHROOM_SPAWN_OFFSET,
        decreases n - k,
    {
        r.push(random_below(MUSHROOM_SPAWN_OFFSET));
        k += 1;
    }
    r
}

} // verus!
