use vstd::prelude::*;

use crate::game::economy::Economy;
use crate::game::placement::{Projectile, Tower};
use crate::game::GamePlayState;
use crate::timer::TickTimer;

verus! {

/// The damage one projectile deals.
pub const PROJECTILE_DAMAGE: u32 = 5;

/// How long a projectile lives before it fizzles out.
pub const PROJECTILE_LIFETIME_MS: u64 = 1000;

/// The bounty a kill pays out.
pub const KILL_REWARD: usize = 10;

/// An enemy kind as the game's data files describe it, reduced to what
/// the rules read: its name and its starting health.
#[derive(Debug)]
pub struct EnemyDetails {
    pub name: String,
    pub health: u32,
}

/// An enemy walking the field.
#[derive(Clone, Debug)]
pub struct Enemy {
    pub name: String,
    pub health: u32,
}

/// An enemy is alive until its health runs out.
pub open spec fn enemy_alive(e: Enemy) -> bool {
    e.health > 0
}

/// The enemies of a group that are still alive, in their order.
pub open spec fn survivors(es: Seq<Enemy>) -> Seq<Enemy> {
    es.filter(|e: Enemy| enemy_alive(e))
}

/// Spawns an enemy on a fixed cadence.
#[derive(Clone, Copy, PartialEq, Eq, Structural, Debug)]
pub struct EnemySpawner {
    pub timer: TickTimer,
}

/// One frame of a spawner: its timer advances, and each time the cadence
/// completes a fresh enemy of the given kind steps onto the field.
pub fn spawn_enemy(spawner: &mut EnemySpawner, delta_ms: u64, details: &EnemyDetails) -> (spawned:
    Option<Enemy>)
    requires
        old(spawner).timer.wf(),
        old(spawner).timer.elapsed_ms + delta_ms <= u64::MAX,
    ensures
        final(spawner).timer == old(spawner).timer.spec_tick(delta_ms),
        if old(spawner).timer.spec_tick(delta_ms).spec_finished() {
            spawned matches Some(e) && e.name@ == details.name@ && e.health == details.health
        } else {
            spawned is None
        },
{
    spawner.timer.tick(delta_ms);
    if spawner.timer.finished() {
        Some(Enemy { name: details.name.clone(), health: details.health })
    } else {
        None
    }
}

/// One frame of a tower facing one enemy: the attack timer advances, and
/// when the cadence completes while the enemy stands in range, the tower
/// lets a projectile fly at it and winds the timer up again.
pub fn tower_shooting(tower: &mut Tower, delta_ms: u64, in_range: bool, target: usize) -> (shot:
    Option<Projectile>)
    requires
        old(tower).attack_speed.wf(),
        old(tower).attack_speed.elapsed_ms + delta_ms <= u64::MAX,
    ensures
        final(tower).name@ == old(tower).name@,
        final(tower).element_type == old(tower).element_type,
        final(tower).attack_speed.wf(),
        ({
            let ticked = old(tower).attack_speed.spec_tick(delta_ms);
            if ticked.spec_finished() && in_range {
                &&& shot == Some(
                    Projectile {
                        damage: PROJECTILE_DAMAGE,
                        target,
                        lifetime: TickTimer {
                            duration_ms: PROJECTILE_LIFETIME_MS,
                            elapsed_ms: 0u64,
                            repeating: false,
                            finished_this_tick: false,
                        },
                    },
                )
                &&& final(tower).attack_speed == (TickTimer {
                    duration_ms: ticked.duration_ms,
                    elapsed_ms: 0u64,
                    repeating: ticked.repeating,
                    finished_this_tick: false,
                })
            } else {
                &&& shot is None
                &&& final(tower).attack_speed == ticked
            }
        }),
{
    tower.attack_speed.tick(delta_ms);
    if tower.attack_speed.finished() && in_range {
        let shot = Projectile {
            damage: PROJECTILE_DAMAGE,
            target,
            lifetime: TickTimer::new(PROJECTILE_LIFETIME_MS, false),
        };
        tower.attack_speed.reset();
        Some(shot)
    } else {
        None
    }
}

/// One frame of a projectile's fuse: its lifetime advances, and the shot
/// fizzles out on the tick its time runs out.
pub fn bullet_despawn(p: &mut Projectile, delta_ms: u64) -> (expired: bool)
    requires
        old(p).lifetime.wf(),
        old(p).lifetime.elapsed_ms + delta_ms <= u64::MAX,
    ensures
        final(p).damage == old(p).damage,
        final(p).target == old(p).target,
        final(p).lifetime == old(p).lifetime.spec_tick(delta_ms),
        expired == final(p).lifetime.finished_this_tick,
{
    p.lifetime.tick(delta_ms);
    p.lifetime.just_finished()
}

/// A projectile strikes: the enemy loses the projectile's damage, and
/// health never falls below zero.
pub fn bullet_hit(enemy: &mut Enemy, damage: u32)
    ensures
        final(enemy).name@ == old(enemy).name@,
        final(enemy).health == if damage <= old(enemy).health {
            old(enemy).health - damage
        } else {
            0int
        },
{
    enemy.health = match enemy.health.checked_sub(damage) {
        Some(h) => h,
        None => 0,
    };
}

/// Sweep the fallen from the field: enemies whose health ran out leave
/// the group, the rest keep their order, and each kill pays its bounty
/// into the player's funds.
pub fn target_death(enemies: &mut Vec<Enemy>, economy: &mut Economy) -> (dead: usize)
    requires
        old(economy).money + KILL_REWARD * old(enemies)@.len() <= usize::MAX,
    ensures
        final(enemies)@ == survivors(old(enemies)@),
        dead == old(enemies)@.len() - final(enemies)@.len(),
        final(economy).money == old(economy).money + KILL_REWARD * dead,
{
    let ghost orig = enemies@;
    let mut kept: Vec<Enemy> = Vec::new();
    let mut dead: usize = 0;
    let mut i: usize = 0;
    proof {
        assert(orig.take(0) =~= Seq::<Enemy>::empty());
        assert(survivors(orig.take(0)) =~= Seq::<Enemy>::empty());
    }
    while enemies.len() > 0
        invariant
            orig.len() == i + enemies@.len(),
            enemies@ =~= orig.skip(i as int),
            kept@ == survivors(orig.take(i as int)),
            dead == i - kept@.len(),
            economy.money == old(economy).money + KILL_REWARD * dead,
            old(economy).money + KILL_REWARD * orig.len() <= usize::MAX,
        decreases enemies@.len(),
    {
        let e = enemies.remove(0);
        proof {
            assert(e == orig[i as int]);
            assert(enemies@ =~= orig.skip(i as int + 1));
            let s = orig.take(i as int + 1);
            assert(s.drop_last() =~= orig.take(i as int));
            assert(s.last() == orig[i as int]);
            reveal_with_fuel(Seq::filter, 2);
            assert(survivors(s) == if enemy_alive(s.last()) {
                survivors(s.drop_last()).push(s.last())
            } else {
                survivors(s.drop_last())
            });
            orig.take(i as int).lemma_filter_len(|x: Enemy| enemy_alive(x));
        }
        if e.health > 0 {
            kept.push(e);
        } else {
            dead = dead + 1;
            economy.money = economy.money + KILL_REWARD;
        }
        i = i + 1;
    }
    proof {
        assert(orig.take(orig.len() as int) =~= orig);
    }
    *enemies = kept;
    dead
}

/// The projectiles whose target is still on the field, in their order.
pub open spec fn homing(ps: Seq<Projectile>, alive: Seq<usize>) -> Seq<Projectile> {
    ps.filter(|p: Projectile| alive.contains(p.target))
}

/// Whether any of the listed enemy ids is the given one.
fn contains_id(ids: &Vec<usize>, x: usize) -> (r: bool)
    ensures
        r == ids@.contains(x),
{
    let mut i: usize = 0;
    while i < ids.len()
        invariant
            i <= ids@.len(),
            forall|k: int| 0 <= k < i ==> ids@[k] != x,
        decreases ids@.len() - i,
    {
        if ids[i] == x {
            return true;
        }
        i = i + 1;
    }
    false
}

/// Sweep the shots that lost their mark: projectiles whose target has
/// left the field vanish, the rest keep their order.
pub fn prune_projectiles(projectiles: &mut Vec<Projectile>, alive: &Vec<usize>)
    ensures
        final(projectiles)@ == homing(old(projectiles)@, alive@),
{
    let ghost orig = projectiles@;
    let orig_len: usize = projectiles.len();
    let mut kept: Vec<Projectile> = Vec::new();
    let mut i: usize = 0;
    proof {
        assert(orig.take(0) =~= Seq::<Projectile>::empty());
        assert(homing(orig.take(0), alive@) =~= Seq::<Projectile>::empty());
    }
    while projectiles.len() > 0
        invariant
            orig.len() == orig_len,
            orig.len() == i + projectiles@.len(),
            projectiles@ =~= orig.skip(i as int),
            kept@ == homing(orig.take(i as int), alive@),
        decreases projectiles@.len(),
    {
        let p = projectiles.remove(0);
        proof {
            assert(p == orig[i as int]);
            assert(projectiles@ =~= orig.skip(i as int + 1));
            let s = orig.take(i as int + 1);
            assert(s.drop_last() =~= orig.take(i as int));
            assert(s.last() == orig[i as int]);
            reveal_with_fuel(Seq::filter, 2);
            assert(homing(s, alive@) == if alive@.contains(s.last().target) {
                homing(s.drop_last(), alive@).push(s.last())
            } else {
                homing(s.drop_last(), alive@)
            });
        }
        if contains_id(alive, p.target) {
            kept.push(p);
        }
        i = i + 1;
    }
    proof {
        assert(orig.take(orig.len() as int) =~= orig);
    }
    *projectiles = kept;
}

/// The enemies that have not reached the goal, in their order. The flags
/// run parallel to the enemies: `reached[i]` says whether enemy `i`
/// stands at the goal.
pub open spec fn short_of_goal(es: Seq<Enemy>, reached: Seq<bool>) -> Seq<Enemy>
    decreases es.len(),
{
    if es.len() == 0 {
        Seq::empty()
    } else {
        let rest = short_of_goal(es.drop_last(), reached.drop_last());
        if reached[es.len() - 1] {
            rest
        } else {
            rest.push(es.last())
        }
    }
}

/// Sweep the goal line: every enemy flagged as having reached the goal
/// leaves the field, the rest keep their order. The game measures the
/// distances; this settles who goes.
pub fn enemy_goal_collision(enemies: &mut Vec<Enemy>, reached: &Vec<bool>)
    requires
        old(enemies)@.len() == reached@.len(),
    ensures
        final(enemies)@ == short_of_goal(old(enemies)@, reached@),
{
    let ghost orig = enemies@;
    let orig_len: usize = enemies.len();
    let mut kept: Vec<Enemy> = Vec::new();
    let mut i: usize = 0;
    proof {
        assert(orig.take(0) =~= Seq::<Enemy>::empty());
        assert(reached@.take(0) =~= Seq::<bool>::empty());
    }
    while enemies.len() > 0
        invariant
            orig.len() == orig_len,
            orig.len() == reached@.len(),
            orig.len() == i + enemies@.len(),
            enemies@ =~= orig.skip(i as int),
            kept@ == short_of_goal(orig.take(i as int), reached@.take(i as int)),
        decreases enemies@.len(),
    {
        let e = enemies.remove(0);
        proof {
            assert(e == orig[i as int]);
            assert(enemies@ =~= orig.skip(i as int + 1));
            let s = orig.take(i as int + 1);
            let fl = reached@.take(i as int + 1);
            assert(s.drop_last() =~= orig.take(i as int));
            assert(fl.drop_last() =~= reached@.take(i as int));
            assert(s.last() == orig[i as int]);
            assert(fl[s.len() - 1] == reached@[i as int]);
        }
        if !reached[i] {
            kept.push(e);
        }
        i = i + 1;
    }
    proof {
        assert(orig.take(orig.len() as int) =~= orig);
        assert(reached@.take(reached@.len() as int) =~= reached@);
    }
    *enemies = kept;
}

/// One frame of the wave clock: it advances, and the wave gives way to
/// the next economy phase once its time is up and the field is clear.
pub fn end_wave(
    wave: &mut TickTimer,
    delta_ms: u64,
    enemies_alive: usize,
    phase: &mut GamePlayState,
)
    requires
        old(wave).wf(),
        old(wave).elapsed_ms + delta_ms <= u64::MAX,
        *old(phase) == GamePlayState::Wave,
    ensures
        *final(wave) == old(wave).spec_tick(delta_ms),
        *final(phase) == if old(wave).spec_tick(delta_ms).spec_finished() && enemies_alive == 0 {
            GamePlayState::Economy
        } else {
            GamePlayState::Wave
        },
{
    wave.tick(delta_ms);
    if wave.finished() && enemies_alive == 0 {
        *phase = GamePlayState::Economy;
    }
}

} // verus!
