use vstd::prelude::*;

use crate::game::{BaseElementType, GamePlayState, TowerDetails, TowerPool};
use crate::timer::TickTimer;

verus! {

/// How long a placed tower waits between shots.
pub const ATTACK_PERIOD_MS: u64 = 1000;

/// How long a wave lasts before it can end.
pub const WAVE_DURATION_MS: u64 = 20000;

/// A tower standing on the field.
#[derive(Clone, Debug)]
pub struct Tower {
    pub name: String,
    pub element_type: BaseElementType,
    pub attack_speed: TickTimer,
}

/// A shot in flight toward one enemy.
#[derive(Clone, Copy, PartialEq, Eq, Structural, Debug)]
pub struct Projectile {
    pub damage: u32,
    pub target: usize,
    pub lifetime: TickTimer,
}

/// Placing the highlighted tower: when the player pressed the button, the
/// highlighted entry leaves the pool and becomes a tower on the field,
/// built from its catalog record, with its attack timer wound up.
pub fn place_tower(pressed: bool, pool: &mut TowerPool, catalog: &Vec<TowerDetails>) -> (placed:
    Option<Tower>)
    requires
        old(pool).wf(),
        old(pool).in_catalog(catalog@.len() as int),
        pressed ==> old(pool).towers@.len() > 0,
    ensures
        final(pool).wf(),
        final(pool).in_catalog(catalog@.len() as int),
        if pressed {
            let id = old(pool).towers@[old(pool).highlighted as int];
            &&& final(pool).towers@ == old(pool).towers@.remove(old(pool).highlighted as int)
            &&& placed matches Some(t) && {
                &&& t.name@ == catalog@[id as int].name@
                &&& t.element_type == catalog@[id as int].element_type
                &&& t.attack_speed == (TickTimer {
                    duration_ms: ATTACK_PERIOD_MS,
                    elapsed_ms: 0u64,
                    repeating: true,
                    finished_this_tick: false,
                })
            }
        } else {
            &&& *final(pool) == *old(pool)
            &&& placed is None
        },
{
    if !pressed {
        return None;
    }
    let id: usize = pool.take_highlighted();
    let details = &catalog[id];
    Some(
        Tower {
            name: details.name.clone(),
            element_type: details.element_type,
            attack_speed: TickTimer::new(ATTACK_PERIOD_MS, true),
        },
    )
}

/// Ending placement: when the player pressed the button, the phase moves
/// on to the wave and its timer starts running.
pub fn start_wave(pressed: bool, phase: &mut GamePlayState) -> (wave: Option<TickTimer>)
    requires
        *old(phase) == GamePlayState::Placement,
    ensures
        if pressed {
            &&& *final(phase) == GamePlayState::Wave
            &&& wave == Some(
                TickTimer {
                    duration_ms: WAVE_DURATION_MS,
                    elapsed_ms: 0u64,
                    repeating: false,
                    finished_this_tick: false,
                },
            )
        } else {
            &&& *final(phase) == GamePlayState::Placement
            &&& wave is None
        },
{
    if !pressed {
        return None;
    }
    *phase = GamePlayState::Wave;
    Some(TickTimer::new(WAVE_DURATION_MS, false))
}

} // verus!
