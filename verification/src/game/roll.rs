use vstd::prelude::*;

use crate::game::{DieFace, DiePool, GamePlayState};

verus! {

/// What the player can do while the rolling phase is on.
#[derive(Clone, Copy, PartialEq, Eq, Structural, Debug, Hash)]
pub enum RollAction {
    HighlightLeft,
    HighlightRight,
    Roll,
    Placement,
}

/// One rolling-phase input: the toggles move the highlight through the
/// pool, a roll consumes the highlighted die and reports the face it
/// landed on, and the player may move on to placement at any time.
///
/// The toggles and the roll read the pool, so they ask for a non-empty
/// one, as the game only offers them when dice are there.
pub fn handle_input(action: RollAction, pool: &mut DiePool, phase: &mut GamePlayState) -> (rolled:
    Option<DieFace>)
    requires
        old(pool).wf(),
        *old(phase) == GamePlayState::Rolling,
        !(action is Placement) ==> old(pool).dice@.len() > 0,
        old(pool).highlighted + old(pool).dice@.len() <= usize::MAX,
    ensures
        final(pool).wf(),
        match action {
            RollAction::HighlightLeft => {
                &&& final(pool).dice@ == old(pool).dice@
                &&& final(pool).highlighted == (old(pool).highlighted + old(pool).dice@.len() - 1)
                    % (old(pool).dice@.len() as int)
                &&& rolled is None
                &&& *final(phase) == *old(phase)
            },
            RollAction::HighlightRight => {
                &&& final(pool).dice@ == old(pool).dice@
                &&& final(pool).highlighted == (old(pool).highlighted + 1) % (
                old(pool).dice@.len() as int)
                &&& rolled is None
                &&& *final(phase) == *old(phase)
            },
            RollAction::Roll => {
                &&& final(pool).dice@ == old(pool).dice@.remove(old(pool).highlighted as int)
                &&& final(pool).highlighted == 0
                &&& rolled matches Some(f) && (exists|i: int|
                    0 <= i < 6 && f == old(pool).dice@[old(pool).highlighted as int].faces[i])
                &&& *final(phase) == *old(phase)
            },
            RollAction::Placement => {
                &&& *final(pool) == *old(pool)
                &&& rolled is None
                &&& *final(phase) == GamePlayState::Placement
            },
        },
{
    match action {
        RollAction::HighlightLeft => {
            pool.highlight_left();
            None
        },
        RollAction::HighlightRight => {
            pool.highlight_right();
            None
        },
        RollAction::Roll => {
            let face = pool.roll();
            Some(face)
        },
        RollAction::Placement => {
            *phase = GamePlayState::Placement;
            None
        },
    }
}

/// Roll the highlighted die straight away and move on to placement, for
/// the variant of the phase that rolls without waiting for input.
pub fn roll_dice(pool: &mut DiePool, phase: &mut GamePlayState) -> (rolled: DieFace)
    requires
        old(pool).wf(),
        old(pool).dice@.len() > 0,
        *old(phase) == GamePlayState::Rolling,
    ensures
        final(pool).dice@ == old(pool).dice@.remove(old(pool).highlighted as int),
        final(pool).highlighted == 0,
        final(pool).wf(),
        exists|i: int|
            0 <= i < 6 && rolled == old(pool).dice@[old(pool).highlighted as int].faces[i],
        *final(phase) == GamePlayState::Placement,
{
    let face = pool.roll();
    *phase = GamePlayState::Placement;
    face
}

} // verus!
