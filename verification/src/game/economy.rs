use vstd::prelude::*;

use crate::game::{BaseElementType, Die, DieBuilder, DieFace, GamePlayState, Rarity};

verus! {

/// The player's funds, spent on dice and earned back from kills.
#[derive(Clone, Copy, PartialEq, Eq, Structural, Debug)]
pub struct Economy {
    pub money: usize,
}

impl Economy {
    /// A new game opens with 50 money.
    pub fn starting() -> (e: Self)
        ensures
            e.money == 50,
    {
        Economy { money: 50 }
    }
}

/// All six faces of the die share one element at common rarity, and the
/// die is priced at its standard value.
pub open spec fn mono_die(d: Die, t: BaseElementType) -> bool {
    &&& d.value == 10
    &&& forall|i: int|
        0 <= i < 6 ==> d.faces[i] == (DieFace { primary_type: t, rarity: Rarity::Common })
}

/// The dice on sale, with a highlight cursor over one of them. The shop
/// never sells out: its shelf keeps at least one die.
#[derive(Clone, Debug)]
pub struct DieShop {
    pub items: Vec<Die>,
    pub highlighted: usize,
}

impl DieShop {
    pub open spec fn wf(self) -> bool {
        &&& self.items@.len() > 0
        &&& self.highlighted < self.items@.len()
    }

    /// The shelf every game opens with: one single-element die for each of
    /// the four elements, in the order fire, water, earth, wind.
    pub fn standard() -> (s: Self)
        ensures
            s.wf(),
            s.highlighted == 0,
            s.items@.len() == 4,
            mono_die(s.items@[0], BaseElementType::Fire),
            mono_die(s.items@[1], BaseElementType::Water),
            mono_die(s.items@[2], BaseElementType::Earth),
            mono_die(s.items@[3], BaseElementType::Wind),
    {
        let mut items: Vec<Die> = Vec::new();
        items.push(DieBuilder::from_type(BaseElementType::Fire).build());
        items.push(DieBuilder::from_type(BaseElementType::Water).build());
        items.push(DieBuilder::from_type(BaseElementType::Earth).build());
        items.push(DieBuilder::from_type(BaseElementType::Wind).build());
        DieShop { items, highlighted: 0 }
    }
}

/// What the player can do while the economy phase is on.
#[derive(Clone, Copy, PartialEq, Eq, Structural, Debug, Hash)]
pub enum EconomyAction {
    ToggleDieLeft,
    ToggleDieRight,
    BuyDie,
    PlacementPhase,
}

/// One economy-phase input: the toggles move the shop highlight, and a buy
/// takes the highlighted die's cost out of the player's funds and hands
/// the die over — unless the player cannot afford it, in which case
/// nothing changes. The returned die is the purchase, ready to join the
/// player's pool.
pub fn choose_die(action: EconomyAction, shop: &mut DieShop, economy: &mut Economy) -> (purchase:
    Option<Die>)
    requires
        old(shop).wf(),
        old(shop).highlighted + old(shop).items@.len() <= usize::MAX,
    ensures
        final(shop).items@ == old(shop).items@,
        final(shop).wf(),
        match action {
            EconomyAction::ToggleDieLeft => {
                &&& final(shop).highlighted == (old(shop).highlighted + old(shop).items@.len() - 1)
                    % (old(shop).items@.len() as int)
                &&& *final(economy) == *old(economy)
                &&& purchase is None
            },
            EconomyAction::ToggleDieRight => {
                &&& final(shop).highlighted == (old(shop).highlighted + 1) % (
                old(shop).items@.len() as int)
                &&& *final(economy) == *old(economy)
                &&& purchase is None
            },
            EconomyAction::BuyDie => {
                let cost = old(shop).items@[old(shop).highlighted as int].value;
                &&& final(shop).highlighted == old(shop).highlighted
                &&& if old(economy).money < cost {
                    &&& *final(economy) == *old(economy)
                    &&& purchase is None
                } else {
                    &&& final(economy).money == old(economy).money - cost
                    &&& purchase == Some(old(shop).items@[old(shop).highlighted as int])
                }
            },
            EconomyAction::PlacementPhase => {
                &&& final(shop).highlighted == old(shop).highlighted
                &&& *final(economy) == *old(economy)
                &&& purchase is None
            },
        },
{
    match action {
        EconomyAction::ToggleDieLeft => {
            let n: usize = shop.items.len();
            shop.highlighted = (shop.highlighted + n - 1) % n;
            None
        },
        EconomyAction::ToggleDieRight => {
            let n: usize = shop.items.len();
            shop.highlighted = (shop.highlighted + 1) % n;
            None
        },
        EconomyAction::BuyDie => {
            let cost: usize = shop.items[shop.highlighted].value;
            if economy.money < cost {
                None
            } else {
                economy.money = economy.money - cost;
                Some(shop.items[shop.highlighted])
            }
        },
        EconomyAction::PlacementPhase => None,
    }
}

/// Leaving the shop: the phase moves on to rolling exactly when the
/// player asked for it.
pub fn start_rolling(action: EconomyAction, phase: &mut GamePlayState)
    requires
        *old(phase) == GamePlayState::Economy,
    ensures
        *final(phase) == match action {
            EconomyAction::PlacementPhase => GamePlayState::Rolling,
            _ => GamePlayState::Economy,
        },
{
    match action {
        EconomyAction::PlacementPhase => {
            *phase = GamePlayState::Rolling;
        },
        _ => {},
    }
}

} // verus!
