use dice_td::game::economy::{choose_die, start_rolling, DieShop, Economy, EconomyAction};
use dice_td::game::{BaseElementType, GamePlayState};

#[test]
fn a_new_game_opens_with_fifty_money() {
    let eco = Economy::starting();
    assert_eq!(eco.money, 50);
}

#[test]
fn the_standard_shop_sells_one_die_per_element() {
    let shop = DieShop::standard();
    assert_eq!(shop.items.len(), 4);
    assert_eq!(shop.highlighted, 0);
    let elements = [
        BaseElementType::Fire,
        BaseElementType::Water,
        BaseElementType::Earth,
        BaseElementType::Wind,
    ];
    for (die, element) in shop.items.iter().zip(elements.iter()) {
        assert_eq!(die.value, 10);
        for face in die.faces.iter() {
            assert_eq!(face.primary_type, *element);
        }
    }
}

#[test]
fn shop_toggles_wrap_around() {
    let mut shop = DieShop::standard();
    let mut eco = Economy::starting();
    choose_die(EconomyAction::ToggleDieLeft, &mut shop, &mut eco);
    assert_eq!(shop.highlighted, 3);
    choose_die(EconomyAction::ToggleDieRight, &mut shop, &mut eco);
    assert_eq!(shop.highlighted, 0);
    choose_die(EconomyAction::ToggleDieRight, &mut shop, &mut eco);
    assert_eq!(shop.highlighted, 1);
    assert_eq!(eco.money, 50);
}

#[test]
fn buying_takes_the_cost_and_hands_the_die_over() {
    let mut shop = DieShop::standard();
    let mut eco = Economy::starting();
    choose_die(EconomyAction::ToggleDieRight, &mut shop, &mut eco);
    let bought = choose_die(EconomyAction::BuyDie, &mut shop, &mut eco);
    assert_eq!(eco.money, 40);
    let die = bought.expect("an affordable die is sold");
    assert_eq!(die.faces[0].primary_type, BaseElementType::Water);
    // the shelf keeps its stock
    assert_eq!(shop.items.len(), 4);
}

#[test]
fn a_player_short_of_money_buys_nothing() {
    let mut shop = DieShop::standard();
    let mut eco = Economy { money: 9 };
    let bought = choose_die(EconomyAction::BuyDie, &mut shop, &mut eco);
    assert!(bought.is_none());
    assert_eq!(eco.money, 9);
}

#[test]
fn leaving_the_shop_starts_the_rolling_phase() {
    let mut phase = GamePlayState::Economy;
    start_rolling(EconomyAction::BuyDie, &mut phase);
    assert_eq!(phase, GamePlayState::Economy);
    start_rolling(EconomyAction::PlacementPhase, &mut phase);
    assert_eq!(phase, GamePlayState::Rolling);
}
