use dice_td::game::economy::{choose_die, start_rolling, DieShop, Economy, EconomyAction};
use dice_td::game::placement::{place_tower, start_wave};
use dice_td::game::roll::{handle_input, RollAction};
use dice_td::game::wave::{end_wave, Enemy};
use dice_td::game::{die_rolled, BaseElementType, DiePool, GamePlayState, TowerDetails, TowerPool};
use dice_td::timer::TickTimer;

#[test]
fn one_round_from_the_shop_back_to_the_shop() {
    let catalog = vec![TowerDetails {
        name: String::from("Flame Spire"),
        cost: 30,
        element_type: BaseElementType::Fire,
    }];
    let mut phase = GamePlayState::Economy;
    let mut eco = Economy::starting();
    let mut shop = DieShop::standard();
    let mut dice = DiePool::new();
    let mut won = TowerPool::new();

    // buy the fire die and move on
    let die = choose_die(EconomyAction::BuyDie, &mut shop, &mut eco)
        .expect("fifty money buys a ten-money die");
    dice.add_die(die);
    assert_eq!(eco.money, 40);
    start_rolling(EconomyAction::PlacementPhase, &mut phase);
    assert_eq!(phase, GamePlayState::Rolling);

    // roll it: a fire die grants a fire tower
    let face = handle_input(RollAction::Roll, &mut dice, &mut phase)
        .expect("a roll reports its face");
    assert_eq!(face.primary_type, BaseElementType::Fire);
    let added = die_rolled(&face, &catalog, &mut won);
    assert_eq!(added, Some(0));
    handle_input(RollAction::Placement, &mut dice, &mut phase);
    assert_eq!(phase, GamePlayState::Placement);

    // place it and start the wave
    let tower = place_tower(true, &mut won, &catalog).expect("a won tower can be placed");
    assert_eq!(tower.name, "Flame Spire");
    assert!(won.towers.is_empty());
    let wave = start_wave(true, &mut phase).expect("ending placement starts the wave");
    assert_eq!(phase, GamePlayState::Wave);

    // the field stays clear, so once the clock runs out the shop reopens
    let mut wave: TickTimer = wave;
    let no_enemies: Vec<Enemy> = Vec::new();
    end_wave(&mut wave, 20000, no_enemies.len(), &mut phase);
    assert_eq!(phase, GamePlayState::Economy);
}
