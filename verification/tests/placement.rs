use dice_td::game::placement::{place_tower, start_wave, ATTACK_PERIOD_MS, WAVE_DURATION_MS};
use dice_td::game::{
    die_rolled, select_tower, BaseElementType, DieFace, GamePlayState, Rarity, TowerDetails,
    TowerPool,
};

fn catalog() -> Vec<TowerDetails> {
    vec![
        TowerDetails {
            name: String::from("Flame Spire"),
            cost: 30,
            element_type: BaseElementType::Fire,
        },
        TowerDetails {
            name: String::from("Tide Pillar"),
            cost: 25,
            element_type: BaseElementType::Water,
        },
        TowerDetails {
            name: String::from("Gale Post"),
            cost: 20,
            element_type: BaseElementType::Wind,
        },
    ]
}

#[test]
fn selection_finds_the_only_matching_tower() {
    let catalog = catalog();
    let id = select_tower(&catalog, BaseElementType::Water);
    assert_eq!(id, Some(1));
}

#[test]
fn selection_reports_a_missing_element() {
    let catalog = catalog();
    assert_eq!(select_tower(&catalog, BaseElementType::Earth), None);
}

#[test]
fn selection_only_picks_the_asked_element() {
    let catalog = catalog();
    for _ in 0..20 {
        let id = select_tower(&catalog, BaseElementType::Fire)
            .expect("a fire tower is in the catalog");
        assert_eq!(catalog[id].element_type, BaseElementType::Fire);
    }
}

#[test]
fn a_rolled_face_adds_a_matching_tower_to_the_pool() {
    let catalog = catalog();
    let mut pool = TowerPool::new();
    let face = DieFace { primary_type: BaseElementType::Wind, rarity: Rarity::Common };
    let added = die_rolled(&face, &catalog, &mut pool);
    assert_eq!(added, Some(2));
    assert_eq!(pool.towers, vec![2]);

    let blank = DieFace { primary_type: BaseElementType::Neutral, rarity: Rarity::Common };
    let added = die_rolled(&blank, &catalog, &mut pool);
    assert_eq!(added, None);
    assert_eq!(pool.towers, vec![2]);
}

#[test]
fn toggling_the_tower_pool_wraps_and_ignores_an_empty_pool() {
    let mut pool = TowerPool::new();
    pool.toggle_highlighted();
    assert_eq!(pool.highlighted, 0);
    pool.add_tower(0);
    pool.add_tower(1);
    pool.toggle_highlighted();
    assert_eq!(pool.highlighted, 1);
    pool.toggle_highlighted();
    assert_eq!(pool.highlighted, 0);
}

#[test]
fn placing_builds_the_highlighted_tower_from_its_record() {
    let catalog = catalog();
    let mut pool = TowerPool::new();
    pool.add_tower(0);
    pool.add_tower(2);
    pool.toggle_highlighted();
    let placed = place_tower(true, &mut pool, &catalog);
    let tower = placed.expect("pressing the button places a tower");
    assert_eq!(tower.name, "Gale Post");
    assert_eq!(tower.element_type, BaseElementType::Wind);
    assert_eq!(tower.attack_speed.duration_ms, ATTACK_PERIOD_MS);
    assert!(tower.attack_speed.repeating);
    assert_eq!(pool.towers, vec![0]);
    assert_eq!(pool.highlighted, 0);
}

#[test]
fn placing_without_the_button_changes_nothing() {
    let catalog = catalog();
    let mut pool = TowerPool::new();
    pool.add_tower(1);
    let placed = place_tower(false, &mut pool, &catalog);
    assert!(placed.is_none());
    assert_eq!(pool.towers, vec![1]);
}

#[test]
fn ending_placement_starts_the_wave_clock() {
    let mut phase = GamePlayState::Placement;
    let wave = start_wave(false, &mut phase);
    assert!(wave.is_none());
    assert_eq!(phase, GamePlayState::Placement);
    let wave = start_wave(true, &mut phase);
    assert_eq!(phase, GamePlayState::Wave);
    let timer = wave.expect("a wave timer starts");
    assert_eq!(timer.duration_ms, WAVE_DURATION_MS);
    assert!(!timer.repeating);
    assert_eq!(timer.elapsed_ms, 0);
}
