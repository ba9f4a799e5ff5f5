use dice_td::game::{BaseElementType, DieBuilder, DieFace, DiePool, Rarity};

#[test]
fn builder_makes_six_common_faces_of_one_element() {
    let die = DieBuilder::from_type(BaseElementType::Earth).build();
    assert_eq!(die.value, 10);
    for face in die.faces.iter() {
        assert_eq!(
            *face,
            DieFace { primary_type: BaseElementType::Earth, rarity: Rarity::Common }
        );
    }
}

#[test]
fn rolling_a_single_element_die_lands_on_its_element() {
    let die = DieBuilder::from_type(BaseElementType::Fire).build();
    // every face is the same, so whatever index the roll draws, the
    // outcome is pinned down
    for _ in 0..20 {
        let face = die.roll();
        assert_eq!(face.primary_type, BaseElementType::Fire);
        assert_eq!(face.rarity, Rarity::Common);
    }
}

#[test]
fn pool_highlight_wraps_both_ways() {
    let mut pool = DiePool::new();
    pool.add_die(DieBuilder::from_type(BaseElementType::Fire).build());
    pool.add_die(DieBuilder::from_type(BaseElementType::Water).build());
    pool.add_die(DieBuilder::from_type(BaseElementType::Wind).build());
    assert_eq!(pool.highlighted, 0);
    pool.highlight_left();
    assert_eq!(pool.highlighted, 2);
    pool.highlight_right();
    assert_eq!(pool.highlighted, 0);
    pool.highlight_right();
    assert_eq!(pool.highlighted, 1);
}

#[test]
fn rolling_consumes_the_highlighted_die() {
    let mut pool = DiePool::new();
    pool.add_die(DieBuilder::from_type(BaseElementType::Fire).build());
    pool.add_die(DieBuilder::from_type(BaseElementType::Water).build());
    pool.highlight_right();
    let face = pool.roll();
    assert_eq!(face.primary_type, BaseElementType::Water);
    assert_eq!(pool.dice.len(), 1);
    assert_eq!(pool.highlighted, 0);
    assert_eq!(pool.dice[0].faces[0].primary_type, BaseElementType::Fire);
}

#[test]
fn die_label_lists_all_faces() {
    let die = DieBuilder::from_type(BaseElementType::Water).build();
    assert_eq!(
        die.label(),
        "Die with faces: Water,Water,Water,Water,Water,Water"
    );
}

#[test]
fn element_labels() {
    assert_eq!(BaseElementType::Neutral.label(), "None");
    assert_eq!(BaseElementType::Fire.label(), "Fire");
    assert_eq!(BaseElementType::Water.label(), "Water");
    assert_eq!(BaseElementType::Earth.label(), "Earth");
    assert_eq!(BaseElementType::Wind.label(), "Wind");
}
