use minimal::craft::{make_hashbag, within_range, Component, MinimalGameState, Skill};

#[test]
fn each_skill_kind_is_its_own_one_item_recipe() {
    let cases = [
        (Component::Attack, "Attack", "Deal 80% of Red power as Red damage"),
        (Component::Block, "Block", "no idea tbh"),
        (Component::Buff, "Buff", "no idea tbh 2"),
        (Component::Debuff, "Debuff", "no idea tbh 3"),
        (Component::Stun, "Stun", "no idea tbh 4"),
    ];
    for (component, name, description) in cases {
        let bag = make_hashbag(&vec![component]);
        let skill = Skill::craft(&bag).unwrap();
        assert_eq!(skill.name, name);
        assert_eq!(skill.description, description);
    }
}

#[test]
fn craft_returns_none_for_a_color() {
    let bag = make_hashbag(&vec![Component::Red]);
    assert!(Skill::craft(&bag).is_none());
}

#[test]
fn craft_returns_none_for_the_empty_multiset() {
    let bag = make_hashbag(&Vec::new());
    assert!(Skill::craft(&bag).is_none());
}

#[test]
fn craft_is_exact_multiset_matching_not_superset() {
    // one extra copy of a matching component no longer matches
    let bag = make_hashbag(&vec![Component::Attack, Component::Attack]);
    assert!(Skill::craft(&bag).is_none());
    let bag = make_hashbag(&vec![Component::Attack, Component::Red]);
    assert!(Skill::craft(&bag).is_none());
}

#[test]
fn craft_ignores_insertion_order() {
    let a = make_hashbag(&vec![Component::Stun]);
    let skill = Skill::craft(&a).unwrap();
    assert_eq!(skill.name, "Stun");
}

#[test]
fn recipe_table_has_five_entries() {
    let recipes = Skill::get_all_recipes();
    assert_eq!(recipes.len(), 5);
    let names: Vec<&str> = recipes.iter().map(|s| s.name.as_str()).collect();
    assert_eq!(names, vec!["Attack", "Block", "Buff", "Debuff", "Stun"]);
}

#[test]
fn descriptions_of_skill_components_equal_their_recipes() {
    let skill = Skill::craft(&make_hashbag(&vec![Component::Debuff])).unwrap();
    assert_eq!(Component::Debuff.get_description(), skill.description);
}

#[test]
fn color_descriptions_are_fixed() {
    assert_eq!(
        Component::Red.get_description(),
        "Fast speed, physical type. Chaos and momentum."
    );
    assert_eq!(
        Component::Green.get_description(),
        "Normal speed, healing type. Protection and trickery."
    );
    assert_eq!(
        Component::Blue.get_description(),
        "Slow speed, magical type. Deterrents and destruction."
    );
}

#[test]
fn names_and_colors_and_costs() {
    assert_eq!(Component::Red.to_string(), "Red");
    assert_eq!(Component::Stun.to_string(), "Stun");
    assert!(Component::Red.is_color());
    assert!(Component::Green.is_color());
    assert!(Component::Blue.is_color());
    assert!(!Component::Attack.is_color());
    assert!(!Component::Stun.is_color());
    assert_eq!(Component::Red.get_cost(), 1);
    assert_eq!(Component::Blue.get_cost(), 1);
    assert_eq!(Component::Attack.get_cost(), 2);
    assert_eq!(Component::Debuff.get_cost(), 2);
}

#[test]
fn new_game_state_has_six_colors_three_skills_forty_bits() {
    let state = MinimalGameState::new();
    assert_eq!(state.vbox.len(), 9);
    for component in &state.vbox[..6] {
        assert!(component.is_color());
    }
    for component in &state.vbox[6..] {
        assert!(!component.is_color());
    }
    assert_eq!(state.bits, 40);
}

#[test]
fn random_components_land_in_their_groups() {
    for _ in 0..32 {
        assert!(Component::random_color().is_color());
        assert!(!Component::random_skill().is_color());
    }
}

#[test]
fn within_range_checks_column_and_row_span() {
    assert!(within_range(11, 14, 4, 1, 16, 1));
    assert!(!within_range(11, 14, 4, 1, 12, 1));
    assert!(within_range(11, 14, 0, 1, 11, 1));
    assert!(within_range(11, 14, 0, 1, 14, 1));
    assert!(!within_range(11, 14, 0, 1, 10, 1));
    assert!(!within_range(11, 14, 0, 1, 15, 1));
    assert!(!within_range(11, 14, 0, 2, 12, 1));
}
