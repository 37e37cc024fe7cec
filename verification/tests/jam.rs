use jam_engine::button::ButtonPressedEvent;
use jam_engine::geom::Point2;
use jam_engine::jam::{covers, order_fulfilled, CauldronContents, JamEffect, JamIngredient, Rgb};
use jam_engine::resolve::DroppedOntoEvent;

#[test]
fn every_ingredient_and_effect_is_listed() {
    assert_eq!(JamIngredient::all().len(), 16);
    assert_eq!(JamEffect::all().len(), 13);
    assert_eq!(JamIngredient::all()[0], JamIngredient::Petrol);
    assert_eq!(JamEffect::all()[0], JamEffect::NightVision);
}

#[test]
fn ingredient_tables_match_the_recipe_book() {
    assert_eq!(JamIngredient::Petrol.name(), "Petrol");
    assert_eq!(JamIngredient::GunPowder.name(), "Gun powder");
    assert_eq!(JamIngredient::Sakura.asset_path(), "sprites/sakura.png");
    assert_eq!(JamIngredient::Urine.colour(), Rgb { r: 255, g: 172, b: 0 });
    assert_eq!(JamIngredient::Petrol.initial_position(), Point2 { x: -280, y: 250 });
    assert_eq!(JamIngredient::Sakura.initial_position(), Point2 { x: 280, y: 170 });
    assert_eq!(JamIngredient::Petrol.effects(), vec![
        JamEffect::SuperHumanStrength,
        JamEffect::Flammable,
    ]);
    assert_eq!(JamIngredient::AppleSeeds.effects(), vec![JamEffect::Poison]);
}

#[test]
fn effect_tables_match_the_jam_book() {
    assert_eq!(JamEffect::NightVision.name(), "Night vision");
    assert_eq!(JamEffect::SuperHumanStrength.description(), "HULK! SMASH!");
    assert_eq!(JamEffect::GreaterHeal.asset_path(), "sprites/heal.png");
}

#[test]
fn an_effect_emerges_only_when_two_ingredients_carry_it() {
    // a single carrier is not enough
    assert!(JamIngredient::calculate_effects(&vec![JamIngredient::Petrol]).is_empty());
    // two carriers of the same pair: both effects emerge, in book order
    assert_eq!(
        JamIngredient::calculate_effects(&vec![JamIngredient::Petrol, JamIngredient::Absinth]),
        vec![JamEffect::SuperHumanStrength, JamEffect::Flammable]
    );
    // two ingredients with disjoint effects: nothing emerges
    assert!(JamIngredient::calculate_effects(&vec![
        JamIngredient::Sugar,
        JamIngredient::Salt,
    ])
    .is_empty());
    // poison carried by apple seeds and motor oil
    assert_eq!(
        JamIngredient::calculate_effects(&vec![
            JamIngredient::AppleSeeds,
            JamIngredient::MotorOil,
        ]),
        vec![JamEffect::Poison]
    );
    // the same ingredient twice counts with multiplicity
    assert_eq!(
        JamIngredient::calculate_effects(&vec![JamIngredient::Sugar, JamIngredient::Sugar]),
        vec![JamEffect::Invisibility]
    );
}

#[test]
fn covers_checks_every_requirement() {
    let effects = vec![JamEffect::Poison, JamEffect::Speed];
    assert!(covers(&effects, &vec![]));
    assert!(covers(&effects, &vec![JamEffect::Speed]));
    assert!(covers(&effects, &vec![JamEffect::Speed, JamEffect::Poison]));
    assert!(!covers(&effects, &vec![JamEffect::Speed, JamEffect::Flight]));
}

#[test]
fn an_order_is_fulfilled_by_the_emerged_effects_only() {
    let mix = vec![JamIngredient::GunPowder, JamIngredient::MotorOil, JamIngredient::Damsons];
    // speed is carried by gun powder and motor oil, flight by gun powder
    // and damsons; poison only by motor oil
    assert!(order_fulfilled(&mix, &vec![JamEffect::Speed, JamEffect::Flight]));
    assert!(!order_fulfilled(&mix, &vec![JamEffect::Poison]));
    assert!(order_fulfilled(&mix, &vec![]));
}

#[test]
fn cauldron_absorbs_only_tagged_drops_onto_itself() {
    let mut contents = CauldronContents::new();
    let tags = vec![(3, JamIngredient::Lemons), (4, JamIngredient::Strawberries)];
    let cauldron = 50;
    contents.absorb_drops(
        &vec![
            DroppedOntoEvent { src: 3, dst: cauldron },
            DroppedOntoEvent { src: 4, dst: 77 },
            DroppedOntoEvent { src: 99, dst: cauldron },
            DroppedOntoEvent { src: 4, dst: cauldron },
        ],
        &tags,
        cauldron,
    );
    assert_eq!(contents.0, vec![JamIngredient::Lemons, JamIngredient::Strawberries]);
}

#[test]
fn clear_button_empties_the_cauldron() {
    let mut contents = CauldronContents::new();
    contents.absorb_drops(
        &vec![DroppedOntoEvent { src: 3, dst: 50 }],
        &vec![(3, JamIngredient::Lemons)],
        50,
    );
    assert_eq!(contents.0.len(), 1);
    contents.clear_on_button(&vec![ButtonPressedEvent(8)], 9);
    assert_eq!(contents.0.len(), 1);
    contents.clear_on_button(&vec![ButtonPressedEvent(8), ButtonPressedEvent(9)], 9);
    assert!(contents.0.is_empty());
}
