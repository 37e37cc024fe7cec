//! The jam domain data: ingredients, effects, the recipe rule that an
//! effect emerges when at least two ingredients carry it, and the
//! cauldron's accumulated contents.

use vstd::prelude::*;

use crate::button::ButtonPressedEvent;
use crate::geom::Point2;
use crate::resolve::DroppedOntoEvent;

verus! {

/// A colour as red, green and blue channels, one byte each.
#[derive(Clone, Copy, Debug, PartialEq, Eq, Structural)]
pub struct Rgb {
    pub r: u8,
    pub g: u8,
    pub b: u8,
}

/// An ingredient that can be mixed into the cauldron.
#[derive(Clone, Copy, Debug, PartialEq, Eq, Hash, Structural)]
pub enum JamIngredient {
    Petrol,
    Urine,
    GunPowder,
    BathWater,
    AppleSeeds,
    Strawberries,
    Lemons,
    Damsons,
    HumanFlesh,
    MotorOil,
    Absinth,
    Bleach,
    Sand,
    Sugar,
    Salt,
    Sakura,
}

/// An effect a finished jam can have.
#[derive(Clone, Copy, Debug, PartialEq, Eq, Hash, Structural)]
pub enum JamEffect {
    NightVision,
    SuperHumanStrength,
    Poison,
    Hunger,
    GreaterHeal,
    CureDisease,
    Antivenom,
    Coagulant,
    Flammable,
    Invisibility,
    Speed,
    Flight,
    HideousLaughter,
}

impl JamIngredient {
    /// The effects this ingredient carries.
    pub open spec fn spec_effects(self) -> Seq<JamEffect> {
        match self {
            JamIngredient::Petrol => seq![JamEffect::SuperHumanStrength, JamEffect::Flammable],
            JamIngredient::Urine => seq![JamEffect::NightVision, JamEffect::HideousLaughter],
            JamIngredient::GunPowder => seq![JamEffect::Flight, JamEffect::Speed],
            JamIngredient::BathWater => seq![JamEffect::GreaterHeal, JamEffect::CureDisease],
            JamIngredient::AppleSeeds => seq![JamEffect::Poison],
            JamIngredient::Strawberries => seq![JamEffect::CureDisease],
            JamIngredient::Lemons => seq![JamEffect::GreaterHeal],
            JamIngredient::Damsons => seq![JamEffect::Flight],
            JamIngredient::HumanFlesh => seq![JamEffect::Hunger, JamEffect::Coagulant],
            JamIngredient::MotorOil => seq![JamEffect::Speed, JamEffect::Poison],
            JamIngredient::Absinth => seq![JamEffect::SuperHumanStrength, JamEffect::Flammable],
            JamIngredient::Bleach => seq![JamEffect::Hunger, JamEffect::HideousLaughter],
            JamIngredient::Sand => seq![JamEffect::Coagulant, JamEffect::Antivenom],
            JamIngredient::Sugar => seq![JamEffect::Invisibility],
            JamIngredient::Salt => seq![JamEffect::NightVision],
            JamIngredient::Sakura => seq![JamEffect::Invisibility, JamEffect::Antivenom],
        }
    }

    /// The display name of this ingredient.
    pub open spec fn spec_name(self) -> Seq<char> {
        match self {
            JamIngredient::Petrol => "Petrol"@,
            JamIngredient::Urine => "Urine"@,
            JamIngredient::GunPowder => "Gun powder"@,
            JamIngredient::BathWater => "Bath water"@,
            JamIngredient::AppleSeeds => "Apple seeds"@,
            JamIngredient::Strawberries => "Strawberries"@,
            JamIngredient::Lemons => "Lemons"@,
            JamIngredient::Damsons => "Damsons"@,
            JamIngredient::HumanFlesh => "Human flesh"@,
            JamIngredient::MotorOil => "Motor oil"@,
            JamIngredient::Absinth => "Absinth"@,
            JamIngredient::Bleach => "Bleach"@,
            JamIngredient::Sand => "Sand"@,
            JamIngredient::Sugar => "Sugar"@,
            JamIngredient::Salt => "Salt"@,
            JamIngredient::Sakura => "Sakura"@,
        }
    }

    /// The sprite asset path of this ingredient.
    pub open spec fn spec_asset_path(self) -> Seq<char> {
        match self {
            JamIngredient::Petrol => "sprites/petrol.png"@,
            JamIngredient::Urine => "sprites/urine.png"@,
            JamIngredient::GunPowder => "sprites/gunpowder.png"@,
            JamIngredient::BathWater => "sprites/bathwater.png"@,
            JamIngredient::AppleSeeds => "sprites/appleseeds.png"@,
            JamIngredient::Strawberries => "sprites/strawberry.png"@,
            JamIngredient::Lemons => "sprites/lemon.png"@,
            JamIngredient::Damsons => "sprites/damsons.png"@,
            JamIngredient::HumanFlesh => "sprites/humanflesh.png"@,
            JamIngredient::MotorOil => "sprites/motoroil.png"@,
            JamIngredient::Absinth => "sprites/absinthe.png"@,
            JamIngredient::Bleach => "sprites/bleach.png"@,
            JamIngredient::Sand => "sprites/sand.png"@,
            JamIngredient::Sugar => "sprites/sugar.png"@,
            JamIngredient::Salt => "sprites/salt.png"@,
            JamIngredient::Sakura => "sprites/sakura.png"@,
        }
    }

    /// The colour this ingredient tints the cauldron with.
    pub open spec fn spec_colour(self) -> Rgb {
        match self {
            JamIngredient::Petrol => Rgb { r: 237, g: 237, b: 84 },
            JamIngredient::Urine => Rgb { r: 255, g: 172, b: 0 },
            JamIngredient::GunPowder => Rgb { r: 140, g: 133, b: 113 },
            JamIngredient::BathWater => Rgb { r: 207, g: 246, b: 246 },
            JamIngredient::AppleSeeds => Rgb { r: 6, g: 38, b: 39 },
            JamIngredient::Strawberries => Rgb { r: 220, g: 103, b: 80 },
            JamIngredient::Lemons => Rgb { r: 183, g: 220, b: 80 },
            JamIngredient::Damsons => Rgb { r: 95, g: 69, b: 118 },
            JamIngredient::HumanFlesh => Rgb { r: 142, g: 53, b: 41 },
            JamIngredient::MotorOil => Rgb { r: 18, g: 37, b: 25 },
            JamIngredient::Absinth => Rgb { r: 0, g: 234, b: 82 },
            JamIngredient::Bleach => Rgb { r: 7, g: 171, b: 247 },
            JamIngredient::Sand => Rgb { r: 186, g: 162, b: 58 },
            JamIngredient::Sugar => Rgb { r: 170, g: 216, b: 222 },
            JamIngredient::Salt => Rgb { r: 170, g: 222, b: 194 },
            JamIngredient::Sakura => Rgb { r: 220, g: 170, b: 216 },
        }
    }

    /// Where this ingredient's token sits on the cauldron scene's shelf.
    pub open spec fn spec_initial_position(self) -> Point2 {
        match self {
            JamIngredient::Petrol => Point2 { x: -280i64, y: 250i64 },
            JamIngredient::Urine => Point2 { x: -200i64, y: 250i64 },
            JamIngredient::GunPowder => Point2 { x: -120i64, y: 250i64 },
            JamIngredient::BathWater => Point2 { x: -40i64, y: 250i64 },
            JamIngredient::AppleSeeds => Point2 { x: 40i64, y: 250i64 },
            JamIngredient::Strawberries => Point2 { x: 120i64, y: 250i64 },
            JamIngredient::Lemons => Point2 { x: 200i64, y: 250i64 },
            JamIngredient::Damsons => Point2 { x: 280i64, y: 250i64 },
            JamIngredient::HumanFlesh => Point2 { x: -280i64, y: 170i64 },
            JamIngredient::MotorOil => Point2 { x: -200i64, y: 170i64 },
            JamIngredient::Absinth => Point2 { x: -120i64, y: 170i64 },
            JamIngredient::Bleach => Point2 { x: -40i64, y: 170i64 },
            JamIngredient::Sand => Point2 { x: 40i64, y: 170i64 },
            JamIngredient::Sugar => Point2 { x: 120i64, y: 170i64 },
            JamIngredient::Salt => Point2 { x: 200i64, y: 170i64 },
            JamIngredient::Sakura => Point2 { x: 280i64, y: 170i64 },
        }
    }

    /// Every ingredient, in shelf order.
    pub fn all() -> (r: Vec<JamIngredient>)
        ensures
            r@ == seq![
                JamIngredient::Petrol,
                JamIngredient::Urine,
                JamIngredient::GunPowder,
                JamIngredient::BathWater,
                JamIngredient::AppleSeeds,
                JamIngredient::Strawberries,
                JamIngredient::Lemons,
                JamIngredient::Damsons,
                JamIngredient::HumanFlesh,
                JamIngredient::MotorOil,
                JamIngredient::Absinth,
                JamIngredient::Bleach,
                JamIngredient::Sand,
                JamIngredient::Sugar,
                JamIngredient::Salt,
                JamIngredient::Sakura,
            ],
    {
        let mut v: Vec<JamIngredient> = Vec::new();
        v.push(JamIngredient::Petrol);
        v.push(JamIngredient::Urine);
        v.push(JamIngredient::GunPowder);
        v.push(JamIngredient::BathWater);
        v.push(JamIngredient::AppleSeeds);
        v.push(JamIngredient::Strawberries);
        v.push(JamIngredient::Lemons);
        v.push(JamIngredient::Damsons);
        v.push(JamIngredient::HumanFlesh);
        v.push(JamIngredient::MotorOil);
        v.push(JamIngredient::Absinth);
        v.push(JamIngredient::Bleach);
        v.push(JamIngredient::Sand);
        v.push(JamIngredient::Sugar);
        v.push(JamIngredient::Salt);
        v.push(JamIngredient::Sakura);
        proof {
            assert(v@ =~= seq![
                JamIngredient::Petrol,
                JamIngredient::Urine,
                JamIngredient::GunPowder,
                JamIngredient::BathWater,
                JamIngredient::AppleSeeds,
                JamIngredient::Strawberries,
                JamIngredient::Lemons,
                JamIngredient::Damsons,
                JamIngredient::HumanFlesh,
                JamIngredient::MotorOil,
                JamIngredient::Absinth,
                JamIngredient::Bleach,
                JamIngredient::Sand,
                JamIngredient::Sugar,
                JamIngredient::Salt,
                JamIngredient::Sakura,
            ]);
        }
        v
    }

    /// The effects this ingredient carries.
    pub fn effects(self) -> (r: Vec<JamEffect>)
        ensures
            r@ == self.spec_effects(),
    {
        let mut v: Vec<JamEffect> = Vec::new();
        match self {
            JamIngredient::Petrol => { v.push(JamEffect::SuperHumanStrength); v.push(JamEffect::Flammable); },
            JamIngredient::Urine => { v.push(JamEffect::NightVision); v.push(JamEffect::HideousLaughter); },
            JamIngredient::GunPowder => { v.push(JamEffect::Flight); v.push(JamEffect::Speed); },
            JamIngredient::BathWater => { v.push(JamEffect::GreaterHeal); v.push(JamEffect::CureDisease); },
            JamIngredient::AppleSeeds => { v.push(JamEffect::Poison); },
            JamIngredient::Strawberries => { v.push(JamEffect::CureDisease); },
            JamIngredient::Lemons => { v.push(JamEffect::GreaterHeal); },
            JamIngredient::Damsons => { v.push(JamEffect::Flight); },
            JamIngredient::HumanFlesh => { v.push(JamEffect::Hunger); v.push(JamEffect::Coagulant); },
            JamIngredient::MotorOil => { v.push(JamEffect::Speed); v.push(JamEffect::Poison); },
            JamIngredient::Absinth => { v.push(JamEffect::SuperHumanStrength); v.push(JamEffect::Flammable); },
            JamIngredient::Bleach => { v.push(JamEffect::Hunger); v.push(JamEffect::HideousLaughter); },
            JamIngredient::Sand => { v.push(JamEffect::Coagulant); v.push(JamEffect::Antivenom); },
            JamIngredient::Sugar => { v.push(JamEffect::Invisibility); },
            JamIngredient::Salt => { v.push(JamEffect::NightVision); },
            JamIngredient::Sakura => { v.push(JamEffect::Invisibility); v.push(JamEffect::Antivenom); },
        }
        proof {
            assert(v@ =~= self.spec_effects());
        }
        v
    }

    /// The display name of this ingredient.
    pub fn name(self) -> (r: &'static str)
        ensures
            r@ == self.spec_name(),
    {
        match self {
            JamIngredient::Petrol => "Petrol",
            JamIngredient::Urine => "Urine",
            JamIngredient::GunPowder => "Gun powder",
            JamIngredient::BathWater => "Bath water",
            JamIngredient::AppleSeeds => "Apple seeds",
            JamIngredient::Strawberries => "Strawberries",
            JamIngredient::Lemons => "Lemons",
            JamIngredient::Damsons => "Damsons",
            JamIngredient::HumanFlesh => "Human flesh",
            JamIngredient::MotorOil => "Motor oil",
            JamIngredient::Absinth => "Absinth",
            JamIngredient::Bleach => "Bleach",
            JamIngredient::Sand => "Sand",
            JamIngredient::Sugar => "Sugar",
            JamIngredient::Salt => "Salt",
            JamIngredient::Sakura => "Sakura",
        }
    }

    /// The sprite asset path of this ingredient.
    pub fn asset_path(self) -> (r: &'static str)
        ensures
            r@ == self.spec_asset_path(),
    {
        match self {
            JamIngredient::Petrol => "sprites/petrol.png",
            JamIngredient::Urine => "sprites/urine.png",
            JamIngredient::GunPowder => "sprites/gunpowder.png",
            JamIngredient::BathWater => "sprites/bathwater.png",
            JamIngredient::AppleSeeds => "sprites/appleseeds.png",
            JamIngredient::Strawberries => "sprites/strawberry.png",
            JamIngredient::Lemons => "sprites/lemon.png",
            JamIngredient::Damsons => "sprites/damsons.png",
            JamIngredient::HumanFlesh => "sprites/humanflesh.png",
            JamIngredient::MotorOil => "sprites/motoroil.png",
            JamIngredient::Absinth => "sprites/absinthe.png",
            JamIngredient::Bleach => "sprites/bleach.png",
            JamIngredient::Sand => "sprites/sand.png",
            JamIngredient::Sugar => "sprites/sugar.png",
            JamIngredient::Salt => "sprites/salt.png",
            JamIngredient::Sakura => "sprites/sakura.png",
        }
    }

    /// The colour this ingredient tints the cauldron with.
    pub fn colour(self) -> (r: Rgb)
        ensures
            r == self.spec_colour(),
    {
        match self {
            JamIngredient::Petrol => Rgb { r: 237, g: 237, b: 84 },
            JamIngredient::Urine => Rgb { r: 255, g: 172, b: 0 },
            JamIngredient::GunPowder => Rgb { r: 140, g: 133, b: 113 },
            JamIngredient::BathWater => Rgb { r: 207, g: 246, b: 246 },
            JamIngredient::AppleSeeds => Rgb { r: 6, g: 38, b: 39 },
            JamIngredient::Strawberries => Rgb { r: 220, g: 103, b: 80 },
            JamIngredient::Lemons => Rgb { r: 183, g: 220, b: 80 },
            JamIngredient::Damsons => Rgb { r: 95, g: 69, b: 118 },
            JamIngredient::HumanFlesh => Rgb { r: 142, g: 53, b: 41 },
            JamIngredient::MotorOil => Rgb { r: 18, g: 37, b: 25 },
            JamIngredient::Absinth => Rgb { r: 0, g: 234, b: 82 },
            JamIngredient::Bleach => Rgb { r: 7, g: 171, b: 247 },
            JamIngredient::Sand => Rgb { r: 186, g: 162, b: 58 },
            JamIngredient::Sugar => Rgb { r: 170, g: 216, b: 222 },
            JamIngredient::Salt => Rgb { r: 170, g: 222, b: 194 },
            JamIngredient::Sakura => Rgb { r: 220, g: 170, b: 216 },
        }
    }

    /// Where this ingredient's token sits on the cauldron scene's shelf.
    pub fn initial_position(self) -> (r: Point2)
        ensures
            r == self.spec_initial_position(),
    {
        match self {
            JamIngredient::Petrol => Point2 { x: -280, y: 250 },
            JamIngredient::Urine => Point2 { x: -200, y: 250 },
            JamIngredient::GunPowder => Point2 { x: -120, y: 250 },
            JamIngredient::BathWater => Point2 { x: -40, y: 250 },
            JamIngredient::AppleSeeds => Point2 { x: 40, y: 250 },
            JamIngredient::Strawberries => Point2 { x: 120, y: 250 },
            JamIngredient::Lemons => Point2 { x: 200, y: 250 },
            JamIngredient::Damsons => Point2 { x: 280, y: 250 },
            JamIngredient::HumanFlesh => Point2 { x: -280, y: 170 },
            JamIngredient::MotorOil => Point2 { x: -200, y: 170 },
            JamIngredient::Absinth => Point2 { x: -120, y: 170 },
            JamIngredient::Bleach => Point2 { x: -40, y: 170 },
            JamIngredient::Sand => Point2 { x: 40, y: 170 },
            JamIngredient::Sugar => Point2 { x: 120, y: 170 },
            JamIngredient::Salt => Point2 { x: 200, y: 170 },
            JamIngredient::Sakura => Point2 { x: 280, y: 170 },
        }
    }
}

impl JamEffect {
    /// The display name of this effect.
    pub open spec fn spec_name(self) -> Seq<char> {
        match self {
            JamEffect::NightVision => "Night vision"@,
            JamEffect::SuperHumanStrength => "Super human strength"@,
            JamEffect::Poison => "Poison"@,
            JamEffect::Hunger => "Hunger"@,
            JamEffect::GreaterHeal => "Greater heal"@,
            JamEffect::CureDisease => "Cure Disease"@,
            JamEffect::Antivenom => "Antivenom"@,
            JamEffect::Coagulant => "Coagulant"@,
            JamEffect::Flammable => "Flammable"@,
            JamEffect::Invisibility => "Invisibility"@,
            JamEffect::Speed => "Speed"@,
            JamEffect::Flight => "Flight"@,
            JamEffect::HideousLaughter => "Hideous laughter"@,
        }
    }

    /// The sprite asset path of this effect.
    pub open spec fn spec_asset_path(self) -> Seq<char> {
        match self {
            JamEffect::NightVision => "sprites/nightvision.png"@,
            JamEffect::SuperHumanStrength => "sprites/superstrength.png"@,
            JamEffect::Poison => "sprites/poison.png"@,
            JamEffect::Hunger => "sprites/hunger.png"@,
            JamEffect::GreaterHeal => "sprites/heal.png"@,
            JamEffect::CureDisease => "sprites/cure.png"@,
            JamEffect::Antivenom => "sprites/antivenom.png"@,
            JamEffect::Coagulant => "sprites/coagulant.png"@,
            JamEffect::Flammable => "sprites/flammable.png"@,
            JamEffect::Invisibility => "sprites/invisibility.png"@,
            JamEffect::Speed => "sprites/speed.png"@,
            JamEffect::Flight => "sprites/flight.png"@,
            JamEffect::HideousLaughter => "sprites/laughing.png"@,
        }
    }

    /// The flavour description of this effect.
    pub open spec fn spec_description(self) -> Seq<char> {
        match self {
            JamEffect::NightVision => "See, in the dark"@,
            JamEffect::SuperHumanStrength => "HULK! SMASH!"@,
            JamEffect::Poison => "You feel ill"@,
            JamEffect::Hunger => "I am very hungry, give me the butter"@,
            JamEffect::GreaterHeal => "Your wounds heal and your body feels light"@,
            JamEffect::CureDisease => "You are suddenly free from disease"@,
            JamEffect::Antivenom => "You are cured from all venoms"@,
            JamEffect::Coagulant => "Clots blood when applied"@,
            JamEffect::Flammable => "Sets fire to anything the jam touches"@,
            JamEffect::Invisibility => "Invisibility"@,
            JamEffect::Speed => "Radiation blasts your cells, you become faster"@,
            JamEffect::Flight => "Your body fils with energy, so much that you fly?"@,
            JamEffect::HideousLaughter => "You perceive everything as hilariously funny and fall into a fit of laugher."@,
        }
    }

    /// Every effect, in jam-book order.
    pub fn all() -> (r: Vec<JamEffect>)
        ensures
            r@ == seq![
                JamEffect::NightVision,
                JamEffect::SuperHumanStrength,
                JamEffect::Poison,
                JamEffect::Hunger,
                JamEffect::GreaterHeal,
                JamEffect::CureDisease,
                JamEffect::Antivenom,
                JamEffect::Coagulant,
                JamEffect::Flammable,
                JamEffect::Invisibility,
                JamEffect::Speed,
                JamEffect::Flight,
                JamEffect::HideousLaughter,
            ],
    {
        let mut v: Vec<JamEffect> = Vec::new();
        v.push(JamEffect::NightVision);
        v.push(JamEffect::SuperHumanStrength);
        v.push(JamEffect::Poison);
        v.push(JamEffect::Hunger);
        v.push(JamEffect::GreaterHeal);
        v.push(JamEffect::CureDisease);
        v.push(JamEffect::Antivenom);
        v.push(JamEffect::Coagulant);
        v.push(JamEffect::Flammable);
        v.push(JamEffect::Invisibility);
        v.push(JamEffect::Speed);
        v.push(JamEffect::Flight);
        v.push(JamEffect::HideousLaughter);
        proof {
            assert(v@ =~= seq![
                JamEffect::NightVision,
                JamEffect::SuperHumanStrength,
                JamEffect::Poison,
                JamEffect::Hunger,
                JamEffect::GreaterHeal,
                JamEffect::CureDisease,
                JamEffect::Antivenom,
                JamEffect::Coagulant,
                JamEffect::Flammable,
                JamEffect::Invisibility,
                JamEffect::Speed,
                JamEffect::Flight,
                JamEffect::HideousLaughter,
            ]);
        }
        v
    }

    /// The display name of this effect.
    pub fn name(self) -> (r: &'static str)
        ensures
            r@ == self.spec_name(),
    {
        match self {
            JamEffect::NightVision => "Night vision",
            JamEffect::SuperHumanStrength => "Super human strength",
            JamEffect::Poison => "Poison",
            JamEffect::Hunger => "Hunger",
            JamEffect::GreaterHeal => "Greater heal",
            JamEffect::CureDisease => "Cure Disease",
            JamEffect::Antivenom => "Antivenom",
            JamEffect::Coagulant => "Coagulant",
            JamEffect::Flammable => "Flammable",
            JamEffect::Invisibility => "Invisibility",
            JamEffect::Speed => "Speed",
            JamEffect::Flight => "Flight",
            JamEffect::HideousLaughter => "Hideous laughter",
        }
    }

    /// The sprite asset path of this effect.
    pub fn asset_path(self) -> (r: &'static str)
        ensures
            r@ == self.spec_asset_path(),
    {
        match self {
            JamEffect::NightVision => "sprites/nightvision.png",
            JamEffect::SuperHumanStrength => "sprites/superstrength.png",
            JamEffect::Poison => "sprites/poison.png",
            JamEffect::Hunger => "sprites/hunger.png",
            JamEffect::GreaterHeal => "sprites/heal.png",
            JamEffect::CureDisease => "sprites/cure.png",
            JamEffect::Antivenom => "sprites/antivenom.png",
            JamEffect::Coagulant => "sprites/coagulant.png",
            JamEffect::Flammable => "sprites/flammable.png",
            JamEffect::Invisibility => "sprites/invisibility.png",
            JamEffect::Speed => "sprites/speed.png",
            JamEffect::Flight => "sprites/flight.png",
            JamEffect::HideousLaughter => "sprites/laughing.png",
        }
    }

    /// The flavour description of this effect.
    pub fn description(self) -> (r: &'static str)
        ensures
            r@ == self.spec_description(),
    {
        match self {
            JamEffect::NightVision => "See, in the dark",
            JamEffect::SuperHumanStrength => "HULK! SMASH!",
            JamEffect::Poison => "You feel ill",
            JamEffect::Hunger => "I am very hungry, give me the butter",
            JamEffect::GreaterHeal => "Your wounds heal and your body feels light",
            JamEffect::CureDisease => "You are suddenly free from disease",
            JamEffect::Antivenom => "You are cured from all venoms",
            JamEffect::Coagulant => "Clots blood when applied",
            JamEffect::Flammable => "Sets fire to anything the jam touches",
            JamEffect::Invisibility => "Invisibility",
            JamEffect::Speed => "Radiation blasts your cells, you become faster",
            JamEffect::Flight => "Your body fils with energy, so much that you fly?",
            JamEffect::HideousLaughter => "You perceive everything as hilariously funny and fall into a fit of laugher.",
        }
    }
}


/// How many of the given ingredients, at index `i` and beyond, carry the
/// given effect.
pub open spec fn effect_count_from(s: Seq<JamIngredient>, e: JamEffect, i: int) -> int
    decreases s.len() - i,
{
    if i < 0 || i >= s.len() {
        0
    } else {
        (if s[i].spec_effects().contains(e) {
            1int
        } else {
            0int
        }) + effect_count_from(s, e, i + 1)
    }
}

/// How many of the given ingredients carry the given effect.
pub open spec fn effect_count(s: Seq<JamIngredient>, e: JamEffect) -> int {
    effect_count_from(s, e, 0)
}

/// Whether the given list holds the given effect.
fn effect_listed(list: &Vec<JamEffect>, e: JamEffect) -> (r: bool)
    ensures
        r == list@.contains(e),
{
    let n = list.len();
    let mut i: usize = 0;
    while i < n
        invariant
            0 <= i <= n,
            n == list@.len(),
            forall|m: int| 0 <= m < i ==> list@[m] != e,
        decreases n - i,
    {
        if list[i] == e {
            assert(list@[i as int] == e);
            return true;
        }
        i += 1;
    }
    proof {
        if list@.contains(e) {
            let m = choose|m: int| 0 <= m < list@.len() && list@[m] == e;
            assert(false);
        }
    }
    false
}

/// Whether the given ingredient carries the given effect.
fn has_effect(i: JamIngredient, e: JamEffect) -> (r: bool)
    ensures
        r == i.spec_effects().contains(e),
{
    let effs = i.effects();
    effect_listed(&effs, e)
}

/// How many of the given ingredients carry the given effect.
fn count_with_effect(ingredients: &Vec<JamIngredient>, e: JamEffect) -> (c: usize)
    ensures
        c == effect_count(ingredients@, e),
{
    let n = ingredients.len();
    let mut c: usize = 0;
    let mut i: usize = 0;
    while i < n
        invariant
            0 <= i <= n,
            n == ingredients@.len(),
            0 <= c <= i,
            c + effect_count_from(ingredients@, e, i as int) == effect_count(ingredients@, e),
        decreases n - i,
    {
        if has_effect(ingredients[i], e) {
            c += 1;
        }
        i += 1;
    }
    c
}

/// The effects of the jam-book, in book order.
pub open spec fn effect_order() -> Seq<JamEffect> {
    seq![
        JamEffect::NightVision,
        JamEffect::SuperHumanStrength,
        JamEffect::Poison,
        JamEffect::Hunger,
        JamEffect::GreaterHeal,
        JamEffect::CureDisease,
        JamEffect::Antivenom,
        JamEffect::Coagulant,
        JamEffect::Flammable,
        JamEffect::Invisibility,
        JamEffect::Speed,
        JamEffect::Flight,
        JamEffect::HideousLaughter,
    ]
}

/// Every effect appears in the jam-book order.
pub proof fn lemma_effect_order_complete(e: JamEffect)
    ensures
        exists|j: int| 0 <= j < effect_order().len() && effect_order()[j] == e,
{
    match e {
        JamEffect::NightVision => assert(effect_order()[0] == e),
        JamEffect::SuperHumanStrength => assert(effect_order()[1] == e),
        JamEffect::Poison => assert(effect_order()[2] == e),
        JamEffect::Hunger => assert(effect_order()[3] == e),
        JamEffect::GreaterHeal => assert(effect_order()[4] == e),
        JamEffect::CureDisease => assert(effect_order()[5] == e),
        JamEffect::Antivenom => assert(effect_order()[6] == e),
        JamEffect::Coagulant => assert(effect_order()[7] == e),
        JamEffect::Flammable => assert(effect_order()[8] == e),
        JamEffect::Invisibility => assert(effect_order()[9] == e),
        JamEffect::Speed => assert(effect_order()[10] == e),
        JamEffect::Flight => assert(effect_order()[11] == e),
        JamEffect::HideousLaughter => assert(effect_order()[12] == e),
    }
}

impl JamIngredient {
    /// The effects that emerge from a mix: exactly those carried by at
    /// least two of the ingredients (counted with multiplicity), without
    /// duplicates, in jam-book order.
    pub fn calculate_effects(ingredients: &Vec<JamIngredient>) -> (r: Vec<JamEffect>)
        ensures
            r@.no_duplicates(),
            forall|e: JamEffect| #[trigger] r@.contains(e) <==> effect_count(ingredients@, e) >= 2,
    {
        let all = JamEffect::all();
        let kn = all.len();
        let mut r: Vec<JamEffect> = Vec::new();
        let mut k: usize = 0;
        while k < kn
            invariant
                0 <= k <= kn,
                kn == all@.len(),
                all@ == effect_order(),
                r@.no_duplicates(),
                forall|x: JamEffect|
                    #[trigger] r@.contains(x) ==> (effect_count(ingredients@, x) >= 2 && exists|
                        j: int,
                    |
                        0 <= j < k && all@[j] == x),
                forall|j: int|
                    0 <= j < k && effect_count(ingredients@, #[trigger] all@[j]) >= 2
                        ==> r@.contains(all@[j]),
            decreases kn - k,
        {
            let e = all[k];
            assert(e == all@[k as int]);
            let c = count_with_effect(ingredients, e);
            let ghost prev = r@;
            if c >= 2 {
                proof {
                    if prev.contains(e) {
                        let j = choose|j: int| 0 <= j < k && all@[j] == e;
                        assert(all@[j] == all@[k as int]);
                        assert(false);
                    }
                }
                r.push(e);
                proof {
                    assert forall|x: JamEffect| #[trigger] r@.contains(x) implies (
                    prev.contains(x) || x == e) by {
                        let idx = choose|idx: int| 0 <= idx < r@.len() && r@[idx] == x;
                        if idx < prev.len() {
                            assert(prev[idx] == x);
                        }
                    }
                    assert(r@[prev.len() as int] == e);
                    assert forall|x: JamEffect| prev.contains(x) implies r@.contains(x) by {
                        let idx = choose|idx: int| 0 <= idx < prev.len() && prev[idx] == x;
                        assert(r@[idx] == x);
                    }
                }
            }
            k += 1;
        }
        proof {
            assert forall|e: JamEffect| effect_count(ingredients@, e) >= 2 implies r@.contains(
                e,
            ) by {
                lemma_effect_order_complete(e);
                let j = choose|j: int| 0 <= j < effect_order().len() && effect_order()[j] == e;
                assert(effect_count(ingredients@, effect_order()[j]) >= 2);
            }
        }
        r
    }
}

/// Whether every required effect is present in the given list.
pub fn covers(effects: &Vec<JamEffect>, requirements: &Vec<JamEffect>) -> (r: bool)
    ensures
        r == (forall|k: int|
            0 <= k < requirements@.len() ==> effects@.contains(#[trigger] requirements@[k])),
{
    let n = requirements.len();
    let mut k: usize = 0;
    while k < n
        invariant
            0 <= k <= n,
            n == requirements@.len(),
            forall|m: int| 0 <= m < k ==> effects@.contains(#[trigger] requirements@[m]),
        decreases n - k,
    {
        if !effect_listed(effects, requirements[k]) {
            assert(!effects@.contains(requirements@[k as int]));
            return false;
        }
        k += 1;
    }
    true
}

/// Whether a mix of the given ingredients satisfies an order that asks
/// for the given effects: every one of them must emerge from the mix.
pub fn order_fulfilled(contents: &Vec<JamIngredient>, requirements: &Vec<JamEffect>) -> (r: bool)
    ensures
        r == (forall|k: int|
            0 <= k < requirements@.len() ==> effect_count(
                contents@,
                #[trigger] requirements@[k],
            ) >= 2),
{
    let effects = JamIngredient::calculate_effects(contents);
    let r = covers(&effects, requirements);
    proof {
        assert forall|k: int| 0 <= k < requirements@.len() implies (effects@.contains(
            #[trigger] requirements@[k],
        ) <==> effect_count(contents@, requirements@[k]) >= 2) by {}
    }
    r
}


/// The ingredient tag attached to the given entity, if any: the first
/// matching entry at or after `i`.
pub open spec fn ingredient_of(tags: Seq<(u64, JamIngredient)>, id: u64, i: int) -> Option<
    JamIngredient,
>
    decreases tags.len() - i,
{
    if i < 0 || i >= tags.len() {
        Option::None
    } else if tags[i].0 == id {
        Option::Some(tags[i].1)
    } else {
        ingredient_of(tags, id, i + 1)
    }
}

/// The ingredients the cauldron absorbs from the drop events at index `i`
/// and beyond: one per event whose destination is the cauldron and whose
/// source carries an ingredient tag, in event order.
pub open spec fn absorbed_from(
    events: Seq<DroppedOntoEvent>,
    tags: Seq<(u64, JamIngredient)>,
    cauldron: u64,
    i: int,
) -> Seq<JamIngredient>
    decreases events.len() - i,
{
    if i < 0 || i >= events.len() {
        Seq::empty()
    } else {
        let rest = absorbed_from(events, tags, cauldron, i + 1);
        if events[i].dst == cauldron {
            match ingredient_of(tags, events[i].src, 0) {
                Option::Some(g) => seq![g] + rest,
                Option::None => rest,
            }
        } else {
            rest
        }
    }
}

/// Whether some event names the given button.
pub open spec fn any_event_for(events: Seq<ButtonPressedEvent>, id: u64) -> bool {
    exists|i: int| 0 <= i < events.len() && events[i].0 == id
}

/// What the cauldron currently holds, in the order the ingredients were
/// dropped in.
pub struct CauldronContents(pub Vec<JamIngredient>);

impl CauldronContents {
    /// An empty cauldron.
    pub fn new() -> (c: CauldronContents)
        ensures
            c.0@ == Seq::<JamIngredient>::empty(),
    {
        CauldronContents(Vec::new())
    }

    /// The ingredient tag attached to the given entity, if any.
    fn lookup_ingredient(tags: &Vec<(u64, JamIngredient)>, id: u64) -> (r: Option<JamIngredient>)
        ensures
            r == ingredient_of(tags@, id, 0),
    {
        let n = tags.len();
        let mut i: usize = 0;
        while i < n
            invariant
                0 <= i <= n,
                n == tags@.len(),
                ingredient_of(tags@, id, 0) == ingredient_of(tags@, id, i as int),
            decreases n - i,
        {
            if tags[i].0 == id {
                return Option::Some(tags[i].1);
            }
            i += 1;
        }
        Option::None
    }

    /// Absorbs this frame's drops: for every event whose destination is
    /// the cauldron entity and whose source carries an ingredient tag,
    /// that ingredient is appended, in event order.
    pub fn absorb_drops(
        &mut self,
        events: &Vec<DroppedOntoEvent>,
        tags: &Vec<(u64, JamIngredient)>,
        cauldron: u64,
    )
        ensures
            final(self).0@ == old(self).0@ + absorbed_from(events@, tags@, cauldron, 0),
    {
        let ghost c0 = self.0@;
        let n = events.len();
        let mut i: usize = 0;
        while i < n
            invariant
                0 <= i <= n,
                n == events@.len(),
                self.0@ + absorbed_from(events@, tags@, cauldron, i as int) == c0 + absorbed_from(
                    events@,
                    tags@,
                    cauldron,
                    0,
                ),
            decreases n - i,
        {
            let ghost prev = self.0@;
            let ev = events[i];
            assert(ev == events@[i as int]);
            if ev.dst == cauldron {
                match Self::lookup_ingredient(tags, ev.src) {
                    Option::Some(g) => {
                        self.0.push(g);
                        proof {
                            assert(self.0@ + absorbed_from(events@, tags@, cauldron, i + 1)
                                =~= prev + absorbed_from(events@, tags@, cauldron, i as int));
                        }
                    },
                    Option::None => {},
                }
            }
            i += 1;
        }
        proof {
            assert(absorbed_from(events@, tags@, cauldron, n as int) =~= Seq::<
                JamIngredient,
            >::empty());
            assert(self.0@ =~= c0 + absorbed_from(events@, tags@, cauldron, 0));
        }
    }

    /// Empties the cauldron when this frame's button events include one
    /// from the clear button; otherwise leaves it untouched.
    pub fn clear_on_button(&mut self, events: &Vec<ButtonPressedEvent>, clear_button: u64)
        ensures
            any_event_for(events@, clear_button) ==> final(self).0@ == Seq::<
                JamIngredient,
            >::empty(),
            !any_event_for(events@, clear_button) ==> final(self).0@ == old(self).0@,
    {
        let n = events.len();
        let mut i: usize = 0;
        while i < n
            invariant
                0 <= i <= n,
                n == events@.len(),
                *self == *old(self),
                forall|m: int| 0 <= m < i ==> events@[m].0 != clear_button,
            decreases n - i,
        {
            if events[i].0 == clear_button {
                assert(events@[i as int].0 == clear_button);
                self.0.clear();
                return ;
            }
            i += 1;
        }
        proof {
            if any_event_for(events@, clear_button) {
                let m = choose|m: int| 0 <= m < events@.len() && events@[m].0 == clear_button;
                assert(false);
            }
        }
    }
}

} // verus!
