use optimizer_core::affix::Affix;
use optimizer_core::affix::GEAR_SLOTS;
use optimizer_core::attribute::Attribute;
use optimizer_core::attribute::AttributesArray;
use optimizer_core::attribute::ATTRIBUTE_COUNT;
use optimizer_core::character::Character;
use optimizer_core::settings::Settings;

fn all_attributes() -> Vec<Attribute> {
    vec![
        Attribute::Power,
        Attribute::Precision,
        Attribute::Toughness,
        Attribute::Vitality,
        Attribute::Ferocity,
        Attribute::ConditionDamage,
        Attribute::Expertise,
        Attribute::Concentration,
        Attribute::HealingPower,
        Attribute::AgonyResistance,
        Attribute::Health,
        Attribute::Armor,
        Attribute::CriticalChance,
        Attribute::CriticalDamage,
        Attribute::ConditionDuration,
        Attribute::BoonDuration,
        Attribute::QuicknessDuration,
        Attribute::AlacrityDuration,
        Attribute::OutgoingHealing,
        Attribute::EffectivePower,
    ]
}

#[test]
fn new_character_scores_zero_for_every_rankby() {
    for r in all_attributes() {
        let c = Character::new(r);
        assert_eq!(c.score(), 0);
    }
}

#[test]
fn new_character_has_empty_gear_and_unset_combination() {
    let c = Character::new(Attribute::Power);
    assert_eq!(c.gear, [Affix::NoAffix; GEAR_SLOTS]);
    assert_eq!(c.combination_id, u32::MAX);
    assert_eq!(c.rankby, Attribute::Power);
    for a in all_attributes() {
        assert_eq!(c.attributes.get_a(a), 0);
        assert_eq!(c.base_attributes.get_a(a), 0);
    }
}

#[test]
fn clear_zeroes_every_attribute() {
    let mut c = Character::new(Attribute::Health);
    let mut x: i64 = 1;
    for a in all_attributes() {
        c.attributes.set_a(a, x);
        c.base_attributes.set_a(a, -x);
        x += 13;
    }
    c.clear();
    for a in all_attributes() {
        assert_eq!(c.attributes.get_a(a), 0);
        assert_eq!(c.base_attributes.get_a(a), 0);
    }
}

#[test]
fn clear_keeps_gear_rankby_and_combination_id() {
    let mut c = Character::new(Attribute::Vitality);
    c.gear[0] = Affix::Berserker;
    c.gear[13] = Affix::Celestial;
    c.combination_id = 99;
    c.attributes.set_a(Attribute::Power, 500);
    c.clear();
    assert_eq!(c.gear[0], Affix::Berserker);
    assert_eq!(c.gear[13], Affix::Celestial);
    assert_eq!(c.combination_id, 99);
    assert_eq!(c.rankby, Attribute::Vitality);
}

#[test]
fn score_reads_the_rankby_attribute() {
    let mut c = Character::new(Attribute::EffectivePower);
    c.attributes.set_a(Attribute::EffectivePower, 123456);
    c.attributes.set_a(Attribute::Power, 999999);
    assert_eq!(c.score(), 123456);
}

fn no_thresholds() -> Settings {
    Settings {
        minBoonDuration: None,
        minQuicknessDuration: None,
        minHealingPower: None,
        minToughness: None,
        maxToughness: None,
        minHealth: None,
        minCritChance: None,
        minOutgoingHealing: None,
    }
}

#[test]
fn unconstrained_settings_never_invalidate() {
    let mut c = Character::new(Attribute::Power);
    let mut x: i64 = -300;
    for a in all_attributes() {
        c.attributes.set_a(a, x);
        x += 71;
    }
    assert!(!c.is_invalid(&no_thresholds()));
    assert!(!c.is_invalid(&Settings::unconstrained()));
}

#[test]
fn min_toughness_violation_invalidates() {
    let mut c = Character::new(Attribute::Power);
    let settings = Settings { minToughness: Some(900), ..no_thresholds() };
    c.attributes.set_a(Attribute::Toughness, 800);
    assert!(c.is_invalid(&settings));
    c.attributes.set_a(Attribute::Toughness, 1000);
    assert!(!c.is_invalid(&settings));
    c.attributes.set_a(Attribute::Toughness, 900);
    assert!(!c.is_invalid(&settings));
}

#[test]
fn max_toughness_violation_invalidates() {
    let mut c = Character::new(Attribute::Power);
    let settings = Settings { maxToughness: Some(1200), ..no_thresholds() };
    c.attributes.set_a(Attribute::Toughness, 1201);
    assert!(c.is_invalid(&settings));
    c.attributes.set_a(Attribute::Toughness, 1200);
    assert!(!c.is_invalid(&settings));
}

#[test]
fn min_health_and_min_healing_power_compare_directly() {
    let mut c = Character::new(Attribute::Power);
    let settings = Settings {
        minHealth: Some(15000),
        minHealingPower: Some(700),
        ..no_thresholds()
    };
    c.attributes.set_a(Attribute::Health, 15000);
    c.attributes.set_a(Attribute::HealingPower, 699);
    assert!(c.is_invalid(&settings));
    c.attributes.set_a(Attribute::HealingPower, 700);
    assert!(!c.is_invalid(&settings));
    c.attributes.set_a(Attribute::Health, 14999);
    assert!(c.is_invalid(&settings));
}

// Fixed-point scale used by the percentage tests below: hundredths, so a
// stored 49 means 0.49 and a threshold 5000 means the percentage 50.0.
#[test]
fn min_crit_chance_divides_threshold_by_one_hundred() {
    let mut c = Character::new(Attribute::Power);
    let settings = Settings { minCritChance: Some(5000), ..no_thresholds() };
    c.attributes.set_a(Attribute::CriticalChance, 49);
    assert!(c.is_invalid(&settings));
    c.attributes.set_a(Attribute::CriticalChance, 50);
    assert!(!c.is_invalid(&settings));
}

#[test]
fn min_boon_duration_divides_threshold_by_one_hundred() {
    let mut c = Character::new(Attribute::Power);
    let settings = Settings { minBoonDuration: Some(8000), ..no_thresholds() };
    c.attributes.set_a(Attribute::BoonDuration, 79);
    assert!(c.is_invalid(&settings));
    c.attributes.set_a(Attribute::BoonDuration, 80);
    assert!(!c.is_invalid(&settings));
}

#[test]
fn min_outgoing_healing_divides_threshold_by_one_hundred() {
    let mut c = Character::new(Attribute::Power);
    let settings = Settings { minOutgoingHealing: Some(2500), ..no_thresholds() };
    c.attributes.set_a(Attribute::OutgoingHealing, 24);
    assert!(c.is_invalid(&settings));
    c.attributes.set_a(Attribute::OutgoingHealing, 25);
    assert!(!c.is_invalid(&settings));
}

#[test]
fn min_quickness_duration_checks_boon_plus_quickness() {
    let mut c = Character::new(Attribute::Power);
    let settings = Settings { minQuicknessDuration: Some(10000), ..no_thresholds() };
    c.attributes.set_a(Attribute::BoonDuration, 60);
    c.attributes.set_a(Attribute::QuicknessDuration, 39);
    assert!(c.is_invalid(&settings));
    c.attributes.set_a(Attribute::QuicknessDuration, 40);
    assert!(!c.is_invalid(&settings));
}

#[test]
fn any_single_violation_invalidates() {
    let mut c = Character::new(Attribute::Power);
    let settings = Settings {
        minToughness: Some(900),
        minHealth: Some(15000),
        ..no_thresholds()
    };
    c.attributes.set_a(Attribute::Toughness, 1000);
    c.attributes.set_a(Attribute::Health, 20000);
    assert!(!c.is_invalid(&settings));
    c.attributes.set_a(Attribute::Health, 14000);
    assert!(c.is_invalid(&settings));
    c.attributes.set_a(Attribute::Health, 20000);
    c.attributes.set_a(Attribute::Toughness, 800);
    assert!(c.is_invalid(&settings));
}

#[test]
fn attribute_count_matches_vector_length() {
    let c = Character::new(Attribute::Power);
    assert_eq!(c.attributes.len(), ATTRIBUTE_COUNT);
    assert_eq!(c.base_attributes.len(), ATTRIBUTE_COUNT);
}
