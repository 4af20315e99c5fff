use nwest_shared_component_library::{BaseStat, Skill, Stat, StatModifier, TypeCategory};

#[test]
fn test_base_stat_codes_round_trip() {
    assert_eq!(BaseStat::NoStat.code(), 0);
    assert_eq!(BaseStat::Health.code(), 1);
    assert_eq!(BaseStat::Projectile.code(), 20);
    assert_eq!(BaseStat::from_code(1), Some(BaseStat::Health));
    assert_eq!(
        BaseStat::from_code(BaseStat::Knockback.code()),
        Some(BaseStat::Knockback)
    );
    assert_eq!(BaseStat::from_code(21), None);
    assert_eq!(BaseStat::from_code(255), None);
}

#[test]
fn test_type_category_codes_round_trip() {
    assert_eq!(TypeCategory::All.code(), 0);
    assert_eq!(TypeCategory::Healing.code(), 31);
    assert_eq!(TypeCategory::from_code(6), Some(TypeCategory::Fire));
    assert_eq!(
        TypeCategory::from_code(TypeCategory::Curse.code()),
        Some(TypeCategory::Curse)
    );
    assert_eq!(TypeCategory::from_code(32), None);
}

#[test]
fn test_stat_modifier_codes_round_trip() {
    assert_eq!(StatModifier::NoModifier.code(), 0);
    assert_eq!(StatModifier::Vampirism.code(), 14);
    assert_eq!(
        StatModifier::from_code(StatModifier::Penetration.code()),
        Some(StatModifier::Penetration)
    );
    assert_eq!(StatModifier::from_code(15), None);
}

#[test]
fn test_skill_codes_round_trip() {
    assert_eq!(Skill::Pyromancy.code(), 0);
    assert_eq!(Skill::Medicamancy.code(), 24);
    assert_eq!(
        Skill::from_code(Skill::Chronomancy.code()),
        Some(Skill::Chronomancy)
    );
    assert_eq!(Skill::from_code(25), None);
}

#[test]
fn test_enum_defaults() {
    assert_eq!(BaseStat::default(), BaseStat::NoStat);
    assert_eq!(TypeCategory::default(), TypeCategory::All);
    assert_eq!(StatModifier::default(), StatModifier::NoModifier);
    assert_eq!(Stat::default(), Stat::NoStat);
}

#[test]
fn test_base_stat_labels() {
    assert_eq!(BaseStat::NoStat.label(), "(BaseStat) None");
    assert_eq!(BaseStat::Health.label(), "Health");
    assert_eq!(BaseStat::CriticalStrike.label(), "CriticalStrike");
}

#[test]
fn test_type_category_labels() {
    assert_eq!(TypeCategory::All.label(), "(TypeCategory) All");
    assert_eq!(TypeCategory::NoCategory.label(), "None");
    assert_eq!(TypeCategory::Lightning.label(), "Lightning");
}

#[test]
fn test_stat_equality_ignores_nothing() {
    let a = Stat::Complex(BaseStat::Damage, TypeCategory::Fire, StatModifier::Resistance);
    let b = Stat::Complex(BaseStat::Damage, TypeCategory::Fire, StatModifier::Resistance);
    let c = Stat::Complex(BaseStat::Damage, TypeCategory::Ice, StatModifier::Resistance);
    assert_eq!(a, b);
    assert_ne!(a, c);
}
