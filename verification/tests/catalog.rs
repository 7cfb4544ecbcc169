use hero_battle::error::GameError;
use hero_battle::hero_class::{
    ability_variant_eq, get_ability_variant, get_base_stats, get_hero_abilities, or_zero,
    render_choice, AbilityEffects, AbilityKind, HeroAbility, HeroClass,
};
use hero_battle::items::{get_item_abilities, Item};

fn effects(target_damage: Option<u8>, self_damage: Option<u8>) -> AbilityEffects {
    AbilityEffects {
        target_damage,
        self_damage,
        target_heal: None,
        self_heal: None,
        self_damage_reduction: None,
    }
}

fn lookup(name: &str) -> Option<HeroAbility> {
    get_ability_variant(&name.to_string())
}

#[test]
fn base_stats_of_each_class() {
    assert_eq!(get_base_stats(&HeroClass::Ogre), (150, 1));
    assert_eq!(get_base_stats(&HeroClass::Mage), (100, 3));
    assert_eq!(get_base_stats(&HeroClass::Cleric), (80, 5));
}

#[test]
fn ogre_abilities_are_tuned() {
    assert_eq!(
        get_hero_abilities(&HeroClass::Ogre),
        vec![
            HeroAbility::Strike(effects(Some(20), None)),
            HeroAbility::HeadBonk(effects(Some(25), Some(5))),
            HeroAbility::Ultimate(effects(Some(30), None)),
        ]
    );
}

#[test]
fn mage_and_cleric_abilities_are_tuned() {
    assert_eq!(
        get_hero_abilities(&HeroClass::Mage),
        vec![
            HeroAbility::Strike(effects(Some(25), Some(5))),
            HeroAbility::Heal(effects(Some(25), Some(5))),
            HeroAbility::Ultimate(effects(Some(25), Some(5))),
        ]
    );
    assert_eq!(
        get_hero_abilities(&HeroClass::Cleric),
        vec![
            HeroAbility::Heal(effects(Some(25), Some(5))),
            HeroAbility::Ultimate(effects(Some(25), Some(5))),
        ]
    );
}

#[test]
fn every_class_has_abilities_of_distinct_known_kinds() {
    let known = [
        AbilityKind::Strike,
        AbilityKind::HeadBonk,
        AbilityKind::Heal,
        AbilityKind::Ultimate,
    ];
    for class in [HeroClass::Ogre, HeroClass::Mage, HeroClass::Cleric] {
        let abilities = get_hero_abilities(&class);
        assert!(!abilities.is_empty());
        for (i, a) in abilities.iter().enumerate() {
            assert!(known.contains(&a.kind()));
            for b in abilities.iter().skip(i + 1) {
                assert!(!ability_variant_eq(a, b));
                assert_ne!(a.kind(), b.kind());
            }
        }
    }
}

#[test]
fn item_modifiers() {
    let shield = get_item_abilities(&Item::Shield);
    assert_eq!(shield.len(), 1);
    assert_eq!(shield[0].self_damage_reduction, Some(15));
    assert_eq!(shield[0].target_damage, None);
    let sword = get_item_abilities(&Item::Sword);
    assert_eq!(sword, vec![effects(Some(15), None)]);
    let potion = get_item_abilities(&Item::HealingPotion);
    assert_eq!(potion.len(), 1);
    assert_eq!(potion[0].self_heal, Some(50));
    assert_eq!(potion[0].self_damage, None);
}

#[test]
fn aliases_name_the_same_kind() {
    assert_eq!(lookup("bonk"), lookup("headbonk"));
    assert_eq!(lookup("bonk").unwrap().kind(), AbilityKind::HeadBonk);
    assert_eq!(lookup("ult"), lookup("ultimate"));
    assert_eq!(lookup("ult").unwrap().kind(), AbilityKind::Ultimate);
}

#[test]
fn canonical_names_resolve_to_four_kinds() {
    assert_eq!(lookup("strike"), Some(HeroAbility::Strike(AbilityEffects::default())));
    assert_eq!(lookup("headbonk"), Some(HeroAbility::HeadBonk(AbilityEffects::default())));
    assert_eq!(lookup("heal"), Some(HeroAbility::Heal(AbilityEffects::default())));
    assert_eq!(lookup("ultimate"), Some(HeroAbility::Ultimate(AbilityEffects::default())));
    for kind in [
        AbilityKind::Strike,
        AbilityKind::HeadBonk,
        AbilityKind::Heal,
        AbilityKind::Ultimate,
    ] {
        assert_eq!(lookup(kind.name()).unwrap().kind(), kind);
    }
}

#[test]
fn unknown_names_resolve_to_nothing() {
    assert_eq!(lookup(""), None);
    assert_eq!(lookup("Strike"), None);
    assert_eq!(lookup("strike "), None);
    assert_eq!(lookup("smash"), None);
    assert_eq!(lookup("ulti"), None);
}

#[test]
fn kinds_compare_without_effects() {
    let tuned = HeroAbility::Strike(effects(Some(20), None));
    let bare = HeroAbility::Strike(AbilityEffects::default());
    assert!(ability_variant_eq(&tuned, &bare));
    assert_ne!(tuned, bare);
    assert!(!ability_variant_eq(&tuned, &HeroAbility::Heal(effects(Some(20), None))));
    assert_eq!(tuned.effects(), effects(Some(20), None));
}

#[test]
fn default_effects_are_all_absent() {
    let d = AbilityEffects::default();
    assert_eq!(d, effects(None, None));
    assert_eq!(or_zero(d.target_damage), 0);
    assert_eq!(or_zero(Some(7)), 7);
}

#[test]
fn effects_add_field_by_field() {
    let sum = effects(Some(20), None) + effects(Some(10), None);
    assert_eq!(
        sum,
        AbilityEffects {
            target_damage: Some(30),
            self_damage: Some(0),
            target_heal: Some(0),
            self_heal: Some(0),
            self_damage_reduction: Some(0),
        }
    );
}

#[test]
fn effects_addition_commutes_and_zero_is_neutral() {
    let a = AbilityEffects {
        target_damage: Some(1),
        self_damage: Some(2),
        target_heal: None,
        self_heal: Some(4),
        self_damage_reduction: Some(5),
    };
    let b = AbilityEffects {
        target_damage: Some(10),
        self_damage: None,
        target_heal: Some(30),
        self_heal: Some(40),
        self_damage_reduction: Some(250),
    };
    assert_eq!(a + b, b + a);
    assert_eq!((a + b).self_damage_reduction, Some(255));
    let zero = AbilityEffects::default();
    let explicit = AbilityEffects {
        target_damage: Some(1),
        self_damage: Some(2),
        target_heal: Some(0),
        self_heal: Some(4),
        self_damage_reduction: Some(5),
    };
    assert_eq!(a + zero, explicit);
    assert_eq!(zero + a, explicit);
}

#[test]
fn ability_names_in_catalog_order() {
    assert_eq!(HeroAbility::values(), vec!["strike", "headbonk", "heal", "ultimate"]);
}

#[test]
fn choice_is_rendered_with_or_before_the_last() {
    assert_eq!(
        render_choice(&vec!["strike", "headbonk", "heal", "ultimate"]),
        Ok("strike, headbonk, heal, or ultimate".to_string())
    );
    assert_eq!(render_choice(&vec!["a", "b"]), Ok("a, or b".to_string()));
    assert_eq!(render_choice(&vec!["a"]), Ok(", or a".to_string()));
}

#[test]
fn empty_choice_is_refused() {
    assert_eq!(render_choice(&vec![]), Err(GameError::EmptyCatalog));
}
