use vstd::prelude::*;
use crate::hero_class::AbilityEffects;

verus! {

/// What a player can carry.
#[derive(Clone, Copy, Debug, PartialEq, Eq, Structural)]
pub enum Item {
    Shield,
    Sword,
    HealingPotion,
}

/// The modifiers that each item grants.
pub open spec fn item_abilities(item: Item) -> Seq<AbilityEffects> {
    match item {
        Item::Shield => seq![
            AbilityEffects {
                target_damage: None,
                self_damage: None,
                target_heal: None,
                self_heal: None,
                self_damage_reduction: Some(15u8),
            },
        ],
        Item::Sword => seq![
            AbilityEffects {
                target_damage: Some(15u8),
                self_damage: None,
                target_heal: None,
                self_heal: None,
                self_damage_reduction: None,
            },
        ],
        Item::HealingPotion => seq![
            AbilityEffects {
                target_damage: None,
                self_damage: None,
                target_heal: None,
                self_heal: Some(50u8),
                self_damage_reduction: None,
            },
        ],
    }
}

/// Returns the modifiers of an item; every item has at least one.
pub fn get_item_abilities(item: &Item) -> (abilities: Vec<AbilityEffects>)
    ensures
        abilities@ == item_abilities(*item),
        abilities@.len() > 0,
{
    let abilities = match item {
        Item::Shield => vec![
            AbilityEffects {
                target_damage: None,
                self_damage: None,
                target_heal: None,
                self_heal: None,
                self_damage_reduction: Some(15),
            },
        ],
        Item::Sword => vec![
            AbilityEffects {
                target_damage: Some(15),
                self_damage: None,
                target_heal: None,
                self_heal: None,
                self_damage_reduction: None,
            },
        ],
        Item::HealingPotion => vec![
            AbilityEffects {
                target_damage: None,
                self_damage: None,
                target_heal: None,
                self_heal: Some(50),
                self_damage_reduction: None,
            },
        ],
    };
    assert(abilities@ =~= item_abilities(*item));
    abilities
}

} // verus!
