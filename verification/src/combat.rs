use vstd::prelude::*;
use crate::error::GameError;
use crate::hero_class::{
    class_ability, find_class_ability, or_zero, AbilityEffects, AbilityKind, EffectTotals,
    HeroAbility,
};
use crate::items::{get_item_abilities, item_abilities, Item};
use crate::player::{get_player_obj, Player, PlayerV1, PlayerView};

verus! {

/// Damage added per six levels when the actor's new level is a multiple of six.
pub const CRITICAL_STRIKE: u8 = 5;

impl EffectTotals {
    /// No amount is negative.
    pub open spec fn non_negative(self) -> bool {
        &&& 0 <= self.target_damage
        &&& 0 <= self.self_damage
        &&& 0 <= self.target_heal
        &&& 0 <= self.self_heal
        &&& 0 <= self.self_damage_reduction
    }

    /// Each amount is at most the other bundle's.
    pub open spec fn le(self, other: EffectTotals) -> bool {
        &&& self.target_damage <= other.target_damage
        &&& self.self_damage <= other.self_damage
        &&& self.target_heal <= other.target_heal
        &&& self.self_heal <= other.self_heal
        &&& self.self_damage_reduction <= other.self_damage_reduction
    }

    /// The part of a modifier that an item hands to its bearer: target damage,
    /// self damage, target heal and self heal.
    pub open spec fn carried(self) -> EffectTotals {
        EffectTotals {
            target_damage: self.target_damage,
            self_damage: self.self_damage,
            target_heal: self.target_heal,
            self_heal: self.self_heal,
            self_damage_reduction: 0,
        }
    }
}

/// What a list of modifiers hands to the bearer, each field summed on its own.
pub open spec fn modifiers_total(mods: Seq<AbilityEffects>) -> EffectTotals
    decreases mods.len(),
{
    if mods.len() == 0 {
        EffectTotals::zero()
    } else {
        modifiers_total(mods.drop_last()).plus(mods.last()@.carried())
    }
}

/// What one item hands to its bearer.
pub open spec fn item_total(item: Item) -> EffectTotals {
    modifiers_total(item_abilities(item))
}

/// What a list of items hands to its bearer; an item held twice counts twice.
pub open spec fn items_total(items: Seq<Item>) -> EffectTotals
    decreases items.len(),
{
    if items.len() == 0 {
        EffectTotals::zero()
    } else {
        items_total(items.drop_last()).plus(item_total(items.last()))
    }
}

/// The effects of an ability on the two sides of a turn: the actor's are the
/// ability's own plus what the actor's items give, the target's are what the
/// target's items give. Turning an ability on oneself is refused.
pub open spec fn effects_result(
    actor_account: Seq<char>,
    actor_items: Seq<Item>,
    base: EffectTotals,
    target_account: Seq<char>,
    target_items: Seq<Item>,
) -> Result<(EffectTotals, EffectTotals), GameError> {
    let actor_total = base.plus(items_total(actor_items));
    let target_total = items_total(target_items);
    if actor_account == target_account {
        Err(GameError::InvalidTarget)
    } else if !actor_total.fits() || !target_total.fits() {
        Err(GameError::Overflow)
    } else {
        Ok((actor_total, target_total))
    }
}

proof fn lemma_modifiers_total_non_negative(mods: Seq<AbilityEffects>)
    ensures
        modifiers_total(mods).non_negative(),
    decreases mods.len(),
{
    if mods.len() > 0 {
        lemma_modifiers_total_non_negative(mods.drop_last());
    }
}

proof fn lemma_items_total_step(items: Seq<Item>, i: int)
    requires
        0 <= i < items.len(),
    ensures
        items_total(items.subrange(0, i + 1)) == items_total(items.subrange(0, i)).plus(
            item_total(items[i]),
        ),
{
    assert(items.subrange(0, i + 1).drop_last() =~= items.subrange(0, i));
}

/// A beginning of a list of items gives no more than the whole list.
proof fn lemma_items_total_grows(items: Seq<Item>, i: int)
    requires
        0 <= i <= items.len(),
    ensures
        items_total(items.subrange(0, i)).le(items_total(items)),
        items_total(items.subrange(0, i)).non_negative(),
    decreases items.len() - i,
{
    if i == items.len() {
        assert(items.subrange(0, i) =~= items);
    } else {
        lemma_items_total_grows(items, i + 1);
        lemma_items_total_step(items, i);
        lemma_modifiers_total_non_negative(item_abilities(items[i]));
    }
    lemma_items_total_non_negative(items.subrange(0, i));
}

proof fn lemma_items_total_non_negative(items: Seq<Item>)
    ensures
        items_total(items).non_negative(),
    decreases items.len(),
{
    if items.len() > 0 {
        lemma_items_total_non_negative(items.drop_last());
        lemma_modifiers_total_non_negative(item_abilities(items.last()));
    }
}

/// What one item hands to its bearer, as an effect bundle.
pub fn item_contribution(item: &Item) -> (given: AbilityEffects)
    ensures
        given@ == item_total(*item),
        given@.self_damage_reduction == 0,
        given.is_explicit(),
{
    let mods = get_item_abilities(item);
    let mut target_damage: u8 = 0;
    let mut self_damage: u8 = 0;
    let mut target_heal: u8 = 0;
    let mut self_heal: u8 = 0;
    let mut j: usize = 0;
    while j < mods.len()
        invariant
            j <= mods.len(),
            mods@.len() == 1,
            j == 0 ==> target_damage == 0 && self_damage == 0 && target_heal == 0 && self_heal
                == 0,
            modifiers_total(mods@.subrange(0, j as int)) == (EffectTotals {
                target_damage: target_damage as int,
                self_damage: self_damage as int,
                target_heal: target_heal as int,
                self_heal: self_heal as int,
                self_damage_reduction: 0,
            }),
        decreases mods.len() - j,
    {
        proof {
            assert(mods@.subrange(0, j + 1).drop_last() =~= mods@.subrange(0, j as int));
        }
        target_damage = target_damage + or_zero(mods[j].target_damage);
        self_damage = self_damage + or_zero(mods[j].self_damage);
        target_heal = target_heal + or_zero(mods[j].target_heal);
        self_heal = self_heal + or_zero(mods[j].self_heal);
        j += 1;
    }
    proof {
        assert(mods@.subrange(0, j as int) =~= mods@);
    }
    AbilityEffects {
        target_damage: Some(target_damage),
        self_damage: Some(self_damage),
        target_heal: Some(target_heal),
        self_heal: Some(self_heal),
        self_damage_reduction: Some(0),
    }
}

/// Adds to a bundle what a list of items gives, field by field. Nothing comes
/// back where a sum does not fit in a byte.
pub fn add_items(start: &AbilityEffects, items: &Vec<Item>) -> (sum: Option<AbilityEffects>)
    ensures
        match sum {
            Some(e) => e@ == start@.plus(items_total(items@)) && e@.fits() && e.is_explicit(),
            None => !start@.plus(items_total(items@)).fits(),
        },
{
    let mut target_damage: u8 = or_zero(start.target_damage);
    let mut self_damage: u8 = or_zero(start.self_damage);
    let mut target_heal: u8 = or_zero(start.target_heal);
    let mut self_heal: u8 = or_zero(start.self_heal);
    let reduction: u8 = or_zero(start.self_damage_reduction);
    let mut i: usize = 0;
    proof {
        assert(items@.subrange(0, 0) =~= Seq::<Item>::empty());
    }
    while i < items.len()
        invariant
            i <= items.len(),
            reduction as int == start@.self_damage_reduction,
            start@.plus(items_total(items@.subrange(0, i as int))) == (EffectTotals {
                target_damage: target_damage as int,
                self_damage: self_damage as int,
                target_heal: target_heal as int,
                self_heal: self_heal as int,
                self_damage_reduction: reduction as int,
            }),
        decreases items.len() - i,
    {
        let given = item_contribution(&items[i]);
        let td: u8 = or_zero(given.target_damage);
        let sd: u8 = or_zero(given.self_damage);
        let th: u8 = or_zero(given.target_heal);
        let sh: u8 = or_zero(given.self_heal);
        proof {
            lemma_items_total_step(items@, i as int);
            lemma_items_total_grows(items@, i + 1);
        }
        if td > u8::MAX - target_damage || sd > u8::MAX - self_damage || th > u8::MAX
            - target_heal || sh > u8::MAX - self_heal {
            return None;
        }
        target_damage = target_damage + td;
        self_damage = self_damage + sd;
        target_heal = target_heal + th;
        self_heal = self_heal + sh;
        i += 1;
    }
    proof {
        assert(items@.subrange(0, i as int) =~= items@);
    }
    Some(
        AbilityEffects {
            target_damage: Some(target_damage),
            self_damage: Some(self_damage),
            target_heal: Some(target_heal),
            self_heal: Some(self_heal),
            self_damage_reduction: Some(reduction),
        },
    )
}

/// Resolves the effects of an ability for the two sides of a turn. Every field
/// of the bundles that come back is set.
pub fn sum_effects(
    actor_account: &String,
    actor: &Player,
    ability_effects: &AbilityEffects,
    target_account: &String,
    target: &Player,
) -> (resolved: Result<(AbilityEffects, AbilityEffects), GameError>)
    ensures
        match resolved {
            Ok((for_actor, for_target)) => {
                &&& effects_result(
                    actor_account@,
                    actor@.items,
                    ability_effects@,
                    target_account@,
                    target@.items,
                ) == Ok::<(EffectTotals, EffectTotals), GameError>((for_actor@, for_target@))
                &&& for_actor.is_explicit()
                &&& for_target.is_explicit()
            },
            Err(e) => effects_result(
                actor_account@,
                actor@.items,
                ability_effects@,
                target_account@,
                target@.items,
            ) == Err::<(EffectTotals, EffectTotals), GameError>(e),
        },
{
    if *actor_account == *target_account {
        return Err(GameError::InvalidTarget);
    }
    let nothing = AbilityEffects {
        target_damage: Some(0),
        self_damage: Some(0),
        target_heal: Some(0),
        self_heal: Some(0),
        self_damage_reduction: Some(0),
    };
    let actor_items = match actor {
        Player::BaseVersion(p) => &p.items,
    };
    let target_items = match target {
        Player::BaseVersion(p) => &p.items,
    };
    let for_actor = add_items(ability_effects, actor_items);
    let for_target = add_items(&nothing, target_items);
    match (for_actor, for_target) {
        (Some(a), Some(t)) => Ok((a, t)),
        _ => Err(GameError::Overflow),
    }
}

/// Health after damage: the difference, or zero where the damage is larger.
pub open spec fn reduced_health(health: int, damage: int) -> int {
    if health - damage > 0 {
        health - damage
    } else {
        0
    }
}

/// Takes damage off a health value; health never falls below zero.
pub fn reduce_health(health: u8, damage: u8) -> (left: u8)
    ensures
        left as int == reduced_health(health as int, damage as int),
        left <= health,
{
    if damage >= health {
        0
    } else {
        health - damage
    }
}

/// The extra damage of a critical strike: five for each six levels where the
/// level is a positive multiple of six, nothing at any other level.
pub open spec fn critical_bonus(level: int) -> int {
    if level > 0 && level % 6 == 0 {
        CRITICAL_STRIKE as int * (level / 6)
    } else {
        0
    }
}

/// Computes the extra damage that an actor deals at the given level.
pub fn critical_strike_bonus(level: u8) -> (bonus: u8)
    ensures
        bonus as int == critical_bonus(level as int),
{
    if level > 0 && level % 6 == 0 {
        CRITICAL_STRIKE * (level / 6)
    } else {
        0
    }
}

/// What becomes of a player after a turn. One with health left stays as they
/// are. One at zero health uses their self heal once; with none they are gone.
pub open spec fn survivor(player: PlayerView, self_heal: int) -> Option<PlayerView> {
    if player.health > 0 {
        Some(player)
    } else if self_heal > 0 {
        Some(PlayerView { health: self_heal as u8, ..player })
    } else {
        None
    }
}

/// The views of an optional record.
pub open spec fn view_of(player: Option<PlayerV1>) -> Option<PlayerView> {
    match player {
        Some(p) => Some(p@),
        None => None,
    }
}

/// Decides whether a player stays in the game after a turn, healing them once
/// where their health is spent.
pub fn check_death_or_heal(player: PlayerV1, ability_effects: &AbilityEffects) -> (left: Option<
    PlayerV1,
>)
    ensures
        view_of(left) == survivor(player@, ability_effects@.self_heal),
{
    let mut player = player;
    if player.health == 0 {
        let heal_to_self: u8 = or_zero(ability_effects.self_heal);
        player.health = heal_to_self;
        if player.health == 0 {
            None
        } else {
            Some(player)
        }
    } else {
        Some(player)
    }
}

/// The two players as a turn leaves them; a player who died is absent.
#[derive(Debug, PartialEq)]
pub struct TurnOutcome {
    pub actor: Option<PlayerV1>,
    pub target: Option<PlayerV1>,
}

impl View for TurnOutcome {
    type V = (Option<PlayerView>, Option<PlayerView>);

    open spec fn view(&self) -> (Option<PlayerView>, Option<PlayerView>) {
        (view_of(self.actor), view_of(self.target))
    }
}

/// Applies resolved effects. The actor takes their self damage and gains one
/// level; the target takes the target damage plus the critical bonus of the
/// actor's new level; then each side is checked for death on its own.
pub open spec fn turn_applied(
    actor: PlayerView,
    target: PlayerView,
    for_actor: EffectTotals,
    for_target: EffectTotals,
) -> Result<(Option<PlayerView>, Option<PlayerView>), GameError> {
    let level = actor.level + 1;
    let damage = for_actor.target_damage + critical_bonus(level);
    if level > u8::MAX || damage > u8::MAX {
        Err(GameError::Overflow)
    } else {
        Ok(
            (
                survivor(
                    PlayerView {
                        health: reduced_health(actor.health as int, for_actor.self_damage) as u8,
                        level: level as u8,
                        ..actor
                    },
                    for_actor.self_heal,
                ),
                survivor(
                    PlayerView {
                        health: reduced_health(target.health as int, damage) as u8,
                        ..target
                    },
                    for_target.self_heal,
                ),
            ),
        )
    }
}

/// Applies the resolved effects of a turn to the two players.
pub fn apply_effects(
    actor: PlayerV1,
    target: PlayerV1,
    actor_effect: &AbilityEffects,
    target_effect: &AbilityEffects,
) -> (outcome: Result<TurnOutcome, GameError>)
    ensures
        match outcome {
            Ok(o) => turn_applied(actor@, target@, actor_effect@, target_effect@) == Ok::<
                (Option<PlayerView>, Option<PlayerView>),
                GameError,
            >(o@),
            Err(e) => turn_applied(actor@, target@, actor_effect@, target_effect@) == Err::<
                (Option<PlayerView>, Option<PlayerView>),
                GameError,
            >(e),
        },
{
    let mut actor = actor;
    let mut target = target;
    if actor.level == u8::MAX {
        return Err(GameError::Overflow);
    }
    let damage_to_self: u8 = or_zero(actor_effect.self_damage);
    actor.health = reduce_health(actor.health, damage_to_self);
    actor.level = actor.level + 1;
    let base_damage: u8 = or_zero(actor_effect.target_damage);
    let bonus: u8 = critical_strike_bonus(actor.level);
    if bonus > u8::MAX - base_damage {
        return Err(GameError::Overflow);
    }
    let damage_to_target: u8 = base_damage + bonus;
    target.health = reduce_health(target.health, damage_to_target);
    let actor_left = check_death_or_heal(actor, actor_effect);
    let target_left = check_death_or_heal(target, target_effect);
    Ok(TurnOutcome { actor: actor_left, target: target_left })
}

/// A whole turn between two players of one game: the actor's class must offer
/// the wanted kind of ability; its tuned effects are resolved against both
/// players' items and applied.
pub open spec fn turn_result(
    wanted: AbilityKind,
    actor_account: Seq<char>,
    actor: PlayerView,
    target_account: Seq<char>,
    target: PlayerView,
) -> Result<(Option<PlayerView>, Option<PlayerView>), GameError> {
    match class_ability(actor.hero_class, wanted) {
        None => Err(GameError::AbilityNotAvailable),
        Some(ability) => match effects_result(
            actor_account,
            actor.items,
            ability.spec_effects()@,
            target_account,
            target.items,
        ) {
            Err(e) => Err(e),
            Ok((for_actor, for_target)) => turn_applied(actor, target, for_actor, for_target),
        },
    }
}

/// Plays one turn: `wanted` names the kind of ability (its own effects are not
/// read), the stored records are read in their latest version.
pub fn play_turn(
    wanted: &HeroAbility,
    actor_account: &String,
    actor: &Player,
    target_account: &String,
    target: &Player,
) -> (outcome: Result<TurnOutcome, GameError>)
    ensures
        match outcome {
            Ok(o) => turn_result(wanted.spec_kind(), actor_account@, actor@, target_account@, target@)
                == Ok::<(Option<PlayerView>, Option<PlayerView>), GameError>(o@),
            Err(e) => turn_result(wanted.spec_kind(), actor_account@, actor@, target_account@, target@)
                == Err::<(Option<PlayerView>, Option<PlayerView>), GameError>(e),
        },
{
    let player_obj = get_player_obj(actor);
    let target_obj = get_player_obj(target);
    let player_ability = match find_class_ability(&player_obj.hero_class, wanted) {
        Some(ability) => ability,
        None => {
            return Err(GameError::AbilityNotAvailable);
        },
    };
    let player_ability_effects = player_ability.effects();
    let (actor_effect, target_effect) = match sum_effects(
        actor_account,
        actor,
        &player_ability_effects,
        target_account,
        target,
    ) {
        Ok(pair) => pair,
        Err(e) => {
            return Err(e);
        },
    };
    apply_effects(player_obj, target_obj, &actor_effect, &target_effect)
}

/// Health after damage is never negative: it is the larger of zero and the
/// difference, and no more than it was.
pub proof fn lemma_health_floor(health: int, damage: int)
    requires
        0 <= health,
        0 <= damage,
    ensures
        0 <= reduced_health(health, damage) <= health,
        health >= damage ==> reduced_health(health, damage) == health - damage,
        health < damage ==> reduced_health(health, damage) == 0,
{
}

/// The critical bonus is five times the sixth of the level at positive
/// multiples of six, and nothing at every other level.
pub proof fn lemma_critical_bonus(level: int)
    ensures
        level > 0 && level % 6 == 0 ==> critical_bonus(level) == 5 * (level / 6)
            && critical_bonus(level) > 0,
        !(level > 0 && level % 6 == 0) ==> critical_bonus(level) == 0,
{
}

/// A turn that is not refused leaves the actor one level higher, and the target
/// with its health less the target damage and the critical bonus of that level.
pub proof fn lemma_turn_levels_and_damage(
    actor: PlayerView,
    target: PlayerView,
    for_actor: EffectTotals,
    for_target: EffectTotals,
)
    requires
        for_actor.fits(),
        for_target.fits(),
        turn_applied(actor, target, for_actor, for_target).is_ok(),
    ensures
        ({
            let (actor_left, target_left) = turn_applied(
                actor,
                target,
                for_actor,
                for_target,
            ).unwrap();
            let level = actor.level + 1;
            let damage = for_actor.target_damage + critical_bonus(level);
            &&& actor_left.is_some() ==> actor_left.unwrap().level == level
            &&& target_left.is_some() && reduced_health(target.health as int, damage) > 0
                ==> target_left.unwrap().health == reduced_health(target.health as int, damage)
            &&& target_left.is_none() <==> reduced_health(target.health as int, damage) == 0
                && for_target.self_heal == 0
            &&& actor_left.is_none() <==> reduced_health(
                actor.health as int,
                for_actor.self_damage,
            ) == 0 && for_actor.self_heal == 0
        }),
{
}

/// An ability turned on the account that uses it is refused, whatever the
/// ability and whatever the two records hold.
pub proof fn lemma_self_target_refused(
    wanted: AbilityKind,
    account: Seq<char>,
    actor: PlayerView,
    target: PlayerView,
)
    ensures
        turn_result(wanted, account, actor, account, target).is_err(),
        class_ability(actor.hero_class, wanted).is_some() ==> turn_result(
            wanted,
            account,
            actor,
            account,
            target,
        ) == Err::<(Option<PlayerView>, Option<PlayerView>), GameError>(GameError::InvalidTarget),
{
}

} // verus!
