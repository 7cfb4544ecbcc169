use vstd::prelude::*;
use vstd::string::*;
use crate::error::GameError;

verus! {

/// The archetype of a hero: it fixes the base stats and the abilities on offer.
#[derive(Clone, Copy, Debug, PartialEq, Eq, Structural)]
pub enum HeroClass {
    Ogre,
    Mage,
    Cleric,
}

/// Starting health and starting level of each class.
pub open spec fn base_stats(class: HeroClass) -> (u8, u8) {
    match class {
        HeroClass::Ogre => (150u8, 1u8),
        HeroClass::Mage => (100u8, 3u8),
        HeroClass::Cleric => (80u8, 5u8),
    }
}

/// Returns the pair of starting health and starting level.
pub fn get_base_stats(class: &HeroClass) -> (stats: (u8, u8))
    ensures
        stats == base_stats(*class),
{
    match class {
        HeroClass::Ogre => (150, 1),
        HeroClass::Mage => (100, 3),
        HeroClass::Cleric => (80, 5),
    }
}

/// What an optional effect field amounts to: an absent field counts as zero.
pub open spec fn amount(field: Option<u8>) -> int {
    match field {
        Some(n) => n as int,
        None => 0,
    }
}

/// The five effect amounts as unbounded integers.
pub ghost struct EffectTotals {
    pub target_damage: int,
    pub self_damage: int,
    pub target_heal: int,
    pub self_heal: int,
    pub self_damage_reduction: int,
}

impl EffectTotals {
    /// The bundle in which every amount is zero.
    pub open spec fn zero() -> EffectTotals {
        EffectTotals {
            target_damage: 0,
            self_damage: 0,
            target_heal: 0,
            self_heal: 0,
            self_damage_reduction: 0,
        }
    }

    /// Field by field sum of two bundles.
    pub open spec fn plus(self, other: EffectTotals) -> EffectTotals {
        EffectTotals {
            target_damage: self.target_damage + other.target_damage,
            self_damage: self.self_damage + other.self_damage,
            target_heal: self.target_heal + other.target_heal,
            self_heal: self.self_heal + other.self_heal,
            self_damage_reduction: self.self_damage_reduction + other.self_damage_reduction,
        }
    }

    /// Every amount can be stored in one byte.
    pub open spec fn fits(self) -> bool {
        &&& 0 <= self.target_damage <= u8::MAX
        &&& 0 <= self.self_damage <= u8::MAX
        &&& 0 <= self.target_heal <= u8::MAX
        &&& 0 <= self.self_heal <= u8::MAX
        &&& 0 <= self.self_damage_reduction <= u8::MAX
    }
}

/// Five independent amounts that an ability or an item contributes.
#[derive(Clone, Copy, Debug, PartialEq, Eq)]
pub struct AbilityEffects {
    pub target_damage: Option<u8>,
    pub self_damage: Option<u8>,
    pub target_heal: Option<u8>,
    pub self_heal: Option<u8>,
    pub self_damage_reduction: Option<u8>,
}

impl View for AbilityEffects {
    type V = EffectTotals;

    open spec fn view(&self) -> EffectTotals {
        EffectTotals {
            target_damage: amount(self.target_damage),
            self_damage: amount(self.self_damage),
            target_heal: amount(self.target_heal),
            self_heal: amount(self.self_heal),
            self_damage_reduction: amount(self.self_damage_reduction),
        }
    }
}

impl Default for AbilityEffects {
    fn default() -> (effects: Self)
        ensures
            effects == AbilityEffects::absent(),
    {
        AbilityEffects {
            target_damage: None,
            self_damage: None,
            target_heal: None,
            self_heal: None,
            self_damage_reduction: None,
        }
    }
}

impl AbilityEffects {
    /// The bundle with no field set.
    pub open spec fn absent() -> AbilityEffects {
        AbilityEffects {
            target_damage: None,
            self_damage: None,
            target_heal: None,
            self_heal: None,
            self_damage_reduction: None,
        }
    }

    /// Every field holds a value, none is absent.
    pub open spec fn is_explicit(self) -> bool {
        &&& self.target_damage.is_some()
        &&& self.self_damage.is_some()
        &&& self.target_heal.is_some()
        &&& self.self_heal.is_some()
        &&& self.self_damage_reduction.is_some()
    }

    /// What `+` gives for two bundles: every field set, to the sum of the two
    /// amounts.
    pub open spec fn sum(self, other: AbilityEffects) -> AbilityEffects {
        AbilityEffects::explicit(self@.plus(other@))
    }

    /// The bundle whose fields are all set, to the given amounts.
    pub open spec fn explicit(totals: EffectTotals) -> AbilityEffects {
        AbilityEffects {
            target_damage: Some(totals.target_damage as u8),
            self_damage: Some(totals.self_damage as u8),
            target_heal: Some(totals.target_heal as u8),
            self_heal: Some(totals.self_heal as u8),
            self_damage_reduction: Some(totals.self_damage_reduction as u8),
        }
    }
}

/// Adding two bundles adds them field by field. Absent fields count as zero and
/// every field of the sum is set. The sums must fit in a byte each.
impl core::ops::Add for AbilityEffects {
    type Output = Self;

    fn add(self, other: Self) -> (sum: Self) {
        AbilityEffects {
            target_damage: Some(or_zero(self.target_damage) + or_zero(other.target_damage)),
            self_damage: Some(or_zero(self.self_damage) + or_zero(other.self_damage)),
            target_heal: Some(or_zero(self.target_heal) + or_zero(other.target_heal)),
            self_heal: Some(or_zero(self.self_heal) + or_zero(other.self_heal)),
            self_damage_reduction: Some(
                or_zero(self.self_damage_reduction) + or_zero(other.self_damage_reduction),
            ),
        }
    }
}

impl vstd::std_specs::ops::AddSpecImpl for AbilityEffects {
    open spec fn obeys_add_spec() -> bool {
        true
    }

    open spec fn add_req(self, rhs: Self) -> bool {
        self@.plus(rhs@).fits()
    }

    open spec fn add_spec(self, rhs: Self) -> Self {
        self.sum(rhs)
    }
}

/// The value of an optional effect field, zero where it is absent.
pub fn or_zero(field: Option<u8>) -> (n: u8)
    ensures
        n as int == amount(field),
{
    match field {
        Some(n) => n,
        None => 0,
    }
}

/// Adding effect totals does not depend on the order of the operands.
pub proof fn lemma_plus_commutative(a: EffectTotals, b: EffectTotals)
    ensures
        a.plus(b) == b.plus(a),
{
}

/// The all-zero totals are the identity of addition, on either side.
pub proof fn lemma_plus_zero(a: EffectTotals)
    ensures
        a.plus(EffectTotals::zero()) == a,
        EffectTotals::zero().plus(a) == a,
{
}

/// The sum of two bundles does not depend on their order, and amounts to the
/// sum of what the two amount to. A bundle without fields, and one with every
/// field zero, changes no amount, on either side.
pub proof fn lemma_sum_of_effects(a: AbilityEffects, b: AbilityEffects)
    requires
        a@.plus(b@).fits(),
    ensures
        a.sum(b) == b.sum(a),
        a.sum(b)@ == a@.plus(b@),
        a.sum(b).is_explicit(),
        b@ == EffectTotals::zero() ==> a.sum(b)@ == a@ && b.sum(a)@ == a@,
        AbilityEffects::absent()@ == EffectTotals::zero(),
{
}

/// The tag of an ability, without its effects.
#[derive(Clone, Copy, Debug, PartialEq, Eq, Structural)]
pub enum AbilityKind {
    Strike,
    HeadBonk,
    Heal,
    Ultimate,
}

/// A combat action: a kind together with the effects it was tuned with.
#[derive(Clone, Copy, Debug, PartialEq, Eq)]
pub enum HeroAbility {
    Strike(AbilityEffects),
    HeadBonk(AbilityEffects),
    Heal(AbilityEffects),
    Ultimate(AbilityEffects),
}

impl HeroAbility {
    /// The kind of the ability, whatever effects it carries.
    pub open spec fn spec_kind(&self) -> AbilityKind {
        match *self {
            HeroAbility::Strike(_) => AbilityKind::Strike,
            HeroAbility::HeadBonk(_) => AbilityKind::HeadBonk,
            HeroAbility::Heal(_) => AbilityKind::Heal,
            HeroAbility::Ultimate(_) => AbilityKind::Ultimate,
        }
    }

    /// The effects that the ability carries.
    pub open spec fn spec_effects(&self) -> AbilityEffects {
        match *self {
            HeroAbility::Strike(e) => e,
            HeroAbility::HeadBonk(e) => e,
            HeroAbility::Heal(e) => e,
            HeroAbility::Ultimate(e) => e,
        }
    }

    /// Builds the ability of the given kind with the given effects.
    pub open spec fn spec_make(kind: AbilityKind, effects: AbilityEffects) -> HeroAbility {
        match kind {
            AbilityKind::Strike => HeroAbility::Strike(effects),
            AbilityKind::HeadBonk => HeroAbility::HeadBonk(effects),
            AbilityKind::Heal => HeroAbility::Heal(effects),
            AbilityKind::Ultimate => HeroAbility::Ultimate(effects),
        }
    }

    /// Returns the kind of the ability.
    #[verifier::when_used_as_spec(spec_kind)]
    pub fn kind(&self) -> (k: AbilityKind)
        ensures
            k == self.spec_kind(),
    {
        match self {
            HeroAbility::Strike(_) => AbilityKind::Strike,
            HeroAbility::HeadBonk(_) => AbilityKind::HeadBonk,
            HeroAbility::Heal(_) => AbilityKind::Heal,
            HeroAbility::Ultimate(_) => AbilityKind::Ultimate,
        }
    }

    /// Returns the effects that the ability carries.
    #[verifier::when_used_as_spec(spec_effects)]
    pub fn effects(&self) -> (e: AbilityEffects)
        ensures
            e == self.spec_effects(),
    {
        match self {
            HeroAbility::Strike(e) => *e,
            HeroAbility::HeadBonk(e) => *e,
            HeroAbility::Heal(e) => *e,
            HeroAbility::Ultimate(e) => *e,
        }
    }
}

/// Whether two abilities are of the same kind; their effects play no part.
pub fn ability_variant_eq(a: &HeroAbility, b: &HeroAbility) -> (same: bool)
    ensures
        same == (a.spec_kind() == b.spec_kind()),
{
    a.kind() == b.kind()
}

impl AbilityKind {
    /// The canonical name of the kind.
    pub open spec fn spec_name(&self) -> Seq<char> {
        match *self {
            AbilityKind::Strike => "strike"@,
            AbilityKind::HeadBonk => "headbonk"@,
            AbilityKind::Heal => "heal"@,
            AbilityKind::Ultimate => "ultimate"@,
        }
    }

    /// Returns the canonical name of the kind.
    pub fn name(&self) -> (name: &'static str)
        ensures
            name@ == self.spec_name(),
    {
        match self {
            AbilityKind::Strike => "strike",
            AbilityKind::HeadBonk => "headbonk",
            AbilityKind::Heal => "heal",
            AbilityKind::Ultimate => "ultimate",
        }
    }
}

/// Every kind of ability, in the order in which the kinds are listed to players.
pub open spec fn ability_catalog() -> Seq<AbilityKind> {
    seq![AbilityKind::Strike, AbilityKind::HeadBonk, AbilityKind::Heal, AbilityKind::Ultimate]
}

/// The canonical names of the catalog, in its order.
pub open spec fn catalog_names() -> Seq<Seq<char>> {
    Seq::new(ability_catalog().len(), |i: int| ability_catalog()[i].spec_name())
}

/// The views of a list of string slices.
pub open spec fn views_of(names: Seq<&'static str>) -> Seq<Seq<char>> {
    Seq::new(names.len(), |i: int| names[i]@)
}

impl HeroAbility {
    /// The canonical names of all kinds of ability, in catalog order.
    pub fn values() -> (names: Vec<&'static str>)
        ensures
            views_of(names@) == catalog_names(),
    {
        let names = vec![
            AbilityKind::Strike.name(),
            AbilityKind::HeadBonk.name(),
            AbilityKind::Heal.name(),
            AbilityKind::Ultimate.name(),
        ];
        assert(views_of(names@) =~= catalog_names());
        names
    }
}

/// The kind that a name stands for. Names are case-sensitive; "bonk" and "ult"
/// are short forms.
pub open spec fn resolve_name(name: Seq<char>) -> Option<AbilityKind> {
    if name == "strike"@ {
        Some(AbilityKind::Strike)
    } else if name == "headbonk"@ || name == "bonk"@ {
        Some(AbilityKind::HeadBonk)
    } else if name == "heal"@ {
        Some(AbilityKind::Heal)
    } else if name == "ultimate"@ || name == "ult"@ {
        Some(AbilityKind::Ultimate)
    } else {
        None
    }
}

/// Looks an ability up by name. The ability that comes back carries no effects:
/// it serves to select a class's tuned ability of the same kind.
pub fn get_ability_variant(ability_plain: &String) -> (variant: Option<HeroAbility>)
    ensures
        variant == match resolve_name(ability_plain@) {
            Some(kind) => Some(HeroAbility::spec_make(kind, AbilityEffects::absent())),
            None => None,
        },
{
    if *ability_plain == String::from_str("strike") {
        Some(HeroAbility::Strike(AbilityEffects::default()))
    } else if *ability_plain == String::from_str("headbonk") || *ability_plain == String::from_str(
        "bonk",
    ) {
        Some(HeroAbility::HeadBonk(AbilityEffects::default()))
    } else if *ability_plain == String::from_str("heal") {
        Some(HeroAbility::Heal(AbilityEffects::default()))
    } else if *ability_plain == String::from_str("ultimate") || *ability_plain == String::from_str(
        "ult",
    ) {
        Some(HeroAbility::Ultimate(AbilityEffects::default()))
    } else {
        None
    }
}

/// The six recognised names are six different strings.
proof fn lemma_names_differ()
    ensures
        "strike"@.len() == 6,
        "headbonk"@.len() == 8,
        "bonk"@.len() == 4,
        "heal"@.len() == 4,
        "ultimate"@.len() == 8,
        "ult"@.len() == 3,
        "bonk"@ != "heal"@,
        "headbonk"@ != "ultimate"@,
{
    reveal_strlit("strike");
    reveal_strlit("headbonk");
    reveal_strlit("bonk");
    reveal_strlit("heal");
    reveal_strlit("ultimate");
    reveal_strlit("ult");
    assert("bonk"@[0] == 'b');
    assert("heal"@[0] == 'h');
    assert("headbonk"@[0] == 'h');
    assert("ultimate"@[0] == 'u');
}

/// The two spellings of the head bonk name the same kind, and so do the two of
/// the ultimate.
pub proof fn lemma_aliases_agree()
    ensures
        resolve_name("bonk"@) == resolve_name("headbonk"@),
        resolve_name("bonk"@) == Some(AbilityKind::HeadBonk),
        resolve_name("ult"@) == resolve_name("ultimate"@),
        resolve_name("ult"@) == Some(AbilityKind::Ultimate),
{
    lemma_names_differ();
}

/// Each kind's canonical name resolves to that kind, so the four canonical
/// names resolve to four different kinds.
pub proof fn lemma_canonical_names_distinct(a: AbilityKind, b: AbilityKind)
    ensures
        resolve_name(a.spec_name()) == Some(a),
        a != b ==> resolve_name(a.spec_name()) != resolve_name(b.spec_name()),
        a != b ==> a.spec_name() != b.spec_name(),
{
    lemma_names_differ();
}

/// A name resolves to no kind exactly when it is none of the six recognised names.
pub proof fn lemma_unrecognised_names(name: Seq<char>)
    ensures
        resolve_name(name).is_none() <==> !(name == "strike"@ || name == "headbonk"@ || name
            == "bonk"@ || name == "heal"@ || name == "ultimate"@ || name == "ult"@),
{
}

/// An effect bundle that sets target damage and self damage and nothing else.
pub open spec fn damage_effects(target_damage: Option<u8>, self_damage: Option<u8>) -> AbilityEffects {
    AbilityEffects {
        target_damage,
        self_damage,
        target_heal: None,
        self_heal: None,
        self_damage_reduction: None,
    }
}

/// The abilities that each class offers, each with the effects tuned for the class.
pub open spec fn hero_abilities(class: HeroClass) -> Seq<HeroAbility> {
    match class {
        HeroClass::Ogre => seq![
            HeroAbility::Strike(damage_effects(Some(20u8), None)),
            HeroAbility::HeadBonk(damage_effects(Some(25u8), Some(5u8))),
            HeroAbility::Ultimate(damage_effects(Some(30u8), None)),
        ],
        HeroClass::Mage => seq![
            HeroAbility::Strike(damage_effects(Some(25u8), Some(5u8))),
            HeroAbility::Heal(damage_effects(Some(25u8), Some(5u8))),
            HeroAbility::Ultimate(damage_effects(Some(25u8), Some(5u8))),
        ],
        HeroClass::Cleric => seq![
            HeroAbility::Heal(damage_effects(Some(25u8), Some(5u8))),
            HeroAbility::Ultimate(damage_effects(Some(25u8), Some(5u8))),
        ],
    }
}

fn damaging(target_damage: u8, self_damage: Option<u8>) -> (effects: AbilityEffects)
    ensures
        effects == damage_effects(Some(target_damage), self_damage),
{
    AbilityEffects {
        target_damage: Some(target_damage),
        self_damage,
        target_heal: None,
        self_heal: None,
        self_damage_reduction: None,
    }
}

/// Returns the abilities of a class in their fixed order.
pub fn get_hero_abilities(class: &HeroClass) -> (abilities: Vec<HeroAbility>)
    ensures
        abilities@ == hero_abilities(*class),
{
    let abilities = match class {
        HeroClass::Ogre => vec![
            HeroAbility::Strike(damaging(20, None)),
            HeroAbility::HeadBonk(damaging(25, Some(5))),
            HeroAbility::Ultimate(damaging(30, None)),
        ],
        HeroClass::Mage => vec![
            HeroAbility::Strike(damaging(25, Some(5))),
            HeroAbility::Heal(damaging(25, Some(5))),
            HeroAbility::Ultimate(damaging(25, Some(5))),
        ],
        HeroClass::Cleric => vec![
            HeroAbility::Heal(damaging(25, Some(5))),
            HeroAbility::Ultimate(damaging(25, Some(5))),
        ],
    };
    assert(abilities@ =~= hero_abilities(*class));
    abilities
}

/// Every class offers at least one ability, each of a kind that the catalog
/// lists, and offers no kind twice.
pub proof fn lemma_hero_abilities_sound(class: HeroClass)
    ensures
        hero_abilities(class).len() > 0,
        forall|i: int|
            0 <= i < hero_abilities(class).len() ==> ability_catalog().contains(
                #[trigger] hero_abilities(class)[i].spec_kind(),
            ),
        forall|i: int, j: int|
            0 <= i < j < hero_abilities(class).len() ==> hero_abilities(class)[i].spec_kind()
                != hero_abilities(class)[j].spec_kind(),
{
    assert(ability_catalog()[0] == AbilityKind::Strike);
    assert(ability_catalog()[1] == AbilityKind::HeadBonk);
    assert(ability_catalog()[2] == AbilityKind::Heal);
    assert(ability_catalog()[3] == AbilityKind::Ultimate);
}

/// The first ability of the given kind in a list, if there is one.
pub open spec fn first_of_kind(abilities: Seq<HeroAbility>, kind: AbilityKind) -> Option<
    HeroAbility,
>
    decreases abilities.len(),
{
    if abilities.len() == 0 {
        None
    } else if abilities[0].spec_kind() == kind {
        Some(abilities[0])
    } else {
        first_of_kind(abilities.drop_first(), kind)
    }
}

/// The class's ability of the given kind, if the class offers that kind.
pub open spec fn class_ability(class: HeroClass, kind: AbilityKind) -> Option<HeroAbility> {
    first_of_kind(hero_abilities(class), kind)
}

/// Selects from a class's abilities the one whose kind is that of `wanted`.
pub fn find_class_ability(class: &HeroClass, wanted: &HeroAbility) -> (found: Option<HeroAbility>)
    ensures
        found == class_ability(*class, wanted.spec_kind()),
{
    let abilities = get_hero_abilities(class);
    let mut i: usize = 0;
    proof {
        assert(abilities@.subrange(0, abilities@.len() as int) =~= abilities@);
    }
    while i < abilities.len()
        invariant
            i <= abilities.len(),
            abilities@ == hero_abilities(*class),
            first_of_kind(abilities@.subrange(i as int, abilities@.len() as int), wanted.spec_kind())
                == class_ability(*class, wanted.spec_kind()),
        decreases abilities.len() - i,
    {
        proof {
            assert(abilities@.subrange(i as int, abilities@.len() as int).drop_first()
                =~= abilities@.subrange(i + 1, abilities@.len() as int));
        }
        if ability_variant_eq(&abilities[i], wanted) {
            return Some(abilities[i]);
        }
        i += 1;
    }
    None
}

/// A class offers an ability of a kind exactly when one of its abilities is of
/// that kind, and the ability that is found is of the kind asked for.
pub proof fn lemma_class_ability(class: HeroClass, kind: AbilityKind)
    ensures
        class_ability(class, kind).is_some() <==> exists|i: int|
            0 <= i < hero_abilities(class).len() && hero_abilities(class)[i].spec_kind() == kind,
        class_ability(class, kind).is_some() ==> class_ability(class, kind).unwrap().spec_kind()
            == kind && hero_abilities(class).contains(class_ability(class, kind).unwrap()),
{
    let abilities = hero_abilities(class);
    reveal_with_fuel(first_of_kind, 4);
    assert(abilities.drop_first().len() == abilities.len() - 1);
    if abilities.len() == 3 {
        assert(abilities.drop_first()[0] == abilities[1]);
        assert(abilities.drop_first().drop_first()[0] == abilities[2]);
        assert(abilities.drop_first().drop_first().drop_first().len() == 0);
    } else {
        assert(abilities.len() == 2);
        assert(abilities.drop_first()[0] == abilities[1]);
        assert(abilities.drop_first().drop_first().len() == 0);
    }
    if class_ability(class, kind).is_some() {
        let found = class_ability(class, kind).unwrap();
        assert(found == abilities[0] || found == abilities[1] || (abilities.len() == 3 && found
            == abilities[2]));
    }
}

/// Pieces joined in order, with the separator between neighbours.
pub open spec fn join_with(parts: Seq<Seq<char>>, sep: Seq<char>) -> Seq<char>
    decreases parts.len(),
{
    if parts.len() == 0 {
        Seq::empty()
    } else if parts.len() == 1 {
        parts[0]
    } else {
        join_with(parts.drop_last(), sep) + sep + parts.last()
    }
}

/// A list of names as a sentence offers a choice: all but the last joined by
/// ", ", then ", or " and the last.
pub open spec fn choice_of(names: Seq<Seq<char>>) -> Seq<char>
    recommends
        names.len() > 0,
{
    join_with(names.drop_last(), ", "@) + ", or "@ + names.last()
}

/// The catalog as a choice reads: strike, headbonk, heal, or ultimate. Each
/// name of the catalog stands in it once, with ", or" before the last.
pub proof fn lemma_catalog_choice()
    ensures
        choice_of(catalog_names()) == "strike, headbonk, heal, or ultimate"@,
{
    reveal_with_fuel(join_with, 4);
    reveal_strlit("strike");
    reveal_strlit("headbonk");
    reveal_strlit("heal");
    reveal_strlit("ultimate");
    reveal_strlit(", ");
    reveal_strlit(", or ");
    reveal_strlit("strike, headbonk, heal, or ultimate");
    let names = catalog_names();
    assert(names.drop_last().drop_last().drop_last() =~= seq!["strike"@]);
    assert(names.drop_last().drop_last() =~= seq!["strike"@, "headbonk"@]);
    assert(names.drop_last() =~= seq!["strike"@, "headbonk"@, "heal"@]);
    assert(choice_of(names) =~= "strike, headbonk, heal, or ultimate"@);
}

/// Renders a list of names as a choice. An empty list cannot be rendered.
pub fn render_choice(names: &Vec<&'static str>) -> (rendered: Result<String, GameError>)
    ensures
        names@.len() == 0 ==> rendered == Err::<String, GameError>(GameError::EmptyCatalog),
        names@.len() > 0 ==> rendered.is_ok() && rendered.unwrap()@ == choice_of(views_of(names@)),
{
    if names.len() == 0 {
        return Err(GameError::EmptyCatalog);
    }
    let last: usize = names.len() - 1;
    let ghost parts = views_of(names@).drop_last();
    let mut out = String::new();
    let mut i: usize = 0;
    while i < last
        invariant
            i <= last,
            last == names@.len() - 1,
            parts == views_of(names@).drop_last(),
            out@ == join_with(parts.subrange(0, i as int), ", "@),
        decreases last - i,
    {
        proof {
            assert(parts.subrange(0, i + 1).drop_last() =~= parts.subrange(0, i as int));
            assert(parts.subrange(0, i + 1).last() == names@[i as int]@);
        }
        if i > 0 {
            out.append(", ");
        }
        out.append(names[i]);
        proof {
            if i == 0 {
                assert(out@ =~= names@[0]@);
            }
        }
        i += 1;
    }
    proof {
        assert(parts.subrange(0, last as int) =~= parts);
    }
    out.append(", or ");
    out.append(names[last]);
    Ok(out)
}

} // verus!
