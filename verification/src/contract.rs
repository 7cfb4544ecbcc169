use std::collections::HashMap;
use vstd::prelude::*;
use vstd::string::*;
use crate::combat::{
    critical_bonus, effects_result, lemma_turn_levels_and_damage, play_turn, reduced_health,
    turn_result, view_of, TurnOutcome,
};
use crate::error::GameError;
use crate::game::{ascending, lines_view, listed, roster_map, Game, RosterLine};
use crate::hero_class::{
    base_stats, catalog_names, choice_of, class_ability, find_class_ability, get_ability_variant,
    get_base_stats, lemma_catalog_choice, render_choice, resolve_name, HeroAbility, HeroClass,
};
use crate::player::{Player, PlayerV1, PlayerView};

verus! {

broadcast use vstd::std_specs::hash::group_hash_axioms;

/// The longest display name that a player may register, in characters.
pub const MAX_NAME_LENGTH: usize = 16;

/// The players of one game by account.
pub type Roster = Map<Seq<char>, PlayerView>;

/// The record of a player who has just registered: the base stats of the class
/// and no items.
pub open spec fn fresh_player(hero_class: HeroClass, name: Seq<char>) -> PlayerView {
    PlayerView {
        name,
        hero_class,
        health: base_stats(hero_class).0,
        level: base_stats(hero_class).1,
        items: Seq::empty(),
    }
}

/// Builds the record of a player who registers. A name of more than sixteen
/// characters is refused.
pub fn new_player(hero_class: HeroClass, name: String) -> (made: Result<Player, GameError>)
    ensures
        name@.len() <= MAX_NAME_LENGTH ==> made.is_ok() && made.unwrap()@ == fresh_player(
            hero_class,
            name@,
        ),
        name@.len() > MAX_NAME_LENGTH ==> made == Err::<Player, GameError>(GameError::NameTooLong),
{
    let (health, level) = get_base_stats(&hero_class);
    if name.as_str().unicode_len() > MAX_NAME_LENGTH {
        return Err(GameError::NameTooLong);
    }
    let player = PlayerV1 { name, hero_class, health, level, items: Vec::new() };
    Ok(Player::BaseVersion(player))
}

/// The games after a registration: the caller's record in the game is the
/// fresh one, whether or not the caller had one; a game that did not exist
/// has the caller as its only player.
pub open spec fn registered(
    games: Map<u32, Roster>,
    caller: Seq<char>,
    hero_class: HeroClass,
    name: Seq<char>,
    game_num: u32,
) -> Map<u32, Roster> {
    let roster = if games.contains_key(game_num) {
        games[game_num]
    } else {
        Map::empty()
    };
    games.insert(game_num, roster.insert(caller, fresh_player(hero_class, name)))
}

/// A roster after a turn has left one of its players changed or dead.
pub open spec fn settled(roster: Roster, account: Seq<char>, left: Option<PlayerView>) -> Roster {
    match left {
        Some(player) => roster.insert(account, player),
        None => roster.remove(account),
    }
}

/// What was found of the two sides of a turn: nothing where the game does not
/// exist, else the caller's and the target's record, each if it is there.
pub type Found = Option<(Option<PlayerView>, Option<PlayerView>)>;

/// The two sides of a turn as the games hold them.
pub open spec fn found_in(
    games: Map<u32, Roster>,
    caller: Seq<char>,
    target: Seq<char>,
    game_num: u32,
) -> Found {
    if games.contains_key(game_num) {
        let roster = games[game_num];
        Some(
            (
                if roster.contains_key(caller) {
                    Some(roster[caller])
                } else {
                    None
                },
                if roster.contains_key(target) {
                    Some(roster[target])
                } else {
                    None
                },
            ),
        )
    } else {
        None
    }
}

/// Whether a turn is played, and what it leaves of the two players. The checks
/// come in this order: the ability's name, the game, the caller's
/// registration, whether the caller's class offers the ability, the target's
/// registration, then the turn itself.
pub open spec fn turn_decision(
    ability: Seq<char>,
    caller: Seq<char>,
    target: Seq<char>,
    found: Found,
) -> Result<(Option<PlayerView>, Option<PlayerView>), GameError> {
    match resolve_name(ability) {
        None => Err(GameError::UnknownAbility),
        Some(kind) => match found {
            None => Err(GameError::GameNotFound),
            Some((None, _)) => Err(GameError::NotRegistered),
            Some((Some(actor), aimed_at)) => if class_ability(actor.hero_class, kind).is_none() {
                Err(GameError::AbilityNotAvailable)
            } else {
                match aimed_at {
                    None => Err(GameError::TargetNotRegistered),
                    Some(aimed_at) => turn_result(kind, caller, actor, target, aimed_at),
                }
            },
        },
    }
}

/// What the use of an ability does to the games: where the turn is played, each
/// of the two players is written back as the turn left them, or taken out of
/// the game if the turn left them dead.
pub open spec fn ability_outcome(
    games: Map<u32, Roster>,
    caller: Seq<char>,
    ability: Seq<char>,
    target: Seq<char>,
    game_num: u32,
) -> Result<Map<u32, Roster>, GameError> {
    match turn_decision(ability, caller, target, found_in(games, caller, target, game_num)) {
        Err(e) => Err(e),
        Ok((actor_left, target_left)) => Ok(
            games.insert(
                game_num,
                settled(settled(games[game_num], caller, actor_left), target, target_left),
            ),
        ),
    }
}

/// The view of what was found of the two sides of a turn.
pub open spec fn found_view(found: Option<(Option<&Player>, Option<&Player>)>) -> Found {
    match found {
        None => None,
        Some((actor, aimed_at)) => Some(
            (
                match actor {
                    Some(p) => Some(p@),
                    None => None,
                },
                match aimed_at {
                    Some(p) => Some(p@),
                    None => None,
                },
            ),
        ),
    }
}

/// Decides a turn from what the store holds: `found` is nothing where the game
/// does not exist, else the caller's and the target's record, each if it is
/// registered. What comes back is to be written to the store.
pub fn decide_turn(
    ability: &String,
    caller: &String,
    target: &String,
    found: Option<(Option<&Player>, Option<&Player>)>,
) -> (outcome: Result<TurnOutcome, GameError>)
    ensures
        match outcome {
            Ok(o) => turn_decision(ability@, caller@, target@, found_view(found)) == Ok::<
                (Option<PlayerView>, Option<PlayerView>),
                GameError,
            >(o@),
            Err(e) => turn_decision(ability@, caller@, target@, found_view(found)) == Err::<
                (Option<PlayerView>, Option<PlayerView>),
                GameError,
            >(e),
        },
{
    let ability_obj = match get_ability_variant(ability) {
        Some(known) => known,
        None => {
            return Err(GameError::UnknownAbility);
        },
    };
    let (player, target_player) = match found {
        Some(pair) => pair,
        None => {
            return Err(GameError::GameNotFound);
        },
    };
    let player = match player {
        Some(player) => player,
        None => {
            return Err(GameError::NotRegistered);
        },
    };
    let hero_class = match player {
        Player::BaseVersion(p) => p.hero_class,
    };
    if find_class_ability(&hero_class, &ability_obj).is_none() {
        return Err(GameError::AbilityNotAvailable);
    }
    let target_player = match target_player {
        Some(player) => player,
        None => {
            return Err(GameError::TargetNotRegistered);
        },
    };
    play_turn(&ability_obj, caller, player, target, target_player)
}

/// All games by id, and the flag that says whether play is on.
pub struct Contract {
    games: HashMap<u32, Game>,
    games_active: bool,
}

impl Default for Contract {
    fn default() -> (contract: Self)
        ensures
            contract.wf(),
            contract.rosters() == Map::<u32, Roster>::empty(),
            !contract.active(),
    {
        let contract = Contract { games: HashMap::new(), games_active: false };
        assert(contract.rosters() =~= Map::<u32, Roster>::empty());
        contract
    }
}

fn settle(game: &mut Game, account: String, left: Option<PlayerV1>)
    requires
        old(game).wf(),
    ensures
        final(game).wf(),
        final(game)@ == settled(old(game)@, account@, view_of(left)),
        final(game).winner_view() == old(game).winner_view(),
{
    match left {
        Some(player) => {
            game.insert(account, Player::BaseVersion(player));
        },
        None => {
            let _ = game.remove(&account);
        },
    }
}

impl Contract {
    /// Every game keeps its players in ascending order of account.
    pub closed spec fn wf(&self) -> bool {
        forall|game_num: u32|
            self.games@.contains_key(game_num) ==> (#[trigger] self.games@[game_num]).wf()
    }

    /// The games by id, each as the map of its players.
    pub closed spec fn rosters(&self) -> Map<u32, Roster> {
        self.games@.map_values(|game: Game| game@)
    }

    /// The players of a game as they are listed, line by line.
    pub closed spec fn listing(&self, game_num: u32) -> Seq<RosterLine> {
        self.games@[game_num].roster()
    }

    /// Whether play is on.
    pub closed spec fn active(&self) -> bool {
        self.games_active
    }

    /// The winner of a game; none while the game goes on, and none for a game
    /// that does not exist.
    pub closed spec fn winner_of(&self, game_num: u32) -> Option<PlayerView> {
        if self.games@.contains_key(game_num) {
            self.games@[game_num].winner_view()
        } else {
            None
        }
    }

    /// The listing of a game is in ascending order of account and holds exactly
    /// the players of the game.
    pub proof fn lemma_listing_holds_roster(&self, game_num: u32)
        requires
            self.wf(),
            self.rosters().contains_key(game_num),
        ensures
            ascending(self.listing(game_num)),
            roster_map(self.listing(game_num)) == self.rosters()[game_num],
            forall|account: Seq<char>|
                listed(self.listing(game_num), account) <==> self.rosters()[game_num].contains_key(
                    account,
                ),
    {
        self.games@[game_num].lemma_roster_holds_view();
    }

    /// Plays a turn for the caller: the named ability of the caller's player is
    /// used on the target's player in the given game. A turn that is refused
    /// changes nothing.
    pub fn use_ability(&mut self, caller: &String, ability: String, target: String, game_num: u32) -> (done:
        Result<(), GameError>)
        requires
            old(self).wf(),
        ensures
            final(self).wf(),
            final(self).active() == old(self).active(),
            forall|n: u32| final(self).winner_of(n) == old(self).winner_of(n),
            match done {
                Ok(_) => ability_outcome(old(self).rosters(), caller@, ability@, target@, game_num)
                    == Ok::<Map<u32, Roster>, GameError>(final(self).rosters()),
                Err(e) => ability_outcome(old(self).rosters(), caller@, ability@, target@, game_num)
                    == Err::<Map<u32, Roster>, GameError>(e) && *final(self) == *old(self),
            },
    {
        let found = match self.games.get(&game_num) {
            Some(game) => Some((game.get(caller), game.get(&target))),
            None => None,
        };
        let outcome = match decide_turn(&ability, caller, &target, found) {
            Ok(outcome) => outcome,
            Err(e) => {
                return Err(e);
            },
        };
        let mut game = self.games.remove(&game_num).unwrap();
        settle(&mut game, caller.clone(), outcome.actor);
        settle(&mut game, target, outcome.target);
        let ghost after = game@;
        self.games.insert(game_num, game);
        proof {
            assert(self.rosters() =~= old(self).rosters().insert(game_num, after));
        }
        Ok(())
    }

    /// Registers the caller in a game with a fresh player of the given class and
    /// name. The game is created if it does not exist; a record that the caller
    /// had in it is replaced.
    pub fn add_player(&mut self, caller: &String, hero_class: HeroClass, name: String, game_num: u32) -> (done:
        Result<(), GameError>)
        requires
            old(self).wf(),
        ensures
            final(self).wf(),
            final(self).active() == old(self).active(),
            forall|n: u32| final(self).winner_of(n) == old(self).winner_of(n),
            done.is_ok() <==> name@.len() <= MAX_NAME_LENGTH,
            done.is_ok() ==> final(self).rosters() == registered(
                old(self).rosters(),
                caller@,
                hero_class,
                name@,
                game_num,
            ),
            done.is_err() ==> done == Err::<(), GameError>(GameError::NameTooLong) && *final(self)
                == *old(self),
    {
        let p = match new_player(hero_class, name) {
            Ok(p) => p,
            Err(e) => {
                return Err(e);
            },
        };
        let mut game = match self.games.remove(&game_num) {
            Some(game) => game,
            None => Game::new(),
        };
        game.insert(caller.clone(), p);
        let ghost after = game@;
        self.games.insert(game_num, game);
        proof {
            assert(self.rosters() =~= old(self).rosters().insert(game_num, after));
        }
        Ok(())
    }

    /// Lists the players of a game in ascending order of account.
    pub fn get_game_players(&self, game_num: u32) -> (listed: Result<Vec<(String, Player)>, GameError>)
        requires
            self.wf(),
        ensures
            match listed {
                Ok(lines) => {
                    &&& self.rosters().contains_key(game_num)
                    &&& lines_view(lines@) == self.listing(game_num)
                    &&& ascending(lines_view(lines@))
                    &&& roster_map(lines_view(lines@)) == self.rosters()[game_num]
                },
                Err(e) => e == GameError::GameNotFound && !self.rosters().contains_key(game_num),
            },
    {
        match self.games.get(&game_num) {
            Some(game) => {
                proof {
                    self.lemma_listing_holds_roster(game_num);
                }
                Ok(game.to_vec())
            },
            None => Err(GameError::GameNotFound),
        }
    }

    /// Turns play on. The games stay as they are.
    pub fn start_game(&mut self, game_num: u32)
        ensures
            final(self).active(),
            final(self).rosters() == old(self).rosters(),
            forall|n: u32| final(self).listing(n) == old(self).listing(n),
            forall|n: u32| final(self).winner_of(n) == old(self).winner_of(n),
            old(self).wf() ==> final(self).wf(),
    {
        self.games_active = true;
    }

    /// Turns play off. The games stay as they are.
    pub fn stop_game(&mut self, game_num: u32)
        ensures
            !final(self).active(),
            final(self).rosters() == old(self).rosters(),
            forall|n: u32| final(self).listing(n) == old(self).listing(n),
            forall|n: u32| final(self).winner_of(n) == old(self).winner_of(n),
            old(self).wf() ==> final(self).wf(),
    {
        self.games_active = false;
    }

    /// Whether play is on.
    pub fn is_active(&self) -> (on: bool)
        ensures
            on == self.active(),
    {
        self.games_active
    }

    /// The names of all abilities as a sentence offers them: each name of the
    /// catalog once, in catalog order.
    pub fn get_abilities(&self) -> (rendered: Result<String, GameError>)
        ensures
            rendered.is_ok(),
            rendered.unwrap()@ == choice_of(catalog_names()),
            rendered.unwrap()@ == "strike, headbonk, heal, or ultimate"@,
    {
        let names = HeroAbility::values();
        proof {
            assert(catalog_names().len() == 4);
            lemma_catalog_choice();
        }
        render_choice(&names)
    }
}

/// Registering twice with the same class and name is the same as registering
/// once, and a later registration replaces an earlier one of the same caller
/// in the same game.
pub proof fn lemma_registration_overwrites(
    games: Map<u32, Roster>,
    caller: Seq<char>,
    first_class: HeroClass,
    first_name: Seq<char>,
    hero_class: HeroClass,
    name: Seq<char>,
    game_num: u32,
)
    ensures
        registered(
            registered(games, caller, first_class, first_name, game_num),
            caller,
            hero_class,
            name,
            game_num,
        ) == registered(games, caller, hero_class, name, game_num),
        registered(games, caller, hero_class, name, game_num)[game_num][caller] == fresh_player(
            hero_class,
            name,
        ),
{
    let once = registered(games, caller, first_class, first_name, game_num);
    let twice = registered(once, caller, hero_class, name, game_num);
    let direct = registered(games, caller, hero_class, name, game_num);
    assert(twice[game_num] =~= direct[game_num]);
    assert(twice =~= direct);
}

/// The use of an ability on the caller's own account is refused in every state
/// of the games and for every ability.
pub proof fn lemma_self_targeting_rejected(
    games: Map<u32, Roster>,
    caller: Seq<char>,
    ability: Seq<char>,
    game_num: u32,
)
    ensures
        ability_outcome(games, caller, ability, caller, game_num).is_err(),
        forall|found: Found| turn_decision(ability, caller, caller, found).is_err(),
{
}

/// A player whom a turn leaves dead is no longer in the game's roster, and a
/// player whom it leaves alive is there with the record that the turn gave.
pub proof fn lemma_dead_players_leave(
    games: Map<u32, Roster>,
    caller: Seq<char>,
    ability: Seq<char>,
    target: Seq<char>,
    game_num: u32,
)
    requires
        ability_outcome(games, caller, ability, target, game_num).is_ok(),
    ensures
        ({
            let after = ability_outcome(games, caller, ability, target, game_num).unwrap();
            let roster = games[game_num];
            let turn = turn_decision(
                ability,
                caller,
                target,
                found_in(games, caller, target, game_num),
            );
            &&& turn.is_ok()
            &&& caller != target
            &&& after.contains_key(game_num)
            &&& turn.unwrap().0.is_none() <==> !after[game_num].contains_key(caller)
            &&& turn.unwrap().1.is_none() <==> !after[game_num].contains_key(target)
            &&& turn.unwrap().0.is_some() ==> after[game_num][caller] == turn.unwrap().0.unwrap()
            &&& turn.unwrap().1.is_some() ==> after[game_num][target] == turn.unwrap().1.unwrap()
            &&& forall|other: Seq<char>|
                other != caller && other != target ==> (after[game_num].contains_key(other)
                    <==> roster.contains_key(other))
            &&& forall|other: u32|
                other != game_num ==> (after.contains_key(other) <==> games.contains_key(other))
        }),
{
    lemma_self_targeting_rejected(games, caller, ability, game_num);
}

/// After a turn that was played, a player whose health the turn brought to
/// zero and whose items give no self heal is out of the game's roster; so is an
/// actor whose own ability and items give none. Every other player of the turn
/// is still in it.
pub proof fn lemma_spent_player_is_removed(
    games: Map<u32, Roster>,
    caller: Seq<char>,
    ability: Seq<char>,
    target: Seq<char>,
    game_num: u32,
)
    requires
        ability_outcome(games, caller, ability, target, game_num).is_ok(),
    ensures
        ({
            let after = ability_outcome(games, caller, ability, target, game_num).unwrap();
            let actor = games[game_num][caller];
            let aimed_at = games[game_num][target];
            let used = class_ability(actor.hero_class, resolve_name(ability).unwrap()).unwrap();
            let (for_actor, for_target) = effects_result(
                caller,
                actor.items,
                used.spec_effects()@,
                target,
                aimed_at.items,
            ).unwrap();
            let damage = for_actor.target_damage + critical_bonus(actor.level + 1);
            let actor_spent = reduced_health(actor.health as int, for_actor.self_damage) == 0
                && for_actor.self_heal == 0;
            let target_spent = reduced_health(aimed_at.health as int, damage) == 0
                && for_target.self_heal == 0;
            &&& actor_spent <==> !after[game_num].contains_key(caller)
            &&& target_spent <==> !after[game_num].contains_key(target)
            &&& !actor_spent ==> after[game_num][caller].level == actor.level + 1
            &&& !target_spent && reduced_health(aimed_at.health as int, damage) > 0
                ==> after[game_num][target].health == aimed_at.health - damage
        }),
{
    lemma_dead_players_leave(games, caller, ability, target, game_num);
    let actor = games[game_num][caller];
    let aimed_at = games[game_num][target];
    let used = class_ability(actor.hero_class, resolve_name(ability).unwrap()).unwrap();
    let (for_actor, for_target) = effects_result(
        caller,
        actor.items,
        used.spec_effects()@,
        target,
        aimed_at.items,
    ).unwrap();
    lemma_turn_levels_and_damage(actor, aimed_at, for_actor, for_target);
}

} // verus!
