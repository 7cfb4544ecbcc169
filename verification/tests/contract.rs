use hero_battle::account::{compare_accounts, AccountOrder};
use hero_battle::contract::{Contract, MAX_NAME_LENGTH};
use hero_battle::error::GameError;
use hero_battle::game::Game;
use hero_battle::hero_class::HeroClass;
use hero_battle::items::Item;
use hero_battle::log_events::{ErrorClass, LogEvent, LogLevel, LogNeeds};
use hero_battle::{Player, PlayerV1, CRITICAL_STRIKE};

fn acct(s: &str) -> String {
    s.to_string()
}

fn stored(name: &str, hero_class: HeroClass, health: u8, level: u8) -> Player {
    Player::BaseVersion(PlayerV1 { name: name.to_string(), hero_class, health, level, items: vec![] })
}

fn two_players() -> Contract {
    let mut c = Contract::default();
    assert_eq!(c.add_player(&acct("grok.near"), HeroClass::Ogre, acct("Grok"), 7), Ok(()));
    assert_eq!(c.add_player(&acct("ann.near"), HeroClass::Cleric, acct("Ann"), 7), Ok(()));
    c
}

#[test]
fn accounts_are_ordered_by_bytes() {
    assert_eq!(compare_accounts(&acct("a"), &acct("b")), AccountOrder::Before);
    assert_eq!(compare_accounts(&acct("b"), &acct("a")), AccountOrder::After);
    assert_eq!(compare_accounts(&acct("ab"), &acct("ab")), AccountOrder::Same);
    assert_eq!(compare_accounts(&acct("ab"), &acct("abc")), AccountOrder::Before);
    assert_eq!(compare_accounts(&acct(""), &acct("")), AccountOrder::Same);
    assert_eq!(compare_accounts(&acct("Z"), &acct("a")), AccountOrder::Before);
    assert_eq!(compare_accounts(&acct("z"), &acct("\u{e9}")), AccountOrder::Before);
    for (a, b) in [("a", "b"), ("abc", "ab"), ("x", "x"), ("\u{e9}", "z")] {
        let expected = match a.cmp(b) {
            std::cmp::Ordering::Less => AccountOrder::Before,
            std::cmp::Ordering::Equal => AccountOrder::Same,
            std::cmp::Ordering::Greater => AccountOrder::After,
        };
        assert_eq!(compare_accounts(&acct(a), &acct(b)), expected);
    }
}

#[test]
fn a_name_of_sixteen_characters_is_accepted() {
    let mut c = Contract::default();
    assert_eq!(MAX_NAME_LENGTH, 16);
    assert_eq!(c.add_player(&acct("a.near"), HeroClass::Mage, acct("abcdefghijklmnop"), 1), Ok(()));
    assert_eq!(
        c.get_game_players(1),
        Ok(vec![(acct("a.near"), stored("abcdefghijklmnop", HeroClass::Mage, 100, 3))])
    );
}

#[test]
fn a_name_of_seventeen_characters_is_refused() {
    let mut c = Contract::default();
    assert_eq!(
        c.add_player(&acct("a.near"), HeroClass::Mage, acct("abcdefghijklmnopq"), 1),
        Err(GameError::NameTooLong)
    );
    assert_eq!(c.get_game_players(1), Err(GameError::GameNotFound));
}

#[test]
fn the_length_of_a_name_is_counted_in_characters() {
    let mut c = Contract::default();
    let name = "\u{e9}".repeat(16);
    assert_eq!(c.add_player(&acct("a.near"), HeroClass::Mage, name, 1), Ok(()));
    let name = "\u{e9}".repeat(17);
    assert_eq!(c.add_player(&acct("a.near"), HeroClass::Mage, name, 1), Err(GameError::NameTooLong));
}

#[test]
fn registration_starts_from_the_base_stats() {
    let c = two_players();
    assert_eq!(
        c.get_game_players(7),
        Ok(vec![
            (acct("ann.near"), stored("Ann", HeroClass::Cleric, 80, 5)),
            (acct("grok.near"), stored("Grok", HeroClass::Ogre, 150, 1)),
        ])
    );
}

#[test]
fn players_are_listed_in_order_of_account() {
    let mut c = Contract::default();
    for account in ["m", "c", "x", "a", "cc", "b"] {
        assert_eq!(c.add_player(&acct(account), HeroClass::Ogre, acct(account), 3), Ok(()));
    }
    let listed: Vec<String> = c.get_game_players(3).unwrap().into_iter().map(|l| l.0).collect();
    assert_eq!(listed, vec!["a", "b", "c", "cc", "m", "x"]);
}

#[test]
fn registering_again_replaces_the_record() {
    let mut c = two_players();
    assert_eq!(c.use_ability(&acct("grok.near"), acct("strike"), acct("ann.near"), 7), Ok(()));
    assert_eq!(c.add_player(&acct("ann.near"), HeroClass::Mage, acct("Anna"), 7), Ok(()));
    assert_eq!(
        c.get_game_players(7),
        Ok(vec![
            (acct("ann.near"), stored("Anna", HeroClass::Mage, 100, 3)),
            (acct("grok.near"), stored("Grok", HeroClass::Ogre, 150, 2)),
        ])
    );
}

#[test]
fn games_are_kept_apart() {
    let mut c = two_players();
    assert_eq!(c.add_player(&acct("ann.near"), HeroClass::Ogre, acct("Ann"), 8), Ok(()));
    assert_eq!(c.use_ability(&acct("grok.near"), acct("ult"), acct("ann.near"), 7), Ok(()));
    assert_eq!(
        c.get_game_players(8),
        Ok(vec![(acct("ann.near"), stored("Ann", HeroClass::Ogre, 150, 1))])
    );
    assert_eq!(c.get_game_players(9), Err(GameError::GameNotFound));
    assert_eq!(
        c.get_game_players(7),
        Ok(vec![
            (acct("ann.near"), stored("Ann", HeroClass::Cleric, 50, 5)),
            (acct("grok.near"), stored("Grok", HeroClass::Ogre, 150, 2)),
        ])
    );
}

#[test]
fn a_turn_changes_both_players() {
    let mut c = two_players();
    assert_eq!(c.use_ability(&acct("grok.near"), acct("bonk"), acct("ann.near"), 7), Ok(()));
    assert_eq!(
        c.get_game_players(7),
        Ok(vec![
            (acct("ann.near"), stored("Ann", HeroClass::Cleric, 55, 5)),
            (acct("grok.near"), stored("Grok", HeroClass::Ogre, 145, 2)),
        ])
    );
}

#[test]
fn refused_turns_change_nothing() {
    let mut c = two_players();
    let before = c.get_game_players(7);
    assert_eq!(
        c.use_ability(&acct("grok.near"), acct("smash"), acct("ann.near"), 7),
        Err(GameError::UnknownAbility)
    );
    assert_eq!(
        c.use_ability(&acct("grok.near"), acct("smash"), acct("ann.near"), 99),
        Err(GameError::UnknownAbility)
    );
    assert_eq!(
        c.use_ability(&acct("grok.near"), acct("strike"), acct("ann.near"), 99),
        Err(GameError::GameNotFound)
    );
    assert_eq!(
        c.use_ability(&acct("bob.near"), acct("strike"), acct("ann.near"), 7),
        Err(GameError::NotRegistered)
    );
    assert_eq!(
        c.use_ability(&acct("grok.near"), acct("strike"), acct("bob.near"), 7),
        Err(GameError::TargetNotRegistered)
    );
    assert_eq!(
        c.use_ability(&acct("grok.near"), acct("heal"), acct("ann.near"), 7),
        Err(GameError::AbilityNotAvailable)
    );
    assert_eq!(
        c.use_ability(&acct("grok.near"), acct("heal"), acct("bob.near"), 7),
        Err(GameError::AbilityNotAvailable)
    );
    assert_eq!(
        c.use_ability(&acct("bob.near"), acct("heal"), acct("carl.near"), 7),
        Err(GameError::NotRegistered)
    );
    assert_eq!(
        c.use_ability(&acct("ann.near"), acct("strike"), acct("ann.near"), 7),
        Err(GameError::AbilityNotAvailable)
    );
    assert_eq!(
        c.use_ability(&acct("grok.near"), acct("strike"), acct("grok.near"), 7),
        Err(GameError::InvalidTarget)
    );
    assert_eq!(c.get_game_players(7), before);
}

#[test]
fn self_targeting_is_always_refused() {
    let mut c = two_players();
    for ability in ["strike", "headbonk", "bonk", "heal", "ultimate", "ult", "nothing"] {
        for game in [7u32, 8u32] {
            for who in ["grok.near", "ann.near", "bob.near"] {
                assert!(c.use_ability(&acct(who), acct(ability), acct(who), game).is_err());
            }
        }
    }
    assert_eq!(c.get_game_players(7), two_players().get_game_players(7));
}

#[test]
fn a_player_without_health_leaves_the_roster() {
    let mut c = two_players();
    for left in [60u8, 40, 20] {
        assert_eq!(c.use_ability(&acct("grok.near"), acct("strike"), acct("ann.near"), 7), Ok(()));
        let listed = c.get_game_players(7).unwrap();
        assert_eq!(listed[0].0, "ann.near");
        match &listed[0].1 {
            Player::BaseVersion(p) => assert_eq!(p.health, left),
        }
    }
    assert_eq!(c.use_ability(&acct("grok.near"), acct("strike"), acct("ann.near"), 7), Ok(()));
    assert_eq!(
        c.get_game_players(7),
        Ok(vec![(acct("grok.near"), stored("Grok", HeroClass::Ogre, 150, 5))])
    );
    assert_eq!(
        c.use_ability(&acct("grok.near"), acct("strike"), acct("ann.near"), 7),
        Err(GameError::TargetNotRegistered)
    );
    assert_eq!(
        c.use_ability(&acct("ann.near"), acct("heal"), acct("grok.near"), 7),
        Err(GameError::NotRegistered)
    );
    assert_eq!(c.get_game_players(7).unwrap().len(), 1);
}

#[test]
fn a_roster_holds_one_record_for_each_account() {
    let mut g = Game::new();
    assert_eq!(g.get(&acct("a")), None);
    g.insert(acct("b"), stored("B", HeroClass::Ogre, 1, 1));
    g.insert(acct("a"), stored("A", HeroClass::Mage, 2, 2));
    g.insert(acct("b"), stored("B2", HeroClass::Cleric, 3, 3));
    assert_eq!(g.get(&acct("b")), Some(&stored("B2", HeroClass::Cleric, 3, 3)));
    assert_eq!(
        g.to_vec(),
        vec![
            (acct("a"), stored("A", HeroClass::Mage, 2, 2)),
            (acct("b"), stored("B2", HeroClass::Cleric, 3, 3)),
        ]
    );
    assert!(g.remove(&acct("a")));
    assert!(!g.remove(&acct("a")));
    assert_eq!(g.to_vec(), vec![(acct("b"), stored("B2", HeroClass::Cleric, 3, 3))]);
}

#[test]
fn a_stored_player_keeps_its_items() {
    let mut g = Game::new();
    let p = Player::BaseVersion(PlayerV1 {
        name: acct("A"),
        hero_class: HeroClass::Mage,
        health: 9,
        level: 2,
        items: vec![Item::Sword, Item::Shield],
    });
    g.insert(acct("a"), p);
    match g.get(&acct("a")) {
        Some(Player::BaseVersion(p)) => assert_eq!(p.items, vec![Item::Sword, Item::Shield]),
        None => panic!("the player is in the game"),
    }
}

#[test]
fn a_level_beyond_a_byte_is_refused() {
    let mut c = two_players();
    for level in 2u8..=255 {
        assert_eq!(c.add_player(&acct("ann.near"), HeroClass::Ogre, acct("Ann"), 7), Ok(()));
        assert_eq!(c.use_ability(&acct("grok.near"), acct("strike"), acct("ann.near"), 7), Ok(()));
        let listed = c.get_game_players(7).unwrap();
        let damage = if level % 6 == 0 { 20 + 5 * (level / 6) } else { 20 };
        if damage >= 150 {
            assert_eq!(listed.len(), 1);
        } else {
            assert_eq!(listed.len(), 2);
            assert_eq!(listed[0].1, stored("Ann", HeroClass::Ogre, 150 - damage, 1));
        }
        assert_eq!(listed[listed.len() - 1].1, stored("Grok", HeroClass::Ogre, 150, level));
    }
    assert_eq!(c.add_player(&acct("ann.near"), HeroClass::Ogre, acct("Ann"), 7), Ok(()));
    let before = c.get_game_players(7);
    assert_eq!(
        c.use_ability(&acct("grok.near"), acct("strike"), acct("ann.near"), 7),
        Err(GameError::Overflow)
    );
    assert_eq!(c.get_game_players(7), before);
}

#[test]
fn the_critical_strike_constant() {
    assert_eq!(CRITICAL_STRIKE, 5);
}

#[test]
fn play_is_turned_on_and_off() {
    let mut c = two_players();
    assert!(!c.is_active());
    c.start_game(7);
    assert!(c.is_active());
    c.start_game(1);
    assert!(c.is_active());
    c.stop_game(7);
    assert!(!c.is_active());
    assert_eq!(c.get_game_players(7), two_players().get_game_players(7));
}

#[test]
fn abilities_are_listed_once_each() {
    let c = Contract::default();
    assert_eq!(c.get_abilities(), Ok(acct("strike, headbonk, heal, or ultimate")));
}

#[test]
fn the_version_of_log_events() {
    assert_eq!(Contract::default().log_events_version(), "0.0.1");
}

#[test]
fn events_are_built_step_by_step() {
    let mut e = LogEvent::new(LogLevel::UserError, "WRONG_TURN");
    assert_eq!(e.level, LogLevel::UserError);
    assert_eq!(e.code, "WRONG_TURN");
    assert_eq!(e.advice, None);
    assert_eq!(e.needs, None);
    e.advice(acct("wait")).needs(LogNeeds {
        gas: Some(5),
        deposit: None,
        height: None,
        epoch: None,
        block_timestamp: None,
        other: None,
    });
    assert_eq!(e.advice, Some(acct("wait")));
    assert_eq!(e.needs.as_ref().unwrap().gas, Some(5));
    assert_eq!(e.code, "WRONG_TURN");
}

#[test]
fn errors_are_reported_as_events() {
    let e = GameError::UnknownAbility.event();
    assert_eq!(e.level, LogLevel::UserError);
    assert_eq!(e.code, "NO_ABILITY");
    assert_eq!(
        e.advice,
        Some(acct("Please use one of these abilities: strike, headbonk, heal, or ultimate."))
    );
    assert_eq!(e.needs, None);
    let e = GameError::EmptyCatalog.event();
    assert_eq!(e.level, LogLevel::ContractError);
    assert_eq!(e.code, "INVALID_ABILITIES");
    assert_eq!(e.advice, None);
    assert_eq!(GameError::GameNotFound.class(), ErrorClass::NotFound);
    assert_eq!(GameError::GameNotFound.code(), "GAME_NOT_FOUND");
    assert_eq!(GameError::NameTooLong.class(), ErrorClass::UserError);
    assert_eq!(GameError::Overflow.class(), ErrorClass::ContractError);
    assert_eq!(GameError::InvalidTarget.event().code, "INVALID_TARGET");
}
