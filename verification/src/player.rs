use vstd::prelude::*;
use crate::hero_class::HeroClass;
use crate::items::Item;

verus! {

/// A character sheet as a mathematical value. Every version of the stored
/// record is read as one of these.
pub ghost struct PlayerView {
    pub name: Seq<char>,
    pub hero_class: HeroClass,
    pub health: u8,
    pub level: u8,
    pub items: Seq<Item>,
}

/// The first version of the character sheet.
#[derive(Debug, PartialEq)]
pub struct PlayerV1 {
    pub name: String,
    pub hero_class: HeroClass,
    pub health: u8,
    pub level: u8,
    pub items: Vec<Item>,
}

impl View for PlayerV1 {
    type V = PlayerView;

    open spec fn view(&self) -> PlayerView {
        PlayerView {
            name: self.name@,
            hero_class: self.hero_class,
            health: self.health,
            level: self.level,
            items: self.items@,
        }
    }
}

/// A stored character sheet. New versions are added as new variants; the
/// existing ones never change.
#[derive(Debug, PartialEq)]
pub enum Player {
    BaseVersion(PlayerV1),
}

impl View for Player {
    type V = PlayerView;

    open spec fn view(&self) -> PlayerView {
        match *self {
            Player::BaseVersion(p) => p@,
        }
    }
}

/// A copy of a list of items.
pub fn copy_items(items: &Vec<Item>) -> (copy: Vec<Item>)
    ensures
        copy@ == items@,
{
    let mut copy: Vec<Item> = Vec::new();
    let mut i: usize = 0;
    while i < items.len()
        invariant
            i <= items.len(),
            copy@ == items@.subrange(0, i as int),
        decreases items.len() - i,
    {
        copy.push(items[i]);
        proof {
            assert(copy@ =~= items@.subrange(0, i + 1));
        }
        i += 1;
    }
    proof {
        assert(items@.subrange(0, items@.len() as int) =~= items@);
    }
    copy
}

/// Reads a stored record of any version as a record of the latest version.
pub fn get_player_obj(player: &Player) -> (latest: PlayerV1)
    ensures
        latest@ == player@,
{
    match player {
        Player::BaseVersion(p) => PlayerV1 {
            name: p.name.clone(),
            hero_class: p.hero_class,
            health: p.health,
            level: p.level,
            items: copy_items(&p.items),
        },
    }
}

/// A copy of a stored record, in the version it was stored in.
pub fn copy_player(player: &Player) -> (copy: Player)
    ensures
        copy@ == player@,
{
    Player::BaseVersion(get_player_obj(player))
}

} // verus!
