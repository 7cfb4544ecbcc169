use vstd::prelude::*;
use crate::account::{account_before, compare_accounts, lemma_account_order, AccountOrder};
use crate::player::{copy_player, Player, PlayerView};

verus! {

/// One line of a roster: an account and the record of its player.
pub type RosterLine = (Seq<char>, PlayerView);

/// The accounts of a roster stand in strictly ascending order, so none occurs
/// twice.
pub open spec fn ascending(roster: Seq<RosterLine>) -> bool {
    forall|i: int, j: int| 0 <= i < j < roster.len() ==> account_before(roster[i].0, roster[j].0)
}

/// The account has a line in the roster.
pub open spec fn listed(roster: Seq<RosterLine>, account: Seq<char>) -> bool {
    exists|i: int| 0 <= i < roster.len() && roster[i].0 == account
}

/// The place of an account's line in the roster.
pub open spec fn place_of(roster: Seq<RosterLine>, account: Seq<char>) -> int {
    choose|i: int| 0 <= i < roster.len() && roster[i].0 == account
}

/// A roster as a map from account to player.
pub open spec fn roster_map(roster: Seq<RosterLine>) -> Map<Seq<char>, PlayerView> {
    Map::new(
        |account: Seq<char>| listed(roster, account),
        |account: Seq<char>| roster[place_of(roster, account)].1,
    )
}

/// In an ascending roster each account has one place only.
pub proof fn lemma_place_unique(roster: Seq<RosterLine>, i: int)
    requires
        ascending(roster),
        0 <= i < roster.len(),
    ensures
        listed(roster, roster[i].0),
        place_of(roster, roster[i].0) == i,
        roster_map(roster).contains_key(roster[i].0),
        roster_map(roster)[roster[i].0] == roster[i].1,
{
    let j = place_of(roster, roster[i].0);
    if j < i {
        lemma_account_order(roster[j].0, roster[i].0, roster[i].0);
    } else if i < j {
        lemma_account_order(roster[i].0, roster[j].0, roster[j].0);
    }
}

proof fn lemma_map_after_insert(roster: Seq<RosterLine>, at: int, line: RosterLine)
    requires
        ascending(roster),
        ascending(roster.insert(at, line)),
        0 <= at <= roster.len(),
    ensures
        roster_map(roster.insert(at, line)) == roster_map(roster).insert(line.0, line.1),
{
    let grown = roster.insert(at, line);
    assert forall|account: Seq<char>| listed(grown, account) <==> (account == line.0 || listed(
        roster,
        account,
    )) by {
        if listed(grown, account) {
            let i = place_of(grown, account);
            if i < at {
                assert(roster[i].0 == account);
            } else if i > at {
                assert(roster[i - 1].0 == account);
            }
        }
        if account == line.0 {
            assert(grown[at].0 == account);
        }
        if listed(roster, account) {
            let i = place_of(roster, account);
            if i < at {
                assert(grown[i].0 == account);
            } else {
                assert(grown[i + 1].0 == account);
            }
        }
    }
    assert forall|account: Seq<char>| listed(grown, account) implies roster_map(grown)[account]
        == roster_map(roster).insert(line.0, line.1)[account] by {
        let i = place_of(grown, account);
        lemma_place_unique(grown, i);
        if i < at {
            lemma_place_unique(roster, i);
            lemma_place_unique(grown, at);
        } else if i > at {
            lemma_place_unique(roster, i - 1);
            lemma_place_unique(grown, at);
        }
    }
    assert(roster_map(grown) =~= roster_map(roster).insert(line.0, line.1));
}

proof fn lemma_map_after_update(roster: Seq<RosterLine>, at: int, line: RosterLine)
    requires
        ascending(roster),
        0 <= at < roster.len(),
        roster[at].0 == line.0,
    ensures
        ascending(roster.update(at, line)),
        roster_map(roster.update(at, line)) == roster_map(roster).insert(line.0, line.1),
{
    let changed = roster.update(at, line);
    assert forall|i: int, j: int| 0 <= i < j < changed.len() implies account_before(
        changed[i].0,
        changed[j].0,
    ) by {
        assert(changed[i].0 == roster[i].0);
        assert(changed[j].0 == roster[j].0);
    }
    assert forall|account: Seq<char>| listed(changed, account) <==> (account == line.0 || listed(
        roster,
        account,
    )) by {
        if listed(changed, account) {
            let i = place_of(changed, account);
            assert(roster[i].0 == account);
        }
        if account == line.0 {
            assert(changed[at].0 == account);
        }
        if listed(roster, account) {
            let i = place_of(roster, account);
            assert(changed[i].0 == account);
        }
    }
    assert forall|account: Seq<char>| listed(changed, account) implies roster_map(changed)[account]
        == roster_map(roster).insert(line.0, line.1)[account] by {
        let i = place_of(changed, account);
        lemma_place_unique(changed, i);
        lemma_place_unique(roster, i);
        lemma_place_unique(roster, at);
        lemma_place_unique(changed, at);
    }
    assert(roster_map(changed) =~= roster_map(roster).insert(line.0, line.1));
}

proof fn lemma_map_after_remove(roster: Seq<RosterLine>, at: int)
    requires
        ascending(roster),
        0 <= at < roster.len(),
    ensures
        ascending(roster.remove(at)),
        roster_map(roster.remove(at)) == roster_map(roster).remove(roster[at].0),
{
    let less = roster.remove(at);
    assert forall|i: int, j: int| 0 <= i < j < less.len() implies account_before(
        less[i].0,
        less[j].0,
    ) by {
        let oi = if i < at { i } else { i + 1 };
        let oj = if j < at { j } else { j + 1 };
        assert(less[i] == roster[oi]);
        assert(less[j] == roster[oj]);
    }
    lemma_place_unique(roster, at);
    assert forall|account: Seq<char>| listed(less, account) <==> (account != roster[at].0
        && listed(roster, account)) by {
        if listed(less, account) {
            let i = place_of(less, account);
            let oi = if i < at { i } else { i + 1 };
            assert(roster[oi].0 == account);
            lemma_place_unique(roster, oi);
        }
        if account != roster[at].0 && listed(roster, account) {
            let i = place_of(roster, account);
            if i < at {
                assert(less[i].0 == account);
            } else {
                assert(less[i - 1].0 == account);
            }
        }
    }
    assert forall|account: Seq<char>| listed(less, account) implies roster_map(less)[account]
        == roster_map(roster).remove(roster[at].0)[account] by {
        let i = place_of(less, account);
        lemma_place_unique(less, i);
        let oi = if i < at { i } else { i + 1 };
        lemma_place_unique(roster, oi);
    }
    assert(roster_map(less) =~= roster_map(roster).remove(roster[at].0));
}

/// A line of a roster as it is stored.
#[derive(Debug, PartialEq)]
pub struct RosterEntry {
    pub account: String,
    pub player: Player,
}

/// One match: its players by account, and its winner once it has one.
#[derive(Debug)]
pub struct Game {
    players: Vec<RosterEntry>,
    winner: Option<Player>,
}

impl View for Game {
    type V = Map<Seq<char>, PlayerView>;

    /// The players of the game by account.
    closed spec fn view(&self) -> Map<Seq<char>, PlayerView> {
        roster_map(self.roster())
    }
}

impl Game {
    /// The players of the game as a list of lines.
    pub closed spec fn roster(&self) -> Seq<RosterLine> {
        Seq::new(self.players@.len(), |i: int| (self.players@[i].account@, self.players@[i].player@))
    }

    /// The winner of the game; none while it is going on.
    pub closed spec fn winner_view(&self) -> Option<PlayerView> {
        match self.winner {
            Some(p) => Some(p@),
            None => None,
        }
    }

    /// The list of players is in ascending order of account.
    pub closed spec fn wf(&self) -> bool {
        ascending(self.roster())
    }

    /// The list of players holds exactly what the map of players holds.
    pub proof fn lemma_roster_holds_view(&self)
        requires
            self.wf(),
        ensures
            ascending(self.roster()),
            self@ == roster_map(self.roster()),
            forall|i: int|
                0 <= i < self.roster().len() ==> self@.contains_key(#[trigger] self.roster()[i].0)
                    && self@[self.roster()[i].0] == self.roster()[i].1,
            forall|account: Seq<char>|
                self@.contains_key(account) ==> listed(self.roster(), account),
    {
        assert forall|i: int| 0 <= i < self.roster().len() implies self@.contains_key(
            #[trigger] self.roster()[i].0,
        ) && self@[self.roster()[i].0] == self.roster()[i].1 by {
            lemma_place_unique(self.roster(), i);
        }
    }

    /// The winner of the game; none while it is going on.
    pub fn winner(&self) -> (winner: Option<&Player>)
        ensures
            match winner {
                Some(p) => self.winner_view() == Some(p@),
                None => self.winner_view().is_none(),
            },
    {
        self.winner.as_ref()
    }

    /// A game without players and without a winner.
    pub fn new() -> (game: Game)
        ensures
            game.wf(),
            game@ == Map::<Seq<char>, PlayerView>::empty(),
            game.winner_view().is_none(),
            game.roster().len() == 0,
    {
        let game = Game { players: Vec::new(), winner: None };
        assert(game@ =~= Map::<Seq<char>, PlayerView>::empty());
        game
    }

    /// Where the account's line stands in the list, if it has one.
    fn position(&self, account: &String) -> (at: Option<usize>)
        requires
            self.wf(),
        ensures
            match at {
                Some(i) => i < self.roster().len() && self.roster()[i as int].0 == account@
                    && self@.contains_key(account@) && self@[account@] == self.roster()[i as int].1,
                None => !self@.contains_key(account@),
            },
    {
        let mut i: usize = 0;
        while i < self.players.len()
            invariant
                i <= self.players@.len(),
                self.wf(),
                forall|j: int| 0 <= j < i ==> self.roster()[j].0 != account@,
            decreases self.players@.len() - i,
        {
            if self.players[i].account == *account {
                proof {
                    lemma_place_unique(self.roster(), i as int);
                }
                return Some(i);
            }
            i += 1;
        }
        None
    }

    /// The record of the account's player, if the account is in the game.
    pub fn get(&self, account: &String) -> (found: Option<&Player>)
        requires
            self.wf(),
        ensures
            match found {
                Some(p) => self@.contains_key(account@) && self@[account@] == p@,
                None => !self@.contains_key(account@),
            },
    {
        match self.position(account) {
            Some(i) => Some(&self.players[i].player),
            None => None,
        }
    }

    /// Puts a player into the game under the account, in place of the record
    /// that the account had, if any.
    pub fn insert(&mut self, account: String, player: Player)
        requires
            old(self).wf(),
        ensures
            final(self).wf(),
            final(self)@ == old(self)@.insert(account@, player@),
            final(self).winner_view() == old(self).winner_view(),
    {
        let ghost before = self.roster();
        let ghost line = (account@, player@);
        let mut i: usize = 0;
        while i < self.players.len()
            invariant
                i <= self.players@.len(),
                self.wf(),
                self.roster() == before,
                before == old(self).roster(),
                line == (account@, player@),
                self.winner_view() == old(self).winner_view(),
                forall|j: int| 0 <= j < i ==> account_before(before[j].0, account@),
            decreases self.players@.len() - i,
        {
            let order = compare_accounts(&self.players[i].account, &account);
            let ghost stored = self.players@;
            proof {
                assert(before[i as int].0 == stored[i as int].account@);
                assert(order == AccountOrder::Same ==> before[i as int].0 == line.0);
                assert(order == AccountOrder::After ==> account_before(line.0, before[i as int].0));
            }
            match order {
                AccountOrder::Before => {},
                AccountOrder::Same => {
                    self.players.set(i, RosterEntry { account, player });
                    proof {
                        lemma_map_after_update(before, i as int, line);
                        assert forall|j: int| 0 <= j < before.len() implies self.roster()[j]
                            == before.update(i as int, line)[j] by {
                            if j != i {
                                assert(self.players@[j] == stored[j]);
                                assert(before[j] == (stored[j].account@, stored[j].player@));
                            }
                        }
                        assert(self.roster() =~= before.update(i as int, line));
                    }
                    return ;
                },
                AccountOrder::After => {
                    self.players.insert(i, RosterEntry { account, player });
                    proof {
                        let grown = before.insert(i as int, line);
                        assert(self.roster() =~= grown);
                        assert forall|a: int, b: int| 0 <= a < b < grown.len() implies account_before(
                            grown[a].0,
                            grown[b].0,
                        ) by {
                            if b == i {
                            } else if a == i {
                                if b > i + 1 {
                                    lemma_account_order(line.0, before[i as int].0, before[b - 1].0);
                                }
                            } else {
                                let oa = if a < i { a } else { a - 1 };
                                let ob = if b < i { b } else { b - 1 };
                                assert(grown[a] == before[oa]);
                                assert(grown[b] == before[ob]);
                            }
                        }
                        lemma_map_after_insert(before, i as int, line);
                    }
                    return ;
                },
            }
            i += 1;
        }
        self.players.push(RosterEntry { account, player });
        proof {
            let grown = before.insert(before.len() as int, line);
            assert(self.roster() =~= grown);
            assert forall|a: int, b: int| 0 <= a < b < grown.len() implies account_before(
                grown[a].0,
                grown[b].0,
            ) by {
                if b < before.len() {
                    assert(grown[a] == before[a]);
                    assert(grown[b] == before[b]);
                } else {
                    assert(grown[a] == before[a]);
                }
            }
            lemma_map_after_insert(before, before.len() as int, line);
        }
    }

    /// Takes the account's player out of the game, and says whether there was one.
    pub fn remove(&mut self, account: &String) -> (was_there: bool)
        requires
            old(self).wf(),
        ensures
            final(self).wf(),
            final(self)@ == old(self)@.remove(account@),
            was_there == old(self)@.contains_key(account@),
            final(self).winner_view() == old(self).winner_view(),
    {
        match self.position(account) {
            Some(i) => {
                let ghost before = self.roster();
                let _ = self.players.remove(i);
                proof {
                    assert(self.roster() =~= before.remove(i as int));
                    lemma_map_after_remove(before, i as int);
                }
                true
            },
            None => {
                proof {
                    assert(self@ =~= self@.remove(account@));
                }
                false
            },
        }
    }

    /// The players of the game in ascending order of account.
    pub fn to_vec(&self) -> (lines: Vec<(String, Player)>)
        requires
            self.wf(),
        ensures
            lines_view(lines@) == self.roster(),
            ascending(lines_view(lines@)),
            roster_map(lines_view(lines@)) == self@,
    {
        let mut lines: Vec<(String, Player)> = Vec::new();
        let mut i: usize = 0;
        while i < self.players.len()
            invariant
                i <= self.players@.len(),
                lines@.len() == i,
                lines_view(lines@) == self.roster().subrange(0, i as int),
            decreases self.players@.len() - i,
        {
            let account = self.players[i].account.clone();
            let player = copy_player(&self.players[i].player);
            let ghost earlier = lines@;
            lines.push((account, player));
            proof {
                assert forall|j: int| 0 <= j < i + 1 implies lines_view(lines@)[j]
                    == self.roster()[j] by {
                    if j < i {
                        assert(lines@[j] == earlier[j]);
                        assert(lines_view(earlier)[j] == self.roster().subrange(0, i as int)[j]);
                    }
                }
                assert(lines_view(lines@) =~= self.roster().subrange(0, i + 1));
            }
            i += 1;
        }
        proof {
            assert(self.roster().subrange(0, i as int) =~= self.roster());
        }
        lines
    }
}

/// A list of stored lines as a list of roster lines.
pub open spec fn lines_view(lines: Seq<(String, Player)>) -> Seq<RosterLine> {
    Seq::new(lines.len(), |i: int| (lines[i].0@, lines[i].1@))
}

} // verus!
