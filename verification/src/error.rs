use vstd::prelude::*;

verus! {

/// Why an operation of the game was refused. A refused operation changes nothing.
#[derive(Clone, Copy, Debug, PartialEq, Eq, Structural)]
pub enum GameError {
    /// The ability name is none of the recognised names.
    UnknownAbility,
    /// The acting player's hero class does not offer the ability.
    AbilityNotAvailable,
    /// The caller has no player in the game.
    NotRegistered,
    /// The target account has no player in the game.
    TargetNotRegistered,
    /// The display name has more than sixteen characters.
    NameTooLong,
    /// The caller aimed an ability at their own account.
    InvalidTarget,
    /// No game has the given id.
    GameNotFound,
    /// The list of ability names is empty.
    EmptyCatalog,
    /// A level or an effect amount would exceed what one byte can hold.
    Overflow,
}

} // verus!
