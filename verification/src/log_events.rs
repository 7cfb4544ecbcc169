use vstd::prelude::*;
use vstd::string::*;
use crate::contract::Contract;
use crate::error::GameError;
use crate::hero_class::{catalog_names, choice_of, render_choice, HeroAbility};

verus! {

/// How grave an event is, and who can mend it.
#[derive(Clone, Copy, Debug, PartialEq, Eq, Structural)]
pub enum LogLevel {
    Info,
    Warn,
    UserError,
    ContractError,
}

/// What has to be there before the caller tries again.
#[derive(Debug, PartialEq, Eq)]
pub struct LogNeeds {
    pub gas: Option<u64>,
    pub deposit: Option<u128>,
    pub height: Option<u64>,
    pub epoch: Option<u64>,
    pub block_timestamp: Option<u64>,
    /// For conditions that have no field of their own.
    pub other: Option<String>,
}

/// An event for the caller: a level, a short code in capitals, and optionally
/// advice in words and a list of needs.
#[derive(Debug, PartialEq, Eq)]
pub struct LogEvent {
    pub level: LogLevel,
    pub code: &'static str,
    pub advice: Option<String>,
    pub needs: Option<LogNeeds>,
}

impl LogEvent {
    /// An event with a level and a code, without advice or needs.
    pub fn new(level: LogLevel, code: &'static str) -> (event: Self)
        ensures
            event.level == level,
            event.code == code,
            event.advice.is_none(),
            event.needs.is_none(),
    {
        Self { level, code, advice: None, needs: None }
    }

    /// Sets the advice and leaves the rest as it is. The event comes back, so
    /// that calls can be chained.
    pub fn advice(&mut self, i: String) -> (this: &mut Self)
        ensures
            this.advice == Some(i),
            this.level == old(self).level,
            this.code == old(self).code,
            this.needs == old(self).needs,
            *final(this) == *final(self),
    {
        self.advice = Some(i);
        self
    }

    /// Sets the needs and leaves the rest as it is. The event comes back, so
    /// that calls can be chained.
    pub fn needs(&mut self, n: LogNeeds) -> (this: &mut Self)
        ensures
            this.needs == Some(n),
            this.level == old(self).level,
            this.code == old(self).code,
            this.advice == old(self).advice,
            *final(this) == *final(self),
    {
        self.needs = Some(n);
        self
    }
}

/// The three classes of failure.
#[derive(Clone, Copy, Debug, PartialEq, Eq, Structural)]
pub enum ErrorClass {
    /// The caller can mend it.
    UserError,
    /// What was asked for does not exist.
    NotFound,
    /// The library found its own state or data broken.
    ContractError,
}

impl GameError {
    /// The class that an error belongs to.
    pub open spec fn spec_class(&self) -> ErrorClass {
        match *self {
            GameError::GameNotFound => ErrorClass::NotFound,
            GameError::EmptyCatalog | GameError::Overflow => ErrorClass::ContractError,
            _ => ErrorClass::UserError,
        }
    }

    /// The short code of an error, stable from version to version.
    pub open spec fn spec_code(&self) -> Seq<char> {
        match *self {
            GameError::UnknownAbility => "NO_ABILITY"@,
            GameError::AbilityNotAvailable => "ABILITY_NOT_AVAILABLE"@,
            GameError::NotRegistered => "NOT_REGISTERED"@,
            GameError::TargetNotRegistered => "TARGET_NOT_REGISTERED"@,
            GameError::NameTooLong => "NAME_TOO_LONG"@,
            GameError::InvalidTarget => "INVALID_TARGET"@,
            GameError::GameNotFound => "GAME_NOT_FOUND"@,
            GameError::EmptyCatalog => "INVALID_ABILITIES"@,
            GameError::Overflow => "OVERFLOW"@,
        }
    }

    /// The level at which an error is reported: failures of the library itself
    /// as contract errors, all others as user errors.
    pub open spec fn spec_level(&self) -> LogLevel {
        if self.spec_class() == ErrorClass::ContractError {
            LogLevel::ContractError
        } else {
            LogLevel::UserError
        }
    }

    /// The advice that goes with an error: an unknown ability is answered with
    /// the list of the known ones.
    pub open spec fn spec_advice(&self) -> Option<Seq<char>> {
        match *self {
            GameError::UnknownAbility => Some(
                "Please use one of these abilities: "@ + choice_of(catalog_names()) + "."@,
            ),
            _ => None,
        }
    }

    /// Returns the class that the error belongs to.
    #[verifier::when_used_as_spec(spec_class)]
    pub fn class(&self) -> (class: ErrorClass)
        ensures
            class == self.spec_class(),
    {
        match self {
            GameError::GameNotFound => ErrorClass::NotFound,
            GameError::EmptyCatalog | GameError::Overflow => ErrorClass::ContractError,
            _ => ErrorClass::UserError,
        }
    }

    /// Returns the short code of the error.
    pub fn code(&self) -> (code: &'static str)
        ensures
            code@ == self.spec_code(),
    {
        match self {
            GameError::UnknownAbility => "NO_ABILITY",
            GameError::AbilityNotAvailable => "ABILITY_NOT_AVAILABLE",
            GameError::NotRegistered => "NOT_REGISTERED",
            GameError::TargetNotRegistered => "TARGET_NOT_REGISTERED",
            GameError::NameTooLong => "NAME_TOO_LONG",
            GameError::InvalidTarget => "INVALID_TARGET",
            GameError::GameNotFound => "GAME_NOT_FOUND",
            GameError::EmptyCatalog => "INVALID_ABILITIES",
            GameError::Overflow => "OVERFLOW",
        }
    }

    /// The event that reports the error: its level, its code and its advice.
    pub fn event(&self) -> (event: LogEvent)
        ensures
            event.level == self.spec_level(),
            event.code@ == self.spec_code(),
            match event.advice {
                Some(text) => self.spec_advice() == Some(text@),
                None => self.spec_advice().is_none(),
            },
            event.needs.is_none(),
    {
        let level = match self.class() {
            ErrorClass::ContractError => LogLevel::ContractError,
            _ => LogLevel::UserError,
        };
        let mut event = LogEvent::new(level, self.code());
        match self {
            GameError::UnknownAbility => {
                let names = HeroAbility::values();
                proof {
                    assert(catalog_names().len() == 4);
                }
                match render_choice(&names) {
                    Ok(list) => {
                        let mut text = String::from_str("Please use one of these abilities: ");
                        text.append(list.as_str());
                        text.append(".");
                        event.advice = Some(text);
                    },
                    Err(_) => {},
                }
            },
            _ => {},
        }
        event
    }
}

/// The version of the layout of log events.
pub fn version() -> (version: String)
    ensures
        version@ == "0.0.1"@,
{
    String::from_str("0.0.1")
}

impl Contract {
    /// Returns the version of the layout of log events.
    pub fn log_events_version(&self) -> (version: String)
        ensures
            version@ == "0.0.1"@,
    {
        version()
    }
}

} // verus!
