//! A user of the hosting service, and the levels of access a membership grants.

use vstd::prelude::*;
use crate::models::project::optional_text;
use crate::text::{is_word, join, lower_chars, lowered};

verus! {

/// A user of the hosting service. `id` and `username` each identify the user.
#[derive(Debug, Clone, PartialEq, Eq)]
pub struct User {
    pub id: u64,
    pub username: String,
    pub name: String,
    pub state: String,
    pub email: Option<String>,
}

/// What a [`User`] holds, as mathematical values.
pub struct UserView {
    pub id: u64,
    pub username: Seq<char>,
    pub name: Seq<char>,
    pub state: Seq<char>,
    pub email: Option<Seq<char>>,
}

impl View for User {
    type V = UserView;

    open spec fn view(&self) -> UserView {
        UserView {
            id: self.id,
            username: self.username@,
            name: self.name@,
            state: self.state@,
            email: optional_text(self.email),
        }
    }
}

/// The level of access that a membership grants. The levels are ordered by
/// their numbers.
#[derive(Debug, Clone, Copy, PartialEq, Eq, Structural)]
pub enum AccessLevel {
    NoAccess,
    MinimalAccess,
    Guest,
    Planner,
    Reporter,
    Developer,
    Maintainer,
    Owner,
}

impl AccessLevel {
    /// The number by which the hosting service knows the level.
    pub open spec fn number(self) -> nat {
        match self {
            AccessLevel::NoAccess => 0,
            AccessLevel::MinimalAccess => 5,
            AccessLevel::Guest => 10,
            AccessLevel::Planner => 15,
            AccessLevel::Reporter => 20,
            AccessLevel::Developer => 30,
            AccessLevel::Maintainer => 40,
            AccessLevel::Owner => 50,
        }
    }

    /// The name under which the level is shown.
    pub open spec fn label(self) -> Seq<char> {
        match self {
            AccessLevel::NoAccess => "No Access"@,
            AccessLevel::MinimalAccess => "Minimal Access"@,
            AccessLevel::Guest => "Guest"@,
            AccessLevel::Planner => "Planner"@,
            AccessLevel::Reporter => "Reporter"@,
            AccessLevel::Developer => "Developer"@,
            AccessLevel::Maintainer => "Maintainer"@,
            AccessLevel::Owner => "Owner"@,
        }
    }

    /// The level that a lower-case word names: a symbolic name, written
    /// together or with `_` or `-` between its parts, or the level's number.
    pub open spec fn named(word: Seq<char>) -> Option<AccessLevel> {
        if word == "noaccess"@ || word == "no_access"@ || word == "no-access"@ || word == "0"@ {
            Some(AccessLevel::NoAccess)
        } else if word == "minimalaccess"@ || word == "minimal_access"@ || word
            == "minimal-access"@ || word == "5"@ {
            Some(AccessLevel::MinimalAccess)
        } else if word == "guest"@ || word == "10"@ {
            Some(AccessLevel::Guest)
        } else if word == "planner"@ || word == "15"@ {
            Some(AccessLevel::Planner)
        } else if word == "reporter"@ || word == "20"@ {
            Some(AccessLevel::Reporter)
        } else if word == "developer"@ || word == "30"@ {
            Some(AccessLevel::Developer)
        } else if word == "maintainer"@ || word == "40"@ {
            Some(AccessLevel::Maintainer)
        } else if word == "owner"@ || word == "50"@ {
            Some(AccessLevel::Owner)
        } else {
            None
        }
    }

    /// What parsing `s` gives: the level that `s` names when the case of its
    /// letters is set aside, or else a message that quotes `s`.
    pub open spec fn parsed(s: Seq<char>) -> Result<AccessLevel, Seq<char>> {
        match Self::named(lowered(s)) {
            Some(level) => Ok(level),
            None => Err("Invalid access level: "@ + s),
        }
    }

    /// The number by which the hosting service knows the level.
    pub fn as_u64(&self) -> (n: u64)
        ensures
            n == self.number(),
    {
        match self {
            AccessLevel::NoAccess => 0,
            AccessLevel::MinimalAccess => 5,
            AccessLevel::Guest => 10,
            AccessLevel::Planner => 15,
            AccessLevel::Reporter => 20,
            AccessLevel::Developer => 30,
            AccessLevel::Maintainer => 40,
            AccessLevel::Owner => 50,
        }
    }

    /// The name under which the level is shown.
    pub fn to_string(&self) -> (s: String)
        ensures
            s@ == self.label(),
    {
        match self {
            AccessLevel::NoAccess => "No Access".to_owned(),
            AccessLevel::MinimalAccess => "Minimal Access".to_owned(),
            AccessLevel::Guest => "Guest".to_owned(),
            AccessLevel::Planner => "Planner".to_owned(),
            AccessLevel::Reporter => "Reporter".to_owned(),
            AccessLevel::Developer => "Developer".to_owned(),
            AccessLevel::Maintainer => "Maintainer".to_owned(),
            AccessLevel::Owner => "Owner".to_owned(),
        }
    }

    /// Reads a level from its name or number, whatever the case of the letters.
    /// Anything else is refused with a message that quotes the input.
    pub fn parse(s: &str) -> (level: Result<AccessLevel, String>)
        ensures
            match Self::parsed(s@) {
                Ok(l) => level == Ok::<AccessLevel, String>(l),
                Err(message) => level is Err && level->Err_0@ == message,
            },
    {
        let word = lower_chars(s);
        if is_word(&word, "noaccess") || is_word(&word, "no_access") || is_word(
            &word,
            "no-access",
        ) || is_word(&word, "0") {
            Ok(AccessLevel::NoAccess)
        } else if is_word(&word, "minimalaccess") || is_word(&word, "minimal_access") || is_word(
            &word,
            "minimal-access",
        ) || is_word(&word, "5") {
            Ok(AccessLevel::MinimalAccess)
        } else if is_word(&word, "guest") || is_word(&word, "10") {
            Ok(AccessLevel::Guest)
        } else if is_word(&word, "planner") || is_word(&word, "15") {
            Ok(AccessLevel::Planner)
        } else if is_word(&word, "reporter") || is_word(&word, "20") {
            Ok(AccessLevel::Reporter)
        } else if is_word(&word, "developer") || is_word(&word, "30") {
            Ok(AccessLevel::Developer)
        } else if is_word(&word, "maintainer") || is_word(&word, "40") {
            Ok(AccessLevel::Maintainer)
        } else if is_word(&word, "owner") || is_word(&word, "50") {
            Ok(AccessLevel::Owner)
        } else {
            Err(join("Invalid access level: ", s))
        }
    }
}

impl std::str::FromStr for AccessLevel {
    type Err = String;

    fn from_str(s: &str) -> (level: Result<AccessLevel, String>)
        ensures
            match AccessLevel::parsed(s@) {
                Ok(l) => level == Ok::<AccessLevel, String>(l),
                Err(message) => level is Err && level->Err_0@ == message,
            },
    {
        AccessLevel::parse(s)
    }
}

/// Two levels with the same number are the same level.
pub proof fn lemma_level_by_number(a: AccessLevel, b: AccessLevel)
    ensures
        a.number() == b.number() <==> a == b,
{
}

} // verus!
