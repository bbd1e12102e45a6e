use vstd::prelude::*;
use vstd::string::*;

verus! {

/// The ways a subcommand can fail while its plan is being put together:
/// a value that neither a flag nor the configuration file supplies, or a
/// word that does not name a background position or a screen direction.
#[derive(Debug, Clone, PartialEq, Eq)]
pub enum Error {
    MissingConfig { key: String },
    ParsePosition { input: String },
    ParseDirection { input: String },
}

impl Error {
    /// Holds when `self` reports the configuration key `key` as missing.
    pub open spec fn is_missing_config(self, key: Seq<char>) -> bool {
        match self {
            Error::MissingConfig { key: k } => k@ == key,
            _ => false,
        }
    }

    /// Holds when `self` reports that `input` is not a background position.
    pub open spec fn is_parse_position(self, input: Seq<char>) -> bool {
        match self {
            Error::ParsePosition { input: s } => s@ == input,
            _ => false,
        }
    }

    /// Holds when `self` reports that `input` is not a screen direction.
    pub open spec fn is_parse_direction(self, input: Seq<char>) -> bool {
        match self {
            Error::ParseDirection { input: s } => s@ == input,
            _ => false,
        }
    }

    /// The message that describes the error to the user.
    pub open spec fn text(self) -> Seq<char> {
        match self {
            Error::MissingConfig { key } => "Please configure `"@ + key@
                + "` in your config file"@,
            Error::ParsePosition { input } => "Cannot parse position from "@ + input@,
            Error::ParseDirection { input } => "Cannot parse direction from "@ + input@,
        }
    }

    pub fn message(&self) -> (r: String)
        ensures
            r@ == self.text(),
    {
        match self {
            Error::MissingConfig { key } => {
                let mut s = String::from_str("Please configure `");
                s.append(key.as_str());
                s.append("` in your config file");
                s
            },
            Error::ParsePosition { input } => {
                let mut s = String::from_str("Cannot parse position from ");
                s.append(input.as_str());
                s
            },
            Error::ParseDirection { input } => {
                let mut s = String::from_str("Cannot parse direction from ");
                s.append(input.as_str());
                s
            },
        }
    }
}

} // verus!
