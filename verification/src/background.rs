use vstd::prelude::*;
use vstd::string::*;

use crate::error::Error;
use crate::pick;
use crate::plan::{cmd, no_args, push_arg, push_arg_string, Invocation};
use crate::text::{lower_of, str_eq, to_lowercase};
use crate::value_or_default;

verus! {

/// Sets the desktop background: an image file and the way it is placed,
/// each taken from a flag or from the configuration file.
#[derive(Debug, Clone)]
pub struct Background {
    pub file_path: Option<String>,
    pub position: Option<Position>,
}

/// The placement of the background image, as feh names them.
#[derive(Debug, Clone, Copy, PartialEq, Eq, Structural)]
pub enum Position {
    Center,
    Fill,
    Max,
    Scale,
    Tile,
}

impl Position {
    /// The word that names the position on feh's command line.
    pub open spec fn chars(self) -> Seq<char> {
        match self {
            Position::Center => "center"@,
            Position::Fill => "fill"@,
            Position::Max => "max"@,
            Position::Scale => "scale"@,
            Position::Tile => "tile"@,
        }
    }

    pub fn as_str(&self) -> (r: &'static str)
        ensures
            r@ == self.chars(),
    {
        match self {
            Position::Center => "center",
            Position::Fill => "fill",
            Position::Max => "max",
            Position::Scale => "scale",
            Position::Tile => "tile",
        }
    }

    /// Reads a position from a word that is already in lower case.
    pub fn from_folded(s: &str) -> (r: Result<Position, Error>)
        ensures
            s@ == "center"@ ==> r == Ok::<Position, Error>(Position::Center),
            s@ == "fill"@ ==> r == Ok::<Position, Error>(Position::Fill),
            s@ == "max"@ ==> r == Ok::<Position, Error>(Position::Max),
            s@ == "scale"@ ==> r == Ok::<Position, Error>(Position::Scale),
            s@ == "tile"@ ==> r == Ok::<Position, Error>(Position::Tile),
            (s@ != "center"@ && s@ != "fill"@ && s@ != "max"@ && s@ != "scale"@ && s@
                != "tile"@) ==> (r matches Err(e) && e.is_parse_position(s@)),
    {
        proof {
            reveal_strlit("center");
            reveal_strlit("fill");
            reveal_strlit("max");
            reveal_strlit("scale");
            reveal_strlit("tile");
            assert("center"@.len() == 6);
            assert("fill"@.len() == 4);
            assert("max"@.len() == 3);
            assert("scale"@.len() == 5);
            assert("tile"@.len() == 4);
            assert("fill"@[0] == 'f');
            assert("tile"@[0] == 't');
        }
        if str_eq(s, "center") {
            Ok(Position::Center)
        } else if str_eq(s, "fill") {
            Ok(Position::Fill)
        } else if str_eq(s, "max") {
            Ok(Position::Max)
        } else if str_eq(s, "scale") {
            Ok(Position::Scale)
        } else if str_eq(s, "tile") {
            Ok(Position::Tile)
        } else {
            Err(Error::ParsePosition { input: s.to_owned() })
        }
    }

    /// Reads a position from a word in any case: the word is lower-cased
    /// first, as feh's options are written.
    pub fn from_str(s: &str) -> (r: Result<Position, Error>)
        ensures
            lower_of(s@) == "center"@ ==> r == Ok::<Position, Error>(Position::Center),
            lower_of(s@) == "fill"@ ==> r == Ok::<Position, Error>(Position::Fill),
            lower_of(s@) == "max"@ ==> r == Ok::<Position, Error>(Position::Max),
            lower_of(s@) == "scale"@ ==> r == Ok::<Position, Error>(Position::Scale),
            lower_of(s@) == "tile"@ ==> r == Ok::<Position, Error>(Position::Tile),
            (lower_of(s@) != "center"@ && lower_of(s@) != "fill"@ && lower_of(s@) != "max"@
                && lower_of(s@) != "scale"@ && lower_of(s@) != "tile"@) ==> (r matches Err(e)
                && e.is_parse_position(lower_of(s@))),
    {
        let folded = to_lowercase(s);
        Position::from_folded(folded.as_str())
    }
}

impl Background {
    /// Lays out the feh call that sets the background, or reports which
    /// configuration key is missing: the file first, the position second.
    pub fn run(self, bg_file_path: Option<String>, bg_position: Option<Position>) -> (r: Result<
        Invocation,
        Error,
    >)
        ensures
            pick(self.file_path, bg_file_path) is None ==> (r matches Err(e)
                && e.is_missing_config("bg_file_path"@)),
            pick(self.file_path, bg_file_path) matches Some(f) ==> {
                &&& pick(self.position, bg_position) is None ==> (r matches Err(e)
                    && e.is_missing_config("bg_position"@))
                &&& pick(self.position, bg_position) matches Some(p) ==> (r matches Ok(inv)
                    && inv@ == cmd(
                    "feh"@,
                    seq!["--no-fehbg"@, "--bg-"@ + p.chars(), f@],
                    None::<Seq<char>>,
                ))
            },
    {
        let bg_file_path = match value_or_default(self.file_path, bg_file_path, "bg_file_path") {
            Ok(f) => f,
            Err(e) => return Err(e),
        };
        let bg_position = match value_or_default(self.position, bg_position, "bg_position") {
            Ok(p) => p,
            Err(e) => return Err(e),
        };

        let mut args = no_args();
        push_arg(&mut args, "--no-fehbg");
        let mut bg_arg = String::from_str("--bg-");
        bg_arg.append(bg_position.as_str());
        let ghost file_chars = bg_file_path@;
        push_arg_string(&mut args, bg_arg);
        push_arg_string(&mut args, bg_file_path);
        proof {
            assert(args.deep_view() =~= seq![
                "--no-fehbg"@,
                "--bg-"@ + bg_position.chars(),
                file_chars,
            ]);
        }
        Ok(Invocation::new("feh", args, None))
    }
}

} // verus!
