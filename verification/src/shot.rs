use vstd::prelude::*;
use vstd::string::*;

use crate::plan::{cmd, no_args, push_arg, push_arg_string, CmdModel, Invocation};

verus! {

/// Takes a screenshot with flameshot, or shows a text file with bat so
/// that it can be copied. With no flag, flameshot opens its GUI.
#[derive(Debug, Clone)]
pub struct Shot {
    pub text: Option<String>,
    pub screen: Option<bool>,
    pub desktop: Option<bool>,
}

impl Shot {
    /// The flameshot call for one capture mode: the mode word, then
    /// `--clipboard` when the capture goes to the clipboard.
    pub open spec fn flameshot_model(mode: Seq<char>, clipboard: bool) -> CmdModel {
        if clipboard {
            cmd("flameshot"@, seq![mode, "--clipboard"@], None::<Seq<char>>)
        } else {
            cmd("flameshot"@, seq![mode], None::<Seq<char>>)
        }
    }

    /// Lays out the one call this subcommand makes: bat on a text file,
    /// or flameshot on a screen, the whole desktop, or its GUI.
    pub fn run(self) -> (r: Invocation)
        ensures
            self.text matches Some(path) ==> r@ == cmd(
                "bat"@,
                seq![path@, "--style"@, "plain"@],
                None::<Seq<char>>,
            ),
            self.text is None ==> (self.screen matches Some(clipboard) ==> r@
                == Shot::flameshot_model("screen"@, clipboard)),
            self.text is None && self.screen is None ==> (self.desktop matches Some(clipboard)
                ==> r@ == Shot::flameshot_model("full"@, clipboard)),
            self.text is None && self.screen is None && self.desktop is None ==> r@ == cmd(
                "flameshot"@,
                seq!["gui"@],
                None::<Seq<char>>,
            ),
    {
        if let Some(path) = self.text {
            let ghost path_chars = path@;
            let mut args = no_args();
            push_arg_string(&mut args, path);
            push_arg(&mut args, "--style");
            push_arg(&mut args, "plain");
            proof {
                assert(args.deep_view() =~= seq![path_chars, "--style"@, "plain"@]);
            }
            Invocation::new("bat", args, None)
        } else if let Some(clipboard) = self.screen {
            let mut args = no_args();
            push_arg(&mut args, "screen");
            if clipboard {
                push_arg(&mut args, "--clipboard");
            }
            proof {
                if clipboard {
                    assert(args.deep_view() =~= seq!["screen"@, "--clipboard"@]);
                } else {
                    assert(args.deep_view() =~= seq!["screen"@]);
                }
            }
            Invocation::new("flameshot", args, None)
        } else if let Some(clipboard) = self.desktop {
            let mut args = no_args();
            push_arg(&mut args, "full");
            if clipboard {
                push_arg(&mut args, "--clipboard");
            }
            proof {
                if clipboard {
                    assert(args.deep_view() =~= seq!["full"@, "--clipboard"@]);
                } else {
                    assert(args.deep_view() =~= seq!["full"@]);
                }
            }
            Invocation::new("flameshot", args, None)
        } else {
            let mut args = no_args();
            push_arg(&mut args, "gui");
            proof {
                assert(args.deep_view() =~= seq!["gui"@]);
            }
            Invocation::new("flameshot", args, None)
        }
    }
}

} // verus!
