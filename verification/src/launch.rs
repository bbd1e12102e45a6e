use vstd::prelude::*;
use vstd::string::*;

use crate::error::Error;
use crate::pick;
use crate::plan::{cmd, no_args, push_arg, Invocation};
use crate::program_or_default;

verus! {

/// Launches the editor and a terminal at the same working directory, or
/// only the terminal when asked.
#[derive(Debug, Clone)]
pub struct Launch {
    /// The wanted working directory; the caller resolves it into the one
    /// handed to `run`.
    pub path: Option<String>,
    pub editor: Option<String>,
    pub terminal: Option<String>,
    pub terminal_only: bool,
}

/// What the launch subcommand decides: the editor call, when one is
/// wanted, and the terminal call beside it.
#[derive(Debug, Clone)]
pub struct LaunchPlan {
    pub editor: Option<Invocation>,
    pub terminal: Invocation,
}

impl Launch {
    /// Lays out the editor and terminal calls at `working_dir`, or
    /// reports the program that neither a flag nor the configuration
    /// names: the editor is resolved first, the terminal second.
    pub fn run(
        self,
        default_editor: Option<String>,
        default_terminal: Option<String>,
        working_dir: String,
    ) -> (r: Result<LaunchPlan, Error>)
        ensures
            !self.terminal_only && pick(self.editor, default_editor) is None ==> (r matches Err(e)
                && e.is_missing_config("editor"@)),
            (self.terminal_only || pick(self.editor, default_editor) is Some) && pick(
                self.terminal,
                default_terminal,
            ) is None ==> (r matches Err(e) && e.is_missing_config("terminal"@)),
            (self.terminal_only || pick(self.editor, default_editor) is Some) ==> (pick(
                self.terminal,
                default_terminal,
            ) matches Some(t) ==> (r matches Ok(plan) && {
                &&& plan.terminal@ == cmd(
                    t@,
                    seq!["--working-directory"@, "."@],
                    Some(working_dir@),
                )
                &&& self.terminal_only ==> plan.editor is None
                &&& !self.terminal_only ==> (plan.editor matches Some(ed) && pick(
                    self.editor,
                    default_editor,
                ) matches Some(p) && ed@ == cmd(p@, seq!["."@], Some(working_dir@)))
            })),
    {
        let editor_invocation: Option<Invocation> = if !self.terminal_only {
            let program = match program_or_default(self.editor, default_editor, "editor") {
                Ok(p) => p,
                Err(e) => return Err(e),
            };
            let mut args = no_args();
            push_arg(&mut args, ".");
            proof {
                assert(args.deep_view() =~= seq!["."@]);
            }
            Some(
                Invocation { program, args, working_dir: Some(working_dir.clone()) },
            )
        } else {
            None
        };

        let program = match program_or_default(self.terminal, default_terminal, "terminal") {
            Ok(p) => p,
            Err(e) => return Err(e),
        };
        let mut args = no_args();
        push_arg(&mut args, "--working-directory");
        push_arg(&mut args, ".");
        proof {
            assert(args.deep_view() =~= seq!["--working-directory"@, "."@]);
        }
        let terminal_invocation = Invocation { program, args, working_dir: Some(working_dir) };

        Ok(LaunchPlan { editor: editor_invocation, terminal: terminal_invocation })
    }
}

} // verus!
