use vstd::prelude::*;
use vstd::string::*;

use crate::plan::{cmd, no_args, push_arg, Invocation};
use crate::text::{dec_str, each_prefixed, u64_to_string};

verus! {

/// Runs the project's quality checks in one go: cargo's check, test,
/// fmt and clippy, each with the arguments from its flag or, failing
/// that, from the configuration file.
#[derive(Debug, Clone)]
pub struct Checks {
    /// The project to check; the caller resolves it into the directory
    /// the commands run in.
    pub path: Option<String>,
    pub clean: bool,
    pub check_args: Vec<String>,
    pub test_args: Vec<String>,
    pub fmt_args: Vec<String>,
    pub clippy_args: Vec<String>,
}

/// The four quality checks, in the order they run.
#[derive(Debug, Clone, Copy, PartialEq, Eq, Structural)]
pub enum CheckKind {
    Check,
    Test,
    Fmt,
    Clippy,
}

impl CheckKind {
    /// The cargo subcommand that performs this check.
    pub open spec fn sub_chars(self) -> Seq<char> {
        match self {
            CheckKind::Check => "check"@,
            CheckKind::Test => "test"@,
            CheckKind::Fmt => "fmt"@,
            CheckKind::Clippy => "clippy"@,
        }
    }

    pub fn subcommand(&self) -> (r: &'static str)
        ensures
            r@ == self.sub_chars(),
    {
        match self {
            CheckKind::Check => "check",
            CheckKind::Test => "test",
            CheckKind::Fmt => "fmt",
            CheckKind::Clippy => "clippy",
        }
    }

    /// The check's name padded to one width, as the summary lines it up.
    pub open spec fn label_chars(self) -> Seq<char> {
        match self {
            CheckKind::Check => "check  "@,
            CheckKind::Test => "test   "@,
            CheckKind::Fmt => "fmt    "@,
            CheckKind::Clippy => "clippy "@,
        }
    }

    /// The words shown while this check runs.
    pub fn progress_message(&self) -> (r: &'static str)
        ensures
            self is Check ==> r@ == "Checking package..."@,
            self is Test ==> r@ == "Testing..."@,
            self is Fmt ==> r@ == "Checking formatting..."@,
            self is Clippy ==> r@ == "Checking lints..."@,
    {
        match self {
            CheckKind::Check => "Checking package...",
            CheckKind::Test => "Testing...",
            CheckKind::Fmt => "Checking formatting...",
            CheckKind::Clippy => "Checking lints...",
        }
    }

    /// Writes the summary line for this check: its padded name, then the
    /// seconds that have passed since the run began, in parentheses.
    pub fn generate_msg(self, elapsed_secs: u64) -> (r: String)
        ensures
            r@ == self.label_chars() + "("@ + dec_str(elapsed_secs as nat) + "s)"@,
    {
        let mut message = String::new();
        match self {
            CheckKind::Check => message.append("check  "),
            CheckKind::Test => message.append("test   "),
            CheckKind::Fmt => message.append("fmt    "),
            CheckKind::Clippy => message.append("clippy "),
        };
        proof {
            assert(message@ =~= self.label_chars());
        }
        message.append("(");
        let secs = u64_to_string(elapsed_secs);
        message.append(secs.as_str());
        message.append("s)");
        message
    }
}

/// One quality check ready to run: its kind, the arguments handed to
/// cargo, and the command line written out for the failure summary.
#[derive(Debug, Clone)]
pub struct ChecksCommand {
    pub kind: CheckKind,
    pub args: Vec<String>,
    pub command_string: String,
}

impl ChecksCommand {
    /// Holds when this command is the `kind` check with `args`, and its
    /// written form starts with `prefix` and lists the arguments after.
    pub open spec fn wf(self, kind: CheckKind, prefix: Seq<char>, args: Seq<Seq<char>>) -> bool {
        &&& self.kind == kind
        &&& self.args.deep_view() == args
        &&& self.command_string@ == prefix + each_prefixed(args, " "@)
    }

    fn build(kind: CheckKind, prefix: &str, args: Vec<String>) -> (r: ChecksCommand)
        ensures
            r.wf(kind, prefix@, args.deep_view()),
    {
        let ghost args_view = args.deep_view();
        let mut command_string = String::from_str(prefix);
        let mut i: usize = 0;
        while i < args.len()
            invariant
                i <= args.len(),
                args_view == args.deep_view(),
                command_string@ == prefix@ + each_prefixed(args_view.take(i as int), " "@),
            decreases args.len() - i,
        {
            command_string.append(" ");
            command_string.append(args[i].as_str());
            proof {
                assert(args_view.take(i + 1).drop_last() =~= args_view.take(i as int));
                assert(args_view.take(i + 1).last() == args_view[i as int]);
                assert(command_string@ =~= prefix@ + each_prefixed(args_view.take(i + 1), " "@));
            }
            i = i + 1;
        }
        proof {
            assert(args_view.take(args.len() as int) =~= args_view);
        }
        ChecksCommand { kind, args, command_string }
    }

    /// The `cargo check` command with the given arguments.
    pub fn check(args: Vec<String>) -> (r: ChecksCommand)
        ensures
            r.wf(CheckKind::Check, "cargo check"@, args.deep_view()),
    {
        ChecksCommand::build(CheckKind::Check, "cargo check", args)
    }

    /// The `cargo test` command with the given arguments.
    pub fn test(args: Vec<String>) -> (r: ChecksCommand)
        ensures
            r.wf(CheckKind::Test, "cargo test"@, args.deep_view()),
    {
        ChecksCommand::build(CheckKind::Test, "cargo test", args)
    }

    /// The `cargo fmt` command with the given arguments.
    pub fn fmt(args: Vec<String>) -> (r: ChecksCommand)
        ensures
            r.wf(CheckKind::Fmt, "cargo fmt"@, args.deep_view()),
    {
        ChecksCommand::build(CheckKind::Fmt, "cargo fmt", args)
    }

    /// The `cargo clippy` command with the given arguments.
    pub fn clippy(args: Vec<String>) -> (r: ChecksCommand)
        ensures
            r.wf(CheckKind::Clippy, "cargo clippy"@, args.deep_view()),
    {
        ChecksCommand::build(CheckKind::Clippy, "cargo clippy", args)
    }
}

/// What the checks subcommand decides: whether the target directory is
/// cleaned first, then the four checks in order.
#[derive(Debug, Clone)]
pub struct ChecksPlan {
    pub clean: bool,
    pub commands: Vec<ChecksCommand>,
}

/// The arguments a check runs with: the flag's when any were given, and
/// the configured defaults otherwise.
pub open spec fn chosen(flag_args: Seq<Seq<char>>, default_args: Seq<Seq<char>>) -> Seq<
    Seq<char>,
> {
    if flag_args.len() > 0 {
        flag_args
    } else {
        default_args
    }
}

impl Checks {
    /// Lays out the four checks, each with its flag's arguments or the
    /// configured defaults, behind an optional `cargo clean`.
    pub fn run(
        self,
        default_check_args: Vec<String>,
        default_test_args: Vec<String>,
        default_fmt_args: Vec<String>,
        default_clippy_args: Vec<String>,
    ) -> (r: ChecksPlan)
        ensures
            r.clean == self.clean,
            r.commands@.len() == 4,
            r.commands@[0].wf(
                CheckKind::Check,
                "cargo check"@,
                chosen(self.check_args.deep_view(), default_check_args.deep_view()),
            ),
            r.commands@[1].wf(
                CheckKind::Test,
                "cargo test"@,
                chosen(self.test_args.deep_view(), default_test_args.deep_view()),
            ),
            r.commands@[2].wf(
                CheckKind::Fmt,
                "cargo fmt"@,
                chosen(self.fmt_args.deep_view(), default_fmt_args.deep_view()),
            ),
            r.commands@[3].wf(
                CheckKind::Clippy,
                "cargo clippy"@,
                chosen(self.clippy_args.deep_view(), default_clippy_args.deep_view()),
            ),
    {
        let check_args = if self.check_args.len() > 0 {
            self.check_args
        } else {
            default_check_args
        };
        let test_args = if self.test_args.len() > 0 {
            self.test_args
        } else {
            default_test_args
        };
        let fmt_args = if self.fmt_args.len() > 0 {
            self.fmt_args
        } else {
            default_fmt_args
        };
        let clippy_args = if self.clippy_args.len() > 0 {
            self.clippy_args
        } else {
            default_clippy_args
        };

        let mut commands: Vec<ChecksCommand> = Vec::new();
        commands.push(ChecksCommand::check(check_args));
        commands.push(ChecksCommand::test(test_args));
        commands.push(ChecksCommand::fmt(fmt_args));
        commands.push(ChecksCommand::clippy(clippy_args));

        ChecksPlan { clean: self.clean, commands }
    }
}

/// The cargo call that removes the target directory.
pub fn clean_invocation(working_dir: String) -> (r: Invocation)
    ensures
        r@ == cmd("cargo"@, seq!["clean"@], Some(working_dir@)),
{
    let ghost wd = working_dir@;
    let mut args = no_args();
    push_arg(&mut args, "clean");
    proof {
        assert(args.deep_view() =~= seq!["clean"@]);
    }
    Invocation::new("cargo", args, Some(working_dir))
}

/// The written command lines whose checks failed, in order.
pub open spec fn failed_of(command_lines: Seq<Seq<char>>, succeeded: Seq<bool>) -> Seq<Seq<char>>
    decreases command_lines.len(),
{
    if command_lines.len() == 0 {
        Seq::empty()
    } else {
        failed_of(command_lines.drop_last(), succeeded.drop_last()) + (if succeeded.last() {
            Seq::<Seq<char>>::empty()
        } else {
            seq![command_lines.last()]
        })
    }
}

/// Keeps the command line of each check that did not succeed, in order:
/// what the summary at the end lists.
pub fn failed_commands(command_lines: Vec<String>, succeeded: &Vec<bool>) -> (r: Vec<String>)
    requires
        command_lines@.len() == succeeded@.len(),
    ensures
        r.deep_view() == failed_of(command_lines.deep_view(), succeeded@),
{
    let ghost lines_view = command_lines.deep_view();
    let ghost ok_view = succeeded@;
    let mut r: Vec<String> = Vec::new();
    proof {
        assert(r.deep_view() =~= Seq::<Seq<char>>::empty());
    }
    let mut i: usize = 0;
    while i < command_lines.len()
        invariant
            i <= command_lines.len(),
            command_lines@.len() == succeeded@.len(),
            lines_view == command_lines.deep_view(),
            ok_view == succeeded@,
            r.deep_view() == failed_of(lines_view.take(i as int), ok_view.take(i as int)),
        decreases command_lines.len() - i,
    {
        if !succeeded[i] {
            let line = command_lines[i].clone();
            let ghost line_chars = line@;
            r.push(line);
            proof {
                assert(r.deep_view() =~= failed_of(
                    lines_view.take(i as int),
                    ok_view.take(i as int),
                ).push(line_chars));
            }
        }
        proof {
            assert(lines_view.take(i + 1).drop_last() =~= lines_view.take(i as int));
            assert(ok_view.take(i + 1).drop_last() =~= ok_view.take(i as int));
            assert(lines_view.take(i + 1).last() == lines_view[i as int]);
            assert(ok_view.take(i + 1).last() == ok_view[i as int]);
            assert(r.deep_view() =~= failed_of(lines_view.take(i + 1), ok_view.take(i + 1)));
        }
        i = i + 1;
    }
    proof {
        assert(lines_view.take(command_lines.len() as int) =~= lines_view);
        assert(ok_view.take(succeeded.len() as int) =~= ok_view);
    }
    r
}

/// The progress template while a check is still running.
pub fn pending_style_template() -> (r: &'static str)
    ensures
        r@ == "{bar:5.white} {msg}"@,
{
    "{bar:5.white} {msg}"
}

/// The progress template once a check has finished: green for success,
/// red for failure.
pub fn finished_style_template(is_success: bool) -> (r: &'static str)
    ensures
        is_success ==> r@ == "{bar:5.green} {msg}"@,
        !is_success ==> r@ == "{bar:5.red} {msg}"@,
{
    if is_success {
        "{bar:5.green} {msg}"
    } else {
        "{bar:5.red} {msg}"
    }
}

} // verus!
