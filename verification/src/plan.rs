use vstd::prelude::*;
use vstd::string::*;

verus! {

/// One call of an external program: the program's name, its arguments in
/// order, and the directory it starts in when one is set.
#[derive(Debug, Clone)]
pub struct Invocation {
    pub program: String,
    pub args: Vec<String>,
    pub working_dir: Option<String>,
}

/// The mathematical image of an `Invocation`.
#[verifier::ext_equal]
pub ghost struct CmdModel {
    pub program: Seq<char>,
    pub args: Seq<Seq<char>>,
    pub working_dir: Option<Seq<char>>,
}

/// Builds a `CmdModel` for use in a contract.
pub open spec fn cmd(
    program: Seq<char>,
    args: Seq<Seq<char>>,
    working_dir: Option<Seq<char>>,
) -> CmdModel {
    CmdModel { program, args, working_dir }
}

impl View for Invocation {
    type V = CmdModel;

    open spec fn view(&self) -> CmdModel {
        CmdModel {
            program: self.program@,
            args: self.args.deep_view(),
            working_dir: self.working_dir.deep_view(),
        }
    }
}

impl DeepView for Invocation {
    type V = CmdModel;

    open spec fn deep_view(&self) -> CmdModel {
        self.view()
    }
}

impl Invocation {
    pub fn new(program: &str, args: Vec<String>, working_dir: Option<String>) -> (r: Invocation)
        ensures
            r@ == cmd(program@, args.deep_view(), working_dir.deep_view()),
    {
        Invocation { program: String::from_str(program), args, working_dir }
    }
}

/// A file to be written: where it goes and what it holds.
#[derive(Debug, Clone)]
pub struct OutFile {
    pub path: String,
    pub content: String,
}

/// The mathematical image of an `OutFile`.
#[verifier::ext_equal]
pub ghost struct FileModel {
    pub path: Seq<char>,
    pub content: Seq<char>,
}

/// Builds a `FileModel` for use in a contract.
pub open spec fn file_at(path: Seq<char>, content: Seq<char>) -> FileModel {
    FileModel { path, content }
}

impl View for OutFile {
    type V = FileModel;

    open spec fn view(&self) -> FileModel {
        FileModel { path: self.path@, content: self.content@ }
    }
}

impl DeepView for OutFile {
    type V = FileModel;

    open spec fn deep_view(&self) -> FileModel {
        self.view()
    }
}

impl OutFile {
    pub fn new(path: String, content: String) -> (r: OutFile)
        ensures
            r@ == file_at(path@, content@),
    {
        OutFile { path, content }
    }
}

/// One step of a project-scaffolding plan: make a directory, run a
/// program, or write a file.
#[derive(Debug, Clone)]
pub enum Action {
    CreateDir { path: String },
    CreateDirAll { path: String },
    Run { invocation: Invocation },
    WriteFile { file: OutFile },
}

/// The mathematical image of an `Action`.
#[verifier::ext_equal]
pub ghost enum ActionModel {
    CreateDir { path: Seq<char> },
    CreateDirAll { path: Seq<char> },
    Run { invocation: CmdModel },
    WriteFile { file: FileModel },
}

impl View for Action {
    type V = ActionModel;

    open spec fn view(&self) -> ActionModel {
        match self {
            Action::CreateDir { path } => ActionModel::CreateDir { path: path@ },
            Action::CreateDirAll { path } => ActionModel::CreateDirAll { path: path@ },
            Action::Run { invocation } => ActionModel::Run { invocation: invocation@ },
            Action::WriteFile { file } => ActionModel::WriteFile { file: file@ },
        }
    }
}

impl DeepView for Action {
    type V = ActionModel;

    open spec fn deep_view(&self) -> ActionModel {
        self.view()
    }
}

/// An empty argument list.
pub fn no_args() -> (r: Vec<String>)
    ensures
        r.deep_view() == Seq::<Seq<char>>::empty(),
{
    let r: Vec<String> = Vec::new();
    proof {
        assert(r.deep_view() =~= Seq::<Seq<char>>::empty());
    }
    r
}

/// Adds one literal argument at the end of an argument list.
pub fn push_arg(args: &mut Vec<String>, a: &str)
    ensures
        final(args).deep_view() == old(args).deep_view().push(a@),
{
    args.push(String::from_str(a));
    proof {
        assert(args.deep_view() =~= old(args).deep_view().push(a@));
    }
}

/// Adds one owned argument at the end of an argument list.
pub fn push_arg_string(args: &mut Vec<String>, a: String)
    ensures
        final(args).deep_view() == old(args).deep_view().push(a@),
{
    let ghost v = a@;
    args.push(a);
    proof {
        assert(args.deep_view() =~= old(args).deep_view().push(v));
    }
}

/// Adds a file at the end of a list of files to write.
pub fn push_file(files: &mut Vec<OutFile>, f: OutFile)
    ensures
        final(files).deep_view() == old(files).deep_view().push(f@),
{
    let ghost m = f@;
    files.push(f);
    proof {
        assert(files.deep_view() =~= old(files).deep_view().push(m));
    }
}

/// Adds an invocation at the end of a command plan.
pub fn push_invocation(plan: &mut Vec<Invocation>, inv: Invocation)
    ensures
        final(plan).deep_view() == old(plan).deep_view().push(inv@),
{
    let ghost m = inv@;
    plan.push(inv);
    proof {
        assert(plan.deep_view() =~= old(plan).deep_view().push(m));
    }
}

/// Adds a step at the end of a scaffolding plan.
pub fn push_action(plan: &mut Vec<Action>, a: Action)
    ensures
        final(plan).deep_view() == old(plan).deep_view().push(a@),
{
    let ghost m = a@;
    plan.push(a);
    proof {
        assert(plan.deep_view() =~= old(plan).deep_view().push(m));
    }
}

} // verus!
