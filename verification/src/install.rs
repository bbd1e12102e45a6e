use vstd::prelude::*;
use vstd::string::*;

use crate::error::Error;
use crate::plan::{cmd, no_args, push_arg, push_arg_string, push_invocation, CmdModel, Invocation};
use crate::text::path_join;

verus! {

/// Installs one package: through pacman by default, through cargo or the
/// AUR when the matching flag is given. A package whose program already
/// answers `--version` is left alone.
#[derive(Debug, Clone)]
pub struct Install {
    pub name: String,
    pub cargo: bool,
    pub aur: Option<String>,
}

/// The package manager that will install the program, with what it needs:
/// the AUR wants the source's URL and the directory that holds the builds.
#[derive(Debug, Clone)]
pub enum Manager {
    Aur { program: String, url: String, dir: Option<String> },
    Cargo(String),
    Pacman(String),
}

impl Manager {
    /// The commands that fetch and build a package from the AUR: a git
    /// clone into the build directory, then makepkg in the package's own.
    pub open spec fn aur_plan(program: Seq<char>, url: Seq<char>, dir: Seq<char>) -> Seq<
        CmdModel,
    > {
        seq![
            cmd("git"@, seq!["clone"@, url], Some(dir)),
            cmd(
                "makepkg"@,
                seq!["--syncdeps"@, "--install"@, "--clean"@],
                Some(dir + "/"@ + program),
            ),
        ]
    }

    /// Lays out the commands that install the package, or reports the
    /// missing AUR build directory.
    pub fn install(self) -> (r: Result<Vec<Invocation>, Error>)
        ensures
            self matches Manager::Aur { program, url, dir } ==> {
                &&& dir is None ==> (r matches Err(e) && e.is_missing_config("aur_directory"@))
                &&& dir matches Some(d) ==> (r matches Ok(p) && p.deep_view() == Manager::aur_plan(
                    program@,
                    url@,
                    d@,
                ))
            },
            self matches Manager::Cargo(program) ==> (r matches Ok(p) && p.deep_view() == seq![
                cmd("cargo"@, seq!["install"@, program@], None::<Seq<char>>),
            ]),
            self matches Manager::Pacman(program) ==> (r matches Ok(p) && p.deep_view() == seq![
                cmd("sudo"@, seq!["pacman"@, "--sync"@, program@], None::<Seq<char>>),
            ]),
    {
        let mut plan: Vec<Invocation> = Vec::new();
        proof {
            assert(plan.deep_view() =~= Seq::<CmdModel>::empty());
        }
        match self {
            Manager::Aur { program, url, dir } => {
                let dir = match dir {
                    Some(dir) => dir,
                    None => {
                        return Err(
                            Error::MissingConfig { key: String::from_str("aur_directory") },
                        );
                    },
                };
                let ghost program_chars = program@;
                let ghost url_chars = url@;
                let ghost dir_chars = dir@;

                let mut clone_args = no_args();
                push_arg(&mut clone_args, "clone");
                push_arg_string(&mut clone_args, url);
                proof {
                    assert(clone_args.deep_view() =~= seq!["clone"@, url_chars]);
                }
                push_invocation(&mut plan, Invocation::new("git", clone_args, Some(dir.clone())));

                let build_dir = path_join(dir.as_str(), program.as_str());
                let mut make_args = no_args();
                push_arg(&mut make_args, "--syncdeps");
                push_arg(&mut make_args, "--install");
                push_arg(&mut make_args, "--clean");
                proof {
                    assert(make_args.deep_view() =~= seq!["--syncdeps"@, "--install"@, "--clean"@]);
                }
                push_invocation(&mut plan, Invocation::new("makepkg", make_args, Some(build_dir)));
                proof {
                    assert(plan.deep_view() =~= Manager::aur_plan(
                        program_chars,
                        url_chars,
                        dir_chars,
                    ));
                }
            },
            Manager::Cargo(program) => {
                let ghost program_chars = program@;
                let mut args = no_args();
                push_arg(&mut args, "install");
                push_arg_string(&mut args, program);
                proof {
                    assert(args.deep_view() =~= seq!["install"@, program_chars]);
                }
                push_invocation(&mut plan, Invocation::new("cargo", args, None));
                proof {
                    assert(plan.deep_view() =~= seq![
                        cmd("cargo"@, seq!["install"@, program_chars], None::<Seq<char>>),
                    ]);
                }
            },
            Manager::Pacman(program) => {
                let ghost program_chars = program@;
                let mut args = no_args();
                push_arg(&mut args, "pacman");
                push_arg(&mut args, "--sync");
                push_arg_string(&mut args, program);
                proof {
                    assert(args.deep_view() =~= seq!["pacman"@, "--sync"@, program_chars]);
                }
                push_invocation(&mut plan, Invocation::new("sudo", args, None));
                proof {
                    assert(plan.deep_view() =~= seq![
                        cmd("sudo"@, seq!["pacman"@, "--sync"@, program_chars], None::<Seq<char>>),
                    ]);
                }
            },
        }
        Ok(plan)
    }
}

impl Install {
    /// The probe that asks whether the program is already there: the
    /// program itself, called with `--version`.
    pub fn version_probe(&self) -> (r: Invocation)
        ensures
            r@ == cmd(self.name@, seq!["--version"@], None::<Seq<char>>),
    {
        let mut args = no_args();
        push_arg(&mut args, "--version");
        proof {
            assert(args.deep_view() =~= seq!["--version"@]);
        }
        Invocation { program: self.name.clone(), args, working_dir: None }
    }

    /// Lays out the commands that install the package, given whether the
    /// version probe already found it: nothing when it is there, and the
    /// chosen manager's commands otherwise.
    pub fn run(self, aur_dir: Option<String>, already_installed: bool) -> (r: Result<
        Vec<Invocation>,
        Error,
    >)
        ensures
            already_installed ==> (r matches Ok(p) && p.deep_view() == Seq::<CmdModel>::empty()),
            !already_installed && self.cargo ==> (r matches Ok(p) && p.deep_view() == seq![
                cmd("cargo"@, seq!["install"@, self.name@], None::<Seq<char>>),
            ]),
            !already_installed && !self.cargo ==> (self.aur matches Some(url) ==> {
                &&& aur_dir is None ==> (r matches Err(e) && e.is_missing_config("aur_directory"@))
                &&& aur_dir matches Some(d) ==> (r matches Ok(p) && p.deep_view()
                    == Manager::aur_plan(self.name@, url@, d@))
            }),
            !already_installed && !self.cargo && self.aur is None ==> (r matches Ok(p)
                && p.deep_view() == seq![
                cmd("sudo"@, seq!["pacman"@, "--sync"@, self.name@], None::<Seq<char>>),
            ]),
    {
        if already_installed {
            let plan: Vec<Invocation> = Vec::new();
            proof {
                assert(plan.deep_view() =~= Seq::<CmdModel>::empty());
            }
            Ok(plan)
        } else if self.cargo {
            Manager::Cargo(self.name).install()
        } else if let Some(url) = self.aur {
            Manager::Aur { program: self.name, url, dir: aur_dir }.install()
        } else {
            Manager::Pacman(self.name).install()
        }
    }
}

} // verus!
