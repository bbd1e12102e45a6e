use vstd::prelude::*;
use vstd::string::*;

use crate::error::Error;
use crate::license::{add_licenses, current_year, license_files, licensee};
use crate::pick;
use crate::plan::{
    cmd, file_at, no_args, push_action, push_arg, push_arg_string, Action, ActionModel, CmdModel,
    Invocation, OutFile,
};
use crate::text::path_join;
use crate::value_or_default;
use crate::workflow::{add_bin_ci, add_lib_ci, bin_ci_actions, lib_ci_actions};

verus! {

/// Creates a new Rust project: the directory, a cargo package or
/// workspace, the licenses, the CI files, and the xtask package when one
/// is asked for.
#[derive(Debug, Clone)]
pub struct New {
    pub name: String,
    /// Where to create the project; the caller resolves it into the
    /// working directory handed to `run`.
    pub path: Option<String>,
    pub full_name: Option<String>,
    pub lib: bool,
    pub xtask: bool,
    pub no_license: bool,
    pub no_ci: bool,
    pub no_windows: bool,
    pub no_osx: bool,
}

/// What the new-project subcommand decides: the steps to carry out in
/// order, and the complaint that cut them short, when there is one.
#[derive(Debug, Clone)]
pub struct NewPlan {
    pub actions: Vec<Action>,
    pub failure: Option<Error>,
}

/// The workspace manifest of an xtask project: the project's package and
/// the xtask package as members.
pub open spec fn xtask_workspace_text(project_name: Seq<char>) -> Seq<char> {
    "[workspace]\nmembers = [\n    \""@ + project_name + "\",\n    \"xtask\",\n]\n"@
}

/// Writes out the workspace manifest of an xtask project.
pub fn render_xtask_workspace(project_name: &str) -> (r: String)
    ensures
        r@ == xtask_workspace_text(project_name@),
{
    let mut r = String::from_str("[workspace]\nmembers = [\n    \"");
    r.append(project_name);
    r.append("\",\n    \"xtask\",\n]\n");
    r
}

impl New {
    /// Where the project lives: the working directory plus its name.
    pub open spec fn project_dir(self, working_dir: Seq<char>) -> Seq<char> {
        working_dir + "/"@ + self.name@
    }

    /// The cargo call that sets the project up: `new` inside an xtask
    /// workspace, `init` otherwise, with `--lib` for a library.
    pub open spec fn setup_model(self, project_dir: Seq<char>) -> CmdModel {
        if self.lib && self.xtask {
            cmd("cargo"@, seq!["new"@, self.name@, "--lib"@], Some(project_dir))
        } else if !self.lib && self.xtask {
            cmd("cargo"@, seq!["new"@, self.name@], Some(project_dir))
        } else if self.lib && !self.xtask {
            cmd("cargo"@, seq!["init"@, "--lib"@], Some(project_dir))
        } else {
            cmd("cargo"@, seq!["init"@], Some(project_dir))
        }
    }

    /// The steps every new project begins with: its directory, then the
    /// cargo call that sets it up.
    pub open spec fn base_actions(self, working_dir: Seq<char>) -> Seq<ActionModel> {
        seq![
            ActionModel::CreateDir { path: self.project_dir(working_dir) },
            ActionModel::Run { invocation: self.setup_model(self.project_dir(working_dir)) },
        ]
    }

    /// The license files, unless they were declined.
    pub open spec fn license_section(
        self,
        working_dir: Seq<char>,
        name: Seq<char>,
        year: int,
    ) -> Seq<ActionModel> {
        if self.no_license {
            Seq::empty()
        } else {
            seq![
                ActionModel::WriteFile {
                    file: license_files(self.project_dir(working_dir), year, name)[0],
                },
                ActionModel::WriteFile {
                    file: license_files(self.project_dir(working_dir), year, name)[1],
                },
            ]
        }
    }

    /// The CI files, unless they were declined: a library's two
    /// workflows, or a binary's three.
    pub open spec fn ci_section(self, working_dir: Seq<char>) -> Seq<ActionModel> {
        if self.no_ci {
            Seq::empty()
        } else if self.lib {
            lib_ci_actions(self.project_dir(working_dir), self.no_windows, self.no_osx)
        } else {
            bin_ci_actions(self.project_dir(working_dir), self.name@, self.no_windows, self.no_osx)
        }
    }

    /// The xtask package and the workspace files around it, when asked
    /// for.
    pub open spec fn xtask_section(self, working_dir: Seq<char>) -> Seq<ActionModel> {
        if !self.xtask {
            Seq::empty()
        } else {
            seq![
                ActionModel::Run {
                    invocation: cmd(
                        "cargo"@,
                        seq!["new"@, "xtask"@],
                        Some(self.project_dir(working_dir)),
                    ),
                },
                ActionModel::CreateDir { path: self.project_dir(working_dir) + "/.cargo"@ },
                ActionModel::WriteFile {
                    file: file_at(
                        self.project_dir(working_dir) + "/.cargo"@ + "/config"@,
                        "[alias]\nxtask = \"run --package xtask --\""@,
                    ),
                },
                ActionModel::WriteFile {
                    file: file_at(
                        self.project_dir(working_dir) + "/Cargo.toml"@,
                        xtask_workspace_text(self.name@),
                    ),
                },
            ]
        }
    }

    /// Every step of the plan, in order.
    pub open spec fn planned(
        self,
        working_dir: Seq<char>,
        name: Seq<char>,
        year: int,
    ) -> Seq<ActionModel> {
        self.base_actions(working_dir) + self.license_section(working_dir, name, year)
            + self.ci_section(working_dir) + self.xtask_section(working_dir)
    }

    /// Whether the plan stops at the licenses: they are wanted, but no
    /// full name is given or configured.
    pub open spec fn name_missing(self, default_full_name: Option<String>) -> bool {
        !self.no_license && pick(self.full_name, default_full_name) is None
    }

    /// Lays out the steps that create the project under `working_dir`.
    /// When the licenses are wanted but no full name can be found, the
    /// plan stops after the cargo call and carries the complaint.
    pub fn run(self, default_full_name: Option<String>, working_dir: String) -> (r: NewPlan)
        ensures
            self.name_missing(default_full_name) ==> (r.failure matches Some(e)
                && e.is_missing_config("full_name"@) && r.actions.deep_view()
                == self.base_actions(working_dir@)),
            !self.name_missing(default_full_name) ==> (r.failure is None && (exists|year: int|
                r.actions.deep_view() == self.planned(
                    working_dir@,
                    licensee(pick(self.full_name, default_full_name).deep_view()),
                    year,
                ))),
    {
        let ghost wd = working_dir@;
        let ghost default_name_view = pick(self.full_name, default_full_name).deep_view();
        let project_dir = path_join(working_dir.as_str(), self.name.as_str());

        let mut actions: Vec<Action> = Vec::new();
        proof {
            assert(actions.deep_view() =~= Seq::<ActionModel>::empty());
        }
        push_action(&mut actions, Action::CreateDir { path: project_dir.clone() });

        let mut setup_args = no_args();
        if self.lib && self.xtask {
            push_arg(&mut setup_args, "new");
            push_arg_string(&mut setup_args, self.name.clone());
            push_arg(&mut setup_args, "--lib");
            proof {
                assert(setup_args.deep_view() =~= seq!["new"@, self.name@, "--lib"@]);
            }
        } else if !self.lib && self.xtask {
            push_arg(&mut setup_args, "new");
            push_arg_string(&mut setup_args, self.name.clone());
            proof {
                assert(setup_args.deep_view() =~= seq!["new"@, self.name@]);
            }
        } else if self.lib && !self.xtask {
            push_arg(&mut setup_args, "init");
            push_arg(&mut setup_args, "--lib");
            proof {
                assert(setup_args.deep_view() =~= seq!["init"@, "--lib"@]);
            }
        } else {
            push_arg(&mut setup_args, "init");
            proof {
                assert(setup_args.deep_view() =~= seq!["init"@]);
            }
        }
        push_action(
            &mut actions,
            Action::Run { invocation: Invocation::new("cargo", setup_args, Some(project_dir.clone())) },
        );
        proof {
            assert(actions.deep_view() =~= self.base_actions(wd));
        }

        let ghost mut year_picked: int = 0;
        if !self.no_license {
            let full_name = match value_or_default(self.full_name, default_full_name, "full_name") {
                Ok(v) => v,
                Err(e) => {
                    return NewPlan { actions, failure: Some(e) };
                },
            };
            let year = current_year();
            proof {
                year_picked = year as int;
            }
            let mut files = add_licenses(project_dir.as_str(), year, Some(full_name));
            proof {
                assert(files.deep_view().len() == 2);
                assert(files@.len() == 2);
            }
            let mit = files.remove(0);
            let apache = files.remove(0);
            push_action(&mut actions, Action::WriteFile { file: mit });
            push_action(&mut actions, Action::WriteFile { file: apache });
            proof {
                assert(actions.deep_view() =~= self.base_actions(wd) + self.license_section(
                    wd,
                    licensee(default_name_view),
                    year_picked,
                ));
            }
        } else {
            proof {
                assert(actions.deep_view() =~= self.base_actions(wd) + self.license_section(
                    wd,
                    licensee(default_name_view),
                    year_picked,
                ));
            }
        }
        let ghost with_licenses = actions.deep_view();

        if !self.no_ci {
            let mut ci_actions = if self.lib {
                add_lib_ci(project_dir.as_str(), self.no_windows, self.no_osx)
            } else {
                add_bin_ci(
                    project_dir.as_str(),
                    self.name.as_str(),
                    self.no_windows,
                    self.no_osx,
                )
            };
            let ghost ci_view = ci_actions.deep_view();
            actions.append(&mut ci_actions);
            proof {
                assert(actions.deep_view() =~= with_licenses + ci_view);
                assert(actions.deep_view() =~= with_licenses + self.ci_section(wd));
            }
        } else {
            proof {
                assert(actions.deep_view() =~= with_licenses + self.ci_section(wd));
            }
        }
        let ghost with_ci = actions.deep_view();

        if self.xtask {
            let mut xtask_args = no_args();
            push_arg(&mut xtask_args, "new");
            push_arg(&mut xtask_args, "xtask");
            proof {
                assert(xtask_args.deep_view() =~= seq!["new"@, "xtask"@]);
            }
            push_action(
                &mut actions,
                Action::Run {
                    invocation: Invocation::new("cargo", xtask_args, Some(project_dir.clone())),
                },
            );

            let mut cargo_dir = project_dir.clone();
            cargo_dir.append("/.cargo");
            push_action(&mut actions, Action::CreateDir { path: cargo_dir.clone() });

            let mut config_path = cargo_dir;
            config_path.append("/config");
            push_action(
                &mut actions,
                Action::WriteFile {
                    file: OutFile::new(
                        config_path,
                        String::from_str("[alias]\nxtask = \"run --package xtask --\""),
                    ),
                },
            );

            let mut manifest_path = project_dir;
            manifest_path.append("/Cargo.toml");
            push_action(
                &mut actions,
                Action::WriteFile {
                    file: OutFile::new(manifest_path, render_xtask_workspace(self.name.as_str())),
                },
            );
            proof {
                assert(actions.deep_view() =~= with_ci + self.xtask_section(wd));
            }
        } else {
            proof {
                assert(actions.deep_view() =~= with_ci + self.xtask_section(wd));
            }
        }

        proof {
            assert(actions.deep_view() =~= self.planned(
                wd,
                licensee(default_name_view),
                year_picked,
            ));
        }
        NewPlan { actions, failure: None }
    }
}

} // verus!
