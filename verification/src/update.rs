use vstd::prelude::*;
use vstd::string::*;

use crate::error::Error;
use crate::plan::{cmd, no_args, push_arg, push_invocation, CmdModel, Invocation};

verus! {

/// Updates the system: Arch Linux through pacman, every AUR build the
/// build directory holds, Rust through rustup, or the installed Rust
/// binaries. `all` launches all of them: the Arch and AUR parts, then
/// both Rust updates.
#[derive(Debug, Clone)]
pub struct Update {
    pub all: bool,
    pub arch: bool,
    pub aur: bool,
    pub rust: bool,
    pub rust_bin: bool,
}

/// What the update subcommand decides: the commands to run in order, and
/// the complaint that cut the list short, when there is one.
#[derive(Debug, Clone)]
pub struct UpdatePlan {
    pub invocations: Vec<Invocation>,
    pub failure: Option<Error>,
}

/// The pacman calls that bring Arch Linux up to date: upgrade, clean the
/// package cache, remove orphaned packages.
pub open spec fn arch_plan() -> Seq<CmdModel> {
    seq![
        cmd(
            "sudo"@,
            seq!["pacman"@, "--sync"@, "--refresh"@, "--sysupgrade"@, "--clean"@],
            None::<Seq<char>>,
        ),
        cmd("sudo"@, seq!["pacman"@, "--sync"@, "--clean"@], None::<Seq<char>>),
        cmd(
            "sudo"@,
            seq![
                "pacman"@,
                "--remove"@,
                "--nosave"@,
                "--recursive"@,
                "$(pacman --query --unrequired --deps --quiet)"@,
            ],
            None::<Seq<char>>,
        ),
    ]
}

/// The calls that refresh one AUR build directory: a git pull, then
/// makepkg in the same place.
pub open spec fn aur_entry_plan(path: Seq<char>) -> Seq<CmdModel> {
    seq![
        cmd("git"@, seq!["pull"@], Some(path)),
        cmd("makepkg"@, seq!["--syncdeps"@, "--install"@, "--clean"@], Some(path)),
    ]
}

/// The AUR refresh calls for every build directory, in order.
pub open spec fn aur_plan(entries: Seq<Seq<char>>) -> Seq<CmdModel>
    decreases entries.len(),
{
    if entries.len() == 0 {
        Seq::empty()
    } else {
        aur_plan(entries.drop_last()) + aur_entry_plan(entries.last())
    }
}

impl Update {
    /// The part of the plan that the `arch` flag (or `all`) adds.
    pub open spec fn arch_section(self) -> Seq<CmdModel> {
        if self.arch || self.all {
            arch_plan()
        } else {
            Seq::empty()
        }
    }

    /// The part of the plan that the remaining flags add: the AUR builds,
    /// or else rustup, or else the installed Rust binaries.
    pub open spec fn tail_section(self, aur_dir: Option<Seq<char>>, entries: Seq<Seq<char>>) -> Seq<
        CmdModel,
    > {
        if self.aur || self.all {
            if aur_dir is Some {
                aur_plan(entries)
            } else {
                Seq::empty()
            }
        } else if self.rust || self.all {
            seq![cmd("rustup"@, seq!["update"@], None::<Seq<char>>)]
        } else if self.rust_bin || self.all {
            seq![cmd("cargo"@, seq!["install-update"@, "--all"@], None::<Seq<char>>)]
        } else {
            Seq::empty()
        }
    }

    /// The part of the plan that only `all` adds, after the AUR refresh:
    /// the rustup update and the update of the installed Rust binaries.
    pub open spec fn all_section(self) -> Seq<CmdModel> {
        if self.all {
            seq![
                cmd("rustup"@, seq!["update"@], None::<Seq<char>>),
                cmd("cargo"@, seq!["install-update"@, "--all"@], None::<Seq<char>>),
            ]
        } else {
            Seq::empty()
        }
    }

    /// Whether the plan ends in a complaint: the AUR part was asked for
    /// but no build directory is configured.
    pub open spec fn aur_dir_missing(self, aur_dir: Option<Seq<char>>) -> bool {
        (self.aur || self.all) && aur_dir is None
    }

    /// Lays out the update commands. `aur_entries` holds the build
    /// directories found under the configured AUR directory, in order.
    /// A missing AUR directory cuts the plan short after the Arch part.
    pub fn run(self, aur_dir: Option<String>, aur_entries: Vec<String>) -> (r: UpdatePlan)
        ensures
            self.aur_dir_missing(aur_dir.deep_view()) ==> (r.invocations.deep_view()
                == self.arch_section() && (r.failure matches Some(e) && e.is_missing_config(
                "aur_directory"@,
            ))),
            !self.aur_dir_missing(aur_dir.deep_view()) ==> (r.invocations.deep_view()
                == self.arch_section() + self.tail_section(
                aur_dir.deep_view(),
                aur_entries.deep_view(),
            ) + self.all_section() && r.failure is None),
    {
        let ghost dir_view = aur_dir.deep_view();
        let ghost entries_view = aur_entries.deep_view();
        let mut plan: Vec<Invocation> = Vec::new();
        proof {
            assert(plan.deep_view() =~= Seq::<CmdModel>::empty());
        }

        if self.arch || self.all {
            let mut upgrade_args = no_args();
            push_arg(&mut upgrade_args, "pacman");
            push_arg(&mut upgrade_args, "--sync");
            push_arg(&mut upgrade_args, "--refresh");
            push_arg(&mut upgrade_args, "--sysupgrade");
            push_arg(&mut upgrade_args, "--clean");
            proof {
                assert(upgrade_args.deep_view() =~= seq![
                    "pacman"@,
                    "--sync"@,
                    "--refresh"@,
                    "--sysupgrade"@,
                    "--clean"@,
                ]);
            }
            push_invocation(&mut plan, Invocation::new("sudo", upgrade_args, None));

            let mut cache_args = no_args();
            push_arg(&mut cache_args, "pacman");
            push_arg(&mut cache_args, "--sync");
            push_arg(&mut cache_args, "--clean");
            proof {
                assert(cache_args.deep_view() =~= seq!["pacman"@, "--sync"@, "--clean"@]);
            }
            push_invocation(&mut plan, Invocation::new("sudo", cache_args, None));

            let mut orphan_args = no_args();
            push_arg(&mut orphan_args, "pacman");
            push_arg(&mut orphan_args, "--remove");
            push_arg(&mut orphan_args, "--nosave");
            push_arg(&mut orphan_args, "--recursive");
            push_arg(&mut orphan_args, "$(pacman --query --unrequired --deps --quiet)");
            proof {
                assert(orphan_args.deep_view() =~= seq![
                    "pacman"@,
                    "--remove"@,
                    "--nosave"@,
                    "--recursive"@,
                    "$(pacman --query --unrequired --deps --quiet)"@,
                ]);
            }
            push_invocation(&mut plan, Invocation::new("sudo", orphan_args, None));
        }
        proof {
            assert(plan.deep_view() =~= self.arch_section());
        }

        if self.aur || self.all {
            match aur_dir {
                Some(_) => {},
                None => {
                    return UpdatePlan {
                        invocations: plan,
                        failure: Some(
                            Error::MissingConfig { key: String::from_str("aur_directory") },
                        ),
                    };
                },
            }

            let mut i: usize = 0;
            while i < aur_entries.len()
                invariant
                    i <= aur_entries.len(),
                    entries_view == aur_entries.deep_view(),
                    plan.deep_view() == self.arch_section() + aur_plan(
                        entries_view.take(i as int),
                    ),
                decreases aur_entries.len() - i,
            {
                let path = aur_entries[i].clone();
                let ghost path_chars = path@;

                let mut pull_args = no_args();
                push_arg(&mut pull_args, "pull");
                proof {
                    assert(pull_args.deep_view() =~= seq!["pull"@]);
                }
                push_invocation(&mut plan, Invocation::new("git", pull_args, Some(path.clone())));

                let mut make_args = no_args();
                push_arg(&mut make_args, "--syncdeps");
                push_arg(&mut make_args, "--install");
                push_arg(&mut make_args, "--clean");
                proof {
                    assert(make_args.deep_view() =~= seq!["--syncdeps"@, "--install"@, "--clean"@]);
                }
                push_invocation(&mut plan, Invocation::new("makepkg", make_args, Some(path)));

                proof {
                    assert(entries_view.take(i + 1).drop_last() =~= entries_view.take(i as int));
                    assert(entries_view.take(i + 1).last() == path_chars);
                    assert(plan.deep_view() =~= self.arch_section() + aur_plan(
                        entries_view.take(i + 1),
                    ));
                }
                i = i + 1;
            }
            proof {
                assert(entries_view.take(aur_entries.len() as int) =~= entries_view);
                assert(plan.deep_view() =~= self.arch_section() + self.tail_section(
                    dir_view,
                    entries_view,
                ));
            }
        } else if self.rust {
            let mut args = no_args();
            push_arg(&mut args, "update");
            proof {
                assert(args.deep_view() =~= seq!["update"@]);
            }
            push_invocation(&mut plan, Invocation::new("rustup", args, None));
            proof {
                assert(plan.deep_view() =~= self.arch_section() + self.tail_section(
                    dir_view,
                    entries_view,
                ));
            }
        } else if self.rust_bin {
            let mut args = no_args();
            push_arg(&mut args, "install-update");
            push_arg(&mut args, "--all");
            proof {
                assert(args.deep_view() =~= seq!["install-update"@, "--all"@]);
            }
            push_invocation(&mut plan, Invocation::new("cargo", args, None));
            proof {
                assert(plan.deep_view() =~= self.arch_section() + self.tail_section(
                    dir_view,
                    entries_view,
                ));
            }
        } else {
            proof {
                assert(plan.deep_view() =~= self.arch_section() + self.tail_section(
                    dir_view,
                    entries_view,
                ));
            }
        }

        if self.all {
            let mut rustup_args = no_args();
            push_arg(&mut rustup_args, "update");
            proof {
                assert(rustup_args.deep_view() =~= seq!["update"@]);
            }
            push_invocation(&mut plan, Invocation::new("rustup", rustup_args, None));

            let mut bins_args = no_args();
            push_arg(&mut bins_args, "install-update");
            push_arg(&mut bins_args, "--all");
            proof {
                assert(bins_args.deep_view() =~= seq!["install-update"@, "--all"@]);
            }
            push_invocation(&mut plan, Invocation::new("cargo", bins_args, None));
        }
        proof {
            assert(plan.deep_view() =~= self.arch_section() + self.tail_section(
                dir_view,
                entries_view,
            ) + self.all_section());
        }

        UpdatePlan { invocations: plan, failure: None }
    }
}

} // verus!
