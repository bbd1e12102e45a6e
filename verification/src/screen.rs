use vstd::prelude::*;
use vstd::string::*;

use crate::error::Error;
use crate::plan::{cmd, no_args, push_arg, push_arg_string, push_invocation, CmdModel, Invocation};
use crate::text::{dec_str, lower_of, str_eq, to_lowercase, u64_to_string};

verus! {

/// Enables or disables the two configured monitors: the laptop's own and
/// the external one. With no flag both are enabled, the external monitor
/// to one side of the main one.
#[derive(Debug, Clone)]
pub struct Screen {
    pub main: bool,
    pub external: bool,
    /// The refresh rate flag. The arrangement itself takes each
    /// monitor's configured rate.
    pub rate: u8,
    pub direction: Direction,
}

/// A physical display as the configuration file describes it.
#[derive(Debug, Clone)]
pub struct Monitor {
    pub name: String,
    pub width: u16,
    pub height: u16,
    pub rate: u8,
}

impl Monitor {
    /// The mode word that xrandr takes: width, an `x`, height.
    pub open spec fn mode_chars(self) -> Seq<char> {
        dec_str(self.width as nat) + "x"@ + dec_str(self.height as nat)
    }

    pub fn mode_string(&self) -> (r: String)
        ensures
            r@ == self.mode_chars(),
    {
        let mut r = u64_to_string(self.width as u64);
        r.append("x");
        let h = u64_to_string(self.height as u64);
        r.append(h.as_str());
        r
    }

    /// The xrandr call that enables this monitor at its mode and rate.
    pub fn enable_invocation(&self) -> (r: Invocation)
        ensures
            r@ == cmd(
                "xrandr"@,
                seq![
                    "--output"@,
                    self.name@,
                    "--mode"@,
                    self.mode_chars(),
                    "--refresh"@,
                    dec_str(self.rate as nat),
                ],
                None::<Seq<char>>,
            ),
    {
        let mut args = no_args();
        push_arg(&mut args, "--output");
        push_arg_string(&mut args, self.name.clone());
        push_arg(&mut args, "--mode");
        push_arg_string(&mut args, self.mode_string());
        push_arg(&mut args, "--refresh");
        push_arg_string(&mut args, u64_to_string(self.rate as u64));
        proof {
            assert(args.deep_view() =~= seq![
                "--output"@,
                self.name@,
                "--mode"@,
                self.mode_chars(),
                "--refresh"@,
                dec_str(self.rate as nat),
            ]);
        }
        Invocation::new("xrandr", args, None)
    }

    /// The xrandr call that switches this monitor off.
    pub fn off_invocation(&self) -> (r: Invocation)
        ensures
            r@ == cmd("xrandr"@, seq!["--output"@, self.name@, "--off"@], None::<Seq<char>>),
    {
        let mut args = no_args();
        push_arg(&mut args, "--output");
        push_arg_string(&mut args, self.name.clone());
        push_arg(&mut args, "--off");
        proof {
            assert(args.deep_view() =~= seq!["--output"@, self.name@, "--off"@]);
        }
        Invocation::new("xrandr", args, None)
    }
}

/// The side of the main monitor on which the external one stands.
#[derive(Debug, Clone, Copy, PartialEq, Eq, Structural)]
pub enum Direction {
    Left,
    Right,
}

impl Direction {
    /// The word that names the direction on xrandr's command line.
    pub open spec fn chars(self) -> Seq<char> {
        match self {
            Direction::Left => "left"@,
            Direction::Right => "right"@,
        }
    }

    pub fn as_str(&self) -> (r: &'static str)
        ensures
            r@ == self.chars(),
    {
        match self {
            Direction::Left => "left",
            Direction::Right => "right",
        }
    }

    /// Reads a direction from a word that is already in lower case.
    pub fn from_folded(s: &str) -> (r: Result<Direction, Error>)
        ensures
            s@ == "left"@ ==> r == Ok::<Direction, Error>(Direction::Left),
            s@ == "right"@ ==> r == Ok::<Direction, Error>(Direction::Right),
            (s@ != "left"@ && s@ != "right"@) ==> (r matches Err(e) && e.is_parse_direction(s@)),
    {
        proof {
            reveal_strlit("left");
            reveal_strlit("right");
            assert("left"@.len() == 4);
            assert("right"@.len() == 5);
        }
        if str_eq(s, "left") {
            Ok(Direction::Left)
        } else if str_eq(s, "right") {
            Ok(Direction::Right)
        } else {
            Err(Error::ParseDirection { input: s.to_owned() })
        }
    }

    /// Reads a direction from a word in any case.
    pub fn from_str(s: &str) -> (r: Result<Direction, Error>)
        ensures
            lower_of(s@) == "left"@ ==> r == Ok::<Direction, Error>(Direction::Left),
            lower_of(s@) == "right"@ ==> r == Ok::<Direction, Error>(Direction::Right),
            (lower_of(s@) != "left"@ && lower_of(s@) != "right"@) ==> (r matches Err(e)
                && e.is_parse_direction(lower_of(s@))),
    {
        let folded = to_lowercase(s);
        Direction::from_folded(folded.as_str())
    }
}

impl Screen {
    /// The plan when only the main monitor stays on: enable it, switch the
    /// external one off.
    pub open spec fn main_only_plan(self, m: Monitor, x: Monitor) -> Seq<CmdModel> {
        seq![
            cmd(
                "xrandr"@,
                seq![
                    "--output"@,
                    m.name@,
                    "--mode"@,
                    m.mode_chars(),
                    "--refresh"@,
                    dec_str(m.rate as nat),
                ],
                None::<Seq<char>>,
            ),
            cmd("xrandr"@, seq!["--output"@, x.name@, "--off"@], None::<Seq<char>>),
        ]
    }

    /// The plan when both monitors stay on: enable the external one, then
    /// the main one beside it.
    pub open spec fn both_plan(self, m: Monitor, x: Monitor) -> Seq<CmdModel> {
        seq![
            cmd(
                "xrandr"@,
                seq![
                    "--output"@,
                    x.name@,
                    "--mode"@,
                    x.mode_chars(),
                    "--refresh"@,
                    dec_str(x.rate as nat),
                ],
                None::<Seq<char>>,
            ),
            cmd(
                "xrandr"@,
                seq![
                    "--output"@,
                    m.name@,
                    "--"@ + self.direction.chars() + "-of"@,
                    x.name@,
                    "--mode"@,
                    m.mode_chars(),
                    "--refresh"@,
                    dec_str(m.rate as nat),
                ],
                None::<Seq<char>>,
            ),
        ]
    }

    /// Lays out the xrandr calls for the chosen monitor arrangement, or
    /// reports the monitor that the configuration file does not describe.
    pub fn run(self, main_monitor: Option<Monitor>, external_monitor: Option<Monitor>) -> (r:
        Result<Vec<Invocation>, Error>)
        ensures
            main_monitor is None ==> (r matches Err(e) && e.is_missing_config("main_monitor"@)),
            main_monitor is Some && external_monitor is None ==> (r matches Err(e)
                && e.is_missing_config("external_monitor"@)),
            main_monitor matches Some(m) ==> (external_monitor matches Some(x) ==> (r matches Ok(
                plan,
            ) && plan.deep_view() == {
                if self.main {
                    self.main_only_plan(m, x)
                } else if self.external {
                    self.main_only_plan(x, m)
                } else {
                    self.both_plan(m, x)
                }
            })),
    {
        let main_monitor = match main_monitor {
            Some(monitor) => monitor,
            None => {
                return Err(Error::MissingConfig { key: String::from_str("main_monitor") });
            },
        };
        let external_monitor = match external_monitor {
            Some(monitor) => monitor,
            None => {
                return Err(Error::MissingConfig { key: String::from_str("external_monitor") });
            },
        };

        let mut plan: Vec<Invocation> = Vec::new();
        proof {
            assert(plan.deep_view() =~= Seq::<CmdModel>::empty());
        }
        if self.main {
            push_invocation(&mut plan, main_monitor.enable_invocation());
            push_invocation(&mut plan, external_monitor.off_invocation());
            proof {
                assert(plan.deep_view() =~= self.main_only_plan(main_monitor, external_monitor));
            }
        } else if self.external {
            push_invocation(&mut plan, external_monitor.enable_invocation());
            push_invocation(&mut plan, main_monitor.off_invocation());
            proof {
                assert(plan.deep_view() =~= self.main_only_plan(external_monitor, main_monitor));
            }
        } else {
            push_invocation(&mut plan, external_monitor.enable_invocation());

            let mut args = no_args();
            push_arg(&mut args, "--output");
            push_arg_string(&mut args, main_monitor.name.clone());
            let mut side = String::from_str("--");
            side.append(self.direction.as_str());
            side.append("-of");
            push_arg_string(&mut args, side);
            push_arg_string(&mut args, external_monitor.name.clone());
            push_arg(&mut args, "--mode");
            push_arg_string(&mut args, main_monitor.mode_string());
            push_arg(&mut args, "--refresh");
            push_arg_string(&mut args, u64_to_string(main_monitor.rate as u64));
            proof {
                assert(args.deep_view() =~= seq![
                    "--output"@,
                    main_monitor.name@,
                    "--"@ + self.direction.chars() + "-of"@,
                    external_monitor.name@,
                    "--mode"@,
                    main_monitor.mode_chars(),
                    "--refresh"@,
                    dec_str(main_monitor.rate as nat),
                ]);
            }
            push_invocation(&mut plan, Invocation::new("xrandr", args, None));
            proof {
                assert(plan.deep_view() =~= self.both_plan(main_monitor, external_monitor));
            }
        }
        Ok(plan)
    }
}

} // verus!
