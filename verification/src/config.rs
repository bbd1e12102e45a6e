use vstd::prelude::*;
use vstd::string::*;

use crate::background::Position;
use crate::plan::{no_args, push_arg};
use crate::screen::Monitor;

verus! {

/// The defaults that the configuration file supplies: arguments for the
/// quality checks, names and paths for the other subcommands, and the
/// two monitors. Every field may be absent.
#[derive(Debug, Clone)]
pub struct Config {
    pub default_check_args: Vec<String>,
    pub default_test_args: Vec<String>,
    pub default_fmt_args: Vec<String>,
    pub default_clippy_args: Vec<String>,
    pub default_full_name: Option<String>,
    pub default_bg_file_path: Option<String>,
    pub default_bg_position: Option<Position>,
    pub aur_dir: Option<String>,
    pub temporary_project_path: Option<String>,
    pub default_editor: Option<String>,
    pub default_terminal: Option<String>,
    pub default_fonts: Vec<String>,
    pub default_fonts_size: Option<u32>,
    pub default_browser: Option<String>,
    pub default_home_symbol: Option<String>,
    pub default_net_device: Option<String>,
    pub main_monitor: Option<Monitor>,
    pub external_monitor: Option<Monitor>,
}

fn some_string(s: &str) -> (r: Option<String>)
    ensures
        r.deep_view() == Some(s@),
{
    Some(String::from_str(s))
}

impl Config {
    /// Holds when no field carries a value: what a fresh configuration
    /// file contains.
    pub open spec fn is_empty(self) -> bool {
        &&& self.default_check_args@.len() == 0
        &&& self.default_test_args@.len() == 0
        &&& self.default_fmt_args@.len() == 0
        &&& self.default_clippy_args@.len() == 0
        &&& self.default_full_name is None
        &&& self.default_bg_file_path is None
        &&& self.default_bg_position is None
        &&& self.aur_dir is None
        &&& self.temporary_project_path is None
        &&& self.default_editor is None
        &&& self.default_terminal is None
        &&& self.default_fonts@.len() == 0
        &&& self.default_fonts_size is None
        &&& self.default_browser is None
        &&& self.default_home_symbol is None
        &&& self.default_net_device is None
        &&& self.main_monitor is None
        &&& self.external_monitor is None
    }

    /// The configuration with nothing set.
    pub fn new() -> (r: Config)
        ensures
            r.is_empty(),
    {
        Config {
            default_check_args: Vec::new(),
            default_test_args: Vec::new(),
            default_fmt_args: Vec::new(),
            default_clippy_args: Vec::new(),
            default_full_name: None,
            default_bg_file_path: None,
            default_bg_position: None,
            aur_dir: None,
            temporary_project_path: None,
            default_editor: None,
            default_terminal: None,
            default_fonts: Vec::new(),
            default_fonts_size: None,
            default_browser: None,
            default_home_symbol: None,
            default_net_device: None,
            main_monitor: None,
            external_monitor: None,
        }
    }

    /// The author's own configuration: the values the dotfiles assume.
    pub fn dot() -> (r: Config)
        ensures
            r.default_check_args.deep_view() == seq!["--workspace"@, "--all-features"@],
            r.default_test_args.deep_view() == seq!["--workspace"@, "--all-features"@],
            r.default_fmt_args.deep_view() == seq!["--all"@, "--check"@],
            r.default_clippy_args.deep_view() == seq![
                "--all"@,
                "--all-features"@,
                "--tests"@,
                "--"@,
                "-D"@,
                "warnings"@,
            ],
            r.default_full_name.deep_view() == Some("Yohan Boogaert"@),
            r.default_bg_file_path.deep_view() == Some("/home/yozhgoor/Pictures/BG_1920_1080.png"@),
            r.default_bg_position == Some(Position::Fill),
            r.aur_dir.deep_view() == Some("/home/yozhgoor/.builds"@),
            r.temporary_project_path.deep_view() == Some("/home/yozhgoor/.cache/cargo-temp/"@),
            r.default_editor.deep_view() == Some("nvim"@),
            r.default_terminal.deep_view() == Some("alacritty"@),
            r.default_fonts.deep_view() == seq![
                "Hack Nerd Font"@,
                "DejaVu Sans Mono"@,
                "Font Awesome"@,
            ],
            r.default_fonts_size == Some(8u32),
            r.default_browser.deep_view() == Some("Firefox"@),
            r.default_home_symbol.deep_view() == Some("yoz"@),
            r.default_net_device.deep_view() == Some("wlp1s0"@),
            r.main_monitor matches Some(m) && m.name@ == "eDP-1"@ && m.width == 1920 && m.height
                == 1080 && m.rate == 60,
            r.external_monitor matches Some(m) && m.name@ == "HDMI-1"@ && m.width == 1920
                && m.height == 1080 && m.rate == 144,
    {
        let mut check_args = no_args();
        push_arg(&mut check_args, "--workspace");
        push_arg(&mut check_args, "--all-features");
        proof {
            assert(check_args.deep_view() =~= seq!["--workspace"@, "--all-features"@]);
        }

        let mut test_args = no_args();
        push_arg(&mut test_args, "--workspace");
        push_arg(&mut test_args, "--all-features");
        proof {
            assert(test_args.deep_view() =~= seq!["--workspace"@, "--all-features"@]);
        }

        let mut fmt_args = no_args();
        push_arg(&mut fmt_args, "--all");
        push_arg(&mut fmt_args, "--check");
        proof {
            assert(fmt_args.deep_view() =~= seq!["--all"@, "--check"@]);
        }

        let mut clippy_args = no_args();
        push_arg(&mut clippy_args, "--all");
        push_arg(&mut clippy_args, "--all-features");
        push_arg(&mut clippy_args, "--tests");
        push_arg(&mut clippy_args, "--");
        push_arg(&mut clippy_args, "-D");
        push_arg(&mut clippy_args, "warnings");
        proof {
            assert(clippy_args.deep_view() =~= seq![
                "--all"@,
                "--all-features"@,
                "--tests"@,
                "--"@,
                "-D"@,
                "warnings"@,
            ]);
        }

        let mut fonts = no_args();
        push_arg(&mut fonts, "Hack Nerd Font");
        push_arg(&mut fonts, "DejaVu Sans Mono");
        push_arg(&mut fonts, "Font Awesome");
        proof {
            assert(fonts.deep_view() =~= seq![
                "Hack Nerd Font"@,
                "DejaVu Sans Mono"@,
                "Font Awesome"@,
            ]);
        }

        Config {
            default_check_args: check_args,
            default_test_args: test_args,
            default_fmt_args: fmt_args,
            default_clippy_args: clippy_args,
            default_full_name: some_string("Yohan Boogaert"),
            default_bg_file_path: some_string("/home/yozhgoor/Pictures/BG_1920_1080.png"),
            default_bg_position: Some(Position::Fill),
            aur_dir: some_string("/home/yozhgoor/.builds"),
            temporary_project_path: some_string("/home/yozhgoor/.cache/cargo-temp/"),
            default_editor: some_string("nvim"),
            default_terminal: some_string("alacritty"),
            default_fonts: fonts,
            default_fonts_size: Some(8),
            default_browser: some_string("Firefox"),
            default_home_symbol: some_string("yoz"),
            default_net_device: some_string("wlp1s0"),
            main_monitor: Some(
                Monitor {
                    name: String::from_str("eDP-1"),
                    width: 1920,
                    height: 1080,
                    rate: 60,
                },
            ),
            external_monitor: Some(
                Monitor {
                    name: String::from_str("HDMI-1"),
                    width: 1920,
                    height: 1080,
                    rate: 144,
                },
            ),
        }
    }
}

impl Default for Config {
    /// The configuration with nothing set, as a fresh file starts.
    fn default() -> (r: Config)
        ensures
            r.is_empty(),
    {
        Config::new()
    }
}

} // verus!
