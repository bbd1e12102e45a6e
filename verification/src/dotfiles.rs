use vstd::prelude::*;
use vstd::string::*;

use crate::background::Position;
use crate::checks::chosen;
use crate::error::Error;
use crate::pick;
use crate::text::{dec_str, join_with, joined, u64_to_string};
use crate::value_or_default;
use crate::values_or_default;

verus! {

/// Regenerates the configuration files that the dotfiles repository
/// derives: cargo-temp, i3, i3status and starship, each rendered from the
/// flags or the configured defaults.
#[derive(Debug, Clone)]
pub struct Dotfiles {
    pub temporary_project_dir: Option<String>,
    pub editor: Option<String>,
    pub terminal: Option<String>,
    pub bg_position: Option<Position>,
    pub bg_file_path: Option<String>,
    pub fonts: Vec<String>,
    pub fonts_size: Option<u32>,
    pub bar_font_size: Option<u32>,
    pub browser: Option<String>,
    pub net_device: Option<String>,
    pub home_symbol: Option<String>,
}

/// What the dotfiles subcommand decides: the text of each configuration
/// file whose values could all be resolved, in rendering order, and the
/// complaint that stopped the rendering, when there is one. The files
/// before the failing key are still rendered, as they are still written.
#[derive(Debug, Clone)]
pub struct DotfilesPlan {
    pub cargo_temp: Option<String>,
    pub i3status: Option<String>,
    pub i3: Option<String>,
    pub starship: Option<String>,
    pub failure: Option<Error>,
}

/// The cargo-temp configuration: the project directory, the editor, and
/// the terminal asked to watch the build.
pub open spec fn cargo_temp_text(
    temporary_project_dir: Seq<char>,
    editor: Seq<char>,
    terminal: Seq<char>,
) -> Seq<char> {
    "temporary_project_dir = \""@ + temporary_project_dir + "\"\neditor = \""@ + editor
        + "\"\n\n[[subprocesses]]\ncommand = \""@ + (terminal
        + " --command cargo watch -x check"@) + "\"\n"@
}

/// The i3status configuration, watching the one network device.
pub open spec fn i3status_text(net_device: Seq<char>) -> Seq<char> {
    "[theme]\nname = \"solarized-dark\"\n\n[icons]\nname = \"awesome\"\n\n[[block]]\nblock = \"net\"\ndevice = \""@
        + net_device
        + "\"\n\n[[block]]\nblock = \"cpu\"\n\n[[block]]\nblock = \"memory\"\n\n[[block]]\nblock = \"battery\"\n\n[[block]]\nblock = \"time\"\n"@
}

/// The i3 configuration: fonts, the background command, the browser
/// binding, and the bar that runs i3status.
pub open spec fn i3_text(
    bg_position: Position,
    bg_file_path: Seq<char>,
    fonts: Seq<Seq<char>>,
    fonts_size: u32,
    browser: Seq<char>,
    bar_path: Seq<char>,
    bar_font_size: u32,
) -> Seq<char> {
    "set $mod Mod4\n\nfont pango:"@ + joined(fonts, ", "@) + " "@ + dec_str(fonts_size as nat)
        + "\n\nexec --no-startup-id feh --bg-"@ + bg_position.chars() + " "@ + bg_file_path
        + "\n\nbindsym $mod+Return exec alacritty\nbindsym $mod+b exec "@ + browser
        + "\nbindsym $mod+Shift+q kill\n\nbar {\n    position top\n    status_command i3status-rs "@
        + bar_path + "\n    font pango:"@ + joined(fonts, ", "@) + " "@ + dec_str(
        bar_font_size as nat,
    ) + "\n}\n"@
}

/// The starship configuration: the symbol that stands for home.
pub open spec fn starship_text(home_symbol: Seq<char>) -> Seq<char> {
    "[directory]\nhome_symbol = \""@ + home_symbol + "\"\n"@
}

/// Writes out the cargo-temp configuration. The terminal is given the
/// watch command to run inside the temporary project.
pub fn generate_cargo_temp(
    temporary_project_dir: String,
    editor: String,
    terminal: String,
) -> (r: String)
    ensures
        r@ == cargo_temp_text(temporary_project_dir@, editor@, terminal@),
{
    let mut subprocess_command = terminal;
    subprocess_command.append(" --command cargo watch -x check");

    let mut r = String::from_str("temporary_project_dir = \"");
    r.append(temporary_project_dir.as_str());
    r.append("\"\neditor = \"");
    r.append(editor.as_str());
    r.append("\"\n\n[[subprocesses]]\ncommand = \"");
    r.append(subprocess_command.as_str());
    r.append("\"\n");
    r
}

/// Writes out the i3status configuration.
pub fn generate_i3status(net_device: &str) -> (r: String)
    ensures
        r@ == i3status_text(net_device@),
{
    let mut r = String::from_str(
        "[theme]\nname = \"solarized-dark\"\n\n[icons]\nname = \"awesome\"\n\n[[block]]\nblock = \"net\"\ndevice = \"",
    );
    r.append(net_device);
    r.append(
        "\"\n\n[[block]]\nblock = \"cpu\"\n\n[[block]]\nblock = \"memory\"\n\n[[block]]\nblock = \"battery\"\n\n[[block]]\nblock = \"time\"\n",
    );
    r
}

/// Writes out the i3 configuration. At least one font must be given, as
/// the font line cannot stay empty.
pub fn generate_i3(
    bg_position: Position,
    bg_file_path: &str,
    fonts: &Vec<String>,
    fonts_size: u32,
    browser: &str,
    bar_path: &str,
    bar_font_size: u32,
) -> (r: String)
    requires
        fonts@.len() > 0,
    ensures
        r@ == i3_text(
            bg_position,
            bg_file_path@,
            fonts.deep_view(),
            fonts_size,
            browser@,
            bar_path@,
            bar_font_size,
        ),
{
    let font_list = join_with(fonts, ", ");
    let mut r = String::from_str("set $mod Mod4\n\nfont pango:");
    r.append(font_list.as_str());
    r.append(" ");
    let size = u64_to_string(fonts_size as u64);
    r.append(size.as_str());
    r.append("\n\nexec --no-startup-id feh --bg-");
    r.append(bg_position.as_str());
    r.append(" ");
    r.append(bg_file_path);
    r.append("\n\nbindsym $mod+Return exec alacritty\nbindsym $mod+b exec ");
    r.append(browser);
    r.append("\nbindsym $mod+Shift+q kill\n\nbar {\n    position top\n    status_command i3status-rs ");
    r.append(bar_path);
    r.append("\n    font pango:");
    r.append(font_list.as_str());
    r.append(" ");
    let bar_size = u64_to_string(bar_font_size as u64);
    r.append(bar_size.as_str());
    r.append("\n}\n");
    r
}

/// Writes out the starship configuration.
pub fn generate_starship(home_symbol: &str) -> (r: String)
    ensures
        r@ == starship_text(home_symbol@),
{
    let mut r = String::from_str("[directory]\nhome_symbol = \"");
    r.append(home_symbol);
    r.append("\"\n");
    r
}

impl Dotfiles {
    /// The first configuration key that neither a flag nor a default
    /// supplies, in the order the files are rendered.
    pub open spec fn missing_key(
        self,
        default_temporary_project_dir: Option<String>,
        default_editor: Option<String>,
        default_terminal: Option<String>,
        default_bg_position: Option<Position>,
        default_bg_file_path: Option<String>,
        default_fonts: Vec<String>,
        default_fonts_size: Option<u32>,
        default_bar_font_size: Option<u32>,
        default_browser: Option<String>,
        default_net_device: Option<String>,
        default_home_symbol: Option<String>,
    ) -> Option<Seq<char>> {
        if pick(self.temporary_project_dir, default_temporary_project_dir) is None {
            Some("temporary_project_dir"@)
        } else if pick(self.editor, default_editor) is None {
            Some("editor"@)
        } else if pick(self.terminal, default_terminal) is None {
            Some("terminal"@)
        } else if pick(self.net_device, default_net_device) is None {
            Some("net_device"@)
        } else if pick(self.bg_position, default_bg_position) is None {
            Some("bg_position"@)
        } else if pick(self.bg_file_path, default_bg_file_path) is None {
            Some("bg_file_path"@)
        } else if self.fonts@.len() == 0 && default_fonts@.len() == 0 {
            Some("fonts"@)
        } else if pick(self.fonts_size, default_fonts_size) is None {
            Some("fonts_size"@)
        } else if pick(self.browser, default_browser) is None {
            Some("browser"@)
        } else if pick(self.bar_font_size, default_bar_font_size) is None {
            Some("bar_font_size"@)
        } else if pick(self.home_symbol, default_home_symbol) is None {
            Some("home_symbol"@)
        } else {
            None
        }
    }

    /// Whether the cargo-temp file can be rendered: the first three keys
    /// resolve.
    pub open spec fn cargo_temp_ready(
        self,
        default_temporary_project_dir: Option<String>,
        default_editor: Option<String>,
        default_terminal: Option<String>,
    ) -> bool {
        &&& pick(self.temporary_project_dir, default_temporary_project_dir) is Some
        &&& pick(self.editor, default_editor) is Some
        &&& pick(self.terminal, default_terminal) is Some
    }

    /// Whether the i3status file can be rendered: the cargo-temp keys and
    /// the network device resolve.
    pub open spec fn i3status_ready(
        self,
        default_temporary_project_dir: Option<String>,
        default_editor: Option<String>,
        default_terminal: Option<String>,
        default_net_device: Option<String>,
    ) -> bool {
        &&& self.cargo_temp_ready(
            default_temporary_project_dir,
            default_editor,
            default_terminal,
        )
        &&& pick(self.net_device, default_net_device) is Some
    }

    /// Whether the i3 file can be rendered: everything up to and
    /// including the bar font size resolves.
    pub open spec fn i3_ready(
        self,
        default_temporary_project_dir: Option<String>,
        default_editor: Option<String>,
        default_terminal: Option<String>,
        default_net_device: Option<String>,
        default_bg_position: Option<Position>,
        default_bg_file_path: Option<String>,
        default_fonts: Vec<String>,
        default_fonts_size: Option<u32>,
        default_browser: Option<String>,
        default_bar_font_size: Option<u32>,
    ) -> bool {
        &&& self.i3status_ready(
            default_temporary_project_dir,
            default_editor,
            default_terminal,
            default_net_device,
        )
        &&& pick(self.bg_position, default_bg_position) is Some
        &&& pick(self.bg_file_path, default_bg_file_path) is Some
        &&& (self.fonts@.len() > 0 || default_fonts@.len() > 0)
        &&& pick(self.fonts_size, default_fonts_size) is Some
        &&& pick(self.browser, default_browser) is Some
        &&& pick(self.bar_font_size, default_bar_font_size) is Some
    }

    /// Renders the configuration files from the flags and defaults, in
    /// order, stopping at the first missing key: the files before it are
    /// still rendered, and the complaint is carried in the plan.
    /// `bar_path` names the i3status configuration file that the i3 bar
    /// will read.
    pub fn run(
        self,
        default_temporary_project_dir: Option<String>,
        default_editor: Option<String>,
        default_terminal: Option<String>,
        default_bg_position: Option<Position>,
        default_bg_file_path: Option<String>,
        default_fonts: Vec<String>,
        default_fonts_size: Option<u32>,
        default_bar_font_size: Option<u32>,
        default_browser: Option<String>,
        default_net_device: Option<String>,
        default_home_symbol: Option<String>,
        bar_path: String,
    ) -> (r: DotfilesPlan)
        ensures
            self.missing_key(
                default_temporary_project_dir,
                default_editor,
                default_terminal,
                default_bg_position,
                default_bg_file_path,
                default_fonts,
                default_fonts_size,
                default_bar_font_size,
                default_browser,
                default_net_device,
                default_home_symbol,
            ) matches Some(key) ==> (r.failure matches Some(e) && e.is_missing_config(key)),
            self.missing_key(
                default_temporary_project_dir,
                default_editor,
                default_terminal,
                default_bg_position,
                default_bg_file_path,
                default_fonts,
                default_fonts_size,
                default_bar_font_size,
                default_browser,
                default_net_device,
                default_home_symbol,
            ) is None ==> r.failure is None,
            self.cargo_temp_ready(
                default_temporary_project_dir,
                default_editor,
                default_terminal,
            ) ==> (r.cargo_temp matches Some(t) && pick(
                self.temporary_project_dir,
                default_temporary_project_dir,
            ) matches Some(tpd) && pick(self.editor, default_editor) matches Some(ed) && pick(
                self.terminal,
                default_terminal,
            ) matches Some(term) && t@ == cargo_temp_text(tpd@, ed@, term@)),
            !self.cargo_temp_ready(
                default_temporary_project_dir,
                default_editor,
                default_terminal,
            ) ==> r.cargo_temp is None,
            self.i3status_ready(
                default_temporary_project_dir,
                default_editor,
                default_terminal,
                default_net_device,
            ) ==> (r.i3status matches Some(t) && pick(
                self.net_device,
                default_net_device,
            ) matches Some(net) && t@ == i3status_text(net@)),
            !self.i3status_ready(
                default_temporary_project_dir,
                default_editor,
                default_terminal,
                default_net_device,
            ) ==> r.i3status is None,
            self.i3_ready(
                default_temporary_project_dir,
                default_editor,
                default_terminal,
                default_net_device,
                default_bg_position,
                default_bg_file_path,
                default_fonts,
                default_fonts_size,
                default_browser,
                default_bar_font_size,
            ) ==> (r.i3 matches Some(t) && pick(
                self.bg_position,
                default_bg_position,
            ) matches Some(pos) && pick(self.bg_file_path, default_bg_file_path) matches Some(file)
                && pick(self.fonts_size, default_fonts_size) matches Some(size) && pick(
                self.browser,
                default_browser,
            ) matches Some(browser) && pick(self.bar_font_size, default_bar_font_size) matches Some(
                bar_size,
            ) && t@ == i3_text(
                pos,
                file@,
                chosen(self.fonts.deep_view(), default_fonts.deep_view()),
                size,
                browser@,
                bar_path@,
                bar_size,
            )),
            !self.i3_ready(
                default_temporary_project_dir,
                default_editor,
                default_terminal,
                default_net_device,
                default_bg_position,
                default_bg_file_path,
                default_fonts,
                default_fonts_size,
                default_browser,
                default_bar_font_size,
            ) ==> r.i3 is None,
            self.missing_key(
                default_temporary_project_dir,
                default_editor,
                default_terminal,
                default_bg_position,
                default_bg_file_path,
                default_fonts,
                default_fonts_size,
                default_bar_font_size,
                default_browser,
                default_net_device,
                default_home_symbol,
            ) is None ==> (r.starship matches Some(t) && pick(
                self.home_symbol,
                default_home_symbol,
            ) matches Some(home) && t@ == starship_text(home@)),
            self.missing_key(
                default_temporary_project_dir,
                default_editor,
                default_terminal,
                default_bg_position,
                default_bg_file_path,
                default_fonts,
                default_fonts_size,
                default_bar_font_size,
                default_browser,
                default_net_device,
                default_home_symbol,
            ) is Some ==> r.starship is None,
    {
        let temporary_project_dir = match value_or_default(
            self.temporary_project_dir,
            default_temporary_project_dir,
            "temporary_project_dir",
        ) {
            Ok(v) => v,
            Err(e) => {
                return DotfilesPlan {
                    cargo_temp: None,
                    i3status: None,
                    i3: None,
                    starship: None,
                    failure: Some(e),
                };
            },
        };
        let editor = match value_or_default(self.editor, default_editor, "editor") {
            Ok(v) => v,
            Err(e) => {
                return DotfilesPlan {
                    cargo_temp: None,
                    i3status: None,
                    i3: None,
                    starship: None,
                    failure: Some(e),
                };
            },
        };
        let terminal = match value_or_default(self.terminal, default_terminal, "terminal") {
            Ok(v) => v,
            Err(e) => {
                return DotfilesPlan {
                    cargo_temp: None,
                    i3status: None,
                    i3: None,
                    starship: None,
                    failure: Some(e),
                };
            },
        };
        let cargo_temp = generate_cargo_temp(temporary_project_dir, editor, terminal);

        let net_device = match value_or_default(self.net_device, default_net_device, "net_device") {
            Ok(v) => v,
            Err(e) => {
                return DotfilesPlan {
                    cargo_temp: Some(cargo_temp),
                    i3status: None,
                    i3: None,
                    starship: None,
                    failure: Some(e),
                };
            },
        };
        let i3status = generate_i3status(net_device.as_str());

        let bg_position = match value_or_default(
            self.bg_position,
            default_bg_position,
            "bg_position",
        ) {
            Ok(v) => v,
            Err(e) => {
                return DotfilesPlan {
                    cargo_temp: Some(cargo_temp),
                    i3status: Some(i3status),
                    i3: None,
                    starship: None,
                    failure: Some(e),
                };
            },
        };
        let bg_file_path = match value_or_default(
            self.bg_file_path,
            default_bg_file_path,
            "bg_file_path",
        ) {
            Ok(v) => v,
            Err(e) => {
                return DotfilesPlan {
                    cargo_temp: Some(cargo_temp),
                    i3status: Some(i3status),
                    i3: None,
                    starship: None,
                    failure: Some(e),
                };
            },
        };
        let fonts = match values_or_default(self.fonts, default_fonts, "fonts") {
            Ok(v) => v,
            Err(e) => {
                return DotfilesPlan {
                    cargo_temp: Some(cargo_temp),
                    i3status: Some(i3status),
                    i3: None,
                    starship: None,
                    failure: Some(e),
                };
            },
        };
        let fonts_size = match value_or_default(self.fonts_size, default_fonts_size, "fonts_size") {
            Ok(v) => v,
            Err(e) => {
                return DotfilesPlan {
                    cargo_temp: Some(cargo_temp),
                    i3status: Some(i3status),
                    i3: None,
                    starship: None,
                    failure: Some(e),
                };
            },
        };
        let browser = match value_or_default(self.browser, default_browser, "browser") {
            Ok(v) => v,
            Err(e) => {
                return DotfilesPlan {
                    cargo_temp: Some(cargo_temp),
                    i3status: Some(i3status),
                    i3: None,
                    starship: None,
                    failure: Some(e),
                };
            },
        };
        let bar_font_size = match value_or_default(
            self.bar_font_size,
            default_bar_font_size,
            "bar_font_size",
        ) {
            Ok(v) => v,
            Err(e) => {
                return DotfilesPlan {
                    cargo_temp: Some(cargo_temp),
                    i3status: Some(i3status),
                    i3: None,
                    starship: None,
                    failure: Some(e),
                };
            },
        };
        let i3 = generate_i3(
            bg_position,
            bg_file_path.as_str(),
            &fonts,
            fonts_size,
            browser.as_str(),
            bar_path.as_str(),
            bar_font_size,
        );

        let home_symbol = match value_or_default(
            self.home_symbol,
            default_home_symbol,
            "home_symbol",
        ) {
            Ok(v) => v,
            Err(e) => {
                return DotfilesPlan {
                    cargo_temp: Some(cargo_temp),
                    i3status: Some(i3status),
                    i3: Some(i3),
                    starship: None,
                    failure: Some(e),
                };
            },
        };
        let starship = generate_starship(home_symbol.as_str());

        DotfilesPlan {
            cargo_temp: Some(cargo_temp),
            i3status: Some(i3status),
            i3: Some(i3),
            starship: Some(starship),
            failure: None,
        }
    }
}

} // verus!
