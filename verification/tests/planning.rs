use yoz::background::{Background, Position};
use yoz::checks::{clean_invocation, failed_commands, CheckKind, Checks, ChecksCommand};
use yoz::install::{Install, Manager};
use yoz::launch::Launch;
use yoz::plan::Invocation;
use yoz::screen::{Direction, Monitor, Screen};
use yoz::shot::Shot;
use yoz::update::Update;

fn strings(words: &[&str]) -> Vec<String> {
    words.iter().map(|w| w.to_string()).collect()
}

fn args_of(inv: &Invocation) -> Vec<String> {
    inv.args.clone()
}

#[test]
fn background_uses_flag_over_default() {
    let command = Background {
        file_path: Some("/tmp/flag.png".to_string()),
        position: None,
    };
    let inv = command
        .run(Some("/tmp/default.png".to_string()), Some(Position::Fill))
        .unwrap();
    assert_eq!(inv.program, "feh");
    assert_eq!(args_of(&inv), strings(&["--no-fehbg", "--bg-fill", "/tmp/flag.png"]));
    assert!(inv.working_dir.is_none());
}

#[test]
fn background_reports_missing_file() {
    let command = Background { file_path: None, position: Some(Position::Center) };
    let err = command.run(None, None).unwrap_err();
    assert_eq!(err.message(), "Please configure `bg_file_path` in your config file");
}

#[test]
fn background_reports_missing_position() {
    let command = Background { file_path: Some("/img.png".to_string()), position: None };
    let err = command.run(None, None).unwrap_err();
    assert_eq!(err.message(), "Please configure `bg_position` in your config file");
}

#[test]
fn position_parses_any_case() {
    assert!(matches!(Position::from_str("CENTER"), Ok(Position::Center)));
    assert!(matches!(Position::from_str("Fill"), Ok(Position::Fill)));
    assert!(matches!(Position::from_str("max"), Ok(Position::Max)));
    assert!(matches!(Position::from_str("Scale"), Ok(Position::Scale)));
    assert!(matches!(Position::from_str("tile"), Ok(Position::Tile)));
}

#[test]
fn position_rejects_other_words() {
    let err = Position::from_str("Sideways").unwrap_err();
    assert_eq!(err.message(), "Cannot parse position from sideways");
}

#[test]
fn direction_parses_and_writes() {
    assert!(matches!(Direction::from_str("LeFt"), Ok(Direction::Left)));
    assert!(matches!(Direction::from_str("right"), Ok(Direction::Right)));
    assert_eq!(Direction::Left.as_str(), "left");
    assert_eq!(Direction::Right.as_str(), "right");
    let err = Direction::from_str("Up").unwrap_err();
    assert_eq!(err.message(), "Cannot parse direction from up");
}

fn monitors() -> (Monitor, Monitor) {
    (
        Monitor { name: "eDP-1".to_string(), width: 1920, height: 1080, rate: 60 },
        Monitor { name: "HDMI-1".to_string(), width: 2560, height: 1440, rate: 144 },
    )
}

#[test]
fn screen_main_only() {
    let (main, external) = monitors();
    let screen = Screen { main: true, external: false, rate: 60, direction: Direction::Right };
    let plan = screen.run(Some(main), Some(external)).unwrap();
    assert_eq!(plan.len(), 2);
    assert_eq!(plan[0].program, "xrandr");
    assert_eq!(
        args_of(&plan[0]),
        strings(&["--output", "eDP-1", "--mode", "1920x1080", "--refresh", "60"])
    );
    assert_eq!(args_of(&plan[1]), strings(&["--output", "HDMI-1", "--off"]));
}

#[test]
fn screen_external_only() {
    let (main, external) = monitors();
    let screen = Screen { main: false, external: true, rate: 60, direction: Direction::Right };
    let plan = screen.run(Some(main), Some(external)).unwrap();
    assert_eq!(
        args_of(&plan[0]),
        strings(&["--output", "HDMI-1", "--mode", "2560x1440", "--refresh", "144"])
    );
    assert_eq!(args_of(&plan[1]), strings(&["--output", "eDP-1", "--off"]));
}

#[test]
fn screen_both_places_main_beside_external() {
    let (main, external) = monitors();
    let screen = Screen { main: false, external: false, rate: 60, direction: Direction::Left };
    let plan = screen.run(Some(main), Some(external)).unwrap();
    assert_eq!(plan.len(), 2);
    assert_eq!(
        args_of(&plan[1]),
        strings(&[
            "--output", "eDP-1", "--left-of", "HDMI-1", "--mode", "1920x1080", "--refresh", "60",
        ])
    );
}

#[test]
fn screen_reports_missing_monitors() {
    let (main, _) = monitors();
    let screen = Screen { main: true, external: false, rate: 60, direction: Direction::Right };
    let err = screen.clone().run(None, None).unwrap_err();
    assert_eq!(err.message(), "Please configure `main_monitor` in your config file");
    let err = screen.run(Some(main), None).unwrap_err();
    assert_eq!(err.message(), "Please configure `external_monitor` in your config file");
}

#[test]
fn shot_shows_text_with_bat() {
    let shot = Shot { text: Some("/notes.txt".to_string()), screen: None, desktop: None };
    let inv = shot.run();
    assert_eq!(inv.program, "bat");
    assert_eq!(args_of(&inv), strings(&["/notes.txt", "--style", "plain"]));
}

#[test]
fn shot_captures_screen_and_desktop() {
    let screen_shot = Shot { text: None, screen: Some(true), desktop: None };
    let inv = screen_shot.run();
    assert_eq!(inv.program, "flameshot");
    assert_eq!(args_of(&inv), strings(&["screen", "--clipboard"]));

    let desktop_shot = Shot { text: None, screen: None, desktop: Some(false) };
    let inv = desktop_shot.run();
    assert_eq!(args_of(&inv), strings(&["full"]));
}

#[test]
fn shot_defaults_to_gui() {
    let shot = Shot { text: None, screen: None, desktop: None };
    let inv = shot.run();
    assert_eq!(inv.program, "flameshot");
    assert_eq!(args_of(&inv), strings(&["gui"]));
}

#[test]
fn install_skips_installed_program() {
    let install = Install { name: "rg".to_string(), cargo: false, aur: None };
    let plan = install.run(None, true).unwrap();
    assert!(plan.is_empty());
}

#[test]
fn install_via_cargo() {
    let install = Install { name: "cargo-temp".to_string(), cargo: true, aur: None };
    let plan = install.run(None, false).unwrap();
    assert_eq!(plan.len(), 1);
    assert_eq!(plan[0].program, "cargo");
    assert_eq!(args_of(&plan[0]), strings(&["install", "cargo-temp"]));
}

#[test]
fn install_via_aur_clones_then_builds() {
    let install = Install {
        name: "paru".to_string(),
        cargo: false,
        aur: Some("https://aur.archlinux.org/paru.git".to_string()),
    };
    let plan = install.run(Some("/home/me/.builds".to_string()), false).unwrap();
    assert_eq!(plan.len(), 2);
    assert_eq!(plan[0].program, "git");
    assert_eq!(args_of(&plan[0]), strings(&["clone", "https://aur.archlinux.org/paru.git"]));
    assert_eq!(plan[0].working_dir.as_deref(), Some("/home/me/.builds"));
    assert_eq!(plan[1].program, "makepkg");
    assert_eq!(args_of(&plan[1]), strings(&["--syncdeps", "--install", "--clean"]));
    assert_eq!(plan[1].working_dir.as_deref(), Some("/home/me/.builds/paru"));
}

#[test]
fn install_via_aur_needs_directory() {
    let install = Install {
        name: "paru".to_string(),
        cargo: false,
        aur: Some("https://example.org/paru.git".to_string()),
    };
    let err = install.run(None, false).unwrap_err();
    assert_eq!(err.message(), "Please configure `aur_directory` in your config file");
}

#[test]
fn install_defaults_to_pacman() {
    let install = Install { name: "ripgrep".to_string(), cargo: false, aur: None };
    let plan = install.run(None, false).unwrap();
    assert_eq!(plan.len(), 1);
    assert_eq!(plan[0].program, "sudo");
    assert_eq!(args_of(&plan[0]), strings(&["pacman", "--sync", "ripgrep"]));
}

#[test]
fn install_probe_asks_for_version() {
    let install = Install { name: "ripgrep".to_string(), cargo: false, aur: None };
    let probe = install.version_probe();
    assert_eq!(probe.program, "ripgrep");
    assert_eq!(args_of(&probe), strings(&["--version"]));
}

#[test]
fn manager_pacman_plan() {
    let plan = Manager::Pacman("htop".to_string()).install().unwrap();
    assert_eq!(plan.len(), 1);
    assert_eq!(args_of(&plan[0]), strings(&["pacman", "--sync", "htop"]));
}

#[test]
fn update_arch_runs_three_pacman_calls() {
    let update = Update { all: false, arch: true, aur: false, rust: false, rust_bin: false };
    let plan = update.run(None, Vec::new());
    assert!(plan.failure.is_none());
    assert_eq!(plan.invocations.len(), 3);
    assert_eq!(
        args_of(&plan.invocations[0]),
        strings(&["pacman", "--sync", "--refresh", "--sysupgrade", "--clean"])
    );
    assert_eq!(args_of(&plan.invocations[1]), strings(&["pacman", "--sync", "--clean"]));
    assert_eq!(
        args_of(&plan.invocations[2]),
        strings(&[
            "pacman",
            "--remove",
            "--nosave",
            "--recursive",
            "$(pacman --query --unrequired --deps --quiet)",
        ])
    );
}

#[test]
fn update_aur_refreshes_each_build() {
    let update = Update { all: false, arch: false, aur: true, rust: false, rust_bin: false };
    let entries = strings(&["/builds/paru", "/builds/yay"]);
    let plan = update.run(Some("/builds".to_string()), entries);
    assert!(plan.failure.is_none());
    assert_eq!(plan.invocations.len(), 4);
    assert_eq!(plan.invocations[0].program, "git");
    assert_eq!(args_of(&plan.invocations[0]), strings(&["pull"]));
    assert_eq!(plan.invocations[0].working_dir.as_deref(), Some("/builds/paru"));
    assert_eq!(plan.invocations[1].program, "makepkg");
    assert_eq!(plan.invocations[3].working_dir.as_deref(), Some("/builds/yay"));
}

#[test]
fn update_all_without_aur_dir_still_updates_arch() {
    let update = Update { all: true, arch: false, aur: false, rust: false, rust_bin: false };
    let plan = update.run(None, Vec::new());
    assert_eq!(plan.invocations.len(), 3);
    let failure = plan.failure.unwrap();
    assert_eq!(failure.message(), "Please configure `aur_directory` in your config file");
}

#[test]
fn update_all_launches_every_update_command() {
    let update = Update { all: true, arch: false, aur: false, rust: false, rust_bin: false };
    let plan = update.run(Some("/builds".to_string()), strings(&["/builds/paru"]));
    assert!(plan.failure.is_none());
    assert_eq!(plan.invocations.len(), 7);
    assert_eq!(plan.invocations[3].program, "git");
    assert_eq!(plan.invocations[4].program, "makepkg");
    assert_eq!(plan.invocations[5].program, "rustup");
    assert_eq!(args_of(&plan.invocations[5]), strings(&["update"]));
    assert_eq!(plan.invocations[6].program, "cargo");
    assert_eq!(args_of(&plan.invocations[6]), strings(&["install-update", "--all"]));
}

#[test]
fn update_rust_and_rust_bin() {
    let rust = Update { all: false, arch: false, aur: false, rust: true, rust_bin: false };
    let plan = rust.run(None, Vec::new());
    assert_eq!(plan.invocations.len(), 1);
    assert_eq!(plan.invocations[0].program, "rustup");
    assert_eq!(args_of(&plan.invocations[0]), strings(&["update"]));

    let bins = Update { all: false, arch: false, aur: false, rust: false, rust_bin: true };
    let plan = bins.run(None, Vec::new());
    assert_eq!(plan.invocations[0].program, "cargo");
    assert_eq!(args_of(&plan.invocations[0]), strings(&["install-update", "--all"]));
}

#[test]
fn update_without_flags_plans_nothing() {
    let update = Update { all: false, arch: false, aur: false, rust: false, rust_bin: false };
    let plan = update.run(None, Vec::new());
    assert!(plan.invocations.is_empty());
    assert!(plan.failure.is_none());
}

#[test]
fn launch_starts_editor_and_terminal() {
    let launch = Launch { path: None, editor: None, terminal: None, terminal_only: false };
    let plan = launch
        .run(Some("nvim".to_string()), Some("alacritty".to_string()), "/src".to_string())
        .unwrap();
    let editor = plan.editor.unwrap();
    assert_eq!(editor.program, "nvim");
    assert_eq!(args_of(&editor), strings(&["."]));
    assert_eq!(editor.working_dir.as_deref(), Some("/src"));
    assert_eq!(plan.terminal.program, "alacritty");
    assert_eq!(args_of(&plan.terminal), strings(&["--working-directory", "."]));
    assert_eq!(plan.terminal.working_dir.as_deref(), Some("/src"));
}

#[test]
fn launch_terminal_only_skips_editor() {
    let launch = Launch {
        path: None,
        editor: None,
        terminal: Some("kitty".to_string()),
        terminal_only: true,
    };
    let plan = launch.run(None, None, "/src".to_string()).unwrap();
    assert!(plan.editor.is_none());
    assert_eq!(plan.terminal.program, "kitty");
}

#[test]
fn launch_reports_missing_programs() {
    let launch = Launch { path: None, editor: None, terminal: None, terminal_only: false };
    let err = launch.run(None, None, "/src".to_string()).unwrap_err();
    assert_eq!(err.message(), "Please configure `editor` in your config file");

    let launch = Launch { path: None, editor: None, terminal: None, terminal_only: true };
    let err = launch.run(None, None, "/src".to_string()).unwrap_err();
    assert_eq!(err.message(), "Please configure `terminal` in your config file");
}

#[test]
fn checks_command_writes_its_line() {
    let command = ChecksCommand::check(strings(&["--workspace", "--all-features"]));
    assert_eq!(command.command_string, "cargo check --workspace --all-features");
    assert_eq!(command.args, strings(&["--workspace", "--all-features"]));
    let command = ChecksCommand::clippy(Vec::new());
    assert_eq!(command.command_string, "cargo clippy");
}

#[test]
fn checks_pick_flag_arguments_over_defaults() {
    let checks = Checks {
        path: None,
        clean: true,
        check_args: strings(&["--all"]),
        test_args: Vec::new(),
        fmt_args: Vec::new(),
        clippy_args: Vec::new(),
    };
    let plan = checks.run(
        strings(&["--workspace"]),
        strings(&["--doc"]),
        strings(&["--check"]),
        strings(&["--tests"]),
    );
    assert!(plan.clean);
    assert_eq!(plan.commands.len(), 4);
    assert_eq!(plan.commands[0].command_string, "cargo check --all");
    assert_eq!(plan.commands[1].command_string, "cargo test --doc");
    assert_eq!(plan.commands[2].command_string, "cargo fmt --check");
    assert_eq!(plan.commands[3].command_string, "cargo clippy --tests");
}

#[test]
fn checks_message_counts_seconds() {
    assert_eq!(CheckKind::Check.generate_msg(3), "check  (3s)");
    assert_eq!(CheckKind::Test.generate_msg(0), "test   (0s)");
    assert_eq!(CheckKind::Fmt.generate_msg(61), "fmt    (61s)");
    assert_eq!(CheckKind::Clippy.generate_msg(10), "clippy (10s)");
}

#[test]
fn checks_failed_commands_keep_order() {
    let lines = strings(&["cargo check", "cargo test", "cargo fmt", "cargo clippy"]);
    let outcomes = vec![true, false, true, false];
    let failed = failed_commands(lines, &outcomes);
    assert_eq!(failed, strings(&["cargo test", "cargo clippy"]));
}

#[test]
fn checks_clean_invocation_runs_in_project() {
    let inv = clean_invocation("/proj".to_string());
    assert_eq!(inv.program, "cargo");
    assert_eq!(args_of(&inv), strings(&["clean"]));
    assert_eq!(inv.working_dir.as_deref(), Some("/proj"));
}
