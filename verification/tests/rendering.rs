use yoz::add::Add;
use yoz::background::Position;
use yoz::config::Config;
use yoz::dotfiles::{
    generate_cargo_temp, generate_i3, generate_i3status, generate_starship, Dotfiles,
};
use yoz::error::Error;
use yoz::license::{add_licenses, add_licenses_now};
use yoz::new::{render_xtask_workspace, New};
use yoz::plan::Action;
use yoz::text::{i32_to_string, join_with, path_join, str_eq, u64_to_string};
use yoz::workflow::{
    add_bin_ci, add_lib_ci, generate_main_workflow, generate_pr_workflow,
    generate_release_workflow,
};
use yoz::{program_or_default, value_or_default, values_or_default};

fn strings(words: &[&str]) -> Vec<String> {
    words.iter().map(|w| w.to_string()).collect()
}

#[test]
fn numbers_write_in_decimal() {
    assert_eq!(u64_to_string(0), "0");
    assert_eq!(u64_to_string(7), "7");
    assert_eq!(u64_to_string(1080), "1080");
    assert_eq!(u64_to_string(9876543210), "9876543210");
    assert_eq!(i32_to_string(2024), "2024");
    assert_eq!(i32_to_string(-42), "-42");
    assert_eq!(i32_to_string(i32::MIN), "-2147483648");
}

#[test]
fn join_with_separates_neighbours() {
    assert_eq!(join_with(&Vec::new(), ", "), "");
    assert_eq!(join_with(&strings(&["one"]), ", "), "one");
    assert_eq!(join_with(&strings(&["a", "b", "c"]), " - "), "a - b - c");
}

#[test]
fn path_join_inserts_separator() {
    assert_eq!(path_join("/home/me", "project"), "/home/me/project");
}

#[test]
fn str_eq_compares_contents() {
    assert!(str_eq("same", "same"));
    assert!(!str_eq("same", "other"));
}

#[test]
fn value_or_default_resolves_in_order() {
    assert_eq!(value_or_default(Some(1), Some(2), "k"), Ok(1));
    assert_eq!(value_or_default(None, Some(2), "k"), Ok(2));
    let err = value_or_default::<u32>(None, None, "editor").unwrap_err();
    assert_eq!(err.message(), "Please configure `editor` in your config file");
}

#[test]
fn values_or_default_resolves_in_order() {
    assert_eq!(values_or_default(vec![1], vec![2, 3], "k"), Ok(vec![1]));
    assert_eq!(values_or_default(Vec::new(), vec![2, 3], "k"), Ok(vec![2, 3]));
    let err = values_or_default::<u32>(Vec::new(), Vec::new(), "fonts").unwrap_err();
    assert_eq!(err.message(), "Please configure `fonts` in your config file");
}

#[test]
fn program_or_default_names_the_program() {
    assert_eq!(
        program_or_default(Some("hx".to_string()), Some("nvim".to_string()), "editor"),
        Ok("hx".to_string())
    );
    let err = program_or_default(None, None, "terminal").unwrap_err();
    assert_eq!(err.message(), "Please configure `terminal` in your config file");
}

#[test]
fn error_messages_name_their_subject() {
    let err = Error::MissingConfig { key: "browser".to_string() };
    assert_eq!(err.message(), "Please configure `browser` in your config file");
    let err = Error::ParsePosition { input: "upside-down".to_string() };
    assert_eq!(err.message(), "Cannot parse position from upside-down");
    let err = Error::ParseDirection { input: "down".to_string() };
    assert_eq!(err.message(), "Cannot parse direction from down");
}

#[test]
fn config_new_and_default_are_empty() {
    for config in [Config::new(), Config::default()] {
        assert!(config.default_check_args.is_empty());
        assert!(config.default_full_name.is_none());
        assert!(config.default_fonts.is_empty());
        assert!(config.main_monitor.is_none());
        assert!(config.external_monitor.is_none());
    }
}

#[test]
fn config_dot_holds_the_dotfiles_values() {
    let config = Config::dot();
    assert_eq!(config.default_check_args, strings(&["--workspace", "--all-features"]));
    assert_eq!(
        config.default_clippy_args,
        strings(&["--all", "--all-features", "--tests", "--", "-D", "warnings"])
    );
    assert_eq!(config.default_full_name.as_deref(), Some("Yohan Boogaert"));
    assert!(matches!(config.default_bg_position, Some(Position::Fill)));
    assert_eq!(config.default_editor.as_deref(), Some("nvim"));
    assert_eq!(config.default_terminal.as_deref(), Some("alacritty"));
    assert_eq!(
        config.default_fonts,
        strings(&["Hack Nerd Font", "DejaVu Sans Mono", "Font Awesome"])
    );
    assert_eq!(config.default_fonts_size, Some(8));
    assert_eq!(config.default_net_device.as_deref(), Some("wlp1s0"));
    let main = config.main_monitor.unwrap();
    assert_eq!((main.name.as_str(), main.width, main.height, main.rate), ("eDP-1", 1920, 1080, 60));
    let external = config.external_monitor.unwrap();
    assert_eq!(external.name, "HDMI-1");
    assert_eq!(external.rate, 144);
}

#[test]
fn licenses_carry_year_and_name() {
    let files = add_licenses("/proj", 2024, Some("Jane Doe".to_string()));
    assert_eq!(files.len(), 2);
    assert_eq!(files[0].path, "/proj/LICENSE.MIT");
    assert!(files[0].content.starts_with("MIT License\n\nCopyright (c) 2024 Jane Doe\n"));
    assert!(files[0].content.ends_with("SOFTWARE OR ITS USE.\n"));
    assert_eq!(files[1].path, "/proj/LICENSE.Apache-2.0");
    assert!(files[1].content.starts_with("Copyright 2024 Jane Doe\n"));
    assert!(files[1].content.contains("http://www.apache.org/licenses/LICENSE-2.0"));
}

#[test]
fn licenses_fall_back_to_the_author() {
    let files = add_licenses("/proj", 2023, None);
    assert!(files[0].content.contains("Copyright (c) 2023 Yohan Boogaert"));
}

#[test]
fn licenses_dated_now_still_name_the_holder() {
    let files = add_licenses_now("/proj", Some("Jane Doe".to_string()));
    assert_eq!(files.len(), 2);
    assert!(files[0].content.starts_with("MIT License\n\nCopyright (c) "));
    assert!(files[0].content.contains("Jane Doe"));
}

#[test]
fn main_workflow_lists_the_wanted_platforms() {
    let linux_only = generate_main_workflow(true, true);
    assert!(linux_only.starts_with("name: main\n\non:\n  push:\n    branches: [ main ]\n"));
    assert!(linux_only.contains("  test:\n    runs-on: ubuntu-latest\n"));
    assert!(!linux_only.contains("test-windows"));
    assert!(!linux_only.contains("test-osx"));
    assert!(linux_only.ends_with("run: cargo test --all-features\n"));

    let all = generate_main_workflow(false, false);
    assert!(all.contains("  test-windows:\n    runs-on: windows-latest\n"));
    assert!(all.contains("  test-osx:\n    runs-on: windows-latest\n"));
}

#[test]
fn main_workflow_exact_text_for_linux_only() {
    let expected = "name: main\n\non:\n  push:\n    branches: [ main ]\n  schedule:\n    - cron: 0 0 1 * *\n\nenv:\n  CARGO_TERM_COLOR: always\n\njobs:\n  test:\n    runs-on: ubuntu-latest\n    steps:\n      - uses: actions/checkout@v2\n      - name: Run tests\n        run: cargo test --all-features\n";
    assert_eq!(generate_main_workflow(true, true), expected);
}

#[test]
fn pr_workflow_lints_on_linux() {
    let workflow = generate_pr_workflow(true, true);
    assert!(workflow.starts_with("name: PR\n\non:\n  pull_request:\n"));
    assert!(workflow.contains("  test-and-lint:\n    runs-on: ubuntu-latest\n"));
    assert!(workflow.contains("run: cargo fmt --all -- --check\n"));
    assert!(workflow.contains("run: cargo clippy --all -- -D warnings\n"));
}

#[test]
fn release_workflow_builds_strips_and_publishes() {
    let workflow = generate_release_workflow("yoz", true, true);
    assert!(workflow.starts_with("name: Release\n\non:\n  push:\n    tags:\n      - 'v*'\n"));
    assert!(workflow.contains("  build-linux:\n    runs-on: ubuntu-latest\n"));
    assert!(workflow.contains("run: strip target/x86_64-unknown-linux-gnu/release/yoz\n"));
    assert!(workflow.contains("    needs: [build-linux]\n"));
    assert!(workflow.contains("run: mv build-linux/yoz build-linux/yoz-linux-x86_64\n"));
    assert!(workflow.contains("files: |\n            build-linux/*\n"));
    assert!(workflow.ends_with("GITHUB_TOKEN: ${{ secrets.GITHUB_TOKEN }}\n"));
    assert!(!workflow.contains("build-windows"));
    assert!(!workflow.contains("build-osx"));
}

#[test]
fn release_workflow_adds_the_other_platforms() {
    let workflow = generate_release_workflow("tool", false, false);
    assert!(workflow.contains("  build-windows:\n    runs-on: windows-latest\n"));
    assert!(workflow.contains("  build-osx:\n    runs-on: macos-latest\n"));
    assert!(workflow.contains("    needs: [build-linux, build-windows, build-osx]\n"));
    assert!(workflow.contains("run: mv build-osx/tool build-osx/tool-osx-x86_64\n"));
    // only the Linux binary is stripped
    assert_eq!(workflow.matches("Strip binary").count(), 1);
}

#[test]
fn lib_ci_writes_two_workflows() {
    let actions = add_lib_ci("/proj", true, true);
    assert_eq!(actions.len(), 3);
    match &actions[0] {
        Action::CreateDirAll { path } => assert_eq!(path, "/proj/.github/workflows"),
        other => panic!("expected a directory step, got {:?}", other),
    }
    match &actions[1] {
        Action::WriteFile { file } => {
            assert_eq!(file.path, "/proj/.github/workflows/main.yml");
            assert_eq!(file.content, generate_main_workflow(true, true));
        },
        other => panic!("expected a file step, got {:?}", other),
    }
    match &actions[2] {
        Action::WriteFile { file } => assert_eq!(file.path, "/proj/.github/workflows/pr.yml"),
        other => panic!("expected a file step, got {:?}", other),
    }
}

#[test]
fn bin_ci_adds_the_release_workflow() {
    let actions = add_bin_ci("/proj", "tool", false, true);
    assert_eq!(actions.len(), 4);
    match &actions[3] {
        Action::WriteFile { file } => {
            assert_eq!(file.path, "/proj/.github/workflows/release.yml");
            assert_eq!(file.content, generate_release_workflow("tool", false, true));
        },
        other => panic!("expected a file step, got {:?}", other),
    }
}

#[test]
fn cargo_temp_config_watches_the_build() {
    let text = generate_cargo_temp(
        "/home/me/.cache/cargo-temp/".to_string(),
        "nvim".to_string(),
        "alacritty".to_string(),
    );
    assert_eq!(
        text,
        "temporary_project_dir = \"/home/me/.cache/cargo-temp/\"\neditor = \"nvim\"\n\n[[subprocesses]]\ncommand = \"alacritty --command cargo watch -x check\"\n"
    );
}

#[test]
fn i3status_config_names_the_device() {
    let text = generate_i3status("wlp1s0");
    assert!(text.starts_with("[theme]\n"));
    assert!(text.contains("block = \"net\"\ndevice = \"wlp1s0\"\n"));
}

#[test]
fn i3_config_lays_out_fonts_and_bar() {
    let text = generate_i3(
        Position::Fill,
        "/img.png",
        &strings(&["Hack", "DejaVu"]),
        8,
        "firefox",
        "/cfg/i3status.toml",
        10,
    );
    assert!(text.contains("font pango:Hack, DejaVu 8\n"));
    assert!(text.contains("exec --no-startup-id feh --bg-fill /img.png\n"));
    assert!(text.contains("bindsym $mod+b exec firefox\n"));
    assert!(text.contains("status_command i3status-rs /cfg/i3status.toml\n"));
    assert!(text.contains("font pango:Hack, DejaVu 10\n"));
}

#[test]
fn starship_config_sets_the_home_symbol() {
    assert_eq!(generate_starship("yoz"), "[directory]\nhome_symbol = \"yoz\"\n");
}

fn bare_dotfiles() -> Dotfiles {
    Dotfiles {
        temporary_project_dir: None,
        editor: None,
        terminal: None,
        bg_position: None,
        bg_file_path: None,
        fonts: Vec::new(),
        fonts_size: None,
        bar_font_size: None,
        browser: None,
        net_device: None,
        home_symbol: None,
    }
}

#[test]
fn dotfiles_render_from_defaults() {
    let dotfiles = bare_dotfiles();
    let plan = dotfiles.run(
        Some("/tmp/projects".to_string()),
        Some("nvim".to_string()),
        Some("alacritty".to_string()),
        Some(Position::Center),
        Some("/img.png".to_string()),
        strings(&["Hack"]),
        Some(8),
        Some(9),
        Some("firefox".to_string()),
        Some("eth0".to_string()),
        Some("~".to_string()),
        "/cfg/i3status.toml".to_string(),
    );
    assert!(plan.failure.is_none());
    assert!(plan.cargo_temp.unwrap().contains("editor = \"nvim\""));
    assert!(plan.i3status.unwrap().contains("device = \"eth0\""));
    let i3 = plan.i3.unwrap();
    assert!(i3.contains("feh --bg-center /img.png"));
    assert!(i3.contains("font pango:Hack 8"));
    assert_eq!(plan.starship.as_deref(), Some("[directory]\nhome_symbol = \"~\"\n"));
}

#[test]
fn dotfiles_report_the_first_missing_key() {
    let dotfiles = bare_dotfiles();
    let plan = dotfiles.clone().run(
        None,
        None,
        None,
        None,
        None,
        Vec::new(),
        None,
        None,
        None,
        None,
        None,
        "/bar".to_string(),
    );
    assert!(plan.cargo_temp.is_none());
    let failure = plan.failure.unwrap();
    assert_eq!(failure.message(), "Please configure `temporary_project_dir` in your config file");

    let plan = dotfiles.run(
        Some("/tmp".to_string()),
        Some("nvim".to_string()),
        Some("alacritty".to_string()),
        None,
        None,
        Vec::new(),
        None,
        None,
        None,
        None,
        None,
        "/bar".to_string(),
    );
    // the cargo-temp file is still rendered before the failing key
    assert!(plan.cargo_temp.unwrap().contains("editor = \"nvim\""));
    assert!(plan.i3status.is_none());
    assert!(plan.i3.is_none());
    assert!(plan.starship.is_none());
    let failure = plan.failure.unwrap();
    assert_eq!(failure.message(), "Please configure `net_device` in your config file");
}

fn plain_new(name: &str) -> New {
    New {
        name: name.to_string(),
        path: None,
        full_name: None,
        lib: false,
        xtask: false,
        no_license: true,
        no_ci: true,
        no_windows: false,
        no_osx: false,
    }
}

#[test]
fn new_project_starts_with_directory_and_init() {
    let plan = plain_new("tool").run(None, "/work".to_string());
    assert!(plan.failure.is_none());
    assert_eq!(plan.actions.len(), 2);
    match &plan.actions[0] {
        Action::CreateDir { path } => assert_eq!(path, "/work/tool"),
        other => panic!("expected a directory step, got {:?}", other),
    }
    match &plan.actions[1] {
        Action::Run { invocation } => {
            assert_eq!(invocation.program, "cargo");
            assert_eq!(invocation.args, strings(&["init"]));
            assert_eq!(invocation.working_dir.as_deref(), Some("/work/tool"));
        },
        other => panic!("expected a cargo step, got {:?}", other),
    }
}

#[test]
fn new_library_initialises_with_lib() {
    let mut command = plain_new("mylib");
    command.lib = true;
    let plan = command.run(None, "/work".to_string());
    match &plan.actions[1] {
        Action::Run { invocation } => assert_eq!(invocation.args, strings(&["init", "--lib"])),
        other => panic!("expected a cargo step, got {:?}", other),
    }
}

#[test]
fn new_with_licenses_writes_both_files() {
    let mut command = plain_new("tool");
    command.no_license = false;
    let plan = command.run(Some("Jane Doe".to_string()), "/work".to_string());
    assert!(plan.failure.is_none());
    assert_eq!(plan.actions.len(), 4);
    match &plan.actions[2] {
        Action::WriteFile { file } => {
            assert_eq!(file.path, "/work/tool/LICENSE.MIT");
            assert!(file.content.contains("Jane Doe"));
        },
        other => panic!("expected a file step, got {:?}", other),
    }
    match &plan.actions[3] {
        Action::WriteFile { file } => assert_eq!(file.path, "/work/tool/LICENSE.Apache-2.0"),
        other => panic!("expected a file step, got {:?}", other),
    }
}

#[test]
fn new_without_full_name_stops_at_licenses() {
    let mut command = plain_new("tool");
    command.no_license = false;
    let plan = command.run(None, "/work".to_string());
    assert_eq!(plan.actions.len(), 2);
    let failure = plan.failure.unwrap();
    assert_eq!(failure.message(), "Please configure `full_name` in your config file");
}

#[test]
fn new_binary_ci_includes_release() {
    let mut command = plain_new("tool");
    command.no_ci = false;
    let plan = command.run(None, "/work".to_string());
    assert!(plan.failure.is_none());
    assert_eq!(plan.actions.len(), 6);
    match &plan.actions[5] {
        Action::WriteFile { file } => {
            assert_eq!(file.path, "/work/tool/.github/workflows/release.yml")
        },
        other => panic!("expected a file step, got {:?}", other),
    }
}

#[test]
fn new_xtask_builds_the_workspace() {
    let mut command = plain_new("tool");
    command.xtask = true;
    let plan = command.run(None, "/work".to_string());
    assert_eq!(plan.actions.len(), 6);
    match &plan.actions[1] {
        Action::Run { invocation } => assert_eq!(invocation.args, strings(&["new", "tool"])),
        other => panic!("expected a cargo step, got {:?}", other),
    }
    match &plan.actions[2] {
        Action::Run { invocation } => {
            assert_eq!(invocation.args, strings(&["new", "xtask"]));
            assert_eq!(invocation.working_dir.as_deref(), Some("/work/tool"));
        },
        other => panic!("expected a cargo step, got {:?}", other),
    }
    match &plan.actions[3] {
        Action::CreateDir { path } => assert_eq!(path, "/work/tool/.cargo"),
        other => panic!("expected a directory step, got {:?}", other),
    }
    match &plan.actions[4] {
        Action::WriteFile { file } => {
            assert_eq!(file.path, "/work/tool/.cargo/config");
            assert_eq!(file.content, "[alias]\nxtask = \"run --package xtask --\"");
        },
        other => panic!("expected a file step, got {:?}", other),
    }
    match &plan.actions[5] {
        Action::WriteFile { file } => {
            assert_eq!(file.path, "/work/tool/Cargo.toml");
            assert_eq!(file.content, render_xtask_workspace("tool"));
        },
        other => panic!("expected a file step, got {:?}", other),
    }
}

#[test]
fn xtask_workspace_lists_both_members() {
    assert_eq!(
        render_xtask_workspace("tool"),
        "[workspace]\nmembers = [\n    \"tool\",\n    \"xtask\",\n]\n"
    );
}

#[test]
fn add_licenses_when_asked() {
    let add = Add {
        path: None,
        licenses: true,
        full_name: None,
        ci: false,
        lib: false,
        no_windows: false,
        no_osx: false,
    };
    let files = add.run(Some("Jane Doe".to_string()), "/proj".to_string()).unwrap();
    assert_eq!(files.len(), 2);
    assert_eq!(files[0].path, "/proj/LICENSE.MIT");
    assert!(files[1].content.contains("Jane Doe"));
}

#[test]
fn add_nothing_when_nothing_is_selected() {
    let add = Add {
        path: None,
        licenses: false,
        full_name: Some("Jane Doe".to_string()),
        ci: false,
        lib: false,
        no_windows: false,
        no_osx: false,
    };
    let files = add.run(None, "/proj".to_string()).unwrap();
    assert!(files.is_empty());
}

#[test]
fn add_reports_missing_name_even_with_ci_flag() {
    let add = Add {
        path: None,
        licenses: false,
        full_name: None,
        ci: true,
        lib: false,
        no_windows: false,
        no_osx: false,
    };
    let err = add.run(None, "/proj".to_string()).unwrap_err();
    assert_eq!(err.message(), "Please configure `full_name` in your config file");
}

#[test]
fn add_requires_a_full_name() {
    let add = Add {
        path: None,
        licenses: true,
        full_name: None,
        ci: false,
        lib: false,
        no_windows: false,
        no_osx: false,
    };
    let err = add.run(None, "/proj".to_string()).unwrap_err();
    assert_eq!(err.message(), "Please configure `full_name` in your config file");
}
