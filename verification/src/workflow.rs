use vstd::prelude::*;
use vstd::string::*;

use crate::plan::{file_at, push_action, Action, ActionModel, OutFile};

verus! {

/// A CI job that checks out the project and runs its tests.
pub open spec fn test_job(job_name: Seq<char>, platform: Seq<char>) -> Seq<char> {
    "  "@ + job_name + ":\n    runs-on: "@ + platform
        + "\n    steps:\n      - uses: actions/checkout@v2\n      - name: Run tests\n        run: cargo test --all-features\n"@
}

/// A CI job that runs the tests and then the formatting and lint checks.
pub open spec fn test_and_lint_job(job_name: Seq<char>, platform: Seq<char>) -> Seq<char> {
    "  "@ + job_name + ":\n    runs-on: "@ + platform
        + "\n    steps:\n      - uses: actions/checkout@v2\n      - name: Run tests\n        run: cargo test --all-features\n      - name: Check formatting\n        run: cargo fmt --all -- --check\n      - name: Run clippy\n        run: cargo clippy --all -- -D warnings\n"@
}

/// A CI job that builds a release binary for one target and uploads it.
pub open spec fn build_job(
    job_name: Seq<char>,
    platform: Seq<char>,
    target: Seq<char>,
    build_title: Seq<char>,
    build_name: Seq<char>,
    project_name: Seq<char>,
) -> Seq<char> {
    "  "@ + job_name + ":\n    runs-on: "@ + platform + "\n    steps:\n      - uses: actions/checkout@v2\n      - name: "@
        + build_title + "\n        run: cargo build --release --target "@ + target
        + "\n      - uses: actions/upload-artifact@v2\n        with:\n          name: "@
        + build_name + "\n          path: target/"@ + target + "/release/"@ + project_name + "\n"@
}

/// The release build job for Linux, which also strips the binary.
pub open spec fn build_job_with_strip(
    job_name: Seq<char>,
    platform: Seq<char>,
    target: Seq<char>,
    build_title: Seq<char>,
    build_name: Seq<char>,
    project_name: Seq<char>,
) -> Seq<char> {
    "  "@ + job_name + ":\n    runs-on: "@ + platform + "\n    steps:\n      - uses: actions/checkout@v2\n      - name: "@
        + build_title + "\n        run: cargo build --release --target "@ + target
        + "\n      - name: Strip binary\n        run: strip target/"@ + target + "/release/"@
        + project_name
        + "\n      - uses: actions/upload-artifact@v2\n        with:\n          name: "@
        + build_name + "\n          path: target/"@ + target + "/release/"@ + project_name + "\n"@
}

/// The head of the release job, up to its list of steps.
pub open spec fn release_start(needs: Seq<char>) -> Seq<char> {
    "  release:\n    needs: "@ + needs + "\n    runs-on: ubuntu-latest\n    steps:\n"@
}

/// One release step: download a build and rename its binary after the
/// platform it was built for.
pub open spec fn release_step(
    build_name: Seq<char>,
    build_path: Seq<char>,
    project_name: Seq<char>,
    platform: Seq<char>,
) -> Seq<char> {
    "      - uses: actions/download-artifact@v2\n        with:\n          name: "@ + build_name
        + "\n          path: "@ + build_path + "\n      - name: Rename binary ("@ + platform
        + ")\n        run: mv "@ + build_path + "/"@ + project_name + " "@ + build_path + "/"@
        + project_name + "-"@ + platform + "\n"@
}

/// The tail of the release job: publishing the collected files.
pub open spec fn release_end(files: Seq<char>) -> Seq<char> {
    "      - name: Release\n        uses: softprops/action-gh-release@v1\n        with:\n          files: "@
        + files + "        env:\n          GITHUB_TOKEN: ${{ secrets.GITHUB_TOKEN }}\n"@
}

/// The builds the release job waits for, as a YAML list.
pub open spec fn needs_list(no_windows: bool, no_osx: bool) -> Seq<char> {
    if no_windows && no_osx {
        "[build-linux]"@
    } else if !no_windows && no_osx {
        "[build-linux, build-windows]"@
    } else if no_windows && !no_osx {
        "[build-linux, build-osx]"@
    } else {
        "[build-linux, build-windows, build-osx]"@
    }
}

/// The files the release publishes, as a YAML block scalar.
pub open spec fn files_list(no_windows: bool, no_osx: bool) -> Seq<char> {
    if no_windows && no_osx {
        "|\n            build-linux/*\n"@
    } else if !no_windows && no_osx {
        "|\n            build-linux/*\n            build-windows/*\n"@
    } else if no_windows && !no_osx {
        "|\n            build-linux/*\n            build-osx/*\n"@
    } else {
        "|\n            build-linux/*\n            build-windows/*\n            build-osx/*\n"@
    }
}

/// The workflow run on pushes to main: the tests on Linux and, unless
/// switched off, on the other platforms.
pub open spec fn main_workflow(no_windows: bool, no_osx: bool) -> Seq<char> {
    "name: main\n\non:\n  push:\n    branches: [ main ]\n  schedule:\n    - cron: 0 0 1 * *\n\nenv:\n  CARGO_TERM_COLOR: always\n\njobs:\n"@
        + test_job("test"@, "ubuntu-latest"@) + (if !no_windows {
        "\n"@ + test_job("test-windows"@, "windows-latest"@)
    } else {
        Seq::empty()
    }) + (if !no_osx {
        "\n"@ + test_job("test-osx"@, "windows-latest"@)
    } else {
        Seq::empty()
    })
}

/// The workflow run on pull requests: tests and lints on Linux and, unless
/// switched off, the tests on the other platforms.
pub open spec fn pr_workflow(no_windows: bool, no_osx: bool) -> Seq<char> {
    "name: PR\n\non:\n  pull_request:\n    branches: [ main ]\n\nenv:\n  CARGO_TERM_COLOR: always\n\njobs:\n"@
        + test_and_lint_job("test-and-lint"@, "ubuntu-latest"@) + (if !no_windows {
        "\n"@ + test_job("test-windows"@, "windows-latest"@)
    } else {
        Seq::empty()
    }) + (if !no_osx {
        "\n"@ + test_job("test-osx"@, "windows-latest"@)
    } else {
        Seq::empty()
    })
}

/// The first half of the release workflow: its header and the build job
/// for each platform that stays on.
pub open spec fn release_builds(
    project_name: Seq<char>,
    no_windows: bool,
    no_osx: bool,
) -> Seq<char> {
    "name: Release\n\non:\n  push:\n    tags:\n      - 'v*'\n\njobs:\n"@ + build_job_with_strip(
        "build-linux"@,
        "ubuntu-latest"@,
        "x86_64-unknown-linux-gnu"@,
        "Build release (Windows)"@,
        "build-linux"@,
        project_name,
    ) + "\n"@ + (if !no_windows {
        build_job(
            "build-windows"@,
            "windows-latest"@,
            "x86_64-windows-msvc"@,
            "Build release (Windows)"@,
            "build-windows"@,
            project_name,
        ) + "\n"@
    } else {
        Seq::empty()
    }) + (if !no_osx {
        build_job(
            "build-osx"@,
            "macos-latest"@,
            "x86_64-apple-darwin"@,
            "Build release (OSX)"@,
            "build-osx"@,
            project_name,
        ) + "\n"@
    } else {
        Seq::empty()
    })
}

/// The second half of the release workflow: the job that downloads each
/// build, renames its binary, and publishes the lot.
pub open spec fn release_publish(
    project_name: Seq<char>,
    no_windows: bool,
    no_osx: bool,
) -> Seq<char> {
    release_start(needs_list(no_windows, no_osx)) + release_step(
        "build-linux"@,
        "build-linux"@,
        project_name,
        "linux-x86_64"@,
    ) + "\n"@ + (if !no_windows {
        release_step("build-windows"@, "build-windows"@, project_name, "windows-x86_64"@) + "\n"@
    } else {
        Seq::empty()
    }) + (if !no_osx {
        release_step("build-osx"@, "build-osx"@, project_name, "osx-x86_64"@) + "\n"@
    } else {
        Seq::empty()
    }) + release_end(files_list(no_windows, no_osx))
}

/// The workflow run on version tags: a release build for each platform,
/// then one job that collects and publishes the binaries.
pub open spec fn release_workflow(
    project_name: Seq<char>,
    no_windows: bool,
    no_osx: bool,
) -> Seq<char> {
    release_builds(project_name, no_windows, no_osx) + release_publish(
        project_name,
        no_windows,
        no_osx,
    )
}

fn render_test_job(job_name: &str, platform: &str) -> (r: String)
    ensures
        r@ == test_job(job_name@, platform@),
{
    let mut r = String::from_str("  ");
    r.append(job_name);
    r.append(":\n    runs-on: ");
    r.append(platform);
    r.append(
        "\n    steps:\n      - uses: actions/checkout@v2\n      - name: Run tests\n        run: cargo test --all-features\n",
    );
    r
}

fn render_test_and_lint_job(job_name: &str, platform: &str) -> (r: String)
    ensures
        r@ == test_and_lint_job(job_name@, platform@),
{
    let mut r = String::from_str("  ");
    r.append(job_name);
    r.append(":\n    runs-on: ");
    r.append(platform);
    r.append(
        "\n    steps:\n      - uses: actions/checkout@v2\n      - name: Run tests\n        run: cargo test --all-features\n      - name: Check formatting\n        run: cargo fmt --all -- --check\n      - name: Run clippy\n        run: cargo clippy --all -- -D warnings\n",
    );
    r
}

fn render_build_job(
    job_name: &str,
    platform: &str,
    target: &str,
    build_title: &str,
    build_name: &str,
    project_name: &str,
    strip: bool,
) -> (r: String)
    ensures
        strip ==> r@ == build_job_with_strip(
            job_name@,
            platform@,
            target@,
            build_title@,
            build_name@,
            project_name@,
        ),
        !strip ==> r@ == build_job(
            job_name@,
            platform@,
            target@,
            build_title@,
            build_name@,
            project_name@,
        ),
{
    let mut r = String::from_str("  ");
    r.append(job_name);
    r.append(":\n    runs-on: ");
    r.append(platform);
    r.append("\n    steps:\n      - uses: actions/checkout@v2\n      - name: ");
    r.append(build_title);
    r.append("\n        run: cargo build --release --target ");
    r.append(target);
    if strip {
        r.append("\n      - name: Strip binary\n        run: strip target/");
        r.append(target);
        r.append("/release/");
        r.append(project_name);
    }
    r.append("\n      - uses: actions/upload-artifact@v2\n        with:\n          name: ");
    r.append(build_name);
    r.append("\n          path: target/");
    r.append(target);
    r.append("/release/");
    r.append(project_name);
    r.append("\n");
    proof {
        if strip {
            assert(r@ =~= build_job_with_strip(
                job_name@,
                platform@,
                target@,
                build_title@,
                build_name@,
                project_name@,
            ));
        } else {
            assert(r@ =~= build_job(
                job_name@,
                platform@,
                target@,
                build_title@,
                build_name@,
                project_name@,
            ));
        }
    }
    r
}

fn render_release_step(
    build_name: &str,
    build_path: &str,
    project_name: &str,
    platform: &str,
) -> (r: String)
    ensures
        r@ == release_step(build_name@, build_path@, project_name@, platform@),
{
    let mut r = String::from_str(
        "      - uses: actions/download-artifact@v2\n        with:\n          name: ",
    );
    r.append(build_name);
    r.append("\n          path: ");
    r.append(build_path);
    r.append("\n      - name: Rename binary (");
    r.append(platform);
    r.append(")\n        run: mv ");
    r.append(build_path);
    r.append("/");
    r.append(project_name);
    r.append(" ");
    r.append(build_path);
    r.append("/");
    r.append(project_name);
    r.append("-");
    r.append(platform);
    r.append("\n");
    proof {
        assert(r@ =~= release_step(build_name@, build_path@, project_name@, platform@));
    }
    r
}

/// Writes out the workflow run on pushes to main.
pub fn generate_main_workflow(no_windows: bool, no_osx: bool) -> (r: String)
    ensures
        r@ == main_workflow(no_windows, no_osx),
{
    let mut r = String::from_str(
        "name: main\n\non:\n  push:\n    branches: [ main ]\n  schedule:\n    - cron: 0 0 1 * *\n\nenv:\n  CARGO_TERM_COLOR: always\n\njobs:\n",
    );
    let ubuntu = render_test_job("test", "ubuntu-latest");
    r.append(ubuntu.as_str());
    if !no_windows {
        r.append("\n");
        let windows = render_test_job("test-windows", "windows-latest");
        r.append(windows.as_str());
    }
    if !no_osx {
        r.append("\n");
        let osx = render_test_job("test-osx", "windows-latest");
        r.append(osx.as_str());
    }
    proof {
        assert(r@ =~= main_workflow(no_windows, no_osx));
    }
    r
}

/// Writes out the workflow run on pull requests.
pub fn generate_pr_workflow(no_windows: bool, no_osx: bool) -> (r: String)
    ensures
        r@ == pr_workflow(no_windows, no_osx),
{
    let mut r = String::from_str(
        "name: PR\n\non:\n  pull_request:\n    branches: [ main ]\n\nenv:\n  CARGO_TERM_COLOR: always\n\njobs:\n",
    );
    let ubuntu = render_test_and_lint_job("test-and-lint", "ubuntu-latest");
    r.append(ubuntu.as_str());
    if !no_windows {
        r.append("\n");
        let windows = render_test_job("test-windows", "windows-latest");
        r.append(windows.as_str());
    }
    if !no_osx {
        r.append("\n");
        let osx = render_test_job("test-osx", "windows-latest");
        r.append(osx.as_str());
    }
    proof {
        assert(r@ =~= pr_workflow(no_windows, no_osx));
    }
    r
}

/// Writes out the first half of the release workflow: the build jobs.
fn render_release_builds(project_name: &str, no_windows: bool, no_osx: bool) -> (r: String)
    ensures
        r@ == release_builds(project_name@, no_windows, no_osx),
{
    let mut r = String::from_str("name: Release\n\non:\n  push:\n    tags:\n      - 'v*'\n\njobs:\n");
    let linux_build = render_build_job(
        "build-linux",
        "ubuntu-latest",
        "x86_64-unknown-linux-gnu",
        "Build release (Windows)",
        "build-linux",
        project_name,
        true,
    );
    r.append(linux_build.as_str());
    r.append("\n");
    if !no_windows {
        let mut windows_build = render_build_job(
            "build-windows",
            "windows-latest",
            "x86_64-windows-msvc",
            "Build release (Windows)",
            "build-windows",
            project_name,
            false,
        );
        windows_build.append("\n");
        r.append(windows_build.as_str());
    } else {
        proof {
            assert(r@ + Seq::<char>::empty() =~= r@);
        }
    }
    if !no_osx {
        let mut osx_build = render_build_job(
            "build-osx",
            "macos-latest",
            "x86_64-apple-darwin",
            "Build release (OSX)",
            "build-osx",
            project_name,
            false,
        );
        osx_build.append("\n");
        r.append(osx_build.as_str());
    } else {
        proof {
            assert(r@ + Seq::<char>::empty() =~= r@);
        }
    }
    r
}

/// Writes out the second half of the release workflow: the job that
/// collects and publishes the binaries.
fn render_release_publish(project_name: &str, no_windows: bool, no_osx: bool) -> (r: String)
    ensures
        r@ == release_publish(project_name@, no_windows, no_osx),
{
    let mut r = String::from_str("  release:\n    needs: ");
    if no_windows && no_osx {
        r.append("[build-linux]");
    } else if !no_windows && no_osx {
        r.append("[build-linux, build-windows]");
    } else if no_windows && !no_osx {
        r.append("[build-linux, build-osx]");
    } else {
        r.append("[build-linux, build-windows, build-osx]");
    }
    r.append("\n    runs-on: ubuntu-latest\n    steps:\n");
    proof {
        assert(r@ == release_start(needs_list(no_windows, no_osx)));
    }

    let linux_step = render_release_step("build-linux", "build-linux", project_name, "linux-x86_64");
    r.append(linux_step.as_str());
    r.append("\n");
    if !no_windows {
        let mut windows_step = render_release_step(
            "build-windows",
            "build-windows",
            project_name,
            "windows-x86_64",
        );
        windows_step.append("\n");
        r.append(windows_step.as_str());
    } else {
        proof {
            assert(r@ + Seq::<char>::empty() =~= r@);
        }
    }
    if !no_osx {
        let mut osx_step = render_release_step("build-osx", "build-osx", project_name, "osx-x86_64");
        osx_step.append("\n");
        r.append(osx_step.as_str());
    } else {
        proof {
            assert(r@ + Seq::<char>::empty() =~= r@);
        }
    }

    let mut tail = String::from_str(
        "      - name: Release\n        uses: softprops/action-gh-release@v1\n        with:\n          files: ",
    );
    if no_windows && no_osx {
        tail.append("|\n            build-linux/*\n");
    } else if !no_windows && no_osx {
        tail.append("|\n            build-linux/*\n            build-windows/*\n");
    } else if no_windows && !no_osx {
        tail.append("|\n            build-linux/*\n            build-osx/*\n");
    } else {
        tail.append("|\n            build-linux/*\n            build-windows/*\n            build-osx/*\n");
    }
    tail.append("        env:\n          GITHUB_TOKEN: ${{ secrets.GITHUB_TOKEN }}\n");
    proof {
        assert(tail@ == release_end(files_list(no_windows, no_osx)));
    }
    r.append(tail.as_str());
    r
}

/// Writes out the workflow run on version tags.
pub fn generate_release_workflow(project_name: &str, no_windows: bool, no_osx: bool) -> (r: String)
    ensures
        r@ == release_workflow(project_name@, no_windows, no_osx),
{
    let mut r = render_release_builds(project_name, no_windows, no_osx);
    let publish = render_release_publish(project_name, no_windows, no_osx);
    r.append(publish.as_str());
    r
}

/// The steps that give a library its CI: the workflows directory, the
/// main workflow, and the pull-request workflow.
pub open spec fn lib_ci_actions(project_dir: Seq<char>, no_windows: bool, no_osx: bool) -> Seq<
    ActionModel,
> {
    seq![
        ActionModel::CreateDirAll { path: project_dir + "/.github/workflows"@ },
        ActionModel::WriteFile {
            file: file_at(
                project_dir + "/.github/workflows"@ + "/main.yml"@,
                main_workflow(no_windows, no_osx),
            ),
        },
        ActionModel::WriteFile {
            file: file_at(
                project_dir + "/.github/workflows"@ + "/pr.yml"@,
                pr_workflow(no_windows, no_osx),
            ),
        },
    ]
}

/// The steps that give a binary its CI: the library's, and the release
/// workflow besides.
pub open spec fn bin_ci_actions(
    project_dir: Seq<char>,
    project_name: Seq<char>,
    no_windows: bool,
    no_osx: bool,
) -> Seq<ActionModel> {
    lib_ci_actions(project_dir, no_windows, no_osx).push(
        ActionModel::WriteFile {
            file: file_at(
                project_dir + "/.github/workflows"@ + "/release.yml"@,
                release_workflow(project_name, no_windows, no_osx),
            ),
        },
    )
}

fn workflows_dir(project_dir: &str) -> (r: String)
    ensures
        r@ == project_dir@ + "/.github/workflows"@,
{
    let mut r = String::from_str(project_dir);
    r.append("/.github/workflows");
    r
}

/// Lays out the CI files for a library: the main and pull-request
/// workflows under the project's workflows directory.
pub fn add_lib_ci(project_dir: &str, no_windows: bool, no_osx: bool) -> (r: Vec<Action>)
    ensures
        r.deep_view() == lib_ci_actions(project_dir@, no_windows, no_osx),
{
    let mut actions: Vec<Action> = Vec::new();
    proof {
        assert(actions.deep_view() =~= Seq::<ActionModel>::empty());
    }

    let dir = workflows_dir(project_dir);
    let mut main_path = dir.clone();
    main_path.append("/main.yml");
    let mut pr_path = dir.clone();
    pr_path.append("/pr.yml");

    push_action(&mut actions, Action::CreateDirAll { path: dir });
    push_action(
        &mut actions,
        Action::WriteFile {
            file: OutFile::new(main_path, generate_main_workflow(no_windows, no_osx)),
        },
    );
    push_action(
        &mut actions,
        Action::WriteFile {
            file: OutFile::new(pr_path, generate_pr_workflow(no_windows, no_osx)),
        },
    );
    proof {
        assert(actions.deep_view() =~= lib_ci_actions(project_dir@, no_windows, no_osx));
    }
    actions
}

/// Lays out the CI files for a binary: the library's workflows and the
/// release workflow.
pub fn add_bin_ci(project_dir: &str, project_name: &str, no_windows: bool, no_osx: bool) -> (r: Vec<
    Action,
>)
    ensures
        r.deep_view() == bin_ci_actions(project_dir@, project_name@, no_windows, no_osx),
{
    let mut actions = add_lib_ci(project_dir, no_windows, no_osx);
    let dir = workflows_dir(project_dir);
    let mut release_path = dir;
    release_path.append("/release.yml");
    push_action(
        &mut actions,
        Action::WriteFile {
            file: OutFile::new(
                release_path,
                generate_release_workflow(project_name, no_windows, no_osx),
            ),
        },
    );
    proof {
        assert(actions.deep_view() =~= bin_ci_actions(
            project_dir@,
            project_name@,
            no_windows,
            no_osx,
        ));
    }
    actions
}

} // verus!
