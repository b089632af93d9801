use gojo::collect::Entry;
use gojo::commands::{
    build, build_on_this_machine, check, check_on_this_machine, clean, deps_dir, fmt, fmt_options,
    format_sources, help, init, run, run_config, sidecar, src_dir, style_file, subcommand, target, test_dir,
    unrecognized, HELP, HELP_NOTICE,
};
use gojo::config::{config_default, config_read, config_write, ProjectConfig};
use gojo::plan::{Clock, CommandError, Invocation, Step, Stream, Subcommand, ValueFlag};
use gojo::templates;

fn words(list: &[&str]) -> Vec<String> {
    list.iter().map(|w| w.to_string()).collect()
}

fn project() -> ProjectConfig {
    ProjectConfig {
        project_root: String::from("/work/demo"),
        build_dir: String::from("/work/demo/build"),
        name: String::from("demo"),
        std: String::from("20"),
        src_ext: String::from("cc"),
        hdr_ext: String::from("h"),
        fmt_style: String::from("google"),
        fmt_args: String::new(),
        clang_tidy: true,
        cpplint: false,
        cppcheck: true,
        cpplint_args: String::new(),
        cppcheck_args: String::new(),
        quiet: false,
    }
}

fn file(dir: &str, name: &str) -> Entry {
    Entry {
        name: String::from(name),
        path: format!("{}/{}", dir, name),
        is_dir: false,
        children: Vec::new(),
    }
}

fn runs(steps: &[Step]) -> Vec<&Invocation> {
    let mut out = Vec::new();
    for step in steps {
        if let Step::Run(call) = step {
            out.push(call);
        }
    }
    out
}

fn written<'a>(steps: &'a [Step], path: &str) -> Option<&'a String> {
    for step in steps {
        if let Step::WriteFile(at, contents) = step {
            if at == path {
                return Some(contents);
            }
        }
    }
    None
}

#[test]
fn init_without_flags_makes_the_documented_skeleton() {
    let plan = init(&words(&["demo"]), "/work").unwrap();
    assert_eq!(plan.config, project());
    let steps = &plan.steps;
    assert_eq!(steps.len(), 19);
    assert_eq!(steps[0], Step::CreateDir(String::from("/work/demo")));
    assert_eq!(steps[1], Step::CreateDir(String::from("/work/demo/src")));
    assert_eq!(steps[2], Step::CreateDir(String::from("/work/demo/src/lib")));
    assert_eq!(steps[3], Step::CreateDir(String::from("/work/demo/build")));
    assert_eq!(
        steps[4],
        Step::WriteFile(
            String::from("/work/demo/CMakeLists.txt"),
            templates::root_cmake_lists_txt("demo", "20", "cc", "3.28")
        )
    );
    assert_eq!(
        steps[5],
        Step::WriteFile(String::from("/work/demo/src/main.cc"), templates::main_src("h"))
    );
    assert_eq!(
        steps[6],
        Step::WriteFile(
            String::from("/work/demo/src/lib/hello_world.cc"),
            templates::lib_hello_world_src("h")
        )
    );
    assert_eq!(
        steps[7],
        Step::WriteFile(
            String::from("/work/demo/src/lib/hello_world.h"),
            templates::lib_hello_world_hdr("h")
        )
    );
    assert_eq!(
        steps[8],
        Step::WriteFile(
            String::from("/work/demo/src/lib/CMakeLists.txt"),
            templates::lib_cmake_lists_txt("cc")
        )
    );
    assert_eq!(
        steps[9],
        Step::WriteFile(String::from("/work/demo/README.md"), templates::readme("demo"))
    );
    assert_eq!(
        steps[10],
        Step::WriteFile(String::from("/work/demo/.clang-tidy"), String::from(templates::CLANG_TIDY))
    );
    assert_eq!(
        steps[11],
        Step::WriteFile(String::from("/work/demo/.gitignore"), String::from(templates::GIT_IGNORE))
    );
    assert_eq!(
        steps[12],
        Step::Print(String::from("\n\x1b[0;35mInitializing Git repository...\x1b[0m\n"))
    );
    assert_eq!(
        steps[13],
        Step::Run(Invocation {
            program: String::from("git"),
            args: words(&["init"]),
            dir: Some(String::from("/work/demo")),
            env: Vec::new(),
            stdin: Stream::Discard,
            stdout: Stream::Inherit,
            stderr: Stream::Discard,
        })
    );
    assert_eq!(steps[14], Step::CreateDir(String::from("/work/demo/test")));
    assert_eq!(
        steps[15],
        Step::WriteFile(
            String::from("/work/demo/test/hello_world_test.cc"),
            templates::test_hello_world_src("h")
        )
    );
    assert_eq!(
        steps[16],
        Step::WriteFile(
            String::from("/work/demo/test/CMakeLists.txt"),
            templates::test_cmake_lists_txt("cc")
        )
    );
    assert_eq!(
        steps[17],
        Step::WriteFile(String::from("/work/demo/.gojo"), config_write(&plan.config))
    );
    assert_eq!(
        steps[18],
        Step::Print(String::from(
            "\n\x1b[1;32mCreated gojo project:\x1b[0m demo\n\t\x1b[1;35mroot:\x1b[0m /work/demo\n\t\x1b[1;35mconfig:\x1b[0m /work/demo/.gojo\n"
        ))
    );
}

#[test]
fn init_sidecar_names_the_project_and_the_default_standard() {
    let plan = init(&words(&["demo"]), "/work").unwrap();
    let text = written(&plan.steps, "/work/demo/.gojo").unwrap();
    assert!(text.lines().any(|line| line == "name: demo"));
    assert!(text.lines().any(|line| line == "std: 20"));
    assert_eq!(config_read(Some(text)), Some(project()));
}

#[test]
fn init_takes_its_flags() {
    let plan = init(
        &words(&["demo", "--std=17", "-s", "cpp", "--hdr-extension", "hpp", "-b=out", "--quiet"]),
        "/work",
    )
    .unwrap();
    assert_eq!(plan.config.std, "17");
    assert_eq!(plan.config.src_ext, "cpp");
    assert_eq!(plan.config.hdr_ext, "hpp");
    assert_eq!(plan.config.build_dir, "/work/demo/out");
    assert!(!plan.config.quiet);
    assert_eq!(plan.steps[3], Step::CreateDir(String::from("/work/demo/out")));
    assert!(written(&plan.steps, "/work/demo/src/main.cpp").is_some());
    assert!(written(&plan.steps, "/work/demo/src/lib/hello_world.hpp").is_some());
    assert!(plan.steps.iter().all(|step| !matches!(step, Step::Print(_))));
    assert_eq!(runs(&plan.steps)[0].stdout, Stream::Discard);
}

#[test]
fn init_without_tests_leaves_the_test_directory_out() {
    let plan = init(&words(&["demo", "--no-test"]), "/work").unwrap();
    assert_eq!(plan.steps.len(), 16);
    assert!(!plan.steps.contains(&Step::CreateDir(String::from("/work/demo/test"))));
}

#[test]
fn init_help_prints_the_notice_first() {
    let plan = init(&words(&["demo", "--help"]), "/work").unwrap();
    assert_eq!(plan.steps[0], Step::Print(String::from(HELP_NOTICE)));
    assert_eq!(plan.steps.len(), 20);
}

#[test]
fn init_rejects_bad_command_lines() {
    assert_eq!(init(&[], "/work").unwrap_err(), CommandError::MissingName);
    assert_eq!(
        init(&words(&["demo", "--std", "98"]), "/work").unwrap_err(),
        CommandError::BadValue(ValueFlag::Std)
    );
    assert_eq!(
        init(&words(&["demo", "--std"]), "/work").unwrap_err(),
        CommandError::BadValue(ValueFlag::Std)
    );
    assert_eq!(
        init(&words(&["demo", "-s", "h"]), "/work").unwrap_err(),
        CommandError::BadValue(ValueFlag::SrcExtension)
    );
    assert_eq!(
        init(&words(&["demo", "-h=cc"]), "/work").unwrap_err(),
        CommandError::BadValue(ValueFlag::HdrExtension)
    );
    assert_eq!(
        init(&words(&["demo", "--build-dir"]), "/work").unwrap_err(),
        CommandError::BadValue(ValueFlag::BuildDir)
    );
    assert_eq!(
        init(&words(&["demo", "--colour=always"]), "/work").unwrap_err(),
        CommandError::InvalidOption(Subcommand::Init, String::from("--colour"))
    );
    assert_eq!(
        init(&words(&["demo", "--std=17", "stray"]), "/work").unwrap_err(),
        CommandError::InvalidOption(Subcommand::Init, String::from("stray"))
    );
    assert_eq!(
        init(&words(&["demo", "--std=17", "--std=03"]), "/work").unwrap_err(),
        CommandError::BadValue(ValueFlag::Std)
    );
}

#[test]
fn build_in_debug_mode_by_default() {
    let plan = build(&[], &project(), 8).unwrap();
    assert!(!plan.clean_first);
    assert_eq!(
        plan.steps,
        vec![
            Step::EnsureDir(String::from("/work/demo/build")),
            Step::Print(String::from("\n\x1b[0;35mInitializing CMake in\x1b[0m /work/demo/build\n")),
            Step::Run(Invocation {
                program: String::from("cmake"),
                args: words(&[
                    "-DBUILD_TESTING=OFF",
                    "-DCMAKE_BUILD_TYPE=Debug",
                    "-S",
                    ".",
                    "-B",
                    "/work/demo/build"
                ]),
                dir: Some(String::from("/work/demo")),
                env: Vec::new(),
                stdin: Stream::Discard,
                stdout: Stream::Discard,
                stderr: Stream::Inherit,
            }),
            Step::Print(String::from(
                "\x1b[1;35mCompiling\x1b[0m demo \x1b[1;35min\x1b[0m \x1b[1;36mDebug\x1b[0m \x1b[1;35mmode\x1b[0m\n\n"
            )),
            Step::StartClock(Clock::Whole),
            Step::Run(Invocation {
                program: String::from("cmake"),
                args: words(&["--build", "/work/demo/build", "-j", "8"]),
                dir: Some(String::from("/work/demo")),
                env: Vec::new(),
                stdin: Stream::Discard,
                stdout: Stream::Inherit,
                stderr: Stream::Inherit,
            }),
            Step::PrintElapsed(
                Clock::Whole,
                String::from("\n\x1b[1;32mBuild successful\x1b[0m ("),
                String::from("s)\n\n")
            ),
        ]
    );
}

#[test]
fn build_takes_its_flags() {
    let plan = build(&words(&["--release", "x", "-t", "x", "-c", "x", "-q"]), &project(), 16).unwrap();
    assert!(plan.clean_first);
    assert_eq!(plan.steps.len(), 3);
    let calls = runs(&plan.steps);
    assert_eq!(calls[0].args[0], "-DBUILD_TESTING=ON");
    assert_eq!(calls[0].args[1], "-DCMAKE_BUILD_TYPE=Release");
    assert_eq!(calls[1].args, words(&["--build", "/work/demo/build", "-j", "16"]));
    assert_eq!(calls[1].stdout, Stream::Discard);
    assert_eq!(calls[1].stderr, Stream::Inherit);
}

#[test]
fn build_rejects_an_unknown_option() {
    assert_eq!(
        build(&words(&["--fast"]), &project(), 1).unwrap_err(),
        CommandError::InvalidOption(Subcommand::Build, String::from("--fast"))
    );
}

#[test]
fn build_on_this_machine_asks_for_at_least_one_job() {
    let plan = build_on_this_machine(&[], &project()).unwrap();
    let calls = runs(&plan.steps);
    let jobs: u64 = calls[1].args[3].parse().unwrap();
    assert!(jobs >= 1);
    assert_eq!(plan.steps, build(&[], &project(), jobs as usize).unwrap().steps);
}

#[test]
fn run_without_build_directory_fails() {
    let error = run(&[], &project(), false, false).unwrap_err();
    assert_eq!(error, CommandError::NoBuildDirectory);
    assert!(error.message().contains("no build directory discovered"));
    assert_eq!(run(&words(&["./a.out"]), &project(), false, true).unwrap_err(), error);
}

#[test]
fn run_named_executable_forwards_the_rest() {
    let steps = run(&words(&["./tool", "--verbose", "input"]), &project(), true, false).unwrap();
    assert_eq!(
        steps,
        vec![Step::Run(Invocation {
            program: String::from("./tool"),
            args: words(&["--verbose", "input"]),
            dir: None,
            env: Vec::new(),
            stdin: Stream::Inherit,
            stdout: Stream::Inherit,
            stderr: Stream::Inherit,
        })]
    );
}

#[test]
fn run_project_target_takes_all_arguments() {
    let steps = run(&words(&["--fast", "x"]), &project(), true, true).unwrap();
    assert_eq!(
        steps,
        vec![Step::Run(Invocation {
            program: String::from("/work/demo/build/demo"),
            args: words(&["--fast", "x"]),
            dir: None,
            env: Vec::new(),
            stdin: Stream::Inherit,
            stdout: Stream::Inherit,
            stderr: Stream::Inherit,
        })]
    );
    let steps = run(&words(&["--help"]), &project(), true, true).unwrap();
    assert_eq!(steps[0], Step::Print(String::from(HELP_NOTICE)));
    assert_eq!(steps.len(), 2);
}

#[test]
fn run_without_target_fails() {
    assert_eq!(run(&[], &project(), true, false).unwrap_err(), CommandError::NoExecutable);
    let mut nameless = project();
    nameless.name = String::new();
    assert_eq!(run(&[], &nameless, true, true).unwrap_err(), CommandError::NoExecutable);
    assert_eq!(run(&words(&["-x"]), &project(), true, false).unwrap_err(), CommandError::NoExecutable);
}

#[test]
fn test_runs_the_test_runner_in_the_build_directory() {
    assert_eq!(
        gojo::commands::test(&project()),
        vec![
            Step::EnsureDir(String::from("/work/demo/build")),
            Step::Run(Invocation {
                program: String::from("ctest"),
                args: words(&["-V"]),
                dir: Some(String::from("/work/demo/build")),
                env: vec![(String::from("GTEST_COLOR"), String::from("1"))],
                stdin: Stream::Discard,
                stdout: Stream::Inherit,
                stderr: Stream::Discard,
            }),
            Step::Print(String::from("\n")),
        ]
    );
}

#[test]
fn clean_keeps_fetched_dependencies() {
    assert_eq!(
        clean(&project(), true),
        vec![
            Step::EnsureDir(String::from("/work/demo/build")),
            Step::Rename(String::from("/work/demo/build/_deps"), String::from("/work/demo/_deps")),
            Step::RemoveDirAll(String::from("/work/demo/build")),
            Step::CreateDir(String::from("/work/demo/build")),
            Step::Rename(String::from("/work/demo/_deps"), String::from("/work/demo/build/_deps")),
        ]
    );
}

#[test]
fn clean_without_dependencies_still_succeeds() {
    assert_eq!(
        clean(&project(), false),
        vec![
            Step::EnsureDir(String::from("/work/demo/build")),
            Step::RemoveDirAll(String::from("/work/demo/build")),
            Step::CreateDir(String::from("/work/demo/build")),
        ]
    );
}

#[test]
fn fmt_style_persists_to_the_next_run() {
    let first = fmt(&words(&["--style", "llvm"]), &project(), false).unwrap();
    assert_eq!(first.config.fmt_style, "llvm");
    let text = written(&first.steps, "/work/demo/.gojo").unwrap();
    let reloaded = config_read(Some(text)).unwrap();
    let second = fmt(&[], &reloaded, false).unwrap();
    assert_eq!(second.config.fmt_style, "llvm");
    let call = format_sources(&second.config, &Vec::new(), &Vec::new());
    assert_eq!(
        call,
        Step::Run(Invocation {
            program: String::from("clang-format"),
            args: words(&["-style=llvm", "-i"]),
            dir: Some(String::from("/work/demo")),
            env: Vec::new(),
            stdin: Stream::Discard,
            stdout: Stream::Inherit,
            stderr: Stream::Inherit,
        })
    );
}

#[test]
fn fmt_resolves_the_style() {
    let mut config = project();
    config.fmt_style = String::from("webkit");
    assert_eq!(fmt(&[], &config, false).unwrap().config.fmt_style, "webkit");
    assert_eq!(fmt(&words(&["--style=gnu"]), &config, false).unwrap().config.fmt_style, "gnu");
    assert_eq!(fmt(&words(&["--file"]), &config, true).unwrap().config.fmt_style, "file");
    assert_eq!(
        fmt(&words(&["--style=gnu", "--file"]), &config, true).unwrap().config.fmt_style,
        "file"
    );
    config.fmt_style = String::new();
    assert_eq!(fmt(&words(&["-i"]), &config, false).unwrap().config.fmt_style, "google");
    let plan = fmt(&words(&["--help"]), &config, false).unwrap();
    assert_eq!(plan.steps[0], Step::Print(String::from(HELP_NOTICE)));
    assert_eq!(plan.steps[1], Step::WriteFile(sidecar(&plan.config), config_write(&plan.config)));
}

#[test]
fn fmt_rejects_bad_command_lines() {
    assert_eq!(
        fmt(&words(&["--style", "mine"]), &project(), true).unwrap_err(),
        CommandError::UnknownStyle(String::from("mine"))
    );
    assert_eq!(
        fmt(&words(&["--style"]), &project(), true).unwrap_err(),
        CommandError::UnknownStyle(String::new())
    );
    assert_eq!(
        fmt(&words(&["--style=file"]), &project(), true).unwrap_err(),
        CommandError::UnknownStyle(String::from("file"))
    );
    assert_eq!(
        fmt(&words(&["--check"]), &project(), true).unwrap_err(),
        CommandError::InvalidOption(Subcommand::Fmt, String::from("--check"))
    );
    assert_eq!(fmt(&words(&["--file"]), &project(), false).unwrap_err(), CommandError::NoStyleFile);
    assert_eq!(
        fmt(&words(&["--file", "x", "--style=mine"]), &project(), false).unwrap_err(),
        CommandError::UnknownStyle(String::from("mine"))
    );
    assert!(fmt_options(&words(&["--file"])).unwrap().file);
    assert!(!fmt_options(&[]).unwrap().file);
}

#[test]
fn format_sources_lists_sources_then_tests() {
    let src = vec![file("/work/demo/src", "main.cc"), file("/work/demo/src", "notes.md")];
    let tests = vec![file("/work/demo/test", "t.h")];
    match format_sources(&project(), &src, &tests) {
        Step::Run(call) => assert_eq!(
            call.args,
            words(&["-style=google", "-i", "/work/demo/src/main.cc", "/work/demo/test/t.h"])
        ),
        other => panic!("{:?}", other),
    }
}

#[test]
fn check_runs_the_enabled_analyzers_in_order() {
    let src = vec![file("/work/demo/src", "main.cc")];
    let steps = check(&project(), &src, &Vec::new(), 4);
    assert_eq!(steps.len(), 16);
    assert_eq!(steps[0], Step::EnsureDir(String::from("/work/demo/build")));
    assert_eq!(steps[1], Step::Print(String::from("\x1b[1;35mRunning checks...\x1b[0m\n")));
    assert_eq!(steps[2], Step::StartClock(Clock::Whole));
    assert_eq!(steps[3], Step::Print(String::from("\x1b[0;35mRunning cppcheck...\x1b[0m\n\n")));
    assert_eq!(steps[4], Step::StartClock(Clock::Part));
    let calls = runs(&steps);
    assert_eq!(calls.len(), 3);
    assert_eq!(calls[0].program, "cppcheck");
    assert_eq!(
        calls[0].args,
        words(&[
            "--enable=warning,performance,portability",
            "--force",
            "--language=c++",
            "--std=c++20",
            "/work/demo/src/main.cc"
        ])
    );
    assert_eq!(
        calls[1].args,
        words(&[
            "-DCMAKE_BUILD_TYPE=Release",
            "-DBUILD_TESTING=ON",
            "-DSTATIC_CHECK=ON",
            "-S",
            ".",
            "-B",
            "/work/demo/build"
        ])
    );
    assert_eq!(calls[2].args, words(&["--build", "/work/demo/build", "-j", "4"]));
    assert_eq!(calls[2].stdout, Stream::Discard);
    assert_eq!(
        steps[15],
        Step::PrintElapsed(
            Clock::Whole,
            String::from("\x1b[1;32mAll checks passed\x1b[0m ("),
            String::from("s)\n\n")
        )
    );
}

#[test]
fn check_with_nothing_enabled_only_reports() {
    let steps = check(&config_default("/work/demo"), &Vec::new(), &Vec::new(), 4);
    assert_eq!(steps.len(), 4);
    assert!(runs(&steps).is_empty());
}

#[test]
fn check_runs_the_linter_with_its_arguments() {
    let mut config = config_default("/work/demo");
    config.cpplint = true;
    config.cpplint_args = String::from("--linelength=100, --verbose=3");
    let src = vec![file("/work/demo/src", "main.cc"), file("/work/demo/src", "notes.md")];
    let tests = vec![file("/work/demo/test", "t.h")];
    let steps = check(&config, &src, &tests, 4);
    assert_eq!(steps.len(), 8);
    assert_eq!(
        steps[3..7],
        [
            Step::Print(String::from("\x1b[0;35mRunning cpplint...\x1b[0m\n\n")),
            Step::StartClock(Clock::Part),
            Step::Run(Invocation {
                program: String::from("cpplint"),
                args: words(&[
                    "--linelength=100",
                    "--verbose=3",
                    "/work/demo/src/main.cc",
                    "/work/demo/test/t.h"
                ]),
                dir: Some(String::from("/work/demo")),
                env: Vec::new(),
                stdin: Stream::Discard,
                stdout: Stream::Inherit,
                stderr: Stream::Inherit,
            }),
            Step::PrintElapsed(
                Clock::Part,
                String::from("\n\x1b[1;32mcpplint passed\x1b[0m ("),
                String::from("s)\n\n")
            ),
        ]
    );
}

#[test]
fn check_runs_all_three_analyzers_in_sequence() {
    let mut config = project();
    config.cpplint = true;
    config.cppcheck_args = String::from("--inline-suppr");
    let src = vec![file("/work/demo/src", "main.cc")];
    let steps = check(&config, &src, &Vec::new(), 2);
    let calls = runs(&steps);
    let programs: Vec<&str> = calls.iter().map(|call| call.program.as_str()).collect();
    assert_eq!(programs, vec!["cpplint", "cppcheck", "cmake", "cmake"]);
    assert_eq!(calls[0].args, words(&["/work/demo/src/main.cc"]));
    assert_eq!(
        calls[1].args,
        words(&[
            "--enable=warning,performance,portability",
            "--force",
            "--language=c++",
            "--std=c++20",
            "--inline-suppr",
            "/work/demo/src/main.cc"
        ])
    );
}

#[test]
fn formatter_gets_the_extra_arguments_before_the_files() {
    let mut config = project();
    config.fmt_args = String::from("--sort-includes, --verbose");
    let src = vec![file("/work/demo/src", "main.cc")];
    match format_sources(&config, &src, &Vec::new()) {
        Step::Run(call) => assert_eq!(
            call.args,
            words(&["-style=google", "-i", "--sort-includes", "--verbose", "/work/demo/src/main.cc"])
        ),
        other => panic!("{:?}", other),
    }
    match format_sources(&config_default("/work/demo"), &src, &Vec::new()) {
        Step::Run(call) => {
            assert_eq!(call.args, words(&["-style=google", "-i", "-i", "/work/demo/src/main.cc"]))
        }
        other => panic!("{:?}", other),
    }
}

#[test]
fn run_without_sidecar_runs_only_what_is_named() {
    let config = run_config(None, "/work/here");
    assert_eq!(config.name, "");
    assert_eq!(config.build_dir, "/work/here/build");
    assert_eq!(run(&[], &config, true, true).unwrap_err(), CommandError::NoExecutable);
    assert_eq!(run(&words(&["./a.out"]), &config, true, false).unwrap().len(), 1);
    assert_eq!(run_config(Some(project()), "/work/here"), project());
}

#[test]
fn check_on_this_machine_is_check_for_some_count() {
    let steps = check_on_this_machine(&project(), &Vec::new(), &Vec::new());
    let jobs: usize = runs(&steps)[2].args[3].parse().unwrap();
    assert!(jobs >= 1);
    assert_eq!(steps, check(&project(), &Vec::new(), &Vec::new(), jobs));
}

#[test]
fn paths_of_a_project() {
    assert_eq!(deps_dir(&project()), "/work/demo/build/_deps");
    assert_eq!(target(&project()), "/work/demo/build/demo");
    assert_eq!(style_file(&project()), "/work/demo/.clang-format");
    assert_eq!(sidecar(&project()), "/work/demo/.gojo");
    assert_eq!(src_dir(&project()), "/work/demo/src");
    assert_eq!(test_dir(&project()), "/work/demo/test");
}

#[test]
fn help_is_the_usage_text() {
    assert_eq!(help(), HELP);
    assert!(help().contains("gojo <COMMAND> [OPTIONS]"));
    for word in ["init", "build", "run", "test", "clean", "fmt", "check", "help"] {
        assert!(help().contains(word));
    }
}

#[test]
fn subcommand_words() {
    assert_eq!(subcommand("init"), Some(Subcommand::Init));
    assert_eq!(subcommand("build"), Some(Subcommand::Build));
    assert_eq!(subcommand("run"), Some(Subcommand::Run));
    assert_eq!(subcommand("test"), Some(Subcommand::Test));
    assert_eq!(subcommand("clean"), Some(Subcommand::Clean));
    assert_eq!(subcommand("fmt"), Some(Subcommand::Fmt));
    assert_eq!(subcommand("check"), Some(Subcommand::Check));
    for word in ["help", "--help", "-h"] {
        assert_eq!(subcommand(word), Some(Subcommand::Help));
    }
    for word in ["", "lint", "install", "new-pr", "Init"] {
        assert_eq!(subcommand(word), None);
    }
    assert_eq!(Subcommand::Fmt.word(), "fmt");
    assert_eq!(
        unrecognized("lint"),
        "\x1b[31mincorrect usage:\x1b[0m \n\tcommand not recognized: lint\n"
    );
}

#[test]
fn error_messages() {
    assert_eq!(
        CommandError::MissingName.message(),
        "\x1b[31mincorrect usage:\x1b[0m\n\tgojo init <name> [options]\n\tsee 'gojo help init'\n"
    );
    assert_eq!(
        CommandError::BadValue(ValueFlag::Std).message(),
        "\x1b[31mincorrect usage:\x1b[0m\n\tunrecognized value for --std flag\n\tsee 'gojo init --help'\n"
    );
    assert_eq!(
        CommandError::BadValue(ValueFlag::HdrExtension).message(),
        "\x1b[31mincorrect usage:\x1b[0m\n\tunrecognized value for --header-extension flag\n\tsee 'gojo init --help'\n"
    );
    assert_eq!(
        CommandError::InvalidOption(Subcommand::Build, String::from("--fast")).message(),
        "\x1b[31mincorrect usage:\x1b[0m\n\tinvalid option '--fast'\n\tsee 'gojo build --help'\n"
    );
    assert_eq!(
        CommandError::UnknownStyle(String::from("mine")).message(),
        "\x1b[31mincorrect usage:\x1b[0m\n\tstyle not found: mine\n\tsee 'gojo fmt --help'\n"
    );
    assert_eq!(
        CommandError::NoStyleFile.message(),
        "\x1b[31mfile not found:\x1b[0m\n\tno .clang-format file found\n\tsee 'gojo fmt --help'\n"
    );
    assert_eq!(
        CommandError::NoBuildDirectory.message(),
        "\x1b[31mfile not found:\x1b[0m\n\tno build directory discovered for this project\n"
    );
    assert_eq!(
        CommandError::NoExecutable.message(),
        "\x1b[31mfile not found:\x1b[0m\n\tno executable target found\n"
    );
}
