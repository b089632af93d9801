//! The subcommands of the tool. Each one is a function from what the
//! tool knows (the arguments, the configuration, a few facts about the
//! file system) to the plan that carries the command out, or to the
//! error that ends it before anything is done.

use crate::args::{is_flag, parse_arguments, parsed, Flag, FlagView, ParsedArguments};
use crate::collect::{collect_src_files, collected, Entry};
use crate::config::{
    config_default, config_write, default_config, extra_args, extra_arguments, view_of, hdr_extension_default, is_cxx_std, is_fmt_style, is_hdr_extension,
    is_known_fmt_style, is_known_hdr_extension, is_known_src_extension, is_known_std,
    is_src_extension, rendered, src_exension_default, std_default, style_from_file, ConfigView,
    ProjectConfig, CONFIG_FILE, DEFAULT_BUILD_DIR,
};
use crate::outside::available_cpus;
use crate::plan::{
    invocation, optional_text, pair_texts, path_under, push_step, push_text, push_texts,
    step_views, under,
    Clock, CommandError, CommandErrorView, Invocation, InvocationView, Step, StepView, Stream,
    Subcommand, ValueFlag,
};
use crate::templates;
use crate::text::{chars_of, decimal, decimal_of, same_text, texts};
use vstd::prelude::*;
use vstd::slice::slice_subrange;
use vstd::string::*;

verus! {

broadcast use vstd::string::group_string_axioms;

/// The version of the build-system generator that new projects ask for.
pub const CMAKE_DEFAULT_VERSION: &'static str = "3.28";

/// What a subcommand says when it is asked for its own help.
pub const HELP_NOTICE: &'static str = "Oops! This command hasn't been implemented yet...\n";

/// What `init` makes of its flags.
#[derive(Debug)]
pub struct InitOptions {
    pub std: String,
    pub src_ext: String,
    pub hdr_ext: String,
    /// The build directory's path below the project's root.
    pub build_dir: String,
    pub create_tests: bool,
    pub quiet: bool,
    pub help: bool,
}

/// What the options of `init` are in contracts.
pub struct InitOptionsView {
    pub std: Seq<char>,
    pub src_ext: Seq<char>,
    pub hdr_ext: Seq<char>,
    pub build_dir: Seq<char>,
    pub create_tests: bool,
    pub quiet: bool,
    pub help: bool,
}

impl View for InitOptions {
    type V = InitOptionsView;

    open spec fn view(&self) -> InitOptionsView {
        InitOptionsView {
            std: self.std@,
            src_ext: self.src_ext@,
            hdr_ext: self.hdr_ext@,
            build_dir: self.build_dir@,
            create_tests: self.create_tests,
            quiet: self.quiet,
            help: self.help,
        }
    }
}

/// The options of an `init` without flags.
pub open spec fn default_init_options() -> InitOptionsView {
    InitOptionsView {
        std: "20"@,
        src_ext: "cc"@,
        hdr_ext: "h"@,
        build_dir: DEFAULT_BUILD_DIR@,
        create_tests: true,
        quiet: false,
        help: false,
    }
}

/// The options after one more flag, or the error that the flag is.
pub open spec fn init_flag(options: InitOptionsView, flag: FlagView) -> Result<
    InitOptionsView,
    CommandErrorView,
> {
    if flag.name == "--std"@ {
        match flag.value {
            Some(value) if is_cxx_std(value) => Ok(InitOptionsView { std: value, ..options }),
            _ => Err(CommandErrorView::BadValue(ValueFlag::Std)),
        }
    } else if flag.name == "--src-extension"@ || flag.name == "-s"@ {
        match flag.value {
            Some(value) if is_src_extension(value) => Ok(
                InitOptionsView { src_ext: value, ..options },
            ),
            _ => Err(CommandErrorView::BadValue(ValueFlag::SrcExtension)),
        }
    } else if flag.name == "--hdr-extension"@ || flag.name == "-h"@ {
        match flag.value {
            Some(value) if is_hdr_extension(value) => Ok(
                InitOptionsView { hdr_ext: value, ..options },
            ),
            _ => Err(CommandErrorView::BadValue(ValueFlag::HdrExtension)),
        }
    } else if flag.name == "--build-dir"@ || flag.name == "-b"@ {
        match flag.value {
            Some(value) => Ok(InitOptionsView { build_dir: value, ..options }),
            None => Err(CommandErrorView::BadValue(ValueFlag::BuildDir)),
        }
    } else if flag.name == "--no-test"@ {
        Ok(InitOptionsView { create_tests: false, ..options })
    } else if flag.name == "--quiet"@ || flag.name == "-q"@ {
        Ok(InitOptionsView { quiet: true, ..options })
    } else if flag.name == "--help"@ {
        Ok(InitOptionsView { help: true, ..options })
    } else {
        Err(CommandErrorView::InvalidOption(Subcommand::Init, flag.name))
    }
}

/// The options after the flags, taken in their order, or the error that
/// the first bad flag is.
pub open spec fn init_options_from(options: InitOptionsView, flags: Seq<FlagView>) -> Result<
    InitOptionsView,
    CommandErrorView,
>
    decreases flags.len(),
{
    if flags.len() == 0 {
        Ok(options)
    } else {
        match init_flag(options, flags[0]) {
            Ok(next) => init_options_from(next, flags.skip(1)),
            Err(error) => Err(error),
        }
    }
}

/// The record that `init` writes for the project `name` made in the
/// directory `cwd`.
pub open spec fn init_config(
    name: Seq<char>,
    cwd: Seq<char>,
    options: InitOptionsView,
) -> ConfigView {
    let root = path_under(cwd, name);
    ConfigView {
        project_root: root,
        build_dir: path_under(root, options.build_dir),
        name,
        std: options.std,
        src_ext: options.src_ext,
        hdr_ext: options.hdr_ext,
        fmt_style: "google"@,
        fmt_args: Seq::empty(),
        clang_tidy: true,
        cpplint: false,
        cppcheck: true,
        cpplint_args: Seq::empty(),
        cppcheck_args: Seq::empty(),
        quiet: false,
    }
}

/// The call that makes the project a repository.
pub open spec fn git_init(root: Seq<char>, quiet: bool) -> InvocationView {
    InvocationView {
        program: "git"@,
        args: seq!["init"@],
        dir: Some(root),
        env: Seq::empty(),
        stdin: Stream::Discard,
        stdout: if quiet {
            Stream::Discard
        } else {
            Stream::Inherit
        },
        stderr: Stream::Discard,
    }
}

/// What `init` says once the project stands.
pub open spec fn created_message(name: Seq<char>, root: Seq<char>) -> Seq<char> {
    "\n\x1b[1;32mCreated gojo project:\x1b[0m "@ + name + "\n\t\x1b[1;35mroot:\x1b[0m "@ + root
        + "\n\t\x1b[1;35mconfig:\x1b[0m "@ + root + "/.gojo\n"@
}

/// The directories and files of the new project, but for its tests.
pub open spec fn init_skeleton(name: Seq<char>, cwd: Seq<char>, options: InitOptionsView) -> Seq<
    StepView,
> {
    let config = init_config(name, cwd, options);
    let root = config.project_root;
    let cpp = options.src_ext;
    let hpp = options.hdr_ext;
    seq![
        StepView::CreateDir(root),
        StepView::CreateDir(path_under(root, "src"@)),
        StepView::CreateDir(path_under(root, "src/lib"@)),
        StepView::CreateDir(config.build_dir),
        StepView::WriteFile(
            path_under(root, "CMakeLists.txt"@),
            templates::root_cmake_lists_txt_text(name, options.std, cpp, CMAKE_DEFAULT_VERSION@),
        ),
        StepView::WriteFile(path_under(root, "src/main."@ + cpp), templates::main_src_text(hpp)),
        StepView::WriteFile(
            path_under(root, "src/lib/hello_world."@ + cpp),
            templates::lib_hello_world_src_text(hpp),
        ),
        StepView::WriteFile(
            path_under(root, "src/lib/hello_world."@ + hpp),
            templates::lib_hello_world_hdr_text(hpp),
        ),
        StepView::WriteFile(
            path_under(root, "src/lib/CMakeLists.txt"@),
            templates::lib_cmake_lists_txt_text(cpp),
        ),
        StepView::WriteFile(path_under(root, "README.md"@), templates::readme_text(name)),
        StepView::WriteFile(path_under(root, ".clang-tidy"@), templates::CLANG_TIDY@),
        StepView::WriteFile(path_under(root, ".gitignore"@), templates::GIT_IGNORE@),
    ]
}

/// The test directory of the new project.
pub open spec fn init_tests(root: Seq<char>, options: InitOptionsView) -> Seq<StepView> {
    seq![
        StepView::CreateDir(path_under(root, "test"@)),
        StepView::WriteFile(
            path_under(root, "test/hello_world_test."@ + options.src_ext),
            templates::test_hello_world_src_text(options.hdr_ext),
        ),
        StepView::WriteFile(
            path_under(root, "test/CMakeLists.txt"@),
            templates::test_cmake_lists_txt_text(options.src_ext),
        ),
    ]
}

/// The steps of `init`, in their order: the skeleton, the repository,
/// the tests unless they are left out, and the sidecar file last. A quiet
/// `init` prints nothing and silences the version-control tool.
pub open spec fn init_steps(name: Seq<char>, cwd: Seq<char>, options: InitOptionsView) -> Seq<
    StepView,
> {
    let config = init_config(name, cwd, options);
    let root = config.project_root;
    (if options.help {
        seq![StepView::Print(HELP_NOTICE@)]
    } else {
        Seq::empty()
    }) + init_skeleton(name, cwd, options) + (if options.quiet {
        Seq::empty()
    } else {
        seq![StepView::Print("\n\x1b[0;35mInitializing Git repository...\x1b[0m\n"@)]
    }) + seq![StepView::Run(git_init(root, options.quiet))] + (if options.create_tests {
        init_tests(root, options)
    } else {
        Seq::empty()
    }) + seq![StepView::WriteFile(path_under(root, CONFIG_FILE@), rendered(config))] + (
    if options.quiet {
        Seq::empty()
    } else {
        seq![StepView::Print(created_message(name, root))]
    })
}

/// What `init` is to do.
#[derive(Debug)]
pub struct InitPlan {
    /// The record that the sidecar file of the new project holds.
    pub config: ProjectConfig,
    pub steps: Vec<Step>,
}

/// What a plan of `init` is in contracts.
pub struct InitPlanView {
    pub config: ConfigView,
    pub steps: Seq<StepView>,
}

impl View for InitPlan {
    type V = InitPlanView;

    open spec fn view(&self) -> InitPlanView {
        InitPlanView { config: self.config@, steps: step_views(self.steps@) }
    }
}

/// What `init` comes to for the arguments `args`, the first of which is
/// the project's name, when the tool runs in the directory `cwd`.
pub open spec fn init_outcome(args: Seq<Seq<char>>, cwd: Seq<char>) -> Result<
    InitPlanView,
    CommandErrorView,
> {
    if args.len() == 0 {
        Err(CommandErrorView::MissingName)
    } else {
        match init_options_from(default_init_options(), parsed(args.skip(1))) {
            Ok(options) => Ok(
                InitPlanView {
                    config: init_config(args[0], cwd, options),
                    steps: init_steps(args[0], cwd, options),
                },
            ),
            Err(error) => Err(error),
        }
    }
}

/// The view of a result whose two sides have views.
pub open spec fn outcome_view<T: View, E: View>(r: Result<T, E>) -> Result<T::V, E::V> {
    match r {
        Ok(value) => Ok(value@),
        Err(error) => Err(error@),
    }
}

/// An error of usage: the command line is wrong, whatever the file
/// system holds.
pub open spec fn is_usage_error(error: CommandErrorView) -> bool {
    error is MissingName || error is BadValue || error is InvalidOption || error is UnknownStyle
}

/// A flag of `init` that names an enumerated field and gives it no legal
/// value.
pub open spec fn is_illegal_init_flag(flag: FlagView) -> bool {
    ||| flag.name == "--std"@ && !(flag.value is Some && is_cxx_std(flag.value->0))
    ||| (flag.name == "--src-extension"@ || flag.name == "-s"@) && !(flag.value is Some
        && is_src_extension(flag.value->0))
    ||| (flag.name == "--hdr-extension"@ || flag.name == "-h"@) && !(flag.value is Some
        && is_hdr_extension(flag.value->0))
}

/// The enumerated fields among the options of `init` hold legal values.
pub open spec fn init_options_legal(options: InitOptionsView) -> bool {
    is_cxx_std(options.std) && is_src_extension(options.src_ext) && is_hdr_extension(
        options.hdr_ext,
    )
}

proof fn lemma_init_flag_names()
    ensures
        "--std"@ != "--src-extension"@,
        "--std"@ != "-s"@,
        "--std"@ != "--hdr-extension"@,
        "--std"@ != "-h"@,
        "--src-extension"@ != "--hdr-extension"@,
        "--src-extension"@ != "-h"@,
        "-s"@ != "--hdr-extension"@,
        "-s"@ != "-h"@,
{
    reveal_strlit("--std");
    reveal_strlit("--src-extension");
    reveal_strlit("-s");
    reveal_strlit("--hdr-extension");
    reveal_strlit("-h");
    assert("--std"@.len() == 5);
    assert("-s"@.len() == 2);
    assert("-h"@.len() == 2);
    assert("--src-extension"@.len() == 15);
    assert("--hdr-extension"@.len() == 15);
    assert("-s"@[1] != "-h"@[1]);
    assert("--src-extension"@[2] != "--hdr-extension"@[2]);
}

/// The flags of `init` enforce the enumerations: one flag with a value
/// outside its legal set makes the whole command line an error of usage,
/// and options that come out of the flags hold legal values only.
pub proof fn lemma_init_options_enforce(options: InitOptionsView, flags: Seq<FlagView>)
    requires
        init_options_legal(options),
    ensures
        (exists|i: int| 0 <= i < flags.len() && is_illegal_init_flag(#[trigger] flags[i]))
            ==> init_options_from(options, flags) is Err,
        init_options_from(options, flags) matches Err(error) ==> is_usage_error(error),
        init_options_from(options, flags) matches Ok(made) ==> init_options_legal(made),
    decreases flags.len(),
{
    lemma_init_flag_names();
    if flags.len() > 0 {
        match init_flag(options, flags[0]) {
            Ok(next) => {
                let rest = flags.skip(1);
                lemma_init_options_enforce(next, rest);
                assert forall|i: int|
                    0 <= i < flags.len() && is_illegal_init_flag(
                        #[trigger] flags[i],
                    ) implies init_options_from(options, flags) is Err by {
                    assert(i > 0);
                    assert(rest[i - 1] == flags[i]);
                }
            },
            Err(_) => {},
        }
    }
}

/// `init` enforces the enumerations: an illegal value for the language
/// standard or for a suffix, anywhere among the flags, ends the command
/// with an error of usage before any step is planned, and the record of
/// every plan holds legal values.
pub proof fn lemma_init_enforces_enumerations(args: Seq<Seq<char>>, cwd: Seq<char>)
    ensures
        args.len() > 0 && (exists|i: int|
            0 <= i < parsed(args.skip(1)).len() && is_illegal_init_flag(
                #[trigger] parsed(args.skip(1))[i],
            )) ==> init_outcome(args, cwd) is Err,
        init_outcome(args, cwd) matches Err(error) ==> is_usage_error(error),
        init_outcome(args, cwd) matches Ok(plan) ==> plan.config.enumerations_legal(),
{
    if args.len() > 0 {
        lemma_init_options_enforce(default_init_options(), parsed(args.skip(1)));
    }
}

fn value_in(flag: &Flag) -> (r: Option<&str>)
    ensures
        r is Some == flag.value is Some,
        r is Some ==> r->0@ == flag.value->0@,
{
    match &flag.value {
        Some(value) => Some(value.as_str()),
        None => None,
    }
}

fn apply_init_flag(options: InitOptions, flag: &Flag) -> (r: Result<InitOptions, CommandError>)
    ensures
        outcome_view(r) == init_flag(options@, flag@),
{
    let mut options = options;
    let name = flag.name.as_str();
    let value = value_in(flag);
    if same_text(name, "--std") {
        match value {
            Some(value) if is_known_std(value) => {
                options.std = String::from_str(value);
                Ok(options)
            },
            _ => Err(CommandError::BadValue(ValueFlag::Std)),
        }
    } else if same_text(name, "--src-extension") || same_text(name, "-s") {
        match value {
            Some(value) if is_known_src_extension(value) => {
                options.src_ext = String::from_str(value);
                Ok(options)
            },
            _ => Err(CommandError::BadValue(ValueFlag::SrcExtension)),
        }
    } else if same_text(name, "--hdr-extension") || same_text(name, "-h") {
        match value {
            Some(value) if is_known_hdr_extension(value) => {
                options.hdr_ext = String::from_str(value);
                Ok(options)
            },
            _ => Err(CommandError::BadValue(ValueFlag::HdrExtension)),
        }
    } else if same_text(name, "--build-dir") || same_text(name, "-b") {
        match value {
            Some(value) => {
                options.build_dir = String::from_str(value);
                Ok(options)
            },
            None => Err(CommandError::BadValue(ValueFlag::BuildDir)),
        }
    } else if same_text(name, "--no-test") {
        options.create_tests = false;
        Ok(options)
    } else if same_text(name, "--quiet") || same_text(name, "-q") {
        options.quiet = true;
        Ok(options)
    } else if same_text(name, "--help") {
        options.help = true;
        Ok(options)
    } else {
        Err(CommandError::InvalidOption(Subcommand::Init, flag.name.clone()))
    }
}

/// What `init` makes of its flags.
pub fn init_options(flags: &ParsedArguments) -> (r: Result<InitOptions, CommandError>)
    ensures
        outcome_view(r) == init_options_from(default_init_options(), flags@),
{
    let mut options = InitOptions {
        std: String::from_str(std_default()),
        src_ext: String::from_str(src_exension_default()),
        hdr_ext: String::from_str(hdr_extension_default()),
        build_dir: String::from_str(DEFAULT_BUILD_DIR),
        create_tests: true,
        quiet: false,
        help: false,
    };
    let mut i: usize = 0;
    proof {
        assert(flags@.skip(0) == flags@);
    }
    while i < flags.len()
        invariant
            i <= flags@.len(),
            init_options_from(default_init_options(), flags@) == init_options_from(
                options@,
                flags@.skip(i as int),
            ),
        decreases flags@.len() - i,
    {
        proof {
            assert(flags@.skip(i as int)[0] == flags@[i as int]);
            assert(flags@.skip(i as int).skip(1) == flags@.skip(i + 1));
        }
        match apply_init_flag(options, flags.flag(i)) {
            Ok(next) => {
                options = next;
            },
            Err(error) => {
                return Err(error);
            },
        }
        i += 1;
    }
    Ok(options)
}

fn new_project_config(name: &str, cwd: &str, options: &InitOptions) -> (config: ProjectConfig)
    ensures
        config@ == init_config(name@, cwd@, options@),
{
    let root = under(cwd, name);
    let build_dir = under(root.as_str(), options.build_dir.as_str());
    ProjectConfig {
        project_root: root,
        build_dir,
        name: String::from_str(name),
        std: options.std.clone(),
        src_ext: options.src_ext.clone(),
        hdr_ext: options.hdr_ext.clone(),
        fmt_style: String::from_str("google"),
        fmt_args: String::new(),
        clang_tidy: true,
        cpplint: false,
        cppcheck: true,
        cpplint_args: String::new(),
        cppcheck_args: String::new(),
        quiet: false,
    }
}

fn push_skeleton(
    plan: &mut Vec<Step>,
    name: &str,
    cwd: &str,
    options: &InitOptions,
    config: &ProjectConfig,
)
    requires
        config@ == init_config(name@, cwd@, options@),
    ensures
        step_views(final(plan)@) == step_views(old(plan)@) + init_skeleton(
            name@,
            cwd@,
            options@,
        ),
{
    let root = config.project_root.as_str();
    let cpp = options.src_ext.as_str();
    let hpp = options.hdr_ext.as_str();
    push_step(plan, Step::CreateDir(String::from_str(root)));
    push_step(plan, Step::CreateDir(under(root, "src")));
    push_step(plan, Step::CreateDir(under(root, "src/lib")));
    push_step(plan, Step::CreateDir(config.build_dir.clone()));
    push_step(
        plan,
        Step::WriteFile(
            under(root, "CMakeLists.txt"),
            templates::root_cmake_lists_txt(name, options.std.as_str(), cpp, CMAKE_DEFAULT_VERSION),
        ),
    );
    push_step(
        plan,
        Step::WriteFile(
            under(root, String::from_str("src/main.").concat(cpp).as_str()),
            templates::main_src(hpp),
        ),
    );
    push_step(
        plan,
        Step::WriteFile(
            under(root, String::from_str("src/lib/hello_world.").concat(cpp).as_str()),
            templates::lib_hello_world_src(hpp),
        ),
    );
    push_step(
        plan,
        Step::WriteFile(
            under(root, String::from_str("src/lib/hello_world.").concat(hpp).as_str()),
            templates::lib_hello_world_hdr(hpp),
        ),
    );
    push_step(
        plan,
        Step::WriteFile(under(root, "src/lib/CMakeLists.txt"), templates::lib_cmake_lists_txt(cpp)),
    );
    push_step(plan, Step::WriteFile(under(root, "README.md"), templates::readme(name)));
    push_step(
        plan,
        Step::WriteFile(under(root, ".clang-tidy"), String::from_str(templates::CLANG_TIDY)),
    );
    push_step(
        plan,
        Step::WriteFile(under(root, ".gitignore"), String::from_str(templates::GIT_IGNORE)),
    );
    assert(step_views(plan@) =~= step_views(old(plan)@) + init_skeleton(name@, cwd@, options@));
}

fn push_tests(plan: &mut Vec<Step>, root: &str, options: &InitOptions)
    ensures
        step_views(final(plan)@) == step_views(old(plan)@) + init_tests(root@, options@),
{
    let cpp = options.src_ext.as_str();
    let hpp = options.hdr_ext.as_str();
    push_step(plan, Step::CreateDir(under(root, "test")));
    push_step(
        plan,
        Step::WriteFile(
            under(root, String::from_str("test/hello_world_test.").concat(cpp).as_str()),
            templates::test_hello_world_src(hpp),
        ),
    );
    push_step(
        plan,
        Step::WriteFile(under(root, "test/CMakeLists.txt"), templates::test_cmake_lists_txt(cpp)),
    );
    assert(step_views(plan@) =~= step_views(old(plan)@) + init_tests(root@, options@));
}

fn git_init_call(root: &str, quiet: bool) -> (r: Step)
    ensures
        r@ == StepView::Run(git_init(root@, quiet)),
{
    let mut args: Vec<String> = Vec::new();
    push_text(&mut args, String::from_str("init"));
    assert(texts(args@) =~= seq!["init"@]);
    let stdout = if quiet {
        Stream::Discard
    } else {
        Stream::Inherit
    };
    Step::Run(
        invocation(
            "git",
            args,
            Some(String::from_str(root)),
            Stream::Discard,
            stdout,
            Stream::Discard,
        ),
    )
}

fn created(name: &str, root: &str) -> (text: String)
    ensures
        text@ == created_message(name@, root@),
{
    String::from_str("\n\x1b[1;32mCreated gojo project:\x1b[0m ").concat(name).concat(
        "\n\t\x1b[1;35mroot:\x1b[0m ",
    ).concat(root).concat("\n\t\x1b[1;35mconfig:\x1b[0m ").concat(root).concat("/.gojo\n")
}

/// Plans a new project.
///
/// `args` are the arguments after the subcommand: the project's name,
/// then flags. `cwd` is the directory in which the tool runs; the project
/// becomes the directory of that name below it. Every flag is checked
/// before the plan is made, so a bad flag leaves the file system as it
/// was.
pub fn init(args: &[String], cwd: &str) -> (r: Result<InitPlan, CommandError>)
    ensures
        outcome_view(r) == init_outcome(texts(args@), cwd@),
{
    if args.len() == 0 {
        return Err(CommandError::MissingName);
    }
    let name: &str = args[0].as_str();
    let rest = slice_subrange(args, 1, args.len());
    assert(texts(rest@) =~= texts(args@).skip(1));
    let flags = parse_arguments(rest);
    let options = match init_options(&flags) {
        Ok(options) => options,
        Err(error) => {
            return Err(error);
        },
    };
    let config = new_project_config(name, cwd, &options);
    let root = config.project_root.as_str();
    let mut steps: Vec<Step> = Vec::new();
    assert(step_views(steps@) =~= Seq::empty());
    if options.help {
        push_step(&mut steps, Step::Print(String::from_str(HELP_NOTICE)));
    }
    push_skeleton(&mut steps, name, cwd, &options, &config);
    if !options.quiet {
        push_step(
            &mut steps,
            Step::Print(String::from_str("\n\x1b[0;35mInitializing Git repository...\x1b[0m\n")),
        );
    }
    push_step(&mut steps, git_init_call(root, options.quiet));
    if options.create_tests {
        push_tests(&mut steps, root, &options);
    }
    push_step(&mut steps, Step::WriteFile(under(root, CONFIG_FILE), config_write(&config)));
    if !options.quiet {
        push_step(&mut steps, Step::Print(created(name, root)));
    }
    assert(step_views(steps@) =~= init_steps(name@, cwd@, options@));
    Ok(InitPlan { config, steps })
}

/// What `build` makes of its flags.
#[derive(Debug, Clone, Copy, PartialEq, Eq)]
pub struct BuildOptions {
    pub release: bool,
    pub tests: bool,
    pub clean: bool,
    pub quiet: bool,
    pub help: bool,
}

impl View for BuildOptions {
    type V = BuildOptions;

    open spec fn view(&self) -> BuildOptions {
        *self
    }
}

/// The options of a `build` without flags.
pub open spec fn default_build_options() -> BuildOptions {
    BuildOptions { release: false, tests: false, clean: false, quiet: false, help: false }
}

/// The options after one more flag, or the error that the flag is.
pub open spec fn build_flag(options: BuildOptions, flag: FlagView) -> Result<
    BuildOptions,
    CommandErrorView,
> {
    if flag.name == "--release"@ || flag.name == "-r"@ {
        Ok(BuildOptions { release: true, ..options })
    } else if flag.name == "--tests"@ || flag.name == "-t"@ {
        Ok(BuildOptions { tests: true, ..options })
    } else if flag.name == "--clean"@ || flag.name == "-c"@ {
        Ok(BuildOptions { clean: true, ..options })
    } else if flag.name == "--quiet"@ || flag.name == "-q"@ {
        Ok(BuildOptions { quiet: true, ..options })
    } else if flag.name == "--help"@ {
        Ok(BuildOptions { help: true, ..options })
    } else {
        Err(CommandErrorView::InvalidOption(Subcommand::Build, flag.name))
    }
}

/// The options after the flags, taken in their order, or the error that
/// the first bad flag is.
pub open spec fn build_options_from(options: BuildOptions, flags: Seq<FlagView>) -> Result<
    BuildOptions,
    CommandErrorView,
>
    decreases flags.len(),
{
    if flags.len() == 0 {
        Ok(options)
    } else {
        match build_flag(options, flags[0]) {
            Ok(next) => build_options_from(next, flags.skip(1)),
            Err(error) => Err(error),
        }
    }
}

/// The word for the build mode.
pub open spec fn mode_word(release: bool) -> Seq<char> {
    if release {
        "Release"@
    } else {
        "Debug"@
    }
}

/// The call of the build-system generator: the mode flags first, then
/// the source directory, which is the project's root, and the build
/// directory. Its own chatter is dropped, its errors are shown.
pub open spec fn configure_call(config: ConfigView, release: bool, tests: bool) -> InvocationView {
    InvocationView {
        program: "cmake"@,
        args: seq![
            if tests {
                "-DBUILD_TESTING=ON"@
            } else {
                "-DBUILD_TESTING=OFF"@
            },
            "-DCMAKE_BUILD_TYPE="@ + mode_word(release),
            "-S"@,
            "."@,
            "-B"@,
            config.build_dir,
        ],
        dir: Some(config.project_root),
        env: Seq::empty(),
        stdin: Stream::Discard,
        stdout: Stream::Discard,
        stderr: Stream::Inherit,
    }
}

/// The call of the build-step runner, with as many jobs as there are
/// cores.
pub open spec fn compile_call(config: ConfigView, cores: nat, stdout: Stream) -> InvocationView {
    InvocationView {
        program: "cmake"@,
        args: seq!["--build"@, config.build_dir, "-j"@, decimal_of(cores)],
        dir: Some(config.project_root),
        env: Seq::empty(),
        stdin: Stream::Discard,
        stdout,
        stderr: Stream::Inherit,
    }
}

/// What is said before the generator runs.
pub open spec fn configuring_message(config: ConfigView) -> Seq<char> {
    "\x1b[0;35mInitializing CMake in\x1b[0m "@ + config.build_dir + "\n"@
}

/// What is said before the compiler runs.
pub open spec fn compiling_message(config: ConfigView, release: bool) -> Seq<char> {
    "\x1b[1;35mCompiling\x1b[0m "@ + config.name + " \x1b[1;35min\x1b[0m \x1b[1;36m"@ + mode_word(
        release,
    ) + "\x1b[0m \x1b[1;35mmode\x1b[0m\n\n"@
}

/// The steps of `build`: the build directory is made if it is missing,
/// the generator runs, then the build-step runner. A quiet build prints
/// nothing of its own and drops the runner's output but for errors; any
/// other build says what it does and how long the compiling took.
pub open spec fn build_steps(config: ConfigView, options: BuildOptions, cores: nat) -> Seq<
    StepView,
> {
    (if options.help {
        seq![StepView::Print(HELP_NOTICE@)]
    } else {
        Seq::empty()
    }) + seq![StepView::EnsureDir(config.build_dir)] + (if options.quiet {
        seq![
            StepView::Run(configure_call(config, options.release, options.tests)),
            StepView::Run(compile_call(config, cores, Stream::Discard)),
        ]
    } else {
        seq![
            StepView::Print("\n"@ + configuring_message(config)),
            StepView::Run(configure_call(config, options.release, options.tests)),
            StepView::Print(compiling_message(config, options.release)),
            StepView::StartClock(Clock::Whole),
            StepView::Run(compile_call(config, cores, Stream::Inherit)),
            StepView::PrintElapsed(
                Clock::Whole,
                "\n\x1b[1;32mBuild successful\x1b[0m ("@,
                "s)\n\n"@,
            ),
        ]
    })
}

/// What `build` is to do.
#[derive(Debug)]
pub struct BuildPlan {
    /// Whether the build directory is to be cleaned first, as `clean` does.
    pub clean_first: bool,
    pub steps: Vec<Step>,
}

/// What a plan of `build` is in contracts.
pub struct BuildPlanView {
    pub clean_first: bool,
    pub steps: Seq<StepView>,
}

impl View for BuildPlan {
    type V = BuildPlanView;

    open spec fn view(&self) -> BuildPlanView {
        BuildPlanView { clean_first: self.clean_first, steps: step_views(self.steps@) }
    }
}

/// What `build` comes to on a machine with `cores` cores.
pub open spec fn build_outcome(args: Seq<Seq<char>>, config: ConfigView, cores: nat) -> Result<
    BuildPlanView,
    CommandErrorView,
> {
    match build_options_from(default_build_options(), parsed(args)) {
        Ok(options) => Ok(
            BuildPlanView {
                clean_first: options.clean,
                steps: build_steps(config, options, cores),
            },
        ),
        Err(error) => Err(error),
    }
}

fn apply_build_flag(options: BuildOptions, flag: &Flag) -> (r: Result<BuildOptions, CommandError>)
    ensures
        outcome_view(r) == build_flag(options, flag@),
{
    let mut options = options;
    let name = flag.name.as_str();
    if same_text(name, "--release") || same_text(name, "-r") {
        options.release = true;
        Ok(options)
    } else if same_text(name, "--tests") || same_text(name, "-t") {
        options.tests = true;
        Ok(options)
    } else if same_text(name, "--clean") || same_text(name, "-c") {
        options.clean = true;
        Ok(options)
    } else if same_text(name, "--quiet") || same_text(name, "-q") {
        options.quiet = true;
        Ok(options)
    } else if same_text(name, "--help") {
        options.help = true;
        Ok(options)
    } else {
        Err(CommandError::InvalidOption(Subcommand::Build, flag.name.clone()))
    }
}

/// What `build` makes of its flags.
pub fn build_options(flags: &ParsedArguments) -> (r: Result<BuildOptions, CommandError>)
    ensures
        outcome_view(r) == build_options_from(default_build_options(), flags@),
{
    let mut options = BuildOptions {
        release: false,
        tests: false,
        clean: false,
        quiet: false,
        help: false,
    };
    let mut i: usize = 0;
    proof {
        assert(flags@.skip(0) == flags@);
    }
    while i < flags.len()
        invariant
            i <= flags@.len(),
            build_options_from(default_build_options(), flags@) == build_options_from(
                options,
                flags@.skip(i as int),
            ),
        decreases flags@.len() - i,
    {
        proof {
            assert(flags@.skip(i as int)[0] == flags@[i as int]);
            assert(flags@.skip(i as int).skip(1) == flags@.skip(i + 1));
        }
        match apply_build_flag(options, flags.flag(i)) {
            Ok(next) => {
                options = next;
            },
            Err(error) => {
                return Err(error);
            },
        }
        i += 1;
    }
    Ok(options)
}

fn mode_text(release: bool) -> (r: &'static str)
    ensures
        r@ == mode_word(release),
{
    if release {
        "Release"
    } else {
        "Debug"
    }
}

fn configure(config: &ProjectConfig, release: bool, tests: bool) -> (r: Step)
    ensures
        r@ == StepView::Run(configure_call(config@, release, tests)),
{
    let mut args: Vec<String> = Vec::new();
    let testing = if tests {
        "-DBUILD_TESTING=ON"
    } else {
        "-DBUILD_TESTING=OFF"
    };
    push_text(&mut args, String::from_str(testing));
    push_text(&mut args, String::from_str("-DCMAKE_BUILD_TYPE=").concat(mode_text(release)));
    push_text(&mut args, String::from_str("-S"));
    push_text(&mut args, String::from_str("."));
    push_text(&mut args, String::from_str("-B"));
    push_text(&mut args, config.build_dir.clone());
    assert(texts(args@) =~= configure_call(config@, release, tests).args);
    Step::Run(
        invocation(
            "cmake",
            args,
            Some(config.project_root.clone()),
            Stream::Discard,
            Stream::Discard,
            Stream::Inherit,
        ),
    )
}

fn compile(config: &ProjectConfig, cores: usize, stdout: Stream) -> (r: Step)
    ensures
        r@ == StepView::Run(compile_call(config@, cores as nat, stdout)),
{
    let mut args: Vec<String> = Vec::new();
    push_text(&mut args, String::from_str("--build"));
    push_text(&mut args, config.build_dir.clone());
    push_text(&mut args, String::from_str("-j"));
    push_text(&mut args, decimal(cores as u64));
    assert(texts(args@) =~= compile_call(config@, cores as nat, stdout).args);
    Step::Run(
        invocation(
            "cmake",
            args,
            Some(config.project_root.clone()),
            Stream::Discard,
            stdout,
            Stream::Inherit,
        ),
    )
}

fn configuring(config: &ProjectConfig) -> (text: String)
    ensures
        text@ == configuring_message(config@),
{
    String::from_str("\x1b[0;35mInitializing CMake in\x1b[0m ").concat(
        config.build_dir.as_str(),
    ).concat("\n")
}

fn compiling(config: &ProjectConfig, release: bool) -> (text: String)
    ensures
        text@ == compiling_message(config@, release),
{
    String::from_str("\x1b[1;35mCompiling\x1b[0m ").concat(config.name.as_str()).concat(
        " \x1b[1;35min\x1b[0m \x1b[1;36m",
    ).concat(mode_text(release)).concat("\x1b[0m \x1b[1;35mmode\x1b[0m\n\n")
}

/// Plans a build on a machine with `cores` cores.
///
/// `args` are the arguments after the subcommand. Every flag is checked
/// before the plan is made.
pub fn build(args: &[String], config: &ProjectConfig, cores: usize) -> (r: Result<
    BuildPlan,
    CommandError,
>)
    ensures
        outcome_view(r) == build_outcome(texts(args@), config@, cores as nat),
{
    let flags = parse_arguments(args);
    let options = match build_options(&flags) {
        Ok(options) => options,
        Err(error) => {
            return Err(error);
        },
    };
    let mut steps: Vec<Step> = Vec::new();
    assert(step_views(steps@) =~= Seq::empty());
    if options.help {
        push_step(&mut steps, Step::Print(String::from_str(HELP_NOTICE)));
    }
    push_step(&mut steps, Step::EnsureDir(config.build_dir.clone()));
    if options.quiet {
        push_step(&mut steps, configure(config, options.release, options.tests));
        push_step(&mut steps, compile(config, cores, Stream::Discard));
    } else {
        push_step(
            &mut steps,
            Step::Print(String::from_str("\n").concat(configuring(config).as_str())),
        );
        push_step(&mut steps, configure(config, options.release, options.tests));
        push_step(&mut steps, Step::Print(compiling(config, options.release)));
        push_step(&mut steps, Step::StartClock(Clock::Whole));
        push_step(&mut steps, compile(config, cores, Stream::Inherit));
        push_step(
            &mut steps,
            Step::PrintElapsed(
                Clock::Whole,
                String::from_str("\n\x1b[1;32mBuild successful\x1b[0m ("),
                String::from_str("s)\n\n"),
            ),
        );
    }
    assert(step_views(steps@) =~= build_steps(config@, options, cores as nat));
    Ok(BuildPlan { clean_first: options.clean, steps })
}

/// Plans a build on this machine: as `build` does, for the number of
/// cores that the machine reports, which is at least one.
pub fn build_on_this_machine(args: &[String], config: &ProjectConfig) -> (r: Result<
    BuildPlan,
    CommandError,
>)
    ensures
        exists|cores: nat| cores >= 1 && outcome_view(r) == #[trigger] build_outcome(
            texts(args@),
            config@,
            cores,
        ),
{
    let cores = available_cpus();
    build(args, config, cores)
}

/// Where the build directory keeps what it fetched for the project.
pub open spec fn deps_dir_of(config: ConfigView) -> Seq<char> {
    path_under(config.build_dir, "_deps"@)
}

/// Where that directory waits while the build directory is made anew.
pub open spec fn deps_stash_of(config: ConfigView) -> Seq<char> {
    path_under(config.project_root, "_deps"@)
}

/// The executable that the project builds.
pub open spec fn target_of(config: ConfigView) -> Seq<char> {
    path_under(config.build_dir, config.name)
}

/// The style file of the project.
pub open spec fn style_file_of(config: ConfigView) -> Seq<char> {
    path_under(config.project_root, ".clang-format"@)
}

/// The sidecar file of the project.
pub open spec fn sidecar_of(config: ConfigView) -> Seq<char> {
    path_under(config.project_root, CONFIG_FILE@)
}

/// The directory of the project's sources.
pub open spec fn src_dir_of(config: ConfigView) -> Seq<char> {
    path_under(config.project_root, "src"@)
}

/// The directory of the project's tests.
pub open spec fn test_dir_of(config: ConfigView) -> Seq<char> {
    path_under(config.project_root, "test"@)
}

/// Where the build directory keeps what it fetched for the project.
pub fn deps_dir(config: &ProjectConfig) -> (path: String)
    ensures
        path@ == deps_dir_of(config@),
{
    under(config.build_dir.as_str(), "_deps")
}

/// The executable that the project builds.
pub fn target(config: &ProjectConfig) -> (path: String)
    ensures
        path@ == target_of(config@),
{
    under(config.build_dir.as_str(), config.name.as_str())
}

/// The style file of the project.
pub fn style_file(config: &ProjectConfig) -> (path: String)
    ensures
        path@ == style_file_of(config@),
{
    under(config.project_root.as_str(), ".clang-format")
}

/// The sidecar file of the project.
pub fn sidecar(config: &ProjectConfig) -> (path: String)
    ensures
        path@ == sidecar_of(config@),
{
    under(config.project_root.as_str(), CONFIG_FILE)
}

/// The directory of the project's sources.
pub fn src_dir(config: &ProjectConfig) -> (path: String)
    ensures
        path@ == src_dir_of(config@),
{
    under(config.project_root.as_str(), "src")
}

/// The directory of the project's tests.
pub fn test_dir(config: &ProjectConfig) -> (path: String)
    ensures
        path@ == test_dir_of(config@),
{
    under(config.project_root.as_str(), "test")
}

/// The steps of `clean`: the build directory is removed and made anew.
/// Where it holds fetched dependencies, they are moved out first and
/// back in afterwards.
pub open spec fn clean_steps(config: ConfigView, deps_present: bool) -> Seq<StepView> {
    if deps_present {
        seq![
            StepView::EnsureDir(config.build_dir),
            StepView::Rename(deps_dir_of(config), deps_stash_of(config)),
            StepView::RemoveDirAll(config.build_dir),
            StepView::CreateDir(config.build_dir),
            StepView::Rename(deps_stash_of(config), deps_dir_of(config)),
        ]
    } else {
        seq![
            StepView::EnsureDir(config.build_dir),
            StepView::RemoveDirAll(config.build_dir),
            StepView::CreateDir(config.build_dir),
        ]
    }
}

/// Plans the cleaning of the build directory. `deps_present` says
/// whether the directory at `deps_dir` exists.
pub fn clean(config: &ProjectConfig, deps_present: bool) -> (steps: Vec<Step>)
    ensures
        step_views(steps@) == clean_steps(config@, deps_present),
{
    let mut steps: Vec<Step> = Vec::new();
    assert(step_views(steps@) =~= Seq::empty());
    push_step(&mut steps, Step::EnsureDir(config.build_dir.clone()));
    if deps_present {
        let stash = under(config.project_root.as_str(), "_deps");
        push_step(&mut steps, Step::Rename(deps_dir(config), stash.clone()));
        push_step(&mut steps, Step::RemoveDirAll(config.build_dir.clone()));
        push_step(&mut steps, Step::CreateDir(config.build_dir.clone()));
        push_step(&mut steps, Step::Rename(stash, deps_dir(config)));
    } else {
        push_step(&mut steps, Step::RemoveDirAll(config.build_dir.clone()));
        push_step(&mut steps, Step::CreateDir(config.build_dir.clone()));
    }
    assert(step_views(steps@) =~= clean_steps(config@, deps_present));
    steps
}

/// The call of the test runner: in the build directory, verbose, with
/// colours switched on through its environment.
pub open spec fn test_call(config: ConfigView) -> InvocationView {
    InvocationView {
        program: "ctest"@,
        args: seq!["-V"@],
        dir: Some(config.build_dir),
        env: seq![("GTEST_COLOR"@, "1"@)],
        stdin: Stream::Discard,
        stdout: Stream::Inherit,
        stderr: Stream::Discard,
    }
}

/// The steps of `test`.
pub open spec fn test_steps(config: ConfigView) -> Seq<StepView> {
    seq![
        StepView::EnsureDir(config.build_dir),
        StepView::Run(test_call(config)),
        StepView::Print("\n"@),
    ]
}

/// Plans a run of the project's tests.
pub fn test(config: &ProjectConfig) -> (steps: Vec<Step>)
    ensures
        step_views(steps@) == test_steps(config@),
{
    let mut args: Vec<String> = Vec::new();
    push_text(&mut args, String::from_str("-V"));
    assert(texts(args@) =~= seq!["-V"@]);
    let mut env: Vec<(String, String)> = Vec::new();
    env.push((String::from_str("GTEST_COLOR"), String::from_str("1")));
    assert(pair_texts(env@) =~= seq![("GTEST_COLOR"@, "1"@)]);
    let call = Invocation {
        program: String::from_str("ctest"),
        args,
        dir: Some(config.build_dir.clone()),
        env,
        stdin: Stream::Discard,
        stdout: Stream::Inherit,
        stderr: Stream::Discard,
    };
    let mut steps: Vec<Step> = Vec::new();
    assert(step_views(steps@) =~= Seq::empty());
    push_step(&mut steps, Step::EnsureDir(config.build_dir.clone()));
    push_step(&mut steps, Step::Run(call));
    push_step(&mut steps, Step::Print(String::from_str("\n")));
    assert(step_views(steps@) =~= test_steps(config@));
    steps
}

/// The record that `run` works with. Without a sidecar file it is the
/// default record without a name: `run` does not guess what the project
/// has built, so then only an executable named on the command line runs.
pub open spec fn run_config_of(read: Option<ConfigView>, cwd: Seq<char>) -> ConfigView {
    match read {
        Some(config) => config,
        None => ConfigView { name: Seq::empty(), ..default_config(cwd) },
    }
}

/// The record that `run` works with, given what `config_read` found and
/// the directory in which the tool runs.
pub fn run_config(read: Option<ProjectConfig>, cwd: &str) -> (config: ProjectConfig)
    ensures
        config@ == run_config_of(view_of(read), cwd@),
{
    match read {
        Some(config) => config,
        None => {
            let mut config = config_default(cwd);
            config.name = String::new();
            config
        },
    }
}

/// A call with all three streams handed down from the tool.
pub open spec fn attached_call(program: Seq<char>, args: Seq<Seq<char>>) -> InvocationView {
    InvocationView {
        program,
        args,
        dir: None,
        env: Seq::empty(),
        stdin: Stream::Inherit,
        stdout: Stream::Inherit,
        stderr: Stream::Inherit,
    }
}

/// Whether `run` was asked for its own help.
pub open spec fn asks_help(args: Seq<Seq<char>>) -> bool {
    args.len() > 0 && args[0] == "--help"@
}

/// What `run` comes to. Without a build directory there is nothing to
/// run. A first argument that is no flag names the executable, and the
/// arguments after it are handed on. Otherwise the project's own target
/// runs with all the arguments, if the project has a name and the target
/// exists.
pub open spec fn run_outcome(
    args: Seq<Seq<char>>,
    config: ConfigView,
    build_dir_present: bool,
    target_present: bool,
) -> Result<Seq<StepView>, CommandErrorView> {
    if !build_dir_present {
        Err(CommandErrorView::NoBuildDirectory)
    } else if args.len() > 0 && !is_flag(args[0]) {
        Ok(seq![StepView::Run(attached_call(args[0], args.skip(1)))])
    } else if config.name.len() > 0 && target_present {
        Ok(
            (if asks_help(args) {
                seq![StepView::Print(HELP_NOTICE@)]
            } else {
                Seq::empty()
            }) + seq![StepView::Run(attached_call(target_of(config), args))],
        )
    } else {
        Err(CommandErrorView::NoExecutable)
    }
}

/// The view of what `run` returns.
pub open spec fn steps_outcome_view(r: Result<Vec<Step>, CommandError>) -> Result<
    Seq<StepView>,
    CommandErrorView,
> {
    match r {
        Ok(steps) => Ok(step_views(steps@)),
        Err(error) => Err(error@),
    }
}

fn copy_texts(list: &[String]) -> (r: Vec<String>)
    ensures
        texts(r@) == texts(list@),
{
    let mut r: Vec<String> = Vec::new();
    let mut i: usize = 0;
    while i < list.len()
        invariant
            i <= list.len(),
            r.len() == i,
            forall|j: int| 0 <= j < i ==> r@[j]@ == list@[j]@,
        decreases list.len() - i,
    {
        r.push(list[i].clone());
        i += 1;
    }
    assert(texts(r@) =~= texts(list@));
    r
}

fn attached(program: String, args: Vec<String>) -> (r: Step)
    ensures
        r@ == StepView::Run(attached_call(program@, texts(args@))),
{
    let call = Invocation {
        program,
        args,
        dir: None,
        env: Vec::new(),
        stdin: Stream::Inherit,
        stdout: Stream::Inherit,
        stderr: Stream::Inherit,
    };
    assert(pair_texts(call.env@) =~= Seq::empty());
    Step::Run(call)
}

/// Plans the run of an executable. `build_dir_present` says whether the
/// project's build directory exists, `target_present` whether the file at
/// `target` does.
pub fn run(
    args: &[String],
    config: &ProjectConfig,
    build_dir_present: bool,
    target_present: bool,
) -> (r: Result<Vec<Step>, CommandError>)
    ensures
        steps_outcome_view(r) == run_outcome(
            texts(args@),
            config@,
            build_dir_present,
            target_present,
        ),
{
    if !build_dir_present {
        return Err(CommandError::NoBuildDirectory);
    }
    let mut steps: Vec<Step> = Vec::new();
    assert(step_views(steps@) =~= Seq::empty());
    if args.len() > 0 {
        let first = chars_of(args[0].as_str());
        if !(first.len() > 0 && first[0] == '-') {
            let rest = slice_subrange(args, 1, args.len());
            assert(texts(rest@) =~= texts(args@).skip(1));
            push_step(&mut steps, attached(args[0].clone(), copy_texts(rest)));
            assert(step_views(steps@) =~= seq![
                StepView::Run(attached_call(texts(args@)[0], texts(args@).skip(1))),
            ]);
            return Ok(steps);
        }
    }
    if config.name.as_str().unicode_len() > 0 && target_present {
        if args.len() > 0 && same_text(args[0].as_str(), "--help") {
            push_step(&mut steps, Step::Print(String::from_str(HELP_NOTICE)));
        }
        push_step(&mut steps, attached(target(config), copy_texts(args)));
        assert(step_views(steps@) =~= run_outcome(
            texts(args@),
            config@,
            build_dir_present,
            target_present,
        )->Ok_0);
        return Ok(steps);
    }
    Err(CommandError::NoExecutable)
}

/// What `fmt` makes of its flags.
#[derive(Debug)]
pub struct FmtOptions {
    /// The style named with `--style`.
    pub style: Option<String>,
    /// Whether the project's style file is to decide.
    pub file: bool,
    pub help: bool,
}

/// What the options of `fmt` are in contracts.
pub struct FmtOptionsView {
    pub style: Option<Seq<char>>,
    pub file: bool,
    pub help: bool,
}

impl View for FmtOptions {
    type V = FmtOptionsView;

    open spec fn view(&self) -> FmtOptionsView {
        FmtOptionsView { style: optional_text(self.style), file: self.file, help: self.help }
    }
}

/// The options of a `fmt` without flags.
pub open spec fn default_fmt_options() -> FmtOptionsView {
    FmtOptionsView { style: None, file: false, help: false }
}

/// The options after one more flag, or the error that the flag is.
/// Formatting is always done in place, so the flag that asks for it
/// changes nothing.
pub open spec fn fmt_flag(options: FmtOptionsView, flag: FlagView) -> Result<
    FmtOptionsView,
    CommandErrorView,
> {
    if flag.name == "--style"@ {
        match flag.value {
            Some(value) if is_fmt_style(value) => Ok(
                FmtOptionsView { style: Some(value), ..options },
            ),
            Some(value) => Err(CommandErrorView::UnknownStyle(value)),
            None => Err(CommandErrorView::UnknownStyle(Seq::empty())),
        }
    } else if flag.name == "--file"@ {
        Ok(FmtOptionsView { file: true, ..options })
    } else if flag.name == "--in-place"@ || flag.name == "-i"@ {
        Ok(options)
    } else if flag.name == "--help"@ {
        Ok(FmtOptionsView { help: true, ..options })
    } else {
        Err(CommandErrorView::InvalidOption(Subcommand::Fmt, flag.name))
    }
}

/// The options after the flags, taken in their order, or the error that
/// the first bad flag is.
pub open spec fn fmt_options_from(options: FmtOptionsView, flags: Seq<FlagView>) -> Result<
    FmtOptionsView,
    CommandErrorView,
>
    decreases flags.len(),
{
    if flags.len() == 0 {
        Ok(options)
    } else {
        match fmt_flag(options, flags[0]) {
            Ok(next) => fmt_options_from(next, flags.skip(1)),
            Err(error) => Err(error),
        }
    }
}

/// The style that `fmt` formats with: the style file's if it was asked
/// for, else the one named by flag, else the one the project keeps, else
/// `google`.
pub open spec fn effective_style(config: ConfigView, options: FmtOptionsView) -> Seq<char> {
    if options.file {
        style_from_file()
    } else if options.style is Some {
        options.style->0
    } else if config.fmt_style.len() > 0 {
        config.fmt_style
    } else {
        "google"@
    }
}

/// The record that `fmt` writes back: the project's, with the style that
/// was formatted with.
pub open spec fn restyled(config: ConfigView, options: FmtOptionsView) -> ConfigView {
    ConfigView { fmt_style: effective_style(config, options), ..config }
}

/// What `fmt` is to do before it formats.
#[derive(Debug)]
pub struct FmtPlan {
    /// The project's record with the style that is formatted with.
    pub config: ProjectConfig,
    pub steps: Vec<Step>,
}

/// What a plan of `fmt` is in contracts.
pub struct FmtPlanView {
    pub config: ConfigView,
    pub steps: Seq<StepView>,
}

impl View for FmtPlan {
    type V = FmtPlanView;

    open spec fn view(&self) -> FmtPlanView {
        FmtPlanView { config: self.config@, steps: step_views(self.steps@) }
    }
}

/// What `fmt` comes to: it fails on a bad flag, and where the style file
/// is asked for and missing; else it writes the style back to the sidecar
/// file.
pub open spec fn fmt_outcome(
    args: Seq<Seq<char>>,
    config: ConfigView,
    style_file_present: bool,
) -> Result<FmtPlanView, CommandErrorView> {
    match fmt_options_from(default_fmt_options(), parsed(args)) {
        Ok(options) => if options.file && !style_file_present {
            Err(CommandErrorView::NoStyleFile)
        } else {
            let kept = restyled(config, options);
            Ok(
                FmtPlanView {
                    config: kept,
                    steps: (if options.help {
                        seq![StepView::Print(HELP_NOTICE@)]
                    } else {
                        Seq::empty()
                    }) + seq![StepView::WriteFile(sidecar_of(kept), rendered(kept))],
                },
            )
        },
        Err(error) => Err(error),
    }
}

/// A flag of `fmt` that names a style outside the legal set, or none.
pub open spec fn is_illegal_fmt_flag(flag: FlagView) -> bool {
    flag.name == "--style"@ && !(flag.value is Some && is_fmt_style(flag.value->0))
}

/// The style among the options of `fmt`, if there is one, is legal.
pub open spec fn fmt_options_legal(options: FmtOptionsView) -> bool {
    options.style matches Some(style) ==> is_fmt_style(style)
}

/// The flags of `fmt` enforce the enumeration of styles: one `--style`
/// with a value outside the legal set makes the whole command line an
/// error of usage, and a style that comes out of the flags is legal.
pub proof fn lemma_fmt_options_enforce(options: FmtOptionsView, flags: Seq<FlagView>)
    requires
        fmt_options_legal(options),
    ensures
        (exists|i: int| 0 <= i < flags.len() && is_illegal_fmt_flag(#[trigger] flags[i]))
            ==> fmt_options_from(options, flags) is Err,
        fmt_options_from(options, flags) matches Err(error) ==> is_usage_error(error),
        fmt_options_from(options, flags) matches Ok(made) ==> fmt_options_legal(made),
    decreases flags.len(),
{
    if flags.len() > 0 {
        match fmt_flag(options, flags[0]) {
            Ok(next) => {
                let rest = flags.skip(1);
                lemma_fmt_options_enforce(next, rest);
                assert forall|i: int|
                    0 <= i < flags.len() && is_illegal_fmt_flag(
                        #[trigger] flags[i],
                    ) implies fmt_options_from(options, flags) is Err by {
                    assert(i > 0);
                    assert(rest[i - 1] == flags[i]);
                }
            },
            Err(_) => {},
        }
    }
}

/// `fmt` enforces the enumeration of styles: an illegal style anywhere
/// among the flags ends the command with an error of usage before
/// anything is written, and what is written back for a project whose
/// enumerated fields were legal, or whose style was empty, is legal again.
pub proof fn lemma_fmt_enforces_enumerations(
    args: Seq<Seq<char>>,
    config: ConfigView,
    style_file_present: bool,
)
    ensures
        (exists|i: int|
            0 <= i < parsed(args).len() && is_illegal_fmt_flag(#[trigger] parsed(args)[i]))
            ==> (fmt_outcome(args, config, style_file_present) matches Err(error)
            && is_usage_error(error)),
        (is_fmt_style(config.fmt_style) || config.fmt_style == style_from_file()
            || config.fmt_style.len() == 0) ==> (fmt_outcome(
            args,
            config,
            style_file_present,
        ) matches Ok(plan) ==> is_fmt_style(plan.config.fmt_style) || plan.config.fmt_style
            == style_from_file()),
{
    lemma_fmt_options_enforce(default_fmt_options(), parsed(args));
}

/// The style that `fmt` formats with is the one that the next `fmt`
/// without flags formats with: what was chosen once stays chosen.
pub proof fn lemma_style_persists(config: ConfigView, options: FmtOptionsView)
    requires
        fmt_options_legal(options),
    ensures
        effective_style(restyled(config, options), default_fmt_options()) == effective_style(
            config,
            options,
        ),
{
    reveal_strlit("file");
    reveal_strlit("google");
    reveal_strlit("llvm");
    reveal_strlit("chromium");
    reveal_strlit("mozilla");
    reveal_strlit("webkit");
    reveal_strlit("microsoft");
    reveal_strlit("gnu");
}

fn apply_fmt_flag(options: FmtOptions, flag: &Flag) -> (r: Result<FmtOptions, CommandError>)
    ensures
        outcome_view(r) == fmt_flag(options@, flag@),
{
    let mut options = options;
    let name = flag.name.as_str();
    if same_text(name, "--style") {
        match value_in(flag) {
            Some(value) => {
                if is_known_fmt_style(value) {
                    options.style = Some(String::from_str(value));
                    Ok(options)
                } else {
                    Err(CommandError::UnknownStyle(String::from_str(value)))
                }
            },
            None => Err(CommandError::UnknownStyle(String::new())),
        }
    } else if same_text(name, "--file") {
        options.file = true;
        Ok(options)
    } else if same_text(name, "--in-place") || same_text(name, "-i") {
        Ok(options)
    } else if same_text(name, "--help") {
        options.help = true;
        Ok(options)
    } else {
        Err(CommandError::InvalidOption(Subcommand::Fmt, flag.name.clone()))
    }
}

/// What `fmt` makes of its arguments.
pub fn fmt_options(args: &[String]) -> (r: Result<FmtOptions, CommandError>)
    ensures
        outcome_view(r) == fmt_options_from(default_fmt_options(), parsed(texts(args@))),
{
    let flags = parse_arguments(args);
    let mut options = FmtOptions { style: None, file: false, help: false };
    let mut i: usize = 0;
    proof {
        assert(flags@.skip(0) == flags@);
    }
    while i < flags.len()
        invariant
            i <= flags@.len(),
            flags@ == parsed(texts(args@)),
            fmt_options_from(default_fmt_options(), flags@) == fmt_options_from(
                options@,
                flags@.skip(i as int),
            ),
        decreases flags@.len() - i,
    {
        proof {
            assert(flags@.skip(i as int)[0] == flags@[i as int]);
            assert(flags@.skip(i as int).skip(1) == flags@.skip(i + 1));
        }
        match apply_fmt_flag(options, flags.flag(i)) {
            Ok(next) => {
                options = next;
            },
            Err(error) => {
                return Err(error);
            },
        }
        i += 1;
    }
    Ok(options)
}

/// Plans what `fmt` does before it formats. `style_file_present` says
/// whether the file at `style_file` exists; it matters only where
/// `--file` is among the flags.
pub fn fmt(args: &[String], config: &ProjectConfig, style_file_present: bool) -> (r: Result<
    FmtPlan,
    CommandError,
>)
    ensures
        outcome_view(r) == fmt_outcome(texts(args@), config@, style_file_present),
{
    let options = match fmt_options(args) {
        Ok(options) => options,
        Err(error) => {
            return Err(error);
        },
    };
    if options.file && !style_file_present {
        return Err(CommandError::NoStyleFile);
    }
    let style = if options.file {
        String::from_str("file")
    } else {
        match &options.style {
            Some(style) => style.clone(),
            None => if config.fmt_style.as_str().unicode_len() > 0 {
                config.fmt_style.clone()
            } else {
                String::from_str("google")
            },
        }
    };
    let mut kept = config.clone();
    kept.fmt_style = style;
    assert(kept@ == restyled(config@, options@));
    let mut steps: Vec<Step> = Vec::new();
    assert(step_views(steps@) =~= Seq::empty());
    if options.help {
        push_step(&mut steps, Step::Print(String::from_str(HELP_NOTICE)));
    }
    push_step(&mut steps, Step::WriteFile(sidecar(&kept), config_write(&kept)));
    assert(step_views(steps@) =~= fmt_outcome(
        texts(args@),
        config@,
        style_file_present,
    )->Ok_0.steps);
    Ok(FmtPlan { config: kept, steps })
}

/// The call of the formatter: the style, the flag for formatting in
/// place, the extra arguments that the project keeps for the formatter,
/// then the files.
pub open spec fn format_call(config: ConfigView, sources: Seq<Seq<char>>) -> InvocationView {
    InvocationView {
        program: "clang-format"@,
        args: seq!["-style="@ + config.fmt_style, "-i"@] + extra_arguments(config.fmt_args)
            + sources,
        dir: Some(config.project_root),
        env: Seq::empty(),
        stdin: Stream::Discard,
        stdout: Stream::Inherit,
        stderr: Stream::Inherit,
    }
}

/// The formatting itself, over the files collected from the project's
/// sources and tests. `src_tree` is what the source directory holds,
/// `test_tree` what the test directory holds.
pub fn format_sources(config: &ProjectConfig, src_tree: &Vec<Entry>, test_tree: &Vec<Entry>) -> (r:
    Step)
    ensures
        r@ == StepView::Run(
            format_call(
                config@,
                collected(src_tree@, config@.src_ext, config@.hdr_ext) + collected(
                    test_tree@,
                    config@.src_ext,
                    config@.hdr_ext,
                ),
            ),
        ),
{
    let mut args: Vec<String> = Vec::new();
    push_text(&mut args, String::from_str("-style=").concat(config.fmt_style.as_str()));
    push_text(&mut args, String::from_str("-i"));
    push_texts(&mut args, extra_args(config.fmt_args.as_str()));
    collect_src_files(src_tree, config.src_ext.as_str(), config.hdr_ext.as_str(), &mut args);
    collect_src_files(test_tree, config.src_ext.as_str(), config.hdr_ext.as_str(), &mut args);
    assert(texts(args@) =~= seq!["-style="@ + config@.fmt_style, "-i"@] + extra_arguments(
        config@.fmt_args,
    ) + (collected(src_tree@, config@.src_ext, config@.hdr_ext) + collected(
        test_tree@,
        config@.src_ext,
        config@.hdr_ext,
    )));
    Step::Run(
        invocation(
            "clang-format",
            args,
            Some(config.project_root.clone()),
            Stream::Discard,
            Stream::Inherit,
            Stream::Inherit,
        ),
    )
}

/// The call of the linter over `sources`: the extra arguments that the
/// project keeps for the linter, then the files.
pub open spec fn cpplint_call(config: ConfigView, sources: Seq<Seq<char>>) -> InvocationView {
    InvocationView {
        program: "cpplint"@,
        args: extra_arguments(config.cpplint_args) + sources,
        dir: Some(config.project_root),
        env: Seq::empty(),
        stdin: Stream::Discard,
        stdout: Stream::Inherit,
        stderr: Stream::Inherit,
    }
}

/// The call of the static checker over `sources`: its fixed arguments,
/// the extra arguments that the project keeps for the checker, then the
/// files.
pub open spec fn cppcheck_call(config: ConfigView, sources: Seq<Seq<char>>) -> InvocationView {
    InvocationView {
        program: "cppcheck"@,
        args: seq![
            "--enable=warning,performance,portability"@,
            "--force"@,
            "--language=c++"@,
            "--std=c++"@ + config.std,
        ] + extra_arguments(config.cppcheck_args) + sources,
        dir: Some(config.project_root),
        env: Seq::empty(),
        stdin: Stream::Discard,
        stdout: Stream::Inherit,
        stderr: Stream::Inherit,
    }
}

/// The call of the generator for the analyzer that runs with the
/// compiler: a release build with tests and the static check switched on.
pub open spec fn analysis_configure_call(config: ConfigView) -> InvocationView {
    InvocationView {
        program: "cmake"@,
        args: seq![
            "-DCMAKE_BUILD_TYPE=Release"@,
            "-DBUILD_TESTING=ON"@,
            "-DSTATIC_CHECK=ON"@,
            "-S"@,
            "."@,
            "-B"@,
            config.build_dir,
        ],
        dir: Some(config.project_root),
        env: Seq::empty(),
        stdin: Stream::Discard,
        stdout: Stream::Discard,
        stderr: Stream::Inherit,
    }
}

/// The part of `check` for the linter.
pub open spec fn cpplint_steps(config: ConfigView, sources: Seq<Seq<char>>) -> Seq<StepView> {
    seq![
        StepView::Print("\x1b[0;35mRunning cpplint...\x1b[0m\n\n"@),
        StepView::StartClock(Clock::Part),
        StepView::Run(cpplint_call(config, sources)),
        StepView::PrintElapsed(Clock::Part, "\n\x1b[1;32mcpplint passed\x1b[0m ("@, "s)\n\n"@),
    ]
}

/// The part of `check` for the static checker.
pub open spec fn cppcheck_steps(config: ConfigView, sources: Seq<Seq<char>>) -> Seq<StepView> {
    seq![
        StepView::Print("\x1b[0;35mRunning cppcheck...\x1b[0m\n\n"@),
        StepView::StartClock(Clock::Part),
        StepView::Run(cppcheck_call(config, sources)),
        StepView::PrintElapsed(Clock::Part, "\n\x1b[1;32mcppcheck passed\x1b[0m ("@, "s)\n\n"@),
    ]
}

/// The part of `check` for the analyzer that runs with the compiler: the
/// build system is generated anew and the project is built in release
/// mode.
pub open spec fn clang_tidy_steps(config: ConfigView, cores: nat) -> Seq<StepView> {
    seq![
        StepView::Print("\x1b[0;35mRunning clang-tidy...\x1b[0m\n\n"@),
        StepView::Print(configuring_message(config)),
        StepView::StartClock(Clock::Part),
        StepView::Run(analysis_configure_call(config)),
        StepView::Print(compiling_message(config, true)),
        StepView::Run(compile_call(config, cores, Stream::Discard)),
        StepView::PrintElapsed(Clock::Part, "\x1b[1;32mBuild successful\x1b[0m ("@, "s)\n\n"@),
        StepView::PrintElapsed(Clock::Part, "\x1b[1;32mclang-tidy passed\x1b[0m ("@, "s)\n"@),
    ]
}

/// The steps of `check` over the files `sources`: the analyzers that the
/// project has switched on, one after the other, each timed, and the
/// time of all at the end.
pub open spec fn check_steps(config: ConfigView, sources: Seq<Seq<char>>, cores: nat) -> Seq<
    StepView,
> {
    seq![
        StepView::EnsureDir(config.build_dir),
        StepView::Print("\x1b[1;35mRunning checks...\x1b[0m\n"@),
        StepView::StartClock(Clock::Whole),
    ] + (if config.cpplint {
        cpplint_steps(config, sources)
    } else {
        Seq::empty()
    }) + (if config.cppcheck {
        cppcheck_steps(config, sources)
    } else {
        Seq::empty()
    }) + (if config.clang_tidy {
        clang_tidy_steps(config, cores)
    } else {
        Seq::empty()
    }) + seq![
        StepView::PrintElapsed(Clock::Whole, "\x1b[1;32mAll checks passed\x1b[0m ("@, "s)\n\n"@),
    ]
}

fn push_cpplint(
    plan: &mut Vec<Step>,
    config: &ProjectConfig,
    src_tree: &Vec<Entry>,
    test_tree: &Vec<Entry>,
)
    ensures
        step_views(final(plan)@) == step_views(old(plan)@) + cpplint_steps(
            config@,
            collected(src_tree@, config@.src_ext, config@.hdr_ext) + collected(
                test_tree@,
                config@.src_ext,
                config@.hdr_ext,
            ),
        ),
{
    let ghost sources = collected(src_tree@, config@.src_ext, config@.hdr_ext) + collected(
        test_tree@,
        config@.src_ext,
        config@.hdr_ext,
    );
    let mut args: Vec<String> = extra_args(config.cpplint_args.as_str());
    collect_src_files(src_tree, config.src_ext.as_str(), config.hdr_ext.as_str(), &mut args);
    collect_src_files(test_tree, config.src_ext.as_str(), config.hdr_ext.as_str(), &mut args);
    assert(texts(args@) =~= cpplint_call(config@, sources).args);
    let call = invocation(
        "cpplint",
        args,
        Some(config.project_root.clone()),
        Stream::Discard,
        Stream::Inherit,
        Stream::Inherit,
    );
    push_step(plan, Step::Print(String::from_str("\x1b[0;35mRunning cpplint...\x1b[0m\n\n")));
    push_step(plan, Step::StartClock(Clock::Part));
    push_step(plan, Step::Run(call));
    push_step(
        plan,
        Step::PrintElapsed(
            Clock::Part,
            String::from_str("\n\x1b[1;32mcpplint passed\x1b[0m ("),
            String::from_str("s)\n\n"),
        ),
    );
    assert(step_views(plan@) =~= step_views(old(plan)@) + cpplint_steps(config@, sources));
}

fn push_cppcheck(
    plan: &mut Vec<Step>,
    config: &ProjectConfig,
    src_tree: &Vec<Entry>,
    test_tree: &Vec<Entry>,
)
    ensures
        step_views(final(plan)@) == step_views(old(plan)@) + cppcheck_steps(
            config@,
            collected(src_tree@, config@.src_ext, config@.hdr_ext) + collected(
                test_tree@,
                config@.src_ext,
                config@.hdr_ext,
            ),
        ),
{
    let ghost sources = collected(src_tree@, config@.src_ext, config@.hdr_ext) + collected(
        test_tree@,
        config@.src_ext,
        config@.hdr_ext,
    );
    let mut args: Vec<String> = Vec::new();
    push_text(&mut args, String::from_str("--enable=warning,performance,portability"));
    push_text(&mut args, String::from_str("--force"));
    push_text(&mut args, String::from_str("--language=c++"));
    push_text(&mut args, String::from_str("--std=c++").concat(config.std.as_str()));
    push_texts(&mut args, extra_args(config.cppcheck_args.as_str()));
    collect_src_files(src_tree, config.src_ext.as_str(), config.hdr_ext.as_str(), &mut args);
    collect_src_files(test_tree, config.src_ext.as_str(), config.hdr_ext.as_str(), &mut args);
    assert(texts(args@) =~= cppcheck_call(config@, sources).args);
    let call = invocation(
        "cppcheck",
        args,
        Some(config.project_root.clone()),
        Stream::Discard,
        Stream::Inherit,
        Stream::Inherit,
    );
    push_step(plan, Step::Print(String::from_str("\x1b[0;35mRunning cppcheck...\x1b[0m\n\n")));
    push_step(plan, Step::StartClock(Clock::Part));
    push_step(plan, Step::Run(call));
    push_step(
        plan,
        Step::PrintElapsed(
            Clock::Part,
            String::from_str("\n\x1b[1;32mcppcheck passed\x1b[0m ("),
            String::from_str("s)\n\n"),
        ),
    );
    assert(step_views(plan@) =~= step_views(old(plan)@) + cppcheck_steps(config@, sources));
}

fn push_clang_tidy(plan: &mut Vec<Step>, config: &ProjectConfig, cores: usize)
    ensures
        step_views(final(plan)@) == step_views(old(plan)@) + clang_tidy_steps(
            config@,
            cores as nat,
        ),
{
    let mut args: Vec<String> = Vec::new();
    push_text(&mut args, String::from_str("-DCMAKE_BUILD_TYPE=Release"));
    push_text(&mut args, String::from_str("-DBUILD_TESTING=ON"));
    push_text(&mut args, String::from_str("-DSTATIC_CHECK=ON"));
    push_text(&mut args, String::from_str("-S"));
    push_text(&mut args, String::from_str("."));
    push_text(&mut args, String::from_str("-B"));
    push_text(&mut args, config.build_dir.clone());
    assert(texts(args@) =~= analysis_configure_call(config@).args);
    let call = invocation(
        "cmake",
        args,
        Some(config.project_root.clone()),
        Stream::Discard,
        Stream::Discard,
        Stream::Inherit,
    );
    push_step(plan, Step::Print(String::from_str("\x1b[0;35mRunning clang-tidy...\x1b[0m\n\n")));
    push_step(plan, Step::Print(configuring(config)));
    push_step(plan, Step::StartClock(Clock::Part));
    push_step(plan, Step::Run(call));
    push_step(plan, Step::Print(compiling(config, true)));
    push_step(plan, compile(config, cores, Stream::Discard));
    push_step(
        plan,
        Step::PrintElapsed(
            Clock::Part,
            String::from_str("\x1b[1;32mBuild successful\x1b[0m ("),
            String::from_str("s)\n\n"),
        ),
    );
    push_step(
        plan,
        Step::PrintElapsed(
            Clock::Part,
            String::from_str("\x1b[1;32mclang-tidy passed\x1b[0m ("),
            String::from_str("s)\n"),
        ),
    );
    assert(step_views(plan@) =~= step_views(old(plan)@) + clang_tidy_steps(config@, cores as nat));
}

/// Plans the checks of a project on a machine with `cores` cores.
/// `src_tree` is what the source directory holds, `test_tree` what the
/// test directory holds; both matter only where the linter or the static
/// checker is switched on.
pub fn check(
    config: &ProjectConfig,
    src_tree: &Vec<Entry>,
    test_tree: &Vec<Entry>,
    cores: usize,
) -> (steps: Vec<Step>)
    ensures
        step_views(steps@) == check_steps(
            config@,
            collected(src_tree@, config@.src_ext, config@.hdr_ext) + collected(
                test_tree@,
                config@.src_ext,
                config@.hdr_ext,
            ),
            cores as nat,
        ),
{
    let mut steps: Vec<Step> = Vec::new();
    assert(step_views(steps@) =~= Seq::empty());
    push_step(&mut steps, Step::EnsureDir(config.build_dir.clone()));
    push_step(&mut steps, Step::Print(String::from_str("\x1b[1;35mRunning checks...\x1b[0m\n")));
    push_step(&mut steps, Step::StartClock(Clock::Whole));
    if config.cpplint {
        push_cpplint(&mut steps, config, src_tree, test_tree);
    }
    if config.cppcheck {
        push_cppcheck(&mut steps, config, src_tree, test_tree);
    }
    if config.clang_tidy {
        push_clang_tidy(&mut steps, config, cores);
    }
    push_step(
        &mut steps,
        Step::PrintElapsed(
            Clock::Whole,
            String::from_str("\x1b[1;32mAll checks passed\x1b[0m ("),
            String::from_str("s)\n\n"),
        ),
    );
    assert(step_views(steps@) =~= check_steps(
        config@,
        collected(src_tree@, config@.src_ext, config@.hdr_ext) + collected(
            test_tree@,
            config@.src_ext,
            config@.hdr_ext,
        ),
        cores as nat,
    ));
    steps
}

/// Plans the checks of a project on this machine: as `check` does, for
/// the number of cores that the machine reports, which is at least one.
pub fn check_on_this_machine(
    config: &ProjectConfig,
    src_tree: &Vec<Entry>,
    test_tree: &Vec<Entry>,
) -> (steps: Vec<Step>)
    ensures
        exists|cores: nat|
            cores >= 1 && step_views(steps@) == #[trigger] check_steps(
                config@,
                collected(src_tree@, config@.src_ext, config@.hdr_ext) + collected(
                    test_tree@,
                    config@.src_ext,
                    config@.hdr_ext,
                ),
                cores,
            ),
{
    let cores = available_cpus();
    check(config, src_tree, test_tree, cores)
}

/// The usage text of the tool.
pub const HELP: &'static str = "\x1b[1;35m\"Throughout Heaven and Earth, I alone am the honored one\"\n\x1b[0m
\x1b[1;32mgojo:\x1b[0m a modern build system for C++

\x1b[1;32mUsage:\x1b[0m \x1b[1;36mgojo <COMMAND> [OPTIONS]\x1b[0m

\x1b[1;32mCommands:\x1b[0m
    \x1b[1;36minit <NAME> [OPTIONS]\x1b[0m       initializes new gojo project in current directory
    \x1b[1;36mbuild [--release]\x1b[0m           build project with CMake
    \x1b[1;36mrun [<PATH>]\x1b[0m                run compiled executable
    \x1b[1;36mtest\x1b[0m                        build and run unit tests
    \x1b[1;36mclean\x1b[0m                       remove build files and CMake cache
    \x1b[1;36mfmt [--style <STYLE>]\x1b[0m       automatically formats your code according to the style provided
    \x1b[1;36mcheck\x1b[0m                       run static analyzers found in .clang-tidy
    \x1b[1;36mhelp <COMMAND>\x1b[0m              print help

See '\x1b[1;36mgojo help <COMMAND>\x1b[0m' for more information on a specific command
";

/// The usage text of the tool.
pub fn help() -> (text: &'static str)
    ensures
        text@ == HELP@,
{
    HELP
}

/// The subcommand that a word on the command line names.
pub open spec fn subcommand_named(word: Seq<char>) -> Option<Subcommand> {
    if word == "init"@ {
        Some(Subcommand::Init)
    } else if word == "build"@ {
        Some(Subcommand::Build)
    } else if word == "run"@ {
        Some(Subcommand::Run)
    } else if word == "test"@ {
        Some(Subcommand::Test)
    } else if word == "clean"@ {
        Some(Subcommand::Clean)
    } else if word == "fmt"@ {
        Some(Subcommand::Fmt)
    } else if word == "check"@ {
        Some(Subcommand::Check)
    } else if word == "help"@ || word == "--help"@ || word == "-h"@ {
        Some(Subcommand::Help)
    } else {
        None
    }
}

/// What the tool says of a word that names no subcommand.
pub open spec fn unrecognized_text(word: Seq<char>) -> Seq<char> {
    "\x1b[31mincorrect usage:\x1b[0m \n\tcommand not recognized: "@ + word + "\n"@
}

/// The subcommand that `word` names, if it names one.
pub fn subcommand(word: &str) -> (r: Option<Subcommand>)
    ensures
        r == subcommand_named(word@),
{
    if same_text(word, "init") {
        Some(Subcommand::Init)
    } else if same_text(word, "build") {
        Some(Subcommand::Build)
    } else if same_text(word, "run") {
        Some(Subcommand::Run)
    } else if same_text(word, "test") {
        Some(Subcommand::Test)
    } else if same_text(word, "clean") {
        Some(Subcommand::Clean)
    } else if same_text(word, "fmt") {
        Some(Subcommand::Fmt)
    } else if same_text(word, "check") {
        Some(Subcommand::Check)
    } else if same_text(word, "help") || same_text(word, "--help") || same_text(word, "-h") {
        Some(Subcommand::Help)
    } else {
        None
    }
}

/// What the tool says of a word that names no subcommand.
pub fn unrecognized(word: &str) -> (text: String)
    ensures
        text@ == unrecognized_text(word@),
{
    String::from_str("\x1b[31mincorrect usage:\x1b[0m \n\tcommand not recognized: ").concat(
        word,
    ).concat("\n")
}

} // verus!
