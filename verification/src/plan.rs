//! What a command asks of the outside world: the steps of a plan, the
//! invocations of external tools among them, and the errors that end a
//! command before anything is done.

use crate::text::texts;
use vstd::prelude::*;
use vstd::string::*;

verus! {

broadcast use vstd::string::group_string_axioms;

/// Where a stream of a child process goes.
#[derive(Debug, Clone, Copy, PartialEq, Eq)]
pub enum Stream {
    /// To the stream of the tool itself.
    Inherit,
    /// Nowhere.
    Discard,
}

/// One call of an external tool.
#[derive(Debug, PartialEq, Eq)]
pub struct Invocation {
    pub program: String,
    pub args: Vec<String>,
    /// The working directory of the child; `None` is that of the caller.
    pub dir: Option<String>,
    /// Variables set in the child's environment, as pairs of name and value.
    pub env: Vec<(String, String)>,
    pub stdin: Stream,
    pub stdout: Stream,
    pub stderr: Stream,
}

/// What an invocation is in contracts.
pub struct InvocationView {
    pub program: Seq<char>,
    pub args: Seq<Seq<char>>,
    pub dir: Option<Seq<char>>,
    pub env: Seq<(Seq<char>, Seq<char>)>,
    pub stdin: Stream,
    pub stdout: Stream,
    pub stderr: Stream,
}

/// The texts of pairs of strings.
pub open spec fn pair_texts(pairs: Seq<(String, String)>) -> Seq<(Seq<char>, Seq<char>)> {
    Seq::new(pairs.len(), |i: int| (pairs[i].0@, pairs[i].1@))
}

/// The text of an optional string.
pub open spec fn optional_text(value: Option<String>) -> Option<Seq<char>> {
    match value {
        Some(s) => Some(s@),
        None => None,
    }
}

impl View for Invocation {
    type V = InvocationView;

    open spec fn view(&self) -> InvocationView {
        InvocationView {
            program: self.program@,
            args: texts(self.args@),
            dir: optional_text(self.dir),
            env: pair_texts(self.env@),
            stdin: self.stdin,
            stdout: self.stdout,
            stderr: self.stderr,
        }
    }
}

/// The two stopwatches of a plan.
#[derive(Debug, Clone, Copy, PartialEq, Eq)]
pub enum Clock {
    /// Times a command as a whole.
    Whole,
    /// Times one part of a command.
    Part,
}

/// One step of a plan. A step that fails ends the plan.
#[derive(Debug, PartialEq, Eq)]
pub enum Step {
    /// Write the text to standard output.
    Print(String),
    /// Create the directory; it is an error if it exists.
    CreateDir(String),
    /// Create the directory unless it exists.
    EnsureDir(String),
    /// Remove the directory with all that it holds.
    RemoveDirAll(String),
    /// Move the first path to the second.
    Rename(String, String),
    /// Write the second text to the file at the first path, replacing
    /// what the file held.
    WriteFile(String, String),
    /// Call the tool and wait for its end.
    Run(Invocation),
    /// Start the stopwatch.
    StartClock(Clock),
    /// Write to standard output the first text, the whole seconds that
    /// the stopwatch shows, and the second text.
    PrintElapsed(Clock, String, String),
}

/// What a step is in contracts.
pub enum StepView {
    Print(Seq<char>),
    CreateDir(Seq<char>),
    EnsureDir(Seq<char>),
    RemoveDirAll(Seq<char>),
    Rename(Seq<char>, Seq<char>),
    WriteFile(Seq<char>, Seq<char>),
    Run(InvocationView),
    StartClock(Clock),
    PrintElapsed(Clock, Seq<char>, Seq<char>),
}

impl View for Step {
    type V = StepView;

    open spec fn view(&self) -> StepView {
        match *self {
            Step::Print(text) => StepView::Print(text@),
            Step::CreateDir(path) => StepView::CreateDir(path@),
            Step::EnsureDir(path) => StepView::EnsureDir(path@),
            Step::RemoveDirAll(path) => StepView::RemoveDirAll(path@),
            Step::Rename(from, to) => StepView::Rename(from@, to@),
            Step::WriteFile(path, contents) => StepView::WriteFile(path@, contents@),
            Step::Run(invocation) => StepView::Run(invocation@),
            Step::StartClock(clock) => StepView::StartClock(clock),
            Step::PrintElapsed(clock, before, after) => StepView::PrintElapsed(
                clock,
                before@,
                after@,
            ),
        }
    }
}

/// The views of the steps of a plan.
pub open spec fn step_views(steps: Seq<Step>) -> Seq<StepView> {
    Seq::new(steps.len(), |i: int| steps[i]@)
}

/// The subcommands of the tool.
#[derive(Debug, Clone, Copy, PartialEq, Eq)]
pub enum Subcommand {
    Init,
    Build,
    Run,
    Test,
    Clean,
    Fmt,
    Check,
    Help,
}

/// The flags of `init` that need a value.
#[derive(Debug, Clone, Copy, PartialEq, Eq)]
pub enum ValueFlag {
    Std,
    SrcExtension,
    HdrExtension,
    BuildDir,
}

/// Why a command ends before it has done anything.
#[derive(Debug, PartialEq, Eq)]
pub enum CommandError {
    /// `init` was called without the project's name.
    MissingName,
    /// The flag came without a value, or with one outside its legal set.
    BadValue(ValueFlag),
    /// The subcommand does not know this option.
    InvalidOption(Subcommand, String),
    /// `--style` came with this text, which names no style; the text is
    /// empty where the flag came without a value.
    UnknownStyle(String),
    /// `--file` was given and the project has no style file.
    NoStyleFile,
    /// The project has no build directory.
    NoBuildDirectory,
    /// There is nothing to run.
    NoExecutable,
}

/// What an error of a command is in contracts.
pub enum CommandErrorView {
    MissingName,
    BadValue(ValueFlag),
    InvalidOption(Subcommand, Seq<char>),
    UnknownStyle(Seq<char>),
    NoStyleFile,
    NoBuildDirectory,
    NoExecutable,
}

impl View for CommandError {
    type V = CommandErrorView;

    open spec fn view(&self) -> CommandErrorView {
        match *self {
            CommandError::MissingName => CommandErrorView::MissingName,
            CommandError::BadValue(flag) => CommandErrorView::BadValue(flag),
            CommandError::InvalidOption(command, option) => CommandErrorView::InvalidOption(
                command,
                option@,
            ),
            CommandError::UnknownStyle(style) => CommandErrorView::UnknownStyle(style@),
            CommandError::NoStyleFile => CommandErrorView::NoStyleFile,
            CommandError::NoBuildDirectory => CommandErrorView::NoBuildDirectory,
            CommandError::NoExecutable => CommandErrorView::NoExecutable,
        }
    }
}

/// The word by which a subcommand is called.
pub open spec fn subcommand_word(command: Subcommand) -> Seq<char> {
    match command {
        Subcommand::Init => "init"@,
        Subcommand::Build => "build"@,
        Subcommand::Run => "run"@,
        Subcommand::Test => "test"@,
        Subcommand::Clean => "clean"@,
        Subcommand::Fmt => "fmt"@,
        Subcommand::Check => "check"@,
        Subcommand::Help => "help"@,
    }
}

/// The flag as the user writes it.
pub open spec fn value_flag_word(flag: ValueFlag) -> Seq<char> {
    match flag {
        ValueFlag::Std => "--std"@,
        ValueFlag::SrcExtension => "--src-extension"@,
        ValueFlag::HdrExtension => "--header-extension"@,
        ValueFlag::BuildDir => "--build-dir"@,
    }
}

/// The line that the tool writes to the error stream for an error.
pub open spec fn message_text(error: CommandErrorView) -> Seq<char> {
    match error {
        CommandErrorView::MissingName =>
            "\x1b[31mincorrect usage:\x1b[0m\n\tgojo init <name> [options]\n\tsee 'gojo help init'\n"@,
        CommandErrorView::BadValue(flag) => "\x1b[31mincorrect usage:\x1b[0m\n\tunrecognized value for "@
            + value_flag_word(flag) + " flag\n\tsee 'gojo init --help'\n"@,
        CommandErrorView::InvalidOption(command, option) =>
            "\x1b[31mincorrect usage:\x1b[0m\n\tinvalid option '"@ + option + "'\n\tsee 'gojo "@
                + subcommand_word(command) + " --help'\n"@,
        CommandErrorView::UnknownStyle(style) => "\x1b[31mincorrect usage:\x1b[0m\n\tstyle not found: "@
            + style + "\n\tsee 'gojo fmt --help'\n"@,
        CommandErrorView::NoStyleFile =>
            "\x1b[31mfile not found:\x1b[0m\n\tno .clang-format file found\n\tsee 'gojo fmt --help'\n"@,
        CommandErrorView::NoBuildDirectory =>
            "\x1b[31mfile not found:\x1b[0m\n\tno build directory discovered for this project\n"@,
        CommandErrorView::NoExecutable =>
            "\x1b[31mfile not found:\x1b[0m\n\tno executable target found\n"@,
    }
}

impl Subcommand {
    /// The word by which the subcommand is called.
    pub fn word(&self) -> (r: &'static str)
        ensures
            r@ == subcommand_word(*self),
    {
        match self {
            Subcommand::Init => "init",
            Subcommand::Build => "build",
            Subcommand::Run => "run",
            Subcommand::Test => "test",
            Subcommand::Clean => "clean",
            Subcommand::Fmt => "fmt",
            Subcommand::Check => "check",
            Subcommand::Help => "help",
        }
    }
}

impl ValueFlag {
    /// The flag as the user writes it.
    pub fn word(&self) -> (r: &'static str)
        ensures
            r@ == value_flag_word(*self),
    {
        match self {
            ValueFlag::Std => "--std",
            ValueFlag::SrcExtension => "--src-extension",
            ValueFlag::HdrExtension => "--header-extension",
            ValueFlag::BuildDir => "--build-dir",
        }
    }
}

impl CommandError {
    /// The line that the tool writes to the error stream for this error.
    pub fn message(&self) -> (text: String)
        ensures
            text@ == message_text(self@),
    {
        match self {
            CommandError::MissingName => String::from_str(
                "\x1b[31mincorrect usage:\x1b[0m\n\tgojo init <name> [options]\n\tsee 'gojo help init'\n",
            ),
            CommandError::BadValue(flag) => String::from_str(
                "\x1b[31mincorrect usage:\x1b[0m\n\tunrecognized value for ",
            ).concat(flag.word()).concat(" flag\n\tsee 'gojo init --help'\n"),
            CommandError::InvalidOption(command, option) => String::from_str(
                "\x1b[31mincorrect usage:\x1b[0m\n\tinvalid option '",
            ).concat(option.as_str()).concat("'\n\tsee 'gojo ").concat(command.word()).concat(
                " --help'\n",
            ),
            CommandError::UnknownStyle(style) => String::from_str(
                "\x1b[31mincorrect usage:\x1b[0m\n\tstyle not found: ",
            ).concat(style.as_str()).concat("\n\tsee 'gojo fmt --help'\n"),
            CommandError::NoStyleFile => String::from_str(
                "\x1b[31mfile not found:\x1b[0m\n\tno .clang-format file found\n\tsee 'gojo fmt --help'\n",
            ),
            CommandError::NoBuildDirectory => String::from_str(
                "\x1b[31mfile not found:\x1b[0m\n\tno build directory discovered for this project\n",
            ),
            CommandError::NoExecutable => String::from_str(
                "\x1b[31mfile not found:\x1b[0m\n\tno executable target found\n",
            ),
        }
    }
}

/// `root` with `rest` below it.
pub open spec fn path_under(root: Seq<char>, rest: Seq<char>) -> Seq<char> {
    root + "/"@ + rest
}

/// The path of `rest` below `root`.
pub fn under(root: &str, rest: &str) -> (path: String)
    ensures
        path@ == path_under(root@, rest@),
{
    String::from_str(root).concat("/").concat(rest)
}

/// Appends a step to a plan.
pub fn push_step(plan: &mut Vec<Step>, step: Step)
    ensures
        step_views(final(plan)@) == step_views(old(plan)@).push(step@),
{
    plan.push(step);
    assert(step_views(plan@) =~= step_views(old(plan)@).push(step@));
}

/// Appends a string to a list of strings.
pub fn push_text(list: &mut Vec<String>, text: String)
    ensures
        texts(final(list)@) == texts(old(list)@).push(text@),
{
    list.push(text);
    assert(texts(list@) =~= texts(old(list)@).push(text@));
}

/// Appends a list of strings to a list of strings.
pub fn push_texts(list: &mut Vec<String>, more: Vec<String>)
    ensures
        texts(final(list)@) == texts(old(list)@) + texts(more@),
{
    let ghost added = more@;
    let mut more = more;
    list.append(&mut more);
    assert(texts(list@) =~= texts(old(list)@) + texts(added));
}

/// An invocation in the directory `dir`, with nothing set in its
/// environment.
pub fn invocation(
    program: &str,
    args: Vec<String>,
    dir: Option<String>,
    stdin: Stream,
    stdout: Stream,
    stderr: Stream,
) -> (r: Invocation)
    ensures
        r@ == (InvocationView {
            program: program@,
            args: texts(args@),
            dir: optional_text(dir),
            env: Seq::empty(),
            stdin,
            stdout,
            stderr,
        }),
{
    let r = Invocation {
        program: String::from_str(program),
        args,
        dir,
        env: Vec::new(),
        stdin,
        stdout,
        stderr,
    };
    assert(pair_texts(r.env@) =~= Seq::empty());
    r
}

} // verus!
