//! The per-project configuration record and its sidecar text format:
//! fourteen `key: value` lines in a fixed order.

use crate::text::{
    chars_of, find, free_of, index_of, is_space, is_trimmed, join, join_lines,
    lemma_index_of_bounds, lemma_index_of_is, lemma_split_free, lemma_split_join,
    lemma_trimmed_free, lemma_trimmed_is_trimmed, lemma_trimmed_start_is, same_text, slice, split,
    split_on, texts, trim, trimmed,
};
use vstd::prelude::*;
use vstd::string::*;

verus! {

broadcast use vstd::string::group_string_axioms;

/// The number of lines of the sidecar file.
pub const CONFIG_LINES: usize = 14;

/// The name of the sidecar file, at the project's root.
pub const CONFIG_FILE: &'static str = ".gojo";

/// The build directory's name below the project's root, unless one is chosen.
pub const DEFAULT_BUILD_DIR: &'static str = "build";

/// The settings of one project, as the sidecar file keeps them.
#[derive(Debug, PartialEq, Eq)]
pub struct ProjectConfig {
    pub project_root: String,
    pub build_dir: String,
    pub name: String,
    pub std: String,
    pub src_ext: String,
    pub hdr_ext: String,
    pub fmt_style: String,
    pub fmt_args: String,
    pub clang_tidy: bool,
    pub cpplint: bool,
    pub cppcheck: bool,
    pub cpplint_args: String,
    pub cppcheck_args: String,
    pub quiet: bool,
}

/// What a configuration record is in contracts.
pub struct ConfigView {
    pub project_root: Seq<char>,
    pub build_dir: Seq<char>,
    pub name: Seq<char>,
    pub std: Seq<char>,
    pub src_ext: Seq<char>,
    pub hdr_ext: Seq<char>,
    pub fmt_style: Seq<char>,
    pub fmt_args: Seq<char>,
    pub clang_tidy: bool,
    pub cpplint: bool,
    pub cppcheck: bool,
    pub cpplint_args: Seq<char>,
    pub cppcheck_args: Seq<char>,
    pub quiet: bool,
}

impl View for ProjectConfig {
    type V = ConfigView;

    open spec fn view(&self) -> ConfigView {
        ConfigView {
            project_root: self.project_root@,
            build_dir: self.build_dir@,
            name: self.name@,
            std: self.std@,
            src_ext: self.src_ext@,
            hdr_ext: self.hdr_ext@,
            fmt_style: self.fmt_style@,
            fmt_args: self.fmt_args@,
            clang_tidy: self.clang_tidy,
            cpplint: self.cpplint,
            cppcheck: self.cppcheck,
            cpplint_args: self.cpplint_args@,
            cppcheck_args: self.cppcheck_args@,
            quiet: self.quiet,
        }
    }
}

impl Clone for ProjectConfig {
    fn clone(&self) -> (r: Self)
        ensures
            r@ == self@,
    {
        ProjectConfig {
            project_root: self.project_root.clone(),
            build_dir: self.build_dir.clone(),
            name: self.name.clone(),
            std: self.std.clone(),
            src_ext: self.src_ext.clone(),
            hdr_ext: self.hdr_ext.clone(),
            fmt_style: self.fmt_style.clone(),
            fmt_args: self.fmt_args.clone(),
            clang_tidy: self.clang_tidy,
            cpplint: self.cpplint,
            cppcheck: self.cppcheck,
            cpplint_args: self.cpplint_args.clone(),
            cppcheck_args: self.cppcheck_args.clone(),
            quiet: self.quiet,
        }
    }
}

/// Why a sidecar text is no configuration.
#[derive(Debug, Clone, Copy, PartialEq, Eq)]
pub enum ConfigError {
    /// The text has fewer lines than the record has fields.
    TooFewLines { found: usize },
    /// The line with this index, counted from 0, has no `:`.
    MissingSeparator { line: usize },
}

/// The language standards that a project can name.
pub open spec fn is_cxx_std(s: Seq<char>) -> bool {
    s == "11"@ || s == "14"@ || s == "17"@ || s == "20"@ || s == "23"@
}

/// The suffixes that source files can have.
pub open spec fn is_src_extension(s: Seq<char>) -> bool {
    s == "cc"@ || s == "cpp"@ || s == "cxx"@ || s == "c++"@
}

/// The suffixes that header files can have.
pub open spec fn is_hdr_extension(s: Seq<char>) -> bool {
    s == "h"@ || s == "hpp"@ || s == "hxx"@ || s == "h++"@
}

/// The formatter styles that can be chosen by name.
pub open spec fn is_fmt_style(s: Seq<char>) -> bool {
    s == "llvm"@ || s == "google"@ || s == "chromium"@ || s == "mozilla"@ || s == "webkit"@ || s
        == "microsoft"@ || s == "gnu"@
}

/// The style token that stands for a style file at the project's root.
pub open spec fn style_from_file() -> Seq<char> {
    "file"@
}

impl ConfigView {
    /// Every enumerated field holds one of its legal values.
    pub open spec fn enumerations_legal(self) -> bool {
        &&& is_cxx_std(self.std)
        &&& is_src_extension(self.src_ext)
        &&& is_hdr_extension(self.hdr_ext)
        &&& (is_fmt_style(self.fmt_style) || self.fmt_style == style_from_file())
    }

    /// Every text field survives the sidecar format: it holds no line
    /// break, which would end its line, and no white space at either end,
    /// which reading trims away.
    pub open spec fn well_formed(self) -> bool {
        &&& storable(self.project_root)
        &&& storable(self.build_dir)
        &&& storable(self.name)
        &&& storable(self.std)
        &&& storable(self.src_ext)
        &&& storable(self.hdr_ext)
        &&& storable(self.fmt_style)
        &&& storable(self.fmt_args)
        &&& storable(self.cpplint_args)
        &&& storable(self.cppcheck_args)
    }
}

/// A value that one line of the sidecar file can hold and give back.
pub open spec fn storable(value: Seq<char>) -> bool {
    free_of(value, '\n') && is_trimmed(value)
}

/// The word that the sidecar file has for a truth value.
pub open spec fn bool_word(b: bool) -> Seq<char> {
    if b {
        "true"@
    } else {
        "false"@
    }
}

/// One line of the sidecar file.
pub open spec fn field_line(key: Seq<char>, value: Seq<char>) -> Seq<char> {
    key + ": "@ + value
}

/// The lines of the sidecar file for `c`, in the order of the format.
pub open spec fn config_lines(c: ConfigView) -> Seq<Seq<char>> {
    seq![
        field_line("project_root"@, c.project_root),
        field_line("build_dir"@, c.build_dir),
        field_line("name"@, c.name),
        field_line("std"@, c.std),
        field_line("src"@, c.src_ext),
        field_line("hdr"@, c.hdr_ext),
        field_line("fmt_style"@, c.fmt_style),
        field_line("fmt_args"@, c.fmt_args),
        field_line("clang-tidy"@, bool_word(c.clang_tidy)),
        field_line("cpplint"@, bool_word(c.cpplint)),
        field_line("cppcheck"@, bool_word(c.cppcheck)),
        field_line("cpplint_args"@, c.cpplint_args),
        field_line("cppcheck_args"@, c.cppcheck_args),
        field_line("quiet"@, bool_word(c.quiet)),
    ]
}

/// The text of the sidecar file for `c`: its lines, joined by line breaks,
/// with none after the last.
pub open spec fn rendered(c: ConfigView) -> Seq<char> {
    join(config_lines(c), '\n')
}

/// Whether a line has the `:` that ends its key.
pub open spec fn separated(line: Seq<char>) -> bool {
    0 <= index_of(line, ':') < line.len()
}

/// What a line holds: the text after its first `:`, trimmed.
pub open spec fn line_value(line: Seq<char>) -> Seq<char> {
    trimmed(line.skip(index_of(line, ':') + 1))
}

/// The index of the first of the lines before `upto` that has no `:`, or
/// `upto` if each has one.
pub open spec fn first_unseparated(lines: Seq<Seq<char>>, upto: int) -> int
    decreases upto,
{
    if upto <= 0 {
        0
    } else {
        let before = first_unseparated(lines, upto - 1);
        if before < upto - 1 {
            before
        } else if separated(lines[upto - 1]) {
            upto
        } else {
            upto - 1
        }
    }
}

/// The record that fourteen separated lines stand for. The keys are not
/// looked at: the place of a line decides which field it fills.
pub open spec fn record_of(lines: Seq<Seq<char>>) -> ConfigView {
    ConfigView {
        project_root: line_value(lines[0]),
        build_dir: line_value(lines[1]),
        name: line_value(lines[2]),
        std: line_value(lines[3]),
        src_ext: line_value(lines[4]),
        hdr_ext: line_value(lines[5]),
        fmt_style: line_value(lines[6]),
        fmt_args: line_value(lines[7]),
        clang_tidy: line_value(lines[8]) == "true"@,
        cpplint: line_value(lines[9]) == "true"@,
        cppcheck: line_value(lines[10]) == "true"@,
        cpplint_args: line_value(lines[11]),
        cppcheck_args: line_value(lines[12]),
        quiet: line_value(lines[13]) == "true"@,
    }
}

/// What testing and reading the lines of a file yields: the record that
/// the first fourteen lines stand for, or what is wrong with the file
/// first. Lines after the fourteenth are ignored.
pub open spec fn read_lines(lines: Seq<Seq<char>>) -> Result<ConfigView, ConfigError> {
    if lines.len() < CONFIG_LINES {
        Err(ConfigError::TooFewLines { found: lines.len() as usize })
    } else if first_unseparated(lines, CONFIG_LINES as int) < CONFIG_LINES {
        Err(
            ConfigError::MissingSeparator {
                line: first_unseparated(lines, CONFIG_LINES as int) as usize,
            },
        )
    } else {
        Ok(record_of(lines))
    }
}

/// What testing and reading the text of a file yields.
pub open spec fn read_text(text: Seq<char>) -> Result<ConfigView, ConfigError> {
    read_lines(split(text, '\n'))
}

/// The entries among `pieces` that are not empty once trimmed, each
/// trimmed, in their order.
pub open spec fn kept_entries(pieces: Seq<Seq<char>>) -> Seq<Seq<char>>
    decreases pieces.len(),
{
    if pieces.len() == 0 {
        Seq::empty()
    } else if trimmed(pieces.last()).len() > 0 {
        kept_entries(pieces.drop_last()).push(trimmed(pieces.last()))
    } else {
        kept_entries(pieces.drop_last())
    }
}

/// The arguments that a free-form field stands for. The field is a list
/// with commas between its entries: white space around an entry does not
/// count, and an entry that is empty is left out. So `-i,` is the one
/// argument `-i`, and an argument cannot hold a comma.
pub open spec fn extra_arguments(field: Seq<char>) -> Seq<Seq<char>> {
    kept_entries(split(field, ','))
}

/// Whether a text is the text of a sidecar file: it has at least fourteen
/// lines, and each of the first fourteen has a `:`.
pub open spec fn is_sidecar_text(text: Seq<char>) -> bool {
    let lines = split(text, '\n');
    lines.len() >= CONFIG_LINES && first_unseparated(lines, CONFIG_LINES as int) == CONFIG_LINES
}

/// What `config_read` yields: nothing where there is no file, else the
/// record that the first fourteen lines of the file stand for.
pub open spec fn read_contents(contents: Option<Seq<char>>) -> Option<ConfigView> {
    match contents {
        Some(text) => Some(record_of(split(text, '\n'))),
        None => None,
    }
}

/// The text of what a file holds, if there is a file.
pub open spec fn text_of_contents(contents: Option<&str>) -> Option<Seq<char>> {
    match contents {
        Some(text) => Some(text@),
        None => None,
    }
}

/// The view of an optional record.
pub open spec fn view_of(record: Option<ProjectConfig>) -> Option<ConfigView> {
    match record {
        Some(config) => Some(config@),
        None => None,
    }
}

/// The record that stands in for a missing sidecar file, for a tool that
/// runs in the directory `cwd`.
pub open spec fn default_config(cwd: Seq<char>) -> ConfigView {
    ConfigView {
        project_root: cwd,
        build_dir: cwd + "/"@ + DEFAULT_BUILD_DIR@,
        name: "project"@,
        std: "20"@,
        src_ext: "cc"@,
        hdr_ext: "h"@,
        fmt_style: "google"@,
        fmt_args: "-i,"@,
        clang_tidy: false,
        cpplint: false,
        cppcheck: false,
        cpplint_args: Seq::empty(),
        cppcheck_args: Seq::empty(),
        quiet: false,
    }
}

/// The view of what `config_or_default` returns.
pub open spec fn outcome_view(r: Result<ProjectConfig, ConfigError>) -> Result<
    ConfigView,
    ConfigError,
> {
    match r {
        Ok(c) => Ok(c@),
        Err(e) => Err(e),
    }
}

/// The first line without a separator is where one is missing and none
/// is missing before.
pub proof fn lemma_first_unseparated(lines: Seq<Seq<char>>, upto: int)
    requires
        0 <= upto,
    ensures
        0 <= first_unseparated(lines, upto) <= upto,
        forall|j: int| 0 <= j < first_unseparated(lines, upto) ==> separated(#[trigger] lines[j]),
        first_unseparated(lines, upto) < upto ==> !separated(
            lines[first_unseparated(lines, upto)],
        ),
    decreases upto,
{
    if upto > 0 {
        lemma_first_unseparated(lines, upto - 1);
    }
}

/// The first line without a separator is the line `k` if every line
/// before it has one and it has none; it is `upto` if `k` is.
pub proof fn lemma_first_unseparated_is(lines: Seq<Seq<char>>, upto: int, k: int)
    requires
        0 <= k <= upto,
        forall|j: int| 0 <= j < k ==> separated(#[trigger] lines[j]),
        k < upto ==> !separated(lines[k]),
    ensures
        first_unseparated(lines, upto) == k,
    decreases upto,
{
    if upto > 0 {
        if k < upto {
            lemma_first_unseparated_is(lines, upto - 1, k);
        } else {
            lemma_first_unseparated_is(lines, upto - 1, upto - 1);
        }
    }
}

/// A line made of a key without `:` and a storable value is separated
/// and holds that value.
pub proof fn lemma_field_line(key: Seq<char>, value: Seq<char>)
    requires
        free_of(key, ':'),
        is_trimmed(value),
    ensures
        separated(field_line(key, value)),
        line_value(field_line(key, value)) == value,
{
    reveal_strlit(": ");
    let line = field_line(key, value);
    assert(line[key.len() as int] == ':');
    assert forall|j: int| 0 <= j < key.len() implies line[j] != ':' by {
        assert(line[j] == key[j]);
    }
    lemma_index_of_is(line, ':', key.len() as int);
    let rest = line.skip(key.len() as int + 1);
    assert(rest == seq![' '] + value);
    assert(is_space(' '));
    assert(rest.skip(1) == value);
    lemma_trimmed_start_is(rest, 1);
}

proof fn lemma_keys()
    ensures
        free_of("project_root"@, ':') && free_of("project_root"@, '\n'),
        free_of("build_dir"@, ':') && free_of("build_dir"@, '\n'),
        free_of("name"@, ':') && free_of("name"@, '\n'),
        free_of("std"@, ':') && free_of("std"@, '\n'),
        free_of("src"@, ':') && free_of("src"@, '\n'),
        free_of("hdr"@, ':') && free_of("hdr"@, '\n'),
        free_of("fmt_style"@, ':') && free_of("fmt_style"@, '\n'),
        free_of("fmt_args"@, ':') && free_of("fmt_args"@, '\n'),
        free_of("clang-tidy"@, ':') && free_of("clang-tidy"@, '\n'),
        free_of("cpplint"@, ':') && free_of("cpplint"@, '\n'),
        free_of("cppcheck"@, ':') && free_of("cppcheck"@, '\n'),
        free_of("cpplint_args"@, ':') && free_of("cpplint_args"@, '\n'),
        free_of("cppcheck_args"@, ':') && free_of("cppcheck_args"@, '\n'),
        free_of("quiet"@, ':') && free_of("quiet"@, '\n'),
{
    reveal_strlit("project_root");
    reveal_strlit("build_dir");
    reveal_strlit("name");
    reveal_strlit("std");
    reveal_strlit("src");
    reveal_strlit("hdr");
    reveal_strlit("fmt_style");
    reveal_strlit("fmt_args");
    reveal_strlit("clang-tidy");
    reveal_strlit("cpplint");
    reveal_strlit("cppcheck");
    reveal_strlit("cpplint_args");
    reveal_strlit("cppcheck_args");
    reveal_strlit("quiet");
}

proof fn lemma_bool_words()
    ensures
        forall|b: bool| storable(#[trigger] bool_word(b)),
        forall|b: bool| (#[trigger] bool_word(b) == "true"@) == b,
{
    reveal_strlit("true");
    reveal_strlit("false");
    assert("true"@.len() != "false"@.len());
}

/// A line is free of line breaks where its key and its value are.
proof fn lemma_line_unbroken(key: Seq<char>, value: Seq<char>)
    requires
        free_of(key, '\n'),
        free_of(value, '\n'),
    ensures
        free_of(field_line(key, value), '\n'),
{
    reveal_strlit(": ");
    let line = field_line(key, value);
    assert forall|i: int| 0 <= i < line.len() implies line[i] != '\n' by {
        if i < key.len() {
            assert(line[i] == key[i]);
        } else if i < key.len() + 2 {
            assert(line[i] == ": "@[i - key.len()]);
        } else {
            assert(line[i] == value[i - key.len() - 2]);
        }
    }
}

/// Reading what was written gives the record back, field for field.
///
/// This holds of every record whose text fields are storable. A `:`
/// inside a value does no harm, since a line is split at its first `:`
/// only and no key holds one.
pub proof fn lemma_round_trip(c: ConfigView)
    requires
        c.well_formed(),
    ensures
        is_sidecar_text(rendered(c)),
        read_contents(Some(rendered(c))) == Some(c),
        read_text(rendered(c)) == Ok::<ConfigView, ConfigError>(c),
{
    let lines = config_lines(c);
    lemma_keys();
    lemma_bool_words();
    lemma_line_unbroken("project_root"@, c.project_root);
    lemma_line_unbroken("build_dir"@, c.build_dir);
    lemma_line_unbroken("name"@, c.name);
    lemma_line_unbroken("std"@, c.std);
    lemma_line_unbroken("src"@, c.src_ext);
    lemma_line_unbroken("hdr"@, c.hdr_ext);
    lemma_line_unbroken("fmt_style"@, c.fmt_style);
    lemma_line_unbroken("fmt_args"@, c.fmt_args);
    lemma_line_unbroken("clang-tidy"@, bool_word(c.clang_tidy));
    lemma_line_unbroken("cpplint"@, bool_word(c.cpplint));
    lemma_line_unbroken("cppcheck"@, bool_word(c.cppcheck));
    lemma_line_unbroken("cpplint_args"@, c.cpplint_args);
    lemma_line_unbroken("cppcheck_args"@, c.cppcheck_args);
    lemma_line_unbroken("quiet"@, bool_word(c.quiet));
    lemma_split_join(lines, '\n');
    lemma_field_line("project_root"@, c.project_root);
    lemma_field_line("build_dir"@, c.build_dir);
    lemma_field_line("name"@, c.name);
    lemma_field_line("std"@, c.std);
    lemma_field_line("src"@, c.src_ext);
    lemma_field_line("hdr"@, c.hdr_ext);
    lemma_field_line("fmt_style"@, c.fmt_style);
    lemma_field_line("fmt_args"@, c.fmt_args);
    lemma_field_line("clang-tidy"@, bool_word(c.clang_tidy));
    lemma_field_line("cpplint"@, bool_word(c.cpplint));
    lemma_field_line("cppcheck"@, bool_word(c.cppcheck));
    lemma_field_line("cpplint_args"@, c.cpplint_args);
    lemma_field_line("cppcheck_args"@, c.cppcheck_args);
    lemma_field_line("quiet"@, bool_word(c.quiet));
    lemma_first_unseparated_is(lines, CONFIG_LINES as int, CONFIG_LINES as int);
}

/// A value read from a line without line breaks is storable.
proof fn lemma_line_value_storable(line: Seq<char>)
    requires
        separated(line),
        free_of(line, '\n'),
    ensures
        storable(line_value(line)),
{
    lemma_index_of_bounds(line, ':');
    let rest = line.skip(index_of(line, ':') + 1);
    assert forall|i: int| 0 <= i < rest.len() implies rest[i] != '\n' by {
        assert(rest[i] == line[index_of(line, ':') + 1 + i]);
    }
    lemma_trimmed_free(rest, '\n');
    lemma_trimmed_is_trimmed(rest);
}

/// Every record that comes out of reading is well-formed, so writing it
/// and reading it again gives the same record: what the tool has read
/// once, it can keep.
pub proof fn lemma_read_is_well_formed(text: Seq<char>)
    ensures
        read_text(text) is Ok <==> is_sidecar_text(text),
        is_sidecar_text(text) ==> read_text(text) == Ok::<ConfigView, ConfigError>(
            read_contents(Some(text))->0,
        ),
        read_contents(Some(text)) matches Some(c) ==> is_sidecar_text(text) ==> c.well_formed()
            && is_sidecar_text(rendered(c)) && read_contents(Some(rendered(c))) == Some(c),
{
    let lines = split(text, '\n');
    lemma_first_unseparated(lines, CONFIG_LINES as int);
    if read_lines(lines) is Ok {
        let c = read_lines(lines)->Ok_0;
        lemma_split_free(text, '\n');
        lemma_first_unseparated(lines, CONFIG_LINES as int);
        lemma_line_value_storable(lines[0]);
        lemma_line_value_storable(lines[1]);
        lemma_line_value_storable(lines[2]);
        lemma_line_value_storable(lines[3]);
        lemma_line_value_storable(lines[4]);
        lemma_line_value_storable(lines[5]);
        lemma_line_value_storable(lines[6]);
        lemma_line_value_storable(lines[7]);
        lemma_line_value_storable(lines[11]);
        lemma_line_value_storable(lines[12]);
        lemma_round_trip(c);
    }
}

/// The language standard of a project that names none.
pub fn std_default() -> (r: &'static str)
    ensures
        r@ == "20"@,
        is_cxx_std(r@),
{
    "20"
}

/// The suffix of source files in a project that names none.
pub fn src_exension_default() -> (r: &'static str)
    ensures
        r@ == "cc"@,
        is_src_extension(r@),
{
    "cc"
}

/// The suffix of header files in a project that names none.
pub fn hdr_extension_default() -> (r: &'static str)
    ensures
        r@ == "h"@,
        is_hdr_extension(r@),
{
    "h"
}

/// Whether `s` names a language standard.
pub fn is_known_std(s: &str) -> (r: bool)
    ensures
        r == is_cxx_std(s@),
{
    same_text(s, "11") || same_text(s, "14") || same_text(s, "17") || same_text(s, "20")
        || same_text(s, "23")
}

/// Whether `s` is a suffix that source files can have.
pub fn is_known_src_extension(s: &str) -> (r: bool)
    ensures
        r == is_src_extension(s@),
{
    same_text(s, "cc") || same_text(s, "cpp") || same_text(s, "cxx") || same_text(s, "c++")
}

/// Whether `s` is a suffix that header files can have.
pub fn is_known_hdr_extension(s: &str) -> (r: bool)
    ensures
        r == is_hdr_extension(s@),
{
    same_text(s, "h") || same_text(s, "hpp") || same_text(s, "hxx") || same_text(s, "h++")
}

/// Whether `s` names a formatter style.
pub fn is_known_fmt_style(s: &str) -> (r: bool)
    ensures
        r == is_fmt_style(s@),
{
    same_text(s, "llvm") || same_text(s, "google") || same_text(s, "chromium") || same_text(
        s,
        "mozilla",
    ) || same_text(s, "webkit") || same_text(s, "microsoft") || same_text(s, "gnu")
}

/// The record that stands in for a missing sidecar file: the project is
/// the directory `cwd`, it builds below it, and no analyzer is enabled.
pub fn config_default(cwd: &str) -> (r: ProjectConfig)
    ensures
        r@ == default_config(cwd@),
{
    ProjectConfig {
        project_root: String::from_str(cwd),
        build_dir: String::from_str(cwd).concat("/").concat(DEFAULT_BUILD_DIR),
        name: String::from_str("project"),
        std: String::from_str(std_default()),
        src_ext: String::from_str(src_exension_default()),
        hdr_ext: String::from_str(hdr_extension_default()),
        fmt_style: String::from_str("google"),
        fmt_args: String::from_str("-i,"),
        clang_tidy: false,
        cpplint: false,
        cppcheck: false,
        cpplint_args: String::new(),
        cppcheck_args: String::new(),
        quiet: false,
    }
}

fn bool_text(b: bool) -> (r: &'static str)
    ensures
        r@ == bool_word(b),
{
    if b {
        "true"
    } else {
        "false"
    }
}

fn line(key: &str, value: &str) -> (r: String)
    ensures
        r@ == field_line(key@, value@),
{
    String::from_str(key).concat(": ").concat(value)
}

/// The text of the sidecar file for `config`.
pub fn config_write(config: &ProjectConfig) -> (text: String)
    ensures
        text@ == rendered(config@),
{
    let mut lines: Vec<String> = Vec::new();
    lines.push(line("project_root", config.project_root.as_str()));
    lines.push(line("build_dir", config.build_dir.as_str()));
    lines.push(line("name", config.name.as_str()));
    lines.push(line("std", config.std.as_str()));
    lines.push(line("src", config.src_ext.as_str()));
    lines.push(line("hdr", config.hdr_ext.as_str()));
    lines.push(line("fmt_style", config.fmt_style.as_str()));
    lines.push(line("fmt_args", config.fmt_args.as_str()));
    lines.push(line("clang-tidy", bool_text(config.clang_tidy)));
    lines.push(line("cpplint", bool_text(config.cpplint)));
    lines.push(line("cppcheck", bool_text(config.cppcheck)));
    lines.push(line("cpplint_args", config.cpplint_args.as_str()));
    lines.push(line("cppcheck_args", config.cppcheck_args.as_str()));
    lines.push(line("quiet", bool_text(config.quiet)));
    assert(texts(lines@) =~= config_lines(config@));
    join_lines(&lines)
}

/// The arguments that a free-form field stands for.
pub fn extra_args(field: &str) -> (arguments: Vec<String>)
    ensures
        texts(arguments@) == extra_arguments(field@),
{
    let pieces = split_on(field, ',');
    let ghost all = texts(pieces@);
    let mut arguments: Vec<String> = Vec::new();
    let mut i: usize = 0;
    proof {
        assert(all.take(0) == Seq::<Seq<char>>::empty());
        assert(texts(arguments@) =~= Seq::<Seq<char>>::empty());
    }
    while i < pieces.len()
        invariant
            i <= pieces.len(),
            all == texts(pieces@),
            texts(arguments@) == kept_entries(all.take(i as int)),
        decreases pieces.len() - i,
    {
        let entry = trim(pieces[i].as_str());
        proof {
            let next = all.take(i + 1);
            assert(next.drop_last() == all.take(i as int));
            assert(next.last() == pieces@[i as int]@);
        }
        if entry.as_str().unicode_len() > 0 {
            let ghost before = arguments@;
            arguments.push(entry);
            assert(texts(arguments@) =~= texts(before).push(entry@));
        }
        i += 1;
    }
    assert(all.take(i as int) == all);
    arguments
}

/// Tests whether a text is the text of a sidecar file: it is, where it
/// has at least fourteen lines and each of the first fourteen has a `:`.
/// Otherwise the result says what is wrong with it first.
pub fn config_check(text: &str) -> (r: Result<(), ConfigError>)
    ensures
        r is Ok <==> is_sidecar_text(text@),
        r matches Err(error) ==> read_text(text@) == Err::<ConfigView, ConfigError>(error),
{
    let lines = split_on(text, '\n');
    let ghost all = texts(lines@);
    proof {
        lemma_first_unseparated(all, CONFIG_LINES as int);
    }
    if lines.len() < CONFIG_LINES {
        return Err(ConfigError::TooFewLines { found: lines.len() });
    }
    let mut k: usize = 0;
    while k < CONFIG_LINES
        invariant
            k <= CONFIG_LINES <= lines.len(),
            all == texts(lines@),
            all == split(text@, '\n'),
            forall|j: int| 0 <= j < k ==> separated(#[trigger] all[j]),
        decreases CONFIG_LINES - k,
    {
        let chars = chars_of(lines[k].as_str());
        let colon = find(&chars, ':');
        assert(chars@ == all[k as int]);
        if colon >= chars.len() {
            proof {
                lemma_first_unseparated_is(all, CONFIG_LINES as int, k as int);
            }
            return Err(ConfigError::MissingSeparator { line: k });
        }
        k += 1;
    }
    proof {
        lemma_first_unseparated_is(all, CONFIG_LINES as int, CONFIG_LINES as int);
    }
    Ok(())
}

/// Reads the sidecar file, given what it holds, or `None` where there is
/// no file that can be read.
///
/// Without a file there is no configuration, and the caller falls back on
/// the default record. A file that is there must be the text of a sidecar
/// file, which `config_check` tests; it is then read line by line, each
/// value being what follows the first `:` of its line, trimmed. The keys
/// are not looked at, and no value is validated.
pub fn config_read(contents: Option<&str>) -> (r: Option<ProjectConfig>)
    requires
        contents matches Some(text) ==> is_sidecar_text(text@),
    ensures
        view_of(r) == read_contents(text_of_contents(contents)),
{
    let text = match contents {
        Some(text) => text,
        None => {
            return None;
        },
    };
    let lines = split_on(text, '\n');
    let ghost all = texts(lines@);
    proof {
        lemma_first_unseparated(all, CONFIG_LINES as int);
    }
    let mut values: Vec<String> = Vec::new();
    let mut k: usize = 0;
    while k < CONFIG_LINES
        invariant
            k <= CONFIG_LINES <= lines.len(),
            all == texts(lines@),
            all == split(text@, '\n'),
            values.len() == k,
            forall|j: int| 0 <= j < CONFIG_LINES ==> separated(#[trigger] all[j]),
            forall|j: int| 0 <= j < k ==> (#[trigger] values@[j])@ == line_value(all[j]),
        decreases CONFIG_LINES - k,
    {
        let entry: &str = lines[k].as_str();
        let chars = chars_of(entry);
        let colon = find(&chars, ':');
        assert(entry@ == all[k as int]);
        assert(separated(all[k as int]));
        assert(colon < chars.len());
        let rest = slice(entry, colon + 1, chars.len());
        assert(rest@ == entry@.skip(colon + 1));
        let value = trim(rest.as_str());
        values.push(value);
        k += 1;
    }
    let config = ProjectConfig {
        project_root: values[0].clone(),
        build_dir: values[1].clone(),
        name: values[2].clone(),
        std: values[3].clone(),
        src_ext: values[4].clone(),
        hdr_ext: values[5].clone(),
        fmt_style: values[6].clone(),
        fmt_args: values[7].clone(),
        clang_tidy: same_text(values[8].as_str(), "true"),
        cpplint: same_text(values[9].as_str(), "true"),
        cppcheck: same_text(values[10].as_str(), "true"),
        cpplint_args: values[11].clone(),
        cppcheck_args: values[12].clone(),
        quiet: same_text(values[13].as_str(), "true"),
    };
    Some(config)
}

/// The configuration that a command works with: what the sidecar file
/// holds, or the default record where there is no file to read. A file
/// that is no sidecar file is an error.
pub fn config_or_default(contents: Option<&str>, cwd: &str) -> (r: Result<
    ProjectConfig,
    ConfigError,
>)
    ensures
        contents is None ==> outcome_view(r) == Ok::<ConfigView, ConfigError>(default_config(cwd@)),
        contents is Some ==> outcome_view(r) == read_text(contents->0@),
{
    if let Some(text) = contents {
        match config_check(text) {
            Ok(()) => {},
            Err(error) => {
                return Err(error);
            },
        }
    }
    match config_read(contents) {
        Some(config) => Ok(config),
        None => Ok(config_default(cwd)),
    }
}

} // verus!
