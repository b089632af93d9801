//! The files of a new project in the layout that names the compiler and
//! takes its compile options from the host system.

use crate::templates;
use crate::text::same_text;
use vstd::prelude::*;
use vstd::string::*;

verus! {

/// The systems for which compile options differ.
#[derive(Debug, Clone, Copy, PartialEq, Eq)]
pub enum HostOs {
    Linux,
    MacOs,
    Other,
}

/// The main source stub, which includes the library header with the suffix `h_ext`.
pub fn main_src(h_ext: &str) -> (text: String)
    ensures
        text@ == templates::main_src_text(h_ext@),
{
    templates::main_src(h_ext)
}

/// The library header stub for headers with the suffix `h_ext`.
pub fn hello_world_header(h_ext: &str) -> (text: String)
    ensures
        text@ == templates::lib_hello_world_hdr_text(h_ext@),
{
    templates::lib_hello_world_hdr(h_ext)
}

/// The library source stub, which includes its header with the suffix `h_ext`.
pub fn hello_world_src(h_ext: &str) -> (text: String)
    ensures
        text@ == templates::lib_hello_world_src_text(h_ext@),
{
    templates::lib_hello_world_src(h_ext)
}

/// The text of the library build descriptor.
pub open spec fn lib_cmake_lists_txt_text(src_ext: Seq<char>) -> Seq<char> {
    "add_library(
  lib
  STATIC
  hello_world."@ + src_ext + "
)

target_include_directories(
  lib
  PUBLIC
  # Add include directories here
)

target_link_libraries(
  lib
  PUBLIC
  # Add libraries here
)"@
}

/// The library build descriptor, for source files with the suffix `src_ext`.
pub fn lib_cmake_lists_txt(src_ext: &str) -> (text: String)
    ensures
        text@ == lib_cmake_lists_txt_text(src_ext@),
{
    String::from_str("add_library(
  lib
  STATIC
  hello_world.").concat(src_ext).concat("
)

target_include_directories(
  lib
  PUBLIC
  # Add include directories here
)

target_link_libraries(
  lib
  PUBLIC
  # Add libraries here
)")
}

/// The test source stub, which includes the library header with the suffix `h_ext`.
pub fn test_hello_world_src(h_ext: &str) -> (text: String)
    ensures
        text@ == templates::test_hello_world_src_text(h_ext@),
{
    templates::test_hello_world_src(h_ext)
}

/// The text of the test build descriptor.
pub open spec fn test_cmake_lists_txt_text(src_ext: Seq<char>) -> Seq<char> {
    "enable_testing()
set(CMAKE_CXX_CLANG_TIDY \"\")

include(FetchContent)
FetchContent_Declare(
  googletest
  GIT_REPOSITORY https://github.com/google/googletest.git
  GIT_TAG        52eb8108c5bdec04579160ae17225d66034bd723 # v1.17.0
)
FetchContent_MakeAvailable(googletest)

add_executable(
  test_hello_world
  test_hello_world."@ + src_ext + "
)

target_link_libraries(
  test_hello_world
  PRIVATE
  lib
  GTest::gtest_main
)

include(GoogleTest)
gtest_discover_tests(test_hello_world)"@
}

/// The test build descriptor, for source files with the suffix `src_ext`.
pub fn test_cmake_lists_txt(src_ext: &str) -> (text: String)
    ensures
        text@ == test_cmake_lists_txt_text(src_ext@),
{
    String::from_str("enable_testing()
set(CMAKE_CXX_CLANG_TIDY \"\")

include(FetchContent)
FetchContent_Declare(
  googletest
  GIT_REPOSITORY https://github.com/google/googletest.git
  GIT_TAG        52eb8108c5bdec04579160ae17225d66034bd723 # v1.17.0
)
FetchContent_MakeAvailable(googletest)

add_executable(
  test_hello_world
  test_hello_world.").concat(src_ext).concat("
)

target_link_libraries(
  test_hello_world
  PRIVATE
  lib
  GTest::gtest_main
)

include(GoogleTest)
gtest_discover_tests(test_hello_world)")
}

/// The README stub of the project `project_name`.
pub fn readme(project_name: &str) -> (text: String)
    ensures
        text@ == templates::readme_text(project_name@),
{
    templates::readme(project_name)
}

/// The name of the standard library to compile against on `os`.
pub open spec fn std_lib_of(os: HostOs) -> Seq<char> {
    match os {
        HostOs::Linux => "libstdc++"@,
        HostOs::MacOs => "libc++"@,
        HostOs::Other => ""@,
    }
}

/// The flags that the language standard `version` needs on `os`, each on
/// a line of its own, or nothing.
pub open spec fn extra_flags_of(version: Seq<char>, os: HostOs) -> Seq<char> {
    if os == HostOs::Linux && version == "23"@ {
        "\n\t-D__cpp_concepts=202002L
  -Wno-builtin-macro-redefined"@
    } else {
        ""@
    }
}

/// The text of the compile options.
pub open spec fn compile_options_text(version: Seq<char>, os: HostOs) -> Seq<char> {
    "add_compile_options(
  -stdlib="@ + std_lib_of(os) + "
  -Wall
  -Wextra"@ + extra_flags_of(version, os) + "
)"@
}

/// The compile options for the language standard `version` on `os`.
pub fn compile_options(version: &str, os: HostOs) -> (text: String)
    ensures
        text@ == compile_options_text(version@, os),
{
    let std_lib = match os {
        HostOs::Linux => "libstdc++",
        HostOs::MacOs => "libc++",
        HostOs::Other => "",
    };
    let linux = match os {
        HostOs::Linux => true,
        _ => false,
    };
    let extra_flags = if linux && same_text(version, "23") {
        "\n\t-D__cpp_concepts=202002L
  -Wno-builtin-macro-redefined"
    } else {
        ""
    };
    String::from_str("add_compile_options(
  -stdlib=").concat(std_lib).concat("
  -Wall
  -Wextra").concat(extra_flags).concat("
)")
}

/// The line that names the compiler: the one chosen, or `clang++`.
pub open spec fn compiler_line(compiler: Option<Seq<char>>) -> Seq<char> {
    match compiler {
        Some(name) => "set(CMAKE_CXX_COMPILER /usr/bin/"@ + name + ")"@,
        None => "set(CMAKE_CXX_COMPILER /usr/bin/clang++)"@,
    }
}

/// The text of a root build descriptor, given the line that names the
/// compiler, the language standard, the compile options, the description
/// and the suffix of source files.
pub open spec fn root_descriptor_text(
    project_name: Seq<char>,
    compiler: Seq<char>,
    cpp_version: Seq<char>,
    compile_options: Seq<char>,
    description: Seq<char>,
    src_ext: Seq<char>,
) -> Seq<char> {
    "cmake_minimum_required(VERSION 3.28)

"@ + compiler + "
set(CMAKE_CXX_STANDARD "@ + cpp_version + ")
set(CMAKE_CXX_STANDARD_REQUIRED True)
set(CMAKE_EXPORT_COMPILE_COMMANDS ON)
if(STATIC_CHECK)
  set(CMAKE_CXX_CLANG_TIDY clang-tidy)
endif()

"@ + compile_options + "

project(
  "@ + project_name + "
  VERSION 1.0
  DESCRIPTION \""@ + description + "\"
  LANGUAGES CXX
)

add_subdirectory(src/lib)

# Executable
add_executable(
  "@ + project_name + "
  src/main."@ + src_ext + "
)

# Include paths
target_include_directories(
  "@ + project_name + "
  PRIVATE
  src/lib
)

# Dependencies
target_link_libraries(
  "@ + project_name + "
  PRIVATE
  lib
)
  
# Tests
if(BUILD_TESTING)
  include(CTest)
  add_subdirectory(test)
endif()"@
}

/// The text of the root build descriptor: without a language standard it
/// names `23`, without a description an empty one.
pub open spec fn root_cmake_lists_txt_text(
    project_name: Seq<char>,
    compiler: Option<Seq<char>>,
    cpp_version: Option<Seq<char>>,
    description: Option<Seq<char>>,
    src_ext: Seq<char>,
    os: HostOs,
) -> Seq<char> {
    let version = match cpp_version {
        Some(v) => v,
        None => "23"@,
    };
    let described = match description {
        Some(d) => d,
        None => ""@,
    };
    root_descriptor_text(
        project_name,
        compiler_line(compiler),
        version,
        compile_options_text(version, os),
        described,
        src_ext,
    )
}

/// The text of an optional string.
pub open spec fn chosen(option: Option<&String>) -> Option<Seq<char>> {
    match option {
        Some(s) => Some(s@),
        None => None,
    }
}

/// The root build descriptor of the project `project_name`, as built on
/// the system `os`.
pub fn root_cmake_lists_txt(
    project_name: &str,
    compiler_option: Option<&String>,
    cpp_version_option: Option<&String>,
    description_option: Option<&String>,
    src_ext_option: &str,
    os: HostOs,
) -> (text: String)
    ensures
        text@ == root_cmake_lists_txt_text(
            project_name@,
            chosen(compiler_option),
            chosen(cpp_version_option),
            chosen(description_option),
            src_ext_option@,
            os,
        ),
{
    let compiler = match compiler_option {
        Some(option) => String::from_str("set(CMAKE_CXX_COMPILER /usr/bin/").concat(
            option.as_str(),
        ).concat(")"),
        None => String::from_str("set(CMAKE_CXX_COMPILER /usr/bin/clang++)"),
    };
    let cpp_version = match cpp_version_option {
        Some(option) => option.clone(),
        None => String::from_str("23"),
    };
    let description = match description_option {
        Some(option) => option.clone(),
        None => String::from_str(""),
    };
    let compile_options = compile_options(cpp_version.as_str(), os);
    let compiler = compiler.as_str();
    let cpp_version = cpp_version.as_str();
    let compile_options = compile_options.as_str();
    let description = description.as_str();
    let src_ext = src_ext_option;
    String::from_str("cmake_minimum_required(VERSION 3.28)

").concat(compiler).concat("
set(CMAKE_CXX_STANDARD ").concat(cpp_version).concat(")
set(CMAKE_CXX_STANDARD_REQUIRED True)
set(CMAKE_EXPORT_COMPILE_COMMANDS ON)
if(STATIC_CHECK)
  set(CMAKE_CXX_CLANG_TIDY clang-tidy)
endif()

").concat(compile_options).concat("

project(
  ").concat(project_name).concat("
  VERSION 1.0
  DESCRIPTION \"").concat(description).concat("\"
  LANGUAGES CXX
)

add_subdirectory(src/lib)

# Executable
add_executable(
  ").concat(project_name).concat("
  src/main.").concat(src_ext).concat("
)

# Include paths
target_include_directories(
  ").concat(project_name).concat("
  PRIVATE
  src/lib
)

# Dependencies
target_link_libraries(
  ").concat(project_name).concat("
  PRIVATE
  lib
)
  
# Tests
if(BUILD_TESTING)
  include(CTest)
  add_subdirectory(test)
endif()")
}

} // verus!
