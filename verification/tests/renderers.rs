use gojo::file_contents;
use gojo::file_contents::HostOs;
use gojo::templates;

#[test]
fn root_descriptor_names_project_standard_and_suffix() {
    let text = templates::root_cmake_lists_txt("demo", "17", "cpp", "3.28");
    assert_eq!(text, "cmake_minimum_required(VERSION 3.28)

project( demo
  VERSION 1.0
  DESCRIPTION \"\" # TODO: Add a description.
  LANGUAGES CXX
)

set(CMAKE_CXX_STANDARD 17)
set(CMAKE_CXX_STANDARD_REQUIRED True)
set(CMAKE_CXX_FLAGS \"${CMAKE_CXX_FLAGS} -Wall -Wextra -Werror\")

# Allow clangd and clang-tidy to do static analysis.
set(CMAKE_EXPORT_COMPILE_COMMANDS ON)

# Run clang-tidy. Used in 'gojo check' command.
if(STATIC_CHECK)
  set(CMAKE_CXX_CLANG_TIDY clang-tidy)
endif()

# Bring subdirectories into scope.
add_subdirectory(src/lib)

add_executable( demo
  src/main.cpp
)

# target_include_directories( demo
    # Add include directories here.
# )

target_link_libraries( demo
  lib
  # Add libraries here.
)
  
# Tests
if(BUILD_TESTING)
  include(CTest)
  add_subdirectory(test)
endif()");
}

#[test]
fn main_stub_includes_the_library_header() {
    assert_eq!(templates::main_src("hpp"), "#include \"lib/hello_world.hpp\"
#include <iostream>

int main() {
  std::cout << hello_world() << \"\\n\";
  return 0;
}
");
}

#[test]
fn library_source_stub_includes_its_header() {
    assert_eq!(templates::lib_hello_world_src("h"), "#include \"hello_world.h\"

const char* hello_world() {
  return \"Hello World!\";
}
");
}

#[test]
fn library_header_guard_is_the_suffix_in_upper_case() {
    assert_eq!(templates::lib_hello_world_hdr("hpp"), "#ifndef LIB_HELLO_WORLD_HPP
#define LIB_HELLO_WORLD_HPP

const char* hello_world();

#endif
");
    assert_eq!(templates::lib_hello_world_hdr("h++"), "#ifndef LIB_HELLO_WORLD_H++
#define LIB_HELLO_WORLD_H++

const char* hello_world();

#endif
");
}

#[test]
fn guarded_header_takes_the_guard_as_given() {
    assert_eq!(templates::guarded_header("hxx"), "#ifndef LIB_HELLO_WORLD_hxx
#define LIB_HELLO_WORLD_hxx

const char* hello_world();

#endif
");
}

#[test]
fn library_descriptor_names_the_source_file() {
    assert_eq!(templates::lib_cmake_lists_txt("cc"), "add_library( lib
  STATIC
  hello_world.cc
)

# target_include_directories( lib
    # Add include directories here.
# )

target_link_libraries( lib
  # Add libraries here.
)");
}

#[test]
fn test_stub_includes_the_library_header() {
    assert_eq!(templates::test_hello_world_src("h"), "#include \"../src/lib/hello_world.h\"

#include <gtest/gtest.h>

TEST(HelloTest, BasicAssertions) {
  EXPECT_EQ(hello_world(), \"Hello World!\");
}
");
}

#[test]
fn test_descriptor_names_the_test_source() {
    assert_eq!(templates::test_cmake_lists_txt("cxx"), "enable_testing()
set(CMAKE_CXX_CLANG_TIDY \"\")

#include(FetchContent)
#FetchContent_Declare(
#  googletest
#  GIT_REPOSITORY https://github.com/google/googletest.git
#  GIT_TAG        52eb8108c5bdec04579160ae17225d66034bd723 # v1.17.0
#)
#FetchContent_MakeAvailable(googletest)

include_directories($ENV{HOME}/.gojo/include)

add_executable( hello_world_test
  hello_world_test.cxx
)

target_link_libraries( hello_world_test
  lib
  $ENV{HOME}/.gojo/lib/gtest/libgtest_main.a
  #GTest::gtest_main
)

include(GoogleTest)
gtest_discover_tests(hello_world_test)
# Add more tests here.");
}

#[test]
fn readme_is_headed_by_the_project_name() {
    assert_eq!(templates::readme("demo"), "# demo\n\nTODO: write a readme...\n");
}

#[test]
fn renderers_are_deterministic() {
    assert_eq!(
        templates::root_cmake_lists_txt("a", "20", "cc", "3.28"),
        templates::root_cmake_lists_txt("a", "20", "cc", "3.28")
    );
    assert_eq!(templates::main_src("h"), templates::main_src("h"));
    assert_eq!(templates::lib_hello_world_src("h"), templates::lib_hello_world_src("h"));
    assert_eq!(templates::lib_hello_world_hdr("h"), templates::lib_hello_world_hdr("h"));
    assert_eq!(templates::lib_cmake_lists_txt("cc"), templates::lib_cmake_lists_txt("cc"));
    assert_eq!(templates::test_hello_world_src("h"), templates::test_hello_world_src("h"));
    assert_eq!(templates::test_cmake_lists_txt("cc"), templates::test_cmake_lists_txt("cc"));
    assert_eq!(templates::readme("a"), templates::readme("a"));
    assert_eq!(
        templates::root_cmake_lists_txt("a", "20", "cc", "3.28").into_bytes(),
        templates::root_cmake_lists_txt("a", "20", "cc", "3.28").into_bytes()
    );
}

#[test]
fn ignore_file_lists_the_build_directory() {
    assert!(templates::GIT_IGNORE.lines().any(|line| line == "build"));
    assert!(templates::GIT_IGNORE.lines().any(|line| line == "_deps"));
    assert_eq!(templates::GIT_IGNORE.lines().count(), 15);
}

#[test]
fn analyzer_config_has_checks_and_errors() {
    assert!(templates::CLANG_TIDY.starts_with("Checks: 'abseil-*,"));
    assert_eq!(templates::CLANG_TIDY.lines().count(), 2);
    assert!(templates::CLANG_TIDY.lines().nth(1).unwrap().starts_with("WarningsAsErrors: "));
}

#[test]
fn stubs_agree_between_the_two_layouts() {
    assert_eq!(file_contents::main_src("h"), templates::main_src("h"));
    assert_eq!(file_contents::hello_world_header("hpp"), templates::lib_hello_world_hdr("hpp"));
    assert_eq!(file_contents::hello_world_src("h"), templates::lib_hello_world_src("h"));
    assert_eq!(file_contents::test_hello_world_src("h"), templates::test_hello_world_src("h"));
    assert_eq!(file_contents::readme("demo"), templates::readme("demo"));
}

#[test]
fn library_descriptor_of_the_compiler_layout() {
    assert_eq!(file_contents::lib_cmake_lists_txt("cc"), "add_library(
  lib
  STATIC
  hello_world.cc
)

target_include_directories(
  lib
  PUBLIC
  # Add include directories here
)

target_link_libraries(
  lib
  PUBLIC
  # Add libraries here
)");
}

#[test]
fn test_descriptor_of_the_compiler_layout() {
    assert_eq!(file_contents::test_cmake_lists_txt("cpp"), "enable_testing()
set(CMAKE_CXX_CLANG_TIDY \"\")

include(FetchContent)
FetchContent_Declare(
  googletest
  GIT_REPOSITORY https://github.com/google/googletest.git
  GIT_TAG        52eb8108c5bdec04579160ae17225d66034bd723 # v1.17.0
)
FetchContent_MakeAvailable(googletest)

add_executable(
  test_hello_world
  test_hello_world.cpp
)

target_link_libraries(
  test_hello_world
  PRIVATE
  lib
  GTest::gtest_main
)

include(GoogleTest)
gtest_discover_tests(test_hello_world)");
}

#[test]
fn compile_options_depend_on_system_and_standard() {
    assert_eq!(
        file_contents::compile_options("20", HostOs::Linux),
        "add_compile_options(\n  -stdlib=libstdc++\n  -Wall\n  -Wextra\n)"
    );
    assert_eq!(
        file_contents::compile_options("23", HostOs::Linux),
        "add_compile_options(\n  -stdlib=libstdc++\n  -Wall\n  -Wextra\n\t-D__cpp_concepts=202002L\n  -Wno-builtin-macro-redefined\n)"
    );
    assert_eq!(
        file_contents::compile_options("23", HostOs::MacOs),
        "add_compile_options(\n  -stdlib=libc++\n  -Wall\n  -Wextra\n)"
    );
    assert_eq!(
        file_contents::compile_options("23", HostOs::Other),
        "add_compile_options(\n  -stdlib=\n  -Wall\n  -Wextra\n)"
    );
}

#[test]
fn root_descriptor_with_everything_chosen() {
    let compiler = String::from("g++");
    let version = String::from("17");
    let description = String::from("a demo");
    let text = file_contents::root_cmake_lists_txt(
        "demo",
        Some(&compiler),
        Some(&version),
        Some(&description),
        "cc",
        HostOs::Linux,
    );
    assert_eq!(text, "cmake_minimum_required(VERSION 3.28)

set(CMAKE_CXX_COMPILER /usr/bin/g++)
set(CMAKE_CXX_STANDARD 17)
set(CMAKE_CXX_STANDARD_REQUIRED True)
set(CMAKE_EXPORT_COMPILE_COMMANDS ON)
if(STATIC_CHECK)
  set(CMAKE_CXX_CLANG_TIDY clang-tidy)
endif()

add_compile_options(
  -stdlib=libstdc++
  -Wall
  -Wextra
)

project(
  demo
  VERSION 1.0
  DESCRIPTION \"a demo\"
  LANGUAGES CXX
)

add_subdirectory(src/lib)

# Executable
add_executable(
  demo
  src/main.cc
)

# Include paths
target_include_directories(
  demo
  PRIVATE
  src/lib
)

# Dependencies
target_link_libraries(
  demo
  PRIVATE
  lib
)
  
# Tests
if(BUILD_TESTING)
  include(CTest)
  add_subdirectory(test)
endif()");
}

#[test]
fn root_descriptor_with_nothing_chosen() {
    let text = file_contents::root_cmake_lists_txt("demo", None, None, None, "cpp", HostOs::MacOs);
    assert_eq!(text, "cmake_minimum_required(VERSION 3.28)

set(CMAKE_CXX_COMPILER /usr/bin/clang++)
set(CMAKE_CXX_STANDARD 23)
set(CMAKE_CXX_STANDARD_REQUIRED True)
set(CMAKE_EXPORT_COMPILE_COMMANDS ON)
if(STATIC_CHECK)
  set(CMAKE_CXX_CLANG_TIDY clang-tidy)
endif()

add_compile_options(
  -stdlib=libc++
  -Wall
  -Wextra
)

project(
  demo
  VERSION 1.0
  DESCRIPTION \"\"
  LANGUAGES CXX
)

add_subdirectory(src/lib)

# Executable
add_executable(
  demo
  src/main.cpp
)

# Include paths
target_include_directories(
  demo
  PRIVATE
  src/lib
)

# Dependencies
target_link_libraries(
  demo
  PRIVATE
  lib
)
  
# Tests
if(BUILD_TESTING)
  include(CTest)
  add_subdirectory(test)
endif()");
}
