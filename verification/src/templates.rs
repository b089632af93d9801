//! The files of a new project: each renderer takes the few names that
//! the file depends on and returns the file's exact text.

use crate::outside::uppercase_of;
use vstd::prelude::*;
use vstd::string::*;

verus! {

/// The text of the root build descriptor.
pub open spec fn root_cmake_lists_txt_text(
    name: Seq<char>,
    std: Seq<char>,
    cpp: Seq<char>,
    version: Seq<char>,
) -> Seq<char> {
    "cmake_minimum_required(VERSION "@ + version + ")

project( "@ + name + "
  VERSION 1.0
  DESCRIPTION \"\" # TODO: Add a description.
  LANGUAGES CXX
)

set(CMAKE_CXX_STANDARD "@ + std + ")
set(CMAKE_CXX_STANDARD_REQUIRED True)
set(CMAKE_CXX_FLAGS \"${CMAKE_CXX_FLAGS} -Wall -Wextra -Werror\")

# Allow clangd and clang-tidy to do static analysis.
set(CMAKE_EXPORT_COMPILE_COMMANDS ON)

# Run clang-tidy. Used in 'gojo check' command.
if(STATIC_CHECK)
  set(CMAKE_CXX_CLANG_TIDY clang-tidy)
endif()

# Bring subdirectories into scope.
add_subdirectory(src/lib)

add_executable( "@ + name + "
  src/main."@ + cpp + "
)

# target_include_directories( "@ + name + "
    # Add include directories here.
# )

target_link_libraries( "@ + name + "
  lib
  # Add libraries here.
)
  
# Tests
if(BUILD_TESTING)
  include(CTest)
  add_subdirectory(test)
endif()"@
}

/// The root build descriptor of the project `name`, for the language
/// standard `std`, source files with the suffix `cpp`, and the build-system
/// generator's version `version`.
pub fn root_cmake_lists_txt(name: &str, std: &str, cpp: &str, version: &str) -> (text: String)
    ensures
        text@ == root_cmake_lists_txt_text(name@, std@, cpp@, version@),
{
    String::from_str("cmake_minimum_required(VERSION ").concat(version).concat(")

project( ").concat(name).concat("
  VERSION 1.0
  DESCRIPTION \"\" # TODO: Add a description.
  LANGUAGES CXX
)

set(CMAKE_CXX_STANDARD ").concat(std).concat(")
set(CMAKE_CXX_STANDARD_REQUIRED True)
set(CMAKE_CXX_FLAGS \"${CMAKE_CXX_FLAGS} -Wall -Wextra -Werror\")

# Allow clangd and clang-tidy to do static analysis.
set(CMAKE_EXPORT_COMPILE_COMMANDS ON)

# Run clang-tidy. Used in 'gojo check' command.
if(STATIC_CHECK)
  set(CMAKE_CXX_CLANG_TIDY clang-tidy)
endif()

# Bring subdirectories into scope.
add_subdirectory(src/lib)

add_executable( ").concat(name).concat("
  src/main.").concat(cpp).concat("
)

# target_include_directories( ").concat(name).concat("
    # Add include directories here.
# )

target_link_libraries( ").concat(name).concat("
  lib
  # Add libraries here.
)
  
# Tests
if(BUILD_TESTING)
  include(CTest)
  add_subdirectory(test)
endif()")
}

/// The text of the main source stub.
pub open spec fn main_src_text(hpp: Seq<char>) -> Seq<char> {
    "#include \"lib/hello_world."@ + hpp + "\"
#include <iostream>

int main() {
  std::cout << hello_world() << \"\\n\";
  return 0;
}
"@
}

/// The main source stub, which includes the library header with the suffix `hpp`.
pub fn main_src(hpp: &str) -> (text: String)
    ensures
        text@ == main_src_text(hpp@),
{
    String::from_str("#include \"lib/hello_world.").concat(hpp).concat("\"
#include <iostream>

int main() {
  std::cout << hello_world() << \"\\n\";
  return 0;
}
")
}

/// The text of the library source stub.
pub open spec fn lib_hello_world_src_text(hpp: Seq<char>) -> Seq<char> {
    "#include \"hello_world."@ + hpp + "\"

const char* hello_world() {
  return \"Hello World!\";
}
"@
}

/// The library source stub, which includes its header with the suffix `hpp`.
pub fn lib_hello_world_src(hpp: &str) -> (text: String)
    ensures
        text@ == lib_hello_world_src_text(hpp@),
{
    String::from_str("#include \"hello_world.").concat(hpp).concat("\"

const char* hello_world() {
  return \"Hello World!\";
}
")
}

/// The text of the library header stub whose include guard ends in `guard`.
pub open spec fn guarded_header_text(guard: Seq<char>) -> Seq<char> {
    "#ifndef LIB_HELLO_WORLD_"@ + guard + "
#define LIB_HELLO_WORLD_"@ + guard + "

const char* hello_world();

#endif
"@
}

/// The library header stub whose include guard ends in `guard`.
pub fn guarded_header(guard: &str) -> (text: String)
    ensures
        text@ == guarded_header_text(guard@),
{
    String::from_str("#ifndef LIB_HELLO_WORLD_").concat(guard).concat("
#define LIB_HELLO_WORLD_").concat(guard).concat("

const char* hello_world();

#endif
")
}

/// The text of the library header stub for the suffix `hpp`: its include
/// guard ends in the suffix in upper case.
pub open spec fn lib_hello_world_hdr_text(hpp: Seq<char>) -> Seq<char> {
    guarded_header_text(uppercase_of(hpp))
}

/// The library header stub for headers with the suffix `hpp`.
pub fn lib_hello_world_hdr(hpp: &str) -> (text: String)
    ensures
        text@ == lib_hello_world_hdr_text(hpp@),
{
    let upper = hpp.to_uppercase();
    guarded_header(upper.as_str())
}

/// The text of the library build descriptor.
pub open spec fn lib_cmake_lists_txt_text(cpp: Seq<char>) -> Seq<char> {
    "add_library( lib
  STATIC
  hello_world."@ + cpp + "
)

# target_include_directories( lib
    # Add include directories here.
# )

target_link_libraries( lib
  # Add libraries here.
)"@
}

/// The library build descriptor, for source files with the suffix `cpp`.
pub fn lib_cmake_lists_txt(cpp: &str) -> (text: String)
    ensures
        text@ == lib_cmake_lists_txt_text(cpp@),
{
    String::from_str("add_library( lib
  STATIC
  hello_world.").concat(cpp).concat("
)

# target_include_directories( lib
    # Add include directories here.
# )

target_link_libraries( lib
  # Add libraries here.
)")
}

/// The text of the test source stub.
pub open spec fn test_hello_world_src_text(hpp: Seq<char>) -> Seq<char> {
    "#include \"../src/lib/hello_world."@ + hpp + "\"

#include <gtest/gtest.h>

TEST(HelloTest, BasicAssertions) {
  EXPECT_EQ(hello_world(), \"Hello World!\");
}
"@
}

/// The test source stub, which includes the library header with the suffix `hpp`.
pub fn test_hello_world_src(hpp: &str) -> (text: String)
    ensures
        text@ == test_hello_world_src_text(hpp@),
{
    String::from_str("#include \"../src/lib/hello_world.").concat(hpp).concat("\"

#include <gtest/gtest.h>

TEST(HelloTest, BasicAssertions) {
  EXPECT_EQ(hello_world(), \"Hello World!\");
}
")
}

/// The text of the test build descriptor.
pub open spec fn test_cmake_lists_txt_text(cpp: Seq<char>) -> Seq<char> {
    "enable_testing()
set(CMAKE_CXX_CLANG_TIDY \"\")

#include(FetchContent)
#FetchContent_Declare(
#  googletest
#  GIT_REPOSITORY https://github.com/google/googletest.git
#  GIT_TAG        52eb8108c5bdec04579160ae17225d66034bd723 # v1.17.0
#)
#FetchContent_MakeAvailable(googletest)

include_directories($ENV{HOME}/.gojo/include)

add_executable( hello_world_test
  hello_world_test."@ + cpp + "
)

target_link_libraries( hello_world_test
  lib
  $ENV{HOME}/.gojo/lib/gtest/libgtest_main.a
  #GTest::gtest_main
)

include(GoogleTest)
gtest_discover_tests(hello_world_test)
# Add more tests here."@
}

/// The test build descriptor, for source files with the suffix `cpp`.
pub fn test_cmake_lists_txt(cpp: &str) -> (text: String)
    ensures
        text@ == test_cmake_lists_txt_text(cpp@),
{
    String::from_str("enable_testing()
set(CMAKE_CXX_CLANG_TIDY \"\")

#include(FetchContent)
#FetchContent_Declare(
#  googletest
#  GIT_REPOSITORY https://github.com/google/googletest.git
#  GIT_TAG        52eb8108c5bdec04579160ae17225d66034bd723 # v1.17.0
#)
#FetchContent_MakeAvailable(googletest)

include_directories($ENV{HOME}/.gojo/include)

add_executable( hello_world_test
  hello_world_test.").concat(cpp).concat("
)

target_link_libraries( hello_world_test
  lib
  $ENV{HOME}/.gojo/lib/gtest/libgtest_main.a
  #GTest::gtest_main
)

include(GoogleTest)
gtest_discover_tests(hello_world_test)
# Add more tests here.")
}

/// The text of the README stub.
pub open spec fn readme_text(name: Seq<char>) -> Seq<char> {
    "# "@ + name + "

TODO: write a readme...
"@
}

/// The README stub of the project `name`.
pub fn readme(name: &str) -> (text: String)
    ensures
        text@ == readme_text(name@),
{
    String::from_str("# ").concat(name).concat("

TODO: write a readme...
")
}

/// Rendering is deterministic to the byte. A renderer's text is a function
/// of its parameters, so two calls with the same parameters return texts
/// with the same characters; and texts with the same characters have the
/// same bytes.
pub proof fn lemma_same_text_same_bytes(first: &str, second: &str)
    requires
        first@ == second@,
    ensures
        first.spec_bytes() == second.spec_bytes(),
{
}

/// The contents of the analyzer's configuration file.
pub const CLANG_TIDY: &'static str = 
    "Checks: \'abseil-*,bugprone-*,clang-analyzer-*,cppcoreguidelines-*,google-*,modernize-*,performance-*,-modernize-use-trailing-return-type\'
WarningsAsErrors: \'bugprone-*,clang-analyzer-*,cppcoreguidelines-*\'";

/// The contents of the version-control ignore file.
pub const GIT_IGNORE: &'static str = "CMakeLists.txt.user
CMakeCache.txt
CMakeFiles
CMakeScripts
Testing
cmake_install.cmake
install_manifest.txt
compile_commands.json
CTestTestfile.cmake
_deps
CMakeUserPresets.json
build
.cache
.vscode
.DS_Store";

} // verus!
