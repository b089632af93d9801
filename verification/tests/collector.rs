use gojo::collect::{collect_src_files, Entry};

fn file(dir: &str, name: &str) -> Entry {
    Entry {
        name: String::from(name),
        path: format!("{}/{}", dir, name),
        is_dir: false,
        children: Vec::new(),
    }
}

fn dir(parent: &str, name: &str, children: Vec<Entry>) -> Entry {
    Entry {
        name: String::from(name),
        path: format!("{}/{}", parent, name),
        is_dir: true,
        children,
    }
}

#[test]
fn collects_exactly_the_matching_files() {
    let tree = vec![
        file("/p/src", "main.cc"),
        file("/p/src", "notes.txt"),
        dir(
            "/p/src",
            "lib",
            vec![
                file("/p/src/lib", "hello_world.cc"),
                file("/p/src/lib", "hello_world.h"),
                file("/p/src/lib", "CMakeLists.txt"),
                dir("/p/src/lib", "deep", vec![file("/p/src/lib/deep", "x.h"), file("/p/src/lib/deep", "x.o")]),
                dir("/p/src/lib", "empty", vec![]),
            ],
        ),
        file("/p/src", "util.h"),
        file("/p/src", "README"),
    ];
    let mut found = vec![String::from("-i")];
    collect_src_files(&tree, "cc", "h", &mut found);
    assert_eq!(
        found,
        vec![
            "-i",
            "/p/src/main.cc",
            "/p/src/lib/hello_world.cc",
            "/p/src/lib/hello_world.h",
            "/p/src/lib/deep/x.h",
            "/p/src/util.h",
        ]
    );
}

#[test]
fn empty_tree_adds_nothing() {
    let mut found = vec![String::from("kept")];
    collect_src_files(&Vec::new(), "cc", "h", &mut found);
    assert_eq!(found, vec!["kept"]);
}

#[test]
fn suffix_is_matched_without_a_dot() {
    let tree = vec![file("/p", "gcc"), file("/p", "main.cpp"), file("/p", "h"), file("/p", "c")];
    let mut found = Vec::new();
    collect_src_files(&tree, "cc", "h", &mut found);
    assert_eq!(found, vec!["/p/gcc", "/p/h"]);
}

#[test]
fn directories_are_entered_whatever_their_name() {
    let tree = vec![dir("/p", "arch", vec![file("/p/arch", "a.cc")]), dir("/p", "v.cc", vec![])];
    let mut found = Vec::new();
    collect_src_files(&tree, "cc", "h", &mut found);
    assert_eq!(found, vec!["/p/arch/a.cc"]);
}

#[test]
fn other_suffixes_are_configurable() {
    let tree = vec![file("/p", "a.cpp"), file("/p", "a.hpp"), file("/p", "a.cc"), file("/p", "a.h")];
    let mut found = Vec::new();
    collect_src_files(&tree, "cpp", "hpp", &mut found);
    assert_eq!(found, vec!["/p/a.cpp", "/p/a.hpp"]);
}
