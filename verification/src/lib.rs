//! `gojo` scaffolds C++ projects and drives the tools that build, format
//! and check them. This library is the part of it that decides: it parses
//! the command line, keeps the per-project configuration in its sidecar
//! format, renders the files of a new project, collects source files from
//! a directory tree, and turns each subcommand into a plan of steps. To
//! carry a plan out, to read and write files and to run the tools, is left
//! to the program around it.
//!
//! Contracts are stated over `Seq<char>`, the view of `str` and `String`,
//! and over views of the library's own types.

pub mod args;
pub mod collect;
pub mod commands;
pub mod config;
pub mod file_contents;
pub mod outside;
pub mod plan;
pub mod templates;
pub mod text;
