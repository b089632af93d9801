//! The collector of source files: from a directory tree, the paths of the
//! files whose names end with the source or the header suffix.

use crate::text::{ends_with, has_suffix, texts};
use vstd::prelude::*;
use vstd::string::*;

verus! {

broadcast use vstd::string::group_string_axioms;

/// One entry of a directory, as a walk of the file system found it.
#[derive(Debug, PartialEq, Eq)]
pub struct Entry {
    /// The entry's name within its directory.
    pub name: String,
    /// The entry's path.
    pub path: String,
    /// Whether the entry is a directory.
    pub is_dir: bool,
    /// What a directory holds, in the order in which it was listed.
    pub children: Vec<Entry>,
}

/// Whether a file of this name is collected.
pub open spec fn is_source_name(name: Seq<char>, src_ext: Seq<char>, hdr_ext: Seq<char>) -> bool {
    ends_with(name, src_ext) || ends_with(name, hdr_ext)
}

/// The files of one entry: itself, or the files below it if it is a
/// directory.
pub open spec fn files_of(entry: Entry) -> Seq<Entry>
    decreases entry,
{
    if entry.is_dir {
        files_in(entry.children@)
    } else {
        seq![entry]
    }
}

/// The files of a tree in the order of the walk: each directory's files
/// stand where the directory was listed.
pub open spec fn files_in(entries: Seq<Entry>) -> Seq<Entry>
    decreases entries,
{
    if entries.len() == 0 {
        Seq::empty()
    } else {
        files_in(entries.drop_last()) + files_of(entries.last())
    }
}

/// The paths collected from one entry.
pub open spec fn collected_from(entry: Entry, src_ext: Seq<char>, hdr_ext: Seq<char>) -> Seq<
    Seq<char>,
>
    decreases entry,
{
    if entry.is_dir {
        collected(entry.children@, src_ext, hdr_ext)
    } else if is_source_name(entry.name@, src_ext, hdr_ext) {
        seq![entry.path@]
    } else {
        Seq::empty()
    }
}

/// The paths collected from a tree: every directory is entered, and a
/// file is taken if its name ends with one of the two suffixes.
pub open spec fn collected(entries: Seq<Entry>, src_ext: Seq<char>, hdr_ext: Seq<char>) -> Seq<
    Seq<char>,
>
    decreases entries,
{
    if entries.len() == 0 {
        Seq::empty()
    } else {
        collected(entries.drop_last(), src_ext, hdr_ext) + collected_from(
            entries.last(),
            src_ext,
            hdr_ext,
        )
    }
}

/// The paths of those of `files` whose names end with one of the two
/// suffixes, in the same order.
pub open spec fn source_paths(files: Seq<Entry>, src_ext: Seq<char>, hdr_ext: Seq<char>) -> Seq<
    Seq<char>,
>
    decreases files.len(),
{
    if files.len() == 0 {
        Seq::empty()
    } else if is_source_name(files.last().name@, src_ext, hdr_ext) {
        source_paths(files.drop_last(), src_ext, hdr_ext).push(files.last().path@)
    } else {
        source_paths(files.drop_last(), src_ext, hdr_ext)
    }
}

/// How many of `files` have a name that ends with one of the two suffixes.
pub open spec fn source_count(files: Seq<Entry>, src_ext: Seq<char>, hdr_ext: Seq<char>) -> nat
    decreases files.len(),
{
    if files.len() == 0 {
        0
    } else if is_source_name(files.last().name@, src_ext, hdr_ext) {
        source_count(files.drop_last(), src_ext, hdr_ext) + 1
    } else {
        source_count(files.drop_last(), src_ext, hdr_ext)
    }
}

/// The source paths of two runs of files are those of the first, then
/// those of the second.
pub proof fn lemma_source_paths_add(
    a: Seq<Entry>,
    b: Seq<Entry>,
    src_ext: Seq<char>,
    hdr_ext: Seq<char>,
)
    ensures
        source_paths(a + b, src_ext, hdr_ext) == source_paths(a, src_ext, hdr_ext) + source_paths(
            b,
            src_ext,
            hdr_ext,
        ),
    decreases b.len(),
{
    if b.len() == 0 {
        assert(a + b == a);
    } else {
        assert((a + b).drop_last() == a + b.drop_last());
        lemma_source_paths_add(a, b.drop_last(), src_ext, hdr_ext);
    }
}

/// The collector is complete and exact: what it collects from a tree are
/// the paths of the files in it whose names end with one of the two
/// suffixes, each once and in the order of the walk, and nothing else.
pub proof fn lemma_collected_is_source_paths(
    entries: Seq<Entry>,
    src_ext: Seq<char>,
    hdr_ext: Seq<char>,
)
    ensures
        collected(entries, src_ext, hdr_ext) == source_paths(files_in(entries), src_ext, hdr_ext),
    decreases entries,
{
    if entries.len() == 0 {
        assert(files_in(entries) == Seq::<Entry>::empty());
        assert(collected(entries, src_ext, hdr_ext) == Seq::<Seq<char>>::empty());
    } else {
        let last = entries.last();
        lemma_collected_is_source_paths(entries.drop_last(), src_ext, hdr_ext);
        lemma_source_paths_add(files_in(entries.drop_last()), files_of(last), src_ext, hdr_ext);
        assert(files_in(entries) == files_in(entries.drop_last()) + files_of(last));
        assert(collected(entries, src_ext, hdr_ext) == collected(
            entries.drop_last(),
            src_ext,
            hdr_ext,
        ) + collected_from(last, src_ext, hdr_ext));
        if last.is_dir {
            lemma_collected_is_source_paths(last.children@, src_ext, hdr_ext);
        } else {
            let one = seq![last];
            assert(one.drop_last() == Seq::<Entry>::empty());
            assert(one.last() == last);
            assert(source_paths(one.drop_last(), src_ext, hdr_ext) == Seq::<Seq<char>>::empty());
            if is_source_name(last.name@, src_ext, hdr_ext) {
                assert(Seq::<Seq<char>>::empty().push(last.path@) == seq![last.path@]);
            }
            assert(source_paths(one, src_ext, hdr_ext) == collected_from(last, src_ext, hdr_ext));
        }
    }
}

/// As many paths are collected as the tree has files with a matching name.
pub proof fn lemma_collected_count(entries: Seq<Entry>, src_ext: Seq<char>, hdr_ext: Seq<char>)
    ensures
        collected(entries, src_ext, hdr_ext).len() == source_count(
            files_in(entries),
            src_ext,
            hdr_ext,
        ),
{
    lemma_collected_is_source_paths(entries, src_ext, hdr_ext);
    lemma_source_paths_len(files_in(entries), src_ext, hdr_ext);
}

proof fn lemma_source_paths_len(files: Seq<Entry>, src_ext: Seq<char>, hdr_ext: Seq<char>)
    ensures
        source_paths(files, src_ext, hdr_ext).len() == source_count(files, src_ext, hdr_ext),
    decreases files.len(),
{
    if files.len() > 0 {
        lemma_source_paths_len(files.drop_last(), src_ext, hdr_ext);
    }
}

/// Appends to `src_files` the paths collected from `entries`.
pub fn collect_src_files(
    entries: &Vec<Entry>,
    src_ext: &str,
    hdr_ext: &str,
    src_files: &mut Vec<String>,
)
    ensures
        texts(final(src_files)@) == texts(old(src_files)@) + collected(
            entries@,
            src_ext@,
            hdr_ext@,
        ),
    decreases entries,
{
    let ghost before = texts(src_files@);
    let mut i: usize = 0;
    proof {
        assert(entries@.take(0) == Seq::<Entry>::empty());
        assert(before + Seq::<Seq<char>>::empty() == before);
    }
    while i < entries.len()
        invariant
            i <= entries.len(),
            texts(src_files@) == before + collected(entries@.take(i as int), src_ext@, hdr_ext@),
        decreases entries.len() - i,
    {
        let entry = &entries[i];
        let ghost sofar = collected(entries@.take(i as int), src_ext@, hdr_ext@);
        proof {
            let next = entries@.take(i + 1);
            assert(next.drop_last() == entries@.take(i as int));
            assert(next.last() == *entry);
            assert(collected(next, src_ext@, hdr_ext@) == sofar + collected_from(
                *entry,
                src_ext@,
                hdr_ext@,
            ));
        }
        if entry.is_dir {
            collect_src_files(&entry.children, src_ext, hdr_ext, src_files);
            assert(before + sofar + collected(entry.children@, src_ext@, hdr_ext@) == before + (
            sofar + collected(entry.children@, src_ext@, hdr_ext@)));
        } else if has_suffix(entry.name.as_str(), src_ext) || has_suffix(
            entry.name.as_str(),
            hdr_ext,
        ) {
            let ghost old_files = src_files@;
            src_files.push(entry.path.clone());
            assert(texts(src_files@) == texts(old_files) + seq![entry.path@]);
            assert(before + sofar + seq![entry.path@] == before + (sofar + seq![entry.path@]));
        } else {
            assert(sofar + Seq::<Seq<char>>::empty() == sofar);
        }
        i += 1;
    }
    assert(entries@.take(i as int) == entries@);
}

} // verus!
