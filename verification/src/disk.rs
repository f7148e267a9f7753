//! What the caller has seen on disk, handed to the model as a value.

use vstd::prelude::*;
use vstd::string::*;

verus! {

/// The views of a list of texts.
pub open spec fn texts(s: Seq<String>) -> Seq<Seq<char>> {
    s.map_values(|t: String| t@)
}

/// The view of an optional text.
pub open spec fn opt_text(o: Option<String>) -> Option<Seq<char>> {
    match o {
        Some(t) => Some(t@),
        None => None,
    }
}

/// Moves the texts of `more` to the end of `list`.
pub fn append_texts(list: &mut Vec<String>, more: Vec<String>)
    ensures
        texts(final(list)@) == texts(old(list)@) + texts(more@),
{
    let ghost all = more@;
    let ghost mut done: int = 0;
    for text in it: more
        invariant
            it.seq() == all,
            done == it.index(),
            texts(list@) == texts(old(list)@) + texts(all.take(done)),
    {
        let ghost before = list@;
        list.push(text);
        proof {
            assert(texts(before.push(text)) =~= texts(before).push(text@));
            done = done + 1;
        }
    }
}

/// Whether `list` holds a text equal to `text`.
pub fn contains_text(list: &Vec<String>, text: &str) -> (r: bool)
    ensures
        r == texts(list@).contains(text@),
{
    let wanted = String::from_str(text);
    let mut i: usize = 0;
    while i < list.len()
        invariant
            i <= list@.len(),
            wanted@ == text@,
            forall|j: int| 0 <= j < i ==> texts(list@)[j] != text@,
        decreases list@.len() - i,
    {
        if list[i] == wanted {
            assert(texts(list@)[i as int] == text@);
            return true;
        }
        i += 1;
    }
    false
}

/// The paths that were found to exist when the caller looked: plain files
/// and directories. A path in neither list did not exist.
#[derive(Debug)]
pub struct DiskSnapshot {
    pub files: Vec<String>,
    pub directories: Vec<String>,
}

/// A snapshot as a value: the paths of the files and of the directories.
pub struct DiskView {
    pub files: Seq<Seq<char>>,
    pub directories: Seq<Seq<char>>,
}

impl DiskView {
    /// Whether the path was seen as a directory.
    pub open spec fn is_dir(self, path: Seq<char>) -> bool {
        self.directories.contains(path)
    }

    /// Whether the path was seen at all.
    pub open spec fn has(self, path: Seq<char>) -> bool {
        self.files.contains(path) || self.directories.contains(path)
    }
}

/// Two snapshots say the same of every path of the list.
pub open spec fn disks_agree(a: DiskView, b: DiskView, paths: Seq<Seq<char>>) -> bool {
    forall|i: int|
        0 <= i < paths.len() ==> a.has(#[trigger] paths[i]) == b.has(paths[i]) && a.is_dir(
            paths[i],
        ) == b.is_dir(paths[i])
}

/// The path that is given, as a list.
pub open spec fn given_path(path: Option<Seq<char>>) -> Seq<Seq<char>> {
    match path {
        Some(p) => seq![p],
        None => Seq::empty(),
    }
}

/// Snapshots that agree on a list agree on each part of it.
pub proof fn lemma_disks_agree_on_parts(
    a: DiskView,
    b: DiskView,
    first: Seq<Seq<char>>,
    second: Seq<Seq<char>>,
)
    requires
        disks_agree(a, b, first + second),
    ensures
        disks_agree(a, b, first),
        disks_agree(a, b, second),
{
    let all = first + second;
    assert forall|i: int| 0 <= i < first.len() implies a.has(#[trigger] first[i]) == b.has(
        first[i],
    ) && a.is_dir(first[i]) == b.is_dir(first[i]) by {
        assert(all[i] == first[i]);
    }
    assert forall|i: int| 0 <= i < second.len() implies a.has(#[trigger] second[i]) == b.has(
        second[i],
    ) && a.is_dir(second[i]) == b.is_dir(second[i]) by {
        assert(all[first.len() + i] == second[i]);
    }
}

impl View for DiskSnapshot {
    type V = DiskView;

    open spec fn view(&self) -> DiskView {
        DiskView { files: texts(self.files@), directories: texts(self.directories@) }
    }
}

impl DiskSnapshot {
    /// A snapshot in which nothing exists.
    pub fn new() -> (r: DiskSnapshot)
        ensures
            r@.files.len() == 0,
            r@.directories.len() == 0,
    {
        DiskSnapshot { files: Vec::new(), directories: Vec::new() }
    }

    /// Whether the path was seen as a directory.
    pub fn is_dir(&self, path: &str) -> (r: bool)
        ensures
            r == self@.is_dir(path@),
    {
        contains_text(&self.directories, path)
    }

    /// Whether the path was seen at all.
    pub fn has(&self, path: &str) -> (r: bool)
        ensures
            r == self@.has(path@),
    {
        contains_text(&self.files, path) || contains_text(&self.directories, path)
    }
}

} // verus!
