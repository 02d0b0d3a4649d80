//! The extracted-archive search: an archive's layout is never assumed,
//! so the binary is looked for at every depth of the extracted tree. The
//! tree is handed in as plain data — a listing of files and
//! subdirectories — and the search yields the path of components leading
//! to a file of the wanted name, or reports cleanly that there is none.

use vstd::prelude::*;

use crate::text::to_char_vec;
use crate::text::vec_eq;

verus! {

/// One entry of a directory tree.
pub struct FsEntry {
    /// The entry's file name.
    pub name: String,
    /// What the entry is.
    pub kind: FsKind,
}

/// A tree entry is a plain file or a subdirectory with its own entries.
pub enum FsKind {
    /// A plain file.
    File,
    /// A subdirectory and its entries, in listing order.
    Dir(Vec<FsEntry>),
}

/// The entry is, or holds at any depth, a file named `target`.
pub open spec fn entry_holds_file(e: FsEntry, target: Seq<char>) -> bool
    decreases e,
{
    match e.kind {
        FsKind::File => e.name@ == target,
        FsKind::Dir(children) => entries_contain_file(children@, target),
    }
}

/// Some entry of the listing is, or holds, a file named `target`.
pub open spec fn entries_contain_file(entries: Seq<FsEntry>, target: Seq<char>) -> bool
    decreases entries,
{
    exists|i: int| 0 <= i < entries.len() && entry_holds_file(#[trigger] entries[i], target)
}

/// The path starts at this entry and leads to a file named `target`.
pub open spec fn path_step(e: FsEntry, path: Seq<Seq<char>>, target: Seq<char>) -> bool
    decreases path.len(), 0int,
{
    match e.kind {
        FsKind::File => path.len() == 1 && e.name@ == path[0] && e.name@ == target,
        FsKind::Dir(children) => path.len() > 1 && e.name@ == path[0] && path_resolves(
            children@,
            path.drop_first(),
            target,
        ),
    }
}

/// The component path `path` leads from the listing to a file named
/// `target`.
pub open spec fn path_resolves(entries: Seq<FsEntry>, path: Seq<Seq<char>>, target: Seq<char>) -> bool
    decreases path.len(), 1int,
{
    path.len() > 0 && exists|i: int|
        0 <= i < entries.len() && path_step(#[trigger] entries[i], path, target)
}

/// The character sequences of a path's components.
pub open spec fn path_view(path: Seq<String>) -> Seq<Seq<char>> {
    path.map_values(|s: String| s@)
}

/// Searches the tree for a file named `target`, at any depth; the found
/// file's component path comes back, or nothing when no such file exists
/// anywhere in the tree.
fn find_in_entries(entries: &Vec<FsEntry>, target: &Vec<char>) -> (r: Option<Vec<String>>)
    ensures
        match r {
            Some(path) => path_resolves(entries@, path_view(path@), target@)
                && entries_contain_file(entries@, target@),
            None => !entries_contain_file(entries@, target@),
        },
    decreases entries@,
{
    let mut i: usize = 0;
    while i < entries.len()
        invariant
            i <= entries@.len(),
            forall|j: int| 0 <= j < i ==> !entry_holds_file(#[trigger] entries@[j], target@),
        decreases entries@.len() - i,
    {
        let entry = &entries[i];
        match &entry.kind {
            FsKind::File => {
                let nv = to_char_vec(entry.name.as_str());
                if vec_eq(&nv, target) {
                    let mut path: Vec<String> = Vec::new();
                    path.push(entry.name.clone());
                    proof {
                        assert(entry_holds_file(entries@[i as int], target@));
                        assert(path_view(path@) =~= seq![entry.name@]);
                        assert(path_resolves(entries@, path_view(path@), target@));
                    }
                    return Some(path);
                }
            },
            FsKind::Dir(children) => {
                proof {
                    assert(decreases_to!(entries@ => entries@[i as int]));
                    assert(decreases_to!(entries@[i as int] => entries@[i as int].kind));
                    assert(decreases_to!(entries@[i as int].kind => entries@[i as int].kind->0));
                    assert(decreases_to!(entries@[i as int].kind->0 => entries@[i as int].kind->0@));
                }
                match find_in_entries(children, target) {
                    Some(sub) => {
                        let ghost subview = sub@;
                        let mut path = sub;
                        path.insert(0, entry.name.clone());
                        proof {
                            assert(path@ =~= seq![path@[0]] + subview);
                            assert(path@[0]@ == entry.name@);
                            assert(path_view(path@).drop_first() =~= path_view(subview));
                            assert(path_step(entries@[i as int], path_view(path@), target@));
                            assert(path_resolves(entries@, path_view(path@), target@));
                            assert(entry_holds_file(entries@[i as int], target@));
                        }
                        return Some(path);
                    },
                    None => {
                        proof {
                            assert(!entry_holds_file(entries@[i as int], target@));
                        }
                    },
                }
            },
        }
        i = i + 1;
    }
    proof {
        if entries_contain_file(entries@, target@) {
            let j = choose|j: int|
                0 <= j < entries@.len() && entry_holds_file(#[trigger] entries@[j], target@);
            assert(!entry_holds_file(entries@[j], target@));
        }
    }
    None
}

/// Searches the extracted tree for the server binary by file name; finds
/// it at arbitrary depth, and reports absence cleanly when no file of
/// that name exists anywhere in the tree.
pub fn find_binary_in_dir(entries: &Vec<FsEntry>, filename: &str) -> (r: Option<Vec<String>>)
    ensures
        match r {
            Some(path) => path_resolves(entries@, path_view(path@), filename@)
                && entries_contain_file(entries@, filename@),
            None => !entries_contain_file(entries@, filename@),
        },
        r is Some <==> entries_contain_file(entries@, filename@),
{
    let t = to_char_vec(filename);
    find_in_entries(entries, &t)
}

} // verus!
