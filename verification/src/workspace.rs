//! Project-file discovery and task selection: which project or solution
//! file encloses a buffer (nearest `.csproj` preferred, first `.sln`
//! otherwise), the task variables built from it, and which auxiliary
//! actions the extracted build metadata allows. The directory listings
//! are handed in as plain data; walking the real filesystem stays with
//! the caller.

use vstd::prelude::*;

use crate::release::opt_view;
use crate::text::lower_seq;
use crate::text::lower_vec;
use crate::text::subvec;
use crate::text::to_char_vec;
use crate::text::chars_to_string;
use crate::text::vec_eq;

verus! {

// ---------------------------------------------------------------------
// File-name extension and stem.
// ---------------------------------------------------------------------
/// Position `i` holds the last dot of the name, not counting a dot in
/// first position (a leading dot marks a hidden file, not an extension).
pub open spec fn is_last_dot(name: Seq<char>, i: int) -> bool {
    &&& 1 <= i < name.len()
    &&& name[i] == '.'
    &&& forall|j: int| i < j < name.len() ==> name[j] != '.'
}

/// The file name's extension: what follows the last dot, when one
/// exists past the first position.
pub open spec fn extension_of(name: Seq<char>) -> Option<Seq<char>> {
    if exists|i: int| is_last_dot(name, i) {
        let i = choose|i: int| is_last_dot(name, i);
        Some(name.subrange(i + 1, name.len() as int))
    } else {
        None
    }
}

/// The file name's stem: what precedes the last dot, or the whole name.
pub open spec fn stem_of(name: Seq<char>) -> Seq<char> {
    if exists|i: int| is_last_dot(name, i) {
        let i = choose|i: int| is_last_dot(name, i);
        name.subrange(0, i)
    } else {
        name
    }
}

/// The name carries the extension `ext`, ASCII case ignored.
pub open spec fn has_ext_ci(name: Seq<char>, ext: Seq<char>) -> bool {
    match extension_of(name) {
        Some(e) => lower_seq(e) == lower_seq(ext),
        None => false,
    }
}

pub proof fn lemma_last_dot_unique(name: Seq<char>, i: int)
    requires
        is_last_dot(name, i),
    ensures
        (exists|k: int| is_last_dot(name, k)),
        (choose|k: int| is_last_dot(name, k)) == i,
{
    let k = choose|k: int| is_last_dot(name, k);
    assert(is_last_dot(name, k));
    if k < i {
        assert(name[i] != '.');
    }
    if i < k {
        assert(name[k] != '.');
    }
}

/// The last dot of the name past the first position, if any.
fn find_last_dot(v: &Vec<char>) -> (r: Option<usize>)
    ensures
        match r {
            Some(i) => is_last_dot(v@, i as int),
            None => !(exists|i: int| is_last_dot(v@, i)),
        },
{
    let mut e: usize = v.len();
    while e > 1
        invariant
            e <= v@.len(),
            forall|j: int| e <= j < v@.len() ==> v@[j] != '.',
        decreases e,
    {
        e = e - 1;
        if v[e] == '.' {
            return Some(e);
        }
    }
    proof {
        if exists|i: int| is_last_dot(v@, i) {
            let i = choose|i: int| is_last_dot(v@, i);
            assert(v@[i] != '.');
        }
    }
    None
}

/// Whether the file name carries the extension `ext`, ASCII case
/// ignored, as the enclosing-project walk compares extensions.
pub fn has_extension_ci(name: &str, ext: &str) -> (r: bool)
    ensures
        r == has_ext_ci(name@, ext@),
{
    let v = to_char_vec(name);
    match find_last_dot(&v) {
        Some(i) => {
            proof {
                lemma_last_dot_unique(v@, i as int);
                assert(i < v.len());
            }
            let e = subvec(&v, i + 1, v.len());
            let el = lower_vec(&e);
            let wl = lower_vec(&to_char_vec(ext));
            vec_eq(&el, &wl)
        },
        None => false,
    }
}

/// The file name's stem, used as the project's display name.
pub fn file_stem(name: &str) -> (r: String)
    ensures
        r@ == stem_of(name@),
{
    let v = to_char_vec(name);
    match find_last_dot(&v) {
        Some(i) => {
            proof {
                lemma_last_dot_unique(v@, i as int);
            }
            let s = subvec(&v, 0, i);
            chars_to_string(&s)
        },
        None => chars_to_string(&v),
    }
}

// ---------------------------------------------------------------------
// The directory-ancestor walk.
// ---------------------------------------------------------------------
/// The plain files of one directory, in listing order.
pub struct DirListing {
    /// The file names.
    pub files: Vec<String>,
}

/// The name is a project file.
pub open spec fn is_csproj(name: Seq<char>) -> bool {
    has_ext_ci(name, "csproj"@)
}

/// The name is a solution file.
pub open spec fn is_sln(name: Seq<char>) -> bool {
    has_ext_ci(name, "sln"@)
}

/// `(d, f)` is the project file the walk selects: in the nearest
/// ancestor directory holding one, the first in listing order.
pub open spec fn is_first_csproj(dirs: Seq<DirListing>, d: int, f: int) -> bool {
    &&& 0 <= d < dirs.len()
    &&& 0 <= f < dirs[d].files@.len()
    &&& is_csproj(dirs[d].files@[f]@)
    &&& forall|f2: int| 0 <= f2 < f ==> !is_csproj(#[trigger] dirs[d].files@[f2]@)
    &&& forall|d2: int, f2: int|
        0 <= d2 < d && 0 <= f2 < dirs[d2].files@.len() ==> !is_csproj(
            #[trigger] dirs[d2].files@[f2]@,
        )
}

/// `(d, f)` is the first solution file in walk order.
pub open spec fn is_first_sln(dirs: Seq<DirListing>, d: int, f: int) -> bool {
    &&& 0 <= d < dirs.len()
    &&& 0 <= f < dirs[d].files@.len()
    &&& is_sln(dirs[d].files@[f]@)
    &&& forall|d2: int, f2: int|
        0 <= d2 < dirs.len() && 0 <= f2 < dirs[d2].files@.len() && (d2 < d || (d2 == d && f2 < f))
            ==> !is_sln(#[trigger] dirs[d2].files@[f2]@)
}

/// No project file exists anywhere in the walked directories.
pub open spec fn no_csproj(dirs: Seq<DirListing>) -> bool {
    forall|d2: int, f2: int|
        0 <= d2 < dirs.len() && 0 <= f2 < dirs[d2].files@.len() ==> !is_csproj(
            #[trigger] dirs[d2].files@[f2]@,
        )
}

/// No solution file exists anywhere in the walked directories.
pub open spec fn no_sln(dirs: Seq<DirListing>) -> bool {
    forall|d2: int, f2: int|
        0 <= d2 < dirs.len() && 0 <= f2 < dirs[d2].files@.len() ==> !is_sln(
            #[trigger] dirs[d2].files@[f2]@,
        )
}

/// What kind of file the walk found.
#[derive(Clone, Copy, Debug, PartialEq, Eq, Structural)]
pub enum ProjectFileKind {
    /// A `.csproj` project file.
    Project,
    /// A `.sln` solution file.
    Solution,
}

/// The file the walk selected: directory index, file index, and kind.
#[derive(Clone, Copy, Debug, PartialEq, Eq, Structural)]
pub struct ProjectFileRef {
    /// Index of the directory in the walked ancestor list.
    pub dir: usize,
    /// Index of the file in that directory's listing.
    pub file: usize,
    /// Whether a project or a solution file was selected.
    pub kind: ProjectFileKind,
}

/// Walks the ancestor directories, nearest first, and selects the
/// enclosing project file: the first `.csproj` of the nearest directory
/// holding one, and failing that the first `.sln` seen anywhere.
pub fn find_project_file(dirs: &Vec<DirListing>) -> (r: Option<ProjectFileRef>)
    ensures
        match r {
            Some(p) => match p.kind {
                ProjectFileKind::Project => is_first_csproj(dirs@, p.dir as int, p.file as int),
                ProjectFileKind::Solution => is_first_sln(dirs@, p.dir as int, p.file as int)
                    && no_csproj(dirs@),
            },
            None => no_csproj(dirs@) && no_sln(dirs@),
        },
{
    let mut sln: Option<(usize, usize)> = None;
    let mut d: usize = 0;
    while d < dirs.len()
        invariant
            d <= dirs@.len(),
            forall|d2: int, f2: int|
                0 <= d2 < d && 0 <= f2 < dirs@[d2].files@.len() ==> !is_csproj(
                    #[trigger] dirs@[d2].files@[f2]@,
                ),
            match sln {
                Some(s) => {
                    &&& (s.0 as int) < d
                    &&& (s.1 as int) < dirs@[s.0 as int].files@.len()
                    &&& is_sln(dirs@[s.0 as int].files@[s.1 as int]@)
                    &&& forall|d2: int, f2: int|
                        0 <= d2 < d && 0 <= f2 < dirs@[d2].files@.len() && (d2 < s.0 as int || (d2
                            == s.0 as int && f2 < s.1 as int)) ==> !is_sln(
                            #[trigger] dirs@[d2].files@[f2]@,
                        )
                },
                None => forall|d2: int, f2: int|
                    0 <= d2 < d && 0 <= f2 < dirs@[d2].files@.len() ==> !is_sln(
                        #[trigger] dirs@[d2].files@[f2]@,
                    ),
            },
        decreases dirs@.len() - d,
    {
        let files = &dirs[d].files;
        let mut f: usize = 0;
        while f < files.len()
            invariant
                f <= files@.len(),
                files@ == dirs@[d as int].files@,
                d < dirs@.len(),
                forall|f2: int| 0 <= f2 < f ==> !is_csproj(#[trigger] files@[f2]@),
                forall|d2: int, f2: int|
                    0 <= d2 < d && 0 <= f2 < dirs@[d2].files@.len() ==> !is_csproj(
                        #[trigger] dirs@[d2].files@[f2]@,
                    ),
                match sln {
                    Some(s) => {
                        &&& (s.0 as int) < dirs@.len()
                        &&& (s.0 as int) < d || ((s.0 as int) == d && (s.1 as int) < f)
                        &&& (s.1 as int) < dirs@[s.0 as int].files@.len()
                        &&& is_sln(dirs@[s.0 as int].files@[s.1 as int]@)
                        &&& forall|d2: int, f2: int|
                            0 <= d2 < dirs@.len() && 0 <= f2 < dirs@[d2].files@.len() && (d2 < d
                                || (d2 == d && f2 < f)) && (d2 < s.0 as int || (d2 == s.0 as int
                                && f2 < s.1 as int)) ==> !is_sln(#[trigger] dirs@[d2].files@[f2]@)
                    },
                    None => forall|d2: int, f2: int|
                        0 <= d2 < dirs@.len() && 0 <= f2 < dirs@[d2].files@.len() && (d2 < d || (d2
                            == d && f2 < f)) ==> !is_sln(#[trigger] dirs@[d2].files@[f2]@),
                },
            decreases files@.len() - f,
        {
            let name = &files[f];
            if has_extension_ci(name.as_str(), "csproj") {
                return Some(
                    ProjectFileRef { dir: d, file: f, kind: ProjectFileKind::Project },
                );
            }
            if has_extension_ci(name.as_str(), "sln") {
                if sln.is_none() {
                    sln = Some((d, f));
                }
            }
            f = f + 1;
        }
        d = d + 1;
    }
    match sln {
        Some((sd, sf)) => Some(
            ProjectFileRef { dir: sd, file: sf, kind: ProjectFileKind::Solution },
        ),
        None => None,
    }
}

// ---------------------------------------------------------------------
// Task variables for the selected project file.
// ---------------------------------------------------------------------
/// The task variables the selected project file provides.
#[derive(Clone, Copy, Debug, PartialEq, Eq, Structural)]
pub enum TaskVar {
    /// The project file's full path.
    Project,
    /// The directory holding the project file.
    ProjectDir,
    /// The project file's stem.
    ProjectName,
    /// The solution file's name, only when a solution was selected.
    Solution,
}

/// Builds the variable assignments for the selected project file: path,
/// directory and name always, and the solution file name exactly when a
/// solution was selected.
pub fn context_variables(
    project_path: &String,
    project_dir: &String,
    project_name: &String,
    solution_file: &Option<String>,
) -> (r: Vec<(TaskVar, String)>)
    ensures
        r@.len() == if solution_file is Some {
            4int
        } else {
            3int
        },
        r@[0].0 is Project && r@[0].1@ == project_path@,
        r@[1].0 is ProjectDir && r@[1].1@ == project_dir@,
        r@[2].0 is ProjectName && r@[2].1@ == project_name@,
        solution_file matches Some(s) ==> r@[3].0 is Solution && r@[3].1@ == s@,
{
    let mut r: Vec<(TaskVar, String)> = Vec::new();
    r.push((TaskVar::Project, project_path.clone()));
    r.push((TaskVar::ProjectDir, project_dir.clone()));
    r.push((TaskVar::ProjectName, project_name.clone()));
    match solution_file {
        Some(s) => {
            r.push((TaskVar::Solution, s.clone()));
        },
        None => {},
    }
    r
}

// ---------------------------------------------------------------------
// Which auxiliary actions the extracted metadata allows.
// ---------------------------------------------------------------------
/// The auxiliary actions offered for a project.
#[derive(Clone, Copy, Debug, PartialEq, Eq, Structural)]
pub enum TaskKind {
    /// Build the project.
    Build,
    /// Run the project.
    Run,
    /// Run the project's tests.
    Test,
    /// Run the tests matching the symbol under the cursor.
    TestSymbol,
    /// Restore the project's packages.
    Restore,
    /// Publish the project in its release configuration.
    Publish,
}

/// An executable output kind: the extracted `OutputType`, lower-cased,
/// reads `exe` or `winexe`.
pub open spec fn can_run_spec(output_type: Option<Seq<char>>) -> bool {
    match output_type {
        Some(v) => lower_seq(v) == "exe"@ || lower_seq(v) == "winexe"@,
        None => false,
    }
}

/// A test project: the extracted `IsTestProject`, lower-cased, reads
/// `true`.
pub open spec fn is_test_spec(is_test_project: Option<Seq<char>>) -> bool {
    match is_test_project {
        Some(v) => lower_seq(v) == "true"@,
        None => false,
    }
}

/// The actions offered: build always; run only for executable outputs;
/// the two test actions only for test projects; restore and publish
/// always; in that order.
pub open spec fn offered_spec(can_run: bool, is_test: bool) -> Seq<TaskKind> {
    seq![TaskKind::Build] + (if can_run {
        seq![TaskKind::Run]
    } else {
        Seq::empty()
    }) + (if is_test {
        seq![TaskKind::Test, TaskKind::TestSymbol]
    } else {
        Seq::empty()
    }) + seq![TaskKind::Restore, TaskKind::Publish]
}

/// Decides which actions to offer from the extracted metadata values.
pub fn offered_tasks(output_type: &Option<String>, is_test_project: &Option<String>) -> (r: Vec<
    TaskKind,
>)
    ensures
        r@ == offered_spec(
            can_run_spec(opt_view(*output_type)),
            is_test_spec(opt_view(*is_test_project)),
        ),
{
    let mut r: Vec<TaskKind> = Vec::new();
    r.push(TaskKind::Build);
    let can_run = match output_type {
        Some(v) => {
            let low = lower_vec(&to_char_vec(v.as_str()));
            vec_eq(&low, &to_char_vec("exe")) || vec_eq(&low, &to_char_vec("winexe"))
        },
        None => false,
    };
    if can_run {
        r.push(TaskKind::Run);
    }
    let is_test = match is_test_project {
        Some(v) => {
            let low = lower_vec(&to_char_vec(v.as_str()));
            vec_eq(&low, &to_char_vec("true"))
        },
        None => false,
    };
    if is_test {
        r.push(TaskKind::Test);
        r.push(TaskKind::TestSymbol);
    }
    r.push(TaskKind::Restore);
    r.push(TaskKind::Publish);
    proof {
        assert(r@ =~= offered_spec(
            can_run_spec(opt_view(*output_type)),
            is_test_spec(opt_view(*is_test_project)),
        ));
    }
    r
}

} // verus!
