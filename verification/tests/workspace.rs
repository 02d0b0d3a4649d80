use csharp_toolchain::workspace::context_variables;
use csharp_toolchain::workspace::file_stem;
use csharp_toolchain::workspace::find_project_file;
use csharp_toolchain::workspace::has_extension_ci;
use csharp_toolchain::workspace::offered_tasks;
use csharp_toolchain::workspace::DirListing;
use csharp_toolchain::workspace::ProjectFileKind;
use csharp_toolchain::workspace::TaskKind;
use csharp_toolchain::workspace::TaskVar;

fn listing(files: &[&str]) -> DirListing {
    DirListing {
        files: files.iter().map(|f| f.to_string()).collect(),
    }
}

#[test]
fn extension_matches_ignore_ascii_case() {
    assert!(has_extension_ci("App.CSPROJ", "csproj"));
    assert!(has_extension_ci("app.csproj", "CSPROJ"));
    assert!(!has_extension_ci("app.csproj", "sln"));
    assert!(!has_extension_ci("csproj", "csproj"));
    assert!(!has_extension_ci(".csproj", "csproj"));
}

#[test]
fn stem_strips_the_last_extension_only() {
    assert_eq!(file_stem("App.csproj"), "App");
    assert_eq!(file_stem("archive.tar.gz"), "archive.tar");
    assert_eq!(file_stem("noext"), "noext");
    assert_eq!(file_stem(".gitignore"), ".gitignore");
}

#[test]
fn nearest_project_file_wins() {
    let dirs = vec![
        listing(&["Program.cs"]),
        listing(&["readme.md", "App.csproj"]),
        listing(&["Outer.csproj"]),
    ];
    let found = find_project_file(&dirs).unwrap();
    assert_eq!(found.dir, 1);
    assert_eq!(found.file, 1);
    assert_eq!(found.kind, ProjectFileKind::Project);
}

#[test]
fn project_beats_solution_even_when_solution_is_nearer() {
    let dirs = vec![
        listing(&["All.sln"]),
        listing(&["App.csproj"]),
    ];
    let found = find_project_file(&dirs).unwrap();
    assert_eq!(found.kind, ProjectFileKind::Project);
    assert_eq!(found.dir, 1);
}

#[test]
fn first_solution_is_the_fallback() {
    let dirs = vec![
        listing(&["notes.txt"]),
        listing(&["zzz.sln", "aaa.sln"]),
    ];
    let found = find_project_file(&dirs).unwrap();
    assert_eq!(found.kind, ProjectFileKind::Solution);
    assert_eq!(found.dir, 1);
    assert_eq!(found.file, 0);
}

#[test]
fn no_project_or_solution_yields_none() {
    let dirs = vec![listing(&["main.rs"]), listing(&[])];
    assert!(find_project_file(&dirs).is_none());
}

#[test]
fn context_variables_for_a_project() {
    let vars = context_variables(
        &"/src/App/App.csproj".to_string(),
        &"/src/App".to_string(),
        &"App".to_string(),
        &None,
    );
    assert_eq!(
        vars,
        vec![
            (TaskVar::Project, "/src/App/App.csproj".to_string()),
            (TaskVar::ProjectDir, "/src/App".to_string()),
            (TaskVar::ProjectName, "App".to_string()),
        ]
    );
}

#[test]
fn context_variables_for_a_solution() {
    let vars = context_variables(
        &"/src/All.sln".to_string(),
        &"/src".to_string(),
        &"All".to_string(),
        &Some("All.sln".to_string()),
    );
    assert_eq!(vars.len(), 4);
    assert_eq!(vars[3], (TaskVar::Solution, "All.sln".to_string()));
}

#[test]
fn executable_output_offers_run() {
    let tasks = offered_tasks(&Some("Exe".to_string()), &None);
    assert_eq!(
        tasks,
        vec![
            TaskKind::Build,
            TaskKind::Run,
            TaskKind::Restore,
            TaskKind::Publish,
        ]
    );
}

#[test]
fn winexe_output_offers_run_too() {
    let tasks = offered_tasks(&Some("WinExe".to_string()), &None);
    assert!(tasks.contains(&TaskKind::Run));
}

#[test]
fn test_project_offers_test_actions() {
    let tasks = offered_tasks(&Some("Library".to_string()), &Some("true".to_string()));
    assert_eq!(
        tasks,
        vec![
            TaskKind::Build,
            TaskKind::Test,
            TaskKind::TestSymbol,
            TaskKind::Restore,
            TaskKind::Publish,
        ]
    );
}

#[test]
fn plain_library_offers_the_basic_actions() {
    let tasks = offered_tasks(&Some("Library".to_string()), &Some("false".to_string()));
    assert_eq!(
        tasks,
        vec![TaskKind::Build, TaskKind::Restore, TaskKind::Publish]
    );
}
