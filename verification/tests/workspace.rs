use std::path::{Path, PathBuf};

use dsh_desktop::workspace::{
    begin_check, created_workspace, default_app_workspace_dir, default_workspace_dir,
    ordinary_windows_path, prepare_backend_workspace, prepare_existing_workspace, DirectoryAnswer,
    DirectoryCheck, BACKEND_WORKSPACE,
};

#[test]
fn rejects_a_windows_drive_relative_app_data_path() {
    let error = prepare_backend_workspace(Path::new("D:"))
        .expect_err("a bare drive letter must never reach Command::current_dir");

    assert!(error.contains("absolute"), "unexpected error: {error}");
}

#[test]
fn rejects_a_relative_unix_home_path() {
    let error = prepare_existing_workspace(Path::new("relative/home"))
        .expect_err("a relative HOME must never reach Command::current_dir");

    assert!(error.contains("absolute"), "unexpected error: {error}");
}

#[test]
fn names_the_backend_workspace_inside_the_app_data_directory() {
    let root = Path::new("/var/lib/app");
    let workspace = prepare_backend_workspace(root).expect("the directory is absolute");
    assert_eq!(workspace, root.join("backend-workspace"));
    assert_eq!(BACKEND_WORKSPACE, "backend-workspace");
    assert!(workspace.is_absolute());
}

#[test]
fn shows_the_rejected_path() {
    assert_eq!(
        prepare_backend_workspace(Path::new("D:")),
        Err("backend app data directory must be absolute: D:".to_string())
    );
    assert_eq!(
        prepare_existing_workspace(Path::new("relative/home")),
        Err("backend working directory must be absolute: relative/home".to_string())
    );
    assert_eq!(
        prepare_existing_workspace(Path::new("")),
        Err("backend working directory must be absolute: ".to_string())
    );
}

#[test]
fn resolves_an_existing_directory_to_its_canonical_path() {
    assert_eq!(prepare_existing_workspace(Path::new("/")), Ok(PathBuf::from("/")));
    assert_eq!(prepare_existing_workspace(Path::new("/./..")), Ok(PathBuf::from("/")));
}

#[test]
fn rejects_what_is_no_directory() {
    assert_eq!(
        prepare_existing_workspace(Path::new("/dev/null")),
        Err("backend working directory is not a directory: /dev/null".to_string())
    );
    assert_eq!(
        prepare_existing_workspace(Path::new("/no/such/directory")),
        Err("backend working directory is not a directory: /no/such/directory".to_string())
    );
}

#[test]
fn asks_about_the_path_that_was_given() {
    let path = Path::new("/home/..");
    let check = begin_check(path);
    assert_eq!(check, DirectoryCheck::IsDirectory { path });
    let check = check.answer(DirectoryAnswer::IsDirectory(true));
    assert_eq!(check, DirectoryCheck::Canonicalize { path });
    let check = check.answer(DirectoryAnswer::Canonical(Ok(PathBuf::from("/"))));
    assert_eq!(check, DirectoryCheck::Checked(Ok(PathBuf::from("/"))));
}

#[test]
fn the_first_failing_check_decides() {
    let checked = |message: &str| DirectoryCheck::Checked(Err(message.to_string()));
    assert_eq!(
        begin_check(Path::new("x")),
        checked("backend working directory must be absolute: x")
    );
    let path = Path::new("/x");
    assert_eq!(
        begin_check(path).answer(DirectoryAnswer::IsDirectory(false)),
        checked("backend working directory is not a directory: /x")
    );
    assert_eq!(
        begin_check(path)
            .answer(DirectoryAnswer::IsDirectory(true))
            .answer(DirectoryAnswer::Canonical(Err("denied".to_string()))),
        checked("failed to resolve backend working directory /x: denied")
    );
}

#[test]
fn an_answer_to_another_question_changes_nothing() {
    let path = Path::new("/x");
    let asked = DirectoryCheck::IsDirectory { path };
    assert_eq!(asked.answer(DirectoryAnswer::Canonical(Ok(PathBuf::from("/y")))), begin_check(path));
    let ended = DirectoryCheck::Checked(Ok(PathBuf::from("/y")));
    assert_eq!(
        ended.answer(DirectoryAnswer::IsDirectory(false)),
        DirectoryCheck::Checked(Ok(PathBuf::from("/y")))
    );
}

#[test]
fn a_validated_directory_is_validated_to_itself() {
    let workspace = prepare_existing_workspace(Path::new("/..")).expect("the root exists");
    assert_eq!(workspace, PathBuf::from("/"));
    assert_eq!(prepare_existing_workspace(&workspace), Ok(workspace.clone()));
    assert_eq!(default_workspace_dir(Ok(PathBuf::from("/.."))), Ok(workspace));
}

#[test]
fn an_unusable_home_is_never_replaced() {
    assert_eq!(
        default_workspace_dir(Ok(PathBuf::from("relative/home"))),
        Err("backend working directory must be absolute: relative/home".to_string())
    );
    assert_eq!(
        default_workspace_dir(Ok(PathBuf::from("/no/such/home"))),
        Err("backend working directory is not a directory: /no/such/home".to_string())
    );
}

#[test]
fn a_bare_drive_is_no_data_directory() {
    assert_eq!(
        default_app_workspace_dir(Ok(PathBuf::from("D:"))),
        Err("backend app data directory must be absolute: D:".to_string())
    );
}

#[test]
fn reports_a_workspace_that_cannot_be_created() {
    let workspace = PathBuf::from("/data/backend-workspace");
    assert_eq!(created_workspace(workspace.clone(), Ok(())), Ok(workspace.clone()));
    assert_eq!(
        created_workspace(workspace, Err("read-only".to_string())),
        Err("failed to create backend workspace /data/backend-workspace: read-only".to_string())
    );
}

#[test]
fn reports_a_base_directory_that_cannot_be_found() {
    assert_eq!(
        default_workspace_dir(Err("no home".to_string())),
        Err("failed to resolve system home directory: no home".to_string())
    );
    assert_eq!(default_workspace_dir(Ok(PathBuf::from("/"))), Ok(PathBuf::from("/")));
    assert_eq!(
        default_app_workspace_dir(Err("no folder".to_string())),
        Err("failed to resolve app local data directory: no folder".to_string())
    );
    assert_eq!(
        default_app_workspace_dir(Ok(PathBuf::from("/data"))),
        Ok(PathBuf::from("/data/backend-workspace"))
    );
}

#[test]
fn converts_verbatim_paths_to_ordinary_syntax() {
    assert_eq!(ordinary_windows_path(r"\\?\C:\Program Files\app"), r"C:\Program Files\app");
    assert_eq!(ordinary_windows_path(r"\\?\d:\"), r"d:\");
    assert_eq!(ordinary_windows_path(r"\\?\UNC\server\share\app"), r"\\server\share\app");
    assert_eq!(ordinary_windows_path(r"C:\app"), r"C:\app");
    assert_eq!(ordinary_windows_path(r"\\server\share"), r"\\server\share");
    assert_eq!(ordinary_windows_path(r"\\?\Volume{1}\app"), r"\\?\Volume{1}\app");
    assert_eq!(ordinary_windows_path(r"\\?\C:"), r"\\?\C:");
    assert_eq!(ordinary_windows_path(""), "");
}
