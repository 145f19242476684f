use std::path::{Path, PathBuf};

use dsh_desktop::resolve::{
    resolve_backend_cmd, resolved_cmd, resource_path, search_result, BackendCmd, Program, Resolve,
    ResolveAnswer, ResourceFile, OVERRIDE_VARIABLE, SEARCH_COMMAND,
};

/// What a search finds when the variable has the given value, the given files
/// exist, and the search command gives the answer.
fn search(
    value: Option<&str>,
    resource_dir: bool,
    files: &[ResourceFile],
    shell: Option<(bool, &[u8])>,
) -> (Option<Result<BackendCmd, String>>, bool) {
    let mut state = resolve_backend_cmd();
    let mut searched = false;
    loop {
        let answer = match &state {
            Resolve::Override => ResolveAnswer::Value(value.map(|v| v.to_string())),
            Resolve::ResourceDir => ResolveAnswer::Exists(resource_dir),
            Resolve::Node => ResolveAnswer::Exists(files.contains(&ResourceFile::Node)),
            Resolve::NodeExe => ResolveAnswer::Exists(files.contains(&ResourceFile::NodeExe)),
            Resolve::Script { .. } => ResolveAnswer::Exists(files.contains(&ResourceFile::Script)),
            Resolve::Dsh => ResolveAnswer::Exists(files.contains(&ResourceFile::Dsh)),
            Resolve::SearchPath => {
                searched = true;
                match shell {
                    Some((success, output)) => {
                        ResolveAnswer::Ran { success, output: output.to_vec() }
                    }
                    None => ResolveAnswer::NotRun,
                }
            }
            Resolve::Found(_) | Resolve::NotFound => return (resolved_cmd(state), searched),
        };
        state = state.answer(answer);
    }
}

fn given(path: &str) -> BackendCmd {
    BackendCmd::Direct(Program::Given(path.to_string()))
}

const ALL: [ResourceFile; 4] =
    [ResourceFile::Node, ResourceFile::NodeExe, ResourceFile::Script, ResourceFile::Dsh];

#[test]
fn the_override_comes_first() {
    let (found, searched) = search(Some("/opt/dsh"), true, &ALL, Some((true, b"/usr/bin/dsh\n")));
    assert_eq!(found, Some(Ok(given("/opt/dsh"))));
    assert!(!searched);
}

#[test]
fn an_empty_override_counts_as_none() {
    let (found, searched) = search(Some(""), true, &ALL, None);
    assert_eq!(
        found,
        Some(Ok(BackendCmd::Node { node: ResourceFile::Node, script: ResourceFile::Script }))
    );
    assert!(!searched);
}

#[test]
fn the_bundled_runtime_may_have_either_name() {
    let files = [ResourceFile::NodeExe, ResourceFile::Script];
    let (found, _) = search(None, true, &files, None);
    assert_eq!(
        found,
        Some(Ok(BackendCmd::Node { node: ResourceFile::NodeExe, script: ResourceFile::Script }))
    );
}

#[test]
fn the_bundled_executable_follows_the_runtime() {
    let bundled = BackendCmd::Direct(Program::Bundled(ResourceFile::Dsh));
    let (found, _) = search(None, true, &[ResourceFile::Node, ResourceFile::Dsh], None);
    assert_eq!(found, Some(Ok(bundled)));
    let bundled = BackendCmd::Direct(Program::Bundled(ResourceFile::Dsh));
    let (found, _) = search(None, true, &[ResourceFile::Script, ResourceFile::Dsh], None);
    assert_eq!(found, Some(Ok(bundled)));
}

#[test]
fn the_search_path_comes_last() {
    let (found, searched) = search(None, true, &[], Some((true, b"  /usr/bin/dsh \n")));
    assert_eq!(found, Some(Ok(given("/usr/bin/dsh"))));
    assert!(searched);
    let (found, _) = search(None, false, &ALL, Some((true, "/opt/ä/dsh\u{3000}\n".as_bytes())));
    assert_eq!(found, Some(Ok(given("/opt/ä/dsh"))));
}

#[test]
fn reports_that_there_is_no_command() {
    let message = "DeepSeek Harness CLI (`dsh`) not found.\nInstall it (npm i -g @deepseek-ai/dsh), set DSH_BIN, or bundle it with scripts/bundle-backend.sh.";
    let shells: [Option<(bool, &[u8])>; 3] =
        [None, Some((false, b"/usr/bin/dsh")), Some((true, b" \n"))];
    for shell in shells {
        let (found, _) = search(None, false, &[], shell);
        assert_eq!(found, Some(Err(message.to_string())));
    }
}

#[test]
fn an_unfinished_search_has_no_result() {
    assert_eq!(resolved_cmd(resolve_backend_cmd()), None);
    assert_eq!(
        resolve_backend_cmd().answer(ResolveAnswer::Exists(true)),
        resolve_backend_cmd()
    );
}

#[test]
fn decides_by_the_printed_path() {
    assert_eq!(search_result(Some("/bin/dsh".to_string())), Resolve::Found(given("/bin/dsh")));
    assert_eq!(search_result(Some(String::new())), Resolve::NotFound);
    assert_eq!(search_result(None), Resolve::NotFound);
}

#[test]
fn names_the_files_of_the_bundle() {
    let base = Path::new("/res");
    assert_eq!(resource_path(base, ResourceFile::Node), base.join("backend").join("node"));
    assert_eq!(resource_path(base, ResourceFile::NodeExe), base.join("backend").join("node.exe"));
    assert_eq!(
        resource_path(base, ResourceFile::Script),
        PathBuf::from("/res/backend/node_modules/@deepseek-ai/dsh/lib/bin.js")
    );
    assert_eq!(resource_path(base, ResourceFile::Dsh), PathBuf::from("/res/backend/dsh"));
    assert_eq!(OVERRIDE_VARIABLE, "DSH_BIN");
    assert_eq!(SEARCH_COMMAND, "command -v dsh");
}
