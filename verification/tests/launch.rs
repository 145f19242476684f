use std::path::PathBuf;

use dsh_desktop::launch::{backend_url, launch, spawn_backend, Backend, Start, StartAnswer};
use dsh_desktop::resolve::{BackendCmd, Program, ResourceFile};

fn direct() -> BackendCmd {
    BackendCmd::Direct(Program::Given("/usr/bin/dsh".to_string()))
}

#[test]
fn the_url_names_the_port() {
    assert_eq!(backend_url(8080), "http://127.0.0.1:8080");
    assert_eq!(backend_url(0), "http://127.0.0.1:0");
    assert_eq!(backend_url(65535), "http://127.0.0.1:65535");
    assert_ne!(backend_url(1), backend_url(11));
}

#[test]
fn an_executable_is_launched_directly() {
    let launched = launch(direct(), 4321, PathBuf::from("/home/user"));
    assert_eq!(launched.program, Program::Given("/usr/bin/dsh".to_string()));
    assert_eq!(launched.script, None);
    assert_eq!(launched.args, ["web", "--host", "127.0.0.1", "--port", "4321"]);
    assert_eq!(launched.workspace, PathBuf::from("/home/user"));
}

#[test]
fn the_runtime_is_launched_on_the_script() {
    let cmd = BackendCmd::Node { node: ResourceFile::NodeExe, script: ResourceFile::Script };
    let launched = launch(cmd, 80, PathBuf::from("/w"));
    assert_eq!(launched.program, Program::Bundled(ResourceFile::NodeExe));
    assert_eq!(launched.script, Some(Program::Bundled(ResourceFile::Script)));
    assert_eq!(launched.args, ["web", "--host", "127.0.0.1", "--port", "80"]);
}

#[test]
fn a_start_takes_its_steps_in_order() {
    let start = spawn_backend().answer(StartAnswer::Command(Ok(direct())));
    let start = start.answer(StartAnswer::Port(5000));
    let start = start.answer(StartAnswer::Workspace(Ok(PathBuf::from("/w"))));
    match &start {
        Start::Process { launch, port } => {
            assert_eq!(*port, 5000);
            assert_eq!(launch.args[4], "5000");
            assert_eq!(launch.workspace, PathBuf::from("/w"));
        }
        other => panic!("unexpected step: {other:?}"),
    }
    let start = start.answer(StartAnswer::Process(Ok(77)));
    assert_eq!(
        start,
        Start::Started(Backend { pid: 77, port: 5000, url: "http://127.0.0.1:5000".to_string() })
    );
}

#[test]
fn the_first_failure_ends_a_start() {
    let failed = |message: &str| Start::Failed(message.to_string());
    let with_cmd = || spawn_backend().answer(StartAnswer::Command(Ok(direct())));
    let with_port = || with_cmd().answer(StartAnswer::Port(5000));
    let with_workspace =
        || with_port().answer(StartAnswer::Workspace(Ok(PathBuf::from("/w"))));

    assert_eq!(
        spawn_backend().answer(StartAnswer::Command(Err("not found".to_string()))),
        failed("not found")
    );
    assert_eq!(
        with_cmd().answer(StartAnswer::NotBound("in use".to_string())),
        failed("failed to bind loopback: in use")
    );
    assert_eq!(
        with_cmd().answer(StartAnswer::NoAddress("no address".to_string())),
        failed("no address")
    );
    assert_eq!(
        with_port().answer(StartAnswer::Workspace(Err("no directory".to_string()))),
        failed("no directory")
    );
    assert_eq!(
        with_workspace().answer(StartAnswer::Process(Err("denied".to_string()))),
        failed("failed to start backend: denied")
    );
    assert_eq!(failed("x").answer(StartAnswer::Port(1)), failed("x"));
}

#[test]
fn a_start_ignores_an_answer_to_another_question() {
    assert_eq!(spawn_backend().answer(StartAnswer::Port(1)), Start::Command);
}
