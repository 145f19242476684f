//! Laws of the start of the backend.

use vstd::prelude::*;

#[allow(unused_imports)]
use crate::launch::{
    self, Backend, Launch, LaunchView, Start, StartAnswer, StartAnswerView, StartView,
};
#[allow(unused_imports)]
use crate::resolve::BackendCmd;

verus! {

/// The URL of a backend is its host and the port that it serves on.
pub proof fn lemma_url_names_the_port(port: u16)
    ensures
        launch::loopback_url(port) == "http://127.0.0.1:"@ + crate::text::decimal(port as nat),
{
}

/// What is started, for every command, port and directory: a program of its own
/// as it is, without a script; the runtime with the script that belongs to it.
/// Either is told to serve the web interface on the loopback host and on the
/// port, and works in the directory.
pub proof fn lemma_what_is_started(
    program: crate::resolve::ProgramView,
    node: crate::resolve::ResourceFile,
    script: crate::resolve::ResourceFile,
    port: u16,
    workspace: std::path::PathBuf,
)
    ensures
        ({
            let direct = crate::resolve::BackendCmdView::Direct(program);
            let runtime = crate::resolve::BackendCmdView::Node { node, script };
            let args = seq![
                "web"@,
                "--host"@,
                "127.0.0.1"@,
                "--port"@,
                crate::text::decimal(port as nat),
            ];
            let answer = StartAnswerView::Workspace(Ok(workspace));
            let direct_launch = LaunchView { program, script: None, args, workspace };
            let runtime_launch = LaunchView {
                program: crate::resolve::ProgramView::Bundled(node),
                script: Some(crate::resolve::ProgramView::Bundled(script)),
                args,
                workspace,
            };
            &&& launch::start_next(StartView::Workspace { cmd: direct, port }, answer) == (
            StartView::Process { launch: direct_launch, port })
            &&& launch::start_next(StartView::Workspace { cmd: runtime, port }, answer) == (
            StartView::Process { launch: runtime_launch, port })
            &&& launch::launch_view(direct, port, workspace) == direct_launch
            &&& launch::launch_view(runtime, port, workspace) == runtime_launch
        }),
{
}

/// The steps of a start come in order, each keeps what was found out before, and
/// each failure ends the start with its reason.
pub proof fn lemma_start_steps_in_order(
    cmd: crate::resolve::BackendCmdView,
    port: u16,
    launch: LaunchView,
    pid: u32,
    cause: Seq<char>,
)
    ensures
        launch::start_next(StartView::Command, StartAnswerView::Command(Ok(cmd))) == (StartView::Port {
            cmd,
        }),
        launch::start_next(StartView::Command, StartAnswerView::Command(Err(cause))) == StartView::Failed(
            cause,
        ),
        launch::start_next(StartView::Port { cmd }, StartAnswerView::Port(port)) == (StartView::Workspace {
            cmd,
            port,
        }),
        launch::start_next(StartView::Port { cmd }, StartAnswerView::NotBound(cause)) == StartView::Failed(
            "failed to bind loopback: "@ + cause,
        ),
        launch::start_next(StartView::Port { cmd }, StartAnswerView::NoAddress(cause)) == StartView::Failed(
            cause,
        ),
        launch::start_next(StartView::Workspace { cmd, port }, StartAnswerView::Workspace(Err(cause)))
            == StartView::Failed(cause),
        launch::start_next(StartView::Process { launch, port }, StartAnswerView::Process(Ok(pid))) == (
        StartView::Started {
            pid,
            port,
            url: "http://127.0.0.1:"@ + crate::text::decimal(port as nat),
        }),
        launch::start_next(StartView::Process { launch, port }, StartAnswerView::Process(Err(cause)))
            == StartView::Failed("failed to start backend: "@ + cause),
{
}

/// An answer to another question than the one asked changes nothing, and
/// neither does any answer once the start has ended.
pub proof fn lemma_start_ignores_other_answers(state: StartView, answer: StartAnswerView)
    requires
        state is Command ==> !(answer is Command),
        state is Port ==> !(answer is Port || answer is NotBound || answer is NoAddress),
        state is Workspace ==> !(answer is Workspace),
        state is Process ==> !(answer is Process),
    ensures
        launch::start_next(state, answer) == state,
{
}

/// A launch says its program, its script, its arguments and its directory.
pub proof fn lemma_launch_says(launch: Launch)
    ensures
        launch@.program == launch.program@,
        launch.script matches Some(script) ==> launch@.script == Some(script@),
        launch.script is None ==> launch@.script is None,
        launch@.args.len() == launch.args@.len(),
        forall|i: int|
            0 <= i < launch.args@.len() ==> #[trigger] launch@.args[i] == launch.args@[i]@,
        launch@.workspace == launch.workspace,
{
}

/// A start and an answer say what they hold, and a backend is well-formed when
/// its URL is the one of its port.
pub proof fn lemma_start_says(
    cmd: BackendCmd,
    launch: Launch,
    backend: Backend,
    message: String,
    path: std::path::PathBuf,
    port: u16,
    pid: u32,
)
    ensures
        backend.wf() <==> backend.url@ == "http://127.0.0.1:"@ + crate::text::decimal(
            backend.port as nat,
        ),
        Start::Command@ == StartView::Command,
        (Start::Port { cmd })@ == (StartView::Port { cmd: cmd@ }),
        (Start::Workspace { cmd, port })@ == (StartView::Workspace { cmd: cmd@, port }),
        (Start::Process { launch, port })@ == (StartView::Process { launch: launch@, port }),
        Start::Started(backend)@ == (StartView::Started {
            pid: backend.pid,
            port: backend.port,
            url: backend.url@,
        }),
        Start::Failed(message)@ == StartView::Failed(message@),
        StartAnswer::Command(Ok(cmd))@ == StartAnswerView::Command(Ok(cmd@)),
        StartAnswer::Command(Err(message))@ == StartAnswerView::Command(Err(message@)),
        StartAnswer::Port(port)@ == StartAnswerView::Port(port),
        StartAnswer::NotBound(message)@ == StartAnswerView::NotBound(message@),
        StartAnswer::NoAddress(message)@ == StartAnswerView::NoAddress(message@),
        StartAnswer::Workspace(Ok(path))@ == StartAnswerView::Workspace(Ok(path)),
        StartAnswer::Workspace(Err(message))@ == StartAnswerView::Workspace(Err(message@)),
        StartAnswer::Process(Ok(pid))@ == StartAnswerView::Process(Ok(pid)),
        StartAnswer::Process(Err(message))@ == StartAnswerView::Process(Err(message@)),
{
}

} // verus!
