//! Starting the backend process.
//!
//! The backend is started on a free port of the loopback interface. The steps
//! are taken in order, and the first one that fails ends the start.

use vstd::prelude::*;

use crate::resolve::{BackendCmd, Program};

verus! {

/// The interface that the backend listens on.
pub const LOOPBACK_HOST: &'static str = "127.0.0.1";

/// The URL of a backend on the given port.
pub open spec fn loopback_url(port: u16) -> Seq<char> {
    "http://127.0.0.1:"@ + crate::text::decimal(port as nat)
}

/// The URL of a backend on the given port.
pub fn backend_url(port: u16) -> (res: String)
    ensures
        res@ == loopback_url(port),
{
    "http://127.0.0.1:".to_owned().concat(crate::text::decimal_text(port as u32).as_str())
}

/// Backends on different ports have different URLs.
pub proof fn lemma_urls_differ(a: u16, b: u16)
    requires
        a != b,
    ensures
        loopback_url(a) != loopback_url(b),
{
    crate::text::lemma_decimal_distinct(a as nat, b as nat);
    let host = "http://127.0.0.1:"@;
    assert(loopback_url(a).skip(host.len() as int) =~= crate::text::decimal(a as nat));
    assert(loopback_url(b).skip(host.len() as int) =~= crate::text::decimal(b as nat));
}

/// The process to start: the program, the script that it runs where it is a
/// runtime, the arguments behind that, and the working directory.
#[derive(Debug, PartialEq, Eq)]
pub struct Launch {
    pub program: Program,
    pub script: Option<Program>,
    pub args: Vec<String>,
    pub workspace: std::path::PathBuf,
}

/// What a `Launch` says.
pub struct LaunchView {
    pub program: crate::resolve::ProgramView,
    pub script: Option<crate::resolve::ProgramView>,
    pub args: Seq<Seq<char>>,
    pub workspace: std::path::PathBuf,
}

impl View for Launch {
    type V = LaunchView;

    open spec fn view(&self) -> LaunchView {
        LaunchView {
            program: self.program@,
            script: match self.script {
                Some(script) => Some(script@),
                None => None,
            },
            args: crate::text::texts(self.args@),
            workspace: self.workspace,
        }
    }
}

/// The arguments that make the backend serve on the given port.
pub open spec fn serve_args(port: u16) -> Seq<Seq<char>> {
    seq!["web"@, "--host"@, "127.0.0.1"@, "--port"@, crate::text::decimal(port as nat)]
}

/// The process to start for a launch command, a port and a working directory.
pub open spec fn launch_view(
    cmd: crate::resolve::BackendCmdView,
    port: u16,
    workspace: std::path::PathBuf,
) -> LaunchView {
    match cmd {
        crate::resolve::BackendCmdView::Direct(program) => LaunchView {
            program,
            script: None,
            args: serve_args(port),
            workspace,
        },
        crate::resolve::BackendCmdView::Node { node, script } => LaunchView {
            program: crate::resolve::ProgramView::Bundled(node),
            script: Some(crate::resolve::ProgramView::Bundled(script)),
            args: serve_args(port),
            workspace,
        },
    }
}

/// The process to start for a launch command, a port and a working directory.
pub fn launch(cmd: BackendCmd, port: u16, workspace: std::path::PathBuf) -> (res: Launch)
    ensures
        res@ == launch_view(cmd@, port, workspace),
{
    let mut args: Vec<String> = Vec::new();
    args.push("web".to_owned());
    args.push("--host".to_owned());
    args.push(LOOPBACK_HOST.to_owned());
    args.push("--port".to_owned());
    args.push(crate::text::decimal_text(port as u32));
    assert(crate::text::texts(args@) =~= serve_args(port));
    match cmd {
        BackendCmd::Direct(program) => Launch { program, script: None, args, workspace },
        BackendCmd::Node { node, script } => Launch {
            program: Program::Bundled(node),
            script: Some(Program::Bundled(script)),
            args,
            workspace,
        },
    }
}

/// A backend process that was started.
#[derive(Debug, PartialEq, Eq)]
pub struct Backend {
    pub pid: u32,
    pub port: u16,
    pub url: String,
}

impl Backend {
    /// The URL is the one of the port.
    pub open spec fn wf(self) -> bool {
        self.url@ == loopback_url(self.port)
    }
}

/// What is being asked while the backend is started, or the end of the start.
#[derive(Debug, PartialEq, Eq)]
pub enum Start {
    /// How to launch the backend.
    Command,
    /// Which port is free.
    Port { cmd: BackendCmd },
    /// Which directory to work in.
    Workspace { cmd: BackendCmd, port: u16 },
    /// What came of starting the process.
    Process { launch: Launch, port: u16 },
    /// The process runs.
    Started(Backend),
    /// The start failed, for the reason given.
    Failed(String),
}

/// The answer to what is being asked.
#[derive(Debug, PartialEq, Eq)]
pub enum StartAnswer {
    /// The launch command.
    Command(Result<BackendCmd, String>),
    /// A free port.
    Port(u16),
    /// The loopback interface could not be bound.
    NotBound(String),
    /// The bound port could not be read.
    NoAddress(String),
    /// The working directory.
    Workspace(Result<std::path::PathBuf, String>),
    /// The id of the process, or why it could not be started.
    Process(Result<u32, String>),
}

/// What a `Start` says.
pub enum StartView {
    Command,
    Port { cmd: crate::resolve::BackendCmdView },
    Workspace { cmd: crate::resolve::BackendCmdView, port: u16 },
    Process { launch: LaunchView, port: u16 },
    Started { pid: u32, port: u16, url: Seq<char> },
    Failed(Seq<char>),
}

/// What a `StartAnswer` says.
pub enum StartAnswerView {
    Command(Result<crate::resolve::BackendCmdView, Seq<char>>),
    Port(u16),
    NotBound(Seq<char>),
    NoAddress(Seq<char>),
    Workspace(Result<std::path::PathBuf, Seq<char>>),
    Process(Result<u32, Seq<char>>),
}

impl View for Start {
    type V = StartView;

    open spec fn view(&self) -> StartView {
        match self {
            Start::Command => StartView::Command,
            Start::Port { cmd } => StartView::Port { cmd: cmd@ },
            Start::Workspace { cmd, port } => StartView::Workspace { cmd: cmd@, port: *port },
            Start::Process { launch, port } => StartView::Process { launch: launch@, port: *port },
            Start::Started(backend) => StartView::Started {
                pid: backend.pid,
                port: backend.port,
                url: backend.url@,
            },
            Start::Failed(message) => StartView::Failed(message@),
        }
    }
}

impl View for StartAnswer {
    type V = StartAnswerView;

    open spec fn view(&self) -> StartAnswerView {
        match self {
            StartAnswer::Command(Ok(cmd)) => StartAnswerView::Command(Ok(cmd@)),
            StartAnswer::Command(Err(message)) => StartAnswerView::Command(Err(message@)),
            StartAnswer::Port(port) => StartAnswerView::Port(*port),
            StartAnswer::NotBound(cause) => StartAnswerView::NotBound(cause@),
            StartAnswer::NoAddress(cause) => StartAnswerView::NoAddress(cause@),
            StartAnswer::Workspace(Ok(path)) => StartAnswerView::Workspace(Ok(*path)),
            StartAnswer::Workspace(Err(message)) => StartAnswerView::Workspace(Err(message@)),
            StartAnswer::Process(Ok(pid)) => StartAnswerView::Process(Ok(*pid)),
            StartAnswer::Process(Err(cause)) => StartAnswerView::Process(Err(cause@)),
        }
    }
}

/// What follows an answer. An answer to another question changes nothing.
pub open spec fn start_next(state: StartView, answer: StartAnswerView) -> StartView {
    match (state, answer) {
        (StartView::Command, StartAnswerView::Command(Ok(cmd))) => StartView::Port { cmd },
        (StartView::Command, StartAnswerView::Command(Err(message))) => StartView::Failed(message),
        (StartView::Port { cmd }, StartAnswerView::Port(port)) => StartView::Workspace { cmd, port },
        (StartView::Port { .. }, StartAnswerView::NotBound(cause)) => StartView::Failed(
            "failed to bind loopback: "@ + cause,
        ),
        (StartView::Port { .. }, StartAnswerView::NoAddress(cause)) => StartView::Failed(cause),
        (
            StartView::Workspace { cmd, port },
            StartAnswerView::Workspace(Ok(workspace)),
        ) => StartView::Process { launch: launch_view(cmd, port, workspace), port },
        (
            StartView::Workspace { .. },
            StartAnswerView::Workspace(Err(message)),
        ) => StartView::Failed(message),
        (StartView::Process { port, .. }, StartAnswerView::Process(Ok(pid))) => StartView::Started {
            pid,
            port,
            url: loopback_url(port),
        },
        (StartView::Process { .. }, StartAnswerView::Process(Err(cause))) => StartView::Failed(
            "failed to start backend: "@ + cause,
        ),
        _ => state,
    }
}

/// Begins to start the backend.
pub fn spawn_backend() -> (res: Start)
    ensures
        res@ == StartView::Command,
{
    Start::Command
}

impl Start {
    /// Takes the answer to what is being asked.
    pub fn answer(self, answer: StartAnswer) -> (res: Start)
        ensures
            res@ == start_next(self@, answer@),
            !(self is Started) ==> (res matches Start::Started(backend) ==> backend.wf()),
    {
        match (self, answer) {
            (Start::Command, StartAnswer::Command(Ok(cmd))) => Start::Port { cmd },
            (Start::Command, StartAnswer::Command(Err(message))) => Start::Failed(message),
            (Start::Port { cmd }, StartAnswer::Port(port)) => Start::Workspace { cmd, port },
            (Start::Port { .. }, StartAnswer::NotBound(cause)) => Start::Failed(
                "failed to bind loopback: ".to_owned().concat(cause.as_str()),
            ),
            (Start::Port { .. }, StartAnswer::NoAddress(cause)) => Start::Failed(cause),
            (
                Start::Workspace { cmd, port },
                StartAnswer::Workspace(Ok(workspace)),
            ) => Start::Process { launch: launch(cmd, port, workspace), port },
            (Start::Workspace { .. }, StartAnswer::Workspace(Err(message))) => Start::Failed(
                message,
            ),
            (Start::Process { port, .. }, StartAnswer::Process(Ok(pid))) => Start::Started(
                Backend { pid, port, url: backend_url(port) },
            ),
            (Start::Process { .. }, StartAnswer::Process(Err(cause))) => Start::Failed(
                "failed to start backend: ".to_owned().concat(cause.as_str()),
            ),
            (state, _) => state,
        }
    }
}

/// What holds of every start: the process that is to be started serves on its
/// port, and the URL of the process that was started is the one of its port.
pub open spec fn start_wf(state: StartView) -> bool {
    match state {
        StartView::Process { launch, port } => launch.args == serve_args(port),
        StartView::Started { port, url, .. } => url == loopback_url(port),
        _ => true,
    }
}

/// Every start keeps its port: whatever the answers are, the process is told to
/// serve on the port that its URL will name.
pub proof fn lemma_start_wf(state: StartView, answer: StartAnswerView)
    requires
        start_wf(state),
    ensures
        start_wf(StartView::Command),
        start_wf(start_next(state, answer)),
{
}

/// Whether the process that is to be started works in an absolute directory.
pub open spec fn works_in_absolute_directory(state: StartView) -> bool {
    state matches StartView::Process { launch, .. } ==> crate::workspace::absolute_path(
        crate::workspace::path_of(&launch.workspace),
    )
}

/// Only an absolute path is handed to a child process: where every working
/// directory that is answered is absolute, as the ones of the module
/// `workspace` are, so is the directory of the process that is to be started.
pub proof fn lemma_only_absolute_workspaces(state: StartView, answer: StartAnswerView)
    requires
        works_in_absolute_directory(state),
        answer matches StartAnswerView::Workspace(Ok(workspace))
            ==> crate::workspace::absolute_path(crate::workspace::path_of(&workspace)),
    ensures
        works_in_absolute_directory(StartView::Command),
        works_in_absolute_directory(start_next(state, answer)),
        state is Workspace ==> (answer matches StartAnswerView::Workspace(Ok(workspace)) ==> (
        start_next(state, answer) matches StartView::Process { launch, .. } && launch.workspace
            == workspace)),
{
}

/// The start when every step succeeds.
pub open spec fn successful_start(
    cmd: crate::resolve::BackendCmdView,
    port: u16,
    workspace: std::path::PathBuf,
    pid: u32,
) -> (StartView, StartView) {
    let with_cmd = start_next(StartView::Command, StartAnswerView::Command(Ok(cmd)));
    let with_port = start_next(with_cmd, StartAnswerView::Port(port));
    let with_workspace = start_next(with_port, StartAnswerView::Workspace(Ok(workspace)));
    (with_workspace, start_next(with_workspace, StartAnswerView::Process(Ok(pid))))
}

/// When every step succeeds, the process works in the directory that was asked
/// for, and it is told to serve on the very port that its URL names.
pub proof fn lemma_successful_start(
    cmd: crate::resolve::BackendCmdView,
    port: u16,
    workspace: std::path::PathBuf,
    pid: u32,
)
    ensures
        ({
            let (process, started) = successful_start(cmd, port, workspace, pid);
            &&& process matches StartView::Process { launch, .. } && launch.workspace == workspace
                && launch.args.last() == crate::text::decimal(port as nat)
            &&& started == (StartView::Started { pid, port, url: loopback_url(port) })
        }),
{
}

/// A failed start stays failed: no later step is taken.
pub proof fn lemma_first_failure_is_final(message: Seq<char>, answer: StartAnswerView)
    ensures
        start_next(StartView::Failed(message), answer) == StartView::Failed(message),
{
}

} // verus!
