//! How to launch the backend.
//!
//! The launch command is looked for in three places, in this order: the
//! `DSH_BIN` variable of the environment, the backend bundled in the
//! application's resources, and `dsh` on the search path. Every place is looked
//! at only when the ones before it gave nothing.

use vstd::prelude::*;

verus! {

/// The variable of the environment that overrides the launch command.
pub const OVERRIDE_VARIABLE: &'static str = "DSH_BIN";

/// The shell command that looks for `dsh` on the search path.
pub const SEARCH_COMMAND: &'static str = "command -v dsh";

/// A file of the bundled backend.
#[derive(Clone, Copy, Debug, PartialEq, Eq, Structural)]
pub enum ResourceFile {
    /// The bundled runtime as macOS and Linux name it.
    Node,
    /// The bundled runtime as Windows names it.
    NodeExe,
    /// The entry script of the backend.
    Script,
    /// A backend that is an executable of its own.
    Dsh,
}

/// A program: one given by its path, or a file of the bundle.
#[derive(Debug, PartialEq, Eq)]
pub enum Program {
    Given(String),
    Bundled(ResourceFile),
}

/// How to launch the backend: an executable of its own, or the bundled runtime
/// on the bundled script.
#[derive(Debug, PartialEq, Eq)]
pub enum BackendCmd {
    Direct(Program),
    Node { node: ResourceFile, script: ResourceFile },
}

/// What a `Program` says.
pub enum ProgramView {
    Given(Seq<char>),
    Bundled(ResourceFile),
}

/// What a `BackendCmd` says.
pub enum BackendCmdView {
    Direct(ProgramView),
    Node { node: ResourceFile, script: ResourceFile },
}

impl View for Program {
    type V = ProgramView;

    open spec fn view(&self) -> ProgramView {
        match self {
            Program::Given(path) => ProgramView::Given(path@),
            Program::Bundled(file) => ProgramView::Bundled(*file),
        }
    }
}

impl View for BackendCmd {
    type V = BackendCmdView;

    open spec fn view(&self) -> BackendCmdView {
        match self {
            BackendCmd::Direct(program) => BackendCmdView::Direct(program@),
            BackendCmd::Node { node, script } => BackendCmdView::Node {
                node: *node,
                script: *script,
            },
        }
    }
}

/// Where a file of the bundle lies: the names to follow from the resource
/// directory.
pub open spec fn resource_names(file: ResourceFile) -> Seq<Seq<char>> {
    match file {
        ResourceFile::Node => seq!["backend"@, "node"@],
        ResourceFile::NodeExe => seq!["backend"@, "node.exe"@],
        ResourceFile::Script => seq![
            "backend"@,
            "node_modules"@,
            "@deepseek-ai"@,
            "dsh"@,
            "lib"@,
            "bin.js"@,
        ],
        ResourceFile::Dsh => seq!["backend"@, "dsh"@],
    }
}

/// The path that is reached from `base` by following one name after another.
pub open spec fn joined_along(base: &std::path::Path, names: Seq<Seq<char>>) -> std::path::PathBuf
    decreases names.len(),
{
    if names.len() <= 1 {
        crate::workspace::joined_path(base, names[0])
    } else {
        crate::workspace::joined_path(
            crate::workspace::path_of(&joined_along(base, names.drop_last())),
            names.last(),
        )
    }
}

/// The path of a file of the bundle in the resource directory `base`.
pub fn resource_path(base: &std::path::Path, file: ResourceFile) -> (res: std::path::PathBuf)
    ensures
        res == joined_along(base, resource_names(file)),
        crate::workspace::absolute_path(base) ==> crate::workspace::absolute_path(
            crate::workspace::path_of(&res),
        ),
{
    proof {
        reveal_strlit("backend");
        reveal_strlit("node");
        reveal_strlit("node.exe");
        reveal_strlit("node_modules");
        reveal_strlit("@deepseek-ai");
        reveal_strlit("dsh");
        reveal_strlit("lib");
        reveal_strlit("bin.js");
        reveal_with_fuel(joined_along, 6);
    }
    let backend = crate::workspace::join_name(base, "backend");
    match file {
        ResourceFile::Node => crate::workspace::join_name(backend.as_path(), "node"),
        ResourceFile::NodeExe => crate::workspace::join_name(backend.as_path(), "node.exe"),
        ResourceFile::Script => {
            let modules = crate::workspace::join_name(backend.as_path(), "node_modules");
            let scope = crate::workspace::join_name(modules.as_path(), "@deepseek-ai");
            let package = crate::workspace::join_name(scope.as_path(), "dsh");
            let lib = crate::workspace::join_name(package.as_path(), "lib");
            crate::workspace::join_name(lib.as_path(), "bin.js")
        },
        ResourceFile::Dsh => crate::workspace::join_name(backend.as_path(), "dsh"),
    }
}

/// Whether a character is white space: the `White_Space` property of Unicode.
pub open spec fn white_space(c: char) -> bool {
    ||| '\u{9}' <= c <= '\u{d}'
    ||| c == ' '
    ||| c == '\u{85}'
    ||| c == '\u{a0}'
    ||| c == '\u{1680}'
    ||| '\u{2000}' <= c <= '\u{200a}'
    ||| c == '\u{2028}'
    ||| c == '\u{2029}'
    ||| c == '\u{202f}'
    ||| c == '\u{205f}'
    ||| c == '\u{3000}'
}

/// A text without the white space at its start and at its end.
pub open spec fn trimmed(text: Seq<char>) -> Seq<char>
    decreases text.len(),
{
    if text.len() == 0 {
        text
    } else if white_space(text[0]) {
        trimmed(text.drop_first())
    } else if white_space(text.last()) {
        trimmed(text.drop_last())
    } else {
        text
    }
}

/// Calls `str::trim`, which removes the leading and the trailing white space,
/// as Unicode defines it by the property `White_Space`.
#[verifier::external_body]
fn trim_text(text: &str) -> (res: String)
    ensures
        res@ == trimmed(text@),
{
    text.trim().to_string()
}

/// What is being asked while the launch command is looked for, or the end of
/// the search.
#[derive(Debug, PartialEq, Eq)]
pub enum Resolve {
    /// Which value the override variable has.
    Override,
    /// Whether there is a resource directory.
    ResourceDir,
    /// Whether the bundled runtime exists under its first name.
    Node,
    /// Whether the bundled runtime exists under its second name.
    NodeExe,
    /// Whether the entry script exists beside that runtime.
    Script { node: ResourceFile },
    /// Whether the bundled executable exists.
    Dsh,
    /// What the search command printed.
    SearchPath,
    /// The command was found.
    Found(BackendCmd),
    /// There is none.
    NotFound,
}

/// The answer to what is being asked.
#[derive(Debug, PartialEq, Eq)]
pub enum ResolveAnswer {
    /// The value of a variable, where it is set and is text.
    Value(Option<String>),
    /// Whether there is such a directory or file.
    Exists(bool),
    /// What a command that ran printed, and whether it succeeded.
    Ran { success: bool, output: Vec<u8> },
    /// A command could not be run.
    NotRun,
}

/// What a `Resolve` says.
pub enum ResolveView {
    Override,
    ResourceDir,
    Node,
    NodeExe,
    Script { node: ResourceFile },
    Dsh,
    SearchPath,
    Found(BackendCmdView),
    NotFound,
}

/// What a `ResolveAnswer` says.
pub enum ResolveAnswerView {
    Value(Option<Seq<char>>),
    Exists(bool),
    Ran { success: bool, output: Seq<u8> },
    NotRun,
}

impl View for Resolve {
    type V = ResolveView;

    open spec fn view(&self) -> ResolveView {
        match self {
            Resolve::Override => ResolveView::Override,
            Resolve::ResourceDir => ResolveView::ResourceDir,
            Resolve::Node => ResolveView::Node,
            Resolve::NodeExe => ResolveView::NodeExe,
            Resolve::Script { node } => ResolveView::Script { node: *node },
            Resolve::Dsh => ResolveView::Dsh,
            Resolve::SearchPath => ResolveView::SearchPath,
            Resolve::Found(cmd) => ResolveView::Found(cmd@),
            Resolve::NotFound => ResolveView::NotFound,
        }
    }
}

impl View for ResolveAnswer {
    type V = ResolveAnswerView;

    open spec fn view(&self) -> ResolveAnswerView {
        match self {
            ResolveAnswer::Value(value) => ResolveAnswerView::Value(
                crate::text::optional_text(*value),
            ),
            ResolveAnswer::Exists(exists) => ResolveAnswerView::Exists(*exists),
            ResolveAnswer::Ran { success, output } => ResolveAnswerView::Ran {
                success: *success,
                output: output@,
            },
            ResolveAnswer::NotRun => ResolveAnswerView::NotRun,
        }
    }
}

/// A program given by its path.
pub open spec fn given(path: Seq<char>) -> BackendCmdView {
    BackendCmdView::Direct(ProgramView::Given(path))
}

/// The bundled runtime on the bundled script.
pub open spec fn bundled_node(node: ResourceFile) -> BackendCmdView {
    BackendCmdView::Node { node, script: ResourceFile::Script }
}

/// The bundled executable.
pub open spec fn bundled_dsh() -> BackendCmdView {
    BackendCmdView::Direct(ProgramView::Bundled(ResourceFile::Dsh))
}

/// The path that the search command printed, decoded and trimmed.
pub open spec fn printed_path(output: Seq<u8>) -> Seq<char> {
    trimmed(crate::tail::utf8_lossy(output))
}

/// The end of the search, given the path that the search command printed.
pub open spec fn searched(path: Option<Seq<char>>) -> ResolveView {
    match path {
        Some(p) => if p.len() > 0 {
            ResolveView::Found(given(p))
        } else {
            ResolveView::NotFound
        },
        None => ResolveView::NotFound,
    }
}

/// What follows an answer. An answer to another question changes nothing.
pub open spec fn resolve_next(state: ResolveView, answer: ResolveAnswerView) -> ResolveView {
    match (state, answer) {
        (ResolveView::Override, ResolveAnswerView::Value(value)) => match value {
            Some(path) => if path.len() > 0 {
                ResolveView::Found(given(path))
            } else {
                ResolveView::ResourceDir
            },
            None => ResolveView::ResourceDir,
        },
        (ResolveView::ResourceDir, ResolveAnswerView::Exists(exists)) => if exists {
            ResolveView::Node
        } else {
            ResolveView::SearchPath
        },
        (ResolveView::Node, ResolveAnswerView::Exists(exists)) => if exists {
            ResolveView::Script { node: ResourceFile::Node }
        } else {
            ResolveView::NodeExe
        },
        (ResolveView::NodeExe, ResolveAnswerView::Exists(exists)) => if exists {
            ResolveView::Script { node: ResourceFile::NodeExe }
        } else {
            ResolveView::Dsh
        },
        (ResolveView::Script { node }, ResolveAnswerView::Exists(exists)) => if exists {
            ResolveView::Found(bundled_node(node))
        } else {
            ResolveView::Dsh
        },
        (ResolveView::Dsh, ResolveAnswerView::Exists(exists)) => if exists {
            ResolveView::Found(bundled_dsh())
        } else {
            ResolveView::SearchPath
        },
        (ResolveView::SearchPath, ResolveAnswerView::Ran { success, output }) => searched(
            if success {
                Some(printed_path(output))
            } else {
                None
            },
        ),
        (ResolveView::SearchPath, ResolveAnswerView::NotRun) => searched(None),
        _ => state,
    }
}

/// Begins the search for the launch command.
pub fn resolve_backend_cmd() -> (res: Resolve)
    ensures
        res@ == ResolveView::Override,
{
    Resolve::Override
}

/// The end of the search, given the path that the search command printed.
pub fn search_result(path: Option<String>) -> (res: Resolve)
    ensures
        res@ == searched(crate::text::optional_text(path)),
{
    match path {
        Some(p) => if p.as_str().is_empty() {
            Resolve::NotFound
        } else {
            Resolve::Found(BackendCmd::Direct(Program::Given(p)))
        },
        None => Resolve::NotFound,
    }
}

impl Resolve {
    /// Takes the answer to what is being asked.
    pub fn answer(self, answer: ResolveAnswer) -> (res: Resolve)
        ensures
            res@ == resolve_next(self@, answer@),
            self@ is SearchPath ==> (answer@ matches ResolveAnswerView::Ran { success, output }
                ==> (success && vstd::utf8::valid_utf8(output) ==> res@ == searched(
                Some(trimmed(vstd::utf8::decode_utf8(output))),
            ))),
    {
        match (self, answer) {
            (Resolve::Override, ResolveAnswer::Value(value)) => match value {
                Some(path) => if path.as_str().is_empty() {
                    Resolve::ResourceDir
                } else {
                    Resolve::Found(BackendCmd::Direct(Program::Given(path)))
                },
                None => Resolve::ResourceDir,
            },
            (Resolve::ResourceDir, ResolveAnswer::Exists(exists)) => if exists {
                Resolve::Node
            } else {
                Resolve::SearchPath
            },
            (Resolve::Node, ResolveAnswer::Exists(exists)) => if exists {
                Resolve::Script { node: ResourceFile::Node }
            } else {
                Resolve::NodeExe
            },
            (Resolve::NodeExe, ResolveAnswer::Exists(exists)) => if exists {
                Resolve::Script { node: ResourceFile::NodeExe }
            } else {
                Resolve::Dsh
            },
            (Resolve::Script { node }, ResolveAnswer::Exists(exists)) => if exists {
                Resolve::Found(BackendCmd::Node { node, script: ResourceFile::Script })
            } else {
                Resolve::Dsh
            },
            (Resolve::Dsh, ResolveAnswer::Exists(exists)) => if exists {
                Resolve::Found(BackendCmd::Direct(Program::Bundled(ResourceFile::Dsh)))
            } else {
                Resolve::SearchPath
            },
            (Resolve::SearchPath, ResolveAnswer::Ran { success, output }) => if success {
                let decoded = crate::tail::decode_lossy(output.as_slice());
                search_result(Some(trim_text(decoded.as_str())))
            } else {
                search_result(None)
            },
            (Resolve::SearchPath, ResolveAnswer::NotRun) => search_result(None),
            (state, _) => state,
        }
    }
}

/// The launch command of a finished search, or the message that there is none.
/// A search that is not finished has neither.
pub fn resolved_cmd(state: Resolve) -> (res: Option<Result<BackendCmd, String>>)
    ensures
        match state {
            Resolve::Found(cmd) => res == Some(Ok::<BackendCmd, String>(cmd)),
            Resolve::NotFound => res matches Some(Err(message)) && message@
                == "DeepSeek Harness CLI (`dsh`) not found.\nInstall it (npm i -g @deepseek-ai/dsh), set DSH_BIN, or bundle it with scripts/bundle-backend.sh."@,
            _ => res is None,
        },
{
    match state {
        Resolve::Found(cmd) => Some(Ok(cmd)),
        Resolve::NotFound => Some(
            Err(
                "DeepSeek Harness CLI (`dsh`) not found.\nInstall it (npm i -g @deepseek-ai/dsh), set DSH_BIN, or bundle it with scripts/bundle-backend.sh.".to_owned(),
            ),
        ),
        _ => None,
    }
}

/// The surroundings that a search takes place in.
pub struct Surroundings {
    /// The value of the override variable.
    pub override_value: Option<Seq<char>>,
    /// Whether there is a resource directory.
    pub resource_dir: bool,
    /// Whether each file of the bundle exists.
    pub node: bool,
    pub node_exe: bool,
    pub script: bool,
    pub dsh: bool,
    /// Whether the search command can be run, whether it succeeds, and what it
    /// prints.
    pub shell: bool,
    pub success: bool,
    pub printed: Seq<u8>,
}

/// The answer that the surroundings give to what is being asked.
pub open spec fn surroundings_answer(
    surroundings: Surroundings,
    state: ResolveView,
) -> ResolveAnswerView {
    match state {
        ResolveView::Override => ResolveAnswerView::Value(surroundings.override_value),
        ResolveView::ResourceDir => ResolveAnswerView::Exists(surroundings.resource_dir),
        ResolveView::Node => ResolveAnswerView::Exists(surroundings.node),
        ResolveView::NodeExe => ResolveAnswerView::Exists(surroundings.node_exe),
        ResolveView::Script { .. } => ResolveAnswerView::Exists(surroundings.script),
        ResolveView::Dsh => ResolveAnswerView::Exists(surroundings.dsh),
        _ => if surroundings.shell {
            ResolveAnswerView::Ran {
                success: surroundings.success,
                output: surroundings.printed,
            }
        } else {
            ResolveAnswerView::NotRun
        },
    }
}

/// The search after a number of answers.
pub open spec fn search_after(surroundings: Surroundings, answers: nat) -> ResolveView
    decreases answers,
{
    if answers == 0 {
        ResolveView::Override
    } else {
        let state = search_after(surroundings, (answers - 1) as nat);
        resolve_next(state, surroundings_answer(surroundings, state))
    }
}

/// The command that the override variable gives.
pub open spec fn override_cmd(surroundings: Surroundings) -> Option<BackendCmdView> {
    match surroundings.override_value {
        Some(path) => if path.len() > 0 {
            Some(given(path))
        } else {
            None
        },
        None => None,
    }
}

/// The command that the bundle gives: the runtime on the script where both
/// exist, else the executable where it exists.
pub open spec fn bundled_cmd(surroundings: Surroundings) -> Option<BackendCmdView> {
    if !surroundings.resource_dir {
        None
    } else if surroundings.node && surroundings.script {
        Some(bundled_node(ResourceFile::Node))
    } else if !surroundings.node && surroundings.node_exe && surroundings.script {
        Some(bundled_node(ResourceFile::NodeExe))
    } else if surroundings.dsh {
        Some(bundled_dsh())
    } else {
        None
    }
}

/// The command that the search path gives.
pub open spec fn path_cmd(surroundings: Surroundings) -> Option<BackendCmdView> {
    if surroundings.shell && surroundings.success && printed_path(surroundings.printed).len() > 0 {
        Some(given(printed_path(surroundings.printed)))
    } else {
        None
    }
}

/// The first of the three places that gives a command decides.
pub open spec fn preferred_cmd(surroundings: Surroundings) -> Option<BackendCmdView> {
    if override_cmd(surroundings) is Some {
        override_cmd(surroundings)
    } else if bundled_cmd(surroundings) is Some {
        bundled_cmd(surroundings)
    } else {
        path_cmd(surroundings)
    }
}

/// Every search ends after at most seven answers, with the command of the first
/// place that gives one, and without a command exactly when no place does.
pub proof fn lemma_search_finds_the_preferred_command(surroundings: Surroundings, answers: nat)
    requires
        answers >= 7,
    ensures
        search_after(surroundings, answers) == match preferred_cmd(surroundings) {
            Some(cmd) => ResolveView::Found(cmd),
            None => ResolveView::NotFound,
        },
    decreases answers,
{
    if answers == 7 {
        reveal_with_fuel(search_after, 8);
    } else {
        lemma_search_finds_the_preferred_command(surroundings, (answers - 1) as nat);
    }
}

/// The search path is looked at only when neither the override variable nor the
/// bundle gives a command.
pub proof fn lemma_search_path_comes_last(surroundings: Surroundings, answers: nat)
    requires
        search_after(surroundings, answers) is SearchPath,
    ensures
        override_cmd(surroundings) is None,
        bundled_cmd(surroundings) is None,
{
    if answers >= 7 {
        lemma_search_finds_the_preferred_command(surroundings, answers);
    } else {
        reveal_with_fuel(search_after, 7);
    }
}

} // verus!
