//! Laws of the search for the launch command.

use vstd::prelude::*;

#[allow(unused_imports)]
use crate::resolve::{
    self, BackendCmd, BackendCmdView, Program, ProgramView, Resolve, ResolveAnswer,
    ResolveAnswerView, ResolveView, ResourceFile,
};

verus! {

/// The questions come in order, and each place that gives a command ends the
/// search with it: a value of the variable that is not empty; the runtime, under
/// its first name or else its second, together with the script; the bundled
/// executable; the path that the search command printed, where it is not empty.
/// A place that gives none leads to the next one.
pub proof fn lemma_search_asks_in_order(path: Seq<char>, node: ResourceFile, output: Seq<u8>)
    ensures
        resolve::resolve_next(ResolveView::Override, ResolveAnswerView::Value(Some(path))) == (if path.len()
            > 0 {
            ResolveView::Found(BackendCmdView::Direct(ProgramView::Given(path)))
        } else {
            ResolveView::ResourceDir
        }),
        resolve::resolve_next(ResolveView::Override, ResolveAnswerView::Value(None))
            == ResolveView::ResourceDir,
        resolve::resolve_next(ResolveView::ResourceDir, ResolveAnswerView::Exists(true))
            == ResolveView::Node,
        resolve::resolve_next(ResolveView::ResourceDir, ResolveAnswerView::Exists(false))
            == ResolveView::SearchPath,
        resolve::resolve_next(ResolveView::Node, ResolveAnswerView::Exists(true)) == (ResolveView::Script {
            node: ResourceFile::Node,
        }),
        resolve::resolve_next(ResolveView::Node, ResolveAnswerView::Exists(false)) == ResolveView::NodeExe,
        resolve::resolve_next(ResolveView::NodeExe, ResolveAnswerView::Exists(true)) == (
        ResolveView::Script { node: ResourceFile::NodeExe }),
        resolve::resolve_next(ResolveView::NodeExe, ResolveAnswerView::Exists(false)) == ResolveView::Dsh,
        resolve::resolve_next(ResolveView::Script { node }, ResolveAnswerView::Exists(true))
            == ResolveView::Found(
            BackendCmdView::Node { node, script: ResourceFile::Script },
        ),
        resolve::resolve_next(ResolveView::Script { node }, ResolveAnswerView::Exists(false))
            == ResolveView::Dsh,
        resolve::resolve_next(ResolveView::Dsh, ResolveAnswerView::Exists(true)) == ResolveView::Found(
            BackendCmdView::Direct(ProgramView::Bundled(ResourceFile::Dsh)),
        ),
        resolve::resolve_next(ResolveView::Dsh, ResolveAnswerView::Exists(false)) == ResolveView::SearchPath,
        resolve::resolve_next(
            ResolveView::SearchPath,
            ResolveAnswerView::Ran { success: true, output },
        ) == (if resolve::trimmed(crate::tail::utf8_lossy(output)).len() > 0 {
            ResolveView::Found(
                BackendCmdView::Direct(
                    ProgramView::Given(resolve::trimmed(crate::tail::utf8_lossy(output))),
                ),
            )
        } else {
            ResolveView::NotFound
        }),
        resolve::resolve_next(ResolveView::SearchPath, ResolveAnswerView::Ran { success: false, output })
            == ResolveView::NotFound,
        resolve::resolve_next(ResolveView::SearchPath, ResolveAnswerView::NotRun) == ResolveView::NotFound,
{
}

/// An answer to another question than the one asked changes nothing, and
/// neither does any answer once the search has ended.
pub proof fn lemma_search_ignores_other_answers(state: ResolveView, answer: ResolveAnswerView)
    requires
        state is Override ==> !(answer is Value),
        (state is ResourceDir || state is Node || state is NodeExe || state is Script
            || state is Dsh) ==> !(answer is Exists),
        state is SearchPath ==> !(answer is Ran || answer is NotRun),
    ensures
        resolve::resolve_next(state, answer) == state,
{
}

/// A path that was printed is the command, unless it is empty; without one there
/// is none.
pub proof fn lemma_printed_path_decides(path: Seq<char>)
    ensures
        path.len() > 0 ==> resolve::searched(Some(path)) == ResolveView::Found(
            BackendCmdView::Direct(ProgramView::Given(path)),
        ),
        path.len() == 0 ==> resolve::searched(Some(path)) == ResolveView::NotFound,
        resolve::searched(None) == ResolveView::NotFound,
{
}

/// Each file of the bundle lies at its place below the resource directory.
pub proof fn lemma_bundle_layout(base: &std::path::Path)
    ensures
        ({
            let backend = crate::workspace::joined_path(base, "backend"@);
            let below = crate::workspace::path_of(&backend);
            let modules = crate::workspace::joined_path(below, "node_modules"@);
            let scope = crate::workspace::joined_path(
                crate::workspace::path_of(&modules),
                "@deepseek-ai"@,
            );
            let package = crate::workspace::joined_path(
                crate::workspace::path_of(&scope),
                "dsh"@,
            );
            let lib = crate::workspace::joined_path(crate::workspace::path_of(&package), "lib"@);
            &&& resolve::joined_along(base, resolve::resource_names(ResourceFile::Node))
                == crate::workspace::joined_path(below, "node"@)
            &&& resolve::joined_along(base, resolve::resource_names(ResourceFile::NodeExe))
                == crate::workspace::joined_path(below, "node.exe"@)
            &&& resolve::joined_along(base, resolve::resource_names(ResourceFile::Dsh))
                == crate::workspace::joined_path(below, "dsh"@)
            &&& resolve::joined_along(base, resolve::resource_names(ResourceFile::Script))
                == crate::workspace::joined_path(crate::workspace::path_of(&lib), "bin.js"@)
        }),
{
    reveal_with_fuel(resolve::joined_along, 6);
}

/// Trimming takes white space off both ends and nothing else: what is left is
/// the part of the text between two places, all that stands before and behind
/// it is white space, and it neither starts nor ends with any.
pub proof fn lemma_trimmed(text: Seq<char>) -> (ends: (int, int))
    ensures
        0 <= ends.0 <= ends.1 <= text.len(),
        resolve::trimmed(text) == text.subrange(ends.0, ends.1),
        forall|i: int| 0 <= i < ends.0 ==> resolve::white_space(#[trigger] text[i]),
        forall|i: int| ends.1 <= i < text.len() ==> resolve::white_space(#[trigger] text[i]),
        ends.0 < ends.1 ==> !resolve::white_space(text[ends.0]) && !resolve::white_space(text[ends.1 - 1]),
    decreases text.len(),
{
    if text.len() == 0 {
        assert(text.subrange(0, 0) =~= text);
        (0, 0)
    } else if resolve::white_space(text[0]) {
        let rest = text.drop_first();
        let (start, end) = lemma_trimmed(rest);
        assert(rest.subrange(start, end) =~= text.subrange(start + 1, end + 1));
        assert forall|i: int| 0 <= i < start + 1 implies resolve::white_space(#[trigger] text[i]) by {
            if i > 0 {
                assert(rest[i - 1] == text[i]);
            }
        }
        assert forall|i: int| end + 1 <= i < text.len() implies resolve::white_space(#[trigger] text[i]) by {
            assert(rest[i - 1] == text[i]);
        }
        (start + 1, end + 1)
    } else if resolve::white_space(text.last()) {
        let rest = text.drop_last();
        let (start, end) = lemma_trimmed(rest);
        assert(rest.subrange(start, end) =~= text.subrange(start, end));
        assert forall|i: int| 0 <= i < start implies resolve::white_space(#[trigger] text[i]) by {
            assert(rest[i] == text[i]);
        }
        assert forall|i: int| end <= i < text.len() implies resolve::white_space(#[trigger] text[i]) by {
            if i < rest.len() {
                assert(rest[i] == text[i]);
            }
        }
        (start, end)
    } else {
        assert(text.subrange(0, text.len() as int) =~= text);
        (0, text.len() as int)
    }
}

/// The line that a command prints is read without the end of the line.
pub proof fn lemma_end_of_line_is_dropped(line: Seq<char>)
    requires
        line.len() == 0 || !resolve::white_space(line[0]) && !resolve::white_space(line.last()),
    ensures
        resolve::trimmed(line + "\n"@) == line,
        resolve::trimmed(line) == line,
{
    reveal_strlit("\n");
    reveal_with_fuel(resolve::trimmed, 2);
    let printed = line + "\n"@;
    assert(printed.drop_last() =~= line);
    assert(printed.last() == '\n');
    if line.len() == 0 {
        assert(printed.drop_first() =~= line);
    } else {
        assert(printed[0] == line[0]);
    }
}

/// A program, a command, a search and an answer say what they hold.
pub proof fn lemma_search_says(
    path: String,
    file: ResourceFile,
    script: ResourceFile,
    program: Program,
    cmd: BackendCmd,
    exists: bool,
    output: Vec<u8>,
)
    ensures
        Program::Given(path)@ == ProgramView::Given(path@),
        Program::Bundled(file)@ == ProgramView::Bundled(file),
        BackendCmd::Direct(program)@ == BackendCmdView::Direct(program@),
        (BackendCmd::Node { node: file, script })@ == (BackendCmdView::Node { node: file, script }),
        Resolve::Override@ == ResolveView::Override,
        Resolve::ResourceDir@ == ResolveView::ResourceDir,
        Resolve::Node@ == ResolveView::Node,
        Resolve::NodeExe@ == ResolveView::NodeExe,
        (Resolve::Script { node: file })@ == (ResolveView::Script { node: file }),
        Resolve::Dsh@ == ResolveView::Dsh,
        Resolve::SearchPath@ == ResolveView::SearchPath,
        Resolve::Found(cmd)@ == ResolveView::Found(cmd@),
        Resolve::NotFound@ == ResolveView::NotFound,
        ResolveAnswer::Value(Some(path))@ == ResolveAnswerView::Value(Some(path@)),
        ResolveAnswer::Value(None)@ == ResolveAnswerView::Value(None),
        ResolveAnswer::Exists(exists)@ == ResolveAnswerView::Exists(exists),
        (ResolveAnswer::Ran { success: exists, output })@ == (ResolveAnswerView::Ran {
            success: exists,
            output: output@,
        }),
        ResolveAnswer::NotRun@ == ResolveAnswerView::NotRun,
{
}

/// Among the ASCII characters, the space and the controls from the tab to the
/// carriage return are white space, and no others.
pub proof fn lemma_ascii_white_space(c: char)
    requires
        c <= '\u{7f}',
    ensures
        resolve::white_space(c) <==> c == ' ' || '\t' <= c <= '\r',
{
}

} // verus!
