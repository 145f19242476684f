//! Laws of the working directory.

use vstd::prelude::*;

#[allow(unused_imports)]
use crate::workspace::{
    self, DirectoryAnswer, DirectoryAnswerView, DirectoryCheck, DirectoryCheckView,
};

verus! {

/// The questions come in order: a path that is not absolute is not asked about;
/// then comes whether it is a directory, and only for a directory its canonical
/// path. Each question is about the path that is checked, and each failure names
/// it.
pub proof fn lemma_check_asks_in_order(
    path: &std::path::Path,
    canonical: std::path::PathBuf,
    cause: Seq<char>,
)
    ensures
        workspace::absolute_path(path) ==> workspace::check_begins(path) == (DirectoryCheckView::IsDirectory { path }),
        !workspace::absolute_path(path) ==> workspace::check_begins(path) == DirectoryCheckView::Checked(
            Err("backend working directory must be absolute: "@ + workspace::shown_path(path)),
        ),
        workspace::check_next(
            DirectoryCheckView::IsDirectory { path },
            DirectoryAnswerView::IsDirectory(true),
        ) == (DirectoryCheckView::Canonicalize { path }),
        workspace::check_next(
            DirectoryCheckView::IsDirectory { path },
            DirectoryAnswerView::IsDirectory(false),
        ) == DirectoryCheckView::Checked(
            Err("backend working directory is not a directory: "@ + workspace::shown_path(path)),
        ),
        workspace::check_next(
            DirectoryCheckView::Canonicalize { path },
            DirectoryAnswerView::Canonical(Ok(canonical)),
        ) == DirectoryCheckView::Checked(Ok(canonical)),
        workspace::check_next(
            DirectoryCheckView::Canonicalize { path },
            DirectoryAnswerView::Canonical(Err(cause)),
        ) == DirectoryCheckView::Checked(
            Err(
                "failed to resolve backend working directory "@ + workspace::shown_path(path) + ": "@ + cause,
            ),
        ),
{
}

/// An answer to another question than the one asked changes nothing.
pub proof fn lemma_check_ignores_other_answers<'a>(
    check: DirectoryCheckView<'a>,
    answer: DirectoryAnswerView,
)
    requires
        !(check is IsDirectory && answer is IsDirectory),
        !(check is Canonicalize && answer is Canonical),
    ensures
        workspace::check_next(check, answer) == check,
{
}

/// A path that is not validated fails for the first of three reasons: it is not
/// absolute, it was found to be no directory, or it was found to be one that
/// cannot be resolved. The message gives the reason and names the path.
pub proof fn lemma_failure_gives_the_reason(path: &std::path::Path, message: Seq<char>)
    requires
        workspace::validated(path, Err(message)),
    ensures
        !workspace::absolute_path(path) ==> message == "backend working directory must be absolute: "@
            + workspace::shown_path(path),
        workspace::absolute_path(path) ==> {
            ||| workspace::is_dir_reply(path, false) && message
                == "backend working directory is not a directory: "@ + workspace::shown_path(path)
            ||| workspace::is_dir_reply(path, true) && exists|cause: Seq<char>| #[trigger]
                workspace::canonicalize_reply(path, Err(cause)) && message
                    == "failed to resolve backend working directory "@ + workspace::shown_path(path) + ": "@
                    + cause
        },
{
}

/// A path text in which a relative step stands between two separators, or at an
/// end, is told from one without.
pub proof fn lemma_relative_steps_are_noticed(
    before: Seq<char>,
    step: Seq<char>,
    behind: Seq<char>,
)
    requires
        step == "."@ || step == ".."@,
        before.len() == 0 || before.last() == '/',
        behind.len() == 0 || behind[0] == '/',
    ensures
        !workspace::without_relative_steps(before + step + behind),
{
    let text = before + step + behind;
    let i = before.len() as int;
    let j = i + step.len();
    assert(text.subrange(i, j) =~= step);
    assert(i == 0 || text[i - 1] == '/');
    assert(j == text.len() || text[j] == '/');
}

/// A path on a share, in verbatim syntax, loses the prefix and keeps the rest.
pub proof fn lemma_share_in_ordinary_syntax(rest: Seq<char>)
    ensures
        workspace::ordinary_syntax("\\\\?\\UNC\\"@ + rest) == "\\\\"@ + rest,
{
    reveal_strlit("\\\\?\\UNC\\");
    let verbatim = "\\\\?\\UNC\\"@ + rest;
    assert(verbatim.take(8) =~= "\\\\?\\UNC\\"@);
    assert(verbatim.skip(8) =~= rest);
}

/// A path that is not in verbatim syntax is handed on unchanged, and so is one
/// that is neither on a share nor on a drive.
pub proof fn lemma_other_syntax_stays(text: Seq<char>)
    requires
        !"\\\\?\\UNC\\"@.is_prefix_of(text),
        !("\\\\?\\"@.is_prefix_of(text) && text.len() >= 7 && ('a' <= text[4] <= 'z' || 'A'
            <= text[4] <= 'Z') && text[5] == ':' && text[6] == '\\'),
    ensures
        workspace::ordinary_syntax(text) == text,
{
    reveal_strlit("\\\\?\\UNC\\");
    reveal_strlit("\\\\?\\");
    if text.len() >= 8 && text.take(8) == "\\\\?\\UNC\\"@ {
        assert("\\\\?\\UNC\\"@ =~= text.subrange(0, 8));
    }
    if text.len() >= 4 && text.take(4) == "\\\\?\\"@ {
        assert("\\\\?\\"@ =~= text.subrange(0, 4));
    }
}

/// A path on a drive is one with a letter, a colon and a backslash in front.
pub proof fn lemma_starts_on_drive(text: Seq<char>)
    ensures
        workspace::starts_on_drive(text) <==> text.len() >= 3 && ('a' <= text[0] <= 'z' || 'A' <= text[0]
            <= 'Z') && text[1] == ':' && text[2] == '\\',
{
}

/// A check, an answer and a result say what they hold.
pub proof fn lemma_check_says<'a>(
    path: &'a std::path::Path,
    is_dir: bool,
    canonical: std::path::PathBuf,
    message: String,
)
    ensures
        workspace::path_result(Ok(canonical)) == Ok::<std::path::PathBuf, Seq<char>>(canonical),
        workspace::path_result(Err(message)) == Err::<std::path::PathBuf, Seq<char>>(message@),
        (DirectoryCheck::IsDirectory { path })@ == (DirectoryCheckView::IsDirectory { path }),
        (DirectoryCheck::Canonicalize { path })@ == (DirectoryCheckView::Canonicalize { path }),
        DirectoryCheck::Checked(Ok(canonical))@ == DirectoryCheckView::Checked(Ok(canonical)),
        DirectoryCheck::Checked(Err(message))@ == DirectoryCheckView::Checked(Err(message@)),
        DirectoryAnswer::IsDirectory(is_dir)@ == DirectoryAnswerView::IsDirectory(is_dir),
        DirectoryAnswer::Canonical(Ok(canonical))@ == DirectoryAnswerView::Canonical(
            Ok(canonical),
        ),
        DirectoryAnswer::Canonical(Err(message))@ == DirectoryAnswerView::Canonical(Err(message@)),
{
}

/// A path text is rooted when it starts with a separator, or when one stands
/// behind a drive, whatever follows; no other text is.
pub proof fn lemma_what_is_rooted(text: Seq<char>)
    ensures
        workspace::rooted(text) <==> {
            ||| text.len() > 0 && (text[0] == '/' || text[0] == '\\')
            ||| text.len() > 2 && text[1] == ':' && (text[2] == '/' || text[2] == '\\')
        },
{
}

} // verus!
