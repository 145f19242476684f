//! The working directory of the backend.
//!
//! The backend groups its sessions by working directory, so the directory is
//! pinned: the user's home directory, or a directory of the application's own
//! where home directories cannot be relied on. Only an absolute path becomes a
//! working directory.

use vstd::prelude::*;

verus! {

/// `std::path::Path`, as an opaque value.
#[verifier::external_type_specification]
#[verifier::external_body]
pub struct ExPath(std::path::Path);

/// `std::path::PathBuf`, as an opaque value.
#[verifier::external_type_specification]
#[verifier::external_body]
pub struct ExPathBuf(std::path::PathBuf);

/// The path that an owned path holds.
pub uninterp spec fn path_of(path: &std::path::PathBuf) -> &'static std::path::Path;

/// The text that a path is displayed as.
pub uninterp spec fn shown_path(path: &std::path::Path) -> Seq<char>;

/// Whether a path is absolute by the rules of its platform.
pub uninterp spec fn absolute_path(path: &std::path::Path) -> bool;

/// The path of the entry `name` in the directory `base`.
pub uninterp spec fn joined_path(
    base: &std::path::Path,
    name: Seq<char>,
) -> std::path::PathBuf;

/// What a path, or the message that there is none, says.
pub open spec fn path_result(result: Result<std::path::PathBuf, String>) -> Result<
    std::path::PathBuf,
    Seq<char>,
> {
    match result {
        Ok(path) => Ok(path),
        Err(message) => Err(message@),
    }
}

/// Whether a character separates the components of a path on some platform.
pub open spec fn is_separator(c: char) -> bool {
    c == '/' || c == '\\'
}

/// Whether a path text starts at a root: with a separator, or with a drive and
/// a separator behind it. A bare drive such as `D:` has no root.
pub open spec fn rooted(text: Seq<char>) -> bool {
    ||| text.len() >= 1 && is_separator(text[0])
    ||| text.len() >= 3 && text[1] == ':' && is_separator(text[2])
}

/// Whether a text is one plain file name: no separators, no drive and no
/// relative step.
pub open spec fn plain_name(text: Seq<char>) -> bool {
    &&& text.len() > 0
    &&& text[0] != '.'
    &&& forall|i: int|
        0 <= i < text.len() ==> !is_separator(#[trigger] text[i]) && text[i] != ':'
}

/// `PathBuf::as_path` borrows the path that the buffer holds.
pub assume_specification[ std::path::PathBuf::as_path ](
    path: &std::path::PathBuf,
) -> (res: &std::path::Path)
    ensures
        res == path_of(path),
;

/// Calls `Path::is_absolute`. The answer is named `absolute_path`. On Unix a
/// path is absolute when it starts at the root `/`, on Windows when it starts
/// with a prefix and a root behind it, so an absolute path is rooted on either.
/// Which of the rooted texts are absolute is the platform's own.
#[verifier::external_body]
fn path_is_absolute(path: &std::path::Path) -> (res: bool)
    ensures
        res == absolute_path(path),
        res ==> rooted(shown_path(path)),
{
    path.is_absolute()
}

/// Calls `Path::display` and takes the text; it is named `shown_path`.
#[verifier::external_body]
fn path_text(path: &std::path::Path) -> (res: String)
    ensures
        res@ == shown_path(path),
{
    path.display().to_string()
}

/// Whether `Path::is_dir` may answer `answer` for a path: it does so on some
/// file system. Which of the two answers comes is for the disk to decide.
pub uninterp spec fn is_dir_reply(path: &std::path::Path, answer: bool) -> bool;

/// Calls `Path::is_dir`. What is on disk decides, so all that is claimed is that
/// the answer is one for this very path; the relation is named `is_dir_reply`.
#[verifier::external_body]
fn path_is_dir(path: &std::path::Path) -> (res: bool)
    ensures
        is_dir_reply(path, res),
{
    path.is_dir()
}

/// Whether `Path::canonicalize` may reply with `reply` for a path, an error
/// being taken as its text: it does so on some file system. Which of the replies
/// comes is for the disk to decide.
pub uninterp spec fn canonicalize_reply(
    path: &std::path::Path,
    reply: Result<std::path::PathBuf, Seq<char>>,
) -> bool;

/// Whether no component of a path text between two `/` is `.` or `..`.
pub open spec fn without_relative_steps(text: Seq<char>) -> bool {
    forall|i: int, j: int|
        0 <= i <= j <= text.len() && (i == 0 || text[i - 1] == '/') && (j == text.len() || text[j]
            == '/') ==> #[trigger] text.subrange(i, j) != "."@ && text.subrange(i, j) != ".."@
}

/// Calls `Path::canonicalize`. What is on disk decides, so the reply is claimed
/// to be one for this very path; the relation is named `canonicalize_reply`. The
/// canonical form of a path is absolute, its components are normalized and its
/// symbolic links are resolved. So no component is a relative step; where it is
/// written with another separator than `/`, the whole text is one component, and
/// not a relative step either. And it is its own canonical form, and names a
/// directory where the path does.
#[verifier::external_body]
fn canonical_path(path: &std::path::Path) -> (res: Result<std::path::PathBuf, String>)
    ensures
        canonicalize_reply(path, path_result(res)),
        res matches Ok(canonical) ==> absolute_path(path_of(&canonical))
            && without_relative_steps(shown_path(path_of(&canonical))),
        res matches Ok(canonical) ==> canonicalize_reply(path_of(&canonical), Ok(canonical)) && (
        is_dir_reply(path, true) ==> is_dir_reply(path_of(&canonical), true)),
{
    path.canonicalize().map_err(|e| e.to_string())
}

/// Calls `Path::join` with a plain file name. The result is named
/// `joined_path`; it lies below `base`, so it is absolute if `base` is.
#[verifier::external_body]
pub(crate) fn join_name(base: &std::path::Path, name: &str) -> (res: std::path::PathBuf)
    requires
        plain_name(name@),
    ensures
        res == joined_path(base, name@),
        absolute_path(base) ==> absolute_path(path_of(&res)),
{
    base.join(name)
}

/// What is being asked about an existing directory that is to be the working
/// directory, or the end of the check. Each question is about the path that it
/// carries.
#[derive(Debug, PartialEq, Eq)]
pub enum DirectoryCheck<'a> {
    /// Whether the path is the one of a directory.
    IsDirectory { path: &'a std::path::Path },
    /// What its canonical path is.
    Canonicalize { path: &'a std::path::Path },
    /// The working directory, or why there is none.
    Checked(Result<std::path::PathBuf, String>),
}

/// The answer to what is being asked.
#[derive(Debug, PartialEq, Eq)]
pub enum DirectoryAnswer {
    /// Whether the path is the one of a directory.
    IsDirectory(bool),
    /// The canonical path, or why it could not be resolved.
    Canonical(Result<std::path::PathBuf, String>),
}

/// What a `DirectoryCheck` says.
pub enum DirectoryCheckView<'a> {
    IsDirectory { path: &'a std::path::Path },
    Canonicalize { path: &'a std::path::Path },
    Checked(Result<std::path::PathBuf, Seq<char>>),
}

/// What a `DirectoryAnswer` says.
pub enum DirectoryAnswerView {
    IsDirectory(bool),
    Canonical(Result<std::path::PathBuf, Seq<char>>),
}

impl<'a> View for DirectoryCheck<'a> {
    type V = DirectoryCheckView<'a>;

    open spec fn view(&self) -> DirectoryCheckView<'a> {
        match self {
            DirectoryCheck::IsDirectory { path } => DirectoryCheckView::IsDirectory { path: *path },
            DirectoryCheck::Canonicalize { path } => DirectoryCheckView::Canonicalize {
                path: *path,
            },
            DirectoryCheck::Checked(result) => DirectoryCheckView::Checked(path_result(*result)),
        }
    }
}

impl View for DirectoryAnswer {
    type V = DirectoryAnswerView;

    open spec fn view(&self) -> DirectoryAnswerView {
        match self {
            DirectoryAnswer::IsDirectory(answer) => DirectoryAnswerView::IsDirectory(*answer),
            DirectoryAnswer::Canonical(reply) => DirectoryAnswerView::Canonical(
                path_result(*reply),
            ),
        }
    }
}

/// The message for a path that is not absolute.
pub open spec fn relative_message(path: &std::path::Path) -> Seq<char> {
    "backend working directory must be absolute: "@ + shown_path(path)
}

/// The message for a path that is no directory.
pub open spec fn no_directory_message(path: &std::path::Path) -> Seq<char> {
    "backend working directory is not a directory: "@ + shown_path(path)
}

/// The message for a path that could not be resolved.
pub open spec fn unresolved_message(path: &std::path::Path, cause: Seq<char>) -> Seq<char> {
    "failed to resolve backend working directory "@ + shown_path(path) + ": "@ + cause
}

/// The check begins: nothing is asked about a path that is not absolute.
pub open spec fn check_begins(path: &std::path::Path) -> DirectoryCheckView<'_> {
    if absolute_path(path) {
        DirectoryCheckView::IsDirectory { path }
    } else {
        DirectoryCheckView::Checked(Err(relative_message(path)))
    }
}

/// What follows an answer. An answer to another question changes nothing.
pub open spec fn check_next<'a>(
    check: DirectoryCheckView<'a>,
    answer: DirectoryAnswerView,
) -> DirectoryCheckView<'a> {
    match (check, answer) {
        (
            DirectoryCheckView::IsDirectory { path },
            DirectoryAnswerView::IsDirectory(is_dir),
        ) => if is_dir {
            DirectoryCheckView::Canonicalize { path }
        } else {
            DirectoryCheckView::Checked(Err(no_directory_message(path)))
        },
        (
            DirectoryCheckView::Canonicalize { path },
            DirectoryAnswerView::Canonical(reply),
        ) => DirectoryCheckView::Checked(
            match reply {
                Ok(canonical) => Ok(canonical),
                Err(cause) => Err(unresolved_message(path, cause)),
            },
        ),
        _ => check,
    }
}

/// How many questions are left at most.
pub open spec fn check_steps(check: DirectoryCheckView<'_>) -> nat {
    match check {
        DirectoryCheckView::IsDirectory { .. } => 2,
        DirectoryCheckView::Canonicalize { .. } => 1,
        DirectoryCheckView::Checked(_) => 0,
    }
}

/// Begins to check an existing directory.
pub fn begin_check(path: &std::path::Path) -> (res: DirectoryCheck<'_>)
    ensures
        res@ == check_begins(path),
        absolute_path(path) ==> rooted(shown_path(path)),
{
    if path_is_absolute(path) {
        DirectoryCheck::IsDirectory { path }
    } else {
        let shown = path_text(path);
        DirectoryCheck::Checked(
            Err("backend working directory must be absolute: ".to_owned().concat(shown.as_str())),
        )
    }
}

impl<'a> DirectoryCheck<'a> {
    /// Takes the answer to what is being asked.
    pub fn answer(self, answer: DirectoryAnswer) -> (res: DirectoryCheck<'a>)
        ensures
            res@ == check_next(self@, answer@),
    {
        match (self, answer) {
            (DirectoryCheck::IsDirectory { path }, DirectoryAnswer::IsDirectory(is_dir)) => if is_dir {
                DirectoryCheck::Canonicalize { path }
            } else {
                let shown = path_text(path);
                DirectoryCheck::Checked(
                    Err(
                        "backend working directory is not a directory: ".to_owned().concat(
                            shown.as_str(),
                        ),
                    ),
                )
            },
            (DirectoryCheck::Canonicalize { path }, DirectoryAnswer::Canonical(reply)) => {
                DirectoryCheck::Checked(
                    match reply {
                        Ok(canonical) => Ok(canonical),
                        Err(cause) => {
                            let shown = path_text(path);
                            Err(
                                "failed to resolve backend working directory ".to_owned().concat(
                                    shown.as_str(),
                                ).concat(": ").concat(cause.as_str()),
                            )
                        },
                    },
                )
            },
            (check, _) => check,
        }
    }
}

/// The result of the check of a path, given the answers to its questions.
pub open spec fn directory_result(
    path: &std::path::Path,
    is_dir: bool,
    reply: Result<std::path::PathBuf, Seq<char>>,
) -> Result<std::path::PathBuf, Seq<char>> {
    let asked = check_next(check_begins(path), DirectoryAnswerView::IsDirectory(is_dir));
    check_next(asked, DirectoryAnswerView::Canonical(reply))->Checked_0
}

/// Whether `result` is the result of the check of `path`, with answers that the
/// disk may give about this path. A question that is not asked needs none.
pub open spec fn validated(
    path: &std::path::Path,
    result: Result<std::path::PathBuf, Seq<char>>,
) -> bool {
    exists|is_dir: bool, reply: Result<std::path::PathBuf, Seq<char>>|
        {
            &&& absolute_path(path) ==> is_dir_reply(path, is_dir)
            &&& absolute_path(path) && is_dir ==> canonicalize_reply(path, reply)
            &&& result == #[trigger] directory_result(path, is_dir, reply)
        }
}

/// Whether a check is one of `path`, with answers that the disk may give about
/// this path.
spec fn check_of(check: DirectoryCheckView<'_>, path: &std::path::Path) -> bool {
    match check {
        DirectoryCheckView::IsDirectory { path: asked } => asked == path && absolute_path(path),
        DirectoryCheckView::Canonicalize { path: asked } => asked == path && absolute_path(path)
            && is_dir_reply(path, true),
        DirectoryCheckView::Checked(result) => validated(path, result) && (result matches Ok(
            workspace,
        ) ==> absolute_path(path_of(&workspace)) && without_relative_steps(
            shown_path(path_of(&workspace)),
        ) && validated(path_of(&workspace), Ok(workspace))),
    }
}

/// Validates an existing directory before it becomes a working directory: it
/// has to be absolute and a directory, and its canonical path is the one used.
/// Which of the possible answers come is for the disk to decide;
/// `begin_check` and `DirectoryCheck::answer` say what follows each of them.
/// A directory that was validated can be validated again, to itself.
pub fn prepare_existing_workspace(path: &std::path::Path) -> (res: Result<
    std::path::PathBuf,
    String,
>)
    ensures
        validated(path, path_result(res)),
        !absolute_path(path) ==> path_result(res) == Err::<std::path::PathBuf, Seq<char>>(
            relative_message(path),
        ),
        res matches Ok(workspace) ==> absolute_path(path_of(&workspace)) && without_relative_steps(
            shown_path(path_of(&workspace)),
        ),
        res matches Ok(workspace) ==> validated(path_of(&workspace), Ok(workspace)),
        absolute_path(path) ==> rooted(shown_path(path)),
{
    let mut check = begin_check(path);
    let ghost none: Result<std::path::PathBuf, Seq<char>> = Err(Seq::empty());
    assert(!absolute_path(path) ==> check@ == DirectoryCheckView::Checked(
        directory_result(path, false, none),
    ));
    loop
        invariant
            check_of(check@, path),
            absolute_path(path) ==> rooted(shown_path(path)),
        decreases check_steps(check@),
    {
        match check {
            DirectoryCheck::IsDirectory { path: asked } => {
                let answer = path_is_dir(asked);
                check = check.answer(DirectoryAnswer::IsDirectory(answer));
                assert(!answer ==> check@ == DirectoryCheckView::Checked(
                    directory_result(path, false, none),
                ));
            },
            DirectoryCheck::Canonicalize { path: asked } => {
                let reply = canonical_path(asked);
                check = check.answer(DirectoryAnswer::Canonical(reply));
                assert(check@ == DirectoryCheckView::Checked(
                    directory_result(path, true, path_result(reply)),
                ));
                assert(reply matches Ok(workspace) ==> directory_result(
                    path_of(&workspace),
                    true,
                    Ok(workspace),
                ) == Ok::<std::path::PathBuf, Seq<char>>(workspace));
            },
            DirectoryCheck::Checked(result) => {
                return result;
            },
        }
    }
}

/// The name of the application's own working directory inside its data
/// directory.
pub const BACKEND_WORKSPACE: &'static str = "backend-workspace";

/// Validates the application's data directory and names the working directory
/// inside it. A path that is not absolute, such as the bare drive `D:`, is
/// rejected. The path keeps its ordinary syntax: it is not canonicalized.
pub fn prepare_backend_workspace(app_data_dir: &std::path::Path) -> (res: Result<
    std::path::PathBuf,
    String,
>)
    ensures
        match res {
            Ok(workspace) => absolute_path(app_data_dir) && workspace == joined_path(
                app_data_dir,
                BACKEND_WORKSPACE@,
            ) && absolute_path(path_of(&workspace)),
            Err(message) => !absolute_path(app_data_dir) && message@
                == "backend app data directory must be absolute: "@ + shown_path(app_data_dir),
        },
        absolute_path(app_data_dir) ==> rooted(shown_path(app_data_dir)),
        !rooted(shown_path(app_data_dir)) ==> res is Err,
{
    if !path_is_absolute(app_data_dir) {
        let shown = path_text(app_data_dir);
        return Err("backend app data directory must be absolute: ".to_owned().concat(shown.as_str()));
    }
    proof {
        reveal_strlit("backend-workspace");
    }
    Ok(join_name(app_data_dir, BACKEND_WORKSPACE))
}

/// The working directory, once it was tried to create it.
pub fn created_workspace(workspace: std::path::PathBuf, created: Result<(), String>) -> (res: Result<
    std::path::PathBuf,
    String,
>)
    ensures
        match created {
            Ok(_) => res == Ok::<std::path::PathBuf, String>(workspace),
            Err(cause) => res matches Err(message) && message@
                == "failed to create backend workspace "@ + shown_path(path_of(&workspace)) + ": "@
                + cause@,
        },
{
    match created {
        Ok(_) => Ok(workspace),
        Err(cause) => {
            let shown = path_text(workspace.as_path());
            Err(
                "failed to create backend workspace ".to_owned().concat(shown.as_str()).concat(
                    ": ",
                ).concat(cause.as_str()),
            )
        },
    }
}

/// The working directory where home directories are relied on: the validated
/// home directory of the user. There is no other directory to fall back to.
pub fn default_workspace_dir(home: Result<std::path::PathBuf, String>) -> (res: Result<
    std::path::PathBuf,
    String,
>)
    ensures
        match home {
            Err(cause) => res matches Err(message) && message@
                == "failed to resolve system home directory: "@ + cause@,
            Ok(dir) => {
                &&& validated(path_of(&dir), path_result(res))
                &&& !absolute_path(path_of(&dir)) ==> path_result(res) == Err::<
                    std::path::PathBuf,
                    Seq<char>,
                >(relative_message(path_of(&dir)))
                &&& absolute_path(path_of(&dir)) ==> rooted(shown_path(path_of(&dir)))
            },
        },
        res matches Ok(workspace) ==> absolute_path(path_of(&workspace)) && without_relative_steps(
            shown_path(path_of(&workspace)),
        ),
        res matches Ok(workspace) ==> validated(path_of(&workspace), Ok(workspace)),
{
    match home {
        Ok(dir) => prepare_existing_workspace(dir.as_path()),
        Err(cause) => Err(
            "failed to resolve system home directory: ".to_owned().concat(cause.as_str()),
        ),
    }
}

/// The working directory where home directories are not relied on: the
/// directory to create inside the application's local data directory.
pub fn default_app_workspace_dir(app_data_dir: Result<std::path::PathBuf, String>) -> (res: Result<
    std::path::PathBuf,
    String,
>)
    ensures
        match app_data_dir {
            Err(cause) => res matches Err(message) && message@
                == "failed to resolve app local data directory: "@ + cause@,
            Ok(dir) => match res {
                Ok(workspace) => absolute_path(path_of(&dir)) && workspace == joined_path(
                    path_of(&dir),
                    BACKEND_WORKSPACE@,
                ) && absolute_path(path_of(&workspace)),
                Err(message) => !absolute_path(path_of(&dir)) && message@
                    == "backend app data directory must be absolute: "@ + shown_path(path_of(&dir)),
            },
        },
        app_data_dir matches Ok(dir) ==> (absolute_path(path_of(&dir)) ==> rooted(
            shown_path(path_of(&dir)),
        )),
        app_data_dir matches Ok(dir) ==> (!rooted(shown_path(path_of(&dir))) ==> res is Err),
{
    match app_data_dir {
        Ok(dir) => prepare_backend_workspace(dir.as_path()),
        Err(cause) => Err(
            "failed to resolve app local data directory: ".to_owned().concat(cause.as_str()),
        ),
    }
}

/// Whether a text starts with a drive letter, a colon and a backslash.
pub open spec fn starts_on_drive(text: Seq<char>) -> bool {
    &&& text.len() >= 3
    &&& ('a' <= text[0] <= 'z' || 'A' <= text[0] <= 'Z')
    &&& text[1] == ':'
    &&& text[2] == '\\'
}

/// The ordinary syntax of a Windows path. The verbatim forms of a path on a
/// drive (`\\?\C:\...`) and on a share (`\\?\UNC\server\...`) lose their
/// prefix; a verbatim path of another kind has no ordinary form and stays.
pub open spec fn ordinary_syntax(text: Seq<char>) -> Seq<char> {
    if text.len() >= 8 && text.take(8) == "\\\\?\\UNC\\"@ {
        "\\\\"@ + text.skip(8)
    } else if text.len() >= 4 && text.take(4) == "\\\\?\\"@ && starts_on_drive(text.skip(4)) {
        text.skip(4)
    } else {
        text
    }
}

/// Converts a Windows path from verbatim to ordinary syntax, which is the one
/// that the bundled runtime accepts.
pub fn ordinary_windows_path(text: &str) -> (res: String)
    ensures
        res@ == ordinary_syntax(text@),
{
    let len: usize = text.unicode_len();
    if len >= 8 && crate::text::same_text(text.substring_char(0, 8), "\\\\?\\UNC\\") {
        return "\\\\".to_owned().concat(text.substring_char(8, len));
    }
    if len >= 4 && crate::text::same_text(text.substring_char(0, 4), "\\\\?\\") {
        let rest: &str = text.substring_char(4, len);
        let rest_len: usize = len - 4;
        if rest_len >= 3 && rest.get_char(1) == ':' && rest.get_char(2) == '\\' {
            let drive: char = rest.get_char(0);
            if ('a' <= drive && drive <= 'z') || ('A' <= drive && drive <= 'Z') {
                return rest.to_owned();
            }
        }
    }
    text.to_owned()
}

/// A path on a drive is never handed on in verbatim syntax, and a path in
/// ordinary syntax is handed on unchanged.
pub proof fn lemma_ordinary_syntax(path: Seq<char>)
    requires
        starts_on_drive(path),
    ensures
        ordinary_syntax("\\\\?\\"@ + path) == path,
        ordinary_syntax(path) == path,
{
    reveal_strlit("\\\\?\\");
    reveal_strlit("\\\\?\\UNC\\");
    let verbatim = "\\\\?\\"@ + path;
    assert(verbatim.skip(4) =~= path);
    assert(verbatim.take(4) =~= "\\\\?\\"@);
    assert(verbatim[5] == ':');
    if verbatim.len() >= 8 {
        assert(verbatim.take(8)[5] == ':');
        assert("\\\\?\\UNC\\"@[5] == 'N');
    }
    if path.len() >= 8 {
        assert(path.take(8)[1] == ':');
    }
    if path.len() >= 4 {
        assert(path.take(4)[1] == ':');
    }
}

/// The check succeeds exactly when the path is absolute, is the one of a
/// directory and can be resolved, and then with the canonical path. Otherwise
/// the first of the three that fails, in this order, gives the message.
pub proof fn lemma_first_failing_check_decides(
    path: &std::path::Path,
    is_dir: bool,
    reply: Result<std::path::PathBuf, Seq<char>>,
)
    ensures
        directory_result(path, is_dir, reply) == (if !absolute_path(path) {
            Err(relative_message(path))
        } else if !is_dir {
            Err(no_directory_message(path))
        } else {
            match reply {
                Ok(canonical) => Ok(canonical),
                Err(cause) => Err(unresolved_message(path, cause)),
            }
        }),
{
}

/// A path that was validated is absolute, was found to be the one of a
/// directory, and was resolved to the canonical path that is the result.
pub proof fn lemma_success_is_the_canonical_path(
    path: &std::path::Path,
    workspace: std::path::PathBuf,
)
    requires
        validated(path, Ok(workspace)),
    ensures
        absolute_path(path),
        is_dir_reply(path, true),
        canonicalize_reply(path, Ok(workspace)),
{
}

/// A working directory that is its own canonical path is validated to itself.
pub proof fn lemma_canonical_workspace_stays(workspace: std::path::PathBuf)
    requires
        absolute_path(path_of(&workspace)),
    ensures
        directory_result(path_of(&workspace), true, Ok(workspace)) == Ok::<
            std::path::PathBuf,
            Seq<char>,
        >(workspace),
{
}

/// The working directory is pinned: the same base directory, with the same
/// answers from the disk, gives the same one. Nothing else decides, such as how
/// the application was launched.
pub proof fn lemma_workspace_is_pinned(
    first: std::path::PathBuf,
    second: std::path::PathBuf,
    is_dir: bool,
    reply: Result<std::path::PathBuf, Seq<char>>,
)
    requires
        path_of(&first) == path_of(&second),
    ensures
        directory_result(path_of(&first), is_dir, reply) == directory_result(
            path_of(&second),
            is_dir,
            reply,
        ),
        joined_path(path_of(&first), BACKEND_WORKSPACE@) == joined_path(
            path_of(&second),
            BACKEND_WORKSPACE@,
        ),
{
}

/// A bare drive such as `D:` has no root.
pub proof fn lemma_bare_drive_has_no_root(drive: char)
    requires
        !is_separator(drive),
    ensures
        !rooted(seq![drive, ':']),
{
}

} // verus!
