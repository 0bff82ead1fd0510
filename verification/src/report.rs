//! What a batch reports back: its counts, and each failure in words that
//! name the path and what was being done to it.

use vstd::prelude::*;
use crate::text::{contains_seq, occurs_at, texts};
use vstd::string::StringExecFns;

verus! {

/// The outcome of a batch.
#[derive(Clone, Debug, PartialEq, Eq)]
pub struct OrganizeResult {
    pub success_count: u32,
    pub error_count: u32,
    pub skipped_count: u32,
    /// One message for each file that failed, in the order of the input.
    pub errors: Vec<String>,
}

/// An `OrganizeResult` as plain values.
pub struct ResultView {
    pub success_count: u32,
    pub error_count: u32,
    pub skipped_count: u32,
    pub errors: Seq<Seq<char>>,
}

impl View for OrganizeResult {
    type V = ResultView;

    open spec fn view(&self) -> ResultView {
        ResultView {
            success_count: self.success_count,
            error_count: self.error_count,
            skipped_count: self.skipped_count,
            errors: texts(self.errors@),
        }
    }
}

/// Why a file system operation failed.
#[derive(Clone, Copy, Debug, PartialEq, Eq, Structural)]
pub enum FsErrorKind {
    PermissionDenied,
    NotFound,
    AlreadyExists,
    /// The device is full or a quota is used up.
    StorageFull,
    Other,
}

/// A failed file system operation: its kind, and the system's own words
/// for it.
#[derive(Clone, Debug, PartialEq, Eq)]
pub struct FsFailure {
    pub kind: FsErrorKind,
    pub detail: String,
}

/// An `FsFailure` as plain values.
pub struct FailureView {
    pub kind: FsErrorKind,
    pub detail: Seq<char>,
}

impl View for FsFailure {
    type V = FailureView;

    open spec fn view(&self) -> FailureView {
        FailureView { kind: self.kind, detail: self.detail@ }
    }
}

/// The message for a failed operation on a path. Whatever the kind of the
/// failure, the message names the path and the operation.
pub open spec fn fs_error_text(
    kind: FsErrorKind,
    detail: Seq<char>,
    path: Seq<char>,
    operation: Seq<char>,
) -> Seq<char> {
    match kind {
        FsErrorKind::PermissionDenied => "Permission denied: Cannot "@ + operation + " '"@ + path
            + "'. Try choosing a different folder or check folder permissions."@,
        FsErrorKind::NotFound => "File not found: Cannot "@ + operation + " '"@ + path
            + "'. It may have been moved or deleted."@,
        FsErrorKind::AlreadyExists => "File already exists at destination: Cannot "@ + operation
            + " '"@ + path + "'."@,
        FsErrorKind::StorageFull => "Not enough disk space to "@ + operation + " '"@ + path
            + "'."@,
        FsErrorKind::Other => "Failed to "@ + operation + " '"@ + path + "': "@ + detail,
    }
}

/// Words a failed operation on a path for the user.
pub fn format_fs_error(e: &FsFailure, path: &str, operation: &str) -> (r: String)
    ensures
        r@ == fs_error_text(e.kind, e.detail@, path@, operation@),
{
    match e.kind {
        FsErrorKind::PermissionDenied => {
            let mut m = "Permission denied: Cannot ".to_string();
            m.append(operation);
            m.append(" '");
            m.append(path);
            m.append("'. Try choosing a different folder or check folder permissions.");
            m
        },
        FsErrorKind::NotFound => {
            let mut m = "File not found: Cannot ".to_string();
            m.append(operation);
            m.append(" '");
            m.append(path);
            m.append("'. It may have been moved or deleted.");
            m
        },
        FsErrorKind::AlreadyExists => {
            let mut m = "File already exists at destination: Cannot ".to_string();
            m.append(operation);
            m.append(" '");
            m.append(path);
            m.append("'.");
            m
        },
        FsErrorKind::StorageFull => {
            let mut m = "Not enough disk space to ".to_string();
            m.append(operation);
            m.append(" '");
            m.append(path);
            m.append("'.");
            m
        },
        FsErrorKind::Other => {
            let mut m = "Failed to ".to_string();
            m.append(operation);
            m.append(" '");
            m.append(path);
            m.append("': ");
            m.append(e.detail.as_str());
            m
        },
    }
}

/// A text holds each of the parts it is put together from.
pub proof fn lemma_holds_part(before: Seq<char>, part: Seq<char>, after: Seq<char>)
    ensures
        contains_seq(before + part + after, part),
{
    let whole = before + part + after;
    assert(whole.subrange(before.len() as int, (before.len() + part.len()) as int) == part);
    assert(occurs_at(whole, part, before.len() as int));
}

/// A text of five parts holds its second and its fourth.
pub proof fn lemma_holds_two(
    a: Seq<char>,
    first: Seq<char>,
    b: Seq<char>,
    second: Seq<char>,
    c: Seq<char>,
)
    ensures
        contains_seq(a + first + b + second + c, first),
        contains_seq(a + first + b + second + c, second),
{
    let whole = a + first + b + second + c;
    assert(whole == a + first + (b + second + c));
    lemma_holds_part(a, first, b + second + c);
    assert(whole == (a + first + b) + second + c);
    lemma_holds_part(a + first + b, second, c);
}

/// Every message for a failed operation holds the path and the operation,
/// whatever the kind of the failure and whatever the system said of it.
pub proof fn lemma_fs_error_names_path_and_operation(
    kind: FsErrorKind,
    detail: Seq<char>,
    path: Seq<char>,
    operation: Seq<char>,
)
    ensures
        contains_seq(fs_error_text(kind, detail, path, operation), path),
        contains_seq(fs_error_text(kind, detail, path, operation), operation),
{
    match kind {
        FsErrorKind::PermissionDenied => lemma_holds_two(
            "Permission denied: Cannot "@,
            operation,
            " '"@,
            path,
            "'. Try choosing a different folder or check folder permissions."@,
        ),
        FsErrorKind::NotFound => lemma_holds_two(
            "File not found: Cannot "@,
            operation,
            " '"@,
            path,
            "'. It may have been moved or deleted."@,
        ),
        FsErrorKind::AlreadyExists => lemma_holds_two(
            "File already exists at destination: Cannot "@,
            operation,
            " '"@,
            path,
            "'."@,
        ),
        FsErrorKind::StorageFull => lemma_holds_two(
            "Not enough disk space to "@,
            operation,
            " '"@,
            path,
            "'."@,
        ),
        FsErrorKind::Other => lemma_holds_two("Failed to "@, operation, " '"@, path, "': "@ + detail),
    }
    if kind is Other {
        assert(fs_error_text(kind, detail, path, operation) == "Failed to "@ + operation + " '"@
            + path + ("': "@ + detail));
    }
}

/// The message for a file whose operation is neither `move` nor `copy`.
pub open spec fn unknown_operation_text(operation: Seq<char>, path: Seq<char>) -> Seq<char> {
    "Unknown operation: Cannot "@ + operation + " '"@ + path + "'."@
}

/// Words an operation that is neither `move` nor `copy`, for the file at
/// `path`.
pub fn format_unknown_operation(operation: &str, path: &str) -> (r: String)
    ensures
        r@ == unknown_operation_text(operation@, path@),
{
    let mut m = "Unknown operation: Cannot ".to_string();
    m.append(operation);
    m.append(" '");
    m.append(path);
    m.append("'.");
    m
}

/// The message for a file for which every numbered name is taken.
pub open spec fn no_name_text(operation: Seq<char>, path: Seq<char>) -> Seq<char> {
    "No free name left: Cannot "@ + operation + " '"@ + path + "'."@
}

/// Words the lack of a free name for the file at `path`.
pub fn format_no_name(operation: &str, path: &str) -> (r: String)
    ensures
        r@ == no_name_text(operation@, path@),
{
    let mut m = "No free name left: Cannot ".to_string();
    m.append(operation);
    m.append(" '");
    m.append(path);
    m.append("'.");
    m
}

} // verus!
