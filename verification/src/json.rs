//! JSON documents and JSON patches, as `serde_json` and `json_patch` hold them.
//!
//! Documents and patches are opaque here: proofs see a document only through the
//! names below, each of which stands for what one function of those crates
//! returns. The contracts in this file are trusted, not proved: each says in its
//! comment what it claims of which function.

use vstd::prelude::*;

use json_patch::Patch;
use json_patch::PatchErrorKind;
use json_patch::PatchOperation;
use serde::Deserialize;
use serde_json::Value;

verus! {

/// A JSON document of `serde_json`. Its contents are not visible to proofs.
#[verifier::external_type_specification]
#[verifier::external_body]
pub struct ExValue(serde_json::Value);

/// A JSON patch of `json_patch`: an ordered list of operations. Its contents
/// are not visible to proofs.
#[verifier::external_type_specification]
#[verifier::external_body]
pub struct ExPatch(json_patch::Patch);

/// One operation of a JSON patch. Its contents are not visible to proofs.
#[verifier::external_type_specification]
#[verifier::external_body]
pub struct ExPatchOperation(json_patch::PatchOperation);

/// The error of `serde_json`. Its contents are not visible to proofs.
#[verifier::external_type_specification]
#[verifier::external_body]
pub struct ExJsonError(serde_json::Error);

/// Why `json_patch` could not apply a patch: its `PatchErrorKind`, variant for
/// variant. `Other` stands for a kind that a later version of it may add.
#[derive(Clone, Copy, Debug, PartialEq, Eq, Structural)]
pub enum PatchFailure {
    /// A `test` operation found another value than it expected.
    TestFailed,
    /// The `from` pointer of a `move` or `copy` operation leads nowhere.
    InvalidFromPointer,
    /// The `path` pointer of an operation leads nowhere.
    InvalidPointer,
    /// A `move` operation has its target inside its source.
    CannotMoveInsideItself,
    /// Any other kind.
    Other,
}

/// The kind of a patch operation: the variants of `json_patch::PatchOperation`.
#[derive(Clone, Copy, Debug, PartialEq, Eq, Structural)]
pub enum OperationKind {
    /// Puts a value at a path.
    Add,
    /// Takes the value at a path away.
    Remove,
    /// Puts a value in place of the value at a path.
    Replace,
    /// Takes the value at one path away and puts it at another.
    Move,
    /// Puts the value at one path at another path too.
    Copy,
    /// Compares the value at a path with a given one.
    Test,
}

/// Where a patch stopped and why: the index of the operation that failed, and
/// the kind of its failure.
#[derive(Clone, Copy, Debug, PartialEq, Eq, Structural)]
pub struct Failure {
    /// Why the operation failed.
    pub kind: PatchFailure,
    /// The index of the operation in its patch.
    pub operation: usize,
}

/// A patch that stopped at an operation: the failure, and the document as the
/// patch left it.
pub struct Stopped {
    /// Where the patch stopped and why.
    pub failure: Failure,
    /// The document as it was left.
    pub left: Value,
}

/// The patch that `json_patch::diff` computes from `old` to `new`.
pub uninterp spec fn diff_patch(old: Value, new: Value) -> Patch;

/// What `json_patch::patch_unsafe` makes of `doc` under `patch`: the document
/// after the last operation, or the failure of the first operation that fails
/// with the document as it is left then.
pub uninterp spec fn patch_outcome(doc: Value, patch: Patch) -> Result<Value, Stopped>;

/// The operations that `patch` holds, in their order.
pub uninterp spec fn patch_operations(patch: Patch) -> Seq<PatchOperation>;

/// The variant of `operation`.
pub uninterp spec fn kind_of_operation(operation: PatchOperation) -> OperationKind;

/// The pointer to the parent of the place that the `path` of `operation`
/// points to, as `jsonptr::Pointer::parent` gives it: none for the root.
pub uninterp spec fn parent_pointer(operation: PatchOperation) -> Option<Seq<char>>;

/// The part of `doc` that `serde_json::Value::pointer` finds at `pointer`.
pub uninterp spec fn pointed_document(doc: Value, pointer: Seq<char>) -> Option<Value>;

/// The document that `serde_json::from_str` reads from `text`, if it reads one.
pub uninterp spec fn parsed_document(text: Seq<char>) -> Option<Value>;

/// The member that `serde_json::Value::get` finds in `doc` under the key `key`.
pub uninterp spec fn document_member(doc: Value, key: Seq<char>) -> Option<Value>;

/// The text that `serde_json::Value::as_str` finds in `doc`: that of a JSON string.
pub uninterp spec fn document_text(doc: Value) -> Option<Seq<char>>;

/// The patch that `doc` deserialises to, if it is the JSON form of a patch.
pub uninterp spec fn document_patch(doc: Value) -> Option<Patch>;

/// Trusted: the `Clone` impl of `serde_json::Value` returns a document of the
/// same contents.
pub assume_specification[ <serde_json::Value as Clone>::clone ](doc: &Value) -> (copy: Value)
    ensures
        copy == *doc,
;

/// Trusted: the `Clone` impl that `json_patch` derives for `Patch` returns a
/// patch of the same operations.
pub assume_specification[ <json_patch::Patch as Clone>::clone ](patch: &Patch) -> (copy: Patch)
    ensures
        copy == *patch,
;

/// Computes the patch that leads from `old` to `new`.
///
/// Trusted: calls `json_patch::diff`, which reads nothing but its two
/// arguments. The contract names the patch it returns and claims no more.
#[verifier::external_body]
pub(crate) fn diff_documents(old: &Value, new: &Value) -> (patch: Patch)
    ensures
        patch == diff_patch(*old, *new),
{
    json_patch::diff(old, new)
}

/// Runs the operations of `patch` on `doc` in place, until one fails. After a
/// failure `doc` is left as the operations before the failed one, and what
/// the failed one did before it failed, have made it.
///
/// Trusted: calls `json_patch::patch_unsafe`, which runs the operations in
/// their order and stops at the first that fails, and reports its index and
/// the kind of its failure. The contract names the outcome and claims no
/// more.
#[verifier::external_body]
pub(crate) fn patch_document(doc: &mut Value, patch: &Patch) -> (r: Result<(), Failure>)
    ensures
        match patch_outcome(*old(doc), *patch) {
            Ok(patched) => r is Ok && *final(doc) == patched,
            Err(stopped) => r == Err::<(), Failure>(stopped.failure) && *final(doc)
                == stopped.left,
        },
{
    match json_patch::patch_unsafe(doc, patch) {
        Ok(()) => Ok(()),
        Err(e) => Err(Failure { operation: e.operation, kind: match e.kind {
            PatchErrorKind::TestFailed => PatchFailure::TestFailed,
            PatchErrorKind::InvalidFromPointer => PatchFailure::InvalidFromPointer,
            PatchErrorKind::InvalidPointer => PatchFailure::InvalidPointer,
            PatchErrorKind::CannotMoveInsideItself => PatchFailure::CannotMoveInsideItself,
            _ => PatchFailure::Other,
        } }),
    }
}

/// The operation of `patch` at `index`, if it has one there.
///
/// Trusted: reads the list of operations that a `json_patch::Patch` holds, by
/// `get` of a slice. The contract names the list.
#[verifier::external_body]
pub(crate) fn operation_at(patch: &Patch, index: usize) -> (found: Option<&PatchOperation>)
    ensures
        match found {
            Some(operation) => index < patch_operations(*patch).len() && *operation
                == patch_operations(*patch)[index as int],
            None => index >= patch_operations(*patch).len(),
        },
{
    patch.0.get(index)
}

/// The kind of `operation`.
///
/// Trusted: tells the variants of `json_patch::PatchOperation` apart.
#[verifier::external_body]
pub(crate) fn operation_kind(operation: &PatchOperation) -> (kind: OperationKind)
    ensures
        kind == kind_of_operation(*operation),
{
    match operation {
        PatchOperation::Add(_) => OperationKind::Add,
        PatchOperation::Remove(_) => OperationKind::Remove,
        PatchOperation::Replace(_) => OperationKind::Replace,
        PatchOperation::Move(_) => OperationKind::Move,
        PatchOperation::Copy(_) => OperationKind::Copy,
        PatchOperation::Test(_) => OperationKind::Test,
    }
}

/// The pointer to the parent of the place that the `path` of `operation`
/// points to: none where the path is the root.
///
/// Trusted: calls `json_patch::PatchOperation::path` and
/// `jsonptr::Pointer::parent`, and writes the pointer out as a string. The
/// contract names the outcome.
#[verifier::external_body]
pub(crate) fn target_parent(operation: &PatchOperation) -> (parent: Option<String>)
    ensures
        match parent {
            Some(pointer) => parent_pointer(*operation) == Some(pointer@),
            None => parent_pointer(*operation) is None,
        },
{
    operation.path().parent().map(|parent| parent.to_string())
}

/// The part of `doc` at `pointer`, if there is one.
///
/// Trusted: calls `serde_json::Value::pointer`, which follows a JSON pointer
/// into the document. The contract names the outcome.
#[verifier::external_body]
pub(crate) fn document_at<'a>(doc: &'a Value, pointer: &str) -> (found: Option<&'a Value>)
    ensures
        match found {
            Some(part) => pointed_document(*doc, pointer@) == Some(*part),
            None => pointed_document(*doc, pointer@) is None,
        },
{
    doc.pointer(pointer)
}

/// Reads `text` as one JSON document.
///
/// Trusted: calls `serde_json::from_str` for a `Value`, and drops the error's
/// details. The contract names the outcome.
#[verifier::external_body]
pub(crate) fn parse_document(text: &str) -> (doc: Option<Value>)
    ensures
        doc == parsed_document(text@),
{
    serde_json::from_str::<Value>(text).ok()
}

/// Looks up the member of `doc` under `key`.
///
/// Trusted: calls `serde_json::Value::get` with a string index, which finds
/// the member of an object and nothing in any other document.
#[verifier::external_body]
pub(crate) fn member<'a>(doc: &'a Value, key: &str) -> (found: Option<&'a Value>)
    ensures
        match found {
            Some(value) => document_member(*doc, key@) == Some(*value),
            None => document_member(*doc, key@) is None,
        },
{
    doc.get(key)
}

/// Reads `doc` as a JSON string.
///
/// Trusted: calls `serde_json::Value::as_str`, which returns the text of a JSON
/// string and nothing for any other document.
#[verifier::external_body]
pub(crate) fn text_of<'a>(doc: &'a Value) -> (text: Option<&'a str>)
    ensures
        match text {
            Some(s) => document_text(*doc) == Some(s@),
            None => document_text(*doc) is None,
        },
{
    doc.as_str()
}

/// Reads `doc` as the JSON form of a patch.
///
/// Trusted: calls the `Deserialize` impl of `json_patch::Patch` on the
/// document, and drops the error's details. The contract names the outcome.
#[verifier::external_body]
pub(crate) fn patch_of(doc: &Value) -> (patch: Option<Patch>)
    ensures
        patch == document_patch(*doc),
{
    Patch::deserialize(doc).ok()
}

} // verus!
