//! Computing patches and applying them to documents.
//!
//! A patch is applied as a whole or not at all: when one of its operations
//! fails, the document is left as it was and the failure is reported, as a path
//! that was not found, as an operation that does not fit the document, or as a
//! test that failed.

use vstd::prelude::*;

use json_patch::Patch;
use json_patch::PatchOperation;
use serde_json::Value;

use crate::json::diff_documents;
use crate::json::diff_patch;
use crate::json::document_at;
use crate::json::kind_of_operation;
use crate::json::operation_at;
use crate::json::operation_kind;
use crate::json::parent_pointer;
use crate::json::patch_document;
use crate::json::patch_operations;
use crate::json::patch_outcome;
use crate::json::pointed_document;
use crate::json::target_parent;
use crate::json::Failure;
use crate::json::OperationKind;
use crate::json::PatchFailure;

verus! {

/// Why a patch could not be applied to a document.
#[derive(Clone, Copy, Debug, PartialEq, Eq, Structural)]
pub enum PatchError {
    /// A path of the patch leads to no place in the document.
    PathNotFound,
    /// An operation cannot be carried out on the document as it is built.
    TypeMismatch,
    /// A `test` operation found another value than it expected.
    TestFailed,
}

/// Whether an operation of this kind puts a value at its path.
pub open spec fn inserts(operation: OperationKind) -> bool {
    operation == OperationKind::Add || operation == OperationKind::Copy || operation
        == OperationKind::Move
}

/// The error that a failure is reported as, where `operation` is the kind of
/// the operation that failed, if it is known, and `parent_found` says whether
/// the document had, when the operation failed, a place for the parent of the
/// operation's path.
///
/// A pointer that no value could be put at although its parent is there is a
/// mismatch: the parent is no container, or it is an array and the index is
/// none that a value can be put at. Any other pointer that leads nowhere is a
/// path that was not found.
pub open spec fn classified(
    kind: PatchFailure,
    operation: Option<OperationKind>,
    parent_found: bool,
) -> PatchError {
    match kind {
        PatchFailure::TestFailed => PatchError::TestFailed,
        PatchFailure::InvalidFromPointer => PatchError::PathNotFound,
        PatchFailure::InvalidPointer => match operation {
            Some(operation) => if inserts(operation) && parent_found {
                PatchError::TypeMismatch
            } else {
                PatchError::PathNotFound
            },
            None => PatchError::PathNotFound,
        },
        PatchFailure::CannotMoveInsideItself => PatchError::TypeMismatch,
        PatchFailure::Other => PatchError::TypeMismatch,
    }
}

/// The operation of `patch` at `index`, if it has one there.
pub open spec fn operation_of(patch: Patch, index: usize) -> Option<PatchOperation> {
    if index < patch_operations(patch).len() {
        Some(patch_operations(patch)[index as int])
    } else {
        None
    }
}

/// Whether `doc` has a place for the parent of the path of `operation`.
pub open spec fn parent_found(doc: Value, operation: PatchOperation) -> bool {
    match parent_pointer(operation) {
        Some(pointer) => pointed_document(doc, pointer) is Some,
        None => false,
    }
}

/// The error that the failure `failure` of `patch` is reported as, where
/// `left` is the document as the patch left it.
pub open spec fn explained(left: Value, patch: Patch, failure: Failure) -> PatchError {
    match operation_of(patch, failure.operation) {
        Some(operation) => classified(
            failure.kind,
            Some(kind_of_operation(operation)),
            parent_found(left, operation),
        ),
        None => classified(failure.kind, None, false),
    }
}

/// The result of applying `patch` to `doc`: the patched document, or the error.
pub open spec fn applied(doc: Value, patch: Patch) -> Result<Value, PatchError> {
    match patch_outcome(doc, patch) {
        Ok(patched) => Ok(patched),
        Err(stopped) => Err(explained(stopped.left, patch, stopped.failure)),
    }
}

/// The document that is left when `patch` was tried on `doc`: the patched
/// document, or `doc` itself where the patch does not apply.
pub open spec fn stepped(doc: Value, patch: Patch) -> Value {
    match patch_outcome(doc, patch) {
        Ok(patched) => patched,
        Err(_) => doc,
    }
}

/// The document that is left when the patches were tried on `doc` one after
/// the other, first to last, each on what the one before it left.
pub open spec fn replayed(doc: Value, patches: Seq<Patch>) -> Value
    decreases patches.len(),
{
    if patches.len() == 0 {
        doc
    } else {
        stepped(replayed(doc, patches.drop_last()), patches.last())
    }
}

/// How many of the patches fail when they are tried on `doc` one after the
/// other.
pub open spec fn failures(doc: Value, patches: Seq<Patch>) -> nat
    decreases patches.len(),
{
    if patches.len() == 0 {
        0
    } else {
        let before = failures(doc, patches.drop_last());
        if patch_outcome(replayed(doc, patches.drop_last()), patches.last()) is Err {
            before + 1
        } else {
            before
        }
    }
}

/// Reports a failure as an error, where `operation` is the kind of the
/// operation that failed, if it is known, and `parent_found` says whether the
/// document had a place for the parent of the operation's path.
pub fn classify(kind: PatchFailure, operation: Option<OperationKind>, parent_found: bool) -> (error:
    PatchError)
    ensures
        error == classified(kind, operation, parent_found),
{
    match kind {
        PatchFailure::TestFailed => PatchError::TestFailed,
        PatchFailure::InvalidFromPointer => PatchError::PathNotFound,
        PatchFailure::InvalidPointer => {
            let inserting = match operation {
                Some(OperationKind::Add) => true,
                Some(OperationKind::Copy) => true,
                Some(OperationKind::Move) => true,
                _ => false,
            };
            if inserting && parent_found {
                PatchError::TypeMismatch
            } else {
                PatchError::PathNotFound
            }
        },
        PatchFailure::CannotMoveInsideItself => PatchError::TypeMismatch,
        PatchFailure::Other => PatchError::TypeMismatch,
    }
}

/// Reports the failure `failure` of `patch` as an error, where `left` is the
/// document as the patch left it.
pub fn explain(left: &Value, patch: &Patch, failure: Failure) -> (error: PatchError)
    ensures
        error == explained(*left, *patch, failure),
{
    match failure.kind {
        PatchFailure::InvalidPointer => match operation_at(patch, failure.operation) {
            Some(operation) => {
                let found = match target_parent(operation) {
                    Some(pointer) => document_at(left, pointer.as_str()).is_some(),
                    None => false,
                };
                classify(failure.kind, Some(operation_kind(operation)), found)
            },
            None => classify(failure.kind, None, false),
        },
        _ => classify(failure.kind, None, false),
    }
}

/// Computes the patch that leads from `old` to `new`.
pub fn diff(old: &Value, new: &Value) -> (patch: Patch)
    ensures
        patch == diff_patch(*old, *new),
{
    diff_documents(old, new)
}

/// Applies `patch` to `doc` in place. The patch is applied as a whole or not
/// at all: on an error `doc` is left as it was.
pub fn apply_in_place(doc: &mut Value, patch: &Patch) -> (r: Result<(), PatchError>)
    ensures
        *final(doc) == stepped(*old(doc), *patch),
        match applied(*old(doc), *patch) {
            Ok(patched) => r is Ok && *final(doc) == patched,
            Err(error) => r == Err::<(), PatchError>(error) && *final(doc) == *old(doc),
        },
{
    let mut draft = doc.clone();
    match patch_document(&mut draft, patch) {
        Ok(()) => {
            *doc = draft;
            Ok(())
        },
        Err(failure) => Err(explain(&draft, patch, failure)),
    }
}

/// Applies `patch` to `value` and returns the patched document, or the error.
pub fn apply(value: Value, patch: &Patch) -> (r: Result<Value, PatchError>)
    ensures
        r == applied(value, *patch),
{
    let mut doc = value;
    match patch_document(&mut doc, patch) {
        Ok(()) => Ok(doc),
        Err(failure) => Err(explain(&doc, patch, failure)),
    }
}

/// Tries the patches on `doc` one after the other, first to last. A patch that
/// does not apply leaves the document as the one before it left it, and the
/// next one is tried on that. Returns how many did not apply.
pub fn replay(doc: &mut Value, patches: &Vec<Patch>) -> (failed: usize)
    ensures
        *final(doc) == replayed(*old(doc), patches@),
        failed == failures(*old(doc), patches@),
{
    let mut failed: usize = 0;
    let mut i: usize = 0;
    while i < patches.len()
        invariant
            i <= patches.len(),
            *doc == replayed(*old(doc), patches@.take(i as int)),
            failed == failures(*old(doc), patches@.take(i as int)),
            failed <= i,
        decreases patches.len() - i,
    {
        proof {
            let next = patches@.take(i + 1);
            assert(next.drop_last() == patches@.take(i as int));
        }
        if apply_in_place(doc, &patches[i]).is_err() {
            failed = failed + 1;
        }
        i = i + 1;
    }
    proof {
        assert(patches@.take(i as int) == patches@);
    }
    failed
}

} // verus!
