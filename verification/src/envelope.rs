//! The envelope that carries one change of one signal from the server to the
//! clients: the signal's name and the patch that leads from its old value to its
//! new one.
//!
//! On the wire an envelope is a JSON object with the members `name`, a string,
//! and `patch`, the JSON form of the patch. Other members are ignored.

use vstd::prelude::*;

use json_patch::Patch;
use serde_json::Value;

use crate::json::diff_patch;
use crate::json::document_member;
use crate::json::document_patch;
use crate::json::document_text;
use crate::json::member;
use crate::json::parse_document;
use crate::json::parsed_document;
use crate::json::patch_of;
use crate::json::text_of;
use crate::patch::diff;

verus! {

/// What an envelope holds.
pub struct UpdateView {
    /// The name of the signal that changed.
    pub name: Seq<char>,
    /// The patch that leads from the signal's old value to its new one.
    pub patch: Patch,
}

/// A server signal update: the name of a signal and a patch for its value.
///
/// This is what is sent over the event stream, one for each change.
#[derive(Debug, PartialEq, Eq)]
pub struct ServerSignalUpdate {
    name: String,
    patch: Patch,
}

impl View for ServerSignalUpdate {
    type V = UpdateView;

    closed spec fn view(&self) -> UpdateView {
        UpdateView { name: self.name@, patch: self.patch }
    }
}

impl Clone for ServerSignalUpdate {
    fn clone(&self) -> (copy: Self)
        ensures
            copy@ == self@,
    {
        ServerSignalUpdate { name: self.name.clone(), patch: self.patch.clone() }
    }
}

/// The envelope that the members of a document make, where `name` is what was
/// found under `name` and read as a string, and `patch` what was found under
/// `patch` and read as a patch.
pub open spec fn assembled(name: Option<Seq<char>>, patch: Option<Patch>) -> Option<UpdateView> {
    match (name, patch) {
        (Some(name), Some(patch)) => Some(UpdateView { name, patch }),
        _ => None,
    }
}

/// The string that `doc` holds under `key`, if it is an object that holds one
/// there.
pub open spec fn member_text(doc: Value, key: Seq<char>) -> Option<Seq<char>> {
    match document_member(doc, key) {
        Some(found) => document_text(found),
        None => None,
    }
}

/// The patch that `doc` holds under `key`, if it is an object that holds one
/// there.
pub open spec fn member_patch(doc: Value, key: Seq<char>) -> Option<Patch> {
    match document_member(doc, key) {
        Some(found) => document_patch(found),
        None => None,
    }
}

/// The envelope that the document `doc` is the wire form of, if it is one.
pub open spec fn document_update(doc: Value) -> Option<UpdateView> {
    assembled(member_text(doc, "name"@), member_patch(doc, "patch"@))
}

/// The envelope that `text` is the wire form of, if it is one.
pub open spec fn decoded(text: Seq<char>) -> Option<UpdateView> {
    match parsed_document(text) {
        Some(doc) => document_update(doc),
        None => None,
    }
}

impl ServerSignalUpdate {
    /// Creates the update for a signal whose value went from `old` to `new`,
    /// each given as the outcome of serialising it to a document. Where a
    /// value could not be serialised, the error is returned: that of `old`
    /// before that of `new`.
    pub fn new(
        name: &str,
        old: Result<Value, serde_json::Error>,
        new: Result<Value, serde_json::Error>,
    ) -> (r: Result<Self, serde_json::Error>)
        ensures
            match (old, new) {
                (Ok(left), Ok(right)) => r is Ok && r->Ok_0@ == (UpdateView {
                    name: name@,
                    patch: diff_patch(left, right),
                }),
                (Ok(_), Err(e)) => r is Err && r->Err_0 == e,
                (Err(e), _) => r is Err && r->Err_0 == e,
            },
    {
        let left = match old {
            Ok(left) => left,
            Err(e) => {
                return Err(e);
            },
        };
        let right = match new {
            Ok(right) => right,
            Err(e) => {
                return Err(e);
            },
        };
        Ok(ServerSignalUpdate { name: name.to_owned(), patch: diff(&left, &right) })
    }

    /// Creates the update for a signal whose value went from the document
    /// `old` to the document `new`.
    pub fn new_from_json<T>(name: &str, old: &Value, new: &Value) -> (update: Self)
        ensures
            update@ == (UpdateView { name: name@, patch: diff_patch(*old, *new) }),
    {
        ServerSignalUpdate { name: name.to_owned(), patch: diff(old, new) }
    }

    /// Creates the update that carries `patch` for the signal `name`.
    pub fn from_parts(name: String, patch: Patch) -> (update: Self)
        ensures
            update@ == (UpdateView { name: name@, patch }),
    {
        ServerSignalUpdate { name, patch }
    }

    /// The name of the signal that changed.
    pub fn name(&self) -> (name: &str)
        ensures
            name@ == self@.name,
    {
        self.name.as_str()
    }

    /// The patch that leads from the signal's old value to its new one.
    pub fn patch(&self) -> (patch: &Patch)
        ensures
            *patch == self@.patch,
    {
        &self.patch
    }

    /// Takes the update apart into the signal's name and the patch.
    pub fn into_parts(self) -> (parts: (String, Patch))
        ensures
            parts.0@ == self@.name,
            parts.1 == self@.patch,
    {
        (self.name, self.patch)
    }

    /// Makes an update of what was found in a document: `name` under `name`,
    /// read as a string, and `patch` under `patch`, read as a patch. There is
    /// an update where both were found.
    pub fn assemble(name: Option<&str>, patch: Option<Patch>) -> (r: Option<Self>)
        ensures
            match r {
                Some(update) => Some(update@) == assembled(
                    match name {
                        Some(s) => Some(s@),
                        None => None,
                    },
                    patch,
                ),
                None => name is None || patch is None,
            },
    {
        match (name, patch) {
            (Some(name), Some(patch)) => Some(ServerSignalUpdate { name: name.to_owned(), patch }),
            _ => None,
        }
    }

    /// Reads an update from the document `doc`: a JSON object with a string
    /// under `name` and a patch under `patch`.
    pub fn from_document(doc: &Value) -> (r: Option<Self>)
        ensures
            match r {
                Some(update) => document_update(*doc) == Some(update@),
                None => document_update(*doc) is None,
            },
    {
        let name = match member(doc, "name") {
            Some(found) => text_of(found),
            None => None,
        };
        let patch = match member(doc, "patch") {
            Some(found) => patch_of(found),
            None => None,
        };
        ServerSignalUpdate::assemble(name, patch)
    }

    /// Reads an update from `text`, the payload of one message of the event
    /// stream.
    pub fn decode(text: &str) -> (r: Option<Self>)
        ensures
            match r {
                Some(update) => decoded(text@) == Some(update@),
                None => decoded(text@) is None,
            },
    {
        match parse_document(text) {
            Some(doc) => ServerSignalUpdate::from_document(&doc),
            None => None,
        }
    }
}

} // verus!
