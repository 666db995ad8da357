//! The registry of cells: for each registered signal its kind and its current
//! value.
//!
//! There are two kinds of signal, those whose value may be handed to other
//! threads and those whose value stays on the thread that made it. Each kind
//! has a map of its own; the registry keeps both maps as one, each cell tagged
//! with its kind, so that a name cannot stand in both.

use vstd::prelude::*;

use json_patch::Patch;
use serde_json::Value;

use crate::name_map::NameMap;
use crate::patch::applied;
use crate::patch::apply_in_place;
use crate::patch::failures;
use crate::patch::replay;
use crate::patch::replayed;
use crate::patch::stepped;
use crate::patch::PatchError;

verus! {

/// The kind of a signal: which of the two maps it is registered in.
#[derive(Clone, Copy, Debug, PartialEq, Eq, Structural)]
pub enum SignalKind {
    /// The value may be handed to other threads.
    Shared,
    /// The value stays on the thread that made it.
    Local,
}

/// The cell of one signal: its kind and its current value.
#[derive(Debug)]
pub struct Cell {
    /// The map that the signal is registered in.
    pub kind: SignalKind,
    /// The current value.
    pub value: Value,
}

/// Why a signal could not be registered.
#[derive(Clone, Copy, Debug, PartialEq, Eq, Structural)]
pub enum RegisterError {
    /// No connection has been provided yet.
    NotInitialized,
    /// The name is registered already, as a signal of the other kind.
    KindConflict,
}

/// What became of a cell when patches were tried on it.
#[derive(Clone, Copy, Debug, PartialEq, Eq, Structural)]
pub struct Advance {
    /// The cell's kind.
    pub kind: SignalKind,
    /// How many of the patches that had waited did not apply.
    pub skipped: usize,
    /// The error of the arriving patch, if it did not apply.
    pub error: Option<PatchError>,
}

/// The map of the signals of kind `kind` among `cells`: their values by name.
pub open spec fn cells_of_kind(cells: Map<Seq<char>, Cell>, kind: SignalKind) -> Map<
    Seq<char>,
    Value,
> {
    Map::new(
        |name: Seq<char>| cells.contains_key(name) && cells[name].kind == kind,
        |name: Seq<char>| cells[name].value,
    )
}

/// The value of a cell on which first the patches `waiting` and then `patch`
/// were tried, each on what the one before it left.
pub open spec fn advanced(value: Value, waiting: Seq<Patch>, patch: Patch) -> Value {
    stepped(replayed(value, waiting), patch)
}

/// The error of `patch` on a cell on which the patches `waiting` were tried
/// before it, if it does not apply.
pub open spec fn advance_error(value: Value, waiting: Seq<Patch>, patch: Patch) -> Option<
    PatchError,
> {
    match applied(replayed(value, waiting), patch) {
        Ok(_) => None,
        Err(error) => Some(error),
    }
}

/// The registry of cells.
pub struct SignalRegistry {
    cells: NameMap<Cell>,
}

impl View for SignalRegistry {
    type V = Map<Seq<char>, Cell>;

    closed spec fn view(&self) -> Map<Seq<char>, Cell> {
        self.cells@
    }
}

impl SignalRegistry {
    /// The registry is sound: it has one cell for a name at most.
    pub closed spec fn wf(&self) -> bool {
        self.cells.wf()
    }

    /// The empty registry.
    pub fn new() -> (registry: Self)
        ensures
            registry.wf(),
            registry@ == Map::<Seq<char>, Cell>::empty(),
    {
        SignalRegistry { cells: NameMap::new() }
    }

    /// The kind of the signal `name`, if it is registered. This looks in both
    /// maps.
    pub fn kind_of(&self, name: &str) -> (kind: Option<SignalKind>)
        requires
            self.wf(),
        ensures
            kind == if self@.contains_key(name@) {
                Some(self@[name@].kind)
            } else {
                None
            },
    {
        match self.cells.get(name) {
            Some(cell) => Some(cell.kind),
            None => None,
        }
    }

    /// The current value of the signal `name`, if it is registered in the map
    /// of kind `kind`. The other map is not looked at.
    pub fn lookup(&self, kind: SignalKind, name: &str) -> (value: Option<&Value>)
        requires
            self.wf(),
        ensures
            match value {
                Some(v) => cells_of_kind(self@, kind).contains_key(name@) && *v == cells_of_kind(
                    self@,
                    kind,
                )[name@],
                None => !cells_of_kind(self@, kind).contains_key(name@),
            },
    {
        match self.cells.get(name) {
            Some(cell) => if cell.kind == kind {
                Some(&cell.value)
            } else {
                None
            },
            None => None,
        }
    }

    /// The current value of the signal `name`, if it is registered. This
    /// looks in both maps.
    pub fn value(&self, name: &str) -> (value: Option<&Value>)
        requires
            self.wf(),
        ensures
            match value {
                Some(v) => self@.contains_key(name@) && *v == self@[name@].value,
                None => !self@.contains_key(name@),
            },
    {
        match self.cells.get(name) {
            Some(cell) => Some(&cell.value),
            None => None,
        }
    }

    /// Registers the signal `name` in the map of kind `kind`. Where the name
    /// is new, its cell is created with the value `initial`, and `Ok(true)` is
    /// returned. Where it is registered in that map already, its cell is kept
    /// with the value it has, and `Ok(false)` is returned. Where it is
    /// registered in the other map, nothing changes and the error is returned.
    pub fn register(&mut self, kind: SignalKind, name: &str, initial: Value) -> (r: Result<
        bool,
        RegisterError,
    >)
        requires
            old(self).wf(),
        ensures
            final(self).wf(),
            final(self)@ == if old(self)@.contains_key(name@) {
                old(self)@
            } else {
                old(self)@.insert(name@, Cell { kind, value: initial })
            },
            r == if !old(self)@.contains_key(name@) {
                Ok::<bool, RegisterError>(true)
            } else if old(self)@[name@].kind == kind {
                Ok::<bool, RegisterError>(false)
            } else {
                Err::<bool, RegisterError>(RegisterError::KindConflict)
            },
    {
        match self.kind_of(name) {
            Some(existing) => if existing == kind {
                Ok(false)
            } else {
                Err(RegisterError::KindConflict)
            },
            None => {
                self.cells.insert(name.to_owned(), Cell { kind, value: initial });
                Ok(true)
            },
        }
    }

    /// Tries on the cell of the signal `name` first the patches `waiting`, in
    /// their order, and then `patch`. A patch that does not apply leaves the
    /// cell's value as it was before it. Returns what became of the cell, or
    /// nothing where the signal is not registered.
    pub fn advance(&mut self, name: &str, waiting: &Vec<Patch>, patch: &Patch) -> (r: Option<
        Advance,
    >)
        requires
            old(self).wf(),
        ensures
            final(self).wf(),
            final(self)@ == if old(self)@.contains_key(name@) {
                old(self)@.insert(
                    name@,
                    Cell {
                        kind: old(self)@[name@].kind,
                        value: advanced(old(self)@[name@].value, waiting@, *patch),
                    },
                )
            } else {
                old(self)@
            },
            r == if old(self)@.contains_key(name@) {
                Some(
                    Advance {
                        kind: old(self)@[name@].kind,
                        skipped: failures(old(self)@[name@].value, waiting@) as usize,
                        error: advance_error(old(self)@[name@].value, waiting@, *patch),
                    },
                )
            } else {
                None
            },
    {
        match self.cells.take(name) {
            Some(entry) => {
                let (key, cell) = entry;
                let Cell { kind, mut value } = cell;
                let skipped = replay(&mut value, waiting);
                let error = match apply_in_place(&mut value, patch) {
                    Ok(()) => None,
                    Err(error) => Some(error),
                };
                self.cells.insert(key, Cell { kind, value });
                Some(Advance { kind, skipped, error })
            },
            None => None,
        }
    }
}

} // verus!
