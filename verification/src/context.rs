//! The synchronisation context of one client: the state of its connection,
//! the registry of its cells and the buffer of early patches, with the
//! dispatcher that brings each message of the event stream to its cell.
//!
//! The context does no input or output. Its owner opens the event stream when
//! [`provide_sse`] asks for it and hands every event of the stream to the
//! context; the context says what the event changed.

use vstd::prelude::*;

use json_patch::Patch;
use serde_json::Value;

use crate::envelope::decoded;
use crate::envelope::ServerSignalUpdate;
use crate::envelope::UpdateView;
use crate::patch::failures;
use crate::patch::replay;
use crate::patch::replayed;
use crate::patch::PatchError;
use crate::pending::queued;
use crate::pending::PendingBuffer;
use crate::registry::advance_error;
use crate::registry::advanced;
use crate::registry::Cell;
use crate::registry::RegisterError;
use crate::registry::SignalKind;
use crate::registry::SignalRegistry;

verus! {

/// The state of the connection to the event stream.
#[derive(Clone, Copy, Debug, PartialEq, Eq, Structural)]
pub enum ConnectionState {
    /// No connection has been provided, or it has been torn down.
    Closed,
    /// A connection has been provided and the stream is being opened.
    Connecting,
    /// The stream is open and delivers messages.
    Open,
    /// The stream reported an error. The transport may open it again.
    Failed,
}

/// What the owner of the context has to do after a connection was asked for.
#[derive(Clone, Copy, Debug, PartialEq, Eq, Structural)]
pub enum ProvideOutcome {
    /// No connection was there: the owner opens the event stream now.
    Connect,
    /// A connection is there already: nothing is to be done.
    AlreadyInitialized,
}

/// What a registration did.
#[derive(Clone, Copy, Debug, PartialEq, Eq, Structural)]
pub struct Registration {
    /// Whether the cell was created by this registration. Where it was there
    /// before, it was left as it was.
    pub created: bool,
    /// How many patches had waited for the cell and were tried on it.
    pub replayed: usize,
    /// How many of those did not apply.
    pub skipped: usize,
}

/// What the dispatcher did with a message.
#[derive(Clone, Copy, Debug, PartialEq, Eq, Structural)]
pub enum DispatchOutcome {
    /// The context has no connection: the message was ignored.
    NotConnected,
    /// The message is no envelope: it was dropped.
    Malformed,
    /// No cell exists for the signal: the patch waits in the buffer.
    Buffered,
    /// The patch was applied to the signal's cell.
    Applied {
        /// The kind of the signal.
        kind: SignalKind,
        /// How many patches had waited for the cell and did not apply.
        skipped: usize,
    },
    /// The patch does not apply to the signal's cell, which keeps the value
    /// it had before the patch.
    Failed {
        /// The kind of the signal.
        kind: SignalKind,
        /// Why the patch does not apply.
        error: PatchError,
        /// How many patches had waited for the cell and did not apply.
        skipped: usize,
    },
}

/// What became of a message: what the dispatcher did with it, and for which
/// signal.
#[derive(Clone, Debug, PartialEq, Eq)]
pub struct Delivery {
    /// The name of the signal that the message's envelope names; nothing
    /// where the message was ignored or is no envelope.
    pub signal: Option<String>,
    /// What the dispatcher did.
    pub outcome: DispatchOutcome,
}

/// What a context holds.
pub struct SyncState {
    /// The state of the connection.
    pub connection: ConnectionState,
    /// The address of the event stream; empty while there is no connection.
    pub endpoint: Seq<char>,
    /// The cell of each registered signal.
    pub cells: Map<Seq<char>, Cell>,
    /// The patches that wait for a cell, by the signal's name.
    pub pending: Map<Seq<char>, Seq<Patch>>,
}

impl SyncState {
    /// The state of a new context.
    pub open spec fn initial() -> SyncState {
        SyncState {
            connection: ConnectionState::Closed,
            endpoint: Seq::empty(),
            cells: Map::empty(),
            pending: Map::empty(),
        }
    }

    /// What holds of every state that a context can reach: patches wait only
    /// for signals that have no cell, no entry of the buffer is empty, and
    /// without a connection there is no address.
    pub open spec fn sound(self) -> bool {
        &&& forall|name: Seq<char>|
            !(#[trigger] self.cells.contains_key(name) && self.pending.contains_key(name))
        &&& forall|name: Seq<char>| #[trigger]
            self.pending.contains_key(name) ==> self.pending[name].len() > 0
        &&& self.connection == ConnectionState::Closed ==> self.endpoint == Seq::<char>::empty()
    }

    /// Whether a connection has been provided.
    pub open spec fn initialized(self) -> bool {
        self.connection != ConnectionState::Closed
    }

    /// The current value of the signal `name`, if it is registered.
    pub open spec fn value(self, name: Seq<char>) -> Option<Value> {
        if self.cells.contains_key(name) {
            Some(self.cells[name].value)
        } else {
            None
        }
    }

    /// The kind of the signal `name`, if it is registered.
    pub open spec fn kind_of(self, name: Seq<char>) -> Option<SignalKind> {
        if self.cells.contains_key(name) {
            Some(self.cells[name].kind)
        } else {
            None
        }
    }

    /// The patches that wait for the signal `name`.
    pub open spec fn waiting(self, name: Seq<char>) -> Seq<Patch> {
        queued(self.pending, name)
    }

    /// The state with another connection state and address.
    pub open spec fn connected(self, connection: ConnectionState, endpoint: Seq<char>) -> SyncState {
        SyncState { connection, endpoint, cells: self.cells, pending: self.pending }
    }

    /// The state after a connection to `url` was asked for: the first request
    /// starts one, a later one changes nothing.
    pub open spec fn provided(self, url: Seq<char>) -> SyncState {
        if self.initialized() {
            self
        } else {
            self.connected(ConnectionState::Connecting, url)
        }
    }

    /// What the owner has to do after a connection was asked for.
    pub open spec fn provide_outcome(self) -> ProvideOutcome {
        if self.initialized() {
            ProvideOutcome::AlreadyInitialized
        } else {
            ProvideOutcome::Connect
        }
    }

    /// The state after the stream reported that it is open.
    pub open spec fn opened(self) -> SyncState {
        if self.initialized() {
            self.connected(ConnectionState::Open, self.endpoint)
        } else {
            self
        }
    }

    /// The state after the stream reported an error.
    pub open spec fn errored(self) -> SyncState {
        if self.initialized() {
            self.connected(ConnectionState::Failed, self.endpoint)
        } else {
            self
        }
    }

    /// The state after the connection was torn down. Cells and waiting
    /// patches stay.
    pub open spec fn closed(self) -> SyncState {
        self.connected(ConnectionState::Closed, Seq::empty())
    }

    /// Whether a registration of `name` creates its cell.
    pub open spec fn creates(self, name: Seq<char>) -> bool {
        self.initialized() && !self.cells.contains_key(name)
    }

    /// The state after `name` was registered as a signal of kind `kind` with
    /// the initial value `initial`. A new cell starts from `initial` with the
    /// patches that waited for it tried on it, in the order of their arrival,
    /// and those patches leave the buffer.
    pub open spec fn registered(
        self,
        kind: SignalKind,
        name: Seq<char>,
        initial: Value,
    ) -> SyncState {
        if self.creates(name) {
            SyncState {
                connection: self.connection,
                endpoint: self.endpoint,
                cells: self.cells.insert(
                    name,
                    Cell { kind, value: replayed(initial, self.waiting(name)) },
                ),
                pending: self.pending.remove(name),
            }
        } else {
            self
        }
    }

    /// What a registration of `name` as a signal of kind `kind` with the
    /// initial value `initial` reports.
    pub open spec fn register_result(
        self,
        kind: SignalKind,
        name: Seq<char>,
        initial: Value,
    ) -> Result<Registration, RegisterError> {
        if !self.initialized() {
            Err(RegisterError::NotInitialized)
        } else if !self.cells.contains_key(name) {
            Ok(
                Registration {
                    created: true,
                    replayed: self.waiting(name).len() as usize,
                    skipped: failures(initial, self.waiting(name)) as usize,
                },
            )
        } else if self.cells[name].kind == kind {
            Ok(Registration { created: false, replayed: 0, skipped: 0 })
        } else {
            Err(RegisterError::KindConflict)
        }
    }

    /// The state after the envelope `update` was dispatched. Where the signal
    /// has a cell, the patches that waited for it and then the envelope's
    /// patch are tried on the cell, and the waiting patches leave the buffer.
    /// Where it has none, the envelope's patch joins the waiting ones.
    pub open spec fn dispatched(self, update: UpdateView) -> SyncState {
        let name = update.name;
        if self.cells.contains_key(name) {
            SyncState {
                connection: self.connection,
                endpoint: self.endpoint,
                cells: self.cells.insert(
                    name,
                    Cell {
                        kind: self.cells[name].kind,
                        value: advanced(self.cells[name].value, self.waiting(name), update.patch),
                    },
                ),
                pending: self.pending.remove(name),
            }
        } else {
            SyncState {
                connection: self.connection,
                endpoint: self.endpoint,
                cells: self.cells,
                pending: self.pending.insert(name, self.waiting(name).push(update.patch)),
            }
        }
    }

    /// What the dispatcher reports of the envelope `update`.
    pub open spec fn dispatch_outcome(self, update: UpdateView) -> DispatchOutcome {
        let name = update.name;
        if self.cells.contains_key(name) {
            let cell = self.cells[name];
            let skipped = failures(cell.value, self.waiting(name)) as usize;
            match advance_error(cell.value, self.waiting(name), update.patch) {
                None => DispatchOutcome::Applied { kind: cell.kind, skipped },
                Some(error) => DispatchOutcome::Failed { kind: cell.kind, error, skipped },
            }
        } else {
            DispatchOutcome::Buffered
        }
    }

    /// The state after the message `text` arrived. Without a connection, and
    /// where the text is no envelope, nothing changes.
    pub open spec fn received(self, text: Seq<char>) -> SyncState {
        if !self.initialized() {
            self
        } else {
            match decoded(text) {
                Some(update) => self.dispatched(update),
                None => self,
            }
        }
    }

    /// What the dispatcher reports of the message `text`.
    pub open spec fn receive_outcome(self, text: Seq<char>) -> DispatchOutcome {
        if !self.initialized() {
            DispatchOutcome::NotConnected
        } else {
            match decoded(text) {
                Some(update) => self.dispatch_outcome(update),
                None => DispatchOutcome::Malformed,
            }
        }
    }

    /// The name of the signal that the message `text` is dispatched for:
    /// nothing where it is ignored or dropped.
    pub open spec fn receive_signal(self, text: Seq<char>) -> Option<Seq<char>> {
        if !self.initialized() {
            None
        } else {
            match decoded(text) {
                Some(update) => Some(update.name),
                None => None,
            }
        }
    }
}

/// The synchronisation context of one client.
pub struct SseContext {
    connection: ConnectionState,
    endpoint: String,
    registry: SignalRegistry,
    pending: PendingBuffer,
}

impl View for SseContext {
    type V = SyncState;

    closed spec fn view(&self) -> SyncState {
        SyncState {
            connection: self.connection,
            endpoint: self.endpoint@,
            cells: self.registry@,
            pending: self.pending@,
        }
    }
}

impl SseContext {
    /// The context is sound: its parts are, and its state is one that a
    /// context can reach.
    pub closed spec fn wf(&self) -> bool {
        &&& self.registry.wf()
        &&& self.pending.wf()
        &&& self@.sound()
    }

    /// The state of a sound context is sound.
    pub proof fn law_state_is_sound(&self)
        requires
            self.wf(),
        ensures
            self@.sound(),
    {
    }

    /// A context without a connection, cells or waiting patches.
    pub fn new() -> (context: Self)
        ensures
            context.wf(),
            context@ == SyncState::initial(),
    {
        SseContext {
            connection: ConnectionState::Closed,
            endpoint: String::new(),
            registry: SignalRegistry::new(),
            pending: PendingBuffer::new(),
        }
    }

    /// The state of the connection.
    pub fn connection(&self) -> (state: ConnectionState)
        ensures
            state == self@.connection,
    {
        self.connection
    }

    /// Whether a connection has been provided.
    pub fn is_initialized(&self) -> (yes: bool)
        ensures
            yes == self@.initialized(),
    {
        match self.connection {
            ConnectionState::Closed => false,
            _ => true,
        }
    }

    /// The address of the event stream; empty while there is no connection.
    pub fn endpoint(&self) -> (url: &str)
        ensures
            url@ == self@.endpoint,
    {
        self.endpoint.as_str()
    }

    /// Asks for the connection to the event stream at `url`. The first
    /// request makes the context wait for the stream and tells the owner to
    /// open it; while a connection is there, a request changes nothing.
    pub fn provide(&mut self, url: &str) -> (outcome: ProvideOutcome)
        requires
            old(self).wf(),
        ensures
            final(self).wf(),
            final(self)@ == old(self)@.provided(url@),
            outcome == old(self)@.provide_outcome(),
    {
        if self.is_initialized() {
            ProvideOutcome::AlreadyInitialized
        } else {
            self.connection = ConnectionState::Connecting;
            self.endpoint = url.to_owned();
            ProvideOutcome::Connect
        }
    }

    /// Takes note that the stream is open. Without a connection nothing
    /// changes.
    pub fn opened(&mut self)
        requires
            old(self).wf(),
        ensures
            final(self).wf(),
            final(self)@ == old(self)@.opened(),
    {
        if self.is_initialized() {
            self.connection = ConnectionState::Open;
        }
    }

    /// Takes note that the stream reported an error. Without a connection
    /// nothing changes.
    pub fn errored(&mut self)
        requires
            old(self).wf(),
        ensures
            final(self).wf(),
            final(self)@ == old(self)@.errored(),
    {
        if self.is_initialized() {
            self.connection = ConnectionState::Failed;
        }
    }

    /// Tears the connection down. Cells and waiting patches stay; messages
    /// are ignored until a connection is provided again.
    pub fn close(&mut self)
        requires
            old(self).wf(),
        ensures
            final(self).wf(),
            final(self)@ == old(self)@.closed(),
    {
        self.connection = ConnectionState::Closed;
        self.endpoint = String::new();
    }

    /// The kind of the signal `name`, if it is registered.
    pub fn kind_of(&self, name: &str) -> (kind: Option<SignalKind>)
        requires
            self.wf(),
        ensures
            kind == self@.kind_of(name@),
    {
        self.registry.kind_of(name)
    }

    /// The current value of the signal `name`, if it is registered.
    pub fn value(&self, name: &str) -> (value: Option<&Value>)
        requires
            self.wf(),
        ensures
            match value {
                Some(v) => self@.value(name@) == Some(*v),
                None => self@.value(name@) is None,
            },
    {
        self.registry.value(name)
    }

    /// The current value of the signal `name`, if it is registered as a
    /// signal of kind `kind`.
    pub fn lookup(&self, kind: SignalKind, name: &str) -> (value: Option<&Value>)
        requires
            self.wf(),
        ensures
            match value {
                Some(v) => self@.kind_of(name@) == Some(kind) && self@.value(name@) == Some(*v),
                None => self@.kind_of(name@) != Some(kind),
            },
    {
        self.registry.lookup(kind, name)
    }

    /// How many patches wait for the signal `name`.
    pub fn waiting(&self, name: &str) -> (n: usize)
        requires
            self.wf(),
        ensures
            n == self@.waiting(name@).len(),
    {
        self.pending.count(name)
    }

    /// Registers `name` as a signal of kind `kind`.
    ///
    /// Without a connection nothing is registered. A new name gets a cell:
    /// it starts from `initial`, and the patches that arrived for the name
    /// before are tried on it in the order of their arrival and leave the
    /// buffer. A name that is registered with this kind keeps its cell and
    /// the cell its value. A name that is registered with the other kind is
    /// refused.
    pub fn register(&mut self, kind: SignalKind, name: &str, initial: Value) -> (r: Result<
        Registration,
        RegisterError,
    >)
        requires
            old(self).wf(),
        ensures
            final(self).wf(),
            final(self)@ == old(self)@.registered(kind, name@, initial),
            r == old(self)@.register_result(kind, name@, initial),
    {
        if !self.is_initialized() {
            return Err(RegisterError::NotInitialized);
        }
        let patches = if self.registry.kind_of(name).is_none() {
            self.pending.drain(name)
        } else {
            Vec::new()
        };
        let mut value = initial;
        let skipped = replay(&mut value, &patches);
        match self.registry.register(kind, name, value) {
            Ok(created) => Ok(Registration { created, replayed: patches.len(), skipped }),
            Err(error) => Err(error),
        }
    }

    /// Brings `patch` to the signal `name`: to its cell, or to the buffer.
    fn deliver(&mut self, name: &str, patch: Patch) -> (outcome: DispatchOutcome)
        requires
            old(self).wf(),
        ensures
            final(self).wf(),
            final(self)@ == old(self)@.dispatched(UpdateView { name: name@, patch }),
            outcome == old(self)@.dispatch_outcome(UpdateView { name: name@, patch }),
    {
        let patches = if self.registry.kind_of(name).is_some() {
            self.pending.drain(name)
        } else {
            Vec::new()
        };
        match self.registry.advance(name, &patches, &patch) {
            Some(advance) => match advance.error {
                None => DispatchOutcome::Applied { kind: advance.kind, skipped: advance.skipped },
                Some(error) => DispatchOutcome::Failed {
                    kind: advance.kind,
                    error,
                    skipped: advance.skipped,
                },
            },
            None => {
                self.pending.enqueue(name, patch);
                DispatchOutcome::Buffered
            },
        }
    }

    /// Dispatches the envelope `update`.
    ///
    /// Where the signal has a cell, the patches that wait for it are tried on
    /// the cell in the order of their arrival, then the envelope's patch;
    /// a patch that does not apply leaves the cell's value as it was before
    /// it. Where the signal has no cell, the envelope's patch is put behind
    /// the patches that wait for it.
    pub fn dispatch(&mut self, update: ServerSignalUpdate) -> (outcome: DispatchOutcome)
        requires
            old(self).wf(),
        ensures
            final(self).wf(),
            final(self)@ == old(self)@.dispatched(update@),
            outcome == old(self)@.dispatch_outcome(update@),
    {
        let (name, patch) = update.into_parts();
        self.deliver(name.as_str(), patch)
    }

    /// Takes the message `text` of the event stream: reads the envelope and
    /// dispatches it. Without a connection the message is ignored; a text
    /// that is no envelope is dropped. Neither changes anything.
    pub fn on_message(&mut self, text: &str) -> (delivery: Delivery)
        requires
            old(self).wf(),
        ensures
            final(self).wf(),
            final(self)@ == old(self)@.received(text@),
            delivery.outcome == old(self)@.receive_outcome(text@),
            match delivery.signal {
                Some(name) => old(self)@.receive_signal(text@) == Some(name@),
                None => old(self)@.receive_signal(text@) is None,
            },
    {
        if !self.is_initialized() {
            return Delivery { signal: None, outcome: DispatchOutcome::NotConnected };
        }
        match ServerSignalUpdate::decode(text) {
            Some(update) => {
                let (name, patch) = update.into_parts();
                let outcome = self.deliver(name.as_str(), patch);
                Delivery { signal: Some(name), outcome }
            },
            None => Delivery { signal: None, outcome: DispatchOutcome::Malformed },
        }
    }
}

/// Provides the connection to the event stream at `url`, if there is not one
/// already: a connection that has been provided is not replaced.
///
/// Where this returns [`ProvideOutcome::Connect`], the owner of the context
/// opens the stream and hands its events to the context. Where the stream
/// cannot be opened, the owner calls [`SseContext::close`].
pub fn provide_sse(context: &mut SseContext, url: &str) -> (outcome: ProvideOutcome)
    requires
        old(context).wf(),
    ensures
        final(context).wf(),
        final(context)@ == old(context)@.provided(url@),
        outcome == old(context)@.provide_outcome(),
{
    context.provide(url)
}

/// Creates a signal that the server controls, of the kind whose value may be
/// handed to other threads. Its cell starts from `initial`, the signal's
/// default value, and changes only by the patches that the server sends.
pub fn create_sse_signal(context: &mut SseContext, name: &str, initial: Value) -> (r: Result<
    Registration,
    RegisterError,
>)
    requires
        old(context).wf(),
    ensures
        final(context).wf(),
        final(context)@ == old(context)@.registered(SignalKind::Shared, name@, initial),
        r == old(context)@.register_result(SignalKind::Shared, name@, initial),
{
    context.register(SignalKind::Shared, name, initial)
}

/// Creates a signal that the server controls, of the kind whose value stays
/// on the thread that made it. This is the same as [`create_sse_signal`] but
/// for the kind.
pub fn create_sse_signal_local(context: &mut SseContext, name: &str, initial: Value) -> (r:
    Result<Registration, RegisterError>)
    requires
        old(context).wf(),
    ensures
        final(context).wf(),
        final(context)@ == old(context)@.registered(SignalKind::Local, name@, initial),
        r == old(context)@.register_result(SignalKind::Local, name@, initial),
{
    context.register(SignalKind::Local, name, initial)
}

} // verus!
