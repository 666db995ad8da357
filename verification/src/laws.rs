//! What holds of the protocol, proved of the states of a context.

use vstd::prelude::*;

use json_patch::Patch;
use serde_json::Value;

use crate::context::DispatchOutcome;
use crate::context::Registration;
use crate::context::SyncState;
use crate::envelope::decoded;
use crate::envelope::UpdateView;
use crate::patch::applied;
use crate::patch::replayed;
use crate::patch::stepped;
use crate::patch::PatchError;
use crate::registry::RegisterError;
use crate::registry::SignalKind;

verus! {

/// The result of applying `patch` to what an earlier application gave: the
/// earlier error, where there was one.
pub open spec fn applied_next(before: Result<Value, PatchError>, patch: Patch) -> Result<
    Value,
    PatchError,
> {
    match before {
        Ok(doc) => applied(doc, patch),
        Err(error) => Err(error),
    }
}

/// The state after one envelope for the signal `name` was dispatched for each
/// of `patches`, in their order.
pub open spec fn dispatched_all(state: SyncState, name: Seq<char>, patches: Seq<Patch>) -> SyncState
    decreases patches.len(),
{
    if patches.len() == 0 {
        state
    } else {
        dispatched_all(state, name, patches.drop_last()).dispatched(
            UpdateView { name, patch: patches.last() },
        )
    }
}

/// Every state that a context can reach is sound: the state of a new context
/// is, and each step leads from a sound state to a sound one.
pub proof fn law_reachable_states_are_sound(
    state: SyncState,
    url: Seq<char>,
    kind: SignalKind,
    name: Seq<char>,
    initial: Value,
    update: UpdateView,
    text: Seq<char>,
)
    requires
        state.sound(),
    ensures
        SyncState::initial().sound(),
        state.provided(url).sound(),
        state.opened().sound(),
        state.errored().sound(),
        state.closed().sound(),
        state.registered(kind, name, initial).sound(),
        state.dispatched(update).sound(),
        state.received(text).sound(),
{
}

/// Registration is idempotent. Registering a name a second time, with the
/// same kind, changes nothing: the cell keeps the value it has, whatever
/// initial value the second registration brings, and no patch enters or
/// leaves the buffer. So both registrations stand for one cell, and see the
/// same value after every later message.
pub proof fn law_registration_is_idempotent(
    state: SyncState,
    kind: SignalKind,
    name: Seq<char>,
    first: Value,
    second: Value,
)
    ensures
        state.registered(kind, name, first).registered(kind, name, second) == state.registered(
            kind,
            name,
            first,
        ),
        state.register_result(kind, name, first) is Ok ==> state.registered(
            kind,
            name,
            first,
        ).register_result(kind, name, second) == Ok::<Registration, RegisterError>(
            Registration { created: false, replayed: 0, skipped: 0 },
        ),
{
}

/// A registration that creates a cell uses each waiting patch once: the cell
/// starts from the initial value with the waiting patches tried on it in
/// their order, and none of them waits any longer.
pub proof fn law_registration_consumes_the_buffer(
    state: SyncState,
    kind: SignalKind,
    name: Seq<char>,
    initial: Value,
)
    requires
        state.creates(name),
    ensures
        state.registered(kind, name, initial).value(name) == Some(
            replayed(initial, state.waiting(name)),
        ),
        state.registered(kind, name, initial).kind_of(name) == Some(kind),
        state.registered(kind, name, initial).waiting(name) == Seq::<Patch>::empty(),
{
}

/// Envelopes for a signal without a cell wait in the order of their arrival,
/// behind those that waited before, and create no cell.
pub proof fn law_early_patches_wait_in_order(
    state: SyncState,
    name: Seq<char>,
    patches: Seq<Patch>,
)
    requires
        !state.cells.contains_key(name),
    ensures
        dispatched_all(state, name, patches).waiting(name) == state.waiting(name) + patches,
        dispatched_all(state, name, patches).cells == state.cells,
        dispatched_all(state, name, patches).connection == state.connection,
    decreases patches.len(),
{
    if patches.len() > 0 {
        law_early_patches_wait_in_order(state, name, patches.drop_last());
    }
}

/// Ordered buffering. Where patches arrive for a name before the name is
/// registered, the cell that the registration creates holds the initial value
/// with those patches tried on it in the order of their arrival.
pub proof fn law_buffered_patches_apply_in_order(
    state: SyncState,
    kind: SignalKind,
    name: Seq<char>,
    patches: Seq<Patch>,
    initial: Value,
)
    requires
        state.initialized(),
        !state.cells.contains_key(name),
        !state.pending.contains_key(name),
    ensures
        dispatched_all(state, name, patches).registered(kind, name, initial).value(name) == Some(
            replayed(initial, patches),
        ),
{
    law_early_patches_wait_in_order(state, name, patches);
}

/// Ordered buffering, for three patches. Where `first`, `second` and `third`
/// arrive in this order for a name before the name is registered, and each
/// applies to what the one before it gave, the cell that the registration
/// creates holds the initial value with `first`, then `second`, then `third`
/// applied to it.
pub proof fn law_three_buffered_patches(
    state: SyncState,
    kind: SignalKind,
    name: Seq<char>,
    first: Patch,
    second: Patch,
    third: Patch,
    initial: Value,
)
    requires
        state.initialized(),
        !state.cells.contains_key(name),
        !state.pending.contains_key(name),
        applied_next(applied_next(applied(initial, first), second), third) is Ok,
    ensures
        Ok::<Value, PatchError>(
            state.dispatched(UpdateView { name, patch: first }).dispatched(
                UpdateView { name, patch: second },
            ).dispatched(UpdateView { name, patch: third }).registered(
                kind,
                name,
                initial,
            ).cells[name].value,
        ) == applied_next(applied_next(applied(initial, first), second), third),
{
    let patches = seq![first, second, third];
    law_buffered_patches_apply_in_order(state, kind, name, patches, initial);
    let two = patches.drop_last();
    let one = two.drop_last();
    assert(dispatched_all(state, name, one.drop_last()) == state);
    assert(dispatched_all(state, name, one) == state.dispatched(
        UpdateView { name, patch: first },
    ));
    assert(dispatched_all(state, name, two) == state.dispatched(
        UpdateView { name, patch: first },
    ).dispatched(UpdateView { name, patch: second }));
    assert(replayed(initial, one.drop_last()) == initial);
    assert(replayed(initial, one) == stepped(initial, first));
    assert(replayed(initial, two) == stepped(stepped(initial, first), second));
}

/// The order of arrival and registration does not matter. Whether an
/// envelope for a name arrives just before the name is registered, and
/// waits, or just after, and is applied at once, the context ends in the
/// same state.
pub proof fn law_arrival_and_registration_commute(
    state: SyncState,
    kind: SignalKind,
    update: UpdateView,
    initial: Value,
)
    requires
        state.creates(update.name),
    ensures
        state.dispatched(update).registered(kind, update.name, initial) == state.registered(
            kind,
            update.name,
            initial,
        ).dispatched(update),
{
    let name = update.name;
    let early = state.dispatched(update).registered(kind, name, initial);
    let late = state.registered(kind, name, initial).dispatched(update);
    let waiting = state.waiting(name);
    assert(waiting.push(update.patch).drop_last() == waiting);
    assert(early.cells =~= late.cells);
    assert(early.pending =~= late.pending);
}

/// One step of a client: an envelope arrives, or a signal is registered.
pub enum Step {
    /// The envelope `update` arrives and is dispatched.
    Arrival {
        /// The envelope.
        update: UpdateView,
    },
    /// The signal `name` is registered.
    Registration {
        /// The kind that the signal is registered with.
        kind: SignalKind,
        /// The name of the signal.
        name: Seq<char>,
        /// The initial value that the registration brings.
        initial: Value,
    },
}

/// The state after the step `step`.
pub open spec fn after_step(state: SyncState, step: Step) -> SyncState {
    match step {
        Step::Arrival { update } => state.dispatched(update),
        Step::Registration { kind, name, initial } => state.registered(kind, name, initial),
    }
}

/// The state after the steps `steps`, taken in their order.
pub open spec fn after_steps(state: SyncState, steps: Seq<Step>) -> SyncState
    decreases steps.len(),
{
    if steps.len() == 0 {
        state
    } else {
        after_step(after_steps(state, steps.drop_last()), steps.last())
    }
}

/// The patches that arrive for the signal `name` in the course of `steps`, in
/// the order of their arrival.
pub open spec fn arrivals(steps: Seq<Step>, name: Seq<char>) -> Seq<Patch>
    decreases steps.len(),
{
    if steps.len() == 0 {
        Seq::empty()
    } else {
        let before = arrivals(steps.drop_last(), name);
        match steps.last() {
            Step::Arrival { update } => if update.name == name {
                before.push(update.patch)
            } else {
                before
            },
            Step::Registration { .. } => before,
        }
    }
}

/// The initial value that the first registration of the signal `name` in the
/// course of `steps` brings, if the signal is registered in it at all.
pub open spec fn first_initial(steps: Seq<Step>, name: Seq<char>) -> Option<Value>
    decreases steps.len(),
{
    if steps.len() == 0 {
        None
    } else {
        match first_initial(steps.drop_last(), name) {
            Some(initial) => Some(initial),
            None => match steps.last() {
                Step::Registration { kind, name: registered, initial } => if registered == name {
                    Some(initial)
                } else {
                    None
                },
                Step::Arrival { .. } => None,
            },
        }
    }
}

/// Cells are consistent whatever the timing. Take a context with a connection
/// that knows nothing of a name yet, and let envelopes arrive and signals be
/// registered in any order, for this name and for others. As soon as the name
/// has been registered, its cell holds the initial value of its first
/// registration with every patch that has arrived for the name tried on it,
/// in the order of arrival: it does not matter which of them came before the
/// registration and which after. Until then all of them wait, in that order.
pub proof fn law_cells_are_consistent_whatever_the_timing(
    state: SyncState,
    steps: Seq<Step>,
    name: Seq<char>,
)
    requires
        state.sound(),
        state.initialized(),
        !state.cells.contains_key(name),
        !state.pending.contains_key(name),
    ensures
        after_steps(state, steps).sound(),
        after_steps(state, steps).initialized(),
        match first_initial(steps, name) {
            Some(initial) => after_steps(state, steps).value(name) == Some(
                replayed(initial, arrivals(steps, name)),
            ) && after_steps(state, steps).waiting(name) == Seq::<Patch>::empty(),
            None => after_steps(state, steps).value(name) is None && after_steps(
                state,
                steps,
            ).waiting(name) == arrivals(steps, name),
        },
    decreases steps.len(),
{
    if steps.len() > 0 {
        law_cells_are_consistent_whatever_the_timing(state, steps.drop_last(), name);
        let earlier = arrivals(steps.drop_last(), name);
        if let Step::Arrival { update } = steps.last() {
            if update.name == name {
                assert(earlier.push(update.patch).drop_last() == earlier);
            }
        }
    }
}

/// Signals are isolated from each other in dispatch. An envelope for one
/// name changes neither the cell of another name nor what waits for it.
pub proof fn law_dispatch_leaves_other_signals(
    state: SyncState,
    update: UpdateView,
    other: Seq<char>,
)
    requires
        other != update.name,
    ensures
        state.dispatched(update).value(other) == state.value(other),
        state.dispatched(update).kind_of(other) == state.kind_of(other),
        state.dispatched(update).pending.contains_key(other) == state.pending.contains_key(other),
        state.dispatched(update).waiting(other) == state.waiting(other),
{
}

/// Signals are isolated from each other in registration. Registering one
/// name changes neither the cell of another name nor what waits for it.
pub proof fn law_registration_leaves_other_signals(
    state: SyncState,
    kind: SignalKind,
    name: Seq<char>,
    initial: Value,
    other: Seq<char>,
)
    requires
        other != name,
    ensures
        state.registered(kind, name, initial).value(other) == state.value(other),
        state.registered(kind, name, initial).kind_of(other) == state.kind_of(other),
        state.registered(kind, name, initial).pending.contains_key(other)
            == state.pending.contains_key(other),
        state.registered(kind, name, initial).waiting(other) == state.waiting(other),
{
}

/// Signals are isolated from each other in the handling of messages. A
/// message changes at most the cell and the waiting patches of the signal
/// that its envelope names.
pub proof fn law_message_leaves_other_signals(state: SyncState, text: Seq<char>, other: Seq<char>)
    requires
        decoded(text) is Some ==> decoded(text)->Some_0.name != other,
    ensures
        state.received(text).value(other) == state.value(other),
        state.received(text).kind_of(other) == state.kind_of(other),
        state.received(text).pending.contains_key(other) == state.pending.contains_key(other),
        state.received(text).waiting(other) == state.waiting(other),
{
}

/// A failure is isolated. An envelope whose patch does not apply to its
/// signal's cell is reported as failed and changes nothing, and the envelope
/// for another signal that comes after it has the effect that it would have
/// had without the failed one.
pub proof fn law_failed_patch_is_isolated(state: SyncState, bad: UpdateView, good: UpdateView)
    requires
        state.sound(),
        state.cells.contains_key(bad.name),
        applied(state.cells[bad.name].value, bad.patch) is Err,
        good.name != bad.name,
    ensures
        state.dispatched(bad) == state,
        state.dispatch_outcome(bad) == (DispatchOutcome::Failed {
            kind: state.cells[bad.name].kind,
            error: applied(state.cells[bad.name].value, bad.patch)->Err_0,
            skipped: 0,
        }),
        state.dispatched(bad).dispatched(good) == state.dispatched(good),
        state.dispatched(bad).dispatch_outcome(good) == state.dispatch_outcome(good),
{
    assert(state.dispatched(bad).cells =~= state.cells);
    assert(state.dispatched(bad).pending =~= state.pending);
}

/// A valid envelope for a signal with a cell puts the patched value into the
/// cell.
pub proof fn law_valid_patch_is_applied(state: SyncState, update: UpdateView)
    requires
        state.sound(),
        state.cells.contains_key(update.name),
        applied(state.cells[update.name].value, update.patch) is Ok,
    ensures
        Ok::<Value, PatchError>(state.dispatched(update).cells[update.name].value) == applied(
            state.cells[update.name].value,
            update.patch,
        ),
        state.dispatch_outcome(update) == (DispatchOutcome::Applied {
            kind: state.cells[update.name].kind,
            skipped: 0,
        }),
{
}

/// A message that is no envelope changes nothing, and neither does any
/// message while there is no connection.
pub proof fn law_dropped_message_changes_nothing(state: SyncState, text: Seq<char>)
    requires
        decoded(text) is None || !state.initialized(),
    ensures
        state.received(text) == state,
        state.receive_outcome(text) == if state.initialized() {
            DispatchOutcome::Malformed
        } else {
            DispatchOutcome::NotConnected
        },
{
}

} // verus!
