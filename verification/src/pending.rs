//! The buffer of patches that arrived for signals which no cell exists for
//! yet: for each such name the patches in the order of their arrival.

use vstd::prelude::*;

use json_patch::Patch;

use crate::name_map::NameMap;

verus! {

/// The patches that `pending` holds for `name`, first arrived first: none
/// where it has no entry for the name.
pub open spec fn queued(pending: Map<Seq<char>, Seq<Patch>>, name: Seq<char>) -> Seq<Patch> {
    if pending.contains_key(name) {
        pending[name]
    } else {
        Seq::empty()
    }
}

spec fn queue_view(patches: Vec<Patch>) -> Seq<Patch> {
    patches@
}

/// The buffer of patches that wait for their signal's cell.
pub struct PendingBuffer {
    queues: NameMap<Vec<Patch>>,
}

impl View for PendingBuffer {
    type V = Map<Seq<char>, Seq<Patch>>;

    closed spec fn view(&self) -> Map<Seq<char>, Seq<Patch>> {
        self.queues@.map_values(|patches: Vec<Patch>| queue_view(patches))
    }
}

impl PendingBuffer {
    /// The buffer is sound: it has one entry for a name at most, and none
    /// without a patch.
    pub closed spec fn wf(&self) -> bool {
        &&& self.queues.wf()
        &&& forall|name: Seq<char>| #[trigger]
            self.queues@.contains_key(name) ==> self.queues@[name]@.len() > 0
    }

    /// An entry of a sound buffer holds a patch.
    pub proof fn law_entries_hold_a_patch(&self, name: Seq<char>)
        requires
            self.wf(),
            self@.contains_key(name),
        ensures
            self@[name].len() > 0,
    {
    }

    /// The empty buffer.
    pub fn new() -> (buffer: Self)
        ensures
            buffer.wf(),
            buffer@ == Map::<Seq<char>, Seq<Patch>>::empty(),
    {
        PendingBuffer { queues: NameMap::new() }
    }

    /// How many patches wait for the signal `name`.
    pub fn count(&self, name: &str) -> (n: usize)
        requires
            self.wf(),
        ensures
            n == queued(self@, name@).len(),
    {
        match self.queues.get(name) {
            Some(patches) => patches.len(),
            None => 0,
        }
    }

    /// Appends `patch` to the patches that wait for the signal `name`. The
    /// entry is created where there was none.
    pub fn enqueue(&mut self, name: &str, patch: Patch)
        requires
            old(self).wf(),
        ensures
            final(self).wf(),
            final(self)@ == old(self)@.insert(name@, queued(old(self)@, name@).push(patch)),
    {
        let (key, mut patches) = match self.queues.take(name) {
            Some(entry) => entry,
            None => (name.to_owned(), Vec::new()),
        };
        patches.push(patch);
        self.queues.insert(key, patches);
    }

    /// Removes the patches that wait for the signal `name` and returns them,
    /// first arrived first: none where none waited.
    pub fn drain(&mut self, name: &str) -> (patches: Vec<Patch>)
        requires
            old(self).wf(),
        ensures
            final(self).wf(),
            final(self)@ == old(self)@.remove(name@),
            patches@ == queued(old(self)@, name@),
    {
        match self.queues.take(name) {
            Some(entry) => entry.1,
            None => Vec::new(),
        }
    }
}

} // verus!
