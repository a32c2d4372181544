//! The handle registry.
//!
//! Callers refer to live tokenizer instances through opaque handles. A
//! handle is an arena index paired with a generation counter; a slot's
//! generation moves forward every time the slot is vacated, so a handle
//! that was destroyed can never match a slot again. Use-after-destroy and
//! double-destroy thereby become detectable no-ops instead of undefined
//! behaviour. A value can also be checked out of its slot for the duration
//! of a call and put back afterwards, which keeps "destroy while a call is
//! in flight" detectable as well.

use vstd::prelude::*;
use vstd::pervasive::VecAdditionalExecFns;

verus! {

/// An opaque reference to a registry entry.
#[derive(Clone, Copy, PartialEq, Eq, Structural, Debug)]
pub struct Handle {
    /// The arena index of the entry's slot.
    pub index: usize,
    /// The slot's generation at the time the entry was created.
    pub generation: u64,
}

/// What a slot currently holds.
pub enum SlotState<T> {
    /// Nothing; the slot can be reused by a later creation.
    Vacant,
    /// A live value.
    Occupied(T),
    /// The value is checked out for an in-flight call.
    Borrowed,
}

/// One arena slot: its current generation and its contents.
pub struct Slot<T> {
    /// Moves forward each time the slot is vacated or reused.
    pub generation: u64,
    /// The slot's contents.
    pub state: SlotState<T>,
}

/// An arena of slots addressed by generation-checked handles.
pub struct Registry<T> {
    /// The arena. Slots are appended and reused, never removed.
    pub slots: Vec<Slot<T>>,
}

impl<T> Registry<T> {
    /// The number of slots ever allocated.
    pub open spec fn slot_count(&self) -> nat {
        self.slots@.len()
    }

    /// The current generation of slot `i`.
    pub open spec fn gen_of(&self, i: int) -> u64 {
        self.slots@[i].generation
    }

    /// The handle refers to a live value: its slot exists, the generations
    /// match, and the slot is occupied.
    pub open spec fn is_live(&self, h: Handle) -> bool {
        &&& h.index < self.slots@.len()
        &&& self.slots@[h.index as int].generation == h.generation
        &&& self.slots@[h.index as int].state is Occupied
    }

    /// The handle's value is checked out for an in-flight call.
    pub open spec fn is_borrowed(&self, h: Handle) -> bool {
        &&& h.index < self.slots@.len()
        &&& self.slots@[h.index as int].generation == h.generation
        &&& self.slots@[h.index as int].state is Borrowed
    }

    /// The value a live handle refers to.
    pub open spec fn value_of(&self, h: Handle) -> T
        recommends
            self.is_live(h),
    {
        self.slots@[h.index as int].state->Occupied_0
    }

    /// Every non-vacant slot has room to move its generation forward, so
    /// vacating a slot always outdates the handles that pointed at it.
    pub open spec fn wf(&self) -> bool {
        forall|i: int|
            0 <= i < self.slots@.len() && !((#[trigger] self.slots@[i]).state is Vacant)
                ==> self.slots@[i].generation < u64::MAX
    }

    /// An empty registry.
    pub fn new() -> (r: Self)
        ensures
            r.wf(),
            r.slot_count() == 0,
            forall|h: Handle| !(#[trigger] r.is_live(h)) && !r.is_borrowed(h),
    {
        Registry { slots: Vec::new() }
    }

    /// Registers a value and returns a handle to it. The handle is fresh:
    /// it matches no slot of the registry as it was before the call, so no
    /// earlier handle can alias it.
    pub fn create(&mut self, value: T) -> (h: Handle)
        requires
            old(self).wf(),
        ensures
            final(self).wf(),
            final(self).is_live(h),
            final(self).value_of(h) == value,
            !old(self).is_live(h),
            !old(self).is_borrowed(h),
            h.index < old(self).slot_count() ==> h.generation > old(self).gen_of(h.index as int),
            h.index >= old(self).slot_count() ==> h.index == old(self).slot_count(),
            forall|h2: Handle| h2 != h ==> ((#[trigger] final(self).is_live(h2)) <==> old(
                self,
            ).is_live(h2)),
            forall|h2: Handle| h2 != h ==> ((#[trigger] final(self).is_borrowed(h2)) <==> old(
                self,
            ).is_borrowed(h2)),
            forall|h2: Handle|
                h2 != h && old(self).is_live(h2) ==> #[trigger] final(self).value_of(h2) == old(
                    self,
                ).value_of(h2),
            forall|i: int|
                0 <= i < old(self).slot_count() ==> #[trigger] final(self).gen_of(i) >= old(
                    self,
                ).gen_of(i),
            final(self).slot_count() >= old(self).slot_count(),
    {
        let n = self.slots.len();
        let mut idx: usize = n;
        let mut i: usize = 0;
        while i < n
            invariant
                i <= n,
                n == self.slots@.len(),
                self.slots@ == old(self).slots@,
                idx == n || (idx < n && self.slots@[idx as int].state is Vacant
                    && self.slots@[idx as int].generation < u64::MAX - 1),
            decreases n - i,
        {
            if idx == n {
                let s = &self.slots[i];
                let vacant = match &s.state {
                    SlotState::Vacant => true,
                    _ => false,
                };
                if vacant && s.generation < u64::MAX - 1 {
                    idx = i;
                }
            }
            i += 1;
        }
        if idx < n {
            let g = self.slots[idx].generation;
            let h = Handle { index: idx, generation: g + 1 };
            self.slots.set(
                idx,
                Slot { generation: g + 1, state: SlotState::Occupied(value) },
            );
            h
        } else {
            let h = Handle { index: n, generation: 0 };
            self.slots.push(Slot { generation: 0, state: SlotState::Occupied(value) });
            h
        }
    }

    /// Looks a handle up, validating it against the slot's generation.
    pub fn get(&self, h: Handle) -> (r: Option<&T>)
        ensures
            r is Some <==> self.is_live(h),
            r matches Some(v) ==> *v == self.value_of(h),
    {
        if h.index < self.slots.len() {
            let s = &self.slots[h.index];
            if s.generation == h.generation {
                match &s.state {
                    SlotState::Occupied(v) => Some(v),
                    _ => None,
                }
            } else {
                None
            }
        } else {
            None
        }
    }

    /// Whether the handle refers to a live value.
    pub fn contains(&self, h: Handle) -> (r: bool)
        ensures
            r <==> self.is_live(h),
    {
        self.get(h).is_some()
    }

    /// Checks the handle's value out for a call. The slot stays reserved
    /// (borrowed) until [`Registry::restore`] puts the value back, so the
    /// handle cannot be destroyed or taken again while the call runs. An
    /// invalid or already-borrowed handle yields `None` and changes
    /// nothing.
    pub fn take(&mut self, h: Handle) -> (r: Option<T>)
        requires
            old(self).wf(),
        ensures
            final(self).wf(),
            r is Some <==> old(self).is_live(h),
            r matches Some(v) ==> v == old(self).value_of(h) && final(self).is_borrowed(h)
                && !final(self).is_live(h),
            !old(self).is_live(h) ==> final(self).slots@ == old(self).slots@,
            forall|h2: Handle| h2 != h ==> ((#[trigger] final(self).is_live(h2)) <==> old(
                self,
            ).is_live(h2)),
            forall|h2: Handle| h2 != h ==> ((#[trigger] final(self).is_borrowed(h2)) <==> old(
                self,
            ).is_borrowed(h2)),
            forall|h2: Handle|
                h2 != h && old(self).is_live(h2) ==> #[trigger] final(self).value_of(h2) == old(
                    self,
                ).value_of(h2),
            final(self).slot_count() == old(self).slot_count(),
            forall|i: int|
                0 <= i < old(self).slot_count() ==> #[trigger] final(self).gen_of(i) == old(
                    self,
                ).gen_of(i),
    {
        if h.index >= self.slots.len() {
            return None;
        }
        let live = {
            let s = &self.slots[h.index];
            let occupied = match &s.state {
                SlotState::Occupied(_) => true,
                _ => false,
            };
            s.generation == h.generation && occupied
        };
        if !live {
            return None;
        }
        let mut slot = Slot { generation: h.generation, state: SlotState::Borrowed };
        self.slots.set_and_swap(h.index, &mut slot);
        match slot.state {
            SlotState::Occupied(v) => Some(v),
            _ => {
                proof {
                    assert(false);
                }
                None
            },
        }
    }

    /// Puts a checked-out value back into its slot, making the handle live
    /// again. If the handle is not currently borrowed the value is handed
    /// back to the caller and nothing changes.
    pub fn restore(&mut self, h: Handle, value: T) -> (r: Result<(), T>)
        requires
            old(self).wf(),
        ensures
            final(self).wf(),
            r is Ok <==> old(self).is_borrowed(h),
            r is Ok ==> final(self).is_live(h) && final(self).value_of(h) == value,
            r matches Err(v) ==> v == value && final(self).slots@ == old(self).slots@,
            forall|h2: Handle| h2 != h ==> ((#[trigger] final(self).is_live(h2)) <==> old(
                self,
            ).is_live(h2)),
            forall|h2: Handle| h2 != h ==> ((#[trigger] final(self).is_borrowed(h2)) <==> old(
                self,
            ).is_borrowed(h2)),
            forall|h2: Handle|
                h2 != h && old(self).is_live(h2) ==> #[trigger] final(self).value_of(h2) == old(
                    self,
                ).value_of(h2),
            final(self).slot_count() == old(self).slot_count(),
            forall|i: int|
                0 <= i < old(self).slot_count() ==> #[trigger] final(self).gen_of(i) == old(
                    self,
                ).gen_of(i),
    {
        if h.index >= self.slots.len() {
            return Err(value);
        }
        let borrowed = {
            let s = &self.slots[h.index];
            let is_b = match &s.state {
                SlotState::Borrowed => true,
                _ => false,
            };
            s.generation == h.generation && is_b
        };
        if !borrowed {
            return Err(value);
        }
        self.slots.set(h.index, Slot { generation: h.generation, state: SlotState::Occupied(value) });
        Ok(())
    }

    /// Destroys a live handle's value and vacates its slot, moving the
    /// slot's generation forward so the handle can never match again.
    /// Destroying an invalid, already-destroyed or borrowed handle is a
    /// detected no-op, not undefined behaviour.
    pub fn destroy(&mut self, h: Handle) -> (was_live: bool)
        requires
            old(self).wf(),
        ensures
            final(self).wf(),
            was_live <==> old(self).is_live(h),
            !final(self).is_live(h),
            old(self).is_live(h) ==> final(self).gen_of(h.index as int) == h.generation + 1
                && final(self).slots@[h.index as int].state is Vacant,
            !old(self).is_live(h) ==> final(self).slots@ == old(self).slots@,
            forall|h2: Handle| h2 != h ==> ((#[trigger] final(self).is_live(h2)) <==> old(
                self,
            ).is_live(h2)),
            forall|h2: Handle| h2 != h ==> ((#[trigger] final(self).is_borrowed(h2)) <==> old(
                self,
            ).is_borrowed(h2)),
            forall|h2: Handle|
                h2 != h && old(self).is_live(h2) ==> #[trigger] final(self).value_of(h2) == old(
                    self,
                ).value_of(h2),
            final(self).slot_count() == old(self).slot_count(),
            forall|i: int|
                0 <= i < old(self).slot_count() ==> #[trigger] final(self).gen_of(i) >= old(
                    self,
                ).gen_of(i),
    {
        if h.index >= self.slots.len() {
            return false;
        }
        let live = {
            let s = &self.slots[h.index];
            let occupied = match &s.state {
                SlotState::Occupied(_) => true,
                _ => false,
            };
            s.generation == h.generation && occupied
        };
        if !live {
            return false;
        }
        self.slots.set(h.index, Slot { generation: h.generation + 1, state: SlotState::Vacant });
        true
    }
}

} // verus!
