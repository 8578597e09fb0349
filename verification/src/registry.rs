//! The one slot in which the supervisor keeps the handle of its child.
//!
//! The slot is written at setup and drained at exit. Both operations take the
//! registry by exclusive reference, so whatever lock the host keeps it under
//! puts their calls in one order; the laws below hold of every such order.

use vstd::prelude::*;

verus! {

/// A slot holding at most one process handle of type `H`.
///
/// The registry never looks into a handle, copies it or compares it: it only
/// keeps it until it is taken out.
pub struct LifecycleRegistry<H> {
    slot: Option<H>,
}

/// The slot after `handle` was stored over whatever it held.
pub open spec fn stored<H>(slot: Option<H>, handle: Option<H>) -> Option<H> {
    handle
}

/// What draining hands out, and what it leaves in the slot.
pub open spec fn drained<H>(slot: Option<H>) -> (Option<H>, Option<H>) {
    (slot, None)
}

impl<H> View for LifecycleRegistry<H> {
    type V = Option<H>;

    closed spec fn view(&self) -> Option<H> {
        self.slot
    }
}

impl<H> LifecycleRegistry<H> {
    /// An empty registry.
    pub fn new() -> (registry: Self)
        ensures
            registry@ is None,
    {
        LifecycleRegistry { slot: None }
    }

    /// Puts `handle` in the slot, over whatever the slot held.
    pub fn store(&mut self, handle: Option<H>)
        ensures
            final(self)@ == stored(old(self)@, handle),
    {
        self.slot = handle;
    }

    /// Hands out what the slot holds and leaves the slot empty.
    pub fn take_and_clear(&mut self) -> (handle: Option<H>)
        ensures
            (handle, final(self)@) == drained(old(self)@),
    {
        self.slot.take()
    }

    /// Whether a handle is held.
    pub fn is_tracking(&self) -> (b: bool)
        ensures
            b == (self@ is Some),
    {
        self.slot.is_some()
    }
}

/// A call on a registry.
pub enum RegistryCall<H> {
    Store(Option<H>),
    TakeAndClear,
}

/// The slot after the calls of `calls` took effect one after the other.
pub open spec fn slot_after<H>(initial: Option<H>, calls: Seq<RegistryCall<H>>) -> Option<H>
    decreases calls.len(),
{
    if calls.len() == 0 {
        initial
    } else {
        match calls.last() {
            RegistryCall::Store(handle) => stored(slot_after(initial, calls.drop_last()), handle),
            RegistryCall::TakeAndClear => drained(slot_after(initial, calls.drop_last())).1,
        }
    }
}

/// How many of `calls` are a `take_and_clear` that hands out `handle`.
pub open spec fn times_handed_out<H>(
    initial: Option<H>,
    calls: Seq<RegistryCall<H>>,
    handle: H,
) -> nat
    decreases calls.len(),
{
    if calls.len() == 0 {
        0
    } else {
        let earlier = times_handed_out(initial, calls.drop_last(), handle);
        match calls.last() {
            RegistryCall::Store(_) => earlier,
            RegistryCall::TakeAndClear => if drained(slot_after(initial, calls.drop_last())).0
                == Some(handle) {
                earlier + 1
            } else {
                earlier
            },
        }
    }
}

/// How many of `calls` are a `store` of `handle`.
pub open spec fn times_stored<H>(calls: Seq<RegistryCall<H>>, handle: H) -> nat
    decreases calls.len(),
{
    if calls.len() == 0 {
        0
    } else {
        let earlier = times_stored(calls.drop_last(), handle);
        if calls.last() == RegistryCall::Store(Some(handle)) {
            earlier + 1
        } else {
            earlier
        }
    }
}

/// 1 if `slot` holds `handle`, else 0.
pub open spec fn holds<H>(slot: Option<H>, handle: H) -> nat {
    if slot == Some(handle) {
        1
    } else {
        0
    }
}

/// A stored handle comes out of the next `take_and_clear`, and only of that
/// one: the `take_and_clear` after it finds the slot empty.
pub proof fn lemma_store_then_take<H>(slot: Option<H>, handle: Option<H>)
    ensures
        drained(stored(slot, handle)).0 == handle,
        drained(drained(stored(slot, handle)).1).0 is None,
{
}

/// Once drained, a registry stays empty however often it is drained again.
pub proof fn lemma_drained_stays_empty<H>(slot: Option<H>, takes: Seq<RegistryCall<H>>)
    requires
        forall|i: int| 0 <= i < takes.len() ==> takes[i] is TakeAndClear,
    ensures
        slot_after(drained(slot).1, takes) is None,
    decreases takes.len(),
{
    if takes.len() > 0 {
        lemma_drained_stays_empty(slot, takes.drop_last());
    }
}

/// In whatever order the calls of several callers take effect, no handle is
/// handed out more often than it was put in: what has come out of a handle,
/// and what the slot still holds of it, never exceeds what was stored of it
/// and what the slot held of it at the start.
pub proof fn lemma_never_handed_out_twice<H>(
    initial: Option<H>,
    calls: Seq<RegistryCall<H>>,
    handle: H,
)
    ensures
        times_handed_out(initial, calls, handle) + holds(slot_after(initial, calls), handle)
            <= times_stored(calls, handle) + holds(initial, handle),
    decreases calls.len(),
{
    if calls.len() > 0 {
        lemma_never_handed_out_twice(initial, calls.drop_last(), handle);
    }
}

/// A handle that the registry did not hold at the start and that was stored
/// once is handed out at most once, whatever else is called and in whatever
/// order.
pub proof fn lemma_stored_once_taken_at_most_once<H>(
    initial: Option<H>,
    calls: Seq<RegistryCall<H>>,
    handle: H,
)
    requires
        initial != Some(handle),
        times_stored(calls, handle) == 1,
    ensures
        times_handed_out(initial, calls, handle) <= 1,
{
    lemma_never_handed_out_twice(initial, calls, handle);
}

} // verus!
