//! Registration orchestration and trampoline dispatch.

use vstd::prelude::*;

use crate::listener::UListener;
use crate::registry::ListenerRegistry;
use crate::slots::SlotAllocator;
use crate::status::UStatus;

verus! {

/// The abstract state of a transport.
pub struct TransportModel<L> {
    /// Slot identifier to listener, for every bound slot.
    pub bindings: Map<u32, L>,
    /// How many slot identifiers have been issued.
    pub issued: nat,
    /// How many listeners can ever be registered.
    pub capacity: nat,
    /// How many entry points exist; entry point `i` is hard-wired to slot `i`.
    pub trampolines: nat,
}

/// Accepts listeners and binds each to a slot whose entry point the caller
/// then hands to the native side.
pub trait UTransport<L>: Sized {
    spec fn inv(&self) -> bool;

    spec fn model(&self) -> TransportModel<L>;

    /// Registers `listener` and returns the slot (also the index of the entry
    /// point) it is bound to.
    fn register_listener(&mut self, listener: L) -> (r: Result<u32, UStatus>)
        requires
            old(self).inv(),
        ensures
            final(self).inv(),
            registration(old(self).model(), listener, r, final(self).model()),
    ;
}

/// One registration step from `pre` to `post`: the next identifier is issued
/// while capacity remains; it is bound to `listener` when an entry point
/// exists for it; otherwise nothing is bound and the error says why.
pub open spec fn registration<L>(
    pre: TransportModel<L>,
    listener: L,
    r: Result<u32, UStatus>,
    post: TransportModel<L>,
) -> bool {
    &&& post.capacity == pre.capacity
    &&& post.trampolines == pre.trampolines
    &&& if pre.issued >= pre.capacity {
        &&& r == Err::<u32, UStatus>(UStatus::CapacityExceeded)
        &&& post.issued == pre.issued
        &&& post.bindings == pre.bindings
    } else {
        let id = pre.issued + 1;
        &&& post.issued == id
        &&& if id < pre.trampolines {
            &&& r == Ok::<u32, UStatus>(id as u32)
            &&& post.bindings == pre.bindings.insert(id as u32, listener)
        } else {
            &&& r == Err::<u32, UStatus>(UStatus::InvalidSlot)
            &&& post.bindings == pre.bindings
        }
    }
}

/// A model is valid when every bound slot has been issued, has an entry
/// point, no more identifiers were issued than the capacity allows, and the
/// counts fit the machine types they come from.
pub open spec fn model_wf<L>(m: TransportModel<L>) -> bool {
    &&& m.issued <= m.capacity <= u32::MAX
    &&& m.trampolines <= u32::MAX
    &&& forall|k: u32| #[trigger]
        m.bindings.contains_key(k) ==> 1 <= k <= m.issued && k < m.trampolines
}

/// What firing the entry point of `slot` with `payload` yields: the report of
/// the listener bound there, or nothing when the slot is unbound.
pub open spec fn delivered<L: UListener>(bindings: Map<u32, L>, slot: u32, payload: u32) -> Option<
    int,
> {
    if bindings.contains_key(slot) {
        Some(bindings[slot].reported(payload))
    } else {
        None
    }
}

/// The transport: owns the allocator and the registry.
pub struct MyTransport<L> {
    allocator: SlotAllocator,
    registry: ListenerRegistry<L>,
    trampolines: u32,
}

impl<L> MyTransport<L> {
    /// A transport for at most `capacity` listeners, with entry points for
    /// slots `0 .. trampolines`.
    pub fn new(capacity: u32, trampolines: u32) -> (r: Self)
        ensures
            r.inv(),
            r.model() == (TransportModel::<L> {
                bindings: Map::empty(),
                issued: 0,
                capacity: capacity as nat,
                trampolines: trampolines as nat,
            }),
    {
        MyTransport {
            allocator: SlotAllocator::new(capacity),
            registry: ListenerRegistry::new(),
            trampolines,
        }
    }

    /// A transport's model is valid whenever its invariant holds.
    pub proof fn lemma_model_wf(&self)
        requires
            self.inv(),
        ensures
            model_wf(self.model()),
    {
        self.allocator.lemma_bounds();
    }

    /// The listener bound to `slot`, or `None`: what an entry point looks up.
    pub fn resolve(&self, slot: u32) -> (r: Option<&L>)
        ensures
            match r {
                Some(l) => self.model().bindings.contains_key(slot) && *l == self.model().bindings[slot],
                None => !self.model().bindings.contains_key(slot),
            },
    {
        self.registry.resolve(slot)
    }

    /// Fires the entry point of `slot` with `payload`: the bound listener's
    /// report, or `None` (a no-op) when the slot is unbound.
    pub fn dispatch(&self, slot: u32, payload: u32) -> (r: Option<u64>)
        where
            L: UListener,
        ensures
            match r {
                Some(v) => delivered(self.model().bindings, slot, payload) == Some(v as int),
                None => delivered(self.model().bindings, slot, payload) == None::<int>,
            },
    {
        match self.registry.resolve(slot) {
            Some(l) => Some(l.on_msg(payload)),
            None => None,
        }
    }
}

impl<L> UTransport<L> for MyTransport<L> {
    closed spec fn inv(&self) -> bool {
        &&& self.allocator.wf()
        &&& forall|k: u32| #[trigger]
            self.registry@.contains_key(k) ==> 1 <= k <= self.allocator.issued() && k
                < self.trampolines
    }

    closed spec fn model(&self) -> TransportModel<L> {
        TransportModel {
            bindings: self.registry@,
            issued: self.allocator.issued(),
            capacity: self.allocator.capacity(),
            trampolines: self.trampolines as nat,
        }
    }

    fn register_listener(&mut self, listener: L) -> (r: Result<u32, UStatus>) {
        let id = match self.allocator.next_id() {
            Ok(id) => id,
            Err(e) => {
                return Err(e);
            },
        };
        if id >= self.trampolines {
            return Err(UStatus::InvalidSlot);
        }
        self.registry.insert(id, listener);
        Ok(id)
    }
}

} // verus!
