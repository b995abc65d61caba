//! The standard objects registry and the realm. The registry maps each
//! intrinsic kind to its canonical `{prototype, constructor}` pair, created
//! exactly once per realm; the realm owns the registry together with the
//! object heap and the global object.

use vstd::prelude::*;
use crate::object::{ObjectHeap, ObjectRecord};
use crate::value::ObjRef;

verus! {

/// The intrinsic kinds this realm knows: the root object intrinsic, the base
/// error intrinsic, and the one error subtype.
#[derive(Clone, Copy, Debug, PartialEq, Eq, Structural)]
pub enum IntrinsicKind {
    BaseObject,
    Error,
    ReferenceError,
}

/// The canonical pair of one intrinsic kind.
#[derive(Clone, Copy, Debug, PartialEq, Eq, Structural)]
pub struct IntrinsicEntry {
    pub prototype: ObjRef,
    pub constructor: ObjRef,
}

/// A registry slot: the entry, and whether the constructor builder has
/// already linked it (building the same entry twice is a fatal programmer
/// error, so the flag is consulted by the builder's precondition).
#[derive(Clone, Copy, Debug, PartialEq, Eq, Structural)]
pub struct RegisteredIntrinsic {
    pub entry: IntrinsicEntry,
    pub built: bool,
}

/// The per-realm table of intrinsic entries, one slot per kind.
#[derive(Debug)]
pub struct Registry {
    pub base_object: Option<RegisteredIntrinsic>,
    pub error: Option<RegisteredIntrinsic>,
    pub reference_error: Option<RegisteredIntrinsic>,
}

impl Registry {
    /// The slot of kind `k`.
    pub open spec fn slot(self, k: IntrinsicKind) -> Option<RegisteredIntrinsic> {
        match k {
            IntrinsicKind::BaseObject => self.base_object,
            IntrinsicKind::Error => self.error,
            IntrinsicKind::ReferenceError => self.reference_error,
        }
    }

    /// An entry for `k` exists.
    pub open spec fn registered(self, k: IntrinsicKind) -> bool {
        self.slot(k) is Some
    }

    /// The entry of `k` (meaningful when registered).
    pub open spec fn entry_of(self, k: IntrinsicKind) -> IntrinsicEntry {
        self.slot(k)->0.entry
    }

    /// The intrinsic of kind `k` has been fully built.
    pub open spec fn built(self, k: IntrinsicKind) -> bool {
        self.registered(k) && self.slot(k)->0.built
    }
}

/// A realm: an isolated execution environment owning its object heap, its
/// standard objects registry, and its global object.
#[derive(Debug)]
pub struct Realm {
    pub heap: ObjectHeap,
    pub registry: Registry,
    pub global: ObjRef,
}

impl Realm {
    /// The registered pair refers to two distinct allocated objects.
    pub open spec fn entry_ok(self, ri: RegisteredIntrinsic) -> bool {
        &&& ri.entry.prototype < self.heap.spec_len()
        &&& ri.entry.constructor < self.heap.spec_len()
        &&& ri.entry.prototype != ri.entry.constructor
    }

    /// Realm well-formedness: the heap is well-formed, the global object is
    /// allocated, and every registered entry is valid.
    pub open spec fn wf(self) -> bool {
        &&& self.heap.wf()
        &&& self.global < self.heap.spec_len()
        &&& forall|k: IntrinsicKind|
            #[trigger] self.registry.slot(k) matches Some(ri) ==> self.entry_ok(ri)
    }

    /// A fresh realm: an empty registry and a heap holding only the plain
    /// global object.
    pub fn new() -> (r: Self)
        ensures
            r.wf(),
            r.heap.spec_len() == 1,
            r.global == 0,
            r.heap.obj(0).is_plain(),
            forall|k: IntrinsicKind| #[trigger] r.registry.slot(k) is None,
    {
        let mut heap = ObjectHeap::new();
        let global = heap.allocate(ObjectRecord::plain());
        Realm {
            heap,
            registry: Registry { base_object: None, error: None, reference_error: None },
            global,
        }
    }

    /// The canonical entry for `k`, created on first use: two fresh plain
    /// objects are allocated and recorded, unbuilt. A later call returns the
    /// recorded entry unchanged — the kind-to-entry mapping is fixed once
    /// created.
    pub fn get_or_init(&mut self, k: IntrinsicKind) -> (e: IntrinsicEntry)
        requires
            old(self).wf(),
        ensures
            final(self).wf(),
            final(self).registry.registered(k),
            final(self).registry.entry_of(k) == e,
            old(self).registry.slot(k) is Some ==> *final(self) == *old(self) && e == old(
                self,
            ).registry.entry_of(k),
            old(self).registry.slot(k) is None ==> {
                &&& e.prototype == old(self).heap.spec_len()
                &&& e.constructor == old(self).heap.spec_len() + 1
                &&& final(self).heap.spec_len() == old(self).heap.spec_len() + 2
                &&& forall|i: int|
                    0 <= i < old(self).heap.spec_len() ==> final(self).heap.obj(i) == old(
                        self,
                    ).heap.obj(i)
                &&& final(self).heap.obj(e.prototype as int).is_plain()
                &&& final(self).heap.obj(e.constructor as int).is_plain()
                &&& final(self).registry.slot(k) == Some(
                    RegisteredIntrinsic { entry: e, built: false },
                )
                &&& forall|k2: IntrinsicKind|
                    k2 != k ==> #[trigger] final(self).registry.slot(k2) == old(
                        self,
                    ).registry.slot(k2)
                &&& final(self).global == old(self).global
            },
    {
        let existing = match k {
            IntrinsicKind::BaseObject => self.registry.base_object,
            IntrinsicKind::Error => self.registry.error,
            IntrinsicKind::ReferenceError => self.registry.reference_error,
        };
        match existing {
            Some(ri) => ri.entry,
            None => {
                let prototype = self.heap.allocate(ObjectRecord::plain());
                let constructor = self.heap.allocate(ObjectRecord::plain());
                let e = IntrinsicEntry { prototype, constructor };
                let ri = Some(RegisteredIntrinsic { entry: e, built: false });
                match k {
                    IntrinsicKind::BaseObject => self.registry.base_object = ri,
                    IntrinsicKind::Error => self.registry.error = ri,
                    IntrinsicKind::ReferenceError => self.registry.reference_error = ri,
                }
                proof {
                    assert forall|k2: IntrinsicKind|
                        #[trigger] self.registry.slot(k2) is Some implies self.entry_ok(
                        self.registry.slot(k2)->0,
                    ) by {
                        if k2 != k {
                            assert(self.registry.slot(k2) == old(self).registry.slot(k2));
                            assert(old(self).registry.slot(k2) matches Some(ri3)
                                ==> old(self).entry_ok(ri3));
                        }
                    }
                }
                e
            },
        }
    }

    /// The canonical entry for `k` once its `init` ran. Querying an
    /// intrinsic whose `init` has not run is a bootstrap ordering bug — a
    /// host invariant violation, not a script condition — and is excluded
    /// outright.
    pub fn standard_entry(&self, k: IntrinsicKind) -> (e: IntrinsicEntry)
        requires
            self.wf(),
            self.registry.built(k),
        ensures
            e == self.registry.entry_of(k),
    {
        let slot = match k {
            IntrinsicKind::BaseObject => self.registry.base_object,
            IntrinsicKind::Error => self.registry.error,
            IntrinsicKind::ReferenceError => self.registry.reference_error,
        };
        slot.unwrap().entry
    }

    /// Records that the constructor builder has linked the entry of `k`.
    pub fn mark_built(&mut self, k: IntrinsicKind)
        requires
            old(self).wf(),
            old(self).registry.registered(k),
        ensures
            final(self).wf(),
            final(self).heap == old(self).heap,
            final(self).global == old(self).global,
            final(self).registry.slot(k) == Some(
                RegisteredIntrinsic { entry: old(self).registry.entry_of(k), built: true },
            ),
            forall|k2: IntrinsicKind|
                k2 != k ==> #[trigger] final(self).registry.slot(k2) == old(self).registry.slot(
                    k2,
                ),
    {
        let updated = match k {
            IntrinsicKind::BaseObject => self.registry.base_object,
            IntrinsicKind::Error => self.registry.error,
            IntrinsicKind::ReferenceError => self.registry.reference_error,
        };
        let ri = Some(RegisteredIntrinsic { entry: updated.unwrap().entry, built: true });
        match k {
            IntrinsicKind::BaseObject => self.registry.base_object = ri,
            IntrinsicKind::Error => self.registry.error = ri,
            IntrinsicKind::ReferenceError => self.registry.reference_error = ri,
        }
        proof {
            assert forall|k2: IntrinsicKind|
                #[trigger] self.registry.slot(k2) is Some implies self.entry_ok(
                self.registry.slot(k2)->0,
            ) by {
                if k2 != k {
                    assert(self.registry.slot(k2) == old(self).registry.slot(k2));
                }
                assert(old(self).registry.slot(k2) matches Some(ri3) ==> old(self).entry_ok(
                    ri3,
                ));
            }
        }
    }
}

} // verus!
