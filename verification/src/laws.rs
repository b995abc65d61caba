//! The framework-wide laws: what holds of every registered intrinsic after
//! bootstrap, and of every instance construction, stated over the spec
//! functions the public contracts use and proved from them.

use vstd::prelude::*;
use crate::construction::resolve_prototype_spec;
use crate::intrinsics::{bootstrapped, construction_post, construction_success};
use crate::object::{ObjectHeap, Property, PropertySlot, has_own, own_index, own_prop};
use crate::registry::{IntrinsicKind, Realm};
use crate::value::{JsValue, ObjRef};

verus! {

/// On a well-formed heap, a unique-keyed record's own property of key `key`
/// is the one at any matching index.
proof fn lemma_own_prop_at(s: Seq<Property>, key: Seq<char>, i: int)
    requires
        forall|x: int, y: int| 0 <= x < y < s.len() ==> s[x].key@ != s[y].key@,
        0 <= i < s.len(),
        s[i].key@ == key,
    ensures
        has_own(s, key),
        own_prop(s, key) == s[i],
{
    assert(has_own(s, key));
    let w = own_index(s, key);
    assert(0 <= w < s.len() && s[w].key@ == key);
    if w != i {
        assert(s[w].key@ != s[i].key@);
    }
}

/// Every prototype chain of a well-formed heap is preserved when the heap
/// only grows: the records below the old length are untouched.
pub proof fn lemma_chain_preserved(h0: ObjectHeap, h1: ObjectHeap, r: int, z: int)
    requires
        h0.wf(),
        0 <= r < h0.spec_len(),
        h1.spec_len() >= h0.spec_len(),
        forall|i: int| 0 <= i < h0.spec_len() ==> h1.obj(i) == h0.obj(i),
        h0.in_proto_chain(r, z),
    ensures
        h1.in_proto_chain(r, z),
    decreases r,
{
    assert(h0.obj_wf(r));
    match h0.obj(r).proto {
        Some(p) => {
            if p != z {
                lemma_chain_preserved(h0, h1, p as int, z);
            }
        },
        None => {},
    }
}

/// For every registered intrinsic kind of a bootstrapped realm: the
/// prototype's own "constructor" property refers back to the constructor,
/// the constructor's own "prototype" property refers to the prototype, and
/// property lookup finds both without consulting any parent.
pub proof fn lemma_intrinsic_linkage(realm: Realm, k: IntrinsicKind)
    requires
        realm.wf(),
        bootstrapped(realm),
    ensures
        ({
            let entry = realm.registry.entry_of(k);
            &&& realm.registry.built(k)
            &&& realm.heap.lookup(entry.prototype as int, "constructor"@) matches Some(p)
                && p.slot == PropertySlot::Data(JsValue::Object(entry.constructor))
            &&& realm.heap.lookup(entry.constructor as int, "prototype"@) matches Some(p)
                && p.slot == PropertySlot::Data(JsValue::Object(entry.prototype))
        }),
{
    let entry = realm.registry.entry_of(k);
    assert(realm.registry.slot(k) is Some);
    let po = realm.heap.obj(entry.prototype as int).props@;
    let co = realm.heap.obj(entry.constructor as int).props@;
    assert(realm.heap.obj_wf(entry.prototype as int));
    assert(realm.heap.obj_wf(entry.constructor as int));
    lemma_own_prop_at(po, "constructor"@, 0);
    match k {
        IntrinsicKind::BaseObject => {
            lemma_own_prop_at(co, "prototype"@, 2);
        },
        IntrinsicKind::Error => {
            lemma_own_prop_at(co, "prototype"@, 2);
        },
        IntrinsicKind::ReferenceError => {
            lemma_own_prop_at(co, "prototype"@, 2);
        },
    }
}

/// The prototype chain of a bootstrapped realm: the error subtype's
/// prototype links to the base error prototype, that to the root object
/// prototype, and the root ends every chain — finite, with no cycles, and
/// nothing above the root.
pub proof fn lemma_prototype_chain(realm: Realm)
    requires
        realm.wf(),
        bootstrapped(realm),
    ensures
        ({
            let op = realm.registry.entry_of(IntrinsicKind::BaseObject).prototype;
            let ep = realm.registry.entry_of(IntrinsicKind::Error).prototype;
            let rp = realm.registry.entry_of(IntrinsicKind::ReferenceError).prototype;
            &&& realm.heap.obj(rp as int).proto == Some(ep)
            &&& realm.heap.obj(ep as int).proto == Some(op)
            &&& realm.heap.obj(op as int).proto is None
            &&& realm.heap.in_proto_chain(rp as int, ep as int)
            &&& realm.heap.in_proto_chain(rp as int, op as int)
            &&& forall|z: int| !realm.heap.in_proto_chain(op as int, z)
        }),
{
    let op = realm.registry.entry_of(IntrinsicKind::BaseObject).prototype;
    let ep = realm.registry.entry_of(IntrinsicKind::Error).prototype;
    let rp = realm.registry.entry_of(IntrinsicKind::ReferenceError).prototype;
    assert(realm.registry.slot(IntrinsicKind::BaseObject) is Some);
    assert(realm.registry.slot(IntrinsicKind::Error) is Some);
    assert(realm.registry.slot(IntrinsicKind::ReferenceError) is Some);
    assert(realm.heap.obj_wf(rp as int));
    assert(realm.heap.obj_wf(ep as int));
    assert(realm.heap.in_proto_chain(ep as int, op as int));
}

/// An explicit `undefined` first argument constructs exactly what an absent
/// one does: the same result value, the same realm growth, and an instance
/// that agrees in prototype, tag, constructability, and (absent) own
/// properties.
pub proof fn lemma_undefined_message_like_absent(
    r0: Realm,
    r1: Realm,
    r2: Realm,
    res1: Result<JsValue, JsValue>,
    res2: Result<JsValue, JsValue>,
    nt: JsValue,
    fallback: ObjRef,
)
    requires
        construction_post(r0, r1, res1, nt, seq![JsValue::Undefined], fallback),
        construction_post(r0, r2, res2, nt, seq![], fallback),
    ensures
        res1 == res2,
        r1.heap.spec_len() == r2.heap.spec_len(),
        forall|i: int| 0 <= i < r0.heap.spec_len() ==> r1.heap.obj(i) == r2.heap.obj(i),
        res1 is Ok ==> ({
            let n = r0.heap.spec_len() as int;
            &&& r1.heap.obj(n).proto == r2.heap.obj(n).proto
            &&& r1.heap.obj(n).tag == r2.heap.obj(n).tag
            &&& r1.heap.obj(n).constructable == r2.heap.obj(n).constructable
            &&& r1.heap.obj(n).props@ == r2.heap.obj(n).props@
        }),
{
    match resolve_prototype_spec(r0, nt, fallback) {
        Err(_) => {},
        Ok(p) => {
            assert(construction_success(r0, r1, res1, p, None::<Seq<char>>));
            assert(construction_success(r0, r2, res2, p, None::<Seq<char>>));
            assert(r1.heap.obj(r0.heap.spec_len() as int).props@
                =~= r2.heap.obj(r0.heap.spec_len() as int).props@);
        },
    }
}

/// A `new`-target whose "prototype" accessor raises has that failure
/// propagated verbatim, with no partial construction: the realm after the
/// call is the realm before it.
pub proof fn lemma_throwing_prototype_accessor(
    r0: Realm,
    r1: Realm,
    res: Result<JsValue, JsValue>,
    nt: JsValue,
    args: Seq<JsValue>,
    fallback: ObjRef,
    e: JsValue,
)
    requires
        resolve_prototype_spec(r0, nt, fallback) == Err::<ObjRef, JsValue>(e),
        construction_post(r0, r1, res, nt, args, fallback),
    ensures
        res == Err::<JsValue, JsValue>(e),
        r1 == r0,
{
}

/// Constructing through a subclass: when the `new`-target's "prototype"
/// property holds an object, the instance receives exactly that prototype
/// — not the intrinsic default — while still carrying the error category
/// tag, and every ancestor of that prototype (the intrinsic's own
/// prototype among them) remains on the instance's chain.
pub proof fn lemma_subclass_instance(
    r0: Realm,
    r1: Realm,
    res: Result<JsValue, JsValue>,
    t: ObjRef,
    args: Seq<JsValue>,
    fallback: ObjRef,
    q: ObjRef,
)
    requires
        r0.wf(),
        r0.heap.has(t as int),
        r0.heap.obj(t as int).constructable,
        r0.heap.lookup(t as int, "prototype"@) matches Some(p) && p.slot == PropertySlot::Data(
            JsValue::Object(q),
        ),
        construction_post(r0, r1, res, JsValue::Object(t), args, fallback),
        res is Ok,
    ensures
        ({
            let n = r0.heap.spec_len() as int;
            &&& res == Ok::<JsValue, JsValue>(JsValue::Object(n as usize))
            &&& r1.heap.obj(n).proto == Some(q)
            &&& r1.heap.obj(n).tag is Error
            &&& r1.heap.in_proto_chain(n, q as int)
            &&& forall|z: int|
                r0.heap.in_proto_chain(q as int, z) ==> r1.heap.in_proto_chain(n, z)
        }),
{
    let n = r0.heap.spec_len() as int;
    assert(resolve_prototype_spec(r0, JsValue::Object(t), fallback) == Ok::<ObjRef, JsValue>(q));
    crate::construction::lemma_lookup_slot_ok(r0.heap, t as int, "prototype"@);
    assert(q < r0.heap.spec_len());
    assert(r1.heap.has(n));
    assert forall|z: int| r0.heap.in_proto_chain(q as int, z) implies r1.heap.in_proto_chain(
        n,
        z,
    ) by {
        lemma_chain_preserved(r0.heap, r1.heap, q as int, z);
        assert(r1.heap.obj(n).proto == Some(q));
    }
}

/// The attribute audit of an installed error-style prototype: no own
/// property is enumerable — `for`-style enumeration of own keys excludes
/// "name" and "message" — while "name" and "message" both stay writable and
/// configurable.
pub proof fn lemma_prototype_attribute_audit(realm: Realm, k: IntrinsicKind, parent: ObjRef)
    requires
        realm.wf(),
        crate::intrinsics::error_intrinsic_shape(realm, k, parent),
    ensures
        ({
            let s = realm.heap.obj(realm.registry.entry_of(k).prototype as int).props@;
            &&& forall|j: int| 0 <= j < s.len() ==> !(#[trigger] s[j].attr).enumerable
            &&& has_own(s, "name"@) && own_prop(s, "name"@).attr.writable && own_prop(
                s,
                "name"@,
            ).attr.configurable
            &&& has_own(s, "message"@) && own_prop(s, "message"@).attr.writable && own_prop(
                s,
                "message"@,
            ).attr.configurable
        }),
{
    assert(realm.registry.slot(k) is Some);
    let proto = realm.registry.entry_of(k).prototype;
    assert(realm.heap.obj_wf(proto as int));
    let s = realm.heap.obj(proto as int).props@;
    lemma_own_prop_at(s, "name"@, 1);
    lemma_own_prop_at(s, "message"@, 2);
    assert forall|j: int| 0 <= j < s.len() implies !(#[trigger] s[j].attr).enumerable by {
        assert(j == 0 || j == 1 || j == 2);
    }
}

} // verus!
