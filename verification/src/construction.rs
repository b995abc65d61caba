//! The construction protocol: resolving the prototype a `new`-constructed
//! instance must receive from the active constructor (the `new`-target),
//! falling back to a registry default, and the display-string coercion that
//! instance construction applies to its message argument.

use vstd::prelude::*;
use crate::object::{ObjectDisplay, ObjectHeap, PropertySlot, has_own, own_index, own_prop};
use crate::registry::{IntrinsicKind, Realm};
use crate::value::{JsValue, ObjRef, decimal_int, to_decimal_string};

verus! {

/// What prototype resolution yields for `nt` against the fallback
/// prototype `fallback`: the object read off `nt`'s "prototype" property
/// when `nt` is a constructable object and that property holds an object;
/// the raised value when reading that property raises; `fallback` in every
/// other case.
pub open spec fn resolve_prototype_spec(realm: Realm, nt: JsValue, fallback: ObjRef) -> Result<
    ObjRef,
    JsValue,
> {
    match nt {
        JsValue::Object(t) => if realm.heap.has(t as int) && realm.heap.obj(
            t as int,
        ).constructable {
            match realm.heap.lookup(t as int, "prototype"@) {
                Some(p) => match p.slot {
                    PropertySlot::Data(JsValue::Object(q)) => Ok(q),
                    PropertySlot::Data(_) => Ok(fallback),
                    PropertySlot::ThrowingGetter(e) => Err(e),
                },
                None => Ok(fallback),
            }
        } else {
            Ok(fallback)
        },
        _ => Ok(fallback),
    }
}

/// A property found by chain lookup on a well-formed heap has a valid data
/// slot.
pub proof fn lemma_lookup_slot_ok(h: ObjectHeap, r: int, key: Seq<char>)
    requires
        h.wf(),
    ensures
        h.lookup(r, key) matches Some(p) ==> h.slot_value_ok(p.slot),
    decreases r,
{
    if h.has(r) {
        let s = h.obj(r).props@;
        if has_own(s, key) {
            assert(h.obj_wf(r));
            let w = own_index(s, key);
            assert(0 <= w < s.len() && s[w].key@ == key);
            assert(h.slot_value_ok(s[w].slot));
            assert(own_prop(s, key) == s[w]);
        } else {
            match h.obj(r).proto {
                Some(p) => {
                    if (p as int) < r {
                        lemma_lookup_slot_ok(h, p as int, key);
                    }
                },
                None => {},
            }
        }
    }
}

/// Resolves the prototype for an instance constructed with `new_target` as
/// the active constructor, falling back to the default intrinsic's
/// prototype for `default_kind`. A script-level failure raised by the
/// `new`-target's "prototype" accessor propagates verbatim.
pub fn get_prototype_from_constructor(
    realm: &Realm,
    new_target: &JsValue,
    default_kind: IntrinsicKind,
) -> (res: Result<ObjRef, JsValue>)
    requires
        realm.wf(),
        realm.registry.built(default_kind),
        realm.heap.value_ok(*new_target),
    ensures
        res == resolve_prototype_spec(
            *realm,
            *new_target,
            realm.registry.entry_of(default_kind).prototype,
        ),
        res matches Ok(p) ==> p < realm.heap.spec_len(),
{
    let fallback = realm.standard_entry(default_kind).prototype;
    proof {
        assert(realm.registry.slot(default_kind) is Some);
    }
    match new_target {
        JsValue::Object(t) => {
            if realm.heap.objects[*t].constructable {
                let key = String::from_str("prototype");
                proof {
                    lemma_lookup_slot_ok(realm.heap, *t as int, "prototype"@);
                }
                match realm.heap.lookup_property(*t, &key) {
                    Some(p) => match p.slot {
                        PropertySlot::Data(JsValue::Object(q)) => Ok(q),
                        PropertySlot::Data(_) => Ok(fallback),
                        PropertySlot::ThrowingGetter(e) => Err(e),
                    },
                    None => Ok(fallback),
                }
            } else {
                Ok(fallback)
            }
        },
        _ => Ok(fallback),
    }
}

/// The display-string form of `v`: the fixed forms of the immediate values,
/// an object's carried display outcome for objects. `Err` carries the value
/// raised by a failing coercion.
pub open spec fn display_of(heap: ObjectHeap, v: JsValue) -> Result<Seq<char>, JsValue> {
    match v {
        JsValue::Undefined => Ok("undefined"@),
        JsValue::Bool(b) => Ok(if b {
            "true"@
        } else {
            "false"@
        }),
        JsValue::Int(i) => Ok(decimal_int(i as int)),
        JsValue::Str(s) => Ok(s@),
        JsValue::Object(r) => match heap.obj(r as int).display {
            ObjectDisplay::Converts(s) => Ok(s@),
            ObjectDisplay::Raises(e) => Err(e),
        },
    }
}

/// Coerces `v` to its display string, exactly `display_of`; a raised
/// script-level failure propagates verbatim.
pub fn to_display_string(heap: &ObjectHeap, v: &JsValue) -> (res: Result<String, JsValue>)
    requires
        heap.wf(),
        heap.value_ok(*v),
    ensures
        ({
            let d = display_of(*heap, *v);
            match res {
                Ok(s) => d matches Ok(t) && s@ == t,
                Err(e) => d matches Err(t) && e == t,
            }
        }),
{
    match v {
        JsValue::Undefined => Ok(String::from_str("undefined")),
        JsValue::Bool(b) => Ok(
            String::from_str(
                if *b {
                    "true"
                } else {
                    "false"
                },
            ),
        ),
        JsValue::Int(i) => Ok(to_decimal_string(*i)),
        JsValue::Str(s) => Ok(s.clone()),
        JsValue::Object(r) => match &heap.objects[*r].display {
            ObjectDisplay::Converts(s) => Ok(s.clone()),
            ObjectDisplay::Raises(e) => Err(e.clone()),
        },
    }
}

} // verus!
