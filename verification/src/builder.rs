//! The constructor builder: a fluent assembly step that, given a name, an
//! arity, a parent prototype, and declared own properties with their
//! attributes, links a registry entry into a fully formed constructor:
//! the constructor's "prototype" property references the entry's prototype,
//! the prototype's "constructor" property references back, the prototype's
//! internal link is set to the parent, and every declared property lands
//! with exactly its declared attribute bits.

use vstd::prelude::*;
use crate::attribute::AttributeSet;
use crate::object::{Property, PropertySlot, has_own, keys_unique};
use crate::registry::{IntrinsicEntry, IntrinsicKind, Realm, RegisteredIntrinsic};
use crate::value::{JsValue, ObjRef};

verus! {

/// The attribute bits of the back-reference "constructor" property and of
/// the constructor's own "name" / "length" / "prototype" metadata.
pub open spec fn constructor_link_attr() -> AttributeSet {
    AttributeSet { writable: true, enumerable: false, configurable: true }
}

pub open spec fn metadata_attr() -> AttributeSet {
    AttributeSet { writable: false, enumerable: false, configurable: true }
}

pub open spec fn prototype_slot_attr() -> AttributeSet {
    AttributeSet { writable: false, enumerable: false, configurable: false }
}

/// The shape `build` leaves the entry of an intrinsic in: both canonical
/// objects fully linked, with exactly the declared properties and bits.
pub open spec fn linked_intrinsic(
    realm: Realm,
    entry: IntrinsicEntry,
    parent: Option<ObjRef>,
    name: Seq<char>,
    length: int,
    props: Seq<Property>,
) -> bool {
    let proto_obj = realm.heap.obj(entry.prototype as int);
    let ctor_obj = realm.heap.obj(entry.constructor as int);
    &&& proto_obj.proto == parent
    &&& proto_obj.props@.len() == 1 + props.len()
    &&& proto_obj.props@[0].key@ == "constructor"@
    &&& proto_obj.props@[0].slot == PropertySlot::Data(JsValue::Object(entry.constructor))
    &&& proto_obj.props@[0].attr == constructor_link_attr()
    &&& proto_obj.props@.skip(1) == props
    &&& proto_obj.tag is Ordinary
    &&& !proto_obj.constructable
    &&& ctor_obj.proto is None
    &&& ctor_obj.tag is Ordinary
    &&& ctor_obj.constructable
    &&& ctor_obj.props@.len() == 3
    &&& ctor_obj.props@[0].key@ == "name"@
    &&& ctor_obj.props@[0].slot matches PropertySlot::Data(JsValue::Str(s)) && s@ == name
    &&& ctor_obj.props@[0].attr == metadata_attr()
    &&& ctor_obj.props@[1].key@ == "length"@
    &&& ctor_obj.props@[1].slot == PropertySlot::Data(JsValue::Int(length as i64))
    &&& ctor_obj.props@[1].attr == metadata_attr()
    &&& ctor_obj.props@[2].key@ == "prototype"@
    &&& ctor_obj.props@[2].slot == PropertySlot::Data(JsValue::Object(entry.prototype))
    &&& ctor_obj.props@[2].attr == prototype_slot_attr()
}

/// The fluent builder. Fields accumulate the declaration; `build` performs
/// the linking against the realm.
pub struct ConstructorBuilder {
    pub kind: IntrinsicKind,
    pub entry: IntrinsicEntry,
    pub ctor_name: String,
    pub ctor_length: usize,
    pub parent_prototype: Option<ObjRef>,
    pub properties: Vec<Property>,
}

impl ConstructorBuilder {
    /// Starts a builder against the standard objects entry of `kind`.
    pub fn with_standard_object(kind: IntrinsicKind, entry: IntrinsicEntry) -> (b: Self)
        ensures
            b.kind == kind,
            b.entry == entry,
            b.ctor_name@ == Seq::<char>::empty(),
            b.ctor_length == 0,
            b.parent_prototype is None,
            b.properties@ == Seq::<Property>::empty(),
    {
        ConstructorBuilder {
            kind,
            entry,
            ctor_name: String::new(),
            ctor_length: 0,
            parent_prototype: None,
            properties: Vec::new(),
        }
    }

    /// Declares the constructor's name.
    pub fn name(self, n: &str) -> (b: Self)
        ensures
            b.ctor_name@ == n@,
            b.kind == self.kind,
            b.entry == self.entry,
            b.ctor_length == self.ctor_length,
            b.parent_prototype == self.parent_prototype,
            b.properties == self.properties,
    {
        ConstructorBuilder { ctor_name: String::from_str(n), ..self }
    }

    /// Declares the constructor's arity as reported to script.
    pub fn length(self, l: usize) -> (b: Self)
        ensures
            b.ctor_length == l,
            b.kind == self.kind,
            b.entry == self.entry,
            b.ctor_name == self.ctor_name,
            b.parent_prototype == self.parent_prototype,
            b.properties == self.properties,
    {
        ConstructorBuilder { ctor_length: l, ..self }
    }

    /// Declares the parent prototype the entry's prototype inherits from.
    pub fn inherit(self, parent: ObjRef) -> (b: Self)
        ensures
            b.parent_prototype == Some(parent),
            b.kind == self.kind,
            b.entry == self.entry,
            b.ctor_name == self.ctor_name,
            b.ctor_length == self.ctor_length,
            b.properties == self.properties,
    {
        ConstructorBuilder { parent_prototype: Some(parent), ..self }
    }

    /// Declares one own data property of the prototype, with its attributes.
    pub fn property(self, key: &str, value: JsValue, attr: AttributeSet) -> (b: Self)
        ensures
            b.properties@.len() == self.properties@.len() + 1,
            forall|i: int|
                0 <= i < self.properties@.len() ==> b.properties@[i] == self.properties@[i],
            b.properties@.last().key@ == key@,
            b.properties@.last().slot == PropertySlot::Data(value),
            b.properties@.last().attr == attr,
            b.kind == self.kind,
            b.entry == self.entry,
            b.ctor_name == self.ctor_name,
            b.ctor_length == self.ctor_length,
            b.parent_prototype == self.parent_prototype,
    {
        let mut properties = self.properties;
        properties.push(
            Property { key: String::from_str(key), slot: PropertySlot::Data(value), attr },
        );
        ConstructorBuilder { properties, ..self }
    }

    /// Links the declared constructor into the realm and returns the
    /// constructor object. Building the same entry twice within one realm
    /// is a fatal programmer error — it would silently replace live
    /// bindings — and is excluded by the unbuilt-slot precondition.
    #[verifier::loop_isolation(false)]
    pub fn build(self, realm: &mut Realm) -> (ctor: ObjRef)
        requires
            old(realm).wf(),
            old(realm).registry.slot(self.kind) == Some(
                RegisteredIntrinsic { entry: self.entry, built: false },
            ),
            old(realm).heap.obj(self.entry.prototype as int).is_plain(),
            old(realm).heap.obj(self.entry.constructor as int).is_plain(),
            self.parent_prototype matches Some(p) ==> p < self.entry.prototype,
            keys_unique(self.properties@),
            forall|i: int|
                0 <= i < self.properties@.len() ==> (#[trigger] self.properties@[i].key@)
                    != "constructor"@,
            forall|i: int|
                0 <= i < self.properties@.len() ==> old(realm).heap.slot_value_ok(
                    #[trigger] self.properties@[i].slot,
                ),
            self.ctor_length <= 0x7fff_ffff_ffff_ffff,
        ensures
            final(realm).wf(),
            ctor == self.entry.constructor,
            linked_intrinsic(
                *final(realm),
                self.entry,
                self.parent_prototype,
                self.ctor_name@,
                self.ctor_length as int,
                self.properties@,
            ),
            final(realm).heap.spec_len() == old(realm).heap.spec_len(),
            forall|i: int|
                0 <= i < old(realm).heap.spec_len() && i != self.entry.prototype && i
                    != self.entry.constructor ==> final(realm).heap.obj(i) == old(realm).heap.obj(
                    i,
                ),
            final(realm).registry.slot(self.kind) == Some(
                RegisteredIntrinsic { entry: self.entry, built: true },
            ),
            forall|k2: IntrinsicKind|
                k2 != self.kind ==> #[trigger] final(realm).registry.slot(k2) == old(
                    realm,
                ).registry.slot(k2),
            final(realm).global == old(realm).global,
    {
        let proto = self.entry.prototype;
        let ctor = self.entry.constructor;
        proof {
            assert(old(realm).registry.slot(self.kind) is Some);
        }
        match self.parent_prototype {
            Some(p) => realm.heap.set_prototype(proto, p),
            None => {},
        }
        proof {
            reveal_strlit("name");
            reveal_strlit("length");
            reveal_strlit("prototype");
            reveal_strlit("constructor");
        }
        realm.heap.define_property(
            proto,
            Property {
                key: String::from_str("constructor"),
                slot: PropertySlot::Data(JsValue::Object(ctor)),
                attr: AttributeSet::writable().union(AttributeSet::configurable()),
            },
        );
        let ghost cprop = realm.heap.obj(proto as int).props@[0];
        let n = self.properties.len();
        let mut i: usize = 0;
        while i < n
            invariant
                realm.wf(),
                realm.heap.spec_len() == old(realm).heap.spec_len(),
                i <= n,
                realm.heap.obj(proto as int).props@ =~= seq![cprop] + self.properties@.subrange(
                    0,
                    i as int,
                ),
                realm.heap.obj(proto as int).proto == self.parent_prototype,
                realm.heap.obj(proto as int).tag is Ordinary,
                !realm.heap.obj(proto as int).constructable,
                realm.heap.obj(proto as int).display == old(realm).heap.obj(
                    proto as int,
                ).display,
                forall|x: int|
                    0 <= x < old(realm).heap.spec_len() && x != proto ==> realm.heap.obj(x) == old(
                        realm,
                    ).heap.obj(x),
                realm.registry == old(realm).registry,
                realm.global == old(realm).global,
            decreases n - i,
        {
            let prop = &self.properties[i];
            proof {
                let cur = realm.heap.obj(proto as int).props@;
                assert forall|j: int| 0 <= j < cur.len() implies cur[j].key@ != prop.key@ by {
                    if j == 0 {
                        assert(cur[j].key@ == "constructor"@);
                    } else {
                        assert(cur[j] == self.properties@[j - 1]);
                    }
                }
            }
            realm.heap.define_property(proto, self.properties[i].clone());
            proof {
                assert(realm.heap.obj(proto as int).props@ =~= seq![cprop]
                    + self.properties@.subrange(0, i + 1));
            }
            i += 1;
        }
        proof {
            assert(self.properties@.subrange(0, n as int) =~= self.properties@);
        }
        // The constructor object: name, length, and the prototype link.
        proof {
            assert(realm.heap.obj(ctor as int).props@.len() == 0);
        }
        realm.heap.define_property(
            ctor,
            Property {
                key: String::from_str("name"),
                slot: PropertySlot::Data(JsValue::Str(self.ctor_name.clone())),
                attr: AttributeSet::configurable(),
            },
        );
        proof {
            let s1 = realm.heap.obj(ctor as int).props@;
            assert(s1.len() == 1 && s1[0].key@ == "name"@);
            assert(!has_own(s1, "length"@));
        }
        realm.heap.define_property(
            ctor,
            Property {
                key: String::from_str("length"),
                slot: PropertySlot::Data(JsValue::Int(self.ctor_length as i64)),
                attr: AttributeSet::configurable(),
            },
        );
        proof {
            let s2 = realm.heap.obj(ctor as int).props@;
            assert(s2.len() == 2 && s2[0].key@ == "name"@ && s2[1].key@ == "length"@);
            assert(!has_own(s2, "prototype"@));
        }
        realm.heap.define_property(
            ctor,
            Property {
                key: String::from_str("prototype"),
                slot: PropertySlot::Data(JsValue::Object(proto)),
                attr: AttributeSet::empty(),
            },
        );
        proof {
            assert(realm.heap.obj(ctor as int).props@.len() == 3);
        }
        realm.heap.set_constructable(ctor, true);
        realm.mark_built(self.kind);
        proof {
            assert(realm.heap.obj(proto as int).props@.skip(1) =~= self.properties@);
        }
        ctor
    }
}

} // verus!
