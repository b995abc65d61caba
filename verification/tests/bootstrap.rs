use boa::attribute::AttributeSet;
use boa::intrinsics::bootstrap_realm;
use boa::object::PropertySlot;
use boa::registry::IntrinsicKind;
use boa::value::JsValue;

#[test]
fn prototype_constructor_backlink() {
    let realm = bootstrap_realm();
    for kind in [
        IntrinsicKind::BaseObject,
        IntrinsicKind::Error,
        IntrinsicKind::ReferenceError,
    ] {
        let entry = realm.standard_entry(kind);
        let back = realm
            .heap
            .lookup_property(entry.prototype, &String::from("constructor"))
            .expect("prototype must own a constructor back-reference");
        assert_eq!(
            back.slot,
            PropertySlot::Data(JsValue::Object(entry.constructor))
        );
        assert!(!back.attr.enumerable);
        let forward = realm
            .heap
            .lookup_property(entry.constructor, &String::from("prototype"))
            .expect("constructor must own a prototype property");
        assert_eq!(
            forward.slot,
            PropertySlot::Data(JsValue::Object(entry.prototype))
        );
    }
}

#[test]
fn prototype_chain_shape() {
    let realm = bootstrap_realm();
    let op = realm.standard_entry(IntrinsicKind::BaseObject).prototype;
    let ep = realm.standard_entry(IntrinsicKind::Error).prototype;
    let rp = realm
        .standard_entry(IntrinsicKind::ReferenceError)
        .prototype;
    assert_eq!(realm.heap.objects[rp].proto, Some(ep));
    assert_eq!(realm.heap.objects[ep].proto, Some(op));
    assert_eq!(realm.heap.objects[op].proto, None);
    assert!(realm.heap.is_in_prototype_chain(rp, ep));
    assert!(realm.heap.is_in_prototype_chain(rp, op));
    assert!(!realm.heap.is_in_prototype_chain(op, rp));
}

#[test]
fn registry_entry_created_once() {
    let mut realm = bootstrap_realm();
    let first = realm.standard_entry(IntrinsicKind::ReferenceError);
    let again = realm.get_or_init(IntrinsicKind::ReferenceError);
    assert_eq!(first.prototype, again.prototype);
    assert_eq!(first.constructor, again.constructor);
}

#[test]
fn global_bindings() {
    let realm = bootstrap_realm();
    for (kind, name) in [
        (IntrinsicKind::BaseObject, "Object"),
        (IntrinsicKind::Error, "Error"),
        (IntrinsicKind::ReferenceError, "ReferenceError"),
    ] {
        let entry = realm.standard_entry(kind);
        let bound = realm
            .heap
            .get_own_property(realm.global, &String::from(name))
            .expect("each constructor must be bound globally");
        assert_eq!(bound.slot, PropertySlot::Data(JsValue::Object(entry.constructor)));
        assert!(bound.attr.writable);
        assert!(!bound.attr.enumerable);
        assert!(bound.attr.configurable);
    }
}

#[test]
fn constructor_metadata() {
    let realm = bootstrap_realm();
    let entry = realm.standard_entry(IntrinsicKind::ReferenceError);
    let name = realm
        .heap
        .get_own_property(entry.constructor, &String::from("name"))
        .expect("constructor must report its name");
    assert_eq!(
        name.slot,
        PropertySlot::Data(JsValue::Str(String::from("ReferenceError")))
    );
    assert!(!name.attr.writable);
    assert!(!name.attr.enumerable);
    assert!(name.attr.configurable);
    let length = realm
        .heap
        .get_own_property(entry.constructor, &String::from("length"))
        .expect("constructor must report its arity");
    assert_eq!(length.slot, PropertySlot::Data(JsValue::Int(1)));
    let proto_slot = realm
        .heap
        .get_own_property(entry.constructor, &String::from("prototype"))
        .expect("constructor must own its prototype slot");
    assert!(!proto_slot.attr.writable);
    assert!(!proto_slot.attr.enumerable);
    assert!(!proto_slot.attr.configurable);
}

#[test]
fn prototype_default_properties() {
    let realm = bootstrap_realm();
    let entry = realm.standard_entry(IntrinsicKind::ReferenceError);
    let name = realm
        .heap
        .get_own_property(entry.prototype, &String::from("name"))
        .expect("prototype must carry its default name");
    assert_eq!(
        name.slot,
        PropertySlot::Data(JsValue::Str(String::from("ReferenceError")))
    );
    let message = realm
        .heap
        .get_own_property(entry.prototype, &String::from("message"))
        .expect("prototype must carry its default message");
    assert_eq!(message.slot, PropertySlot::Data(JsValue::Str(String::new())));
}

#[test]
fn attribute_audit() {
    let realm = bootstrap_realm();
    for kind in [IntrinsicKind::Error, IntrinsicKind::ReferenceError] {
        let entry = realm.standard_entry(kind);
        let listed = realm.heap.own_enumerable_keys(entry.prototype);
        assert!(listed.is_empty(), "no prototype key is meant for enumeration");
        for key in ["name", "message"] {
            let p = realm
                .heap
                .get_own_property(entry.prototype, &String::from(key))
                .expect("audited property must exist");
            assert!(p.attr.writable);
            assert!(!p.attr.enumerable);
            assert!(p.attr.configurable);
        }
    }
}

#[test]
fn attribute_model() {
    let empty = AttributeSet::empty();
    assert!(!empty.is_writable() && !empty.is_enumerable() && !empty.is_configurable());
    let w = AttributeSet::writable();
    let c = AttributeSet::configurable();
    let e = AttributeSet::enumerable();
    let combined = w.union(c);
    assert!(combined.is_writable());
    assert!(!combined.is_enumerable());
    assert!(combined.is_configurable());
    let all = combined.union(e);
    assert!(all.is_writable() && all.is_enumerable() && all.is_configurable());
    assert_eq!(w.union(w), w);
    assert_eq!(w.union(c), c.union(w));
}
