use boa::construction::to_display_string;
use boa::intrinsics::{bootstrap_realm, ReferenceError};
use boa::object::{ObjectDisplay, ObjectRecord, ObjectTag, Property, PropertySlot};
use boa::registry::IntrinsicKind;
use boa::value::{to_decimal_string, JsValue};

#[test]
fn new_with_message() {
    let mut realm = bootstrap_realm();
    let entry = realm.standard_entry(IntrinsicKind::ReferenceError);
    let new_target = JsValue::Object(entry.constructor);
    let args = [JsValue::Str(String::from("boom"))];
    let instance = match ReferenceError::constructor(&new_target, &args, &mut realm) {
        Ok(JsValue::Object(r)) => r,
        other => panic!("construction must yield an instance, got {:?}", other),
    };
    assert_eq!(realm.heap.objects[instance].proto, Some(entry.prototype));
    assert_eq!(realm.heap.objects[instance].tag, ObjectTag::Error);
    let message = realm
        .heap
        .get_own_property(instance, &String::from("message"))
        .expect("an explicit message becomes an own property");
    assert_eq!(
        message.slot,
        PropertySlot::Data(JsValue::Str(String::from("boom")))
    );
    assert!(message.attr.writable);
    assert!(!message.attr.enumerable);
    assert!(message.attr.configurable);
}

#[test]
fn new_without_message() {
    let mut realm = bootstrap_realm();
    let entry = realm.standard_entry(IntrinsicKind::ReferenceError);
    let new_target = JsValue::Object(entry.constructor);
    let instance = match ReferenceError::constructor(&new_target, &[], &mut realm) {
        Ok(JsValue::Object(r)) => r,
        other => panic!("construction must yield an instance, got {:?}", other),
    };
    assert!(realm
        .heap
        .get_own_property(instance, &String::from("message"))
        .is_none());
    // The prototype's default empty message is still inherited.
    let inherited = realm
        .heap
        .lookup_property(instance, &String::from("message"))
        .expect("the default message is inherited from the prototype");
    assert_eq!(inherited.slot, PropertySlot::Data(JsValue::Str(String::new())));
}

#[test]
fn new_undefined_message_like_absent() {
    let mut realm = bootstrap_realm();
    let entry = realm.standard_entry(IntrinsicKind::ReferenceError);
    let new_target = JsValue::Object(entry.constructor);
    let with_undefined =
        match ReferenceError::constructor(&new_target, &[JsValue::Undefined], &mut realm) {
            Ok(JsValue::Object(r)) => r,
            other => panic!("construction must yield an instance, got {:?}", other),
        };
    let without = match ReferenceError::constructor(&new_target, &[], &mut realm) {
        Ok(JsValue::Object(r)) => r,
        other => panic!("construction must yield an instance, got {:?}", other),
    };
    let a = &realm.heap.objects[with_undefined];
    let b = &realm.heap.objects[without];
    assert!(a.props.is_empty());
    assert!(b.props.is_empty());
    assert_eq!(a.proto, b.proto);
    assert_eq!(a.tag, b.tag);
    assert_eq!(a.constructable, b.constructable);
}

#[test]
fn subclass_instance() {
    let mut realm = bootstrap_realm();
    let entry = realm.standard_entry(IntrinsicKind::ReferenceError);
    // A user-defined subclass: its prototype chains to the intrinsic's, and
    // its constructor's "prototype" property names it.
    let sub_prototype = realm.heap.allocate(ObjectRecord {
        proto: Some(entry.prototype),
        props: Vec::new(),
        tag: ObjectTag::Ordinary,
        constructable: false,
        display: ObjectDisplay::Converts(String::new()),
    });
    let sub_constructor = realm.heap.allocate(ObjectRecord {
        proto: None,
        props: vec![Property {
            key: String::from("prototype"),
            slot: PropertySlot::Data(JsValue::Object(sub_prototype)),
            attr: boa::attribute::AttributeSet::empty(),
        }],
        tag: ObjectTag::Ordinary,
        constructable: true,
        display: ObjectDisplay::Converts(String::new()),
    });
    let new_target = JsValue::Object(sub_constructor);
    let instance = match ReferenceError::constructor(&new_target, &[], &mut realm) {
        Ok(JsValue::Object(r)) => r,
        other => panic!("construction must yield an instance, got {:?}", other),
    };
    // The instance's prototype is the subclass's, not the intrinsic default.
    assert_eq!(realm.heap.objects[instance].proto, Some(sub_prototype));
    // It still carries the internal error category tag.
    assert_eq!(realm.heap.objects[instance].tag, ObjectTag::Error);
    // And the intrinsic's prototype stays on its chain.
    assert!(realm.heap.is_in_prototype_chain(instance, sub_prototype));
    assert!(realm.heap.is_in_prototype_chain(instance, entry.prototype));
}

#[test]
fn throwing_prototype_accessor_propagates() {
    let mut realm = bootstrap_realm();
    let raised = JsValue::Str(String::from("kaboom"));
    let sub_constructor = realm.heap.allocate(ObjectRecord {
        proto: None,
        props: vec![Property {
            key: String::from("prototype"),
            slot: PropertySlot::ThrowingGetter(raised.clone()),
            attr: boa::attribute::AttributeSet::empty(),
        }],
        tag: ObjectTag::Ordinary,
        constructable: true,
        display: ObjectDisplay::Converts(String::new()),
    });
    let before = realm.heap.len();
    let new_target = JsValue::Object(sub_constructor);
    let outcome =
        ReferenceError::constructor(&new_target, &[JsValue::Str(String::from("x"))], &mut realm);
    assert_eq!(outcome, Err(raised));
    // No partial construction: nothing was allocated.
    assert_eq!(realm.heap.len(), before);
}

#[test]
fn non_object_prototype_falls_back() {
    let mut realm = bootstrap_realm();
    let error_prototype = realm.standard_entry(IntrinsicKind::Error).prototype;
    // A constructable target whose "prototype" property is not an object.
    let odd_constructor = realm.heap.allocate(ObjectRecord {
        proto: None,
        props: vec![Property {
            key: String::from("prototype"),
            slot: PropertySlot::Data(JsValue::Int(7)),
            attr: boa::attribute::AttributeSet::empty(),
        }],
        tag: ObjectTag::Ordinary,
        constructable: true,
        display: ObjectDisplay::Converts(String::new()),
    });
    let instance =
        match ReferenceError::constructor(&JsValue::Object(odd_constructor), &[], &mut realm) {
            Ok(JsValue::Object(r)) => r,
            other => panic!("construction must yield an instance, got {:?}", other),
        };
    // The fallback is the base error prototype, the default this subtype
    // resolves against.
    assert_eq!(realm.heap.objects[instance].proto, Some(error_prototype));
    // A non-object new-target falls back the same way.
    let plain = match ReferenceError::constructor(&JsValue::Undefined, &[], &mut realm) {
        Ok(JsValue::Object(r)) => r,
        other => panic!("construction must yield an instance, got {:?}", other),
    };
    assert_eq!(realm.heap.objects[plain].proto, Some(error_prototype));
}

#[test]
fn message_coercion_raises() {
    let mut realm = bootstrap_realm();
    let entry = realm.standard_entry(IntrinsicKind::ReferenceError);
    let raised = JsValue::Str(String::from("no-display"));
    let sulky = realm.heap.allocate(ObjectRecord {
        proto: None,
        props: Vec::new(),
        tag: ObjectTag::Ordinary,
        constructable: false,
        display: ObjectDisplay::Raises(raised.clone()),
    });
    let before = realm.heap.len();
    let new_target = JsValue::Object(entry.constructor);
    let outcome =
        ReferenceError::constructor(&new_target, &[JsValue::Object(sulky)], &mut realm);
    assert_eq!(outcome, Err(raised));
    assert_eq!(realm.heap.len(), before);
}

#[test]
fn message_coercion_forms() {
    let mut realm = bootstrap_realm();
    let entry = realm.standard_entry(IntrinsicKind::ReferenceError);
    let new_target = JsValue::Object(entry.constructor);
    let cases: Vec<(JsValue, &str)> = vec![
        (JsValue::Int(-42), "-42"),
        (JsValue::Bool(true), "true"),
        (JsValue::Str(String::from("already")), "already"),
    ];
    for (arg, expected) in cases {
        let instance = match ReferenceError::constructor(&new_target, &[arg], &mut realm) {
            Ok(JsValue::Object(r)) => r,
            other => panic!("construction must yield an instance, got {:?}", other),
        };
        let message = realm
            .heap
            .get_own_property(instance, &String::from("message"))
            .expect("a non-undefined argument becomes an own message");
        assert_eq!(
            message.slot,
            PropertySlot::Data(JsValue::Str(String::from(expected)))
        );
    }
}

#[test]
fn display_string_forms() {
    let realm = bootstrap_realm();
    assert_eq!(
        to_display_string(&realm.heap, &JsValue::Undefined),
        Ok(String::from("undefined"))
    );
    assert_eq!(
        to_display_string(&realm.heap, &JsValue::Bool(false)),
        Ok(String::from("false"))
    );
    assert_eq!(
        to_display_string(&realm.heap, &JsValue::Int(120)),
        Ok(String::from("120"))
    );
}

#[test]
fn decimal_conversion_exact() {
    assert_eq!(to_decimal_string(0), "0");
    assert_eq!(to_decimal_string(9999), "9999");
    assert_eq!(to_decimal_string(-1), "-1");
    assert_eq!(to_decimal_string(i64::MAX), "9223372036854775807");
    assert_eq!(to_decimal_string(i64::MIN), "-9223372036854775808");
}
