//! The intrinsic definition protocol and the builtins this realm registers:
//! the root object intrinsic, the base error intrinsic, and the
//! `ReferenceError` subtype. Each builtin declares a name, an arity, and a
//! default attribute set, and offers an `init` that links it into the realm
//! through the constructor builder. Instance construction resolves its
//! prototype from the active `new`-target and stamps the instance with the
//! error category tag.

use vstd::prelude::*;
use crate::attribute::{AttributeSet, writable_configurable};
use crate::builder::{
    ConstructorBuilder, constructor_link_attr, linked_intrinsic, metadata_attr,
    prototype_slot_attr,
};
use crate::construction::{
    display_of, get_prototype_from_constructor, resolve_prototype_spec, to_display_string,
};
use crate::object::{
    has_own, keys_unique,
    ObjectDisplay, ObjectRecord, ObjectTag, Property, PropertySlot,
};
use crate::registry::{IntrinsicKind, Realm};
use crate::value::{JsValue, ObjRef};

verus! {

/// The script-visible name of each intrinsic kind.
pub open spec fn spec_intrinsic_name(k: IntrinsicKind) -> Seq<char> {
    match k {
        IntrinsicKind::BaseObject => "Object"@,
        IntrinsicKind::Error => "Error"@,
        IntrinsicKind::ReferenceError => "ReferenceError"@,
    }
}

/// The script-visible name of each intrinsic kind.
pub fn intrinsic_name(k: IntrinsicKind) -> (r: &'static str)
    ensures
        r@ == spec_intrinsic_name(k),
{
    match k {
        IntrinsicKind::BaseObject => "Object",
        IntrinsicKind::Error => "Error",
        IntrinsicKind::ReferenceError => "ReferenceError",
    }
}

/// The arity each intrinsic constructor reports to script.
pub fn intrinsic_length(k: IntrinsicKind) -> (r: usize)
    ensures
        r == 1,
{
    match k {
        IntrinsicKind::BaseObject => 1,
        IntrinsicKind::Error => 1,
        IntrinsicKind::ReferenceError => 1,
    }
}

/// The default attribute set under which a constructor is bound as a global
/// property: writable, non-enumerable, configurable.
pub fn intrinsic_default_attribute(k: IntrinsicKind) -> (r: AttributeSet)
    ensures
        r == (AttributeSet { writable: true, enumerable: false, configurable: true }),
{
    match k {
        IntrinsicKind::BaseObject => writable_configurable(),
        IntrinsicKind::Error => writable_configurable(),
        IntrinsicKind::ReferenceError => writable_configurable(),
    }
}

/// The attribute combination of the spec-mandated prototype data
/// properties: writable, non-enumerable, configurable.
pub open spec fn default_property_attr() -> AttributeSet {
    AttributeSet { writable: true, enumerable: false, configurable: true }
}

/// The installed shape of the root object intrinsic: its prototype ends
/// every chain (no parent link) and carries only the "constructor"
/// back-reference.
pub open spec fn object_intrinsic_shape(realm: Realm, k: IntrinsicKind) -> bool {
    let entry = realm.registry.entry_of(k);
    let po = realm.heap.obj(entry.prototype as int);
    &&& realm.registry.built(k)
    &&& linked_intrinsic(realm, entry, None, spec_intrinsic_name(k), 1, Seq::<Property>::empty())
    &&& po.props@.len() == 1
}

/// The installed shape of an error-style intrinsic: the prototype chains to
/// `parent`, and besides the "constructor" back-reference it carries "name"
/// (the intrinsic's name) and "message" (the empty string), both writable,
/// non-enumerable, configurable.
pub open spec fn error_intrinsic_shape(realm: Realm, k: IntrinsicKind, parent: ObjRef) -> bool {
    let entry = realm.registry.entry_of(k);
    let po = realm.heap.obj(entry.prototype as int);
    let co = realm.heap.obj(entry.constructor as int);
    &&& realm.registry.built(k)
    &&& po.proto == Some(parent)
    &&& po.tag is Ordinary
    &&& !po.constructable
    &&& po.props@.len() == 3
    &&& po.props@[0].key@ == "constructor"@
    &&& po.props@[0].slot == PropertySlot::Data(JsValue::Object(entry.constructor))
    &&& po.props@[0].attr == constructor_link_attr()
    &&& po.props@[1].key@ == "name"@
    &&& po.props@[1].slot matches PropertySlot::Data(JsValue::Str(s)) && s@ == spec_intrinsic_name(
        k,
    )
    &&& po.props@[1].attr == default_property_attr()
    &&& po.props@[2].key@ == "message"@
    &&& po.props@[2].slot matches PropertySlot::Data(JsValue::Str(s)) && s@ == Seq::<
        char,
    >::empty()
    &&& po.props@[2].attr == default_property_attr()
    &&& co.proto is None
    &&& co.tag is Ordinary
    &&& co.constructable
    &&& co.props@.len() == 3
    &&& co.props@[0].key@ == "name"@
    &&& co.props@[0].slot matches PropertySlot::Data(JsValue::Str(s)) && s@
        == spec_intrinsic_name(k)
    &&& co.props@[0].attr == metadata_attr()
    &&& co.props@[1].key@ == "length"@
    &&& co.props@[1].slot == PropertySlot::Data(JsValue::Int(1))
    &&& co.props@[1].attr == metadata_attr()
    &&& co.props@[2].key@ == "prototype"@
    &&& co.props@[2].slot == PropertySlot::Data(JsValue::Object(entry.prototype))
    &&& co.props@[2].attr == prototype_slot_attr()
}

/// The root object intrinsic.
#[derive(Debug, Clone, Copy)]
pub struct BaseObject;

impl BaseObject {
    /// The arity this constructor reports to script.
    pub const LENGTH: usize = 1;

    /// Registers and links the root object intrinsic; returns its
    /// constructor for global binding.
    pub fn init(realm: &mut Realm) -> (r: JsValue)
        requires
            old(realm).wf(),
            old(realm).registry.slot(IntrinsicKind::BaseObject) is None,
        ensures
            final(realm).wf(),
            object_intrinsic_shape(*final(realm), IntrinsicKind::BaseObject),
            final(realm).registry.entry_of(IntrinsicKind::BaseObject).prototype == old(
                realm,
            ).heap.spec_len(),
            final(realm).registry.entry_of(IntrinsicKind::BaseObject).constructor == old(
                realm,
            ).heap.spec_len() + 1,
            final(realm).heap.spec_len() == old(realm).heap.spec_len() + 2,
            forall|i: int|
                0 <= i < old(realm).heap.spec_len() ==> final(realm).heap.obj(i) == old(
                    realm,
                ).heap.obj(i),
            forall|k2: IntrinsicKind|
                k2 != IntrinsicKind::BaseObject ==> #[trigger] final(realm).registry.slot(k2)
                    == old(realm).registry.slot(k2),
            final(realm).global == old(realm).global,
            r == JsValue::Object(final(realm).registry.entry_of(IntrinsicKind::BaseObject).constructor),
    {
        let entry = realm.get_or_init(IntrinsicKind::BaseObject);
        let object_constructor = ConstructorBuilder::with_standard_object(
            IntrinsicKind::BaseObject,
            entry,
        ).name(intrinsic_name(IntrinsicKind::BaseObject)).length(Self::LENGTH).build(realm);
        JsValue::Object(object_constructor)
    }
}

/// The base error intrinsic: the parent of every native error subtype.
#[derive(Debug, Clone, Copy)]
pub struct BaseError;

impl BaseError {
    /// The arity this constructor reports to script.
    pub const LENGTH: usize = 1;

    /// Registers and links the base error intrinsic; returns its
    /// constructor for global binding. The root object intrinsic must
    /// already be installed — parents come before subtypes.
    pub fn init(realm: &mut Realm) -> (r: JsValue)
        requires
            old(realm).wf(),
            old(realm).registry.built(IntrinsicKind::BaseObject),
            old(realm).registry.slot(IntrinsicKind::Error) is None,
        ensures
            final(realm).wf(),
            error_intrinsic_shape(
                *final(realm),
                IntrinsicKind::Error,
                final(realm).registry.entry_of(IntrinsicKind::BaseObject).prototype,
            ),
            final(realm).registry.entry_of(IntrinsicKind::Error).prototype == old(
                realm,
            ).heap.spec_len(),
            final(realm).registry.entry_of(IntrinsicKind::Error).constructor == old(
                realm,
            ).heap.spec_len() + 1,
            final(realm).heap.spec_len() == old(realm).heap.spec_len() + 2,
            forall|i: int|
                0 <= i < old(realm).heap.spec_len() ==> final(realm).heap.obj(i) == old(
                    realm,
                ).heap.obj(i),
            forall|k2: IntrinsicKind|
                k2 != IntrinsicKind::Error ==> #[trigger] final(realm).registry.slot(k2) == old(
                    realm,
                ).registry.slot(k2),
            final(realm).global == old(realm).global,
            r == JsValue::Object(final(realm).registry.entry_of(IntrinsicKind::Error).constructor),
    {
        init_error_style(realm, IntrinsicKind::Error, IntrinsicKind::BaseObject)
    }
}

/// The global `ReferenceError` object: the error subtype raised when an
/// invalid reference is dereferenced.
#[derive(Debug, Clone, Copy)]
pub struct ReferenceError;

impl ReferenceError {
    /// The amount of arguments this function object takes.
    pub const LENGTH: usize = 1;

    /// Registers and links the `ReferenceError` intrinsic; returns its
    /// constructor for global binding. The base error intrinsic must
    /// already be installed, since the subtype's prototype chains to it.
    pub fn init(realm: &mut Realm) -> (r: JsValue)
        requires
            old(realm).wf(),
            old(realm).registry.built(IntrinsicKind::Error),
            old(realm).registry.slot(IntrinsicKind::ReferenceError) is None,
        ensures
            final(realm).wf(),
            error_intrinsic_shape(
                *final(realm),
                IntrinsicKind::ReferenceError,
                final(realm).registry.entry_of(IntrinsicKind::Error).prototype,
            ),
            final(realm).registry.entry_of(IntrinsicKind::ReferenceError).prototype == old(
                realm,
            ).heap.spec_len(),
            final(realm).registry.entry_of(IntrinsicKind::ReferenceError).constructor == old(
                realm,
            ).heap.spec_len() + 1,
            final(realm).heap.spec_len() == old(realm).heap.spec_len() + 2,
            forall|i: int|
                0 <= i < old(realm).heap.spec_len() ==> final(realm).heap.obj(i) == old(
                    realm,
                ).heap.obj(i),
            forall|k2: IntrinsicKind|
                k2 != IntrinsicKind::ReferenceError ==> #[trigger] final(realm).registry.slot(k2)
                    == old(realm).registry.slot(k2),
            final(realm).global == old(realm).global,
            r == JsValue::Object(
                final(realm).registry.entry_of(IntrinsicKind::ReferenceError).constructor,
            ),
    {
        init_error_style(realm, IntrinsicKind::ReferenceError, IntrinsicKind::Error)
    }

    /// Create a new error object: resolve the prototype from the
    /// `new`-target (falling back to the base error prototype, as every
    /// native error subtype here does), coerce an explicit non-undefined
    /// first argument to the instance's own "message", and stamp the
    /// instance with the error category tag.
    pub fn constructor(new_target: &JsValue, args: &[JsValue], realm: &mut Realm) -> (res: Result<
        JsValue,
        JsValue,
    >)
        requires
            old(realm).wf(),
            old(realm).registry.built(IntrinsicKind::Error),
            old(realm).heap.value_ok(*new_target),
            forall|i: int| 0 <= i < args@.len() ==> old(realm).heap.value_ok(#[trigger] args@[i]),
        ensures
            final(realm).wf(),
            final(realm).registry == old(realm).registry,
            construction_post(
                *old(realm),
                *final(realm),
                res,
                *new_target,
                args@,
                old(realm).registry.entry_of(IntrinsicKind::Error).prototype,
            ),
    {
        native_error_constructor(new_target, args, realm, IntrinsicKind::Error)
    }
}

/// Registers and links one error-style intrinsic of kind `k`, whose
/// prototype chains to the prototype of `parent_kind`.
fn init_error_style(realm: &mut Realm, k: IntrinsicKind, parent_kind: IntrinsicKind) -> (r:
    JsValue)
    requires
        old(realm).wf(),
        k != parent_kind,
        old(realm).registry.built(parent_kind),
        old(realm).registry.slot(k) is None,
    ensures
        final(realm).wf(),
        error_intrinsic_shape(
            *final(realm),
            k,
            final(realm).registry.entry_of(parent_kind).prototype,
        ),
        final(realm).registry.entry_of(k).prototype == old(realm).heap.spec_len(),
        final(realm).registry.entry_of(k).constructor == old(realm).heap.spec_len() + 1,
        final(realm).heap.spec_len() == old(realm).heap.spec_len() + 2,
        forall|i: int|
            0 <= i < old(realm).heap.spec_len() ==> final(realm).heap.obj(i) == old(
                realm,
            ).heap.obj(i),
        forall|k2: IntrinsicKind|
            k2 != k ==> #[trigger] final(realm).registry.slot(k2) == old(realm).registry.slot(k2),
        final(realm).global == old(realm).global,
        r == JsValue::Object(final(realm).registry.entry_of(k).constructor),
{
    proof {
        assert(old(realm).registry.slot(parent_kind) is Some);
        reveal_strlit("name");
        reveal_strlit("message");
        reveal_strlit("constructor");
    }
    let parent_prototype = realm.standard_entry(parent_kind).prototype;
    let attribute = writable_configurable();
    let entry = realm.get_or_init(k);
    let the_name = intrinsic_name(k);
    let declared = ConstructorBuilder::with_standard_object(k, entry)
        .name(the_name)
        .length(intrinsic_length(k))
        .inherit(parent_prototype)
        .property("name", JsValue::Str(String::from_str(the_name)), attribute)
        .property("message", JsValue::Str(String::new()), attribute);
    proof {
        reveal_strlit("name");
        reveal_strlit("message");
        reveal_strlit("constructor");
        assert(declared.properties@.len() == 2);
        assert(declared.properties@[0].key@ == "name"@);
        assert(declared.properties@[1].key@ == "message"@);
        assert("name"@.len() == 4 && "message"@.len() == 7 && "constructor"@.len() == 11);
        assert("name"@ != "message"@ && "name"@ != "constructor"@ && "message"@
            != "constructor"@);
        assert(keys_unique(declared.properties@));
    }
    let constructor_object = declared.build(realm);
    proof {
        let po = realm.heap.obj(realm.registry.entry_of(k).prototype as int).props@;
        assert(po.skip(1)[0] == declared.properties@[0]);
        assert(po.skip(1)[1] == declared.properties@[1]);
        assert(po.skip(1)[0] == po[1]);
        assert(po.skip(1)[1] == po[2]);
    }
    JsValue::Object(constructor_object)
}

/// What a successful instance construction leaves behind: one fresh object
/// whose prototype is the resolved one, tagged with the error category, its
/// own "message" present exactly when a message was coerced.
pub open spec fn construction_success(
    old_realm: Realm,
    new_realm: Realm,
    res: Result<JsValue, JsValue>,
    p: ObjRef,
    msg: Option<Seq<char>>,
) -> bool {
    let n = old_realm.heap.spec_len();
    let o = new_realm.heap.obj(n as int);
    &&& new_realm.heap.spec_len() == n + 1
    &&& forall|i: int| 0 <= i < n ==> new_realm.heap.obj(i) == old_realm.heap.obj(i)
    &&& new_realm.registry == old_realm.registry
    &&& new_realm.global == old_realm.global
    &&& res == Ok::<JsValue, JsValue>(JsValue::Object(n as usize))
    &&& o.proto == Some(p)
    &&& o.tag is Error
    &&& !o.constructable
    &&& match msg {
        None => o.props@.len() == 0,
        Some(m) => {
            &&& o.props@.len() == 1
            &&& o.props@[0].key@ == "message"@
            &&& o.props@[0].slot matches PropertySlot::Data(JsValue::Str(s)) && s@ == m
            &&& o.props@[0].attr == default_property_attr()
        },
    }
}

/// The full outcome of instance construction against fallback prototype
/// `fallback`: a raised prototype resolution or message coercion propagates
/// verbatim and leaves the realm unchanged; otherwise exactly one instance
/// is created as `construction_success` says.
pub open spec fn construction_post(
    old_realm: Realm,
    new_realm: Realm,
    res: Result<JsValue, JsValue>,
    nt: JsValue,
    args: Seq<JsValue>,
    fallback: ObjRef,
) -> bool {
    match resolve_prototype_spec(old_realm, nt, fallback) {
        Err(e) => res == Err::<JsValue, JsValue>(e) && new_realm == old_realm,
        Ok(p) => {
            if args.len() > 0 && !(args[0] is Undefined) {
                match display_of(old_realm.heap, args[0]) {
                    Err(e) => res == Err::<JsValue, JsValue>(e) && new_realm == old_realm,
                    Ok(m) => construction_success(old_realm, new_realm, res, p, Some(m)),
                }
            } else {
                construction_success(old_realm, new_realm, res, p, None)
            }
        },
    }
}

/// The generic native-constructor entry point: builds one instance of the
/// error category for any `new`-target, with the registry default of
/// `fallback_kind` as the fallback prototype. The fallback kind is a
/// parameter so that each subtype chooses which default it shares.
pub fn native_error_constructor(
    new_target: &JsValue,
    args: &[JsValue],
    realm: &mut Realm,
    fallback_kind: IntrinsicKind,
) -> (res: Result<JsValue, JsValue>)
    requires
        old(realm).wf(),
        old(realm).registry.built(fallback_kind),
        old(realm).heap.value_ok(*new_target),
        forall|i: int| 0 <= i < args@.len() ==> old(realm).heap.value_ok(#[trigger] args@[i]),
    ensures
        final(realm).wf(),
        final(realm).registry == old(realm).registry,
        construction_post(
            *old(realm),
            *final(realm),
            res,
            *new_target,
            args@,
            old(realm).registry.entry_of(fallback_kind).prototype,
        ),
{
    let prototype = match get_prototype_from_constructor(realm, new_target, fallback_kind) {
        Ok(p) => p,
        Err(e) => {
            return Err(e);
        },
    };
    // Coerce the message before allocating, so that a raised coercion is
    // propagated with the realm observably untouched.
    let message: Option<String> = if args.len() > 0 {
        let first = vstd::slice::slice_index_get(args, 0);
        if !first.is_undefined() {
            match to_display_string(&realm.heap, first) {
                Ok(m) => Some(m),
                Err(e) => {
                    return Err(e);
                },
            }
        } else {
            None
        }
    } else {
        None
    };
    let obj = realm.heap.allocate(
        ObjectRecord {
            proto: Some(prototype),
            props: Vec::new(),
            tag: ObjectTag::Error,
            constructable: false,
            display: ObjectDisplay::Converts(String::new()),
        },
    );
    match message {
        Some(m) => {
            realm.heap.define_property(
                obj,
                Property {
                    key: String::from_str("message"),
                    slot: PropertySlot::Data(JsValue::Str(m)),
                    attr: writable_configurable(),
                },
            );
        },
        None => {},
    }
    Ok(JsValue::Object(obj))
}

/// Binds `v` on the global object under the name of `k`, with the
/// intrinsic's default attribute set.
fn bind_global(realm: &mut Realm, k: IntrinsicKind, v: JsValue)
    requires
        old(realm).wf(),
        old(realm).heap.value_ok(v),
        !has_own(old(realm).heap.obj(old(realm).global as int).props@, spec_intrinsic_name(k)),
    ensures
        final(realm).wf(),
        final(realm).heap.spec_len() == old(realm).heap.spec_len(),
        final(realm).registry == old(realm).registry,
        final(realm).global == old(realm).global,
        forall|i: int|
            0 <= i < old(realm).heap.spec_len() && i != old(realm).global ==> final(realm).heap.obj(
                i,
            ) == old(realm).heap.obj(i),
        ({
            let g0 = old(realm).heap.obj(old(realm).global as int);
            let g1 = final(realm).heap.obj(old(realm).global as int);
            &&& g1.proto == g0.proto
            &&& g1.tag == g0.tag
            &&& g1.constructable == g0.constructable
            &&& g1.display == g0.display
            &&& g1.props@.len() == g0.props@.len() + 1
            &&& forall|j: int| 0 <= j < g0.props@.len() ==> g1.props@[j] == g0.props@[j]
            &&& g1.props@.last().key@ == spec_intrinsic_name(k)
            &&& g1.props@.last().slot == PropertySlot::Data(v)
            &&& g1.props@.last().attr == default_property_attr()
        }),
{
    let name = intrinsic_name(k);
    let attr = intrinsic_default_attribute(k);
    realm.heap.define_property(
        realm.global,
        Property { key: String::from_str(name), slot: PropertySlot::Data(v), attr },
    );
}

/// What realm bootstrap establishes: every known intrinsic installed, the
/// chain running subtype prototype to base error prototype to root object
/// prototype, and each constructor bound on the global object under its
/// name.
pub open spec fn bootstrapped(realm: Realm) -> bool {
    let g = realm.heap.obj(realm.global as int);
    &&& object_intrinsic_shape(realm, IntrinsicKind::BaseObject)
    &&& error_intrinsic_shape(
        realm,
        IntrinsicKind::Error,
        realm.registry.entry_of(IntrinsicKind::BaseObject).prototype,
    )
    &&& error_intrinsic_shape(
        realm,
        IntrinsicKind::ReferenceError,
        realm.registry.entry_of(IntrinsicKind::Error).prototype,
    )
    &&& realm.heap.obj(
        realm.registry.entry_of(IntrinsicKind::BaseObject).prototype as int,
    ).proto is None
    &&& g.props@.len() == 3
    &&& g.props@[0].key@ == spec_intrinsic_name(IntrinsicKind::BaseObject)
    &&& g.props@[0].slot == PropertySlot::Data(
        JsValue::Object(realm.registry.entry_of(IntrinsicKind::BaseObject).constructor),
    )
    &&& g.props@[1].key@ == spec_intrinsic_name(IntrinsicKind::Error)
    &&& g.props@[1].slot == PropertySlot::Data(
        JsValue::Object(realm.registry.entry_of(IntrinsicKind::Error).constructor),
    )
    &&& g.props@[2].key@ == spec_intrinsic_name(IntrinsicKind::ReferenceError)
    &&& g.props@[2].slot == PropertySlot::Data(
        JsValue::Object(realm.registry.entry_of(IntrinsicKind::ReferenceError).constructor),
    )
}

/// Realm bootstrap: iterates the known intrinsic definitions in a fixed
/// deterministic order — the root object and the base error before the
/// error subtype, since a subtype's prototype chains to its parent's — and
/// binds each returned constructor as a global property under its name.
pub fn bootstrap_realm() -> (realm: Realm)
    ensures
        realm.wf(),
        bootstrapped(realm),
{
    let mut realm = Realm::new();
    let object_constructor = BaseObject::init(&mut realm);
    proof {
        reveal_strlit("Object");
        reveal_strlit("Error");
        reveal_strlit("ReferenceError");
    }
    bind_global(&mut realm, IntrinsicKind::BaseObject, object_constructor);
    let error_constructor = BaseError::init(&mut realm);
    proof {
        reveal_strlit("Object");
        reveal_strlit("Error");
        assert("Object"@.len() == 6 && "Error"@.len() == 5);
        assert(!has_own(
            realm.heap.obj(realm.global as int).props@,
            spec_intrinsic_name(IntrinsicKind::Error),
        ));
    }
    bind_global(&mut realm, IntrinsicKind::Error, error_constructor);
    let reference_error_constructor = ReferenceError::init(&mut realm);
    proof {
        reveal_strlit("Object");
        reveal_strlit("Error");
        reveal_strlit("ReferenceError");
        assert("Object"@.len() == 6 && "Error"@.len() == 5 && "ReferenceError"@.len() == 14);
        assert(!has_own(
            realm.heap.obj(realm.global as int).props@,
            spec_intrinsic_name(IntrinsicKind::ReferenceError),
        ));
    }
    bind_global(&mut realm, IntrinsicKind::ReferenceError, reference_error_constructor);
    realm
}

} // verus!
