//! The object model: object records held in a realm-owned heap, addressed by
//! index. Each record carries its internal prototype link, its own
//! properties with their attributes, its internal data tag, and its display
//! form. Prototype links always point at strictly lower indices, so every
//! prototype chain is finite and cycle-free by construction.

use vstd::prelude::*;
use vstd::std_specs::vec::vec_index_mut;
use crate::attribute::AttributeSet;
use crate::value::{JsValue, ObjRef};

verus! {

/// The content of one own property: either ordinary data, or an accessor
/// whose read raises the carried value as a script-level failure.
#[derive(Debug, PartialEq, Eq)]
pub enum PropertySlot {
    Data(JsValue),
    ThrowingGetter(JsValue),
}

impl Clone for PropertySlot {
    fn clone(&self) -> (r: Self)
        ensures
            r == *self,
    {
        match self {
            PropertySlot::Data(v) => PropertySlot::Data(v.clone()),
            PropertySlot::ThrowingGetter(v) => PropertySlot::ThrowingGetter(v.clone()),
        }
    }
}

/// One own property: its key, its slot, and its attributes.
#[derive(Debug, PartialEq, Eq)]
pub struct Property {
    pub key: String,
    pub slot: PropertySlot,
    pub attr: AttributeSet,
}

impl Clone for Property {
    fn clone(&self) -> (r: Self)
        ensures
            r == *self,
    {
        Property { key: self.key.clone(), slot: self.slot.clone(), attr: self.attr }
    }
}

/// The internal data tag: the runtime category of an object, independent of
/// its script-visible prototype. Set once at construction and never reset.
#[derive(Clone, Copy, Debug, PartialEq, Eq, Structural)]
pub enum ObjectTag {
    Ordinary,
    Error,
}

/// How an object coerces to a display string: either a fixed form, or a
/// raised script-level failure. The coercion algorithm itself is a
/// collaborator concern; the record only carries its outcome.
#[derive(Debug, PartialEq, Eq)]
pub enum ObjectDisplay {
    Converts(String),
    Raises(JsValue),
}

/// One object: prototype link, own properties, tag, constructability, and
/// display form.
#[derive(Debug, PartialEq, Eq)]
pub struct ObjectRecord {
    pub proto: Option<ObjRef>,
    pub props: Vec<Property>,
    pub tag: ObjectTag,
    pub constructable: bool,
    pub display: ObjectDisplay,
}

impl ObjectRecord {
    /// A freshly allocated plain object: no prototype, no own properties,
    /// the ordinary tag, not constructable, empty display form.
    pub open spec fn is_plain(self) -> bool {
        &&& self.proto is None
        &&& self.props@.len() == 0
        &&& self.tag is Ordinary
        &&& !self.constructable
        &&& self.display matches ObjectDisplay::Converts(s) && s@ == Seq::<char>::empty()
    }

    /// Builds a fresh plain object record.
    pub fn plain() -> (r: Self)
        ensures
            r.is_plain(),
    {
        ObjectRecord {
            proto: None,
            props: Vec::new(),
            tag: ObjectTag::Ordinary,
            constructable: false,
            display: ObjectDisplay::Converts(String::new()),
        }
    }
}

/// All property keys in `s` are distinct.
pub open spec fn keys_unique(s: Seq<Property>) -> bool {
    forall|i: int, j: int| 0 <= i < j < s.len() ==> s[i].key@ != s[j].key@
}

/// Some property in `s` has key `key`.
pub open spec fn has_own(s: Seq<Property>, key: Seq<char>) -> bool {
    exists|i: int| 0 <= i < s.len() && s[i].key@ == key
}

/// The index of the property with key `key` (meaningful when `has_own`).
pub open spec fn own_index(s: Seq<Property>, key: Seq<char>) -> int {
    choose|i: int| 0 <= i < s.len() && s[i].key@ == key
}

/// The property with key `key` (meaningful when `has_own`).
pub open spec fn own_prop(s: Seq<Property>, key: Seq<char>) -> Property {
    s[own_index(s, key)]
}

/// The own property of key `key`, if any.
pub open spec fn own_lookup(s: Seq<Property>, key: Seq<char>) -> Option<Property> {
    if has_own(s, key) {
        Some(own_prop(s, key))
    } else {
        None
    }
}

/// Key `k` occurs among the listed keys `ks`.
pub open spec fn key_listed(ks: Seq<String>, k: Seq<char>) -> bool {
    exists|i: int| 0 <= i < ks.len() && ks[i]@ == k
}

/// The realm's object heap.
#[derive(Debug)]
pub struct ObjectHeap {
    pub objects: Vec<ObjectRecord>,
}

impl ObjectHeap {
    /// The number of objects allocated so far.
    pub open spec fn spec_len(self) -> nat {
        self.objects@.len()
    }

    /// `r` refers to an allocated object.
    pub open spec fn has(self, r: int) -> bool {
        0 <= r < self.spec_len()
    }

    /// The record of object `r`.
    pub open spec fn obj(self, r: int) -> ObjectRecord {
        self.objects@[r]
    }

    /// Any object reference inside a data slot is allocated.
    pub open spec fn slot_value_ok(self, slot: PropertySlot) -> bool {
        slot matches PropertySlot::Data(JsValue::Object(q)) ==> q < self.spec_len()
    }

    /// An object reference carried by a value is allocated.
    pub open spec fn value_ok(self, v: JsValue) -> bool {
        v matches JsValue::Object(q) ==> q < self.spec_len()
    }

    /// Well-formedness of the record at `i`: the prototype link points
    /// strictly downwards, keys are distinct, and data slots refer only to
    /// allocated objects.
    pub open spec fn obj_wf(self, i: int) -> bool {
        &&& (self.obj(i).proto matches Some(p) ==> p < i)
        &&& keys_unique(self.obj(i).props@)
        &&& forall|j: int|
            0 <= j < self.obj(i).props@.len() ==> self.slot_value_ok(
                #[trigger] self.obj(i).props@[j].slot,
            )
    }

    /// Well-formedness of the whole heap.
    pub open spec fn wf(self) -> bool {
        forall|i: int| 0 <= i < self.spec_len() ==> #[trigger] self.obj_wf(i)
    }

    /// Property lookup along the prototype chain, starting at the own
    /// properties of `r`.
    pub open spec fn lookup(self, r: int, key: Seq<char>) -> Option<Property>
        decreases r,
    {
        if !self.has(r) {
            None
        } else if has_own(self.obj(r).props@, key) {
            Some(own_prop(self.obj(r).props@, key))
        } else {
            match self.obj(r).proto {
                Some(p) => if (p as int) < r {
                    self.lookup(p as int, key)
                } else {
                    None
                },
                None => None,
            }
        }
    }

    /// `target` appears among the strict prototype ancestors of `r`.
    pub open spec fn in_proto_chain(self, r: int, target: int) -> bool
        decreases r,
    {
        self.has(r) && match self.obj(r).proto {
            Some(p) => p == target || ((p as int) < r && self.in_proto_chain(p as int, target)),
            None => false,
        }
    }

    /// An empty heap.
    pub fn new() -> (h: Self)
        ensures
            h.spec_len() == 0,
            h.wf(),
    {
        ObjectHeap { objects: Vec::new() }
    }

    /// The number of allocated objects.
    pub fn len(&self) -> (n: usize)
        ensures
            n == self.spec_len(),
    {
        self.objects.len()
    }

    /// Allocates `o` at the next index and returns its reference.
    pub fn allocate(&mut self, o: ObjectRecord) -> (r: ObjRef)
        requires
            old(self).wf(),
            o.proto matches Some(p) ==> p < old(self).spec_len(),
            keys_unique(o.props@),
            forall|j: int|
                0 <= j < o.props@.len() ==> old(self).slot_value_ok(#[trigger] o.props@[j].slot),
        ensures
            final(self).objects@ == old(self).objects@.push(o),
            r == old(self).spec_len(),
            final(self).wf(),
    {
        let r = self.objects.len();
        self.objects.push(o);
        proof {
            assert forall|i: int| 0 <= i < self.spec_len() implies #[trigger] self.obj_wf(i) by {
                if i < old(self).spec_len() {
                    assert(old(self).obj_wf(i));
                    assert(self.obj(i) == old(self).obj(i));
                    assert forall|j: int|
                        0 <= j < self.obj(i).props@.len() implies self.slot_value_ok(
                        #[trigger] self.obj(i).props@[j].slot,
                    ) by {
                        assert(old(self).slot_value_ok(old(self).obj(i).props@[j].slot));
                    }
                } else {
                    assert(self.obj(i) == o);
                    assert forall|j: int|
                        0 <= j < self.obj(i).props@.len() implies self.slot_value_ok(
                        #[trigger] self.obj(i).props@[j].slot,
                    ) by {
                        assert(old(self).slot_value_ok(o.props@[j].slot));
                    }
                }
            }
        }
        r
    }

    /// Sets the internal prototype link of `r` to `p`. The link must point
    /// strictly downwards, which keeps every chain finite and cycle-free; a
    /// link that would close a cycle is a host invariant violation and is
    /// excluded outright.
    pub fn set_prototype(&mut self, r: ObjRef, p: ObjRef)
        requires
            old(self).wf(),
            old(self).has(r as int),
            p < r,
        ensures
            final(self).spec_len() == old(self).spec_len(),
            final(self).obj(r as int) == (ObjectRecord {
                proto: Some(p),
                ..old(self).obj(r as int)
            }),
            forall|i: int|
                0 <= i < old(self).spec_len() && i != r ==> final(self).obj(i) == old(self).obj(
                    i,
                ),
            final(self).wf(),
    {
        let rec = vec_index_mut(&mut self.objects, r);
        rec.proto = Some(p);
        proof {
            assert forall|i: int| 0 <= i < self.spec_len() implies #[trigger] self.obj_wf(i) by {
                assert(old(self).obj_wf(i));
                if i != r {
                    assert(self.obj(i) == old(self).obj(i));
                }
                assert forall|j: int|
                    0 <= j < self.obj(i).props@.len() implies self.slot_value_ok(
                    #[trigger] self.obj(i).props@[j].slot,
                ) by {
                    assert(old(self).slot_value_ok(old(self).obj(i).props@[j].slot));
                }
            }
        }
    }

    /// Marks `r` as usable (or not) as a constructor in `new`-style calls.
    pub fn set_constructable(&mut self, r: ObjRef, c: bool)
        requires
            old(self).wf(),
            old(self).has(r as int),
        ensures
            final(self).spec_len() == old(self).spec_len(),
            final(self).obj(r as int) == (ObjectRecord {
                constructable: c,
                ..old(self).obj(r as int)
            }),
            forall|i: int|
                0 <= i < old(self).spec_len() && i != r ==> final(self).obj(i) == old(self).obj(
                    i,
                ),
            final(self).wf(),
    {
        let rec = vec_index_mut(&mut self.objects, r);
        rec.constructable = c;
        proof {
            assert forall|i: int| 0 <= i < self.spec_len() implies #[trigger] self.obj_wf(i) by {
                assert(old(self).obj_wf(i));
                if i != r {
                    assert(self.obj(i) == old(self).obj(i));
                }
                assert forall|j: int|
                    0 <= j < self.obj(i).props@.len() implies self.slot_value_ok(
                    #[trigger] self.obj(i).props@[j].slot,
                ) by {
                    assert(old(self).slot_value_ok(old(self).obj(i).props@[j].slot));
                }
            }
        }
    }

    /// The own property of `r` with key `key`, if any.
    pub fn get_own_property(&self, r: ObjRef, key: &String) -> (res: Option<Property>)
        requires
            self.wf(),
            self.has(r as int),
        ensures
            res == own_lookup(self.obj(r as int).props@, key@),
    {
        proof {
            assert(self.obj_wf(r as int));
        }
        let props = &self.objects[r].props;
        let ghost s = self.obj(r as int).props@;
        let n = props.len();
        let mut i: usize = 0;
        while i < n
            invariant
                self.wf(),
                self.has(r as int),
                s == self.obj(r as int).props@,
                n == s.len(),
                props@ == s,
                i <= n,
                keys_unique(s),
                forall|j: int| 0 <= j < i ==> s[j].key@ != key@,
            decreases n - i,
        {
            if props[i].key == *key {
                proof {
                    assert(s[i as int].key@ == key@);
                    assert(has_own(s, key@));
                    let w = own_index(s, key@);
                    assert(0 <= w < s.len() && s[w].key@ == key@);
                    if w != i as int {
                        assert(s[w].key@ != s[i as int].key@);
                    }
                    assert(own_prop(s, key@) == s[i as int]);
                }
                return Some(props[i].clone());
            }
            i += 1;
        }
        proof {
            assert(!has_own(s, key@));
        }
        None
    }

    /// Property lookup along the prototype chain, exactly `lookup`.
    pub fn lookup_property(&self, r: ObjRef, key: &String) -> (res: Option<Property>)
        requires
            self.wf(),
            self.has(r as int),
        ensures
            res == self.lookup(r as int, key@),
    {
        let mut cur = r;
        loop
            invariant
                self.wf(),
                self.has(cur as int),
                self.lookup(cur as int, key@) == self.lookup(r as int, key@),
            decreases cur,
        {
            let own = self.get_own_property(cur, key);
            if own.is_some() {
                return own;
            }
            proof {
                assert(self.obj_wf(cur as int));
            }
            match self.objects[cur].proto {
                Some(p) => {
                    cur = p;
                },
                None => {
                    return None;
                },
            }
        }
    }

    /// Defines (or, when the key is already present and configurable,
    /// redefines) an own property of `r`. Redefinition of a non-configurable
    /// property is excluded: attribute bits are immutable once defined unless
    /// the property is configurable.
    pub fn define_property(&mut self, r: ObjRef, prop: Property)
        requires
            old(self).wf(),
            old(self).has(r as int),
            old(self).slot_value_ok(prop.slot),
            has_own(old(self).obj(r as int).props@, prop.key@) ==> own_prop(
                old(self).obj(r as int).props@,
                prop.key@,
            ).attr.configurable,
        ensures
            final(self).spec_len() == old(self).spec_len(),
            forall|i: int|
                0 <= i < old(self).spec_len() && i != r ==> final(self).obj(i) == old(self).obj(
                    i,
                ),
            final(self).obj(r as int).proto == old(self).obj(r as int).proto,
            final(self).obj(r as int).tag == old(self).obj(r as int).tag,
            final(self).obj(r as int).constructable == old(self).obj(r as int).constructable,
            final(self).obj(r as int).display == old(self).obj(r as int).display,
            final(self).obj(r as int).props@ == (if has_own(
                old(self).obj(r as int).props@,
                prop.key@,
            ) {
                old(self).obj(r as int).props@.update(
                    own_index(old(self).obj(r as int).props@, prop.key@),
                    prop,
                )
            } else {
                old(self).obj(r as int).props@.push(prop)
            }),
            final(self).wf(),
    {
        proof {
            assert(old(self).obj_wf(r as int));
        }
        let ghost s = old(self).obj(r as int).props@;
        let found = self.find_own_index(r, &prop.key);
        let rec = vec_index_mut(&mut self.objects, r);
        match found {
            Some(i) => {
                proof {
                    assert(has_own(s, prop.key@));
                    let w = own_index(s, prop.key@);
                    assert(0 <= w < s.len() && s[w].key@ == prop.key@);
                    if w != i as int {
                        assert(s[w].key@ != s[i as int].key@);
                    }
                }
                let el = vec_index_mut(&mut rec.props, i);
                *el = prop;
            },
            None => {
                proof {
                    assert(!has_own(s, prop.key@));
                }
                rec.props.push(prop);
            },
        }
        proof {
            let t = self.obj(r as int).props@;
            assert forall|i: int, j: int| 0 <= i < j < t.len() implies t[i].key@ != t[j].key@ by {
                if has_own(s, prop.key@) {
                    let w = own_index(s, prop.key@);
                    assert(t =~= s.update(w, prop));
                    assert(t[w].key@ == s[w].key@);
                } else {
                    assert(t =~= s.push(prop));
                    if j == t.len() - 1 {
                        assert(t[j].key@ == prop.key@);
                        assert(s[i].key@ != prop.key@);
                    }
                }
            }
            assert forall|i: int| 0 <= i < self.spec_len() implies #[trigger] self.obj_wf(i) by {
                assert(old(self).obj_wf(i));
                if i != r {
                    assert(self.obj(i) == old(self).obj(i));
                    assert forall|j: int|
                        0 <= j < self.obj(i).props@.len() implies self.slot_value_ok(
                        #[trigger] self.obj(i).props@[j].slot,
                    ) by {
                        assert(old(self).slot_value_ok(old(self).obj(i).props@[j].slot));
                    }
                } else {
                    let t = self.obj(r as int).props@;
                    assert forall|j: int|
                        0 <= j < t.len() implies self.slot_value_ok(#[trigger] t[j].slot) by {
                        if 0 <= j < s.len() && t[j] == s[j] {
                            assert(old(self).slot_value_ok(s[j].slot));
                        } else {
                            assert(t[j] == prop);
                            assert(old(self).slot_value_ok(prop.slot));
                        }
                    }
                }
            }
        }
    }

    /// Walks the prototype chain of `r` and reports whether `target` is a
    /// strict ancestor — the `instanceof` reachability test.
    pub fn is_in_prototype_chain(&self, r: ObjRef, target: ObjRef) -> (res: bool)
        requires
            self.wf(),
            self.has(r as int),
        ensures
            res == self.in_proto_chain(r as int, target as int),
    {
        let mut cur = r;
        loop
            invariant
                self.wf(),
                self.has(cur as int),
                self.in_proto_chain(cur as int, target as int) == self.in_proto_chain(
                    r as int,
                    target as int,
                ),
            decreases cur,
        {
            proof {
                assert(self.obj_wf(cur as int));
            }
            match self.objects[cur].proto {
                Some(p) => {
                    if p == target {
                        return true;
                    }
                    cur = p;
                },
                None => {
                    return false;
                },
            }
        }
    }

    /// The own keys of `r` intended for enumeration: exactly those of the
    /// own properties whose attributes carry the enumerable facet.
    pub fn own_enumerable_keys(&self, r: ObjRef) -> (res: Vec<String>)
        requires
            self.wf(),
            self.has(r as int),
        ensures
            forall|k: Seq<char>|
                #[trigger] key_listed(res@, k) <==> (has_own(self.obj(r as int).props@, k)
                    && own_prop(self.obj(r as int).props@, k).attr.enumerable),
    {
        proof {
            assert(self.obj_wf(r as int));
        }
        let props = &self.objects[r].props;
        let ghost s = self.obj(r as int).props@;
        let n = props.len();
        let mut out: Vec<String> = Vec::new();
        let mut i: usize = 0;
        while i < n
            invariant
                self.wf(),
                self.has(r as int),
                s == self.obj(r as int).props@,
                n == s.len(),
                props@ == s,
                i <= n,
                keys_unique(s),
                forall|k: Seq<char>|
                    #[trigger] key_listed(out@, k) <==> exists|j: int|
                        0 <= j < i && s[j].key@ == k && s[j].attr.enumerable,
            decreases n - i,
        {
            let ghost out0 = out@;
            if props[i].attr.is_enumerable() {
                out.push(props[i].key.clone());
                proof {
                    assert forall|k: Seq<char>| #[trigger] key_listed(out@, k) implies exists|
                        j: int,
                    |
                        0 <= j < i + 1 && s[j].key@ == k && s[j].attr.enumerable by {
                        let w = choose|w: int| 0 <= w < out@.len() && out@[w]@ == k;
                        if w < out0.len() {
                            assert(key_listed(out0, k));
                        } else {
                            assert(out@[w]@ == s[i as int].key@);
                            assert(0 <= i < i + 1 && s[i as int].key@ == k && s[
                                i as int
                            ].attr.enumerable);
                        }
                    }
                    assert forall|k: Seq<char>|
                        exists|j: int|
                            0 <= j < i + 1 && s[j].key@ == k
                                && s[j].attr.enumerable implies #[trigger] key_listed(
                        out@,
                        k,
                    ) by {
                        let j = choose|j: int|
                            0 <= j < i + 1 && s[j].key@ == k && s[j].attr.enumerable;
                        if j < i {
                            assert(key_listed(out0, k));
                            let w = choose|w: int| 0 <= w < out0.len() && out0[w]@ == k;
                            assert(out@[w]@ == k);
                        } else {
                            assert(out@[out@.len() - 1]@ == k);
                        }
                    }
                }
            } else {
                proof {
                    assert forall|k: Seq<char>|
                        exists|j: int|
                            0 <= j < i + 1 && s[j].key@ == k
                                && s[j].attr.enumerable implies #[trigger] key_listed(
                        out@,
                        k,
                    ) by {
                        let j = choose|j: int|
                            0 <= j < i + 1 && s[j].key@ == k && s[j].attr.enumerable;
                        assert(j < i);
                    }
                }
            }
            i += 1;
        }
        proof {
            assert forall|k: Seq<char>| #[trigger] key_listed(out@, k) implies (has_own(s, k)
                && own_prop(s, k).attr.enumerable) by {
                let j = choose|j: int| 0 <= j < n && s[j].key@ == k && s[j].attr.enumerable;
                assert(0 <= j < s.len() && s[j].key@ == k);
                assert(has_own(s, k));
                let w = own_index(s, k);
                assert(0 <= w < s.len() && s[w].key@ == k);
                if w != j {
                    assert(s[w].key@ != s[j].key@);
                }
            }
            assert forall|k: Seq<char>|
                has_own(s, k) && own_prop(s, k).attr.enumerable implies #[trigger] key_listed(
                out@,
                k,
            ) by {
                let w = own_index(s, k);
                assert(0 <= w < s.len() && s[w].key@ == k);
                assert(0 <= w < n && s[w].key@ == k && s[w].attr.enumerable);
            }
        }
        out
    }

    /// The index of the own property of `r` with key `key`, if any.
    fn find_own_index(&self, r: ObjRef, key: &String) -> (res: Option<usize>)
        requires
            self.wf(),
            self.has(r as int),
        ensures
            match res {
                Some(i) => has_own(self.obj(r as int).props@, key@) && i == own_index(
                    self.obj(r as int).props@,
                    key@,
                ),
                None => !has_own(self.obj(r as int).props@, key@),
            },
    {
        proof {
            assert(self.obj_wf(r as int));
        }
        let props = &self.objects[r].props;
        let ghost s = self.obj(r as int).props@;
        let n = props.len();
        let mut i: usize = 0;
        while i < n
            invariant
                self.wf(),
                self.has(r as int),
                s == self.obj(r as int).props@,
                n == s.len(),
                props@ == s,
                i <= n,
                keys_unique(s),
                forall|j: int| 0 <= j < i ==> s[j].key@ != key@,
            decreases n - i,
        {
            if props[i].key == *key {
                proof {
                    assert(s[i as int].key@ == key@);
                    assert(has_own(s, key@));
                    let w = own_index(s, key@);
                    assert(0 <= w < s.len() && s[w].key@ == key@);
                    if w != i as int {
                        assert(s[w].key@ != s[i as int].key@);
                    }
                }
                return Some(i);
            }
            i += 1;
        }
        None
    }
}

} // verus!
