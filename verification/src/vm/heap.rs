use vstd::prelude::*;

use crate::vm::value::{RefId, ReferenceValue, Value};
use crate::vm::VmError;

verus! {

/// No two objects of `s` have the same identity.
pub open spec fn ids_unique(s: Seq<ReferenceValue>) -> bool {
    forall|i: int, j: int|
        0 <= i < s.len() && 0 <= j < s.len() && #[trigger] s[i].spec_id() == #[trigger] s[j].spec_id()
            ==> i == j
}

/// True when some object of `s` has the identity `id`.
pub open spec fn has_id(s: Seq<ReferenceValue>, id: RefId) -> bool {
    exists|i: int| 0 <= i < s.len() && #[trigger] s[i].spec_id() == id
}

/// The objects of `s`, each found by its identity.
pub open spec fn object_map(s: Seq<ReferenceValue>) -> Map<RefId, ReferenceValue> {
    Map::new(
        |id: RefId| has_id(s, id),
        |id: RefId| s[choose|i: int| 0 <= i < s.len() && #[trigger] s[i].spec_id() == id],
    )
}

proof fn lemma_object_at(s: Seq<ReferenceValue>, i: int)
    requires
        ids_unique(s),
        0 <= i < s.len(),
    ensures
        object_map(s).contains_key(s[i].spec_id()),
        object_map(s)[s[i].spec_id()] == s[i],
{
    let id = s[i].spec_id();
    assert(has_id(s, id));
    let j = choose|j: int| 0 <= j < s.len() && #[trigger] s[j].spec_id() == id;
    assert(s[j].spec_id() == s[i].spec_id());
}

proof fn lemma_object_update(s: Seq<ReferenceValue>, i: int, o: ReferenceValue)
    requires
        ids_unique(s),
        0 <= i < s.len(),
        o.spec_id() == s[i].spec_id(),
    ensures
        ids_unique(s.update(i, o)),
        object_map(s.update(i, o)) == object_map(s).insert(o.spec_id(), o),
{
    let t = s.update(i, o);
    assert forall|x: int, y: int|
        0 <= x < t.len() && 0 <= y < t.len() && #[trigger] t[x].spec_id() == #[trigger] t[y].spec_id()
        implies x == y by {
        assert(s[x].spec_id() == t[x].spec_id());
        assert(s[y].spec_id() == t[y].spec_id());
    }
    assert forall|id: RefId| #[trigger] has_id(t, id) == has_id(s, id) by {
        if has_id(t, id) {
            let x = choose|x: int| 0 <= x < t.len() && #[trigger] t[x].spec_id() == id;
            assert(s[x].spec_id() == id);
        }
        if has_id(s, id) {
            let x = choose|x: int| 0 <= x < s.len() && #[trigger] s[x].spec_id() == id;
            assert(t[x].spec_id() == id);
        }
    }
    assert forall|id: RefId| #[trigger] object_map(t).contains_key(id) implies object_map(t)[id]
        == object_map(s).insert(o.spec_id(), o)[id] by {
        let x = choose|x: int| 0 <= x < t.len() && #[trigger] t[x].spec_id() == id;
        lemma_object_at(t, x);
        if x != i {
            assert(s[x] == t[x]);
            lemma_object_at(s, x);
        }
    }
    assert(object_map(t) =~= object_map(s).insert(o.spec_id(), o));
}

proof fn lemma_object_push(s: Seq<ReferenceValue>, o: ReferenceValue)
    requires
        ids_unique(s),
        !has_id(s, o.spec_id()),
    ensures
        ids_unique(s.push(o)),
        object_map(s.push(o)) == object_map(s).insert(o.spec_id(), o),
{
    let t = s.push(o);
    assert forall|x: int, y: int|
        0 <= x < t.len() && 0 <= y < t.len() && #[trigger] t[x].spec_id() == #[trigger] t[y].spec_id()
        implies x == y by {
        if x < s.len() && y < s.len() {
            assert(s[x].spec_id() == s[y].spec_id());
        } else if x < s.len() {
            assert(s[x].spec_id() == o.spec_id());
        } else if y < s.len() {
            assert(s[y].spec_id() == o.spec_id());
        }
    }
    assert forall|id: RefId| #[trigger] has_id(t, id) == (has_id(s, id) || id == o.spec_id()) by {
        if has_id(t, id) {
            let x = choose|x: int| 0 <= x < t.len() && #[trigger] t[x].spec_id() == id;
            if x < s.len() {
                assert(s[x].spec_id() == id);
            }
        }
        if has_id(s, id) {
            let x = choose|x: int| 0 <= x < s.len() && #[trigger] s[x].spec_id() == id;
            assert(t[x].spec_id() == id);
        }
        if id == o.spec_id() {
            assert(t[s.len() as int].spec_id() == id);
        }
    }
    assert forall|id: RefId| #[trigger] object_map(t).contains_key(id) implies object_map(t)[id]
        == object_map(s).insert(o.spec_id(), o)[id] by {
        let x = choose|x: int| 0 <= x < t.len() && #[trigger] t[x].spec_id() == id;
        lemma_object_at(t, x);
        if x < s.len() {
            assert(s[x] == t[x]);
            lemma_object_at(s, x);
        }
    }
    assert(object_map(t) =~= object_map(s).insert(o.spec_id(), o));
}

/// The objects of the machine, found by their identity.
pub struct Heap {
    objects: Vec<ReferenceValue>,
}

impl View for Heap {
    type V = Map<RefId, ReferenceValue>;

    closed spec fn view(&self) -> Map<RefId, ReferenceValue> {
        object_map(self.objects@)
    }
}

impl Heap {
    /// Each object is found under its own identity.
    pub closed spec fn wf(&self) -> bool {
        ids_unique(self.objects@)
    }

    /// What a consistent heap guarantees: every object is filed under its identity.
    pub proof fn lemma_wf(&self)
        requires
            self.wf(),
        ensures
            forall|id: RefId| #[trigger] self@.contains_key(id) ==> self@[id].spec_id() == id,
    {
        assert forall|id: RefId| #[trigger] self@.contains_key(id) implies self@[id].spec_id() == id by {
            let x = choose|x: int| 0 <= x < self.objects@.len() && #[trigger] self.objects@[x].spec_id() == id;
            lemma_object_at(self.objects@, x);
        }
    }

    /// A heap without objects.
    pub fn new() -> (r: Self)
        ensures
            r.wf(),
            r@ == Map::<RefId, ReferenceValue>::empty(),
    {
        let r = Heap { objects: Vec::new() };
        assert(r@ =~= Map::<RefId, ReferenceValue>::empty());
        r
    }

    /// The position of the object `id`, if there is one.
    fn find(&self, id: RefId) -> (r: Option<usize>)
        requires
            self.wf(),
        ensures
            match r {
                Some(i) => i < self.objects@.len() && self.objects@[i as int].spec_id() == id
                    && self@.contains_key(id) && self@[id] == self.objects@[i as int],
                None => !self@.contains_key(id),
            },
    {
        let mut i: usize = 0;
        while i < self.objects.len()
            invariant
                self.wf(),
                i <= self.objects@.len(),
                forall|j: int| 0 <= j < i ==> (#[trigger] self.objects@[j]).spec_id() != id,
            decreases self.objects@.len() - i,
        {
            if self.objects[i].id() == id {
                proof {
                    lemma_object_at(self.objects@, i as int);
                }
                return Some(i);
            }
            i = i + 1;
        }
        None
    }

    /// Files `object` under its identity, in place of any object filed there before.
    pub fn insert(&mut self, object: ReferenceValue)
        requires
            old(self).wf(),
        ensures
            final(self).wf(),
            final(self)@ == old(self)@.insert(object.spec_id(), object),
    {
        let ghost o = object;
        match self.find(object.id()) {
            Some(i) => {
                let ghost s = self.objects@;
                self.objects.set(i, object);
                proof {
                    lemma_object_update(s, i as int, o);
                }
            },
            None => {
                let ghost s = self.objects@;
                self.objects.push(object);
                proof {
                    lemma_object_push(s, o);
                }
            },
        }
    }

    /// The object `id`, or an error when there is none.
    pub fn resolve_object_by_id(&self, id: RefId) -> (r: Result<&ReferenceValue, VmError>)
        requires
            self.wf(),
        ensures
            match r {
                Ok(o) => self@.contains_key(id) && *o == self@[id],
                Err(e) => !self@.contains_key(id) && e is ValidationError,
            },
    {
        match self.find(id) {
            Some(i) => Ok(&self.objects[i]),
            None => Err(VmError::ValidationError("Object not found".to_string())),
        }
    }

    /// Sets the element `index` of the array `id`. The array must exist and hold that
    /// element, or the machine panics; that is left out by the precondition.
    pub fn set_element(&mut self, id: RefId, index: usize, value: Value)
        requires
            old(self).wf(),
            old(self)@.contains_key(id),
            old(self)@[id].spec_is_array(),
            index < old(self)@[id].components().len(),
        ensures
            final(self).wf(),
            final(self)@.dom() == old(self)@.dom(),
            ReferenceValue::updated(&old(self)@[id], &final(self)@[id], index as int, value),
            forall|other: RefId| other != id ==> #[trigger] final(self)@.index(other) == old(self)@.index(other),
    {
        match self.find(id) {
            Some(i) => {
                let ghost s = self.objects@;
                let mut object = self.objects.remove(i);
                object.set_element(index, value);
                self.objects.insert(i, object);
                proof {
                    assert(self.objects@ =~= s.update(i as int, object));
                    lemma_object_update(s, i as int, object);
                }
            },
            None => {},
        }
    }

    /// Sets the field `index` of the object `id`. The object must exist and have that
    /// field, or the machine panics; that is left out by the precondition.
    pub fn set_field(&mut self, id: RefId, index: usize, value: Value)
        requires
            old(self).wf(),
            old(self)@.contains_key(id),
            !old(self)@[id].spec_is_array(),
            index < old(self)@[id].components().len(),
        ensures
            final(self).wf(),
            final(self)@.dom() == old(self)@.dom(),
            ReferenceValue::updated(&old(self)@[id], &final(self)@[id], index as int, value),
            forall|other: RefId| other != id ==> #[trigger] final(self)@.index(other) == old(self)@.index(other),
    {
        match self.find(id) {
            Some(i) => {
                let ghost s = self.objects@;
                let mut object = self.objects.remove(i);
                object.set_field(index, value);
                self.objects.insert(i, object);
                proof {
                    assert(self.objects@ =~= s.update(i as int, object));
                    lemma_object_update(s, i as int, object);
                }
            },
            None => {},
        }
    }
}

/// An object filed into the heap is found under its identity, and every other identity
/// finds what it found before.
pub proof fn law_resolve_after_insert(
    before: Map<RefId, ReferenceValue>,
    after: Map<RefId, ReferenceValue>,
    object: ReferenceValue,
    other: RefId,
)
    requires
        after == before.insert(object.spec_id(), object),
        other != object.spec_id(),
    ensures
        after.contains_key(object.spec_id()),
        after[object.spec_id()] == object,
        after.contains_key(other) == before.contains_key(other),
        before.contains_key(other) ==> after[other] == before[other],
{
}

} // verus!
