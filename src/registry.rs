//! A bidirectional, append-only mapping between namespaced names and dense
//! numeric IDs. ID 0 is reserved and never assigned.

use vstd::prelude::*;
use vstd::string::StringExecFns;

verus! {

/// The namespace of the game's own registry entries.
pub const GEOSIA_REGISTRY_DOMAIN: &'static str = "gs";

/// The namespace of the game's own registry entries, `"gs"`.
pub open spec fn geosia_ns() -> Seq<char> {
    seq!['g', 's']
}

/// What a registry name stands for: its namespace and its key.
pub type NameView = (Seq<char>, Seq<char>);

/// A namespaced registry name, the stable human-facing identity of an entry.
#[derive(Clone, PartialEq, Eq, PartialOrd, Ord, Hash, Debug, Default)]
pub struct RegistryName {
    pub ns: String,
    pub key: String,
}

impl View for RegistryName {
    type V = NameView;

    open spec fn view(&self) -> NameView {
        (self.ns@, self.key@)
    }
}

/// A borrowed registry name.
#[derive(Copy, Clone, PartialEq, Eq, PartialOrd, Ord, Hash, Debug)]
pub struct RegistryNameRef<'n> {
    pub ns: &'n str,
    pub key: &'n str,
}

impl<'n> View for RegistryNameRef<'n> {
    type V = NameView;

    open spec fn view(&self) -> NameView {
        (self.ns@, self.key@)
    }
}

impl RegistryName {
    /// A name in the game's own namespace.
    pub fn geosia(key: &str) -> (r: Self)
        ensures
            r@ == (geosia_ns(), key@),
    {
        proof {
            reveal_strlit("gs");
        }
        RegistryName { ns: GEOSIA_REGISTRY_DOMAIN.to_owned(), key: key.to_owned() }
    }

    /// The name written as `ns:key`.
    pub fn to_string(&self) -> (r: String)
        ensures
            r@ == self.ns@ + seq![':'] + self.key@,
    {
        proof {
            reveal_strlit(":");
        }
        let mut s = self.ns.clone();
        s.append(":");
        s.append(self.key.as_str());
        s
    }

    /// Borrows this name.
    pub fn as_ref(&self) -> (r: RegistryNameRef<'_>)
        ensures
            r@ == self@,
    {
        RegistryNameRef { ns: self.ns.as_str(), key: self.key.as_str() }
    }
}

impl<'a> RegistryNameRef<'a> {
    /// A borrowed name in the game's own namespace.
    pub fn geosia(key: &'a str) -> (r: Self)
        ensures
            r@ == (geosia_ns(), key@),
    {
        proof {
            reveal_strlit("gs");
        }
        RegistryNameRef { ns: GEOSIA_REGISTRY_DOMAIN, key }
    }

    /// The name written as `ns:key`.
    pub fn to_string(&self) -> (r: String)
        ensures
            r@ == self.ns@ + seq![':'] + self.key@,
    {
        proof {
            reveal_strlit(":");
        }
        let mut s = self.ns.to_owned();
        s.append(":");
        s.append(self.key);
        s
    }

    /// An owned copy of this name.
    pub fn to_owned(&self) -> (r: RegistryName)
        ensures
            r@ == self@,
    {
        RegistryName { ns: self.ns.to_owned(), key: self.key.to_owned() }
    }
}

/// A registry ID: a positive 32-bit integer.
#[derive(Copy, Clone, PartialEq, Eq, Structural, PartialOrd, Ord, Hash, Debug)]
pub struct RegistryId(u32);

/// The error of building a registry ID from 0.
#[derive(Copy, Clone, PartialEq, Eq, Structural, Debug)]
pub struct ZeroRegistryIdError;

impl View for RegistryId {
    type V = nat;

    closed spec fn view(&self) -> nat {
        self.0 as nat
    }
}

impl RegistryId {
    #[verifier::type_invariant]
    spec fn is_positive(self) -> bool {
        self.0 != 0
    }

    /// The ID with the given raw value; 0 is refused.
    pub fn try_from(value: u32) -> (r: Result<RegistryId, ZeroRegistryIdError>)
        ensures
            r is Ok <==> value != 0,
            r is Ok ==> r->Ok_0@ == value,
    {
        if value == 0 {
            Err(ZeroRegistryIdError)
        } else {
            Ok(RegistryId(value))
        }
    }

    /// The raw value, never 0.
    pub fn get(self) -> (r: u32)
        ensures
            r as nat == self@,
            r != 0,
    {
        proof {
            use_type_invariant(&self);
        }
        self.0
    }
}

/// Why a registry refused a change.
#[derive(Copy, Clone, PartialEq, Eq, Structural, Debug)]
pub enum RegistryError {
    /// Every 32-bit ID has been handed out.
    IdSpaceExhausted,
    /// An entry with that name exists already.
    DuplicateName,
    /// The ID slot is occupied already.
    DuplicateId,
}

/// An object that can be stored in a registry: it knows its own name.
pub trait RegistryObject {
    /// The object's name; it should be cheap and always the same.
    fn registry_name(&self) -> RegistryNameRef<'_>;
}

/// Index from registry names to raw IDs, held in a hashbrown map keyed by
/// `(namespace, key)`.
#[verifier::external_body]
pub struct NameIndex {
    map: hashbrown::HashMap<(String, String), u32>,
}

/// What a name index holds: the raw ID stored under each name.
pub uninterp spec fn name_index_contents(index: NameIndex) -> Map<NameView, u32>;

impl NameIndex {
    /// Relies on hashbrown::HashMap::with_capacity: a new map holds no entry.
    #[verifier::external_body]
    fn with_capacity(capacity: usize) -> (r: NameIndex)
        ensures
            name_index_contents(r) =~= Map::empty(),
    {
        NameIndex { map: hashbrown::HashMap::with_capacity(capacity) }
    }

    /// Relies on hashbrown::HashMap::get: the value stored under an equal key,
    /// if there is one.
    #[verifier::external_body]
    fn get(&self, name: RegistryNameRef) -> (r: Option<u32>)
        ensures
            r == (if name_index_contents(*self).dom().contains(name@) {
                Some(name_index_contents(*self)[name@])
            } else {
                None::<u32>
            }),
    {
        self.map.get(&(name.ns.to_owned(), name.key.to_owned())).copied()
    }

    /// Relies on hashbrown::HashMap::insert: afterwards the key maps to the
    /// value and every other key keeps its value.
    #[verifier::external_body]
    fn insert(&mut self, name: RegistryName, id: u32)
        ensures
            name_index_contents(*final(self)) == name_index_contents(*old(self)).insert(name@, id),
    {
        self.map.insert((name.ns, name.key), id);
    }
}

/// The allocation counter after an explicit insertion at `id`: moved past `id`
/// when needed, and held at `u32::MAX` once the ID space is used up.
pub open spec fn next_after_insert(next: nat, id: nat) -> nat {
    if id < next {
        next
    } else if id >= u32::MAX {
        u32::MAX as nat
    } else {
        id + 1
    }
}

/// A registry of objects, indexed both by a dense positive ID and by name.
pub struct Registry<Object> {
    next_free_id: u32,
    id_to_obj: Vec<Option<Object>>,
    name_to_id: NameIndex,
}

/// Fills `v` with empty slots up to length `len`.
fn extend_with_empty<Object>(v: &mut Vec<Option<Object>>, len: usize)
    requires
        old(v)@.len() <= len,
    ensures
        final(v)@.len() == len,
        forall|k: int| 0 <= k < old(v)@.len() ==> #[trigger] final(v)@[k] == old(v)@[k],
        forall|k: int| old(v)@.len() <= k < len ==> #[trigger] final(v)@[k] is None,
{
    while v.len() < len
        invariant
            old(v)@.len() <= v@.len() <= len,
            forall|k: int| 0 <= k < old(v)@.len() ==> #[trigger] v@[k] == old(v)@[k],
            forall|k: int| old(v)@.len() <= k < v@.len() ==> #[trigger] v@[k] is None,
        decreases len - v@.len(),
    {
        v.push(None);
    }
}

impl<Object> Registry<Object> {
    /// The next ID that allocation would hand out.
    pub closed spec fn next_id(&self) -> nat {
        self.next_free_id as nat
    }

    /// The stored objects, by ID.
    pub closed spec fn objects(&self) -> Map<nat, Object> {
        Map::new(
            |k: nat| k < self.id_to_obj@.len() && self.id_to_obj@[k as int] is Some,
            |k: nat| self.id_to_obj@[k as int]->Some_0,
        )
    }

    /// The IDs, by name.
    pub closed spec fn names(&self) -> Map<NameView, u32> {
        name_index_contents(self.name_to_id)
    }

    /// Slot 0 stays empty, every occupied ID lies below the allocation counter
    /// (unless the counter is exhausted), every name points at an occupied
    /// slot, every occupied slot has a name pointing at it, and no two names
    /// share an ID.
    pub closed spec fn wf(&self) -> bool {
        &&& self.id_to_obj@.len() >= 1
        &&& self.id_to_obj@[0] is None
        &&& self.next_free_id >= 1
        &&& forall|k: nat| #[trigger]
            self.objects().dom().contains(k) ==> k < self.next_free_id || self.next_free_id
                == u32::MAX
        &&& forall|n: NameView| #[trigger]
            self.names().dom().contains(n) ==> self.objects().dom().contains(
                self.names()[n] as nat,
            )
        &&& forall|k: nat| #[trigger]
            self.objects().dom().contains(k) ==> exists|n: NameView|
                self.names().dom().contains(n) && #[trigger] self.names()[n] as nat == k
        &&& forall|n1: NameView, n2: NameView|
            #![trigger self.names()[n1], self.names()[n2]]
            self.names().dom().contains(n1) && self.names().dom().contains(n2)
                && self.names()[n1] == self.names()[n2] ==> n1 == n2
    }

    /// The result of a successful `push` of `object` under `name` at `id`.
    pub open spec fn pushed(
        before: Registry<Object>,
        name: NameView,
        object: Object,
        id: nat,
        after: Registry<Object>,
    ) -> bool {
        &&& before.next_id() < u32::MAX
        &&& !before.names().dom().contains(name)
        &&& id == before.next_id()
        &&& after.next_id() == before.next_id() + 1
        &&& after.objects() == before.objects().insert(id, object)
        &&& after.names() == before.names().insert(name, id as u32)
    }

    /// The result of a successful insertion of `object` under `name` at `id`.
    pub open spec fn inserted(
        before: Registry<Object>,
        id: nat,
        name: NameView,
        object: Object,
        after: Registry<Object>,
    ) -> bool {
        &&& !before.objects().dom().contains(id)
        &&& !before.names().dom().contains(name)
        &&& after.next_id() == next_after_insert(before.next_id(), id)
        &&& after.objects() == before.objects().insert(id, object)
        &&& after.names() == before.names().insert(name, id as u32)
    }

    /// An empty registry whose first allocated ID is 1.
    pub fn new() -> (r: Self)
        ensures
            r.wf(),
            r.next_id() == 1,
            r.objects() == Map::<nat, Object>::empty(),
            r.names() == Map::<NameView, u32>::empty(),
    {
        let mut id_to_obj: Vec<Option<Object>> = Vec::new();
        id_to_obj.push(None);
        let r = Registry { next_free_id: 1, id_to_obj, name_to_id: NameIndex::with_capacity(64) };
        assert(r.objects() =~= Map::<nat, Object>::empty());
        assert(r.names() =~= Map::<NameView, u32>::empty());
        r
    }

    /// Hands out the next unused ID, or fails once the 32-bit space is used up.
    pub fn allocate_id(&mut self) -> (r: Result<RegistryId, RegistryError>)
        requires
            old(self).wf(),
        ensures
            final(self).wf(),
            r is Err <==> old(self).next_id() == u32::MAX,
            r is Err ==> r == Err::<RegistryId, RegistryError>(RegistryError::IdSpaceExhausted)
                && *final(self) == *old(self),
            r is Ok ==> r->Ok_0@ == old(self).next_id() && final(self).next_id() == old(
                self,
            ).next_id() + 1 && final(self).objects() == old(self).objects() && final(self).names()
                == old(self).names(),
    {
        if self.next_free_id == u32::MAX {
            return Err(RegistryError::IdSpaceExhausted);
        }
        let id = self.next_free_id;
        self.next_free_id = id + 1;
        assert(self.objects() =~= old(self).objects());
        assert(self.names() == old(self).names());
        assert forall|k: nat| #[trigger]
            self.objects().dom().contains(k) implies k < self.next_free_id || self.next_free_id
            == u32::MAX by {
            assert(old(self).objects().dom().contains(k));
        }
        assert forall|k: nat| #[trigger]
            self.objects().dom().contains(k) implies exists|n: NameView|
            self.names().dom().contains(n) && #[trigger] self.names()[n] as nat == k by {
            assert(old(self).objects().dom().contains(k));
        }
        Ok(RegistryId(id))
    }

    /// Stores `object` under `name` at a freshly allocated ID. Fails, leaving
    /// the registry unchanged, when the ID space is used up or the name is
    /// taken.
    pub fn push_object_named(&mut self, name: RegistryName, object: Object) -> (r: Result<
        RegistryId,
        RegistryError,
    >)
        requires
            old(self).wf(),
        ensures
            final(self).wf(),
            r is Ok <==> old(self).next_id() < u32::MAX && !old(self).names().dom().contains(
                name@,
            ),
            r == Err::<RegistryId, RegistryError>(RegistryError::IdSpaceExhausted) <==> old(
                self,
            ).next_id() == u32::MAX,
            r == Err::<RegistryId, RegistryError>(RegistryError::DuplicateName) <==> old(
                self,
            ).next_id() < u32::MAX && old(self).names().dom().contains(name@),
            r is Err ==> *final(self) == *old(self),
            r is Ok ==> Self::pushed(*old(self), name@, object, r->Ok_0@, *final(self)),
    {
        if self.next_free_id == u32::MAX {
            return Err(RegistryError::IdSpaceExhausted);
        }
        if self.name_to_id.get(name.as_ref()).is_some() {
            return Err(RegistryError::DuplicateName);
        }
        let ghost before = *self;
        let id = match self.allocate_id() {
            Ok(id) => id,
            Err(e) => {
                return Err(e);
            },
        };
        let raw_id = id.get() as usize;
        if self.id_to_obj.len() <= raw_id {
            let target: usize = if raw_id < usize::MAX - 32 {
                raw_id + 32
            } else {
                raw_id + 1
            };
            extend_with_empty(&mut self.id_to_obj, target);
        }
        assert(!before.objects().dom().contains(raw_id as nat));
        self.id_to_obj.set(raw_id, Some(object));
        self.name_to_id.insert(name, id.get());
        proof {
            assert(self.objects() =~= before.objects().insert(raw_id as nat, object));
            assert forall|k: nat| #[trigger]
                self.objects().dom().contains(k) implies k < self.next_free_id
                || self.next_free_id == u32::MAX by {
                if k != raw_id as nat {
                    assert(before.objects().dom().contains(k));
                }
            }
            assert forall|n: NameView| #[trigger]
                self.names().dom().contains(n) implies self.objects().dom().contains(
                self.names()[n] as nat,
            ) by {
                if n != name@ {
                    assert(before.names().dom().contains(n));
                }
            }
            assert forall|k: nat| #[trigger]
                self.objects().dom().contains(k) implies exists|n: NameView|
                self.names().dom().contains(n) && #[trigger] self.names()[n] as nat == k by {
                if k == raw_id as nat {
                    assert(self.names()[name@] as nat == k);
                } else {
                    assert(before.objects().dom().contains(k));
                    let n = choose|n: NameView|
                        before.names().dom().contains(n) && #[trigger] before.names()[n] as nat
                            == k;
                    assert(n != name@);
                    assert(self.names()[n] as nat == k);
                }
            }
            assert forall|n1: NameView, n2: NameView|
                #![trigger self.names()[n1], self.names()[n2]]
                self.names().dom().contains(n1) && self.names().dom().contains(n2)
                    && self.names()[n1] == self.names()[n2] implies n1 == n2 by {
                if n1 != name@ && self.names()[n1] == raw_id as u32 {
                    assert(before.names().dom().contains(n1));
                    assert(before.objects().dom().contains(before.names()[n1] as nat));
                }
                if n2 != name@ && self.names()[n2] == raw_id as u32 {
                    assert(before.names().dom().contains(n2));
                    assert(before.objects().dom().contains(before.names()[n2] as nat));
                }
            }
        }
        Ok(id)
    }

    /// Stores `object` under `name` at the given ID, as when a saved mapping is
    /// loaded again. Fails, leaving the registry unchanged, when the slot is
    /// occupied or the name is taken; on success the allocation counter is
    /// moved past `id`.
    pub fn insert_object_with_id_named(
        &mut self,
        id: RegistryId,
        name: RegistryName,
        object: Object,
    ) -> (r: Result<(), RegistryError>)
        requires
            old(self).wf(),
        ensures
            final(self).wf(),
            r == Err::<(), RegistryError>(RegistryError::DuplicateId) <==> old(
                self,
            ).objects().dom().contains(id@),
            r == Err::<(), RegistryError>(RegistryError::DuplicateName) <==> !old(
                self,
            ).objects().dom().contains(id@) && old(self).names().dom().contains(name@),
            r is Ok <==> !old(self).objects().dom().contains(id@) && !old(
                self,
            ).names().dom().contains(name@) && id@ < usize::MAX,
            r is Err ==> *final(self) == *old(self),
            r is Ok ==> Self::inserted(*old(self), id@, name@, object, *final(self)),
    {
        let raw = id.get();
        let raw_id = raw as usize;
        if raw_id < self.id_to_obj.len() {
            if self.id_to_obj[raw_id].is_some() {
                return Err(RegistryError::DuplicateId);
            }
        }
        if self.name_to_id.get(name.as_ref()).is_some() {
            return Err(RegistryError::DuplicateName);
        }
        if raw_id == usize::MAX {
            return Err(RegistryError::IdSpaceExhausted);
        }
        let ghost before = *self;
        assert(!before.objects().dom().contains(raw as nat));
        if self.id_to_obj.len() <= raw_id {
            let target: usize = if raw_id < usize::MAX - 32 {
                raw_id + 32
            } else {
                raw_id + 1
            };
            extend_with_empty(&mut self.id_to_obj, target);
        }
        if raw >= self.next_free_id {
            self.next_free_id = if raw == u32::MAX {
                u32::MAX
            } else {
                raw + 1
            };
        }
        self.id_to_obj.set(raw_id, Some(object));
        self.name_to_id.insert(name, raw);
        proof {
            assert(self.objects() =~= before.objects().insert(raw_id as nat, object));
            assert forall|k: nat| #[trigger]
                self.objects().dom().contains(k) implies k < self.next_free_id
                || self.next_free_id == u32::MAX by {
                if k != raw_id as nat {
                    assert(before.objects().dom().contains(k));
                }
            }
            assert forall|n: NameView| #[trigger]
                self.names().dom().contains(n) implies self.objects().dom().contains(
                self.names()[n] as nat,
            ) by {
                if n != name@ {
                    assert(before.names().dom().contains(n));
                }
            }
            assert forall|k: nat| #[trigger]
                self.objects().dom().contains(k) implies exists|n: NameView|
                self.names().dom().contains(n) && #[trigger] self.names()[n] as nat == k by {
                if k == raw_id as nat {
                    assert(self.names()[name@] as nat == k);
                } else {
                    assert(before.objects().dom().contains(k));
                    let n = choose|n: NameView|
                        before.names().dom().contains(n) && #[trigger] before.names()[n] as nat
                            == k;
                    assert(n != name@);
                    assert(self.names()[n] as nat == k);
                }
            }
            assert forall|n1: NameView, n2: NameView|
                #![trigger self.names()[n1], self.names()[n2]]
                self.names().dom().contains(n1) && self.names().dom().contains(n2)
                    && self.names()[n1] == self.names()[n2] implies n1 == n2 by {
                if n1 != name@ && self.names()[n1] == raw {
                    assert(before.names().dom().contains(n1));
                    assert(before.objects().dom().contains(before.names()[n1] as nat));
                }
                if n2 != name@ && self.names()[n2] == raw {
                    assert(before.names().dom().contains(n2));
                    assert(before.objects().dom().contains(before.names()[n2] as nat));
                }
                if n1 != name@ && n2 != name@ {
                    assert(before.names().dom().contains(n1));
                    assert(before.names().dom().contains(n2));
                    assert(before.names()[n1] == before.names()[n2]);
                }
            }
        }
        Ok(())
    }

    /// The ID and the object stored under `name`, if any.
    pub fn lookup_name_to_object(&self, name: RegistryNameRef) -> (r: Option<(RegistryId, &Object)>)
        requires
            self.wf(),
        ensures
            r is Some <==> self.names().dom().contains(name@),
            r is Some ==> r->Some_0.0@ == self.names()[name@] as nat && *r->Some_0.1
                == self.objects()[self.names()[name@] as nat],
    {
        match self.name_to_id.get(name) {
            None => None,
            Some(raw) => {
                assert(self.names().dom().contains(name@));
                assert(self.objects().dom().contains(raw as nat));
                match &self.id_to_obj[raw as usize] {
                    Some(obj) => Some((RegistryId(raw), obj)),
                    None => None,
                }
            },
        }
    }

    /// The object stored at `id`, if any.
    pub fn lookup_id_to_object(&self, id: RegistryId) -> (r: Option<&Object>)
        requires
            self.wf(),
        ensures
            r is Some <==> self.objects().dom().contains(id@),
            r is Some ==> *r->Some_0 == self.objects()[id@],
    {
        let raw_id = id.get() as usize;
        if raw_id < self.id_to_obj.len() {
            match &self.id_to_obj[raw_id] {
                Some(obj) => Some(obj),
                None => None,
            }
        } else {
            None
        }
    }
}

impl<Object: RegistryObject> Registry<Object> {
    /// Stores `object` under its own name at a freshly allocated ID. Fails,
    /// leaving the registry unchanged, when the ID space is used up or the
    /// name is taken.
    pub fn push_object(&mut self, object: Object) -> (r: Result<RegistryId, RegistryError>)
        requires
            old(self).wf(),
        ensures
            final(self).wf(),
            r == Err::<RegistryId, RegistryError>(RegistryError::IdSpaceExhausted) <==> old(
                self,
            ).next_id() == u32::MAX,
            r is Err ==> *final(self) == *old(self),
            r is Ok ==> exists|n: NameView| #[trigger]
                Self::pushed(*old(self), n, object, r->Ok_0@, *final(self)),
    {
        let name = object.registry_name().to_owned();
        self.push_object_named(name, object)
    }

    /// Stores `object` under its own name at the given ID. Fails, leaving the
    /// registry unchanged, when the slot is occupied or the name is taken.
    pub fn insert_object_with_id(&mut self, id: RegistryId, object: Object) -> (r: Result<
        (),
        RegistryError,
    >)
        requires
            old(self).wf(),
        ensures
            final(self).wf(),
            r == Err::<(), RegistryError>(RegistryError::DuplicateId) <==> old(
                self,
            ).objects().dom().contains(id@),
            r is Err ==> *final(self) == *old(self),
            r is Ok ==> exists|n: NameView| #[trigger]
                Self::inserted(*old(self), id@, n, object, *final(self)),
    {
        let name = object.registry_name().to_owned();
        self.insert_object_with_id_named(id, name, object)
    }
}

impl<Object> Default for Registry<Object> {
    fn default() -> (r: Self)
        ensures
            r.wf(),
            r.next_id() == 1,
            r.objects() == Map::<nat, Object>::empty(),
            r.names() == Map::<NameView, u32>::empty(),
    {
        Self::new()
    }
}

/// Once a name has been pushed, no later push of the same name can succeed.
pub proof fn lemma_second_push_of_name_fails<Object>(
    r0: Registry<Object>,
    name: NameView,
    first: Object,
    id: nat,
    r1: Registry<Object>,
)
    requires
        Registry::pushed(r0, name, first, id, r1),
    ensures
        r1.names().dom().contains(name),
        forall|second: Object, id2: nat, r2: Registry<Object>|
            !#[trigger] Registry::pushed(r1, name, second, id2, r2),
{
}

/// After an explicit insertion, the ID that a following push hands out is
/// neither the inserted ID nor any other occupied one.
pub proof fn lemma_push_after_insert_is_fresh<Object>(
    r0: Registry<Object>,
    id: nat,
    name: NameView,
    object: Object,
    r1: Registry<Object>,
    name2: NameView,
    object2: Object,
    id2: nat,
    r2: Registry<Object>,
)
    requires
        r0.wf(),
        r1.wf(),
        Registry::inserted(r0, id, name, object, r1),
        Registry::pushed(r1, name2, object2, id2, r2),
    ensures
        id2 != id,
        !r1.objects().dom().contains(id2),
{
    assert(r1.objects().dom().contains(id));
}

} // verus!
