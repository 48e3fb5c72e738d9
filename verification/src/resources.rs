//! Named, shared resources: meshes and materials are stored under a name
//! and handed out as reference-counted pointers.
use vstd::prelude::*;
use vstd::hash_map::StringHashMap;
use std::rc::Rc;

verus! {

/// Calls std's `Rc::clone`, which makes another pointer to the same
/// allocation: the value behind it is the same.
#[verifier::external_body]
fn rc_clone<T>(this: &Rc<T>) -> (res: Rc<T>)
    ensures
        res == *this,
{
    Rc::clone(this)
}

/// Resources stored by name.
#[verifier::reject_recursive_types(T)]
pub struct HashResource<T> {
    data: StringHashMap<Rc<T>>,
}

impl<T> HashResource<T> {
    /// The resources, by the characters of their names.
    pub closed spec fn resources(&self) -> Map<Seq<char>, Rc<T>> {
        self.data@
    }

    /// The names stored are finitely many, as in every hash map. (vstd
    /// states no finiteness of a `StringHashMap` by itself, so it is kept
    /// as the type's invariant.)
    #[verifier::type_invariant]
    spec fn names_are_finite(self) -> bool {
        self.data@.dom().finite()
    }

    /// No resources.
    pub fn new() -> (r: Self)
        ensures
            r.resources() == Map::<Seq<char>, Rc<T>>::empty(),
    {
        HashResource { data: StringHashMap::new() }
    }

    /// Stores `resource` under `name`, in place of what was stored there:
    /// the number of names grows by one where the name is new.
    pub fn insert(&mut self, name: &str, resource: T)
        ensures
            final(self).resources() == old(self).resources().insert(name@, Rc::new(resource)),
            final(self).resources().dom().finite(),
            final(self).resources().len() == old(self).resources().len() + if old(
                self,
            ).resources().contains_key(name@) {
                0nat
            } else {
                1nat
            },
    {
        proof {
            use_type_invariant(&*self);
        }
        let mut data = StringHashMap::new();
        std::mem::swap(&mut data, &mut self.data);
        data.insert(name.to_owned(), Rc::new(resource));
        self.data = data;
    }

    /// Whether a resource is stored under `name`.
    pub fn contains(&self, name: &str) -> (b: bool)
        ensures
            b == self.resources().contains_key(name@),
    {
        self.data.contains_key(name)
    }

    /// A new pointer to the resource stored under `name`.
    pub fn get_rc(&self, name: &str) -> (r: Rc<T>)
        requires
            self.resources().contains_key(name@),
        ensures
            r == self.resources()[name@],
    {
        let resource: &Rc<T> = self.data.get(name).unwrap();
        rc_clone(resource)
    }
}

/// What is read under a name is what was last stored under it; storing
/// under one name leaves the others as they were.
pub proof fn law_read_gives_back_write<T>(
    stored: Map<Seq<char>, Rc<T>>,
    name: Seq<char>,
    other: Seq<char>,
    value: Rc<T>,
)
    requires
        other != name,
    ensures
        stored.insert(name, value).contains_key(name),
        stored.insert(name, value)[name] == value,
        stored.insert(name, value).contains_key(other) == stored.contains_key(other),
        stored.contains_key(other) ==> stored.insert(name, value)[other] == stored[other],
{
}

} // verus!
