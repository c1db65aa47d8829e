//! Identifiers that name an entity on both sides of a connection, and the
//! allocator that hands them out and finds the entity behind each.

use std::collections::HashMap;
use vstd::prelude::*;
use vstd::std_specs::convert::FromSpecImpl;

verus! {

broadcast use vstd::std_specs::hash::group_hash_axioms;

/// The identifier of an entity, the same on the server and on every client.
#[derive(Copy, Clone, Debug, PartialEq, Eq, Hash, Structural)]
pub struct Uid(pub u64);

/// The decimal digits of `id`, as `format!` prints them.
pub uninterp spec fn decimal(id: u64) -> Seq<char>;

/// `format!` with `{}` prints a `u64` in decimal.
#[verifier::external_body]
fn print_decimal(id: u64) -> (text: String)
    ensures
        text@ == decimal(id),
{
    format!("{}", id)
}

impl Uid {
    /// The number behind the identifier.
    pub fn id(&self) -> (id: u64)
        ensures
            id == self.0,
    {
        self.0
    }

    /// Takes over the state of `update`, the same identifier as it came from
    /// the peer. An identifier has no state beyond its number, so nothing
    /// changes.
    pub fn update(&mut self, update: Uid)
        requires
            old(self).0 == update.0,
        ensures
            *final(self) == *old(self),
    {
    }

    /// The identifier in decimal.
    pub fn to_string(&self) -> (text: String)
        ensures
            text@ == decimal(self.0),
    {
        print_decimal(self.0)
    }
}

impl From<Uid> for u64 {
    fn from(uid: Uid) -> (id: u64) {
        uid.0
    }
}

impl FromSpecImpl<Uid> for u64 {
    open spec fn obeys_from_spec() -> bool {
        true
    }

    open spec fn from_spec(uid: Uid) -> u64 {
        uid.0
    }
}

/// Hands out identifiers in rising order and remembers which entity, of type
/// `E`, each identifier names.
pub struct UidAllocator<E> {
    next: u64,
    mapping: HashMap<u64, E>,
}

/// The mapping that holds each of `live`, a later pair replacing an earlier
/// one with the same identifier.
pub open spec fn collected<E>(live: Seq<(u64, E)>) -> Map<u64, E>
    decreases live.len(),
{
    if live.len() == 0 {
        Map::empty()
    } else {
        collected(live.drop_last()).insert(live.last().0, live.last().1)
    }
}

impl<E: Copy> UidAllocator<E> {
    /// The identifier that the next allocation without a wish gets.
    pub closed spec fn next_id(&self) -> u64 {
        self.next
    }

    /// The entity behind each identifier in use.
    pub closed spec fn mapping(&self) -> Map<u64, E> {
        self.mapping@
    }

    /// An allocator that has handed out nothing.
    pub fn new() -> (allocator: Self)
        ensures
            allocator.next_id() == 0,
            allocator.mapping() == Map::<u64, E>::empty(),
    {
        UidAllocator { next: 0, mapping: HashMap::new() }
    }

    /// Names `entity`: by `id` where the peer has chosen one, else by the next
    /// identifier in line. The identifier then leads to `entity`, whatever it
    /// led to before.
    pub fn allocate(&mut self, entity: E, id: Option<u64>) -> (uid: Uid)
        requires
            id is None ==> old(self).next_id() < u64::MAX,
        ensures
            uid.0 == match id {
                Some(wish) => wish,
                None => old(self).next_id(),
            },
            final(self).next_id() == match id {
                Some(_) => old(self).next_id(),
                None => (old(self).next_id() + 1) as u64,
            },
            final(self).mapping() == old(self).mapping().insert(uid.0, entity),
    {
        let id: u64 = match id {
            Some(wish) => wish,
            None => {
                let fresh: u64 = self.next;
                self.next = self.next + 1;
                fresh
            },
        };
        self.mapping.insert(id, entity);
        Uid(id)
    }

    /// Whether an allocation without a wish can still be served.
    pub fn has_next(&self) -> (free: bool)
        ensures
            free == (self.next_id() < u64::MAX),
    {
        self.next < u64::MAX
    }

    /// The entity that `id` names, if it names one.
    pub fn retrieve_entity_internal(&self, id: u64) -> (entity: Option<E>)
        ensures
            entity == if self.mapping().contains_key(id) {
                Some(self.mapping()[id])
            } else {
                None
            },
    {
        match self.mapping.get(&id) {
            Some(entity) => Some(*entity),
            None => None,
        }
    }

    /// Forgets every entity and learns the mapping anew from `live`, the
    /// identifiers of the entities that exist now.
    pub fn maintain(&mut self, live: &Vec<(u64, E)>)
        ensures
            final(self).next_id() == old(self).next_id(),
            final(self).mapping() == collected(live@),
    {
        let mut mapping: HashMap<u64, E> = HashMap::new();
        let mut i: usize = 0;
        assert(live@.take(0) =~= Seq::<(u64, E)>::empty());
        while i < live.len()
            invariant
                i <= live@.len(),
                mapping@ == collected(live@.take(i as int)),
            decreases live@.len() - i,
        {
            let (id, entity) = live[i];
            mapping.insert(id, entity);
            assert(live@.take(i + 1).drop_last() =~= live@.take(i as int));
            i = i + 1;
        }
        assert(live@.take(i as int) =~= live@);
        self.mapping = mapping;
    }
}

} // verus!
