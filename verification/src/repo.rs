//! A keyed storage interface and its map-backed in-memory implementation.

use vstd::prelude::*;

use std::collections::HashMap;

use crate::error::AppError;
use crate::user::User;

verus! {

broadcast use vstd::std_specs::hash::group_hash_axioms;

/// Keyed storage of items of type `T`, modelled as a map from identifiers
/// to stored items. Each operation says exactly how it reads or changes
/// that map; none of them fails.
pub trait Repository<T: View>: Sized {
    /// The mapping from identifiers to stored items.
    spec fn model(&self) -> Map<u64, T>;

    /// The identifier under which an item is stored.
    spec fn key_of(item: &T) -> u64;

    /// Look up the item stored under `id`; what comes back has the model of
    /// the stored item.
    fn find_by_id(&self, id: u64) -> (r: Result<Option<T>, AppError>)
        ensures
            match r {
                Ok(Some(item)) => self.model().contains_key(id) && item@ == self.model()[id]@,
                Ok(None) => !self.model().contains_key(id),
                Err(_) => false,
            },
    ;

    /// Store `item` under its own identifier, replacing any previous item
    /// stored there.
    fn save(&mut self, item: T) -> (r: Result<(), AppError>)
        ensures
            r is Ok,
            final(self).model() == old(self).model().insert(Self::key_of(&item), item),
    ;

    /// Remove the item stored under `id`; report whether one was there.
    fn delete(&mut self, id: u64) -> (r: Result<bool, AppError>)
        ensures
            final(self).model() == old(self).model().remove(id),
            r == Ok::<bool, AppError>(old(self).model().contains_key(id)),
    ;
}

/// A map-backed store; entries live exactly as long as the store itself.
pub struct InMemoryRepository<T: Clone> {
    storage: HashMap<u64, T>,
    id_counter: u64,
}

impl<T: Clone> InMemoryRepository<T> {
    /// The mapping from identifiers to stored items.
    pub closed spec fn contents(&self) -> Map<u64, T> {
        self.storage@
    }

    /// Create an empty store.
    pub fn new() -> (repo: Self)
        ensures
            repo.contents() == Map::<u64, T>::empty(),
    {
        Self { storage: HashMap::new(), id_counter: 0 }
    }

    /// The number of stored items.
    pub fn len(&self) -> (n: usize)
        ensures
            n == self.contents().len(),
    {
        self.storage.len()
    }

    /// Whether the store holds no items.
    pub fn is_empty(&self) -> (b: bool)
        ensures
            b == self.contents().is_empty(),
    {
        self.storage.is_empty()
    }
}

impl<T: Clone> Default for InMemoryRepository<T> {
    /// An empty store, as `new` makes it.
    fn default() -> (repo: Self)
        ensures
            repo.contents() == Map::<u64, T>::empty(),
    {
        Self::new()
    }
}

impl Repository<User> for InMemoryRepository<User> {
    open spec fn model(&self) -> Map<u64, User> {
        self.contents()
    }

    open spec fn key_of(item: &User) -> u64 {
        item@.id
    }

    fn find_by_id(&self, id: u64) -> (r: Result<Option<User>, AppError>) {
        match self.storage.get(&id) {
            Some(user) => Ok(Some(user.clone())),
            None => Ok(None),
        }
    }

    fn save(&mut self, item: User) -> (r: Result<(), AppError>) {
        let id = item.id();
        self.storage.insert(id, item);
        Ok(())
    }

    fn delete(&mut self, id: u64) -> (r: Result<bool, AppError>) {
        Ok(self.storage.remove(&id).is_some())
    }
}

/// Law: saving an item and then looking up its identifier finds the saved
/// record; in particular its name is the name that was stored.
pub proof fn lemma_saved_user_is_found(m: Map<u64, User>, user: User)
    ensures
        m.insert(user@.id, user).contains_key(user@.id),
        m.insert(user@.id, user)[user@.id] == user,
        m.insert(user@.id, user)[user@.id]@.name == user@.name,
{
}

} // verus!
