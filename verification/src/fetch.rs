//! The cache-side pieces of a simulated user fetch: looking a user up in a
//! cache map, building the mock record a fetch returns, and storing it back.
//! Locking the cache and waiting out the simulated network delay are I/O
//! concerns and stay with the caller.

use vstd::prelude::*;
use vstd::string::StringExecFns;

use std::collections::HashMap;

use crate::text::{decimal_digits, push_decimal};
use crate::user::{User, UserRole};

verus! {

broadcast use vstd::std_specs::hash::group_hash_axioms;

/// Look up `id` in the cache map; what comes back has the model of the
/// cached record.
pub fn cache_lookup(cache: &HashMap<u64, User>, id: u64) -> (r: Option<User>)
    ensures
        match r {
            Some(user) => cache@.contains_key(id) && user@ == cache@[id]@,
            None => !cache@.contains_key(id),
        },
{
    match cache.get(&id) {
        Some(user) => Some(user.clone()),
        None => None,
    }
}

/// Store `user` in the cache map under its own identifier.
pub fn cache_store(cache: &mut HashMap<u64, User>, user: User)
    ensures
        final(cache)@ == old(cache)@.insert(user@.id, user),
{
    let id = user.id();
    cache.insert(id, user);
}

/// The placeholder record a fetch returns for `id` when the cache has no
/// entry: name `User <id>`, email `user<id>@example.com`, default role,
/// no metadata.
pub fn mock_user(id: u64) -> (user: User)
    ensures
        user@.id == id,
        user@.name == "User "@ + decimal_digits(id as nat),
        user@.email == "user"@ + decimal_digits(id as nat) + "@example.com"@,
        user@.role == UserRole::User,
        user@.metadata == Map::<Seq<char>, Seq<char>>::empty(),
{
    let mut name = "User ".to_owned();
    push_decimal(&mut name, id);
    let mut email = "user".to_owned();
    push_decimal(&mut email, id);
    email.append("@example.com");
    User::new(id, name, email)
}

} // verus!
