//! User records: a role tag, the record itself, and its mathematical model.

use vstd::prelude::*;
use vstd::string::StringExecFns;

use crate::text::{decimal_digits, push_decimal};

verus! {

/// Role tag attached to a user record.
#[derive(Debug, Clone, Copy, PartialEq, Eq, Structural)]
pub enum UserRole {
    Admin,
    User,
    Guest,
}

/// One metadata key/value pair; a user's map view folds these up in order.
#[derive(Debug)]
pub struct MetaEntry {
    pub key: String,
    pub value: String,
}

/// Mathematical model of a user record.
pub ghost struct UserModel {
    pub id: u64,
    pub name: Seq<char>,
    pub email: Seq<char>,
    pub role: UserRole,
    pub metadata: Map<Seq<char>, Seq<char>>,
}

/// The map that a sequence of metadata entries denotes; a later entry for a
/// key overrides an earlier one.
pub open spec fn meta_map(entries: Seq<MetaEntry>) -> Map<Seq<char>, Seq<char>>
    decreases entries.len(),
{
    if entries.len() == 0 {
        Map::empty()
    } else {
        meta_map(entries.drop_last()).insert(entries.last().key@, entries.last().value@)
    }
}

/// A user record: identifier, display name, email, role, and metadata.
#[derive(Debug)]
pub struct User {
    pub id: u64,
    pub name: String,
    pub email: String,
    pub role: UserRole,
    metadata: Vec<MetaEntry>,
}

impl View for User {
    type V = UserModel;

    closed spec fn view(&self) -> UserModel {
        UserModel {
            id: self.id,
            name: self.name@,
            email: self.email@,
            role: self.role,
            metadata: meta_map(self.metadata@),
        }
    }
}

impl User {
    /// Create a new user with the given details; the role defaults to
    /// `UserRole::User` and the metadata map starts empty.
    pub fn new(id: u64, name: String, email: String) -> (user: Self)
        ensures
            user@.id == id,
            user@.name == name@,
            user@.email == email@,
            user@.role == UserRole::User,
            user@.metadata == Map::<Seq<char>, Seq<char>>::empty(),
    {
        Self { id, name, email, role: UserRole::User, metadata: Vec::new() }
    }

    /// Create an admin user: as `new`, but with the admin role.
    pub fn admin(id: u64, name: String, email: String) -> (user: Self)
        ensures
            user@.id == id,
            user@.name == name@,
            user@.email == email@,
            user@.role == UserRole::Admin,
            user@.metadata == Map::<Seq<char>, Seq<char>>::empty(),
    {
        let mut user = Self::new(id, name, email);
        user.role = UserRole::Admin;
        user
    }

    /// Check whether the user holds the admin role.
    pub fn is_admin(&self) -> (r: bool)
        ensures
            r == (self@.role == UserRole::Admin),
    {
        self.role == UserRole::Admin
    }

    /// Add a metadata key/value pair; a repeated key takes the newest value.
    pub fn with_metadata(self, key: String, value: String) -> (user: Self)
        ensures
            user@.id == self@.id,
            user@.name == self@.name,
            user@.email == self@.email,
            user@.role == self@.role,
            user@.metadata == self@.metadata.insert(key@, value@),
    {
        let ghost before = self.metadata@;
        let ghost key_view = key@;
        let ghost value_view = value@;
        let mut user = self;
        user.metadata.push(MetaEntry { key, value });
        proof {
            assert(user.metadata@.drop_last() =~= before);
            assert(user.metadata@.last().key@ == key_view);
            assert(user.metadata@.last().value@ == value_view);
        }
        user
    }

    /// The identifier, as the model has it.
    pub fn id(&self) -> (id: u64)
        ensures
            id == self@.id,
    {
        self.id
    }

    /// The text that `describe` renders: the identifier in decimal, the name,
    /// and the email in angle brackets.
    pub open spec fn describe_view(&self) -> Seq<char> {
        "User("@ + decimal_digits(self@.id as nat) + ": "@ + self@.name + " <"@ + self@.email
            + ">)"@
    }

    /// Render the user as display text.
    pub fn describe(&self) -> (s: String)
        ensures
            s@ == self.describe_view(),
    {
        let mut s = "User(".to_owned();
        push_decimal(&mut s, self.id);
        s.append(": ");
        s.append(self.name.as_str());
        s.append(" <");
        s.append(self.email.as_str());
        s.append(">)");
        proof {
            assert(s@ =~= self.describe_view());
        }
        s
    }
}

/// Clone each entry of a metadata list; the denoted map is unchanged.
fn clone_meta(entries: &Vec<MetaEntry>) -> (res: Vec<MetaEntry>)
    ensures
        meta_map(res@) == meta_map(entries@),
{
    let mut res: Vec<MetaEntry> = Vec::new();
    let mut i: usize = 0;
    while i < entries.len()
        invariant
            i <= entries@.len(),
            res@.len() == i,
            meta_map(res@) == meta_map(entries@.take(i as int)),
        decreases entries@.len() - i,
    {
        let ghost res_before = res@;
        let entry = MetaEntry { key: entries[i].key.clone(), value: entries[i].value.clone() };
        res.push(entry);
        proof {
            assert(res@.drop_last() =~= res_before);
            assert(entries@.take(i + 1 as int).drop_last() =~= entries@.take(i as int));
            assert(entries@.take(i + 1 as int).last() == entries@[i as int]);
        }
        i = i + 1;
    }
    proof {
        assert(entries@.take(entries@.len() as int) =~= entries@);
    }
    res
}

impl Clone for User {
    /// Cloning a user preserves its model.
    fn clone(&self) -> (res: Self)
        ensures
            res@ == self@,
    {
        Self {
            id: self.id,
            name: self.name.clone(),
            email: self.email.clone(),
            role: self.role,
            metadata: clone_meta(&self.metadata),
        }
    }
}

} // verus!
