//! Users, with and without their credentials.

use vstd::prelude::*;

verus! {

/// The fields from which a bare user row is created.
#[derive(Debug, PartialEq, Eq)]
pub struct CreateUser {
    pub username: String,
    pub email: String,
}

/// A user as shown to callers: never with the password hash.
#[derive(Debug, PartialEq, Eq)]
pub struct User {
    pub id: i32,
    pub username: String,
    pub email: String,
}

/// A user as the credential store holds it.
#[derive(Debug, PartialEq, Eq)]
pub struct UserWithPassword {
    pub id: i32,
    pub username: String,
    pub email: String,
    pub password: String,
}

/// The mathematical value of a [`User`].
pub struct UserView {
    pub id: i32,
    pub username: Seq<char>,
    pub email: Seq<char>,
}

impl View for User {
    type V = UserView;

    open spec fn view(&self) -> UserView {
        UserView { id: self.id, username: self.username@, email: self.email@ }
    }
}

impl UserWithPassword {
    /// The public part of the record.
    pub open spec fn public(self) -> UserView {
        UserView { id: self.id, username: self.username@, email: self.email@ }
    }

    /// The record without its password hash.
    pub fn to_user(&self) -> (user: User)
        ensures
            user@ == self.public(),
    {
        User { id: self.id, username: self.username.clone(), email: self.email.clone() }
    }
}

impl User {
    /// A copy of the user.
    pub fn duplicate(&self) -> (copy: User)
        ensures
            copy@ == self@,
    {
        User { id: self.id, username: self.username.clone(), email: self.email.clone() }
    }
}

} // verus!
