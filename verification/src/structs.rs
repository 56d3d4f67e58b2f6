//! Records, and how a new record is made from an old one.

use vstd::prelude::*;

verus! {

/// The profile of a user.
#[derive(Debug, PartialEq, Eq)]
pub struct User {
    pub active: bool,
    pub email: String,
    pub username: String,
    pub signin_count: u64,
}

/// A colour by its three channels.
#[derive(Clone, Copy, Debug, PartialEq, Eq, Structural)]
pub struct Color(pub i32, pub i32, pub i32);

/// A point by its three coordinates.
#[derive(Clone, Copy, Debug, PartialEq, Eq, Structural)]
pub struct Point(pub i32, pub i32, pub i32);

impl User {
    /// The same profile under another user name.
    pub fn with_username(self, username: String) -> (user: User)
        ensures
            user.username == username,
            user.active == self.active,
            user.email == self.email,
            user.signin_count == self.signin_count,
    {
        User { username, ..self }
    }

    /// The same profile with another mail address.
    pub fn with_email(self, email: String) -> (user: User)
        ensures
            user.email == email,
            user.active == self.active,
            user.username == self.username,
            user.signin_count == self.signin_count,
    {
        User { email, ..self }
    }

    /// The same profile, switched on or off.
    pub fn with_active(self, active: bool) -> (user: User)
        ensures
            user.active == active,
            user.email == self.email,
            user.username == self.username,
            user.signin_count == self.signin_count,
    {
        User { active, ..self }
    }

    /// The same profile with another number of sign-ins.
    pub fn with_signin_count(self, signin_count: u64) -> (user: User)
        ensures
            user.signin_count == signin_count,
            user.active == self.active,
            user.email == self.email,
            user.username == self.username,
    {
        User { signin_count, ..self }
    }
}

} // verus!
