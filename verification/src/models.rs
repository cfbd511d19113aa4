//! The internal account record and its role enumeration, as this layer reads
//! them from the persistence layer.

use vstd::prelude::*;

verus! {

/// Internal account roles. Only `Admin` and `User` may be assigned through a
/// role update; `Moderator` is representable but reserved, and rejected as
/// update input.
#[derive(Debug, Clone, Copy, PartialEq, Eq, Structural)]
pub enum UserRole {
    Admin,
    Moderator,
    User,
}

/// The canonical lowercase spelling of a role on the wire.
pub open spec fn spec_role_str(r: UserRole) -> Seq<char> {
    match r {
        UserRole::Admin => "admin"@,
        UserRole::Moderator => "moderator"@,
        UserRole::User => "user"@,
    }
}

impl UserRole {
    /// Render the role in its canonical lowercase form.
    pub fn to_str(&self) -> (r: &'static str)
        ensures
            r@ == spec_role_str(*self),
    {
        match self {
            UserRole::Admin => "admin",
            UserRole::Moderator => "moderator",
            UserRole::User => "user",
        }
    }
}

/// A point in time as the persistence layer records it: seconds since the
/// Unix epoch plus a subsecond nanosecond part.
#[derive(Debug, Clone, Copy, PartialEq, Eq, Structural)]
pub struct Timestamp {
    pub secs: i64,
    pub nanos: u32,
}

/// An internal user record as stored. `password` is the opaque secret: the
/// projector must never copy it past this boundary. The audit timestamps are
/// optional here because storage may hand back a record without them; such a
/// record is rejected at projection time.
#[derive(Debug, Clone)]
pub struct User {
    pub id: String,
    pub name: String,
    pub email: String,
    pub role: UserRole,
    pub verified: bool,
    pub password: String,
    pub created_at: Option<Timestamp>,
    pub updated_at: Option<Timestamp>,
}

} // verus!
