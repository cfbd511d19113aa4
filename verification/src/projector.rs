//! Projection of internal user records into the external, secret-free view.

use vstd::prelude::*;

use crate::errors::ProjectionError;
use crate::models::{spec_role_str, Timestamp, User};

verus! {

/// The external view of a user: everything a client may see. There is no
/// password field; the secret cannot appear in any output built from this
/// type.
#[derive(Debug, Clone, PartialEq)]
pub struct FilterUserDto {
    pub id: String,
    pub name: String,
    pub email: String,
    pub role: String,
    pub verified: bool,
    pub created_at: Timestamp,
    pub updated_at: Timestamp,
}

/// Mathematical image of a `FilterUserDto`.
pub struct SpecFilterUser {
    pub id: Seq<char>,
    pub name: Seq<char>,
    pub email: Seq<char>,
    pub role: Seq<char>,
    pub verified: bool,
    pub created_at: Timestamp,
    pub updated_at: Timestamp,
}

impl DeepView for FilterUserDto {
    type V = SpecFilterUser;

    open spec fn deep_view(&self) -> SpecFilterUser {
        SpecFilterUser {
            id: self.id@,
            name: self.name@,
            email: self.email@,
            role: self.role@,
            verified: self.verified,
            created_at: self.created_at,
            updated_at: self.updated_at,
        }
    }
}

/// Whether a record carries both audit timestamps; projection is owed success
/// exactly on such records.
pub open spec fn spec_has_timestamps(u: User) -> bool {
    u.created_at is Some && u.updated_at is Some
}

/// The projection of a record that carries both audit timestamps. It reads
/// every field but the password secret, which it never touches.
pub open spec fn spec_filter_user(u: User) -> SpecFilterUser {
    SpecFilterUser {
        id: u.id@,
        name: u.name@,
        email: u.email@,
        role: spec_role_str(u.role),
        verified: u.verified,
        created_at: u.created_at->Some_0,
        updated_at: u.updated_at->Some_0,
    }
}

impl FilterUserDto {
    /// Project one record. Succeeds exactly when both audit timestamps are
    /// present; a record missing one is reported as an integrity violation,
    /// never silently defaulted.
    pub fn filter_user(user: &User) -> (r: Result<FilterUserDto, ProjectionError>)
        ensures
            match r {
                Result::Ok(f) => spec_has_timestamps(*user) && f.deep_view() == spec_filter_user(
                    *user,
                ),
                Result::Err(e) => !spec_has_timestamps(*user) && e
                    == ProjectionError::MissingAuditTimestamp,
            },
    {
        let created = match user.created_at {
            Option::Some(t) => t,
            Option::None => {
                return Result::Err(ProjectionError::MissingAuditTimestamp);
            },
        };
        let updated = match user.updated_at {
            Option::Some(t) => t,
            Option::None => {
                return Result::Err(ProjectionError::MissingAuditTimestamp);
            },
        };
        Result::Ok(
            FilterUserDto {
                id: user.id.clone(),
                name: user.name.clone(),
                email: user.email.clone(),
                role: user.role.to_str().to_owned(),
                verified: user.verified,
                created_at: created,
                updated_at: updated,
            },
        )
    }

    /// Project a list of records: a one-to-one map that keeps the input order
    /// and length, with no element filtered. The first record missing an
    /// audit timestamp fails the whole projection, producing no partial
    /// output.
    pub fn filter_users(users: &[User]) -> (r: Result<Vec<FilterUserDto>, ProjectionError>)
        ensures
            match r {
                Result::Ok(fs) => fs.deep_view().len() == users@.len() && (forall|i: int|
                    0 <= i < users@.len() ==> spec_has_timestamps(#[trigger] users@[i])
                        && fs.deep_view()[i] == spec_filter_user(users@[i])),
                Result::Err(e) => (exists|i: int|
                    0 <= i < users@.len() && !spec_has_timestamps(#[trigger] users@[i])) && e
                    == ProjectionError::MissingAuditTimestamp,
            },
    {
        let mut out: Vec<FilterUserDto> = Vec::new();
        let mut idx: usize = 0;
        while idx < users.len()
            invariant
                0 <= idx <= users@.len(),
                out.deep_view().len() == idx,
                forall|i: int|
                    0 <= i < idx ==> spec_has_timestamps(#[trigger] users@[i])
                        && out.deep_view()[i] == spec_filter_user(users@[i]),
            decreases users@.len() - idx,
        {
            let f = match Self::filter_user(&users[idx]) {
                Result::Ok(f) => f,
                Result::Err(e) => {
                    return Result::Err(e);
                },
            };
            out.push(f);
            idx = idx + 1;
            proof {
                assert(out.deep_view()[idx - 1] == spec_filter_user(users@[idx - 1]));
            }
        }
        Result::Ok(out)
    }
}

} // verus!
