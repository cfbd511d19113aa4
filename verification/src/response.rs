//! The uniform response envelope: a status tag plus a single projected user,
//! a list of projected users with a result count, or a plain message. The
//! builders are pure constructors; callers supply already-validated and
//! already-projected data.

use vstd::prelude::*;

use crate::projector::FilterUserDto;

verus! {

/// The payload of a single-user response.
#[derive(Debug, Clone)]
pub struct UserData {
    pub user: FilterUserDto,
}

/// A single-user response envelope.
#[derive(Debug, Clone)]
pub struct UserResponseDto {
    pub status: String,
    pub data: UserData,
}

impl UserResponseDto {
    /// Wrap one projected user under a status tag.
    pub fn new(status: String, user: FilterUserDto) -> (r: UserResponseDto)
        ensures
            r.status@ == status@,
            r.data.user == user,
    {
        UserResponseDto { status, data: UserData { user } }
    }
}

/// A user-list response envelope, carrying the list and its length.
#[derive(Debug, Clone)]
pub struct UserListResponseDto {
    pub status: String,
    pub users: Vec<FilterUserDto>,
    pub results: i64,
}

impl UserListResponseDto {
    /// Wrap a list of projected users under a status tag; `results` is the
    /// list's length.
    pub fn new(status: String, users: Vec<FilterUserDto>) -> (r: UserListResponseDto)
        requires
            users@.len() <= i64::MAX,
        ensures
            r.status@ == status@,
            r.users == users,
            r.results == users@.len(),
    {
        let results = users.len() as i64;
        UserListResponseDto { status, users, results }
    }
}

/// A login response envelope, carrying the issued token.
#[derive(Debug, Clone)]
pub struct UserLoginResponseDto {
    pub status: String,
    pub token: String,
}

impl UserLoginResponseDto {
    /// Wrap an issued token under a status tag.
    pub fn new(status: String, token: String) -> (r: UserLoginResponseDto)
        ensures
            r.status@ == status@,
            r.token@ == token@,
    {
        UserLoginResponseDto { status, token }
    }
}

/// A plain-message response envelope.
#[derive(Debug, Clone)]
pub struct Response {
    pub status: &'static str,
    pub message: String,
}

impl Response {
    /// Wrap a human-readable message under a status tag.
    pub fn new(status: &'static str, message: String) -> (r: Response)
        ensures
            r.status@ == status@,
            r.message@ == message@,
    {
        Response { status, message }
    }
}

} // verus!
