//! Input shapes (request-scoped DTOs) and their validation schemas.
//!
//! Each DTO carries one `validate` method that evaluates every declared rule
//! for every field, in declaration order, and returns either success or the
//! complete ordered list of violations. Each schema also has a spec-level
//! mirror: a function giving the exact error sequence for any input, which
//! the `validate` contracts pin the executable result to.

use vstd::prelude::*;

use crate::errors::{FieldError, SpecFieldError, UnsupportedRoleError};
use crate::models::UserRole;
use crate::rules::{
    push_err, rule_email, rule_equals, rule_length, rule_range, rule_required, spec_email_err,
    spec_equals_err, spec_length_err, spec_range_err, spec_required_err, validate_user_role,
};

verus! {

/// A registration request.
#[derive(Debug, Default, Clone)]
pub struct RegisterUserDto {
    pub name: String,
    pub email: String,
    pub password: String,
    pub password_confirm: String,
}

/// The full error list registration validation reports, in rule order.
pub open spec fn spec_register_errors(d: RegisterUserDto) -> Seq<SpecFieldError> {
    spec_required_err("name"@, d.name@, "Name is Required"@)
        + spec_required_err("email"@, d.email@, "Email is required"@)
        + spec_email_err("email"@, d.email@, "Email is invalid"@)
        + spec_length_err("password"@, d.password@, 8, Option::None, "Password should be at least 8 characters"@)
        + spec_required_err("passwordConfirm"@, d.password_confirm@, "Confirm password is required"@)
        + spec_equals_err("passwordConfirm"@, d.password_confirm@, d.password@, "Passwords do not match"@)
}

impl RegisterUserDto {
    /// Check every rule of the registration schema, collecting all
    /// violations.
    pub fn validate(&self) -> (r: Result<(), Vec<FieldError>>)
        ensures
            match r {
                Result::Ok(()) => spec_register_errors(*self).len() == 0,
                Result::Err(errs) => errs.deep_view() == spec_register_errors(*self)
                    && errs.len() > 0,
            },
    {
        let mut errs: Vec<FieldError> = Vec::new();
        push_err(&mut errs, rule_required("name", &self.name, "Name is Required"));
        push_err(&mut errs, rule_required("email", &self.email, "Email is required"));
        push_err(&mut errs, rule_email("email", &self.email, "Email is invalid"));
        push_err(
            &mut errs,
            rule_length(
                "password",
                &self.password,
                8,
                Option::None,
                "Password should be at least 8 characters",
            ),
        );
        push_err(
            &mut errs,
            rule_required("passwordConfirm", &self.password_confirm, "Confirm password is required"),
        );
        push_err(
            &mut errs,
            rule_equals(
                "passwordConfirm",
                &self.password_confirm,
                &self.password,
                "Passwords do not match",
            ),
        );
        proof {
            assert(errs.deep_view() =~= spec_register_errors(*self));
        }
        if errs.len() == 0 {
            Result::Ok(())
        } else {
            Result::Err(errs)
        }
    }
}

/// A login request.
#[derive(Debug, Default, Clone)]
pub struct LoginUserDto {
    pub email: String,
    pub password: String,
}

/// The full error list login validation reports, in rule order.
pub open spec fn spec_login_errors(d: LoginUserDto) -> Seq<SpecFieldError> {
    spec_required_err("email"@, d.email@, "Email is required"@)
        + spec_email_err("email"@, d.email@, "Email is invalid"@)
        + spec_length_err("password"@, d.password@, 8, Option::None, "Password must be at least 8 characters"@)
}

impl LoginUserDto {
    /// Check every rule of the login schema, collecting all violations.
    pub fn validate(&self) -> (r: Result<(), Vec<FieldError>>)
        ensures
            match r {
                Result::Ok(()) => spec_login_errors(*self).len() == 0,
                Result::Err(errs) => errs.deep_view() == spec_login_errors(*self) && errs.len()
                    > 0,
            },
    {
        let mut errs: Vec<FieldError> = Vec::new();
        push_err(&mut errs, rule_required("email", &self.email, "Email is required"));
        push_err(&mut errs, rule_email("email", &self.email, "Email is invalid"));
        push_err(
            &mut errs,
            rule_length(
                "password",
                &self.password,
                8,
                Option::None,
                "Password must be at least 8 characters",
            ),
        );
        proof {
            assert(errs.deep_view() =~= spec_login_errors(*self));
        }
        if errs.len() == 0 {
            Result::Ok(())
        } else {
            Result::Err(errs)
        }
    }
}

/// A paged-list query. Absent fields fall back to server defaults and are not
/// range-checked.
#[derive(Debug, Default, Clone)]
pub struct RequestQueryDto {
    pub page: Option<usize>,
    pub limit: Option<usize>,
}

/// The full error list paged-query validation reports, in rule order.
pub open spec fn spec_query_errors(d: RequestQueryDto) -> Seq<SpecFieldError> {
    spec_range_err("page"@, d.page, 1, Option::None, "page must be 1 or greater"@)
        + spec_range_err("limit"@, d.limit, 1, Option::Some(50usize), "limit must be between 1 and 50"@)
}

impl RequestQueryDto {
    /// Check every rule of the paged-query schema, collecting all violations.
    pub fn validate(&self) -> (r: Result<(), Vec<FieldError>>)
        ensures
            match r {
                Result::Ok(()) => spec_query_errors(*self).len() == 0,
                Result::Err(errs) => errs.deep_view() == spec_query_errors(*self) && errs.len()
                    > 0,
            },
    {
        let mut errs: Vec<FieldError> = Vec::new();
        push_err(
            &mut errs,
            rule_range("page", &self.page, 1, Option::None, "page must be 1 or greater"),
        );
        push_err(
            &mut errs,
            rule_range(
                "limit",
                &self.limit,
                1,
                Option::Some(50usize),
                "limit must be between 1 and 50",
            ),
        );
        proof {
            assert(errs.deep_view() =~= spec_query_errors(*self));
        }
        if errs.len() == 0 {
            Result::Ok(())
        } else {
            Result::Err(errs)
        }
    }
}

/// A display-name update request.
#[derive(Debug, Default, Clone)]
pub struct NameUpdateDto {
    pub name: String,
}

/// The full error list name-update validation reports.
pub open spec fn spec_name_update_errors(d: NameUpdateDto) -> Seq<SpecFieldError> {
    spec_required_err("name"@, d.name@, "Name is required"@)
}

impl NameUpdateDto {
    /// Check the name-update schema.
    pub fn validate(&self) -> (r: Result<(), Vec<FieldError>>)
        ensures
            match r {
                Result::Ok(()) => spec_name_update_errors(*self).len() == 0,
                Result::Err(errs) => errs.deep_view() == spec_name_update_errors(*self)
                    && errs.len() > 0,
            },
    {
        let mut errs: Vec<FieldError> = Vec::new();
        push_err(&mut errs, rule_required("name", &self.name, "Name is required"));
        proof {
            assert(errs.deep_view() =~= spec_name_update_errors(*self));
        }
        if errs.len() == 0 {
            Result::Ok(())
        } else {
            Result::Err(errs)
        }
    }
}

/// A role update request.
#[derive(Debug, Clone)]
pub struct RoleUpdateDto {
    pub role: UserRole,
}

impl RoleUpdateDto {
    /// Only `Admin` and `User` may be assigned; any other role is rejected
    /// with the role-specific error.
    pub fn validate(&self) -> (r: Result<(), UnsupportedRoleError>)
        ensures
            r is Ok <==> (self.role == UserRole::Admin || self.role == UserRole::User),
    {
        validate_user_role(&self.role)
    }
}

/// A password-change request for a logged-in user.
#[derive(Debug, Default, Clone)]
pub struct UserPasswordUpdateDto {
    pub new_password: String,
    pub new_password_confirm: String,
    pub old_password: String,
}

/// The full error list password-update validation reports, in rule order.
pub open spec fn spec_password_update_errors(d: UserPasswordUpdateDto) -> Seq<SpecFieldError> {
    spec_length_err("newPassword"@, d.new_password@, 8, Option::None, "Password must be at least 8 characters"@)
        + spec_length_err("newPasswordConfirm"@, d.new_password_confirm@, 8, Option::None, "Confirm password must be at least 8 characters"@)
        + spec_equals_err("newPasswordConfirm"@, d.new_password_confirm@, d.new_password@, "new passwords do not match"@)
        + spec_required_err("oldPassword"@, d.old_password@, "Old password is required"@)
}

impl UserPasswordUpdateDto {
    /// Check every rule of the password-update schema, collecting all
    /// violations.
    pub fn validate(&self) -> (r: Result<(), Vec<FieldError>>)
        ensures
            match r {
                Result::Ok(()) => spec_password_update_errors(*self).len() == 0,
                Result::Err(errs) => errs.deep_view() == spec_password_update_errors(*self)
                    && errs.len() > 0,
            },
    {
        let mut errs: Vec<FieldError> = Vec::new();
        push_err(
            &mut errs,
            rule_length(
                "newPassword",
                &self.new_password,
                8,
                Option::None,
                "Password must be at least 8 characters",
            ),
        );
        push_err(
            &mut errs,
            rule_length(
                "newPasswordConfirm",
                &self.new_password_confirm,
                8,
                Option::None,
                "Confirm password must be at least 8 characters",
            ),
        );
        push_err(
            &mut errs,
            rule_equals(
                "newPasswordConfirm",
                &self.new_password_confirm,
                &self.new_password,
                "new passwords do not match",
            ),
        );
        push_err(&mut errs, rule_required("oldPassword", &self.old_password, "Old password is required"));
        proof {
            assert(errs.deep_view() =~= spec_password_update_errors(*self));
        }
        if errs.len() == 0 {
            Result::Ok(())
        } else {
            Result::Err(errs)
        }
    }
}

/// An email-verification query.
#[derive(Debug, Default, Clone)]
pub struct VerifyEmailQueryDto {
    pub token: String,
}

/// The full error list email-verification validation reports.
pub open spec fn spec_verify_email_errors(d: VerifyEmailQueryDto) -> Seq<SpecFieldError> {
    spec_required_err("token"@, d.token@, "Email is required"@)
}

impl VerifyEmailQueryDto {
    /// Check the email-verification schema.
    pub fn validate(&self) -> (r: Result<(), Vec<FieldError>>)
        ensures
            match r {
                Result::Ok(()) => spec_verify_email_errors(*self).len() == 0,
                Result::Err(errs) => errs.deep_view() == spec_verify_email_errors(*self)
                    && errs.len() > 0,
            },
    {
        let mut errs: Vec<FieldError> = Vec::new();
        push_err(&mut errs, rule_required("token", &self.token, "Email is required"));
        proof {
            assert(errs.deep_view() =~= spec_verify_email_errors(*self));
        }
        if errs.len() == 0 {
            Result::Ok(())
        } else {
            Result::Err(errs)
        }
    }
}

/// A forgot-password request.
#[derive(Debug, Default, Clone)]
pub struct ForgotPasswordRequestDto {
    pub email: String,
}

/// The full error list forgot-password validation reports.
pub open spec fn spec_forgot_password_errors(d: ForgotPasswordRequestDto) -> Seq<SpecFieldError> {
    spec_required_err("email"@, d.email@, "Email is required"@)
}

impl ForgotPasswordRequestDto {
    /// Check the forgot-password schema.
    pub fn validate(&self) -> (r: Result<(), Vec<FieldError>>)
        ensures
            match r {
                Result::Ok(()) => spec_forgot_password_errors(*self).len() == 0,
                Result::Err(errs) => errs.deep_view() == spec_forgot_password_errors(*self)
                    && errs.len() > 0,
            },
    {
        let mut errs: Vec<FieldError> = Vec::new();
        push_err(&mut errs, rule_required("email", &self.email, "Email is required"));
        proof {
            assert(errs.deep_view() =~= spec_forgot_password_errors(*self));
        }
        if errs.len() == 0 {
            Result::Ok(())
        } else {
            Result::Err(errs)
        }
    }
}

/// A reset-password request carrying the emailed token.
#[derive(Debug, Default, Clone)]
pub struct ResetPasswordRequestDto {
    pub token: String,
    pub new_password: String,
    pub new_password_confirm: String,
}

/// The full error list reset-password validation reports, in rule order.
pub open spec fn spec_reset_password_errors(d: ResetPasswordRequestDto) -> Seq<SpecFieldError> {
    spec_required_err("token"@, d.token@, "Token is Required"@)
        + spec_length_err("newPassword"@, d.new_password@, 8, Option::None, "New password must be at least 8 characters"@)
        + spec_length_err("newPasswordConfirm"@, d.new_password_confirm@, 8, Option::None, "New password confirm must be at least 8 characters"@)
        + spec_equals_err("newPasswordConfirm"@, d.new_password_confirm@, d.new_password@, "New passwords do not match"@)
}

impl ResetPasswordRequestDto {
    /// Check every rule of the reset-password schema, collecting all
    /// violations.
    pub fn validate(&self) -> (r: Result<(), Vec<FieldError>>)
        ensures
            match r {
                Result::Ok(()) => spec_reset_password_errors(*self).len() == 0,
                Result::Err(errs) => errs.deep_view() == spec_reset_password_errors(*self)
                    && errs.len() > 0,
            },
    {
        let mut errs: Vec<FieldError> = Vec::new();
        push_err(&mut errs, rule_required("token", &self.token, "Token is Required"));
        push_err(
            &mut errs,
            rule_length(
                "newPassword",
                &self.new_password,
                8,
                Option::None,
                "New password must be at least 8 characters",
            ),
        );
        push_err(
            &mut errs,
            rule_length(
                "newPasswordConfirm",
                &self.new_password_confirm,
                8,
                Option::None,
                "New password confirm must be at least 8 characters",
            ),
        );
        push_err(
            &mut errs,
            rule_equals(
                "newPasswordConfirm",
                &self.new_password_confirm,
                &self.new_password,
                "New passwords do not match",
            ),
        );
        proof {
            assert(errs.deep_view() =~= spec_reset_password_errors(*self));
        }
        if errs.len() == 0 {
            Result::Ok(())
        } else {
            Result::Err(errs)
        }
    }
}

} // verus!
