//! Rule primitives: atomic validators over a single field or a pair of
//! fields. Each primitive is a pure function from the field's value (and the
//! rule's parameters) to either no error or exactly one `FieldError`, and each
//! has a spec-level counterpart returning the empty or a singleton error
//! sequence, so that a schema's full error list is the concatenation of its
//! rules' sequences, in declaration order.

use vstd::prelude::*;
use vstd::string::StrSliceExecFns;
use validator::ValidateEmail;

use crate::errors::{FieldError, SpecFieldError, UnsupportedRoleError};
use crate::models::UserRole;

verus! {

/// Whether a string is a syntactically valid email address. The grammar is
/// the outside validator's (HTML5 email addresses), so it is named here, not
/// restated.
pub uninterp spec fn email_valid(s: Seq<char>) -> bool;

/// Relies on validator's `ValidateEmail` impl for `&str`: it decides the
/// HTML5 email grammar as a pure function of the characters, and an empty
/// string is never a valid address.
#[verifier::external_body]
fn is_valid_email(value: &str) -> (r: bool)
    ensures
        r == email_valid(value@),
        value@.len() == 0 ==> !r,
{
    value.validate_email()
}

/// The singleton error sequence every violated rule contributes.
pub open spec fn singleton_err(field: Seq<char>, message: Seq<char>) -> Seq<SpecFieldError> {
    seq![SpecFieldError { field: field, message: message }]
}

/// Errors of `required`: the field must hold at least one character.
pub open spec fn spec_required_err(field: Seq<char>, value: Seq<char>, message: Seq<char>) -> Seq<
    SpecFieldError,
> {
    if value.len() < 1 {
        singleton_err(field, message)
    } else {
        Seq::empty()
    }
}

/// Errors of `length`: the character count must lie within the bounds.
pub open spec fn spec_length_err(
    field: Seq<char>,
    value: Seq<char>,
    min: usize,
    max: Option<usize>,
    message: Seq<char>,
) -> Seq<SpecFieldError> {
    if value.len() < min || (max matches Some(m) && value.len() > m) {
        singleton_err(field, message)
    } else {
        Seq::empty()
    }
}

/// Errors of `range`: an absent value passes; a present one must lie within
/// the numeric bounds.
pub open spec fn spec_range_err(
    field: Seq<char>,
    value: Option<usize>,
    min: usize,
    max: Option<usize>,
    message: Seq<char>,
) -> Seq<SpecFieldError> {
    match value {
        Option::Some(v) => if v < min || (max matches Some(m) && v > m) {
            singleton_err(field, message)
        } else {
            Seq::empty()
        },
        Option::None => Seq::empty(),
    }
}

/// Errors of `emailFormat`: the value must be a valid email address.
pub open spec fn spec_email_err(field: Seq<char>, value: Seq<char>, message: Seq<char>) -> Seq<
    SpecFieldError,
> {
    if !email_valid(value) {
        singleton_err(field, message)
    } else {
        Seq::empty()
    }
}

/// Errors of `equalsField`: the value must equal the named sibling field.
pub open spec fn spec_equals_err(
    field: Seq<char>,
    value: Seq<char>,
    other: Seq<char>,
    message: Seq<char>,
) -> Seq<SpecFieldError> {
    if value != other {
        singleton_err(field, message)
    } else {
        Seq::empty()
    }
}

/// The error list an optional single violation stands for.
pub open spec fn opt_err_seq(r: Option<FieldError>) -> Seq<SpecFieldError> {
    match r {
        Option::Some(e) => seq![e.deep_view()],
        Option::None => Seq::empty(),
    }
}

fn mk_err(field: &str, message: &str) -> (r: FieldError)
    ensures
        r.deep_view() == (SpecFieldError { field: field@, message: message@ }),
{
    FieldError { field: field.to_owned(), message: message.to_owned() }
}

/// `required`: fails when the field is empty.
pub fn rule_required(field: &str, value: &String, message: &str) -> (r: Option<FieldError>)
    ensures
        opt_err_seq(r) == spec_required_err(field@, value@, message@),
{
    if value.as_str().unicode_len() < 1 {
        Option::Some(mk_err(field, message))
    } else {
        Option::None
    }
}

/// `length`: fails when the character count falls outside `[min, max]`
/// (no upper bound when `max` is absent).
pub fn rule_length(
    field: &str,
    value: &String,
    min: usize,
    max: Option<usize>,
    message: &str,
) -> (r: Option<FieldError>)
    ensures
        opt_err_seq(r) == spec_length_err(field@, value@, min, max, message@),
{
    let n = value.as_str().unicode_len();
    let over = match max {
        Option::Some(m) => n > m,
        Option::None => false,
    };
    if n < min || over {
        Option::Some(mk_err(field, message))
    } else {
        Option::None
    }
}

/// `range`: an absent value passes; a present one fails outside `[min, max]`
/// (no upper bound when `max` is absent).
pub fn rule_range(
    field: &str,
    value: &Option<usize>,
    min: usize,
    max: Option<usize>,
    message: &str,
) -> (r: Option<FieldError>)
    ensures
        opt_err_seq(r) == spec_range_err(field@, *value, min, max, message@),
{
    match value {
        Option::Some(v) => {
            let over = match max {
                Option::Some(m) => *v > m,
                Option::None => false,
            };
            if *v < min || over {
                Option::Some(mk_err(field, message))
            } else {
                Option::None
            }
        },
        Option::None => Option::None,
    }
}

/// `emailFormat`: fails when the value is not a syntactically valid email
/// address.
pub fn rule_email(field: &str, value: &String, message: &str) -> (r: Option<FieldError>)
    ensures
        opt_err_seq(r) == spec_email_err(field@, value@, message@),
{
    if !is_valid_email(value.as_str()) {
        Option::Some(mk_err(field, message))
    } else {
        Option::None
    }
}

/// `equalsField`: fails when the value differs from its sibling field.
pub fn rule_equals(field: &str, value: &String, other: &String, message: &str) -> (r: Option<
    FieldError,
>)
    ensures
        opt_err_seq(r) == spec_equals_err(field@, value@, other@, message@),
{
    if value.eq(other) {
        Option::None
    } else {
        Option::Some(mk_err(field, message))
    }
}

/// `membership` over roles: only `Admin` and `User` may be assigned.
pub fn validate_user_role(role: &UserRole) -> (r: Result<(), UnsupportedRoleError>)
    ensures
        r is Ok <==> (*role == UserRole::Admin || *role == UserRole::User),
{
    match role {
        UserRole::Admin | UserRole::User => Result::Ok(()),
        _ => Result::Err(UnsupportedRoleError),
    }
}

/// The engine's accumulation step: append a rule's outcome to the running
/// error list.
pub(crate) fn push_err(errs: &mut Vec<FieldError>, e: Option<FieldError>)
    ensures
        final(errs).deep_view() == old(errs).deep_view() + opt_err_seq(e),
{
    let ghost pre = errs.deep_view();
    let ghost oe = opt_err_seq(e);
    match e {
        Option::Some(x) => {
            errs.push(x);
            proof {
                assert(errs.deep_view() =~= pre + oe);
            }
        },
        Option::None => {
            proof {
                assert(errs.deep_view() =~= pre + oe);
            }
        },
    }
}

} // verus!
