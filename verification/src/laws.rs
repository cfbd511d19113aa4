//! Laws relating the validation schemas and the projector, stated over the
//! same spec functions that the executable contracts use.

use vstd::prelude::*;

use crate::dtos::{spec_query_errors, spec_register_errors, RegisterUserDto, RequestQueryDto};
use crate::errors::SpecFieldError;
use crate::models::User;
use crate::projector::{spec_filter_user, spec_has_timestamps, SpecFilterUser};

verus! {

/// Registration reports the password-confirmation mismatch error exactly when
/// the two password fields differ; equal values pass that rule.
pub proof fn lemma_register_password_match(d: RegisterUserDto)
    ensures
        spec_register_errors(d).contains(
            (SpecFieldError { field: "passwordConfirm"@, message: "Passwords do not match"@ }),
        ) <==> d.password@ != d.password_confirm@,
{
    reveal_strlit("name");
    reveal_strlit("email");
    reveal_strlit("password");
    reveal_strlit("passwordConfirm");
    reveal_strlit("Confirm password is required");
    reveal_strlit("Passwords do not match");
    let es = spec_register_errors(d);
    let e = SpecFieldError { field: "passwordConfirm"@, message: "Passwords do not match"@ };
    if d.password@ != d.password_confirm@ {
        assert(es[es.len() - 1] == e);
        assert(es.contains(e));
    } else {
        assert forall|i: int| 0 <= i < es.len() implies es[i] != e by {
            assert("name"@.len() == 4);
            assert("email"@.len() == 5);
            assert("password"@.len() == 8);
            assert("passwordConfirm"@.len() == 15);
            assert("Confirm password is required"@.len() == 28);
            assert("Passwords do not match"@.len() == 22);
        }
    }
}

/// A paged query reports the limit error exactly when a given limit lies
/// outside [1, 50], and the page error exactly when a given page is below 1;
/// absent fields pass.
pub proof fn lemma_query_bounds(d: RequestQueryDto)
    ensures
        spec_query_errors(d).contains(
            (SpecFieldError { field: "limit"@, message: "limit must be between 1 and 50"@ }),
        ) <==> (d.limit matches Some(l) && !(1 <= l <= 50)),
        spec_query_errors(d).contains(
            (SpecFieldError { field: "page"@, message: "page must be 1 or greater"@ }),
        ) <==> (d.page matches Some(p) && p < 1),
{
    reveal_strlit("page");
    reveal_strlit("limit");
    reveal_strlit("page must be 1 or greater");
    reveal_strlit("limit must be between 1 and 50");
    let es = spec_query_errors(d);
    let le = SpecFieldError { field: "limit"@, message: "limit must be between 1 and 50"@ };
    let pe = SpecFieldError { field: "page"@, message: "page must be 1 or greater"@ };
    assert("page"@.len() == 4);
    assert("limit"@.len() == 5);
    if d.limit matches Some(l) && !(1 <= l <= 50) {
        assert(es[es.len() - 1] == le);
        assert(es.contains(le));
    } else {
        assert forall|i: int| 0 <= i < es.len() implies es[i] != le by {
            assert("page"@.len() == 4);
            assert("limit"@.len() == 5);
        }
    }
    if d.page matches Some(p) && p < 1 {
        assert(es[0] == pe);
        assert(es.contains(pe));
    } else {
        assert forall|i: int| 0 <= i < es.len() implies es[i] != pe by {
            assert("page"@.len() == 4);
            assert("limit"@.len() == 5);
        }
    }
}

/// Projection never reads the secret: two records that agree on every field
/// but the password project to the same view, and are rejected alike.
pub proof fn lemma_projection_reads_no_secret(a: User, b: User)
    requires
        a.id == b.id,
        a.name == b.name,
        a.email == b.email,
        a.role == b.role,
        a.verified == b.verified,
        a.created_at == b.created_at,
        a.updated_at == b.updated_at,
    ensures
        spec_filter_user(a) == spec_filter_user(b),
        spec_has_timestamps(a) == spec_has_timestamps(b),
{
}

/// Validation is repeatable: the reported error list is a function of the
/// input alone, so re-validating an already-valid input succeeds again with
/// the same outcome.
pub proof fn lemma_revalidation_stable(
    d: RegisterUserDto,
    r1: Seq<SpecFieldError>,
    r2: Seq<SpecFieldError>,
)
    requires
        r1 == spec_register_errors(d),
        r2 == spec_register_errors(d),
    ensures
        r1 == r2,
{
}

/// Projection is repeatable: the projected view is a function of the record
/// alone, so re-projecting the same record yields an identical result.
pub proof fn lemma_reprojection_identical(u: User, f1: SpecFilterUser, f2: SpecFilterUser)
    requires
        f1 == spec_filter_user(u),
        f2 == spec_filter_user(u),
    ensures
        f1 == f2,
{
}

} // verus!
