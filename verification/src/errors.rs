//! Error types surfaced by validation and projection.

use vstd::prelude::*;

verus! {

/// A single field-level validation failure: the offending field's wire name
/// and a human-readable message that callers display verbatim.
#[derive(Debug, Clone, PartialEq, Eq)]
pub struct FieldError {
    pub field: String,
    pub message: String,
}

/// Mathematical image of a `FieldError`: both strings as character sequences.
pub struct SpecFieldError {
    pub field: Seq<char>,
    pub message: Seq<char>,
}

impl DeepView for FieldError {
    type V = SpecFieldError;

    open spec fn deep_view(&self) -> SpecFieldError {
        SpecFieldError { field: self.field@, message: self.message@ }
    }
}

/// A role update named a role outside the assignable set. Kept apart from the
/// generic field errors so callers can render a role-specific message.
#[derive(Debug, Clone, Copy, PartialEq, Eq, Structural)]
pub struct UnsupportedRoleError;

/// A stored user record broke an integrity invariant during projection.
/// Projection never fabricates data to paper over such a record.
#[derive(Debug, Clone, Copy, PartialEq, Eq, Structural)]
pub enum ProjectionError {
    /// The record lacks its creation or last-update timestamp.
    MissingAuditTimestamp,
}

} // verus!
