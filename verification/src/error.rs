//! Error taxonomy of the authentication core, and the HTTP status each kind
//! maps to. Every verification failure is a terminal, user-visible rejection;
//! nothing here is retried.

use vstd::prelude::*;

use crate::id::{Id, UserMarker};

verus! {

/// The kind of resource a `NotFound` error refers to.
#[derive(Debug)]
pub enum ResourceKind {
    Group,
    GroupMembership,
    PasskeyChallenge,
    Route,
    User,
    VisualScriptingDocument,
}

/// What went wrong, as reported to the caller.
#[derive(Debug)]
pub enum ErrorModelKind {
    Cache,
    Database,
    InternalError,
    InvalidParams,
    InvalidQuery,
    NotFound { resource_kind: ResourceKind, resource_reference: Option<String> },
    InvalidCredentials,
    MissingCredentials,
    InvalidSignature,
    MissingSignature,
    MissingPermission,
    UserAlreadyInGroup { user_id: Id<UserMarker> },
    UserAlreadyPendingInGroup { user_id: Id<UserMarker> },
}

/// An error response: a kind wrapped for transport to the client.
#[derive(Debug)]
pub struct ErrorModel {
    pub error: ErrorModelKind,
}

/// The HTTP status code a kind is answered with: internal faults map to 500,
/// a missing record to 404, credential failures to 401, malformed requests
/// and signatures to 400, and permission denials to 403.
pub open spec fn spec_status_code(kind: ErrorModelKind) -> u16 {
    match kind {
        ErrorModelKind::Cache | ErrorModelKind::Database | ErrorModelKind::InternalError => 500,
        ErrorModelKind::NotFound { .. } => 404,
        ErrorModelKind::InvalidCredentials | ErrorModelKind::MissingCredentials => 401,
        ErrorModelKind::InvalidSignature
        | ErrorModelKind::InvalidParams
        | ErrorModelKind::InvalidQuery
        | ErrorModelKind::MissingSignature
        | ErrorModelKind::UserAlreadyInGroup { .. }
        | ErrorModelKind::UserAlreadyPendingInGroup { .. } => 400,
        ErrorModelKind::MissingPermission => 403,
    }
}

impl ErrorModel {
    pub fn status_code(&self) -> (r: u16)
        ensures
            r == spec_status_code(self.error),
    {
        match &self.error {
            ErrorModelKind::Cache | ErrorModelKind::Database | ErrorModelKind::InternalError => 500,
            ErrorModelKind::NotFound { .. } => 404,
            ErrorModelKind::InvalidCredentials | ErrorModelKind::MissingCredentials => 401,
            ErrorModelKind::InvalidSignature
            | ErrorModelKind::InvalidParams
            | ErrorModelKind::InvalidQuery
            | ErrorModelKind::MissingSignature
            | ErrorModelKind::UserAlreadyInGroup { .. }
            | ErrorModelKind::UserAlreadyPendingInGroup { .. } => 400,
            ErrorModelKind::MissingPermission => 403,
        }
    }
}

impl ErrorModelKind {
    /// Wraps the kind into an error response.
    pub fn model(self) -> (r: ErrorModel)
        ensures
            r.error == self,
    {
        ErrorModel { error: self }
    }

    /// A `NotFound` response for the given resource.
    pub fn not_found(resource_kind: ResourceKind, resource_reference: Option<String>) -> (r:
        ErrorModel)
        ensures
            r.error matches ErrorModelKind::NotFound { resource_kind: k, resource_reference: rr }
                && k == resource_kind && rr == resource_reference,
    {
        ErrorModel {
            error: ErrorModelKind::NotFound { resource_kind, resource_reference },
        }
    }
}

} // verus!
