//! Error types for the authentication namespace.

use vstd::prelude::*;
use crate::text::str_eq;

verus! {

/// Errors occurred during authentication.
#[derive(Debug, Clone, Copy, PartialEq, Eq, Structural)]
pub enum AuthError {
    /// The access token is invalid.
    InvalidAccessToken,
    /// The user specified in 'Dropbox-API-Select-User' is no longer on the
    /// team.
    InvalidSelectUser,
    /// The user specified in 'Dropbox-API-Select-Admin' is not a Dropbox
    /// Business team admin.
    InvalidSelectAdmin,
    /// The user has been suspended.
    UserSuspended,
    /// The access token has expired.
    ExpiredAccessToken,
    /// The access token does not have the required scope to access the route.
    MissingScope,
    /// The route is not available to public.
    RouteAccessDenied,
    /// Catch-all used for unrecognized values returned from the server.
    Other,
}

impl AuthError {
    /// The variant denoted by a wire tag.
    pub open spec fn spec_from_tag(tag: Seq<char>) -> AuthError {
        if tag == "invalid_access_token"@ {
            AuthError::InvalidAccessToken
        } else if tag == "invalid_select_user"@ {
            AuthError::InvalidSelectUser
        } else if tag == "invalid_select_admin"@ {
            AuthError::InvalidSelectAdmin
        } else if tag == "user_suspended"@ {
            AuthError::UserSuspended
        } else if tag == "expired_access_token"@ {
            AuthError::ExpiredAccessToken
        } else if tag == "missing_scope"@ {
            AuthError::MissingScope
        } else if tag == "route_access_denied"@ {
            AuthError::RouteAccessDenied
        } else {
            AuthError::Other
        }
    }

    /// Map a wire tag to the variant it denotes; an unrecognized tag maps to
    /// [`AuthError::Other`].
    pub fn from_tag(tag: &str) -> (r: AuthError)
        ensures
            r == AuthError::spec_from_tag(tag@),
    {
        if str_eq(tag, "invalid_access_token") {
            AuthError::InvalidAccessToken
        } else if str_eq(tag, "invalid_select_user") {
            AuthError::InvalidSelectUser
        } else if str_eq(tag, "invalid_select_admin") {
            AuthError::InvalidSelectAdmin
        } else if str_eq(tag, "user_suspended") {
            AuthError::UserSuspended
        } else if str_eq(tag, "expired_access_token") {
            AuthError::ExpiredAccessToken
        } else if str_eq(tag, "missing_scope") {
            AuthError::MissingScope
        } else if str_eq(tag, "route_access_denied") {
            AuthError::RouteAccessDenied
        } else {
            AuthError::Other
        }
    }
}

/// Errors occurred because the account lacks access.
#[derive(Debug, Clone, Copy, PartialEq, Eq, Structural)]
pub enum AccessError {
    /// Current account type cannot access the resource.
    InvalidAccountType,
    /// Current account cannot access Paper.
    PaperAccessDenied,
    /// Catch-all used for unrecognized values returned from the server.
    Other,
}

impl AccessError {
    /// The variant denoted by a wire tag.
    pub open spec fn spec_from_tag(tag: Seq<char>) -> AccessError {
        if tag == "invalid_account_type"@ {
            AccessError::InvalidAccountType
        } else if tag == "paper_access_denied"@ {
            AccessError::PaperAccessDenied
        } else {
            AccessError::Other
        }
    }

    /// Map a wire tag to the variant it denotes; an unrecognized tag maps to
    /// [`AccessError::Other`].
    pub fn from_tag(tag: &str) -> (r: AccessError)
        ensures
            r == AccessError::spec_from_tag(tag@),
    {
        if str_eq(tag, "invalid_account_type") {
            AccessError::InvalidAccountType
        } else if str_eq(tag, "paper_access_denied") {
            AccessError::PaperAccessDenied
        } else {
            AccessError::Other
        }
    }
}

/// The server-given reason for rate-limiting a request.
#[derive(Debug, Clone, Copy, PartialEq, Eq, Structural)]
pub enum RateLimitReason {
    /// The app is making too many requests for the given user or team and is
    /// being rate limited.
    TooManyRequests,
    /// There are currently too many write operations happening in the user's
    /// Dropbox.
    TooManyWriteOperations,
    /// Catch-all used for unrecognized values returned from the server.
    Other,
}

impl RateLimitReason {
    /// The variant denoted by a wire tag.
    pub open spec fn spec_from_tag(tag: Seq<char>) -> RateLimitReason {
        if tag == "too_many_requests"@ {
            RateLimitReason::TooManyRequests
        } else if tag == "too_many_write_operations"@ {
            RateLimitReason::TooManyWriteOperations
        } else {
            RateLimitReason::Other
        }
    }

    /// Map a wire tag to the variant it denotes; an unrecognized tag maps to
    /// [`RateLimitReason::Other`].
    pub fn from_tag(tag: &str) -> (r: RateLimitReason)
        ensures
            r == RateLimitReason::spec_from_tag(tag@),
    {
        if str_eq(tag, "too_many_requests") {
            RateLimitReason::TooManyRequests
        } else if str_eq(tag, "too_many_write_operations") {
            RateLimitReason::TooManyWriteOperations
        } else {
            RateLimitReason::Other
        }
    }
}

} // verus!
