//! The statuses and the problem types that the service answers with.

use vstd::prelude::*;

verus! {

pub const OK: u16 = 200;

pub const CREATED: u16 = 201;

pub const BAD_REQUEST_STATUS: u16 = 400;

pub const NOT_FOUND_STATUS: u16 = 404;

pub const METHOD_NOT_ALLOWED_STATUS: u16 = 405;

pub const CONFLICT_STATUS: u16 = 409;

pub const UNSUPPORTED_MEDIA_TYPE_STATUS: u16 = 415;

pub const UNPROCESSABLE_ENTITY_STATUS: u16 = 422;

pub const INTERNAL_SERVER_ERROR_STATUS: u16 = 500;

/// The body could not be decoded into the fields that the route expects.
pub const INVALID_JSON: &'static str = "invalid-json";

/// The body was decoded and a field broke a rule.
pub const VALIDATE: &'static str = "validation";

/// The email belongs to a stored user.
pub const DUPLICATE: &'static str = "duplicate-email";

/// A path or query parameter is malformed.
pub const BAD_REQUEST: &'static str = "bad-request";

/// No such user, or no such route.
pub const NOT_FOUND: &'static str = "not-found";

/// The route does not take the method.
pub const METHOD_NOT_ALLOWED: &'static str = "method-not-allowed";

/// The body is not announced as JSON.
pub const UNSUPPORTED_MEDIA_TYPE: &'static str = "unsupported-media-type";

/// Anything that the service cannot blame on the request.
pub const INTERNAL_SERVER_ERROR: &'static str = "internal-server-error";

/// The content type of a response that carries a problem.
pub const PROBLEM_CONTENT_TYPE: &'static str = "application/problem+json";

} // verus!
