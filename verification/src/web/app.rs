//! The stage that every response passes on its way out: it gives each failing
//! status the problem that belongs to it.

use vstd::prelude::*;

use crate::web::handler::duplicate_email_problem;
use crate::web::handler::handle_not_found;
use crate::web::handler::internal_error_problem;
use crate::web::handler::not_found_problem;
use crate::web::problem::plain_problem;
use crate::web::problem::Problem;
use crate::web::problem::ProblemView;
use crate::web::problem_type::BAD_REQUEST;
use crate::web::problem_type::BAD_REQUEST_STATUS;
use crate::web::problem_type::CONFLICT_STATUS;
use crate::web::problem_type::DUPLICATE;
use crate::web::problem_type::INTERNAL_SERVER_ERROR;
use crate::web::problem_type::INTERNAL_SERVER_ERROR_STATUS;
use crate::web::problem_type::INVALID_JSON;
use crate::web::problem_type::METHOD_NOT_ALLOWED;
use crate::web::problem_type::METHOD_NOT_ALLOWED_STATUS;
use crate::web::problem_type::NOT_FOUND_STATUS;
use crate::web::problem_type::PROBLEM_CONTENT_TYPE;
use crate::web::problem_type::UNPROCESSABLE_ENTITY_STATUS;
use crate::web::problem_type::UNSUPPORTED_MEDIA_TYPE;
use crate::web::problem_type::UNSUPPORTED_MEDIA_TYPE_STATUS;

verus! {

/// Why the body of a request could not be taken as the JSON that the route
/// expects.
#[derive(Debug, Clone, Copy, PartialEq, Eq, Structural)]
pub enum BodyRejection {
    /// The body is not announced as JSON.
    MissingJsonContentType,
    /// The body is no JSON text; a body of no bytes is none.
    JsonSyntaxError,
    /// The body is JSON, and a field is missing or of the wrong type.
    JsonDataError,
    /// The body could not be read; the status says how the reading failed.
    Other(u16),
}

/// The status that answers a body that was rejected: 415 where it is not
/// announced as JSON, 422 where it does not decode into the expected fields,
/// be it no JSON at all or JSON of the wrong shape.
pub open spec fn rejection_status(rejection: BodyRejection) -> u16 {
    match rejection {
        BodyRejection::MissingJsonContentType => UNSUPPORTED_MEDIA_TYPE_STATUS,
        BodyRejection::JsonSyntaxError => UNPROCESSABLE_ENTITY_STATUS,
        BodyRejection::JsonDataError => UNPROCESSABLE_ENTITY_STATUS,
        BodyRejection::Other(status) => status,
    }
}

/// The status that answers a body that was rejected. The response stage gives
/// the status its problem.
pub fn body_rejection_status(rejection: BodyRejection) -> (status: u16)
    ensures
        status == rejection_status(rejection),
{
    match rejection {
        BodyRejection::MissingJsonContentType => UNSUPPORTED_MEDIA_TYPE_STATUS,
        BodyRejection::JsonSyntaxError => UNPROCESSABLE_ENTITY_STATUS,
        BodyRejection::JsonDataError => UNPROCESSABLE_ENTITY_STATUS,
        BodyRejection::Other(status) => status,
    }
}

/// Whether a status is one of success.
pub open spec fn is_success(status: u16) -> bool {
    200 <= status <= 299
}

/// What an optional content type is.
pub open spec fn content_type_view(content_type: Option<&str>) -> Option<Seq<char>> {
    match content_type {
        Some(text) => Some(text@),
        None => None,
    }
}

/// Whether a response leaves the stage as it came: it carries a problem
/// already, or it is a success.
pub open spec fn passes_unchanged(status: u16, content_type: Option<Seq<char>>) -> bool {
    content_type == Some(PROBLEM_CONTENT_TYPE@) || is_success(status)
}

/// The problem of a body that does not decode into the expected fields.
pub open spec fn invalid_json_problem() -> ProblemView {
    plain_problem(UNPROCESSABLE_ENTITY_STATUS, "Invalid JSON"@, INVALID_JSON@).with_detail(
        "Required fields are missing or invalid"@,
    ).with_instance("/users"@)
}

/// The problem of a method that the route does not take.
pub open spec fn method_not_allowed_problem() -> ProblemView {
    plain_problem(METHOD_NOT_ALLOWED_STATUS, "Method Not Allowed"@, METHOD_NOT_ALLOWED@)
}

/// The problem of a malformed path or query parameter.
pub open spec fn bad_request_problem() -> ProblemView {
    plain_problem(BAD_REQUEST_STATUS, "Bad Request"@, BAD_REQUEST@).with_detail(
        "Malformed query or path parameter"@,
    )
}

/// The problem of a body that is not announced as JSON.
pub open spec fn unsupported_media_type_problem() -> ProblemView {
    plain_problem(
        UNSUPPORTED_MEDIA_TYPE_STATUS,
        "Unsupported Media Type"@,
        UNSUPPORTED_MEDIA_TYPE@,
    ).with_detail("Content-Type must be application/json"@)
}

/// The problem of a failure that nothing more is known of.
pub open spec fn unexpected_error_problem() -> ProblemView {
    internal_error_problem(None, Some("An unexpected error occurred"@))
}

/// The problem that belongs to a failing status: the one that the service
/// gives that status itself, and for every other status the problem of an
/// internal error, with status 500.
pub open spec fn problem_for_status(status: u16) -> ProblemView {
    if status == UNPROCESSABLE_ENTITY_STATUS {
        invalid_json_problem()
    } else if status == METHOD_NOT_ALLOWED_STATUS {
        method_not_allowed_problem()
    } else if status == BAD_REQUEST_STATUS {
        bad_request_problem()
    } else if status == UNSUPPORTED_MEDIA_TYPE_STATUS {
        unsupported_media_type_problem()
    } else if status == CONFLICT_STATUS {
        duplicate_email_problem()
    } else if status == NOT_FOUND_STATUS {
        not_found_problem()
    } else {
        unexpected_error_problem()
    }
}

/// The status and content type with which a response leaves the stage.
pub open spec fn mapped_head(status: u16, content_type: Option<Seq<char>>) -> (
    u16,
    Option<Seq<char>>,
) {
    if passes_unchanged(status, content_type) {
        (status, content_type)
    } else {
        (problem_for_status(status).status, Some(PROBLEM_CONTENT_TYPE@))
    }
}

/// Decides what becomes of a response with the given status and content type.
/// `None`: it leaves as it came, which holds for every success and for every
/// response that carries a problem already. Otherwise the problem that
/// replaces it.
pub fn map_response(status: u16, content_type: Option<&str>) -> (mapped: Option<Problem>)
    ensures
        match mapped {
            None => passes_unchanged(status, content_type_view(content_type)),
            Some(problem) => !passes_unchanged(status, content_type_view(content_type))
                && problem@ == problem_for_status(status),
        },
{
    if let Some(text) = content_type {
        if String::from_str(text) == String::from_str(PROBLEM_CONTENT_TYPE) {
            return None;
        }
    }
    if 200 <= status && status <= 299 {
        None
    } else if status == UNPROCESSABLE_ENTITY_STATUS {
        Some(
            Problem::new(UNPROCESSABLE_ENTITY_STATUS, "Invalid JSON", INVALID_JSON).with_detail(
                String::from_str("Required fields are missing or invalid"),
            ).with_instance(String::from_str("/users")),
        )
    } else if status == METHOD_NOT_ALLOWED_STATUS {
        Some(Problem::new(METHOD_NOT_ALLOWED_STATUS, "Method Not Allowed", METHOD_NOT_ALLOWED))
    } else if status == BAD_REQUEST_STATUS {
        Some(
            Problem::new(BAD_REQUEST_STATUS, "Bad Request", BAD_REQUEST).with_detail(
                String::from_str("Malformed query or path parameter"),
            ),
        )
    } else if status == UNSUPPORTED_MEDIA_TYPE_STATUS {
        Some(
            Problem::new(
                UNSUPPORTED_MEDIA_TYPE_STATUS,
                "Unsupported Media Type",
                UNSUPPORTED_MEDIA_TYPE,
            ).with_detail(String::from_str("Content-Type must be application/json")),
        )
    } else if status == CONFLICT_STATUS {
        Some(
            Problem::new(CONFLICT_STATUS, "Duplicate User Email", DUPLICATE).with_detail(
                String::from_str("This email address is already in use"),
            ).with_instance(String::from_str("/users")),
        )
    } else if status == NOT_FOUND_STATUS {
        Some(handle_not_found())
    } else {
        Some(
            Problem::new(
                INTERNAL_SERVER_ERROR_STATUS,
                "Internal Server Error",
                INTERNAL_SERVER_ERROR,
            ).with_detail(String::from_str("An unexpected error occurred")),
        )
    }
}

/// The stage changes nothing the second time: a response that has passed it
/// passes it again as it is.
pub proof fn lemma_mapping_is_idempotent(status: u16, content_type: Option<Seq<char>>)
    ensures
        passes_unchanged(mapped_head(status, content_type).0, mapped_head(status, content_type).1),
        mapped_head(mapped_head(status, content_type).0, mapped_head(status, content_type).1)
            == mapped_head(status, content_type),
{
}

/// A body that does not decode is answered with the problem of invalid JSON,
/// and a body that is not announced as JSON with the problem of an
/// unsupported media type, once the answer has passed the stage.
pub proof fn lemma_rejected_body_gets_its_problem(rejection: BodyRejection)
    ensures
        rejection is JsonSyntaxError || rejection is JsonDataError ==> problem_for_status(
            rejection_status(rejection),
        ) == invalid_json_problem(),
        rejection is MissingJsonContentType ==> problem_for_status(rejection_status(rejection))
            == unsupported_media_type_problem(),
        invalid_json_problem().status == 422,
        unsupported_media_type_problem().status == 415,
{
}

/// Every response that leaves the stage is a success or carries a problem,
/// and a problem that the stage made has a failing status.
pub proof fn lemma_mapped_problem_fails(status: u16)
    ensures
        !is_success(problem_for_status(status).status),
        400 <= problem_for_status(status).status <= 599,
{
}

} // verus!
