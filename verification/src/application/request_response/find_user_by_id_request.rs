//! The parameter of a request for one user.

use vstd::prelude::*;

use crate::domain::user_id::is_uuid_text_length;
use crate::domain::user_id::UserId;

verus! {

/// The identifier that the path of the request names.
#[derive(Debug)]
pub struct FindUserByIdRequestParam {
    pub id: UserId,
}

impl FindUserByIdRequestParam {
    /// Reads the parameter from the path segment that holds it. `None` where
    /// the segment is not the text of an identifier, as a segment of another
    /// length than 32, 36, 38 or 45 characters never is.
    pub fn parse(segment: &str) -> (param: Option<Self>)
        ensures
            match param {
                Some(found) => UserId::parsed(segment@) == Some(found.id) && is_uuid_text_length(
                    segment@.len(),
                ),
                None => UserId::parsed(segment@) is None,
            },
    {
        match UserId::parse(segment) {
            Some(id) => Some(FindUserByIdRequestParam { id }),
            None => None,
        }
    }
}

} // verus!
