//! Classifying the responses of AWS requests made through the native runtime.

use vstd::prelude::*;
use crate::error::GGError;

verus! {

/// The status of a response that means the item asked for does not exist.
pub const STATUS_NOT_FOUND: u16 = 404;
/// The status of a response that means the credentials were not accepted.
pub const STATUS_UNAUTHORIZED: u16 = 401;
/// The status of a response that means access to the item was refused.
pub const STATUS_FORBIDDEN: u16 = 403;
/// The lowest status that reports an error.
pub const STATUS_FIRST_ERROR: u16 = 400;

/// A response to a request: its status and the message it carries.
#[derive(Debug)]
pub struct GGRequestResponse {
    pub status: u16,
    pub message: String,
}

/// What a response means to its caller.
#[derive(Debug, PartialEq, Eq, Structural, Clone, Copy)]
pub enum ResponseKind {
    Success,
    NotFound,
    Unauthorized,
    Error,
}

/// The kind of a response with the given status.
pub open spec fn kind_of(status: u16) -> ResponseKind {
    if status == STATUS_NOT_FOUND {
        ResponseKind::NotFound
    } else if status == STATUS_UNAUTHORIZED || status == STATUS_FORBIDDEN {
        ResponseKind::Unauthorized
    } else if status >= STATUS_FIRST_ERROR {
        ResponseKind::Error
    } else {
        ResponseKind::Success
    }
}

impl GGRequestResponse {
    /// Whether the response succeeded, reports a missing item, refused access, or failed.
    pub fn kind(&self) -> (r: ResponseKind)
        ensures
            r == kind_of(self.status),
    {
        if self.status == STATUS_NOT_FOUND {
            ResponseKind::NotFound
        } else if self.status == STATUS_UNAUTHORIZED || self.status == STATUS_FORBIDDEN {
            ResponseKind::Unauthorized
        } else if self.status >= STATUS_FIRST_ERROR {
            ResponseKind::Error
        } else {
            ResponseKind::Success
        }
    }

    /// The error that a response stands for: none for a success or a missing item,
    /// which the caller turns into an absent value.
    pub fn into_error(self) -> (r: Option<GGError>)
        ensures
            match kind_of(self.status) {
                ResponseKind::Success | ResponseKind::NotFound => r is None,
                ResponseKind::Unauthorized => r matches Some(GGError::Unauthorized(m))
                    && m@ == self.message@,
                ResponseKind::Error => r == Some(GGError::ErrorResponse(self)),
            },
    {
        match self.kind() {
            ResponseKind::Success | ResponseKind::NotFound => None,
            ResponseKind::Unauthorized => Some(GGError::Unauthorized(self.message)),
            ResponseKind::Error => Some(GGError::ErrorResponse(self)),
        }
    }
}

} // verus!
