//! Failures of the job endpoints.

use vstd::prelude::*;
use crate::utils::response::ApiResponse;

verus! {

/// A failure of a job endpoint.
#[derive(Debug, Clone)]
pub enum JobError {
    /// A tag that names no source type; holds the message that quotes it.
    JobSourceTypeNotExist(String),
}

impl JobError {
    /// The HTTP status under which the failure is reported: a bad request.
    pub open spec fn spec_status_code(self) -> u16 {
        400
    }

    /// The text shown to the caller.
    pub open spec fn spec_message(self) -> Seq<char> {
        match self {
            JobError::JobSourceTypeNotExist(text) => text@,
        }
    }

    /// The failed envelope that reports this error.
    pub fn into_response(self) -> (response: ApiResponse<()>)
        ensures
            !response.success,
            response.status_code == self.spec_status_code(),
            response.data is None,
            response.error matches Some(text) && text@ == self.spec_message(),
    {
        match self {
            JobError::JobSourceTypeNotExist(text) => ApiResponse::error(400, text),
        }
    }
}

} // verus!
