//! The envelope in which every endpoint answers.

use vstd::prelude::*;

verus! {

/// A body with nothing in it.
#[derive(Debug, Clone, Copy, PartialEq, Eq, Structural)]
pub struct EmptyResponse {}

/// The envelope of an answer: either the data of a success or the message
/// of a failure, never both, together with the HTTP status.
#[derive(Debug, Clone)]
pub struct ApiResponse<T> {
    pub success: bool,
    pub status_code: u16,
    pub data: Option<T>,
    pub error: Option<String>,
}

impl<T> ApiResponse<T> {
    /// An envelope holds data exactly when it reports success, and a
    /// message exactly when it does not.
    pub open spec fn well_formed(&self) -> bool {
        &&& self.success <==> self.data is Some
        &&& self.success <==> self.error is None
    }

    /// A successful answer carrying `data`.
    pub fn success(status_code: u16, data: T) -> (response: Self)
        ensures
            response.success,
            response.status_code == status_code,
            response.data == Some(data),
            response.error is None,
            response.well_formed(),
    {
        ApiResponse { success: true, status_code, data: Some(data), error: None }
    }

    /// A failed answer carrying `error_message`.
    pub fn error(status_code: u16, error_message: String) -> (response: Self)
        ensures
            !response.success,
            response.status_code == status_code,
            response.data is None,
            response.error == Some(error_message),
            response.well_formed(),
    {
        ApiResponse { success: false, status_code, data: None, error: Some(error_message) }
    }
}

} // verus!
