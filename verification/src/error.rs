use vstd::prelude::*;

verus! {

/// The HTTP-level failure vocabulary: each variant carries a client-safe
/// message and corresponds to exactly one HTTP status code.
#[derive(Debug)]
pub enum JsonErrorResponse {
    BadRequest(String),
    Unauthorized(String),
    PayloadTooLarge(String),
    InternalServerError(String),
}

/// The JSON body that an HTTP-level failure renders as:
/// `{"status": <code>, "error": <message>}`.
pub struct ErrorResponse {
    pub status: u16,
    pub error: String,
}

impl JsonErrorResponse {
    /// The one place that ties each variant to its HTTP status code.
    pub open spec fn status_spec(&self) -> u16 {
        match self {
            JsonErrorResponse::BadRequest(_) => 400,
            JsonErrorResponse::Unauthorized(_) => 401,
            JsonErrorResponse::PayloadTooLarge(_) => 413,
            JsonErrorResponse::InternalServerError(_) => 500,
        }
    }

    /// The message carried by any variant.
    pub open spec fn message_spec(&self) -> Seq<char> {
        match self {
            JsonErrorResponse::BadRequest(m) => m@,
            JsonErrorResponse::Unauthorized(m) => m@,
            JsonErrorResponse::PayloadTooLarge(m) => m@,
            JsonErrorResponse::InternalServerError(m) => m@,
        }
    }

    /// Classifies a numeric status code; any code outside the recognized
    /// set falls back to an internal server error.
    pub fn from_status_code(status_code: u16, message: String) -> (r: JsonErrorResponse)
        ensures
            status_code == 400 ==> r == JsonErrorResponse::BadRequest(message),
            status_code == 401 ==> r == JsonErrorResponse::Unauthorized(message),
            status_code == 413 ==> r == JsonErrorResponse::PayloadTooLarge(message),
            status_code != 400 && status_code != 401 && status_code != 413
                ==> r == JsonErrorResponse::InternalServerError(message),
            r.status_spec() == status_code || r.status_spec() == 500,
            r.message_spec() == message@,
    {
        match status_code {
            400 => JsonErrorResponse::BadRequest(message),
            401 => JsonErrorResponse::Unauthorized(message),
            413 => JsonErrorResponse::PayloadTooLarge(message),
            500 => JsonErrorResponse::InternalServerError(message),
            _ => JsonErrorResponse::InternalServerError(message),
        }
    }

    /// The human-readable message, whatever the variant.
    pub fn message(&self) -> (r: &String)
        ensures
            r@ == self.message_spec(),
    {
        match self {
            JsonErrorResponse::BadRequest(message) => message,
            JsonErrorResponse::Unauthorized(message) => message,
            JsonErrorResponse::PayloadTooLarge(message) => message,
            JsonErrorResponse::InternalServerError(message) => message,
        }
    }

    /// The HTTP status code of this failure.
    pub fn status_code(&self) -> (r: u16)
        ensures
            r == self.status_spec(),
    {
        match self {
            JsonErrorResponse::BadRequest(_) => 400,
            JsonErrorResponse::Unauthorized(_) => 401,
            JsonErrorResponse::PayloadTooLarge(_) => 413,
            JsonErrorResponse::InternalServerError(_) => 500,
        }
    }

    /// The body with which this failure is rendered to the client:
    /// its status code and its message, nothing else.
    pub fn error_response(&self) -> (r: ErrorResponse)
        ensures
            r.status == self.status_spec(),
            r.error@ == self.message_spec(),
    {
        ErrorResponse { status: self.status_code(), error: self.message().clone() }
    }
}

} // verus!
