//! Uniform JSON envelopes for successful and failed responses.
use vstd::prelude::*;

verus! {

/// A UTC instant: whole seconds since the Unix epoch and the nanoseconds
/// past that second.
#[derive(Debug, Clone, Copy, PartialEq, Eq, Structural)]
pub struct Timestamp {
    pub unix_seconds: i64,
    pub subsec_nanos: u32,
}

/// Relies on `chrono::Utc::now`, read back through `timestamp` and
/// `timestamp_subsec_nanos`. Nothing is promised of the clock.
#[verifier::external_body]
fn utc_now() -> Timestamp {
    let now = chrono::Utc::now();
    Timestamp { unix_seconds: now.timestamp(), subsec_nanos: now.timestamp_subsec_nanos() }
}

/// Success envelope around a payload; it never carries error details.
#[derive(Debug, Clone)]
pub struct ApiResponse<T> {
    /// Always `success`.
    pub status: &'static str,
    /// HTTP status code.
    pub code: u16,
    pub message: String,
    /// When the envelope was made.
    pub timestamp: Timestamp,
    pub request_id: Option<String>,
    pub data: Option<T>,
}

/// `r` is a success envelope with this code, message and payload and no
/// request id.
pub open spec fn is_success<T>(r: ApiResponse<T>, code: u16, message: Seq<char>, data: T) -> bool {
    &&& r.status@ == "success"@
    &&& r.code == code
    &&& r.message@ == message
    &&& r.request_id is None
    &&& r.data == Some(data)
}

impl<T> ApiResponse<T> {
    /// A `200 OK` success envelope.
    pub fn ok(data: T, message: &str) -> (r: Self)
        ensures
            is_success(r, 200, message@, data),
    {
        ApiResponse {
            status: "success",
            code: 200,
            timestamp: utc_now(),
            request_id: None,
            message: String::from_str(message),
            data: Some(data),
        }
    }

    /// A `201 Created` success envelope.
    pub fn created(data: T, message: &str) -> (r: Self)
        ensures
            is_success(r, 201, message@, data),
    {
        ApiResponse {
            status: "success",
            code: 201,
            timestamp: utc_now(),
            request_id: None,
            message: String::from_str(message),
            data: Some(data),
        }
    }

    /// A success envelope with the given HTTP status code.
    pub fn with_status(code: u16, data: T, message: &str) -> (r: Self)
        requires
            100 <= code <= 999,
        ensures
            is_success(r, code, message@, data),
    {
        ApiResponse {
            status: "success",
            code,
            timestamp: utc_now(),
            request_id: None,
            message: String::from_str(message),
            data: Some(data),
        }
    }

    /// The same envelope, carrying `request_id`.
    pub fn with_request_id(self, request_id: &str) -> (r: Self)
        ensures
            r.request_id matches Some(id) && id@ == request_id@,
            r.status == self.status,
            r.code == self.code,
            r.message == self.message,
            r.timestamp == self.timestamp,
            r.data == self.data,
    {
        ApiResponse { request_id: Some(String::from_str(request_id)), ..self }
    }
}

/// Error envelope; it never carries a payload.
#[derive(Debug, Clone)]
pub struct ApiError {
    /// Always `error`.
    pub status: &'static str,
    /// HTTP status code.
    pub code: u16,
    pub message: String,
    /// When the envelope was made.
    pub timestamp: Timestamp,
    pub request_id: Option<String>,
    pub details: Option<String>,
}

/// `e` is a fresh error envelope with this code and message.
pub open spec fn is_error(e: ApiError, code: u16, message: Seq<char>) -> bool {
    &&& e.status@ == "error"@
    &&& e.code == code
    &&& e.message@ == message
    &&& e.request_id is None
    &&& e.details is None
}

impl ApiError {
    fn new(code: u16, message: &str) -> (r: Self)
        ensures
            is_error(r, code, message@),
    {
        ApiError {
            status: "error",
            code,
            timestamp: utc_now(),
            request_id: None,
            message: String::from_str(message),
            details: None,
        }
    }

    /// `400 Bad Request`.
    pub fn bad_request(message: &str) -> (r: Self)
        ensures
            is_error(r, 400, message@),
    {
        Self::new(400, message)
    }

    /// `401 Unauthorized`.
    pub fn unauthorized(message: &str) -> (r: Self)
        ensures
            is_error(r, 401, message@),
    {
        Self::new(401, message)
    }

    /// `403 Forbidden`.
    pub fn forbidden(message: &str) -> (r: Self)
        ensures
            is_error(r, 403, message@),
    {
        Self::new(403, message)
    }

    /// `404 Not Found`.
    pub fn not_found(message: &str) -> (r: Self)
        ensures
            is_error(r, 404, message@),
    {
        Self::new(404, message)
    }

    /// `500 Internal Server Error`.
    pub fn internal(message: &str) -> (r: Self)
        ensures
            is_error(r, 500, message@),
    {
        Self::new(500, message)
    }

    /// `503 Service Unavailable`.
    pub fn service_unavailable(message: &str) -> (r: Self)
        ensures
            is_error(r, 503, message@),
    {
        Self::new(503, message)
    }

    /// The same error, carrying `request_id`.
    pub fn with_request_id(self, request_id: &str) -> (r: Self)
        ensures
            r.request_id matches Some(id) && id@ == request_id@,
            r.status == self.status,
            r.code == self.code,
            r.message == self.message,
            r.timestamp == self.timestamp,
            r.details == self.details,
    {
        ApiError { request_id: Some(String::from_str(request_id)), ..self }
    }

    /// The same error, carrying `details`.
    pub fn with_details(self, details: &str) -> (r: Self)
        ensures
            r.details matches Some(d) && d@ == details@,
            r.status == self.status,
            r.code == self.code,
            r.message == self.message,
            r.timestamp == self.timestamp,
            r.request_id == self.request_id,
    {
        ApiError { details: Some(String::from_str(details)), ..self }
    }
}

} // verus!
