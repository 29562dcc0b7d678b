use vstd::prelude::*;
use crate::error::{Error, ErrorKind};

verus! {

/// A header name and its raw value.
pub type Header = (String, Vec<u8>);

/// What an HTTP handler answers: a result, the status of a success, whether a failure is
/// still answered with status 200, and an optional redirect with extra headers.
#[derive(Debug)]
pub struct ApiResponse<T> {
    pub result: Result<T, Error>,
    pub code: u16,
    pub success_on_error: bool,
    pub redirect_to: Option<String>,
    pub headers: Option<Vec<Header>>,
}

/// The HTTP status of an error kind.
pub open spec fn status_for_kind(kind: ErrorKind) -> u16 {
    match kind {
        ErrorKind::NotFound => 404,
        ErrorKind::InvalidInput => 400,
        ErrorKind::Unauthorized => 401,
        ErrorKind::NetworkError => 502,
        ErrorKind::DatabaseError => 500,
        ErrorKind::Unknown => 500,
    }
}

/// The HTTP status that answers an error.
pub fn status_code_for(error: &Error) -> (status: u16)
    ensures
        status == status_for_kind(error@.kind),
{
    match error {
        Error::NotFound(_) => 404,
        Error::InvalidInput(_) => 400,
        Error::Unauthorized(_) => 401,
        Error::NetworkError(_) => 502,
        Error::DatabaseError(_) | Error::Unknown(_) => 500,
    }
}

/// How a response is written out.
#[derive(Debug)]
pub enum ResponsePlan<T> {
    /// Status 302 to `location`, with the given headers.
    Redirect { location: String, headers: Vec<Header> },
    /// The status with body `{"success": true, "payload": payload}`.
    Success { status: u16, payload: T },
    /// The status with body `{"success": false, "message": message}`.
    Failure { status: u16, message: String },
}

impl<T> ApiResponse<T> {
    /// A response to `result`, with status 200, no redirect and no extra headers.
    pub fn default(result: Result<T, Error>) -> (r: Self)
        ensures
            r.result == result,
            r.code == 200,
            !r.success_on_error,
            r.redirect_to is None,
            r.headers is None,
    {
        ApiResponse { result, code: 200, success_on_error: false, redirect_to: None, headers: None }
    }

    /// The response with `code`, an HTTP status from 100 to 999, as the status of a success.
    pub fn with_code(self, code: u16) -> (r: Self)
        requires
            100 <= code <= 999,
        ensures
            r == (ApiResponse { code, ..self }),
    {
        ApiResponse { code, ..self }
    }

    /// The response with failures answered with status 200 when `value` holds.
    pub fn success_on_error(self, value: bool) -> (r: Self)
        ensures
            r == (ApiResponse { success_on_error: value, ..self }),
    {
        ApiResponse { success_on_error: value, ..self }
    }

    /// The response redirecting to `url`.
    pub fn with_redirect(self, url: String) -> (r: Self)
        ensures
            r == (ApiResponse { redirect_to: Some(url), ..self }),
    {
        ApiResponse { redirect_to: Some(url), ..self }
    }

    /// The response with the given extra headers.
    pub fn with_headers(self, headers: Vec<Header>) -> (r: Self)
        ensures
            r == (ApiResponse { headers: Some(headers), ..self }),
    {
        ApiResponse { headers: Some(headers), ..self }
    }

    /// How the response is written: a redirect wins over the result; a success carries
    /// the payload with the response's code; a failure carries the error's message with
    /// status 200 if failures are answered as successes, else the error's own status.
    pub fn into_plan(self) -> (plan: ResponsePlan<T>)
        ensures
            match self.redirect_to {
                Some(url) => plan matches ResponsePlan::Redirect { location, headers } && location
                    == url && match self.headers {
                    Some(h) => headers == h,
                    None => headers@.len() == 0,
                },
                None => match self.result {
                    Ok(payload) => plan == (ResponsePlan::Success { status: self.code, payload }),
                    Err(e) => plan matches ResponsePlan::Failure { status, message } && message@
                        == e@.message && status == if self.success_on_error {
                        200
                    } else {
                        status_for_kind(e@.kind)
                    },
                },
            },
    {
        match self.redirect_to {
            Some(url) => {
                let headers = match self.headers {
                    Some(h) => h,
                    None => Vec::new(),
                };
                ResponsePlan::Redirect { location: url, headers }
            },
            None => match self.result {
                Ok(payload) => ResponsePlan::Success { status: self.code, payload },
                Err(error) => {
                    let status = if self.success_on_error {
                        200
                    } else {
                        status_code_for(&error)
                    };
                    ResponsePlan::Failure { status, message: error.to_string() }
                },
            },
        }
    }
}

} // verus!
