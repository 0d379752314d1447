//! The answers of the server and their status codes.

use vstd::prelude::*;

verus! {

#[derive(Debug, Clone)]
pub struct Payload<T> {
    pub data: T,
}

#[derive(Debug, Clone)]
pub struct Problem<T> {
    pub status: i32,
    pub reasons: T,
}

impl Problem<Vec<String>> {
    pub fn new(status: i32, reasons: Vec<String>) -> (problem: Self)
        ensures
            problem.status == status,
            problem.reasons == reasons,
    {
        Self { status, reasons }
    }
}

pub enum ApiResponse<T> {
    Okay,
    NotFound(String),
    NotChanged,
    BadRequest(Vec<String>),
    Created(Payload<T>),
    Error(String),
    JsonData(Payload<T>),
    Unauthorized(String),
}

/// The status code that goes with each answer.
pub open spec fn status_of<T>(response: ApiResponse<T>) -> int {
    match response {
        ApiResponse::Okay => 200,
        ApiResponse::NotFound(_) => 404,
        ApiResponse::NotChanged => 304,
        ApiResponse::BadRequest(_) => 400,
        ApiResponse::Created(_) => 201,
        ApiResponse::Error(_) => 500,
        ApiResponse::JsonData(_) => 200,
        ApiResponse::Unauthorized(_) => 401,
    }
}

impl<T> ApiResponse<T> {
    /// The status code of the answer.
    pub fn status_code(&self) -> (code: u16)
        ensures
            code == status_of(*self),
    {
        match self {
            ApiResponse::Okay => 200,
            ApiResponse::NotFound(_) => 404,
            ApiResponse::NotChanged => 304,
            ApiResponse::BadRequest(_) => 400,
            ApiResponse::Created(_) => 201,
            ApiResponse::Error(_) => 500,
            ApiResponse::JsonData(_) => 200,
            ApiResponse::Unauthorized(_) => 401,
        }
    }
}

/// The body of the answer to a bad request: the status code 400 and the
/// reasons.
pub fn bad_request_problem(reasons: Vec<String>) -> (problem: Problem<Vec<String>>)
    ensures
        problem.status == 400,
        problem.reasons == reasons,
{
    Problem::new(400, reasons)
}

} // verus!
