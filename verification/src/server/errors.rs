//! Errors the server answers requests with.
use vstd::prelude::*;

verus! {

/// An error answered to a request, with its message.
#[derive(Debug)]
pub enum AppError {
    NotFound(String),
    BadRequest(String),
    Gone(String),
    Internal(String),
}

} // verus!
