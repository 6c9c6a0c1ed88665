//! What an HTTP handler answers.

use vstd::prelude::*;

verus! {

/// A handler's answer: success with a body, a bad request, or a refusal
/// because the session did not authenticate.
pub enum Reply<T> {
    Success(T),
    BadRequest,
    Unauthorized,
}

} // verus!
