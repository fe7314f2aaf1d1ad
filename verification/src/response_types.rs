//! The uniform envelope every operation answers with.

use vstd::prelude::*;

verus! {

/// `String::from` on a string slice yields a string of the same characters.
pub assume_specification<'a>[ <String as From<&'a str>>::from ](s: &str) -> (owned: String)
    ensures
        owned@ == s@,
;

/// A successful answer: `success` is `true` and `data` carries the payload.
pub struct SuccessResponse<T> {
    pub success: bool,
    pub data: T,
}

/// A failed answer: `success` is `false` and `error` says why.
pub struct ErrorResponse {
    pub success: bool,
    pub error: String,
}

impl<T> SuccessResponse<T> {
    /// Wraps `data` in a successful envelope.
    pub fn new(data: T) -> (response: Self)
        ensures
            response.success,
            response.data == data,
    {
        Self { success: true, data }
    }
}

impl ErrorResponse {
    /// Builds a failed envelope whose message is `error` converted to a
    /// `String`. For a string slice the message holds the same characters.
    pub fn new<E: Into<String>>(error: E) -> (response: Self)
        ensures
            !response.success,
            call_ensures(E::into, (error,), response.error),
    {
        Self { success: false, error: error.into() }
    }

    /// Whether this is the failed envelope with exactly the message `text`.
    pub open spec fn says(self, text: Seq<char>) -> bool {
        !self.success && self.error@ == text
    }
}

/// An answer is either envelope; `success` tells which.
pub open spec fn well_formed<T>(answer: Result<SuccessResponse<T>, ErrorResponse>) -> bool {
    match answer {
        Ok(response) => response.success,
        Err(error) => !error.success,
    }
}

/// What an answer says: the payload's view where it succeeded, the error's
/// message where it failed.
pub open spec fn outcome<T: View>(answer: Result<SuccessResponse<T>, ErrorResponse>) -> Result<
    T::V,
    Seq<char>,
> {
    match answer {
        Ok(response) => Ok(response.data@),
        Err(error) => Err(error.error@),
    }
}

} // verus!
