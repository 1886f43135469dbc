use vstd::prelude::*;

verus! {

/// The service's error taxonomy. Every failure a caller can observe is one of
/// these variants, and each maps to its own HTTP-equivalent status code, so a
/// caller can always tell "try again later, we're busy" (`Overloaded`) from
/// "you waited too long" (`TimedOut`) from "something broke" (`Internal`).
#[derive(Clone, Copy, Debug, PartialEq, Eq, Structural)]
pub enum ApiError {
    /// A read of an absent key.
    NotFound,
    /// An upsert whose value is empty.
    InvalidInput,
    /// The concurrency gate shed this request: the in-flight limit was reached.
    Overloaded,
    /// The request's handling exceeded its deadline.
    TimedOut,
    /// Any other unclassified failure.
    Internal,
}

impl ApiError {
    /// The HTTP-equivalent status code of this error.
    pub open spec fn spec_status_code(self) -> u16 {
        match self {
            ApiError::NotFound => 404,
            ApiError::InvalidInput => 400,
            ApiError::Overloaded => 503,
            ApiError::TimedOut => 408,
            ApiError::Internal => 500,
        }
    }

    pub fn status_code(&self) -> (code: u16)
        ensures
            code == self.spec_status_code(),
    {
        match self {
            ApiError::NotFound => 404,
            ApiError::InvalidInput => 400,
            ApiError::Overloaded => 503,
            ApiError::TimedOut => 408,
            ApiError::Internal => 500,
        }
    }

    /// The message body reported alongside the status code.
    pub open spec fn spec_message(self) -> Seq<char> {
        match self {
            ApiError::NotFound => "Not found."@,
            ApiError::InvalidInput => "Value must not be empty."@,
            ApiError::Overloaded => "Service is overloaded, try again later."@,
            ApiError::TimedOut => "Request timed out."@,
            ApiError::Internal => "Internal server error."@,
        }
    }

    pub fn message(&self) -> (m: &'static str)
        ensures
            m@ == self.spec_message(),
    {
        match self {
            ApiError::NotFound => "Not found.",
            ApiError::InvalidInput => "Value must not be empty.",
            ApiError::Overloaded => "Service is overloaded, try again later.",
            ApiError::TimedOut => "Request timed out.",
            ApiError::Internal => "Internal server error.",
        }
    }
}

/// Law: the error classification is unambiguous. Two errors that map to the
/// same status code are the same error; in particular a timed-out request is
/// always reported distinctly from a load-shed one.
pub proof fn lemma_status_codes_distinct(a: ApiError, b: ApiError)
    ensures
        a.spec_status_code() == b.spec_status_code() ==> a == b,
{
}

} // verus!
