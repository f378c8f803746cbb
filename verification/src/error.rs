//! What a request is refused with.
use vstd::prelude::*;

verus! {

/// A refusal that this service itself decides on.
pub enum ApiError {
    /// The request cannot be served as it was sent.
    InvalidRequest(String),
    /// The request lacks data that it has to carry.
    NoRequiredData(String),
    /// The record that the request is about does not exist.
    RecordNotFound(String),
    /// The service failed on its own side.
    Internal(String),
}

/// An [`ApiError`] with its message as a sequence of characters.
pub enum Problem {
    InvalidRequest(Seq<char>),
    NoRequiredData(Seq<char>),
    RecordNotFound(Seq<char>),
    Internal(Seq<char>),
}

impl View for ApiError {
    type V = Problem;

    open spec fn view(&self) -> Problem {
        match self {
            ApiError::InvalidRequest(message) => Problem::InvalidRequest(message@),
            ApiError::NoRequiredData(message) => Problem::NoRequiredData(message@),
            ApiError::RecordNotFound(message) => Problem::RecordNotFound(message@),
            ApiError::Internal(message) => Problem::Internal(message@),
        }
    }
}

/// Why a request ended without a reply: either a refusal of this service, or the error `E` that
/// one of the services behind it reported.
pub enum Failure<E> {
    Api(ApiError),
    Upstream(E),
}

impl<E> Failure<E> {
    /// The failure is this service's own refusal, with exactly this kind and message.
    pub open spec fn is_api(self, problem: Problem) -> bool {
        self matches Failure::Api(error) && error@ == problem
    }
}

/// What a request has come to with what one of the services behind this one reported.
pub open spec fn from_upstream<T, E>(outcome: Result<T, E>) -> Result<T, Failure<E>> {
    match outcome {
        Ok(value) => Ok(value),
        Err(error) => Err(Failure::Upstream(error)),
    }
}

/// Goes on with what one of the services behind this one gave, or ends the request with its error.
pub fn upstream<T, E>(outcome: Result<T, E>) -> (result: Result<T, Failure<E>>)
    ensures
        result == from_upstream(outcome),
        match outcome {
            Ok(value) => result == Ok::<T, Failure<E>>(value),
            Err(error) => result == Err::<T, Failure<E>>(Failure::Upstream(error)),
        },
{
    match outcome {
        Ok(value) => Ok(value),
        Err(error) => Err(Failure::Upstream(error)),
    }
}

/// A refusal keeps its kind and its whole message.
pub proof fn refusals_keep_their_message(message: String)
    ensures
        ApiError::InvalidRequest(message)@ == Problem::InvalidRequest(message@),
        ApiError::NoRequiredData(message)@ == Problem::NoRequiredData(message@),
        ApiError::RecordNotFound(message)@ == Problem::RecordNotFound(message@),
        ApiError::Internal(message)@ == Problem::Internal(message@),
{
}

/// A failure is one of this service exactly if it is a refusal of that kind with that message.
pub proof fn failures_are_told_apart<E>(failure: Failure<E>, problem: Problem)
    ensures
        failure.is_api(problem) <==> match (failure, problem) {
            (
                Failure::Api(ApiError::InvalidRequest(message)),
                Problem::InvalidRequest(text),
            ) => message@ == text,
            (
                Failure::Api(ApiError::NoRequiredData(message)),
                Problem::NoRequiredData(text),
            ) => message@ == text,
            (
                Failure::Api(ApiError::RecordNotFound(message)),
                Problem::RecordNotFound(text),
            ) => message@ == text,
            (Failure::Api(ApiError::Internal(message)), Problem::Internal(text)) => message@
                == text,
            _ => false,
        },
{
}

/// An outcome of another service is passed on as it is: no success is made of an error, and no
/// error of a success.
pub proof fn outcomes_are_passed_on<T, E>(value: T, error: E)
    ensures
        from_upstream(Ok::<T, E>(value)) == Ok::<T, Failure<E>>(value),
        from_upstream(Err::<T, E>(error)) == Err::<T, Failure<E>>(Failure::Upstream(error)),
{
}

} // verus!
