//! The errors of the client of the server's interface.

use reqwest::StatusCode;
use vstd::prelude::*;
use vstd::string::StringExecFns;

verus! {

/// The error of the `reqwest` crate, carried through as it is.
#[verifier::external_type_specification]
#[verifier::external_body]
pub struct ExReqwestError(reqwest::Error);

/// The error of the `serde_json` crate, carried through as it is.
#[verifier::external_type_specification]
#[verifier::external_body]
pub struct ExJsonError(serde_json::Error);

/// The error of the `serde_path_to_error` crate, carried through as it is.
#[verifier::external_type_specification]
#[verifier::external_body]
#[verifier::reject_recursive_types(E)]
pub struct ExPathError<E>(serde_path_to_error::Error<E>);

/// How a status code is written out: the number and its reason phrase.
pub uninterp spec fn status_display(status: u16) -> Seq<char>;

/// Makes a `StatusCode` of the `http` crate, as `reqwest` hands it on, from
/// the number with `StatusCode::from_u16` and writes it out with its
/// `Display`: the number, a space, and the reason phrase. `from_u16` takes
/// the numbers from 100 to 999, and the text depends on the number alone.
#[verifier::external_body]
fn status_text(status: u16) -> (text: String)
    requires
        100 <= status <= 999,
    ensures
        text@ == status_display(status),
{
    match StatusCode::from_u16(status) {
        Ok(code) => code.to_string(),
        Err(_) => String::new(),
    }
}

/// An answer of the server that reports a failure.
#[derive(Debug, Clone, PartialEq, Eq)]
pub struct ResponseError {
    /// The status code of the answer.
    pub status: u16,
    /// The body of the answer.
    pub response: String,
}

impl ResponseError {
    /// Whether the status code is one that an answer can carry.
    pub open spec fn wf(self) -> bool {
        100 <= self.status <= 999
    }

    /// The error in words, in contracts.
    pub open spec fn text(self) -> Seq<char> {
        "Response failed. Status="@ + status_display(self.status) + ", response="@
            + self.response@
    }

    /// The error in words.
    pub fn to_string(&self) -> (text: String)
        requires
            self.wf(),
        ensures
            text@ == self.text(),
    {
        let status = status_text(self.status);
        response_failed(status.as_str(), self.response.as_str())
    }
}

/// The words for an answer that reports a failure, made of the status as
/// it is written out and of the body of the answer.
pub fn response_failed(status: &str, response: &str) -> (text: String)
    ensures
        text@ == "Response failed. Status="@ + status@ + ", response="@ + response@,
{
    let mut text = "Response failed. Status=".to_owned();
    text.append(status);
    text.append(", response=");
    text.append(response);
    text
}

/// What can go wrong between the client and the server.
#[derive(Debug)]
pub enum APIError {
    /// The request could not be sent or the answer could not be read.
    NetworkError(reqwest::Error),
    /// The server answered with a failure that the request does not
    /// expect; the text says which.
    UnknownError(String),
    /// The answer does not have the expected form.
    InvalidResponseSchema(serde_path_to_error::Error<serde_json::Error>),
    /// The request could not be written down.
    InvalidRequestSchema(serde_json::Error),
}

/// Why a login failed.
#[derive(Debug, Clone, Copy, PartialEq, Eq)]
pub enum AuthError {
    InvalidCredentials,
}

/// Either an error of the interface or an error that the request itself
/// knows how to deal with.
#[derive(Debug)]
pub enum FusedError<T> {
    APIError(APIError),
    DomainError(T),
}

impl APIError {
    /// The error in words.
    pub fn to_string(&self) -> (text: String)
        ensures
            text@ == match self {
                APIError::NetworkError(_) => "Connection failed"@,
                APIError::UnknownError(_) => "Connection failed"@,
                APIError::InvalidResponseSchema(_) => "Invalid Response"@,
                APIError::InvalidRequestSchema(_) => "Invalid Request"@,
            },
    {
        match self {
            APIError::NetworkError(_) => "Connection failed".to_owned(),
            APIError::UnknownError(_) => "Connection failed".to_owned(),
            APIError::InvalidResponseSchema(_) => "Invalid Response".to_owned(),
            APIError::InvalidRequestSchema(_) => "Invalid Request".to_owned(),
        }
    }
}

impl AuthError {
    /// The error in words.
    pub fn to_string(&self) -> (text: String)
        ensures
            text@ == "Invalid credentials"@,
    {
        "Invalid credentials".to_owned()
    }
}

impl<T> FusedError<T> {
    /// The error in words.
    pub fn to_string(&self) -> (text: String)
        ensures
            text@ == match self {
                FusedError::APIError(_) => "API Error"@,
                FusedError::DomainError(_) => "Domain Error"@,
            },
    {
        match self {
            FusedError::APIError(_) => "API Error".to_owned(),
            FusedError::DomainError(_) => "Domain Error".to_owned(),
        }
    }

    /// Folds the two layers of a result into one.
    pub fn make<A>(result: Result<Result<A, T>, APIError>) -> (fused: Result<A, FusedError<T>>)
        ensures
            fused == match result {
                Ok(Ok(value)) => Ok::<A, FusedError<T>>(value),
                Ok(Err(error)) => Err(FusedError::DomainError(error)),
                Err(error) => Err(FusedError::APIError(error)),
            },
    {
        match result {
            Ok(Ok(value)) => Ok(value),
            Ok(Err(error)) => Err(FusedError::DomainError(error)),
            Err(error) => Err(FusedError::APIError(error)),
        }
    }

    /// Unfolds a result into its two layers.
    pub fn unmake<A>(result: Result<A, FusedError<T>>) -> (layers: Result<Result<A, T>, APIError>)
        ensures
            layers == match result {
                Ok(value) => Ok::<Result<A, T>, APIError>(Ok(value)),
                Err(FusedError::DomainError(error)) => Ok(Err(error)),
                Err(FusedError::APIError(error)) => Err(error),
            },
    {
        match result {
            Ok(value) => Ok(Ok(value)),
            Err(FusedError::DomainError(error)) => Ok(Err(error)),
            Err(FusedError::APIError(error)) => Err(error),
        }
    }

    /// Applies a function to the domain error and leaves an error of the
    /// interface as it is.
    pub fn map_domain_error<A>(self, func: impl Fn(T) -> A) -> (mapped: FusedError<A>)
        requires
            self matches FusedError::DomainError(error) ==> func.requires((error,)),
        ensures
            match self {
                FusedError::DomainError(error) => mapped matches FusedError::DomainError(value)
                    && func.ensures((error,), value),
                FusedError::APIError(error) => mapped == FusedError::<A>::APIError(error),
            },
    {
        match self {
            FusedError::DomainError(error) => FusedError::DomainError(func(error)),
            FusedError::APIError(error) => FusedError::APIError(error),
        }
    }
}

impl FusedError<ResponseError> {
    /// Turns the error into an error of the interface: a failure that the
    /// server reported becomes an unknown error with the failure in words.
    pub fn to_api_error(self) -> (error: APIError)
        requires
            self matches FusedError::DomainError(failure) ==> failure.wf(),
        ensures
            match self {
                FusedError::APIError(inner) => error == inner,
                FusedError::DomainError(failure) => error matches APIError::UnknownError(text)
                    && text@ == failure.text(),
            },
    {
        match self {
            FusedError::APIError(error) => error,
            FusedError::DomainError(error) => APIError::UnknownError(error.to_string()),
        }
    }
}

} // verus!
