//! What the client of the server's interface decides: where a request
//! goes, and what an answer means.

use crate::errors::{APIError, AuthError, FusedError, ResponseError};
use vstd::prelude::*;
use vstd::string::StringExecFns;

verus! {

/// Where the server is.
#[derive(Debug, Clone, PartialEq, Eq)]
pub struct ClientConfig {
    /// The address of the server, as text.
    pub root_url: String,
}

/// The status code of an answer that refuses the credentials.
pub const UNAUTHORIZED: u16 = 401;

/// Whether a status code reports success: the codes from 200 to 299.
pub open spec fn is_success(status: u16) -> bool {
    200 <= status < 300
}

/// Puts three pieces of text one after the other.
fn join3(first: &str, second: &str, third: &str) -> (text: String)
    ensures
        text@ == first@ + second@ + third@,
{
    let mut text = first.to_owned();
    text.append(second);
    text.append(third);
    text
}

impl ClientConfig {
    /// The address of a library.
    pub fn library_url(&self, id: &str) -> (url: String)
        ensures
            url@ == self.root_url@ + "/api/libraries/"@ + id@,
    {
        join3(self.root_url.as_str(), "/api/libraries/", id)
    }

    /// The address of the items of a library.
    pub fn library_items_url(&self, id: &str) -> (url: String)
        ensures
            url@ == self.root_url@ + "/api/libraries/"@ + id@ + "/items"@,
    {
        let mut url = join3(self.root_url.as_str(), "/api/libraries/", id);
        url.append("/items");
        url
    }

    /// The address of a library item.
    pub fn library_item_url(&self, id: &str) -> (url: String)
        ensures
            url@ == self.root_url@ + "/api/items/"@ + id@,
    {
        join3(self.root_url.as_str(), "/api/items/", id)
    }

    /// The address that a library item is asked to be played at.
    pub fn library_item_play_url(&self, id: &str) -> (url: String)
        ensures
            url@ == self.root_url@ + "/api/items/"@ + id@ + "/play"@,
    {
        let mut url = join3(self.root_url.as_str(), "/api/items/", id);
        url.append("/play");
        url
    }
}

/// Tells an answer that carries a value from one that reports a failure:
/// with a status code of success the body is handed on to be read, and
/// with any other code the code and the body make the error.
pub fn classify_response(status: u16, body: String) -> (result: Result<String, ResponseError>)
    ensures
        result == if is_success(status) {
            Ok::<String, ResponseError>(body)
        } else {
            Err(ResponseError { status, response: body })
        },
{
    if 200 <= status && status < 300 {
        Ok(body)
    } else {
        Err(ResponseError { status, response: body })
    }
}

/// What a failed login means: an error of the interface stays what it is,
/// an answer that refuses the credentials says that they are invalid, and
/// any other failure of the server becomes an unknown error of the
/// interface.
pub fn map_auth_error(error: FusedError<ResponseError>) -> (mapped: FusedError<AuthError>)
    requires
        error matches FusedError::DomainError(failure) ==> failure.wf(),
    ensures
        match error {
            FusedError::APIError(inner) => mapped == FusedError::<AuthError>::APIError(inner),
            FusedError::DomainError(failure) => if failure.status == UNAUTHORIZED {
                mapped == FusedError::DomainError(AuthError::InvalidCredentials)
            } else {
                mapped matches FusedError::APIError(APIError::UnknownError(text)) && text@
                    == failure.text()
            },
        },
{
    match error {
        FusedError::APIError(inner) => FusedError::APIError(inner),
        FusedError::DomainError(failure) => {
            if failure.status == UNAUTHORIZED {
                FusedError::DomainError(AuthError::InvalidCredentials)
            } else {
                FusedError::APIError(FusedError::DomainError(failure).to_api_error())
            }
        },
    }
}

} // verus!
