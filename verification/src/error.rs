//! What can go wrong while credentials are fetched, read and stored.

use vstd::prelude::*;

verus! {

/// Why the federation service gave no usable answer over HTTP.
#[derive(Clone, Copy, Debug, PartialEq, Eq, Structural)]
pub enum HttpFailure {
    /// The request was not answered at all.
    Network,
    /// The answer carried a status outside 200 to 299.
    Status(u16),
}

/// Which part of a JSON document was not as it must be.
#[derive(Clone, Copy, Debug, PartialEq, Eq, Structural)]
pub enum SerdeFailure {
    /// The bytes are no JSON document.
    Syntax,
    /// No text stands under `IdentityId`.
    IdentityId,
    /// No member `Credentials` is there.
    Credentials,
    /// No text stands under `AccessKeyId`.
    AccessKeyId,
    /// No text stands under `SessionToken`.
    SessionToken,
    /// No text stands under `SecretKey`.
    SecretKey,
    /// What stands under `Expiration` is neither null nor an instant.
    Expiration,
    /// A cache could not make the durable form of credentials.
    Write,
}

/// The errors of this library.
#[derive(Debug)]
pub enum GoodreadsError {
    /// A caller waited for another caller's refresh and found no valid
    /// credentials afterwards.
    FailedCredentials,
    /// A request could not be put together from its parts.
    RequestError,
    /// The federation service could not be reached, or refused.
    HttpError(HttpFailure),
    /// A document was malformed.
    SerdeError(SerdeFailure),
    /// The durable write of the cache failed, with the reason the writer gave.
    Io(String),
}

/// What a [`GoodreadsError`] holds.
pub enum GoodreadsErrorView {
    FailedCredentials,
    RequestError,
    HttpError(HttpFailure),
    SerdeError(SerdeFailure),
    Io(Seq<char>),
}

impl View for GoodreadsError {
    type V = GoodreadsErrorView;

    open spec fn view(&self) -> GoodreadsErrorView {
        match self {
            GoodreadsError::FailedCredentials => GoodreadsErrorView::FailedCredentials,
            GoodreadsError::RequestError => GoodreadsErrorView::RequestError,
            GoodreadsError::HttpError(failure) => GoodreadsErrorView::HttpError(*failure),
            GoodreadsError::SerdeError(failure) => GoodreadsErrorView::SerdeError(*failure),
            GoodreadsError::Io(reason) => GoodreadsErrorView::Io(reason@),
        }
    }
}

impl GoodreadsError {
    /// The error in words.
    pub fn message(&self) -> (text: String)
        ensures
            text@ == self@.message(),
    {
        match self {
            GoodreadsError::FailedCredentials => "Failed to refresh credentials".to_owned(),
            GoodreadsError::RequestError => "Failed to build request".to_owned(),
            GoodreadsError::HttpError(_) => "Failed to reach the identity service".to_owned(),
            GoodreadsError::SerdeError(_) => "Malformed document".to_owned(),
            GoodreadsError::Io(reason) => reason.clone(),
        }
    }
}

impl GoodreadsErrorView {
    /// The error in words.
    pub open spec fn message(self) -> Seq<char> {
        match self {
            GoodreadsErrorView::FailedCredentials => "Failed to refresh credentials"@,
            GoodreadsErrorView::RequestError => "Failed to build request"@,
            GoodreadsErrorView::HttpError(_) => "Failed to reach the identity service"@,
            GoodreadsErrorView::SerdeError(_) => "Malformed document"@,
            GoodreadsErrorView::Io(reason) => reason,
        }
    }
}

} // verus!
