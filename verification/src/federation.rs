//! The exchange with the identity federation service: a pool identifier is
//! traded for an identity, and the identity for credentials. Both are one
//! HTTP POST to the same address, told apart by a header.
//!
//! Nothing is sent from here. A request is described for the sender, and the
//! answer that came back is read. The exchange as a whole is a sequence of
//! steps: [`fetch_new_credential`] opens it, and [`continue_exchange`] takes
//! each answer and says what comes next.

use crate::credentials::{Credentials, CredentialsView, Identity};
use crate::error::{GoodreadsError, GoodreadsErrorView, HttpFailure, SerdeFailure};
use crate::json::{
    empty_object, member, member_of, parse, parsed, render, rendered, text_value, value_model,
    with_member, Json,
};
use crate::wire::{credentials_from_value, document_credentials, text_at, text_member};
use vstd::prelude::*;

verus! {

/// Where the federation service listens.
pub const COGNITO_IDENT_URL: &'static str = "https://cognito-identity.us-east-1.amazonaws.com/";

/// An HTTP POST for the sender to make.
#[derive(Debug)]
pub struct FederationRequest {
    pub url: String,
    pub headers: Vec<(String, String)>,
    pub body: Vec<u8>,
}

/// What a [`FederationRequest`] holds.
pub struct FederationRequestView {
    pub url: Seq<char>,
    pub headers: Seq<(Seq<char>, Seq<char>)>,
    pub body: Seq<u8>,
}

/// Names and values of headers, as texts.
pub open spec fn header_views(headers: Seq<(String, String)>) -> Seq<(Seq<char>, Seq<char>)> {
    Seq::new(headers.len(), |i: int| (headers[i].0@, headers[i].1@))
}

impl View for FederationRequest {
    type V = FederationRequestView;

    open spec fn view(&self) -> FederationRequestView {
        FederationRequestView {
            url: self.url@,
            headers: header_views(self.headers@),
            body: self.body@,
        }
    }
}

/// An HTTP answer: its status and the bytes of its body.
#[derive(Debug)]
pub struct HttpResponse {
    pub status: u16,
    pub body: Vec<u8>,
}

/// The headers of a request for the operation `target`.
pub open spec fn federation_headers(target: Seq<char>) -> Seq<(Seq<char>, Seq<char>)> {
    seq![
        ("x-amz-target"@, target),
        ("x-amz-user-agent"@, "aws-sdk-js/2.711.0 callback"@),
        ("content-type"@, "application/x-amz-json-1.1"@),
    ]
}

/// The request for the operation `target` whose body is the object with the
/// one member `key`, a text.
pub open spec fn federation_request(
    target: Seq<char>,
    key: Seq<char>,
    value: Seq<char>,
) -> FederationRequestView {
    FederationRequestView {
        url: COGNITO_IDENT_URL@,
        headers: federation_headers(target),
        body: rendered(Json::Object(Map::empty().insert(key, Json::Text(value)))),
    }
}

/// The request that asks for an identity of the pool `pool`.
pub open spec fn identity_request_of(pool: Seq<char>) -> FederationRequestView {
    federation_request("AWSCognitoIdentityService.GetId"@, "IdentityPoolId"@, pool)
}

/// The request that asks for the credentials of `identity`.
pub open spec fn credentials_request_of(identity: Seq<char>) -> FederationRequestView {
    federation_request(
        "AWSCognitoIdentityService.GetCredentialsForIdentity"@,
        "IdentityId"@,
        identity,
    )
}

/// Whether an HTTP status tells of success: 200 to 299.
pub open spec fn status_is_success(status: u16) -> bool {
    200 <= status < 300
}

/// The JSON document of an answer: its body where the status tells of
/// success and the body is a document.
pub open spec fn response_document(status: u16, body: Seq<u8>) -> Result<Json, SerdeResponseError> {
    if !status_is_success(status) {
        Err(SerdeResponseError::HttpError(status))
    } else {
        match parsed(body) {
            Some(doc) => Ok(doc),
            None => Err(SerdeResponseError::SerdeError),
        }
    }
}

/// The identity that an answer states.
pub open spec fn response_identity(status: u16, body: Seq<u8>) -> Result<
    Seq<char>,
    GoodreadsErrorView,
> {
    match response_document(status, body) {
        Err(error) => Err(error.as_error()),
        Ok(doc) => match text_member(doc, "IdentityId"@) {
            Some(identity) => Ok(identity),
            None => Err(GoodreadsErrorView::SerdeError(SerdeFailure::IdentityId)),
        },
    }
}

/// The credentials that an answer states: those under its member
/// `Credentials`.
pub open spec fn response_credentials(status: u16, body: Seq<u8>) -> Result<
    CredentialsView,
    GoodreadsErrorView,
> {
    match response_document(status, body) {
        Err(error) => Err(error.as_error()),
        Ok(doc) => match member_of(doc, "Credentials"@) {
            None => Err(GoodreadsErrorView::SerdeError(SerdeFailure::Credentials)),
            Some(inner) => match document_credentials(inner) {
                Ok(credentials) => Ok(credentials),
                Err(failure) => Err(GoodreadsErrorView::SerdeError(failure)),
            },
        },
    }
}

/// Why an answer gave no document.
#[derive(Clone, Copy, Debug, PartialEq, Eq, Structural)]
pub enum SerdeResponseError {
    /// The status told of no success.
    HttpError(u16),
    /// The body is no JSON document.
    SerdeError,
}

impl SerdeResponseError {
    /// The same failure among the errors of the library.
    pub open spec fn as_error(self) -> GoodreadsErrorView {
        match self {
            SerdeResponseError::HttpError(status) => GoodreadsErrorView::HttpError(
                HttpFailure::Status(status),
            ),
            SerdeResponseError::SerdeError => GoodreadsErrorView::SerdeError(SerdeFailure::Syntax),
        }
    }

    /// The same failure among the errors of the library.
    pub fn into_error(self) -> (error: GoodreadsError)
        ensures
            error@ == self.as_error(),
    {
        match self {
            SerdeResponseError::HttpError(status) => GoodreadsError::HttpError(
                HttpFailure::Status(status),
            ),
            SerdeResponseError::SerdeError => GoodreadsError::SerdeError(SerdeFailure::Syntax),
        }
    }
}

/// Reads the JSON document out of an HTTP answer.
#[derive(Debug)]
pub struct SerdeResponseParser {}

impl Default for SerdeResponseParser {
    fn default() -> Self {
        SerdeResponseParser {  }
    }
}

impl Clone for SerdeResponseParser {
    fn clone(&self) -> Self {
        SerdeResponseParser {  }
    }
}

impl SerdeResponseParser {
    /// The document of `response`. An answer whose status tells of no
    /// success is refused with that status, whatever its body holds.
    pub fn parse(&self, response: &HttpResponse) -> (r: Result<
        serde_json::Value,
        SerdeResponseError,
    >)
        ensures
            match r {
                Ok(v) => response_document(response.status, response.body@) == Ok::<
                    Json,
                    SerdeResponseError,
                >(value_model(v)),
                Err(error) => response_document(response.status, response.body@) == Err::<
                    Json,
                    SerdeResponseError,
                >(error),
            },
    {
        if !is_success(response.status) {
            Err(SerdeResponseError::HttpError(response.status))
        } else {
            match parse(response.body.as_slice()) {
                Ok(v) => Ok(v),
                Err(_) => Err(SerdeResponseError::SerdeError),
            }
        }
    }
}

/// Whether an HTTP status tells of success.
pub fn is_success(status: u16) -> (success: bool)
    ensures
        success == status_is_success(status),
{
    200 <= status && status < 300
}

/// Puts a request together.
fn build_request(target: &str, key: &str, value: &str) -> (r: Result<
    FederationRequest,
    GoodreadsError,
>)
    ensures
        r matches Ok(request) && request@ == federation_request(target@, key@, value@),
{
    let body = with_member(empty_object(), key, text_value(value));
    match render(&body) {
        // The writer always gives bytes for a value.
        Err(_) => Err(GoodreadsError::SerdeError(SerdeFailure::Write)),
        Ok(bytes) => {
            let mut headers: Vec<(String, String)> = Vec::new();
            headers.push(("x-amz-target".to_owned(), target.to_owned()));
            headers.push(("x-amz-user-agent".to_owned(), "aws-sdk-js/2.711.0 callback".to_owned()));
            headers.push(("content-type".to_owned(), "application/x-amz-json-1.1".to_owned()));
            let request = FederationRequest {
                url: COGNITO_IDENT_URL.to_owned(),
                headers,
                body: bytes,
            };
            proof {
                assert(request@.headers =~= federation_headers(target@));
            }
            Ok(request)
        },
    }
}

/// The request that asks the federation service for an identity of the pool
/// `pool`.
pub fn identity_request(pool: &str) -> (r: Result<FederationRequest, GoodreadsError>)
    ensures
        r matches Ok(request) && request@ == identity_request_of(pool@),
{
    build_request("AWSCognitoIdentityService.GetId", "IdentityPoolId", pool)
}

/// The request that asks the federation service for the credentials of
/// `identity`.
pub fn credentials_request(identity: &Identity) -> (r: Result<FederationRequest, GoodreadsError>)
    ensures
        r matches Ok(request) && request@ == credentials_request_of(identity@),
{
    build_request(
        "AWSCognitoIdentityService.GetCredentialsForIdentity",
        "IdentityId",
        identity.identity_id.as_str(),
    )
}

/// The identity that the service answered with.
pub fn identity_from_response(response: &HttpResponse) -> (r: Result<Identity, GoodreadsError>)
    ensures
        match r {
            Ok(identity) => response_identity(response.status, response.body@) == Ok::<
                Seq<char>,
                GoodreadsErrorView,
            >(identity@),
            Err(error) => response_identity(response.status, response.body@) == Err::<
                Seq<char>,
                GoodreadsErrorView,
            >(error@),
        },
{
    let parser = SerdeResponseParser::default();
    match parser.parse(response) {
        Err(error) => Err(error.into_error()),
        Ok(doc) => match text_at(&doc, "IdentityId") {
            Some(identity_id) => Ok(Identity { identity_id }),
            None => Err(GoodreadsError::SerdeError(SerdeFailure::IdentityId)),
        },
    }
}

/// The credentials that the service answered with.
pub fn credentials_from_response(response: &HttpResponse) -> (r: Result<
    Credentials,
    GoodreadsError,
>)
    ensures
        match r {
            Ok(credentials) => response_credentials(response.status, response.body@) == Ok::<
                CredentialsView,
                GoodreadsErrorView,
            >(credentials@),
            Err(error) => response_credentials(response.status, response.body@) == Err::<
                CredentialsView,
                GoodreadsErrorView,
            >(error@),
        },
{
    let parser = SerdeResponseParser::default();
    match parser.parse(response) {
        Err(error) => Err(error.into_error()),
        Ok(doc) => match member(&doc, "Credentials") {
            None => Err(GoodreadsError::SerdeError(SerdeFailure::Credentials)),
            Some(inner) => match credentials_from_value(inner) {
                Ok(credentials) => Ok(credentials),
                Err(failure) => Err(GoodreadsError::SerdeError(failure)),
            },
        },
    }
}

/// How far an exchange has come.
#[derive(Clone, Copy, Debug, PartialEq, Eq, Structural)]
pub enum ExchangeStage {
    /// The request for an identity is out.
    AwaitingIdentity,
    /// The request for credentials is out.
    AwaitingCredentials,
}

/// What an exchange needs next, or what it brought.
#[derive(Debug)]
pub enum ExchangeStep {
    /// Send this request and come back with the answer; the exchange is then
    /// at this stage.
    Send(ExchangeStage, FederationRequest),
    /// The exchange is over, with these credentials or this error. Nothing
    /// is tried again.
    Done(Result<Credentials, GoodreadsError>),
}

/// What an [`ExchangeStep`] holds.
pub enum ExchangeStepView {
    Send(ExchangeStage, FederationRequestView),
    Done(Result<CredentialsView, GoodreadsErrorView>),
}

impl View for ExchangeStep {
    type V = ExchangeStepView;

    open spec fn view(&self) -> ExchangeStepView {
        match self {
            ExchangeStep::Send(stage, request) => ExchangeStepView::Send(*stage, request@),
            ExchangeStep::Done(Ok(credentials)) => ExchangeStepView::Done(Ok(credentials@)),
            ExchangeStep::Done(Err(error)) => ExchangeStepView::Done(Err(error@)),
        }
    }
}

/// What an optional answer holds: its status and the bytes of its body.
pub open spec fn answer_view(answer: Option<&HttpResponse>) -> Option<(u16, Seq<u8>)> {
    match answer {
        Some(response) => Some((response.status, response.body@)),
        None => None,
    }
}

/// The step that opens the exchange for the pool `pool`: the request for an
/// identity goes out.
pub open spec fn exchange_opening(pool: Seq<char>) -> ExchangeStepView {
    ExchangeStepView::Send(ExchangeStage::AwaitingIdentity, identity_request_of(pool))
}

/// The step that follows on `answer` at `stage`, where no answer means that
/// the request got none. An answer that does not state what was asked for
/// ends the exchange with that error. An identity is followed by the request
/// for its credentials; credentials end the exchange.
pub open spec fn exchange_step(
    stage: ExchangeStage,
    answer: Option<(u16, Seq<u8>)>,
) -> ExchangeStepView {
    match answer {
        None => ExchangeStepView::Done(Err(GoodreadsErrorView::HttpError(HttpFailure::Network))),
        Some((status, body)) => match stage {
            ExchangeStage::AwaitingIdentity => match response_identity(status, body) {
                Err(error) => ExchangeStepView::Done(Err(error)),
                Ok(identity) => ExchangeStepView::Send(
                    ExchangeStage::AwaitingCredentials,
                    credentials_request_of(identity),
                ),
            },
            ExchangeStage::AwaitingCredentials => match response_credentials(status, body) {
                Err(error) => ExchangeStepView::Done(Err(error)),
                Ok(credentials) => ExchangeStepView::Done(Ok(credentials)),
            },
        },
    }
}

/// Opens the exchange that brings new credentials for the pool `pool`.
pub fn fetch_new_credential(pool: &str) -> (step: ExchangeStep)
    ensures
        step@ == exchange_opening(pool@),
{
    match identity_request(pool) {
        Ok(request) => ExchangeStep::Send(ExchangeStage::AwaitingIdentity, request),
        Err(error) => ExchangeStep::Done(Err(error)),
    }
}

/// Goes on with the exchange at `stage`, given the answer to the request
/// that was sent: `None` where it got no answer.
pub fn continue_exchange(stage: ExchangeStage, answer: Option<&HttpResponse>) -> (step:
    ExchangeStep)
    ensures
        step@ == exchange_step(stage, answer_view(answer)),
{
    let response = match answer {
        Some(response) => response,
        None => {
            return ExchangeStep::Done(Err(GoodreadsError::HttpError(HttpFailure::Network)));
        },
    };
    match stage {
        ExchangeStage::AwaitingIdentity => match identity_from_response(response) {
            Err(error) => ExchangeStep::Done(Err(error)),
            Ok(identity) => match credentials_request(&identity) {
                Ok(request) => ExchangeStep::Send(ExchangeStage::AwaitingCredentials, request),
                Err(error) => ExchangeStep::Done(Err(error)),
            },
        },
        ExchangeStage::AwaitingCredentials => ExchangeStep::Done(
            credentials_from_response(response),
        ),
    }
}

} // verus!
