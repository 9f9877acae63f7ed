//! The request signer: from the parts of a request, the credentials and the
//! instant of signing, the headers that carry the signature. The signature
//! itself is computed by aws_sign_v4.

use crate::credentials::{Credentials, CredentialsView};
use crate::error::{GoodreadsError, GoodreadsErrorView};
use crate::federation::header_views;
use crate::timestamp::{Timestamp, NANOS_PER_SEC};
use vstd::prelude::*;

verus! {

/// Whether `reqwest::Url::parse` reads a URL from `url`.
pub uninterp spec fn url_parses(url: Seq<char>) -> bool;

/// The host of a URL, as `url::Url::host_str` gives it for what
/// `reqwest::Url::parse` reads from `url`: `None` where the text is no URL, or
/// a URL without a host.
pub uninterp spec fn url_host(url: Seq<char>) -> Option<Seq<char>>;

/// The text that chrono's `DateTime::to_rfc3339` writes for the instant that
/// `DateTime::from_timestamp` makes of seconds and nanoseconds: `None` where
/// it makes none.
pub uninterp spec fn rfc3339_text(secs: int, nanos: int) -> Option<Seq<char>>;

/// The value of the authorization header that `aws_sign_v4::AwsSign::sign`
/// computes for a request: `None` where a header is none that the http crate
/// accepts, or the instant none that chrono accepts.
pub uninterp spec fn aws_signature(
    method: Seq<char>,
    url: Seq<char>,
    secs: int,
    nanos: int,
    headers: Seq<(Seq<char>, Seq<char>)>,
    region: Seq<char>,
    access_key: Seq<char>,
    secret_key: Seq<char>,
    service: Seq<char>,
    body: Seq<u8>,
) -> Option<Seq<char>>;

/// `reqwest::Url::parse`: whether it reads a URL from `url`, or reports an
/// error.
#[verifier::external_body]
pub(crate) fn parses_as_url(url: &str) -> (parses: bool)
    ensures
        parses == url_parses(url@),
{
    reqwest::Url::parse(url).is_ok()
}

/// `reqwest::Url::parse`, then `Url::host_str`.
#[verifier::external_body]
pub(crate) fn host_of(url: &str) -> (host: Option<String>)
    ensures
        match host {
            Some(name) => url_host(url@) == Some(name@),
            None => url_host(url@) is None,
        },
{
    let parsed = reqwest::Url::parse(url).ok()?;
    Some(parsed.host_str()?.to_owned())
}

/// `chrono::DateTime::from_timestamp`, then `DateTime::to_rfc3339`.
#[verifier::external_body]
fn rfc3339(secs: i64, nanos: u32) -> (text: Option<String>)
    ensures
        match text {
            Some(written) => rfc3339_text(secs as int, nanos as int) == Some(written@),
            None => rfc3339_text(secs as int, nanos as int) is None,
        },
{
    let when = chrono::DateTime::from_timestamp(secs, nanos)?;
    Some(when.to_rfc3339())
}

/// `aws_sign_v4::AwsSign::new`, then `AwsSign::sign`, on the headers as an
/// `http::HeaderMap` and the instant as a `chrono::DateTime`. `new` panics on
/// a text that is no URL, so the URL must be one that has a host.
#[verifier::external_body]
fn signature(
    method: &str,
    url: &str,
    secs: i64,
    nanos: u32,
    headers: &Vec<(String, String)>,
    region: &str,
    access_key: &str,
    secret_key: &str,
    service: &str,
    body: &[u8],
) -> (signed: Option<String>)
    requires
        url_host(url@) is Some,
    ensures
        match signed {
            Some(text) => aws_signature(
                method@,
                url@,
                secs as int,
                nanos as int,
                header_views(headers@),
                region@,
                access_key@,
                secret_key@,
                service@,
                body@,
            ) == Some(text@),
            None => aws_signature(
                method@,
                url@,
                secs as int,
                nanos as int,
                header_views(headers@),
                region@,
                access_key@,
                secret_key@,
                service@,
                body@,
            ) is None,
        },
{
    let mut map = http::HeaderMap::new();
    for (name, value) in headers {
        let name = http::HeaderName::from_bytes(name.as_bytes()).ok()?;
        map.try_insert(name, http::HeaderValue::from_str(value).ok()?).ok()?;
    }
    let when = chrono::DateTime::from_timestamp(secs, nanos)?;
    let signer = aws_sign_v4::AwsSign::new(
        method, url, &when, &map, region, access_key, secret_key, service, body,
    );
    Some(signer.sign())
}

/// What is to be signed.
#[derive(Debug)]
pub struct SigningRequest {
    pub method: String,
    pub url: String,
    /// The headers of the request that go into the signature, besides those
    /// that signing adds.
    pub headers: Vec<(String, String)>,
    pub region: String,
    pub service: String,
    pub body: Vec<u8>,
}

/// What a [`SigningRequest`] holds.
pub struct SigningRequestView {
    pub method: Seq<char>,
    pub url: Seq<char>,
    pub headers: Seq<(Seq<char>, Seq<char>)>,
    pub region: Seq<char>,
    pub service: Seq<char>,
    pub body: Seq<u8>,
}

impl View for SigningRequest {
    type V = SigningRequestView;

    open spec fn view(&self) -> SigningRequestView {
        SigningRequestView {
            method: self.method@,
            url: self.url@,
            headers: header_views(self.headers@),
            region: self.region@,
            service: self.service@,
            body: self.body@,
        }
    }
}

/// Names the region and the service that requests to the GraphQL API are
/// signed for.
#[derive(Clone, Copy, Debug, Default)]
pub struct GoodreadsSigningService {}

impl GoodreadsSigningService {
    /// The name of this step.
    pub fn name(&self) -> (name: &'static str)
        ensures
            name@ == "goodreads_signing_information"@,
    {
        "goodreads_signing_information"
    }

    /// The request, to be signed for the service `appsync` in the region
    /// `us-east-1`.
    pub fn apply(&self, request: SigningRequest) -> (scoped: Result<SigningRequest, GoodreadsError>)
        ensures
            scoped matches Ok(made) && made@ == (SigningRequestView {
                region: "us-east-1"@,
                service: "appsync"@,
                ..request@
            }),
    {
        let mut request = request;
        request.region = "us-east-1".to_owned();
        request.service = "appsync".to_owned();
        Ok(request)
    }
}

/// The headers that are signed: those of the request, then the session
/// token, the date and the host.
pub open spec fn headers_to_sign(
    headers: Seq<(Seq<char>, Seq<char>)>,
    token: Seq<char>,
    date: Seq<char>,
    host: Seq<char>,
) -> Seq<(Seq<char>, Seq<char>)> {
    headers + seq![("x-amz-security-token"@, token), ("x-amz-date"@, date), ("host"@, host)]
}

/// The headers that a signed request carries: those that are signed, and
/// the authorization that the signature makes. `None` where the request
/// cannot be signed: its URL has no host, the instant is none that a date can
/// be written for, or a header is none that can be sent.
pub open spec fn signed_headers(
    request: SigningRequestView,
    credentials: CredentialsView,
    now: int,
) -> Option<Seq<(Seq<char>, Seq<char>)>> {
    let secs = now / (NANOS_PER_SEC as int);
    let nanos = now % (NANOS_PER_SEC as int);
    if secs < i64::MIN || secs > i64::MAX {
        None
    } else {
        match (url_host(request.url), rfc3339_text(secs, nanos)) {
            (Some(host), Some(date)) => {
                let headers = headers_to_sign(
                    request.headers,
                    credentials.session_token,
                    date,
                    host,
                );
                match aws_signature(
                    request.method,
                    request.url,
                    secs,
                    nanos,
                    headers,
                    request.region,
                    credentials.access_key_id,
                    credentials.secret_key,
                    request.service,
                    request.body,
                ) {
                    Some(authorization) => Some(headers.push(("authorization"@, authorization))),
                    None => None,
                }
            },
            _ => None,
        }
    }
}

/// A copy of some headers.
fn copy_headers(headers: &Vec<(String, String)>) -> (copy: Vec<(String, String)>)
    ensures
        header_views(copy@) == header_views(headers@),
{
    let mut copy: Vec<(String, String)> = Vec::new();
    let mut at: usize = 0;
    while at < headers.len()
        invariant
            at <= headers.len(),
            copy.len() == at,
            forall|i: int|
                0 <= i < at ==> copy[i].0@ == headers[i].0@ && copy[i].1@ == headers[i].1@,
        decreases headers.len() - at,
    {
        copy.push((headers[at].0.clone(), headers[at].1.clone()));
        at = at + 1;
    }
    proof {
        assert(header_views(copy@) =~= header_views(headers@));
    }
    copy
}

/// Signs a request with the given credentials at the instant `now`, and
/// gives the headers to send with it: those of the request, the session
/// token, the date, the host, and last the authorization, whose value is the
/// signature. Nothing but the arguments goes into the result: no clock is
/// read.
pub fn sign(request: &SigningRequest, credentials: &Credentials, now: Timestamp) -> (r: Result<
    Vec<(String, String)>,
    GoodreadsError,
>)
    ensures
        match r {
            Ok(headers) => signed_headers(request@, credentials@, now@) == Some(
                header_views(headers@),
            ),
            Err(error) => signed_headers(request@, credentials@, now@) is None && error@
                == GoodreadsErrorView::RequestError,
        },
{
    let whole = now.secs();
    if whole < i64::MIN as i128 || whole > i64::MAX as i128 {
        return Err(GoodreadsError::RequestError);
    }
    let secs: i64 = whole as i64;
    let nanos = now.subsec_nanos();
    let host = match host_of(request.url.as_str()) {
        Some(host) => host,
        None => {
            return Err(GoodreadsError::RequestError);
        },
    };
    let date = match rfc3339(secs, nanos) {
        Some(date) => date,
        None => {
            return Err(GoodreadsError::RequestError);
        },
    };
    let mut headers = copy_headers(&request.headers);
    headers.push(("x-amz-security-token".to_owned(), credentials.session_token.clone()));
    headers.push(("x-amz-date".to_owned(), date));
    headers.push(("host".to_owned(), host));
    proof {
        assert(header_views(headers@) =~= headers_to_sign(
            request@.headers,
            credentials@.session_token,
            date@,
            host@,
        ));
    }
    let authorization = match signature(
        request.method.as_str(),
        request.url.as_str(),
        secs,
        nanos,
        &headers,
        request.region.as_str(),
        credentials.access_key_id.as_str(),
        credentials.secret_key.as_str(),
        request.service.as_str(),
        request.body.as_slice(),
    ) {
        Some(authorization) => authorization,
        None => {
            return Err(GoodreadsError::RequestError);
        },
    };
    let ghost signed = header_views(headers@);
    headers.push(("authorization".to_owned(), authorization));
    proof {
        assert(header_views(headers@) =~= signed.push(("authorization"@, authorization@)));
    }
    Ok(headers)
}

} // verus!
