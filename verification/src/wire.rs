//! The JSON form of credentials: the object that the cache file holds, and
//! that the federation service answers with.

use crate::credentials::{Credentials, CredentialsView};
use crate::decimal::{nanos_of_text, parse_timestamp, print_timestamp, text_of_nanos, text_of_nanos_reads_back};
use crate::error::{GoodreadsError, SerdeFailure};
use crate::json::{
    empty_object, member, member_of, null_value, number_value, parse, parsed, render, rendered,
    scalar, text_value, value_model, with_member, Json, Scalar,
};
use crate::timestamp::Timestamp;
use vstd::prelude::*;

verus! {

/// The text under `key`, where the document is an object that holds one there.
pub open spec fn text_member(doc: Json, key: Seq<char>) -> Option<Seq<char>> {
    match member_of(doc, key) {
        Some(Json::Text(text)) => Some(text),
        _ => None,
    }
}

/// The expiration that a document states: none where the member is missing or
/// null, an instant where it is a number that stands for one. `Err` for
/// anything else.
pub open spec fn expiration_member(doc: Json) -> Result<Option<int>, ()> {
    match member_of(doc, "Expiration"@) {
        None => Ok(None),
        Some(Json::Null) => Ok(None),
        Some(Json::Number(text)) => match nanos_of_text(text) {
            Some(nanos) => if i128::MIN <= nanos <= i128::MAX {
                Ok(Some(nanos))
            } else {
                Err(())
            },
            None => Err(()),
        },
        Some(_) => Err(()),
    }
}

/// The credentials that a document states, or the first part of it that is
/// not as it must be.
pub open spec fn document_credentials(doc: Json) -> Result<CredentialsView, SerdeFailure> {
    if text_member(doc, "AccessKeyId"@) is None {
        Err(SerdeFailure::AccessKeyId)
    } else if text_member(doc, "SessionToken"@) is None {
        Err(SerdeFailure::SessionToken)
    } else if text_member(doc, "SecretKey"@) is None {
        Err(SerdeFailure::SecretKey)
    } else {
        match expiration_member(doc) {
            Err(_) => Err(SerdeFailure::Expiration),
            Ok(expiration) => Ok(
                CredentialsView {
                    access_key_id: text_member(doc, "AccessKeyId"@)->0,
                    session_token: text_member(doc, "SessionToken"@)->0,
                    secret_key: text_member(doc, "SecretKey"@)->0,
                    expiration,
                },
            ),
        }
    }
}

/// The document that states the given credentials.
pub open spec fn credentials_document(credentials: CredentialsView) -> Json {
    Json::Object(
        Map::empty().insert("AccessKeyId"@, Json::Text(credentials.access_key_id)).insert(
            "SessionToken"@,
            Json::Text(credentials.session_token),
        ).insert("SecretKey"@, Json::Text(credentials.secret_key)).insert(
            "Expiration"@,
            match credentials.expiration {
                None => Json::Null,
                Some(nanos) => Json::Number(text_of_nanos(nanos)),
            },
        ),
    )
}

/// The credentials that the bytes of a cache file state.
pub open spec fn record_credentials(bytes: Seq<u8>) -> Result<CredentialsView, SerdeFailure> {
    match parsed(bytes) {
        None => Err(SerdeFailure::Syntax),
        Some(doc) => document_credentials(doc),
    }
}

/// The text that stands under `key`.
pub(crate) fn text_at(v: &serde_json::Value, key: &str) -> (r: Option<String>)
    ensures
        match r {
            Some(text) => text_member(value_model(*v), key@) == Some(text@),
            None => text_member(value_model(*v), key@) is None,
        },
{
    match member(v, key) {
        Some(found) => match scalar(found) {
            Scalar::Text(text) => Some(text),
            _ => None,
        },
        None => None,
    }
}

/// The expiration that stands in `v`.
fn expiration_at(v: &serde_json::Value) -> (r: Result<Option<Timestamp>, SerdeFailure>)
    ensures
        match r {
            Ok(Some(t)) => expiration_member(value_model(*v)) == Ok::<Option<int>, ()>(Some(t@)),
            Ok(None) => expiration_member(value_model(*v)) == Ok::<Option<int>, ()>(None),
            Err(failure) => expiration_member(value_model(*v)) is Err && failure
                == SerdeFailure::Expiration,
        },
{
    match member(v, "Expiration") {
        None => Ok(None),
        Some(found) => match scalar(found) {
            Scalar::Null => Ok(None),
            Scalar::Number(text) => match parse_timestamp(text.as_slice()) {
                Some(t) => Ok(Some(t)),
                None => Err(SerdeFailure::Expiration),
            },
            _ => Err(SerdeFailure::Expiration),
        },
    }
}

/// Reads credentials out of a JSON value.
pub fn credentials_from_value(v: &serde_json::Value) -> (r: Result<
    Credentials,
    SerdeFailure,
>)
    ensures
        match r {
            Ok(credentials) => document_credentials(value_model(*v)) == Ok::<
                CredentialsView,
                SerdeFailure,
            >(credentials@),
            Err(failure) => document_credentials(value_model(*v)) == Err::<
                CredentialsView,
                SerdeFailure,
            >(failure),
        },
{
    let access_key_id = match text_at(v, "AccessKeyId") {
        Some(text) => text,
        None => {
            return Err(SerdeFailure::AccessKeyId);
        },
    };
    let session_token = match text_at(v, "SessionToken") {
        Some(text) => text,
        None => {
            return Err(SerdeFailure::SessionToken);
        },
    };
    let secret_key = match text_at(v, "SecretKey") {
        Some(text) => text,
        None => {
            return Err(SerdeFailure::SecretKey);
        },
    };
    match expiration_at(v) {
        Ok(expiration) => Ok(Credentials { access_key_id, session_token, secret_key, expiration }),
        Err(failure) => Err(failure),
    }
}

/// Writes credentials as a JSON value.
pub fn credentials_to_value(credentials: &Credentials) -> (v: serde_json::Value)
    ensures
        value_model(v) == credentials_document(credentials@),
{
    let expiration = match &credentials.expiration {
        None => null_value(),
        Some(t) => {
            let text = print_timestamp(t);
            proof {
                text_of_nanos_reads_back(t@);
            }
            match number_value(text.as_slice()) {
                Some(number) => number,
                // What is written for an instant is always taken as a number.
                None => null_value(),
            }
        },
    };
    let object = empty_object();
    let object = with_member(object, "AccessKeyId", text_value(credentials.access_key_id.as_str()));
    let object = with_member(
        object,
        "SessionToken",
        text_value(credentials.session_token.as_str()),
    );
    let object = with_member(object, "SecretKey", text_value(credentials.secret_key.as_str()));
    with_member(object, "Expiration", expiration)
}

/// Reads credentials from the bytes of a cache file.
pub fn decode_credentials(bytes: &[u8]) -> (r: Result<Credentials, GoodreadsError>)
    ensures
        match r {
            Ok(credentials) => record_credentials(bytes@) == Ok::<CredentialsView, SerdeFailure>(
                credentials@,
            ),
            Err(GoodreadsError::SerdeError(failure)) => record_credentials(bytes@) == Err::<
                CredentialsView,
                SerdeFailure,
            >(failure),
            Err(_) => false,
        },
{
    match parse(bytes) {
        Err(_) => Err(GoodreadsError::SerdeError(SerdeFailure::Syntax)),
        Ok(v) => match credentials_from_value(&v) {
            Ok(credentials) => Ok(credentials),
            Err(failure) => Err(GoodreadsError::SerdeError(failure)),
        },
    }
}

/// Writes credentials as the bytes of a cache file: the document of the
/// credentials, as the JSON writer writes it.
pub fn encode_credentials(credentials: &Credentials) -> (r: Result<Vec<u8>, GoodreadsError>)
    ensures
        r matches Ok(bytes) && bytes@ == rendered(credentials_document(credentials@)),
{
    let v = credentials_to_value(credentials);
    match render(&v) {
        Ok(bytes) => Ok(bytes),
        // The writer always gives bytes for a value.
        Err(_) => Err(GoodreadsError::SerdeError(SerdeFailure::Write)),
    }
}

/// Reading the document that states some credentials gives those
/// credentials back, field for field: with or without a session token, with
/// or without an expiration.
pub proof fn credentials_document_reads_back(credentials: CredentialsView)
    requires
        credentials.holdable(),
    ensures
        document_credentials(credentials_document(credentials)) == Ok::<
            CredentialsView,
            SerdeFailure,
        >(credentials),
{
    reveal_strlit("AccessKeyId");
    reveal_strlit("SessionToken");
    reveal_strlit("SecretKey");
    reveal_strlit("Expiration");
    assert("AccessKeyId"@.len() == 11);
    assert("SessionToken"@.len() == 12);
    assert("SecretKey"@.len() == 9);
    assert("Expiration"@.len() == 10);
    if let Some(nanos) = credentials.expiration {
        text_of_nanos_reads_back(nanos);
    }
}

/// Whatever credentials a value holds, the document that states them reads
/// back as them.
pub proof fn credentials_read_back(credentials: Credentials)
    ensures
        document_credentials(credentials_document(credentials@)) == Ok::<
            CredentialsView,
            SerdeFailure,
        >(credentials@),
{
    credentials_document_reads_back(credentials@);
}

} // verus!
