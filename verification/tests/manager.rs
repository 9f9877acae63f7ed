use goodreads_graphql::cache::{CredentialsCache, JsonFileCache, MemoryCache};
use goodreads_graphql::credentials::{Credentials, GOODREADS_IDENTITY_POOL};
use goodreads_graphql::error::{GoodreadsError, HttpFailure, SerdeFailure};
use goodreads_graphql::federation::HttpResponse;
use goodreads_graphql::manager::{CredentialsManager, Decision, RefreshEvent, RefreshStep};
use goodreads_graphql::timestamp::Timestamp;
use goodreads_graphql::wire::decode_credentials;
use std::sync::Arc;

const NOW: u64 = 1_700_000_000;

fn at(secs: u64) -> Timestamp {
    Timestamp::from_parts(secs, 0)
}

fn issued(token: &str, expiration: Option<Timestamp>) -> Credentials {
    Credentials {
        access_key_id: "AK1".to_string(),
        session_token: token.to_string(),
        secret_key: "SK1".to_string(),
        expiration,
    }
}

fn answered(body: String) -> RefreshEvent {
    RefreshEvent::Response(HttpResponse { status: 200, body: body.into_bytes() })
}

fn identity_answer() -> RefreshEvent {
    answered(r#"{"IdentityId":"abc"}"#.to_string())
}

fn credentials_answer(expiration: u64) -> RefreshEvent {
    answered(format!(
        r#"{{"Credentials":{{"AccessKeyId":"AK1","SecretKey":"SK1","SessionToken":"TOK1","Expiration":{expiration}}},"IdentityId":"abc"}}"#
    ))
}

fn sent(step: RefreshStep) -> (String, String) {
    match step {
        RefreshStep::Send(request) => {
            (request.headers[0].1.clone(), String::from_utf8(request.body).unwrap())
        }
        other => panic!("expected a request to send, got {:?}", other),
    }
}

fn begun(decision: Decision) -> RefreshStep {
    match decision {
        Decision::Refresh(step) => step,
        other => panic!("expected a refresh, got {:?}", other),
    }
}

fn served(decision: Decision) -> Arc<Credentials> {
    match decision {
        Decision::Serve(credentials) => credentials,
        other => panic!("expected credentials, got {:?}", other),
    }
}

fn done(step: RefreshStep) -> Result<Arc<Credentials>, GoodreadsError> {
    match step {
        RefreshStep::Done(outcome) => outcome,
        other => panic!("expected the end of the refresh, got {:?}", other),
    }
}

#[test]
fn the_first_call_fetches_and_the_second_is_served() {
    let mut manager = CredentialsManager::new(MemoryCache::new(None), Some("P".to_string()));
    let mut federation_calls = 0;

    let step = begun(manager.credentials(at(NOW)));
    assert_eq!(
        sent(step),
        ("AWSCognitoIdentityService.GetId".to_string(), r#"{"IdentityPoolId":"P"}"#.to_string())
    );
    federation_calls += 1;
    let step = manager.advance(identity_answer());
    assert_eq!(
        sent(step),
        (
            "AWSCognitoIdentityService.GetCredentialsForIdentity".to_string(),
            r#"{"IdentityId":"abc"}"#.to_string()
        )
    );
    federation_calls += 1;
    let fetched = done(manager.advance(credentials_answer(NOW + 3600))).unwrap();
    let expected = issued("TOK1", Some(at(NOW + 3600)));
    assert_eq!(*fetched, expected);
    assert_eq!(federation_calls, 2);

    for later in [NOW, NOW + 1, NOW + 1800, NOW + 3599] {
        let again = served(manager.credentials(at(later)));
        assert_eq!(*again, expected);
        assert!(Arc::ptr_eq(&again, &fetched));
    }
    assert_eq!(federation_calls, 2);
}

#[test]
fn the_default_pool_is_asked_where_none_is_given() {
    let mut manager = CredentialsManager::new(MemoryCache::new(None), None);
    let (_, body) = sent(begun(manager.credentials(at(NOW))));
    assert_eq!(body, format!(r#"{{"IdentityPoolId":"{GOODREADS_IDENTITY_POOL}"}}"#));
    assert_eq!(GOODREADS_IDENTITY_POOL, "us-east-1:16da77fa-4392-4d35-bd47-bb0e2d3f73be");
}

#[test]
fn expiring_credentials_are_served_strictly_before_their_expiration() {
    let cached = Arc::new(issued("OLD", Some(at(NOW + 10))));
    let mut manager = CredentialsManager::new(MemoryCache::new(Some(cached.clone())), None);
    assert!(Arc::ptr_eq(&served(manager.credentials(at(0))), &cached));
    assert!(Arc::ptr_eq(&served(manager.credentials(at(NOW + 9))), &cached));
    let last = Timestamp::from_parts(NOW + 9, 999_999_999);
    assert!(Arc::ptr_eq(&served(manager.credentials(last)), &cached));
    // At the expiration itself the credentials are no longer handed out.
    let step = begun(manager.credentials(at(NOW + 10)));
    assert!(matches!(step, RefreshStep::Send(_)));
    // The refresh is in flight: whoever asks now, waits.
    assert!(matches!(manager.credentials(at(NOW + 11)), Decision::Wait));
    // Time is given by the caller: before the expiration the cache still serves.
    assert!(Arc::ptr_eq(&served(manager.credentials(at(NOW + 9))), &cached));
}

#[test]
fn credentials_without_expiration_are_always_served() {
    let cached = Arc::new(issued("EVER", None));
    let mut manager = CredentialsManager::new(MemoryCache::new(Some(cached.clone())), None);
    for now in [
        Timestamp::from_nanos(i128::MIN),
        Timestamp::from_nanos(0),
        at(NOW),
        Timestamp::from_nanos(i128::MAX),
    ] {
        assert!(Arc::ptr_eq(&served(manager.credentials(now)), &cached));
    }
}

#[test]
fn of_many_callers_one_refreshes() {
    let mut manager = CredentialsManager::new(MemoryCache::new(None), Some("P".to_string()));
    let mut refreshers = 0;
    let mut waiters = 0;
    for caller in 0..50u64 {
        match manager.credentials(at(NOW + caller)) {
            Decision::Refresh(step) => {
                assert_eq!(caller, 0);
                assert!(matches!(step, RefreshStep::Send(_)));
                refreshers += 1;
            }
            Decision::Wait => waiters += 1,
            Decision::Serve(_) => panic!("nothing is there to serve"),
        }
    }
    assert_eq!((refreshers, waiters), (1, 49));
    assert!(matches!(manager.force_refresh(), Decision::Wait));

    let _ = sent(manager.advance(identity_answer()));
    assert!(matches!(manager.credentials(at(NOW)), Decision::Wait));
    let fetched = done(manager.advance(credentials_answer(NOW + 3600))).unwrap();

    for caller in 0..49u64 {
        let given = manager.credentials_after_wait(at(NOW + caller)).unwrap();
        assert!(Arc::ptr_eq(&given, &fetched));
    }
}

#[test]
fn waiters_fail_where_the_refresh_failed() {
    let stale = Arc::new(issued("OLD", Some(at(NOW))));
    let mut manager = CredentialsManager::new(MemoryCache::new(Some(stale)), None);
    let _ = begun(manager.credentials(at(NOW)));
    assert!(matches!(manager.credentials(at(NOW + 1)), Decision::Wait));
    match done(manager.advance(RefreshEvent::TransportFailed)) {
        Err(GoodreadsError::HttpError(HttpFailure::Network)) => {}
        other => panic!("expected a network failure, got {:?}", other),
    }
    match manager.credentials_after_wait(at(NOW + 2)) {
        Err(GoodreadsError::FailedCredentials) => {}
        other => panic!("expected failed credentials, got {:?}", other),
    }
    // The lock is free again: the next caller refreshes.
    assert!(matches!(manager.credentials(at(NOW + 3)), Decision::Refresh(_)));
}

#[test]
fn a_waiter_does_not_take_expired_credentials() {
    let mut manager = CredentialsManager::new(MemoryCache::new(None), None);
    let _ = begun(manager.credentials(at(NOW)));
    let _ = manager.advance(identity_answer());
    let _ = done(manager.advance(credentials_answer(NOW + 5))).unwrap();
    assert!(manager.credentials_after_wait(at(NOW + 4)).is_ok());
    assert!(matches!(
        manager.credentials_after_wait(at(NOW + 5)),
        Err(GoodreadsError::FailedCredentials)
    ));
}

#[test]
fn every_failure_of_the_exchange_ends_the_refresh() {
    let failures: Vec<(Vec<RefreshEvent>, fn(&GoodreadsError) -> bool)> = vec![
        (vec![RefreshEvent::TransportFailed], |e| {
            matches!(e, GoodreadsError::HttpError(HttpFailure::Network))
        }),
        (vec![identity_answer(), RefreshEvent::TransportFailed], |e| {
            matches!(e, GoodreadsError::HttpError(HttpFailure::Network))
        }),
        (
            vec![RefreshEvent::Response(HttpResponse { status: 429, body: Vec::new() })],
            |e| matches!(e, GoodreadsError::HttpError(HttpFailure::Status(429))),
        ),
        (vec![answered("{}".to_string())], |e| {
            matches!(e, GoodreadsError::SerdeError(SerdeFailure::IdentityId))
        }),
        (vec![answered("oops".to_string())], |e| {
            matches!(e, GoodreadsError::SerdeError(SerdeFailure::Syntax))
        }),
        (vec![identity_answer(), answered("{}".to_string())], |e| {
            matches!(e, GoodreadsError::SerdeError(SerdeFailure::Credentials))
        }),
        (
            vec![
                identity_answer(),
                RefreshEvent::Response(HttpResponse { status: 500, body: Vec::new() }),
            ],
            |e| matches!(e, GoodreadsError::HttpError(HttpFailure::Status(500))),
        ),
        (vec![RefreshEvent::Written(Ok(()))], |e| matches!(e, GoodreadsError::RequestError)),
        (vec![identity_answer(), RefreshEvent::Written(Ok(()))], |e| {
            matches!(e, GoodreadsError::RequestError)
        }),
        (vec![RefreshEvent::Abandoned], |e| matches!(e, GoodreadsError::FailedCredentials)),
        (vec![identity_answer(), RefreshEvent::Abandoned], |e| {
            matches!(e, GoodreadsError::FailedCredentials)
        }),
    ];
    for (events, expected) in failures {
        let old = Arc::new(issued("OLD", Some(at(NOW))));
        let mut manager = CredentialsManager::new(MemoryCache::new(Some(old.clone())), None);
        let _ = begun(manager.credentials(at(NOW)));
        let mut last = None;
        for event in events {
            last = Some(manager.advance(event));
        }
        let error = done(last.unwrap()).unwrap_err();
        assert!(expected(&error), "unexpected error {:?}", error);
        // The old credentials are still there, and the next caller refreshes.
        assert!(Arc::ptr_eq(&served(manager.credentials(at(NOW - 1))), &old));
        assert!(matches!(manager.credentials(at(NOW)), Decision::Refresh(_)));
    }
}

#[test]
fn nothing_advances_without_a_refresh() {
    let old = Arc::new(issued("OLD", None));
    let mut manager = CredentialsManager::new(MemoryCache::new(Some(old.clone())), None);
    for event in [
        identity_answer(),
        credentials_answer(NOW),
        RefreshEvent::TransportFailed,
        RefreshEvent::Written(Ok(())),
        RefreshEvent::Abandoned,
    ] {
        assert!(matches!(
            done(manager.advance(event)),
            Err(GoodreadsError::FailedCredentials)
        ));
        assert!(Arc::ptr_eq(&served(manager.credentials(at(NOW))), &old));
    }
}

#[test]
fn a_forced_refresh_passes_the_cache_by() {
    let old = Arc::new(issued("OLD", None));
    let mut manager = CredentialsManager::new(MemoryCache::new(Some(old.clone())), Some("P".to_string()));
    let (target, _) = sent(begun(manager.force_refresh()));
    assert_eq!(target, "AWSCognitoIdentityService.GetId");
    // Others are still served what is valid, and a second forced refresh waits.
    assert!(Arc::ptr_eq(&served(manager.credentials(at(NOW))), &old));
    assert!(matches!(manager.force_refresh(), Decision::Wait));
    let _ = manager.advance(identity_answer());
    let new = done(manager.advance(credentials_answer(NOW + 60))).unwrap();
    assert_eq!(new.session_token, "TOK1");
    assert!(Arc::ptr_eq(&served(manager.credentials(at(NOW))), &new));
    assert!(matches!(manager.force_refresh(), Decision::Refresh(_)));
}

#[test]
fn a_file_cache_is_written_before_it_is_updated() {
    let old = Arc::new(issued("OLD", Some(at(NOW))));
    let cache = JsonFileCache::from_credentials("state/creds.json".to_string(), Some(old.clone())).unwrap();
    let mut manager = CredentialsManager::new(cache, None);
    let _ = begun(manager.credentials(at(NOW)));
    let _ = manager.advance(identity_answer());
    let plan = match manager.advance(credentials_answer(NOW + 3600)) {
        RefreshStep::Write(plan) => plan,
        other => panic!("expected a file to write, got {:?}", other),
    };
    assert_eq!(plan.path, "state/creds.json");
    assert_eq!(
        decode_credentials(&plan.contents).unwrap(),
        issued("TOK1", Some(at(NOW + 3600)))
    );
    // Until the write is done the refresh is in flight and the cache is as it was.
    assert!(matches!(manager.credentials(at(NOW)), Decision::Wait));
    assert!(Arc::ptr_eq(&served(manager.credentials(at(NOW - 1))), &old));
    let new = done(manager.advance(RefreshEvent::Written(Ok(())))).unwrap();
    assert_eq!(*new, issued("TOK1", Some(at(NOW + 3600))));
    assert!(Arc::ptr_eq(&served(manager.credentials(at(NOW))), &new));
}

#[test]
fn a_failed_write_fails_the_refresh_and_keeps_the_old_credentials() {
    let old = Arc::new(issued("OLD", Some(at(NOW))));
    let cache = JsonFileCache::from_credentials("state/creds.json".to_string(), Some(old.clone())).unwrap();
    let mut manager = CredentialsManager::new(cache, None);
    let _ = begun(manager.credentials(at(NOW)));
    let _ = manager.advance(identity_answer());
    assert!(matches!(manager.advance(credentials_answer(NOW + 3600)), RefreshStep::Write(_)));
    match done(manager.advance(RefreshEvent::Written(Err("permission denied".to_string())))) {
        Err(GoodreadsError::Io(reason)) => assert_eq!(reason, "permission denied"),
        other => panic!("expected an I/O error, got {:?}", other),
    }
    assert!(Arc::ptr_eq(&served(manager.credentials(at(NOW - 1))), &old));
    // The old ones have expired, so the next caller tries again.
    assert!(matches!(manager.credentials(at(NOW)), Decision::Refresh(_)));
}

#[test]
fn an_answer_instead_of_a_write_ends_the_refresh() {
    let cache = JsonFileCache::from_credentials("creds.json".to_string(), None).unwrap();
    let mut manager = CredentialsManager::new(cache, None);
    let _ = begun(manager.credentials(at(NOW)));
    let _ = manager.advance(identity_answer());
    assert!(matches!(manager.advance(credentials_answer(NOW + 3600)), RefreshStep::Write(_)));
    assert!(matches!(
        done(manager.advance(identity_answer())),
        Err(GoodreadsError::RequestError)
    ));
    assert!(matches!(
        manager.credentials_after_wait(at(NOW)),
        Err(GoodreadsError::FailedCredentials)
    ));
    let cache = MemoryCache::new(None);
    assert!(cache.request_credentials().is_none());
}

fn at_the_credentials_stage() -> CredentialsManager<MemoryCache> {
    let old = Arc::new(issued("OLD", Some(at(NOW))));
    let mut manager = CredentialsManager::new(MemoryCache::new(Some(old)), None);
    let _ = begun(manager.credentials(at(NOW)));
    assert!(matches!(manager.advance(identity_answer()), RefreshStep::Send(_)));
    manager
}

#[test]
fn a_plan_without_a_file_stores_the_credentials() {
    let mut manager = at_the_credentials_stage();
    let new = issued("NEW", Some(at(NOW + 60)));
    let given = done(manager.follow_plan(new.clone(), Ok(None))).unwrap();
    assert_eq!(*given, new);
    assert!(!manager.is_refreshing());
    assert!(Arc::ptr_eq(&served(manager.credentials(at(NOW))), &given));
}

#[test]
fn a_plan_with_a_file_is_the_next_step() {
    let mut manager = at_the_credentials_stage();
    let new = issued("NEW", Some(at(NOW + 60)));
    let file = goodreads_graphql::cache::WritePlan {
        path: "creds.json".to_string(),
        contents: b"{}".to_vec(),
    };
    match manager.follow_plan(new.clone(), Ok(Some(file))) {
        RefreshStep::Write(plan) => {
            assert_eq!(plan.path, "creds.json");
            assert_eq!(plan.contents, b"{}".to_vec());
        }
        other => panic!("expected a file to write, got {:?}", other),
    }
    // Nothing is stored before the file is written.
    assert!(manager.is_refreshing());
    assert_eq!(served(manager.credentials(at(NOW - 1))).session_token, "OLD");
    let given = done(manager.advance(RefreshEvent::Written(Ok(())))).unwrap();
    assert_eq!(*given, new);
    assert!(!manager.is_refreshing());
}

#[test]
fn a_cache_without_a_plan_ends_the_refresh() {
    let mut manager = at_the_credentials_stage();
    let new = issued("NEW", Some(at(NOW + 60)));
    match done(manager.follow_plan(new, Err(GoodreadsError::SerdeError(SerdeFailure::Write)))) {
        Err(GoodreadsError::SerdeError(SerdeFailure::Write)) => {}
        other => panic!("expected the cache's error, got {:?}", other),
    }
    assert!(!manager.is_refreshing());
    assert_eq!(served(manager.credentials(at(NOW - 1))).session_token, "OLD");
    assert!(matches!(manager.credentials(at(NOW)), Decision::Refresh(_)));
}

#[test]
fn a_plan_is_taken_only_where_credentials_have_just_come() {
    let new = issued("NEW", None);
    // No refresh is in flight.
    let mut idle = CredentialsManager::new(MemoryCache::new(None), None);
    assert!(matches!(
        done(idle.follow_plan(new.clone(), Ok(None))),
        Err(GoodreadsError::FailedCredentials)
    ));
    assert!(matches!(idle.credentials(at(NOW)), Decision::Refresh(_)));
    // The identity has not come yet.
    let mut early = CredentialsManager::new(MemoryCache::new(None), None);
    let _ = begun(early.credentials(at(NOW)));
    assert!(matches!(
        done(early.follow_plan(new.clone(), Ok(None))),
        Err(GoodreadsError::RequestError)
    ));
    assert!(!early.is_refreshing());
    assert!(matches!(early.credentials(at(NOW)), Decision::Refresh(_)));
    // The file is being written.
    let cache = JsonFileCache::from_credentials("creds.json".to_string(), None).unwrap();
    let mut writing = CredentialsManager::new(cache, None);
    let _ = begun(writing.credentials(at(NOW)));
    let _ = writing.advance(identity_answer());
    assert!(matches!(writing.advance(credentials_answer(NOW + 60)), RefreshStep::Write(_)));
    assert!(matches!(
        done(writing.follow_plan(new, Ok(None))),
        Err(GoodreadsError::RequestError)
    ));
    assert!(matches!(
        writing.credentials_after_wait(at(NOW)),
        Err(GoodreadsError::FailedCredentials)
    ));
}

#[test]
fn two_forced_refreshes_each_ask_for_an_identity() {
    let mut manager = CredentialsManager::new(MemoryCache::new(None), Some("P".to_string()));
    for round in 0..2u64 {
        let (target, body) = sent(begun(manager.force_refresh()));
        assert_eq!(target, "AWSCognitoIdentityService.GetId");
        assert_eq!(body, r#"{"IdentityPoolId":"P"}"#);
        let (target, body) = sent(manager.advance(identity_answer()));
        assert_eq!(target, "AWSCognitoIdentityService.GetCredentialsForIdentity");
        assert_eq!(body, r#"{"IdentityId":"abc"}"#);
        let fetched = done(manager.advance(credentials_answer(NOW + 3600 + round))).unwrap();
        assert_eq!(fetched.expiration, Some(at(NOW + 3600 + round)));
    }
}
