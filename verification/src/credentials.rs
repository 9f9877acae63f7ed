//! The credential and the identity it is issued for.

use crate::timestamp::Timestamp;
use vstd::prelude::*;
use vstd::std_specs::cmp::PartialEqSpecImpl;

verus! {

/// The identity pool that anonymous identities are drawn from when no other
/// pool is configured.
pub const GOODREADS_IDENTITY_POOL: &'static str = "us-east-1:16da77fa-4392-4d35-bd47-bb0e2d3f73be";

/// A time-bounded bundle of secrets that authorizes requests.
#[derive(Debug)]
pub struct Credentials {
    pub access_key_id: String,
    pub session_token: String,
    pub secret_key: String,
    /// The instant from which the credentials must no longer be used, or
    /// `None` for credentials that never expire.
    pub expiration: Option<Timestamp>,
}

/// What a [`Credentials`] value holds.
pub struct CredentialsView {
    pub access_key_id: Seq<char>,
    pub session_token: Seq<char>,
    pub secret_key: Seq<char>,
    /// Nanoseconds since the epoch.
    pub expiration: Option<int>,
}

impl CredentialsView {
    /// Whether a [`Credentials`] value can hold this: its expiration, where
    /// it has one, is an instant that 128 bits count.
    pub open spec fn holdable(self) -> bool {
        self.expiration matches Some(limit) ==> i128::MIN <= limit <= i128::MAX
    }

    /// Credentials are valid strictly before their expiration, and forever
    /// where they have none.
    pub open spec fn valid_at(self, now: int) -> bool {
        match self.expiration {
            None => true,
            Some(limit) => now < limit,
        }
    }
}

impl View for Credentials {
    type V = CredentialsView;

    open spec fn view(&self) -> CredentialsView {
        CredentialsView {
            access_key_id: self.access_key_id@,
            session_token: self.session_token@,
            secret_key: self.secret_key@,
            expiration: match self.expiration {
                None => None,
                Some(t) => Some(t@),
            },
        }
    }
}

impl Clone for Credentials {
    fn clone(&self) -> (copy: Self)
        ensures
            copy == *self,
    {
        Credentials {
            access_key_id: self.access_key_id.clone(),
            session_token: self.session_token.clone(),
            secret_key: self.secret_key.clone(),
            expiration: self.expiration,
        }
    }
}

impl PartialEq for Credentials {
    fn eq(&self, other: &Self) -> (same: bool) {
        let expiry = match (&self.expiration, &other.expiration) {
            (None, None) => true,
            (Some(a), Some(b)) => a.as_nanos() == b.as_nanos(),
            _ => false,
        };
        self.access_key_id == other.access_key_id && self.session_token == other.session_token
            && self.secret_key == other.secret_key && expiry
    }
}

impl PartialEqSpecImpl for Credentials {
    open spec fn obeys_eq_spec() -> bool {
        true
    }

    open spec fn eq_spec(&self, other: &Self) -> bool {
        self@ == other@
    }
}

impl Eq for Credentials {

}

impl Credentials {
    /// Whether the credentials may be used at `now`.
    pub fn is_valid_at(&self, now: Timestamp) -> (valid: bool)
        ensures
            valid == self@.valid_at(now@),
    {
        match &self.expiration {
            None => true,
            Some(limit) => now.is_before(limit),
        }
    }
}

/// The opaque identity that the federation service issues for a pool and
/// wants back when credentials are asked for.
#[derive(Debug)]
pub struct Identity {
    pub identity_id: String,
}

impl Clone for Identity {
    fn clone(&self) -> (copy: Self)
        ensures
            copy == *self,
    {
        Identity { identity_id: self.identity_id.clone() }
    }
}

impl PartialEq for Identity {
    fn eq(&self, other: &Self) -> (same: bool) {
        self.identity_id == other.identity_id
    }
}

impl PartialEqSpecImpl for Identity {
    open spec fn obeys_eq_spec() -> bool {
        true
    }

    open spec fn eq_spec(&self, other: &Self) -> bool {
        self@ == other@
    }
}

impl Eq for Identity {

}

impl View for Identity {
    type V = Seq<char>;

    open spec fn view(&self) -> Seq<char> {
        self.identity_id@
    }
}

} // verus!
