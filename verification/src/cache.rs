//! Where the current credentials are kept: in memory, or in memory with a
//! copy in a JSON file.
//!
//! A cache writes no file itself. It says what has to be written
//! ([`CredentialsCache::persist_plan`]), and takes the outcome of that write
//! when the credentials are stored ([`CredentialsCache::persist_credentials`]).

use crate::credentials::{Credentials, CredentialsView};
use crate::error::{GoodreadsError, GoodreadsErrorView, SerdeFailure};
use crate::json::rendered;
use crate::wire::{credentials_document, decode_credentials, encode_credentials, record_credentials};
use std::sync::Arc;
use vstd::prelude::*;

verus! {

/// What a shared, optional credential holds.
pub open spec fn held(slot: Option<Arc<Credentials>>) -> Option<CredentialsView> {
    match slot {
        Some(credentials) => Some(credentials@),
        None => None,
    }
}

/// What a cache holds after credentials were handed to it together with the
/// outcome of their durable write: the new ones where the write succeeded,
/// what it held before where the write failed.
pub open spec fn after_persist(
    before: Option<CredentialsView>,
    credentials: CredentialsView,
    written: bool,
) -> Option<CredentialsView> {
    if written {
        Some(credentials)
    } else {
        before
    }
}

/// `Arc::clone`: one more handle on the same credentials.
#[verifier::external_body]
pub(crate) fn share(credentials: &Arc<Credentials>) -> (handle: Arc<Credentials>)
    ensures
        handle == *credentials,
{
    Arc::clone(credentials)
}

/// A file to write: where, and what.
#[derive(Debug)]
pub struct WritePlan {
    pub path: String,
    pub contents: Vec<u8>,
}

/// A store for the current credentials.
pub trait CredentialsCache {
    /// The credentials that the cache holds.
    spec fn stored(&self) -> Option<CredentialsView>;

    /// The file that the cache keeps a copy in, if it keeps one.
    spec fn durable_path(&self) -> Option<Seq<char>>;

    /// The bytes that the cache writes to its file for `credentials`.
    spec fn durable_form(&self, credentials: CredentialsView) -> Seq<u8>;

    /// Whether the cache can say what has to be written for `credentials`.
    spec fn can_plan(&self, credentials: CredentialsView) -> bool;

    /// The cached credentials. This is asked on every request for
    /// credentials; whether they have expired is for the caller to check.
    fn request_credentials(&self) -> (found: Option<Arc<Credentials>>)
        ensures
            held(found) == self.stored(),
    ;

    /// What has to be written durably before `credentials` may be stored:
    /// nothing for a cache without a durable copy. An error tells that the
    /// cache could not make the durable form; the caches of this library
    /// always can.
    fn persist_plan(&self, credentials: &Credentials) -> (plan: Result<
        Option<WritePlan>,
        GoodreadsError,
    >)
        ensures
            plan is Ok <==> self.can_plan(credentials@),
            match plan {
                Ok(Some(file)) => self.durable_path() == Some(file.path@) && file.contents@
                    == self.durable_form(credentials@),
                Ok(None) => self.durable_path() is None,
                Err(error) => error@ == GoodreadsErrorView::SerdeError(SerdeFailure::Write),
            },
    ;

    /// Stores newly acquired credentials, given how their durable write
    /// ended. After a failed write the cache holds what it held before, and
    /// the failure is handed on.
    fn persist_credentials(
        &mut self,
        credentials: Arc<Credentials>,
        written: Result<(), String>,
    ) -> (outcome: Result<(), GoodreadsError>)
        ensures
            final(self).durable_path() == old(self).durable_path(),
            forall|other: CredentialsView| #[trigger]
                final(self).durable_form(other) == old(self).durable_form(other),
            forall|other: CredentialsView| #[trigger]
                final(self).can_plan(other) == old(self).can_plan(other),
            final(self).stored() == after_persist(old(self).stored(), credentials@, written is Ok),
            match written {
                Ok(_) => outcome is Ok,
                Err(reason) => outcome matches Err(error) && error@ == GoodreadsErrorView::Io(
                    reason@,
                ),
            },
    ;
}

/// A cache that lives and dies with the process.
pub struct MemoryCache {
    current_credentials: Option<Arc<Credentials>>,
}

impl MemoryCache {
    /// A cache that holds `credentials`.
    pub fn new(credentials: Option<Arc<Credentials>>) -> (cache: Self)
        ensures
            cache.stored() == held(credentials),
    {
        MemoryCache { current_credentials: credentials }
    }
}

impl CredentialsCache for MemoryCache {
    closed spec fn stored(&self) -> Option<CredentialsView> {
        held(self.current_credentials)
    }

    open spec fn durable_path(&self) -> Option<Seq<char>> {
        None
    }

    open spec fn durable_form(&self, credentials: CredentialsView) -> Seq<u8> {
        Seq::empty()
    }

    open spec fn can_plan(&self, credentials: CredentialsView) -> bool {
        true
    }

    fn request_credentials(&self) -> (found: Option<Arc<Credentials>>) {
        match &self.current_credentials {
            Some(credentials) => Some(share(credentials)),
            None => None,
        }
    }

    fn persist_plan(&self, credentials: &Credentials) -> (plan: Result<
        Option<WritePlan>,
        GoodreadsError,
    >) {
        Ok(None)
    }

    fn persist_credentials(
        &mut self,
        credentials: Arc<Credentials>,
        written: Result<(), String>,
    ) -> (outcome: Result<(), GoodreadsError>) {
        match written {
            Ok(_) => {
                self.current_credentials = Some(credentials);
                Ok(())
            },
            Err(reason) => Err(GoodreadsError::Io(reason)),
        }
    }
}

/// A cache in memory with a copy in a JSON file, so that the credentials
/// outlive the process.
pub struct JsonFileCache {
    mem_cache: MemoryCache,
    cache_path: String,
}

impl JsonFileCache {
    /// What a cache holds at its start, given what was read from its file:
    /// the credentials that the bytes state, and nothing where there was no
    /// file to read or where its bytes state none.
    pub open spec fn loaded(contents: Option<Seq<u8>>) -> Option<CredentialsView> {
        match contents {
            Some(bytes) => match record_credentials(bytes) {
                Ok(credentials) => Some(credentials),
                Err(_) => None,
            },
            None => None,
        }
    }

    /// The cache for the file at `file`, given the bytes that were read from
    /// it: `None` where the file could not be read. A file that is missing,
    /// unreadable or malformed gives a cache that starts empty.
    pub fn from_file(file: String, contents: Option<Vec<u8>>) -> (cache: Result<
        Self,
        GoodreadsError,
    >)
        ensures
            cache matches Ok(made) && made.durable_path() == Some(file@) && made.stored()
                == Self::loaded(
                match contents {
                    Some(bytes) => Some(bytes@),
                    None => None,
                },
            ),
    {
        let credentials = match contents {
            Some(bytes) => match decode_credentials(bytes.as_slice()) {
                Ok(credentials) => Some(Arc::new(credentials)),
                Err(_) => None,
            },
            None => None,
        };
        Self::from_credentials(file, credentials)
    }

    /// The cache for the file at `file` that holds `credentials`. Nothing is
    /// read, and nothing is written before the next store.
    pub fn from_credentials(file: String, credentials: Option<Arc<Credentials>>) -> (cache: Result<
        Self,
        GoodreadsError,
    >)
        ensures
            cache matches Ok(made) && made.durable_path() == Some(file@) && made.stored() == held(
                credentials,
            ),
    {
        Ok(JsonFileCache { mem_cache: MemoryCache::new(credentials), cache_path: file })
    }
}

impl CredentialsCache for JsonFileCache {
    closed spec fn stored(&self) -> Option<CredentialsView> {
        self.mem_cache.stored()
    }

    closed spec fn durable_path(&self) -> Option<Seq<char>> {
        Some(self.cache_path@)
    }

    open spec fn durable_form(&self, credentials: CredentialsView) -> Seq<u8> {
        rendered(credentials_document(credentials))
    }

    open spec fn can_plan(&self, credentials: CredentialsView) -> bool {
        true
    }

    fn request_credentials(&self) -> (found: Option<Arc<Credentials>>) {
        self.mem_cache.request_credentials()
    }

    fn persist_plan(&self, credentials: &Credentials) -> (plan: Result<
        Option<WritePlan>,
        GoodreadsError,
    >) {
        match encode_credentials(credentials) {
            Ok(contents) => Ok(Some(WritePlan { path: self.cache_path.clone(), contents })),
            Err(error) => Err(error),
        }
    }

    fn persist_credentials(
        &mut self,
        credentials: Arc<Credentials>,
        written: Result<(), String>,
    ) -> (outcome: Result<(), GoodreadsError>) {
        self.mem_cache.persist_credentials(credentials, written)
    }
}

/// The cache of a client: the one it was given, or one in memory for want of
/// it.
pub enum ClientCache<T: CredentialsCache> {
    Given(T),
    Memory(MemoryCache),
}

impl<T: CredentialsCache> ClientCache<T> {
    /// The given cache, or an empty cache in memory where none is given.
    pub fn or_memory(given: Option<T>) -> (cache: Self)
        ensures
            match given {
                Some(own) => cache == ClientCache::Given(own),
                None => cache is Memory && cache.stored() is None && cache.durable_path() is None,
            },
    {
        match given {
            Some(own) => ClientCache::Given(own),
            None => ClientCache::Memory(MemoryCache::new(None)),
        }
    }
}

impl<T: CredentialsCache> CredentialsCache for ClientCache<T> {
    open spec fn stored(&self) -> Option<CredentialsView> {
        match self {
            ClientCache::Given(cache) => cache.stored(),
            ClientCache::Memory(cache) => cache.stored(),
        }
    }

    open spec fn durable_path(&self) -> Option<Seq<char>> {
        match self {
            ClientCache::Given(cache) => cache.durable_path(),
            ClientCache::Memory(cache) => cache.durable_path(),
        }
    }

    open spec fn durable_form(&self, credentials: CredentialsView) -> Seq<u8> {
        match self {
            ClientCache::Given(cache) => cache.durable_form(credentials),
            ClientCache::Memory(cache) => cache.durable_form(credentials),
        }
    }

    open spec fn can_plan(&self, credentials: CredentialsView) -> bool {
        match self {
            ClientCache::Given(cache) => cache.can_plan(credentials),
            ClientCache::Memory(cache) => cache.can_plan(credentials),
        }
    }

    fn request_credentials(&self) -> (found: Option<Arc<Credentials>>) {
        match self {
            ClientCache::Given(cache) => cache.request_credentials(),
            ClientCache::Memory(cache) => cache.request_credentials(),
        }
    }

    fn persist_plan(&self, credentials: &Credentials) -> (plan: Result<
        Option<WritePlan>,
        GoodreadsError,
    >) {
        match self {
            ClientCache::Given(cache) => cache.persist_plan(credentials),
            ClientCache::Memory(cache) => cache.persist_plan(credentials),
        }
    }

    fn persist_credentials(
        &mut self,
        credentials: Arc<Credentials>,
        written: Result<(), String>,
    ) -> (outcome: Result<(), GoodreadsError>)
        ensures
            *old(self) is Given <==> *final(self) is Given,
    {
        match self {
            ClientCache::Given(cache) => cache.persist_credentials(credentials, written),
            ClientCache::Memory(cache) => cache.persist_credentials(credentials, written),
        }
    }
}

/// A read that follows a store gives the stored credentials where the
/// durable write succeeded, and what was there before where it failed.
/// `after` is the cache `before` once `credentials` were handed to it, and
/// `found` is what is then read from it.
pub proof fn read_follows_write<C: CredentialsCache>(
    before: C,
    after: C,
    credentials: CredentialsView,
    written: bool,
    found: Option<Arc<Credentials>>,
)
    requires
        after.stored() == after_persist(before.stored(), credentials, written),
        held(found) == after.stored(),
    ensures
        written ==> held(found) == Some(credentials),
        !written ==> held(found) == before.stored(),
{
}

/// A file whose bytes state no credentials starts the cache as a missing
/// file does: empty.
pub proof fn corrupt_file_is_no_file(bytes: Seq<u8>)
    requires
        record_credentials(bytes) is Err,
    ensures
        JsonFileCache::loaded(Some(bytes)) == JsonFileCache::loaded(None),
        JsonFileCache::loaded(Some(bytes)) is None,
{
}

} // verus!
