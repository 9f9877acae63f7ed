//! What a client of the GraphQL API is configured with, and the builder that
//! fills in what was left open.

use crate::cache::{ClientCache, CredentialsCache, MemoryCache};
use crate::credentials::GOODREADS_IDENTITY_POOL;
use crate::error::GoodreadsError;
use crate::manager::{CredentialsManager, ManagerView, RefreshStateView};
use crate::signer::{parses_as_url, url_parses, SigningRequest, SigningRequestView};
use vstd::prelude::*;

verus! {

/// Where the GraphQL API listens.
pub const GRAPHQL_URL: &'static str =
    "https://kxbwmqov6jgg3daaamb744ycu4.appsync-api.us-east-1.amazonaws.com/graphql";

/// The configuration of a client.
pub struct GoodreadsConfig<T: CredentialsCache> {
    pub credentials: CredentialsManager<ClientCache<T>>,
    pub api_endpoint: String,
    pub region: String,
}

/// The request with the body `body` as it is to be signed: a POST of JSON
/// to `api_endpoint`, for the service `appsync` in `region`.
pub fn signing_request(api_endpoint: &str, region: &str, body: Vec<u8>) -> (request: SigningRequest)
    ensures
        request@ == (SigningRequestView {
            method: "POST"@,
            url: api_endpoint@,
            headers: seq![("content-type"@, "application/x-amz-json-1.1"@)],
            region: region@,
            service: "appsync"@,
            body: body@,
        }),
{
    let mut headers: Vec<(String, String)> = Vec::new();
    headers.push(("content-type".to_owned(), "application/x-amz-json-1.1".to_owned()));
    let request = SigningRequest {
        method: "POST".to_owned(),
        url: api_endpoint.to_owned(),
        headers,
        region: region.to_owned(),
        service: "appsync".to_owned(),
        body,
    };
    proof {
        assert(request@.headers =~= seq![("content-type"@, "application/x-amz-json-1.1"@)]);
    }
    request
}

/// Collects the settings of a client. What is not set gets its default when
/// the configuration is built.
pub struct ClientBuilder<T: CredentialsCache = MemoryCache> {
    region: Option<String>,
    api_endpoint: Option<String>,
    identity_pool: Option<String>,
    credentials_cache: Option<T>,
}

/// What a [`ClientBuilder`] holds.
pub struct ClientBuilderView<T> {
    pub region: Option<Seq<char>>,
    pub api_endpoint: Option<Seq<char>>,
    pub identity_pool: Option<Seq<char>>,
    pub credentials_cache: Option<T>,
}

/// What an optional text holds.
pub open spec fn text_of(text: Option<String>) -> Option<Seq<char>> {
    match text {
        Some(text) => Some(text@),
        None => None,
    }
}

/// The endpoint of a client that was given `api_endpoint`: that one where it
/// is a URL, else [`GRAPHQL_URL`].
pub open spec fn endpoint_of(api_endpoint: Option<Seq<char>>) -> Seq<char> {
    match api_endpoint {
        Some(url) => if url_parses(url) {
            url
        } else {
            GRAPHQL_URL@
        },
        None => GRAPHQL_URL@,
    }
}

impl<T: CredentialsCache> View for ClientBuilder<T> {
    type V = ClientBuilderView<T>;

    closed spec fn view(&self) -> ClientBuilderView<T> {
        ClientBuilderView {
            region: text_of(self.region),
            api_endpoint: text_of(self.api_endpoint),
            identity_pool: text_of(self.identity_pool),
            credentials_cache: self.credentials_cache,
        }
    }
}

impl<T: CredentialsCache> ClientBuilder<T> {
    /// A builder with nothing set.
    pub fn new() -> (builder: ClientBuilder<T>)
        ensures
            builder@ == (ClientBuilderView::<T> {
                region: None,
                api_endpoint: None,
                identity_pool: None,
                credentials_cache: None,
            }),
    {
        ClientBuilder { region: None, api_endpoint: None, identity_pool: None, credentials_cache: None }
    }

    /// The configuration. The region is `us-east-1` where none was set; the
    /// endpoint is [`GRAPHQL_URL`] where none was set, or one that is no
    /// URL; the cache is an empty one in memory where none was set;
    /// identities are asked of [`GOODREADS_IDENTITY_POOL`] where no pool was
    /// set. No refresh is in flight.
    pub fn build(self) -> (r: Result<GoodreadsConfig<T>, GoodreadsError>)
        ensures
            r matches Ok(config) && config.region@ == (match self@.region {
                Some(region) => region,
                None => "us-east-1"@,
            }) && config.api_endpoint@ == endpoint_of(self@.api_endpoint) && config.credentials@
                == (ManagerView {
                stored: match self@.credentials_cache {
                    Some(cache) => cache.stored(),
                    None => None,
                },
                identity_pool: match self@.identity_pool {
                    Some(pool) => pool,
                    None => GOODREADS_IDENTITY_POOL@,
                },
                refresh: RefreshStateView::Idle,
            }) && (self@.credentials_cache matches Some(cache) ==> config.credentials.cache()
                == ClientCache::Given(cache)) && (self@.credentials_cache is None
                ==> config.credentials.cache().durable_path() is None),
    {
        let region = match self.region {
            Some(region) => region,
            None => "us-east-1".to_owned(),
        };
        let api_endpoint = match self.api_endpoint {
            Some(url) => if parses_as_url(url.as_str()) {
                url
            } else {
                GRAPHQL_URL.to_owned()
            },
            None => GRAPHQL_URL.to_owned(),
        };
        let cache = ClientCache::or_memory(self.credentials_cache);
        Ok(
            GoodreadsConfig {
                credentials: CredentialsManager::new(cache, self.identity_pool),
                api_endpoint,
                region,
            },
        )
    }

    /// The builder with the region set, or unset.
    pub fn region(self, region: Option<String>) -> (builder: Self)
        ensures
            builder@ == (ClientBuilderView { region: text_of(region), ..self@ }),
    {
        let mut builder = self;
        builder.set_region(region);
        builder
    }

    /// Sets the region, or unsets it.
    pub fn set_region(&mut self, region: Option<String>)
        ensures
            final(self)@ == (ClientBuilderView { region: text_of(region), ..old(self)@ }),
    {
        self.region = region;
    }

    /// The builder with the endpoint set, or unset.
    pub fn api_endpoint(self, url: Option<String>) -> (builder: Self)
        ensures
            builder@ == (ClientBuilderView { api_endpoint: text_of(url), ..self@ }),
    {
        let mut builder = self;
        builder.set_api_endpoint(url);
        builder
    }

    /// Sets the endpoint, or unsets it.
    pub fn set_api_endpoint(&mut self, url: Option<String>)
        ensures
            final(self)@ == (ClientBuilderView { api_endpoint: text_of(url), ..old(self)@ }),
    {
        self.api_endpoint = url;
    }

    /// The builder with the identity pool set, or unset.
    pub fn identity_pool(self, pool: Option<String>) -> (builder: Self)
        ensures
            builder@ == (ClientBuilderView { identity_pool: text_of(pool), ..self@ }),
    {
        let mut builder = self;
        builder.identity_pool = pool;
        builder
    }

    /// The builder with the cache set, or unset.
    pub fn credentials_cache(self, cache: Option<T>) -> (builder: Self)
        ensures
            builder@ == (ClientBuilderView { credentials_cache: cache, ..self@ }),
    {
        let mut builder = self;
        builder.set_credentials_cache(cache);
        builder
    }

    /// Sets the cache, or unsets it.
    pub fn set_credentials_cache(&mut self, cache: Option<T>)
        ensures
            final(self)@ == (ClientBuilderView { credentials_cache: cache, ..old(self)@ }),
    {
        self.credentials_cache = cache;
    }
}

} // verus!
