//! The credentials manager: it hands out valid credentials and sees to it
//! that, however many callers find them missing or expired at once, only one
//! of them goes to the federation service.
//!
//! The manager is a state machine. It sends nothing and writes nothing: it
//! tells the caller what to do next ([`RefreshStep`]) and is told what came of
//! it ([`RefreshEvent`]). Whoever shares one manager among tasks calls it
//! under a lock, and wakes the waiting callers when a refresh is done.

use crate::cache::{after_persist, held, CredentialsCache, WritePlan};
use crate::credentials::{Credentials, CredentialsView, GOODREADS_IDENTITY_POOL};
use crate::error::{GoodreadsError, GoodreadsErrorView, HttpFailure, SerdeFailure};
use crate::federation::{
    continue_exchange, credentials_request_of, fetch_new_credential, identity_request_of,
    response_credentials, response_identity, ExchangeStage, ExchangeStep, FederationRequest,
    FederationRequestView, HttpResponse,
};
use crate::timestamp::Timestamp;
use std::sync::Arc;
use vstd::prelude::*;

verus! {

/// How far a refresh has come.
#[derive(Debug)]
pub enum RefreshStage {
    /// The exchange with the federation service is at this stage.
    Exchange(ExchangeStage),
    /// The new credentials are being written to the cache's file.
    Writing(Arc<Credentials>),
}

/// Whether a refresh is under way.
#[derive(Debug)]
pub enum RefreshState {
    Idle,
    RefreshInFlight(RefreshStage),
}

/// What a [`RefreshStage`] holds.
pub enum RefreshStageView {
    Exchange(ExchangeStage),
    Writing(CredentialsView),
}

/// What a [`RefreshState`] holds.
pub enum RefreshStateView {
    Idle,
    RefreshInFlight(RefreshStageView),
}

impl View for RefreshStage {
    type V = RefreshStageView;

    open spec fn view(&self) -> RefreshStageView {
        match self {
            RefreshStage::Exchange(stage) => RefreshStageView::Exchange(*stage),
            RefreshStage::Writing(credentials) => RefreshStageView::Writing(credentials@),
        }
    }
}

impl View for RefreshState {
    type V = RefreshStateView;

    open spec fn view(&self) -> RefreshStateView {
        match self {
            RefreshState::Idle => RefreshStateView::Idle,
            RefreshState::RefreshInFlight(stage) => RefreshStateView::RefreshInFlight(stage@),
        }
    }
}

/// What came of the step that the refreshing caller was told to take.
#[derive(Debug)]
pub enum RefreshEvent {
    /// The answer to the request that was sent.
    Response(HttpResponse),
    /// The request that was sent got no answer.
    TransportFailed,
    /// How the write of the cache's file ended: `Err` with the writer's
    /// reason where it failed.
    Written(Result<(), String>),
    /// The refreshing caller gives up.
    Abandoned,
}

/// What a [`RefreshEvent`] holds.
pub enum RefreshEventView {
    Response(u16, Seq<u8>),
    TransportFailed,
    Written(Result<(), Seq<char>>),
    Abandoned,
}

impl View for RefreshEvent {
    type V = RefreshEventView;

    open spec fn view(&self) -> RefreshEventView {
        match self {
            RefreshEvent::Response(response) => RefreshEventView::Response(
                response.status,
                response.body@,
            ),
            RefreshEvent::TransportFailed => RefreshEventView::TransportFailed,
            RefreshEvent::Written(Ok(_)) => RefreshEventView::Written(Ok(())),
            RefreshEvent::Written(Err(reason)) => RefreshEventView::Written(Err(reason@)),
            RefreshEvent::Abandoned => RefreshEventView::Abandoned,
        }
    }
}

/// What the refreshing caller has to do next.
#[derive(Debug)]
pub enum RefreshStep {
    /// Send this request and come back with the answer.
    Send(FederationRequest),
    /// Write this file, making its directory first where it is missing, and
    /// come back with the outcome.
    Write(WritePlan),
    /// The refresh is over, with these credentials or this error. The
    /// waiting callers can go on.
    Done(Result<Arc<Credentials>, GoodreadsError>),
}

/// What a [`RefreshStep`] holds.
pub enum RefreshStepView {
    Send(FederationRequestView),
    Write(Seq<char>, Seq<u8>),
    Done(Result<CredentialsView, GoodreadsErrorView>),
}

impl View for RefreshStep {
    type V = RefreshStepView;

    open spec fn view(&self) -> RefreshStepView {
        match self {
            RefreshStep::Send(request) => RefreshStepView::Send(request@),
            RefreshStep::Write(file) => RefreshStepView::Write(file.path@, file.contents@),
            RefreshStep::Done(Ok(credentials)) => RefreshStepView::Done(Ok(credentials@)),
            RefreshStep::Done(Err(error)) => RefreshStepView::Done(Err(error@)),
        }
    }
}

/// The answer to a caller that asks for credentials.
#[derive(Debug)]
pub enum Decision {
    /// The cached credentials are valid: here they are.
    Serve(Arc<Credentials>),
    /// This caller is the one that refreshes, and this is its first step.
    Refresh(RefreshStep),
    /// Another caller is refreshing: wait until it is done, then ask with
    /// [`CredentialsManager::credentials_after_wait`].
    Wait,
}

/// Which answer a caller gets.
pub enum DecisionKind {
    Serve,
    Refresh,
    Wait,
}

/// What a [`CredentialsManager`] holds, but for the cache's file.
pub struct ManagerView {
    /// The credentials in the cache.
    pub stored: Option<CredentialsView>,
    /// The pool that identities are asked of.
    pub identity_pool: Seq<char>,
    pub refresh: RefreshStateView,
}

impl ManagerView {
    /// Whether the cache holds credentials that are valid at `now`.
    pub open spec fn has_valid(self, now: int) -> bool {
        self.stored matches Some(credentials) && credentials.valid_at(now)
    }

    /// The answer to a caller that asks for credentials at `now`: the cached
    /// ones where they are valid; else this caller refreshes, unless a refresh
    /// is in flight, which it then waits for.
    pub open spec fn decide(self, now: int) -> DecisionKind {
        if self.has_valid(now) {
            DecisionKind::Serve
        } else if self.refresh is Idle {
            DecisionKind::Refresh
        } else {
            DecisionKind::Wait
        }
    }

    /// The answer to a caller that asks for new credentials whatever the
    /// cache holds: it refreshes, unless a refresh is in flight, which it
    /// then waits for.
    pub open spec fn decide_forced(self) -> DecisionKind {
        if self.refresh is Idle {
            DecisionKind::Refresh
        } else {
            DecisionKind::Wait
        }
    }

    /// The answer to a caller that has waited for a refresh and asks again at
    /// `now`: the cached credentials where they are valid, else an error.
    pub open spec fn after_wait(self, now: int) -> Result<CredentialsView, GoodreadsErrorView> {
        if self.has_valid(now) {
            Ok(self.stored->0)
        } else {
            Err(GoodreadsErrorView::FailedCredentials)
        }
    }

    /// The same manager with no refresh in flight.
    pub open spec fn idle(self) -> ManagerView {
        ManagerView { refresh: RefreshStateView::Idle, ..self }
    }

    /// The same manager with a refresh at `stage`.
    pub open spec fn at_stage(self, stage: RefreshStageView) -> ManagerView {
        ManagerView { refresh: RefreshStateView::RefreshInFlight(stage), ..self }
    }

    /// The same manager with `credentials` in its cache.
    pub open spec fn storing(self, credentials: CredentialsView) -> ManagerView {
        ManagerView { stored: Some(credentials), ..self }
    }

    /// Whether a refresh that ends with `error` leads from `self` to `next`
    /// and `step`: no refresh is in flight any more, and the cache is
    /// untouched.
    pub open spec fn fails_with(
        self,
        error: GoodreadsErrorView,
        next: ManagerView,
        step: RefreshStepView,
    ) -> bool {
        next == self.idle() && step == RefreshStepView::Done(Err(error))
    }

    /// The same manager once a caller has begun to refresh: the request for
    /// an identity is out.
    pub open spec fn begun(self) -> ManagerView {
        self.at_stage(RefreshStageView::Exchange(ExchangeStage::AwaitingIdentity))
    }

    /// The first step of the caller that refreshes: to send the request for
    /// an identity of the pool.
    pub open spec fn first_step(self) -> RefreshStepView {
        RefreshStepView::Send(identity_request_of(self.identity_pool))
    }

    /// Whether the refresh ends well from `self` to `next` and `step`: the
    /// new credentials are in the cache and are handed out.
    pub open spec fn completes(
        self,
        credentials: CredentialsView,
        next: ManagerView,
        step: RefreshStepView,
    ) -> bool {
        next == self.idle().storing(credentials) && step == RefreshStepView::Done(Ok(credentials))
    }

    /// Whether the plan that the cache made for the credentials that the
    /// exchange brought leads from `self` to `next` and `step`. Where nothing
    /// has to be written the credentials are stored and the refresh ends
    /// well; where a file has to be written that is the next step; where the
    /// cache made no plan the refresh ends with its error.
    pub open spec fn follows_plan(
        self,
        credentials: CredentialsView,
        plan: Result<Option<(Seq<char>, Seq<u8>)>, GoodreadsErrorView>,
        next: ManagerView,
        step: RefreshStepView,
    ) -> bool {
        match plan {
            Ok(None) => self.completes(credentials, next, step),
            Ok(Some((path, contents))) => next == self.at_stage(
                RefreshStageView::Writing(credentials),
            ) && step == RefreshStepView::Write(path, contents),
            Err(error) => self.fails_with(error, next, step),
        }
    }

    /// The plan that `cache` makes for `credentials`.
    pub open spec fn plan_of<C: CredentialsCache>(
        cache: C,
        credentials: CredentialsView,
    ) -> Result<Option<(Seq<char>, Seq<u8>)>, GoodreadsErrorView> {
        if !cache.can_plan(credentials) {
            Err(GoodreadsErrorView::SerdeError(SerdeFailure::Write))
        } else {
            match cache.durable_path() {
                None => Ok(None),
                Some(path) => Ok(Some((path, cache.durable_form(credentials)))),
            }
        }
    }

    /// Whether a plan that is handed in for `credentials` leads from `self`
    /// to `next` and `step`. It is followed where the exchange has just
    /// brought credentials. Without a refresh in flight nothing changes, and
    /// at any other stage the refresh ends.
    pub open spec fn takes_plan(
        self,
        credentials: CredentialsView,
        plan: Result<Option<(Seq<char>, Seq<u8>)>, GoodreadsErrorView>,
        next: ManagerView,
        step: RefreshStepView,
    ) -> bool {
        match self.refresh {
            RefreshStateView::Idle => next == self && step == RefreshStepView::Done(
                Err(GoodreadsErrorView::FailedCredentials),
            ),
            RefreshStateView::RefreshInFlight(
                RefreshStageView::Exchange(ExchangeStage::AwaitingCredentials),
            ) => self.follows_plan(credentials, plan, next, step),
            RefreshStateView::RefreshInFlight(_) => self.fails_with(
                GoodreadsErrorView::RequestError,
                next,
                step,
            ),
        }
    }

    /// Whether `event`, at the refresh stage `stage`, leads from `self` to
    /// `next` and `step`, for a manager over `cache`.
    pub open spec fn advances_from<C: CredentialsCache>(
        self,
        stage: RefreshStageView,
        event: RefreshEventView,
        cache: C,
        next: ManagerView,
        step: RefreshStepView,
    ) -> bool {
        match (stage, event) {
            (_, RefreshEventView::Abandoned) => self.fails_with(
                GoodreadsErrorView::FailedCredentials,
                next,
                step,
            ),
            (RefreshStageView::Exchange(_), RefreshEventView::TransportFailed) => self.fails_with(
                GoodreadsErrorView::HttpError(HttpFailure::Network),
                next,
                step,
            ),
            (
                RefreshStageView::Exchange(ExchangeStage::AwaitingIdentity),
                RefreshEventView::Response(status, body),
            ) => match response_identity(status, body) {
                Err(error) => self.fails_with(error, next, step),
                Ok(identity) => next == self.at_stage(
                    RefreshStageView::Exchange(ExchangeStage::AwaitingCredentials),
                ) && step == RefreshStepView::Send(credentials_request_of(identity)),
            },
            (
                RefreshStageView::Exchange(ExchangeStage::AwaitingCredentials),
                RefreshEventView::Response(status, body),
            ) => match response_credentials(status, body) {
                Err(error) => self.fails_with(error, next, step),
                Ok(credentials) => self.follows_plan(
                    credentials,
                    Self::plan_of(cache, credentials),
                    next,
                    step,
                ),
            },
            (RefreshStageView::Writing(credentials), RefreshEventView::Written(Ok(_))) => {
                self.completes(credentials, next, step)
            },
            (RefreshStageView::Writing(_), RefreshEventView::Written(Err(reason))) => {
                self.fails_with(GoodreadsErrorView::Io(reason), next, step)
            },
            _ => self.fails_with(GoodreadsErrorView::RequestError, next, step),
        }
    }

    /// Whether `event` leads from `self` to `next` and `step`, for a manager
    /// over `cache`. Without a refresh in flight nothing changes.
    pub open spec fn advances<C: CredentialsCache>(
        self,
        event: RefreshEventView,
        cache: C,
        next: ManagerView,
        step: RefreshStepView,
    ) -> bool {
        match self.refresh {
            RefreshStateView::Idle => next == self && step == RefreshStepView::Done(
                Err(GoodreadsErrorView::FailedCredentials),
            ),
            RefreshStateView::RefreshInFlight(stage) => self.advances_from(
                stage,
                event,
                cache,
                next,
                step,
            ),
        }
    }
}

impl ManagerView {
    /// The manager after a caller was answered at `now`.
    pub open spec fn after_request(self, now: int) -> ManagerView {
        match self.decide(now) {
            DecisionKind::Refresh => self.begun(),
            _ => self,
        }
    }

    /// The answers to callers that ask one after the other at the instants
    /// `nows`, before the refreshing caller among them has come back.
    pub open spec fn answers(self, nows: Seq<int>) -> Seq<DecisionKind>
        decreases nows.len(),
    {
        if nows.len() == 0 {
            Seq::empty()
        } else {
            seq![self.decide(nows[0])] + self.after_request(nows[0]).answers(nows.drop_first())
        }
    }
}

/// Credentials that expire at `limit` are handed out from the cache at every
/// instant before `limit`. From `limit` on they are not: the caller refreshes
/// them, or waits for the caller that does.
pub proof fn expiry_is_observed(
    manager: ManagerView,
    credentials: CredentialsView,
    limit: int,
    now: int,
)
    requires
        manager.stored == Some(credentials),
        credentials.expiration == Some(limit),
    ensures
        now < limit ==> manager.decide(now) is Serve,
        now >= limit ==> manager.decide(now) == (if manager.refresh is Idle {
            DecisionKind::Refresh
        } else {
            DecisionKind::Wait
        }),
{
}

/// Credentials without an expiration are handed out from the cache at every
/// instant.
pub proof fn unexpiring_credentials_are_served(
    manager: ManagerView,
    credentials: CredentialsView,
    now: int,
)
    requires
        manager.stored == Some(credentials),
        credentials.expiration is None,
    ensures
        manager.decide(now) is Serve,
        manager.after_request(now) == manager,
{
}

/// Of callers that all find no valid credentials, exactly one refreshes: the
/// first, where no refresh is in flight when it asks. Every other one waits.
pub proof fn single_flight(manager: ManagerView, nows: Seq<int>)
    requires
        forall|i: int| 0 <= i < nows.len() ==> !manager.has_valid(#[trigger] nows[i]),
    ensures
        manager.answers(nows).len() == nows.len(),
        forall|i: int|
            0 <= i < nows.len() ==> #[trigger] manager.answers(nows)[i] == (if i == 0
                && manager.refresh is Idle {
                DecisionKind::Refresh
            } else {
                DecisionKind::Wait
            }),
    decreases nows.len(),
{
    if nows.len() > 0 {
        let rest = nows.drop_first();
        let next = manager.after_request(nows[0]);
        assert(!manager.has_valid(nows[0]));
        assert forall|i: int| 0 <= i < rest.len() implies !next.has_valid(#[trigger] rest[i]) by {
            assert(rest[i] == nows[i + 1]);
        }
        single_flight(next, rest);
        assert forall|i: int| 0 <= i < nows.len() implies #[trigger] manager.answers(nows)[i] == (
        if i == 0 && manager.refresh is Idle {
            DecisionKind::Refresh
        } else {
            DecisionKind::Wait
        }) by {
            if i > 0 {
                assert(manager.answers(nows)[i] == next.answers(rest)[i - 1]);
            }
        }
    }
}

/// A caller that waited for a refresh is given what the refresh brought: the
/// new credentials where it ended well and they are valid when the caller
/// asks again.
pub proof fn waiters_are_given_the_new_credentials(
    manager: ManagerView,
    credentials: CredentialsView,
    next: ManagerView,
    step: RefreshStepView,
    now: int,
)
    requires
        manager.completes(credentials, next, step),
        credentials.valid_at(now),
    ensures
        step == RefreshStepView::Done(Ok(credentials)),
        next.after_wait(now) == Ok::<CredentialsView, GoodreadsErrorView>(credentials),
{
}

/// A caller that waited for a refresh that failed is told `FailedCredentials`:
/// the cache holds what it held when the caller first asked and found nothing
/// valid, and time has not gone back.
pub proof fn waiters_fail_with_the_refresh(
    manager: ManagerView,
    error: GoodreadsErrorView,
    next: ManagerView,
    step: RefreshStepView,
    asked: int,
    now: int,
)
    requires
        manager.fails_with(error, next, step),
        !manager.has_valid(asked),
        asked <= now,
    ensures
        next.after_wait(now) == Err::<CredentialsView, GoodreadsErrorView>(
            GoodreadsErrorView::FailedCredentials,
        ),
{
}

/// However a refresh ends, it leaves no refresh in flight, so that no caller
/// waits for ever; and until it ends well, the cache holds what it held.
pub proof fn refresh_ends_idle<C: CredentialsCache>(
    manager: ManagerView,
    event: RefreshEventView,
    cache: C,
    next: ManagerView,
    step: RefreshStepView,
)
    requires
        manager.advances(event, cache, next, step),
    ensures
        step is Done ==> next.refresh is Idle,
        !(step matches RefreshStepView::Done(Ok(_))) ==> next.stored == manager.stored,
        step matches RefreshStepView::Done(Ok(credentials)) ==> next.stored == Some(credentials),
        event is Abandoned ==> step is Done,
{
}

/// Hands out credentials from a cache and refreshes them through the
/// federation service, one refresh at a time.
pub struct CredentialsManager<C: CredentialsCache> {
    cache: C,
    identity_pool: String,
    refresh: RefreshState,
}

impl<C: CredentialsCache> View for CredentialsManager<C> {
    type V = ManagerView;

    closed spec fn view(&self) -> ManagerView {
        ManagerView {
            stored: self.cache.stored(),
            identity_pool: self.identity_pool@,
            refresh: self.refresh@,
        }
    }
}

impl<C: CredentialsCache> CredentialsManager<C> {
    /// The cache of the manager.
    pub closed spec fn cache(&self) -> C {
        self.cache
    }

    /// Whether two managers keep their durable copy alike: in the same file,
    /// in the same form, planned for the same credentials.
    pub open spec fn same_file_as(&self, other: &Self) -> bool {
        &&& self.cache().durable_path() == other.cache().durable_path()
        &&& forall|credentials: CredentialsView| #[trigger]
            self.cache().durable_form(credentials) == other.cache().durable_form(credentials)
        &&& forall|credentials: CredentialsView| #[trigger]
            self.cache().can_plan(credentials) == other.cache().can_plan(credentials)
    }

    /// A manager over `credentials_cache` that asks identities of
    /// `identity_pool_id`, or of [`GOODREADS_IDENTITY_POOL`] where none is
    /// given. No refresh is in flight.
    pub fn new(credentials_cache: C, identity_pool_id: Option<String>) -> (manager: Self)
        ensures
            manager.cache() == credentials_cache,
            manager@ == (ManagerView {
                stored: credentials_cache.stored(),
                identity_pool: match identity_pool_id {
                    Some(pool) => pool@,
                    None => GOODREADS_IDENTITY_POOL@,
                },
                refresh: RefreshStateView::Idle,
            }),
    {
        let identity_pool = match identity_pool_id {
            Some(pool) => pool,
            None => GOODREADS_IDENTITY_POOL.to_owned(),
        };
        CredentialsManager { cache: credentials_cache, identity_pool, refresh: RefreshState::Idle }
    }

    /// Whether a refresh is in flight.
    pub fn is_refreshing(&self) -> (refreshing: bool)
        ensures
            refreshing == (self@.refresh is RefreshInFlight),
    {
        match &self.refresh {
            RefreshState::Idle => false,
            RefreshState::RefreshInFlight(_) => true,
        }
    }

    /// The pool that identities are asked of.
    pub fn identity_pool(&self) -> (pool: &str)
        ensures
            pool@ == self@.identity_pool,
    {
        self.identity_pool.as_str()
    }

    /// The cached credentials where they are valid at `now`.
    fn valid_credentials(&self, now: Timestamp) -> (found: Option<Arc<Credentials>>)
        ensures
            match found {
                Some(credentials) => self@.has_valid(now@) && self@.stored == Some(credentials@),
                None => !self@.has_valid(now@),
            },
    {
        match self.cache.request_credentials() {
            Some(credentials) => if credentials.is_valid_at(now) {
                Some(credentials)
            } else {
                None
            },
            None => None,
        }
    }

    /// Starts a refresh.
    fn begin_refresh(&mut self) -> (step: RefreshStep)
        requires
            old(self)@.refresh is Idle,
        ensures
            final(self).cache() == old(self).cache(),
            final(self)@ == old(self)@.begun(),
            step@ == old(self)@.first_step(),
    {
        match fetch_new_credential(self.identity_pool.as_str()) {
            ExchangeStep::Send(stage, request) => {
                self.refresh = RefreshState::RefreshInFlight(RefreshStage::Exchange(stage));
                RefreshStep::Send(request)
            },
            // An exchange opens with a request, and with nothing else.
            ExchangeStep::Done(Err(error)) => RefreshStep::Done(Err(error)),
            ExchangeStep::Done(Ok(credentials)) => RefreshStep::Done(Ok(Arc::new(credentials))),
        }
    }

    /// Answers a caller that asks for credentials at `now`. Valid cached
    /// credentials are handed out as they are. Else the caller refreshes them
    /// and is given its first step, unless another caller is at it already:
    /// then this one waits.
    pub fn credentials(&mut self, now: Timestamp) -> (decision: Decision)
        ensures
            final(self).cache() == old(self).cache(),
            match old(self)@.decide(now@) {
                DecisionKind::Serve => decision matches Decision::Serve(credentials) && old(
                    self,
                )@.stored == Some(credentials@) && final(self)@ == old(self)@,
                DecisionKind::Refresh => decision matches Decision::Refresh(step) && step@ == old(
                    self,
                )@.first_step() && final(self)@ == old(self)@.begun(),
                DecisionKind::Wait => decision is Wait && final(self)@ == old(self)@,
            },
    {
        match self.valid_credentials(now) {
            Some(credentials) => Decision::Serve(credentials),
            None => match &self.refresh {
                RefreshState::Idle => Decision::Refresh(self.begin_refresh()),
                RefreshState::RefreshInFlight(_) => Decision::Wait,
            },
        }
    }

    /// Answers a caller that wants new credentials whatever the cache holds,
    /// because the ones it had were refused: the caller refreshes them, unless
    /// another caller is at it already. It is never served from the cache.
    pub fn force_refresh(&mut self) -> (decision: Decision)
        ensures
            final(self).cache() == old(self).cache(),
            match old(self)@.decide_forced() {
                DecisionKind::Refresh => decision matches Decision::Refresh(step) && step@ == old(
                    self,
                )@.first_step() && final(self)@ == old(self)@.begun(),
                _ => decision is Wait && final(self)@ == old(self)@,
            },
    {
        match &self.refresh {
            RefreshState::Idle => Decision::Refresh(self.begin_refresh()),
            RefreshState::RefreshInFlight(_) => Decision::Wait,
        }
    }

    /// Answers a caller that has waited for another caller's refresh: the
    /// cached credentials where they are valid at `now`, else
    /// `FailedCredentials`. The caller does not refresh and does not wait
    /// again.
    pub fn credentials_after_wait(&self, now: Timestamp) -> (r: Result<
        Arc<Credentials>,
        GoodreadsError,
    >)
        ensures
            match r {
                Ok(credentials) => self@.after_wait(now@) == Ok::<
                    CredentialsView,
                    GoodreadsErrorView,
                >(credentials@),
                Err(error) => self@.after_wait(now@) == Err::<CredentialsView, GoodreadsErrorView>(
                    error@,
                ),
            },
    {
        match self.valid_credentials(now) {
            Some(credentials) => Ok(credentials),
            None => Err(GoodreadsError::FailedCredentials),
        }
    }

    /// Ends the refresh with `error`.
    fn fail(&mut self, error: GoodreadsError) -> (step: RefreshStep)
        ensures
            final(self).cache() == old(self).cache(),
            old(self)@.fails_with(error@, final(self)@, step@),
    {
        self.refresh = RefreshState::Idle;
        RefreshStep::Done(Err(error))
    }

    /// Stores the credentials that a refresh brought, given how their durable
    /// write ended, and ends the refresh.
    fn store(&mut self, credentials: Arc<Credentials>, written: Result<(), String>) -> (step:
        RefreshStep)
        ensures
            final(self).same_file_as(old(self)),
            match written {
                Ok(_) => old(self)@.completes(credentials@, final(self)@, step@),
                Err(reason) => old(self)@.fails_with(
                    GoodreadsErrorView::Io(reason@),
                    final(self)@,
                    step@,
                ),
            },
    {
        self.refresh = RefreshState::Idle;
        let handle = crate::cache::share(&credentials);
        match self.cache.persist_credentials(credentials, written) {
            Ok(_) => RefreshStep::Done(Ok(handle)),
            Err(error) => RefreshStep::Done(Err(error)),
        }
    }

    /// Goes on with the refresh, given the credentials that the exchange has
    /// just brought and the plan that the cache made for them. Where nothing
    /// has to be written the credentials are stored and handed out; where a
    /// file has to be written that is the next step; where the cache made no
    /// plan the refresh ends with its error.
    pub fn follow_plan(
        &mut self,
        credentials: Credentials,
        plan: Result<Option<WritePlan>, GoodreadsError>,
    ) -> (step: RefreshStep)
        ensures
            final(self).same_file_as(old(self)),
            old(self)@.takes_plan(credentials@, plan_view(plan), final(self)@, step@),
    {
        match &self.refresh {
            RefreshState::Idle => {
                return RefreshStep::Done(Err(GoodreadsError::FailedCredentials));
            },
            RefreshState::RefreshInFlight(
                RefreshStage::Exchange(ExchangeStage::AwaitingCredentials),
            ) => {},
            RefreshState::RefreshInFlight(_) => {
                return self.fail(GoodreadsError::RequestError);
            },
        }
        match plan {
            Err(error) => self.fail(error),
            Ok(None) => self.store(Arc::new(credentials), Ok(())),
            Ok(Some(file)) => {
                self.refresh = RefreshState::RefreshInFlight(
                    RefreshStage::Writing(Arc::new(credentials)),
                );
                RefreshStep::Write(file)
            },
        }
    }

    /// Goes on after a step of the exchange with the federation service.
    fn follow_exchange(
        &mut self,
        stage: ExchangeStage,
        answer: Option<&HttpResponse>,
    ) -> (step: RefreshStep)
        requires
            old(self)@.refresh == RefreshStateView::RefreshInFlight(
                RefreshStageView::Exchange(stage),
            ),
        ensures
            final(self).same_file_as(old(self)),
            old(self)@.advances_from(
                RefreshStageView::Exchange(stage),
                match answer {
                    Some(response) => RefreshEventView::Response(response.status, response.body@),
                    None => RefreshEventView::TransportFailed,
                },
                old(self).cache(),
                final(self)@,
                step@,
            ),
    {
        match continue_exchange(stage, answer) {
            ExchangeStep::Send(next, request) => {
                self.refresh = RefreshState::RefreshInFlight(RefreshStage::Exchange(next));
                RefreshStep::Send(request)
            },
            ExchangeStep::Done(Err(error)) => self.fail(error),
            ExchangeStep::Done(Ok(credentials)) => {
                let plan = self.cache.persist_plan(&credentials);
                self.follow_plan(credentials, plan)
            },
        }
    }

    /// Takes what came of the refreshing caller's last step, and says what
    /// its next step is. Whenever the refresh ends, well or not, no refresh
    /// is in flight any more; the cache changes only where new credentials
    /// were written, or needed no writing.
    pub fn advance(&mut self, event: RefreshEvent) -> (step: RefreshStep)
        ensures
            final(self).same_file_as(old(self)),
            old(self)@.advances(event@, old(self).cache(), final(self)@, step@),
    {
        let stage = match &self.refresh {
            RefreshState::Idle => {
                return RefreshStep::Done(Err(GoodreadsError::FailedCredentials));
            },
            RefreshState::RefreshInFlight(RefreshStage::Exchange(stage)) => RefreshStage::Exchange(
                *stage,
            ),
            RefreshState::RefreshInFlight(RefreshStage::Writing(credentials)) => {
                RefreshStage::Writing(crate::cache::share(credentials))
            },
        };
        match (stage, event) {
            (_, RefreshEvent::Abandoned) => self.fail(GoodreadsError::FailedCredentials),
            (RefreshStage::Exchange(stage), RefreshEvent::TransportFailed) => {
                self.follow_exchange(stage, None)
            },
            (RefreshStage::Exchange(stage), RefreshEvent::Response(response)) => {
                self.follow_exchange(stage, Some(&response))
            },
            (RefreshStage::Writing(credentials), RefreshEvent::Written(written)) => self.store(
                credentials,
                written,
            ),
            _ => self.fail(GoodreadsError::RequestError),
        }
    }
}

/// What a plan holds.
pub open spec fn plan_view(plan: Result<Option<WritePlan>, GoodreadsError>) -> Result<
    Option<(Seq<char>, Seq<u8>)>,
    GoodreadsErrorView,
> {
    match plan {
        Ok(Some(file)) => Ok(Some((file.path@, file.contents@))),
        Ok(None) => Ok(None),
        Err(error) => Err(error@),
    }
}

} // verus!
