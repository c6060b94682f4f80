//! The course of one request to a protected route, as a state machine.
//!
//! A request starts unauthenticated. Its header leads to claims, for which
//! the store may have to be asked; the answer makes the request
//! authenticated or rejects it. An authenticated request is then held
//! against the permissions of its route, and is authorized or forbidden.
//! Nothing leads back, and nothing is retried.

use crate::middleware::auth::{authenticated, authorize, first_missing};
use crate::model::auth::{AuthInfo, Claims, Identity, TokenClaims};
use crate::model::permission_set::PermissionSet;
use crate::model::user::{Account, User};
use crate::repository::user_repository::{StoreError, StoreFailure};
use crate::router::root::Route;
use crate::service::auth_service::{
    root_identity, stored_identity, view_found, AuthConfig, AuthServiceImpl, Resolution,
};
use crate::util::api_response::{ApiError, Failure, Response, ServiceError};
use crate::util::constants::ROOT_USER_ID;
use vstd::prelude::*;

verus! {

/// Where a request stands.
#[derive(Debug)]
pub enum RequestState {
    /// Nothing is known of the sender yet.
    Unauthenticated,
    /// The token is verified; the store is being asked for its subject.
    Authenticating(TokenClaims),
    /// The sender is known; the route has not been looked at.
    Authenticated(AuthInfo),
    /// The sender holds what the route requires: the handler runs.
    Authorized(AuthInfo),
    /// The sender could not be authenticated.
    Rejected(ServiceError),
    /// The sender lacks a permission the route requires.
    Forbidden(ServiceError),
}

/// A state as contracts speak of it.
pub enum Stage {
    Unauthenticated,
    Authenticating(Claims),
    Authenticated(Identity),
    Authorized(Identity),
    Rejected(Failure),
    Forbidden(Failure),
}

impl View for RequestState {
    type V = Stage;

    open spec fn view(&self) -> Stage {
        match self {
            RequestState::Unauthenticated => Stage::Unauthenticated,
            RequestState::Authenticating(claims) => Stage::Authenticating(claims@),
            RequestState::Authenticated(identity) => Stage::Authenticated(identity@),
            RequestState::Authorized(identity) => Stage::Authorized(identity@),
            RequestState::Rejected(error) => Stage::Rejected(error@),
            RequestState::Forbidden(error) => Stage::Forbidden(error@),
        }
    }
}

/// What happens to a request.
#[derive(Debug)]
pub enum RequestEvent {
    /// It arrived at the time `now`, with this `Authorization` header or
    /// without one.
    Arrived { header: Option<String>, now: u64 },
    /// The store answered the lookup of the token's subject.
    Fetched(Result<User, StoreError>),
    /// It reached the guard of this route.
    Routed(Route),
}

/// An event as contracts speak of it.
pub enum Occurrence {
    Arrived { header: Option<Seq<char>>, now: u64 },
    Fetched(Result<Account, StoreFailure>),
    Routed(Route),
}

impl View for RequestEvent {
    type V = Occurrence;

    open spec fn view(&self) -> Occurrence {
        match self {
            RequestEvent::Arrived { header, now } => Occurrence::Arrived {
                header: match header {
                    Some(value) => Some(value@),
                    None => None,
                },
                now: *now,
            },
            RequestEvent::Fetched(found) => Occurrence::Fetched(view_found(*found)),
            RequestEvent::Routed(route) => Occurrence::Routed(*route),
        }
    }
}

/// What is to be done for a request in some state.
#[derive(Debug, PartialEq, Eq)]
pub enum RequestAction {
    /// Read the `Authorization` header and note the time.
    ReadHeader,
    /// Ask the store for the account with this id.
    FetchUser(i32),
    /// Hand the request to the guard of its route.
    Route,
    /// Run the handler of the route.
    RunHandler,
    /// Answer with this error; the handler does not run.
    Respond(ApiError),
}

/// An action as contracts speak of it.
pub enum Step {
    ReadHeader,
    FetchUser(i32),
    Route,
    RunHandler,
    Respond(Response),
}

impl View for RequestAction {
    type V = Step;

    open spec fn view(&self) -> Step {
        match self {
            RequestAction::ReadHeader => Step::ReadHeader,
            RequestAction::FetchUser(id) => Step::FetchUser(*id),
            RequestAction::Route => Step::Route,
            RequestAction::RunHandler => Step::RunHandler,
            RequestAction::Respond(error) => Step::Respond(error@),
        }
    }
}

impl Stage {
    /// Whether nothing can happen to the request any more.
    pub open spec fn terminal(self) -> bool {
        self is Authorized || self is Rejected || self is Forbidden
    }

    /// How far the request has come.
    pub open spec fn progress(self) -> nat {
        match self {
            Stage::Unauthenticated => 0,
            Stage::Authenticating(_) => 1,
            Stage::Authenticated(_) => 2,
            Stage::Authorized(_) => 3,
            Stage::Rejected(_) => 3,
            Stage::Forbidden(_) => 3,
        }
    }

    /// What is to be done for a request in this state.
    pub open spec fn pending(self) -> Step {
        match self {
            Stage::Unauthenticated => Step::ReadHeader,
            Stage::Authenticating(claims) => Step::FetchUser(claims.sub),
            Stage::Authenticated(_) => Step::Route,
            Stage::Authorized(_) => Step::RunHandler,
            Stage::Rejected(failure) => Step::Respond(failure.response()),
            Stage::Forbidden(failure) => Step::Respond(failure.response()),
        }
    }

    /// The state that an event leads to. An event that the state does not
    /// wait for changes nothing.
    pub open spec fn after(self, config: AuthConfig, event: Occurrence) -> Stage {
        match (self, event) {
            (Stage::Unauthenticated, Occurrence::Arrived { header, now }) => match authenticated(
                config,
                header,
                now,
            ) {
                Ok(claims) => if claims.sub == ROOT_USER_ID {
                    Stage::Authenticated(root_identity(claims.email))
                } else {
                    Stage::Authenticating(claims)
                },
                Err(failure) => Stage::Rejected(failure),
            },
            (Stage::Authenticating(claims), Occurrence::Fetched(found)) => match stored_identity(
                claims,
                found,
            ) {
                Ok(identity) => Stage::Authenticated(identity),
                Err(failure) => Stage::Rejected(failure),
            },
            (Stage::Authenticated(identity), Occurrence::Routed(route)) => match first_missing(
                identity.permissions,
                route.required(),
            ) {
                None => Stage::Authorized(identity),
                Some(kind) => Stage::Forbidden(Failure::MissingRequiredPermission(kind.name())),
            },
            _ => self,
        }
    }
}

impl RequestState {
    /// The state of a request that has just come in.
    pub fn new() -> (state: RequestState)
        ensures
            state@ == Stage::Unauthenticated,
    {
        RequestState::Unauthenticated
    }

    /// The state after the request has arrived: its header is read and
    /// its token verified at `now`.
    pub fn arrived(self, service: &AuthServiceImpl, header: Option<&str>, now: u64) -> (next:
        RequestState)
        ensures
            next@ == self@.after(
                service@,
                Occurrence::Arrived { header: crate::util::text::view_text(header), now },
            ),
    {
        match self {
            RequestState::Unauthenticated => match authorize(service, header, now) {
                Ok(Resolution::Resolved(identity)) => RequestState::Authenticated(identity),
                Ok(Resolution::Fetch(claims)) => RequestState::Authenticating(claims),
                Err(error) => RequestState::Rejected(error),
            },
            state => state,
        }
    }

    /// The state after the store has answered the lookup of the subject.
    /// The answer is read the same whatever the service's configuration.
    pub fn fetched(self, found: Result<User, StoreError>) -> (next: RequestState)
        ensures
            forall|config: AuthConfig|
                next@ == #[trigger] self@.after(config, Occurrence::Fetched(view_found(found))),
    {
        match self {
            RequestState::Authenticating(claims) => {
                match AuthServiceImpl::extract_auth_info(&claims, found) {
                    Ok(identity) => RequestState::Authenticated(identity),
                    Err(error) => RequestState::Rejected(error),
                }
            },
            state => state,
        }
    }

    /// The state after the request has reached the guard of a route. The
    /// guard decides the same whatever the service's configuration.
    pub fn routed(self, route: Route) -> (next: RequestState)
        ensures
            forall|config: AuthConfig|
                next@ == #[trigger] self@.after(config, Occurrence::Routed(route)),
    {
        match self {
            RequestState::Authenticated(identity) => match route.guard(&identity) {
                Ok(()) => RequestState::Authorized(identity),
                Err(error) => RequestState::Forbidden(error),
            },
            state => state,
        }
    }

    /// The state that an event leads to.
    pub fn step(self, service: &AuthServiceImpl, event: RequestEvent) -> (next: RequestState)
        ensures
            next@ == self@.after(service@, event@),
    {
        match event {
            RequestEvent::Arrived { header, now } => {
                let value = match &header {
                    Some(text) => Some(text.as_str()),
                    None => None,
                };
                self.arrived(service, value, now)
            },
            RequestEvent::Fetched(found) => self.fetched(found),
            RequestEvent::Routed(route) => self.routed(route),
        }
    }

    /// The identity the request acts under, once it has one, or the
    /// failure it ended in. `None` while the request is neither
    /// authenticated nor refused.
    pub fn identity(self) -> (known: Option<Result<AuthInfo, ServiceError>>)
        ensures
            match self@ {
                Stage::Unauthenticated => known is None,
                Stage::Authenticating(_) => known is None,
                Stage::Authenticated(identity) => known matches Some(Ok(same)) && same@
                    == identity,
                Stage::Authorized(identity) => known matches Some(Ok(same)) && same@ == identity,
                Stage::Rejected(failure) => known matches Some(Err(error)) && error@ == failure,
                Stage::Forbidden(failure) => known matches Some(Err(error)) && error@ == failure,
            },
    {
        match self {
            RequestState::Unauthenticated => None,
            RequestState::Authenticating(_) => None,
            RequestState::Authenticated(identity) => Some(Ok(identity)),
            RequestState::Authorized(identity) => Some(Ok(identity)),
            RequestState::Rejected(error) => Some(Err(error)),
            RequestState::Forbidden(error) => Some(Err(error)),
        }
    }

    /// What is to be done for the request now.
    pub fn action(&self) -> (pending: RequestAction)
        ensures
            pending@ == self@.pending(),
    {
        match self {
            RequestState::Unauthenticated => RequestAction::ReadHeader,
            RequestState::Authenticating(claims) => RequestAction::FetchUser(claims.sub),
            RequestState::Authenticated(_) => RequestAction::Route,
            RequestState::Authorized(_) => RequestAction::RunHandler,
            RequestState::Rejected(error) => RequestAction::Respond(
                ApiError::from(error.clone()),
            ),
            RequestState::Forbidden(error) => RequestAction::Respond(
                ApiError::from(error.clone()),
            ),
        }
    }
}

/// A request whose token does not read back under the service's secret,
/// as one issued under another secret does not, is rejected on arrival as
/// invalid, at every time: it is never reported as expired, and the store
/// is not asked.
pub proof fn lemma_unreadable_token_is_rejected(
    config: AuthConfig,
    header: Option<Seq<char>>,
    token: Seq<char>,
    now: u64,
)
    requires
        crate::middleware::auth::presented(header) == Ok::<Seq<char>, Failure>(token),
        crate::service::token::token_payload(token, config.secret) is None,
    ensures
        Stage::Unauthenticated.after(config, Occurrence::Arrived { header, now })
            == Stage::Rejected(Failure::InvalidAuthToken),
        Stage::Unauthenticated.after(config, Occurrence::Arrived { header, now }).pending()
            == Step::Respond(Failure::InvalidAuthToken.response()),
{
}

/// No event leads back: a request never falls behind where it stood, and
/// once authorized, rejected or forbidden it stays so.
pub proof fn lemma_no_way_back(stage: Stage, config: AuthConfig, event: Occurrence)
    ensures
        stage.after(config, event).progress() >= stage.progress(),
        stage.terminal() ==> stage.after(config, event) == stage,
        stage.after(config, event) == stage || stage.after(config, event).progress()
            > stage.progress(),
{
}

/// A handler runs only for a known sender that holds every permission its
/// route requires: the one step into the authorized state is from the
/// authenticated state, for the same identity, past the route's guard.
pub proof fn lemma_authorized_only_past_the_guard(
    stage: Stage,
    config: AuthConfig,
    event: Occurrence,
)
    requires
        !(stage is Authorized),
        stage.after(config, event) is Authorized,
    ensures
        stage is Authenticated,
        event is Routed,
        stage.after(config, event)->Authorized_0 == stage->Authenticated_0,
        forall|i: int|
            0 <= i < event->Routed_0.required().len() ==> PermissionSet::allows(
                stage->Authenticated_0.permissions,
                #[trigger] event->Routed_0.required()[i],
            ),
{
    crate::middleware::auth::lemma_guard_passes_iff_all_held(
        stage->Authenticated_0.permissions,
        event->Routed_0.required(),
    );
}

/// A sender becomes known only through a token that verifies: the step
/// into the authenticated state is either the root's, straight from its
/// token, or that of a stored account whose e-mail address is the one in
/// the token's claims.
pub proof fn lemma_authenticated_only_by_token(stage: Stage, config: AuthConfig, event: Occurrence)
    requires
        !(stage is Authenticated),
        stage.after(config, event) is Authenticated,
    ensures
        match stage {
            Stage::Unauthenticated => event matches Occurrence::Arrived { header, now }
                && authenticated(config, header, now) matches Ok(claims) && claims.sub
                == ROOT_USER_ID && stage.after(config, event)->Authenticated_0 == root_identity(
                claims.email,
            ),
            Stage::Authenticating(claims) => event matches Occurrence::Fetched(Ok(account))
                && account.email == claims.email && stage.after(
                config,
                event,
            )->Authenticated_0.email == claims.email,
            _ => false,
        },
{
}

} // verus!
