//! Login and the resolution of a token into the identity it stands for.
//!
//! Both need the user store at most once, between two decisions. The
//! decisions are the functions of this module; whoever runs a request asks
//! the store in between and hands its answer to the next function.

use crate::model::auth::{
    AuthCredentialDto, AuthInfo, Claims, Identity, LoginDto, PermissionType, TokenClaims,
};
use crate::model::permission_set::PermissionSet;
use crate::model::user::{Account, User};
use crate::repository::user_repository::{StoreError, StoreFailure};
use crate::service::password;
use crate::service::token;
use crate::util::api_response::{Failure, ServiceError};
use crate::util::constants::ROOT_USER_ID;
use crate::util::text::{joined, same_text};
use vstd::prelude::*;

verus! {

/// The account that a login is checked against: its id, its e-mail address
/// and the hash of its password.
#[derive(Debug)]
pub struct Candidate {
    pub id: i32,
    pub email: String,
    pub password: String,
}

/// A candidate as contracts speak of it.
pub struct Suspect {
    pub id: i32,
    pub email: Seq<char>,
    pub password: Seq<char>,
}

impl View for Candidate {
    type V = Suspect;

    open spec fn view(&self) -> Suspect {
        Suspect { id: self.id, email: self.email@, password: self.password@ }
    }
}

/// Where a login finds the account it is checked against.
#[derive(Debug)]
pub enum LoginTarget {
    /// The credentials name the root account, which no store holds.
    Root(Candidate),
    /// The store is to be asked for the account with this e-mail address.
    Stored(String),
}

/// What a verified token leads to.
#[derive(Debug)]
pub enum Resolution {
    /// The token is the root's: its identity needs no store.
    Resolved(AuthInfo),
    /// The store is to be asked for the account with the id `claims.sub`,
    /// and its answer checked against these claims.
    Fetch(TokenClaims),
}

/// The login and token service: the root account, the signing secret and
/// the lifetime of the tokens it issues.
#[derive(Debug)]
pub struct AuthServiceImpl {
    root_user: String,
    root_password: String,
    secret: String,
    expire_duration: u64,
}

/// The service's configuration as contracts speak of it.
pub struct AuthConfig {
    /// The e-mail address of the root account.
    pub root_user: Seq<char>,
    /// The hash of the root account's password.
    pub root_password: Seq<char>,
    pub secret: Seq<char>,
    /// For how many seconds an issued token is valid.
    pub expire_duration: u64,
}

impl View for AuthServiceImpl {
    type V = AuthConfig;

    closed spec fn view(&self) -> AuthConfig {
        AuthConfig {
            root_user: self.root_user@,
            root_password: self.root_password@,
            secret: self.secret@,
            expire_duration: self.expire_duration,
        }
    }
}

impl AuthConfig {
    /// The root account as a login candidate.
    pub open spec fn root(self) -> Suspect {
        Suspect { id: ROOT_USER_ID, email: self.root_user, password: self.root_password }
    }

    /// Whether a login with this e-mail address asks the store.
    pub open spec fn asks_store(self, email: Seq<char>) -> bool {
        email != self.root_user
    }

    /// Whether a login against `suspect` succeeds at `now`: the password
    /// matches and a token can be issued.
    pub open spec fn admits(self, password: Seq<char>, suspect: Suspect, now: u64) -> bool {
        &&& password::matches_hash(password, suspect.password)
        &&& token::issuable(self.expire_duration, now)
    }

    /// What a token resolves to before any answer of the store: a failure,
    /// or the claims it states.
    pub open spec fn claims(self, token: Seq<char>, now: u64) -> Result<Claims, Failure> {
        token::verified(token, self.secret, now)
    }
}

/// The identity of the root account under the e-mail address its token
/// states: every assignable permission.
pub open spec fn root_identity(email: Seq<char>) -> Identity {
    Identity { user_id: ROOT_USER_ID, email, permissions: PermissionSet::all_assignable() }
}

/// The candidate that the store's answer to a lookup by e-mail gives. A
/// missing row means that no account has the address; every other failure
/// of the store is a database failure, with the store's text as it is.
pub open spec fn stored_suspect(email: Seq<char>, found: Result<Account, StoreFailure>) -> Result<
    Suspect,
    Failure,
> {
    match found {
        Ok(account) => Ok(
            Suspect { id: account.id, email: account.email, password: account.password },
        ),
        Err(StoreFailure::Database(text)) => Err(Failure::Database(text)),
        Err(StoreFailure::RowNotFound(_)) => Err(
            Failure::NotFound("No user found with email: "@ + email),
        ),
        Err(StoreFailure::Other(text)) => Err(Failure::Database(text)),
    }
}

/// The identity that the store's answer to a lookup by id gives for the
/// claims of a verified token. An account that is gone, or whose e-mail
/// address is no longer the one in the claims, invalidates the token; every
/// other failure of the store is a database failure, with the store's text
/// as it is.
pub open spec fn stored_identity(claims: Claims, found: Result<Account, StoreFailure>) -> Result<
    Identity,
    Failure,
> {
    match found {
        Ok(account) => if account.email == claims.email {
            Ok(
                Identity {
                    user_id: account.id,
                    email: account.email,
                    permissions: PermissionSet::of_names(account.permission_names()),
                },
            )
        } else {
            Err(Failure::InvalidAuthToken)
        },
        Err(StoreFailure::RowNotFound(_)) => Err(Failure::InvalidAuthToken),
        Err(StoreFailure::Database(text)) => Err(Failure::Database(text)),
        Err(StoreFailure::Other(text)) => Err(Failure::Database(text)),
    }
}

impl AuthServiceImpl {
    /// A service for the given root account (its e-mail address and the
    /// hash of its password), signing secret and token lifetime in seconds.
    pub fn new(root_user: String, root_password: String, secret: String, expire_duration: u64) -> (service:
        AuthServiceImpl)
        ensures
            service@.root_user == root_user@,
            service@.root_password == root_password@,
            service@.secret == secret@,
            service@.expire_duration == expire_duration,
    {
        AuthServiceImpl { root_user, root_password, secret, expire_duration }
    }

    /// A service whose root account has the given password, hashed here at
    /// the given cost. `None` where the password cannot be hashed.
    pub fn with_root_password(
        root_user: String,
        root_password: &str,
        hash_cost: u32,
        secret: String,
        expire_duration: u64,
    ) -> (service: Option<AuthServiceImpl>)
        ensures
            service matches Some(made) ==> {
                &&& made@.root_user == root_user@
                &&& made@.secret == secret@
                &&& made@.expire_duration == expire_duration
                &&& password::matches_hash(root_password@, made@.root_password)
            },
            !(4 <= hash_cost <= 31) ==> service is None,
    {
        // Whether there is a hash is for the hasher to decide, which salts
        // with fresh random bytes; the rest is the same for every answer.
        let root_hash = password::hash(root_password, hash_cost);
        AuthServiceImpl::with_root_hash(root_user, root_hash, secret, expire_duration)
    }

    /// A service for the given root account, signing secret and token
    /// lifetime, given what the hasher answered for the root's password:
    /// the service with that hash, or none where the hasher gave no hash.
    pub fn with_root_hash(
        root_user: String,
        root_hash: Option<String>,
        secret: String,
        expire_duration: u64,
    ) -> (service: Option<AuthServiceImpl>)
        ensures
            match root_hash {
                Some(hash) => service matches Some(made) && made@ == (AuthConfig {
                    root_user: root_user@,
                    root_password: hash@,
                    secret: secret@,
                    expire_duration,
                }),
                None => service is None,
            },
    {
        match root_hash {
            Some(hash) => Some(AuthServiceImpl::new(root_user, hash, secret, expire_duration)),
            None => None,
        }
    }

    /// Issues an access token for an account at the time `now`. It fails
    /// only where the expiry is past what a token can state.
    pub fn generate_access_token_at(&self, id: i32, email: &str, now: u64) -> (token: Result<
        String,
        ServiceError,
    >)
        ensures
            match token {
                Ok(text) => token::issuable(self@.expire_duration, now) && token::issued(
                    text@,
                    id,
                    email@,
                    self@.secret,
                    self@.expire_duration,
                    now,
                ),
                Err(error) => !token::issuable(self@.expire_duration, now) && error@
                    == token::out_of_range(),
            },
    {
        token::issue_at(id, email, self.secret.as_str(), self.expire_duration, now)
    }

    /// First decision of a login: the root account is checked as it is
    /// configured, any other e-mail address is looked up in the store.
    pub fn login_target(&self, user: &LoginDto) -> (target: LoginTarget)
        ensures
            match target {
                LoginTarget::Root(candidate) => !self@.asks_store(user.email@) && candidate@
                    == self@.root(),
                LoginTarget::Stored(email) => self@.asks_store(user.email@) && email@
                    == user.email@,
            },
    {
        if same_text(user.email.as_str(), self.root_user.as_str()) {
            LoginTarget::Root(
                Candidate {
                    id: ROOT_USER_ID,
                    email: self.root_user.clone(),
                    password: self.root_password.clone(),
                },
            )
        } else {
            LoginTarget::Stored(user.email.clone())
        }
    }

    /// The candidate that the store's answer to the lookup by `email` gives.
    pub fn stored_candidate(email: &str, found: Result<User, StoreError>) -> (candidate: Result<
        Candidate,
        ServiceError,
    >)
        ensures
            match candidate {
                Ok(account) => stored_suspect(email@, view_found(found)) == Ok::<Suspect, Failure>(
                    account@,
                ),
                Err(error) => stored_suspect(email@, view_found(found)) == Err::<Suspect, Failure>(
                    error@,
                ),
            },
    {
        match found {
            Ok(existing_user) => Ok(
                Candidate {
                    id: existing_user.id,
                    email: existing_user.email,
                    password: existing_user.password,
                },
            ),
            Err(StoreError::Database(msg)) => Err(ServiceError::Database(msg)),
            Err(StoreError::RowNotFound(_)) => Err(
                ServiceError::NotFound(joined("No user found with email: ", email)),
            ),
            Err(StoreError::Other(msg)) => Err(ServiceError::Database(msg)),
        }
    }

    /// Last decision of a login: a token for the candidate if the password
    /// matches its hash. A wrong password and a text that is no hash give
    /// the same failure. With the right password the login fails only
    /// where the token's expiry is past what a token can state.
    pub fn login(&self, user: &LoginDto, candidate: &Candidate, now: u64) -> (credential: Result<
        AuthCredentialDto,
        ServiceError,
    >)
        ensures
            match credential {
                Ok(issued) => self@.admits(user.password@, candidate@, now) && token::issued(
                    issued.access_token@,
                    candidate.id,
                    candidate.email@,
                    self@.secret,
                    self@.expire_duration,
                    now,
                ),
                Err(error) => !self@.admits(user.password@, candidate@, now) && error@ == (
                if password::matches_hash(user.password@, candidate.password@) {
                    token::out_of_range()
                } else {
                    Failure::InvalidAuthInfo
                }),
            },
    {
        if password::verify(user.password.as_str(), candidate.password.as_str()) {
            match self.generate_access_token_at(candidate.id, candidate.email.as_str(), now) {
                Ok(access_token) => Ok(AuthCredentialDto { access_token }),
                Err(error) => Err(error),
            }
        } else {
            Err(ServiceError::InvalidAuthInfo)
        }
    }

    /// First decision of resolving a token: its claims, verified at `now`.
    /// The root's token resolves at once, to the full permission set; for
    /// any other the store is to be asked.
    pub fn extract_claims(&self, token: &str, now: u64) -> (resolution: Result<
        Resolution,
        ServiceError,
    >)
        ensures
            match resolution {
                Ok(Resolution::Resolved(identity)) => self@.claims(token@, now) matches Ok(claims)
                    && claims.sub == ROOT_USER_ID && identity@ == root_identity(claims.email),
                Ok(Resolution::Fetch(stated)) => self@.claims(token@, now) == Ok::<
                    Claims,
                    Failure,
                >(stated@) && stated.sub != ROOT_USER_ID,
                Err(error) => self@.claims(token@, now) == Err::<Claims, Failure>(error@),
            },
    {
        match token::verify_at(token, self.secret.as_str(), now) {
            Ok(claims) => {
                if claims.sub == ROOT_USER_ID {
                    Ok(
                        Resolution::Resolved(
                            AuthInfo {
                                user_id: ROOT_USER_ID,
                                email: claims.email,
                                permissions: PermissionSet::full(),
                            },
                        ),
                    )
                } else {
                    Ok(Resolution::Fetch(claims))
                }
            },
            Err(error) => Err(error),
        }
    }

    /// Last decision of resolving a token: the identity that the store's
    /// answer to the lookup by `claims.sub` gives.
    pub fn extract_auth_info(claims: &TokenClaims, found: Result<User, StoreError>) -> (identity:
        Result<AuthInfo, ServiceError>)
        ensures
            match identity {
                Ok(known) => stored_identity(claims@, view_found(found)) == Ok::<Identity, Failure>(
                    known@,
                ),
                Err(error) => stored_identity(claims@, view_found(found)) == Err::<
                    Identity,
                    Failure,
                >(error@),
            },
    {
        match found {
            Ok(u) => {
                if same_text(u.email.as_str(), claims.email.as_str()) {
                    let names = u.permission_names();
                    Ok(
                        AuthInfo {
                            user_id: u.id,
                            email: u.email,
                            permissions: PermissionSet::from_names(&names),
                        },
                    )
                } else {
                    Err(ServiceError::InvalidAuthToken)
                }
            },
            Err(StoreError::RowNotFound(_)) => Err(ServiceError::InvalidAuthToken),
            Err(StoreError::Database(db_err)) => Err(ServiceError::Database(db_err)),
            Err(StoreError::Other(msg)) => Err(ServiceError::Database(msg)),
        }
    }
}

/// The full permission set holds the four assignable kinds and allows each
/// of them; it does not allow `Unknown`.
pub proof fn lemma_root_holds_all()
    ensures
        PermissionSet::all_assignable() == set![
            PermissionType::CreateUser,
            PermissionType::ReadUser,
            PermissionType::UpdateUser,
            PermissionType::DeleteUser,
        ],
        forall|kind: PermissionType|
            #[trigger] PermissionSet::allows(PermissionSet::all_assignable(), kind)
                == kind.assignable(),
{
    let catalog = PermissionType::catalog();
    assert(catalog.to_set() =~= set![
        PermissionType::CreateUser,
        PermissionType::ReadUser,
        PermissionType::UpdateUser,
        PermissionType::DeleteUser,
    ]);
}

/// A login as root with the root's password never asks the store and
/// succeeds wherever the token's expiry is a time a token can state; the
/// token it returns resolves, up to its expiry and again without the store,
/// to an identity that holds all four assignable permissions.
pub proof fn lemma_root_login(
    config: AuthConfig,
    password: Seq<char>,
    now: u64,
    token: Seq<char>,
    later: u64,
)
    requires
        password::matches_hash(password, config.root_password),
        token::issued(
            token,
            ROOT_USER_ID,
            config.root_user,
            config.secret,
            config.expire_duration,
            now,
        ),
        later <= now + config.expire_duration,
    ensures
        !config.asks_store(config.root_user),
        config.admits(password, config.root(), now),
        config.claims(token, later) matches Ok(claims) && claims.sub == ROOT_USER_ID
            && claims.email == config.root_user,
        root_identity(config.root_user).permissions == set![
            PermissionType::CreateUser,
            PermissionType::ReadUser,
            PermissionType::UpdateUser,
            PermissionType::DeleteUser,
        ],
{
    lemma_root_holds_all();
}

/// A token outlives neither the account it names nor that account's e-mail
/// address: whatever the claims, a lookup that finds no row, or finds an
/// account under another address, resolves to an invalid token.
pub proof fn lemma_stale_token_is_invalid(claims: Claims, found: Result<Account, StoreFailure>)
    requires
        match found {
            Ok(account) => account.email != claims.email,
            Err(failure) => failure is RowNotFound,
        },
    ensures
        stored_identity(claims, found) == Err::<Identity, Failure>(Failure::InvalidAuthToken),
{
}

/// The store's answer to a lookup of one account, as contracts speak of it.
pub open spec fn view_found(found: Result<User, StoreError>) -> Result<Account, StoreFailure> {
    match found {
        Ok(user) => Ok(user@),
        Err(error) => Err(error@),
    }
}

} // verus!
