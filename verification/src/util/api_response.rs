//! The failures a request can end in, and the response each one becomes.

use vstd::prelude::*;
use vstd::string::StringExecFns;

verus! {

pub const BAD_REQUEST: u16 = 400;

pub const UNAUTHORIZED: u16 = 401;

pub const FORBIDDEN: u16 = 403;

pub const NOT_FOUND: u16 = 404;

pub const INTERNAL_SERVER_ERROR: u16 = 500;

/// Why a request failed.
#[derive(Debug, PartialEq, Eq)]
pub enum ServiceError {
    /// The store reported a failure; the text is the store's own.
    Database(String),
    /// What was asked for does not exist.
    NotFound(String),
    /// The request itself is unusable.
    BadRequest(String),
    /// A token could not be signed.
    FailedTokenCreation(String),
    /// The token is malformed, wrongly signed, or names an account that is
    /// gone or has changed its e-mail address.
    InvalidAuthToken,
    /// E-mail address and password do not match.
    InvalidAuthInfo,
    /// The request carries no token.
    MissingAuthToken,
    /// The identity lacks the named permission.
    MissingRequiredPermission(String),
    /// The token is past its expiry.
    ExpiredAuthToken,
    /// Any other internal failure.
    Unknown(String),
}

/// A failure as contracts speak of it.
pub enum Failure {
    Database(Seq<char>),
    NotFound(Seq<char>),
    BadRequest(Seq<char>),
    FailedTokenCreation(Seq<char>),
    InvalidAuthToken,
    InvalidAuthInfo,
    MissingAuthToken,
    MissingRequiredPermission(Seq<char>),
    ExpiredAuthToken,
    Unknown(Seq<char>),
}

impl View for ServiceError {
    type V = Failure;

    open spec fn view(&self) -> Failure {
        match self {
            ServiceError::Database(text) => Failure::Database(text@),
            ServiceError::NotFound(text) => Failure::NotFound(text@),
            ServiceError::BadRequest(text) => Failure::BadRequest(text@),
            ServiceError::FailedTokenCreation(text) => Failure::FailedTokenCreation(text@),
            ServiceError::InvalidAuthToken => Failure::InvalidAuthToken,
            ServiceError::InvalidAuthInfo => Failure::InvalidAuthInfo,
            ServiceError::MissingAuthToken => Failure::MissingAuthToken,
            ServiceError::MissingRequiredPermission(name) => Failure::MissingRequiredPermission(
                name@,
            ),
            ServiceError::ExpiredAuthToken => Failure::ExpiredAuthToken,
            ServiceError::Unknown(text) => Failure::Unknown(text@),
        }
    }
}

impl Clone for ServiceError {
    fn clone(&self) -> (copy: ServiceError)
        ensures
            copy@ == self@,
    {
        match self {
            ServiceError::Database(text) => ServiceError::Database(text.clone()),
            ServiceError::NotFound(text) => ServiceError::NotFound(text.clone()),
            ServiceError::BadRequest(text) => ServiceError::BadRequest(text.clone()),
            ServiceError::FailedTokenCreation(text) => ServiceError::FailedTokenCreation(
                text.clone(),
            ),
            ServiceError::InvalidAuthToken => ServiceError::InvalidAuthToken,
            ServiceError::InvalidAuthInfo => ServiceError::InvalidAuthInfo,
            ServiceError::MissingAuthToken => ServiceError::MissingAuthToken,
            ServiceError::MissingRequiredPermission(name) => {
                ServiceError::MissingRequiredPermission(name.clone())
            },
            ServiceError::ExpiredAuthToken => ServiceError::ExpiredAuthToken,
            ServiceError::Unknown(text) => ServiceError::Unknown(text.clone()),
        }
    }
}

impl Failure {
    /// The status a failure is answered with.
    pub open spec fn status(self) -> u16 {
        match self {
            Failure::Database(_) => INTERNAL_SERVER_ERROR,
            Failure::NotFound(_) => NOT_FOUND,
            Failure::BadRequest(_) => BAD_REQUEST,
            Failure::FailedTokenCreation(_) => INTERNAL_SERVER_ERROR,
            Failure::InvalidAuthToken => UNAUTHORIZED,
            Failure::InvalidAuthInfo => UNAUTHORIZED,
            Failure::MissingAuthToken => UNAUTHORIZED,
            Failure::MissingRequiredPermission(_) => FORBIDDEN,
            Failure::ExpiredAuthToken => UNAUTHORIZED,
            Failure::Unknown(_) => INTERNAL_SERVER_ERROR,
        }
    }

    /// The message a failure is answered with. Texts that a failure carries
    /// are passed on as they are.
    pub open spec fn message(self) -> Seq<char> {
        match self {
            Failure::Database(text) => text,
            Failure::NotFound(text) => text,
            Failure::BadRequest(text) => text,
            Failure::FailedTokenCreation(text) => text,
            Failure::InvalidAuthToken => "Invalid authorization token"@,
            Failure::InvalidAuthInfo => "Invalid username or password"@,
            Failure::MissingAuthToken => "Missing authorization token"@,
            Failure::MissingRequiredPermission(name) => "Missing required permission: "@ + name,
            Failure::ExpiredAuthToken => "Expired authorization token"@,
            Failure::Unknown(text) => "Undefined error: "@ + text,
        }
    }

    /// The response a failure becomes.
    pub open spec fn response(self) -> Response {
        Response { message: Some(self.message()), status: self.status() }
    }
}

/// The body of an error response: a message and the status it is sent with.
#[derive(Debug, PartialEq, Eq)]
pub struct ApiError {
    message: Option<String>,
    status: u16,
}

/// An error response as contracts speak of it.
pub struct Response {
    pub message: Option<Seq<char>>,
    pub status: u16,
}

impl View for ApiError {
    type V = Response;

    closed spec fn view(&self) -> Response {
        Response {
            message: match self.message {
                Some(text) => Some(text@),
                None => None,
            },
            status: self.status,
        }
    }
}

impl Clone for ApiError {
    fn clone(&self) -> (copy: ApiError)
        ensures
            copy@ == self@,
    {
        ApiError {
            message: match &self.message {
                Some(text) => Some(text.clone()),
                None => None,
            },
            status: self.status,
        }
    }
}

impl ApiError {
    pub fn new(message: Option<String>, status: u16) -> (error: ApiError)
        ensures
            error@.status == status,
            error@.message == match message {
                Some(text) => Some(text@),
                None => None::<Seq<char>>,
            },
    {
        ApiError { message, status }
    }

    pub fn status(&self) -> (status: u16)
        ensures
            status == self@.status,
    {
        self.status
    }

    pub fn message(&self) -> (message: Option<&String>)
        ensures
            self@.message == match message {
                Some(text) => Some(text@),
                None => None::<Seq<char>>,
            },
    {
        self.message.as_ref()
    }
}

impl From<ServiceError> for ApiError {
    fn from(val: ServiceError) -> (error: ApiError)
        ensures
            error@ == val@.response(),
    {
        match val {
            ServiceError::Database(msg) => ApiError::new(Some(msg), INTERNAL_SERVER_ERROR),
            ServiceError::NotFound(msg) => ApiError::new(Some(msg), NOT_FOUND),
            ServiceError::BadRequest(msg) => ApiError::new(Some(msg), BAD_REQUEST),
            ServiceError::FailedTokenCreation(msg) => ApiError::new(
                Some(msg),
                INTERNAL_SERVER_ERROR,
            ),
            ServiceError::InvalidAuthToken => ApiError::new(
                Some("Invalid authorization token".to_owned()),
                UNAUTHORIZED,
            ),
            ServiceError::InvalidAuthInfo => ApiError::new(
                Some("Invalid username or password".to_owned()),
                UNAUTHORIZED,
            ),
            ServiceError::MissingAuthToken => ApiError::new(
                Some("Missing authorization token".to_owned()),
                UNAUTHORIZED,
            ),
            ServiceError::MissingRequiredPermission(permission) => ApiError::new(
                Some("Missing required permission: ".to_owned().concat(permission.as_str())),
                FORBIDDEN,
            ),
            ServiceError::ExpiredAuthToken => ApiError::new(
                Some("Expired authorization token".to_owned()),
                UNAUTHORIZED,
            ),
            ServiceError::Unknown(msg) => ApiError::new(
                Some("Undefined error: ".to_owned().concat(msg.as_str())),
                INTERNAL_SERVER_ERROR,
            ),
        }
    }
}

/// The conversion is specified by the `ensures` of `from` itself, over views.
impl vstd::std_specs::convert::FromSpecImpl<ServiceError> for ApiError {
    open spec fn obeys_from_spec() -> bool {
        false
    }

    open spec fn from_spec(val: ServiceError) -> ApiError {
        choose|error: ApiError| error@ == val@.response()
    }
}

} // verus!
