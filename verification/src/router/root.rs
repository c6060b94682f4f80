//! The route table: which routes need a token, and which permissions each
//! one requires on top of it.

use crate::middleware::auth::{first_missing, permission_required};
use crate::model::auth::{AuthInfo, PermissionType};
use crate::util::api_response::{Failure, ServiceError};
use crate::util::text::joined;
use vstd::prelude::*;

verus! {

/// The largest upload body that is accepted, in bytes.
pub const UPLOAD_BODY_LIMIT: usize = 10240;

/// What the health check answers: a fixed line that names the version of
/// the running service.
pub fn health_check(version: &str) -> (line: String)
    ensures
        line@ == "App version: "@ + version@,
{
    joined("App version: ", version)
}

/// One route of the service.
#[derive(Clone, Copy, Debug, PartialEq, Eq, Structural)]
pub enum Route {
    /// `POST /login`
    Login,
    /// `GET /health-check`
    HealthCheck,
    /// `GET /users`
    ListUsers,
    /// `POST /users`
    CreateUser,
    /// `GET /users/:id`
    GetUser,
    /// `PATCH /users/:id`
    UpdateUser,
    /// `DELETE /users/:id`
    DeleteUser,
    /// `PUT /users/:id/permissions`
    UpdateUserPermissions,
    /// `POST /upload`
    Upload,
}

impl Route {
    /// Whether a request to the route must carry a valid token. Only login
    /// and the health check are public.
    pub open spec fn protected(self) -> bool {
        self != Route::Login && self != Route::HealthCheck
    }

    /// The permissions the route requires of an authenticated request.
    pub open spec fn required(self) -> Seq<PermissionType> {
        match self {
            Route::ListUsers => seq![PermissionType::ReadUser],
            Route::GetUser => seq![PermissionType::ReadUser],
            Route::CreateUser => seq![PermissionType::CreateUser],
            Route::UpdateUser => seq![PermissionType::UpdateUser],
            Route::UpdateUserPermissions => seq![PermissionType::UpdateUser],
            Route::DeleteUser => seq![PermissionType::DeleteUser],
            Route::Upload => Seq::empty(),
            Route::Login => Seq::empty(),
            Route::HealthCheck => Seq::empty(),
        }
    }

    pub fn is_protected(&self) -> (protected: bool)
        ensures
            protected == self.protected(),
    {
        !matches!(self, Route::Login | Route::HealthCheck)
    }

    pub fn required_permissions(&self) -> (required: Vec<PermissionType>)
        ensures
            required@ == self.required(),
    {
        let mut required: Vec<PermissionType> = Vec::new();
        match self {
            Route::ListUsers | Route::GetUser => {
                required.push(PermissionType::ReadUser);
            },
            Route::CreateUser => {
                required.push(PermissionType::CreateUser);
            },
            Route::UpdateUser | Route::UpdateUserPermissions => {
                required.push(PermissionType::UpdateUser);
            },
            Route::DeleteUser => {
                required.push(PermissionType::DeleteUser);
            },
            Route::Upload | Route::Login | Route::HealthCheck => {},
        }
        required
    }

    /// Whether an authenticated request may go on to the route's handler:
    /// the route's permission guard, applied to the request's identity.
    pub fn guard(&self, auth_info: &AuthInfo) -> (admitted: Result<(), ServiceError>)
        ensures
            match first_missing(auth_info@.permissions, self.required()) {
                None => admitted is Ok,
                Some(kind) => admitted matches Err(error) && error@
                    == Failure::MissingRequiredPermission(kind.name()),
            },
    {
        let required = self.required_permissions();
        permission_required(auth_info, &required)
    }
}

/// No route requires `Unknown`, and only protected routes require anything.
pub proof fn lemma_routes_require_assignable(route: Route)
    ensures
        forall|i: int|
            0 <= i < route.required().len() ==> (#[trigger] route.required()[i]).assignable(),
        route.required().len() > 0 ==> route.protected(),
{
}

} // verus!
