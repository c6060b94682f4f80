use keter_rest::middleware::auth::{authorize, permission_required};
use keter_rest::model::auth::{AuthInfo, LoginDto, PermissionType};
use keter_rest::model::permission::Permission;
use keter_rest::model::user::User;
use keter_rest::repository::user_repository::StoreError;
use keter_rest::router::root::Route;
use keter_rest::service::auth_service::{AuthServiceImpl, Candidate, LoginTarget, Resolution};
use keter_rest::service::password;
use keter_rest::util::api_response::{ApiError, ServiceError};
use keter_rest::util::constants::ROOT_USER_ID;

const NOW: u64 = 1_700_000_000;

fn service() -> AuthServiceImpl {
    AuthServiceImpl::with_root_password(
        "root@example.com".to_owned(),
        "root-password",
        4,
        "a-signing-secret".to_owned(),
        3600,
    )
    .unwrap()
}

fn stored_user(email: &str, password: &str, permissions: Vec<&str>) -> User {
    let mut rows = Vec::new();
    let mut id = 1;
    for name in permissions {
        rows.push(Permission { id, name: name.to_owned() });
        id += 1;
    }
    User {
        id: 7,
        name: "Alice".to_owned(),
        age: 30,
        email: email.to_owned(),
        password: password::hash(password, 4).unwrap(),
        permissions: rows,
    }
}

fn login_of(email: &str, password: &str) -> LoginDto {
    LoginDto { email: email.to_owned(), password: password.to_owned() }
}

fn login_stored(service: &AuthServiceImpl, user: User, login: &LoginDto) -> Result<String, ServiceError> {
    let email = match service.login_target(login) {
        LoginTarget::Stored(email) => email,
        LoginTarget::Root(_) => panic!("a stored account is not the root"),
    };
    let candidate = AuthServiceImpl::stored_candidate(&email, Ok(user))?;
    service.login(login, &candidate, NOW).map(|issued| issued.access_token)
}

fn resolve(service: &AuthServiceImpl, token: &str, found: Result<User, StoreError>, now: u64) -> Result<AuthInfo, ServiceError> {
    let header = format!("Bearer {}", token);
    match authorize(service, Some(&header), now)? {
        Resolution::Resolved(identity) => Ok(identity),
        Resolution::Fetch(claims) => AuthServiceImpl::extract_auth_info(&claims, found),
    }
}

#[test]
fn root_login_needs_no_store_and_holds_every_permission() {
    let service = service();
    let login = login_of("root@example.com", "root-password");
    let candidate = match service.login_target(&login) {
        LoginTarget::Root(candidate) => candidate,
        LoginTarget::Stored(_) => panic!("the root is not looked up"),
    };
    assert_eq!(candidate.id, ROOT_USER_ID);
    assert_eq!(candidate.email, "root@example.com");
    let token = service.login(&login, &candidate, NOW).unwrap().access_token;

    let header = format!("Bearer {}", token);
    let identity = match authorize(&service, Some(&header), NOW + 10).unwrap() {
        Resolution::Resolved(identity) => identity,
        Resolution::Fetch(_) => panic!("the root is not fetched"),
    };
    assert_eq!(identity.user_id, ROOT_USER_ID);
    assert_eq!(identity.email, "root@example.com");
    assert_eq!(identity.permissions.len(), 4);
    for kind in PermissionType::variants() {
        assert!(identity.permissions.contains(kind));
        assert!(identity.permissions.grants(kind));
    }
    assert!(!identity.permissions.contains(PermissionType::Unknown));
    for route in [
        Route::ListUsers,
        Route::CreateUser,
        Route::GetUser,
        Route::UpdateUser,
        Route::DeleteUser,
        Route::UpdateUserPermissions,
        Route::Upload,
    ] {
        assert_eq!(route.guard(&identity), Ok(()));
    }
}

#[test]
fn root_login_with_wrong_password_is_refused() {
    let service = service();
    let login = login_of("root@example.com", "not-the-password");
    let candidate = match service.login_target(&login) {
        LoginTarget::Root(candidate) => candidate,
        LoginTarget::Stored(_) => panic!("the root is not looked up"),
    };
    assert_eq!(service.login(&login, &candidate, NOW), Err(ServiceError::InvalidAuthInfo));
}

#[test]
fn stored_user_logs_in_and_resolves_to_its_permissions() {
    let service = service();
    let login = login_of("a@b.com", "correct horse");
    let token = login_stored(&service, stored_user("a@b.com", "correct horse", vec!["user.read"]), &login).unwrap();

    let found = Ok(stored_user("a@b.com", "correct horse", vec!["user.read"]));
    let identity = resolve(&service, &token, found, NOW + 1).unwrap();
    assert_eq!(identity.user_id, 7);
    assert_eq!(identity.email, "a@b.com");
    assert_eq!(identity.permissions.len(), 1);
    assert!(identity.permissions.contains(PermissionType::ReadUser));

    let refused = Route::CreateUser.guard(&identity).unwrap_err();
    assert_eq!(refused, ServiceError::MissingRequiredPermission("user.create".to_owned()));
    let response = ApiError::from(refused);
    assert_eq!(response.status(), 403);
    assert_eq!(
        response.message().map(String::as_str),
        Some("Missing required permission: user.create")
    );

    assert_eq!(Route::ListUsers.guard(&identity), Ok(()));
    assert_eq!(Route::GetUser.guard(&identity), Ok(()));
    assert_eq!(
        permission_required(&identity, &vec![PermissionType::ReadUser]),
        Ok(())
    );
}

#[test]
fn token_does_not_survive_a_change_of_email() {
    let service = service();
    let login = login_of("a@b.com", "correct horse");
    let token = login_stored(&service, stored_user("a@b.com", "correct horse", vec!["user.read"]), &login).unwrap();

    let found = Ok(stored_user("new@b.com", "correct horse", vec!["user.read"]));
    let failure = resolve(&service, &token, found, NOW + 1).unwrap_err();
    assert_eq!(failure, ServiceError::InvalidAuthToken);
    assert_eq!(ApiError::from(failure).status(), 401);
}

#[test]
fn token_does_not_survive_the_deletion_of_its_user() {
    let service = service();
    let login = login_of("a@b.com", "correct horse");
    let token = login_stored(&service, stored_user("a@b.com", "correct horse", vec!["user.read"]), &login).unwrap();

    let found = Err(StoreError::RowNotFound("no rows returned".to_owned()));
    let failure = resolve(&service, &token, found, NOW + 1).unwrap_err();
    assert_eq!(failure, ServiceError::InvalidAuthToken);
    assert_eq!(ApiError::from(failure).status(), 401);
}

#[test]
fn expired_token_is_reported_as_expired() {
    let service = service();
    let login = login_of("a@b.com", "correct horse");
    let token = login_stored(&service, stored_user("a@b.com", "correct horse", vec![]), &login).unwrap();
    let header = format!("Bearer {}", token);
    assert!(authorize(&service, Some(&header), NOW + 3600).is_ok());
    let failure = authorize(&service, Some(&header), NOW + 3601).unwrap_err();
    assert_eq!(failure, ServiceError::ExpiredAuthToken);
    let response = ApiError::from(failure);
    assert_eq!(response.status(), 401);
    assert_eq!(response.message().map(String::as_str), Some("Expired authorization token"));
}

#[test]
fn wrong_password_of_a_stored_user_is_refused() {
    let service = service();
    let login = login_of("a@b.com", "wrong");
    let result = login_stored(&service, stored_user("a@b.com", "correct horse", vec![]), &login);
    assert_eq!(result, Err(ServiceError::InvalidAuthInfo));
}

#[test]
fn stored_hash_that_is_no_hash_is_refused_like_a_wrong_password() {
    let service = service();
    let login = login_of("a@b.com", "plain");
    let candidate = Candidate { id: 7, email: "a@b.com".to_owned(), password: "plain".to_owned() };
    assert_eq!(service.login(&login, &candidate, NOW), Err(ServiceError::InvalidAuthInfo));
}

#[test]
fn login_with_unknown_email_is_not_found() {
    let found = Err(StoreError::RowNotFound("no rows returned".to_owned()));
    let failure = AuthServiceImpl::stored_candidate("nobody@b.com", found).unwrap_err();
    assert_eq!(failure, ServiceError::NotFound("No user found with email: nobody@b.com".to_owned()));
    assert_eq!(ApiError::from(failure).status(), 404);
}

#[test]
fn store_failures_pass_through_login_and_resolution() {
    let found = Err(StoreError::Database("connection refused".to_owned()));
    let failure = AuthServiceImpl::stored_candidate("a@b.com", found).unwrap_err();
    assert_eq!(failure, ServiceError::Database("connection refused".to_owned()));
    assert_eq!(ApiError::from(failure).status(), 500);

    let found = Err(StoreError::Other("pool timed out".to_owned()));
    let failure = AuthServiceImpl::stored_candidate("a@b.com", found).unwrap_err();
    assert_eq!(failure, ServiceError::Database("pool timed out".to_owned()));
    let response = ApiError::from(failure);
    assert_eq!(response.status(), 500);
    assert_eq!(response.message().map(String::as_str), Some("pool timed out"));

    let service = service();
    let token = service.generate_access_token_at(7, "a@b.com", NOW).unwrap();
    let found = Err(StoreError::Database("connection refused".to_owned()));
    assert_eq!(
        resolve(&service, &token, found, NOW).unwrap_err(),
        ServiceError::Database("connection refused".to_owned())
    );
    let found = Err(StoreError::Other("pool timed out".to_owned()));
    assert_eq!(
        resolve(&service, &token, found, NOW).unwrap_err(),
        ServiceError::Database("pool timed out".to_owned())
    );
}

#[test]
fn unknown_permission_names_grant_nothing() {
    let service = service();
    let token = service.generate_access_token_at(7, "a@b.com", NOW).unwrap();
    let found = Ok(stored_user("a@b.com", "pw", vec!["user.purge", "user.read", "user.read", ""]));
    let identity = resolve(&service, &token, found, NOW).unwrap();
    assert_eq!(identity.permissions.len(), 2);
    assert!(identity.permissions.contains(PermissionType::Unknown));
    assert!(identity.permissions.contains(PermissionType::ReadUser));
    assert!(!identity.permissions.grants(PermissionType::Unknown));
    assert_eq!(
        permission_required(&identity, &vec![PermissionType::Unknown]),
        Err(ServiceError::MissingRequiredPermission("unknown".to_owned()))
    );
}

#[test]
fn identity_with_only_unknown_fails_every_guard() {
    let service = service();
    let token = service.generate_access_token_at(7, "a@b.com", NOW).unwrap();
    let found = Ok(stored_user("a@b.com", "pw", vec!["user.purge"]));
    let identity = resolve(&service, &token, found, NOW).unwrap();
    assert_eq!(identity.permissions.len(), 1);
    assert!(identity.permissions.contains(PermissionType::Unknown));
    for kind in [
        PermissionType::CreateUser,
        PermissionType::ReadUser,
        PermissionType::UpdateUser,
        PermissionType::DeleteUser,
        PermissionType::Unknown,
    ] {
        assert_eq!(
            permission_required(&identity, &vec![kind]),
            Err(ServiceError::MissingRequiredPermission(kind.as_str().to_owned()))
        );
    }
    assert_eq!(Route::Upload.guard(&identity), Ok(()));
}

#[test]
fn guard_names_the_first_missing_permission() {
    let service = service();
    let token = service.generate_access_token_at(7, "a@b.com", NOW).unwrap();
    let found = Ok(stored_user("a@b.com", "pw", vec!["user.read", "user.update"]));
    let identity = resolve(&service, &token, found, NOW).unwrap();
    let required = vec![
        PermissionType::ReadUser,
        PermissionType::DeleteUser,
        PermissionType::UpdateUser,
        PermissionType::CreateUser,
    ];
    assert_eq!(
        permission_required(&identity, &required),
        Err(ServiceError::MissingRequiredPermission("user.delete".to_owned()))
    );
    assert_eq!(
        permission_required(&identity, &vec![PermissionType::UpdateUser, PermissionType::ReadUser]),
        Ok(())
    );
    assert_eq!(permission_required(&identity, &vec![]), Ok(()));
}

#[test]
fn right_password_fails_only_where_the_expiry_is_out_of_range() {
    let service = service();
    let login = login_of("root@example.com", "root-password");
    let candidate = match service.login_target(&login) {
        LoginTarget::Root(candidate) => candidate,
        LoginTarget::Stored(_) => panic!("the root is not looked up"),
    };
    let last = i64::MAX as u64 - 3600;
    assert!(service.login(&login, &candidate, last).is_ok());
    assert_eq!(
        service.login(&login, &candidate, last + 1),
        Err(ServiceError::FailedTokenCreation("expiry is out of range".to_owned()))
    );
    let wrong = login_of("root@example.com", "wrong");
    assert_eq!(service.login(&wrong, &candidate, last + 1), Err(ServiceError::InvalidAuthInfo));
    assert_eq!(
        ApiError::from(ServiceError::FailedTokenCreation("expiry is out of range".to_owned())).status(),
        500
    );
}

#[test]
fn root_cannot_be_hashed_at_a_cost_out_of_range() {
    assert!(AuthServiceImpl::with_root_password("r".to_owned(), "p", 3, "s".to_owned(), 1).is_none());
    assert!(AuthServiceImpl::with_root_password("r".to_owned(), "p", 32, "s".to_owned(), 1).is_none());
    assert!(password::hash("p", 3).is_none());
}

#[test]
fn password_check_distinguishes_passwords() {
    let hash = password::hash("secret one", 4).unwrap();
    assert_ne!(hash, "secret one");
    assert!(password::verify("secret one", &hash));
    assert!(!password::verify("secret two", &hash));
    assert!(!password::verify("secret one", "secret one"));
    assert!(password::verify(
        "hunter2",
        &password::hash("hunter2", 5).unwrap()
    ));
}

#[test]
fn unusual_passwords_are_hashed_and_checked() {
    let long = "x".repeat(200);
    let hash = password::hash(&long, 4).unwrap();
    assert!(password::verify(&long, &hash));
    let hash = password::hash("", 4).unwrap();
    assert!(password::verify("", &hash));
    assert!(!password::verify("a", &hash));
    let hash = password::hash("p\u{e4}ss\0word", 4).unwrap();
    assert!(password::verify("p\u{e4}ss\0word", &hash));
    assert!(!password::verify("", ""));
    assert!(!password::verify("x", "$2b$04$tooshort"));
    assert!(!password::verify("x", "$9z$04$abcdefghijklmnopqrstuuabcdefghijklmnopqrstuvwxyz01234"));
}

#[test]
fn service_is_made_of_the_root_hash_it_is_given() {
    let hash = password::hash("root-password", 4).unwrap();
    let service = AuthServiceImpl::with_root_hash(
        "root@example.com".to_owned(),
        Some(hash),
        "a-signing-secret".to_owned(),
        3600,
    )
    .unwrap();
    let login = login_of("root@example.com", "root-password");
    let candidate = match service.login_target(&login) {
        LoginTarget::Root(candidate) => candidate,
        LoginTarget::Stored(_) => panic!("the root is not looked up"),
    };
    let token = service.login(&login, &candidate, NOW).unwrap().access_token;
    let claims = keter_rest::service::token::verify_at(&token, "a-signing-secret", NOW + 3600).unwrap();
    assert_eq!(claims.sub, ROOT_USER_ID);
    assert_eq!(claims.exp - claims.iat, 3600);

    assert!(AuthServiceImpl::with_root_hash("r".to_owned(), None, "s".to_owned(), 1).is_none());
}
