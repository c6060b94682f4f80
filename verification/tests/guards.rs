use keter_rest::middleware::auth::{authorize, bearer_token};
use keter_rest::model::auth::PermissionType;
use keter_rest::router::root::Route;
use keter_rest::service::auth_service::AuthServiceImpl;
use keter_rest::util::api_response::{ApiError, ServiceError};

#[test]
fn missing_header_is_a_missing_token() {
    assert_eq!(bearer_token(None), Err(ServiceError::MissingAuthToken));
    let response = ApiError::from(ServiceError::MissingAuthToken);
    assert_eq!(response.status(), 401);
    assert_eq!(response.message().map(String::as_str), Some("Missing authorization token"));
}

#[test]
fn bearer_token_is_what_follows_the_scheme() {
    assert_eq!(bearer_token(Some("Bearer abc.def.ghi")), Ok("abc.def.ghi".to_owned()));
    assert_eq!(bearer_token(Some("bearer abc")), Ok("abc".to_owned()));
    assert_eq!(bearer_token(Some("BEARER abc")), Ok("abc".to_owned()));
    assert_eq!(bearer_token(Some("Bearer   \t abc def ")), Ok("abc def ".to_owned()));
    assert_eq!(bearer_token(Some("Bearer ")), Ok("".to_owned()));
    assert_eq!(bearer_token(Some("Bearer    ")), Ok("".to_owned()));
}

#[test]
fn other_header_values_are_invalid_tokens() {
    for value in [
        "",
        "Bearer",
        "Bearerabc",
        "Basic QWxhZGRpbjpvcGVuIHNlc2FtZQ==",
        "abc",
        "Bearer\tabc",
        " Bearer abc",
        "Bearer abc\u{e9}",
        "Bearer abc\u{1}",
        "Bearer abc\u{7f}",
        "Be\u{e4}rer abc",
    ] {
        assert_eq!(bearer_token(Some(value)), Err(ServiceError::InvalidAuthToken), "{:?}", value);
    }
}

#[test]
fn authorize_reports_header_failures_before_looking_at_the_token() {
    let service = AuthServiceImpl::new("root@example.com".to_owned(), "x".to_owned(), "s".to_owned(), 60);
    assert_eq!(authorize(&service, None, 0).unwrap_err(), ServiceError::MissingAuthToken);
    assert_eq!(authorize(&service, Some("Token abc"), 0).unwrap_err(), ServiceError::InvalidAuthToken);
    assert_eq!(authorize(&service, Some("Bearer abc"), 0).unwrap_err(), ServiceError::InvalidAuthToken);
    assert_eq!(authorize(&service, Some("Bearer "), 0).unwrap_err(), ServiceError::InvalidAuthToken);
}

#[test]
fn route_table_matches_the_interface() {
    assert!(!Route::Login.is_protected());
    assert!(!Route::HealthCheck.is_protected());
    assert!(Route::Login.required_permissions().is_empty());
    assert!(Route::HealthCheck.required_permissions().is_empty());
    assert!(Route::Upload.is_protected());
    assert!(Route::Upload.required_permissions().is_empty());
    assert_eq!(Route::ListUsers.required_permissions(), vec![PermissionType::ReadUser]);
    assert_eq!(Route::GetUser.required_permissions(), vec![PermissionType::ReadUser]);
    assert_eq!(Route::CreateUser.required_permissions(), vec![PermissionType::CreateUser]);
    assert_eq!(Route::UpdateUser.required_permissions(), vec![PermissionType::UpdateUser]);
    assert_eq!(Route::UpdateUserPermissions.required_permissions(), vec![PermissionType::UpdateUser]);
    assert_eq!(Route::DeleteUser.required_permissions(), vec![PermissionType::DeleteUser]);
    for route in [Route::ListUsers, Route::GetUser, Route::CreateUser, Route::UpdateUser, Route::UpdateUserPermissions, Route::DeleteUser] {
        assert!(route.is_protected());
    }
}
