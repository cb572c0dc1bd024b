//! Where a login leads.

use gdlk::auth::{redirect_destination, AuthState, LoginQuery, RedirectQuery};
use gdlk::models::{PermissionType, RoleType};

#[test]
fn test_auth_state_carries_next() {
    let query = RedirectQuery {
        next: Some("/puzzles/3".to_string()),
    };
    assert_eq!(query.auth_state().next, Some("/puzzles/3"));
    let query = RedirectQuery { next: None };
    assert_eq!(query.auth_state().next, None);
}

#[test]
fn test_redirect_destination() {
    assert_eq!(
        redirect_destination(&Some(AuthState {
            next: Some("/profile")
        })),
        "/profile"
    );
    assert_eq!(redirect_destination(&Some(AuthState { next: None })), "/");
    assert_eq!(redirect_destination(&None), "/");
}

#[test]
fn test_login_query_holds_code_and_state() {
    let query = LoginQuery {
        code: "abc".to_string(),
        state: None,
    };
    assert_eq!(query.code, "abc");
    assert!(query.state.is_none());
}

#[test]
fn test_roles_and_permissions_compare() {
    assert_eq!(RoleType::Admin, RoleType::Admin);
    assert_ne!(RoleType::Admin, RoleType::SpecCreator);
    assert_ne!(PermissionType::CreateSpecs, PermissionType::DeleteAllSpecs);
    assert_eq!(PermissionType::ModifyAllSpecs, PermissionType::ModifyAllSpecs);
}
