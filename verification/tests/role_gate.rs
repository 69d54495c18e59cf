use auth_core::errors::Error;
use auth_core::gate::{authenticate, extract_bearer, role_check, JWTAuthMiddeware};
use auth_core::service::AuthService;
use auth_core::store::UserStore;
use auth_core::users::UserRole;

const NOW: u64 = 1_700_000_000;
const SECRET: &str = "gate-test-secret";

fn identity_with_role(role: UserRole) -> JWTAuthMiddeware {
    let mut store = UserStore::new();
    let mut user = store.create_user("Ann", "ann@x.test", "$hash$", "t", NOW, NOW);
    user.role = role;
    JWTAuthMiddeware { user }
}

#[test]
fn user_role_is_forbidden_on_an_admin_route() {
    let identity = identity_with_role(UserRole::User);
    assert_eq!(role_check(&identity, &vec![UserRole::Admin]), Err(Error::Forbidden));
}

#[test]
fn admin_role_passes_an_admin_route() {
    let identity = identity_with_role(UserRole::Admin);
    assert_eq!(role_check(&identity, &vec![UserRole::Admin]), Ok(()));
}

#[test]
fn either_role_passes_a_route_open_to_both() {
    let both = vec![UserRole::Admin, UserRole::User];
    assert_eq!(role_check(&identity_with_role(UserRole::User), &both), Ok(()));
    assert_eq!(role_check(&identity_with_role(UserRole::Admin), &both), Ok(()));
}

#[test]
fn empty_role_set_forbids_everyone() {
    assert_eq!(role_check(&identity_with_role(UserRole::Admin), &vec![]), Err(Error::Forbidden));
}

#[test]
fn bearer_extraction_strips_the_marker() {
    assert_eq!(extract_bearer("Bearer abc.def.ghi"), Some("abc.def.ghi".to_string()));
    assert_eq!(extract_bearer("Bearer "), Some("".to_string()));
    assert_eq!(extract_bearer("bearer abc"), None);
    assert_eq!(extract_bearer("Basic abc"), None);
    assert_eq!(extract_bearer(""), None);
    assert_eq!(extract_bearer("Bearer"), None);
}

#[test]
fn authenticate_accepts_the_cookie_token() {
    let svc = AuthService::new(SECRET.to_string(), 60);
    let mut store = UserStore::new();
    let user = svc.register(&mut store, "Ann", "ann@x.test", "secret1", NOW).unwrap();
    let pending = user.verification_token.clone().unwrap();
    svc.verify_email(&mut store, &pending, NOW).unwrap();
    let session = svc.login(&store, "ann@x.test", "secret1", NOW).unwrap();

    let identity = authenticate(&store, SECRET, Some(session), None, NOW + 1).unwrap();
    assert_eq!(identity.user.id, user.id);
    assert_eq!(identity.user.email, "ann@x.test");
}

#[test]
fn authenticate_accepts_the_bearer_header() {
    let svc = AuthService::new(SECRET.to_string(), 60);
    let mut store = UserStore::new();
    let user = svc.register(&mut store, "Ann", "ann@x.test", "secret1", NOW).unwrap();
    let pending = user.verification_token.clone().unwrap();
    svc.verify_email(&mut store, &pending, NOW).unwrap();
    let session = svc.login(&store, "ann@x.test", "secret1", NOW).unwrap();

    let header = format!("Bearer {}", session);
    let identity = authenticate(&store, SECRET, None, Some(&header), NOW + 1).unwrap();
    assert_eq!(identity.user.id, user.id);
}

#[test]
fn authenticate_without_any_token_is_unauthorized() {
    let store = UserStore::new();
    assert!(matches!(
        authenticate(&store, SECRET, None, None, NOW),
        Err(Error::Unauthorized)
    ));
    assert!(matches!(
        authenticate(&store, SECRET, None, Some("Basic abc"), NOW),
        Err(Error::Unauthorized)
    ));
}

#[test]
fn authenticate_rejects_an_expired_session() {
    let svc = AuthService::new(SECRET.to_string(), 60);
    let mut store = UserStore::new();
    let user = svc.register(&mut store, "Ann", "ann@x.test", "secret1", NOW).unwrap();
    let pending = user.verification_token.clone().unwrap();
    svc.verify_email(&mut store, &pending, NOW).unwrap();
    let session = svc.login(&store, "ann@x.test", "secret1", NOW).unwrap();
    assert!(matches!(
        authenticate(&store, SECRET, Some(session), None, NOW + 3601),
        Err(Error::Unauthorized)
    ));
}

#[test]
fn authenticate_of_a_deleted_user_is_not_found() {
    let svc = AuthService::new(SECRET.to_string(), 60);
    let mut store = UserStore::new();
    let user = svc.register(&mut store, "Ann", "ann@x.test", "secret1", NOW).unwrap();
    let pending = user.verification_token.clone().unwrap();
    svc.verify_email(&mut store, &pending, NOW).unwrap();
    let session = svc.login(&store, "ann@x.test", "secret1", NOW).unwrap();
    store.delete_user(user.id);
    assert!(matches!(
        authenticate(&store, SECRET, Some(session), None, NOW + 1),
        Err(Error::NotFound)
    ));
}
