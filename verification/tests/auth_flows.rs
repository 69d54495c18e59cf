use auth_core::errors::Error;
use auth_core::service::{AuthService, UserService};
use auth_core::store::UserStore;
use auth_core::tokens::RESET_TOKEN_TTL_SECS;
use auth_core::users::{NameUpdateDto, UserPasswordUpdateDto};

const NOW: u64 = 1_700_000_000;
const SECRET: &str = "flow-test-secret";

fn service() -> AuthService {
    AuthService::new(SECRET.to_string(), 60)
}

#[test]
fn register_verify_login_scenario() {
    let svc = service();
    let mut store = UserStore::new();

    let user = svc.register(&mut store, "Ann", "ann@x.test", "secret1", NOW).unwrap();
    assert!(!user.verified);
    assert_eq!(user.name, "Ann");
    assert_eq!(user.email, "ann@x.test");
    let pending = user.verification_token.clone().unwrap();
    assert_eq!(user.token_expires_at, Some(NOW + 86400));

    let early = svc.login(&store, "ann@x.test", "secret1", NOW);
    assert_eq!(early.unwrap_err(), Error::BadRequest("Check your e-email!".to_string()));

    let session = svc.verify_email(&mut store, &pending, NOW + 5).unwrap();
    let verified = store.get_user(None, None, Some("ann@x.test"), None).unwrap();
    assert!(verified.verified);
    assert_eq!(verified.verification_token, None);

    let users = UserService::new(SECRET.to_string());
    assert_eq!(users.decode_token(&session, NOW + 6), Ok(user.id));

    let login_token = svc.login(&store, "ann@x.test", "secret1", NOW + 10).unwrap();
    assert_eq!(users.decode_token(&login_token, NOW + 10), Ok(user.id));
}

#[test]
fn forgot_then_reset_scenario() {
    let svc = service();
    let mut store = UserStore::new();
    let user = svc.register(&mut store, "Ann", "ann@x.test", "secret1", NOW).unwrap();
    let pending = user.verification_token.clone().unwrap();
    svc.verify_email(&mut store, &pending, NOW).unwrap();

    let reset = svc.forgot_password(&mut store, "ann@x.test", NOW + 100).unwrap();
    let holder = store.get_user(None, None, None, Some(&reset)).unwrap();
    assert_eq!(holder.id, user.id);
    assert_eq!(holder.token_expires_at, Some(NOW + 100 + RESET_TOKEN_TTL_SECS));

    svc.reset_password(&mut store, &reset, "newsecret", NOW + 200).unwrap();

    assert!(svc.login(&store, "ann@x.test", "newsecret", NOW + 300).is_ok());
    assert_eq!(
        svc.login(&store, "ann@x.test", "secret1", NOW + 300).unwrap_err(),
        Error::BadRequest("Invalid password!".to_string())
    );
}

#[test]
fn duplicate_registration_is_refused_and_first_account_kept() {
    let svc = service();
    let mut store = UserStore::new();
    svc.register(&mut store, "Ann", "ann@x.test", "secret1", NOW).unwrap();
    let second = svc.register(&mut store, "Impostor", "ann@x.test", "other", NOW + 1);
    assert_eq!(second.unwrap_err(), Error::BadRequest("Unavailable.".to_string()));
    assert_eq!(store.users.len(), 1);
    let kept = store.get_user(None, None, Some("ann@x.test"), None).unwrap();
    assert_eq!(kept.name, "Ann");
}

#[test]
fn login_with_unknown_email_is_refused() {
    let svc = service();
    let store = UserStore::new();
    assert_eq!(
        svc.login(&store, "ghost@x.test", "secret1", NOW).unwrap_err(),
        Error::BadRequest("User not found, create an account!".to_string())
    );
}

#[test]
fn verify_email_with_unknown_token_is_refused() {
    let svc = service();
    let mut store = UserStore::new();
    assert_eq!(
        svc.verify_email(&mut store, "no-such-token", NOW).unwrap_err(),
        Error::BadRequest("Invalid data".to_string())
    );
}

#[test]
fn verify_email_with_expired_token_is_refused() {
    let svc = service();
    let mut store = UserStore::new();
    let user = svc.register(&mut store, "Ann", "ann@x.test", "secret1", NOW).unwrap();
    let pending = user.verification_token.clone().unwrap();
    let r = svc.verify_email(&mut store, &pending, NOW + 86401);
    assert_eq!(r.unwrap_err(), Error::BadRequest("Token expired".to_string()));
    let untouched = store.get_user(Some(user.id), None, None, None).unwrap();
    assert!(!untouched.verified);
    assert_eq!(untouched.verification_token.as_deref(), Some(pending.as_str()));
}

#[test]
fn forgot_password_with_unknown_email_leaks_existence() {
    let svc = service();
    let mut store = UserStore::new();
    assert_eq!(
        svc.forgot_password(&mut store, "ghost@x.test", NOW).unwrap_err(),
        Error::BadRequest("E-mail invalido!".to_string())
    );
}

#[test]
fn reset_with_unknown_token_is_unauthorized() {
    let svc = service();
    let mut store = UserStore::new();
    assert_eq!(
        svc.reset_password(&mut store, "no-such-token", "x", NOW).unwrap_err(),
        Error::Unauthorized
    );
}

#[test]
fn reset_with_expired_token_is_refused_and_password_kept() {
    let svc = service();
    let mut store = UserStore::new();
    let user = svc.register(&mut store, "Ann", "ann@x.test", "secret1", NOW).unwrap();
    let pending = user.verification_token.clone().unwrap();
    svc.verify_email(&mut store, &pending, NOW).unwrap();
    let reset = svc.forgot_password(&mut store, "ann@x.test", NOW).unwrap();
    let r = svc.reset_password(&mut store, &reset, "newsecret", NOW + RESET_TOKEN_TTL_SECS + 1);
    assert_eq!(r.unwrap_err(), Error::BadRequest("Token expired".to_string()));
    assert!(svc.login(&store, "ann@x.test", "secret1", NOW).is_ok());
}

#[test]
fn reset_token_is_single_use() {
    let svc = service();
    let mut store = UserStore::new();
    let user = svc.register(&mut store, "Ann", "ann@x.test", "secret1", NOW).unwrap();
    let pending = user.verification_token.clone().unwrap();
    svc.verify_email(&mut store, &pending, NOW).unwrap();
    let reset = svc.forgot_password(&mut store, "ann@x.test", NOW).unwrap();
    svc.reset_password(&mut store, &reset, "newsecret", NOW + 1).unwrap();
    assert_eq!(
        svc.reset_password(&mut store, &reset, "thirdsecret", NOW + 2).unwrap_err(),
        Error::Unauthorized
    );
    assert!(svc.login(&store, "ann@x.test", "newsecret", NOW + 3).is_ok());
}

#[test]
fn update_username_requires_the_password() {
    let svc = service();
    let users = UserService::new(SECRET.to_string());
    let mut store = UserStore::new();
    let user = svc.register(&mut store, "Ann", "ann@x.test", "secret1", NOW).unwrap();

    let wrong = NameUpdateDto { name: "Anne".to_string(), password: "bogus".to_string() };
    assert_eq!(
        users.update_username(&mut store, &user, &wrong, NOW + 1).unwrap_err(),
        Error::BadRequest("Invalid password!".to_string())
    );
    assert_eq!(store.get_user(Some(user.id), None, None, None).unwrap().name, "Ann");

    let right = NameUpdateDto { name: "Anne".to_string(), password: "secret1".to_string() };
    users.update_username(&mut store, &user, &right, NOW + 2).unwrap();
    let renamed = store.get_user(Some(user.id), None, None, None).unwrap();
    assert_eq!(renamed.name, "Anne");
    assert_eq!(renamed.updated_at, NOW + 2);
}

#[test]
fn update_user_password_requires_the_old_password() {
    let svc = service();
    let users = UserService::new(SECRET.to_string());
    let mut store = UserStore::new();
    let user = svc.register(&mut store, "Ann", "ann@x.test", "secret1", NOW).unwrap();
    let pending = user.verification_token.clone().unwrap();
    svc.verify_email(&mut store, &pending, NOW).unwrap();

    let wrong = UserPasswordUpdateDto {
        new_password: "secret2".to_string(),
        new_password_confirm: "secret2".to_string(),
        old_password: "bogus".to_string(),
    };
    assert_eq!(
        users.update_user_password(&mut store, &user, &wrong, NOW + 1).unwrap_err(),
        Error::BadRequest("Invalid password!".to_string())
    );

    let right = UserPasswordUpdateDto {
        new_password: "secret2".to_string(),
        new_password_confirm: "secret2".to_string(),
        old_password: "secret1".to_string(),
    };
    users.update_user_password(&mut store, &user, &right, NOW + 2).unwrap();
    assert!(svc.login(&store, "ann@x.test", "secret2", NOW + 3).is_ok());
    assert_eq!(
        svc.login(&store, "ann@x.test", "secret1", NOW + 3).unwrap_err(),
        Error::BadRequest("Invalid password!".to_string())
    );
}

#[test]
fn delete_user_removes_the_account() {
    let svc = service();
    let users = UserService::new(SECRET.to_string());
    let mut store = UserStore::new();
    let user = svc.register(&mut store, "Ann", "ann@x.test", "secret1", NOW).unwrap();
    users.delete_user(&mut store, user.id).unwrap();
    assert!(matches!(
        users.get_user(&store, Some(user.id), None, None, None),
        Err(Error::NotFound)
    ));
    assert_eq!(store.users.len(), 0);
}

#[test]
fn get_user_selects_by_the_first_criterion() {
    let svc = service();
    let users = UserService::new(SECRET.to_string());
    let mut store = UserStore::new();
    let ann = svc.register(&mut store, "Ann", "ann@x.test", "secret1", NOW).unwrap();
    let bob = svc.register(&mut store, "Bob", "bob@x.test", "secret2", NOW).unwrap();

    assert_eq!(users.get_user(&store, Some(bob.id), None, None, None).unwrap().name, "Bob");
    assert_eq!(users.get_user(&store, None, Some("Ann"), None, None).unwrap().id, ann.id);
    assert_eq!(users.get_user(&store, None, None, Some("bob@x.test"), None).unwrap().id, bob.id);
    let ann_token = ann.verification_token.clone().unwrap();
    assert_eq!(users.get_user(&store, None, None, None, Some(&ann_token)).unwrap().id, ann.id);
    assert!(matches!(
        users.get_user(&store, None, None, None, None),
        Err(Error::NotFound)
    ));
}
