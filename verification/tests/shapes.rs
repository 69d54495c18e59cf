use auth_core::errors::{Error, ErrorResponse, ValidationResponse};
use auth_core::mails::create_verification_link;
use auth_core::response::Response;
use auth_core::store::UserStore;
use auth_core::users::{
    CreateUserDto, DeleteUser, FilterUserDto, ForgotPasswordRequestDto, LoginUserDto,
    NameUpdateDto, RegisterUserDto, ResetPasswordRequestDto, UserData, UserLoginResponseDto,
    UserPasswordUpdateDto, UserResponseDto, UserRole, VerifyEmailQueryDto,
};
use auth_core::Config;

fn register_dto(name: &str, email: &str, password: &str, confirm: &str) -> RegisterUserDto {
    RegisterUserDto {
        name: name.to_string(),
        email: email.to_string(),
        password: password.to_string(),
        password_confirm: confirm.to_string(),
    }
}

#[test]
fn register_shape_accepts_a_wellformed_request() {
    assert!(register_dto("Ann", "ann@x.test", "secret1", "secret1").validate().is_ok());
}

#[test]
fn register_shape_rejects_bad_fields() {
    let failed = Error::BadRequest("Validation failed".to_string());
    assert_eq!(register_dto("Al", "ann@x.test", "secret1", "secret1").validate(), Err(failed));
    let long_name = "x".repeat(51);
    assert!(register_dto(&long_name, "ann@x.test", "secret1", "secret1").validate().is_err());
    assert!(register_dto("Ann", "not-an-email", "secret1", "secret1").validate().is_err());
    assert!(register_dto("Ann", "", "secret1", "secret1").validate().is_err());
    assert!(register_dto("Ann", "ann@x.test", "short", "short").validate().is_err());
    assert!(register_dto("Ann", "ann@x.test", "secret1", "secret2").validate().is_err());
    assert!(register_dto("Ann", "ann@x.test", "secret1", "").validate().is_err());
}

#[test]
fn login_shape_checks_email_and_password() {
    let ok = LoginUserDto { email: "ann@x.test".to_string(), password: "secret1".to_string() };
    assert!(ok.validate().is_ok());
    let bad_email = LoginUserDto { email: "nope".to_string(), password: "secret1".to_string() };
    assert!(bad_email.validate().is_err());
    let short_pw = LoginUserDto { email: "ann@x.test".to_string(), password: "short".to_string() };
    assert!(short_pw.validate().is_err());
}

#[test]
fn forgot_shape_checks_the_email() {
    let ok = ForgotPasswordRequestDto { email: "ann@x.test".to_string() };
    assert!(ok.validate().is_ok());
    let bad = ForgotPasswordRequestDto { email: "".to_string() };
    assert!(bad.validate().is_err());
}

#[test]
fn reset_shape_checks_token_and_confirmation() {
    let ok = ResetPasswordRequestDto {
        token: "t".to_string(),
        new_password: "secret2".to_string(),
        new_password_confirm: "secret2".to_string(),
    };
    assert!(ok.validate().is_ok());
    let no_token = ResetPasswordRequestDto {
        token: "".to_string(),
        new_password: "secret2".to_string(),
        new_password_confirm: "secret2".to_string(),
    };
    assert!(no_token.validate().is_err());
    let mismatch = ResetPasswordRequestDto {
        token: "t".to_string(),
        new_password: "secret2".to_string(),
        new_password_confirm: "secret3".to_string(),
    };
    assert!(mismatch.validate().is_err());
}

#[test]
fn password_update_shape_checks_all_three_fields() {
    let ok = UserPasswordUpdateDto {
        new_password: "secret2".to_string(),
        new_password_confirm: "secret2".to_string(),
        old_password: "secret1".to_string(),
    };
    assert!(ok.validate().is_ok());
    let short_old = UserPasswordUpdateDto {
        new_password: "secret2".to_string(),
        new_password_confirm: "secret2".to_string(),
        old_password: "old".to_string(),
    };
    assert!(short_old.validate().is_err());
    let mismatch = UserPasswordUpdateDto {
        new_password: "secret2".to_string(),
        new_password_confirm: "secret9".to_string(),
        old_password: "secret1".to_string(),
    };
    assert!(mismatch.validate().is_err());
}

#[test]
fn name_update_and_verify_query_shapes_require_presence() {
    let ok = NameUpdateDto { name: "Anne".to_string(), password: "pw".to_string() };
    assert!(ok.validate().is_ok());
    let empty = NameUpdateDto { name: "".to_string(), password: "pw".to_string() };
    assert!(empty.validate().is_err());
    assert!(VerifyEmailQueryDto { token: "t".to_string() }.validate().is_ok());
    assert!(VerifyEmailQueryDto { token: "".to_string() }.validate().is_err());
}

#[test]
fn errors_map_to_their_status_codes_and_messages() {
    assert_eq!(Error::NotFound.status_code(), 404);
    assert_eq!(Error::NotFound.status_message(), "Resource not found");
    assert_eq!(Error::Unauthorized.status_code(), 401);
    assert_eq!(Error::Unauthorized.status_message(), "Unauthorized");
    assert_eq!(Error::InternalServerError.status_code(), 500);
    assert_eq!(Error::InternalServerError.status_message(), "Internal server error");
    let bad = Error::BadRequest("Token expired".to_string());
    assert_eq!(bad.status_code(), 400);
    assert_eq!(bad.status_message(), "Token expired");
    assert_eq!(Error::Forbidden.status_code(), 403);
    assert_eq!(Error::Forbidden.status_message(), "Forbidden");
}

#[test]
fn role_names_match_their_wire_form() {
    assert_eq!(UserRole::Admin.to_str(), "admin");
    assert_eq!(UserRole::User.to_str(), "user");
}

#[test]
fn filter_user_drops_the_secrets() {
    let mut store = UserStore::new();
    let user = store.create_user("Ann", "ann@x.test", "$hash$", "tok", 1234, 1000);
    let filtered = FilterUserDto::filter_user(&user);
    assert_eq!(filtered.id, user.id);
    assert_eq!(filtered.name, "Ann");
    assert_eq!(filtered.email, "ann@x.test");
    assert_eq!(filtered.role, "user");
    assert!(!filtered.verified);
    assert_eq!(filtered.created_at, 1000);
    assert_eq!(filtered.updated_at, 1000);
}

#[test]
fn filter_users_maps_every_record() {
    let mut store = UserStore::new();
    store.create_user("Ann", "ann@x.test", "$a$", "t1", 1, 1);
    store.create_user("Bob", "bob@x.test", "$b$", "t2", 2, 2);
    let filtered = FilterUserDto::filter_users(&store.users);
    assert_eq!(filtered.len(), 2);
    assert_eq!(filtered[0].name, "Ann");
    assert_eq!(filtered[1].name, "Bob");
}

#[test]
fn verification_link_carries_the_token_as_query() {
    assert_eq!(
        create_verification_link("https://front.example/confirm-auth/verify-email", "tok-123"),
        "https://front.example/confirm-auth/verify-email?token=tok-123"
    );
    assert_eq!(create_verification_link("", ""), "?token=");
}

#[test]
fn config_keeps_its_fields() {
    let c = Config::new("postgres://db".to_string(), "secret".to_string(), 60, 8080);
    assert_eq!(c.database_url, "postgres://db");
    assert_eq!(c.jwt_secret, "secret");
    assert_eq!(c.jwt_maxage, 60);
    assert_eq!(c.port, 8080);
}

#[test]
fn reply_shapes_hold_their_fields() {
    let r = Response { status: "success", message: "done".to_string() };
    assert_eq!(r.status, "success");
    let v = ValidationResponse {
        code: 400,
        message: "Validation failed".to_string(),
        errors: Some(vec![("name".to_string(), vec!["Name is required".to_string()])]),
    };
    assert_eq!(v.errors.as_ref().unwrap()[0].0, "name");
    let e = ErrorResponse { status: "fail".to_string(), message: "nope".to_string() };
    assert_eq!(e.message, "nope");
    let c = CreateUserDto {
        name: "Ann".to_string(),
        email: "ann@x.test".to_string(),
        password: "pw".to_string(),
    };
    assert_eq!(c.name, "Ann");
    let d = DeleteUser { user_id: "1".to_string(), password: "pw".to_string() };
    assert_eq!(d.user_id, "1");
    let l = UserLoginResponseDto { status: "success".to_string(), token: "t".to_string() };
    assert_eq!(l.token, "t");
}

#[test]
fn user_response_wraps_the_filtered_user() {
    let mut store = UserStore::new();
    let user = store.create_user("Ann", "ann@x.test", "$hash$", "tok", 1, 1);
    let body = UserResponseDto {
        status: "success".to_string(),
        data: UserData { user: FilterUserDto::filter_user(&user) },
    };
    assert_eq!(body.data.user.email, "ann@x.test");
}
