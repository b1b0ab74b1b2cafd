use chrono::Utc;
use temp_backend::flow::{start_register, AuthEvent, AuthState};
use temp_backend::handlers::{
    bearer_token, found_profile, get_profile, login, login_user, perform, profile_at, register,
    register_user, update_profile, write_profile_at, AppState, BEARER_PREFIX_LEN, STATUS_CREATED,
};
use temp_backend::hasher::CredentialHasher;
use temp_backend::error::{AuthError, ValidationIssue};
use temp_backend::models::{LoginRequest, RegisterRequest, UpdateProfileRequest, User};

fn create_test_app_state() -> AppState {
    AppState::with_hasher("test-secret-key", CredentialHasher::with_cost(4).unwrap())
}

fn reg(email: &str, password: &str) -> RegisterRequest {
    RegisterRequest { email: email.to_string(), password: password.to_string() }
}

fn log(email: &str, password: &str) -> LoginRequest {
    LoginRequest { email: email.to_string(), password: password.to_string() }
}

#[test]
fn test_register_success() {
    let mut app_state = create_test_app_state();

    let request = RegisterRequest {
        email: "test@example.com".to_string(),
        password: "password123".to_string(),
    };

    let result = register(&mut app_state, request);

    assert!(result.is_ok());
    let (status, response) = result.unwrap();
    assert_eq!(status, 201);
    assert_eq!(response.email, "test@example.com");
    assert!(!response.token.is_empty());
    assert!(!response.user_id.is_empty());
}

#[test]
fn test_register_empty_email() {
    let mut app_state = create_test_app_state();

    let request = RegisterRequest { email: "".to_string(), password: "password123".to_string() };

    let result = register(&mut app_state, request);

    assert!(result.is_err());
    let (status, response) = result.unwrap_err();
    assert_eq!(status, 400);
    assert_eq!(response.error, "validation_error");
    assert_eq!(response.message, "Email and password are required");
}

#[test]
fn test_register_empty_password() {
    let mut app_state = create_test_app_state();

    let request = RegisterRequest { email: "test@example.com".to_string(), password: "".to_string() };

    let result = register(&mut app_state, request);

    assert!(result.is_err());
    let (status, response) = result.unwrap_err();
    assert_eq!(status, 400);
    assert_eq!(response.error, "validation_error");
    assert_eq!(response.message, "Email and password are required");
}

#[test]
fn test_register_short_password() {
    let mut app_state = create_test_app_state();

    let request =
        RegisterRequest { email: "test@example.com".to_string(), password: "123".to_string() };

    let result = register(&mut app_state, request);

    assert!(result.is_err());
    let (status, response) = result.unwrap_err();
    assert_eq!(status, 400);
    assert_eq!(response.error, "validation_error");
    assert_eq!(response.message, "Password must be at least 6 characters long");
}

#[test]
fn test_register_duplicate_email() {
    let mut app_state = create_test_app_state();

    let request1 = RegisterRequest {
        email: "test@example.com".to_string(),
        password: "password123".to_string(),
    };
    let _ = register(&mut app_state, request1).unwrap();

    let request2 = RegisterRequest {
        email: "test@example.com".to_string(),
        password: "password456".to_string(),
    };
    let result = register(&mut app_state, request2);

    assert!(result.is_err());
    let (status, response) = result.unwrap_err();
    assert_eq!(status, 409);
    assert_eq!(response.error, "email_exists");
    assert_eq!(response.message, "Email already exists");
}

#[test]
fn test_login_success() {
    let mut app_state = create_test_app_state();

    let register_request = RegisterRequest {
        email: "test@example.com".to_string(),
        password: "password123".to_string(),
    };
    let _ = register(&mut app_state, register_request).unwrap();

    let login_request =
        LoginRequest { email: "test@example.com".to_string(), password: "password123".to_string() };
    let result = login(&app_state, login_request);

    assert!(result.is_ok());
    let response = result.unwrap();
    assert_eq!(response.email, "test@example.com");
    assert!(!response.token.is_empty());
    assert!(!response.user_id.is_empty());
}

#[test]
fn test_login_empty_email() {
    let app_state = create_test_app_state();

    let request = LoginRequest { email: "".to_string(), password: "password123".to_string() };

    let result = login(&app_state, request);

    assert!(result.is_err());
    let (status, response) = result.unwrap_err();
    assert_eq!(status, 400);
    assert_eq!(response.error, "validation_error");
    assert_eq!(response.message, "Email and password are required");
}

#[test]
fn test_login_empty_password() {
    let app_state = create_test_app_state();

    let request = LoginRequest { email: "test@example.com".to_string(), password: "".to_string() };

    let result = login(&app_state, request);

    assert!(result.is_err());
    let (status, response) = result.unwrap_err();
    assert_eq!(status, 400);
    assert_eq!(response.error, "validation_error");
    assert_eq!(response.message, "Email and password are required");
}

#[test]
fn test_login_user_not_found() {
    let app_state = create_test_app_state();

    let request = LoginRequest {
        email: "nonexistent@example.com".to_string(),
        password: "password123".to_string(),
    };

    let result = login(&app_state, request);

    assert!(result.is_err());
    let (status, response) = result.unwrap_err();
    assert_eq!(status, 401);
    assert_eq!(response.error, "invalid_credentials");
    assert_eq!(response.message, "Invalid email or password");
}

#[test]
fn test_login_wrong_password() {
    let mut app_state = create_test_app_state();

    let register_request = RegisterRequest {
        email: "test@example.com".to_string(),
        password: "password123".to_string(),
    };
    let _ = register(&mut app_state, register_request).unwrap();

    let login_request = LoginRequest {
        email: "test@example.com".to_string(),
        password: "wrongpassword".to_string(),
    };
    let result = login(&app_state, login_request);

    assert!(result.is_err());
    let (status, response) = result.unwrap_err();
    assert_eq!(status, 401);
    assert_eq!(response.error, "invalid_credentials");
    assert_eq!(response.message, "Invalid email or password");
}

#[test]
fn test_jwt_token_validation() {
    let mut app_state = create_test_app_state();

    let register_request = RegisterRequest {
        email: "test@example.com".to_string(),
        password: "password123".to_string(),
    };
    let (_, register_response) = register(&mut app_state, register_request).unwrap();

    let claims = app_state.jwt_service.verify_token(&register_response.token);
    assert!(claims.is_ok());

    let claims = claims.unwrap();
    assert_eq!(claims.email, "test@example.com");
    assert_eq!(claims.sub, register_response.user_id);
}

#[test]
fn test_password_hashing() {
    let mut app_state = create_test_app_state();

    let register_request = RegisterRequest {
        email: "test@example.com".to_string(),
        password: "password123".to_string(),
    };
    let (_, _register_response) = register(&mut app_state, register_request).unwrap();

    let user = app_state.user_repo.find_by_email("test@example.com").unwrap();
    assert_ne!(user.password_hash, "password123");
    assert!(user.password_hash.starts_with("$2b$"));
}

#[test]
fn test_register_login_flow() {
    let mut app_state = create_test_app_state();

    let register_request = RegisterRequest {
        email: "user@example.com".to_string(),
        password: "mypassword123".to_string(),
    };
    let (register_status, register_response) = register(&mut app_state, register_request).unwrap();

    assert_eq!(register_status, 201);
    assert_eq!(register_response.email, "user@example.com");

    let login_request = LoginRequest {
        email: "user@example.com".to_string(),
        password: "mypassword123".to_string(),
    };
    let login_response = login(&app_state, login_request).unwrap();

    assert_eq!(login_response.email, "user@example.com");
    assert_eq!(login_response.user_id, register_response.user_id);
    assert_ne!(login_response.token, register_response.token);
}

#[test]
fn status_constants() {
    assert_eq!(STATUS_CREATED, 201);
}

#[test]
fn register_with_the_default_work_factor() {
    let mut state = AppState::new("another-secret");
    let (status, response) = register(&mut state, reg("d@x.com", "secret1")).unwrap();
    assert_eq!(status, 201);
    let user = state.user_repo.find_by_email("d@x.com").unwrap();
    assert!(user.password_hash.starts_with("$2b$12$"));
    assert_eq!(user.id, response.user_id);
    let again = login(&state, log("d@x.com", "secret1")).unwrap();
    assert_eq!(again.user_id, response.user_id);
}

#[test]
fn register_then_login_then_wrong_password_then_register_again() {
    let mut state = create_test_app_state();

    let (status, first) = register(&mut state, reg("a@x.com", "secret1")).unwrap();
    assert_eq!(status, 201);
    assert_eq!(first.email, "a@x.com");

    let second = login(&state, log("a@x.com", "secret1")).unwrap();
    assert_ne!(second.token, first.token);
    assert_eq!(second.user_id, first.user_id);

    let (status, body) = login(&state, log("a@x.com", "wrong")).unwrap_err();
    assert_eq!(status, 401);
    assert_eq!(body.error, "invalid_credentials");

    let (status, body) = register(&mut state, reg("a@x.com", "secret2")).unwrap_err();
    assert_eq!(status, 409);
    assert_eq!(body.error, "email_exists");

    assert_eq!(state.user_repo.len(), 1);
    assert!(login(&state, log("a@x.com", "secret2")).is_err());
    assert!(login(&state, log("a@x.com", "secret1")).is_ok());
}

#[test]
fn registered_account_is_stored_with_a_matching_hash() {
    let mut state = create_test_app_state();
    let before = Utc::now().timestamp();
    let resp = register_user(&mut state, reg("a@x.com", "secret1")).unwrap();
    let after = Utc::now().timestamp();
    assert_eq!(state.user_repo.len(), 1);
    let user = state.user_repo.find_by_id(&resp.user_id).unwrap();
    assert_eq!(user.email, "a@x.com");
    assert_eq!(user.id, resp.user_id);
    assert_eq!(state.hasher.verify("secret1", &user.password_hash), Ok(true));
    assert_eq!(state.hasher.verify("secret2", &user.password_hash), Ok(false));
    assert_eq!(user.membership_level, "Bronze");
    assert_eq!(user.points, 0);
    assert_eq!(user.created_at, user.updated_at);
    assert!(before <= user.created_at && user.created_at <= after);
    let claims = state.jwt_service.verify_token(&resp.token).unwrap();
    assert_eq!(claims.sub, user.id);
    assert_eq!(claims.email, "a@x.com");
    assert_eq!(claims.exp, claims.iat + 86_400);
    assert!(before as usize <= claims.iat && claims.iat <= after as usize);
}

#[test]
fn failed_registrations_leave_the_store_as_it_was() {
    let mut state = create_test_app_state();
    register_user(&mut state, reg("a@x.com", "secret1")).unwrap();
    assert_eq!(
        register_user(&mut state, reg("", "secret1")).unwrap_err(),
        AuthError::ValidationError(ValidationIssue::MissingCredentials)
    );
    assert_eq!(
        register_user(&mut state, reg("b@x.com", "12345")).unwrap_err(),
        AuthError::ValidationError(ValidationIssue::PasswordTooShort)
    );
    assert_eq!(
        register_user(&mut state, reg("a@x.com", "12345")).unwrap_err(),
        AuthError::ValidationError(ValidationIssue::PasswordTooShort)
    );
    assert_eq!(
        register_user(&mut state, reg("a@x.com", "secret2")).unwrap_err(),
        AuthError::EmailExists
    );
    assert_eq!(state.user_repo.len(), 1);
    assert!(state.user_repo.find_by_email("b@x.com").is_none());
}

#[test]
fn two_accounts_log_in_independently() {
    let mut state = create_test_app_state();
    let a = register_user(&mut state, reg("a@x.com", "secret-a")).unwrap();
    let b = register_user(&mut state, reg("b@x.com", "secret-b")).unwrap();
    assert_ne!(a.user_id, b.user_id);
    assert_ne!(a.token, b.token);
    assert_eq!(login_user(&state, log("a@x.com", "secret-a")).unwrap().user_id, a.user_id);
    assert_eq!(login_user(&state, log("b@x.com", "secret-b")).unwrap().user_id, b.user_id);
    assert_eq!(
        login_user(&state, log("a@x.com", "secret-b")).unwrap_err(),
        AuthError::InvalidCredentials
    );
    assert_eq!(
        login_user(&state, log("c@x.com", "secret-a")).unwrap_err(),
        AuthError::InvalidCredentials
    );
}

#[test]
fn login_failures_are_indistinguishable() {
    let mut state = create_test_app_state();
    register(&mut state, reg("a@x.com", "secret1")).unwrap();
    let unknown = login(&state, log("nobody@x.com", "secret1")).unwrap_err();
    let wrong = login(&state, log("a@x.com", "secret9")).unwrap_err();
    assert_eq!(unknown.0, wrong.0);
    assert_eq!(unknown.1.error, wrong.1.error);
    assert_eq!(unknown.1.message, wrong.1.message);
}

#[test]
fn login_against_a_stored_hash_that_is_malformed() {
    let mut state = create_test_app_state();
    state.user_repo.insert("id-1", "a@x.com", "not-a-hash", 5).unwrap();
    let (status, body) = login(&state, log("a@x.com", "secret1")).unwrap_err();
    assert_eq!(status, 500);
    assert_eq!(body.error, "verification_error");
    assert_eq!(body.message, "Failed to verify password");
}

#[test]
fn login_does_not_check_password_length() {
    let mut state = create_test_app_state();
    let hash = state.hasher.hash("abc").unwrap();
    state.user_repo.insert("id-1", "a@x.com", &hash, 5).unwrap();
    let resp = login(&state, log("a@x.com", "abc")).unwrap();
    assert_eq!(resp.user_id, "id-1");
    assert_eq!(resp.email, "a@x.com");
}

#[test]
fn token_of_another_service_is_not_accepted() {
    let mut one = AppState::with_hasher("secret1", CredentialHasher::with_cost(4).unwrap());
    let two = AppState::with_hasher("secret2", CredentialHasher::with_cost(4).unwrap());
    let (_, resp) = register(&mut one, reg("a@x.com", "secret1")).unwrap();
    assert!(one.jwt_service.verify_token(&resp.token).is_ok());
    assert_eq!(two.jwt_service.verify_token(&resp.token).unwrap_err(), AuthError::InvalidToken);
}

#[test]
fn perform_answers_each_state() {
    let mut state = create_test_app_state();
    let s = start_register(reg("a@x.com", "secret1"));
    assert!(matches!(perform(&mut state, &s), AuthEvent::Missing));

    let s = AuthState::RegisterHash { email: "a@x.com".into(), password: "secret1".into() };
    let hash = match perform(&mut state, &s) {
        AuthEvent::Hashed(h) => h,
        _ => panic!("no hash"),
    };
    assert_eq!(state.hasher.verify("secret1", &hash), Ok(true));

    let s = AuthState::RegisterCreate { email: "a@x.com".into(), password_hash: hash.clone() };
    let user = match perform(&mut state, &s) {
        AuthEvent::Created(u) => u,
        _ => panic!("not created"),
    };
    assert_eq!(user.email, "a@x.com");
    assert_eq!(user.password_hash, hash);
    assert_eq!(state.user_repo.len(), 1);
    assert!(matches!(perform(&mut state, &s), AuthEvent::Duplicate));
    assert_eq!(state.user_repo.len(), 1);

    let s = AuthState::LoginLookup { email: "a@x.com".into(), password: "secret1".into() };
    assert!(matches!(perform(&mut state, &s), AuthEvent::Found(u) if u.id == user.id));
    let s = AuthState::RegisterLookup { email: "a@x.com".into(), password: "secret1".into() };
    assert!(matches!(perform(&mut state, &s), AuthEvent::Found(u) if u.id == user.id));

    let verify = |password: &str| AuthState::LoginVerify {
        user_id: user.id.clone(),
        email: user.email.clone(),
        password: password.to_string(),
        password_hash: hash.clone(),
    };
    assert!(matches!(perform(&mut state, &verify("secret1")), AuthEvent::Checked(true)));
    assert!(matches!(perform(&mut state, &verify("secret2")), AuthEvent::Checked(false)));
    let broken = AuthState::LoginVerify {
        user_id: user.id.clone(),
        email: user.email.clone(),
        password: "secret1".into(),
        password_hash: "broken".into(),
    };
    assert!(matches!(perform(&mut state, &broken), AuthEvent::Failed));

    let s = AuthState::IssueToken { user_id: user.id.clone(), email: user.email.clone() };
    let token = match perform(&mut state, &s) {
        AuthEvent::Issued(t) => t,
        _ => panic!("no token"),
    };
    let claims = state.jwt_service.verify_token(&token).unwrap();
    assert_eq!(claims.sub, user.id);
    assert_eq!(claims.email, "a@x.com");

    let s = AuthState::Finished(Err(AuthError::EmailExists));
    assert!(matches!(perform(&mut state, &s), AuthEvent::Failed));
    assert_eq!(state.user_repo.len(), 1);
}

#[test]
fn profile_is_read_with_a_valid_token() {
    let mut state = create_test_app_state();
    let (_, resp) = register(&mut state, reg("a@x.com", "secret1")).unwrap();
    let profile = get_profile(&state, &resp.token).unwrap();
    assert_eq!(profile.id, resp.user_id);
    assert_eq!(profile.email, "a@x.com");
    assert_eq!(profile.first_name, None);
    assert_eq!(profile.last_name, None);
    assert_eq!(profile.phone, None);
    assert_eq!(profile.membership_id, None);
    assert_eq!(profile.membership_level, "Bronze");
    assert_eq!(profile.points, 0);
    let user = state.user_repo.find_by_id(&resp.user_id).unwrap();
    assert_eq!(profile.created_at, user.created_at);
}

#[test]
fn profile_needs_a_valid_token() {
    let mut state = create_test_app_state();
    register(&mut state, reg("a@x.com", "secret1")).unwrap();
    let (status, body) = get_profile(&state, "invalid.token.here").unwrap_err();
    assert_eq!(status, 401);
    assert_eq!(body.error, "invalid_token");
    assert_eq!(body.message, "Invalid or expired token");

    let none = UpdateProfileRequest { first_name: Some("X".into()), last_name: None, phone: None };
    let (status, body) = update_profile(&mut state, "", &none).unwrap_err();
    assert_eq!(status, 401);
    assert_eq!(body.error, "invalid_token");
    assert_eq!(state.user_repo.find_by_email("a@x.com").unwrap().first_name, None);
}

#[test]
fn profile_at_follows_the_token_window() {
    let mut state = create_test_app_state();
    let user = state.user_repo.insert("id-1", "a@x.com", "h", 1_000).unwrap();
    let token = state.jwt_service.create_token_at(&user.id, &user.email, 1_000).unwrap();
    assert_eq!(profile_at(&state, &token, 1_000).unwrap().id, "id-1");
    assert_eq!(profile_at(&state, &token, 87_399).unwrap().email, "a@x.com");
    assert_eq!(profile_at(&state, &token, 87_400).unwrap_err(), AuthError::InvalidToken);
    assert_eq!(profile_at(&state, &token, 1_000_000).unwrap_err(), AuthError::InvalidToken);
}

#[test]
fn profile_of_an_account_that_is_not_there() {
    let state = create_test_app_state();
    let token = state.jwt_service.create_token_at("ghost", "g@x.com", 1_000).unwrap();
    assert_eq!(profile_at(&state, &token, 1_001).unwrap_err(), AuthError::NotFound);
    let now_token = state.jwt_service.create_token("ghost", "g@x.com").unwrap();
    let (status, body) = get_profile(&state, &now_token).unwrap_err();
    assert_eq!(status, 404);
    assert_eq!(body.error, "not_found");
    assert_eq!(body.message, "User not found");
}

#[test]
fn profile_update_writes_provided_fields() {
    let mut state = create_test_app_state();
    state.user_repo.insert("id-1", "a@x.com", "h", 1_000).unwrap();
    state.user_repo.insert("id-2", "b@x.com", "h", 1_000).unwrap();
    let token = state.jwt_service.create_token_at("id-1", "a@x.com", 2_000).unwrap();

    let fields =
        UpdateProfileRequest { first_name: Some("Ada".into()), last_name: None, phone: None };
    let p = write_profile_at(&mut state, &token, &fields, 3_000).unwrap();
    assert_eq!(p.id, "id-1");
    assert_eq!(p.first_name.as_deref(), Some("Ada"));
    assert_eq!(p.last_name, None);
    assert_eq!(p.created_at, 1_000);
    let user = state.user_repo.find_by_id("id-1").unwrap();
    assert_eq!(user.updated_at, 3_000);
    assert_eq!(user.first_name.as_deref(), Some("Ada"));
    assert_eq!(user.password_hash, "h");
    assert_eq!(state.user_repo.find_by_id("id-2").unwrap().updated_at, 1_000);

    let fields =
        UpdateProfileRequest { first_name: None, last_name: Some("L".into()), phone: Some("5".into()) };
    let p = write_profile_at(&mut state, &token, &fields, 4_000).unwrap();
    assert_eq!(p.first_name.as_deref(), Some("Ada"));
    assert_eq!(p.last_name.as_deref(), Some("L"));
    assert_eq!(p.phone.as_deref(), Some("5"));

    assert_eq!(
        write_profile_at(&mut state, &token, &fields, 2_000 + 86_400).unwrap_err(),
        AuthError::InvalidToken
    );
    assert_eq!(state.user_repo.find_by_id("id-1").unwrap().updated_at, 4_000);

    let ghost = state.jwt_service.create_token_at("ghost", "g@x.com", 2_000).unwrap();
    assert_eq!(
        write_profile_at(&mut state, &ghost, &fields, 2_001).unwrap_err(),
        AuthError::NotFound
    );
}

#[test]
fn profile_update_through_the_handler() {
    let mut state = create_test_app_state();
    let (_, resp) = register(&mut state, reg("a@x.com", "secret1")).unwrap();
    let fields = UpdateProfileRequest {
        first_name: Some("Ada".into()),
        last_name: Some("Lovelace".into()),
        phone: None,
    };
    let before = Utc::now().timestamp();
    let p = update_profile(&mut state, &resp.token, &fields).unwrap();
    let after = Utc::now().timestamp();
    assert_eq!(p.id, resp.user_id);
    assert_eq!(p.first_name.as_deref(), Some("Ada"));
    assert_eq!(p.last_name.as_deref(), Some("Lovelace"));
    assert_eq!(p.phone, None);
    let user = state.user_repo.find_by_id(&resp.user_id).unwrap();
    assert!(before <= user.updated_at && user.updated_at <= after);
    assert!(user.created_at <= user.updated_at);
    let read = get_profile(&state, &resp.token).unwrap();
    assert_eq!(read.first_name.as_deref(), Some("Ada"));
    assert_eq!(read.last_name.as_deref(), Some("Lovelace"));
}

#[test]
fn bearer_token_is_what_follows_the_prefix() {
    assert_eq!(BEARER_PREFIX_LEN, 7);
    assert_eq!(bearer_token("Bearer abc.def.ghi").as_deref(), Some("abc.def.ghi"));
    assert_eq!(bearer_token("Bearer x").as_deref(), Some("x"));
    assert_eq!(bearer_token("Bearer ").as_deref(), Some(""));
    assert_eq!(bearer_token("Bearer  two spaces").as_deref(), Some(" two spaces"));
    assert_eq!(bearer_token("Bearer t\u{f6}ken \u{1f512}").as_deref(), Some("t\u{f6}ken \u{1f512}"));
}

#[test]
fn other_headers_hold_no_bearer_token() {
    for header in [
        "",
        "B",
        "Bearer",
        "bearer abc",
        "BEARER abc",
        "Basic abc",
        "Bearer\tabc",
        " Bearer abc",
        "Bearerabc",
        "abc",
        "\u{1f512}\u{1f512}\u{1f512}\u{1f512}\u{1f512}\u{1f512}\u{1f512}\u{1f512}",
    ] {
        assert_eq!(bearer_token(header), None);
    }
}

#[test]
fn bearer_token_feeds_the_profile_handler() {
    let mut state = create_test_app_state();
    let (_, resp) = register(&mut state, reg("a@x.com", "secret1")).unwrap();
    let header = format!("Bearer {}", resp.token);
    let token = bearer_token(&header).unwrap();
    assert_eq!(token, resp.token);
    assert_eq!(get_profile(&state, &token).unwrap().id, resp.user_id);
}

#[test]
fn found_profile_maps_both_cases() {
    assert_eq!(found_profile(None).unwrap_err(), AuthError::NotFound);
    let user = User::new("id-1".into(), "a@x.com".into(), "hash".into(), 77);
    let p = found_profile(Some(user)).unwrap();
    assert_eq!(p.id, "id-1");
    assert_eq!(p.email, "a@x.com");
    assert_eq!(p.membership_level, "Bronze");
    assert_eq!(p.points, 0);
    assert_eq!(p.created_at, 77);
}

#[test]
fn every_login_gets_a_token_of_its_own() {
    let mut state = create_test_app_state();
    let (_, first) = register(&mut state, reg("a@x.com", "secret1")).unwrap();
    let mut seen = vec![first.token];
    for _ in 0..5 {
        let r = login(&state, log("a@x.com", "secret1")).unwrap();
        assert_eq!(r.user_id, first.user_id);
        assert!(!seen.contains(&r.token));
        assert!(state.jwt_service.verify_token(&r.token).is_ok());
        seen.push(r.token);
    }
}

#[test]
fn registration_on_a_new_store_is_not_refused() {
    for email in ["a@x.com", "b@x.com", "c@x.com"] {
        let mut state = create_test_app_state();
        let (status, r) = register(&mut state, reg(email, "secret1")).unwrap();
        assert_eq!(status, 201);
        assert_eq!(r.email, email);
        assert_eq!(r.user_id.len(), 36);
        assert_eq!(state.user_repo.len(), 1);
    }
}

#[test]
fn stored_credential_is_a_hash_string_and_not_the_password() {
    let mut state = create_test_app_state();
    let (_, r) = register(&mut state, reg("test@example.com", "password123")).unwrap();
    let user = state.user_repo.find_by_email("test@example.com").unwrap();
    assert_eq!(user.id, r.user_id);
    assert_ne!(user.password_hash, "password123");
    assert_eq!(user.password_hash.len(), 60);
    assert!(user.password_hash.starts_with("$2b$04$"));
    assert_eq!(state.hasher.verify("password123", &user.password_hash), Ok(true));
    assert_ne!(r.token, user.password_hash);
    assert_ne!(r.user_id, user.password_hash);
    assert_ne!(r.email, user.password_hash);
}
