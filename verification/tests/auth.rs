use paas_auth::auth::{get_session_user, validate_auth, SessionState};
use paas_auth::config::{
    bitbucket_oauth_client, github_oauth_client, gitlab_oauth_client, OAuthProvider, ProviderEnv,
};
use paas_auth::error::AppError;
use paas_auth::handlers::{
    begin, bitbucket_auth, bitbucket_callback, callback, github_auth, github_callback,
    gitlab_auth, gitlab_callback, logout, CallbackResponse, OAuthCallback,
};
use paas_auth::oauth::{parse_token_response, HttpOutcome};
use paas_auth::models::UserStore;

fn base_env() -> ProviderEnv {
    ProviderEnv {
        auth_url: None,
        token_url: None,
        api_url: None,
        client_id: Some("test_client_id".to_string()),
        client_secret: Some("test_client_secret".to_string()),
        host: Some("127.0.0.1".to_string()),
        port: Some("3000".to_string()),
    }
}

fn mock_env(auth_path: &str, token_path: &str, api_path: &str) -> ProviderEnv {
    let base = "http://127.0.0.1:3000";
    let mut env = base_env();
    env.auth_url = Some(format!("{}{}", base, auth_path));
    env.token_url = Some(format!("{}{}", base, token_path));
    env.api_url = Some(format!("{}{}", base, api_path));
    env
}

fn ok_query(code: &str, state: &str) -> OAuthCallback {
    OAuthCallback {
        code: Some(code.to_string()),
        state: Some(state.to_string()),
        error: None,
        error_description: None,
    }
}

fn token_response(scope: &str) -> HttpOutcome {
    HttpOutcome::Response(
        200,
        format!(
            "{{\"access_token\": \"test_access_token\", \"token_type\": \"bearer\", \
             \"scope\": \"{}\"}}",
            scope
        ),
    )
}

#[test]
fn test_github_auth() {
    let cfg = github_oauth_client(&base_env()).unwrap();
    let (url, _state) = github_auth(&cfg);
    assert!(url.contains("github.com"));
}

#[test]
fn test_gitlab_auth() {
    let cfg = gitlab_oauth_client(&base_env()).unwrap();
    let (url, _state) = gitlab_auth(&cfg);
    assert!(url.contains("gitlab.com"));
}

#[test]
fn test_bitbucket_auth() {
    let cfg = bitbucket_oauth_client(&base_env()).unwrap();
    let (url, _state) = bitbucket_auth(&cfg);
    assert!(url.contains("bitbucket.org"));
}

#[test]
fn test_github_auth_flow() {
    let env = mock_env("/login/oauth/authorize", "/login/oauth/access_token", "/user");
    let cfg = github_oauth_client(&env).unwrap();

    let (auth_url, _state) = github_auth(&cfg);
    assert!(auth_url.contains("/login/oauth/authorize"));

    let mut store = UserStore::new();
    let mut session = SessionState::new();
    let exchange = token_response("user:email");
    let body = "{\"id\": 12345, \"login\": \"test_user\", \"email\": \"test@example.com\", \
                \"avatar_url\": \"https://example.com/avatar.jpg\"}";
    let fetch = HttpOutcome::Response(200, body.to_string());
    let resp = github_callback(
        &ok_query("test_code", "test_state"),
        &exchange,
        &fetch,
        &mut store,
        &mut session,
        "2024-01-01 00:00:00",
    )
    .unwrap();

    let user = match resp {
        CallbackResponse::Success(u) => u,
        CallbackResponse::Denied(m) => panic!("denied: {}", m),
    };
    assert_eq!(user.username, "test_user");
    assert_eq!(user.email, Some("test@example.com".to_string()));

    let row = store
        .users
        .iter()
        .find(|u| u.username == "test_user")
        .expect("user row was not created");
    assert_eq!(row.username, "test_user");
    assert_eq!(row.email, Some("test@example.com".to_string()));
}

#[test]
fn test_gitlab_auth_flow() {
    let env = mock_env("/oauth/authorize", "/oauth/token", "/api/v4/user");
    let cfg = gitlab_oauth_client(&env).unwrap();

    let (auth_url, _state) = gitlab_auth(&cfg);
    assert!(auth_url.contains("/oauth/authorize"));

    let mut store = UserStore::new();
    let mut session = SessionState::new();
    let exchange = token_response("read_user");
    let body = "{\"id\": 12345, \"username\": \"test_user\", \"email\": \"test@example.com\", \
                \"avatar_url\": \"https://example.com/avatar.jpg\"}";
    let fetch = HttpOutcome::Response(200, body.to_string());
    let resp = gitlab_callback(
        &ok_query("test_code", "test_state"),
        &exchange,
        &fetch,
        &mut store,
        &mut session,
        "2024-01-01 00:00:00",
    )
    .unwrap();

    let user = match resp {
        CallbackResponse::Success(u) => u,
        CallbackResponse::Denied(m) => panic!("denied: {}", m),
    };
    assert_eq!(user.username, "test_user");
    assert_eq!(user.email, Some("test@example.com".to_string()));

    let row = store
        .users
        .iter()
        .find(|u| u.username == "test_user")
        .expect("user row was not created");
    assert_eq!(row.username, "test_user");
    assert_eq!(row.email, Some("test@example.com".to_string()));
}

#[test]
fn test_bitbucket_auth_flow() {
    let env = mock_env("/site/oauth2/authorize", "/site/oauth2/access_token", "/2.0/user");
    let cfg = bitbucket_oauth_client(&env).unwrap();

    let (auth_url, _state) = bitbucket_auth(&cfg);
    assert!(auth_url.contains("/site/oauth2/authorize"));

    let mut store = UserStore::new();
    let mut session = SessionState::new();
    let exchange = token_response("account");
    let body = "{\"uuid\": \"12345\", \"username\": \"test_user\", \"email\": \
                \"test@example.com\", \"avatar_url\": \"https://example.com/avatar.jpg\"}";
    let fetch = HttpOutcome::Response(200, body.to_string());
    let resp = bitbucket_callback(
        &ok_query("test_code", "test_state"),
        &exchange,
        &fetch,
        &mut store,
        &mut session,
        "2024-01-01 00:00:00",
    )
    .unwrap();

    let user = match resp {
        CallbackResponse::Success(u) => u,
        CallbackResponse::Denied(m) => panic!("denied: {}", m),
    };
    assert_eq!(user.username, "test_user");
    assert_eq!(user.email, Some("test@example.com".to_string()));

    let row = store
        .users
        .iter()
        .find(|u| u.username == "test_user")
        .expect("user row was not created");
    assert_eq!(row.username, "test_user");
    assert_eq!(row.email, Some("test@example.com".to_string()));
}

#[test]
fn test_logout() {
    let mut session = SessionState::new();
    let r = logout(&mut session);
    assert!(r.is_ok());
}

fn denied_query() -> OAuthCallback {
    OAuthCallback {
        code: None,
        state: None,
        error: Some("access_denied".to_string()),
        error_description: Some("The user has denied access".to_string()),
    }
}

fn unused_outcomes() -> (HttpOutcome, HttpOutcome) {
    (
        HttpOutcome::Transport("never reached".to_string()),
        HttpOutcome::Transport("never reached".to_string()),
    )
}

#[test]
fn test_github_auth_denied() {
    let mut store = UserStore::new();
    let mut session = SessionState::new();
    let (exchange, fetch) = unused_outcomes();
    let resp =
        github_callback(&denied_query(), &exchange, &fetch, &mut store, &mut session, "now")
            .unwrap();
    match resp {
        CallbackResponse::Denied(m) => assert!(m.contains("denied")),
        CallbackResponse::Success(_) => panic!("denial must not log in"),
    }
}

#[test]
fn test_gitlab_auth_denied() {
    let mut store = UserStore::new();
    let mut session = SessionState::new();
    let (exchange, fetch) = unused_outcomes();
    let resp =
        gitlab_callback(&denied_query(), &exchange, &fetch, &mut store, &mut session, "now")
            .unwrap();
    match resp {
        CallbackResponse::Denied(m) => assert!(m.contains("denied")),
        CallbackResponse::Success(_) => panic!("denial must not log in"),
    }
}

#[test]
fn test_bitbucket_auth_denied() {
    let mut store = UserStore::new();
    let mut session = SessionState::new();
    let (exchange, fetch) = unused_outcomes();
    let resp =
        bitbucket_callback(&denied_query(), &exchange, &fetch, &mut store, &mut session, "now")
            .unwrap();
    match resp {
        CallbackResponse::Denied(m) => assert!(m.contains("denied")),
        CallbackResponse::Success(_) => panic!("denial must not log in"),
    }
}

#[test]
fn repeat_login_yields_one_row_and_same_id() {
    let cfg = github_oauth_client(&base_env()).unwrap();
    let mut store = UserStore::new();
    let mut session = SessionState::new();
    let body = "{\"id\": 777, \"login\": \"carol\"}";
    let mut ids = Vec::new();
    for _ in 0..2 {
        let resp = callback(
            &cfg.provider,
            &ok_query("abc", "st"),
            &token_response("user:email"),
            &HttpOutcome::Response(200, body.to_string()),
            &mut store,
            &mut session,
            "2024-01-01 00:00:00",
        )
        .unwrap();
        match resp {
            CallbackResponse::Success(u) => ids.push(u.id),
            CallbackResponse::Denied(m) => panic!("denied: {}", m),
        }
    }
    assert_eq!(ids[0], ids[1]);
    let rows: Vec<_> = store.users.iter().filter(|u| u.provider_user_id == "777").collect();
    assert_eq!(rows.len(), 1);
}

#[test]
fn racing_first_logins_converge() {
    // Two near-simultaneous first logins for one identity: with the store's
    // insert path atomic, the race is an interleaving of two find-or-create
    // calls. Whichever order they land in, both succeed, both see the same
    // local id, and one row exists.
    let mut store = UserStore::new();
    let first = paas_auth::models::User::find_or_create(
        &mut store,
        &OAuthProvider::GitLab,
        "42",
        "eve",
        None,
        None,
        "t0",
    )
    .unwrap();
    let second = paas_auth::models::User::find_or_create(
        &mut store,
        &OAuthProvider::GitLab,
        "42",
        "eve-racer",
        Some("late@x.com"),
        None,
        "t1",
    )
    .unwrap();
    assert_eq!(first.id, second.id);
    assert_eq!(second.username, "eve");
    assert_eq!(second.email, None);
    let rows: Vec<_> = store
        .users
        .iter()
        .filter(|u| u.provider == "gitlab" && u.provider_user_id == "42")
        .collect();
    assert_eq!(rows.len(), 1);
}

#[test]
fn begin_url_has_provider_host_and_scope() {
    for (cfg, host) in [
        (github_oauth_client(&base_env()).unwrap(), "https://github.com/login/oauth/authorize"),
        (gitlab_oauth_client(&base_env()).unwrap(), "https://gitlab.com/oauth/authorize"),
        (
            bitbucket_oauth_client(&base_env()).unwrap(),
            "https://bitbucket.org/site/oauth2/authorize",
        ),
    ] {
        let (url, state) = begin(&cfg);
        assert!(url.starts_with(host));
        assert_eq!(state.len(), 22);
        let scope_value = url
            .split("&scope=")
            .nth(1)
            .expect("no scope parameter")
            .split('&')
            .next()
            .unwrap();
        assert!(!scope_value.is_empty());
        assert!(url.contains(&format!("&state={}", state)));
    }
}

#[test]
fn begin_separates_with_ampersand_when_url_has_query() {
    let mut env = base_env();
    env.auth_url = Some("https://github.com/login/oauth/authorize?tenant=1".to_string());
    let cfg = github_oauth_client(&env).unwrap();
    let (url, _state) = begin(&cfg);
    assert!(
        url.starts_with("https://github.com/login/oauth/authorize?tenant=1&response_type=code")
    );
}

#[test]
fn begin_percent_encodes_query_values() {
    let mut env = base_env();
    env.client_id = Some("a b:c".to_string());
    let cfg = github_oauth_client(&env).unwrap();
    let (url, _state) = begin(&cfg);
    assert!(url.contains("client_id=a%20b%3Ac"));
    assert!(
        url.contains("redirect_uri=http%3A%2F%2F127.0.0.1%3A3000%2Fapi%2Fauth%2Fgithub%2Fcallback")
    );
    assert!(url.contains("scope=read%3Auser%20user%3Aemail%20repo"));
}

#[test]
fn state_tokens_differ_between_calls() {
    let cfg = github_oauth_client(&base_env()).unwrap();
    let (_u1, s1) = begin(&cfg);
    let (_u2, s2) = begin(&cfg);
    assert_ne!(s1, s2);
}

#[test]
fn denied_callback_ignores_other_parameters() {
    // Even with a code present and both outside calls ready to succeed, an
    // error parameter wins: no row, no session.
    let mut store = UserStore::new();
    let mut session = SessionState::new();
    let q = OAuthCallback {
        code: Some("abc".to_string()),
        state: Some("st".to_string()),
        error: Some("access_denied".to_string()),
        error_description: None,
    };
    let resp = callback(
        &OAuthProvider::GitHub,
        &q,
        &token_response("user:email"),
        &HttpOutcome::Response(200, "{\"id\": 1, \"login\": \"a\"}".to_string()),
        &mut store,
        &mut session,
        "now",
    )
    .unwrap();
    match resp {
        CallbackResponse::Denied(m) => assert_eq!(m, "OAuth consent was denied"),
        CallbackResponse::Success(_) => panic!("denial must not log in"),
    }
    assert!(store.users.is_empty());
    assert!(session.user_id.is_none());
}

#[test]
fn rejected_code_is_auth_error_and_no_session() {
    let mut store = UserStore::new();
    let mut session = SessionState::new();
    let err = callback(
        &OAuthProvider::GitHub,
        &ok_query("bad_code", "st"),
        &HttpOutcome::Response(401, "{\"error\": \"bad_verification_code\"}".to_string()),
        &HttpOutcome::Transport("never reached".to_string()),
        &mut store,
        &mut session,
        "now",
    )
    .unwrap_err();
    match &err {
        AppError::AuthError(m) => assert_eq!(m, "Failed to exchange code: status 401"),
        other => panic!("expected AuthError, got {:?}", other),
    }
    assert_eq!(err.status_code(), 401);
    assert!(store.users.is_empty());
    assert!(session.user_id.is_none());
}

#[test]
fn exchange_failures_by_kind() {
    // Transport failure.
    match parse_token_response(&HttpOutcome::Transport("connection refused".to_string())) {
        Err(AppError::AuthError(m)) => {
            assert_eq!(m, "Failed to exchange code: connection refused")
        }
        other => panic!("expected AuthError, got {:?}", other),
    }
    // 2xx but no access_token field.
    match parse_token_response(&HttpOutcome::Response(200, "{\"ok\": true}".to_string())) {
        Err(AppError::AuthError(m)) => {
            assert_eq!(m, "Failed to exchange code: malformed token response")
        }
        other => panic!("expected AuthError, got {:?}", other),
    }
    // A good answer.
    let t = parse_token_response(&token_response("repo")).unwrap();
    assert_eq!(t.access_token, "test_access_token");
    assert_eq!(t.token_type, "bearer");
    assert_eq!(t.scope, Some("repo".to_string()));
    assert_eq!(t.refresh_token, None);
    // A refresh token is carried through when the endpoint grants one.
    let with_refresh = HttpOutcome::Response(
        200,
        "{\"access_token\": \"A\", \"refresh_token\": \"R\"}".to_string(),
    );
    let t = parse_token_response(&with_refresh).unwrap();
    assert_eq!(t.access_token, "A");
    assert_eq!(t.refresh_token, Some("R".to_string()));
    assert_eq!(t.token_type, "");
    assert_eq!(t.scope, None);
}

#[test]
fn missing_code_is_validation_error() {
    let mut store = UserStore::new();
    let mut session = SessionState::new();
    let q = OAuthCallback { code: None, state: None, error: None, error_description: None };
    let (exchange, fetch) = unused_outcomes();
    let err =
        callback(&OAuthProvider::GitLab, &q, &exchange, &fetch, &mut store, &mut session, "now")
            .unwrap_err();
    match &err {
        AppError::ValidationError(m) => assert_eq!(m, "Missing authorization code"),
        other => panic!("expected ValidationError, got {:?}", other),
    }
}

#[test]
fn failed_profile_fetch_leaves_no_session() {
    let mut store = UserStore::new();
    let mut session = SessionState::new();
    // Non-2xx profile answer.
    let err = callback(
        &OAuthProvider::GitHub,
        &ok_query("abc", "st"),
        &token_response("user:email"),
        &HttpOutcome::Response(500, "oops".to_string()),
        &mut store,
        &mut session,
        "now",
    )
    .unwrap_err();
    assert!(matches!(err, AppError::ExternalServiceError(_)));
    assert_eq!(err.status_code(), 502);
    // Transport failure on the profile fetch.
    let err = callback(
        &OAuthProvider::GitHub,
        &ok_query("abc", "st"),
        &token_response("user:email"),
        &HttpOutcome::Transport("timed out".to_string()),
        &mut store,
        &mut session,
        "now",
    )
    .unwrap_err();
    assert!(matches!(err, AppError::ExternalServiceError(_)));
    assert!(store.users.is_empty());
    assert!(session.user_id.is_none());
}

#[test]
fn logout_then_protected_read_fails_and_is_idempotent() {
    let mut store = UserStore::new();
    let mut session = SessionState::new();
    let body = "{\"id\": 5, \"login\": \"dora\"}";
    callback(
        &OAuthProvider::GitHub,
        &ok_query("abc", "st"),
        &token_response("user:email"),
        &HttpOutcome::Response(200, body.to_string()),
        &mut store,
        &mut session,
        "now",
    )
    .unwrap();
    assert!(validate_auth(&session).is_ok());

    logout(&mut session).unwrap();
    match validate_auth(&session).unwrap_err() {
        AppError::AuthError(m) => assert_eq!(m, "Unauthorized"),
        other => panic!("expected AuthError, got {:?}", other),
    }
    assert!(get_session_user(&session).unwrap().is_none());

    logout(&mut session).unwrap();
    assert!(validate_auth(&session).is_err());
}

#[test]
fn github_scenario_creates_row_and_session() {
    let mut store = UserStore::new();
    let mut session = SessionState::new();
    let resp = callback(
        &OAuthProvider::GitHub,
        &ok_query("abc", "st"),
        &HttpOutcome::Response(
            200,
            "{\"access_token\": \"T\", \"token_type\": \"bearer\"}".to_string(),
        ),
        &HttpOutcome::Response(
            200,
            "{\"id\": 12345, \"login\": \"alice\", \"email\": \"a@x.com\"}".to_string(),
        ),
        &mut store,
        &mut session,
        "2024-01-01 00:00:00",
    )
    .unwrap();
    let user = match resp {
        CallbackResponse::Success(u) => u,
        CallbackResponse::Denied(m) => panic!("denied: {}", m),
    };
    assert_eq!(user.provider, "github");
    assert_eq!(user.provider_user_id, "12345");
    assert_eq!(user.username, "alice");
    assert_eq!(user.email, Some("a@x.com".to_string()));
    assert_eq!(user.avatar_url, None);
    assert_eq!(session.user_id, Some(user.id));
    assert_eq!(session.username, Some("alice".to_string()));
    assert_eq!(session.provider, Some("github".to_string()));
    assert_eq!(session.access_token, Some("T".to_string()));
}

#[test]
fn bitbucket_scenario_extracts_uuid_and_nested_avatar() {
    let mut store = UserStore::new();
    let mut session = SessionState::new();
    let body = "{\"uuid\": \"{7f0-11}\", \"username\": \"bob\", \
                \"links\": {\"avatar\": {\"href\": \"https://bb.example/av.png\"}}}";
    let resp = callback(
        &OAuthProvider::Bitbucket,
        &ok_query("abc", "st"),
        &token_response("account"),
        &HttpOutcome::Response(200, body.to_string()),
        &mut store,
        &mut session,
        "now",
    )
    .unwrap();
    let user = match resp {
        CallbackResponse::Success(u) => u,
        CallbackResponse::Denied(m) => panic!("denied: {}", m),
    };
    assert_eq!(user.provider, "bitbucket");
    assert_eq!(user.provider_user_id, "{7f0-11}");
    assert_eq!(user.username, "bob");
    assert_eq!(user.avatar_url, Some("https://bb.example/av.png".to_string()));
}
