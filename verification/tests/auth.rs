use moltis::auth::{
    auth_mode, authentication_plan, password_login, restore_session_user_id, restored_session,
    session_user_from_parse, AuthMode, AuthPlan, ChannelError,
};
use moltis::config::MatrixAccountConfig;

const REDACTED: &str = "[REDACTED]";

fn config() -> MatrixAccountConfig {
    MatrixAccountConfig { homeserver: "https://matrix.example.com".into(), ..Default::default() }
}

fn invalid_input<T>(res: Result<T, ChannelError>) -> String {
    match res {
        Err(ChannelError::InvalidInput(text)) => text,
        Err(other) => panic!("expected invalid input, got {other:?}"),
        Ok(_) => panic!("expected an error"),
    }
}

#[test]
fn access_token_auth_is_preferred_when_both_credentials_exist() {
    let cfg = MatrixAccountConfig {
        access_token: "syt_test".into(),
        password: Some("wordpass".into()),
        user_id: Some("@bot:example.com".into()),
        ..config()
    };

    assert!(matches!(auth_mode(&cfg, REDACTED), Ok(AuthMode::AccessToken)));
}

#[test]
fn password_auth_is_used_when_token_is_missing() {
    let cfg = MatrixAccountConfig {
        password: Some("wordpass".into()),
        user_id: Some("@bot:example.com".into()),
        ..config()
    };

    assert!(matches!(auth_mode(&cfg, REDACTED), Ok(AuthMode::Password)));
}

#[test]
fn password_auth_requires_user_id() {
    let cfg = MatrixAccountConfig { password: Some("wordpass".into()), ..config() };

    let error = match auth_mode(&cfg, REDACTED) {
        Ok(mode) => panic!("password auth without user_id should fail, got {mode:?}"),
        Err(error) => invalid_input::<()>(Err(error)),
    };
    assert!(error.contains("user_id is required"));
    assert_eq!(error, "user_id is required when using password authentication");
}

#[test]
fn authentication_requires_token_or_password() {
    let error = match auth_mode(&config(), REDACTED) {
        Ok(mode) => panic!("missing auth should fail, got {mode:?}"),
        Err(error) => invalid_input::<()>(Err(error)),
    };
    assert!(error.contains("either access_token or password is required"));
}

#[test]
fn restore_session_user_id_uses_configured_value_when_present() {
    let user_id = restore_session_user_id(Some("@moltis:example.com"))
        .unwrap_or_else(|error| panic!("configured user_id should parse: {error:?}"));

    assert_eq!(user_id.as_str(), "@moltis:example.com");
}

#[test]
fn restore_session_user_id_falls_back_to_placeholder_when_missing() {
    let user_id = restore_session_user_id(None)
        .unwrap_or_else(|error| panic!("placeholder user_id should parse: {error:?}"));

    assert_eq!(user_id.as_str(), "@moltis:invalid");
}

#[test]
fn redacted_secrets_are_not_credentials() {
    let cfg = MatrixAccountConfig {
        access_token: format!("  {REDACTED}\n"),
        password: Some("wordpass".into()),
        user_id: Some("@bot:example.com".into()),
        ..config()
    };
    assert!(matches!(auth_mode(&cfg, REDACTED), Ok(AuthMode::Password)));
    let cfg = MatrixAccountConfig { password: Some(REDACTED.into()), ..cfg };
    assert_eq!(
        invalid_input(auth_mode(&cfg, REDACTED)),
        "either access_token or password is required"
    );
    let cfg = MatrixAccountConfig {
        access_token: " \t".into(),
        password: Some("   ".into()),
        user_id: Some("@bot:example.com".into()),
        ..config()
    };
    assert_eq!(
        invalid_input(auth_mode(&cfg, REDACTED)),
        "either access_token or password is required"
    );
}

#[test]
fn an_empty_user_id_does_not_name_a_user() {
    let cfg = MatrixAccountConfig {
        password: Some("wordpass".into()),
        user_id: Some(String::new()),
        ..config()
    };
    assert_eq!(
        invalid_input(auth_mode(&cfg, REDACTED)),
        "user_id is required when using password authentication"
    );
    assert_eq!(
        invalid_input(password_login(&cfg)),
        "user_id is required when using password authentication"
    );
}

#[test]
fn malformed_user_ids_are_refused_with_the_reason() {
    assert_eq!(
        invalid_input(restore_session_user_id(Some("bot:example.com"))),
        "invalid user_id: leading sigil is incorrect or missing"
    );
    assert_eq!(
        invalid_input(restore_session_user_id(Some("@bot"))),
        "invalid user_id: required colon is missing"
    );
    assert_eq!(
        invalid_input(restore_session_user_id(Some("@bot:"))),
        "invalid user_id: server name is not a valid IP address or domain name"
    );
    assert!(restore_session_user_id(Some("")).is_err());
}

#[test]
fn plain_user_ids_are_accepted() {
    for id in ["@a:b", "@:host", "@Big.Name-1_x:sub.example-1.org", "@moltis:invalid"] {
        assert_eq!(restore_session_user_id(Some(id)).unwrap(), id);
    }
}

#[test]
fn a_failed_placeholder_is_an_outside_fault() {
    assert_eq!(session_user_from_parse(true, Ok("@a:b".into())).unwrap(), "@a:b");
    assert_eq!(
        invalid_input(session_user_from_parse(true, Err("no colon".into()))),
        "invalid user_id: no colon"
    );
    match session_user_from_parse(false, Err("no colon".into())) {
        Err(ChannelError::External { context, message }) => {
            assert_eq!(context, "matrix session placeholder user_id");
            assert_eq!(message, "no colon");
        },
        _ => panic!("expected an outside fault"),
    }
}

#[test]
fn sessions_carry_the_token_as_configured() {
    let cfg = MatrixAccountConfig { access_token: " syt_test ".into(), ..config() };
    let session = restored_session(&cfg, "my-bot").unwrap_or_else(|error| panic!("{error:?}"));
    assert_eq!(session.user_id, "@moltis:invalid");
    assert_eq!(session.device_id, "moltis_my-bot");
    assert_eq!(session.access_token, " syt_test ");

    let cfg = MatrixAccountConfig {
        device_id: Some("MOLTISBOT".into()),
        user_id: Some("@bot:example.com".into()),
        ..cfg
    };
    let session = restored_session(&cfg, "my-bot").unwrap_or_else(|error| panic!("{error:?}"));
    assert_eq!(session.user_id, "@bot:example.com");
    assert_eq!(session.device_id, "MOLTISBOT");

    let cfg = MatrixAccountConfig { user_id: Some("nobody".into()), ..cfg };
    assert!(restored_session(&cfg, "my-bot").is_err());
}

#[test]
fn logins_leave_out_what_is_not_configured() {
    let cfg = MatrixAccountConfig {
        password: Some("wordpass".into()),
        user_id: Some("@bot:example.com".into()),
        device_id: Some(String::new()),
        device_display_name: Some("Moltis Matrix Bot".into()),
        ..config()
    };
    let login = password_login(&cfg).unwrap_or_else(|error| panic!("{error:?}"));
    assert_eq!(login.user_id, "@bot:example.com");
    assert_eq!(login.password, "wordpass");
    assert_eq!(login.device_id, None);
    assert_eq!(login.device_display_name.as_deref(), Some("Moltis Matrix Bot"));

    let cfg = MatrixAccountConfig { password: None, ..cfg };
    assert_eq!(invalid_input(password_login(&cfg)), "password is required");
}

#[test]
fn plans_follow_the_mode() {
    let cfg = MatrixAccountConfig {
        access_token: "syt_test".into(),
        password: Some("wordpass".into()),
        user_id: Some("@bot:example.com".into()),
        ..config()
    };
    match authentication_plan(&cfg, "my-bot", REDACTED) {
        Ok(AuthPlan::Restore(session)) => assert_eq!(session.access_token, "syt_test"),
        _ => panic!("expected a session"),
    }
    let cfg = MatrixAccountConfig { access_token: String::new(), ..cfg };
    match authentication_plan(&cfg, "my-bot", REDACTED) {
        Ok(AuthPlan::Login(login)) => assert_eq!(login.password, "wordpass"),
        _ => panic!("expected a login"),
    }
    assert!(authentication_plan(&config(), "my-bot", REDACTED).is_err());
}
