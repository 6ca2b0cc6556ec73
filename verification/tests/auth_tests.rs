use knbackup::config::{KidsnoteConfigProfile, KnBackupConfig};
use knbackup::errors::{AuthError, AuthErrorCode};
use knbackup::http::HttpFailure;
use knbackup::login::{plan_login, LoginArgs, LoginCommand, LoginPlan};
use knbackup::options::{KidsnoteOptions, OAuthTokenResponse};
use knbackup::KidsnoteSdk;

fn token() -> OAuthTokenResponse {
    OAuthTokenResponse {
        token_type: "Bearer".to_string(),
        access_token: "AT".to_string(),
        scope: "read write".to_string(),
        expires_in: 3600,
        refresh_token: "RT".to_string(),
    }
}

#[test]
fn login_body_is_form_encoded() {
    let sdk = KidsnoteSdk::new(KidsnoteOptions::new(Some("CID".to_string())));
    let req = sdk.login_request("user@example.com", "p w");
    assert_eq!(req.url, "https://kapi.kidsnote.com/o/token/");
    assert_eq!(req.authorization, "Basic CID");
    assert_eq!(req.content_type, "application/x-www-form-urlencoded");
    assert_eq!(
        req.body,
        Some(
            "grant_type=password&username=user%40example.com&password=p+w&scope=read+write"
                .to_string()
        )
    );
}

#[test]
fn refresh_body_is_form_encoded() {
    let sdk = KidsnoteSdk::new(KidsnoteOptions::new(Some("CID".to_string())));
    let req = sdk.refresh_token_request("RT/1");
    assert_eq!(req.body, Some("grant_type=refresh_token&refresh_token=RT%2F1&scope=read+write".to_string()));
}

#[test]
fn successful_token_outcome_installs_session() {
    let mut sdk = KidsnoteSdk::new(KidsnoteOptions::new(None));
    let out = sdk.apply_token_outcome(Ok(token())).unwrap();
    assert_eq!(out.access_token, "AT");
    assert!(sdk.is_refresh_token());
    let req = sdk.myinfo_request().unwrap();
    assert_eq!(req.url, "https://kapi.kidsnote.com/v1/me/info/");
    assert_eq!(req.authorization, "Bearer AT");
}

#[test]
fn failed_token_outcome_clears_session() {
    let mut sdk = KidsnoteSdk::new(KidsnoteOptions::new(None));
    sdk.apply_token_outcome(Ok(token())).unwrap();
    let err = sdk
        .apply_token_outcome(Err(HttpFailure::BadStatus(401)))
        .unwrap_err();
    match err {
        AuthError::GeneralErrorStr(m) => assert_eq!(m, "status error. status=401"),
        _ => panic!("expected GeneralErrorStr"),
    }
    assert!(!sdk.is_refresh_token());
    match sdk.myinfo_request() {
        Err(AuthError::ErrorWithCode(AuthErrorCode::Unauthorized)) => {},
        _ => panic!("expected Unauthorized"),
    }
}

#[test]
fn unauthenticated_requests_are_refused() {
    let sdk = KidsnoteSdk::new(KidsnoteOptions::new(None));
    assert!(matches!(sdk.myinfo_request(),
        Err(AuthError::ErrorWithCode(AuthErrorCode::Unauthorized))));
    assert!(matches!(sdk.reports_request(42, None),
        Err(AuthError::ErrorWithCode(AuthErrorCode::Unauthorized))));
}

#[test]
fn reports_request_url_carries_the_query() {
    let mut sdk = KidsnoteSdk::new(KidsnoteOptions::new(None));
    sdk.apply_token_outcome(Ok(token())).unwrap();
    let param = knbackup::child::GetReportsParam::new_with_date_filter(
        &Some("2023-01-01".to_string()),
        &None,
    );
    let req = sdk.reports_request(42, Some(&param)).unwrap();
    assert_eq!(
        req.url,
        "https://kapi.kidsnote.com/v1_2/children/42/reports/?page_size=10&date_start=2023-01-01&date_end=2023-01-01&tz=Asia%2FSeoul"
    );
    assert_eq!(req.authorization, "Bearer AT");
}

#[test]
fn login_precedence_prefers_refresh_token() {
    let plan = plan_login(
        &Some("RT".to_string()),
        &Some("u".to_string()),
        &Some("p".to_string()),
    );
    assert!(matches!(plan, LoginPlan::UseRefreshToken(t) if t == "RT"));
}

#[test]
fn login_precedence_falls_back_to_password() {
    let plan = plan_login(&None, &Some("u".to_string()), &Some("p".to_string()));
    assert!(matches!(plan, LoginPlan::UsePassword(u, p) if u == "u" && p == "p"));
}

#[test]
fn login_without_credentials_is_invalid() {
    assert!(matches!(plan_login(&None, &Some("u".to_string()), &None), LoginPlan::InvalidArgs));
    assert!(matches!(plan_login(&None, &None, &None), LoginPlan::InvalidArgs));
}

#[test]
fn login_command_merges_stored_profile() {
    let args = LoginArgs {
        client_id: None,
        user_id: None,
        user_pass: None,
        refresh_token: None,
        config_path: "~/.knbackup/config.toml".to_string(),
    };
    let mut config = KnBackupConfig::new_empty();
    config.set_default("stored-user".to_string(), "stored-rt".to_string());
    let cmd = LoginCommand::new(args, config);
    assert_eq!(cmd.args.user_id, Some("stored-user".to_string()));
    assert_eq!(cmd.args.refresh_token, Some("stored-rt".to_string()));
    assert!(cmd.kidsnote_sdk.is_refresh_token());
    assert!(matches!(cmd.login_plan(), LoginPlan::UseRefreshToken(t) if t == "stored-rt"));
}

#[test]
fn explicit_arguments_beat_stored_profile() {
    let args = LoginArgs {
        client_id: None,
        user_id: Some("arg-user".to_string()),
        user_pass: None,
        refresh_token: Some("arg-rt".to_string()),
        config_path: "c".to_string(),
    };
    let mut config = KnBackupConfig::new_empty();
    config.set_default("stored-user".to_string(), "stored-rt".to_string());
    let cmd = LoginCommand::new(args, config);
    assert_eq!(cmd.args.user_id, Some("arg-user".to_string()));
    assert_eq!(cmd.args.refresh_token, Some("arg-rt".to_string()));
}

#[test]
fn profile_update_fills_only_missing_fields() {
    let profile = KidsnoteConfigProfile {
        user_id: Some("stored-user".to_string()),
        refresh_token: Some("stored-rt".to_string()),
    };
    let mut args = knbackup::download::DownloadArgs::new();
    args.refresh_token = Some("mine".to_string());
    args.update_profile(&profile);
    assert_eq!(args.refresh_token, Some("mine".to_string()));
    assert_eq!(args.user_id, Some("stored-user".to_string()));
}

#[test]
fn error_codes_round_trip() {
    assert_eq!(AuthErrorCode::from_u16(404), AuthErrorCode::NotFound);
    assert_eq!(AuthErrorCode::from_u16(401), AuthErrorCode::Unauthorized);
    assert_eq!(AuthErrorCode::from_u16(12345), AuthErrorCode::UnknownError);
    assert_eq!(AuthErrorCode::NotFound.as_u16(), 404);
    assert_eq!(AuthErrorCode::ServerError.as_u16(), 0xfffe);
    assert_eq!(AuthErrorCode::NotFound.desc(), "Not Found");
    assert_eq!(AuthErrorCode::NoError.desc(), "OK");
}

#[test]
fn error_messages_match_display_convention() {
    let e = AuthError::ErrorWithCode(AuthErrorCode::Unauthorized);
    assert_eq!(e.message(), "ErrorCode: Unauthorized");
    let e = AuthError::GeneralError("invalid args");
    assert_eq!(e.message(), "Error: invalid args");
    let e = AuthError::GeneralErrorStr("parse error. bad json".to_string());
    assert_eq!(e.message(), "Error: parse error. bad json");
    let e = AuthError::ErrorWithCodeStr(AuthErrorCode::NotFound, "child");
    assert_eq!(e.message(), "ErrorCode: Not Found / child");
    let e = AuthError::ErrorWithCodeString(AuthErrorCode::ServerError, "retry later".to_string());
    assert_eq!(e.message(), "ErrorCode: Server Processing Error Occured / retry later");
}

#[test]
fn every_error_code_has_a_description() {
    assert_eq!(AuthErrorCode::Nothingtodo.desc(), "Nothing to do");
    assert_eq!(AuthErrorCode::Unauthorized.desc(), "Unauthorized");
    assert_eq!(AuthErrorCode::ServerError.desc(), "Server Processing Error Occured");
    assert_eq!(AuthErrorCode::UnknownError.desc(), "Unknown Error Occured");
    assert_eq!(AuthErrorCode::from_u16(0), AuthErrorCode::NoError);
    assert_eq!(AuthErrorCode::from_u16(1), AuthErrorCode::Nothingtodo);
    assert_eq!(AuthErrorCode::from_u16(0xfffe), AuthErrorCode::ServerError);
    assert_eq!(AuthErrorCode::from_u16(0xffff), AuthErrorCode::UnknownError);
}

#[test]
fn session_getters_reflect_configuration() {
    let mut options = KidsnoteOptions::new(Some("CID".to_string()));
    options.set_host("https://example.test".to_string());
    options.set_user_id("u".to_string());
    assert_eq!(options.get_client_id(), "CID");
    assert_eq!(options.get_host(), "https://example.test");
    assert_eq!(options.get_refresh_token(), None);
    assert!(!options.is_refresh_token());
    options.set_refresh_token("RT".to_string());
    assert!(options.is_refresh_token());
    assert_eq!(options.get_refresh_token(), Some("RT".to_string()));
    options.remove_session();
    assert!(!options.is_refresh_token());
    assert!(options.get_access_token_or_error().is_err());

    let sdk = KidsnoteSdk::new(KidsnoteOptions::new(None));
    assert_eq!(sdk.get_host(), "https://kapi.kidsnote.com");
    assert!(sdk.get_client_id().len() > 0);
    let copy = sdk.get_options_clone();
    assert_eq!(copy.get_host(), "https://kapi.kidsnote.com");
}
