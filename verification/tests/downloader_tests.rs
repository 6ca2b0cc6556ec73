use knbackup::errors::AuthError;
use knbackup::resource::{predownload_decision, resolve_download, DownloadResolution, FetchAttempt,
FileProbe, PreDownloadDecision, RetryState};

fn send_err() -> FetchAttempt {
    FetchAttempt::SendError("timeout".to_string())
}

#[test]
fn size_match_skips_without_any_attempt() {
    let attempts = vec![FetchAttempt::Success, FetchAttempt::Success, FetchAttempt::Success];
    let r = resolve_download(&FileProbe::Present(1024), 1024, &attempts);
    assert!(matches!(r, DownloadResolution::Skipped));
    assert!(matches!(predownload_decision(&FileProbe::Present(1024), 1024),
        PreDownloadDecision::Skip));
}

#[test]
fn missing_file_fetches_on_first_success() {
    let attempts = vec![FetchAttempt::Success, send_err(), send_err()];
    let r = resolve_download(&FileProbe::Missing, 1024, &attempts);
    match r {
        DownloadResolution::Stored { attempts_used } => assert_eq!(attempts_used, 1),
        _ => panic!("expected Stored"),
    }
}

#[test]
fn size_mismatch_refetches() {
    let attempts = vec![send_err(), FetchAttempt::Success, send_err()];
    let r = resolve_download(&FileProbe::Present(10), 1024, &attempts);
    match r {
        DownloadResolution::Stored { attempts_used } => assert_eq!(attempts_used, 2),
        _ => panic!("expected Stored"),
    }
}

#[test]
fn retry_exhaustion_fails_and_stores_nothing() {
    let attempts = vec![
        FetchAttempt::SendError("timeout a".to_string()),
        FetchAttempt::SendError("timeout b".to_string()),
        FetchAttempt::SendError("connection reset".to_string()),
    ];
    let r = resolve_download(&FileProbe::Present(10), 1024, &attempts);
    match r {
        DownloadResolution::Failed { attempts_used, error } => {
            assert_eq!(attempts_used, 3);
            match error {
                AuthError::GeneralErrorStr(m) => {
                    assert_eq!(m, "unknown error. connection reset")
                },
                _ => panic!("expected GeneralErrorStr"),
            }
        },
        _ => panic!("expected Failed: no store instruction may be issued"),
    }
}

#[test]
fn body_error_fails_without_retry() {
    let attempts = vec![FetchAttempt::BodyError("broken pipe".to_string()), FetchAttempt::Success,
        FetchAttempt::Success];
    let r = resolve_download(&FileProbe::Missing, 5, &attempts);
    match r {
        DownloadResolution::Failed { attempts_used, error } => {
            assert_eq!(attempts_used, 1);
            match error {
                AuthError::GeneralErrorStr(m) => assert_eq!(m, "unknown error. broken pipe"),
                _ => panic!("expected GeneralErrorStr"),
            }
        },
        _ => panic!("expected Failed"),
    }
}

#[test]
fn unreadable_probe_fails_before_any_fetch() {
    let attempts = vec![FetchAttempt::Success, FetchAttempt::Success, FetchAttempt::Success];
    let r = resolve_download(&FileProbe::Unreadable("permission denied".to_string()), 5, &attempts);
    match r {
        DownloadResolution::Failed { attempts_used, error } => {
            assert_eq!(attempts_used, 0);
            match error {
                AuthError::GeneralErrorStr(m) => {
                    assert_eq!(m, "file metadata error. permission denied")
                },
                _ => panic!("expected GeneralErrorStr"),
            }
        },
        _ => panic!("expected Failed"),
    }
}

#[test]
fn retry_state_allows_three_attempts() {
    let mut st = RetryState::new();
    let mut attempts = 0;
    while st.can_attempt() {
        st.record_attempt();
        attempts += 1;
    }
    assert_eq!(attempts, 3);
    match st.exhausted_error("connection reset") {
        AuthError::GeneralErrorStr(m) => assert_eq!(m, "unknown error. connection reset"),
        _ => panic!("expected GeneralErrorStr"),
    }
}
