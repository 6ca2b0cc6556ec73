use std::collections::HashMap;

use knbackup::child::{ChildReportAuthorResponse, ChildReportDataResponse,
ChildReportReadByParentResponse, ChildReportResponse, GetReportsParam};
use knbackup::errors::AuthError;
use knbackup::fetcher::{build_center_lookup, fetch_reports_from_pages, map_report_to_source,
ReportFetchState};
use knbackup::options::{KidsnoteOptions, OAuthTokenResponse};
use knbackup::resource::{resolve_download, DownloadResolution, FetchAttempt, FileProbe};
use knbackup::user::MeInfoChildEnrollment;
use knbackup::KidsnoteSdk;

fn report(id: u64, center: Option<u64>, content: Option<&str>) -> ChildReportDataResponse {
    ChildReportDataResponse {
        id,
        created: 1672531200,
        modified: String::new(),
        date_written: "2023-01-01".to_string(),
        author: ChildReportAuthorResponse {
            id: 1,
            author_type: "teacher".to_string(),
            name: "Kim".to_string(),
            picture: None,
            username: "kim".to_string(),
        },
        author_name: "Kim".to_string(),
        center,
        cls: 7,
        class_name: "Tulip".to_string(),
        child: 42,
        child_name: "Hana".to_string(),
        child_picture: None,
        is_sent_from_center: true,
        content: content.map(|c| c.to_string()),
        weather: None,
        num_comments: 0,
        read_by_me: false,
        read_by_parent: ChildReportReadByParentResponse { date_read: String::new() },
        attached_images: Vec::new(),
        thumbnail: None,
    }
}

fn page(next: Option<&str>, reports: Vec<ChildReportDataResponse>) -> ChildReportResponse {
    ChildReportResponse {
        count: reports.len() as i32,
        next: next.map(|n| n.to_string()),
        previous: None,
        results: reports,
    }
}

#[test]
fn pagination_stops_at_page_without_next() {
    let pages = vec![
        page(Some("p2"), vec![report(1, None, None)]),
        page(Some("p3"), vec![report(2, None, None)]),
        page(None, vec![report(3, None, None)]),
        page(Some("p5"), vec![report(4, None, None)]),
    ];
    let cm: HashMap<u64, String> = HashMap::new();
    let run = fetch_reports_from_pages(&pages, 42, &"Hana".to_string(), &cm,
        GetReportsParam::new());
    assert_eq!(run.requests, 3);
    assert_eq!(run.batches.len(), 3);
    let total: usize = run.batches.iter().map(|b| b.len()).sum();
    assert_eq!(total, 3);
}

#[test]
fn pagination_stops_at_empty_page() {
    let pages = vec![
        page(Some("p2"), vec![report(1, None, None)]),
        page(Some("p3"), vec![]),
        page(Some("p4"), vec![report(9, None, None)]),
    ];
    let cm: HashMap<u64, String> = HashMap::new();
    let run = fetch_reports_from_pages(&pages, 42, &"Hana".to_string(), &cm,
        GetReportsParam::new());
    assert_eq!(run.requests, 2);
}

#[test]
fn fetch_state_keeps_cursor_while_pages_continue() {
    let mut st = ReportFetchState::new(GetReportsParam::new());
    assert!(!st.finished);
    st.on_page(Some("cursor-2".to_string()), false);
    assert!(!st.finished);
    assert_eq!(st.param.page, Some("cursor-2".to_string()));
    assert_eq!(st.pages_fetched, 1);
    st.on_page(None, false);
    assert!(st.finished);
    assert_eq!(st.param.page, None);
}

#[test]
fn fetch_state_error_terminates() {
    let mut st = ReportFetchState::new(GetReportsParam::new());
    st.on_error();
    assert!(st.finished);
    assert_eq!(st.param.page, None);
}

#[test]
fn center_lookup_first_enrollment_wins() {
    let mut e1 = enrollment(5, "Acorn Center");
    e1.id = 1;
    let mut e2 = enrollment(5, "Other Name");
    e2.id = 2;
    let e3 = enrollment(8, "Maple Center");
    let map = build_center_lookup(&vec![e1, e2, e3]);
    assert_eq!(map.get(&5), Some(&"Acorn Center".to_string()));
    assert_eq!(map.get(&8), Some(&"Maple Center".to_string()));
    assert_eq!(map.get(&9), None);
}

fn enrollment(center_id: u64, center_name: &str) -> MeInfoChildEnrollment {
    MeInfoChildEnrollment {
        id: 0,
        created: String::new(),
        modified: String::new(),
        child: 42,
        child_id: 42,
        child_name: "Hana".to_string(),
        child_birth: String::new(),
        child_picture: None,
        parent_name: "Kim".to_string(),
        center_id,
        center_name: center_name.to_string(),
        belong_to_class: 7,
        class_name: "Tulip".to_string(),
        is_approved: true,
        removed_child: false,
        is_extra_parent: false,
    }
}

#[test]
fn unknown_center_resolves_to_empty_string() {
    let cm: HashMap<u64, String> = HashMap::new();
    let s = map_report_to_source(report(1, Some(77), None), 42, &"Hana".to_string(), &cm);
    assert_eq!(s.center_name, Some(String::new()));
    let s2 = map_report_to_source(report(2, None, None), 42, &"Hana".to_string(), &cm);
    assert_eq!(s2.center_name, Some(String::new()));
}

#[test]
fn end_to_end_mocked_run() {
    // Mock auth: the token endpoint answered with a valid token pair.
    let options = KidsnoteOptions::new(None);
    let mut sdk = KidsnoteSdk::new(options);
    let token = OAuthTokenResponse {
        token_type: "Bearer".to_string(),
        access_token: "AT".to_string(),
        scope: "read write".to_string(),
        expires_in: 3600,
        refresh_token: "RT".to_string(),
    };
    let applied = sdk.apply_token_outcome(Ok(token));
    assert!(applied.is_ok());
    assert!(sdk.is_refresh_token());
    // An authenticated request can now be prepared.
    let req = sdk.myinfo_request().unwrap();
    assert_eq!(req.authorization, "Bearer AT");

    // One child with one enrollment: center 5 -> "Acorn Center".
    let map = build_center_lookup(&vec![enrollment(5, "Acorn Center")]);

    // Two pages: the first with two reports (one with content, one without)
    // and a further cursor, the second with one report and none.
    let pages = vec![
        page(Some("page2"), vec![report(1, Some(5), Some("note for today")),
            report(2, Some(5), None)]),
        page(None, vec![report(3, Some(5), None)]),
    ];
    let run = fetch_reports_from_pages(&pages, 42, &"Hana".to_string(), &map,
        GetReportsParam::new());
    assert_eq!(run.requests, 2);
    let sources: Vec<_> = run.batches.into_iter().flatten().collect();
    assert_eq!(sources.len(), 3);
    for s in &sources {
        assert_eq!(s.center_name, Some("Acorn Center".to_string()));
    }

    // One image fetch fails all three attempts: that image is marked
    // failed; its siblings succeed; nothing aborts.
    let failing = vec![
        FetchAttempt::SendError("timeout".to_string()),
        FetchAttempt::SendError("timeout".to_string()),
        FetchAttempt::SendError("timeout".to_string()),
    ];
    let ok = vec![FetchAttempt::Success, FetchAttempt::Success, FetchAttempt::Success];
    let mut failed = 0;
    let mut stored = 0;
    for (i, _s) in sources.iter().enumerate() {
        let attempts = if i == 1 { &failing } else { &ok };
        match resolve_download(&FileProbe::Missing, 100, attempts) {
            DownloadResolution::Stored { .. } => stored += 1,
            DownloadResolution::Failed { error, .. } => {
                failed += 1;
                match error {
                    AuthError::GeneralErrorStr(m) => assert_eq!(m, "unknown error. timeout"),
                    _ => panic!("unexpected error variant"),
                }
            },
            DownloadResolution::Skipped => panic!("nothing to skip"),
        }
    }
    assert_eq!(stored, 2);
    assert_eq!(failed, 1);
}
