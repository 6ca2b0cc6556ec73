use knbackup::child::GetReportsParam;
use knbackup::download::DownloadArgs;
use knbackup::config::KnBackupConfig;
use knbackup::download::DownloadCommand;

#[test]
fn date_filter_start_only_sets_end_and_timezone() {
    let p = GetReportsParam::new_with_date_filter(&Some("2023-01-01".to_string()), &None);
    assert_eq!(p.date_start, Some("2023-01-01".to_string()));
    assert_eq!(p.date_end, Some("2023-01-01".to_string()));
    assert_eq!(p.tz, Some("Asia/Seoul".to_string()));
}

#[test]
fn date_filter_end_only_sets_start_and_timezone() {
    let p = GetReportsParam::new_with_date_filter(&None, &Some("2023-02-03".to_string()));
    assert_eq!(p.date_start, Some("2023-02-03".to_string()));
    assert_eq!(p.date_end, Some("2023-02-03".to_string()));
    assert_eq!(p.tz, Some("Asia/Seoul".to_string()));
}

#[test]
fn date_filter_both_kept_as_given() {
    let p = GetReportsParam::new_with_date_filter(
        &Some("2023-01-01".to_string()),
        &Some("2023-03-31".to_string()),
    );
    assert_eq!(p.date_start, Some("2023-01-01".to_string()));
    assert_eq!(p.date_end, Some("2023-03-31".to_string()));
    assert_eq!(p.tz, Some("Asia/Seoul".to_string()));
}

#[test]
fn date_filter_absent_sends_no_date_fields() {
    let p = GetReportsParam::new_with_date_filter(&None, &None);
    assert_eq!(p.date_start, None);
    assert_eq!(p.date_end, None);
    assert_eq!(p.tz, None);
    let pairs = p.to_query_pairs();
    assert_eq!(pairs, vec![("page_size".to_string(), "10".to_string())]);
}

#[test]
fn query_pairs_keep_field_order_and_skip_absent() {
    let mut p = GetReportsParam::new_with_date_filter(&Some("2023-01-01".to_string()), &None);
    p.page = Some("cursor".to_string());
    let pairs = p.to_query_pairs();
    assert_eq!(
        pairs,
        vec![
            ("page".to_string(), "cursor".to_string()),
            ("page_size".to_string(), "10".to_string()),
            ("date_start".to_string(), "2023-01-01".to_string()),
            ("date_end".to_string(), "2023-01-01".to_string()),
            ("tz".to_string(), "Asia/Seoul".to_string()),
        ]
    );
}

#[test]
fn negative_page_size_renders_with_sign() {
    let mut p = GetReportsParam::new();
    p.page_size = Some(-3);
    let pairs = p.to_query_pairs();
    assert_eq!(pairs, vec![("page_size".to_string(), "-3".to_string())]);
}

#[test]
fn download_command_normalizes_run_date_filter() {
    let mut args = DownloadArgs::new();
    args.date_end = Some("2024-05-05".to_string());
    let cmd = DownloadCommand::new(args, KnBackupConfig::new_empty());
    let p = cmd.report_param();
    assert_eq!(p.date_start, Some("2024-05-05".to_string()));
    assert_eq!(p.date_end, Some("2024-05-05".to_string()));
    assert_eq!(p.tz, Some("Asia/Seoul".to_string()));
}
