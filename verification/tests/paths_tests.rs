use knbackup::dates::{compact_date_string, year_month_string};
use knbackup::download::DownloadSource;
use knbackup::paths::{extension_or_png, plan_paths, render_title};
use knbackup::resource::ResourceImageResponse;

fn image(id: u64, name: &str) -> ResourceImageResponse {
    ResourceImageResponse {
        id,
        access_key: String::new(),
        original_file_name: name.to_string(),
        file_size: 100,
        width: 10,
        height: 10,
        original: format!("https://cdn.example/{}", id),
        large: String::new(),
        small: String::new(),
    }
}

fn source() -> DownloadSource {
    DownloadSource {
        source_type: "알림장".to_string(),
        source_id: 987,
        report_date: 1672531200,  // 2023-01-01T00:00:00Z
        report_content: Some("note".to_string()),
        author_name: "Kim".to_string(),
        center_name: Some("Acorn Center".to_string()),
        class_id: 7,
        class_name: "Tulip".to_string(),
        child_id: 42,
        child_name: "Hana".to_string(),
        attached_images: vec![image(11, "a.jpeg"), image(12, "no_extension"),
            image(13, "archive.tar.gz")],
    }
}

#[test]
fn date_strings_for_epoch() {
    assert_eq!(year_month_string(0), "1970-01");
    assert_eq!(compact_date_string(0), "19700101");
}

#[test]
fn date_strings_for_known_day() {
    assert_eq!(year_month_string(1672531200), "2023-01");
    assert_eq!(compact_date_string(1672531200), "20230101");
}

#[test]
fn planned_layout_matches_convention() {
    let p = plan_paths(&source(), "./output").unwrap();
    assert_eq!(p.base_dir, "./output/키즈노트 Hana/알림장/2023-01");
    assert_eq!(p.text_path, "./output/키즈노트 Hana/알림장/2023-01/20230101_Hana_알림장_987.txt");
    assert_eq!(
        p.rendered_image_path,
        "./output/키즈노트 Hana/알림장/2023-01/20230101_Hana_알림장_987.jpg"
    );
    assert_eq!(
        p.image_paths,
        vec![
            "./output/키즈노트 Hana/알림장/2023-01/20230101_Hana_알림장_987_11.jpeg".to_string(),
            "./output/키즈노트 Hana/알림장/2023-01/20230101_Hana_알림장_987_12.png".to_string(),
            "./output/키즈노트 Hana/알림장/2023-01/20230101_Hana_알림장_987_13.gz".to_string(),
        ]
    );
}

#[test]
fn planning_twice_yields_identical_paths() {
    let a = plan_paths(&source(), "./output").unwrap();
    let b = plan_paths(&source(), "./output").unwrap();
    assert_eq!(a.base_dir, b.base_dir);
    assert_eq!(a.text_path, b.text_path);
    assert_eq!(a.rendered_image_path, b.rendered_image_path);
    assert_eq!(a.image_paths, b.image_paths);
}

#[test]
fn out_of_range_timestamp_is_rejected() {
    let mut s = source();
    s.report_date = -1;
    assert!(plan_paths(&s, "./output").is_none());
    assert!(render_title(&s).is_none());
}

#[test]
fn extension_rules() {
    assert_eq!(extension_or_png("photo.JPG"), "JPG");
    assert_eq!(extension_or_png("noext"), "png");
    assert_eq!(extension_or_png(".hidden"), "png");
    assert_eq!(extension_or_png("a/b/c.tar.gz"), "gz");
    assert_eq!(extension_or_png("dir.d/noext"), "png");
    assert_eq!(extension_or_png("trailing."), "");
}

#[test]
fn title_has_unpadded_month_and_day() {
    let t = render_title(&source()).unwrap();
    assert_eq!(t, "제목 : 2023년 1월 1일 알림장");
}
