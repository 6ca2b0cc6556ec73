use knbackup::tool::{collapse_spaces, compose_title, is_blank, renderable_lines, trim_str,
ImageTool};

#[test]
fn wrap_text_test() {
    let text = "ㅠㅠ 오늘은 꼭 등원하려하는데.. 이제가 어제 못자서 그런지 안일어나네요.. 오후에 가도 괜찮은걸까요..?";
    let text2 = "ㅠㅠ오늘은꼭등원하려하는데..이제가어제못자서그런지안일어나네요..오후에가도괜찮은걸까요..?";

    let text_next = ImageTool::wrap_text(text, 10);
    let text_next2 = ImageTool::wrap_text(text2, 10);

    println!("{}", text_next);
    println!("");
    println!("{}", text_next2);
}

#[test]
fn wrap_text_breaks_at_space_after_limit() {
    assert_eq!(ImageTool::wrap_text("aaa bbb", 3), "aaa\nbbb");
}

#[test]
fn wrap_text_hard_break_without_space() {
    assert_eq!(ImageTool::wrap_text("aaaaaaaaaaaa", 3), "aaaaaaaaaa\naa");
}

#[test]
fn wrap_text_short_input_unchanged() {
    assert_eq!(ImageTool::wrap_text("ab", 10), "ab");
}

#[test]
fn collapse_spaces_single_pass() {
    assert_eq!(collapse_spaces("a  b"), "a b");
    assert_eq!(collapse_spaces("a   b"), "a  b");
    assert_eq!(collapse_spaces("a    b"), "a  b");
    assert_eq!(collapse_spaces("ab"), "ab");
}

#[test]
fn trim_strips_both_ends() {
    assert_eq!(trim_str("  hello \t\r\n"), "hello");
    assert_eq!(trim_str("hello"), "hello");
    assert_eq!(trim_str("   "), "");
    assert!(is_blank(" \t "));
    assert!(!is_blank(" x "));
}

#[test]
fn unicode_whitespace_is_trimmed() {
    assert_eq!(trim_str("\u{3000}안녕\u{a0}"), "안녕");
    assert!(is_blank("\u{3000}\u{2028} "));
}

#[test]
fn renderable_lines_blank_content_is_none() {
    assert!(renderable_lines("   \n\t ").is_none());
    assert!(renderable_lines("").is_none());
}

#[test]
fn renderable_lines_trims_each_line() {
    let lines = renderable_lines(" hello \r\n  wide  world \nbye").unwrap();
    assert_eq!(lines, vec!["hello".to_string(), "wide world".to_string(), "bye".to_string()]);
}

#[test]
fn compose_title_appends_unknown_center() {
    let title = compose_title("[2023-01-01] journal", &Some("Acorn Center".to_string()), "Kim");
    assert_eq!(title, "[2023-01-01] journal (Acorn Center)\n");
}

#[test]
fn compose_title_skips_center_equal_to_author() {
    let title = compose_title("t", &Some("Kim".to_string()), "Kim");
    assert_eq!(title, "t\n");
}

#[test]
fn compose_title_skips_center_contained_in_author() {
    let title = compose_title("t", &Some("Acorn".to_string()), "Acorn Center Teacher");
    assert_eq!(title, "t\n");
}

#[test]
fn compose_title_without_center() {
    let title = compose_title("t", &None, "Kim");
    assert_eq!(title, "t\n");
}
