use narutils::error::AppError;
use narutils::issue_key::{extract_issue_key, find_issue_key, parse_issue_key};

#[test]
fn extracts_key_from_branch_name() {
    assert_eq!(extract_issue_key("PROJ", "feature/PROJ-99-retry-logic"), Ok("PROJ-99".to_string()));
}

#[test]
fn extracts_first_of_several_keys() {
    assert_eq!(parse_issue_key("TTM-12 then TTM-34"), Ok("TTM-12".to_string()));
}

#[test]
fn caps_digits_at_six() {
    assert_eq!(parse_issue_key("TTM-12345678"), Ok("TTM-123456".to_string()));
}

#[test]
fn skips_prefix_without_digits() {
    assert_eq!(parse_issue_key("TTM-x TTM-7b"), Ok("TTM-7".to_string()));
}

#[test]
fn prefix_is_case_sensitive() {
    assert_eq!(parse_issue_key("ttm-123"), Err(AppError::NoIssueKeyFound));
}

#[test]
fn no_key_is_not_found() {
    assert_eq!(parse_issue_key("main"), Err(AppError::NoIssueKeyFound));
    assert_eq!(parse_issue_key(""), Err(AppError::NoIssueKeyFound));
    assert_eq!(parse_issue_key("TTM-"), Err(AppError::NoIssueKeyFound));
}

#[test]
fn key_itself_is_accepted() {
    assert_eq!(parse_issue_key("TTM-1"), Ok("TTM-1".to_string()));
}

#[test]
fn finds_key_after_multibyte_text() {
    assert_eq!(find_issue_key("TTM", "ä/TTM-42"), Some((2, 8)));
    assert_eq!(parse_issue_key("ä/TTM-42"), Ok("TTM-42".to_string()));
}

#[test]
fn key_inside_longer_prefix_run() {
    assert_eq!(parse_issue_key("XTTM-5"), Ok("TTM-5".to_string()));
    assert_eq!(extract_issue_key("PROJ", "PROJ-PROJ-12"), Ok("PROJ-12".to_string()));
}

#[test]
fn non_ascii_digits_are_not_key_digits() {
    assert_eq!(parse_issue_key("TTM-\u{0661}\u{0662}"), Err(AppError::NoIssueKeyFound));
}
