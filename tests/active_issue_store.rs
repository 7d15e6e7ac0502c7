use narutils::active_issue::{ActiveIssueConfig, ActiveIssueStore};
use narutils::error::AppError;

#[test]
fn fresh_store_has_no_active_issue() {
    let store = ActiveIssueStore::new();
    assert!(matches!(store.load(), Err(AppError::NoActiveIssue)));
    assert!(store.record().is_none());
}

#[test]
fn save_then_load_returns_key() {
    let mut store = ActiveIssueStore::new();
    store.save("TTM-1".to_string());
    assert_eq!(store.load().unwrap().active_issue_key, "TTM-1");
}

#[test]
fn save_overwrites_previous_key() {
    let mut store = ActiveIssueStore::from_record(Some(ActiveIssueConfig {
        active_issue_key: "TTM-1".to_string(),
    }));
    store.save("TTM-2".to_string());
    assert_eq!(store.load().unwrap().active_issue_key, "TTM-2");
    assert_eq!(store.record().unwrap().active_issue_key, "TTM-2");
}
