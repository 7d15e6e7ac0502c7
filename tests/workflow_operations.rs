use narutils::active_issue::{ActiveIssueConfig, ActiveIssueStore};
use narutils::config::AppConfig;
use narutils::error::{remote_error, AppError, AppTempoError};
use narutils::jira::{basic_auth_header, load_api_config, IssueFieldsResponse, IssueResponse};
use narutils::tempo::{build_worklog_request, TempoConfiguration, UserWorklogsResponse, WorklogResponse};
use narutils::time_of_day::TimeOfDay;
use narutils::workflow::{
    activate_issue, active_issue_report, commit_issue_key, format_commit_message, plan_worklog,
    ActivateIssueArgs, FormatCommitArgs,
};

fn issue(id: &str, summary: &str) -> IssueResponse {
    IssueResponse { id: id.to_string(), fields: IssueFieldsResponse { summary: summary.to_string() } }
}

fn config(tempo: Option<TempoConfiguration>) -> AppConfig {
    AppConfig {
        jira_host: "https://example.atlassian.net".to_string(),
        jira_username: "user".to_string(),
        jira_password: "pass".to_string(),
        tempo,
    }
}

fn tempo() -> TempoConfiguration {
    TempoConfiguration {
        token: "tok".to_string(),
        api_url: "https://api.tempo.io/4".to_string(),
        project_id: "1".to_string(),
    }
}

#[test]
fn commit_message_for_active_issue() {
    let store = ActiveIssueStore::from_record(Some(ActiveIssueConfig { active_issue_key: "PROJ-42".to_string() }));
    let key = commit_issue_key(&store, "PROJ", &FormatCommitArgs { jira_issue: None }).unwrap();
    assert_eq!(key, "PROJ-42");
    assert_eq!(format_commit_message(&issue("1", "Fix login bug")), "fix: Fix login bug");
}

#[test]
fn commit_key_from_argument() {
    let store = ActiveIssueStore::new();
    let args = FormatCommitArgs { jira_issue: Some("bugfix/TTM-7-crash".to_string()) };
    assert_eq!(commit_issue_key(&store, "TTM", &args), Ok("TTM-7".to_string()));
    let bad = FormatCommitArgs { jira_issue: Some("bugfix/crash".to_string()) };
    assert_eq!(commit_issue_key(&store, "TTM", &bad), Err(AppError::NoIssueKeyFound));
}

#[test]
fn commit_key_without_active_issue() {
    let store = ActiveIssueStore::new();
    assert_eq!(commit_issue_key(&store, "TTM", &FormatCommitArgs { jira_issue: None }), Err(AppError::NoActiveIssue));
}

#[test]
fn start_issue_then_show_it() {
    let mut store = ActiveIssueStore::new();
    let args = ActivateIssueArgs { jira_issue: "feature/PROJ-99-retry-logic".to_string() };
    assert_eq!(activate_issue(&mut store, "PROJ", &args), Ok(()));
    let key = store.load().unwrap().active_issue_key;
    assert_eq!(key, "PROJ-99");
    let cfg = config(None);
    let api = load_api_config(&cfg);
    assert_eq!(api.issue_path(&key), "https://example.atlassian.net/rest/api/latest/issue/PROJ-99");
    let url = cfg.format_jira_issue_url(&key);
    assert_eq!(url, "https://example.atlassian.net/browse/PROJ-99");
    assert_eq!(
        active_issue_report(&key, &issue("10", "Retry logic"), &url),
        "issue_key: PROJ-99\nsummary: Retry logic\nurl: https://example.atlassian.net/browse/PROJ-99"
    );
}

#[test]
fn failed_start_leaves_active_issue() {
    let mut store = ActiveIssueStore::from_record(Some(ActiveIssueConfig { active_issue_key: "TTM-1".to_string() }));
    let args = ActivateIssueArgs { jira_issue: "main".to_string() };
    assert_eq!(activate_issue(&mut store, "TTM", &args), Err(AppError::NoIssueKeyFound));
    assert_eq!(store.load().unwrap().active_issue_key, "TTM-1");
}

#[test]
fn track_time_starts_where_last_entry_ends() {
    let day = UserWorklogsResponse {
        results: vec![WorklogResponse {
            billable_seconds: 1800,
            _start_date: "2024-05-06".to_string(),
            start_time: "10:00:00".to_string(),
            _tempo_worklog_id: 7,
        }],
    };
    let req = plan_worklog(&day, 30, &issue("10042", "x"), "acc-1".to_string(), "2024-05-06".to_string()).unwrap();
    assert_eq!(req.start_time, "10:30:00");
    assert_eq!(req.time_spent_seconds, 1800);
    assert_eq!(req.issue_id, 10042);
    assert_eq!(req.author_account_id, "acc-1");
    assert_eq!(req.start_date, "2024-05-06");
}

#[test]
fn track_time_without_entries_fails() {
    let day = UserWorklogsResponse { results: vec![] };
    let r = plan_worklog(&day, 30, &issue("1", "x"), "a".to_string(), "2024-05-06".to_string());
    assert!(matches!(r, Err(AppError::NoPriorEntryToday)));
}

#[test]
fn worklog_request_rejects_non_numeric_issue_id() {
    let r = build_worklog_request(&issue("abc", "x"), "a".to_string(), "d".to_string(), TimeOfDay::from_hms(1, 2, 3), 60);
    assert!(matches!(r, Err(AppError::InvalidIssueId)));
    let ok = build_worklog_request(&issue("-12", "x"), "a".to_string(), "d".to_string(), TimeOfDay::from_hms(1, 2, 3), 60).unwrap();
    assert_eq!(ok.issue_id, -12);
    assert_eq!(ok.start_time, "01:02:03");
    let big = build_worklog_request(&issue("2147483648", "x"), "a".to_string(), "d".to_string(), TimeOfDay::from_hms(1, 2, 3), 60);
    assert!(matches!(big, Err(AppError::InvalidIssueId)));
}

#[test]
fn auth_headers() {
    let cfg = config(None);
    assert_eq!(cfg.format_auth_header(), "Basic dXNlcjpwYXNz");
    assert_eq!(load_api_config(&cfg).auth_header, "Basic dXNlcjpwYXNz");
    assert_eq!(basic_auth_header("abc"), "Basic abc");
    assert_eq!(tempo().auth_header(), "Bearer tok");
}

#[test]
fn api_addresses() {
    let cfg = config(Some(tempo()));
    let api = load_api_config(&cfg);
    assert_eq!(cfg.format_api_url(), "https://example.atlassian.net/rest/api/latest");
    assert_eq!(api.api_url, "https://example.atlassian.net/rest/api/latest");
    assert_eq!(api.myself_path(), "https://example.atlassian.net/rest/api/latest/myself");
    let t = cfg.tempo_config().unwrap();
    assert_eq!(t.worklogs_url(), "https://api.tempo.io/4/worklogs");
    assert_eq!(t.user_worklogs_url("acc-1"), "https://api.tempo.io/4/worklogs/user/acc-1");
}

#[test]
fn tempo_block_required() {
    let cfg = config(None);
    assert!(matches!(cfg.tempo_config(), Err(AppError::Tempo(AppTempoError::NotConfigured))));
}

#[test]
fn remote_errors_by_status() {
    assert_eq!(remote_error(Some(401)), AppError::RemoteAuthFailure);
    assert_eq!(remote_error(Some(403)), AppError::RemoteAuthFailure);
    assert_eq!(remote_error(Some(404)), AppError::RemoteNotFound);
    assert_eq!(remote_error(Some(400)), AppError::RemoteValidationFailure);
    assert_eq!(remote_error(Some(500)), AppError::RemoteTransportFailure);
    assert_eq!(remote_error(None), AppError::RemoteTransportFailure);
}
