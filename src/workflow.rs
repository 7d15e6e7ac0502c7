//! The user-facing operations, as decisions on plain values: which issue an
//! operation is about, what the active issue becomes, what is reported, and
//! which worklog is submitted. Fetching and sending are left to the caller.
use vstd::prelude::*;

use crate::active_issue::{load_spec, save_spec, ActiveIssueStore};
use crate::error::AppError;
use crate::issue_key::{extract_issue_key, first_issue_key};
use crate::jira::IssueResponse;
use crate::tempo::{
    CreateWorklogRequest,
    UserWorklogsResponse,
    build_worklog_request,
    parsed_i32,
    start_end_spec,
};
use crate::time_of_day::hms_text;

verus! {

/// The informational message for a workflow without an active issue.
pub const NO_ACTIVE_ISSUE_MESSAGE: &'static str = "No active issue selected.";

/// The minute counts that an operator may choose to track.
pub const TRACKABLE_MINUTES: [i64; 4] = [15, 30, 45, 60];

/// Arguments of the operation that formats a commit message.
pub struct FormatCommitArgs {
    /// Text to take the issue key from; the active issue where absent.
    pub jira_issue: Option<String>,
}

/// Arguments of the operation that makes an issue active.
pub struct ActivateIssueArgs {
    /// Text to take the issue key from, such as a branch name.
    pub jira_issue: String,
}

/// Makes the first issue key in the argument the active issue. Where the text
/// holds none, fails and leaves the store as it was.
pub fn activate_issue(store: &mut ActiveIssueStore, prefix: &str, args: &ActivateIssueArgs) -> (r:
    Result<(), AppError>)
    requires
        prefix@.len() + args.jira_issue@.len() + 8 <= usize::MAX,
    ensures
        match first_issue_key(prefix@, args.jira_issue@) {
            Some(k) => r is Ok && final(store)@ == save_spec(old(store)@, k),
            None => r == Err::<(), AppError>(AppError::NoIssueKeyFound) && final(store)@ == old(
                store,
            )@,
        },
{
    let key = extract_issue_key(prefix, args.jira_issue.as_str())?;
    store.save(key);
    Ok(())
}

/// The key of the issue that a commit message is about: the first key in
/// the argument where one is given, the active issue otherwise.
pub fn commit_issue_key(store: &ActiveIssueStore, prefix: &str, args: &FormatCommitArgs) -> (r:
    Result<String, AppError>)
    requires
        args.jira_issue matches Some(t) ==> prefix@.len() + t@.len() + 8 <= usize::MAX,
    ensures
        match args.jira_issue {
            Some(t) => match first_issue_key(prefix@, t@) {
                Some(k) => r matches Ok(key) && key@ == k,
                None => r == Err::<String, AppError>(AppError::NoIssueKeyFound),
            },
            None => match load_spec(store@) {
                Ok(k) => r matches Ok(key) && key@ == k,
                Err(e) => r == Err::<String, AppError>(e),
            },
        },
{
    match &args.jira_issue {
        Some(text) => extract_issue_key(prefix, text.as_str()),
        None => {
            let config = store.load()?;
            Ok(config.active_issue_key)
        },
    }
}

pub open spec fn commit_message_spec(summary: Seq<char>) -> Seq<char> {
    "fix: "@ + summary
}

/// The commit message for work on `issue`.
pub fn format_commit_message(issue: &IssueResponse) -> (r: String)
    ensures
        r@ == commit_message_spec(issue.fields.summary@),
{
    let mut message = String::from_str("fix: ");
    message.append(issue.fields.summary.as_str());
    message
}

pub open spec fn issue_report_spec(key: Seq<char>, summary: Seq<char>, url: Seq<char>) -> Seq<
    char,
> {
    "issue_key: "@ + key + "\nsummary: "@ + summary + "\nurl: "@ + url
}

/// The report on the active issue: its key, its summary and its address.
pub fn active_issue_report(issue_key: &str, issue: &IssueResponse, issue_url: &str) -> (r: String)
    ensures
        r@ == issue_report_spec(issue_key@, issue.fields.summary@, issue_url@),
{
    let mut report = String::from_str("issue_key: ");
    report.append(issue_key);
    report.append("\nsummary: ");
    report.append(issue.fields.summary.as_str());
    report.append("\nurl: ");
    report.append(issue_url);
    report
}

/// The worklog to submit when `minutes` of work on `issue` are tracked, given
/// today's records: it starts where the last of them ends, today, and lasts
/// `minutes`.
pub fn plan_worklog(
    worklog: &UserWorklogsResponse,
    minutes: i64,
    issue: &IssueResponse,
    author_account_id: String,
    start_date: String,
) -> (r: Result<CreateWorklogRequest, AppError>)
    ensures
        worklog.results@.len() == 0 ==> r == Err::<CreateWorklogRequest, AppError>(
            AppError::NoPriorEntryToday,
        ),
        worklog.results@.len() > 0 ==> match start_end_spec(worklog.results@.last()) {
            Err(e) => r == Err::<CreateWorklogRequest, AppError>(e),
            Ok((_, end)) => if !(0 < minutes * 60 <= i32::MAX) {
                r == Err::<CreateWorklogRequest, AppError>(AppError::InvalidDuration)
            } else {
                match parsed_i32(issue.id@) {
                    None => r == Err::<CreateWorklogRequest, AppError>(AppError::InvalidIssueId),
                    Some(id) => r matches Ok(req) && {
                        &&& req.issue_id == id
                        &&& req.author_account_id@ == author_account_id@
                        &&& req.start_date@ == start_date@
                        &&& req.start_time@ == hms_text(end.seconds as int)
                        &&& req.time_spent_seconds == minutes * 60
                    },
                }
            },
        },
{
    let start = worklog.tracking_start()?;
    let seconds = crate::tempo::tracked_seconds(minutes)?;
    build_worklog_request(issue, author_account_id, start_date, start, seconds)
}

} // verus!
