//! The time tracker's side: its records of today's work, the window each
//! record covers, the request that adds a record, and the addresses involved.
use vstd::prelude::*;

use crate::error::AppError;
use crate::jira::IssueResponse;
use crate::time_of_day::{hms_text, wrap_add, TimeOfDay};

verus! {

/// How to reach the time tracker.
pub struct TempoConfiguration {
    pub token: String,
    pub api_url: String,
    pub project_id: String,
}

/// One record of work, as the time tracker returns it.
pub struct WorklogResponse {
    pub billable_seconds: i32,
    pub _start_date: String,
    /// Wall-clock start, `HH:MM:SS`.
    pub start_time: String,
    pub _tempo_worklog_id: i32,
}

/// Today's records of work, ordered by start time.
pub struct UserWorklogsResponse {
    pub results: Vec<WorklogResponse>,
}

/// A new record of work to submit.
pub struct CreateWorklogRequest {
    pub author_account_id: String,
    pub issue_id: i32,
    /// `YYYY-MM-DD`.
    pub start_date: String,
    /// `HH:MM:SS`.
    pub start_time: String,
    pub time_spent_seconds: i32,
}

/// The hour, minute and second of a `%H:%M:%S` time of day, where the text is one.
pub uninterp spec fn hms_parse(text: Seq<char>) -> Option<(u32, u32, u32)>;

/// Relies on chrono's `NaiveTime::parse_from_str` with the format `%H:%M:%S`,
/// read back through `Timelike::{hour, minute, second}`, which stay below 24,
/// 60 and 60. Whether and how a text parses depends on the text alone.
#[verifier::external_body]
fn parse_hms(text: &str) -> (r: Option<(u32, u32, u32)>)
    ensures
        r == hms_parse(text@),
        r matches Some((h, m, s)) ==> h < 24 && m < 60 && s < 60,
{
    match chrono::NaiveTime::parse_from_str(text, "%H:%M:%S") {
        Ok(t) => Some(
            (
                chrono::Timelike::hour(&t),
                chrono::Timelike::minute(&t),
                chrono::Timelike::second(&t),
            ),
        ),
        Err(_) => None,
    }
}

pub open spec fn is_decimal_digit(c: char) -> bool {
    '0' <= c && c <= '9'
}

/// The value of a non-empty run of decimal digits.
pub open spec fn decimal_value(s: Seq<char>) -> int
    decreases s.len(),
{
    if s.len() == 0 {
        0
    } else {
        decimal_value(s.drop_last()) * 10 + (s.last() as int - '0' as int)
    }
}

/// What `s` denotes as an integer: an optional sign, then one or more decimal digits.
pub open spec fn signed_decimal(s: Seq<char>) -> Option<int> {
    let neg = s.len() > 0 && s[0] == '-';
    let body = if s.len() > 0 && (s[0] == '-' || s[0] == '+') {
        s.drop_first()
    } else {
        s
    };
    if body.len() > 0 && forall|i: int| 0 <= i < body.len() ==> is_decimal_digit(#[trigger] body[i]) {
        Some(
            if neg {
                -decimal_value(body)
            } else {
                decimal_value(body)
            },
        )
    } else {
        None
    }
}

/// The 32-bit integer that `s` denotes, where it denotes one in range.
pub open spec fn parsed_i32(s: Seq<char>) -> Option<i32> {
    match signed_decimal(s) {
        Some(v) => if i32::MIN <= v <= i32::MAX {
            Some(v as i32)
        } else {
            None
        },
        None => None,
    }
}

/// Relies on `str::parse::<i32>`, documented to accept an optional `+` or `-`
/// followed by decimal digits only, and to fail on anything else or on a value
/// out of range.
#[verifier::external_body]
fn parse_i32(text: &str) -> (r: Option<i32>)
    ensures
        r == parsed_i32(text@),
{
    text.parse::<i32>().ok()
}

/// The sum of the billable seconds of the records.
pub open spec fn total_billable(entries: Seq<WorklogResponse>) -> int
    decreases entries.len(),
{
    if entries.len() == 0 {
        0
    } else {
        total_billable(entries.drop_last()) + entries.last().billable_seconds as int
    }
}

/// The start and end of a record that starts at `start`, wrapping past midnight.
pub open spec fn window_spec(start: TimeOfDay, billable_seconds: i32) -> (TimeOfDay, TimeOfDay) {
    (start, TimeOfDay { seconds: wrap_add(start.seconds as int, billable_seconds as int) as u32 })
}

/// What parsing a record's start time gives: its window, or an invalid start time.
pub open spec fn start_end_spec(entry: WorklogResponse) -> Result<(TimeOfDay, TimeOfDay), AppError> {
    match hms_parse(entry.start_time@) {
        Some((h, m, s)) => Ok(
            window_spec(TimeOfDay { seconds: (h * 3600 + m * 60 + s) as u32 }, entry.billable_seconds),
        ),
        None => Err(AppError::InvalidStartTime),
    }
}

/// The window of a record that starts at `start` and lasts `billable_seconds`.
pub fn worklog_window(start: TimeOfDay, billable_seconds: i32) -> (r: (TimeOfDay, TimeOfDay))
    requires
        start.wf(),
    ensures
        r == window_spec(start, billable_seconds),
        r.1.wf(),
{
    (start, start.add_seconds_wrapping(billable_seconds))
}

/// Where the next record of work begins: where the record starting at
/// `start` and lasting `billable_seconds` ends, so that tracked time has no gap.
pub fn next_start_time(start: TimeOfDay, billable_seconds: i32) -> (r: TimeOfDay)
    requires
        start.wf(),
    ensures
        r == window_spec(start, billable_seconds).1,
        r.wf(),
{
    worklog_window(start, billable_seconds).1
}

impl WorklogResponse {
    /// The time at which this record starts and the time at which it ends.
    pub fn parse_start_end(&self) -> (r: Result<(TimeOfDay, TimeOfDay), AppError>)
        ensures
            r == start_end_spec(*self),
            r matches Ok((a, b)) ==> a.wf() && b.wf(),
    {
        match parse_hms(self.start_time.as_str()) {
            Some((h, m, s)) => Ok(worklog_window(TimeOfDay::from_hms(h, m, s), self.billable_seconds)),
            None => Err(AppError::InvalidStartTime),
        }
    }
}

impl UserWorklogsResponse {
    /// The billable seconds of all of today's records together.
    pub fn get_billable_seconds(&self) -> (r: i128)
        ensures
            r == total_billable(self.results@),
    {
        let mut total: i128 = 0;
        let mut i: usize = 0;
        while i < self.results.len()
            invariant
                i <= self.results@.len(),
                total == total_billable(self.results@.subrange(0, i as int)),
                -(i as int) * 2147483648 <= total <= (i as int) * 2147483647,
            decreases self.results@.len() - i,
        {
            proof {
                let s = self.results@.subrange(0, i + 1);
                assert(s.drop_last() =~= self.results@.subrange(0, i as int));
            }
            total = total + self.results[i].billable_seconds as i128;
            i += 1;
        }
        assert(self.results@.subrange(0, i as int) =~= self.results@);
        total
    }

    /// The start time of the first of today's records, as the tracker wrote it.
    pub fn started_work_at(&self) -> (r: Option<String>)
        ensures
            self.results@.len() == 0 ==> r is None,
            self.results@.len() > 0 ==> (r matches Some(t) && t@ == self.results@[0].start_time@),
    {
        if self.results.len() == 0 {
            None
        } else {
            Some(self.results[0].start_time.clone())
        }
    }

    /// The window of the last of today's records, if there is one.
    pub fn last_window(&self) -> (r: Option<Result<(TimeOfDay, TimeOfDay), AppError>>)
        ensures
            self.results@.len() == 0 ==> r is None,
            self.results@.len() > 0 ==> r == Some(start_end_spec(self.results@.last())),
    {
        let n = self.results.len();
        if n == 0 {
            None
        } else {
            Some(self.results[n - 1].parse_start_end())
        }
    }

    /// Where time tracked now begins: at the end of today's last record.
    pub fn tracking_start(&self) -> (r: Result<TimeOfDay, AppError>)
        ensures
            self.results@.len() == 0 ==> r == Err::<TimeOfDay, AppError>(
                AppError::NoPriorEntryToday,
            ),
            self.results@.len() > 0 ==> match start_end_spec(self.results@.last()) {
                Ok((_, end)) => r == Ok::<TimeOfDay, AppError>(end),
                Err(e) => r == Err::<TimeOfDay, AppError>(e),
            },
            r matches Ok(t) ==> t.wf(),
    {
        match self.last_window() {
            None => Err(AppError::NoPriorEntryToday),
            Some(Ok((_, end))) => Ok(end),
            Some(Err(e)) => Err(e),
        }
    }
}

/// The seconds to track for a duration of `minutes`: positive and within 32 bits.
pub fn tracked_seconds(minutes: i64) -> (r: Result<i32, AppError>)
    ensures
        0 < minutes * 60 <= i32::MAX ==> r == Ok::<i32, AppError>((minutes * 60) as i32),
        !(0 < minutes * 60 <= i32::MAX) ==> r == Err::<i32, AppError>(AppError::InvalidDuration),
{
    if minutes <= 0 || minutes > 35791394 {
        Err(AppError::InvalidDuration)
    } else {
        Ok((minutes * 60) as i32)
    }
}

/// The request that records `time_spent_seconds` of work on `issue`, by the
/// account `author_account_id`, starting on `start_date` at `start_time`.
pub fn build_worklog_request(
    issue: &IssueResponse,
    author_account_id: String,
    start_date: String,
    start_time: TimeOfDay,
    time_spent_seconds: i32,
) -> (r: Result<CreateWorklogRequest, AppError>)
    requires
        start_time.wf(),
        time_spent_seconds > 0,
    ensures
        match parsed_i32(issue.id@) {
            Some(id) => r matches Ok(req) && {
                &&& req.issue_id == id
                &&& req.author_account_id@ == author_account_id@
                &&& req.start_date@ == start_date@
                &&& req.start_time@ == hms_text(start_time.seconds as int)
                &&& req.time_spent_seconds == time_spent_seconds
            },
            None => r == Err::<CreateWorklogRequest, AppError>(AppError::InvalidIssueId),
        },
{
    match parse_i32(issue.id.as_str()) {
        Some(issue_id) => Ok(
            CreateWorklogRequest {
                author_account_id,
                issue_id,
                start_date,
                start_time: start_time.format_hms(),
                time_spent_seconds,
            },
        ),
        None => Err(AppError::InvalidIssueId),
    }
}

pub open spec fn bearer_spec(token: Seq<char>) -> Seq<char> {
    "Bearer "@ + token
}

pub open spec fn worklogs_url_spec(api_url: Seq<char>) -> Seq<char> {
    api_url + "/worklogs"@
}

pub open spec fn user_worklogs_url_spec(api_url: Seq<char>, account_id: Seq<char>) -> Seq<char> {
    api_url + "/worklogs/user/"@ + account_id
}

impl TempoConfiguration {
    /// The bearer-token header that every time-tracker request carries.
    pub fn auth_header(&self) -> (r: String)
        ensures
            r@ == bearer_spec(self.token@),
    {
        let mut header = String::from_str("Bearer ");
        header.append(self.token.as_str());
        header
    }

    /// The address to which new records are posted.
    pub fn worklogs_url(&self) -> (r: String)
        ensures
            r@ == worklogs_url_spec(self.api_url@),
    {
        let mut url = self.api_url.clone();
        url.append("/worklogs");
        url
    }

    /// The address of the records of the account `account_id`.
    pub fn user_worklogs_url(&self, account_id: &str) -> (r: String)
        ensures
            r@ == user_worklogs_url_spec(self.api_url@, account_id@),
    {
        let mut url = self.api_url.clone();
        url.append("/worklogs/user/");
        url.append(account_id);
        url
    }
}

} // verus!
