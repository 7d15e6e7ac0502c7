//! The conditions that an operation of the workflow can end in.
use vstd::prelude::*;

verus! {

/// What can go wrong with the configuration file.
#[derive(Debug, Clone, Copy, PartialEq, Eq, Structural)]
pub enum AppConfigError {
    /// The configuration file does not exist.
    FileNotFound,
    /// The configuration file exists but does not hold a configuration.
    Malformed,
}

/// What can go wrong before a time-tracking call is made.
#[derive(Debug, Clone, Copy, PartialEq, Eq, Structural)]
pub enum AppTempoError {
    /// The configuration has no time-tracking block.
    NotConfigured,
}

#[derive(Debug, Clone, Copy, PartialEq, Eq, Structural)]
pub enum AppError {
    Config(AppConfigError),
    Tempo(AppTempoError),
    /// No issue has been made active yet.
    NoActiveIssue,
    /// The text holds no issue key.
    NoIssueKeyFound,
    /// The remote service refused the credentials.
    RemoteAuthFailure,
    /// The remote service has no such record.
    RemoteNotFound,
    /// The remote service rejected the payload.
    RemoteValidationFailure,
    /// The remote service could not be reached, or answered unexpectedly.
    RemoteTransportFailure,
    /// Time tracking needs an entry today to start from, and there is none.
    NoPriorEntryToday,
    /// A worklog's start time is not a `HH:MM:SS` time of day.
    InvalidStartTime,
    /// An issue's remote identifier is not a 32-bit integer.
    InvalidIssueId,
    /// A duration to track is not a positive number of seconds that fits in 32 bits.
    InvalidDuration,
}

/// The error that a failed remote call stands for: by its HTTP status where
/// the service answered, as a transport failure where it did not.
pub open spec fn remote_error_spec(status: Option<u16>) -> AppError {
    match status {
        Some(s) => if s == 401 || s == 403 {
            AppError::RemoteAuthFailure
        } else if s == 404 {
            AppError::RemoteNotFound
        } else if s == 400 || s == 422 {
            AppError::RemoteValidationFailure
        } else {
            AppError::RemoteTransportFailure
        },
        None => AppError::RemoteTransportFailure,
    }
}

/// Classifies a failed remote call; `status` is the HTTP status of the answer,
/// if one came.
pub fn remote_error(status: Option<u16>) -> (r: AppError)
    ensures
        r == remote_error_spec(status),
{
    match status {
        Some(s) => if s == 401 || s == 403 {
            AppError::RemoteAuthFailure
        } else if s == 404 {
            AppError::RemoteNotFound
        } else if s == 400 || s == 422 {
            AppError::RemoteValidationFailure
        } else {
            AppError::RemoteTransportFailure
        },
        None => AppError::RemoteTransportFailure,
    }
}

} // verus!
