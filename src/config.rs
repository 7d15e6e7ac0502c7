//! The tool's configuration: where the issue tracker lives, how to log in to
//! it, and optionally how to reach the time tracker.
use vstd::prelude::*;

use crate::error::{AppError, AppTempoError};
use crate::tempo::TempoConfiguration;

verus! {

/// The path, relative to the working directory, of the configuration file.
pub const CONFIG_PATH: &'static str = ".narutils/config.json";

pub struct AppConfig {
    pub jira_host: String,
    pub jira_username: String,
    pub jira_password: String,
    pub tempo: Option<TempoConfiguration>,
}

/// The browser address of an issue: `{host}/browse/{key}`.
pub open spec fn issue_url_spec(host: Seq<char>, key: Seq<char>) -> Seq<char> {
    host + "/browse/"@ + key
}

impl AppConfig {
    /// The address at which a person views the issue `issue_key`.
    pub fn format_jira_issue_url(&self, issue_key: &str) -> (r: String)
        ensures
            r@ == issue_url_spec(self.jira_host@, issue_key@),
    {
        let mut url = self.jira_host.clone();
        url.append("/browse/");
        url.append(issue_key);
        url
    }

    /// The time-tracking block, which every time-tracking operation needs.
    pub fn tempo_config(&self) -> (r: Result<&TempoConfiguration, AppError>)
        ensures
            match self.tempo {
                Some(t) => r == Ok::<&TempoConfiguration, AppError>(&t),
                None => r == Err::<&TempoConfiguration, AppError>(
                    AppError::Tempo(AppTempoError::NotConfigured),
                ),
            },
    {
        match &self.tempo {
            Some(t) => Ok(t),
            None => Err(AppError::Tempo(AppTempoError::NotConfigured)),
        }
    }
}

} // verus!
