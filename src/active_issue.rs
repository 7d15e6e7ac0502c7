//! The active issue: the one issue being worked on, which every operation
//! without an explicit issue falls back on. Overwritten, never cleared.
use vstd::prelude::*;

use crate::error::AppError;

verus! {

/// The path, relative to the working directory, where the active issue is kept.
pub const ACTIVE_ISSUE_PATH: &'static str = ".narutils/active_issue.json";

/// The persisted record of the active issue.
pub struct ActiveIssueConfig {
    pub active_issue_key: String,
}

/// The store of the active issue: empty until an issue is first saved.
pub struct ActiveIssueStore {
    record: Option<ActiveIssueConfig>,
}

/// What loading a store whose content is `content` gives.
pub open spec fn load_spec(content: Option<Seq<char>>) -> Result<Seq<char>, AppError> {
    match content {
        Some(key) => Ok(key),
        None => Err(AppError::NoActiveIssue),
    }
}

/// The content of a store after `key` is saved into one whose content was `prior`.
pub open spec fn save_spec(prior: Option<Seq<char>>, key: Seq<char>) -> Option<Seq<char>> {
    Some(key)
}

impl View for ActiveIssueStore {
    type V = Option<Seq<char>>;

    /// The key of the active issue, if one was ever saved.
    closed spec fn view(&self) -> Option<Seq<char>> {
        match self.record {
            Some(r) => Some(r.active_issue_key@),
            None => None,
        }
    }
}

impl ActiveIssueStore {
    /// A store in which no issue was ever saved.
    pub fn new() -> (r: ActiveIssueStore)
        ensures
            r@ is None,
    {
        ActiveIssueStore { record: None }
    }

    /// A store holding what was persisted earlier, if anything was.
    pub fn from_record(record: Option<ActiveIssueConfig>) -> (r: ActiveIssueStore)
        ensures
            r@ == match record {
                Some(c) => Some(c.active_issue_key@),
                None => None::<Seq<char>>,
            },
    {
        ActiveIssueStore { record }
    }

    /// The record to persist, if an issue was ever saved.
    pub fn record(&self) -> (r: Option<ActiveIssueConfig>)
        ensures
            match r {
                Some(c) => self@ == Some(c.active_issue_key@),
                None => self@ is None,
            },
    {
        match &self.record {
            Some(c) => Some(ActiveIssueConfig { active_issue_key: c.active_issue_key.clone() }),
            None => None,
        }
    }

    /// Makes `issue_key` the active issue, replacing whatever was active.
    pub fn save(&mut self, issue_key: String)
        ensures
            final(self)@ == save_spec(old(self)@, issue_key@),
    {
        self.record = Some(ActiveIssueConfig { active_issue_key: issue_key });
    }

    /// The active issue, or `NoActiveIssue` where none was ever saved.
    pub fn load(&self) -> (r: Result<ActiveIssueConfig, AppError>)
        ensures
            match load_spec(self@) {
                Ok(key) => r matches Ok(c) && c.active_issue_key@ == key,
                Err(e) => r matches Err(e2) && e2 == e,
            },
    {
        match &self.record {
            Some(c) => Ok(ActiveIssueConfig { active_issue_key: c.active_issue_key.clone() }),
            None => Err(AppError::NoActiveIssue),
        }
    }
}

/// Saving then loading gives back the key last saved, whatever the store held
/// before and however many keys were saved into it earlier.
pub proof fn lemma_save_then_load(prior: Option<Seq<char>>, earlier: Seq<char>, key: Seq<char>)
    ensures
        load_spec(save_spec(prior, key)) == Ok::<Seq<char>, AppError>(key),
        load_spec(save_spec(save_spec(prior, earlier), key)) == Ok::<Seq<char>, AppError>(key),
{
}

/// A store in which nothing was ever saved loads as `NoActiveIssue`.
pub proof fn lemma_fresh_store_not_found(store: ActiveIssueStore)
    requires
        store@ is None,
    ensures
        load_spec(store@) == Err::<Seq<char>, AppError>(AppError::NoActiveIssue),
{
}

} // verus!
