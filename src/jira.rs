//! The issue tracker's side: its API address, its login header, the paths of
//! the two records the workflow reads, and the shapes of those records.
use vstd::prelude::*;

use crate::config::AppConfig;

verus! {

/// Where the issue tracker's API lives and how to log in to it.
#[derive(Debug, Clone)]
pub struct JiraApiConfiguration {
    pub api_url: String,
    pub auth_header: String,
}

/// An issue as the tracker returns it.
pub struct IssueResponse {
    /// The tracker's numeric identifier, in decimal.
    pub id: String,
    pub fields: IssueFieldsResponse,
}

pub struct IssueFieldsResponse {
    pub summary: String,
}

/// The logged-in account as the tracker returns it.
pub struct MyselfResponse {
    pub account_id: String,
}

/// The standard, padded base64 encoding of the UTF-8 bytes of a text.
pub uninterp spec fn base64_standard(text: Seq<char>) -> Seq<char>;

/// Relies on base64's `Engine::encode` with the `general_purpose::STANDARD`
/// engine: its output depends on the bytes of the input alone.
#[verifier::external_body]
fn encode_base64(text: &str) -> (r: String)
    ensures
        r@ == base64_standard(text@),
{
    base64::Engine::encode(&base64::engine::general_purpose::STANDARD, text)
}

pub open spec fn api_url_spec(host: Seq<char>) -> Seq<char> {
    host + "/rest/api/latest"@
}

pub open spec fn basic_auth_spec(encoded: Seq<char>) -> Seq<char> {
    "Basic "@ + encoded
}

pub open spec fn credentials_spec(username: Seq<char>, password: Seq<char>) -> Seq<char> {
    username + ":"@ + password
}

pub open spec fn issue_path_spec(api_url: Seq<char>, key: Seq<char>) -> Seq<char> {
    api_url + "/issue/"@ + key
}

pub open spec fn myself_path_spec(api_url: Seq<char>) -> Seq<char> {
    api_url + "/myself"@
}

/// The value of a basic-authentication header for already encoded credentials.
pub fn basic_auth_header(encoded: &str) -> (r: String)
    ensures
        r@ == basic_auth_spec(encoded@),
{
    let mut header = String::from_str("Basic ");
    header.append(encoded);
    header
}

impl AppConfig {
    /// The base address of the tracker's REST API.
    pub fn format_api_url(&self) -> (r: String)
        ensures
            r@ == api_url_spec(self.jira_host@),
    {
        let mut url = self.jira_host.clone();
        url.append("/rest/api/latest");
        url
    }

    /// The basic-authentication header for the configured username and password.
    pub fn format_auth_header(&self) -> (r: String)
        ensures
            r@ == basic_auth_spec(
                base64_standard(credentials_spec(self.jira_username@, self.jira_password@)),
            ),
    {
        let mut credentials = self.jira_username.clone();
        credentials.append(":");
        credentials.append(self.jira_password.as_str());
        let encoded = encode_base64(credentials.as_str());
        basic_auth_header(encoded.as_str())
    }
}

/// The API address and login header that every tracker request carries.
pub fn load_api_config(config: &AppConfig) -> (r: JiraApiConfiguration)
    ensures
        r.api_url@ == api_url_spec(config.jira_host@),
        r.auth_header@ == basic_auth_spec(
            base64_standard(credentials_spec(config.jira_username@, config.jira_password@)),
        ),
{
    JiraApiConfiguration { api_url: config.format_api_url(), auth_header: config.format_auth_header() }
}

impl JiraApiConfiguration {
    /// The address of the issue `issue_key`.
    pub fn issue_path(&self, issue_key: &str) -> (r: String)
        ensures
            r@ == issue_path_spec(self.api_url@, issue_key@),
    {
        let mut path = self.api_url.clone();
        path.append("/issue/");
        path.append(issue_key);
        path
    }

    /// The address of the logged-in account.
    pub fn myself_path(&self) -> (r: String)
        ensures
            r@ == myself_path_spec(self.api_url@),
    {
        let mut path = self.api_url.clone();
        path.append("/myself");
        path
    }
}

} // verus!
