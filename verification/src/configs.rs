//! Authentication provider credentials as plain configuration values; how
//! they are loaded (environment, file) is the surrounding application's
//! concern.

use vstd::prelude::*;

verus! {

/// Google client credentials.
#[derive(Debug)]
pub struct OauthGoogleConfigs {
    pub google_client_id: String,
    pub google_client_secret: String,
}

impl OauthGoogleConfigs {
    /// Wraps the two credentials.
    pub fn new(google_client_id: String, google_client_secret: String) -> (r: OauthGoogleConfigs)
        ensures
            r.google_client_id@ == google_client_id@,
            r.google_client_secret@ == google_client_secret@,
    {
        OauthGoogleConfigs { google_client_id, google_client_secret }
    }
}

/// Github client credentials.
#[derive(Debug)]
pub struct OauthGithubConfigs {
    pub github_client_id: String,
    pub github_client_secret: String,
}

impl OauthGithubConfigs {
    /// Wraps the two credentials.
    pub fn new(github_client_id: String, github_client_secret: String) -> (r: OauthGithubConfigs)
        ensures
            r.github_client_id@ == github_client_id@,
            r.github_client_secret@ == github_client_secret@,
    {
        OauthGithubConfigs { github_client_id, github_client_secret }
    }
}

/// All provider credentials together.
#[derive(Debug)]
pub struct OauthConfigs {
    pub google: OauthGoogleConfigs,
    pub github: OauthGithubConfigs,
}

impl OauthConfigs {
    /// Wraps the per-provider credentials.
    pub fn new(google: OauthGoogleConfigs, github: OauthGithubConfigs) -> (r: OauthConfigs)
        ensures
            r.google == google,
            r.github == github,
    {
        OauthConfigs { google, github }
    }
}

} // verus!
