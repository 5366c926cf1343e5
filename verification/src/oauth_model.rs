//! The provider-configuration model and the pure parts of account fetching:
//! fixed endpoints and scopes, primary-email selection, and token-expiry
//! arithmetic. The network exchange itself belongs to the surrounding
//! application.

use vstd::prelude::*;

verus! {

/// An authentication provider.
#[derive(Clone, Copy, Debug, PartialEq, Eq, Structural)]
pub enum OauthProvider {
    Github,
    Google,
}

/// A provider's client configuration: credentials, endpoints and scopes, as
/// plain values.
#[derive(Debug)]
pub struct OauthConfig {
    pub client_id: String,
    pub client_secret: String,
    pub auth_url: String,
    pub token_url: String,
    pub redirect_url: String,
    pub scopes: Vec<String>,
    pub provider: OauthProvider,
    pub revocation_url: Option<String>,
}

/// The Github provider configuration.
#[derive(Debug)]
pub struct GithubConfig {
    pub basic_config: OauthConfig,
}

impl GithubConfig {
    /// Builds the Github configuration: the fixed authorization and token
    /// endpoints and the three scopes the application asks for.
    pub fn new(client_id: String, client_secret: String, redirect_url: String) -> (r:
        GithubConfig)
        ensures
            r.basic_config.client_id@ == client_id@,
            r.basic_config.client_secret@ == client_secret@,
            r.basic_config.auth_url@ == "https://github.com/login/oauth/authorize"@,
            r.basic_config.token_url@ == "https://github.com/login/oauth/access_token"@,
            r.basic_config.redirect_url@ == redirect_url@,
            r.basic_config.scopes@.len() == 3,
            r.basic_config.scopes@[0]@ == "public_repo"@,
            r.basic_config.scopes@[1]@ == "read:user"@,
            r.basic_config.scopes@[2]@ == "user:email"@,
            r.basic_config.provider == OauthProvider::Github,
            r.basic_config.revocation_url is None,
    {
        proof {
            reveal_strlit("https://github.com/login/oauth/authorize");
            reveal_strlit("https://github.com/login/oauth/access_token");
            reveal_strlit("public_repo");
            reveal_strlit("read:user");
            reveal_strlit("user:email");
        }
        let mut scopes: Vec<String> = Vec::new();
        scopes.push(String::from_str("public_repo"));
        scopes.push(String::from_str("read:user"));
        scopes.push(String::from_str("user:email"));
        GithubConfig {
            basic_config: OauthConfig {
                client_id,
                client_secret,
                auth_url: String::from_str("https://github.com/login/oauth/authorize"),
                token_url: String::from_str("https://github.com/login/oauth/access_token"),
                redirect_url,
                scopes,
                provider: OauthProvider::Github,
                revocation_url: None,
            },
        }
    }

    /// The provider configuration.
    pub fn basic_config(&self) -> (r: &OauthConfig)
        ensures
            r == &self.basic_config,
    {
        &self.basic_config
    }
}

/// One e-mail address of a fetched account.
#[derive(Debug)]
pub struct OauthEmail {
    pub email: String,
    pub primary: bool,
    pub verified: bool,
}

/// Picks the account's e-mail: the first one marked primary, or the first
/// one at all; none where the list is empty.
pub fn pick_primary_email(emails: &Vec<OauthEmail>) -> (r: Option<usize>)
    ensures
        r is Some <==> emails@.len() > 0,
        r matches Some(i) ==> i < emails@.len(),
        r matches Some(i) ==> (emails@[i as int].primary || (i == 0 && forall|j: int|
            0 <= j < emails@.len() ==> !(#[trigger] emails@[j]).primary)),
        r matches Some(i) ==> forall|j: int| 0 <= j < i ==> !(#[trigger] emails@[j]).primary,
{
    let n = emails.len();
    let mut i: usize = 0;
    while i < n
        invariant
            n == emails@.len(),
            i <= n,
            forall|j: int| 0 <= j < i ==> !(#[trigger] emails@[j]).primary,
        decreases n - i,
    {
        if emails[i].primary {
            return Some(i);
        }
        i = i + 1;
    }
    if n > 0 {
        Some(0)
    } else {
        None
    }
}

/// The absolute expiry time of a token: the current time plus the grant's
/// lifetime (zero where none was granted), saturating at the largest
/// representable time.
pub open spec fn expiry_time(now_secs: int, expires_in_secs: int) -> int {
    if now_secs + expires_in_secs > i64::MAX {
        i64::MAX as int
    } else {
        now_secs + expires_in_secs
    }
}

/// Computes a token's absolute expiry time.
pub fn token_expires_at(now_secs: i64, expires_in_secs: Option<u64>) -> (r: i64)
    requires
        now_secs >= 0,
        expires_in_secs matches Some(e) ==> e <= i64::MAX,
    ensures
        (match expires_in_secs {
            Some(e) => r == expiry_time(now_secs as int, e as int),
            None => r == now_secs,
        }),
{
    let lifetime: u64 = match expires_in_secs {
        Some(e) => e,
        None => 0,
    };
    let wide: i128 = now_secs as i128 + lifetime as i128;
    if wide > i64::MAX as i128 {
        i64::MAX
    } else {
        wide as i64
    }
}

} // verus!
