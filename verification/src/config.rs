//! The settings of the login flow, and the checked configuration that is
//! made of them.

use vstd::prelude::*;
use crate::error::{ConfigFault, LoginError, Setting};

verus! {

/// Google's authorization endpoint, used where no other is configured.
pub const DEFAULT_AUTH_URL: &'static str = "https://accounts.google.com/o/oauth2/v2/auth";

/// Google's token endpoint, used where no other is configured.
pub const DEFAULT_TOKEN_URL: &'static str = "https://www.googleapis.com/oauth2/v3/token";

/// Whether the `url` crate's parser accepts `text` as a URL.
pub uninterp spec fn url_parses(text: Seq<char>) -> bool;

/// Calls `url::Url::parse` (as re-exported by `oauth2`) and reports whether
/// it succeeded.
///
/// Trusted: the answer is a function of the text alone, named
/// [`url_parses`]. `oauth2`'s `AuthUrl::new`, `TokenUrl::new` and
/// `RedirectUrl::new` succeed on exactly the texts on which this parser
/// does, since each of them is that one call.
#[verifier::external_body]
fn url_is_valid(text: &str) -> (ok: bool)
    ensures
        ok == url_parses(text@),
{
    oauth2::url::Url::parse(text).is_ok()
}

/// The five settings as they were found, each present or absent. A host
/// fills this from its environment; see [`Setting::variable`] for the names.
#[derive(Clone, Debug, PartialEq, Eq)]
pub struct Environment {
    pub client_id: Option<String>,
    pub client_secret: Option<String>,
    pub redirect_url: Option<String>,
    pub auth_url: Option<String>,
    pub token_url: Option<String>,
}

/// The settings of an [`Environment`] as texts.
pub struct EnvironmentView {
    pub client_id: Option<Seq<char>>,
    pub client_secret: Option<Seq<char>>,
    pub redirect_url: Option<Seq<char>>,
    pub auth_url: Option<Seq<char>>,
    pub token_url: Option<Seq<char>>,
}

/// The text of an optional string.
pub open spec fn text_of(value: Option<String>) -> Option<Seq<char>> {
    match value {
        Some(s) => Some(s@),
        None => None,
    }
}

impl View for Environment {
    type V = EnvironmentView;

    open spec fn view(&self) -> EnvironmentView {
        EnvironmentView {
            client_id: text_of(self.client_id),
            client_secret: text_of(self.client_secret),
            redirect_url: text_of(self.redirect_url),
            auth_url: text_of(self.auth_url),
            token_url: text_of(self.token_url),
        }
    }
}

impl EnvironmentView {
    /// The value found for a setting, if any.
    pub open spec fn get(self, setting: Setting) -> Option<Seq<char>> {
        match setting {
            Setting::ClientId => self.client_id,
            Setting::ClientSecret => self.client_secret,
            Setting::RedirectUrl => self.redirect_url,
            Setting::AuthUrl => self.auth_url,
            Setting::TokenUrl => self.token_url,
        }
    }

    /// The authorization endpoint in force: the configured one, else Google's.
    pub open spec fn effective_auth_url(self) -> Seq<char> {
        match self.auth_url {
            Some(url) => url,
            None => DEFAULT_AUTH_URL@,
        }
    }

    /// The token endpoint in force: the configured one, else Google's.
    pub open spec fn effective_token_url(self) -> Seq<char> {
        match self.token_url {
            Some(url) => url,
            None => DEFAULT_TOKEN_URL@,
        }
    }

    /// The first thing wrong with these settings, if anything is. Presence
    /// of the three required settings is looked at first, in the order
    /// client id, client secret, redirect URL; then the URLs, in the order
    /// authorization endpoint, token endpoint, redirect URL.
    pub open spec fn fault(self) -> Option<ConfigFault> {
        if self.client_id is None {
            Some(ConfigFault::Missing(Setting::ClientId))
        } else if self.client_secret is None {
            Some(ConfigFault::Missing(Setting::ClientSecret))
        } else if self.redirect_url is None {
            Some(ConfigFault::Missing(Setting::RedirectUrl))
        } else if !url_parses(self.effective_auth_url()) {
            Some(ConfigFault::InvalidUrl(Setting::AuthUrl))
        } else if !url_parses(self.effective_token_url()) {
            Some(ConfigFault::InvalidUrl(Setting::TokenUrl))
        } else if !url_parses(self.redirect_url->0) {
            Some(ConfigFault::InvalidUrl(Setting::RedirectUrl))
        } else {
            None
        }
    }

    /// The configuration that faultless settings make.
    pub open spec fn resolved(self) -> ClientConfigView {
        ClientConfigView {
            client_id: self.client_id->0,
            client_secret: self.client_secret->0,
            auth_url: self.effective_auth_url(),
            token_url: self.effective_token_url(),
            redirect_url: self.redirect_url->0,
        }
    }
}

/// A configuration as texts.
pub struct ClientConfigView {
    pub client_id: Seq<char>,
    pub client_secret: Seq<char>,
    pub auth_url: Seq<char>,
    pub token_url: Seq<char>,
    pub redirect_url: Seq<char>,
}

impl ClientConfigView {
    /// All three URLs of the configuration parse.
    pub open spec fn urls_parse(self) -> bool {
        &&& url_parses(self.auth_url)
        &&& url_parses(self.token_url)
        &&& url_parses(self.redirect_url)
    }
}

/// A complete configuration of the login flow. It can only be made by
/// [`google_oauth_client`], so its three URLs always parse.
#[derive(Debug, PartialEq, Eq)]
pub struct ClientConfig {
    client_id: String,
    client_secret: String,
    auth_url: String,
    token_url: String,
    redirect_url: String,
}

impl View for ClientConfig {
    type V = ClientConfigView;

    closed spec fn view(&self) -> ClientConfigView {
        ClientConfigView {
            client_id: self.client_id@,
            client_secret: self.client_secret@,
            auth_url: self.auth_url@,
            token_url: self.token_url@,
            redirect_url: self.redirect_url@,
        }
    }
}

impl Clone for ClientConfig {
    fn clone(&self) -> (copy: Self)
        ensures
            copy@ == self@,
    {
        proof {
            use_type_invariant(self);
        }
        ClientConfig {
            client_id: self.client_id.clone(),
            client_secret: self.client_secret.clone(),
            auth_url: self.auth_url.clone(),
            token_url: self.token_url.clone(),
            redirect_url: self.redirect_url.clone(),
        }
    }
}

impl ClientConfig {
    #[verifier::type_invariant]
    spec fn well_formed(self) -> bool {
        self@.urls_parse()
    }

    /// The client identifier registered with the provider.
    pub fn client_id(&self) -> (r: &String)
        ensures
            r@ == self@.client_id,
    {
        &self.client_id
    }

    /// The client secret registered with the provider.
    pub fn client_secret(&self) -> (r: &String)
        ensures
            r@ == self@.client_secret,
    {
        &self.client_secret
    }

    /// The authorization endpoint.
    pub fn auth_url(&self) -> (r: &String)
        ensures
            r@ == self@.auth_url,
            url_parses(r@),
    {
        proof {
            use_type_invariant(self);
        }
        &self.auth_url
    }

    /// The token endpoint.
    pub fn token_url(&self) -> (r: &String)
        ensures
            r@ == self@.token_url,
            url_parses(r@),
    {
        proof {
            use_type_invariant(self);
        }
        &self.token_url
    }

    /// The URL to which the provider sends the visitor back.
    pub fn redirect_url(&self) -> (r: &String)
        ensures
            r@ == self@.redirect_url,
            url_parses(r@),
    {
        proof {
            use_type_invariant(self);
        }
        &self.redirect_url
    }
}

/// A configuration cannot be made without a required setting, and the
/// lack of an endpoint setting alone never stands in its way: where the
/// settings are faultless, Google's endpoint is in force for each endpoint
/// that was not set.
pub proof fn lemma_required_settings_and_defaults(env: EnvironmentView, setting: Setting)
    requires
        env.get(setting) is None,
    ensures
        setting.is_required() ==> env.fault() matches Some(ConfigFault::Missing(_)),
        !setting.is_required() ==> env.fault() != Some(ConfigFault::Missing(setting)),
        env.fault() is None && setting == Setting::AuthUrl ==> env.resolved().auth_url
            == DEFAULT_AUTH_URL@,
        env.fault() is None && setting == Setting::TokenUrl ==> env.resolved().token_url
            == DEFAULT_TOKEN_URL@,
{
}

/// The value of an endpoint setting, or the default where none was found.
fn or_default(found: Option<String>, default: &'static str) -> (url: String)
    ensures
        url@ == (match found {
            Some(s) => s@,
            None => default@,
        }),
{
    match found {
        Some(url) => url,
        None => default.to_owned(),
    }
}

/// Makes the configuration from the settings found.
///
/// Fails when one of client id, client secret and redirect URL is absent,
/// or when one of the three URLs does not parse; [`EnvironmentView::fault`]
/// says which fault is reported where there are several. An absent endpoint
/// setting is no fault: Google's endpoint takes its place.
pub fn google_oauth_client(env: Environment) -> (r: Result<ClientConfig, LoginError>)
    ensures
        match env@.fault() {
            Some(fault) => r == Err::<ClientConfig, LoginError>(LoginError::Configuration(fault)),
            None => r matches Ok(config) && config@ == env@.resolved(),
        },
{
    let Environment { client_id, client_secret, redirect_url, auth_url, token_url } = env;
    let client_id = match client_id {
        Some(value) => value,
        None => return Err(LoginError::Configuration(ConfigFault::Missing(Setting::ClientId))),
    };
    let client_secret = match client_secret {
        Some(value) => value,
        None => return Err(LoginError::Configuration(ConfigFault::Missing(Setting::ClientSecret))),
    };
    let redirect_url = match redirect_url {
        Some(value) => value,
        None => return Err(LoginError::Configuration(ConfigFault::Missing(Setting::RedirectUrl))),
    };
    let auth_url = or_default(auth_url, DEFAULT_AUTH_URL);
    let token_url = or_default(token_url, DEFAULT_TOKEN_URL);
    if !url_is_valid(auth_url.as_str()) {
        return Err(LoginError::Configuration(ConfigFault::InvalidUrl(Setting::AuthUrl)));
    }
    if !url_is_valid(token_url.as_str()) {
        return Err(LoginError::Configuration(ConfigFault::InvalidUrl(Setting::TokenUrl)));
    }
    if !url_is_valid(redirect_url.as_str()) {
        return Err(LoginError::Configuration(ConfigFault::InvalidUrl(Setting::RedirectUrl)));
    }
    Ok(ClientConfig { client_id, client_secret, auth_url, token_url, redirect_url })
}

} // verus!
