//! What can go wrong during a login, and how a host should answer for it.

use vstd::prelude::*;

verus! {

/// One of the five settings of the login flow.
#[derive(Clone, Copy, Debug, PartialEq, Eq, Structural)]
pub enum Setting {
    ClientId,
    ClientSecret,
    RedirectUrl,
    AuthUrl,
    TokenUrl,
}

impl Setting {
    /// The name of the environment variable that holds this setting.
    pub open spec fn variable_name(self) -> Seq<char> {
        match self {
            Setting::ClientId => "GOOGLE_CLIENT_ID"@,
            Setting::ClientSecret => "GOOGLE_CLIENT_SECRET"@,
            Setting::RedirectUrl => "GOOGLE_REDIRECT_URL"@,
            Setting::AuthUrl => "GOOGLE_AUTH_URL"@,
            Setting::TokenUrl => "TOKEN_URL"@,
        }
    }

    /// Whether a configuration without this setting is refused. The two
    /// endpoint settings have defaults; the other three do not.
    pub open spec fn is_required(self) -> bool {
        self is ClientId || self is ClientSecret || self is RedirectUrl
    }

    /// The environment variable to read this setting from.
    pub fn variable(&self) -> (name: &'static str)
        ensures
            name@ == self.variable_name(),
    {
        match self {
            Setting::ClientId => "GOOGLE_CLIENT_ID",
            Setting::ClientSecret => "GOOGLE_CLIENT_SECRET",
            Setting::RedirectUrl => "GOOGLE_REDIRECT_URL",
            Setting::AuthUrl => "GOOGLE_AUTH_URL",
            Setting::TokenUrl => "TOKEN_URL",
        }
    }

    /// Tells whether the setting must be present.
    pub fn required(&self) -> (r: bool)
        ensures
            r == self.is_required(),
    {
        match self {
            Setting::ClientId | Setting::ClientSecret | Setting::RedirectUrl => true,
            Setting::AuthUrl | Setting::TokenUrl => false,
        }
    }
}

/// Why a set of settings was refused.
#[derive(Clone, Copy, Debug, PartialEq, Eq, Structural)]
pub enum ConfigFault {
    /// A required setting is absent.
    Missing(Setting),
    /// The value of a URL setting is not a syntactically valid URL.
    InvalidUrl(Setting),
}

/// The ways in which a login fails. Each is reported to the caller as a
/// value; none of them ends the process.
#[derive(Clone, Copy, Debug, PartialEq, Eq, Structural)]
pub enum LoginError {
    /// The configuration is incomplete or malformed.
    Configuration(ConfigFault),
    /// The token endpoint could not be reached, refused the code, or answered
    /// with something that is no token.
    TokenExchange,
    /// The profile endpoint could not be reached or answered outside 2xx.
    ProfileFetch,
    /// The profile endpoint's answer does not hold a profile.
    Deserialization,
    /// An outside call did not answer in time.
    Timeout,
    /// The callback echoes another anti-forgery token than the one issued.
    InvalidState,
}

impl LoginError {
    /// The HTTP status that answers for this failure: 500 where the service
    /// itself is misconfigured, 502 where the provider failed, 504 where it
    /// did not answer in time, 400 where the visitor's request is at fault.
    pub open spec fn status_of(self) -> u16 {
        match self {
            LoginError::Configuration(_) => 500,
            LoginError::TokenExchange => 502,
            LoginError::ProfileFetch => 502,
            LoginError::Deserialization => 502,
            LoginError::Timeout => 504,
            LoginError::InvalidState => 400,
        }
    }

    /// The HTTP status with which a host should answer.
    pub fn http_status(&self) -> (status: u16)
        ensures
            status == self.status_of(),
            400 <= status < 600,
    {
        match self {
            LoginError::Configuration(_) => 500,
            LoginError::TokenExchange => 502,
            LoginError::ProfileFetch => 502,
            LoginError::Deserialization => 502,
            LoginError::Timeout => 504,
            LoginError::InvalidState => 400,
        }
    }
}

} // verus!
