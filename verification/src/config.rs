//! The settings that every request of a client is built from.

use vstd::prelude::*;

verus! {

/// Settings shared by every request of one client.
///
/// A value is never changed in place: to reconfigure, a whole new value is
/// bound to the client.
#[derive(Debug)]
pub struct Config {
    /// Name of the header that carries the authentication token.
    pub authentication_header_name: String,
    /// Token (API key) sent with every request, where the service asks for one.
    pub authentication_token: Option<String>,
    /// Name of the header that carries the authorization token.
    pub authorization_header_name: String,
    /// Token sent with every request, for the calls that need authorization.
    pub authorization_token: Option<String>,
    /// Whether the text fields of a submission travel base64 encoded.
    pub base64_encoded: bool,
    /// Whether the service is asked to answer only once a submission is done.
    pub wait: bool,
}

/// What a [`Config`] holds, as mathematical values.
pub struct ConfigView {
    pub authentication_header_name: Seq<char>,
    pub authentication_token: Option<Seq<char>>,
    pub authorization_header_name: Seq<char>,
    pub authorization_token: Option<Seq<char>>,
    pub base64_encoded: bool,
    pub wait: bool,
}

/// The characters of an optional string.
pub open spec fn optional_text(text: Option<String>) -> Option<Seq<char>> {
    match text {
        Some(t) => Some(t@),
        None => None,
    }
}

impl View for Config {
    type V = ConfigView;

    open spec fn view(&self) -> ConfigView {
        ConfigView {
            authentication_header_name: self.authentication_header_name@,
            authentication_token: optional_text(self.authentication_token),
            authorization_header_name: self.authorization_header_name@,
            authorization_token: optional_text(self.authorization_token),
            base64_encoded: self.base64_encoded,
            wait: self.wait,
        }
    }
}

impl ConfigView {
    /// The settings of a client that was never configured.
    pub open spec fn initial() -> ConfigView {
        ConfigView {
            authentication_header_name: "X-Auth-Token"@,
            authentication_token: None,
            authorization_header_name: "X-Auth-User"@,
            authorization_token: None,
            base64_encoded: false,
            wait: false,
        }
    }
}

impl Default for Config {
    fn default() -> (config: Config)
        ensures
            config@ == ConfigView::initial(),
    {
        Config {
            authentication_header_name: "X-Auth-Token".to_owned(),
            authentication_token: None,
            authorization_header_name: "X-Auth-User".to_owned(),
            authorization_token: None,
            base64_encoded: false,
            wait: false,
        }
    }
}

} // verus!
