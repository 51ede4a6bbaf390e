//! The configuration that the service holds for its whole life: the signing
//! key and the host that serves the dashboards.

use crate::error::EmbedError;
use vstd::prelude::*;

verus! {

/// The signing key and the target host. Both are always present; either may
/// be any text.
pub struct Config {
    key: String,
    host: String,
}

/// What a `Config` holds, as plain text.
pub struct ConfigView {
    pub key: Seq<char>,
    pub host: Seq<char>,
}

impl View for Config {
    type V = ConfigView;

    closed spec fn view(&self) -> ConfigView {
        ConfigView { key: self.key@, host: self.host@ }
    }
}

impl Config {
    /// Makes the configuration from the two settings as they were found,
    /// `None` standing for one that is not set.
    ///
    /// Fails with `MissingConfiguration` if, and only if, either is missing.
    pub fn load(key: Option<String>, host: Option<String>) -> (r: Result<Config, EmbedError>)
        ensures
            match r {
                Ok(config) => key matches Some(k) && host matches Some(h) && config@.key == k@
                    && config@.host == h@,
                Err(e) => e == EmbedError::MissingConfiguration && (key is None || host is None),
            },
    {
        match key {
            Some(key) => match host {
                Some(host) => Ok(Config { key, host }),
                None => Err(EmbedError::MissingConfiguration),
            },
            None => Err(EmbedError::MissingConfiguration),
        }
    }

    /// The signing key.
    pub fn key(&self) -> (key: &str)
        ensures
            key@ == self@.key,
    {
        self.key.as_str()
    }

    /// The host that serves the dashboards.
    pub fn host(&self) -> (host: &str)
        ensures
            host@ == self@.host,
    {
        self.host.as_str()
    }
}

} // verus!
