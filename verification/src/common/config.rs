//! Operator-wide configuration.

use crate::common::text::owned;
use vstd::prelude::*;

verus! {

/// The whole configuration of the operator.
#[derive(Debug, Clone)]
pub struct AppConfig {
    pub controller: ControllerConfig,
    pub webhook: WebhookConfig,
}

impl Default for AppConfig {
    fn default() -> (r: Self)
        ensures
            r.controller.is_default(),
            r.webhook.is_default(),
    {
        AppConfig { controller: ControllerConfig::default(), webhook: WebhookConfig::default() }
    }
}

/// What the controller falls back to where a bot leaves a value out.
#[derive(Debug, Clone)]
pub struct ControllerConfig {
    pub default_image_repo: String,
    pub default_image_tag: String,
}

impl ControllerConfig {
    /// The built-in values.
    pub open spec fn is_default(&self) -> bool {
        &&& self.default_image_repo@ == "freqtradeorg/freqtrade"@
        &&& self.default_image_tag@ == "stable"@
    }
}

impl Default for ControllerConfig {
    fn default() -> (r: Self)
        ensures
            r.is_default(),
    {
        ControllerConfig {
            default_image_repo: owned("freqtradeorg/freqtrade"),
            default_image_tag: owned("stable"),
        }
    }
}

/// Where the admission webhook listens.
#[derive(Debug, Clone)]
pub struct WebhookConfig {
    pub host: String,
    pub port: u16,
    pub tls: TLSConfig,
}

impl WebhookConfig {
    /// The built-in values.
    pub open spec fn is_default(&self) -> bool {
        &&& self.host@ == "0.0.0.0"@
        &&& self.port == 8443
        &&& self.tls.is_default()
    }
}

impl Default for WebhookConfig {
    fn default() -> (r: Self)
        ensures
            r.is_default(),
    {
        WebhookConfig { host: owned("0.0.0.0"), port: 8443, tls: TLSConfig::default() }
    }
}

/// The files that hold the webhook's TLS material.
#[derive(Debug, Clone)]
pub struct TLSConfig {
    pub cert_file: String,
    pub key_file: String,
}

impl TLSConfig {
    /// The built-in values.
    pub open spec fn is_default(&self) -> bool {
        &&& self.cert_file@ == "/etc/ssl/certs/tls.crt"@
        &&& self.key_file@ == "/etc/ssl/certs/tls.key"@
    }
}

impl Default for TLSConfig {
    fn default() -> (r: Self)
        ensures
            r.is_default(),
    {
        TLSConfig {
            cert_file: owned("/etc/ssl/certs/tls.crt"),
            key_file: owned("/etc/ssl/certs/tls.key"),
        }
    }
}

} // verus!
