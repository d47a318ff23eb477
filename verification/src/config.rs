//! Compiled-in configuration defaults, threaded explicitly through the
//! startup sequence instead of living in ambient global state. A field
//! holding the placeholder value counts as not configured.

use vstd::prelude::*;

verus! {

/// The compiled-in configuration: network and remote-service credentials a
/// build may bake in for development, each a single-space placeholder by
/// default.
#[derive(Clone, Copy, Debug)]
pub struct Config {
    pub wifi_ssid: &'static str,
    pub wifi_pass: &'static str,
    pub dexcom_user: &'static str,
    pub dexcom_pass: &'static str,
}

impl Config {
    /// The default build: every field the single-space placeholder.
    pub fn new() -> (c: Self)
        ensures
            c.wifi_ssid@ == " "@,
            c.wifi_pass@ == " "@,
            c.dexcom_user@ == " "@,
            c.dexcom_pass@ == " "@,
    {
        Config { wifi_ssid: " ", wifi_pass: " ", dexcom_user: " ", dexcom_pass: " " }
    }
}

} // verus!
