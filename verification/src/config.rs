//! Startup configuration, passed explicitly into the composing entry point
//! rather than baked in at build time.

use vstd::prelude::*;

verus! {

/// What the startup routine needs to bring the client up: the wireless
/// network's identity and credential, the protocol server's address, and the
/// account the authentication command presents. The core itself reads none of
/// these; the composing entry point feeds them to the platform's network
/// bring-up and to the first commands of the session.
pub struct Config {
    /// Identity of the wireless network to associate with.
    pub wifi_ssid: &'static str,
    /// Credential for the wireless network.
    pub wifi_psk: &'static str,
    /// Address (host and port) of the protocol server to connect to.
    pub tcp_server: &'static str,
    /// Account name the authentication command presents.
    pub username: &'static str,
    /// Account credential the authentication command presents.
    pub password: &'static str,
}

} // verus!
