//! Builder for the MQTT client settings.
//!
//! The builder collects broker address, credentials and keep-alive; the
//! runtime turns the finished settings into a live client. A fresh builder
//! draws a random client identifier so that two unconfigured gateways never
//! collide on the broker.

use vstd::prelude::*;

use crate::config::MqttConfig;

verus! {

/// Builder for the connection settings of one MQTT client.
#[derive(Clone, Debug)]
pub struct ClientBuilder {
    pub host: String,
    pub port: u16,
    pub username: String,
    pub password: String,
    pub client_id: String,
    pub keep_alive_secs: u64,
}

/// Relies on rand's `Alphanumeric` distribution: sampling a string of a
/// requested length appends exactly that many ASCII alphanumeric
/// characters. The characters themselves are random, so nothing beyond the
/// length is promised.
#[verifier::external_body]
fn random_client_id() -> (r: String)
    ensures
        r@.len() == 12,
{
    rand::distr::SampleString::sample_string(&rand::distr::Alphanumeric, &mut rand::rng(), 12)
}

impl ClientBuilder {
    /// Start from a broker address: empty credentials, a ten-second
    /// keep-alive, and a freshly drawn twelve-character client identifier.
    pub fn new(host: &str, port: u16) -> (r: Self)
        ensures
            r.host@ == host@,
            r.port == port,
            r.username@.len() == 0,
            r.password@.len() == 0,
            r.client_id@.len() == 12,
            r.keep_alive_secs == 10,
    {
        ClientBuilder {
            host: host.to_owned(),
            port,
            username: String::new(),
            password: String::new(),
            client_id: random_client_id(),
            keep_alive_secs: 10,
        }
    }

    /// Take every connection setting from a configuration entry.
    pub fn with_config(self, config: &MqttConfig) -> (r: Self)
        ensures
            r.host == config.host,
            r.port == config.port,
            r.username == config.username,
            r.password == config.password,
            r.client_id == config.client_id,
            r.keep_alive_secs == config.keep_alive_secs,
    {
        ClientBuilder {
            host: config.host.clone(),
            port: config.port,
            username: config.username.clone(),
            password: config.password.clone(),
            client_id: config.client_id.clone(),
            keep_alive_secs: config.keep_alive_secs,
        }
    }

    /// Replace the username; everything else is kept.
    pub fn with_username(self, username: &str) -> (r: Self)
        ensures
            r.username@ == username@,
            r.host == self.host && r.port == self.port && r.password == self.password
                && r.client_id == self.client_id && r.keep_alive_secs == self.keep_alive_secs,
    {
        ClientBuilder { username: username.to_owned(), ..self }
    }

    /// Replace the password; everything else is kept.
    pub fn with_password(self, password: &str) -> (r: Self)
        ensures
            r.password@ == password@,
            r.host == self.host && r.port == self.port && r.username == self.username
                && r.client_id == self.client_id && r.keep_alive_secs == self.keep_alive_secs,
    {
        ClientBuilder { password: password.to_owned(), ..self }
    }

    /// Replace the client identifier; everything else is kept.
    pub fn with_client_id(self, client_id: &str) -> (r: Self)
        ensures
            r.client_id@ == client_id@,
            r.host == self.host && r.port == self.port && r.username == self.username
                && r.password == self.password && r.keep_alive_secs == self.keep_alive_secs,
    {
        ClientBuilder { client_id: client_id.to_owned(), ..self }
    }

    /// Replace the keep-alive interval, in seconds; everything else is
    /// kept. Zero disables the explicit keep-alive.
    pub fn with_keep_alive(self, keep_alive_secs: u64) -> (r: Self)
        ensures
            r == (ClientBuilder { keep_alive_secs, ..self }),
    {
        ClientBuilder { keep_alive_secs, ..self }
    }
}

} // verus!
