//! The service's configuration and its defaults.

use vstd::prelude::*;

verus! {

/// The address of the store where the configuration names none.
pub open spec fn default_redis_url_text() -> Seq<char> {
    "redis://127.0.0.1:6379"@
}

/// The listen address where the configuration names none.
pub open spec fn default_listen_address_text() -> Seq<char> {
    "127.0.0.1:3000"@
}

/// `text`, or `fallback` where `text` is empty.
pub open spec fn or_default(text: Seq<char>, fallback: Seq<char>) -> Seq<char> {
    if text.len() == 0 {
        fallback
    } else {
        text
    }
}

/// The address of the store where the configuration names none.
pub fn default_redis_url() -> (url: String)
    ensures
        url@ == default_redis_url_text(),
{
    String::from_str("redis://127.0.0.1:6379")
}

/// The listen address where the configuration names none.
pub fn default_listen_address() -> (address: String)
    ensures
        address@ == default_listen_address_text(),
{
    String::from_str("127.0.0.1:3000")
}

/// Where the store is and where the service listens.
#[derive(Clone, Debug, PartialEq, Eq)]
pub struct Config {
    /// The address of the store.
    pub redis_url: String,
    /// The address to listen on, as text.
    pub listen_address: String,
}

/// The model of a `Config`.
pub struct ConfigView {
    pub redis_url: Seq<char>,
    pub listen_address: Seq<char>,
}

impl View for Config {
    type V = ConfigView;

    open spec fn view(&self) -> ConfigView {
        ConfigView { redis_url: self.redis_url@, listen_address: self.listen_address@ }
    }
}

impl Config {
    /// The configuration with both addresses as given, and the default in place
    /// of each that is empty.
    pub fn new(redis_url: String, listen_address: String) -> (config: Config)
        ensures
            config@.redis_url == or_default(redis_url@, default_redis_url_text()),
            config@.listen_address == or_default(listen_address@, default_listen_address_text()),
    {
        let redis_url = if redis_url.as_str().is_empty() {
            default_redis_url()
        } else {
            redis_url
        };
        let listen_address = if listen_address.as_str().is_empty() {
            default_listen_address()
        } else {
            listen_address
        };
        Config { redis_url, listen_address }
    }
}

impl Default for Config {
    /// The configuration that names nothing: both defaults.
    fn default() -> (config: Config)
        ensures
            config@.redis_url == default_redis_url_text(),
            config@.listen_address == default_listen_address_text(),
    {
        Config { redis_url: default_redis_url(), listen_address: default_listen_address() }
    }
}

} // verus!
