//! The client's configuration.

use crate::request::{decimal, decimal_text, has_prefix};
use vstd::prelude::*;

verus! {

/// The address of an agent on this machine at its default port.
pub open spec fn local_address() -> Seq<char> {
    "http://localhost:8500"@
}

/// The address used when the environment names none.
pub open spec fn loopback_address() -> Seq<char> {
    "http://127.0.0.1:8500"@
}

/// The port of an agent when none is given.
pub const DEFAULT_PORT: u16 = 8500;

/// Where the agent is, and what goes with every request.
#[derive(Debug, Clone)]
pub struct Config {
    /// The agent's address, scheme included (`http://localhost:8500`).
    pub address: String,
    /// The datacenter that requests go to when their options name none.
    pub datacenter: Option<String>,
    /// The access token sent with every request.
    pub token: Option<String>,
    /// The default wait time of blocking reads, in seconds.
    pub wait_time: Option<u64>,
}

impl Config {
    /// An agent on this machine at its default port, without token.
    pub fn new() -> (r: Config)
        ensures
            r.address@ == local_address(),
            r.datacenter is None,
            r.token is None,
            r.wait_time is None,
    {
        Config {
            address: String::from_str("http://localhost:8500"),
            datacenter: None,
            token: None,
            wait_time: None,
        }
    }

    /// The configuration that the environment's address and token give:
    /// the address gets an `http://` in front unless it starts with `http`;
    /// without one, the agent on the loopback address is used.
    pub fn from_env_values(http_addr: Option<String>, http_token: Option<String>) -> (r: Config)
        ensures
            r.address@ == match http_addr {
                Some(a) => if a@.len() >= 4 && a@.subrange(0, 4) == "http"@ {
                    a@
                } else {
                    "http://"@ + a@
                },
                None => loopback_address(),
            },
            r.token == http_token,
            r.datacenter is None,
            r.wait_time is None,
    {
        let address = match http_addr {
            Some(a) => {
                if has_prefix(a.as_str(), "http") {
                    proof {
                        reveal_strlit("http");
                    }
                    a
                } else {
                    proof {
                        reveal_strlit("http");
                    }
                    let mut s = String::from_str("http://");
                    s.append(a.as_str());
                    s
                }
            },
            None => String::from_str("http://127.0.0.1:8500"),
        };
        Config { address, datacenter: None, token: http_token, wait_time: None }
    }

    /// An agent at `host`, on `port` or else the default port, with the
    /// given token.
    pub fn new_from_consul_host(host: &str, port: Option<u16>, token: Option<String>) -> (r:
        Config)
        ensures
            r.address@ == host@ + ":"@ + decimal(
                match port {
                    Some(p) => p as nat,
                    None => DEFAULT_PORT as nat,
                },
            ),
            r.token == token,
            r.datacenter is None,
            r.wait_time is None,
    {
        let p: u16 = match port {
            Some(p) => p,
            None => DEFAULT_PORT,
        };
        let mut address = String::from_str(host);
        address.append(":");
        let digits = decimal_text(p as u64);
        address.append(digits.as_str());
        Config { address, datacenter: None, token, wait_time: None }
    }
}

/// The endpoint traits are implemented by [`Client`] alone.
pub trait Sealed {}

impl Sealed for Client {}

/// A client of one agent.
#[derive(Debug, Clone)]
pub struct Client {
    pub config: Config,
}

impl Client {
    /// A client with the given configuration.
    pub fn new(config: Config) -> (r: Client)
        ensures
            r.config == config,
    {
        Client { config }
    }
}

} // verus!
