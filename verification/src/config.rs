//! Endpoint configuration for the exchange connectivity engine: the REST base
//! host, the WebSocket base host, and the receive window handed along with
//! every signed request.

use vstd::prelude::*;

verus! {

/// Immutable endpoint configuration, injected at construction time into the
/// transport client and every streaming engine built from it.
#[derive(Clone, Debug)]
pub struct Config {
    pub rest_api_endpoint: String,
    pub ws_endpoint: String,
    pub recv_window: u64,
}

impl PartialEq for Config {
    fn eq(&self, other: &Config) -> (r: bool) {
        self.rest_api_endpoint == other.rest_api_endpoint && self.ws_endpoint
            == other.ws_endpoint && self.recv_window == other.recv_window
    }
}

impl vstd::std_specs::cmp::PartialEqSpecImpl for Config {
    open spec fn obeys_eq_spec() -> bool {
        true
    }

    open spec fn eq_spec(&self, other: &Config) -> bool {
        self.rest_api_endpoint@ == other.rest_api_endpoint@ && self.ws_endpoint@
            == other.ws_endpoint@ && self.recv_window == other.recv_window
    }
}

impl Config {
    /// Production endpoints and the stock receive window.
    pub fn default() -> (c: Config)
        ensures
            c.rest_api_endpoint@ == "https://api.binance.com"@,
            c.ws_endpoint@ == "wss://stream.binance.com:9443"@,
            c.recv_window == 5000u64,
    {
        Config {
            rest_api_endpoint: String::from_str("https://api.binance.com"),
            ws_endpoint: String::from_str("wss://stream.binance.com:9443"),
            recv_window: 5000,
        }
    }

    /// Testnet endpoints; the receive window keeps its stock value.
    pub fn testnet() -> (c: Config)
        ensures
            c.rest_api_endpoint@ == "https://testnet.binance.vision"@,
            c.ws_endpoint@ == "wss://testnet.binance.vision"@,
            c.recv_window == 5000u64,
    {
        Config::default()
            .set_rest_api_endpoint("https://testnet.binance.vision")
            .set_ws_endpoint("wss://testnet.binance.vision")
    }

    pub fn set_rest_api_endpoint(self, rest_api_endpoint: &str) -> (c: Config)
        ensures
            c.rest_api_endpoint@ == rest_api_endpoint@,
            c.ws_endpoint@ == self.ws_endpoint@,
            c.recv_window == self.recv_window,
    {
        Config { rest_api_endpoint: String::from_str(rest_api_endpoint), ..self }
    }

    pub fn set_ws_endpoint(self, ws_endpoint: &str) -> (c: Config)
        ensures
            c.rest_api_endpoint@ == self.rest_api_endpoint@,
            c.ws_endpoint@ == ws_endpoint@,
            c.recv_window == self.recv_window,
    {
        Config { ws_endpoint: String::from_str(ws_endpoint), ..self }
    }

    pub fn set_recv_window(self, recv_window: u64) -> (c: Config)
        ensures
            c.rest_api_endpoint@ == self.rest_api_endpoint@,
            c.ws_endpoint@ == self.ws_endpoint@,
            c.recv_window == recv_window,
    {
        Config { recv_window, ..self }
    }
}

} // verus!
