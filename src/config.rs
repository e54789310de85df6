//! The gateway's settings, built once at start-up and passed to what needs them.
use crate::models::query::opt_str_view;
use vstd::prelude::*;

verus! {

/// Where the gateway listens and where its registry file is.
#[derive(Debug, PartialEq, Eq)]
pub struct ServerConfig {
    pub base_ip: String,
    pub base_port: String,
    pub rag_services_config: String,
}

/// `v` where it is given, else `d`.
pub open spec fn or_default(v: Option<Seq<char>>, d: Seq<char>) -> Seq<char> {
    match v {
        Some(s) => s,
        None => d,
    }
}

/// `v` where it is given, else the text `d`.
fn given_or(v: Option<String>, d: &str) -> (r: String)
    ensures
        r@ == or_default(opt_str_view(v), d@),
{
    match v {
        Some(s) => s,
        None => String::from_str(d),
    }
}

impl ServerConfig {
    /// The settings from the values that were given; each missing one takes its
    /// default: address `127.0.0.1`, port `9699`, registry file `rag_config.json`.
    pub fn from_values(
        base_ip: Option<String>,
        base_port: Option<String>,
        rag_services_config: Option<String>,
    ) -> (r: Self)
        ensures
            r.base_ip@ == or_default(opt_str_view(base_ip), "127.0.0.1"@),
            r.base_port@ == or_default(opt_str_view(base_port), "9699"@),
            r.rag_services_config@ == or_default(
                opt_str_view(rag_services_config),
                "rag_config.json"@,
            ),
    {
        ServerConfig {
            base_ip: given_or(base_ip, "127.0.0.1"),
            base_port: given_or(base_port, "9699"),
            rag_services_config: given_or(rag_services_config, "rag_config.json"),
        }
    }

    /// The address to listen on: `ip:port`.
    pub fn listen_address(&self) -> (r: String)
        ensures
            r@ == self.base_ip@ + ":"@ + self.base_port@,
    {
        let mut r = self.base_ip.clone();
        r.append(":");
        r.append(self.base_port.as_str());
        r
    }
}

} // verus!
