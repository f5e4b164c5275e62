//! Where the daemon is and how to reach it.
use vstd::prelude::*;
use vstd::string::*;

use crate::text::{decimal, u64_to_string};

verus! {

/// Connection settings. Times are in milliseconds.
#[derive(Debug)]
pub struct RpcConfig {
    pub scheme: String,
    pub host: String,
    pub port: u16,
    pub path: String,
    pub username: Option<String>,
    pub password: Option<String>,
    pub timeout_ms: u64,
    pub verify_ssl: bool,
    pub user_agent: String,
    /// A full endpoint URL that overrides scheme, host, port and path.
    pub url: Option<String>,
}

/// Client settings. Times are in milliseconds; a zero poll interval turns
/// automatic refresh off.
#[derive(Debug)]
pub struct AppConfig {
    pub rpc: RpcConfig,
    pub poll_interval_ms: u64,
    pub log_level: String,
}

/// The endpoint: the URL when given, else `scheme://host:port/path` with the
/// path given a leading `/` when it lacks one.
pub open spec fn endpoint_of(c: RpcConfig) -> Seq<char> {
    match c.url {
        Some(u) => u@,
        None => c.scheme@ + "://"@ + c.host@ + ":"@ + decimal(c.port as nat) + (if c.path@.len()
            > 0 && c.path@[0] == '/' {
            c.path@
        } else {
            seq!['/'] + c.path@
        }),
    }
}

impl RpcConfig {
    pub fn endpoint(&self) -> (r: String)
        ensures
            r@ == endpoint_of(*self),
    {
        if let Some(url) = &self.url {
            return url.clone();
        }
        let mut s = self.scheme.clone();
        s.append("://");
        s.append(self.host.as_str());
        s.append(":");
        let port = u64_to_string(self.port as u64);
        s.append(port.as_str());
        let slash = self.path.as_str().unicode_len() > 0 && self.path.as_str().get_char(0) == '/';
        if !slash {
            s.append("/");
            proof {
                reveal_strlit("/");
            }
        }
        s.append(self.path.as_str());
        assert(s@ =~= endpoint_of(*self));
        s
    }
}

} // verus!
