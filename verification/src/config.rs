//! Startup configuration: the values handed in from the process
//! environment, with the fixed fallbacks applied here.

use vstd::prelude::*;
use vstd::string::StringExecFns;

verus! {

/// Service credentials and addresses, read once at startup.
#[derive(Debug, Clone)]
pub struct Config {
    pub client_id: String,
    pub client_secret: String,
    pub redirect_uri: String,
    pub redis_url: String,
}

impl Config {
    /// Assemble the configuration: the credentials are required, the
    /// redirect and cache addresses fall back to the fixed defaults when
    /// the environment does not provide them.
    pub fn assemble(
        client_id: String,
        client_secret: String,
        redirect_uri: Option<String>,
        redis_url: Option<String>,
    ) -> (r: Config)
        ensures
            r.client_id == client_id,
            r.client_secret == client_secret,
            r.redirect_uri@ == match redirect_uri {
                Some(u) => u@,
                None => "http://127.0.0.1:8989/login"@,
            },
            r.redis_url@ == match redis_url {
                Some(u) => u@,
                None => "redis://127.0.0.1:6379"@,
            },
    {
        Config {
            client_id,
            client_secret,
            redirect_uri: match redirect_uri {
                Some(u) => u,
                None => String::from_str("http://127.0.0.1:8989/login"),
            },
            redis_url: match redis_url {
                Some(u) => u,
                None => String::from_str("redis://127.0.0.1:6379"),
            },
        }
    }
}

} // verus!
