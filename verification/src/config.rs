//! The configuration that the relay consults: where the server listens and,
//! when the bot is set up for the hosting platform, who it is and whom it
//! obeys.

use std::sync::Arc;
use vstd::prelude::*;

verus! {

/// Where the HTTP server listens.
#[derive(Debug)]
pub struct Server {
    pub host: String,
    pub port: Option<u16>,
}

/// The bot's identity on the hosting platform.
#[derive(Debug)]
pub struct Github {
    pub username: String,
    pub authorized: Vec<String>,
    pub api: Option<String>,
    pub token: Option<String>,
    pub webhook_secret: Option<String>,
}

/// Everything that was configured.
#[derive(Debug)]
pub struct Inner {
    pub github: Option<Github>,
    pub server: Server,
}

/// A handle on the configuration; clones share one `Inner`.
#[derive(Clone, Debug)]
pub struct Config(Arc<Inner>);

/// The platform's standard API host, used when none is configured.
pub open spec fn default_api() -> Seq<char> {
    "https://api.github.com"@
}

impl Inner {
    /// The bot's user name; empty when the bot is not set up.
    pub open spec fn name(self) -> Seq<char> {
        match self.github {
            Some(g) => g.username@,
            None => Seq::empty(),
        }
    }

    /// The logins whose commands the bot obeys, as configured.
    pub open spec fn authorized(self) -> Seq<Seq<char>> {
        match self.github {
            Some(g) => g.authorized.deep_view(),
            None => Seq::empty(),
        }
    }

    /// The base URL of the platform's API.
    pub open spec fn api(self) -> Seq<char> {
        match self.github {
            Some(g) => match g.api {
                Some(api) => api@,
                None => default_api(),
            },
            None => default_api(),
        }
    }

    /// The bearer token for outbound calls, if one is configured.
    pub open spec fn token(self) -> Option<Seq<char>> {
        match self.github {
            Some(g) => match g.token {
                Some(t) => Some(t@),
                None => None,
            },
            None => None,
        }
    }

    /// The secret shared with the platform for signing deliveries, if any.
    pub open spec fn webhook_secret(self) -> Option<Seq<char>> {
        match self.github {
            Some(g) => match g.webhook_secret {
                Some(s) => Some(s@),
                None => None,
            },
            None => None,
        }
    }

    /// The port to bind; zero lets the system choose.
    pub open spec fn port(self) -> u16 {
        match self.server.port {
            Some(p) => p,
            None => 0,
        }
    }
}

impl View for Config {
    type V = Inner;

    closed spec fn view(&self) -> Inner {
        *self.0
    }
}

impl Config {
    pub fn new(inner: Inner) -> (config: Config)
        ensures
            config@ == inner,
    {
        Config(Arc::new(inner))
    }

    pub fn server_host(&self) -> (host: &str)
        ensures
            host@ == self@.server.host@,
    {
        self.0.server.host.as_str()
    }

    pub fn server_port(&self) -> (port: u16)
        ensures
            port == self@.port(),
    {
        match self.0.server.port {
            Some(p) => p,
            None => 0,
        }
    }

    pub fn github_name(&self) -> (name: &str)
        ensures
            name@ == self@.name(),
    {
        match &self.0.github {
            Some(g) => g.username.as_str(),
            None => {
                proof {
                    reveal_strlit("");
                }
                assert(""@ =~= Seq::<char>::empty());
                ""
            },
        }
    }

    pub fn github_authorized(&self) -> (logins: &[String])
        ensures
            logins.deep_view() == self@.authorized(),
    {
        match &self.0.github {
            Some(g) => g.authorized.as_slice(),
            None => {
                let none: &[String] = &[];
                assert(none.deep_view() =~= Seq::<Seq<char>>::empty());
                none
            },
        }
    }

    pub fn github_api(&self) -> (api: &str)
        ensures
            api@ == self@.api(),
    {
        match &self.0.github {
            Some(g) => match &g.api {
                Some(api) => api.as_str(),
                None => "https://api.github.com",
            },
            None => "https://api.github.com",
        }
    }

    pub fn github_token(&self) -> (token: Option<&str>)
        ensures
            token is Some == self@.token() is Some,
            token matches Some(t) ==> self@.token() == Some(t@),
    {
        match &self.0.github {
            Some(g) => match &g.token {
                Some(t) => Some(t.as_str()),
                None => None,
            },
            None => None,
        }
    }

    pub fn github_webhook_secret(&self) -> (secret: Option<&str>)
        ensures
            secret is Some == self@.webhook_secret() is Some,
            secret matches Some(s) ==> self@.webhook_secret() == Some(s@),
    {
        match &self.0.github {
            Some(g) => match &g.webhook_secret {
                Some(s) => Some(s.as_str()),
                None => None,
            },
            None => None,
        }
    }
}

} // verus!
