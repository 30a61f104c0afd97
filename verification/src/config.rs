//! The settings that the service starts with.

use vstd::prelude::*;

verus! {

/// The port to listen on where none is given; it lies in the range that
/// is free for private use.
pub const DEFAULT_PORT: u16 = 59661;

/// An address to listen on.
#[derive(Debug, Clone)]
pub struct Listen {
    pub address: String,
    pub port: Option<u16>,
}

/// An address to listen on, as a plain value.
pub struct ListenView {
    pub address: Seq<char>,
    pub port: Option<u16>,
}

impl View for Listen {
    type V = ListenView;

    open spec fn view(&self) -> ListenView {
        ListenView { address: self.address@, port: self.port }
    }
}

impl Listen {
    /// The port to bind: the one given, or the default.
    pub fn port_or_default(&self) -> (port: u16)
        ensures
            port == match self.port {
                Some(p) => p,
                None => DEFAULT_PORT,
            },
    {
        match self.port {
            Some(p) => p,
            None => DEFAULT_PORT,
        }
    }
}

/// Where the policy engine finds its model and its rules.
#[derive(Debug, Clone)]
pub struct Access {
    pub model: String,
    pub policy: String,
}

/// The settings of the service.
#[derive(Debug, Clone)]
pub struct Config {
    /// Where the machines are stored.
    pub machinedb: String,
    /// Where the credentials are stored.
    pub passdb: String,
    pub access: Access,
    /// The addresses to listen on.
    pub listen: Vec<Listen>,
}

/// The settings as a plain value.
pub struct ConfigView {
    pub machinedb: Seq<char>,
    pub passdb: Seq<char>,
    pub model: Seq<char>,
    pub policy: Seq<char>,
    pub listen: Seq<ListenView>,
}

impl View for Config {
    type V = ConfigView;

    open spec fn view(&self) -> ConfigView {
        ConfigView {
            machinedb: self.machinedb@,
            passdb: self.passdb@,
            model: self.access.model@,
            policy: self.access.policy@,
            listen: Seq::new(self.listen@.len(), |i: int| self.listen@[i]@),
        }
    }
}

/// The settings used where none are given: every store under `/tmp`, and
/// the loopback addresses of both families on the default port.
pub open spec fn default_config() -> ConfigView {
    ConfigView {
        machinedb: "/tmp/machines.db"@,
        passdb: "/tmp/passwd.db"@,
        model: "/tmp/model.conf"@,
        policy: "/tmp/policy.csv"@,
        listen: seq![
            ListenView { address: "127.0.0.1"@, port: Some(DEFAULT_PORT) },
            ListenView { address: "::1"@, port: Some(DEFAULT_PORT) },
        ],
    }
}

impl Default for Config {
    fn default() -> (config: Config)
        ensures
            config@ == default_config(),
    {
        let mut listen: Vec<Listen> = Vec::new();
        listen.push(Listen { address: "127.0.0.1".to_owned(), port: Some(DEFAULT_PORT) });
        listen.push(Listen { address: "::1".to_owned(), port: Some(DEFAULT_PORT) });
        let config = Config {
            machinedb: "/tmp/machines.db".to_owned(),
            access: Access {
                model: "/tmp/model.conf".to_owned(),
                policy: "/tmp/policy.csv".to_owned(),
            },
            passdb: "/tmp/passwd.db".to_owned(),
            listen,
        };
        assert(config@.listen =~= default_config().listen);
        config
    }
}

} // verus!
