//! The settings of the sync engine that the dashboard shows.

use vstd::prelude::*;

use crate::text::texts;

verus! {

/// The registered user.
#[derive(Debug)]
pub struct User {
    pub name: String,
    pub email: String,
}

/// Where the engine listens and whom it asks first.
#[derive(Debug)]
pub struct Network {
    pub listen_port: u16,
    pub listen_address: String,
    pub bootstrap_nodes: Vec<String>,
    pub relay_servers: Vec<String>,
}

/// How the engine synchronises.
#[derive(Debug)]
pub struct SyncSettings {
    pub enable_mdns: bool,
    pub enable_relay: bool,
    pub heartbeat_interval_secs: u64,
    pub max_message_size: u64,
}

/// The settings of the sync engine.
#[derive(Debug)]
pub struct Config {
    /// Path of the SQLite database.
    pub db_path: String,
    /// Path of the log file.
    pub log_file: String,
    pub user: Option<User>,
    pub network: Network,
    pub sync: SyncSettings,
}

/// What a [`User`] holds.
pub struct UserView {
    pub name: Seq<char>,
    pub email: Seq<char>,
}

/// What a [`Network`] holds.
pub struct NetworkView {
    pub listen_port: int,
    pub listen_address: Seq<char>,
    pub bootstrap_nodes: Seq<Seq<char>>,
    pub relay_servers: Seq<Seq<char>>,
}

/// What a [`Config`] holds.
pub struct ConfigView {
    pub db_path: Seq<char>,
    pub log_file: Seq<char>,
    pub user: Option<UserView>,
    pub network: NetworkView,
    pub sync: SyncSettings,
}

impl View for User {
    type V = UserView;

    open spec fn view(&self) -> UserView {
        UserView { name: self.name@, email: self.email@ }
    }
}

impl View for Network {
    type V = NetworkView;

    open spec fn view(&self) -> NetworkView {
        NetworkView {
            listen_port: self.listen_port as int,
            listen_address: self.listen_address@,
            bootstrap_nodes: texts(self.bootstrap_nodes@),
            relay_servers: texts(self.relay_servers@),
        }
    }
}

impl View for Config {
    type V = ConfigView;

    open spec fn view(&self) -> ConfigView {
        ConfigView {
            db_path: self.db_path@,
            log_file: self.log_file@,
            user: match self.user {
                Some(user) => Some(user@),
                None => None,
            },
            network: self.network@,
            sync: self.sync,
        }
    }
}

} // verus!
