//! Settings of the server, from the command line and from a settings file.
use vstd::prelude::*;
use crate::node::MAINNET_MAGIC;

verus! {

pub const DEFAULT_HOST: &'static str = "127.0.0.1";
pub const DEFAULT_PORT: u16 = 3000;
pub const DEFAULT_NETWORK_MAGIC: u64 = MAINNET_MAGIC;

/// Settings given on the command line or in the environment, defaults filled in.
#[derive(Debug)]
pub struct CliArgs {
    pub config: Option<String>,
    pub host: String,
    pub port: u16,
    pub node_socket: Option<String>,
    pub network_magic: u64,
    pub log_level: String,
}

/// The settings file, each part optional.
#[derive(Debug, Default)]
pub struct FileConfig {
    pub server: Option<ServerConfig>,
    pub node: Option<NodeConfig>,
}

#[derive(Debug, Default)]
pub struct ServerConfig {
    pub host: Option<String>,
    pub port: Option<u16>,
}

#[derive(Debug, Default)]
pub struct NodeConfig {
    pub socket_path: Option<String>,
    pub network_magic: Option<u64>,
}

/// The settings the server runs with.
#[derive(Debug)]
pub struct Config {
    pub host: String,
    pub port: u16,
    pub node_socket: Option<String>,
    pub network_magic: u64,
    pub log_level: String,
}

pub open spec fn file_host(f: FileConfig) -> Option<String> {
    match f.server {
        Some(s) => s.host,
        None => None,
    }
}

pub open spec fn file_port(f: FileConfig) -> Option<u16> {
    match f.server {
        Some(s) => s.port,
        None => None,
    }
}

pub open spec fn file_socket(f: FileConfig) -> Option<String> {
    match f.node {
        Some(n) => n.socket_path,
        None => None,
    }
}

pub open spec fn file_magic(f: FileConfig) -> Option<u64> {
    match f.node {
        Some(n) => n.network_magic,
        None => None,
    }
}

impl Config {
    /// Merges the two sources. A command-line value that differs from its
    /// default wins; otherwise the file's value, else the default. The socket
    /// comes from the command line where given there, else from the file.
    pub fn merge(cli: CliArgs, file: FileConfig) -> (r: Config)
        ensures
            cli.host@ != DEFAULT_HOST@ ==> r.host == cli.host,
            cli.host@ == DEFAULT_HOST@ ==> (if file_host(file) is Some {
                r.host == file_host(file)->0
            } else {
                r.host@ == DEFAULT_HOST@
            }),
            r.port == (if cli.port != DEFAULT_PORT {
                cli.port
            } else {
                match file_port(file) {
                    Some(p) => p,
                    None => DEFAULT_PORT,
                }
            }),
            r.node_socket == (if cli.node_socket is Some {
                cli.node_socket
            } else {
                file_socket(file)
            }),
            r.network_magic == (if cli.network_magic != DEFAULT_NETWORK_MAGIC {
                cli.network_magic
            } else {
                match file_magic(file) {
                    Some(m) => m,
                    None => DEFAULT_NETWORK_MAGIC,
                }
            }),
            r.log_level == cli.log_level,
    {
        let (file_host, file_port) = match file.server {
            Some(s) => (s.host, s.port),
            None => (None, None),
        };
        let (file_socket, file_magic) = match file.node {
            Some(n) => (n.socket_path, n.network_magic),
            None => (None, None),
        };
        let default_host = DEFAULT_HOST.to_string();
        let host = if cli.host != default_host {
            cli.host
        } else {
            match file_host {
                Some(h) => h,
                None => default_host,
            }
        };
        let port = if cli.port != DEFAULT_PORT {
            cli.port
        } else {
            match file_port {
                Some(p) => p,
                None => DEFAULT_PORT,
            }
        };
        let node_socket = match cli.node_socket {
            Some(s) => Some(s),
            None => file_socket,
        };
        let network_magic = if cli.network_magic != DEFAULT_NETWORK_MAGIC {
            cli.network_magic
        } else {
            match file_magic {
                Some(m) => m,
                None => DEFAULT_NETWORK_MAGIC,
            }
        };
        Config { host, port, node_socket, network_magic, log_level: cli.log_level }
    }
}

} // verus!
