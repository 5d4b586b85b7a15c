use cardano_mcp_server::config::{CliArgs, Config, FileConfig, NodeConfig, ServerConfig};

fn cli(host: &str, port: u16, socket: Option<&str>, magic: u64) -> CliArgs {
    CliArgs {
        config: None,
        host: host.to_string(),
        port,
        node_socket: socket.map(|s| s.to_string()),
        network_magic: magic,
        log_level: "info".to_string(),
    }
}

fn file() -> FileConfig {
    FileConfig {
        server: Some(ServerConfig { host: Some("0.0.0.0".to_string()), port: Some(8080) }),
        node: Some(NodeConfig { socket_path: Some("/file.socket".to_string()), network_magic: Some(2) }),
    }
}

#[test]
fn defaults_give_way_to_file() {
    let c = Config::merge(cli("127.0.0.1", 3000, None, 764824073), file());
    assert_eq!(c.host, "0.0.0.0");
    assert_eq!(c.port, 8080);
    assert_eq!(c.node_socket.as_deref(), Some("/file.socket"));
    assert_eq!(c.network_magic, 2);
    assert_eq!(c.log_level, "info");
}

#[test]
fn explicit_values_win_over_file() {
    let c = Config::merge(cli("10.0.0.1", 4000, Some("/cli.socket"), 1), file());
    assert_eq!(c.host, "10.0.0.1");
    assert_eq!(c.port, 4000);
    assert_eq!(c.node_socket.as_deref(), Some("/cli.socket"));
    assert_eq!(c.network_magic, 1);
}

#[test]
fn empty_file_keeps_defaults() {
    let c = Config::merge(cli("127.0.0.1", 3000, None, 764824073), FileConfig::default());
    assert_eq!(c.host, "127.0.0.1");
    assert_eq!(c.port, 3000);
    assert_eq!(c.node_socket, None);
    assert_eq!(c.network_magic, 764824073);
}
