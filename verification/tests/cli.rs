use jolt_testing::cli::HostArgs;

fn args(network: &str, rpc_url: Option<&str>) -> HostArgs {
    HostArgs { tx_hash: None, network: network.to_string(), rpc_url: rpc_url.map(|s| s.to_string()) }
}

#[test]
fn network_selects_public_endpoint() {
    assert_eq!(HostArgs::default_rpc_url_for_network("mainnet"), "https://mainnet.ckb.dev");
    assert_eq!(HostArgs::default_rpc_url_for_network("TestNet"), "https://testnet.ckb.dev");
    assert_eq!(HostArgs::default_rpc_url_for_network("testnet"), "https://testnet.ckb.dev");
    assert_eq!(HostArgs::default_rpc_url_for_network("devnet"), "https://mainnet.ckb.dev");
    assert_eq!(HostArgs::default_rpc_url_for_network(""), "https://mainnet.ckb.dev");
}

#[test]
fn given_endpoint_wins() {
    assert_eq!(args("testnet", Some("http://127.0.0.1:8114")).effective_rpc_url(), "http://127.0.0.1:8114");
    assert_eq!(args("testnet", None).effective_rpc_url(), "https://testnet.ckb.dev");
}

#[test]
fn config_carries_network_and_endpoint() {
    let c = args("Testnet", None).as_config();
    assert_eq!(c.network, "Testnet");
    assert_eq!(c.rpc_url, "https://testnet.ckb.dev");
}
