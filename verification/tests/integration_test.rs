use irefined_launcher::cdp::{CdpClient, DiscoveryReply};
use irefined_launcher::config::Config;
use irefined_launcher::local_json::get_local_json_content;
use irefined_launcher::monitor::get_bootstrap_js;

#[test]
fn test_config_load_and_save_roundtrip() {
    let config = Config { iracing_path: "C:\\Test\\Path".into(), port: 9999 };
    assert_eq!(config.port, 9999);

    let (path, port) = config.entries();
    assert_eq!(path, "C:\\Test\\Path");
    assert_eq!(port, "9999");
    let back = Config::from_entries(Some(path), Some(port)).unwrap();
    assert_eq!(back.iracing_path, "C:\\Test\\Path");
    assert_eq!(back.port, 9999);
}

#[test]
fn test_bootstrap_js_is_valid() {
    let js = get_bootstrap_js();
    assert!(js.contains("setInterval"));
    assert!(js.len() > 100);
}

#[test]
fn test_local_json_is_valid_json() {
    let json_str = get_local_json_content();
    let parsed: serde_json::Value =
        serde_json::from_str(json_str).expect("local.json should be valid JSON");
    assert!(parsed.get("scorpioDebugPort").is_some());
}

#[test]
fn test_cdp_client_handles_invalid_port() {
    let client = CdpClient::new(19999);
    let result = client.get_websocket_url(&DiscoveryReply::Unreachable);
    assert!(result.is_none());
}
