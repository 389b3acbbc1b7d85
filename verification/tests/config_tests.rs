use orion_rpc::config::{AppConfig, APP_NAME, CURRENT_APP_VERSION, REPO_NAME, REPO_OWNER, REPO_URL};

#[test]
fn default_config_values() {
    let c = AppConfig::default();
    assert_eq!(c.discord_app_id, "1477495267920973907");
    assert_eq!(c.rpc_name, "Orion Hosting");
    assert_eq!(c.rpc_details, "Free Host");
    assert_eq!(c.rpc_state, "orionhost.xyz");
    assert_eq!(c.rpc_asset_large_text, "Join Orion!");
    assert_eq!(c.rpc_url, "https://orionhost.xyz");
    assert_eq!(c.connect_retries, 5);
    assert_eq!(c.connect_delay_secs, 3);
}

#[test]
fn application_constants() {
    assert_eq!(APP_NAME, "Orion RPC");
    assert_eq!(REPO_URL, "https://github.com/orionhosting/rpc");
    assert_eq!(REPO_OWNER, "orionhosting");
    assert_eq!(REPO_NAME, "rpc");
    assert_eq!(CURRENT_APP_VERSION, "0.1.0");
}
