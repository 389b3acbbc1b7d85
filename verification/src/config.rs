use vstd::prelude::*;

verus! {

/// Name shown in the window title and used for the start-up entry.
pub const APP_NAME: &'static str = "Orion RPC";

pub const REPO_URL: &'static str = "https://github.com/orionhosting/rpc";

pub const REPO_OWNER: &'static str = "orionhosting";

pub const REPO_NAME: &'static str = "rpc";

/// The version of this package.
pub const CURRENT_APP_VERSION: &'static str = "0.1.0";

/// Application configuration.
#[derive(Debug)]
pub struct AppConfig {
    pub discord_app_id: &'static str,
    pub rpc_name: &'static str,
    pub rpc_details: &'static str,
    pub rpc_state: &'static str,
    pub rpc_asset_large_text: &'static str,
    pub rpc_url: &'static str,
    /// How many times a connection to Discord is attempted.
    pub connect_retries: u32,
    /// Pause between two connection attempts, in seconds.
    pub connect_delay_secs: u64,
}

impl Default for AppConfig {
    fn default() -> (res: Self)
        ensures
            res.discord_app_id@ == "1477495267920973907"@,
            res.rpc_name@ == "Orion Hosting"@,
            res.rpc_details@ == "Free Host"@,
            res.rpc_state@ == "orionhost.xyz"@,
            res.rpc_asset_large_text@ == "Join Orion!"@,
            res.rpc_url@ == "https://orionhost.xyz"@,
            res.connect_retries == 5,
            res.connect_delay_secs == 3,
    {
        AppConfig {
            discord_app_id: "1477495267920973907",
            rpc_name: "Orion Hosting",
            rpc_details: "Free Host",
            rpc_state: "orionhost.xyz",
            rpc_asset_large_text: "Join Orion!",
            rpc_url: "https://orionhost.xyz",
            connect_retries: 5,
            connect_delay_secs: 3,
        }
    }
}

} // verus!
