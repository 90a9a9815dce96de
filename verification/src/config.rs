//! Startup configuration of a node: transport and broker credentials, the
//! device id, and the per-minute command budget. A node refuses to start
//! without its required credentials rather than run on insecure defaults.

use vstd::prelude::*;

verus! {

/// Why the configuration was refused at startup.
#[derive(Clone, Copy, Debug, PartialEq, Eq, Structural)]
pub enum ConfigError {
    /// A required credential is absent or empty.
    MissingCredential,
}

/// The credentials and limits a node starts with.
pub struct SecurityConfig {
    pub wifi_ssid: String,
    pub wifi_password: String,
    pub mqtt_broker: String,
    pub mqtt_username: String,
    pub mqtt_password: String,
    pub device_id: String,
    pub max_command_rate: u32,
}

/// All six required credentials are present and non-empty.
pub open spec fn spec_config_complete(
    wifi_ssid: Option<Seq<char>>,
    wifi_password: Option<Seq<char>>,
    mqtt_broker: Option<Seq<char>>,
    mqtt_username: Option<Seq<char>>,
    mqtt_password: Option<Seq<char>>,
    device_id: Option<Seq<char>>,
) -> bool {
    &&& wifi_ssid matches Some(s) && s.len() > 0
    &&& wifi_password matches Some(s) && s.len() > 0
    &&& mqtt_broker matches Some(s) && s.len() > 0
    &&& mqtt_username matches Some(s) && s.len() > 0
    &&& mqtt_password matches Some(s) && s.len() > 0
    &&& device_id matches Some(s) && s.len() > 0
}

/// View of an optional string.
pub open spec fn opt_view(s: &Option<String>) -> Option<Seq<char>> {
    match s {
        Some(v) => Some(v@),
        None => None,
    }
}

impl SecurityConfig {
    /// Builds the startup configuration from the values the environment
    /// provided, refusing to proceed when any required credential is
    /// absent or empty; a missing credential is fatal at startup, never
    /// silently defaulted.
    pub fn load_from_env(
        wifi_ssid: Option<String>,
        wifi_password: Option<String>,
        mqtt_broker: Option<String>,
        mqtt_username: Option<String>,
        mqtt_password: Option<String>,
        device_id: Option<String>,
        max_command_rate: u32,
    ) -> (r: Result<SecurityConfig, ConfigError>)
        ensures
            spec_config_complete(
                opt_view(&wifi_ssid),
                opt_view(&wifi_password),
                opt_view(&mqtt_broker),
                opt_view(&mqtt_username),
                opt_view(&mqtt_password),
                opt_view(&device_id),
            ) <==> r is Ok,
            r matches Ok(c) ==> {
                &&& Some(c.wifi_ssid@) == opt_view(&wifi_ssid)
                &&& Some(c.wifi_password@) == opt_view(&wifi_password)
                &&& Some(c.mqtt_broker@) == opt_view(&mqtt_broker)
                &&& Some(c.mqtt_username@) == opt_view(&mqtt_username)
                &&& Some(c.mqtt_password@) == opt_view(&mqtt_password)
                &&& Some(c.device_id@) == opt_view(&device_id)
                &&& c.max_command_rate == max_command_rate
            },
            r matches Err(e) ==> e == ConfigError::MissingCredential,
    {
        let wifi_ssid = match wifi_ssid {
            Some(s) => s,
            None => {
                return Err(ConfigError::MissingCredential);
            },
        };
        let wifi_password = match wifi_password {
            Some(s) => s,
            None => {
                return Err(ConfigError::MissingCredential);
            },
        };
        let mqtt_broker = match mqtt_broker {
            Some(s) => s,
            None => {
                return Err(ConfigError::MissingCredential);
            },
        };
        let mqtt_username = match mqtt_username {
            Some(s) => s,
            None => {
                return Err(ConfigError::MissingCredential);
            },
        };
        let mqtt_password = match mqtt_password {
            Some(s) => s,
            None => {
                return Err(ConfigError::MissingCredential);
            },
        };
        let device_id = match device_id {
            Some(s) => s,
            None => {
                return Err(ConfigError::MissingCredential);
            },
        };
        if wifi_ssid.as_str().is_empty() || wifi_password.as_str().is_empty()
            || mqtt_broker.as_str().is_empty() || mqtt_username.as_str().is_empty()
            || mqtt_password.as_str().is_empty() || device_id.as_str().is_empty() {
            return Err(ConfigError::MissingCredential);
        }
        Ok(
            SecurityConfig {
                wifi_ssid,
                wifi_password,
                mqtt_broker,
                mqtt_username,
                mqtt_password,
                device_id,
                max_command_rate,
            },
        )
    }
}

} // verus!
