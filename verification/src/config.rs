//! The node's configuration and the checks it must pass before anything runs.

use crate::text::byte_len;
use crate::text::str_equal;
use crate::text::utf8_len;
use vstd::prelude::*;

verus! {

/// Most bytes a network name may take.
pub const MAX_SSID_BYTES: usize = 32;

/// Most bytes a passphrase may take.
pub const MAX_PASSWORD_BYTES: usize = 64;

/// Lowest transmit power, in dBm, that the radio accepts.
pub const MIN_TX_POWER_DBM: i8 = 2;

/// Highest transmit power, in dBm, that the radio accepts.
pub const MAX_TX_POWER_DBM: i8 = 20;

/// Stands in `wifi_max_tx_power` for "leave the radio's power alone".
pub const TX_POWER_UNBOUNDED: i8 = -128;

/// How a station proves itself to the access point.
#[derive(Clone, Copy, Debug, PartialEq, Eq, Structural)]
pub enum AuthMethod {
    /// No authentication: an open network.
    Open,
    WPA,
    WPA2Personal,
    WPAWPA2Personal,
    WPA3Personal,
    WPA2WPA3Personal,
}

/// Why a configuration was turned down.
#[derive(Clone, Copy, Debug, PartialEq, Eq, Structural)]
pub enum ConfigError {
    /// The network name is empty.
    EmptySsid,
    /// The network name takes more than 32 bytes.
    SsidTooLong,
    /// The passphrase takes more than 64 bytes.
    PasswordTooLong,
    /// The authentication method is none of the known names.
    UnsupportedAuthMethod,
    /// A transmit power lies outside what the radio accepts, or the starting
    /// power lies above the maximum.
    InvalidTxPower,
    /// The signal floor of the indicator does not lie below its ceiling.
    InvalidRssiRange,
}

/// Everything the node is told about its network, its broker and its policies.
#[derive(Clone, Debug)]
pub struct Config {
    /// Name of the wireless network: 1 to 32 bytes.
    pub wifi_ssid: String,
    /// Passphrase: at most 64 bytes. Empty means an open network.
    pub wifi_password: String,
    /// One of `None`, `WPA`, `WPA2Personal`, `WPAWPA2Personal`, `WPA3Personal`,
    /// `WPA2WPA3Personal`.
    pub wifi_auth_method: String,
    /// Transmit power, in dBm, that link acquisition starts with.
    pub wifi_start_tx_power: i8,
    /// Highest transmit power, in dBm, or `TX_POWER_UNBOUNDED`.
    pub wifi_max_tx_power: i8,
    /// A signal below this, in dBm, counts as weak.
    pub wifi_disconnect_rssi: i32,
    /// Seconds a weak signal must last before the link is given up.
    pub wifi_disconnect_seconds: u32,
    /// Seconds after link-up during which the signal is not judged.
    pub wifi_ignore_rssi_seconds: u32,
    /// Whether a signal that cannot be read counts as weak.
    pub wifi_missing_rssi_is_weak: bool,
    /// Signal, in dBm, at and below which the indicator is dimmest.
    pub led_rssi_floor: i32,
    /// Signal, in dBm, at and above which the indicator is brightest.
    pub led_rssi_ceiling: i32,
    /// Host name or address of the broker.
    pub mqtt_host: String,
    /// Identity of this node towards the broker and in its topic.
    pub mqtt_node: String,
    /// Broker user name.
    pub mqtt_user: String,
    /// Broker password.
    pub mqtt_pass: String,
    /// First segment of the presence topic.
    pub mqtt_discovery_prefix: String,
    /// Payload that announces the node.
    pub mqtt_on_payload: String,
    /// Payload that the broker sends when the node vanishes.
    pub mqtt_off_payload: String,
    /// Seconds since power-on without a stable connection after which the
    /// transmit power is raised to its maximum.
    pub mqtt_disconnected_timeout: u64,
    /// Seconds to stay down after giving up a connection.
    pub mqtt_reconnect_timeout: u64,
    /// Whether a session that could not be created is tried again on the next
    /// tick instead of stopping the node.
    pub mqtt_retry_session: bool,
}

/// The authentication method that `name` stands for, if any.
pub open spec fn auth_method_named(name: Seq<char>) -> Option<AuthMethod> {
    if name == "None"@ {
        Some(AuthMethod::Open)
    } else if name == "WPA"@ {
        Some(AuthMethod::WPA)
    } else if name == "WPA2Personal"@ {
        Some(AuthMethod::WPA2Personal)
    } else if name == "WPAWPA2Personal"@ {
        Some(AuthMethod::WPAWPA2Personal)
    } else if name == "WPA3Personal"@ {
        Some(AuthMethod::WPA3Personal)
    } else if name == "WPA2WPA3Personal"@ {
        Some(AuthMethod::WPA2WPA3Personal)
    } else {
        None
    }
}

/// Reads an authentication method from its name.
pub fn parse_auth_method(name: &str) -> (method: Option<AuthMethod>)
    ensures
        method == auth_method_named(name@),
{
    if str_equal(name, "None") {
        Some(AuthMethod::Open)
    } else if str_equal(name, "WPA") {
        Some(AuthMethod::WPA)
    } else if str_equal(name, "WPA2Personal") {
        Some(AuthMethod::WPA2Personal)
    } else if str_equal(name, "WPAWPA2Personal") {
        Some(AuthMethod::WPAWPA2Personal)
    } else if str_equal(name, "WPA3Personal") {
        Some(AuthMethod::WPA3Personal)
    } else if str_equal(name, "WPA2WPA3Personal") {
        Some(AuthMethod::WPA2WPA3Personal)
    } else {
        None
    }
}

/// Whether `dbm` is a power the radio accepts.
pub open spec fn tx_power_legal(dbm: i8) -> bool {
    MIN_TX_POWER_DBM <= dbm <= MAX_TX_POWER_DBM
}

impl Config {
    /// Whether the transmit power is managed at all.
    pub open spec fn tx_power_managed(&self) -> bool {
        self.wifi_max_tx_power != TX_POWER_UNBOUNDED
    }

    /// Whether the transmit-power settings fit the radio and each other.
    pub open spec fn tx_power_ok(&self) -> bool {
        self.tx_power_managed() ==> {
            &&& tx_power_legal(self.wifi_start_tx_power)
            &&& tx_power_legal(self.wifi_max_tx_power)
            &&& self.wifi_start_tx_power <= self.wifi_max_tx_power
        }
    }

    /// The first rule that the configuration breaks, in the order in which
    /// the rules are checked.
    pub open spec fn fault(&self) -> Option<ConfigError> {
        if self.wifi_ssid@.len() == 0 {
            Some(ConfigError::EmptySsid)
        } else if utf8_len(self.wifi_ssid@) > MAX_SSID_BYTES {
            Some(ConfigError::SsidTooLong)
        } else if utf8_len(self.wifi_password@) > MAX_PASSWORD_BYTES {
            Some(ConfigError::PasswordTooLong)
        } else if auth_method_named(self.wifi_auth_method@) is None {
            Some(ConfigError::UnsupportedAuthMethod)
        } else if !self.tx_power_ok() {
            Some(ConfigError::InvalidTxPower)
        } else if self.led_rssi_floor >= self.led_rssi_ceiling {
            Some(ConfigError::InvalidRssiRange)
        } else {
            None
        }
    }

    /// A configuration that breaks no rule.
    pub open spec fn valid(&self) -> bool {
        self.fault() is None
    }

    /// Checks every rule; the first broken one is the error.
    pub fn validate(&self) -> (checked: Result<(), ConfigError>)
        ensures
            checked is Ok <==> self.valid(),
            checked is Err ==> self.fault() == Some(checked->Err_0),
    {
        if self.wifi_ssid.as_str().is_empty() {
            return Err(ConfigError::EmptySsid);
        }
        if byte_len(self.wifi_ssid.as_str()) > MAX_SSID_BYTES {
            return Err(ConfigError::SsidTooLong);
        }
        if byte_len(self.wifi_password.as_str()) > MAX_PASSWORD_BYTES {
            return Err(ConfigError::PasswordTooLong);
        }
        if parse_auth_method(self.wifi_auth_method.as_str()).is_none() {
            return Err(ConfigError::UnsupportedAuthMethod);
        }
        if self.wifi_max_tx_power != TX_POWER_UNBOUNDED {
            if self.wifi_start_tx_power < MIN_TX_POWER_DBM
                || self.wifi_max_tx_power > MAX_TX_POWER_DBM
                || self.wifi_start_tx_power > self.wifi_max_tx_power {
                return Err(ConfigError::InvalidTxPower);
            }
        }
        if self.led_rssi_floor >= self.led_rssi_ceiling {
            return Err(ConfigError::InvalidRssiRange);
        }
        Ok(())
    }

    /// The method the link is set up with: none on an open network, else the
    /// configured one.
    pub open spec fn effective_auth(&self) -> Option<AuthMethod> {
        if self.wifi_password@.len() == 0 {
            Some(AuthMethod::Open)
        } else {
            auth_method_named(self.wifi_auth_method@)
        }
    }

    /// The authentication method to set the link up with. An empty passphrase
    /// means an open network whatever method is named; otherwise the name
    /// must be a known one.
    pub fn auth_method(&self) -> (method: Result<AuthMethod, ConfigError>)
        ensures
            match self.effective_auth() {
                Some(m) => method == Ok::<AuthMethod, ConfigError>(m),
                None => method == Err::<AuthMethod, ConfigError>(ConfigError::UnsupportedAuthMethod),
            },
    {
        if self.wifi_password.as_str().is_empty() {
            return Ok(AuthMethod::Open);
        }
        match parse_auth_method(self.wifi_auth_method.as_str()) {
            Some(method) => Ok(method),
            None => Err(ConfigError::UnsupportedAuthMethod),
        }
    }
}

} // verus!
