//! The wireless link as the supervisor sees it: the settings it is set up
//! with, how an attempt to connect proceeds from one radio operation to the
//! next, and which transmit powers the radio will take.

use crate::config::tx_power_legal;
use crate::config::AuthMethod;
use crate::config::Config;
use crate::config::ConfigError;
use crate::config::MAX_PASSWORD_BYTES;
use crate::config::MAX_SSID_BYTES;
use crate::config::MAX_TX_POWER_DBM;
use crate::config::MIN_TX_POWER_DBM;
use crate::text::byte_len;
use crate::text::utf8_len;
use vstd::prelude::*;

verus! {

/// Status code with which the radio stack reports that an operation ran out
/// of time.
pub const ESP_ERR_TIMEOUT: i32 = 0x107;

/// How the radio looks for the access point.
#[derive(Clone, Copy, Debug, PartialEq, Eq, Structural)]
pub enum ScanMethod {
    /// Take the first access point that matches.
    FastScan,
    /// Scan every channel and take the best match.
    CompleteScan,
}

/// What the link is set up with.
#[derive(Clone, Debug)]
pub struct LinkSettings {
    pub ssid: String,
    pub password: String,
    pub auth_method: AuthMethod,
    pub scan_method: ScanMethod,
    /// The station can protect management frames.
    pub pmf_capable: bool,
    /// The station insists on protected management frames.
    pub pmf_required: bool,
}

/// One operation of the radio during an attempt to connect.
#[derive(Clone, Copy, Debug, PartialEq, Eq, Structural)]
pub enum RadioOp {
    /// Ask whether the radio has been started.
    QueryStarted,
    /// Start the radio.
    Start,
    /// Associate with the access point.
    Associate,
    /// Wait until the network interface has its address.
    AwaitAddress,
}

/// How an attempt to connect ended.
#[derive(Clone, Copy, Debug, PartialEq, Eq, Structural)]
pub enum ConnectOutcome {
    /// Associated, and the interface has its address.
    Connected,
    /// Association or the wait for an address ran out of time: try again
    /// later.
    TimedOut,
    /// The radio failed with this status code: nothing more can be done.
    Failed(i32),
}

/// What follows one radio operation of an attempt to connect.
#[derive(Clone, Copy, Debug, PartialEq, Eq, Structural)]
pub enum ConnectStep {
    /// Run this operation next.
    Run(RadioOp),
    /// The attempt is over.
    Done(ConnectOutcome),
}

/// What follows `op` once the radio has answered it with `reply`: the flag or
/// plain success in `Ok`, the status code of a failure in `Err`.
///
/// A radio that is already started is not started again. Running out of time
/// ends the attempt without harm only while associating or waiting for an
/// address; every other failure is final.
pub open spec fn step_after(op: RadioOp, reply: Result<bool, i32>) -> ConnectStep {
    match reply {
        Err(code) => {
            if code == ESP_ERR_TIMEOUT && (op == RadioOp::Associate || op == RadioOp::AwaitAddress) {
                ConnectStep::Done(ConnectOutcome::TimedOut)
            } else {
                ConnectStep::Done(ConnectOutcome::Failed(code))
            }
        },
        Ok(flag) => match op {
            RadioOp::QueryStarted => if flag {
                ConnectStep::Run(RadioOp::Associate)
            } else {
                ConnectStep::Run(RadioOp::Start)
            },
            RadioOp::Start => ConnectStep::Run(RadioOp::Associate),
            RadioOp::Associate => ConnectStep::Run(RadioOp::AwaitAddress),
            RadioOp::AwaitAddress => ConnectStep::Done(ConnectOutcome::Connected),
        },
    }
}

/// How many radio operations can at most follow `op` in one attempt.
pub open spec fn operations_after(op: RadioOp) -> nat {
    match op {
        RadioOp::QueryStarted => 3,
        RadioOp::Start => 2,
        RadioOp::Associate => 1,
        RadioOp::AwaitAddress => 0,
    }
}

/// An attempt to connect comes to an end: every operation that follows
/// another leaves fewer to follow, so that an attempt takes four operations
/// at most. It ends well only after the wait for an address, and without
/// harm only by running out of time while associating or waiting.
pub proof fn lemma_attempt_ends(op: RadioOp, reply: Result<bool, i32>)
    ensures
        step_after(op, reply) matches ConnectStep::Run(next) ==> operations_after(next)
            < operations_after(op) && reply is Ok,
        step_after(op, reply) == ConnectStep::Done(ConnectOutcome::Connected) <==> op
            == RadioOp::AwaitAddress && reply is Ok,
        step_after(op, reply) == ConnectStep::Done(ConnectOutcome::TimedOut) <==> (op
            == RadioOp::Associate || op == RadioOp::AwaitAddress) && reply == Err::<bool, i32>(
            ESP_ERR_TIMEOUT,
        ),
{
}

/// Transmit power in the radio's own unit, a quarter of a dBm.
pub open spec fn quarter_dbm(dbm: i8) -> int {
    dbm * 4
}

/// The wireless link of one node.
#[derive(Clone, Debug)]
pub struct WiFi {
    pub settings: LinkSettings,
}

impl WiFi {
    /// What `WiFi::new` finds wrong with a configuration, if anything.
    pub open spec fn fault(config: &Config) -> Option<ConfigError> {
        if config.effective_auth() is None {
            Some(ConfigError::UnsupportedAuthMethod)
        } else if utf8_len(config.wifi_ssid@) > MAX_SSID_BYTES {
            Some(ConfigError::SsidTooLong)
        } else if utf8_len(config.wifi_password@) > MAX_PASSWORD_BYTES {
            Some(ConfigError::PasswordTooLong)
        } else {
            None
        }
    }

    /// The settings of the link: name and passphrase as configured, the
    /// authentication method (none on an open network), a fast scan, and
    /// protected management frames offered but not insisted on.
    pub fn new(config: &Config) -> (link: Result<Self, ConfigError>)
        ensures
            match Self::fault(config) {
                Some(error) => link is Err && link->Err_0 == error,
                None => {
                    &&& link matches Ok(wifi)
                    &&& wifi.settings.ssid@ == config.wifi_ssid@
                    &&& wifi.settings.password@ == config.wifi_password@
                    &&& Some(wifi.settings.auth_method) == config.effective_auth()
                    &&& wifi.settings.scan_method == ScanMethod::FastScan
                    &&& wifi.settings.pmf_capable
                    &&& !wifi.settings.pmf_required
                },
            },
    {
        let auth_method = match config.auth_method() {
            Ok(method) => method,
            Err(error) => {
                return Err(error);
            },
        };
        if byte_len(config.wifi_ssid.as_str()) > MAX_SSID_BYTES {
            return Err(ConfigError::SsidTooLong);
        }
        if byte_len(config.wifi_password.as_str()) > MAX_PASSWORD_BYTES {
            return Err(ConfigError::PasswordTooLong);
        }
        Ok(
            WiFi {
                settings: LinkSettings {
                    ssid: config.wifi_ssid.clone(),
                    password: config.wifi_password.clone(),
                    auth_method,
                    scan_method: ScanMethod::FastScan,
                    pmf_capable: true,
                    pmf_required: false,
                },
            },
        )
    }

    /// Whether the link is up, from the radio's answer. An answer that is an
    /// error counts as down.
    pub fn is_connected(reply: Result<bool, i32>) -> (up: bool)
        ensures
            up == (reply == Ok::<bool, i32>(true)),
    {
        match reply {
            Ok(flag) => flag,
            Err(_) => false,
        }
    }

    /// The signal strength in dBm, from the radio's answer. An answer that is
    /// an error counts as no reading.
    pub fn rssi(reply: Result<i32, i32>) -> (reading: Option<i32>)
        ensures
            reading == match reply {
                Ok(dbm) => Some(dbm),
                Err(_) => None,
            },
    {
        match reply {
            Ok(dbm) => Some(dbm),
            Err(_) => None,
        }
    }

    /// The operation that opens an attempt to connect.
    pub fn connect() -> (first: RadioOp)
        ensures
            first == RadioOp::QueryStarted,
    {
        RadioOp::QueryStarted
    }

    /// What follows `op` once the radio has answered it with `reply`.
    pub fn connect_next(op: RadioOp, reply: Result<bool, i32>) -> (next: ConnectStep)
        ensures
            next == step_after(op, reply),
    {
        match reply {
            Err(code) => {
                let may_retry = match op {
                    RadioOp::Associate | RadioOp::AwaitAddress => true,
                    _ => false,
                };
                if code == ESP_ERR_TIMEOUT && may_retry {
                    ConnectStep::Done(ConnectOutcome::TimedOut)
                } else {
                    ConnectStep::Done(ConnectOutcome::Failed(code))
                }
            },
            Ok(flag) => match op {
                RadioOp::QueryStarted => {
                    if flag {
                        ConnectStep::Run(RadioOp::Associate)
                    } else {
                        ConnectStep::Run(RadioOp::Start)
                    }
                },
                RadioOp::Start => ConnectStep::Run(RadioOp::Associate),
                RadioOp::Associate => ConnectStep::Run(RadioOp::AwaitAddress),
                RadioOp::AwaitAddress => ConnectStep::Done(ConnectOutcome::Connected),
            },
        }
    }

    /// The value to hand to the radio for a transmit power of `dbm`, in
    /// quarters of a dBm, or nothing when the radio would not take that
    /// power: such a request is dropped.
    pub fn set_max_tx_power(dbm: i8) -> (request: Option<i8>)
        ensures
            request is Some <==> tx_power_legal(dbm),
            request is Some ==> request->Some_0 == quarter_dbm(dbm),
    {
        if dbm < MIN_TX_POWER_DBM || dbm > MAX_TX_POWER_DBM {
            None
        } else {
            Some(dbm * 4)
        }
    }
}

} // verus!
