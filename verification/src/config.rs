//! What a device is configured with at startup.

use vstd::prelude::*;

verus! {

/// Seconds between two uplinks unless configured otherwise.
pub const DEFAULT_UPLINK_INTERVAL_SECS: u64 = 60;

/// Largest uplink payload in bytes unless configured otherwise.
pub const DEFAULT_MAX_PAYLOAD_BYTES: usize = 64;

/// Port that uplinks are sent on unless configured otherwise.
pub const DEFAULT_APPLICATION_PORT: u8 = 1;

/// Lowest port that an application may use.
pub const MIN_APPLICATION_PORT: u8 = 1;

/// Highest port that an application may use.
pub const MAX_APPLICATION_PORT: u8 = 223;

/// Whether `port` is one of the ports open to applications, 1 to 223.
pub open spec fn is_application_port(port: u8) -> bool {
    1 <= port <= 223
}

/// The identifiers and the key that a device presents when it joins. They are
/// byte strings of fixed length, in the byte order the radio stack expects,
/// and nothing in this crate looks inside them.
#[derive(Clone, Copy, Debug, PartialEq, Eq)]
pub struct Credentials {
    /// Device identifier.
    pub dev_eui: [u8; 8],
    /// Application identifier, also called the join identifier.
    pub app_eui: [u8; 8],
    /// Root key shared with the network.
    pub app_key: [u8; 16],
}

/// Why a configuration was refused.
#[derive(Clone, Copy, Debug, PartialEq, Eq, Structural)]
pub enum ConfigError {
    /// The port is not one of the application ports, 1 to 223.
    PortOutOfRange { port: u8 },
}

/// A configuration as a mathematical value.
pub struct ConfigModel {
    /// The join credentials.
    pub credentials: Credentials,
    /// Seconds between two uplinks.
    pub uplink_interval_secs: nat,
    /// Largest uplink payload in bytes.
    pub max_payload_bytes: nat,
    /// Port that uplinks are sent on.
    pub application_port: u8,
}

/// The configuration that `credentials` alone give: an uplink every 60
/// seconds, payloads of up to 64 bytes, port 1.
pub open spec fn default_config(credentials: Credentials) -> ConfigModel {
    ConfigModel {
        credentials,
        uplink_interval_secs: 60,
        max_payload_bytes: 64,
        application_port: 1,
    }
}

/// Device configuration. The application port of every value of this type is
/// one of 1 to 223.
#[derive(Clone, Copy, Debug)]
pub struct Config {
    credentials: Credentials,
    uplink_interval_secs: u64,
    max_payload_bytes: usize,
    application_port: u8,
}

impl View for Config {
    type V = ConfigModel;

    closed spec fn view(&self) -> ConfigModel {
        ConfigModel {
            credentials: self.credentials,
            uplink_interval_secs: self.uplink_interval_secs as nat,
            max_payload_bytes: self.max_payload_bytes as nat,
            application_port: self.application_port,
        }
    }
}

impl Config {
    #[verifier::type_invariant]
    spec fn port_is_valid(self) -> bool {
        is_application_port(self.application_port)
    }

    /// The default configuration for `credentials`.
    pub fn new(credentials: Credentials) -> (config: Config)
        ensures
            config@ == default_config(credentials),
    {
        Config {
            credentials,
            uplink_interval_secs: DEFAULT_UPLINK_INTERVAL_SECS,
            max_payload_bytes: DEFAULT_MAX_PAYLOAD_BYTES,
            application_port: DEFAULT_APPLICATION_PORT,
        }
    }

    /// The join credentials.
    pub fn credentials(&self) -> (credentials: Credentials)
        ensures
            credentials == self@.credentials,
    {
        self.credentials
    }

    /// Seconds between two uplinks.
    pub fn uplink_interval_secs(&self) -> (secs: u64)
        ensures
            secs == self@.uplink_interval_secs,
    {
        self.uplink_interval_secs
    }

    /// Largest uplink payload in bytes.
    pub fn max_payload_bytes(&self) -> (bytes: usize)
        ensures
            bytes == self@.max_payload_bytes,
    {
        self.max_payload_bytes
    }

    /// Port that uplinks are sent on, one of 1 to 223.
    pub fn application_port(&self) -> (port: u8)
        ensures
            port == self@.application_port,
            is_application_port(port),
    {
        proof {
            use_type_invariant(self);
        }
        self.application_port
    }

    /// The same configuration with `secs` seconds between two uplinks.
    pub fn with_uplink_interval(self, secs: u64) -> (config: Config)
        ensures
            config@ == (ConfigModel { uplink_interval_secs: secs as nat, ..self@ }),
    {
        proof {
            use_type_invariant(&self);
        }
        Config {
            credentials: self.credentials,
            uplink_interval_secs: secs,
            max_payload_bytes: self.max_payload_bytes,
            application_port: self.application_port,
        }
    }

    /// The same configuration with payloads of up to `bytes` bytes.
    pub fn with_max_payload(self, bytes: usize) -> (config: Config)
        ensures
            config@ == (ConfigModel { max_payload_bytes: bytes as nat, ..self@ }),
    {
        proof {
            use_type_invariant(&self);
        }
        Config {
            credentials: self.credentials,
            uplink_interval_secs: self.uplink_interval_secs,
            max_payload_bytes: bytes,
            application_port: self.application_port,
        }
    }

    /// The same configuration with uplinks on `port`, or an error where
    /// `port` is not an application port.
    pub fn with_application_port(self, port: u8) -> (result: Result<Config, ConfigError>)
        ensures
            is_application_port(port) ==> result is Ok && result->Ok_0@ == (ConfigModel {
                application_port: port,
                ..self@
            }),
            !is_application_port(port) ==> result is Err && result->Err_0 == (
            ConfigError::PortOutOfRange { port }),
    {
        if port < MIN_APPLICATION_PORT || port > MAX_APPLICATION_PORT {
            Err(ConfigError::PortOutOfRange { port })
        } else {
            Ok(
                Config {
                    credentials: self.credentials,
                    uplink_interval_secs: self.uplink_interval_secs,
                    max_payload_bytes: self.max_payload_bytes,
                    application_port: port,
                },
            )
        }
    }
}

} // verus!
