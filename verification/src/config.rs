//! Service configuration: defaults, the file-or-default rule, and environment
//! overrides. Reading the file and the environment is the shell's business;
//! the library states exactly how the pieces combine.

use vstd::prelude::*;

verus! {

/// Where the sample database lives.
#[derive(Clone, Debug)]
pub struct DatabaseConfig {
    /// Path of the database file.
    pub path: String,
}

/// How the transport finds and keeps a device.
#[derive(Clone, Debug)]
pub struct BluetoothConfig {
    /// A device whose advertised name contains this is the treadmill.
    pub device_name_filter: String,
    /// Seconds to scan for the device before giving up.
    pub scan_timeout_secs: u64,
    /// Seconds of qualifying inactivity before an active workout ends.
    pub workout_end_timeout_secs: u32,
    /// Seconds to wait before reconnecting after a disconnection.
    pub reconnect_delay_secs: u64,
}

/// Where the HTTP surface listens.
#[derive(Clone, Debug)]
pub struct ServerConfig {
    /// Bind address.
    pub host: String,
    /// Port.
    pub port: u16,
}

/// The whole service configuration.
#[derive(Clone, Debug)]
pub struct Config {
    /// Storage settings.
    pub database: DatabaseConfig,
    /// Transport and session settings.
    pub bluetooth: BluetoothConfig,
    /// HTTP settings.
    pub server: ServerConfig,
}

/// Default database path.
pub fn default_database_path() -> (r: String)
    ensures
        r@ == "./treadmill.db"@,
{
    "./treadmill.db".to_owned()
}

/// Default device name filter (a common prefix of treadmill names).
pub fn default_device_name_filter() -> (r: String)
    ensures
        r@ == "TR"@,
{
    "TR".to_owned()
}

/// Default scan timeout, in seconds.
pub fn default_scan_timeout() -> (r: u64)
    ensures
        r == 30,
{
    30
}

/// Default inactivity threshold before a workout ends, in seconds.
pub fn default_workout_end_timeout() -> (r: u32)
    ensures
        r == 30,
{
    30
}

/// Default reconnect delay, in seconds.
pub fn default_reconnect_delay() -> (r: u64)
    ensures
        r == 5,
{
    5
}

/// Default bind address.
pub fn default_host() -> (r: String)
    ensures
        r@ == "0.0.0.0"@,
{
    "0.0.0.0".to_owned()
}

/// Default port.
pub fn default_port() -> (r: u16)
    ensures
        r == 8080,
{
    8080
}

/// Whether a configuration holds exactly the built-in defaults.
pub open spec fn is_default_config(c: Config) -> bool {
    &&& c.database.path@ == "./treadmill.db"@
    &&& c.bluetooth.device_name_filter@ == "TR"@
    &&& c.bluetooth.scan_timeout_secs == 30
    &&& c.bluetooth.workout_end_timeout_secs == 30
    &&& c.bluetooth.reconnect_delay_secs == 5
    &&& c.server.host@ == "0.0.0.0"@
    &&& c.server.port == 8080
}

/// Values read from the environment, each overriding its file-or-default
/// counterpart when present. The shell reads and parses the variables; the
/// library applies them.
#[derive(Clone, Debug)]
pub struct EnvOverrides {
    /// Database path override.
    pub database_path: Option<String>,
    /// Device name filter override.
    pub device_name_filter: Option<String>,
    /// Scan timeout override, in seconds.
    pub scan_timeout_secs: Option<u64>,
    /// Reconnect delay override, in seconds.
    pub reconnect_delay_secs: Option<u64>,
    /// Bind address override.
    pub host: Option<String>,
    /// Port override.
    pub port: Option<u16>,
}

impl EnvOverrides {
    /// No overrides at all.
    pub fn none() -> (r: EnvOverrides)
        ensures
            r.database_path is None,
            r.device_name_filter is None,
            r.scan_timeout_secs is None,
            r.reconnect_delay_secs is None,
            r.host is None,
            r.port is None,
    {
        EnvOverrides {
            database_path: None,
            device_name_filter: None,
            scan_timeout_secs: None,
            reconnect_delay_secs: None,
            host: None,
            port: None,
        }
    }
}

impl Config {
    /// The configuration parsed from the file when there was one, the
    /// built-in defaults otherwise.
    pub fn from_file_or_default(parsed: Option<Config>) -> (r: Config)
        ensures
            match parsed {
                Some(c) => r == c,
                None => is_default_config(r),
            },
    {
        match parsed {
            Some(c) => c,
            None => Config::default(),
        }
    }

    /// Apply environment overrides: a present value replaces the configured
    /// one, field by field; an absent one changes nothing.
    pub fn apply_env_overrides(&mut self, env: EnvOverrides)
        ensures
            final(self).database.path == (match env.database_path {
                Some(p) => p,
                None => old(self).database.path,
            }),
            final(self).bluetooth.device_name_filter == (match env.device_name_filter {
                Some(f) => f,
                None => old(self).bluetooth.device_name_filter,
            }),
            final(self).bluetooth.scan_timeout_secs == (match env.scan_timeout_secs {
                Some(t) => t,
                None => old(self).bluetooth.scan_timeout_secs,
            }),
            final(self).bluetooth.reconnect_delay_secs == (match env.reconnect_delay_secs {
                Some(d) => d,
                None => old(self).bluetooth.reconnect_delay_secs,
            }),
            final(self).server.host == (match env.host {
                Some(h) => h,
                None => old(self).server.host,
            }),
            final(self).server.port == (match env.port {
                Some(p) => p,
                None => old(self).server.port,
            }),
            final(self).bluetooth.workout_end_timeout_secs == old(
                self,
            ).bluetooth.workout_end_timeout_secs,
    {
        match env.database_path {
            Some(p) => {
                self.database.path = p;
            },
            None => (),
        }
        match env.device_name_filter {
            Some(f) => {
                self.bluetooth.device_name_filter = f;
            },
            None => (),
        }
        match env.scan_timeout_secs {
            Some(t) => {
                self.bluetooth.scan_timeout_secs = t;
            },
            None => (),
        }
        match env.reconnect_delay_secs {
            Some(d) => {
                self.bluetooth.reconnect_delay_secs = d;
            },
            None => (),
        }
        match env.host {
            Some(h) => {
                self.server.host = h;
            },
            None => (),
        }
        match env.port {
            Some(p) => {
                self.server.port = p;
            },
            None => (),
        }
    }

    /// The configuration the service runs with: the file's values where a
    /// file was parsed, the defaults otherwise, and environment overrides on
    /// top (environment beats file beats defaults).
    pub fn load(parsed: Option<Config>, env: EnvOverrides) -> (r: Config)
        ensures
            r.bluetooth.scan_timeout_secs == (match env.scan_timeout_secs {
                Some(t) => t,
                None => match parsed {
                    Some(c) => c.bluetooth.scan_timeout_secs,
                    None => 30u64,
                },
            }),
            r.server.port == (match env.port {
                Some(p) => p,
                None => match parsed {
                    Some(c) => c.server.port,
                    None => 8080u16,
                },
            }),
            r.bluetooth.reconnect_delay_secs == (match env.reconnect_delay_secs {
                Some(d) => d,
                None => match parsed {
                    Some(c) => c.bluetooth.reconnect_delay_secs,
                    None => 5u64,
                },
            }),
            r.database.path@ == (match env.database_path {
                Some(p) => p@,
                None => match parsed {
                    Some(c) => c.database.path@,
                    None => "./treadmill.db"@,
                },
            }),
            r.server.host@ == (match env.host {
                Some(h) => h@,
                None => match parsed {
                    Some(c) => c.server.host@,
                    None => "0.0.0.0"@,
                },
            }),
            r.bluetooth.device_name_filter@ == (match env.device_name_filter {
                Some(f) => f@,
                None => match parsed {
                    Some(c) => c.bluetooth.device_name_filter@,
                    None => "TR"@,
                },
            }),
            r.bluetooth.workout_end_timeout_secs == (match parsed {
                Some(c) => c.bluetooth.workout_end_timeout_secs,
                None => 30u32,
            }),
    {
        let mut config = Config::from_file_or_default(parsed);
        config.apply_env_overrides(env);
        config
    }
}

impl Default for Config {
    /// The built-in defaults.
    fn default() -> (r: Config)
        ensures
            is_default_config(r),
    {
        Config {
            database: DatabaseConfig { path: default_database_path() },
            bluetooth: BluetoothConfig {
                device_name_filter: default_device_name_filter(),
                scan_timeout_secs: default_scan_timeout(),
                workout_end_timeout_secs: default_workout_end_timeout(),
                reconnect_delay_secs: default_reconnect_delay(),
            },
            server: ServerConfig { host: default_host(), port: default_port() },
        }
    }
}

} // verus!
