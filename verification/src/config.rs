//! Configuration from the environment's variables. Owns every default.
use vstd::prelude::*;

use crate::decimal;
use crate::decimal::{parsed_unsigned, NumberFault};
use crate::text;

verus! {

pub const DEFAULT_MQTT_PORT: u16 = 1883;

/// The standard operational port of Matter.
pub const DEFAULT_MATTER_PORT: u16 = 5540;

pub const DEFAULT_TOPIC_PREFIX: &'static str = "pv-inverter";

/// The directory under the home directory that fabrics are stored in.
pub const DEFAULT_STORAGE_DIR: &'static str = ".pv-matter";

pub const DEFAULT_BOOTSTRAP_TIMEOUT_SECS: u64 = 30;

/// The variables, as the environment holds them.
#[derive(Debug, Clone, Default, PartialEq, Eq)]
pub struct Vars {
    /// `PV_MQTT_HOST`
    pub mqtt_host: Option<String>,
    /// `PV_MQTT_PORT`
    pub mqtt_port: Option<String>,
    /// `PV_MATTER_PORT`
    pub matter_port: Option<String>,
    /// `PV_MQTT_USERNAME`
    pub mqtt_username: Option<String>,
    /// `PV_MQTT_PASSWORD`
    pub mqtt_password: Option<String>,
    /// `PV_MQTT_TOPIC_PREFIX`
    pub topic_prefix: Option<String>,
    /// `PV_DEVICE_ID`
    pub device_id: Option<String>,
    /// `PV_STORAGE_PATH`
    pub storage_path: Option<String>,
    /// `PV_BOOTSTRAP_TIMEOUT`
    pub bootstrap_timeout: Option<String>,
}

pub struct VarsView {
    pub mqtt_host: Option<Seq<char>>,
    pub mqtt_port: Option<Seq<char>>,
    pub matter_port: Option<Seq<char>>,
    pub mqtt_username: Option<Seq<char>>,
    pub mqtt_password: Option<Seq<char>>,
    pub topic_prefix: Option<Seq<char>>,
    pub device_id: Option<Seq<char>>,
    pub storage_path: Option<Seq<char>>,
    pub bootstrap_timeout: Option<Seq<char>>,
}

impl DeepView for Vars {
    type V = VarsView;

    open spec fn deep_view(&self) -> VarsView {
        VarsView {
            mqtt_host: self.mqtt_host.deep_view(),
            mqtt_port: self.mqtt_port.deep_view(),
            matter_port: self.matter_port.deep_view(),
            mqtt_username: self.mqtt_username.deep_view(),
            mqtt_password: self.mqtt_password.deep_view(),
            topic_prefix: self.topic_prefix.deep_view(),
            device_id: self.device_id.deep_view(),
            storage_path: self.storage_path.deep_view(),
            bootstrap_timeout: self.bootstrap_timeout.deep_view(),
        }
    }
}

/// Where fabrics are stored.
#[derive(Debug, Clone, PartialEq, Eq)]
pub enum StoragePath {
    Given(String),
    /// `DEFAULT_STORAGE_DIR` in the home directory.
    InHome,
}

pub enum StoragePathView {
    Given(Seq<char>),
    InHome,
}

impl DeepView for StoragePath {
    type V = StoragePathView;

    open spec fn deep_view(&self) -> StoragePathView {
        match self {
            StoragePath::Given(path) => StoragePathView::Given(path@),
            StoragePath::InHome => StoragePathView::InHome,
        }
    }
}

#[derive(Debug, Clone, PartialEq, Eq)]
pub struct Config {
    pub mqtt_host: String,
    pub mqtt_port: u16,
    /// Operational UDP port. Another than the standard one lets a second node
    /// run on the same host.
    pub matter_port: u16,
    pub mqtt_username: Option<String>,
    pub mqtt_password: Option<String>,
    /// The publisher's topic prefix.
    pub topic_prefix: String,
    /// The device to listen to; otherwise the first one seen.
    pub device_id: Option<String>,
    pub storage_path: StoragePath,
    /// How long the start may wait for the identity, in seconds.
    pub bootstrap_timeout: u64,
}

pub struct ConfigView {
    pub mqtt_host: Seq<char>,
    pub mqtt_port: u16,
    pub matter_port: u16,
    pub mqtt_username: Option<Seq<char>>,
    pub mqtt_password: Option<Seq<char>>,
    pub topic_prefix: Seq<char>,
    pub device_id: Option<Seq<char>>,
    pub storage_path: StoragePathView,
    pub bootstrap_timeout: u64,
}

impl DeepView for Config {
    type V = ConfigView;

    open spec fn deep_view(&self) -> ConfigView {
        ConfigView {
            mqtt_host: self.mqtt_host@,
            mqtt_port: self.mqtt_port,
            matter_port: self.matter_port,
            mqtt_username: self.mqtt_username.deep_view(),
            mqtt_password: self.mqtt_password.deep_view(),
            topic_prefix: self.topic_prefix@,
            device_id: self.device_id.deep_view(),
            storage_path: self.storage_path.deep_view(),
            bootstrap_timeout: self.bootstrap_timeout,
        }
    }
}

/// Why there is no configuration; the first reason in this order.
#[derive(Debug, Clone, Copy, PartialEq, Eq, Structural)]
pub enum ConfigError {
    HostMissing,
    MqttPortInvalid(NumberFault),
    MatterPortInvalid(NumberFault),
    HomeUnknown,
    TimeoutInvalid(NumberFault),
}

impl ConfigError {
    pub open spec fn text(self) -> Seq<char> {
        match self {
            ConfigError::HostMissing =>
                "PV_MQTT_HOST is required (the MQTT broker sma-daemon publishes to)"@,
            ConfigError::MqttPortInvalid(_) => "PV_MQTT_PORT must be a port number"@,
            ConfigError::MatterPortInvalid(_) => "PV_MATTER_PORT must be a port number"@,
            ConfigError::HomeUnknown => "cannot determine home directory; set PV_STORAGE_PATH"@,
            ConfigError::TimeoutInvalid(_) => "PV_BOOTSTRAP_TIMEOUT must be whole seconds"@,
        }
    }

    pub fn message(self) -> (res: String)
        ensures
            res@ == self.text(),
    {
        let text: &str = match self {
            ConfigError::HostMissing =>
                "PV_MQTT_HOST is required (the MQTT broker sma-daemon publishes to)",
            ConfigError::MqttPortInvalid(_) => "PV_MQTT_PORT must be a port number",
            ConfigError::MatterPortInvalid(_) => "PV_MATTER_PORT must be a port number",
            ConfigError::HomeUnknown => "cannot determine home directory; set PV_STORAGE_PATH",
            ConfigError::TimeoutInvalid(_) => "PV_BOOTSTRAP_TIMEOUT must be whole seconds",
        };
        text.to_owned()
    }

    /// What is wrong with a number.
    pub open spec fn caused_by(self) -> Option<NumberFault> {
        match self {
            ConfigError::MqttPortInvalid(cause) => Some(cause),
            ConfigError::MatterPortInvalid(cause) => Some(cause),
            ConfigError::TimeoutInvalid(cause) => Some(cause),
            _ => None,
        }
    }

    pub fn cause(self) -> (res: Option<NumberFault>)
        ensures
            res == self.caused_by(),
    {
        match self {
            ConfigError::MqttPortInvalid(cause) => Some(cause),
            ConfigError::MatterPortInvalid(cause) => Some(cause),
            ConfigError::TimeoutInvalid(cause) => Some(cause),
            _ => None,
        }
    }
}

/// A variable that holds more than white space; otherwise it counts as unset.
pub open spec fn given(var: Option<Seq<char>>) -> Option<Seq<char>> {
    match var {
        Some(value) => if text::trimmed(value).len() > 0 {
            Some(value)
        } else {
            None
        },
        None => None,
    }
}

/// A number that is given, or its default; the fault of what is given and not a
/// number up to `max`.
pub open spec fn number(var: Option<Seq<char>>, max: nat, default: nat) -> Result<
    nat,
    NumberFault,
> {
    match given(var) {
        Some(value) => parsed_unsigned(value, max),
        None => Ok(default),
    }
}

/// The port of the broker.
pub open spec fn mqtt_port(vars: VarsView) -> Result<nat, NumberFault> {
    number(vars.mqtt_port, u16::MAX as nat, DEFAULT_MQTT_PORT as nat)
}

/// The port of the node.
pub open spec fn matter_port(vars: VarsView) -> Result<nat, NumberFault> {
    number(vars.matter_port, u16::MAX as nat, DEFAULT_MATTER_PORT as nat)
}

/// How long the start may wait.
pub open spec fn bootstrap_timeout(vars: VarsView) -> Result<nat, NumberFault> {
    number(vars.bootstrap_timeout, u64::MAX as nat, DEFAULT_BOOTSTRAP_TIMEOUT_SECS as nat)
}

/// The first fault of the variables.
pub open spec fn fault(vars: VarsView, home_known: bool) -> Option<ConfigError> {
    if given(vars.mqtt_host) is None {
        Some(ConfigError::HostMissing)
    } else if mqtt_port(vars) is Err {
        Some(ConfigError::MqttPortInvalid(mqtt_port(vars)->Err_0))
    } else if matter_port(vars) is Err {
        Some(ConfigError::MatterPortInvalid(matter_port(vars)->Err_0))
    } else if given(vars.storage_path) is None && !home_known {
        Some(ConfigError::HomeUnknown)
    } else if bootstrap_timeout(vars) is Err {
        Some(ConfigError::TimeoutInvalid(bootstrap_timeout(vars)->Err_0))
    } else {
        None
    }
}

/// The configuration of variables without a fault.
pub open spec fn configured(vars: VarsView) -> ConfigView {
    ConfigView {
        mqtt_host: given(vars.mqtt_host)->0,
        mqtt_port: mqtt_port(vars)->Ok_0 as u16,
        matter_port: matter_port(vars)->Ok_0 as u16,
        mqtt_username: given(vars.mqtt_username),
        mqtt_password: given(vars.mqtt_password),
        topic_prefix: match given(vars.topic_prefix) {
            Some(prefix) => prefix,
            None => DEFAULT_TOPIC_PREFIX@,
        },
        device_id: given(vars.device_id),
        storage_path: match given(vars.storage_path) {
            Some(path) => StoragePathView::Given(path),
            None => StoragePathView::InHome,
        },
        bootstrap_timeout: bootstrap_timeout(vars)->Ok_0 as u64,
    }
}

fn take_given(var: Option<String>) -> (res: Option<String>)
    ensures
        res.deep_view() == given(var.deep_view()),
{
    match var {
        Some(value) => if text::trim(value.as_str()).is_empty() {
            None
        } else {
            Some(value)
        },
        None => None,
    }
}

fn take_number(var: Option<String>, max: u64, default: u64) -> (res: Result<u64, NumberFault>)
    ensures
        match number(var.deep_view(), max as nat, default as nat) {
            Ok(n) => res is Ok && res->Ok_0 == n,
            Err(fault) => res == Err::<u64, NumberFault>(fault),
        },
        default <= max ==> (res matches Ok(n) ==> n <= max),
{
    match take_given(var) {
        Some(value) => decimal::parse_unsigned(value.as_str(), max),
        None => Ok(default),
    }
}

impl Config {
    /// Reads the variables; `home_known` says whether there is a home directory.
    pub fn from_vars(vars: Vars, home_known: bool) -> (res: Result<Config, ConfigError>)
        ensures
            match res {
                Ok(config) => fault(vars.deep_view(), home_known) is None && config.deep_view()
                    == configured(vars.deep_view()),
                Err(error) => fault(vars.deep_view(), home_known) == Some(error),
            },
    {
        let mqtt_host = match take_given(vars.mqtt_host) {
            Some(host) => host,
            None => return Err(ConfigError::HostMissing),
        };
        let mqtt_port: u64 = match take_number(
            vars.mqtt_port,
            u16::MAX as u64,
            DEFAULT_MQTT_PORT as u64,
        ) {
            Ok(port) => port,
            Err(cause) => return Err(ConfigError::MqttPortInvalid(cause)),
        };
        let matter_port: u64 = match take_number(
            vars.matter_port,
            u16::MAX as u64,
            DEFAULT_MATTER_PORT as u64,
        ) {
            Ok(port) => port,
            Err(cause) => return Err(ConfigError::MatterPortInvalid(cause)),
        };
        let storage_path = match take_given(vars.storage_path) {
            Some(path) => StoragePath::Given(path),
            None => {
                if !home_known {
                    return Err(ConfigError::HomeUnknown);
                }
                StoragePath::InHome
            },
        };
        let bootstrap_timeout: u64 = match take_number(
            vars.bootstrap_timeout,
            u64::MAX,
            DEFAULT_BOOTSTRAP_TIMEOUT_SECS,
        ) {
            Ok(seconds) => seconds,
            Err(cause) => return Err(ConfigError::TimeoutInvalid(cause)),
        };
        let topic_prefix = match take_given(vars.topic_prefix) {
            Some(prefix) => prefix,
            None => DEFAULT_TOPIC_PREFIX.to_owned(),
        };
        Ok(
            Config {
                mqtt_host,
                mqtt_port: mqtt_port as u16,
                matter_port: matter_port as u16,
                mqtt_username: take_given(vars.mqtt_username),
                mqtt_password: take_given(vars.mqtt_password),
                topic_prefix,
                device_id: take_given(vars.device_id),
                storage_path,
                bootstrap_timeout,
            },
        )
    }
}

} // verus!
