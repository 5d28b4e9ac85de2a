//! Configuration, identity, and the life of the daemon.
use pv_matter::config::{Config, ConfigError, StoragePath, Vars};
use pv_matter::decimal::NumberFault;
use pv_matter::domain::{DomainMsg, InverterInfo, LinkStatus, State};
use pv_matter::identity::{basic_info, DEVICE_NAME, VENDOR_NAME};
use pv_matter::lifecycle::{
    daemon_step, startup_action, startup_step, DaemonAction, DaemonEvent, StartupAction,
    StartupEvent,
};

fn with_host() -> Vars {
    Vars {
        mqtt_host: Some("broker".into()),
        ..Vars::default()
    }
}

#[test]
fn a_host_is_enough() {
    let config = Config::from_vars(with_host(), true).unwrap();
    assert_eq!(
        config,
        Config {
            mqtt_host: "broker".into(),
            mqtt_port: 1883,
            matter_port: 5540,
            mqtt_username: None,
            mqtt_password: None,
            topic_prefix: "pv-inverter".into(),
            device_id: None,
            storage_path: StoragePath::InHome,
            bootstrap_timeout: 30,
        }
    );
}

#[test]
fn every_variable_is_read() {
    let vars = Vars {
        mqtt_host: Some("h".into()),
        mqtt_port: Some("0".into()),
        matter_port: Some("+65535".into()),
        mqtt_username: Some("u".into()),
        mqtt_password: Some("p".into()),
        topic_prefix: Some("roof/pv".into()),
        device_id: Some("sma-1".into()),
        storage_path: Some("/var/lib/pv".into()),
        bootstrap_timeout: Some("18446744073709551615".into()),
    };
    let config = Config::from_vars(vars, false).unwrap();
    assert_eq!(config.mqtt_port, 0);
    assert_eq!(config.matter_port, 65_535);
    assert_eq!(config.mqtt_username.as_deref(), Some("u"));
    assert_eq!(config.mqtt_password.as_deref(), Some("p"));
    assert_eq!(config.topic_prefix, "roof/pv");
    assert_eq!(config.device_id.as_deref(), Some("sma-1"));
    assert_eq!(config.storage_path, StoragePath::Given("/var/lib/pv".into()));
    assert_eq!(config.bootstrap_timeout, u64::MAX);
}

#[test]
fn blank_variables_count_as_unset() {
    let mut vars = with_host();
    vars.mqtt_port = Some("".into());
    vars.topic_prefix = Some(" \t".into());
    vars.device_id = Some("\n".into());
    vars.bootstrap_timeout = Some("\u{a0}".into());
    assert_eq!(
        Config::from_vars(vars, true),
        Config::from_vars(with_host(), true)
    );
    // What is given is taken as it stands.
    let mut vars = with_host();
    vars.device_id = Some(" x ".into());
    assert_eq!(
        Config::from_vars(vars, true).unwrap().device_id.as_deref(),
        Some(" x ")
    );
}

#[test]
fn faults_are_told_in_order() {
    let bad = Vars {
        mqtt_host: Some("  ".into()),
        mqtt_port: Some("65536".into()),
        matter_port: Some(" 5540".into()),
        bootstrap_timeout: Some("1.5".into()),
        ..Vars::default()
    };
    assert_eq!(
        Config::from_vars(bad.clone(), false),
        Err(ConfigError::HostMissing)
    );
    let bad = Vars {
        mqtt_host: Some("h".into()),
        ..bad
    };
    assert_eq!(
        Config::from_vars(bad.clone(), false),
        Err(ConfigError::MqttPortInvalid(NumberFault::TooLarge))
    );
    let bad = Vars {
        mqtt_port: None,
        ..bad
    };
    assert_eq!(
        Config::from_vars(bad.clone(), false),
        Err(ConfigError::MatterPortInvalid(NumberFault::InvalidDigit))
    );
    let bad = Vars {
        matter_port: None,
        ..bad
    };
    assert_eq!(
        Config::from_vars(bad.clone(), false),
        Err(ConfigError::HomeUnknown)
    );
    assert_eq!(
        Config::from_vars(bad, true),
        Err(ConfigError::TimeoutInvalid(NumberFault::InvalidDigit))
    );
}

#[test]
fn faulty_numbers_have_their_cause() {
    for timeout in [
        "-1",
        "+",
        "++1",
        "18446744073709551616",
        "99999999999999999999999",
        "99999999999999999999s",
        "1844674407370955161s",
        "30s",
        "1.5",
        "\u{663}",
    ] {
        let mut vars = with_host();
        vars.bootstrap_timeout = Some(timeout.into());
        let error = Config::from_vars(vars, true).unwrap_err();
        let cause = error.cause().unwrap();
        assert_eq!(error, ConfigError::TimeoutInvalid(cause), "{timeout}");
        // In the words of the standard library, for the same text.
        let parsed: Result<u64, std::num::ParseIntError> = timeout.parse();
        assert_eq!(cause.message(), parsed.unwrap_err().to_string(), "{timeout}");
    }
    for port in ["65536", "6553x", "99999x", "x99999", "70000000000000000000000"] {
        let mut vars = with_host();
        vars.mqtt_port = Some(port.into());
        let cause = Config::from_vars(vars, true).unwrap_err().cause().unwrap();
        let parsed: Result<u16, std::num::ParseIntError> = port.parse();
        assert_eq!(cause.message(), parsed.unwrap_err().to_string(), "{port}");
    }
    assert_eq!(ConfigError::HostMissing.cause(), None);
    assert_eq!(ConfigError::HomeUnknown.cause(), None);
    assert_eq!(
        NumberFault::InvalidDigit.message(),
        "invalid digit found in string"
    );
    assert_eq!(
        NumberFault::TooLarge.message(),
        "number too large to fit in target type"
    );
}

#[test]
fn faults_have_their_words() {
    assert_eq!(
        ConfigError::HostMissing.message(),
        "PV_MQTT_HOST is required (the MQTT broker sma-daemon publishes to)"
    );
    assert_eq!(
        ConfigError::MqttPortInvalid(NumberFault::TooLarge).message(),
        "PV_MQTT_PORT must be a port number"
    );
    assert_eq!(
        ConfigError::MatterPortInvalid(NumberFault::InvalidDigit).message(),
        "PV_MATTER_PORT must be a port number"
    );
    assert_eq!(
        ConfigError::HomeUnknown.message(),
        "cannot determine home directory; set PV_STORAGE_PATH"
    );
    assert_eq!(
        ConfigError::TimeoutInvalid(NumberFault::InvalidDigit).message(),
        "PV_BOOTSTRAP_TIMEOUT must be whole seconds"
    );
}

#[test]
fn the_device_is_named_after_the_inverter() {
    let info = InverterInfo {
        serial: Some(2_130_012_345),
        device_model: Some("SB5000TL-21".into()),
        ..InverterInfo::default()
    };
    let basic = basic_info(&Some(info));
    assert_eq!(basic.product_name, "SB5000TL-21");
    assert_eq!(basic.serial_no, "2130012345");
    let basic = basic_info(&Some(InverterInfo::default()));
    assert_eq!(basic.product_name, "PV Inverter");
    assert_eq!(basic.serial_no, "");
    assert_eq!(basic_info(&None), basic);
    let info = InverterInfo {
        serial: Some(u64::MAX),
        ..InverterInfo::default()
    };
    assert_eq!(basic_info(&Some(info)).serial_no, "18446744073709551615");
    assert_eq!(DEVICE_NAME, "PV Inverter");
    assert_eq!(VENDOR_NAME, "pv-matter (unofficial)");
}

#[test]
fn the_start_waits_for_an_identity() {
    let mut state = State::default();
    assert_eq!(startup_action(&state), StartupAction::Await);
    let status = DomainMsg::Status(LinkStatus::Online);
    assert_eq!(
        startup_step(&mut state, StartupEvent::Message(status)),
        StartupAction::Await
    );
    assert_eq!(state.snapshot.link, LinkStatus::Online);
    let mut hasty = state.clone();
    assert_eq!(
        startup_step(&mut hasty, StartupEvent::TimedOut),
        StartupAction::Start
    );
    assert_eq!(hasty.info, None);
    assert_eq!(
        startup_step(&mut hasty, StartupEvent::IngestGone),
        StartupAction::Start
    );
    let info = DomainMsg::Info(InverterInfo::default());
    assert_eq!(
        startup_step(&mut state, StartupEvent::Message(info)),
        StartupAction::Start
    );
    assert_eq!(startup_action(&state), StartupAction::Start);
}

#[test]
fn the_daemon_forwards_and_stops() {
    let mut state = State::default();
    let status = DomainMsg::Status(LinkStatus::Offline);
    let action = daemon_step(&mut state, DaemonEvent::Message(status));
    assert_eq!(state.snapshot.link, LinkStatus::Offline);
    assert_eq!(action, DaemonAction::Forward(state.snapshot));
    for (event, action) in [
        (DaemonEvent::Forwarded, DaemonAction::Await),
        (DaemonEvent::NoMessage, DaemonAction::Await),
        (
            DaemonEvent::ShutdownRequested,
            DaemonAction::Stop { fatal: false },
        ),
        (DaemonEvent::MatterExited, DaemonAction::Stop { fatal: true }),
        (DaemonEvent::IngestEnded, DaemonAction::Stop { fatal: true }),
        (
            DaemonEvent::ForwardFailed,
            DaemonAction::Stop { fatal: true },
        ),
    ] {
        assert_eq!(daemon_step(&mut state, event), action);
        assert_eq!(state.snapshot.link, LinkStatus::Offline);
    }
}
