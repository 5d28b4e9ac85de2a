//! Topics and publishes.
use pv_matter::config::{Config, Vars};
use pv_matter::domain::{DomainMsg, LinkStatus};
use pv_matter::senml::PackError;
use pv_matter::ingest::{
    connection, read_message, refusal, IngestAction, IngestEvent, Refusal, Router,
    RECONNECT_DELAY_SECS,
};

fn router() -> Router {
    Router::new("pv-inverter".into(), None)
}

#[test]
fn routes_status_and_locks_onto_first_device() {
    let mut r = router();
    assert_eq!(
        r.route("pv-inverter/sma-sb5000tl-2130012345/status", b"online"),
        Some(DomainMsg::Status(LinkStatus::Online))
    );
    // A second device id is ignored once locked.
    assert_eq!(r.route("pv-inverter/sma-other-1/status", b"online"), None);
    // The locked device keeps flowing.
    assert_eq!(
        r.route("pv-inverter/sma-sb5000tl-2130012345/status", b"asleep"),
        Some(DomainMsg::Status(LinkStatus::Asleep))
    );
}

#[test]
fn pinned_device_never_locks_elsewhere() {
    let mut r = Router::new("pv-inverter".into(), Some("sma-x-9".into()));
    assert_eq!(r.route("pv-inverter/sma-other-1/status", b"online"), None);
    assert_eq!(
        r.route("pv-inverter/sma-x-9/status", b"online"),
        Some(DomainMsg::Status(LinkStatus::Online))
    );
}

#[test]
fn foreign_prefixes_and_shapes_are_ignored() {
    let mut r = router();
    assert_eq!(r.route("other/sma-x-9/status", b"online"), None);
    assert_eq!(r.route("pv-inverter/status", b"online"), None);
    assert_eq!(r.route("pv-inverter/sma-x-9/status/extra", b"online"), None);
    // Unknown leaf under a locked device: ignored.
    assert_eq!(r.route("pv-inverter/sma-x-9/unknown", b"x"), None);
}

#[test]
fn routes_info_and_pack_payloads() {
    let mut r = router();
    let info = r.route(
        "pv-inverter/sma-x-9/info",
        br#"{"schema":1,"serial":42,"lines":1,"strings":2}"#,
    );
    assert!(matches!(info, Some(DomainMsg::Info(i)) if i.serial == Some(42)));

    let pack = r.route(
        "pv-inverter/sma-x-9/instantaneous",
        br#"[{"bn":"urn:dev:ser:42:","bt":1,"bu":"W"},{"n":"ac/total_power","v":10}]"#,
    );
    assert!(matches!(pack, Some(DomainMsg::Pack(_))));

    // Corrupt payloads are dropped, not crashed on.
    assert_eq!(r.route("pv-inverter/sma-x-9/info", b"{"), None);
    assert_eq!(r.route("pv-inverter/sma-x-9/instantaneous", b"nope"), None);
}

fn publish(topic: &[u8], payload: &[u8]) -> IngestEvent {
    IngestEvent::Publish {
        topic: topic.to_vec(),
        payload: payload.to_vec(),
    }
}

#[test]
fn every_connect_subscribes_to_the_three_topics() {
    let mut r = router();
    let filters = vec![
        "pv-inverter/+/info".to_owned(),
        "pv-inverter/+/instantaneous".to_owned(),
        "pv-inverter/+/status".to_owned(),
    ];
    assert_eq!(
        r.step(&IngestEvent::Connected),
        IngestAction::Subscribe {
            filters: filters.clone(),
            qos: 1
        }
    );
    r.step(&publish(b"pv-inverter/d/status", b"online"));
    assert_eq!(
        r.step(&IngestEvent::Failed),
        IngestAction::BackOff {
            seconds: RECONNECT_DELAY_SECS
        }
    );
    assert_eq!(RECONNECT_DELAY_SECS, 3);
    assert_eq!(r.step(&IngestEvent::Other), IngestAction::Nothing);
    assert_eq!(r.step(&IngestEvent::SubscribeFailed), IngestAction::Nothing);
    // A reconnect subscribes again and keeps the lock.
    assert_eq!(
        r.step(&IngestEvent::Connected),
        IngestAction::Subscribe { filters, qos: 1 }
    );
    assert_eq!(r.device_id.as_deref(), Some("d"));
}

#[test]
fn publishes_are_delivered() {
    let mut r = router();
    assert_eq!(
        r.step(&publish(b"pv-inverter/d/status", b" asleep\n")),
        IngestAction::Deliver(DomainMsg::Status(LinkStatus::Asleep))
    );
    assert_eq!(
        r.step(&publish(b"pv-inverter/d/status", b"gone")),
        IngestAction::Nothing
    );
    assert_eq!(
        r.step(&publish(b"elsewhere/d/status", b"online")),
        IngestAction::Nothing
    );
}

#[test]
fn topics_that_are_not_utf8_are_read_with_replacements() {
    let mut r = router();
    assert_eq!(
        r.step(&publish(b"pv-inverter/d\xff/status", b"online")),
        IngestAction::Deliver(DomainMsg::Status(LinkStatus::Online))
    );
    assert_eq!(r.device_id.as_deref(), Some("d\u{fffd}"));
    assert_eq!(read_message("status", b"online\xff"), None);
    assert_eq!(
        read_message("status", "\u{a0}online".as_bytes()),
        Some(DomainMsg::Status(LinkStatus::Online))
    );
}

#[test]
fn the_first_device_is_locked_onto_whatever_it_says() {
    let mut r = router();
    assert_eq!(r.route("pv-inverter/first/unknown", b""), None);
    assert_eq!(r.device_id.as_deref(), Some("first"));
    assert!(!r.warned_other_device);
    assert_eq!(r.turned_away("pv-inverter/first/status"), None);
    assert_eq!(r.route("pv-inverter/second/status", b"online"), None);
    assert!(r.warned_other_device);
    assert_eq!(
        r.turned_away("pv-inverter/second/status").as_deref(),
        Some("second")
    );
    assert_eq!(r.turned_away("pv-inverter/second/status/x"), None);
    let fresh = Router::new("pv-inverter".into(), None);
    assert_eq!(fresh.turned_away("pv-inverter/second/status"), None);
    assert_eq!(r.device_id.as_deref(), Some("first"));
}

#[test]
fn topics_need_a_device_and_one_leaf() {
    let mut r = router();
    for topic in [
        "",
        "/",
        "pv-inverter",
        "pv-inverter/",
        "pv-inverter//status",
        "pv-inverter/d",
        "pv-inverterd/status",
        "pv-inverter/d/status/",
        "xpv-inverter/d/status",
    ] {
        assert_eq!(r.route(topic, b"online"), None, "{topic}");
        assert_eq!(r.device_id, None, "{topic}");
    }
    // A prefix of several levels, and one that is empty.
    let mut r = Router::new("a/b".into(), None);
    assert!(r.route("a/b/d/status", b"online").is_some());
    let mut r = Router::new("".into(), None);
    assert!(r.route("/d/status", b"online").is_some());
}

#[test]
fn connections_follow_the_configuration() {
    let mut vars = Vars {
        mqtt_host: Some("broker.local".into()),
        mqtt_port: Some("8883".into()),
        mqtt_username: Some("me".into()),
        ..Vars::default()
    };
    let config = Config::from_vars(vars.clone(), true).unwrap();
    let settings = connection(&config, 4711);
    assert_eq!(settings.client_id, "pv-matter-4711");
    assert_eq!(settings.host, "broker.local");
    assert_eq!(settings.port, 8883);
    assert_eq!(settings.keep_alive_secs, 30);
    assert!(settings.clean_start);
    // A user name without a password is not used.
    assert_eq!(settings.credentials, None);
    vars.mqtt_password = Some("pw".into());
    let config = Config::from_vars(vars, true).unwrap();
    assert_eq!(
        connection(&config, 0).credentials,
        Some(("me".to_owned(), "pw".to_owned()))
    );
    assert_eq!(connection(&config, 0).client_id, "pv-matter-0");
}

#[test]
fn refusals_say_why() {
    let mut r = router();
    assert_eq!(r.route("pv-inverter/d/info", b"{"), None);
    assert!(matches!(
        r.refusal("pv-inverter/d/info", b"{"),
        Some(Refusal::Info(_))
    ));
    assert!(matches!(
        r.refusal("pv-inverter/d/instantaneous", b"nope"),
        Some(Refusal::Pack(PackError::Json(_)))
    ));
    assert!(matches!(
        r.refusal("pv-inverter/d/instantaneous", b"[]"),
        Some(Refusal::Pack(PackError::MissingHeader))
    ));
    match r.refusal("pv-inverter/d/status", b"gone\xff") {
        Some(Refusal::Status(text)) => assert_eq!(text, "gone\u{fffd}"),
        other => panic!("{other:?}"),
    }
    // What is delivered, or of no concern, is not refused.
    assert!(r.refusal("pv-inverter/d/status", b"online").is_none());
    assert!(r.refusal("pv-inverter/d/info", b"{}").is_none());
    assert!(r.refusal("pv-inverter/d/unknown", b"x").is_none());
    assert!(r.refusal("pv-inverter/other/status", b"x").is_none());
    assert!(r.refusal("elsewhere/d/status", b"x").is_none());
    assert!(refusal("instantaneous", br#"[{"bt": 1}]"#).is_none());
}
