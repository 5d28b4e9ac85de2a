//! Snapshots, identities, and what messages do to them.
use pv_matter::domain::{
    unscaled_records, DeviceStatus, DomainMsg, GridRelay, InverterInfo, LinkStatus, PvSnapshot,
    RawInfo, SourceStatus, State,
};
use pv_matter::senml::{parse_pack, Pack, Record, Value};

const CONTRACT_PACK: &[u8] = br#"[
  {"bn": "urn:dev:ser:2130012345:", "bt": 1751625000, "bu": "W"},
  {"n": "ac/total_power",                        "v": 2450},
  {"n": "ac/l1/power",                           "v": 2450},
  {"n": "ac/l1/voltage",            "u": "V",    "v": 236.40},
  {"n": "ac/l1/current",            "u": "A",    "v": 10.370},
  {"n": "ac/frequency",             "u": "Hz",   "v": 49.98},
  {"n": "dc/s1/power",              "t": -10,    "v": 1310},
  {"n": "energy/total",             "u": "Wh",   "v": 41784321, "t": -10},
  {"n": "energy/today",             "u": "Wh",   "v": 10432},
  {"n": "device/temperature",       "u": "Cel",  "v": 41.30},
  {"n": "device/status",                         "vs": "ok"},
  {"n": "device/grid_relay",                     "vs": "closed"}
]"#;

fn online_with_pack() -> PvSnapshot {
    let mut snap = PvSnapshot::default();
    snap.set_status(LinkStatus::Online);
    snap.apply_pack(&parse_pack(CONTRACT_PACK).unwrap());
    snap
}

#[test]
fn maps_contract_pack_into_matter_units() {
    let snap = online_with_pack();
    assert_eq!(snap.power_mw, Some(2_450_000));
    assert_eq!(snap.voltage_mv, Some(236_400));
    assert_eq!(snap.current_ma, Some(10_370));
    assert_eq!(snap.frequency_mhz, Some(49_980));
    assert_eq!(snap.energy_total_mwh, Some(41_784_321_000));
    assert_eq!(snap.energy_end_ts, Some(1_751_624_990)); // bt + t(-10)
    assert_eq!(snap.temperature_centi_c, Some(4_130));
    assert_eq!(snap.device_status, Some(DeviceStatus::Okay));
    assert_eq!(snap.grid_relay, Some(GridRelay::Closed));
}

#[test]
fn absent_instantaneous_readings_become_none_but_energy_is_retained() {
    let mut snap = online_with_pack();
    let sparse = br#"[
      {"bn": "urn:dev:ser:2130012345:", "bt": 1751625300, "bu": "W"},
      {"n": "ac/total_power", "v": 900}
    ]"#;
    snap.apply_pack(&parse_pack(sparse).unwrap());
    assert_eq!(snap.power_mw, Some(900_000));
    assert_eq!(snap.voltage_mv, None);
    assert_eq!(snap.frequency_mhz, None);
    assert_eq!(snap.temperature_centi_c, None);
    // The lifetime counter survives a pack that omits it.
    assert_eq!(snap.energy_total_mwh, Some(41_784_321_000));
    assert_eq!(snap.energy_end_ts, Some(1_751_624_990));
}

#[test]
fn asleep_blanks_instantaneous_but_keeps_energy() {
    let mut snap = online_with_pack();
    snap.set_status(LinkStatus::Asleep);
    assert_eq!(snap.power_mw, None);
    assert_eq!(snap.voltage_mv, None);
    assert_eq!(snap.current_ma, None);
    assert_eq!(snap.frequency_mhz, None);
    assert_eq!(snap.temperature_centi_c, None);
    assert_eq!(snap.energy_total_mwh, Some(41_784_321_000));
    assert_eq!(snap.source_status(), SourceStatus::Standby);
}

#[test]
fn retained_pack_replay_while_asleep_stays_masked() {
    // Broker restart at night: the retained pack replays while status is
    // asleep — instantaneous readings must not resurrect.
    let mut snap = PvSnapshot::default();
    snap.set_status(LinkStatus::Asleep);
    snap.apply_pack(&parse_pack(CONTRACT_PACK).unwrap());
    assert_eq!(snap.power_mw, None);
    assert_eq!(snap.energy_total_mwh, Some(41_784_321_000));
}

#[test]
fn source_status_table() {
    let mut snap = PvSnapshot::default();
    assert_eq!(snap.source_status(), SourceStatus::Unspecified);
    snap.set_status(LinkStatus::Online);
    assert_eq!(snap.source_status(), SourceStatus::Active);
    snap.grid_relay = Some(GridRelay::Open);
    assert_eq!(snap.source_status(), SourceStatus::Standby);
    snap.set_status(LinkStatus::Offline);
    assert_eq!(snap.source_status(), SourceStatus::Unavailable);
}

#[test]
fn grid_relay_maps_by_state_while_online() {
    let mut snap = PvSnapshot::default();
    snap.set_status(LinkStatus::Online);
    snap.grid_relay = Some(GridRelay::Closed);
    assert_eq!(snap.source_status(), SourceStatus::Active);
    snap.grid_relay = Some(GridRelay::Open);
    assert_eq!(snap.source_status(), SourceStatus::Standby);
    snap.grid_relay = Some(GridRelay::Unknown);
    assert_eq!(snap.source_status(), SourceStatus::Standby);
    snap.grid_relay = Some(GridRelay::Fault);
    assert_eq!(snap.source_status(), SourceStatus::Unavailable);
}

#[test]
fn device_status_maps_by_health_while_online() {
    let mut snap = PvSnapshot::default();
    snap.set_status(LinkStatus::Online);
    snap.device_status = Some(DeviceStatus::Okay);
    assert_eq!(snap.source_status(), SourceStatus::Active);
    snap.device_status = Some(DeviceStatus::Warning);
    assert_eq!(snap.source_status(), SourceStatus::Active);
    // `unknown` abstains, leaving the Active baseline.
    snap.device_status = Some(DeviceStatus::Unknown);
    assert_eq!(snap.source_status(), SourceStatus::Active);
    snap.device_status = Some(DeviceStatus::Off);
    assert_eq!(snap.source_status(), SourceStatus::Unavailable);
    snap.device_status = Some(DeviceStatus::Fault);
    assert_eq!(snap.source_status(), SourceStatus::Unavailable);
}

#[test]
fn online_signals_combine_by_severity() {
    let mut snap = PvSnapshot::default();
    snap.set_status(LinkStatus::Online);
    // A healthy device with an open relay is Standby (relay wins).
    snap.device_status = Some(DeviceStatus::Okay);
    snap.grid_relay = Some(GridRelay::Open);
    assert_eq!(snap.source_status(), SourceStatus::Standby);
    // A faulted device with a closed relay is Unavailable (fault wins).
    snap.grid_relay = Some(GridRelay::Closed);
    snap.device_status = Some(DeviceStatus::Fault);
    assert_eq!(snap.source_status(), SourceStatus::Unavailable);
}

#[test]
fn device_status_parses_contract_values_only() {
    let mut snap = PvSnapshot::default();
    snap.set_status(LinkStatus::Online);
    // An unrecognised vs (e.g. a raw numeric-code passthrough) is left
    // unmapped, not guessed at — it abstains like `unknown`.
    let odd = br#"[
      {"bn": "urn:dev:ser:1:", "bt": 1, "bu": "W"},
      {"n": "device/status", "vs": "12345"},
      {"n": "device/grid_relay", "vs": "12345"}
    ]"#;
    snap.apply_pack(&parse_pack(odd).unwrap());
    assert_eq!(snap.device_status, None);
    assert_eq!(snap.grid_relay, None);
    assert_eq!(snap.source_status(), SourceStatus::Active);
}

#[test]
fn unexpected_units_are_skipped_not_misscaled() {
    let mut snap = PvSnapshot::default();
    snap.set_status(LinkStatus::Online);
    let odd = br#"[
      {"bn": "urn:dev:ser:1:", "bt": 1, "bu": "W"},
      {"n": "ac/l1/voltage", "u": "kV", "v": 0.23},
      {"n": "ac/total_power", "v": 100}
    ]"#;
    snap.apply_pack(&parse_pack(odd).unwrap());
    assert_eq!(snap.voltage_mv, None);
    assert_eq!(snap.power_mw, Some(100_000));
}

#[test]
fn parses_info_document() {
    let info = InverterInfo::parse(
        br#"{ "schema": 1, "serial": 2130012345, "name": "SunMonkey",
              "device_model": "SB5000TL-21", "lines": 1, "strings": 2,
              "max_power_watts": { "l1": 5000 }, "device_type": "pv_inverter" }"#,
    )
    .unwrap();
    assert_eq!(info.serial, Some(2_130_012_345));
    assert_eq!(info.name.as_deref(), Some("SunMonkey"));
    assert_eq!(info.device_model.as_deref(), Some("SB5000TL-21"));
    assert_eq!(info.lines, Some(1));
    assert_eq!(info.strings, Some(2));
    assert_eq!(info.max_power_w, Some(5000));
}

#[test]
fn info_nameplate_rating_sums_per_line_ratings() {
    // A three-phase inverter reports one rating per line; the EPM total
    // envelope is the whole-inverter sum.
    let info = InverterInfo::parse(
        br#"{ "max_power_watts": { "l1": 5000, "l2": 5000, "l3": 5000 } }"#,
    )
    .unwrap();
    assert_eq!(info.max_power_w, Some(15_000));
}

#[test]
fn info_nameplate_rating_reaches_the_snapshot() {
    let info = InverterInfo::parse(br#"{ "max_power_watts": { "l1": 5000 } }"#).unwrap();
    let mut state = State::default();
    state.apply(DomainMsg::Info(info));
    // The rating is nameplate identity: it lands on the forwarded snapshot
    // and survives an offline transition (never masked).
    assert_eq!(state.snapshot.max_power_w, Some(5000));
    state.apply(DomainMsg::Status(LinkStatus::Offline));
    assert_eq!(state.snapshot.max_power_w, Some(5000));
}

#[test]
fn status_parses_contract_values_only() {
    assert_eq!(LinkStatus::parse("online"), Some(LinkStatus::Online));
    assert_eq!(LinkStatus::parse("asleep\n"), Some(LinkStatus::Asleep));
    assert_eq!(LinkStatus::parse("offline"), Some(LinkStatus::Offline));
    assert_eq!(LinkStatus::parse("bogus"), None);
}

fn record(name: &str, unit: Option<&str>, value: Value) -> Record {
    Record {
        name: name.into(),
        unit: unit.map(|u| u.into()),
        time_offset: 0,
        value,
    }
}

fn number(literal: &str) -> Value {
    Value::Number(literal.into())
}

fn pack(base_time: i64, records: Vec<Record>) -> Pack {
    Pack { base_time, records }
}

#[test]
fn nothing_is_known_at_first() {
    let snap = PvSnapshot::default();
    assert_eq!(snap.link, LinkStatus::Unknown);
    assert_eq!(snap.power_mw, None);
    assert_eq!(snap.energy_total_mwh, None);
    assert_eq!(snap.max_power_w, None);
    assert_eq!(LinkStatus::default(), LinkStatus::Unknown);
    let state = State::default();
    assert_eq!(state.snapshot, snap);
    assert_eq!(state.info, None);
    assert_eq!(InverterInfo::default().serial, None);
}

#[test]
fn the_last_record_of_a_name_counts() {
    let mut snap = PvSnapshot::default();
    snap.set_status(LinkStatus::Online);
    snap.apply_pack(&pack(
        7,
        vec![
            record("ac/total_power", Some("W"), number("1")),
            record("ac/total_power", Some("W"), number("2.5")),
            record("ac/frequency", Some("Hz"), number("50")),
            record("ac/frequency", Some("kHz"), number("0.05")),
        ],
    ));
    assert_eq!(snap.power_mw, Some(2_500));
    // The later record has a unit that is not mapped.
    assert_eq!(snap.frequency_mhz, None);
}

#[test]
fn an_unreadable_total_keeps_the_one_before() {
    let mut snap = PvSnapshot::default();
    let mut good = record("energy/total", Some("Wh"), number("12"));
    good.time_offset = -3;
    let bad = record("energy/total", Some("kWh"), number("99"));
    let text = record("energy/total", Some("Wh"), Value::Text("99".into()));
    snap.apply_pack(&pack(100, vec![good, bad, text]));
    assert_eq!(snap.energy_total_mwh, Some(12_000));
    assert_eq!(snap.energy_end_ts, Some(97));
}

#[test]
fn texts_of_number_records_are_no_readings() {
    let mut snap = PvSnapshot::default();
    snap.set_status(LinkStatus::Online);
    snap.apply_pack(&pack(
        1,
        vec![
            record("ac/total_power", Some("W"), Value::Text("12".into())),
            record("device/status", None, Value::Text("fault".into())),
            record("device/status", None, number("1")),
        ],
    ));
    assert_eq!(snap.power_mw, None);
    // A number says nothing of the status, and leaves the text before it.
    assert_eq!(snap.device_status, Some(DeviceStatus::Fault));
}

#[test]
fn temperatures_are_hundredths_that_fit_sixteen_bits() {
    let mut snap = PvSnapshot::default();
    snap.set_status(LinkStatus::Online);
    for (literal, expected) in [
        ("-12.345", Some(-1_235)),
        ("327.67", Some(32_767)),
        ("327.68", None),
        ("-327.68", Some(-32_768)),
        ("-327.69", None),
    ] {
        snap.apply_pack(&pack(
            1,
            vec![record("device/temperature", Some("Cel"), number(literal))],
        ));
        assert_eq!(snap.temperature_centi_c, expected, "{literal}");
    }
    snap.apply_pack(&pack(
        1,
        vec![record("device/temperature", Some("K"), number("300"))],
    ));
    assert_eq!(snap.temperature_centi_c, None);
}

#[test]
fn health_and_relay_words_are_exact() {
    assert_eq!(DeviceStatus::parse("ok"), Some(DeviceStatus::Okay));
    assert_eq!(DeviceStatus::parse("warning"), Some(DeviceStatus::Warning));
    assert_eq!(DeviceStatus::parse("fault"), Some(DeviceStatus::Fault));
    assert_eq!(DeviceStatus::parse("off"), Some(DeviceStatus::Off));
    assert_eq!(DeviceStatus::parse("unknown"), Some(DeviceStatus::Unknown));
    assert_eq!(DeviceStatus::parse("OK"), None);
    assert_eq!(DeviceStatus::parse(" ok"), None);
    assert_eq!(GridRelay::parse("closed"), Some(GridRelay::Closed));
    assert_eq!(GridRelay::parse("open"), Some(GridRelay::Open));
    assert_eq!(GridRelay::parse("fault"), Some(GridRelay::Fault));
    assert_eq!(GridRelay::parse("unknown"), Some(GridRelay::Unknown));
    assert_eq!(GridRelay::parse(""), None);
    assert_eq!(DeviceStatus::Unknown.source_vote(), None);
    assert_eq!(GridRelay::Unknown.source_vote(), Some(SourceStatus::Standby));
}

#[test]
fn white_space_around_a_status_is_ignored() {
    assert_eq!(LinkStatus::parse("\u{3000} online\r\n\t"), Some(LinkStatus::Online));
    assert_eq!(LinkStatus::parse("on line"), None);
    assert_eq!(LinkStatus::parse("\u{200b}online"), None);
    assert_eq!(LinkStatus::parse(""), None);
}

#[test]
fn severities_are_ordered() {
    assert!(SourceStatus::Unspecified < SourceStatus::Active);
    assert!(SourceStatus::Active < SourceStatus::Standby);
    assert!(SourceStatus::Standby < SourceStatus::Unavailable);
}

#[test]
fn energy_and_rating_outlive_every_message() {
    let mut state = State::default();
    state.apply(DomainMsg::Status(LinkStatus::Online));
    state.apply(DomainMsg::Pack(parse_pack(CONTRACT_PACK).unwrap()));
    let info = InverterInfo::parse(br#"{ "max_power_watts": { "l1": 4600 } }"#).unwrap();
    state.apply(DomainMsg::Info(info));
    for status in [LinkStatus::Asleep, LinkStatus::Offline, LinkStatus::Online] {
        state.apply(DomainMsg::Status(status));
        assert_eq!(state.snapshot.link, status);
        assert_eq!(state.snapshot.energy_total_mwh, Some(41_784_321_000));
        assert_eq!(state.snapshot.max_power_w, Some(4600));
        // Not even coming back online shows what was measured before.
        assert_eq!(state.snapshot.power_mw, None);
    }
    state.apply(DomainMsg::Pack(pack(5, vec![])));
    assert_eq!(state.snapshot.energy_total_mwh, Some(41_784_321_000));
    // An identity without a rating takes the rating away.
    state.apply(DomainMsg::Info(InverterInfo::default()));
    assert_eq!(state.snapshot.max_power_w, None);
}

#[test]
fn messages_that_come_again_change_nothing() {
    let info = InverterInfo::parse(br#"{ "serial": 7, "max_power_watts": { "l1": 1 } }"#).unwrap();
    let messages = [
        DomainMsg::Status(LinkStatus::Online),
        DomainMsg::Pack(parse_pack(CONTRACT_PACK).unwrap()),
        DomainMsg::Info(info),
    ];
    let mut state = State::default();
    for msg in messages {
        state.apply(msg.clone());
        let once = state.clone();
        state.apply(msg);
        assert_eq!(state.snapshot, once.snapshot);
        assert_eq!(state.info, once.info);
    }
}

#[test]
fn times_out_of_range_are_told() {
    let mut late = record("energy/total", Some("Wh"), number("1"));
    late.time_offset = 1;
    let msg = DomainMsg::Pack(pack(i64::MAX, vec![late.clone()]));
    assert!(!msg.times_in_range());
    // Of a total that is not read the time does not matter.
    late.unit = Some("J".into());
    assert!(DomainMsg::Pack(pack(i64::MAX, vec![late])).times_in_range());
    let mut early = record("energy/total", Some("Wh"), number("1"));
    early.time_offset = -1;
    assert!(!DomainMsg::Pack(pack(i64::MIN, vec![early.clone()])).times_in_range());
    assert!(DomainMsg::Pack(pack(i64::MAX, vec![early])).times_in_range());
    assert!(DomainMsg::Status(LinkStatus::Online).times_in_range());
}

#[test]
fn identities_are_read_leniently() {
    let info = InverterInfo::parse(b"{}").unwrap();
    assert_eq!(info, InverterInfo::default());
    // Another schema is read for the fields that are known.
    let info = InverterInfo::parse(br#"{"schema": 2, "serial": null, "lines": 3}"#).unwrap();
    assert_eq!(info.serial, None);
    assert_eq!(info.lines, Some(3));
    // The fields may stand in an array, all of them.
    let info = InverterInfo::parse(br#"[1, 42, "Roof", null, 1, 2, {"l1": 9, "l2": 1}]"#).unwrap();
    assert_eq!(info.serial, Some(42));
    assert_eq!(info.name.as_deref(), Some("Roof"));
    assert_eq!(info.device_model, None);
    assert_eq!(info.max_power_w, Some(10));
}

#[test]
fn identities_of_another_shape_are_refused() {
    for payload in [
        &b""[..],
        b"null",
        b"7",
        b"{",
        b"{} {}",
        br#"{"serial": "42"}"#,
        br#"{"serial": -1}"#,
        br#"{"serial": 1.5}"#,
        br#"{"lines": 4294967296}"#,
        br#"{"lines": 01}"#,
        br#"{"lines": -0}"#,
        br#"{"lines": 1e2}"#,
        br#"{"lines": 1.0}"#,
        br#"{"serial": 18446744073709551616}"#,
        br#"{"serial": true}"#,
        br#"{"name": 7}"#,
        br#"{"max_power_watts": {"l1": -5}}"#,
        br#"{"max_power_watts": [5]}"#,
        br#"{"serial": 1, "serial": 2}"#,
        br#"[1, 42, "Roof", null, 1, 2]"#,
        br#"[1, 42, "Roof", null, 1, 2, null, 3]"#,
    ] {
        assert!(InverterInfo::parse(payload).is_err(), "{payload:?}");
    }
    // A member that is not read may come twice.
    assert!(InverterInfo::parse(br#"{"x": 1, "x": 2}"#).is_ok());
}

#[test]
fn the_greatest_serial_and_ratings_are_kept() {
    let info = InverterInfo::parse(
        br#"{"serial": 18446744073709551615, "max_power_watts": {"l1": 4294967295, "l2": 4294967295}}"#,
    )
    .unwrap();
    assert_eq!(info.serial, Some(u64::MAX));
    assert_eq!(info.max_power_w, Some(8_589_934_590));
    // Of a line that is given twice the later rating counts.
    let info = InverterInfo::parse(br#"{"max_power_watts": {"l1": 1, "l1": 5}}"#).unwrap();
    assert_eq!(info.max_power_w, Some(5));
}

#[test]
fn retained_messages_may_replay_in_any_order() {
    let info = DomainMsg::Info(
        InverterInfo::parse(br#"{ "serial": 7, "max_power_watts": { "l1": 4600 } }"#).unwrap(),
    );
    let status = DomainMsg::Status(LinkStatus::Online);
    let readings = DomainMsg::Pack(parse_pack(CONTRACT_PACK).unwrap());
    let mut state = State::default();
    for msg in [&info, &status, &readings] {
        state.apply(msg.clone());
    }
    let latest = state.clone();
    for order in [
        [&info, &status, &readings],
        [&info, &readings, &status],
        [&readings, &info, &status],
        [&readings, &status, &info],
        [&status, &info, &readings],
        [&status, &readings, &info],
    ] {
        for msg in order {
            state.apply(msg.clone());
        }
        assert_eq!(state.snapshot, latest.snapshot);
        assert_eq!(state.info, latest.info);
    }
}

#[test]
fn signals_count_online_only() {
    for (link, status) in [
        (LinkStatus::Unknown, SourceStatus::Unspecified),
        (LinkStatus::Asleep, SourceStatus::Standby),
        (LinkStatus::Offline, SourceStatus::Unavailable),
    ] {
        for device_status in [None, Some(DeviceStatus::Okay), Some(DeviceStatus::Fault)] {
            let snap = PvSnapshot {
                link,
                device_status,
                grid_relay: Some(GridRelay::Open),
                ..PvSnapshot::default()
            };
            assert_eq!(snap.source_status(), status);
        }
    }
}

#[test]
fn an_identity_stays() {
    let mut state = State::default();
    state.apply(DomainMsg::Info(InverterInfo {
        serial: Some(1),
        ..InverterInfo::default()
    }));
    state.apply(DomainMsg::Status(LinkStatus::Offline));
    state.apply(DomainMsg::Pack(pack(1, vec![])));
    assert_eq!(state.info.as_ref().and_then(|info| info.serial), Some(1));
}

#[test]
fn units_that_are_not_mapped_are_not_scaled() {
    for unit in [None, Some("mW"), Some("kW"), Some("w"), Some("Cel"), Some("s"), Some("")] {
        let mut snap = PvSnapshot::default();
        snap.set_status(LinkStatus::Online);
        snap.apply_pack(&pack(1, vec![record("ac/total_power", unit, number("5"))]));
        assert_eq!(snap.power_mw, None, "{unit:?}");
    }
    // Any of the units that are mapped goes with any reading.
    for unit in ["W", "V", "A", "Hz", "Wh"] {
        let mut snap = PvSnapshot::default();
        snap.set_status(LinkStatus::Online);
        snap.apply_pack(&pack(
            1,
            vec![record("ac/total_power", Some(unit), number("5"))],
        ));
        assert_eq!(snap.power_mw, Some(5_000), "{unit}");
    }
}

#[test]
fn another_schema_is_told() {
    assert_eq!(InverterInfo::unknown_schema(br#"{"schema": 1}"#), None);
    assert_eq!(InverterInfo::unknown_schema(br#"{"schema": 2}"#), Some(2));
    assert_eq!(InverterInfo::unknown_schema(br#"{"schema": 0 }"#), Some(0));
    assert_eq!(InverterInfo::unknown_schema(b"{}"), None);
    assert_eq!(InverterInfo::unknown_schema(b"{"), None);
    let raw = RawInfo {
        schema: Some(7),
        serial: Some(1),
        name: None,
        device_model: None,
        lines: None,
        strings: None,
        max_power_watts: None,
    };
    assert_eq!(raw.unknown_schema(), Some(7));
    assert_eq!(InverterInfo::from_raw(raw).serial, Some(1));
}

#[test]
fn literals_that_are_skipped_are_told() {
    let skipped = pack(
        1,
        vec![
            record("ac/total_power", Some("W"), number("1e+3")),
            record("ac/l1/voltage", Some("V"), number("230.1")),
            record("device/temperature", Some("Cel"), number("4e+1")),
            // Not read as a number, or not under this unit.
            record("device/temperature", Some("K"), number("4e+1")),
            record("ac/frequency", Some("kHz"), number("5e+1")),
            record("energy/today", Some("Wh"), number("5e+1")),
            record("device/status", None, number("5e+1")),
            record("ac/l1/current", Some("A"), Value::Text("5e+1".into())),
            record("energy/total", Some("Wh"), number("99999999999999999999")),
        ],
    );
    assert_eq!(
        unscaled_records(&skipped),
        vec![
            ("ac/total_power".to_owned(), "1e+3".to_owned()),
            ("device/temperature".to_owned(), "4e+1".to_owned()),
            ("energy/total".to_owned(), "99999999999999999999".to_owned()),
        ]
    );
    assert_eq!(
        unscaled_records(&parse_pack(CONTRACT_PACK).unwrap()),
        vec![]
    );
    let mut snap = PvSnapshot::default();
    snap.set_status(LinkStatus::Online);
    snap.apply_pack(&skipped);
    assert_eq!(snap.power_mw, None);
    assert_eq!(snap.voltage_mv, Some(230_100));
    assert_eq!(snap.energy_total_mwh, None);
}
