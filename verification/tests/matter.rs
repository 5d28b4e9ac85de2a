//! Clusters, the node, and reports.
use pv_matter::domain::{GridRelay, LinkStatus, PvSnapshot, SourceStatus};
use pv_matter::matter::accuracy::MeasurementType;
use pv_matter::matter::bridge::{
    report, AttributePath, Bridge, BridgeAction, BridgeEvent, LiveAttribute, Report,
    MIN_REPORT_SPACING_NS,
};
use pv_matter::matter::desc_tags::{tag_list, SolarPartsMatcher};
use pv_matter::matter::eem::{
    self, cumulative_energy_exported, energy_measurement, to_epoch_s, EnergyMeasurement,
    MATTER_EPOCH_SECS,
};
use pv_matter::matter::epm::{
    self, accuracy_entries, active_power_current_min, rating_in_range, AccuracyEntry,
    DEFAULT_ACTIVE_CURRENT_MIN_MA, DEFAULT_ACTIVE_POWER_MIN_MW, MEASUREMENT_TYPES, VOLTAGE_MIN_MV,
};
use pv_matter::matter::list::{read_list, ConstraintError, ListRead};
use pv_matter::matter::node::{
    endpoints, grid_tag, handler_for, inverter_temperature_tag, powered_endpoints, solar_parts,
    ClusterKind, Endpoint, Handler, ATTR_ACTIVE_CURRENT, ATTR_ACTIVE_POWER,
    ATTR_CUMULATIVE_ENERGY_EXPORTED, ATTR_FREQUENCY, ATTR_VOLTAGE, CLUSTER_DESCRIPTOR,
    CLUSTER_ENERGY_MEASUREMENT, CLUSTER_IDENTIFY, CLUSTER_POWER_MEASUREMENT, CLUSTER_POWER_SOURCE,
    CLUSTER_POWER_TOPOLOGY, CLUSTER_TEMPERATURE, EP_ELECTRICAL_SENSOR, EP_POWER_SOURCE, EP_ROOT,
    EP_SOLAR_POWER, EP_TEMPERATURE, FEATURES_EXPORTED_CUMULATIVE, FEATURE_ALTERNATING_CURRENT,
    FEATURE_NODE_TOPOLOGY, FEATURE_TAG_LIST, FEATURE_WIRED,
};
use pv_matter::matter::power_source::{self, endpoint_list, DESCRIPTION, ORDER};
use pv_matter::matter::temperature;

#[test]
fn rebases_unix_seconds_onto_the_matter_epoch() {
    // The Matter epoch itself.
    assert_eq!(to_epoch_s(MATTER_EPOCH_SECS as i64), Some(0));
    // The contract sample's energy timestamp: 2025-07-04T10:29:50Z.
    assert_eq!(to_epoch_s(1_751_624_990), Some(804_940_190));
}

#[test]
fn unrepresentable_instants_are_dropped_not_wrapped() {
    // Before 2000: negative epoch-s has no encoding.
    assert_eq!(to_epoch_s(MATTER_EPOCH_SECS as i64 - 1), None);
    assert_eq!(to_epoch_s(0), None);
    // Beyond the u32 range (year 2136).
    assert_eq!(
        to_epoch_s(MATTER_EPOCH_SECS as i64 + i64::from(u32::MAX) + 1),
        None
    );
    assert_eq!(to_epoch_s(i64::MIN), None);
    // The last instant that can be represented.
    assert_eq!(
        to_epoch_s(MATTER_EPOCH_SECS + i64::from(u32::MAX)),
        Some(u32::MAX)
    );
    assert_eq!(to_epoch_s(i64::MAX), None);
}

fn entry(entries: &[AccuracyEntry], ty: MeasurementType) -> &AccuracyEntry {
    entries
        .iter()
        .find(|e| e.measurement_type == ty)
        .expect("measurement type present")
}

#[test]
fn rating_sizes_power_and_current_bounds() {
    let entries = accuracy_entries(Some(5000));
    // 5000 W × 1.1 = 5500 W → −5_500_000 mW; ÷ 185 V → −29_729 mA (trunc).
    assert_eq!(
        entry(&entries, MeasurementType::ActivePower).min,
        -5_500_000
    );
    assert_eq!(
        entry(&entries, MeasurementType::ActiveCurrent).min,
        -29_729
    );
}

#[test]
fn voltage_brackets_mains_and_current_uses_the_low_end() {
    let entries = accuracy_entries(Some(5000));
    let voltage = entry(&entries, MeasurementType::Voltage);
    assert_eq!((voltage.min, voltage.max), (185_000, 275_000));
    // ActiveCurrent divides by exactly this low end.
    assert_eq!(voltage.min, VOLTAGE_MIN_MV);
}

#[test]
fn missing_rating_falls_back_to_defaults() {
    let entries = accuracy_entries(None);
    assert_eq!(
        entry(&entries, MeasurementType::ActivePower).min,
        DEFAULT_ACTIVE_POWER_MIN_MW
    );
    assert_eq!(
        entry(&entries, MeasurementType::ActiveCurrent).min,
        DEFAULT_ACTIVE_CURRENT_MIN_MA
    );
    assert_eq!(DEFAULT_ACTIVE_POWER_MIN_MW, -30_000_000);
    assert_eq!(DEFAULT_ACTIVE_CURRENT_MIN_MA, -30_000);
}

#[test]
fn every_measurement_type_is_export_or_bracketed() {
    // An entry for ActivePower and every implemented type.
    let entries = accuracy_entries(Some(5000));
    assert_eq!(entries.len(), MEASUREMENT_TYPES);
    // Power/current are export-only (≤ 0); voltage/frequency are positive.
    assert!(entry(&entries, MeasurementType::ActivePower).max == 0);
    assert!(entry(&entries, MeasurementType::ActiveCurrent).max == 0);
    let frequency = entry(&entries, MeasurementType::Frequency);
    assert_eq!((frequency.min, frequency.max), (45_000, 55_000));
}

#[test]
fn bounds_of_a_rating() {
    assert_eq!(active_power_current_min(Some(0)), (0, 0));
    assert_eq!(active_power_current_min(Some(1)), (-1_100, -5));
    let greatest = i64::MAX / 1_100_000;
    assert!(rating_in_range(Some(greatest)));
    assert!(!rating_in_range(Some(greatest + 1)));
    assert!(!rating_in_range(Some(i64::MIN)));
    assert!(rating_in_range(Some(-greatest)));
    assert!(rating_in_range(None));
}

fn producing() -> PvSnapshot {
    PvSnapshot {
        link: LinkStatus::Online,
        voltage_mv: Some(236_400),
        current_ma: Some(10_370),
        power_mw: Some(2_450_000),
        frequency_mhz: Some(49_980),
        energy_total_mwh: Some(41_784_321_000),
        energy_end_ts: Some(1_751_624_990),
        temperature_centi_c: Some(4_130),
        max_power_w: Some(5_000),
        ..PvSnapshot::default()
    }
}

#[test]
fn production_reads_as_negative() {
    let snap = producing();
    assert_eq!(epm::voltage(&snap), Some(236_400));
    assert_eq!(epm::active_current(&snap), Some(-10_370));
    assert_eq!(epm::active_power(&snap), Some(-2_450_000));
    assert_eq!(epm::frequency(&snap), Some(49_980));
    assert_eq!(epm::number_of_measurement_types(), 4);
    let blank = PvSnapshot::default();
    assert_eq!(epm::voltage(&blank), None);
    assert_eq!(epm::active_current(&blank), None);
    assert_eq!(epm::active_power(&blank), None);
    assert_eq!(epm::frequency(&blank), None);
}

#[test]
fn accuracy_has_a_row_for_each_type() {
    let rows = epm::accuracy(&producing(), ListRead::Whole).unwrap();
    assert_eq!(rows.len(), MEASUREMENT_TYPES);
    let power = rows[0];
    assert_eq!(power.measurement_type, MeasurementType::ActivePower);
    assert!(power.measured);
    assert_eq!((power.min, power.max), (-5_500_000, 0));
    assert_eq!((power.range.min, power.range.max), (-5_500_000, 0));
    assert_eq!(power.range.percent_max, Some(100));
    assert_eq!(power.range.fixed_max, None);
    let one = epm::accuracy(&producing(), ListRead::Item { index: 3 }).unwrap();
    assert_eq!(one, vec![rows[3]]);
    assert_eq!(
        epm::accuracy(&producing(), ListRead::Item { index: 4 }),
        Err(ConstraintError)
    );
    assert_eq!(epm::accuracy(&producing(), ListRead::Empty), Ok(vec![]));
}

#[test]
fn energy_reads_as_measured() {
    let measured = EnergyMeasurement {
        energy: 41_784_321_000,
        end_timestamp: Some(804_940_190),
    };
    assert_eq!(cumulative_energy_exported(&producing()), Some(measured));
    assert_eq!(cumulative_energy_exported(&PvSnapshot::default()), None);
    // A time that cannot be represented is left out.
    assert_eq!(
        energy_measurement(5, Some(0)),
        EnergyMeasurement {
            energy: 5,
            end_timestamp: None
        }
    );
    assert_eq!(energy_measurement(5, None).end_timestamp, None);
    let row = eem::accuracy();
    assert_eq!(row.measurement_type, MeasurementType::ElectricalEnergy);
    assert!(row.measured);
    assert_eq!((row.min, row.max), (0, 1_000_000_000_000));
    assert_eq!((row.range.min, row.range.max), (0, 1_000_000_000_000));
    assert_eq!(row.range.percent_max, None);
    assert_eq!(row.range.fixed_max, Some(1_000_000));
}

#[test]
fn temperature_reads_as_measured() {
    assert_eq!(temperature::measured_value(&producing()), Some(4_130));
    assert_eq!(temperature::measured_value(&PvSnapshot::default()), None);
    assert_eq!(temperature::min_measured_value(), Some(0));
    assert_eq!(temperature::max_measured_value(), Some(8_000));
}

#[test]
fn the_power_source_is_the_grid_side() {
    assert_eq!(power_source::status(&producing()), SourceStatus::Active);
    assert_eq!(
        power_source::status(&PvSnapshot::default()),
        SourceStatus::Unspecified
    );
    assert_eq!(ORDER, 0);
    assert_eq!(DESCRIPTION, "PV inverter (grid)");
    let powered = powered_endpoints();
    assert_eq!(
        endpoint_list(&powered, ListRead::Whole),
        Ok(vec![1, 2, 3, 4])
    );
    assert_eq!(
        endpoint_list(&powered, ListRead::Item { index: 2 }),
        Ok(vec![EP_ELECTRICAL_SENSOR])
    );
    assert_eq!(
        endpoint_list(&powered, ListRead::Item { index: 4 }),
        Err(ConstraintError)
    );
    assert_eq!(endpoint_list(&powered, ListRead::Empty), Ok(vec![]));
    assert_eq!(read_list(&[7u8, 8], ListRead::Item { index: u16::MAX }), Err(ConstraintError));
}

fn endpoint(id: u16) -> Endpoint {
    endpoints()
        .into_iter()
        .find(|e| e.id == id)
        .expect("endpoint present")
}

fn has_cluster(id: u16, cluster_id: u32) -> bool {
    endpoint(id).clusters.iter().any(|c| c.id() == cluster_id)
}

#[test]
fn node_is_root_plus_solar_power_composition() {
    let mut ids: Vec<u16> = vec![EP_ROOT];
    ids.extend(endpoints().iter().map(|e| e.id));
    assert_eq!(
        ids,
        vec![
            0,
            EP_SOLAR_POWER,
            EP_POWER_SOURCE,
            EP_ELECTRICAL_SENSOR,
            EP_TEMPERATURE
        ]
    );
    assert_eq!(endpoint(EP_SOLAR_POWER).device_type, 0x0017);
}

#[test]
fn power_source_endpoint_carries_wired_power_source_and_grid_tag() {
    assert_eq!(endpoint(EP_POWER_SOURCE).device_type, 0x0011);
    assert_eq!(CLUSTER_POWER_SOURCE, 0x002F);
    assert!(has_cluster(EP_POWER_SOURCE, CLUSTER_POWER_SOURCE));
    assert_eq!(ClusterKind::PowerSource.feature_map(), FEATURE_WIRED);

    // The Descriptor on this endpoint advertises TagList (Grid tag).
    assert!(endpoint(EP_POWER_SOURCE)
        .clusters
        .contains(&ClusterKind::TaggedDescriptor));
    assert_eq!(ClusterKind::TaggedDescriptor.feature_map(), FEATURE_TAG_LIST);
    assert_eq!(grid_tag().namespace_id, 0x0F);
    assert_eq!(grid_tag().tag, 0x01);
}

#[test]
fn features_have_their_bits() {
    assert_eq!(FEATURE_WIRED, 0x1);
    assert_eq!(FEATURE_TAG_LIST, 0x1);
    assert_eq!(FEATURE_NODE_TOPOLOGY, 0x1);
    assert_eq!(FEATURE_ALTERNATING_CURRENT, 0x2);
    assert_eq!(FEATURES_EXPORTED_CUMULATIVE, 0x6);
    assert_eq!(ClusterKind::PowerSource.feature_map(), 0x1);
    assert_eq!(ClusterKind::TaggedDescriptor.feature_map(), 0x1);
    assert_eq!(ClusterKind::PowerTopology.feature_map(), 0x1);
}

#[test]
fn electrical_sensor_endpoint_carries_topology_epm_eem() {
    assert_eq!(endpoint(EP_ELECTRICAL_SENSOR).device_type, 0x0510);
    assert_eq!(CLUSTER_POWER_TOPOLOGY, 0x009C);
    assert_eq!(CLUSTER_POWER_MEASUREMENT, 0x0090);
    assert_eq!(CLUSTER_ENERGY_MEASUREMENT, 0x0091);
    assert!(has_cluster(EP_ELECTRICAL_SENSOR, CLUSTER_POWER_TOPOLOGY));
    assert!(has_cluster(EP_ELECTRICAL_SENSOR, CLUSTER_POWER_MEASUREMENT));
    assert!(has_cluster(EP_ELECTRICAL_SENSOR, CLUSTER_ENERGY_MEASUREMENT));
}

#[test]
fn epm_advertises_ac_with_mandated_voltage_and_current() {
    let cluster = ClusterKind::PowerMeasurement;
    assert_eq!(cluster.feature_map(), FEATURE_ALTERNATING_CURRENT);
    assert_eq!(FEATURE_ALTERNATING_CURRENT, 0x2);
    // PowerMode, NumberOfMeasurementTypes, Accuracy and ActivePower are
    // mandatory; the Solar Power device type makes Voltage and ActiveCurrent so.
    for (attr, optional) in [
        (0, false),
        (1, false),
        (2, false),
        (ATTR_ACTIVE_POWER, false),
        (ATTR_VOLTAGE, true),
        (ATTR_ACTIVE_CURRENT, true),
        // Optional, but there is a reading:
        (ATTR_FREQUENCY, true),
    ] {
        assert!(cluster.serves(attr, optional), "EPM must serve {attr:?}");
    }
    // ReactivePower is honestly absent.
    assert!(!cluster.serves(9, true));
}

#[test]
fn eem_advertises_cumulative_exported_energy() {
    let cluster = ClusterKind::EnergyMeasurement;
    assert_eq!(cluster.feature_map(), FEATURES_EXPORTED_CUMULATIVE);
    assert_eq!(FEATURES_EXPORTED_CUMULATIVE, 0x2 | 0x4);
    assert!(cluster.serves(ATTR_CUMULATIVE_ENERGY_EXPORTED, true));
    // CumulativeEnergyImported
    assert!(!cluster.serves(1, true));
}

#[test]
fn temperature_endpoint_is_tagged() {
    assert_eq!(endpoint(EP_TEMPERATURE).device_type, 0x0302);
    assert!(has_cluster(EP_TEMPERATURE, CLUSTER_TEMPERATURE));
    // Standard Common Location / Inside tag (no manufacturer code needed).
    assert!(inverter_temperature_tag().mfg_code.is_none());
    assert_eq!(inverter_temperature_tag().namespace_id, 0x06);
    assert_eq!(inverter_temperature_tag().tag, 0x02);
    assert_eq!(inverter_temperature_tag().label, Some("inverter"));
}

#[test]
fn solar_parts_matcher_lists_exactly_the_component_endpoints() {
    let solar_parts: SolarPartsMatcher = solar_parts();
    for ep in [EP_POWER_SOURCE, EP_ELECTRICAL_SENSOR, EP_TEMPERATURE] {
        assert!(solar_parts.matches(EP_SOLAR_POWER, ep));
    }
    assert!(!solar_parts.matches(EP_SOLAR_POWER, 0));
    assert!(!solar_parts.matches(EP_SOLAR_POWER, EP_SOLAR_POWER));
    // Only the Solar Power endpoint uses this matcher's parts view.
    assert!(!solar_parts.matches(EP_ELECTRICAL_SENSOR, EP_TEMPERATURE));
}

#[test]
fn tags_are_listed() {
    let tags = [grid_tag(), inverter_temperature_tag()];
    assert_eq!(tag_list(&tags, ListRead::Whole), Ok(tags.to_vec()));
    assert_eq!(
        tag_list(&tags, ListRead::Item { index: 1 }),
        Ok(vec![inverter_temperature_tag()])
    );
    assert_eq!(
        tag_list(&tags, ListRead::Item { index: 2 }),
        Err(ConstraintError)
    );
    assert_eq!(tag_list(&tags, ListRead::Empty), Ok(vec![]));
}

#[test]
fn every_cluster_has_its_handler() {
    for e in endpoints() {
        for c in &e.clusters {
            assert!(handler_for(e.id, c.id()).is_some(), "{} {c:?}", e.id);
        }
    }
    assert_eq!(
        handler_for(EP_SOLAR_POWER, CLUSTER_DESCRIPTOR),
        Some(Handler::SolarDescriptor)
    );
    assert_eq!(
        handler_for(EP_POWER_SOURCE, CLUSTER_DESCRIPTOR),
        Some(Handler::GridDescriptor)
    );
    assert_eq!(
        handler_for(EP_ELECTRICAL_SENSOR, CLUSTER_DESCRIPTOR),
        Some(Handler::PlainDescriptor)
    );
    assert_eq!(
        handler_for(EP_TEMPERATURE, CLUSTER_DESCRIPTOR),
        Some(Handler::TemperatureDescriptor)
    );
    assert_eq!(
        handler_for(EP_ELECTRICAL_SENSOR, CLUSTER_POWER_MEASUREMENT),
        Some(Handler::PowerMeasurement)
    );
    assert_eq!(
        handler_for(EP_TEMPERATURE, CLUSTER_IDENTIFY),
        Some(Handler::Identify)
    );
    // The root's clusters are served elsewhere.
    assert_eq!(handler_for(EP_ROOT, CLUSTER_DESCRIPTOR), None);
    assert_eq!(handler_for(EP_ROOT, CLUSTER_IDENTIFY), None);
    assert_eq!(handler_for(5, CLUSTER_IDENTIFY), None);
    assert_eq!(handler_for(EP_SOLAR_POWER, CLUSTER_POWER_SOURCE), None);
    assert_eq!(handler_for(EP_POWER_SOURCE, CLUSTER_TEMPERATURE), None);
}

fn nothing() -> Report {
    Report {
        changed: vec![],
        event: None,
        rating_changed: false,
    }
}

#[test]
fn reports_name_what_changed() {
    let prev = producing();
    assert_eq!(report(&prev, &prev), nothing());
    let next = PvSnapshot {
        voltage_mv: Some(236_500),
        frequency_mhz: None,
        ..prev
    };
    assert_eq!(
        report(&prev, &next).changed,
        vec![LiveAttribute::Voltage, LiveAttribute::Frequency]
    );
    let dark = PvSnapshot {
        link: LinkStatus::Asleep,
        voltage_mv: None,
        current_ma: None,
        power_mw: None,
        frequency_mhz: None,
        temperature_centi_c: None,
        ..prev
    };
    let at_dusk = report(&prev, &dark);
    assert_eq!(
        at_dusk.changed,
        vec![
            LiveAttribute::Voltage,
            LiveAttribute::ActiveCurrent,
            LiveAttribute::ActivePower,
            LiveAttribute::Frequency,
            LiveAttribute::SourceStatus,
            LiveAttribute::Temperature
        ]
    );
    assert_eq!(at_dusk.event, None);
}

#[test]
fn a_new_total_is_reported_with_an_event() {
    let prev = producing();
    let next = PvSnapshot {
        energy_total_mwh: Some(41_784_322_000),
        energy_end_ts: Some(1_751_625_000),
        ..prev
    };
    let new_total = report(&prev, &next);
    assert_eq!(
        new_total.changed,
        vec![LiveAttribute::CumulativeEnergyExported]
    );
    assert_eq!(new_total.event, cumulative_energy_exported(&next));
    assert_eq!(
        new_total.event,
        Some(EnergyMeasurement {
            energy: 41_784_322_000,
            end_timestamp: Some(804_940_200)
        })
    );
    // A new time of the same total is no change.
    let later = PvSnapshot {
        energy_end_ts: Some(1_751_625_000),
        ..prev
    };
    assert_eq!(report(&prev, &later), nothing());
}

#[test]
fn signals_that_leave_the_status_alone_are_not_reported() {
    let prev = producing();
    let closed = PvSnapshot {
        grid_relay: Some(GridRelay::Closed),
        ..prev
    };
    assert_eq!(report(&prev, &closed), nothing());
    let open = PvSnapshot {
        grid_relay: Some(GridRelay::Open),
        ..prev
    };
    assert_eq!(report(&prev, &open).changed, vec![LiveAttribute::SourceStatus]);
    let rated = PvSnapshot {
        max_power_w: Some(4_000),
        ..prev
    };
    let new_rating = report(&prev, &rated);
    assert_eq!(new_rating.changed, vec![]);
    assert!(new_rating.rating_changed);
}

#[test]
fn live_attributes_have_their_paths() {
    let paths: Vec<(u16, u32, u32)> = [
        LiveAttribute::Voltage,
        LiveAttribute::ActiveCurrent,
        LiveAttribute::ActivePower,
        LiveAttribute::Frequency,
        LiveAttribute::CumulativeEnergyExported,
        LiveAttribute::SourceStatus,
        LiveAttribute::Temperature,
    ]
    .iter()
    .map(|a| {
        let AttributePath {
            endpoint,
            cluster,
            attribute,
        } = a.path();
        assert!(handler_for(endpoint, cluster).is_some());
        (endpoint, cluster, attribute)
    })
    .collect();
    assert_eq!(
        paths,
        vec![
            (3, 0x0090, 4),
            (3, 0x0090, 5),
            (3, 0x0090, 8),
            (3, 0x0090, 14),
            (3, 0x0091, 2),
            (2, 0x002F, 0),
            (4, 0x0402, 0)
        ]
    );
}

#[test]
fn reports_keep_a_second_between_them() {
    let first = producing();
    let second = PvSnapshot {
        power_mw: Some(1),
        ..first
    };
    let third = PvSnapshot {
        power_mw: Some(2),
        ..first
    };
    let mut bridge = Bridge::new(PvSnapshot::default());
    let drained = |queued: Vec<PvSnapshot>| BridgeEvent::Drained { queued };

    // The first report does not wait.
    assert_eq!(
        bridge.step(&BridgeEvent::Received {
            snapshot: first,
            now: 5
        }),
        BridgeAction::Drain
    );
    let action = bridge.step(&drained(vec![]));
    assert_eq!(
        action,
        BridgeAction::Publish {
            state: first,
            report: report(&PvSnapshot::default(), &first)
        }
    );
    assert_eq!(
        bridge.step(&BridgeEvent::Reported { now: 10 }),
        BridgeAction::Receive
    );

    // The next one does, and only the newest snapshot counts.
    assert_eq!(
        bridge.step(&BridgeEvent::Received {
            snapshot: second,
            now: 110
        }),
        BridgeAction::Wait {
            nanos: MIN_REPORT_SPACING_NS - 100
        }
    );
    assert_eq!(bridge.step(&BridgeEvent::Waited), BridgeAction::Drain);
    assert_eq!(
        bridge.step(&drained(vec![first, third])),
        BridgeAction::Publish {
            state: third,
            report: report(&first, &third)
        }
    );
    bridge.step(&BridgeEvent::Reported {
        now: 2_000_000_000,
    });

    // A snapshot that came back to where it was is not reported.
    assert_eq!(
        bridge.step(&BridgeEvent::Received {
            snapshot: first,
            now: 3_000_000_000
        }),
        BridgeAction::Drain
    );
    assert_eq!(bridge.step(&drained(vec![third])), BridgeAction::Receive);
    // One that is not reported does not put the next one off.
    assert_eq!(bridge.last_report, Some(2_000_000_000));
    assert_eq!(bridge.step(&BridgeEvent::Closed), BridgeAction::Stop);
}

#[test]
fn a_clock_that_stands_still_waits_in_full() {
    let mut bridge = Bridge::new(PvSnapshot::default());
    bridge.step(&BridgeEvent::Reported { now: 100 });
    assert_eq!(bridge.delay(100), 1_000_000_000);
    assert_eq!(bridge.delay(99), 1_000_000_000);
    assert_eq!(bridge.delay(1_000_000_099), 1);
    assert_eq!(bridge.delay(1_000_000_100), 0);
    assert_eq!(bridge.delay(u64::MAX), 0);
}

#[test]
fn rated_production_is_in_the_envelope() {
    let mut snap = producing();
    snap.power_mw = Some(5_500_000);
    snap.current_ma = Some(29_729);
    let entries = accuracy_entries(snap.max_power_w);
    let power = entry(&entries, MeasurementType::ActivePower);
    let current = entry(&entries, MeasurementType::ActiveCurrent);
    assert_eq!(epm::active_power(&snap), Some(power.min));
    assert_eq!(epm::active_current(&snap), Some(current.min));
}
