//! What the functions give, whatever they are called with.
use vstd::prelude::*;

use crate::config::{configured, fault, Config, ConfigError, Vars};
use crate::decimal;
use crate::decimal::{decimal_digits, parsed_unsigned, NumberFault};
use crate::domain::{
    bad_literals, energy_times_fit, identity, other_schema, raw_info, unscaled_records, DeviceStatus, DomainMsg,
    GridRelay, InverterInfo, LinkStatus, PvSnapshot, RawInfo, SourceStatus, State,
};
use crate::identity;
use crate::identity::{described, BasicInfo};
use crate::ingest;
use crate::ingest::{
    connection_of, is_leaf, message, Connection, IngestAction, IngestEvent, Refusal, Router,
};
use crate::lifecycle::{
    daemon_step, startup_action, startup_step, DaemonAction, DaemonEvent, StartupAction,
    StartupEvent,
};
use crate::matter::accuracy::{AccuracyRow, MeasurementType};
use crate::matter::bridge;
use crate::matter::bridge::{
    remaining, report_of, AttributePath, Bridge, BridgeAction, BridgeEvent, LiveAttribute, Report,
};
use crate::matter::desc_tags::{tag_list, SemanticTag, SolarPartsMatcher};
use crate::matter::eem;
use crate::matter::eem::{epoch_seconds, exported_energy, EnergyMeasurement};
use crate::matter::epm;
use crate::matter::epm::{
    accuracy_rows, current_min, envelopes, power_min, rating_fits, AccuracyEntry,
};
use crate::matter::list::{read_list, ConstraintError, ListRead};
use crate::matter::node;
use crate::matter::node::{bound, composition, ClusterKind, Endpoint, Handler};
use crate::matter::power_source;
use crate::matter::temperature;
use crate::senml;
use crate::senml::{pack_of, raw_records, scaled_literal, Pack, PackError, RawRecord};
use crate::text;
use crate::text::{after_prefix, cut, trimmed};

verus! {

/// Readings are read as they stand in the snapshot; power and current turn round.
pub proof fn law_readings_are_read(snapshot: PvSnapshot, read: Option<i64>)
    ensures
        call_ensures(epm::voltage, (&snapshot,), read) ==> read == snapshot.voltage_mv,
        call_ensures(epm::frequency, (&snapshot,), read) ==> read == snapshot.frequency_mhz,
        snapshot.power_mw != Some(i64::MIN) && call_ensures(epm::active_power, (&snapshot,), read)
            ==> match snapshot.power_mw {
            Some(power) => read is Some && read->0 + power == 0,
            None => read is None,
        },
        snapshot.current_ma != Some(i64::MIN) && call_ensures(
            epm::active_current,
            (&snapshot,),
            read,
        ) ==> match snapshot.current_ma {
            Some(current) => read is Some && read->0 + current == 0,
            None => read is None,
        },
{
}

/// The temperature is read as it stands in the snapshot, inside its fixed envelope;
/// the status is the snapshot's.
pub proof fn law_temperature_and_status_are_read(
    snapshot: PvSnapshot,
    read: Option<i16>,
    status: SourceStatus,
)
    ensures
        call_ensures(temperature::measured_value, (&snapshot,), read) ==> read
            == snapshot.temperature_centi_c,
        call_ensures(temperature::min_measured_value, (), read) ==> read == Some(0i16),
        call_ensures(temperature::max_measured_value, (), read) ==> read == Some(8_000i16),
        call_ensures(power_source::status, (&snapshot,), status) ==> status == snapshot.status(),
        call_ensures(PvSnapshot::source_status, (&snapshot,), status) ==> status
            == snapshot.status(),
{
}

/// The bounds of a rating, and whether they can be computed.
pub proof fn law_bounds_are_given(
    max_power_w: Option<i64>,
    bounds: (i64, i64),
    fits: bool,
    types: u8,
    entries: [AccuracyEntry; 4],
)
    ensures
        rating_fits(max_power_w) && call_ensures(
            epm::active_power_current_min,
            (max_power_w,),
            bounds,
        ) ==> bounds.0 == power_min(max_power_w) && bounds.1 == current_min(max_power_w),
        call_ensures(epm::rating_in_range, (max_power_w,), fits) ==> fits == rating_fits(
            max_power_w,
        ),
        rating_fits(max_power_w) && call_ensures(epm::accuracy_entries, (max_power_w,), entries)
            ==> entries@ == envelopes(max_power_w),
        call_ensures(epm::number_of_measurement_types, (), types) ==> types == 4,
{
}

/// The accuracy of the counter: measured, to a kilowatt-hour, up to a gigawatt-hour.
pub proof fn law_the_counters_accuracy_is_given(row: AccuracyRow)
    requires
        call_ensures(eem::accuracy, (), row),
    ensures
        row.measurement_type == MeasurementType::ElectricalEnergy,
        row.measured,
        row.min == 0 && row.max == 1_000_000_000_000,
        row.range.min == row.min && row.range.max == row.max,
        row.range.percent_max is None,
        row.range.fixed_max == Some(1_000_000u64),
{
}

/// Lists answer reads with their own items.
pub proof fn law_lists_are_read(
    snapshot: PvSnapshot,
    read: ListRead,
    powered: &[u16],
    endpoints: Result<Vec<u16>, ConstraintError>,
    tags: &[SemanticTag],
    listed: Result<Vec<SemanticTag>, ConstraintError>,
    rows: Result<Vec<AccuracyRow>, ConstraintError>,
)
    ensures
        call_ensures(power_source::endpoint_list, (powered, read), endpoints) ==> read.answered(
            powered@,
            endpoints,
        ),
        call_ensures(read_list::<u16>, (powered, read), endpoints) ==> read.answered(
            powered@,
            endpoints,
        ),
        call_ensures(tag_list, (tags, read), listed) ==> read.answered(tags@, listed),
        rating_fits(snapshot.max_power_w) && call_ensures(epm::accuracy, (&snapshot, read), rows)
            ==> read.answered(accuracy_rows(snapshot), rows),
{
}

/// The counter and its times.
pub proof fn law_the_counter_is_given(
    snapshot: PvSnapshot,
    unix_s: i64,
    since: Option<u32>,
    energy: i64,
    end: Option<i64>,
    measurement: EnergyMeasurement,
    counter: Option<EnergyMeasurement>,
)
    ensures
        call_ensures(eem::to_epoch_s, (unix_s,), since) ==> since == epoch_seconds(unix_s as int),
        call_ensures(eem::energy_measurement, (energy, end), measurement) ==> {
            &&& measurement.energy == energy
            &&& measurement.end_timestamp == (match end {
                Some(end) => epoch_seconds(end as int),
                None => None,
            })
        },
        call_ensures(eem::cumulative_energy_exported, (&snapshot,), counter) ==> counter
            == exported_energy(snapshot),
{
}

/// The tags and the parts of the node's endpoints.
pub proof fn law_tags_and_parts_are_given(
    tag: SemanticTag,
    matcher: SolarPartsMatcher,
    parent: u16,
    endpoint: u16,
    listed: bool,
    powered: [u16; 4],
)
    ensures
        call_ensures(node::grid_tag, (), tag) ==> tag.mfg_code is None && tag.namespace_id == 0xF
            && tag.tag == 0x1 && tag.label is None,
        call_ensures(node::inverter_temperature_tag, (), tag) ==> tag.mfg_code is None
            && tag.namespace_id == 0x6 && tag.tag == 0x2 && tag.label == Some("inverter"),
        call_ensures(node::solar_parts, (), matcher) ==> matcher.parent == 1 && matcher.children@
            == seq![2u16, 3u16, 4u16],
        call_ensures(SolarPartsMatcher::matches, (&matcher, parent, endpoint), listed) ==> listed
            == (parent == matcher.parent && matcher.children@.contains(endpoint)),
        call_ensures(node::powered_endpoints, (), powered) ==> powered@ == seq![
            1u16,
            2u16,
            3u16,
            4u16,
        ],
{
    if call_ensures(node::powered_endpoints, (), powered) {
        assert(powered@ == seq![1u16, 2u16, 3u16, 4u16]);
    }
}

/// The clusters of the node and their handlers.
pub proof fn law_clusters_are_given(
    kind: ClusterKind,
    number: u32,
    attribute: u32,
    optional: bool,
    served: bool,
    endpoint: u16,
    cluster: u32,
    handler: Option<Handler>,
    endpoints: Vec<Endpoint>,
)
    ensures
        call_ensures(ClusterKind::id, (kind,), number) ==> number == kind.cluster_id(),
        call_ensures(ClusterKind::feature_map, (kind,), number) ==> number == kind.features(),
        call_ensures(ClusterKind::serves, (kind, attribute, optional), served) ==> (served
            <==> !optional || kind.chosen().contains(attribute)),
        call_ensures(node::handler_for, (endpoint, cluster), handler) ==> handler == bound(
            endpoint,
            cluster,
        ),
        call_ensures(node::endpoints, (), endpoints) ==> endpoints.deep_view() == composition(),
{
}

/// Reports, and the bridge that they come from.
pub proof fn law_reports_are_given(
    prev: PvSnapshot,
    next: PvSnapshot,
    attribute: LiveAttribute,
    changed: bool,
    path: AttributePath,
    report: Report,
    bridge: Bridge,
    now: u64,
    delay: u64,
)
    ensures
        call_ensures(LiveAttribute::changed, (attribute, &prev, &next), changed) ==> changed
            == attribute.moved(prev, next),
        call_ensures(LiveAttribute::path, (attribute,), path) ==> path == attribute.located(),
        call_ensures(bridge::report, (&prev, &next), report) ==> report.deep_view() == report_of(
            prev,
            next,
        ),
        call_ensures(Bridge::new, (prev,), bridge) ==> bridge.prev == prev && bridge.last_report
            is None && bridge.pending is None,
        call_ensures(Bridge::delay, (&bridge, now), delay) ==> delay == remaining(
            bridge.last_report,
            now,
        ),
{
}

/// Words of the publisher.
pub proof fn law_words_are_parsed(
    word: &str,
    link: Option<LinkStatus>,
    device: Option<DeviceStatus>,
    relay: Option<GridRelay>,
    health: DeviceStatus,
    state: GridRelay,
    vote: Option<SourceStatus>,
)
    ensures
        call_ensures(LinkStatus::parse, (word,), link) ==> link == LinkStatus::named(word@),
        call_ensures(DeviceStatus::parse, (word,), device) ==> device == DeviceStatus::named(word@),
        call_ensures(GridRelay::parse, (word,), relay) ==> relay == GridRelay::named(word@),
        call_ensures(DeviceStatus::source_vote, (health,), vote) ==> vote == health.vote(),
        call_ensures(GridRelay::source_vote, (state,), vote) ==> vote == Some(state.vote()),
{
}

/// Identities.
pub proof fn law_identities_are_given(
    raw: RawInfo,
    info: InverterInfo,
    payload: &[u8],
    parsed: Result<InverterInfo, serde_json::Error>,
    schema: Option<u32>,
    known: Option<InverterInfo>,
    basic: BasicInfo,
)
    ensures
        call_ensures(InverterInfo::from_raw, (raw,), info) ==> info.deep_view() == identity(
            raw.deep_view(),
        ),
        call_ensures(InverterInfo::parse, (payload,), parsed) ==> match raw_info(payload@) {
            Some(document) => parsed is Ok && parsed->Ok_0.deep_view() == identity(document),
            None => parsed is Err,
        },
        call_ensures(RawInfo::unknown_schema, (&raw,), schema) ==> schema == other_schema(
            raw.deep_view(),
        ),
        call_ensures(InverterInfo::unknown_schema, (payload,), schema) ==> schema == match raw_info(
            payload@,
        ) {
            Some(document) => other_schema(document),
            None => None,
        },
        call_ensures(identity::basic_info, (&known,), basic) ==> basic.deep_view() == described(
            known.deep_view(),
        ),
{
}

/// Packs.
pub proof fn law_packs_are_given(
    literal: &str,
    exp: u32,
    value: Option<i64>,
    raw: Vec<RawRecord>,
    payload: &[u8],
    parsed: Result<Pack, PackError>,
    pack: Pack,
    unscaled: Vec<(String, String)>,
    msg: DomainMsg,
    in_range: bool,
)
    ensures
        call_ensures(senml::scale_decimal, (literal, exp), value) ==> value == scaled_literal(
            literal@,
            exp as nat,
        ),
        call_ensures(senml::pack_from_records, (raw,), parsed) ==> match pack_of(raw.deep_view()) {
            Some(made) => parsed is Ok && parsed->Ok_0.deep_view() == made,
            None => parsed is Err && parsed->Err_0 is MissingHeader,
        },
        call_ensures(senml::parse_pack, (payload,), parsed) ==> match raw_records(payload@) {
            Some(records) => match pack_of(records) {
                Some(made) => parsed is Ok && parsed->Ok_0.deep_view() == made,
                None => parsed is Err && parsed->Err_0 is MissingHeader,
            },
            None => parsed is Err && parsed->Err_0 is Json,
        },
        call_ensures(unscaled_records, (&pack,), unscaled) ==> unscaled.deep_view() == bad_literals(
            pack.deep_view().records,
        ),
        call_ensures(DomainMsg::times_in_range, (&msg,), in_range) ==> in_range
            == msg.deep_view().times_fit(),
{
}

/// Routing.
pub proof fn law_routing_is_given(
    config: Config,
    process_id: u32,
    connection: Connection,
    leaf: &str,
    payload: &[u8],
    msg: Option<DomainMsg>,
    refused: Option<Refusal>,
    prefix: String,
    pinned: Option<String>,
    router: Router,
    topic: &str,
    device: Option<String>,
)
    ensures
        call_ensures(ingest::connection, (&config, process_id), connection)
            ==> connection.deep_view() == connection_of(config.deep_view(), process_id),
        call_ensures(ingest::read_message, (leaf, payload), msg) ==> msg.deep_view() == message(
            leaf@,
            payload@,
        ),
        call_ensures(ingest::refusal, (leaf, payload), refused) ==> {
            &&& refused is Some <==> is_leaf(leaf@) && message(leaf@, payload@) is None
            &&& refused matches Some(reason) ==> reason.explains(leaf@, payload@)
        },
        call_ensures(Router::new, (prefix, pinned), router) ==> router.deep_view().prefix == prefix@
            && router.deep_view().device_id == pinned.deep_view() && !router.warned_other_device,
        call_ensures(Router::turned_away, (&router, topic), device) ==> device.deep_view()
            == router.deep_view().turned_away(topic@),
        call_ensures(Router::refusal, (&router, topic, payload), refused) ==> (refused is Some
            <==> router.deep_view().refuses(topic@, payload@)),
{
}

/// Settings, and the end of the start.
pub proof fn law_settings_are_given(
    vars: Vars,
    home_known: bool,
    config: Result<Config, ConfigError>,
    error: ConfigError,
    cause: Option<NumberFault>,
    state: State,
    action: StartupAction,
)
    ensures
        call_ensures(Config::from_vars, (vars, home_known), config) ==> match fault(
            vars.deep_view(),
            home_known,
        ) {
            Some(told) => config is Err && config->Err_0 == told,
            None => config is Ok && config->Ok_0.deep_view() == configured(vars.deep_view()),
        },
        call_ensures(ConfigError::cause, (error,), cause) ==> cause == error.caused_by(),
        call_ensures(startup_action, (&state,), action) ==> (action == StartupAction::Await
            <==> state.info is None),
{
}

/// Texts and numbers.
pub proof fn law_texts_are_handled(
    s: &str,
    other: &str,
    c: char,
    same: bool,
    part: &str,
    rest: Option<&str>,
    parts: Option<(&str, &str)>,
    max: u64,
    n: u64,
    number: Result<u64, NumberFault>,
    written: String,
)
    ensures
        call_ensures(text::same, (s, other), same) ==> (same <==> s@ == other@),
        call_ensures(text::contains, (s, c), same) ==> (same <==> s@.contains(c)),
        call_ensures(text::trim, (s,), part) ==> part@ == trimmed(s@),
        call_ensures(text::strip_prefix, (s, other), rest) ==> rest.deep_view() == after_prefix(
            s@,
            other@,
        ),
        call_ensures(text::split_once, (s, c), parts) ==> parts.deep_view() == cut(s@, c),
        call_ensures(decimal::digit, (c,), same) ==> (same <==> '0' <= c <= '9'),
        call_ensures(decimal::parse_unsigned, (s, max), number) ==> match parsed_unsigned(
            s@,
            max as nat,
        ) {
            Ok(value) => number is Ok && number->Ok_0 == value,
            Err(told) => number is Err && number->Err_0 == told,
        },
        call_ensures(decimal::decimal_text, (n,), written) ==> written@ == decimal_digits(n as nat),
{
}

/// A pack and a status change the snapshot as they should.
pub proof fn law_snapshots_are_changed(snapshot: &mut PvSnapshot, pack: Pack, status: LinkStatus)
    ensures
        energy_times_fit(pack.deep_view()) && call_ensures(
            PvSnapshot::apply_pack,
            (snapshot, &pack),
            (),
        ) ==> *final(snapshot) == old(snapshot).after_pack(pack.deep_view()),
        call_ensures(PvSnapshot::set_status, (snapshot, status), ()) ==> *final(snapshot)
            == old(snapshot).after_status(status),
{
}

/// Messages and events change the state as they should, and what is done about them
/// is what should be.
pub proof fn law_states_are_changed(
    state: &mut State,
    msg: DomainMsg,
    starting: StartupEvent,
    started: StartupAction,
    running: DaemonEvent,
    done: DaemonAction,
)
    ensures
        msg.deep_view().times_fit() && call_ensures(State::apply, (state, msg), ()) ==>
            final(state).deep_view() == old(state).deep_view().after(msg.deep_view()),
        starting.deep_view().times_fit() && call_ensures(startup_step, (state, starting), started)
            ==> {
            &&& final(state).deep_view() == old(state).deep_view().after_startup(
                starting.deep_view(),
            )
            &&& started == old(state).deep_view().startup_after(starting.deep_view())
        },
        running.deep_view().times_fit() && call_ensures(daemon_step, (state, running), done) ==> {
            &&& final(state).deep_view() == old(state).deep_view().after_daemon(
                running.deep_view(),
            )
            &&& done == old(state).deep_view().daemon_after(running.deep_view())
        },
{
}

/// The bridge steps as it should.
pub proof fn law_the_bridge_steps(bridge: &mut Bridge, event: BridgeEvent, action: BridgeAction)
    ensures
        call_ensures(Bridge::step, (bridge, &event), action) ==> {
            &&& *final(bridge) == old(bridge).after(event.deep_view())
            &&& action.deep_view() == old(bridge).action(event.deep_view())
        },
{
}

/// The router routes and steps as it should.
pub proof fn law_the_router_steps(
    router: &mut Router,
    topic: &str,
    payload: &[u8],
    msg: Option<DomainMsg>,
    event: IngestEvent,
    action: IngestAction,
)
    ensures
        call_ensures(Router::route, (router, topic, payload), msg) ==> {
            &&& final(router).deep_view() == old(router).deep_view().after(topic@)
            &&& msg.deep_view() == old(router).deep_view().routed(topic@, payload@)
        },
        call_ensures(Router::step, (router, &event), action) ==> {
            &&& final(router).deep_view() == old(router).deep_view().after_event(event.deep_view())
            &&& action.deep_view() == old(router).deep_view().action(event.deep_view())
        },
{
}

/// Every rating whose bounds fit can be asked for, and every reading that has a
/// negative; every pack and message whose times are in range can be taken in.
pub proof fn law_functions_can_be_called(
    snapshot: &mut PvSnapshot,
    read: ListRead,
    pack: Pack,
    state: &mut State,
    msg: DomainMsg,
    starting: StartupEvent,
    running: DaemonEvent,
)
    ensures
        rating_fits(old(snapshot).max_power_w) ==> {
            &&& call_requires(epm::active_power_current_min, (old(snapshot).max_power_w,))
            &&& call_requires(epm::accuracy_entries, (old(snapshot).max_power_w,))
            &&& call_requires(epm::accuracy, (&*old(snapshot), read))
        },
        old(snapshot).power_mw != Some(i64::MIN) ==> call_requires(
            epm::active_power,
            (&*old(snapshot),),
        ),
        old(snapshot).current_ma != Some(i64::MIN) ==> call_requires(
            epm::active_current,
            (&*old(snapshot),),
        ),
        energy_times_fit(pack.deep_view()) ==> call_requires(
            PvSnapshot::apply_pack,
            (snapshot, &pack),
        ),
        msg.deep_view().times_fit() ==> call_requires(State::apply, (state, msg)),
        starting.deep_view().times_fit() ==> call_requires(startup_step, (state, starting)),
        running.deep_view().times_fit() ==> call_requires(daemon_step, (state, running)),
{
}

} // verus!
