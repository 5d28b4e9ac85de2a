//! What the models show of the values that they stand for: everything, field by
//! field.
use vstd::prelude::*;

use crate::config::{Config, StoragePath, StoragePathView, Vars};
use crate::domain::{DomainMsg, DomainMsgView, InverterInfo, RawInfo, State};
use crate::identity::BasicInfo;
use crate::ingest::{
    Connection, IngestAction, IngestActionView, IngestEvent, IngestEventView, Router,
};
use crate::lifecycle::{DaemonEvent, DaemonEventView, StartupEvent, StartupEventView};
use crate::matter::bridge::{BridgeAction, BridgeActionView, BridgeEvent, BridgeEventView, Report};
use crate::matter::node::Endpoint;
use crate::senml::{Pack, RawRecord, Record, Value, ValueView};

verus! {

/// Whether a text that may be missing is shown as it is.
pub open spec fn shown(text: Option<String>, view: Option<Seq<char>>) -> bool {
    match text {
        Some(text) => view == Some(text@),
        None => view is None,
    }
}

/// Packs, their records and the records of a payload.
pub proof fn law_packs_are_shown(pack: Pack, record: Record, value: Value, raw: RawRecord, i: int)
    ensures
        pack.deep_view().base_time == pack.base_time,
        pack.deep_view().records.len() == pack.records.len(),
        0 <= i < pack.records.len() ==> pack.deep_view().records[i] == pack.records[i].deep_view(),
        record.deep_view().name == record.name@,
        shown(record.unit, record.deep_view().unit),
        record.deep_view().time_offset == record.time_offset,
        record.deep_view().value == record.value.deep_view(),
        value matches Value::Number(literal) ==> value.deep_view() == ValueView::Number(literal@),
        value matches Value::Text(text) ==> value.deep_view() == ValueView::Text(text@),
        shown(raw.bn, raw.deep_view().bn),
        shown(raw.bt, raw.deep_view().bt),
        shown(raw.bu, raw.deep_view().bu),
        shown(raw.n, raw.deep_view().n),
        shown(raw.u, raw.deep_view().u),
        shown(raw.t, raw.deep_view().t),
        shown(raw.v, raw.deep_view().v),
        shown(raw.vs, raw.deep_view().vs),
{
}

/// Identities and the documents that they come from.
pub proof fn law_identities_are_shown(info: InverterInfo, raw: RawInfo, basic: BasicInfo)
    ensures
        info.deep_view().serial == info.serial,
        shown(info.name, info.deep_view().name),
        shown(info.device_model, info.deep_view().device_model),
        info.deep_view().lines == info.lines,
        info.deep_view().strings == info.strings,
        info.deep_view().max_power_w == info.max_power_w,
        raw.deep_view().schema == raw.schema,
        raw.deep_view().serial == raw.serial,
        shown(raw.name, raw.deep_view().name),
        shown(raw.device_model, raw.deep_view().device_model),
        raw.deep_view().lines == raw.lines,
        raw.deep_view().strings == raw.strings,
        raw.max_power_watts is None <==> raw.deep_view().max_power_watts is None,
        raw.max_power_watts matches Some(ratings) ==> (raw.deep_view().max_power_watts matches Some(
            view,
        ) && view.len() == ratings.len() && forall|i: int|
            0 <= i < ratings.len() ==> (#[trigger] view[i]).0 == ratings[i].0@ && view[i].1
                == ratings[i].1),
        basic.deep_view().product_name == basic.product_name@,
        basic.deep_view().serial_no == basic.serial_no@,
{
}

/// Messages, the state that they leave, and the events that carry them.
pub proof fn law_messages_are_shown(
    msg: DomainMsg,
    state: State,
    starting: StartupEvent,
    running: DaemonEvent,
)
    ensures
        msg matches DomainMsg::Info(info) ==> msg.deep_view() == DomainMsgView::Info(
            info.deep_view(),
        ),
        msg matches DomainMsg::Pack(pack) ==> msg.deep_view() == DomainMsgView::Pack(
            pack.deep_view(),
        ),
        msg matches DomainMsg::Status(status) ==> msg.deep_view() == DomainMsgView::Status(status),
        state.deep_view().snapshot == state.snapshot,
        state.info is None <==> state.deep_view().info is None,
        state.info matches Some(info) ==> state.deep_view().info == Some(info.deep_view()),
        starting matches StartupEvent::Message(carried) ==> starting.deep_view()
            == StartupEventView::Message(carried.deep_view()),
        starting is IngestGone <==> starting.deep_view() is IngestGone,
        starting is TimedOut <==> starting.deep_view() is TimedOut,
        running matches DaemonEvent::Message(carried) ==> running.deep_view()
            == DaemonEventView::Message(carried.deep_view()),
        running is ShutdownRequested <==> running.deep_view() is ShutdownRequested,
        running is MatterExited <==> running.deep_view() is MatterExited,
        running is IngestEnded <==> running.deep_view() is IngestEnded,
        running is NoMessage <==> running.deep_view() is NoMessage,
        running is ForwardFailed <==> running.deep_view() is ForwardFailed,
        running is Forwarded <==> running.deep_view() is Forwarded,
{
}

/// The router and what it is told and decides.
pub proof fn law_routing_is_shown(
    router: Router,
    event: IngestEvent,
    action: IngestAction,
    connection: Connection,
)
    ensures
        router.deep_view().prefix == router.prefix@,
        shown(router.device_id, router.deep_view().device_id),
        router.deep_view().warned_other_device == router.warned_other_device,
        event is Connected <==> event.deep_view() is Connected,
        event is SubscribeFailed <==> event.deep_view() is SubscribeFailed,
        event is Other <==> event.deep_view() is Other,
        event is Failed <==> event.deep_view() is Failed,
        event matches IngestEvent::Publish { topic, payload } ==> event.deep_view() == (
        IngestEventView::Publish { topic: topic@, payload: payload@ }),
        action is Nothing <==> action.deep_view() is Nothing,
        action matches IngestAction::Deliver(msg) ==> action.deep_view()
            == IngestActionView::Deliver(msg.deep_view()),
        action matches IngestAction::BackOff { seconds } ==> action.deep_view() == (
        IngestActionView::BackOff { seconds }),
        action matches IngestAction::Subscribe { filters, qos } ==> (action.deep_view() matches
            IngestActionView::Subscribe { filters: shown, qos: level } && level == qos
            && shown.len() == filters.len() && forall|i: int|
            0 <= i < filters.len() ==> #[trigger] shown[i] == filters[i]@),
        connection.deep_view().client_id == connection.client_id@,
        connection.deep_view().host == connection.host@,
        connection.deep_view().port == connection.port,
        connection.deep_view().keep_alive_secs == connection.keep_alive_secs,
        connection.deep_view().clean_start == connection.clean_start,
        connection.credentials is None <==> connection.deep_view().credentials is None,
        connection.credentials matches Some((user, password)) ==> connection.deep_view().credentials
            == Some((user@, password@)),
{
}

/// Variables and settings.
pub proof fn law_settings_are_shown(vars: Vars, config: Config, path: StoragePath)
    ensures
        shown(vars.mqtt_host, vars.deep_view().mqtt_host),
        shown(vars.mqtt_port, vars.deep_view().mqtt_port),
        shown(vars.matter_port, vars.deep_view().matter_port),
        shown(vars.mqtt_username, vars.deep_view().mqtt_username),
        shown(vars.mqtt_password, vars.deep_view().mqtt_password),
        shown(vars.topic_prefix, vars.deep_view().topic_prefix),
        shown(vars.device_id, vars.deep_view().device_id),
        shown(vars.storage_path, vars.deep_view().storage_path),
        shown(vars.bootstrap_timeout, vars.deep_view().bootstrap_timeout),
        config.deep_view().mqtt_host == config.mqtt_host@,
        config.deep_view().mqtt_port == config.mqtt_port,
        config.deep_view().matter_port == config.matter_port,
        shown(config.mqtt_username, config.deep_view().mqtt_username),
        shown(config.mqtt_password, config.deep_view().mqtt_password),
        config.deep_view().topic_prefix == config.topic_prefix@,
        shown(config.device_id, config.deep_view().device_id),
        config.deep_view().storage_path == config.storage_path.deep_view(),
        config.deep_view().bootstrap_timeout == config.bootstrap_timeout,
        path matches StoragePath::Given(given) ==> path.deep_view() == StoragePathView::Given(
            given@,
        ),
        path is InHome <==> path.deep_view() is InHome,
{
}

/// Reports, the bridge's events and its actions, and endpoints.
pub proof fn law_reports_are_shown(
    report: Report,
    event: BridgeEvent,
    action: BridgeAction,
    endpoint: Endpoint,
)
    ensures
        report.deep_view().changed == report.changed@,
        report.deep_view().event == report.event,
        report.deep_view().rating_changed == report.rating_changed,
        event matches BridgeEvent::Received { snapshot, now } ==> event.deep_view() == (
        BridgeEventView::Received { snapshot, now }),
        event matches BridgeEvent::Drained { queued } ==> event.deep_view() == (
        BridgeEventView::Drained { queued: queued@ }),
        event matches BridgeEvent::Reported { now } ==> event.deep_view() == (
        BridgeEventView::Reported { now }),
        event is Waited <==> event.deep_view() is Waited,
        event is Closed <==> event.deep_view() is Closed,
        action matches BridgeAction::Publish { state, report } ==> action.deep_view() == (
        BridgeActionView::Publish { state, report: report.deep_view() }),
        action matches BridgeAction::Wait { nanos } ==> action.deep_view() == (
        BridgeActionView::Wait { nanos }),
        action is Receive <==> action.deep_view() is Receive,
        action is Drain <==> action.deep_view() is Drain,
        action is Stop <==> action.deep_view() is Stop,
        endpoint.deep_view().id == endpoint.id,
        endpoint.deep_view().device_type == endpoint.device_type,
        endpoint.deep_view().clusters == endpoint.clusters@,
{
}

} // verus!
