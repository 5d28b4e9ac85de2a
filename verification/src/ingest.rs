//! From MQTT to messages: which topics to subscribe to, which device to listen
//! to, and what each publish says.
//!
//! The publisher picks its own device id. Unless one is pinned, the router
//! locks onto the first that it sees and ignores any other. All topics are
//! retained, so that state replays by itself after every connect.
use vstd::prelude::*;

use crate::config::{Config, ConfigView};
use crate::decimal;
use crate::decimal::decimal_digits;
use crate::domain::{
    identity, raw_info, DomainMsg, DomainMsgView, InverterInfo, LinkStatus,
};
use crate::senml;
use crate::senml::{pack_of, raw_records, PackError};
use crate::text;
use crate::text::{after_prefix, cut, lossy_text};
use vstd::utf8::{decode_utf8, valid_utf8};

verus! {

/// How long to wait after an error of the connection, in seconds.
pub const RECONNECT_DELAY_SECS: u64 = 3;

/// How long the connection may be silent, in seconds.
pub const KEEP_ALIVE_SECS: u16 = 30;

/// How to connect to the broker: a clean start each time, since everything of
/// interest is retained.
#[derive(Debug, Clone, PartialEq, Eq)]
pub struct Connection {
    pub client_id: String,
    pub host: String,
    pub port: u16,
    pub keep_alive_secs: u16,
    pub clean_start: bool,
    /// User name and password.
    pub credentials: Option<(String, String)>,
}

pub struct ConnectionView {
    pub client_id: Seq<char>,
    pub host: Seq<char>,
    pub port: u16,
    pub keep_alive_secs: u16,
    pub clean_start: bool,
    pub credentials: Option<(Seq<char>, Seq<char>)>,
}

impl DeepView for Connection {
    type V = ConnectionView;

    open spec fn deep_view(&self) -> ConnectionView {
        ConnectionView {
            client_id: self.client_id@,
            host: self.host@,
            port: self.port,
            keep_alive_secs: self.keep_alive_secs,
            clean_start: self.clean_start,
            credentials: self.credentials.deep_view(),
        }
    }
}

/// The connection of a configuration, in the process with this id. Credentials
/// take both a user name and a password.
pub open spec fn connection_of(config: ConfigView, process_id: u32) -> ConnectionView {
    ConnectionView {
        client_id: "pv-matter-"@ + decimal_digits(process_id as nat),
        host: config.mqtt_host,
        port: config.mqtt_port,
        keep_alive_secs: KEEP_ALIVE_SECS,
        clean_start: true,
        credentials: match (config.mqtt_username, config.mqtt_password) {
            (Some(user), Some(password)) => Some((user, password)),
            _ => None,
        },
    }
}

/// How to connect by this configuration, in the process with this id.
pub fn connection(config: &Config, process_id: u32) -> (res: Connection)
    ensures
        res.deep_view() == connection_of(config.deep_view(), process_id),
{
    let mut client_id: String = "pv-matter-".to_owned();
    client_id.append(decimal::decimal_text(process_id as u64).as_str());
    let credentials: Option<(String, String)> = match (
        &config.mqtt_username,
        &config.mqtt_password,
    ) {
        (Some(user), Some(password)) => Some(
            (user.as_str().to_owned(), password.as_str().to_owned()),
        ),
        _ => None,
    };
    Connection {
        client_id,
        host: config.mqtt_host.as_str().to_owned(),
        port: config.mqtt_port,
        keep_alive_secs: KEEP_ALIVE_SECS,
        clean_start: true,
        credentials,
    }
}

/// The quality of service of the subscriptions: delivery at least once.
pub const SUBSCRIBE_QOS: u8 = 1;

/// What the connection reports.
#[derive(Debug, Clone, PartialEq)]
pub enum IngestEvent {
    /// The broker accepted the connection.
    Connected,
    Publish { topic: Vec<u8>, payload: Vec<u8> },
    /// A subscription was not taken.
    SubscribeFailed,
    /// Anything else, of no interest here.
    Other,
    /// The connection failed; it comes up again on the next poll.
    Failed,
}

/// What to do about an event.
#[derive(Debug, Clone, PartialEq)]
pub enum IngestAction {
    /// Subscribe to these topic filters, at this quality of service.
    Subscribe { filters: Vec<String>, qos: u8 },
    /// Pass a message on.
    Deliver(DomainMsg),
    Nothing,
    /// Wait before the next poll.
    BackOff { seconds: u64 },
}

pub enum IngestEventView {
    Connected,
    Publish { topic: Seq<u8>, payload: Seq<u8> },
    SubscribeFailed,
    Other,
    Failed,
}

pub enum IngestActionView {
    Subscribe { filters: Seq<Seq<char>>, qos: u8 },
    Deliver(DomainMsgView),
    Nothing,
    BackOff { seconds: u64 },
}

impl DeepView for IngestEvent {
    type V = IngestEventView;

    open spec fn deep_view(&self) -> IngestEventView {
        match self {
            IngestEvent::Connected => IngestEventView::Connected,
            IngestEvent::Publish { topic, payload } => IngestEventView::Publish {
                topic: topic@,
                payload: payload@,
            },
            IngestEvent::SubscribeFailed => IngestEventView::SubscribeFailed,
            IngestEvent::Other => IngestEventView::Other,
            IngestEvent::Failed => IngestEventView::Failed,
        }
    }
}

impl DeepView for IngestAction {
    type V = IngestActionView;

    open spec fn deep_view(&self) -> IngestActionView {
        match self {
            IngestAction::Subscribe { filters, qos } => IngestActionView::Subscribe {
                filters: filters.deep_view(),
                qos: *qos,
            },
            IngestAction::Deliver(msg) => IngestActionView::Deliver(msg.deep_view()),
            IngestAction::Nothing => IngestActionView::Nothing,
            IngestAction::BackOff { seconds } => IngestActionView::BackOff { seconds: *seconds },
        }
    }
}

/// Device and leaf of a topic `<prefix>/<device>/<leaf>`, neither of which
/// holds a `/` and the first of which is not empty.
pub open spec fn topic_parts(prefix: Seq<char>, topic: Seq<char>) -> Option<
    (Seq<char>, Seq<char>),
> {
    match after_prefix(topic, prefix) {
        Some(slash) => match after_prefix(slash, "/"@) {
            Some(rest) => match cut(rest, '/') {
                Some((device, leaf)) => if device.len() > 0 && !leaf.contains('/') {
                    Some((device, leaf))
                } else {
                    None
                },
                None => None,
            },
            None => None,
        },
        None => None,
    }
}

/// What the text of a `status` topic says.
pub open spec fn status_message(payload: Seq<char>) -> Option<DomainMsgView> {
    match LinkStatus::named(payload) {
        Some(status) => Some(DomainMsgView::Status(status)),
        None => None,
    }
}

/// What a payload says on a topic with this leaf; `None` where the leaf is
/// unknown or the payload cannot be read.
pub open spec fn message(leaf: Seq<char>, payload: Seq<u8>) -> Option<DomainMsgView> {
    if leaf == "info"@ {
        match raw_info(payload) {
            Some(raw) => Some(DomainMsgView::Info(identity(raw))),
            None => None,
        }
    } else if leaf == "instantaneous"@ {
        match raw_records(payload) {
            Some(raw) => match pack_of(raw) {
                Some(pack) => Some(DomainMsgView::Pack(pack)),
                None => None,
            },
            None => None,
        }
    } else if leaf == "status"@ {
        status_message(lossy_text(payload))
    } else {
        None
    }
}

/// The topic filter for one leaf of every device.
pub open spec fn topic_filter(prefix: Seq<char>, leaf: Seq<char>) -> Seq<char> {
    prefix + "/+/"@ + leaf
}

/// The topic filters to subscribe to.
pub open spec fn topic_filters(prefix: Seq<char>) -> Seq<Seq<char>> {
    seq![
        topic_filter(prefix, "info"@),
        topic_filter(prefix, "instantaneous"@),
        topic_filter(prefix, "status"@),
    ]
}

/// Routes topics to messages, for one device.
#[derive(Debug, Clone, PartialEq)]
pub struct Router {
    pub prefix: String,
    /// The device that is listened to: pinned, or the first one seen.
    pub device_id: Option<String>,
    /// Whether another device has been turned away.
    pub warned_other_device: bool,
}

pub struct RouterView {
    pub prefix: Seq<char>,
    pub device_id: Option<Seq<char>>,
    pub warned_other_device: bool,
}

impl DeepView for Router {
    type V = RouterView;

    open spec fn deep_view(&self) -> RouterView {
        RouterView {
            prefix: self.prefix@,
            device_id: self.device_id.deep_view(),
            warned_other_device: self.warned_other_device,
        }
    }
}

impl RouterView {
    /// Whether a device is the one that is listened to, or may become it.
    pub open spec fn hears(self, device: Seq<char>) -> bool {
        self.device_id is None || self.device_id == Some(device)
    }

    /// After a publish on `topic`, whatever its payload.
    pub open spec fn after(self, topic: Seq<char>) -> RouterView {
        match topic_parts(self.prefix, topic) {
            Some((device, _)) => if self.hears(device) {
                RouterView { device_id: Some(device), ..self }
            } else {
                RouterView { warned_other_device: true, ..self }
            },
            None => self,
        }
    }

    /// The message of a publish.
    pub open spec fn routed(self, topic: Seq<char>, payload: Seq<u8>) -> Option<DomainMsgView> {
        match topic_parts(self.prefix, topic) {
            Some((device, leaf)) => if self.hears(device) {
                message(leaf, payload)
            } else {
                None
            },
            None => None,
        }
    }

    /// The device that a topic names, where another one is listened to.
    pub open spec fn turned_away(self, topic: Seq<char>) -> Option<Seq<char>> {
        match topic_parts(self.prefix, topic) {
            Some((device, _)) => if self.hears(device) {
                None
            } else {
                Some(device)
            },
            None => None,
        }
    }

    /// Whether a publish should carry a message of the device that is listened
    /// to, and carries none.
    pub open spec fn refuses(self, topic: Seq<char>, payload: Seq<u8>) -> bool {
        match topic_parts(self.prefix, topic) {
            Some((device, leaf)) => self.hears(device) && is_leaf(leaf) && message(leaf, payload)
                is None,
            None => false,
        }
    }

    /// Whether a topic is the status of the device that is listened to.
    pub open spec fn routes_status(self, topic: Seq<char>) -> bool {
        match topic_parts(self.prefix, topic) {
            Some((device, leaf)) => self.hears(device) && leaf == "status"@,
            None => false,
        }
    }

    /// After an event of the connection.
    pub open spec fn after_event(self, event: IngestEventView) -> RouterView {
        match event {
            IngestEventView::Publish { topic, .. } => self.after(lossy_text(topic)),
            _ => self,
        }
    }

    /// What to do about an event of the connection.
    pub open spec fn action(self, event: IngestEventView) -> IngestActionView {
        match event {
            IngestEventView::Connected => IngestActionView::Subscribe {
                filters: topic_filters(self.prefix),
                qos: SUBSCRIBE_QOS,
            },
            IngestEventView::Publish { topic, payload } => match self.routed(
                lossy_text(topic),
                payload,
            ) {
                Some(msg) => IngestActionView::Deliver(msg),
                None => IngestActionView::Nothing,
            },
            IngestEventView::SubscribeFailed | IngestEventView::Other => IngestActionView::Nothing,
            IngestEventView::Failed => IngestActionView::BackOff { seconds: RECONNECT_DELAY_SECS },
        }
    }
}

/// Why a publish of the device that is listened to carries no message.
#[derive(Debug)]
pub enum Refusal {
    /// The identity cannot be read.
    Info(serde_json::Error),
    /// The pack cannot be read.
    Pack(PackError),
    /// The status is none that is known; its text.
    Status(String),
}

impl Refusal {
    /// Whether this is why the payload of a topic with this leaf is refused.
    pub open spec fn explains(&self, leaf: Seq<char>, payload: Seq<u8>) -> bool {
        match self {
            Refusal::Info(_) => leaf == "info"@ && raw_info(payload) is None,
            Refusal::Pack(PackError::Json(_)) => leaf == "instantaneous"@ && raw_records(payload)
                is None,
            Refusal::Pack(PackError::MissingHeader) => leaf == "instantaneous"@ && (raw_records(
                payload,
            ) matches Some(raw) && pack_of(raw) is None),
            Refusal::Status(text) => leaf == "status"@ && text@ == lossy_text(payload)
                && LinkStatus::named(text@) is None,
        }
    }
}

/// Whether a topic with this leaf carries messages.
pub open spec fn is_leaf(leaf: Seq<char>) -> bool {
    leaf == "info"@ || leaf == "instantaneous"@ || leaf == "status"@
}

/// Why the payload of a topic with this leaf is refused; `None` where it is a
/// message, or the leaf carries none.
pub fn refusal(leaf: &str, payload: &[u8]) -> (res: Option<Refusal>)
    ensures
        res is Some <==> is_leaf(leaf@) && message(leaf@, payload@) is None,
        res matches Some(refusal) ==> refusal.explains(leaf@, payload@),
{
    proof {
        lemma_leaves_differ();
    }
    if text::same(leaf, "info") {
        match InverterInfo::parse(payload) {
            Ok(_) => None,
            Err(error) => Some(Refusal::Info(error)),
        }
    } else if text::same(leaf, "instantaneous") {
        match senml::parse_pack(payload) {
            Ok(_) => None,
            Err(error) => Some(Refusal::Pack(error)),
        }
    } else if text::same(leaf, "status") {
        let word = text::decode_lossy(payload);
        match LinkStatus::parse(word.as_str()) {
            Some(_) => None,
            None => Some(Refusal::Status(word)),
        }
    } else {
        None
    }
}

pub proof fn lemma_leaves_differ()
    ensures
        "info"@ != "instantaneous"@,
        "info"@ != "status"@,
        "instantaneous"@ != "status"@,
{
    reveal_strlit("info");
    reveal_strlit("instantaneous");
    reveal_strlit("status");
    assert("info"@.len() == 4 && "instantaneous"@.len() == 13 && "status"@.len() == 6);
}

fn filter(prefix: &str, leaf: &str) -> (res: String)
    ensures
        res@ == topic_filter(prefix@, leaf@),
{
    let mut out: String = prefix.to_owned();
    out.append("/+/");
    out.append(leaf);
    out
}

/// Reads a payload by its topic's leaf. A status that is not UTF-8 is read with
/// replacement characters.
pub fn read_message(leaf: &str, payload: &[u8]) -> (res: Option<DomainMsg>)
    ensures
        res.deep_view() == message(leaf@, payload@),
        leaf@ == "status"@ && valid_utf8(payload@) ==> res.deep_view() == status_message(
            decode_utf8(payload@),
        ),
{
    proof {
        lemma_leaves_differ();
    }
    if text::same(leaf, "info") {
        match InverterInfo::parse(payload) {
            Ok(info) => Some(DomainMsg::Info(info)),
            Err(_) => None,
        }
    } else if text::same(leaf, "instantaneous") {
        match senml::parse_pack(payload) {
            Ok(pack) => Some(DomainMsg::Pack(pack)),
            Err(_) => None,
        }
    } else if text::same(leaf, "status") {
        let word = text::decode_lossy(payload);
        match LinkStatus::parse(word.as_str()) {
            Some(status) => Some(DomainMsg::Status(status)),
            None => None,
        }
    } else {
        None
    }
}

/// Splits a topic under `prefix` into device and leaf.
fn split_topic<'a>(prefix: &str, topic: &'a str) -> (res: Option<(&'a str, &'a str)>)
    ensures
        res.deep_view() == topic_parts(prefix@, topic@),
{
    let slash = text::strip_prefix(topic, prefix)?;
    let rest = text::strip_prefix(slash, "/")?;
    let (device, leaf) = text::split_once(rest, '/')?;
    if device.is_empty() || text::contains(leaf, '/') {
        return None;
    }
    Some((device, leaf))
}

impl Router {
    pub fn new(prefix: String, pinned_device: Option<String>) -> (res: Self)
        ensures
            res.deep_view() == (RouterView {
                prefix: prefix@,
                device_id: pinned_device.deep_view(),
                warned_other_device: false,
            }),
    {
        Router { prefix, device_id: pinned_device, warned_other_device: false }
    }

    /// The message of a publish, where there is one for the device that is
    /// listened to.
    pub fn route(&mut self, topic: &str, payload: &[u8]) -> (res: Option<DomainMsg>)
        ensures
            res.deep_view() == old(self).deep_view().routed(topic@, payload@),
            old(self).deep_view().routes_status(topic@) && valid_utf8(payload@) ==> res.deep_view()
                == status_message(decode_utf8(payload@)),
            final(self).deep_view() == old(self).deep_view().after(topic@),
    {
        let (device, leaf) = split_topic(self.prefix.as_str(), topic)?;
        let other: bool = match &self.device_id {
            Some(locked) => !text::same(locked.as_str(), device),
            None => false,
        };
        if other {
            self.warned_other_device = true;
            return None;
        }
        if self.device_id.is_none() {
            self.device_id = Some(device.to_owned());
        }
        read_message(leaf, payload)
    }

    /// The device that a topic names, where another one is listened to.
    pub fn turned_away(&self, topic: &str) -> (res: Option<String>)
        ensures
            res.deep_view() == self.deep_view().turned_away(topic@),
    {
        let (device, _) = split_topic(self.prefix.as_str(), topic)?;
        match &self.device_id {
            Some(locked) => if text::same(locked.as_str(), device) {
                None
            } else {
                Some(device.to_owned())
            },
            None => None,
        }
    }

    /// Why a publish of the device that is listened to carries no message; `None`
    /// where it carries one, and for any other topic.
    pub fn refusal(&self, topic: &str, payload: &[u8]) -> (res: Option<Refusal>)
        ensures
            res is Some <==> self.deep_view().refuses(topic@, payload@),
            res matches Some(refusal) ==> (topic_parts(self.prefix@, topic@) matches Some(parts)
                && refusal.explains(parts.1, payload@)),
    {
        let (device, leaf) = split_topic(self.prefix.as_str(), topic)?;
        let other: bool = match &self.device_id {
            Some(locked) => !text::same(locked.as_str(), device),
            None => false,
        };
        if other {
            return None;
        }
        self::refusal(leaf, payload)
    }

    /// Decides what to do about an event of the connection. A topic that is not
    /// UTF-8 is read with replacement characters.
    pub fn step(&mut self, event: &IngestEvent) -> (res: IngestAction)
        ensures
            res.deep_view() == old(self).deep_view().action(event.deep_view()),
            final(self).deep_view() == old(self).deep_view().after_event(event.deep_view()),
            event.deep_view() matches IngestEventView::Publish { topic, .. } ==> valid_utf8(topic)
                ==> lossy_text(topic) == decode_utf8(topic),
    {
        match event {
            IngestEvent::Connected => {
                let prefix = self.prefix.as_str();
                let filters: Vec<String> = vec![
                    filter(prefix, "info"),
                    filter(prefix, "instantaneous"),
                    filter(prefix, "status"),
                ];
                assert(filters.deep_view() == topic_filters(prefix@));
                IngestAction::Subscribe { filters, qos: SUBSCRIBE_QOS }
            },
            IngestEvent::Publish { topic, payload } => {
                let topic = text::decode_lossy(topic.as_slice());
                match self.route(topic.as_str(), payload.as_slice()) {
                    Some(msg) => IngestAction::Deliver(msg),
                    None => IngestAction::Nothing,
                }
            },
            IngestEvent::SubscribeFailed => IngestAction::Nothing,
            IngestEvent::Other => IngestAction::Nothing,
            IngestEvent::Failed => IngestAction::BackOff { seconds: RECONNECT_DELAY_SECS },
        }
    }
}

} // verus!
