//! Which messages are heard.
use vstd::prelude::*;

use crate::config::ConfigView;
use crate::decimal::decimal_digits;
use crate::domain::{identity, raw_info, DomainMsgView, LinkStatus};
use crate::ingest::{
    connection_of, is_leaf, lemma_leaves_differ, message, status_message, topic_filter,
    topic_parts, IngestActionView, IngestEventView, Refusal, RouterView,
    RECONNECT_DELAY_SECS,
};
use crate::senml::{pack_of, raw_records};
use crate::text::{after_prefix, cut, first_at, lemma_first_at_absent, lossy_text};

verus! {

/// A topic of the publisher.
pub open spec fn topic_of(prefix: Seq<char>, device: Seq<char>, leaf: Seq<char>) -> Seq<char> {
    prefix + "/"@ + device + "/"@ + leaf
}

proof fn lemma_slash()
    ensures
        "/"@ == seq!['/'],
        "/+/"@ == seq!['/', '+', '/'],
{
    reveal_strlit("/");
    reveal_strlit("/+/");
    assert("/"@ == seq!['/']);
    assert("/+/"@ == seq!['/', '+', '/']);
}

proof fn lemma_cut_joined(device: Seq<char>, leaf: Seq<char>)
    requires
        !device.contains('/'),
    ensures
        cut(device + "/"@ + leaf, '/') == Some((device, leaf)),
{
    lemma_slash();
    let joined = device + "/"@ + leaf;
    lemma_first_at_absent(joined, '/');
    let at = first_at(joined, '/');
    assert(joined[device.len() as int] == '/');
    assert(joined.contains('/'));
    if at < device.len() {
        assert(joined[at] == device[at]);
        assert(device.contains('/'));
    }
    assert(at == device.len());
    assert(joined.take(at) == device);
    assert(joined.skip(at + 1) == leaf);
}

/// A topic is read back into the device and leaf that it was made of.
pub proof fn law_topics_read_back(prefix: Seq<char>, device: Seq<char>, leaf: Seq<char>)
    requires
        device.len() > 0,
        !device.contains('/'),
        !leaf.contains('/'),
    ensures
        topic_parts(prefix, topic_of(prefix, device, leaf)) == Some((device, leaf)),
{
    lemma_slash();
    let topic = topic_of(prefix, device, leaf);
    let rest = "/"@ + device + "/"@ + leaf;
    let joined = device + "/"@ + leaf;
    assert(topic == prefix + rest);
    assert(prefix.is_prefix_of(topic));
    assert(topic.skip(prefix.len() as int) == rest);
    assert(after_prefix(topic, prefix) == Some(rest));
    assert("/"@.is_prefix_of(rest));
    assert(rest.skip(1) == joined);
    assert(after_prefix(rest, "/"@) == Some(joined));
    lemma_cut_joined(device, leaf);
}

/// Only the publisher's topics have parts, and they are made of them.
pub proof fn law_parts_make_up_the_topic(prefix: Seq<char>, topic: Seq<char>)
    ensures
        topic_parts(prefix, topic) matches Some((device, leaf)) ==> topic == topic_of(
            prefix,
            device,
            leaf,
        ) && device.len() > 0 && !device.contains('/') && !leaf.contains('/'),
{
    lemma_slash();
    if let Some((device, leaf)) = topic_parts(prefix, topic) {
        let rest = topic.skip(prefix.len() as int);
        let joined = rest.skip(1);
        lemma_first_at_absent(joined, '/');
        let at = first_at(joined, '/');
        assert(topic == prefix + rest);
        assert(rest == "/"@ + joined);
        assert(joined == device + "/"@ + leaf);
        assert forall|i: int| 0 <= i < device.len() implies device[i] != '/' by {
            assert(device[i] == joined[i]);
        }
        assert(topic == topic_of(prefix, device, leaf));
    }
}

/// Whether the broker passes a topic on for a filter whose one wildcard stands
/// for the device: the wildcard covers one level.
pub open spec fn subscribed(prefix: Seq<char>, leaf: Seq<char>, topic: Seq<char>) -> bool {
    exists|device: Seq<char>|
        device.len() > 0 && !device.contains('/') && topic == #[trigger] topic_of(
            prefix,
            device,
            leaf,
        )
}

/// A filter is a topic whose device is the wildcard, and the topics that it
/// lets through, with a device that is not empty, are those that are routed by
/// its leaf.
pub proof fn law_filters_let_routed_topics_through(
    prefix: Seq<char>,
    leaf: Seq<char>,
    topic: Seq<char>,
)
    requires
        !leaf.contains('/'),
    ensures
        topic_filter(prefix, leaf) == topic_of(prefix, "+"@, leaf),
        subscribed(prefix, leaf, topic) <==> (topic_parts(prefix, topic) matches Some(parts)
            && parts.1 == leaf),
{
    lemma_slash();
    reveal_strlit("+");
    assert("+"@ == seq!['+']);
    assert(topic_filter(prefix, leaf) == topic_of(prefix, "+"@, leaf));
    law_parts_make_up_the_topic(prefix, topic);
    if subscribed(prefix, leaf, topic) {
        let device = choose|device: Seq<char>|
            device.len() > 0 && !device.contains('/') && topic == #[trigger] topic_of(
                prefix,
                device,
                leaf,
            );
        law_topics_read_back(prefix, device, leaf);
    }
}

/// Only the three leaves that are subscribed to carry messages.
pub proof fn law_other_leaves_carry_nothing(leaf: Seq<char>, payload: Seq<u8>)
    requires
        leaf != "info"@,
        leaf != "instantaneous"@,
        leaf != "status"@,
    ensures
        message(leaf, payload) is None,
{
}

/// The router after publishes on these topics.
pub open spec fn router_after(router: RouterView, topics: Seq<Seq<char>>) -> RouterView
    decreases topics.len(),
{
    if topics.len() == 0 {
        router
    } else {
        router_after(router, topics.drop_last()).after(topics.last())
    }
}

/// Once a device is pinned or locked onto, it stays the one that is listened to.
pub proof fn law_the_lock_never_moves(router: RouterView, topics: Seq<Seq<char>>)
    ensures
        router_after(router, topics).prefix == router.prefix,
        router.device_id is Some ==> router_after(router, topics).device_id == router.device_id,
    decreases topics.len(),
{
    if topics.len() > 0 {
        law_the_lock_never_moves(router, topics.drop_last());
    }
}

/// A message comes from the device that is listened to, and from no other.
pub proof fn law_messages_come_from_the_locked_device(
    router: RouterView,
    topic: Seq<char>,
    payload: Seq<u8>,
)
    requires
        router.routed(topic, payload) is Some,
    ensures
        topic_parts(router.prefix, topic) matches Some((device, leaf)) && router.after(
            topic,
        ).device_id == Some(device) && router.routed(topic, payload) == message(leaf, payload),
        router.device_id is Some ==> router.after(topic) == router,
{
}

/// The device of a topic.
pub open spec fn device_of(prefix: Seq<char>, topic: Seq<char>) -> Option<Seq<char>> {
    match topic_parts(prefix, topic) {
        Some((device, _)) => Some(device),
        None => None,
    }
}

/// All messages of a run come from one device: whichever two publishes carry
/// one, their devices are the same.
pub proof fn law_one_device_for_all(
    router: RouterView,
    topics: Seq<Seq<char>>,
    i: int,
    j: int,
    first: Seq<u8>,
    second: Seq<u8>,
)
    requires
        0 <= i < j < topics.len(),
        router_after(router, topics.take(i)).routed(topics[i], first) is Some,
        router_after(router, topics.take(j)).routed(topics[j], second) is Some,
    ensures
        device_of(router.prefix, topics[i]) == device_of(router.prefix, topics[j]),
        device_of(router.prefix, topics[i]) is Some,
{
    let upto_i = router_after(router, topics.take(i));
    law_the_lock_never_moves(router, topics.take(i));
    law_the_lock_never_moves(router, topics.take(j));
    law_messages_come_from_the_locked_device(upto_i, topics[i], first);
    assert(topics.take(i + 1).drop_last() == topics.take(i));
    assert(router_after(router, topics.take(i + 1)) == upto_i.after(topics[i]));
    let between = topics.subrange(i + 1, j);
    lemma_runs_compose(router, topics.take(i + 1), between);
    assert(topics.take(i + 1) + between == topics.take(j));
    law_the_lock_never_moves(upto_i.after(topics[i]), between);
}

proof fn lemma_runs_compose(router: RouterView, first: Seq<Seq<char>>, second: Seq<Seq<char>>)
    ensures
        router_after(router, first + second) == router_after(router_after(router, first), second),
    decreases second.len(),
{
    if second.len() == 0 {
        assert(first + second == first);
    } else {
        lemma_runs_compose(router, first, second.drop_last());
        assert((first + second).drop_last() == first + second.drop_last());
        assert((first + second).last() == second.last());
    }
}

/// A topic of another shape or prefix is not heard and leaves no trace.
pub proof fn law_foreign_topics_leave_no_trace(
    router: RouterView,
    topic: Seq<char>,
    payload: Seq<u8>,
)
    requires
        topic_parts(router.prefix, topic) is None,
    ensures
        router.routed(topic, payload) is None,
        router.after(topic) == router,
{
}

/// The router after a run of the connection.
pub open spec fn router_after_events(
    router: RouterView,
    events: Seq<IngestEventView>,
) -> RouterView
    decreases events.len(),
{
    if events.len() == 0 {
        router
    } else {
        router_after_events(router, events.drop_last()).after_event(events.last())
    }
}

/// Every connect, the first and each later one, is answered by subscribing to
/// the three topics of the prefix, with delivery at least once, whatever
/// happened before it.
pub proof fn law_every_connect_subscribes(router: RouterView, events: Seq<IngestEventView>)
    ensures
        router_after_events(router, events).action(IngestEventView::Connected) == (
        IngestActionView::Subscribe {
            filters: seq![
                router.prefix + "/+/info"@,
                router.prefix + "/+/instantaneous"@,
                router.prefix + "/+/status"@,
            ],
            qos: 1,
        }),
{
    lemma_prefix_stays(router, events);
    reveal_strlit("/+/");
    reveal_strlit("info");
    reveal_strlit("instantaneous");
    reveal_strlit("status");
    reveal_strlit("/+/info");
    reveal_strlit("/+/instantaneous");
    reveal_strlit("/+/status");
    assert("/+/"@ + "info"@ == "/+/info"@);
    assert("/+/"@ + "instantaneous"@ == "/+/instantaneous"@);
    assert("/+/"@ + "status"@ == "/+/status"@);
    let p = router.prefix;
    assert(p + "/+/"@ + "info"@ == p + ("/+/"@ + "info"@));
    assert(p + "/+/"@ + "instantaneous"@ == p + ("/+/"@ + "instantaneous"@));
    assert(p + "/+/"@ + "status"@ == p + ("/+/"@ + "status"@));
}

proof fn lemma_prefix_stays(router: RouterView, events: Seq<IngestEventView>)
    ensures
        router_after_events(router, events).prefix == router.prefix,
    decreases events.len(),
{
    if events.len() > 0 {
        lemma_prefix_stays(router, events.drop_last());
    }
}

/// A connection that comes and goes, or a subscription that is not taken, keeps
/// the lock, and neither ends the run.
pub proof fn law_faults_keep_the_lock(router: RouterView)
    ensures
        router.after_event(IngestEventView::Connected) == router,
        router.after_event(IngestEventView::Failed) == router,
        router.after_event(IngestEventView::SubscribeFailed) == router,
        router.action(IngestEventView::SubscribeFailed) == IngestActionView::Nothing,
        router.action(IngestEventView::Failed) == (IngestActionView::BackOff {
            seconds: RECONNECT_DELAY_SECS,
        }),
{
}

/// Credentials are sent exactly where both a user name and a password are
/// configured, and they are those.
pub proof fn law_credentials_take_both(config: ConfigView, process_id: u32)
    ensures
        connection_of(config, process_id).credentials is Some <==> config.mqtt_username is Some
            && config.mqtt_password is Some,
        connection_of(config, process_id).credentials matches Some((user, password)) ==> Some(user)
            == config.mqtt_username && Some(password) == config.mqtt_password,
{
}

/// Every publish of the device that is listened to, on a topic that carries
/// messages, is either delivered or refused for a reason; none other is refused.
pub proof fn law_publishes_are_delivered_or_refused(
    router: RouterView,
    topic: Seq<char>,
    payload: Seq<u8>,
)
    ensures
        !(router.refuses(topic, payload) && router.routed(topic, payload) is Some),
        topic_parts(router.prefix, topic) matches Some((device, leaf)) ==> router.hears(device)
            && is_leaf(leaf) ==> router.refuses(topic, payload) || router.routed(topic, payload)
            is Some,
{
}

/// A publish of the device that is listened to, or of the first one that is seen,
/// carries what its leaf and its payload say, and that device is listened to from
/// then on; nothing else changes.
pub proof fn law_the_devices_publishes_are_routed(
    router: RouterView,
    device: Seq<char>,
    leaf: Seq<char>,
    payload: Seq<u8>,
)
    requires
        device.len() > 0,
        !device.contains('/'),
        !leaf.contains('/'),
        router.device_id is None || router.device_id == Some(device),
    ensures
        ({
            let topic = topic_of(router.prefix, device, leaf);
            let after = router.after(topic);
            &&& router.routed(topic, payload) == message(leaf, payload)
            &&& router.turned_away(topic) is None
            &&& router.refuses(topic, payload) <==> message(leaf, payload) is None && (leaf
                == "info"@ || leaf == "instantaneous"@ || leaf == "status"@)
            &&& after.device_id == Some(device)
            &&& after.prefix == router.prefix
            &&& after.warned_other_device == router.warned_other_device
        }),
{
    law_topics_read_back(router.prefix, device, leaf);
}

/// A publish of any other device carries nothing, is remembered, and moves nothing.
pub proof fn law_other_devices_are_turned_away(
    router: RouterView,
    device: Seq<char>,
    leaf: Seq<char>,
    payload: Seq<u8>,
    heard: Seq<char>,
)
    requires
        device.len() > 0,
        !device.contains('/'),
        !leaf.contains('/'),
        router.device_id == Some(heard),
        heard != device,
    ensures
        ({
            let topic = topic_of(router.prefix, device, leaf);
            let after = router.after(topic);
            &&& router.routed(topic, payload) is None
            &&& router.turned_away(topic) == Some(device)
            &&& !router.refuses(topic, payload)
            &&& after.device_id == Some(heard)
            &&& after.prefix == router.prefix
            &&& after.warned_other_device
        }),
{
    law_topics_read_back(router.prefix, device, leaf);
}

/// A topic that is not made of the prefix, a device and a leaf belongs to nobody.
pub proof fn law_other_topics_belong_to_nobody(
    router: RouterView,
    topic: Seq<char>,
    payload: Seq<u8>,
)
    requires
        forall|device: Seq<char>, leaf: Seq<char>|
            device.len() > 0 && !device.contains('/') && !leaf.contains('/') ==> topic
                != #[trigger] topic_of(router.prefix, device, leaf),
    ensures
        router.routed(topic, payload) is None,
        router.turned_away(topic) is None,
        !router.refuses(topic, payload),
        router.after(topic) == router,
{
    law_parts_make_up_the_topic(router.prefix, topic);
}

/// On `info`, a payload that holds an identity says that identity, and any other
/// says nothing.
pub proof fn law_info_says_the_identity(payload: Seq<u8>)
    ensures
        raw_info(payload) matches Some(raw) ==> message("info"@, payload) == Some(
            DomainMsgView::Info(identity(raw)),
        ),
        raw_info(payload) is None ==> message("info"@, payload) is None,
{
}

/// On `instantaneous`, a payload whose records make up a pack says that pack, and
/// any other says nothing.
pub proof fn law_instantaneous_says_the_pack(payload: Seq<u8>)
    ensures
        raw_records(payload) matches Some(raw) ==> {
            &&& pack_of(raw) matches Some(pack) ==> message("instantaneous"@, payload) == Some(
                DomainMsgView::Pack(pack),
            )
            &&& pack_of(raw) is None ==> message("instantaneous"@, payload) is None
        },
        raw_records(payload) is None ==> message("instantaneous"@, payload) is None,
{
    lemma_leaves_differ();
}

/// On `status`, a payload whose text stands for a status says that status, and any
/// other says nothing.
pub proof fn law_status_says_the_link(payload: Seq<u8>)
    ensures
        LinkStatus::named(lossy_text(payload)) matches Some(status) ==> message("status"@, payload)
            == Some(DomainMsgView::Status(status)),
        LinkStatus::named(lossy_text(payload)) is None ==> message("status"@, payload) is None,
        forall|text: Seq<char>| (#[trigger] status_message(text)) is Some <==> LinkStatus::named(text) is Some,
        forall|text: Seq<char>| (#[trigger] status_message(text)) matches Some(msg) ==> LinkStatus::named(
            text,
        ) matches Some(status) && msg == DomainMsgView::Status(status),
{
    lemma_leaves_differ();
}

/// A publish is delivered exactly where it carries a message, as that message; where
/// it carries none, nothing is done, and so for all else that is of no interest.
pub proof fn law_what_is_routed_is_delivered(
    router: RouterView,
    topic: Seq<u8>,
    payload: Seq<u8>,
    msg: DomainMsgView,
)
    ensures
        ({
            let publish = IngestEventView::Publish { topic, payload };
            &&& router.action(publish) == IngestActionView::Deliver(msg) <==> router.routed(
                lossy_text(topic),
                payload,
            ) == Some(msg)
            &&& router.action(publish) == IngestActionView::Nothing <==> router.routed(
                lossy_text(topic),
                payload,
            ) is None
            &&& router.after_event(publish) == router.after(lossy_text(topic))
        }),
        router.action(IngestEventView::Other) == IngestActionView::Nothing,
        router.after_event(IngestEventView::Other) == router,
        router.action(IngestEventView::Failed) == (IngestActionView::BackOff { seconds: 3 }),
{
}

/// The connection goes to the configured broker, under a name of the process, with
/// nothing kept from one connection to the next.
pub proof fn law_connections_go_to_the_broker(config: ConfigView, process_id: u32)
    ensures
        ({
            let connection = connection_of(config, process_id);
            &&& connection.host == config.mqtt_host
            &&& connection.port == config.mqtt_port
            &&& connection.keep_alive_secs == 30
            &&& connection.clean_start
            &&& connection.client_id == "pv-matter-"@ + decimal_digits(process_id as nat)
        }),
{
}

/// A refusal gives the reason that holds: an identity or a pack that cannot be read,
/// a pack without a base time, or a text that stands for no status.
pub proof fn law_refusals_give_their_reason(
    refusal: Refusal,
    leaf: Seq<char>,
    payload: Seq<u8>,
)
    requires
        refusal.explains(leaf, payload),
    ensures
        message(leaf, payload) is None,
        leaf == "info"@ <==> refusal is Info,
        leaf == "instantaneous"@ <==> refusal is Pack,
        leaf == "status"@ <==> refusal is Status,
        refusal is Info ==> raw_info(payload) is None,
        refusal matches Refusal::Pack(error) ==> (error is Json <==> raw_records(payload) is None),
        refusal matches Refusal::Status(text) ==> text@ == lossy_text(payload),
{
    lemma_leaves_differ();
}

} // verus!
