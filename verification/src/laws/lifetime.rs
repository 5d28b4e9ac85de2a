//! The life of the daemon.
use vstd::prelude::*;

use crate::domain::{energy_times_fit, DomainMsgView, StateView};
use crate::lifecycle::{DaemonAction, DaemonEventView, StartupAction, StartupEventView};

verus! {

/// The state after a run of the daemon.
pub open spec fn state_after(state: StateView, events: Seq<DaemonEventView>) -> StateView
    decreases events.len(),
{
    if events.len() == 0 {
        state
    } else {
        state_after(state, events.drop_last()).after_daemon(events.last())
    }
}

/// The messages of a run, in order.
pub open spec fn messages_of(events: Seq<DaemonEventView>) -> Seq<DomainMsgView>
    decreases events.len(),
{
    if events.len() == 0 {
        Seq::empty()
    } else {
        match events.last() {
            DaemonEventView::Message(msg) => messages_of(events.drop_last()).push(msg),
            _ => messages_of(events.drop_last()),
        }
    }
}

/// Nothing but messages counts: the state of a run is that of its messages.
pub proof fn law_state_is_made_of_messages(state: StateView, events: Seq<DaemonEventView>)
    ensures
        state_after(state, events) == state.after_all(messages_of(events)),
    decreases events.len(),
{
    if events.len() > 0 {
        law_state_is_made_of_messages(state, events.drop_last());
        if let DaemonEventView::Message(msg) = events.last() {
            let before = messages_of(events.drop_last());
            assert(before.push(msg).drop_last() == before);
        }
    }
}

/// Each message is followed by the snapshot that it leaves.
pub proof fn law_every_message_is_forwarded(state: StateView, msg: DomainMsgView)
    ensures
        state.daemon_after(DaemonEventView::Message(msg)) == DaemonAction::Forward(
            state.after_daemon(DaemonEventView::Message(msg)).snapshot,
        ),
{
}

/// The daemon stops on a request, or because a part of it failed, and for no
/// other reason; the end counts as a failure in the second case only.
pub proof fn law_only_failures_are_fatal(state: StateView, event: DaemonEventView)
    ensures
        state.daemon_after(event) == (DaemonAction::Stop { fatal: false }) <==> event
            is ShutdownRequested,
        state.daemon_after(event) == (DaemonAction::Stop { fatal: true }) <==> event is MatterExited
            || event is IngestEnded || event is ForwardFailed,
{
}

/// The device comes up whatever happens: the start waits only while messages
/// come and none of them has been an identity.
pub proof fn law_the_device_comes_up(state: StateView, event: StartupEventView)
    ensures
        state.startup_after(event) == StartupAction::Await <==> event is Message
            && state.after_startup(event).info is None,
        event matches StartupEventView::Message(DomainMsgView::Info(_)) ==> state.startup_after(
            event,
        ) == StartupAction::Start,
{
}

/// Only a message moves the state, at the start and later, and it moves it as a
/// message does.
pub proof fn law_only_messages_move_the_state(
    state: StateView,
    msg: DomainMsgView,
    starting: StartupEventView,
    running: DaemonEventView,
)
    ensures
        state.after_startup(StartupEventView::Message(msg)) == state.after(msg),
        state.after_daemon(DaemonEventView::Message(msg)) == state.after(msg),
        !(starting is Message) ==> state.after_startup(starting) == state,
        !(running is Message) ==> state.after_daemon(running) == state,
{
}

/// Each message is forwarded as the snapshot that it leaves, and only after a
/// message is there anything to forward; with nothing to do the daemon waits.
pub proof fn law_the_daemon_waits_or_forwards(
    state: StateView,
    msg: DomainMsgView,
    event: DaemonEventView,
)
    ensures
        state.daemon_after(DaemonEventView::Message(msg)) == DaemonAction::Forward(
            state.after(msg).snapshot,
        ),
        state.daemon_after(event) is Forward <==> event is Message,
        state.daemon_after(event) == DaemonAction::Await <==> event is NoMessage || event
            is Forwarded,
{
}

/// The start is over as soon as an identity is known, or nothing more is to be
/// expected.
pub proof fn law_the_start_ends_with_an_identity(state: StateView, msg: DomainMsgView)
    ensures
        state.startup() == StartupAction::Await <==> state.info is None,
        state.startup_after(StartupEventView::Message(msg)) == StartupAction::Start <==> state.info
            is Some || msg is Info,
        state.startup_after(StartupEventView::TimedOut) == StartupAction::Start,
        state.startup_after(StartupEventView::IngestGone) == StartupAction::Start,
{
}

/// Only packs carry times, on their own or in an event.
pub proof fn law_only_packs_carry_times(
    msg: DomainMsgView,
    starting: StartupEventView,
    running: DaemonEventView,
)
    ensures
        !(msg is Pack) ==> msg.times_fit(),
        msg matches DomainMsgView::Pack(pack) ==> msg.times_fit() == energy_times_fit(pack),
        starting matches StartupEventView::Message(carried) ==> starting.times_fit()
            == carried.times_fit(),
        !(starting is Message) ==> starting.times_fit(),
        running matches DaemonEventView::Message(carried) ==> running.times_fit()
            == carried.times_fit(),
        !(running is Message) ==> running.times_fit(),
{
}

} // verus!
