//! The life of the daemon: it waits a while for the inverter's identity, starts
//! the Matter side with or without it, then passes snapshots on until something
//! ends.
use vstd::prelude::*;

use crate::domain::{DomainMsg, DomainMsgView, PvSnapshot, State, StateView};

verus! {

/// What happens while the identity is awaited.
#[derive(Debug, Clone, PartialEq)]
pub enum StartupEvent {
    Message(DomainMsg),
    /// No message will come any more.
    IngestGone,
    TimedOut,
}

pub enum StartupEventView {
    Message(DomainMsgView),
    IngestGone,
    TimedOut,
}

impl DeepView for StartupEvent {
    type V = StartupEventView;

    open spec fn deep_view(&self) -> StartupEventView {
        match self {
            StartupEvent::Message(msg) => StartupEventView::Message(msg.deep_view()),
            StartupEvent::IngestGone => StartupEventView::IngestGone,
            StartupEvent::TimedOut => StartupEventView::TimedOut,
        }
    }
}

/// What to do next while the identity is awaited.
#[derive(Debug, Clone, Copy, PartialEq, Eq, Structural)]
pub enum StartupAction {
    Await,
    /// Start the Matter side.
    Start,
}

/// Whether a state is worth waiting on before the start.
pub fn startup_action(state: &State) -> (res: StartupAction)
    ensures
        res == StateView::startup(state.deep_view()),
{
    if state.info.is_none() {
        StartupAction::Await
    } else {
        StartupAction::Start
    }
}

/// What happens once the Matter side runs.
#[derive(Debug, Clone, PartialEq)]
pub enum DaemonEvent {
    ShutdownRequested,
    MatterExited,
    IngestEnded,
    Message(DomainMsg),
    /// The channel of messages is closed.
    NoMessage,
    /// A snapshot could not be passed on.
    ForwardFailed,
    Forwarded,
}

pub enum DaemonEventView {
    ShutdownRequested,
    MatterExited,
    IngestEnded,
    Message(DomainMsgView),
    NoMessage,
    ForwardFailed,
    Forwarded,
}

impl DeepView for DaemonEvent {
    type V = DaemonEventView;

    open spec fn deep_view(&self) -> DaemonEventView {
        match self {
            DaemonEvent::ShutdownRequested => DaemonEventView::ShutdownRequested,
            DaemonEvent::MatterExited => DaemonEventView::MatterExited,
            DaemonEvent::IngestEnded => DaemonEventView::IngestEnded,
            DaemonEvent::Message(msg) => DaemonEventView::Message(msg.deep_view()),
            DaemonEvent::NoMessage => DaemonEventView::NoMessage,
            DaemonEvent::ForwardFailed => DaemonEventView::ForwardFailed,
            DaemonEvent::Forwarded => DaemonEventView::Forwarded,
        }
    }
}

/// What to do next once the Matter side runs.
#[derive(Debug, Clone, Copy, PartialEq, Eq, Structural)]
pub enum DaemonAction {
    /// Wait for the next event.
    Await,
    /// Pass the snapshot on to the Matter side.
    Forward(PvSnapshot),
    /// Stop; `fatal` where a part failed.
    Stop { fatal: bool },
}

impl StartupEventView {
    pub open spec fn times_fit(self) -> bool {
        match self {
            StartupEventView::Message(msg) => msg.times_fit(),
            _ => true,
        }
    }
}

impl DaemonEventView {
    pub open spec fn times_fit(self) -> bool {
        match self {
            DaemonEventView::Message(msg) => msg.times_fit(),
            _ => true,
        }
    }
}

impl StateView {
    pub open spec fn startup(self) -> StartupAction {
        if self.info is None {
            StartupAction::Await
        } else {
            StartupAction::Start
        }
    }

    pub open spec fn after_startup(self, event: StartupEventView) -> StateView {
        match event {
            StartupEventView::Message(msg) => self.after(msg),
            _ => self,
        }
    }

    /// What to do after an event, by the state that it leaves.
    pub open spec fn startup_after(self, event: StartupEventView) -> StartupAction {
        match event {
            StartupEventView::Message(msg) => self.after(msg).startup(),
            StartupEventView::IngestGone | StartupEventView::TimedOut => StartupAction::Start,
        }
    }

    pub open spec fn after_daemon(self, event: DaemonEventView) -> StateView {
        match event {
            DaemonEventView::Message(msg) => self.after(msg),
            _ => self,
        }
    }

    pub open spec fn daemon_after(self, event: DaemonEventView) -> DaemonAction {
        match event {
            DaemonEventView::ShutdownRequested => DaemonAction::Stop { fatal: false },
            DaemonEventView::MatterExited
            | DaemonEventView::IngestEnded
            | DaemonEventView::ForwardFailed => DaemonAction::Stop { fatal: true },
            DaemonEventView::Message(msg) => DaemonAction::Forward(self.after(msg).snapshot),
            DaemonEventView::NoMessage | DaemonEventView::Forwarded => DaemonAction::Await,
        }
    }
}

/// Decides what to do about an event while the identity is awaited. The device
/// comes up without an identity rather than not at all.
pub fn startup_step(state: &mut State, event: StartupEvent) -> (res: StartupAction)
    requires
        event.deep_view().times_fit(),
    ensures
        res == old(state).deep_view().startup_after(event.deep_view()),
        final(state).deep_view() == old(state).deep_view().after_startup(event.deep_view()),
{
    match event {
        StartupEvent::Message(msg) => {
            state.apply(msg);
            startup_action(state)
        },
        StartupEvent::IngestGone => StartupAction::Start,
        StartupEvent::TimedOut => StartupAction::Start,
    }
}

/// Decides what to do about an event once the Matter side runs.
pub fn daemon_step(state: &mut State, event: DaemonEvent) -> (res: DaemonAction)
    requires
        event.deep_view().times_fit(),
    ensures
        res == old(state).deep_view().daemon_after(event.deep_view()),
        final(state).deep_view() == old(state).deep_view().after_daemon(event.deep_view()),
{
    match event {
        DaemonEvent::ShutdownRequested => DaemonAction::Stop { fatal: false },
        DaemonEvent::MatterExited => DaemonAction::Stop { fatal: true },
        DaemonEvent::IngestEnded => DaemonAction::Stop { fatal: true },
        DaemonEvent::ForwardFailed => DaemonAction::Stop { fatal: true },
        DaemonEvent::Message(msg) => {
            state.apply(msg);
            DaemonAction::Forward(state.snapshot)
        },
        DaemonEvent::NoMessage => DaemonAction::Await,
        DaemonEvent::Forwarded => DaemonAction::Await,
    }
}

} // verus!
