//! The three event channels between the workers and the front end, and the
//! forwarders that observers subscribe with.

use crate::channel::{Channel, ChannelState};
use crate::forwarder::{after_delivery, polled, DeliveryError, Forward, Forwarder, ForwarderState};
use crate::worker::WorkerRole;
use vstd::prelude::*;
use vstd::string::*;

verus! {

/// The kinds of events that reach the front end.
#[derive(Clone, Copy, Debug, PartialEq, Eq, Structural)]
pub enum EventKind {
    /// The login QR image, refreshed periodically.
    QrCode,
    /// The signal that a login succeeded.
    Login,
    /// One line of the wrapper's log.
    WrapperLogs,
}

/// The message that announces a successful login.
pub const LOGIN_MESSAGE: &'static str = "Tauri is awesome!";

impl EventKind {
    /// The name under which events of this kind are emitted.
    pub open spec fn event_name_spec(self) -> Seq<char> {
        match self {
            EventKind::QrCode => "qrcode-event"@,
            EventKind::Login => "my-event"@,
            EventKind::WrapperLogs => "wrapper-logs-event"@,
        }
    }

    /// The name under which events of this kind are emitted.
    pub fn event_name(self) -> (name: &'static str)
        ensures
            name@ == self.event_name_spec(),
    {
        match self {
            EventKind::QrCode => "qrcode-event",
            EventKind::Login => "my-event",
            EventKind::WrapperLogs => "wrapper-logs-event",
        }
    }

    /// The worker whose output events of this kind come from.
    pub open spec fn source_spec(self) -> WorkerRole {
        match self {
            EventKind::QrCode => WorkerRole::Provider,
            EventKind::Login => WorkerRole::Provider,
            EventKind::WrapperLogs => WorkerRole::Wrapper,
        }
    }

    /// The worker whose output events of this kind come from.
    pub fn source(self) -> (role: WorkerRole)
        ensures
            role == self.source_spec(),
    {
        match self {
            EventKind::QrCode => WorkerRole::Provider,
            EventKind::Login => WorkerRole::Provider,
            EventKind::WrapperLogs => WorkerRole::Wrapper,
        }
    }
}

/// The kinds of events that come from the output of a worker of role
/// `role`.
pub open spec fn events_of(role: WorkerRole) -> Seq<EventKind> {
    match role {
        WorkerRole::Provider => seq![EventKind::QrCode, EventKind::Login],
        WorkerRole::Wrapper => seq![EventKind::WrapperLogs],
    }
}

/// The kinds of events that come from a worker of role `role`: those for
/// which a producer is to be set up whenever such a worker is started.
pub fn produced_by(role: WorkerRole) -> (kinds: Vec<EventKind>)
    ensures
        kinds@ == events_of(role),
        forall|kind: EventKind| kinds@.contains(kind) <==> kind.source_spec() == role,
{
    let mut kinds: Vec<EventKind> = Vec::new();
    match role {
        WorkerRole::Provider => {
            kinds.push(EventKind::QrCode);
            kinds.push(EventKind::Login);
        },
        WorkerRole::Wrapper => {
            kinds.push(EventKind::WrapperLogs);
        },
    }
    proof {
        assert(kinds@ =~= events_of(role));
        assert forall|kind: EventKind| kinds@.contains(kind) <==> kind.source_spec() == role by {
            if kind.source_spec() == role {
                match kind {
                    EventKind::QrCode => assert(kinds@[0] == kind),
                    EventKind::Login => assert(kinds@[1] == kind),
                    EventKind::WrapperLogs => assert(kinds@[0] == kind),
                }
            }
        }
    }
    kinds
}

/// What an observer is sent with an event.
#[derive(Debug, PartialEq, Eq)]
pub struct Payload {
    pub message: String,
}

/// The three channels. Each is fed by one producer and is independent of
/// the other two.
pub struct ChannelBus {
    /// The encoded QR images; an empty item stands for an image that could
    /// not be had.
    pub qrcode: Channel<String>,
    /// One item for each successful login.
    pub login: Channel<()>,
    /// The lines of the wrapper's log.
    pub logs: Channel<String>,
}

/// What the three channels hold.
pub struct BusState {
    pub qrcode: ChannelState<String>,
    pub login: ChannelState<()>,
    pub logs: ChannelState<String>,
}

impl View for ChannelBus {
    type V = BusState;

    open spec fn view(&self) -> BusState {
        BusState { qrcode: self.qrcode@, login: self.login@, logs: self.logs@ }
    }
}

impl ChannelBus {
    /// Three open channels in which nothing waits.
    pub fn new() -> (bus: ChannelBus)
        ensures
            bus@ == (BusState {
                qrcode: ChannelState::fresh(),
                login: ChannelState::fresh(),
                logs: ChannelState::fresh(),
            }),
    {
        ChannelBus { qrcode: Channel::new(), login: Channel::new(), logs: Channel::new() }
    }

    /// Closes the three channels, as is done when the application shuts
    /// down.
    pub fn close(&mut self)
        ensures
            final(self)@ == (BusState {
                qrcode: old(self)@.qrcode.shut(),
                login: old(self)@.login.shut(),
                logs: old(self)@.logs.shut(),
            }),
    {
        self.qrcode.close();
        self.login.close();
        self.logs.close();
    }
}

/// What a forwarder on the bus asks its loop to do next.
#[derive(Debug, PartialEq, Eq)]
pub enum Emission {
    /// Emit `payload` to the observer under the name `event`.
    Emit { event: &'static str, payload: Payload },
    /// Nothing waits: suspend until something may have come.
    Idle,
    /// The forwarder has stopped: end the loop.
    Stop,
}

/// An [`Emission`] with its texts as sequences of characters.
pub enum EmissionView {
    Emit { event: Seq<char>, message: Seq<char> },
    Idle,
    Stop,
}

impl View for Emission {
    type V = EmissionView;

    open spec fn view(&self) -> EmissionView {
        match self {
            Emission::Emit { event, payload } => EmissionView::Emit {
                event: event@,
                message: payload.message@,
            },
            Emission::Idle => EmissionView::Idle,
            Emission::Stop => EmissionView::Stop,
        }
    }
}

/// The emission for what a poll of a channel of texts gave: the text is the
/// message.
pub open spec fn text_emission(kind: EventKind, next: Forward<String>) -> EmissionView {
    match next {
        Forward::Deliver(text) => EmissionView::Emit {
            event: kind.event_name_spec(),
            message: text@,
        },
        Forward::Idle => EmissionView::Idle,
        Forward::Stop => EmissionView::Stop,
    }
}

/// The emission for what a poll of the login channel gave: each signal is
/// announced with the same message.
pub open spec fn signal_emission(next: Forward<()>) -> EmissionView {
    match next {
        Forward::Deliver(_) => EmissionView::Emit {
            event: EventKind::Login.event_name_spec(),
            message: LOGIN_MESSAGE@,
        },
        Forward::Idle => EmissionView::Idle,
        Forward::Stop => EmissionView::Stop,
    }
}

/// One poll of a forwarder for events of kind `kind`: it polls the channel
/// of that kind and leaves the other two alone.
pub open spec fn forwarded(kind: EventKind, state: ForwarderState, bus: BusState) -> (
    ForwarderState,
    BusState,
    EmissionView,
) {
    match kind {
        EventKind::QrCode => {
            let (after, channel, next) = polled(state, bus.qrcode);
            (after, BusState { qrcode: channel, ..bus }, text_emission(kind, next))
        },
        EventKind::Login => {
            let (after, channel, next) = polled(state, bus.login);
            (after, BusState { login: channel, ..bus }, signal_emission(next))
        },
        EventKind::WrapperLogs => {
            let (after, channel, next) = polled(state, bus.logs);
            (after, BusState { logs: channel, ..bus }, text_emission(kind, next))
        },
    }
}

/// A subscription of one observer to the events of one kind.
pub struct EventForwarder {
    kind: EventKind,
    relay: Forwarder,
}

/// What an [`EventForwarder`] stands for: the kind of events it forwards
/// and the state it is in.
pub struct Subscription {
    pub kind: EventKind,
    pub state: ForwarderState,
}

impl View for EventForwarder {
    type V = Subscription;

    closed spec fn view(&self) -> Subscription {
        Subscription { kind: self.kind, state: self.relay@ }
    }
}

impl EventForwarder {
    /// An active forwarder for events of kind `kind`.
    pub fn new(kind: EventKind) -> (forwarder: EventForwarder)
        ensures
            forwarder@ == (Subscription { kind, state: ForwarderState::Active }),
    {
        EventForwarder { kind, relay: Forwarder::new() }
    }

    /// The kind of events that this forwarder forwards.
    pub fn kind(&self) -> (kind: EventKind)
        ensures
            kind == self@.kind,
    {
        self.kind
    }

    /// The state of the forwarder.
    pub fn state(&self) -> (state: ForwarderState)
        ensures
            state == self@.state,
    {
        self.relay.state()
    }

    /// Takes the next event of this forwarder's kind off the bus and says
    /// how to emit it.
    pub fn next(&mut self, bus: &mut ChannelBus) -> (emission: Emission)
        ensures
            final(self)@.kind == old(self)@.kind,
            (final(self)@.state, final(bus)@, emission@) == forwarded(
                old(self)@.kind,
                old(self)@.state,
                old(bus)@,
            ),
    {
        match self.kind {
            EventKind::QrCode => match self.relay.poll(&mut bus.qrcode) {
                Forward::Deliver(text) => Emission::Emit {
                    event: self.kind.event_name(),
                    payload: Payload { message: text },
                },
                Forward::Idle => Emission::Idle,
                Forward::Stop => Emission::Stop,
            },
            EventKind::Login => match self.relay.poll(&mut bus.login) {
                Forward::Deliver(_) => Emission::Emit {
                    event: self.kind.event_name(),
                    payload: Payload { message: String::from_str(LOGIN_MESSAGE) },
                },
                Forward::Idle => Emission::Idle,
                Forward::Stop => Emission::Stop,
            },
            EventKind::WrapperLogs => match self.relay.poll(&mut bus.logs) {
                Forward::Deliver(text) => Emission::Emit {
                    event: self.kind.event_name(),
                    payload: Payload { message: text },
                },
                Forward::Idle => Emission::Idle,
                Forward::Stop => Emission::Stop,
            },
        }
    }

    /// Takes note of how the last emission went. A failed emission stops
    /// the forwarder.
    pub fn delivered(&mut self, outcome: Result<(), DeliveryError>)
        ensures
            final(self)@ == (Subscription {
                kind: old(self)@.kind,
                state: after_delivery(old(self)@.state, outcome is Ok),
            }),
    {
        self.relay.delivered(outcome);
    }
}

} // verus!
