//! A manager that keeps a client connected to an MQTT server.
//!
//! The manager connects, reports what happens as events, pings the server, performs the
//! actions of the application, and connects anew after any error. The socket, the client
//! and the channels stay outside: the manager tells what to do with them, one action after
//! the other, and takes what came of it.

use vstd::prelude::*;

use crate::address::Ipv4Address;
use crate::error::ClientError;
use crate::manager_model::{Announcement, Input, ManagerView, Phase};
use crate::message::{ApplicationMessage, ClientReceivedEvent};
use crate::step::Step;
use crate::step::{
    ANNOUNCING, BACKING_OFF, CLIENT_CONNECTING, DIALING, IDLING, PERFORMANCE, PINGING, POLLING,
    PULLING,
};
use crate::time::{Duration, Instant};

verus! {

/// Converts an [`ApplicationMessage`] to an application-specific event.
pub trait FromApplicationMessage<const P: usize>: Sized {
    /// Converts a message, or tells why it cannot be handled.
    fn from_application_message(message: &ApplicationMessage<P>) -> Result<
        Self,
        mountain_mqtt::client::EventHandlerError,
    >;
}

/// Why a connection ended.
#[derive(Debug, Clone, Copy, PartialEq)]
pub enum Error {
    /// The client failed.
    Client(ClientError),

    /// The server has not acknowledged anything for too long.
    MqttServerUnresponsive,
}

impl From<ClientError> for Error {
    fn from(value: ClientError) -> (error: Self) {
        Error::Client(value)
    }
}

impl vstd::std_specs::convert::FromSpecImpl<ClientError> for Error {
    open spec fn obeys_from_spec() -> bool {
        true
    }

    open spec fn from_spec(value: ClientError) -> Self {
        Error::Client(value)
    }
}

/// Identifies a connection: each has another one.
#[derive(Debug, Clone, Copy, PartialEq, Eq, Structural)]
pub struct ConnectionId {
    /// How many connections there were before.
    pub index: u32,
}

/// Settings of the manager.
#[derive(Debug, Clone, Copy)]
pub struct Settings {
    /// The address of the MQTT server.
    pub address: Ipv4Address,

    /// The port of the MQTT server.
    pub port: u16,

    /// The shortest time between pings.
    pub ping_interval: Duration,

    /// The longest time that the server may go without acknowledging anything. It should be
    /// longer than the ping interval by some margin.
    pub connection_event_max_interval: Duration,

    /// The delay between the end of a connection and the next one.
    pub reconnection_delay: Duration,

    /// The delay between two rounds of the manager.
    pub poll_interval: Duration,

    /// The longest time to wait for the answer to a packet that needs one.
    pub response_timeout: Duration,

    /// How long a connection has to last until it counts as stable.
    pub stabilisation_interval: Duration,
}

impl Settings {
    /// Settings for the server at the given address, with default times.
    pub fn new(address: Ipv4Address, port: u16) -> (settings: Settings)
        ensures
            settings.address == address,
            settings.port == port,
            settings.ping_interval.ticks == 2_000_000,
            settings.connection_event_max_interval.ticks == 10_000_000,
            settings.reconnection_delay.ticks == 2_000_000,
            settings.poll_interval.ticks == 10_000,
            settings.response_timeout.ticks == 5_000_000,
            settings.stabilisation_interval.ticks == 5_000_000,
    {
        Settings {
            address,
            port,
            ping_interval: Duration::from_millis(2000),
            connection_event_max_interval: Duration::from_millis(10000),
            reconnection_delay: Duration::from_millis(2000),
            poll_interval: Duration::from_millis(10),
            response_timeout: Duration::from_millis(5000),
            stabilisation_interval: Duration::from_millis(5000),
        }
    }

    /// The response timeout in milliseconds, in 32 bits.
    fn timeout_millis(&self) -> (millis: u32)
        ensures
            millis == (self.response_timeout.ticks / 1_000) % 0x1_0000_0000,
    {
        (self.response_timeout.as_millis() % 0x1_0000_0000) as u32
    }
}

/// What the manager reports to the application.
#[derive(Debug)]
pub enum MqttEvent<E> {
    /// A message was received, and converted to `event`.
    ApplicationEvent { connection_id: ConnectionId, event: E },

    /// A new connection was made.
    Connected { connection_id: ConnectionId },

    /// The connection has lasted long enough to count as stable.
    ConnectionStable { connection_id: ConnectionId },

    /// The connection has ended. Another will be made.
    Disconnected { connection_id: ConnectionId, error: Error },

    /// A subscription was granted, at a lower quality of service than requested.
    SubscriptionGrantedBelowMaximumQos {
        connection_id: ConnectionId,
        granted_qos: mountain_mqtt::data::quality_of_service::QualityOfService,
        maximum_qos: mountain_mqtt::data::quality_of_service::QualityOfService,
    },

    /// A published message reached the server, which had nobody to pass it on to.
    PublishedMessageHadNoMatchingSubscribers { connection_id: ConnectionId },

    /// The server was asked to end a subscription that it did not know.
    NoSubscriptionExisted { connection_id: ConnectionId },
}

impl<E> MqttEvent<E> {
    /// The connection that an event belongs to.
    pub open spec fn connection_id(self) -> ConnectionId {
        match self {
            MqttEvent::ApplicationEvent { connection_id, .. } => connection_id,
            MqttEvent::Connected { connection_id } => connection_id,
            MqttEvent::ConnectionStable { connection_id } => connection_id,
            MqttEvent::Disconnected { connection_id, .. } => connection_id,
            MqttEvent::SubscriptionGrantedBelowMaximumQos { connection_id, .. } => connection_id,
            MqttEvent::PublishedMessageHadNoMatchingSubscribers { connection_id } => connection_id,
            MqttEvent::NoSubscriptionExisted { connection_id } => connection_id,
        }
    }
}

impl<E: Clone> Clone for MqttEvent<E> {
    fn clone(&self) -> (copy: Self)
        ensures
            match (*self, copy) {
                (
                    MqttEvent::ApplicationEvent { connection_id, event },
                    MqttEvent::ApplicationEvent { connection_id: copied_id, event: copied },
                ) => copied_id == connection_id && cloned(event, copied),
                (MqttEvent::ApplicationEvent { .. }, _) => false,
                _ => copy == *self,
            },
    {
        match self {
            MqttEvent::ApplicationEvent { connection_id, event } => MqttEvent::ApplicationEvent {
                connection_id: *connection_id,
                event: event.clone(),
            },
            MqttEvent::Connected { connection_id } => MqttEvent::Connected {
                connection_id: *connection_id,
            },
            MqttEvent::ConnectionStable { connection_id } => MqttEvent::ConnectionStable {
                connection_id: *connection_id,
            },
            MqttEvent::Disconnected { connection_id, error } => MqttEvent::Disconnected {
                connection_id: *connection_id,
                error: *error,
            },
            MqttEvent::SubscriptionGrantedBelowMaximumQos {
                connection_id,
                granted_qos,
                maximum_qos,
            } => MqttEvent::SubscriptionGrantedBelowMaximumQos {
                connection_id: *connection_id,
                granted_qos: *granted_qos,
                maximum_qos: *maximum_qos,
            },
            MqttEvent::PublishedMessageHadNoMatchingSubscribers { connection_id } => {
                MqttEvent::PublishedMessageHadNoMatchingSubscribers { connection_id: *connection_id }
            },
            MqttEvent::NoSubscriptionExisted { connection_id } => MqttEvent::NoSubscriptionExisted {
                connection_id: *connection_id,
            },
        }
    }
}

/// What the manager and the handler of received events share.
pub struct State<A> {
    /// When the server last showed that the connection is live: when the connection was
    /// made, and whenever it acknowledged something.
    pub last_connection_event: Instant,

    /// An action that failed, and that is to be performed again.
    pub pending_action: Option<A>,
}

impl<A> State<A> {
    /// The state before any connection.
    pub fn new(now: Instant) -> (state: Self)
        ensures
            state == (State { last_connection_event: now, pending_action: None::<A> }),
    {
        State { last_connection_event: now, pending_action: None }
    }

    /// The server showed that the connection is live.
    pub fn record_connection_event(&mut self, now: Instant)
        ensures
            *final(self) == (State { last_connection_event: now, ..*old(self) }),
    {
        self.last_connection_event = now;
    }
}

/// Turns what the client receives on a connection into events.
#[derive(Debug, Clone, Copy)]
pub struct ChannelEventHandler {
    /// The connection.
    pub connection_id: ConnectionId,
}

impl ChannelEventHandler {
    /// Handles what the client received, and returns the event to send, if there is one. An
    /// acknowledgement leads to no event, but shows that the connection is live.
    pub fn handle_event<A, E: FromApplicationMessage<P>, const P: usize>(
        &self,
        state: &mut State<A>,
        event: ClientReceivedEvent<'_, P>,
        now: Instant,
    ) -> (sent: Result<Option<MqttEvent<E>>, mountain_mqtt::client::EventHandlerError>)
        ensures
            *final(state) == (if event is Ack {
                State { last_connection_event: now, ..*old(state) }
            } else {
                *old(state)
            }),
            event matches ClientReceivedEvent::ApplicationMessage(message) ==> exists|
                converted: Result<E, mountain_mqtt::client::EventHandlerError>,
            |
                call_ensures(E::from_application_message, (&message,), converted) && sent
                    == self.application_event_spec(converted) && match converted {
                    Ok(e) => sent matches Ok(Some(s)) && s == (MqttEvent::<E>::ApplicationEvent {
                        connection_id: self.connection_id,
                        event: e,
                    }),
                    Err(e) => sent matches Err(s) && s == e,
                },
            sent matches Ok(Some(s)) ==> s.connection_id() == self.connection_id,
            event is Ack ==> (sent matches Ok(s) && s is None),
            event matches ClientReceivedEvent::SubscriptionGrantedBelowMaximumQos {
                granted_qos,
                maximum_qos,
            } ==> (sent matches Ok(Some(s)) && s == (
            MqttEvent::<E>::SubscriptionGrantedBelowMaximumQos {
                connection_id: self.connection_id,
                granted_qos,
                maximum_qos,
            })),
            event is PublishedMessageHadNoMatchingSubscribers ==> (sent matches Ok(Some(s)) && s == (
            MqttEvent::<E>::PublishedMessageHadNoMatchingSubscribers {
                connection_id: self.connection_id,
            })),
            event is NoSubscriptionExisted ==> (sent matches Ok(Some(s)) && s == (
            MqttEvent::<E>::NoSubscriptionExisted { connection_id: self.connection_id })),
    {
        match event {
            ClientReceivedEvent::ApplicationMessage(message) => {
                let converted = E::from_application_message(&message);
                self.application_event(converted)
            },
            ClientReceivedEvent::Ack => {
                state.record_connection_event(now);
                Ok(None)
            },
            ClientReceivedEvent::SubscriptionGrantedBelowMaximumQos { granted_qos, maximum_qos } => Ok(
                Some(
                    MqttEvent::SubscriptionGrantedBelowMaximumQos {
                        connection_id: self.connection_id,
                        granted_qos,
                        maximum_qos,
                    },
                ),
            ),
            ClientReceivedEvent::PublishedMessageHadNoMatchingSubscribers => Ok(
                Some(
                    MqttEvent::PublishedMessageHadNoMatchingSubscribers {
                        connection_id: self.connection_id,
                    },
                ),
            ),
            ClientReceivedEvent::NoSubscriptionExisted => Ok(
                Some(MqttEvent::NoSubscriptionExisted { connection_id: self.connection_id }),
            ),
        }
    }

    /// What comes of a message whose conversion came to `converted`.
    pub open spec fn application_event_spec<E>(
        &self,
        converted: Result<E, mountain_mqtt::client::EventHandlerError>,
    ) -> Result<Option<MqttEvent<E>>, mountain_mqtt::client::EventHandlerError> {
        match converted {
            Ok(event) => Ok(
                Some(MqttEvent::ApplicationEvent { connection_id: self.connection_id, event }),
            ),
            Err(e) => Err(e),
        }
    }

    /// The event to send for a converted message, or why it could not be converted: then
    /// nothing is sent.
    pub fn application_event<E>(
        &self,
        converted: Result<E, mountain_mqtt::client::EventHandlerError>,
    ) -> (sent: Result<Option<MqttEvent<E>>, mountain_mqtt::client::EventHandlerError>)
        ensures
            sent == self.application_event_spec(converted),
            match converted {
                Ok(event) => sent matches Ok(Some(s)) && s == (MqttEvent::<E>::ApplicationEvent {
                    connection_id: self.connection_id,
                    event,
                }),
                Err(e) => sent matches Err(s) && s == e,
            },
    {
        match converted {
            Ok(event) => Ok(
                Some(MqttEvent::ApplicationEvent { connection_id: self.connection_id, event }),
            ),
            Err(e) => Err(e),
        }
    }
}

/// Takes the result of performing an action. One that failed is kept, to be performed
/// again.
pub fn try_action<A>(state: &mut State<A>, action: A, result: Result<(), ClientError>) -> (done: Result<
    (),
    ClientError,
>)
    ensures
        done == result,
        *final(state) == (if result is Err {
            State { pending_action: Some(action), ..*old(state) }
        } else {
            *old(state)
        }),
{
    if let Err(_) = result {
        state.pending_action = Some(action);
    }
    result
}

/// What the manager keeps from step to step, besides the [`State`].
#[derive(Debug, Clone, Copy)]
pub struct Progress {
    /// The settings of the manager.
    pub settings: Settings,

    /// The id with which the clients connect.
    pub client_id: &'static str,

    /// How many connections there were.
    pub connection_index: u32,

    /// The last connection that there was.
    pub connection_id: ConnectionId,

    /// When that connection was made, until it was reported to be stable.
    pub connection_instant: Option<Instant>,

    /// When a ping was last sent, or the connection was made.
    pub last_ping_instant: Instant,
}

impl Progress {
    /// The manager in the given phase.
    pub open spec fn at<A>(self, phase: Phase<A>, state: State<A>) -> ManagerView<A> {
        ManagerView {
            phase,
            settings: self.settings,
            client_id: self.client_id,
            connection_index: self.connection_index as nat,
            connection_id: self.connection_id.index as nat,
            connection_instant: self.connection_instant,
            last_ping_instant: self.last_ping_instant,
            last_connection_event: state.last_connection_event,
            pending_action: state.pending_action,
        }
    }
}

/// A socket is to be connected to the server.
pub struct Dialing {
    /// The address of the server.
    pub address: Ipv4Address,

    /// The port of the server.
    pub port: u16,

    /// What the manager keeps.
    pub progress: Progress,

    /// The mark of this step.
    pub step: Step<DIALING>,
}

/// The delay before the next connection is to pass.
pub struct BackingOff {
    /// How long to wait.
    pub duration: Duration,

    /// What the manager keeps.
    pub progress: Progress,

    /// The mark of this step.
    pub step: Step<BACKING_OFF>,
}

/// A client is to be made on the connected socket, and to be connected to the server.
pub struct Connecting {
    /// How long the client may wait for the answer to a packet that needs one.
    pub timeout_millis: u32,

    /// What handles the events that the client receives.
    pub event_handler: ChannelEventHandler,

    /// What the manager keeps.
    pub progress: Progress,

    /// The mark of this step.
    pub step: Step<CLIENT_CONNECTING>,
}

/// An event is to be sent to the application.
pub struct Announcing<E> {
    /// The event.
    pub event: MqttEvent<E>,

    /// What it reports.
    pub announcement: Announcement,

    /// What the manager keeps.
    pub progress: Progress,

    /// The mark of this step.
    pub step: Step<ANNOUNCING>,
}

/// The delay before the next round is to pass.
pub struct Idling {
    /// How long to wait.
    pub duration: Duration,

    /// What the manager keeps.
    pub progress: Progress,

    /// The mark of this step.
    pub step: Step<IDLING>,
}

/// The client is to send a ping.
pub struct Pinging {
    /// What the manager keeps.
    pub progress: Progress,

    /// The mark of this step.
    pub step: Step<PINGING>,
}

/// The client is to handle a received packet, if there is one.
pub struct Polling {
    /// Whether the client is to wait for a packet, which it never is.
    pub wait: bool,

    /// What the manager keeps.
    pub progress: Progress,

    /// The mark of this step.
    pub step: Step<POLLING>,
}

/// An action is to be performed on the client.
pub struct Performing<A> {
    /// The action.
    pub action: A,

    /// What takes the result.
    pub performance: Performance,
}

/// An action is being performed.
pub struct Performance {
    /// The id with which the client is connected.
    pub client_id: &'static str,

    /// The connection on which the action is performed.
    pub connection_id: ConnectionId,

    /// Whether the action was performed before, and failed.
    pub is_retry: bool,

    /// What the manager keeps.
    pub progress: Progress,

    /// The mark of this step.
    pub step: Step<PERFORMANCE>,
}

/// The next action of the application is to be taken, if there is one.
pub struct Pulling {
    /// What the manager keeps.
    pub progress: Progress,

    /// The mark of this step.
    pub step: Step<PULLING>,
}

/// What is to be done next.
pub enum Next<A, E> {
    /// Connect a socket.
    Dial(Dialing),

    /// Wait, and drop the client and the socket.
    BackOff(BackingOff),

    /// Connect the client.
    Connect(Connecting),

    /// Send an event.
    Announce(Announcing<E>),

    /// Wait.
    Idle(Idling),

    /// Send a ping.
    Ping(Pinging),

    /// Handle a packet.
    Poll(Polling),

    /// Perform an action.
    Perform(Performing<A>),

    /// Take an action.
    Pull(Pulling),
}

/// The event that reports an announcement on a connection.
pub open spec fn announced_event<E>(
    announcement: Announcement,
    connection_id: ConnectionId,
) -> MqttEvent<E> {
    match announcement {
        Announcement::Connected => MqttEvent::Connected { connection_id },
        Announcement::Stable => MqttEvent::ConnectionStable { connection_id },
        Announcement::Disconnected(error) => MqttEvent::Disconnected { connection_id, error },
    }
}

impl<A, E> Next<A, E> {
    /// The manager while this is to be done.
    pub open spec fn at(self, state: State<A>) -> ManagerView<A> {
        match self {
            Next::Dial(s) => s.progress.at(Phase::Dial, state),
            Next::BackOff(s) => s.progress.at(Phase::Backoff, state),
            Next::Connect(s) => s.progress.at(Phase::Connect, state),
            Next::Announce(s) => s.progress.at(Phase::Announce(s.announcement), state),
            Next::Idle(s) => s.progress.at(Phase::Idle, state),
            Next::Ping(s) => s.progress.at(Phase::Ping, state),
            Next::Poll(s) => s.progress.at(Phase::Poll, state),
            Next::Perform(s) => s.performance.progress.at(
                Phase::Perform { action: s.action, is_retry: s.performance.is_retry },
                state,
            ),
            Next::Pull(s) => s.progress.at(Phase::Pull, state),
        }
    }

    /// Whether what is to be done is told as the settings and the connection demand it.
    pub open spec fn is_exact(self) -> bool {
        match self {
            Next::Dial(s) => s.address == s.progress.settings.address && s.port
                == s.progress.settings.port,
            Next::BackOff(s) => s.duration == s.progress.settings.reconnection_delay,
            Next::Connect(s) => s.timeout_millis == (s.progress.settings.response_timeout.ticks
                / 1_000) % 0x1_0000_0000 && s.event_handler.connection_id
                == s.progress.connection_id,
            Next::Announce(s) => s.event == announced_event::<E>(
                s.announcement,
                s.progress.connection_id,
            ),
            Next::Idle(s) => s.duration == s.progress.settings.poll_interval,
            Next::Poll(s) => !s.wait,
            Next::Perform(s) => s.performance.connection_id == s.performance.progress.connection_id
                && s.performance.client_id == s.performance.progress.client_id,
            Next::Ping(_) | Next::Pull(_) => true,
        }
    }
}

/// Runs MQTT connections, one after the other, for ever. Their clients connect with the
/// given id.
pub fn run<A, E>(
    settings: Settings,
    client_id: &'static str,
    state: &State<A>,
    now: Instant,
) -> (next: Next<A, E>)
    ensures
        next.is_exact(),
        next.at(*state) == ManagerView::started(settings, client_id, now, *state),
        next matches Next::Dial(s) && s.address == settings.address && s.port == settings.port
            && s.progress == (Progress {
            settings,
            client_id,
            connection_index: 0,
            connection_id: ConnectionId { index: 0 },
            connection_instant: None,
            last_ping_instant: now,
        }),
{
    Next::Dial(
        Progress {
            settings,
            client_id,
            connection_index: 0,
            connection_id: ConnectionId { index: 0 },
            connection_instant: None,
            last_ping_instant: now,
        }.dial(),
    )
}

impl Progress {
    fn dial(self) -> (dialing: Dialing)
        ensures
            dialing.address == self.settings.address,
            dialing.port == self.settings.port,
            dialing.progress == self,
    {
        Dialing {
            address: self.settings.address,
            port: self.settings.port,
            progress: self,
            step: Step::mark(),
        }
    }

    fn back_off<A, E>(self) -> (next: Next<A, E>)
        ensures
            next.is_exact(),
            next matches Next::BackOff(s) && s.progress == self,
    {
        Next::BackOff(
            BackingOff {
                duration: self.settings.reconnection_delay,
                progress: self,
                step: Step::mark(),
            },
        )
    }

    fn idle<A, E>(self) -> (next: Next<A, E>)
        ensures
            next.is_exact(),
            next matches Next::Idle(s) && s.progress == self,
    {
        Next::Idle(
            Idling { duration: self.settings.poll_interval, progress: self, step: Step::mark() },
        )
    }

    fn poll<A, E>(self) -> (next: Next<A, E>)
        ensures
            next.is_exact(),
            next matches Next::Poll(s) && s.progress == self,
    {
        Next::Poll(Polling { wait: false, progress: self, step: Step::mark() })
    }

    fn announce<A, E>(self, announcement: Announcement) -> (next: Next<A, E>)
        ensures
            next.is_exact(),
            next matches Next::Announce(s) && s.announcement == announcement && s.progress == self,
    {
        let connection_id = self.connection_id;
        let event = match announcement {
            Announcement::Connected => MqttEvent::Connected { connection_id },
            Announcement::Stable => MqttEvent::ConnectionStable { connection_id },
            Announcement::Disconnected(error) => MqttEvent::Disconnected { connection_id, error },
        };
        Next::Announce(Announcing { event, announcement, progress: self, step: Step::mark() })
    }

    fn end<A, E>(self, error: Error) -> (next: Next<A, E>)
        ensures
            next.is_exact(),
            next matches Next::Announce(s) && s.announcement == Announcement::Disconnected(error)
                && s.progress == self,
    {
        self.announce(Announcement::Disconnected(error))
    }

    fn perform<A, E>(self, action: A, is_retry: bool) -> (next: Next<A, E>)
        ensures
            next.is_exact(),
            next matches Next::Perform(s) && s.action == action && s.performance.is_retry == is_retry
                && s.performance.progress == self,
    {
        Next::Perform(
            Performing {
                action,
                performance: Performance {
                    client_id: self.client_id,
                    connection_id: self.connection_id,
                    is_retry,
                    progress: self,
                    step: Step::mark(),
                },
            },
        )
    }

    /// Reports a connection that has lasted for long enough to be stable, and checks
    /// whether the server is still live.
    fn check_stable<A, E>(self, state: &State<A>, phase: Ghost<Phase<A>>, now: Instant) -> (next: Next<
        A,
        E,
    >)
        requires
            self.at(phase@, *state).stable_is_defined(now),
        ensures
            next.is_exact(),
            next.at(*state) == self.at(phase@, *state).check_stable(now),
    {
        if let Some(made) = self.connection_instant {
            if now.duration_since(made).exceeds(self.settings.stabilisation_interval) {
                return Progress { connection_instant: None, ..self }.announce(Announcement::Stable);
            }
        }
        self.check_live(state, phase, now)
    }

    /// Ends a connection on which the server has not acknowledged anything for too long.
    fn check_live<A, E>(self, state: &State<A>, phase: Ghost<Phase<A>>, now: Instant) -> (next: Next<
        A,
        E,
    >)
        requires
            self.at(phase@, *state).live_is_defined(now),
        ensures
            next.is_exact(),
            next.at(*state) == self.at(phase@, *state).check_live(now),
    {
        let elapsed = now.duration_since(state.last_connection_event);
        if elapsed.exceeds(self.settings.connection_event_max_interval) {
            self.end(Error::MqttServerUnresponsive)
        } else {
            self.poll()
        }
    }
}

impl Dialing {
    /// The socket was connected, or could not be: then the manager waits and tries again.
    pub fn dialed<A, E>(
        self,
        state: &mut State<A>,
        result: Result<(), embassy_net::tcp::ConnectError>,
        now: Instant,
    ) -> (next: Next<A, E>)
        requires
            result is Ok ==> self.progress.connection_index < u32::MAX,
        ensures
            next.is_exact(),
            next.at(*final(state)) == self.progress.at(Phase::Dial, *old(state)).step(
                Input::Dialed { connected: result is Ok, now },
            ),
            match result {
                Ok(_) => {
                    &&& *final(state) == (State { last_connection_event: now, ..*old(state) })
                    &&& next matches Next::Connect(s)
                    &&& s.event_handler.connection_id.index == self.progress.connection_index
                    &&& s.timeout_millis == (self.progress.settings.response_timeout.ticks / 1_000)
                        % 0x1_0000_0000
                    &&& s.progress == (Progress {
                        connection_id: ConnectionId { index: self.progress.connection_index },
                        connection_index: (self.progress.connection_index + 1) as u32,
                        ..self.progress
                    })
                },
                Err(_) => {
                    &&& *final(state) == *old(state)
                    &&& next matches Next::BackOff(s)
                    &&& s.duration == self.progress.settings.reconnection_delay
                    &&& s.progress == self.progress
                },
            },
    {
        match result {
            Err(_) => self.progress.back_off(),
            Ok(()) => {
                state.record_connection_event(now);
                let connection_id = ConnectionId { index: self.progress.connection_index };
                let timeout_millis: u32 = self.progress.settings.timeout_millis();
                Next::Connect(
                    Connecting {
                        timeout_millis,
                        event_handler: ChannelEventHandler { connection_id },
                        progress: Progress {
                            connection_id,
                            connection_index: self.progress.connection_index + 1,
                            ..self.progress
                        },
                        step: Step::mark(),
                    },
                )
            },
        }
    }
}

impl BackingOff {
    /// The delay has passed: the manager connects anew.
    pub fn waited<A, E>(self, state: &State<A>, now: Instant) -> (next: Next<A, E>)
        ensures
            next.is_exact(),
            next.at(*state) == self.progress.at(Phase::Backoff, *state).step(Input::Waited { now }),
            next matches Next::Dial(s) && s.address == self.progress.settings.address && s.port
                == self.progress.settings.port && s.progress == self.progress,
    {
        Next::Dial(self.progress.dial())
    }
}

impl Connecting {
    /// The client has connected to the server, or failed.
    pub fn connected<A, E>(self, state: &State<A>, result: Result<(), ClientError>) -> (next: Next<
        A,
        E,
    >)
        ensures
            next.is_exact(),
            next.at(*state) == self.progress.at(Phase::Connect, *state).step(
                Input::Connected { result },
            ),
            match result {
                Ok(_) => next matches Next::Announce(s) && s.event == (MqttEvent::<E>::Connected {
                    connection_id: self.progress.connection_id,
                }) && s.announcement is Connected && s.progress == self.progress,
                Err(e) => next matches Next::Announce(s) && s.event == (MqttEvent::<E>::Disconnected {
                    connection_id: self.progress.connection_id,
                    error: Error::Client(e),
                }) && s.announcement == Announcement::Disconnected(Error::Client(e)) && s.progress
                    == self.progress,
            },
    {
        match result {
            Ok(()) => self.progress.announce(Announcement::Connected),
            Err(e) => self.progress.end(Error::from(e)),
        }
    }
}

impl<E> Announcing<E> {
    /// The event was sent.
    pub fn announced<A>(self, state: &State<A>, now: Instant) -> (next: Next<A, E>)
        requires
            self.announcement is Stable ==> self.progress.at(
                Phase::Announce(self.announcement),
                *state,
            ).live_is_defined(now),
        ensures
            next.is_exact(),
            next.at(*state) == self.progress.at(Phase::Announce(self.announcement), *state).step(
                Input::Announced { now },
            ),
            match self.announcement {
                Announcement::Connected => next matches Next::Idle(s) && s.duration
                    == self.progress.settings.poll_interval && s.progress == (Progress {
                    connection_instant: Some(now),
                    last_ping_instant: now,
                    ..self.progress
                }),
                Announcement::Stable => if now.ticks - state.last_connection_event.ticks
                    > self.progress.settings.connection_event_max_interval.ticks {
                    next matches Next::Announce(s) && s.event == (MqttEvent::<E>::Disconnected {
                        connection_id: self.progress.connection_id,
                        error: Error::MqttServerUnresponsive,
                    }) && s.announcement == Announcement::Disconnected(
                        Error::MqttServerUnresponsive,
                    ) && s.progress == self.progress
                } else {
                    next matches Next::Poll(s) && !s.wait && s.progress == self.progress
                },
                Announcement::Disconnected(_) => next matches Next::BackOff(s) && s.duration
                    == self.progress.settings.reconnection_delay && s.progress == self.progress,
            },
    {
        match self.announcement {
            Announcement::Connected => Progress {
                connection_instant: Some(now),
                last_ping_instant: now,
                ..self.progress
            }.idle(),
            Announcement::Stable => self.progress.check_live(
                state,
                Ghost(Phase::Announce(self.announcement)),
                now,
            ),
            Announcement::Disconnected(_) => self.progress.back_off(),
        }
    }
}

impl Idling {
    /// The delay has passed: the next round starts.
    pub fn waited<A, E>(self, state: &State<A>, now: Instant) -> (next: Next<A, E>)
        requires
            self.progress.at(Phase::Idle, *state).round_is_defined(now),
        ensures
            next.is_exact(),
            next.at(*state) == self.progress.at(Phase::Idle, *state).step(Input::Waited { now }),
            if now.ticks - self.progress.last_ping_instant.ticks
                > self.progress.settings.ping_interval.ticks {
                next matches Next::Ping(s) && s.progress == (Progress {
                    last_ping_instant: now,
                    ..self.progress
                })
            } else if self.progress.connection_instant matches Some(made) && now.ticks - made.ticks
                > self.progress.settings.stabilisation_interval.ticks {
                next matches Next::Announce(s) && s.event == (MqttEvent::<E>::ConnectionStable {
                    connection_id: self.progress.connection_id,
                }) && s.announcement is Stable && s.progress == (Progress {
                    connection_instant: None,
                    ..self.progress
                })
            } else {
                if now.ticks - state.last_connection_event.ticks
                    > self.progress.settings.connection_event_max_interval.ticks {
                    next matches Next::Announce(s) && s.event == (MqttEvent::<E>::Disconnected {
                        connection_id: self.progress.connection_id,
                        error: Error::MqttServerUnresponsive,
                    }) && s.announcement == Announcement::Disconnected(
                        Error::MqttServerUnresponsive,
                    ) && s.progress == self.progress
                } else {
                    next matches Next::Poll(s) && !s.wait && s.progress == self.progress
                }
            },
    {
        if now.duration_since(self.progress.last_ping_instant).exceeds(
            self.progress.settings.ping_interval,
        ) {
            Next::Ping(
                Pinging {
                    progress: Progress { last_ping_instant: now, ..self.progress },
                    step: Step::mark(),
                },
            )
        } else {
            self.progress.check_stable(state, Ghost(Phase::Idle), now)
        }
    }
}

impl Pinging {
    /// The client has sent a ping, or failed.
    pub fn pinged<A, E>(self, state: &State<A>, result: Result<(), ClientError>, now: Instant) -> (next: Next<
        A,
        E,
    >)
        requires
            result is Ok ==> self.progress.at(Phase::Ping, *state).stable_is_defined(now),
        ensures
            next.is_exact(),
            next.at(*state) == self.progress.at(Phase::Ping, *state).step(
                Input::Pinged { result, now },
            ),
            match result {
                Ok(_) => if self.progress.connection_instant matches Some(made) && now.ticks - made.ticks
                > self.progress.settings.stabilisation_interval.ticks {
                next matches Next::Announce(s) && s.event == (MqttEvent::<E>::ConnectionStable {
                    connection_id: self.progress.connection_id,
                }) && s.announcement is Stable && s.progress == (Progress {
                    connection_instant: None,
                    ..self.progress
                })
            } else {
                if now.ticks - state.last_connection_event.ticks
                    > self.progress.settings.connection_event_max_interval.ticks {
                    next matches Next::Announce(s) && s.event == (MqttEvent::<E>::Disconnected {
                        connection_id: self.progress.connection_id,
                        error: Error::MqttServerUnresponsive,
                    }) && s.announcement == Announcement::Disconnected(
                        Error::MqttServerUnresponsive,
                    ) && s.progress == self.progress
                } else {
                    next matches Next::Poll(s) && !s.wait && s.progress == self.progress
                }
            },
                Err(e) => next matches Next::Announce(s) && s.event == (MqttEvent::<E>::Disconnected {
                    connection_id: self.progress.connection_id,
                    error: Error::Client(e),
                }) && s.announcement == Announcement::Disconnected(Error::Client(e)) && s.progress
                    == self.progress,
            },
    {
        match result {
            Ok(()) => self.progress.check_stable(state, Ghost(Phase::Ping), now),
            Err(e) => self.progress.end(Error::from(e)),
        }
    }
}

impl Polling {
    /// The client has handled a packet, or there was none, or it failed. While there are
    /// packets, the client goes on to handle them. After that, a failed action comes
    /// before any new one.
    pub fn polled<A, E>(self, state: &mut State<A>, result: Result<bool, ClientError>) -> (next: Next<
        A,
        E,
    >)
        ensures
            next.is_exact(),
            next.at(*final(state)) == self.progress.at(Phase::Poll, *old(state)).step(
                Input::Polled { result },
            ),
            final(state).last_connection_event == old(state).last_connection_event,
            match result {
                Ok(true) => final(state).pending_action == old(state).pending_action && (
                next matches Next::Poll(s) && !s.wait && s.progress == self.progress),
                Ok(false) => final(state).pending_action is None && match old(
                    state,
                ).pending_action {
                    Some(action) => next matches Next::Perform(s) && s.action == action
                        && s.performance.is_retry && s.performance.connection_id
                        == self.progress.connection_id && s.performance.client_id
                        == self.progress.client_id && s.performance.progress == self.progress,
                    None => next matches Next::Pull(s) && s.progress == self.progress,
                },
                Err(e) => final(state).pending_action == old(state).pending_action && (
                next matches Next::Announce(s) && s.event == (MqttEvent::<E>::Disconnected {
                    connection_id: self.progress.connection_id,
                    error: Error::Client(e),
                }) && s.announcement == Announcement::Disconnected(Error::Client(e)) && s.progress
                    == self.progress),
            },
    {
        match result {
            Ok(true) => self.progress.poll(),
            Ok(false) => match state.pending_action.take() {
                Some(action) => self.progress.perform(action, true),
                None => Next::Pull(Pulling { progress: self.progress, step: Step::mark() }),
            },
            Err(e) => self.progress.end(Error::from(e)),
        }
    }
}

impl Performance {
    /// The action was performed, or failed. It is handed back, as performing it may have
    /// changed it.
    pub fn performed<A, E>(
        self,
        state: &mut State<A>,
        action: A,
        result: Result<(), ClientError>,
    ) -> (next: Next<A, E>)
        ensures
            next.is_exact(),
            next.at(*final(state)) == self.progress.at(
                Phase::Perform { action, is_retry: self.is_retry },
                *old(state),
            ).step(Input::Performed { action, result }),
            final(state).last_connection_event == old(state).last_connection_event,
            match result {
                Ok(_) => final(state).pending_action == old(state).pending_action && (
                next matches Next::Pull(s) && s.progress == self.progress),
                Err(e) => final(state).pending_action == Some(action) && (next matches Next::Announce(s) && s.event == (MqttEvent::<E>::Disconnected {
                    connection_id: self.progress.connection_id,
                    error: Error::Client(e),
                }) && s.announcement == Announcement::Disconnected(Error::Client(e)) && s.progress
                    == self.progress),
            },
    {
        match try_action(state, action, result) {
            Ok(()) => Next::Pull(Pulling { progress: self.progress, step: Step::mark() }),
            Err(e) => self.progress.end(Error::from(e)),
        }
    }
}

impl Pulling {
    /// An action was taken, or there was none.
    pub fn pulled<A, E>(self, state: &State<A>, action: Option<A>) -> (next: Next<A, E>)
        ensures
            next.is_exact(),
            next.at(*state) == self.progress.at(Phase::Pull, *state).step(Input::Pulled { action }),
            match action {
                Some(taken) => next matches Next::Perform(s) && s.action == taken
                    && !s.performance.is_retry && s.performance.connection_id
                    == self.progress.connection_id && s.performance.client_id
                    == self.progress.client_id && s.performance.progress == self.progress,
                None => next matches Next::Idle(s) && s.duration
                    == self.progress.settings.poll_interval && s.progress == self.progress,
            },
    {
        match action {
            Some(action) => self.progress.perform(action, false),
            None => self.progress.idle(),
        }
    }
}

} // verus!
