//! What the manager does, as a state machine.

use vstd::prelude::*;

use crate::error::ClientError;
use crate::mqtt_manager::{Error, Settings, State};
use crate::time::Instant;

verus! {

/// What the manager reports of its own accord.
pub enum Announcement {
    /// That a connection was made.
    Connected,

    /// That the connection is stable.
    Stable,

    /// That the connection has ended.
    Disconnected(Error),
}

/// What the manager has asked for, and waits for.
pub enum Phase<A> {
    /// That a socket is connected.
    Dial,

    /// That the delay before the next connection passes.
    Backoff,

    /// That the client connects to the server.
    Connect,

    /// That an event is sent to the application.
    Announce(Announcement),

    /// That the delay before the next round passes.
    Idle,

    /// That the client sends a ping.
    Ping,

    /// That the client handles a received packet, if there is one.
    Poll,

    /// That an action is performed.
    Perform { action: A, is_retry: bool },

    /// That the next action of the application is taken, if there is one.
    Pull,
}

/// What came of it.
#[allow(inconsistent_fields)]
pub enum Input<A> {
    /// The socket was connected, or not.
    Dialed { connected: bool, now: Instant },

    /// A delay has passed.
    Waited { now: Instant },

    /// The client has connected to the server, or failed.
    Connected { result: Result<(), ClientError> },

    /// An event was sent.
    Announced { now: Instant },

    /// The client has sent a ping, or failed.
    Pinged { result: Result<(), ClientError>, now: Instant },

    /// The client has handled a packet, or there was none, or it failed.
    Polled { result: Result<bool, ClientError> },

    /// An action was performed, or failed.
    Performed { action: A, result: Result<(), ClientError> },

    /// An action was taken, or there was none.
    Pulled { action: Option<A> },

    /// The handler of received events has sent one on to the application. This can happen
    /// while the client is at work.
    PassedOn,

    /// The server acknowledged something. This can happen at any time.
    Acked { now: Instant },
}

/// What the manager holds.
pub struct ManagerView<A> {
    /// What it waits for.
    pub phase: Phase<A>,

    /// Its settings.
    pub settings: Settings,

    /// The id with which its clients connect.
    pub client_id: &'static str,

    /// How many connections there were.
    pub connection_index: nat,

    /// The number of the last of them, counted from 0.
    pub connection_id: nat,

    /// When that connection was made, until it was reported to be stable.
    pub connection_instant: Option<Instant>,

    /// When a ping was last sent, or the connection was made.
    pub last_ping_instant: Instant,

    /// When the server last showed that the connection is live.
    pub last_connection_event: Instant,

    /// An action that failed, and that is to be performed again.
    pub pending_action: Option<A>,
}

impl<A> ManagerView<A> {
    /// The manager before its first connection.
    pub open spec fn started(
        settings: Settings,
        client_id: &'static str,
        now: Instant,
        state: State<A>,
    ) -> Self {
        ManagerView {
            phase: Phase::Dial,
            settings,
            client_id,
            connection_index: 0,
            connection_id: 0,
            connection_instant: None,
            last_ping_instant: now,
            last_connection_event: state.last_connection_event,
            pending_action: state.pending_action,
        }
    }

    /// Whether the time since the server last showed that the connection is live is
    /// defined.
    pub open spec fn live_is_defined(self, now: Instant) -> bool {
        self.last_connection_event.ticks <= now.ticks
    }

    /// Whether the times that [`Self::check_stable`] depends on are defined.
    pub open spec fn stable_is_defined(self, now: Instant) -> bool {
        match self.connection_instant {
            Some(made) => {
                &&& made.ticks <= now.ticks
                &&& made.longer_ago_than(self.settings.stabilisation_interval, now)
                    || self.live_is_defined(now)
            },
            None => self.live_is_defined(now),
        }
    }

    /// Whether the times that the start of a round depends on are defined.
    pub open spec fn round_is_defined(self, now: Instant) -> bool {
        &&& self.last_ping_instant.ticks <= now.ticks
        &&& self.last_ping_instant.longer_ago_than(self.settings.ping_interval, now)
            || self.stable_is_defined(now)
    }

    /// The connection ends.
    pub open spec fn ended(self, error: Error) -> Self {
        ManagerView { phase: Phase::Announce(Announcement::Disconnected(error)), ..self }
    }

    /// Reports a connection that has lasted for long enough, and goes on to
    /// [`Self::check_live`].
    pub open spec fn check_stable(self, now: Instant) -> Self {
        match self.connection_instant {
            Some(made) if made.longer_ago_than(self.settings.stabilisation_interval, now) => ManagerView {
                phase: Phase::Announce(Announcement::Stable),
                connection_instant: None,
                ..self
            },
            _ => self.check_live(now),
        }
    }

    /// Ends a connection on which the server has not acknowledged anything for too long,
    /// and else goes on to handle packets.
    pub open spec fn check_live(self, now: Instant) -> Self {
        if self.last_connection_event.longer_ago_than(
            self.settings.connection_event_max_interval,
            now,
        ) {
            self.ended(Error::MqttServerUnresponsive)
        } else {
            ManagerView { phase: Phase::Poll, ..self }
        }
    }

    /// What the manager holds after an input. One that it does not wait for changes
    /// nothing.
    pub open spec fn step(self, input: Input<A>) -> Self {
        match (self.phase, input) {
            (Phase::Dial, Input::Dialed { connected: true, now }) => ManagerView {
                phase: Phase::Connect,
                connection_id: self.connection_index,
                connection_index: self.connection_index + 1,
                last_connection_event: now,
                ..self
            },
            (Phase::Dial, Input::Dialed { connected: false, .. }) => ManagerView {
                phase: Phase::Backoff,
                ..self
            },
            (Phase::Backoff, Input::Waited { .. }) => ManagerView { phase: Phase::Dial, ..self },
            (Phase::Connect, Input::Connected { result: Ok(_) }) => ManagerView {
                phase: Phase::Announce(Announcement::Connected),
                ..self
            },
            (Phase::Connect, Input::Connected { result: Err(e) }) => self.ended(Error::Client(e)),
            (Phase::Announce(Announcement::Connected), Input::Announced { now }) => ManagerView {
                phase: Phase::Idle,
                connection_instant: Some(now),
                last_ping_instant: now,
                ..self
            },
            (Phase::Idle, Input::Waited { now }) => if self.last_ping_instant.longer_ago_than(
                self.settings.ping_interval,
                now,
            ) {
                ManagerView { phase: Phase::Ping, last_ping_instant: now, ..self }
            } else {
                self.check_stable(now)
            },
            (Phase::Ping, Input::Pinged { result: Ok(_), now }) => self.check_stable(now),
            (Phase::Ping, Input::Pinged { result: Err(e), .. }) => self.ended(Error::Client(e)),
            (Phase::Announce(Announcement::Stable), Input::Announced { now }) => self.check_live(now),
            (Phase::Poll, Input::Polled { result: Ok(true) }) => self,
            (Phase::Poll, Input::Polled { result: Ok(false) }) => match self.pending_action {
                Some(action) => ManagerView {
                    phase: Phase::Perform { action, is_retry: true },
                    pending_action: None,
                    ..self
                },
                None => ManagerView { phase: Phase::Pull, ..self },
            },
            (Phase::Poll, Input::Polled { result: Err(e) }) => self.ended(Error::Client(e)),
            (Phase::Perform { .. }, Input::Performed { result: Ok(_), .. }) => ManagerView {
                phase: Phase::Pull,
                ..self
            },
            (Phase::Perform { .. }, Input::Performed { action, result: Err(e) }) => ManagerView {
                pending_action: Some(action),
                ..self
            }.ended(Error::Client(e)),
            (Phase::Pull, Input::Pulled { action: Some(action) }) => ManagerView {
                phase: Phase::Perform { action, is_retry: false },
                ..self
            },
            (Phase::Pull, Input::Pulled { action: None }) => ManagerView {
                phase: Phase::Idle,
                ..self
            },
            (Phase::Announce(Announcement::Disconnected(_)), Input::Announced { .. }) => ManagerView {
                phase: Phase::Backoff,
                ..self
            },
            (_, Input::Acked { now }) => ManagerView { last_connection_event: now, ..self },
            _ => self,
        }
    }

    /// What the manager holds after a number of inputs.
    pub open spec fn after(self, inputs: Seq<Input<A>>) -> Self
        decreases inputs.len(),
    {
        if inputs.len() == 0 {
            self
        } else {
            self.after(inputs.drop_last()).step(inputs.last())
        }
    }
}

} // verus!
