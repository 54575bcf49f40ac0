//! An MQTT client that is operated by regularly polling for received packets.
//!
//! The client tracks when the server was last heard of, and when the next ping is due. It
//! works on top of a client state, which knows what the server has still to answer, and of
//! a queue of packets in each direction. Both stay outside: an operation hands out what to
//! do with them as a step, and the step takes the answer.

use vstd::prelude::*;

use crate::address::Ipv4Address;
use crate::error::{ClientError, SendError, StateError};
use crate::message::{ClientReceivedEvent, ClientStateReceiveEvent};
use crate::packet_bin::{PacketBin, PacketType};
use crate::packet_bin::{decoded_kind, disconnect_bytes, pingreq_bytes};
use crate::step::Step;
use crate::step::{
    AWAIT_PACKET, CONNACK_RECEIVING, CONNACK_RECORDING, CONNECTING, CONNECT_RECORDING,
    CONNECT_SENDING, DISCONNECTING, DISCONNECT_FLUSHING, DISCONNECT_RECORDING, PING_RECORDING,
    PING_SENDING, PING_SENT, PROCESS_RECEIVING, PROCESS_RESPONDING, PROCESS_SENDING,
    RECEIVE_AGAIN, REQUESTING, REQUEST_RECORDING, REQUEST_SENDING, SERVING_END,
    SOCKET_CONNECTING, TAKE_PACKET,
};
use crate::time::{Duration, Instant};

verus! {

/// Settings for a [`PollClient`].
#[derive(Debug, Clone, Copy)]
pub struct Settings {
    /// The address of the MQTT server.
    pub address: Ipv4Address,

    /// The port of the MQTT server.
    pub port: u16,

    /// The longest time that the server may go without answering, before it counts as
    /// unresponsive.
    receive_timeout: Duration,

    /// The time between pings.
    ping_interval: Duration,

    /// How long to put off a ping that is due while another has not been answered.
    ping_retry_delay: Duration,

    /// How long sending a packet may take.
    send_packet_timeout: Duration,
}

impl Settings {
    /// The address and the port of the MQTT server.
    pub closed spec fn remote_endpoint(self) -> (Ipv4Address, u16) {
        (self.address, self.port)
    }

    /// The longest time that the server may go without answering.
    pub closed spec fn receive_timeout(self) -> Duration {
        self.receive_timeout
    }

    /// The time between pings.
    pub closed spec fn ping_interval(self) -> Duration {
        self.ping_interval
    }

    /// How long to put off a ping that is due while another has not been answered.
    pub closed spec fn ping_retry_delay(self) -> Duration {
        self.ping_retry_delay
    }

    /// How long sending a packet may take.
    pub closed spec fn send_packet_timeout(self) -> Duration {
        self.send_packet_timeout
    }

    /// Settings for the server at the given address, with default times.
    pub fn new(address: Ipv4Address, port: u16) -> (settings: Settings)
        ensures
            settings.remote_endpoint() == (address, port),
            settings.receive_timeout().ticks == 10_000_000,
            settings.ping_interval().ticks == 2_000_000,
            settings.ping_retry_delay().ticks == 100_000,
            settings.send_packet_timeout().ticks == 5_000_000,
    {
        Settings {
            address,
            port,
            receive_timeout: Duration::from_secs(10),
            ping_interval: Duration::from_secs(2),
            ping_retry_delay: Duration::from_millis(100),
            send_packet_timeout: Duration::from_secs(5),
        }
    }
}

/// What a [`PollClient`] holds.
pub struct PollClientView {
    /// When the server counts as unresponsive. While there is none, it never does.
    pub receive_timeout_at: Option<Instant>,

    /// When the next ping is due. While there is none, no ping is.
    pub ping_at: Option<Instant>,

    /// When the connect packet was sent.
    pub connection_start: Option<Instant>,

    /// The settings of the client.
    pub settings: Settings,
}

/// Whether a packet of this kind shows that the server still answers. Only answers to what
/// the client sends count: they show that packets get through in both directions.
pub open spec fn is_sign_of_life(kind: PacketType) -> bool {
    kind == PacketType::Connack || kind == PacketType::Pingresp
}

impl PollClientView {
    /// Before anything was sent or received.
    pub open spec fn fresh(settings: Settings) -> PollClientView {
        PollClientView {
            receive_timeout_at: None,
            ping_at: None,
            connection_start: None,
            settings,
        }
    }

    /// Whether the server has not answered for too long.
    pub open spec fn timed_out(self, now: Instant) -> bool {
        self.receive_timeout_at matches Some(at) && at.ticks < now.ticks
    }

    /// Whether the time of the next ping has passed.
    pub open spec fn ping_needed(self, now: Instant) -> bool {
        self.ping_at matches Some(at) && at.ticks < now.ticks
    }

    /// After a sign of life: the server has the whole timeout again.
    pub open spec fn alive(self, now: Instant) -> PollClientView {
        PollClientView {
            receive_timeout_at: Some(now.plus(self.settings.receive_timeout())),
            ..self
        }
    }

    /// After the connect packet was sent: the server has to answer in time.
    pub open spec fn connect_sent(self, now: Instant) -> PollClientView {
        PollClientView { connection_start: Some(now), ..self }.alive(now)
    }

    /// After a packet was received.
    pub open spec fn received(self, kind: PacketType, now: Instant) -> PollClientView {
        if is_sign_of_life(kind) {
            self.alive(now)
        } else {
            self
        }
    }

    /// After the server accepted the connection: pings are due from the time when the
    /// connect packet was sent.
    pub open spec fn connected(self) -> PollClientView {
        PollClientView {
            ping_at: match self.connection_start {
                Some(start) => Some(start.plus(self.settings.ping_interval())),
                None => None,
            },
            ..self
        }
    }

    /// After a ping was put off.
    pub open spec fn ping_delayed(self, now: Instant) -> PollClientView {
        PollClientView {
            ping_at: Some(now.plus(self.settings.ping_retry_delay())),
            ..self
        }
    }

    /// After a ping was sent.
    pub open spec fn pinged(self, now: Instant) -> PollClientView {
        PollClientView { ping_at: Some(now.plus(self.settings.ping_interval())), ..self }
    }

    /// What remains of a ping that is attempted while the server has `pending_ping_count`
    /// pings to answer: with any, the ping is put off, else the client waits for it to be
    /// sent.
    pub open spec fn ping_attempted(self, pending_ping_count: u32, now: Instant) -> PollClientView {
        if pending_ping_count > 0 {
            self.ping_delayed(now)
        } else {
            self
        }
    }
}

/// What an operation does to a client. Operations that are not here do nothing to it.
pub enum Change {
    /// The connect packet was sent.
    ConnectSent { now: Instant },

    /// Data was received, and decoded.
    Received {
        decoded: Result<PacketType, mountain_mqtt::error::PacketReadError>,
        now: Instant,
    },

    /// The server accepted the connection.
    Connected,

    /// A ping is sent if one is needed.
    PingIfNeeded { pending_ping_count: u32, now: Instant },

    /// A packet is about to be taken.
    TryReceive { pending_ping_count: u32, now: Instant },

    /// The time of the next ping came while waiting for a packet.
    PingDue { pending_ping_count: u32, now: Instant },

    /// A ping was sent, and noted.
    PingSent { now: Instant },
}

impl PollClientView {
    /// Whether an operation attempts a ping.
    pub open spec fn attempts_ping(self, change: Change) -> bool {
        match change {
            Change::PingIfNeeded { now, .. } => self.ping_needed(now),
            Change::TryReceive { now, .. } => !self.timed_out(now) && self.ping_needed(now),
            Change::PingDue { .. } => self.ping_at is Some,
            _ => false,
        }
    }

    /// Whether an operation attempts a ping while the server has none to answer, so that
    /// the ping is to be sent.
    pub open spec fn hands_out_ping(self, change: Change) -> bool {
        &&& self.attempts_ping(change)
        &&& match change {
            Change::PingIfNeeded { pending_ping_count, .. } => pending_ping_count == 0,
            Change::TryReceive { pending_ping_count, .. } => pending_ping_count == 0,
            Change::PingDue { pending_ping_count, .. } => pending_ping_count == 0,
            _ => false,
        }
    }

    /// What a client holds after an operation.
    pub open spec fn changed(self, change: Change) -> PollClientView {
        match change {
            Change::ConnectSent { now } => self.connect_sent(now),
            Change::Received { decoded, now } => after_received(self, decoded, now),
            Change::Connected => self.connected(),
            Change::PingIfNeeded { pending_ping_count, now }
            | Change::TryReceive { pending_ping_count, now }
            | Change::PingDue { pending_ping_count, now } => if self.attempts_ping(change) {
                self.ping_attempted(pending_ping_count, now)
            } else {
                self
            },
            Change::PingSent { now } => self.pinged(now),
        }
    }
}

/// Whether an error says that a packet does not fit in its buffer.
pub open spec fn is_overflow(e: ClientError) -> bool {
    e == ClientError::PacketWrite(SendError::Overflow)
}

/// An MQTT client that is operated by regularly polling for received packets.
/// Its packets have up to `N` bytes, and received packets up to `P` properties.
pub struct PollClient<const N: usize, const P: usize> {
    receive_timeout_at: Option<Instant>,
    ping_at: Option<Instant>,
    connection_start: Option<Instant>,
    settings: Settings,
}

impl<const N: usize, const P: usize> View for PollClient<N, P> {
    type V = PollClientView;

    closed spec fn view(&self) -> PollClientView {
        PollClientView {
            receive_timeout_at: self.receive_timeout_at,
            ping_at: self.ping_at,
            connection_start: self.connection_start,
            settings: self.settings,
        }
    }
}

/// A ping is to be sent.
pub struct PingSending<const N: usize, K> {
    /// The packet to send.
    pub packet: PacketBin<N>,

    /// How long sending may take.
    pub timeout: Duration,

    /// What follows the ping.
    pub rest: K,

    /// The mark of this step.
    pub step: Step<PING_SENDING>,
}

/// A ping was sent, and the client state has to note it.
pub struct PingRecording<K> {
    /// What follows the ping.
    pub rest: K,

    /// The mark of this step.
    pub step: Step<PING_RECORDING>,
}

/// A ping was sent and noted, and that is all.
pub struct PingSent {
    /// The mark of this step.
    pub step: Step<PING_SENT>,
}

/// What a client does about a ping.
pub enum PingIfNeeded<const N: usize> {
    /// Send one.
    Send(PingSending<N, PingSent>),

    /// Nothing more. No ping was sent.
    NotSent,
}

enum PingAttempt<const N: usize, K> {
    Send(PingSending<N, K>),
    Delayed(K),
}

impl<const N: usize, K> PingSending<N, K> {
    /// Whether a ping packet is to be sent, within the time that the settings give.
    pub open spec fn is_ping(self, settings: Settings) -> bool {
        &&& self.packet@ == pingreq_bytes()
        &&& self.timeout == settings.send_packet_timeout()
    }

    /// The ping was sent, or could not be, and then the client holds what it held before.
    pub fn sent(self, result: Result<(), ClientError>) -> (next: Result<PingRecording<K>, ClientError>)
        ensures
            next is Ok <==> result is Ok,
            next matches Ok(n) ==> n.rest == self.rest,
            next matches Err(e) ==> result == Err::<(), ClientError>(e),
    {
        match result {
            Ok(()) => Ok(PingRecording { rest: self.rest, step: Step::mark() }),
            Err(e) => Err(e),
        }
    }
}

impl<K> PingRecording<K> {
    /// The client state has noted the ping, or refused. Only a ping that was noted moves
    /// the time of the next one.
    pub fn recorded<const N: usize, const P: usize>(
        self,
        client: &mut PollClient<N, P>,
        result: Result<(), StateError>,
        now: Instant,
    ) -> (next: Result<K, ClientError>)
        requires
            result is Ok ==> now.can_add(old(client)@.settings.ping_interval()),
        ensures
            match result {
                Ok(_) => {
                    &&& final(client)@ == old(client)@.changed(Change::PingSent { now })
                    &&& final(client)@.ping_at matches Some(at)
                    &&& at.ticks == now.ticks + old(client)@.settings.ping_interval().ticks
                    &&& final(client)@.receive_timeout_at == old(client)@.receive_timeout_at
                    &&& final(client)@.connection_start == old(client)@.connection_start
                    &&& final(client)@.settings == old(client)@.settings
                    &&& next == Ok::<K, ClientError>(self.rest)
                },
                Err(e) => {
                    &&& final(client)@ == old(client)@
                    &&& next == Err::<K, ClientError>(ClientError::ClientState(e))
                },
            },
    {
        match result {
            Ok(()) => {
                proof {
                    use_type_invariant(&*client);
                }
                client.ping_at = Some(now.after(client.settings.ping_interval));
                Ok(self.rest)
            },
            Err(e) => Err(ClientError::ClientState(e)),
        }
    }
}

impl<const N: usize, const P: usize> PollClient<N, P> {
    /// Whether the first ping after the connect packet can be scheduled.
    #[verifier::type_invariant]
    spec fn can_schedule_first_ping(self) -> bool {
        self.connection_start matches Some(start) ==> start.can_add(self.settings.ping_interval)
    }

    /// A client for a connection on which nothing was sent or received yet.
    pub fn new(settings: Settings) -> (client: Self)
        ensures
            client@ == PollClientView::fresh(settings),
    {
        PollClient { receive_timeout_at: None, ping_at: None, connection_start: None, settings }
    }

    fn check_receive_timeout(&self, now: Instant) -> (result: Result<(), ClientError>)
        ensures
            result is Err <==> self@.timed_out(now),
            result matches Err(e) ==> e == ClientError::ReceiveTimeoutServerUnresponsive,
    {
        if let Some(at) = self.receive_timeout_at {
            if at.is_before(now) {
                return Err(ClientError::ReceiveTimeoutServerUnresponsive);
            }
        }
        Ok(())
    }

    fn reset_receive_timeout(&mut self, now: Instant)
        requires
            now.can_add(old(self)@.settings.receive_timeout()),
        ensures
            final(self)@ == old(self)@.alive(now),
    {
        proof {
            use_type_invariant(&*self);
        }
        self.receive_timeout_at = Some(now.after(self.settings.receive_timeout));
    }

    /// Attempts a ping, whether or not one is due. While the server has a ping to answer,
    /// no other is sent.
    fn ping<K>(&mut self, pending_ping_count: u32, now: Instant, rest: K) -> (attempt: Result<
        PingAttempt<N, K>,
        ClientError,
    >)
        requires
            pending_ping_count > 0 ==> now.can_add(old(self)@.settings.ping_retry_delay()),
        ensures
            final(self)@ == old(self)@.ping_attempted(pending_ping_count, now),
            match attempt {
                Ok(PingAttempt::Delayed(k)) => pending_ping_count > 0 && k == rest,
                Ok(PingAttempt::Send(s)) => pending_ping_count == 0 && N >= 2 && s.is_ping(
                    old(self)@.settings,
                ) && s.rest == rest,
                Err(e) => pending_ping_count == 0 && N < 2 && is_overflow(e),
            },
    {
        if pending_ping_count > 0 {
            proof {
                use_type_invariant(&*self);
            }
            self.ping_at = Some(now.after(self.settings.ping_retry_delay));
            Ok(PingAttempt::Delayed(rest))
        } else {
            match PacketBin::pingreq() {
                Ok(packet) => Ok(
                    PingAttempt::Send(
                        PingSending {
                            packet,
                            timeout: self.settings.send_packet_timeout,
                            rest,
                            step: Step::mark(),
                        },
                    ),
                ),
                Err(e) => Err(ClientError::PacketWrite(e)),
            }
        }
    }

    /// Sends a ping if the time for one has passed. While the server has
    /// `pending_ping_count` pings to answer, and that is any, the ping is put off.
    pub fn ping_if_needed(&mut self, pending_ping_count: u32, now: Instant) -> (next: Result<
        PingIfNeeded<N>,
        ClientError,
    >)
        requires
            old(self)@.ping_needed(now) && pending_ping_count > 0 ==> now.can_add(
                old(self)@.settings.ping_retry_delay(),
            ),
        ensures
            final(self)@ == old(self)@.changed(Change::PingIfNeeded { pending_ping_count, now }),
            ({
                let sends = old(self)@.hands_out_ping(
                    Change::PingIfNeeded { pending_ping_count, now },
                );
                match next {
                    Ok(PingIfNeeded::Send(s)) => sends && N >= 2 && s.is_ping(old(self)@.settings),
                    Ok(PingIfNeeded::NotSent) => !sends,
                    Err(e) => sends && N < 2 && is_overflow(e),
                }
            }),
            final(self)@.receive_timeout_at == old(self)@.receive_timeout_at,
            final(self)@.connection_start == old(self)@.connection_start,
            final(self)@.settings == old(self)@.settings,
            match old(self)@.ping_at {
                Some(at) if at.ticks < now.ticks => if pending_ping_count == 0 {
                    &&& final(self)@.ping_at == Some(at)
                    &&& match next {
                        Ok(PingIfNeeded::Send(s)) => N >= 2 && s.packet@ == seq![0xC0u8, 0x00u8]
                            && s.timeout == old(self)@.settings.send_packet_timeout(),
                        Ok(PingIfNeeded::NotSent) => false,
                        Err(e) => N < 2 && e == ClientError::PacketWrite(SendError::Overflow),
                    }
                } else {
                    &&& final(self)@.ping_at matches Some(later)
                    &&& later.ticks == now.ticks + old(self)@.settings.ping_retry_delay().ticks
                    &&& next matches Ok(PingIfNeeded::NotSent)
                },
                _ => final(self)@.ping_at == old(self)@.ping_at && (
                next matches Ok(PingIfNeeded::NotSent)),
            },
    {
        if let Some(at) = self.ping_at {
            if at.is_before(now) {
                return match self.ping(pending_ping_count, now, PingSent { step: Step::mark() }) {
                    Ok(PingAttempt::Send(s)) => Ok(PingIfNeeded::Send(s)),
                    Ok(PingAttempt::Delayed(_)) => Ok(PingIfNeeded::NotSent),
                    Err(e) => Err(e),
                };
            }
        }
        Ok(PingIfNeeded::NotSent)
    }

    /// Tells whether a packet is available at once, and takes it if so. Before that, it
    /// checks whether the server is unresponsive, and sends a ping if one is needed: an
    /// operation that ends early has not taken a packet that it then loses.
    pub fn try_receive(&mut self, pending_ping_count: u32, now: Instant) -> (next: Result<
        TryReceive<N>,
        ClientError,
    >)
        requires
            !old(self)@.timed_out(now) && old(self)@.ping_needed(now) && pending_ping_count > 0
                ==> now.can_add(old(self)@.settings.ping_retry_delay()),
        ensures
            final(self)@ == old(self)@.changed(Change::TryReceive { pending_ping_count, now }),
            ({
                let sends = old(self)@.hands_out_ping(
                    Change::TryReceive { pending_ping_count, now },
                );
                match next {
                    Ok(TryReceive::Take(_)) => !old(self)@.timed_out(now) && !sends,
                    Ok(TryReceive::Ping(s)) => sends && N >= 2 && s.is_ping(old(self)@.settings),
                    Err(e) => if old(self)@.timed_out(now) {
                        e == ClientError::ReceiveTimeoutServerUnresponsive
                    } else {
                        sends && N < 2 && is_overflow(e)
                    },
                }
            }),
            final(self)@.receive_timeout_at == old(self)@.receive_timeout_at,
            final(self)@.connection_start == old(self)@.connection_start,
            final(self)@.settings == old(self)@.settings,
            match (old(self)@.receive_timeout_at, old(self)@.ping_at) {
                (Some(end), _) if end.ticks < now.ticks => final(self)@.ping_at
                    == old(self)@.ping_at && (next matches Err(e) && e
                    == ClientError::ReceiveTimeoutServerUnresponsive),
                (_, Some(at)) if at.ticks < now.ticks => if pending_ping_count == 0 {
                    &&& final(self)@.ping_at == Some(at)
                    &&& match next {
                        Ok(TryReceive::Ping(s)) => N >= 2 && s.packet@ == seq![0xC0u8, 0x00u8]
                            && s.timeout == old(self)@.settings.send_packet_timeout(),
                        Ok(TryReceive::Take(_)) => false,
                        Err(e) => N < 2 && e == ClientError::PacketWrite(SendError::Overflow),
                    }
                } else {
                    &&& final(self)@.ping_at matches Some(later)
                    &&& later.ticks == now.ticks + old(self)@.settings.ping_retry_delay().ticks
                    &&& next matches Ok(TryReceive::Take(_))
                },
                _ => final(self)@.ping_at == old(self)@.ping_at && (
                next matches Ok(TryReceive::Take(_))),
            },
    {
        match self.check_receive_timeout(now) {
            Ok(()) => {},
            Err(e) => {
                return Err(e);
            },
        }
        let take = TakePacket { step: Step::mark() };
        if let Some(at) = self.ping_at {
            if at.is_before(now) {
                return match self.ping(pending_ping_count, now, take) {
                    Ok(PingAttempt::Send(s)) => Ok(TryReceive::Ping(s)),
                    Ok(PingAttempt::Delayed(take)) => Ok(TryReceive::Take(take)),
                    Err(e) => Err(e),
                };
            }
        }
        Ok(TryReceive::Take(take))
    }

    /// Waits for a packet. Meanwhile pings are sent as they are due, and it ends when the
    /// server counts as unresponsive.
    pub fn receive(&self) -> (next: AwaitPacket)
        ensures
            next.ping_at == self@.ping_at,
            next.receive_timeout_at == self@.receive_timeout_at,
    {
        AwaitPacket {
            ping_at: self.ping_at,
            receive_timeout_at: self.receive_timeout_at,
            step: Step::mark(),
        }
    }
}

/// The next received packet, if there is one, is to be taken from the queue.
pub struct TakePacket {
    /// The mark of this step.
    pub step: Step<TAKE_PACKET>,
}

/// What a client does before it takes a packet.
pub enum TryReceive<const N: usize> {
    /// Send a ping first.
    Ping(PingSending<N, TakePacket>),

    /// Nothing: take the packet.
    Take(TakePacket),
}

/// What to wait for: the time of the next ping, the time when the server counts as
/// unresponsive, or a packet. A time that is not there does not come.
pub struct AwaitPacket {
    /// When the next ping is due.
    pub ping_at: Option<Instant>,

    /// When the server counts as unresponsive.
    pub receive_timeout_at: Option<Instant>,

    /// The mark of this step.
    pub step: Step<AWAIT_PACKET>,
}

/// What came first while waiting for a packet.
pub enum Arrival<const N: usize> {
    /// The time of the next ping. The server has `pending_ping_count` pings to answer.
    PingDue { pending_ping_count: u32, now: Instant },

    /// The time when the server counts as unresponsive.
    ReceiveTimeout,

    /// A packet.
    Packet(PacketBin<N>),
}

/// A ping was sent, and waiting for a packet goes on.
pub struct ReceiveAgain {
    /// The mark of this step.
    pub step: Step<RECEIVE_AGAIN>,
}

/// How waiting for a packet goes on.
pub enum Receive<const N: usize> {
    /// Wait on, for new times.
    Wait(AwaitPacket),

    /// Send a ping, and then wait on.
    Ping(PingSending<N, ReceiveAgain>),

    /// The packet is there.
    Received(PacketBin<N>),
}

impl AwaitPacket {
    /// Goes on after the first of what was waited for.
    pub fn arrived<const N: usize, const P: usize>(
        self,
        client: &mut PollClient<N, P>,
        arrival: Arrival<N>,
    ) -> (next: Result<Receive<N>, ClientError>)
        requires
            arrival is PingDue ==> old(client)@.ping_at is Some,
            arrival is ReceiveTimeout ==> old(client)@.receive_timeout_at is Some,
            arrival matches Arrival::PingDue { pending_ping_count, now } ==> pending_ping_count > 0
                ==> now.can_add(old(client)@.settings.ping_retry_delay()),
        ensures
            match arrival {
                Arrival::PingDue { pending_ping_count, now } => {
                    let change = Change::PingDue { pending_ping_count, now };
                    let sends = old(client)@.hands_out_ping(change);
                    &&& final(client)@ == old(client)@.changed(change)
                    &&& sends <==> pending_ping_count == 0
                    &&& final(client)@.receive_timeout_at == old(client)@.receive_timeout_at
                    &&& final(client)@.connection_start == old(client)@.connection_start
                    &&& final(client)@.settings == old(client)@.settings
                    &&& if pending_ping_count == 0 {
                        final(client)@.ping_at == old(client)@.ping_at
                    } else {
                        &&& final(client)@.ping_at matches Some(at)
                        &&& at.ticks == now.ticks + old(client)@.settings.ping_retry_delay().ticks
                    }
                    &&& match next {
                        Ok(Receive::Wait(w)) => !sends && w.ping_at == final(client)@.ping_at
                            && w.receive_timeout_at == final(client)@.receive_timeout_at,
                        Ok(Receive::Ping(s)) => sends && N >= 2 && s.is_ping(old(client)@.settings),
                        Ok(Receive::Received(_)) => false,
                        Err(e) => sends && N < 2 && is_overflow(e),
                    }
                },
                Arrival::ReceiveTimeout => {
                    &&& final(client)@ == old(client)@
                    &&& next matches Err(e)
                    &&& e == ClientError::ReceiveTimeoutServerUnresponsive
                },
                Arrival::Packet(packet) => {
                    &&& final(client)@ == old(client)@
                    &&& next matches Ok(Receive::Received(p))
                    &&& p == packet
                },
            },
    {
        match arrival {
            Arrival::PingDue { pending_ping_count, now } => {
                let again = ReceiveAgain { step: Step::mark() };
                match client.ping(pending_ping_count, now, again) {
                    Ok(PingAttempt::Send(s)) => Ok(Receive::Ping(s)),
                    Ok(PingAttempt::Delayed(again)) => Ok(Receive::Wait(again.wait(client))),
                    Err(e) => Err(e),
                }
            },
            Arrival::ReceiveTimeout => Err(ClientError::ReceiveTimeoutServerUnresponsive),
            Arrival::Packet(packet) => Ok(Receive::Received(packet)),
        }
    }
}

impl ReceiveAgain {
    /// Waits on for a packet.
    pub fn wait<const N: usize, const P: usize>(self, client: &PollClient<N, P>) -> (next: AwaitPacket)
        ensures
            next.ping_at == client@.ping_at,
            next.receive_timeout_at == client@.receive_timeout_at,
    {
        client.receive()
    }
}

/// `mountain_mqtt::packets::connect::Will`, carried through unread.
#[verifier::external_type_specification]
#[verifier::external_body]
pub struct ExWill<'a, const P: usize>(mountain_mqtt::packets::connect::Will<'a, P>);

/// How a client introduces itself to the server.
#[derive(Debug, Clone, Copy)]
pub struct ConnectionSettings<'a> {
    /// The longest time in seconds that the client may be silent.
    pub keep_alive: u16,

    /// The name of the user.
    pub username: Option<&'a str>,

    /// The password of the user.
    pub password: Option<&'a [u8]>,

    /// The name of the client.
    pub client_id: &'a str,
}

/// A property of a connect packet.
#[derive(Debug, Clone, Copy, PartialEq, Eq, Structural)]
pub enum ConnectProperty {
    /// How many topic aliases the server may use.
    TopicAliasMaximum(u16),
}

/// A packet that asks the server for a connection.
pub struct ConnectPacket<'a, const W: usize> {
    /// The longest time in seconds that the client may be silent.
    pub keep_alive: u16,

    /// The name of the user.
    pub username: Option<&'a str>,

    /// The password of the user.
    pub password: Option<&'a [u8]>,

    /// The name of the client.
    pub client_id: &'a str,

    /// Whether the server has to forget an earlier session of the client.
    pub clean_start: bool,

    /// The message that the server publishes when the connection is lost.
    pub will: Option<mountain_mqtt::packets::connect::Will<'a, W>>,

    /// The properties of the packet.
    pub properties: heapless::Vec<ConnectProperty, 1>,
}

/// What a list of properties of a connect packet holds.
pub uninterp spec fn connect_properties(
    properties: heapless::Vec<ConnectProperty, 1>,
) -> Seq<ConnectProperty>;

/// Calls `heapless::Vec::new`: the list holds nothing.
#[verifier::external_body]
fn no_connect_properties() -> (properties: heapless::Vec<ConnectProperty, 1>)
    ensures
        connect_properties(properties) == Seq::<ConnectProperty>::empty(),
{
    heapless::Vec::new()
}

/// Calls `heapless::Vec::push`: it appends the property to a list that is not full, and
/// leaves a full list as it is.
#[verifier::external_body]
fn push_connect_property(
    properties: &mut heapless::Vec<ConnectProperty, 1>,
    property: ConnectProperty,
) -> (pushed: bool)
    ensures
        pushed == (connect_properties(*old(properties)).len() < 1),
        connect_properties(*final(properties)) == (if pushed {
            connect_properties(*old(properties)).push(property)
        } else {
            connect_properties(*old(properties))
        }),
{
    properties.push(property).is_ok()
}

/// The client state has to accept the packet before it is sent.
pub struct ConnectRecording<T> {
    /// The connect packet.
    pub packet: T,

    /// The mark of this step.
    pub step: Step<CONNECT_RECORDING>,
}

/// The connect packet is to be sent.
pub struct ConnectSending<T> {
    /// The connect packet.
    pub packet: T,

    /// How long sending may take.
    pub timeout: Duration,

    /// The mark of this step.
    pub step: Step<CONNECT_SENDING>,
}

/// The connect packet was sent.
pub struct Connecting {
    /// The mark of this step.
    pub step: Step<CONNECTING>,
}

/// How connecting goes on.
pub enum ConnectProgress {
    /// Receive a packet.
    Receive(ConnackReceiving),

    /// Nothing more: the client is connected.
    Done,
}

/// A packet is to be received from the server.
pub struct ConnackReceiving {
    /// The mark of this step.
    pub step: Step<CONNACK_RECEIVING>,
}

/// The client state has to take a received packet.
pub struct ConnackRecording<const N: usize> {
    /// The received packet.
    pub packet: PacketBin<N>,

    /// The mark of this step.
    pub step: Step<CONNACK_RECORDING>,
}

impl<const N: usize, const P: usize> PollClient<N, P> {
    /// Connects to the server, without a will.
    pub fn connect<'a>(&self, settings: &ConnectionSettings<'a>) -> (next: ConnectRecording<
        ConnectPacket<'a, 0>,
    >)
        ensures
            introduces(next.packet, *settings),
            next.packet.will is None,
    {
        self.connect_with_will(settings, None)
    }

    /// Connects to the server, with an optional will. The server is asked for a clean
    /// start, and not to use topic aliases, which the client does not support.
    pub fn connect_with_will<'a, const W: usize>(
        &self,
        settings: &ConnectionSettings<'a>,
        will: Option<mountain_mqtt::packets::connect::Will<'a, W>>,
    ) -> (next: ConnectRecording<ConnectPacket<'a, W>>)
        ensures
            introduces(next.packet, *settings),
            next.packet.will == will,
    {
        let mut properties = no_connect_properties();
        push_connect_property(&mut properties, ConnectProperty::TopicAliasMaximum(0));
        self.connect_with_packet(
            ConnectPacket {
                keep_alive: settings.keep_alive,
                username: settings.username,
                password: settings.password,
                client_id: settings.client_id,
                clean_start: true,
                will,
                properties,
            },
        )
    }

    /// Connects to the server with the given packet: once the client state has accepted
    /// it, it is sent, and the server has to acknowledge the connection in time.
    pub fn connect_with_packet<T>(&self, packet: T) -> (next: ConnectRecording<T>)
        ensures
            next.packet == packet,
    {
        ConnectRecording { packet, step: Step::mark() }
    }
}

/// Whether a connect packet says what the settings say, asks for a clean start, and allows
/// no topic aliases.
pub open spec fn introduces<const W: usize>(
    packet: ConnectPacket<'_, W>,
    settings: ConnectionSettings<'_>,
) -> bool {
    &&& packet.keep_alive == settings.keep_alive
    &&& packet.username == settings.username
    &&& packet.password == settings.password
    &&& packet.client_id == settings.client_id
    &&& packet.clean_start
    &&& connect_properties(packet.properties) == seq![ConnectProperty::TopicAliasMaximum(0)]
}

impl<T> ConnectRecording<T> {
    /// The client state has accepted the packet, or refused it: then nothing is sent.
    pub fn recorded<const N: usize, const P: usize>(
        self,
        client: &PollClient<N, P>,
        result: Result<(), StateError>,
    ) -> (next: Result<ConnectSending<T>, ClientError>)
        ensures
            match result {
                Ok(_) => {
                    &&& next matches Ok(s)
                    &&& s.packet == self.packet
                    &&& s.timeout == client@.settings.send_packet_timeout()
                },
                Err(e) => next matches Err(n) && n == ClientError::ClientState(e),
            },
    {
        match result {
            Ok(()) => Ok(
                ConnectSending {
                    packet: self.packet,
                    timeout: client.settings.send_packet_timeout,
                    step: Step::mark(),
                },
            ),
            Err(e) => Err(ClientError::ClientState(e)),
        }
    }
}

impl<T> ConnectSending<T> {
    /// The packet was sent, or could not be. Sending it starts the connection: from here
    /// on the server has to answer in time. There is no ping before it did.
    pub fn sent<const N: usize, const P: usize>(
        self,
        client: &mut PollClient<N, P>,
        result: Result<(), ClientError>,
        now: Instant,
    ) -> (next: Result<Connecting, ClientError>)
        requires
            result is Ok ==> now.can_add(old(client)@.settings.receive_timeout()),
            result is Ok ==> now.can_add(old(client)@.settings.ping_interval()),
        ensures
            match result {
                Ok(_) => {
                    &&& next is Ok
                    &&& final(client)@ == old(client)@.changed(Change::ConnectSent { now })
                    &&& final(client)@.receive_timeout_at matches Some(end)
                    &&& end.ticks == now.ticks + old(client)@.settings.receive_timeout().ticks
                    &&& final(client)@.connection_start == Some(now)
                    &&& final(client)@.ping_at == old(client)@.ping_at
                    &&& final(client)@.settings == old(client)@.settings
                },
                Err(e) => final(client)@ == old(client)@ && (next matches Err(n) && n == e),
            },
    {
        match result {
            Ok(()) => {
                client.connection_start = Some(now);
                client.reset_receive_timeout(now);
                Ok(Connecting { step: Step::mark() })
            },
            Err(e) => Err(e),
        }
    }
}

impl Connecting {
    /// Connecting goes on for as long as the client state waits for an answer of the
    /// server.
    pub fn wait_for_connected(self, waiting_for_responses: bool) -> (next: ConnectProgress)
        ensures
            next is Receive <==> waiting_for_responses,
    {
        if waiting_for_responses {
            ConnectProgress::Receive(ConnackReceiving { step: Step::mark() })
        } else {
            ConnectProgress::Done
        }
    }
}

/// What a client holds after data was received that decodes to `decoded`.
pub open spec fn after_received(
    client: PollClientView,
    decoded: Result<PacketType, mountain_mqtt::error::PacketReadError>,
    now: Instant,
) -> PollClientView {
    match decoded {
        Ok(kind) => client.received(kind, now),
        Err(_) => client,
    }
}

/// Whether `end` is when the server counts as unresponsive, after data was received that
/// decodes to `decoded`: a connack or a pingresp moves it to the end of a new timeout, and
/// nothing else moves it.
pub open spec fn timeout_moves(
    client: PollClientView,
    decoded: Result<PacketType, mountain_mqtt::error::PacketReadError>,
    now: Instant,
    end: Option<Instant>,
) -> bool {
    match decoded {
        Ok(PacketType::Connack) | Ok(PacketType::Pingresp) => end matches Some(at) && at.ticks
            == now.ticks + client.settings.receive_timeout().ticks,
        _ => end == client.receive_timeout_at,
    }
}

/// Whether the first byte of a packet is that of a sign of life.
pub open spec fn starts_as_sign_of_life(packet: Seq<u8>) -> bool {
    packet.len() > 0 && is_sign_of_life(PacketType::of_code(packet[0] / 16))
}

impl ConnackReceiving {
    /// A packet was received, or waiting for one failed.
    pub fn received<const N: usize, const P: usize>(
        self,
        client: &mut PollClient<N, P>,
        received: Result<PacketBin<N>, ClientError>,
        now: Instant,
    ) -> (next: Result<ConnackRecording<N>, ClientError>)
        requires
            received matches Ok(packet) ==> starts_as_sign_of_life(packet@) ==> now.can_add(
                old(client)@.settings.receive_timeout(),
            ),
        ensures
            match received {
                Ok(packet) => {
                    &&& final(client)@ == old(client)@.changed(
                        Change::Received { decoded: decoded_kind(packet@, P as nat), now },
                    )
                    &&& final(client)@.ping_at == old(client)@.ping_at
                    &&& final(client)@.connection_start == old(client)@.connection_start
                    &&& final(client)@.settings == old(client)@.settings
                    &&& timeout_moves(
                        old(client)@,
                        decoded_kind(packet@, P as nat),
                        now,
                        final(client)@.receive_timeout_at,
                    )
                    &&& match decoded_kind(packet@, P as nat) {
                        Ok(_) => next matches Ok(n) && n.packet == packet,
                        Err(e) => next matches Err(n) && n == ClientError::PacketRead(e),
                    }
                },
                Err(e) => final(client)@ == old(client)@ && (next matches Err(n) && n == e),
            },
    {
        match received {
            Ok(packet) => {
                let decoded = packet.packet_type::<P>();
                match client.note_received(decoded, now) {
                    Ok(()) => Ok(ConnackRecording { packet, step: Step::mark() }),
                    Err(e) => Err(e),
                }
            },
            Err(e) => Err(e),
        }
    }
}

impl<const N: usize> ConnackRecording<N> {
    /// The client state has taken the packet, or refused it. Only an acknowledgement
    /// connects the client. Pings are then due from when the connect packet was sent.
    pub fn recorded<const P: usize>(
        self,
        client: &mut PollClient<N, P>,
        result: Result<ClientStateReceiveEvent<'_, P>, StateError>,
    ) -> (next: Result<Connecting, ClientError>)
        ensures
            match result {
                Ok(ClientStateReceiveEvent::Ack) => {
                    &&& next is Ok
                    &&& final(client)@ == old(client)@.changed(Change::Connected)
                    &&& final(client)@.receive_timeout_at == old(client)@.receive_timeout_at
                    &&& final(client)@.connection_start == old(client)@.connection_start
                    &&& final(client)@.settings == old(client)@.settings
                    &&& match old(client)@.connection_start {
                        Some(start) => final(client)@.ping_at matches Some(at) && at.ticks
                            == start.ticks + old(client)@.settings.ping_interval().ticks,
                        None => final(client)@.ping_at is None,
                    }
                },
                Ok(_) => final(client)@ == old(client)@ && (next matches Err(n) && n
                    == ClientError::ClientState(
                    StateError::ReceivedPacketOtherThanConnackOrAuthWhenConnecting,
                )),
                Err(e) => final(client)@ == old(client)@ && (next matches Err(n) && n
                    == ClientError::ClientState(e)),
            },
    {
        match result {
            Ok(ClientStateReceiveEvent::Ack) => {
                proof {
                    use_type_invariant(&*client);
                }
                client.ping_at = match client.connection_start {
                    Some(start) => Some(start.after(client.settings.ping_interval)),
                    None => None,
                };
                Ok(Connecting { step: Step::mark() })
            },
            Ok(_) => Err(
                ClientError::ClientState(
                    StateError::ReceivedPacketOtherThanConnackOrAuthWhenConnecting,
                ),
            ),
            Err(e) => Err(ClientError::ClientState(e)),
        }
    }
}

impl<const N: usize, const P: usize> PollClient<N, P> {
    /// Takes note of received data. A sign of life gives the server the whole timeout
    /// again.
    fn note_received(
        &mut self,
        decoded: Result<PacketType, mountain_mqtt::error::PacketReadError>,
        now: Instant,
    ) -> (result: Result<(), ClientError>)
        requires
            decoded matches Ok(kind) ==> is_sign_of_life(kind) ==> now.can_add(
                old(self)@.settings.receive_timeout(),
            ),
        ensures
            final(self)@ == after_received(old(self)@, decoded, now),
            match decoded {
                Ok(_) => result is Ok,
                Err(e) => result matches Err(r) && r == ClientError::PacketRead(e),
            },
    {
        match decoded {
            Ok(kind) => {
                match kind {
                    PacketType::Connack | PacketType::Pingresp => self.reset_receive_timeout(now),
                    _ => {},
                }
                Ok(())
            },
            Err(e) => Err(ClientError::PacketRead(e)),
        }
    }
}

/// A packet that ends the connection is to be sent.
pub struct Disconnecting<const N: usize> {
    /// The packet to send.
    pub packet: PacketBin<N>,

    /// How long sending may take.
    pub timeout: Duration,

    /// The mark of this step.
    pub step: Step<DISCONNECTING>,
}

/// A packet without any bytes is to be sent. There is room for it in the queue only once
/// the packet before it has made it to the network.
pub struct DisconnectFlushing<const N: usize> {
    /// The packet to send.
    pub packet: PacketBin<N>,

    /// How long sending may take.
    pub timeout: Duration,

    /// The mark of this step.
    pub step: Step<DISCONNECT_FLUSHING>,
}

/// The client state has to note that the connection ended.
pub struct DisconnectRecording {
    /// The mark of this step.
    pub step: Step<DISCONNECT_RECORDING>,
}

impl<const N: usize, const P: usize> PollClient<N, P> {
    /// Ends the connection, with the reason "success" and no properties.
    pub fn disconnect(&self) -> (next: Result<Disconnecting<N>, ClientError>)
        ensures
            match next {
                Ok(s) => N >= 2 && s.packet@ == disconnect_bytes() && s.timeout
                    == self@.settings.send_packet_timeout(),
                Err(e) => N < 2 && is_overflow(e),
            },
    {
        match PacketBin::disconnect() {
            Ok(packet) => Ok(self.disconnect_with_packet(packet)),
            Err(e) => Err(ClientError::PacketWrite(e)),
        }
    }

    /// Ends the connection with the given packet.
    pub fn disconnect_with_packet(&self, packet: PacketBin<N>) -> (next: Disconnecting<N>)
        ensures
            next.packet == packet,
            next.timeout == self@.settings.send_packet_timeout(),
    {
        Disconnecting { packet, timeout: self.settings.send_packet_timeout, step: Step::mark() }
    }
}

impl<const N: usize> Disconnecting<N> {
    /// The packet was queued, or could not be.
    pub fn sent(self, result: Result<(), ClientError>) -> (next: Result<
        DisconnectFlushing<N>,
        ClientError,
    >)
        ensures
            match result {
                Ok(_) => next matches Ok(s) && s.packet@ == Seq::<u8>::empty() && s.timeout
                    == self.timeout,
                Err(e) => next matches Err(n) && n == e,
            },
    {
        match result {
            Ok(()) => Ok(
                DisconnectFlushing {
                    packet: PacketBin::empty(),
                    timeout: self.timeout,
                    step: Step::mark(),
                },
            ),
            Err(e) => Err(e),
        }
    }
}

impl<const N: usize> DisconnectFlushing<N> {
    /// The queue was flushed, or could not be.
    pub fn sent(self, result: Result<(), ClientError>) -> (next: Result<
        DisconnectRecording,
        ClientError,
    >)
        ensures
            match result {
                Ok(_) => next is Ok,
                Err(e) => next matches Err(n) && n == e,
            },
    {
        match result {
            Ok(()) => Ok(DisconnectRecording { step: Step::mark() }),
            Err(e) => Err(e),
        }
    }
}

impl DisconnectRecording {
    /// The client state has noted that the connection ended, or refused.
    pub fn recorded(self, result: Result<(), StateError>) -> (done: Result<(), ClientError>)
        ensures
            match result {
                Ok(_) => done is Ok,
                Err(e) => done matches Err(n) && n == ClientError::ClientState(e),
            },
    {
        match result {
            Ok(()) => Ok(()),
            Err(e) => Err(ClientError::ClientState(e)),
        }
    }
}

/// What a subscription is requested for.
pub struct Subscription<'b> {
    /// The topic to subscribe to.
    pub topic_name: &'b str,

    /// The highest quality of service at which messages may come.
    pub maximum_qos: mountain_mqtt::data::quality_of_service::QualityOfService,
}

/// The subscription that is to end.
pub struct Unsubscription<'b> {
    /// The topic of the subscription.
    pub topic_name: &'b str,
}

/// A message to publish.
pub struct Publication<'b, const PP: usize> {
    /// The topic to publish to.
    pub topic_name: &'b str,

    /// The content of the message.
    pub payload: &'b [u8],

    /// The quality of service of the message.
    pub qos: mountain_mqtt::data::quality_of_service::QualityOfService,

    /// Whether the server is to retain the message.
    pub retain: bool,

    /// The properties of the publish packet.
    pub properties: heapless::Vec<mountain_mqtt::data::property::PublishProperty<'b>, PP>,
}

/// How many properties a list without room for any holds.
pub uninterp spec fn publish_property_count(
    properties: heapless::Vec<mountain_mqtt::data::property::PublishProperty<'_>, 0>,
) -> nat;

/// Calls `heapless::Vec::new`: the list holds nothing.
#[verifier::external_body]
fn no_publish_properties<'b>() -> (properties: heapless::Vec<
    mountain_mqtt::data::property::PublishProperty<'b>,
    0,
>)
    ensures
        publish_property_count(properties) == 0,
{
    heapless::Vec::new()
}

/// The client state has to make the packet for a request.
pub struct Requesting<R> {
    /// What is requested of the server.
    pub request: R,

    /// How long sending may take.
    pub timeout: Duration,

    /// The mark of this step.
    pub step: Step<REQUESTING>,
}

/// The packet of a request is to be sent.
pub struct RequestSending<T> {
    /// The packet that the client state made.
    pub packet: T,

    /// How long sending may take.
    pub timeout: Duration,

    /// The mark of this step.
    pub step: Step<REQUEST_SENDING>,
}

/// The packet of a request was sent, and the client state has to note it.
pub struct RequestRecording<T> {
    /// The packet that was sent.
    pub packet: T,

    /// The mark of this step.
    pub step: Step<REQUEST_RECORDING>,
}

impl<const N: usize, const P: usize> PollClient<N, P> {
    /// Requests a subscription. Until the server has answered, the client can make no
    /// other request that needs an answer.
    pub fn subscribe<'b>(
        &self,
        topic_name: &'b str,
        maximum_qos: mountain_mqtt::data::quality_of_service::QualityOfService,
    ) -> (next: Requesting<Subscription<'b>>)
        ensures
            next.request == (Subscription { topic_name, maximum_qos }),
            next.timeout == self@.settings.send_packet_timeout(),
    {
        self.request(Subscription { topic_name, maximum_qos })
    }

    /// Requests the end of a subscription. Until the server has answered, the client can
    /// make no other request that needs an answer.
    pub fn unsubscribe<'b>(&self, topic_name: &'b str) -> (next: Requesting<Unsubscription<'b>>)
        ensures
            next.request == (Unsubscription { topic_name }),
            next.timeout == self@.settings.send_packet_timeout(),
    {
        self.request(Unsubscription { topic_name })
    }

    /// Publishes a message without properties. If the server has to answer, the client can
    /// make no other request that needs an answer before it did.
    pub fn publish<'b>(
        &self,
        topic_name: &'b str,
        payload: &'b [u8],
        qos: mountain_mqtt::data::quality_of_service::QualityOfService,
        retain: bool,
    ) -> (next: Requesting<Publication<'b, 0>>)
        ensures
            next.request.topic_name == topic_name,
            next.request.payload == payload,
            next.request.qos == qos,
            next.request.retain == retain,
            publish_property_count(next.request.properties) == 0,
            next.timeout == self@.settings.send_packet_timeout(),
    {
        self.publish_with_properties(topic_name, payload, qos, retain, no_publish_properties())
    }

    /// Publishes a message with the given properties. If the server has to answer, the
    /// client can make no other request that needs an answer before it did.
    pub fn publish_with_properties<'b, const PP: usize>(
        &self,
        topic_name: &'b str,
        payload: &'b [u8],
        qos: mountain_mqtt::data::quality_of_service::QualityOfService,
        retain: bool,
        properties: heapless::Vec<mountain_mqtt::data::property::PublishProperty<'b>, PP>,
    ) -> (next: Requesting<Publication<'b, PP>>)
        ensures
            next.request == (Publication { topic_name, payload, qos, retain, properties }),
            next.timeout == self@.settings.send_packet_timeout(),
    {
        self.request(Publication { topic_name, payload, qos, retain, properties })
    }

    fn request<R>(&self, request: R) -> (next: Requesting<R>)
        ensures
            next.request == request,
            next.timeout == self@.settings.send_packet_timeout(),
    {
        Requesting { request, timeout: self.settings.send_packet_timeout, step: Step::mark() }
    }
}

impl<R> Requesting<R> {
    /// The client state has made the packet, or refused the request: then nothing is sent.
    pub fn built<T>(self, result: Result<T, StateError>) -> (next: Result<
        RequestSending<T>,
        ClientError,
    >)
        ensures
            match result {
                Ok(packet) => next matches Ok(s) && s.packet == packet && s.timeout == self.timeout,
                Err(e) => next matches Err(n) && n == ClientError::ClientState(e),
            },
    {
        match result {
            Ok(packet) => Ok(
                RequestSending { packet, timeout: self.timeout, step: Step::mark() },
            ),
            Err(e) => Err(ClientError::ClientState(e)),
        }
    }
}

impl<T> RequestSending<T> {
    /// The packet was sent, or could not be: then the client state does not learn of it.
    /// It is the packet that was sent of which the client state learns.
    pub fn sent(self, result: Result<(), ClientError>) -> (next: Result<
        RequestRecording<T>,
        ClientError,
    >)
        ensures
            match result {
                Ok(_) => next matches Ok(r) && r.packet == self.packet,
                Err(e) => next matches Err(n) && n == e,
            },
    {
        match result {
            Ok(()) => Ok(RequestRecording { packet: self.packet, step: Step::mark() }),
            Err(e) => Err(e),
        }
    }
}

impl<T> RequestRecording<T> {
    /// The client state has noted that the packet was sent, or refused.
    pub fn recorded(self, result: Result<(), StateError>) -> (done: Result<(), ClientError>)
        ensures
            match result {
                Ok(_) => done is Ok,
                Err(e) => done matches Err(n) && n == ClientError::ClientState(e),
            },
    {
        match result {
            Ok(()) => Ok(()),
            Err(e) => Err(ClientError::ClientState(e)),
        }
    }
}

/// The client state has to tell what a packet is to be answered with.
pub struct ProcessResponding<'b, const N: usize> {
    /// The packet.
    pub packet: &'b PacketBin<N>,

    /// How long sending may take.
    pub timeout: Duration,

    /// The mark of this step.
    pub step: Step<PROCESS_RESPONDING>,
}

/// What comes before the client state takes a packet.
pub enum ProcessResponse<'b, const N: usize, T> {
    /// Send an answer.
    Send(ProcessSending<'b, N, T>),

    /// Nothing: hand the packet over.
    Receive(ProcessReceiving<'b, N>),
}

/// An answer to a packet is to be sent.
pub struct ProcessSending<'b, const N: usize, T> {
    /// The packet.
    pub packet: &'b PacketBin<N>,

    /// The answer.
    pub response: T,

    /// How long sending may take.
    pub timeout: Duration,

    /// The mark of this step.
    pub step: Step<PROCESS_SENDING>,
}

/// The client state has to take the packet.
pub struct ProcessReceiving<'b, const N: usize> {
    /// The packet.
    pub packet: &'b PacketBin<N>,

    /// The mark of this step.
    pub step: Step<PROCESS_RECEIVING>,
}

impl<const N: usize, const P: usize> PollClient<N, P> {
    /// Handles a received packet: decodes it, takes note of it, sends the answer that it
    /// needs, lets the client state take it, and reports what it was. Until the answer has
    /// been sent, the client state does not learn of the packet.
    pub fn process<'b>(&mut self, packet_bin: &'b PacketBin<N>, now: Instant) -> (next: Result<
        ProcessResponding<'b, N>,
        ClientError,
    >)
        requires
            starts_as_sign_of_life(packet_bin@) ==> now.can_add(
                old(self)@.settings.receive_timeout(),
            ),
        ensures
            final(self)@ == old(self)@.changed(
                Change::Received { decoded: decoded_kind(packet_bin@, P as nat), now },
            ),
            process_answer(
                old(self)@,
                *packet_bin,
                decoded_kind(packet_bin@, P as nat),
                now,
                next,
            ),
            final(self)@.ping_at == old(self)@.ping_at,
            final(self)@.connection_start == old(self)@.connection_start,
            final(self)@.settings == old(self)@.settings,
            timeout_moves(old(self)@, decoded_kind(packet_bin@, P as nat), now, final(self)@.receive_timeout_at),
            match decoded_kind(packet_bin@, P as nat) {
                Err(e) => next matches Err(n) && n == ClientError::PacketRead(e),
                Ok(kind) => if kind == PacketType::Connack || kind == PacketType::Pingresp {
                    next matches Ok(s) && *s.packet == *packet_bin
                } else {
                    match old(self)@.receive_timeout_at {
                        Some(end) if end.ticks < now.ticks => next matches Err(n) && n
                            == ClientError::ReceiveTimeoutServerUnresponsive,
                        _ => next matches Ok(s) && *s.packet == *packet_bin,
                    }
                },
            },
            next matches Ok(s) ==> s.timeout == old(self)@.settings.send_packet_timeout(),
    {
        self.process_decoded(packet_bin, packet_bin.packet_type::<P>(), now)
    }

    /// Handles a received packet that was decoded already, up to where the client state is
    /// to tell what to answer.
    pub fn process_decoded<'b>(
        &mut self,
        packet_bin: &'b PacketBin<N>,
        decoded: Result<PacketType, mountain_mqtt::error::PacketReadError>,
        now: Instant,
    ) -> (next: Result<ProcessResponding<'b, N>, ClientError>)
        requires
            decoded matches Ok(kind) ==> is_sign_of_life(kind) ==> now.can_add(
                old(self)@.settings.receive_timeout(),
            ),
        ensures
            final(self)@ == old(self)@.changed(Change::Received { decoded, now }),
            process_answer(old(self)@, *packet_bin, decoded, now, next),
            final(self)@.ping_at == old(self)@.ping_at,
            final(self)@.connection_start == old(self)@.connection_start,
            final(self)@.settings == old(self)@.settings,
            timeout_moves(old(self)@, decoded, now, final(self)@.receive_timeout_at),
            match decoded {
                Err(e) => next matches Err(n) && n == ClientError::PacketRead(e),
                Ok(kind) => if kind == PacketType::Connack || kind == PacketType::Pingresp {
                    next matches Ok(s) && *s.packet == *packet_bin
                } else {
                    match old(self)@.receive_timeout_at {
                        Some(end) if end.ticks < now.ticks => next matches Err(n) && n
                            == ClientError::ReceiveTimeoutServerUnresponsive,
                        _ => next matches Ok(s) && *s.packet == *packet_bin,
                    }
                },
            },
            next matches Ok(s) ==> s.timeout == old(self)@.settings.send_packet_timeout(),
    {
        match self.note_received(decoded, now) {
            Ok(()) => {},
            Err(e) => {
                return Err(e);
            },
        }
        match self.check_receive_timeout(now) {
            Ok(()) => Ok(
                ProcessResponding {
                    packet: packet_bin,
                    timeout: self.settings.send_packet_timeout,
                    step: Step::mark(),
                },
            ),
            Err(e) => Err(e),
        }
    }
}

/// How handling data that decodes to `decoded` goes on: the packet counts, unless the
/// server was unresponsive for too long before it came, and it is no sign of life.
pub open spec fn process_answer<const N: usize>(
    client: PollClientView,
    packet: PacketBin<N>,
    decoded: Result<PacketType, mountain_mqtt::error::PacketReadError>,
    now: Instant,
    next: Result<ProcessResponding<'_, N>, ClientError>,
) -> bool {
    match decoded {
        Err(e) => next matches Err(n) && n == ClientError::PacketRead(e),
        Ok(kind) => if client.timed_out(now) && !is_sign_of_life(kind) {
            next matches Err(n) && n == ClientError::ReceiveTimeoutServerUnresponsive
        } else {
            next matches Ok(s) && *s.packet == packet && s.timeout
                == client.settings.send_packet_timeout()
        },
    }
}

impl<'b, const N: usize> ProcessResponding<'b, N> {
    /// The client state has told the answer, if one is needed, or refused the packet.
    pub fn response<T>(self, response: Result<Option<T>, StateError>) -> (next: Result<
        ProcessResponse<'b, N, T>,
        ClientError,
    >)
        ensures
            match response {
                Ok(Some(r)) => next matches Ok(ProcessResponse::Send(s)) && s.packet == self.packet
                    && s.response == r && s.timeout == self.timeout,
                Ok(None) => next matches Ok(ProcessResponse::Receive(s)) && s.packet == self.packet,
                Err(e) => next matches Err(n) && n == ClientError::ClientState(e),
            },
    {
        match response {
            Ok(Some(response)) => Ok(
                ProcessResponse::Send(
                    ProcessSending {
                        packet: self.packet,
                        response,
                        timeout: self.timeout,
                        step: Step::mark(),
                    },
                ),
            ),
            Ok(None) => Ok(
                ProcessResponse::Receive(
                    ProcessReceiving { packet: self.packet, step: Step::mark() },
                ),
            ),
            Err(e) => Err(ClientError::ClientState(e)),
        }
    }
}

impl<'b, const N: usize, T> ProcessSending<'b, N, T> {
    /// The answer was sent, or could not be: then the client state does not learn of the
    /// packet.
    pub fn sent(self, result: Result<(), ClientError>) -> (next: Result<
        ProcessReceiving<'b, N>,
        ClientError,
    >)
        ensures
            match result {
                Ok(_) => next matches Ok(r) && r.packet == self.packet,
                Err(e) => next matches Err(n) && n == e,
            },
    {
        match result {
            Ok(()) => Ok(ProcessReceiving { packet: self.packet, step: Step::mark() }),
            Err(e) => Err(e),
        }
    }
}

/// What a client reports of a packet that the client state took. A message without a topic
/// name is an error, since topic aliases are disabled. So is the end of the connection.
pub open spec fn reported<'b, const P: usize>(
    event: ClientStateReceiveEvent<'b, P>,
) -> Result<ClientReceivedEvent<'b, P>, ClientError> {
    match event {
        ClientStateReceiveEvent::Ack => Ok(ClientReceivedEvent::Ack),
        ClientStateReceiveEvent::Publish { publish }
        | ClientStateReceiveEvent::PublishAndPuback { publish } => {
            if publish.topic_name@.len() == 0 {
                Err(ClientError::EmptyTopicNameWithAliasesDisabled)
            } else {
                Ok(ClientReceivedEvent::ApplicationMessage(publish))
            }
        },
        ClientStateReceiveEvent::SubscriptionGrantedBelowMaximumQos { granted_qos, maximum_qos } => Ok(
            ClientReceivedEvent::SubscriptionGrantedBelowMaximumQos { granted_qos, maximum_qos },
        ),
        ClientStateReceiveEvent::PublishedMessageHadNoMatchingSubscribers => Ok(
            ClientReceivedEvent::PublishedMessageHadNoMatchingSubscribers,
        ),
        ClientStateReceiveEvent::NoSubscriptionExisted => Ok(
            ClientReceivedEvent::NoSubscriptionExisted,
        ),
        ClientStateReceiveEvent::Disconnect { reason_code } => Err(
            ClientError::Disconnected(reason_code),
        ),
    }
}

impl<'b, const N: usize> ProcessReceiving<'b, N> {
    /// The client state has taken the packet, or refused it.
    pub fn received<'e, const P: usize>(
        self,
        result: Result<ClientStateReceiveEvent<'e, P>, StateError>,
    ) -> (event: Result<ClientReceivedEvent<'e, P>, ClientError>)
        ensures
            match result {
                Ok(taken) => event == reported(taken),
                Err(e) => event matches Err(n) && n == ClientError::ClientState(e),
            },
    {
        match result {
            Ok(ClientStateReceiveEvent::Ack) => Ok(ClientReceivedEvent::Ack),
            Ok(ClientStateReceiveEvent::Publish { publish })
            | Ok(ClientStateReceiveEvent::PublishAndPuback { publish }) => {
                if publish.topic_name.is_empty() {
                    return Err(ClientError::EmptyTopicNameWithAliasesDisabled);
                }
                Ok(ClientReceivedEvent::ApplicationMessage(publish))
            },
            Ok(
                ClientStateReceiveEvent::SubscriptionGrantedBelowMaximumQos {
                    granted_qos,
                    maximum_qos,
                },
            ) => Ok(
                ClientReceivedEvent::SubscriptionGrantedBelowMaximumQos { granted_qos, maximum_qos },
            ),
            Ok(ClientStateReceiveEvent::PublishedMessageHadNoMatchingSubscribers) => Ok(
                ClientReceivedEvent::PublishedMessageHadNoMatchingSubscribers,
            ),
            Ok(ClientStateReceiveEvent::NoSubscriptionExisted) => Ok(
                ClientReceivedEvent::NoSubscriptionExisted,
            ),
            Ok(ClientStateReceiveEvent::Disconnect { reason_code }) => Err(
                ClientError::Disconnected(reason_code),
            ),
            Err(e) => Err(ClientError::ClientState(e)),
        }
    }
}

/// `embassy_net::tcp::ConnectError`, carried through unread.
#[verifier::external_type_specification]
#[verifier::external_body]
pub struct ExConnectError(embassy_net::tcp::ConnectError);

/// Why writing to a connected socket failed.
#[derive(Debug, Clone, Copy, PartialEq, Eq, Structural)]
pub enum TcpError {
    /// The connection was reset.
    ConnectionReset,
}

/// Why an MQTT connection ended.
#[derive(Debug)]
pub enum MqttConnectionError {
    /// The socket could not be connected.
    ConnectError(embassy_net::tcp::ConnectError),

    /// The client failed.
    ClientError(ClientError),

    /// The socket could not be written to.
    TcpWriteError(TcpError),
}

impl From<embassy_net::tcp::ConnectError> for MqttConnectionError {
    fn from(value: embassy_net::tcp::ConnectError) -> (error: Self) {
        MqttConnectionError::ConnectError(value)
    }
}

impl vstd::std_specs::convert::FromSpecImpl<embassy_net::tcp::ConnectError> for MqttConnectionError {
    open spec fn obeys_from_spec() -> bool {
        true
    }

    open spec fn from_spec(value: embassy_net::tcp::ConnectError) -> Self {
        MqttConnectionError::ConnectError(value)
    }
}

impl From<ClientError> for MqttConnectionError {
    fn from(value: ClientError) -> (error: Self) {
        MqttConnectionError::ClientError(value)
    }
}

impl vstd::std_specs::convert::FromSpecImpl<ClientError> for MqttConnectionError {
    open spec fn obeys_from_spec() -> bool {
        true
    }

    open spec fn from_spec(value: ClientError) -> Self {
        MqttConnectionError::ClientError(value)
    }
}

/// A socket is to be connected to the server.
pub struct SocketConnecting {
    /// The address of the server.
    pub address: Ipv4Address,

    /// The port of the server.
    pub port: u16,

    /// The settings of the client.
    pub settings: Settings,

    /// The mark of this step.
    pub step: Step<SOCKET_CONNECTING>,
}

/// The socket is connected. Received packets are to be queued for the client, queued
/// packets of the client are to be written, and the client is to be run, until the first
/// of these ends.
pub struct Serving<const N: usize, const P: usize> {
    /// The client to run.
    pub client: PollClient<N, P>,

    /// What takes the end.
    pub end: ServingEnd,
}

/// Takes the end of a connection.
pub struct ServingEnd {
    /// The mark of this step.
    pub step: Step<SERVING_END>,
}

/// What ended a connection.
pub enum Finished {
    /// No further packet could be received.
    Receive(ClientError),

    /// A packet of the client could not be written.
    Write(TcpError),

    /// The client has ended.
    Client(Result<(), ClientError>),
}

/// Runs a client on a connection of its own.
pub fn run_mqtt_connection(settings: Settings) -> (next: SocketConnecting)
    ensures
        (next.address, next.port) == settings.remote_endpoint(),
        next.settings == settings,
{
    SocketConnecting {
        address: settings.address,
        port: settings.port,
        settings,
        step: Step::mark(),
    }
}

impl SocketConnecting {
    /// The socket was connected, or could not be.
    pub fn connected<const N: usize, const P: usize>(
        self,
        result: Result<(), embassy_net::tcp::ConnectError>,
    ) -> (next: Result<Serving<N, P>, MqttConnectionError>)
        ensures
            match result {
                Ok(_) => next matches Ok(s) && s.client@ == PollClientView::fresh(self.settings),
                Err(e) => next matches Err(n) && n == MqttConnectionError::ConnectError(e),
            },
    {
        match result {
            Ok(()) => Ok(
                Serving {
                    client: PollClient::new(self.settings),
                    end: ServingEnd { step: Step::mark() },
                },
            ),
            Err(e) => Err(MqttConnectionError::from(e)),
        }
    }
}

impl ServingEnd {
    /// The connection has ended. It only ends well with the client.
    pub fn finished(self, finished: Finished) -> (result: Result<(), MqttConnectionError>)
        ensures
            match finished {
                Finished::Receive(e) => result matches Err(r) && r
                    == MqttConnectionError::ClientError(e),
                Finished::Write(_) => result matches Err(r) && r == MqttConnectionError::ClientError(
                    ClientError::PacketWrite(SendError::ConnectionSend),
                ),
                Finished::Client(Ok(_)) => result is Ok,
                Finished::Client(Err(e)) => result matches Err(r) && r
                    == MqttConnectionError::ClientError(e),
            },
    {
        match finished {
            Finished::Receive(e) => Err(MqttConnectionError::from(e)),
            Finished::Write(_) => Err(
                MqttConnectionError::ClientError(ClientError::PacketWrite(SendError::ConnectionSend)),
            ),
            Finished::Client(Ok(())) => Ok(()),
            Finished::Client(Err(e)) => Err(MqttConnectionError::from(e)),
        }
    }
}

} // verus!
