//! What holds of every run of a client.

use vstd::prelude::*;

use crate::error::{ClientError, SendError};
use crate::message::{ApplicationMessage, ClientReceivedEvent, ClientStateReceiveEvent};
use crate::packet_bin::{PacketBin, PacketType};
use crate::poll_client::{
    Change, ConnectPacket, ConnectProperty, ConnectionSettings, MqttConnectionError, PingSending,
    PollClientView, ProcessResponding, Settings,
};
use crate::poll_client::{after_received, connect_properties, introduces, is_overflow};
use crate::poll_client::{is_sign_of_life, process_answer, reported, starts_as_sign_of_life};
use crate::time::Instant;

verus! {

/// A call of an operation that can change a client. Where the operation hands out a ping,
/// `sent` is when it was sent and noted: there is no such time if it was not, because
/// sending failed or the call was dropped.
pub enum Call {
    /// Sending the connect packet.
    SendConnect { now: Instant },

    /// Handling received data.
    Receive {
        decoded: Result<PacketType, mountain_mqtt::error::PacketReadError>,
        now: Instant,
    },

    /// Noting that the server accepted the connection.
    Connect,

    /// Sending a ping if one is needed.
    PingIfNeeded { now: Instant, sent: Option<Instant> },

    /// Taking a packet if there is one.
    TryReceive { now: Instant, sent: Option<Instant> },

    /// Reaching the time of the next ping while waiting for a packet.
    AwaitPing { now: Instant, sent: Option<Instant> },
}

impl Call {
    /// What the operation does, while the server has `pending_ping_count` pings to answer.
    pub open spec fn change(self, pending_ping_count: u32) -> Change {
        match self {
            Call::SendConnect { now } => Change::ConnectSent { now },
            Call::Receive { decoded, now } => Change::Received { decoded, now },
            Call::Connect => Change::Connected,
            Call::PingIfNeeded { now, .. } => Change::PingIfNeeded { pending_ping_count, now },
            Call::TryReceive { now, .. } => Change::TryReceive { pending_ping_count, now },
            Call::AwaitPing { now, .. } => Change::PingDue { pending_ping_count, now },
        }
    }

    /// When the operation attempts a ping, if it does.
    pub open spec fn pings_at(self) -> Option<Instant> {
        match self {
            Call::PingIfNeeded { now, .. } => Some(now),
            Call::TryReceive { now, .. } => Some(now),
            Call::AwaitPing { now, .. } => Some(now),
            _ => None,
        }
    }

    /// When a ping that the operation hands out was sent.
    pub open spec fn ping_sent(self) -> Option<Instant> {
        match self {
            Call::PingIfNeeded { sent, .. } => sent,
            Call::TryReceive { sent, .. } => sent,
            Call::AwaitPing { sent, .. } => sent,
            _ => None,
        }
    }

    /// Whether the call handles the answer to a ping.
    pub open spec fn is_pingresp(self) -> bool {
        self matches Call::Receive { decoded: Ok(PacketType::Pingresp), .. }
    }

    /// The time of a call that gives the server the whole timeout again.
    pub open spec fn sign_of_life(self) -> Option<Instant> {
        match self {
            Call::SendConnect { now } => Some(now),
            Call::Receive { decoded: Ok(kind), now } if is_sign_of_life(kind) => Some(now),
            _ => None,
        }
    }
}

/// The time of the last sign of life, where the connect packet counts as the first.
pub open spec fn last_sign_of_life(calls: Seq<Call>) -> Option<Instant>
    decreases calls.len(),
{
    if calls.len() == 0 {
        None
    } else {
        match calls.last().sign_of_life() {
            Some(now) => Some(now),
            None => last_sign_of_life(calls.drop_last()),
        }
    }
}

/// A client, together with the number of pings that its client state counts as pending:
/// each ping that was sent raises it by one, and each answer lowers it by one.
pub struct Session {
    /// The client.
    pub client: PollClientView,

    /// How many pings the server has to answer.
    pub pending_ping_count: u32,
}

impl Session {
    /// Before anything was sent or received.
    pub open spec fn fresh(settings: Settings) -> Session {
        Session { client: PollClientView::fresh(settings), pending_ping_count: 0 }
    }

    /// Whether a call attempts a ping.
    pub open spec fn attempts_ping(self, call: Call) -> bool {
        self.client.attempts_ping(call.change(self.pending_ping_count))
    }

    /// Whether a call sends a ping.
    pub open spec fn sends_ping(self, call: Call) -> bool {
        self.client.hands_out_ping(call.change(self.pending_ping_count)) && call.ping_sent() is Some
    }

    /// After a call. A ping that the operation hands out is sent and noted before the call
    /// ends.
    pub open spec fn called(self, call: Call) -> Session {
        let client = self.client.changed(call.change(self.pending_ping_count));
        if self.sends_ping(call) {
            Session {
                client: client.changed(Change::PingSent { now: call.ping_sent()->0 }),
                pending_ping_count: (self.pending_ping_count + 1) as u32,
            }
        } else if call.is_pingresp() && self.pending_ping_count > 0 {
            Session { client, pending_ping_count: (self.pending_ping_count - 1) as u32 }
        } else {
            Session { client, ..self }
        }
    }

    /// After a number of calls.
    pub open spec fn after(self, calls: Seq<Call>) -> Session
        decreases calls.len(),
    {
        if calls.len() == 0 {
            self
        } else {
            self.after(calls.drop_last()).called(calls.last())
        }
    }

    /// Whether no call of a run sets the time of the next ping.
    pub open spec fn schedules_no_ping(self, calls: Seq<Call>) -> bool
        decreases calls.len(),
    {
        calls.len() == 0 || {
            &&& self.schedules_no_ping(calls.drop_last())
            &&& !(calls.last() is Connect)
            &&& !self.after(calls.drop_last()).attempts_ping(calls.last())
        }
    }
}

/// The server counts as unresponsive from the end of the timeout after its last sign of
/// life, where sending the connect packet counts as the first. Before that packet is sent
/// it never does. Nothing else matters: no other packet, and no ping that is sent.
pub proof fn law_timeout_follows_sign_of_life(settings: Settings, calls: Seq<Call>)
    ensures
        Session::fresh(settings).after(calls).client.settings == settings,
        Session::fresh(settings).after(calls).client.receive_timeout_at == match last_sign_of_life(
            calls,
        ) {
            Some(at) => Some(at.plus(settings.receive_timeout())),
            None => None,
        },
    decreases calls.len(),
{
    if calls.len() > 0 {
        law_timeout_follows_sign_of_life(settings, calls.drop_last());
    }
}

/// A client reports the server as unresponsive exactly if its last sign of life is longer
/// ago than the timeout.
pub proof fn law_unresponsive_if_silent(
    settings: Settings,
    calls: Seq<Call>,
    last: Instant,
    now: Instant,
)
    requires
        last_sign_of_life(calls) == Some(last),
        last.can_add(settings.receive_timeout()),
    ensures
        Session::fresh(settings).after(calls).client.timed_out(now) <==> last.longer_ago_than(
            settings.receive_timeout(),
            now,
        ),
{
    law_timeout_follows_sign_of_life(settings, calls);
}

/// A sign of life is always accepted, even if it comes after the timeout.
pub proof fn law_sign_of_life_is_accepted<const N: usize>(
    client: PollClientView,
    packet: PacketBin<N>,
    kind: PacketType,
    now: Instant,
    next: Result<ProcessResponding<'_, N>, ClientError>,
)
    requires
        is_sign_of_life(kind),
        now.can_add(client.settings.receive_timeout()),
        process_answer(client, packet, Ok(kind), now, next),
    ensures
        !after_received(client, Ok(kind), now).timed_out(now),
        next is Ok,
{
}

/// No ping is due, and none is sent, before the server accepted the connection.
pub proof fn law_no_ping_before_connected(
    settings: Settings,
    calls: Seq<Call>,
    call: Call,
    now: Instant,
)
    requires
        forall|i: int| 0 <= i < calls.len() ==> !(#[trigger] calls[i] is Connect),
    ensures
        !Session::fresh(settings).after(calls).client.ping_needed(now),
        !Session::fresh(settings).after(calls).sends_ping(call),
{
    lemma_no_ping_time(settings, calls);
}

proof fn lemma_no_ping_time(settings: Settings, calls: Seq<Call>)
    requires
        forall|i: int| 0 <= i < calls.len() ==> !(#[trigger] calls[i] is Connect),
    ensures
        Session::fresh(settings).after(calls).client.ping_at is None,
    decreases calls.len(),
{
    if calls.len() > 0 {
        assert forall|i: int| 0 <= i < calls.drop_last().len() implies !(
        #[trigger] calls.drop_last()[i] is Connect) by {
            assert(calls.drop_last()[i] == calls[i]);
        }
        lemma_no_ping_time(settings, calls.drop_last());
        assert(!(calls[calls.len() - 1] is Connect));
    }
}

/// The first ping is needed once the connect packet is longer ago than the interval.
pub proof fn law_first_ping(
    client: PollClientView,
    sent: Instant,
    decoded: Result<PacketType, mountain_mqtt::error::PacketReadError>,
    received: Instant,
    now: Instant,
)
    requires
        sent.can_add(client.settings.ping_interval()),
    ensures
        client.changed(Change::ConnectSent { now: sent }).changed(
            Change::Received { decoded, now: received },
        ).changed(Change::Connected).ping_needed(now) <==> sent.longer_ago_than(
            client.settings.ping_interval(),
            now,
        ),
{
}

/// After a ping, the next is needed once that one is longer ago than the interval, unless
/// a ping was attempted meanwhile.
pub proof fn law_next_ping(session: Session, call: Call, calls: Seq<Call>, now: Instant)
    requires
        session.sends_ping(call),
        call.ping_sent() matches Some(sent) ==> sent.can_add(
            session.client.settings.ping_interval(),
        ),
        session.called(call).schedules_no_ping(calls),
    ensures
        call.ping_sent() matches Some(sent) && (session.called(call).after(calls).client.ping_needed(
            now,
        ) <==> sent.longer_ago_than(session.client.settings.ping_interval(), now)),
{
    lemma_ping_time_stays(session.called(call), calls);
}

/// A ping that was put off is needed again once that is longer ago than the delay.
pub proof fn law_ping_is_retried(
    session: Session,
    call: Call,
    delayed: Instant,
    calls: Seq<Call>,
    now: Instant,
)
    requires
        session.attempts_ping(call),
        session.pending_ping_count > 0,
        call.pings_at() == Some(delayed),
        delayed.can_add(session.client.settings.ping_retry_delay()),
        session.called(call).schedules_no_ping(calls),
    ensures
        session.called(call).after(calls).client.ping_needed(now) <==> delayed.longer_ago_than(
            session.client.settings.ping_retry_delay(),
            now,
        ),
{
    lemma_ping_time_stays(session.called(call), calls);
}

proof fn lemma_ping_time_stays(session: Session, calls: Seq<Call>)
    requires
        session.schedules_no_ping(calls),
    ensures
        session.after(calls).client.ping_at == session.client.ping_at,
    decreases calls.len(),
{
    if calls.len() > 0 {
        lemma_ping_time_stays(session, calls.drop_last());
    }
}

/// The server never has more than one ping to answer, whatever operations are called.
pub proof fn law_one_ping_at_a_time(settings: Settings, calls: Seq<Call>)
    ensures
        Session::fresh(settings).after(calls).pending_ping_count <= 1,
    decreases calls.len(),
{
    if calls.len() > 0 {
        law_one_ping_at_a_time(settings, calls.drop_last());
    }
}

/// Between two pings, an answer to a ping is handled: without one, no second ping is sent.
pub proof fn law_ping_waits_for_answer(
    session: Session,
    first: Call,
    calls: Seq<Call>,
    second: Call,
)
    requires
        session.sends_ping(first),
        forall|i: int| 0 <= i < calls.len() ==> !(#[trigger] calls[i]).is_pingresp(),
    ensures
        !session.called(first).after(calls).sends_ping(second),
{
    lemma_ping_stays_unanswered(session.called(first), calls);
}

proof fn lemma_ping_stays_unanswered(session: Session, calls: Seq<Call>)
    requires
        session.pending_ping_count == 1,
        forall|i: int| 0 <= i < calls.len() ==> !(#[trigger] calls[i]).is_pingresp(),
    ensures
        session.after(calls).pending_ping_count == 1,
    decreases calls.len(),
{
    if calls.len() > 0 {
        assert forall|i: int| 0 <= i < calls.drop_last().len() implies !(
        #[trigger] calls.drop_last()[i]).is_pingresp() by {
            assert(calls.drop_last()[i] == calls[i]);
        }
        lemma_ping_stays_unanswered(session, calls.drop_last());
        assert(!calls[calls.len() - 1].is_pingresp());
    }
}

/// Until a ping was sent, handing it out has changed nothing: a client that is dropped
/// while it sends a ping is as it was before.
pub proof fn law_interrupted_ping_changes_nothing(client: PollClientView, change: Change)
    requires
        client.hands_out_ping(change),
    ensures
        client.changed(change) == client,
{
}

/// Handling a packet that was interrupted can be done again, as if it was done for the
/// first time.
pub proof fn law_processing_can_be_repeated<const N: usize>(
    client: PollClientView,
    packet: PacketBin<N>,
    decoded: Result<PacketType, mountain_mqtt::error::PacketReadError>,
    interrupted: Instant,
    now: Instant,
    next: Result<ProcessResponding<'_, N>, ClientError>,
)
    ensures
        ({
            let again = client.changed(Change::Received { decoded, now: interrupted });
            &&& again.changed(Change::Received { decoded, now }) == client.changed(
                Change::Received { decoded, now },
            )
            &&& process_answer(again, packet, decoded, now, next) <==> process_answer(
                client,
                packet,
                decoded,
                now,
                next,
            )
        }),
{
}

/// A packet of any kind goes on to the client state unless the last sign of life is longer
/// ago than the timeout. Only then, and only if it is no sign of life itself, is it refused,
/// and then as from an unresponsive server.
pub proof fn law_packet_in_time_is_processed<const N: usize>(
    settings: Settings,
    calls: Seq<Call>,
    last: Instant,
    packet: PacketBin<N>,
    kind: PacketType,
    now: Instant,
    next: Result<ProcessResponding<'_, N>, ClientError>,
)
    requires
        last_sign_of_life(calls) == Some(last),
        last.ticks + settings.receive_timeout().ticks <= u64::MAX,
        process_answer(Session::fresh(settings).after(calls).client, packet, Ok(kind), now, next),
    ensures
        now.ticks <= last.ticks + settings.receive_timeout().ticks ==> (next matches Ok(s)
            && *s.packet == packet && s.timeout == settings.send_packet_timeout()),
        kind is Connack || kind is Pingresp ==> (next matches Ok(s) && *s.packet == packet
            && s.timeout == settings.send_packet_timeout()),
        next matches Err(e) ==> e == ClientError::ReceiveTimeoutServerUnresponsive && now.ticks
            > last.ticks + settings.receive_timeout().ticks,
        now.ticks > last.ticks + settings.receive_timeout().ticks && !(kind is Connack) && !(
        kind is Pingresp) ==> next is Err,
{
    law_timeout_follows_sign_of_life(settings, calls);
}

/// Before the connect packet was sent, and before any sign of life, no packet is refused.
pub proof fn law_packet_before_connect_is_processed<const N: usize>(
    settings: Settings,
    calls: Seq<Call>,
    packet: PacketBin<N>,
    kind: PacketType,
    now: Instant,
    next: Result<ProcessResponding<'_, N>, ClientError>,
)
    requires
        last_sign_of_life(calls) is None,
        process_answer(Session::fresh(settings).after(calls).client, packet, Ok(kind), now, next),
    ensures
        next matches Ok(s) && *s.packet == packet,
{
    law_timeout_follows_sign_of_life(settings, calls);
}

/// Data that does not decode is refused for that reason, whatever the time.
pub proof fn law_unreadable_packet_is_refused<const N: usize>(
    client: PollClientView,
    packet: PacketBin<N>,
    e: mountain_mqtt::error::PacketReadError,
    now: Instant,
    next: Result<ProcessResponding<'_, N>, ClientError>,
)
    requires
        process_answer(client, packet, Err(e), now, next),
    ensures
        next matches Err(n) && n == ClientError::PacketRead(e),
        client.changed(Change::Received { decoded: Err(e), now }) == client,
{
}

/// The sign of life of a run is that of its last call that is one: the connect packet, a
/// connack or a pingresp, and nothing else.
pub proof fn law_signs_of_life(calls: Seq<Call>, call: Call)
    ensures
        call matches Call::SendConnect { now } ==> last_sign_of_life(calls.push(call)) == Some(now),
        call matches Call::Receive { decoded: Ok(kind), now } ==> last_sign_of_life(
            calls.push(call),
        ) == (if kind is Connack || kind is Pingresp {
            Some(now)
        } else {
            last_sign_of_life(calls)
        }),
        !(call is SendConnect) && !(call matches Call::Receive { decoded: Ok(_), .. })
            ==> last_sign_of_life(calls.push(call)) == last_sign_of_life(calls),
        last_sign_of_life(Seq::empty()) is None,
{
    assert(calls.push(call).drop_last() == calls);
}

/// A ping is handed out whenever the time of the next one has passed and the server has
/// none to answer, as long as the server does not count as unresponsive where that is
/// checked first. It is handed out in no other case.
pub proof fn law_due_ping_is_handed_out(client: PollClientView, now: Instant, count: u32)
    ensures
        client.hands_out_ping(Change::PingIfNeeded { pending_ping_count: count, now }) <==> count
            == 0 && (client.ping_at matches Some(at) && at.ticks < now.ticks),
        client.hands_out_ping(Change::TryReceive { pending_ping_count: count, now }) <==> count == 0
            && (client.ping_at matches Some(at) && at.ticks < now.ticks) && !(
        client.receive_timeout_at matches Some(end) && end.ticks < now.ticks),
        client.hands_out_ping(Change::PingDue { pending_ping_count: count, now }) <==> count == 0
            && client.ping_at is Some,
{
}

/// On a connection on which the server answers, pings go on: once the last ping is longer
/// ago than the interval, the next call hands out another.
pub proof fn law_pings_go_on(session: Session, call: Call, sent: Instant, calls: Seq<Call>, now: Instant)
    requires
        session.sends_ping(call),
        call.ping_sent() == Some(sent),
        sent.ticks + session.client.settings.ping_interval().ticks <= u64::MAX,
        session.called(call).schedules_no_ping(calls),
        now.ticks > sent.ticks + session.client.settings.ping_interval().ticks,
    ensures
        ({
            let client = session.called(call).after(calls).client;
            &&& client.hands_out_ping(Change::PingIfNeeded { pending_ping_count: 0, now })
            &&& (client.receive_timeout_at matches Some(end) ==> now.ticks <= end.ticks)
                ==> client.hands_out_ping(Change::TryReceive { pending_ping_count: 0, now })
        }),
{
    lemma_ping_time_stays(session.called(call), calls);
}

/// A call that attempts a ping moves the time of the next one only by putting it off, by
/// the delay, and only while the server has a ping to answer. It changes nothing else.
pub proof fn law_attempt_only_puts_off(client: PollClientView, change: Change, count: u32, now: Instant)
    requires
        ({
            ||| change == Change::PingIfNeeded { pending_ping_count: count, now }
            ||| change == Change::TryReceive { pending_ping_count: count, now }
            ||| change == Change::PingDue { pending_ping_count: count, now }
        }),
        now.ticks + client.settings.ping_retry_delay().ticks <= u64::MAX,
    ensures
        ({
            let after = client.changed(change);
            let due = client.ping_at matches Some(at) && (at.ticks < now.ticks || change is PingDue);
            let late = client.receive_timeout_at matches Some(end) && end.ticks < now.ticks;
            &&& after.receive_timeout_at == client.receive_timeout_at
            &&& after.connection_start == client.connection_start
            &&& after.settings == client.settings
            &&& if due && count > 0 && !(late && change is TryReceive) {
                after.ping_at matches Some(at) && at.ticks == now.ticks
                    + client.settings.ping_retry_delay().ticks
            } else {
                after.ping_at == client.ping_at
            }
        }),
{
}

/// A ping that was sent moves the time of the next one to the end of the interval, and
/// changes nothing else.
pub proof fn law_sent_ping_starts_interval(client: PollClientView, now: Instant)
    requires
        now.ticks + client.settings.ping_interval().ticks <= u64::MAX,
    ensures
        ({
            let after = client.changed(Change::PingSent { now });
            &&& after.ping_at matches Some(at)
            &&& at.ticks == now.ticks + client.settings.ping_interval().ticks
            &&& after.receive_timeout_at == client.receive_timeout_at
            &&& after.connection_start == client.connection_start
            &&& after.settings == client.settings
        }),
{
}

/// Sending the connect packet starts the timeout and fixes when pings are due later. It
/// makes no ping due.
pub proof fn law_connect_packet_starts_timeout(client: PollClientView, now: Instant)
    requires
        now.ticks + client.settings.receive_timeout().ticks <= u64::MAX,
    ensures
        ({
            let after = client.changed(Change::ConnectSent { now });
            &&& after.receive_timeout_at matches Some(end)
            &&& end.ticks == now.ticks + client.settings.receive_timeout().ticks
            &&& after.connection_start == Some(now)
            &&& after.ping_at == client.ping_at
            &&& after.settings == client.settings
        }),
{
}

/// Once the server accepted the connection, the first ping is due an interval after the
/// connect packet was sent. Nothing else changes.
pub proof fn law_connection_starts_pings(client: PollClientView, start: Instant)
    requires
        client.connection_start == Some(start),
        start.ticks + client.settings.ping_interval().ticks <= u64::MAX,
    ensures
        ({
            let after = client.changed(Change::Connected);
            &&& after.ping_at matches Some(at)
            &&& at.ticks == start.ticks + client.settings.ping_interval().ticks
            &&& after.receive_timeout_at == client.receive_timeout_at
            &&& after.connection_start == client.connection_start
            &&& after.settings == client.settings
        }),
{
}

/// A connack or a pingresp gives the server the whole timeout again, and nothing else that
/// is received changes a client at all.
pub proof fn law_only_signs_of_life_matter(client: PollClientView, kind: PacketType, now: Instant)
    requires
        now.ticks + client.settings.receive_timeout().ticks <= u64::MAX,
    ensures
        ({
            let after = client.changed(Change::Received { decoded: Ok(kind), now });
            &&& after.ping_at == client.ping_at
            &&& after.connection_start == client.connection_start
            &&& after.settings == client.settings
            &&& if kind is Connack || kind is Pingresp {
                after.receive_timeout_at matches Some(end) && end.ticks == now.ticks
                    + client.settings.receive_timeout().ticks
            } else {
                after.receive_timeout_at == client.receive_timeout_at
            }
        }),
{
}

/// The server counts as unresponsive, and a ping as needed, exactly once their time lies
/// in the past. A client that has sent nothing has neither time.
pub proof fn law_times_have_to_pass(client: PollClientView, settings: Settings, now: Instant)
    ensures
        client.timed_out(now) <==> (client.receive_timeout_at matches Some(end) && now.ticks
            > end.ticks),
        client.ping_needed(now) <==> (client.ping_at matches Some(at) && now.ticks > at.ticks),
        PollClientView::fresh(settings).receive_timeout_at is None,
        PollClientView::fresh(settings).ping_at is None,
        PollClientView::fresh(settings).connection_start is None,
        PollClientView::fresh(settings).settings == settings,
{
}

/// A received packet asks for a new timeout only if its first byte is that of a connack or
/// of a pingresp.
pub proof fn law_first_byte_of_sign_of_life(packet: Seq<u8>)
    ensures
        starts_as_sign_of_life(packet) <==> packet.len() > 0 && (packet[0] / 16 == 2 || packet[0]
            / 16 == 13),
{
}

/// A ping that is to be sent is a ping request, and a packet that does not fit is reported
/// as that.
pub proof fn law_ping_is_a_request<const N: usize, K>(
    ping: PingSending<N, K>,
    settings: Settings,
    e: ClientError,
)
    ensures
        ping.is_ping(settings) <==> ping.packet@ == seq![0xC0u8, 0x00u8] && ping.timeout
            == settings.send_packet_timeout(),
        is_overflow(e) <==> e == ClientError::PacketWrite(SendError::Overflow),
{
}

/// The connect packet that is made from settings differs from any that says something else
/// of the client, that keeps an earlier session, or that lets the server use topic aliases.
pub proof fn law_connect_packet_introduces_client<const W: usize>(
    packet: ConnectPacket<'_, W>,
    settings: ConnectionSettings<'_>,
)
    requires
        introduces(packet, settings),
    ensures
        packet.keep_alive == settings.keep_alive,
        packet.username == settings.username,
        packet.password == settings.password,
        packet.client_id == settings.client_id,
        packet.clean_start,
        connect_properties(packet.properties).len() == 1,
        connect_properties(packet.properties)[0] == ConnectProperty::TopicAliasMaximum(0),
{
}

/// Every message with a topic reaches the application whole, with or without an answer to
/// the server. A message without one is an error.
pub proof fn law_messages_are_reported<'b, const P: usize>(message: ApplicationMessage<'b, P>)
    ensures
        ({
            let plain = reported(ClientStateReceiveEvent::Publish { publish: message });
            let answered = reported(ClientStateReceiveEvent::PublishAndPuback { publish: message });
            &&& plain == answered
            &&& message.topic_name@.len() > 0 ==> (plain matches Ok(
                ClientReceivedEvent::ApplicationMessage(m),
            ) && m == message)
            &&& message.topic_name@.len() == 0 ==> (plain matches Err(e) && e
                == ClientError::EmptyTopicNameWithAliasesDisabled)
        }),
{
}

/// Every other packet is reported as what it is, and a disconnect of the server, with its
/// reason, is an error.
pub proof fn law_other_events_are_reported<'b, const P: usize>(event: ClientStateReceiveEvent<'b, P>)
    ensures
        event is Ack ==> (reported(event) matches Ok(r) && r is Ack),
        event matches ClientStateReceiveEvent::SubscriptionGrantedBelowMaximumQos {
            granted_qos,
            maximum_qos,
        } ==> (reported(event) matches Ok(
            ClientReceivedEvent::SubscriptionGrantedBelowMaximumQos {
                granted_qos: granted,
                maximum_qos: maximum,
            },
        ) && granted == granted_qos && maximum == maximum_qos),
        event is PublishedMessageHadNoMatchingSubscribers ==> (reported(event) matches Ok(r)
            && r is PublishedMessageHadNoMatchingSubscribers),
        event is NoSubscriptionExisted ==> (reported(event) matches Ok(r)
            && r is NoSubscriptionExisted),
        event matches ClientStateReceiveEvent::Disconnect { reason_code } ==> (
        reported(event) matches Err(ClientError::Disconnected(reason)) && reason == reason_code),
{
}

/// An error of the client, or of connecting the socket, becomes an error of the connection
/// that tells which it was.
pub proof fn law_connection_errors_are_kept_apart(
    e: ClientError,
    unconnected: embassy_net::tcp::ConnectError,
)
    ensures
        <MqttConnectionError as vstd::std_specs::convert::FromSpec<ClientError>>::from_spec(e)
            == MqttConnectionError::ClientError(e),
        <MqttConnectionError as vstd::std_specs::convert::FromSpec<
            embassy_net::tcp::ConnectError,
        >>::from_spec(unconnected) == MqttConnectionError::ConnectError(unconnected),
{
}

} // verus!
