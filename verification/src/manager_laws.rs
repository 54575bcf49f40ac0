//! What holds of every run of the manager.

use vstd::prelude::*;

use crate::error::ClientError;
use crate::manager_model::{Announcement, Input, ManagerView, Phase};
use crate::mqtt_manager::{
    ChannelEventHandler, ConnectionId, Error, MqttEvent, Next, Progress, Settings, State,
};
use crate::time::Instant;

verus! {

impl<A> Input<A> {
    /// The time of an input.
    pub open spec fn time(self) -> Option<Instant> {
        match self {
            Input::Dialed { now, .. } => Some(now),
            Input::Waited { now } => Some(now),
            Input::Announced { now } => Some(now),
            Input::Pinged { now, .. } => Some(now),
            Input::Acked { now } => Some(now),
            _ => None,
        }
    }

    /// The error of the client that an input tells of.
    pub open spec fn client_error(self) -> Option<ClientError> {
        match self {
            Input::Connected { result: Err(e) } => Some(e),
            Input::Pinged { result: Err(e), .. } => Some(e),
            Input::Polled { result: Err(e) } => Some(e),
            Input::Performed { result: Err(e), .. } => Some(e),
            _ => None,
        }
    }
}

impl<A> ManagerView<A> {
    /// Whether the manager waits for an input of this kind.
    pub open spec fn expects(self, input: Input<A>) -> bool {
        match input {
            Input::Dialed { .. } => self.phase is Dial,
            Input::Waited { .. } => self.phase is Backoff || self.phase is Idle,
            Input::Connected { .. } => self.phase is Connect,
            Input::Announced { .. } => self.phase is Announce,
            Input::Pinged { .. } => self.phase is Ping,
            Input::Polled { .. } => self.phase is Poll,
            Input::Performed { .. } => self.phase is Perform,
            Input::Pulled { .. } => self.phase is Pull,
            Input::PassedOn => self.client_works(),
            Input::Acked { .. } => true,
        }
    }

    /// Whether the manager does not go on to another connection, at any point of a run.
    pub open spec fn keeps_connection(self, inputs: Seq<Input<A>>) -> bool
        decreases inputs.len(),
    {
        &&& !(self.after(inputs).phase is Dial)
        &&& inputs.len() == 0 || self.keeps_connection(inputs.drop_last())
    }

    /// Whether no action is performed, at any point of a run.
    pub open spec fn performs_nothing(self, inputs: Seq<Input<A>>) -> bool
        decreases inputs.len(),
    {
        &&& !(self.after(inputs).phase is Perform)
        &&& inputs.len() == 0 || self.performs_nothing(inputs.drop_last())
    }

    /// How many connections are made in a run.
    pub open spec fn connections_made(self, inputs: Seq<Input<A>>) -> nat
        decreases inputs.len(),
    {
        if inputs.len() == 0 {
            0
        } else {
            let before = self.connections_made(inputs.drop_last());
            if self.after(inputs.drop_last()).phase is Dial && inputs.last() matches Input::Dialed {
                connected: true,
                ..
            } {
                before + 1
            } else {
                before
            }
        }
    }

    /// Whether the client is connected to the server.
    pub open spec fn is_connected(self) -> bool {
        match self.phase {
            Phase::Announce(Announcement::Stable) => true,
            Phase::Idle | Phase::Ping | Phase::Poll | Phase::Pull => true,
            Phase::Perform { .. } => true,
            _ => false,
        }
    }

    /// Whether the client is at work, so that it can receive events.
    pub open spec fn client_works(self) -> bool {
        self.phase is Connect || self.phase is Ping || self.phase is Poll || self.phase is Perform
    }

    /// Whether the manager is about to report that the connection is stable.
    pub open spec fn reports_stable(self) -> bool {
        self.phase matches Phase::Announce(Announcement::Stable)
    }

    /// Whether an input makes the manager report that the connection is stable.
    pub open spec fn becomes_stable(self, input: Input<A>) -> bool {
        !self.reports_stable() && self.step(input).reports_stable()
    }

    /// Whether an input makes the manager ping the server.
    pub open spec fn starts_ping(self, input: Input<A>) -> bool {
        !(self.phase is Ping) && self.step(input).phase is Ping
    }

    /// Whether an input makes the manager handle packets.
    pub open spec fn starts_poll(self, input: Input<A>) -> bool {
        !(self.phase is Poll) && self.step(input).phase is Poll
    }

    /// Whether the manager pings the server before anything else.
    pub open spec fn ping_is_due(self, now: Instant) -> bool {
        self.last_ping_instant.longer_ago_than(self.settings.ping_interval, now)
    }

    /// Whether the manager is to report that the connection is stable.
    pub open spec fn stable_is_due(self, now: Instant) -> bool {
        self.connection_instant matches Some(made) && made.longer_ago_than(
            self.settings.stabilisation_interval,
            now,
        )
    }

    /// Whether an input makes the manager check whether the server is live.
    pub open spec fn checks_live(self, input: Input<A>) -> bool {
        match (self.phase, input) {
            (Phase::Idle, Input::Waited { now }) => !self.ping_is_due(now) && !self.stable_is_due(
                now,
            ),
            (Phase::Ping, Input::Pinged { result: Ok(_), now }) => !self.stable_is_due(now),
            (Phase::Announce(Announcement::Stable), Input::Announced { .. }) => true,
            _ => false,
        }
    }

    /// Whether an input makes the manager leave a server that is unresponsive.
    pub open spec fn finds_unresponsive(self, input: Input<A>) -> bool {
        !self.is_ended() && self.step(input).phase == Phase::<A>::Announce(
            Announcement::Disconnected(Error::MqttServerUnresponsive),
        )
    }

    /// Whether the last connection has ended.
    pub open spec fn is_ended(self) -> bool {
        match self.phase {
            Phase::Backoff => true,
            Phase::Announce(Announcement::Disconnected(_)) => true,
            _ => false,
        }
    }

    /// Whether, while there is a connection, its number is the last that was given out.
    pub open spec fn is_numbered(self) -> bool {
        self.phase is Dial || self.phase is Backoff || self.connection_id + 1
            == self.connection_index
    }

    /// Whether the manager takes no new action while a failed one is to be performed
    /// again.
    pub open spec fn retries_first(self) -> bool {
        self.phase is Pull || self.phase is Perform ==> self.pending_action is None
    }
}

/// An acknowledgement that comes while something else is to be done counts, and changes
/// nothing else.
pub proof fn law_acknowledgement_counts<A, E>(next: Next<A, E>, state: State<A>, now: Instant)
    ensures
        next.at(State { last_connection_event: now, ..state }) == next.at(state).step(
            Input::Acked { now },
        ),
{
}

/// What becomes of an action depends on what it is after it was performed, and not on
/// what it was before.
pub proof fn law_performed_action_may_change<A>(
    m: ManagerView<A>,
    before: A,
    is_retry: bool,
    action: A,
    result: Result<(), ClientError>,
)
    requires
        m.phase == (Phase::Perform { action: before, is_retry }),
    ensures
        m.step(Input::Performed { action, result }) == (ManagerView {
            phase: Phase::Perform { action, is_retry },
            ..m
        }).step(Input::Performed { action, result }),
{
}

/// The connections of a run are numbered in the order in which they are made, so that no
/// two have the same number.
pub proof fn law_connections_are_numbered<A>(
    settings: Settings,
    client_id: &'static str,
    now: Instant,
    state: State<A>,
    inputs: Seq<Input<A>>,
)
    ensures
        ({
            let start = ManagerView::started(settings, client_id, now, state);
            let made = start.connections_made(inputs);
            &&& start.after(inputs).connection_index == made
            &&& made > 0 ==> start.after(inputs).connection_id == made - 1
            &&& start.after(inputs).is_connected() ==> made > 0
            &&& start.after(inputs).is_numbered()
        }),
    decreases inputs.len(),
{
    let start = ManagerView::started(settings, client_id, now, state);
    lemma_connection_was_made(start, inputs);
    if inputs.len() > 0 {
        law_connections_are_numbered(settings, client_id, now, state, inputs.drop_last());
    }
}

proof fn lemma_connection_was_made<A>(start: ManagerView<A>, inputs: Seq<Input<A>>)
    requires
        start.phase is Dial,
    ensures
        !(start.after(inputs).phase is Dial) && !(start.after(inputs).phase is Backoff)
            ==> start.connections_made(inputs) > 0,
    decreases inputs.len(),
{
    if inputs.len() > 0 {
        lemma_connection_was_made(start, inputs.drop_last());
    }
}

/// A socket that cannot be connected costs a delay, but no connection number and no event.
pub proof fn law_failed_dial_is_repeated<A>(m: ManagerView<A>, dialed: Instant, waited: Instant)
    requires
        m.phase is Dial,
    ensures
        m.step(Input::Dialed { connected: false, now: dialed }) == (ManagerView {
            phase: Phase::Backoff,
            ..m
        }),
        m.step(Input::Dialed { connected: false, now: dialed }).step(Input::Waited { now: waited }) == m,
{
}

/// Actions are only taken and performed while the client is connected, which it becomes
/// by connecting and by reporting that.
pub proof fn law_actions_need_connection<A>(m: ManagerView<A>, input: Input<A>)
    ensures
        m.phase is Pull || m.phase is Perform ==> m.is_connected(),
        !m.is_connected() && m.step(input).is_connected() ==> m.phase == Phase::<A>::Announce(
            Announcement::Connected,
        ),
        m.phase != Phase::<A>::Announce(Announcement::Connected) && m.step(input).phase == Phase::<
            A,
        >::Announce(Announcement::Connected) ==> m.phase is Connect && input matches Input::Connected {
            result: Ok(_),
        },
{
}

/// Any error of the client ends the connection, and is reported.
pub proof fn law_client_error_is_reported<A>(m: ManagerView<A>, input: Input<A>, e: ClientError)
    requires
        m.expects(input),
        input.client_error() == Some(e),
    ensures
        m.step(input).phase == Phase::<A>::Announce(Announcement::Disconnected(Error::Client(e))),
{
}

/// A connection ends only with an error that is reported. After the report the manager
/// waits, and then makes a new connection.
pub proof fn law_connection_is_made_anew<A>(m: ManagerView<A>, input: Input<A>, waited: Instant)
    ensures
        m.is_connected() && !m.step(input).is_connected() ==> m.step(input).phase matches Phase::Announce(
            Announcement::Disconnected(_),
        ),
        (m.phase matches Phase::Announce(Announcement::Disconnected(_))) && input is Announced
            ==> m.step(input).phase is Backoff && m.step(input).step(Input::Waited { now: waited })
            == (ManagerView { phase: Phase::Dial, ..m }),
{
}

/// While a failed action is to be performed again, no new action is taken.
pub proof fn law_failed_action_comes_first<A>(
    settings: Settings,
    client_id: &'static str,
    now: Instant,
    state: State<A>,
    inputs: Seq<Input<A>>,
)
    ensures
        ManagerView::started(settings, client_id, now, state).after(inputs).retries_first(),
    decreases inputs.len(),
{
    if inputs.len() > 0 {
        law_failed_action_comes_first(settings, client_id, now, state, inputs.drop_last());
    }
}

/// An action that failed is kept, whatever happens, until an action is performed again:
/// that is on another connection, and it is this action, marked as a retry.
pub proof fn law_failed_action_is_retried<A>(
    m: ManagerView<A>,
    action: A,
    e: ClientError,
    inputs: Seq<Input<A>>,
    input: Input<A>,
)
    requires
        m.phase is Perform,
        m.is_numbered(),
        m.step(Input::Performed { action, result: Err(e) }).performs_nothing(inputs),
    ensures
        ({
            let failed = m.step(Input::Performed { action, result: Err(e) });
            let later = failed.after(inputs);
            &&& later.pending_action == Some(action)
            &&& later.is_connected() ==> later.connection_id > m.connection_id
            &&& later.phase is Poll && input == (Input::<A>::Polled { result: Ok(false) })
                ==> later.step(input).phase == (Phase::Perform { action, is_retry: true })
            &&& later.step(input).phase is Perform ==> later.step(input).phase == (Phase::Perform {
                action,
                is_retry: true,
            })
        }),
{
    let failed = m.step(Input::Performed { action, result: Err(e) });
    lemma_failed_action_is_kept(failed, action, inputs);
    lemma_next_connection(failed, inputs);
}

proof fn lemma_failed_action_is_kept<A>(failed: ManagerView<A>, action: A, inputs: Seq<Input<A>>)
    requires
        failed.pending_action == Some(action),
        failed.retries_first(),
        failed.performs_nothing(inputs),
    ensures
        failed.after(inputs).pending_action == Some(action),
        failed.after(inputs).retries_first(),
    decreases inputs.len(),
{
    if inputs.len() > 0 {
        lemma_failed_action_is_kept(failed, action, inputs.drop_last());
    }
}

proof fn lemma_next_connection<A>(ended: ManagerView<A>, inputs: Seq<Input<A>>)
    requires
        ended.phase matches Phase::Announce(Announcement::Disconnected(_)),
    ensures
        ended.after(inputs).connection_index >= ended.connection_index,
        ended.after(inputs).connection_index == ended.connection_index ==> (ended.after(inputs).phase
            is Dial || ended.after(inputs).phase is Backoff || (ended.after(
            inputs,
        ).phase matches Phase::Announce(Announcement::Disconnected(_)))),
        ended.after(inputs).connection_index > ended.connection_index ==> ended.after(
            inputs,
        ).connection_id >= ended.connection_index,
    decreases inputs.len(),
{
    if inputs.len() > 0 {
        lemma_next_connection(ended, inputs.drop_last());
    }
}

/// An action is marked as a retry exactly if it failed before. One that is not was just
/// taken from the application.
pub proof fn law_retry_is_marked<A>(m: ManagerView<A>, input: Input<A>, action: A, is_retry: bool)
    requires
        !(m.phase is Perform),
        m.step(input).phase == (Phase::Perform { action, is_retry }),
    ensures
        is_retry ==> m.pending_action == Some(action),
        !is_retry ==> input == (Input::Pulled { action: Some(action) }),
{
}

/// A connection is reported to be stable at most once.
pub proof fn law_stable_is_reported_once<A>(
    m: ManagerView<A>,
    first: Input<A>,
    inputs: Seq<Input<A>>,
    second: Input<A>,
)
    requires
        m.becomes_stable(first),
        m.step(first).keeps_connection(inputs),
    ensures
        !m.step(first).after(inputs).becomes_stable(second),
{
    lemma_stays_stable(m.step(first), inputs);
}

proof fn lemma_stays_stable<A>(stable: ManagerView<A>, inputs: Seq<Input<A>>)
    requires
        stable.reports_stable(),
        stable.connection_instant is None,
        stable.keeps_connection(inputs),
    ensures
        stable.after(inputs).connection_instant is None,
        stable.after(inputs).is_ended() || stable.after(inputs).is_connected(),
    decreases inputs.len(),
{
    if inputs.len() > 0 {
        lemma_stays_stable(stable, inputs.drop_last());
    }
}

/// A connection is reported to be stable only once it has lasted, from when it was reported
/// to be made, for longer than the settings demand.
pub proof fn law_stable_takes_time<A>(
    m: ManagerView<A>,
    connected: Instant,
    inputs: Seq<Input<A>>,
    input: Input<A>,
)
    requires
        m.phase == Phase::<A>::Announce(Announcement::Connected),
        m.step(Input::Announced { now: connected }).keeps_connection(inputs),
        m.step(Input::Announced { now: connected }).after(inputs).becomes_stable(input),
    ensures
        input.time() matches Some(now) && connected.longer_ago_than(
            m.settings.stabilisation_interval,
            now,
        ),
{
    lemma_connection_instant(m.step(Input::Announced { now: connected }), inputs);
}

proof fn lemma_connection_instant<A>(connected: ManagerView<A>, inputs: Seq<Input<A>>)
    requires
        connected.is_connected(),
        connected.keeps_connection(inputs),
    ensures
        ({
            let later = connected.after(inputs);
            &&& later.settings == connected.settings
            &&& later.is_ended() || later.is_connected()
            &&& later.connection_instant is None || later.connection_instant
                == connected.connection_instant
        }),
    decreases inputs.len(),
{
    if inputs.len() > 0 {
        lemma_connection_instant(connected, inputs.drop_last());
    }
}

/// A ping is sent at the start of a round if the last one, or the start of the connection,
/// is longer ago than the settings demand.
pub proof fn law_due_ping_is_sent<A>(m: ManagerView<A>, now: Instant)
    requires
        m.phase is Idle,
    ensures
        m.step(Input::Waited { now }).phase is Ping <==> m.ping_is_due(now),
{
}

/// Between two pings on a connection lies more time than the settings demand.
pub proof fn law_pings_are_spaced<A>(
    m: ManagerView<A>,
    first: Input<A>,
    inputs: Seq<Input<A>>,
    second: Input<A>,
)
    requires
        m.starts_ping(first),
        m.step(first).keeps_connection(inputs),
        m.step(first).after(inputs).starts_ping(second),
    ensures
        match (first.time(), second.time()) {
            (Some(earlier), Some(later)) => earlier.longer_ago_than(m.settings.ping_interval, later),
            _ => false,
        },
{
    lemma_last_ping(m.step(first), inputs);
}

/// Between the report that a connection was made and the first ping on it lies more time
/// than the settings demand.
pub proof fn law_first_ping_takes_time<A>(
    m: ManagerView<A>,
    connected: Instant,
    inputs: Seq<Input<A>>,
    input: Input<A>,
)
    requires
        m.phase == Phase::<A>::Announce(Announcement::Connected),
        m.step(Input::Announced { now: connected }).keeps_connection(inputs),
        m.step(Input::Announced { now: connected }).after(inputs).starts_ping(input),
    ensures
        input.time() matches Some(now) && connected.longer_ago_than(m.settings.ping_interval, now),
{
    lemma_last_ping(m.step(Input::Announced { now: connected }), inputs);
}

proof fn lemma_last_ping<A>(connected: ManagerView<A>, inputs: Seq<Input<A>>)
    requires
        connected.is_connected(),
        connected.keeps_connection(inputs),
    ensures
        ({
            let later = connected.after(inputs);
            &&& later.settings == connected.settings
            &&& later.is_ended() || later.is_connected()
            &&& later.last_ping_instant == connected.last_ping_instant
                || connected.last_ping_instant.longer_ago_than(
                connected.settings.ping_interval,
                later.last_ping_instant,
            )
        }),
    decreases inputs.len(),
{
    if inputs.len() > 0 {
        lemma_last_ping(connected, inputs.drop_last());
    }
}

/// Packets are handled, and actions taken, only while the server has acknowledged
/// something not too long ago. Wherever the manager checks that, a server that has been
/// silent for longer is left, and no other is.
pub proof fn law_silent_server_is_left<A>(
    m: ManagerView<A>,
    inputs: Seq<Input<A>>,
    input: Input<A>,
    now: Instant,
)
    requires
        m.keeps_connection(inputs),
        forall|i: int| 0 <= i < inputs.len() ==> !(#[trigger] inputs[i] is Acked),
        input.time() == Some(now),
    ensures
        ({
            let later = m.after(inputs);
            let silent = m.last_connection_event.longer_ago_than(
                m.settings.connection_event_max_interval,
                now,
            );
            &&& later.starts_poll(input) ==> !silent
            &&& later.finds_unresponsive(input) ==> silent
            &&& later.checks_live(input) && silent ==> later.finds_unresponsive(input)
            &&& later.checks_live(input) && !silent ==> later.starts_poll(input)
        }),
{
    lemma_silence(m, inputs);
}

/// Every round checks whether the server is live, after it has sent the ping and the report
/// that are due: a server that has been silent for too long when the round starts is left
/// in this round.
pub proof fn law_every_round_checks<A>(
    m: ManagerView<A>,
    waited: Instant,
    pinged: Instant,
    announced: Instant,
)
    requires
        m.phase is Idle,
        waited.ticks <= pinged.ticks <= announced.ticks,
    ensures
        ({
            let start = m.step(Input::Waited { now: waited });
            let after_ping = if start.phase is Ping {
                start.step(Input::Pinged { result: Ok(()), now: pinged })
            } else {
                start
            };
            let after_report = if after_ping.reports_stable() {
                after_ping.step(Input::Announced { now: announced })
            } else {
                after_ping
            };
            &&& after_report.phase is Poll || after_report.phase == Phase::<A>::Announce(
                Announcement::Disconnected(Error::MqttServerUnresponsive),
            )
            &&& m.last_connection_event.longer_ago_than(
                m.settings.connection_event_max_interval,
                waited,
            ) ==> after_report.phase == Phase::<A>::Announce(
                Announcement::Disconnected(Error::MqttServerUnresponsive),
            )
        }),
{
}

proof fn lemma_silence<A>(m: ManagerView<A>, inputs: Seq<Input<A>>)
    requires
        m.keeps_connection(inputs),
        forall|i: int| 0 <= i < inputs.len() ==> !(#[trigger] inputs[i] is Acked),
    ensures
        m.after(inputs).last_connection_event == m.last_connection_event,
        m.after(inputs).settings == m.settings,
    decreases inputs.len(),
{
    if inputs.len() > 0 {
        assert forall|i: int| 0 <= i < inputs.drop_last().len() implies !(
        #[trigger] inputs.drop_last()[i] is Acked) by {
            assert(inputs.drop_last()[i] == inputs[i]);
        }
        assert(m.keeps_connection(inputs.drop_last()));
        lemma_silence(m, inputs.drop_last());
        assert(!(inputs[inputs.len() - 1] is Acked));
    }
}

/// While a connection lasts, it keeps its number: the handler of its events, which is made
/// with that number, and the manager speak of the same connection.
pub proof fn law_connection_keeps_number<A>(m: ManagerView<A>, inputs: Seq<Input<A>>)
    requires
        m.keeps_connection(inputs),
    ensures
        m.after(inputs).connection_id == m.connection_id,
    decreases inputs.len(),
{
    if inputs.len() > 0 {
        assert(m.keeps_connection(inputs.drop_last()));
        law_connection_keeps_number(m, inputs.drop_last());
    }
}

/// Where an event that was sent to the application comes from.
pub enum Source {
    /// From the manager, which reports on the connection.
    Manager(Announcement),

    /// From the handler of received events.
    Handler,
}

/// An event that was sent to the application.
pub struct Event {
    /// The number of the connection.
    pub connection: nat,

    /// Where it comes from.
    pub source: Source,
}

impl Event {
    /// The place of a report among those of its connection.
    pub open spec fn rank(self) -> Option<int> {
        match self.source {
            Source::Manager(Announcement::Connected) => Some(0),
            Source::Manager(Announcement::Stable) => Some(1),
            Source::Manager(Announcement::Disconnected(_)) => Some(2),
            Source::Handler => None,
        }
    }

    /// Whether it reports that a connection was made.
    pub open spec fn is_start_of(self, connection: nat) -> bool {
        self.connection == connection && self.rank() == Some(0int)
    }

    /// Whether it reports that a connection is stable.
    pub open spec fn is_stable(self) -> bool {
        self.rank() == Some(1int)
    }

    /// Whether it reports that a connection ended.
    pub open spec fn is_end_of(self, connection: nat) -> bool {
        self.connection == connection && self.rank() == Some(2int)
    }

    /// Whether an event can come after this one: it belongs to a later connection, or to
    /// the same one, which has not ended, and if both are reports they are in order.
    pub open spec fn can_precede(self, later: Event) -> bool {
        ||| self.connection < later.connection
        ||| {
            &&& self.connection == later.connection
            &&& !self.is_end_of(self.connection)
            &&& match (self.rank(), later.rank()) {
                (Some(earlier_rank), Some(later_rank)) => earlier_rank < later_rank,
                _ => true,
            }
        }
    }
}

/// Whether the numbers of the connections never decrease, each connection is reported at
/// most once to be made, to be stable and to have ended, in this order, and nothing follows
/// its end.
pub open spec fn are_ordered(events: Seq<Event>) -> bool {
    forall|i: int, j: int|
        #![trigger events[i], events[j]]
        0 <= i < j < events.len() ==> events[i].can_precede(events[j])
}

/// Whether it is among the events that a connection was made.
pub open spec fn tell_start_of(events: Seq<Event>, connection: nat) -> bool {
    exists|k: int| 0 <= k < events.len() && (#[trigger] events[k]).is_start_of(connection)
}

/// Whether it is among the events that a connection ended.
pub open spec fn tell_end_of(events: Seq<Event>, connection: nat) -> bool {
    exists|k: int| 0 <= k < events.len() && (#[trigger] events[k]).is_end_of(connection)
}

/// Whether every event comes after the reports that all earlier connections ended.
pub open spec fn follow_ends(events: Seq<Event>) -> bool {
    forall|j: int, connection: nat|
        0 <= j < events.len() && connection < events[j].connection ==> #[trigger] tell_end_of(
            events.take(j),
            connection,
        )
}

/// Whether a connection is reported to be stable only after it was reported to be made.
pub open spec fn stable_follow_starts(events: Seq<Event>) -> bool {
    forall|j: int|
        0 <= j < events.len() && (#[trigger] events[j]).is_stable() ==> tell_start_of(
            events.take(j),
            events[j].connection,
        )
}

impl<A> ManagerView<A> {
    /// The event that is sent with an input, if there is one.
    pub open spec fn sends(self, input: Input<A>) -> Option<Event> {
        match (self.phase, input) {
            (Phase::Announce(announcement), Input::Announced { .. }) => Some(
                Event { connection: self.connection_id, source: Source::Manager(announcement) },
            ),
            (_, Input::PassedOn) if self.client_works() => Some(
                Event { connection: self.connection_id, source: Source::Handler },
            ),
            _ => None,
        }
    }

    /// The events that are sent in a run, in the order in which they are.
    pub open spec fn events(self, inputs: Seq<Input<A>>) -> Seq<Event>
        decreases inputs.len(),
    {
        if inputs.len() == 0 {
            Seq::empty()
        } else {
            let before = self.events(inputs.drop_last());
            match self.after(inputs.drop_last()).sends(inputs.last()) {
                Some(event) => before.push(event),
                None => before,
            }
        }
    }

    /// The lowest rank that the next report of the current connection can have.
    spec fn next_rank(self) -> int {
        match self.phase {
            Phase::Connect | Phase::Announce(Announcement::Connected) => 0,
            Phase::Announce(Announcement::Stable) => 1,
            Phase::Announce(Announcement::Disconnected(_)) => 2,
            _ => if self.connection_instant is Some {
                1
            } else {
                2
            },
        }
    }

    /// Whether there is a connection whose end was not yet reported.
    spec fn is_open(self) -> bool {
        !(self.phase is Dial) && !(self.phase is Backoff)
    }

    /// Whether events are those of a run that led here.
    spec fn fits(self, events: Seq<Event>) -> bool {
        &&& self.is_numbered()
        &&& self.reports_stable() ==> self.connection_instant is None
        &&& are_ordered(events)
        &&& follow_ends(events)
        &&& stable_follow_starts(events)
        &&& self.is_connected() ==> tell_start_of(events, self.connection_id)
        &&& forall|i: int|
            0 <= i < events.len() ==> (#[trigger] events[i]).connection < self.connection_index
        &&& forall|i: int|
            0 <= i < events.len() && self.is_open() && (#[trigger] events[i]).connection
                == self.connection_id ==> (events[i].rank() matches Some(rank) ==> rank
                < self.next_rank())
        &&& forall|connection: nat|
            connection < self.connection_index && !(self.is_open() && connection
                == self.connection_id) ==> #[trigger] tell_end_of(events, connection)
    }
}

/// The event that is to be announced, and those of the handler that a client is given,
/// belong to the connection of which the manager sends them.
pub proof fn law_events_carry_number<A, E>(next: Next<A, E>, state: State<A>, now: Instant)
    requires
        next.is_exact(),
    ensures
        next matches Next::Announce(s) ==> next.at(state).sends(Input::Announced { now }) == Some(
            Event {
                connection: s.event.connection_id().index as nat,
                source: Source::Manager(s.announcement),
            },
        ),
        next matches Next::Connect(s) ==> next.at(state).sends(Input::PassedOn) == Some(
            Event {
                connection: s.event_handler.connection_id.index as nat,
                source: Source::Handler,
            },
        ),
{
}

/// Over a whole run, and over all events, of the manager and of the handler, the numbers of
/// the connections never decrease. Each connection is reported at most once to be made, at
/// most once to be stable, and that after it was reported to be made, and at most once to
/// have ended. No event of it follows that, and none comes before all earlier connections
/// were reported to have ended.
pub proof fn law_events_are_ordered<A>(
    settings: Settings,
    client_id: &'static str,
    now: Instant,
    state: State<A>,
    inputs: Seq<Input<A>>,
)
    ensures
        ({
            let events = ManagerView::started(settings, client_id, now, state).events(inputs);
            &&& are_ordered(events)
            &&& stable_follow_starts(events)
            &&& follow_ends(events)
        }),
{
    lemma_events_fit(ManagerView::started(settings, client_id, now, state), inputs);
}

proof fn lemma_events_fit<A>(start: ManagerView<A>, inputs: Seq<Input<A>>)
    requires
        start.phase is Dial,
        start.connection_index == 0,
    ensures
        start.after(inputs).fits(start.events(inputs)),
    decreases inputs.len(),
{
    if inputs.len() > 0 {
        lemma_events_fit(start, inputs.drop_last());
        let m = start.after(inputs.drop_last());
        let before = start.events(inputs.drop_last());
        let input = inputs.last();
        match m.sends(input) {
            Some(event) => lemma_event_fits(m, before, input, event),
            None => assert(m.step(input).fits(before)),
        }
    }
}

proof fn lemma_event_fits<A>(
    m: ManagerView<A>,
    before: Seq<Event>,
    input: Input<A>,
    event: Event,
)
    requires
        m.fits(before),
        m.sends(input) == Some(event),
    ensures
        m.step(input).fits(before.push(event)),
{
    let events = before.push(event);
    let last = before.len() as int;
    assert(event.rank() matches Some(rank) ==> rank == m.next_rank());
    assert(events[last] == event);
    assert forall|i: int| 0 <= i < last implies #[trigger] events[i] == before[i] by {}
    assert forall|j: int, connection: nat|
        0 <= j < events.len() && connection < events[j].connection implies #[trigger] tell_end_of(
        events.take(j),
        connection,
    ) by {
        if j < last {
            assert(events.take(j) == before.take(j));
        } else {
            assert(events.take(j) == before);
            assert(tell_end_of(before, connection));
        }
    }
    assert forall|j: int|
        0 <= j < events.len() && (#[trigger] events[j]).is_stable() implies tell_start_of(
        events.take(j),
        events[j].connection,
    ) by {
        if j < last {
            assert(events.take(j) == before.take(j));
            assert(before[j].is_stable());
        } else {
            assert(events.take(j) == before);
        }
    }
    if m.step(input).is_connected() {
        if m.is_connected() {
            let k = choose|k: int|
                0 <= k < last && (#[trigger] before[k]).is_start_of(m.connection_id);
            assert(events[k].is_start_of(m.connection_id));
        } else {
            assert(events[last].is_start_of(m.connection_id));
        }
    }
    assert forall|connection: nat|
        connection < m.step(input).connection_index && !(m.step(input).is_open() && connection
            == m.step(input).connection_id) implies #[trigger] tell_end_of(events, connection) by {
        if connection == m.connection_id {
            assert(events[last].is_end_of(connection));
        } else {
            assert(tell_end_of(before, connection));
            let k = choose|k: int|
                0 <= k < last && (#[trigger] before[k]).is_end_of(connection);
            assert(events[k].is_end_of(connection));
        }
    }
}

impl<A> ManagerView<A> {
    /// Whether the manager never reports that the connection is stable, in a run.
    pub open spec fn never_stable(self, inputs: Seq<Input<A>>) -> bool
        decreases inputs.len(),
    {
        &&& self.after(inputs).phase != Phase::<A>::Announce(Announcement::Stable)
        &&& inputs.len() == 0 || self.never_stable(inputs.drop_last())
    }

    /// How many actions are taken from the application in a run.
    pub open spec fn actions_taken(self, inputs: Seq<Input<A>>) -> nat
        decreases inputs.len(),
    {
        if inputs.len() == 0 {
            0
        } else if self.after(inputs.drop_last()).phase is Pull && (
        inputs.last() matches Input::Pulled { action: Some(_) }) {
            self.actions_taken(inputs.drop_last()) + 1
        } else {
            self.actions_taken(inputs.drop_last())
        }
    }

    /// How many actions are performed with success in a run.
    pub open spec fn actions_done(self, inputs: Seq<Input<A>>) -> nat
        decreases inputs.len(),
    {
        if inputs.len() == 0 {
            0
        } else if self.after(inputs.drop_last()).phase is Perform && (
        inputs.last() matches Input::Performed { result: Ok(_), .. }) {
            self.actions_done(inputs.drop_last()) + 1
        } else {
            self.actions_done(inputs.drop_last())
        }
    }
}

/// No action is lost, and none is made up: over a whole run, the actions that were taken
/// are those that were performed with success, and at most one more, which is being
/// performed or is to be performed again.
pub proof fn law_no_action_is_lost<A>(
    settings: Settings,
    client_id: &'static str,
    now: Instant,
    state: State<A>,
    inputs: Seq<Input<A>>,
)
    requires
        state.pending_action is None,
    ensures
        ({
            let start = ManagerView::started(settings, client_id, now, state);
            let m = start.after(inputs);
            start.actions_taken(inputs) == start.actions_done(inputs) + (if m.phase is Perform
                || m.pending_action is Some {
                1nat
            } else {
                0nat
            })
        }),
    decreases inputs.len(),
{
    law_failed_action_comes_first(settings, client_id, now, state, inputs);
    if inputs.len() > 0 {
        law_failed_action_comes_first(settings, client_id, now, state, inputs.drop_last());
        law_no_action_is_lost(settings, client_id, now, state, inputs.drop_last());
    }
}

/// Every action that is taken from the application is performed, in every state, as it
/// was taken and as one that did not fail before. With none to take, the next round comes.
pub proof fn law_taken_action_is_performed<A>(m: ManagerView<A>, action: A)
    requires
        m.phase is Pull,
    ensures
        m.step(Input::Pulled { action: Some(action) }) == (ManagerView {
            phase: Phase::Perform { action, is_retry: false },
            ..m
        }),
        m.step(Input::Pulled { action: None }) == (ManagerView { phase: Phase::Idle, ..m }),
{
}

/// Performing an action takes nothing from the connection: after a success the next action
/// is taken, and after a failure the action is kept and the connection ends.
pub proof fn law_performing_keeps_connection<A>(m: ManagerView<A>, action: A, e: ClientError)
    requires
        m.phase is Perform,
    ensures
        m.step(Input::Performed { action, result: Ok(()) }) == (ManagerView {
            phase: Phase::Pull,
            ..m
        }),
        m.step(Input::Performed { action, result: Err(e) }) == (ManagerView {
            phase: Phase::Announce(Announcement::Disconnected(Error::Client(e))),
            pending_action: Some(action),
            ..m
        }),
{
}

/// Packets are handled for as long as there are any. Then a failed action is performed, or
/// a new one taken. Until then, handling packets changes nothing.
pub proof fn law_packets_come_before_actions<A>(m: ManagerView<A>, e: ClientError)
    requires
        m.phase is Poll,
    ensures
        m.step(Input::Polled { result: Ok(true) }) == m,
        m.pending_action matches Some(action) ==> m.step(Input::Polled { result: Ok(false) }) == (
        ManagerView {
            phase: Phase::Perform { action, is_retry: true },
            pending_action: None,
            ..m
        }),
        m.pending_action is None ==> m.step(Input::Polled { result: Ok(false) }) == (ManagerView {
            phase: Phase::Pull,
            ..m
        }),
        m.step(Input::Polled { result: Err(e) }) == (ManagerView {
            phase: Phase::Announce(Announcement::Disconnected(Error::Client(e))),
            ..m
        }),
{
}

/// A connected socket makes a connection with the next number, on which the server counts
/// as live from then on. A failed action waits for it.
pub proof fn law_dialed_connection_is_numbered<A>(m: ManagerView<A>, now: Instant)
    requires
        m.phase is Dial,
    ensures
        m.step(Input::Dialed { connected: true, now }) == (ManagerView {
            phase: Phase::Connect,
            connection_id: m.connection_index,
            connection_index: m.connection_index + 1,
            last_connection_event: now,
            ..m
        }),
{
}

/// A client that connected is reported, and the connection counts from that report. One
/// that did not is reported as the end of the connection.
pub proof fn law_connecting_is_reported<A>(m: ManagerView<A>, now: Instant, e: ClientError)
    requires
        m.phase is Connect,
    ensures
        m.step(Input::Connected { result: Ok(()) }).step(Input::Announced { now }) == (ManagerView {
            phase: Phase::Idle,
            connection_instant: Some(now),
            last_ping_instant: now,
            ..m
        }),
        m.step(Input::Connected { result: Ok(()) }) == (ManagerView {
            phase: Phase::Announce(Announcement::Connected),
            ..m
        }),
        m.step(Input::Connected { result: Err(e) }) == (ManagerView {
            phase: Phase::Announce(Announcement::Disconnected(Error::Client(e))),
            ..m
        }),
{
}

/// A round starts with the ping, if the last is longer ago than the interval, goes on to
/// the report that the connection is stable, if it is due, and ends by leaving a silent
/// server or by handling packets.
pub proof fn law_round_is_in_order<A>(m: ManagerView<A>, now: Instant)
    requires
        m.phase is Idle,
    ensures
        ({
            let after = m.step(Input::Waited { now });
            let pings = now.ticks - m.last_ping_instant.ticks > m.settings.ping_interval.ticks;
            let stable = m.connection_instant matches Some(made) && now.ticks - made.ticks
                > m.settings.stabilisation_interval.ticks;
            let silent = now.ticks - m.last_connection_event.ticks
                > m.settings.connection_event_max_interval.ticks;
            &&& pings ==> after == (ManagerView { phase: Phase::Ping, last_ping_instant: now, ..m })
            &&& !pings && stable ==> after == (ManagerView {
                phase: Phase::Announce(Announcement::Stable),
                connection_instant: None,
                ..m
            })
            &&& !pings && !stable && silent ==> after == (ManagerView {
                phase: Phase::Announce(Announcement::Disconnected(Error::MqttServerUnresponsive)),
                ..m
            })
            &&& !pings && !stable && !silent ==> after == (ManagerView { phase: Phase::Poll, ..m })
        }),
{
}

/// After a ping the round goes on as if none had been due. A ping that failed ends the
/// connection.
pub proof fn law_round_goes_on_after_ping<A>(m: ManagerView<A>, now: Instant, e: ClientError)
    requires
        m.phase is Ping,
    ensures
        ({
            let after = m.step(Input::Pinged { result: Ok(()), now });
            let stable = m.connection_instant matches Some(made) && now.ticks - made.ticks
                > m.settings.stabilisation_interval.ticks;
            let silent = now.ticks - m.last_connection_event.ticks
                > m.settings.connection_event_max_interval.ticks;
            &&& stable ==> after == (ManagerView {
                phase: Phase::Announce(Announcement::Stable),
                connection_instant: None,
                ..m
            })
            &&& !stable && silent ==> after == (ManagerView {
                phase: Phase::Announce(Announcement::Disconnected(Error::MqttServerUnresponsive)),
                ..m
            })
            &&& !stable && !silent ==> after == (ManagerView { phase: Phase::Poll, ..m })
        }),
        m.step(Input::Pinged { result: Err(e), now }) == (ManagerView {
            phase: Phase::Announce(Announcement::Disconnected(Error::Client(e))),
            ..m
        }),
{
}

/// After the report that the connection is stable the round goes on as if it had not been
/// due.
pub proof fn law_round_goes_on_after_report<A>(m: ManagerView<A>, now: Instant)
    requires
        m.phase == Phase::<A>::Announce(Announcement::Stable),
    ensures
        now.ticks - m.last_connection_event.ticks > m.settings.connection_event_max_interval.ticks
            ==> m.step(Input::Announced { now }) == (ManagerView {
            phase: Phase::Announce(Announcement::Disconnected(Error::MqttServerUnresponsive)),
            ..m
        }),
        now.ticks - m.last_connection_event.ticks <= m.settings.connection_event_max_interval.ticks
            ==> m.step(Input::Announced { now }) == (ManagerView { phase: Phase::Poll, ..m }),
{
}

/// After the report that a connection ended comes the delay, and after the delay the next
/// attempt to connect. Nothing is forgotten meanwhile.
pub proof fn law_end_leads_to_next_connection<A>(
    m: ManagerView<A>,
    error: Error,
    now: Instant,
    waited: Instant,
)
    requires
        m.phase == Phase::<A>::Announce(Announcement::Disconnected(error)),
    ensures
        m.step(Input::Announced { now }) == (ManagerView { phase: Phase::Backoff, ..m }),
        m.step(Input::Announced { now }).step(Input::Waited { now: waited }) == (ManagerView {
            phase: Phase::Dial,
            ..m
        }),
{
}

/// An acknowledgement sets when the server last showed that it is live, in every phase, and
/// an event that the handler passes on changes nothing.
pub proof fn law_handler_only_notes_acknowledgements<A>(m: ManagerView<A>, now: Instant)
    ensures
        m.step(Input::Acked { now }) == (ManagerView { last_connection_event: now, ..m }),
        m.step(Input::PassedOn) == m,
{
}

/// What the manager does not wait for changes nothing.
pub proof fn law_unexpected_input_changes_nothing<A>(m: ManagerView<A>, input: Input<A>)
    requires
        input is Dialed ==> !(m.phase is Dial),
        input is Waited ==> !(m.phase is Backoff) && !(m.phase is Idle),
        input is Connected ==> !(m.phase is Connect),
        input is Announced ==> !(m.phase is Announce),
        input is Pinged ==> !(m.phase is Ping),
        input is Polled ==> !(m.phase is Poll),
        input is Performed ==> !(m.phase is Perform),
        input is Pulled ==> !(m.phase is Pull),
        !(input is Acked),
    ensures
        m.step(input) == m,
{
}

/// A connection is reported to be stable in the first round that checks for it once it has
/// lasted, from when it was reported to be made, for longer than the settings demand.
/// Nothing that happens meanwhile on the connection prevents or delays that: no action, no
/// packet, no ping and no acknowledgement.
pub proof fn law_lasting_connection_is_reported_stable<A>(
    m: ManagerView<A>,
    connected: Instant,
    inputs: Seq<Input<A>>,
    now: Instant,
)
    requires
        m.phase == Phase::<A>::Announce(Announcement::Connected),
        m.step(Input::Announced { now: connected }).keeps_connection(inputs),
        m.step(Input::Announced { now: connected }).never_stable(inputs),
        now.ticks - connected.ticks > m.settings.stabilisation_interval.ticks,
    ensures
        ({
            let later = m.step(Input::Announced { now: connected }).after(inputs);
            &&& later.phase is Idle && now.ticks - later.last_ping_instant.ticks
                <= m.settings.ping_interval.ticks ==> later.step(Input::Waited { now }).phase
                == Phase::<A>::Announce(Announcement::Stable)
            &&& later.phase is Idle && now.ticks - later.last_ping_instant.ticks
                > m.settings.ping_interval.ticks ==> later.step(Input::Waited { now }).step(
                Input::Pinged { result: Ok(()), now },
            ).phase == Phase::<A>::Announce(Announcement::Stable)
            &&& later.phase is Ping ==> later.step(Input::Pinged { result: Ok(()), now }).phase
                == Phase::<A>::Announce(Announcement::Stable)
        }),
{
    lemma_stable_stays_due(m.step(Input::Announced { now: connected }), inputs);
}

proof fn lemma_stable_stays_due<A>(connected: ManagerView<A>, inputs: Seq<Input<A>>)
    requires
        connected.phase is Idle,
        connected.connection_instant is Some,
        connected.keeps_connection(inputs),
        connected.never_stable(inputs),
    ensures
        ({
            let later = connected.after(inputs);
            &&& later.connection_instant == connected.connection_instant
            &&& later.settings == connected.settings
            &&& later.is_ended() || later.is_connected()
        }),
    decreases inputs.len(),
{
    if inputs.len() > 0 {
        assert(connected.keeps_connection(inputs.drop_last()));
        lemma_stable_stays_due(connected, inputs.drop_last());
    }
}

/// The settings, and the id with which clients connect, never change.
pub proof fn law_settings_stay<A>(m: ManagerView<A>, inputs: Seq<Input<A>>)
    ensures
        m.after(inputs).settings == m.settings,
        m.after(inputs).client_id == m.client_id,
    decreases inputs.len(),
{
    if inputs.len() > 0 {
        law_settings_stay(m, inputs.drop_last());
    }
}

/// The manager starts by dialing, with no connection made.
pub proof fn law_manager_starts_by_dialing<A>(
    settings: Settings,
    client_id: &'static str,
    now: Instant,
    state: State<A>,
)
    ensures
        ({
            let start = ManagerView::started(settings, client_id, now, state);
            &&& start.phase is Dial
            &&& start.settings == settings
            &&& start.client_id == client_id
            &&& start.connection_index == 0
            &&& start.pending_action == state.pending_action
            &&& start.last_connection_event == state.last_connection_event
        }),
{
}

/// What is to be done tells the phase of the manager and all that the manager holds.
pub proof fn law_next_tells_phase<A, E>(next: Next<A, E>, state: State<A>)
    ensures
        next is Dial <==> next.at(state).phase is Dial,
        next is BackOff <==> next.at(state).phase is Backoff,
        next is Connect <==> next.at(state).phase is Connect,
        next is Idle <==> next.at(state).phase is Idle,
        next is Ping <==> next.at(state).phase is Ping,
        next is Poll <==> next.at(state).phase is Poll,
        next is Pull <==> next.at(state).phase is Pull,
        next is Announce <==> next.at(state).phase is Announce,
        next is Perform <==> next.at(state).phase is Perform,
        next matches Next::Announce(s) ==> next.at(state).phase == Phase::<A>::Announce(
            s.announcement,
        ),
        next matches Next::Perform(s) ==> next.at(state).phase == (Phase::Perform {
            action: s.action,
            is_retry: s.performance.is_retry,
        }),
        next.at(state).last_connection_event == state.last_connection_event,
        next.at(state).pending_action == state.pending_action,
{
}

/// What the manager keeps is what it holds, in every phase.
pub proof fn law_progress_is_what_is_held<A>(progress: Progress, phase: Phase<A>, state: State<A>)
    ensures
        progress.at(phase, state).phase == phase,
        progress.at(phase, state).settings == progress.settings,
        progress.at(phase, state).client_id == progress.client_id,
        progress.at(phase, state).connection_index == progress.connection_index,
        progress.at(phase, state).connection_id == progress.connection_id.index,
        progress.at(phase, state).connection_instant == progress.connection_instant,
        progress.at(phase, state).last_ping_instant == progress.last_ping_instant,
        progress.at(phase, state).last_connection_event == state.last_connection_event,
        progress.at(phase, state).pending_action == state.pending_action,
{
}

/// What is to be done is told as the settings and the connection demand it: where to
/// connect to, how long to wait, on which connection, and what to report.
pub proof fn law_next_is_told_exactly<A, E>(next: Next<A, E>)
    requires
        next.is_exact(),
    ensures
        next matches Next::Dial(s) ==> s.address == s.progress.settings.address && s.port
            == s.progress.settings.port,
        next matches Next::BackOff(s) ==> s.duration == s.progress.settings.reconnection_delay,
        next matches Next::Idle(s) ==> s.duration == s.progress.settings.poll_interval,
        next matches Next::Poll(s) ==> !s.wait,
        next matches Next::Connect(s) ==> s.event_handler.connection_id == s.progress.connection_id
            && s.timeout_millis == (s.progress.settings.response_timeout.ticks / 1_000)
            % 0x1_0000_0000,
        next matches Next::Perform(s) ==> s.performance.connection_id
            == s.performance.progress.connection_id && s.performance.client_id
            == s.performance.progress.client_id,
        next matches Next::Announce(s) ==> s.event.connection_id() == s.progress.connection_id
            && match s.announcement {
            Announcement::Connected => s.event is Connected,
            Announcement::Stable => s.event is ConnectionStable,
            Announcement::Disconnected(error) => s.event matches MqttEvent::Disconnected {
                error: reported,
                ..
            } && reported == error,
        },
{
}

/// The connection that an event belongs to is the one that it names.
pub proof fn law_events_name_their_connection<E>(event: MqttEvent<E>, id: ConnectionId)
    ensures
        event.connection_id() == id <==> match event {
            MqttEvent::ApplicationEvent { connection_id, .. } => connection_id == id,
            MqttEvent::Connected { connection_id } => connection_id == id,
            MqttEvent::ConnectionStable { connection_id } => connection_id == id,
            MqttEvent::Disconnected { connection_id, .. } => connection_id == id,
            MqttEvent::SubscriptionGrantedBelowMaximumQos { connection_id, .. } => connection_id
                == id,
            MqttEvent::PublishedMessageHadNoMatchingSubscribers { connection_id } => connection_id
                == id,
            MqttEvent::NoSubscriptionExisted { connection_id } => connection_id == id,
        },
{
}

/// Every message that is converted reaches the application, with the number of the
/// connection, whatever that is, and different messages reach it as different events. One
/// that cannot be converted is an error, and only such a one is.
pub proof fn law_converted_message_is_sent<E>(
    handler: ChannelEventHandler,
    event: E,
    other: E,
    e: mountain_mqtt::client::EventHandlerError,
)
    ensures
        handler.application_event_spec(Ok(event)) matches Ok(Some(s)) && s == (
        MqttEvent::<E>::ApplicationEvent { connection_id: handler.connection_id, event }),
        handler.application_event_spec(Ok(event)) == handler.application_event_spec(Ok(other))
            ==> event == other,
        handler.application_event_spec::<E>(Err(e)) matches Err(s) && s == e,
{
}

/// A clock that does not go back meets all that the steps demand of it.
pub proof fn law_forward_clock_suffices<A>(m: ManagerView<A>, now: Instant)
    requires
        m.last_ping_instant.ticks <= now.ticks,
        m.last_connection_event.ticks <= now.ticks,
        m.connection_instant matches Some(made) ==> made.ticks <= now.ticks,
    ensures
        m.round_is_defined(now),
        m.stable_is_defined(now),
        m.live_is_defined(now),
{
}

/// An error of the client becomes an error of the manager that tells which it was: no two
/// are confused with each other, nor with an unresponsive server.
pub proof fn law_client_errors_are_kept_apart(e: ClientError, other: ClientError)
    ensures
        <Error as vstd::std_specs::convert::FromSpec<ClientError>>::from_spec(e) == Error::Client(
            e,
        ),
        <Error as vstd::std_specs::convert::FromSpec<ClientError>>::from_spec(e) == <
            Error as vstd::std_specs::convert::FromSpec<ClientError>
        >::from_spec(other) ==> e == other,
{
}

} // verus!
