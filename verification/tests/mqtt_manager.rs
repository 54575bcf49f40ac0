use embassy_net::tcp::ConnectError;
use mountain_mqtt::client::EventHandlerError;
use mountain_mqtt::data::quality_of_service::QualityOfService;
use mountain_mqtt_embassy::address::Ipv4Address;
use mountain_mqtt_embassy::error::ClientError;
use mountain_mqtt_embassy::message::{ApplicationMessage, ClientReceivedEvent};
use mountain_mqtt_embassy::mqtt_manager::{
    run, try_action, ChannelEventHandler, ConnectionId, Error, FromApplicationMessage, Idling,
    MqttEvent, Next, Performing, Polling, Settings, State,
};
use mountain_mqtt_embassy::time::{Duration, Instant};

#[derive(Debug, Clone, PartialEq)]
struct Message(String);

impl FromApplicationMessage<4> for Message {
    fn from_application_message(
        message: &ApplicationMessage<4>,
    ) -> Result<Self, EventHandlerError> {
        if message.topic_name == "topic" {
            Ok(Message(message.topic_name.to_string()))
        } else {
            Err(EventHandlerError::UnexpectedApplicationMessageTopic)
        }
    }
}

type Todo = Next<&'static str, Message>;
type Shared = State<&'static str>;

fn at(millis: u64) -> Instant {
    Instant { ticks: millis * 1_000 }
}

fn settings() -> Settings {
    Settings::new(Ipv4Address { octets: [10, 0, 0, 1] }, 1883)
}

fn id(index: u32) -> ConnectionId {
    ConnectionId { index }
}

fn idle(next: Todo) -> Idling {
    match next {
        Next::Idle(idling) => idling,
        _ => unreachable!(),
    }
}

fn poll(next: Todo) -> Polling {
    match next {
        Next::Poll(polling) => {
            assert!(!polling.wait);
            polling
        }
        _ => unreachable!(),
    }
}

fn perform(next: Todo) -> Performing<&'static str> {
    match next {
        Next::Perform(performing) => {
            assert_eq!(performing.performance.client_id, "device");
            performing
        }
        _ => unreachable!(),
    }
}

/// Goes on after everything that was announced, and returns the event.
fn announce(next: Todo, state: &Shared, now: Instant) -> (MqttEvent<Message>, Todo) {
    match next {
        Next::Announce(announcing) => {
            let event = announcing.event.clone();
            (event, announcing.announced(state, now))
        }
        _ => unreachable!(),
    }
}

/// Makes the connection with the given number.
fn connect(next: Todo, state: &mut Shared, index: u32, now: Instant) -> Idling {
    let dialing = match next {
        Next::Dial(dialing) => dialing,
        _ => unreachable!(),
    };
    assert_eq!(dialing.address, Ipv4Address { octets: [10, 0, 0, 1] });
    assert_eq!(dialing.port, 1883);
    let connecting = match dialing.dialed::<_, Message>(state, Ok(()), now) {
        Next::Connect(connecting) => connecting,
        _ => unreachable!(),
    };
    assert_eq!(state.last_connection_event, now);
    assert_eq!(connecting.timeout_millis, 5_000);
    assert_eq!(connecting.event_handler.connection_id, id(index));
    let (event, next) = announce(connecting.connected(state, Ok(())), state, now);
    assert!(matches!(event, MqttEvent::Connected { connection_id } if connection_id == id(index)));
    idle(next)
}

fn first_connection() -> (Idling, Shared) {
    let mut state = State::new(at(0));
    let idling = connect(run(settings(), "device", &State::new(at(0)), at(0)), &mut state, 0, at(0));
    (idling, state)
}

/// Ends the connection with the given number, and goes on to the next.
fn end(next: Todo, state: &Shared, index: u32, expected: Error) -> Todo {
    let (event, next) = announce(next, state, at(0));
    assert!(matches!(event, MqttEvent::Disconnected { connection_id, error }
        if connection_id == id(index) && error == expected));
    let backing_off = match next {
        Next::BackOff(backing_off) => backing_off,
        _ => unreachable!(),
    };
    assert_eq!(backing_off.duration, Duration { ticks: 2_000_000 });
    backing_off.waited(state, at(0))
}

#[test]
fn default_times_of_the_manager() {
    let settings = settings();
    assert_eq!(settings.ping_interval, Duration { ticks: 2_000_000 });
    assert_eq!(settings.connection_event_max_interval, Duration { ticks: 10_000_000 });
    assert_eq!(settings.reconnection_delay, Duration { ticks: 2_000_000 });
    assert_eq!(settings.poll_interval, Duration { ticks: 10_000 });
    assert_eq!(settings.response_timeout, Duration { ticks: 5_000_000 });
    assert_eq!(settings.stabilisation_interval, Duration { ticks: 5_000_000 });
}

#[test]
fn client_errors_become_manager_errors() {
    let e = ClientError::TimeoutOnResponsePacket;
    assert_eq!(Error::from(e), Error::Client(e));
}

#[test]
fn response_timeout_is_cut_to_32_bits() {
    let mut settings = settings();
    settings.response_timeout = Duration { ticks: (0x1_0000_0000 + 7) * 1_000 + 999 };
    let mut state: Shared = State::new(at(0));
    let dialing = match run::<&'static str, Message>(settings, "device", &state, at(0)) {
        Next::Dial(dialing) => dialing,
        _ => unreachable!(),
    };
    match dialing.dialed::<_, Message>(&mut state, Ok(()), at(0)) {
        Next::Connect(connecting) => assert_eq!(connecting.timeout_millis, 7),
        _ => unreachable!(),
    }
}

#[test]
fn failed_dial_is_repeated_without_a_number() {
    let mut state = State::new(at(0));
    let dialing = match run::<&'static str, Message>(settings(), "device", &State::new(at(0)), at(0)) {
        Next::Dial(dialing) => dialing,
        _ => unreachable!(),
    };
    let next: Todo = dialing.dialed(&mut state, Err(ConnectError::TimedOut), at(1));
    let backing_off = match next {
        Next::BackOff(backing_off) => backing_off,
        _ => unreachable!(),
    };
    assert_eq!(backing_off.duration, Duration { ticks: 2_000_000 });
    assert_eq!(state.last_connection_event, at(0));
    let next = backing_off.waited(&state, at(2_001));
    connect(next, &mut state, 0, at(2_001));
}

#[test]
fn connections_are_numbered() {
    let mut state = State::new(at(0));
    let mut next = run(settings(), "device", &State::new(at(0)), at(0));
    for index in 0..4u32 {
        let idling = connect(next, &mut state, index, at(0));
        let polling = poll(idling.waited(&state, at(10)));
        let e = ClientError::EmptyTopicNameWithAliasesDisabled;
        next = end(polling.polled(&mut state, Err(e)), &state, index, Error::Client(e));
    }
}

#[test]
fn client_that_cannot_connect_is_reported() {
    let mut state = State::new(at(0));
    let dialing = match run::<&'static str, Message>(settings(), "device", &State::new(at(0)), at(0)) {
        Next::Dial(dialing) => dialing,
        _ => unreachable!(),
    };
    let connecting = match dialing.dialed::<_, Message>(&mut state, Ok(()), at(0)) {
        Next::Connect(connecting) => connecting,
        _ => unreachable!(),
    };
    let e = ClientError::TimeoutOnResponsePacket;
    let next = end(connecting.connected(&state, Err(e)), &state, 0, Error::Client(e));
    connect(next, &mut state, 1, at(0));
}

#[test]
fn rounds_wait_for_the_poll_interval() {
    let (idling, mut state) = first_connection();
    assert_eq!(idling.duration, Duration { ticks: 10_000 });
    let polling = poll(idling.waited(&state, at(10)));
    let polling = poll(polling.polled(&mut state, Ok(true)));
    let pulling = match polling.polled::<_, Message>(&mut state, Ok(false)) {
        Next::Pull(pulling) => pulling,
        _ => unreachable!(),
    };
    assert_eq!(idle(pulling.pulled(&state, None)).duration, Duration { ticks: 10_000 });
}

#[test]
fn pings_are_sent_after_the_interval() {
    let (idling, state) = first_connection();
    let polling = poll(idling.waited(&state, at(2_000)));
    assert_eq!(polling.progress.last_ping_instant, at(0));

    let (idling, mut state) = first_connection();
    let pinging = match idling.waited::<_, Message>(&state, Instant { ticks: 2_000_001 }) {
        Next::Ping(pinging) => pinging,
        _ => unreachable!(),
    };
    let polling = poll(pinging.pinged(&state, Ok(()), at(2_002)));
    assert_eq!(polling.progress.last_ping_instant, Instant { ticks: 2_000_001 });
    let pulling = match polling.polled::<_, Message>(&mut state, Ok(false)) {
        Next::Pull(pulling) => pulling,
        _ => unreachable!(),
    };
    poll(idle(pulling.pulled(&state, None)).waited(&state, at(4_000)));
}

#[test]
fn failed_ping_ends_the_connection() {
    let (idling, mut state) = first_connection();
    let pinging = match idling.waited::<_, Message>(&state, at(3_000)) {
        Next::Ping(pinging) => pinging,
        _ => unreachable!(),
    };
    let e = ClientError::TimeoutOnResponsePacket;
    let next = end(pinging.pinged(&state, Err(e), at(3_001)), &state, 0, Error::Client(e));
    connect(next, &mut state, 1, at(5_001));
}

#[test]
fn stable_connection_is_reported_once() {
    let mut settings = settings();
    settings.ping_interval = Duration { ticks: u64::MAX };
    settings.connection_event_max_interval = Duration { ticks: u64::MAX };
    let mut state = State::new(at(0));
    let idling = connect(run(settings, "device", &State::new(at(0)), at(0)), &mut state, 0, at(0));
    let polling = poll(idling.waited(&state, at(5_000)));
    let pulling = match polling.polled::<_, Message>(&mut state, Ok(false)) {
        Next::Pull(pulling) => pulling,
        _ => unreachable!(),
    };
    let next = idle(pulling.pulled(&state, None)).waited(&state, Instant { ticks: 5_000_001 });
    let (event, next) = announce(next, &state, at(5_001));
    assert!(matches!(event, MqttEvent::ConnectionStable { connection_id }
        if connection_id == id(0)));
    let pulling = match poll(next).polled::<_, Message>(&mut state, Ok(false)) {
        Next::Pull(pulling) => pulling,
        _ => unreachable!(),
    };
    poll(idle(pulling.pulled(&state, None)).waited(&state, at(60_000)));
}

#[test]
fn silent_server_is_left() {
    let mut settings = settings();
    settings.ping_interval = Duration { ticks: u64::MAX };
    settings.stabilisation_interval = Duration { ticks: u64::MAX };
    let mut state = State::new(at(0));
    let idling = connect(run(settings, "device", &State::new(at(0)), at(0)), &mut state, 0, at(0));
    let polling = poll(idling.waited(&state, at(10_000)));
    let pulling = match polling.polled::<_, Message>(&mut state, Ok(false)) {
        Next::Pull(pulling) => pulling,
        _ => unreachable!(),
    };
    let next = idle(pulling.pulled(&state, None)).waited(&state, Instant { ticks: 10_000_001 });
    end(next, &state, 0, Error::MqttServerUnresponsive);
}

#[test]
fn acknowledgement_keeps_the_connection() {
    let mut settings = settings();
    settings.ping_interval = Duration { ticks: u64::MAX };
    settings.stabilisation_interval = Duration { ticks: u64::MAX };
    let mut state = State::new(at(0));
    let idling = connect(run(settings, "device", &State::new(at(0)), at(0)), &mut state, 0, at(0));
    state.record_connection_event(at(6_000));
    poll(idling.waited(&state, at(16_000)));
}

#[test]
fn failed_action_is_performed_again_on_the_next_connection() {
    let (idling, mut state) = first_connection();
    let polling = poll(idling.waited(&state, at(10)));
    let pulling = match polling.polled::<_, Message>(&mut state, Ok(false)) {
        Next::Pull(pulling) => pulling,
        _ => unreachable!(),
    };
    let performing = perform(pulling.pulled(&state, Some("first")));
    assert_eq!(performing.action, "first");
    assert_eq!(performing.performance.connection_id, id(0));
    assert!(!performing.performance.is_retry);
    let pulling = match performing.performance.performed::<_, Message>(&mut state, "first", Ok(())) {
        Next::Pull(pulling) => pulling,
        _ => unreachable!(),
    };
    let performing = perform(pulling.pulled(&state, Some("second")));
    let e = ClientError::TimeoutOnResponsePacket;
    let next = performing.performance.performed(&mut state, "changed", Err(e));
    assert_eq!(state.pending_action, Some("changed"));
    let next = end(next, &state, 0, Error::Client(e));
    assert_eq!(state.pending_action, Some("changed"));

    let idling = connect(next, &mut state, 1, at(3_000));
    let polling = poll(idling.waited(&state, at(3_010)));
    let performing = perform(polling.polled(&mut state, Ok(false)));
    assert_eq!(performing.action, "changed");
    assert_eq!(performing.performance.connection_id, id(1));
    assert!(performing.performance.is_retry);
    assert_eq!(state.pending_action, None);
    let pulling = match performing.performance.performed::<_, Message>(&mut state, "changed", Ok(())) {
        Next::Pull(pulling) => pulling,
        _ => unreachable!(),
    };
    assert_eq!(state.pending_action, None);
    assert!(!perform(pulling.pulled(&state, Some("third"))).performance.is_retry);
}

#[test]
fn only_a_failed_action_is_kept() {
    let mut state: Shared = State::new(at(0));
    assert_eq!(try_action(&mut state, "done", Ok(())), Ok(()));
    assert_eq!(state.pending_action, None);
    let e = ClientError::TimeoutOnResponsePacket;
    assert_eq!(try_action(&mut state, "failed", Err(e)), Err(e));
    assert_eq!(state.pending_action, Some("failed"));
    assert_eq!(state.last_connection_event, at(0));
}

fn message(topic_name: &str) -> ApplicationMessage<'_, 4> {
    ApplicationMessage {
        topic_name,
        payload: b"payload",
        qos: QualityOfService::Qos1,
        retain: false,
        properties: heapless::Vec::new(),
    }
}

fn handle(
    state: &mut Shared,
    event: ClientReceivedEvent<'_, 4>,
) -> Result<Option<MqttEvent<Message>>, EventHandlerError> {
    ChannelEventHandler { connection_id: id(3) }.handle_event(state, event, at(77))
}

#[test]
fn received_events_are_handed_on() {
    let mut state: Shared = State::new(at(0));
    let event = ClientReceivedEvent::ApplicationMessage(message("topic"));
    assert!(matches!(handle(&mut state, event), Ok(Some(MqttEvent::ApplicationEvent {
        connection_id,
        event: Message(topic),
    })) if connection_id == id(3) && topic == "topic"));
    let event = ClientReceivedEvent::SubscriptionGrantedBelowMaximumQos {
        granted_qos: QualityOfService::Qos0,
        maximum_qos: QualityOfService::Qos2,
    };
    assert!(matches!(
        handle(&mut state, event),
        Ok(Some(MqttEvent::SubscriptionGrantedBelowMaximumQos {
            connection_id,
            granted_qos: QualityOfService::Qos0,
            maximum_qos: QualityOfService::Qos2,
        })) if connection_id == id(3)
    ));
    let event = ClientReceivedEvent::PublishedMessageHadNoMatchingSubscribers;
    assert!(matches!(
        handle(&mut state, event),
        Ok(Some(MqttEvent::PublishedMessageHadNoMatchingSubscribers { connection_id }))
            if connection_id == id(3)
    ));
    let event = ClientReceivedEvent::NoSubscriptionExisted;
    assert!(matches!(
        handle(&mut state, event),
        Ok(Some(MqttEvent::NoSubscriptionExisted { connection_id })) if connection_id == id(3)
    ));
    assert_eq!(state.last_connection_event, at(0));
}

#[test]
fn acknowledgement_is_noted_and_not_handed_on() {
    let mut state: Shared = State::new(at(0));
    assert!(matches!(handle(&mut state, ClientReceivedEvent::Ack), Ok(None)));
    assert_eq!(state.last_connection_event, at(77));
}

#[test]
fn message_that_cannot_be_converted_is_an_error() {
    let mut state: Shared = State::new(at(0));
    let event = ClientReceivedEvent::ApplicationMessage(message("other"));
    assert!(matches!(
        handle(&mut state, event),
        Err(EventHandlerError::UnexpectedApplicationMessageTopic)
    ));
    assert_eq!(state.last_connection_event, at(0));
    let handler = ChannelEventHandler { connection_id: id(3) };
    assert!(matches!(
        handler.application_event::<Message>(Err(EventHandlerError::Overflow)),
        Err(EventHandlerError::Overflow)
    ));
}

#[test]
fn events_are_cloned_whole() {
    let event = MqttEvent::ApplicationEvent {
        connection_id: id(5),
        event: Message("text".to_string()),
    };
    assert_eq!(format!("{:?}", event.clone()), format!("{:?}", event));
    let event: MqttEvent<Message> = MqttEvent::Disconnected {
        connection_id: id(6),
        error: Error::MqttServerUnresponsive,
    };
    assert_eq!(format!("{:?}", event.clone()), format!("{:?}", event));
    let event: MqttEvent<Message> = MqttEvent::SubscriptionGrantedBelowMaximumQos {
        connection_id: id(7),
        granted_qos: QualityOfService::Qos0,
        maximum_qos: QualityOfService::Qos1,
    };
    assert_eq!(format!("{:?}", event.clone()), format!("{:?}", event));
}

#[test]
fn silent_server_is_left_after_the_report_that_is_due() {
    let mut settings = settings();
    settings.ping_interval = Duration { ticks: u64::MAX };
    let mut state = State::new(at(0));
    let idling = connect(run(settings, "device", &State::new(at(0)), at(0)), &mut state, 0, at(0));
    let (event, next) = announce(idling.waited(&state, at(10_001)), &state, at(10_002));
    assert!(matches!(event, MqttEvent::ConnectionStable { connection_id }
        if connection_id == id(0)));
    end(next, &state, 0, Error::MqttServerUnresponsive);
}

#[test]
fn events_come_connection_by_connection() {
    let mut state: Shared = State::new(at(0));
    let mut next: Todo = run(settings(), "device", &state, at(0));
    let mut reports = Vec::new();
    let mut handler = None;
    let mut millis = 0;
    while reports.len() < 9 {
        millis += 1_000;
        next = match next {
            Next::Dial(step) => step.dialed(&mut state, Ok(()), at(millis)),
            Next::BackOff(step) => step.waited(&state, at(millis)),
            Next::Connect(step) => {
                handler = Some(step.event_handler);
                // The second client cannot connect.
                let result = if step.event_handler.connection_id == id(1) {
                    Err(ClientError::TimeoutOnResponsePacket)
                } else {
                    Ok(())
                };
                step.connected(&state, result)
            }
            Next::Announce(step) => {
                reports.push(match &step.event {
                    MqttEvent::Connected { connection_id } => (connection_id.index, "made"),
                    MqttEvent::ConnectionStable { connection_id } => {
                        (connection_id.index, "stable")
                    }
                    MqttEvent::Disconnected { connection_id, .. } => {
                        (connection_id.index, "ended")
                    }
                    _ => unreachable!(),
                });
                step.announced(&state, at(millis))
            }
            Next::Idle(step) => step.waited(&state, at(millis)),
            Next::Ping(step) => step.pinged(&state, Ok(()), at(millis)),
            Next::Poll(step) => {
                // The handler passes on one event of each client.
                if let Some(handler) = handler.take() {
                    let event = ClientReceivedEvent::<'_, 4>::NoSubscriptionExisted;
                    match handler.handle_event::<_, Message, 4>(&mut state, event, at(millis)) {
                        Ok(Some(MqttEvent::NoSubscriptionExisted { connection_id })) => {
                            reports.push((connection_id.index, "received"));
                        }
                        _ => unreachable!(),
                    }
                }
                step.polled(&mut state, Ok(false))
            }
            Next::Perform(_) => unreachable!(),
            Next::Pull(step) => step.pulled(&state, None),
        };
    }
    assert_eq!(
        reports,
        vec![
            (0, "made"),
            (0, "received"),
            (0, "stable"),
            (0, "ended"),
            (1, "ended"),
            (2, "made"),
            (2, "received"),
            (2, "stable"),
            (2, "ended"),
        ]
    );
}
