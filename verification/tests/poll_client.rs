use embassy_net::tcp::ConnectError;
use mountain_mqtt::client_state::ClientStateError;
use mountain_mqtt::data::property::PublishProperty;
use mountain_mqtt::data::quality_of_service::QualityOfService;
use mountain_mqtt::data::reason_code::DisconnectReasonCode;
use mountain_mqtt::packets::connect::Will;
use mountain_mqtt_embassy::address::Ipv4Address;
use mountain_mqtt_embassy::error::{ClientError, SendError, StateError};
use mountain_mqtt_embassy::message::{
    ApplicationMessage, ClientReceivedEvent, ClientStateReceiveEvent,
};
use mountain_mqtt_embassy::packet_bin::PacketBin;
use mountain_mqtt_embassy::poll_client::{
    run_mqtt_connection, Arrival, ConnectProgress, ConnectProperty, Connecting,
    ConnectionSettings, Finished, MqttConnectionError, PingIfNeeded, PollClient, ProcessResponse,
    Receive, Settings, TcpError, TryReceive,
};
use mountain_mqtt_embassy::time::{Duration, Instant};

type Client = PollClient<64, 4>;
type Packet = PacketBin<64>;

const NOT_IDLE: StateError = StateError::Reported(ClientStateError::NotIdle);
const SEND: ClientError = ClientError::PacketWrite(SendError::ConnectionSend);

fn settings() -> Settings {
    Settings::new(Ipv4Address { octets: [192, 168, 0, 7] }, 1883)
}

fn at(millis: u64) -> Instant {
    Instant { ticks: millis * 1_000 }
}

fn pingresp() -> Packet {
    PacketBin::from_slice(&[0xD0, 0x00]).unwrap()
}

fn connack() -> Packet {
    PacketBin::from_slice(&[0x20, 0x03, 0x00, 0x00, 0x00]).unwrap()
}

fn publish() -> Packet {
    PacketBin::from_slice(&[0x30, 0x05, 0x00, 0x01, b't', 0x00, b'p']).unwrap()
}

fn connection_settings() -> ConnectionSettings<'static> {
    ConnectionSettings {
        keep_alive: 60,
        username: Some("user"),
        password: Some(b"word"),
        client_id: "client",
    }
}

/// A client that has sent the connect packet.
fn connecting(sent: Instant) -> (Client, Connecting) {
    let mut client = Client::new(settings());
    let sending = client
        .connect(&connection_settings())
        .recorded(&client, Ok(()))
        .unwrap_or_else(|_| unreachable!());
    let connecting = sending
        .sent(&mut client, Ok(()), sent)
        .unwrap_or_else(|_| unreachable!());
    (client, connecting)
}

/// A client that is connected.
fn connected(sent: Instant, received: Instant) -> Client {
    let (mut client, connecting) = connecting(sent);
    let receiving = match connecting.wait_for_connected(true) {
        ConnectProgress::Receive(receiving) => receiving,
        ConnectProgress::Done => unreachable!(),
    };
    let recording = receiving
        .received(&mut client, Ok(connack()), received)
        .unwrap_or_else(|_| unreachable!());
    let connecting = recording
        .recorded(&mut client, Ok(ClientStateReceiveEvent::Ack))
        .unwrap_or_else(|_| unreachable!());
    assert!(matches!(connecting.wait_for_connected(false), ConnectProgress::Done));
    client
}

fn pings(client: &mut Client, now: Instant) -> bool {
    match client.ping_if_needed(0, now) {
        Ok(PingIfNeeded::Send(ping)) => {
            assert_eq!(ping.packet.msg_data(), &[0xC0, 0x00]);
            assert_eq!(ping.timeout, Duration { ticks: 5_000_000 });
            let recording = ping.sent(Ok(())).unwrap_or_else(|_| unreachable!());
            assert!(recording.recorded(client, Ok(()), now).is_ok());
            true
        }
        Ok(PingIfNeeded::NotSent) => false,
        Err(_) => unreachable!(),
    }
}

fn timed_out(client: &mut Client, now: Instant) -> bool {
    match client.try_receive(1, now) {
        Ok(_) => false,
        Err(e) => {
            assert_eq!(e, ClientError::ReceiveTimeoutServerUnresponsive);
            true
        }
    }
}

#[test]
fn default_times_of_the_client() {
    let next = run_mqtt_connection(settings());
    assert_eq!(next.address, Ipv4Address { octets: [192, 168, 0, 7] });
    assert_eq!(next.port, 1883);
    let client = connected(at(0), at(1));
    let wait = client.receive();
    assert_eq!(wait.ping_at, Some(at(2_000)));
    assert_eq!(wait.receive_timeout_at, Some(at(10_001)));
}

#[test]
fn new_client_has_no_deadlines() {
    let mut client = Client::new(settings());
    let wait = client.receive();
    assert_eq!(wait.ping_at, None);
    assert_eq!(wait.receive_timeout_at, None);
    assert!(!timed_out(&mut client, Instant { ticks: u64::MAX }));
    assert!(!pings(&mut client, Instant { ticks: u64::MAX }));
}

#[test]
fn connect_packet_says_what_the_settings_say() {
    let client = Client::new(settings());
    let packet = client.connect(&connection_settings()).packet;
    assert_eq!(packet.keep_alive, 60);
    assert_eq!(packet.username, Some("user"));
    assert_eq!(packet.password, Some(&b"word"[..]));
    assert_eq!(packet.client_id, "client");
    assert!(packet.clean_start);
    assert!(packet.will.is_none());
    assert_eq!(&packet.properties[..], &[ConnectProperty::TopicAliasMaximum(0)]);
}

#[test]
fn connect_packet_carries_the_will() {
    let client = Client::new(settings());
    let will = || Will::<0>::new(QualityOfService::Qos1, true, "topic", b"gone", heapless::Vec::new());
    let packet = client.connect_with_will(&connection_settings(), Some(will())).packet;
    assert!(packet.will == Some(will()));
    assert_eq!(&packet.properties[..], &[ConnectProperty::TopicAliasMaximum(0)]);
}

#[test]
fn refused_connect_packet_is_not_sent() {
    let client = Client::new(settings());
    let next = client.connect_with_packet("any packet").recorded(&client, Err(NOT_IDLE));
    assert!(matches!(next, Err(e) if e == ClientError::ClientState(NOT_IDLE)));
}

#[test]
fn unsent_connect_packet_starts_nothing() {
    let mut client = Client::new(settings());
    let sending = client
        .connect_with_packet("any packet")
        .recorded(&client, Ok(()))
        .unwrap_or_else(|_| unreachable!());
    assert_eq!(sending.packet, "any packet");
    assert_eq!(sending.timeout, Duration { ticks: 5_000_000 });
    assert!(matches!(sending.sent(&mut client, Err(SEND), at(3)), Err(e) if e == SEND));
    assert_eq!(client.receive().receive_timeout_at, None);
}

#[test]
fn server_has_to_answer_the_connect_packet_in_time() {
    let (mut client, _) = connecting(at(100));
    assert_eq!(client.receive().ping_at, None);
    assert!(!timed_out(&mut client, at(10_100)));
    assert!(timed_out(&mut client, Instant { ticks: 10_100_001 }));
}

#[test]
fn no_ping_before_the_client_is_connected() {
    let (mut client, _) = connecting(at(0));
    assert!(!pings(&mut client, at(5_000)));
}

#[test]
fn acknowledged_connection_moves_the_deadline() {
    let mut client = connected(at(0), at(4_000));
    assert!(!timed_out(&mut client, at(14_000)));
    assert!(timed_out(&mut client, at(14_001)));
}

#[test]
fn connecting_fails_on_anything_but_an_acknowledgement() {
    let (mut client, step) = connecting(at(0));
    let receiving = match step.wait_for_connected(true) {
        ConnectProgress::Receive(receiving) => receiving,
        ConnectProgress::Done => unreachable!(),
    };
    let recording = receiving
        .received(&mut client, Ok(publish()), at(1))
        .unwrap_or_else(|_| unreachable!());
    assert_eq!(recording.packet.len(), 7);
    let next = recording.recorded(&mut client, Ok(ClientStateReceiveEvent::NoSubscriptionExisted));
    assert!(matches!(next, Err(e) if e == ClientError::ClientState(
        StateError::ReceivedPacketOtherThanConnackOrAuthWhenConnecting
    )));
    assert_eq!(client.receive().ping_at, None);
    assert_eq!(client.receive().receive_timeout_at, Some(at(10_000)));
}

#[test]
fn connecting_fails_on_refused_or_unreadable_packets() {
    let (mut client, step) = connecting(at(0));
    let receiving = match step.wait_for_connected(true) {
        ConnectProgress::Receive(receiving) => receiving,
        ConnectProgress::Done => unreachable!(),
    };
    let recording = receiving
        .received(&mut client, Ok(connack()), at(1))
        .unwrap_or_else(|_| unreachable!());
    let next = recording.recorded(&mut client, Err(NOT_IDLE));
    assert!(matches!(next, Err(e) if e == ClientError::ClientState(NOT_IDLE)));

    for received in [Ok(PacketBin::empty()), Err(SEND)] {
        let failed = received.is_err();
        let (mut client, step) = connecting(at(0));
        let receiving = match step.wait_for_connected(true) {
            ConnectProgress::Receive(receiving) => receiving,
            ConnectProgress::Done => unreachable!(),
        };
        match receiving.received(&mut client, received, at(1)) {
            Err(ClientError::PacketRead(_)) => assert!(!failed),
            Err(e) => assert!(failed && e == SEND),
            Ok(_) => unreachable!(),
        }
    }
}

#[test]
fn pings_follow_the_interval() {
    let mut client = connected(at(0), at(500));
    assert!(!pings(&mut client, at(2_000)));
    assert!(pings(&mut client, at(2_001)));
    assert!(!pings(&mut client, at(4_001)));
    assert!(pings(&mut client, at(4_002)));
}

#[test]
fn ping_waits_for_the_answer_to_the_last() {
    let mut client = connected(at(0), at(1));
    let next = client.ping_if_needed(1, at(2_001));
    assert!(matches!(next, Ok(PingIfNeeded::NotSent)));
    assert_eq!(client.receive().ping_at, Some(at(2_101)));
    assert!(!pings(&mut client, at(2_101)));
    assert!(pings(&mut client, at(2_102)));
}

#[test]
fn failed_ping_changes_nothing() {
    let mut client = connected(at(0), at(1));
    let send = |client: &mut Client| match client.ping_if_needed(0, at(3_000)) {
        Ok(PingIfNeeded::Send(ping)) => ping,
        _ => unreachable!(),
    };
    assert!(matches!(send(&mut client).sent(Err(SEND)), Err(e) if e == SEND));
    assert_eq!(client.receive().ping_at, Some(at(2_000)));

    let recording = send(&mut client).sent(Ok(())).unwrap_or_else(|_| unreachable!());
    let next = recording.recorded(&mut client, Err(NOT_IDLE), at(3_000));
    assert!(matches!(next, Err(e) if e == ClientError::ClientState(NOT_IDLE)));
    assert_eq!(client.receive().ping_at, Some(at(2_000)));
}

#[test]
fn client_without_room_for_a_packet_cannot_disconnect() {
    let mut client: PollClient<1, 0> = PollClient::new(settings());
    let sending = client
        .connect_with_packet(())
        .recorded(&client, Ok(()))
        .unwrap_or_else(|_| unreachable!());
    let step = sending.sent(&mut client, Ok(()), at(0)).unwrap_or_else(|_| unreachable!());
    assert!(matches!(step.wait_for_connected(true), ConnectProgress::Receive(_)));
    // Nothing of use fits into one byte, so this client is never connected and never pings.
    assert!(matches!(client.ping_if_needed(0, at(9_000)), Ok(PingIfNeeded::NotSent)));
    assert!(matches!(client.disconnect(), Err(e)
        if e == ClientError::PacketWrite(SendError::Overflow)));
}

#[test]
fn try_receive_checks_then_pings_then_takes() {
    let mut client = connected(at(0), at(0));
    assert!(matches!(client.try_receive(0, at(1_000)), Ok(TryReceive::Take(_))));
    match client.try_receive(0, at(2_500)) {
        Ok(TryReceive::Ping(ping)) => {
            assert_eq!(ping.packet.msg_data(), &[0xC0, 0x00]);
            let recording = ping.sent(Ok(())).unwrap_or_else(|_| unreachable!());
            assert!(recording.recorded(&mut client, Ok(()), at(2_600)).is_ok());
        }
        _ => unreachable!(),
    }
    assert_eq!(client.receive().ping_at, Some(at(4_600)));
    assert!(matches!(client.try_receive(1, at(5_000)), Ok(TryReceive::Take(_))));
    assert_eq!(client.receive().ping_at, Some(at(5_100)));
    assert!(matches!(client.try_receive(0, at(10_001)),
        Err(ClientError::ReceiveTimeoutServerUnresponsive)));
    assert_eq!(client.receive().ping_at, Some(at(5_100)));
}

#[test]
fn receive_returns_what_comes_first() {
    let mut client = connected(at(0), at(0));
    match client.receive().arrived(&mut client, Arrival::Packet(pingresp())) {
        Ok(Receive::Received(packet)) => assert_eq!(packet.msg_data(), &[0xD0, 0x00]),
        _ => unreachable!(),
    }
    let next = client.receive().arrived(&mut client, Arrival::ReceiveTimeout);
    assert!(matches!(next, Err(ClientError::ReceiveTimeoutServerUnresponsive)));

    let due = Arrival::PingDue { pending_ping_count: 1, now: at(2_000) };
    match client.receive().arrived(&mut client, due) {
        Ok(Receive::Wait(wait)) => {
            assert_eq!(wait.ping_at, Some(at(2_100)));
            assert_eq!(wait.receive_timeout_at, Some(at(10_000)));
        }
        _ => unreachable!(),
    }

    let due = Arrival::PingDue { pending_ping_count: 0, now: at(2_100) };
    match client.receive().arrived(&mut client, due) {
        Ok(Receive::Ping(ping)) => {
            let recording = ping.sent(Ok(())).unwrap_or_else(|_| unreachable!());
            let again = recording
                .recorded(&mut client, Ok(()), at(2_200))
                .unwrap_or_else(|_| unreachable!());
            assert_eq!(again.wait(&client).ping_at, Some(at(4_200)));
        }
        _ => unreachable!(),
    }
}

#[test]
fn only_signs_of_life_move_the_deadline() {
    let mut client = connected(at(0), at(0));
    assert!(client.process(&publish(), at(9_000)).is_ok());
    assert_eq!(client.receive().receive_timeout_at, Some(at(10_000)));
    assert!(client.process(&pingresp(), at(9_500)).is_ok());
    assert_eq!(client.receive().receive_timeout_at, Some(at(19_500)));
    assert!(client.process(&connack(), at(9_600)).is_ok());
    assert_eq!(client.receive().receive_timeout_at, Some(at(19_600)));
}

#[test]
fn late_packet_counts_only_as_sign_of_life() {
    let mut client = connected(at(0), at(0));
    assert!(matches!(client.process(&publish(), at(10_001)),
        Err(ClientError::ReceiveTimeoutServerUnresponsive)));
    assert!(client.process(&pingresp(), at(10_001)).is_ok());
    assert!(client.process(&publish(), at(10_001)).is_ok());
}

#[test]
fn unreadable_packet_is_an_error() {
    let mut client = connected(at(0), at(0));
    let packet = PacketBin::from_slice(&[0xD0]).unwrap();
    assert!(matches!(client.process(&packet, at(1)), Err(ClientError::PacketRead(_))));
    assert_eq!(client.receive().receive_timeout_at, Some(at(10_000)));
}

#[test]
fn answer_is_sent_before_the_packet_is_taken() {
    let mut client = connected(at(0), at(0));
    let packet = publish();
    let responding = client.process(&packet, at(1)).unwrap_or_else(|_| unreachable!());
    match responding.response(Ok(Some("answer"))) {
        Ok(ProcessResponse::Send(sending)) => {
            assert_eq!(sending.response, "answer");
            assert_eq!(sending.timeout, Duration { ticks: 5_000_000 });
            let receiving = sending.sent(Ok(())).unwrap_or_else(|_| unreachable!());
            assert_eq!(receiving.packet.msg_data(), packet.msg_data());
        }
        _ => unreachable!(),
    }

    let responding = client.process(&packet, at(1)).unwrap_or_else(|_| unreachable!());
    match responding.response(Ok(Some("answer"))) {
        Ok(ProcessResponse::Send(sending)) => {
            assert!(matches!(sending.sent(Err(SEND)), Err(e) if e == SEND));
        }
        _ => unreachable!(),
    }

    let responding = client.process(&packet, at(1)).unwrap_or_else(|_| unreachable!());
    let next = responding.response::<()>(Err(NOT_IDLE));
    assert!(matches!(next, Err(e) if e == ClientError::ClientState(NOT_IDLE)));
}

fn message(topic_name: &str) -> ApplicationMessage<'_, 4> {
    ApplicationMessage {
        topic_name,
        payload: b"payload",
        qos: QualityOfService::Qos1,
        retain: true,
        properties: heapless::Vec::new(),
    }
}

fn report<'a>(
    result: Result<ClientStateReceiveEvent<'a, 4>, StateError>,
) -> Result<ClientReceivedEvent<'a, 4>, ClientError> {
    let mut client = connected(at(0), at(0));
    let packet = pingresp();
    let responding = client.process(&packet, at(1)).unwrap_or_else(|_| unreachable!());
    assert_eq!(responding.packet.msg_data(), &[0xD0, 0x00]);
    match responding.response::<()>(Ok(None)) {
        Ok(ProcessResponse::Receive(receiving)) => {
            assert_eq!(receiving.packet.msg_data(), &[0xD0, 0x00]);
            receiving.received(result)
        }
        _ => unreachable!(),
    }
}

#[test]
fn events_are_reported() {
    assert_eq!(report(Ok(ClientStateReceiveEvent::Ack)), Ok(ClientReceivedEvent::Ack));
    assert_eq!(
        report(Ok(ClientStateReceiveEvent::Publish { publish: message("topic") })),
        Ok(ClientReceivedEvent::ApplicationMessage(message("topic")))
    );
    assert_eq!(
        report(Ok(ClientStateReceiveEvent::PublishAndPuback { publish: message("topic") })),
        Ok(ClientReceivedEvent::ApplicationMessage(message("topic")))
    );
    assert_eq!(
        report(Ok(ClientStateReceiveEvent::SubscriptionGrantedBelowMaximumQos {
            granted_qos: QualityOfService::Qos0,
            maximum_qos: QualityOfService::Qos1,
        })),
        Ok(ClientReceivedEvent::SubscriptionGrantedBelowMaximumQos {
            granted_qos: QualityOfService::Qos0,
            maximum_qos: QualityOfService::Qos1,
        })
    );
    assert_eq!(
        report(Ok(ClientStateReceiveEvent::PublishedMessageHadNoMatchingSubscribers)),
        Ok(ClientReceivedEvent::PublishedMessageHadNoMatchingSubscribers)
    );
    assert_eq!(
        report(Ok(ClientStateReceiveEvent::NoSubscriptionExisted)),
        Ok(ClientReceivedEvent::NoSubscriptionExisted)
    );
}

#[test]
fn events_that_are_errors_are_reported() {
    assert_eq!(
        report(Ok(ClientStateReceiveEvent::Publish { publish: message("") })),
        Err(ClientError::EmptyTopicNameWithAliasesDisabled)
    );
    assert_eq!(
        report(Ok(ClientStateReceiveEvent::PublishAndPuback { publish: message("") })),
        Err(ClientError::EmptyTopicNameWithAliasesDisabled)
    );
    assert_eq!(
        report(Ok(ClientStateReceiveEvent::Disconnect {
            reason_code: DisconnectReasonCode::Success,
        })),
        Err(ClientError::Disconnected(DisconnectReasonCode::Success))
    );
    assert_eq!(report(Err(NOT_IDLE)), Err(ClientError::ClientState(NOT_IDLE)));
}

#[test]
fn disconnect_flushes_before_the_state_learns_of_it() {
    let client = connected(at(0), at(0));
    let disconnecting = client.disconnect().unwrap_or_else(|_| unreachable!());
    assert_eq!(disconnecting.packet.msg_data(), &[0xE0, 0x00]);
    assert_eq!(disconnecting.timeout, Duration { ticks: 5_000_000 });
    let flushing = disconnecting.sent(Ok(())).unwrap_or_else(|_| unreachable!());
    assert_eq!(flushing.packet.len(), 0);
    assert_eq!(flushing.timeout, Duration { ticks: 5_000_000 });
    let recording = flushing.sent(Ok(())).unwrap_or_else(|_| unreachable!());
    assert_eq!(recording.recorded(Ok(())), Ok(()));
}

#[test]
fn disconnect_fails_where_a_step_fails() {
    let client = connected(at(0), at(0));
    let packet = || PacketBin::from_slice(&[0xE0, 0x01, 0x04]).unwrap();
    let disconnecting = client.disconnect_with_packet(packet());
    assert_eq!(disconnecting.packet.msg_data(), &[0xE0, 0x01, 0x04]);
    assert!(matches!(disconnecting.sent(Err(SEND)), Err(e) if e == SEND));
    let flushing = client
        .disconnect_with_packet(packet())
        .sent(Ok(()))
        .unwrap_or_else(|_| unreachable!());
    assert!(matches!(flushing.sent(Err(SEND)), Err(e) if e == SEND));
    let flushing = client
        .disconnect_with_packet(packet())
        .sent(Ok(()))
        .unwrap_or_else(|_| unreachable!());
    let recording = flushing.sent(Ok(())).unwrap_or_else(|_| unreachable!());
    assert_eq!(recording.recorded(Err(NOT_IDLE)), Err(ClientError::ClientState(NOT_IDLE)));
}

#[test]
fn requests_carry_their_arguments() {
    let client = connected(at(0), at(0));
    let subscribing = client.subscribe("topic", QualityOfService::Qos1);
    assert_eq!(subscribing.request.topic_name, "topic");
    assert_eq!(subscribing.request.maximum_qos, QualityOfService::Qos1);
    assert_eq!(subscribing.timeout, Duration { ticks: 5_000_000 });
    assert_eq!(client.unsubscribe("other").request.topic_name, "other");

    let publishing = client.publish("topic", b"payload", QualityOfService::Qos0, true);
    assert_eq!(publishing.request.topic_name, "topic");
    assert_eq!(publishing.request.payload, b"payload");
    assert_eq!(publishing.request.qos, QualityOfService::Qos0);
    assert!(publishing.request.retain);
    assert_eq!(publishing.request.properties.len(), 0);

    let mut properties = heapless::Vec::<PublishProperty<'_>, 2>::new();
    properties.push(PublishProperty::TopicAlias(3.into())).unwrap();
    let publishing = client.publish_with_properties(
        "topic",
        b"payload",
        QualityOfService::Qos0,
        false,
        properties,
    );
    assert!(!publishing.request.retain);
    assert!(publishing.request.properties[..] == [PublishProperty::TopicAlias(3.into())]);
}

#[test]
fn state_learns_of_a_request_only_once_it_was_sent() {
    let client = connected(at(0), at(0));
    let built = || client.unsubscribe("topic").built(Ok("packet")).unwrap_or_else(|_| unreachable!());
    let sending = built();
    assert_eq!(sending.packet, "packet");
    assert_eq!(sending.timeout, Duration { ticks: 5_000_000 });
    let recording = sending.sent(Ok(())).unwrap_or_else(|_| unreachable!());
    assert_eq!(recording.packet, "packet");
    assert_eq!(recording.recorded(Ok(())), Ok(()));

    let refused = client.unsubscribe("topic").built::<()>(Err(NOT_IDLE));
    assert!(matches!(refused, Err(e) if e == ClientError::ClientState(NOT_IDLE)));
    assert!(matches!(built().sent(Err(SEND)), Err(e) if e == SEND));
    let recording = built().sent(Ok(())).unwrap_or_else(|_| unreachable!());
    assert_eq!(recording.recorded(Err(NOT_IDLE)), Err(ClientError::ClientState(NOT_IDLE)));
}

#[test]
fn connection_ends_with_the_first_that_ends() {
    let end = |finished| {
        let serving = run_mqtt_connection(settings())
            .connected::<64, 4>(Ok(()))
            .unwrap_or_else(|_| unreachable!());
        assert_eq!(serving.client.receive().receive_timeout_at, None);
        serving.end.finished(finished)
    };
    assert!(end(Finished::Client(Ok(()))).is_ok());
    assert!(matches!(end(Finished::Client(Err(SEND))),
        Err(MqttConnectionError::ClientError(e)) if e == SEND));
    assert!(matches!(end(Finished::Receive(ClientError::TimeoutOnResponsePacket)),
        Err(MqttConnectionError::ClientError(ClientError::TimeoutOnResponsePacket))));
    assert!(matches!(end(Finished::Write(TcpError::ConnectionReset)),
        Err(MqttConnectionError::ClientError(e)) if e == SEND));
}

#[test]
fn unconnected_socket_is_an_error() {
    let next = run_mqtt_connection(settings()).connected::<64, 4>(Err(ConnectError::NoRoute));
    assert!(matches!(next, Err(MqttConnectionError::ConnectError(ConnectError::NoRoute))));
}

#[test]
fn repeated_processing_is_as_the_first() {
    let mut once = connected(at(0), at(0));
    assert!(once.process(&pingresp(), at(200)).is_ok());
    let mut twice = connected(at(0), at(0));
    assert!(twice.process(&pingresp(), at(100)).is_ok());
    assert!(twice.process(&pingresp(), at(200)).is_ok());
    assert_eq!(once.receive().receive_timeout_at, twice.receive().receive_timeout_at);
}

#[test]
fn second_ping_waits_for_the_answer_to_the_first() {
    let mut client = connected(at(0), at(0));
    let mut pending: u32 = 0;
    let mut sent = Vec::new();
    for millis in (100..9_000u64).step_by(100) {
        if millis == 5_000 {
            assert!(client.process(&pingresp(), at(millis)).is_ok());
            pending = pending.saturating_sub(1);
        }
        if let Ok(PingIfNeeded::Send(ping)) = client.ping_if_needed(pending, at(millis)) {
            let recording = ping.sent(Ok(())).unwrap_or_else(|_| unreachable!());
            assert!(recording.recorded(&mut client, Ok(()), at(millis)).is_ok());
            pending += 1;
            sent.push(millis);
        }
        assert!(pending <= 1);
    }
    assert_eq!(sent, vec![2_100, 5_000]);
}
