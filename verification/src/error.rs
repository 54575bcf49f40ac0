//! The errors of the client and of the packets it reads and writes.

use vstd::prelude::*;

verus! {

/// `mountain_mqtt::error::PacketReadError`, carried through unread.
#[verifier::external_type_specification]
#[verifier::external_body]
pub struct ExPacketReadError(mountain_mqtt::error::PacketReadError);

/// `mountain_mqtt::client_state::ClientStateError`, carried through unread.
#[verifier::external_type_specification]
#[verifier::external_body]
pub struct ExClientStateError(mountain_mqtt::client_state::ClientStateError);

/// `mountain_mqtt::client::EventHandlerError`, carried through unread.
#[verifier::external_type_specification]
#[verifier::external_body]
pub struct ExEventHandlerError(mountain_mqtt::client::EventHandlerError);

/// `mountain_mqtt::data::reason_code::DisconnectReasonCode`, carried through unread.
#[verifier::external_type_specification]
#[verifier::external_body]
pub struct ExDisconnectReasonCode(mountain_mqtt::data::reason_code::DisconnectReasonCode);

/// Why a packet could not be sent.
#[derive(Debug, Clone, Copy, PartialEq, Eq, Structural)]
pub enum SendError {
    /// The packet does not fit in the buffer.
    Overflow,

    /// A string of the packet holds a null character.
    NullCharacterInString,

    /// A number of the packet is too large for its encoding.
    VariableByteIntegerTooLarge,

    /// The packet holds too much data.
    DataTooLarge,

    /// A string of the packet is too long.
    StringTooLarge,

    /// The connection did not take the packet.
    ConnectionSend,
}

/// Why the client state and a packet do not go together.
#[derive(Debug, Clone, Copy, PartialEq)]
pub enum StateError {
    /// While connecting, the server sent something else than the answer to the connect
    /// packet.
    ReceivedPacketOtherThanConnackOrAuthWhenConnecting,

    /// The client state itself refused.
    Reported(mountain_mqtt::client_state::ClientStateError),
}

/// The errors of a client.
#[derive(Debug, Clone, Copy, PartialEq)]
pub enum ClientError {
    /// A packet could not be sent.
    PacketWrite(SendError),

    /// Received data is not an MQTT packet, or could not be received.
    PacketRead(mountain_mqtt::error::PacketReadError),

    /// The client state refused a packet or an operation.
    ClientState(StateError),

    /// The server did not answer a packet that needs an answer in time.
    TimeoutOnResponsePacket,

    /// The server disconnected the client.
    Disconnected(mountain_mqtt::data::reason_code::DisconnectReasonCode),

    /// The handler of received events failed.
    EventHandler(mountain_mqtt::client::EventHandlerError),

    /// The server sent a message without a topic name, though topic aliases are disabled.
    EmptyTopicNameWithAliasesDisabled,

    /// The server has not answered for too long.
    ReceiveTimeoutServerUnresponsive,
}

} // verus!
