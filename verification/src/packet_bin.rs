//! MQTT packets in binary form.

use vstd::prelude::*;
use mountain_mqtt::codec::mqtt_reader::{MqttBufReader, MqttReader};
use mountain_mqtt::codec::mqtt_writer::{MqttBufWriter, MqttWriter};
use mountain_mqtt::error::PacketWriteError;
use mountain_mqtt::packets::disconnect::Disconnect;
use mountain_mqtt::packets::packet::Packet;
use mountain_mqtt::packets::packet_generic::PacketGeneric;
use mountain_mqtt::packets::pingreq::Pingreq;

use crate::error::SendError;

verus! {

/// The kinds of MQTT packet.
#[derive(Debug, Clone, Copy, PartialEq, Eq, Structural)]
pub enum PacketType {
    Connect,
    Connack,
    Publish,
    Puback,
    Pubrec,
    Pubrel,
    Pubcomp,
    Subscribe,
    Suback,
    Unsubscribe,
    Unsuback,
    Pingreq,
    Pingresp,
    Disconnect,
    Auth,
}

impl PacketType {
    /// The kind that a number stands for, in the upper half of a packet's first byte.
    pub open spec fn of_code(code: u8) -> PacketType {
        if code == 1 {
            PacketType::Connect
        } else if code == 2 {
            PacketType::Connack
        } else if code == 3 {
            PacketType::Publish
        } else if code == 4 {
            PacketType::Puback
        } else if code == 5 {
            PacketType::Pubrec
        } else if code == 6 {
            PacketType::Pubrel
        } else if code == 7 {
            PacketType::Pubcomp
        } else if code == 8 {
            PacketType::Subscribe
        } else if code == 9 {
            PacketType::Suback
        } else if code == 10 {
            PacketType::Unsubscribe
        } else if code == 11 {
            PacketType::Unsuback
        } else if code == 12 {
            PacketType::Pingreq
        } else if code == 13 {
            PacketType::Pingresp
        } else if code == 14 {
            PacketType::Disconnect
        } else {
            PacketType::Auth
        }
    }

    /// The kind that a number stands for.
    fn from_code(code: u8) -> (kind: PacketType)
        requires
            1 <= code <= 15,
        ensures
            kind == PacketType::of_code(code),
    {
        match code {
            1 => PacketType::Connect,
            2 => PacketType::Connack,
            3 => PacketType::Publish,
            4 => PacketType::Puback,
            5 => PacketType::Pubrec,
            6 => PacketType::Pubrel,
            7 => PacketType::Pubcomp,
            8 => PacketType::Subscribe,
            9 => PacketType::Suback,
            10 => PacketType::Unsubscribe,
            11 => PacketType::Unsuback,
            12 => PacketType::Pingreq,
            13 => PacketType::Pingresp,
            14 => PacketType::Disconnect,
            _ => PacketType::Auth,
        }
    }
}

/// The binary form of a packet that asks the server for a sign of life.
pub open spec fn pingreq_bytes() -> Seq<u8> {
    seq![0xC0u8, 0x00u8]
}

/// The binary form of a packet that ends the connection, with the reason "success" and no
/// properties.
pub open spec fn disconnect_bytes() -> Seq<u8> {
    seq![0xE0u8, 0x00u8]
}

/// The binary form of the server's answer to a ping.
pub open spec fn pingresp_bytes() -> Seq<u8> {
    seq![0xD0u8, 0x00u8]
}

/// What decoding `data` as an MQTT packet gives: the number of the packet's kind, or why
/// it is none. A packet with more than `max_properties` properties is not accepted.
pub uninterp spec fn decoded_code(
    data: Seq<u8>,
    max_properties: nat,
) -> Result<u8, mountain_mqtt::error::PacketReadError>;

/// What decoding `data` as an MQTT packet gives: the packet's kind, or why it is none.
pub open spec fn decoded_kind(
    data: Seq<u8>,
    max_properties: nat,
) -> Result<PacketType, mountain_mqtt::error::PacketReadError> {
    match decoded_code(data, max_properties) {
        Ok(code) => Ok(PacketType::of_code(code)),
        Err(e) => Err(e),
    }
}

/// Calls the reader of `mountain_mqtt` on a whole packet, with room for `P` properties of
/// the packet and none for properties of a will or for further subscriptions.
/// The kind of the packet is what the upper half of its first byte says. A packet has a
/// first byte and a length. The two bytes of a ping response are such a packet.
#[verifier::external_body]
fn decode<const P: usize>(data: &[u8]) -> (code: Result<u8, mountain_mqtt::error::PacketReadError>)
    ensures
        code == decoded_code(data@, P as nat),
        code matches Ok(c) ==> data@.len() >= 2 && c == data@[0] / 16 && 1 <= c <= 15,
        data@ == pingresp_bytes() ==> code is Ok && code->Ok_0 == 13,
{
    let packet: PacketGeneric<'_, P, 0, 0> = MqttBufReader::new(data).get()?;
    Ok(packet.packet_type() as u8)
}

/// Calls the writer of `mountain_mqtt` on a default `Pingreq`, in a buffer of `N` bytes.
/// It writes two bytes. Where they do not fit, it fails with `PacketWriteError::Overflow`.
#[verifier::external_body]
fn encode_pingreq<const N: usize>() -> (data: Result<Vec<u8>, SendError>)
    ensures
        data is Ok <==> N >= 2,
        data matches Ok(d) ==> d@ == pingreq_bytes(),
        data matches Err(e) ==> e == SendError::Overflow,
{
    let mut buf = [0u8; N];
    let mut writer = MqttBufWriter::new(&mut buf);
    match writer.put(&Pingreq::default()) {
        Ok(()) => {},
        Err(PacketWriteError::Overflow) => return Err(SendError::Overflow),
        Err(PacketWriteError::NullCharacterInString) => return Err(SendError::NullCharacterInString),
        Err(PacketWriteError::VariableByteIntegerTooLarge) => return Err(SendError::VariableByteIntegerTooLarge),
        Err(PacketWriteError::DataTooLarge) => return Err(SendError::DataTooLarge),
        Err(PacketWriteError::StringTooLarge) => return Err(SendError::StringTooLarge),
        Err(PacketWriteError::ConnectionSend) => return Err(SendError::ConnectionSend),
    }
    let len = writer.position();
    Ok(buf[..len].to_vec())
}

/// Calls the writer of `mountain_mqtt` on a default `Disconnect`, in a buffer of `N`
/// bytes. It writes two bytes. Where they do not fit, it fails with
/// `PacketWriteError::Overflow`.
#[verifier::external_body]
fn encode_disconnect<const N: usize>() -> (data: Result<Vec<u8>, SendError>)
    ensures
        data is Ok <==> N >= 2,
        data matches Ok(d) ==> d@ == disconnect_bytes(),
        data matches Err(e) ==> e == SendError::Overflow,
{
    let mut buf = [0u8; N];
    let mut writer = MqttBufWriter::new(&mut buf);
    match writer.put(&Disconnect::default()) {
        Ok(()) => {},
        Err(PacketWriteError::Overflow) => return Err(SendError::Overflow),
        Err(PacketWriteError::NullCharacterInString) => return Err(SendError::NullCharacterInString),
        Err(PacketWriteError::VariableByteIntegerTooLarge) => return Err(SendError::VariableByteIntegerTooLarge),
        Err(PacketWriteError::DataTooLarge) => return Err(SendError::DataTooLarge),
        Err(PacketWriteError::StringTooLarge) => return Err(SendError::StringTooLarge),
        Err(PacketWriteError::ConnectionSend) => return Err(SendError::ConnectionSend),
    }
    let len = writer.position();
    Ok(buf[..len].to_vec())
}

/// A packet in binary form, of at most `N` bytes. One without any bytes carries nothing:
/// it serves to flush the packets queued before it.
#[derive(Debug)]
pub struct PacketBin<const N: usize> {
    data: Vec<u8>,
}

impl<const N: usize> View for PacketBin<N> {
    type V = Seq<u8>;

    closed spec fn view(&self) -> Seq<u8> {
        self.data@
    }
}

impl<const N: usize> PacketBin<N> {
    #[verifier::type_invariant]
    spec fn fits(self) -> bool {
        self.data@.len() <= N
    }

    /// A packet without any bytes.
    pub fn empty() -> (packet: Self)
        ensures
            packet@ == Seq::<u8>::empty(),
    {
        PacketBin { data: Vec::new() }
    }

    /// The packet that consists of the given bytes, if it is not too long.
    pub fn from_slice(data: &[u8]) -> (packet: Option<Self>)
        ensures
            packet is Some <==> data@.len() <= N,
            packet matches Some(p) ==> p@ == data@,
    {
        if data.len() <= N {
            let mut copy: Vec<u8> = Vec::new();
            copy.extend_from_slice(data);
            assert(copy@ =~= data@);
            Some(PacketBin { data: copy })
        } else {
            None
        }
    }

    /// A packet that asks the server for a sign of life. It needs room for two bytes.
    pub fn pingreq() -> (packet: Result<Self, SendError>)
        ensures
            packet is Ok <==> N >= 2,
            packet matches Ok(p) ==> p@ == pingreq_bytes(),
            packet matches Err(e) ==> e == SendError::Overflow,
    {
        match encode_pingreq::<N>() {
            Ok(data) => Ok(PacketBin { data }),
            Err(e) => Err(e),
        }
    }

    /// A packet that ends the connection, with the reason "success" and no properties. It
    /// needs room for two bytes.
    pub fn disconnect() -> (packet: Result<Self, SendError>)
        ensures
            packet is Ok <==> N >= 2,
            packet matches Ok(p) ==> p@ == disconnect_bytes(),
            packet matches Err(e) ==> e == SendError::Overflow,
    {
        match encode_disconnect::<N>() {
            Ok(data) => Ok(PacketBin { data }),
            Err(e) => Err(e),
        }
    }

    /// The number of bytes of the packet, which is never more than `N`.
    pub fn len(&self) -> (len: usize)
        ensures
            len == self@.len(),
            len <= N,
    {
        proof {
            use_type_invariant(self);
        }
        self.data.len()
    }

    /// The bytes of the packet.
    pub fn msg_data(&self) -> (data: &[u8])
        ensures
            data@ == self@,
    {
        self.data.as_slice()
    }

    /// The bytes that are to be written to the network for this packet: none at all for
    /// one that only serves to flush.
    pub fn data_to_write(&self) -> (data: Option<&[u8]>)
        ensures
            data is Some <==> self@.len() > 0,
            data matches Some(d) ==> d@ == self@,
    {
        if self.len() > 0 {
            Some(self.msg_data())
        } else {
            None
        }
    }

    /// Decodes the packet, and tells its kind. A packet with more than `P` properties is
    /// not accepted.
    pub fn packet_type<const P: usize>(&self) -> (kind: Result<
        PacketType,
        mountain_mqtt::error::PacketReadError,
    >)
        ensures
            kind == decoded_kind(self@, P as nat),
            kind matches Ok(k) ==> self@.len() >= 2 && 1 <= self@[0] / 16 && k
                == PacketType::of_code(self@[0] / 16),
            self@ == pingresp_bytes() ==> (kind matches Ok(k) && k == PacketType::Pingresp),
    {
        match decode::<P>(self.msg_data()) {
            Ok(code) => Ok(PacketType::from_code(code)),
            Err(e) => Err(e),
        }
    }
}

/// Each kind of packet has its number, from 1 to 15, in the order of the MQTT standard, and
/// no two kinds have the same.
pub proof fn law_kinds_are_numbered(code: u8, other: u8)
    requires
        1 <= code <= 15,
        1 <= other <= 15,
    ensures
        PacketType::of_code(code) == PacketType::of_code(other) ==> code == other,
        PacketType::of_code(code) is Connect <==> code == 1,
        PacketType::of_code(code) is Connack <==> code == 2,
        PacketType::of_code(code) is Publish <==> code == 3,
        PacketType::of_code(code) is Puback <==> code == 4,
        PacketType::of_code(code) is Pubrec <==> code == 5,
        PacketType::of_code(code) is Pubrel <==> code == 6,
        PacketType::of_code(code) is Pubcomp <==> code == 7,
        PacketType::of_code(code) is Subscribe <==> code == 8,
        PacketType::of_code(code) is Suback <==> code == 9,
        PacketType::of_code(code) is Unsubscribe <==> code == 10,
        PacketType::of_code(code) is Unsuback <==> code == 11,
        PacketType::of_code(code) is Pingreq <==> code == 12,
        PacketType::of_code(code) is Pingresp <==> code == 13,
        PacketType::of_code(code) is Disconnect <==> code == 14,
        PacketType::of_code(code) is Auth <==> code == 15,
{
}

/// Data has a kind exactly if it decodes to a number, and fails to have one exactly for the
/// reason for which it does not decode.
pub proof fn law_decoding_gives_kind_or_reason(
    data: Seq<u8>,
    max_properties: nat,
    code: u8,
    e: mountain_mqtt::error::PacketReadError,
)
    ensures
        decoded_code(data, max_properties) == Ok::<u8, mountain_mqtt::error::PacketReadError>(code)
            ==> (decoded_kind(data, max_properties) matches Ok(kind) && kind == PacketType::of_code(
            code,
        )),
        decoded_code(data, max_properties) == Err::<u8, mountain_mqtt::error::PacketReadError>(e)
            ==> (decoded_kind(data, max_properties) matches Err(reason) && reason == e),
{
}

/// The packets that a ping and the end of a connection consist of, and the answer to a
/// ping, have no content: they are a first byte, with their number in its upper half, and
/// the length 0.
pub proof fn law_fixed_packets_have_no_content()
    ensures
        pingreq_bytes().len() == 2 && pingresp_bytes().len() == 2 && disconnect_bytes().len() == 2,
        pingreq_bytes()[0] == 12 * 16 && pingreq_bytes()[1] == 0,
        pingresp_bytes()[0] == 13 * 16 && pingresp_bytes()[1] == 0,
        disconnect_bytes()[0] == 14 * 16 && disconnect_bytes()[1] == 0,
{
}

} // verus!
