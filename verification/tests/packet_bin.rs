use mountain_mqtt::error::PacketReadError;
use mountain_mqtt_embassy::error::SendError;
use mountain_mqtt_embassy::packet_bin::{PacketBin, PacketType};

fn packet(data: &[u8]) -> PacketBin<64> {
    PacketBin::from_slice(data).unwrap()
}

#[test]
fn ping_request_has_two_bytes() {
    let packet: PacketBin<2> = PacketBin::pingreq().unwrap();
    assert_eq!(packet.msg_data(), &[0xC0, 0x00]);
    assert_eq!(packet.len(), 2);
    assert_eq!(packet.packet_type::<0>(), Ok(PacketType::Pingreq));
}

#[test]
fn disconnect_has_two_bytes() {
    let packet: PacketBin<2> = PacketBin::disconnect().unwrap();
    assert_eq!(packet.msg_data(), &[0xE0, 0x00]);
    assert_eq!(packet.packet_type::<4>(), Ok(PacketType::Disconnect));
}

#[test]
fn packets_that_do_not_fit_are_refused() {
    assert_eq!(PacketBin::<1>::pingreq().unwrap_err(), SendError::Overflow);
    assert_eq!(PacketBin::<0>::pingreq().unwrap_err(), SendError::Overflow);
    assert_eq!(PacketBin::<1>::disconnect().unwrap_err(), SendError::Overflow);
    assert!(PacketBin::<2>::from_slice(&[1, 2, 3]).is_none());
    assert!(PacketBin::<3>::from_slice(&[1, 2, 3]).is_some());
}

#[test]
fn empty_packet_is_not_written() {
    let empty: PacketBin<8> = PacketBin::empty();
    assert_eq!(empty.len(), 0);
    assert_eq!(empty.data_to_write(), None);
    let none: PacketBin<0> = PacketBin::from_slice(&[]).unwrap();
    assert_eq!(none.data_to_write(), None);
    assert_eq!(packet(&[0xC0, 0x00]).data_to_write(), Some(&[0xC0u8, 0x00][..]));
}

#[test]
fn kinds_are_decoded() {
    assert_eq!(packet(&[0xD0, 0x00]).packet_type::<0>(), Ok(PacketType::Pingresp));
    assert_eq!(
        packet(&[0x20, 0x03, 0x00, 0x00, 0x00]).packet_type::<0>(),
        Ok(PacketType::Connack)
    );
    assert_eq!(
        packet(&[0x30, 0x05, 0x00, 0x01, b't', 0x00, b'p']).packet_type::<0>(),
        Ok(PacketType::Publish)
    );
    assert_eq!(
        packet(&[0x40, 0x02, 0x00, 0x01]).packet_type::<0>(),
        Ok(PacketType::Puback)
    );
    assert_eq!(
        packet(&[0x90, 0x04, 0x00, 0x02, 0x00, 0x00]).packet_type::<0>(),
        Ok(PacketType::Suback)
    );
    assert_eq!(
        packet(&[0xB0, 0x04, 0x00, 0x03, 0x00, 0x00]).packet_type::<0>(),
        Ok(PacketType::Unsuback)
    );
}

#[test]
fn data_that_is_no_packet_is_refused() {
    assert!(packet(&[]).packet_type::<4>().is_err());
    assert!(packet(&[0xD0]).packet_type::<4>().is_err());
    assert!(packet(&[0x00, 0x00]).packet_type::<4>().is_err());
    assert!(packet(&[0x20, 0x03, 0x00]).packet_type::<4>().is_err());
}

#[test]
fn too_many_properties_are_refused() {
    // A connection acknowledgement with the property "retain available".
    let connack = packet(&[0x20, 0x05, 0x00, 0x00, 0x02, 0x25, 0x01]);
    assert_eq!(connack.packet_type::<1>(), Ok(PacketType::Connack));
    assert_eq!(connack.packet_type::<0>(), Err(PacketReadError::TooManyProperties));
}
