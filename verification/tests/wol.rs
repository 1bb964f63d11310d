use lg_buddy::config::MacAddress;
use lg_buddy::failure::{IoError, IoErrorKind};
use lg_buddy::net::{Ipv4Addr, SocketAddrV4};
use lg_buddy::wol::{
    build_magic_packet, SendStage, UdpWakeOnLanSender, WakeOnLanError, WakeOnLanSender,
    DEFAULT_WOL_PORT, MAGIC_PACKET_LEN,
};

fn parse_mac(value: &str) -> MacAddress {
    value.parse().expect("parse mac address")
}

#[test]
fn default_sender_uses_broadcast_port_9() {
    let sender = UdpWakeOnLanSender::default();

    assert_eq!(
        sender.bind_addr(),
        SocketAddrV4::new(Ipv4Addr::new(0, 0, 0, 0), 0)
    );
    assert_eq!(
        sender.target_addr(),
        SocketAddrV4::new(Ipv4Addr::new(255, 255, 255, 255), DEFAULT_WOL_PORT)
    );
}

#[test]
fn magic_packet_has_expected_layout() {
    let mac = parse_mac("aa:bb:cc:dd:ee:ff");
    let packet = build_magic_packet(&mac);

    assert_eq!(packet.len(), MAGIC_PACKET_LEN);
    assert_eq!(&packet[..6], &[0xFF; 6]);

    for chunk in packet[6..].chunks_exact(6) {
        assert_eq!(chunk, &[0xaa, 0xbb, 0xcc, 0xdd, 0xee, 0xff]);
    }
}

#[test]
fn a_packet_goes_to_the_broadcast_address_of_the_machine() {
    let ip = Ipv4Addr::new(192, 168, 7, 42);
    let wide = Ipv4Addr::new(255, 255, 0, 0);
    let odd = Ipv4Addr::new(255, 255, 255, 240);
    let bind = SocketAddrV4::new(Ipv4Addr::new(0, 0, 0, 0), 0);
    let target = SocketAddrV4::new(Ipv4Addr::new(10, 0, 0, 255), 7);
    let mac = parse_mac("01:23:45:67:89:ab");
    let plain = UdpWakeOnLanSender::new(bind, target);
    let masked = UdpWakeOnLanSender::with_subnet_mask(bind, target, Some(wide));
    let goes = |sender: &UdpWakeOnLanSender, ip, mask| {
        sender.send_magic_packet(&mac, ip, mask).target_addr
    };

    assert_eq!(goes(&plain, None, Some(wide)), target);
    assert_eq!(
        goes(&plain, Some(ip), None),
        SocketAddrV4::new(Ipv4Addr::new(192, 168, 7, 255), 7)
    );
    assert_eq!(
        goes(&masked, Some(ip), None),
        SocketAddrV4::new(Ipv4Addr::new(192, 168, 255, 255), 7)
    );
    assert_eq!(
        goes(&masked, Some(ip), Some(odd)),
        SocketAddrV4::new(Ipv4Addr::new(192, 168, 7, 47), 7)
    );
}

#[test]
fn a_packet_is_sent_as_it_was_built() {
    let sender = UdpWakeOnLanSender::broadcast(4000);
    let mac = parse_mac("01:23:45:67:89:ab");
    let send = sender.send_magic_packet(&mac, None, None);

    assert_eq!(send.bind_addr, sender.bind_addr());
    assert_eq!(send.target_addr, sender.target_addr());
    assert_eq!(send.packet, build_magic_packet(&mac));
    assert_eq!(&send.packet[96..], &mac.octets());
    assert_ne!(
        send.packet,
        build_magic_packet(&parse_mac("01:23:45:67:89:ac"))
    );
}

#[test]
fn machines_of_a_network_share_their_broadcast_address() {
    let mask = Ipv4Addr::new(255, 255, 254, 0);
    let one = UdpWakeOnLanSender::calculate_broadcast_addr(Ipv4Addr::new(10, 1, 2, 3), mask);
    let other = UdpWakeOnLanSender::calculate_broadcast_addr(Ipv4Addr::new(10, 1, 3, 4), mask);
    assert_eq!(one, Ipv4Addr::new(10, 1, 3, 255));
    assert_eq!(one, other);
    assert_eq!(UdpWakeOnLanSender::calculate_broadcast_addr(one, mask), one);
}

#[test]
fn a_failed_send_says_what_was_being_done() {
    let failure = || IoError {
        kind: IoErrorKind::Other,
        message: "refused".to_string(),
    };
    let mut stage = Some(SendStage::first());
    let mut told = Vec::new();
    while let Some(current) = stage {
        told.push(current.next(Err(failure())).unwrap_err().to_string());
        stage = current.next(Ok(())).unwrap();
    }
    assert_eq!(
        told,
        [
            "failed to bind UDP socket: refused",
            "failed to enable UDP broadcast: refused",
            "failed to send Wake-on-LAN packet: refused",
        ]
    );
    assert_eq!(
        SendStage::Send.next(Err(failure())),
        Err(WakeOnLanError::Io {
            action: "send Wake-on-LAN packet",
            source: failure(),
        })
    );
}
