use packet_decode::error::DecodeError;
use packet_decode::ethernet_frame::{create_and_return_ether, EthernetFrame};
use packet_decode::internet_packet::IPacket;
use packet_decode::internet_protocol_types::{ICMPPacket, ProtocolDatagram, TCPPacket, UDPPacket};
use packet_decode::ip_protocol::{IPProtocol, IPVersion};

fn link_header() -> Vec<u8> {
    vec![0xAA, 0xBB, 0xCC, 0xDD, 0xEE, 0xFF, 0x11, 0x22, 0x33, 0x44, 0x55, 0x66, 0x08, 0x00]
}

fn internet_header(first: u8, protocol: u8) -> Vec<u8> {
    vec![
        first, 0x00, 0x00, 0x28, 0x00, 0x01, 0x40, 0x00, 64, protocol, 0x00, 0x00, 192, 168, 0, 1,
        192, 168, 0, 2,
    ]
}

fn tcp_header() -> Vec<u8> {
    vec![
        0x04, 0xD2, 0x00, 0x50, 0, 0, 0, 1, 0, 0, 0, 0, 0x50, 0x00, 0x20, 0x00, 0x00, 0x00, 0x00,
        0x00,
    ]
}

fn frame_of(parts: &[Vec<u8>]) -> Vec<u8> {
    let mut data: Vec<u8> = Vec::new();
    for part in parts {
        data.extend_from_slice(part);
    }
    data
}

fn sample_tcp_frame() -> Vec<u8> {
    frame_of(&[link_header(), internet_header(0x45, 6), tcp_header()])
}

#[test]
fn tcp_frame_decodes_to_its_fields() {
    let data = sample_tcp_frame();
    assert_eq!(data.len(), 54);
    let frame = create_and_return_ether(data).unwrap();
    assert_eq!(frame.packet_size, 54);
    assert_eq!(frame.destination_address, [0xAA, 0xBB, 0xCC, 0xDD, 0xEE, 0xFF]);
    assert_eq!(frame.source_address, [0x11, 0x22, 0x33, 0x44, 0x55, 0x66]);
    assert_eq!(frame.ether_type, [0x08, 0x00]);
    assert_eq!(frame.version, IPVersion::V4);
    let packet = &frame.packet;
    assert_eq!(packet.version, IPVersion::V4);
    assert_eq!(packet.ihl, 5);
    assert_eq!(packet.ihl * 4, 20);
    assert_eq!(packet.tos, 0);
    assert_eq!(packet.precedence, 0);
    assert_eq!(packet.delay, 0);
    assert_eq!(packet.throughput, 0);
    assert_eq!(packet.reliability, 0);
    assert_eq!(packet.total_length, [0x00, 0x28]);
    assert_eq!(packet.identification, [0x00, 0x01]);
    assert_eq!(packet.reserved_flag, 0);
    assert_eq!(packet.do_not_fragment_flag, 1);
    assert_eq!(packet.last_fragment_flag, 0);
    assert_eq!(packet.fragment_offset, 0);
    assert_eq!(packet.ttl, 64);
    assert_eq!(packet.protocol, IPProtocol::TCP);
    assert_eq!(packet.header_checksum, [0, 0]);
    assert_eq!(packet.source_add, [192, 168, 0, 1]);
    assert_eq!(packet.destination_add, [192, 168, 0, 2]);
    assert_eq!(packet.options, None);
    let expected = TCPPacket {
        source_port: [0x04, 0xD2],
        destination_port: [0x00, 0x50],
        sequence_number: [0, 0, 0, 1],
        acknowledgement_number: [0, 0, 0, 0],
        data_offset: 20,
        flags: 0,
        window: [0x20, 0x00],
        checksum: [0, 0],
        urgent_pointer: [0, 0],
        options: None,
    };
    assert_eq!(packet.datagram, ProtocolDatagram::TCP(expected));
}

#[test]
fn tcp_frame_renders_its_ports() {
    let frame = create_and_return_ether(sample_tcp_frame()).unwrap();
    let text = frame.render();
    assert!(text.contains("TCP: Source Port       = 1234\nTCP: Destination Port  = 80\n"));
    assert!(text.contains("IP: Header length   = 20 bytes\n"));
    assert!(text.contains("IP: Protocol        = 6 (TCP)\n"));
    assert!(text.contains("\nIP: No options\nTCP: -----TCP Header-----\n"));
}

#[test]
fn ports_render_as_big_endian_numbers() {
    let ports: [(u8, u8, u8, u8); 5] =
        [(0, 0, 0, 1), (0, 255, 1, 0), (255, 255, 255, 254), (0x1F, 0x90, 0x01, 0xBB), (1, 2, 3, 4)];
    for (a, b, c, d) in ports {
        let mut tcp = tcp_header();
        tcp[0] = a;
        tcp[1] = b;
        tcp[2] = c;
        tcp[3] = d;
        let data = frame_of(&[link_header(), internet_header(0x45, 6), tcp]);
        let text = create_and_return_ether(data).unwrap().render();
        let source = u16::from_be_bytes([a, b]);
        let destination = u16::from_be_bytes([c, d]);
        let lines = format!(
            "TCP: Source Port       = {}\nTCP: Destination Port  = {}\n",
            source, destination
        );
        assert!(text.contains(&lines), "{}", text);
    }
}

#[test]
fn link_header_alone_is_truncated() {
    assert_eq!(create_and_return_ether(link_header()), Err(DecodeError::TruncatedBuffer));
}

#[test]
fn buffers_shorter_than_both_headers_are_truncated() {
    let whole = sample_tcp_frame();
    for length in 0..34 {
        let data = whole[..length].to_vec();
        assert_eq!(create_and_return_ether(data), Err(DecodeError::TruncatedBuffer), "{}", length);
    }
}

#[test]
fn tcp_header_cut_short_is_truncated() {
    let whole = sample_tcp_frame();
    for length in 34..54 {
        let data = whole[..length].to_vec();
        assert_eq!(create_and_return_ether(data), Err(DecodeError::TruncatedBuffer), "{}", length);
    }
    assert!(create_and_return_ether(whole).is_ok());
}

#[test]
fn bytes_after_a_tcp_header_are_left_alone() {
    let mut data = sample_tcp_frame();
    data.extend_from_slice(&[1, 2, 3, 4, 5]);
    let frame = create_and_return_ether(data).unwrap();
    assert_eq!(frame.packet_size, 59);
    match frame.packet.datagram {
        ProtocolDatagram::TCP(tcp) => {
            assert_eq!(tcp.options, None);
            assert_eq!(tcp.urgent_pointer, [0, 0]);
        }
        other => panic!("expected TCP, got {:?}", other),
    }
}

#[test]
fn header_length_below_five_words_is_malformed() {
    for words in 0..5u8 {
        let data = frame_of(&[link_header(), internet_header(0x40 | words, 6), tcp_header()]);
        assert_eq!(create_and_return_ether(data), Err(DecodeError::MalformedField), "{}", words);
    }
}

#[test]
fn truncation_is_found_before_a_malformed_length() {
    let mut data = frame_of(&[link_header(), internet_header(0x42, 6)]);
    data.pop();
    assert_eq!(create_and_return_ether(data), Err(DecodeError::TruncatedBuffer));
}

#[test]
fn five_words_have_no_options() {
    let frame = create_and_return_ether(sample_tcp_frame()).unwrap();
    assert_eq!(frame.packet.ihl, 5);
    assert_eq!(frame.packet.options, None);
}

#[test]
fn six_words_have_four_bytes_of_options() {
    let data =
        frame_of(&[link_header(), internet_header(0x46, 6), vec![9, 8, 7, 6], tcp_header()]);
    let frame = create_and_return_ether(data).unwrap();
    assert_eq!(frame.packet.ihl, 6);
    assert_eq!(frame.packet.options, Some(vec![9, 8, 7, 6]));
    match frame.packet.datagram {
        ProtocolDatagram::TCP(tcp) => {
            assert_eq!(tcp.source_port, [0x04, 0xD2]);
            assert_eq!(tcp.destination_port, [0x00, 0x50]);
        }
        other => panic!("expected TCP, got {:?}", other),
    }
}

#[test]
fn fifteen_words_have_forty_bytes_of_options() {
    let options: Vec<u8> = (0..40).collect();
    let data = frame_of(&[link_header(), internet_header(0x4F, 17), options.clone(), vec![
        0, 53, 0, 54, 0, 8, 0xAB, 0xCD,
    ]]);
    let frame = create_and_return_ether(data).unwrap();
    assert_eq!(frame.packet.ihl, 15);
    assert_eq!(frame.packet.options, Some(options));
    match frame.packet.datagram {
        ProtocolDatagram::UDP(udp) => assert_eq!(udp.checksum, [0xAB, 0xCD]),
        other => panic!("expected UDP, got {:?}", other),
    }
}

#[test]
fn options_cut_short_are_truncated() {
    let data = frame_of(&[link_header(), internet_header(0x46, 255), vec![9, 8, 7]]);
    assert_eq!(create_and_return_ether(data), Err(DecodeError::TruncatedBuffer));
    let data = frame_of(&[link_header(), internet_header(0x46, 255), vec![9, 8, 7, 6]]);
    let frame = create_and_return_ether(data).unwrap();
    assert_eq!(frame.packet.options, Some(vec![9, 8, 7, 6]));
}

#[test]
fn discriminator_selects_the_payload() {
    let payload: Vec<u8> = (100..120).collect();
    for discriminator in 0..=255u8 {
        let data =
            frame_of(&[link_header(), internet_header(0x45, discriminator), payload.clone()]);
        let frame = create_and_return_ether(data).unwrap();
        match discriminator {
            1 => {
                assert_eq!(frame.packet.protocol, IPProtocol::ICMP);
                assert!(matches!(frame.packet.datagram, ProtocolDatagram::ICMP(_)));
            }
            6 => {
                assert_eq!(frame.packet.protocol, IPProtocol::TCP);
                assert!(matches!(frame.packet.datagram, ProtocolDatagram::TCP(_)));
            }
            17 => {
                assert_eq!(frame.packet.protocol, IPProtocol::UDP);
                assert!(matches!(frame.packet.datagram, ProtocolDatagram::UDP(_)));
            }
            _ => {
                assert_eq!(frame.packet.protocol, IPProtocol::Default);
                assert_eq!(
                    frame.packet.datagram,
                    ProtocolDatagram::Default("This is the default value".to_string())
                );
            }
        }
    }
}

#[test]
fn unrecognized_protocol_needs_no_payload() {
    let data = frame_of(&[link_header(), internet_header(0x45, 47)]);
    assert_eq!(data.len(), 34);
    let frame = create_and_return_ether(data).unwrap();
    assert_eq!(frame.packet.protocol, IPProtocol::Default);
    assert_eq!(frame.packet.datagram, ProtocolDatagram::new());
    assert_eq!(frame.packet.source_add, [192, 168, 0, 1]);
}

#[test]
fn both_headers_alone_with_tcp_are_truncated() {
    let data = frame_of(&[link_header(), internet_header(0x45, 6)]);
    assert_eq!(data.len(), 34);
    assert_eq!(create_and_return_ether(data), Err(DecodeError::TruncatedBuffer));
}

#[test]
fn udp_datagram_keeps_its_payload() {
    let data = frame_of(&[link_header(), internet_header(0x45, 17), vec![
        0x00, 0x35, 0xC0, 0x01, 0x00, 0x0B, 0x12, 0x34, 0xDE, 0xAD, 0xBE,
    ]]);
    let frame = create_and_return_ether(data).unwrap();
    let expected = UDPPacket {
        source_port: [0x00, 0x35],
        destination_port: [0xC0, 0x01],
        length: [0x00, 0x0B],
        checksum: [0x12, 0x34],
        data: vec![0xDE, 0xAD, 0xBE],
    };
    assert_eq!(frame.packet.datagram, ProtocolDatagram::UDP(expected));
}

#[test]
fn udp_header_alone_has_an_empty_payload() {
    let data = frame_of(&[link_header(), internet_header(0x45, 17), vec![0, 1, 0, 2, 0, 8, 0, 0]]);
    let frame = create_and_return_ether(data).unwrap();
    match frame.packet.datagram {
        ProtocolDatagram::UDP(udp) => assert_eq!(udp.data, Vec::<u8>::new()),
        other => panic!("expected UDP, got {:?}", other),
    }
    let data = frame_of(&[link_header(), internet_header(0x45, 17), vec![0, 1, 0, 2, 0, 8, 0]]);
    assert_eq!(create_and_return_ether(data), Err(DecodeError::TruncatedBuffer));
}

#[test]
fn icmp_message_keeps_both_orderings() {
    let data = frame_of(&[link_header(), internet_header(0x45, 1), vec![
        8, 0, 0xF7, 0xFF, 0x12, 0x34, 0x56, 0x78, 1, 2, 3, 4, 5, 6, 7, 8, 0x61, 0x62,
    ]]);
    let frame = create_and_return_ether(data).unwrap();
    let expected = ICMPPacket {
        packet_type: 8,
        code: 0,
        checksum: [0xF7, 0xFF],
        identifier_be: [0x12, 0x34],
        identifier_le: [0x34, 0x12],
        sequence_be: [0x56, 0x78],
        sequence_le: [0x78, 0x56],
        timestamp: [1, 2, 3, 4, 5, 6, 7, 8],
        data: vec![0x61, 0x62],
    };
    assert_eq!(frame.packet.datagram, ProtocolDatagram::ICMP(expected));
}

#[test]
fn icmp_header_cut_short_is_truncated() {
    let message = vec![8, 0, 0xF7, 0xFF, 0x12, 0x34, 0x56, 0x78, 1, 2, 3, 4, 5, 6, 7, 8];
    for length in 0..16 {
        let data =
            frame_of(&[link_header(), internet_header(0x45, 1), message[..length].to_vec()]);
        assert_eq!(create_and_return_ether(data), Err(DecodeError::TruncatedBuffer), "{}", length);
    }
    let data = frame_of(&[link_header(), internet_header(0x45, 1), message]);
    assert!(create_and_return_ether(data).is_ok());
}

#[test]
fn service_byte_splits_in_five_groups() {
    let mut header = internet_header(0x45, 255);
    header[1] = 0b101_1_0_1_10;
    let frame = create_and_return_ether(frame_of(&[link_header(), header])).unwrap();
    assert_eq!(frame.packet.precedence, 5);
    assert_eq!(frame.packet.delay, 1);
    assert_eq!(frame.packet.throughput, 0);
    assert_eq!(frame.packet.reliability, 1);
    assert_eq!(frame.packet.tos, 2);
}

#[test]
fn fragment_offset_is_the_low_thirteen_bits() {
    let cases: [(u8, u8, u8, u8, u8, u16); 5] = [
        (0xFF, 0xFF, 1, 1, 1, 8191),
        (0x20, 0x01, 0, 0, 1, 1),
        (0x9F, 0x00, 1, 0, 0, 0x1F00),
        (0x40, 0x00, 0, 1, 0, 0),
        (0x00, 0xB9, 0, 0, 0, 185),
    ];
    for (high, low, reserved, do_not_fragment, last, offset) in cases {
        let mut header = internet_header(0x45, 255);
        header[6] = high;
        header[7] = low;
        let frame = create_and_return_ether(frame_of(&[link_header(), header])).unwrap();
        assert_eq!(frame.packet.reserved_flag, reserved);
        assert_eq!(frame.packet.do_not_fragment_flag, do_not_fragment);
        assert_eq!(frame.packet.last_fragment_flag, last);
        assert_eq!(frame.packet.fragment_offset, offset);
        assert_eq!(frame.packet.fragment_offset, u16::from_be_bytes([high, low]) & 0x1FFF);
    }
}

#[test]
fn version_field_other_than_four_is_version_six() {
    for nibble in 0..16u8 {
        let header = internet_header((nibble << 4) | 5, 255);
        let frame = create_and_return_ether(frame_of(&[link_header(), header])).unwrap();
        let expected = if nibble == 4 { IPVersion::V4 } else { IPVersion::V6 };
        assert_eq!(frame.version, expected);
        assert_eq!(frame.packet.version, expected);
    }
}

#[test]
fn ether_type_is_not_held_against_the_version() {
    let mut link = link_header();
    link[12] = 0x86;
    link[13] = 0xDD;
    let frame =
        create_and_return_ether(frame_of(&[link, internet_header(0x45, 6), tcp_header()])).unwrap();
    assert_eq!(frame.ether_type, [0x86, 0xDD]);
    assert_eq!(frame.version, IPVersion::V4);
}

#[test]
fn tcp_header_byte_splits_in_length_and_flags() {
    for byte in 0..=255u8 {
        let mut tcp = tcp_header();
        tcp[12] = byte;
        tcp[13] = 0xFF;
        let data = frame_of(&[link_header(), internet_header(0x45, 6), tcp]);
        match create_and_return_ether(data).unwrap().packet.datagram {
            ProtocolDatagram::TCP(tcp) => {
                assert_eq!(tcp.data_offset, (byte >> 4) * 4);
                assert_eq!(tcp.flags, byte & 0x0F);
                assert_eq!(tcp.window, [0x20, 0x00]);
            }
            other => panic!("expected TCP, got {:?}", other),
        }
    }
}

#[test]
fn decoding_is_the_same_each_time() {
    let first = create_and_return_ether(sample_tcp_frame());
    let second = create_and_return_ether(sample_tcp_frame());
    assert_eq!(first, second);
}

#[test]
fn a_failure_leaves_the_next_frame_alone() {
    assert!(create_and_return_ether(vec![1, 2, 3]).is_err());
    assert!(create_and_return_ether(sample_tcp_frame()).is_ok());
}

#[test]
fn layers_decode_on_their_own() {
    let whole = sample_tcp_frame();
    let packet = IPacket::decode(&whole[14..]).unwrap();
    assert_eq!(packet, create_and_return_ether(whole.clone()).unwrap().packet);
    let tcp = TCPPacket::decode(&whole, 34).unwrap();
    assert_eq!(ProtocolDatagram::TCP(tcp), packet.datagram);
    assert_eq!(TCPPacket::decode(&whole, 35), Err(DecodeError::TruncatedBuffer));
    assert_eq!(TCPPacket::decode(&whole, usize::MAX), Err(DecodeError::TruncatedBuffer));
    assert_eq!(UDPPacket::decode(&whole, 47), Err(DecodeError::TruncatedBuffer));
    assert_eq!(UDPPacket::decode(&whole, 46).unwrap().data, Vec::<u8>::new());
    assert_eq!(ICMPPacket::decode(&whole, 39), Err(DecodeError::TruncatedBuffer));
    assert_eq!(ICMPPacket::decode(&whole, 38).unwrap().packet_type, 0);
    assert_eq!(
        ProtocolDatagram::decode(&whole, IPProtocol::Default, usize::MAX),
        Ok(ProtocolDatagram::new())
    );
    assert_eq!(IPacket::decode(&[]), Err(DecodeError::TruncatedBuffer));
}

#[test]
fn new_values_are_zero() {
    let frame = EthernetFrame::new();
    assert_eq!(frame.packet_size, 0);
    assert_eq!(frame.destination_address, [0; 6]);
    assert_eq!(frame.source_address, [0; 6]);
    assert_eq!(frame.ether_type, [0; 2]);
    assert_eq!(frame.version, IPVersion::V4);
    assert_eq!(frame.packet, IPacket::new());
    let packet = IPacket::new();
    assert_eq!(packet.ihl, 0);
    assert_eq!(packet.protocol, IPProtocol::Default);
    assert_eq!(packet.options, None);
    assert_eq!(packet.source_add, [0, 0, 0, 0]);
    assert_eq!(packet.datagram, ProtocolDatagram::Default("placeholder".to_string()));
    assert_eq!(
        ProtocolDatagram::new(),
        ProtocolDatagram::Default("This is the default value".to_string())
    );
    let tcp = TCPPacket::new();
    assert_eq!(tcp.source_port, [0, 0]);
    assert_eq!(tcp.sequence_number, [0, 0, 0, 0]);
    assert_eq!(tcp.data_offset, 0);
    assert_eq!(tcp.options, None);
    let udp = UDPPacket::new();
    assert_eq!(udp.length, [0, 0]);
    assert_eq!(udp.data, Vec::<u8>::new());
    let icmp = ICMPPacket::new();
    assert_eq!(icmp.packet_type, 0);
    assert_eq!(icmp.timestamp, [0; 8]);
    assert_eq!(icmp.data, Vec::<u8>::new());
}

#[test]
fn protocol_and_version_follow_their_numbers() {
    assert_eq!(IPProtocol::from_discriminator(1), IPProtocol::ICMP);
    assert_eq!(IPProtocol::from_discriminator(6), IPProtocol::TCP);
    assert_eq!(IPProtocol::from_discriminator(17), IPProtocol::UDP);
    assert_eq!(IPProtocol::from_discriminator(0), IPProtocol::Default);
    assert_eq!(IPProtocol::from_discriminator(255), IPProtocol::Default);
    assert_eq!(IPVersion::from_nibble(4), IPVersion::V4);
    assert_eq!(IPVersion::from_nibble(6), IPVersion::V6);
    assert_eq!(IPVersion::from_nibble(0), IPVersion::V6);
}
