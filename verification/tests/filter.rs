use packet_decode::ethernet_frame::{create_and_return_ether, EthernetFrame};
use packet_decode::filter::Filter;
use packet_decode::internet_protocol_types::{ICMPPacket, ProtocolDatagram, UDPPacket};
use packet_decode::ip_protocol::{IPProtocol, IPVersion};
use packet_decode::number_text::{
    chars_of, digit_value, find_dot, parse_digits, parse_dotted_quad, parse_signed,
    parse_unsigned,
};

fn args(words: &[&str]) -> Vec<String> {
    words.iter().map(|word| word.to_string()).collect()
}

fn chars(text: &str) -> Vec<char> {
    text.chars().collect()
}

fn tcp_frame() -> EthernetFrame {
    create_and_return_ether(vec![
        0xAA, 0xBB, 0xCC, 0xDD, 0xEE, 0xFF, 0x11, 0x22, 0x33, 0x44, 0x55, 0x66, 0x08, 0x00, 0x45,
        0x00, 0x00, 0x28, 0x00, 0x01, 0x40, 0x00, 64, 6, 0x00, 0x00, 192, 168, 0, 1, 192, 168, 0,
        2, 0x04, 0xD2, 0x00, 0x50, 0, 0, 0, 1, 0, 0, 0, 0, 0x50, 0x00, 0x20, 0x00, 0x00, 0x00,
        0x00, 0x00,
    ])
    .unwrap()
}

#[test]
fn single_words_name_protocol_classes() {
    assert_eq!(Filter::from_str(args(&["tcp"])), Filter::Tcp);
    assert_eq!(Filter::from_str(args(&["udp"])), Filter::Udp);
    assert_eq!(Filter::from_str(args(&["icmp"])), Filter::Icmp);
    assert_eq!(Filter::from_str(args(&["ip"])), Filter::Ip);
    assert_eq!(Filter::from_str(args(&["TCP"])), Filter::Default("Default".to_string()));
    assert_eq!(Filter::from_str(args(&[""])), Filter::Default("Default".to_string()));
    assert_eq!(Filter::from_str(args(&["host"])), Filter::Default("Default".to_string()));
}

#[test]
fn key_words_take_a_value() {
    assert_eq!(Filter::from_str(args(&["host", "192.168.0.1"])), Filter::Host([192, 168, 0, 1]));
    assert_eq!(Filter::from_str(args(&["net", "10.0.0.0"])), Filter::Net([10, 0, 0, 0]));
    assert_eq!(Filter::from_str(args(&["port", "80"])), Filter::Port([0, 80]));
    assert_eq!(Filter::from_str(args(&["port", "8080"])), Filter::Port([0x1F, 0x90]));
    assert_eq!(Filter::from_str(args(&["port", "65535"])), Filter::Port([0xFF, 0xFF]));
    assert_eq!(Filter::from_str(args(&["port", "0"])), Filter::Port([0, 0]));
    assert_eq!(Filter::from_str(args(&["-c", "5"])), Filter::Count(5));
    assert_eq!(Filter::from_str(args(&["-c", "-3"])), Filter::Count(-3));
    assert_eq!(Filter::from_str(args(&["-c", "+7"])), Filter::Count(7));
    assert_eq!(Filter::from_str(args(&["-c", "2147483647"])), Filter::Count(i32::MAX));
    assert_eq!(Filter::from_str(args(&["-c", "-2147483648"])), Filter::Count(i32::MIN));
    assert_eq!(
        Filter::from_str(args(&["tcp", "anything"])),
        Filter::Default("default".to_string())
    );
    assert_eq!(
        Filter::from_str(args(&["proto", "80", "more"])),
        Filter::Default("default".to_string())
    );
    assert_eq!(Filter::from_str(args(&["port", "443", "ignored"])), Filter::Port([1, 187]));
}

#[test]
fn words_that_ask_for_nothing() {
    assert_eq!(Filter::parse(&args(&[])), None);
    assert_eq!(Filter::parse(&args(&["host", "192.168.0"])), None);
    assert_eq!(Filter::parse(&args(&["host", "192.168.0.256"])), None);
    assert_eq!(Filter::parse(&args(&["host", "a.b.c.d"])), None);
    assert_eq!(Filter::parse(&args(&["host", ""])), None);
    assert_eq!(Filter::parse(&args(&["host", "1..2.3"])), None);
    assert_eq!(Filter::parse(&args(&["net", "1.2.3."])), None);
    assert_eq!(Filter::parse(&args(&["port", "65536"])), None);
    assert_eq!(Filter::parse(&args(&["port", "-1"])), None);
    assert_eq!(Filter::parse(&args(&["port", ""])), None);
    assert_eq!(Filter::parse(&args(&["port", "8o"])), None);
    assert_eq!(Filter::parse(&args(&["-c", "2147483648"])), None);
    assert_eq!(Filter::parse(&args(&["-c", "-2147483649"])), None);
    assert_eq!(Filter::parse(&args(&["-c", "five"])), None);
    assert_eq!(Filter::parse(&args(&["-c", "-"])), None);
    assert_eq!(Filter::parse(&args(&["-c", "+"])), None);
    assert_eq!(Filter::parse(&args(&["-c", "+-5"])), None);
}

#[test]
fn parse_agrees_with_from_str() {
    for words in [
        vec!["tcp"],
        vec!["nothing"],
        vec!["host", "1.2.3.4"],
        vec!["net", "255.255.255.255"],
        vec!["port", "+22"],
        vec!["-c", "0"],
        vec!["other", "x"],
    ] {
        assert_eq!(Filter::parse(&args(&words)), Some(Filter::from_str(args(&words))));
    }
    assert_eq!(Filter::parse(&args(&["host", "1.2.3.4.5"])), Some(Filter::Host([1, 2, 3, 4])));
    assert_eq!(
        Filter::parse(&args(&["host", "+1.02.003.4.x.y"])),
        Some(Filter::Host([1, 2, 3, 4]))
    );
}

#[test]
fn numbers_read_as_the_standard_library_reads_them() {
    for text in [
        "", "0", "7", "007", "255", "256", "+255", "+", "-", "-0", "-1", "1 ", " 1", "12a", "١",
        "4294967296", "99999999999999999999999999", "+0", "++1", "65535", "65536", "1.5",
    ] {
        let cs = chars(text);
        let expected8 = text.parse::<u8>().ok().map(|n| n as u64);
        assert_eq!(parse_unsigned(&cs, 0, cs.len(), 255), expected8, "{:?} as u8", text);
        let expected16 = text.parse::<u16>().ok().map(|n| n as u64);
        assert_eq!(parse_unsigned(&cs, 0, cs.len(), 65535), expected16, "{:?} as u16", text);
        assert_eq!(parse_signed(&cs), text.parse::<i32>().ok(), "{:?} as i32", text);
    }
    for text in ["2147483647", "2147483648", "-2147483648", "-2147483649", "+2147483647", "-+1"] {
        assert_eq!(parse_signed(&chars(text)), text.parse::<i32>().ok(), "{:?}", text);
    }
}

#[test]
fn digits_without_sign() {
    let cs = chars("x123y");
    assert_eq!(parse_digits(&cs, 1, 4, 1000), Some(123));
    assert_eq!(parse_digits(&cs, 1, 4, 122), None);
    assert_eq!(parse_digits(&cs, 1, 4, 123), Some(123));
    assert_eq!(parse_digits(&cs, 0, 4, 1000), None);
    assert_eq!(parse_digits(&cs, 1, 5, 1000), None);
    assert_eq!(parse_digits(&cs, 2, 2, 1000), None);
    assert_eq!(parse_digits(&chars("+5"), 0, 2, 9), None);
    assert_eq!(parse_unsigned(&chars("a+5"), 1, 3, 9), Some(5));
    for (c, value) in [('0', Some(0)), ('9', Some(9)), ('a', None), ('/', None), (':', None)] {
        assert_eq!(digit_value(c), value);
    }
}

#[test]
fn dotted_addresses() {
    assert_eq!(parse_dotted_quad(&chars("192.168.0.1")), Some([192, 168, 0, 1]));
    assert_eq!(parse_dotted_quad(&chars("0.0.0.0")), Some([0, 0, 0, 0]));
    assert_eq!(parse_dotted_quad(&chars("255.255.255.255")), Some([255, 255, 255, 255]));
    assert_eq!(parse_dotted_quad(&chars("1.2.3.4.")), Some([1, 2, 3, 4]));
    assert_eq!(parse_dotted_quad(&chars("1.2.3.4.junk.5")), Some([1, 2, 3, 4]));
    assert_eq!(parse_dotted_quad(&chars("1.2.3")), None);
    assert_eq!(parse_dotted_quad(&chars("1.2.3.")), None);
    assert_eq!(parse_dotted_quad(&chars(".1.2.3")), None);
    assert_eq!(parse_dotted_quad(&chars("1.2.3.4x")), None);
    assert_eq!(parse_dotted_quad(&chars("1.2.3.256")), None);
    assert_eq!(parse_dotted_quad(&chars("")), None);
    assert_eq!(parse_dotted_quad(&chars("...")), None);
    for text in ["10.20.30.40", "1.2.3", "1.2.3.4.5", "a.1.2.3", "1.2.3.-4", "+1.+2.+3.+4"] {
        let parts: Vec<&str> = text.split(".").collect();
        let expected = if parts.len() >= 4 {
            match (parts[0].parse(), parts[1].parse(), parts[2].parse(), parts[3].parse()) {
                (Ok(a), Ok(b), Ok(c), Ok(d)) => Some([a, b, c, d]),
                _ => None,
            }
        } else {
            None
        };
        assert_eq!(parse_dotted_quad(&chars(text)), expected, "{:?}", text);
    }
}

#[test]
fn full_stops_are_found() {
    let cs = chars("ab.cd..e");
    assert_eq!(find_dot(&cs, 0), 2);
    assert_eq!(find_dot(&cs, 2), 2);
    assert_eq!(find_dot(&cs, 3), 5);
    assert_eq!(find_dot(&cs, 6), 6);
    assert_eq!(find_dot(&cs, 7), 8);
    assert_eq!(find_dot(&cs, 8), 8);
}

#[test]
fn characters_of_a_text() {
    assert_eq!(chars_of("a.b"), vec!['a', '.', 'b']);
    assert_eq!(chars_of(""), Vec::<char>::new());
    assert_eq!(chars_of("é١x"), vec!['é', '١', 'x']);
}

#[test]
fn host_and_net_select_by_address() {
    let frame = tcp_frame();
    assert!(Filter::Host([192, 168, 0, 1]).accepts(&frame));
    assert!(Filter::Host([192, 168, 0, 2]).accepts(&frame));
    assert!(!Filter::Host([192, 168, 0, 3]).accepts(&frame));
    assert!(!Filter::Host([2, 0, 168, 192]).accepts(&frame));
    assert!(Filter::Net([192, 168, 0, 1]).accepts(&frame));
    assert!(Filter::Net([192, 168, 0, 2]).accepts(&frame));
    assert!(!Filter::Net([192, 168, 0, 0]).accepts(&frame));
}

#[test]
fn port_selects_tcp_and_udp_by_port() {
    let frame = tcp_frame();
    assert!(Filter::Port([0x04, 0xD2]).accepts(&frame));
    assert!(Filter::Port([0x00, 0x50]).accepts(&frame));
    assert!(!Filter::Port([0x50, 0x00]).accepts(&frame));
    assert!(!Filter::Port([0, 0]).accepts(&frame));
    assert!(Filter::from_str(args(&["port", "1234"])).accepts(&frame));
    assert!(Filter::from_str(args(&["port", "80"])).accepts(&frame));
    assert!(!Filter::from_str(args(&["port", "81"])).accepts(&frame));

    let mut udp_frame = tcp_frame();
    udp_frame.packet.protocol = IPProtocol::UDP;
    udp_frame.packet.datagram = ProtocolDatagram::UDP(UDPPacket {
        source_port: [0, 53],
        destination_port: [0xC0, 0x00],
        length: [0, 8],
        checksum: [0, 0],
        data: vec![],
    });
    assert!(Filter::Port([0, 53]).accepts(&udp_frame));
    assert!(Filter::Port([0xC0, 0x00]).accepts(&udp_frame));
    assert!(!Filter::Port([0x04, 0xD2]).accepts(&udp_frame));

    let mut icmp_frame = tcp_frame();
    icmp_frame.packet.protocol = IPProtocol::ICMP;
    icmp_frame.packet.datagram = ProtocolDatagram::ICMP(ICMPPacket::new());
    assert!(!Filter::Port([0, 0]).accepts(&icmp_frame));
    assert!(!Filter::Port([0x04, 0xD2]).accepts(&icmp_frame));

    let mut mixed = tcp_frame();
    mixed.packet.datagram = ProtocolDatagram::ICMP(ICMPPacket::new());
    assert!(Filter::Port([0, 0]).accepts(&mixed));
    assert!(!Filter::Port([0x04, 0xD2]).accepts(&mixed));
}

#[test]
fn protocol_classes_select_by_protocol() {
    let frame = tcp_frame();
    assert!(Filter::Tcp.accepts(&frame));
    assert!(!Filter::Udp.accepts(&frame));
    assert!(!Filter::Icmp.accepts(&frame));
    assert!(Filter::Ip.accepts(&frame));
    let mut other = tcp_frame();
    other.version = IPVersion::V6;
    other.packet.protocol = IPProtocol::ICMP;
    assert!(!Filter::Ip.accepts(&other));
    assert!(Filter::Icmp.accepts(&other));
    assert!(!Filter::Tcp.accepts(&other));
    other.packet.protocol = IPProtocol::UDP;
    assert!(Filter::Udp.accepts(&other));
    other.packet.protocol = IPProtocol::Default;
    assert!(!Filter::Udp.accepts(&other));
    assert!(!Filter::Tcp.accepts(&other));
    assert!(!Filter::Icmp.accepts(&other));
}

#[test]
fn count_selects_while_positive() {
    let frame = tcp_frame();
    assert!(Filter::Count(1).accepts(&frame));
    assert!(Filter::Count(i32::MAX).accepts(&frame));
    assert!(!Filter::Count(0).accepts(&frame));
    assert!(!Filter::Count(-1).accepts(&frame));
}

#[test]
fn default_selects_everything() {
    assert!(Filter::Default("default".to_string()).accepts(&tcp_frame()));
    assert!(Filter::Default(String::new()).accepts(&EthernetFrame::new()));
    assert!(Filter::from_str(args(&["everything"])).accepts(&EthernetFrame::new()));
}
