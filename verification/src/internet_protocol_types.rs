//! The transport layer: TCP segments, UDP datagrams and ICMP messages, how
//! each is read from a buffer, and how each is shown.

use crate::error::DecodeError;
use crate::field_reader::{
    be16,
    be16_value,
    be32,
    be32_value,
    read_array,
    read_byte,
    read_rest,
    zeros,
};
use crate::ip_protocol::IPProtocol;
use crate::text::{decimal, hexadecimal, push_decimal, push_hexadecimal, shows};
use vstd::prelude::*;

verus! {

/// The text that the payload of an unrecognized protocol carries.
pub open spec fn unrecognized_note() -> Seq<char> {
    "This is the default value"@
}

/// The line that tells whether a header has options, and how many bytes. It
/// begins with the tag of the layer whose header it is, as every line of a
/// layer's text does.
pub open spec fn options_text(tag: Seq<char>, options: Option<Seq<u8>>) -> Seq<char> {
    match options {
        None => tag + "No options\n"@,
        Some(bytes) => tag + "Options: "@ + decimal(bytes.len()) + "\n"@,
    }
}

/// The line that tells whether a header has options, and how many bytes,
/// under the tag of the header's layer.
pub fn options_line(tag: &str, options: &Option<Vec<u8>>) -> (line: String)
    ensures
        line@ == options_text(
            tag@,
            match *options {
                None => None,
                Some(bytes) => Some(bytes@),
            },
        ),
{
    let mut line = String::from_str(tag);
    match options {
        None => {
            line.append("No options\n");
        },
        Some(bytes) => {
            line.append("Options: ");
            push_decimal(&mut line, bytes.len() as u64);
            line.append("\n");
        },
    }
    line
}

/// The line on the options begins with the tag that it was given.
pub proof fn lemma_options_text_begins_with_tag(tag: Seq<char>, options: Option<Seq<u8>>)
    ensures
        options_text(tag, options).len() > tag.len(),
        options_text(tag, options).take(tag.len() as int) == tag,
{
    reveal_strlit("No options\n");
    reveal_strlit("\n");
    assert(options_text(tag, options).take(tag.len() as int) =~= tag);
}

/// A TCP header as a mathematical value.
pub struct TcpSegment {
    pub source_port: Seq<u8>,
    pub destination_port: Seq<u8>,
    pub sequence_number: Seq<u8>,
    pub acknowledgement_number: Seq<u8>,
    pub data_offset: u8,
    pub flags: u8,
    pub window: Seq<u8>,
    pub checksum: Seq<u8>,
    pub urgent_pointer: Seq<u8>,
    pub options: Option<Seq<u8>>,
}

impl TcpSegment {
    /// The TCP header that starts at byte `start` of `bytes`. The header is
    /// twenty bytes long; the byte after the header length and flags is passed
    /// over, and options are not taken out.
    pub open spec fn at(bytes: Seq<u8>, start: int) -> Result<TcpSegment, DecodeError> {
        if start + 20 > bytes.len() {
            Err(DecodeError::TruncatedBuffer)
        } else {
            Ok(
                TcpSegment {
                    source_port: bytes.subrange(start, start + 2),
                    destination_port: bytes.subrange(start + 2, start + 4),
                    sequence_number: bytes.subrange(start + 4, start + 8),
                    acknowledgement_number: bytes.subrange(start + 8, start + 12),
                    data_offset: (bytes[start + 12] / 16 * 4) as u8,
                    flags: bytes[start + 12] % 16,
                    window: bytes.subrange(start + 14, start + 16),
                    checksum: bytes.subrange(start + 16, start + 18),
                    urgent_pointer: bytes.subrange(start + 18, start + 20),
                    options: None,
                },
            )
        }
    }

    /// A header of zeros without options.
    pub open spec fn blank() -> TcpSegment {
        TcpSegment {
            source_port: zeros(2),
            destination_port: zeros(2),
            sequence_number: zeros(4),
            acknowledgement_number: zeros(4),
            data_offset: 0,
            flags: 0,
            window: zeros(2),
            checksum: zeros(2),
            urgent_pointer: zeros(2),
            options: None,
        }
    }

    /// The two lines that show the ports.
    pub open spec fn port_lines(self) -> Seq<char> {
        tcp_port_lines(be16(self.source_port), be16(self.destination_port))
    }

    /// The lines after the ports, from the sequence number to the options,
    /// each under the layer's tag.
    pub open spec fn detail_lines(self) -> Seq<char> {
        self.field_lines() + options_text("TCP: "@, self.options)
    }

    /// The lines after the ports and before the line on the options.
    pub open spec fn field_lines(self) -> Seq<char> {
        "TCP: Sequence number   = "@ + decimal(be32(self.sequence_number)) + "\n"@
            + "TCP: Acknowledgement number     = "@ + decimal(be32(self.acknowledgement_number))
            + "\n"@ + "TCP: Data offset(header length) = "@ + decimal(self.data_offset as nat)
            + " bytes\n"@ + "TCP: Flags             = "@ + decimal(self.flags as nat) + "\n"@
            + "TCP: Window            = "@ + decimal(be16(self.window)) + "\n"@
            + "TCP: Checksum          = 0x"@ + hexadecimal(self.checksum[0] as nat) + hexadecimal(
            self.checksum[1] as nat,
        ) + "\n"@ + "TCP: Urgent pointer    = "@ + decimal(be16(self.urgent_pointer)) + "\n"@
    }

    /// The header as diagnostic text: the heading, the ports, and the other
    /// fields.
    pub open spec fn text(self) -> Seq<char> {
        "TCP: -----TCP Header-----\n"@ + "TCP:\n"@ + self.port_lines() + self.detail_lines()
    }
}

/// In the text of a TCP header the line on the options stands on a line of
/// its own, after all the others, and begins with the layer's tag.
pub proof fn lemma_tcp_options_line_is_tagged(segment: TcpSegment)
    ensures
        segment.text() == "TCP: -----TCP Header-----\n"@ + "TCP:\n"@ + segment.port_lines() + (
        segment.field_lines() + options_text("TCP: "@, segment.options)),
        segment.field_lines().last() == '\n',
        options_text("TCP: "@, segment.options).take(5) == "TCP: "@,
{
    reveal_strlit("\n");
    reveal_strlit("TCP: ");
    lemma_options_text_begins_with_tag("TCP: "@, segment.options);
}

/// The two lines of a TCP header's text that show its ports.
pub open spec fn tcp_port_lines(source: nat, destination: nat) -> Seq<char> {
    "TCP: Source Port       = "@ + decimal(source) + "\n"@ + "TCP: Destination Port  = "@
        + decimal(destination) + "\n"@
}

/// The text of a TCP header shows both ports as the numbers that their two
/// bytes spell, the first byte most significant.
pub proof fn lemma_tcp_text_shows_ports(segment: TcpSegment)
    ensures
        shows(
            segment.text(),
            tcp_port_lines(be16(segment.source_port), be16(segment.destination_port)),
        ),
{
    let before = "TCP: -----TCP Header-----\n"@ + "TCP:\n"@;
    assert(segment.text() == before + segment.port_lines() + segment.detail_lines());
}

/// A TCP header. The byte fields hold the bytes as they stand in the buffer.
#[derive(Clone, Debug, PartialEq, Eq)]
pub struct TCPPacket {
    pub source_port: [u8; 2],
    pub destination_port: [u8; 2],
    pub sequence_number: [u8; 4],
    pub acknowledgement_number: [u8; 4],
    /// The header length in bytes: four times the high four bits of the
    /// thirteenth header byte.
    pub data_offset: u8,
    /// The low four bits of the thirteenth header byte.
    pub flags: u8,
    pub window: [u8; 2],
    pub checksum: [u8; 2],
    pub urgent_pointer: [u8; 2],
    /// Up to forty bytes; the decoder leaves them in the buffer.
    pub options: Option<Vec<u8>>,
}

impl View for TCPPacket {
    type V = TcpSegment;

    open spec fn view(&self) -> TcpSegment {
        TcpSegment {
            source_port: self.source_port@,
            destination_port: self.destination_port@,
            sequence_number: self.sequence_number@,
            acknowledgement_number: self.acknowledgement_number@,
            data_offset: self.data_offset,
            flags: self.flags,
            window: self.window@,
            checksum: self.checksum@,
            urgent_pointer: self.urgent_pointer@,
            options: match self.options {
                None => None,
                Some(bytes) => Some(bytes@),
            },
        }
    }
}

impl TCPPacket {
    /// A header of zeros without options.
    pub fn new() -> (packet: TCPPacket)
        ensures
            packet@ == TcpSegment::blank(),
    {
        let packet = TCPPacket {
            source_port: [0, 0],
            destination_port: [0, 0],
            sequence_number: [0, 0, 0, 0],
            acknowledgement_number: [0, 0, 0, 0],
            data_offset: 0,
            flags: 0,
            window: [0, 0],
            checksum: [0, 0],
            urgent_pointer: [0, 0],
            options: None,
        };
        assert(packet.source_port@ =~= zeros(2));
        assert(packet.destination_port@ =~= zeros(2));
        assert(packet.sequence_number@ =~= zeros(4));
        assert(packet.acknowledgement_number@ =~= zeros(4));
        assert(packet.window@ =~= zeros(2));
        assert(packet.checksum@ =~= zeros(2));
        assert(packet.urgent_pointer@ =~= zeros(2));
        packet
    }

    /// Reads the TCP header that starts at byte `start` of `bytes`.
    pub fn decode(bytes: &[u8], start: usize) -> (result: Result<TCPPacket, DecodeError>)
        ensures
            match result {
                Ok(packet) => TcpSegment::at(bytes@, start as int) == Ok::<
                    TcpSegment,
                    DecodeError,
                >(packet@),
                Err(e) => TcpSegment::at(bytes@, start as int) == Err::<TcpSegment, DecodeError>(e),
            },
    {
        let (source_port, at) = read_array::<2>(bytes, start)?;
        let (destination_port, at) = read_array::<2>(bytes, at)?;
        let (sequence_number, at) = read_array::<4>(bytes, at)?;
        let (acknowledgement_number, at) = read_array::<4>(bytes, at)?;
        let (data_offset_and_flags, at) = read_byte(bytes, at)?;
        let data_offset = (data_offset_and_flags >> 4) & 0xF;
        let flags = data_offset_and_flags & 0xF;
        assert((data_offset_and_flags >> 4) & 0xF == data_offset_and_flags / 16) by (bit_vector);
        assert(data_offset_and_flags & 0xF == data_offset_and_flags % 16) by (bit_vector);
        let (_, at) = read_byte(bytes, at)?;
        let (window, at) = read_array::<2>(bytes, at)?;
        let (checksum, at) = read_array::<2>(bytes, at)?;
        let (urgent_pointer, _) = read_array::<2>(bytes, at)?;
        Ok(
            TCPPacket {
                source_port,
                destination_port,
                sequence_number,
                acknowledgement_number,
                data_offset: data_offset * 4,
                flags,
                window,
                checksum,
                urgent_pointer,
                options: None,
            },
        )
    }

    /// The two lines that show the ports.
    fn port_lines_text(&self) -> (text: String)
        ensures
            text@ == self@.port_lines(),
    {
        let mut text = String::from_str("TCP: Source Port       = ");
        push_decimal(&mut text, be16_value(&self.source_port) as u64);
        text.append("\n");
        text.append("TCP: Destination Port  = ");
        push_decimal(&mut text, be16_value(&self.destination_port) as u64);
        text.append("\n");
        text
    }

    /// The lines after the ports.
    fn detail_lines_text(&self) -> (text: String)
        ensures
            text@ == self@.detail_lines(),
    {
        let mut text = String::from_str("TCP: Sequence number   = ");
        push_decimal(&mut text, be32_value(&self.sequence_number) as u64);
        text.append("\n");
        text.append("TCP: Acknowledgement number     = ");
        push_decimal(&mut text, be32_value(&self.acknowledgement_number) as u64);
        text.append("\n");
        text.append("TCP: Data offset(header length) = ");
        push_decimal(&mut text, self.data_offset as u64);
        text.append(" bytes\n");
        text.append("TCP: Flags             = ");
        push_decimal(&mut text, self.flags as u64);
        text.append("\n");
        text.append("TCP: Window            = ");
        push_decimal(&mut text, be16_value(&self.window) as u64);
        text.append("\n");
        text.append("TCP: Checksum          = 0x");
        push_hexadecimal(&mut text, self.checksum[0] as u64);
        push_hexadecimal(&mut text, self.checksum[1] as u64);
        text.append("\n");
        text.append("TCP: Urgent pointer    = ");
        push_decimal(&mut text, be16_value(&self.urgent_pointer) as u64);
        text.append("\n");
        let options = options_line("TCP: ", &self.options);
        text.append(options.as_str());
        text
    }

    /// The header as diagnostic text.
    pub fn to_text(&self) -> (text: String)
        ensures
            text@ == self@.text(),
    {
        let mut text = String::from_str("TCP: -----TCP Header-----\n");
        text.append("TCP:\n");
        let ports = self.port_lines_text();
        text.append(ports.as_str());
        let details = self.detail_lines_text();
        text.append(details.as_str());
        text
    }
}

/// A UDP datagram as a mathematical value.
pub struct UdpDatagram {
    pub source_port: Seq<u8>,
    pub destination_port: Seq<u8>,
    pub length: Seq<u8>,
    pub checksum: Seq<u8>,
    pub data: Seq<u8>,
}

impl UdpDatagram {
    /// The UDP datagram that starts at byte `start` of `bytes`: an eight-byte
    /// header, and every byte after it as payload.
    pub open spec fn at(bytes: Seq<u8>, start: int) -> Result<UdpDatagram, DecodeError> {
        if start + 8 > bytes.len() {
            Err(DecodeError::TruncatedBuffer)
        } else {
            Ok(
                UdpDatagram {
                    source_port: bytes.subrange(start, start + 2),
                    destination_port: bytes.subrange(start + 2, start + 4),
                    length: bytes.subrange(start + 4, start + 6),
                    checksum: bytes.subrange(start + 6, start + 8),
                    data: bytes.skip(start + 8),
                },
            )
        }
    }

    /// A header of zeros with an empty payload.
    pub open spec fn blank() -> UdpDatagram {
        UdpDatagram {
            source_port: zeros(2),
            destination_port: zeros(2),
            length: zeros(2),
            checksum: zeros(2),
            data: Seq::empty(),
        }
    }

    /// The header as diagnostic text.
    pub open spec fn text(self) -> Seq<char> {
        "UDP: -----UDP Header-----\n"@ + "UDP:\n"@ + "UDP: Source port      = "@ + decimal(
            be16(self.source_port),
        ) + "\n"@ + "UDP: Destination port = "@ + decimal(be16(self.destination_port)) + "\n"@
            + "UDP: Length           = "@ + decimal(be16(self.length)) + "\n"@
            + "UDP: Checksum         = 0x"@ + hexadecimal(self.checksum[0] as nat) + hexadecimal(
            self.checksum[1] as nat,
        ) + "\n"@ + "UDP:"@
    }
}

/// A UDP datagram. The byte fields hold the bytes as they stand in the
/// buffer.
#[derive(Clone, Debug, PartialEq, Eq)]
pub struct UDPPacket {
    pub source_port: [u8; 2],
    pub destination_port: [u8; 2],
    pub length: [u8; 2],
    pub checksum: [u8; 2],
    pub data: Vec<u8>,
}

impl View for UDPPacket {
    type V = UdpDatagram;

    open spec fn view(&self) -> UdpDatagram {
        UdpDatagram {
            source_port: self.source_port@,
            destination_port: self.destination_port@,
            length: self.length@,
            checksum: self.checksum@,
            data: self.data@,
        }
    }
}

impl UDPPacket {
    /// A header of zeros with an empty payload.
    pub fn new() -> (packet: UDPPacket)
        ensures
            packet@ == UdpDatagram::blank(),
    {
        let packet = UDPPacket {
            source_port: [0, 0],
            destination_port: [0, 0],
            length: [0, 0],
            checksum: [0, 0],
            data: Vec::new(),
        };
        assert(packet.source_port@ =~= zeros(2));
        assert(packet.destination_port@ =~= zeros(2));
        assert(packet.length@ =~= zeros(2));
        assert(packet.checksum@ =~= zeros(2));
        packet
    }

    /// Reads the UDP datagram that starts at byte `start` of `bytes`.
    pub fn decode(bytes: &[u8], start: usize) -> (result: Result<UDPPacket, DecodeError>)
        ensures
            match result {
                Ok(packet) => UdpDatagram::at(bytes@, start as int) == Ok::<
                    UdpDatagram,
                    DecodeError,
                >(packet@),
                Err(e) => UdpDatagram::at(bytes@, start as int) == Err::<UdpDatagram, DecodeError>(
                    e,
                ),
            },
    {
        let (source_port, at) = read_array::<2>(bytes, start)?;
        let (destination_port, at) = read_array::<2>(bytes, at)?;
        let (length, at) = read_array::<2>(bytes, at)?;
        let (checksum, at) = read_array::<2>(bytes, at)?;
        let data = read_rest(bytes, at)?;
        Ok(UDPPacket { source_port, destination_port, length, checksum, data })
    }

    /// The header as diagnostic text.
    pub fn to_text(&self) -> (text: String)
        ensures
            text@ == self@.text(),
    {
        let mut text = String::from_str("UDP: -----UDP Header-----\n");
        text.append("UDP:\n");
        text.append("UDP: Source port      = ");
        push_decimal(&mut text, be16_value(&self.source_port) as u64);
        text.append("\n");
        text.append("UDP: Destination port = ");
        push_decimal(&mut text, be16_value(&self.destination_port) as u64);
        text.append("\n");
        text.append("UDP: Length           = ");
        push_decimal(&mut text, be16_value(&self.length) as u64);
        text.append("\n");
        text.append("UDP: Checksum         = 0x");
        push_hexadecimal(&mut text, self.checksum[0] as u64);
        push_hexadecimal(&mut text, self.checksum[1] as u64);
        text.append("\n");
        text.append("UDP:");
        text
    }
}

/// Two bytes in the opposite order.
pub open spec fn swapped(pair: Seq<u8>) -> Seq<u8> {
    seq![pair[1], pair[0]]
}

/// An ICMP message as a mathematical value.
pub struct ControlMessage {
    pub packet_type: u8,
    pub code: u8,
    pub checksum: Seq<u8>,
    pub identifier_be: Seq<u8>,
    pub identifier_le: Seq<u8>,
    pub sequence_be: Seq<u8>,
    pub sequence_le: Seq<u8>,
    pub timestamp: Seq<u8>,
    pub data: Seq<u8>,
}

impl ControlMessage {
    /// The ICMP message that starts at byte `start` of `bytes`: a sixteen-byte
    /// header, and every byte after it as payload. Identifier and sequence
    /// number are each kept twice, in the order of the buffer and swapped.
    pub open spec fn at(bytes: Seq<u8>, start: int) -> Result<ControlMessage, DecodeError> {
        if start + 16 > bytes.len() {
            Err(DecodeError::TruncatedBuffer)
        } else {
            Ok(
                ControlMessage {
                    packet_type: bytes[start],
                    code: bytes[start + 1],
                    checksum: bytes.subrange(start + 2, start + 4),
                    identifier_be: bytes.subrange(start + 4, start + 6),
                    identifier_le: swapped(bytes.subrange(start + 4, start + 6)),
                    sequence_be: bytes.subrange(start + 6, start + 8),
                    sequence_le: swapped(bytes.subrange(start + 6, start + 8)),
                    timestamp: bytes.subrange(start + 8, start + 16),
                    data: bytes.skip(start + 16),
                },
            )
        }
    }

    /// A header of zeros with an empty payload.
    pub open spec fn blank() -> ControlMessage {
        ControlMessage {
            packet_type: 0,
            code: 0,
            checksum: zeros(2),
            identifier_be: zeros(2),
            identifier_le: zeros(2),
            sequence_be: zeros(2),
            sequence_le: zeros(2),
            timestamp: zeros(8),
            data: Seq::empty(),
        }
    }

    /// The header as diagnostic text.
    pub open spec fn text(self) -> Seq<char> {
        "ICMP: -----ICMP Header-----\n"@ + "ICMP:\n"@ + "ICMP: type= "@ + decimal(
            self.packet_type as nat,
        ) + "\n"@ + "ICMP: Code= "@ + decimal(self.code as nat) + "\n"@ + "ICMP: checksum= 0x"@
            + hexadecimal(self.checksum[0] as nat) + hexadecimal(self.checksum[1] as nat) + "\n"@
            + "ICMP:"@
    }
}

/// An ICMP message. The byte fields hold the bytes as they stand in the
/// buffer, but for the two `_le` fields, which hold them swapped.
#[derive(Clone, Debug, PartialEq, Eq)]
pub struct ICMPPacket {
    pub packet_type: u8,
    pub code: u8,
    pub checksum: [u8; 2],
    pub identifier_be: [u8; 2],
    pub identifier_le: [u8; 2],
    pub sequence_be: [u8; 2],
    pub sequence_le: [u8; 2],
    pub timestamp: [u8; 8],
    pub data: Vec<u8>,
}

impl View for ICMPPacket {
    type V = ControlMessage;

    open spec fn view(&self) -> ControlMessage {
        ControlMessage {
            packet_type: self.packet_type,
            code: self.code,
            checksum: self.checksum@,
            identifier_be: self.identifier_be@,
            identifier_le: self.identifier_le@,
            sequence_be: self.sequence_be@,
            sequence_le: self.sequence_le@,
            timestamp: self.timestamp@,
            data: self.data@,
        }
    }
}

impl ICMPPacket {
    /// A header of zeros with an empty payload.
    pub fn new() -> (packet: ICMPPacket)
        ensures
            packet@ == ControlMessage::blank(),
    {
        let packet = ICMPPacket {
            packet_type: 0,
            code: 0,
            checksum: [0, 0],
            identifier_be: [0, 0],
            identifier_le: [0, 0],
            sequence_be: [0, 0],
            sequence_le: [0, 0],
            timestamp: [0, 0, 0, 0, 0, 0, 0, 0],
            data: Vec::new(),
        };
        assert(packet.checksum@ =~= zeros(2));
        assert(packet.identifier_be@ =~= zeros(2));
        assert(packet.identifier_le@ =~= zeros(2));
        assert(packet.sequence_be@ =~= zeros(2));
        assert(packet.sequence_le@ =~= zeros(2));
        assert(packet.timestamp@ =~= zeros(8));
        packet
    }

    /// Reads the ICMP message that starts at byte `start` of `bytes`.
    pub fn decode(bytes: &[u8], start: usize) -> (result: Result<ICMPPacket, DecodeError>)
        ensures
            match result {
                Ok(packet) => ControlMessage::at(bytes@, start as int) == Ok::<
                    ControlMessage,
                    DecodeError,
                >(packet@),
                Err(e) => ControlMessage::at(bytes@, start as int) == Err::<ControlMessage, DecodeError>(
                    e,
                ),
            },
    {
        let (packet_type, at) = read_byte(bytes, start)?;
        let (code, at) = read_byte(bytes, at)?;
        let (checksum, at) = read_array::<2>(bytes, at)?;
        let (identifier_be, at) = read_array::<2>(bytes, at)?;
        let identifier_le = [identifier_be[1], identifier_be[0]];
        let (sequence_be, at) = read_array::<2>(bytes, at)?;
        let sequence_le = [sequence_be[1], sequence_be[0]];
        let (timestamp, at) = read_array::<8>(bytes, at)?;
        let data = read_rest(bytes, at)?;
        assert(identifier_le@ =~= swapped(identifier_be@));
        assert(sequence_le@ =~= swapped(sequence_be@));
        Ok(
            ICMPPacket {
                packet_type,
                code,
                checksum,
                identifier_be,
                identifier_le,
                sequence_be,
                sequence_le,
                timestamp,
                data,
            },
        )
    }

    /// The header as diagnostic text.
    pub fn to_text(&self) -> (text: String)
        ensures
            text@ == self@.text(),
    {
        let mut text = String::from_str("ICMP: -----ICMP Header-----\n");
        text.append("ICMP:\n");
        text.append("ICMP: type= ");
        push_decimal(&mut text, self.packet_type as u64);
        text.append("\n");
        text.append("ICMP: Code= ");
        push_decimal(&mut text, self.code as u64);
        text.append("\n");
        text.append("ICMP: checksum= 0x");
        push_hexadecimal(&mut text, self.checksum[0] as u64);
        push_hexadecimal(&mut text, self.checksum[1] as u64);
        text.append("\n");
        text.append("ICMP:");
        text
    }
}

/// What follows an internet header, as a mathematical value.
pub enum TransportPayload {
    Tcp(TcpSegment),
    Udp(UdpDatagram),
    Control(ControlMessage),
    /// The payload of a protocol that is none of the three; it carries a
    /// note and none of the buffer's bytes.
    Unrecognized(Seq<char>),
}

impl TransportPayload {
    /// The payload that starts at byte `start` of `bytes` under the given
    /// protocol. An unrecognized protocol is no failure.
    pub open spec fn at(bytes: Seq<u8>, protocol: IPProtocol, start: int) -> Result<
        TransportPayload,
        DecodeError,
    > {
        match protocol {
            IPProtocol::ICMP => match ControlMessage::at(bytes, start) {
                Ok(message) => Ok(TransportPayload::Control(message)),
                Err(e) => Err(e),
            },
            IPProtocol::TCP => match TcpSegment::at(bytes, start) {
                Ok(segment) => Ok(TransportPayload::Tcp(segment)),
                Err(e) => Err(e),
            },
            IPProtocol::UDP => match UdpDatagram::at(bytes, start) {
                Ok(datagram) => Ok(TransportPayload::Udp(datagram)),
                Err(e) => Err(e),
            },
            IPProtocol::Default => Ok(TransportPayload::Unrecognized(unrecognized_note())),
        }
    }

    /// The payload as diagnostic text: the block of its layer, every line
    /// under the layer's tag. The payload of an unrecognized protocol is no
    /// layer and has no block; one fixed note stands in its place.
    pub open spec fn text(self) -> Seq<char> {
        match self {
            TransportPayload::Tcp(segment) => segment.text(),
            TransportPayload::Udp(datagram) => datagram.text(),
            TransportPayload::Control(message) => message.text(),
            TransportPayload::Unrecognized(_) => "This is a placeholder"@,
        }
    }
}

/// What follows an internet header.
#[derive(Clone, Debug, PartialEq, Eq)]
pub enum ProtocolDatagram {
    TCP(TCPPacket),
    UDP(UDPPacket),
    ICMP(ICMPPacket),
    /// The payload of a protocol that is none of the three above.
    Default(String),
}

impl View for ProtocolDatagram {
    type V = TransportPayload;

    open spec fn view(&self) -> TransportPayload {
        match self {
            ProtocolDatagram::TCP(packet) => TransportPayload::Tcp(packet@),
            ProtocolDatagram::UDP(packet) => TransportPayload::Udp(packet@),
            ProtocolDatagram::ICMP(packet) => TransportPayload::Control(packet@),
            ProtocolDatagram::Default(note) => TransportPayload::Unrecognized(note@),
        }
    }
}

impl ProtocolDatagram {
    /// The payload of an unrecognized protocol.
    pub fn new() -> (datagram: ProtocolDatagram)
        ensures
            datagram@ == TransportPayload::Unrecognized(unrecognized_note()),
    {
        ProtocolDatagram::Default(String::from_str("This is the default value"))
    }

    /// Reads the payload that starts at byte `start` of `bytes` under the
    /// given protocol.
    pub fn decode(bytes: &[u8], protocol: IPProtocol, start: usize) -> (result: Result<
        ProtocolDatagram,
        DecodeError,
    >)
        ensures
            match result {
                Ok(datagram) => TransportPayload::at(bytes@, protocol, start as int) == Ok::<
                    TransportPayload,
                    DecodeError,
                >(datagram@),
                Err(e) => TransportPayload::at(bytes@, protocol, start as int) == Err::<
                    TransportPayload,
                    DecodeError,
                >(e),
            },
    {
        match protocol {
            IPProtocol::ICMP => {
                let message = ICMPPacket::decode(bytes, start)?;
                Ok(ProtocolDatagram::ICMP(message))
            },
            IPProtocol::UDP => {
                let udp = UDPPacket::decode(bytes, start)?;
                Ok(ProtocolDatagram::UDP(udp))
            },
            IPProtocol::TCP => {
                let tcp = TCPPacket::decode(bytes, start)?;
                Ok(ProtocolDatagram::TCP(tcp))
            },
            IPProtocol::Default => Ok(ProtocolDatagram::new()),
        }
    }

    /// The payload as diagnostic text.
    pub fn to_text(&self) -> (text: String)
        ensures
            text@ == self@.text(),
    {
        match self {
            ProtocolDatagram::TCP(packet) => packet.to_text(),
            ProtocolDatagram::UDP(packet) => packet.to_text(),
            ProtocolDatagram::ICMP(packet) => packet.to_text(),
            ProtocolDatagram::Default(_) => String::from_str("This is a placeholder"),
        }
    }
}

} // verus!
