//! The internet layer: the header of an internet packet, how it is read
//! from a buffer, and how it is shown.

use crate::error::DecodeError;
use crate::field_reader::{
    be16,
    be16_value,
    read_array,
    read_byte,
    read_bytes,
    read_flags_and_offset,
    read_nibbles,
    read_service_bits,
    zeros,
};
use crate::internet_protocol_types::{
    lemma_options_text_begins_with_tag,
    options_line,
    options_text,
    ProtocolDatagram,
    TransportPayload,
};
use crate::ip_protocol::{IPProtocol, IPVersion};
use crate::text::{decimal, hexadecimal, push_decimal, push_hexadecimal};
use vstd::prelude::*;

verus! {

/// An internet header with what follows it, as a mathematical value.
pub struct InternetHeader {
    pub version: IPVersion,
    pub ihl: u8,
    pub tos: u8,
    pub precedence: u8,
    pub delay: u8,
    pub throughput: u8,
    pub reliability: u8,
    pub total_length: Seq<u8>,
    pub identification: Seq<u8>,
    pub reserved_flag: u8,
    pub do_not_fragment_flag: u8,
    pub last_fragment_flag: u8,
    pub fragment_offset: u16,
    pub ttl: u8,
    pub protocol: IPProtocol,
    pub header_checksum: Seq<u8>,
    pub source_add: Seq<u8>,
    pub destination_add: Seq<u8>,
    pub options: Option<Seq<u8>>,
    pub datagram: TransportPayload,
}

impl InternetHeader {
    /// The internet header at the start of `bytes`, with the payload that
    /// follows it.
    ///
    /// The fixed part of the header is twenty bytes. The low four bits of the
    /// first byte give the header length in words of four bytes; fewer than
    /// five words is malformed, and with more than five the bytes after the
    /// fixed part, up to the header length, are the options. The payload
    /// starts where the header ends and is read under the protocol that the
    /// tenth byte names. The fragment offset is the low thirteen bits of the
    /// two bytes whose first three bits are the flags.
    pub open spec fn of(bytes: Seq<u8>) -> Result<InternetHeader, DecodeError> {
        if bytes.len() < 20 {
            Err(DecodeError::TruncatedBuffer)
        } else if bytes[0] % 16 < 5 {
            Err(DecodeError::MalformedField)
        } else if bytes.len() < 4 * (bytes[0] % 16) {
            Err(DecodeError::TruncatedBuffer)
        } else {
            match TransportPayload::at(
                bytes,
                IPProtocol::of_discriminator(bytes[9]),
                4 * (bytes[0] % 16),
            ) {
                Err(e) => Err(e),
                Ok(datagram) => Ok(
                    InternetHeader {
                        version: IPVersion::of_nibble(bytes[0] / 16),
                        ihl: bytes[0] % 16,
                        tos: bytes[1] % 4,
                        precedence: bytes[1] / 32,
                        delay: bytes[1] / 16 % 2,
                        throughput: bytes[1] / 8 % 2,
                        reliability: bytes[1] / 4 % 2,
                        total_length: bytes.subrange(2, 4),
                        identification: bytes.subrange(4, 6),
                        reserved_flag: bytes[6] / 128,
                        do_not_fragment_flag: bytes[6] / 64 % 2,
                        last_fragment_flag: bytes[6] / 32 % 2,
                        fragment_offset: (be16(bytes.subrange(6, 8)) % 8192) as u16,
                        ttl: bytes[8],
                        protocol: IPProtocol::of_discriminator(bytes[9]),
                        header_checksum: bytes.subrange(10, 12),
                        source_add: bytes.subrange(12, 16),
                        destination_add: bytes.subrange(16, 20),
                        options: if bytes[0] % 16 > 5 {
                            Some(bytes.subrange(20, 4 * (bytes[0] % 16)))
                        } else {
                            None
                        },
                        datagram: datagram,
                    },
                ),
            }
        }
    }

    /// A version 4 header of zeros, without options, whose payload is that of
    /// an unrecognized protocol.
    pub open spec fn blank() -> InternetHeader {
        InternetHeader {
            version: IPVersion::V4,
            ihl: 0,
            tos: 0,
            precedence: 0,
            delay: 0,
            throughput: 0,
            reliability: 0,
            total_length: zeros(2),
            identification: zeros(2),
            reserved_flag: 0,
            do_not_fragment_flag: 0,
            last_fragment_flag: 0,
            fragment_offset: 0,
            ttl: 0,
            protocol: IPProtocol::Default,
            header_checksum: zeros(2),
            source_add: zeros(4),
            destination_add: zeros(4),
            options: None,
            datagram: TransportPayload::Unrecognized(placeholder_note()),
        }
    }

    /// Whether the header's length and its options agree: the header is at
    /// least five words long, and it has options exactly if it is longer,
    /// four bytes of them for each further word.
    pub open spec fn consistent(self) -> bool {
        &&& 5 <= self.ihl <= 15
        &&& self.ihl == 5 <==> self.options is None
        &&& self.options matches Some(bytes) ==> bytes.len() == 4 * self.ihl - 20
    }

    /// The header and its payload as diagnostic text.
    pub open spec fn text(self) -> Seq<char> {
        self.header_text() + self.datagram.text()
    }

    /// The header alone as diagnostic text, down to the line on its options.
    /// Every line begins with the layer's tag, the line on the options
    /// included.
    pub open spec fn header_text(self) -> Seq<char> {
        self.field_lines() + options_text("IP: "@, self.options)
    }

    /// The lines of the header before the line on its options.
    pub open spec fn field_lines(self) -> Seq<char> {
        "IP: -----IP Header-----\n"@ + "IP:\n"@ + "IP: Version         = "@ + self.version.text()
            + "\n"@ + "IP: Header length   = "@ + decimal((self.ihl * 4) as nat) + " bytes\n"@
            + "IP: Type of service = 0x"@ + hexadecimal(self.tos as nat) + "\n"@
            + "IP:     xxx. ....   = "@ + decimal(self.precedence as nat) + "(precedence)\n"@
            + "IP:     ..."@ + decimal(self.delay as nat) + " ....  = "@ + (if self.delay == 0 {
            "normal"@
        } else {
            "low"@
        }) + " delay \n"@ + "IP:     .... "@ + decimal(self.throughput as nat) + "...  = "@ + (
        if self.throughput == 0 {
            "normal"@
        } else {
            "high"@
        }) + " throughput\n"@ + "IP:     .... ."@ + decimal(self.reliability as nat) + "..  = "@
            + (if self.reliability == 0 {
            "normal"@
        } else {
            "high"@
        }) + " reliability\n"@ + "IP: Total length    = "@ + decimal(be16(self.total_length))
            + " bytes\n"@ + "IP: Identification  = "@ + decimal(be16(self.identification)) + "\n"@
            + "IP: Flags: \n"@ + "IP:     "@ + decimal(self.reserved_flag as nat)
            + "... ....  = "@ + (if self.reserved_flag == 0 {
            "reserved"@
        } else {
            "not reserved"@
        }) + "\n"@ + "IP:     ."@ + decimal(self.do_not_fragment_flag as nat) + ".. ....  = "@ + (
        if self.do_not_fragment_flag == 1 {
            "do not "@
        } else {
            ""@
        }) + "fragment\n"@ + "IP:     .."@ + decimal(self.last_fragment_flag as nat)
            + ". ....  = last fragment\n"@ + "IP: Fragment offset = "@ + decimal(
            self.fragment_offset as nat,
        ) + " bytes\n"@ + "IP: Time to live    = "@ + decimal(self.ttl as nat)
            + " seconds/hops\n"@ + "IP: Protocol        = "@ + self.protocol.text() + "\n"@
            + "IP: Header checksum = 0x"@ + hexadecimal(self.header_checksum[0] as nat)
            + hexadecimal(self.header_checksum[1] as nat) + "\n"@ + "IP: Source address  = "@
            + decimal(self.source_add[0] as nat) + "."@ + decimal(self.source_add[1] as nat) + "."@
            + decimal(self.source_add[2] as nat) + "."@ + decimal(self.source_add[3] as nat)
            + "\n"@ + "IP: Destination address= "@ + decimal(self.destination_add[0] as nat)
            + "."@ + decimal(self.destination_add[1] as nat) + "."@ + decimal(
            self.destination_add[2] as nat,
        ) + "."@ + decimal(self.destination_add[3] as nat) + "\n"@
    }
}

/// An internet header with what follows it. The byte fields hold the bytes
/// as they stand in the buffer.
#[derive(Clone, Debug, PartialEq, Eq)]
pub struct IPacket {
    pub version: IPVersion,
    /// The header length in words of four bytes.
    pub ihl: u8,
    /// The low two bits of the service byte.
    pub tos: u8,
    pub precedence: u8,
    pub delay: u8,
    pub throughput: u8,
    pub reliability: u8,
    pub total_length: [u8; 2],
    pub identification: [u8; 2],
    pub reserved_flag: u8,
    pub do_not_fragment_flag: u8,
    pub last_fragment_flag: u8,
    pub fragment_offset: u16,
    pub ttl: u8,
    pub protocol: IPProtocol,
    pub header_checksum: [u8; 2],
    pub source_add: [u8; 4],
    pub destination_add: [u8; 4],
    pub options: Option<Vec<u8>>,
    pub datagram: ProtocolDatagram,
}

impl View for IPacket {
    type V = InternetHeader;

    open spec fn view(&self) -> InternetHeader {
        InternetHeader {
            version: self.version,
            ihl: self.ihl,
            tos: self.tos,
            precedence: self.precedence,
            delay: self.delay,
            throughput: self.throughput,
            reliability: self.reliability,
            total_length: self.total_length@,
            identification: self.identification@,
            reserved_flag: self.reserved_flag,
            do_not_fragment_flag: self.do_not_fragment_flag,
            last_fragment_flag: self.last_fragment_flag,
            fragment_offset: self.fragment_offset,
            ttl: self.ttl,
            protocol: self.protocol,
            header_checksum: self.header_checksum@,
            source_add: self.source_add@,
            destination_add: self.destination_add@,
            options: match self.options {
                None => None,
                Some(bytes) => Some(bytes@),
            },
            datagram: self.datagram@,
        }
    }
}

/// The text that the payload of a header that was never decoded carries.
pub open spec fn placeholder_note() -> Seq<char> {
    "placeholder"@
}

impl IPacket {
    /// A version 4 header of zeros, without options, whose payload is that of
    /// an unrecognized protocol.
    pub fn new() -> (packet: IPacket)
        ensures
            packet@ == InternetHeader::blank(),
    {
        let packet = IPacket {
            version: IPVersion::V4,
            ihl: 0,
            tos: 0,
            precedence: 0,
            delay: 0,
            throughput: 0,
            reliability: 0,
            total_length: [0, 0],
            identification: [0, 0],
            reserved_flag: 0,
            do_not_fragment_flag: 0,
            fragment_offset: 0,
            ttl: 0,
            protocol: IPProtocol::Default,
            header_checksum: [0, 0],
            source_add: [0, 0, 0, 0],
            destination_add: [0, 0, 0, 0],
            options: None,
            datagram: ProtocolDatagram::Default(String::from_str("placeholder")),
            last_fragment_flag: 0,
        };
        assert(packet.total_length@ =~= zeros(2));
        assert(packet.identification@ =~= zeros(2));
        assert(packet.header_checksum@ =~= zeros(2));
        assert(packet.source_add@ =~= zeros(4));
        assert(packet.destination_add@ =~= zeros(4));
        packet
    }

    /// Reads the internet header at the start of `bytes`, and the payload
    /// that follows it.
    pub fn decode(bytes: &[u8]) -> (result: Result<IPacket, DecodeError>)
        ensures
            match result {
                Ok(packet) => InternetHeader::of(bytes@) == Ok::<InternetHeader, DecodeError>(
                    packet@,
                ) && packet@.consistent(),
                Err(e) => InternetHeader::of(bytes@) == Err::<InternetHeader, DecodeError>(e),
            },
    {
        let ((ipv, ihl), at) = read_nibbles(bytes, 0)?;
        let ((precedence, delay, throughput, reliability, tos), at) = read_service_bits(bytes, at)?;
        let (total_length, at) = read_array::<2>(bytes, at)?;
        let (identification, at) = read_array::<2>(bytes, at)?;
        let ((reserved_flag, do_not_fragment_flag, last_fragment_flag, fragment_offset), at) =
            read_flags_and_offset(bytes, at)?;
        let (ttl, at) = read_byte(bytes, at)?;
        let (discriminator, at) = read_byte(bytes, at)?;
        let protocol = IPProtocol::from_discriminator(discriminator);
        let (header_checksum, at) = read_array::<2>(bytes, at)?;
        let (source_add, at) = read_array::<4>(bytes, at)?;
        let (destination_add, at) = read_array::<4>(bytes, at)?;
        if ihl < 5 {
            return Err(DecodeError::MalformedField);
        }
        let mut options: Option<Vec<u8>> = None;
        let mut current: usize = at;
        if ihl > 5 {
            let (bytes_of_options, after) = read_bytes(bytes, at, ((ihl * 4) - 20) as usize)?;
            options = Some(bytes_of_options);
            current = after;
        }
        let datagram = ProtocolDatagram::decode(bytes, protocol, current)?;
        let version = IPVersion::from_nibble(ipv);
        Ok(
            IPacket {
                version,
                ihl,
                tos,
                precedence,
                delay,
                throughput,
                reliability,
                total_length,
                identification,
                reserved_flag,
                do_not_fragment_flag,
                last_fragment_flag,
                fragment_offset,
                ttl,
                protocol,
                header_checksum,
                source_add,
                destination_add,
                options,
                datagram,
            },
        )
    }

    /// The header and its payload as diagnostic text.
    pub fn to_text(&self) -> (text: String)
        ensures
            text@ == self@.text(),
    {
        let mut text = String::from_str("IP: -----IP Header-----\n");
        text.append("IP:\n");
        text.append("IP: Version         = ");
        let version = self.version.to_text();
        text.append(version.as_str());
        text.append("\n");
        text.append("IP: Header length   = ");
        push_decimal(&mut text, self.ihl as u64 * 4);
        text.append(" bytes\n");
        text.append("IP: Type of service = 0x");
        push_hexadecimal(&mut text, self.tos as u64);
        text.append("\n");
        text.append("IP:     xxx. ....   = ");
        push_decimal(&mut text, self.precedence as u64);
        text.append("(precedence)\n");
        text.append("IP:     ...");
        push_decimal(&mut text, self.delay as u64);
        text.append(" ....  = ");
        text.append(if self.delay == 0 { "normal" } else { "low" });
        text.append(" delay \n");
        text.append("IP:     .... ");
        push_decimal(&mut text, self.throughput as u64);
        text.append("...  = ");
        text.append(if self.throughput == 0 { "normal" } else { "high" });
        text.append(" throughput\n");
        text.append("IP:     .... .");
        push_decimal(&mut text, self.reliability as u64);
        text.append("..  = ");
        text.append(if self.reliability == 0 { "normal" } else { "high" });
        text.append(" reliability\n");
        text.append("IP: Total length    = ");
        push_decimal(&mut text, be16_value(&self.total_length) as u64);
        text.append(" bytes\n");
        text.append("IP: Identification  = ");
        push_decimal(&mut text, be16_value(&self.identification) as u64);
        text.append("\n");
        text.append("IP: Flags: \n");
        text.append("IP:     ");
        push_decimal(&mut text, self.reserved_flag as u64);
        text.append("... ....  = ");
        text.append(if self.reserved_flag == 0 { "reserved" } else { "not reserved" });
        text.append("\n");
        text.append("IP:     .");
        push_decimal(&mut text, self.do_not_fragment_flag as u64);
        text.append(".. ....  = ");
        text.append(if self.do_not_fragment_flag == 1 { "do not " } else { "" });
        text.append("fragment\n");
        text.append("IP:     ..");
        push_decimal(&mut text, self.last_fragment_flag as u64);
        text.append(". ....  = last fragment\n");
        text.append("IP: Fragment offset = ");
        push_decimal(&mut text, self.fragment_offset as u64);
        text.append(" bytes\n");
        text.append("IP: Time to live    = ");
        push_decimal(&mut text, self.ttl as u64);
        text.append(" seconds/hops\n");
        text.append("IP: Protocol        = ");
        let protocol = self.protocol.to_text();
        text.append(protocol.as_str());
        text.append("\n");
        text.append("IP: Header checksum = 0x");
        push_hexadecimal(&mut text, self.header_checksum[0] as u64);
        push_hexadecimal(&mut text, self.header_checksum[1] as u64);
        text.append("\n");
        text.append("IP: Source address  = ");
        push_decimal(&mut text, self.source_add[0] as u64);
        text.append(".");
        push_decimal(&mut text, self.source_add[1] as u64);
        text.append(".");
        push_decimal(&mut text, self.source_add[2] as u64);
        text.append(".");
        push_decimal(&mut text, self.source_add[3] as u64);
        text.append("\n");
        text.append("IP: Destination address= ");
        push_decimal(&mut text, self.destination_add[0] as u64);
        text.append(".");
        push_decimal(&mut text, self.destination_add[1] as u64);
        text.append(".");
        push_decimal(&mut text, self.destination_add[2] as u64);
        text.append(".");
        push_decimal(&mut text, self.destination_add[3] as u64);
        text.append("\n");
        let options = options_line("IP: ", &self.options);
        text.append(options.as_str());
        let datagram = self.datagram.to_text();
        text.append(datagram.as_str());
        text
    }
}

/// In the text of an internet header the line on the options stands on a
/// line of its own, after all the others, and begins with the layer's tag.
pub proof fn lemma_options_line_is_tagged(header: InternetHeader)
    ensures
        header.text() == header.field_lines() + options_text("IP: "@, header.options)
            + header.datagram.text(),
        header.field_lines().last() == '\n',
        options_text("IP: "@, header.options).take(4) == "IP: "@,
{
    reveal_strlit("\n");
    reveal_strlit("IP: ");
    lemma_options_text_begins_with_tag("IP: "@, header.options);
}

/// The options of a decoded header follow from its length: a header of five
/// words has none, a header of six words has exactly four bytes of them, and
/// in general there are four bytes for each word beyond the fifth.
pub proof fn lemma_options_follow_header_length(bytes: Seq<u8>)
    requires
        InternetHeader::of(bytes) is Ok,
    ensures
        ({
            let header = InternetHeader::of(bytes)->Ok_0;
            &&& header.consistent()
            &&& header.ihl == bytes[0] % 16
            &&& header.ihl == 5 ==> header.options is None
            &&& header.ihl == 6 ==> header.options is Some && header.options->Some_0.len() == 4
            &&& header.ihl > 5 ==> header.options == Some(bytes.subrange(20, 4 * header.ihl))
        }),
{
}

/// The shape of a decoded payload follows from the discriminator byte alone:
/// 1 gives an ICMP message, 6 a TCP segment, 17 a UDP datagram, and every
/// other value the payload of an unrecognized protocol, which is no failure.
pub proof fn lemma_discriminator_selects_payload(bytes: Seq<u8>)
    requires
        InternetHeader::of(bytes) is Ok,
    ensures
        ({
            let header = InternetHeader::of(bytes)->Ok_0;
            &&& bytes[9] == 1 <==> header.datagram is Control
            &&& bytes[9] == 6 <==> header.datagram is Tcp
            &&& bytes[9] == 17 <==> header.datagram is Udp
            &&& bytes[9] != 1 && bytes[9] != 6 && bytes[9] != 17 <==> header.datagram
                is Unrecognized
            &&& bytes[9] == 1 <==> header.protocol == IPProtocol::ICMP
            &&& bytes[9] == 6 <==> header.protocol == IPProtocol::TCP
            &&& bytes[9] == 17 <==> header.protocol == IPProtocol::UDP
        }),
{
}

/// A buffer whose fixed part is whole and whose header length is in order
/// never fails on account of its protocol: with a discriminator other than
/// 1, 6 and 17 it decodes whatever follows the header.
pub proof fn lemma_unrecognized_protocol_decodes(bytes: Seq<u8>)
    requires
        bytes.len() >= 20,
        5 <= bytes[0] % 16,
        4 * (bytes[0] % 16) <= bytes.len(),
        bytes[9] != 1 && bytes[9] != 6 && bytes[9] != 17,
    ensures
        InternetHeader::of(bytes) is Ok,
        InternetHeader::of(bytes)->Ok_0.datagram is Unrecognized,
{
}

} // verus!
