//! The link layer: the frame as it was captured, how it is read from a
//! buffer, and how it is shown.

use crate::error::DecodeError;
use crate::field_reader::{read_array, zeros};
use crate::internet_packet::{IPacket, InternetHeader};
use crate::internet_protocol_types::{lemma_tcp_text_shows_ports, tcp_port_lines};
use crate::ip_protocol::IPVersion;
use crate::text::{
    decimal,
    hexadecimal,
    lemma_shows_within,
    push_decimal,
    push_hexadecimal,
    shows,
};
use vstd::prelude::*;

verus! {

/// A captured frame with all its layers, as a mathematical value.
pub struct LinkFrame {
    pub packet_size: u32,
    pub destination_address: Seq<u8>,
    pub source_address: Seq<u8>,
    pub ether_type: Seq<u8>,
    pub version: IPVersion,
    pub packet: InternetHeader,
}

impl LinkFrame {
    /// The frame that a buffer holds.
    ///
    /// The link header is fourteen bytes: destination address, source
    /// address and type. Everything after it is the internet packet. The
    /// frame's size is the length of the whole buffer, kept in 32 bits, and
    /// its version is the one the internet header names. The type is not held
    /// against the version.
    pub open spec fn of(data: Seq<u8>) -> Result<LinkFrame, DecodeError> {
        if data.len() < 14 {
            Err(DecodeError::TruncatedBuffer)
        } else {
            match InternetHeader::of(data.skip(14)) {
                Err(e) => Err(e),
                Ok(packet) => Ok(
                    LinkFrame {
                        packet_size: (data.len() % 0x1_0000_0000) as u32,
                        destination_address: data.subrange(0, 6),
                        source_address: data.subrange(6, 12),
                        ether_type: data.subrange(12, 14),
                        version: packet.version,
                        packet: packet,
                    },
                ),
            }
        }
    }

    /// A frame of zeros around a blank internet header.
    pub open spec fn blank() -> LinkFrame {
        LinkFrame {
            packet_size: 0,
            destination_address: zeros(6),
            source_address: zeros(6),
            ether_type: zeros(2),
            version: IPVersion::V4,
            packet: InternetHeader::blank(),
        }
    }

    /// The link header as diagnostic text.
    pub open spec fn text(self) -> Seq<char> {
        "ETHER: -----Ether Header-----\n"@ + "ETHER:\n"@ + "ETHER: Packet size= "@ + decimal(
            self.packet_size as nat,
        ) + " bytes\n"@ + "ETHER: Destination= "@ + hexadecimal(self.destination_address[0] as nat)
            + ":"@ + hexadecimal(self.destination_address[1] as nat) + ":"@ + hexadecimal(
            self.destination_address[2] as nat,
        ) + ":"@ + hexadecimal(self.destination_address[3] as nat) + ":"@ + hexadecimal(
            self.destination_address[4] as nat,
        ) + ":"@ + hexadecimal(self.destination_address[5] as nat) + "\n"@
            + "ETHER: Source     = "@ + hexadecimal(self.source_address[0] as nat) + ":"@
            + hexadecimal(self.source_address[1] as nat) + ":"@ + hexadecimal(
            self.source_address[2] as nat,
        ) + ":"@ + hexadecimal(self.source_address[3] as nat) + ":"@ + hexadecimal(
            self.source_address[4] as nat,
        ) + ":"@ + hexadecimal(self.source_address[5] as nat) + "\n"@ + "ETHER: Ethertype  = 0x"@
            + hexadecimal(self.ether_type[0] as nat) + hexadecimal(self.ether_type[1] as nat)
            + "\n"@ + "ETHER:"@
    }

    /// All layers as diagnostic text: the link header, a line break that
    /// ends its last line, then the internet header and its payload.
    pub open spec fn report(self) -> Seq<char> {
        self.text() + "\n"@ + self.packet.text()
    }
}

/// A captured frame with all its layers. The byte fields hold the bytes as
/// they stand in the buffer.
#[derive(Clone, Debug, PartialEq, Eq)]
pub struct EthernetFrame {
    /// The length of the whole captured buffer.
    pub packet_size: u32,
    pub destination_address: [u8; 6],
    pub source_address: [u8; 6],
    pub ether_type: [u8; 2],
    pub version: IPVersion,
    pub packet: IPacket,
}

impl View for EthernetFrame {
    type V = LinkFrame;

    open spec fn view(&self) -> LinkFrame {
        LinkFrame {
            packet_size: self.packet_size,
            destination_address: self.destination_address@,
            source_address: self.source_address@,
            ether_type: self.ether_type@,
            version: self.version,
            packet: self.packet@,
        }
    }
}

impl EthernetFrame {
    /// A frame of zeros around a new internet header.
    pub fn new() -> (frame: EthernetFrame)
        ensures
            frame@ == LinkFrame::blank(),
    {
        let frame = EthernetFrame {
            packet_size: 0,
            destination_address: [0;6],
            source_address: [0;6],
            ether_type: [0;2],
            version: IPVersion::V4,
            packet: IPacket::new(),
        };
        assert(frame.destination_address@ =~= zeros(6));
        assert(frame.source_address@ =~= zeros(6));
        assert(frame.ether_type@ =~= zeros(2));
        frame
    }

    /// The link header as diagnostic text.
    pub fn to_text(&self) -> (text: String)
        ensures
            text@ == self@.text(),
    {
        let mut text = String::from_str("ETHER: -----Ether Header-----\n");
        text.append("ETHER:\n");
        text.append("ETHER: Packet size= ");
        push_decimal(&mut text, self.packet_size as u64);
        text.append(" bytes\n");
        text.append("ETHER: Destination= ");
        push_hexadecimal(&mut text, self.destination_address[0] as u64);
        text.append(":");
        push_hexadecimal(&mut text, self.destination_address[1] as u64);
        text.append(":");
        push_hexadecimal(&mut text, self.destination_address[2] as u64);
        text.append(":");
        push_hexadecimal(&mut text, self.destination_address[3] as u64);
        text.append(":");
        push_hexadecimal(&mut text, self.destination_address[4] as u64);
        text.append(":");
        push_hexadecimal(&mut text, self.destination_address[5] as u64);
        text.append("\n");
        text.append("ETHER: Source     = ");
        push_hexadecimal(&mut text, self.source_address[0] as u64);
        text.append(":");
        push_hexadecimal(&mut text, self.source_address[1] as u64);
        text.append(":");
        push_hexadecimal(&mut text, self.source_address[2] as u64);
        text.append(":");
        push_hexadecimal(&mut text, self.source_address[3] as u64);
        text.append(":");
        push_hexadecimal(&mut text, self.source_address[4] as u64);
        text.append(":");
        push_hexadecimal(&mut text, self.source_address[5] as u64);
        text.append("\n");
        text.append("ETHER: Ethertype  = 0x");
        push_hexadecimal(&mut text, self.ether_type[0] as u64);
        push_hexadecimal(&mut text, self.ether_type[1] as u64);
        text.append("\n");
        text.append("ETHER:");
        text
    }

    /// All layers as diagnostic text, from the link layer down.
    pub fn render(&self) -> (text: String)
        ensures
            text@ == self@.report(),
    {
        let mut text = self.to_text();
        text.append("\n");
        let packet = self.packet.to_text();
        text.append(packet.as_str());
        text
    }
}

/// Decodes one captured frame: the link header, the internet header and the
/// transport header that the internet header announces.
///
/// Fails, without a partial result, if a layer's fields reach beyond the end
/// of the buffer or the internet header's length is malformed.
pub fn create_and_return_ether(data: Vec<u8>) -> (result: Result<EthernetFrame, DecodeError>)
    ensures
        match result {
            Ok(frame) => LinkFrame::of(data@) == Ok::<LinkFrame, DecodeError>(frame@)
                && frame@.packet.consistent(),
            Err(e) => LinkFrame::of(data@) == Err::<LinkFrame, DecodeError>(e),
        },
{
    let bytes = data.as_slice();
    let length: usize = bytes.len();
    let wide: u64 = length as u64;
    let packet_size: u32 = wide as u32;
    assert(wide as u32 == wide % 0x1_0000_0000) by (bit_vector);
    let (destination_address, at) = read_array::<6>(bytes, 0)?;
    let (source_address, at) = read_array::<6>(bytes, at)?;
    let (ether_type, at) = read_array::<2>(bytes, at)?;
    let rest = vstd::slice::slice_subrange(bytes, at, length);
    let packet = IPacket::decode(rest)?;
    let version = packet.version;
    Ok(
        EthernetFrame {
            packet_size,
            destination_address,
            source_address,
            ether_type,
            version,
            packet,
        },
    )
}

/// A buffer that ends before the fixed part of the internet header is
/// complete is truncated, whatever it holds: so is a buffer of the fourteen
/// bytes of the link header alone.
pub proof fn lemma_short_buffer_is_truncated(data: Seq<u8>)
    requires
        data.len() < 34,
    ensures
        LinkFrame::of(data) == Err::<LinkFrame, DecodeError>(DecodeError::TruncatedBuffer),
{
}

/// Decoding a buffer that holds a TCP segment and rendering what was decoded
/// shows both ports as the numbers that the two bytes of each port field
/// spell, the first byte most significant.
pub proof fn lemma_report_shows_tcp_ports(data: Seq<u8>)
    requires
        LinkFrame::of(data) is Ok,
        data[23] == 6,
    ensures
        ({
            let start = 14 + 4 * (data[14] % 16);
            shows(
                LinkFrame::of(data)->Ok_0.report(),
                tcp_port_lines(
                    (256 * data[start] + data[start + 1]) as nat,
                    (256 * data[start + 2] + data[start + 3]) as nat,
                ),
            )
        }),
{
    let frame = LinkFrame::of(data)->Ok_0;
    let bytes = data.skip(14);
    assert(bytes[0] == data[14] && bytes[9] == data[23]);
    let start = 4 * (bytes[0] % 16);
    let segment = frame.packet.datagram->Tcp_0;
    assert(frame.packet.datagram is Tcp);
    assert(segment.source_port[0] == data[14 + start] && segment.source_port[1] == data[14 + start
        + 1]);
    assert(segment.destination_port[0] == data[14 + start + 2] && segment.destination_port[1]
        == data[14 + start + 3]);
    lemma_tcp_text_shows_ports(segment);
    lemma_shows_within(
        frame.text() + "\n"@ + frame.packet.header_text(),
        segment.text(),
        Seq::empty(),
        segment.port_lines(),
    );
    assert(frame.report() =~= frame.text() + "\n"@ + frame.packet.header_text() + segment.text()
        + Seq::empty());
}

} // verus!
