//! The bytes that a frame stands for, layer by layer, and the proof that
//! decoding those bytes gives the frame back.

use crate::error::DecodeError;
use crate::ethernet_frame::LinkFrame;
use crate::internet_packet::InternetHeader;
use crate::internet_protocol_types::{
    swapped,
    unrecognized_note,
    ControlMessage,
    TcpSegment,
    TransportPayload,
    UdpDatagram,
};
use crate::ip_protocol::{IPProtocol, IPVersion};
use vstd::prelude::*;

verus! {

impl TcpSegment {
    /// Whether the segment is one that a buffer can hold: every byte field
    /// has its width, the header length is a multiple of four bytes up to
    /// sixty, the flags fit in four bits, and no options are taken out.
    pub open spec fn well_formed(self) -> bool {
        &&& self.source_port.len() == 2
        &&& self.destination_port.len() == 2
        &&& self.sequence_number.len() == 4
        &&& self.acknowledgement_number.len() == 4
        &&& self.data_offset % 4 == 0
        &&& self.data_offset <= 60
        &&& self.flags < 16
        &&& self.window.len() == 2
        &&& self.checksum.len() == 2
        &&& self.urgent_pointer.len() == 2
        &&& self.options is None
    }

    /// The twenty bytes of the header; the byte that the decoder passes over
    /// is zero.
    pub open spec fn wire(self) -> Seq<u8> {
        self.source_port + self.destination_port + self.sequence_number
            + self.acknowledgement_number + seq![
            (self.data_offset / 4 * 16 + self.flags) as u8,
            0u8,
        ] + self.window + self.checksum + self.urgent_pointer
    }

    /// A well-formed segment is what its bytes decode to, wherever in a
    /// buffer they end it.
    pub proof fn lemma_decodes_from_wire(self, before: Seq<u8>)
        requires
            self.well_formed(),
        ensures
            TcpSegment::at(before + self.wire(), before.len() as int) == Ok::<
                TcpSegment,
                DecodeError,
            >(self),
    {
        let bytes = before + self.wire();
        let start = before.len() as int;
        let packed = (self.data_offset / 4 * 16 + self.flags) as u8;
        assert(self.wire().len() == 20);
        assert(bytes.subrange(start, start + 2) =~= self.source_port);
        assert(bytes.subrange(start + 2, start + 4) =~= self.destination_port);
        assert(bytes.subrange(start + 4, start + 8) =~= self.sequence_number);
        assert(bytes.subrange(start + 8, start + 12) =~= self.acknowledgement_number);
        assert(bytes[start + 12] == packed);
        assert(packed / 16 * 4 == self.data_offset);
        assert(packed % 16 == self.flags);
        assert(bytes.subrange(start + 14, start + 16) =~= self.window);
        assert(bytes.subrange(start + 16, start + 18) =~= self.checksum);
        assert(bytes.subrange(start + 18, start + 20) =~= self.urgent_pointer);
    }
}

impl UdpDatagram {
    /// Whether the datagram is one that a buffer can hold: every header
    /// field is two bytes wide.
    pub open spec fn well_formed(self) -> bool {
        &&& self.source_port.len() == 2
        &&& self.destination_port.len() == 2
        &&& self.length.len() == 2
        &&& self.checksum.len() == 2
    }

    /// The eight bytes of the header and the payload after them.
    pub open spec fn wire(self) -> Seq<u8> {
        self.source_port + self.destination_port + self.length + self.checksum + self.data
    }

    /// A well-formed datagram is what its bytes decode to, wherever in a
    /// buffer they end it.
    pub proof fn lemma_decodes_from_wire(self, before: Seq<u8>)
        requires
            self.well_formed(),
        ensures
            UdpDatagram::at(before + self.wire(), before.len() as int) == Ok::<
                UdpDatagram,
                DecodeError,
            >(self),
    {
        let bytes = before + self.wire();
        let start = before.len() as int;
        assert(bytes.subrange(start, start + 2) =~= self.source_port);
        assert(bytes.subrange(start + 2, start + 4) =~= self.destination_port);
        assert(bytes.subrange(start + 4, start + 6) =~= self.length);
        assert(bytes.subrange(start + 6, start + 8) =~= self.checksum);
        assert(bytes.skip(start + 8) =~= self.data);
    }
}

impl ControlMessage {
    /// Whether the message is one that a buffer can hold: every byte field
    /// has its width, and the second copies of identifier and sequence number
    /// hold the bytes of the first in the opposite order.
    pub open spec fn well_formed(self) -> bool {
        &&& self.checksum.len() == 2
        &&& self.identifier_be.len() == 2
        &&& self.identifier_le == swapped(self.identifier_be)
        &&& self.sequence_be.len() == 2
        &&& self.sequence_le == swapped(self.sequence_be)
        &&& self.timestamp.len() == 8
    }

    /// The sixteen bytes of the header and the payload after them.
    pub open spec fn wire(self) -> Seq<u8> {
        seq![self.packet_type, self.code] + self.checksum + self.identifier_be + self.sequence_be
            + self.timestamp + self.data
    }

    /// A well-formed message is what its bytes decode to, wherever in a
    /// buffer they end it.
    pub proof fn lemma_decodes_from_wire(self, before: Seq<u8>)
        requires
            self.well_formed(),
        ensures
            ControlMessage::at(before + self.wire(), before.len() as int) == Ok::<
                ControlMessage,
                DecodeError,
            >(self),
    {
        let bytes = before + self.wire();
        let start = before.len() as int;
        assert(bytes[start] == self.packet_type);
        assert(bytes[start + 1] == self.code);
        assert(bytes.subrange(start + 2, start + 4) =~= self.checksum);
        assert(bytes.subrange(start + 4, start + 6) =~= self.identifier_be);
        assert(bytes.subrange(start + 6, start + 8) =~= self.sequence_be);
        assert(bytes.subrange(start + 8, start + 16) =~= self.timestamp);
        assert(bytes.skip(start + 16) =~= self.data);
    }
}

impl TransportPayload {
    /// The protocol whose payload this is.
    pub open spec fn protocol(self) -> IPProtocol {
        match self {
            TransportPayload::Tcp(_) => IPProtocol::TCP,
            TransportPayload::Udp(_) => IPProtocol::UDP,
            TransportPayload::Control(_) => IPProtocol::ICMP,
            TransportPayload::Unrecognized(_) => IPProtocol::Default,
        }
    }

    /// Whether the payload is one that a buffer can hold.
    pub open spec fn well_formed(self) -> bool {
        match self {
            TransportPayload::Tcp(segment) => segment.well_formed(),
            TransportPayload::Udp(datagram) => datagram.well_formed(),
            TransportPayload::Control(message) => message.well_formed(),
            TransportPayload::Unrecognized(note) => note == unrecognized_note(),
        }
    }

    /// The bytes of the payload; none for an unrecognized protocol, of which
    /// the decoder keeps none.
    pub open spec fn wire(self) -> Seq<u8> {
        match self {
            TransportPayload::Tcp(segment) => segment.wire(),
            TransportPayload::Udp(datagram) => datagram.wire(),
            TransportPayload::Control(message) => message.wire(),
            TransportPayload::Unrecognized(_) => Seq::empty(),
        }
    }

    /// A well-formed payload is what its bytes decode to under its protocol,
    /// wherever in a buffer they end it.
    pub proof fn lemma_decodes_from_wire(self, before: Seq<u8>)
        requires
            self.well_formed(),
        ensures
            TransportPayload::at(before + self.wire(), self.protocol(), before.len() as int)
                == Ok::<TransportPayload, DecodeError>(self),
    {
        match self {
            TransportPayload::Tcp(segment) => segment.lemma_decodes_from_wire(before),
            TransportPayload::Udp(datagram) => datagram.lemma_decodes_from_wire(before),
            TransportPayload::Control(message) => message.lemma_decodes_from_wire(before),
            TransportPayload::Unrecognized(_) => {},
        }
    }
}

/// The number that stands for a version in the first byte of an internet
/// header.
pub open spec fn version_nibble(version: IPVersion) -> u8 {
    match version {
        IPVersion::V4 => 4,
        IPVersion::V6 => 6,
    }
}

/// The byte that names a protocol in an internet header; zero stands for the
/// protocols that are not recognised.
pub open spec fn discriminator(protocol: IPProtocol) -> u8 {
    match protocol {
        IPProtocol::ICMP => 1,
        IPProtocol::TCP => 6,
        IPProtocol::UDP => 17,
        IPProtocol::Default => 0,
    }
}

impl InternetHeader {
    /// Whether the header is one that a buffer can hold: length and options
    /// agree, every bit field fits its width, every byte field has its
    /// width, and the payload is well formed and of the header's protocol.
    pub open spec fn well_formed(self) -> bool {
        &&& self.consistent()
        &&& self.tos < 4
        &&& self.precedence < 8
        &&& self.delay < 2
        &&& self.throughput < 2
        &&& self.reliability < 2
        &&& self.total_length.len() == 2
        &&& self.identification.len() == 2
        &&& self.reserved_flag < 2
        &&& self.do_not_fragment_flag < 2
        &&& self.last_fragment_flag < 2
        &&& self.fragment_offset < 8192
        &&& self.header_checksum.len() == 2
        &&& self.source_add.len() == 4
        &&& self.destination_add.len() == 4
        &&& self.protocol == self.datagram.protocol()
        &&& self.datagram.well_formed()
    }

    /// The fixed twenty bytes of the header.
    pub open spec fn fixed_wire(self) -> Seq<u8> {
        seq![
            (version_nibble(self.version) * 16 + self.ihl) as u8,
            (self.precedence * 32 + self.delay * 16 + self.throughput * 8 + self.reliability * 4
                + self.tos) as u8,
        ] + self.total_length + self.identification + seq![
            (self.reserved_flag * 128 + self.do_not_fragment_flag * 64 + self.last_fragment_flag
                * 32 + self.fragment_offset / 256) as u8,
            (self.fragment_offset % 256) as u8,
            self.ttl,
            discriminator(self.protocol),
        ] + self.header_checksum + self.source_add + self.destination_add
    }

    /// The bytes of the header with its options.
    pub open spec fn header_wire(self) -> Seq<u8> {
        self.fixed_wire() + match self.options {
            Some(bytes) => bytes,
            None => Seq::empty(),
        }
    }

    /// The bytes of the header, its options and its payload.
    pub open spec fn wire(self) -> Seq<u8> {
        self.header_wire() + self.datagram.wire()
    }

    /// The first byte, the service byte and the two bytes of flags and
    /// fragment offset give back the bit fields they were made of.
    proof fn lemma_packed_bytes(self)
        requires
            self.well_formed(),
        ensures
            ({
                let bytes = self.fixed_wire();
                &&& bytes[0] % 16 == self.ihl
                &&& IPVersion::of_nibble(bytes[0] / 16) == self.version
                &&& bytes[1] / 32 == self.precedence
                &&& bytes[1] / 16 % 2 == self.delay
                &&& bytes[1] / 8 % 2 == self.throughput
                &&& bytes[1] / 4 % 2 == self.reliability
                &&& bytes[1] % 4 == self.tos
                &&& bytes[6] / 128 == self.reserved_flag
                &&& bytes[6] / 64 % 2 == self.do_not_fragment_flag
                &&& bytes[6] / 32 % 2 == self.last_fragment_flag
                &&& (256 * bytes[6] + bytes[7]) % 8192 == self.fragment_offset
                &&& bytes[8] == self.ttl
                &&& IPProtocol::of_discriminator(bytes[9]) == self.protocol
            }),
    {
        let bytes = self.fixed_wire();
        let first = (version_nibble(self.version) * 16 + self.ihl) as u8;
        let service = (self.precedence * 32 + self.delay * 16 + self.throughput * 8
            + self.reliability * 4 + self.tos) as u8;
        let flags = (self.reserved_flag * 128 + self.do_not_fragment_flag * 64
            + self.last_fragment_flag * 32 + self.fragment_offset / 256) as u8;
        let low = (self.fragment_offset % 256) as u8;
        assert(bytes[0] == first);
        assert(bytes[1] == service);
        assert(bytes[6] == flags);
        assert(bytes[7] == low);
        assert(bytes[8] == self.ttl);
        assert(bytes[9] == discriminator(self.protocol));
        assert(first % 16 == self.ihl && first / 16 == version_nibble(self.version));
        assert(service / 32 == self.precedence);
        assert(service / 16 % 2 == self.delay);
        assert(service / 8 % 2 == self.throughput);
        assert(service / 4 % 2 == self.reliability);
        assert(service % 4 == self.tos);
        assert(flags / 128 == self.reserved_flag);
        assert(flags / 64 % 2 == self.do_not_fragment_flag);
        assert(flags / 32 % 2 == self.last_fragment_flag);
        assert((256 * flags + low) % 8192 == self.fragment_offset);
    }

    /// Where the byte fields, the options and the payload stand among the
    /// header's bytes.
    proof fn lemma_layout(self)
        requires
            self.well_formed(),
        ensures
            ({
                let bytes = self.wire();
                &&& self.fixed_wire().len() == 20
                &&& self.header_wire().len() == 4 * self.ihl
                &&& bytes.len() >= 4 * self.ihl
                &&& forall|i: int| 0 <= i < 20 ==> bytes[i] == self.fixed_wire()[i]
                &&& bytes.subrange(2, 4) == self.total_length
                &&& bytes.subrange(4, 6) == self.identification
                &&& bytes.subrange(10, 12) == self.header_checksum
                &&& bytes.subrange(12, 16) == self.source_add
                &&& bytes.subrange(16, 20) == self.destination_add
                &&& self.ihl > 5 ==> bytes.subrange(20, 4 * self.ihl) == self.options->Some_0
            }),
    {
        let bytes = self.wire();
        assert(self.fixed_wire().len() == 20);
        assert(bytes.subrange(2, 4) =~= self.total_length);
        assert(bytes.subrange(4, 6) =~= self.identification);
        assert(bytes.subrange(10, 12) =~= self.header_checksum);
        assert(bytes.subrange(12, 16) =~= self.source_add);
        assert(bytes.subrange(16, 20) =~= self.destination_add);
        if self.ihl > 5 {
            assert(bytes.subrange(20, 4 * self.ihl) =~= self.options->Some_0);
        }
    }

    /// A well-formed header is what its bytes decode to.
    pub proof fn lemma_decodes_from_wire(self)
        requires
            self.well_formed(),
        ensures
            InternetHeader::of(self.wire()) == Ok::<InternetHeader, DecodeError>(self),
    {
        let bytes = self.wire();
        self.lemma_packed_bytes();
        self.lemma_layout();
        self.datagram.lemma_decodes_from_wire(self.header_wire());
        assert(bytes[0] == self.fixed_wire()[0]);
        assert(bytes[1] == self.fixed_wire()[1]);
        assert(bytes[6] == self.fixed_wire()[6]);
        assert(bytes[7] == self.fixed_wire()[7]);
        assert(bytes[8] == self.fixed_wire()[8]);
        assert(bytes[9] == self.fixed_wire()[9]);
        assert(bytes.subrange(6, 8)[0] == bytes[6] && bytes.subrange(6, 8)[1] == bytes[7]);
        let decoded = InternetHeader::of(bytes);
        assert(decoded is Ok);
        assert(decoded->Ok_0.fragment_offset == self.fragment_offset);
        assert(decoded->Ok_0.options == self.options);
        assert(decoded->Ok_0 == self);
    }
}

impl LinkFrame {
    /// Whether the frame is one that a buffer can hold: the addresses and the
    /// type have their widths, the internet header is well formed and of the
    /// frame's version, and the size is the number of the frame's bytes.
    pub open spec fn well_formed(self) -> bool {
        &&& self.destination_address.len() == 6
        &&& self.source_address.len() == 6
        &&& self.ether_type.len() == 2
        &&& self.version == self.packet.version
        &&& self.packet.well_formed()
        &&& self.packet_size == self.wire().len()
    }

    /// The bytes of the frame: the link header, then the internet packet.
    pub open spec fn wire(self) -> Seq<u8> {
        self.destination_address + self.source_address + self.ether_type + self.packet.wire()
    }

    /// Decoding gives back every field: a well-formed frame is what its
    /// bytes decode to.
    pub proof fn lemma_decodes_from_wire(self)
        requires
            self.well_formed(),
        ensures
            LinkFrame::of(self.wire()) == Ok::<LinkFrame, DecodeError>(self),
    {
        let data = self.wire();
        assert(data.skip(14) =~= self.packet.wire());
        assert(data.subrange(0, 6) =~= self.destination_address);
        assert(data.subrange(6, 12) =~= self.source_address);
        assert(data.subrange(12, 14) =~= self.ether_type);
        self.packet.lemma_decodes_from_wire();
    }
}

} // verus!
