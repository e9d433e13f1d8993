//! Which decoded frames are to be shown: the selection that the
//! command-line words ask for, and the test of a frame against it.

use crate::ethernet_frame::{EthernetFrame, LinkFrame};
use crate::internet_protocol_types::{ProtocolDatagram, TransportPayload};
use crate::ip_protocol::{IPProtocol, IPVersion};
use crate::number_text::{
    chars_of,
    dotted_quad,
    parse_dotted_quad,
    parse_signed,
    parse_unsigned,
    signed_text,
    unsigned_text,
};
use vstd::prelude::*;

verus! {

/// A selection of frames, as a mathematical value.
pub enum Selection {
    Host(Seq<u8>),
    Port(Seq<u8>),
    Ip,
    Tcp,
    Udp,
    Icmp,
    Net(Seq<u8>),
    Count(i32),
    Default(Seq<char>),
}

/// The two bytes of a port number, the more significant one first.
pub open spec fn port_bytes(port: nat) -> Seq<u8> {
    seq![(port / 256) as u8, (port % 256) as u8]
}

/// The views of a list of words.
pub open spec fn words(args: Seq<String>) -> Seq<Seq<char>> {
    args.map_values(|word: String| word@)
}

/// The ports of a payload, source first; two bytes of zero each where the
/// payload has no ports.
pub open spec fn ports_of(payload: TransportPayload) -> (Seq<u8>, Seq<u8>) {
    match payload {
        TransportPayload::Tcp(segment) => (segment.source_port, segment.destination_port),
        TransportPayload::Udp(datagram) => (datagram.source_port, datagram.destination_port),
        _ => (seq![0u8, 0u8], seq![0u8, 0u8]),
    }
}

impl Selection {
    /// The selection that a single word asks for: one of the four protocol
    /// classes, or everything.
    pub open spec fn of_word(word: Seq<char>) -> Selection {
        if word == "tcp"@ {
            Selection::Tcp
        } else if word == "udp"@ {
            Selection::Udp
        } else if word == "icmp"@ {
            Selection::Icmp
        } else if word == "ip"@ {
            Selection::Ip
        } else {
            Selection::Default("Default"@)
        }
    }

    /// The selection that a key word and its value ask for, where the value
    /// can be read: `host` and `net` take a dotted address, `port` a port
    /// number and `-c` a count. Any other key word asks for everything.
    pub open spec fn of_pair(key: Seq<char>, value: Seq<char>) -> Option<Selection> {
        if key == "host"@ {
            match dotted_quad(value) {
                Some(address) => Some(Selection::Host(address)),
                None => None,
            }
        } else if key == "port"@ {
            match unsigned_text(value, 65535) {
                Some(port) => Some(Selection::Port(port_bytes(port))),
                None => None,
            }
        } else if key == "net"@ {
            match dotted_quad(value) {
                Some(address) => Some(Selection::Net(address)),
                None => None,
            }
        } else if key == "-c"@ {
            match signed_text(value) {
                Some(count) => Some(Selection::Count(count as i32)),
                None => None,
            }
        } else {
            Some(Selection::Default("default"@))
        }
    }

    /// The selection that a list of words asks for, where there is one: a
    /// single word stands alone, and of more words the first two are key word
    /// and value. No words, or a value that cannot be read, ask for nothing.
    pub open spec fn of(args: Seq<Seq<char>>) -> Option<Selection> {
        if args.len() == 0 {
            None
        } else if args.len() == 1 {
            Some(Self::of_word(args[0]))
        } else {
            Self::of_pair(args[0], args[1])
        }
    }

    /// Whether a frame belongs to the selection.
    ///
    /// A host or a net selects by source or destination address. A port
    /// selects frames whose protocol is TCP or UDP and one of whose ports is
    /// the given one. The protocol classes select by the internet header's
    /// protocol, `Ip` by version 4. A count selects while it is positive.
    pub open spec fn accepts(self, frame: LinkFrame) -> bool {
        match self {
            Selection::Host(address) => frame.packet.source_add == address
                || frame.packet.destination_add == address,
            Selection::Port(port) => (frame.packet.protocol == IPProtocol::UDP
                || frame.packet.protocol == IPProtocol::TCP) && (ports_of(frame.packet.datagram).0
                == port || ports_of(frame.packet.datagram).1 == port),
            Selection::Ip => frame.version == IPVersion::V4,
            Selection::Tcp => frame.packet.protocol == IPProtocol::TCP,
            Selection::Udp => frame.packet.protocol == IPProtocol::UDP,
            Selection::Icmp => frame.packet.protocol == IPProtocol::ICMP,
            Selection::Net(address) => frame.packet.source_add == address
                || frame.packet.destination_add == address,
            Selection::Count(count) => count > 0,
            Selection::Default(_) => true,
        }
    }
}

/// A selection of frames.
#[derive(Clone, Debug, PartialEq, Eq)]
pub enum Filter {
    /// Frames from or to this address.
    Host([u8; 4]),
    /// TCP and UDP frames from or to this port.
    Port([u8; 2]),
    Ip,
    Tcp,
    Udp,
    Icmp,
    /// Frames from or to this address.
    Net([u8; 4]),
    /// Frames while the count is positive.
    Count(i32),
    /// Every frame.
    Default(String),
}

impl View for Filter {
    type V = Selection;

    open spec fn view(&self) -> Selection {
        match self {
            Filter::Host(address) => Selection::Host(address@),
            Filter::Port(port) => Selection::Port(port@),
            Filter::Ip => Selection::Ip,
            Filter::Tcp => Selection::Tcp,
            Filter::Udp => Selection::Udp,
            Filter::Icmp => Selection::Icmp,
            Filter::Net(address) => Selection::Net(address@),
            Filter::Count(count) => Selection::Count(*count),
            Filter::Default(note) => Selection::Default(note@),
        }
    }
}

/// Whether two runs of two bytes are the same.
fn same_pair(a: &[u8; 2], b: &[u8; 2]) -> (same: bool)
    ensures
        same == (a@ == b@),
{
    let same = a[0] == b[0] && a[1] == b[1];
    if same {
        assert(a@ =~= b@);
    } else {
        assert(a@[0] != b@[0] || a@[1] != b@[1]);
    }
    same
}

/// Whether two runs of four bytes are the same.
fn same_quad(a: &[u8; 4], b: &[u8; 4]) -> (same: bool)
    ensures
        same == (a@ == b@),
{
    let same = a[0] == b[0] && a[1] == b[1] && a[2] == b[2] && a[3] == b[3];
    if same {
        assert(a@ =~= b@);
    } else {
        assert(a@[0] != b@[0] || a@[1] != b@[1] || a@[2] != b@[2] || a@[3] != b@[3]);
    }
    same
}

/// The port selection for a port number.
fn port_filter(port: u64) -> (filter: Filter)
    requires
        port <= 65535,
    ensures
        filter@ == Selection::Port(port_bytes(port as nat)),
{
    let number: u16 = port as u16;
    let b1 = (number >> 8) as u8;
    let b2 = number as u8;
    assert((number >> 8) as u8 == (number / 256) as u8) by (bit_vector);
    assert(number as u8 == (number % 256) as u8) by (bit_vector);
    let bytes = [b1, b2];
    assert(bytes@ =~= port_bytes(port as nat));
    Filter::Port(bytes)
}

/// Whether a word is the given one.
fn is_word(word: &String, literal: &str) -> (same: bool)
    ensures
        same == (word@ == literal@),
{
    let other = String::from_str(literal);
    *word == other
}

impl Filter {
    /// The selection that a single word asks for.
    fn from_word(word: &String) -> (filter: Filter)
        ensures
            filter@ == Selection::of_word(word@),
    {
        if is_word(word, "tcp") {
            Filter::Tcp
        } else if is_word(word, "udp") {
            Filter::Udp
        } else if is_word(word, "icmp") {
            Filter::Icmp
        } else if is_word(word, "ip") {
            Filter::Ip
        } else {
            Filter::Default(String::from_str("Default"))
        }
    }

    /// The selection that a key word and its value ask for, where the value
    /// can be read.
    fn from_pair(key: &String, value: &String) -> (filter: Option<Filter>)
        ensures
            match filter {
                Some(f) => Selection::of_pair(key@, value@) == Some(f@),
                None => Selection::of_pair(key@, value@) is None,
            },
    {
        let chars = chars_of(value.as_str());
        assert(chars@.subrange(0, chars@.len() as int) =~= chars@);
        if is_word(key, "host") {
            match parse_dotted_quad(chars.as_slice()) {
                Some(address) => Some(Filter::Host(address)),
                None => None,
            }
        } else if is_word(key, "port") {
            match parse_unsigned(chars.as_slice(), 0, chars.len(), 65535) {
                Some(port) => Some(port_filter(port)),
                None => None,
            }
        } else if is_word(key, "net") {
            match parse_dotted_quad(chars.as_slice()) {
                Some(address) => Some(Filter::Net(address)),
                None => None,
            }
        } else if is_word(key, "-c") {
            match parse_signed(chars.as_slice()) {
                Some(count) => Some(Filter::Count(count)),
                None => None,
            }
        } else {
            Some(Filter::Default(String::from_str("default")))
        }
    }

    /// The selection that a list of words asks for, or nothing where the
    /// words ask for none.
    pub fn parse(args: &Vec<String>) -> (filter: Option<Filter>)
        ensures
            match filter {
                Some(f) => Selection::of(words(args@)) == Some(f@),
                None => Selection::of(words(args@)) is None,
            },
    {
        if args.len() == 0 {
            None
        } else if args.len() == 1 {
            Some(Self::from_word(&args[0]))
        } else {
            Self::from_pair(&args[0], &args[1])
        }
    }

    /// The selection that a list of words asks for.
    pub fn from_str(args: Vec<String>) -> (filter: Filter)
        requires
            Selection::of(words(args@)) is Some,
        ensures
            Selection::of(words(args@)) == Some(filter@),
    {
        Self::parse(&args).unwrap()
    }

    /// Whether a frame belongs to the selection.
    pub fn accepts(&self, frame: &EthernetFrame) -> (accepted: bool)
        ensures
            accepted == self@.accepts(frame@),
    {
        match self {
            Filter::Host(address) => same_quad(&frame.packet.source_add, address) || same_quad(
                &frame.packet.destination_add,
                address,
            ),
            Filter::Port(port) => {
                if frame.packet.protocol == IPProtocol::UDP || frame.packet.protocol
                    == IPProtocol::TCP {
                    let mut src: [u8; 2] = [0, 0];
                    let mut dst: [u8; 2] = [0, 0];
                    match &frame.packet.datagram {
                        ProtocolDatagram::TCP(packet) => {
                            src = packet.source_port;
                            dst = packet.destination_port;
                        },
                        ProtocolDatagram::UDP(packet) => {
                            src = packet.source_port;
                            dst = packet.destination_port;
                        },
                        ProtocolDatagram::ICMP(_) => {},
                        ProtocolDatagram::Default(_) => {},
                    }
                    assert(src@ =~= ports_of(frame@.packet.datagram).0);
                    assert(dst@ =~= ports_of(frame@.packet.datagram).1);
                    same_pair(&src, port) || same_pair(&dst, port)
                } else {
                    false
                }
            },
            Filter::Ip => frame.version == IPVersion::V4,
            Filter::Tcp => frame.packet.protocol == IPProtocol::TCP,
            Filter::Udp => frame.packet.protocol == IPProtocol::UDP,
            Filter::Icmp => frame.packet.protocol == IPProtocol::ICMP,
            Filter::Net(address) => same_quad(&frame.packet.source_add, address) || same_quad(
                &frame.packet.destination_add,
                address,
            ),
            Filter::Count(count) => *count > 0,
            Filter::Default(_) => true,
        }
    }
}

} // verus!
