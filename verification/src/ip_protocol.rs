//! The protocol that an internet header announces, and the version of the
//! internet protocol itself.

use vstd::prelude::*;

verus! {

/// The transport protocol named by the discriminator byte of an internet
/// header.
#[derive(Clone, Copy, Debug, PartialEq, Eq, PartialOrd, Structural)]
pub enum IPProtocol {
    ICMP,
    TCP,
    UDP,
    /// Any protocol other than the three above.
    Default,
}

impl IPProtocol {
    /// The protocol that a discriminator byte names: 1 is ICMP, 6 is TCP and
    /// 17 is UDP.
    pub open spec fn of_discriminator(byte: u8) -> IPProtocol {
        if byte == 1 {
            IPProtocol::ICMP
        } else if byte == 6 {
            IPProtocol::TCP
        } else if byte == 17 {
            IPProtocol::UDP
        } else {
            IPProtocol::Default
        }
    }

    /// The protocol that a discriminator byte names.
    pub fn from_discriminator(byte: u8) -> (protocol: IPProtocol)
        ensures
            protocol == Self::of_discriminator(byte),
    {
        match byte {
            1 => IPProtocol::ICMP,
            6 => IPProtocol::TCP,
            17 => IPProtocol::UDP,
            _ => IPProtocol::Default,
        }
    }

    /// The protocol's number and name as the diagnostic text shows them.
    pub open spec fn text(self) -> Seq<char> {
        match self {
            IPProtocol::ICMP => "1 (ICMP)"@,
            IPProtocol::TCP => "6 (TCP)"@,
            IPProtocol::UDP => "17 (UDP)"@,
            IPProtocol::Default => "00 (Default)"@,
        }
    }

    /// The protocol's number and name as the diagnostic text shows them.
    pub fn to_text(&self) -> (text: String)
        ensures
            text@ == self.text(),
    {
        match self {
            IPProtocol::ICMP => String::from_str("1 (ICMP)"),
            IPProtocol::TCP => String::from_str("6 (TCP)"),
            IPProtocol::UDP => String::from_str("17 (UDP)"),
            IPProtocol::Default => String::from_str("00 (Default)"),
        }
    }
}

/// The version of the internet protocol.
#[derive(Clone, Copy, Debug, PartialEq, Eq, PartialOrd, Structural)]
pub enum IPVersion {
    V4,
    V6,
}

impl IPVersion {
    /// The version that the high four bits of an internet header's first
    /// byte name: four is version 4, and every other value is taken for
    /// version 6.
    pub open spec fn of_nibble(nibble: u8) -> IPVersion {
        if nibble == 4 {
            IPVersion::V4
        } else {
            IPVersion::V6
        }
    }

    /// The version that a version field names.
    pub fn from_nibble(nibble: u8) -> (version: IPVersion)
        ensures
            version == Self::of_nibble(nibble),
    {
        match nibble {
            4 => IPVersion::V4,
            _ => IPVersion::V6,
        }
    }

    /// The version's number as the diagnostic text shows it.
    pub open spec fn text(self) -> Seq<char> {
        match self {
            IPVersion::V4 => "4"@,
            IPVersion::V6 => "6"@,
        }
    }

    /// The version's number as the diagnostic text shows it.
    pub fn to_text(&self) -> (text: String)
        ensures
            text@ == self.text(),
    {
        match self {
            IPVersion::V4 => String::from_str("4"),
            IPVersion::V6 => String::from_str("6"),
        }
    }
}

} // verus!
