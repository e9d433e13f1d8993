//! One record of a capture file: a record header and the frame it holds.

use crate::ethernet_frame::{EthernetFrame, LinkFrame};
use crate::field_reader::zeros;
use vstd::prelude::*;

verus! {

/// The length in bytes of the header that precedes each frame of a capture
/// file.
pub const RECORD_HEADER_LENGTH: usize = 16;

/// One record of a capture file, as a mathematical value.
pub struct CaptureRecord {
    pub timestamp_seconds: Seq<u8>,
    pub timestamp_microseconds: Seq<u8>,
    pub captured_length: Seq<u8>,
    pub original_length: Seq<u8>,
    pub ether_frame: LinkFrame,
}

impl CaptureRecord {
    /// A record header of zeros with a blank frame.
    pub open spec fn blank() -> CaptureRecord {
        CaptureRecord {
            timestamp_seconds: zeros(4),
            timestamp_microseconds: zeros(4),
            captured_length: zeros(4),
            original_length: zeros(4),
            ether_frame: LinkFrame::blank(),
        }
    }

    /// The number of bytes that the header fields take in a file, one after
    /// the other.
    pub open spec fn header_length(self) -> nat {
        self.timestamp_seconds.len() + self.timestamp_microseconds.len()
            + self.captured_length.len() + self.original_length.len()
    }
}

/// One record of a capture file. Each header field holds its bytes as they
/// stand in the file.
#[derive(Clone, Debug, PartialEq, Eq)]
pub struct PcapBlock {
    pub timestamp_seconds: [u8; 4],
    pub timestamp_microseconds: [u8; 4],
    /// The number of bytes of the frame that the file holds.
    pub captured_length: [u8; 4],
    /// The number of bytes that the frame had on the wire.
    pub original_length: [u8; 4],
    pub ether_frame: EthernetFrame,
}

impl View for PcapBlock {
    type V = CaptureRecord;

    open spec fn view(&self) -> CaptureRecord {
        CaptureRecord {
            timestamp_seconds: self.timestamp_seconds@,
            timestamp_microseconds: self.timestamp_microseconds@,
            captured_length: self.captured_length@,
            original_length: self.original_length@,
            ether_frame: self.ether_frame@,
        }
    }
}

impl PcapBlock {
    /// A record header of zeros with a new frame, to be filled field by
    /// field.
    pub fn new() -> (block: PcapBlock)
        ensures
            block@ == CaptureRecord::blank(),
            block@.header_length() == RECORD_HEADER_LENGTH,
    {
        let block = PcapBlock {
            timestamp_seconds: [0, 0, 0, 0],
            timestamp_microseconds: [0, 0, 0, 0],
            captured_length: [0, 0, 0, 0],
            original_length: [0, 0, 0, 0],
            ether_frame: EthernetFrame::new(),
        };
        assert(block.timestamp_seconds@ =~= zeros(4));
        assert(block.timestamp_microseconds@ =~= zeros(4));
        assert(block.captured_length@ =~= zeros(4));
        assert(block.original_length@ =~= zeros(4));
        block
    }
}

} // verus!
