//! The header that opens a capture file.

use crate::field_reader::zeros;
use vstd::prelude::*;

verus! {

/// The length in bytes of the header that opens a capture file.
pub const FILE_HEADER_LENGTH: usize = 24;

/// The header of a capture file, as a mathematical value.
pub struct CaptureFileHeader {
    pub magic_number: Seq<u8>,
    pub version_major: Seq<u8>,
    pub version_minor: Seq<u8>,
    pub time_zone: Seq<u8>,
    pub timestamp_accuracy: Seq<u8>,
    pub snap_length: Seq<u8>,
    pub link_layer_type: Seq<u8>,
}

impl CaptureFileHeader {
    /// A header of zeros.
    pub open spec fn blank() -> CaptureFileHeader {
        CaptureFileHeader {
            magic_number: zeros(4),
            version_major: zeros(2),
            version_minor: zeros(2),
            time_zone: zeros(4),
            timestamp_accuracy: zeros(4),
            snap_length: zeros(4),
            link_layer_type: zeros(4),
        }
    }

    /// The number of bytes that the fields take in a file, one after the
    /// other.
    pub open spec fn length(self) -> nat {
        self.magic_number.len() + self.version_major.len() + self.version_minor.len()
            + self.time_zone.len() + self.timestamp_accuracy.len() + self.snap_length.len()
            + self.link_layer_type.len()
    }
}

/// The header of a capture file. Each field holds its bytes as they stand in
/// the file.
#[derive(Clone, Copy, Debug, PartialEq, Eq)]
pub struct PcapFileHeader {
    pub magic_number: [u8; 4],
    pub version_major: [u8; 2],
    pub version_minor: [u8; 2],
    pub time_zone: [u8; 4],
    pub timestamp_accuracy: [u8; 4],
    pub snap_length: [u8; 4],
    pub link_layer_type: [u8; 4],
}

impl View for PcapFileHeader {
    type V = CaptureFileHeader;

    open spec fn view(&self) -> CaptureFileHeader {
        CaptureFileHeader {
            magic_number: self.magic_number@,
            version_major: self.version_major@,
            version_minor: self.version_minor@,
            time_zone: self.time_zone@,
            timestamp_accuracy: self.timestamp_accuracy@,
            snap_length: self.snap_length@,
            link_layer_type: self.link_layer_type@,
        }
    }
}

impl PcapFileHeader {
    /// A header of zeros, to be filled field by field.
    pub fn new() -> (header: PcapFileHeader)
        ensures
            header@ == CaptureFileHeader::blank(),
            header@.length() == FILE_HEADER_LENGTH,
    {
        let header = PcapFileHeader {
            magic_number: [0;4],
            version_major: [0;2],
            version_minor: [0;2],
            time_zone: [0;4],
            timestamp_accuracy: [0;4],
            snap_length: [0;4],
            link_layer_type: [0;4],
        };
        assert(header.magic_number@ =~= zeros(4));
        assert(header.version_major@ =~= zeros(2));
        assert(header.version_minor@ =~= zeros(2));
        assert(header.time_zone@ =~= zeros(4));
        assert(header.timestamp_accuracy@ =~= zeros(4));
        assert(header.snap_length@ =~= zeros(4));
        assert(header.link_layer_type@ =~= zeros(4));
        header
    }
}

} // verus!
