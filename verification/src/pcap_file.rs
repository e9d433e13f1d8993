//! A capture file: its header and its records.

use crate::pcap_block::{CaptureRecord, PcapBlock};
use crate::pcap_file_header::{CaptureFileHeader, PcapFileHeader};
use vstd::prelude::*;

verus! {

/// A capture file, as a mathematical value.
pub struct CaptureFile {
    pub header: CaptureFileHeader,
    pub data: Seq<CaptureRecord>,
}

/// A capture file: the header, and the records in the order of the file.
#[derive(Clone, Debug, PartialEq, Eq)]
pub struct PcapFile {
    pub header: PcapFileHeader,
    pub data: Vec<PcapBlock>,
}

impl View for PcapFile {
    type V = CaptureFile;

    open spec fn view(&self) -> CaptureFile {
        CaptureFile { header: self.header@, data: self.data@.map_values(|block: PcapBlock| block@) }
    }
}

impl PcapFile {
    /// A file with a header of zeros and no records.
    pub fn new() -> (file: PcapFile)
        ensures
            file@ == (CaptureFile { header: CaptureFileHeader::blank(), data: Seq::empty() }),
    {
        let file = PcapFile { header: PcapFileHeader::new(), data: Vec::new() };
        assert(file@.data =~= Seq::empty());
        file
    }

    /// A file with the given header and no records.
    pub fn new_with_header(header: PcapFileHeader) -> (file: PcapFile)
        ensures
            file@ == (CaptureFile { header: header@, data: Seq::empty() }),
    {
        let file = PcapFile { header, data: Vec::new() };
        assert(file@.data =~= Seq::empty());
        file
    }
}

} // verus!
