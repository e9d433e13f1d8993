//! Decoding of captured network frames into link, internet and transport
//! layers, and rendering of the decoded layers as diagnostic text.
//!
//! A frame is decoded by [`ethernet_frame::create_and_return_ether`], which
//! reads the link header and hands the rest of the buffer to the internet
//! layer ([`internet_packet`]), which in turn hands what follows its header
//! to the transport layer ([`internet_protocol_types`]). All of them read
//! their fields through [`field_reader`]. Every decoded type has a
//! mathematical model, its view, and each decoder returns exactly what the
//! model says of the buffer; [`wire`] proves that decoding the bytes of a
//! frame gives the frame back.
//!
//! The `to_text` methods render a decoded layer, character for character,
//! with the help of [`text`], which also names the version of the layout. [`filter`] selects the frames to be shown, and
//! [`pcap_file`], [`pcap_file_header`] and [`pcap_block`] describe the
//! capture file that frames may come from.

pub mod error;
pub mod ethernet_frame;
pub mod field_reader;
pub mod filter;
pub mod internet_packet;
pub mod internet_protocol_types;
pub mod ip_protocol;
pub mod number_text;
pub mod pcap_block;
pub mod pcap_file;
pub mod pcap_file_header;
pub mod text;
pub mod wire;
