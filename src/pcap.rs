//! The global header of a pcap capture file.
use vstd::prelude::*;

verus! {

/// Number of bytes in the global header.
pub const PCAP_HEADER_LEN: usize = 24;

/// The global header, little-endian: magic number 0xa1b2c3d4, format
/// version 2.4, time zone offset 0, timestamp accuracy 0, snapshot length
/// 65535, and link type 201 (Bluetooth HCI H4 with a direction header).
pub open spec fn spec_pcap_header() -> Seq<u8> {
    seq![
        0xd4u8, 0xc3, 0xb2, 0xa1,
        0x02, 0x00, 0x04, 0x00,
        0x00, 0x00, 0x00, 0x00,
        0x00, 0x00, 0x00, 0x00,
        0xff, 0xff, 0x00, 0x00,
        0xc9, 0x00, 0x00, 0x00,
    ]
}

/// The bytes that open every capture file.
pub fn pcap_header() -> (r: Vec<u8>)
    ensures
        r@ == spec_pcap_header(),
        r@.len() == PCAP_HEADER_LEN,
{
    let r: Vec<u8> = vec![
        0xd4u8, 0xc3, 0xb2, 0xa1,
        0x02, 0x00, 0x04, 0x00,
        0x00, 0x00, 0x00, 0x00,
        0x00, 0x00, 0x00, 0x00,
        0xff, 0xff, 0x00, 0x00,
        0xc9, 0x00, 0x00, 0x00,
    ];
    assert(r@ =~= spec_pcap_header());
    r
}

} // verus!
