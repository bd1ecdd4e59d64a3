//! Bookkeeping of packet captures for simulated chips.
//!
//! `record` holds the state of one chip's capture, `registry` indexes the
//! records by chip id and by facade key, and `pcap` gives the header that
//! opens every capture file.
pub mod pcap;
pub mod record;
pub mod registry;

pub use pcap::{pcap_header, PCAP_HEADER_LEN};
pub use record::{
    facade_key_code, kind_index, Capture, CaptureInfo, CaptureTime, ChipId, ChipKind, FacadeId,
    State,
};
pub use registry::Captures;
