use capture_registry::{
    facade_key_code, kind_index, pcap_header, CaptureInfo, CaptureTime, ChipKind, State,
    PCAP_HEADER_LEN,
};

fn record(kind: ChipKind, id: i32, name: &str, facade: i32) -> CaptureInfo<Vec<u8>> {
    CaptureInfo::new(kind, id, name.to_string(), facade)
}

#[test]
fn new_record_reports_off() {
    let c = record(ChipKind::WIFI, 7, "phone", 3);
    let s = c.get_capture_proto();
    assert_eq!(s.state, State::OFF);
    assert_eq!(s.size, 0);
    assert_eq!(s.records, 0);
    assert_eq!(s.id, 7);
    assert_eq!(s.chip_kind, ChipKind::WIFI);
    assert_eq!(s.device_name, "phone");
    assert_eq!(s.timestamp, CaptureTime { seconds: 0, nanos: 0 });
    assert!(s.valid);
    assert!(!c.is_capturing());
    assert_eq!(c.facade_id, 3);
}

#[test]
fn start_capture_twice_keeps_first() {
    let mut c = record(ChipKind::BLUETOOTH, 1, "dev1", 42);
    c.start_capture(vec![1u8], 24, 100, 5);
    c.start_capture(vec![2u8], 99, 200, 6);
    assert_eq!(c.file, Some(vec![1u8]));
    let s = c.get_capture_proto();
    assert_eq!(s.state, State::ON);
    assert_eq!(s.size, 24);
    assert_eq!(s.records, 0);
    assert_eq!(s.timestamp, CaptureTime { seconds: 100, nanos: 5 });
}

#[test]
fn start_capture_resets_records() {
    let mut c = record(ChipKind::UWB, 2, "tag", 8);
    c.records = 12;
    c.size = 500;
    c.start_capture(Vec::new(), 24, 1, 2);
    assert_eq!(c.records, 0);
    assert_eq!(c.size, 24);
}

#[test]
fn stop_capture_keeps_summary() {
    let mut c = record(ChipKind::BLUETOOTH, 1, "dev1", 42);
    c.start_capture(Vec::new(), 24, 100, 5);
    c.size = 90;
    c.records = 3;
    c.stop_capture();
    let s = c.get_capture_proto();
    assert_eq!(s.state, State::OFF);
    assert_eq!(s.size, 90);
    assert_eq!(s.records, 3);
    assert_eq!(s.timestamp, CaptureTime { seconds: 100, nanos: 5 });
    c.stop_capture();
    assert_eq!(c.get_capture_proto().size, 90);
    assert!(c.file.is_none());
}

#[test]
fn snapshot_size_is_cut_to_32_bits() {
    let mut c = record(ChipKind::WIFI, 4, "ap", 4);
    c.size = (1usize << 32) + 5;
    assert_eq!(c.get_capture_proto().size, 5);
}

#[test]
fn facade_key_of_record() {
    let c = record(ChipKind::UWB, 9, "x", -4);
    assert_eq!(c.get_facade_key(), (ChipKind::UWB, -4));
    assert_eq!(CaptureInfo::<Vec<u8>>::new_facade_key(ChipKind::WIFI, 6), (ChipKind::WIFI, 6));
}

#[test]
fn facade_key_codes() {
    assert_eq!(kind_index(ChipKind::UNSPECIFIED), 0);
    assert_eq!(kind_index(ChipKind::UWB), 3);
    assert_eq!(facade_key_code(ChipKind::UNSPECIFIED, i32::MIN), 0);
    assert_eq!(facade_key_code(ChipKind::BLUETOOTH, 0), (1u64 << 32) + (1u64 << 31));
    assert_eq!(facade_key_code(ChipKind::UWB, i32::MAX), (4u64 << 32) - 1);
    assert_ne!(facade_key_code(ChipKind::WIFI, 1), facade_key_code(ChipKind::BLUETOOTH, 1));
}

#[test]
fn pcap_header_bytes() {
    let h = pcap_header();
    assert_eq!(h.len(), PCAP_HEADER_LEN);
    assert_eq!(&h[0..4], &[0xd4, 0xc3, 0xb2, 0xa1]);
    assert_eq!(&h[4..8], &[2, 0, 4, 0]);
    assert_eq!(&h[16..20], &[0xff, 0xff, 0, 0]);
    assert_eq!(&h[20..24], &[201, 0, 0, 0]);
}
