//! The capture state of a single chip.
use vstd::prelude::*;

verus! {

/// Identifier of a simulated chip.
pub type ChipId = i32;

/// Identifier of the simulation facade behind a chip.
pub type FacadeId = i32;

/// The radio technology of a chip.
#[allow(non_camel_case_types)]
#[derive(Clone, Copy, Debug, PartialEq, Eq, Structural)]
pub enum ChipKind {
    UNSPECIFIED,
    BLUETOOTH,
    WIFI,
    UWB,
}

/// Whether a capture is writing to a file.
#[derive(Clone, Copy, Debug, PartialEq, Eq, Structural)]
pub enum State {
    OFF,
    ON,
}

/// Seconds and nanoseconds since the Unix epoch.
#[derive(Clone, Copy, Debug, PartialEq, Eq, Structural)]
pub struct CaptureTime {
    pub seconds: i64,
    pub nanos: i32,
}

/// A point-in-time description of one chip's capture, as reported to clients.
#[derive(Clone, Debug)]
pub struct Capture {
    pub id: ChipId,
    pub chip_kind: ChipKind,
    pub device_name: String,
    pub state: State,
    pub size: i32,
    pub records: i32,
    pub timestamp: CaptureTime,
    pub valid: bool,
}

/// The capture state of one chip.
///
/// `F` is the handle of the open output file; a capture is active exactly
/// while `file` holds one. Dropping the handle closes the file.
pub struct CaptureInfo<F> {
    pub facade_id: FacadeId,
    pub file: Option<F>,
    pub id: ChipId,
    pub chip_kind: ChipKind,
    pub device_name: String,
    pub size: usize,
    pub records: i32,
    pub seconds: i64,
    pub nanos: i32,
    pub valid: bool,
}

impl<F> CaptureInfo<F> {
    /// The facade key `(kind, facade id)` of this record.
    pub open spec fn spec_facade_key(&self) -> (ChipKind, FacadeId) {
        (self.chip_kind, self.facade_id)
    }

    /// A capture is active while the record holds a file.
    pub open spec fn is_active(&self) -> bool {
        self.file is Some
    }

    /// A new, inactive record for chip `chip_id`, whose facade id is `facade_id`.
    pub fn new(chip_kind: ChipKind, chip_id: ChipId, device_name: String, facade_id: FacadeId) -> (r:
        Self)
        ensures
            r == spec_new::<F>(chip_kind, chip_id, device_name, facade_id),
    {
        CaptureInfo {
            facade_id,
            id: chip_id,
            chip_kind,
            device_name,
            size: 0,
            records: 0,
            seconds: 0,
            nanos: 0,
            valid: true,
            file: None,
        }
    }

    /// Whether a capture is active.
    pub fn is_capturing(&self) -> (r: bool)
        ensures
            r == self.is_active(),
    {
        self.file.is_some()
    }

    /// Makes `file`, whose capture header of `header_size` bytes is already
    /// written, the output of this record, started at `seconds`/`nanos`.
    ///
    /// Where a capture is already active nothing changes, and `file` is
    /// dropped: the open file is neither replaced nor truncated.
    pub fn start_capture(&mut self, file: F, header_size: usize, seconds: i64, nanos: i32)
        ensures
            *final(self) == spec_started(*old(self), file, header_size, seconds, nanos),
    {
        if self.file.is_some() {
            return;
        }
        self.size = header_size;
        self.records = 0;
        self.seconds = seconds;
        self.nanos = nanos;
        self.file = Some(file);
    }

    /// Releases the output file, if any. The size, record count and start
    /// time of the last capture are kept.
    pub fn stop_capture(&mut self)
        ensures
            *final(self) == spec_stopped(*old(self)),
    {
        self.file = None;
    }

    pub fn new_facade_key(kind: ChipKind, facade_id: FacadeId) -> (r: (ChipKind, FacadeId))
        ensures
            r == (kind, facade_id),
    {
        (kind, facade_id)
    }

    pub fn get_facade_key(&self) -> (r: (ChipKind, FacadeId))
        ensures
            r == self.spec_facade_key(),
    {
        CaptureInfo::<F>::new_facade_key(self.chip_kind, self.facade_id)
    }

    /// The status that this record reports; `size` is the byte count cut to
    /// 32 bits.
    pub open spec fn spec_capture_proto(&self) -> Capture {
        Capture {
            id: self.id,
            chip_kind: self.chip_kind,
            device_name: self.device_name,
            state: if self.is_active() { State::ON } else { State::OFF },
            size: self.size as i32,
            records: self.records,
            timestamp: CaptureTime { seconds: self.seconds, nanos: self.nanos },
            valid: self.valid,
        }
    }

    /// A snapshot of this record's status.
    pub fn get_capture_proto(&self) -> (r: Capture)
        ensures
            r == self.spec_capture_proto(),
    {
        let timestamp = CaptureTime { seconds: self.seconds, nanos: self.nanos };
        Capture {
            id: self.id,
            chip_kind: self.chip_kind,
            device_name: self.device_name.clone(),
            state: if self.file.is_some() {
                State::ON
            } else {
                State::OFF
            },
            size: self.size as i32,
            records: self.records,
            timestamp,
            valid: self.valid,
        }
    }
}

/// A new record: inactive, with zero counters and time, and valid.
pub open spec fn spec_new<F>(
    chip_kind: ChipKind,
    chip_id: ChipId,
    device_name: String,
    facade_id: FacadeId,
) -> CaptureInfo<F> {
    CaptureInfo {
        facade_id,
        file: None,
        id: chip_id,
        chip_kind,
        device_name,
        size: 0,
        records: 0,
        seconds: 0,
        nanos: 0,
        valid: true,
    }
}

/// `c` after a start with `file`: unchanged where a capture is already
/// active, else writing to `file`, with the header's size, no records and
/// the given start time.
pub open spec fn spec_started<F>(
    c: CaptureInfo<F>,
    file: F,
    header_size: usize,
    seconds: i64,
    nanos: i32,
) -> CaptureInfo<F> {
    if c.is_active() {
        c
    } else {
        CaptureInfo { file: Some(file), size: header_size, records: 0, seconds, nanos, ..c }
    }
}

/// `c` after a stop: no file, everything else kept.
pub open spec fn spec_stopped<F>(c: CaptureInfo<F>) -> CaptureInfo<F> {
    CaptureInfo { file: None, ..c }
}

/// Position of a chip kind in the declaration order.
pub open spec fn spec_kind_index(kind: ChipKind) -> u64 {
    match kind {
        ChipKind::UNSPECIFIED => 0,
        ChipKind::BLUETOOTH => 1,
        ChipKind::WIFI => 2,
        ChipKind::UWB => 3,
    }
}

pub fn kind_index(kind: ChipKind) -> (r: u64)
    ensures
        r == spec_kind_index(kind),
{
    match kind {
        ChipKind::UNSPECIFIED => 0,
        ChipKind::BLUETOOTH => 1,
        ChipKind::WIFI => 2,
        ChipKind::UWB => 3,
    }
}

/// Width of the facade-id part of a facade key code.
pub const FACADE_ID_SPAN: u64 = 0x1_0000_0000;

/// Offset that moves an `i32` into `0..FACADE_ID_SPAN`.
pub const FACADE_ID_OFFSET: i64 = 0x8000_0000;

/// A single integer for a facade key: the kind's index above the facade id.
pub open spec fn spec_facade_key_code(key: (ChipKind, FacadeId)) -> u64 {
    (spec_kind_index(key.0) * FACADE_ID_SPAN + (key.1 as int + FACADE_ID_OFFSET)) as u64
}

pub fn facade_key_code(kind: ChipKind, facade_id: FacadeId) -> (r: u64)
    ensures
        r == spec_facade_key_code((kind, facade_id)),
{
    let k = kind_index(kind);
    let offset = (facade_id as i64 + FACADE_ID_OFFSET) as u64;
    k * FACADE_ID_SPAN + offset
}

/// A freshly created record reports no capture: state OFF, no bytes and no
/// records.
pub proof fn lemma_new_reports_off<F>(
    chip_kind: ChipKind,
    chip_id: ChipId,
    device_name: String,
    facade_id: FacadeId,
)
    ensures
        ({
            let status = spec_new::<F>(chip_kind, chip_id, device_name, facade_id).spec_capture_proto();
            &&& status.state == State::OFF
            &&& status.size == 0
            &&& status.records == 0
        }),
{
}

/// Starting twice in a row leaves the record as one start does: the second
/// file is not taken, and size and start time stay those of the first.
pub proof fn lemma_start_idempotent<F>(
    c: CaptureInfo<F>,
    first: F,
    header_size: usize,
    seconds: i64,
    nanos: i32,
    second: F,
    header_size2: usize,
    seconds2: i64,
    nanos2: i32,
)
    ensures
        spec_started(spec_started(c, first, header_size, seconds, nanos), second, header_size2, seconds2, nanos2)
            == spec_started(c, first, header_size, seconds, nanos),
{
}

/// After a stop the record reports OFF, with the size, record count and
/// start time that it had before.
pub proof fn lemma_stop_keeps_summary<F>(c: CaptureInfo<F>)
    ensures
        ({
            let before = c.spec_capture_proto();
            let after = spec_stopped(c).spec_capture_proto();
            &&& after.state == State::OFF
            &&& after.size == before.size
            &&& after.records == before.records
            &&& after.timestamp == before.timestamp
            &&& after.valid == before.valid
        }),
{
}

/// Two facade keys share a code only when they are equal.
pub proof fn lemma_facade_key_code_injective(a: (ChipKind, FacadeId), b: (ChipKind, FacadeId))
    ensures
        spec_facade_key_code(a) == spec_facade_key_code(b) <==> a == b,
{
    if spec_facade_key_code(a) == spec_facade_key_code(b) {
        assert(spec_kind_index(a.0) == spec_kind_index(b.0));
    }
}

} // verus!
