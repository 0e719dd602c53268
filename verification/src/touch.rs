//! Goodix GT9147 capacitive touch controller: address probing at bring-up
//! and the polling protocol, as state machines whose bus transfers and waits
//! are carried out by the caller.
//!
//! The chip latches its I2C address at power-on from the INT level (low
//! gives 0x5D, high gives 0x14), so bring-up probes both. The chip is
//! portrait-native: its axes are swapped against the landscape panel.

use vstd::prelude::*;

verus! {

/// Address the chip takes when INT is low at power-on; probed first.
pub const ADDR_PRIMARY: u8 = 0x5D;

/// Address the chip takes when INT is high at power-on; probed second.
pub const ADDR_SECONDARY: u8 = 0x14;

/// Register of the four ASCII product-id bytes (such as "9147").
pub const REG_PRODUCT_ID: u16 = 0x8140;

/// Command register; writing 0 starts normal scanning.
pub const REG_COMMAND: u16 = 0x8040;

/// Status register: bit 7 flags fresh data, bits 0..3 count the points.
/// The chip stops scanning until it is written back to 0.
pub const REG_STATUS: u16 = 0x814E;

/// First point record: `[id, x_lo, x_hi, y_lo, y_hi, area_lo, area_hi, _]`.
pub const REG_POINT1: u16 = 0x814F;

/// Milliseconds to wait between starting the scan and clearing the status.
pub const SCAN_SETTLE_MS: u32 = 25;

/// A touch report: the number of active points and the first point in panel
/// coordinates.
#[derive(Clone, Copy, Debug, PartialEq, Eq, Structural)]
pub struct TouchPoint {
    pub count: u8,
    pub x: u16,
    pub y: u16,
}

/// The driver state: the address the chip answered at, if any. The shared
/// I2C bus is handed to each transfer by the caller.
#[derive(Clone, Copy, Debug, PartialEq, Eq, Structural)]
pub struct Touch {
    addr: Option<u8>,
}

/// One step of bring-up: the transfer or wait to carry out next, or the
/// outcome.
#[derive(Clone, Copy, Debug, PartialEq, Eq, Structural)]
pub enum InitStep {
    /// Read the product id from `addr`; the answer is whether it acked.
    ReadId { addr: u8 },
    /// Write 0 to the command register at `addr` (normal scan mode).
    StartScan { addr: u8 },
    /// Wait [`SCAN_SETTLE_MS`].
    Settle { addr: u8 },
    /// Write 0 to the status register at `addr` (clear the latch).
    ClearStatus { addr: u8 },
    /// Bring-up is over; the chip answered at this address, if at all.
    Done(Option<u8>),
}

/// One step of a poll: the transfer to carry out next, or the report.
#[derive(Clone, Copy, Debug, PartialEq, Eq, Structural)]
pub enum PollStep {
    /// Read the status byte from `addr`.
    ReadStatus { addr: u8 },
    /// Read the first point record (8 bytes) from `addr`.
    ReadPoint { addr: u8, count: u8 },
    /// Write 0 to the status register at `addr`; then report `report`.
    ClearStatus { addr: u8, report: Option<TouchPoint> },
    /// The poll is over.
    Done(Option<TouchPoint>),
}

impl View for Touch {
    type V = Option<u8>;

    closed spec fn view(&self) -> Option<u8> {
        self.addr
    }
}

/// The step that follows `s` once its transfer is done; `acked` is whether
/// the chip acknowledged it. Only a product-id read looks at it: bring-up
/// goes on whatever came of its writes.
pub open spec fn init_next(s: InitStep, acked: bool) -> InitStep {
    match s {
        InitStep::ReadId { addr } => if acked {
            InitStep::StartScan { addr }
        } else if addr == ADDR_PRIMARY {
            InitStep::ReadId { addr: ADDR_SECONDARY }
        } else {
            InitStep::Done(None)
        },
        InitStep::StartScan { addr } => InitStep::Settle { addr },
        InitStep::Settle { addr } => InitStep::ClearStatus { addr },
        InitStep::ClearStatus { addr } => InitStep::Done(Some(addr)),
        InitStep::Done(a) => InitStep::Done(a),
    }
}

/// The point the chip reports in `raw` (a point record), in panel
/// coordinates: the chip's y is the panel's x and the other way round.
pub open spec fn decode_point(count: u8, raw: Seq<u8>) -> TouchPoint {
    TouchPoint {
        count,
        x: (raw[3] + 256 * raw[4]) as u16,
        y: (raw[1] + 256 * raw[2]) as u16,
    }
}

/// The first step of a poll of a chip detected at `addr`, if any.
pub open spec fn poll_start(addr: Option<u8>) -> PollStep {
    match addr {
        None => PollStep::Done(None),
        Some(a) => PollStep::ReadStatus { addr: a },
    }
}

/// The step after a status read at `addr` that gave `status` (`None`: the
/// transfer failed).
pub open spec fn after_status(addr: u8, status: Option<u8>) -> PollStep {
    match status {
        None => PollStep::Done(None),
        Some(st) => if st & 0x80 == 0 {
            PollStep::Done(None)
        } else if st & 0x0F == 0 {
            PollStep::ClearStatus { addr, report: None }
        } else {
            PollStep::ReadPoint { addr, count: st & 0x0F }
        },
    }
}

/// The step after reading the point record at `addr` that gave `raw`.
pub open spec fn after_point(addr: u8, count: u8, raw: Option<Seq<u8>>) -> PollStep {
    PollStep::ClearStatus {
        addr,
        report: match raw {
            Some(r) => Some(decode_point(count, r)),
            None => None,
        },
    }
}

impl Touch {
    /// A driver for a chip at `addr` (`None`: no chip answered).
    pub fn with_address(addr: Option<u8>) -> (r: Touch)
        ensures
            r@ == addr,
    {
        Touch { addr }
    }

    /// The first step of bring-up: probe the primary address.
    pub fn start_init() -> (r: InitStep)
        ensures
            r == (InitStep::ReadId { addr: ADDR_PRIMARY }),
    {
        InitStep::ReadId { addr: ADDR_PRIMARY }
    }

    /// Whether a chip answered at bring-up.
    pub fn detected(&self) -> (r: bool)
        ensures
            r == self@ is Some,
    {
        self.addr.is_some()
    }

    /// The first step of a poll: read the status, or report nothing at once
    /// when no chip was detected.
    pub fn poll(&self) -> (r: PollStep)
        ensures
            r == poll_start(self@),
    {
        match self.addr {
            None => PollStep::Done(None),
            Some(addr) => PollStep::ReadStatus { addr },
        }
    }
}

impl InitStep {
    /// The step that follows this one, given whether its transfer was
    /// acknowledged.
    pub fn next(self, acked: bool) -> (r: InitStep)
        ensures
            r == init_next(self, acked),
    {
        match self {
            InitStep::ReadId { addr } => if acked {
                InitStep::StartScan { addr }
            } else if addr == ADDR_PRIMARY {
                InitStep::ReadId { addr: ADDR_SECONDARY }
            } else {
                InitStep::Done(None)
            },
            InitStep::StartScan { addr } => InitStep::Settle { addr },
            InitStep::Settle { addr } => InitStep::ClearStatus { addr },
            InitStep::ClearStatus { addr } => InitStep::Done(Some(addr)),
            InitStep::Done(a) => InitStep::Done(a),
        }
    }
}

/// The report in a point record, in panel coordinates.
pub fn decode(count: u8, raw: [u8; 8]) -> (r: TouchPoint)
    ensures
        r == decode_point(count, raw@),
        r.count == count,
        r.x as int == raw@[3] + 256 * raw@[4],
        r.y as int == raw@[1] + 256 * raw@[2],
{
    let raw_x: u16 = raw[1] as u16 + 256 * (raw[2] as u16);
    let raw_y: u16 = raw[3] as u16 + 256 * (raw[4] as u16);
    TouchPoint { count, x: raw_y, y: raw_x }
}

impl PollStep {
    /// The step after the status read of a `ReadStatus` step.
    pub fn status_read(self, status: Option<u8>) -> (r: PollStep)
        requires
            self is ReadStatus,
        ensures
            r == after_status(self->ReadStatus_addr, status),
    {
        match self {
            PollStep::ReadStatus { addr } => match status {
                None => PollStep::Done(None),
                Some(st) => if st & 0x80 == 0 {
                    PollStep::Done(None)
                } else if st & 0x0F == 0 {
                    PollStep::ClearStatus { addr, report: None }
                } else {
                    PollStep::ReadPoint { addr, count: st & 0x0F }
                },
            },
            _ => self,
        }
    }

    /// The step after the point read of a `ReadPoint` step (`None`: the
    /// transfer failed).
    pub fn point_read(self, raw: Option<[u8; 8]>) -> (r: PollStep)
        requires
            self is ReadPoint,
        ensures
            r == after_point(
                self->ReadPoint_addr,
                self->count,
                match raw {
                    Some(b) => Some(b@),
                    None => None,
                },
            ),
    {
        match self {
            PollStep::ReadPoint { addr, count } => PollStep::ClearStatus {
                addr,
                report: match raw {
                    Some(b) => Some(decode(count, b)),
                    None => None,
                },
            },
            _ => self,
        }
    }

    /// The step after the status write of a `ClearStatus` step, whatever
    /// its outcome.
    pub fn status_cleared(self) -> (r: PollStep)
        requires
            self is ClearStatus,
        ensures
            r == PollStep::Done(self->report),
    {
        match self {
            PollStep::ClearStatus { report, .. } => PollStep::Done(report),
            _ => self,
        }
    }
}

/// Bring-up probes the primary address first and the secondary only when
/// the primary stays silent; the chip is taken at the first address that
/// acknowledges, scan mode is started and the status latch cleared there,
/// and when neither answers nothing is written and no chip is detected.
pub proof fn lemma_probe_order(ack_primary: bool, ack_secondary: bool, w1: bool, w2: bool, w3: bool)
    ensures
        ({
            let s1 = init_next(InitStep::ReadId { addr: ADDR_PRIMARY }, ack_primary);
            if ack_primary {
                &&& s1 == InitStep::StartScan { addr: ADDR_PRIMARY }
                &&& init_next(s1, w1) == InitStep::Settle { addr: ADDR_PRIMARY }
                &&& init_next(init_next(s1, w1), w2) == InitStep::ClearStatus {
                    addr: ADDR_PRIMARY,
                }
                &&& init_next(init_next(init_next(s1, w1), w2), w3) == InitStep::Done(
                    Some(ADDR_PRIMARY),
                )
            } else {
                let s2 = init_next(s1, ack_secondary);
                &&& s1 == InitStep::ReadId { addr: ADDR_SECONDARY }
                &&& ack_secondary ==> {
                    &&& s2 == InitStep::StartScan { addr: ADDR_SECONDARY }
                    &&& init_next(s2, w1) == InitStep::Settle { addr: ADDR_SECONDARY }
                    &&& init_next(init_next(s2, w1), w2) == InitStep::ClearStatus {
                        addr: ADDR_SECONDARY,
                    }
                    &&& init_next(init_next(init_next(s2, w1), w2), w3) == InitStep::Done(
                        Some(ADDR_SECONDARY),
                    )
                }
                &&& !ack_secondary ==> s2 == InitStep::Done(None)
            }
        }),
{
}

/// Once a chip answers at any address `a`, bring-up at `a` starts the scan,
/// then waits the settle time, then clears the status latch, then ends with
/// the chip taken at `a`, whatever the outcome of those writes; a silent
/// primary address moves the probe to the secondary one, and a silent
/// secondary one ends bring-up with no chip.
pub proof fn lemma_init_sequence(a: u8, w: bool)
    ensures
        init_next(InitStep::ReadId { addr: a }, true) == (InitStep::StartScan { addr: a }),
        init_next(InitStep::StartScan { addr: a }, w) == (InitStep::Settle { addr: a }),
        init_next(InitStep::Settle { addr: a }, w) == (InitStep::ClearStatus { addr: a }),
        init_next(InitStep::ClearStatus { addr: a }, w) == InitStep::Done(Some(a)),
        init_next(InitStep::ReadId { addr: ADDR_PRIMARY }, false) == (InitStep::ReadId {
            addr: ADDR_SECONDARY,
        }),
        init_next(InitStep::ReadId { addr: ADDR_SECONDARY }, false) == InitStep::Done(None),
{
}

/// A point record decodes to the given count, with the chip's y (bytes 3
/// and 4, little-endian) as the panel's x and the chip's x (bytes 1 and 2)
/// as the panel's y.
pub proof fn lemma_decode_point(count: u8, raw: Seq<u8>)
    requires
        raw.len() == 8,
    ensures
        decode_point(count, raw).count == count,
        decode_point(count, raw).x as int == raw[3] + 256 * raw[4],
        decode_point(count, raw).y as int == raw[1] + 256 * raw[2],
{
}

/// A finished bring-up stays finished.
pub proof fn lemma_init_done_is_final(a: Option<u8>, acked: bool)
    ensures
        init_next(InitStep::Done(a), acked) == InitStep::Done(a),
{
}

/// The report a poll of a chip at some address gives, from the status read
/// (`None`: failed) and the point read (`None`: failed or not made).
pub open spec fn poll_report(status: Option<u8>, raw: Option<Seq<u8>>) -> Option<TouchPoint> {
    match status {
        Some(st) => if st & 0x80 != 0 && st & 0x0F != 0 {
            match raw {
                Some(r) => Some(decode_point(st & 0x0F, r)),
                None => None,
            }
        } else {
            None
        },
        None => None,
    }
}

/// The poll protocol. With no chip there is no bus traffic and no report.
/// A failed status read, or a status without the fresh-data flag, ends the
/// poll with no report and leaves the latch alone. A status with the flag
/// always leads to clearing the latch, after the point record was read when
/// points are counted, whether that read worked or not; and the report is
/// there exactly when points are counted and the record was read.
pub proof fn lemma_poll_protocol(t: Touch, status: Option<u8>, raw: Option<Seq<u8>>)
    ensures
        t@ is None ==> poll_start(t@) == PollStep::Done(None),
        t@ is Some ==> poll_start(t@) == (PollStep::ReadStatus { addr: t@->0 }),
        ({
            let addr = t@->0;
            let s1 = after_status(addr, status);
            t@ is Some ==> {
                &&& (status is None || status->0 & 0x80 == 0) ==> s1 == PollStep::Done(None)
                &&& (status is Some && status->0 & 0x80 != 0 && status->0 & 0x0F == 0) ==> s1
                    == PollStep::ClearStatus { addr, report: None }
                &&& (status is Some && status->0 & 0x80 != 0 && status->0 & 0x0F != 0) ==> {
                    &&& s1 == PollStep::ReadPoint { addr, count: status->0 & 0x0F }
                    &&& after_point(addr, status->0 & 0x0F, raw) == PollStep::ClearStatus {
                        addr,
                        report: poll_report(status, raw),
                    }
                }
                &&& s1 is ClearStatus ==> s1->report == poll_report(status, raw)
            }
        }),
{
}

/// A reported point always counts between one and fifteen touches, and its
/// coordinates are the chip's, axes swapped.
pub proof fn lemma_report_shape(status: Option<u8>, raw: Option<Seq<u8>>)
    ensures
        poll_report(status, raw) matches Some(p) ==> {
            &&& 1 <= p.count <= 15
            &&& p.count == status->0 & 0x0F
            &&& p.x == (raw->0[3] + 256 * raw->0[4]) as u16
            &&& p.y == (raw->0[1] + 256 * raw->0[2]) as u16
        },
        poll_report(status, raw) is Some <==> (status is Some && status->0 & 0x80 != 0
            && status->0 & 0x0F != 0 && raw is Some),
{
    if let Some(st) = status {
        assert(st & 0x0F <= 15) by (bit_vector);
    }
}

} // verus!
