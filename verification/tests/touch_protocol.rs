use blackbox_rs::touch::{decode, InitStep, PollStep, Touch, TouchPoint, ADDR_PRIMARY, ADDR_SECONDARY};

fn run_init(acks: &[bool]) -> (Vec<InitStep>, Option<u8>) {
    let mut trace = vec![];
    let mut step = Touch::start_init();
    let mut answers = acks.iter();
    loop {
        trace.push(step);
        match step {
            InitStep::Done(addr) => return (trace, addr),
            InitStep::ReadId { .. } => step = step.next(*answers.next().unwrap()),
            _ => step = step.next(true),
        }
    }
}

#[test]
fn probe_takes_primary_first() {
    let (trace, addr) = run_init(&[true]);
    assert_eq!(addr, Some(0x5D));
    assert_eq!(
        trace,
        vec![
            InitStep::ReadId { addr: 0x5D },
            InitStep::StartScan { addr: 0x5D },
            InitStep::Settle { addr: 0x5D },
            InitStep::ClearStatus { addr: 0x5D },
            InitStep::Done(Some(0x5D)),
        ]
    );
}

#[test]
fn probe_falls_back_to_secondary() {
    let (trace, addr) = run_init(&[false, true]);
    assert_eq!(addr, Some(ADDR_SECONDARY));
    assert_eq!(trace[1], InitStep::ReadId { addr: 0x14 });
    assert_eq!(trace[2], InitStep::StartScan { addr: 0x14 });
    assert_eq!(trace.len(), 6);
}

#[test]
fn probe_with_no_chip_writes_nothing() {
    let (trace, addr) = run_init(&[false, false]);
    assert_eq!(addr, None);
    assert_eq!(
        trace,
        vec![InitStep::ReadId { addr: ADDR_PRIMARY }, InitStep::ReadId { addr: ADDR_SECONDARY }, InitStep::Done(None)]
    );
    let t = Touch::with_address(addr);
    assert!(!t.detected());
    assert_eq!(t.poll(), PollStep::Done(None));
    assert!(Touch::with_address(Some(0x14)).detected());
}

/// Runs a poll against canned bus answers; returns the report and whether the latch was cleared.
fn run_poll(t: &Touch, status: Option<u8>, point: Option<[u8; 8]>) -> (Option<TouchPoint>, bool, bool) {
    let mut cleared = false;
    let mut point_read = false;
    let mut step = t.poll();
    loop {
        step = match step {
            PollStep::ReadStatus { .. } => step.status_read(status),
            PollStep::ReadPoint { .. } => {
                point_read = true;
                step.point_read(point)
            }
            PollStep::ClearStatus { .. } => {
                cleared = true;
                step.status_cleared()
            }
            PollStep::Done(r) => return (r, cleared, point_read),
        }
    }
}

#[test]
fn poll_reports_first_point_with_axes_swapped() {
    let t = Touch::with_address(Some(0x5D));
    let raw = [0, 0x34, 0x01, 0x78, 0x00, 9, 0, 0];
    let (r, cleared, read) = run_poll(&t, Some(0x81), Some(raw));
    assert_eq!(r, Some(TouchPoint { count: 1, x: 0x78, y: 0x134 }));
    assert!(cleared);
    assert!(read);
}

#[test]
fn poll_without_fresh_data_leaves_latch() {
    let t = Touch::with_address(Some(0x5D));
    assert_eq!(run_poll(&t, Some(0x05), None), (None, false, false));
    assert_eq!(run_poll(&t, None, None), (None, false, false));
}

#[test]
fn poll_with_zero_points_clears_latch() {
    let t = Touch::with_address(Some(0x14));
    assert_eq!(run_poll(&t, Some(0x80), None), (None, true, false));
}

#[test]
fn poll_failed_point_read_still_clears_latch() {
    let t = Touch::with_address(Some(0x14));
    assert_eq!(run_poll(&t, Some(0x83), None), (None, true, true));
}

#[test]
fn decode_little_endian() {
    let p = decode(5, [0, 0xFF, 0xFF, 0x3F, 0x01, 0, 0, 0]);
    assert_eq!(p, TouchPoint { count: 5, x: 0x013F, y: 0xFFFF });
}

#[test]
fn finished_init_stays_finished() {
    assert_eq!(InitStep::Done(Some(0x5D)).next(false), InitStep::Done(Some(0x5D)));
    assert_eq!(InitStep::Done(None).next(true), InitStep::Done(None));
}
