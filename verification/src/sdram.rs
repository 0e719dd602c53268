//! External SDRAM: two ISSI IS42S16160J on a 32-bit bus at FMC bank 1,
//! 64 MiB at 0xC000_0000. The chip's parameters, the busy-wait used while it
//! is brought up, and the pattern and aliasing test run before the region is
//! trusted.

use vstd::prelude::*;
use crate::clock::{board_plan, lemma_board_clocks, spec_sysclk};

verus! {

/// Base address of the SDRAM aperture.
pub const BASE: usize = 0xC000_0000;

/// Size of the SDRAM aperture in bytes: 64 MiB.
pub const SIZE_BYTES: usize = 0x400_0000;

/// Size of the SDRAM aperture in 32-bit words.
pub const WORDS: usize = 16 * 1024 * 1024;

/// Fastest SDRAM clock at which the timings below hold.
pub const MAX_SD_CLOCK_HZ: u32 = 100_000_000;

/// Rows the chip has to refresh every 64 ms.
pub const ROWS: u32 = 8192;

/// IS42S16160J: 9 column bits, 13 row bits, 4 banks, 32-bit bus, CAS
/// latency 2.
pub struct Is42s16160j;

impl Is42s16160j {
    /// Mode register: burst length 1, sequential, CAS latency 2, standard
    /// operation, single-location writes.
    pub const MODE_REGISTER: u16 = 0x0020 | 0x0200;

    /// Power-up delay: 100 us.
    pub const STARTUP_DELAY_NS: u32 = 100_000;

    /// Refresh period: 64 ms over 8192 rows.
    pub const REFRESH_PERIOD_NS: u32 = 7_812;

    pub const MODE_REGISTER_TO_ACTIVE: u32 = 2;

    pub const EXIT_SELF_REFRESH: u32 = 7;

    pub const ACTIVE_TO_PRECHARGE: u32 = 4;

    pub const ROW_CYCLE: u32 = 7;

    pub const ROW_PRECHARGE: u32 = 2;

    pub const ROW_TO_COLUMN: u32 = 2;

    pub const COLUMN_BITS: u8 = 9;

    pub const ROW_BITS: u8 = 13;

    pub const MEMORY_DATA_WIDTH: u8 = 32;

    pub const INTERNAL_BANKS: u8 = 4;

    pub const CAS_LATENCY: u8 = 2;

    pub const WRITE_PROTECTION: bool = false;

    pub const READ_BURST: bool = true;

    pub const READ_PIPE_DELAY_CYCLES: u8 = 0;
}

/// The chip's geometry fills the aperture exactly, the refresh period
/// refreshes every row within 64 ms, and the mode register encodes burst
/// length 1, sequential bursts, the configured CAS latency and
/// single-location writes.
pub proof fn lemma_chip_parameters()
    ensures
        512 * 8192 * (Is42s16160j::INTERNAL_BANKS as int) * (Is42s16160j::MEMORY_DATA_WIDTH as int
            / 8) == SIZE_BYTES,
        Is42s16160j::COLUMN_BITS == 9 && Is42s16160j::ROW_BITS == 13,
        SIZE_BYTES == 4 * WORDS,
        Is42s16160j::REFRESH_PERIOD_NS * ROWS <= 64_000_000,
        Is42s16160j::MODE_REGISTER % 8 == 0,
        (Is42s16160j::MODE_REGISTER / 8) % 2 == 0,
        (Is42s16160j::MODE_REGISTER / 16) % 8 == Is42s16160j::CAS_LATENCY,
        (Is42s16160j::MODE_REGISTER / 512) % 2 == 1,
        BASE % SIZE_BYTES == 0,
{
    assert(Is42s16160j::MODE_REGISTER == 0x220) by (bit_vector);
}

/// Cycles per microsecond the board's busy-wait spins; about twice the
/// 399.36 cycles of a microsecond at the system clock.
pub const BOARD_DELAY_CYCLES_PER_US: u32 = 800;

/// Busy-wait used while the SDRAM comes up (it must not depend on the time
/// driver): spins `.0` cycles per whole microsecond.
pub struct BusyDelay(pub u32);

/// `ns` rounded up to whole microseconds.
pub open spec fn whole_us(ns: int) -> int {
    (ns + 999) / 1000
}

impl BusyDelay {
    /// Cycles to spin for a delay of `ns` nanoseconds: the delay rounded up
    /// to whole microseconds, times the cycles per microsecond.
    pub fn cycles(&self, ns: u32) -> (r: u32)
        requires
            self.0 * whole_us(ns as int) <= u32::MAX,
        ensures
            r == self.0 * whole_us(ns as int),
    {
        let us: u32 = ns / 1000 + if ns % 1000 != 0 {
            1
        } else {
            0
        };
        assert(us == whole_us(ns as int));
        self.0 * us
    }
}

/// The one delay the SDRAM bring-up asks for, 100 us, spins exactly 100
/// microseconds' worth of cycles; and the board's 800 cycles per microsecond
/// are at least twice the cycles of a microsecond at the system clock, so the
/// floor holds even when the core issues two instructions per cycle.
pub proof fn lemma_delay_floor()
    ensures
        whole_us(Is42s16160j::STARTUP_DELAY_NS as int) == 100,
        BOARD_DELAY_CYCLES_PER_US * 1_000_000 >= 2 * spec_sysclk(board_plan()),
{
    lemma_board_clocks();
}

/// Words covered by the pattern test.
pub const SMOKE_WORDS: usize = 4096;

/// The pattern test writes `SMOKE_SEED ^ i` to word `i`.
pub const SMOKE_SEED: u32 = 0xA5A5_0000;

/// Written to the lowest word of the aperture by the aliasing test.
pub const LOW_MARK: u32 = 0xDEAD_BEEF;

/// Written to the highest word of the aperture by the aliasing test.
pub const HIGH_MARK: u32 = 0x1234_5678;

/// The word the pattern test writes at position `i`.
pub open spec fn spec_pattern(i: int) -> u32 {
    SMOKE_SEED ^ (i as u32)
}

/// The word the pattern test writes at position `i`.
pub fn smoke_pattern(i: usize) -> (r: u32)
    requires
        i < SMOKE_WORDS,
    ensures
        r == spec_pattern(i as int),
{
    SMOKE_SEED ^ (i as u32)
}

/// The verdict of the test: every pattern word read back as written, and
/// the lowest and highest words of the aperture kept their own marks.
pub fn smoke_check(readback: &[u32], low: u32, high: u32) -> (r: bool)
    ensures
        r == (readback@.len() == SMOKE_WORDS && (forall|i: int|
            0 <= i < SMOKE_WORDS ==> readback@[i] == spec_pattern(i)) && low == LOW_MARK && high
            == HIGH_MARK),
{
    if readback.len() != SMOKE_WORDS {
        return false;
    }
    let mut i: usize = 0;
    while i < SMOKE_WORDS
        invariant
            i <= SMOKE_WORDS,
            readback@.len() == SMOKE_WORDS,
            forall|k: int| 0 <= k < i ==> readback@[k] == spec_pattern(k),
        decreases SMOKE_WORDS - i,
    {
        if readback[i] != smoke_pattern(i) {
            return false;
        }
        i = i + 1;
    }
    low == LOW_MARK && high == HIGH_MARK
}

/// Word `i` of the pattern test carries 0xA5A5 in its top half and `i` in
/// its low 12 bits. No two words of the pattern test get the same value, so a read-back that
/// matches rules out aliasing inside the tested window; and the two marked
/// words are distinct and at opposite ends of the aperture.
pub proof fn lemma_patterns_distinct(i: int, j: int)
    requires
        0 <= i < SMOKE_WORDS,
        0 <= j < SMOKE_WORDS,
        i != j,
    ensures
        spec_pattern(i) != spec_pattern(j),
        spec_pattern(i) & 0xFFFF_F000 == 0xA5A5_0000,
        spec_pattern(i) & 0xFFF == i,
        LOW_MARK != HIGH_MARK,
        (WORDS - 1) * 4 + 4 == SIZE_BYTES,
{
    let a = i as u32;
    let b = j as u32;
    assert(a != b);
    assert((SMOKE_SEED ^ a) != (SMOKE_SEED ^ b)) by (bit_vector)
        requires
            a != b,
    ;
    assert((0xA5A5_0000u32 ^ a) & 0xFFFF_F000 == 0xA5A5_0000 && (0xA5A5_0000u32 ^ a) & 0xFFF == a)
        by (bit_vector)
        requires
            a < 4096,
    ;
}

} // verus!
