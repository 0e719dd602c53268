//! The MPU layout set up before the peripherals: the SDRAM (64 MiB) and the
//! D2 SRAM (256 KiB) are Normal, non-cacheable, read-write, execute-never
//! regions, so that they stay coherent with the LTDC and SAI DMA engines
//! even once the D-cache is enabled.

use vstd::prelude::*;
use crate::audio::{DMA_BUFFER_LEN, TX_BUFFER_ADDR};
use crate::display::{FB_STRIDE, PIXELS};
use crate::sdram::{BASE, SIZE_BYTES};

verus! {

/// MPU region number and extent of the SDRAM.
pub const SDRAM_REGION: u32 = 0;

pub const SDRAM_REGION_BASE: u32 = 0xC000_0000;

pub const SDRAM_REGION_SIZE_LOG2: u32 = 26;

/// MPU region number and extent of the D2 SRAM.
pub const D2_REGION: u32 = 1;

pub const D2_REGION_BASE: u32 = 0x3000_0000;

pub const D2_REGION_SIZE_LOG2: u32 = 18;

/// RASR attributes of a Normal non-cacheable region: XN, AP = 011 (full
/// read-write), TEX = 001, C = 0, B = 0.
pub const RASR_NORMAL_NONCACHEABLE: u32 = 0x1308_0000;

/// RASR region-enable bit.
pub const RASR_ENABLE: u32 = 1;

/// RBAR VALID bit: the region number in the low bits selects the region.
pub const RBAR_VALID: u32 = 0x10;

/// MPU CTRL: ENABLE | PRIVDEFENA (the default map stays behind the regions).
pub const MPU_CTRL_ENABLE_PRIVDEFENA: u32 = (1 << 0) | (1 << 2);

/// The RASR value of an enabled Normal non-cacheable region of `2^size_log2`
/// bytes: the SIZE field holds `size_log2 - 1`.
pub open spec fn spec_rasr(size_log2: u32) -> u32 {
    RASR_NORMAL_NONCACHEABLE | (((size_log2 - 1) as u32) << 1u32) | RASR_ENABLE
}

/// The RBAR value selecting region `region` at `base`.
pub open spec fn spec_rbar(base: u32, region: u32) -> u32 {
    base | RBAR_VALID | region
}

/// RASR for an enabled Normal non-cacheable region of `2^size_log2` bytes.
pub fn rasr(size_log2: u32) -> (r: u32)
    requires
        5 <= size_log2 <= 32,
    ensures
        r == spec_rasr(size_log2),
        (r >> 1u32) & 0x1F == size_log2 - 1,
        r & 1 == 1,
        r & 0xFFFF_FFC0 == RASR_NORMAL_NONCACHEABLE,
{
    let field: u32 = size_log2 - 1;
    let r = RASR_NORMAL_NONCACHEABLE | (field << 1u32) | RASR_ENABLE;
    assert((r >> 1u32) & 0x1F == field && r & 1 == 1 && r & 0xFFFF_FFC0 == 0x1308_0000)
        by (bit_vector)
        requires
            r == 0x1308_0000u32 | (field << 1u32) | 1u32,
            field < 32,
    ;
    r
}

/// RBAR selecting region `region` (0 to 15) at `base` (32-byte aligned).
pub fn rbar(base: u32, region: u32) -> (r: u32)
    requires
        region < 16,
        base & 0x1F == 0,
    ensures
        r == spec_rbar(base, region),
        r & 0xF == region,
        r & 0x10 == 0x10,
        r & 0xFFFF_FFE0 == base,
{
    let r = base | RBAR_VALID | region;
    assert(r & 0xF == region && r & 0x10 == 0x10 && r & 0xFFFF_FFE0 == base) by (bit_vector)
        requires
            r == base | 0x10u32 | region,
            region < 16,
            base & 0x1F == 0,
    ;
    r
}

/// The board's two regions program the register values 0x1308_0033 /
/// 0xC000_0010 (SDRAM) and 0x1308_0023 / 0x3000_0011 (D2 SRAM); each base
/// is aligned to its region's size as the MPU requires; the SDRAM region is
/// the whole SDRAM aperture, and it holds both framebuffers, while the audio
/// DMA ring buffer lies inside the D2 region.
pub proof fn lemma_board_regions()
    ensures
        spec_rasr(SDRAM_REGION_SIZE_LOG2) == 0x1308_0033,
        spec_rbar(SDRAM_REGION_BASE, SDRAM_REGION) == 0xC000_0010,
        spec_rasr(D2_REGION_SIZE_LOG2) == 0x1308_0023,
        spec_rbar(D2_REGION_BASE, D2_REGION) == 0x3000_0011,
        SDRAM_REGION_BASE % 0x400_0000 == 0,
        D2_REGION_BASE % 0x4_0000 == 0,
        SDRAM_REGION_BASE == BASE,
        SIZE_BYTES == 0x400_0000,
        BASE + FB_STRIDE + 2 * PIXELS <= BASE + SIZE_BYTES,
        D2_REGION_BASE <= TX_BUFFER_ADDR,
        TX_BUFFER_ADDR + 4 * DMA_BUFFER_LEN <= D2_REGION_BASE + 0x4_0000,
        MPU_CTRL_ENABLE_PRIVDEFENA == 5,
{
    assert(spec_rasr(26) == 0x1308_0033) by (bit_vector);
    assert(spec_rasr(18) == 0x1308_0023) by (bit_vector);
    assert(spec_rbar(0xC000_0000, 0) == 0xC000_0010) by (bit_vector);
    assert(spec_rbar(0x3000_0000, 1) == 0x3000_0011) by (bit_vector);
    assert(((1u32 << 0u32) | (1u32 << 2u32)) == 5) by (bit_vector);
}

} // verus!
