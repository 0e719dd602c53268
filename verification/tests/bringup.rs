use blackbox_rs::audio::{CodecInit, CODEC_ADDR, DMA_BUFFER_LEN, HALF_BUFFER_LEN, SAMPLE_RATE};
use blackbox_rs::clock::{
    pll_output_hz, AdcClockSource, ClockPlan, PerClockSource, SaiClockSource, SysclkSource, VoltageScale, HSE_HZ,
};
use blackbox_rs::cpu::{self, rasr, rbar};
use blackbox_rs::sdram::{self, smoke_check, smoke_pattern, BusyDelay, Is42s16160j, SMOKE_WORDS};

fn run_codec(acks: &[bool]) -> (Vec<[u8; 2]>, bool) {
    let mut c = CodecInit::new();
    let mut writes = vec![];
    let mut answers = acks.iter();
    while let Some(w) = c.pending() {
        writes.push(w);
        c.record(*answers.next().unwrap());
    }
    (writes, c.ok())
}

#[test]
fn codec_sequence_in_order() {
    let (writes, ok) = run_codec(&[true; 6]);
    assert!(ok);
    assert_eq!(writes, vec![[0x02, 0x80], [0x03, 0x08], [0x04, 0x04], [0x05, 0x04], [0x06, 0x02], [0x0E, 0x00]]);
    assert_eq!(CODEC_ADDR, 0x4C);
}

#[test]
fn codec_failure_keeps_writing() {
    let (writes, ok) = run_codec(&[true, false, true, true, true, true]);
    assert_eq!(writes.len(), 6);
    assert!(!ok);
    let (_, ok) = run_codec(&[true, true, true, true, true, false]);
    assert!(!ok);
}

#[test]
fn buffer_lengths() {
    assert_eq!(HALF_BUFFER_LEN, 64);
    assert_eq!(DMA_BUFFER_LEN, 128);
}

#[test]
fn board_clock_tree() {
    let p = ClockPlan::board();
    assert_eq!(p.hse_hz, HSE_HZ);
    assert_eq!(p.sysclk_hz(), 399_360_000);
    assert_eq!(p.sai_kernel_hz(), 12_288_000);
    assert_eq!(p.sai_kernel_hz(), 256 * SAMPLE_RATE as u64);
    assert_eq!(p.pixel_clock_hz(), 6_400_000);
    assert_eq!(p.hclk_hz(), 199_680_000);
    assert_eq!(p.sdclk_hz(), 99_840_000);
    assert!(p.sdclk_hz() <= sdram::MAX_SD_CLOCK_HZ as u64);
    assert_eq!(p.pixel_clock_hz() / (408 * 263), 59);
}

#[test]
fn pll_output_formula() {
    assert_eq!(pll_output_hz(6_144_000, 2, 260, 18), 44_373_333);
    assert_eq!(pll_output_hz(u32::MAX, 1, u32::MAX, 1), (u32::MAX as u64) * (u32::MAX as u64));
}

#[test]
fn mpu_register_values() {
    assert_eq!(rasr(cpu::SDRAM_REGION_SIZE_LOG2), 0x1308_0033);
    assert_eq!(rasr(cpu::D2_REGION_SIZE_LOG2), 0x1308_0023);
    assert_eq!(rbar(cpu::SDRAM_REGION_BASE, cpu::SDRAM_REGION), 0xC000_0010);
    assert_eq!(rbar(cpu::D2_REGION_BASE, cpu::D2_REGION), 0x3000_0011);
    assert_eq!(cpu::MPU_CTRL_ENABLE_PRIVDEFENA, 5);
}

#[test]
fn sdram_chip_parameters() {
    assert_eq!(Is42s16160j::MODE_REGISTER, 0x0220);
    assert_eq!(Is42s16160j::REFRESH_PERIOD_NS, 7_812);
    assert_eq!(sdram::WORDS * 4, sdram::SIZE_BYTES);
}

#[test]
fn busy_delay_rounds_up_to_microseconds() {
    let d = BusyDelay(800);
    assert_eq!(d.cycles(100_000), 80_000);
    assert_eq!(d.cycles(1), 800);
    assert_eq!(d.cycles(1000), 800);
    assert_eq!(d.cycles(1001), 1600);
    assert_eq!(d.cycles(0), 0);
}

#[test]
fn smoke_test_verdicts() {
    assert_eq!(smoke_pattern(0), 0xA5A5_0000);
    assert_eq!(smoke_pattern(0x0FFF), 0xA5A5_0FFF);
    let good: Vec<u32> = (0..SMOKE_WORDS).map(smoke_pattern).collect();
    assert!(smoke_check(&good, 0xDEAD_BEEF, 0x1234_5678));
    assert!(!smoke_check(&good, 0x1234_5678, 0x1234_5678));
    assert!(!smoke_check(&good, 0xDEAD_BEEF, 0xDEAD_BEEF));
    let mut bad = good.clone();
    bad[4095] ^= 1;
    assert!(!smoke_check(&bad, 0xDEAD_BEEF, 0x1234_5678));
    assert!(!smoke_check(&good[..100], 0xDEAD_BEEF, 0x1234_5678));
}

#[test]
fn smoke_patterns_are_distinct() {
    let mut seen: Vec<u32> = (0..SMOKE_WORDS).map(smoke_pattern).collect();
    seen.sort();
    seen.dedup();
    assert_eq!(seen.len(), SMOKE_WORDS);
    assert_ne!(sdram::LOW_MARK, sdram::HIGH_MARK);
}

#[test]
fn busy_delay_floor_at_board_rate() {
    let d = BusyDelay(sdram::BOARD_DELAY_CYCLES_PER_US);
    assert_eq!(d.cycles(Is42s16160j::STARTUP_DELAY_NS), 80_000);
    assert!(sdram::BOARD_DELAY_CYCLES_PER_US as u64 * 1_000_000 >= 2 * ClockPlan::board().sysclk_hz());
}

#[test]
fn board_clock_selections() {
    let p = ClockPlan::board();
    assert_eq!(p.sys, SysclkSource::Pll1P);
    assert_eq!(p.voltage_scale, VoltageScale::Scale1);
    assert_eq!(p.sai1_source, SaiClockSource::Pll2P);
    assert_eq!(p.adc_source, AdcClockSource::Per);
    assert_eq!(p.per_source, PerClockSource::Hsi);
    assert_eq!(p.per_hz(), 64_000_000);
    assert_eq!(p.adc_kernel_hz(), 64_000_000);
    assert!(p.sysclk_hz() <= 400_000_000);
}

#[test]
fn clock_selections_change_the_frequencies() {
    let mut p = ClockPlan::board();
    p.sai1_source = SaiClockSource::Pll1Q;
    assert_eq!(p.sai_kernel_hz(), 44_373_333);
    p.sai1_source = SaiClockSource::Per;
    assert_eq!(p.sai_kernel_hz(), 64_000_000);
    p.sys = SysclkSource::Hse;
    assert_eq!(p.sysclk_hz(), 6_144_000);
    p.per_source = PerClockSource::Csi;
    p.adc_source = AdcClockSource::Pll3R;
    assert_eq!(p.per_hz(), 4_000_000);
    assert_eq!(p.adc_kernel_hz(), 6_400_000);
}
