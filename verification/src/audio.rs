//! Audio: the CS42528 codec's bring-up over I2C and the figures of the I2S
//! stream that SAI1 sends it (24-bit stereo at 48 kHz from a DMA ring buffer).

use vstd::prelude::*;

verus! {

/// I2C address of the codec's control port.
pub const CODEC_ADDR: u8 = 0x4C;

/// Audio sample rate; the SAI kernel clock is 256 times it.
pub const SAMPLE_RATE: u32 = 48_000;

/// Interleaved L/R samples per write (one half of the DMA ring buffer).
pub const HALF_BUFFER_LEN: usize = 64;

/// Samples in the DMA ring buffer.
pub const DMA_BUFFER_LEN: usize = HALF_BUFFER_LEN * 2;

/// Address of the DMA ring buffer: D2 SRAM1, reachable from DMA1 and
/// coherent without cache maintenance.
pub const TX_BUFFER_ADDR: usize = 0x3000_0000;

/// I2S frame: 64 bit clocks per frame, frame sync active for the first 32,
/// 24-bit samples.
pub const FRAME_LENGTH: u16 = 64;

pub const FRAME_SYNC_ACTIVE_LENGTH: u8 = 32;

pub const SAMPLE_BITS: u8 = 24;

/// SAI master-clock divider: MCLK is the SAI kernel clock over it.
pub const MASTER_CLOCK_DIVIDER: u8 = 1;

/// Milliseconds the codec is held in reset, then left to come out of it.
pub const RESET_LOW_MS: u32 = 10;

pub const RESET_RELEASE_MS: u32 = 20;

/// Number of register writes in the codec bring-up.
pub const CODEC_INIT_LEN: usize = 6;

/// The codec bring-up, as `(register, value)` writes in order: power
/// control, functional mode, interface format (I2S, 24-bit, one-line mode
/// off), miscellaneous control, clock control (MCLK from OMCK, 12.288 MHz),
/// and unmute of every DAC channel.
pub open spec fn codec_init_write(i: int) -> (u8, u8) {
    if i == 0 {
        (0x02, 0x80)
    } else if i == 1 {
        (0x03, 0x08)
    } else if i == 2 {
        (0x04, 0x04)
    } else if i == 3 {
        (0x05, 0x04)
    } else if i == 4 {
        (0x06, 0x02)
    } else {
        (0x0E, 0x00)
    }
}

/// Whether every write in `acks` was acknowledged.
pub open spec fn all_acked(acks: Seq<bool>) -> bool {
    forall|i: int| 0 <= i < acks.len() ==> acks[i]
}

/// The codec bring-up in progress: which of its register writes were
/// acknowledged so far. Every write is made, whatever came of the ones
/// before.
pub struct CodecInit {
    written: usize,
    ok: bool,
    acks: Ghost<Seq<bool>>,
}

impl View for CodecInit {
    /// Whether each write made so far was acknowledged, in order.
    type V = Seq<bool>;

    closed spec fn view(&self) -> Seq<bool> {
        self.acks@
    }
}

impl CodecInit {
    #[verifier::type_invariant]
    spec fn inv(self) -> bool {
        &&& self.written == self.acks@.len()
        &&& self.written <= CODEC_INIT_LEN
        &&& self.ok == all_acked(self.acks@)
    }

    /// Bring-up before its first write.
    pub fn new() -> (r: CodecInit)
        ensures
            r@ == Seq::<bool>::empty(),
    {
        CodecInit { written: 0, ok: true, acks: Ghost(Seq::empty()) }
    }

    /// The `[register, value]` write to make next, or `None` once all six
    /// were made.
    pub fn pending(&self) -> (r: Option<[u8; 2]>)
        ensures
            self@.len() <= CODEC_INIT_LEN,
            r is Some <==> self@.len() < CODEC_INIT_LEN,
            r matches Some(w) ==> w@[0] == codec_init_write(self@.len() as int).0 && w@[1]
                == codec_init_write(self@.len() as int).1,
    {
        proof {
            use_type_invariant(self);
        }
        if self.written == 0 {
            Some([0x02, 0x80])
        } else if self.written == 1 {
            Some([0x03, 0x08])
        } else if self.written == 2 {
            Some([0x04, 0x04])
        } else if self.written == 3 {
            Some([0x05, 0x04])
        } else if self.written == 4 {
            Some([0x06, 0x02])
        } else if self.written == 5 {
            Some([0x0E, 0x00])
        } else {
            None
        }
    }

    /// Record whether the pending write was acknowledged.
    pub fn record(&mut self, acked: bool)
        requires
            old(self)@.len() < CODEC_INIT_LEN,
        ensures
            final(self)@ == old(self)@.push(acked),
    {
        proof {
            use_type_invariant(&*self);
        }
        let ghost before = self.acks@;
        let ghost after = before.push(acked);
        let ok = self.ok && acked;
        assert(ok == (forall|i: int| 0 <= i < after.len() ==> after[i])) by {
            if ok {
                assert forall|i: int| 0 <= i < after.len() implies after[i] by {
                    if i < before.len() {
                        assert(after[i] == before[i]);
                    }
                }
            } else if !acked {
                assert(!after[before.len() as int]);
            } else {
                let j = choose|j: int| 0 <= j < before.len() && !before[j];
                assert(!after[j]);
            }
        }
        let acks: Ghost<Seq<bool>> = Ghost(after);
        assert(ok == all_acked(acks@));
        let written = self.written + 1;
        *self = CodecInit { written, ok, acks };
    }

    /// Whether the codec acknowledged every write made so far; at the end
    /// of the bring-up, whether it acked the whole sequence.
    pub fn ok(&self) -> (r: bool)
        ensures
            r == all_acked(self@),
    {
        proof {
            use_type_invariant(self);
        }
        self.ok
    }
}

/// The codec bring-up writes, in order: 0x02 := 0x80 (power control),
/// 0x03 := 0x08 (functional mode), 0x04 := 0x04 (I2S, 24-bit), 0x05 := 0x04
/// (miscellaneous control), 0x06 := 0x02 (MCLK from OMCK) and 0x0E := 0x00
/// (unmute every DAC).
pub proof fn lemma_codec_writes()
    ensures
        codec_init_write(0) == (0x02u8, 0x80u8),
        codec_init_write(1) == (0x03u8, 0x08u8),
        codec_init_write(2) == (0x04u8, 0x04u8),
        codec_init_write(3) == (0x05u8, 0x04u8),
        codec_init_write(4) == (0x06u8, 0x02u8),
        codec_init_write(5) == (0x0Eu8, 0x00u8),
        CODEC_INIT_LEN == 6,
{
}

/// The bring-up verdict is false as soon as one write went unacknowledged,
/// and stays true only while every write was acknowledged.
pub proof fn lemma_codec_verdict(acks: Seq<bool>, i: int)
    ensures
        0 <= i < acks.len() && !acks[i] ==> !all_acked(acks),
        all_acked(acks) ==> forall|j: int| 0 <= j < acks.len() ==> acks[j],
        all_acked(Seq::<bool>::empty()),
        all_acked(acks) ==> (all_acked(acks.push(true)) && !all_acked(acks.push(false))),
{
    if all_acked(acks) {
        assert(!acks.push(false)[acks.len() as int]);
        assert forall|j: int| 0 <= j < acks.push(true).len() implies acks.push(true)[j] by {
            if j < acks.len() {
                assert(acks.push(true)[j] == acks[j]);
            }
        }
    }
}

} // verus!
