//! Bus timing: the five counts the timing register holds.

use crate::bits::{field_of, low_mask, read_field};
use vstd::prelude::*;

verus! {

/// Core clock frequency for which a timing is known, in hertz.
pub const CORE_CLOCK_HZ: u32 = 8_000_000;

/// Standard-mode bus frequency, in hertz.
pub const STANDARD_MODE_HZ: u32 = 100_000;

/// The counts programmed into the timing register.
#[derive(Clone, Copy, Debug, PartialEq, Eq)]
pub struct TimingConfig {
    /// Timing prescaler, four bits.
    pub prescaler: u8,
    /// SCL low period, eight bits.
    pub scl_low: u8,
    /// SCL high period, eight bits.
    pub scl_high: u8,
    /// Data hold delay, four bits.
    pub data_hold: u8,
    /// Data setup delay, four bits.
    pub data_setup: u8,
}

/// Whether five counts fit the widths the timing register gives them.
pub open spec fn counts_fit(prescaler: u8, data_hold: u8, data_setup: u8) -> bool {
    prescaler < 16 && data_hold < 16 && data_setup < 16
}

/// The counts held by the fields of a timing register word.
pub open spec fn unpacked(word: u32) -> TimingConfig {
    TimingConfig {
        prescaler: field_of(word, 28, 4) as u8,
        scl_low: field_of(word, 0, 8) as u8,
        scl_high: field_of(word, 8, 8) as u8,
        data_hold: field_of(word, 16, 4) as u8,
        data_setup: field_of(word, 20, 4) as u8,
    }
}

/// The timing for an 8 MHz core clock and a 100 kHz bus.
pub open spec fn standard_mode_timing() -> TimingConfig {
    TimingConfig { prescaler: 0, scl_low: 9, scl_high: 4, data_hold: 1, data_setup: 3 }
}

impl TimingConfig {
    /// Every count fits its field of the timing register.
    pub open spec fn wf(self) -> bool {
        counts_fit(self.prescaler, self.data_hold, self.data_setup)
    }

    /// The timing register word: prescaler in bits 28 to 31, setup delay in
    /// bits 20 to 23, hold delay in bits 16 to 19, high period in bits 8 to
    /// 15, low period in bits 0 to 7, and zero elsewhere.
    pub open spec fn packed(self) -> int {
        self.prescaler * 0x1000_0000 + self.data_setup * 0x10_0000 + self.data_hold * 0x1_0000
            + self.scl_high * 0x100 + self.scl_low
    }

    /// Builds a timing from its counts, if each fits its field.
    pub fn new(prescaler: u8, scl_low: u8, scl_high: u8, data_hold: u8, data_setup: u8) -> (timing:
        Option<TimingConfig>)
        ensures
            timing.is_some() <==> counts_fit(prescaler, data_hold, data_setup),
            timing.is_some() ==> timing.unwrap() == (TimingConfig {
                prescaler,
                scl_low,
                scl_high,
                data_hold,
                data_setup,
            }),
    {
        if prescaler < 16 && data_hold < 16 && data_setup < 16 {
            Some(TimingConfig { prescaler, scl_low, scl_high, data_hold, data_setup })
        } else {
            None
        }
    }

    /// The timing for a core clock and a target bus frequency. Only an 8 MHz
    /// core driving a 100 kHz bus is known.
    pub fn for_clocks(core_clock_hz: u32, target_bus_hz: u32) -> (timing: Option<TimingConfig>)
        ensures
            timing == if core_clock_hz == CORE_CLOCK_HZ && target_bus_hz == STANDARD_MODE_HZ {
                Some(standard_mode_timing())
            } else {
                None
            },
            timing.is_some() ==> timing.unwrap().wf(),
    {
        if core_clock_hz == CORE_CLOCK_HZ && target_bus_hz == STANDARD_MODE_HZ {
            Some(TimingConfig { prescaler: 0, scl_low: 9, scl_high: 4, data_hold: 1, data_setup: 3 })
        } else {
            None
        }
    }

    /// Whether every count fits its field.
    pub fn is_valid(&self) -> (valid: bool)
        ensures
            valid == self.wf(),
    {
        self.prescaler < 16 && self.data_hold < 16 && self.data_setup < 16
    }

    /// Packs the counts into the timing register word.
    pub fn pack(&self) -> (word: u32)
        requires
            self.wf(),
        ensures
            word == self.packed(),
            field_of(word, 28, 4) == self.prescaler,
            field_of(word, 20, 4) == self.data_setup,
            field_of(word, 16, 4) == self.data_hold,
            field_of(word, 8, 8) == self.scl_high,
            field_of(word, 0, 8) == self.scl_low,
            field_of(word, 24, 4) == 0,
    {
        let presc: u32 = self.prescaler as u32;
        let setup: u32 = self.data_setup as u32;
        let hold: u32 = self.data_hold as u32;
        let high: u32 = self.scl_high as u32;
        let low: u32 = self.scl_low as u32;
        let word: u32 = (presc << 28) | (setup << 20) | (hold << 16) | (high << 8) | low;
        proof {
            lemma_packed_word(presc, setup, hold, high, low);
        }
        word
    }

    /// Reads the counts back out of a timing register word.
    pub fn unpack(word: u32) -> (timing: TimingConfig)
        ensures
            timing == unpacked(word),
            timing.wf(),
            timing.prescaler == field_of(word, 28, 4),
            timing.data_setup == field_of(word, 20, 4),
            timing.data_hold == field_of(word, 16, 4),
            timing.scl_high == field_of(word, 8, 8),
            timing.scl_low == field_of(word, 0, 8),
    {
        let presc: u32 = read_field(word, 28, 4);
        let setup: u32 = read_field(word, 20, 4);
        let hold: u32 = read_field(word, 16, 4);
        let high: u32 = read_field(word, 8, 8);
        let low: u32 = read_field(word, 0, 8);
        proof {
            lemma_field_widths();
        }
        TimingConfig {
            prescaler: presc as u8,
            scl_low: low as u8,
            scl_high: high as u8,
            data_hold: hold as u8,
            data_setup: setup as u8,
        }
    }
}

/// The word assembled by shifting each count to its field is the sum of the
/// counts scaled by their place values, and each field of it holds its count.
proof fn lemma_packed_word(presc: u32, setup: u32, hold: u32, high: u32, low: u32)
    requires
        presc < 16,
        setup < 16,
        hold < 16,
        high < 256,
        low < 256,
    ensures
        ({
            let word = (presc << 28) | (setup << 20) | (hold << 16) | (high << 8) | low;
            &&& word == presc * 0x1000_0000 + setup * 0x10_0000 + hold * 0x1_0000 + high * 0x100 + low
            &&& field_of(word, 28, 4) == presc
            &&& field_of(word, 20, 4) == setup
            &&& field_of(word, 16, 4) == hold
            &&& field_of(word, 8, 8) == high
            &&& field_of(word, 0, 8) == low
            &&& field_of(word, 24, 4) == 0
        }),
{
    let word = (presc << 28) | (setup << 20) | (hold << 16) | (high << 8) | low;
    assert(word == presc * 0x1000_0000 + setup * 0x10_0000 + hold * 0x1_0000 + high * 0x100 + low)
        by (bit_vector)
        requires
            word == (presc << 28) | (setup << 20) | (hold << 16) | (high << 8) | low,
            presc < 16,
            setup < 16,
            hold < 16,
            high < 256,
            low < 256,
    ;
    assert(field_of(word, 28, 4) == presc && field_of(word, 20, 4) == setup && field_of(word, 16, 4)
        == hold && field_of(word, 8, 8) == high && field_of(word, 0, 8) == low && field_of(
        word,
        24,
        4,
    ) == 0) by (bit_vector)
        requires
            word == (presc << 28) | (setup << 20) | (hold << 16) | (high << 8) | low,
            presc < 16,
            setup < 16,
            hold < 16,
            high < 256,
            low < 256,
    ;
}

/// The largest values of the fields of the timing register.
proof fn lemma_field_widths()
    ensures
        low_mask(4) == 15,
        low_mask(8) == 255,
{
    assert(!(0xFFFF_FFFFu32 << 4u32) == 15) by (bit_vector);
    assert(!(0xFFFF_FFFFu32 << 8u32) == 255) by (bit_vector);
}

/// Each field of a packed timing holds its count, the reserved bits between
/// the prescaler and the setup delay are zero, and the word fits 32 bits.
pub proof fn lemma_packed_fields(timing: TimingConfig)
    requires
        timing.wf(),
    ensures
        0 <= timing.packed() <= u32::MAX,
        field_of(timing.packed() as u32, 28, 4) == timing.prescaler,
        field_of(timing.packed() as u32, 20, 4) == timing.data_setup,
        field_of(timing.packed() as u32, 16, 4) == timing.data_hold,
        field_of(timing.packed() as u32, 8, 8) == timing.scl_high,
        field_of(timing.packed() as u32, 0, 8) == timing.scl_low,
        field_of(timing.packed() as u32, 24, 4) == 0,
{
    lemma_packed_word(
        timing.prescaler as u32,
        timing.data_setup as u32,
        timing.data_hold as u32,
        timing.scl_high as u32,
        timing.scl_low as u32,
    );
}

/// Packing loses nothing: unpacking a packed timing gives the timing back,
/// so two valid timings that pack to the same word are the same timing.
pub proof fn lemma_pack_round_trip(timing: TimingConfig)
    requires
        timing.wf(),
    ensures
        unpacked(timing.packed() as u32) == timing,
{
    lemma_packed_fields(timing);
}

} // verus!
