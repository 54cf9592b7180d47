//! From what the device stores to what the caller reads: status bytes to
//! flags, and output registers to counts and to milli-g.

use crate::config::{bit, lemma_single_bit_masks};
use crate::register_address::BitFlags;
use crate::types::{
    AccelMode, AccelScale, FifoStatus, InterruptStatus, Measurement, Status, TemperatureStatus,
    UnscaledMeasurement,
};
use vstd::arithmetic::power2::{lemma2_to64, pow2};
use vstd::prelude::*;

verus! {

/// The flags of `STATUS_REG_A` and of `STATUS_REG_M`: new data in the low
/// half, overrun in the high half; in each half X, Y, Z, then all three.
pub open spec fn status_of(st: u8) -> Status {
    Status {
        xyz_overrun: bit(st, 7),
        z_overrun: bit(st, 6),
        y_overrun: bit(st, 5),
        x_overrun: bit(st, 4),
        xyz_new_data: bit(st, 3),
        z_new_data: bit(st, 2),
        y_new_data: bit(st, 1),
        x_new_data: bit(st, 0),
    }
}

/// The flags of `FIFO_SRC_REG_A` and, in its five low bits, the number of
/// samples not read yet.
pub open spec fn fifo_status_of(st: u8) -> FifoStatus {
    FifoStatus {
        watermark: bit(st, 7),
        overrun: bit(st, 6),
        empty: bit(st, 5),
        fss_unread: st % 32,
    }
}

/// The two flags of `STATUS_REG_AUX_A`.
pub open spec fn temperature_status_of(st: u8) -> TemperatureStatus {
    TemperatureStatus { overrun: bit(st, 6), new_data: bit(st, 2) }
}

/// The flags of `INT1_SRC_A`.
pub open spec fn interrupt_status_of(st: u8) -> InterruptStatus {
    InterruptStatus {
        active: bit(st, 6),
        z_high: bit(st, 5),
        z_low: bit(st, 4),
        y_high: bit(st, 3),
        y_low: bit(st, 2),
        x_high: bit(st, 1),
        x_low: bit(st, 0),
    }
}

/// Decodes a data status byte.
pub fn convert_status(st: u8) -> (s: Status)
    ensures
        s == status_of(st),
{
    proof {
        lemma_single_bit_masks(st);
    }
    Status {
        xyz_overrun: (st & BitFlags::XYZOR) != 0,
        z_overrun: (st & BitFlags::ZOR) != 0,
        y_overrun: (st & BitFlags::YOR) != 0,
        x_overrun: (st & BitFlags::XOR) != 0,
        xyz_new_data: (st & BitFlags::XYZDR) != 0,
        z_new_data: (st & BitFlags::ZDR) != 0,
        y_new_data: (st & BitFlags::YDR) != 0,
        x_new_data: (st & BitFlags::XDR) != 0,
    }
}

/// Decodes a FIFO status byte.
pub fn convert_fifo_status(st: u8) -> (s: FifoStatus)
    ensures
        s == fifo_status_of(st),
{
    proof {
        lemma_single_bit_masks(st);
        assert(st & 0x1F == st % 32) by (bit_vector);
    }
    FifoStatus {
        watermark: (st & BitFlags::FIFO_WTM) != 0,
        overrun: (st & BitFlags::FIFO_OVRN) != 0,
        empty: (st & BitFlags::FIFO_EMPTY) != 0,
        fss_unread: st & BitFlags::FIFO_FSS_MASK,
    }
}

/// Decodes a temperature status byte.
pub fn convert_temperature_status(st: u8) -> (s: TemperatureStatus)
    ensures
        s == temperature_status_of(st),
{
    proof {
        lemma_single_bit_masks(st);
    }
    TemperatureStatus {
        overrun: (st & BitFlags::TOR) != 0,
        new_data: (st & BitFlags::TDA) != 0,
    }
}

/// Decodes an interrupt source byte.
pub fn convert_interrupt_status(st: u8) -> (s: InterruptStatus)
    ensures
        s == interrupt_status_of(st),
{
    proof {
        lemma_single_bit_masks(st);
    }
    InterruptStatus {
        active: (st & BitFlags::INT1_SRC_IA) != 0,
        z_high: (st & BitFlags::INT1_SRC_ZH) != 0,
        z_low: (st & BitFlags::INT1_SRC_ZL) != 0,
        y_high: (st & BitFlags::INT1_SRC_YH) != 0,
        y_low: (st & BitFlags::INT1_SRC_YL) != 0,
        x_high: (st & BitFlags::INT1_SRC_XH) != 0,
        x_low: (st & BitFlags::INT1_SRC_XL) != 0,
    }
}

impl AccelMode {
    /// How many low bits of a 16-bit output word are padding in this mode.
    pub open spec fn spec_resolution_shift(self) -> u8 {
        match self {
            AccelMode::PowerDown => 0,
            AccelMode::HighResolution => 4,
            AccelMode::Normal => 6,
            AccelMode::LowPower => 8,
        }
    }

    /// Milli-g per count in this mode at the given full-scale range.
    pub open spec fn spec_scaling_factor(self, scale: AccelScale) -> i32 {
        match self {
            AccelMode::PowerDown => 0,
            AccelMode::HighResolution => match scale {
                AccelScale::G2 => 1,
                AccelScale::G4 => 2,
                AccelScale::G8 => 4,
                AccelScale::G16 => 8,
            },
            AccelMode::Normal => match scale {
                AccelScale::G2 => 4,
                AccelScale::G4 => 8,
                AccelScale::G8 => 16,
                AccelScale::G16 => 32,
            },
            AccelMode::LowPower => match scale {
                AccelScale::G2 => 16,
                AccelScale::G4 => 32,
                AccelScale::G8 => 64,
                AccelScale::G16 => 128,
            },
        }
    }

    /// The number of padding bits that a raw output word is shifted right by.
    #[verifier::when_used_as_spec(spec_resolution_shift)]
    pub fn resolution_shift(self) -> (shift: u8)
        ensures
            shift == self.spec_resolution_shift(),
    {
        match self {
            AccelMode::PowerDown => 0,
            AccelMode::HighResolution => 4,
            AccelMode::Normal => 6,
            AccelMode::LowPower => 8,
        }
    }

    /// The factor that turns counts into milli-g. A device that is powered
    /// down measures nothing, and its factor is 0.
    #[verifier::when_used_as_spec(spec_scaling_factor)]
    pub fn scaling_factor(self, scale: AccelScale) -> (factor: i32)
        ensures
            factor == self.spec_scaling_factor(scale),
    {
        match self {
            AccelMode::PowerDown => 0,
            AccelMode::HighResolution => match scale {
                AccelScale::G2 => 1,
                AccelScale::G4 => 2,
                AccelScale::G8 => 4,
                AccelScale::G16 => 8,
            },
            AccelMode::LowPower => match scale {
                AccelScale::G2 => 16,
                AccelScale::G4 => 32,
                AccelScale::G8 => 64,
                AccelScale::G16 => 128,
            },
            AccelMode::Normal => match scale {
                AccelScale::G2 => 4,
                AccelScale::G4 => 8,
                AccelScale::G8 => 16,
                AccelScale::G16 => 32,
            },
        }
    }
}

impl AccelScale {
    /// The largest acceleration of the range, in g.
    pub open spec fn range_g(self) -> int {
        match self {
            AccelScale::G2 => 2,
            AccelScale::G4 => 4,
            AccelScale::G8 => 8,
            AccelScale::G16 => 16,
        }
    }
}

/// Outside power-down the factor doubles with the range and with every
/// padding bit: it is `range_g * 2^shift / 32`.
pub proof fn lemma_scaling_factor_formula(mode: AccelMode, scale: AccelScale)
    ensures
        mode == AccelMode::PowerDown ==> mode.scaling_factor(scale) == 0,
        mode != AccelMode::PowerDown ==> 32 * mode.scaling_factor(scale) == scale.range_g() * pow2(
            mode.resolution_shift() as nat,
        ),
{
    lemma2_to64();
}

/// The signed number that the two bytes hold, low byte first, in two's
/// complement.
pub open spec fn le_i16(lo: u8, hi: u8) -> int {
    let word = lo as int + 256 * (hi as int);
    if word < 0x8000 {
        word
    } else {
        word - 0x1_0000
    }
}

/// The count in a left-justified output word read in `mode`: the word
/// without its padding bits, rounded down.
pub open spec fn axis_count(word: int, mode: AccelMode) -> int {
    match mode {
        AccelMode::PowerDown => word,
        AccelMode::HighResolution => word / 16,
        AccelMode::Normal => word / 64,
        AccelMode::LowPower => word / 256,
    }
}

/// The count is the word shifted right by the padding bits of the mode, that
/// is, divided by two to their number and rounded down.
pub proof fn lemma_axis_count_is_shift(word: int, mode: AccelMode)
    ensures
        axis_count(word, mode) == word / (pow2(mode.resolution_shift() as nat) as int),
{
    lemma2_to64();
    match mode {
        AccelMode::PowerDown => {
            assert(pow2(0) == 1);
            assert(word / 1 == word);
        },
        AccelMode::HighResolution => {
            assert(pow2(4) == 16);
        },
        AccelMode::Normal => {
            assert(pow2(6) == 64);
        },
        AccelMode::LowPower => {
            assert(pow2(8) == 256);
        },
    }
}

/// Decodes a little-endian signed 16-bit value.
pub fn i16_from_le(lo: u8, hi: u8) -> (v: i16)
    ensures
        v == le_i16(lo, hi),
{
    let word: u16 = (lo as u16) | ((hi as u16) << 8);
    proof {
        assert(((lo as u16) | ((hi as u16) << 8)) == lo + 256 * hi) by (bit_vector);
        assert(word as i16 == if word < 0x8000 {
            word as int
        } else {
            word - 0x1_0000
        }) by (bit_vector);
    }
    word as i16
}

/// Removes the padding bits of one output word.
pub fn count_of_word(word: i16, mode: AccelMode) -> (count: i16)
    ensures
        count == axis_count(word as int, mode),
{
    let shift: u8 = mode.resolution_shift();
    proof {
        assert(word >> 0u8 == word && word >> 4u8 == word / 16 && word >> 6u8 == word / 64 && word
            >> 8u8 == word / 256) by (bit_vector);
    }
    word >> shift
}

impl UnscaledMeasurement {
    /// The counts held by the six output registers `OUT_X_L_A` to
    /// `OUT_Z_H_A`, read in one burst while the device was in `mode`.
    pub open spec fn spec_from_registers(data: Seq<u8>, mode: AccelMode) -> UnscaledMeasurement {
        UnscaledMeasurement {
            x: axis_count(le_i16(data[0], data[1]), mode) as i16,
            y: axis_count(le_i16(data[2], data[3]), mode) as i16,
            z: axis_count(le_i16(data[4], data[5]), mode) as i16,
        }
    }

    /// The measurement in milli-g: each count times the factor of the mode
    /// and the range.
    pub open spec fn spec_scaled(self, mode: AccelMode, scale: AccelScale) -> Measurement {
        let factor = mode.scaling_factor(scale);
        Measurement {
            x: (self.x * factor) as i32,
            y: (self.y * factor) as i32,
            z: (self.z * factor) as i32,
        }
    }

    /// Decodes a burst of the six accelerometer output registers.
    pub fn from_registers(data: &[u8; 6], mode: AccelMode) -> (m: UnscaledMeasurement)
        ensures
            m == Self::spec_from_registers(data@, mode),
            m.x == axis_count(le_i16(data[0], data[1]), mode),
            m.y == axis_count(le_i16(data[2], data[3]), mode),
            m.z == axis_count(le_i16(data[4], data[5]), mode),
    {
        UnscaledMeasurement {
            x: count_of_word(i16_from_le(data[0], data[1]), mode),
            y: count_of_word(i16_from_le(data[2], data[3]), mode),
            z: count_of_word(i16_from_le(data[4], data[5]), mode),
        }
    }

    /// Scales the counts to milli-g.
    #[verifier::when_used_as_spec(spec_scaled)]
    pub fn scaled(self, mode: AccelMode, scale: AccelScale) -> (m: Measurement)
        ensures
            m == self.spec_scaled(mode, scale),
            m.x == self.x * mode.scaling_factor(scale),
            m.y == self.y * mode.scaling_factor(scale),
            m.z == self.z * mode.scaling_factor(scale),
    {
        let factor: i32 = mode.scaling_factor(scale);
        proof {
            lemma_product_fits(self.x, factor);
            lemma_product_fits(self.y, factor);
            lemma_product_fits(self.z, factor);
        }
        Measurement {
            x: (self.x as i32) * factor,
            y: (self.y as i32) * factor,
            z: (self.z as i32) * factor,
        }
    }
}

/// A count times a factor of the table fits in 32 bits.
proof fn lemma_product_fits(count: i16, factor: i32)
    requires
        0 <= factor <= 128,
    ensures
        -0x40_0000 <= count * factor <= 0x40_0000,
{
    assert(-0x40_0000 <= count * factor <= 0x40_0000) by (nonlinear_arith)
        requires
            -0x8000 <= count <= 0x7FFF,
            0 <= factor <= 128,
    ;
}

} // verus!
