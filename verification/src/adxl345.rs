//! The data format settings of the accelerometer.
use vstd::prelude::*;

verus! {

/// The operand of the data format register, one bit per setting.
#[derive(Debug, Clone, Copy, PartialEq, Eq, Structural)]
pub struct DataFormatFlags {
    pub bits: u8,
}

/// Applies a self-test force to the sensor.
pub const SELF_TEST: u8 = 0b1000_0000;

/// Three-wire SPI mode.
pub const SPI: u8 = 0b0100_0000;

/// Interrupts are active low.
pub const INT_INVERT: u8 = 0b0010_0000;

/// Full resolution mode.
pub const FULL_RES: u8 = 0b0000_1000;

/// Left-justified output.
pub const JUSTIFY: u8 = 0b0000_0100;

/// High bit of the range.
pub const RANGE_HI: u8 = 0b0000_0010;

/// Low bit of the range.
pub const RANGE_LO: u8 = 0b0000_0001;

/// The measurement ranges.
#[allow(non_camel_case_types)]
#[derive(Debug, Clone, Copy, PartialEq, Eq, Structural)]
pub enum DataFormatRange {
    /// ±2g
    PLUSMINUS_2G,
    /// ±4g
    PLUSMINUS_4G,
    /// ±8g
    PLUSMINUS_8G,
    /// ±16g
    PLUSMINUS_16G,
}

impl DataFormatRange {
    /// The two range bits that stand for the range.
    pub open spec fn spec_bits(self) -> DataFormatFlags {
        match self {
            DataFormatRange::PLUSMINUS_2G => DataFormatFlags { bits: 0 },
            DataFormatRange::PLUSMINUS_4G => DataFormatFlags { bits: 1 },
            DataFormatRange::PLUSMINUS_8G => DataFormatFlags { bits: 2 },
            DataFormatRange::PLUSMINUS_16G => DataFormatFlags { bits: 3 },
        }
    }

    pub fn bits(self) -> (r: DataFormatFlags)
        ensures
            r == self.spec_bits(),
    {
        proof {
            assert(2u8 | 1u8 == 3u8) by (bit_vector);
        }
        match self {
            DataFormatRange::PLUSMINUS_2G => DataFormatFlags::empty(),
            DataFormatRange::PLUSMINUS_4G => DataFormatFlags { bits: RANGE_LO },
            DataFormatRange::PLUSMINUS_8G => DataFormatFlags { bits: RANGE_HI },
            DataFormatRange::PLUSMINUS_16G => DataFormatFlags { bits: RANGE_HI | RANGE_LO },
        }
    }

    /// The range in g.
    pub fn g(self) -> (r: u8)
        ensures
            r == match self {
                DataFormatRange::PLUSMINUS_2G => 2u8,
                DataFormatRange::PLUSMINUS_4G => 4u8,
                DataFormatRange::PLUSMINUS_8G => 8u8,
                DataFormatRange::PLUSMINUS_16G => 16u8,
            },
    {
        match self {
            DataFormatRange::PLUSMINUS_2G => 2,
            DataFormatRange::PLUSMINUS_4G => 4,
            DataFormatRange::PLUSMINUS_8G => 8,
            DataFormatRange::PLUSMINUS_16G => 16,
        }
    }
}

impl DataFormatFlags {
    /// The range that the two range bits stand for.
    pub open spec fn spec_range(self) -> DataFormatRange {
        if self.bits & 3 == 3 {
            DataFormatRange::PLUSMINUS_16G
        } else if self.bits & 3 == 2 {
            DataFormatRange::PLUSMINUS_8G
        } else if self.bits & 3 == 1 {
            DataFormatRange::PLUSMINUS_4G
        } else {
            DataFormatRange::PLUSMINUS_2G
        }
    }

    /// No setting: four-wire SPI, active-high interrupts, 10-bit mode, right-justified, ±2g.
    pub fn empty() -> (r: DataFormatFlags)
        ensures
            r.bits == 0,
    {
        DataFormatFlags { bits: 0 }
    }

    /// The default settings: none.
    pub fn default() -> (r: DataFormatFlags)
        ensures
            r.bits == 0,
    {
        DataFormatFlags::empty()
    }

    /// Whether all bits of `flag` are set.
    pub fn contains(self, flag: u8) -> (r: bool)
        ensures
            r == (self.bits & flag == flag),
    {
        self.bits & flag == flag
    }

    /// The settings of both.
    pub fn union(self, other: DataFormatFlags) -> (r: DataFormatFlags)
        ensures
            r.bits == self.bits | other.bits,
    {
        DataFormatFlags { bits: self.bits | other.bits }
    }

    /// The range that the flags select.
    pub fn range(self) -> (r: DataFormatRange)
        ensures
            r == self.spec_range(),
    {
        let b: u8 = self.bits;
        proof {
            assert((b & 2 == 2 && b & 1 == 1) <==> b & 3 == 3) by (bit_vector);
            assert((b & 2 == 2 && b & 1 != 1) <==> b & 3 == 2) by (bit_vector);
            assert((b & 2 != 2 && b & 1 == 1) <==> b & 3 == 1) by (bit_vector);
        }
        if self.contains(RANGE_HI) {
            if self.contains(RANGE_LO) {
                DataFormatRange::PLUSMINUS_16G
            } else {
                DataFormatRange::PLUSMINUS_8G
            }
        } else if self.contains(RANGE_LO) {
            DataFormatRange::PLUSMINUS_4G
        } else {
            DataFormatRange::PLUSMINUS_2G
        }
    }
}

/// A range survives the round trip through its bits.
pub proof fn lemma_range_round_trip(range: DataFormatRange)
    ensures
        range.spec_bits().spec_range() == range,
{
    assert(0u8 & 3 == 0 && 1u8 & 3 == 1 && 2u8 & 3 == 2 && 3u8 & 3 == 3) by (bit_vector);
}

/// The accelerometer's settings as the driver last wrote them.
#[derive(Debug, Clone, Copy, PartialEq, Eq, Structural)]
pub struct Adxl345 {
    pub data_format: DataFormatFlags,
}

impl Adxl345 {
    /// The driver with the default data format.
    pub fn default() -> (r: Adxl345)
        ensures
            r.data_format.bits == 0,
    {
        Adxl345 { data_format: DataFormatFlags::default() }
    }

    /// Takes a new data format and returns the operand to write to the data format register.
    pub fn set_data_format(&mut self, data_format: DataFormatFlags) -> (operand: u8)
        ensures
            final(self).data_format == data_format,
            operand == data_format.bits,
    {
        self.data_format = data_format;
        data_format.bits
    }
}

} // verus!
