//! Register map of the H3LIS200DL: register addresses, the identity constant,
//! and the packing of configuration values into control-register bytes.

use vstd::prelude::*;

verus! {

/// Bus address of the device when its address-select pin is low.
pub const ADDR_PRIMARY: u8 = 0b0001_1000;

/// Bus address of the device when its address-select pin is high.
pub const ADDR_SECONDARY: u8 = 0b0001_1001;

/// Flag in a register address that makes the device step through consecutive
/// registers during one read.
pub const I2C_SUB_MULTI: u8 = 0b1000_0000;

/// Value of the `WHO_AM_I` register on a genuine device.
pub const DEVICE_ID: u8 = 0b0011_0010;

/// The registers of the device.
#[allow(clippy::upper_case_acronyms, non_camel_case_types)]
#[derive(Clone, Copy, Debug, PartialEq, Eq, Structural)]
pub enum Register {
    WHO_AM_I,
    CTRL_REG1,
    CTRL_REG2,
    CTRL_REG3,
    CTRL_REG4,
    CTRL_REG5,
    HP_FILTER_RESET,
    REFERENCE,
    STATUS_REG,
    OUT_X,
    OUT_Y,
    OUT_Z,
    INT1_CFG,
    INT1_SRC,
    INT1_THS,
    INT1_DURATION,
    INT2_CFG,
    INT2_SRC,
    INT2_THS,
    INT2_DURATION,
}

impl Register {
    /// The one-byte address of the register on the device.
    pub open spec fn address(self) -> u8 {
        match self {
            Register::WHO_AM_I => 0x0F,
            Register::CTRL_REG1 => 0x20,
            Register::CTRL_REG2 => 0x21,
            Register::CTRL_REG3 => 0x22,
            Register::CTRL_REG4 => 0x23,
            Register::CTRL_REG5 => 0x24,
            Register::HP_FILTER_RESET => 0x25,
            Register::REFERENCE => 0x26,
            Register::STATUS_REG => 0x27,
            Register::OUT_X => 0x29,
            Register::OUT_Y => 0x2B,
            Register::OUT_Z => 0x2D,
            Register::INT1_CFG => 0x30,
            Register::INT1_SRC => 0x31,
            Register::INT1_THS => 0x32,
            Register::INT1_DURATION => 0x33,
            Register::INT2_CFG => 0x34,
            Register::INT2_SRC => 0x35,
            Register::INT2_THS => 0x36,
            Register::INT2_DURATION => 0x37,
        }
    }

    /// The address with the multi-byte read flag set. Every register address
    /// is below the flag, so setting the flag adds its value.
    pub open spec fn multi_read_address(self) -> u8 {
        (self.address() + 0x80) as u8
    }

    /// Returns the address of the register.
    pub fn addr(&self) -> (a: u8)
        ensures
            a == self.address(),
    {
        match self {
            Register::WHO_AM_I => 0x0F,
            Register::CTRL_REG1 => 0x20,
            Register::CTRL_REG2 => 0x21,
            Register::CTRL_REG3 => 0x22,
            Register::CTRL_REG4 => 0x23,
            Register::CTRL_REG5 => 0x24,
            Register::HP_FILTER_RESET => 0x25,
            Register::REFERENCE => 0x26,
            Register::STATUS_REG => 0x27,
            Register::OUT_X => 0x29,
            Register::OUT_Y => 0x2B,
            Register::OUT_Z => 0x2D,
            Register::INT1_CFG => 0x30,
            Register::INT1_SRC => 0x31,
            Register::INT1_THS => 0x32,
            Register::INT1_DURATION => 0x33,
            Register::INT2_CFG => 0x34,
            Register::INT2_SRC => 0x35,
            Register::INT2_THS => 0x36,
            Register::INT2_DURATION => 0x37,
        }
    }

    /// Two different registers have different addresses, and no address
    /// reaches into the multi-byte read flag.
    pub proof fn lemma_addresses(a: Register, b: Register)
        ensures
            a.address() < I2C_SUB_MULTI,
            a.address() == b.address() ==> a == b,
    {
    }
}

/// Power mode and, in the low-power modes, the output data rate.
#[derive(Clone, Copy, Debug, PartialEq, Eq, Hash, Structural)]
pub enum PowerMode {
    PowerDown,
    NormalMode,
    HzHalf,
    Hz1,
    Hz2,
    Hz5,
    Hz10,
}

impl PowerMode {
    /// The pattern that stands for the mode in bits 7 to 5 of `CTRL_REG1`,
    /// in place (the other bits are zero).
    pub open spec fn pattern(self) -> u8 {
        match self {
            PowerMode::PowerDown => 0b0000_0000,
            PowerMode::NormalMode => 0b0010_0000,
            PowerMode::HzHalf => 0b0100_0000,
            PowerMode::Hz1 => 0b0110_0000,
            PowerMode::Hz2 => 0b1000_0000,
            PowerMode::Hz5 => 0b1010_0000,
            PowerMode::Hz10 => 0b1100_0000,
        }
    }

    /// The mode that a pattern stands for. Only seven of the eight patterns
    /// of the field are bound to a mode; every other byte stands for none.
    pub open spec fn of_pattern(bits: u8) -> Option<PowerMode> {
        if bits == 0b0000_0000 {
            Some(PowerMode::PowerDown)
        } else if bits == 0b0010_0000 {
            Some(PowerMode::NormalMode)
        } else if bits == 0b0100_0000 {
            Some(PowerMode::HzHalf)
        } else if bits == 0b0110_0000 {
            Some(PowerMode::Hz1)
        } else if bits == 0b1000_0000 {
            Some(PowerMode::Hz2)
        } else if bits == 0b1010_0000 {
            Some(PowerMode::Hz5)
        } else if bits == 0b1100_0000 {
            Some(PowerMode::Hz10)
        } else {
            None
        }
    }

    /// Returns the bit pattern of the mode.
    pub fn bits(&self) -> (b: u8)
        ensures
            b == self.pattern(),
    {
        match self {
            PowerMode::PowerDown => 0b0000_0000,
            PowerMode::NormalMode => 0b0010_0000,
            PowerMode::HzHalf => 0b0100_0000,
            PowerMode::Hz1 => 0b0110_0000,
            PowerMode::Hz2 => 0b1000_0000,
            PowerMode::Hz5 => 0b1010_0000,
            PowerMode::Hz10 => 0b1100_0000,
        }
    }

    /// Returns the mode bound to a bit pattern, if there is one.
    pub fn from_bits(bits: u8) -> (m: Option<PowerMode>)
        ensures
            m == Self::of_pattern(bits),
    {
        match bits {
            0b0000_0000 => Some(PowerMode::PowerDown),
            0b0010_0000 => Some(PowerMode::NormalMode),
            0b0100_0000 => Some(PowerMode::HzHalf),
            0b0110_0000 => Some(PowerMode::Hz1),
            0b1000_0000 => Some(PowerMode::Hz2),
            0b1010_0000 => Some(PowerMode::Hz5),
            0b1100_0000 => Some(PowerMode::Hz10),
            _ => None,
        }
    }

    /// Modes and patterns are bound one to one: the pattern of a mode stands
    /// for that mode, and a pattern stands for a mode only if it is the
    /// pattern of that mode.
    pub proof fn lemma_bijection(mode: PowerMode, bits: u8)
        ensures
            Self::of_pattern(mode.pattern()) == Some(mode),
            Self::of_pattern(bits) == Some(mode) <==> mode.pattern() == bits,
    {
    }
}

/// Output data rate in normal mode. Each rate comes with the cut-off
/// frequency of the low-pass filter that the device applies at that rate.
#[derive(Clone, Copy, Debug, PartialEq, Eq, Hash, Structural)]
pub enum DataRate {
    Odr50,
    Odr100,
    Odr400,
    Odr1000,
}

impl DataRate {
    /// The pattern that stands for the rate in bits 4 and 3 of `CTRL_REG1`,
    /// in place (the other bits are zero).
    pub open spec fn pattern(self) -> u8 {
        match self {
            DataRate::Odr50 => 0b0000_0000,
            DataRate::Odr100 => 0b0000_1000,
            DataRate::Odr400 => 0b0001_0000,
            DataRate::Odr1000 => 0b0001_1000,
        }
    }

    /// The rate that a pattern stands for. All four patterns of the field are
    /// bound to a rate; every other byte stands for none.
    pub open spec fn of_pattern(bits: u8) -> Option<DataRate> {
        if bits == 0b0000_0000 {
            Some(DataRate::Odr50)
        } else if bits == 0b0000_1000 {
            Some(DataRate::Odr100)
        } else if bits == 0b0001_0000 {
            Some(DataRate::Odr400)
        } else if bits == 0b0001_1000 {
            Some(DataRate::Odr1000)
        } else {
            None
        }
    }

    /// The cut-off frequency of the low-pass filter at this rate.
    pub open spec fn cutoff_frequency(self) -> u32 {
        match self {
            DataRate::Odr50 => 37,
            DataRate::Odr100 => 74,
            DataRate::Odr400 => 292,
            DataRate::Odr1000 => 780,
        }
    }

    /// Returns the cut-off frequency of the low-pass filter at this rate.
    pub fn low_pass_filter_cutoff_frequency(&self) -> (f: u32)
        ensures
            f == self.cutoff_frequency(),
    {
        match self {
            DataRate::Odr50 => 37,
            DataRate::Odr100 => 74,
            DataRate::Odr400 => 292,
            DataRate::Odr1000 => 780,
        }
    }

    /// Returns the bit pattern of the rate.
    pub fn bits(&self) -> (b: u8)
        ensures
            b == self.pattern(),
    {
        match self {
            DataRate::Odr50 => 0b0000_0000,
            DataRate::Odr100 => 0b0000_1000,
            DataRate::Odr400 => 0b0001_0000,
            DataRate::Odr1000 => 0b0001_1000,
        }
    }

    /// Returns the rate bound to a bit pattern, if there is one.
    pub fn from_bits(bits: u8) -> (d: Option<DataRate>)
        ensures
            d == Self::of_pattern(bits),
    {
        match bits {
            0b0000_0000 => Some(DataRate::Odr50),
            0b0000_1000 => Some(DataRate::Odr100),
            0b0001_0000 => Some(DataRate::Odr400),
            0b0001_1000 => Some(DataRate::Odr1000),
            _ => None,
        }
    }

    /// Rates and patterns are bound one to one: the pattern of a rate stands
    /// for that rate, and a pattern stands for a rate only if it is the
    /// pattern of that rate.
    pub proof fn lemma_bijection(rate: DataRate, bits: u8)
        ensures
            Self::of_pattern(rate.pattern()) == Some(rate),
            Self::of_pattern(bits) == Some(rate) <==> rate.pattern() == bits,
    {
    }
}

/// Why a register byte and a configuration value could not be converted into
/// each other.
#[derive(Clone, Copy, Debug, PartialEq, Eq, Structural)]
pub enum EncodingError {
    /// A field holds a bit pattern that no value is bound to. Carries the
    /// content of that field, in place.
    Unrepresented(u8),
}

/// Conversion between the value of a register and the byte that the device
/// holds for it.
pub trait RegisterEncoding: Sized {
    /// The value that a register byte stands for, if it stands for one.
    spec fn decoded(reading: u8) -> Option<Self>;

    /// The register byte that stands for the value, if there is one.
    spec fn encoded(&self) -> Option<u8>;

    /// Decodes a byte read from the register.
    fn from_u8(reading: u8) -> (r: Result<Self, EncodingError>)
        ensures
            r is Ok <==> Self::decoded(reading) is Some,
            r matches Ok(value) ==> Self::decoded(reading) == Some(value),
    ;

    /// Encodes the value into the byte to write to the register.
    fn to_u8(&self) -> (r: Result<u8, EncodingError>)
        ensures
            r is Ok <==> self.encoded() is Some,
            r matches Ok(byte) ==> self.encoded() == Some(byte),
    ;
}

/// Bits 7 to 5 of a register byte, in place: the byte under the mask
/// `0b1110_0000`.
pub open spec fn power_mode_field(reading: u8) -> u8 {
    (reading - reading % 32) as u8
}

/// Bits 4 and 3 of a register byte, in place: the byte under the mask
/// `0b0001_1000`.
pub open spec fn data_rate_field(reading: u8) -> u8 {
    (reading % 32 - reading % 8) as u8
}

/// Whether the bit of the given weight (1, 2, 4, ...) is set in a register
/// byte.
pub open spec fn bit_is_set(reading: u8, weight: int) -> bool {
    (reading as int / weight) % 2 == 1
}

/// The weight of an axis-enable bit where the axis is enabled, zero where it
/// is not.
pub open spec fn flag(enabled: bool, weight: u8) -> u8 {
    if enabled {
        weight
    } else {
        0
    }
}

/// The fields of a register byte are what the masks of the bit layout select.
pub proof fn lemma_fields_by_mask(reading: u8)
    ensures
        power_mode_field(reading) == reading & 0b1110_0000,
        data_rate_field(reading) == reading & 0b0001_1000,
        bit_is_set(reading, 4) == (reading & 0b0000_0100 != 0),
        bit_is_set(reading, 2) == (reading & 0b0000_0010 != 0),
        bit_is_set(reading, 1) == (reading & 0b0000_0001 != 0),
{
    assert(reading & 0b1110_0000 == reading - reading % 32) by (bit_vector);
    assert(reading & 0b0001_1000 == reading % 32 - reading % 8) by (bit_vector);
    assert((reading & 0b0000_0100 != 0) == ((reading / 4) % 2 == 1)) by (bit_vector);
    assert((reading & 0b0000_0010 != 0) == ((reading / 2) % 2 == 1)) by (bit_vector);
    assert((reading & 0b0000_0001 != 0) == ((reading / 1) % 2 == 1)) by (bit_vector);
}

/// Content of the first control register.
#[derive(Clone, Copy, Debug, PartialEq, Eq, Structural)]
pub struct CtrlReg1 {
    pub power_mode: PowerMode,
    pub data_rate: DataRate,
    pub x_axis_enabled: bool,
    pub y_axis_enabled: bool,
    pub z_axis_enabled: bool,
}

impl CtrlReg1 {
    /// The register byte of the value: the power mode in bits 7 to 5, the
    /// data rate in bits 4 and 3, then the enable bits of the Z, Y and X axes
    /// in bits 2, 1 and 0. No two fields share a bit, so the byte is the sum
    /// of the fields.
    pub open spec fn byte(self) -> u8 {
        (self.power_mode.pattern() + self.data_rate.pattern() + flag(self.z_axis_enabled, 4)
            + flag(self.y_axis_enabled, 2) + flag(self.x_axis_enabled, 1)) as u8
    }

    /// A byte stands for a value unless its power-mode field holds `0b111`,
    /// the one pattern that no power mode is bound to.
    pub proof fn lemma_unrepresented(reading: u8)
        ensures
            Self::decoded(reading) is None <==> reading >= 0b1110_0000,
            Self::decoded(reading) is None <==> reading & 0b1110_0000 == 0b1110_0000,
    {
        lemma_fields_by_mask(reading);
        assert((reading & 0b1110_0000 == 0b1110_0000) == (reading >= 0b1110_0000))
            by (bit_vector);
    }

    /// Every value has a byte, and decoding that byte gives the value back.
    pub proof fn lemma_decode_encode(value: CtrlReg1)
        ensures
            value.encoded() == Some(value.byte()),
            Self::decoded(value.byte()) == Some(value),
    {
    }

    /// Encoding the value that a byte stands for gives the byte back, axis
    /// bits included.
    pub proof fn lemma_encode_decode(reading: u8)
        ensures
            Self::decoded(reading) matches Some(value) ==> value.encoded() == Some(reading),
    {
    }
}

impl RegisterEncoding for CtrlReg1 {
    /// The value whose fields are those of the byte, if both the power-mode
    /// field and the data-rate field stand for a variant.
    open spec fn decoded(reading: u8) -> Option<Self> {
        match (
            PowerMode::of_pattern(power_mode_field(reading)),
            DataRate::of_pattern(data_rate_field(reading)),
        ) {
            (Some(power_mode), Some(data_rate)) => Some(
                CtrlReg1 {
                    power_mode,
                    data_rate,
                    x_axis_enabled: bit_is_set(reading, 1),
                    y_axis_enabled: bit_is_set(reading, 2),
                    z_axis_enabled: bit_is_set(reading, 4),
                },
            ),
            _ => None,
        }
    }

    open spec fn encoded(&self) -> Option<u8> {
        Some(self.byte())
    }

    /// Decodes a byte read from `CTRL_REG1`. Fails on the bytes from
    /// `0b1110_0000` up, whose power-mode field stands for no power mode, and
    /// on no others.
    fn from_u8(reading: u8) -> (r: Result<Self, EncodingError>)
        ensures
            r is Err <==> reading >= 0b1110_0000,
            r is Err ==> r == Err::<Self, EncodingError>(
                EncodingError::Unrepresented(0b1110_0000),
            ),
    {
        proof {
            lemma_fields_by_mask(reading);
            Self::lemma_unrepresented(reading);
        }
        let pm: u8 = reading & 0b1110_0000;
        let power_mode = match PowerMode::from_bits(pm) {
            Some(mode) => mode,
            None => {
                return Err(EncodingError::Unrepresented(pm));
            },
        };
        let dr: u8 = reading & 0b0001_1000;
        let data_rate = match DataRate::from_bits(dr) {
            Some(rate) => rate,
            None => {
                return Err(EncodingError::Unrepresented(dr));
            },
        };
        let z = reading & 0b0000_0100 != 0;
        let y = reading & 0b0000_0010 != 0;
        let x = reading & 0b0000_0001 != 0;
        Ok(Self { power_mode, data_rate, x_axis_enabled: x, y_axis_enabled: y, z_axis_enabled: z })
    }

    /// Encodes the value into the byte to write to `CTRL_REG1`: the patterns
    /// of its power mode and its data rate and the bits of the enabled axes,
    /// combined by bitwise or. Never fails.
    fn to_u8(&self) -> (r: Result<u8, EncodingError>)
        ensures
            r == Ok::<u8, EncodingError>(self.byte()),
            r == Ok::<u8, EncodingError>(
                self.power_mode.pattern() | self.data_rate.pattern() | flag(self.z_axis_enabled, 4)
                    | flag(self.y_axis_enabled, 2) | flag(self.x_axis_enabled, 1),
            ),
    {
        let pm_bits = self.power_mode.bits();
        let dr_bits = self.data_rate.bits();
        let z: u8 = if self.z_axis_enabled { 0b0000_0100 } else { 0 };
        let y: u8 = if self.y_axis_enabled { 0b0000_0010 } else { 0 };
        let x: u8 = if self.x_axis_enabled { 0b0000_0001 } else { 0 };
        assert(pm_bits | dr_bits | z | y | x == pm_bits + dr_bits + z + y + x) by (bit_vector)
            requires
                pm_bits % 32 == 0,
                dr_bits % 8 == 0 && dr_bits < 32,
                z == 0 || z == 4,
                y == 0 || y == 2,
                x == 0 || x == 1,
        ;
        Ok(pm_bits | dr_bits | z | y | x)
    }
}

} // verus!
