//! Driver core for the H3LIS200DL three-axis accelerometer.
//!
//! The device sits on a two-wire bus and is reached through byte-wide
//! registers. This crate decides which bus transactions to make and what their
//! replies mean; it performs none. The caller owns the bus: it carries out
//! each [`ReadTransaction`] or [`WriteTransaction`] that the driver hands out
//! and gives the reply back.

use vstd::prelude::*;

pub mod reg;

use crate::reg::{Register, DEVICE_ID, I2C_SUB_MULTI};

verus! {

/// A write-then-read bus transaction: write the byte `register` to the device
/// at `address`, then read `length` bytes from it, without releasing the bus
/// in between.
#[derive(Clone, Copy, Debug, PartialEq, Eq, Structural)]
pub struct ReadTransaction {
    pub address: u8,
    pub register: u8,
    pub length: usize,
}

/// A write bus transaction: write the two bytes `register` and `value`, in
/// this order, to the device at `address`.
#[derive(Clone, Copy, Debug, PartialEq, Eq, Structural)]
pub struct WriteTransaction {
    pub address: u8,
    pub register: u8,
    pub value: u8,
}

/// Why the driver gave up.
#[derive(Debug, PartialEq, Eq)]
pub enum H3LIS200DLError<T> {
    /// The device answered the identity read with this byte, which is not
    /// [`DEVICE_ID`].
    WrongChipId(u8),
    /// The bus failed to carry out a transaction.
    I2CError(T),
}

impl<T> From<T> for H3LIS200DLError<T> {
    fn from(value: T) -> (e: Self) {
        Self::I2CError(value)
    }
}

impl<T> vstd::std_specs::convert::FromSpecImpl<T> for H3LIS200DLError<T> {
    open spec fn obeys_from_spec() -> bool {
        true
    }

    open spec fn from_spec(value: T) -> Self {
        Self::I2CError(value)
    }
}

/// Acceleration along the three axes, in counts of the sensor.
#[derive(Clone, Copy, Debug, PartialEq, Eq, Structural)]
pub struct AccelCounts {
    pub x: i16,
    pub y: i16,
    pub z: i16,
}

/// What one count is worth, in hundredths of the unit of acceleration.
pub const SCALE_HUNDREDTHS: i32 = 78;

impl AccelCounts {
    /// Returns the acceleration along the three axes, X first, in hundredths
    /// of the unit of acceleration.
    pub fn to_hundredths(&self) -> (h: (i32, i32, i32))
        ensures
            h.0 == SCALE_HUNDREDTHS * self.x,
            h.1 == SCALE_HUNDREDTHS * self.y,
            h.2 == SCALE_HUNDREDTHS * self.z,
    {
        (
            SCALE_HUNDREDTHS * (self.x as i32),
            SCALE_HUNDREDTHS * (self.y as i32),
            SCALE_HUNDREDTHS * (self.z as i32),
        )
    }
}

/// The number that two bytes hold as a little-endian 16-bit value in two's
/// complement.
pub open spec fn raw_sample(low: u8, high: u8) -> int {
    if high < 128 {
        low + 256 * high
    } else {
        low + 256 * high - 65536
    }
}

/// The sample that two bytes of output data hold, in counts: their 16-bit
/// value without its four lowest bits, which carry no data. Dropping them
/// rounds towards negative infinity, so the sign is kept.
pub open spec fn sample_count(low: u8, high: u8) -> int {
    raw_sample(low, high) / 16
}

/// Returns the sample that two bytes of output data hold.
fn sample(low: u8, high: u8) -> (count: i16)
    ensures
        count == sample_count(low, high),
{
    let shifted: u16 = (high as u16) << 8;
    assert(shifted == 256 * high) by (bit_vector)
        requires
            shifted == (high as u16) << 8,
    ;
    let unsigned: u16 = (low as u16) + shifted;
    let raw: i16 = #[verifier::truncate] (unsigned as i16);
    assert(raw == if unsigned < 32768 {
        unsigned as int
    } else {
        unsigned - 65536
    }) by (bit_vector)
        requires
            raw == unsigned as i16,
    ;
    let count: i16 = raw >> 4;
    assert(count == (raw as int) / 16) by (bit_vector)
        requires
            count == raw >> 4,
    ;
    count
}

/// Handle on a device whose identity has been verified.
#[derive(Debug)]
pub struct H3LIS200DL {
    addr: u8,
}

impl H3LIS200DL {
    /// The bus address of the device.
    pub closed spec fn address(self) -> u8 {
        self.addr
    }

    /// Returns the transaction that reads the identity of the device at bus
    /// address `addr`.
    pub fn get_device_id(addr: u8) -> (t: ReadTransaction)
        ensures
            t == (ReadTransaction { address: addr, register: 0x0F, length: 1 }),
    {
        ReadTransaction { address: addr, register: Register::WHO_AM_I.addr(), length: 1 }
    }

    /// Makes the handle on the device at bus address `addr`, given the reply
    /// to the transaction of [`Self::get_device_id`]: the byte read, or the
    /// failure of the bus.
    ///
    /// There is a handle only for a device that has answered with
    /// [`DEVICE_ID`]. Any other byte is handed back as it was read, and a
    /// failure of the bus is passed on.
    pub fn new<T>(addr: u8, reply: Result<u8, T>) -> (r: Result<Self, H3LIS200DLError<T>>)
        ensures
            r is Ok <==> reply == Ok::<u8, T>(DEVICE_ID),
            r matches Ok(sens) ==> sens.address() == addr,
            reply matches Ok(id) ==> id != DEVICE_ID ==> r == Err::<Self, H3LIS200DLError<T>>(
                H3LIS200DLError::WrongChipId(id),
            ),
            reply matches Err(e) ==> r == Err::<Self, H3LIS200DLError<T>>(
                H3LIS200DLError::I2CError(e),
            ),
    {
        let detected_chip_id = match reply {
            Ok(id) => id,
            Err(e) => {
                return Err(H3LIS200DLError::from(e));
            },
        };
        if detected_chip_id != DEVICE_ID {
            return Err(H3LIS200DLError::WrongChipId(detected_chip_id));
        }
        Ok(Self { addr })
    }

    /// Returns the transaction that reads one register.
    pub fn read_reg(&self, reg: Register) -> (t: ReadTransaction)
        ensures
            t == (ReadTransaction {
                address: self.address(),
                register: reg.address(),
                length: 1,
            }),
    {
        ReadTransaction { address: self.addr, register: reg.addr(), length: 1 }
    }

    /// Returns the transaction that reads `length` consecutive registers,
    /// starting at `reg`. The register address goes out with the multi-byte
    /// read flag set.
    pub fn read_regs(&self, reg: Register, length: usize) -> (t: ReadTransaction)
        ensures
            t == (ReadTransaction {
                address: self.address(),
                register: reg.multi_read_address(),
                length,
            }),
            t.register == reg.address() | I2C_SUB_MULTI,
    {
        let address = reg.addr();
        assert(address | 0x80 == address + 0x80) by (bit_vector)
            requires
                address < 0x80,
        ;
        ReadTransaction { address: self.addr, register: address | I2C_SUB_MULTI, length }
    }

    /// Returns the transaction that writes `value` to one register.
    pub fn write_reg(&self, reg: Register, value: u8) -> (t: WriteTransaction)
        ensures
            t == (WriteTransaction { address: self.address(), register: reg.address(), value }),
    {
        WriteTransaction { address: self.addr, register: reg.addr(), value }
    }

    /// Returns the transaction that reads the output data of the three axes:
    /// six bytes, starting at `OUT_X`.
    pub fn accel_request(&self) -> (t: ReadTransaction)
        ensures
            t == (ReadTransaction { address: self.address(), register: 0xA9, length: 6 }),
    {
        self.read_regs(Register::OUT_X, 6)
    }

    /// Converts the reply to the transaction of [`Self::accel_request`] into
    /// the acceleration along the three axes.
    ///
    /// The six bytes hold the samples of X, Y and Z, in this order, each as
    /// two bytes with the low byte first. A failure of the bus is passed on;
    /// the conversion itself cannot fail.
    pub fn get_accel<T>(&self, reply: Result<[u8; 6], T>) -> (r: Result<
        AccelCounts,
        H3LIS200DLError<T>,
    >)
        ensures
            r is Ok <==> reply is Ok,
            reply matches Ok(buf) ==> r matches Ok(counts) && counts.x == sample_count(buf[0], buf[1]),
            reply matches Ok(buf) ==> r matches Ok(counts) && counts.y == sample_count(buf[2], buf[3]),
            reply matches Ok(buf) ==> r matches Ok(counts) && counts.z == sample_count(buf[4], buf[5]),
            reply matches Err(e) ==> r == Err::<AccelCounts, H3LIS200DLError<T>>(
                H3LIS200DLError::I2CError(e),
            ),
    {
        let buf = match reply {
            Ok(buf) => buf,
            Err(e) => {
                return Err(H3LIS200DLError::from(e));
            },
        };
        Ok(
            AccelCounts {
                x: sample(buf[0], buf[1]),
                y: sample(buf[2], buf[3]),
                z: sample(buf[4], buf[5]),
            },
        )
    }
}

} // verus!
