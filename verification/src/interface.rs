//! The way to the device: the caller's transport and the two interfaces to it.

use crate::trace::{burst_transfer, write_transfer, Traced, Transfer};
use crate::types::Error;
use vstd::prelude::*;

verus! {

/// Access to the registers of the device over a bus.
///
/// An implementation frames each transfer for its bus: it selects the
/// accelerometer or the magnetometer by the register's address, and on a
/// burst it has the device step through the registers, so that the bytes
/// come in the order of their addresses. A transfer that fails says so:
/// the driver repeats nothing and hands the error to its caller.
pub trait RegisterTransport {
    /// Error of the bus
    type CommE;

    /// Error of a chip-select pin
    type PinE;

    /// Reads the register at `address`.
    fn read_register(&mut self, address: u8) -> Result<u8, Error<Self::CommE, Self::PinE>>;

    /// Writes `value` to the register at `address`.
    fn write_register(&mut self, address: u8, value: u8) -> Result<
        (),
        Error<Self::CommE, Self::PinE>,
    >;

    /// Fills `data` with the registers from `address` on.
    fn read_burst(&mut self, address: u8, data: &mut [u8]) -> Result<
        (),
        Error<Self::CommE, Self::PinE>,
    >;
}

/// A device on a shared bus, where the transport addresses it.
pub struct I2cInterface<I2C: RegisterTransport> {
    i2c: Traced<I2C>,
}

/// A device on a serial link, with one chip-select line for the
/// accelerometer and one for the magnetometer. The link does the framing;
/// the two lines are kept for it, are never driven by the interface, and
/// are handed back with it.
pub struct SpiInterface<SPI: RegisterTransport, CSXL, CSMAG> {
    spi: Traced<SPI>,
    cs_xl: CSXL,
    cs_mag: CSMAG,
}

impl<I2C: RegisterTransport> DeviceInterface for I2cInterface<I2C> {
    type CommE = I2C::CommE;
    type PinE = I2C::PinE;
    closed spec fn trace(&self) -> Seq<Transfer<Error<I2C::CommE, I2C::PinE>>> { self.i2c.trace() }
    /// Asks the bus for the register; the record gains this read and its answer.
    fn read_register(&mut self, address: u8) -> (byte: Result<u8, Error<Self::CommE, Self::PinE>>)
        ensures final(self).trace() == old(self).trace().push(Transfer::Read { address, byte }),
    { self.i2c.read_register(address) }
    /// Hands the write to the bus; the record gains it and how it went.
    fn write_register(&mut self, address: u8, value: u8) -> (outcome: Result<
        (),
        Error<Self::CommE, Self::PinE>,
    >)
        ensures final(self).trace() == old(self).trace().push(write_transfer(address, value, outcome)),
    { self.i2c.write_register(address, value) }
    /// Asks the bus for the burst; the record gains it and what came back.
    fn read_burst(&mut self, address: u8, data: &mut [u8]) -> (result: Result<
        (),
        Error<Self::CommE, Self::PinE>,
    >)
        ensures final(self).trace() == old(self).trace().push(burst_transfer(address, old(data)@.len(), result, final(data)@)),
    { self.i2c.read_burst(address, data) }
}

impl<SPI: RegisterTransport, CSXL, CSMAG> DeviceInterface for SpiInterface<SPI, CSXL, CSMAG> {
    type CommE = SPI::CommE;
    type PinE = SPI::PinE;
    closed spec fn trace(&self) -> Seq<Transfer<Error<SPI::CommE, SPI::PinE>>> { self.spi.trace() }
    /// Asks the link for the register; the record gains this read and its answer.
    fn read_register(&mut self, address: u8) -> (byte: Result<u8, Error<Self::CommE, Self::PinE>>)
        ensures
            final(self).trace() == old(self).trace().push(Transfer::Read { address, byte }),
            final(self).chip_selects() == old(self).chip_selects(),
    {
        self.spi.read_register(address)
    }
    /// Hands the write to the link; the record gains it and how it went.
    fn write_register(&mut self, address: u8, value: u8) -> (outcome: Result<
        (),
        Error<Self::CommE, Self::PinE>,
    >)
        ensures
            final(self).trace() == old(self).trace().push(write_transfer(address, value, outcome)),
            final(self).chip_selects() == old(self).chip_selects(),
    {
        self.spi.write_register(address, value)
    }
    /// Asks the link for the burst; the record gains it and what came back.
    fn read_burst(&mut self, address: u8, data: &mut [u8]) -> (result: Result<
        (),
        Error<Self::CommE, Self::PinE>,
    >)
        ensures
            final(self).trace() == old(self).trace().push(burst_transfer(address, old(data)@.len(), result, final(data)@)),
            final(self).chip_selects() == old(self).chip_selects(),
    {
        self.spi.read_burst(address, data)
    }
}

/// The way to the device as the driver uses it: every transfer goes to the
/// bus as it is asked for, and the interface keeps the record of it.
///
/// The two interfaces of this crate implement it, and a handle is only ever
/// made with one of them.
pub trait DeviceInterface {
    /// Error of the bus
    type CommE;

    /// Error of a chip-select pin
    type PinE;

    /// Every transfer made on the bus through this interface, oldest first.
    spec fn trace(&self) -> Seq<Transfer<Error<Self::CommE, Self::PinE>>>;

    /// Reads the register at `address`.
    fn read_register(&mut self, address: u8) -> (byte: Result<u8, Error<Self::CommE, Self::PinE>>)
        ensures
            final(self).trace() == old(self).trace().push(Transfer::Read { address, byte }),
    ;

    /// Writes `value` to the register at `address`.
    fn write_register(&mut self, address: u8, value: u8) -> (outcome: Result<
        (),
        Error<Self::CommE, Self::PinE>,
    >)
        ensures
            final(self).trace() == old(self).trace().push(write_transfer(address, value, outcome)),
    ;

    /// Fills `data` with the registers from `address` on.
    fn read_burst(&mut self, address: u8, data: &mut [u8]) -> (result: Result<
        (),
        Error<Self::CommE, Self::PinE>,
    >)
        ensures
            final(self).trace() == old(self).trace().push(
                burst_transfer(address, old(data)@.len(), result, final(data)@),
            ),
    ;
}

impl<I2C: RegisterTransport> I2cInterface<I2C> {
    /// The bus that the interface holds.
    pub closed spec fn bus(&self) -> I2C {
        self.i2c.transport()
    }

    /// An interface to the device on `i2c`, with nothing transferred yet.
    pub fn new(i2c: I2C) -> (iface: Self)
        ensures
            iface.bus() == i2c,
            iface.trace() == Seq::<Transfer<Error<I2C::CommE, I2C::PinE>>>::empty(),
    {
        I2cInterface { i2c: Traced::new(i2c) }
    }

    /// Gives the bus back.
    pub fn release(self) -> (i2c: I2C)
        ensures
            i2c == self.bus(),
    {
        self.i2c.into_inner()
    }
}

impl<SPI: RegisterTransport, CSXL, CSMAG> SpiInterface<SPI, CSXL, CSMAG> {
    /// The link that the interface holds.
    pub closed spec fn bus(&self) -> SPI {
        self.spi.transport()
    }

    /// The chip-select lines of the accelerometer and of the magnetometer.
    pub closed spec fn chip_selects(&self) -> (CSXL, CSMAG) {
        (self.cs_xl, self.cs_mag)
    }

    /// An interface to the device on `spi`, with nothing transferred yet.
    pub fn new(spi: SPI, chip_select_accel: CSXL, chip_select_mag: CSMAG) -> (iface: Self)
        ensures
            iface.bus() == spi,
            iface.chip_selects() == (chip_select_accel, chip_select_mag),
            iface.trace() == Seq::<Transfer<Error<SPI::CommE, SPI::PinE>>>::empty(),
    {
        SpiInterface { spi: Traced::new(spi), cs_xl: chip_select_accel, cs_mag: chip_select_mag }
    }

    /// Gives the link and the two chip-select lines back.
    pub fn release(self) -> (parts: (SPI, CSXL, CSMAG))
        ensures
            parts == (self.bus(), self.chip_selects().0, self.chip_selects().1),
    {
        (self.spi.into_inner(), self.cs_xl, self.cs_mag)
    }
}

} // verus!
