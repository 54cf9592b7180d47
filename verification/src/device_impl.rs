//! The device handle and its operations.

use crate::conversion::{
    convert_fifo_status, convert_interrupt_status, convert_status, convert_temperature_status,
    fifo_status_of, i16_from_le, interrupt_status_of, le_i16, status_of, temperature_status_of,
};
use crate::interface::{DeviceInterface, I2cInterface, RegisterTransport, SpiInterface};
use crate::mode::MagOneShot;
use crate::register_address::{Register, WHO_AM_I_A_VAL, WHO_AM_I_M_VAL};
use crate::shadow::{
    accel_mode_of, accel_scale_of, commit_writes, enable_fifo_plan, init_plan, lemma_view_domain,
    reset_values, restart_fifo_plan, shadowed_registers, RegisterWrite, ShadowRegisters,
};
use crate::trace::{
    burst_outcome, failure_of, map_ok, write_transfers, DeviceState, Transfer,
};
use crate::types::{
    AccelMode, AccelScale, Error, FifoMode, FifoStatus, IntNumber, InterruptStatus, Measurement,
    Status, TemperatureStatus, UnscaledMeasurement,
};
use std::marker::PhantomData;
use vstd::prelude::*;

verus! {

/// LSM303AGR device driver
pub struct Lsm303agr<DI: DeviceInterface, MODE> {
    /// The way to the device, with the record of its use.
    iface: DI,
    /// The last value written to each control register.
    shadow: ShadowRegisters,
    _mag_mode: PhantomData<MODE>,
}

impl<DI: DeviceInterface, MODE> View for Lsm303agr<DI, MODE> {
    type V = DeviceState<Error<DI::CommE, DI::PinE>>;

    closed spec fn view(&self) -> Self::V {
        DeviceState { shadow: self.shadow@, trace: self.iface.trace() }
    }
}

impl<I2C: RegisterTransport> Lsm303agr<I2cInterface<I2C>, MagOneShot> {
    /// Create new instance of the LSM303AGR device communicating through I2C.
    pub fn new_with_i2c(i2c: I2C) -> (dev: Self)
        ensures
            dev@.shadow == reset_values(),
            dev@.trace == Seq::<Transfer<Error<I2C::CommE, I2C::PinE>>>::empty(),
            dev.iface().bus() == i2c,
    {
        Lsm303agr {
            iface: I2cInterface::new(i2c),
            shadow: ShadowRegisters::reset_defaults(),
            _mag_mode: PhantomData,
        }
    }
}

impl<I2C: RegisterTransport, MODE> Lsm303agr<I2cInterface<I2C>, MODE> {
    /// Destroy driver instance, return I2C bus.
    pub fn destroy(self) -> (i2c: I2C)
        ensures
            i2c == self.iface().bus(),
    {
        self.iface.release()
    }
}

impl<SPI: RegisterTransport, CSXL, CSMAG> Lsm303agr<SpiInterface<SPI, CSXL, CSMAG>, MagOneShot> {
    /// Create new instance of the LSM303AGR device communicating through SPI.
    pub fn new_with_spi(spi: SPI, chip_select_accel: CSXL, chip_select_mag: CSMAG) -> (dev: Self)
        ensures
            dev@.shadow == reset_values(),
            dev@.trace == Seq::<Transfer<Error<SPI::CommE, SPI::PinE>>>::empty(),
            dev.iface().bus() == spi,
            dev.iface().chip_selects() == (chip_select_accel, chip_select_mag),
    {
        Lsm303agr {
            iface: SpiInterface::new(spi, chip_select_accel, chip_select_mag),
            shadow: ShadowRegisters::reset_defaults(),
            _mag_mode: PhantomData,
        }
    }
}

impl<SPI: RegisterTransport, CSXL, CSMAG, MODE> Lsm303agr<SpiInterface<SPI, CSXL, CSMAG>, MODE> {
    /// Destroy driver instance, return SPI bus instance and chip select pins.
    pub fn destroy(self) -> (parts: (SPI, CSXL, CSMAG))
        ensures
            parts == (
                self.iface().bus(),
                self.iface().chip_selects().0,
                self.iface().chip_selects().1,
            ),
    {
        self.iface.release()
    }
}

impl<DI: DeviceInterface, MODE> Lsm303agr<DI, MODE> {
    /// The interface that the handle holds.
    pub closed spec fn iface(&self) -> DI {
        self.iface
    }

    /// The shadow of a handle has the shadowed registers for its keys, and
    /// no other.
    pub proof fn lemma_shadow_domain(&self)
        ensures
            self@.shadow.dom() == shadowed_registers(),
    {
        lemma_view_domain(self.shadow);
    }

    /// Issues the writes of `plan` in order. Each write that the transport
    /// acknowledges is committed to the shadow; the first that fails ends
    /// the run.
    fn write_through<const N: usize>(&mut self, plan: &[RegisterWrite; N]) -> (result: Result<
        (),
        Error<DI::CommE, DI::PinE>,
    >)
        ensures
            final(self)@.after_writes(old(self)@, plan@, result),
    {
        let ghost before = self@;
        let mut i: usize = 0;
        while i < N
            invariant
                i <= N,
                plan@.len() == N,
                before == old(self)@,
                self@.shadow == commit_writes(before.shadow, plan@.take(i as int)),
                self@.trace == before.trace + write_transfers(
                    plan@,
                    i as int,
                    None::<Error<DI::CommE, DI::PinE>>,
                ),
            decreases N - i,
        {
            let write = plan[i];
            let outcome = self.iface.write_register(write.address, write.value);
            assert(self@.trace =~= before.trace + write_transfers(
                plan@,
                i + 1,
                failure_of(outcome),
            ));
            match outcome {
                Ok(()) => {
                    self.shadow.commit(write);
                },
                Err(e) => {
                    return Err(e);
                },
            }
            assert(plan@.take(i + 1).drop_last() =~= plan@.take(i as int));
            i += 1;
        }
        Ok(())
    }

    /// Initialize registers
    pub fn init(&mut self) -> (result: Result<(), Error<DI::CommE, DI::PinE>>)
        ensures
            final(self)@.after_writes(old(self)@, init_plan(old(self)@.shadow), result),
    {
        let plan = self.shadow.init_writes();
        self.write_through(&plan)
    }

    /// The shadow registers as they stand.
    pub fn shadow(&self) -> (shadow: ShadowRegisters)
        ensures
            shadow@ == self@.shadow,
    {
        self.shadow
    }

    /// Takes `shadow` for what the registers of the device hold. This is
    /// for a device that was configured before the handle was created;
    /// nothing is written to the device.
    pub fn restore(&mut self, shadow: ShadowRegisters)
        ensures
            final(self)@.shadow == shadow@,
            final(self)@.trace == old(self)@.trace,
    {
        self.shadow = shadow;
    }

    /// The operating mode of the accelerometer according to the shadow.
    pub fn get_accel_mode(&self) -> (mode: AccelMode)
        ensures
            mode == accel_mode_of(self@.shadow),
    {
        self.shadow.accel_mode()
    }

    /// The full-scale range of the accelerometer according to the shadow.
    pub fn get_accel_scale(&self) -> (scale: AccelScale)
        ensures
            scale == accel_scale_of(self@.shadow),
    {
        self.shadow.accel_scale()
    }

    /// Accelerometer status
    pub fn accel_status(&mut self) -> (status: Result<Status, Error<DI::CommE, DI::PinE>>)
        ensures
            final(self)@.after_read(old(self)@, Register::STATUS_REG_A),
            status == map_ok(final(self)@.last_byte(), |st: u8| status_of(st)),
    {
        match self.iface.read_register(Register::STATUS_REG_A) {
            Ok(st) => Ok(convert_status(st)),
            Err(e) => Err(e),
        }
    }

    /// Fifo status
    pub fn fifo_status(&mut self) -> (status: Result<FifoStatus, Error<DI::CommE, DI::PinE>>)
        ensures
            final(self)@.after_read(old(self)@, Register::FIFO_SRC_REG_A),
            status == map_ok(final(self)@.last_byte(), |st: u8| fifo_status_of(st)),
    {
        match self.iface.read_register(Register::FIFO_SRC_REG_A) {
            Ok(st) => Ok(convert_fifo_status(st)),
            Err(e) => Err(e),
        }
    }

    /// Accelerometer data
    ///
    /// Returned in mg (milli-g) where 1g is 9.8m/s².
    ///
    /// If you need the raw unscaled measurement see [`Lsm303agr::accel_data_unscaled`].
    pub fn accel_data(&mut self) -> (data: Result<Measurement, Error<DI::CommE, DI::PinE>>)
        ensures
            final(self)@.after_burst(old(self)@, Register::OUT_X_L_A, 6),
            data == map_ok(
                final(self)@.last_bytes(),
                |bytes: Seq<u8>|
                    UnscaledMeasurement::spec_from_registers(
                        bytes,
                        accel_mode_of(old(self)@.shadow),
                    ).scaled(accel_mode_of(old(self)@.shadow), accel_scale_of(old(self)@.shadow)),
            ),
    {
        let unscaled = self.accel_data_unscaled()?;

        let mode = self.get_accel_mode();
        let scale = self.get_accel_scale();

        Ok(unscaled.scaled(mode, scale))
    }

    /// Accelerometer data
    ///
    /// Fills `data` with accelerometer output registers in one burst: the
    /// bulk version of [`Lsm303agr::accel_data_unscaled`], for reading
    /// several samples out of the FIFO.
    pub fn accel_data_n(&mut self, data: &mut [u8]) -> (result: Result<
        (),
        Error<DI::CommE, DI::PinE>,
    >)
        ensures
            final(self)@.after_burst(old(self)@, Register::OUT_X_L_A, old(data)@.len()),
            final(self)@.last_bytes() == burst_outcome(result, final(data)@),
    {
        self.iface.read_burst(Register::OUT_X_L_A, data)
    }

    /// Unscaled accelerometer data
    pub fn accel_data_unscaled(&mut self) -> (data: Result<
        UnscaledMeasurement,
        Error<DI::CommE, DI::PinE>,
    >)
        ensures
            final(self)@.after_burst(old(self)@, Register::OUT_X_L_A, 6),
            data == map_ok(
                final(self)@.last_bytes(),
                |bytes: Seq<u8>|
                    UnscaledMeasurement::spec_from_registers(
                        bytes,
                        accel_mode_of(old(self)@.shadow),
                    ),
            ),
    {
        let mut buffer = [0u8;6];
        self.iface.read_burst(Register::OUT_X_L_A, &mut buffer)?;

        let mode = self.get_accel_mode();

        Ok(UnscaledMeasurement::from_registers(&buffer, mode))
    }

    /// Magnetometer status
    pub fn mag_status(&mut self) -> (status: Result<Status, Error<DI::CommE, DI::PinE>>)
        ensures
            final(self)@.after_read(old(self)@, Register::STATUS_REG_M),
            status == map_ok(final(self)@.last_byte(), |st: u8| status_of(st)),
    {
        match self.iface.read_register(Register::STATUS_REG_M) {
            Ok(st) => Ok(convert_status(st)),
            Err(e) => Err(e),
        }
    }

    /// Get accelerometer device ID
    pub fn accelerometer_id(&mut self) -> (id: Result<u8, Error<DI::CommE, DI::PinE>>)
        ensures
            final(self)@.after_read(old(self)@, Register::WHO_AM_I_A),
            id == final(self)@.last_byte(),
    {
        self.iface.read_register(Register::WHO_AM_I_A)
    }

    /// Read and verify the accelerometer device ID
    pub fn accelerometer_is_detected(&mut self) -> (detected: Result<
        bool,
        Error<DI::CommE, DI::PinE>,
    >)
        ensures
            final(self)@.after_read(old(self)@, Register::WHO_AM_I_A),
            detected == map_ok(final(self)@.last_byte(), |id: u8| id == WHO_AM_I_A_VAL),
    {
        Ok(self.accelerometer_id()? == WHO_AM_I_A_VAL)
    }

    /// Get magnetometer device ID
    pub fn magnetometer_id(&mut self) -> (id: Result<u8, Error<DI::CommE, DI::PinE>>)
        ensures
            final(self)@.after_read(old(self)@, Register::WHO_AM_I_M),
            id == final(self)@.last_byte(),
    {
        self.iface.read_register(Register::WHO_AM_I_M)
    }

    /// Read and verify the magnetometer device ID
    pub fn magnetometer_is_detected(&mut self) -> (detected: Result<
        bool,
        Error<DI::CommE, DI::PinE>,
    >)
        ensures
            final(self)@.after_read(old(self)@, Register::WHO_AM_I_M),
            detected == map_ok(final(self)@.last_byte(), |id: u8| id == WHO_AM_I_M_VAL),
    {
        Ok(self.magnetometer_id()? == WHO_AM_I_M_VAL)
    }

    /// Read temperature sensor data
    pub fn temperature_data(&mut self) -> (data: Result<i16, Error<DI::CommE, DI::PinE>>)
        ensures
            final(self)@.after_burst(old(self)@, Register::OUT_TEMP_L_A, 2),
            data == map_ok(
                final(self)@.last_bytes(),
                |bytes: Seq<u8>| le_i16(bytes[0], bytes[1]) as i16,
            ),
    {
        let mut buffer = [0u8;2];
        self.iface.read_burst(Register::OUT_TEMP_L_A, &mut buffer)?;
        Ok(i16_from_le(buffer[0], buffer[1]))
    }

    /// Temperature sensor status
    pub fn temperature_status(&mut self) -> (status: Result<
        TemperatureStatus,
        Error<DI::CommE, DI::PinE>,
    >)
        ensures
            final(self)@.after_read(old(self)@, Register::STATUS_REG_AUX_A),
            status == map_ok(final(self)@.last_byte(), |st: u8| temperature_status_of(st)),
    {
        match self.iface.read_register(Register::STATUS_REG_AUX_A) {
            Ok(st) => Ok(convert_temperature_status(st)),
            Err(e) => Err(e),
        }
    }

    /// Interrupt status
    pub fn interrupt_status(&mut self) -> (status: Result<
        InterruptStatus,
        Error<DI::CommE, DI::PinE>,
    >)
        ensures
            final(self)@.after_read(old(self)@, Register::INT1_SRC_A),
            status == map_ok(final(self)@.last_byte(), |st: u8| interrupt_status_of(st)),
    {
        match self.iface.read_register(Register::INT1_SRC_A) {
            Ok(st) => Ok(convert_interrupt_status(st)),
            Err(e) => Err(e),
        }
    }

    /// Interrupt status, as the byte of the interrupt source register
    pub fn interrupt_status_u8(&mut self) -> (byte: Result<u8, Error<DI::CommE, DI::PinE>>)
        ensures
            final(self)@.after_read(old(self)@, Register::INT1_SRC_A),
            byte == final(self)@.last_byte(),
    {
        self.iface.read_register(Register::INT1_SRC_A)
    }

    /// Control register 3 of the accelerometer, as the device holds it
    pub fn rg3(&mut self) -> (byte: Result<u8, Error<DI::CommE, DI::PinE>>)
        ensures
            final(self)@.after_read(old(self)@, Register::CTRL_REG3_A),
            byte == final(self)@.last_byte(),
    {
        self.iface.read_register(Register::CTRL_REG3_A)
    }

    /// Fifo status, as the byte of the FIFO source register
    pub fn fifo_status_u8(&mut self) -> (byte: Result<u8, Error<DI::CommE, DI::PinE>>)
        ensures
            final(self)@.after_read(old(self)@, Register::FIFO_SRC_REG_A),
            byte == final(self)@.last_byte(),
    {
        self.iface.read_register(Register::FIFO_SRC_REG_A)
    }

    /// Enable fifo mode.
    ///
    /// Fifo stores up to 32 readings of each of the 3 channels. Choose an
    /// interrupt, and a fifo mode. Reading the accelerometer will return
    /// oldest data first. Using accel_data_n will allow you to burst read up
    /// to 32 readings assuming they're available.
    ///
    /// The complete FIFO read would be performed faster than 1*ODR, which means
    /// that using a standard I2C, the selectable ODR must be lower than 57 Hz.
    /// If a fast I2C mode is used (max rate 400 kHz), the selectable ODR must
    /// be lower than 228 Hz.
    pub fn enable_fifo(
        &mut self,
        mode: FifoMode,
        line: IntNumber,
        latched: bool,
        active_high: bool,
    ) -> (result: Result<(), Error<DI::CommE, DI::PinE>>)
        ensures
            final(self)@.after_writes(
                old(self)@,
                enable_fifo_plan(old(self)@.shadow, mode, line, latched, active_high),
                result,
            ),
    {
        let plan = self.shadow.enable_fifo_writes(mode, line, latched, active_high);
        self.write_through(&plan)
    }

    /// Restart the FifoMode::Fifo mode.
    ///
    /// For FifoMode::Fifo after the registers fill up and overrun, you must
    /// start again. The device arms the FIFO when its mode changes, so the
    /// mode is written twice: bypass, then FIFO. The restart ends in FIFO
    /// mode whatever mode was selected before it, stream and stream-to-FIFO
    /// included.
    pub fn restart_fifo(&mut self) -> (result: Result<(), Error<DI::CommE, DI::PinE>>)
        ensures
            final(self)@.after_writes(old(self)@, restart_fifo_plan(old(self)@.shadow), result),
    {
        let plan = self.shadow.restart_fifo_writes();
        self.write_through(&plan)
    }
}

} // verus!
