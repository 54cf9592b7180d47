use lsm303agr::mode::MagOneShot;
use lsm303agr::{
    AccelMode, AccelScale, Config, DeviceInterface, Error, FifoMode, FifoStatus, I2cInterface,
    IntNumber,
    InterruptStatus, Lsm303agr, Measurement, Register, RegisterTransport, ShadowRegisters,
    SpiInterface, Status, TemperatureStatus, UnscaledMeasurement,
};

#[derive(Debug, Clone, Copy, PartialEq)]
struct BusFault(u32);

#[derive(Debug, Clone, Copy, PartialEq)]
struct PinFault;

#[derive(Debug, Clone, Copy, PartialEq)]
enum Call {
    Write(u8, u8),
    Read(u8),
    Burst(u8, usize),
}

/// A register file that answers every transfer, notes each one, and can be
/// told to fail the n-th of them.
struct Stub {
    registers: [u8; 256],
    calls: Vec<Call>,
    fail_at: Option<(usize, Error<BusFault, PinFault>)>,
}

impl Stub {
    fn new() -> Stub {
        Stub { registers: [0; 256], calls: Vec::new(), fail_at: None }
    }

    fn failing_at(n: usize) -> Stub {
        Stub { fail_at: Some((n, Error::Comm(BusFault(n as u32)))), ..Stub::new() }
    }

    fn with(mut self, address: u8, value: u8) -> Stub {
        self.registers[address as usize] = value;
        self
    }

    fn note(&mut self, call: Call) -> Result<(), Error<BusFault, PinFault>> {
        self.calls.push(call);
        match self.fail_at.take() {
            Some((n, e)) if n == self.calls.len() => Err(e),
            other => {
                self.fail_at = other;
                Ok(())
            }
        }
    }

    fn writes(&self) -> Vec<(u8, u8)> {
        self.calls
            .iter()
            .filter_map(|c| match c {
                Call::Write(a, v) => Some((*a, *v)),
                _ => None,
            })
            .collect()
    }
}

impl RegisterTransport for Stub {
    type CommE = BusFault;
    type PinE = PinFault;

    fn read_register(&mut self, address: u8) -> Result<u8, Error<BusFault, PinFault>> {
        self.note(Call::Read(address))?;
        Ok(self.registers[address as usize])
    }

    fn write_register(&mut self, address: u8, value: u8) -> Result<(), Error<BusFault, PinFault>> {
        self.note(Call::Write(address, value))?;
        self.registers[address as usize] = value;
        Ok(())
    }

    fn read_burst(&mut self, address: u8, data: &mut [u8]) -> Result<(), Error<BusFault, PinFault>> {
        self.note(Call::Burst(address, data.len()))?;
        for (i, byte) in data.iter_mut().enumerate() {
            *byte = self.registers[address as usize + i];
        }
        Ok(())
    }
}

type Device = Lsm303agr<I2cInterface<Stub>, MagOneShot>;

fn device(stub: Stub) -> Device {
    Lsm303agr::new_with_i2c(stub)
}

fn zeroed() -> ShadowRegisters {
    let c = Config { bits: 0 };
    ShadowRegisters {
        ctrl_reg1_a: c,
        ctrl_reg3_a: c,
        ctrl_reg4_a: c,
        ctrl_reg5_a: c,
        ctrl_reg6_a: c,
        cfg_reg_a_m: c,
        cfg_reg_c_m: c,
        temp_cfg_reg_a: c,
        fifo_ctrl_reg_a: c,
        int_ctrl_reg_m: c,
    }
}

/// Output data rate 100 Hz, high resolution, plus or minus 4 g.
fn high_resolution_4g() -> ShadowRegisters {
    ShadowRegisters {
        ctrl_reg1_a: Config { bits: 0x57 },
        ctrl_reg4_a: Config { bits: 0x18 },
        ..ShadowRegisters::reset_defaults()
    }
}

fn is_comm(result: Result<(), Error<BusFault, PinFault>>, n: u32) -> bool {
    matches!(result, Err(Error::Comm(BusFault(m))) if m == n)
}

#[test]
fn fresh_handle_holds_the_reset_values() {
    let dev = device(Stub::new());
    assert_eq!(dev.shadow(), ShadowRegisters::reset_defaults());
    assert_eq!(dev.get_accel_mode(), AccelMode::PowerDown);
    assert_eq!(dev.get_accel_scale(), AccelScale::G2);
    let stub = dev.destroy();
    assert!(stub.calls.is_empty());
}

#[test]
fn init_writes_the_registers_in_order() {
    let mut dev = device(Stub::new());
    assert!(dev.init().is_ok());
    let shadow = dev.shadow();
    let stub = dev.destroy();
    assert_eq!(
        stub.calls,
        vec![
            Call::Write(Register::TEMP_CFG_REG_A, 0xC0),
            Call::Write(Register::CTRL_REG3_A, 0x00),
            Call::Write(Register::CTRL_REG4_A, 0x80),
            Call::Write(Register::CTRL_REG5_A, 0x00),
            Call::Write(Register::FIFO_CTRL_REG_A, 0x00),
            Call::Write(Register::INT_CTRL_REG_M, 0x00),
            Call::Write(Register::CFG_REG_C_M, 0x10),
        ]
    );
    assert_eq!(
        shadow,
        ShadowRegisters {
            temp_cfg_reg_a: Config { bits: 0xC0 },
            ctrl_reg4_a: Config { bits: 0x80 },
            cfg_reg_c_m: Config { bits: 0x10 },
            ..ShadowRegisters::reset_defaults()
        }
    );
}

#[test]
fn init_twice_writes_the_same_bytes_again() {
    let mut dev = device(Stub::new());
    assert!(dev.init().is_ok());
    let first = dev.shadow();
    assert!(dev.init().is_ok());
    assert_eq!(dev.shadow(), first);
    let writes = dev.destroy().writes();
    assert_eq!(writes.len(), 14);
    assert_eq!(writes[..7], writes[7..]);
}

#[test]
fn init_stops_at_the_write_that_fails() {
    let mut dev = device(Stub::failing_at(4));
    assert!(is_comm(dev.init(), 4));
    // the first three writes are in the shadow, and nothing else
    assert_eq!(
        dev.shadow(),
        ShadowRegisters {
            temp_cfg_reg_a: Config { bits: 0xC0 },
            ctrl_reg4_a: Config { bits: 0x80 },
            ..ShadowRegisters::reset_defaults()
        }
    );
    // the fourth write was tried, the fifth was not
    assert_eq!(
        dev.destroy().calls,
        vec![
            Call::Write(0x1F, 0xC0),
            Call::Write(0x22, 0x00),
            Call::Write(0x23, 0x80),
            Call::Write(0x24, 0x00),
        ]
    );
}

#[test]
fn init_failing_at_each_write_keeps_what_was_acknowledged() {
    let full = [
        (0x1F, 0xC0),
        (0x22, 0x00),
        (0x23, 0x80),
        (0x24, 0x00),
        (0x2E, 0x00),
        (0x63, 0x00),
        (0x62, 0x10),
    ];
    for n in 1..=7usize {
        let mut dev = device(Stub::failing_at(n));
        assert!(is_comm(dev.init(), n as u32));
        let mut expected = ShadowRegisters::reset_defaults();
        if n > 1 {
            expected.temp_cfg_reg_a = Config { bits: 0xC0 };
        }
        if n > 3 {
            expected.ctrl_reg4_a = Config { bits: 0x80 };
        }
        assert_eq!(dev.shadow(), expected);
        assert_eq!(dev.destroy().writes(), full[..n].to_vec());
    }
}

#[test]
fn init_after_a_failure_starts_over() {
    let mut dev = device(Stub::failing_at(2));
    assert!(dev.init().is_err());
    assert!(dev.init().is_ok());
    assert_eq!(dev.shadow().cfg_reg_c_m.bits, 0x10);
    assert_eq!(dev.destroy().writes().len(), 9);
}

#[test]
fn pin_errors_pass_through_unchanged() {
    let mut stub = Stub::new();
    stub.fail_at = Some((1, Error::Pin(PinFault)));
    let mut dev = device(stub);
    assert!(matches!(dev.init(), Err(Error::Pin(PinFault))));
    assert_eq!(dev.shadow(), ShadowRegisters::reset_defaults());

    let mut stub = Stub::new();
    stub.fail_at = Some((1, Error::InvalidInputData));
    let mut dev = device(stub);
    assert!(matches!(dev.accel_status(), Err(Error::InvalidInputData)));
}

#[test]
fn accel_status_reads_and_decodes() {
    let mut dev = device(Stub::new().with(Register::STATUS_REG_A, 0x91));
    let status = dev.accel_status().unwrap();
    assert_eq!(
        status,
        Status { xyz_overrun: true, x_overrun: true, x_new_data: true, ..Status::default() }
    );
    assert_eq!(dev.destroy().calls, vec![Call::Read(0x27)]);
}

#[test]
fn mag_status_reads_the_magnetometer_register() {
    let mut dev = device(Stub::new().with(Register::STATUS_REG_M, 0x0F).with(Register::STATUS_REG_A, 0xF0));
    let status = dev.mag_status().unwrap();
    assert_eq!(
        status,
        Status {
            xyz_new_data: true,
            x_new_data: true,
            y_new_data: true,
            z_new_data: true,
            ..Status::default()
        }
    );
    assert_eq!(dev.destroy().calls, vec![Call::Read(0x67)]);
}

#[test]
fn temperature_status_reads_and_decodes() {
    let mut dev = device(Stub::new().with(Register::STATUS_REG_AUX_A, 0x44));
    assert_eq!(
        dev.temperature_status().unwrap(),
        TemperatureStatus { overrun: true, new_data: true }
    );
    assert_eq!(dev.destroy().calls, vec![Call::Read(0x07)]);
}

#[test]
fn interrupt_status_reads_and_decodes() {
    let mut dev = device(Stub::new().with(Register::INT1_SRC_A, 0x41));
    assert_eq!(
        dev.interrupt_status().unwrap(),
        InterruptStatus {
            active: true,
            z_high: false,
            z_low: false,
            y_high: false,
            y_low: false,
            x_high: false,
            x_low: true,
        }
    );
    assert_eq!(dev.interrupt_status_u8().unwrap(), 0x41);
    assert_eq!(dev.destroy().calls, vec![Call::Read(0x31), Call::Read(0x31)]);
}

#[test]
fn fifo_status_reads_and_decodes() {
    let mut dev = device(Stub::new().with(Register::FIFO_SRC_REG_A, 0xC5));
    assert_eq!(
        dev.fifo_status().unwrap(),
        FifoStatus { watermark: true, overrun: true, empty: false, fss_unread: 5 }
    );
    assert_eq!(dev.fifo_status_u8().unwrap(), 0xC5);
    assert_eq!(dev.destroy().calls, vec![Call::Read(0x2F), Call::Read(0x2F)]);
}

#[test]
fn rg3_reads_control_register_3_from_the_device() {
    let mut dev = device(Stub::new().with(Register::CTRL_REG3_A, 0x5A));
    assert_eq!(dev.rg3().unwrap(), 0x5A);
    // the shadow is not refreshed from the device
    assert_eq!(dev.shadow().ctrl_reg3_a.bits, 0x00);
    assert_eq!(dev.destroy().calls, vec![Call::Read(0x22)]);
}

#[test]
fn reads_leave_the_shadow_alone() {
    let mut dev = device(Stub::new());
    dev.restore(high_resolution_4g());
    dev.accel_status().unwrap();
    dev.mag_status().unwrap();
    dev.fifo_status().unwrap();
    dev.temperature_status().unwrap();
    dev.interrupt_status().unwrap();
    dev.accel_data().unwrap();
    dev.temperature_data().unwrap();
    dev.accelerometer_is_detected().unwrap();
    assert_eq!(dev.shadow(), high_resolution_4g());
    assert!(dev.destroy().writes().is_empty());
}

#[test]
fn a_failed_read_is_reported() {
    let mut dev = device(Stub::failing_at(1));
    assert!(matches!(dev.accel_status(), Err(Error::Comm(BusFault(1)))));
    let mut dev = device(Stub::failing_at(1));
    assert!(matches!(dev.fifo_status(), Err(Error::Comm(BusFault(1)))));
    let mut dev = device(Stub::failing_at(1));
    assert!(matches!(dev.accel_data_unscaled(), Err(Error::Comm(BusFault(1)))));
    let mut dev = device(Stub::failing_at(1));
    assert!(matches!(dev.accel_data(), Err(Error::Comm(BusFault(1)))));
    let mut dev = device(Stub::failing_at(1));
    assert!(matches!(dev.temperature_data(), Err(Error::Comm(BusFault(1)))));
    let mut dev = device(Stub::failing_at(1));
    assert!(matches!(dev.accelerometer_id(), Err(Error::Comm(BusFault(1)))));
}

#[test]
fn accelerometer_is_detected_by_its_id() {
    let mut dev = device(Stub::new().with(Register::WHO_AM_I_A, 0x33));
    assert_eq!(dev.accelerometer_id().unwrap(), 0x33);
    assert!(dev.accelerometer_is_detected().unwrap());
    assert_eq!(dev.destroy().calls, vec![Call::Read(0x0F), Call::Read(0x0F)]);

    let mut dev = device(Stub::new().with(Register::WHO_AM_I_A, 0x40));
    assert!(!dev.accelerometer_is_detected().unwrap());
}

#[test]
fn magnetometer_is_detected_by_its_id() {
    let mut dev = device(Stub::new().with(Register::WHO_AM_I_M, 0x40));
    assert_eq!(dev.magnetometer_id().unwrap(), 0x40);
    assert!(dev.magnetometer_is_detected().unwrap());
    assert_eq!(dev.destroy().calls, vec![Call::Read(0x4F), Call::Read(0x4F)]);

    let mut dev = device(Stub::new().with(Register::WHO_AM_I_M, 0x33));
    assert!(!dev.magnetometer_is_detected().unwrap());
}

#[test]
fn a_failed_identification_is_an_error_not_an_absence() {
    let mut dev = device(Stub::failing_at(1).with(Register::WHO_AM_I_A, 0x33));
    assert!(matches!(dev.accelerometer_is_detected(), Err(Error::Comm(BusFault(1)))));
    let mut dev = device(Stub::failing_at(1).with(Register::WHO_AM_I_M, 0x40));
    assert!(matches!(dev.magnetometer_is_detected(), Err(Error::Comm(BusFault(1)))));
}

fn sample() -> Stub {
    // X = 100 << 4, Y = -50 << 4, Z = 0, low byte first
    Stub::new()
        .with(0x28, 0x40)
        .with(0x29, 0x06)
        .with(0x2A, 0xE0)
        .with(0x2B, 0xFC)
        .with(0x2C, 0x00)
        .with(0x2D, 0x00)
}

#[test]
fn accel_data_in_high_resolution_at_4g() {
    let mut dev = device(sample());
    dev.restore(high_resolution_4g());
    assert_eq!(dev.get_accel_mode(), AccelMode::HighResolution);
    assert_eq!(dev.get_accel_scale(), AccelScale::G4);
    assert_eq!(
        dev.accel_data_unscaled().unwrap(),
        UnscaledMeasurement { x: 100, y: -50, z: 0 }
    );
    assert_eq!(dev.accel_data().unwrap(), Measurement { x: 200, y: -100, z: 0 });
    assert_eq!(dev.destroy().calls, vec![Call::Burst(0x28, 6), Call::Burst(0x28, 6)]);
}

#[test]
fn accel_data_follows_the_cached_mode_and_range() {
    let mut dev = device(sample());
    // 100 Hz, low power, plus or minus 16 g
    dev.restore(ShadowRegisters {
        ctrl_reg1_a: Config { bits: 0x5F },
        ctrl_reg4_a: Config { bits: 0x30 },
        ..ShadowRegisters::reset_defaults()
    });
    assert_eq!(dev.accel_data_unscaled().unwrap(), UnscaledMeasurement { x: 6, y: -4, z: 0 });
    assert_eq!(dev.accel_data().unwrap(), Measurement { x: 768, y: -512, z: 0 });
    // 100 Hz, normal, plus or minus 2 g
    dev.restore(ShadowRegisters {
        ctrl_reg1_a: Config { bits: 0x57 },
        ..ShadowRegisters::reset_defaults()
    });
    assert_eq!(dev.accel_data_unscaled().unwrap(), UnscaledMeasurement { x: 25, y: -13, z: 0 });
    assert_eq!(dev.accel_data().unwrap(), Measurement { x: 100, y: -52, z: 0 });
}

#[test]
fn accel_data_is_zero_when_powered_down() {
    let mut dev = device(sample());
    assert_eq!(dev.get_accel_mode(), AccelMode::PowerDown);
    assert_eq!(
        dev.accel_data_unscaled().unwrap(),
        UnscaledMeasurement { x: 1600, y: -800, z: 0 }
    );
    assert_eq!(dev.accel_data().unwrap(), Measurement { x: 0, y: 0, z: 0 });
}

#[test]
fn accel_data_n_fills_the_buffer_from_the_output_registers() {
    let mut dev = device(sample());
    let mut data = [0xAAu8; 12];
    assert!(dev.accel_data_n(&mut data).is_ok());
    assert_eq!(data, [0x40, 0x06, 0xE0, 0xFC, 0, 0, 0, 0, 0, 0, 0, 0]);
    let mut none: [u8; 0] = [];
    assert!(dev.accel_data_n(&mut none).is_ok());
    assert_eq!(dev.destroy().calls, vec![Call::Burst(0x28, 12), Call::Burst(0x28, 0)]);

    let mut dev = device(Stub::failing_at(1));
    assert!(matches!(dev.accel_data_n(&mut data), Err(Error::Comm(BusFault(1)))));
}

#[test]
fn temperature_data_is_a_signed_little_endian_word() {
    let mut dev = device(Stub::new().with(0x0C, 0x80).with(0x0D, 0x02));
    assert_eq!(dev.temperature_data().unwrap(), 0x0280);
    assert_eq!(dev.destroy().calls, vec![Call::Burst(0x0C, 2)]);

    let mut dev = device(Stub::new().with(0x0C, 0x00).with(0x0D, 0xFB));
    assert_eq!(dev.temperature_data().unwrap(), -1280);
}

#[test]
fn enable_fifo_writes_in_the_required_order() {
    let mut dev = device(Stub::new());
    assert!(dev.enable_fifo(FifoMode::Fifo, IntNumber::Int1, false, false).is_ok());
    let shadow = dev.shadow();
    assert_eq!(shadow.fifo_mode(), FifoMode::Fifo);
    assert_eq!(
        shadow,
        ShadowRegisters {
            ctrl_reg3_a: Config { bits: 0x02 },
            int_ctrl_reg_m: Config { bits: 0x01 },
            ctrl_reg5_a: Config { bits: 0x40 },
            fifo_ctrl_reg_a: Config { bits: 0x40 },
            ..ShadowRegisters::reset_defaults()
        }
    );
    // the FIFO is enabled before its mode is selected
    assert_eq!(
        dev.destroy().calls,
        vec![
            Call::Write(Register::CTRL_REG3_A, 0x02),
            Call::Write(Register::INT_CTRL_REG_M, 0x01),
            Call::Write(Register::CTRL_REG5_A, 0x40),
            Call::Write(Register::FIFO_CTRL_REG_A, 0x40),
        ]
    );
}

#[test]
fn enable_fifo_with_every_option() {
    let mut dev = device(Stub::new());
    assert!(dev.enable_fifo(FifoMode::StreamToFifo, IntNumber::Int2, true, true).is_ok());
    assert_eq!(
        dev.destroy().writes(),
        vec![(0x22, 0x02), (0x63, 0x07), (0x24, 0x40), (0x2E, 0xE0)]
    );

    let mut dev = device(Stub::new());
    assert!(dev.enable_fifo(FifoMode::Stream, IntNumber::Int1, true, false).is_ok());
    assert_eq!(
        dev.destroy().writes(),
        vec![(0x22, 0x02), (0x63, 0x03), (0x24, 0x40), (0x2E, 0x80)]
    );
}

#[test]
fn enable_fifo_replaces_the_old_mode() {
    let mut dev = device(Stub::new());
    assert!(dev.enable_fifo(FifoMode::StreamToFifo, IntNumber::Int2, true, true).is_ok());
    assert!(dev.enable_fifo(FifoMode::Fifo, IntNumber::Int1, false, false).is_ok());
    let shadow = dev.shadow();
    assert_eq!(shadow.fifo_mode(), FifoMode::Fifo);
    assert_eq!(shadow.fifo_ctrl_reg_a.bits, 0x40);
    assert_eq!(shadow.int_ctrl_reg_m.bits, 0x01);
    assert_eq!(
        dev.destroy().writes()[4..],
        [(0x22, 0x02), (0x63, 0x01), (0x24, 0x40), (0x2E, 0x40)]
    );
}

#[test]
fn enable_fifo_stops_at_the_write_that_fails() {
    let mut dev = device(Stub::failing_at(3));
    assert!(is_comm(dev.enable_fifo(FifoMode::Fifo, IntNumber::Int2, true, true), 3));
    assert_eq!(
        dev.shadow(),
        ShadowRegisters {
            ctrl_reg3_a: Config { bits: 0x02 },
            int_ctrl_reg_m: Config { bits: 0x07 },
            ..ShadowRegisters::reset_defaults()
        }
    );
    assert_eq!(dev.shadow().fifo_mode(), FifoMode::Bypass);
    assert_eq!(dev.destroy().writes(), vec![(0x22, 0x02), (0x63, 0x07), (0x24, 0x40)]);
}

#[test]
fn restart_fifo_after_enable_fifo_passes_through_bypass() {
    let mut dev = device(Stub::new());
    assert!(dev.enable_fifo(FifoMode::Fifo, IntNumber::Int2, false, true).is_ok());
    assert_eq!(dev.shadow().fifo_mode(), FifoMode::Fifo);
    assert!(dev.restart_fifo().is_ok());
    assert_eq!(dev.shadow().fifo_mode(), FifoMode::Fifo);
    assert_eq!(dev.shadow().fifo_ctrl_reg_a.bits, 0x60);
    let writes = dev.destroy().writes();
    assert_eq!(writes.len(), 6);
    // bypass first, with the trigger bit kept, then FIFO mode again
    assert_eq!(writes[4..], [(0x2E, 0x20), (0x2E, 0x60)]);
}

#[test]
fn restart_fifo_ends_in_fifo_mode_from_stream_mode_too() {
    for mode in [FifoMode::Bypass, FifoMode::Stream, FifoMode::StreamToFifo] {
        let mut dev = device(Stub::new());
        assert!(dev.enable_fifo(mode, IntNumber::Int1, false, false).is_ok());
        assert_eq!(dev.shadow().fifo_mode(), mode);
        assert!(dev.restart_fifo().is_ok());
        assert_eq!(dev.shadow().fifo_mode(), FifoMode::Fifo);
        assert_eq!(dev.destroy().writes()[4..], [(0x2E, 0x00), (0x2E, 0x40)]);
    }
}

#[test]
fn restart_fifo_that_fails_half_way_leaves_bypass() {
    let mut stub = Stub::failing_at(6);
    stub.registers[0x2E] = 0;
    let mut dev = device(stub);
    assert!(dev.enable_fifo(FifoMode::Fifo, IntNumber::Int1, false, false).is_ok());
    assert!(is_comm(dev.restart_fifo(), 6));
    assert_eq!(dev.shadow().fifo_mode(), FifoMode::Bypass);
    assert_eq!(dev.destroy().writes()[4..], [(0x2E, 0x00), (0x2E, 0x40)]);
}

#[test]
fn restart_fifo_that_fails_at_once_changes_nothing() {
    let mut dev = device(Stub::failing_at(1));
    dev.restore(ShadowRegisters { fifo_ctrl_reg_a: Config { bits: 0x9F }, ..zeroed() });
    assert!(is_comm(dev.restart_fifo(), 1));
    assert_eq!(dev.shadow().fifo_ctrl_reg_a.bits, 0x9F);
    assert_eq!(dev.destroy().writes(), vec![(0x2E, 0x1F)]);
}

#[test]
fn restore_replaces_the_shadow_without_a_transfer() {
    let mut dev = device(Stub::new());
    dev.restore(high_resolution_4g());
    assert_eq!(dev.shadow(), high_resolution_4g());
    assert!(dev.init().is_ok());
    // init keeps the bits that were there
    assert_eq!(dev.shadow().ctrl_reg4_a.bits, 0x98);
    assert_eq!(dev.destroy().writes()[2], (0x23, 0x98));
}

#[test]
fn spi_handle_gives_its_parts_back() {
    let mut dev = Lsm303agr::new_with_spi(Stub::new(), "accel", 7u8);
    assert_eq!(dev.shadow(), ShadowRegisters::reset_defaults());
    assert!(dev.init().is_ok());
    let (stub, cs_accel, cs_mag) = dev.destroy();
    assert_eq!(stub.writes().len(), 7);
    assert_eq!(cs_accel, "accel");
    assert_eq!(cs_mag, 7);
}

#[test]
fn interfaces_hand_every_transfer_to_the_bus() {
    let mut i2c = I2cInterface::new(Stub::new().with(0x10, 0x99));
    assert_eq!(DeviceInterface::read_register(&mut i2c, 0x10).unwrap(), 0x99);
    assert!(DeviceInterface::write_register(&mut i2c, 0x11, 0x22).is_ok());
    let mut two = [0u8; 2];
    assert!(DeviceInterface::read_burst(&mut i2c, 0x10, &mut two).is_ok());
    assert_eq!(two, [0x99, 0x22]);
    assert_eq!(
        i2c.release().calls,
        vec![Call::Read(0x10), Call::Write(0x11, 0x22), Call::Burst(0x10, 2)]
    );

    let mut spi = SpiInterface::new(Stub::failing_at(2), 'x', 'm');
    assert!(DeviceInterface::write_register(&mut spi, 0x20, 0x01).is_ok());
    assert!(matches!(
        DeviceInterface::read_register(&mut spi, 0x20),
        Err(Error::Comm(BusFault(2)))
    ));
    assert!(DeviceInterface::read_burst(&mut spi, 0x20, &mut two).is_ok());
    assert_eq!(two, [0x01, 0x00]);
    let (stub, cs_accel, cs_mag) = spi.release();
    assert_eq!(
        stub.calls,
        vec![Call::Write(0x20, 0x01), Call::Read(0x20), Call::Burst(0x20, 2)]
    );
    assert_eq!((cs_accel, cs_mag), ('x', 'm'));
}

#[test]
fn a_failed_transfer_is_handed_back_by_the_interface() {
    let mut i2c = I2cInterface::new(Stub::failing_at(1));
    assert!(matches!(
        DeviceInterface::write_register(&mut i2c, 0x20, 0x01),
        Err(Error::Comm(BusFault(1)))
    ));
    let mut one = [0x55u8; 1];
    let mut i2c = I2cInterface::new(Stub::failing_at(1));
    assert!(matches!(
        DeviceInterface::read_burst(&mut i2c, 0x20, &mut one),
        Err(Error::Comm(BusFault(1)))
    ));
    let mut spi = SpiInterface::new(Stub::failing_at(1), (), ());
    assert!(matches!(
        DeviceInterface::read_burst(&mut spi, 0x20, &mut one),
        Err(Error::Comm(BusFault(1)))
    ));
    let mut stub = Stub::new();
    stub.fail_at = Some((1, Error::Pin(PinFault)));
    let mut spi = SpiInterface::new(stub, (), ());
    assert!(matches!(
        DeviceInterface::write_register(&mut spi, 0x20, 0x01),
        Err(Error::Pin(PinFault))
    ));
}
