//! Register addresses and bit positions of the LSM303AGR.

use vstd::prelude::*;

verus! {

/// Addresses of the device registers. Accelerometer registers lie below
/// `0x40`, magnetometer registers at or above it.
pub struct Register;

impl Register {
    pub const STATUS_REG_AUX_A: u8 = 0x07;
    pub const OUT_TEMP_L_A: u8 = 0x0C;
    pub const WHO_AM_I_A: u8 = 0x0F;
    pub const TEMP_CFG_REG_A: u8 = 0x1F;
    pub const CTRL_REG1_A: u8 = 0x20;
    pub const CTRL_REG3_A: u8 = 0x22;
    pub const CTRL_REG4_A: u8 = 0x23;
    pub const CTRL_REG5_A: u8 = 0x24;
    pub const CTRL_REG6_A: u8 = 0x25;
    pub const STATUS_REG_A: u8 = 0x27;
    pub const OUT_X_L_A: u8 = 0x28;
    pub const FIFO_CTRL_REG_A: u8 = 0x2E;
    pub const FIFO_SRC_REG_A: u8 = 0x2F;
    pub const INT1_CFG_A: u8 = 0x30;
    pub const INT1_SRC_A: u8 = 0x31;
    pub const WHO_AM_I_M: u8 = 0x4F;
    pub const CFG_REG_A_M: u8 = 0x60;
    pub const CFG_REG_C_M: u8 = 0x62;
    pub const INT_CTRL_REG_M: u8 = 0x63;
    pub const STATUS_REG_M: u8 = 0x67;
    pub const OUTX_L_REG_M: u8 = 0x68;
}

/// Content of `WHO_AM_I_A` on a genuine device.
pub const WHO_AM_I_A_VAL: u8 = 0x33;

/// Content of `WHO_AM_I_M` on a genuine device.
pub const WHO_AM_I_M_VAL: u8 = 0x40;

/// Bit masks of the fields inside the registers.
pub struct BitFlags;

impl BitFlags {
    // Serial link: read direction and address auto-increment.
    pub const SPI_RW: u8 = 0x80;
    pub const SPI_MS: u8 = 0x40;

    // CTRL_REG1_A
    pub const ACCEL_ODR_MASK: u8 = 0xF0;
    pub const LP_EN: u8 = 0x08;

    // CTRL_REG4_A
    pub const ACCEL_BDU: u8 = 0x80;
    pub const ACCEL_FS1: u8 = 0x20;
    pub const ACCEL_FS0: u8 = 0x10;
    pub const HR: u8 = 0x08;

    // CFG_REG_C_M
    pub const MAG_BDU: u8 = 0x10;

    // STATUS_REG_A and STATUS_REG_M
    pub const XDR: u8 = 0x01;
    pub const YDR: u8 = 0x02;
    pub const ZDR: u8 = 0x04;
    pub const XYZDR: u8 = 0x08;
    pub const XOR: u8 = 0x10;
    pub const YOR: u8 = 0x20;
    pub const ZOR: u8 = 0x40;
    pub const XYZOR: u8 = 0x80;

    // STATUS_REG_AUX_A
    pub const TDA: u8 = 0x04;
    pub const TOR: u8 = 0x40;

    // TEMP_CFG_REG_A
    pub const TEMP_EN0: u8 = 0x40;
    pub const TEMP_EN1: u8 = 0x80;

    // CTRL_REG5_A
    pub const FIFO_EN: u8 = 0x40;

    // CTRL_REG3_A
    pub const I1_OVERRUN: u8 = 0x02;
    pub const I1_WTM: u8 = 0x04;

    // FIFO_CTRL_REG_A
    pub const FIFO_TRIGGER: u8 = 0x20;
    pub const FIFO_MODE_MASK: u8 = 0xC0;
    pub const FIFO_MODE_BYPASS: u8 = 0x00;
    pub const FIFO_MODE_FIFO: u8 = 0x40;
    pub const FIFO_MODE_STREAM: u8 = 0x80;
    pub const FIFO_MODE_STREAM_TO_FIFO: u8 = 0xC0;

    // FIFO_SRC_REG_A
    pub const FIFO_WTM: u8 = 0x80;
    pub const FIFO_OVRN: u8 = 0x40;
    pub const FIFO_EMPTY: u8 = 0x20;
    pub const FIFO_FSS_MASK: u8 = 0x1F;

    // INT1_SRC_A
    pub const INT1_SRC_IA: u8 = 0x40;
    pub const INT1_SRC_ZH: u8 = 0x20;
    pub const INT1_SRC_ZL: u8 = 0x10;
    pub const INT1_SRC_YH: u8 = 0x08;
    pub const INT1_SRC_YL: u8 = 0x04;
    pub const INT1_SRC_XH: u8 = 0x02;
    pub const INT1_SRC_XL: u8 = 0x01;

    // CTRL_REG6_A and INT1_CFG_A
    pub const H_LACTIVE: u8 = 0x02;
    pub const AOI: u8 = 0x80;

    // INT_CTRL_REG_M
    pub const IEA: u8 = 0x04;
    pub const IEL: u8 = 0x02;
    pub const IEN: u8 = 0x01;
}

} // verus!
