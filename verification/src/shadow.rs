//! The shadow registers: what was last written to each control register, and
//! the register writes that each operation of the driver is made of.

use crate::config::{bit, lemma_single_bit_masks, Config};
use crate::register_address::{BitFlags, Register};
use crate::types::{AccelMode, AccelScale, FifoMode, IntNumber};
use vstd::prelude::*;

verus! {

/// One register write: the register's address and the byte to store there.
#[derive(Debug, Clone, Copy, PartialEq, Eq, Structural)]
pub struct RegisterWrite {
    pub address: u8,
    pub value: u8,
}

/// The last value written to each control register that the driver writes.
/// The device is never asked for these values: this copy is all the driver
/// knows of them. Its view maps each register's address to the value.
#[derive(Debug, Clone, Copy, PartialEq, Eq, Structural)]
pub struct ShadowRegisters {
    pub ctrl_reg1_a: Config,
    pub ctrl_reg3_a: Config,
    pub ctrl_reg4_a: Config,
    pub ctrl_reg5_a: Config,
    pub ctrl_reg6_a: Config,
    pub cfg_reg_a_m: Config,
    pub cfg_reg_c_m: Config,
    pub temp_cfg_reg_a: Config,
    pub fifo_ctrl_reg_a: Config,
    pub int_ctrl_reg_m: Config,
}

impl View for ShadowRegisters {
    type V = Map<u8, u8>;

    open spec fn view(&self) -> Map<u8, u8> {
        map![
            Register::CTRL_REG1_A => self.ctrl_reg1_a.bits,
            Register::CTRL_REG3_A => self.ctrl_reg3_a.bits,
            Register::CTRL_REG4_A => self.ctrl_reg4_a.bits,
            Register::CTRL_REG5_A => self.ctrl_reg5_a.bits,
            Register::CTRL_REG6_A => self.ctrl_reg6_a.bits,
            Register::CFG_REG_A_M => self.cfg_reg_a_m.bits,
            Register::CFG_REG_C_M => self.cfg_reg_c_m.bits,
            Register::TEMP_CFG_REG_A => self.temp_cfg_reg_a.bits,
            Register::FIFO_CTRL_REG_A => self.fifo_ctrl_reg_a.bits,
            Register::INT_CTRL_REG_M => self.int_ctrl_reg_m.bits,
        ]
    }
}

/// The addresses of the registers that have a shadow.
pub open spec fn shadowed_registers() -> Set<u8> {
    set![
        Register::CTRL_REG1_A,
        Register::CTRL_REG3_A,
        Register::CTRL_REG4_A,
        Register::CTRL_REG5_A,
        Register::CTRL_REG6_A,
        Register::CFG_REG_A_M,
        Register::CFG_REG_C_M,
        Register::TEMP_CFG_REG_A,
        Register::FIFO_CTRL_REG_A,
        Register::INT_CTRL_REG_M,
    ]
}

/// What the registers hold after a reset of the device: the three axes of
/// the accelerometer enabled, the magnetometer idle, everything else 0.
pub open spec fn reset_values() -> Map<u8, u8> {
    Map::new(
        |a: u8| shadowed_registers().contains(a),
        |a: u8|
            if a == Register::CTRL_REG1_A {
                0x07u8
            } else if a == Register::CFG_REG_A_M {
                0x03u8
            } else {
                0x00u8
            },
    )
}

/// The shadow after one acknowledged write. A write to a register without a
/// shadow leaves no mark.
pub open spec fn commit_write(shadow: Map<u8, u8>, write: RegisterWrite) -> Map<u8, u8> {
    if shadow.dom().contains(write.address) {
        shadow.insert(write.address, write.value)
    } else {
        shadow
    }
}

/// The shadow after a sequence of acknowledged writes, first to last.
pub open spec fn commit_writes(shadow: Map<u8, u8>, writes: Seq<RegisterWrite>) -> Map<u8, u8>
    decreases writes.len(),
{
    if writes.len() == 0 {
        shadow
    } else {
        commit_write(commit_writes(shadow, writes.drop_last()), writes.last())
    }
}

/// The operating mode that the two control registers select. An output data
/// rate of 0 powers the accelerometer down; otherwise the high-resolution
/// bit wins over the low-power bit.
pub open spec fn accel_mode_from(ctrl_reg1: u8, ctrl_reg4: u8) -> AccelMode {
    if ctrl_reg1 / 16 == 0 {
        AccelMode::PowerDown
    } else if bit(ctrl_reg4, 3) {
        AccelMode::HighResolution
    } else if bit(ctrl_reg1, 3) {
        AccelMode::LowPower
    } else {
        AccelMode::Normal
    }
}

/// The full-scale range that bits 4 and 5 of control register 4 select.
pub open spec fn accel_scale_from(ctrl_reg4: u8) -> AccelScale {
    let fs = (ctrl_reg4 / 16) % 4;
    if fs == 0 {
        AccelScale::G2
    } else if fs == 1 {
        AccelScale::G4
    } else if fs == 2 {
        AccelScale::G8
    } else {
        AccelScale::G16
    }
}

/// The FIFO mode that the two high bits of the FIFO control register select.
pub open spec fn fifo_mode_from(fifo_ctrl: u8) -> FifoMode {
    let fm = fifo_ctrl / 64;
    if fm == 0 {
        FifoMode::Bypass
    } else if fm == 1 {
        FifoMode::Fifo
    } else if fm == 2 {
        FifoMode::Stream
    } else {
        FifoMode::StreamToFifo
    }
}

/// The operating mode according to the shadow.
pub open spec fn accel_mode_of(shadow: Map<u8, u8>) -> AccelMode {
    accel_mode_from(shadow[Register::CTRL_REG1_A], shadow[Register::CTRL_REG4_A])
}

/// The full-scale range according to the shadow.
pub open spec fn accel_scale_of(shadow: Map<u8, u8>) -> AccelScale {
    accel_scale_from(shadow[Register::CTRL_REG4_A])
}

/// The FIFO mode according to the shadow.
pub open spec fn fifo_mode_of(shadow: Map<u8, u8>) -> FifoMode {
    fifo_mode_from(shadow[Register::FIFO_CTRL_REG_A])
}

/// The bits that select `mode` in the FIFO control register.
pub open spec fn fifo_mode_bits(mode: FifoMode) -> u8 {
    match mode {
        FifoMode::Bypass => 0x00,
        FifoMode::Fifo => 0x40,
        FifoMode::Stream => 0x80,
        FifoMode::StreamToFifo => 0xC0,
    }
}

/// `value` with the bits of `flag` at 1 if `on`, at 0 if not.
pub open spec fn with_flag(value: u8, flag: u8, on: bool) -> u8 {
    if on {
        value | flag
    } else {
        value & !flag
    }
}

/// The FIFO control byte that selects `mode` and routes the trigger to
/// `line`. The old mode bits are cleared before the new ones are set, so
/// nothing of the old mode stays; the five low bits are kept.
pub open spec fn fifo_ctrl_for(fifo_ctrl: u8, mode: FifoMode, line: IntNumber) -> u8 {
    with_flag(
        (fifo_ctrl & !BitFlags::FIFO_MODE_MASK) | fifo_mode_bits(mode),
        BitFlags::FIFO_TRIGGER,
        line == IntNumber::Int2,
    )
}

/// The writes of the initialization, in order: the temperature sensor is
/// enabled, block data update is switched on for both sensors, and the
/// other registers are written as the shadow has them.
pub open spec fn init_plan(shadow: Map<u8, u8>) -> Seq<RegisterWrite> {
    seq![
        RegisterWrite {
            address: Register::TEMP_CFG_REG_A,
            value: shadow[Register::TEMP_CFG_REG_A] | BitFlags::TEMP_EN0 | BitFlags::TEMP_EN1,
        },
        RegisterWrite { address: Register::CTRL_REG3_A, value: shadow[Register::CTRL_REG3_A] },
        RegisterWrite {
            address: Register::CTRL_REG4_A,
            value: shadow[Register::CTRL_REG4_A] | BitFlags::ACCEL_BDU,
        },
        RegisterWrite { address: Register::CTRL_REG5_A, value: shadow[Register::CTRL_REG5_A] },
        RegisterWrite {
            address: Register::FIFO_CTRL_REG_A,
            value: shadow[Register::FIFO_CTRL_REG_A],
        },
        RegisterWrite {
            address: Register::INT_CTRL_REG_M,
            value: shadow[Register::INT_CTRL_REG_M],
        },
        RegisterWrite {
            address: Register::CFG_REG_C_M,
            value: shadow[Register::CFG_REG_C_M] | BitFlags::MAG_BDU,
        },
    ]
}

/// The writes that enable the FIFO, in the order the device needs: the
/// overrun interrupt is routed, the interrupt pin is configured, the FIFO is
/// enabled, and only then is its mode selected.
pub open spec fn enable_fifo_plan(
    shadow: Map<u8, u8>,
    mode: FifoMode,
    line: IntNumber,
    latched: bool,
    active_high: bool,
) -> Seq<RegisterWrite> {
    seq![
        RegisterWrite {
            address: Register::CTRL_REG3_A,
            value: shadow[Register::CTRL_REG3_A] | BitFlags::I1_OVERRUN,
        },
        RegisterWrite {
            address: Register::INT_CTRL_REG_M,
            value: with_flag(
                with_flag(
                    shadow[Register::INT_CTRL_REG_M] | BitFlags::IEN,
                    BitFlags::IEA,
                    active_high,
                ),
                BitFlags::IEL,
                latched,
            ),
        },
        RegisterWrite {
            address: Register::CTRL_REG5_A,
            value: shadow[Register::CTRL_REG5_A] | BitFlags::FIFO_EN,
        },
        RegisterWrite {
            address: Register::FIFO_CTRL_REG_A,
            value: fifo_ctrl_for(shadow[Register::FIFO_CTRL_REG_A], mode, line),
        },
    ]
}

/// The two writes that start FIFO mode again: to bypass, then to FIFO. The
/// device arms the FIFO when the mode changes, not when it is written.
pub open spec fn restart_fifo_plan(shadow: Map<u8, u8>) -> Seq<RegisterWrite> {
    let fifo_ctrl = shadow[Register::FIFO_CTRL_REG_A];
    seq![
        RegisterWrite {
            address: Register::FIFO_CTRL_REG_A,
            value: (fifo_ctrl & !BitFlags::FIFO_MODE_MASK) | BitFlags::FIFO_MODE_BYPASS,
        },
        RegisterWrite {
            address: Register::FIFO_CTRL_REG_A,
            value: (fifo_ctrl & !BitFlags::FIFO_MODE_MASK) | BitFlags::FIFO_MODE_FIFO,
        },
    ]
}

impl ShadowRegisters {
    /// The shadow of a device that has just been reset.
    pub fn reset_defaults() -> (shadow: ShadowRegisters)
        ensures
            shadow@ == reset_values(),
    {
        let shadow = ShadowRegisters {
            ctrl_reg1_a: Config { bits: 0x07 },
            ctrl_reg3_a: Config { bits: 0 },
            ctrl_reg4_a: Config { bits: 0 },
            ctrl_reg5_a: Config { bits: 0 },
            ctrl_reg6_a: Config { bits: 0 },
            cfg_reg_a_m: Config { bits: 0x03 },
            cfg_reg_c_m: Config { bits: 0 },
            temp_cfg_reg_a: Config { bits: 0 },
            fifo_ctrl_reg_a: Config { bits: 0 },
            int_ctrl_reg_m: Config { bits: 0 },
        };
        assert(shadow@ =~= reset_values());
        shadow
    }

    /// Records a write that the device has acknowledged.
    pub fn commit(&mut self, write: RegisterWrite)
        ensures
            final(self)@ == commit_write(old(self)@, write),
    {
        let value = Config { bits: write.value };
        if write.address == Register::CTRL_REG1_A {
            self.ctrl_reg1_a = value;
        } else if write.address == Register::CTRL_REG3_A {
            self.ctrl_reg3_a = value;
        } else if write.address == Register::CTRL_REG4_A {
            self.ctrl_reg4_a = value;
        } else if write.address == Register::CTRL_REG5_A {
            self.ctrl_reg5_a = value;
        } else if write.address == Register::CTRL_REG6_A {
            self.ctrl_reg6_a = value;
        } else if write.address == Register::CFG_REG_A_M {
            self.cfg_reg_a_m = value;
        } else if write.address == Register::CFG_REG_C_M {
            self.cfg_reg_c_m = value;
        } else if write.address == Register::TEMP_CFG_REG_A {
            self.temp_cfg_reg_a = value;
        } else if write.address == Register::FIFO_CTRL_REG_A {
            self.fifo_ctrl_reg_a = value;
        } else if write.address == Register::INT_CTRL_REG_M {
            self.int_ctrl_reg_m = value;
        }
        assert(self@ =~= commit_write(old(self)@, write));
    }

    /// The operating mode of the accelerometer, as last written.
    pub fn accel_mode(&self) -> (mode: AccelMode)
        ensures
            mode == accel_mode_of(self@),
    {
        let ctrl_reg1 = self.ctrl_reg1_a.bits;
        let ctrl_reg4 = self.ctrl_reg4_a.bits;
        proof {
            assert((ctrl_reg1 & 0xF0 == 0) == (ctrl_reg1 / 16 == 0)) by (bit_vector);
            lemma_single_bit_masks(ctrl_reg1);
            lemma_single_bit_masks(ctrl_reg4);
        }
        if ctrl_reg1 & BitFlags::ACCEL_ODR_MASK == 0 {
            AccelMode::PowerDown
        } else if ctrl_reg4 & BitFlags::HR != 0 {
            AccelMode::HighResolution
        } else if ctrl_reg1 & BitFlags::LP_EN != 0 {
            AccelMode::LowPower
        } else {
            AccelMode::Normal
        }
    }

    /// The full-scale range of the accelerometer, as last written.
    pub fn accel_scale(&self) -> (scale: AccelScale)
        ensures
            scale == accel_scale_of(self@),
    {
        let ctrl_reg4 = self.ctrl_reg4_a.bits;
        let fs0 = ctrl_reg4 & BitFlags::ACCEL_FS0 != 0;
        let fs1 = ctrl_reg4 & BitFlags::ACCEL_FS1 != 0;
        proof {
            assert((ctrl_reg4 / 16) % 4 == (if ctrl_reg4 & 0x10 != 0 {
                1u8
            } else {
                0u8
            }) + (if ctrl_reg4 & 0x20 != 0 {
                2u8
            } else {
                0u8
            })) by (bit_vector);
        }
        if fs0 && fs1 {
            AccelScale::G16
        } else if fs1 {
            AccelScale::G8
        } else if fs0 {
            AccelScale::G4
        } else {
            AccelScale::G2
        }
    }

    /// The FIFO mode, as last written.
    pub fn fifo_mode(&self) -> (mode: FifoMode)
        ensures
            mode == fifo_mode_of(self@),
    {
        let fifo_ctrl = self.fifo_ctrl_reg_a.bits;
        let selected = fifo_ctrl & BitFlags::FIFO_MODE_MASK;
        proof {
            assert(fifo_ctrl & 0xC0 == (fifo_ctrl / 64) * 64) by (bit_vector);
        }
        if selected == BitFlags::FIFO_MODE_BYPASS {
            FifoMode::Bypass
        } else if selected == BitFlags::FIFO_MODE_FIFO {
            FifoMode::Fifo
        } else if selected == BitFlags::FIFO_MODE_STREAM {
            FifoMode::Stream
        } else {
            FifoMode::StreamToFifo
        }
    }

    /// The register writes of the initialization, computed from the shadow.
    pub fn init_writes(&self) -> (plan: [RegisterWrite; 7])
        ensures
            plan@ == init_plan(self@),
    {
        let temp_cfg = self.temp_cfg_reg_a.with_bit_set(BitFlags::TEMP_EN0).with_bit_set(
            BitFlags::TEMP_EN1,
        );
        let reg4 = self.ctrl_reg4_a.with_bit_set(BitFlags::ACCEL_BDU);
        let regc = self.cfg_reg_c_m.with_bit_set(BitFlags::MAG_BDU);
        let plan = [
            RegisterWrite { address: Register::TEMP_CFG_REG_A, value: temp_cfg.bits },
            RegisterWrite { address: Register::CTRL_REG3_A, value: self.ctrl_reg3_a.bits },
            RegisterWrite { address: Register::CTRL_REG4_A, value: reg4.bits },
            RegisterWrite { address: Register::CTRL_REG5_A, value: self.ctrl_reg5_a.bits },
            RegisterWrite { address: Register::FIFO_CTRL_REG_A, value: self.fifo_ctrl_reg_a.bits },
            RegisterWrite { address: Register::INT_CTRL_REG_M, value: self.int_ctrl_reg_m.bits },
            RegisterWrite { address: Register::CFG_REG_C_M, value: regc.bits },
        ];
        assert(plan@ =~= init_plan(self@));
        plan
    }

    /// The register writes that enable the FIFO in `mode`, with its trigger
    /// on `line` and the interrupt pin latched and active high or not.
    pub fn enable_fifo_writes(
        &self,
        mode: FifoMode,
        line: IntNumber,
        latched: bool,
        active_high: bool,
    ) -> (plan: [RegisterWrite; 4])
        ensures
            plan@ == enable_fifo_plan(self@, mode, line, latched, active_high),
    {
        let reg3 = self.ctrl_reg3_a.with_bit_set(BitFlags::I1_OVERRUN);

        let mut int_ctrl = self.int_ctrl_reg_m.with_bit_set(BitFlags::IEN);
        int_ctrl =
        if active_high {
            int_ctrl.with_bit_set(BitFlags::IEA)
        } else {
            int_ctrl.with_bit_cleared(BitFlags::IEA)
        };
        int_ctrl =
        if latched {
            int_ctrl.with_bit_set(BitFlags::IEL)
        } else {
            int_ctrl.with_bit_cleared(BitFlags::IEL)
        };

        let reg5 = self.ctrl_reg5_a.with_bit_set(BitFlags::FIFO_EN);

        let mode_bits = match mode {
            FifoMode::Bypass => BitFlags::FIFO_MODE_BYPASS,
            FifoMode::Fifo => BitFlags::FIFO_MODE_FIFO,
            FifoMode::Stream => BitFlags::FIFO_MODE_STREAM,
            FifoMode::StreamToFifo => BitFlags::FIFO_MODE_STREAM_TO_FIFO,
        };
        let mut fifo_ctrl = self.fifo_ctrl_reg_a.with_bit_cleared(
            BitFlags::FIFO_MODE_MASK,
        ).with_bit_set(mode_bits);
        fifo_ctrl =
        match line {
            IntNumber::Int1 => fifo_ctrl.with_bit_cleared(BitFlags::FIFO_TRIGGER),
            IntNumber::Int2 => fifo_ctrl.with_bit_set(BitFlags::FIFO_TRIGGER),
        };

        let plan = [
            RegisterWrite { address: Register::CTRL_REG3_A, value: reg3.bits },
            RegisterWrite { address: Register::INT_CTRL_REG_M, value: int_ctrl.bits },
            RegisterWrite { address: Register::CTRL_REG5_A, value: reg5.bits },
            RegisterWrite { address: Register::FIFO_CTRL_REG_A, value: fifo_ctrl.bits },
        ];
        assert(plan@ =~= enable_fifo_plan(self@, mode, line, latched, active_high));
        plan
    }

    /// The two register writes that start FIFO mode again.
    pub fn restart_fifo_writes(&self) -> (plan: [RegisterWrite; 2])
        ensures
            plan@ == restart_fifo_plan(self@),
    {
        let bypass = self.fifo_ctrl_reg_a.with_bit_cleared(BitFlags::FIFO_MODE_MASK).with_bit_set(
            BitFlags::FIFO_MODE_BYPASS,
        );
        let fifo = bypass.with_bit_cleared(BitFlags::FIFO_MODE_MASK).with_bit_set(
            BitFlags::FIFO_MODE_FIFO,
        );
        proof {
            let v = self.fifo_ctrl_reg_a.bits;
            assert((((v & !0xC0u8) | 0x00u8) & !0xC0u8) | 0x40u8 == (v & !0xC0u8) | 0x40u8)
                by (bit_vector);
        }
        let plan = [
            RegisterWrite { address: Register::FIFO_CTRL_REG_A, value: bypass.bits },
            RegisterWrite { address: Register::FIFO_CTRL_REG_A, value: fifo.bits },
        ];
        assert(plan@ =~= restart_fifo_plan(self@));
        plan
    }
}

/// A shadow is known by its view: two shadows that map the same addresses
/// to the same values are equal.
pub proof fn lemma_view_injective(a: ShadowRegisters, b: ShadowRegisters)
    requires
        a@ == b@,
    ensures
        a == b,
{
    assert(a.ctrl_reg1_a.bits == a@[Register::CTRL_REG1_A]);
    assert(a.ctrl_reg3_a.bits == a@[Register::CTRL_REG3_A]);
    assert(a.ctrl_reg4_a.bits == a@[Register::CTRL_REG4_A]);
    assert(a.ctrl_reg5_a.bits == a@[Register::CTRL_REG5_A]);
    assert(a.ctrl_reg6_a.bits == a@[Register::CTRL_REG6_A]);
    assert(a.cfg_reg_a_m.bits == a@[Register::CFG_REG_A_M]);
    assert(a.cfg_reg_c_m.bits == a@[Register::CFG_REG_C_M]);
    assert(a.temp_cfg_reg_a.bits == a@[Register::TEMP_CFG_REG_A]);
    assert(a.fifo_ctrl_reg_a.bits == a@[Register::FIFO_CTRL_REG_A]);
    assert(a.int_ctrl_reg_m.bits == a@[Register::INT_CTRL_REG_M]);
    assert(b.ctrl_reg1_a.bits == b@[Register::CTRL_REG1_A]);
    assert(b.ctrl_reg3_a.bits == b@[Register::CTRL_REG3_A]);
    assert(b.ctrl_reg4_a.bits == b@[Register::CTRL_REG4_A]);
    assert(b.ctrl_reg5_a.bits == b@[Register::CTRL_REG5_A]);
    assert(b.ctrl_reg6_a.bits == b@[Register::CTRL_REG6_A]);
    assert(b.cfg_reg_a_m.bits == b@[Register::CFG_REG_A_M]);
    assert(b.cfg_reg_c_m.bits == b@[Register::CFG_REG_C_M]);
    assert(b.temp_cfg_reg_a.bits == b@[Register::TEMP_CFG_REG_A]);
    assert(b.fifo_ctrl_reg_a.bits == b@[Register::FIFO_CTRL_REG_A]);
    assert(b.int_ctrl_reg_m.bits == b@[Register::INT_CTRL_REG_M]);
}

/// The view of a shadow has exactly the shadowed registers for its keys.
pub proof fn lemma_view_domain(shadow: ShadowRegisters)
    ensures
        shadow@.dom() == shadowed_registers(),
{
    assert(shadow@.dom() =~= shadowed_registers());
}

/// Committing writes adds no register to the shadow and takes none away.
pub proof fn lemma_commit_writes_domain(shadow: Map<u8, u8>, writes: Seq<RegisterWrite>)
    ensures
        commit_writes(shadow, writes).dom() == shadow.dom(),
    decreases writes.len(),
{
    if writes.len() > 0 {
        lemma_commit_writes_domain(shadow, writes.drop_last());
        assert(commit_writes(shadow, writes).dom() =~= shadow.dom());
    }
}

/// A register that none of the writes addresses keeps its shadow.
pub proof fn lemma_commit_writes_untouched(
    shadow: Map<u8, u8>,
    writes: Seq<RegisterWrite>,
    address: u8,
)
    requires
        forall|i: int| 0 <= i < writes.len() ==> writes[i].address != address,
    ensures
        commit_writes(shadow, writes)[address] == shadow[address],
    decreases writes.len(),
{
    if writes.len() > 0 {
        lemma_commit_writes_untouched(shadow, writes.drop_last(), address);
    }
}

/// The shadow of a register is the value of the last write to it.
pub proof fn lemma_commit_writes_last(shadow: Map<u8, u8>, writes: Seq<RegisterWrite>, i: int)
    requires
        0 <= i < writes.len(),
        shadow.dom().contains(writes[i].address),
        forall|j: int| i < j < writes.len() ==> writes[j].address != writes[i].address,
    ensures
        commit_writes(shadow, writes)[writes[i].address] == writes[i].value,
    decreases writes.len(),
{
    lemma_commit_writes_domain(shadow, writes.drop_last());
    if i < writes.len() - 1 {
        lemma_commit_writes_last(shadow, writes.drop_last(), i);
    }
}

/// An initialization that goes through leaves three registers changed in
/// the shadow: the temperature sensor is enabled and block data update is
/// on for both sensors. Every other bit of the shadow is as it was.
pub proof fn lemma_init_plan_commits(shadow: Map<u8, u8>)
    requires
        shadow.dom() == shadowed_registers(),
    ensures
        commit_writes(shadow, init_plan(shadow)) == shadow.insert(
            Register::TEMP_CFG_REG_A,
            shadow[Register::TEMP_CFG_REG_A] | BitFlags::TEMP_EN0 | BitFlags::TEMP_EN1,
        ).insert(Register::CTRL_REG4_A, shadow[Register::CTRL_REG4_A] | BitFlags::ACCEL_BDU).insert(
            Register::CFG_REG_C_M,
            shadow[Register::CFG_REG_C_M] | BitFlags::MAG_BDU,
        ),
{
    let plan = init_plan(shadow);
    let after = commit_writes(shadow, plan);
    lemma_commit_writes_domain(shadow, plan);
    lemma_commit_writes_last(shadow, plan, 0);
    lemma_commit_writes_last(shadow, plan, 1);
    lemma_commit_writes_last(shadow, plan, 2);
    lemma_commit_writes_last(shadow, plan, 3);
    lemma_commit_writes_last(shadow, plan, 4);
    lemma_commit_writes_last(shadow, plan, 5);
    lemma_commit_writes_last(shadow, plan, 6);
    lemma_commit_writes_untouched(shadow, plan, Register::CTRL_REG1_A);
    lemma_commit_writes_untouched(shadow, plan, Register::CTRL_REG6_A);
    lemma_commit_writes_untouched(shadow, plan, Register::CFG_REG_A_M);
    assert(after =~= shadow.insert(
        Register::TEMP_CFG_REG_A,
        shadow[Register::TEMP_CFG_REG_A] | BitFlags::TEMP_EN0 | BitFlags::TEMP_EN1,
    ).insert(Register::CTRL_REG4_A, shadow[Register::CTRL_REG4_A] | BitFlags::ACCEL_BDU).insert(
        Register::CFG_REG_C_M,
        shadow[Register::CFG_REG_C_M] | BitFlags::MAG_BDU,
    ));
}

/// Enabling the FIFO, when it goes through, leaves four registers changed
/// in the shadow: the overrun interrupt is routed, the interrupt pin is
/// enabled with the polarity and latching asked for, the FIFO is enabled,
/// and the FIFO control register selects the mode and the trigger line.
pub proof fn lemma_enable_fifo_plan_commits(
    shadow: Map<u8, u8>,
    mode: FifoMode,
    line: IntNumber,
    latched: bool,
    active_high: bool,
)
    requires
        shadow.dom() == shadowed_registers(),
    ensures
        commit_writes(shadow, enable_fifo_plan(shadow, mode, line, latched, active_high))
            == shadow.insert(
            Register::CTRL_REG3_A,
            shadow[Register::CTRL_REG3_A] | BitFlags::I1_OVERRUN,
        ).insert(
            Register::INT_CTRL_REG_M,
            with_flag(
                with_flag(
                    shadow[Register::INT_CTRL_REG_M] | BitFlags::IEN,
                    BitFlags::IEA,
                    active_high,
                ),
                BitFlags::IEL,
                latched,
            ),
        ).insert(Register::CTRL_REG5_A, shadow[Register::CTRL_REG5_A] | BitFlags::FIFO_EN).insert(
            Register::FIFO_CTRL_REG_A,
            fifo_ctrl_for(shadow[Register::FIFO_CTRL_REG_A], mode, line),
        ),
{
    let plan = enable_fifo_plan(shadow, mode, line, latched, active_high);
    let after = commit_writes(shadow, plan);
    lemma_commit_writes_domain(shadow, plan);
    lemma_commit_writes_last(shadow, plan, 0);
    lemma_commit_writes_last(shadow, plan, 1);
    lemma_commit_writes_last(shadow, plan, 2);
    lemma_commit_writes_last(shadow, plan, 3);
    lemma_commit_writes_untouched(shadow, plan, Register::CTRL_REG1_A);
    lemma_commit_writes_untouched(shadow, plan, Register::CTRL_REG4_A);
    lemma_commit_writes_untouched(shadow, plan, Register::CTRL_REG6_A);
    lemma_commit_writes_untouched(shadow, plan, Register::CFG_REG_A_M);
    lemma_commit_writes_untouched(shadow, plan, Register::CFG_REG_C_M);
    lemma_commit_writes_untouched(shadow, plan, Register::TEMP_CFG_REG_A);
    assert(after =~= shadow.insert(
        Register::CTRL_REG3_A,
        shadow[Register::CTRL_REG3_A] | BitFlags::I1_OVERRUN,
    ).insert(
        Register::INT_CTRL_REG_M,
        with_flag(
            with_flag(shadow[Register::INT_CTRL_REG_M] | BitFlags::IEN, BitFlags::IEA, active_high),
            BitFlags::IEL,
            latched,
        ),
    ).insert(Register::CTRL_REG5_A, shadow[Register::CTRL_REG5_A] | BitFlags::FIFO_EN).insert(
        Register::FIFO_CTRL_REG_A,
        fifo_ctrl_for(shadow[Register::FIFO_CTRL_REG_A], mode, line),
    ));
}

/// The interrupt control byte that enabling the FIFO writes has the
/// interrupt enabled, the polarity and the latching as asked for, and the
/// five high bits of the old byte.
pub proof fn lemma_int_ctrl_bits(int_ctrl: u8, latched: bool, active_high: bool)
    ensures
        ({
            let written = with_flag(
                with_flag(int_ctrl | BitFlags::IEN, BitFlags::IEA, active_high),
                BitFlags::IEL,
                latched,
            );
            &&& bit(written, 0)
            &&& bit(written, 1) == latched
            &&& bit(written, 2) == active_high
            &&& written / 8 == int_ctrl / 8
        }),
{
    let v = int_ctrl;
    assert({
        &&& ((((v | 0x01u8) | 0x04u8) | 0x02u8) >> 0u8) & 1 == 1
        &&& ((((v | 0x01u8) | 0x04u8) | 0x02u8) >> 1u8) & 1 == 1
        &&& ((((v | 0x01u8) | 0x04u8) | 0x02u8) >> 2u8) & 1 == 1
        &&& (((v | 0x01u8) | 0x04u8) | 0x02u8) / 8 == v / 8
        &&& ((((v | 0x01u8) | 0x04u8) & !0x02u8) >> 0u8) & 1 == 1
        &&& ((((v | 0x01u8) | 0x04u8) & !0x02u8) >> 1u8) & 1 != 1
        &&& ((((v | 0x01u8) | 0x04u8) & !0x02u8) >> 2u8) & 1 == 1
        &&& (((v | 0x01u8) | 0x04u8) & !0x02u8) / 8 == v / 8
        &&& ((((v | 0x01u8) & !0x04u8) | 0x02u8) >> 0u8) & 1 == 1
        &&& ((((v | 0x01u8) & !0x04u8) | 0x02u8) >> 1u8) & 1 == 1
        &&& ((((v | 0x01u8) & !0x04u8) | 0x02u8) >> 2u8) & 1 != 1
        &&& (((v | 0x01u8) & !0x04u8) | 0x02u8) / 8 == v / 8
        &&& ((((v | 0x01u8) & !0x04u8) & !0x02u8) >> 0u8) & 1 == 1
        &&& ((((v | 0x01u8) & !0x04u8) & !0x02u8) >> 1u8) & 1 != 1
        &&& ((((v | 0x01u8) & !0x04u8) & !0x02u8) >> 2u8) & 1 != 1
        &&& (((v | 0x01u8) & !0x04u8) & !0x02u8) / 8 == v / 8
    }) by (bit_vector);
}

/// The FIFO control byte that the driver writes selects the mode asked for,
/// whatever mode the old byte selected, puts the trigger on the line asked
/// for, and keeps the five low bits of the old byte.
pub proof fn lemma_fifo_ctrl_for(fifo_ctrl: u8, mode: FifoMode, line: IntNumber)
    ensures
        fifo_mode_from(fifo_ctrl_for(fifo_ctrl, mode, line)) == mode,
        bit(fifo_ctrl_for(fifo_ctrl, mode, line), 5) == (line == IntNumber::Int2),
        fifo_ctrl_for(fifo_ctrl, mode, line) % 32 == fifo_ctrl % 32,
{
    let v = fifo_ctrl;
    let m = fifo_mode_bits(mode);
    assert(m == 0x00 || m == 0x40 || m == 0x80 || m == 0xC0);
    assert(m == 0x00 || m == 0x40 || m == 0x80 || m == 0xC0 ==> {
        &&& (((v & !0xC0u8) | m) | 0x20u8) / 64 == m / 64
        &&& (((v & !0xC0u8) | m) & !0x20u8) / 64 == m / 64
        &&& (((v & !0xC0u8) | m) | 0x20u8) % 32 == v % 32
        &&& (((v & !0xC0u8) | m) & !0x20u8) % 32 == v % 32
        &&& ((((v & !0xC0u8) | m) | 0x20u8) >> 5u8) & 1 == 1
        &&& ((((v & !0xC0u8) | m) & !0x20u8) >> 5u8) & 1 != 1
    }) by (bit_vector);
}

/// Restarting the FIFO writes the FIFO control register twice: first with
/// bypass mode selected, then with FIFO mode selected. The five low bits and
/// the trigger bit are those of the shadow both times.
pub proof fn lemma_restart_fifo_plan(shadow: Map<u8, u8>)
    ensures
        restart_fifo_plan(shadow).len() == 2,
        restart_fifo_plan(shadow)[0].address == Register::FIFO_CTRL_REG_A,
        restart_fifo_plan(shadow)[1].address == Register::FIFO_CTRL_REG_A,
        fifo_mode_from(restart_fifo_plan(shadow)[0].value) == FifoMode::Bypass,
        fifo_mode_from(restart_fifo_plan(shadow)[1].value) == FifoMode::Fifo,
        restart_fifo_plan(shadow)[0].value % 64 == shadow[Register::FIFO_CTRL_REG_A] % 64,
        restart_fifo_plan(shadow)[1].value % 64 == shadow[Register::FIFO_CTRL_REG_A] % 64,
{
    let v = shadow[Register::FIFO_CTRL_REG_A];
    assert(((v & !0xC0u8) | 0x00u8) / 64 == 0 && ((v & !0xC0u8) | 0x40u8) / 64 == 1 && ((v & !0xC0u8)
        | 0x00u8) % 64 == v % 64 && ((v & !0xC0u8) | 0x40u8) % 64 == v % 64) by (bit_vector);
}

/// When the FIFO has been enabled in FIFO mode and is then restarted, the
/// shadow selects FIFO mode after the enabling, bypass mode after the first
/// write of the restart, and FIFO mode again after the second.
pub proof fn lemma_restart_after_enable_fifo(
    shadow: Map<u8, u8>,
    line: IntNumber,
    latched: bool,
    active_high: bool,
)
    requires
        shadow.dom() == shadowed_registers(),
    ensures
        ({
            let enabled = commit_writes(
                shadow,
                enable_fifo_plan(shadow, FifoMode::Fifo, line, latched, active_high),
            );
            let restart = restart_fifo_plan(enabled);
            &&& fifo_mode_of(enabled) == FifoMode::Fifo
            &&& fifo_mode_of(commit_writes(enabled, restart.take(1))) == FifoMode::Bypass
            &&& fifo_mode_of(commit_writes(enabled, restart)) == FifoMode::Fifo
        }),
{
    let plan = enable_fifo_plan(shadow, FifoMode::Fifo, line, latched, active_high);
    let enabled = commit_writes(shadow, plan);
    let restart = restart_fifo_plan(enabled);
    lemma_commit_writes_last(shadow, plan, 3);
    lemma_fifo_ctrl_for(shadow[Register::FIFO_CTRL_REG_A], FifoMode::Fifo, line);
    lemma_commit_writes_domain(shadow, plan);
    lemma_restart_fifo_plan(enabled);
    lemma_commit_writes_last(enabled, restart.take(1), 0);
    lemma_commit_writes_last(enabled, restart, 1);
}

} // verus!
