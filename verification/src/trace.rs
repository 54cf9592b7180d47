//! The record of what passed between the driver and the transport, and the
//! state of a handle in terms of it.

use crate::interface::RegisterTransport;
use crate::register_address::Register;
use crate::shadow::{
    commit_writes, enable_fifo_plan, fifo_mode_from, fifo_mode_of, lemma_commit_writes_domain,
    lemma_restart_after_enable_fifo, lemma_restart_fifo_plan, restart_fifo_plan,
    shadowed_registers, RegisterWrite,
};
use crate::types::{Error, FifoMode, IntNumber};
use vstd::prelude::*;

verus! {

/// One transfer on the bus: what the driver asked of the transport and what
/// the transport answered.
pub enum Transfer<E> {
    /// `value` was written to the register at `address`; `failure` is the
    /// transport's error, if it reported one.
    Write { address: u8, value: u8, failure: Option<E> },
    /// The register at `address` was read.
    Read { address: u8, byte: Result<u8, E> },
    /// `count` registers were read in one burst, starting at `address`.
    ReadBurst { address: u8, count: nat, bytes: Result<Seq<u8>, E> },
}

/// The error in `result`, if it holds one.
pub open spec fn failure_of<E>(result: Result<(), E>) -> Option<E> {
    match result {
        Ok(_) => None,
        Err(e) => Some(e),
    }
}

/// What a burst has read: the buffer as the transport left it, or the
/// transport's error.
pub open spec fn burst_outcome<E>(result: Result<(), E>, data: Seq<u8>) -> Result<Seq<u8>, E> {
    match result {
        Ok(_) => Ok(data),
        Err(e) => Err(e),
    }
}

/// The transfer that a write of `value` to `address` is, when the transport
/// answered it with `outcome`.
pub open spec fn write_transfer<E>(address: u8, value: u8, outcome: Result<(), E>) -> Transfer<E> {
    Transfer::Write { address, value, failure: failure_of(outcome) }
}

/// The transfer that a burst of `count` registers from `address` on is, when
/// the transport answered it with `result` and left `data` in the buffer.
pub open spec fn burst_transfer<E>(
    address: u8,
    count: nat,
    result: Result<(), E>,
    data: Seq<u8>,
) -> Transfer<E> {
    Transfer::ReadBurst { address, count, bytes: burst_outcome(result, data) }
}

/// `result` with `f` applied to what it holds, if it holds anything.
pub open spec fn map_ok<T, U, E>(result: Result<T, E>, f: spec_fn(T) -> U) -> Result<U, E> {
    match result {
        Ok(v) => Ok(f(v)),
        Err(e) => Err(e),
    }
}

/// The transfers of a run of writes: the first `n` writes of `plan`, each
/// acknowledged but the last, which failed with `last` if that is an error.
pub open spec fn write_transfers<E>(plan: Seq<RegisterWrite>, n: int, last: Option<E>) -> Seq<
    Transfer<E>,
> {
    Seq::new(
        n as nat,
        |j: int|
            Transfer::Write {
                address: plan[j].address,
                value: plan[j].value,
                failure: if j < n - 1 {
                    None
                } else {
                    last
                },
            },
    )
}

/// A transport together with the record of every transfer made through it.
///
/// The fields are private, and the three methods that make a transfer are
/// the only code of the crate that calls a transport: each records the call
/// it makes and the answer it gets, and nothing else touches the record.
/// The interfaces hold their bus in this form.
pub struct Traced<DI: RegisterTransport> {
    transport: DI,
    trace: Ghost<Seq<Transfer<Error<DI::CommE, DI::PinE>>>>,
}

impl<DI: RegisterTransport> Traced<DI> {
    /// Every transfer made so far, oldest first.
    pub closed spec fn trace(&self) -> Seq<Transfer<Error<DI::CommE, DI::PinE>>> {
        self.trace@
    }

    /// The transport itself.
    pub closed spec fn transport(&self) -> DI {
        self.transport
    }

    /// Starts an empty record for `transport`.
    pub fn new(transport: DI) -> (traced: Self)
        ensures
            traced.trace() == Seq::<Transfer<Error<DI::CommE, DI::PinE>>>::empty(),
            traced.transport() == transport,
    {
        Traced { transport, trace: Ghost(Seq::empty()) }
    }

    /// Gives the transport back and drops the record.
    pub fn into_inner(self) -> (transport: DI)
        ensures
            transport == self.transport(),
    {
        self.transport
    }

    /// Reads one register.
    pub fn read_register(&mut self, address: u8) -> (byte: Result<u8, Error<DI::CommE, DI::PinE>>)
        ensures
            final(self).trace() == old(self).trace().push(Transfer::Read { address, byte }),
    {
        let byte = self.transport.read_register(address);
        proof {
            self.trace@ = self.trace@.push(Transfer::Read { address, byte });
        }
        byte
    }

    /// Writes one register.
    pub fn write_register(&mut self, address: u8, value: u8) -> (outcome: Result<
        (),
        Error<DI::CommE, DI::PinE>,
    >)
        ensures
            final(self).trace() == old(self).trace().push(
                Transfer::Write { address, value, failure: failure_of(outcome) },
            ),
    {
        let outcome = self.transport.write_register(address, value);
        proof {
            self.trace@ = self.trace@.push(
                Transfer::Write { address, value, failure: failure_of(outcome) },
            );
        }
        outcome
    }

    /// Reads as many registers as `data` is long, in one burst.
    pub fn read_burst(&mut self, address: u8, data: &mut [u8]) -> (result: Result<
        (),
        Error<DI::CommE, DI::PinE>,
    >)
        ensures
            final(self).trace() == old(self).trace().push(
                Transfer::ReadBurst {
                    address,
                    count: old(data)@.len(),
                    bytes: burst_outcome(result, final(data)@),
                },
            ),
    {
        let ghost count = data@.len();
        let result = self.transport.read_burst(address, data);
        proof {
            self.trace@ = self.trace@.push(
                Transfer::ReadBurst { address, count, bytes: burst_outcome(result, data@) },
            );
        }
        result
    }
}

/// The state of a handle: the shadow registers by address, and every
/// transfer made through the handle since it was created, oldest first.
pub struct DeviceState<E> {
    pub shadow: Map<u8, u8>,
    pub trace: Seq<Transfer<E>>,
}

impl<E> DeviceState<E> {
    /// The state after one more transfer that leaves the shadow as it is.
    pub open spec fn followed_by(self, transfer: Transfer<E>) -> DeviceState<E> {
        DeviceState { shadow: self.shadow, trace: self.trace.push(transfer) }
    }

    /// What the latest transfer, a read of one register, brought back.
    pub open spec fn last_byte(self) -> Result<u8, E> {
        match self.trace.last() {
            Transfer::Read { byte, .. } => byte,
            _ => arbitrary(),
        }
    }

    /// What the latest transfer, a burst, brought back.
    pub open spec fn last_bytes(self) -> Result<Seq<u8>, E> {
        match self.trace.last() {
            Transfer::ReadBurst { bytes, .. } => bytes,
            _ => arbitrary(),
        }
    }

    /// `self` is what `before` becomes by a read of the register at
    /// `address` and nothing else.
    pub open spec fn after_read(self, before: DeviceState<E>, address: u8) -> bool {
        self == before.followed_by(Transfer::Read { address, byte: self.last_byte() })
    }

    /// `self` is what `before` becomes by a burst that reads `count`
    /// registers from `address` on, and nothing else.
    pub open spec fn after_burst(self, before: DeviceState<E>, address: u8, count: nat) -> bool {
        self == before.followed_by(
            Transfer::ReadBurst { address, count, bytes: self.last_bytes() },
        )
    }

    /// `self` is what `before` becomes when the writes of `plan` are issued
    /// in order until one fails, and `result` is what the caller is told.
    ///
    /// Every write that the transport acknowledged is in the shadow, and no
    /// other. After a failure nothing more is written, nothing that was
    /// written is undone, and `result` is the transport's error.
    pub open spec fn after_writes(
        self,
        before: DeviceState<E>,
        plan: Seq<RegisterWrite>,
        result: Result<(), E>,
    ) -> bool {
        let issued = self.trace.len() - before.trace.len();
        let acknowledged = if result is Ok {
            issued
        } else {
            issued - 1
        };
        &&& 0 <= acknowledged <= plan.len()
        &&& result is Ok <==> acknowledged == plan.len()
        &&& self.trace == before.trace + write_transfers(plan, issued, failure_of(result))
        &&& self.shadow == commit_writes(before.shadow, plan.take(acknowledged))
    }
}

/// The transfers of a run in which every write of `plan` was acknowledged.
pub open spec fn acknowledged<E>(plan: Seq<RegisterWrite>) -> Seq<Transfer<E>> {
    write_transfers(plan, plan.len() as int, None)
}

/// A run of writes that succeeds has issued every write of the plan, in
/// order, and the shadow holds them all.
pub proof fn lemma_after_writes_ok<E>(
    before: DeviceState<E>,
    plan: Seq<RegisterWrite>,
    after: DeviceState<E>,
    result: Result<(), E>,
)
    requires
        after.after_writes(before, plan, result),
        result is Ok,
    ensures
        after.trace == before.trace + acknowledged::<E>(plan),
        after.shadow == commit_writes(before.shadow, plan),
{
    assert(plan.take(plan.len() as int) =~= plan);
}

/// A run of writes that fails has issued the writes of the plan up to the
/// one that failed, and the shadow holds those before it. The error is the
/// one that the transport gave for the last write issued.
pub proof fn lemma_after_writes_err<E>(
    before: DeviceState<E>,
    plan: Seq<RegisterWrite>,
    after: DeviceState<E>,
    result: Result<(), E>,
)
    requires
        after.after_writes(before, plan, result),
        result is Err,
    ensures
        ({
            let failed = after.trace.len() - before.trace.len() - 1;
            &&& 0 <= failed < plan.len()
            &&& after.trace.last() == (Transfer::Write {
                address: plan[failed].address,
                value: plan[failed].value,
                failure: Some(result->Err_0),
            })
            &&& after.trace.drop_last() == before.trace + acknowledged::<E>(plan.take(failed))
            &&& after.shadow == commit_writes(before.shadow, plan.take(failed))
        }),
{
    let failed = after.trace.len() - before.trace.len() - 1;
    assert(after.trace.drop_last() =~= before.trace + acknowledged::<E>(plan.take(failed)));
}

/// When `enable_fifo` has selected FIFO mode and `restart_fifo` follows, both
/// with success, the restart writes the FIFO control register twice, first
/// selecting bypass and then FIFO mode. The shadow selects FIFO mode before
/// the restart, bypass between its two writes, and FIFO mode after it.
pub proof fn lemma_enable_fifo_then_restart<E>(
    start: DeviceState<E>,
    enabled: DeviceState<E>,
    restarted: DeviceState<E>,
    line: IntNumber,
    latched: bool,
    active_high: bool,
    enable_result: Result<(), E>,
    restart_result: Result<(), E>,
)
    requires
        start.shadow.dom() == shadowed_registers(),
        enabled.after_writes(
            start,
            enable_fifo_plan(start.shadow, FifoMode::Fifo, line, latched, active_high),
            enable_result,
        ),
        enable_result is Ok,
        restarted.after_writes(enabled, restart_fifo_plan(enabled.shadow), restart_result),
        restart_result is Ok,
    ensures
        fifo_mode_of(enabled.shadow) == FifoMode::Fifo,
        fifo_mode_of(
            commit_writes(enabled.shadow, restart_fifo_plan(enabled.shadow).take(1)),
        ) == FifoMode::Bypass,
        fifo_mode_of(restarted.shadow) == FifoMode::Fifo,
        restarted.trace.len() == enabled.trace.len() + 2,
        restarted.trace[enabled.trace.len() as int] matches Transfer::Write {
            address,
            value,
            failure,
        } && address == Register::FIFO_CTRL_REG_A && fifo_mode_from(value) == FifoMode::Bypass
            && failure is None,
        restarted.trace[enabled.trace.len() as int + 1] matches Transfer::Write {
            address,
            value,
            failure,
        } && address == Register::FIFO_CTRL_REG_A && fifo_mode_from(value) == FifoMode::Fifo
            && failure is None,
{
    let enable = enable_fifo_plan(start.shadow, FifoMode::Fifo, line, latched, active_high);
    lemma_after_writes_ok(start, enable, enabled, enable_result);
    lemma_restart_after_enable_fifo(start.shadow, line, latched, active_high);
    lemma_commit_writes_domain(start.shadow, enable);
    let restart = restart_fifo_plan(enabled.shadow);
    lemma_restart_fifo_plan(enabled.shadow);
    lemma_after_writes_ok(enabled, restart, restarted, restart_result);
}

} // verus!
