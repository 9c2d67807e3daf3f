//! Configuration of the I2C peripheral itself: timing and control flags,
//! programmed while the peripheral is disabled.

use crate::registers::{lemma_value_after_push, value_after, Register, RegisterOp};
use crate::timing::{lemma_packed_fields, unpacked, TimingConfig};
use vstd::prelude::*;

verus! {

/// Peripheral enable bit of control register 1.
pub const CR1_PE: u32 = 0x0000_0001;

/// Transmit-ready notification enable bit of control register 1.
pub const CR1_TXIE: u32 = 0x0000_0002;

/// Receive-ready notification enable bit of control register 1.
pub const CR1_RXIE: u32 = 0x0000_0004;

/// Analog noise filter off bit of control register 1.
pub const CR1_ANFOFF: u32 = 0x0000_1000;

/// The control flags the driver runs with: analog filter off, both ready
/// notifications latched.
pub const CR1_FLAGS: u32 = 0x0000_1006;

/// The accesses that configure the peripheral: disable it, store the
/// timing, store the control flags, enable it.
pub open spec fn init_ops(timing: TimingConfig) -> Seq<RegisterOp> {
    seq![
        RegisterOp::Modify { register: Register::I2cCr1, clear: CR1_PE, set: 0 },
        RegisterOp::Write { register: Register::I2cTimingr, value: timing.packed() as u32 },
        RegisterOp::Write { register: Register::I2cCr1, value: CR1_FLAGS },
        RegisterOp::Modify { register: Register::I2cCr1, clear: 0, set: CR1_PE },
    ]
}

/// Computes the accesses that configure the peripheral for `timing`.
pub fn init(timing: &TimingConfig) -> (ops: Vec<RegisterOp>)
    requires
        timing.wf(),
    ensures
        ops@ == init_ops(*timing),
{
    let mut ops: Vec<RegisterOp> = Vec::new();
    ops.push(RegisterOp::clear_bits(Register::I2cCr1, CR1_PE));
    ops.push(RegisterOp::Write { register: Register::I2cTimingr, value: timing.pack() });
    ops.push(RegisterOp::Write { register: Register::I2cCr1, value: CR1_FLAGS });
    ops.push(RegisterOp::set_bits(Register::I2cCr1, CR1_PE));
    assert(ops@ =~= init_ops(*timing));
    ops
}

/// The control flags are exactly the filter bit and the two notification
/// bits; the enable bit is not among them.
pub proof fn lemma_flags()
    ensures
        CR1_FLAGS == CR1_ANFOFF | CR1_RXIE | CR1_TXIE,
        CR1_FLAGS & CR1_PE == 0,
{
    assert(0x0000_1006u32 == 0x0000_1000u32 | 0x0000_0004u32 | 0x0000_0002u32) by (bit_vector);
    assert(0x0000_1006u32 & 0x0000_0001u32 == 0) by (bit_vector);
}

/// What configuration does to control register 1, whatever it held: the
/// peripheral is disabled by the first access and stays disabled until the
/// last, which enables it with exactly the driver's control flags set.
pub proof fn lemma_init_control(timing: TimingConfig, cr1: u32)
    ensures
        ({
            let ops = init_ops(timing);
            let disabled = ops[0].result(cr1);
            let flagged = ops[2].result(disabled);
            let enabled = ops[3].result(flagged);
            &&& disabled & CR1_PE == 0
            &&& disabled & !CR1_PE == cr1 & !CR1_PE
            &&& flagged == CR1_FLAGS
            &&& flagged & CR1_PE == 0
            &&& enabled == CR1_FLAGS | CR1_PE
            &&& enabled & CR1_PE == CR1_PE
        }),
{
    assert(((cr1 & !0x0000_0001u32) | 0u32) & 0x0000_0001u32 == 0) by (bit_vector);
    assert(((cr1 & !0x0000_0001u32) | 0u32) & !0x0000_0001u32 == cr1 & !0x0000_0001u32) by (bit_vector);
    assert(0x0000_1006u32 & 0x0000_0001u32 == 0) by (bit_vector);
    assert((0x0000_1006u32 & !0u32) | 0x0000_0001u32 == 0x0000_1006u32 | 0x0000_0001u32) by (bit_vector);
    assert((0x0000_1006u32 | 0x0000_0001u32) & 0x0000_0001u32 == 0x0000_0001u32) by (bit_vector);
}

/// What configuration stores in the timing register, whatever it held:
/// the packed timing, from which every count reads back.
pub proof fn lemma_init_timing(timing: TimingConfig, timingr: u32)
    requires
        timing.wf(),
    ensures
        init_ops(timing)[1].result(timingr) == timing.packed(),
        unpacked(init_ops(timing)[1].result(timingr)) == timing,
{
    lemma_packed_fields(timing);
}

/// What configuration leaves in each register, whatever it held: the
/// control flags with the enable bit in control register 1, the packed
/// timing in the timing register, and every other register as it was.
pub proof fn lemma_init_effect(timing: TimingConfig, register: Register, before: u32)
    requires
        timing.wf(),
    ensures
        value_after(init_ops(timing), register, before) == match register {
            Register::I2cCr1 => CR1_FLAGS | CR1_PE,
            Register::I2cTimingr => timing.packed() as u32,
            _ => before,
        },
{
    let none = Seq::<RegisterOp>::empty();
    let ops = init_ops(timing);
    assert(ops =~= none.push(ops[0]).push(ops[1]).push(ops[2]).push(ops[3]));
    lemma_value_after_push(none, ops[0], register, before);
    lemma_value_after_push(none.push(ops[0]), ops[1], register, before);
    lemma_value_after_push(none.push(ops[0]).push(ops[1]), ops[2], register, before);
    lemma_value_after_push(none.push(ops[0]).push(ops[1]).push(ops[2]), ops[3], register, before);
    lemma_init_control(timing, before);
}

} // verus!
