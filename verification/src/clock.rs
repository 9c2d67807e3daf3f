//! Bus clocks and the peripheral reset line.

use crate::registers::{lemma_set_then_clear, lemma_value_after_push, value_after, Register, RegisterOp};
use vstd::prelude::*;

verus! {

/// Clock enable bit of GPIO port B in the AHB enable register (bit 18).
pub const IOPBEN: u32 = 0x0004_0000;

/// Clock enable bit of the I2C peripheral in the APB1 enable register (bit 21).
pub const I2C1EN: u32 = 0x0020_0000;

/// Reset bit of the I2C peripheral in the APB1 reset register (bit 21).
pub const I2C1RST: u32 = 0x0020_0000;

/// The accesses that switch on the clocks of the GPIO port and of the I2C
/// peripheral.
pub open spec fn enable_ops() -> Seq<RegisterOp> {
    seq![
        RegisterOp::Modify { register: Register::RccAhbEnr, clear: 0, set: IOPBEN },
        RegisterOp::Modify { register: Register::RccApb1Enr, clear: 0, set: I2C1EN },
    ]
}

/// The accesses that pulse the I2C peripheral's reset line: assert, then
/// release.
pub open spec fn reset_ops() -> Seq<RegisterOp> {
    seq![
        RegisterOp::Modify { register: Register::RccApb1Rstr, clear: 0, set: I2C1RST },
        RegisterOp::Modify { register: Register::RccApb1Rstr, clear: I2C1RST, set: 0 },
    ]
}

/// Computes the accesses that switch on both bus clocks.
pub fn enable() -> (ops: Vec<RegisterOp>)
    ensures
        ops@ == enable_ops(),
{
    let mut ops: Vec<RegisterOp> = Vec::new();
    ops.push(RegisterOp::set_bits(Register::RccAhbEnr, IOPBEN));
    ops.push(RegisterOp::set_bits(Register::RccApb1Enr, I2C1EN));
    assert(ops@ =~= enable_ops());
    ops
}

/// Computes the accesses that pulse the I2C peripheral's reset line.
pub fn reset() -> (ops: Vec<RegisterOp>)
    ensures
        ops@ == reset_ops(),
{
    let mut ops: Vec<RegisterOp> = Vec::new();
    ops.push(RegisterOp::set_bits(Register::RccApb1Rstr, I2C1RST));
    ops.push(RegisterOp::clear_bits(Register::RccApb1Rstr, I2C1RST));
    assert(ops@ =~= reset_ops());
    ops
}

/// Enabling the clocks sets the two enable bits and leaves every other
/// peripheral's clock as it was.
pub proof fn lemma_enable_sets_only_its_bits(ahbenr: u32, apb1enr: u32)
    ensures
        enable_ops()[0].result(ahbenr) & IOPBEN == IOPBEN,
        enable_ops()[0].result(ahbenr) & !IOPBEN == ahbenr & !IOPBEN,
        enable_ops()[1].result(apb1enr) & I2C1EN == I2C1EN,
        enable_ops()[1].result(apb1enr) & !I2C1EN == apb1enr & !I2C1EN,
{
    lemma_set_then_clear(Register::RccAhbEnr, IOPBEN, ahbenr);
    lemma_set_then_clear(Register::RccApb1Enr, I2C1EN, apb1enr);
}

/// The reset pulse holds the reset bit high after its first access and low
/// after its second, and never touches another peripheral's reset bit.
pub proof fn lemma_reset_is_a_pulse(apb1rstr: u32)
    ensures
        ({
            let asserted = reset_ops()[0].result(apb1rstr);
            let released = reset_ops()[1].result(asserted);
            &&& asserted & I2C1RST == I2C1RST
            &&& asserted & !I2C1RST == apb1rstr & !I2C1RST
            &&& released & I2C1RST == 0
            &&& released & !I2C1RST == apb1rstr & !I2C1RST
        }),
{
    lemma_set_then_clear(Register::RccApb1Rstr, I2C1RST, apb1rstr);
}

/// What the clock and reset accesses leave in each register: the two
/// enable bits set, the reset bit clear, every other bit and every other
/// register as it was.
pub proof fn lemma_clock_effect(register: Register, before: u32)
    ensures
        value_after(enable_ops(), register, before) == match register {
            Register::RccAhbEnr => before | IOPBEN,
            Register::RccApb1Enr => before | I2C1EN,
            _ => before,
        },
        value_after(reset_ops(), register, before) == match register {
            Register::RccApb1Rstr => before & !I2C1RST,
            _ => before,
        },
{
    let none = Seq::<RegisterOp>::empty();
    let enabling = enable_ops();
    let pulsing = reset_ops();
    assert(enabling =~= none.push(enabling[0]).push(enabling[1]));
    assert(pulsing =~= none.push(pulsing[0]).push(pulsing[1]));
    lemma_value_after_push(none, enabling[0], register, before);
    lemma_value_after_push(none.push(enabling[0]), enabling[1], register, before);
    lemma_value_after_push(none, pulsing[0], register, before);
    lemma_value_after_push(none.push(pulsing[0]), pulsing[1], register, before);
    assert((before & !0u32) | 0x0004_0000u32 == before | 0x0004_0000u32) by (bit_vector);
    assert((before & !0u32) | 0x0020_0000u32 == before | 0x0020_0000u32) by (bit_vector);
    assert(((((before & !0u32) | 0x0020_0000u32) & !0x0020_0000u32) | 0u32) == before & !0x0020_0000u32)
        by (bit_vector);
}

} // verus!
