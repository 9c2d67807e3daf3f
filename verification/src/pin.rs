//! GPIO configuration of a bus line: alternate function, open drain, full
//! speed, and optionally the internal pull-up.

use crate::bits::{
    field_fits, field_mask, field_of, lemma_field_reads_back, lemma_other_field_kept,
    lemma_outside_bits_kept, low_mask, with_field,
};
use crate::registers::{lemma_value_after_push, value_after, Register, RegisterOp};
use vstd::prelude::*;

verus! {

/// Mode field encoding that hands a pin to a peripheral.
pub const MODE_ALTERNATE: u32 = 0b10;

/// Speed field encoding of the fastest output stage.
pub const SPEED_HIGH: u32 = 0b11;

/// Pull field encoding of the internal pull-up.
pub const PULL_UP: u32 = 0b01;

/// Index of the alternate function that routes a pin to the I2C peripheral.
pub const I2C_ALTERNATE_FUNCTION: u32 = 4;

/// Number of pins of a GPIO port.
pub const PIN_COUNT: u8 = 16;

/// Bit position of a pin's field in a register with two bits per pin.
pub open spec fn pair_offset(pin: u8) -> u32 {
    (pin * 2) as u32
}

/// Bit position of a pin's field in its alternate function selector.
pub open spec fn af_offset(pin: u8) -> u32 {
    ((pin % 8) * 4) as u32
}

/// The selector register that holds a pin's alternate function: the low one
/// for pins 0 to 7, the high one for pins 8 to 15.
pub open spec fn af_register(pin: u8) -> Register {
    if pin < 8 {
        Register::GpioAfrl
    } else {
        Register::GpioAfrh
    }
}

/// The access that selects alternate function mode for a pin.
pub open spec fn mode_op(pin: u8) -> RegisterOp {
    RegisterOp::field_update(Register::GpioModer, pair_offset(pin), 2, MODE_ALTERNATE)
}

/// The access that makes a pin's output open drain.
pub open spec fn open_drain_op(pin: u8) -> RegisterOp {
    RegisterOp::Modify { register: Register::GpioOtyper, clear: 0, set: 1u32 << pin }
}

/// The access that selects the fastest output stage for a pin.
pub open spec fn speed_op(pin: u8) -> RegisterOp {
    RegisterOp::field_update(Register::GpioOspeedr, pair_offset(pin), 2, SPEED_HIGH)
}

/// The access that enables a pin's internal pull-up.
pub open spec fn pull_up_op(pin: u8) -> RegisterOp {
    RegisterOp::field_update(Register::GpioPupdr, pair_offset(pin), 2, PULL_UP)
}

/// The access that routes a pin to the I2C peripheral.
pub open spec fn af_op(pin: u8) -> RegisterOp {
    RegisterOp::field_update(af_register(pin), af_offset(pin), 4, I2C_ALTERNATE_FUNCTION)
}

/// The accesses that turn a pin into a bus line, in programming order. The
/// pull-up is programmed only where the board has no external resistor.
pub open spec fn bus_line_ops(pin: u8, pull_up: bool) -> Seq<RegisterOp> {
    if pull_up {
        seq![mode_op(pin), open_drain_op(pin), speed_op(pin), pull_up_op(pin), af_op(pin)]
    } else {
        seq![mode_op(pin), open_drain_op(pin), speed_op(pin), af_op(pin)]
    }
}

/// A pin's alternate function, read from the two selector registers.
pub open spec fn af_field(afrl: u32, afrh: u32, pin: u8) -> u32 {
    field_of(if pin < 8 { afrl } else { afrh }, af_offset(pin), 4)
}

/// The two selector registers after a pin was routed to the I2C peripheral.
pub open spec fn af_registers_after(afrl: u32, afrh: u32, pin: u8) -> (u32, u32) {
    if pin < 8 {
        (af_op(pin).result(afrl), afrh)
    } else {
        (afrl, af_op(pin).result(afrh))
    }
}

/// The selector register that holds a pin's alternate function.
pub fn alternate_function_register(pin: u8) -> (register: Register)
    requires
        pin < PIN_COUNT,
    ensures
        register == af_register(pin),
        register == Register::GpioAfrl <==> pin <= 7,
        register == Register::GpioAfrh <==> pin >= 8,
{
    if pin < 8 {
        Register::GpioAfrl
    } else {
        Register::GpioAfrh
    }
}

/// Computes the accesses that turn `pin` of the port into a bus line.
pub fn configure_as_bus_line(pin: u8, pull_up: bool) -> (ops: Vec<RegisterOp>)
    requires
        pin < PIN_COUNT,
    ensures
        ops@ == bus_line_ops(pin, pull_up),
{
    let pair: u32 = (pin as u32) * 2;
    let nibble: u32 = ((pin % 8) as u32) * 4;
    let mut ops: Vec<RegisterOp> = Vec::new();
    ops.push(RegisterOp::set_field(Register::GpioModer, pair, 2, MODE_ALTERNATE));
    ops.push(RegisterOp::set_bits(Register::GpioOtyper, 1u32 << pin));
    ops.push(RegisterOp::set_field(Register::GpioOspeedr, pair, 2, SPEED_HIGH));
    if pull_up {
        ops.push(RegisterOp::set_field(Register::GpioPupdr, pair, 2, PULL_UP));
    }
    ops.push(RegisterOp::set_field(alternate_function_register(pin), nibble, 4, I2C_ALTERNATE_FUNCTION));
    assert(ops@ =~= bus_line_ops(pin, pull_up));
    ops
}

/// Routing a pin to the I2C peripheral writes the function's index into that
/// pin's four-bit slice and changes nothing else: every bit outside the slice
/// keeps its value, in the selector register that is written and in the other
/// one, so every other pin's alternate function is what it was.
pub proof fn lemma_af_update_touches_one_slice(afrl: u32, afrh: u32, pin: u8, other: u8)
    requires
        pin < PIN_COUNT,
        other < PIN_COUNT,
        other != pin,
    ensures
        ({
            let (new_afrl, new_afrh) = af_registers_after(afrl, afrh, pin);
            let slice = field_mask(af_offset(pin), 4);
            &&& af_field(new_afrl, new_afrh, pin) == I2C_ALTERNATE_FUNCTION
            &&& af_field(new_afrl, new_afrh, other) == af_field(afrl, afrh, other)
            &&& pin < 8 ==> new_afrh == afrh && new_afrl & !slice == afrl & !slice
            &&& pin >= 8 ==> new_afrl == afrl && new_afrh & !slice == afrh & !slice
        }),
{
    let before = if pin < 8 {
        afrl
    } else {
        afrh
    };
    let offset = af_offset(pin);
    assert(field_fits(offset, 4));
    assert(field_fits(af_offset(other), 4));
    assert(af_op(pin).result(before) == with_field(before, offset, 4, I2C_ALTERNATE_FUNCTION));
    lemma_field_reads_back(before, offset, 4, I2C_ALTERNATE_FUNCTION);
    assert(I2C_ALTERNATE_FUNCTION & low_mask(4) == I2C_ALTERNATE_FUNCTION) by (bit_vector);
    lemma_outside_bits_kept(before, offset, 4, I2C_ALTERNATE_FUNCTION);
    if (pin < 8) == (other < 8) {
        lemma_other_field_kept(before, offset, 4, I2C_ALTERNATE_FUNCTION, af_offset(other), 4);
    }
}

/// The selector register is chosen by the pin number alone: the low register
/// up to and including pin 7, the high register from pin 8 on.
pub proof fn lemma_af_register_boundary(pin: u8)
    requires
        pin < PIN_COUNT,
    ensures
        af_op(pin).target() == af_register(pin),
        pin <= 7 ==> af_register(pin) == Register::GpioAfrl,
        pin >= 8 ==> af_register(pin) == Register::GpioAfrh,
        af_register(7) == Register::GpioAfrl,
        af_register(8) == Register::GpioAfrh,
        af_offset(7) == 28,
        af_offset(8) == 0,
{
}

/// What configuring a bus line leaves in each register it programs: the pin's
/// mode field selects the alternate function, its output type bit is set, its
/// speed field is at the maximum, and its pull field selects the pull-up.
pub proof fn lemma_bus_line_fields(pin: u8, moder: u32, otyper: u32, ospeedr: u32, pupdr: u32)
    requires
        pin < PIN_COUNT,
    ensures
        field_of(mode_op(pin).result(moder), pair_offset(pin), 2) == MODE_ALTERNATE,
        field_of(open_drain_op(pin).result(otyper), pin as u32, 1) == 1,
        field_of(speed_op(pin).result(ospeedr), pair_offset(pin), 2) == SPEED_HIGH,
        field_of(pull_up_op(pin).result(pupdr), pair_offset(pin), 2) == PULL_UP,
{
    let offset = pair_offset(pin);
    assert(field_fits(offset, 2));
    lemma_field_reads_back(moder, offset, 2, MODE_ALTERNATE);
    lemma_field_reads_back(ospeedr, offset, 2, SPEED_HIGH);
    lemma_field_reads_back(pupdr, offset, 2, PULL_UP);
    assert(MODE_ALTERNATE & low_mask(2) == MODE_ALTERNATE) by (bit_vector);
    assert(SPEED_HIGH & low_mask(2) == SPEED_HIGH) by (bit_vector);
    assert(PULL_UP & low_mask(2) == PULL_UP) by (bit_vector);
    assert(field_of((otyper & !0u32) | (1u32 << pin), pin as u32, 1) == 1) by (bit_vector)
        requires
            pin < 16,
    ;
}

/// Configuring one pin leaves the fields of every other pin as they were, in
/// each register with two bits per pin and in the output type register.
pub proof fn lemma_bus_line_keeps_other_pins(pin: u8, other: u8, moder: u32, otyper: u32, ospeedr: u32, pupdr: u32)
    requires
        pin < PIN_COUNT,
        other < PIN_COUNT,
        other != pin,
    ensures
        field_of(mode_op(pin).result(moder), pair_offset(other), 2) == field_of(moder, pair_offset(other), 2),
        field_of(open_drain_op(pin).result(otyper), other as u32, 1) == field_of(otyper, other as u32, 1),
        field_of(speed_op(pin).result(ospeedr), pair_offset(other), 2) == field_of(ospeedr, pair_offset(other), 2),
        field_of(pull_up_op(pin).result(pupdr), pair_offset(other), 2) == field_of(pupdr, pair_offset(other), 2),
{
    let offset = pair_offset(pin);
    let kept = pair_offset(other);
    assert(field_fits(offset, 2) && field_fits(kept, 2));
    lemma_other_field_kept(moder, offset, 2, MODE_ALTERNATE, kept, 2);
    lemma_other_field_kept(ospeedr, offset, 2, SPEED_HIGH, kept, 2);
    lemma_other_field_kept(pupdr, offset, 2, PULL_UP, kept, 2);
    assert(field_of((otyper & !0u32) | (1u32 << pin), other as u32, 1) == field_of(otyper, other as u32, 1))
        by (bit_vector)
        requires
            pin < 16,
            other < 16,
            other != pin,
    ;
}

/// What a register holds after a pin was configured as a bus line, if it
/// held `before`.
pub open spec fn bus_line_value(pin: u8, pull_up: bool, register: Register, before: u32) -> u32 {
    if register == Register::GpioModer {
        with_field(before, pair_offset(pin), 2, MODE_ALTERNATE)
    } else if register == Register::GpioOtyper {
        before | (1u32 << pin)
    } else if register == Register::GpioOspeedr {
        with_field(before, pair_offset(pin), 2, SPEED_HIGH)
    } else if register == Register::GpioPupdr && pull_up {
        with_field(before, pair_offset(pin), 2, PULL_UP)
    } else if register == af_register(pin) {
        with_field(before, af_offset(pin), 4, I2C_ALTERNATE_FUNCTION)
    } else {
        before
    }
}

/// Configuring a bus line replaces the pin's field in each register it
/// programs and leaves every other register as it was; the pull register is
/// among the latter unless the pull-up was asked for.
pub proof fn lemma_bus_line_effect(pin: u8, pull_up: bool, register: Register, before: u32)
    requires
        pin < PIN_COUNT,
    ensures
        value_after(bus_line_ops(pin, pull_up), register, before) == bus_line_value(
            pin,
            pull_up,
            register,
            before,
        ),
{
    let none = Seq::<RegisterOp>::empty();
    let ops = bus_line_ops(pin, pull_up);
    let three = none.push(mode_op(pin)).push(open_drain_op(pin)).push(speed_op(pin));
    lemma_value_after_push(none, mode_op(pin), register, before);
    lemma_value_after_push(none.push(mode_op(pin)), open_drain_op(pin), register, before);
    lemma_value_after_push(none.push(mode_op(pin)).push(open_drain_op(pin)), speed_op(pin), register, before);
    assert((before & !0u32) | (1u32 << pin) == before | (1u32 << pin)) by (bit_vector);
    if pull_up {
        assert(ops =~= three.push(pull_up_op(pin)).push(af_op(pin)));
        lemma_value_after_push(three, pull_up_op(pin), register, before);
        lemma_value_after_push(three.push(pull_up_op(pin)), af_op(pin), register, before);
    } else {
        assert(ops =~= three.push(af_op(pin)));
        lemma_value_after_push(three, af_op(pin), register, before);
    }
}

} // verus!
