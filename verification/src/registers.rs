//! The register map of the peripherals the driver programs, and the two kinds
//! of access it asks its caller to perform on them.

use crate::bits::{field_fits, field_mask, low_bits, low_mask, mask, with_field};
use vstd::prelude::*;

verus! {

/// Base address of the reset and clock control block.
pub const RCC_BASE: u32 = 0x4002_1000;

/// Base address of GPIO port B, which carries the two bus lines.
pub const GPIOB_BASE: u32 = 0x4800_0400;

/// Base address of the first I2C peripheral.
pub const I2C1_BASE: u32 = 0x4000_5400;

/// A memory-mapped register the driver reads or writes.
#[derive(Clone, Copy, Debug, PartialEq, Eq)]
pub enum Register {
    /// APB1 peripheral reset register.
    RccApb1Rstr,
    /// AHB peripheral clock enable register.
    RccAhbEnr,
    /// APB1 peripheral clock enable register.
    RccApb1Enr,
    /// GPIO mode register, two bits per pin.
    GpioModer,
    /// GPIO output type register, one bit per pin.
    GpioOtyper,
    /// GPIO output speed register, two bits per pin.
    GpioOspeedr,
    /// GPIO pull-up/pull-down register, two bits per pin.
    GpioPupdr,
    /// GPIO alternate function selector for pins 0 to 7, four bits per pin.
    GpioAfrl,
    /// GPIO alternate function selector for pins 8 to 15, four bits per pin.
    GpioAfrh,
    /// I2C control register 1.
    I2cCr1,
    /// I2C control register 2.
    I2cCr2,
    /// I2C timing register.
    I2cTimingr,
    /// I2C interrupt and status register.
    I2cIsr,
    /// I2C receive data register.
    I2cRxdr,
    /// I2C transmit data register.
    I2cTxdr,
}

impl Register {
    /// Base address of the block the register belongs to.
    pub open spec fn base_of(self) -> u32 {
        match self {
            Register::RccApb1Rstr | Register::RccAhbEnr | Register::RccApb1Enr => RCC_BASE,
            Register::GpioModer
            | Register::GpioOtyper
            | Register::GpioOspeedr
            | Register::GpioPupdr
            | Register::GpioAfrl
            | Register::GpioAfrh => GPIOB_BASE,
            Register::I2cCr1
            | Register::I2cCr2
            | Register::I2cTimingr
            | Register::I2cIsr
            | Register::I2cRxdr
            | Register::I2cTxdr => I2C1_BASE,
        }
    }

    /// Byte offset of the register inside its block.
    pub open spec fn offset_of(self) -> u32 {
        match self {
            Register::RccApb1Rstr => 0x10,
            Register::RccAhbEnr => 0x14,
            Register::RccApb1Enr => 0x1C,
            Register::GpioModer => 0x00,
            Register::GpioOtyper => 0x04,
            Register::GpioOspeedr => 0x08,
            Register::GpioPupdr => 0x0C,
            Register::GpioAfrl => 0x20,
            Register::GpioAfrh => 0x24,
            Register::I2cCr1 => 0x00,
            Register::I2cCr2 => 0x04,
            Register::I2cTimingr => 0x10,
            Register::I2cIsr => 0x18,
            Register::I2cRxdr => 0x24,
            Register::I2cTxdr => 0x28,
        }
    }

    /// Absolute address of the register.
    pub open spec fn address_of(self) -> int {
        self.base_of() + self.offset_of()
    }

    /// Base address of the block the register belongs to.
    pub fn base(self) -> (base: u32)
        ensures
            base == self.base_of(),
    {
        match self {
            Register::RccApb1Rstr | Register::RccAhbEnr | Register::RccApb1Enr => RCC_BASE,
            Register::GpioModer
            | Register::GpioOtyper
            | Register::GpioOspeedr
            | Register::GpioPupdr
            | Register::GpioAfrl
            | Register::GpioAfrh => GPIOB_BASE,
            Register::I2cCr1
            | Register::I2cCr2
            | Register::I2cTimingr
            | Register::I2cIsr
            | Register::I2cRxdr
            | Register::I2cTxdr => I2C1_BASE,
        }
    }

    /// Byte offset of the register inside its block.
    pub fn offset(self) -> (offset: u32)
        ensures
            offset == self.offset_of(),
    {
        match self {
            Register::RccApb1Rstr => 0x10,
            Register::RccAhbEnr => 0x14,
            Register::RccApb1Enr => 0x1C,
            Register::GpioModer => 0x00,
            Register::GpioOtyper => 0x04,
            Register::GpioOspeedr => 0x08,
            Register::GpioPupdr => 0x0C,
            Register::GpioAfrl => 0x20,
            Register::GpioAfrh => 0x24,
            Register::I2cCr1 => 0x00,
            Register::I2cCr2 => 0x04,
            Register::I2cTimingr => 0x10,
            Register::I2cIsr => 0x18,
            Register::I2cRxdr => 0x24,
            Register::I2cTxdr => 0x28,
        }
    }

    /// Absolute address of the register.
    pub fn address(self) -> (address: u32)
        ensures
            address == self.address_of(),
    {
        self.base() + self.offset()
    }
}

/// No two registers share an address, and every address is word aligned.
pub proof fn lemma_addresses_distinct(a: Register, b: Register)
    ensures
        a.address_of() == b.address_of() ==> a == b,
        a.address_of() % 4 == 0,
{
}

/// A side-effecting access to one register.
#[derive(Clone, Copy, Debug, PartialEq, Eq)]
pub enum RegisterOp {
    /// Store `value`, whatever the register held.
    Write { register: Register, value: u32 },
    /// Read the register, clear the bits of `clear`, set the bits of `set`,
    /// and store the result.
    Modify { register: Register, clear: u32, set: u32 },
}

impl RegisterOp {
    /// The register the access goes to.
    pub open spec fn target(self) -> Register {
        match self {
            RegisterOp::Write { register, .. } => register,
            RegisterOp::Modify { register, .. } => register,
        }
    }

    /// What the register holds after the access, if it held `before`.
    pub open spec fn result(self, before: u32) -> u32 {
        match self {
            RegisterOp::Write { value, .. } => value,
            RegisterOp::Modify { clear, set, .. } => (before & !clear) | set,
        }
    }

    /// The bits the access stores as ones whatever the register held.
    pub open spec fn forced_ones(self) -> u32 {
        match self {
            RegisterOp::Write { value, .. } => value,
            RegisterOp::Modify { set, .. } => set,
        }
    }

    /// The register the access goes to.
    pub fn register(&self) -> (register: Register)
        ensures
            register == self.target(),
    {
        match self {
            RegisterOp::Write { register, .. } => *register,
            RegisterOp::Modify { register, .. } => *register,
        }
    }

    /// Computes what to store, given what the register held.
    pub fn apply(&self, before: u32) -> (after: u32)
        ensures
            after == self.result(before),
    {
        match self {
            RegisterOp::Write { value, .. } => *value,
            RegisterOp::Modify { clear, set, .. } => (before & !*clear) | *set,
        }
    }

    /// The access that sets the bits of `bits` and keeps the rest.
    pub fn set_bits(register: Register, bits: u32) -> (op: RegisterOp)
        ensures
            op == (RegisterOp::Modify { register, clear: 0, set: bits }),
    {
        RegisterOp::Modify { register, clear: 0, set: bits }
    }

    /// The access that clears the bits of `bits` and keeps the rest.
    pub fn clear_bits(register: Register, bits: u32) -> (op: RegisterOp)
        ensures
            op == (RegisterOp::Modify { register, clear: bits, set: 0 }),
    {
        RegisterOp::Modify { register, clear: bits, set: 0 }
    }

    /// The access that replaces one field and keeps the rest.
    pub open spec fn field_update(register: Register, offset: u32, width: u32, value: u32) -> RegisterOp {
        RegisterOp::Modify {
            register,
            clear: field_mask(offset, width),
            set: (value & low_mask(width)) << offset,
        }
    }

    /// The access that replaces the field at `offset` by the low bits of
    /// `value` and keeps the rest.
    pub fn set_field(register: Register, offset: u32, width: u32, value: u32) -> (op: RegisterOp)
        requires
            field_fits(offset, width),
        ensures
            op == RegisterOp::field_update(register, offset, width, value),
            op.target() == register,
            forall|before: u32| #[trigger] op.result(before) == with_field(before, offset, width, value),
    {
        RegisterOp::Modify { register, clear: mask(offset, width), set: (value & low_bits(width)) << offset }
    }
}

/// Setting bits and then clearing the same bits leaves them clear and every
/// other bit as it was; setting them leaves them set.
pub proof fn lemma_set_then_clear(register: Register, bits: u32, before: u32)
    ensures
        ({
            let raised = (RegisterOp::Modify { register, clear: 0, set: bits }).result(before);
            let lowered = (RegisterOp::Modify { register, clear: bits, set: 0 }).result(raised);
            &&& raised & bits == bits
            &&& raised & !bits == before & !bits
            &&& lowered & bits == 0
            &&& lowered & !bits == before & !bits
        }),
{
    assert(((before & !0u32) | bits) & bits == bits) by (bit_vector);
    assert(((before & !0u32) | bits) & !bits == before & !bits) by (bit_vector);
    assert(((((before & !0u32) | bits) & !bits) | 0u32) & bits == 0) by (bit_vector);
    assert(((((before & !0u32) | bits) & !bits) | 0u32) & !bits == before & !bits) by (bit_vector);
}

/// What `register` holds after the accesses of `ops` were carried out in
/// order, if it held `before`. Accesses to other registers do not count.
pub open spec fn value_after(ops: Seq<RegisterOp>, register: Register, before: u32) -> u32
    decreases ops.len(),
{
    if ops.len() == 0 {
        before
    } else {
        let earlier = value_after(ops.drop_last(), register, before);
        if ops.last().target() == register {
            ops.last().result(earlier)
        } else {
            earlier
        }
    }
}

/// One more access at the end changes the register it goes to, and no other.
pub proof fn lemma_value_after_push(ops: Seq<RegisterOp>, op: RegisterOp, register: Register, before: u32)
    ensures
        value_after(ops.push(op), register, before) == if op.target() == register {
            op.result(value_after(ops, register, before))
        } else {
            value_after(ops, register, before)
        },
{
    assert(ops.push(op).drop_last() =~= ops);
}

/// Carrying out one list of accesses and then another is carrying out the
/// second on what the first left.
pub proof fn lemma_value_after_concat(
    first: Seq<RegisterOp>,
    second: Seq<RegisterOp>,
    register: Register,
    before: u32,
)
    ensures
        value_after(first + second, register, before) == value_after(
            second,
            register,
            value_after(first, register, before),
        ),
    decreases second.len(),
{
    if second.len() == 0 {
        assert(first + second =~= first);
    } else {
        lemma_value_after_concat(first, second.drop_last(), register, before);
        assert((first + second).drop_last() =~= first + second.drop_last());
    }
}

} // verus!
