//! The bus master: its configuration, the bring-up sequence, and the two
//! register transfers it offers.

use crate::clock::{enable, enable_ops, lemma_clock_effect, reset, reset_ops, I2C1EN, I2C1RST, IOPBEN};
use crate::controller::{init, init_ops, lemma_init_effect, CR1_FLAGS, CR1_PE};
use crate::pin::{bus_line_ops, bus_line_value, configure_as_bus_line, lemma_bus_line_effect, PIN_COUNT};
use crate::registers::{lemma_value_after_concat, value_after, Register, RegisterOp};
use crate::timing::{standard_mode_timing, TimingConfig, CORE_CLOCK_HZ, STANDARD_MODE_HZ};
use crate::transaction::{
    initial_state, ControlAccess, Direction, Transaction, TransactionDescriptor, MAX_DEVICE_ADDRESS,
};
use vstd::prelude::*;

verus! {

/// How the bus is set up.
#[derive(Clone, Copy, Debug, PartialEq, Eq)]
pub struct BusConfig {
    /// The counts of the timing register.
    pub timing: TimingConfig,
    /// Pin of port B that carries the clock line.
    pub scl_pin: u8,
    /// Pin of port B that carries the data line.
    pub sda_pin: u8,
    /// Whether the internal pull-ups stand in for external resistors.
    pub pull_up: bool,
    /// How many status samples each wait of a transfer may take.
    pub max_polls: u32,
}

impl BusConfig {
    /// The timing fits its register and both pins exist.
    pub open spec fn wf(self) -> bool {
        self.timing.wf() && self.scl_pin < PIN_COUNT && self.sda_pin < PIN_COUNT
    }
}

/// The accesses that bring the bus up, in order: clocks on, peripheral
/// reset pulsed, clock line configured, data line configured, peripheral
/// configured and enabled.
pub open spec fn bring_up_ops(config: BusConfig) -> Seq<RegisterOp> {
    enable_ops() + reset_ops() + bus_line_ops(config.scl_pin, config.pull_up) + bus_line_ops(
        config.sda_pin,
        config.pull_up,
    ) + init_ops(config.timing)
}

/// The handle of the bus master. There is no way to copy it: one handle
/// stands for one peripheral.
pub struct I2cMaster {
    config: BusConfig,
}

impl View for I2cMaster {
    type V = BusConfig;

    closed spec fn view(&self) -> BusConfig {
        self.config
    }
}

impl I2cMaster {
    #[verifier::type_invariant]
    spec fn inv(self) -> bool {
        self.config.wf()
    }

    /// Makes the handle for a core clock, a target bus frequency and a pin
    /// assignment. Only an 8 MHz core driving a 100 kHz bus is supported,
    /// and the pins must be two of the port's sixteen. Any poll budget is
    /// taken; with a budget of 0 no wait ever samples the status, so every
    /// transfer on a free bus ends with `Timeout` at its first wait.
    pub fn new(
        core_clock_hz: u32,
        target_bus_hz: u32,
        scl_pin: u8,
        sda_pin: u8,
        pull_up: bool,
        max_polls: u32,
    ) -> (master: Option<I2cMaster>)
        ensures
            master.is_some() <==> core_clock_hz == CORE_CLOCK_HZ && target_bus_hz == STANDARD_MODE_HZ
                && scl_pin < PIN_COUNT && sda_pin < PIN_COUNT,
            master.is_some() ==> master.unwrap()@ == (BusConfig {
                timing: standard_mode_timing(),
                scl_pin,
                sda_pin,
                pull_up,
                max_polls,
            }),
            master.is_some() ==> master.unwrap()@.wf(),
    {
        match TimingConfig::for_clocks(core_clock_hz, target_bus_hz) {
            Some(timing) => {
                if scl_pin < PIN_COUNT && sda_pin < PIN_COUNT {
                    Some(I2cMaster { config: BusConfig { timing, scl_pin, sda_pin, pull_up, max_polls } })
                } else {
                    None
                }
            },
            None => None,
        }
    }

    /// The configuration the handle was made with.
    pub fn config(&self) -> (config: BusConfig)
        ensures
            config == self@,
            config.wf(),
    {
        proof {
            use_type_invariant(self);
        }
        self.config
    }

    /// Computes the accesses that bring the bus up, to be carried out once,
    /// in order, before the first transfer.
    pub fn bring_up(&self) -> (ops: Vec<RegisterOp>)
        ensures
            ops@ == bring_up_ops(self@),
    {
        proof {
            use_type_invariant(self);
        }
        let mut ops: Vec<RegisterOp> = enable();
        let mut pulse: Vec<RegisterOp> = reset();
        let mut clock_line: Vec<RegisterOp> = configure_as_bus_line(self.config.scl_pin, self.config.pull_up);
        let mut data_line: Vec<RegisterOp> = configure_as_bus_line(self.config.sda_pin, self.config.pull_up);
        let mut peripheral: Vec<RegisterOp> = init(&self.config.timing);
        ops.append(&mut pulse);
        ops.append(&mut clock_line);
        ops.append(&mut data_line);
        ops.append(&mut peripheral);
        ops
    }

    /// Starts reading `length` bytes from register `register_address` of
    /// the device at `device_address`. The device address must have seven
    /// bits and at least one byte must be asked for. The address phase
    /// modifies control register 2 and keeps the bits it does not program.
    pub fn read(&self, device_address: u8, register_address: u8, length: u8) -> (transaction: Option<
        Transaction,
    >)
        ensures
            transaction.is_some() <==> device_address <= MAX_DEVICE_ADDRESS && length >= 1,
            transaction.is_some() ==> transaction.unwrap()@ == initial_state(
                TransactionDescriptor {
                    device_address,
                    register_address,
                    direction: Direction::Read,
                    byte_count: length,
                },
                Seq::empty(),
                self@.max_polls,
                ControlAccess::Modify,
            ),
            transaction.is_some() ==> transaction.unwrap()@.wf(),
    {
        let descriptor = TransactionDescriptor {
            device_address,
            register_address,
            direction: Direction::Read,
            byte_count: length,
        };
        Transaction::begin(descriptor, Vec::new(), self.config.max_polls)
    }

    /// Starts writing `byte` to register `register_address` of the device
    /// at `device_address`. The device address must have seven bits. The
    /// address phase modifies control register 2 and keeps the bits it
    /// does not program.
    pub fn write(&self, device_address: u8, register_address: u8, byte: u8) -> (transaction: Option<
        Transaction,
    >)
        ensures
            transaction.is_some() <==> device_address <= MAX_DEVICE_ADDRESS,
            transaction.is_some() ==> transaction.unwrap()@ == initial_state(
                TransactionDescriptor {
                    device_address,
                    register_address,
                    direction: Direction::Write,
                    byte_count: 1,
                },
                seq![byte],
                self@.max_polls,
                ControlAccess::Modify,
            ),
            transaction.is_some() ==> transaction.unwrap()@.wf(),
    {
        let descriptor = TransactionDescriptor {
            device_address,
            register_address,
            direction: Direction::Write,
            byte_count: 1,
        };
        let mut payload: Vec<u8> = Vec::new();
        payload.push(byte);
        assert(payload@ =~= seq![byte]);
        Transaction::begin(descriptor, payload, self.config.max_polls)
    }

    /// Starts reading as `read` does, with one difference: the address
    /// phase stores control register 2 whole instead of modifying it, so
    /// the transfer does not depend on what the register held.
    pub fn read_storing(&self, device_address: u8, register_address: u8, length: u8) -> (transaction: Option<
        Transaction,
    >)
        ensures
            transaction.is_some() <==> device_address <= MAX_DEVICE_ADDRESS && length >= 1,
            transaction.is_some() ==> transaction.unwrap()@ == initial_state(
                TransactionDescriptor {
                    device_address,
                    register_address,
                    direction: Direction::Read,
                    byte_count: length,
                },
                Seq::empty(),
                self@.max_polls,
                ControlAccess::Store,
            ),
            transaction.is_some() ==> transaction.unwrap()@.wf(),
    {
        let descriptor = TransactionDescriptor {
            device_address,
            register_address,
            direction: Direction::Read,
            byte_count: length,
        };
        Transaction::begin_storing(descriptor, Vec::new(), self.config.max_polls)
    }

    /// Starts writing as `write` does, with one difference: the address
    /// phase stores control register 2 whole instead of modifying it, so
    /// the transfer does not depend on what the register held.
    pub fn write_storing(&self, device_address: u8, register_address: u8, byte: u8) -> (transaction: Option<
        Transaction,
    >)
        ensures
            transaction.is_some() <==> device_address <= MAX_DEVICE_ADDRESS,
            transaction.is_some() ==> transaction.unwrap()@ == initial_state(
                TransactionDescriptor {
                    device_address,
                    register_address,
                    direction: Direction::Write,
                    byte_count: 1,
                },
                seq![byte],
                self@.max_polls,
                ControlAccess::Store,
            ),
            transaction.is_some() ==> transaction.unwrap()@.wf(),
    {
        let descriptor = TransactionDescriptor {
            device_address,
            register_address,
            direction: Direction::Write,
            byte_count: 1,
        };
        let mut payload: Vec<u8> = Vec::new();
        payload.push(byte);
        assert(payload@ =~= seq![byte]);
        Transaction::begin_storing(descriptor, payload, self.config.max_polls)
    }
}

/// What bring-up leaves in each register, if it held `before`: the clock
/// enable bits set and the reset released in the clock control block, both
/// pins configured as bus lines in the port, the control flags with the
/// enable bit and the packed timing in the peripheral, and every register
/// that takes part in transfers only as it was.
pub proof fn lemma_bring_up_effect(config: BusConfig, register: Register, before: u32)
    requires
        config.wf(),
    ensures
        value_after(bring_up_ops(config), register, before) == match register {
            Register::RccAhbEnr => before | IOPBEN,
            Register::RccApb1Enr => before | I2C1EN,
            Register::RccApb1Rstr => before & !I2C1RST,
            Register::I2cCr1 => CR1_FLAGS | CR1_PE,
            Register::I2cTimingr => config.timing.packed() as u32,
            Register::I2cCr2 | Register::I2cIsr | Register::I2cRxdr | Register::I2cTxdr => before,
            _ => bus_line_value(
                config.sda_pin,
                config.pull_up,
                register,
                bus_line_value(config.scl_pin, config.pull_up, register, before),
            ),
        },
{
    let clocks = enable_ops();
    let pulse = reset_ops();
    let clock_line = bus_line_ops(config.scl_pin, config.pull_up);
    let data_line = bus_line_ops(config.sda_pin, config.pull_up);
    let peripheral = init_ops(config.timing);
    let after_clocks = value_after(clocks, register, before);
    let after_pulse = value_after(pulse, register, after_clocks);
    let after_clock_line = value_after(clock_line, register, after_pulse);
    let after_data_line = value_after(data_line, register, after_clock_line);
    lemma_value_after_concat(clocks, pulse, register, before);
    lemma_value_after_concat(clocks + pulse, clock_line, register, before);
    lemma_value_after_concat(clocks + pulse + clock_line, data_line, register, before);
    lemma_value_after_concat(clocks + pulse + clock_line + data_line, peripheral, register, before);
    lemma_clock_effect(register, before);
    lemma_clock_effect(register, after_clocks);
    lemma_bus_line_effect(config.scl_pin, config.pull_up, register, after_pulse);
    lemma_bus_line_effect(config.sda_pin, config.pull_up, register, after_clock_line);
    lemma_init_effect(config.timing, register, after_data_line);
}

} // verus!
