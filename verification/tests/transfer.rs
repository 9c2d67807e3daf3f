use i2c_master::driver::I2cMaster;
use i2c_master::registers::{Register, RegisterOp};
use i2c_master::transaction::{
    address_phase, address_store, data_phase, poll, start, stop, Action, BusError, ControlAccess,
    Direction, Phase, Poll, Stage, Transaction, TransactionDescriptor, CR2_AUTOEND, CR2_RD_WRN,
    CR2_START, CR2_STOP, ISR_ARLO, ISR_BUSY, ISR_NACKF, ISR_RXNE, ISR_TXE, ISR_TXIS,
};

/// A simulated I2C peripheral with one register-addressed device behind it.
struct Harness {
    /// Address the device answers to.
    device_address: u8,
    /// The device's registers.
    memory: [u8; 256],
    /// The device's register pointer.
    pointer: u8,
    cr2: u32,
    isr: u32,
    rxdr: u32,
    /// Bytes still to move in the phase in progress.
    remaining: u32,
    /// How many phases of the transfer in progress were started.
    starts: u32,
    /// How many status samples come back empty before a flag shows.
    delay: u32,
    waited: u32,
    /// Flags held back until the delay has passed.
    pending: u32,
    /// Every value stored in control register 2, in order.
    control_stores: Vec<u32>,
    /// Bytes written to the transmit data register.
    transmitted: Vec<u8>,
    /// How many bytes were read from the receive data register.
    receptions: u32,
    /// For each STOP seen on the bus, the number of receptions before it.
    stops: Vec<u32>,
}

impl Harness {
    fn new(device_address: u8) -> Harness {
        Harness {
            device_address,
            memory: [0; 256],
            pointer: 0,
            cr2: 0,
            isr: ISR_TXE,
            rxdr: 0,
            remaining: 0,
            starts: 0,
            delay: 0,
            waited: 0,
            pending: 0,
            control_stores: Vec::new(),
            transmitted: Vec::new(),
            receptions: 0,
            stops: Vec::new(),
        }
    }

    fn raise(&mut self, flags: u32) {
        self.waited = 0;
        self.pending |= flags;
    }

    fn auto_stop(&mut self) {
        if self.remaining == 0 && self.cr2 & CR2_AUTOEND != 0 {
            self.stops.push(self.receptions);
            self.starts = 0;
        }
    }

    fn load_next(&mut self) {
        self.rxdr = u32::from(self.memory[usize::from(self.pointer)]);
        self.pointer = self.pointer.wrapping_add(1);
        self.raise(ISR_RXNE);
    }

    fn read(&mut self, register: Register) -> u32 {
        match register {
            Register::I2cIsr => {
                if self.pending != 0 {
                    if self.waited >= self.delay {
                        self.isr |= self.pending;
                        self.pending = 0;
                    } else {
                        self.waited += 1;
                    }
                }
                self.isr
            }
            Register::I2cRxdr => {
                let value: u32 = self.rxdr;
                self.isr &= !ISR_RXNE;
                self.receptions += 1;
                self.remaining -= 1;
                if self.remaining > 0 {
                    self.load_next();
                }
                self.auto_stop();
                value
            }
            Register::I2cCr2 => self.cr2,
            _ => 0,
        }
    }

    fn perform(&mut self, op: RegisterOp) {
        match op.register() {
            Register::I2cCr2 => {
                let value: u32 = op.apply(self.cr2);
                self.control_stores.push(value);
                self.cr2 = value & !(CR2_START | CR2_STOP);
                if value & CR2_STOP != 0 {
                    self.stops.push(self.receptions);
                    self.starts = 0;
                    self.isr &= !(ISR_BUSY | ISR_TXIS | ISR_RXNE);
                }
                if value & CR2_START != 0 {
                    self.starts += 1;
                    self.isr &= !(ISR_TXIS | ISR_RXNE);
                    self.remaining = (value >> 16) & 0xFF;
                    let addressed: u32 = (value >> 1) & 0x7F;
                    if addressed != u32::from(self.device_address) {
                        self.raise(ISR_NACKF);
                    } else if value & CR2_RD_WRN != 0 {
                        self.load_next();
                    } else {
                        self.raise(ISR_TXIS);
                    }
                }
            }
            Register::I2cTxdr => {
                let byte: u8 = (op.apply(0) & 0xFF) as u8;
                self.transmitted.push(byte);
                self.isr &= !(ISR_TXIS | ISR_TXE);
                if self.starts == 1 {
                    self.pointer = byte;
                } else {
                    self.memory[usize::from(self.pointer)] = byte;
                    self.pointer = self.pointer.wrapping_add(1);
                }
                self.remaining -= 1;
                let mut flags: u32 = ISR_TXE;
                if self.remaining > 0 {
                    flags |= ISR_TXIS;
                }
                self.raise(flags);
                self.auto_stop();
            }
            _ => {}
        }
    }
}

/// Runs a transfer against the harness until it reports its result.
fn drive(
    harness: &mut Harness,
    transaction: Transaction,
) -> (Transaction, Vec<Action>, Result<(), BusError>) {
    let mut transaction = transaction;
    let mut trace: Vec<Action> = Vec::new();
    let mut input: u32 = 0;
    loop {
        let (next, action) = transaction.step(input);
        transaction = next;
        trace.push(action);
        match action {
            Action::Sample(register) => input = harness.read(register),
            Action::Perform(op) => {
                harness.perform(op);
                input = 0;
            }
            Action::Finished(result) => return (transaction, trace, result),
        }
        assert!(trace.len() < 100_000, "the transfer does not end");
    }
}

fn accesses(trace: &[Action]) -> Vec<Action> {
    let mut kept: Vec<Action> = Vec::new();
    for action in trace {
        match action {
            Action::Sample(Register::I2cIsr) | Action::Finished(_) => {}
            other => kept.push(*other),
        }
    }
    kept
}

fn count(trace: &[Action], wanted: Action) -> usize {
    trace.iter().filter(|action| **action == wanted).count()
}

fn master(max_polls: u32) -> I2cMaster {
    I2cMaster::new(8_000_000, 100_000, 6, 7, false, max_polls).expect("supported configuration")
}

fn txdr(byte: u8) -> Action {
    Action::Perform(RegisterOp::Write { register: Register::I2cTxdr, value: u32::from(byte) })
}

#[test]
fn write_then_read_returns_the_written_byte() {
    let master = master(100);
    let mut harness = Harness::new(0x20);
    let write = master.write(0x20, 0x20, 0x57).expect("valid request");
    let (_, _, written) = drive(&mut harness, write);
    assert_eq!(written, Ok(()));
    assert_eq!(harness.memory[0x20], 0x57);

    let read = master.read(0x20, 0x20, 1).expect("valid request");
    let (finished, _, result) = drive(&mut harness, read);
    assert_eq!(result, Ok(()));
    let mut buffer: [u8; 1] = [0];
    buffer.copy_from_slice(finished.data());
    assert_eq!(buffer[0], 0x57);
    assert_eq!(harness.transmitted, vec![0x20, 0x57, 0x20]);
    assert_eq!(harness.stops, vec![0, 1]);
}

#[test]
fn write_then_read_round_trips_for_other_values() {
    let master = master(8);
    for (address, register, byte) in [(0x19u8, 0x00u8, 0x00u8), (0x7F, 0xFF, 0xFF), (0x00, 0x2C, 0xA5)] {
        let mut harness = Harness::new(address);
        harness.memory = [0x11; 256];
        harness.delay = 3;
        let (_, _, written) = drive(&mut harness, master.write(address, register, byte).expect("valid"));
        assert_eq!(written, Ok(()));
        let (finished, _, result) = drive(&mut harness, master.read(address, register, 1).expect("valid"));
        assert_eq!(result, Ok(()));
        assert_eq!(finished.into_data(), vec![byte]);
    }
}

#[test]
fn read_of_n_bytes_transmits_once_and_receives_n_times() {
    let master = master(50);
    for length in [1u8, 2, 5, 255] {
        let mut harness = Harness::new(0x19);
        for i in 0..256usize {
            harness.memory[i] = (i as u8) ^ 0x5A;
        }
        harness.delay = 2;
        let read = master.read(0x19, 0x28, length).expect("valid request");
        let (finished, trace, result) = drive(&mut harness, read);
        assert_eq!(result, Ok(()));
        assert_eq!(harness.transmitted, vec![0x28]);
        assert_eq!(count(&trace, txdr(0x28)), 1);
        assert_eq!(count(&trace, Action::Sample(Register::I2cRxdr)), usize::from(length));
        assert_eq!(harness.receptions, u32::from(length));
        assert_eq!(harness.stops, vec![u32::from(length)]);
        assert_eq!(count(&trace, Action::Perform(stop())), 0);
        let expected: Vec<u8> = (0..usize::from(length)).map(|i| (((0x28 + i) % 256) as u8) ^ 0x5A).collect();
        assert_eq!(finished.data(), &expected);
        assert_eq!(finished.stage(), Stage::Completed);
        assert_eq!(finished.outcome(), Some(Ok(())));
    }
}

#[test]
fn read_asks_for_the_scripted_accesses_in_order() {
    let master = master(10);
    let mut harness = Harness::new(0x19);
    let (_, trace, result) = drive(&mut harness, master.read(0x19, 0x0F, 3).expect("valid request"));
    assert_eq!(result, Ok(()));
    assert_eq!(
        accesses(&trace),
        vec![
            Action::Perform(RegisterOp::Modify {
                register: Register::I2cCr2,
                clear: 0x02FF_07FF,
                set: (0x19 << 1) | (1 << 16),
            }),
            Action::Perform(RegisterOp::Modify { register: Register::I2cCr2, clear: 0, set: 1 << 13 }),
            txdr(0x0F),
            Action::Perform(RegisterOp::Modify {
                register: Register::I2cCr2,
                clear: 0x02FF_0400,
                set: (3 << 16) | (1 << 10) | (1 << 25),
            }),
            Action::Perform(RegisterOp::Modify { register: Register::I2cCr2, clear: 0, set: 1 << 13 }),
            Action::Sample(Register::I2cRxdr),
            Action::Sample(Register::I2cRxdr),
            Action::Sample(Register::I2cRxdr),
        ]
    );
    assert_eq!(trace[0], Action::Sample(Register::I2cIsr));
    assert_eq!(trace[trace.len() - 1], Action::Finished(Ok(())));
}

#[test]
fn write_asks_for_the_scripted_accesses_in_order() {
    let master = master(10);
    let mut harness = Harness::new(0x20);
    let write = master.write(0x20, 0x20, 0x57).expect("valid request");
    let (finished, trace, result) = drive(&mut harness, write);
    assert_eq!(result, Ok(()));
    assert_eq!(
        accesses(&trace),
        vec![
            Action::Perform(RegisterOp::Modify {
                register: Register::I2cCr2,
                clear: 0x02FF_07FF,
                set: (0x20 << 1) | (1 << 16),
            }),
            Action::Perform(RegisterOp::Modify { register: Register::I2cCr2, clear: 0, set: 1 << 13 }),
            txdr(0x20),
            Action::Perform(RegisterOp::Modify {
                register: Register::I2cCr2,
                clear: 0x02FF_0400,
                set: (1 << 16) | (1 << 25),
            }),
            Action::Perform(RegisterOp::Modify { register: Register::I2cCr2, clear: 0, set: 1 << 13 }),
            txdr(0x57),
        ]
    );
    assert_eq!(harness.transmitted, vec![0x20, 0x57]);
    assert_eq!(harness.stops, vec![0]);
    assert_eq!(finished.data(), &vec![0x57]);
}

#[test]
fn multi_byte_write_sends_every_byte() {
    let descriptor = TransactionDescriptor {
        device_address: 0x19,
        register_address: 0x10,
        direction: Direction::Write,
        byte_count: 3,
    };
    let transaction = Transaction::begin(descriptor, vec![1, 2, 3], 10).expect("valid request");
    let mut harness = Harness::new(0x19);
    let (_, trace, result) = drive(&mut harness, transaction);
    assert_eq!(result, Ok(()));
    assert_eq!(harness.transmitted, vec![0x10, 1, 2, 3]);
    assert_eq!(&harness.memory[0x10..0x13], &[1, 2, 3]);
    assert_eq!(count(&trace, Action::Sample(Register::I2cRxdr)), 0);
}

#[test]
fn nack_on_the_address_phase_returns_nack_received() {
    let master = master(1000);
    let mut harness = Harness::new(0x20);
    let read = master.read(0x21, 0x20, 1).expect("valid request");
    let (finished, trace, result) = drive(&mut harness, read);
    assert_eq!(result, Err(BusError::NackReceived));
    assert_eq!(finished.outcome(), Some(Err(BusError::NackReceived)));
    assert_eq!(finished.stage(), Stage::Failed(BusError::NackReceived));
    assert_eq!(
        trace,
        vec![
            Action::Sample(Register::I2cIsr),
            Action::Perform(address_phase(0x21)),
            Action::Perform(start()),
            Action::Sample(Register::I2cIsr),
            Action::Perform(stop()),
            Action::Finished(Err(BusError::NackReceived)),
        ]
    );
    assert_eq!(stop(), RegisterOp::Modify { register: Register::I2cCr2, clear: 0, set: 1 << 14 });
    assert_eq!(harness.stops.len(), 1);
    assert!(harness.transmitted.is_empty());
}

#[test]
fn nack_on_the_address_phase_of_a_write_returns_nack_received() {
    let master = master(3);
    let mut harness = Harness::new(0x20);
    harness.delay = 2;
    let (_, trace, result) = drive(&mut harness, master.write(0x55, 0x20, 0x57).expect("valid request"));
    assert_eq!(result, Err(BusError::NackReceived));
    assert_eq!(count(&trace, Action::Sample(Register::I2cIsr)), 4);
    assert_eq!(count(&trace, Action::Perform(stop())), 1);
    assert_eq!(harness.memory[0x20], 0);
}

#[test]
fn nack_in_any_wait_stops_the_transfer() {
    let master = master(5);
    // While the register address is on its way.
    let inputs: [u32; 8] = [
        0, 0, 0, 0, ISR_TXIS, 0, ISR_NACKF | ISR_TXE, 0,
    ];
    let (finished, trace) = master.read(0x19, 0x0F, 2).expect("valid request").replay(&inputs);
    assert_eq!(trace[6], Action::Perform(stop()));
    assert_eq!(trace[7], Action::Finished(Err(BusError::NackReceived)));
    assert_eq!(finished.outcome(), Some(Err(BusError::NackReceived)));
    // In the data phase, with one byte already received.
    let inputs: [u32; 14] = [
        0, 0, 0, 0, ISR_TXIS, 0, ISR_TXE, 0, 0, ISR_RXNE, 0xAB, ISR_NACKF | ISR_RXNE,
        0, 0,
    ];
    let (finished, trace) = master.read(0x19, 0x0F, 2).expect("valid request").replay(&inputs);
    assert_eq!(trace[9], Action::Sample(Register::I2cRxdr));
    assert_eq!(trace[10], Action::Sample(Register::I2cIsr));
    assert_eq!(trace[11], Action::Perform(stop()));
    assert_eq!(trace[12], Action::Finished(Err(BusError::NackReceived)));
    assert_eq!(trace[13], Action::Finished(Err(BusError::NackReceived)));
    assert_eq!(finished.data(), &vec![0xAB]);
}

#[test]
fn silent_device_times_out_after_the_poll_budget() {
    for max_polls in [1u32, 2, 7] {
        let master = master(max_polls);
        let mut transaction = master.read(0x19, 0x0F, 1).expect("valid request");
        let mut trace: Vec<Action> = Vec::new();
        loop {
            let (next, action) = transaction.step(0);
            transaction = next;
            trace.push(action);
            if let Action::Finished(result) = action {
                assert_eq!(result, Err(BusError::Timeout));
                break;
            }
        }
        // The bus check, then the whole budget of the first wait.
        assert_eq!(count(&trace, Action::Sample(Register::I2cIsr)), 1 + max_polls as usize);
        assert_eq!(trace.len(), 4 + max_polls as usize);
        assert_eq!(count(&trace, Action::Perform(stop())), 0);
        assert_eq!(transaction.outcome(), Some(Err(BusError::Timeout)));
    }
}

#[test]
fn zero_poll_budget_times_out_without_polling() {
    let master = master(0);
    let inputs: [u32; 4] = [
        0, 0, 0, 0,
    ];
    let (finished, trace) = master.write(0x19, 0x0F, 1).expect("valid request").replay(&inputs);
    assert_eq!(
        trace,
        vec![
            Action::Sample(Register::I2cIsr),
            Action::Perform(address_phase(0x19)),
            Action::Perform(start()),
            Action::Finished(Err(BusError::Timeout)),
        ]
    );
    assert_eq!(finished.stage(), Stage::Failed(BusError::Timeout));
}

#[test]
fn timeout_in_the_data_phase_keeps_what_was_received() {
    let master = master(2);
    let inputs: [u32; 14] = [
        0, 0, 0, 0, ISR_TXIS, 0, 0, ISR_TXE, 0, 0, ISR_RXNE, 0x1_23, 0, 0,
    ];
    let (finished, trace) = master.read(0x19, 0x0F, 3).expect("valid request").replay(&inputs);
    assert_eq!(trace[13], Action::Finished(Err(BusError::Timeout)));
    assert_eq!(finished.data(), &vec![0x23]);
    assert_eq!(finished.phase(), Phase::Stopped);
}

#[test]
fn busy_bus_is_reported_before_anything_is_programmed() {
    let master = master(10);
    let mut harness = Harness::new(0x19);
    harness.isr |= ISR_BUSY;
    let (finished, trace, result) = drive(&mut harness, master.read(0x19, 0x0F, 1).expect("valid request"));
    assert_eq!(result, Err(BusError::BusBusy));
    assert_eq!(trace, vec![Action::Sample(Register::I2cIsr), Action::Finished(Err(BusError::BusBusy))]);
    assert_eq!(harness.starts, 0);
    assert_eq!(finished.outcome(), Some(Err(BusError::BusBusy)));
}

#[test]
fn lost_arbitration_is_reported_without_stop() {
    let master = master(10);
    let inputs: [u32; 6] = [
        0, 0, 0, 0, ISR_ARLO | ISR_TXIS, 0,
    ];
    let (finished, trace) =
        master.write(0x19, 0x0F, 1).expect("valid request").replay(&inputs);
    assert_eq!(trace[4], Action::Finished(Err(BusError::ArbitrationLost)));
    assert_eq!(trace[5], Action::Finished(Err(BusError::ArbitrationLost)));
    assert_eq!(count(&trace, Action::Perform(stop())), 0);
    assert_eq!(finished.outcome(), Some(Err(BusError::ArbitrationLost)));
}

#[test]
fn nack_outranks_lost_arbitration_and_the_awaited_flag() {
    assert_eq!(poll(ISR_NACKF | ISR_ARLO | ISR_TXIS, ISR_TXIS, 5), Poll::Failed(BusError::NackReceived));
    assert_eq!(poll(ISR_ARLO | ISR_TXIS, ISR_TXIS, 5), Poll::Failed(BusError::ArbitrationLost));
    assert_eq!(poll(ISR_TXIS | ISR_TXE, ISR_TXIS, 0), Poll::Ready);
    assert_eq!(poll(ISR_TXE | ISR_RXNE | ISR_BUSY, ISR_TXIS, 1), Poll::Retry);
    assert_eq!(poll(ISR_TXE | ISR_RXNE | ISR_BUSY, ISR_TXIS, 0), Poll::Failed(BusError::Timeout));
    assert_eq!(poll(0, ISR_RXNE, u32::MAX), Poll::Retry);
}

#[test]
fn transfer_is_over_within_the_step_bound() {
    for (length, max_polls) in [(1u8, 0u32), (1, 1), (3, 4), (255, 2)] {
        let master = master(max_polls);
        let bound: usize = 2 * max_polls as usize + usize::from(length) * (max_polls as usize + 1) + 7;
        // The slowest device that still answers: every flag shows on the last allowed sample.
        let mut harness = Harness::new(0x19);
        harness.delay = max_polls.saturating_sub(1);
        let (_, trace, _) = drive(&mut harness, master.read(0x19, 0x0F, length).expect("valid request"));
        assert!(trace.len() <= bound);
        if max_polls > 0 {
            assert_eq!(trace[trace.len() - 1], Action::Finished(Ok(())));
            assert_eq!(trace.len(), bound);
        }
    }
}

#[test]
fn finished_transfer_keeps_reporting_its_result() {
    let master = master(4);
    let mut harness = Harness::new(0x19);
    harness.memory[0x0F] = 0x33;
    let (finished, _, result) = drive(&mut harness, master.read(0x19, 0x0F, 1).expect("valid request"));
    assert_eq!(result, Ok(()));
    let (again, action) = finished.step(0xFFFF_FFFF);
    assert_eq!(action, Action::Finished(Ok(())));
    let (again, action) = again.step(0);
    assert_eq!(action, Action::Finished(Ok(())));
    assert_eq!(again.data(), &vec![0x33]);
    assert_eq!(again.descriptor().byte_count, 1);
}

#[test]
fn phases_advance_from_idle_to_stopped() {
    let master = master(4);
    let mut transaction = master.read(0x19, 0x0F, 1).expect("valid request");
    assert_eq!(transaction.phase(), Phase::Idle);
    assert_eq!(transaction.stage(), Stage::Idle);
    assert_eq!(transaction.outcome(), None);
    let inputs: [u32; 11] = [0, 0, 0, 0, ISR_TXIS, 0, ISR_TXE, 0, 0, ISR_RXNE, 0x42];
    let stages: [Stage; 11] = [
        Stage::BusCheck,
        Stage::AddressSetup,
        Stage::AddressStart,
        Stage::AddressReady,
        Stage::RegisterWrite,
        Stage::AddressSent,
        Stage::DataSetup,
        Stage::DataStart,
        Stage::DataReady,
        Stage::DataTransfer,
        Stage::Completed,
    ];
    let phases: [Phase; 11] = [
        Phase::Idle,
        Phase::AddressPhase,
        Phase::AddressPhase,
        Phase::AddressPhase,
        Phase::AddressPhase,
        Phase::AddressPhase,
        Phase::DataPhase,
        Phase::DataPhase,
        Phase::DataPhase,
        Phase::DataPhase,
        Phase::Stopped,
    ];
    for i in 0..11usize {
        let (next, _) = transaction.step(inputs[i]);
        transaction = next;
        assert_eq!(transaction.stage(), stages[i]);
        assert_eq!(transaction.phase(), phases[i]);
    }
    assert_eq!(transaction.into_data(), vec![0x42]);
}

#[test]
fn requests_outside_the_bus_limits_are_refused() {
    let master = master(4);
    assert!(master.read(0x80, 0, 1).is_none());
    assert!(master.read(0xFF, 0, 1).is_none());
    assert!(master.read(0x7F, 0, 0).is_none());
    assert!(master.read(0x7F, 0, 1).is_some());
    assert!(master.read(0x00, 0xFF, 255).is_some());
    assert!(master.write(0x80, 0, 0).is_none());
    assert!(master.write(0x7F, 0, 0).is_some());
    let read = TransactionDescriptor {
        device_address: 1,
        register_address: 2,
        direction: Direction::Read,
        byte_count: 2,
    };
    let write = TransactionDescriptor { direction: Direction::Write, ..read };
    assert!(Transaction::begin(read, Vec::new(), 1).is_some());
    assert!(Transaction::begin(read, vec![0, 0], 1).is_none());
    assert!(Transaction::begin(write, vec![0, 0], 1).is_some());
    assert!(Transaction::begin(write, vec![0], 1).is_none());
    assert!(Transaction::begin(write, Vec::new(), 1).is_none());
    assert!(!TransactionDescriptor { byte_count: 0, ..read }.is_valid());
    assert!(!TransactionDescriptor { device_address: 0x80, ..read }.is_valid());
}

#[test]
fn device_address_is_sent_shifted_with_the_direction_in_bit_0() {
    let read = TransactionDescriptor {
        device_address: 0x19,
        register_address: 0,
        direction: Direction::Read,
        byte_count: 1,
    };
    let write = TransactionDescriptor { direction: Direction::Write, ..read };
    assert_eq!(read.address_header(), 0x32);
    assert_eq!(read.data_header(), 0x33);
    assert_eq!(write.address_header(), 0x32);
    assert_eq!(write.data_header(), 0x32);
    let last = TransactionDescriptor { device_address: 0x7F, ..read };
    assert_eq!(last.address_header(), 0xFE);
    assert_eq!(last.data_header(), 0xFF);
}

#[test]
fn control_register_is_programmed_per_phase() {
    assert_eq!(
        address_phase(0x19),
        RegisterOp::Modify { register: Register::I2cCr2, clear: 0x02FF_07FF, set: 0x0001_0032 }
    );
    assert_eq!(address_phase(0x19).apply(0xFFFF_FFFF), 0xFD01_F832);
    assert_eq!(
        data_phase(Direction::Read, 255),
        RegisterOp::Modify { register: Register::I2cCr2, clear: 0x02FF_0400, set: 0x02FF_0400 }
    );
    assert_eq!(
        data_phase(Direction::Write, 1),
        RegisterOp::Modify { register: Register::I2cCr2, clear: 0x02FF_0400, set: 0x0201_0000 }
    );
    assert_eq!(data_phase(Direction::Read, 2).apply(0x0001_0032), 0x0202_0432);
    assert_eq!(start().apply(0x0001_0032), 0x0001_2032);
    assert_eq!(start().apply(0) & CR2_START, CR2_START);
    assert_eq!(stop().apply(0) & CR2_STOP, CR2_STOP);
    assert_eq!(data_phase(Direction::Read, 2).apply(0) & CR2_AUTOEND, CR2_AUTOEND);
    assert_eq!(address_phase(0x19).apply(0xFFFF_FFFF) & CR2_AUTOEND, 0);
}

#[test]
fn received_byte_is_the_low_byte_of_the_sample() {
    let master = master(4);
    let inputs: [u32; 13] = [
        0, 0, 0, 0, ISR_TXIS, 0, ISR_TXE, 0, 0, ISR_RXNE, 0xFFFF_FF12, ISR_RXNE,
        0x0000_0134,
    ];
    let (finished, _) = master.read(0x19, 0x0F, 2).expect("valid request").replay(&inputs);
    assert_eq!(finished.outcome(), Some(Ok(())));
    assert_eq!(finished.into_data(), vec![0x12, 0x34]);
}

#[test]
fn storing_read_overwrites_control_register_2() {
    let master = master(10);
    let mut harness = Harness::new(0x19);
    harness.cr2 = 0xFFFF_FFFF;
    harness.memory[0x0F] = 0x33;
    let read = master.read_storing(0x19, 0x0F, 1).expect("valid request");
    assert_eq!(read.access(), ControlAccess::Store);
    let (finished, trace, result) = drive(&mut harness, read);
    assert_eq!(result, Ok(()));
    assert_eq!(harness.control_stores[0], 0x0001_0032);
    assert_eq!(harness.control_stores[1], 0x0001_2032);
    assert_eq!(harness.control_stores[1], harness.control_stores[0] | (1 << 13));
    assert_eq!(harness.transmitted, vec![0x0F]);
    assert_eq!(finished.data(), &vec![0x33]);
    assert_eq!(
        trace[1],
        Action::Perform(RegisterOp::Write { register: Register::I2cCr2, value: 0x0001_0032 })
    );
    assert_eq!(trace[2], Action::Perform(start()));
}

#[test]
fn storing_write_overwrites_control_register_2() {
    let master = master(10);
    let mut harness = Harness::new(0x19);
    harness.cr2 = 0xFFFF_FFFF;
    let write = master.write_storing(0x19, 0x20, 0x57).expect("valid request");
    let (_, trace, result) = drive(&mut harness, write);
    assert_eq!(result, Ok(()));
    assert_eq!(harness.control_stores[0], 0x0001_0032);
    assert_eq!(harness.transmitted, vec![0x20, 0x57]);
    assert_eq!(harness.memory[0x20], 0x57);
    assert_eq!(
        accesses(&trace),
        vec![
            Action::Perform(RegisterOp::Write { register: Register::I2cCr2, value: 0x0001_0032 }),
            Action::Perform(start()),
            txdr(0x20),
            Action::Perform(data_phase(Direction::Write, 1)),
            Action::Perform(start()),
            txdr(0x57),
        ]
    );
}

#[test]
fn modifying_transfer_keeps_the_bits_it_does_not_program() {
    let master = master(10);
    let read = master.read(0x19, 0x0F, 1).expect("valid request");
    assert_eq!(read.access(), ControlAccess::Modify);
    let (_, trace) = read.replay(&[0, 0]);
    assert_eq!(trace[1], Action::Perform(address_phase(0x19)));
    match trace[1] {
        Action::Perform(op) => {
            assert_eq!(op.apply(0xFFFF_FFFF), 0xFD01_F832);
            assert_eq!(op.apply(0), 0x0001_0032);
        }
        _ => panic!("the address phase is not programmed"),
    }
}

#[test]
fn address_store_does_not_depend_on_what_the_register_held() {
    assert_eq!(
        address_store(0x19),
        RegisterOp::Write { register: Register::I2cCr2, value: 0x0001_0032 }
    );
    for before in [0u32, 0xFFFF_FFFF, 0x0000_6000, 0x1234_5678] {
        assert_eq!(address_store(0x19).apply(before), 0x0001_0032);
        assert_eq!(address_store(0x00).apply(before), 0x0001_0000);
        assert_eq!(address_store(0x7F).apply(before), 0x0001_00FE);
    }
}

#[test]
fn storing_transfers_differ_only_in_the_address_phase() {
    let descriptor = TransactionDescriptor {
        device_address: 0x19,
        register_address: 0x0F,
        direction: Direction::Read,
        byte_count: 2,
    };
    let inputs: [u32; 13] =
        [0, 0, 0, 0, ISR_TXIS, 0, ISR_TXE, 0, 0, ISR_RXNE, 0x11, ISR_RXNE, 0x22];
    let (kept, modifying) = Transaction::begin(descriptor, Vec::new(), 4).expect("valid").replay(&inputs);
    let (stored, storing) =
        Transaction::begin_storing(descriptor, Vec::new(), 4).expect("valid").replay(&inputs);
    assert_eq!(modifying.len(), storing.len());
    for i in 0..modifying.len() {
        if i == 1 {
            assert_eq!(modifying[i], Action::Perform(address_phase(0x19)));
            assert_eq!(storing[i], Action::Perform(address_store(0x19)));
        } else {
            assert_eq!(modifying[i], storing[i]);
        }
    }
    assert_eq!(kept.into_data(), vec![0x11, 0x22]);
    assert_eq!(stored.into_data(), vec![0x11, 0x22]);
    assert!(Transaction::begin_storing(descriptor, vec![1], 4).is_none());
    assert!(master(4).read_storing(0x80, 0, 1).is_none());
    assert!(master(4).read_storing(0x19, 0, 0).is_none());
    assert!(master(4).write_storing(0x80, 0, 0).is_none());
}

#[test]
fn storing_transfer_reports_a_rejected_address() {
    let master = master(10);
    let mut harness = Harness::new(0x20);
    harness.cr2 = 0xFFFF_FFFF;
    let (_, trace, result) = drive(&mut harness, master.read_storing(0x19, 0x0F, 1).expect("valid"));
    assert_eq!(result, Err(BusError::NackReceived));
    assert_eq!(
        trace,
        vec![
            Action::Sample(Register::I2cIsr),
            Action::Perform(address_store(0x19)),
            Action::Perform(start()),
            Action::Sample(Register::I2cIsr),
            Action::Perform(stop()),
            Action::Finished(Err(BusError::NackReceived)),
        ]
    );
}
