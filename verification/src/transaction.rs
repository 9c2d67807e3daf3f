//! A register transfer as a state machine: the register's address is
//! written to the device, then the payload is moved in the requested
//! direction after a repeated START, with STOP left to the peripheral.
//!
//! The machine performs no access itself. Each call of `step` is told what
//! the previous access returned and answers with the next access. Every
//! wait for a status flag is bounded by a poll budget, and a rejected byte,
//! a lost arbitration or an exhausted budget ends the transfer with an error.

use crate::bits::field_of;
use crate::registers::{Register, RegisterOp};
use vstd::prelude::*;

verus! {

/// Status flag: transmit data register empty, the byte has left it.
pub const ISR_TXE: u32 = 0x0000_0001;

/// Status flag: the peripheral wants the next byte to transmit.
pub const ISR_TXIS: u32 = 0x0000_0002;

/// Status flag: a received byte waits in the receive data register.
pub const ISR_RXNE: u32 = 0x0000_0004;

/// Status flag: the device did not acknowledge.
pub const ISR_NACKF: u32 = 0x0000_0010;

/// Status flag: arbitration was lost to another master.
pub const ISR_ARLO: u32 = 0x0000_0200;

/// Status flag: a transfer is in progress on the bus.
pub const ISR_BUSY: u32 = 0x0000_8000;

/// Control bit: transfer direction, set for a read.
pub const CR2_RD_WRN: u32 = 0x0000_0400;

/// Control bit: generate a START condition.
pub const CR2_START: u32 = 0x0000_2000;

/// Control bit: generate a STOP condition.
pub const CR2_STOP: u32 = 0x0000_4000;

/// Control bit: generate STOP by itself once the byte count is exhausted.
pub const CR2_AUTOEND: u32 = 0x0200_0000;

/// The control fields programmed for the address phase: device address,
/// direction, byte count and automatic end.
pub const CR2_ADDRESS_FIELDS: u32 = 0x02FF_07FF;

/// The control fields programmed for the data phase: direction, byte count
/// and automatic end.
pub const CR2_DATA_FIELDS: u32 = 0x02FF_0400;

/// Largest 7-bit device address.
pub const MAX_DEVICE_ADDRESS: u8 = 0x7F;

/// Why a transfer ended without success.
#[derive(Clone, Copy, Debug, PartialEq, Eq)]
pub enum BusError {
    /// The bus was already in use when the transfer was to start.
    BusBusy,
    /// Another master won the bus.
    ArbitrationLost,
    /// The device rejected its address or a byte.
    NackReceived,
    /// A status flag did not come up within the poll budget.
    Timeout,
}

/// Which way the payload moves.
#[derive(Clone, Copy, Debug, PartialEq, Eq)]
pub enum Direction {
    /// From the device to the master.
    Read,
    /// From the master to the device.
    Write,
}

/// How the address phase programs control register 2.
#[derive(Clone, Copy, Debug, PartialEq, Eq)]
pub enum ControlAccess {
    /// Replace the transfer's fields and write every other bit back as it
    /// was read.
    Modify,
    /// Store the whole register, so that every control bit the transfer
    /// does not set is cleared, whatever a previous use left behind.
    Store,
}

/// What a transfer is asked to do.
#[derive(Clone, Copy, Debug, PartialEq, Eq)]
pub struct TransactionDescriptor {
    /// 7-bit address of the device.
    pub device_address: u8,
    /// Address of the register inside the device.
    pub register_address: u8,
    /// Direction of the payload.
    pub direction: Direction,
    /// Number of payload bytes, 1 to 255.
    pub byte_count: u8,
}

impl TransactionDescriptor {
    /// The device address has seven bits and there is at least one byte to
    /// move.
    pub open spec fn wf(self) -> bool {
        self.device_address <= MAX_DEVICE_ADDRESS && self.byte_count >= 1
    }

    /// The byte that opens a phase on the wire: the device address shifted
    /// left by one, with the direction in bit 0 (1 for a read).
    pub open spec fn header_of(self, direction: Direction) -> int {
        self.device_address * 2 + if direction == Direction::Read {
            1int
        } else {
            0int
        }
    }

    /// Whether the descriptor is well formed.
    pub fn is_valid(&self) -> (valid: bool)
        ensures
            valid == self.wf(),
    {
        self.device_address <= MAX_DEVICE_ADDRESS && self.byte_count >= 1
    }

    /// The byte that opens the address phase on the wire, which always
    /// writes.
    pub fn address_header(&self) -> (header: u8)
        requires
            self.wf(),
        ensures
            header == self.header_of(Direction::Write),
    {
        self.device_address * 2
    }

    /// The byte that opens the data phase on the wire.
    pub fn data_header(&self) -> (header: u8)
        requires
            self.wf(),
        ensures
            header == self.header_of(self.direction),
    {
        match self.direction {
            Direction::Read => self.device_address * 2 + 1,
            Direction::Write => self.device_address * 2,
        }
    }
}

/// The coarse phase of a transfer as seen on the bus.
#[derive(Clone, Copy, Debug, PartialEq, Eq)]
pub enum Phase {
    /// Nothing was put on the bus yet.
    Idle,
    /// The register's address is being sent.
    AddressPhase,
    /// The payload is being moved.
    DataPhase,
    /// The transfer is over, or is being given up.
    Stopped,
}

/// Where a transfer stands: which access is outstanding.
#[derive(Clone, Copy, Debug, PartialEq, Eq)]
pub enum Stage {
    /// Nothing was asked for yet.
    Idle,
    /// The status register is being sampled to see whether the bus is free.
    BusCheck,
    /// The address phase is being programmed.
    AddressSetup,
    /// START is being asserted for the address phase.
    AddressStart,
    /// Status is being polled until the register address can be written.
    AddressReady,
    /// The register address is being written to the transmit register.
    RegisterWrite,
    /// Status is being polled until the register address has left.
    AddressSent,
    /// The data phase is being programmed.
    DataSetup,
    /// START is being asserted again for the data phase.
    DataStart,
    /// Status is being polled until the next payload byte can be moved.
    DataReady,
    /// A payload byte is being read or written.
    DataTransfer,
    /// STOP is being asserted after the device did not acknowledge.
    Stopping,
    /// Every byte was moved.
    Completed,
    /// The transfer was given up.
    Failed(BusError),
}

impl Stage {
    /// Whether the transfer is over.
    pub open spec fn is_final(self) -> bool {
        self is Completed || self is Failed
    }

    /// Whether the outstanding access is a status poll.
    pub open spec fn is_polling(self) -> bool {
        self is AddressReady || self is AddressSent || self is DataReady
    }

    /// The phase a stage belongs to.
    pub open spec fn phase_of(self) -> Phase {
        match self {
            Stage::Idle | Stage::BusCheck => Phase::Idle,
            Stage::AddressSetup
            | Stage::AddressStart
            | Stage::AddressReady
            | Stage::RegisterWrite
            | Stage::AddressSent => Phase::AddressPhase,
            Stage::DataSetup | Stage::DataStart | Stage::DataReady | Stage::DataTransfer => Phase::DataPhase,
            Stage::Stopping | Stage::Completed | Stage::Failed(_) => Phase::Stopped,
        }
    }
}

/// What the caller is to do next.
#[derive(Clone, Copy, Debug, PartialEq, Eq)]
pub enum Action {
    /// Read the register and hand its value to the next `step`.
    Sample(Register),
    /// Carry out the access; the next `step` ignores its input.
    Perform(RegisterOp),
    /// Nothing: the transfer is over, with this result.
    Finished(Result<(), BusError>),
}

/// What one status sample means for a wait.
#[derive(Clone, Copy, Debug, PartialEq, Eq)]
pub enum Poll {
    /// The awaited flag is up.
    Ready,
    /// The flag is down and the budget allows another sample.
    Retry,
    /// The wait is over without the flag.
    Failed(BusError),
}

/// The verdict on a status sample: a NACK counts first, then a lost
/// arbitration, then the awaited flag, then the exhausted budget.
pub open spec fn poll_spec(status: u32, flag: u32, polls_left: u32) -> Poll {
    if status & ISR_NACKF != 0 {
        Poll::Failed(BusError::NackReceived)
    } else if status & ISR_ARLO != 0 {
        Poll::Failed(BusError::ArbitrationLost)
    } else if status & flag != 0 {
        Poll::Ready
    } else if polls_left == 0 {
        Poll::Failed(BusError::Timeout)
    } else {
        Poll::Retry
    }
}

/// Judges one status sample of a wait for `flag` that may sample
/// `polls_left` more times.
pub fn poll(status: u32, flag: u32, polls_left: u32) -> (verdict: Poll)
    ensures
        verdict == poll_spec(status, flag, polls_left),
{
    if status & ISR_NACKF != 0 {
        Poll::Failed(BusError::NackReceived)
    } else if status & ISR_ARLO != 0 {
        Poll::Failed(BusError::ArbitrationLost)
    } else if status & flag != 0 {
        Poll::Ready
    } else if polls_left == 0 {
        Poll::Failed(BusError::Timeout)
    } else {
        Poll::Retry
    }
}

/// The word that holds the address phase's fields and nothing else: the
/// device address in bits 1 to 7 of the address field and a byte count of
/// one, with direction write and automatic end off.
pub open spec fn address_word(device_address: u8) -> u32 {
    (device_address * 2 + 0x0001_0000) as u32
}

/// The access that programs the address phase by storing control register
/// 2 whole: the address phase's fields, and every other bit clear.
pub open spec fn address_store_op(device_address: u8) -> RegisterOp {
    RegisterOp::Write { register: Register::I2cCr2, value: address_word(device_address) }
}

/// The access that programs the address phase, in the way asked for.
pub open spec fn address_op(access: ControlAccess, device_address: u8) -> RegisterOp {
    match access {
        ControlAccess::Modify => address_phase_op(device_address),
        ControlAccess::Store => address_store_op(device_address),
    }
}

/// The access that programs the address phase by read-modify-write: the
/// device address in bits 1 to 7 of the address field, a byte count of one,
/// direction write, no automatic end, and every other bit as it was.
pub open spec fn address_phase_op(device_address: u8) -> RegisterOp {
    RegisterOp::Modify {
        register: Register::I2cCr2,
        clear: CR2_ADDRESS_FIELDS,
        set: address_word(device_address),
    }
}

/// The access that programs the data phase: the payload's byte count, its
/// direction, automatic end.
pub open spec fn data_phase_op(direction: Direction, byte_count: u8) -> RegisterOp {
    RegisterOp::Modify {
        register: Register::I2cCr2,
        clear: CR2_DATA_FIELDS,
        set: (byte_count * 0x0001_0000 + CR2_AUTOEND + if direction == Direction::Read {
            CR2_RD_WRN
        } else {
            0u32
        }) as u32,
    }
}

/// The access that asserts START.
pub open spec fn start_op() -> RegisterOp {
    RegisterOp::Modify { register: Register::I2cCr2, clear: 0, set: CR2_START }
}

/// The access that asserts STOP.
pub open spec fn stop_op() -> RegisterOp {
    RegisterOp::Modify { register: Register::I2cCr2, clear: 0, set: CR2_STOP }
}

/// The received byte held by a sample of the receive data register.
pub open spec fn low_byte(word: u32) -> u8 {
    (word & 0xFF) as u8
}

/// The state of a transfer.
pub struct TransactionState {
    /// What the transfer is asked to do.
    pub descriptor: TransactionDescriptor,
    /// How the address phase programs control register 2.
    pub access: ControlAccess,
    /// How many status samples each wait may take.
    pub max_polls: u32,
    /// Which access is outstanding.
    pub stage: Stage,
    /// How many more samples the current wait may take after the
    /// outstanding one.
    pub polls_left: u32,
    /// How many payload bytes were moved.
    pub done: u8,
    /// The payload: for a write, the bytes to send; for a read, the bytes
    /// received so far.
    pub data: Seq<u8>,
}

impl TransactionState {
    /// The state is one that a transfer can be in.
    pub open spec fn wf(self) -> bool {
        &&& self.descriptor.wf()
        &&& self.done <= self.descriptor.byte_count
        &&& self.descriptor.direction == Direction::Read ==> self.data.len() == self.done
        &&& self.descriptor.direction == Direction::Write ==> self.data.len() == self.descriptor.byte_count
        &&& self.stage.is_polling() ==> self.polls_left < self.max_polls
        &&& self.stage.phase_of() == Phase::Idle || self.stage.phase_of() == Phase::AddressPhase
            || self.stage is DataSetup || self.stage is DataStart ==> self.done == 0
        &&& self.stage is DataReady || self.stage is DataTransfer ==> self.done < self.descriptor.byte_count
        &&& self.stage is Completed ==> self.done == self.descriptor.byte_count
    }

    /// The result of the transfer, once it is over.
    pub open spec fn outcome(self) -> Option<Result<(), BusError>> {
        match self.stage {
            Stage::Completed => Some(Ok(())),
            Stage::Failed(error) => Some(Err(error)),
            _ => None,
        }
    }
}

/// The state a transfer starts in. A read starts with nothing received; a
/// write starts with its payload.
pub open spec fn initial_state(
    descriptor: TransactionDescriptor,
    payload: Seq<u8>,
    max_polls: u32,
    access: ControlAccess,
) -> TransactionState {
    TransactionState { descriptor, access, max_polls, stage: Stage::Idle, polls_left: 0, done: 0, data: payload }
}

/// Whether a payload suits a descriptor: empty for a read, of the announced
/// length for a write.
pub open spec fn payload_fits(descriptor: TransactionDescriptor, payload: Seq<u8>) -> bool {
    match descriptor.direction {
        Direction::Read => payload.len() == 0,
        Direction::Write => payload.len() == descriptor.byte_count,
    }
}

/// Giving a transfer up: after a NACK, STOP is asserted first; otherwise the
/// transfer is over at once.
pub open spec fn abort(state: TransactionState, error: BusError) -> (TransactionState, Action) {
    if error == BusError::NackReceived {
        (TransactionState { stage: Stage::Stopping, ..state }, Action::Perform(stop_op()))
    } else {
        (TransactionState { stage: Stage::Failed(error), ..state }, Action::Finished(Err(error)))
    }
}

/// Entering a wait: the first status sample is asked for, unless the budget
/// allows none.
pub open spec fn begin_wait(state: TransactionState, stage: Stage) -> (TransactionState, Action) {
    if state.max_polls == 0 {
        abort(state, BusError::Timeout)
    } else {
        (
            TransactionState { stage, polls_left: (state.max_polls - 1) as u32, ..state },
            Action::Sample(Register::I2cIsr),
        )
    }
}

/// Going on with a wait after a status sample: `ready` is what follows once
/// the flag is up.
pub open spec fn continue_wait(
    state: TransactionState,
    status: u32,
    flag: u32,
    ready: (TransactionState, Action),
) -> (TransactionState, Action) {
    match poll_spec(status, flag, state.polls_left) {
        Poll::Ready => ready,
        Poll::Retry => (
            TransactionState { polls_left: (state.polls_left - 1) as u32, ..state },
            Action::Sample(Register::I2cIsr),
        ),
        Poll::Failed(error) => abort(state, error),
    }
}

/// The status flag that shows a payload byte can be moved.
pub open spec fn data_flag(direction: Direction) -> u32 {
    match direction {
        Direction::Read => ISR_RXNE,
        Direction::Write => ISR_TXIS,
    }
}

/// The access that moves the next payload byte.
pub open spec fn transfer_action(state: TransactionState) -> Action {
    match state.descriptor.direction {
        Direction::Read => Action::Sample(Register::I2cRxdr),
        Direction::Write => Action::Perform(
            RegisterOp::Write { register: Register::I2cTxdr, value: state.data[state.done as int] as u32 },
        ),
    }
}

/// The state after the outstanding payload byte was moved; for a read,
/// `input` is the sample of the receive data register.
pub open spec fn after_transfer(state: TransactionState, input: u32) -> TransactionState {
    TransactionState {
        done: (state.done + 1) as u8,
        data: match state.descriptor.direction {
            Direction::Read => state.data.push(low_byte(input)),
            Direction::Write => state.data,
        },
        ..state
    }
}

/// One step of a transfer: given the state and what the outstanding access
/// returned, the next state and the next access.
pub open spec fn step_spec(state: TransactionState, input: u32) -> (TransactionState, Action) {
    match state.stage {
        Stage::Idle => (TransactionState { stage: Stage::BusCheck, ..state }, Action::Sample(Register::I2cIsr)),
        Stage::BusCheck => if input & ISR_BUSY != 0 {
            abort(state, BusError::BusBusy)
        } else {
            (
                TransactionState { stage: Stage::AddressSetup, ..state },
                Action::Perform(address_op(state.access, state.descriptor.device_address)),
            )
        },
        Stage::AddressSetup => (
            TransactionState { stage: Stage::AddressStart, ..state },
            Action::Perform(start_op()),
        ),
        Stage::AddressStart => begin_wait(state, Stage::AddressReady),
        Stage::AddressReady => continue_wait(
            state,
            input,
            ISR_TXIS,
            (
                TransactionState { stage: Stage::RegisterWrite, ..state },
                Action::Perform(
                    RegisterOp::Write {
                        register: Register::I2cTxdr,
                        value: state.descriptor.register_address as u32,
                    },
                ),
            ),
        ),
        Stage::RegisterWrite => begin_wait(state, Stage::AddressSent),
        Stage::AddressSent => continue_wait(
            state,
            input,
            ISR_TXE,
            (
                TransactionState { stage: Stage::DataSetup, ..state },
                Action::Perform(data_phase_op(state.descriptor.direction, state.descriptor.byte_count)),
            ),
        ),
        Stage::DataSetup => (TransactionState { stage: Stage::DataStart, ..state }, Action::Perform(start_op())),
        Stage::DataStart => begin_wait(state, Stage::DataReady),
        Stage::DataReady => continue_wait(
            state,
            input,
            data_flag(state.descriptor.direction),
            (TransactionState { stage: Stage::DataTransfer, ..state }, transfer_action(state)),
        ),
        Stage::DataTransfer => {
            let moved = after_transfer(state, input);
            if moved.done == moved.descriptor.byte_count {
                (TransactionState { stage: Stage::Completed, ..moved }, Action::Finished(Ok(())))
            } else {
                begin_wait(moved, Stage::DataReady)
            }
        },
        Stage::Stopping => (
            TransactionState { stage: Stage::Failed(BusError::NackReceived), ..state },
            Action::Finished(Err(BusError::NackReceived)),
        ),
        Stage::Completed => (state, Action::Finished(Ok(()))),
        Stage::Failed(error) => (state, Action::Finished(Err(error))),
    }
}

/// The state reached from `state` by one step per input, and the accesses
/// asked for on the way, in order. Input `i + 1` is what access `i` returned.
pub open spec fn run(state: TransactionState, inputs: Seq<u32>) -> (TransactionState, Seq<Action>)
    decreases inputs.len(),
{
    if inputs.len() == 0 {
        (state, Seq::empty())
    } else {
        let (earlier, trace) = run(state, inputs.drop_last());
        let (next, action) = step_spec(earlier, inputs.last());
        (next, trace.push(action))
    }
}

/// A transfer in progress. It can only be made by `begin` and advanced by
/// `step`, so it is always in a state that a transfer can be in.
pub struct Transaction {
    descriptor: TransactionDescriptor,
    access: ControlAccess,
    max_polls: u32,
    stage: Stage,
    polls_left: u32,
    done: u8,
    data: Vec<u8>,
}

impl View for Transaction {
    type V = TransactionState;

    closed spec fn view(&self) -> TransactionState {
        TransactionState {
            descriptor: self.descriptor,
            access: self.access,
            max_polls: self.max_polls,
            stage: self.stage,
            polls_left: self.polls_left,
            done: self.done,
            data: self.data@,
        }
    }
}

impl Transaction {
    #[verifier::type_invariant]
    spec fn inv(self) -> bool {
        self@.wf()
    }

    /// Starts a transfer whose address phase programs control register 2
    /// by read-modify-write. `payload` holds the bytes of a write and is
    /// empty for a read; `max_polls` bounds the status samples of each wait.
    pub fn begin(descriptor: TransactionDescriptor, payload: Vec<u8>, max_polls: u32) -> (transaction: Option<
        Transaction,
    >)
        ensures
            transaction.is_some() <==> descriptor.wf() && payload_fits(descriptor, payload@),
            transaction.is_some() ==> transaction.unwrap()@ == initial_state(
                descriptor,
                payload@,
                max_polls,
                ControlAccess::Modify,
            ),
            transaction.is_some() ==> transaction.unwrap()@.wf(),
    {
        Transaction::begin_with(descriptor, payload, max_polls, ControlAccess::Modify)
    }

    /// Starts a transfer whose address phase stores control register 2
    /// whole, so that no control bit left behind by a previous use survives
    /// into the transfer. Otherwise as `begin`.
    pub fn begin_storing(descriptor: TransactionDescriptor, payload: Vec<u8>, max_polls: u32) -> (transaction:
        Option<Transaction>)
        ensures
            transaction.is_some() <==> descriptor.wf() && payload_fits(descriptor, payload@),
            transaction.is_some() ==> transaction.unwrap()@ == initial_state(
                descriptor,
                payload@,
                max_polls,
                ControlAccess::Store,
            ),
            transaction.is_some() ==> transaction.unwrap()@.wf(),
    {
        Transaction::begin_with(descriptor, payload, max_polls, ControlAccess::Store)
    }

    /// Starts a transfer with the given way of programming the address
    /// phase.
    fn begin_with(
        descriptor: TransactionDescriptor,
        payload: Vec<u8>,
        max_polls: u32,
        access: ControlAccess,
    ) -> (transaction: Option<Transaction>)
        ensures
            transaction.is_some() <==> descriptor.wf() && payload_fits(descriptor, payload@),
            transaction.is_some() ==> transaction.unwrap()@ == initial_state(
                descriptor,
                payload@,
                max_polls,
                access,
            ),
            transaction.is_some() ==> transaction.unwrap()@.wf(),
    {
        if !descriptor.is_valid() {
            return None;
        }
        let fits: bool = match descriptor.direction {
            Direction::Read => payload.len() == 0,
            Direction::Write => payload.len() == descriptor.byte_count as usize,
        };
        if !fits {
            return None;
        }
        Some(
            Transaction {
                descriptor,
                access,
                max_polls,
                stage: Stage::Idle,
                polls_left: 0,
                done: 0,
                data: payload,
            },
        )
    }

    /// Advances the transfer by one access. `input` is the value that the
    /// access asked for by the previous call returned, if that access was a
    /// sample; otherwise it is ignored. The answer is the next access, or
    /// the result once the transfer is over.
    pub fn step(self, input: u32) -> (next: (Transaction, Action))
        ensures
            (next.0@, next.1) == step_spec(self@, input),
            next.0@.wf(),
    {
        proof {
            use_type_invariant(&self);
        }
        match self.stage {
            Stage::Idle => (self.at(Stage::BusCheck), Action::Sample(Register::I2cIsr)),
            Stage::BusCheck => {
                if input & ISR_BUSY != 0 {
                    self.give_up(BusError::BusBusy)
                } else {
                    let op = match self.access {
                        ControlAccess::Modify => address_phase(self.descriptor.device_address),
                        ControlAccess::Store => address_store(self.descriptor.device_address),
                    };
                    (self.at(Stage::AddressSetup), Action::Perform(op))
                }
            },
            Stage::AddressSetup => (self.at(Stage::AddressStart), Action::Perform(start())),
            Stage::AddressStart => self.enter_wait(Stage::AddressReady),
            Stage::AddressReady => {
                match poll(input, ISR_TXIS, self.polls_left) {
                    Poll::Ready => {
                        let value: u32 = self.descriptor.register_address as u32;
                        (
                            self.at(Stage::RegisterWrite),
                            Action::Perform(RegisterOp::Write { register: Register::I2cTxdr, value }),
                        )
                    },
                    Poll::Retry => self.keep_waiting(),
                    Poll::Failed(error) => self.give_up(error),
                }
            },
            Stage::RegisterWrite => self.enter_wait(Stage::AddressSent),
            Stage::AddressSent => {
                match poll(input, ISR_TXE, self.polls_left) {
                    Poll::Ready => {
                        let op = data_phase(self.descriptor.direction, self.descriptor.byte_count);
                        (self.at(Stage::DataSetup), Action::Perform(op))
                    },
                    Poll::Retry => self.keep_waiting(),
                    Poll::Failed(error) => self.give_up(error),
                }
            },
            Stage::DataSetup => (self.at(Stage::DataStart), Action::Perform(start())),
            Stage::DataStart => self.enter_wait(Stage::DataReady),
            Stage::DataReady => {
                let flag: u32 = match self.descriptor.direction {
                    Direction::Read => ISR_RXNE,
                    Direction::Write => ISR_TXIS,
                };
                match poll(input, flag, self.polls_left) {
                    Poll::Ready => {
                        let action = match self.descriptor.direction {
                            Direction::Read => Action::Sample(Register::I2cRxdr),
                            Direction::Write => {
                                let value: u32 = self.data[self.done as usize] as u32;
                                Action::Perform(RegisterOp::Write { register: Register::I2cTxdr, value })
                            },
                        };
                        (self.at(Stage::DataTransfer), action)
                    },
                    Poll::Retry => self.keep_waiting(),
                    Poll::Failed(error) => self.give_up(error),
                }
            },
            Stage::DataTransfer => {
                let Transaction { descriptor, access, max_polls, stage, polls_left, done, data } = self;
                let mut data = data;
                match descriptor.direction {
                    Direction::Read => {
                        let byte: u8 = (input & 0xFF) as u8;
                        data.push(byte);
                    },
                    Direction::Write => {},
                }
                let done: u8 = done + 1;
                if done == descriptor.byte_count {
                    (
                        Transaction { descriptor, access, max_polls, stage: Stage::Completed, polls_left, done, data },
                        Action::Finished(Ok(())),
                    )
                } else if max_polls == 0 {
                    (
                        Transaction {
                            descriptor,
                            access,
                            max_polls,
                            stage: Stage::Failed(BusError::Timeout),
                            polls_left,
                            done,
                            data,
                        },
                        Action::Finished(Err(BusError::Timeout)),
                    )
                } else {
                    (
                        Transaction {
                            descriptor,
                            access,
                            max_polls,
                            stage: Stage::DataReady,
                            polls_left: max_polls - 1,
                            done,
                            data,
                        },
                        Action::Sample(Register::I2cIsr),
                    )
                }
            },
            Stage::Stopping => (
                self.at(Stage::Failed(BusError::NackReceived)),
                Action::Finished(Err(BusError::NackReceived)),
            ),
            Stage::Completed => (self, Action::Finished(Ok(()))),
            Stage::Failed(error) => (self, Action::Finished(Err(error))),
        }
    }

    /// Advances the transfer by one step per recorded input and collects
    /// the accesses it asks for: what driving it against a peripheral that
    /// returned these values would have done.
    pub fn replay(self, inputs: &[u32]) -> (end: (Transaction, Vec<Action>))
        ensures
            (end.0@, end.1@) == run(self@, inputs@),
            end.0@.wf(),
    {
        proof {
            use_type_invariant(&self);
        }
        let ghost start = self@;
        let mut current = self;
        let mut trace: Vec<Action> = Vec::new();
        let mut fed: usize = 0;
        assert(inputs@.subrange(0, 0) =~= Seq::<u32>::empty());
        while fed < inputs.len()
            invariant
                fed <= inputs.len(),
                (current@, trace@) == run(start, inputs@.subrange(0, fed as int)),
                current@.wf(),
            decreases inputs.len() - fed,
        {
            let (next, action) = current.step(inputs[fed]);
            current = next;
            trace.push(action);
            proof {
                let longer = inputs@.subrange(0, fed + 1);
                assert(longer.drop_last() =~= inputs@.subrange(0, fed as int));
                assert(longer.last() == inputs@[fed as int]);
            }
            fed = fed + 1;
        }
        assert(inputs@.subrange(0, fed as int) =~= inputs@);
        (current, trace)
    }

    /// What the transfer was asked to do.
    pub fn descriptor(&self) -> (descriptor: TransactionDescriptor)
        ensures
            descriptor == self@.descriptor,
    {
        self.descriptor
    }

    /// How the address phase programs control register 2.
    pub fn access(&self) -> (access: ControlAccess)
        ensures
            access == self@.access,
    {
        self.access
    }

    /// Which access is outstanding.
    pub fn stage(&self) -> (stage: Stage)
        ensures
            stage == self@.stage,
    {
        self.stage
    }

    /// The phase the transfer is in.
    pub fn phase(&self) -> (phase: Phase)
        ensures
            phase == self@.stage.phase_of(),
    {
        match self.stage {
            Stage::Idle | Stage::BusCheck => Phase::Idle,
            Stage::AddressSetup
            | Stage::AddressStart
            | Stage::AddressReady
            | Stage::RegisterWrite
            | Stage::AddressSent => Phase::AddressPhase,
            Stage::DataSetup | Stage::DataStart | Stage::DataReady | Stage::DataTransfer => Phase::DataPhase,
            Stage::Stopping | Stage::Completed | Stage::Failed(_) => Phase::Stopped,
        }
    }

    /// The result of the transfer, once it is over.
    pub fn outcome(&self) -> (outcome: Option<Result<(), BusError>>)
        ensures
            outcome == self@.outcome(),
            outcome.is_some() <==> self@.stage.is_final(),
    {
        match self.stage {
            Stage::Completed => Some(Ok(())),
            Stage::Failed(error) => Some(Err(error)),
            _ => None,
        }
    }

    /// The payload: the bytes of a write, or the bytes a read has received
    /// so far.
    pub fn data(&self) -> (data: &Vec<u8>)
        ensures
            data@ == self@.data,
    {
        &self.data
    }

    /// Ends the transfer and hands its payload out.
    pub fn into_data(self) -> (data: Vec<u8>)
        ensures
            data@ == self@.data,
    {
        self.data
    }

    /// The same transfer at another stage.
    fn at(self, stage: Stage) -> (moved: Transaction)
        requires
            (TransactionState { stage, ..self@ }).wf(),
        ensures
            moved@ == (TransactionState { stage, ..self@ }),
    {
        let Transaction { descriptor, access, max_polls, stage: _, polls_left, done, data } = self;
        Transaction { descriptor, access, max_polls, stage, polls_left, done, data }
    }

    /// Gives the transfer up with `error`.
    fn give_up(self, error: BusError) -> (next: (Transaction, Action))
        ensures
            (next.0@, next.1) == abort(self@, error),
            next.0@.wf(),
    {
        proof {
            use_type_invariant(&self);
        }
        match error {
            BusError::NackReceived => (self.at(Stage::Stopping), Action::Perform(stop())),
            _ => (self.at(Stage::Failed(error)), Action::Finished(Err(error))),
        }
    }

    /// Enters the wait of `stage`.
    fn enter_wait(self, stage: Stage) -> (next: (Transaction, Action))
        requires
            stage is AddressReady || stage is AddressSent || (stage is DataReady && self@.done
                < self@.descriptor.byte_count),
            self@.done == 0,
        ensures
            (next.0@, next.1) == begin_wait(self@, stage),
            next.0@.wf(),
    {
        proof {
            use_type_invariant(&self);
        }
        if self.max_polls == 0 {
            self.give_up(BusError::Timeout)
        } else {
            let Transaction { descriptor, access, max_polls, stage: _, polls_left: _, done, data } = self;
            (
                Transaction { descriptor, access, max_polls, stage, polls_left: max_polls - 1, done, data },
                Action::Sample(Register::I2cIsr),
            )
        }
    }

    /// Asks for one more status sample of the current wait.
    fn keep_waiting(self) -> (next: (Transaction, Action))
        requires
            self@.stage.is_polling(),
            self@.polls_left > 0,
        ensures
            next.0@ == (TransactionState { polls_left: (self@.polls_left - 1) as u32, ..self@ }),
            next.1 == Action::Sample(Register::I2cIsr),
            next.0@.wf(),
    {
        proof {
            use_type_invariant(&self);
        }
        let Transaction { descriptor, access, max_polls, stage, polls_left, done, data } = self;
        (
            Transaction { descriptor, access, max_polls, stage, polls_left: polls_left - 1, done, data },
            Action::Sample(Register::I2cIsr),
        )
    }
}

/// Computes the access that programs the address phase by
/// read-modify-write.
pub fn address_phase(device_address: u8) -> (op: RegisterOp)
    ensures
        op == address_phase_op(device_address),
{
    let set: u32 = (device_address as u32) * 2 + 0x0001_0000;
    RegisterOp::Modify { register: Register::I2cCr2, clear: CR2_ADDRESS_FIELDS, set }
}

/// Computes the access that programs the address phase by storing control
/// register 2 whole.
pub fn address_store(device_address: u8) -> (op: RegisterOp)
    ensures
        op == address_store_op(device_address),
        forall|before: u32| #[trigger] op.result(before) == device_address * 2 + 0x0001_0000,
{
    let value: u32 = (device_address as u32) * 2 + 0x0001_0000;
    RegisterOp::Write { register: Register::I2cCr2, value }
}

/// Computes the access that programs the data phase.
pub fn data_phase(direction: Direction, byte_count: u8) -> (op: RegisterOp)
    ensures
        op == data_phase_op(direction, byte_count),
{
    let turn: u32 = match direction {
        Direction::Read => CR2_RD_WRN,
        Direction::Write => 0,
    };
    let set: u32 = (byte_count as u32) * 0x0001_0000 + CR2_AUTOEND + turn;
    RegisterOp::Modify { register: Register::I2cCr2, clear: CR2_DATA_FIELDS, set }
}

/// The access that asserts START.
pub fn start() -> (op: RegisterOp)
    ensures
        op == start_op(),
{
    RegisterOp::Modify { register: Register::I2cCr2, clear: 0, set: CR2_START }
}

/// The access that asserts STOP.
pub fn stop() -> (op: RegisterOp)
    ensures
        op == stop_op(),
{
    RegisterOp::Modify { register: Register::I2cCr2, clear: 0, set: CR2_STOP }
}

/// What storing the address phase leaves in control register 2, whatever
/// it held: the address word itself, that is the device address in bits 1
/// to 7 with bit 0 clear, a byte count of one, direction write, no
/// automatic end, and every other bit clear, START and STOP among them.
pub proof fn lemma_address_store_fields(device_address: u8, cr2: u32)
    requires
        device_address <= MAX_DEVICE_ADDRESS,
    ensures
        ({
            let after = address_store_op(device_address).result(cr2);
            &&& after == device_address * 2 + 0x0001_0000
            &&& field_of(after, 0, 10) == device_address * 2
            &&& field_of(after, 1, 7) == device_address
            &&& field_of(after, 16, 8) == 1
            &&& after & CR2_RD_WRN == 0
            &&& after & CR2_AUTOEND == 0
            &&& after & CR2_START == 0
            &&& after & CR2_STOP == 0
            &&& after & !CR2_ADDRESS_FIELDS == 0
        }),
{
    let after = (device_address * 2 + 0x0001_0000) as u32;
    assert(field_of(after, 0, 10) == device_address * 2 && field_of(after, 1, 7) == device_address
        && field_of(after, 16, 8) == 1 && after & 0x0000_0400u32 == 0 && after & 0x0200_0000u32 == 0
        && after & 0x0000_2000u32 == 0 && after & 0x0000_4000u32 == 0 && after & !0x02FF_07FFu32 == 0)
        by (bit_vector)
        requires
            device_address <= 0x7F,
            after == (device_address * 2 + 0x0001_0000) as u32,
    ;
}

/// What programming the address phase by read-modify-write leaves in
/// control register 2, whatever it held: the device address in bits 1 to 7
/// with bit 0 clear, a byte count of one, direction write, no automatic
/// end, and every other bit as it was.
pub proof fn lemma_address_phase_fields(device_address: u8, cr2: u32)
    requires
        device_address <= MAX_DEVICE_ADDRESS,
    ensures
        ({
            let after = address_phase_op(device_address).result(cr2);
            &&& field_of(after, 0, 10) == device_address * 2
            &&& field_of(after, 1, 7) == device_address
            &&& field_of(after, 16, 8) == 1
            &&& after & CR2_RD_WRN == 0
            &&& after & CR2_AUTOEND == 0
            &&& after & !CR2_ADDRESS_FIELDS == cr2 & !CR2_ADDRESS_FIELDS
        }),
{
    let set = (device_address * 2 + 0x0001_0000) as u32;
    let after = (cr2 & !0x02FF_07FFu32) | set;
    assert(field_of(after, 0, 10) == device_address * 2 && field_of(after, 1, 7) == device_address
        && field_of(after, 16, 8) == 1 && after & 0x0000_0400u32 == 0 && after & 0x0200_0000u32 == 0
        && after & !0x02FF_07FFu32 == cr2 & !0x02FF_07FFu32) by (bit_vector)
        requires
            device_address <= 0x7F,
            set == (device_address * 2 + 0x0001_0000) as u32,
            after == (cr2 & !0x02FF_07FFu32) | set,
    ;
}

/// What programming the data phase leaves in control register 2, whatever
/// it held: the payload's byte count, its direction, automatic end, and
/// every other bit, the device address among them, as it was.
pub proof fn lemma_data_phase_fields(direction: Direction, byte_count: u8, cr2: u32)
    ensures
        ({
            let after = data_phase_op(direction, byte_count).result(cr2);
            &&& field_of(after, 16, 8) == byte_count
            &&& after & CR2_RD_WRN != 0 <==> direction == Direction::Read
            &&& after & CR2_AUTOEND == CR2_AUTOEND
            &&& after & !CR2_DATA_FIELDS == cr2 & !CR2_DATA_FIELDS
            &&& field_of(after, 0, 10) == field_of(cr2, 0, 10)
        }),
{
    let turn: u32 = if direction == Direction::Read {
        CR2_RD_WRN
    } else {
        0u32
    };
    let set = (byte_count * 0x0001_0000 + 0x0200_0000u32 + turn) as u32;
    let after = (cr2 & !0x02FF_0400u32) | set;
    assert(field_of(after, 16, 8) == byte_count && (after & 0x0000_0400u32 != 0 <==> turn != 0) && after
        & 0x0200_0000u32 == 0x0200_0000u32 && after & !0x02FF_0400u32 == cr2 & !0x02FF_0400u32
        && field_of(after, 0, 10) == field_of(cr2, 0, 10)) by (bit_vector)
        requires
            turn == 0x0000_0400u32 || turn == 0u32,
            set == (byte_count * 0x0001_0000 + 0x0200_0000u32 + turn) as u32,
            after == (cr2 & !0x02FF_0400u32) | set,
    ;
}

/// START and STOP each set their own bit of control register 2 and leave
/// every other bit as it was.
pub proof fn lemma_start_and_stop_bits(cr2: u32)
    ensures
        start_op().result(cr2) == cr2 | CR2_START,
        stop_op().result(cr2) == cr2 | CR2_STOP,
        start_op().result(cr2) & CR2_START == CR2_START,
        stop_op().result(cr2) & CR2_STOP == CR2_STOP,
        start_op().result(cr2) & !CR2_START == cr2 & !CR2_START,
        stop_op().result(cr2) & !CR2_STOP == cr2 & !CR2_STOP,
{
    assert((cr2 & !0u32) | 0x0000_2000u32 == cr2 | 0x0000_2000u32) by (bit_vector);
    assert((cr2 & !0u32) | 0x0000_4000u32 == cr2 | 0x0000_4000u32) by (bit_vector);
    assert((cr2 | 0x0000_2000u32) & 0x0000_2000u32 == 0x0000_2000u32) by (bit_vector);
    assert((cr2 | 0x0000_4000u32) & 0x0000_4000u32 == 0x0000_4000u32) by (bit_vector);
    assert((cr2 | 0x0000_2000u32) & !0x0000_2000u32 == cr2 & !0x0000_2000u32) by (bit_vector);
    assert((cr2 | 0x0000_4000u32) & !0x0000_4000u32 == cr2 & !0x0000_4000u32) by (bit_vector);
}

/// The byte the peripheral puts on the wire after START, given what
/// control register 2 holds: the seven address bits, then the direction.
pub open spec fn wire_header(cr2: u32) -> int {
    field_of(cr2, 1, 7) * 2 + field_of(cr2, 10, 1)
}

/// The two phases open on the wire with the descriptor's headers, however
/// the address phase is programmed: the address phase with the device
/// address and the write bit, the data phase with the same address and the
/// payload's direction.
pub proof fn lemma_wire_headers(descriptor: TransactionDescriptor, access: ControlAccess, cr2: u32)
    requires
        descriptor.wf(),
    ensures
        ({
            let addressed = address_op(access, descriptor.device_address).result(cr2);
            let turned = data_phase_op(descriptor.direction, descriptor.byte_count).result(
                start_op().result(addressed),
            );
            &&& wire_header(addressed) == descriptor.header_of(Direction::Write)
            &&& wire_header(turned) == descriptor.header_of(descriptor.direction)
        }),
{
    let address = descriptor.device_address;
    let count = descriptor.byte_count;
    let turn: u32 = if descriptor.direction == Direction::Read {
        CR2_RD_WRN
    } else {
        0u32
    };
    let first = (address * 2 + 0x0001_0000) as u32;
    let second = (count * 0x0001_0000 + 0x0200_0000u32 + turn) as u32;
    let addressed = if access == ControlAccess::Modify {
        (cr2 & !0x02FF_07FFu32) | first
    } else {
        first
    };
    let started = (addressed & !0u32) | 0x0000_2000u32;
    let turned = (started & !0x02FF_0400u32) | second;
    assert(field_of(addressed, 1, 7) == address && field_of(addressed, 10, 1) == 0 && field_of(turned, 1, 7)
        == address && (turn == 0 ==> field_of(turned, 10, 1) == 0) && (turn != 0 ==> field_of(turned, 10, 1)
        == 1)) by (bit_vector)
        requires
            address <= 0x7F,
            turn == 0x0000_0400u32 || turn == 0u32,
            first == (address * 2 + 0x0001_0000) as u32,
            second == (count * 0x0001_0000 + 0x0200_0000u32 + turn) as u32,
            addressed == (cr2 & !0x02FF_07FFu32) | first || addressed == first,
            started == (addressed & !0u32) | 0x0000_2000u32,
            turned == (started & !0x02FF_0400u32) | second,
    ;
}

} // verus!
