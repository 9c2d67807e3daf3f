//! What a transfer does over a whole run: which accesses it asks for, in
//! which order, what it hands back, and that it ends.

use crate::registers::{Register, RegisterOp};
use crate::transaction::{
    address_op, data_flag, data_phase_op, initial_state, low_byte, payload_fits, poll_spec, run,
    start_op, step_spec, stop_op, Action, BusError, ControlAccess, Direction, Phase, Poll, Stage,
    TransactionDescriptor, TransactionState, CR2_STOP, ISR_BUSY, ISR_NACKF, ISR_TXE, ISR_TXIS,
};
use vstd::prelude::*;

verus! {

/// Whether an action is no bus access of its own: a status sample, or the
/// report of the result.
pub open spec fn is_bookkeeping(action: Action) -> bool {
    action == Action::Sample(Register::I2cIsr) || action is Finished
}

/// A trace without its status samples and result reports: the accesses
/// that program the peripheral and move bytes.
pub open spec fn accesses(trace: Seq<Action>) -> Seq<Action>
    decreases trace.len(),
{
    if trace.len() == 0 {
        Seq::empty()
    } else if is_bookkeeping(trace.last()) {
        accesses(trace.drop_last())
    } else {
        accesses(trace.drop_last()).push(trace.last())
    }
}

/// The bytes that the samples of the receive data register in a trace
/// returned, in order. A sample is answered by the input of the step after
/// it.
pub open spec fn received(trace: Seq<Action>, inputs: Seq<u32>) -> Seq<u8>
    decreases trace.len(),
{
    if trace.len() <= 1 || inputs.len() != trace.len() {
        Seq::empty()
    } else {
        let earlier = received(trace.drop_last(), inputs.drop_last());
        if trace[trace.len() - 2] == Action::Sample(Register::I2cRxdr) {
            earlier.push(low_byte(inputs.last()))
        } else {
            earlier
        }
    }
}

/// The access that moves payload byte `index`.
pub open spec fn payload_access(direction: Direction, payload: Seq<u8>, index: int) -> Action {
    match direction {
        Direction::Read => Action::Sample(Register::I2cRxdr),
        Direction::Write => Action::Perform(
            RegisterOp::Write { register: Register::I2cTxdr, value: payload[index] as u32 },
        ),
    }
}

/// The accesses of a transfer that succeeds: program the address phase in
/// the way asked for, START, write the register address, program the data
/// phase, START again, then one access per payload byte. STOP is never
/// asked for: the peripheral generates it after the last byte.
pub open spec fn script(descriptor: TransactionDescriptor, payload: Seq<u8>, access: ControlAccess) -> Seq<
    Action,
> {
    seq![
        Action::Perform(address_op(access, descriptor.device_address)),
        Action::Perform(start_op()),
        Action::Perform(
            RegisterOp::Write { register: Register::I2cTxdr, value: descriptor.register_address as u32 },
        ),
        Action::Perform(data_phase_op(descriptor.direction, descriptor.byte_count)),
        Action::Perform(start_op()),
    ] + Seq::new(
        descriptor.byte_count as nat,
        |index: int| payload_access(descriptor.direction, payload, index),
    )
}

/// How many accesses of the script a transfer has asked for when it stands
/// at a stage that is on the way to success.
pub open spec fn progress(state: TransactionState) -> nat {
    match state.stage {
        Stage::Idle | Stage::BusCheck => 0,
        Stage::AddressSetup => 1,
        Stage::AddressStart | Stage::AddressReady => 2,
        Stage::RegisterWrite | Stage::AddressSent => 3,
        Stage::DataSetup => 4,
        Stage::DataStart => 5,
        Stage::DataReady => (5 + state.done) as nat,
        Stage::DataTransfer => (6 + state.done) as nat,
        Stage::Completed => (5 + state.descriptor.byte_count) as nat,
        Stage::Stopping | Stage::Failed(_) => 0,
    }
}

/// Whether a stage lies on the way to success.
pub open spec fn on_course(stage: Stage) -> bool {
    !(stage is Stopping) && !(stage is Failed)
}

/// What holds at every point of a run of a fresh transfer: the state is
/// well formed, the request and the poll budget are what they were, a
/// write still holds its payload, a read holds exactly the bytes its
/// samples of the receive data register returned, and, as long as the
/// transfer is on the way to success, the accesses asked for so far are the
/// beginning of the script, as far as the stage has got.
pub open spec fn run_invariant(
    descriptor: TransactionDescriptor,
    payload: Seq<u8>,
    max_polls: u32,
    access: ControlAccess,
    inputs: Seq<u32>,
) -> bool {
    let (state, trace) = run(initial_state(descriptor, payload, max_polls, access), inputs);
    &&& state.wf()
    &&& state.descriptor == descriptor
    &&& state.max_polls == max_polls
    &&& state.access == access
    &&& trace.len() == inputs.len()
    &&& descriptor.direction == Direction::Write ==> state.data == payload
    &&& descriptor.direction == Direction::Read ==> state.data == received(trace, inputs)
    &&& on_course(state.stage) ==> accesses(trace) == script(descriptor, payload, access).subrange(
        0,
        progress(state) as int,
    )
    &&& state.stage is DataTransfer ==> trace.len() > 0 && trace.last() == payload_access(
        descriptor.direction,
        payload,
        state.done as int,
    )
    &&& !(state.stage is DataTransfer) && trace.len() > 0 ==> trace.last() != Action::Sample(
        Register::I2cRxdr,
    )
}

/// Every step keeps a state well formed, and changes neither what the
/// transfer was asked to do nor its poll budget nor, in a write, its payload.
pub proof fn lemma_step_keeps_wf(state: TransactionState, input: u32)
    requires
        state.wf(),
    ensures
        step_spec(state, input).0.wf(),
        step_spec(state, input).0.descriptor == state.descriptor,
        step_spec(state, input).0.max_polls == state.max_polls,
        step_spec(state, input).0.access == state.access,
        state.descriptor.direction == Direction::Write ==> step_spec(state, input).0.data == state.data,
        state.stage.is_final() ==> step_spec(state, input).0 == state,
{
}

proof fn lemma_script_grows(
    descriptor: TransactionDescriptor,
    payload: Seq<u8>,
    access: ControlAccess,
    reached: int,
)
    requires
        0 <= reached < 5 + descriptor.byte_count,
    ensures
        script(descriptor, payload, access).len() == 5 + descriptor.byte_count,
        script(descriptor, payload, access).subrange(0, reached).push(script(descriptor, payload, access)[reached])
            == script(descriptor, payload, access).subrange(0, reached + 1),
{
    let whole = script(descriptor, payload, access);
    assert(whole.subrange(0, reached).push(whole[reached]) =~= whole.subrange(0, reached + 1));
}

/// Every run of a fresh transfer, whatever the accesses return, follows
/// the script step by step until it succeeds or is given up, and a read
/// that is given up still holds the bytes it had received.
pub proof fn lemma_run_follows_script(
    descriptor: TransactionDescriptor,
    payload: Seq<u8>,
    max_polls: u32,
    access: ControlAccess,
    inputs: Seq<u32>,
)
    requires
        descriptor.wf(),
        payload_fits(descriptor, payload),
    ensures
        run_invariant(descriptor, payload, max_polls, access, inputs),
    decreases inputs.len(),
{
    let start = initial_state(descriptor, payload, max_polls, access);
    let whole = script(descriptor, payload, access);
    if inputs.len() == 0 {
        assert(accesses(Seq::<Action>::empty()) =~= whole.subrange(0, 0));
        assert(payload =~= Seq::<u8>::empty() || descriptor.direction == Direction::Write);
    } else {
        let shorter = inputs.drop_last();
        lemma_run_follows_script(descriptor, payload, max_polls, access, shorter);
        let (earlier, trace) = run(start, shorter);
        let input = inputs.last();
        let (next, action) = step_spec(earlier, input);
        let longer = trace.push(action);
        assert(run(start, inputs) == (next, longer));
        lemma_step_keeps_wf(earlier, input);
        assert(longer.drop_last() =~= trace);
        assert(longer.last() == action);
        // What was received.
        if descriptor.direction == Direction::Read {
            if trace.len() == 0 {
                assert(earlier.stage is Idle);
                assert(received(longer, inputs) =~= Seq::<u8>::empty());
            } else {
                assert(longer[longer.len() - 2] == trace.last());
                assert(received(longer, inputs) == if trace.last() == Action::Sample(Register::I2cRxdr) {
                    received(trace, shorter).push(low_byte(input))
                } else {
                    received(trace, shorter)
                });
            }
        }
        // Which accesses were asked for.
        if on_course(next.stage) {
            assert(on_course(earlier.stage));
            let reached = progress(earlier) as int;
            if is_bookkeeping(action) {
                assert(accesses(longer) == accesses(trace));
                assert(progress(next) == progress(earlier));
            } else {
                assert(accesses(longer) == accesses(trace).push(action));
                assert(progress(next) == reached + 1);
                assert(reached < 5 + descriptor.byte_count);
                lemma_script_grows(descriptor, payload, access, reached);
                assert(whole[reached] == action);
            }
        }
    }
}

/// A read that succeeds asked for exactly the accesses of the script, in
/// order: one byte transmitted, the register address, in the address phase;
/// one sample of the receive data register for each requested byte, all of
/// them in the data phase; and no STOP, which the peripheral generates by
/// itself after the last byte. The bytes it hands back are what those
/// samples returned, in order.
pub proof fn lemma_completed_read(
    descriptor: TransactionDescriptor,
    max_polls: u32,
    access: ControlAccess,
    inputs: Seq<u32>,
)
    requires
        descriptor.wf(),
        descriptor.direction == Direction::Read,
    ensures
        ({
            let (state, trace) = run(initial_state(descriptor, Seq::empty(), max_polls, access), inputs);
            state.stage is Completed ==> {
                &&& accesses(trace) == script(descriptor, Seq::empty(), access)
                &&& state.data == received(trace, inputs)
                &&& state.data.len() == descriptor.byte_count
            }
        }),
{
    lemma_run_follows_script(descriptor, Seq::empty(), max_polls, access, inputs);
    let whole = script(descriptor, Seq::empty(), access);
    assert(whole.subrange(0, whole.len() as int) =~= whole);
}

/// A write that succeeds asked for exactly the accesses of the script, in
/// order: the register address and then each payload byte written to the
/// transmit data register, no sample of the receive data register, and no
/// STOP.
pub proof fn lemma_completed_write(
    descriptor: TransactionDescriptor,
    payload: Seq<u8>,
    max_polls: u32,
    access: ControlAccess,
    inputs: Seq<u32>,
)
    requires
        descriptor.wf(),
        descriptor.direction == Direction::Write,
        payload.len() == descriptor.byte_count,
    ensures
        ({
            let (state, trace) = run(initial_state(descriptor, payload, max_polls, access), inputs);
            state.stage is Completed ==> accesses(trace) == script(descriptor, payload, access)
        }),
{
    lemma_run_follows_script(descriptor, payload, max_polls, access, inputs);
    let whole = script(descriptor, payload, access);
    assert(whole.subrange(0, whole.len() as int) =~= whole);
}

/// The steps that moving `bytes` payload bytes can take when each takes at
/// most `wait` steps.
pub open spec fn payload_steps(bytes: nat, wait: nat) -> nat {
    bytes * wait
}

/// An upper bound on the number of steps after which a transfer is over.
/// Every wait takes at most as many steps as the poll budget allows
/// samples, and every other stage takes one step.
pub open spec fn steps_left(state: TransactionState) -> nat {
    let budget = state.max_polls as nat;
    let wait = budget + 1;
    let bytes = (state.descriptor.byte_count - state.done) as nat;
    let polls = state.polls_left as nat;
    match state.stage {
        Stage::Idle => 2 * budget + payload_steps(bytes, wait) + 7,
        Stage::BusCheck => 2 * budget + payload_steps(bytes, wait) + 6,
        Stage::AddressSetup => 2 * budget + payload_steps(bytes, wait) + 5,
        Stage::AddressStart => 2 * budget + payload_steps(bytes, wait) + 4,
        Stage::AddressReady => polls + budget + payload_steps(bytes, wait) + 4,
        Stage::RegisterWrite => budget + payload_steps(bytes, wait) + 3,
        Stage::AddressSent => polls + payload_steps(bytes, wait) + 3,
        Stage::DataSetup => payload_steps(bytes, wait) + 2,
        Stage::DataStart => payload_steps(bytes, wait) + 1,
        Stage::DataReady => polls + payload_steps((bytes - 1) as nat, wait) + 2,
        Stage::DataTransfer => payload_steps((bytes - 1) as nat, wait) + 1,
        Stage::Stopping => 1,
        Stage::Completed | Stage::Failed(_) => 0,
    }
}

/// The bound for a transfer that has not started: seven steps of
/// programming, two waits of the address phase, and one wait and one access
/// for each payload byte.
pub open spec fn step_bound(descriptor: TransactionDescriptor, max_polls: u32) -> nat {
    2 * (max_polls as nat) + (descriptor.byte_count as nat) * ((max_polls as nat) + 1) + 7
}

proof fn lemma_payload_steps(bytes: nat, wait: nat)
    ensures
        payload_steps(bytes + 1, wait) == payload_steps(bytes, wait) + wait,
        payload_steps(0, wait) == 0,
{
    assert((bytes + 1) * wait == bytes * wait + wait) by (nonlinear_arith);
}

/// Every step of a transfer that is not over brings it closer to its end.
pub proof fn lemma_step_makes_progress(state: TransactionState, input: u32)
    requires
        state.wf(),
        !state.stage.is_final(),
    ensures
        steps_left(step_spec(state, input).0) < steps_left(state),
{
    let bytes = (state.descriptor.byte_count - state.done) as nat;
    let wait = (state.max_polls + 1) as nat;
    if bytes >= 1 {
        lemma_payload_steps((bytes - 1) as nat, wait);
    }
    if bytes >= 2 {
        lemma_payload_steps((bytes - 2) as nat, wait);
    }
}

/// A transfer is over after at most `steps_left` steps, whatever the
/// accesses return, and stays over.
pub proof fn lemma_run_ends(state: TransactionState, inputs: Seq<u32>)
    requires
        state.wf(),
    ensures
        run(state, inputs).0.wf(),
        run(state, inputs).0.stage.is_final() || steps_left(run(state, inputs).0) + inputs.len()
            <= steps_left(state),
        inputs.len() >= steps_left(state) ==> run(state, inputs).0.stage.is_final(),
        state.stage.is_final() ==> run(state, inputs).0 == state,
    decreases inputs.len(),
{
    if inputs.len() > 0 {
        lemma_run_ends(state, inputs.drop_last());
        let earlier = run(state, inputs.drop_last()).0;
        lemma_step_keeps_wf(earlier, inputs.last());
        if !earlier.stage.is_final() {
            lemma_step_makes_progress(earlier, inputs.last());
        }
    }
}

/// A transfer that has not started is over within `step_bound` steps:
/// no sequence of status values keeps it polling forever.
pub proof fn lemma_transfer_is_bounded(
    descriptor: TransactionDescriptor,
    payload: Seq<u8>,
    max_polls: u32,
    access: ControlAccess,
    inputs: Seq<u32>,
)
    requires
        descriptor.wf(),
        payload_fits(descriptor, payload),
        inputs.len() >= step_bound(descriptor, max_polls),
    ensures
        run(initial_state(descriptor, payload, max_polls, access), inputs).0.stage.is_final(),
{
    let start = initial_state(descriptor, payload, max_polls, access);
    assert(steps_left(start) == step_bound(descriptor, max_polls));
    lemma_run_ends(start, inputs);
}

/// A NACK seen by any status poll, in the address phase or in the data
/// phase, ends the transfer: the answer to the sample is the access that
/// asserts STOP, and the answer after it reports `NackReceived`. Nothing
/// else about the transfer changes.
pub proof fn lemma_nack_is_reported(state: TransactionState, status: u32, input: u32)
    requires
        state.wf(),
        state.stage.is_polling(),
        status & ISR_NACKF != 0,
    ensures
        step_spec(state, status) == (
            TransactionState { stage: Stage::Stopping, ..state },
            Action::Perform(stop_op()),
        ),
        step_spec(step_spec(state, status).0, input) == (
            TransactionState { stage: Stage::Failed(BusError::NackReceived), ..state },
            Action::Finished(Err(BusError::NackReceived)),
        ),
        forall|cr2: u32| #[trigger] stop_op().result(cr2) & CR2_STOP == CR2_STOP,
{
    assert forall|cr2: u32| #[trigger] stop_op().result(cr2) & CR2_STOP == CR2_STOP by {
        assert(((cr2 & !0u32) | 0x0000_4000u32) & 0x0000_4000u32 == 0x0000_4000u32) by (bit_vector);
    }
}

/// The status flag that a polling stage waits for.
pub open spec fn awaited_flag(state: TransactionState) -> u32 {
    match state.stage {
        Stage::AddressReady => ISR_TXIS,
        Stage::AddressSent => ISR_TXE,
        _ => data_flag(state.descriptor.direction),
    }
}

/// Whether a status value shows neither the awaited flag nor an error.
pub open spec fn is_quiet(status: u32, flag: u32) -> bool {
    poll_spec(status, flag, 1) == Poll::Retry
}

/// While the status shows nothing, a wait only samples it again, one
/// sample for each unit of its budget.
proof fn lemma_quiet_wait(state: TransactionState, inputs: Seq<u32>)
    requires
        state.wf(),
        state.stage.is_polling(),
        inputs.len() <= state.polls_left,
        forall|i: int| 0 <= i < inputs.len() ==> is_quiet(#[trigger] inputs[i], awaited_flag(state)),
    ensures
        run(state, inputs).0 == (TransactionState {
            polls_left: (state.polls_left - inputs.len()) as u32,
            ..state
        }),
        run(state, inputs).1 == Seq::new(inputs.len(), |i: int| Action::Sample(Register::I2cIsr)),
    decreases inputs.len(),
{
    if inputs.len() > 0 {
        let shorter = inputs.drop_last();
        lemma_quiet_wait(state, shorter);
        assert(is_quiet(inputs[inputs.len() - 1], awaited_flag(state)));
        assert(run(state, inputs).1 =~= Seq::new(inputs.len(), |i: int| Action::Sample(Register::I2cIsr)));
    } else {
        assert(run(state, inputs).1 =~= Seq::new(inputs.len(), |i: int| Action::Sample(Register::I2cIsr)));
    }
}

/// A wait whose status samples never show the awaited flag nor an error
/// ends with `Timeout` when its budget is used up: after the outstanding
/// sample and as many more as the budget still allowed.
pub proof fn lemma_silent_wait_times_out(state: TransactionState, inputs: Seq<u32>)
    requires
        state.wf(),
        state.stage.is_polling(),
        inputs.len() == state.polls_left + 1,
        forall|i: int| 0 <= i < inputs.len() ==> is_quiet(#[trigger] inputs[i], awaited_flag(state)),
    ensures
        run(state, inputs).0 == (TransactionState { stage: Stage::Failed(BusError::Timeout), polls_left: 0, ..state }),
        run(state, inputs).1 == Seq::new(state.polls_left as nat, |i: int| Action::Sample(Register::I2cIsr)).push(
            Action::Finished(Err(BusError::Timeout)),
        ),
{
    let shorter = inputs.drop_last();
    lemma_quiet_wait(state, shorter);
    assert(is_quiet(inputs[inputs.len() - 1], awaited_flag(state)));
}

/// The place of a phase in the course of a transfer.
pub open spec fn phase_rank(phase: Phase) -> nat {
    match phase {
        Phase::Idle => 0,
        Phase::AddressPhase => 1,
        Phase::DataPhase => 2,
        Phase::Stopped => 3,
    }
}

/// A transfer never goes back to an earlier phase: from idle through the
/// address phase and the data phase to stopped, with stopped reachable from
/// each of them.
pub proof fn lemma_phase_only_advances(state: TransactionState, input: u32)
    requires
        state.wf(),
    ensures
        ({
            let before = phase_rank(state.stage.phase_of());
            let after = phase_rank(step_spec(state, input).0.stage.phase_of());
            before <= after && (after <= before + 1 || after == 3)
        }),
{
}

/// A NACK ends a wait within its budget. If the status shows nothing for
/// some samples, no more than the budget still allows, and then shows a
/// NACK, the transfer asks for STOP in answer to that sample and reports
/// `NackReceived` in answer to the next input: it has taken one status
/// sample more than there were quiet ones, and at most `max_polls`.
pub proof fn lemma_nack_ends_wait(state: TransactionState, quiet: Seq<u32>, status: u32, input: u32)
    requires
        state.wf(),
        state.stage.is_polling(),
        quiet.len() <= state.polls_left,
        forall|i: int| 0 <= i < quiet.len() ==> is_quiet(#[trigger] quiet[i], awaited_flag(state)),
        status & ISR_NACKF != 0,
    ensures
        run(state, quiet.push(status).push(input)).0.stage == Stage::Failed(BusError::NackReceived),
        run(state, quiet.push(status).push(input)).1 == Seq::new(
            quiet.len(),
            |i: int| Action::Sample(Register::I2cIsr),
        ).push(Action::Perform(stop_op())).push(Action::Finished(Err(BusError::NackReceived))),
        quiet.len() + 1 <= state.max_polls,
{
    let inputs = quiet.push(status).push(input);
    lemma_quiet_wait(state, quiet);
    let waiting = run(state, quiet).0;
    lemma_nack_is_reported(waiting, status, input);
    assert(inputs.drop_last() =~= quiet.push(status));
    assert(quiet.push(status).drop_last() =~= quiet);
    assert(run(state, quiet.push(status)) == (
        step_spec(waiting, status).0,
        run(state, quiet).1.push(step_spec(waiting, status).1),
    ));
}

/// A device that rejects its address in the address phase: on a free bus,
/// with a budget of at least one sample, the transfer programs the address
/// phase, asserts START, sees the NACK in its first status sample, asserts
/// STOP and reports `NackReceived`. It writes no byte and reads none.
pub proof fn lemma_address_nack(
    descriptor: TransactionDescriptor,
    payload: Seq<u8>,
    max_polls: u32,
    access: ControlAccess,
    inputs: Seq<u32>,
)
    requires
        descriptor.wf(),
        payload_fits(descriptor, payload),
        max_polls >= 1,
        inputs.len() == 6,
        inputs[1] & ISR_BUSY == 0,
        inputs[4] & ISR_NACKF != 0,
    ensures
        run(initial_state(descriptor, payload, max_polls, access), inputs).0.stage == Stage::Failed(
            BusError::NackReceived,
        ),
        run(initial_state(descriptor, payload, max_polls, access), inputs).1 == seq![
            Action::Sample(Register::I2cIsr),
            Action::Perform(address_op(access, descriptor.device_address)),
            Action::Perform(start_op()),
            Action::Sample(Register::I2cIsr),
            Action::Perform(stop_op()),
            Action::Finished(Err(BusError::NackReceived)),
        ],
{
    let start = initial_state(descriptor, payload, max_polls, access);
    let none = Seq::<u32>::empty();
    let one = none.push(inputs[0]);
    let two = one.push(inputs[1]);
    let three = two.push(inputs[2]);
    let four = three.push(inputs[3]);
    let five = four.push(inputs[4]);
    assert(inputs =~= five.push(inputs[5]));
    assert(one.drop_last() =~= none);
    assert(two.drop_last() =~= one);
    assert(three.drop_last() =~= two);
    assert(four.drop_last() =~= three);
    assert(five.drop_last() =~= four);
    assert(five.push(inputs[5]).drop_last() =~= five);
    assert(run(start, none).0 == start);
    assert(run(start, one).0.stage == Stage::BusCheck);
    assert(run(start, two).0.stage == Stage::AddressSetup);
    assert(run(start, three).0.stage == Stage::AddressStart);
    assert(run(start, four).0.stage == Stage::AddressReady);
    assert(run(start, five).0.stage == Stage::Stopping);
    assert(run(start, inputs).1 =~= seq![
        Action::Sample(Register::I2cIsr),
        Action::Perform(address_op(access, descriptor.device_address)),
        Action::Perform(start_op()),
        Action::Sample(Register::I2cIsr),
        Action::Perform(stop_op()),
        Action::Finished(Err(BusError::NackReceived)),
    ]);
}

/// A transfer touches nothing but control register 2, the status register
/// and the two data registers: it samples only the status and the receive
/// data register, and stores only to control register 2 and the transmit
/// data register.
pub proof fn lemma_step_touches_transfer_registers(state: TransactionState, input: u32)
    ensures
        match step_spec(state, input).1 {
            Action::Sample(register) => register == Register::I2cIsr || register == Register::I2cRxdr,
            Action::Perform(op) => op.target() == Register::I2cCr2 || op.target() == Register::I2cTxdr,
            Action::Finished(_) => true,
        },
{
}

/// On a bus that is found free, the first access a transfer asks for
/// after the status sample programs the address phase in the way asked
/// for. When that way is to store, control register 2 then holds the
/// address word and nothing else, whatever it held before.
pub proof fn lemma_address_phase_comes_first(
    descriptor: TransactionDescriptor,
    payload: Seq<u8>,
    max_polls: u32,
    access: ControlAccess,
    inputs: Seq<u32>,
    cr2: u32,
)
    requires
        descriptor.wf(),
        payload_fits(descriptor, payload),
        inputs.len() == 2,
        inputs[1] & ISR_BUSY == 0,
    ensures
        run(initial_state(descriptor, payload, max_polls, access), inputs).1 == seq![
            Action::Sample(Register::I2cIsr),
            Action::Perform(address_op(access, descriptor.device_address)),
        ],
        access == ControlAccess::Store ==> address_op(access, descriptor.device_address).result(cr2)
            == descriptor.device_address * 2 + 0x0001_0000,
{
    let start = initial_state(descriptor, payload, max_polls, access);
    let none = Seq::<u32>::empty();
    let one = none.push(inputs[0]);
    assert(inputs =~= one.push(inputs[1]));
    assert(one.drop_last() =~= none);
    assert(one.push(inputs[1]).drop_last() =~= one);
    assert(run(start, none).0 == start);
    assert(run(start, one).0.stage == Stage::BusCheck);
    assert(run(start, inputs).1 =~= seq![
        Action::Sample(Register::I2cIsr),
        Action::Perform(address_op(access, descriptor.device_address)),
    ]);
}

} // verus!
