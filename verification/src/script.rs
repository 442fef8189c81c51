//! Scripts: what an operation of the driver does with the device, step by
//! step, and what it means that a history records a run of one.
//!
//! An operation hands the device the steps of its script in order and stops
//! at the first bus transaction that fails. Whatever it did before stays
//! done: nothing is retried and nothing is rolled back.

use crate::device::{
    byte_reply, payload_reply, status_reply, Command, Device, Event, History, Request,
};
use crate::registers::{Register, Status};
use vstd::prelude::*;

verus! {

/// One step of an operation.
pub enum Step {
    /// Make this request.
    Request(Request),
    /// Write `register` with the byte that the step just before read,
    /// changed by `change`.
    WriteBack { register: Register, change: spec_fn(u8) -> u8 },
    /// Read as many bytes of payload as the step just before reported.
    ReadReportedPayload,
    /// Drive the chip-enable line high (`true`) or low (`false`).
    ChipEnable(bool),
}

/// What is done with the device in one event, without its outcome.
pub enum Action {
    Request(Request),
    ChipEnable(bool),
}

/// What was done in `event`.
pub open spec fn action_of<E>(event: Event<E>) -> Action {
    match event {
        Event::Exchange { request, .. } => Action::Request(request),
        Event::ChipEnable(asserted) => Action::ChipEnable(asserted),
    }
}

/// Whether `event` went through. Driving the chip-enable line cannot fail.
pub open spec fn succeeded<E>(event: Event<E>) -> bool {
    event matches Event::Exchange { reply, .. } ==> reply is Ok
}

/// The status byte that `event` returned, or zero where it returned none.
pub open spec fn status_of<E>(event: Event<E>) -> Status {
    match event {
        Event::Exchange { reply: Ok(reply), .. } => reply.status,
        _ => Status(0),
    }
}

/// The data that `event` returned, or none where it returned none.
pub open spec fn data_of<E>(event: Event<E>) -> Seq<u8> {
    match event {
        Event::Exchange { reply: Ok(reply), .. } => reply.data,
        _ => Seq::empty(),
    }
}

/// The first byte of data that `event` returned, or zero where it returned
/// none.
pub open spec fn byte_of<E>(event: Event<E>) -> u8 {
    if data_of(event).len() > 0 {
        data_of(event)[0]
    } else {
        0
    }
}

/// The script of one request.
pub open spec fn single(request: Request) -> Seq<Step> {
    seq![Step::Request(request)]
}

/// The script of a read-modify-write: read `register`, then write it with
/// what was read changed by `change`.
pub open spec fn read_modify_write(register: Register, change: spec_fn(u8) -> u8) -> Seq<Step> {
    seq![Step::Request(Request::ReadRegister(register)), Step::WriteBack { register, change }]
}

/// What `step` calls for when `events` is what the run has done so far.
pub open spec fn called_for<E>(step: Step, events: Seq<Event<E>>) -> Action {
    match step {
        Step::Request(request) => Action::Request(request),
        Step::WriteBack { register, change } => Action::Request(
            Request::WriteRegister(register, change(byte_of(events.last()))),
        ),
        Step::ReadReportedPayload => Action::Request(
            Request::ReadRxPayload(byte_of(events.last())),
        ),
        Step::ChipEnable(asserted) => Action::ChipEnable(asserted),
    }
}

/// `events` is a run of `steps`: the steps were taken in order from the
/// first, each event but the last went through, and the run stopped short
/// of the last step only at an event that failed.
pub open spec fn follows<E>(events: Seq<Event<E>>, steps: Seq<Step>) -> bool {
    &&& events.len() <= steps.len()
    &&& forall|i: int|
        0 <= i < events.len() ==> #[trigger] action_of(events[i]) == called_for(
            steps[i],
            events.take(i),
        )
    &&& forall|i: int| 0 <= i < events.len() - 1 ==> succeeded(#[trigger] events[i])
    &&& events.len() < steps.len() ==> events.len() > 0 && !succeeded(events.last())
}

/// `after` is `before` and then a run of `steps`.
pub open spec fn ran<E>(before: History<E>, after: History<E>, steps: Seq<Step>) -> bool {
    &&& before.is_prefix_of(after)
    &&& follows(after.skip(before.len() as int), steps)
}

/// How the run that led from `before` to `after` ended: with the error of
/// its last event if that failed, and well otherwise.
pub open spec fn verdict<E>(before: History<E>, after: History<E>) -> Result<(), E> {
    if after.len() > before.len() {
        match after.last() {
            Event::Exchange { reply: Err(error), .. } => Err(error),
            _ => Ok(()),
        }
    } else {
        Ok(())
    }
}

/// A run that ended well took every step of its script, and every event of
/// it went through.
pub proof fn lemma_ended_well<E>(before: History<E>, after: History<E>, steps: Seq<Step>)
    requires
        ran(before, after, steps),
        verdict(before, after) is Ok,
    ensures
        after.len() == before.len() + steps.len(),
        forall|i: int| before.len() <= i < after.len() ==> succeeded(#[trigger] after[i]),
{
    let events = after.skip(before.len() as int);
    assert forall|i: int| before.len() <= i < after.len() implies succeeded(
        #[trigger] after[i],
    ) by {
        assert(after[i] == events[i - before.len()]);
    }
}

/// A run that ended with an error stopped at the event that failed: it is
/// the last of the history, and every event of the run before it went
/// through.
pub proof fn lemma_ended_with_error<E>(before: History<E>, after: History<E>, steps: Seq<Step>)
    requires
        ran(before, after, steps),
        verdict(before, after) is Err,
    ensures
        before.len() < after.len() <= before.len() + steps.len(),
        !succeeded(after.last()),
        forall|i: int| before.len() <= i < after.len() - 1 ==> succeeded(#[trigger] after[i]),
{
    let events = after.skip(before.len() as int);
    assert forall|i: int| before.len() <= i < after.len() - 1 implies succeeded(
        #[trigger] after[i],
    ) by {
        assert(after[i] == events[i - before.len()]);
    }
}

/// `now` is `before` and then the first steps of `steps`, all of which went
/// through.
pub(crate) open spec fn underway<E>(before: History<E>, now: History<E>, steps: Seq<Step>) -> bool {
    let events = now.skip(before.len() as int);
    &&& before.is_prefix_of(now)
    &&& events.len() <= steps.len()
    &&& forall|i: int|
        0 <= i < events.len() ==> #[trigger] action_of(events[i]) == called_for(
            steps[i],
            events.take(i),
        )
    &&& forall|i: int| 0 <= i < events.len() ==> succeeded(#[trigger] events[i])
}

/// Before its first step a run is under way.
pub(crate) proof fn lemma_start<E>(before: History<E>, steps: Seq<Step>)
    ensures
        underway(before, before, steps),
{
    assert(before.skip(before.len() as int) =~= Seq::empty());
}

/// A run that is under way and takes its next step is still under way if
/// the step went through, and has ended if it failed.
pub(crate) proof fn lemma_step<E>(
    before: History<E>,
    now: History<E>,
    event: Event<E>,
    steps: Seq<Step>,
)
    requires
        underway(before, now, steps),
        now.len() - before.len() < steps.len(),
        action_of(event) == called_for(
            steps[now.len() - before.len()],
            now.skip(before.len() as int),
        ),
    ensures
        succeeded(event) ==> underway(before, now.push(event), steps),
        !succeeded(event) ==> ran(before, now.push(event), steps),
{
    let old_events = now.skip(before.len() as int);
    let events = now.push(event).skip(before.len() as int);
    assert(events =~= old_events.push(event));
    assert(events.take(old_events.len() as int) =~= old_events);
    assert forall|i: int| 0 <= i < events.len() implies #[trigger] action_of(events[i])
        == called_for(steps[i], events.take(i)) by {
        if i < old_events.len() {
            assert(events.take(i) =~= old_events.take(i));
            assert(events[i] == old_events[i]);
        }
    }
    assert forall|i: int| 0 <= i < events.len() - 1 implies succeeded(#[trigger] events[i]) by {
        assert(events[i] == old_events[i]);
    }
}

/// A run that is under way and has taken its last step has ended well.
pub(crate) proof fn lemma_finish<E>(before: History<E>, now: History<E>, steps: Seq<Step>)
    requires
        underway(before, now, steps),
        now.len() - before.len() == steps.len(),
    ensures
        ran(before, now, steps),
        verdict(before, now) == Ok::<(), E>(()),
{
    let events = now.skip(before.len() as int);
    if events.len() > 0 {
        assert(succeeded(events[events.len() - 1]));
    }
}

/// The step that a run from `before` to `now` takes next.
pub(crate) open spec fn next_action<E>(
    before: History<E>,
    now: History<E>,
    steps: Seq<Step>,
) -> Action {
    called_for(steps[now.len() - before.len()], now.skip(before.len() as int))
}

/// Whether a run from `before` to `now` is under way and `request` is its
/// next step.
pub(crate) open spec fn next_is<E>(
    before: History<E>,
    now: History<E>,
    steps: Seq<Step>,
    request: Request,
) -> bool {
    &&& underway(before, now, steps)
    &&& now.len() - before.len() < steps.len()
    &&& next_action(before, now, steps) == Action::Request(request)
}

/// Whether the run from `before` took one more step from `now` to `after`
/// with this outcome: it is still under way if the step went through, and
/// has ended with the step's error if it failed.
pub(crate) open spec fn stepped<E>(
    before: History<E>,
    now: History<E>,
    after: History<E>,
    steps: Seq<Step>,
    outcome: Result<(), E>,
) -> bool {
    &&& after == now.push(after.last())
    &&& after.skip(before.len() as int).last() == after.last()
    &&& outcome is Ok ==> underway(before, after, steps)
    &&& outcome is Err ==> ran(before, after, steps)
    &&& outcome is Err ==> verdict(before, after) == outcome
}

/// How a result says that an operation ended, without what it returned.
pub open spec fn outcome_of<T, E>(result: Result<T, E>) -> Result<(), E> {
    match result {
        Ok(_) => Ok(()),
        Err(error) => Err(error),
    }
}

/// Takes the next step of a run: reads a one-byte register.
pub(crate) fn step_read<D: Device>(
    device: &mut D,
    register: Register,
    Ghost(before): Ghost<History<D::Error>>,
    Ghost(steps): Ghost<Seq<Step>>,
) -> (result: Result<(Status, u8), D::Error>)
    requires
        next_is(before, old(device).history(), steps, Request::ReadRegister(register)),
    ensures
        stepped(before, old(device).history(), final(device).history(), steps, outcome_of(result)),
        final(device).history().last() == (Event::Exchange {
            request: Request::ReadRegister(register),
            reply: byte_reply(result),
        }),
{
    let ghost now = device.history();
    let result = device.read_register(register);
    proof {
        lemma_step(before, now, device.history().last(), steps);
    }
    result
}

/// Takes the next step of a run: writes a one-byte register.
pub(crate) fn step_write<D: Device>(
    device: &mut D,
    register: Register,
    value: u8,
    Ghost(before): Ghost<History<D::Error>>,
    Ghost(steps): Ghost<Seq<Step>>,
) -> (result: Result<Status, D::Error>)
    requires
        next_is(before, old(device).history(), steps, Request::WriteRegister(register, value)),
    ensures
        stepped(before, old(device).history(), final(device).history(), steps, outcome_of(result)),
        final(device).history().last() == (Event::Exchange {
            request: Request::WriteRegister(register, value),
            reply: status_reply(result),
        }),
{
    let ghost now = device.history();
    let result = device.write_register(register, value);
    proof {
        lemma_step(before, now, device.history().last(), steps);
    }
    result
}

/// Takes the next step of a run: writes an address register.
pub(crate) fn step_write_address<D: Device>(
    device: &mut D,
    register: Register,
    address: &[u8],
    Ghost(before): Ghost<History<D::Error>>,
    Ghost(steps): Ghost<Seq<Step>>,
) -> (result: Result<Status, D::Error>)
    requires
        next_is(before, old(device).history(), steps, Request::WriteAddress(register, address@)),
    ensures
        stepped(before, old(device).history(), final(device).history(), steps, outcome_of(result)),
        final(device).history().last() == (Event::Exchange {
            request: Request::WriteAddress(register, address@),
            reply: status_reply(result),
        }),
{
    let ghost now = device.history();
    let result = device.write_address(register, address);
    proof {
        lemma_step(before, now, device.history().last(), steps);
    }
    result
}

/// Takes the next step of a run: issues a command.
pub(crate) fn step_command<D: Device>(
    device: &mut D,
    command: Command,
    Ghost(before): Ghost<History<D::Error>>,
    Ghost(steps): Ghost<Seq<Step>>,
) -> (result: Result<Status, D::Error>)
    requires
        next_is(before, old(device).history(), steps, Request::Command(command)),
    ensures
        stepped(before, old(device).history(), final(device).history(), steps, outcome_of(result)),
        final(device).history().last() == (Event::Exchange {
            request: Request::Command(command),
            reply: status_reply(result),
        }),
{
    let ghost now = device.history();
    let result = device.send_command(command);
    proof {
        lemma_step(before, now, device.history().last(), steps);
    }
    result
}

/// Takes the next step of a run: reads the width of the payload at the head
/// of the receive FIFO.
pub(crate) fn step_read_width<D: Device>(
    device: &mut D,
    Ghost(before): Ghost<History<D::Error>>,
    Ghost(steps): Ghost<Seq<Step>>,
) -> (result: Result<(Status, u8), D::Error>)
    requires
        next_is(before, old(device).history(), steps, Request::ReadRxPayloadWidth),
    ensures
        stepped(before, old(device).history(), final(device).history(), steps, outcome_of(result)),
        final(device).history().last() == (Event::Exchange {
            request: Request::ReadRxPayloadWidth,
            reply: byte_reply(result),
        }),
{
    let ghost now = device.history();
    let result = device.read_rx_payload_width();
    proof {
        lemma_step(before, now, device.history().last(), steps);
    }
    result
}

/// Takes the next step of a run: reads a payload from the receive FIFO.
pub(crate) fn step_read_payload<D: Device>(
    device: &mut D,
    width: u8,
    Ghost(before): Ghost<History<D::Error>>,
    Ghost(steps): Ghost<Seq<Step>>,
) -> (result: Result<(Status, Vec<u8>), D::Error>)
    requires
        next_is(before, old(device).history(), steps, Request::ReadRxPayload(width)),
    ensures
        stepped(before, old(device).history(), final(device).history(), steps, outcome_of(result)),
        final(device).history().last() == (Event::Exchange {
            request: Request::ReadRxPayload(width),
            reply: payload_reply(result),
        }),
{
    let ghost now = device.history();
    let result = device.read_rx_payload(width);
    proof {
        lemma_step(before, now, device.history().last(), steps);
    }
    result
}

/// Takes the next step of a run: puts a payload into the transmit FIFO.
pub(crate) fn step_write_payload<D: Device>(
    device: &mut D,
    payload: &[u8],
    Ghost(before): Ghost<History<D::Error>>,
    Ghost(steps): Ghost<Seq<Step>>,
) -> (result: Result<Status, D::Error>)
    requires
        next_is(before, old(device).history(), steps, Request::WriteTxPayload(payload@)),
    ensures
        stepped(before, old(device).history(), final(device).history(), steps, outcome_of(result)),
        final(device).history().last() == (Event::Exchange {
            request: Request::WriteTxPayload(payload@),
            reply: status_reply(result),
        }),
{
    let ghost now = device.history();
    let result = device.write_tx_payload(payload);
    proof {
        lemma_step(before, now, device.history().last(), steps);
    }
    result
}

/// Takes the next step of a run: drives the chip-enable line.
pub(crate) fn step_chip_enable<D: Device>(
    device: &mut D,
    asserted: bool,
    Ghost(before): Ghost<History<D::Error>>,
    Ghost(steps): Ghost<Seq<Step>>,
)
    requires
        underway(before, old(device).history(), steps),
        old(device).history().len() - before.len() < steps.len(),
        next_action(before, old(device).history(), steps) == Action::ChipEnable(asserted),
    ensures
        final(device).history() == old(device).history().push(Event::ChipEnable(asserted)),
        final(device).history().skip(before.len() as int).last() == final(device).history().last(),
        underway(before, final(device).history(), steps),
{
    let ghost now = device.history();
    if asserted {
        device.ce_enable();
    } else {
        device.ce_disable();
    }
    proof {
        lemma_step(before, now, device.history().last(), steps);
    }
}

} // verus!
