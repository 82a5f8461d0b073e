//! The command channel: a bounded multi-producer/single-consumer hand-off
//! from the UI thread to the render thread, carried by
//! `crossbeam_channel`.
//!
//! What another thread has put into or taken out of the channel is not a
//! function of the endpoint a call sees, so the contracts here promise
//! nothing about which commands come back — only the closed set of
//! outcomes each call can have. Everything done with a drained command is
//! verified downstream for every value it could be.

use vstd::prelude::*;

use crate::command::ViewportCommand;

verus! {

/// How many commands the channel holds before a sender sees
/// backpressure. Deliberately small: the render loop only needs the
/// latest configuration, not a full history.
pub const COMMAND_CAPACITY: usize = 10;

/// Largest capacity the channel constructor is asked for; keeps the
/// construction well under any allocation limit.
pub const MAX_CHANNEL_CAPACITY: usize = 4096;

#[verifier::external_type_specification]
#[verifier::external_body]
#[verifier::reject_recursive_types(T)]
pub struct ExSender<T>(crossbeam_channel::Sender<T>);

#[verifier::external_type_specification]
#[verifier::external_body]
#[verifier::reject_recursive_types(T)]
pub struct ExReceiver<T>(crossbeam_channel::Receiver<T>);

/// Why a non-blocking send did not hand its command over: the channel
/// was full, or the receiving side is gone.
#[derive(Clone, Copy, Debug, PartialEq, Eq, Structural)]
pub enum SendFailure {
    Full,
    Disconnected,
}

/// What one non-blocking poll of the channel yielded.
pub enum RecvAttempt {
    Received(ViewportCommand),
    Empty,
    Disconnected,
}

/// Relies on `crossbeam_channel::bounded`: builds a channel of the given
/// capacity, returning its two endpoints. `bounded` panics only when the
/// capacity is too large for its backing allocation, so small capacities
/// are required here.
#[verifier::external_body]
pub(crate) fn new_command_channel(cap: usize) -> (r: (
    crossbeam_channel::Sender<ViewportCommand>,
    crossbeam_channel::Receiver<ViewportCommand>,
))
    requires
        1 <= cap <= MAX_CHANNEL_CAPACITY,
{
    crossbeam_channel::bounded(cap)
}

/// Relies on `crossbeam_channel::Sender::try_send`: hands the command
/// over without blocking, or reports the channel full or disconnected.
/// Which of the three happens depends on the other threads, so nothing
/// is promised beyond the closed set of outcomes in the result type.
#[verifier::external_body]
pub(crate) fn try_send_command(
    sender: &crossbeam_channel::Sender<ViewportCommand>,
    cmd: ViewportCommand,
) -> (r: Result<(), SendFailure>) {
    match sender.try_send(cmd) {
        Ok(()) => Ok(()),
        Err(crossbeam_channel::TrySendError::Full(_)) => Err(SendFailure::Full),
        Err(crossbeam_channel::TrySendError::Disconnected(_)) => Err(SendFailure::Disconnected),
    }
}

/// Relies on `crossbeam_channel::Receiver::try_recv`: takes the oldest
/// queued command without blocking, or reports the channel empty or
/// disconnected. Which of the three happens depends on the other
/// threads, so nothing is promised beyond the closed set of outcomes in
/// the result type.
#[verifier::external_body]
pub(crate) fn try_recv_command(receiver: &crossbeam_channel::Receiver<ViewportCommand>) -> (r:
    RecvAttempt) {
    match receiver.try_recv() {
        Ok(cmd) => RecvAttempt::Received(cmd),
        Err(crossbeam_channel::TryRecvError::Empty) => RecvAttempt::Empty,
        Err(crossbeam_channel::TryRecvError::Disconnected) => RecvAttempt::Disconnected,
    }
}

/// Relies on `crossbeam_channel::Receiver::clone`: a second endpoint of
/// the same channel, for the render thread to poll.
#[verifier::external_body]
pub(crate) fn clone_command_receiver(
    receiver: &crossbeam_channel::Receiver<ViewportCommand>,
) -> (r: crossbeam_channel::Receiver<ViewportCommand>) {
    receiver.clone()
}

/// Drains up to `max` currently queued commands, in arrival order,
/// stopping early when the channel is empty or disconnected. The render
/// loop calls this once per tick, so anything past the bound is simply
/// picked up next tick.
pub fn drain_commands(
    receiver: &crossbeam_channel::Receiver<ViewportCommand>,
    max: usize,
) -> (batch: Vec<ViewportCommand>)
    ensures
        batch@.len() <= max,
{
    let mut batch: Vec<ViewportCommand> = Vec::new();
    let mut i: usize = 0;
    while i < max
        invariant
            i <= max,
            batch@.len() == i,
        decreases max - i,
    {
        match try_recv_command(receiver) {
            RecvAttempt::Received(cmd) => {
                batch.push(cmd);
            },
            RecvAttempt::Empty => {
                return batch;
            },
            RecvAttempt::Disconnected => {
                return batch;
            },
        }
        i = i + 1;
    }
    batch
}

} // verus!
