use std::sync::mpsc::{Receiver, SyncSender, TrySendError};
use vstd::prelude::*;

verus! {

#[verifier::external_type_specification]
#[verifier::external_body]
#[verifier::reject_recursive_types(T)]
pub struct ExSyncSender<T>(SyncSender<T>);

#[verifier::external_type_specification]
#[verifier::external_body]
#[verifier::reject_recursive_types(T)]
pub struct ExReceiver<T>(Receiver<T>);

/// Relies on `std::sync::mpsc::sync_channel`: the two ends of one FIFO queue
/// that holds at most `bound` items. Nothing is stated of the pair.
pub assume_specification<T>[ std::sync::mpsc::sync_channel::<T> ](bound: usize) -> (
    SyncSender<T>,
    Receiver<T>,
);

/// Relies on `Clone for SyncSender`: another sending handle to the same queue.
pub assume_specification<T>[ <SyncSender<T> as Clone>::clone ](s: &SyncSender<T>) -> SyncSender<T>;

/// Most ready tasks that wait in the queue at one time.
pub const MAX_QUEUED_TASKS: usize = 10000;

/// What became of an item offered to the bounded queue.
pub enum Enqueued<T> {
    Queued,
    /// The queue held as many items as it can; the item comes back.
    Full(T),
    /// The receiving side is gone; the item comes back.
    Closed(T),
}

/// Why a task could not be queued.
#[derive(PartialEq, Eq, Structural, Debug, Clone, Copy)]
pub enum SpawnError {
    /// The queue is at its capacity. This design does not wait for room:
    /// the condition is fatal to the program.
    QueueOverflow,
    /// The executor no longer receives tasks.
    ExecutorGone,
}

/// The answer to a spawn whose offer to the queue ended in `outcome`.
pub open spec fn spawn_result_of<T>(outcome: Enqueued<T>) -> Result<(), SpawnError> {
    match outcome {
        Enqueued::Queued => Ok(()),
        Enqueued::Full(_) => Err(SpawnError::QueueOverflow),
        Enqueued::Closed(_) => Err(SpawnError::ExecutorGone),
    }
}

/// Relies on `SyncSender::try_send`: it never blocks; it queues the item,
/// or hands it back when the queue is full or the receiver is gone.
#[verifier::external_body]
fn try_enqueue<T>(sender: &SyncSender<T>, item: T) -> (r: Enqueued<T>)
    ensures
        r matches Enqueued::Full(t) ==> t == item,
        r matches Enqueued::Closed(t) ==> t == item,
{
    match sender.try_send(item) {
        Ok(()) => Enqueued::Queued,
        Err(TrySendError::Full(t)) => Enqueued::Full(t),
        Err(TrySendError::Disconnected(t)) => Enqueued::Closed(t),
    }
}

/// Relies on `Receiver::recv`: blocks until an item is there, and gives
/// `None` once the queue is empty and every sending handle is gone.
#[verifier::external_body]
fn receive<T>(receiver: &Receiver<T>) -> (r: Option<T>) {
    receiver.recv().ok()
}

/// Maps what became of an offered task to the answer of a spawn.
pub fn spawn_result<T>(outcome: Enqueued<T>) -> (r: Result<(), SpawnError>)
    ensures
        r == spawn_result_of(outcome),
{
    match outcome {
        Enqueued::Queued => Ok(()),
        Enqueued::Full(_) => Err(SpawnError::QueueOverflow),
        Enqueued::Closed(_) => Err(SpawnError::ExecutorGone),
    }
}

/// The single consuming side of the ready queue.
#[verifier::reject_recursive_types(T)]
pub struct Executor<T> {
    ready_queue: Receiver<T>,
}

/// A ready task that the executor advances by one step; what the step
/// produces is the task's own affair.
pub trait RunOnce {
    fn run_once(&self);
}

impl<T: RunOnce> Executor<T> {
    /// Takes each ready task in turn and runs one step of it, until the
    /// queue is drained and no `Spawner` is left. It stops at the latest
    /// after `u64::MAX` tasks, a count that no run reaches.
    pub fn run(&self) {
        let mut budget: u64 = u64::MAX;
        while budget > 0
            decreases budget,
        {
            match self.next_task() {
                Some(task) => task.run_once(),
                None => break,
            }
            budget = budget - 1;
        }
    }
}

impl<T> Executor<T> {
    /// The next ready task, waiting for one if none is queued; `None` once
    /// the queue is drained and no `Spawner` is left.
    pub fn next_task(&self) -> (r: Option<T>) {
        receive(&self.ready_queue)
    }
}

/// A producing side of the ready queue; any number of them may exist, on
/// any thread.
#[verifier::reject_recursive_types(T)]
pub struct Spawner<T> {
    task_sender: SyncSender<T>,
}

impl<T> Clone for Spawner<T> {
    fn clone(&self) -> (s: Self) {
        Spawner { task_sender: self.task_sender.clone() }
    }
}

impl<T> Spawner<T> {
    /// Queues a ready task without waiting. A full queue is not waited on:
    /// it is reported as `QueueOverflow`, and the task is not queued. Which
    /// answer comes depends on the queue, which other threads fill and
    /// drain at the same time, so nothing is promised of it here; the
    /// answer for each outcome of the queue is `spawn_result`'s.
    pub fn spawn(&self, task: T) -> (r: Result<(), SpawnError>) {
        let outcome = try_enqueue(&self.task_sender, task);
        spawn_result(outcome)
    }
}

/// An executor and the first spawner of a queue of capacity
/// `MAX_QUEUED_TASKS`.
pub fn new_executor_spawner<T>() -> (r: (Executor<T>, Spawner<T>)) {
    let (task_sender, ready_queue) = std::sync::mpsc::sync_channel(MAX_QUEUED_TASKS);
    (Executor { ready_queue }, Spawner { task_sender })
}

} // verus!
