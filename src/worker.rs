//! The decisions of a background worker that runs queued triggers.
use vstd::prelude::*;

verus! {

/// Capacity of a worker's queue: a sender blocks once this many packets wait.
pub const WORKER_QUEUE_CAPACITY: usize = 100;

/// What a worker's queue hands it next.
#[derive(Clone, Copy, Debug, PartialEq, Eq, Structural)]
pub enum WorkerEvent {
    /// A frame and the trigger to run on it.
    Packet,
    /// The stop command.
    Stop,
    /// Every sender is gone.
    Disconnected,
}

/// What the worker does next.
#[derive(Clone, Copy, Debug, PartialEq, Eq, Structural)]
pub enum WorkerAction {
    /// Run the packet's trigger on its frame, report any error, and wait for
    /// the next event.
    RunTrigger,
    /// Leave the loop.
    Exit,
}

/// The decisions of a worker thread: it runs packets in the order they come
/// until it is told to stop or its queue is disconnected.
#[derive(Clone, Copy, Debug, PartialEq, Eq, Structural)]
pub struct WorkerState {
    pub running: bool,
    /// Packets run so far.
    pub processed: u64,
}

/// The state after `event`.
pub open spec fn worker_step(s: WorkerState, event: WorkerEvent) -> WorkerState {
    if !s.running {
        s
    } else {
        match event {
            WorkerEvent::Packet => WorkerState { running: true, processed: (s.processed + 1) as u64 },
            _ => WorkerState { running: false, processed: s.processed },
        }
    }
}

/// The state after the events, in order, from `s`.
pub open spec fn worker_run(s: WorkerState, events: Seq<WorkerEvent>) -> WorkerState
    decreases events.len(),
{
    if events.len() == 0 {
        s
    } else {
        worker_run(worker_step(s, events[0]), events.subrange(1, events.len() as int))
    }
}

impl WorkerState {
    pub fn new() -> (r: WorkerState)
        ensures
            r.running,
            r.processed == 0,
    {
        WorkerState { running: true, processed: 0 }
    }

    /// Decides what to do with the next event of the queue.
    pub fn on_event(&mut self, event: WorkerEvent) -> (r: WorkerAction)
        requires
            old(self).running,
            old(self).processed < u64::MAX,
        ensures
            *final(self) == worker_step(*old(self), event),
            r == (if event == WorkerEvent::Packet {
                WorkerAction::RunTrigger
            } else {
                WorkerAction::Exit
            }),
    {
        match event {
            WorkerEvent::Packet => {
                self.processed = self.processed + 1;
                WorkerAction::RunTrigger
            },
            _ => {
                self.running = false;
                WorkerAction::Exit
            },
        }
    }
}

/// `n` packets.
pub open spec fn packets(n: nat) -> Seq<WorkerEvent> {
    Seq::new(n, |i: int| WorkerEvent::Packet)
}

/// A worker fed one packet per delivered frame and then the stop command runs
/// exactly one trigger per delivered frame, whatever comes after the stop.
pub proof fn lemma_worker_runs_every_packet(n: nat, after: Seq<WorkerEvent>)
    requires
        n < u64::MAX,
    ensures
        worker_run(WorkerState { running: true, processed: 0 }, packets(n) + seq![WorkerEvent::Stop] + after).processed == n,
{
    lemma_worker_run_packets(n, 0, seq![WorkerEvent::Stop] + after);
    assert(packets(n) + seq![WorkerEvent::Stop] + after =~= packets(n) + (seq![WorkerEvent::Stop] + after));
    lemma_worker_stopped(WorkerState { running: false, processed: n as u64 }, after);
    let rest = seq![WorkerEvent::Stop] + after;
    assert(rest.subrange(1, rest.len() as int) =~= after);
}

/// Packets each add one to the count of a running worker.
proof fn lemma_worker_run_packets(n: nat, start: u64, rest: Seq<WorkerEvent>)
    requires
        start + n < u64::MAX,
    ensures
        worker_run(WorkerState { running: true, processed: start }, packets(n) + rest)
            == worker_run(WorkerState { running: true, processed: (start + n) as u64 }, rest),
    decreases n,
{
    if n > 0 {
        let events = packets(n) + rest;
        assert(events[0] == WorkerEvent::Packet);
        assert(events.subrange(1, events.len() as int) =~= packets((n - 1) as nat) + rest);
        lemma_worker_run_packets((n - 1) as nat, (start + 1) as u64, rest);
    } else {
        assert(packets(n) + rest =~= rest);
    }
}

/// A stopped worker ignores every later event.
proof fn lemma_worker_stopped(s: WorkerState, events: Seq<WorkerEvent>)
    requires
        !s.running,
    ensures
        worker_run(s, events) == s,
    decreases events.len(),
{
    if events.len() > 0 {
        lemma_worker_stopped(s, events.subrange(1, events.len() as int));
    }
}

} // verus!
