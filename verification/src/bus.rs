//! The log bus and the shutdown signal: the two primitives that bind a
//! background task to the driver that polls it.

use crate::channels::{
    log_bus, poll_bus, share_listener, share_signal, share_sink, shutdown_signal, signal,
    QUEUE_CAPACITY,
};
use crate::log::Log;
use tokio::sync::{mpsc, watch};
use vstd::prelude::*;

verus! {

/// Whether `longer` starts with `shorter`.
pub open spec fn extends(longer: Seq<Log>, shorter: Seq<Log>) -> bool {
    shorter.len() <= longer.len() && longer.subrange(0, shorter.len() as int) == shorter
}

/// A copy of the log, entry by entry.
pub fn copy_logs(logs: &Vec<Log>) -> (copy: Vec<Log>)
    ensures
        copy@.len() == logs@.len(),
        forall|i: int| 0 <= i < copy@.len() ==> #[trigger] copy@[i]@ == logs@[i]@,
{
    let mut copy: Vec<Log> = Vec::new();
    let mut at: usize = 0;
    while at < logs.len()
        invariant
            at <= logs.len(),
            copy@.len() == at,
            forall|i: int| 0 <= i < at ==> #[trigger] copy@[i]@ == logs@[i]@,
        decreases logs.len() - at,
    {
        copy.push(logs[at].clone());
        at += 1;
    }
    copy
}

/// An ordered, append-only log with a bounded queue in front of it.
/// Background tasks put entries on the queue through a sink; the one
/// consumer polls the queue and so moves them to the end of the log, in the
/// order in which they reached the queue. The view is the log as far as it
/// has been polled.
pub struct LogBus {
    logs: Vec<Log>,
    tx: mpsc::Sender<Log>,
    rx: mpsc::Receiver<Log>,
}

impl View for LogBus {
    type V = Seq<Log>;

    closed spec fn view(&self) -> Seq<Log> {
        self.logs@
    }
}

impl LogBus {
    /// A bus with an empty log.
    pub fn new() -> (bus: LogBus)
        ensures
            bus@.len() == 0,
    {
        let (tx, rx) = log_bus(QUEUE_CAPACITY);
        LogBus { logs: Vec::new(), tx, rx }
    }

    /// A producer's end of the queue.
    pub fn sink(&self) -> mpsc::Sender<Log> {
        share_sink(&self.tx)
    }

    /// Appends an entry to the log directly, past the queue.
    pub fn append(&mut self, entry: Log)
        ensures
            final(self)@ == old(self)@.push(entry),
    {
        self.logs.push(entry);
    }

    /// Appends what one poll of the queue brought, and says whether it
    /// brought an entry.
    pub fn absorb(&mut self, polled: Option<Log>) -> (grew: bool)
        ensures
            grew == polled is Some,
            match polled {
                Some(entry) => final(self)@ == old(self)@.push(entry),
                None => final(self)@ == old(self)@,
            },
    {
        match polled {
            Some(entry) => {
                self.logs.push(entry);
                true
            },
            None => false,
        }
    }

    /// Moves what waits on the queue to the end of the log, at most one full
    /// queue at a time, and gives the length that the log had before.
    /// Nothing that was in the log is changed or reordered.
    pub fn poll(&mut self) -> (prior: usize)
        ensures
            prior == old(self)@.len(),
            extends(final(self)@, old(self)@),
            final(self)@.len() <= old(self)@.len() + QUEUE_CAPACITY,
    {
        let prior = self.logs.len();
        let ghost before = self.logs@;
        let mut polls: usize = 0;
        assert(self.logs@.subrange(0, before.len() as int) =~= before);
        while polls < QUEUE_CAPACITY
            invariant
                polls <= QUEUE_CAPACITY,
                extends(self.logs@, before),
                self.logs@.len() <= before.len() + polls,
            decreases QUEUE_CAPACITY - polls,
        {
            let polled = poll_bus(&mut self.rx);
            let ghost so_far = self.logs@;
            if !self.absorb(polled) {
                break;
            }
            assert(self.logs@.subrange(0, before.len() as int) =~= so_far.subrange(
                0,
                before.len() as int,
            ));
            polls += 1;
        }
        prior
    }

    pub fn len(&self) -> (len: usize)
        ensures
            len == self@.len(),
    {
        self.logs.len()
    }

    /// A copy of the log as far as it has been polled.
    pub fn snapshot(&self) -> (logs: Vec<Log>)
        ensures
            logs@.len() == self@.len(),
            forall|i: int| 0 <= i < logs@.len() ==> #[trigger] logs@[i]@ == self@[i]@,
    {
        copy_logs(&self.logs)
    }
}

/// A single-slot, level-triggered flag that asks background tasks to stop.
/// Any number of listeners can watch it. Raising it is not consumed: a
/// listener that looks later still sees it raised, and raising it again
/// changes nothing. What it holds at a given moment is for the tasks that
/// share it to say.
pub struct ShutdownSignal {
    tx: watch::Sender<bool>,
    rx: watch::Receiver<bool>,
}

impl ShutdownSignal {
    /// A lowered signal.
    pub fn new() -> ShutdownSignal {
        let (tx, rx) = shutdown_signal();
        ShutdownSignal { tx, rx }
    }

    /// Raises the signal. It does not wait for anyone to see it.
    pub fn raise(&self) {
        let _ = signal(&self.tx, true);
    }

    /// A handle with which a task can raise or lower the signal.
    pub fn raiser(&self) -> watch::Sender<bool> {
        share_signal(&self.tx)
    }

    /// One more listener.
    pub fn listener(&self) -> watch::Receiver<bool> {
        share_listener(&self.rx)
    }
}

} // verus!
