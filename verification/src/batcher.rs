use crate::types::{LogMessage, MessageBatch, MessageType};
use vstd::prelude::*;

verus! {

/// Number of buffered entries at which the worker flushes without waiting.
pub const MAX_BATCH_SIZE: usize = 100;

/// Longest time, in milliseconds, that the worker waits for the next entry
/// before it flushes what it holds.
pub const BATCH_INTERVAL_MS: u64 = 100;

/// Where the batching worker stands in its life.
#[derive(Debug, Clone, Copy, PartialEq, Eq, Structural)]
pub enum WorkerState {
    /// Receiving entries and flushing by size or by time.
    Running,
    /// The stop signal was seen; what is still buffered awaits its last flush.
    Draining,
    /// Nothing is buffered and nothing more will be sent.
    Stopped,
}

/// What can happen to the worker.
pub enum WorkerEvent {
    /// An entry arrived from the queue.
    Entry(LogMessage),
    /// The wait for the next entry ran out, or the queue was closed.
    Timeout,
    /// The stop signal was read: `true` if it was set.
    StopSignal(bool),
    /// The worker leaves its loop and gives up the transport.
    Finish,
}

/// What the worker has to do next; its outcome is the next event.
#[derive(Debug, Clone, Copy, PartialEq, Eq, Structural)]
pub enum Directive {
    /// Wait for the next entry, up to the flush interval: `Entry` if one
    /// arrives, `Timeout` if none does.
    Receive,
    /// Read the stop signal: `StopSignal` with what it holds.
    ReadStopSignal,
    /// Leave the loop: `Finish`.
    Finish,
    /// Nothing: the worker has stopped.
    Exit,
}

/// The worker as a value: its state, the token of its destination, the
/// entries it holds, oldest first, and what it has to do next.
pub ghost struct BatcherView {
    pub state: WorkerState,
    pub token: Seq<char>,
    pub buffer: Seq<LogMessage>,
    pub next: Directive,
}

impl BatcherView {
    /// The buffer stays under the size threshold between events, and a
    /// stopped worker holds nothing.
    pub open spec fn wf(self) -> bool {
        &&& self.buffer.len() < MAX_BATCH_SIZE
        &&& self.state == WorkerState::Stopped ==> self.buffer.len() == 0
    }

    /// A worker that has just been started.
    pub open spec fn fresh(token: Seq<char>) -> BatcherView {
        BatcherView {
            state: WorkerState::Running,
            token,
            buffer: Seq::empty(),
            next: Directive::Receive,
        }
    }
}

/// The entries that leave for the transport when `event` reaches a worker in
/// state `v`, or `None` where nothing is sent.
pub open spec fn step_output(v: BatcherView, event: WorkerEvent) -> Option<Seq<LogMessage>> {
    match event {
        WorkerEvent::Entry(entry) => if v.state == WorkerState::Running && v.buffer.len() + 1
            >= MAX_BATCH_SIZE {
            Some(v.buffer.push(entry))
        } else {
            None
        },
        WorkerEvent::Timeout => if v.state == WorkerState::Running && v.buffer.len() > 0 {
            Some(v.buffer)
        } else {
            None
        },
        WorkerEvent::StopSignal(_) => None,
        WorkerEvent::Finish => if v.state == WorkerState::Draining && v.buffer.len() > 0 {
            Some(v.buffer)
        } else {
            None
        },
    }
}

/// What a worker that has come to `state` by `event` does next. A running
/// worker reads the stop signal after a timeout and only then, so that it
/// stops only once the queue has been found empty for a whole interval.
pub open spec fn next_directive(state: WorkerState, event: WorkerEvent) -> Directive {
    match state {
        WorkerState::Running => if event is Timeout {
            Directive::ReadStopSignal
        } else {
            Directive::Receive
        },
        WorkerState::Draining => Directive::Finish,
        WorkerState::Stopped => Directive::Exit,
    }
}

/// The state that `event` brings a worker in state `v` to. Only a running
/// worker reacts to entries, timeouts and the stop signal, and only a
/// draining one finishes.
pub open spec fn step_phase(v: BatcherView, event: WorkerEvent) -> WorkerState {
    match event {
        WorkerEvent::StopSignal(true) => if v.state == WorkerState::Running {
            WorkerState::Draining
        } else {
            v.state
        },
        WorkerEvent::Finish => if v.state == WorkerState::Draining {
            WorkerState::Stopped
        } else {
            v.state
        },
        _ => v.state,
    }
}

/// What a worker in state `v` holds after `event`.
pub open spec fn step_buffer(v: BatcherView, event: WorkerEvent) -> Seq<LogMessage> {
    match event {
        WorkerEvent::Entry(entry) => if v.state == WorkerState::Running {
            if v.buffer.len() + 1 >= MAX_BATCH_SIZE {
                Seq::empty()
            } else {
                v.buffer.push(entry)
            }
        } else {
            v.buffer
        },
        WorkerEvent::Timeout => if v.state == WorkerState::Running {
            Seq::empty()
        } else {
            v.buffer
        },
        WorkerEvent::StopSignal(_) => v.buffer,
        WorkerEvent::Finish => if v.state == WorkerState::Draining {
            Seq::empty()
        } else {
            v.buffer
        },
    }
}

/// The worker after `event` has reached it in state `v`.
pub open spec fn step_state(v: BatcherView, event: WorkerEvent) -> BatcherView {
    BatcherView {
        state: step_phase(v, event),
        token: v.token,
        buffer: step_buffer(v, event),
        next: next_directive(step_phase(v, event), event),
    }
}

/// What `batch` must be for a step whose output is `output`.
pub open spec fn batch_matches(
    batch: Option<MessageBatch>,
    output: Option<Seq<LogMessage>>,
    token: Seq<char>,
) -> bool {
    match output {
        None => batch is None,
        Some(entries) => {
            &&& batch is Some
            &&& batch.unwrap().logs@ == entries
            &&& batch.unwrap().token@ == token
            &&& batch.unwrap().msg_type == MessageType::Logs
        },
    }
}

/// The batching worker's buffer and state. The caller waits on the queue
/// and performs the sends; every decision is taken here.
pub struct Batcher {
    token: String,
    state: WorkerState,
    buffer: Vec<LogMessage>,
    next: Directive,
}

impl View for Batcher {
    type V = BatcherView;

    closed spec fn view(&self) -> BatcherView {
        BatcherView {
            state: self.state,
            token: self.token@,
            buffer: self.buffer@,
            next: self.next,
        }
    }
}

impl Batcher {
    #[verifier::type_invariant]
    spec fn inv(self) -> bool {
        self@.wf()
    }

    /// A running worker with an empty buffer.
    pub fn new(token: &str) -> (b: Self)
        ensures
            b@ == BatcherView::fresh(token@),
            b@.wf(),
    {
        Batcher {
            token: token.to_owned(),
            state: WorkerState::Running,
            buffer: Vec::with_capacity(MAX_BATCH_SIZE),
            next: Directive::Receive,
        }
    }

    /// What the worker has to do next.
    pub fn directive(&self) -> (d: Directive)
        ensures
            d == self@.next,
    {
        self.next
    }

    pub fn state(&self) -> (s: WorkerState)
        ensures
            s == self@.state,
    {
        self.state
    }

    /// Number of entries that wait for the next flush.
    pub fn pending(&self) -> (n: usize)
        ensures
            n == self@.buffer.len(),
    {
        self.buffer.len()
    }

    /// Empties the buffer into a batch; no batch where nothing is buffered.
    fn take_batch(&mut self) -> (batch: Option<MessageBatch>)
        ensures
            final(self)@.wf(),
            final(self)@ == (BatcherView { buffer: Seq::empty(), ..old(self)@ }),
            batch_matches(
                batch,
                if old(self)@.buffer.len() > 0 {
                    Some(old(self)@.buffer)
                } else {
                    None
                },
                old(self)@.token,
            ),
    {
        proof {
            use_type_invariant(&*self);
        }
        if self.buffer.len() == 0 {
            assert(self.buffer@ =~= Seq::empty());
            return None;
        }
        let mut logs: Vec<LogMessage> = Vec::with_capacity(MAX_BATCH_SIZE);
        std::mem::swap(&mut self.buffer, &mut logs);
        assert(self.buffer@ =~= Seq::empty());
        Some(MessageBatch { token: self.token.clone(), msg_type: MessageType::Logs, logs })
    }

    /// Takes one event: moves to the next state, hands back the batch to
    /// send, if the event calls for one, and sets what is to be done next.
    pub fn step(&mut self, event: WorkerEvent) -> (batch: Option<MessageBatch>)
        ensures
            final(self)@.wf(),
            final(self)@ == step_state(old(self)@, event),
            batch_matches(batch, step_output(old(self)@, event), old(self)@.token),
    {
        proof {
            use_type_invariant(&*self);
        }
        let running = self.state == WorkerState::Running;
        match event {
            WorkerEvent::Entry(entry) => {
                if !running {
                    self.next = self.after(false);
                    return None;
                }
                let mut logs: Vec<LogMessage> = Vec::new();
                std::mem::swap(&mut self.buffer, &mut logs);
                assert(self.buffer@ =~= Seq::empty());
                logs.push(entry);
                self.next = Directive::Receive;
                if logs.len() >= MAX_BATCH_SIZE {
                    Some(MessageBatch { token: self.token.clone(), msg_type: MessageType::Logs, logs })
                } else {
                    self.buffer = logs;
                    None
                }
            },
            WorkerEvent::Timeout => {
                let batch = if running {
                    self.take_batch()
                } else {
                    None
                };
                self.next = self.after(true);
                batch
            },
            WorkerEvent::StopSignal(set) => {
                if running && set {
                    self.state = WorkerState::Draining;
                }
                self.next = self.after(false);
                None
            },
            WorkerEvent::Finish => {
                let batch = if self.state == WorkerState::Draining {
                    let batch = self.take_batch();
                    self.state = WorkerState::Stopped;
                    batch
                } else {
                    None
                };
                self.next = self.after(false);
                batch
            },
        }
    }

    /// What follows in the state that the worker is in, after a timeout or
    /// after another event.
    fn after(&self, timeout: bool) -> (d: Directive)
        ensures
            timeout ==> d == next_directive(self@.state, WorkerEvent::Timeout),
            !timeout ==> d == next_directive(self@.state, WorkerEvent::Finish),
    {
        match self.state {
            WorkerState::Running => if timeout {
                Directive::ReadStopSignal
            } else {
                Directive::Receive
            },
            WorkerState::Draining => Directive::Finish,
            WorkerState::Stopped => Directive::Exit,
        }
    }
}

} // verus!
