//! What the batching worker delivers over a whole run of events.

use crate::batcher::{
    step_output, step_state, BatcherView, Directive, WorkerEvent, WorkerState, MAX_BATCH_SIZE,
};
use crate::types::LogMessage;
use vstd::prelude::*;

verus! {

/// The worker after the events have reached it one after the other.
pub open spec fn run_state(v: BatcherView, events: Seq<WorkerEvent>) -> BatcherView
    decreases events.len(),
{
    if events.len() == 0 {
        v
    } else {
        step_state(run_state(v, events.drop_last()), events.last())
    }
}

/// The batches that were sent while the events reached the worker, in the
/// order of their sending.
pub open spec fn run_sent(v: BatcherView, events: Seq<WorkerEvent>) -> Seq<Seq<LogMessage>>
    decreases events.len(),
{
    if events.len() == 0 {
        Seq::empty()
    } else {
        let before = run_sent(v, events.drop_last());
        match step_output(run_state(v, events.drop_last()), events.last()) {
            Some(batch) => before.push(batch),
            None => before,
        }
    }
}

/// The entries of the batches, one batch after the other.
pub open spec fn concat_batches(batches: Seq<Seq<LogMessage>>) -> Seq<LogMessage>
    decreases batches.len(),
{
    if batches.len() == 0 {
        Seq::empty()
    } else {
        concat_batches(batches.drop_last()) + batches.last()
    }
}

/// The entries that the events carry, in the order of their arrival.
pub open spec fn entries_of(events: Seq<WorkerEvent>) -> Seq<LogMessage>
    decreases events.len(),
{
    if events.len() == 0 {
        Seq::empty()
    } else {
        match events.last() {
            WorkerEvent::Entry(entry) => entries_of(events.drop_last()).push(entry),
            _ => entries_of(events.drop_last()),
        }
    }
}

/// The arrival of each of the entries, in order, and nothing else.
pub open spec fn entry_events(entries: Seq<LogMessage>) -> Seq<WorkerEvent> {
    Seq::new(entries.len(), |i: int| WorkerEvent::Entry(entries[i]))
}

/// Every batch holds at least one entry and at most the threshold.
pub open spec fn batches_bounded(batches: Seq<Seq<LogMessage>>) -> bool {
    forall|i: int| 0 <= i < batches.len() ==> 0 < (#[trigger] batches[i]).len() <= MAX_BATCH_SIZE
}

/// The event is an outcome of what the worker was about to do.
pub open spec fn answers(v: BatcherView, event: WorkerEvent) -> bool {
    match v.next {
        Directive::Receive => event is Entry || event is Timeout,
        Directive::ReadStopSignal => event is StopSignal,
        Directive::Finish => event is Finish,
        Directive::Exit => false,
    }
}

/// Each event of the run is an outcome of what the worker was about to do
/// when the event came.
pub open spec fn follows_directives(v: BatcherView, events: Seq<WorkerEvent>) -> bool
    decreases events.len(),
{
    if events.len() == 0 {
        true
    } else {
        &&& follows_directives(v, events.drop_last())
        &&& answers(run_state(v, events.drop_last()), events.last())
    }
}

/// What the worker is about to do fits the state it is in.
pub open spec fn coherent(v: BatcherView) -> bool {
    match v.state {
        WorkerState::Running => v.next == Directive::Receive || v.next
            == Directive::ReadStopSignal,
        WorkerState::Draining => v.next == Directive::Finish,
        WorkerState::Stopped => v.next == Directive::Exit,
    }
}

/// A run that is one event longer is the shorter run and one more step.
pub proof fn lemma_run_push(v: BatcherView, events: Seq<WorkerEvent>, event: WorkerEvent)
    ensures
        run_state(v, events.push(event)) == step_state(run_state(v, events), event),
        run_sent(v, events.push(event)) == (match step_output(run_state(v, events), event) {
            Some(batch) => run_sent(v, events).push(batch),
            None => run_sent(v, events),
        }),
        entries_of(events.push(event)) == (match event {
            WorkerEvent::Entry(entry) => entries_of(events).push(entry),
            _ => entries_of(events),
        }),
        follows_directives(v, events.push(event)) == (follows_directives(v, events) && answers(
            run_state(v, events),
            event,
        )),
{
    assert(events.push(event).drop_last() =~= events);
}

/// Whatever the events, a well-formed worker stays well-formed, keeps its
/// token, and sends only batches of one entry up to the threshold; and
/// after its first event, what it is about to do fits its state.
pub proof fn lemma_run_bounded(v: BatcherView, events: Seq<WorkerEvent>)
    requires
        v.wf(),
    ensures
        run_state(v, events).wf(),
        run_state(v, events).token == v.token,
        batches_bounded(run_sent(v, events)),
        coherent(v) || events.len() > 0 ==> coherent(run_state(v, events)),
    decreases events.len(),
{
    if events.len() > 0 {
        lemma_run_bounded(v, events.drop_last());
    }
}

/// Nothing is lost, doubled or reordered: as long as each event is an
/// outcome of what the worker was about to do, the batches sent so far,
/// followed by what is still buffered, are what was buffered at the start
/// followed by every entry that arrived.
pub proof fn lemma_delivery_in_order(v: BatcherView, events: Seq<WorkerEvent>)
    requires
        v.wf(),
        coherent(v),
        follows_directives(v, events),
    ensures
        concat_batches(run_sent(v, events)) + run_state(v, events).buffer == v.buffer
            + entries_of(events),
        batches_bounded(run_sent(v, events)),
    decreases events.len(),
{
    lemma_run_bounded(v, events);
    if events.len() == 0 {
        assert(concat_batches(run_sent(v, events)) + run_state(v, events).buffer =~= v.buffer
            + entries_of(events));
    } else {
        let front = events.drop_last();
        lemma_delivery_in_order(v, front);
        lemma_run_bounded(v, front);
        let mid = run_state(v, front);
        let sent = run_sent(v, front);
        let arrived = v.buffer + entries_of(front);
        assert(concat_batches(sent) + mid.buffer == arrived);
        match step_output(mid, events.last()) {
            Some(batch) => {
                assert(sent.push(batch).drop_last() =~= sent);
                assert(concat_batches(run_sent(v, events)) == concat_batches(sent) + batch);
                assert(run_state(v, events).buffer =~= Seq::<LogMessage>::empty());
            },
            None => {},
        }
        match events.last() {
            WorkerEvent::Entry(entry) => {
                assert(concat_batches(sent) + mid.buffer.push(entry) =~= arrived.push(entry));
                assert(v.buffer + entries_of(front).push(entry) =~= arrived.push(entry));
            },
            _ => {},
        }
        assert(concat_batches(run_sent(v, events)) + run_state(v, events).buffer =~= v.buffer
            + entries_of(events));
    }
}

/// Every entry that arrives reaches the transport exactly once and in the
/// order of arrival, in batches no larger than the threshold, by the time
/// the worker has stopped.
pub proof fn lemma_shutdown_delivers_all(token: Seq<char>, events: Seq<WorkerEvent>)
    requires
        follows_directives(BatcherView::fresh(token), events),
        run_state(BatcherView::fresh(token), events).state == WorkerState::Stopped,
    ensures
        concat_batches(run_sent(BatcherView::fresh(token), events)) == entries_of(events),
        batches_bounded(run_sent(BatcherView::fresh(token), events)),
{
    let start = BatcherView::fresh(token);
    lemma_delivery_in_order(start, events);
    lemma_run_bounded(start, events);
    let sent = run_sent(start, events);
    assert(concat_batches(sent) + run_state(start, events).buffer =~= concat_batches(sent));
    assert(start.buffer + entries_of(events) =~= entries_of(events));
}

/// A stopped worker sends nothing more and stays as it is, whatever
/// reaches it: a second shutdown causes no further flush.
pub proof fn lemma_stopped_is_final(v: BatcherView, events: Seq<WorkerEvent>)
    requires
        v.state == WorkerState::Stopped,
        v.next == Directive::Exit,
    ensures
        run_state(v, events) == v,
        run_sent(v, events) == Seq::<Seq<LogMessage>>::empty(),
    decreases events.len(),
{
    if events.len() > 0 {
        lemma_stopped_is_final(v, events.drop_last());
    }
}

/// A worker that holds nothing and that no entry reaches sends nothing,
/// however long it runs and however it is shut down.
pub proof fn lemma_no_entries_nothing_sent(v: BatcherView, events: Seq<WorkerEvent>)
    requires
        v.buffer.len() == 0,
        forall|i: int| 0 <= i < events.len() ==> !(#[trigger] events[i] is Entry),
    ensures
        run_state(v, events).buffer.len() == 0,
        run_sent(v, events) == Seq::<Seq<LogMessage>>::empty(),
    decreases events.len(),
{
    if events.len() > 0 {
        let front = events.drop_last();
        assert forall|i: int| 0 <= i < front.len() implies !(#[trigger] front[i] is Entry) by {
            assert(front[i] == events[i]);
        }
        lemma_no_entries_nothing_sent(v, front);
        assert(events.last() == events[events.len() - 1]);
    }
}

/// Entries that arrive at a waiting worker and do not fill the buffer up to
/// the threshold are buffered in order, and nothing is sent.
pub proof fn lemma_entries_below_threshold(v: BatcherView, entries: Seq<LogMessage>)
    requires
        v.state == WorkerState::Running,
        v.next == Directive::Receive,
        v.buffer.len() + entries.len() < MAX_BATCH_SIZE,
    ensures
        follows_directives(v, entry_events(entries)),
        run_state(v, entry_events(entries)) == (BatcherView { buffer: v.buffer + entries, ..v }),
        run_sent(v, entry_events(entries)) == Seq::<Seq<LogMessage>>::empty(),
    decreases entries.len(),
{
    let events = entry_events(entries);
    if entries.len() == 0 {
        assert(v.buffer + entries =~= v.buffer);
    } else {
        let front = entries.drop_last();
        lemma_entries_below_threshold(v, front);
        assert(events.drop_last() =~= entry_events(front));
        assert(events.last() == WorkerEvent::Entry(entries.last()));
        assert((v.buffer + front).push(entries.last()) =~= v.buffer + entries);
    }
}

/// Flush by time: entries that stay under the threshold are sent as one
/// batch at the first timeout that follows them; the worker then holds
/// nothing and turns to the stop signal.
pub proof fn lemma_flush_by_time(token: Seq<char>, entries: Seq<LogMessage>)
    requires
        0 < entries.len() < MAX_BATCH_SIZE,
    ensures
        ({
            let run = entry_events(entries).push(WorkerEvent::Timeout);
            let start = BatcherView::fresh(token);
            &&& follows_directives(start, run)
            &&& run_sent(start, run) == seq![entries]
            &&& run_state(start, run) == (BatcherView { next: Directive::ReadStopSignal, ..start })
        }),
{
    let start = BatcherView::fresh(token);
    lemma_entries_below_threshold(start, entries);
    lemma_run_push(start, entry_events(entries), WorkerEvent::Timeout);
    assert(start.buffer + entries =~= entries);
    assert(Seq::<Seq<LogMessage>>::empty().push(entries) =~= seq![entries]);
}

/// Flush by size: when as many entries as the threshold arrive, nothing is
/// sent before the last of them, and its arrival sends them all as one
/// batch without any timeout.
pub proof fn lemma_flush_by_size(token: Seq<char>, entries: Seq<LogMessage>)
    requires
        entries.len() == MAX_BATCH_SIZE,
    ensures
        ({
            let start = BatcherView::fresh(token);
            &&& follows_directives(start, entry_events(entries))
            &&& run_sent(start, entry_events(entries.drop_last())) == Seq::<
                Seq<LogMessage>,
            >::empty()
            &&& run_sent(start, entry_events(entries)) == seq![entries]
            &&& run_state(start, entry_events(entries)) == start
        }),
{
    let start = BatcherView::fresh(token);
    let front = entries.drop_last();
    lemma_entries_below_threshold(start, front);
    lemma_run_push(start, entry_events(front), WorkerEvent::Entry(entries.last()));
    assert(entry_events(front).push(WorkerEvent::Entry(entries.last())) =~= entry_events(entries));
    assert(start.buffer + front =~= front);
    assert(front.push(entries.last()) =~= entries);
    assert(Seq::<Seq<LogMessage>>::empty().push(entries) =~= seq![entries]);
}

/// Shutdown drain: entries under the threshold, followed at once by
/// shutdown, leave in exactly one batch before the worker has stopped. The
/// worker finds the queue empty, flushes, reads the stop signal and finishes.
pub proof fn lemma_shutdown_drain(token: Seq<char>, entries: Seq<LogMessage>)
    requires
        0 < entries.len() < MAX_BATCH_SIZE,
    ensures
        ({
            let run = entry_events(entries).push(WorkerEvent::Timeout).push(
                WorkerEvent::StopSignal(true),
            ).push(WorkerEvent::Finish);
            let start = BatcherView::fresh(token);
            &&& follows_directives(start, run)
            &&& run_sent(start, run) == seq![entries]
            &&& run_state(start, run) == (BatcherView {
                state: WorkerState::Stopped,
                next: Directive::Exit,
                ..start
            })
        }),
{
    let start = BatcherView::fresh(token);
    let flushed = entry_events(entries).push(WorkerEvent::Timeout);
    lemma_flush_by_time(token, entries);
    lemma_run_push(start, flushed, WorkerEvent::StopSignal(true));
    lemma_run_push(start, flushed.push(WorkerEvent::StopSignal(true)), WorkerEvent::Finish);
}

/// What was buffered when the stop signal was found set leaves as one last
/// batch when the worker finishes, and the worker stops empty.
pub proof fn lemma_finish_flushes_residue(v: BatcherView)
    requires
        v.wf(),
        v.state == WorkerState::Running,
    ensures
        ({
            let run = seq![WorkerEvent::StopSignal(true), WorkerEvent::Finish];
            &&& run_state(v, run).state == WorkerState::Stopped
            &&& run_state(v, run).buffer.len() == 0
            &&& run_sent(v, run) == (if v.buffer.len() > 0 {
                seq![v.buffer]
            } else {
                Seq::empty()
            })
        }),
{
    let none = Seq::<WorkerEvent>::empty();
    lemma_run_push(v, none, WorkerEvent::StopSignal(true));
    lemma_run_push(v, none.push(WorkerEvent::StopSignal(true)), WorkerEvent::Finish);
    assert(none.push(WorkerEvent::StopSignal(true)).push(WorkerEvent::Finish) =~= seq![
        WorkerEvent::StopSignal(true),
        WorkerEvent::Finish,
    ]);
    assert(Seq::<Seq<LogMessage>>::empty().push(v.buffer) =~= seq![v.buffer]);
}

} // verus!
