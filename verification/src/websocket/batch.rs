//! The batch processor of the stream consumers: updates read from the
//! upstream stream are gathered into a buffer, which is forwarded whole when
//! it reaches the configured size or when the flush interval ticks, until a
//! shutdown is signalled.

use vstd::prelude::*;

verus! {

/// What the batch processor is told: an update arrived, the flush interval
/// elapsed, or shutdown was signalled.
pub enum BatchEvent<T> {
    Received(T),
    Tick,
    Shutdown,
}

/// What the batch processor asks its driver to do: nothing, forward these
/// updates in this order, or stop.
pub enum BatchAction<T> {
    Wait,
    Forward(Vec<T>),
    Stop,
}

/// The mathematical value of a `BatchAction`.
pub enum BatchOutcome<T> {
    Wait,
    Forward(Seq<T>),
    Stop,
}

impl<T> View for BatchAction<T> {
    type V = BatchOutcome<T>;

    open spec fn view(&self) -> BatchOutcome<T> {
        match self {
            BatchAction::Wait => BatchOutcome::Wait,
            BatchAction::Forward(v) => BatchOutcome::Forward(v@),
            BatchAction::Stop => BatchOutcome::Stop,
        }
    }
}

/// The mathematical state of a batch processor: the pending updates, the
/// size at which they are flushed, and whether it has stopped.
pub struct BatchView<T> {
    pub buffer: Seq<T>,
    pub buffer_size: nat,
    pub stopped: bool,
}

/// The state every batch processor keeps: a running processor never holds a
/// full buffer, so it holds fewer updates than the flush size, or none.
pub open spec fn batch_bounded<T>(s: BatchView<T>) -> bool {
    s.buffer.len() == 0 || s.buffer.len() < s.buffer_size
}

/// One step of the batch processor. A stopped processor ignores every
/// event. An update joins the buffer, and a buffer that has reached the
/// flush size is forwarded whole and emptied. A tick forwards and empties a
/// non-empty buffer. Shutdown stops the processor, dropping what is pending.
pub open spec fn batch_step<T>(s: BatchView<T>, e: BatchEvent<T>) -> (BatchView<T>, BatchOutcome<T>) {
    if s.stopped {
        (s, BatchOutcome::Stop)
    } else {
        match e {
            BatchEvent::Received(u) => {
                let b = s.buffer.push(u);
                if b.len() >= s.buffer_size {
                    (BatchView { buffer: Seq::empty(), ..s }, BatchOutcome::Forward(b))
                } else {
                    (BatchView { buffer: b, ..s }, BatchOutcome::Wait)
                }
            },
            BatchEvent::Tick => {
                if s.buffer.len() > 0 {
                    (BatchView { buffer: Seq::empty(), ..s }, BatchOutcome::Forward(s.buffer))
                } else {
                    (s, BatchOutcome::Wait)
                }
            },
            BatchEvent::Shutdown => (BatchView { stopped: true, ..s }, BatchOutcome::Stop),
        }
    }
}

/// The updates an outcome forwards.
pub open spec fn forwarded<T>(o: BatchOutcome<T>) -> Seq<T> {
    match o {
        BatchOutcome::Forward(v) => v,
        _ => Seq::empty(),
    }
}

/// The state after a run of events, and every update forwarded on the way,
/// in order.
pub open spec fn batch_run<T>(s: BatchView<T>, events: Seq<BatchEvent<T>>) -> (BatchView<T>, Seq<T>)
    decreases events.len(),
{
    if events.len() == 0 {
        (s, Seq::empty())
    } else {
        let (mid, out) = batch_run(s, events.drop_last());
        let (last, o) = batch_step(mid, events.last());
        (last, out + forwarded(o))
    }
}

/// Whether a run of events holds a shutdown.
pub open spec fn has_shutdown<T>(events: Seq<BatchEvent<T>>) -> bool {
    exists|i: int| 0 <= i < events.len() && (#[trigger] events[i]) is Shutdown
}

/// The updates of a run of events that a processor accepts: those that come
/// before the first shutdown, and none once it has stopped.
pub open spec fn accepted<T>(stopped: bool, events: Seq<BatchEvent<T>>) -> Seq<T>
    decreases events.len(),
{
    if events.len() == 0 {
        Seq::empty()
    } else {
        let prev = accepted(stopped, events.drop_last());
        if !stopped && !has_shutdown(events.drop_last()) && events.last() is Received {
            prev.push(events.last()->Received_0)
        } else {
            prev
        }
    }
}

/// The batch processor of a stream consumer.
pub struct BatchState<T> {
    buffer: Vec<T>,
    buffer_size: usize,
    stopped: bool,
}

impl<T> View for BatchState<T> {
    type V = BatchView<T>;

    closed spec fn view(&self) -> BatchView<T> {
        BatchView { buffer: self.buffer@, buffer_size: self.buffer_size as nat, stopped: self.stopped }
    }
}

impl<T> BatchState<T> {
    #[verifier::type_invariant]
    spec fn bounded(self) -> bool {
        batch_bounded(self@)
    }

    /// A running processor with an empty buffer, flushing at `buffer_size`.
    pub fn new(buffer_size: usize) -> (r: BatchState<T>)
        ensures
            r@.buffer == Seq::<T>::empty(),
            r@.buffer_size == buffer_size,
            !r@.stopped,
    {
        let r = BatchState { buffer: Vec::new(), buffer_size, stopped: false };
        assert(r@.buffer =~= Seq::<T>::empty());
        r
    }

    /// The number of pending updates.
    pub fn pending(&self) -> (n: usize)
        ensures
            n == self@.buffer.len(),
            n == 0 || n < self@.buffer_size,
    {
        proof {
            use_type_invariant(self);
        }
        self.buffer.len()
    }

    /// Whether the processor has stopped.
    pub fn is_stopped(&self) -> (b: bool)
        ensures
            b == self@.stopped,
    {
        self.stopped
    }

    /// Takes every pending update, in arrival order, leaving the buffer empty.
    pub fn process(&mut self) -> (batch: Vec<T>)
        ensures
            batch@ == old(self)@.buffer,
            final(self)@ == (BatchView { buffer: Seq::<T>::empty(), ..old(self)@ }),
    {
        let mut batch: Vec<T> = Vec::new();
        std::mem::swap(&mut batch, &mut self.buffer);
        assert(self@.buffer =~= Seq::<T>::empty());
        batch
    }

    /// Handles one event, as `batch_step` describes.
    pub fn handle_event(&mut self, event: BatchEvent<T>) -> (action: BatchAction<T>)
        ensures
            (final(self)@, action@) == batch_step(old(self)@, event),
    {
        proof {
            use_type_invariant(&*self);
        }
        if self.stopped {
            return BatchAction::Stop;
        }
        match event {
            BatchEvent::Received(update) => {
                let mut batch: Vec<T> = Vec::new();
                std::mem::swap(&mut batch, &mut self.buffer);
                batch.push(update);
                if batch.len() >= self.buffer_size {
                    assert(self@.buffer =~= Seq::<T>::empty());
                    BatchAction::Forward(batch)
                } else {
                    self.buffer = batch;
                    BatchAction::Wait
                }
            },
            BatchEvent::Tick => {
                if self.buffer.len() > 0 {
                    let batch = self.process();
                    BatchAction::Forward(batch)
                } else {
                    BatchAction::Wait
                }
            },
            BatchEvent::Shutdown => {
                self.stopped = true;
                BatchAction::Stop
            },
        }
    }
}

/// A step never lets the buffer reach the flush size.
pub proof fn lemma_step_keeps_bound<T>(s: BatchView<T>, e: BatchEvent<T>)
    requires
        batch_bounded(s),
    ensures
        batch_bounded(batch_step(s, e).0),
        batch_step(s, e).0.buffer_size == s.buffer_size,
{
}

/// A flush caused by an arriving update carries exactly as many updates as
/// the flush size, or one update when the flush size is zero.
pub proof fn lemma_full_flush_size<T>(s: BatchView<T>, u: T)
    requires
        batch_bounded(s),
        !s.stopped,
        batch_step(s, BatchEvent::Received(u)).1 is Forward,
    ensures
        forwarded(batch_step(s, BatchEvent::Received(u)).1).len() == if s.buffer_size == 0 {
            1
        } else {
            s.buffer_size
        },
{
}

/// A tick forwards everything pending, oldest first, and empties the
/// buffer; with nothing pending it forwards nothing. A tick never stops the
/// processor or changes its flush size.
pub proof fn lemma_tick_flushes_everything<T>(s: BatchView<T>)
    requires
        !s.stopped,
    ensures
        s.buffer.len() > 0 ==> batch_step(s, BatchEvent::Tick).1 == BatchOutcome::Forward(s.buffer),
        s.buffer.len() == 0 ==> batch_step(s, BatchEvent::Tick).1 == BatchOutcome::<T>::Wait,
        batch_step(s, BatchEvent::Tick).0.buffer.len() == 0,
        !batch_step(s, BatchEvent::Tick).0.stopped,
        batch_step(s, BatchEvent::Tick).0.buffer_size == s.buffer_size,
{
}

/// An arriving update that fills the buffer forwards the whole buffer with
/// the update last, and empties it; otherwise the update is kept last in
/// the buffer and nothing is forwarded.
pub proof fn lemma_received_fills_then_flushes<T>(s: BatchView<T>, u: T)
    requires
        !s.stopped,
    ensures
        s.buffer.len() + 1 >= s.buffer_size ==> (batch_step(s, BatchEvent::Received(u)).1
            == BatchOutcome::Forward(s.buffer.push(u)) && batch_step(
            s,
            BatchEvent::Received(u),
        ).0.buffer.len() == 0),
        s.buffer.len() + 1 < s.buffer_size ==> (batch_step(s, BatchEvent::Received(u)).1
            == BatchOutcome::<T>::Wait && batch_step(s, BatchEvent::Received(u)).0.buffer
            == s.buffer.push(u)),
{
}

/// Over any run of events, the processor never loses, duplicates or
/// reorders an update: what it forwarded, followed by what it still holds,
/// is what it held at the start followed by every update it accepted, in
/// arrival order. It has stopped exactly when it started stopped or the run
/// held a shutdown, and its flush size never changes.
pub proof fn lemma_updates_kept_in_order<T>(s: BatchView<T>, events: Seq<BatchEvent<T>>)
    ensures
        batch_run(s, events).1 + batch_run(s, events).0.buffer == s.buffer + accepted(
            s.stopped,
            events,
        ),
        batch_run(s, events).0.stopped == (s.stopped || has_shutdown(events)),
        batch_run(s, events).0.buffer_size == s.buffer_size,
    decreases events.len(),
{
    if events.len() > 0 {
        let prev = events.drop_last();
        lemma_updates_kept_in_order(s, prev);
        let (mid, out) = batch_run(s, prev);
        let e = events.last();
        let (last, o) = batch_step(mid, e);
        assert(has_shutdown(events) == (has_shutdown(prev) || e is Shutdown)) by {
            if has_shutdown(events) && !(e is Shutdown) {
                let i = choose|i: int| 0 <= i < events.len() && (#[trigger] events[i]) is Shutdown;
                assert(prev[i] is Shutdown);
            }
            if has_shutdown(prev) {
                let i = choose|i: int| 0 <= i < prev.len() && (#[trigger] prev[i]) is Shutdown;
                assert(events[i] is Shutdown);
            }
            if e is Shutdown {
                assert(events[events.len() - 1] is Shutdown);
            }
        }
        let acc_prev = accepted(s.stopped, prev);
        assert(out + mid.buffer == s.buffer + acc_prev);
        if !mid.stopped && e is Received {
            let u = e->Received_0;
            assert(accepted(s.stopped, events) == acc_prev.push(u));
            assert(out + forwarded(o) + last.buffer =~= (out + mid.buffer).push(u));
            assert(out + forwarded(o) + last.buffer =~= s.buffer + accepted(s.stopped, events));
        } else {
            assert(accepted(s.stopped, events) == acc_prev);
            assert(out + forwarded(o) + last.buffer =~= out + mid.buffer);
            assert(out + forwarded(o) + last.buffer =~= s.buffer + accepted(s.stopped, events));
        }
    }
}

/// A processor that starts bounded stays bounded over any run of events.
pub proof fn lemma_run_keeps_bound<T>(s: BatchView<T>, events: Seq<BatchEvent<T>>)
    requires
        batch_bounded(s),
    ensures
        batch_bounded(batch_run(s, events).0),
    decreases events.len(),
{
    if events.len() > 0 {
        lemma_run_keeps_bound(s, events.drop_last());
        lemma_step_keeps_bound(batch_run(s, events.drop_last()).0, events.last());
    }
}

} // verus!
