//! The last stage of a pipeline: messages are grouped into batches, handed
//! to a batch handler when the batch is full, when the batch timer fires, or
//! when the input channel closes.
//!
//! The waiting (on the timer and on the channel) and the calls of the
//! handler happen outside; `Batcher::step` takes what happened and says
//! what to do next.

use vstd::prelude::*;

verus! {

/// What a batch handler returns when it gives up on a batch: the messages
/// to drain.
pub struct BatcherTerminate<T>(pub Vec<T>);

/// Where a batcher stands between two steps.
#[derive(Clone, Copy, Debug, PartialEq, Eq, Structural)]
pub enum BatchPhase {
    /// Waiting for the timer or for a message.
    Waiting,
    /// A batch was handed over because the timer fired.
    FlushedOnTimer,
    /// A full batch was handed over.
    FlushedFull,
    /// The remaining batch was handed over because the channel closed.
    FlushedOnClose,
    /// Draining a batch the handler gave back after a timer flush.
    DrainingOnTimer,
    /// Terminating the handler after such a drain; waiting resumes after.
    TerminatingOnTimer,
    /// Draining a batch the handler gave back after the channel closed.
    DrainingOnClose,
    /// Terminating the handler before stopping.
    TerminatingOnClose,
    /// Stopped for good.
    Stopped,
}

/// What happened while the batcher waited or worked.
pub enum BatchEvent<T> {
    /// The batch timer fired.
    TimerFired,
    /// A message arrived.
    Received(T),
    /// The input channel closed (every sender is gone).
    Closed,
    /// The handler finished with a batch.
    Handled(Result<(), BatcherTerminate<T>>),
    /// A drain or a termination finished.
    Done,
}

/// What the batcher asks for next.
#[derive(Debug)]
pub enum BatchAction<T> {
    /// Wait for the timer or for a message.
    Wait,
    /// Hand this batch to the handler.
    HandleBatch(Vec<T>),
    /// Drain these messages.
    Drain(Vec<T>),
    /// Terminate the handler.
    Terminate,
    /// Stop.
    Stop,
}

/// An action, with its batch as a sequence.
pub enum BatchOrder<T> {
    Wait,
    Handle(Seq<T>),
    Drain(Seq<T>),
    Terminate,
    Stop,
}

/// The state of a batcher: its phase, the batch being gathered and the
/// batch size.
pub struct BatcherView<T> {
    pub phase: BatchPhase,
    pub batch: Seq<T>,
    pub batch_size: nat,
}

/// The action as an order over sequences.
pub open spec fn order_of<T>(a: BatchAction<T>) -> BatchOrder<T> {
    match a {
        BatchAction::Wait => BatchOrder::Wait,
        BatchAction::HandleBatch(b) => BatchOrder::Handle(b@),
        BatchAction::Drain(b) => BatchOrder::Drain(b@),
        BatchAction::Terminate => BatchOrder::Terminate,
        BatchAction::Stop => BatchOrder::Stop,
    }
}

/// The events a phase waits for.
pub open spec fn batch_expects<T>(phase: BatchPhase, e: BatchEvent<T>) -> bool {
    match phase {
        BatchPhase::Waiting => e is TimerFired || e is Received || e is Closed,
        BatchPhase::FlushedOnTimer | BatchPhase::FlushedFull | BatchPhase::FlushedOnClose => e is Handled,
        BatchPhase::Stopped => false,
        _ => e is Done,
    }
}

/// One step of a batcher: the state after an event and the action asked for.
/// On the timer a non-empty batch is handed over; a message joins the batch,
/// which is handed over once it holds `batch_size` messages; on the channel's
/// close a non-empty batch is handed over, then the handler is terminated and
/// the batcher stops. A batch given back by the handler after a timer or
/// close flush is drained and the handler terminated (after a timer flush,
/// waiting then resumes); after a full flush the handler's result is not
/// looked at.
pub open spec fn batch_next<T>(v: BatcherView<T>, e: BatchEvent<T>) -> (BatcherView<T>, BatchOrder<T>) {
    let empty = Seq::<T>::empty();
    match v.phase {
        BatchPhase::Waiting => match e {
            BatchEvent::TimerFired => if v.batch.len() > 0 {
                (BatcherView { phase: BatchPhase::FlushedOnTimer, batch: empty, ..v }, BatchOrder::Handle(v.batch))
            } else {
                (v, BatchOrder::Wait)
            },
            BatchEvent::Received(m) => if v.batch.push(m).len() == v.batch_size {
                (BatcherView { phase: BatchPhase::FlushedFull, batch: empty, ..v }, BatchOrder::Handle(v.batch.push(m)))
            } else {
                (BatcherView { batch: v.batch.push(m), ..v }, BatchOrder::Wait)
            },
            BatchEvent::Closed => if v.batch.len() > 0 {
                (BatcherView { phase: BatchPhase::FlushedOnClose, batch: empty, ..v }, BatchOrder::Handle(v.batch))
            } else {
                (BatcherView { phase: BatchPhase::TerminatingOnClose, ..v }, BatchOrder::Terminate)
            },
            _ => (v, BatchOrder::Wait),
        },
        BatchPhase::FlushedOnTimer => match e {
            BatchEvent::Handled(Err(bt)) => (
                BatcherView { phase: BatchPhase::DrainingOnTimer, ..v },
                BatchOrder::Drain(bt.0@),
            ),
            _ => (BatcherView { phase: BatchPhase::Waiting, ..v }, BatchOrder::Wait),
        },
        BatchPhase::FlushedFull => (BatcherView { phase: BatchPhase::Waiting, ..v }, BatchOrder::Wait),
        BatchPhase::FlushedOnClose => match e {
            BatchEvent::Handled(Err(bt)) => (
                BatcherView { phase: BatchPhase::DrainingOnClose, ..v },
                BatchOrder::Drain(bt.0@),
            ),
            _ => (BatcherView { phase: BatchPhase::TerminatingOnClose, ..v }, BatchOrder::Terminate),
        },
        BatchPhase::DrainingOnTimer => (BatcherView { phase: BatchPhase::TerminatingOnTimer, ..v }, BatchOrder::Terminate),
        BatchPhase::TerminatingOnTimer => (BatcherView { phase: BatchPhase::Waiting, ..v }, BatchOrder::Wait),
        BatchPhase::DrainingOnClose => (BatcherView { phase: BatchPhase::TerminatingOnClose, ..v }, BatchOrder::Terminate),
        BatchPhase::TerminatingOnClose => (BatcherView { phase: BatchPhase::Stopped, ..v }, BatchOrder::Stop),
        BatchPhase::Stopped => (v, BatchOrder::Stop),
    }
}

/// The messages an event brings in.
pub open spec fn batch_fed<T>(e: BatchEvent<T>) -> Seq<T> {
    match e {
        BatchEvent::Received(m) => seq![m],
        _ => Seq::empty(),
    }
}

/// The messages an action hands to the batch handler.
pub open spec fn batch_handed<T>(o: BatchOrder<T>) -> Seq<T> {
    match o {
        BatchOrder::Handle(b) => b,
        _ => Seq::empty(),
    }
}

/// A batcher's state as its steps keep it: the batch stays below the batch
/// size (when that is not zero), and only a waiting batcher holds messages.
pub open spec fn batch_wf<T>(v: BatcherView<T>) -> bool {
    &&& (v.batch_size > 0 ==> v.batch.len() < v.batch_size)
    &&& (v.phase != BatchPhase::Waiting ==> v.batch.len() == 0)
}

/// No message is lost, duplicated or reordered: what the batcher held plus
/// what arrives equals what it hands to the handler plus what it holds
/// after, in order.
pub proof fn law_batch_conserves_messages<T>(v: BatcherView<T>, e: BatchEvent<T>)
    requires
        batch_expects(v.phase, e),
        batch_wf(v),
    ensures
        v.batch + batch_fed(e) == batch_handed(batch_next(v, e).1) + batch_next(v, e).0.batch,
{
    if v.phase == BatchPhase::Waiting {
        match e {
            BatchEvent::Received(m) => {
                assert(v.batch + seq![m] =~= v.batch.push(m));
                assert(v.batch.push(m) + Seq::<T>::empty() =~= v.batch.push(m));
                assert(Seq::<T>::empty() + v.batch.push(m) =~= v.batch.push(m));
            },
            _ => {
                assert(v.batch + Seq::<T>::empty() =~= v.batch);
                assert(Seq::<T>::empty() + v.batch =~= v.batch);
            },
        }
    } else {
        assert(v.batch =~= Seq::<T>::empty());
        assert(Seq::<T>::empty() + Seq::<T>::empty() =~= Seq::<T>::empty());
    }
}

/// Batches handed over are never empty and never larger than the batch
/// size (when that is not zero); every step keeps `batch_wf`, which a new
/// batcher meets.
pub proof fn law_batch_bounds<T>(v: BatcherView<T>, e: BatchEvent<T>)
    requires
        batch_expects(v.phase, e),
        batch_wf(v),
    ensures
        batch_wf(batch_next(v, e).0),
        batch_next(v, e).1 is Handle ==> batch_handed(batch_next(v, e).1).len() > 0,
        batch_next(v, e).1 is Handle && v.batch_size > 0 ==> batch_handed(batch_next(v, e).1).len() <= v.batch_size,
        batch_wf(BatcherView { phase: BatchPhase::Waiting, batch: Seq::<T>::empty(), batch_size: v.batch_size }),
{
}

/// Once the channel has closed the batcher never waits again: it hands over
/// what it holds, drains what the handler gives back, terminates the handler
/// and then stops; and it stops only right after terminating the handler.
pub proof fn law_batch_close_ends<T>(v: BatcherView<T>, e: BatchEvent<T>)
    requires
        batch_expects(v.phase, e),
    ensures
        v.phase == BatchPhase::Waiting && e is Closed ==> !(batch_next(v, e).1 is Wait),
        v.phase == BatchPhase::FlushedOnClose || v.phase == BatchPhase::DrainingOnClose
            || v.phase == BatchPhase::TerminatingOnClose ==> !(batch_next(v, e).1 is Wait) && (
            batch_next(v, e).0.phase == BatchPhase::DrainingOnClose || batch_next(v, e).0.phase
                == BatchPhase::TerminatingOnClose || batch_next(v, e).0.phase == BatchPhase::Stopped),
        batch_next(v, e).1 is Stop ==> v.phase == BatchPhase::TerminatingOnClose,
{
}

/// The state after a run of events.
pub open spec fn batch_run<T>(v: BatcherView<T>, events: Seq<BatchEvent<T>>) -> BatcherView<T>
    decreases events.len(),
{
    if events.len() == 0 {
        v
    } else {
        batch_next(batch_run(v, events.drop_last()), events.last()).0
    }
}

/// Every event of the run is one its phase waits for.
pub open spec fn batch_run_expected<T>(v: BatcherView<T>, events: Seq<BatchEvent<T>>) -> bool
    decreases events.len(),
{
    events.len() == 0 || (batch_run_expected(v, events.drop_last()) && batch_expects(
        batch_run(v, events.drop_last()).phase,
        events.last(),
    ))
}

/// The messages a run of events brings in.
pub open spec fn batch_run_fed<T>(events: Seq<BatchEvent<T>>) -> Seq<T>
    decreases events.len(),
{
    if events.len() == 0 {
        Seq::empty()
    } else {
        batch_run_fed(events.drop_last()) + batch_fed(events.last())
    }
}

/// The messages handed to the handler during a run, batch after batch.
pub open spec fn batch_run_handed<T>(v: BatcherView<T>, events: Seq<BatchEvent<T>>) -> Seq<T>
    decreases events.len(),
{
    if events.len() == 0 {
        Seq::empty()
    } else {
        batch_run_handed(v, events.drop_last()) + batch_handed(
            batch_next(batch_run(v, events.drop_last()), events.last()).1,
        )
    }
}

/// Over any run, the messages that arrive are handed to the handler in the
/// order they arrived, each once, except those still gathered at the end:
/// what the batcher held plus all that arrived equals all it handed over
/// plus what it holds.
pub proof fn law_batch_run_conserves_messages<T>(v: BatcherView<T>, events: Seq<BatchEvent<T>>)
    requires
        batch_wf(v),
        batch_run_expected(v, events),
    ensures
        batch_wf(batch_run(v, events)),
        v.batch + batch_run_fed(events) == batch_run_handed(v, events) + batch_run(v, events).batch,
    decreases events.len(),
{
    if events.len() == 0 {
        assert(v.batch + Seq::<T>::empty() =~= v.batch);
        assert(Seq::<T>::empty() + v.batch =~= v.batch);
    } else {
        let prev = events.drop_last();
        let e = events.last();
        law_batch_run_conserves_messages(v, prev);
        let w = batch_run(v, prev);
        law_batch_conserves_messages(w, e);
        law_batch_bounds(w, e);
        let fed_prev = batch_run_fed(prev);
        let handed_prev = batch_run_handed(v, prev);
        let step_handed = batch_handed(batch_next(w, e).1);
        assert(v.batch + (fed_prev + batch_fed(e)) =~= (v.batch + fed_prev) + batch_fed(e));
        assert((handed_prev + w.batch) + batch_fed(e) =~= handed_prev + (w.batch + batch_fed(e)));
        assert(handed_prev + (step_handed + batch_next(w, e).0.batch) =~= (handed_prev + step_handed)
            + batch_next(w, e).0.batch);
    }
}

/// What each event does to a batcher, stated outright: a message joins the
/// batch, and the batch goes to the handler exactly when it then holds
/// `batch_size` messages; the timer hands over the batch exactly when it is
/// not empty; the channel's close hands over a non-empty batch and
/// otherwise terminates the handler; a batch the handler gives back after a
/// timer or close flush is drained, message for message.
pub proof fn law_batch_events<T>(v: BatcherView<T>, m: T, bt: BatcherTerminate<T>)
    ensures
        v.phase == BatchPhase::Waiting ==> {
            let (w, o) = batch_next(v, BatchEvent::Received(m));
            &&& (o is Handle <==> v.batch.len() + 1 == v.batch_size)
            &&& (o is Handle ==> o == BatchOrder::Handle(v.batch.push(m)) && w.batch.len() == 0)
            &&& (!(o is Handle) ==> o is Wait && w.batch == v.batch.push(m) && w.phase == BatchPhase::Waiting)
        },
        v.phase == BatchPhase::Waiting ==> {
            let (w, o) = batch_next(v, BatchEvent::TimerFired);
            &&& (v.batch.len() > 0 ==> o == BatchOrder::Handle(v.batch) && w.batch.len() == 0)
            &&& (v.batch.len() == 0 ==> o is Wait && w == v)
        },
        v.phase == BatchPhase::Waiting ==> {
            let (w, o) = batch_next(v, BatchEvent::Closed);
            &&& (v.batch.len() > 0 ==> o == BatchOrder::Handle(v.batch) && w.batch.len() == 0)
            &&& (v.batch.len() == 0 ==> o is Terminate)
        },
        v.phase == BatchPhase::FlushedOnClose || v.phase == BatchPhase::FlushedOnTimer ==> batch_next(
            v,
            BatchEvent::Handled(Err(bt)),
        ).1 == BatchOrder::Drain(bt.0@),
        v.phase == BatchPhase::FlushedOnClose ==> batch_next(v, BatchEvent::Handled(Ok(()))).1 is Terminate,
        v.phase == BatchPhase::FlushedOnTimer ==> batch_next(v, BatchEvent::Handled(Ok(()))).1 is Wait,
{
}

/// Gathers messages into batches.
pub struct Batcher<T> {
    batch: Vec<T>,
    batch_size: usize,
    phase: BatchPhase,
}

impl<T> View for Batcher<T> {
    type V = BatcherView<T>;

    closed spec fn view(&self) -> BatcherView<T> {
        BatcherView { phase: self.phase, batch: self.batch@, batch_size: self.batch_size as nat }
    }
}

impl<T> Batcher<T> {
    /// A batcher that waits, with an empty batch.
    pub fn new(batch_size: usize) -> (b: Self)
        ensures
            b@ == (BatcherView { phase: BatchPhase::Waiting, batch: Seq::<T>::empty(), batch_size: batch_size as nat }),
    {
        Batcher { batch: Vec::with_capacity(batch_size), batch_size, phase: BatchPhase::Waiting }
    }

    /// Where the batcher stands.
    pub fn phase(&self) -> (p: BatchPhase)
        ensures
            p == self@.phase,
    {
        self.phase
    }

    /// Hands over the gathered batch, leaving an empty one.
    fn take_batch(&mut self) -> (b: Vec<T>)
        ensures
            b@ == old(self)@.batch,
            final(self)@ == (BatcherView { batch: Seq::<T>::empty(), ..old(self)@ }),
    {
        let mut b = Vec::with_capacity(self.batch_size);
        std::mem::swap(&mut b, &mut self.batch);
        b
    }

    /// Takes in what happened and says what to do next.
    pub fn step(&mut self, event: BatchEvent<T>) -> (a: BatchAction<T>)
        requires
            batch_expects(old(self)@.phase, event),
        ensures
            (final(self)@, order_of(a)) == batch_next(old(self)@, event),
    {
        match self.phase {
            BatchPhase::Waiting => match event {
                BatchEvent::TimerFired => {
                    if self.batch.len() > 0 {
                        self.phase = BatchPhase::FlushedOnTimer;
                        BatchAction::HandleBatch(self.take_batch())
                    } else {
                        BatchAction::Wait
                    }
                },
                BatchEvent::Received(msg) => {
                    self.batch.push(msg);
                    if self.batch.len() == self.batch_size {
                        self.phase = BatchPhase::FlushedFull;
                        BatchAction::HandleBatch(self.take_batch())
                    } else {
                        BatchAction::Wait
                    }
                },
                _ => {
                    if self.batch.len() > 0 {
                        self.phase = BatchPhase::FlushedOnClose;
                        BatchAction::HandleBatch(self.take_batch())
                    } else {
                        self.phase = BatchPhase::TerminatingOnClose;
                        BatchAction::Terminate
                    }
                },
            },
            BatchPhase::FlushedOnTimer => match event {
                BatchEvent::Handled(Err(bt)) => {
                    self.phase = BatchPhase::DrainingOnTimer;
                    BatchAction::Drain(bt.0)
                },
                _ => {
                    self.phase = BatchPhase::Waiting;
                    BatchAction::Wait
                },
            },
            BatchPhase::FlushedFull => {
                self.phase = BatchPhase::Waiting;
                BatchAction::Wait
            },
            BatchPhase::FlushedOnClose => match event {
                BatchEvent::Handled(Err(bt)) => {
                    self.phase = BatchPhase::DrainingOnClose;
                    BatchAction::Drain(bt.0)
                },
                _ => {
                    self.phase = BatchPhase::TerminatingOnClose;
                    BatchAction::Terminate
                },
            },
            BatchPhase::DrainingOnTimer => {
                self.phase = BatchPhase::TerminatingOnTimer;
                BatchAction::Terminate
            },
            BatchPhase::TerminatingOnTimer => {
                self.phase = BatchPhase::Waiting;
                BatchAction::Wait
            },
            BatchPhase::DrainingOnClose => {
                self.phase = BatchPhase::TerminatingOnClose;
                BatchAction::Terminate
            },
            BatchPhase::TerminatingOnClose => {
                self.phase = BatchPhase::Stopped;
                BatchAction::Stop
            },
            BatchPhase::Stopped => BatchAction::Stop,
        }
    }
}

} // verus!
