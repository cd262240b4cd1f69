//! Filling a producer's buffer from a source that delivers messages one at
//! a time, under a timer: the buffer is returned once full, when the timer
//! fires with something in it, or when the source closes.
//!
//! The collector (a producer fed by a channel) fills its buffer this way,
//! and so do the Kafka and Pulsar producers. The waiting happens outside;
//! `BufferFill::step` takes what happened and says whether the buffer is
//! ready.

use vstd::prelude::*;
use std::collections::VecDeque;
use crate::producer::Terminate;

verus! {

/// What happened while filling.
pub enum FillEvent<T> {
    /// The fill timer fired.
    TimerFired,
    /// A message arrived.
    Received(T),
    /// The source closed (every sender is gone).
    Closed,
    /// A receive gave nothing to keep (an error, or a message that could not
    /// be decoded).
    Skipped,
}

/// Whether the fill is over.
#[derive(Debug)]
pub enum FillStep<T> {
    /// Keep waiting.
    Pending,
    /// The message was kept and the buffer is not full; keep waiting.
    Accepted,
    /// The fill is over with this result.
    Ready(Result<VecDeque<T>, Terminate>),
}

/// A fill step, with the buffer as a sequence.
pub enum FillOutcome<T> {
    Pending,
    Accepted,
    Ready(Result<Seq<T>, Terminate>),
}

/// The state of a fill: the messages kept so far, the buffer size, and
/// whether the fill is over.
#[verifier::ext_equal]
pub struct FillView<T> {
    pub buffer: Seq<T>,
    pub buffer_size: nat,
    pub finished: bool,
}

/// The step as an outcome over sequences.
pub open spec fn fill_outcome_of<T>(s: FillStep<T>) -> FillOutcome<T> {
    match s {
        FillStep::Pending => FillOutcome::Pending,
        FillStep::Accepted => FillOutcome::Accepted,
        FillStep::Ready(Ok(b)) => FillOutcome::Ready(Ok(b@)),
        FillStep::Ready(Err(t)) => FillOutcome::Ready(Err(t)),
    }
}

/// One step of a fill. The timer returns a non-empty buffer; a message is
/// kept, and the buffer returned once it holds `buffer_size` messages; a
/// closed source returns a non-empty buffer, and reports `Terminate` on an
/// empty one; a skipped receive changes nothing.
pub open spec fn fill_next<T>(v: FillView<T>, e: FillEvent<T>) -> (FillView<T>, FillOutcome<T>) {
    let done = FillView { buffer: Seq::<T>::empty(), finished: true, ..v };
    match e {
        FillEvent::TimerFired => if v.buffer.len() > 0 {
            (done, FillOutcome::Ready(Ok(v.buffer)))
        } else {
            (v, FillOutcome::Pending)
        },
        FillEvent::Received(m) => if v.buffer.push(m).len() == v.buffer_size {
            (done, FillOutcome::Ready(Ok(v.buffer.push(m))))
        } else {
            (FillView { buffer: v.buffer.push(m), ..v }, FillOutcome::Accepted)
        },
        FillEvent::Closed => if v.buffer.len() > 0 {
            (done, FillOutcome::Ready(Ok(v.buffer)))
        } else {
            (done, FillOutcome::Ready(Err(Terminate)))
        },
        FillEvent::Skipped => (v, FillOutcome::Pending),
    }
}

/// The messages an event brings in.
pub open spec fn fill_fed<T>(e: FillEvent<T>) -> Seq<T> {
    match e {
        FillEvent::Received(m) => seq![m],
        _ => Seq::empty(),
    }
}

/// A fill's state as its steps keep it: below the buffer size (when that is
/// not zero), and empty once over.
pub open spec fn fill_wf<T>(v: FillView<T>) -> bool {
    &&& (v.buffer_size > 0 ==> v.buffer.len() < v.buffer_size)
    &&& (v.finished ==> v.buffer.len() == 0)
}

/// A fill returns exactly the messages it received, in order, never an
/// empty buffer and never more than the buffer size (when that is not
/// zero); it reports `Terminate` only when the source closed before giving
/// anything; and it keeps `fill_wf`, which a new fill meets.
pub proof fn law_fill_returns_received<T>(v: FillView<T>, e: FillEvent<T>)
    requires
        !v.finished,
        fill_wf(v),
    ensures
        fill_wf(fill_next(v, e).0),
        fill_wf(FillView { buffer: Seq::<T>::empty(), buffer_size: v.buffer_size, finished: false }),
        fill_next(v, e).1 matches FillOutcome::Ready(Ok(b)) ==> b == v.buffer + fill_fed(e) && b.len() > 0
            && (v.buffer_size > 0 ==> b.len() <= v.buffer_size),
        fill_next(v, e).1 matches FillOutcome::Ready(Err(_)) ==> e is Closed && v.buffer.len() == 0,
        !(fill_next(v, e).1 is Ready) ==> fill_next(v, e).0.buffer == v.buffer + fill_fed(e)
            && !fill_next(v, e).0.finished,
        fill_next(v, e).1 is Accepted <==> (e is Received && !(fill_next(v, e).1 is Ready)),
{
    match e {
        FillEvent::Received(m) => {
            assert(v.buffer + seq![m] =~= v.buffer.push(m));
        },
        _ => {
            assert(v.buffer + Seq::<T>::empty() =~= v.buffer);
        },
    }
}

/// What each event does to a fill, stated outright: a message is kept, and
/// the fill ends with the buffer exactly when it then holds `buffer_size`
/// messages (otherwise the message is accepted); the timer ends the fill
/// with the buffer exactly when it is not empty; a closed source ends it
/// with the buffer, or with `Terminate` when nothing was kept; a skipped
/// receive changes nothing.
pub proof fn law_fill_events<T>(v: FillView<T>, m: T)
    ensures
        ({
            let (w, o) = fill_next(v, FillEvent::Received(m));
            &&& (o is Ready <==> v.buffer.len() + 1 == v.buffer_size)
            &&& (o is Ready ==> o == FillOutcome::Ready(Ok(v.buffer.push(m))) && w.finished)
            &&& (!(o is Ready) ==> o is Accepted && w.buffer == v.buffer.push(m) && w.finished == v.finished)
        }),
        ({
            let (w, o) = fill_next(v, FillEvent::TimerFired);
            &&& (v.buffer.len() > 0 ==> o == FillOutcome::Ready(Ok(v.buffer)) && w.finished)
            &&& (v.buffer.len() == 0 ==> o is Pending && w == v)
        }),
        ({
            let (w, o) = fill_next(v, FillEvent::Closed);
            &&& w.finished
            &&& (v.buffer.len() > 0 ==> o == FillOutcome::<T>::Ready(Ok(v.buffer)))
            &&& (v.buffer.len() == 0 ==> o == FillOutcome::<T>::Ready(Err(Terminate)))
        }),
        fill_next(v, FillEvent::Skipped) == (v, FillOutcome::<T>::Pending),
{
}

/// Fills a buffer.
pub struct BufferFill<T> {
    buffer: VecDeque<T>,
    buffer_size: usize,
    finished: bool,
}

impl<T> View for BufferFill<T> {
    type V = FillView<T>;

    closed spec fn view(&self) -> FillView<T> {
        FillView { buffer: self.buffer@, buffer_size: self.buffer_size as nat, finished: self.finished }
    }
}

impl<T> BufferFill<T> {
    /// A fill that has kept nothing yet.
    pub fn new(buffer_size: usize) -> (f: Self)
        ensures
            f@ == (FillView { buffer: Seq::<T>::empty(), buffer_size: buffer_size as nat, finished: false }),
    {
        BufferFill { buffer: VecDeque::with_capacity(buffer_size), buffer_size, finished: false }
    }

    /// Whether the fill is over.
    pub fn is_finished(&self) -> (b: bool)
        ensures
            b == self@.finished,
    {
        self.finished
    }

    /// Ends the fill, handing over the buffer.
    fn finish(&mut self) -> (b: VecDeque<T>)
        ensures
            b@ == old(self)@.buffer,
            final(self)@ == (FillView { buffer: Seq::<T>::empty(), finished: true, ..old(self)@ }),
    {
        let mut b = VecDeque::new();
        std::mem::swap(&mut b, &mut self.buffer);
        self.finished = true;
        b
    }

    /// Takes in what happened and says whether the buffer is ready.
    pub fn step(&mut self, event: FillEvent<T>) -> (s: FillStep<T>)
        requires
            !old(self)@.finished,
        ensures
            (final(self)@, fill_outcome_of(s)) == fill_next(old(self)@, event),
    {
        match event {
            FillEvent::TimerFired => {
                if self.buffer.len() > 0 {
                    FillStep::Ready(Ok(self.finish()))
                } else {
                    FillStep::Pending
                }
            },
            FillEvent::Received(m) => {
                self.buffer.push_back(m);
                if self.buffer.len() == self.buffer_size {
                    FillStep::Ready(Ok(self.finish()))
                } else {
                    FillStep::Accepted
                }
            },
            FillEvent::Closed => {
                if self.buffer.len() > 0 {
                    FillStep::Ready(Ok(self.finish()))
                } else {
                    self.finished = true;
                    FillStep::Ready(Err(Terminate))
                }
            },
            FillEvent::Skipped => FillStep::Pending,
        }
    }
}

} // verus!
