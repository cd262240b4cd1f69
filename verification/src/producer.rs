//! The first stage of a pipeline: a producer fills a buffer from its source
//! and dispatches the buffered messages one by one to the next stage.
//!
//! The source, the dispatch and the shutdown signal are handled outside;
//! `ProducerLoop::step` takes what happened and says what to do next.

use vstd::prelude::*;
use std::collections::VecDeque;
use crate::dispatcher::{DispatchError, RouterType};

verus! {

/// What a source reports when it has nothing more to give.
#[derive(Debug, Clone, Copy, PartialEq, Eq, Structural)]
pub struct Terminate;

/// Where a producer stands between two steps.
#[derive(Clone, Copy, Debug, PartialEq, Eq, Structural)]
pub enum ProducerPhase {
    /// Not started yet.
    Starting,
    /// Initializing the source.
    Initializing,
    /// Checking for a shutdown signal.
    Polling,
    /// Filling the buffer from the source.
    Filling,
    /// Dispatching a message.
    Dispatching,
    /// Draining the messages no destination took.
    Draining,
    /// Terminating the source before stopping.
    Terminating,
    /// Stopped for good.
    Stopped,
}

/// What happened while the producer waited or worked.
pub enum ProducerEvent<T> {
    /// The producer's task started.
    Started,
    /// The shutdown signal was checked: `true` if it had been sent.
    ShutdownPolled(bool),
    /// The source filled a buffer, or reported that it is done.
    Filled(Result<VecDeque<T>, Terminate>),
    /// The dispatch of a message finished.
    Dispatched(Result<(), DispatchError<T>>),
    /// An initialization, a drain or a termination finished.
    Done,
}

/// What the producer asks for next.
#[derive(Debug)]
pub enum ProducerAction<T> {
    /// Initialize the source.
    Init,
    /// Check whether the shutdown signal was sent.
    PollShutdown,
    /// Ask the source for up to this many messages.
    FillBuffer(usize),
    /// Dispatch this message.
    Dispatch(T),
    /// Hand these messages back to the source.
    Drain(VecDeque<T>),
    /// Terminate the source.
    Terminate,
    /// Stop.
    Stop,
}

/// An action, with its messages as a sequence.
pub enum ProducerOrder<T> {
    Init,
    PollShutdown,
    FillBuffer(nat),
    Dispatch(T),
    Drain(Seq<T>),
    Terminate,
    Stop,
}

/// The state of a producer: its phase, the buffered messages and the size
/// of the buffer asked from the source.
pub struct ProducerView<T> {
    pub phase: ProducerPhase,
    pub buffer: Seq<T>,
    pub buffer_size: nat,
}

/// The action as an order over sequences.
pub open spec fn producer_order_of<T>(a: ProducerAction<T>) -> ProducerOrder<T> {
    match a {
        ProducerAction::Init => ProducerOrder::Init,
        ProducerAction::PollShutdown => ProducerOrder::PollShutdown,
        ProducerAction::FillBuffer(n) => ProducerOrder::FillBuffer(n as nat),
        ProducerAction::Dispatch(m) => ProducerOrder::Dispatch(m),
        ProducerAction::Drain(b) => ProducerOrder::Drain(b@),
        ProducerAction::Terminate => ProducerOrder::Terminate,
        ProducerAction::Stop => ProducerOrder::Stop,
    }
}

/// The events a phase waits for.
pub open spec fn producer_expects<T>(phase: ProducerPhase, e: ProducerEvent<T>) -> bool {
    match phase {
        ProducerPhase::Starting => e is Started,
        ProducerPhase::Polling => e is ShutdownPolled,
        ProducerPhase::Filling => e is Filled,
        ProducerPhase::Dispatching => e is Dispatched,
        ProducerPhase::Initializing | ProducerPhase::Draining | ProducerPhase::Terminating => e is Done,
        ProducerPhase::Stopped => false,
    }
}

/// With the buffer `b`: dispatch its first message, or, if it is empty,
/// go back to checking for a shutdown signal.
pub open spec fn producer_next_message<T>(v: ProducerView<T>, b: Seq<T>) -> (ProducerView<T>, ProducerOrder<T>) {
    if b.len() > 0 {
        (ProducerView { phase: ProducerPhase::Dispatching, buffer: b.drop_first(), ..v }, ProducerOrder::Dispatch(b[0]))
    } else {
        (ProducerView { phase: ProducerPhase::Polling, buffer: b, ..v }, ProducerOrder::PollShutdown)
    }
}

/// One step of a producer. It first initializes its source, then checks
/// for a shutdown signal before each buffer; a sent signal terminates the
/// source and stops the producer. Otherwise an empty buffer is filled from the source (a source that is
/// done is terminated, then the producer stops), and the buffered messages
/// are dispatched one by one, first to last; when a dispatch finds no
/// destination left, that message goes back to the front of the buffer,
/// the buffer is drained, the source terminated and the producer stops.
/// Other dispatch results move on to the next message.
pub open spec fn producer_next<T>(v: ProducerView<T>, e: ProducerEvent<T>) -> (ProducerView<T>, ProducerOrder<T>) {
    match v.phase {
        ProducerPhase::Starting => (ProducerView { phase: ProducerPhase::Initializing, ..v }, ProducerOrder::Init),
        ProducerPhase::Initializing => (ProducerView { phase: ProducerPhase::Polling, ..v }, ProducerOrder::PollShutdown),
        ProducerPhase::Polling => match e {
            ProducerEvent::ShutdownPolled(true) => (
                ProducerView { phase: ProducerPhase::Terminating, ..v },
                ProducerOrder::Terminate,
            ),
            _ => if v.buffer.len() == 0 {
                (ProducerView { phase: ProducerPhase::Filling, ..v }, ProducerOrder::FillBuffer(v.buffer_size))
            } else {
                producer_next_message(v, v.buffer)
            },
        },
        ProducerPhase::Filling => match e {
            ProducerEvent::Filled(Ok(b)) => producer_next_message(v, b@),
            _ => (ProducerView { phase: ProducerPhase::Terminating, ..v }, ProducerOrder::Terminate),
        },
        ProducerPhase::Dispatching => match e {
            ProducerEvent::Dispatched(Err(DispatchError::NotExist(m))) => (
                ProducerView { phase: ProducerPhase::Draining, buffer: Seq::empty(), ..v },
                ProducerOrder::Drain(seq![m] + v.buffer),
            ),
            _ => producer_next_message(v, v.buffer),
        },
        ProducerPhase::Draining => (ProducerView { phase: ProducerPhase::Terminating, ..v }, ProducerOrder::Terminate),
        ProducerPhase::Terminating => (ProducerView { phase: ProducerPhase::Stopped, ..v }, ProducerOrder::Stop),
        ProducerPhase::Stopped => (v, ProducerOrder::Stop),
    }
}

/// The messages an event brings in from the source.
pub open spec fn producer_filled<T>(e: ProducerEvent<T>) -> Seq<T> {
    match e {
        ProducerEvent::Filled(Ok(b)) => b@,
        _ => Seq::empty(),
    }
}

/// The message a failed dispatch gives back.
pub open spec fn producer_returned<T>(e: ProducerEvent<T>) -> Seq<T> {
    match e {
        ProducerEvent::Dispatched(Err(DispatchError::NotExist(m))) => seq![m],
        _ => Seq::empty(),
    }
}

/// The messages an action sends on: dispatched or drained.
pub open spec fn producer_sent<T>(o: ProducerOrder<T>) -> Seq<T> {
    match o {
        ProducerOrder::Dispatch(m) => seq![m],
        ProducerOrder::Drain(b) => b,
        _ => Seq::empty(),
    }
}

/// A producer's state as its steps keep it: only a dispatching producer
/// holds messages.
pub open spec fn producer_wf<T>(v: ProducerView<T>) -> bool {
    v.phase != ProducerPhase::Dispatching ==> v.buffer.len() == 0
}

/// No message is lost, duplicated or reordered: a message that failed to
/// find a destination, then the buffer, then what the source gives, come
/// out in that order as the dispatched or drained messages followed by the
/// buffer after the step. Every step keeps `producer_wf`, which a new
/// producer meets.
pub proof fn law_producer_conserves_messages<T>(v: ProducerView<T>, e: ProducerEvent<T>)
    requires
        producer_expects(v.phase, e),
        producer_wf(v),
    ensures
        producer_returned(e) + v.buffer + producer_filled(e) == producer_sent(producer_next(v, e).1)
            + producer_next(v, e).0.buffer,
        producer_wf(producer_next(v, e).0),
        producer_wf(ProducerView { phase: ProducerPhase::Polling, buffer: Seq::<T>::empty(), buffer_size: v.buffer_size }),
{
    let empty = Seq::<T>::empty();
    let (w, o) = producer_next(v, e);
    match v.phase {
        ProducerPhase::Polling => {
            if v.buffer.len() > 0 {
                assert(v.buffer =~= seq![v.buffer[0]] + v.buffer.drop_first());
            }
            assert(empty + v.buffer + empty =~= v.buffer);
            assert(empty + v.buffer =~= v.buffer);
        },
        ProducerPhase::Filling => {
            match e {
                ProducerEvent::Filled(Ok(b)) => {
                    if b@.len() > 0 {
                        assert(b@ =~= seq![b@[0]] + b@.drop_first());
                    }
                    assert(empty + v.buffer + b@ =~= b@);
                    assert(empty + b@ =~= b@);
                },
                _ => {
                    assert(empty + v.buffer + empty =~= empty);
                },
            }
        },
        ProducerPhase::Dispatching => {
            match e {
                ProducerEvent::Dispatched(Err(DispatchError::NotExist(m))) => {
                    assert(seq![m] + v.buffer + empty =~= (seq![m] + v.buffer) + empty);
                },
                _ => {
                    if v.buffer.len() > 0 {
                        assert(v.buffer =~= seq![v.buffer[0]] + v.buffer.drop_first());
                    }
                    assert(empty + v.buffer + empty =~= v.buffer);
                    assert(empty + v.buffer =~= v.buffer);
                },
            }
        },
        _ => {
            assert(empty + v.buffer + empty =~= empty);
        },
    }
}

/// A producer's life runs init, then fills and dispatches, then terminate,
/// then stop: it asks to initialize its source only as its first action
/// and never starts over; it asks for a fill only after a shutdown check
/// (so after initializing); a sent shutdown signal, a source that is done,
/// or a drain after no destination was left, is followed by terminating
/// the source; and it stops only right after terminating the source.
pub proof fn law_producer_lifecycle<T>(v: ProducerView<T>, e: ProducerEvent<T>)
    requires
        producer_expects(v.phase, e),
    ensures
        producer_next(v, e).1 is Init <==> v.phase == ProducerPhase::Starting,
        producer_next(v, e).0.phase != ProducerPhase::Starting,
        producer_next(v, e).1 is FillBuffer ==> v.phase == ProducerPhase::Polling,
        producer_next(v, e).0.phase == ProducerPhase::Polling ==> v.phase != ProducerPhase::Starting,
        v.phase == ProducerPhase::Polling && e == ProducerEvent::<T>::ShutdownPolled(true) ==> producer_next(v, e).1 is Terminate,
        producer_next(v, e).1 is Terminate <==> (v.phase == ProducerPhase::Draining || (v.phase == ProducerPhase::Polling
            && e == ProducerEvent::<T>::ShutdownPolled(true)) || (v.phase == ProducerPhase::Filling
            && e matches ProducerEvent::Filled(Err(_)))),
        producer_next(v, e).1 is Terminate ==> producer_next(v, e).0.phase == ProducerPhase::Terminating,
        producer_next(v, e).1 is Stop <==> v.phase == ProducerPhase::Terminating,
        producer_next(v, e).1 is Drain ==> v.phase == ProducerPhase::Dispatching && e matches ProducerEvent::Dispatched(
            Err(DispatchError::NotExist(_)),
        ),
{
}

/// What each event does to a producer, stated outright: it starts by
/// initializing its source and then checks for a shutdown signal; with no
/// signal and nothing buffered it asks its source for `buffer_size`
/// messages; it dispatches the source's messages from the first on, one per
/// dispatch that did not find every destination gone; a dispatch that found
/// every destination gone drains that message followed by the rest; a
/// source that is done is terminated.
pub proof fn law_producer_events<T>(v: ProducerView<T>, b: VecDeque<T>, m: T, r: Result<(), DispatchError<T>>)
    ensures
        v.phase == ProducerPhase::Starting ==> producer_next(v, ProducerEvent::Started).1 is Init,
        v.phase == ProducerPhase::Initializing ==> producer_next(v, ProducerEvent::Done).1 is PollShutdown,
        v.phase == ProducerPhase::Polling && v.buffer.len() == 0 ==> producer_next(v, ProducerEvent::ShutdownPolled(false)).1
            == ProducerOrder::<T>::FillBuffer(v.buffer_size),
        v.phase == ProducerPhase::Filling ==> {
            let (w, o) = producer_next(v, ProducerEvent::Filled(Ok(b)));
            &&& (b@.len() > 0 ==> o == ProducerOrder::Dispatch(b@[0]) && w.buffer == b@.drop_first())
            &&& (b@.len() == 0 ==> o is PollShutdown)
        },
        v.phase == ProducerPhase::Filling ==> producer_next(v, ProducerEvent::Filled(Err(Terminate))).1 is Terminate,
        v.phase == ProducerPhase::Dispatching && !(r matches Err(DispatchError::NotExist(_))) ==> {
            let (w, o) = producer_next(v, ProducerEvent::Dispatched(r));
            &&& (v.buffer.len() > 0 ==> o == ProducerOrder::Dispatch(v.buffer[0]) && w.buffer == v.buffer.drop_first())
            &&& (v.buffer.len() == 0 ==> o is PollShutdown)
        },
        v.phase == ProducerPhase::Dispatching ==> producer_next(
            v,
            ProducerEvent::Dispatched(Err(DispatchError::NotExist(m))),
        ).1 == ProducerOrder::Drain(seq![m] + v.buffer),
{
}

/// The state after a run of events.
pub open spec fn producer_run<T>(v: ProducerView<T>, events: Seq<ProducerEvent<T>>) -> ProducerView<T>
    decreases events.len(),
{
    if events.len() == 0 {
        v
    } else {
        producer_next(producer_run(v, events.drop_last()), events.last()).0
    }
}

/// Every event of the run is one its phase waits for, and no dispatch of
/// the run found every destination gone.
pub open spec fn producer_run_undisturbed<T>(v: ProducerView<T>, events: Seq<ProducerEvent<T>>) -> bool
    decreases events.len(),
{
    events.len() == 0 || {
        &&& producer_run_undisturbed(v, events.drop_last())
        &&& producer_expects(producer_run(v, events.drop_last()).phase, events.last())
        &&& !(events.last() matches ProducerEvent::Dispatched(Err(DispatchError::NotExist(_))))
    }
}

/// The messages the source gives during a run.
pub open spec fn producer_run_filled<T>(events: Seq<ProducerEvent<T>>) -> Seq<T>
    decreases events.len(),
{
    if events.len() == 0 {
        Seq::empty()
    } else {
        producer_run_filled(events.drop_last()) + producer_filled(events.last())
    }
}

/// The messages dispatched or drained during a run, in order.
pub open spec fn producer_run_sent<T>(v: ProducerView<T>, events: Seq<ProducerEvent<T>>) -> Seq<T>
    decreases events.len(),
{
    if events.len() == 0 {
        Seq::empty()
    } else {
        producer_run_sent(v, events.drop_last()) + producer_sent(
            producer_next(producer_run(v, events.drop_last()), events.last()).1,
        )
    }
}

/// While destinations remain, every message the source gives is
/// dispatched once, in the order the source gave it: what the producer held
/// plus all the source gave equals all it dispatched plus what it still
/// holds.
pub proof fn law_producer_run_dispatches_in_order<T>(v: ProducerView<T>, events: Seq<ProducerEvent<T>>)
    requires
        producer_wf(v),
        producer_run_undisturbed(v, events),
    ensures
        producer_wf(producer_run(v, events)),
        v.buffer + producer_run_filled(events) == producer_run_sent(v, events) + producer_run(v, events).buffer,
    decreases events.len(),
{
    if events.len() == 0 {
        assert(v.buffer + Seq::<T>::empty() =~= v.buffer);
        assert(Seq::<T>::empty() + v.buffer =~= v.buffer);
    } else {
        let prev = events.drop_last();
        let e = events.last();
        law_producer_run_dispatches_in_order(v, prev);
        let w = producer_run(v, prev);
        law_producer_conserves_messages(w, e);
        assert(producer_returned(e) =~= Seq::<T>::empty());
        let filled_prev = producer_run_filled(prev);
        let sent_prev = producer_run_sent(v, prev);
        let step_sent = producer_sent(producer_next(w, e).1);
        assert(Seq::<T>::empty() + w.buffer + producer_filled(e) =~= w.buffer + producer_filled(e));
        assert(v.buffer + (filled_prev + producer_filled(e)) =~= (v.buffer + filled_prev) + producer_filled(e));
        assert((sent_prev + w.buffer) + producer_filled(e) =~= sent_prev + (w.buffer + producer_filled(e)));
        assert(sent_prev + (step_sent + producer_next(w, e).0.buffer) =~= (sent_prev + step_sent) + producer_next(
            w,
            e,
        ).0.buffer);
    }
}

/// Drives a producer.
pub struct ProducerLoop<T> {
    buffer: VecDeque<T>,
    buffer_size: usize,
    phase: ProducerPhase,
}

impl<T> View for ProducerLoop<T> {
    type V = ProducerView<T>;

    closed spec fn view(&self) -> ProducerView<T> {
        ProducerView { phase: self.phase, buffer: self.buffer@, buffer_size: self.buffer_size as nat }
    }
}

impl<T> ProducerLoop<T> {
    /// A producer that has not started, with an empty buffer; its first
    /// step takes `Started`. A producer's dispatcher cannot partition: that is
    /// refused.
    pub fn new(router_type: RouterType, buffer_size: usize) -> (r: Result<Self, ()>)
        ensures
            r is Err <==> router_type == RouterType::Partition,
            r is Ok ==> r->Ok_0@ == (ProducerView {
                phase: ProducerPhase::Starting,
                buffer: Seq::<T>::empty(),
                buffer_size: buffer_size as nat,
            }),
    {
        if let RouterType::Partition = router_type {
            return Err(());
        }
        Ok(ProducerLoop { buffer: VecDeque::new(), buffer_size, phase: ProducerPhase::Starting })
    }

    /// Where the producer stands.
    pub fn phase(&self) -> (p: ProducerPhase)
        ensures
            p == self@.phase,
    {
        self.phase
    }

    /// Dispatches the next buffered message, or goes back to checking for a
    /// shutdown signal when the buffer is empty.
    fn next_message(&mut self) -> (a: ProducerAction<T>)
        ensures
            (final(self)@, producer_order_of(a)) == producer_next_message(old(self)@, old(self)@.buffer),
    {
        match self.buffer.pop_front() {
            Some(m) => {
                self.phase = ProducerPhase::Dispatching;
                ProducerAction::Dispatch(m)
            },
            None => {
                self.phase = ProducerPhase::Polling;
                ProducerAction::PollShutdown
            },
        }
    }

    /// Takes in what happened and says what to do next.
    pub fn step(&mut self, event: ProducerEvent<T>) -> (a: ProducerAction<T>)
        requires
            producer_expects(old(self)@.phase, event),
        ensures
            (final(self)@, producer_order_of(a)) == producer_next(old(self)@, event),
    {
        match self.phase {
            ProducerPhase::Starting => {
                self.phase = ProducerPhase::Initializing;
                ProducerAction::Init
            },
            ProducerPhase::Initializing => {
                self.phase = ProducerPhase::Polling;
                ProducerAction::PollShutdown
            },
            ProducerPhase::Polling => match event {
                ProducerEvent::ShutdownPolled(true) => {
                    self.phase = ProducerPhase::Terminating;
                    ProducerAction::Terminate
                },
                _ => {
                    if self.buffer.len() == 0 {
                        self.phase = ProducerPhase::Filling;
                        ProducerAction::FillBuffer(self.buffer_size)
                    } else {
                        self.next_message()
                    }
                },
            },
            ProducerPhase::Filling => match event {
                ProducerEvent::Filled(Ok(b)) => {
                    self.buffer = b;
                    self.next_message()
                },
                _ => {
                    self.phase = ProducerPhase::Terminating;
                    ProducerAction::Terminate
                },
            },
            ProducerPhase::Dispatching => match event {
                ProducerEvent::Dispatched(Err(DispatchError::NotExist(m))) => {
                    self.buffer.push_front(m);
                    let mut rest = VecDeque::new();
                    std::mem::swap(&mut rest, &mut self.buffer);
                    self.phase = ProducerPhase::Draining;
                    ProducerAction::Drain(rest)
                },
                _ => self.next_message(),
            },
            ProducerPhase::Draining => {
                self.phase = ProducerPhase::Terminating;
                ProducerAction::Terminate
            },
            ProducerPhase::Terminating => {
                self.phase = ProducerPhase::Stopped;
                ProducerAction::Stop
            },
            ProducerPhase::Stopped => ProducerAction::Stop,
        }
    }
}

} // verus!
