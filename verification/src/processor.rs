//! A middle stage of a pipeline: a processor takes each message of its input
//! channel to its handler and dispatches what the handler asks to dispatch.
//!
//! Receiving, handling and dispatching happen outside;
//! `ProcessorLoop::step` takes what happened and says what to do next.

use vstd::prelude::*;

verus! {

/// A partition key.
pub type BatchKey = String;

/// What a handler makes of a message.
#[derive(Debug)]
pub enum ProcResult<Output> {
    /// Skip the message.
    Continue,
    /// Dispatch this output to the next stage; a partitioning dispatcher
    /// needs the key.
    Dispatch(Output, Option<BatchKey>),
}

impl<Output> ProcResult<Output> {
    /// Passes an output on to the next stage without a partition key.
    pub fn forward(output: Output) -> (r: Self)
        ensures
            r == ProcResult::Dispatch(output, None::<BatchKey>),
    {
        ProcResult::Dispatch(output, None)
    }
}

/// Where a processor stands between two steps.
#[derive(Clone, Copy, Debug, PartialEq, Eq, Structural)]
pub enum ProcessorPhase {
    Receiving,
    Handling,
    Dispatching,
    Stopped,
}

/// What happened while the processor waited or worked.
pub enum ProcessorEvent<Input, Output> {
    /// The input channel gave a message, or `None` once every sender is gone.
    Received(Option<Input>),
    /// The handler finished with a message.
    Handled(ProcResult<Output>),
    /// The dispatch of an output finished (its result is not looked at).
    Dispatched,
}

/// What the processor asks for next.
#[derive(Debug)]
pub enum ProcessorAction<Input, Output> {
    /// Receive the next message.
    Receive,
    /// Hand this message to the handler.
    Handle(Input),
    /// Dispatch this output with this key.
    Dispatch(Output, Option<BatchKey>),
    /// Stop.
    Stop,
}

/// The events a phase waits for.
pub open spec fn processor_expects<Input, Output>(phase: ProcessorPhase, e: ProcessorEvent<Input, Output>) -> bool {
    match phase {
        ProcessorPhase::Receiving => e is Received,
        ProcessorPhase::Handling => e is Handled,
        ProcessorPhase::Dispatching => e is Dispatched,
        ProcessorPhase::Stopped => false,
    }
}

/// One step of a processor: a message goes to the handler; what the handler
/// asks to dispatch is dispatched with its key; then the next message is
/// received; a closed input channel stops the processor.
pub open spec fn processor_next<Input, Output>(e: ProcessorEvent<Input, Output>) -> (ProcessorPhase, ProcessorAction<
    Input,
    Output,
>) {
    match e {
        ProcessorEvent::Received(Some(m)) => (ProcessorPhase::Handling, ProcessorAction::Handle(m)),
        ProcessorEvent::Received(None) => (ProcessorPhase::Stopped, ProcessorAction::Stop),
        ProcessorEvent::Handled(ProcResult::Dispatch(o, key)) => (
            ProcessorPhase::Dispatching,
            ProcessorAction::Dispatch(o, key),
        ),
        _ => (ProcessorPhase::Receiving, ProcessorAction::Receive),
    }
}

/// Drives a processor.
pub struct ProcessorLoop {
    phase: ProcessorPhase,
}

impl ProcessorLoop {
    /// A processor that starts by receiving.
    pub fn new() -> (p: Self)
        ensures
            p.phase() == ProcessorPhase::Receiving,
    {
        ProcessorLoop { phase: ProcessorPhase::Receiving }
    }

    /// Where the processor stands.
    pub closed spec fn phase(&self) -> ProcessorPhase {
        self.phase
    }

    /// Where the processor stands.
    pub fn current_phase(&self) -> (p: ProcessorPhase)
        ensures
            p == self.phase(),
    {
        self.phase
    }

    /// Takes in what happened and says what to do next.
    pub fn step<Input, Output>(&mut self, event: ProcessorEvent<Input, Output>) -> (a: ProcessorAction<Input, Output>)
        requires
            processor_expects(old(self).phase(), event),
        ensures
            (final(self).phase(), a) == processor_next(event),
    {
        match event {
            ProcessorEvent::Received(Some(m)) => {
                self.phase = ProcessorPhase::Handling;
                ProcessorAction::Handle(m)
            },
            ProcessorEvent::Received(None) => {
                self.phase = ProcessorPhase::Stopped;
                ProcessorAction::Stop
            },
            ProcessorEvent::Handled(ProcResult::Dispatch(o, key)) => {
                self.phase = ProcessorPhase::Dispatching;
                ProcessorAction::Dispatch(o, key)
            },
            _ => {
                self.phase = ProcessorPhase::Receiving;
                ProcessorAction::Receive
            },
        }
    }
}

/// A processor dispatches exactly what its handler asks to dispatch, with
/// the key the handler gave, and dispatches nothing for a skipped message;
/// it stops only when its input channel closes.
pub proof fn law_processor_dispatches_handled<Input, Output>(e: ProcessorEvent<Input, Output>)
    ensures
        e matches ProcessorEvent::Handled(ProcResult::Dispatch(o, key)) ==> processor_next(e).1
            == ProcessorAction::<Input, Output>::Dispatch(o, key),
        e matches ProcessorEvent::Handled(ProcResult::Continue) ==> processor_next(e).1 is Receive,
        processor_next(e).1 is Stop <==> e matches ProcessorEvent::Received(None),
        e matches ProcessorEvent::Received(Some(m)) ==> processor_next(e).1 == ProcessorAction::<Input, Output>::Handle(m),
        e is Dispatched ==> processor_next(e).1 is Receive,
{
}

} // verus!
