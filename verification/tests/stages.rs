use std::collections::VecDeque;
use tokio_sky::batcher::{BatchAction, BatchEvent, BatchPhase, Batcher, BatcherTerminate};
use tokio_sky::builtin::collector::{BufferFill, FillEvent, FillStep};
use tokio_sky::dispatcher::{DispatchError, RouterType};
use tokio_sky::processor::{ProcResult, ProcessorAction, ProcessorEvent, ProcessorLoop, ProcessorPhase};
use tokio_sky::producer::{ProducerAction, ProducerEvent, ProducerLoop, ProducerPhase, Terminate};

fn handed(a: BatchAction<u32>) -> Vec<u32> {
    match a {
        BatchAction::HandleBatch(b) => b,
        other => panic!("expected a batch, got {:?}", other),
    }
}

#[test]
fn batcher_hands_over_full_batches() {
    let mut b = Batcher::new(3);
    assert!(matches!(b.step(BatchEvent::Received(1)), BatchAction::Wait));
    assert!(matches!(b.step(BatchEvent::Received(2)), BatchAction::Wait));
    assert_eq!(handed(b.step(BatchEvent::Received(3))), vec![1, 2, 3]);
    assert_eq!(b.phase(), BatchPhase::FlushedFull);
    assert!(matches!(b.step(BatchEvent::Handled(Err(BatcherTerminate(vec![9])))), BatchAction::Wait));
    assert_eq!(b.phase(), BatchPhase::Waiting);
}

#[test]
fn batcher_timer_flushes_only_a_non_empty_batch() {
    let mut b = Batcher::new(10);
    assert!(matches!(b.step(BatchEvent::TimerFired), BatchAction::Wait));
    b.step(BatchEvent::Received(4));
    assert_eq!(handed(b.step(BatchEvent::TimerFired)), vec![4]);
    assert!(matches!(b.step(BatchEvent::Handled(Ok(()))), BatchAction::Wait));
}

#[test]
fn batcher_timer_flush_refused_is_drained_then_waits_again() {
    let mut b = Batcher::new(10);
    b.step(BatchEvent::Received(4));
    b.step(BatchEvent::Received(5));
    assert_eq!(handed(b.step(BatchEvent::TimerFired)), vec![4, 5]);
    match b.step(BatchEvent::Handled(Err(BatcherTerminate(vec![4, 5])))) {
        BatchAction::Drain(d) => assert_eq!(d, vec![4, 5]),
        other => panic!("expected a drain, got {:?}", other),
    }
    assert!(matches!(b.step(BatchEvent::Done), BatchAction::Terminate));
    assert!(matches!(b.step(BatchEvent::Done), BatchAction::Wait));
    assert_eq!(b.phase(), BatchPhase::Waiting);
}

#[test]
fn batcher_close_flushes_terminates_and_stops() {
    let mut b = Batcher::new(10);
    b.step(BatchEvent::Received(1));
    assert_eq!(handed(b.step(BatchEvent::Closed)), vec![1]);
    assert!(matches!(b.step(BatchEvent::Handled(Ok(()))), BatchAction::Terminate));
    assert!(matches!(b.step(BatchEvent::Done), BatchAction::Stop));
    assert_eq!(b.phase(), BatchPhase::Stopped);
}

#[test]
fn batcher_close_with_refused_batch_drains_first() {
    let mut b = Batcher::new(10);
    b.step(BatchEvent::Received(1));
    b.step(BatchEvent::Closed);
    assert!(matches!(b.step(BatchEvent::Handled(Err(BatcherTerminate(vec![1])))), BatchAction::Drain(_)));
    assert!(matches!(b.step(BatchEvent::Done), BatchAction::Terminate));
    assert!(matches!(b.step(BatchEvent::Done), BatchAction::Stop));
}

#[test]
fn batcher_close_with_empty_batch_terminates() {
    let mut b: Batcher<u32> = Batcher::new(10);
    assert!(matches!(b.step(BatchEvent::Closed), BatchAction::Terminate));
    assert!(matches!(b.step(BatchEvent::Done), BatchAction::Stop));
}

#[test]
fn producer_refuses_partition() {
    assert!(ProducerLoop::<u32>::new(RouterType::Partition, 10).is_err());
    assert!(ProducerLoop::<u32>::new(RouterType::RoundRobin, 10).is_ok());
    assert!(ProducerLoop::<u32>::new(RouterType::Broadcast, 10).is_ok());
}

#[test]
fn producer_dispatches_in_order_and_drains_on_no_destination() {
    let mut p = ProducerLoop::new(RouterType::RoundRobin, 3).unwrap();
    assert_eq!(p.phase(), ProducerPhase::Starting);
    assert!(matches!(p.step(ProducerEvent::Started), ProducerAction::Init));
    assert!(matches!(p.step(ProducerEvent::Done), ProducerAction::PollShutdown));
    assert!(matches!(p.step(ProducerEvent::ShutdownPolled(false)), ProducerAction::FillBuffer(3)));
    let filled: VecDeque<u32> = vec![1, 2, 3].into_iter().collect();
    assert!(matches!(p.step(ProducerEvent::Filled(Ok(filled))), ProducerAction::Dispatch(1)));
    assert!(matches!(p.step(ProducerEvent::Dispatched(Ok(()))), ProducerAction::Dispatch(2)));
    match p.step(ProducerEvent::Dispatched(Err(DispatchError::NotExist(2)))) {
        ProducerAction::Drain(rest) => assert_eq!(rest.into_iter().collect::<Vec<u32>>(), vec![2, 3]),
        other => panic!("expected a drain, got {:?}", other),
    }
    assert!(matches!(p.step(ProducerEvent::Done), ProducerAction::Terminate));
    assert!(matches!(p.step(ProducerEvent::Done), ProducerAction::Stop));
}

#[test]
fn producer_polls_again_after_a_buffer() {
    let mut p = ProducerLoop::new(RouterType::Broadcast, 2).unwrap();
    p.step(ProducerEvent::Started);
    p.step(ProducerEvent::Done);
    p.step(ProducerEvent::ShutdownPolled(false));
    let filled: VecDeque<u32> = vec![7].into_iter().collect();
    assert!(matches!(p.step(ProducerEvent::Filled(Ok(filled))), ProducerAction::Dispatch(7)));
    assert!(matches!(p.step(ProducerEvent::Dispatched(Err(DispatchError::NotFound))), ProducerAction::PollShutdown));
    assert!(matches!(p.step(ProducerEvent::ShutdownPolled(true)), ProducerAction::Terminate));
    assert!(matches!(p.step(ProducerEvent::Done), ProducerAction::Stop));
}

#[test]
fn producer_empty_fill_polls_again() {
    let mut p = ProducerLoop::<u32>::new(RouterType::RoundRobin, 2).unwrap();
    p.step(ProducerEvent::Started);
    p.step(ProducerEvent::Done);
    p.step(ProducerEvent::ShutdownPolled(false));
    assert!(matches!(p.step(ProducerEvent::Filled(Ok(VecDeque::new()))), ProducerAction::PollShutdown));
}

#[test]
fn producer_source_done_terminates() {
    let mut p = ProducerLoop::<u32>::new(RouterType::RoundRobin, 2).unwrap();
    p.step(ProducerEvent::Started);
    p.step(ProducerEvent::Done);
    p.step(ProducerEvent::ShutdownPolled(false));
    assert!(matches!(p.step(ProducerEvent::Filled(Err(Terminate))), ProducerAction::Terminate));
    assert!(matches!(p.step(ProducerEvent::Done), ProducerAction::Stop));
    assert_eq!(p.phase(), ProducerPhase::Stopped);
}

#[test]
fn fill_returns_when_full() {
    let mut f = BufferFill::new(2);
    assert!(matches!(f.step(FillEvent::Received(1u32)), FillStep::Accepted));
    assert!(matches!(f.step(FillEvent::Skipped), FillStep::Pending));
    match f.step(FillEvent::Received(2)) {
        FillStep::Ready(Ok(b)) => assert_eq!(b.into_iter().collect::<Vec<u32>>(), vec![1, 2]),
        other => panic!("expected a full buffer, got {:?}", other),
    }
    assert!(f.is_finished());
}

#[test]
fn fill_timer_returns_only_a_non_empty_buffer() {
    let mut f = BufferFill::new(5);
    assert!(matches!(f.step(FillEvent::TimerFired), FillStep::Pending));
    f.step(FillEvent::Received(3u32));
    match f.step(FillEvent::TimerFired) {
        FillStep::Ready(Ok(b)) => assert_eq!(b.into_iter().collect::<Vec<u32>>(), vec![3]),
        other => panic!("expected a buffer, got {:?}", other),
    }
}

#[test]
fn fill_closed_source() {
    let mut f = BufferFill::<u32>::new(5);
    assert!(matches!(f.step(FillEvent::Closed), FillStep::Ready(Err(Terminate))));
    let mut g = BufferFill::new(5);
    g.step(FillEvent::Received(8u32));
    match g.step(FillEvent::Closed) {
        FillStep::Ready(Ok(b)) => assert_eq!(b.into_iter().collect::<Vec<u32>>(), vec![8]),
        other => panic!("expected a buffer, got {:?}", other),
    }
}

#[test]
fn processor_handles_and_dispatches() {
    let mut p = ProcessorLoop::new();
    assert_eq!(p.current_phase(), ProcessorPhase::Receiving);
    assert!(matches!(p.step::<u8, u8>(ProcessorEvent::Received(Some(4))), ProcessorAction::Handle(4)));
    match p.step::<u8, u8>(ProcessorEvent::Handled(ProcResult::Dispatch(5, Some("k".to_string())))) {
        ProcessorAction::Dispatch(o, Some(k)) => {
            assert_eq!(o, 5);
            assert_eq!(k, "k");
        },
        other => panic!("expected a dispatch, got {:?}", other),
    }
    assert!(matches!(p.step::<u8, u8>(ProcessorEvent::Dispatched), ProcessorAction::Receive));
    p.step::<u8, u8>(ProcessorEvent::Received(Some(6)));
    assert!(matches!(p.step::<u8, u8>(ProcessorEvent::Handled(ProcResult::Continue)), ProcessorAction::Receive));
    assert!(matches!(p.step::<u8, u8>(ProcessorEvent::Received(None)), ProcessorAction::Stop));
    assert_eq!(p.current_phase(), ProcessorPhase::Stopped);
}

#[test]
fn producer_terminates_on_shutdown() {
    let mut p = ProducerLoop::<u32>::new(RouterType::RoundRobin, 2).unwrap();
    assert!(matches!(p.step(ProducerEvent::Started), ProducerAction::Init));
    assert!(matches!(p.step(ProducerEvent::Done), ProducerAction::PollShutdown));
    assert!(matches!(p.step(ProducerEvent::ShutdownPolled(true)), ProducerAction::Terminate));
    assert_eq!(p.phase(), ProducerPhase::Terminating);
    assert!(matches!(p.step(ProducerEvent::Done), ProducerAction::Stop));
}

#[test]
fn forward_has_no_key() {
    assert!(matches!(ProcResult::forward(3u8), ProcResult::Dispatch(3, None)));
}
